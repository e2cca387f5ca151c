//! Whitespace normalisation and the output comparator.

use vstd::prelude::*;
use vstd::utf8::{decode_utf8, valid_utf8};

verus! {

broadcast use vstd::string::group_string_axioms;

/// A character that `char::is_whitespace` accepts: the Unicode `White_Space` set.
pub open spec fn is_space(c: char) -> bool {
    let u = c as u32;
    (0x09 <= u && u <= 0x0d) || u == 0x20 || u == 0x85 || u == 0xa0 || u == 0x1680 || (0x2000
        <= u && u <= 0x200a) || u == 0x2028 || u == 0x2029 || u == 0x202f || u == 0x205f || u
        == 0x3000
}

/// Reading `s` left to right: the collapsed text so far, and whether a run of
/// whitespace has been seen since its last character.
pub open spec fn scan(s: Seq<char>) -> (Seq<char>, bool)
    decreases s.len(),
{
    if s.len() == 0 {
        (Seq::empty(), false)
    } else {
        let (o, gap) = scan(s.drop_last());
        let c = s.last();
        if is_space(c) {
            (o, o.len() > 0)
        } else if gap {
            (o.push(' ').push(c), false)
        } else {
            (o.push(c), false)
        }
    }
}

/// `s` with every run of whitespace replaced by one space, and none at either end.
pub open spec fn normalized(s: Seq<char>) -> Seq<char> {
    scan(s).0
}

/// Text already in normal form: its only whitespace is single inner spaces.
pub open spec fn canonical(t: Seq<char>) -> bool {
    forall|i: int|
        0 <= i < t.len() && is_space(#[trigger] t[i]) ==> t[i] == ' ' && 0 < i < t.len() - 1
            && !is_space(t[i + 1])
}

pub fn is_space_char(c: char) -> (r: bool)
    ensures
        r == is_space(c),
{
    let u = c as u32;
    (0x09 <= u && u <= 0x0d) || u == 0x20 || u == 0x85 || u == 0xa0 || u == 0x1680 || (0x2000
        <= u && u <= 0x200a) || u == 0x2028 || u == 0x2029 || u == 0x202f || u == 0x205f || u
        == 0x3000
}

/// The characters of `s` in order.
pub(crate) fn chars_of(s: &str) -> (r: Vec<char>)
    ensures
        r@ == s@,
{
    let mut v: Vec<char> = Vec::new();
    for c in it: s.chars()
        invariant
            it.seq() == s@,
            v.len() == it.index(),
            forall|i: int| 0 <= i < v.len() ==> v@[i] == it.seq()[i],
    {
        v.push(c);
    }
    assert(v@ =~= s@);
    v
}

/// Relies on `String::push`: appends one character.
#[verifier::external_body]
pub(crate) fn push_char(s: &mut String, c: char)
    ensures
        final(s)@ == old(s)@.push(c),
{
    s.push(c)
}

/// Relies on `String::from_utf8`: the text that `b` encodes, or `None`
/// where `b` is not UTF-8.
#[verifier::external_body]
pub(crate) fn text_from_utf8(b: Vec<u8>) -> (r: Option<String>)
    ensures
        r is Some <==> valid_utf8(b@),
        r matches Some(s) ==> s@ == decode_utf8(b@),
{
    String::from_utf8(b).ok()
}

/// `s` without its leading whitespace.
pub open spec fn trim_start(s: Seq<char>) -> Seq<char>
    decreases s.len(),
{
    if s.len() > 0 && is_space(s[0]) {
        trim_start(s.skip(1))
    } else {
        s
    }
}

/// `s` without its trailing whitespace.
pub open spec fn trim_end(s: Seq<char>) -> Seq<char>
    decreases s.len(),
{
    if s.len() > 0 && is_space(s.last()) {
        trim_end(s.drop_last())
    } else {
        s
    }
}

/// `s` without leading or trailing whitespace, as `str::trim` gives it.
pub open spec fn trimmed(s: Seq<char>) -> Seq<char> {
    trim_end(trim_start(s))
}

/// Removes leading and trailing whitespace.
pub fn trim(text: &str) -> (r: String)
    ensures
        r@ == trimmed(text@),
{
    let cs = chars_of(text);
    let n = cs.len();
    let mut i: usize = 0;
    assert(cs@.subrange(0, n as int) =~= cs@);
    while i < n && is_space_char(cs[i])
        invariant
            cs@ == text@,
            n == cs@.len(),
            i <= n,
            trim_start(cs@) == trim_start(cs@.subrange(i as int, n as int)),
        decreases n - i,
    {
        assert(cs@.subrange(i as int, n as int).skip(1) =~= cs@.subrange(i + 1, n as int));
        i = i + 1;
    }
    proof {
        let t = cs@.subrange(i as int, n as int);
        if i < n {
            assert(t[0] == cs@[i as int]);
        }
        assert(trim_start(t) == t);
    }
    let mut j: usize = n;
    while j > i && is_space_char(cs[j - 1])
        invariant
            i <= j <= n == cs@.len(),
            trim_end(cs@.subrange(i as int, n as int)) == trim_end(
                cs@.subrange(i as int, j as int),
            ),
        decreases j,
    {
        assert(cs@.subrange(i as int, j as int).drop_last() =~= cs@.subrange(
            i as int,
            j - 1,
        ));
        j = j - 1;
    }
    proof {
        let u = cs@.subrange(i as int, j as int);
        if j > i {
            assert(u.last() == cs@[j - 1]);
        }
        assert(trim_end(u) == u);
    }
    let mut out = String::new();
    let mut k = i;
    while k < j
        invariant
            i <= k <= j <= n == cs@.len(),
            out@ == cs@.subrange(i as int, k as int),
        decreases j - k,
    {
        push_char(&mut out, cs[k]);
        assert(cs@.subrange(i as int, k + 1) =~= cs@.subrange(i as int, k as int).push(
            cs@[k as int],
        ));
        k = k + 1;
    }
    out
}

/// Collapses every run of whitespace into one space and trims both ends.
pub fn normalize(text: &str) -> (r: String)
    ensures
        r@ == normalized(text@),
{
    let cs = chars_of(text);
    let mut out = String::new();
    let mut gap = false;
    let mut started = false;
    let mut i: usize = 0;
    while i < cs.len()
        invariant
            cs@ == text@,
            i <= cs.len(),
            scan(cs@.take(i as int)) == (out@, gap),
            started == (out@.len() > 0),
        decreases cs.len() - i,
    {
        let c = cs[i];
        assert(cs@.take(i + 1).drop_last() =~= cs@.take(i as int));
        if is_space_char(c) {
            gap = started;
        } else {
            if gap {
                push_char(&mut out, ' ');
            }
            push_char(&mut out, c);
            gap = false;
            started = true;
        }
        i = i + 1;
    }
    assert(cs@.take(cs.len() as int) =~= cs@);
    out
}

/// Two outputs are equivalent when they are equal after normalisation.
pub open spec fn equivalent(a: Seq<char>, b: Seq<char>) -> bool {
    normalized(a) == normalized(b)
}

/// Output equivalence: equal after normalisation.
pub fn compare(a: &str, b: &str) -> (r: bool)
    ensures
        r == equivalent(a@, b@),
{
    let na = normalize(a);
    let nb = normalize(b);
    na == nb
}

proof fn lemma_scan_shape(s: Seq<char>)
    ensures
        canonical(scan(s).0),
        scan(s).1 ==> scan(s).0.len() > 0,
        scan(s).0.len() > 0 ==> !is_space(scan(s).0.last()),
    decreases s.len(),
{
    if s.len() > 0 {
        lemma_scan_shape(s.drop_last());
        let (o, gap) = scan(s.drop_last());
        let c = s.last();
        if !is_space(c) {
            if gap {
                let t = o.push(' ').push(c);
                assert forall|i: int| 0 <= i < t.len() && is_space(#[trigger] t[i]) implies t[i]
                    == ' ' && 0 < i < t.len() - 1 && !is_space(t[i + 1]) by {
                    if i < o.len() {
                        assert(t[i] == o[i]);
                        if i == o.len() - 1 {
                            assert(false);
                        }
                        assert(t[i + 1] == o[i + 1]);
                    }
                }
            } else {
                let t = o.push(c);
                assert forall|i: int| 0 <= i < t.len() && is_space(#[trigger] t[i]) implies t[i]
                    == ' ' && 0 < i < t.len() - 1 && !is_space(t[i + 1]) by {
                    if i < o.len() {
                        assert(t[i] == o[i]);
                        if i == o.len() - 1 {
                            assert(false);
                        }
                        assert(t[i + 1] == o[i + 1]);
                    }
                }
            }
        }
    }
}

proof fn lemma_scan_canonical_prefix(t: Seq<char>, k: int)
    requires
        canonical(t),
        0 <= k <= t.len(),
    ensures
        k > 0 && t[k - 1] == ' ' ==> scan(t.take(k)) == (t.take(k - 1), true),
        !(k > 0 && t[k - 1] == ' ') ==> scan(t.take(k)) == (t.take(k), false),
    decreases k,
{
    if k > 0 {
        lemma_scan_canonical_prefix(t, k - 1);
        assert(t.take(k).drop_last() =~= t.take(k - 1));
        assert(t.take(k).last() == t[k - 1]);
        let c = t[k - 1];
        if is_space(c) {
            if k >= 2 && t[k - 2] == ' ' {
                assert(is_space(t[k - 2]));
            }
        } else if k >= 2 && t[k - 2] == ' ' {
            assert(t.take(k - 2).push(' ').push(c) =~= t.take(k));
        } else {
            assert(t.take(k - 1).push(c) =~= t.take(k));
        }
    }
}

proof fn lemma_canonical_fixed(t: Seq<char>)
    requires
        canonical(t),
    ensures
        normalized(t) == t,
{
    lemma_scan_canonical_prefix(t, t.len() as int);
    assert(t.take(t.len() as int) =~= t);
    if t.len() > 0 && t[t.len() - 1] == ' ' {
        assert(is_space(t[t.len() - 1]));
    }
}

/// Normalising twice gives what normalising once gives.
pub proof fn lemma_normalize_idempotent(s: Seq<char>)
    ensures
        normalized(normalized(s)) == normalized(s),
{
    lemma_scan_shape(s);
    lemma_canonical_fixed(normalized(s));
}

/// The comparator is symmetric: comparing `a` with `b` decides as comparing `b` with `a`.
pub proof fn lemma_compare_symmetric(a: Seq<char>, b: Seq<char>)
    ensures
        equivalent(a, b) == equivalent(b, a),
{
}

/// The comparator is reflexive: every text matches itself.
pub proof fn lemma_compare_reflexive(a: Seq<char>)
    ensures
        equivalent(a, a),
{
}

proof fn lemma_scan_append(x: Seq<char>, y: Seq<char>, q: Seq<char>)
    requires
        scan(x) == scan(y),
    ensures
        scan(x + q) == scan(y + q),
    decreases q.len(),
{
    if q.len() > 0 {
        let q0 = q.drop_last();
        lemma_scan_append(x, y, q0);
        assert((x + q).drop_last() =~= x + q0);
        assert((y + q).drop_last() =~= y + q0);
        assert((x + q).last() == q.last());
        assert((y + q).last() == q.last());
    }
}

/// Which whitespace characters separate the words does not matter: texts that
/// differ only in that, position by position, normalise alike.
pub proof fn lemma_normalize_space_kind(a: Seq<char>, b: Seq<char>)
    requires
        a.len() == b.len(),
        forall|i: int|
            0 <= i < a.len() ==> a[i] == b[i] || (is_space(#[trigger] a[i]) && is_space(b[i])),
    ensures
        normalized(a) == normalized(b),
{
    lemma_scan_same_shape(a, b);
}

proof fn lemma_scan_same_shape(a: Seq<char>, b: Seq<char>)
    requires
        a.len() == b.len(),
        forall|i: int|
            0 <= i < a.len() ==> a[i] == b[i] || (is_space(#[trigger] a[i]) && is_space(b[i])),
    ensures
        scan(a) == scan(b),
    decreases a.len(),
{
    if a.len() > 0 {
        let a0 = a.drop_last();
        let b0 = b.drop_last();
        assert forall|i: int| 0 <= i < a0.len() implies a0[i] == b0[i] || (is_space(
            #[trigger] a0[i],
        ) && is_space(b0[i])) by {
            assert(a0[i] == a[i] && b0[i] == b[i]);
        }
        lemma_scan_same_shape(a0, b0);
        assert(a.last() == a[a.len() - 1]);
        assert(b.last() == b[b.len() - 1]);
    }
}

/// How long a run of whitespace is does not matter: doubling a whitespace
/// character anywhere leaves the normal form unchanged.
pub proof fn lemma_normalize_space_run(p: Seq<char>, w: char, v: char, q: Seq<char>)
    requires
        is_space(w),
        is_space(v),
    ensures
        normalized(p + seq![w] + q) == normalized(p + seq![w, v] + q),
{
    let x = p + seq![w];
    let y = p + seq![w, v];
    assert(y.drop_last() =~= x);
    assert(x.drop_last() =~= p);
    assert(y.last() == v);
    assert(x.last() == w);
    assert(scan(x) == scan(y));
    lemma_scan_append(x, y, q);
    assert(p + seq![w, v] + q =~= y + q);
}

} // verus!
