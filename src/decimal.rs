//! Decimal text of integers, and the fixture amount: a scaled integer count
//! of cents turned into a fixed-point decimal string.

use vstd::prelude::*;
use crate::text::{chars_of, push_char};

verus! {

pub open spec fn is_digit(c: char) -> bool {
    '0' <= c && c <= '9'
}

pub open spec fn digit_value(c: char) -> int {
    c as int - '0' as int
}

pub open spec fn digit_char(d: int) -> char {
    (d + '0' as int) as char
}

pub open spec fn all_digits(s: Seq<char>) -> bool {
    forall|i: int| 0 <= i < s.len() ==> is_digit(#[trigger] s[i])
}

/// The number that a string of decimal digits spells.
pub open spec fn digits_value(s: Seq<char>) -> nat
    decreases s.len(),
{
    if s.len() == 0 {
        0
    } else {
        (10 * digits_value(s.drop_last()) + digit_value(s.last())) as nat
    }
}

/// The shortest decimal digits of `n`.
pub open spec fn nat_text(n: nat) -> Seq<char>
    decreases n,
{
    if n < 10 {
        seq![digit_char(n as int)]
    } else {
        nat_text(n / 10).push(digit_char(n as int % 10))
    }
}

/// Decimal text of an integer, with a leading `-` when negative.
pub open spec fn int_text(v: int) -> Seq<char> {
    if v < 0 {
        seq!['-'] + nat_text((-v) as nat)
    } else {
        nat_text(v as nat)
    }
}

pub fn digit_to_char(d: u64) -> (c: char)
    requires
        d < 10,
    ensures
        c == digit_char(d as int),
{
    ((d as u8) + 48u8) as char
}

/// Appends the decimal digits of `n`.
pub fn push_nat_text(out: &mut String, n: u64)
    ensures
        final(out)@ == old(out)@ + nat_text(n as nat),
    decreases n,
{
    if n >= 10 {
        push_nat_text(out, n / 10);
        push_char(out, digit_to_char(n % 10));
        assert(final(out)@ =~= old(out)@ + nat_text(n as nat));
    } else {
        push_char(out, digit_to_char(n));
        assert(final(out)@ =~= old(out)@ + nat_text(n as nat));
    }
}

/// Appends the decimal text of `v`.
pub fn push_int_text(out: &mut String, v: i64)
    ensures
        final(out)@ == old(out)@ + int_text(v as int),
{
    if v < 0 {
        push_char(out, '-');
        let m: u64 = ((-(v + 1)) as u64) + 1;
        push_nat_text(out, m);
        assert(final(out)@ =~= old(out)@ + int_text(v as int));
    } else {
        push_nat_text(out, v as u64);
    }
}

/// Decimal text of `v`.
pub fn int_to_text(v: i64) -> (r: String)
    ensures
        r@ == int_text(v as int),
{
    let mut out = String::new();
    push_int_text(&mut out, v);
    assert(out@ =~= int_text(v as int));
    out
}

proof fn lemma_saturate_step(v: nat, d: nat, cap: nat)
    requires
        d < 10,
    ensures
        ({
            let m = if v <= cap {
                v
            } else {
                cap + 1
            };
            let a = 10 * m + d;
            let b = 10 * v + d;
            (if a <= cap {
                a
            } else {
                cap + 1
            }) == (if b <= cap {
                b
            } else {
                cap + 1
            })
        }),
{
}

/// Largest amount in cents accepted: its whole part still fits an `i64`.
pub const MAX_AMOUNT_CENTS: u128 = 922337203685477580799;

/// An amount in cents as stored: one or more ASCII digits, within range.
pub open spec fn valid_amount(s: Seq<char>) -> bool {
    s.len() > 0 && all_digits(s) && digits_value(s) <= MAX_AMOUNT_CENTS
}

/// The fixed-point decimal text of `v` cents: the whole units, a point, and
/// exactly two digits of cents.
pub open spec fn amount_text(v: nat) -> Seq<char> {
    nat_text(v / 100) + seq!['.', digit_char((v % 100) as int / 10), digit_char(v as int % 10)]
}

/// Converts an amount in cents, such as `"001000000"`, to its decimal text
/// `"10000.00"`; `None` where the amount is not a string of digits within
/// range.
pub fn fixture_amount(cents: &str) -> (r: Option<String>)
    ensures
        valid_amount(cents@) ==> (r matches Some(t) && t@ == amount_text(digits_value(cents@))),
        !valid_amount(cents@) ==> r is None,
{
    let cs = chars_of(cents);
    let n = cs.len();
    if n == 0 {
        return None;
    }
    let cap: u128 = MAX_AMOUNT_CENTS;
    let mut mag: u128 = 0;
    let mut i: usize = 0;
    while i < n
        invariant
            cs@ == cents@,
            n == cs@.len(),
            i <= n,
            cap == MAX_AMOUNT_CENTS,
            all_digits(cs@.take(i as int)),
            mag == (if digits_value(cs@.take(i as int)) <= cap {
                digits_value(cs@.take(i as int))
            } else {
                (cap + 1) as nat
            }),
        decreases n - i,
    {
        let c = cs[i];
        let ghost pre = cs@.take(i as int);
        assert(cs@.take(i + 1).drop_last() =~= pre);
        if !('0' <= c && c <= '9') {
            assert(!is_digit(cs@[i as int]));
            return None;
        }
        let d = (c as u32 - '0' as u32) as u128;
        proof {
            lemma_saturate_step(digits_value(pre), d as nat, cap as nat);
        }
        let a = 10 * mag + d;
        mag = if a <= cap {
            a
        } else {
            cap + 1
        };
        i = i + 1;
    }
    assert(cs@.take(n as int) =~= cs@);
    if mag > cap {
        return None;
    }
    let mut out = String::new();
    push_nat_text(&mut out, (mag / 100) as u64);
    push_char(&mut out, '.');
    push_char(&mut out, digit_to_char(((mag % 100) / 10) as u64));
    push_char(&mut out, digit_to_char((mag % 10) as u64));
    assert(out@ =~= amount_text(digits_value(cents@)));
    Some(out)
}

} // verus!
