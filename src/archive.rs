//! Storage categories and archive keys.

use vstd::prelude::*;
use crate::decimal::{int_text, push_int_text};
use crate::text::push_char;

verus! {

/// Validity of a retrieval handle, in seconds.
pub const RETRIEVAL_TTL_SECS: u64 = 3600;

/// Where a task's candidate program is filed.
#[derive(PartialEq, Eq, Structural, Clone, Copy, Debug)]
pub enum StorageCategory {
    Validated,
    NeedsReview,
    Failed,
    Unvalidated,
}

pub open spec fn folder_text(c: StorageCategory) -> Seq<char> {
    match c {
        StorageCategory::Validated => "modernized/validated"@,
        StorageCategory::NeedsReview => "modernized/needs-review"@,
        StorageCategory::Failed => "modernized/failed"@,
        StorageCategory::Unvalidated => "modernized/unvalidated"@,
    }
}

pub open spec fn transcript_folder_text() -> Seq<char> {
    "raw_logs"@
}

/// `{folder}/{task_id}_{timestamp}.{ext}`
pub open spec fn key_text(folder: Seq<char>, task_id: Seq<char>, ts: int, ext: Seq<char>) -> Seq<
    char,
> {
    folder + seq!['/'] + task_id + seq!['_'] + int_text(ts) + seq!['.'] + ext
}

pub open spec fn candidate_key_text(c: StorageCategory, task_id: Seq<char>, ts: int) -> Seq<char> {
    key_text(folder_text(c), task_id, ts, "rs"@)
}

pub open spec fn transcript_key_text(task_id: Seq<char>, ts: int) -> Seq<char> {
    key_text(transcript_folder_text(), task_id, ts, "json"@)
}

impl StorageCategory {
    /// The folder, under the bucket, of this category.
    pub fn folder(&self) -> (r: String)
        ensures
            r@ == folder_text(*self),
    {
        match self {
            StorageCategory::Validated => String::from_str("modernized/validated"),
            StorageCategory::NeedsReview => String::from_str("modernized/needs-review"),
            StorageCategory::Failed => String::from_str("modernized/failed"),
            StorageCategory::Unvalidated => String::from_str("modernized/unvalidated"),
        }
    }
}

/// Builds `{folder}/{task_id}_{timestamp}.{ext}`.
pub fn archive_key(folder: &str, task_id: &str, ts: i64, ext: &str) -> (r: String)
    ensures
        r@ == key_text(folder@, task_id@, ts as int, ext@),
{
    let mut k = String::from_str(folder);
    push_char(&mut k, '/');
    k.append(task_id);
    push_char(&mut k, '_');
    push_int_text(&mut k, ts);
    push_char(&mut k, '.');
    k.append(ext);
    assert(k@ =~= key_text(folder@, task_id@, ts as int, ext@));
    k
}

/// Key of the candidate program of a task filed under `category`.
pub fn candidate_key(category: StorageCategory, task_id: &str, ts: i64) -> (r: String)
    ensures
        r@ == candidate_key_text(category, task_id@, ts as int),
{
    let f = category.folder();
    archive_key(f.as_str(), task_id, ts, "rs")
}

/// Key of the translation transcript of a task.
pub fn transcript_key(task_id: &str, ts: i64) -> (r: String)
    ensures
        r@ == transcript_key_text(task_id@, ts as int),
{
    archive_key("raw_logs", task_id, ts, "json")
}

/// Each category has a folder of its own, so listing a folder triages tasks.
pub proof fn lemma_folders_distinct(a: StorageCategory, b: StorageCategory)
    requires
        a != b,
    ensures
        folder_text(a) != folder_text(b),
{
    reveal_strlit("modernized/validated");
    reveal_strlit("modernized/needs-review");
    reveal_strlit("modernized/failed");
    reveal_strlit("modernized/unvalidated");
    assert(folder_text(a).len() != folder_text(b).len());
}

/// Keys built in one folder, with one extension, at one timestamp, are
/// equal only for equal task ids.
proof fn lemma_key_task_injective(f: Seq<char>, t1: Seq<char>, t2: Seq<char>, ts: int, ext: Seq<
    char,
>)
    requires
        key_text(f, t1, ts, ext) == key_text(f, t2, ts, ext),
    ensures
        t1 == t2,
{
    let n = int_text(ts);
    let r1 = t1 + seq!['_'] + n + seq!['.'] + ext;
    let r2 = t2 + seq!['_'] + n + seq!['.'] + ext;
    let k1 = key_text(f, t1, ts, ext);
    let k2 = key_text(f, t2, ts, ext);
    assert(k1 =~= (f + seq!['/']) + r1);
    assert(k2 =~= (f + seq!['/']) + r2);
    assert(r1 =~= k1.skip(f.len() as int + 1));
    assert(r2 =~= k2.skip(f.len() as int + 1));
    assert(t1.len() == t2.len());
    assert(t1 =~= r1.take(t1.len() as int));
    assert(t2 =~= r2.take(t2.len() as int));
}

/// Archive keys never collide: two different task ids archived at one
/// timestamp get different candidate keys, whatever their categories, and
/// different transcript keys; and no candidate key is a transcript key.
pub proof fn lemma_keys_distinct(
    c1: StorageCategory,
    c2: StorageCategory,
    t1: Seq<char>,
    t2: Seq<char>,
    ts: int,
)
    requires
        t1 != t2,
    ensures
        candidate_key_text(c1, t1, ts) != candidate_key_text(c2, t2, ts),
        transcript_key_text(t1, ts) != transcript_key_text(t2, ts),
        candidate_key_text(c1, t1, ts) != transcript_key_text(t2, ts),
{
    reveal_strlit("modernized/validated");
    reveal_strlit("modernized/needs-review");
    reveal_strlit("modernized/failed");
    reveal_strlit("modernized/unvalidated");
    reveal_strlit("raw_logs");
    let k1 = candidate_key_text(c1, t1, ts);
    let k2 = candidate_key_text(c2, t2, ts);
    if c1 != c2 {
        assert(k1[11] == folder_text(c1)[11]);
        assert(k2[11] == folder_text(c2)[11]);
    } else if k1 == k2 {
        lemma_key_task_injective(folder_text(c1), t1, t2, ts, "rs"@);
    }
    if transcript_key_text(t1, ts) == transcript_key_text(t2, ts) {
        lemma_key_task_injective(transcript_folder_text(), t1, t2, ts, "json"@);
    }
    assert(k1[0] == folder_text(c1)[0]);
    assert(transcript_key_text(t2, ts)[0] == transcript_folder_text()[0]);
}

} // verus!
