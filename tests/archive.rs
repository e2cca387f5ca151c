use modernization_check::archive::{archive_key, candidate_key, transcript_key, StorageCategory};

#[test]
fn candidate_keys_by_category() {
    assert_eq!(candidate_key(StorageCategory::Validated, "t1", 1700000000), "modernized/validated/t1_1700000000.rs");
    assert_eq!(candidate_key(StorageCategory::NeedsReview, "t1", 5), "modernized/needs-review/t1_5.rs");
    assert_eq!(candidate_key(StorageCategory::Failed, "t1", 5), "modernized/failed/t1_5.rs");
    assert_eq!(candidate_key(StorageCategory::Unvalidated, "t1", 5), "modernized/unvalidated/t1_5.rs");
}

#[test]
fn transcript_key_format() {
    assert_eq!(transcript_key("task-9", 1700000000), "raw_logs/task-9_1700000000.json");
    assert_eq!(archive_key("f", "id", -3, "x"), "f/id_-3.x");
}

#[test]
fn keys_differ_for_different_tasks_at_one_time() {
    let ts = 1700000000;
    assert_ne!(candidate_key(StorageCategory::Validated, "a", ts), candidate_key(StorageCategory::Validated, "b", ts));
    assert_ne!(candidate_key(StorageCategory::Unvalidated, "a_1", ts), candidate_key(StorageCategory::Unvalidated, "a", ts));
    assert_ne!(transcript_key("a", ts), transcript_key("ab", ts));
    assert_eq!(transcript_key("a", ts), transcript_key("a", ts));
    assert_ne!(
        candidate_key(StorageCategory::Unvalidated, "validated/x", ts),
        candidate_key(StorageCategory::Validated, "x", ts)
    );
    assert_ne!(
        candidate_key(StorageCategory::Failed, "x", ts),
        candidate_key(StorageCategory::Unvalidated, "x", ts)
    );
}
