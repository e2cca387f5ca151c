use modernization_check::archive::StorageCategory;
use modernization_check::classify::{
    classify_unvalidated, classify_validated, detect_source_kind, ExecutionResult, SourceKind, VariantOutcome,
};

fn completed(stdout: &str, file: Option<&str>) -> VariantOutcome {
    VariantOutcome::Completed(ExecutionResult {
        stdout: stdout.to_string(),
        output_artifact: file.map(|s| s.to_string()),
    })
}

#[test]
fn source_kind_from_extension() {
    assert_eq!(detect_source_kind("src/loan.cbl"), SourceKind::Cobol);
    assert_eq!(detect_source_kind("loan.cob"), SourceKind::Cobol);
    assert_eq!(detect_source_kind("loan.asm"), SourceKind::Assembler);
    assert_eq!(detect_source_kind("cbl"), SourceKind::Assembler);
    assert_eq!(detect_source_kind("loan.CBL"), SourceKind::Assembler);
    assert!(SourceKind::Cobol.requires_validation());
    assert!(!SourceKind::Assembler.requires_validation());
    assert_eq!(SourceKind::Cobol.language_name(), "COBOL");
}

#[test]
fn matching_outputs_are_validated() {
    let legacy = completed("", Some("CALCULATED INTEREST: 550.00\n"));
    let candidate = completed("CALCULATED INTEREST: 550.00\n", Some("CALCULATED INTEREST: 550.00"));
    let o = classify_validated(&legacy, &candidate);
    assert!(o.matched);
    assert_eq!(o.storage_category, StorageCategory::Validated);
    assert_eq!(o.status_message, "SUCCESS - Outputs match!");
}

#[test]
fn one_decimal_place_needs_review() {
    let legacy = completed("", Some("CALCULATED INTEREST: 550.00"));
    let candidate = completed("", Some("CALCULATED  INTEREST: 550.0\n"));
    let o = classify_validated(&legacy, &candidate);
    assert!(!o.matched);
    assert_eq!(o.storage_category, StorageCategory::NeedsReview);
    assert_eq!(
        o.status_message,
        "Output mismatch. COBOL: 'CALCULATED INTEREST: 550.00', Rust: 'CALCULATED INTEREST: 550.0'"
    );
}

#[test]
fn candidate_compile_failure_is_failed() {
    let legacy = completed("", Some("CALCULATED INTEREST: 550.00"));
    let diag = "error[E0425]: cannot find value `rate` in this scope";
    let o = classify_validated(&legacy, &VariantOutcome::BuildFailed(diag.to_string()));
    assert!(!o.matched);
    assert_eq!(o.storage_category, StorageCategory::Failed);
    assert!(o.status_message.contains(diag));
    assert_eq!(o.status_message, format!("Rust compilation failed: {}", diag));
}

#[test]
fn execution_failures_are_failed() {
    let o = classify_validated(
        &VariantOutcome::RunFailed("libcob: error".to_string()),
        &VariantOutcome::BuildFailed("E1".to_string()),
    );
    assert_eq!(o.storage_category, StorageCategory::Failed);
    assert_eq!(o.status_message, "COBOL execution failed: libcob: error; Rust compilation failed: E1");
    let o = classify_validated(
        &VariantOutcome::BuildFailed("bad pic".to_string()),
        &completed("x", None),
    );
    assert_eq!(o.status_message, "COBOL compilation failed: bad pic");
    assert!(!o.matched);
    let o = classify_validated(&completed("x", None), &VariantOutcome::RunFailed("panic".to_string()));
    assert_eq!(o.status_message, "Rust execution failed: panic");
    assert_eq!(o.storage_category, StorageCategory::Failed);
}

#[test]
fn stdout_is_the_fallback_capture() {
    let o = classify_validated(&completed("A  B", None), &completed("ignored", Some("A B\n")));
    assert!(o.matched);
    let o = classify_validated(&completed("A B", Some("C")), &completed("A B", None));
    assert!(!o.matched);
}

#[test]
fn unvalidated_dialect_reports_build() {
    let o = classify_unvalidated(true, "");
    assert!(!o.matched);
    assert_eq!(o.status_message, "Rust compiles successfully. Assembler validation requires mainframe access.");
    assert_eq!(o.storage_category, StorageCategory::Unvalidated);
    let o = classify_unvalidated(false, "E0308");
    assert_eq!(o.status_message, "Rust compilation failed: E0308");
    assert_eq!(o.storage_category, StorageCategory::Unvalidated);
}
