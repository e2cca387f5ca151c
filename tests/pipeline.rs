use modernization_check::pipeline::{Event, Phase, Pipeline, Step, TaskReport};

fn envelope(code: &str) -> String {
    let inner = format!("{{\"modernized_rust\":\"{}\"}}", code);
    let quoted = inner.replace('\\', "\\\\").replace('"', "\\\"");
    format!("{{\"candidates\":[{{\"content\":{{\"parts\":[{{\"text\":\"{}\"}}]}}}}]}}", quoted)
}

fn ran(out: &str) -> Event {
    Event::Ran { success: true, stdout: String::new(), output_file: Some(out.to_string()), stderr: String::new() }
}

fn report(step: Step) -> TaskReport {
    match step {
        Step::Respond(r) => r,
        _ => panic!("expected a response"),
    }
}

fn run_cobol(candidate_build: Event, candidate_run: Option<Event>) -> (TaskReport, String) {
    let (mut p, s) = Pipeline::start("t1".to_string(), "b".to_string(), "src/loan.cbl".to_string(), 1700000000);
    assert!(matches!(s, Step::Fetch { ref key, .. } if key == "src/loan.cbl"));
    let s = p.step(Event::ObjectRead(b"PROCEDURE DIVISION.".to_vec()));
    assert!(matches!(s, Step::Fetch { ref key, .. } if key == "data/loan_data.json"));
    let s = p.step(Event::ObjectRead(b"{\"loan_amount\":\"001000000\"}".to_vec()));
    assert!(matches!(s, Step::Translate { ref request, .. } if request.contains("PROCEDURE DIVISION.")));
    let s = p.step(Event::ServiceAnswered { status: 200, body: envelope("fn main() {}") });
    assert!(matches!(s, Step::BuildLegacy { .. }));
    let s = p.step(Event::Built { success: true, diagnostic: String::new() });
    assert!(matches!(s, Step::RunLegacy { ref fixture } if fixture == "10000.00"));
    let s = p.step(ran("CALCULATED INTEREST: 550.00\n"));
    assert!(matches!(s, Step::BuildCandidate { ref source } if source == "fn main() {}"));
    let mut s = p.step(candidate_build);
    if let Some(ev) = candidate_run {
        assert!(matches!(s, Step::RunCandidate { .. }));
        s = p.step(ev);
    }
    let key = match s {
        Step::Store { key, content, .. } => {
            assert_eq!(content, "fn main() {}");
            key
        }
        _ => panic!("expected a store"),
    };
    let s = p.step(Event::Stored);
    assert!(matches!(s, Step::Store { ref key, .. } if key == "raw_logs/t1_1700000000.json"));
    let s = p.step(Event::Stored);
    assert!(matches!(s, Step::Presign { ttl_secs: 3600, .. }));
    let s = p.step(Event::Presigned(Some("https://c".to_string())));
    assert!(matches!(s, Step::Presign { .. }));
    let r = report(p.step(Event::Presigned(None)));
    assert_eq!(p.phase(), Phase::Finished);
    (r, key)
}

#[test]
fn pipeline_validated() {
    let (r, key) = run_cobol(Event::Built { success: true, diagnostic: String::new() }, Some(ran("CALCULATED INTEREST: 550.00")));
    assert_eq!(key, "modernized/validated/t1_1700000000.rs");
    assert!(r.matched && r.classified);
    assert_eq!(r.task_id, "t1");
    assert_eq!(r.candidate_url, Some("https://c".to_string()));
    assert_eq!(r.transcript_url, None);
}

#[test]
fn pipeline_needs_review() {
    let (r, key) = run_cobol(Event::Built { success: true, diagnostic: String::new() }, Some(ran("CALCULATED INTEREST: 550.0")));
    assert_eq!(key, "modernized/needs-review/t1_1700000000.rs");
    assert!(!r.matched && r.classified);
}

#[test]
fn pipeline_candidate_build_failure() {
    let (r, key) = run_cobol(Event::Built { success: false, diagnostic: "error[E0599]: no method".to_string() }, None);
    assert_eq!(key, "modernized/failed/t1_1700000000.rs");
    assert!(!r.matched && r.classified);
    assert!(r.status_message.contains("error[E0599]: no method"));
}

#[test]
fn pipeline_assembler_is_unvalidated() {
    let (mut p, _) = Pipeline::start("t2".to_string(), "b".to_string(), "x.asm".to_string(), 7);
    let s = p.step(Event::ObjectRead(b"LR 1,2".to_vec()));
    assert!(matches!(s, Step::Translate { .. }));
    let s = p.step(Event::ServiceAnswered { status: 200, body: envelope("fn main() {}") });
    assert!(matches!(s, Step::BuildCandidate { .. }));
    let s = p.step(Event::Built { success: true, diagnostic: String::new() });
    assert!(matches!(s, Step::Store { ref key, .. } if key == "modernized/unvalidated/t2_7.rs"));
}

#[test]
fn pipeline_early_failures_are_unclassified() {
    let (mut p, _) = Pipeline::start("t3".to_string(), "b".to_string(), "x.cbl".to_string(), 7);
    let r = report(p.step(Event::StorageFailed("AccessDenied".to_string())));
    assert_eq!(r.task_id, "t3");
    assert!(!r.classified && !r.matched);
    assert_eq!(r.status_message, "Object storage access failed: AccessDenied");

    let (mut p, _) = Pipeline::start("t4".to_string(), "b".to_string(), "x.asm".to_string(), 7);
    p.step(Event::ObjectRead(b"LR 1,2".to_vec()));
    let r = report(p.step(Event::ServiceAnswered { status: 429, body: "slow down".to_string() }));
    assert_eq!(r.status_message, "API Error 429: slow down");
    assert!(!r.classified);

    let (mut p, _) = Pipeline::start("t5".to_string(), "b".to_string(), "x.asm".to_string(), 7);
    let r = report(p.step(Event::ObjectRead(vec![0xff, 0xfe])));
    assert!(!r.classified);
    assert_eq!(p.phase(), Phase::Finished);
}

#[test]
fn pipeline_presign_failure_leaves_handle_missing() {
    let (mut p, _) = Pipeline::start("t6".to_string(), "b".to_string(), "x.asm".to_string(), 9);
    p.step(Event::ObjectRead(b"LR 1,2".to_vec()));
    p.step(Event::ServiceAnswered { status: 200, body: envelope("fn main() {}") });
    p.step(Event::Built { success: true, diagnostic: String::new() });
    p.step(Event::Stored);
    let s = p.step(Event::Stored);
    assert!(matches!(s, Step::Presign { ref key, ttl_secs: 3600, .. } if key == "modernized/unvalidated/t6_9.rs"));
    let s = p.step(Event::Presigned(None));
    assert!(matches!(s, Step::Presign { ref key, .. } if key == "raw_logs/t6_9.json"));
    let r = report(p.step(Event::Presigned(Some("https://t".to_string()))));
    assert!(r.classified && !r.matched);
    assert_eq!(r.candidate_url, None);
    assert_eq!(r.transcript_url, Some("https://t".to_string()));
    assert_eq!(r.status_message, "Rust compiles successfully. Assembler validation requires mainframe access.");
}

#[test]
fn pipeline_bad_fixture_amount_aborts() {
    let (mut p, _) = Pipeline::start("t7".to_string(), "b".to_string(), "x.cob".to_string(), 9);
    p.step(Event::ObjectRead(b"PROCEDURE DIVISION.".to_vec()));
    let r = report(p.step(Event::ObjectRead(b"{\"loan_amount\":\"12x\"}".to_vec())));
    assert!(!r.classified && !r.matched);
    assert_eq!(r.status_message, "Fixture amount is not a count of cents in range");
}

#[test]
fn pipeline_legacy_build_failure_is_failed() {
    let (mut p, _) = Pipeline::start("t8".to_string(), "b".to_string(), "x.cbl".to_string(), 9);
    p.step(Event::ObjectRead(b"PROCEDURE DIVISION.".to_vec()));
    p.step(Event::ObjectRead(b"{\"loan_amount\":\"001000000\"}".to_vec()));
    p.step(Event::ServiceAnswered { status: 200, body: envelope("fn main() {}") });
    let s = p.step(Event::Built { success: false, diagnostic: "bad pic".to_string() });
    assert!(matches!(s, Step::BuildCandidate { .. }));
    let s = p.step(Event::Built { success: true, diagnostic: String::new() });
    assert!(matches!(s, Step::RunCandidate { .. }));
    let s = p.step(ran("CALCULATED INTEREST: 550.00"));
    assert!(matches!(s, Step::Store { ref key, .. } if key == "modernized/failed/t8_9.rs"));
}
