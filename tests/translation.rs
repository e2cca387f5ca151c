use modernization_check::classify::SourceKind;
use modernization_check::translation::{
    fixture_from_record, read_translation, translation_instruction, translation_request, FixtureError,
    TranslationError,
};

fn envelope(text: &str) -> String {
    let quoted = text.replace('\\', "\\\\").replace('"', "\\\"");
    format!("{{\"candidates\":[{{\"content\":{{\"parts\":[{{\"text\":\"{}\"}}]}}}}]}}", quoted)
}

#[test]
fn reads_candidate_program() {
    let body = envelope("{\"modernized_rust\":\"fn main() {}\",\"notes\":\"n\"}");
    let r = read_translation(200, body.clone()).ok().unwrap();
    assert_eq!(r.candidate_source, "fn main() {}");
    assert_eq!(r.raw_transcript, body);
}

#[test]
fn translation_errors() {
    match read_translation(503, "overloaded".to_string()) {
        Err(TranslationError::Status { code, body }) => {
            assert_eq!(code, 503);
            assert_eq!(body, "overloaded");
        }
        _ => panic!("expected a status error"),
    }
    assert!(matches!(read_translation(200, "not json".to_string()), Err(TranslationError::MalformedResponse)));
    assert!(matches!(read_translation(200, "{}".to_string()), Err(TranslationError::MissingCode)));
    assert!(matches!(read_translation(200, envelope("not json")), Err(TranslationError::MalformedPayload)));
    assert!(matches!(read_translation(200, envelope("{\"notes\":\"x\"}")), Err(TranslationError::MissingCode)));
    assert!(matches!(read_translation(200, envelope("{\"modernized_rust\":5}")), Err(TranslationError::MissingCode)));
    let e = TranslationError::Status { code: 503, body: "overloaded".to_string() };
    assert_eq!(e.message(), "API Error 503: overloaded");
}

#[test]
fn fixture_record() {
    assert_eq!(fixture_from_record("{\"loan_amount\":\"001000000\"}"), Ok("10000.00".to_string()));
    assert_eq!(fixture_from_record("nope"), Err(FixtureError::MalformedRecord));
    assert_eq!(fixture_from_record("{\"loan_amount\":1000}"), Err(FixtureError::MissingAmount));
    assert_eq!(fixture_from_record("{}"), Err(FixtureError::MissingAmount));
    assert_eq!(fixture_from_record("{\"loan_amount\":\"12a\"}"), Err(FixtureError::InvalidAmount));
    assert_eq!(fixture_from_record("{\"loan_amount\":\"5\"}"), Ok("0.05".to_string()));
    assert_eq!(FixtureError::InvalidAmount.message(), "Fixture amount is not a count of cents in range");
}

#[test]
fn request_texts() {
    let i = translation_instruction(SourceKind::Cobol);
    assert!(i.starts_with("Modernize the input COBOL code"));
    assert!(i.contains("rust_decimal::Decimal"));
    assert!(i.contains("'CALCULATED INTEREST: 550.00'"));
    assert!(i.contains("format!(\"{:.2}\", value)"));
    let r = translation_request(SourceKind::Assembler, "LR 1,2");
    assert_eq!(r, "Modernize this Assembler code to Rust:\nLR 1,2\n");
}

#[test]
fn reads_encoded_candidate_program() {
    let body = envelope("{\"modernized_rust_b64\":\"  Zm4gbWFpbigpIHt9\\n\"}");
    let r = read_translation(200, body).ok().unwrap();
    assert_eq!(r.candidate_source, "fn main() {}");
    let body = envelope("{\"modernized_rust\":\"plain\",\"modernized_rust_b64\":\"Zm4gbWFpbigpIHt9\"}");
    assert_eq!(read_translation(200, body).ok().unwrap().candidate_source, "plain");
}

#[test]
fn bad_encoding_is_an_error() {
    assert!(matches!(read_translation(200, envelope("{\"modernized_rust_b64\":\"!!!\"}")), Err(TranslationError::BadEncoding)));
    assert!(matches!(read_translation(200, envelope("{\"modernized_rust_b64\":\"/w==\"}")), Err(TranslationError::BadEncoding)));
    assert_eq!(TranslationError::BadEncoding.message(), "Encoded candidate program is not base64 of UTF-8 text");
}
