//! The translation client's pure part: request text, and reading the
//! service's response and the fixture record.

use base64::Engine;
use vstd::prelude::*;
use vstd::utf8::{decode_utf8, valid_utf8};
use crate::text::{text_from_utf8, trim, trimmed};
use crate::classify::SourceKind;
use crate::decimal::{amount_text, digits_value, fixture_amount, int_text, push_int_text, valid_amount};

verus! {

/// What `serde_json::from_str::<Value>(doc)` then `Value::pointer(pointer)`
/// give: `None` where `doc` is not JSON, `Some(None)` where nothing or no
/// string stands at `pointer`, else `Some(Some(the string))`.
pub uninterp spec fn json_string_lookup(doc: Seq<char>, pointer: Seq<char>) -> Option<
    Option<Seq<char>>,
>;

pub open spec fn opt_view(o: Option<Option<String>>) -> Option<Option<Seq<char>>> {
    match o {
        None => None,
        Some(None) => Some(None),
        Some(Some(s)) => Some(Some(s@)),
    }
}

/// Relies on `serde_json::from_str` into a `serde_json::Value` and on
/// `Value::pointer`: parses `doc` and reads the string at a JSON pointer.
#[verifier::external_body]
pub(crate) fn lookup_json_string(doc: &str, pointer: &str) -> (r: Option<Option<String>>)
    ensures
        opt_view(r) == json_string_lookup(doc@, pointer@),
{
    match serde_json::from_str::<serde_json::Value>(doc) {
        Ok(v) => match v.pointer(pointer) {
            Some(serde_json::Value::String(s)) => Some(Some(s.clone())),
            _ => Some(None),
        },
        Err(_) => None,
    }
}

/// Where the service puts the model's text in its response.
pub open spec fn envelope_pointer() -> Seq<char> {
    "/candidates/0/content/parts/0/text"@
}

/// Where the model's structured text puts the candidate program.
pub open spec fn code_pointer() -> Seq<char> {
    "/modernized_rust"@
}

/// Where the model's structured text puts the program when it sends it
/// base64-encoded for transport.
pub open spec fn encoded_code_pointer() -> Seq<char> {
    "/modernized_rust_b64"@
}

/// What base64's standard engine (standard alphabet, padded) decodes `s` to,
/// or `None` where `s` is no such encoding.
pub uninterp spec fn base64_decoded(s: Seq<char>) -> Option<Seq<u8>>;

/// Relies on `base64::engine::general_purpose::STANDARD.decode`: the bytes
/// that `s` encodes.
#[verifier::external_body]
fn decode_base64(s: &str) -> (r: Option<Vec<u8>>)
    ensures
        match r {
            Some(b) => base64_decoded(s@) == Some(b@),
            None => base64_decoded(s@) is None,
        },
{
    base64::engine::general_purpose::STANDARD.decode(s).ok()
}

/// Where the fixture record keeps the amount in cents.
pub open spec fn amount_pointer() -> Seq<char> {
    "/loan_amount"@
}

/// The system instruction of a translation request: decimal-only arithmetic,
/// the fixed input and output files, and the exact output line.
pub open spec fn instruction_text(language: Seq<char>) -> Seq<char> {
    "Modernize the input "@ + language + instruction_rules()
}

pub open spec fn instruction_rules() -> Seq<char> {
    " code to idiomatic Rust. Use file I/O: read from 'input.txt' and write to 'output.txt'. CRITICAL REQUIREMENTS: - Use ONLY rust_decimal::Decimal for all numbers - Parse input with: Decimal::from_str(input.trim()).unwrap() - Format output with standard Rust format macro: format!(\"{:.2}\", value) - DO NOT use num-format, to_formatted_string, or any formatting libraries - Match exact output format: 'CALCULATED INTEREST: 550.00' Example output formatting: let result = format!(\"CALCULATED INTEREST: {:.2}\", total_interest); Return the Rust code as plain text in 'modernized_rust'."@
}

/// The user message of a translation request: the legacy source.
pub open spec fn request_text(language: Seq<char>, source: Seq<char>) -> Seq<char> {
    "Modernize this "@ + language + " code to Rust:\n"@ + source + "\n"@
}

/// Builds the system instruction for a source of `kind`.
pub fn translation_instruction(kind: SourceKind) -> (r: String)
    ensures
        r@ == instruction_text(kind.language_view()),
{
    let mut m = String::from_str("Modernize the input ");
    let lang = kind.language_name();
    m.append(lang.as_str());
    m.append(" code to idiomatic Rust. Use file I/O: read from 'input.txt' and write to 'output.txt'. CRITICAL REQUIREMENTS: - Use ONLY rust_decimal::Decimal for all numbers - Parse input with: Decimal::from_str(input.trim()).unwrap() - Format output with standard Rust format macro: format!(\"{:.2}\", value) - DO NOT use num-format, to_formatted_string, or any formatting libraries - Match exact output format: 'CALCULATED INTEREST: 550.00' Example output formatting: let result = format!(\"CALCULATED INTEREST: {:.2}\", total_interest); Return the Rust code as plain text in 'modernized_rust'.");
    assert(m@ =~= instruction_text(kind.language_view()));
    m
}

/// Builds the user message that carries the legacy source.
pub fn translation_request(kind: SourceKind, source: &str) -> (r: String)
    ensures
        r@ == request_text(kind.language_view(), source@),
{
    let mut m = String::from_str("Modernize this ");
    let lang = kind.language_name();
    m.append(lang.as_str());
    m.append(" code to Rust:\n");
    m.append(source);
    m.append("\n");
    assert(m@ =~= request_text(kind.language_view(), source@));
    m
}

/// Why a translation produced no candidate.
#[derive(Debug)]
pub enum TranslationError {
    /// The service answered with a non-success HTTP status; its body.
    Status { code: u16, body: String },
    /// The response body is not JSON.
    MalformedResponse,
    /// The model's text is not JSON.
    MalformedPayload,
    /// A required field is absent or not a string.
    MissingCode,
    /// The encoded program is not base64 of UTF-8 text.
    BadEncoding,
}

pub open spec fn translation_error_text(e: TranslationError) -> Seq<char> {
    match e {
        TranslationError::Status { code, body } => "API Error "@ + int_text(code as int) + ": "@
            + body@,
        TranslationError::MalformedResponse => "Translation response is not JSON"@,
        TranslationError::MalformedPayload => "Translation payload is not JSON"@,
        TranslationError::MissingCode => "Translation response lacks the candidate program"@,
        TranslationError::BadEncoding => "Encoded candidate program is not base64 of UTF-8 text"@,
    }
}

impl TranslationError {
    /// A human-readable description.
    pub fn message(&self) -> (r: String)
        ensures
            r@ == translation_error_text(*self),
    {
        match self {
            TranslationError::Status { code, body } => {
                let mut m = String::from_str("API Error ");
                push_int_text(&mut m, *code as i64);
                m.append(": ");
                m.append(body.as_str());
                m
            },
            TranslationError::MalformedResponse => String::from_str(
                "Translation response is not JSON",
            ),
            TranslationError::MalformedPayload => String::from_str(
                "Translation payload is not JSON",
            ),
            TranslationError::MissingCode => String::from_str(
                "Translation response lacks the candidate program",
            ),
            TranslationError::BadEncoding => String::from_str(
                "Encoded candidate program is not base64 of UTF-8 text",
            ),
        }
    }
}

pub struct TranslationResult {
    pub candidate_source: String,
    /// The service's response, verbatim.
    pub raw_transcript: String,
}

pub open spec fn is_success(status: u16) -> bool {
    200 <= status <= 299
}

/// The candidate program, or the error, that the model's answer gives, where
/// `envelope` is the lookup of the model's text in the body, `code` and
/// `encoded` the lookups of the plain and the encoded program in that text,
/// and `decoded` what the trimmed encoded program decodes to.
pub open spec fn payload_outcome(
    envelope: Option<Option<Seq<char>>>,
    code: Option<Option<Seq<char>>>,
    encoded: Option<Option<Seq<char>>>,
    decoded: Option<Seq<u8>>,
) -> Result<Seq<char>, TranslationError> {
    match envelope {
        None => Err(TranslationError::MalformedResponse),
        Some(None) => Err(TranslationError::MissingCode),
        Some(Some(_)) => match code {
            None => Err(TranslationError::MalformedPayload),
            Some(Some(c)) => Ok(c),
            Some(None) => match encoded {
                Some(Some(_)) => match decoded {
                    Some(b) => if valid_utf8(b) {
                        Ok(decode_utf8(b))
                    } else {
                        Err(TranslationError::BadEncoding)
                    },
                    None => Err(TranslationError::BadEncoding),
                },
                _ => Err(TranslationError::MissingCode),
            },
        },
    }
}

/// `r` is what a response with `status` and body `raw` yields: a status error
/// carrying the body where the status is not a success, else the outcome of
/// the model's answer, with the body kept as the transcript.
pub open spec fn translation_holds(
    r: Result<TranslationResult, TranslationError>,
    status: u16,
    raw: Seq<char>,
    payload: Result<Seq<char>, TranslationError>,
) -> bool {
    if !is_success(status) {
        r matches Err(TranslationError::Status { code, body }) && code == status && body@ == raw
    } else {
        match (payload, r) {
            (Ok(c), Ok(t)) => t.candidate_source@ == c && t.raw_transcript@ == raw,
            (Err(k), Err(e)) => e == k,
            _ => false,
        }
    }
}

pub open spec fn opt_bytes(o: Option<Vec<u8>>) -> Option<Seq<u8>> {
    match o {
        Some(b) => Some(b@),
        None => None,
    }
}

/// Decides what the service's answer yields, given its HTTP status and the
/// results of the lookups in its body and of the decoding.
pub fn interpret_translation(
    status: u16,
    raw: String,
    envelope: Option<Option<String>>,
    code: Option<Option<String>>,
    encoded: Option<Option<String>>,
    decoded: Option<Vec<u8>>,
) -> (r: Result<TranslationResult, TranslationError>)
    ensures
        translation_holds(
            r,
            status,
            raw@,
            payload_outcome(opt_view(envelope), opt_view(code), opt_view(encoded), opt_bytes(decoded)),
        ),
{
    if !(200 <= status && status <= 299) {
        return Err(TranslationError::Status { code: status, body: raw });
    }
    match envelope {
        None => Err(TranslationError::MalformedResponse),
        Some(None) => Err(TranslationError::MissingCode),
        Some(Some(_)) => match code {
            None => Err(TranslationError::MalformedPayload),
            Some(Some(c)) => Ok(TranslationResult { candidate_source: c, raw_transcript: raw }),
            Some(None) => match encoded {
                Some(Some(_)) => match decoded {
                    Some(b) => match text_from_utf8(b) {
                        Some(c) => Ok(TranslationResult { candidate_source: c, raw_transcript: raw }),
                        None => Err(TranslationError::BadEncoding),
                    },
                    None => Err(TranslationError::BadEncoding),
                },
                _ => Err(TranslationError::MissingCode),
            },
        },
    }
}

/// The lookup of the model's text in a response body.
pub open spec fn envelope_lookup(raw: Seq<char>) -> Option<Option<Seq<char>>> {
    json_string_lookup(raw, envelope_pointer())
}

/// The lookup of `pointer` inside the model's text, where there is such text.
pub open spec fn payload_lookup(raw: Seq<char>, pointer: Seq<char>) -> Option<Option<Seq<char>>> {
    match envelope_lookup(raw) {
        Some(Some(t)) => json_string_lookup(t, pointer),
        _ => None,
    }
}

/// What the trimmed encoded program decodes to, where there is one.
pub open spec fn decoded_payload(raw: Seq<char>) -> Option<Seq<u8>> {
    match payload_lookup(raw, encoded_code_pointer()) {
        Some(Some(e)) => base64_decoded(trimmed(e)),
        _ => None,
    }
}

/// What the model's answer inside a response body yields.
pub open spec fn response_payload(body: Seq<char>) -> Result<Seq<char>, TranslationError> {
    payload_outcome(
        envelope_lookup(body),
        payload_lookup(body, code_pointer()),
        payload_lookup(body, encoded_code_pointer()),
        decoded_payload(body),
    )
}

/// Reads the service's response: checks the status, finds the model's text,
/// and takes the candidate program from it, decoding it where it came
/// encoded.
pub fn read_translation(status: u16, raw: String) -> (r: Result<
    TranslationResult,
    TranslationError,
>)
    ensures
        translation_holds(r, status, raw@, response_payload(raw@)),
{
    if !(200 <= status && status <= 299) {
        return Err(TranslationError::Status { code: status, body: raw });
    }
    let envelope = lookup_json_string(raw.as_str(), "/candidates/0/content/parts/0/text");
    let (code, encoded) = match &envelope {
        Some(Some(t)) => (
            lookup_json_string(t.as_str(), "/modernized_rust"),
            lookup_json_string(t.as_str(), "/modernized_rust_b64"),
        ),
        _ => (None, None),
    };
    let decoded = match &encoded {
        Some(Some(e)) => {
            let t = trim(e.as_str());
            decode_base64(t.as_str())
        },
        _ => None,
    };
    interpret_translation(status, raw, envelope, code, encoded, decoded)
}

pub open spec fn fixture_error_text(e: FixtureError) -> Seq<char> {
    match e {
        FixtureError::MalformedRecord => "Fixture record is not JSON"@,
        FixtureError::MissingAmount => "Fixture record has no amount"@,
        FixtureError::InvalidAmount => "Fixture amount is not a count of cents in range"@,
    }
}

impl FixtureError {
    /// A human-readable description.
    pub fn message(&self) -> (r: String)
        ensures
            r@ == fixture_error_text(*self),
    {
        match self {
            FixtureError::MalformedRecord => String::from_str("Fixture record is not JSON"),
            FixtureError::MissingAmount => String::from_str("Fixture record has no amount"),
            FixtureError::InvalidAmount => String::from_str(
                "Fixture amount is not a count of cents in range",
            ),
        }
    }
}

/// Why no fixture input could be made.
#[derive(PartialEq, Eq, Structural, Clone, Copy, Debug)]
pub enum FixtureError {
    /// The fixture record is not JSON.
    MalformedRecord,
    /// The record has no amount, or not as a string.
    MissingAmount,
    /// The amount is not one or more digits, or is out of range.
    InvalidAmount,
}

/// The fixture input, or the error, given the lookup of the amount in the record.
pub open spec fn fixture_outcome(amount: Option<Option<Seq<char>>>) -> Result<
    Seq<char>,
    FixtureError,
> {
    match amount {
        None => Err(FixtureError::MalformedRecord),
        Some(None) => Err(FixtureError::MissingAmount),
        Some(Some(a)) => if valid_amount(a) {
            Ok(amount_text(digits_value(a)))
        } else {
            Err(FixtureError::InvalidAmount)
        },
    }
}

/// The fixture input from the lookup of the amount in the record.
pub fn fixture_from_lookup(amount: Option<Option<String>>) -> (r: Result<String, FixtureError>)
    ensures
        match r {
            Ok(t) => fixture_outcome(opt_view(amount)) == Ok::<Seq<char>, FixtureError>(t@),
            Err(e) => fixture_outcome(opt_view(amount)) == Err::<Seq<char>, FixtureError>(e),
        },
{
    match amount {
        None => Err(FixtureError::MalformedRecord),
        Some(None) => Err(FixtureError::MissingAmount),
        Some(Some(a)) => match fixture_amount(a.as_str()) {
            Some(t) => Ok(t),
            None => Err(FixtureError::InvalidAmount),
        },
    }
}

/// Reads the fixture record and converts its amount in cents to the decimal
/// text that both programs read.
pub fn fixture_from_record(record: &str) -> (r: Result<String, FixtureError>)
    ensures
        match r {
            Ok(t) => fixture_outcome(json_string_lookup(record@, amount_pointer())) == Ok::<
                Seq<char>,
                FixtureError,
            >(t@),
            Err(e) => fixture_outcome(json_string_lookup(record@, amount_pointer())) == Err::<
                Seq<char>,
                FixtureError,
            >(e),
        },
{
    fixture_from_lookup(lookup_json_string(record, "/loan_amount"))
}

} // verus!
