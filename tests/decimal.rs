use modernization_check::decimal::{fixture_amount, int_to_text};

#[test]
fn fixture_amount_of_scaled_cents() {
    assert_eq!(fixture_amount("001000000"), Some("10000.00".to_string()));
}

#[test]
fn fixture_amount_cases() {
    assert_eq!(fixture_amount("12345"), Some("123.45".to_string()));
    assert_eq!(fixture_amount("000007"), Some("0.07".to_string()));
    assert_eq!(fixture_amount("00"), Some("0.00".to_string()));
    assert_eq!(fixture_amount("5"), Some("0.05".to_string()));
    assert_eq!(fixture_amount("0"), Some("0.00".to_string()));
    assert_eq!(fixture_amount("100"), Some("1.00".to_string()));
    assert_eq!(fixture_amount("922337203685477580799"), Some("9223372036854775807.99".to_string()));
}

#[test]
fn fixture_amount_rejects_non_amounts() {
    assert_eq!(fixture_amount(""), None);
    assert_eq!(fixture_amount("-500"), None);
    assert_eq!(fixture_amount("+500"), None);
    assert_eq!(fixture_amount("ab12"), None);
    assert_eq!(fixture_amount("10.00"), None);
    assert_eq!(fixture_amount("922337203685477580800"), None);
    assert_eq!(fixture_amount("99999999999999999999999999999999999999999999"), None);
}

#[test]
fn int_text_values() {
    assert_eq!(int_to_text(0), "0");
    assert_eq!(int_to_text(1700000000), "1700000000");
    assert_eq!(int_to_text(-42), "-42");
    assert_eq!(int_to_text(i64::MIN), "-9223372036854775808");
    assert_eq!(int_to_text(i64::MAX), "9223372036854775807");
}
