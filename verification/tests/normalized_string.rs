use cyclonedx_bom::external_models::normalized_string::{
    validate_normalized, NormalizedString, NormalizedStringError,
};

#[test]
fn it_should_normalize_strings() {
    assert_eq!(
        NormalizedString::new_unchecked("no_whitespace".to_string()),
        NormalizedString::new("no_whitespace")
    );
    assert_eq!(
        NormalizedString::new_unchecked("spaces and tabs".to_string()),
        NormalizedString::new("spaces and\ttabs")
    );
    assert_eq!(
        NormalizedString::new_unchecked("carriage returns and linefeeds".to_string()),
        NormalizedString::new("carriage\r\nreturns\rand\nlinefeeds")
    );
}

#[test]
fn it_should_validate_a_normalized_string() {
    let normalized_string = NormalizedString::new_unchecked("test with spaces".to_string());

    assert_eq!(normalized_string.validate(), Ok(()));
}

#[test]
fn it_should_reject_invalid_strings() {
    let test_with_tabs = NormalizedString::new_unchecked("test\twith\ttabs".to_string())
        .validate()
        .expect_err("Should have failed validation due to tabs");

    assert_eq!(
        test_with_tabs.to_string(),
        "value: Validation error: contains invalid whitespace [{\"value\": String(\"test\\twith\\ttabs\")}]"
    );

    let test_with_newlines = NormalizedString::new_unchecked(
        "test\ncarriage\r\nreturns\rand\nlinefeeds".to_string(),
    )
    .validate()
    .expect_err("Should have failed validation due to newlines");

    assert_eq!(
        test_with_newlines.to_string(),
        "value: Validation error: contains invalid whitespace [{\"value\": String(\"test\\ncarriage\\r\\nreturns\\rand\\nlinefeeds\")}]"
    );
}

#[test]
fn normalizing_merges_each_crlf_pair_into_one_space() {
    assert_eq!(NormalizedString::new("a\r\nb").to_string(), "a b");
    assert_eq!(NormalizedString::new("a\r\n\r\nb").to_string(), "a  b");
    assert_eq!(NormalizedString::new("a\n\rb").to_string(), "a  b");
    assert_eq!(NormalizedString::new("a\r\rb").to_string(), "a  b");
    assert_eq!(NormalizedString::new("a\r\r\nb").to_string(), "a  b");
    assert_eq!(NormalizedString::new("\r").to_string(), " ");
    assert_eq!(NormalizedString::new("\r\n").to_string(), " ");
    assert_eq!(NormalizedString::new("\n").to_string(), " ");
    assert_eq!(NormalizedString::new("\t\t").to_string(), "  ");
    assert_eq!(NormalizedString::new("").to_string(), "");
}

#[test]
fn normalizing_keeps_other_characters() {
    assert_eq!(NormalizedString::new("déjà vu \u{1F600} x").to_string(), "déjà vu \u{1F600} x");
    assert_eq!(NormalizedString::new("a\u{000B}b\u{000C}c").to_string(), "a\u{000B}b\u{000C}c");
}

#[test]
fn normalized_text_always_validates() {
    for raw in ["", "plain", "a\tb", "a\r\nb", "\r\r\n\n\t", "x\ry\nz\t"] {
        let normalized = NormalizedString::new(raw);
        assert_eq!(normalized.validate(), Ok(()));
        let text = normalized.to_string();
        assert!(!text.contains('\r') && !text.contains('\n') && !text.contains('\t'));
        assert_eq!(NormalizedString::new(&text), normalized);
    }
}

#[test]
fn validation_reports_each_forbidden_character() {
    for raw in ["\r", "\n", "\t", "a\rb", "tail\n", "\thead"] {
        let err = validate_normalized(raw).expect_err("forbidden whitespace must be rejected");
        let NormalizedStringError::InvalidWhitespace(report) = err;
        assert!(report.starts_with("value: Validation error: contains invalid whitespace ["));
    }
    assert_eq!(validate_normalized("no forbidden whitespace"), Ok(()));
}

#[test]
fn accessors_return_the_text() {
    let s = NormalizedString::new("a b");
    assert_eq!(s.as_str(), "a b");
    assert_eq!(s.into_string(), "a b".to_string());
}
