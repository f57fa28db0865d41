use cyclonedx_bom::external_models::spdx::{SpdxIdentifier, SpdxIdentifierError};

#[test]
fn it_should_succeed_in_converting_an_spdx_expression() {
    let actual = SpdxIdentifier::try_from("MIT OR Apache-2.0".to_string())
        .expect("Failed to parse as a license");
    assert_eq!(actual, SpdxIdentifier::new_unchecked("MIT OR Apache-2.0".to_string()));
}

#[test]
fn it_should_fail_to_convert_an_invalid_spdx_expression() {
    let actual = SpdxIdentifier::try_from("not a real license".to_string())
        .expect_err("Should have failed to parse as a license");
    assert_eq!(
        actual,
        SpdxIdentifierError::InvalidSpdxExpression(
            "unknown license or other term: not".to_string()
        )
    );
}

#[test]
fn spdx_identifier_keeps_the_expression_text() {
    for text in ["MIT", "MIT OR Apache-2.0", "GPL-2.0+ WITH Classpath-exception-2.0", "  MIT   AND  ISC "] {
        let id = SpdxIdentifier::try_from(text.to_string()).expect("a well-formed expression");
        assert_eq!(id.to_string(), text);
        assert!(id.is_valid());
        assert_eq!(id.into_string(), text.to_string());
    }
}

#[test]
fn spdx_identifier_reports_a_misplaced_operator() {
    let err = SpdxIdentifier::try_from("MIT Apache-2.0".to_string())
        .expect_err("two licenses need an operator between them");
    assert_eq!(
        err,
        SpdxIdentifierError::InvalidSpdxExpression(
            "invalid license expression: Apache-2.0".to_string()
        )
    );
    assert_eq!(err.to_string(), "invalid license expression: Apache-2.0");
    let err = SpdxIdentifier::try_from("AND MIT".to_string())
        .expect_err("an expression cannot start with AND");
    assert_eq!(err.to_string(), "invalid license expression: AND");
}

#[test]
fn spdx_identifier_from_checked_follows_the_outcome() {
    assert_eq!(
        SpdxIdentifier::from_checked("anything".to_string(), Ok(())),
        Ok(SpdxIdentifier::new_unchecked("anything".to_string()))
    );
    assert_eq!(
        SpdxIdentifier::from_checked("MIT".to_string(), Err("complaint".to_string())),
        Err(SpdxIdentifierError::InvalidSpdxExpression("complaint".to_string()))
    );
}

#[test]
fn unchecked_spdx_identifier_can_be_rechecked() {
    assert!(!SpdxIdentifier::new_unchecked("not a real license".to_string()).is_valid());
    assert!(SpdxIdentifier::new_unchecked("Apache-2.0".to_string()).is_valid());
}
