//! SPDX license expressions, validated by the `license_exprs` crate.

use vstd::prelude::*;

verus! {

/// What `license_exprs::validate_license_expr` answers for `expression`:
/// `None` where it accepts the expression, else the text of its complaint.
pub uninterp spec fn spdx_diagnostic(expression: Seq<char>) -> Option<Seq<char>>;

/// The expression is one that `license_exprs` accepts.
pub open spec fn is_spdx_expression(expression: Seq<char>) -> bool {
    spdx_diagnostic(expression) is None
}

/// `diagnostic` is one of the two complaints of `license_exprs`, followed by
/// a non-empty piece of `expression`: the term it stumbled over.
pub open spec fn names_a_term_of(diagnostic: Seq<char>, expression: Seq<char>) -> bool {
    exists|from: int, to: int|
        0 <= from < to <= expression.len() && (diagnostic
            == "unknown license or other term: "@ + #[trigger] expression.subrange(from, to)
            || diagnostic == "invalid license expression: "@ + expression.subrange(from, to))
}

/// Validates `expression` as a license expression.
///
/// Trusted: `license_exprs::validate_license_expr`, whose answer depends on
/// the expression alone. Its error prints as a fixed description ("unknown
/// license or other term" or "invalid license expression"), a colon, a space
/// and the whitespace-delimited word of the input that it rejected; the
/// contract names the answer and states that shape of the complaint.
#[verifier::external_body]
fn check_license_expression(expression: &str) -> (r: Result<(), String>)
    ensures
        r is Ok <==> spdx_diagnostic(expression@) is None,
        r matches Err(m) ==> spdx_diagnostic(expression@) == Some(m@) && names_a_term_of(
            m@,
            expression@,
        ),
{
    match license_exprs::validate_license_expr(expression) {
        Ok(()) => Ok(()),
        Err(e) => Err(format!("{}", e)),
    }
}

/// An SPDX license expression such as `MIT OR Apache-2.0`.
#[derive(Debug, PartialEq)]
pub struct SpdxIdentifier(String);

impl View for SpdxIdentifier {
    type V = Seq<char>;

    closed spec fn view(&self) -> Seq<char> {
        self.0@
    }
}

impl DeepView for SpdxIdentifier {
    type V = Seq<char>;

    open spec fn deep_view(&self) -> Seq<char> {
        self@
    }
}

/// Why text is no SPDX identifier.
#[derive(Debug, PartialEq)]
pub enum SpdxIdentifierError {
    /// The expression was rejected; the payload is the complaint of
    /// `license_exprs`.
    InvalidSpdxExpression(String),
}

impl SpdxIdentifierError {
    /// The complaint that came with the rejection.
    pub fn to_string(&self) -> (r: String)
        ensures
            self matches SpdxIdentifierError::InvalidSpdxExpression(m) && r@ == m@,
    {
        match self {
            SpdxIdentifierError::InvalidSpdxExpression(m) => m.clone(),
        }
    }
}

impl SpdxIdentifier {
    /// Turns the answer of `license_exprs` for `value` into an identifier or
    /// an error: the identifier holds `value` unchanged, the error holds the
    /// complaint.
    pub fn from_checked(value: String, outcome: Result<(), String>) -> (r: Result<
        SpdxIdentifier,
        SpdxIdentifierError,
    >)
        ensures
            outcome is Ok ==> (r matches Ok(id) && id@ == value@),
            outcome matches Err(complaint) ==> (r matches Err(
                SpdxIdentifierError::InvalidSpdxExpression(m),
            ) && m@ == complaint@),
    {
        match outcome {
            Ok(()) => Ok(SpdxIdentifier(value)),
            Err(complaint) => Err(SpdxIdentifierError::InvalidSpdxExpression(complaint)),
        }
    }

    /// Validates `value` and keeps it unchanged where it is an SPDX license
    /// expression; no normalization is attempted.
    pub fn try_from(value: String) -> (r: Result<SpdxIdentifier, SpdxIdentifierError>)
        ensures
            is_spdx_expression(value@) ==> (r matches Ok(id) && id@ == value@),
            !is_spdx_expression(value@) ==> (r matches Err(
                SpdxIdentifierError::InvalidSpdxExpression(m),
            ) && spdx_diagnostic(value@) == Some(m@) && names_a_term_of(m@, value@)),
    {
        let outcome = check_license_expression(value.as_str());
        SpdxIdentifier::from_checked(value, outcome)
    }

    /// Wraps `value` as it is, for identifiers read from a document that is
    /// taken to be well formed.
    pub fn new_unchecked(value: String) -> (r: SpdxIdentifier)
        ensures
            r@ == value@,
    {
        SpdxIdentifier(value)
    }

    /// A copy of the expression.
    pub fn to_string(&self) -> (r: String)
        ensures
            r@ == self@,
    {
        self.0.clone()
    }

    /// The expression, owned.
    pub fn into_string(self) -> (r: String)
        ensures
            r@ == self@,
    {
        self.0
    }

    /// Whether `license_exprs` accepts the expression held.
    pub fn is_valid(&self) -> (r: bool)
        ensures
            r == is_spdx_expression(self@),
    {
        check_license_expression(self.0.as_str()).is_ok()
    }
}

} // verus!
