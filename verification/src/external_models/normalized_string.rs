//! Text without carriage returns, line feeds or tabs.

use crate::text::push_char;
use vstd::prelude::*;

verus! {

/// The three characters a normalized string may not hold.
pub open spec fn is_forbidden(c: char) -> bool {
    c == '\r' || c == '\n' || c == '\t'
}

/// No character of `s` is a carriage return, line feed or tab.
pub open spec fn is_normalized(s: Seq<char>) -> bool {
    forall|i: int| 0 <= i < s.len() ==> !is_forbidden(#[trigger] s[i])
}

/// `s` with every CRLF pair, and every remaining CR, LF and TAB, replaced by
/// one space.
pub open spec fn normalize(s: Seq<char>) -> Seq<char>
    decreases s.len(),
{
    if s.len() == 0 {
        s
    } else if s.len() >= 2 && s[0] == '\r' && s[1] == '\n' {
        seq![' '] + normalize(s.skip(2))
    } else if is_forbidden(s[0]) {
        seq![' '] + normalize(s.skip(1))
    } else {
        seq![s[0]] + normalize(s.skip(1))
    }
}

/// What `normalize` still has to produce once the first `i` characters of `s`
/// are consumed; `after_cr` says that the character before `i` was a carriage
/// return whose space is already written, so a line feed at `i` is part of
/// the same CRLF pair.
pub open spec fn unread(s: Seq<char>, i: int, after_cr: bool) -> Seq<char> {
    if after_cr && i < s.len() && s[i] == '\n' {
        normalize(s.skip(i + 1))
    } else {
        normalize(s.skip(i))
    }
}

/// A string that does not contain carriage return, line feed, or tab
/// characters, as the XML schema type `normalizedString` defines it.
#[derive(Debug, Default, PartialEq)]
pub struct NormalizedString {
    value: String,
}

impl View for NormalizedString {
    type V = Seq<char>;

    closed spec fn view(&self) -> Seq<char> {
        self.value@
    }
}

impl DeepView for NormalizedString {
    type V = Seq<char>;

    open spec fn deep_view(&self) -> Seq<char> {
        self@
    }
}

/// Why a value is no normalized string.
#[derive(Debug, PartialEq)]
pub enum NormalizedStringError {
    /// The value holds a carriage return, line feed or tab; the payload is
    /// the report for the offending field.
    InvalidWhitespace(String),
}

impl NormalizedStringError {
    /// The report carried by the error.
    pub fn to_string(&self) -> (r: String)
        ensures
            self matches NormalizedStringError::InvalidWhitespace(m) && r@ == m@,
    {
        match self {
            NormalizedStringError::InvalidWhitespace(m) => m.clone(),
        }
    }
}

/// The text that the `validator` crate prints for a set of validation errors
/// holding exactly one field-level error: `field` is the name of the field,
/// `code` the error's code, and the error has a single parameter, named
/// `param`, whose value is the JSON string `value`.
pub uninterp spec fn validation_report(
    field: Seq<char>,
    code: Seq<char>,
    param: Seq<char>,
    value: Seq<char>,
) -> Seq<char>;

/// Renders one field-level validation error as the `validator` crate does.
///
/// Trusted: `validator::ValidationError::new`, `ValidationError::add_param`,
/// `ValidationErrors::new` and `ValidationErrors::add` assemble the error set
/// described at [`validation_report`], and its `Display` impl renders it. The
/// contract only gives that text its name. With a single field and a single
/// parameter no hash-map order enters the text.
#[verifier::external_body]
fn field_error_report(
    field: &'static str,
    code: &'static str,
    param: &'static str,
    value: &str,
) -> (r: String)
    ensures
        r@ == validation_report(field@, code@, param@, value@),
{
    let mut error = validator::ValidationError::new(code);
    error.add_param(std::borrow::Cow::from(param), &value);
    let mut errors = validator::ValidationErrors::new();
    errors.add(field, error);
    format!("{}", errors)
}

/// The report that goes with a value holding forbidden whitespace.
pub open spec fn whitespace_report(value: Seq<char>) -> Seq<char> {
    validation_report("value"@, "contains invalid whitespace"@, "value"@, value)
}

/// Checks that `value` holds no carriage return, line feed or tab.
pub fn validate_normalized(value: &str) -> (r: Result<(), NormalizedStringError>)
    ensures
        is_normalized(value@) ==> r is Ok,
        !is_normalized(value@) ==> (r matches Err(NormalizedStringError::InvalidWhitespace(m))
            && m@ == whitespace_report(value@)),
{
    let mut clean = true;
    for c in it: value.chars()
        invariant
            it.seq() == value@,
            clean <==> is_normalized(value@.take(it.index())),
    {
        proof {
            let i = it.index();
            assert(value@.take(i + 1) =~= value@.take(i).push(c));
            if is_normalized(value@.take(i + 1)) {
                assert(value@.take(i + 1)[i] == c);
                assert forall|j: int| 0 <= j < i implies !is_forbidden(
                    #[trigger] value@.take(i)[j],
                ) by {
                    assert(value@.take(i + 1)[j] == value@.take(i)[j]);
                }
            }
        }
        if c == '\r' || c == '\n' || c == '\t' {
            clean = false;
        }
    }
    proof {
        assert(value@.take(value@.len() as int) =~= value@);
    }
    if clean {
        Ok(())
    } else {
        Err(
            NormalizedStringError::InvalidWhitespace(
                field_error_report("value", "contains invalid whitespace", "value", value),
            ),
        )
    }
}

impl NormalizedString {
    /// Builds a normalized string from arbitrary text; never fails.
    pub fn new(value: &str) -> (r: NormalizedString)
        ensures
            r@ == normalize(value@),
            is_normalized(r@),
    {
        let mut out = String::new();
        let mut after_cr = false;
        proof {
            assert(value@.skip(0) =~= value@);
        }
        for c in it: value.chars()
            invariant
                it.seq() == value@,
                normalize(value@) == out@ + unread(value@, it.index(), after_cr),
        {
            let ghost i = it.index();
            let ghost before = out@;
            proof {
                let rest = value@.skip(i);
                assert(rest[0] == c);
                assert(rest.skip(1) =~= value@.skip(i + 1));
                if rest.len() >= 2 {
                    assert(rest[1] == value@[i + 1]);
                    assert(rest.skip(2) =~= value@.skip(i + 2));
                }
            }
            if c == '\n' && after_cr {
                after_cr = false;
            } else if c == '\r' || c == '\n' || c == '\t' {
                push_char(&mut out, ' ');
                after_cr = c == '\r';
                proof {
                    let tail = unread(value@, i + 1, after_cr);
                    assert(before + (seq![' '] + tail) =~= before.push(' ') + tail);
                }
            } else {
                push_char(&mut out, c);
                after_cr = false;
                proof {
                    let tail = unread(value@, i + 1, false);
                    assert(before + (seq![c] + tail) =~= before.push(c) + tail);
                }
            }
        }
        proof {
            assert(value@.skip(value@.len() as int) =~= Seq::<char>::empty());
            assert(out@ + Seq::<char>::empty() =~= out@);
        }
        proof {
            lemma_normalize_is_normalized(value@);
        }
        NormalizedString { value: out }
    }

    /// Wraps `value` as it is, for text that comes from a source that is
    /// trusted to have normalized it already; [`Self::validate`] re-checks.
    pub fn new_unchecked(value: String) -> (r: NormalizedString)
        ensures
            r@ == value@,
    {
        NormalizedString { value }
    }

    /// A copy of the text.
    pub fn to_string(&self) -> (r: String)
        ensures
            r@ == self@,
    {
        self.value.clone()
    }

    /// The text, borrowed.
    pub fn as_str(&self) -> (r: &str)
        ensures
            r@ == self@,
    {
        self.value.as_str()
    }

    /// The text, owned.
    pub fn into_string(self) -> (r: String)
        ensures
            r@ == self@,
    {
        self.value
    }

    /// Fails exactly when the text holds a carriage return, line feed or tab.
    pub fn validate(&self) -> (r: Result<(), NormalizedStringError>)
        ensures
            is_normalized(self@) ==> r is Ok,
            !is_normalized(self@) ==> (r matches Err(NormalizedStringError::InvalidWhitespace(m))
                && m@ == whitespace_report(self@)),
    {
        validate_normalized(self.value.as_str())
    }
}

/// Normalizing leaves no carriage return, line feed or tab behind.
pub proof fn lemma_normalize_is_normalized(s: Seq<char>)
    ensures
        is_normalized(normalize(s)),
    decreases s.len(),
{
    if s.len() == 0 {
    } else if s.len() >= 2 && s[0] == '\r' && s[1] == '\n' {
        lemma_normalize_is_normalized(s.skip(2));
    } else {
        lemma_normalize_is_normalized(s.skip(1));
    }
}

/// Normalizing changes nothing in text that is already normalized.
pub proof fn lemma_normalize_keeps_normalized(s: Seq<char>)
    requires
        is_normalized(s),
    ensures
        normalize(s) == s,
    decreases s.len(),
{
    if s.len() > 0 {
        assert(!is_forbidden(s[0]));
        assert forall|i: int| 0 <= i < s.skip(1).len() implies !is_forbidden(
            #[trigger] s.skip(1)[i],
        ) by {
            assert(s.skip(1)[i] == s[i + 1]);
        }
        lemma_normalize_keeps_normalized(s.skip(1));
        assert(seq![s[0]] + s.skip(1) =~= s);
    }
}

/// Normalizing twice is the same as normalizing once.
pub proof fn lemma_normalize_idempotent(s: Seq<char>)
    ensures
        normalize(normalize(s)) == normalize(s),
{
    lemma_normalize_is_normalized(s);
    lemma_normalize_keeps_normalized(normalize(s));
}

/// Normalizing never makes text longer, and keeps its length exactly when no
/// CRLF pair was merged.
pub proof fn lemma_normalize_len(s: Seq<char>)
    ensures
        normalize(s).len() <= s.len(),
    decreases s.len(),
{
    if s.len() == 0 {
    } else if s.len() >= 2 && s[0] == '\r' && s[1] == '\n' {
        lemma_normalize_len(s.skip(2));
    } else {
        lemma_normalize_len(s.skip(1));
    }
}

} // verus!
