//! Resource identifiers: plain URIs and package URLs.

use crate::errors::ValidationError;
use crate::external_models::grammar::{check_purl, check_uri, is_purl, is_uri};
use vstd::prelude::*;

verus! {

/// A reference to a resource, as a URI.
#[derive(Debug, PartialEq)]
pub struct Uri(String);

impl View for Uri {
    type V = Seq<char>;

    closed spec fn view(&self) -> Seq<char> {
        self.0@
    }
}

impl DeepView for Uri {
    type V = Seq<char>;

    open spec fn deep_view(&self) -> Seq<char> {
        self@
    }
}

impl Uri {
    /// Validates `value` and keeps it unchanged where it is a URI reference; the error
    /// carries the text that was refused.
    pub fn new(value: String) -> (r: Result<Uri, ValidationError>)
        ensures
            is_uri(value@) ==> (r matches Ok(v) && v@ == value@),
            !is_uri(value@) ==> (r matches Err(ValidationError::InvalidUri(refused)) && refused@
                == value@),
    {
        if check_uri(value.as_str()) {
            Ok(Uri(value))
        } else {
            Err(ValidationError::InvalidUri(value))
        }
    }

    /// Whether the text held is a URI reference.
    pub fn is_valid(&self) -> (r: bool)
        ensures
            r == is_uri(self@),
    {
        check_uri(self.0.as_str())
    }

    /// Wraps `value` as it is, for text read from a document that is taken
    /// to be well formed.
    pub fn new_unchecked(value: String) -> (r: Uri)
        ensures
            r@ == value@,
    {
        Uri(value)
    }

    /// A copy of the text.
    pub fn to_string(&self) -> (r: String)
        ensures
            r@ == self@,
    {
        self.0.clone()
    }
}

/// A package URL: the `pkg:` scheme, a package type, and the package's
/// coordinates.
#[derive(Debug, PartialEq)]
pub struct Purl(String);

impl View for Purl {
    type V = Seq<char>;

    closed spec fn view(&self) -> Seq<char> {
        self.0@
    }
}

impl DeepView for Purl {
    type V = Seq<char>;

    open spec fn deep_view(&self) -> Seq<char> {
        self@
    }
}

impl Purl {
    /// Validates `value` and keeps it unchanged where it is a package URL; the error
    /// carries the text that was refused.
    pub fn new(value: String) -> (r: Result<Purl, ValidationError>)
        ensures
            is_purl(value@) ==> (r matches Ok(v) && v@ == value@),
            !is_purl(value@) ==> (r matches Err(ValidationError::InvalidPurl(refused)) && refused@
                == value@),
    {
        if check_purl(value.as_str()) {
            Ok(Purl(value))
        } else {
            Err(ValidationError::InvalidPurl(value))
        }
    }

    /// Whether the text held is a package URL.
    pub fn is_valid(&self) -> (r: bool)
        ensures
            r == is_purl(self@),
    {
        check_purl(self.0.as_str())
    }

    /// Wraps `value` as it is, for text read from a document that is taken
    /// to be well formed.
    pub fn new_unchecked(value: String) -> (r: Purl)
        ensures
            r@ == value@,
    {
        Purl(value)
    }

    /// A copy of the text.
    pub fn to_string(&self) -> (r: String)
        ensures
            r@ == self@,
    {
        self.0.clone()
    }
}

} // verus!
