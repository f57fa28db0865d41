//! What can go wrong when a document is written.

use vstd::prelude::*;
use vstd::string::StringExecFns;

verus! {

/// Why a document could not be written, by the format that was asked for.
/// The payload is the message of the writer that failed.
#[derive(Debug, PartialEq)]
pub enum BomError {
    JsonSerializationError(String),
    XmlSerializationError(String),
}

impl BomError {
    /// The message of the error, as shown to a user.
    pub open spec fn message(self) -> Seq<char> {
        match self {
            BomError::JsonSerializationError(m) => "Failed to serialize BOM to JSON: "@ + m@,
            BomError::XmlSerializationError(m) => "Failed to serialize BOM to XML: "@ + m@,
        }
    }

    /// Renders the error for a user: the format that failed, then the
    /// message of its writer.
    pub fn to_string(&self) -> (r: String)
        ensures
            r@ == self.message(),
    {
        match self {
            BomError::JsonSerializationError(m) => {
                "Failed to serialize BOM to JSON: ".to_string().concat(m.as_str())
            },
            BomError::XmlSerializationError(m) => {
                "Failed to serialize BOM to XML: ".to_string().concat(m.as_str())
            },
        }
    }
}

/// Why text is not a value of a validated primitive. The payload is the text
/// that was refused.
#[derive(Debug, PartialEq)]
pub enum ValidationError {
    InvalidCpe(String),
    InvalidDateTime(String),
    InvalidHashValue(String),
    InvalidMimeType(String),
    InvalidPurl(String),
    InvalidUri(String),
    InvalidUrnUuid(String),
}

impl ValidationError {
    /// The text that was refused.
    pub open spec fn refused(self) -> Seq<char> {
        match self {
            ValidationError::InvalidCpe(t) => t@,
            ValidationError::InvalidDateTime(t) => t@,
            ValidationError::InvalidHashValue(t) => t@,
            ValidationError::InvalidMimeType(t) => t@,
            ValidationError::InvalidPurl(t) => t@,
            ValidationError::InvalidUri(t) => t@,
            ValidationError::InvalidUrnUuid(t) => t@,
        }
    }

    /// The message of the error: what the text was meant to be, and the
    /// text.
    pub open spec fn message(self) -> Seq<char> {
        match self {
            ValidationError::InvalidCpe(t) => "invalid CPE name: "@ + t@,
            ValidationError::InvalidDateTime(t) => "invalid date-time: "@ + t@,
            ValidationError::InvalidHashValue(t) => "invalid hash value: "@ + t@,
            ValidationError::InvalidMimeType(t) => "invalid media type: "@ + t@,
            ValidationError::InvalidPurl(t) => "invalid package URL: "@ + t@,
            ValidationError::InvalidUri(t) => "invalid URI: "@ + t@,
            ValidationError::InvalidUrnUuid(t) => "invalid UUID URN: "@ + t@,
        }
    }

    /// Renders the error for a user.
    pub fn to_string(&self) -> (r: String)
        ensures
            r@ == self.message(),
    {
        match self {
            ValidationError::InvalidCpe(t) => "invalid CPE name: ".to_string().concat(t.as_str()),
            ValidationError::InvalidDateTime(t) => "invalid date-time: ".to_string().concat(
                t.as_str(),
            ),
            ValidationError::InvalidHashValue(t) => "invalid hash value: ".to_string().concat(
                t.as_str(),
            ),
            ValidationError::InvalidMimeType(t) => "invalid media type: ".to_string().concat(
                t.as_str(),
            ),
            ValidationError::InvalidPurl(t) => "invalid package URL: ".to_string().concat(
                t.as_str(),
            ),
            ValidationError::InvalidUri(t) => "invalid URI: ".to_string().concat(t.as_str()),
            ValidationError::InvalidUrnUuid(t) => "invalid UUID URN: ".to_string().concat(
                t.as_str(),
            ),
        }
    }
}

} // verus!
