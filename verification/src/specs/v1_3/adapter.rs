//! The adapter for schema 1.3: how a value of the document model is shaped
//! for that version, and how a shape is read back.
//!
//! Each conversion is stated over the mathematical values of both sides.
//! Shaping always succeeds. Reading back fails only where a word of a closed
//! vocabulary, such as a component's type, is not one that the schema knows.

pub mod component;
pub mod document;
pub mod licenses;
pub mod parts;
pub mod round_trip;
pub mod service;

use crate::external_models::normalized_string::NormalizedString;
use crate::external_models::uri::{Purl, Uri};
use crate::models;
use crate::specs::v1_3::tokens::{scope_from_token, scope_of_token, scope_to_token, scope_token};
use crate::specs::v1_3::{AttachedText, AttachedTextView, BomReference, Cpe, MimeType};
use vstd::prelude::*;

verus! {

/// Copies of the texts of a list.
pub fn strings_clone(v: &Vec<String>) -> (r: Vec<String>)
    ensures
        r.deep_view() == v.deep_view(),
{
    let mut out: Vec<String> = Vec::new();
    let mut i: usize = 0;
    while i < v.len()
        invariant
            i <= v.len(),
            out.len() == i,
            forall|j: int| 0 <= j < i ==> (#[trigger] out[j])@ == v[j]@,
        decreases v.len() - i,
    {
        out.push(v[i].clone());
        i += 1;
    }
    proof {
        assert(out.deep_view() =~= v.deep_view());
    }
    out
}

/// The texts of a list of URIs.
pub fn uris_to_strings(v: &Vec<Uri>) -> (r: Vec<String>)
    ensures
        r.deep_view() == v.deep_view(),
{
    let mut out: Vec<String> = Vec::new();
    let mut i: usize = 0;
    while i < v.len()
        invariant
            i <= v.len(),
            out.len() == i,
            forall|j: int| 0 <= j < i ==> (#[trigger] out[j])@ == v[j]@,
        decreases v.len() - i,
    {
        out.push(v[i].to_string());
        i += 1;
    }
    proof {
        assert(out.deep_view() =~= v.deep_view());
    }
    out
}

/// A list of texts as URIs, taken as they are.
pub fn strings_to_uris(v: &Vec<String>) -> (r: Vec<Uri>)
    ensures
        r.deep_view() == v.deep_view(),
{
    let mut out: Vec<Uri> = Vec::new();
    let mut i: usize = 0;
    while i < v.len()
        invariant
            i <= v.len(),
            out.len() == i,
            forall|j: int| 0 <= j < i ==> (#[trigger] out[j])@ == v[j]@,
        decreases v.len() - i,
    {
        out.push(Uri::new_unchecked(v[i].clone()));
        i += 1;
    }
    proof {
        assert(out.deep_view() =~= v.deep_view());
    }
    out
}

/// Shapes a list of references.
pub fn references_from_canonical(v: &Vec<models::BomReference>) -> (r: Vec<BomReference>)
    ensures
        r.deep_view() == v.deep_view(),
{
    let mut out: Vec<BomReference> = Vec::new();
    let mut i: usize = 0;
    while i < v.len()
        invariant
            i <= v.len(),
            out.len() == i,
            forall|j: int| 0 <= j < i ==> (#[trigger] out[j]).deep_view() == v[j].deep_view(),
        decreases v.len() - i,
    {
        out.push(BomReference(v[i].0.clone()));
        i += 1;
    }
    proof {
        assert(out.deep_view() =~= v.deep_view());
    }
    out
}

/// Reads a list of references back.
pub fn references_to_canonical(v: &Vec<BomReference>) -> (r: Vec<models::BomReference>)
    ensures
        r.deep_view() == v.deep_view(),
{
    let mut out: Vec<models::BomReference> = Vec::new();
    let mut i: usize = 0;
    while i < v.len()
        invariant
            i <= v.len(),
            out.len() == i,
            forall|j: int| 0 <= j < i ==> (#[trigger] out[j]).deep_view() == v[j].deep_view(),
        decreases v.len() - i,
    {
        out.push(models::BomReference(v[i].0.clone()));
        i += 1;
    }
    proof {
        assert(out.deep_view() =~= v.deep_view());
    }
    out
}

/// A copy of a text that may be absent.
pub fn opt_string_clone(o: &Option<String>) -> (r: Option<String>)
    ensures
        r.deep_view() == o.deep_view(),
{
    match o {
        Some(x) => Some(x.clone()),
        None => None,
    }
}

/// The text of a normalized string that may be absent.
pub fn opt_text_to_string(o: &Option<NormalizedString>) -> (r: Option<String>)
    ensures
        r.deep_view() == o.deep_view(),
{
    match o {
        Some(x) => Some(x.to_string()),
        None => None,
    }
}

/// A text that may be absent as a normalized string, taken as it is.
pub fn opt_string_to_text(o: &Option<String>) -> (r: Option<NormalizedString>)
    ensures
        r.deep_view() == o.deep_view(),
{
    match o {
        Some(x) => Some(NormalizedString::new_unchecked(x.clone())),
        None => None,
    }
}

/// The text of a URI that may be absent.
pub fn opt_uri_to_string(o: &Option<Uri>) -> (r: Option<String>)
    ensures
        r.deep_view() == o.deep_view(),
{
    match o {
        Some(x) => Some(x.to_string()),
        None => None,
    }
}

/// A text that may be absent as a URI, taken as it is.
pub fn opt_string_to_uri(o: &Option<String>) -> (r: Option<Uri>)
    ensures
        r.deep_view() == o.deep_view(),
{
    match o {
        Some(x) => Some(Uri::new_unchecked(x.clone())),
        None => None,
    }
}

/// The text of a package URL that may be absent.
pub fn opt_purl_to_string(o: &Option<Purl>) -> (r: Option<String>)
    ensures
        r.deep_view() == o.deep_view(),
{
    match o {
        Some(x) => Some(x.to_string()),
        None => None,
    }
}

/// A text that may be absent as a package URL, taken as it is.
pub fn opt_string_to_purl(o: &Option<String>) -> (r: Option<Purl>)
    ensures
        r.deep_view() == o.deep_view(),
{
    match o {
        Some(x) => Some(Purl::new_unchecked(x.clone())),
        None => None,
    }
}

/// The text of a point in time that may be absent.
pub fn opt_date_time_to_string(o: &Option<models::DateTime>) -> (r: Option<String>)
    ensures
        r.deep_view() == o.deep_view(),
{
    match o {
        Some(x) => Some(x.to_string()),
        None => None,
    }
}

/// A text that may be absent as a point in time, taken as it is.
pub fn opt_string_to_date_time(o: &Option<String>) -> (r: Option<models::DateTime>)
    ensures
        r.deep_view() == o.deep_view(),
{
    match o {
        Some(x) => Some(models::DateTime::new_unchecked(x.clone())),
        None => None,
    }
}

/// The name of an encoding that may be absent.
pub fn opt_encoding_to_string(o: &Option<models::Encoding>) -> (r: Option<String>)
    ensures
        r.deep_view() == o.deep_view(),
{
    match o {
        Some(x) => Some(x.to_string()),
        None => None,
    }
}

/// A name that may be absent as an encoding.
pub fn opt_string_to_encoding(o: &Option<String>) -> (r: Option<models::Encoding>)
    ensures
        r.deep_view() == o.deep_view(),
{
    match o {
        Some(x) => Some(models::Encoding::from(x.clone())),
        None => None,
    }
}

/// Shapes a CPE name that may be absent.
pub fn opt_cpe_from_canonical(o: &Option<models::Cpe>) -> (r: Option<Cpe>)
    ensures
        r.deep_view() == o.deep_view(),
{
    match o {
        Some(x) => Some(Cpe(x.to_string())),
        None => None,
    }
}

/// Reads back a CPE name that may be absent, taken as it is.
pub fn opt_cpe_to_canonical(o: &Option<Cpe>) -> (r: Option<models::Cpe>)
    ensures
        r.deep_view() == o.deep_view(),
{
    match o {
        Some(x) => Some(models::Cpe::new_unchecked(x.0.clone())),
        None => None,
    }
}

/// Shapes a media type that may be absent.
pub fn opt_mime_type_from_canonical(o: &Option<models::MimeType>) -> (r: Option<MimeType>)
    ensures
        r.deep_view() == o.deep_view(),
{
    match o {
        Some(x) => Some(MimeType(x.to_string())),
        None => None,
    }
}

/// Reads back a media type that may be absent, taken as it is.
pub fn opt_mime_type_to_canonical(o: &Option<MimeType>) -> (r: Option<models::MimeType>)
    ensures
        r.deep_view() == o.deep_view(),
{
    match o {
        Some(x) => Some(models::MimeType::new_unchecked(x.0.clone())),
        None => None,
    }
}

/// The texts of a list of URIs that may be absent.
pub fn opt_uris_to_strings(o: &Option<Vec<Uri>>) -> (r: Option<Vec<String>>)
    ensures
        r.deep_view() == o.deep_view(),
{
    match o {
        Some(x) => Some(uris_to_strings(x)),
        None => None,
    }
}

/// A list of texts that may be absent as URIs, taken as they are.
pub fn opt_strings_to_uris(o: &Option<Vec<String>>) -> (r: Option<Vec<Uri>>)
    ensures
        r.deep_view() == o.deep_view(),
{
    match o {
        Some(x) => Some(strings_to_uris(x)),
        None => None,
    }
}

/// Shapes a list of references that may be absent.
pub fn opt_references_from_canonical(o: &Option<Vec<models::BomReference>>) -> (r: Option<Vec<BomReference>>)
    ensures
        r.deep_view() == o.deep_view(),
{
    match o {
        Some(x) => Some(references_from_canonical(x)),
        None => None,
    }
}

/// Reads back a list of references that may be absent.
pub fn opt_references_to_canonical(o: &Option<Vec<BomReference>>) -> (r: Option<Vec<models::BomReference>>)
    ensures
        r.deep_view() == o.deep_view(),
{
    match o {
        Some(x) => Some(references_to_canonical(x)),
        None => None,
    }
}

/// The word for a scope that may be absent.
pub fn opt_scope_to_token(o: &Option<models::Scope>) -> (r: Option<String>)
    ensures
        r.deep_view() == (match *o {
            Some(x) => Some(scope_token(x)),
            None => None,
        }),
{
    match o {
        Some(x) => Some(scope_to_token(*x)),
        None => None,
    }
}

/// Reads a word that may be absent as a scope; the outer `None` exactly where
/// the word is there and outside the vocabulary.
pub fn opt_scope_from_token(o: &Option<String>) -> (r: Option<Option<models::Scope>>)
    ensures
        r is Some <==> (o.deep_view() matches Some(x) ==> scope_of_token(x) is Some),
        r matches Some(c) ==> c == (match o.deep_view() {
            Some(x) => Some(scope_of_token(x).unwrap()),
            None => None,
        }),
{
    match o {
        Some(x) => {
            match scope_from_token(x.as_str()) {
                Some(scope) => Some(Some(scope)),
                None => None,
            }
        },
        None => Some(None),
    }
}

impl From<models::BomReference> for BomReference {
    fn from(other: models::BomReference) -> (r: BomReference)
        ensures
            r.0 == other.0,
    {
        BomReference(other.0)
    }
}

impl vstd::std_specs::convert::FromSpecImpl<models::BomReference> for BomReference {
    open spec fn obeys_from_spec() -> bool {
        true
    }

    open spec fn from_spec(other: models::BomReference) -> BomReference {
        BomReference(other.0)
    }
}

impl From<BomReference> for models::BomReference {
    fn from(other: BomReference) -> (r: models::BomReference)
        ensures
            r.0 == other.0,
    {
        models::BomReference(other.0)
    }
}

impl vstd::std_specs::convert::FromSpecImpl<BomReference> for models::BomReference {
    open spec fn obeys_from_spec() -> bool {
        true
    }

    open spec fn from_spec(other: BomReference) -> models::BomReference {
        models::BomReference(other.0)
    }
}

impl From<models::AttachedText> for AttachedText {
    /// Shapes an attached text, taking its parts over without copying them.
    fn from(other: models::AttachedText) -> (r: AttachedText)
        ensures
            r.deep_view() == AttachedTextView::from_canonical(other.deep_view()),
    {
        AttachedText {
            content_type: match other.content_type {
                Some(n) => Some(n.into_string()),
                None => None,
            },
            encoding: match other.encoding {
                Some(e) => Some(String::from(e)),
                None => None,
            },
            content: other.content,
        }
    }
}

impl vstd::std_specs::convert::FromSpecImpl<models::AttachedText> for AttachedText {
    open spec fn obeys_from_spec() -> bool {
        false
    }

    open spec fn from_spec(other: models::AttachedText) -> AttachedText {
        arbitrary()
    }
}

impl From<AttachedText> for models::AttachedText {
    /// Reads an attached text back, taking its parts over without copying
    /// them and without validating the content type again.
    fn from(other: AttachedText) -> (r: models::AttachedText)
        ensures
            r.deep_view() == other.deep_view().to_canonical(),
    {
        models::AttachedText {
            content_type: match other.content_type {
                Some(n) => Some(NormalizedString::new_unchecked(n)),
                None => None,
            },
            encoding: match other.encoding {
                Some(e) => Some(models::Encoding::from(e)),
                None => None,
            },
            content: other.content,
        }
    }
}

impl vstd::std_specs::convert::FromSpecImpl<AttachedText> for models::AttachedText {
    open spec fn obeys_from_spec() -> bool {
        false
    }

    open spec fn from_spec(other: AttachedText) -> models::AttachedText {
        arbitrary()
    }
}

} // verus!
