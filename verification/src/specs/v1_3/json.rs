//! The JSON writer for schema 1.3: the JSON object of every shape of the
//! schema, member for member. Keys are the names the schema gives them, a
//! part that is absent has no member, and members keep the order in which
//! the schema lists them.

pub mod component;
pub mod document;
pub mod licenses;
pub mod omission;
pub mod parts;
pub mod service;

use crate::json::{
    array, document, lemma_null_free_strings, null_free, string, string_values, strings, Json,
    JsonValue,
};
use crate::specs::v1_3::{BomReference, Copyright, Cpe, MimeType};
use vstd::prelude::*;

verus! {

/// The JSON arrays for a sequence of copyright statements, one for one.
pub open spec fn copyrights_json(s: Seq<Seq<Seq<char>>>) -> Seq<Json> {
    Seq::new(s.len(), |i: int| Json::Array(string_values(s[i])))
}

/// The JSON arrays of copyright statements hold no `null`.
pub proof fn lemma_copyrights_json_is_null_free(s: Seq<Seq<Seq<char>>>)
    ensures
        null_free(Json::Array(copyrights_json(s))),
{
    assert forall|i: int| 0 <= i < s.len() implies null_free(#[trigger] copyrights_json(s)[i]) by {
        lemma_null_free_strings(s[i]);
    }
}

impl Cpe {
    /// The JSON string for a CPE name that may be absent.
    pub fn opt_to_json_value(o: &Option<Cpe>) -> (r: Option<JsonValue>)
        ensures
            r.deep_view() == (match o.deep_view() {
                Some(x) => Some(Json::String(x)),
                None => None,
            }),
    {
        match o {
            Some(x) => Some(string(x.0.as_str())),
            None => None,
        }
    }
}

impl MimeType {
    /// The JSON string for a media type that may be absent.
    pub fn opt_to_json_value(o: &Option<MimeType>) -> (r: Option<JsonValue>)
        ensures
            r.deep_view() == (match o.deep_view() {
                Some(x) => Some(Json::String(x)),
                None => None,
            }),
    {
        match o {
            Some(x) => Some(string(x.0.as_str())),
            None => None,
        }
    }
}

impl BomReference {
    /// The JSON array of strings for a list of references that may be
    /// absent.
    pub fn opt_vec_to_json_value(o: &Option<Vec<BomReference>>) -> (r: Option<JsonValue>)
        ensures
            r.deep_view() == (match o.deep_view() {
                Some(x) => Some(Json::Array(string_values(x))),
                None => None,
            }),
    {
        match o {
            Some(v) => {
                let mut items: Vec<JsonValue> = Vec::new();
                let mut i: usize = 0;
                while i < v.len()
                    invariant
                        i <= v.len(),
                        items.len() == i,
                        forall|j: int|
                            0 <= j < i ==> (#[trigger] items[j]).deep_view() == Json::String(
                                v[j].0@,
                            ),
                    decreases v.len() - i,
                {
                    items.push(string(v[i].0.as_str()));
                    i += 1;
                }
                proof {
                    assert(items.deep_view() =~= string_values(v.deep_view()));
                }
                Some(array(items))
            },
            None => None,
        }
    }
}

impl Copyright {
    /// The JSON array of the statements.
    pub fn to_json_value(&self) -> (r: JsonValue)
        ensures
            r.deep_view() == Json::Array(string_values(self.deep_view())),
    {
        strings(&self.0)
    }

    /// The JSON array for a list of them that may be absent.
    pub fn opt_vec_to_json_value(o: &Option<Vec<Copyright>>) -> (r: Option<JsonValue>)
        ensures
            r.deep_view() == (match o.deep_view() {
                Some(x) => Some(Json::Array(copyrights_json(x))),
                None => None,
            }),
    {
        match o {
            Some(v) => {
                let mut items: Vec<JsonValue> = Vec::new();
                let mut i: usize = 0;
                while i < v.len()
                    invariant
                        i <= v.len(),
                        items.len() == i,
                        forall|j: int|
                            0 <= j < i ==> (#[trigger] items[j]).deep_view() == Json::Array(
                                string_values(v[j].deep_view()),
                            ),
                    decreases v.len() - i,
                {
                    items.push(v[i].to_json_value());
                    i += 1;
                }
                proof {
                    assert(items.deep_view() =~= copyrights_json(v.deep_view()));
                }
                Some(array(items))
            },
            None => None,
        }
    }
}

} // verus!
