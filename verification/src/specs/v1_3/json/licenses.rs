//! The JSON objects of licenses, license choices and the evidence that
//! holds them.

use crate::json::{array, optional_string, string, Json, JsonValue, Members, ObjectBuilder};
use crate::specs::v1_3::json::copyrights_json;
use crate::specs::v1_3::{
    AttachedText, ComponentEvidence, ComponentEvidenceView, Copyright, License, LicenseChoice,
    LicenseChoiceView, LicenseIdentifier, LicenseIdentifierView, LicenseView,
};
use vstd::prelude::*;

verus! {

impl LicenseView {
    /// The JSON object that schema 1.3 writes for a license: its parts in the
    /// order of the schema, each under its key, and no member for a part that
    /// is absent.
    pub open spec fn json(self) -> Json {
        self.license_identifier.json_member(Members::none())
            .with_optional(
                "text"@,
                match self.text {
                    Some(x) => Some(x.json()),
                    None => None,
                },
            )
            .with_optional(
                "url"@,
                match self.url {
                    Some(x) => Some(Json::String(x)),
                    None => None,
                },
            )
            .object()
    }
}

impl License {
    /// Builds the JSON object for this license.
    pub fn to_json_value(&self) -> (r: JsonValue)
        ensures
            r.deep_view() == self.deep_view().json(),
    {
        let members = ObjectBuilder::new();
        let members = self.license_identifier.add_json_member(members);
        let members = members.with_optional("text", AttachedText::opt_to_json_value(&self.text));
        let members = members.with_optional("url", optional_string(&self.url));
        members.build()
    }

    /// The JSON object for one that may be absent.
    pub fn opt_to_json_value(o: &Option<License>) -> (r: Option<JsonValue>)
        ensures
            r.deep_view() == (match o.deep_view() {
                Some(x) => Some(x.json()),
                None => None,
            }),
    {
        match o {
            Some(x) => Some(x.to_json_value()),
            None => None,
        }
    }
}

impl ComponentEvidenceView {
    /// The JSON object that schema 1.3 writes for a component evidence: its parts in the
    /// order of the schema, each under its key, and no member for a part that
    /// is absent.
    pub open spec fn json(self) -> Json {
        Members::none()
            .with_optional(
                "licenses"@,
                match self.licenses {
                    Some(x) => Some(Json::Array(LicenseChoiceView::seq_json(x))),
                    None => None,
                },
            )
            .with_optional(
                "copyright"@,
                match self.copyright {
                    Some(x) => Some(Json::Array(copyrights_json(x))),
                    None => None,
                },
            )
            .object()
    }
}

impl ComponentEvidence {
    /// Builds the JSON object for this component evidence.
    pub fn to_json_value(&self) -> (r: JsonValue)
        ensures
            r.deep_view() == self.deep_view().json(),
    {
        let members = ObjectBuilder::new();
        let members = members.with_optional(
            "licenses",
            LicenseChoice::list_to_json_value(&self.licenses),
        );
        let members = members.with_optional(
            "copyright",
            Copyright::opt_vec_to_json_value(&self.copyright),
        );
        members.build()
    }

    /// The JSON object for one that may be absent.
    pub fn opt_to_json_value(o: &Option<ComponentEvidence>) -> (r: Option<JsonValue>)
        ensures
            r.deep_view() == (match o.deep_view() {
                Some(x) => Some(x.json()),
                None => None,
            }),
    {
        match o {
            Some(x) => Some(x.to_json_value()),
            None => None,
        }
    }
}

impl LicenseIdentifierView {
    /// The members `m` and then the member that names a license: `id` for
    /// an SPDX identifier, `name` for free text. It stands among the members
    /// of the license itself.
    pub open spec fn json_member(self, m: Members) -> Members {
        match self {
            LicenseIdentifierView::SpdxId(id) => m.with("id"@, Json::String(id)),
            LicenseIdentifierView::Name(name) => m.with("name"@, Json::String(name)),
        }
    }
}

impl LicenseIdentifier {
    /// Adds the member that names the license.
    pub fn add_json_member(&self, members: ObjectBuilder) -> (r: ObjectBuilder)
        ensures
            r@ == self.deep_view().json_member(members@),
    {
        match self {
            LicenseIdentifier::SpdxId(id) => members.with("id", string(id.as_str())),
            LicenseIdentifier::Name(name) => members.with("name", string(name.as_str())),
        }
    }
}

impl LicenseChoiceView {
    /// The JSON object of one entry of a list of licenses: the license under
    /// the key `license`, or the expression under the key `expression`; an
    /// entry that holds neither is the empty object.
    pub open spec fn json(self) -> Json {
        match self {
            LicenseChoiceView::License(license) => Members::none().with_optional(
                "license"@,
                match license {
                    Some(x) => Some(x.json()),
                    None => None,
                },
            ).object(),
            LicenseChoiceView::Expression(expression) => Members::none().with_optional(
                "expression"@,
                match expression {
                    Some(x) => Some(Json::String(x)),
                    None => None,
                },
            ).object(),
        }
    }

    /// The JSON objects of a sequence of entries, one for one.
    pub open spec fn seq_json(s: Seq<LicenseChoiceView>) -> Seq<Json> {
        Seq::new(s.len(), |i: int| s[i].json())
    }
}

impl LicenseChoice {
    /// Builds the JSON object for this entry.
    pub fn to_json_value(&self) -> (r: JsonValue)
        ensures
            r.deep_view() == self.deep_view().json(),
    {
        let members = ObjectBuilder::new();
        match self {
            LicenseChoice::License(license) => members.with_optional(
                "license",
                License::opt_to_json_value(license),
            ).build(),
            LicenseChoice::Expression(expression) => members.with_optional(
                "expression",
                optional_string(expression),
            ).build(),
        }
    }

    /// The JSON array for a list of entries that may be absent.
    pub fn list_to_json_value(o: &Option<Vec<LicenseChoice>>) -> (r: Option<JsonValue>)
        ensures
            r.deep_view() == (match o.deep_view() {
                Some(x) => Some(Json::Array(LicenseChoiceView::seq_json(x))),
                None => None,
            }),
    {
        match o {
            Some(v) => {
                let mut items: Vec<JsonValue> = Vec::new();
                let mut i: usize = 0;
                while i < v.len()
                    invariant
                        i <= v.len(),
                        items.len() == i,
                        forall|j: int|
                            0 <= j < i ==> (#[trigger] items[j]).deep_view()
                                == v[j].deep_view().json(),
                    decreases v.len() - i,
                {
                    items.push(v[i].to_json_value());
                    i += 1;
                }
                proof {
                    assert(items.deep_view() =~= LicenseChoiceView::seq_json(v.deep_view()));
                }
                Some(array(items))
            },
            None => None,
        }
    }
}

} // verus!
