//! The JSON objects of the small parts of a document.

use crate::json::{
    array, optional_bool, optional_number, optional_string, optional_strings, string,
    string_values, Json, JsonValue, Members, ObjectBuilder,
};
use crate::specs::v1_3::{
    AttachedText, AttachedTextView, BomReference, Commit, CommitView, Composition,
    CompositionView, DataClassification, DataClassificationView, Diff, DiffView,
    ExternalReference, ExternalReferenceView, HashView, IdentifiableAction,
    IdentifiableActionView, Issue, IssueView, OrganizationalContact, OrganizationalContactView,
    OrganizationalEntity, OrganizationalEntityView, Patch, PatchView, Properties, Property,
    PropertyView, Source, SourceView, Swid, SwidView, Tool, ToolView,
};
use vstd::prelude::*;

verus! {

impl AttachedTextView {
    /// The JSON object that schema 1.3 writes for an attached text: its parts in the
    /// order of the schema, each under its key, and no member for a part that
    /// is absent.
    pub open spec fn json(self) -> Json {
        Members::none()
            .with_optional(
                "contentType"@,
                match self.content_type {
                    Some(x) => Some(Json::String(x)),
                    None => None,
                },
            )
            .with_optional(
                "encoding"@,
                match self.encoding {
                    Some(x) => Some(Json::String(x)),
                    None => None,
                },
            )
            .with("content"@, Json::String(self.content))
            .object()
    }
}

impl AttachedText {
    /// Builds the JSON object for this attached text.
    pub fn to_json_value(&self) -> (r: JsonValue)
        ensures
            r.deep_view() == self.deep_view().json(),
    {
        let members = ObjectBuilder::new();
        let members = members.with_optional("contentType", optional_string(&self.content_type));
        let members = members.with_optional("encoding", optional_string(&self.encoding));
        let members = members.with("content", string(self.content.as_str()));
        members.build()
    }

    /// The JSON object for one that may be absent.
    pub fn opt_to_json_value(o: &Option<AttachedText>) -> (r: Option<JsonValue>)
        ensures
            r.deep_view() == (match o.deep_view() {
                Some(x) => Some(x.json()),
                None => None,
            }),
    {
        match o {
            Some(x) => Some(x.to_json_value()),
            None => None,
        }
    }
}

impl HashView {
    /// The JSON object that schema 1.3 writes for a hash: its parts in the
    /// order of the schema, each under its key, and no member for a part that
    /// is absent.
    pub open spec fn json(self) -> Json {
        Members::none()
            .with("alg"@, Json::String(self.alg))
            .with("content"@, Json::String(self.content))
            .object()
    }

    /// The JSON objects of a sequence of them, one for one.
    pub open spec fn seq_json(s: Seq<HashView>) -> Seq<Json> {
        Seq::new(
            s.len(),
            |i: int|
                if 0 <= i < s.len() {
                    s[i].json()
                } else {
                    arbitrary()
                },
        )
    }
}

impl crate::specs::v1_3::Hash {
    /// Builds the JSON object for this hash.
    pub fn to_json_value(&self) -> (r: JsonValue)
        ensures
            r.deep_view() == self.deep_view().json(),
    {
        let members = ObjectBuilder::new();
        let members = members.with("alg", string(self.alg.as_str()));
        let members = members.with("content", string(self.content.0.as_str()));
        members.build()
    }

    /// The JSON array for a list of them.
    pub fn vec_to_json_value(v: &Vec<crate::specs::v1_3::Hash>) -> (r: JsonValue)
        ensures
            r.deep_view() == Json::Array(HashView::seq_json(v.deep_view())),
    {
        let mut items: Vec<JsonValue> = Vec::new();
        let mut i: usize = 0;
        while i < v.len()
            invariant
                i <= v.len(),
                items.len() == i,
                forall|j: int|
                    0 <= j < i ==> (#[trigger] items[j]).deep_view() == v[j].deep_view().json(),
            decreases v.len() - i,
        {
            items.push(v[i].to_json_value());
            i += 1;
        }
        proof {
            assert(items.deep_view() =~= HashView::seq_json(v.deep_view()));
        }
        array(items)
    }

    /// The JSON array for a list of them that may be absent.
    pub fn opt_vec_to_json_value(o: &Option<Vec<crate::specs::v1_3::Hash>>) -> (r: Option<JsonValue>)
        ensures
            r.deep_view() == (match o.deep_view() {
                Some(x) => Some(Json::Array(HashView::seq_json(x))),
                None => None,
            }),
    {
        match o {
            Some(x) => Some(crate::specs::v1_3::Hash::vec_to_json_value(x)),
            None => None,
        }
    }
}

impl OrganizationalContactView {
    /// The JSON object that schema 1.3 writes for an organizational contact: its parts in the
    /// order of the schema, each under its key, and no member for a part that
    /// is absent.
    pub open spec fn json(self) -> Json {
        Members::none()
            .with_optional(
                "name"@,
                match self.name {
                    Some(x) => Some(Json::String(x)),
                    None => None,
                },
            )
            .with_optional(
                "email"@,
                match self.email {
                    Some(x) => Some(Json::String(x)),
                    None => None,
                },
            )
            .with_optional(
                "phone"@,
                match self.phone {
                    Some(x) => Some(Json::String(x)),
                    None => None,
                },
            )
            .object()
    }

    /// The JSON objects of a sequence of them, one for one.
    pub open spec fn seq_json(s: Seq<OrganizationalContactView>) -> Seq<Json> {
        Seq::new(
            s.len(),
            |i: int|
                if 0 <= i < s.len() {
                    s[i].json()
                } else {
                    arbitrary()
                },
        )
    }
}

impl OrganizationalContact {
    /// Builds the JSON object for this organizational contact.
    pub fn to_json_value(&self) -> (r: JsonValue)
        ensures
            r.deep_view() == self.deep_view().json(),
    {
        let members = ObjectBuilder::new();
        let members = members.with_optional("name", optional_string(&self.name));
        let members = members.with_optional("email", optional_string(&self.email));
        let members = members.with_optional("phone", optional_string(&self.phone));
        members.build()
    }

    /// The JSON array for a list of them.
    pub fn vec_to_json_value(v: &Vec<OrganizationalContact>) -> (r: JsonValue)
        ensures
            r.deep_view() == Json::Array(OrganizationalContactView::seq_json(v.deep_view())),
    {
        let mut items: Vec<JsonValue> = Vec::new();
        let mut i: usize = 0;
        while i < v.len()
            invariant
                i <= v.len(),
                items.len() == i,
                forall|j: int|
                    0 <= j < i ==> (#[trigger] items[j]).deep_view() == v[j].deep_view().json(),
            decreases v.len() - i,
        {
            items.push(v[i].to_json_value());
            i += 1;
        }
        proof {
            assert(items.deep_view() =~= OrganizationalContactView::seq_json(v.deep_view()));
        }
        array(items)
    }

    /// The JSON array for a list of them that may be absent.
    pub fn opt_vec_to_json_value(o: &Option<Vec<OrganizationalContact>>) -> (r: Option<JsonValue>)
        ensures
            r.deep_view() == (match o.deep_view() {
                Some(x) => Some(Json::Array(OrganizationalContactView::seq_json(x))),
                None => None,
            }),
    {
        match o {
            Some(x) => Some(OrganizationalContact::vec_to_json_value(x)),
            None => None,
        }
    }
}

impl OrganizationalEntityView {
    /// The JSON object that schema 1.3 writes for an organizational entity: its parts in the
    /// order of the schema, each under its key, and no member for a part that
    /// is absent.
    pub open spec fn json(self) -> Json {
        Members::none()
            .with_optional(
                "name"@,
                match self.name {
                    Some(x) => Some(Json::String(x)),
                    None => None,
                },
            )
            .with_optional(
                "url"@,
                match self.url {
                    Some(x) => Some(Json::Array(string_values(x))),
                    None => None,
                },
            )
            .with_optional(
                "contact"@,
                match self.contact {
                    Some(x) => Some(Json::Array(OrganizationalContactView::seq_json(x))),
                    None => None,
                },
            )
            .object()
    }
}

impl OrganizationalEntity {
    /// Builds the JSON object for this organizational entity.
    pub fn to_json_value(&self) -> (r: JsonValue)
        ensures
            r.deep_view() == self.deep_view().json(),
    {
        let members = ObjectBuilder::new();
        let members = members.with_optional("name", optional_string(&self.name));
        let members = members.with_optional("url", optional_strings(&self.url));
        let members = members.with_optional(
            "contact",
            OrganizationalContact::opt_vec_to_json_value(&self.contact),
        );
        members.build()
    }

    /// The JSON object for one that may be absent.
    pub fn opt_to_json_value(o: &Option<OrganizationalEntity>) -> (r: Option<JsonValue>)
        ensures
            r.deep_view() == (match o.deep_view() {
                Some(x) => Some(x.json()),
                None => None,
            }),
    {
        match o {
            Some(x) => Some(x.to_json_value()),
            None => None,
        }
    }
}

impl IdentifiableActionView {
    /// The JSON object that schema 1.3 writes for an identifiable action: its parts in the
    /// order of the schema, each under its key, and no member for a part that
    /// is absent.
    pub open spec fn json(self) -> Json {
        Members::none()
            .with_optional(
                "timestamp"@,
                match self.timestamp {
                    Some(x) => Some(Json::String(x)),
                    None => None,
                },
            )
            .with_optional(
                "name"@,
                match self.name {
                    Some(x) => Some(Json::String(x)),
                    None => None,
                },
            )
            .with_optional(
                "email"@,
                match self.email {
                    Some(x) => Some(Json::String(x)),
                    None => None,
                },
            )
            .object()
    }
}

impl IdentifiableAction {
    /// Builds the JSON object for this identifiable action.
    pub fn to_json_value(&self) -> (r: JsonValue)
        ensures
            r.deep_view() == self.deep_view().json(),
    {
        let members = ObjectBuilder::new();
        let members = members.with_optional("timestamp", optional_string(&self.timestamp));
        let members = members.with_optional("name", optional_string(&self.name));
        let members = members.with_optional("email", optional_string(&self.email));
        members.build()
    }

    /// The JSON object for one that may be absent.
    pub fn opt_to_json_value(o: &Option<IdentifiableAction>) -> (r: Option<JsonValue>)
        ensures
            r.deep_view() == (match o.deep_view() {
                Some(x) => Some(x.json()),
                None => None,
            }),
    {
        match o {
            Some(x) => Some(x.to_json_value()),
            None => None,
        }
    }
}

impl CommitView {
    /// The JSON object that schema 1.3 writes for a commit: its parts in the
    /// order of the schema, each under its key, and no member for a part that
    /// is absent.
    pub open spec fn json(self) -> Json {
        Members::none()
            .with_optional(
                "uid"@,
                match self.uid {
                    Some(x) => Some(Json::String(x)),
                    None => None,
                },
            )
            .with_optional(
                "url"@,
                match self.url {
                    Some(x) => Some(Json::String(x)),
                    None => None,
                },
            )
            .with_optional(
                "author"@,
                match self.author {
                    Some(x) => Some(x.json()),
                    None => None,
                },
            )
            .with_optional(
                "committer"@,
                match self.committer {
                    Some(x) => Some(x.json()),
                    None => None,
                },
            )
            .with_optional(
                "message"@,
                match self.message {
                    Some(x) => Some(Json::String(x)),
                    None => None,
                },
            )
            .object()
    }

    /// The JSON objects of a sequence of them, one for one.
    pub open spec fn seq_json(s: Seq<CommitView>) -> Seq<Json> {
        Seq::new(
            s.len(),
            |i: int|
                if 0 <= i < s.len() {
                    s[i].json()
                } else {
                    arbitrary()
                },
        )
    }
}

impl Commit {
    /// Builds the JSON object for this commit.
    pub fn to_json_value(&self) -> (r: JsonValue)
        ensures
            r.deep_view() == self.deep_view().json(),
    {
        let members = ObjectBuilder::new();
        let members = members.with_optional("uid", optional_string(&self.uid));
        let members = members.with_optional("url", optional_string(&self.url));
        let members = members.with_optional(
            "author",
            IdentifiableAction::opt_to_json_value(&self.author),
        );
        let members = members.with_optional(
            "committer",
            IdentifiableAction::opt_to_json_value(&self.committer),
        );
        let members = members.with_optional("message", optional_string(&self.message));
        members.build()
    }

    /// The JSON array for a list of them.
    pub fn vec_to_json_value(v: &Vec<Commit>) -> (r: JsonValue)
        ensures
            r.deep_view() == Json::Array(CommitView::seq_json(v.deep_view())),
    {
        let mut items: Vec<JsonValue> = Vec::new();
        let mut i: usize = 0;
        while i < v.len()
            invariant
                i <= v.len(),
                items.len() == i,
                forall|j: int|
                    0 <= j < i ==> (#[trigger] items[j]).deep_view() == v[j].deep_view().json(),
            decreases v.len() - i,
        {
            items.push(v[i].to_json_value());
            i += 1;
        }
        proof {
            assert(items.deep_view() =~= CommitView::seq_json(v.deep_view()));
        }
        array(items)
    }

    /// The JSON array for a list of them that may be absent.
    pub fn opt_vec_to_json_value(o: &Option<Vec<Commit>>) -> (r: Option<JsonValue>)
        ensures
            r.deep_view() == (match o.deep_view() {
                Some(x) => Some(Json::Array(CommitView::seq_json(x))),
                None => None,
            }),
    {
        match o {
            Some(x) => Some(Commit::vec_to_json_value(x)),
            None => None,
        }
    }
}

impl CompositionView {
    /// The JSON object that schema 1.3 writes for a composition: its parts in the
    /// order of the schema, each under its key, and no member for a part that
    /// is absent.
    pub open spec fn json(self) -> Json {
        Members::none()
            .with("aggregate"@, Json::String(self.aggregate))
            .with_optional(
                "assemblies"@,
                match self.assemblies {
                    Some(x) => Some(Json::Array(string_values(x))),
                    None => None,
                },
            )
            .with_optional(
                "dependencies"@,
                match self.dependencies {
                    Some(x) => Some(Json::Array(string_values(x))),
                    None => None,
                },
            )
            .object()
    }

    /// The JSON objects of a sequence of them, one for one.
    pub open spec fn seq_json(s: Seq<CompositionView>) -> Seq<Json> {
        Seq::new(
            s.len(),
            |i: int|
                if 0 <= i < s.len() {
                    s[i].json()
                } else {
                    arbitrary()
                },
        )
    }
}

impl Composition {
    /// Builds the JSON object for this composition.
    pub fn to_json_value(&self) -> (r: JsonValue)
        ensures
            r.deep_view() == self.deep_view().json(),
    {
        let members = ObjectBuilder::new();
        let members = members.with("aggregate", string(self.aggregate.as_str()));
        let members = members.with_optional(
            "assemblies",
            BomReference::opt_vec_to_json_value(&self.assemblies),
        );
        let members = members.with_optional(
            "dependencies",
            BomReference::opt_vec_to_json_value(&self.dependencies),
        );
        members.build()
    }

    /// The JSON array for a list of them.
    pub fn vec_to_json_value(v: &Vec<Composition>) -> (r: JsonValue)
        ensures
            r.deep_view() == Json::Array(CompositionView::seq_json(v.deep_view())),
    {
        let mut items: Vec<JsonValue> = Vec::new();
        let mut i: usize = 0;
        while i < v.len()
            invariant
                i <= v.len(),
                items.len() == i,
                forall|j: int|
                    0 <= j < i ==> (#[trigger] items[j]).deep_view() == v[j].deep_view().json(),
            decreases v.len() - i,
        {
            items.push(v[i].to_json_value());
            i += 1;
        }
        proof {
            assert(items.deep_view() =~= CompositionView::seq_json(v.deep_view()));
        }
        array(items)
    }

    /// The JSON array for a list of them that may be absent.
    pub fn opt_vec_to_json_value(o: &Option<Vec<Composition>>) -> (r: Option<JsonValue>)
        ensures
            r.deep_view() == (match o.deep_view() {
                Some(x) => Some(Json::Array(CompositionView::seq_json(x))),
                None => None,
            }),
    {
        match o {
            Some(x) => Some(Composition::vec_to_json_value(x)),
            None => None,
        }
    }
}

impl DataClassificationView {
    /// The JSON object that schema 1.3 writes for a data classification: its parts in the
    /// order of the schema, each under its key, and no member for a part that
    /// is absent.
    pub open spec fn json(self) -> Json {
        Members::none()
            .with("flow"@, Json::String(self.flow))
            .with("classification"@, Json::String(self.classification))
            .object()
    }

    /// The JSON objects of a sequence of them, one for one.
    pub open spec fn seq_json(s: Seq<DataClassificationView>) -> Seq<Json> {
        Seq::new(
            s.len(),
            |i: int|
                if 0 <= i < s.len() {
                    s[i].json()
                } else {
                    arbitrary()
                },
        )
    }
}

impl DataClassification {
    /// Builds the JSON object for this data classification.
    pub fn to_json_value(&self) -> (r: JsonValue)
        ensures
            r.deep_view() == self.deep_view().json(),
    {
        let members = ObjectBuilder::new();
        let members = members.with("flow", string(self.flow.as_str()));
        let members = members.with("classification", string(self.classification.as_str()));
        members.build()
    }

    /// The JSON array for a list of them.
    pub fn vec_to_json_value(v: &Vec<DataClassification>) -> (r: JsonValue)
        ensures
            r.deep_view() == Json::Array(DataClassificationView::seq_json(v.deep_view())),
    {
        let mut items: Vec<JsonValue> = Vec::new();
        let mut i: usize = 0;
        while i < v.len()
            invariant
                i <= v.len(),
                items.len() == i,
                forall|j: int|
                    0 <= j < i ==> (#[trigger] items[j]).deep_view() == v[j].deep_view().json(),
            decreases v.len() - i,
        {
            items.push(v[i].to_json_value());
            i += 1;
        }
        proof {
            assert(items.deep_view() =~= DataClassificationView::seq_json(v.deep_view()));
        }
        array(items)
    }

    /// The JSON array for a list of them that may be absent.
    pub fn opt_vec_to_json_value(o: &Option<Vec<DataClassification>>) -> (r: Option<JsonValue>)
        ensures
            r.deep_view() == (match o.deep_view() {
                Some(x) => Some(Json::Array(DataClassificationView::seq_json(x))),
                None => None,
            }),
    {
        match o {
            Some(x) => Some(DataClassification::vec_to_json_value(x)),
            None => None,
        }
    }
}

impl DiffView {
    /// The JSON object that schema 1.3 writes for a diff: its parts in the
    /// order of the schema, each under its key, and no member for a part that
    /// is absent.
    pub open spec fn json(self) -> Json {
        Members::none()
            .with_optional(
                "text"@,
                match self.text {
                    Some(x) => Some(x.json()),
                    None => None,
                },
            )
            .with_optional(
                "url"@,
                match self.url {
                    Some(x) => Some(Json::String(x)),
                    None => None,
                },
            )
            .object()
    }
}

impl Diff {
    /// Builds the JSON object for this diff.
    pub fn to_json_value(&self) -> (r: JsonValue)
        ensures
            r.deep_view() == self.deep_view().json(),
    {
        let members = ObjectBuilder::new();
        let members = members.with_optional("text", AttachedText::opt_to_json_value(&self.text));
        let members = members.with_optional("url", optional_string(&self.url));
        members.build()
    }
}

impl ExternalReferenceView {
    /// The JSON object that schema 1.3 writes for an external reference: its parts in the
    /// order of the schema, each under its key, and no member for a part that
    /// is absent.
    pub open spec fn json(self) -> Json {
        Members::none()
            .with("type"@, Json::String(self.external_reference_type))
            .with("url"@, Json::String(self.url))
            .with_optional(
                "comment"@,
                match self.comment {
                    Some(x) => Some(Json::String(x)),
                    None => None,
                },
            )
            .with_optional(
                "hashes"@,
                match self.hashes {
                    Some(x) => Some(Json::Array(HashView::seq_json(x))),
                    None => None,
                },
            )
            .object()
    }

    /// The JSON objects of a sequence of them, one for one.
    pub open spec fn seq_json(s: Seq<ExternalReferenceView>) -> Seq<Json> {
        Seq::new(
            s.len(),
            |i: int|
                if 0 <= i < s.len() {
                    s[i].json()
                } else {
                    arbitrary()
                },
        )
    }
}

impl ExternalReference {
    /// Builds the JSON object for this external reference.
    pub fn to_json_value(&self) -> (r: JsonValue)
        ensures
            r.deep_view() == self.deep_view().json(),
    {
        let members = ObjectBuilder::new();
        let members = members.with("type", string(self.external_reference_type.as_str()));
        let members = members.with("url", string(self.url.as_str()));
        let members = members.with_optional("comment", optional_string(&self.comment));
        let members = members.with_optional(
            "hashes",
            crate::specs::v1_3::Hash::opt_vec_to_json_value(&self.hashes),
        );
        members.build()
    }

    /// The JSON array for a list of them.
    pub fn vec_to_json_value(v: &Vec<ExternalReference>) -> (r: JsonValue)
        ensures
            r.deep_view() == Json::Array(ExternalReferenceView::seq_json(v.deep_view())),
    {
        let mut items: Vec<JsonValue> = Vec::new();
        let mut i: usize = 0;
        while i < v.len()
            invariant
                i <= v.len(),
                items.len() == i,
                forall|j: int|
                    0 <= j < i ==> (#[trigger] items[j]).deep_view() == v[j].deep_view().json(),
            decreases v.len() - i,
        {
            items.push(v[i].to_json_value());
            i += 1;
        }
        proof {
            assert(items.deep_view() =~= ExternalReferenceView::seq_json(v.deep_view()));
        }
        array(items)
    }

    /// The JSON array for a list of them that may be absent.
    pub fn opt_vec_to_json_value(o: &Option<Vec<ExternalReference>>) -> (r: Option<JsonValue>)
        ensures
            r.deep_view() == (match o.deep_view() {
                Some(x) => Some(Json::Array(ExternalReferenceView::seq_json(x))),
                None => None,
            }),
    {
        match o {
            Some(x) => Some(ExternalReference::vec_to_json_value(x)),
            None => None,
        }
    }
}

impl SourceView {
    /// The JSON object that schema 1.3 writes for a source: its parts in the
    /// order of the schema, each under its key, and no member for a part that
    /// is absent.
    pub open spec fn json(self) -> Json {
        Members::none()
            .with_optional(
                "name"@,
                match self.name {
                    Some(x) => Some(Json::String(x)),
                    None => None,
                },
            )
            .with_optional(
                "url"@,
                match self.url {
                    Some(x) => Some(Json::String(x)),
                    None => None,
                },
            )
            .object()
    }
}

impl Source {
    /// Builds the JSON object for this source.
    pub fn to_json_value(&self) -> (r: JsonValue)
        ensures
            r.deep_view() == self.deep_view().json(),
    {
        let members = ObjectBuilder::new();
        let members = members.with_optional("name", optional_string(&self.name));
        let members = members.with_optional("url", optional_string(&self.url));
        members.build()
    }

    /// The JSON object for one that may be absent.
    pub fn opt_to_json_value(o: &Option<Source>) -> (r: Option<JsonValue>)
        ensures
            r.deep_view() == (match o.deep_view() {
                Some(x) => Some(x.json()),
                None => None,
            }),
    {
        match o {
            Some(x) => Some(x.to_json_value()),
            None => None,
        }
    }
}

impl IssueView {
    /// The JSON object that schema 1.3 writes for an issue: its parts in the
    /// order of the schema, each under its key, and no member for a part that
    /// is absent.
    pub open spec fn json(self) -> Json {
        Members::none()
            .with("type"@, Json::String(self.issue_type))
            .with_optional(
                "id"@,
                match self.id {
                    Some(x) => Some(Json::String(x)),
                    None => None,
                },
            )
            .with_optional(
                "name"@,
                match self.name {
                    Some(x) => Some(Json::String(x)),
                    None => None,
                },
            )
            .with_optional(
                "description"@,
                match self.description {
                    Some(x) => Some(Json::String(x)),
                    None => None,
                },
            )
            .with_optional(
                "source"@,
                match self.source {
                    Some(x) => Some(x.json()),
                    None => None,
                },
            )
            .with_optional(
                "references"@,
                match self.references {
                    Some(x) => Some(Json::Array(string_values(x))),
                    None => None,
                },
            )
            .object()
    }

    /// The JSON objects of a sequence of them, one for one.
    pub open spec fn seq_json(s: Seq<IssueView>) -> Seq<Json> {
        Seq::new(
            s.len(),
            |i: int|
                if 0 <= i < s.len() {
                    s[i].json()
                } else {
                    arbitrary()
                },
        )
    }
}

impl Issue {
    /// Builds the JSON object for this issue.
    pub fn to_json_value(&self) -> (r: JsonValue)
        ensures
            r.deep_view() == self.deep_view().json(),
    {
        let members = ObjectBuilder::new();
        let members = members.with("type", string(self.issue_type.as_str()));
        let members = members.with_optional("id", optional_string(&self.id));
        let members = members.with_optional("name", optional_string(&self.name));
        let members = members.with_optional("description", optional_string(&self.description));
        let members = members.with_optional("source", Source::opt_to_json_value(&self.source));
        let members = members.with_optional("references", optional_strings(&self.references));
        members.build()
    }

    /// The JSON array for a list of them.
    pub fn vec_to_json_value(v: &Vec<Issue>) -> (r: JsonValue)
        ensures
            r.deep_view() == Json::Array(IssueView::seq_json(v.deep_view())),
    {
        let mut items: Vec<JsonValue> = Vec::new();
        let mut i: usize = 0;
        while i < v.len()
            invariant
                i <= v.len(),
                items.len() == i,
                forall|j: int|
                    0 <= j < i ==> (#[trigger] items[j]).deep_view() == v[j].deep_view().json(),
            decreases v.len() - i,
        {
            items.push(v[i].to_json_value());
            i += 1;
        }
        proof {
            assert(items.deep_view() =~= IssueView::seq_json(v.deep_view()));
        }
        array(items)
    }

    /// The JSON array for a list of them that may be absent.
    pub fn opt_vec_to_json_value(o: &Option<Vec<Issue>>) -> (r: Option<JsonValue>)
        ensures
            r.deep_view() == (match o.deep_view() {
                Some(x) => Some(Json::Array(IssueView::seq_json(x))),
                None => None,
            }),
    {
        match o {
            Some(x) => Some(Issue::vec_to_json_value(x)),
            None => None,
        }
    }
}

impl PatchView {
    /// The JSON object that schema 1.3 writes for a patch: its parts in the
    /// order of the schema, each under its key, and no member for a part that
    /// is absent.
    pub open spec fn json(self) -> Json {
        Members::none()
            .with("type"@, Json::String(self.patch_type))
            .with("diff"@, self.diff.json())
            .with_optional(
                "resolves"@,
                match self.resolves {
                    Some(x) => Some(Json::Array(IssueView::seq_json(x))),
                    None => None,
                },
            )
            .object()
    }

    /// The JSON objects of a sequence of them, one for one.
    pub open spec fn seq_json(s: Seq<PatchView>) -> Seq<Json> {
        Seq::new(
            s.len(),
            |i: int|
                if 0 <= i < s.len() {
                    s[i].json()
                } else {
                    arbitrary()
                },
        )
    }
}

impl Patch {
    /// Builds the JSON object for this patch.
    pub fn to_json_value(&self) -> (r: JsonValue)
        ensures
            r.deep_view() == self.deep_view().json(),
    {
        let members = ObjectBuilder::new();
        let members = members.with("type", string(self.patch_type.as_str()));
        let members = members.with("diff", self.diff.to_json_value());
        let members = members.with_optional(
            "resolves",
            Issue::opt_vec_to_json_value(&self.resolves),
        );
        members.build()
    }

    /// The JSON array for a list of them.
    pub fn vec_to_json_value(v: &Vec<Patch>) -> (r: JsonValue)
        ensures
            r.deep_view() == Json::Array(PatchView::seq_json(v.deep_view())),
    {
        let mut items: Vec<JsonValue> = Vec::new();
        let mut i: usize = 0;
        while i < v.len()
            invariant
                i <= v.len(),
                items.len() == i,
                forall|j: int|
                    0 <= j < i ==> (#[trigger] items[j]).deep_view() == v[j].deep_view().json(),
            decreases v.len() - i,
        {
            items.push(v[i].to_json_value());
            i += 1;
        }
        proof {
            assert(items.deep_view() =~= PatchView::seq_json(v.deep_view()));
        }
        array(items)
    }

    /// The JSON array for a list of them that may be absent.
    pub fn opt_vec_to_json_value(o: &Option<Vec<Patch>>) -> (r: Option<JsonValue>)
        ensures
            r.deep_view() == (match o.deep_view() {
                Some(x) => Some(Json::Array(PatchView::seq_json(x))),
                None => None,
            }),
    {
        match o {
            Some(x) => Some(Patch::vec_to_json_value(x)),
            None => None,
        }
    }
}

impl PropertyView {
    /// The JSON object that schema 1.3 writes for a property: its parts in the
    /// order of the schema, each under its key, and no member for a part that
    /// is absent.
    pub open spec fn json(self) -> Json {
        Members::none()
            .with("name"@, Json::String(self.name))
            .with("value"@, Json::String(self.value))
            .object()
    }

    /// The JSON objects of a sequence of them, one for one.
    pub open spec fn seq_json(s: Seq<PropertyView>) -> Seq<Json> {
        Seq::new(
            s.len(),
            |i: int|
                if 0 <= i < s.len() {
                    s[i].json()
                } else {
                    arbitrary()
                },
        )
    }
}

impl Property {
    /// Builds the JSON object for this property.
    pub fn to_json_value(&self) -> (r: JsonValue)
        ensures
            r.deep_view() == self.deep_view().json(),
    {
        let members = ObjectBuilder::new();
        let members = members.with("name", string(self.name.as_str()));
        let members = members.with("value", string(self.value.as_str()));
        members.build()
    }

    /// The JSON array for a list of them.
    pub fn vec_to_json_value(v: &Vec<Property>) -> (r: JsonValue)
        ensures
            r.deep_view() == Json::Array(PropertyView::seq_json(v.deep_view())),
    {
        let mut items: Vec<JsonValue> = Vec::new();
        let mut i: usize = 0;
        while i < v.len()
            invariant
                i <= v.len(),
                items.len() == i,
                forall|j: int|
                    0 <= j < i ==> (#[trigger] items[j]).deep_view() == v[j].deep_view().json(),
            decreases v.len() - i,
        {
            items.push(v[i].to_json_value());
            i += 1;
        }
        proof {
            assert(items.deep_view() =~= PropertyView::seq_json(v.deep_view()));
        }
        array(items)
    }
}

impl SwidView {
    /// The JSON object that schema 1.3 writes for a swid: its parts in the
    /// order of the schema, each under its key, and no member for a part that
    /// is absent.
    pub open spec fn json(self) -> Json {
        Members::none()
            .with("tagId"@, Json::String(self.tag_id))
            .with("name"@, Json::String(self.name))
            .with_optional(
                "version"@,
                match self.version {
                    Some(x) => Some(Json::String(x)),
                    None => None,
                },
            )
            .with_optional(
                "tagVersion"@,
                match self.tag_version {
                    Some(x) => Some(Json::Number(x as nat)),
                    None => None,
                },
            )
            .with_optional(
                "patch"@,
                match self.patch {
                    Some(x) => Some(Json::Bool(x)),
                    None => None,
                },
            )
            .with_optional(
                "text"@,
                match self.text {
                    Some(x) => Some(x.json()),
                    None => None,
                },
            )
            .with_optional(
                "url"@,
                match self.url {
                    Some(x) => Some(Json::String(x)),
                    None => None,
                },
            )
            .object()
    }
}

impl Swid {
    /// Builds the JSON object for this swid.
    pub fn to_json_value(&self) -> (r: JsonValue)
        ensures
            r.deep_view() == self.deep_view().json(),
    {
        let members = ObjectBuilder::new();
        let members = members.with("tagId", string(self.tag_id.as_str()));
        let members = members.with("name", string(self.name.as_str()));
        let members = members.with_optional("version", optional_string(&self.version));
        let members = members.with_optional("tagVersion", optional_number(self.tag_version));
        let members = members.with_optional("patch", optional_bool(self.patch));
        let members = members.with_optional("text", AttachedText::opt_to_json_value(&self.text));
        let members = members.with_optional("url", optional_string(&self.url));
        members.build()
    }

    /// The JSON object for one that may be absent.
    pub fn opt_to_json_value(o: &Option<Swid>) -> (r: Option<JsonValue>)
        ensures
            r.deep_view() == (match o.deep_view() {
                Some(x) => Some(x.json()),
                None => None,
            }),
    {
        match o {
            Some(x) => Some(x.to_json_value()),
            None => None,
        }
    }
}

impl ToolView {
    /// The JSON object that schema 1.3 writes for a tool: its parts in the
    /// order of the schema, each under its key, and no member for a part that
    /// is absent.
    pub open spec fn json(self) -> Json {
        Members::none()
            .with_optional(
                "vendor"@,
                match self.vendor {
                    Some(x) => Some(Json::String(x)),
                    None => None,
                },
            )
            .with_optional(
                "name"@,
                match self.name {
                    Some(x) => Some(Json::String(x)),
                    None => None,
                },
            )
            .with_optional(
                "version"@,
                match self.version {
                    Some(x) => Some(Json::String(x)),
                    None => None,
                },
            )
            .with_optional(
                "hashes"@,
                match self.hashes {
                    Some(x) => Some(Json::Array(HashView::seq_json(x))),
                    None => None,
                },
            )
            .object()
    }

    /// The JSON objects of a sequence of them, one for one.
    pub open spec fn seq_json(s: Seq<ToolView>) -> Seq<Json> {
        Seq::new(
            s.len(),
            |i: int|
                if 0 <= i < s.len() {
                    s[i].json()
                } else {
                    arbitrary()
                },
        )
    }
}

impl Tool {
    /// Builds the JSON object for this tool.
    pub fn to_json_value(&self) -> (r: JsonValue)
        ensures
            r.deep_view() == self.deep_view().json(),
    {
        let members = ObjectBuilder::new();
        let members = members.with_optional("vendor", optional_string(&self.vendor));
        let members = members.with_optional("name", optional_string(&self.name));
        let members = members.with_optional("version", optional_string(&self.version));
        let members = members.with_optional(
            "hashes",
            crate::specs::v1_3::Hash::opt_vec_to_json_value(&self.hashes),
        );
        members.build()
    }

    /// The JSON array for a list of them.
    pub fn vec_to_json_value(v: &Vec<Tool>) -> (r: JsonValue)
        ensures
            r.deep_view() == Json::Array(ToolView::seq_json(v.deep_view())),
    {
        let mut items: Vec<JsonValue> = Vec::new();
        let mut i: usize = 0;
        while i < v.len()
            invariant
                i <= v.len(),
                items.len() == i,
                forall|j: int|
                    0 <= j < i ==> (#[trigger] items[j]).deep_view() == v[j].deep_view().json(),
            decreases v.len() - i,
        {
            items.push(v[i].to_json_value());
            i += 1;
        }
        proof {
            assert(items.deep_view() =~= ToolView::seq_json(v.deep_view()));
        }
        array(items)
    }

    /// The JSON array for a list of them that may be absent.
    pub fn opt_vec_to_json_value(o: &Option<Vec<Tool>>) -> (r: Option<JsonValue>)
        ensures
            r.deep_view() == (match o.deep_view() {
                Some(x) => Some(Json::Array(ToolView::seq_json(x))),
                None => None,
            }),
    {
        match o {
            Some(x) => Some(Tool::vec_to_json_value(x)),
            None => None,
        }
    }
}

impl Properties {
    /// The JSON array of the properties.
    pub fn to_json_value(&self) -> (r: JsonValue)
        ensures
            r.deep_view() == Json::Array(PropertyView::seq_json(self.deep_view())),
    {
        Property::vec_to_json_value(&self.0)
    }

    /// The JSON array for a list of properties that may be absent.
    pub fn opt_to_json_value(o: &Option<Properties>) -> (r: Option<JsonValue>)
        ensures
            r.deep_view() == (match o.deep_view() {
                Some(x) => Some(Json::Array(PropertyView::seq_json(x))),
                None => None,
            }),
    {
        match o {
            Some(x) => Some(x.to_json_value()),
            None => None,
        }
    }
}

} // verus!
