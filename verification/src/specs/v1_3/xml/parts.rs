//! The XML elements of the small parts of a document.

use crate::specs::v1_3::adapter::opt_string_clone;
use crate::specs::v1_3::xml::{
    make_optional_text_elements, optional_bool_text, optional_decimal, reference_elements,
};
use crate::specs::v1_3::{
    AttachedText, AttachedTextView, BomReference, Commit, CommitView, Composition,
    CompositionView, DataClassification, DataClassificationView, Diff, DiffView,
    ExternalReference, ExternalReferenceView, HashView, IdentifiableAction,
    IdentifiableActionView, Issue, IssueView, OrganizationalContact, OrganizationalContactView,
    OrganizationalEntity, OrganizationalEntityView, Patch, PatchView, Properties, Property,
    PropertyView, Source, SourceView, Swid, SwidView, Tool, ToolView,
};
use crate::text::decimal;
use crate::xml::{
    bool_text, make_optional_text_element, make_optional_wrapper, make_text_element,
    optional_text_element, optional_wrapper, text_element, text_elements, Element, ElementBuilder,
    ElementView,
};
use vstd::prelude::*;

verus! {

impl AttachedTextView {
    /// The XML element of the given name that schema 1.3 writes for an
    /// attached text: its text, and its other parts as attributes.
    pub open spec fn xml(self, name: Seq<char>) -> ElementView {
        ElementView::named(name)
            .with_optional_attribute("content-type"@, self.content_type)
            .with_optional_attribute("encoding"@, self.encoding)
            .with_text(self.content)
    }
}

impl AttachedText {
    /// Builds the XML element of the given name for this attached text.
    pub fn to_xml_element(&self, name: &str) -> (r: Element)
        ensures
            r.deep_view() == self.deep_view().xml(name@),
    {
        let element = ElementBuilder::new(name);
        let element = element.with_optional_attribute(
            "content-type",
            opt_string_clone(&self.content_type),
        );
        let element = element.with_optional_attribute("encoding", opt_string_clone(&self.encoding));
        element.build_with_text(self.content.clone())
    }

    /// The XML element for one that may be absent.
    pub fn opt_to_xml_element(o: &Option<AttachedText>, name: &str) -> (r: Option<Element>)
        ensures
            r.deep_view() == (match o.deep_view() {
                Some(x) => Some(x.xml(name@)),
                None => None,
            }),
    {
        match o {
            Some(x) => Some(x.to_xml_element(name)),
            None => None,
        }
    }
}

impl HashView {
    /// The XML element of the given name that schema 1.3 writes for a
    /// hash: its text, and its other parts as attributes.
    pub open spec fn xml(self, name: Seq<char>) -> ElementView {
        ElementView::named(name)
            .with_attribute("alg"@, self.alg)
            .with_text(self.content)
    }

    /// The XML elements of a sequence of them, one for one.
    pub open spec fn seq_xml(s: Seq<HashView>, name: Seq<char>) -> Seq<ElementView> {
        Seq::new(s.len(), |i: int| s[i].xml(name))
    }
}

impl crate::specs::v1_3::Hash {
    /// Builds the XML element of the given name for this hash.
    pub fn to_xml_element(&self, name: &str) -> (r: Element)
        ensures
            r.deep_view() == self.deep_view().xml(name@),
    {
        let element = ElementBuilder::new(name);
        let element = element.with_attribute("alg", self.alg.clone());
        element.build_with_text(self.content.0.clone())
    }

    /// The XML elements for a list of them.
    pub fn vec_to_xml_elements(v: &Vec<crate::specs::v1_3::Hash>, name: &str) -> (r: Vec<Element>)
        ensures
            r.deep_view() == HashView::seq_xml(v.deep_view(), name@),
    {
        let mut out: Vec<Element> = Vec::new();
        let mut i: usize = 0;
        while i < v.len()
            invariant
                i <= v.len(),
                out.len() == i,
                forall|j: int|
                    0 <= j < i ==> (#[trigger] out[j]).deep_view() == v[j].deep_view().xml(name@),
            decreases v.len() - i,
        {
            out.push(v[i].to_xml_element(name));
            i += 1;
        }
        proof {
            assert(out.deep_view() =~= HashView::seq_xml(v.deep_view(), name@));
        }
        out
    }

    /// The XML elements for a list of them that may be absent.
    pub fn opt_vec_to_xml_elements(o: &Option<Vec<crate::specs::v1_3::Hash>>, name: &str) -> (r: Option<
        Vec<Element>,
    >)
        ensures
            r.deep_view() == (match o.deep_view() {
                Some(x) => Some(HashView::seq_xml(x, name@)),
                None => None,
            }),
    {
        match o {
            Some(x) => Some(crate::specs::v1_3::Hash::vec_to_xml_elements(x, name)),
            None => None,
        }
    }
}

impl OrganizationalContactView {
    /// The XML element of the given name that schema 1.3 writes for an
    /// organizational contact: its parts in the order of the schema, and nothing for a part
    /// that is absent.
    pub open spec fn xml(self, name: Seq<char>) -> ElementView {
        ElementView::named(name)
            .with_optional_child(optional_text_element("name"@, self.name))
            .with_optional_child(optional_text_element("email"@, self.email))
            .with_optional_child(optional_text_element("phone"@, self.phone))
    }

    /// The XML elements of a sequence of them, one for one.
    pub open spec fn seq_xml(s: Seq<OrganizationalContactView>, name: Seq<char>) -> Seq<ElementView>
    {
        Seq::new(s.len(), |i: int| s[i].xml(name))
    }
}

impl OrganizationalContact {
    /// Builds the XML element of the given name for this organizational contact.
    pub fn to_xml_element(&self, name: &str) -> (r: Element)
        ensures
            r.deep_view() == self.deep_view().xml(name@),
    {
        let element = ElementBuilder::new(name);
        let element = element.with_optional_child(make_optional_text_element("name", &self.name));
        let element = element.with_optional_child(make_optional_text_element("email", &self.email));
        let element = element.with_optional_child(make_optional_text_element("phone", &self.phone));
        element.build()
    }

    /// The XML elements for a list of them.
    pub fn vec_to_xml_elements(v: &Vec<OrganizationalContact>, name: &str) -> (r: Vec<Element>)
        ensures
            r.deep_view() == OrganizationalContactView::seq_xml(v.deep_view(), name@),
    {
        let mut out: Vec<Element> = Vec::new();
        let mut i: usize = 0;
        while i < v.len()
            invariant
                i <= v.len(),
                out.len() == i,
                forall|j: int|
                    0 <= j < i ==> (#[trigger] out[j]).deep_view() == v[j].deep_view().xml(name@),
            decreases v.len() - i,
        {
            out.push(v[i].to_xml_element(name));
            i += 1;
        }
        proof {
            assert(out.deep_view() =~= OrganizationalContactView::seq_xml(v.deep_view(), name@));
        }
        out
    }

    /// The XML elements for a list of them that may be absent.
    pub fn opt_vec_to_xml_elements(o: &Option<Vec<OrganizationalContact>>, name: &str) -> (r: Option<
        Vec<Element>,
    >)
        ensures
            r.deep_view() == (match o.deep_view() {
                Some(x) => Some(OrganizationalContactView::seq_xml(x, name@)),
                None => None,
            }),
    {
        match o {
            Some(x) => Some(OrganizationalContact::vec_to_xml_elements(x, name)),
            None => None,
        }
    }
}

impl OrganizationalEntityView {
    /// The XML element of the given name that schema 1.3 writes for an
    /// organizational entity: its parts in the order of the schema, and nothing for a part
    /// that is absent.
    pub open spec fn xml(self, name: Seq<char>) -> ElementView {
        ElementView::named(name)
            .with_optional_child(optional_text_element("name"@, self.name))
            .with_optional_children(
                match self.url {
                    Some(x) => Some(text_elements("url"@, x)),
                    None => None,
                },
            )
            .with_optional_children(
                match self.contact {
                    Some(x) => Some(OrganizationalContactView::seq_xml(x, "contact"@)),
                    None => None,
                },
            )
    }
}

impl OrganizationalEntity {
    /// Builds the XML element of the given name for this organizational entity.
    pub fn to_xml_element(&self, name: &str) -> (r: Element)
        ensures
            r.deep_view() == self.deep_view().xml(name@),
    {
        let element = ElementBuilder::new(name);
        let element = element.with_optional_child(make_optional_text_element("name", &self.name));
        let element = element.with_optional_children(make_optional_text_elements("url", &self.url));
        let element = element.with_optional_children(
            OrganizationalContact::opt_vec_to_xml_elements(&self.contact, "contact"),
        );
        element.build()
    }

    /// The XML element for one that may be absent.
    pub fn opt_to_xml_element(o: &Option<OrganizationalEntity>, name: &str) -> (r: Option<Element>)
        ensures
            r.deep_view() == (match o.deep_view() {
                Some(x) => Some(x.xml(name@)),
                None => None,
            }),
    {
        match o {
            Some(x) => Some(x.to_xml_element(name)),
            None => None,
        }
    }
}

impl IdentifiableActionView {
    /// The XML element of the given name that schema 1.3 writes for an
    /// identifiable action: its parts in the order of the schema, and nothing for a part
    /// that is absent.
    pub open spec fn xml(self, name: Seq<char>) -> ElementView {
        ElementView::named(name)
            .with_optional_child(optional_text_element("timestamp"@, self.timestamp))
            .with_optional_child(optional_text_element("name"@, self.name))
            .with_optional_child(optional_text_element("email"@, self.email))
    }
}

impl IdentifiableAction {
    /// Builds the XML element of the given name for this identifiable action.
    pub fn to_xml_element(&self, name: &str) -> (r: Element)
        ensures
            r.deep_view() == self.deep_view().xml(name@),
    {
        let element = ElementBuilder::new(name);
        let element = element.with_optional_child(
            make_optional_text_element("timestamp", &self.timestamp),
        );
        let element = element.with_optional_child(make_optional_text_element("name", &self.name));
        let element = element.with_optional_child(make_optional_text_element("email", &self.email));
        element.build()
    }

    /// The XML element for one that may be absent.
    pub fn opt_to_xml_element(o: &Option<IdentifiableAction>, name: &str) -> (r: Option<Element>)
        ensures
            r.deep_view() == (match o.deep_view() {
                Some(x) => Some(x.xml(name@)),
                None => None,
            }),
    {
        match o {
            Some(x) => Some(x.to_xml_element(name)),
            None => None,
        }
    }
}

impl CommitView {
    /// The XML element of the given name that schema 1.3 writes for a
    /// commit: its parts in the order of the schema, and nothing for a part
    /// that is absent.
    pub open spec fn xml(self, name: Seq<char>) -> ElementView {
        ElementView::named(name)
            .with_optional_child(optional_text_element("uid"@, self.uid))
            .with_optional_child(optional_text_element("url"@, self.url))
            .with_optional_child(
                match self.author {
                    Some(x) => Some(x.xml("author"@)),
                    None => None,
                },
            )
            .with_optional_child(
                match self.committer {
                    Some(x) => Some(x.xml("committer"@)),
                    None => None,
                },
            )
            .with_optional_child(optional_text_element("message"@, self.message))
    }

    /// The XML elements of a sequence of them, one for one.
    pub open spec fn seq_xml(s: Seq<CommitView>, name: Seq<char>) -> Seq<ElementView> {
        Seq::new(s.len(), |i: int| s[i].xml(name))
    }
}

impl Commit {
    /// Builds the XML element of the given name for this commit.
    pub fn to_xml_element(&self, name: &str) -> (r: Element)
        ensures
            r.deep_view() == self.deep_view().xml(name@),
    {
        let element = ElementBuilder::new(name);
        let element = element.with_optional_child(make_optional_text_element("uid", &self.uid));
        let element = element.with_optional_child(make_optional_text_element("url", &self.url));
        let element = element.with_optional_child(
            IdentifiableAction::opt_to_xml_element(&self.author, "author"),
        );
        let element = element.with_optional_child(
            IdentifiableAction::opt_to_xml_element(&self.committer, "committer"),
        );
        let element = element.with_optional_child(
            make_optional_text_element("message", &self.message),
        );
        element.build()
    }

    /// The XML elements for a list of them.
    pub fn vec_to_xml_elements(v: &Vec<Commit>, name: &str) -> (r: Vec<Element>)
        ensures
            r.deep_view() == CommitView::seq_xml(v.deep_view(), name@),
    {
        let mut out: Vec<Element> = Vec::new();
        let mut i: usize = 0;
        while i < v.len()
            invariant
                i <= v.len(),
                out.len() == i,
                forall|j: int|
                    0 <= j < i ==> (#[trigger] out[j]).deep_view() == v[j].deep_view().xml(name@),
            decreases v.len() - i,
        {
            out.push(v[i].to_xml_element(name));
            i += 1;
        }
        proof {
            assert(out.deep_view() =~= CommitView::seq_xml(v.deep_view(), name@));
        }
        out
    }

    /// The XML elements for a list of them that may be absent.
    pub fn opt_vec_to_xml_elements(o: &Option<Vec<Commit>>, name: &str) -> (r: Option<
        Vec<Element>,
    >)
        ensures
            r.deep_view() == (match o.deep_view() {
                Some(x) => Some(CommitView::seq_xml(x, name@)),
                None => None,
            }),
    {
        match o {
            Some(x) => Some(Commit::vec_to_xml_elements(x, name)),
            None => None,
        }
    }
}

impl CompositionView {
    /// The XML element of the given name that schema 1.3 writes for a
    /// composition: its parts in the order of the schema, and nothing for a part
    /// that is absent.
    pub open spec fn xml(self, name: Seq<char>) -> ElementView {
        ElementView::named(name)
            .with_child(text_element("aggregate"@, self.aggregate))
            .with_optional_child(
                optional_wrapper(
                    "assemblies"@,
                    match self.assemblies {
                        Some(x) => Some(reference_elements("assembly"@, "ref"@, x)),
                        None => None,
                    },
                ),
            )
            .with_optional_child(
                optional_wrapper(
                    "dependencies"@,
                    match self.dependencies {
                        Some(x) => Some(reference_elements("dependency"@, "ref"@, x)),
                        None => None,
                    },
                ),
            )
    }

    /// The XML elements of a sequence of them, one for one.
    pub open spec fn seq_xml(s: Seq<CompositionView>, name: Seq<char>) -> Seq<ElementView> {
        Seq::new(s.len(), |i: int| s[i].xml(name))
    }
}

impl Composition {
    /// Builds the XML element of the given name for this composition.
    pub fn to_xml_element(&self, name: &str) -> (r: Element)
        ensures
            r.deep_view() == self.deep_view().xml(name@),
    {
        let element = ElementBuilder::new(name);
        let element = element.with_child(make_text_element("aggregate", self.aggregate.as_str()));
        let element = element.with_optional_child(
            make_optional_wrapper(
                "assemblies",
                BomReference::opt_vec_to_xml_elements(&self.assemblies, "assembly", "ref"),
            ),
        );
        let element = element.with_optional_child(
            make_optional_wrapper(
                "dependencies",
                BomReference::opt_vec_to_xml_elements(&self.dependencies, "dependency", "ref"),
            ),
        );
        element.build()
    }

    /// The XML elements for a list of them.
    pub fn vec_to_xml_elements(v: &Vec<Composition>, name: &str) -> (r: Vec<Element>)
        ensures
            r.deep_view() == CompositionView::seq_xml(v.deep_view(), name@),
    {
        let mut out: Vec<Element> = Vec::new();
        let mut i: usize = 0;
        while i < v.len()
            invariant
                i <= v.len(),
                out.len() == i,
                forall|j: int|
                    0 <= j < i ==> (#[trigger] out[j]).deep_view() == v[j].deep_view().xml(name@),
            decreases v.len() - i,
        {
            out.push(v[i].to_xml_element(name));
            i += 1;
        }
        proof {
            assert(out.deep_view() =~= CompositionView::seq_xml(v.deep_view(), name@));
        }
        out
    }

    /// The XML elements for a list of them that may be absent.
    pub fn opt_vec_to_xml_elements(o: &Option<Vec<Composition>>, name: &str) -> (r: Option<
        Vec<Element>,
    >)
        ensures
            r.deep_view() == (match o.deep_view() {
                Some(x) => Some(CompositionView::seq_xml(x, name@)),
                None => None,
            }),
    {
        match o {
            Some(x) => Some(Composition::vec_to_xml_elements(x, name)),
            None => None,
        }
    }
}

impl DataClassificationView {
    /// The XML element of the given name that schema 1.3 writes for a
    /// data classification: its text, and its other parts as attributes.
    pub open spec fn xml(self, name: Seq<char>) -> ElementView {
        ElementView::named(name)
            .with_attribute("flow"@, self.flow)
            .with_text(self.classification)
    }

    /// The XML elements of a sequence of them, one for one.
    pub open spec fn seq_xml(s: Seq<DataClassificationView>, name: Seq<char>) -> Seq<ElementView> {
        Seq::new(s.len(), |i: int| s[i].xml(name))
    }
}

impl DataClassification {
    /// Builds the XML element of the given name for this data classification.
    pub fn to_xml_element(&self, name: &str) -> (r: Element)
        ensures
            r.deep_view() == self.deep_view().xml(name@),
    {
        let element = ElementBuilder::new(name);
        let element = element.with_attribute("flow", self.flow.clone());
        element.build_with_text(self.classification.clone())
    }

    /// The XML elements for a list of them.
    pub fn vec_to_xml_elements(v: &Vec<DataClassification>, name: &str) -> (r: Vec<Element>)
        ensures
            r.deep_view() == DataClassificationView::seq_xml(v.deep_view(), name@),
    {
        let mut out: Vec<Element> = Vec::new();
        let mut i: usize = 0;
        while i < v.len()
            invariant
                i <= v.len(),
                out.len() == i,
                forall|j: int|
                    0 <= j < i ==> (#[trigger] out[j]).deep_view() == v[j].deep_view().xml(name@),
            decreases v.len() - i,
        {
            out.push(v[i].to_xml_element(name));
            i += 1;
        }
        proof {
            assert(out.deep_view() =~= DataClassificationView::seq_xml(v.deep_view(), name@));
        }
        out
    }

    /// The XML elements for a list of them that may be absent.
    pub fn opt_vec_to_xml_elements(o: &Option<Vec<DataClassification>>, name: &str) -> (r: Option<
        Vec<Element>,
    >)
        ensures
            r.deep_view() == (match o.deep_view() {
                Some(x) => Some(DataClassificationView::seq_xml(x, name@)),
                None => None,
            }),
    {
        match o {
            Some(x) => Some(DataClassification::vec_to_xml_elements(x, name)),
            None => None,
        }
    }
}

impl DiffView {
    /// The XML element of the given name that schema 1.3 writes for a
    /// diff: its parts in the order of the schema, and nothing for a part
    /// that is absent.
    pub open spec fn xml(self, name: Seq<char>) -> ElementView {
        ElementView::named(name)
            .with_optional_child(
                match self.text {
                    Some(x) => Some(x.xml("text"@)),
                    None => None,
                },
            )
            .with_optional_child(optional_text_element("url"@, self.url))
    }
}

impl Diff {
    /// Builds the XML element of the given name for this diff.
    pub fn to_xml_element(&self, name: &str) -> (r: Element)
        ensures
            r.deep_view() == self.deep_view().xml(name@),
    {
        let element = ElementBuilder::new(name);
        let element = element.with_optional_child(
            AttachedText::opt_to_xml_element(&self.text, "text"),
        );
        let element = element.with_optional_child(make_optional_text_element("url", &self.url));
        element.build()
    }
}

impl ExternalReferenceView {
    /// The XML element of the given name that schema 1.3 writes for an
    /// external reference: its parts in the order of the schema, and nothing for a part
    /// that is absent.
    pub open spec fn xml(self, name: Seq<char>) -> ElementView {
        ElementView::named(name)
            .with_attribute("type"@, self.external_reference_type)
            .with_child(text_element("url"@, self.url))
            .with_optional_child(optional_text_element("comment"@, self.comment))
            .with_optional_child(
                optional_wrapper(
                    "hashes"@,
                    match self.hashes {
                        Some(x) => Some(HashView::seq_xml(x, "hash"@)),
                        None => None,
                    },
                ),
            )
    }

    /// The XML elements of a sequence of them, one for one.
    pub open spec fn seq_xml(s: Seq<ExternalReferenceView>, name: Seq<char>) -> Seq<ElementView> {
        Seq::new(s.len(), |i: int| s[i].xml(name))
    }
}

impl ExternalReference {
    /// Builds the XML element of the given name for this external reference.
    pub fn to_xml_element(&self, name: &str) -> (r: Element)
        ensures
            r.deep_view() == self.deep_view().xml(name@),
    {
        let element = ElementBuilder::new(name);
        let element = element.with_attribute("type", self.external_reference_type.clone());
        let element = element.with_child(make_text_element("url", self.url.as_str()));
        let element = element.with_optional_child(
            make_optional_text_element("comment", &self.comment),
        );
        let element = element.with_optional_child(
            make_optional_wrapper(
                "hashes",
                crate::specs::v1_3::Hash::opt_vec_to_xml_elements(&self.hashes, "hash"),
            ),
        );
        element.build()
    }

    /// The XML elements for a list of them.
    pub fn vec_to_xml_elements(v: &Vec<ExternalReference>, name: &str) -> (r: Vec<Element>)
        ensures
            r.deep_view() == ExternalReferenceView::seq_xml(v.deep_view(), name@),
    {
        let mut out: Vec<Element> = Vec::new();
        let mut i: usize = 0;
        while i < v.len()
            invariant
                i <= v.len(),
                out.len() == i,
                forall|j: int|
                    0 <= j < i ==> (#[trigger] out[j]).deep_view() == v[j].deep_view().xml(name@),
            decreases v.len() - i,
        {
            out.push(v[i].to_xml_element(name));
            i += 1;
        }
        proof {
            assert(out.deep_view() =~= ExternalReferenceView::seq_xml(v.deep_view(), name@));
        }
        out
    }

    /// The XML elements for a list of them that may be absent.
    pub fn opt_vec_to_xml_elements(o: &Option<Vec<ExternalReference>>, name: &str) -> (r: Option<
        Vec<Element>,
    >)
        ensures
            r.deep_view() == (match o.deep_view() {
                Some(x) => Some(ExternalReferenceView::seq_xml(x, name@)),
                None => None,
            }),
    {
        match o {
            Some(x) => Some(ExternalReference::vec_to_xml_elements(x, name)),
            None => None,
        }
    }
}

impl SourceView {
    /// The XML element of the given name that schema 1.3 writes for a
    /// source: its parts in the order of the schema, and nothing for a part
    /// that is absent.
    pub open spec fn xml(self, name: Seq<char>) -> ElementView {
        ElementView::named(name)
            .with_optional_child(optional_text_element("name"@, self.name))
            .with_optional_child(optional_text_element("url"@, self.url))
    }
}

impl Source {
    /// Builds the XML element of the given name for this source.
    pub fn to_xml_element(&self, name: &str) -> (r: Element)
        ensures
            r.deep_view() == self.deep_view().xml(name@),
    {
        let element = ElementBuilder::new(name);
        let element = element.with_optional_child(make_optional_text_element("name", &self.name));
        let element = element.with_optional_child(make_optional_text_element("url", &self.url));
        element.build()
    }

    /// The XML element for one that may be absent.
    pub fn opt_to_xml_element(o: &Option<Source>, name: &str) -> (r: Option<Element>)
        ensures
            r.deep_view() == (match o.deep_view() {
                Some(x) => Some(x.xml(name@)),
                None => None,
            }),
    {
        match o {
            Some(x) => Some(x.to_xml_element(name)),
            None => None,
        }
    }
}

impl IssueView {
    /// The XML element of the given name that schema 1.3 writes for an
    /// issue: its parts in the order of the schema, and nothing for a part
    /// that is absent.
    pub open spec fn xml(self, name: Seq<char>) -> ElementView {
        ElementView::named(name)
            .with_attribute("type"@, self.issue_type)
            .with_optional_child(optional_text_element("id"@, self.id))
            .with_optional_child(optional_text_element("name"@, self.name))
            .with_optional_child(optional_text_element("description"@, self.description))
            .with_optional_child(
                match self.source {
                    Some(x) => Some(x.xml("source"@)),
                    None => None,
                },
            )
            .with_optional_child(
                optional_wrapper(
                    "references"@,
                    match self.references {
                        Some(x) => Some(text_elements("url"@, x)),
                        None => None,
                    },
                ),
            )
    }

    /// The XML elements of a sequence of them, one for one.
    pub open spec fn seq_xml(s: Seq<IssueView>, name: Seq<char>) -> Seq<ElementView> {
        Seq::new(s.len(), |i: int| s[i].xml(name))
    }
}

impl Issue {
    /// Builds the XML element of the given name for this issue.
    pub fn to_xml_element(&self, name: &str) -> (r: Element)
        ensures
            r.deep_view() == self.deep_view().xml(name@),
    {
        let element = ElementBuilder::new(name);
        let element = element.with_attribute("type", self.issue_type.clone());
        let element = element.with_optional_child(make_optional_text_element("id", &self.id));
        let element = element.with_optional_child(make_optional_text_element("name", &self.name));
        let element = element.with_optional_child(
            make_optional_text_element("description", &self.description),
        );
        let element = element.with_optional_child(
            Source::opt_to_xml_element(&self.source, "source"),
        );
        let element = element.with_optional_child(
            make_optional_wrapper(
                "references",
                make_optional_text_elements("url", &self.references),
            ),
        );
        element.build()
    }

    /// The XML elements for a list of them.
    pub fn vec_to_xml_elements(v: &Vec<Issue>, name: &str) -> (r: Vec<Element>)
        ensures
            r.deep_view() == IssueView::seq_xml(v.deep_view(), name@),
    {
        let mut out: Vec<Element> = Vec::new();
        let mut i: usize = 0;
        while i < v.len()
            invariant
                i <= v.len(),
                out.len() == i,
                forall|j: int|
                    0 <= j < i ==> (#[trigger] out[j]).deep_view() == v[j].deep_view().xml(name@),
            decreases v.len() - i,
        {
            out.push(v[i].to_xml_element(name));
            i += 1;
        }
        proof {
            assert(out.deep_view() =~= IssueView::seq_xml(v.deep_view(), name@));
        }
        out
    }

    /// The XML elements for a list of them that may be absent.
    pub fn opt_vec_to_xml_elements(o: &Option<Vec<Issue>>, name: &str) -> (r: Option<
        Vec<Element>,
    >)
        ensures
            r.deep_view() == (match o.deep_view() {
                Some(x) => Some(IssueView::seq_xml(x, name@)),
                None => None,
            }),
    {
        match o {
            Some(x) => Some(Issue::vec_to_xml_elements(x, name)),
            None => None,
        }
    }
}

impl PatchView {
    /// The XML element of the given name that schema 1.3 writes for a
    /// patch: its parts in the order of the schema, and nothing for a part
    /// that is absent.
    pub open spec fn xml(self, name: Seq<char>) -> ElementView {
        ElementView::named(name)
            .with_attribute("type"@, self.patch_type)
            .with_child(self.diff.xml("diff"@))
            .with_optional_child(
                optional_wrapper(
                    "resolves"@,
                    match self.resolves {
                        Some(x) => Some(IssueView::seq_xml(x, "issue"@)),
                        None => None,
                    },
                ),
            )
    }

    /// The XML elements of a sequence of them, one for one.
    pub open spec fn seq_xml(s: Seq<PatchView>, name: Seq<char>) -> Seq<ElementView> {
        Seq::new(s.len(), |i: int| s[i].xml(name))
    }
}

impl Patch {
    /// Builds the XML element of the given name for this patch.
    pub fn to_xml_element(&self, name: &str) -> (r: Element)
        ensures
            r.deep_view() == self.deep_view().xml(name@),
    {
        let element = ElementBuilder::new(name);
        let element = element.with_attribute("type", self.patch_type.clone());
        let element = element.with_child(self.diff.to_xml_element("diff"));
        let element = element.with_optional_child(
            make_optional_wrapper(
                "resolves",
                Issue::opt_vec_to_xml_elements(&self.resolves, "issue"),
            ),
        );
        element.build()
    }

    /// The XML elements for a list of them.
    pub fn vec_to_xml_elements(v: &Vec<Patch>, name: &str) -> (r: Vec<Element>)
        ensures
            r.deep_view() == PatchView::seq_xml(v.deep_view(), name@),
    {
        let mut out: Vec<Element> = Vec::new();
        let mut i: usize = 0;
        while i < v.len()
            invariant
                i <= v.len(),
                out.len() == i,
                forall|j: int|
                    0 <= j < i ==> (#[trigger] out[j]).deep_view() == v[j].deep_view().xml(name@),
            decreases v.len() - i,
        {
            out.push(v[i].to_xml_element(name));
            i += 1;
        }
        proof {
            assert(out.deep_view() =~= PatchView::seq_xml(v.deep_view(), name@));
        }
        out
    }

    /// The XML elements for a list of them that may be absent.
    pub fn opt_vec_to_xml_elements(o: &Option<Vec<Patch>>, name: &str) -> (r: Option<
        Vec<Element>,
    >)
        ensures
            r.deep_view() == (match o.deep_view() {
                Some(x) => Some(PatchView::seq_xml(x, name@)),
                None => None,
            }),
    {
        match o {
            Some(x) => Some(Patch::vec_to_xml_elements(x, name)),
            None => None,
        }
    }
}

impl PropertyView {
    /// The XML element of the given name that schema 1.3 writes for a
    /// property: its text, and its other parts as attributes.
    pub open spec fn xml(self, name: Seq<char>) -> ElementView {
        ElementView::named(name)
            .with_attribute("name"@, self.name)
            .with_text(self.value)
    }

    /// The XML elements of a sequence of them, one for one.
    pub open spec fn seq_xml(s: Seq<PropertyView>, name: Seq<char>) -> Seq<ElementView> {
        Seq::new(s.len(), |i: int| s[i].xml(name))
    }
}

impl Property {
    /// Builds the XML element of the given name for this property.
    pub fn to_xml_element(&self, name: &str) -> (r: Element)
        ensures
            r.deep_view() == self.deep_view().xml(name@),
    {
        let element = ElementBuilder::new(name);
        let element = element.with_attribute("name", self.name.clone());
        element.build_with_text(self.value.clone())
    }

    /// The XML elements for a list of them.
    pub fn vec_to_xml_elements(v: &Vec<Property>, name: &str) -> (r: Vec<Element>)
        ensures
            r.deep_view() == PropertyView::seq_xml(v.deep_view(), name@),
    {
        let mut out: Vec<Element> = Vec::new();
        let mut i: usize = 0;
        while i < v.len()
            invariant
                i <= v.len(),
                out.len() == i,
                forall|j: int|
                    0 <= j < i ==> (#[trigger] out[j]).deep_view() == v[j].deep_view().xml(name@),
            decreases v.len() - i,
        {
            out.push(v[i].to_xml_element(name));
            i += 1;
        }
        proof {
            assert(out.deep_view() =~= PropertyView::seq_xml(v.deep_view(), name@));
        }
        out
    }
}

impl SwidView {
    /// The XML element of the given name that schema 1.3 writes for a
    /// swid: its parts in the order of the schema, and nothing for a part
    /// that is absent.
    pub open spec fn xml(self, name: Seq<char>) -> ElementView {
        ElementView::named(name)
            .with_attribute("tagId"@, self.tag_id)
            .with_attribute("name"@, self.name)
            .with_optional_attribute("version"@, self.version)
            .with_optional_attribute(
                "tagVersion"@,
                match self.tag_version {
                    Some(x) => Some(decimal(x as nat)),
                    None => None,
                },
            )
            .with_optional_attribute(
                "patch"@,
                match self.patch {
                    Some(x) => Some(bool_text(x)),
                    None => None,
                },
            )
            .with_optional_child(
                match self.text {
                    Some(x) => Some(x.xml("text"@)),
                    None => None,
                },
            )
            .with_optional_child(optional_text_element("url"@, self.url))
    }
}

impl Swid {
    /// Builds the XML element of the given name for this swid.
    pub fn to_xml_element(&self, name: &str) -> (r: Element)
        ensures
            r.deep_view() == self.deep_view().xml(name@),
    {
        let element = ElementBuilder::new(name);
        let element = element.with_attribute("tagId", self.tag_id.clone());
        let element = element.with_attribute("name", self.name.clone());
        let element = element.with_optional_attribute("version", opt_string_clone(&self.version));
        let element = element.with_optional_attribute(
            "tagVersion",
            optional_decimal(self.tag_version),
        );
        let element = element.with_optional_attribute("patch", optional_bool_text(self.patch));
        let element = element.with_optional_child(
            AttachedText::opt_to_xml_element(&self.text, "text"),
        );
        let element = element.with_optional_child(make_optional_text_element("url", &self.url));
        element.build()
    }

    /// The XML element for one that may be absent.
    pub fn opt_to_xml_element(o: &Option<Swid>, name: &str) -> (r: Option<Element>)
        ensures
            r.deep_view() == (match o.deep_view() {
                Some(x) => Some(x.xml(name@)),
                None => None,
            }),
    {
        match o {
            Some(x) => Some(x.to_xml_element(name)),
            None => None,
        }
    }
}

impl ToolView {
    /// The XML element of the given name that schema 1.3 writes for a
    /// tool: its parts in the order of the schema, and nothing for a part
    /// that is absent.
    pub open spec fn xml(self, name: Seq<char>) -> ElementView {
        ElementView::named(name)
            .with_optional_child(optional_text_element("vendor"@, self.vendor))
            .with_optional_child(optional_text_element("name"@, self.name))
            .with_optional_child(optional_text_element("version"@, self.version))
            .with_optional_child(
                optional_wrapper(
                    "hashes"@,
                    match self.hashes {
                        Some(x) => Some(HashView::seq_xml(x, "hash"@)),
                        None => None,
                    },
                ),
            )
    }

    /// The XML elements of a sequence of them, one for one.
    pub open spec fn seq_xml(s: Seq<ToolView>, name: Seq<char>) -> Seq<ElementView> {
        Seq::new(s.len(), |i: int| s[i].xml(name))
    }
}

impl Tool {
    /// Builds the XML element of the given name for this tool.
    pub fn to_xml_element(&self, name: &str) -> (r: Element)
        ensures
            r.deep_view() == self.deep_view().xml(name@),
    {
        let element = ElementBuilder::new(name);
        let element = element.with_optional_child(
            make_optional_text_element("vendor", &self.vendor),
        );
        let element = element.with_optional_child(make_optional_text_element("name", &self.name));
        let element = element.with_optional_child(
            make_optional_text_element("version", &self.version),
        );
        let element = element.with_optional_child(
            make_optional_wrapper(
                "hashes",
                crate::specs::v1_3::Hash::opt_vec_to_xml_elements(&self.hashes, "hash"),
            ),
        );
        element.build()
    }

    /// The XML elements for a list of them.
    pub fn vec_to_xml_elements(v: &Vec<Tool>, name: &str) -> (r: Vec<Element>)
        ensures
            r.deep_view() == ToolView::seq_xml(v.deep_view(), name@),
    {
        let mut out: Vec<Element> = Vec::new();
        let mut i: usize = 0;
        while i < v.len()
            invariant
                i <= v.len(),
                out.len() == i,
                forall|j: int|
                    0 <= j < i ==> (#[trigger] out[j]).deep_view() == v[j].deep_view().xml(name@),
            decreases v.len() - i,
        {
            out.push(v[i].to_xml_element(name));
            i += 1;
        }
        proof {
            assert(out.deep_view() =~= ToolView::seq_xml(v.deep_view(), name@));
        }
        out
    }

    /// The XML elements for a list of them that may be absent.
    pub fn opt_vec_to_xml_elements(o: &Option<Vec<Tool>>, name: &str) -> (r: Option<
        Vec<Element>,
    >)
        ensures
            r.deep_view() == (match o.deep_view() {
                Some(x) => Some(ToolView::seq_xml(x, name@)),
                None => None,
            }),
    {
        match o {
            Some(x) => Some(Tool::vec_to_xml_elements(x, name)),
            None => None,
        }
    }
}

impl Properties {
    /// The `property` elements for a list of properties that may be absent.
    pub fn opt_to_xml_elements(o: &Option<Properties>) -> (r: Option<Vec<Element>>)
        ensures
            r.deep_view() == (match o.deep_view() {
                Some(x) => Some(PropertyView::seq_xml(x, "property"@)),
                None => None,
            }),
    {
        match o {
            Some(x) => Some(Property::vec_to_xml_elements(&x.0, "property")),
            None => None,
        }
    }
}

} // verus!
