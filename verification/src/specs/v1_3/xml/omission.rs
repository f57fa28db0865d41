//! The omission law of the XML writer: a part that is absent has no
//! attribute and no element in what is written for it, and a part that is
//! there has its own.

use crate::models;
use crate::specs::v1_3::xml::{copyright_elements, lemma_copyright_elements_names};
use crate::specs::v1_3::{
    AttachedTextView, Bom, BomView, CommitView, ComponentEvidenceView, ComponentView,
    CompositionView, DataClassificationView, DependencyView, DiffView, ExternalReferenceView,
    HashView, IdentifiableActionView, IssueView, LicenseView, MetadataView,
    OrganizationalContactView, OrganizationalEntityView, PatchView, PedigreeView, PropertyView,
    ServiceView, SourceView, SwidView, ToolView,
};
use crate::text::decimal;
use crate::xml::{
    has_attribute, has_attribute_value, has_child, lemma_attributes_of_element,
    lemma_children_after_lists, lemma_children_of_element, lemma_name_of_element,
    lemma_text_elements_names, text_elements, ElementView,
};
use vstd::prelude::*;

verus! {

impl AttachedTextView {
    /// The element has the name that was asked for.
    pub proof fn lemma_xml_name(self, name: Seq<char>)
        ensures
            self.xml(name).name == name,
    {
        lemma_name_of_element();
    }

    /// The attributes of the XML element of an attached text: those of the parts that
    /// are always there, and that of an optional part exactly where the part
    /// is there.
    pub proof fn lemma_xml_attributes(self, name: Seq<char>)
        ensures
            has_attribute(self.xml(name), "content-type"@) <==> self.content_type is Some,
            has_attribute(self.xml(name), "encoding"@) <==> self.encoding is Some,
    {
        lemma_attributes_of_element();
        reveal_strlit("content-type");
        reveal_strlit("encoding");
        assert("content-type"@.len() == 12);
        assert("encoding"@.len() == 8);
    }

    /// The omission law for an attached text: a part of it that is absent has no
    /// attribute and no element in the XML element that schema 1.3 writes
    /// for it.
    pub proof fn lemma_xml_absent_parts_are_omitted(c: models::AttachedTextView, name: Seq<char>)
        ensures
            c.content_type is None ==> !has_attribute(
                AttachedTextView::from_canonical(c).xml(name),
                "content-type"@,
            ),
            c.encoding is None ==> !has_attribute(
                AttachedTextView::from_canonical(c).xml(name),
                "encoding"@,
            ),
    {
        AttachedTextView::from_canonical(c).lemma_xml_attributes(name);
    }
}

impl HashView {
    /// The element has the name that was asked for.
    pub proof fn lemma_xml_name(self, name: Seq<char>)
        ensures
            self.xml(name).name == name,
    {
        lemma_name_of_element();
    }

    /// Each element of a sequence of them has the name that was asked for.
    pub proof fn lemma_seq_xml_names(s: Seq<HashView>, name: Seq<char>)
        ensures
            forall|i: int|
                0 <= i < s.len() ==> (#[trigger] HashView::seq_xml(s, name)[i]).name == name,
    {
        assert forall|i: int| 0 <= i < s.len() implies (#[trigger] HashView::seq_xml(
            s,
            name,
        )[i]).name == name by {
            s[i].lemma_xml_name(name);
        }
    }

    /// The attributes of the XML element of a hash: those of the parts that
    /// are always there, and that of an optional part exactly where the part
    /// is there.
    pub proof fn lemma_xml_attributes(self, name: Seq<char>)
        ensures
            has_attribute(self.xml(name), "alg"@),
    {
        lemma_attributes_of_element();
        reveal_strlit("alg");
        assert("alg"@.len() == 3);
    }
}

impl OrganizationalContactView {
    /// The element has the name that was asked for.
    pub proof fn lemma_xml_name(self, name: Seq<char>)
        ensures
            self.xml(name).name == name,
    {
        lemma_name_of_element();
    }

    /// Each element of a sequence of them has the name that was asked for.
    pub proof fn lemma_seq_xml_names(s: Seq<OrganizationalContactView>, name: Seq<char>)
        ensures
            forall|i: int|
                0 <= i < s.len() ==> (#[trigger] OrganizationalContactView::seq_xml(s, name)[i]).name == name,
    {
        assert forall|i: int| 0 <= i < s.len() implies (#[trigger] OrganizationalContactView::seq_xml(
            s,
            name,
        )[i]).name == name by {
            s[i].lemma_xml_name(name);
        }
    }

    /// The elements that the XML element of an organizational contact holds: those of the
    /// parts that are always there, and that of an optional part exactly
    /// where the part is there.
    pub proof fn lemma_xml_children(self, name: Seq<char>)
        ensures
            has_child(self.xml(name), "name"@) <==> self.name is Some,
            has_child(self.xml(name), "email"@) <==> self.email is Some,
            has_child(self.xml(name), "phone"@) <==> self.phone is Some,
    {
        lemma_children_of_element();
        lemma_name_of_element();
        reveal_strlit("name");
        reveal_strlit("email");
        reveal_strlit("phone");
        assert("name"@.len() == 4);
        assert("email"@.len() == 5);
        assert("phone"@.len() == 5);
        assert("email"@[0] != "phone"@[0]);
    }

    /// The omission law for an organizational contact: a part of it that is absent has no
    /// attribute and no element in the XML element that schema 1.3 writes
    /// for it.
    pub proof fn lemma_xml_absent_parts_are_omitted(
        c: models::OrganizationalContactView,
        name: Seq<char>,
    )
        ensures
            c.name is None ==> !has_child(
                OrganizationalContactView::from_canonical(c).xml(name),
                "name"@,
            ),
            c.email is None ==> !has_child(
                OrganizationalContactView::from_canonical(c).xml(name),
                "email"@,
            ),
            c.phone is None ==> !has_child(
                OrganizationalContactView::from_canonical(c).xml(name),
                "phone"@,
            ),
    {
        OrganizationalContactView::from_canonical(c).lemma_xml_children(name);
    }
}

impl OrganizationalEntityView {
    /// The element has the name that was asked for.
    pub proof fn lemma_xml_name(self, name: Seq<char>)
        ensures
            self.xml(name).name == name,
    {
        lemma_name_of_element();
    }

    /// The elements that the XML element of an organizational entity holds: those of the
    /// parts that are always there, and that of an optional part exactly
    /// where the part is there.
    pub proof fn lemma_xml_children(self, name: Seq<char>)
        ensures
            has_child(self.xml(name), "name"@) <==> self.name is Some,
            has_child(self.xml(name), "url"@) <==> (self.url matches Some(x) && x.len() > 0),
            has_child(
                self.xml(name),
                "contact"@,
            ) <==> (self.contact matches Some(x) && x.len() > 0),
    {
        lemma_children_of_element();
        lemma_children_after_lists();
        lemma_name_of_element();
        if self.url is Some {
            lemma_text_elements_names("url"@, self.url->0);
            if self.url->0.len() > 0 {
                assert(text_elements("url"@, self.url->0)[0].name == "url"@);
            }
        }
        if self.contact is Some {
            OrganizationalContactView::lemma_seq_xml_names(self.contact->0, "contact"@);
            if self.contact->0.len() > 0 {
                assert(
                    OrganizationalContactView::seq_xml(self.contact->0, "contact"@)[0].name == "contact"@
                );
            }
        }
        reveal_strlit("name");
        reveal_strlit("url");
        reveal_strlit("contact");
        assert("name"@.len() == 4);
        assert("url"@.len() == 3);
        assert("contact"@.len() == 7);
    }

    /// The omission law for an organizational entity: a part of it that is absent has no
    /// attribute and no element in the XML element that schema 1.3 writes
    /// for it.
    pub proof fn lemma_xml_absent_parts_are_omitted(
        c: models::OrganizationalEntityView,
        name: Seq<char>,
    )
        ensures
            c.name is None ==> !has_child(
                OrganizationalEntityView::from_canonical(c).xml(name),
                "name"@,
            ),
            c.url is None ==> !has_child(
                OrganizationalEntityView::from_canonical(c).xml(name),
                "url"@,
            ),
            c.contact is None ==> !has_child(
                OrganizationalEntityView::from_canonical(c).xml(name),
                "contact"@,
            ),
    {
        OrganizationalEntityView::from_canonical(c).lemma_xml_children(name);
    }
}

impl IdentifiableActionView {
    /// The element has the name that was asked for.
    pub proof fn lemma_xml_name(self, name: Seq<char>)
        ensures
            self.xml(name).name == name,
    {
        lemma_name_of_element();
    }

    /// The elements that the XML element of an identifiable action holds: those of the
    /// parts that are always there, and that of an optional part exactly
    /// where the part is there.
    pub proof fn lemma_xml_children(self, name: Seq<char>)
        ensures
            has_child(self.xml(name), "timestamp"@) <==> self.timestamp is Some,
            has_child(self.xml(name), "name"@) <==> self.name is Some,
            has_child(self.xml(name), "email"@) <==> self.email is Some,
    {
        lemma_children_of_element();
        lemma_name_of_element();
        reveal_strlit("timestamp");
        reveal_strlit("name");
        reveal_strlit("email");
        assert("timestamp"@.len() == 9);
        assert("name"@.len() == 4);
        assert("email"@.len() == 5);
    }

    /// The omission law for an identifiable action: a part of it that is absent has no
    /// attribute and no element in the XML element that schema 1.3 writes
    /// for it.
    pub proof fn lemma_xml_absent_parts_are_omitted(
        c: models::IdentifiableActionView,
        name: Seq<char>,
    )
        ensures
            c.timestamp is None ==> !has_child(
                IdentifiableActionView::from_canonical(c).xml(name),
                "timestamp"@,
            ),
            c.name is None ==> !has_child(
                IdentifiableActionView::from_canonical(c).xml(name),
                "name"@,
            ),
            c.email is None ==> !has_child(
                IdentifiableActionView::from_canonical(c).xml(name),
                "email"@,
            ),
    {
        IdentifiableActionView::from_canonical(c).lemma_xml_children(name);
    }
}

impl CommitView {
    /// The element has the name that was asked for.
    pub proof fn lemma_xml_name(self, name: Seq<char>)
        ensures
            self.xml(name).name == name,
    {
        lemma_name_of_element();
    }

    /// Each element of a sequence of them has the name that was asked for.
    pub proof fn lemma_seq_xml_names(s: Seq<CommitView>, name: Seq<char>)
        ensures
            forall|i: int|
                0 <= i < s.len() ==> (#[trigger] CommitView::seq_xml(s, name)[i]).name == name,
    {
        assert forall|i: int| 0 <= i < s.len() implies (#[trigger] CommitView::seq_xml(
            s,
            name,
        )[i]).name == name by {
            s[i].lemma_xml_name(name);
        }
    }

    /// The elements that the XML element of a commit holds: those of the
    /// parts that are always there, and that of an optional part exactly
    /// where the part is there.
    pub proof fn lemma_xml_children(self, name: Seq<char>)
        ensures
            has_child(self.xml(name), "uid"@) <==> self.uid is Some,
            has_child(self.xml(name), "url"@) <==> self.url is Some,
            has_child(self.xml(name), "author"@) <==> self.author is Some,
            has_child(self.xml(name), "committer"@) <==> self.committer is Some,
            has_child(self.xml(name), "message"@) <==> self.message is Some,
    {
        lemma_children_of_element();
        lemma_name_of_element();
        if self.author is Some {
            IdentifiableActionView::lemma_xml_name(self.author->0, "author"@);
        }
        if self.committer is Some {
            IdentifiableActionView::lemma_xml_name(self.committer->0, "committer"@);
        }
        reveal_strlit("uid");
        reveal_strlit("url");
        reveal_strlit("author");
        reveal_strlit("committer");
        reveal_strlit("message");
        assert("uid"@.len() == 3);
        assert("url"@.len() == 3);
        assert("author"@.len() == 6);
        assert("committer"@.len() == 9);
        assert("message"@.len() == 7);
        assert("uid"@[1] != "url"@[1]);
    }

    /// The omission law for a commit: a part of it that is absent has no
    /// attribute and no element in the XML element that schema 1.3 writes
    /// for it.
    pub proof fn lemma_xml_absent_parts_are_omitted(c: models::CommitView, name: Seq<char>)
        ensures
            c.uid is None ==> !has_child(CommitView::from_canonical(c).xml(name), "uid"@),
            c.url is None ==> !has_child(CommitView::from_canonical(c).xml(name), "url"@),
            c.author is None ==> !has_child(CommitView::from_canonical(c).xml(name), "author"@),
            c.committer is None ==> !has_child(
                CommitView::from_canonical(c).xml(name),
                "committer"@,
            ),
            c.message is None ==> !has_child(CommitView::from_canonical(c).xml(name), "message"@),
    {
        CommitView::from_canonical(c).lemma_xml_children(name);
    }
}

impl CompositionView {
    /// The element has the name that was asked for.
    pub proof fn lemma_xml_name(self, name: Seq<char>)
        ensures
            self.xml(name).name == name,
    {
        lemma_name_of_element();
    }

    /// Each element of a sequence of them has the name that was asked for.
    pub proof fn lemma_seq_xml_names(s: Seq<CompositionView>, name: Seq<char>)
        ensures
            forall|i: int|
                0 <= i < s.len() ==> (#[trigger] CompositionView::seq_xml(s, name)[i]).name == name,
    {
        assert forall|i: int| 0 <= i < s.len() implies (#[trigger] CompositionView::seq_xml(
            s,
            name,
        )[i]).name == name by {
            s[i].lemma_xml_name(name);
        }
    }

    /// The elements that the XML element of a composition holds: those of the
    /// parts that are always there, and that of an optional part exactly
    /// where the part is there.
    pub proof fn lemma_xml_children(self, name: Seq<char>)
        ensures
            has_child(self.xml(name), "aggregate"@),
            has_child(self.xml(name), "assemblies"@) <==> self.assemblies is Some,
            has_child(self.xml(name), "dependencies"@) <==> self.dependencies is Some,
    {
        lemma_children_of_element();
        lemma_name_of_element();
        reveal_strlit("aggregate");
        reveal_strlit("assemblies");
        reveal_strlit("dependencies");
        assert("aggregate"@.len() == 9);
        assert("assemblies"@.len() == 10);
        assert("dependencies"@.len() == 12);
    }

    /// The omission law for a composition: a part of it that is absent has no
    /// attribute and no element in the XML element that schema 1.3 writes
    /// for it.
    pub proof fn lemma_xml_absent_parts_are_omitted(c: models::CompositionView, name: Seq<char>)
        ensures
            c.assemblies is None ==> !has_child(
                CompositionView::from_canonical(c).xml(name),
                "assemblies"@,
            ),
            c.dependencies is None ==> !has_child(
                CompositionView::from_canonical(c).xml(name),
                "dependencies"@,
            ),
    {
        CompositionView::from_canonical(c).lemma_xml_children(name);
    }
}

impl DataClassificationView {
    /// The element has the name that was asked for.
    pub proof fn lemma_xml_name(self, name: Seq<char>)
        ensures
            self.xml(name).name == name,
    {
        lemma_name_of_element();
    }

    /// Each element of a sequence of them has the name that was asked for.
    pub proof fn lemma_seq_xml_names(s: Seq<DataClassificationView>, name: Seq<char>)
        ensures
            forall|i: int|
                0 <= i < s.len() ==> (#[trigger] DataClassificationView::seq_xml(s, name)[i]).name == name,
    {
        assert forall|i: int| 0 <= i < s.len() implies (#[trigger] DataClassificationView::seq_xml(
            s,
            name,
        )[i]).name == name by {
            s[i].lemma_xml_name(name);
        }
    }

    /// The attributes of the XML element of a data classification: those of the parts that
    /// are always there, and that of an optional part exactly where the part
    /// is there.
    pub proof fn lemma_xml_attributes(self, name: Seq<char>)
        ensures
            has_attribute(self.xml(name), "flow"@),
    {
        lemma_attributes_of_element();
        reveal_strlit("flow");
        assert("flow"@.len() == 4);
    }
}

impl DiffView {
    /// The element has the name that was asked for.
    pub proof fn lemma_xml_name(self, name: Seq<char>)
        ensures
            self.xml(name).name == name,
    {
        lemma_name_of_element();
    }

    /// The elements that the XML element of a diff holds: those of the
    /// parts that are always there, and that of an optional part exactly
    /// where the part is there.
    pub proof fn lemma_xml_children(self, name: Seq<char>)
        ensures
            has_child(self.xml(name), "text"@) <==> self.text is Some,
            has_child(self.xml(name), "url"@) <==> self.url is Some,
    {
        lemma_children_of_element();
        lemma_name_of_element();
        if self.text is Some {
            AttachedTextView::lemma_xml_name(self.text->0, "text"@);
        }
        reveal_strlit("text");
        reveal_strlit("url");
        assert("text"@.len() == 4);
        assert("url"@.len() == 3);
    }

    /// The omission law for a diff: a part of it that is absent has no
    /// attribute and no element in the XML element that schema 1.3 writes
    /// for it.
    pub proof fn lemma_xml_absent_parts_are_omitted(c: models::DiffView, name: Seq<char>)
        ensures
            c.text is None ==> !has_child(DiffView::from_canonical(c).xml(name), "text"@),
            c.url is None ==> !has_child(DiffView::from_canonical(c).xml(name), "url"@),
    {
        DiffView::from_canonical(c).lemma_xml_children(name);
    }
}

impl ExternalReferenceView {
    /// The element has the name that was asked for.
    pub proof fn lemma_xml_name(self, name: Seq<char>)
        ensures
            self.xml(name).name == name,
    {
        lemma_name_of_element();
    }

    /// Each element of a sequence of them has the name that was asked for.
    pub proof fn lemma_seq_xml_names(s: Seq<ExternalReferenceView>, name: Seq<char>)
        ensures
            forall|i: int|
                0 <= i < s.len() ==> (#[trigger] ExternalReferenceView::seq_xml(s, name)[i]).name == name,
    {
        assert forall|i: int| 0 <= i < s.len() implies (#[trigger] ExternalReferenceView::seq_xml(
            s,
            name,
        )[i]).name == name by {
            s[i].lemma_xml_name(name);
        }
    }

    /// The attributes of the XML element of an external reference: those of the parts that
    /// are always there, and that of an optional part exactly where the part
    /// is there.
    pub proof fn lemma_xml_attributes(self, name: Seq<char>)
        ensures
            has_attribute(self.xml(name), "type"@),
    {
        lemma_attributes_of_element();
        reveal_strlit("type");
        assert("type"@.len() == 4);
    }

    /// The elements that the XML element of an external reference holds: those of the
    /// parts that are always there, and that of an optional part exactly
    /// where the part is there.
    pub proof fn lemma_xml_children(self, name: Seq<char>)
        ensures
            has_child(self.xml(name), "url"@),
            has_child(self.xml(name), "comment"@) <==> self.comment is Some,
            has_child(self.xml(name), "hashes"@) <==> self.hashes is Some,
    {
        lemma_children_of_element();
        lemma_name_of_element();
        reveal_strlit("url");
        reveal_strlit("comment");
        reveal_strlit("hashes");
        assert("url"@.len() == 3);
        assert("comment"@.len() == 7);
        assert("hashes"@.len() == 6);
    }

    /// The omission law for an external reference: a part of it that is absent has no
    /// attribute and no element in the XML element that schema 1.3 writes
    /// for it.
    pub proof fn lemma_xml_absent_parts_are_omitted(
        c: models::ExternalReferenceView,
        name: Seq<char>,
    )
        ensures
            c.comment is None ==> !has_child(
                ExternalReferenceView::from_canonical(c).xml(name),
                "comment"@,
            ),
            c.hashes is None ==> !has_child(
                ExternalReferenceView::from_canonical(c).xml(name),
                "hashes"@,
            ),
    {
        ExternalReferenceView::from_canonical(c).lemma_xml_children(name);
    }
}

impl SourceView {
    /// The element has the name that was asked for.
    pub proof fn lemma_xml_name(self, name: Seq<char>)
        ensures
            self.xml(name).name == name,
    {
        lemma_name_of_element();
    }

    /// The elements that the XML element of a source holds: those of the
    /// parts that are always there, and that of an optional part exactly
    /// where the part is there.
    pub proof fn lemma_xml_children(self, name: Seq<char>)
        ensures
            has_child(self.xml(name), "name"@) <==> self.name is Some,
            has_child(self.xml(name), "url"@) <==> self.url is Some,
    {
        lemma_children_of_element();
        lemma_name_of_element();
        reveal_strlit("name");
        reveal_strlit("url");
        assert("name"@.len() == 4);
        assert("url"@.len() == 3);
    }

    /// The omission law for a source: a part of it that is absent has no
    /// attribute and no element in the XML element that schema 1.3 writes
    /// for it.
    pub proof fn lemma_xml_absent_parts_are_omitted(c: models::SourceView, name: Seq<char>)
        ensures
            c.name is None ==> !has_child(SourceView::from_canonical(c).xml(name), "name"@),
            c.url is None ==> !has_child(SourceView::from_canonical(c).xml(name), "url"@),
    {
        SourceView::from_canonical(c).lemma_xml_children(name);
    }
}

impl IssueView {
    /// The element has the name that was asked for.
    pub proof fn lemma_xml_name(self, name: Seq<char>)
        ensures
            self.xml(name).name == name,
    {
        lemma_name_of_element();
    }

    /// Each element of a sequence of them has the name that was asked for.
    pub proof fn lemma_seq_xml_names(s: Seq<IssueView>, name: Seq<char>)
        ensures
            forall|i: int|
                0 <= i < s.len() ==> (#[trigger] IssueView::seq_xml(s, name)[i]).name == name,
    {
        assert forall|i: int| 0 <= i < s.len() implies (#[trigger] IssueView::seq_xml(
            s,
            name,
        )[i]).name == name by {
            s[i].lemma_xml_name(name);
        }
    }

    /// The attributes of the XML element of an issue: those of the parts that
    /// are always there, and that of an optional part exactly where the part
    /// is there.
    pub proof fn lemma_xml_attributes(self, name: Seq<char>)
        ensures
            has_attribute(self.xml(name), "type"@),
    {
        lemma_attributes_of_element();
        reveal_strlit("type");
        assert("type"@.len() == 4);
    }

    /// The elements that the XML element of an issue holds: those of the
    /// parts that are always there, and that of an optional part exactly
    /// where the part is there.
    pub proof fn lemma_xml_children(self, name: Seq<char>)
        ensures
            has_child(self.xml(name), "id"@) <==> self.id is Some,
            has_child(self.xml(name), "name"@) <==> self.name is Some,
            has_child(self.xml(name), "description"@) <==> self.description is Some,
            has_child(self.xml(name), "source"@) <==> self.source is Some,
            has_child(self.xml(name), "references"@) <==> self.references is Some,
    {
        lemma_children_of_element();
        lemma_name_of_element();
        if self.source is Some {
            SourceView::lemma_xml_name(self.source->0, "source"@);
        }
        reveal_strlit("id");
        reveal_strlit("name");
        reveal_strlit("description");
        reveal_strlit("source");
        reveal_strlit("references");
        assert("id"@.len() == 2);
        assert("name"@.len() == 4);
        assert("description"@.len() == 11);
        assert("source"@.len() == 6);
        assert("references"@.len() == 10);
    }

    /// The omission law for an issue: a part of it that is absent has no
    /// attribute and no element in the XML element that schema 1.3 writes
    /// for it.
    pub proof fn lemma_xml_absent_parts_are_omitted(c: models::IssueView, name: Seq<char>)
        ensures
            c.id is None ==> !has_child(IssueView::from_canonical(c).xml(name), "id"@),
            c.name is None ==> !has_child(IssueView::from_canonical(c).xml(name), "name"@),
            c.description is None ==> !has_child(
                IssueView::from_canonical(c).xml(name),
                "description"@,
            ),
            c.source is None ==> !has_child(IssueView::from_canonical(c).xml(name), "source"@),
            c.references is None ==> !has_child(
                IssueView::from_canonical(c).xml(name),
                "references"@,
            ),
    {
        IssueView::from_canonical(c).lemma_xml_children(name);
    }
}

impl LicenseView {
    /// The element has the name that was asked for.
    pub proof fn lemma_xml_name(self, name: Seq<char>)
        ensures
            self.xml(name).name == name,
    {
        lemma_name_of_element();
    }

    /// The elements that the XML element of a license holds: those of the
    /// parts that are always there, and that of an optional part exactly
    /// where the part is there.
    pub proof fn lemma_xml_children(self, name: Seq<char>)
        ensures
            has_child(self.xml(name), "id"@) <==> self.license_identifier is SpdxId,
            has_child(self.xml(name), "name"@) <==> self.license_identifier is Name,
            has_child(self.xml(name), "text"@) <==> self.text is Some,
            has_child(self.xml(name), "url"@) <==> self.url is Some,
    {
        lemma_children_of_element();
        lemma_name_of_element();
        if self.text is Some {
            AttachedTextView::lemma_xml_name(self.text->0, "text"@);
        }
        reveal_strlit("id");
        reveal_strlit("name");
        reveal_strlit("text");
        reveal_strlit("url");
        assert("id"@.len() == 2);
        assert("name"@.len() == 4);
        assert("text"@.len() == 4);
        assert("url"@.len() == 3);
        assert("name"@[0] != "text"@[0]);
    }

    /// The omission law for a license: a part of it that is absent has no
    /// attribute and no element in the XML element that schema 1.3 writes
    /// for it.
    pub proof fn lemma_xml_absent_parts_are_omitted(c: models::LicenseView, name: Seq<char>)
        ensures
            c.text is None ==> !has_child(LicenseView::from_canonical(c).xml(name), "text"@),
            c.url is None ==> !has_child(LicenseView::from_canonical(c).xml(name), "url"@),
    {
        LicenseView::from_canonical(c).lemma_xml_children(name);
    }
}

impl PatchView {
    /// The element has the name that was asked for.
    pub proof fn lemma_xml_name(self, name: Seq<char>)
        ensures
            self.xml(name).name == name,
    {
        lemma_name_of_element();
    }

    /// Each element of a sequence of them has the name that was asked for.
    pub proof fn lemma_seq_xml_names(s: Seq<PatchView>, name: Seq<char>)
        ensures
            forall|i: int|
                0 <= i < s.len() ==> (#[trigger] PatchView::seq_xml(s, name)[i]).name == name,
    {
        assert forall|i: int| 0 <= i < s.len() implies (#[trigger] PatchView::seq_xml(
            s,
            name,
        )[i]).name == name by {
            s[i].lemma_xml_name(name);
        }
    }

    /// The attributes of the XML element of a patch: those of the parts that
    /// are always there, and that of an optional part exactly where the part
    /// is there.
    pub proof fn lemma_xml_attributes(self, name: Seq<char>)
        ensures
            has_attribute(self.xml(name), "type"@),
    {
        lemma_attributes_of_element();
        reveal_strlit("type");
        assert("type"@.len() == 4);
    }

    /// The elements that the XML element of a patch holds: those of the
    /// parts that are always there, and that of an optional part exactly
    /// where the part is there.
    pub proof fn lemma_xml_children(self, name: Seq<char>)
        ensures
            has_child(self.xml(name), "diff"@),
            has_child(self.xml(name), "resolves"@) <==> self.resolves is Some,
    {
        lemma_children_of_element();
        lemma_name_of_element();
        DiffView::lemma_xml_name(self.diff, "diff"@);
        reveal_strlit("diff");
        reveal_strlit("resolves");
        assert("diff"@.len() == 4);
        assert("resolves"@.len() == 8);
    }

    /// The omission law for a patch: a part of it that is absent has no
    /// attribute and no element in the XML element that schema 1.3 writes
    /// for it.
    pub proof fn lemma_xml_absent_parts_are_omitted(c: models::PatchView, name: Seq<char>)
        ensures
            c.resolves is None ==> !has_child(PatchView::from_canonical(c).xml(name), "resolves"@),
    {
        PatchView::from_canonical(c).lemma_xml_children(name);
    }
}

impl PropertyView {
    /// The element has the name that was asked for.
    pub proof fn lemma_xml_name(self, name: Seq<char>)
        ensures
            self.xml(name).name == name,
    {
        lemma_name_of_element();
    }

    /// Each element of a sequence of them has the name that was asked for.
    pub proof fn lemma_seq_xml_names(s: Seq<PropertyView>, name: Seq<char>)
        ensures
            forall|i: int|
                0 <= i < s.len() ==> (#[trigger] PropertyView::seq_xml(s, name)[i]).name == name,
    {
        assert forall|i: int| 0 <= i < s.len() implies (#[trigger] PropertyView::seq_xml(
            s,
            name,
        )[i]).name == name by {
            s[i].lemma_xml_name(name);
        }
    }

    /// The attributes of the XML element of a property: those of the parts that
    /// are always there, and that of an optional part exactly where the part
    /// is there.
    pub proof fn lemma_xml_attributes(self, name: Seq<char>)
        ensures
            has_attribute(self.xml(name), "name"@),
    {
        lemma_attributes_of_element();
        reveal_strlit("name");
        assert("name"@.len() == 4);
    }
}

impl SwidView {
    /// The element has the name that was asked for.
    pub proof fn lemma_xml_name(self, name: Seq<char>)
        ensures
            self.xml(name).name == name,
    {
        lemma_name_of_element();
    }

    /// The attributes of the XML element of a swid: those of the parts that
    /// are always there, and that of an optional part exactly where the part
    /// is there.
    pub proof fn lemma_xml_attributes(self, name: Seq<char>)
        ensures
            has_attribute(self.xml(name), "tagId"@),
            has_attribute(self.xml(name), "name"@),
            has_attribute(self.xml(name), "version"@) <==> self.version is Some,
            has_attribute(self.xml(name), "tagVersion"@) <==> self.tag_version is Some,
            has_attribute(self.xml(name), "patch"@) <==> self.patch is Some,
    {
        lemma_attributes_of_element();
        reveal_strlit("tagId");
        reveal_strlit("name");
        reveal_strlit("version");
        reveal_strlit("tagVersion");
        reveal_strlit("patch");
        assert("tagId"@.len() == 5);
        assert("name"@.len() == 4);
        assert("version"@.len() == 7);
        assert("tagVersion"@.len() == 10);
        assert("patch"@.len() == 5);
        assert("tagId"@[0] != "patch"@[0]);
    }

    /// The elements that the XML element of a swid holds: those of the
    /// parts that are always there, and that of an optional part exactly
    /// where the part is there.
    pub proof fn lemma_xml_children(self, name: Seq<char>)
        ensures
            has_child(self.xml(name), "text"@) <==> self.text is Some,
            has_child(self.xml(name), "url"@) <==> self.url is Some,
    {
        lemma_children_of_element();
        lemma_name_of_element();
        if self.text is Some {
            AttachedTextView::lemma_xml_name(self.text->0, "text"@);
        }
        reveal_strlit("text");
        reveal_strlit("url");
        assert("text"@.len() == 4);
        assert("url"@.len() == 3);
    }

    /// The omission law for a swid: a part of it that is absent has no
    /// attribute and no element in the XML element that schema 1.3 writes
    /// for it.
    pub proof fn lemma_xml_absent_parts_are_omitted(c: models::SwidView, name: Seq<char>)
        ensures
            c.version is None ==> !has_attribute(SwidView::from_canonical(c).xml(name), "version"@),
            c.tag_version is None ==> !has_attribute(
                SwidView::from_canonical(c).xml(name),
                "tagVersion"@,
            ),
            c.patch is None ==> !has_attribute(SwidView::from_canonical(c).xml(name), "patch"@),
            c.text is None ==> !has_child(SwidView::from_canonical(c).xml(name), "text"@),
            c.url is None ==> !has_child(SwidView::from_canonical(c).xml(name), "url"@),
    {
        SwidView::from_canonical(c).lemma_xml_attributes(name);
        SwidView::from_canonical(c).lemma_xml_children(name);
    }
}

impl ToolView {
    /// The element has the name that was asked for.
    pub proof fn lemma_xml_name(self, name: Seq<char>)
        ensures
            self.xml(name).name == name,
    {
        lemma_name_of_element();
    }

    /// Each element of a sequence of them has the name that was asked for.
    pub proof fn lemma_seq_xml_names(s: Seq<ToolView>, name: Seq<char>)
        ensures
            forall|i: int|
                0 <= i < s.len() ==> (#[trigger] ToolView::seq_xml(s, name)[i]).name == name,
    {
        assert forall|i: int| 0 <= i < s.len() implies (#[trigger] ToolView::seq_xml(
            s,
            name,
        )[i]).name == name by {
            s[i].lemma_xml_name(name);
        }
    }

    /// The elements that the XML element of a tool holds: those of the
    /// parts that are always there, and that of an optional part exactly
    /// where the part is there.
    pub proof fn lemma_xml_children(self, name: Seq<char>)
        ensures
            has_child(self.xml(name), "vendor"@) <==> self.vendor is Some,
            has_child(self.xml(name), "name"@) <==> self.name is Some,
            has_child(self.xml(name), "version"@) <==> self.version is Some,
            has_child(self.xml(name), "hashes"@) <==> self.hashes is Some,
    {
        lemma_children_of_element();
        lemma_name_of_element();
        reveal_strlit("vendor");
        reveal_strlit("name");
        reveal_strlit("version");
        reveal_strlit("hashes");
        assert("vendor"@.len() == 6);
        assert("name"@.len() == 4);
        assert("version"@.len() == 7);
        assert("hashes"@.len() == 6);
        assert("vendor"@[0] != "hashes"@[0]);
    }

    /// The omission law for a tool: a part of it that is absent has no
    /// attribute and no element in the XML element that schema 1.3 writes
    /// for it.
    pub proof fn lemma_xml_absent_parts_are_omitted(c: models::ToolView, name: Seq<char>)
        ensures
            c.vendor is None ==> !has_child(ToolView::from_canonical(c).xml(name), "vendor"@),
            c.name is None ==> !has_child(ToolView::from_canonical(c).xml(name), "name"@),
            c.version is None ==> !has_child(ToolView::from_canonical(c).xml(name), "version"@),
            c.hashes is None ==> !has_child(ToolView::from_canonical(c).xml(name), "hashes"@),
    {
        ToolView::from_canonical(c).lemma_xml_children(name);
    }
}

impl ComponentEvidenceView {
    /// The element has the name that was asked for.
    pub proof fn lemma_xml_name(self, name: Seq<char>)
        ensures
            self.xml(name).name == name,
    {
        lemma_name_of_element();
    }

    /// The elements that the XML element of a component evidence holds: those of the
    /// parts that are always there, and that of an optional part exactly
    /// where the part is there.
    pub proof fn lemma_xml_children(self, name: Seq<char>)
        ensures
            has_child(self.xml(name), "licenses"@) <==> self.licenses is Some,
            has_child(
                self.xml(name),
                "copyright"@,
            ) <==> (self.copyright matches Some(x) && x.len() > 0),
    {
        lemma_children_of_element();
        lemma_children_after_lists();
        lemma_name_of_element();
        if self.copyright is Some {
            lemma_copyright_elements_names(self.copyright->0);
            if self.copyright->0.len() > 0 {
                assert(copyright_elements(self.copyright->0)[0].name == "copyright"@);
            }
        }
        reveal_strlit("licenses");
        reveal_strlit("copyright");
        assert("licenses"@.len() == 8);
        assert("copyright"@.len() == 9);
    }

    /// The omission law for a component evidence: a part of it that is absent has no
    /// attribute and no element in the XML element that schema 1.3 writes
    /// for it.
    pub proof fn lemma_xml_absent_parts_are_omitted(
        c: models::ComponentEvidenceView,
        name: Seq<char>,
    )
        ensures
            c.licenses is None ==> !has_child(
                ComponentEvidenceView::from_canonical(c).xml(name),
                "licenses"@,
            ),
            c.copyright is None ==> !has_child(
                ComponentEvidenceView::from_canonical(c).xml(name),
                "copyright"@,
            ),
    {
        ComponentEvidenceView::from_canonical(c).lemma_xml_children(name);
    }
}

impl PedigreeView {
    /// The element has the name that was asked for.
    pub proof fn lemma_xml_name(self, name: Seq<char>)
        ensures
            self.xml(name).name == name,
    {
        lemma_name_of_element();
    }

    /// The elements that the XML element of a pedigree holds: those of the
    /// parts that are always there, and that of an optional part exactly
    /// where the part is there.
    pub proof fn lemma_xml_children(self, name: Seq<char>)
        ensures
            has_child(self.xml(name), "ancestors"@) <==> self.ancestors is Some,
            has_child(self.xml(name), "descendants"@) <==> self.descendants is Some,
            has_child(self.xml(name), "variants"@) <==> self.variants is Some,
            has_child(self.xml(name), "commits"@) <==> self.commits is Some,
            has_child(self.xml(name), "patches"@) <==> self.patches is Some,
            has_child(self.xml(name), "notes"@) <==> self.notes is Some,
    {
        lemma_children_of_element();
        lemma_name_of_element();
        reveal_strlit("ancestors");
        reveal_strlit("descendants");
        reveal_strlit("variants");
        reveal_strlit("commits");
        reveal_strlit("patches");
        reveal_strlit("notes");
        assert("ancestors"@.len() == 9);
        assert("descendants"@.len() == 11);
        assert("variants"@.len() == 8);
        assert("commits"@.len() == 7);
        assert("patches"@.len() == 7);
        assert("notes"@.len() == 5);
        assert("commits"@[0] != "patches"@[0]);
    }

    /// The omission law for a pedigree: a part of it that is absent has no
    /// attribute and no element in the XML element that schema 1.3 writes
    /// for it.
    pub proof fn lemma_xml_absent_parts_are_omitted(c: models::PedigreeView, name: Seq<char>)
        ensures
            c.ancestors is None ==> !has_child(
                PedigreeView::from_canonical(c).xml(name),
                "ancestors"@,
            ),
            c.decendants is None ==> !has_child(
                PedigreeView::from_canonical(c).xml(name),
                "descendants"@,
            ),
            c.variants is None ==> !has_child(
                PedigreeView::from_canonical(c).xml(name),
                "variants"@,
            ),
            c.commits is None ==> !has_child(PedigreeView::from_canonical(c).xml(name), "commits"@),
            c.patches is None ==> !has_child(PedigreeView::from_canonical(c).xml(name), "patches"@),
            c.notes is None ==> !has_child(PedigreeView::from_canonical(c).xml(name), "notes"@),
    {
        PedigreeView::from_canonical(c).lemma_xml_children(name);
    }
}

impl ComponentView {
    /// The element has the name that was asked for.
    pub proof fn lemma_xml_name(self, name: Seq<char>)
        ensures
            self.xml(name).name == name,
    {
        lemma_name_of_element();
    }

    /// Each element of a sequence of them has the name that was asked for.
    pub proof fn lemma_seq_xml_names(s: Seq<ComponentView>, name: Seq<char>)
        ensures
            forall|i: int|
                0 <= i < s.len() ==> (#[trigger] ComponentView::seq_xml(s, name)[i]).name == name,
    {
        assert forall|i: int| 0 <= i < s.len() implies (#[trigger] ComponentView::seq_xml(
            s,
            name,
        )[i]).name == name by {
            s[i].lemma_xml_name(name);
        }
    }

    /// The attributes of the XML element of a component: those of the parts that
    /// are always there, and that of an optional part exactly where the part
    /// is there.
    pub proof fn lemma_xml_attributes(self, name: Seq<char>)
        ensures
            has_attribute(self.xml(name), "type"@),
            has_attribute(self.xml(name), "mime-type"@) <==> self.mime_type is Some,
            has_attribute(self.xml(name), "bom-ref"@) <==> self.bom_ref is Some,
    {
        lemma_attributes_of_element();
        reveal_strlit("type");
        reveal_strlit("mime-type");
        reveal_strlit("bom-ref");
        assert("type"@.len() == 4);
        assert("mime-type"@.len() == 9);
        assert("bom-ref"@.len() == 7);
    }

    /// The elements that the XML element of a component holds: those of the
    /// parts that are always there, and that of an optional part exactly
    /// where the part is there.
    pub proof fn lemma_xml_children(self, name: Seq<char>)
        ensures
            has_child(self.xml(name), "supplier"@) <==> self.supplier is Some,
            has_child(self.xml(name), "author"@) <==> self.author is Some,
            has_child(self.xml(name), "publisher"@) <==> self.publisher is Some,
            has_child(self.xml(name), "group"@) <==> self.group is Some,
            has_child(self.xml(name), "name"@),
            has_child(self.xml(name), "version"@),
            has_child(self.xml(name), "description"@) <==> self.description is Some,
            has_child(self.xml(name), "scope"@) <==> self.scope is Some,
            has_child(self.xml(name), "hashes"@) <==> self.hashes is Some,
            has_child(self.xml(name), "licenses"@) <==> self.licenses is Some,
            has_child(self.xml(name), "copyright"@) <==> self.copyright is Some,
            has_child(self.xml(name), "cpe"@) <==> self.cpe is Some,
            has_child(self.xml(name), "purl"@) <==> self.purl is Some,
            has_child(self.xml(name), "swid"@) <==> self.swid is Some,
            has_child(self.xml(name), "modified"@) <==> self.modified is Some,
            has_child(self.xml(name), "pedigree"@) <==> self.pedigree is Some,
            has_child(self.xml(name), "externalReferences"@) <==> self.external_references is Some,
            has_child(self.xml(name), "properties"@) <==> self.properties is Some,
            has_child(self.xml(name), "components"@) <==> self.components is Some,
            has_child(self.xml(name), "evidence"@) <==> self.evidence is Some,
    {
        lemma_children_of_element();
        lemma_name_of_element();
        if self.supplier is Some {
            OrganizationalEntityView::lemma_xml_name(self.supplier->0, "supplier"@);
        }
        if self.swid is Some {
            SwidView::lemma_xml_name(self.swid->0, "swid"@);
        }
        if self.pedigree is Some {
            PedigreeView::lemma_xml_name(self.pedigree->0, "pedigree"@);
        }
        if self.evidence is Some {
            ComponentEvidenceView::lemma_xml_name(self.evidence->0, "evidence"@);
        }
        reveal_strlit("supplier");
        reveal_strlit("author");
        reveal_strlit("publisher");
        reveal_strlit("group");
        reveal_strlit("name");
        reveal_strlit("version");
        reveal_strlit("description");
        reveal_strlit("scope");
        reveal_strlit("hashes");
        reveal_strlit("licenses");
        reveal_strlit("copyright");
        reveal_strlit("cpe");
        reveal_strlit("purl");
        reveal_strlit("swid");
        reveal_strlit("modified");
        reveal_strlit("pedigree");
        reveal_strlit("externalReferences");
        reveal_strlit("properties");
        reveal_strlit("components");
        reveal_strlit("evidence");
        assert("supplier"@.len() == 8);
        assert("author"@.len() == 6);
        assert("publisher"@.len() == 9);
        assert("group"@.len() == 5);
        assert("name"@.len() == 4);
        assert("version"@.len() == 7);
        assert("description"@.len() == 11);
        assert("scope"@.len() == 5);
        assert("hashes"@.len() == 6);
        assert("licenses"@.len() == 8);
        assert("copyright"@.len() == 9);
        assert("cpe"@.len() == 3);
        assert("purl"@.len() == 4);
        assert("swid"@.len() == 4);
        assert("modified"@.len() == 8);
        assert("pedigree"@.len() == 8);
        assert("externalReferences"@.len() == 18);
        assert("properties"@.len() == 10);
        assert("components"@.len() == 10);
        assert("evidence"@.len() == 8);
        assert("supplier"@[0] != "licenses"@[0]);
        assert("supplier"@[0] != "modified"@[0]);
        assert("supplier"@[0] != "pedigree"@[0]);
        assert("supplier"@[0] != "evidence"@[0]);
        assert("author"@[0] != "hashes"@[0]);
        assert("publisher"@[0] != "copyright"@[0]);
        assert("group"@[0] != "scope"@[0]);
        assert("name"@[0] != "purl"@[0]);
        assert("name"@[0] != "swid"@[0]);
        assert("licenses"@[0] != "modified"@[0]);
        assert("licenses"@[0] != "pedigree"@[0]);
        assert("licenses"@[0] != "evidence"@[0]);
        assert("purl"@[0] != "swid"@[0]);
        assert("modified"@[0] != "pedigree"@[0]);
        assert("modified"@[0] != "evidence"@[0]);
        assert("pedigree"@[0] != "evidence"@[0]);
        assert("properties"@[0] != "components"@[0]);
    }

    /// The omission law for a component: a part of it that is absent has no
    /// attribute and no element in the XML element that schema 1.3 writes
    /// for it.
    pub proof fn lemma_xml_absent_parts_are_omitted(c: models::ComponentView, name: Seq<char>)
        ensures
            c.mime_type is None ==> !has_attribute(
                ComponentView::from_canonical(c).xml(name),
                "mime-type"@,
            ),
            c.bom_ref is None ==> !has_attribute(
                ComponentView::from_canonical(c).xml(name),
                "bom-ref"@,
            ),
            c.supplier is None ==> !has_child(
                ComponentView::from_canonical(c).xml(name),
                "supplier"@,
            ),
            c.author is None ==> !has_child(ComponentView::from_canonical(c).xml(name), "author"@),
            c.publisher is None ==> !has_child(
                ComponentView::from_canonical(c).xml(name),
                "publisher"@,
            ),
            c.group is None ==> !has_child(ComponentView::from_canonical(c).xml(name), "group"@),
            c.description is None ==> !has_child(
                ComponentView::from_canonical(c).xml(name),
                "description"@,
            ),
            c.scope is None ==> !has_child(ComponentView::from_canonical(c).xml(name), "scope"@),
            c.hashes is None ==> !has_child(ComponentView::from_canonical(c).xml(name), "hashes"@),
            c.licenses is None ==> !has_child(
                ComponentView::from_canonical(c).xml(name),
                "licenses"@,
            ),
            c.copyright is None ==> !has_child(
                ComponentView::from_canonical(c).xml(name),
                "copyright"@,
            ),
            c.cpe is None ==> !has_child(ComponentView::from_canonical(c).xml(name), "cpe"@),
            c.purl is None ==> !has_child(ComponentView::from_canonical(c).xml(name), "purl"@),
            c.swid is None ==> !has_child(ComponentView::from_canonical(c).xml(name), "swid"@),
            c.modified is None ==> !has_child(
                ComponentView::from_canonical(c).xml(name),
                "modified"@,
            ),
            c.pedigree is None ==> !has_child(
                ComponentView::from_canonical(c).xml(name),
                "pedigree"@,
            ),
            c.external_references is None ==> !has_child(
                ComponentView::from_canonical(c).xml(name),
                "externalReferences"@,
            ),
            c.properties is None ==> !has_child(
                ComponentView::from_canonical(c).xml(name),
                "properties"@,
            ),
            c.components is None ==> !has_child(
                ComponentView::from_canonical(c).xml(name),
                "components"@,
            ),
            c.evidence is None ==> !has_child(
                ComponentView::from_canonical(c).xml(name),
                "evidence"@,
            ),
    {
        ComponentView::from_canonical(c).lemma_xml_attributes(name);
        ComponentView::from_canonical(c).lemma_xml_children(name);
    }
}

impl ServiceView {
    /// The element has the name that was asked for.
    pub proof fn lemma_xml_name(self, name: Seq<char>)
        ensures
            self.xml(name).name == name,
    {
        lemma_name_of_element();
    }

    /// Each element of a sequence of them has the name that was asked for.
    pub proof fn lemma_seq_xml_names(s: Seq<ServiceView>, name: Seq<char>)
        ensures
            forall|i: int|
                0 <= i < s.len() ==> (#[trigger] ServiceView::seq_xml(s, name)[i]).name == name,
    {
        assert forall|i: int| 0 <= i < s.len() implies (#[trigger] ServiceView::seq_xml(
            s,
            name,
        )[i]).name == name by {
            s[i].lemma_xml_name(name);
        }
    }

    /// The attributes of the XML element of a service: those of the parts that
    /// are always there, and that of an optional part exactly where the part
    /// is there.
    pub proof fn lemma_xml_attributes(self, name: Seq<char>)
        ensures
            has_attribute(self.xml(name), "bom-ref"@) <==> self.bom_ref is Some,
    {
        lemma_attributes_of_element();
        reveal_strlit("bom-ref");
        assert("bom-ref"@.len() == 7);
    }

    /// The elements that the XML element of a service holds: those of the
    /// parts that are always there, and that of an optional part exactly
    /// where the part is there.
    pub proof fn lemma_xml_children(self, name: Seq<char>)
        ensures
            has_child(self.xml(name), "provider"@) <==> self.provider is Some,
            has_child(self.xml(name), "group"@) <==> self.group is Some,
            has_child(self.xml(name), "name"@),
            has_child(self.xml(name), "version"@) <==> self.version is Some,
            has_child(self.xml(name), "description"@) <==> self.description is Some,
            has_child(self.xml(name), "endpoints"@) <==> self.endpoints is Some,
            has_child(self.xml(name), "authenticated"@) <==> self.authenticated is Some,
            has_child(self.xml(name), "x-trust-boundary"@) <==> self.x_trust_boundary is Some,
            has_child(self.xml(name), "data"@) <==> self.data is Some,
            has_child(self.xml(name), "licenses"@) <==> self.licenses is Some,
            has_child(self.xml(name), "externalReferences"@) <==> self.external_references is Some,
            has_child(self.xml(name), "properties"@) <==> self.properties is Some,
            has_child(self.xml(name), "services"@) <==> self.services is Some,
    {
        lemma_children_of_element();
        lemma_name_of_element();
        if self.provider is Some {
            OrganizationalEntityView::lemma_xml_name(self.provider->0, "provider"@);
        }
        reveal_strlit("provider");
        reveal_strlit("group");
        reveal_strlit("name");
        reveal_strlit("version");
        reveal_strlit("description");
        reveal_strlit("endpoints");
        reveal_strlit("authenticated");
        reveal_strlit("x-trust-boundary");
        reveal_strlit("data");
        reveal_strlit("licenses");
        reveal_strlit("externalReferences");
        reveal_strlit("properties");
        reveal_strlit("services");
        assert("provider"@.len() == 8);
        assert("group"@.len() == 5);
        assert("name"@.len() == 4);
        assert("version"@.len() == 7);
        assert("description"@.len() == 11);
        assert("endpoints"@.len() == 9);
        assert("authenticated"@.len() == 13);
        assert("x-trust-boundary"@.len() == 16);
        assert("data"@.len() == 4);
        assert("licenses"@.len() == 8);
        assert("externalReferences"@.len() == 18);
        assert("properties"@.len() == 10);
        assert("services"@.len() == 8);
        assert("provider"@[0] != "licenses"@[0]);
        assert("provider"@[0] != "services"@[0]);
        assert("name"@[0] != "data"@[0]);
        assert("licenses"@[0] != "services"@[0]);
    }

    /// The omission law for a service: a part of it that is absent has no
    /// attribute and no element in the XML element that schema 1.3 writes
    /// for it.
    pub proof fn lemma_xml_absent_parts_are_omitted(c: models::ServiceView, name: Seq<char>)
        ensures
            c.bom_ref is None ==> !has_attribute(
                ServiceView::from_canonical(c).xml(name),
                "bom-ref"@,
            ),
            c.provider is None ==> !has_child(
                ServiceView::from_canonical(c).xml(name),
                "provider"@,
            ),
            c.group is None ==> !has_child(ServiceView::from_canonical(c).xml(name), "group"@),
            c.version is None ==> !has_child(ServiceView::from_canonical(c).xml(name), "version"@),
            c.description is None ==> !has_child(
                ServiceView::from_canonical(c).xml(name),
                "description"@,
            ),
            c.endpoints is None ==> !has_child(
                ServiceView::from_canonical(c).xml(name),
                "endpoints"@,
            ),
            c.authenticated is None ==> !has_child(
                ServiceView::from_canonical(c).xml(name),
                "authenticated"@,
            ),
            c.x_trust_boundary is None ==> !has_child(
                ServiceView::from_canonical(c).xml(name),
                "x-trust-boundary"@,
            ),
            c.data is None ==> !has_child(ServiceView::from_canonical(c).xml(name), "data"@),
            c.licenses is None ==> !has_child(
                ServiceView::from_canonical(c).xml(name),
                "licenses"@,
            ),
            c.external_references is None ==> !has_child(
                ServiceView::from_canonical(c).xml(name),
                "externalReferences"@,
            ),
            c.properties is None ==> !has_child(
                ServiceView::from_canonical(c).xml(name),
                "properties"@,
            ),
            c.services is None ==> !has_child(
                ServiceView::from_canonical(c).xml(name),
                "services"@,
            ),
    {
        ServiceView::from_canonical(c).lemma_xml_attributes(name);
        ServiceView::from_canonical(c).lemma_xml_children(name);
    }
}

impl MetadataView {
    /// The element has the name that was asked for.
    pub proof fn lemma_xml_name(self, name: Seq<char>)
        ensures
            self.xml(name).name == name,
    {
        lemma_name_of_element();
    }

    /// The elements that the XML element of a metadata holds: those of the
    /// parts that are always there, and that of an optional part exactly
    /// where the part is there.
    pub proof fn lemma_xml_children(self, name: Seq<char>)
        ensures
            has_child(self.xml(name), "timestamp"@) <==> self.timestamp is Some,
            has_child(self.xml(name), "tools"@) <==> self.tools is Some,
            has_child(self.xml(name), "authors"@) <==> self.authors is Some,
            has_child(self.xml(name), "component"@) <==> self.component is Some,
            has_child(self.xml(name), "manufacture"@) <==> self.manufacture is Some,
            has_child(self.xml(name), "supplier"@) <==> self.supplier is Some,
            has_child(self.xml(name), "licenses"@) <==> self.licenses is Some,
            has_child(self.xml(name), "properties"@) <==> self.properties is Some,
    {
        lemma_children_of_element();
        lemma_name_of_element();
        if self.component is Some {
            ComponentView::lemma_xml_name(self.component->0, "component"@);
        }
        if self.manufacture is Some {
            OrganizationalEntityView::lemma_xml_name(self.manufacture->0, "manufacture"@);
        }
        if self.supplier is Some {
            OrganizationalEntityView::lemma_xml_name(self.supplier->0, "supplier"@);
        }
        reveal_strlit("timestamp");
        reveal_strlit("tools");
        reveal_strlit("authors");
        reveal_strlit("component");
        reveal_strlit("manufacture");
        reveal_strlit("supplier");
        reveal_strlit("licenses");
        reveal_strlit("properties");
        assert("timestamp"@.len() == 9);
        assert("tools"@.len() == 5);
        assert("authors"@.len() == 7);
        assert("component"@.len() == 9);
        assert("manufacture"@.len() == 11);
        assert("supplier"@.len() == 8);
        assert("licenses"@.len() == 8);
        assert("properties"@.len() == 10);
        assert("timestamp"@[0] != "component"@[0]);
        assert("supplier"@[0] != "licenses"@[0]);
    }

    /// The omission law for a metadata: a part of it that is absent has no
    /// attribute and no element in the XML element that schema 1.3 writes
    /// for it.
    pub proof fn lemma_xml_absent_parts_are_omitted(c: models::MetadataView, name: Seq<char>)
        ensures
            c.timestamp is None ==> !has_child(
                MetadataView::from_canonical(c).xml(name),
                "timestamp"@,
            ),
            c.tools is None ==> !has_child(MetadataView::from_canonical(c).xml(name), "tools"@),
            c.authors is None ==> !has_child(MetadataView::from_canonical(c).xml(name), "authors"@),
            c.component is None ==> !has_child(
                MetadataView::from_canonical(c).xml(name),
                "component"@,
            ),
            c.manufacture is None ==> !has_child(
                MetadataView::from_canonical(c).xml(name),
                "manufacture"@,
            ),
            c.supplier is None ==> !has_child(
                MetadataView::from_canonical(c).xml(name),
                "supplier"@,
            ),
            c.licenses is None ==> !has_child(
                MetadataView::from_canonical(c).xml(name),
                "licenses"@,
            ),
            c.properties is None ==> !has_child(
                MetadataView::from_canonical(c).xml(name),
                "properties"@,
            ),
    {
        MetadataView::from_canonical(c).lemma_xml_children(name);
    }
}

impl DependencyView {
    /// The XML element of a dependency is named `dependency` and always
    /// carries its reference.
    pub proof fn lemma_xml_parts(self)
        ensures
            self.xml().name == "dependency"@,
            has_attribute_value(self.xml(), "ref"@, self.dependency_ref),
    {
        reveal(ElementView::with_attribute);
        reveal(ElementView::with_children);
        assert(self.xml().attributes[0] == ("ref"@, self.dependency_ref));
    }
}

impl BomView {
    /// The attributes and the elements of the root element: the namespace
    /// of the schema always, and an attribute or an element for every other
    /// part exactly where the part is there. The version and the serial
    /// number are attributes and never elements.
    pub proof fn lemma_xml_parts(self)
        ensures
            self.xml().name == "Bom"@,
            has_attribute(self.xml(), "xmlns"@),
            has_attribute(self.xml(), "version"@) <==> self.version is Some,
            has_attribute(self.xml(), "serialNumber"@) <==> self.serial_number is Some,
            !has_child(self.xml(), "version"@),
            !has_child(self.xml(), "serialNumber"@),
            has_child(self.xml(), "metadata"@) <==> self.metadata is Some,
            has_child(self.xml(), "components"@) <==> self.components is Some,
            has_child(self.xml(), "services"@) <==> self.services is Some,
            has_child(self.xml(), "externalReferences"@) <==> self.external_references is Some,
            has_child(self.xml(), "dependencies"@) <==> self.dependencies is Some,
            has_child(self.xml(), "compositions"@) <==> self.compositions is Some,
            has_child(self.xml(), "properties"@) <==> self.properties is Some,
    {
        lemma_attributes_of_element();
        lemma_children_of_element();
        lemma_name_of_element();
        if self.metadata is Some {
            MetadataView::lemma_xml_name(self.metadata->0, "metadata"@);
        }
        reveal_strlit("xmlns");
        reveal_strlit("version");
        reveal_strlit("serialNumber");
        reveal_strlit("metadata");
        reveal_strlit("components");
        reveal_strlit("services");
        reveal_strlit("externalReferences");
        reveal_strlit("dependencies");
        reveal_strlit("compositions");
        reveal_strlit("properties");
        assert("xmlns"@.len() == 5);
        assert("version"@.len() == 7);
        assert("serialNumber"@.len() == 12);
        assert("metadata"@.len() == 8);
        assert("components"@.len() == 10);
        assert("services"@.len() == 8);
        assert("externalReferences"@.len() == 18);
        assert("dependencies"@.len() == 12);
        assert("compositions"@.len() == 12);
        assert("properties"@.len() == 10);
        assert("serialNumber"@[0] != "dependencies"@[0]);
        assert("serialNumber"@[0] != "compositions"@[0]);
        assert("dependencies"@[0] != "compositions"@[0]);
        assert("metadata"@[0] != "services"@[0]);
        assert("components"@[0] != "properties"@[0]);
    }

    /// The namespace that the root element declares, and the values of the
    /// version and of the serial number.
    pub proof fn lemma_xml_attribute_values(self)
        ensures
            has_attribute_value(self.xml(), "xmlns"@, "ns:http://cyclonedx.org/schema/bom/1.3"@),
            self.version matches Some(version) ==> has_attribute_value(
                self.xml(),
                "version"@,
                decimal(version as nat),
            ),
            self.serial_number matches Some(serial) ==> has_attribute_value(
                self.xml(),
                "serialNumber"@,
                serial,
            ),
    {
        reveal(ElementView::with_attribute);
        reveal(ElementView::with_optional_attribute);
        reveal(ElementView::with_children);
        let attributes = self.xml().attributes;
        assert(attributes[0] == ("xmlns"@, "ns:http://cyclonedx.org/schema/bom/1.3"@));
        if self.version is Some {
            assert(attributes[1] == ("version"@, decimal(self.version->0 as nat)));
            if self.serial_number is Some {
                assert(attributes[2] == ("serialNumber"@, self.serial_number->0));
            }
        } else {
            if self.serial_number is Some {
                assert(attributes[1] == ("serialNumber"@, self.serial_number->0));
            }
        }
    }

    /// The omission law for a document: a part of it that is absent has no
    /// attribute and no element in the XML that schema 1.3 writes for it,
    /// while the namespace and the version of the document are always
    /// written.
    pub proof fn lemma_xml_absent_parts_are_omitted(c: models::BomView)
        ensures
            has_attribute(BomView::from_canonical(c).xml(), "xmlns"@),
            has_attribute(BomView::from_canonical(c).xml(), "version"@),
            c.serial_number is None ==> !has_attribute(
                BomView::from_canonical(c).xml(),
                "serialNumber"@,
            ),
            c.metadata is None ==> !has_child(BomView::from_canonical(c).xml(), "metadata"@),
            c.components is None ==> !has_child(BomView::from_canonical(c).xml(), "components"@),
            c.services is None ==> !has_child(BomView::from_canonical(c).xml(), "services"@),
            c.external_references is None ==> !has_child(
                BomView::from_canonical(c).xml(),
                "externalReferences"@,
            ),
            c.dependencies is None ==> !has_child(
                BomView::from_canonical(c).xml(),
                "dependencies"@,
            ),
            c.compositions is None ==> !has_child(
                BomView::from_canonical(c).xml(),
                "compositions"@,
            ),
            c.properties is None ==> !has_child(BomView::from_canonical(c).xml(), "properties"@),
    {
        BomView::from_canonical(c).lemma_xml_parts();
    }

    /// Writing is a function of what the document holds: two documents with
    /// the same parts are written as the same text, character for
    /// character.
    pub proof fn lemma_xml_text_is_determined(a: models::BomView, b: models::BomView)
        requires
            a == b,
        ensures
            BomView::from_canonical(a).xml_text() == BomView::from_canonical(b).xml_text(),
    {
    }
}

} // verus!
