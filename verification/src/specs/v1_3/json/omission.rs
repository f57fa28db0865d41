//! The omission law of the JSON writer: a part that is absent has no key
//! in the object written for it, a part that is there has its key, and
//! `null` is never written.

use crate::json::{
    has_key, lemma_keys_of_members, lemma_null_free_members, lemma_null_free_strings, null_free,
    Json, Members,
};
use crate::models;
use crate::specs::v1_3::json::lemma_copyrights_json_is_null_free;
use crate::specs::v1_3::{
    AttachedTextView, BomView, CommitView, ComponentEvidenceView, ComponentView, CompositionView,
    DataClassificationView, DependencyView, DiffView, ExternalReferenceView, HashView,
    IdentifiableActionView, IssueView, LicenseChoiceView, LicenseIdentifierView, LicenseView,
    MetadataView, OrganizationalContactView, OrganizationalEntityView, PatchView, PedigreeView,
    PropertyView, ServiceView, SourceView, SwidView, ToolView,
};
use vstd::prelude::*;

verus! {

impl AttachedTextView {
    /// The keys of the JSON object of an attached text: the key of a part that is
    /// always there, and the key of an optional part exactly where the part is
    /// there.
    pub proof fn lemma_json_keys(self)
        ensures
            has_key(self.json(), "contentType"@) <==> self.content_type is Some,
            has_key(self.json(), "encoding"@) <==> self.encoding is Some,
            has_key(self.json(), "content"@),
    {
        lemma_keys_of_members();
        reveal_strlit("contentType");
        reveal_strlit("encoding");
        reveal_strlit("content");
        assert("contentType"@.len() == 11);
        assert("encoding"@.len() == 8);
        assert("content"@.len() == 7);
    }

    /// The omission law for an attached text: a part of it that is absent has no key in
    /// the JSON object that schema 1.3 writes for it.
    pub proof fn lemma_absent_parts_are_omitted(c: models::AttachedTextView)
        ensures
            c.content_type is None ==> !has_key(
                AttachedTextView::from_canonical(c).json(),
                "contentType"@,
            ),
            c.encoding is None ==> !has_key(
                AttachedTextView::from_canonical(c).json(),
                "encoding"@,
            ),
    {
        AttachedTextView::from_canonical(c).lemma_json_keys();
    }
}

impl AttachedTextView {
    /// No `null` stands anywhere in the JSON object of an attached text.
    pub proof fn lemma_json_is_null_free(self)
        ensures
            null_free(self.json()),
    {
        lemma_null_free_members();
    }
}

impl HashView {
    /// The keys of the JSON object of a hash: the key of a part that is
    /// always there, and the key of an optional part exactly where the part is
    /// there.
    pub proof fn lemma_json_keys(self)
        ensures
            has_key(self.json(), "alg"@),
            has_key(self.json(), "content"@),
    {
        lemma_keys_of_members();
        reveal_strlit("alg");
        reveal_strlit("content");
        assert("alg"@.len() == 3);
        assert("content"@.len() == 7);
    }
}

impl HashView {
    /// No `null` stands anywhere in the JSON object of a hash.
    pub proof fn lemma_json_is_null_free(self)
        ensures
            null_free(self.json()),
    {
        lemma_null_free_members();
    }

    /// The same for the JSON array of a sequence of them.
    pub proof fn lemma_seq_json_is_null_free(s: Seq<HashView>)
        ensures
            null_free(Json::Array(HashView::seq_json(s))),
    {
        assert forall|i: int| 0 <= i < s.len() implies null_free(
            #[trigger] HashView::seq_json(s)[i],
        ) by {
            s[i].lemma_json_is_null_free();
        }
    }
}

impl OrganizationalContactView {
    /// The keys of the JSON object of an organizational contact: the key of a part that is
    /// always there, and the key of an optional part exactly where the part is
    /// there.
    pub proof fn lemma_json_keys(self)
        ensures
            has_key(self.json(), "name"@) <==> self.name is Some,
            has_key(self.json(), "email"@) <==> self.email is Some,
            has_key(self.json(), "phone"@) <==> self.phone is Some,
    {
        lemma_keys_of_members();
        reveal_strlit("name");
        reveal_strlit("email");
        reveal_strlit("phone");
        assert("name"@.len() == 4);
        assert("email"@.len() == 5);
        assert("phone"@.len() == 5);
        assert("email"@[0] != "phone"@[0]);
    }

    /// The omission law for an organizational contact: a part of it that is absent has no key in
    /// the JSON object that schema 1.3 writes for it.
    pub proof fn lemma_absent_parts_are_omitted(c: models::OrganizationalContactView)
        ensures
            c.name is None ==> !has_key(
                OrganizationalContactView::from_canonical(c).json(),
                "name"@,
            ),
            c.email is None ==> !has_key(
                OrganizationalContactView::from_canonical(c).json(),
                "email"@,
            ),
            c.phone is None ==> !has_key(
                OrganizationalContactView::from_canonical(c).json(),
                "phone"@,
            ),
    {
        OrganizationalContactView::from_canonical(c).lemma_json_keys();
    }
}

impl OrganizationalContactView {
    /// No `null` stands anywhere in the JSON object of an organizational contact.
    pub proof fn lemma_json_is_null_free(self)
        ensures
            null_free(self.json()),
    {
        lemma_null_free_members();
    }

    /// The same for the JSON array of a sequence of them.
    pub proof fn lemma_seq_json_is_null_free(s: Seq<OrganizationalContactView>)
        ensures
            null_free(Json::Array(OrganizationalContactView::seq_json(s))),
    {
        assert forall|i: int| 0 <= i < s.len() implies null_free(
            #[trigger] OrganizationalContactView::seq_json(s)[i],
        ) by {
            s[i].lemma_json_is_null_free();
        }
    }
}

impl OrganizationalEntityView {
    /// The keys of the JSON object of an organizational entity: the key of a part that is
    /// always there, and the key of an optional part exactly where the part is
    /// there.
    pub proof fn lemma_json_keys(self)
        ensures
            has_key(self.json(), "name"@) <==> self.name is Some,
            has_key(self.json(), "url"@) <==> self.url is Some,
            has_key(self.json(), "contact"@) <==> self.contact is Some,
    {
        lemma_keys_of_members();
        reveal_strlit("name");
        reveal_strlit("url");
        reveal_strlit("contact");
        assert("name"@.len() == 4);
        assert("url"@.len() == 3);
        assert("contact"@.len() == 7);
    }

    /// The omission law for an organizational entity: a part of it that is absent has no key in
    /// the JSON object that schema 1.3 writes for it.
    pub proof fn lemma_absent_parts_are_omitted(c: models::OrganizationalEntityView)
        ensures
            c.name is None ==> !has_key(
                OrganizationalEntityView::from_canonical(c).json(),
                "name"@,
            ),
            c.url is None ==> !has_key(OrganizationalEntityView::from_canonical(c).json(), "url"@),
            c.contact is None ==> !has_key(
                OrganizationalEntityView::from_canonical(c).json(),
                "contact"@,
            ),
    {
        OrganizationalEntityView::from_canonical(c).lemma_json_keys();
    }
}

impl OrganizationalEntityView {
    /// No `null` stands anywhere in the JSON object of an organizational entity.
    pub proof fn lemma_json_is_null_free(self)
        ensures
            null_free(self.json()),
    {
        lemma_null_free_members();
        if self.url is Some {
            lemma_null_free_strings(self.url->0);
        }
        if self.contact is Some {
            OrganizationalContactView::lemma_seq_json_is_null_free(self.contact->0);
        }
    }
}

impl IdentifiableActionView {
    /// The keys of the JSON object of an identifiable action: the key of a part that is
    /// always there, and the key of an optional part exactly where the part is
    /// there.
    pub proof fn lemma_json_keys(self)
        ensures
            has_key(self.json(), "timestamp"@) <==> self.timestamp is Some,
            has_key(self.json(), "name"@) <==> self.name is Some,
            has_key(self.json(), "email"@) <==> self.email is Some,
    {
        lemma_keys_of_members();
        reveal_strlit("timestamp");
        reveal_strlit("name");
        reveal_strlit("email");
        assert("timestamp"@.len() == 9);
        assert("name"@.len() == 4);
        assert("email"@.len() == 5);
    }

    /// The omission law for an identifiable action: a part of it that is absent has no key in
    /// the JSON object that schema 1.3 writes for it.
    pub proof fn lemma_absent_parts_are_omitted(c: models::IdentifiableActionView)
        ensures
            c.timestamp is None ==> !has_key(
                IdentifiableActionView::from_canonical(c).json(),
                "timestamp"@,
            ),
            c.name is None ==> !has_key(IdentifiableActionView::from_canonical(c).json(), "name"@),
            c.email is None ==> !has_key(
                IdentifiableActionView::from_canonical(c).json(),
                "email"@,
            ),
    {
        IdentifiableActionView::from_canonical(c).lemma_json_keys();
    }
}

impl IdentifiableActionView {
    /// No `null` stands anywhere in the JSON object of an identifiable action.
    pub proof fn lemma_json_is_null_free(self)
        ensures
            null_free(self.json()),
    {
        lemma_null_free_members();
    }
}

impl CommitView {
    /// The keys of the JSON object of a commit: the key of a part that is
    /// always there, and the key of an optional part exactly where the part is
    /// there.
    pub proof fn lemma_json_keys(self)
        ensures
            has_key(self.json(), "uid"@) <==> self.uid is Some,
            has_key(self.json(), "url"@) <==> self.url is Some,
            has_key(self.json(), "author"@) <==> self.author is Some,
            has_key(self.json(), "committer"@) <==> self.committer is Some,
            has_key(self.json(), "message"@) <==> self.message is Some,
    {
        lemma_keys_of_members();
        reveal_strlit("uid");
        reveal_strlit("url");
        reveal_strlit("author");
        reveal_strlit("committer");
        reveal_strlit("message");
        assert("uid"@.len() == 3);
        assert("url"@.len() == 3);
        assert("author"@.len() == 6);
        assert("committer"@.len() == 9);
        assert("message"@.len() == 7);
        assert("uid"@[1] != "url"@[1]);
    }

    /// The omission law for a commit: a part of it that is absent has no key in
    /// the JSON object that schema 1.3 writes for it.
    pub proof fn lemma_absent_parts_are_omitted(c: models::CommitView)
        ensures
            c.uid is None ==> !has_key(CommitView::from_canonical(c).json(), "uid"@),
            c.url is None ==> !has_key(CommitView::from_canonical(c).json(), "url"@),
            c.author is None ==> !has_key(CommitView::from_canonical(c).json(), "author"@),
            c.committer is None ==> !has_key(CommitView::from_canonical(c).json(), "committer"@),
            c.message is None ==> !has_key(CommitView::from_canonical(c).json(), "message"@),
    {
        CommitView::from_canonical(c).lemma_json_keys();
    }
}

impl CommitView {
    /// No `null` stands anywhere in the JSON object of a commit.
    pub proof fn lemma_json_is_null_free(self)
        ensures
            null_free(self.json()),
    {
        lemma_null_free_members();
        if self.author is Some {
            self.author->0.lemma_json_is_null_free();
        }
        if self.committer is Some {
            self.committer->0.lemma_json_is_null_free();
        }
    }

    /// The same for the JSON array of a sequence of them.
    pub proof fn lemma_seq_json_is_null_free(s: Seq<CommitView>)
        ensures
            null_free(Json::Array(CommitView::seq_json(s))),
    {
        assert forall|i: int| 0 <= i < s.len() implies null_free(
            #[trigger] CommitView::seq_json(s)[i],
        ) by {
            s[i].lemma_json_is_null_free();
        }
    }
}

impl CompositionView {
    /// The keys of the JSON object of a composition: the key of a part that is
    /// always there, and the key of an optional part exactly where the part is
    /// there.
    pub proof fn lemma_json_keys(self)
        ensures
            has_key(self.json(), "aggregate"@),
            has_key(self.json(), "assemblies"@) <==> self.assemblies is Some,
            has_key(self.json(), "dependencies"@) <==> self.dependencies is Some,
    {
        lemma_keys_of_members();
        reveal_strlit("aggregate");
        reveal_strlit("assemblies");
        reveal_strlit("dependencies");
        assert("aggregate"@.len() == 9);
        assert("assemblies"@.len() == 10);
        assert("dependencies"@.len() == 12);
    }

    /// The omission law for a composition: a part of it that is absent has no key in
    /// the JSON object that schema 1.3 writes for it.
    pub proof fn lemma_absent_parts_are_omitted(c: models::CompositionView)
        ensures
            c.assemblies is None ==> !has_key(
                CompositionView::from_canonical(c).json(),
                "assemblies"@,
            ),
            c.dependencies is None ==> !has_key(
                CompositionView::from_canonical(c).json(),
                "dependencies"@,
            ),
    {
        CompositionView::from_canonical(c).lemma_json_keys();
    }
}

impl CompositionView {
    /// No `null` stands anywhere in the JSON object of a composition.
    pub proof fn lemma_json_is_null_free(self)
        ensures
            null_free(self.json()),
    {
        lemma_null_free_members();
        if self.assemblies is Some {
            lemma_null_free_strings(self.assemblies->0);
        }
        if self.dependencies is Some {
            lemma_null_free_strings(self.dependencies->0);
        }
    }

    /// The same for the JSON array of a sequence of them.
    pub proof fn lemma_seq_json_is_null_free(s: Seq<CompositionView>)
        ensures
            null_free(Json::Array(CompositionView::seq_json(s))),
    {
        assert forall|i: int| 0 <= i < s.len() implies null_free(
            #[trigger] CompositionView::seq_json(s)[i],
        ) by {
            s[i].lemma_json_is_null_free();
        }
    }
}

impl DataClassificationView {
    /// The keys of the JSON object of a data classification: the key of a part that is
    /// always there, and the key of an optional part exactly where the part is
    /// there.
    pub proof fn lemma_json_keys(self)
        ensures
            has_key(self.json(), "flow"@),
            has_key(self.json(), "classification"@),
    {
        lemma_keys_of_members();
        reveal_strlit("flow");
        reveal_strlit("classification");
        assert("flow"@.len() == 4);
        assert("classification"@.len() == 14);
    }
}

impl DataClassificationView {
    /// No `null` stands anywhere in the JSON object of a data classification.
    pub proof fn lemma_json_is_null_free(self)
        ensures
            null_free(self.json()),
    {
        lemma_null_free_members();
    }

    /// The same for the JSON array of a sequence of them.
    pub proof fn lemma_seq_json_is_null_free(s: Seq<DataClassificationView>)
        ensures
            null_free(Json::Array(DataClassificationView::seq_json(s))),
    {
        assert forall|i: int| 0 <= i < s.len() implies null_free(
            #[trigger] DataClassificationView::seq_json(s)[i],
        ) by {
            s[i].lemma_json_is_null_free();
        }
    }
}

impl DiffView {
    /// The keys of the JSON object of a diff: the key of a part that is
    /// always there, and the key of an optional part exactly where the part is
    /// there.
    pub proof fn lemma_json_keys(self)
        ensures
            has_key(self.json(), "text"@) <==> self.text is Some,
            has_key(self.json(), "url"@) <==> self.url is Some,
    {
        lemma_keys_of_members();
        reveal_strlit("text");
        reveal_strlit("url");
        assert("text"@.len() == 4);
        assert("url"@.len() == 3);
    }

    /// The omission law for a diff: a part of it that is absent has no key in
    /// the JSON object that schema 1.3 writes for it.
    pub proof fn lemma_absent_parts_are_omitted(c: models::DiffView)
        ensures
            c.text is None ==> !has_key(DiffView::from_canonical(c).json(), "text"@),
            c.url is None ==> !has_key(DiffView::from_canonical(c).json(), "url"@),
    {
        DiffView::from_canonical(c).lemma_json_keys();
    }
}

impl DiffView {
    /// No `null` stands anywhere in the JSON object of a diff.
    pub proof fn lemma_json_is_null_free(self)
        ensures
            null_free(self.json()),
    {
        lemma_null_free_members();
        if self.text is Some {
            self.text->0.lemma_json_is_null_free();
        }
    }
}

impl ExternalReferenceView {
    /// The keys of the JSON object of an external reference: the key of a part that is
    /// always there, and the key of an optional part exactly where the part is
    /// there.
    pub proof fn lemma_json_keys(self)
        ensures
            has_key(self.json(), "type"@),
            has_key(self.json(), "url"@),
            has_key(self.json(), "comment"@) <==> self.comment is Some,
            has_key(self.json(), "hashes"@) <==> self.hashes is Some,
    {
        lemma_keys_of_members();
        reveal_strlit("type");
        reveal_strlit("url");
        reveal_strlit("comment");
        reveal_strlit("hashes");
        assert("type"@.len() == 4);
        assert("url"@.len() == 3);
        assert("comment"@.len() == 7);
        assert("hashes"@.len() == 6);
    }

    /// The omission law for an external reference: a part of it that is absent has no key in
    /// the JSON object that schema 1.3 writes for it.
    pub proof fn lemma_absent_parts_are_omitted(c: models::ExternalReferenceView)
        ensures
            c.comment is None ==> !has_key(
                ExternalReferenceView::from_canonical(c).json(),
                "comment"@,
            ),
            c.hashes is None ==> !has_key(
                ExternalReferenceView::from_canonical(c).json(),
                "hashes"@,
            ),
    {
        ExternalReferenceView::from_canonical(c).lemma_json_keys();
    }
}

impl ExternalReferenceView {
    /// No `null` stands anywhere in the JSON object of an external reference.
    pub proof fn lemma_json_is_null_free(self)
        ensures
            null_free(self.json()),
    {
        lemma_null_free_members();
        if self.hashes is Some {
            HashView::lemma_seq_json_is_null_free(self.hashes->0);
        }
    }

    /// The same for the JSON array of a sequence of them.
    pub proof fn lemma_seq_json_is_null_free(s: Seq<ExternalReferenceView>)
        ensures
            null_free(Json::Array(ExternalReferenceView::seq_json(s))),
    {
        assert forall|i: int| 0 <= i < s.len() implies null_free(
            #[trigger] ExternalReferenceView::seq_json(s)[i],
        ) by {
            s[i].lemma_json_is_null_free();
        }
    }
}

impl SourceView {
    /// The keys of the JSON object of a source: the key of a part that is
    /// always there, and the key of an optional part exactly where the part is
    /// there.
    pub proof fn lemma_json_keys(self)
        ensures
            has_key(self.json(), "name"@) <==> self.name is Some,
            has_key(self.json(), "url"@) <==> self.url is Some,
    {
        lemma_keys_of_members();
        reveal_strlit("name");
        reveal_strlit("url");
        assert("name"@.len() == 4);
        assert("url"@.len() == 3);
    }

    /// The omission law for a source: a part of it that is absent has no key in
    /// the JSON object that schema 1.3 writes for it.
    pub proof fn lemma_absent_parts_are_omitted(c: models::SourceView)
        ensures
            c.name is None ==> !has_key(SourceView::from_canonical(c).json(), "name"@),
            c.url is None ==> !has_key(SourceView::from_canonical(c).json(), "url"@),
    {
        SourceView::from_canonical(c).lemma_json_keys();
    }
}

impl SourceView {
    /// No `null` stands anywhere in the JSON object of a source.
    pub proof fn lemma_json_is_null_free(self)
        ensures
            null_free(self.json()),
    {
        lemma_null_free_members();
    }
}

impl IssueView {
    /// The keys of the JSON object of an issue: the key of a part that is
    /// always there, and the key of an optional part exactly where the part is
    /// there.
    pub proof fn lemma_json_keys(self)
        ensures
            has_key(self.json(), "type"@),
            has_key(self.json(), "id"@) <==> self.id is Some,
            has_key(self.json(), "name"@) <==> self.name is Some,
            has_key(self.json(), "description"@) <==> self.description is Some,
            has_key(self.json(), "source"@) <==> self.source is Some,
            has_key(self.json(), "references"@) <==> self.references is Some,
    {
        lemma_keys_of_members();
        reveal_strlit("type");
        reveal_strlit("id");
        reveal_strlit("name");
        reveal_strlit("description");
        reveal_strlit("source");
        reveal_strlit("references");
        assert("type"@.len() == 4);
        assert("id"@.len() == 2);
        assert("name"@.len() == 4);
        assert("description"@.len() == 11);
        assert("source"@.len() == 6);
        assert("references"@.len() == 10);
        assert("type"@[0] != "name"@[0]);
    }

    /// The omission law for an issue: a part of it that is absent has no key in
    /// the JSON object that schema 1.3 writes for it.
    pub proof fn lemma_absent_parts_are_omitted(c: models::IssueView)
        ensures
            c.id is None ==> !has_key(IssueView::from_canonical(c).json(), "id"@),
            c.name is None ==> !has_key(IssueView::from_canonical(c).json(), "name"@),
            c.description is None ==> !has_key(IssueView::from_canonical(c).json(), "description"@),
            c.source is None ==> !has_key(IssueView::from_canonical(c).json(), "source"@),
            c.references is None ==> !has_key(IssueView::from_canonical(c).json(), "references"@),
    {
        IssueView::from_canonical(c).lemma_json_keys();
    }
}

impl IssueView {
    /// No `null` stands anywhere in the JSON object of an issue.
    pub proof fn lemma_json_is_null_free(self)
        ensures
            null_free(self.json()),
    {
        lemma_null_free_members();
        if self.source is Some {
            self.source->0.lemma_json_is_null_free();
        }
        if self.references is Some {
            lemma_null_free_strings(self.references->0);
        }
    }

    /// The same for the JSON array of a sequence of them.
    pub proof fn lemma_seq_json_is_null_free(s: Seq<IssueView>)
        ensures
            null_free(Json::Array(IssueView::seq_json(s))),
    {
        assert forall|i: int| 0 <= i < s.len() implies null_free(
            #[trigger] IssueView::seq_json(s)[i],
        ) by {
            s[i].lemma_json_is_null_free();
        }
    }
}

impl LicenseView {
    /// The keys of the JSON object of a license: the key of a part that is
    /// always there, and the key of an optional part exactly where the part is
    /// there.
    pub proof fn lemma_json_keys(self)
        ensures
            has_key(self.json(), "id"@) <==> self.license_identifier is SpdxId,
            has_key(self.json(), "name"@) <==> self.license_identifier is Name,
            has_key(self.json(), "text"@) <==> self.text is Some,
            has_key(self.json(), "url"@) <==> self.url is Some,
    {
        lemma_keys_of_members();
        reveal_strlit("id");
        reveal_strlit("name");
        reveal_strlit("text");
        reveal_strlit("url");
        assert("id"@.len() == 2);
        assert("name"@.len() == 4);
        assert("text"@.len() == 4);
        assert("url"@.len() == 3);
        assert("name"@[0] != "text"@[0]);
    }

    /// The omission law for a license: a part of it that is absent has no key in
    /// the JSON object that schema 1.3 writes for it.
    pub proof fn lemma_absent_parts_are_omitted(c: models::LicenseView)
        ensures
            c.text is None ==> !has_key(LicenseView::from_canonical(c).json(), "text"@),
            c.url is None ==> !has_key(LicenseView::from_canonical(c).json(), "url"@),
    {
        LicenseView::from_canonical(c).lemma_json_keys();
    }
}

impl LicenseView {
    /// No `null` stands anywhere in the JSON object of a license.
    pub proof fn lemma_json_is_null_free(self)
        ensures
            null_free(self.json()),
    {
        lemma_null_free_members();
        if self.text is Some {
            self.text->0.lemma_json_is_null_free();
        }
    }
}

impl PatchView {
    /// The keys of the JSON object of a patch: the key of a part that is
    /// always there, and the key of an optional part exactly where the part is
    /// there.
    pub proof fn lemma_json_keys(self)
        ensures
            has_key(self.json(), "type"@),
            has_key(self.json(), "diff"@),
            has_key(self.json(), "resolves"@) <==> self.resolves is Some,
    {
        lemma_keys_of_members();
        reveal_strlit("type");
        reveal_strlit("diff");
        reveal_strlit("resolves");
        assert("type"@.len() == 4);
        assert("diff"@.len() == 4);
        assert("resolves"@.len() == 8);
        assert("type"@[0] != "diff"@[0]);
    }

    /// The omission law for a patch: a part of it that is absent has no key in
    /// the JSON object that schema 1.3 writes for it.
    pub proof fn lemma_absent_parts_are_omitted(c: models::PatchView)
        ensures
            c.resolves is None ==> !has_key(PatchView::from_canonical(c).json(), "resolves"@),
    {
        PatchView::from_canonical(c).lemma_json_keys();
    }
}

impl PatchView {
    /// No `null` stands anywhere in the JSON object of a patch.
    pub proof fn lemma_json_is_null_free(self)
        ensures
            null_free(self.json()),
    {
        lemma_null_free_members();
        self.diff.lemma_json_is_null_free();
        if self.resolves is Some {
            IssueView::lemma_seq_json_is_null_free(self.resolves->0);
        }
    }

    /// The same for the JSON array of a sequence of them.
    pub proof fn lemma_seq_json_is_null_free(s: Seq<PatchView>)
        ensures
            null_free(Json::Array(PatchView::seq_json(s))),
    {
        assert forall|i: int| 0 <= i < s.len() implies null_free(
            #[trigger] PatchView::seq_json(s)[i],
        ) by {
            s[i].lemma_json_is_null_free();
        }
    }
}

impl PropertyView {
    /// The keys of the JSON object of a property: the key of a part that is
    /// always there, and the key of an optional part exactly where the part is
    /// there.
    pub proof fn lemma_json_keys(self)
        ensures
            has_key(self.json(), "name"@),
            has_key(self.json(), "value"@),
    {
        lemma_keys_of_members();
        reveal_strlit("name");
        reveal_strlit("value");
        assert("name"@.len() == 4);
        assert("value"@.len() == 5);
    }
}

impl PropertyView {
    /// No `null` stands anywhere in the JSON object of a property.
    pub proof fn lemma_json_is_null_free(self)
        ensures
            null_free(self.json()),
    {
        lemma_null_free_members();
    }

    /// The same for the JSON array of a sequence of them.
    pub proof fn lemma_seq_json_is_null_free(s: Seq<PropertyView>)
        ensures
            null_free(Json::Array(PropertyView::seq_json(s))),
    {
        assert forall|i: int| 0 <= i < s.len() implies null_free(
            #[trigger] PropertyView::seq_json(s)[i],
        ) by {
            s[i].lemma_json_is_null_free();
        }
    }
}

impl SwidView {
    /// The keys of the JSON object of a swid: the key of a part that is
    /// always there, and the key of an optional part exactly where the part is
    /// there.
    pub proof fn lemma_json_keys(self)
        ensures
            has_key(self.json(), "tagId"@),
            has_key(self.json(), "name"@),
            has_key(self.json(), "version"@) <==> self.version is Some,
            has_key(self.json(), "tagVersion"@) <==> self.tag_version is Some,
            has_key(self.json(), "patch"@) <==> self.patch is Some,
            has_key(self.json(), "text"@) <==> self.text is Some,
            has_key(self.json(), "url"@) <==> self.url is Some,
    {
        lemma_keys_of_members();
        reveal_strlit("tagId");
        reveal_strlit("name");
        reveal_strlit("version");
        reveal_strlit("tagVersion");
        reveal_strlit("patch");
        reveal_strlit("text");
        reveal_strlit("url");
        assert("tagId"@.len() == 5);
        assert("name"@.len() == 4);
        assert("version"@.len() == 7);
        assert("tagVersion"@.len() == 10);
        assert("patch"@.len() == 5);
        assert("text"@.len() == 4);
        assert("url"@.len() == 3);
        assert("tagId"@[0] != "patch"@[0]);
        assert("name"@[0] != "text"@[0]);
    }

    /// The omission law for a swid: a part of it that is absent has no key in
    /// the JSON object that schema 1.3 writes for it.
    pub proof fn lemma_absent_parts_are_omitted(c: models::SwidView)
        ensures
            c.version is None ==> !has_key(SwidView::from_canonical(c).json(), "version"@),
            c.tag_version is None ==> !has_key(SwidView::from_canonical(c).json(), "tagVersion"@),
            c.patch is None ==> !has_key(SwidView::from_canonical(c).json(), "patch"@),
            c.text is None ==> !has_key(SwidView::from_canonical(c).json(), "text"@),
            c.url is None ==> !has_key(SwidView::from_canonical(c).json(), "url"@),
    {
        SwidView::from_canonical(c).lemma_json_keys();
    }
}

impl SwidView {
    /// No `null` stands anywhere in the JSON object of a swid.
    pub proof fn lemma_json_is_null_free(self)
        ensures
            null_free(self.json()),
    {
        lemma_null_free_members();
        if self.text is Some {
            self.text->0.lemma_json_is_null_free();
        }
    }
}

impl ToolView {
    /// The keys of the JSON object of a tool: the key of a part that is
    /// always there, and the key of an optional part exactly where the part is
    /// there.
    pub proof fn lemma_json_keys(self)
        ensures
            has_key(self.json(), "vendor"@) <==> self.vendor is Some,
            has_key(self.json(), "name"@) <==> self.name is Some,
            has_key(self.json(), "version"@) <==> self.version is Some,
            has_key(self.json(), "hashes"@) <==> self.hashes is Some,
    {
        lemma_keys_of_members();
        reveal_strlit("vendor");
        reveal_strlit("name");
        reveal_strlit("version");
        reveal_strlit("hashes");
        assert("vendor"@.len() == 6);
        assert("name"@.len() == 4);
        assert("version"@.len() == 7);
        assert("hashes"@.len() == 6);
        assert("vendor"@[0] != "hashes"@[0]);
    }

    /// The omission law for a tool: a part of it that is absent has no key in
    /// the JSON object that schema 1.3 writes for it.
    pub proof fn lemma_absent_parts_are_omitted(c: models::ToolView)
        ensures
            c.vendor is None ==> !has_key(ToolView::from_canonical(c).json(), "vendor"@),
            c.name is None ==> !has_key(ToolView::from_canonical(c).json(), "name"@),
            c.version is None ==> !has_key(ToolView::from_canonical(c).json(), "version"@),
            c.hashes is None ==> !has_key(ToolView::from_canonical(c).json(), "hashes"@),
    {
        ToolView::from_canonical(c).lemma_json_keys();
    }
}

impl ToolView {
    /// No `null` stands anywhere in the JSON object of a tool.
    pub proof fn lemma_json_is_null_free(self)
        ensures
            null_free(self.json()),
    {
        lemma_null_free_members();
        if self.hashes is Some {
            HashView::lemma_seq_json_is_null_free(self.hashes->0);
        }
    }

    /// The same for the JSON array of a sequence of them.
    pub proof fn lemma_seq_json_is_null_free(s: Seq<ToolView>)
        ensures
            null_free(Json::Array(ToolView::seq_json(s))),
    {
        assert forall|i: int| 0 <= i < s.len() implies null_free(
            #[trigger] ToolView::seq_json(s)[i],
        ) by {
            s[i].lemma_json_is_null_free();
        }
    }
}

impl ComponentEvidenceView {
    /// The keys of the JSON object of a component evidence: the key of a part that is
    /// always there, and the key of an optional part exactly where the part is
    /// there.
    pub proof fn lemma_json_keys(self)
        ensures
            has_key(self.json(), "licenses"@) <==> self.licenses is Some,
            has_key(self.json(), "copyright"@) <==> self.copyright is Some,
    {
        lemma_keys_of_members();
        reveal_strlit("licenses");
        reveal_strlit("copyright");
        assert("licenses"@.len() == 8);
        assert("copyright"@.len() == 9);
    }

    /// The omission law for a component evidence: a part of it that is absent has no key in
    /// the JSON object that schema 1.3 writes for it.
    pub proof fn lemma_absent_parts_are_omitted(c: models::ComponentEvidenceView)
        ensures
            c.licenses is None ==> !has_key(
                ComponentEvidenceView::from_canonical(c).json(),
                "licenses"@,
            ),
            c.copyright is None ==> !has_key(
                ComponentEvidenceView::from_canonical(c).json(),
                "copyright"@,
            ),
    {
        ComponentEvidenceView::from_canonical(c).lemma_json_keys();
    }
}

impl ComponentEvidenceView {
    /// No `null` stands anywhere in the JSON object of a component evidence.
    pub proof fn lemma_json_is_null_free(self)
        ensures
            null_free(self.json()),
    {
        lemma_null_free_members();
        if self.licenses is Some {
            LicenseChoiceView::lemma_seq_json_is_null_free(self.licenses->0);
        }
        if self.copyright is Some {
            lemma_copyrights_json_is_null_free(self.copyright->0);
        }
    }
}

impl PedigreeView {
    /// The keys of the JSON object of a pedigree: the key of a part that is
    /// always there, and the key of an optional part exactly where the part is
    /// there.
    pub proof fn lemma_json_keys(self)
        ensures
            has_key(self.json(), "ancestors"@) <==> self.ancestors is Some,
            has_key(self.json(), "descendants"@) <==> self.descendants is Some,
            has_key(self.json(), "variants"@) <==> self.variants is Some,
            has_key(self.json(), "commits"@) <==> self.commits is Some,
            has_key(self.json(), "patches"@) <==> self.patches is Some,
            has_key(self.json(), "notes"@) <==> self.notes is Some,
    {
        lemma_keys_of_members();
        reveal_strlit("ancestors");
        reveal_strlit("descendants");
        reveal_strlit("variants");
        reveal_strlit("commits");
        reveal_strlit("patches");
        reveal_strlit("notes");
        assert("ancestors"@.len() == 9);
        assert("descendants"@.len() == 11);
        assert("variants"@.len() == 8);
        assert("commits"@.len() == 7);
        assert("patches"@.len() == 7);
        assert("notes"@.len() == 5);
        assert("commits"@[0] != "patches"@[0]);
    }

    /// The omission law for a pedigree: a part of it that is absent has no key in
    /// the JSON object that schema 1.3 writes for it.
    pub proof fn lemma_absent_parts_are_omitted(c: models::PedigreeView)
        ensures
            c.ancestors is None ==> !has_key(PedigreeView::from_canonical(c).json(), "ancestors"@),
            c.decendants is None ==> !has_key(
                PedigreeView::from_canonical(c).json(),
                "descendants"@,
            ),
            c.variants is None ==> !has_key(PedigreeView::from_canonical(c).json(), "variants"@),
            c.commits is None ==> !has_key(PedigreeView::from_canonical(c).json(), "commits"@),
            c.patches is None ==> !has_key(PedigreeView::from_canonical(c).json(), "patches"@),
            c.notes is None ==> !has_key(PedigreeView::from_canonical(c).json(), "notes"@),
    {
        PedigreeView::from_canonical(c).lemma_json_keys();
    }
}

impl PedigreeView {
    /// No `null` stands anywhere in the JSON object of a pedigree.
    pub proof fn lemma_json_is_null_free(self)
        ensures
            null_free(self.json()),
        decreases self,
    {
        lemma_null_free_members();
        if self.ancestors is Some {
            ComponentView::lemma_seq_json_is_null_free(self.ancestors->0);
        }
        if self.descendants is Some {
            ComponentView::lemma_seq_json_is_null_free(self.descendants->0);
        }
        if self.variants is Some {
            ComponentView::lemma_seq_json_is_null_free(self.variants->0);
        }
        if self.commits is Some {
            CommitView::lemma_seq_json_is_null_free(self.commits->0);
        }
        if self.patches is Some {
            PatchView::lemma_seq_json_is_null_free(self.patches->0);
        }
    }
}

impl ComponentView {
    /// The keys of the JSON object of a component: the key of a part that is
    /// always there, and the key of an optional part exactly where the part is
    /// there.
    pub proof fn lemma_json_keys(self)
        ensures
            has_key(self.json(), "type"@),
            has_key(self.json(), "mime-type"@) <==> self.mime_type is Some,
            has_key(self.json(), "bom-ref"@) <==> self.bom_ref is Some,
            has_key(self.json(), "supplier"@) <==> self.supplier is Some,
            has_key(self.json(), "author"@) <==> self.author is Some,
            has_key(self.json(), "publisher"@) <==> self.publisher is Some,
            has_key(self.json(), "group"@) <==> self.group is Some,
            has_key(self.json(), "name"@),
            has_key(self.json(), "version"@),
            has_key(self.json(), "description"@) <==> self.description is Some,
            has_key(self.json(), "scope"@) <==> self.scope is Some,
            has_key(self.json(), "hashes"@) <==> self.hashes is Some,
            has_key(self.json(), "licenses"@) <==> self.licenses is Some,
            has_key(self.json(), "copyright"@) <==> self.copyright is Some,
            has_key(self.json(), "cpe"@) <==> self.cpe is Some,
            has_key(self.json(), "purl"@) <==> self.purl is Some,
            has_key(self.json(), "swid"@) <==> self.swid is Some,
            has_key(self.json(), "modified"@) <==> self.modified is Some,
            has_key(self.json(), "pedigree"@) <==> self.pedigree is Some,
            has_key(self.json(), "externalReferences"@) <==> self.external_references is Some,
            has_key(self.json(), "properties"@) <==> self.properties is Some,
            has_key(self.json(), "components"@) <==> self.components is Some,
            has_key(self.json(), "evidence"@) <==> self.evidence is Some,
    {
        lemma_keys_of_members();
        reveal_strlit("type");
        reveal_strlit("mime-type");
        reveal_strlit("bom-ref");
        reveal_strlit("supplier");
        reveal_strlit("author");
        reveal_strlit("publisher");
        reveal_strlit("group");
        reveal_strlit("name");
        reveal_strlit("version");
        reveal_strlit("description");
        reveal_strlit("scope");
        reveal_strlit("hashes");
        reveal_strlit("licenses");
        reveal_strlit("copyright");
        reveal_strlit("cpe");
        reveal_strlit("purl");
        reveal_strlit("swid");
        reveal_strlit("modified");
        reveal_strlit("pedigree");
        reveal_strlit("externalReferences");
        reveal_strlit("properties");
        reveal_strlit("components");
        reveal_strlit("evidence");
        assert("type"@.len() == 4);
        assert("mime-type"@.len() == 9);
        assert("bom-ref"@.len() == 7);
        assert("supplier"@.len() == 8);
        assert("author"@.len() == 6);
        assert("publisher"@.len() == 9);
        assert("group"@.len() == 5);
        assert("name"@.len() == 4);
        assert("version"@.len() == 7);
        assert("description"@.len() == 11);
        assert("scope"@.len() == 5);
        assert("hashes"@.len() == 6);
        assert("licenses"@.len() == 8);
        assert("copyright"@.len() == 9);
        assert("cpe"@.len() == 3);
        assert("purl"@.len() == 4);
        assert("swid"@.len() == 4);
        assert("modified"@.len() == 8);
        assert("pedigree"@.len() == 8);
        assert("externalReferences"@.len() == 18);
        assert("properties"@.len() == 10);
        assert("components"@.len() == 10);
        assert("evidence"@.len() == 8);
        assert("type"@[0] != "name"@[0]);
        assert("type"@[0] != "purl"@[0]);
        assert("type"@[0] != "swid"@[0]);
        assert("mime-type"@[0] != "publisher"@[0]);
        assert("mime-type"@[0] != "copyright"@[0]);
        assert("bom-ref"@[0] != "version"@[0]);
        assert("supplier"@[0] != "licenses"@[0]);
        assert("supplier"@[0] != "modified"@[0]);
        assert("supplier"@[0] != "pedigree"@[0]);
        assert("supplier"@[0] != "evidence"@[0]);
        assert("author"@[0] != "hashes"@[0]);
        assert("publisher"@[0] != "copyright"@[0]);
        assert("group"@[0] != "scope"@[0]);
        assert("name"@[0] != "purl"@[0]);
        assert("name"@[0] != "swid"@[0]);
        assert("licenses"@[0] != "modified"@[0]);
        assert("licenses"@[0] != "pedigree"@[0]);
        assert("licenses"@[0] != "evidence"@[0]);
        assert("purl"@[0] != "swid"@[0]);
        assert("modified"@[0] != "pedigree"@[0]);
        assert("modified"@[0] != "evidence"@[0]);
        assert("pedigree"@[0] != "evidence"@[0]);
        assert("properties"@[0] != "components"@[0]);
    }

    /// The omission law for a component: a part of it that is absent has no key in
    /// the JSON object that schema 1.3 writes for it.
    pub proof fn lemma_absent_parts_are_omitted(c: models::ComponentView)
        ensures
            c.mime_type is None ==> !has_key(ComponentView::from_canonical(c).json(), "mime-type"@),
            c.bom_ref is None ==> !has_key(ComponentView::from_canonical(c).json(), "bom-ref"@),
            c.supplier is None ==> !has_key(ComponentView::from_canonical(c).json(), "supplier"@),
            c.author is None ==> !has_key(ComponentView::from_canonical(c).json(), "author"@),
            c.publisher is None ==> !has_key(ComponentView::from_canonical(c).json(), "publisher"@),
            c.group is None ==> !has_key(ComponentView::from_canonical(c).json(), "group"@),
            c.description is None ==> !has_key(
                ComponentView::from_canonical(c).json(),
                "description"@,
            ),
            c.scope is None ==> !has_key(ComponentView::from_canonical(c).json(), "scope"@),
            c.hashes is None ==> !has_key(ComponentView::from_canonical(c).json(), "hashes"@),
            c.licenses is None ==> !has_key(ComponentView::from_canonical(c).json(), "licenses"@),
            c.copyright is None ==> !has_key(ComponentView::from_canonical(c).json(), "copyright"@),
            c.cpe is None ==> !has_key(ComponentView::from_canonical(c).json(), "cpe"@),
            c.purl is None ==> !has_key(ComponentView::from_canonical(c).json(), "purl"@),
            c.swid is None ==> !has_key(ComponentView::from_canonical(c).json(), "swid"@),
            c.modified is None ==> !has_key(ComponentView::from_canonical(c).json(), "modified"@),
            c.pedigree is None ==> !has_key(ComponentView::from_canonical(c).json(), "pedigree"@),
            c.external_references is None ==> !has_key(
                ComponentView::from_canonical(c).json(),
                "externalReferences"@,
            ),
            c.properties is None ==> !has_key(
                ComponentView::from_canonical(c).json(),
                "properties"@,
            ),
            c.components is None ==> !has_key(
                ComponentView::from_canonical(c).json(),
                "components"@,
            ),
            c.evidence is None ==> !has_key(ComponentView::from_canonical(c).json(), "evidence"@),
    {
        ComponentView::from_canonical(c).lemma_json_keys();
    }
}

impl ComponentView {
    /// No `null` stands anywhere in the JSON object of a component.
    pub proof fn lemma_json_is_null_free(self)
        ensures
            null_free(self.json()),
        decreases self,
    {
        lemma_null_free_members();
        if self.supplier is Some {
            self.supplier->0.lemma_json_is_null_free();
        }
        if self.hashes is Some {
            HashView::lemma_seq_json_is_null_free(self.hashes->0);
        }
        if self.licenses is Some {
            LicenseChoiceView::lemma_seq_json_is_null_free(self.licenses->0);
        }
        if self.swid is Some {
            self.swid->0.lemma_json_is_null_free();
        }
        if self.pedigree is Some {
            self.pedigree->0.lemma_json_is_null_free();
        }
        if self.external_references is Some {
            ExternalReferenceView::lemma_seq_json_is_null_free(self.external_references->0);
        }
        if self.properties is Some {
            PropertyView::lemma_seq_json_is_null_free(self.properties->0);
        }
        if self.components is Some {
            ComponentView::lemma_seq_json_is_null_free(self.components->0);
        }
        if self.evidence is Some {
            self.evidence->0.lemma_json_is_null_free();
        }
    }

    /// The same for the JSON array of a sequence of them.
    pub proof fn lemma_seq_json_is_null_free(s: Seq<ComponentView>)
        ensures
            null_free(Json::Array(ComponentView::seq_json(s))),
        decreases s,
    {
        assert forall|i: int| 0 <= i < s.len() implies null_free(
            #[trigger] ComponentView::seq_json(s)[i],
        ) by {
            s[i].lemma_json_is_null_free();
        }
    }
}

impl ServiceView {
    /// The keys of the JSON object of a service: the key of a part that is
    /// always there, and the key of an optional part exactly where the part is
    /// there.
    pub proof fn lemma_json_keys(self)
        ensures
            has_key(self.json(), "bom-ref"@) <==> self.bom_ref is Some,
            has_key(self.json(), "provider"@) <==> self.provider is Some,
            has_key(self.json(), "group"@) <==> self.group is Some,
            has_key(self.json(), "name"@),
            has_key(self.json(), "version"@) <==> self.version is Some,
            has_key(self.json(), "description"@) <==> self.description is Some,
            has_key(self.json(), "endpoints"@) <==> self.endpoints is Some,
            has_key(self.json(), "authenticated"@) <==> self.authenticated is Some,
            has_key(self.json(), "x-trust-boundary"@) <==> self.x_trust_boundary is Some,
            has_key(self.json(), "data"@) <==> self.data is Some,
            has_key(self.json(), "licenses"@) <==> self.licenses is Some,
            has_key(self.json(), "externalReferences"@) <==> self.external_references is Some,
            has_key(self.json(), "properties"@) <==> self.properties is Some,
            has_key(self.json(), "services"@) <==> self.services is Some,
    {
        lemma_keys_of_members();
        reveal_strlit("bom-ref");
        reveal_strlit("provider");
        reveal_strlit("group");
        reveal_strlit("name");
        reveal_strlit("version");
        reveal_strlit("description");
        reveal_strlit("endpoints");
        reveal_strlit("authenticated");
        reveal_strlit("x-trust-boundary");
        reveal_strlit("data");
        reveal_strlit("licenses");
        reveal_strlit("externalReferences");
        reveal_strlit("properties");
        reveal_strlit("services");
        assert("bom-ref"@.len() == 7);
        assert("provider"@.len() == 8);
        assert("group"@.len() == 5);
        assert("name"@.len() == 4);
        assert("version"@.len() == 7);
        assert("description"@.len() == 11);
        assert("endpoints"@.len() == 9);
        assert("authenticated"@.len() == 13);
        assert("x-trust-boundary"@.len() == 16);
        assert("data"@.len() == 4);
        assert("licenses"@.len() == 8);
        assert("externalReferences"@.len() == 18);
        assert("properties"@.len() == 10);
        assert("services"@.len() == 8);
        assert("bom-ref"@[0] != "version"@[0]);
        assert("provider"@[0] != "licenses"@[0]);
        assert("provider"@[0] != "services"@[0]);
        assert("name"@[0] != "data"@[0]);
        assert("licenses"@[0] != "services"@[0]);
    }

    /// The omission law for a service: a part of it that is absent has no key in
    /// the JSON object that schema 1.3 writes for it.
    pub proof fn lemma_absent_parts_are_omitted(c: models::ServiceView)
        ensures
            c.bom_ref is None ==> !has_key(ServiceView::from_canonical(c).json(), "bom-ref"@),
            c.provider is None ==> !has_key(ServiceView::from_canonical(c).json(), "provider"@),
            c.group is None ==> !has_key(ServiceView::from_canonical(c).json(), "group"@),
            c.version is None ==> !has_key(ServiceView::from_canonical(c).json(), "version"@),
            c.description is None ==> !has_key(
                ServiceView::from_canonical(c).json(),
                "description"@,
            ),
            c.endpoints is None ==> !has_key(ServiceView::from_canonical(c).json(), "endpoints"@),
            c.authenticated is None ==> !has_key(
                ServiceView::from_canonical(c).json(),
                "authenticated"@,
            ),
            c.x_trust_boundary is None ==> !has_key(
                ServiceView::from_canonical(c).json(),
                "x-trust-boundary"@,
            ),
            c.data is None ==> !has_key(ServiceView::from_canonical(c).json(), "data"@),
            c.licenses is None ==> !has_key(ServiceView::from_canonical(c).json(), "licenses"@),
            c.external_references is None ==> !has_key(
                ServiceView::from_canonical(c).json(),
                "externalReferences"@,
            ),
            c.properties is None ==> !has_key(ServiceView::from_canonical(c).json(), "properties"@),
            c.services is None ==> !has_key(ServiceView::from_canonical(c).json(), "services"@),
    {
        ServiceView::from_canonical(c).lemma_json_keys();
    }
}

impl ServiceView {
    /// No `null` stands anywhere in the JSON object of a service.
    pub proof fn lemma_json_is_null_free(self)
        ensures
            null_free(self.json()),
        decreases self,
    {
        lemma_null_free_members();
        if self.provider is Some {
            self.provider->0.lemma_json_is_null_free();
        }
        if self.endpoints is Some {
            lemma_null_free_strings(self.endpoints->0);
        }
        if self.data is Some {
            DataClassificationView::lemma_seq_json_is_null_free(self.data->0);
        }
        if self.licenses is Some {
            LicenseChoiceView::lemma_seq_json_is_null_free(self.licenses->0);
        }
        if self.external_references is Some {
            ExternalReferenceView::lemma_seq_json_is_null_free(self.external_references->0);
        }
        if self.properties is Some {
            PropertyView::lemma_seq_json_is_null_free(self.properties->0);
        }
        if self.services is Some {
            ServiceView::lemma_seq_json_is_null_free(self.services->0);
        }
    }

    /// The same for the JSON array of a sequence of them.
    pub proof fn lemma_seq_json_is_null_free(s: Seq<ServiceView>)
        ensures
            null_free(Json::Array(ServiceView::seq_json(s))),
        decreases s,
    {
        assert forall|i: int| 0 <= i < s.len() implies null_free(
            #[trigger] ServiceView::seq_json(s)[i],
        ) by {
            s[i].lemma_json_is_null_free();
        }
    }
}

impl MetadataView {
    /// The keys of the JSON object of a metadata: the key of a part that is
    /// always there, and the key of an optional part exactly where the part is
    /// there.
    pub proof fn lemma_json_keys(self)
        ensures
            has_key(self.json(), "timestamp"@) <==> self.timestamp is Some,
            has_key(self.json(), "tools"@) <==> self.tools is Some,
            has_key(self.json(), "authors"@) <==> self.authors is Some,
            has_key(self.json(), "component"@) <==> self.component is Some,
            has_key(self.json(), "manufacture"@) <==> self.manufacture is Some,
            has_key(self.json(), "supplier"@) <==> self.supplier is Some,
            has_key(self.json(), "licenses"@) <==> self.licenses is Some,
            has_key(self.json(), "properties"@) <==> self.properties is Some,
    {
        lemma_keys_of_members();
        reveal_strlit("timestamp");
        reveal_strlit("tools");
        reveal_strlit("authors");
        reveal_strlit("component");
        reveal_strlit("manufacture");
        reveal_strlit("supplier");
        reveal_strlit("licenses");
        reveal_strlit("properties");
        assert("timestamp"@.len() == 9);
        assert("tools"@.len() == 5);
        assert("authors"@.len() == 7);
        assert("component"@.len() == 9);
        assert("manufacture"@.len() == 11);
        assert("supplier"@.len() == 8);
        assert("licenses"@.len() == 8);
        assert("properties"@.len() == 10);
        assert("timestamp"@[0] != "component"@[0]);
        assert("supplier"@[0] != "licenses"@[0]);
    }

    /// The omission law for a metadata: a part of it that is absent has no key in
    /// the JSON object that schema 1.3 writes for it.
    pub proof fn lemma_absent_parts_are_omitted(c: models::MetadataView)
        ensures
            c.timestamp is None ==> !has_key(MetadataView::from_canonical(c).json(), "timestamp"@),
            c.tools is None ==> !has_key(MetadataView::from_canonical(c).json(), "tools"@),
            c.authors is None ==> !has_key(MetadataView::from_canonical(c).json(), "authors"@),
            c.component is None ==> !has_key(MetadataView::from_canonical(c).json(), "component"@),
            c.manufacture is None ==> !has_key(
                MetadataView::from_canonical(c).json(),
                "manufacture"@,
            ),
            c.supplier is None ==> !has_key(MetadataView::from_canonical(c).json(), "supplier"@),
            c.licenses is None ==> !has_key(MetadataView::from_canonical(c).json(), "licenses"@),
            c.properties is None ==> !has_key(
                MetadataView::from_canonical(c).json(),
                "properties"@,
            ),
    {
        MetadataView::from_canonical(c).lemma_json_keys();
    }
}

impl MetadataView {
    /// No `null` stands anywhere in the JSON object of a metadata.
    pub proof fn lemma_json_is_null_free(self)
        ensures
            null_free(self.json()),
    {
        lemma_null_free_members();
        if self.tools is Some {
            ToolView::lemma_seq_json_is_null_free(self.tools->0);
        }
        if self.authors is Some {
            OrganizationalContactView::lemma_seq_json_is_null_free(self.authors->0);
        }
        if self.component is Some {
            self.component->0.lemma_json_is_null_free();
        }
        if self.manufacture is Some {
            self.manufacture->0.lemma_json_is_null_free();
        }
        if self.supplier is Some {
            self.supplier->0.lemma_json_is_null_free();
        }
        if self.licenses is Some {
            LicenseChoiceView::lemma_seq_json_is_null_free(self.licenses->0);
        }
        if self.properties is Some {
            PropertyView::lemma_seq_json_is_null_free(self.properties->0);
        }
    }
}

impl LicenseChoiceView {
    /// The keys of the JSON object of an entry of a list of licenses:
    /// `license` or `expression`, whichever the entry holds, and no key for
    /// an entry that holds neither.
    pub proof fn lemma_json_keys(self)
        ensures
            has_key(self.json(), "license"@) <==> self matches LicenseChoiceView::License(Some(_)),
            has_key(self.json(), "expression"@) <==> self matches LicenseChoiceView::Expression(
                Some(_),
            ),
    {
        lemma_keys_of_members();
        reveal_strlit("license");
        reveal_strlit("expression");
        assert("license"@.len() == 7);
        assert("expression"@.len() == 10);
    }
}

impl LicenseIdentifierView {
    /// The member that names a license holds no `null`.
    pub proof fn lemma_json_member_is_null_free(self, m: Members)
        ensures
            null_free(self.json_member(m).object()) <==> null_free(m.object()),
    {
        lemma_null_free_members();
    }
}

impl LicenseChoiceView {
    /// No `null` stands anywhere in the JSON object of an entry of a list
    /// of licenses.
    pub proof fn lemma_json_is_null_free(self)
        ensures
            null_free(self.json()),
    {
        lemma_null_free_members();
        match self {
            LicenseChoiceView::License(Some(license)) => {
                license.lemma_json_is_null_free();
            },
            _ => {},
        }
    }

    /// The same for the JSON array of a sequence of them.
    pub proof fn lemma_seq_json_is_null_free(s: Seq<LicenseChoiceView>)
        ensures
            null_free(Json::Array(LicenseChoiceView::seq_json(s))),
    {
        assert forall|i: int| 0 <= i < s.len() implies null_free(
            #[trigger] LicenseChoiceView::seq_json(s)[i],
        ) by {
            s[i].lemma_json_is_null_free();
        }
    }
}

impl DependencyView {
    /// No `null` stands anywhere in the JSON object of a dependency.
    pub proof fn lemma_json_is_null_free(self)
        ensures
            null_free(self.json()),
    {
        lemma_null_free_members();
        lemma_null_free_strings(self.depends_on);
    }

    /// The same for the JSON array of a sequence of them.
    pub proof fn lemma_seq_json_is_null_free(s: Seq<DependencyView>)
        ensures
            null_free(Json::Array(DependencyView::seq_json(s))),
    {
        assert forall|i: int| 0 <= i < s.len() implies null_free(
            #[trigger] DependencyView::seq_json(s)[i],
        ) by {
            s[i].lemma_json_is_null_free();
        }
    }

    /// The JSON object of a dependency always has both of its keys.
    pub proof fn lemma_json_keys(self)
        ensures
            has_key(self.json(), "ref"@),
            has_key(self.json(), "dependsOn"@),
    {
        lemma_keys_of_members();
    }
}

impl BomView {
    /// The keys of the JSON object of a document: the tag and the version of
    /// the schema always, and the key of every other part exactly where the
    /// part is there.
    pub proof fn lemma_json_keys(self)
        ensures
            has_key(self.json(), "bomFormat"@),
            has_key(self.json(), "specVersion"@),
            has_key(self.json(), "version"@) <==> self.version is Some,
            has_key(self.json(), "serialNumber"@) <==> self.serial_number is Some,
            has_key(self.json(), "metadata"@) <==> self.metadata is Some,
            has_key(self.json(), "components"@) <==> self.components is Some,
            has_key(self.json(), "services"@) <==> self.services is Some,
            has_key(self.json(), "externalReferences"@) <==> self.external_references is Some,
            has_key(self.json(), "dependencies"@) <==> self.dependencies is Some,
            has_key(self.json(), "compositions"@) <==> self.compositions is Some,
            has_key(self.json(), "properties"@) <==> self.properties is Some,
    {
        lemma_keys_of_members();
        reveal_strlit("bomFormat");
        reveal_strlit("specVersion");
        reveal_strlit("version");
        reveal_strlit("serialNumber");
        reveal_strlit("metadata");
        reveal_strlit("components");
        reveal_strlit("services");
        reveal_strlit("externalReferences");
        reveal_strlit("dependencies");
        reveal_strlit("compositions");
        reveal_strlit("properties");
        assert("bomFormat"@.len() == 9);
        assert("specVersion"@.len() == 11);
        assert("version"@.len() == 7);
        assert("serialNumber"@.len() == 12);
        assert("metadata"@.len() == 8);
        assert("components"@.len() == 10);
        assert("services"@.len() == 8);
        assert("externalReferences"@.len() == 18);
        assert("dependencies"@.len() == 12);
        assert("compositions"@.len() == 12);
        assert("properties"@.len() == 10);
        assert("serialNumber"@[0] != "dependencies"@[0]);
        assert("serialNumber"@[0] != "compositions"@[0]);
        assert("dependencies"@[0] != "compositions"@[0]);
        assert("metadata"@[0] != "services"@[0]);
        assert("components"@[0] != "properties"@[0]);
    }

    /// The omission law for a document: a part of it that is absent has no
    /// key in the JSON object that schema 1.3 writes for it, while the tag,
    /// the version of the schema and the version of the document are always
    /// written.
    pub proof fn lemma_absent_parts_are_omitted(c: models::BomView)
        ensures
            has_key(BomView::from_canonical(c).json(), "bomFormat"@),
            has_key(BomView::from_canonical(c).json(), "specVersion"@),
            has_key(BomView::from_canonical(c).json(), "version"@),
            c.serial_number is None ==> !has_key(
                BomView::from_canonical(c).json(),
                "serialNumber"@,
            ),
            c.metadata is None ==> !has_key(BomView::from_canonical(c).json(), "metadata"@),
            c.components is None ==> !has_key(BomView::from_canonical(c).json(), "components"@),
            c.services is None ==> !has_key(BomView::from_canonical(c).json(), "services"@),
            c.external_references is None ==> !has_key(
                BomView::from_canonical(c).json(),
                "externalReferences"@,
            ),
            c.dependencies is None ==> !has_key(
                BomView::from_canonical(c).json(),
                "dependencies"@,
            ),
            c.compositions is None ==> !has_key(
                BomView::from_canonical(c).json(),
                "compositions"@,
            ),
            c.properties is None ==> !has_key(BomView::from_canonical(c).json(), "properties"@),
    {
        BomView::from_canonical(c).lemma_json_keys();
    }

    /// No `null` stands anywhere in the JSON object of a document: what is
    /// absent is left out, never written as `null`.
    pub proof fn lemma_json_is_null_free(self)
        ensures
            null_free(self.json()),
    {
        lemma_null_free_members();
        if self.metadata is Some {
            self.metadata->0.lemma_json_is_null_free();
        }
        if self.components is Some {
            ComponentView::lemma_seq_json_is_null_free(self.components->0);
        }
        if self.services is Some {
            ServiceView::lemma_seq_json_is_null_free(self.services->0);
        }
        if self.external_references is Some {
            ExternalReferenceView::lemma_seq_json_is_null_free(self.external_references->0);
        }
        if self.dependencies is Some {
            DependencyView::lemma_seq_json_is_null_free(self.dependencies->0);
        }
        if self.compositions is Some {
            CompositionView::lemma_seq_json_is_null_free(self.compositions->0);
        }
        if self.properties is Some {
            PropertyView::lemma_seq_json_is_null_free(self.properties->0);
        }
    }

    /// Writing is a function of what the document holds: two documents with
    /// the same parts are written as the same text, character for
    /// character.
    pub proof fn lemma_json_text_is_determined(a: models::BomView, b: models::BomView)
        requires
            a == b,
        ensures
            BomView::from_canonical(a).json_text() == BomView::from_canonical(b).json_text(),
    {
    }
}

} // verus!
