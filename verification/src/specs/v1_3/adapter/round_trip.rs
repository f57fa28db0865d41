//! What schema 1.3 keeps: shaping a value of the document model for the
//! schema and reading the shape back gives the value again, wherever the
//! schema can carry it; and reading a well-formed shape and shaping what
//! was read gives the shape again.

use crate::models;
use crate::specs::v1_3::tokens::{
    aggregate_type_of_token, aggregate_type_token, classification_of_token, classification_token,
    data_flow_type_of_token, data_flow_type_token, external_reference_type_of_token,
    external_reference_type_token, hash_algorithm_of_token, hash_algorithm_token,
    issue_classification_of_token, issue_classification_token, lemma_aggregate_type_round_trip,
    lemma_classification_round_trip, lemma_data_flow_type_round_trip,
    lemma_external_reference_type_round_trip, lemma_hash_algorithm_round_trip,
    lemma_issue_classification_round_trip, lemma_patch_classification_round_trip,
    lemma_scope_round_trip, patch_classification_of_token, patch_classification_token,
    scope_of_token, scope_token,
};
use crate::specs::v1_3::{
    AttachedTextView, BomView, CommitView, ComponentEvidenceView, ComponentView, CompositionView,
    DataClassificationView, DependencyView, DiffView, ExternalReferenceView, HashView,
    IdentifiableActionView, IssueView, LicenseChoiceView, LicenseIdentifierView, LicenseView,
    MetadataView, OrganizationalContactView, OrganizationalEntityView, PatchView, PedigreeView,
    PropertyView, ServiceView, SourceView, SwidView, ToolView,
};
use vstd::prelude::*;

verus! {

impl AttachedTextView {
    /// Shaping an attached text for schema 1.3 and reading the shape back gives the
    /// attached text again.
    pub proof fn lemma_round_trip(c: models::AttachedTextView)
        ensures
            AttachedTextView::from_canonical(c).to_canonical() == c,
    {
    }

    /// The same for one that may be absent.
    pub proof fn lemma_opt_round_trip(o: Option<models::AttachedTextView>)
        ensures
            o matches Some(c) ==> AttachedTextView::from_canonical(c).to_canonical() == c,
    {
        if o is Some {
            AttachedTextView::lemma_round_trip(o->0);
        }
    }
}

impl AttachedTextView {
    /// Reading the shape of an attached text and shaping what was read gives the shape
    /// again.
    pub proof fn lemma_shape_round_trip(w: AttachedTextView)
        ensures
            AttachedTextView::from_canonical(w.to_canonical()) == w,
    {
    }

    /// The same for one that may be absent.
    pub proof fn lemma_opt_shape_round_trip(o: Option<AttachedTextView>)
        ensures
            o matches Some(w) ==> AttachedTextView::from_canonical(w.to_canonical()) == w,
    {
        if o is Some {
            AttachedTextView::lemma_shape_round_trip(o->0);
        }
    }
}

impl HashView {
    /// Shaping a hash for schema 1.3 and reading the shape back gives the
    /// hash again, and the shape is well formed.
    pub proof fn lemma_round_trip(c: models::HashView)
        ensures
            HashView::from_canonical(c).well_formed(),
            HashView::from_canonical(c).to_canonical() == c,
    {
        lemma_hash_algorithm_round_trip(c.alg, hash_algorithm_token(c.alg));
    }

    /// The same for a sequence of them.
    pub proof fn lemma_seq_round_trip(s: Seq<models::HashView>)
        ensures
            HashView::all_well_formed(HashView::seq_from_canonical(s)),
            HashView::seq_to_canonical(HashView::seq_from_canonical(s)) == s,
    {
        assert forall|i: int| 0 <= i < s.len() implies
            HashView::from_canonical(s[i]).well_formed()
            && HashView::from_canonical(s[i]).to_canonical() == s[i] by {
            HashView::lemma_round_trip(s[i]);
        }
        assert(HashView::seq_to_canonical(HashView::seq_from_canonical(s)) =~= s);
    }

    /// The same for a sequence of them that may be absent.
    pub proof fn lemma_opt_seq_round_trip(o: Option<Seq<models::HashView>>)
        ensures
            o matches Some(s) ==> HashView::all_well_formed(HashView::seq_from_canonical(s)),
            o matches Some(s) ==> HashView::seq_to_canonical(HashView::seq_from_canonical(s)) == s,
    {
        if o is Some {
            HashView::lemma_seq_round_trip(o->0);
        }
    }
}

impl HashView {
    /// Reading the shape of a hash and shaping what was read gives the shape
    /// again, where the shape is well formed.
    pub proof fn lemma_shape_round_trip(w: HashView)
        requires
            w.well_formed(),
        ensures
            HashView::from_canonical(w.to_canonical()) == w,
    {
        lemma_hash_algorithm_round_trip(hash_algorithm_of_token(w.alg).unwrap(), w.alg);
    }

    /// The same for a sequence of them.
    pub proof fn lemma_seq_shape_round_trip(s: Seq<HashView>)
        requires
            HashView::all_well_formed(s),
        ensures
            HashView::seq_from_canonical(HashView::seq_to_canonical(s)) == s,
    {
        assert forall|i: int| 0 <= i < s.len() implies HashView::from_canonical(
            s[i].to_canonical(),
        ) == s[i] by {
            HashView::lemma_shape_round_trip(s[i]);
        }
        assert(HashView::seq_from_canonical(HashView::seq_to_canonical(s)) =~= s);
    }

    /// The same for a sequence of them that may be absent.
    pub proof fn lemma_opt_seq_shape_round_trip(o: Option<Seq<HashView>>)
        requires
            o matches Some(s) ==> HashView::all_well_formed(s),
        ensures
            o matches Some(s) ==> HashView::seq_from_canonical(HashView::seq_to_canonical(s)) == s,
    {
        if o is Some {
            HashView::lemma_seq_shape_round_trip(o->0);
        }
    }
}

impl OrganizationalContactView {
    /// Shaping an organizational contact for schema 1.3 and reading the shape back gives the
    /// organizational contact again.
    pub proof fn lemma_round_trip(c: models::OrganizationalContactView)
        ensures
            OrganizationalContactView::from_canonical(c).to_canonical() == c,
    {
    }

    /// The same for a sequence of them.
    pub proof fn lemma_seq_round_trip(s: Seq<models::OrganizationalContactView>)
        ensures
            OrganizationalContactView::seq_to_canonical(
                OrganizationalContactView::seq_from_canonical(s),
            ) == s,
    {
        assert forall|i: int| 0 <= i < s.len() implies
            OrganizationalContactView::from_canonical(s[i]).to_canonical() == s[i] by {
            OrganizationalContactView::lemma_round_trip(s[i]);
        }
        assert(
            OrganizationalContactView::seq_to_canonical(
                OrganizationalContactView::seq_from_canonical(s),
            ) =~= s
        );
    }

    /// The same for a sequence of them that may be absent.
    pub proof fn lemma_opt_seq_round_trip(o: Option<Seq<models::OrganizationalContactView>>)
        ensures
            o matches Some(s) ==> OrganizationalContactView::seq_to_canonical(
                OrganizationalContactView::seq_from_canonical(s),
            ) == s,
    {
        if o is Some {
            OrganizationalContactView::lemma_seq_round_trip(o->0);
        }
    }
}

impl OrganizationalContactView {
    /// Reading the shape of an organizational contact and shaping what was read gives the shape
    /// again.
    pub proof fn lemma_shape_round_trip(w: OrganizationalContactView)
        ensures
            OrganizationalContactView::from_canonical(w.to_canonical()) == w,
    {
    }

    /// The same for a sequence of them.
    pub proof fn lemma_seq_shape_round_trip(s: Seq<OrganizationalContactView>)
        ensures
            OrganizationalContactView::seq_from_canonical(
                OrganizationalContactView::seq_to_canonical(s),
            ) == s,
    {
        assert forall|i: int| 0 <= i < s.len() implies OrganizationalContactView::from_canonical(
            s[i].to_canonical(),
        ) == s[i] by {
            OrganizationalContactView::lemma_shape_round_trip(s[i]);
        }
        assert(
            OrganizationalContactView::seq_from_canonical(
                OrganizationalContactView::seq_to_canonical(s),
            ) =~= s
        );
    }

    /// The same for a sequence of them that may be absent.
    pub proof fn lemma_opt_seq_shape_round_trip(o: Option<Seq<OrganizationalContactView>>)
        ensures
            o matches Some(s) ==> OrganizationalContactView::seq_from_canonical(
                OrganizationalContactView::seq_to_canonical(s),
            ) == s,
    {
        if o is Some {
            OrganizationalContactView::lemma_seq_shape_round_trip(o->0);
        }
    }
}

impl OrganizationalEntityView {
    /// Shaping an organizational entity for schema 1.3 and reading the shape back gives the
    /// organizational entity again.
    pub proof fn lemma_round_trip(c: models::OrganizationalEntityView)
        ensures
            OrganizationalEntityView::from_canonical(c).to_canonical() == c,
    {
        OrganizationalContactView::lemma_opt_seq_round_trip(c.contact);
    }

    /// The same for one that may be absent.
    pub proof fn lemma_opt_round_trip(o: Option<models::OrganizationalEntityView>)
        ensures
            o matches Some(c) ==> OrganizationalEntityView::from_canonical(c).to_canonical() == c,
    {
        if o is Some {
            OrganizationalEntityView::lemma_round_trip(o->0);
        }
    }
}

impl OrganizationalEntityView {
    /// Reading the shape of an organizational entity and shaping what was read gives the shape
    /// again.
    pub proof fn lemma_shape_round_trip(w: OrganizationalEntityView)
        ensures
            OrganizationalEntityView::from_canonical(w.to_canonical()) == w,
    {
        OrganizationalContactView::lemma_opt_seq_shape_round_trip(w.contact);
    }

    /// The same for one that may be absent.
    pub proof fn lemma_opt_shape_round_trip(o: Option<OrganizationalEntityView>)
        ensures
            o matches Some(w) ==> OrganizationalEntityView::from_canonical(w.to_canonical()) == w,
    {
        if o is Some {
            OrganizationalEntityView::lemma_shape_round_trip(o->0);
        }
    }
}

impl IdentifiableActionView {
    /// Shaping an identifiable action for schema 1.3 and reading the shape back gives the
    /// identifiable action again.
    pub proof fn lemma_round_trip(c: models::IdentifiableActionView)
        ensures
            IdentifiableActionView::from_canonical(c).to_canonical() == c,
    {
    }

    /// The same for one that may be absent.
    pub proof fn lemma_opt_round_trip(o: Option<models::IdentifiableActionView>)
        ensures
            o matches Some(c) ==> IdentifiableActionView::from_canonical(c).to_canonical() == c,
    {
        if o is Some {
            IdentifiableActionView::lemma_round_trip(o->0);
        }
    }
}

impl IdentifiableActionView {
    /// Reading the shape of an identifiable action and shaping what was read gives the shape
    /// again.
    pub proof fn lemma_shape_round_trip(w: IdentifiableActionView)
        ensures
            IdentifiableActionView::from_canonical(w.to_canonical()) == w,
    {
    }

    /// The same for one that may be absent.
    pub proof fn lemma_opt_shape_round_trip(o: Option<IdentifiableActionView>)
        ensures
            o matches Some(w) ==> IdentifiableActionView::from_canonical(w.to_canonical()) == w,
    {
        if o is Some {
            IdentifiableActionView::lemma_shape_round_trip(o->0);
        }
    }
}

impl CommitView {
    /// Shaping a commit for schema 1.3 and reading the shape back gives the
    /// commit again.
    pub proof fn lemma_round_trip(c: models::CommitView)
        ensures
            CommitView::from_canonical(c).to_canonical() == c,
    {
        IdentifiableActionView::lemma_opt_round_trip(c.author);
        IdentifiableActionView::lemma_opt_round_trip(c.committer);
    }

    /// The same for a sequence of them.
    pub proof fn lemma_seq_round_trip(s: Seq<models::CommitView>)
        ensures
            CommitView::seq_to_canonical(CommitView::seq_from_canonical(s)) == s,
    {
        assert forall|i: int| 0 <= i < s.len() implies
            CommitView::from_canonical(s[i]).to_canonical() == s[i] by {
            CommitView::lemma_round_trip(s[i]);
        }
        assert(CommitView::seq_to_canonical(CommitView::seq_from_canonical(s)) =~= s);
    }

    /// The same for a sequence of them that may be absent.
    pub proof fn lemma_opt_seq_round_trip(o: Option<Seq<models::CommitView>>)
        ensures
            o matches Some(s) ==> CommitView::seq_to_canonical(
                CommitView::seq_from_canonical(s),
            ) == s,
    {
        if o is Some {
            CommitView::lemma_seq_round_trip(o->0);
        }
    }
}

impl CommitView {
    /// Reading the shape of a commit and shaping what was read gives the shape
    /// again.
    pub proof fn lemma_shape_round_trip(w: CommitView)
        ensures
            CommitView::from_canonical(w.to_canonical()) == w,
    {
        IdentifiableActionView::lemma_opt_shape_round_trip(w.author);
        IdentifiableActionView::lemma_opt_shape_round_trip(w.committer);
    }

    /// The same for a sequence of them.
    pub proof fn lemma_seq_shape_round_trip(s: Seq<CommitView>)
        ensures
            CommitView::seq_from_canonical(CommitView::seq_to_canonical(s)) == s,
    {
        assert forall|i: int| 0 <= i < s.len() implies CommitView::from_canonical(
            s[i].to_canonical(),
        ) == s[i] by {
            CommitView::lemma_shape_round_trip(s[i]);
        }
        assert(CommitView::seq_from_canonical(CommitView::seq_to_canonical(s)) =~= s);
    }

    /// The same for a sequence of them that may be absent.
    pub proof fn lemma_opt_seq_shape_round_trip(o: Option<Seq<CommitView>>)
        ensures
            o matches Some(s) ==> CommitView::seq_from_canonical(
                CommitView::seq_to_canonical(s),
            ) == s,
    {
        if o is Some {
            CommitView::lemma_seq_shape_round_trip(o->0);
        }
    }
}

impl CompositionView {
    /// Shaping a composition for schema 1.3 and reading the shape back gives the
    /// composition again, and the shape is well formed.
    pub proof fn lemma_round_trip(c: models::CompositionView)
        ensures
            CompositionView::from_canonical(c).well_formed(),
            CompositionView::from_canonical(c).to_canonical() == c,
    {
        lemma_aggregate_type_round_trip(c.aggregate, aggregate_type_token(c.aggregate));
    }

    /// The same for a sequence of them.
    pub proof fn lemma_seq_round_trip(s: Seq<models::CompositionView>)
        ensures
            CompositionView::all_well_formed(CompositionView::seq_from_canonical(s)),
            CompositionView::seq_to_canonical(CompositionView::seq_from_canonical(s)) == s,
    {
        assert forall|i: int| 0 <= i < s.len() implies
            CompositionView::from_canonical(s[i]).well_formed()
            && CompositionView::from_canonical(s[i]).to_canonical() == s[i] by {
            CompositionView::lemma_round_trip(s[i]);
        }
        assert(CompositionView::seq_to_canonical(CompositionView::seq_from_canonical(s)) =~= s);
    }

    /// The same for a sequence of them that may be absent.
    pub proof fn lemma_opt_seq_round_trip(o: Option<Seq<models::CompositionView>>)
        ensures
            o matches Some(s) ==> CompositionView::all_well_formed(
                CompositionView::seq_from_canonical(s),
            ),
            o matches Some(s) ==> CompositionView::seq_to_canonical(
                CompositionView::seq_from_canonical(s),
            ) == s,
    {
        if o is Some {
            CompositionView::lemma_seq_round_trip(o->0);
        }
    }
}

impl CompositionView {
    /// Reading the shape of a composition and shaping what was read gives the shape
    /// again, where the shape is well formed.
    pub proof fn lemma_shape_round_trip(w: CompositionView)
        requires
            w.well_formed(),
        ensures
            CompositionView::from_canonical(w.to_canonical()) == w,
    {
        lemma_aggregate_type_round_trip(aggregate_type_of_token(w.aggregate).unwrap(), w.aggregate);
    }

    /// The same for a sequence of them.
    pub proof fn lemma_seq_shape_round_trip(s: Seq<CompositionView>)
        requires
            CompositionView::all_well_formed(s),
        ensures
            CompositionView::seq_from_canonical(CompositionView::seq_to_canonical(s)) == s,
    {
        assert forall|i: int| 0 <= i < s.len() implies CompositionView::from_canonical(
            s[i].to_canonical(),
        ) == s[i] by {
            CompositionView::lemma_shape_round_trip(s[i]);
        }
        assert(CompositionView::seq_from_canonical(CompositionView::seq_to_canonical(s)) =~= s);
    }

    /// The same for a sequence of them that may be absent.
    pub proof fn lemma_opt_seq_shape_round_trip(o: Option<Seq<CompositionView>>)
        requires
            o matches Some(s) ==> CompositionView::all_well_formed(s),
        ensures
            o matches Some(s) ==> CompositionView::seq_from_canonical(
                CompositionView::seq_to_canonical(s),
            ) == s,
    {
        if o is Some {
            CompositionView::lemma_seq_shape_round_trip(o->0);
        }
    }
}

impl DataClassificationView {
    /// Shaping a data classification for schema 1.3 and reading the shape back gives the
    /// data classification again, and the shape is well formed.
    pub proof fn lemma_round_trip(c: models::DataClassificationView)
        ensures
            DataClassificationView::from_canonical(c).well_formed(),
            DataClassificationView::from_canonical(c).to_canonical() == c,
    {
        lemma_data_flow_type_round_trip(c.flow, data_flow_type_token(c.flow));
    }

    /// The same for a sequence of them.
    pub proof fn lemma_seq_round_trip(s: Seq<models::DataClassificationView>)
        ensures
            DataClassificationView::all_well_formed(DataClassificationView::seq_from_canonical(s)),
            DataClassificationView::seq_to_canonical(
                DataClassificationView::seq_from_canonical(s),
            ) == s,
    {
        assert forall|i: int| 0 <= i < s.len() implies
            DataClassificationView::from_canonical(s[i]).well_formed()
            && DataClassificationView::from_canonical(s[i]).to_canonical() == s[i] by {
            DataClassificationView::lemma_round_trip(s[i]);
        }
        assert(
            DataClassificationView::seq_to_canonical(
                DataClassificationView::seq_from_canonical(s),
            ) =~= s
        );
    }

    /// The same for a sequence of them that may be absent.
    pub proof fn lemma_opt_seq_round_trip(o: Option<Seq<models::DataClassificationView>>)
        ensures
            o matches Some(s) ==> DataClassificationView::all_well_formed(
                DataClassificationView::seq_from_canonical(s),
            ),
            o matches Some(s) ==> DataClassificationView::seq_to_canonical(
                DataClassificationView::seq_from_canonical(s),
            ) == s,
    {
        if o is Some {
            DataClassificationView::lemma_seq_round_trip(o->0);
        }
    }
}

impl DataClassificationView {
    /// Reading the shape of a data classification and shaping what was read gives the shape
    /// again, where the shape is well formed.
    pub proof fn lemma_shape_round_trip(w: DataClassificationView)
        requires
            w.well_formed(),
        ensures
            DataClassificationView::from_canonical(w.to_canonical()) == w,
    {
        lemma_data_flow_type_round_trip(data_flow_type_of_token(w.flow).unwrap(), w.flow);
    }

    /// The same for a sequence of them.
    pub proof fn lemma_seq_shape_round_trip(s: Seq<DataClassificationView>)
        requires
            DataClassificationView::all_well_formed(s),
        ensures
            DataClassificationView::seq_from_canonical(
                DataClassificationView::seq_to_canonical(s),
            ) == s,
    {
        assert forall|i: int| 0 <= i < s.len() implies DataClassificationView::from_canonical(
            s[i].to_canonical(),
        ) == s[i] by {
            DataClassificationView::lemma_shape_round_trip(s[i]);
        }
        assert(
            DataClassificationView::seq_from_canonical(
                DataClassificationView::seq_to_canonical(s),
            ) =~= s
        );
    }

    /// The same for a sequence of them that may be absent.
    pub proof fn lemma_opt_seq_shape_round_trip(o: Option<Seq<DataClassificationView>>)
        requires
            o matches Some(s) ==> DataClassificationView::all_well_formed(s),
        ensures
            o matches Some(s) ==> DataClassificationView::seq_from_canonical(
                DataClassificationView::seq_to_canonical(s),
            ) == s,
    {
        if o is Some {
            DataClassificationView::lemma_seq_shape_round_trip(o->0);
        }
    }
}

impl DiffView {
    /// Shaping a diff for schema 1.3 and reading the shape back gives the
    /// diff again.
    pub proof fn lemma_round_trip(c: models::DiffView)
        ensures
            DiffView::from_canonical(c).to_canonical() == c,
    {
        AttachedTextView::lemma_opt_round_trip(c.text);
    }
}

impl DiffView {
    /// Reading the shape of a diff and shaping what was read gives the shape
    /// again.
    pub proof fn lemma_shape_round_trip(w: DiffView)
        ensures
            DiffView::from_canonical(w.to_canonical()) == w,
    {
        AttachedTextView::lemma_opt_shape_round_trip(w.text);
    }
}

impl ExternalReferenceView {
    /// Shaping an external reference for schema 1.3 and reading the shape back gives the
    /// external reference again, and the shape is well formed.
    pub proof fn lemma_round_trip(c: models::ExternalReferenceView)
        ensures
            ExternalReferenceView::from_canonical(c).well_formed(),
            ExternalReferenceView::from_canonical(c).to_canonical() == c,
    {
        lemma_external_reference_type_round_trip(
            c.external_reference_type,
            external_reference_type_token(c.external_reference_type),
        );
        HashView::lemma_opt_seq_round_trip(c.hashes);
    }

    /// The same for a sequence of them.
    pub proof fn lemma_seq_round_trip(s: Seq<models::ExternalReferenceView>)
        ensures
            ExternalReferenceView::all_well_formed(ExternalReferenceView::seq_from_canonical(s)),
            ExternalReferenceView::seq_to_canonical(
                ExternalReferenceView::seq_from_canonical(s),
            ) == s,
    {
        assert forall|i: int| 0 <= i < s.len() implies
            ExternalReferenceView::from_canonical(s[i]).well_formed()
            && ExternalReferenceView::from_canonical(s[i]).to_canonical() == s[i] by {
            ExternalReferenceView::lemma_round_trip(s[i]);
        }
        assert(
            ExternalReferenceView::seq_to_canonical(
                ExternalReferenceView::seq_from_canonical(s),
            ) =~= s
        );
    }

    /// The same for a sequence of them that may be absent.
    pub proof fn lemma_opt_seq_round_trip(o: Option<Seq<models::ExternalReferenceView>>)
        ensures
            o matches Some(s) ==> ExternalReferenceView::all_well_formed(
                ExternalReferenceView::seq_from_canonical(s),
            ),
            o matches Some(s) ==> ExternalReferenceView::seq_to_canonical(
                ExternalReferenceView::seq_from_canonical(s),
            ) == s,
    {
        if o is Some {
            ExternalReferenceView::lemma_seq_round_trip(o->0);
        }
    }
}

impl ExternalReferenceView {
    /// Reading the shape of an external reference and shaping what was read gives the shape
    /// again, where the shape is well formed.
    pub proof fn lemma_shape_round_trip(w: ExternalReferenceView)
        requires
            w.well_formed(),
        ensures
            ExternalReferenceView::from_canonical(w.to_canonical()) == w,
    {
        lemma_external_reference_type_round_trip(
            external_reference_type_of_token(w.external_reference_type).unwrap(),
            w.external_reference_type,
        );
        HashView::lemma_opt_seq_shape_round_trip(w.hashes);
    }

    /// The same for a sequence of them.
    pub proof fn lemma_seq_shape_round_trip(s: Seq<ExternalReferenceView>)
        requires
            ExternalReferenceView::all_well_formed(s),
        ensures
            ExternalReferenceView::seq_from_canonical(
                ExternalReferenceView::seq_to_canonical(s),
            ) == s,
    {
        assert forall|i: int| 0 <= i < s.len() implies ExternalReferenceView::from_canonical(
            s[i].to_canonical(),
        ) == s[i] by {
            ExternalReferenceView::lemma_shape_round_trip(s[i]);
        }
        assert(
            ExternalReferenceView::seq_from_canonical(
                ExternalReferenceView::seq_to_canonical(s),
            ) =~= s
        );
    }

    /// The same for a sequence of them that may be absent.
    pub proof fn lemma_opt_seq_shape_round_trip(o: Option<Seq<ExternalReferenceView>>)
        requires
            o matches Some(s) ==> ExternalReferenceView::all_well_formed(s),
        ensures
            o matches Some(s) ==> ExternalReferenceView::seq_from_canonical(
                ExternalReferenceView::seq_to_canonical(s),
            ) == s,
    {
        if o is Some {
            ExternalReferenceView::lemma_seq_shape_round_trip(o->0);
        }
    }
}

impl SourceView {
    /// Shaping a source for schema 1.3 and reading the shape back gives the
    /// source again.
    pub proof fn lemma_round_trip(c: models::SourceView)
        ensures
            SourceView::from_canonical(c).to_canonical() == c,
    {
    }

    /// The same for one that may be absent.
    pub proof fn lemma_opt_round_trip(o: Option<models::SourceView>)
        ensures
            o matches Some(c) ==> SourceView::from_canonical(c).to_canonical() == c,
    {
        if o is Some {
            SourceView::lemma_round_trip(o->0);
        }
    }
}

impl SourceView {
    /// Reading the shape of a source and shaping what was read gives the shape
    /// again.
    pub proof fn lemma_shape_round_trip(w: SourceView)
        ensures
            SourceView::from_canonical(w.to_canonical()) == w,
    {
    }

    /// The same for one that may be absent.
    pub proof fn lemma_opt_shape_round_trip(o: Option<SourceView>)
        ensures
            o matches Some(w) ==> SourceView::from_canonical(w.to_canonical()) == w,
    {
        if o is Some {
            SourceView::lemma_shape_round_trip(o->0);
        }
    }
}

impl IssueView {
    /// Shaping an issue for schema 1.3 and reading the shape back gives the
    /// issue again, and the shape is well formed.
    pub proof fn lemma_round_trip(c: models::IssueView)
        ensures
            IssueView::from_canonical(c).well_formed(),
            IssueView::from_canonical(c).to_canonical() == c,
    {
        lemma_issue_classification_round_trip(
            c.issue_type,
            issue_classification_token(c.issue_type),
        );
        SourceView::lemma_opt_round_trip(c.source);
    }

    /// The same for a sequence of them.
    pub proof fn lemma_seq_round_trip(s: Seq<models::IssueView>)
        ensures
            IssueView::all_well_formed(IssueView::seq_from_canonical(s)),
            IssueView::seq_to_canonical(IssueView::seq_from_canonical(s)) == s,
    {
        assert forall|i: int| 0 <= i < s.len() implies
            IssueView::from_canonical(s[i]).well_formed()
            && IssueView::from_canonical(s[i]).to_canonical() == s[i] by {
            IssueView::lemma_round_trip(s[i]);
        }
        assert(IssueView::seq_to_canonical(IssueView::seq_from_canonical(s)) =~= s);
    }

    /// The same for a sequence of them that may be absent.
    pub proof fn lemma_opt_seq_round_trip(o: Option<Seq<models::IssueView>>)
        ensures
            o matches Some(s) ==> IssueView::all_well_formed(IssueView::seq_from_canonical(s)),
            o matches Some(s) ==> IssueView::seq_to_canonical(
                IssueView::seq_from_canonical(s),
            ) == s,
    {
        if o is Some {
            IssueView::lemma_seq_round_trip(o->0);
        }
    }
}

impl IssueView {
    /// Reading the shape of an issue and shaping what was read gives the shape
    /// again, where the shape is well formed.
    pub proof fn lemma_shape_round_trip(w: IssueView)
        requires
            w.well_formed(),
        ensures
            IssueView::from_canonical(w.to_canonical()) == w,
    {
        lemma_issue_classification_round_trip(
            issue_classification_of_token(w.issue_type).unwrap(),
            w.issue_type,
        );
        SourceView::lemma_opt_shape_round_trip(w.source);
    }

    /// The same for a sequence of them.
    pub proof fn lemma_seq_shape_round_trip(s: Seq<IssueView>)
        requires
            IssueView::all_well_formed(s),
        ensures
            IssueView::seq_from_canonical(IssueView::seq_to_canonical(s)) == s,
    {
        assert forall|i: int| 0 <= i < s.len() implies IssueView::from_canonical(
            s[i].to_canonical(),
        ) == s[i] by {
            IssueView::lemma_shape_round_trip(s[i]);
        }
        assert(IssueView::seq_from_canonical(IssueView::seq_to_canonical(s)) =~= s);
    }

    /// The same for a sequence of them that may be absent.
    pub proof fn lemma_opt_seq_shape_round_trip(o: Option<Seq<IssueView>>)
        requires
            o matches Some(s) ==> IssueView::all_well_formed(s),
        ensures
            o matches Some(s) ==> IssueView::seq_from_canonical(
                IssueView::seq_to_canonical(s),
            ) == s,
    {
        if o is Some {
            IssueView::lemma_seq_shape_round_trip(o->0);
        }
    }
}

impl LicenseView {
    /// Shaping a license for schema 1.3 and reading the shape back gives the
    /// license again.
    pub proof fn lemma_round_trip(c: models::LicenseView)
        ensures
            LicenseView::from_canonical(c).to_canonical() == c,
    {
        LicenseIdentifierView::lemma_round_trip(c.license_identifier);
        AttachedTextView::lemma_opt_round_trip(c.text);
    }

    /// The same for a sequence of them.
    pub proof fn lemma_seq_round_trip(s: Seq<models::LicenseView>)
        ensures
            LicenseView::seq_to_canonical(LicenseView::seq_from_canonical(s)) == s,
    {
        assert forall|i: int| 0 <= i < s.len() implies
            LicenseView::from_canonical(s[i]).to_canonical() == s[i] by {
            LicenseView::lemma_round_trip(s[i]);
        }
        assert(LicenseView::seq_to_canonical(LicenseView::seq_from_canonical(s)) =~= s);
    }
}

impl LicenseView {
    /// Reading the shape of a license and shaping what was read gives the shape
    /// again.
    pub proof fn lemma_shape_round_trip(w: LicenseView)
        ensures
            LicenseView::from_canonical(w.to_canonical()) == w,
    {
        LicenseIdentifierView::lemma_shape_round_trip(w.license_identifier);
        AttachedTextView::lemma_opt_shape_round_trip(w.text);
    }

    /// The same for a sequence of them.
    pub proof fn lemma_seq_shape_round_trip(s: Seq<LicenseView>)
        ensures
            LicenseView::seq_from_canonical(LicenseView::seq_to_canonical(s)) == s,
    {
        assert forall|i: int| 0 <= i < s.len() implies LicenseView::from_canonical(
            s[i].to_canonical(),
        ) == s[i] by {
            LicenseView::lemma_shape_round_trip(s[i]);
        }
        assert(LicenseView::seq_from_canonical(LicenseView::seq_to_canonical(s)) =~= s);
    }
}

impl PatchView {
    /// Shaping a patch for schema 1.3 and reading the shape back gives the
    /// patch again, and the shape is well formed.
    pub proof fn lemma_round_trip(c: models::PatchView)
        ensures
            PatchView::from_canonical(c).well_formed(),
            PatchView::from_canonical(c).to_canonical() == c,
    {
        lemma_patch_classification_round_trip(
            c.patch_type,
            patch_classification_token(c.patch_type),
        );
        DiffView::lemma_round_trip(c.diff);
        IssueView::lemma_opt_seq_round_trip(c.resolves);
    }

    /// The same for a sequence of them.
    pub proof fn lemma_seq_round_trip(s: Seq<models::PatchView>)
        ensures
            PatchView::all_well_formed(PatchView::seq_from_canonical(s)),
            PatchView::seq_to_canonical(PatchView::seq_from_canonical(s)) == s,
    {
        assert forall|i: int| 0 <= i < s.len() implies
            PatchView::from_canonical(s[i]).well_formed()
            && PatchView::from_canonical(s[i]).to_canonical() == s[i] by {
            PatchView::lemma_round_trip(s[i]);
        }
        assert(PatchView::seq_to_canonical(PatchView::seq_from_canonical(s)) =~= s);
    }

    /// The same for a sequence of them that may be absent.
    pub proof fn lemma_opt_seq_round_trip(o: Option<Seq<models::PatchView>>)
        ensures
            o matches Some(s) ==> PatchView::all_well_formed(PatchView::seq_from_canonical(s)),
            o matches Some(s) ==> PatchView::seq_to_canonical(
                PatchView::seq_from_canonical(s),
            ) == s,
    {
        if o is Some {
            PatchView::lemma_seq_round_trip(o->0);
        }
    }
}

impl PatchView {
    /// Reading the shape of a patch and shaping what was read gives the shape
    /// again, where the shape is well formed.
    pub proof fn lemma_shape_round_trip(w: PatchView)
        requires
            w.well_formed(),
        ensures
            PatchView::from_canonical(w.to_canonical()) == w,
    {
        lemma_patch_classification_round_trip(
            patch_classification_of_token(w.patch_type).unwrap(),
            w.patch_type,
        );
        DiffView::lemma_shape_round_trip(w.diff);
        IssueView::lemma_opt_seq_shape_round_trip(w.resolves);
    }

    /// The same for a sequence of them.
    pub proof fn lemma_seq_shape_round_trip(s: Seq<PatchView>)
        requires
            PatchView::all_well_formed(s),
        ensures
            PatchView::seq_from_canonical(PatchView::seq_to_canonical(s)) == s,
    {
        assert forall|i: int| 0 <= i < s.len() implies PatchView::from_canonical(
            s[i].to_canonical(),
        ) == s[i] by {
            PatchView::lemma_shape_round_trip(s[i]);
        }
        assert(PatchView::seq_from_canonical(PatchView::seq_to_canonical(s)) =~= s);
    }

    /// The same for a sequence of them that may be absent.
    pub proof fn lemma_opt_seq_shape_round_trip(o: Option<Seq<PatchView>>)
        requires
            o matches Some(s) ==> PatchView::all_well_formed(s),
        ensures
            o matches Some(s) ==> PatchView::seq_from_canonical(
                PatchView::seq_to_canonical(s),
            ) == s,
    {
        if o is Some {
            PatchView::lemma_seq_shape_round_trip(o->0);
        }
    }
}

impl PropertyView {
    /// Shaping a property for schema 1.3 and reading the shape back gives the
    /// property again.
    pub proof fn lemma_round_trip(c: models::PropertyView)
        ensures
            PropertyView::from_canonical(c).to_canonical() == c,
    {
    }

    /// The same for a sequence of them.
    pub proof fn lemma_seq_round_trip(s: Seq<models::PropertyView>)
        ensures
            PropertyView::seq_to_canonical(PropertyView::seq_from_canonical(s)) == s,
    {
        assert forall|i: int| 0 <= i < s.len() implies
            PropertyView::from_canonical(s[i]).to_canonical() == s[i] by {
            PropertyView::lemma_round_trip(s[i]);
        }
        assert(PropertyView::seq_to_canonical(PropertyView::seq_from_canonical(s)) =~= s);
    }

    /// The same for a sequence of them that may be absent.
    pub proof fn lemma_opt_seq_round_trip(o: Option<Seq<models::PropertyView>>)
        ensures
            o matches Some(s) ==> PropertyView::seq_to_canonical(
                PropertyView::seq_from_canonical(s),
            ) == s,
    {
        if o is Some {
            PropertyView::lemma_seq_round_trip(o->0);
        }
    }
}

impl PropertyView {
    /// Reading the shape of a property and shaping what was read gives the shape
    /// again.
    pub proof fn lemma_shape_round_trip(w: PropertyView)
        ensures
            PropertyView::from_canonical(w.to_canonical()) == w,
    {
    }

    /// The same for a sequence of them.
    pub proof fn lemma_seq_shape_round_trip(s: Seq<PropertyView>)
        ensures
            PropertyView::seq_from_canonical(PropertyView::seq_to_canonical(s)) == s,
    {
        assert forall|i: int| 0 <= i < s.len() implies PropertyView::from_canonical(
            s[i].to_canonical(),
        ) == s[i] by {
            PropertyView::lemma_shape_round_trip(s[i]);
        }
        assert(PropertyView::seq_from_canonical(PropertyView::seq_to_canonical(s)) =~= s);
    }

    /// The same for a sequence of them that may be absent.
    pub proof fn lemma_opt_seq_shape_round_trip(o: Option<Seq<PropertyView>>)
        ensures
            o matches Some(s) ==> PropertyView::seq_from_canonical(
                PropertyView::seq_to_canonical(s),
            ) == s,
    {
        if o is Some {
            PropertyView::lemma_seq_shape_round_trip(o->0);
        }
    }
}

impl SwidView {
    /// Shaping a swid for schema 1.3 and reading the shape back gives the
    /// swid again.
    pub proof fn lemma_round_trip(c: models::SwidView)
        ensures
            SwidView::from_canonical(c).to_canonical() == c,
    {
        AttachedTextView::lemma_opt_round_trip(c.text);
    }

    /// The same for one that may be absent.
    pub proof fn lemma_opt_round_trip(o: Option<models::SwidView>)
        ensures
            o matches Some(c) ==> SwidView::from_canonical(c).to_canonical() == c,
    {
        if o is Some {
            SwidView::lemma_round_trip(o->0);
        }
    }
}

impl SwidView {
    /// Reading the shape of a swid and shaping what was read gives the shape
    /// again.
    pub proof fn lemma_shape_round_trip(w: SwidView)
        ensures
            SwidView::from_canonical(w.to_canonical()) == w,
    {
        AttachedTextView::lemma_opt_shape_round_trip(w.text);
    }

    /// The same for one that may be absent.
    pub proof fn lemma_opt_shape_round_trip(o: Option<SwidView>)
        ensures
            o matches Some(w) ==> SwidView::from_canonical(w.to_canonical()) == w,
    {
        if o is Some {
            SwidView::lemma_shape_round_trip(o->0);
        }
    }
}

impl ToolView {
    /// Shaping a tool for schema 1.3 and reading the shape back gives the
    /// tool again, and the shape is well formed.
    pub proof fn lemma_round_trip(c: models::ToolView)
        ensures
            ToolView::from_canonical(c).well_formed(),
            ToolView::from_canonical(c).to_canonical() == c,
    {
        HashView::lemma_opt_seq_round_trip(c.hashes);
    }

    /// The same for a sequence of them.
    pub proof fn lemma_seq_round_trip(s: Seq<models::ToolView>)
        ensures
            ToolView::all_well_formed(ToolView::seq_from_canonical(s)),
            ToolView::seq_to_canonical(ToolView::seq_from_canonical(s)) == s,
    {
        assert forall|i: int| 0 <= i < s.len() implies
            ToolView::from_canonical(s[i]).well_formed()
            && ToolView::from_canonical(s[i]).to_canonical() == s[i] by {
            ToolView::lemma_round_trip(s[i]);
        }
        assert(ToolView::seq_to_canonical(ToolView::seq_from_canonical(s)) =~= s);
    }

    /// The same for a sequence of them that may be absent.
    pub proof fn lemma_opt_seq_round_trip(o: Option<Seq<models::ToolView>>)
        ensures
            o matches Some(s) ==> ToolView::all_well_formed(ToolView::seq_from_canonical(s)),
            o matches Some(s) ==> ToolView::seq_to_canonical(ToolView::seq_from_canonical(s)) == s,
    {
        if o is Some {
            ToolView::lemma_seq_round_trip(o->0);
        }
    }
}

impl ToolView {
    /// Reading the shape of a tool and shaping what was read gives the shape
    /// again, where the shape is well formed.
    pub proof fn lemma_shape_round_trip(w: ToolView)
        requires
            w.well_formed(),
        ensures
            ToolView::from_canonical(w.to_canonical()) == w,
    {
        HashView::lemma_opt_seq_shape_round_trip(w.hashes);
    }

    /// The same for a sequence of them.
    pub proof fn lemma_seq_shape_round_trip(s: Seq<ToolView>)
        requires
            ToolView::all_well_formed(s),
        ensures
            ToolView::seq_from_canonical(ToolView::seq_to_canonical(s)) == s,
    {
        assert forall|i: int| 0 <= i < s.len() implies ToolView::from_canonical(
            s[i].to_canonical(),
        ) == s[i] by {
            ToolView::lemma_shape_round_trip(s[i]);
        }
        assert(ToolView::seq_from_canonical(ToolView::seq_to_canonical(s)) =~= s);
    }

    /// The same for a sequence of them that may be absent.
    pub proof fn lemma_opt_seq_shape_round_trip(o: Option<Seq<ToolView>>)
        requires
            o matches Some(s) ==> ToolView::all_well_formed(s),
        ensures
            o matches Some(s) ==> ToolView::seq_from_canonical(ToolView::seq_to_canonical(s)) == s,
    {
        if o is Some {
            ToolView::lemma_seq_shape_round_trip(o->0);
        }
    }
}

impl ComponentEvidenceView {
    /// Shaping a component evidence for schema 1.3 and reading the shape back gives the
    /// component evidence again.
    pub proof fn lemma_round_trip(c: models::ComponentEvidenceView)
        requires
            ComponentEvidenceView::fits(c),
        ensures
            ComponentEvidenceView::from_canonical(c).to_canonical() == c,
    {
        LicenseChoiceView::lemma_list_round_trip(c.licenses);
    }

    /// The same for one that may be absent.
    pub proof fn lemma_opt_round_trip(o: Option<models::ComponentEvidenceView>)
        requires
            o matches Some(c) ==> ComponentEvidenceView::fits(c),
        ensures
            o matches Some(c) ==> ComponentEvidenceView::from_canonical(c).to_canonical() == c,
    {
        if o is Some {
            ComponentEvidenceView::lemma_round_trip(o->0);
        }
    }
}

impl ComponentEvidenceView {
    /// Reading the shape of a component evidence and shaping what was read gives the shape
    /// again.
    pub proof fn lemma_shape_round_trip(w: ComponentEvidenceView)
        ensures
            ComponentEvidenceView::from_canonical(w.to_canonical()) == w,
    {
        LicenseChoiceView::lemma_list_shape_round_trip(w.licenses);
    }

    /// The same for one that may be absent.
    pub proof fn lemma_opt_shape_round_trip(o: Option<ComponentEvidenceView>)
        ensures
            o matches Some(w) ==> ComponentEvidenceView::from_canonical(w.to_canonical()) == w,
    {
        if o is Some {
            ComponentEvidenceView::lemma_shape_round_trip(o->0);
        }
    }
}

impl PedigreeView {
    /// Shaping a pedigree for schema 1.3 and reading the shape back gives the
    /// pedigree again, and the shape is well formed.
    pub proof fn lemma_round_trip(c: models::PedigreeView)
        requires
            PedigreeView::fits(c),
        ensures
            PedigreeView::from_canonical(c).well_formed(),
            PedigreeView::from_canonical(c).to_canonical() == c,
        decreases c,
    {
        ComponentView::lemma_opt_seq_round_trip(c.ancestors);
        ComponentView::lemma_opt_seq_round_trip(c.decendants);
        ComponentView::lemma_opt_seq_round_trip(c.variants);
        CommitView::lemma_opt_seq_round_trip(c.commits);
        PatchView::lemma_opt_seq_round_trip(c.patches);
    }

    /// The same for one that may be absent.
    pub proof fn lemma_opt_round_trip(o: Option<models::PedigreeView>)
        requires
            o matches Some(c) ==> PedigreeView::fits(c),
        ensures
            o matches Some(c) ==> PedigreeView::from_canonical(c).well_formed(),
            o matches Some(c) ==> PedigreeView::from_canonical(c).to_canonical() == c,
        decreases o,
    {
        if o is Some {
            PedigreeView::lemma_round_trip(o->0);
        }
    }
}

impl PedigreeView {
    /// Reading the shape of a pedigree and shaping what was read gives the shape
    /// again, where the shape is well formed.
    pub proof fn lemma_shape_round_trip(w: PedigreeView)
        requires
            w.well_formed(),
        ensures
            PedigreeView::from_canonical(w.to_canonical()) == w,
        decreases w,
    {
        ComponentView::lemma_opt_seq_shape_round_trip(w.ancestors);
        ComponentView::lemma_opt_seq_shape_round_trip(w.descendants);
        ComponentView::lemma_opt_seq_shape_round_trip(w.variants);
        CommitView::lemma_opt_seq_shape_round_trip(w.commits);
        PatchView::lemma_opt_seq_shape_round_trip(w.patches);
    }

    /// The same for one that may be absent.
    pub proof fn lemma_opt_shape_round_trip(o: Option<PedigreeView>)
        requires
            o matches Some(w) ==> w.well_formed(),
        ensures
            o matches Some(w) ==> PedigreeView::from_canonical(w.to_canonical()) == w,
        decreases o,
    {
        if o is Some {
            PedigreeView::lemma_shape_round_trip(o->0);
        }
    }
}

impl ComponentView {
    /// Shaping a component for schema 1.3 and reading the shape back gives the
    /// component again, and the shape is well formed.
    pub proof fn lemma_round_trip(c: models::ComponentView)
        requires
            ComponentView::fits(c),
        ensures
            ComponentView::from_canonical(c).well_formed(),
            ComponentView::from_canonical(c).to_canonical() == c,
        decreases c,
    {
        lemma_classification_round_trip(c.component_type, classification_token(c.component_type));
        OrganizationalEntityView::lemma_opt_round_trip(c.supplier);
        if c.scope is Some {
            lemma_scope_round_trip(c.scope->0, scope_token(c.scope->0));
        }
        HashView::lemma_opt_seq_round_trip(c.hashes);
        LicenseChoiceView::lemma_list_round_trip(c.licenses);
        SwidView::lemma_opt_round_trip(c.swid);
        PedigreeView::lemma_opt_round_trip(c.pedigree);
        ExternalReferenceView::lemma_opt_seq_round_trip(c.external_references);
        PropertyView::lemma_opt_seq_round_trip(c.properties);
        ComponentView::lemma_opt_seq_round_trip(c.components);
        ComponentEvidenceView::lemma_opt_round_trip(c.evidence);
        let back = ComponentView::from_canonical(c).to_canonical();
        assert(back.component_type == c.component_type);
        assert(back.mime_type == c.mime_type);
        assert(back.bom_ref == c.bom_ref);
        assert(back.supplier == c.supplier);
        assert(back.author == c.author);
        assert(back.publisher == c.publisher);
        assert(back.group == c.group);
        assert(back.name == c.name);
        assert(back.version == c.version);
        assert(back.description == c.description);
        assert(back.scope == c.scope);
        assert(back.hashes == c.hashes);
        assert(back.licenses == c.licenses);
        assert(back.copyright == c.copyright);
        assert(back.cpe == c.cpe);
        assert(back.purl == c.purl);
        assert(back.swid == c.swid);
        assert(back.modified == c.modified);
        assert(back.pedigree == c.pedigree);
        assert(back.external_references == c.external_references);
        assert(back.properties == c.properties);
        assert(back.components == c.components);
        assert(back.evidence == c.evidence);
    }

    /// The same for one that may be absent.
    pub proof fn lemma_opt_round_trip(o: Option<models::ComponentView>)
        requires
            o matches Some(c) ==> ComponentView::fits(c),
        ensures
            o matches Some(c) ==> ComponentView::from_canonical(c).well_formed(),
            o matches Some(c) ==> ComponentView::from_canonical(c).to_canonical() == c,
        decreases o,
    {
        if o is Some {
            ComponentView::lemma_round_trip(o->0);
        }
    }

    /// The same for a sequence of them.
    pub proof fn lemma_seq_round_trip(s: Seq<models::ComponentView>)
        requires
            ComponentView::all_fit(s),
        ensures
            ComponentView::all_well_formed(ComponentView::seq_from_canonical(s)),
            ComponentView::seq_to_canonical(ComponentView::seq_from_canonical(s)) == s,
        decreases s,
    {
        assert forall|i: int| 0 <= i < s.len() implies
            ComponentView::from_canonical(s[i]).well_formed()
            && ComponentView::from_canonical(s[i]).to_canonical() == s[i] by {
            ComponentView::lemma_round_trip(s[i]);
        }
        assert(ComponentView::seq_to_canonical(ComponentView::seq_from_canonical(s)) =~= s);
    }

    /// The same for a sequence of them that may be absent.
    pub proof fn lemma_opt_seq_round_trip(o: Option<Seq<models::ComponentView>>)
        requires
            o matches Some(s) ==> ComponentView::all_fit(s),
        ensures
            o matches Some(s) ==> ComponentView::all_well_formed(
                ComponentView::seq_from_canonical(s),
            ),
            o matches Some(s) ==> ComponentView::seq_to_canonical(
                ComponentView::seq_from_canonical(s),
            ) == s,
        decreases o,
    {
        if o is Some {
            ComponentView::lemma_seq_round_trip(o->0);
        }
    }
}

impl ComponentView {
    /// Reading the shape of a component and shaping what was read gives the shape
    /// again, where the shape is well formed.
    pub proof fn lemma_shape_round_trip(w: ComponentView)
        requires
            w.well_formed(),
        ensures
            ComponentView::from_canonical(w.to_canonical()) == w,
        decreases w,
    {
        lemma_classification_round_trip(
            classification_of_token(w.component_type).unwrap(),
            w.component_type,
        );
        OrganizationalEntityView::lemma_opt_shape_round_trip(w.supplier);
        if w.scope is Some {
            lemma_scope_round_trip(scope_of_token(w.scope->0).unwrap(), w.scope->0);
        }
        HashView::lemma_opt_seq_shape_round_trip(w.hashes);
        LicenseChoiceView::lemma_list_shape_round_trip(w.licenses);
        SwidView::lemma_opt_shape_round_trip(w.swid);
        PedigreeView::lemma_opt_shape_round_trip(w.pedigree);
        ExternalReferenceView::lemma_opt_seq_shape_round_trip(w.external_references);
        PropertyView::lemma_opt_seq_shape_round_trip(w.properties);
        ComponentView::lemma_opt_seq_shape_round_trip(w.components);
        ComponentEvidenceView::lemma_opt_shape_round_trip(w.evidence);
        let back = ComponentView::from_canonical(w.to_canonical());
        assert(back.component_type == w.component_type);
        assert(back.mime_type == w.mime_type);
        assert(back.bom_ref == w.bom_ref);
        assert(back.supplier == w.supplier);
        assert(back.author == w.author);
        assert(back.publisher == w.publisher);
        assert(back.group == w.group);
        assert(back.name == w.name);
        assert(back.version == w.version);
        assert(back.description == w.description);
        assert(back.scope == w.scope);
        assert(back.hashes == w.hashes);
        assert(back.licenses == w.licenses);
        assert(back.copyright == w.copyright);
        assert(back.cpe == w.cpe);
        assert(back.purl == w.purl);
        assert(back.swid == w.swid);
        assert(back.modified == w.modified);
        assert(back.pedigree == w.pedigree);
        assert(back.external_references == w.external_references);
        assert(back.properties == w.properties);
        assert(back.components == w.components);
        assert(back.evidence == w.evidence);
    }

    /// The same for one that may be absent.
    pub proof fn lemma_opt_shape_round_trip(o: Option<ComponentView>)
        requires
            o matches Some(w) ==> w.well_formed(),
        ensures
            o matches Some(w) ==> ComponentView::from_canonical(w.to_canonical()) == w,
        decreases o,
    {
        if o is Some {
            ComponentView::lemma_shape_round_trip(o->0);
        }
    }

    /// The same for a sequence of them.
    pub proof fn lemma_seq_shape_round_trip(s: Seq<ComponentView>)
        requires
            ComponentView::all_well_formed(s),
        ensures
            ComponentView::seq_from_canonical(ComponentView::seq_to_canonical(s)) == s,
        decreases s,
    {
        assert forall|i: int| 0 <= i < s.len() implies ComponentView::from_canonical(
            s[i].to_canonical(),
        ) == s[i] by {
            ComponentView::lemma_shape_round_trip(s[i]);
        }
        assert(ComponentView::seq_from_canonical(ComponentView::seq_to_canonical(s)) =~= s);
    }

    /// The same for a sequence of them that may be absent.
    pub proof fn lemma_opt_seq_shape_round_trip(o: Option<Seq<ComponentView>>)
        requires
            o matches Some(s) ==> ComponentView::all_well_formed(s),
        ensures
            o matches Some(s) ==> ComponentView::seq_from_canonical(
                ComponentView::seq_to_canonical(s),
            ) == s,
        decreases o,
    {
        if o is Some {
            ComponentView::lemma_seq_shape_round_trip(o->0);
        }
    }
}

impl ServiceView {
    /// Shaping a service for schema 1.3 and reading the shape back gives the
    /// service again, and the shape is well formed.
    pub proof fn lemma_round_trip(c: models::ServiceView)
        requires
            ServiceView::fits(c),
        ensures
            ServiceView::from_canonical(c).well_formed(),
            ServiceView::from_canonical(c).to_canonical() == c,
        decreases c,
    {
        OrganizationalEntityView::lemma_opt_round_trip(c.provider);
        DataClassificationView::lemma_opt_seq_round_trip(c.data);
        LicenseChoiceView::lemma_list_round_trip(c.licenses);
        ExternalReferenceView::lemma_opt_seq_round_trip(c.external_references);
        PropertyView::lemma_opt_seq_round_trip(c.properties);
        ServiceView::lemma_opt_seq_round_trip(c.services);
    }

    /// The same for a sequence of them.
    pub proof fn lemma_seq_round_trip(s: Seq<models::ServiceView>)
        requires
            ServiceView::all_fit(s),
        ensures
            ServiceView::all_well_formed(ServiceView::seq_from_canonical(s)),
            ServiceView::seq_to_canonical(ServiceView::seq_from_canonical(s)) == s,
        decreases s,
    {
        assert forall|i: int| 0 <= i < s.len() implies
            ServiceView::from_canonical(s[i]).well_formed()
            && ServiceView::from_canonical(s[i]).to_canonical() == s[i] by {
            ServiceView::lemma_round_trip(s[i]);
        }
        assert(ServiceView::seq_to_canonical(ServiceView::seq_from_canonical(s)) =~= s);
    }

    /// The same for a sequence of them that may be absent.
    pub proof fn lemma_opt_seq_round_trip(o: Option<Seq<models::ServiceView>>)
        requires
            o matches Some(s) ==> ServiceView::all_fit(s),
        ensures
            o matches Some(s) ==> ServiceView::all_well_formed(ServiceView::seq_from_canonical(s)),
            o matches Some(s) ==> ServiceView::seq_to_canonical(
                ServiceView::seq_from_canonical(s),
            ) == s,
        decreases o,
    {
        if o is Some {
            ServiceView::lemma_seq_round_trip(o->0);
        }
    }
}

impl ServiceView {
    /// Reading the shape of a service and shaping what was read gives the shape
    /// again, where the shape is well formed.
    pub proof fn lemma_shape_round_trip(w: ServiceView)
        requires
            w.well_formed(),
        ensures
            ServiceView::from_canonical(w.to_canonical()) == w,
        decreases w,
    {
        OrganizationalEntityView::lemma_opt_shape_round_trip(w.provider);
        DataClassificationView::lemma_opt_seq_shape_round_trip(w.data);
        LicenseChoiceView::lemma_list_shape_round_trip(w.licenses);
        ExternalReferenceView::lemma_opt_seq_shape_round_trip(w.external_references);
        PropertyView::lemma_opt_seq_shape_round_trip(w.properties);
        ServiceView::lemma_opt_seq_shape_round_trip(w.services);
    }

    /// The same for a sequence of them.
    pub proof fn lemma_seq_shape_round_trip(s: Seq<ServiceView>)
        requires
            ServiceView::all_well_formed(s),
        ensures
            ServiceView::seq_from_canonical(ServiceView::seq_to_canonical(s)) == s,
        decreases s,
    {
        assert forall|i: int| 0 <= i < s.len() implies ServiceView::from_canonical(
            s[i].to_canonical(),
        ) == s[i] by {
            ServiceView::lemma_shape_round_trip(s[i]);
        }
        assert(ServiceView::seq_from_canonical(ServiceView::seq_to_canonical(s)) =~= s);
    }

    /// The same for a sequence of them that may be absent.
    pub proof fn lemma_opt_seq_shape_round_trip(o: Option<Seq<ServiceView>>)
        requires
            o matches Some(s) ==> ServiceView::all_well_formed(s),
        ensures
            o matches Some(s) ==> ServiceView::seq_from_canonical(
                ServiceView::seq_to_canonical(s),
            ) == s,
        decreases o,
    {
        if o is Some {
            ServiceView::lemma_seq_shape_round_trip(o->0);
        }
    }
}

impl MetadataView {
    /// Shaping a metadata for schema 1.3 and reading the shape back gives the
    /// metadata again, and the shape is well formed.
    pub proof fn lemma_round_trip(c: models::MetadataView)
        requires
            MetadataView::fits(c),
        ensures
            MetadataView::from_canonical(c).well_formed(),
            MetadataView::from_canonical(c).to_canonical() == c,
    {
        ToolView::lemma_opt_seq_round_trip(c.tools);
        OrganizationalContactView::lemma_opt_seq_round_trip(c.authors);
        ComponentView::lemma_opt_round_trip(c.component);
        OrganizationalEntityView::lemma_opt_round_trip(c.manufacture);
        OrganizationalEntityView::lemma_opt_round_trip(c.supplier);
        LicenseChoiceView::lemma_list_round_trip(c.licenses);
        PropertyView::lemma_opt_seq_round_trip(c.properties);
    }

    /// The same for one that may be absent.
    pub proof fn lemma_opt_round_trip(o: Option<models::MetadataView>)
        requires
            o matches Some(c) ==> MetadataView::fits(c),
        ensures
            o matches Some(c) ==> MetadataView::from_canonical(c).well_formed(),
            o matches Some(c) ==> MetadataView::from_canonical(c).to_canonical() == c,
    {
        if o is Some {
            MetadataView::lemma_round_trip(o->0);
        }
    }
}

impl MetadataView {
    /// Reading the shape of a metadata and shaping what was read gives the shape
    /// again, where the shape is well formed.
    pub proof fn lemma_shape_round_trip(w: MetadataView)
        requires
            w.well_formed(),
        ensures
            MetadataView::from_canonical(w.to_canonical()) == w,
    {
        ToolView::lemma_opt_seq_shape_round_trip(w.tools);
        OrganizationalContactView::lemma_opt_seq_shape_round_trip(w.authors);
        ComponentView::lemma_opt_shape_round_trip(w.component);
        OrganizationalEntityView::lemma_opt_shape_round_trip(w.manufacture);
        OrganizationalEntityView::lemma_opt_shape_round_trip(w.supplier);
        LicenseChoiceView::lemma_list_shape_round_trip(w.licenses);
        PropertyView::lemma_opt_seq_shape_round_trip(w.properties);
    }

    /// The same for one that may be absent.
    pub proof fn lemma_opt_shape_round_trip(o: Option<MetadataView>)
        requires
            o matches Some(w) ==> w.well_formed(),
        ensures
            o matches Some(w) ==> MetadataView::from_canonical(w.to_canonical()) == w,
    {
        if o is Some {
            MetadataView::lemma_shape_round_trip(o->0);
        }
    }
}

impl LicenseIdentifierView {
    /// Shaping the way a license is named and reading the shape back gives
    /// it again.
    pub proof fn lemma_round_trip(c: models::LicenseIdentifierView)
        ensures
            LicenseIdentifierView::from_canonical(c).to_canonical() == c,
    {
    }
}

impl LicenseIdentifierView {
    /// Reading the way a license is named and shaping what was read gives
    /// the shape again.
    pub proof fn lemma_shape_round_trip(w: LicenseIdentifierView)
        ensures
            LicenseIdentifierView::from_canonical(w.to_canonical()) == w,
    {
    }
}

impl LicenseChoiceView {
    /// The choice that an entry stands for becomes that entry alone.
    pub proof fn lemma_shape_round_trip(w: LicenseChoiceView)
        ensures
            LicenseChoiceView::entries(w.to_canonical()) == seq![w],
    {
        match w {
            LicenseChoiceView::License(Some(license)) => {
                LicenseView::lemma_shape_round_trip(license);
            },
            LicenseChoiceView::License(None) => {},
            LicenseChoiceView::Expression(expression) => {},
        }
        assert(LicenseChoiceView::entries(w.to_canonical()) =~= seq![w]);
    }

    /// Reading a sequence of entries and shaping what was read gives the
    /// entries again.
    pub proof fn lemma_seq_shape_round_trip(s: Seq<LicenseChoiceView>)
        ensures
            LicenseChoiceView::seq_from_canonical(LicenseChoiceView::seq_to_canonical(s)) == s,
        decreases s.len(),
    {
        let read = LicenseChoiceView::seq_to_canonical(s);
        if s.len() > 0 {
            LicenseChoiceView::lemma_seq_shape_round_trip(s.drop_last());
            LicenseChoiceView::lemma_shape_round_trip(s.last());
            assert(read.drop_last() =~= LicenseChoiceView::seq_to_canonical(s.drop_last()));
            assert(read.last() == s.last().to_canonical());
            assert(s.drop_last() + seq![s.last()] =~= s);
        } else {
            assert(LicenseChoiceView::seq_from_canonical(read) =~= s);
        }
    }

    /// The same for a list of entries that may be absent.
    pub proof fn lemma_list_shape_round_trip(o: Option<Seq<LicenseChoiceView>>)
        ensures
            LicenseChoiceView::list_from_canonical(LicenseChoiceView::list_to_canonical(o)) == o,
    {
        if o is Some {
            LicenseChoiceView::lemma_seq_shape_round_trip(o->0);
        }
    }

    /// A choice that schema 1.3 can carry as one entry becomes exactly one
    /// entry, and that entry stands for the choice.
    pub proof fn lemma_round_trip(c: models::LicenseChoiceView)
        requires
            LicenseChoiceView::fits(c),
        ensures
            LicenseChoiceView::entries(c).len() == 1,
            LicenseChoiceView::entries(c)[0].to_canonical() == c,
    {
        match c {
            models::LicenseChoiceView::License(Some(licenses)) => {
                LicenseView::lemma_round_trip(licenses[0]);
                assert(seq![licenses[0]] =~= licenses);
            },
            models::LicenseChoiceView::License(None) => {},
            models::LicenseChoiceView::Expression(expression) => {},
        }
    }

    /// The entries of a sequence of such choices are as many as the choices,
    /// and stand for them one for one.
    pub proof fn lemma_seq_round_trip(s: Seq<models::LicenseChoiceView>)
        requires
            forall|i: int| 0 <= i < s.len() ==> LicenseChoiceView::fits(#[trigger] s[i]),
        ensures
            LicenseChoiceView::seq_from_canonical(s).len() == s.len(),
            LicenseChoiceView::seq_to_canonical(LicenseChoiceView::seq_from_canonical(s)) == s,
        decreases s.len(),
    {
        if s.len() > 0 {
            let front = s.drop_last();
            LicenseChoiceView::lemma_seq_round_trip(front);
            LicenseChoiceView::lemma_round_trip(s.last());
            let shaped_front = LicenseChoiceView::seq_from_canonical(front);
            let shaped = LicenseChoiceView::seq_from_canonical(s);
            let back = LicenseChoiceView::seq_to_canonical(shaped);
            assert(shaped == shaped_front + LicenseChoiceView::entries(s.last()));
            assert forall|i: int| 0 <= i < s.len() implies back[i] == s[i] by {
                if i < front.len() {
                    assert(shaped[i] == shaped_front[i]);
                    assert(LicenseChoiceView::seq_to_canonical(shaped_front)[i] == front[i]);
                } else {
                    assert(shaped[i] == LicenseChoiceView::entries(s.last())[0]);
                }
            }
            assert(back =~= s);
        } else {
            assert(LicenseChoiceView::seq_to_canonical(LicenseChoiceView::seq_from_canonical(s))
                =~= s);
        }
    }

    /// The same for a list of choices that may be absent.
    pub proof fn lemma_list_round_trip(o: Option<Seq<models::LicenseChoiceView>>)
        requires
            LicenseChoiceView::list_fits(o),
        ensures
            LicenseChoiceView::list_to_canonical(LicenseChoiceView::list_from_canonical(o)) == o,
    {
        if o is Some {
            LicenseChoiceView::lemma_seq_round_trip(o->0);
        }
    }
}

impl DependencyView {
    /// Shaping a dependency whose graph is no deeper than schema 1.3 can
    /// carry and reading the shape back gives the dependency again.
    pub proof fn lemma_round_trip(c: models::DependencyView)
        requires
            DependencyView::fits(c),
        ensures
            DependencyView::from_canonical(c).to_canonical() == c,
    {
        let back = DependencyView::from_canonical(c).to_canonical();
        assert forall|i: int| 0 <= i < c.dependencies.len() implies back.dependencies[i]
            == c.dependencies[i] by {
            assert(c.dependencies[i].dependencies =~= Seq::<models::DependencyView>::empty());
        }
        assert(back.dependencies =~= c.dependencies);
    }

    /// Whatever the depth of the graph, the references of a dependency and
    /// of those directly below it come back as they were, and what stood
    /// deeper comes back absent.
    pub proof fn lemma_round_trip_keeps_references(c: models::DependencyView)
        ensures
            ({
                let back = DependencyView::from_canonical(c).to_canonical();
                &&& back.dependency_ref == c.dependency_ref
                &&& back.dependencies.len() == c.dependencies.len()
                &&& forall|i: int|
                    0 <= i < c.dependencies.len() ==> (#[trigger] back.dependencies[i]).dependency_ref
                        == c.dependencies[i].dependency_ref && back.dependencies[i].dependencies.len()
                        == 0
            }),
    {
    }

    /// Reading the shape of a dependency and shaping what was read gives the
    /// shape again.
    pub proof fn lemma_shape_round_trip(w: DependencyView)
        ensures
            DependencyView::from_canonical(w.to_canonical()) == w,
    {
        assert(DependencyView::from_canonical(w.to_canonical()).depends_on =~= w.depends_on);
    }

    /// The same for a sequence of them.
    pub proof fn lemma_seq_shape_round_trip(s: Seq<DependencyView>)
        ensures
            DependencyView::seq_from_canonical(DependencyView::seq_to_canonical(s)) == s,
    {
        assert forall|i: int| 0 <= i < s.len() implies DependencyView::from_canonical(
            s[i].to_canonical(),
        ) == s[i] by {
            DependencyView::lemma_shape_round_trip(s[i]);
        }
        assert(DependencyView::seq_from_canonical(DependencyView::seq_to_canonical(s)) =~= s);
    }

    /// The same for a sequence of them.
    pub proof fn lemma_seq_round_trip(s: Seq<models::DependencyView>)
        requires
            DependencyView::all_fit(s),
        ensures
            DependencyView::seq_to_canonical(DependencyView::seq_from_canonical(s)) == s,
    {
        assert forall|i: int| 0 <= i < s.len() implies DependencyView::from_canonical(
            s[i],
        ).to_canonical() == s[i] by {
            DependencyView::lemma_round_trip(s[i]);
        }
        assert(DependencyView::seq_to_canonical(DependencyView::seq_from_canonical(s)) =~= s);
    }
}

impl BomView {
    /// The round-trip law of the adapter: shaping a document for schema 1.3
    /// and reading the shape back gives the document again, with every part
    /// as it was, and the shape is well formed. It holds of every document
    /// that the schema can carry without loss.
    pub proof fn lemma_round_trip(c: models::BomView)
        requires
            BomView::fits(c),
        ensures
            BomView::from_canonical(c).well_formed(),
            BomView::from_canonical(c).to_canonical() == c,
    {
        MetadataView::lemma_opt_round_trip(c.metadata);
        ComponentView::lemma_opt_seq_round_trip(c.components);
        ServiceView::lemma_opt_seq_round_trip(c.services);
        ExternalReferenceView::lemma_opt_seq_round_trip(c.external_references);
        if c.dependencies is Some {
            DependencyView::lemma_seq_round_trip(c.dependencies->0);
        }
        CompositionView::lemma_opt_seq_round_trip(c.compositions);
        PropertyView::lemma_opt_seq_round_trip(c.properties);
    }

    /// Reading a well-formed shape of a document and shaping what was read
    /// gives the shape again, where the shape names its version and is
    /// written for schema 1.3.
    pub proof fn lemma_shape_round_trip(w: BomView)
        requires
            w.well_formed(),
            w.version is Some,
            w.spec_version == "1.3"@,
        ensures
            BomView::from_canonical(w.to_canonical()) == w,
    {
        MetadataView::lemma_opt_shape_round_trip(w.metadata);
        ComponentView::lemma_opt_seq_shape_round_trip(w.components);
        ServiceView::lemma_opt_seq_shape_round_trip(w.services);
        ExternalReferenceView::lemma_opt_seq_shape_round_trip(w.external_references);
        if w.dependencies is Some {
            DependencyView::lemma_seq_shape_round_trip(w.dependencies->0);
        }
        CompositionView::lemma_opt_seq_shape_round_trip(w.compositions);
        PropertyView::lemma_opt_seq_shape_round_trip(w.properties);
    }

    /// The shape of a document always carries the tag and the version of
    /// the schema, whatever the document holds.
    pub proof fn lemma_shape_is_tagged(c: models::BomView)
        ensures
            BomView::from_canonical(c).bom_format == crate::specs::v1_3::BomFormat::CycloneDX,
            BomView::from_canonical(c).spec_version == "1.3"@,
            BomView::from_canonical(c).version == Some(c.version),
    {
    }
}

} // verus!
