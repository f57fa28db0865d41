//! The adapter for the small parts of a document: the objects that hold
//! no components, services or licenses.

use crate::external_models::normalized_string::NormalizedString;
use crate::external_models::uri::Uri;
use crate::models;
use crate::specs::v1_3::adapter::{
    opt_date_time_to_string, opt_encoding_to_string, opt_references_from_canonical,
    opt_references_to_canonical, opt_string_clone, opt_string_to_date_time,
    opt_string_to_encoding, opt_string_to_text, opt_string_to_uri, opt_strings_to_uris,
    opt_text_to_string, opt_uri_to_string, opt_uris_to_strings, strings_clone,
};
use crate::specs::v1_3::tokens::{
    aggregate_type_from_token, aggregate_type_of_token, aggregate_type_to_token,
    aggregate_type_token, data_flow_type_from_token, data_flow_type_of_token,
    data_flow_type_to_token, data_flow_type_token, external_reference_type_from_token,
    external_reference_type_of_token, external_reference_type_to_token,
    external_reference_type_token, hash_algorithm_from_token, hash_algorithm_of_token,
    hash_algorithm_to_token, hash_algorithm_token, issue_classification_from_token,
    issue_classification_of_token, issue_classification_to_token, issue_classification_token,
    patch_classification_from_token, patch_classification_of_token, patch_classification_to_token,
    patch_classification_token,
};
use crate::specs::v1_3::{
    AttachedText, AttachedTextView, Commit, CommitView, Composition, CompositionView, Copyright,
    DataClassification, DataClassificationView, Diff, DiffView, ExternalReference,
    ExternalReferenceView, HashValue, HashView, IdentifiableAction, IdentifiableActionView, Issue,
    IssueView, OrganizationalContact, OrganizationalContactView, OrganizationalEntity,
    OrganizationalEntityView, Patch, PatchView, Properties, Property, PropertyView, Source,
    SourceView, Swid, SwidView, Tool, ToolView,
};
use vstd::prelude::*;

verus! {

impl AttachedTextView {
    /// The shape that schema 1.3 gives to the attached text `c`.
    pub open spec fn from_canonical(c: models::AttachedTextView) -> AttachedTextView {
        AttachedTextView {
            content_type: c.content_type,
            encoding: c.encoding,
            content: c.content,
        }
    }

    /// The attached text that this shape stands for.
    pub open spec fn to_canonical(self) -> models::AttachedTextView {
        models::AttachedTextView {
            content_type: self.content_type,
            encoding: self.encoding,
            content: self.content,
        }
    }
}

impl AttachedText {
    /// Shapes a attached text as schema 1.3 writes it.
    pub fn from_canonical(c: &models::AttachedText) -> (r: AttachedText)
        ensures
            r.deep_view() == AttachedTextView::from_canonical(c.deep_view()),
    {
        let content_type = opt_text_to_string(&c.content_type);
        let encoding = opt_encoding_to_string(&c.encoding);
        let content = c.content.clone();
        AttachedText { content_type, encoding, content }
    }

    /// Reads the shape back as a attached text. Text is taken as it is, without
    /// validating it again.
    pub fn to_canonical(&self) -> (r: models::AttachedText)
        ensures
            r.deep_view() == self.deep_view().to_canonical(),
    {
        let content_type = opt_string_to_text(&self.content_type);
        let encoding = opt_string_to_encoding(&self.encoding);
        let content = self.content.clone();
        models::AttachedText { content_type, encoding, content }
    }

    /// Shapes one that may be absent.
    pub fn opt_from_canonical(o: &Option<models::AttachedText>) -> (r: Option<AttachedText>)
        ensures
            r.deep_view() == (match o.deep_view() {
                Some(x) => Some(AttachedTextView::from_canonical(x)),
                None => None,
            }),
    {
        match o {
            Some(x) => Some(AttachedText::from_canonical(x)),
            None => None,
        }
    }

    /// Reads back one that may be absent.
    pub fn opt_to_canonical(o: &Option<AttachedText>) -> (r: Option<models::AttachedText>)
        ensures
            r.deep_view() == (match o.deep_view() {
                Some(x) => Some(x.to_canonical()),
                None => None,
            }),
    {
        match o {
            Some(x) => {
                Some(x.to_canonical())
            },
            None => None,
        }
    }
}

impl HashView {
    /// The shape that schema 1.3 gives to the hash `c`.
    pub open spec fn from_canonical(c: models::HashView) -> HashView {
        HashView {
            alg: hash_algorithm_token(c.alg),
            content: c.value,
        }
    }

    /// Every word in it, at any depth, belongs to the vocabulary of its
    /// place.
    pub open spec fn well_formed(self) -> bool {
        &&& hash_algorithm_of_token(self.alg) is Some
    }

    /// The hash that this shape stands for, where it is well formed.
    pub open spec fn to_canonical(self) -> models::HashView {
        models::HashView {
            alg: hash_algorithm_of_token(self.alg).unwrap(),
            value: self.content,
        }
    }

    /// The shapes of a sequence of them, one for one.
    pub open spec fn seq_from_canonical(s: Seq<models::HashView>) -> Seq<HashView> {
        Seq::new(s.len(), |i: int| HashView::from_canonical(s[i]))
    }

    /// What a sequence of shapes stands for, one for one.
    pub open spec fn seq_to_canonical(s: Seq<HashView>) -> Seq<models::HashView> {
        Seq::new(s.len(), |i: int| s[i].to_canonical())
    }

    /// Each of them is well formed.
    pub open spec fn all_well_formed(s: Seq<HashView>) -> bool {
        forall|i: int| 0 <= i < s.len() ==> (#[trigger] s[i]).well_formed()
    }
}

impl crate::specs::v1_3::Hash {
    /// Shapes a hash as schema 1.3 writes it.
    pub fn from_canonical(c: &models::Hash) -> (r: crate::specs::v1_3::Hash)
        ensures
            r.deep_view() == HashView::from_canonical(c.deep_view()),
    {
        let alg = hash_algorithm_to_token(c.alg);
        let content = HashValue(c.value.to_string());
        crate::specs::v1_3::Hash { alg, content }
    }

    /// Reads the shape back as a hash; `None` exactly where a word in it is
    /// outside the vocabulary of its place.
    pub fn to_canonical(&self) -> (r: Option<models::Hash>)
        ensures
            r is Some <==> self.deep_view().well_formed(),
            r matches Some(c) ==> c.deep_view() == self.deep_view().to_canonical(),
    {
        let alg = match hash_algorithm_from_token(self.alg.as_str()) {
            Some(x) => x,
            None => {
                return None;
            },
        };
        let value = models::HashValue::new_unchecked(self.content.0.clone());
        Some(models::Hash { alg, value })
    }

    /// Shapes a list of them, one for one.
    pub fn vec_from_canonical(v: &Vec<models::Hash>) -> (r: Vec<crate::specs::v1_3::Hash>)
        ensures
            r.deep_view() == HashView::seq_from_canonical(v.deep_view()),
    {
        let mut out: Vec<crate::specs::v1_3::Hash> = Vec::new();
        let mut i: usize = 0;
        while i < v.len()
            invariant
                i <= v.len(),
                out.len() == i,
                forall|j: int|
                    0 <= j < i ==> (#[trigger] out[j]).deep_view() == HashView::from_canonical(
                        v[j].deep_view(),
                    ),
            decreases v.len() - i,
        {
            out.push(crate::specs::v1_3::Hash::from_canonical(&v[i]));
            i += 1;
        }
        proof {
            assert(out.deep_view() =~= HashView::seq_from_canonical(v.deep_view()));
        }
        out
    }

    /// Reads a list of shapes back, one for one; `None` exactly where one of
    /// them is not well formed.
    pub fn vec_to_canonical(v: &Vec<crate::specs::v1_3::Hash>) -> (r: Option<Vec<models::Hash>>)
        ensures
            r is Some <==> HashView::all_well_formed(v.deep_view()),
            r matches Some(c) ==> c.deep_view() == HashView::seq_to_canonical(v.deep_view()),
    {
        let mut out: Vec<models::Hash> = Vec::new();
        let mut i: usize = 0;
        while i < v.len()
            invariant
                i <= v.len(),
                out.len() == i,
                forall|j: int| 0 <= j < i ==> (#[trigger] v[j]).deep_view().well_formed(),
                forall|j: int|
                    0 <= j < i ==> (#[trigger] out[j]).deep_view()
                        == v[j].deep_view().to_canonical(),
            decreases v.len() - i,
        {
            match v[i].to_canonical() {
                Some(c) => {
                    out.push(c);
                },
                None => {
                    proof {
                        assert(v.deep_view()[i as int] == v[i as int].deep_view());
                    }
                    return None;
                },
            }
            i += 1;
        }
        proof {
            assert(out.deep_view() =~= HashView::seq_to_canonical(v.deep_view()));
            assert forall|j: int| 0 <= j < v.deep_view().len() implies (
                #[trigger] v.deep_view()[j]
            ).well_formed() by {
                assert(v.deep_view()[j] == v[j].deep_view());
            }
        }
        Some(out)
    }

    /// Shapes a list that may be absent.
    pub fn opt_vec_from_canonical(o: &Option<Vec<models::Hash>>) -> (r: Option<Vec<crate::specs::v1_3::Hash>>)
        ensures
            r.deep_view() == (match o.deep_view() {
                Some(x) => Some(HashView::seq_from_canonical(x)),
                None => None,
            }),
    {
        match o {
            Some(x) => Some(crate::specs::v1_3::Hash::vec_from_canonical(x)),
            None => None,
        }
    }

    /// Reads back a list that may be absent; the outer `None` exactly where
    /// it is there and one of its shapes is not well formed.
    pub fn opt_vec_to_canonical(o: &Option<Vec<crate::specs::v1_3::Hash>>) -> (r: Option<Option<Vec<models::Hash>>>)
        ensures
            r is Some <==> (o.deep_view() matches Some(x) ==> HashView::all_well_formed(x)),
            r matches Some(c) ==> c.deep_view() == (match o.deep_view() {
                Some(x) => Some(HashView::seq_to_canonical(x)),
                None => None,
            }),
    {
        match o {
            Some(x) => {
                match crate::specs::v1_3::Hash::vec_to_canonical(x) {
                    Some(c) => Some(Some(c)),
                    None => None,
                }
            },
            None => Some(None),
        }
    }
}

impl OrganizationalContactView {
    /// The shape that schema 1.3 gives to the organizational contact `c`.
    pub open spec fn from_canonical(c: models::OrganizationalContactView) -> OrganizationalContactView
    {
        OrganizationalContactView {
            name: c.name,
            email: c.email,
            phone: c.phone,
        }
    }

    /// The organizational contact that this shape stands for.
    pub open spec fn to_canonical(self) -> models::OrganizationalContactView {
        models::OrganizationalContactView {
            name: self.name,
            email: self.email,
            phone: self.phone,
        }
    }

    /// The shapes of a sequence of them, one for one.
    pub open spec fn seq_from_canonical(s: Seq<models::OrganizationalContactView>) -> Seq<OrganizationalContactView>
    {
        Seq::new(s.len(), |i: int| OrganizationalContactView::from_canonical(s[i]))
    }

    /// What a sequence of shapes stands for, one for one.
    pub open spec fn seq_to_canonical(s: Seq<OrganizationalContactView>) -> Seq<models::OrganizationalContactView>
    {
        Seq::new(s.len(), |i: int| s[i].to_canonical())
    }
}

impl OrganizationalContact {
    /// Shapes a organizational contact as schema 1.3 writes it.
    pub fn from_canonical(c: &models::OrganizationalContact) -> (r: OrganizationalContact)
        ensures
            r.deep_view() == OrganizationalContactView::from_canonical(c.deep_view()),
    {
        let name = opt_text_to_string(&c.name);
        let email = opt_text_to_string(&c.email);
        let phone = opt_text_to_string(&c.phone);
        OrganizationalContact { name, email, phone }
    }

    /// Reads the shape back as a organizational contact. Text is taken as it is, without
    /// validating it again.
    pub fn to_canonical(&self) -> (r: models::OrganizationalContact)
        ensures
            r.deep_view() == self.deep_view().to_canonical(),
    {
        let name = opt_string_to_text(&self.name);
        let email = opt_string_to_text(&self.email);
        let phone = opt_string_to_text(&self.phone);
        models::OrganizationalContact { name, email, phone }
    }

    /// Shapes a list of them, one for one.
    pub fn vec_from_canonical(v: &Vec<models::OrganizationalContact>) -> (r: Vec<OrganizationalContact>)
        ensures
            r.deep_view() == OrganizationalContactView::seq_from_canonical(v.deep_view()),
    {
        let mut out: Vec<OrganizationalContact> = Vec::new();
        let mut i: usize = 0;
        while i < v.len()
            invariant
                i <= v.len(),
                out.len() == i,
                forall|j: int|
                    0 <= j < i ==> (#[trigger] out[j]).deep_view() == OrganizationalContactView::from_canonical(
                        v[j].deep_view(),
                    ),
            decreases v.len() - i,
        {
            out.push(OrganizationalContact::from_canonical(&v[i]));
            i += 1;
        }
        proof {
            assert(
                out.deep_view() =~= OrganizationalContactView::seq_from_canonical(v.deep_view())
            );
        }
        out
    }

    /// Reads a list of shapes back, one for one.
    pub fn vec_to_canonical(v: &Vec<OrganizationalContact>) -> (r: Vec<models::OrganizationalContact>)
        ensures
            r.deep_view() == OrganizationalContactView::seq_to_canonical(v.deep_view()),
    {
        let mut out: Vec<models::OrganizationalContact> = Vec::new();
        let mut i: usize = 0;
        while i < v.len()
            invariant
                i <= v.len(),
                out.len() == i,
                forall|j: int|
                    0 <= j < i ==> (#[trigger] out[j]).deep_view()
                        == v[j].deep_view().to_canonical(),
            decreases v.len() - i,
        {
            out.push(v[i].to_canonical());
            i += 1;
        }
        proof {
            assert(out.deep_view() =~= OrganizationalContactView::seq_to_canonical(v.deep_view()));
        }
        out
    }

    /// Shapes a list that may be absent.
    pub fn opt_vec_from_canonical(o: &Option<Vec<models::OrganizationalContact>>) -> (r: Option<Vec<OrganizationalContact>>)
        ensures
            r.deep_view() == (match o.deep_view() {
                Some(x) => Some(OrganizationalContactView::seq_from_canonical(x)),
                None => None,
            }),
    {
        match o {
            Some(x) => Some(OrganizationalContact::vec_from_canonical(x)),
            None => None,
        }
    }

    /// Reads back a list that may be absent.
    pub fn opt_vec_to_canonical(o: &Option<Vec<OrganizationalContact>>) -> (r: Option<Vec<models::OrganizationalContact>>)
        ensures
            r.deep_view() == (match o.deep_view() {
                Some(x) => Some(OrganizationalContactView::seq_to_canonical(x)),
                None => None,
            }),
    {
        match o {
            Some(x) => {
                Some(OrganizationalContact::vec_to_canonical(x))
            },
            None => None,
        }
    }
}

impl OrganizationalEntityView {
    /// The shape that schema 1.3 gives to the organizational entity `c`.
    pub open spec fn from_canonical(c: models::OrganizationalEntityView) -> OrganizationalEntityView
    {
        OrganizationalEntityView {
            name: c.name,
            url: c.url,
            contact: match c.contact {
                Some(x) => Some(OrganizationalContactView::seq_from_canonical(x)),
                None => None,
            },
        }
    }

    /// The organizational entity that this shape stands for.
    pub open spec fn to_canonical(self) -> models::OrganizationalEntityView {
        models::OrganizationalEntityView {
            name: self.name,
            url: self.url,
            contact: match self.contact {
                Some(x) => Some(OrganizationalContactView::seq_to_canonical(x)),
                None => None,
            },
        }
    }
}

impl OrganizationalEntity {
    /// Shapes a organizational entity as schema 1.3 writes it.
    pub fn from_canonical(c: &models::OrganizationalEntity) -> (r: OrganizationalEntity)
        ensures
            r.deep_view() == OrganizationalEntityView::from_canonical(c.deep_view()),
    {
        let name = opt_text_to_string(&c.name);
        let url = opt_uris_to_strings(&c.url);
        let contact = OrganizationalContact::opt_vec_from_canonical(&c.contact);
        OrganizationalEntity { name, url, contact }
    }

    /// Reads the shape back as a organizational entity. Text is taken as it is, without
    /// validating it again.
    pub fn to_canonical(&self) -> (r: models::OrganizationalEntity)
        ensures
            r.deep_view() == self.deep_view().to_canonical(),
    {
        let name = opt_string_to_text(&self.name);
        let url = opt_strings_to_uris(&self.url);
        let contact = OrganizationalContact::opt_vec_to_canonical(&self.contact);
        models::OrganizationalEntity { name, url, contact }
    }

    /// Shapes one that may be absent.
    pub fn opt_from_canonical(o: &Option<models::OrganizationalEntity>) -> (r: Option<OrganizationalEntity>)
        ensures
            r.deep_view() == (match o.deep_view() {
                Some(x) => Some(OrganizationalEntityView::from_canonical(x)),
                None => None,
            }),
    {
        match o {
            Some(x) => Some(OrganizationalEntity::from_canonical(x)),
            None => None,
        }
    }

    /// Reads back one that may be absent.
    pub fn opt_to_canonical(o: &Option<OrganizationalEntity>) -> (r: Option<models::OrganizationalEntity>)
        ensures
            r.deep_view() == (match o.deep_view() {
                Some(x) => Some(x.to_canonical()),
                None => None,
            }),
    {
        match o {
            Some(x) => {
                Some(x.to_canonical())
            },
            None => None,
        }
    }
}

impl IdentifiableActionView {
    /// The shape that schema 1.3 gives to the identifiable action `c`.
    pub open spec fn from_canonical(c: models::IdentifiableActionView) -> IdentifiableActionView {
        IdentifiableActionView {
            timestamp: c.timestamp,
            name: c.name,
            email: c.email,
        }
    }

    /// The identifiable action that this shape stands for.
    pub open spec fn to_canonical(self) -> models::IdentifiableActionView {
        models::IdentifiableActionView {
            timestamp: self.timestamp,
            name: self.name,
            email: self.email,
        }
    }
}

impl IdentifiableAction {
    /// Shapes a identifiable action as schema 1.3 writes it.
    pub fn from_canonical(c: &models::IdentifiableAction) -> (r: IdentifiableAction)
        ensures
            r.deep_view() == IdentifiableActionView::from_canonical(c.deep_view()),
    {
        let timestamp = opt_date_time_to_string(&c.timestamp);
        let name = opt_text_to_string(&c.name);
        let email = opt_text_to_string(&c.email);
        IdentifiableAction { timestamp, name, email }
    }

    /// Reads the shape back as a identifiable action. Text is taken as it is, without
    /// validating it again.
    pub fn to_canonical(&self) -> (r: models::IdentifiableAction)
        ensures
            r.deep_view() == self.deep_view().to_canonical(),
    {
        let timestamp = opt_string_to_date_time(&self.timestamp);
        let name = opt_string_to_text(&self.name);
        let email = opt_string_to_text(&self.email);
        models::IdentifiableAction { timestamp, name, email }
    }

    /// Shapes one that may be absent.
    pub fn opt_from_canonical(o: &Option<models::IdentifiableAction>) -> (r: Option<IdentifiableAction>)
        ensures
            r.deep_view() == (match o.deep_view() {
                Some(x) => Some(IdentifiableActionView::from_canonical(x)),
                None => None,
            }),
    {
        match o {
            Some(x) => Some(IdentifiableAction::from_canonical(x)),
            None => None,
        }
    }

    /// Reads back one that may be absent.
    pub fn opt_to_canonical(o: &Option<IdentifiableAction>) -> (r: Option<models::IdentifiableAction>)
        ensures
            r.deep_view() == (match o.deep_view() {
                Some(x) => Some(x.to_canonical()),
                None => None,
            }),
    {
        match o {
            Some(x) => {
                Some(x.to_canonical())
            },
            None => None,
        }
    }
}

impl CommitView {
    /// The shape that schema 1.3 gives to the commit `c`.
    pub open spec fn from_canonical(c: models::CommitView) -> CommitView {
        CommitView {
            uid: c.uid,
            url: c.url,
            author: match c.author {
                Some(x) => Some(IdentifiableActionView::from_canonical(x)),
                None => None,
            },
            committer: match c.committer {
                Some(x) => Some(IdentifiableActionView::from_canonical(x)),
                None => None,
            },
            message: c.message,
        }
    }

    /// The commit that this shape stands for.
    pub open spec fn to_canonical(self) -> models::CommitView {
        models::CommitView {
            uid: self.uid,
            url: self.url,
            author: match self.author {
                Some(x) => Some(x.to_canonical()),
                None => None,
            },
            committer: match self.committer {
                Some(x) => Some(x.to_canonical()),
                None => None,
            },
            message: self.message,
        }
    }

    /// The shapes of a sequence of them, one for one.
    pub open spec fn seq_from_canonical(s: Seq<models::CommitView>) -> Seq<CommitView> {
        Seq::new(s.len(), |i: int| CommitView::from_canonical(s[i]))
    }

    /// What a sequence of shapes stands for, one for one.
    pub open spec fn seq_to_canonical(s: Seq<CommitView>) -> Seq<models::CommitView> {
        Seq::new(s.len(), |i: int| s[i].to_canonical())
    }
}

impl Commit {
    /// Shapes a commit as schema 1.3 writes it.
    pub fn from_canonical(c: &models::Commit) -> (r: Commit)
        ensures
            r.deep_view() == CommitView::from_canonical(c.deep_view()),
    {
        let uid = opt_text_to_string(&c.uid);
        let url = opt_uri_to_string(&c.url);
        let author = IdentifiableAction::opt_from_canonical(&c.author);
        let committer = IdentifiableAction::opt_from_canonical(&c.committer);
        let message = opt_text_to_string(&c.message);
        Commit { uid, url, author, committer, message }
    }

    /// Reads the shape back as a commit. Text is taken as it is, without
    /// validating it again.
    pub fn to_canonical(&self) -> (r: models::Commit)
        ensures
            r.deep_view() == self.deep_view().to_canonical(),
    {
        let uid = opt_string_to_text(&self.uid);
        let url = opt_string_to_uri(&self.url);
        let author = IdentifiableAction::opt_to_canonical(&self.author);
        let committer = IdentifiableAction::opt_to_canonical(&self.committer);
        let message = opt_string_to_text(&self.message);
        models::Commit { uid, url, author, committer, message }
    }

    /// Shapes a list of them, one for one.
    pub fn vec_from_canonical(v: &Vec<models::Commit>) -> (r: Vec<Commit>)
        ensures
            r.deep_view() == CommitView::seq_from_canonical(v.deep_view()),
    {
        let mut out: Vec<Commit> = Vec::new();
        let mut i: usize = 0;
        while i < v.len()
            invariant
                i <= v.len(),
                out.len() == i,
                forall|j: int|
                    0 <= j < i ==> (#[trigger] out[j]).deep_view() == CommitView::from_canonical(
                        v[j].deep_view(),
                    ),
            decreases v.len() - i,
        {
            out.push(Commit::from_canonical(&v[i]));
            i += 1;
        }
        proof {
            assert(out.deep_view() =~= CommitView::seq_from_canonical(v.deep_view()));
        }
        out
    }

    /// Reads a list of shapes back, one for one.
    pub fn vec_to_canonical(v: &Vec<Commit>) -> (r: Vec<models::Commit>)
        ensures
            r.deep_view() == CommitView::seq_to_canonical(v.deep_view()),
    {
        let mut out: Vec<models::Commit> = Vec::new();
        let mut i: usize = 0;
        while i < v.len()
            invariant
                i <= v.len(),
                out.len() == i,
                forall|j: int|
                    0 <= j < i ==> (#[trigger] out[j]).deep_view()
                        == v[j].deep_view().to_canonical(),
            decreases v.len() - i,
        {
            out.push(v[i].to_canonical());
            i += 1;
        }
        proof {
            assert(out.deep_view() =~= CommitView::seq_to_canonical(v.deep_view()));
        }
        out
    }

    /// Shapes a list that may be absent.
    pub fn opt_vec_from_canonical(o: &Option<Vec<models::Commit>>) -> (r: Option<Vec<Commit>>)
        ensures
            r.deep_view() == (match o.deep_view() {
                Some(x) => Some(CommitView::seq_from_canonical(x)),
                None => None,
            }),
    {
        match o {
            Some(x) => Some(Commit::vec_from_canonical(x)),
            None => None,
        }
    }

    /// Reads back a list that may be absent.
    pub fn opt_vec_to_canonical(o: &Option<Vec<Commit>>) -> (r: Option<Vec<models::Commit>>)
        ensures
            r.deep_view() == (match o.deep_view() {
                Some(x) => Some(CommitView::seq_to_canonical(x)),
                None => None,
            }),
    {
        match o {
            Some(x) => {
                Some(Commit::vec_to_canonical(x))
            },
            None => None,
        }
    }
}

impl CompositionView {
    /// The shape that schema 1.3 gives to the composition `c`.
    pub open spec fn from_canonical(c: models::CompositionView) -> CompositionView {
        CompositionView {
            aggregate: aggregate_type_token(c.aggregate),
            assemblies: c.assemblies,
            dependencies: c.dependencies,
        }
    }

    /// Every word in it, at any depth, belongs to the vocabulary of its
    /// place.
    pub open spec fn well_formed(self) -> bool {
        &&& aggregate_type_of_token(self.aggregate) is Some
    }

    /// The composition that this shape stands for, where it is well formed.
    pub open spec fn to_canonical(self) -> models::CompositionView {
        models::CompositionView {
            aggregate: aggregate_type_of_token(self.aggregate).unwrap(),
            assemblies: self.assemblies,
            dependencies: self.dependencies,
        }
    }

    /// The shapes of a sequence of them, one for one.
    pub open spec fn seq_from_canonical(s: Seq<models::CompositionView>) -> Seq<CompositionView> {
        Seq::new(s.len(), |i: int| CompositionView::from_canonical(s[i]))
    }

    /// What a sequence of shapes stands for, one for one.
    pub open spec fn seq_to_canonical(s: Seq<CompositionView>) -> Seq<models::CompositionView> {
        Seq::new(s.len(), |i: int| s[i].to_canonical())
    }

    /// Each of them is well formed.
    pub open spec fn all_well_formed(s: Seq<CompositionView>) -> bool {
        forall|i: int| 0 <= i < s.len() ==> (#[trigger] s[i]).well_formed()
    }
}

impl Composition {
    /// Shapes a composition as schema 1.3 writes it.
    pub fn from_canonical(c: &models::Composition) -> (r: Composition)
        ensures
            r.deep_view() == CompositionView::from_canonical(c.deep_view()),
    {
        let aggregate = aggregate_type_to_token(c.aggregate);
        let assemblies = opt_references_from_canonical(&c.assemblies);
        let dependencies = opt_references_from_canonical(&c.dependencies);
        Composition { aggregate, assemblies, dependencies }
    }

    /// Reads the shape back as a composition; `None` exactly where a word in it is
    /// outside the vocabulary of its place.
    pub fn to_canonical(&self) -> (r: Option<models::Composition>)
        ensures
            r is Some <==> self.deep_view().well_formed(),
            r matches Some(c) ==> c.deep_view() == self.deep_view().to_canonical(),
    {
        let aggregate = match aggregate_type_from_token(self.aggregate.as_str()) {
            Some(x) => x,
            None => {
                return None;
            },
        };
        let assemblies = opt_references_to_canonical(&self.assemblies);
        let dependencies = opt_references_to_canonical(&self.dependencies);
        Some(models::Composition { aggregate, assemblies, dependencies })
    }

    /// Shapes a list of them, one for one.
    pub fn vec_from_canonical(v: &Vec<models::Composition>) -> (r: Vec<Composition>)
        ensures
            r.deep_view() == CompositionView::seq_from_canonical(v.deep_view()),
    {
        let mut out: Vec<Composition> = Vec::new();
        let mut i: usize = 0;
        while i < v.len()
            invariant
                i <= v.len(),
                out.len() == i,
                forall|j: int|
                    0 <= j < i ==> (#[trigger] out[j]).deep_view() == CompositionView::from_canonical(
                        v[j].deep_view(),
                    ),
            decreases v.len() - i,
        {
            out.push(Composition::from_canonical(&v[i]));
            i += 1;
        }
        proof {
            assert(out.deep_view() =~= CompositionView::seq_from_canonical(v.deep_view()));
        }
        out
    }

    /// Reads a list of shapes back, one for one; `None` exactly where one of
    /// them is not well formed.
    pub fn vec_to_canonical(v: &Vec<Composition>) -> (r: Option<Vec<models::Composition>>)
        ensures
            r is Some <==> CompositionView::all_well_formed(v.deep_view()),
            r matches Some(c) ==> c.deep_view() == CompositionView::seq_to_canonical(v.deep_view()),
    {
        let mut out: Vec<models::Composition> = Vec::new();
        let mut i: usize = 0;
        while i < v.len()
            invariant
                i <= v.len(),
                out.len() == i,
                forall|j: int| 0 <= j < i ==> (#[trigger] v[j]).deep_view().well_formed(),
                forall|j: int|
                    0 <= j < i ==> (#[trigger] out[j]).deep_view()
                        == v[j].deep_view().to_canonical(),
            decreases v.len() - i,
        {
            match v[i].to_canonical() {
                Some(c) => {
                    out.push(c);
                },
                None => {
                    proof {
                        assert(v.deep_view()[i as int] == v[i as int].deep_view());
                    }
                    return None;
                },
            }
            i += 1;
        }
        proof {
            assert(out.deep_view() =~= CompositionView::seq_to_canonical(v.deep_view()));
            assert forall|j: int| 0 <= j < v.deep_view().len() implies (
                #[trigger] v.deep_view()[j]
            ).well_formed() by {
                assert(v.deep_view()[j] == v[j].deep_view());
            }
        }
        Some(out)
    }

    /// Shapes a list that may be absent.
    pub fn opt_vec_from_canonical(o: &Option<Vec<models::Composition>>) -> (r: Option<Vec<Composition>>)
        ensures
            r.deep_view() == (match o.deep_view() {
                Some(x) => Some(CompositionView::seq_from_canonical(x)),
                None => None,
            }),
    {
        match o {
            Some(x) => Some(Composition::vec_from_canonical(x)),
            None => None,
        }
    }

    /// Reads back a list that may be absent; the outer `None` exactly where
    /// it is there and one of its shapes is not well formed.
    pub fn opt_vec_to_canonical(o: &Option<Vec<Composition>>) -> (r: Option<Option<Vec<models::Composition>>>)
        ensures
            r is Some <==> (o.deep_view() matches Some(x) ==> CompositionView::all_well_formed(x)),
            r matches Some(c) ==> c.deep_view() == (match o.deep_view() {
                Some(x) => Some(CompositionView::seq_to_canonical(x)),
                None => None,
            }),
    {
        match o {
            Some(x) => {
                match Composition::vec_to_canonical(x) {
                    Some(c) => Some(Some(c)),
                    None => None,
                }
            },
            None => Some(None),
        }
    }
}

impl DataClassificationView {
    /// The shape that schema 1.3 gives to the data classification `c`.
    pub open spec fn from_canonical(c: models::DataClassificationView) -> DataClassificationView {
        DataClassificationView {
            flow: data_flow_type_token(c.flow),
            classification: c.classification,
        }
    }

    /// Every word in it, at any depth, belongs to the vocabulary of its
    /// place.
    pub open spec fn well_formed(self) -> bool {
        &&& data_flow_type_of_token(self.flow) is Some
    }

    /// The data classification that this shape stands for, where it is well formed.
    pub open spec fn to_canonical(self) -> models::DataClassificationView {
        models::DataClassificationView {
            flow: data_flow_type_of_token(self.flow).unwrap(),
            classification: self.classification,
        }
    }

    /// The shapes of a sequence of them, one for one.
    pub open spec fn seq_from_canonical(s: Seq<models::DataClassificationView>) -> Seq<DataClassificationView>
    {
        Seq::new(s.len(), |i: int| DataClassificationView::from_canonical(s[i]))
    }

    /// What a sequence of shapes stands for, one for one.
    pub open spec fn seq_to_canonical(s: Seq<DataClassificationView>) -> Seq<models::DataClassificationView>
    {
        Seq::new(s.len(), |i: int| s[i].to_canonical())
    }

    /// Each of them is well formed.
    pub open spec fn all_well_formed(s: Seq<DataClassificationView>) -> bool {
        forall|i: int| 0 <= i < s.len() ==> (#[trigger] s[i]).well_formed()
    }
}

impl DataClassification {
    /// Shapes a data classification as schema 1.3 writes it.
    pub fn from_canonical(c: &models::DataClassification) -> (r: DataClassification)
        ensures
            r.deep_view() == DataClassificationView::from_canonical(c.deep_view()),
    {
        let flow = data_flow_type_to_token(c.flow);
        let classification = c.classification.to_string();
        DataClassification { flow, classification }
    }

    /// Reads the shape back as a data classification; `None` exactly where a word in it is
    /// outside the vocabulary of its place.
    pub fn to_canonical(&self) -> (r: Option<models::DataClassification>)
        ensures
            r is Some <==> self.deep_view().well_formed(),
            r matches Some(c) ==> c.deep_view() == self.deep_view().to_canonical(),
    {
        let flow = match data_flow_type_from_token(self.flow.as_str()) {
            Some(x) => x,
            None => {
                return None;
            },
        };
        let classification = NormalizedString::new_unchecked(self.classification.clone());
        Some(models::DataClassification { flow, classification })
    }

    /// Shapes a list of them, one for one.
    pub fn vec_from_canonical(v: &Vec<models::DataClassification>) -> (r: Vec<DataClassification>)
        ensures
            r.deep_view() == DataClassificationView::seq_from_canonical(v.deep_view()),
    {
        let mut out: Vec<DataClassification> = Vec::new();
        let mut i: usize = 0;
        while i < v.len()
            invariant
                i <= v.len(),
                out.len() == i,
                forall|j: int|
                    0 <= j < i ==> (#[trigger] out[j]).deep_view() == DataClassificationView::from_canonical(
                        v[j].deep_view(),
                    ),
            decreases v.len() - i,
        {
            out.push(DataClassification::from_canonical(&v[i]));
            i += 1;
        }
        proof {
            assert(out.deep_view() =~= DataClassificationView::seq_from_canonical(v.deep_view()));
        }
        out
    }

    /// Reads a list of shapes back, one for one; `None` exactly where one of
    /// them is not well formed.
    pub fn vec_to_canonical(v: &Vec<DataClassification>) -> (r: Option<Vec<models::DataClassification>>)
        ensures
            r is Some <==> DataClassificationView::all_well_formed(v.deep_view()),
            r matches Some(c) ==> c.deep_view() == DataClassificationView::seq_to_canonical(
                v.deep_view(),
            ),
    {
        let mut out: Vec<models::DataClassification> = Vec::new();
        let mut i: usize = 0;
        while i < v.len()
            invariant
                i <= v.len(),
                out.len() == i,
                forall|j: int| 0 <= j < i ==> (#[trigger] v[j]).deep_view().well_formed(),
                forall|j: int|
                    0 <= j < i ==> (#[trigger] out[j]).deep_view()
                        == v[j].deep_view().to_canonical(),
            decreases v.len() - i,
        {
            match v[i].to_canonical() {
                Some(c) => {
                    out.push(c);
                },
                None => {
                    proof {
                        assert(v.deep_view()[i as int] == v[i as int].deep_view());
                    }
                    return None;
                },
            }
            i += 1;
        }
        proof {
            assert(out.deep_view() =~= DataClassificationView::seq_to_canonical(v.deep_view()));
            assert forall|j: int| 0 <= j < v.deep_view().len() implies (
                #[trigger] v.deep_view()[j]
            ).well_formed() by {
                assert(v.deep_view()[j] == v[j].deep_view());
            }
        }
        Some(out)
    }

    /// Shapes a list that may be absent.
    pub fn opt_vec_from_canonical(o: &Option<Vec<models::DataClassification>>) -> (r: Option<Vec<DataClassification>>)
        ensures
            r.deep_view() == (match o.deep_view() {
                Some(x) => Some(DataClassificationView::seq_from_canonical(x)),
                None => None,
            }),
    {
        match o {
            Some(x) => Some(DataClassification::vec_from_canonical(x)),
            None => None,
        }
    }

    /// Reads back a list that may be absent; the outer `None` exactly where
    /// it is there and one of its shapes is not well formed.
    pub fn opt_vec_to_canonical(o: &Option<Vec<DataClassification>>) -> (r: Option<Option<Vec<models::DataClassification>>>)
        ensures
            r is Some <==> (o.deep_view() matches Some(x) ==> DataClassificationView::all_well_formed(x)),
            r matches Some(c) ==> c.deep_view() == (match o.deep_view() {
                Some(x) => Some(DataClassificationView::seq_to_canonical(x)),
                None => None,
            }),
    {
        match o {
            Some(x) => {
                match DataClassification::vec_to_canonical(x) {
                    Some(c) => Some(Some(c)),
                    None => None,
                }
            },
            None => Some(None),
        }
    }
}

impl DiffView {
    /// The shape that schema 1.3 gives to the diff `c`.
    pub open spec fn from_canonical(c: models::DiffView) -> DiffView {
        DiffView {
            text: match c.text {
                Some(x) => Some(AttachedTextView::from_canonical(x)),
                None => None,
            },
            url: c.url,
        }
    }

    /// The diff that this shape stands for.
    pub open spec fn to_canonical(self) -> models::DiffView {
        models::DiffView {
            text: match self.text {
                Some(x) => Some(x.to_canonical()),
                None => None,
            },
            url: self.url,
        }
    }
}

impl Diff {
    /// Shapes a diff as schema 1.3 writes it.
    pub fn from_canonical(c: &models::Diff) -> (r: Diff)
        ensures
            r.deep_view() == DiffView::from_canonical(c.deep_view()),
    {
        let text = AttachedText::opt_from_canonical(&c.text);
        let url = opt_uri_to_string(&c.url);
        Diff { text, url }
    }

    /// Reads the shape back as a diff. Text is taken as it is, without
    /// validating it again.
    pub fn to_canonical(&self) -> (r: models::Diff)
        ensures
            r.deep_view() == self.deep_view().to_canonical(),
    {
        let text = AttachedText::opt_to_canonical(&self.text);
        let url = opt_string_to_uri(&self.url);
        models::Diff { text, url }
    }
}

impl ExternalReferenceView {
    /// The shape that schema 1.3 gives to the external reference `c`.
    pub open spec fn from_canonical(c: models::ExternalReferenceView) -> ExternalReferenceView {
        ExternalReferenceView {
            external_reference_type: external_reference_type_token(c.external_reference_type),
            url: c.url,
            comment: c.comment,
            hashes: match c.hashes {
                Some(x) => Some(HashView::seq_from_canonical(x)),
                None => None,
            },
        }
    }

    /// Every word in it, at any depth, belongs to the vocabulary of its
    /// place.
    pub open spec fn well_formed(self) -> bool {
        &&& external_reference_type_of_token(self.external_reference_type) is Some
        &&& (self.hashes matches Some(x) ==> HashView::all_well_formed(x))
    }

    /// The external reference that this shape stands for, where it is well formed.
    pub open spec fn to_canonical(self) -> models::ExternalReferenceView {
        models::ExternalReferenceView {
            external_reference_type: external_reference_type_of_token(self.external_reference_type).unwrap(),
            url: self.url,
            comment: self.comment,
            hashes: match self.hashes {
                Some(x) => Some(HashView::seq_to_canonical(x)),
                None => None,
            },
        }
    }

    /// The shapes of a sequence of them, one for one.
    pub open spec fn seq_from_canonical(s: Seq<models::ExternalReferenceView>) -> Seq<ExternalReferenceView>
    {
        Seq::new(s.len(), |i: int| ExternalReferenceView::from_canonical(s[i]))
    }

    /// What a sequence of shapes stands for, one for one.
    pub open spec fn seq_to_canonical(s: Seq<ExternalReferenceView>) -> Seq<models::ExternalReferenceView>
    {
        Seq::new(s.len(), |i: int| s[i].to_canonical())
    }

    /// Each of them is well formed.
    pub open spec fn all_well_formed(s: Seq<ExternalReferenceView>) -> bool {
        forall|i: int| 0 <= i < s.len() ==> (#[trigger] s[i]).well_formed()
    }
}

impl ExternalReference {
    /// Shapes a external reference as schema 1.3 writes it.
    pub fn from_canonical(c: &models::ExternalReference) -> (r: ExternalReference)
        ensures
            r.deep_view() == ExternalReferenceView::from_canonical(c.deep_view()),
    {
        let external_reference_type = external_reference_type_to_token(c.external_reference_type);
        let url = c.url.to_string();
        let comment = opt_string_clone(&c.comment);
        let hashes = crate::specs::v1_3::Hash::opt_vec_from_canonical(&c.hashes);
        ExternalReference { external_reference_type, url, comment, hashes }
    }

    /// Reads the shape back as a external reference; `None` exactly where a word in it is
    /// outside the vocabulary of its place.
    pub fn to_canonical(&self) -> (r: Option<models::ExternalReference>)
        ensures
            r is Some <==> self.deep_view().well_formed(),
            r matches Some(c) ==> c.deep_view() == self.deep_view().to_canonical(),
    {
        let external_reference_type = match external_reference_type_from_token(
            self.external_reference_type.as_str(),
        ) {
            Some(x) => x,
            None => {
                return None;
            },
        };
        let url = Uri::new_unchecked(self.url.clone());
        let comment = opt_string_clone(&self.comment);
        let hashes = match crate::specs::v1_3::Hash::opt_vec_to_canonical(&self.hashes) {
            Some(x) => x,
            None => {
                return None;
            },
        };
        Some(models::ExternalReference { external_reference_type, url, comment, hashes })
    }

    /// Shapes a list of them, one for one.
    pub fn vec_from_canonical(v: &Vec<models::ExternalReference>) -> (r: Vec<ExternalReference>)
        ensures
            r.deep_view() == ExternalReferenceView::seq_from_canonical(v.deep_view()),
    {
        let mut out: Vec<ExternalReference> = Vec::new();
        let mut i: usize = 0;
        while i < v.len()
            invariant
                i <= v.len(),
                out.len() == i,
                forall|j: int|
                    0 <= j < i ==> (#[trigger] out[j]).deep_view() == ExternalReferenceView::from_canonical(
                        v[j].deep_view(),
                    ),
            decreases v.len() - i,
        {
            out.push(ExternalReference::from_canonical(&v[i]));
            i += 1;
        }
        proof {
            assert(out.deep_view() =~= ExternalReferenceView::seq_from_canonical(v.deep_view()));
        }
        out
    }

    /// Reads a list of shapes back, one for one; `None` exactly where one of
    /// them is not well formed.
    pub fn vec_to_canonical(v: &Vec<ExternalReference>) -> (r: Option<Vec<models::ExternalReference>>)
        ensures
            r is Some <==> ExternalReferenceView::all_well_formed(v.deep_view()),
            r matches Some(c) ==> c.deep_view() == ExternalReferenceView::seq_to_canonical(
                v.deep_view(),
            ),
    {
        let mut out: Vec<models::ExternalReference> = Vec::new();
        let mut i: usize = 0;
        while i < v.len()
            invariant
                i <= v.len(),
                out.len() == i,
                forall|j: int| 0 <= j < i ==> (#[trigger] v[j]).deep_view().well_formed(),
                forall|j: int|
                    0 <= j < i ==> (#[trigger] out[j]).deep_view()
                        == v[j].deep_view().to_canonical(),
            decreases v.len() - i,
        {
            match v[i].to_canonical() {
                Some(c) => {
                    out.push(c);
                },
                None => {
                    proof {
                        assert(v.deep_view()[i as int] == v[i as int].deep_view());
                    }
                    return None;
                },
            }
            i += 1;
        }
        proof {
            assert(out.deep_view() =~= ExternalReferenceView::seq_to_canonical(v.deep_view()));
            assert forall|j: int| 0 <= j < v.deep_view().len() implies (
                #[trigger] v.deep_view()[j]
            ).well_formed() by {
                assert(v.deep_view()[j] == v[j].deep_view());
            }
        }
        Some(out)
    }

    /// Shapes a list that may be absent.
    pub fn opt_vec_from_canonical(o: &Option<Vec<models::ExternalReference>>) -> (r: Option<Vec<ExternalReference>>)
        ensures
            r.deep_view() == (match o.deep_view() {
                Some(x) => Some(ExternalReferenceView::seq_from_canonical(x)),
                None => None,
            }),
    {
        match o {
            Some(x) => Some(ExternalReference::vec_from_canonical(x)),
            None => None,
        }
    }

    /// Reads back a list that may be absent; the outer `None` exactly where
    /// it is there and one of its shapes is not well formed.
    pub fn opt_vec_to_canonical(o: &Option<Vec<ExternalReference>>) -> (r: Option<Option<Vec<models::ExternalReference>>>)
        ensures
            r is Some <==> (o.deep_view() matches Some(x) ==> ExternalReferenceView::all_well_formed(x)),
            r matches Some(c) ==> c.deep_view() == (match o.deep_view() {
                Some(x) => Some(ExternalReferenceView::seq_to_canonical(x)),
                None => None,
            }),
    {
        match o {
            Some(x) => {
                match ExternalReference::vec_to_canonical(x) {
                    Some(c) => Some(Some(c)),
                    None => None,
                }
            },
            None => Some(None),
        }
    }
}

impl SourceView {
    /// The shape that schema 1.3 gives to the source `c`.
    pub open spec fn from_canonical(c: models::SourceView) -> SourceView {
        SourceView {
            name: c.name,
            url: c.url,
        }
    }

    /// The source that this shape stands for.
    pub open spec fn to_canonical(self) -> models::SourceView {
        models::SourceView {
            name: self.name,
            url: self.url,
        }
    }
}

impl Source {
    /// Shapes a source as schema 1.3 writes it.
    pub fn from_canonical(c: &models::Source) -> (r: Source)
        ensures
            r.deep_view() == SourceView::from_canonical(c.deep_view()),
    {
        let name = opt_text_to_string(&c.name);
        let url = opt_uri_to_string(&c.url);
        Source { name, url }
    }

    /// Reads the shape back as a source. Text is taken as it is, without
    /// validating it again.
    pub fn to_canonical(&self) -> (r: models::Source)
        ensures
            r.deep_view() == self.deep_view().to_canonical(),
    {
        let name = opt_string_to_text(&self.name);
        let url = opt_string_to_uri(&self.url);
        models::Source { name, url }
    }

    /// Shapes one that may be absent.
    pub fn opt_from_canonical(o: &Option<models::Source>) -> (r: Option<Source>)
        ensures
            r.deep_view() == (match o.deep_view() {
                Some(x) => Some(SourceView::from_canonical(x)),
                None => None,
            }),
    {
        match o {
            Some(x) => Some(Source::from_canonical(x)),
            None => None,
        }
    }

    /// Reads back one that may be absent.
    pub fn opt_to_canonical(o: &Option<Source>) -> (r: Option<models::Source>)
        ensures
            r.deep_view() == (match o.deep_view() {
                Some(x) => Some(x.to_canonical()),
                None => None,
            }),
    {
        match o {
            Some(x) => {
                Some(x.to_canonical())
            },
            None => None,
        }
    }
}

impl IssueView {
    /// The shape that schema 1.3 gives to the issue `c`.
    pub open spec fn from_canonical(c: models::IssueView) -> IssueView {
        IssueView {
            issue_type: issue_classification_token(c.issue_type),
            id: c.id,
            name: c.name,
            description: c.description,
            source: match c.source {
                Some(x) => Some(SourceView::from_canonical(x)),
                None => None,
            },
            references: c.references,
        }
    }

    /// Every word in it, at any depth, belongs to the vocabulary of its
    /// place.
    pub open spec fn well_formed(self) -> bool {
        &&& issue_classification_of_token(self.issue_type) is Some
    }

    /// The issue that this shape stands for, where it is well formed.
    pub open spec fn to_canonical(self) -> models::IssueView {
        models::IssueView {
            issue_type: issue_classification_of_token(self.issue_type).unwrap(),
            id: self.id,
            name: self.name,
            description: self.description,
            source: match self.source {
                Some(x) => Some(x.to_canonical()),
                None => None,
            },
            references: self.references,
        }
    }

    /// The shapes of a sequence of them, one for one.
    pub open spec fn seq_from_canonical(s: Seq<models::IssueView>) -> Seq<IssueView> {
        Seq::new(s.len(), |i: int| IssueView::from_canonical(s[i]))
    }

    /// What a sequence of shapes stands for, one for one.
    pub open spec fn seq_to_canonical(s: Seq<IssueView>) -> Seq<models::IssueView> {
        Seq::new(s.len(), |i: int| s[i].to_canonical())
    }

    /// Each of them is well formed.
    pub open spec fn all_well_formed(s: Seq<IssueView>) -> bool {
        forall|i: int| 0 <= i < s.len() ==> (#[trigger] s[i]).well_formed()
    }
}

impl Issue {
    /// Shapes a issue as schema 1.3 writes it.
    pub fn from_canonical(c: &models::Issue) -> (r: Issue)
        ensures
            r.deep_view() == IssueView::from_canonical(c.deep_view()),
    {
        let issue_type = issue_classification_to_token(c.issue_type);
        let id = opt_text_to_string(&c.id);
        let name = opt_text_to_string(&c.name);
        let description = opt_text_to_string(&c.description);
        let source = Source::opt_from_canonical(&c.source);
        let references = opt_uris_to_strings(&c.references);
        Issue { issue_type, id, name, description, source, references }
    }

    /// Reads the shape back as a issue; `None` exactly where a word in it is
    /// outside the vocabulary of its place.
    pub fn to_canonical(&self) -> (r: Option<models::Issue>)
        ensures
            r is Some <==> self.deep_view().well_formed(),
            r matches Some(c) ==> c.deep_view() == self.deep_view().to_canonical(),
    {
        let issue_type = match issue_classification_from_token(self.issue_type.as_str()) {
            Some(x) => x,
            None => {
                return None;
            },
        };
        let id = opt_string_to_text(&self.id);
        let name = opt_string_to_text(&self.name);
        let description = opt_string_to_text(&self.description);
        let source = Source::opt_to_canonical(&self.source);
        let references = opt_strings_to_uris(&self.references);
        Some(models::Issue { issue_type, id, name, description, source, references })
    }

    /// Shapes a list of them, one for one.
    pub fn vec_from_canonical(v: &Vec<models::Issue>) -> (r: Vec<Issue>)
        ensures
            r.deep_view() == IssueView::seq_from_canonical(v.deep_view()),
    {
        let mut out: Vec<Issue> = Vec::new();
        let mut i: usize = 0;
        while i < v.len()
            invariant
                i <= v.len(),
                out.len() == i,
                forall|j: int|
                    0 <= j < i ==> (#[trigger] out[j]).deep_view() == IssueView::from_canonical(
                        v[j].deep_view(),
                    ),
            decreases v.len() - i,
        {
            out.push(Issue::from_canonical(&v[i]));
            i += 1;
        }
        proof {
            assert(out.deep_view() =~= IssueView::seq_from_canonical(v.deep_view()));
        }
        out
    }

    /// Reads a list of shapes back, one for one; `None` exactly where one of
    /// them is not well formed.
    pub fn vec_to_canonical(v: &Vec<Issue>) -> (r: Option<Vec<models::Issue>>)
        ensures
            r is Some <==> IssueView::all_well_formed(v.deep_view()),
            r matches Some(c) ==> c.deep_view() == IssueView::seq_to_canonical(v.deep_view()),
    {
        let mut out: Vec<models::Issue> = Vec::new();
        let mut i: usize = 0;
        while i < v.len()
            invariant
                i <= v.len(),
                out.len() == i,
                forall|j: int| 0 <= j < i ==> (#[trigger] v[j]).deep_view().well_formed(),
                forall|j: int|
                    0 <= j < i ==> (#[trigger] out[j]).deep_view()
                        == v[j].deep_view().to_canonical(),
            decreases v.len() - i,
        {
            match v[i].to_canonical() {
                Some(c) => {
                    out.push(c);
                },
                None => {
                    proof {
                        assert(v.deep_view()[i as int] == v[i as int].deep_view());
                    }
                    return None;
                },
            }
            i += 1;
        }
        proof {
            assert(out.deep_view() =~= IssueView::seq_to_canonical(v.deep_view()));
            assert forall|j: int| 0 <= j < v.deep_view().len() implies (
                #[trigger] v.deep_view()[j]
            ).well_formed() by {
                assert(v.deep_view()[j] == v[j].deep_view());
            }
        }
        Some(out)
    }

    /// Shapes a list that may be absent.
    pub fn opt_vec_from_canonical(o: &Option<Vec<models::Issue>>) -> (r: Option<Vec<Issue>>)
        ensures
            r.deep_view() == (match o.deep_view() {
                Some(x) => Some(IssueView::seq_from_canonical(x)),
                None => None,
            }),
    {
        match o {
            Some(x) => Some(Issue::vec_from_canonical(x)),
            None => None,
        }
    }

    /// Reads back a list that may be absent; the outer `None` exactly where
    /// it is there and one of its shapes is not well formed.
    pub fn opt_vec_to_canonical(o: &Option<Vec<Issue>>) -> (r: Option<Option<Vec<models::Issue>>>)
        ensures
            r is Some <==> (o.deep_view() matches Some(x) ==> IssueView::all_well_formed(x)),
            r matches Some(c) ==> c.deep_view() == (match o.deep_view() {
                Some(x) => Some(IssueView::seq_to_canonical(x)),
                None => None,
            }),
    {
        match o {
            Some(x) => {
                match Issue::vec_to_canonical(x) {
                    Some(c) => Some(Some(c)),
                    None => None,
                }
            },
            None => Some(None),
        }
    }
}

impl PatchView {
    /// The shape that schema 1.3 gives to the patch `c`.
    pub open spec fn from_canonical(c: models::PatchView) -> PatchView {
        PatchView {
            patch_type: patch_classification_token(c.patch_type),
            diff: DiffView::from_canonical(c.diff),
            resolves: match c.resolves {
                Some(x) => Some(IssueView::seq_from_canonical(x)),
                None => None,
            },
        }
    }

    /// Every word in it, at any depth, belongs to the vocabulary of its
    /// place.
    pub open spec fn well_formed(self) -> bool {
        &&& patch_classification_of_token(self.patch_type) is Some
        &&& (self.resolves matches Some(x) ==> IssueView::all_well_formed(x))
    }

    /// The patch that this shape stands for, where it is well formed.
    pub open spec fn to_canonical(self) -> models::PatchView {
        models::PatchView {
            patch_type: patch_classification_of_token(self.patch_type).unwrap(),
            diff: self.diff.to_canonical(),
            resolves: match self.resolves {
                Some(x) => Some(IssueView::seq_to_canonical(x)),
                None => None,
            },
        }
    }

    /// The shapes of a sequence of them, one for one.
    pub open spec fn seq_from_canonical(s: Seq<models::PatchView>) -> Seq<PatchView> {
        Seq::new(s.len(), |i: int| PatchView::from_canonical(s[i]))
    }

    /// What a sequence of shapes stands for, one for one.
    pub open spec fn seq_to_canonical(s: Seq<PatchView>) -> Seq<models::PatchView> {
        Seq::new(s.len(), |i: int| s[i].to_canonical())
    }

    /// Each of them is well formed.
    pub open spec fn all_well_formed(s: Seq<PatchView>) -> bool {
        forall|i: int| 0 <= i < s.len() ==> (#[trigger] s[i]).well_formed()
    }
}

impl Patch {
    /// Shapes a patch as schema 1.3 writes it.
    pub fn from_canonical(c: &models::Patch) -> (r: Patch)
        ensures
            r.deep_view() == PatchView::from_canonical(c.deep_view()),
    {
        let patch_type = patch_classification_to_token(c.patch_type);
        let diff = Diff::from_canonical(&c.diff);
        let resolves = Issue::opt_vec_from_canonical(&c.resolves);
        Patch { patch_type, diff, resolves }
    }

    /// Reads the shape back as a patch; `None` exactly where a word in it is
    /// outside the vocabulary of its place.
    pub fn to_canonical(&self) -> (r: Option<models::Patch>)
        ensures
            r is Some <==> self.deep_view().well_formed(),
            r matches Some(c) ==> c.deep_view() == self.deep_view().to_canonical(),
    {
        let patch_type = match patch_classification_from_token(self.patch_type.as_str()) {
            Some(x) => x,
            None => {
                return None;
            },
        };
        let diff = self.diff.to_canonical();
        let resolves = match Issue::opt_vec_to_canonical(&self.resolves) {
            Some(x) => x,
            None => {
                return None;
            },
        };
        Some(models::Patch { patch_type, diff, resolves })
    }

    /// Shapes a list of them, one for one.
    pub fn vec_from_canonical(v: &Vec<models::Patch>) -> (r: Vec<Patch>)
        ensures
            r.deep_view() == PatchView::seq_from_canonical(v.deep_view()),
    {
        let mut out: Vec<Patch> = Vec::new();
        let mut i: usize = 0;
        while i < v.len()
            invariant
                i <= v.len(),
                out.len() == i,
                forall|j: int|
                    0 <= j < i ==> (#[trigger] out[j]).deep_view() == PatchView::from_canonical(
                        v[j].deep_view(),
                    ),
            decreases v.len() - i,
        {
            out.push(Patch::from_canonical(&v[i]));
            i += 1;
        }
        proof {
            assert(out.deep_view() =~= PatchView::seq_from_canonical(v.deep_view()));
        }
        out
    }

    /// Reads a list of shapes back, one for one; `None` exactly where one of
    /// them is not well formed.
    pub fn vec_to_canonical(v: &Vec<Patch>) -> (r: Option<Vec<models::Patch>>)
        ensures
            r is Some <==> PatchView::all_well_formed(v.deep_view()),
            r matches Some(c) ==> c.deep_view() == PatchView::seq_to_canonical(v.deep_view()),
    {
        let mut out: Vec<models::Patch> = Vec::new();
        let mut i: usize = 0;
        while i < v.len()
            invariant
                i <= v.len(),
                out.len() == i,
                forall|j: int| 0 <= j < i ==> (#[trigger] v[j]).deep_view().well_formed(),
                forall|j: int|
                    0 <= j < i ==> (#[trigger] out[j]).deep_view()
                        == v[j].deep_view().to_canonical(),
            decreases v.len() - i,
        {
            match v[i].to_canonical() {
                Some(c) => {
                    out.push(c);
                },
                None => {
                    proof {
                        assert(v.deep_view()[i as int] == v[i as int].deep_view());
                    }
                    return None;
                },
            }
            i += 1;
        }
        proof {
            assert(out.deep_view() =~= PatchView::seq_to_canonical(v.deep_view()));
            assert forall|j: int| 0 <= j < v.deep_view().len() implies (
                #[trigger] v.deep_view()[j]
            ).well_formed() by {
                assert(v.deep_view()[j] == v[j].deep_view());
            }
        }
        Some(out)
    }

    /// Shapes a list that may be absent.
    pub fn opt_vec_from_canonical(o: &Option<Vec<models::Patch>>) -> (r: Option<Vec<Patch>>)
        ensures
            r.deep_view() == (match o.deep_view() {
                Some(x) => Some(PatchView::seq_from_canonical(x)),
                None => None,
            }),
    {
        match o {
            Some(x) => Some(Patch::vec_from_canonical(x)),
            None => None,
        }
    }

    /// Reads back a list that may be absent; the outer `None` exactly where
    /// it is there and one of its shapes is not well formed.
    pub fn opt_vec_to_canonical(o: &Option<Vec<Patch>>) -> (r: Option<Option<Vec<models::Patch>>>)
        ensures
            r is Some <==> (o.deep_view() matches Some(x) ==> PatchView::all_well_formed(x)),
            r matches Some(c) ==> c.deep_view() == (match o.deep_view() {
                Some(x) => Some(PatchView::seq_to_canonical(x)),
                None => None,
            }),
    {
        match o {
            Some(x) => {
                match Patch::vec_to_canonical(x) {
                    Some(c) => Some(Some(c)),
                    None => None,
                }
            },
            None => Some(None),
        }
    }
}

impl PropertyView {
    /// The shape that schema 1.3 gives to the property `c`.
    pub open spec fn from_canonical(c: models::PropertyView) -> PropertyView {
        PropertyView {
            name: c.name,
            value: c.value,
        }
    }

    /// The property that this shape stands for.
    pub open spec fn to_canonical(self) -> models::PropertyView {
        models::PropertyView {
            name: self.name,
            value: self.value,
        }
    }

    /// The shapes of a sequence of them, one for one.
    pub open spec fn seq_from_canonical(s: Seq<models::PropertyView>) -> Seq<PropertyView> {
        Seq::new(s.len(), |i: int| PropertyView::from_canonical(s[i]))
    }

    /// What a sequence of shapes stands for, one for one.
    pub open spec fn seq_to_canonical(s: Seq<PropertyView>) -> Seq<models::PropertyView> {
        Seq::new(s.len(), |i: int| s[i].to_canonical())
    }
}

impl Property {
    /// Shapes a property as schema 1.3 writes it.
    pub fn from_canonical(c: &models::Property) -> (r: Property)
        ensures
            r.deep_view() == PropertyView::from_canonical(c.deep_view()),
    {
        let name = c.name.clone();
        let value = c.value.to_string();
        Property { name, value }
    }

    /// Reads the shape back as a property. Text is taken as it is, without
    /// validating it again.
    pub fn to_canonical(&self) -> (r: models::Property)
        ensures
            r.deep_view() == self.deep_view().to_canonical(),
    {
        let name = self.name.clone();
        let value = NormalizedString::new_unchecked(self.value.clone());
        models::Property { name, value }
    }

    /// Shapes a list of them, one for one.
    pub fn vec_from_canonical(v: &Vec<models::Property>) -> (r: Vec<Property>)
        ensures
            r.deep_view() == PropertyView::seq_from_canonical(v.deep_view()),
    {
        let mut out: Vec<Property> = Vec::new();
        let mut i: usize = 0;
        while i < v.len()
            invariant
                i <= v.len(),
                out.len() == i,
                forall|j: int|
                    0 <= j < i ==> (#[trigger] out[j]).deep_view() == PropertyView::from_canonical(
                        v[j].deep_view(),
                    ),
            decreases v.len() - i,
        {
            out.push(Property::from_canonical(&v[i]));
            i += 1;
        }
        proof {
            assert(out.deep_view() =~= PropertyView::seq_from_canonical(v.deep_view()));
        }
        out
    }

    /// Reads a list of shapes back, one for one.
    pub fn vec_to_canonical(v: &Vec<Property>) -> (r: Vec<models::Property>)
        ensures
            r.deep_view() == PropertyView::seq_to_canonical(v.deep_view()),
    {
        let mut out: Vec<models::Property> = Vec::new();
        let mut i: usize = 0;
        while i < v.len()
            invariant
                i <= v.len(),
                out.len() == i,
                forall|j: int|
                    0 <= j < i ==> (#[trigger] out[j]).deep_view()
                        == v[j].deep_view().to_canonical(),
            decreases v.len() - i,
        {
            out.push(v[i].to_canonical());
            i += 1;
        }
        proof {
            assert(out.deep_view() =~= PropertyView::seq_to_canonical(v.deep_view()));
        }
        out
    }
}

impl SwidView {
    /// The shape that schema 1.3 gives to the swid `c`.
    pub open spec fn from_canonical(c: models::SwidView) -> SwidView {
        SwidView {
            tag_id: c.tag_id,
            name: c.name,
            version: c.version,
            tag_version: c.tag_version,
            patch: c.patch,
            text: match c.text {
                Some(x) => Some(AttachedTextView::from_canonical(x)),
                None => None,
            },
            url: c.url,
        }
    }

    /// The swid that this shape stands for.
    pub open spec fn to_canonical(self) -> models::SwidView {
        models::SwidView {
            tag_id: self.tag_id,
            name: self.name,
            version: self.version,
            tag_version: self.tag_version,
            patch: self.patch,
            text: match self.text {
                Some(x) => Some(x.to_canonical()),
                None => None,
            },
            url: self.url,
        }
    }
}

impl Swid {
    /// Shapes a swid as schema 1.3 writes it.
    pub fn from_canonical(c: &models::Swid) -> (r: Swid)
        ensures
            r.deep_view() == SwidView::from_canonical(c.deep_view()),
    {
        let tag_id = c.tag_id.clone();
        let name = c.name.clone();
        let version = opt_string_clone(&c.version);
        let tag_version = c.tag_version;
        let patch = c.patch;
        let text = AttachedText::opt_from_canonical(&c.text);
        let url = opt_uri_to_string(&c.url);
        Swid { tag_id, name, version, tag_version, patch, text, url }
    }

    /// Reads the shape back as a swid. Text is taken as it is, without
    /// validating it again.
    pub fn to_canonical(&self) -> (r: models::Swid)
        ensures
            r.deep_view() == self.deep_view().to_canonical(),
    {
        let tag_id = self.tag_id.clone();
        let name = self.name.clone();
        let version = opt_string_clone(&self.version);
        let tag_version = self.tag_version;
        let patch = self.patch;
        let text = AttachedText::opt_to_canonical(&self.text);
        let url = opt_string_to_uri(&self.url);
        models::Swid { tag_id, name, version, tag_version, patch, text, url }
    }

    /// Shapes one that may be absent.
    pub fn opt_from_canonical(o: &Option<models::Swid>) -> (r: Option<Swid>)
        ensures
            r.deep_view() == (match o.deep_view() {
                Some(x) => Some(SwidView::from_canonical(x)),
                None => None,
            }),
    {
        match o {
            Some(x) => Some(Swid::from_canonical(x)),
            None => None,
        }
    }

    /// Reads back one that may be absent.
    pub fn opt_to_canonical(o: &Option<Swid>) -> (r: Option<models::Swid>)
        ensures
            r.deep_view() == (match o.deep_view() {
                Some(x) => Some(x.to_canonical()),
                None => None,
            }),
    {
        match o {
            Some(x) => {
                Some(x.to_canonical())
            },
            None => None,
        }
    }
}

impl ToolView {
    /// The shape that schema 1.3 gives to the tool `c`.
    pub open spec fn from_canonical(c: models::ToolView) -> ToolView {
        ToolView {
            vendor: c.vendor,
            name: c.name,
            version: c.version,
            hashes: match c.hashes {
                Some(x) => Some(HashView::seq_from_canonical(x)),
                None => None,
            },
        }
    }

    /// Every word in it, at any depth, belongs to the vocabulary of its
    /// place.
    pub open spec fn well_formed(self) -> bool {
        &&& (self.hashes matches Some(x) ==> HashView::all_well_formed(x))
    }

    /// The tool that this shape stands for, where it is well formed.
    pub open spec fn to_canonical(self) -> models::ToolView {
        models::ToolView {
            vendor: self.vendor,
            name: self.name,
            version: self.version,
            hashes: match self.hashes {
                Some(x) => Some(HashView::seq_to_canonical(x)),
                None => None,
            },
        }
    }

    /// The shapes of a sequence of them, one for one.
    pub open spec fn seq_from_canonical(s: Seq<models::ToolView>) -> Seq<ToolView> {
        Seq::new(s.len(), |i: int| ToolView::from_canonical(s[i]))
    }

    /// What a sequence of shapes stands for, one for one.
    pub open spec fn seq_to_canonical(s: Seq<ToolView>) -> Seq<models::ToolView> {
        Seq::new(s.len(), |i: int| s[i].to_canonical())
    }

    /// Each of them is well formed.
    pub open spec fn all_well_formed(s: Seq<ToolView>) -> bool {
        forall|i: int| 0 <= i < s.len() ==> (#[trigger] s[i]).well_formed()
    }
}

impl Tool {
    /// Shapes a tool as schema 1.3 writes it.
    pub fn from_canonical(c: &models::Tool) -> (r: Tool)
        ensures
            r.deep_view() == ToolView::from_canonical(c.deep_view()),
    {
        let vendor = opt_text_to_string(&c.vendor);
        let name = opt_text_to_string(&c.name);
        let version = opt_text_to_string(&c.version);
        let hashes = crate::specs::v1_3::Hash::opt_vec_from_canonical(&c.hashes);
        Tool { vendor, name, version, hashes }
    }

    /// Reads the shape back as a tool; `None` exactly where a word in it is
    /// outside the vocabulary of its place.
    pub fn to_canonical(&self) -> (r: Option<models::Tool>)
        ensures
            r is Some <==> self.deep_view().well_formed(),
            r matches Some(c) ==> c.deep_view() == self.deep_view().to_canonical(),
    {
        let vendor = opt_string_to_text(&self.vendor);
        let name = opt_string_to_text(&self.name);
        let version = opt_string_to_text(&self.version);
        let hashes = match crate::specs::v1_3::Hash::opt_vec_to_canonical(&self.hashes) {
            Some(x) => x,
            None => {
                return None;
            },
        };
        Some(models::Tool { vendor, name, version, hashes })
    }

    /// Shapes a list of them, one for one.
    pub fn vec_from_canonical(v: &Vec<models::Tool>) -> (r: Vec<Tool>)
        ensures
            r.deep_view() == ToolView::seq_from_canonical(v.deep_view()),
    {
        let mut out: Vec<Tool> = Vec::new();
        let mut i: usize = 0;
        while i < v.len()
            invariant
                i <= v.len(),
                out.len() == i,
                forall|j: int|
                    0 <= j < i ==> (#[trigger] out[j]).deep_view() == ToolView::from_canonical(
                        v[j].deep_view(),
                    ),
            decreases v.len() - i,
        {
            out.push(Tool::from_canonical(&v[i]));
            i += 1;
        }
        proof {
            assert(out.deep_view() =~= ToolView::seq_from_canonical(v.deep_view()));
        }
        out
    }

    /// Reads a list of shapes back, one for one; `None` exactly where one of
    /// them is not well formed.
    pub fn vec_to_canonical(v: &Vec<Tool>) -> (r: Option<Vec<models::Tool>>)
        ensures
            r is Some <==> ToolView::all_well_formed(v.deep_view()),
            r matches Some(c) ==> c.deep_view() == ToolView::seq_to_canonical(v.deep_view()),
    {
        let mut out: Vec<models::Tool> = Vec::new();
        let mut i: usize = 0;
        while i < v.len()
            invariant
                i <= v.len(),
                out.len() == i,
                forall|j: int| 0 <= j < i ==> (#[trigger] v[j]).deep_view().well_formed(),
                forall|j: int|
                    0 <= j < i ==> (#[trigger] out[j]).deep_view()
                        == v[j].deep_view().to_canonical(),
            decreases v.len() - i,
        {
            match v[i].to_canonical() {
                Some(c) => {
                    out.push(c);
                },
                None => {
                    proof {
                        assert(v.deep_view()[i as int] == v[i as int].deep_view());
                    }
                    return None;
                },
            }
            i += 1;
        }
        proof {
            assert(out.deep_view() =~= ToolView::seq_to_canonical(v.deep_view()));
            assert forall|j: int| 0 <= j < v.deep_view().len() implies (
                #[trigger] v.deep_view()[j]
            ).well_formed() by {
                assert(v.deep_view()[j] == v[j].deep_view());
            }
        }
        Some(out)
    }

    /// Shapes a list that may be absent.
    pub fn opt_vec_from_canonical(o: &Option<Vec<models::Tool>>) -> (r: Option<Vec<Tool>>)
        ensures
            r.deep_view() == (match o.deep_view() {
                Some(x) => Some(ToolView::seq_from_canonical(x)),
                None => None,
            }),
    {
        match o {
            Some(x) => Some(Tool::vec_from_canonical(x)),
            None => None,
        }
    }

    /// Reads back a list that may be absent; the outer `None` exactly where
    /// it is there and one of its shapes is not well formed.
    pub fn opt_vec_to_canonical(o: &Option<Vec<Tool>>) -> (r: Option<Option<Vec<models::Tool>>>)
        ensures
            r is Some <==> (o.deep_view() matches Some(x) ==> ToolView::all_well_formed(x)),
            r matches Some(c) ==> c.deep_view() == (match o.deep_view() {
                Some(x) => Some(ToolView::seq_to_canonical(x)),
                None => None,
            }),
    {
        match o {
            Some(x) => {
                match Tool::vec_to_canonical(x) {
                    Some(c) => Some(Some(c)),
                    None => None,
                }
            },
            None => Some(None),
        }
    }
}

impl Properties {
    /// Shapes a list of properties as schema 1.3 writes it.
    pub fn from_canonical(c: &models::Properties) -> (r: Properties)
        ensures
            r.deep_view() == PropertyView::seq_from_canonical(c.deep_view()),
    {
        Properties(Property::vec_from_canonical(&c.0))
    }

    /// Reads the shape back as a list of properties.
    pub fn to_canonical(&self) -> (r: models::Properties)
        ensures
            r.deep_view() == PropertyView::seq_to_canonical(self.deep_view()),
    {
        models::Properties(Property::vec_to_canonical(&self.0))
    }
}

impl Copyright {
    /// Shapes copyright statements as schema 1.3 writes them.
    pub fn from_canonical(c: &models::Copyright) -> (r: Copyright)
        ensures
            r.deep_view() == c.deep_view(),
    {
        Copyright(strings_clone(&c.0))
    }

    /// Reads the shape back as copyright statements.
    pub fn to_canonical(&self) -> (r: models::Copyright)
        ensures
            r.deep_view() == self.deep_view(),
    {
        models::Copyright(strings_clone(&self.0))
    }

    /// Shapes a list of them, one for one.
    pub fn vec_from_canonical(v: &Vec<models::Copyright>) -> (r: Vec<Copyright>)
        ensures
            r.deep_view() == v.deep_view(),
    {
        let mut out: Vec<Copyright> = Vec::new();
        let mut i: usize = 0;
        while i < v.len()
            invariant
                i <= v.len(),
                out.len() == i,
                forall|j: int| 0 <= j < i ==> (#[trigger] out[j]).deep_view() == v[j].deep_view(),
            decreases v.len() - i,
        {
            out.push(Copyright::from_canonical(&v[i]));
            i += 1;
        }
        proof {
            assert(out.deep_view() =~= v.deep_view());
        }
        out
    }

    /// Reads a list of shapes back, one for one.
    pub fn vec_to_canonical(v: &Vec<Copyright>) -> (r: Vec<models::Copyright>)
        ensures
            r.deep_view() == v.deep_view(),
    {
        let mut out: Vec<models::Copyright> = Vec::new();
        let mut i: usize = 0;
        while i < v.len()
            invariant
                i <= v.len(),
                out.len() == i,
                forall|j: int| 0 <= j < i ==> (#[trigger] out[j]).deep_view() == v[j].deep_view(),
            decreases v.len() - i,
        {
            out.push(v[i].to_canonical());
            i += 1;
        }
        proof {
            assert(out.deep_view() =~= v.deep_view());
        }
        out
    }
}

impl Properties {
    /// Shapes a list of properties that may be absent.
    pub fn opt_from_canonical(o: &Option<models::Properties>) -> (r: Option<Properties>)
        ensures
            r.deep_view() == (match o.deep_view() {
                Some(x) => Some(PropertyView::seq_from_canonical(x)),
                None => None,
            }),
    {
        match o {
            Some(x) => Some(Properties::from_canonical(x)),
            None => None,
        }
    }

    /// Reads back a list of properties that may be absent.
    pub fn opt_to_canonical(o: &Option<Properties>) -> (r: Option<models::Properties>)
        ensures
            r.deep_view() == (match o.deep_view() {
                Some(x) => Some(PropertyView::seq_to_canonical(x)),
                None => None,
            }),
    {
        match o {
            Some(x) => Some(x.to_canonical()),
            None => None,
        }
    }
}

impl Copyright {
    /// Shapes a list of them that may be absent.
    pub fn opt_vec_from_canonical(o: &Option<Vec<models::Copyright>>) -> (r: Option<
        Vec<Copyright>,
    >)
        ensures
            r.deep_view() == o.deep_view(),
    {
        match o {
            Some(x) => Some(Copyright::vec_from_canonical(x)),
            None => None,
        }
    }

    /// Reads back a list of them that may be absent.
    pub fn opt_vec_to_canonical(o: &Option<Vec<Copyright>>) -> (r: Option<
        Vec<models::Copyright>,
    >)
        ensures
            r.deep_view() == o.deep_view(),
    {
        match o {
            Some(x) => Some(Copyright::vec_to_canonical(x)),
            None => None,
        }
    }
}

} // verus!
