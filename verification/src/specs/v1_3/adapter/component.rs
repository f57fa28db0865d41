//! The adapter for components and their pedigrees, which hold components
//! in turn.

use crate::external_models::normalized_string::NormalizedString;
use crate::models;
use crate::specs::v1_3::adapter::{
    opt_cpe_from_canonical, opt_cpe_to_canonical, opt_mime_type_from_canonical,
    opt_mime_type_to_canonical, opt_purl_to_string, opt_scope_from_token, opt_scope_to_token,
    opt_string_clone, opt_string_to_purl, opt_string_to_text, opt_text_to_string,
};
use crate::specs::v1_3::tokens::{
    classification_from_token, classification_of_token, classification_to_token,
    classification_token, scope_of_token, scope_token,
};
use crate::specs::v1_3::{
    Commit, CommitView, Component, ComponentEvidence, ComponentEvidenceView, ComponentView,
    ExternalReference, ExternalReferenceView, HashView, LicenseChoice, LicenseChoiceView,
    OrganizationalEntity, OrganizationalEntityView, Patch, PatchView, Pedigree, PedigreeView,
    Properties, PropertyView, Swid, SwidView,
};
use vstd::prelude::*;

verus! {

impl PedigreeView {
    /// The shape that schema 1.3 gives to the pedigree `c`.
    pub open spec fn from_canonical(c: models::PedigreeView) -> PedigreeView
        decreases c,
    {
        PedigreeView {
            ancestors: match c.ancestors {
                Some(x) => Some(ComponentView::seq_from_canonical(x)),
                None => None,
            },
            descendants: match c.decendants {
                Some(x) => Some(ComponentView::seq_from_canonical(x)),
                None => None,
            },
            variants: match c.variants {
                Some(x) => Some(ComponentView::seq_from_canonical(x)),
                None => None,
            },
            commits: match c.commits {
                Some(x) => Some(CommitView::seq_from_canonical(x)),
                None => None,
            },
            patches: match c.patches {
                Some(x) => Some(PatchView::seq_from_canonical(x)),
                None => None,
            },
            notes: c.notes,
        }
    }

    /// Every word in it, at any depth, belongs to the vocabulary of its
    /// place.
    pub open spec fn well_formed(self) -> bool
        decreases self,
    {
        &&& (self.ancestors matches Some(x) ==> ComponentView::all_well_formed(x))
        &&& (self.descendants matches Some(x) ==> ComponentView::all_well_formed(x))
        &&& (self.variants matches Some(x) ==> ComponentView::all_well_formed(x))
        &&& (self.patches matches Some(x) ==> PatchView::all_well_formed(x))
    }

    /// The pedigree that this shape stands for, where it is well formed.
    pub open spec fn to_canonical(self) -> models::PedigreeView
        decreases self,
    {
        models::PedigreeView {
            ancestors: match self.ancestors {
                Some(x) => Some(ComponentView::seq_to_canonical(x)),
                None => None,
            },
            decendants: match self.descendants {
                Some(x) => Some(ComponentView::seq_to_canonical(x)),
                None => None,
            },
            variants: match self.variants {
                Some(x) => Some(ComponentView::seq_to_canonical(x)),
                None => None,
            },
            commits: match self.commits {
                Some(x) => Some(CommitView::seq_to_canonical(x)),
                None => None,
            },
            patches: match self.patches {
                Some(x) => Some(PatchView::seq_to_canonical(x)),
                None => None,
            },
            notes: self.notes,
        }
    }

    /// Schema 1.3 can carry `c` without loss: every list of licenses in it
    /// that stands under one choice holds exactly one license.
    pub open spec fn fits(c: models::PedigreeView) -> bool
        decreases c,
    {
        &&& (c.ancestors matches Some(x) ==> ComponentView::all_fit(x))
        &&& (c.decendants matches Some(x) ==> ComponentView::all_fit(x))
        &&& (c.variants matches Some(x) ==> ComponentView::all_fit(x))
    }
}

impl Pedigree {
    /// Shapes a pedigree as schema 1.3 writes it.
    pub fn from_canonical(c: &models::Pedigree) -> (r: Pedigree)
        ensures
            r.deep_view() == PedigreeView::from_canonical(c.deep_view()),
        decreases c,
    {
        proof {
            assert(decreases_to!(c => c.ancestors));
        }
        let ancestors = Component::opt_vec_from_canonical(&c.ancestors);
        proof {
            models::Component::lemma_opt_models(c.ancestors);
            Component::lemma_opt_models(ancestors);
        }
        proof {
            assert(decreases_to!(c => c.decendants));
        }
        let descendants = Component::opt_vec_from_canonical(&c.decendants);
        proof {
            models::Component::lemma_opt_models(c.decendants);
            Component::lemma_opt_models(descendants);
        }
        proof {
            assert(decreases_to!(c => c.variants));
        }
        let variants = Component::opt_vec_from_canonical(&c.variants);
        proof {
            models::Component::lemma_opt_models(c.variants);
            Component::lemma_opt_models(variants);
        }
        let commits = Commit::opt_vec_from_canonical(&c.commits);
        let patches = Patch::opt_vec_from_canonical(&c.patches);
        let notes = opt_string_clone(&c.notes);
        Pedigree { ancestors, descendants, variants, commits, patches, notes }
    }

    /// Reads the shape back as a pedigree; `None` exactly where a word in it is
    /// outside the vocabulary of its place.
    pub fn to_canonical(&self) -> (r: Option<models::Pedigree>)
        ensures
            r is Some <==> self.deep_view().well_formed(),
            r matches Some(c) ==> c.deep_view() == self.deep_view().to_canonical(),
        decreases self,
    {
        proof {
            assert(decreases_to!(self => self.ancestors));
            Component::lemma_opt_models(self.ancestors);
        }
        let ancestors = match Component::opt_vec_to_canonical(&self.ancestors) {
            Some(x) => x,
            None => {
                return None;
            },
        };
        proof {
            models::Component::lemma_opt_models(ancestors);
        }
        proof {
            assert(decreases_to!(self => self.descendants));
            Component::lemma_opt_models(self.descendants);
        }
        let decendants = match Component::opt_vec_to_canonical(&self.descendants) {
            Some(x) => x,
            None => {
                return None;
            },
        };
        proof {
            models::Component::lemma_opt_models(decendants);
        }
        proof {
            assert(decreases_to!(self => self.variants));
            Component::lemma_opt_models(self.variants);
        }
        let variants = match Component::opt_vec_to_canonical(&self.variants) {
            Some(x) => x,
            None => {
                return None;
            },
        };
        proof {
            models::Component::lemma_opt_models(variants);
        }
        let commits = Commit::opt_vec_to_canonical(&self.commits);
        let patches = match Patch::opt_vec_to_canonical(&self.patches) {
            Some(x) => x,
            None => {
                return None;
            },
        };
        let notes = opt_string_clone(&self.notes);
        Some(models::Pedigree { ancestors, decendants, variants, commits, patches, notes })
    }

    /// Shapes one that may be absent.
    pub fn opt_from_canonical(o: &Option<models::Pedigree>) -> (r: Option<Pedigree>)
        ensures
            r.deep_view() == (match o.deep_view() {
                Some(x) => Some(PedigreeView::from_canonical(x)),
                None => None,
            }),
        decreases o,
    {
        match o {
            Some(x) => {
                proof {
                    assert(decreases_to!(o => o->0));
                }
                Some(Pedigree::from_canonical(x))
            },
            None => None,
        }
    }

    /// Reads back one that may be absent; the outer `None` exactly where it
    /// is there and not well formed.
    pub fn opt_to_canonical(o: &Option<Pedigree>) -> (r: Option<Option<models::Pedigree>>)
        ensures
            r is Some <==> (o.deep_view() matches Some(x) ==> x.well_formed()),
            r matches Some(c) ==> c.deep_view() == (match o.deep_view() {
                Some(x) => Some(x.to_canonical()),
                None => None,
            }),
        decreases o,
    {
        match o {
            Some(x) => {
                proof {
                    assert(decreases_to!(o => o->0));
                }
                match x.to_canonical() {
                    Some(c) => Some(Some(c)),
                    None => None,
                }
            },
            None => Some(None),
        }
    }
}

impl ComponentView {
    /// The shape that schema 1.3 gives to the component `c`.
    pub open spec fn from_canonical(c: models::ComponentView) -> ComponentView
        decreases c,
    {
        ComponentView {
            component_type: classification_token(c.component_type),
            mime_type: c.mime_type,
            bom_ref: c.bom_ref,
            supplier: match c.supplier {
                Some(x) => Some(OrganizationalEntityView::from_canonical(x)),
                None => None,
            },
            author: c.author,
            publisher: c.publisher,
            group: c.group,
            name: c.name,
            version: c.version,
            description: c.description,
            scope: match c.scope {
                Some(x) => Some(scope_token(x)),
                None => None,
            },
            hashes: match c.hashes {
                Some(x) => Some(HashView::seq_from_canonical(x)),
                None => None,
            },
            licenses: LicenseChoiceView::list_from_canonical(c.licenses),
            copyright: c.copyright,
            cpe: c.cpe,
            purl: c.purl,
            swid: match c.swid {
                Some(x) => Some(SwidView::from_canonical(x)),
                None => None,
            },
            modified: c.modified,
            pedigree: match c.pedigree {
                Some(x) => Some(PedigreeView::from_canonical(x)),
                None => None,
            },
            external_references: match c.external_references {
                Some(x) => Some(ExternalReferenceView::seq_from_canonical(x)),
                None => None,
            },
            properties: match c.properties {
                Some(x) => Some(PropertyView::seq_from_canonical(x)),
                None => None,
            },
            components: match c.components {
                Some(x) => Some(ComponentView::seq_from_canonical(x)),
                None => None,
            },
            evidence: match c.evidence {
                Some(x) => Some(ComponentEvidenceView::from_canonical(x)),
                None => None,
            },
        }
    }

    /// Every word in it, at any depth, belongs to the vocabulary of its
    /// place.
    pub open spec fn well_formed(self) -> bool
        decreases self,
    {
        &&& classification_of_token(self.component_type) is Some
        &&& (self.scope matches Some(x) ==> scope_of_token(x) is Some)
        &&& (self.hashes matches Some(x) ==> HashView::all_well_formed(x))
        &&& (self.pedigree matches Some(x) ==> x.well_formed())
        &&& (self.external_references matches Some(x) ==> ExternalReferenceView::all_well_formed(x))
        &&& (self.components matches Some(x) ==> ComponentView::all_well_formed(x))
    }

    /// The component that this shape stands for, where it is well formed.
    pub open spec fn to_canonical(self) -> models::ComponentView
        decreases self,
    {
        models::ComponentView {
            component_type: classification_of_token(self.component_type).unwrap(),
            mime_type: self.mime_type,
            bom_ref: self.bom_ref,
            supplier: match self.supplier {
                Some(x) => Some(x.to_canonical()),
                None => None,
            },
            author: self.author,
            publisher: self.publisher,
            group: self.group,
            name: self.name,
            version: self.version,
            description: self.description,
            scope: match self.scope {
                Some(x) => Some(scope_of_token(x).unwrap()),
                None => None,
            },
            hashes: match self.hashes {
                Some(x) => Some(HashView::seq_to_canonical(x)),
                None => None,
            },
            licenses: LicenseChoiceView::list_to_canonical(self.licenses),
            copyright: self.copyright,
            cpe: self.cpe,
            purl: self.purl,
            swid: match self.swid {
                Some(x) => Some(x.to_canonical()),
                None => None,
            },
            modified: self.modified,
            pedigree: match self.pedigree {
                Some(x) => Some(x.to_canonical()),
                None => None,
            },
            external_references: match self.external_references {
                Some(x) => Some(ExternalReferenceView::seq_to_canonical(x)),
                None => None,
            },
            properties: match self.properties {
                Some(x) => Some(PropertyView::seq_to_canonical(x)),
                None => None,
            },
            components: match self.components {
                Some(x) => Some(ComponentView::seq_to_canonical(x)),
                None => None,
            },
            evidence: match self.evidence {
                Some(x) => Some(x.to_canonical()),
                None => None,
            },
        }
    }

    /// Schema 1.3 can carry `c` without loss: every list of licenses in it
    /// that stands under one choice holds exactly one license.
    pub open spec fn fits(c: models::ComponentView) -> bool
        decreases c,
    {
        &&& LicenseChoiceView::list_fits(c.licenses)
        &&& (c.pedigree matches Some(x) ==> PedigreeView::fits(x))
        &&& (c.components matches Some(x) ==> ComponentView::all_fit(x))
        &&& (c.evidence matches Some(x) ==> ComponentEvidenceView::fits(x))
    }

    /// The shapes of a sequence of them, one for one.
    pub open spec fn seq_from_canonical(s: Seq<models::ComponentView>) -> Seq<ComponentView>
        decreases s,
    {
        Seq::new(
            s.len(),
            |i: int|
                if 0 <= i < s.len() {
                    ComponentView::from_canonical(s[i])
                } else {
                    arbitrary()
                },
        )
    }

    /// What a sequence of shapes stands for, one for one.
    pub open spec fn seq_to_canonical(s: Seq<ComponentView>) -> Seq<models::ComponentView>
        decreases s,
    {
        Seq::new(
            s.len(),
            |i: int|
                if 0 <= i < s.len() {
                    s[i].to_canonical()
                } else {
                    arbitrary()
                },
        )
    }

    /// Each of them is well formed.
    pub open spec fn all_well_formed(s: Seq<ComponentView>) -> bool
        decreases s,
    {
        forall|i: int| 0 <= i < s.len() ==> (#[trigger] s[i]).well_formed()
    }

    /// Schema 1.3 can carry each of them without loss.
    pub open spec fn all_fit(s: Seq<models::ComponentView>) -> bool
        decreases s,
    {
        forall|i: int| 0 <= i < s.len() ==> ComponentView::fits(#[trigger] s[i])
    }
}

impl Component {
    /// Shapes a component as schema 1.3 writes it.
    pub fn from_canonical(c: &models::Component) -> (r: Component)
        ensures
            r.deep_view() == ComponentView::from_canonical(c.deep_view()),
        decreases c,
    {
        let component_type = classification_to_token(c.component_type);
        let mime_type = opt_mime_type_from_canonical(&c.mime_type);
        let bom_ref = opt_string_clone(&c.bom_ref);
        let supplier = OrganizationalEntity::opt_from_canonical(&c.supplier);
        let author = opt_text_to_string(&c.author);
        let publisher = opt_text_to_string(&c.publisher);
        let group = opt_text_to_string(&c.group);
        let name = c.name.to_string();
        let version = c.version.to_string();
        let description = opt_text_to_string(&c.description);
        let scope = opt_scope_to_token(&c.scope);
        let hashes = crate::specs::v1_3::Hash::opt_vec_from_canonical(&c.hashes);
        let licenses = LicenseChoice::list_from_canonical(&c.licenses);
        let copyright = opt_text_to_string(&c.copyright);
        let cpe = opt_cpe_from_canonical(&c.cpe);
        let purl = opt_purl_to_string(&c.purl);
        let swid = Swid::opt_from_canonical(&c.swid);
        let modified = c.modified;
        proof {
            assert(decreases_to!(c => c.pedigree));
        }
        let pedigree = Pedigree::opt_from_canonical(&c.pedigree);
        let external_references = ExternalReference::opt_vec_from_canonical(&c.external_references);
        let properties = Properties::opt_from_canonical(&c.properties);
        proof {
            assert(decreases_to!(c => c.components));
        }
        let components = Component::opt_vec_from_canonical(&c.components);
        proof {
            models::Component::lemma_opt_models(c.components);
            Component::lemma_opt_models(components);
        }
        let evidence = ComponentEvidence::opt_from_canonical(&c.evidence);
        let r = Component {
            component_type,
            mime_type,
            bom_ref,
            supplier,
            author,
            publisher,
            group,
            name,
            version,
            description,
            scope,
            hashes,
            licenses,
            copyright,
            cpe,
            purl,
            swid,
            modified,
            pedigree,
            external_references,
            properties,
            components,
            evidence,
        };
        proof {
            let got = r.deep_view();
            let want = ComponentView::from_canonical(c.deep_view());
            assert(got.component_type == want.component_type);
            assert(got.mime_type == want.mime_type);
            assert(got.bom_ref == want.bom_ref);
            assert(got.supplier == want.supplier);
            assert(got.author == want.author);
            assert(got.publisher == want.publisher);
            assert(got.group == want.group);
            assert(got.name == want.name);
            assert(got.version == want.version);
            assert(got.description == want.description);
            assert(got.scope == want.scope);
            assert(got.hashes == want.hashes);
            assert(got.licenses == want.licenses);
            assert(got.copyright == want.copyright);
            assert(got.cpe == want.cpe);
            assert(got.purl == want.purl);
            assert(got.swid == want.swid);
            assert(got.modified == want.modified);
            assert(got.pedigree == want.pedigree);
            assert(got.external_references == want.external_references);
            assert(got.properties == want.properties);
            assert(got.components == want.components);
            assert(got.evidence == want.evidence);
        }
        r
    }

    /// Reads the shape back as a component; `None` exactly where a word in it is
    /// outside the vocabulary of its place.
    pub fn to_canonical(&self) -> (r: Option<models::Component>)
        ensures
            r is Some <==> self.deep_view().well_formed(),
            r matches Some(c) ==> c.deep_view() == self.deep_view().to_canonical(),
        decreases self,
    {
        let component_type = match classification_from_token(self.component_type.as_str()) {
            Some(x) => x,
            None => {
                return None;
            },
        };
        let mime_type = opt_mime_type_to_canonical(&self.mime_type);
        let bom_ref = opt_string_clone(&self.bom_ref);
        let supplier = OrganizationalEntity::opt_to_canonical(&self.supplier);
        let author = opt_string_to_text(&self.author);
        let publisher = opt_string_to_text(&self.publisher);
        let group = opt_string_to_text(&self.group);
        let name = NormalizedString::new_unchecked(self.name.clone());
        let version = NormalizedString::new_unchecked(self.version.clone());
        let description = opt_string_to_text(&self.description);
        let scope = match opt_scope_from_token(&self.scope) {
            Some(x) => x,
            None => {
                return None;
            },
        };
        let hashes = match crate::specs::v1_3::Hash::opt_vec_to_canonical(&self.hashes) {
            Some(x) => x,
            None => {
                return None;
            },
        };
        let licenses = LicenseChoice::list_to_canonical(&self.licenses);
        let copyright = opt_string_to_text(&self.copyright);
        let cpe = opt_cpe_to_canonical(&self.cpe);
        let purl = opt_string_to_purl(&self.purl);
        let swid = Swid::opt_to_canonical(&self.swid);
        let modified = self.modified;
        proof {
            assert(decreases_to!(self => self.pedigree));
        }
        let pedigree = match Pedigree::opt_to_canonical(&self.pedigree) {
            Some(x) => x,
            None => {
                return None;
            },
        };
        let external_references = match ExternalReference::opt_vec_to_canonical(&self.external_references) {
            Some(x) => x,
            None => {
                return None;
            },
        };
        let properties = Properties::opt_to_canonical(&self.properties);
        proof {
            assert(decreases_to!(self => self.components));
            Component::lemma_opt_models(self.components);
        }
        let components = match Component::opt_vec_to_canonical(&self.components) {
            Some(x) => x,
            None => {
                return None;
            },
        };
        proof {
            models::Component::lemma_opt_models(components);
        }
        let evidence = ComponentEvidence::opt_to_canonical(&self.evidence);
        Some(
            models::Component {
                component_type,
                mime_type,
                bom_ref,
                supplier,
                author,
                publisher,
                group,
                name,
                version,
                description,
                scope,
                hashes,
                licenses,
                copyright,
                cpe,
                purl,
                swid,
                modified,
                pedigree,
                external_references,
                properties,
                components,
                evidence,
            },
        )
    }

    /// Shapes a list of them, one for one.
    pub fn vec_from_canonical(v: &Vec<models::Component>) -> (r: Vec<Component>)
        ensures
            r.deep_view() == ComponentView::seq_from_canonical(v.deep_view()),
        decreases v,
    {
        let mut out: Vec<Component> = Vec::new();
        let mut i: usize = 0;
        while i < v.len()
            invariant
                i <= v.len(),
                out.len() == i,
                forall|j: int|
                    0 <= j < i ==> (#[trigger] out[j]).deep_view() == ComponentView::from_canonical(
                        v[j].deep_view(),
                    ),
            decreases v.len() - i,
        {
            proof {
                assert(decreases_to!(v => v@));
                assert(decreases_to!(v@ => v@[i as int]));
            }
            out.push(Component::from_canonical(&v[i]));
            i += 1;
        }
        proof {
            assert(out.deep_view() =~= ComponentView::seq_from_canonical(v.deep_view()));
        }
        out
    }

    /// Reads a list of shapes back, one for one; `None` exactly where one of
    /// them is not well formed.
    pub fn vec_to_canonical(v: &Vec<Component>) -> (r: Option<Vec<models::Component>>)
        ensures
            r is Some <==> ComponentView::all_well_formed(v.deep_view()),
            r matches Some(c) ==> c.deep_view() == ComponentView::seq_to_canonical(v.deep_view()),
        decreases v,
    {
        let mut out: Vec<models::Component> = Vec::new();
        let mut i: usize = 0;
        while i < v.len()
            invariant
                i <= v.len(),
                out.len() == i,
                forall|j: int| 0 <= j < i ==> (#[trigger] v[j]).deep_view().well_formed(),
                forall|j: int|
                    0 <= j < i ==> (#[trigger] out[j]).deep_view()
                        == v[j].deep_view().to_canonical(),
            decreases v.len() - i,
        {
            proof {
                assert(decreases_to!(v => v@));
                assert(decreases_to!(v@ => v@[i as int]));
            }
            match v[i].to_canonical() {
                Some(c) => {
                    out.push(c);
                },
                None => {
                    proof {
                        assert(v.deep_view()[i as int] == v[i as int].deep_view());
                    }
                    return None;
                },
            }
            i += 1;
        }
        proof {
            assert(out.deep_view() =~= ComponentView::seq_to_canonical(v.deep_view()));
            assert forall|j: int| 0 <= j < v.deep_view().len() implies (
                #[trigger] v.deep_view()[j]
            ).well_formed() by {
                assert(v.deep_view()[j] == v[j].deep_view());
            }
        }
        Some(out)
    }

    /// Shapes one that may be absent.
    pub fn opt_from_canonical(o: &Option<models::Component>) -> (r: Option<Component>)
        ensures
            r.deep_view() == (match o.deep_view() {
                Some(x) => Some(ComponentView::from_canonical(x)),
                None => None,
            }),
        decreases o,
    {
        match o {
            Some(x) => {
                proof {
                    assert(decreases_to!(o => o->0));
                }
                Some(Component::from_canonical(x))
            },
            None => None,
        }
    }

    /// Reads back one that may be absent; the outer `None` exactly where it
    /// is there and not well formed.
    pub fn opt_to_canonical(o: &Option<Component>) -> (r: Option<Option<models::Component>>)
        ensures
            r is Some <==> (o.deep_view() matches Some(x) ==> x.well_formed()),
            r matches Some(c) ==> c.deep_view() == (match o.deep_view() {
                Some(x) => Some(x.to_canonical()),
                None => None,
            }),
        decreases o,
    {
        match o {
            Some(x) => {
                proof {
                    assert(decreases_to!(o => o->0));
                }
                match x.to_canonical() {
                    Some(c) => Some(Some(c)),
                    None => None,
                }
            },
            None => Some(None),
        }
    }

    /// Shapes a list that may be absent.
    pub fn opt_vec_from_canonical(o: &Option<Vec<models::Component>>) -> (r: Option<Vec<Component>>)
        ensures
            r.deep_view() == (match o.deep_view() {
                Some(x) => Some(ComponentView::seq_from_canonical(x)),
                None => None,
            }),
        decreases o,
    {
        match o {
            Some(x) => {
                proof {
                    assert(decreases_to!(o => o->0));
                }
                Some(Component::vec_from_canonical(x))
            },
            None => None,
        }
    }

    /// Reads back a list that may be absent; the outer `None` exactly where
    /// it is there and one of its shapes is not well formed.
    pub fn opt_vec_to_canonical(o: &Option<Vec<Component>>) -> (r: Option<Option<Vec<models::Component>>>)
        ensures
            r is Some <==> (o.deep_view() matches Some(x) ==> ComponentView::all_well_formed(x)),
            r matches Some(c) ==> c.deep_view() == (match o.deep_view() {
                Some(x) => Some(ComponentView::seq_to_canonical(x)),
                None => None,
            }),
        decreases o,
    {
        match o {
            Some(x) => {
                proof {
                    assert(decreases_to!(o => o->0));
                }
                match Component::vec_to_canonical(x) {
                    Some(c) => Some(Some(c)),
                    None => None,
                }
            },
            None => Some(None),
        }
    }
}

} // verus!
