//! The adapter for services, which hold services in turn.

use crate::external_models::normalized_string::NormalizedString;
use crate::models;
use crate::specs::v1_3::adapter::{
    opt_string_clone, opt_string_to_text, opt_strings_to_uris, opt_text_to_string,
    opt_uris_to_strings,
};
use crate::specs::v1_3::{
    DataClassification, DataClassificationView, ExternalReference, ExternalReferenceView,
    LicenseChoice, LicenseChoiceView, OrganizationalEntity, OrganizationalEntityView, Properties,
    PropertyView, Service, ServiceView,
};
use vstd::prelude::*;

verus! {

impl ServiceView {
    /// The shape that schema 1.3 gives to the service `c`.
    pub open spec fn from_canonical(c: models::ServiceView) -> ServiceView
        decreases c,
    {
        ServiceView {
            bom_ref: c.bom_ref,
            provider: match c.provider {
                Some(x) => Some(OrganizationalEntityView::from_canonical(x)),
                None => None,
            },
            group: c.group,
            name: c.name,
            version: c.version,
            description: c.description,
            endpoints: c.endpoints,
            authenticated: c.authenticated,
            x_trust_boundary: c.x_trust_boundary,
            data: match c.data {
                Some(x) => Some(DataClassificationView::seq_from_canonical(x)),
                None => None,
            },
            licenses: LicenseChoiceView::list_from_canonical(c.licenses),
            external_references: match c.external_references {
                Some(x) => Some(ExternalReferenceView::seq_from_canonical(x)),
                None => None,
            },
            properties: match c.properties {
                Some(x) => Some(PropertyView::seq_from_canonical(x)),
                None => None,
            },
            services: match c.services {
                Some(x) => Some(ServiceView::seq_from_canonical(x)),
                None => None,
            },
        }
    }

    /// Every word in it, at any depth, belongs to the vocabulary of its
    /// place.
    pub open spec fn well_formed(self) -> bool
        decreases self,
    {
        &&& (self.data matches Some(x) ==> DataClassificationView::all_well_formed(x))
        &&& (self.external_references matches Some(x) ==> ExternalReferenceView::all_well_formed(x))
        &&& (self.services matches Some(x) ==> ServiceView::all_well_formed(x))
    }

    /// The service that this shape stands for, where it is well formed.
    pub open spec fn to_canonical(self) -> models::ServiceView
        decreases self,
    {
        models::ServiceView {
            bom_ref: self.bom_ref,
            provider: match self.provider {
                Some(x) => Some(x.to_canonical()),
                None => None,
            },
            group: self.group,
            name: self.name,
            version: self.version,
            description: self.description,
            endpoints: self.endpoints,
            authenticated: self.authenticated,
            x_trust_boundary: self.x_trust_boundary,
            data: match self.data {
                Some(x) => Some(DataClassificationView::seq_to_canonical(x)),
                None => None,
            },
            licenses: LicenseChoiceView::list_to_canonical(self.licenses),
            external_references: match self.external_references {
                Some(x) => Some(ExternalReferenceView::seq_to_canonical(x)),
                None => None,
            },
            properties: match self.properties {
                Some(x) => Some(PropertyView::seq_to_canonical(x)),
                None => None,
            },
            services: match self.services {
                Some(x) => Some(ServiceView::seq_to_canonical(x)),
                None => None,
            },
        }
    }

    /// Schema 1.3 can carry `c` without loss: every list of licenses in it
    /// that stands under one choice holds exactly one license.
    pub open spec fn fits(c: models::ServiceView) -> bool
        decreases c,
    {
        &&& LicenseChoiceView::list_fits(c.licenses)
        &&& (c.services matches Some(x) ==> ServiceView::all_fit(x))
    }

    /// The shapes of a sequence of them, one for one.
    pub open spec fn seq_from_canonical(s: Seq<models::ServiceView>) -> Seq<ServiceView>
        decreases s,
    {
        Seq::new(
            s.len(),
            |i: int|
                if 0 <= i < s.len() {
                    ServiceView::from_canonical(s[i])
                } else {
                    arbitrary()
                },
        )
    }

    /// What a sequence of shapes stands for, one for one.
    pub open spec fn seq_to_canonical(s: Seq<ServiceView>) -> Seq<models::ServiceView>
        decreases s,
    {
        Seq::new(
            s.len(),
            |i: int|
                if 0 <= i < s.len() {
                    s[i].to_canonical()
                } else {
                    arbitrary()
                },
        )
    }

    /// Each of them is well formed.
    pub open spec fn all_well_formed(s: Seq<ServiceView>) -> bool
        decreases s,
    {
        forall|i: int| 0 <= i < s.len() ==> (#[trigger] s[i]).well_formed()
    }

    /// Schema 1.3 can carry each of them without loss.
    pub open spec fn all_fit(s: Seq<models::ServiceView>) -> bool
        decreases s,
    {
        forall|i: int| 0 <= i < s.len() ==> ServiceView::fits(#[trigger] s[i])
    }
}

impl Service {
    /// Shapes a service as schema 1.3 writes it.
    pub fn from_canonical(c: &models::Service) -> (r: Service)
        ensures
            r.deep_view() == ServiceView::from_canonical(c.deep_view()),
        decreases c,
    {
        let bom_ref = opt_string_clone(&c.bom_ref);
        let provider = OrganizationalEntity::opt_from_canonical(&c.provider);
        let group = opt_text_to_string(&c.group);
        let name = c.name.to_string();
        let version = opt_text_to_string(&c.version);
        let description = opt_text_to_string(&c.description);
        let endpoints = opt_uris_to_strings(&c.endpoints);
        let authenticated = c.authenticated;
        let x_trust_boundary = c.x_trust_boundary;
        let data = DataClassification::opt_vec_from_canonical(&c.data);
        let licenses = LicenseChoice::list_from_canonical(&c.licenses);
        let external_references = ExternalReference::opt_vec_from_canonical(&c.external_references);
        let properties = Properties::opt_from_canonical(&c.properties);
        proof {
            assert(decreases_to!(c => c.services));
        }
        let services = Service::opt_vec_from_canonical(&c.services);
        proof {
            models::Service::lemma_opt_models(c.services);
            Service::lemma_opt_models(services);
        }
        Service {
            bom_ref,
            provider,
            group,
            name,
            version,
            description,
            endpoints,
            authenticated,
            x_trust_boundary,
            data,
            licenses,
            external_references,
            properties,
            services,
        }
    }

    /// Reads the shape back as a service; `None` exactly where a word in it is
    /// outside the vocabulary of its place.
    pub fn to_canonical(&self) -> (r: Option<models::Service>)
        ensures
            r is Some <==> self.deep_view().well_formed(),
            r matches Some(c) ==> c.deep_view() == self.deep_view().to_canonical(),
        decreases self,
    {
        let bom_ref = opt_string_clone(&self.bom_ref);
        let provider = OrganizationalEntity::opt_to_canonical(&self.provider);
        let group = opt_string_to_text(&self.group);
        let name = NormalizedString::new_unchecked(self.name.clone());
        let version = opt_string_to_text(&self.version);
        let description = opt_string_to_text(&self.description);
        let endpoints = opt_strings_to_uris(&self.endpoints);
        let authenticated = self.authenticated;
        let x_trust_boundary = self.x_trust_boundary;
        let data = match DataClassification::opt_vec_to_canonical(&self.data) {
            Some(x) => x,
            None => {
                return None;
            },
        };
        let licenses = LicenseChoice::list_to_canonical(&self.licenses);
        let external_references = match ExternalReference::opt_vec_to_canonical(&self.external_references) {
            Some(x) => x,
            None => {
                return None;
            },
        };
        let properties = Properties::opt_to_canonical(&self.properties);
        proof {
            assert(decreases_to!(self => self.services));
            Service::lemma_opt_models(self.services);
        }
        let services = match Service::opt_vec_to_canonical(&self.services) {
            Some(x) => x,
            None => {
                return None;
            },
        };
        proof {
            models::Service::lemma_opt_models(services);
        }
        Some(
            models::Service {
                bom_ref,
                provider,
                group,
                name,
                version,
                description,
                endpoints,
                authenticated,
                x_trust_boundary,
                data,
                licenses,
                external_references,
                properties,
                services,
            },
        )
    }

    /// Shapes a list of them, one for one.
    pub fn vec_from_canonical(v: &Vec<models::Service>) -> (r: Vec<Service>)
        ensures
            r.deep_view() == ServiceView::seq_from_canonical(v.deep_view()),
        decreases v,
    {
        let mut out: Vec<Service> = Vec::new();
        let mut i: usize = 0;
        while i < v.len()
            invariant
                i <= v.len(),
                out.len() == i,
                forall|j: int|
                    0 <= j < i ==> (#[trigger] out[j]).deep_view() == ServiceView::from_canonical(
                        v[j].deep_view(),
                    ),
            decreases v.len() - i,
        {
            proof {
                assert(decreases_to!(v => v@));
                assert(decreases_to!(v@ => v@[i as int]));
            }
            out.push(Service::from_canonical(&v[i]));
            i += 1;
        }
        proof {
            assert(out.deep_view() =~= ServiceView::seq_from_canonical(v.deep_view()));
        }
        out
    }

    /// Reads a list of shapes back, one for one; `None` exactly where one of
    /// them is not well formed.
    pub fn vec_to_canonical(v: &Vec<Service>) -> (r: Option<Vec<models::Service>>)
        ensures
            r is Some <==> ServiceView::all_well_formed(v.deep_view()),
            r matches Some(c) ==> c.deep_view() == ServiceView::seq_to_canonical(v.deep_view()),
        decreases v,
    {
        let mut out: Vec<models::Service> = Vec::new();
        let mut i: usize = 0;
        while i < v.len()
            invariant
                i <= v.len(),
                out.len() == i,
                forall|j: int| 0 <= j < i ==> (#[trigger] v[j]).deep_view().well_formed(),
                forall|j: int|
                    0 <= j < i ==> (#[trigger] out[j]).deep_view()
                        == v[j].deep_view().to_canonical(),
            decreases v.len() - i,
        {
            proof {
                assert(decreases_to!(v => v@));
                assert(decreases_to!(v@ => v@[i as int]));
            }
            match v[i].to_canonical() {
                Some(c) => {
                    out.push(c);
                },
                None => {
                    proof {
                        assert(v.deep_view()[i as int] == v[i as int].deep_view());
                    }
                    return None;
                },
            }
            i += 1;
        }
        proof {
            assert(out.deep_view() =~= ServiceView::seq_to_canonical(v.deep_view()));
            assert forall|j: int| 0 <= j < v.deep_view().len() implies (
                #[trigger] v.deep_view()[j]
            ).well_formed() by {
                assert(v.deep_view()[j] == v[j].deep_view());
            }
        }
        Some(out)
    }

    /// Shapes a list that may be absent.
    pub fn opt_vec_from_canonical(o: &Option<Vec<models::Service>>) -> (r: Option<Vec<Service>>)
        ensures
            r.deep_view() == (match o.deep_view() {
                Some(x) => Some(ServiceView::seq_from_canonical(x)),
                None => None,
            }),
        decreases o,
    {
        match o {
            Some(x) => {
                proof {
                    assert(decreases_to!(o => o->0));
                }
                Some(Service::vec_from_canonical(x))
            },
            None => None,
        }
    }

    /// Reads back a list that may be absent; the outer `None` exactly where
    /// it is there and one of its shapes is not well formed.
    pub fn opt_vec_to_canonical(o: &Option<Vec<Service>>) -> (r: Option<Option<Vec<models::Service>>>)
        ensures
            r is Some <==> (o.deep_view() matches Some(x) ==> ServiceView::all_well_formed(x)),
            r matches Some(c) ==> c.deep_view() == (match o.deep_view() {
                Some(x) => Some(ServiceView::seq_to_canonical(x)),
                None => None,
            }),
        decreases o,
    {
        match o {
            Some(x) => {
                proof {
                    assert(decreases_to!(o => o->0));
                }
                match Service::vec_to_canonical(x) {
                    Some(c) => Some(Some(c)),
                    None => None,
                }
            },
            None => Some(None),
        }
    }
}

} // verus!
