//! The XML elements of services.

use crate::specs::v1_3::adapter::opt_string_clone;
use crate::specs::v1_3::xml::{make_optional_bool_element, make_optional_text_elements};
use crate::specs::v1_3::{
    DataClassification, DataClassificationView, ExternalReference, ExternalReferenceView,
    LicenseChoice, LicenseChoiceView, OrganizationalEntity, Properties, PropertyView, Service,
    ServiceView,
};
use crate::xml::{
    bool_text, make_optional_text_element, make_optional_wrapper, make_text_element,
    optional_text_element, optional_wrapper, text_element, text_elements, Element, ElementBuilder,
    ElementView,
};
use vstd::prelude::*;

verus! {

impl ServiceView {
    /// The XML element of the given name that schema 1.3 writes for a
    /// service: its parts in the order of the schema, and nothing for a part
    /// that is absent.
    pub open spec fn xml(self, name: Seq<char>) -> ElementView
        decreases self,
    {
        ElementView::named(name)
            .with_optional_attribute("bom-ref"@, self.bom_ref)
            .with_optional_child(
                match self.provider {
                    Some(x) => Some(x.xml("provider"@)),
                    None => None,
                },
            )
            .with_optional_child(optional_text_element("group"@, self.group))
            .with_child(text_element("name"@, self.name))
            .with_optional_child(optional_text_element("version"@, self.version))
            .with_optional_child(optional_text_element("description"@, self.description))
            .with_optional_child(
                optional_wrapper(
                    "endpoints"@,
                    match self.endpoints {
                        Some(x) => Some(text_elements("endpoint"@, x)),
                        None => None,
                    },
                ),
            )
            .with_optional_child(
                optional_text_element(
                    "authenticated"@,
                    match self.authenticated {
                        Some(x) => Some(bool_text(x)),
                        None => None,
                    },
                ),
            )
            .with_optional_child(
                optional_text_element(
                    "x-trust-boundary"@,
                    match self.x_trust_boundary {
                        Some(x) => Some(bool_text(x)),
                        None => None,
                    },
                ),
            )
            .with_optional_child(
                optional_wrapper(
                    "data"@,
                    match self.data {
                        Some(x) => Some(DataClassificationView::seq_xml(x, "classification"@)),
                        None => None,
                    },
                ),
            )
            .with_optional_child(
                optional_wrapper(
                    "licenses"@,
                    match self.licenses {
                        Some(x) => Some(LicenseChoiceView::seq_xml(x)),
                        None => None,
                    },
                ),
            )
            .with_optional_child(
                optional_wrapper(
                    "externalReferences"@,
                    match self.external_references {
                        Some(x) => Some(ExternalReferenceView::seq_xml(x, "reference"@)),
                        None => None,
                    },
                ),
            )
            .with_optional_child(
                optional_wrapper(
                    "properties"@,
                    match self.properties {
                        Some(x) => Some(PropertyView::seq_xml(x, "property"@)),
                        None => None,
                    },
                ),
            )
            .with_optional_child(
                optional_wrapper(
                    "services"@,
                    match self.services {
                        Some(x) => Some(ServiceView::seq_xml(x, "service"@)),
                        None => None,
                    },
                ),
            )
    }

    /// The XML elements of a sequence of them, one for one.
    pub open spec fn seq_xml(s: Seq<ServiceView>, name: Seq<char>) -> Seq<ElementView>
        decreases s,
    {
        Seq::new(
            s.len(),
            |i: int|
                if 0 <= i < s.len() {
                    s[i].xml(name)
                } else {
                    arbitrary()
                },
        )
    }
}

impl Service {
    /// Builds the XML element of the given name for this service.
    pub fn to_xml_element(&self, name: &str) -> (r: Element)
        ensures
            r.deep_view() == self.deep_view().xml(name@),
        decreases self,
    {
        let element = ElementBuilder::new(name);
        let element = element.with_optional_attribute("bom-ref", opt_string_clone(&self.bom_ref));
        let element = element.with_optional_child(
            OrganizationalEntity::opt_to_xml_element(&self.provider, "provider"),
        );
        let element = element.with_optional_child(make_optional_text_element("group", &self.group));
        let element = element.with_child(make_text_element("name", self.name.as_str()));
        let element = element.with_optional_child(
            make_optional_text_element("version", &self.version),
        );
        let element = element.with_optional_child(
            make_optional_text_element("description", &self.description),
        );
        let element = element.with_optional_child(
            make_optional_wrapper(
                "endpoints",
                make_optional_text_elements("endpoint", &self.endpoints),
            ),
        );
        let element = element.with_optional_child(
            make_optional_bool_element("authenticated", self.authenticated),
        );
        let element = element.with_optional_child(
            make_optional_bool_element("x-trust-boundary", self.x_trust_boundary),
        );
        let element = element.with_optional_child(
            make_optional_wrapper(
                "data",
                DataClassification::opt_vec_to_xml_elements(&self.data, "classification"),
            ),
        );
        let element = element.with_optional_child(
            make_optional_wrapper("licenses", LicenseChoice::list_to_xml_elements(&self.licenses)),
        );
        let element = element.with_optional_child(
            make_optional_wrapper(
                "externalReferences",
                ExternalReference::opt_vec_to_xml_elements(&self.external_references, "reference"),
            ),
        );
        let element = element.with_optional_child(
            make_optional_wrapper("properties", Properties::opt_to_xml_elements(&self.properties)),
        );
        proof {
            assert(decreases_to!(self => self.services));
            Service::lemma_opt_models(self.services);
        }
        let element = element.with_optional_child(
            make_optional_wrapper(
                "services",
                Service::opt_vec_to_xml_elements(&self.services, "service"),
            ),
        );
        element.build()
    }

    /// The XML elements for a list of them.
    pub fn vec_to_xml_elements(v: &Vec<Service>, name: &str) -> (r: Vec<Element>)
        ensures
            r.deep_view() == ServiceView::seq_xml(v.deep_view(), name@),
        decreases v,
    {
        let mut out: Vec<Element> = Vec::new();
        let mut i: usize = 0;
        while i < v.len()
            invariant
                i <= v.len(),
                out.len() == i,
                forall|j: int|
                    0 <= j < i ==> (#[trigger] out[j]).deep_view() == v[j].deep_view().xml(name@),
            decreases v.len() - i,
        {
            proof {
                assert(decreases_to!(v => v@));
                assert(decreases_to!(v@ => v@[i as int]));
            }
            out.push(v[i].to_xml_element(name));
            i += 1;
        }
        proof {
            assert(out.deep_view() =~= ServiceView::seq_xml(v.deep_view(), name@));
        }
        out
    }

    /// The XML elements for a list of them that may be absent.
    pub fn opt_vec_to_xml_elements(o: &Option<Vec<Service>>, name: &str) -> (r: Option<
        Vec<Element>,
    >)
        ensures
            r.deep_view() == (match o.deep_view() {
                Some(x) => Some(ServiceView::seq_xml(x, name@)),
                None => None,
            }),
        decreases o,
    {
        match o {
            Some(x) => {
                proof {
                    assert(decreases_to!(o => o->0));
                }
                Some(Service::vec_to_xml_elements(x, name))
            },
            None => None,
        }
    }
}

} // verus!
