//! The JSON objects of services.

use crate::json::{
    array, optional_bool, optional_string, optional_strings, string, string_values, Json,
    JsonValue, Members, ObjectBuilder,
};
use crate::specs::v1_3::{
    DataClassification, DataClassificationView, ExternalReference, ExternalReferenceView,
    LicenseChoice, LicenseChoiceView, OrganizationalEntity, Properties, PropertyView, Service,
    ServiceView,
};
use vstd::prelude::*;

verus! {

impl ServiceView {
    /// The JSON object that schema 1.3 writes for a service: its parts in the
    /// order of the schema, each under its key, and no member for a part that
    /// is absent.
    pub open spec fn json(self) -> Json
        decreases self,
    {
        Members::none()
            .with_optional(
                "bom-ref"@,
                match self.bom_ref {
                    Some(x) => Some(Json::String(x)),
                    None => None,
                },
            )
            .with_optional(
                "provider"@,
                match self.provider {
                    Some(x) => Some(x.json()),
                    None => None,
                },
            )
            .with_optional(
                "group"@,
                match self.group {
                    Some(x) => Some(Json::String(x)),
                    None => None,
                },
            )
            .with("name"@, Json::String(self.name))
            .with_optional(
                "version"@,
                match self.version {
                    Some(x) => Some(Json::String(x)),
                    None => None,
                },
            )
            .with_optional(
                "description"@,
                match self.description {
                    Some(x) => Some(Json::String(x)),
                    None => None,
                },
            )
            .with_optional(
                "endpoints"@,
                match self.endpoints {
                    Some(x) => Some(Json::Array(string_values(x))),
                    None => None,
                },
            )
            .with_optional(
                "authenticated"@,
                match self.authenticated {
                    Some(x) => Some(Json::Bool(x)),
                    None => None,
                },
            )
            .with_optional(
                "x-trust-boundary"@,
                match self.x_trust_boundary {
                    Some(x) => Some(Json::Bool(x)),
                    None => None,
                },
            )
            .with_optional(
                "data"@,
                match self.data {
                    Some(x) => Some(Json::Array(DataClassificationView::seq_json(x))),
                    None => None,
                },
            )
            .with_optional(
                "licenses"@,
                match self.licenses {
                    Some(x) => Some(Json::Array(LicenseChoiceView::seq_json(x))),
                    None => None,
                },
            )
            .with_optional(
                "externalReferences"@,
                match self.external_references {
                    Some(x) => Some(Json::Array(ExternalReferenceView::seq_json(x))),
                    None => None,
                },
            )
            .with_optional(
                "properties"@,
                match self.properties {
                    Some(x) => Some(Json::Array(PropertyView::seq_json(x))),
                    None => None,
                },
            )
            .with_optional(
                "services"@,
                match self.services {
                    Some(x) => Some(Json::Array(ServiceView::seq_json(x))),
                    None => None,
                },
            )
            .object()
    }

    /// The JSON objects of a sequence of them, one for one.
    pub open spec fn seq_json(s: Seq<ServiceView>) -> Seq<Json>
        decreases s,
    {
        Seq::new(
            s.len(),
            |i: int|
                if 0 <= i < s.len() {
                    s[i].json()
                } else {
                    arbitrary()
                },
        )
    }
}

impl Service {
    /// Builds the JSON object for this service.
    pub fn to_json_value(&self) -> (r: JsonValue)
        ensures
            r.deep_view() == self.deep_view().json(),
        decreases self,
    {
        let members = ObjectBuilder::new();
        let members = members.with_optional("bom-ref", optional_string(&self.bom_ref));
        let members = members.with_optional(
            "provider",
            OrganizationalEntity::opt_to_json_value(&self.provider),
        );
        let members = members.with_optional("group", optional_string(&self.group));
        let members = members.with("name", string(self.name.as_str()));
        let members = members.with_optional("version", optional_string(&self.version));
        let members = members.with_optional("description", optional_string(&self.description));
        let members = members.with_optional("endpoints", optional_strings(&self.endpoints));
        let members = members.with_optional("authenticated", optional_bool(self.authenticated));
        let members = members.with_optional(
            "x-trust-boundary",
            optional_bool(self.x_trust_boundary),
        );
        let members = members.with_optional(
            "data",
            DataClassification::opt_vec_to_json_value(&self.data),
        );
        let members = members.with_optional(
            "licenses",
            LicenseChoice::list_to_json_value(&self.licenses),
        );
        let members = members.with_optional(
            "externalReferences",
            ExternalReference::opt_vec_to_json_value(&self.external_references),
        );
        let members = members.with_optional(
            "properties",
            Properties::opt_to_json_value(&self.properties),
        );
        proof {
            assert(decreases_to!(self => self.services));
            Service::lemma_opt_models(self.services);
        }
        let members = members.with_optional(
            "services",
            Service::opt_vec_to_json_value(&self.services),
        );
        members.build()
    }

    /// The JSON array for a list of them.
    pub fn vec_to_json_value(v: &Vec<Service>) -> (r: JsonValue)
        ensures
            r.deep_view() == Json::Array(ServiceView::seq_json(v.deep_view())),
        decreases v,
    {
        let mut items: Vec<JsonValue> = Vec::new();
        let mut i: usize = 0;
        while i < v.len()
            invariant
                i <= v.len(),
                items.len() == i,
                forall|j: int|
                    0 <= j < i ==> (#[trigger] items[j]).deep_view() == v[j].deep_view().json(),
            decreases v.len() - i,
        {
            proof {
                assert(decreases_to!(v => v@));
                assert(decreases_to!(v@ => v@[i as int]));
            }
            items.push(v[i].to_json_value());
            i += 1;
        }
        proof {
            assert(items.deep_view() =~= ServiceView::seq_json(v.deep_view()));
        }
        array(items)
    }

    /// The JSON array for a list of them that may be absent.
    pub fn opt_vec_to_json_value(o: &Option<Vec<Service>>) -> (r: Option<JsonValue>)
        ensures
            r.deep_view() == (match o.deep_view() {
                Some(x) => Some(Json::Array(ServiceView::seq_json(x))),
                None => None,
            }),
        decreases o,
    {
        match o {
            Some(x) => {
                proof {
                    assert(decreases_to!(o => o->0));
                }
                Some(Service::vec_to_json_value(x))
            },
            None => None,
        }
    }
}

} // verus!
