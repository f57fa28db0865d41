//! The JSON document: the root object, its metadata and its dependency
//! graph, and the text they are written as.

use crate::errors::BomError;
use crate::json::{
    array, document, optional_number, optional_string, string, string_values, strings, Json,
    JsonValue, Members, ObjectBuilder,
};
use crate::specs::v1_3::{
    Bom, BomFormat, BomView, Component, ComponentView, Composition, CompositionView, Dependency,
    DependencyView, ExternalReference, ExternalReferenceView, LicenseChoice, LicenseChoiceView,
    Metadata, MetadataView, OrganizationalContact, OrganizationalContactView,
    OrganizationalEntity, Properties, PropertyView, Service, ServiceView, Tool, ToolView,
};
use vstd::prelude::*;

verus! {

impl MetadataView {
    /// The JSON object that schema 1.3 writes for a metadata: its parts in the
    /// order of the schema, each under its key, and no member for a part that
    /// is absent.
    pub open spec fn json(self) -> Json {
        Members::none()
            .with_optional(
                "timestamp"@,
                match self.timestamp {
                    Some(x) => Some(Json::String(x)),
                    None => None,
                },
            )
            .with_optional(
                "tools"@,
                match self.tools {
                    Some(x) => Some(Json::Array(ToolView::seq_json(x))),
                    None => None,
                },
            )
            .with_optional(
                "authors"@,
                match self.authors {
                    Some(x) => Some(Json::Array(OrganizationalContactView::seq_json(x))),
                    None => None,
                },
            )
            .with_optional(
                "component"@,
                match self.component {
                    Some(x) => Some(x.json()),
                    None => None,
                },
            )
            .with_optional(
                "manufacture"@,
                match self.manufacture {
                    Some(x) => Some(x.json()),
                    None => None,
                },
            )
            .with_optional(
                "supplier"@,
                match self.supplier {
                    Some(x) => Some(x.json()),
                    None => None,
                },
            )
            .with_optional(
                "licenses"@,
                match self.licenses {
                    Some(x) => Some(Json::Array(LicenseChoiceView::seq_json(x))),
                    None => None,
                },
            )
            .with_optional(
                "properties"@,
                match self.properties {
                    Some(x) => Some(Json::Array(PropertyView::seq_json(x))),
                    None => None,
                },
            )
            .object()
    }
}

impl Metadata {
    /// Builds the JSON object for this metadata.
    pub fn to_json_value(&self) -> (r: JsonValue)
        ensures
            r.deep_view() == self.deep_view().json(),
    {
        let members = ObjectBuilder::new();
        let members = members.with_optional("timestamp", optional_string(&self.timestamp));
        let members = members.with_optional("tools", Tool::opt_vec_to_json_value(&self.tools));
        let members = members.with_optional(
            "authors",
            OrganizationalContact::opt_vec_to_json_value(&self.authors),
        );
        let members = members.with_optional(
            "component",
            Component::opt_to_json_value(&self.component),
        );
        let members = members.with_optional(
            "manufacture",
            OrganizationalEntity::opt_to_json_value(&self.manufacture),
        );
        let members = members.with_optional(
            "supplier",
            OrganizationalEntity::opt_to_json_value(&self.supplier),
        );
        let members = members.with_optional(
            "licenses",
            LicenseChoice::list_to_json_value(&self.licenses),
        );
        let members = members.with_optional(
            "properties",
            Properties::opt_to_json_value(&self.properties),
        );
        members.build()
    }

    /// The JSON object for one that may be absent.
    pub fn opt_to_json_value(o: &Option<Metadata>) -> (r: Option<JsonValue>)
        ensures
            r.deep_view() == (match o.deep_view() {
                Some(x) => Some(x.json()),
                None => None,
            }),
    {
        match o {
            Some(x) => Some(x.to_json_value()),
            None => None,
        }
    }
}

impl DependencyView {
    /// The JSON object that schema 1.3 writes for a dependency: its
    /// reference under `ref`, and the references it depends on under
    /// `dependsOn`.
    pub open spec fn json(self) -> Json {
        Members::none()
            .with("ref"@, Json::String(self.dependency_ref))
            .with("dependsOn"@, Json::Array(string_values(self.depends_on)))
            .object()
    }

    /// The JSON objects of a sequence of them, one for one.
    pub open spec fn seq_json(s: Seq<DependencyView>) -> Seq<Json> {
        Seq::new(s.len(), |i: int| s[i].json())
    }
}

impl Dependency {
    /// Builds the JSON object for this dependency.
    pub fn to_json_value(&self) -> (r: JsonValue)
        ensures
            r.deep_view() == self.deep_view().json(),
    {
        ObjectBuilder::new()
            .with("ref", string(self.dependency_ref.as_str()))
            .with("dependsOn", strings(&self.depends_on))
            .build()
    }

    /// The JSON array for a list of them that may be absent.
    pub fn opt_vec_to_json_value(o: &Option<Vec<Dependency>>) -> (r: Option<JsonValue>)
        ensures
            r.deep_view() == (match o.deep_view() {
                Some(x) => Some(Json::Array(DependencyView::seq_json(x))),
                None => None,
            }),
    {
        match o {
            Some(v) => {
                let mut items: Vec<JsonValue> = Vec::new();
                let mut i: usize = 0;
                while i < v.len()
                    invariant
                        i <= v.len(),
                        items.len() == i,
                        forall|j: int|
                            0 <= j < i ==> (#[trigger] items[j]).deep_view()
                                == v[j].deep_view().json(),
                    decreases v.len() - i,
                {
                    items.push(v[i].to_json_value());
                    i += 1;
                }
                proof {
                    assert(items.deep_view() =~= DependencyView::seq_json(v.deep_view()));
                }
                Some(array(items))
            },
            None => None,
        }
    }
}

impl BomView {
    /// The JSON object of a whole document. The tag `bomFormat` and the
    /// `specVersion` always stand first; every other part has a member only
    /// where it is there.
    pub open spec fn json(self) -> Json {
        Members::none()
            .with("bomFormat"@, Json::String("CycloneDX"@))
            .with("specVersion"@, Json::String(self.spec_version))
            .with_optional(
                "version"@,
                match self.version {
                    Some(x) => Some(Json::Number(x as nat)),
                    None => None,
                },
            )
            .with_optional(
                "serialNumber"@,
                match self.serial_number {
                    Some(x) => Some(Json::String(x)),
                    None => None,
                },
            )
            .with_optional(
                "metadata"@,
                match self.metadata {
                    Some(x) => Some(x.json()),
                    None => None,
                },
            )
            .with_optional(
                "components"@,
                match self.components {
                    Some(x) => Some(Json::Array(ComponentView::seq_json(x))),
                    None => None,
                },
            )
            .with_optional(
                "services"@,
                match self.services {
                    Some(x) => Some(Json::Array(ServiceView::seq_json(x))),
                    None => None,
                },
            )
            .with_optional(
                "externalReferences"@,
                match self.external_references {
                    Some(x) => Some(Json::Array(ExternalReferenceView::seq_json(x))),
                    None => None,
                },
            )
            .with_optional(
                "dependencies"@,
                match self.dependencies {
                    Some(x) => Some(Json::Array(DependencyView::seq_json(x))),
                    None => None,
                },
            )
            .with_optional(
                "compositions"@,
                match self.compositions {
                    Some(x) => Some(Json::Array(CompositionView::seq_json(x))),
                    None => None,
                },
            )
            .with_optional(
                "properties"@,
                match self.properties {
                    Some(x) => Some(Json::Array(PropertyView::seq_json(x))),
                    None => None,
                },
            )
            .object()
    }

    /// The text of the JSON document.
    pub open spec fn json_text(self) -> Seq<char> {
        document(self.json())
    }
}

impl Bom {
    /// Builds the JSON object of the document.
    pub fn to_json_value(&self) -> (r: JsonValue)
        ensures
            r.deep_view() == self.deep_view().json(),
    {
        let format = match self.bom_format {
            BomFormat::CycloneDX => "CycloneDX",
        };
        ObjectBuilder::new()
            .with("bomFormat", string(format))
            .with("specVersion", string(self.spec_version.as_str()))
            .with_optional("version", optional_number(self.version))
            .with_optional("serialNumber", optional_string(&self.serial_number))
            .with_optional("metadata", Metadata::opt_to_json_value(&self.metadata))
            .with_optional("components", Component::opt_vec_to_json_value(&self.components))
            .with_optional("services", Service::opt_vec_to_json_value(&self.services))
            .with_optional(
                "externalReferences",
                ExternalReference::opt_vec_to_json_value(&self.external_references),
            )
            .with_optional("dependencies", Dependency::opt_vec_to_json_value(&self.dependencies))
            .with_optional("compositions", Composition::opt_vec_to_json_value(&self.compositions))
            .with_optional("properties", Properties::opt_to_json_value(&self.properties))
            .build()
    }
}

impl Bom {
    /// Writes the document as JSON, pretty-printed. Writing never fails.
    pub fn to_json(&self) -> (r: Result<String, BomError>)
        ensures
            r matches Ok(text) && text@ == self.deep_view().json_text(),
    {
        Ok(self.to_json_value().to_string_pretty())
    }
}

} // verus!
