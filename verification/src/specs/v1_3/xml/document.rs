//! The XML document: the root element, its metadata and its dependency
//! graph, and the text they are written as.

use crate::errors::BomError;
use crate::specs::v1_3::adapter::opt_string_clone;
use crate::specs::v1_3::xml::{make_reference_elements, optional_decimal, reference_elements};
use crate::specs::v1_3::{
    Bom, BomView, Component, ComponentView, Composition, CompositionView, Dependency,
    DependencyView, ExternalReference, ExternalReferenceView, LicenseChoice, LicenseChoiceView,
    Metadata, MetadataView, OrganizationalContact, OrganizationalContactView,
    OrganizationalEntity, Properties, PropertyView, Service, ServiceView, Tool, ToolView,
};
use crate::text::decimal;
use crate::xml::{
    document_text, make_optional_text_element, make_optional_wrapper, optional_text_element,
    optional_wrapper, Element, ElementBuilder, ElementView,
};
use vstd::prelude::*;

verus! {

impl MetadataView {
    /// The XML element of the given name that schema 1.3 writes for a
    /// metadata: its parts in the order of the schema, and nothing for a part
    /// that is absent.
    pub open spec fn xml(self, name: Seq<char>) -> ElementView {
        ElementView::named(name)
            .with_optional_child(optional_text_element("timestamp"@, self.timestamp))
            .with_optional_child(
                optional_wrapper(
                    "tools"@,
                    match self.tools {
                        Some(x) => Some(ToolView::seq_xml(x, "tool"@)),
                        None => None,
                    },
                ),
            )
            .with_optional_child(
                optional_wrapper(
                    "authors"@,
                    match self.authors {
                        Some(x) => Some(OrganizationalContactView::seq_xml(x, "author"@)),
                        None => None,
                    },
                ),
            )
            .with_optional_child(
                match self.component {
                    Some(x) => Some(x.xml("component"@)),
                    None => None,
                },
            )
            .with_optional_child(
                match self.manufacture {
                    Some(x) => Some(x.xml("manufacture"@)),
                    None => None,
                },
            )
            .with_optional_child(
                match self.supplier {
                    Some(x) => Some(x.xml("supplier"@)),
                    None => None,
                },
            )
            .with_optional_child(
                optional_wrapper(
                    "licenses"@,
                    match self.licenses {
                        Some(x) => Some(LicenseChoiceView::seq_xml(x)),
                        None => None,
                    },
                ),
            )
            .with_optional_child(
                optional_wrapper(
                    "properties"@,
                    match self.properties {
                        Some(x) => Some(PropertyView::seq_xml(x, "property"@)),
                        None => None,
                    },
                ),
            )
    }
}

impl Metadata {
    /// Builds the XML element of the given name for this metadata.
    pub fn to_xml_element(&self, name: &str) -> (r: Element)
        ensures
            r.deep_view() == self.deep_view().xml(name@),
    {
        let element = ElementBuilder::new(name);
        let element = element.with_optional_child(
            make_optional_text_element("timestamp", &self.timestamp),
        );
        let element = element.with_optional_child(
            make_optional_wrapper("tools", Tool::opt_vec_to_xml_elements(&self.tools, "tool")),
        );
        let element = element.with_optional_child(
            make_optional_wrapper(
                "authors",
                OrganizationalContact::opt_vec_to_xml_elements(&self.authors, "author"),
            ),
        );
        let element = element.with_optional_child(
            Component::opt_to_xml_element(&self.component, "component"),
        );
        let element = element.with_optional_child(
            OrganizationalEntity::opt_to_xml_element(&self.manufacture, "manufacture"),
        );
        let element = element.with_optional_child(
            OrganizationalEntity::opt_to_xml_element(&self.supplier, "supplier"),
        );
        let element = element.with_optional_child(
            make_optional_wrapper("licenses", LicenseChoice::list_to_xml_elements(&self.licenses)),
        );
        let element = element.with_optional_child(
            make_optional_wrapper("properties", Properties::opt_to_xml_elements(&self.properties)),
        );
        element.build()
    }

    /// The XML element for one that may be absent.
    pub fn opt_to_xml_element(o: &Option<Metadata>, name: &str) -> (r: Option<Element>)
        ensures
            r.deep_view() == (match o.deep_view() {
                Some(x) => Some(x.xml(name@)),
                None => None,
            }),
    {
        match o {
            Some(x) => Some(x.to_xml_element(name)),
            None => None,
        }
    }
}

impl DependencyView {
    /// The XML element that schema 1.3 writes for a dependency: its
    /// reference in the attribute `ref`, and an empty `dependency` element
    /// for each reference it depends on.
    pub open spec fn xml(self) -> ElementView {
        ElementView::named("dependency"@)
            .with_attribute("ref"@, self.dependency_ref)
            .with_children(reference_elements("dependency"@, "ref"@, self.depends_on))
    }

    /// The XML elements of a sequence of them, one for one.
    pub open spec fn seq_xml(s: Seq<DependencyView>) -> Seq<ElementView> {
        Seq::new(s.len(), |i: int| s[i].xml())
    }
}

impl Dependency {
    /// Builds the XML element for this dependency.
    pub fn to_xml_element(&self) -> (r: Element)
        ensures
            r.deep_view() == self.deep_view().xml(),
    {
        ElementBuilder::new("dependency")
            .with_attribute("ref", self.dependency_ref.clone())
            .with_children(make_reference_elements("dependency", "ref", &self.depends_on))
            .build()
    }

    /// The XML elements for a list of them that may be absent.
    pub fn opt_vec_to_xml_elements(o: &Option<Vec<Dependency>>) -> (r: Option<Vec<Element>>)
        ensures
            r.deep_view() == (match o.deep_view() {
                Some(x) => Some(DependencyView::seq_xml(x)),
                None => None,
            }),
    {
        match o {
            Some(v) => {
                let mut out: Vec<Element> = Vec::new();
                let mut i: usize = 0;
                while i < v.len()
                    invariant
                        i <= v.len(),
                        out.len() == i,
                        forall|j: int|
                            0 <= j < i ==> (#[trigger] out[j]).deep_view()
                                == v[j].deep_view().xml(),
                    decreases v.len() - i,
                {
                    out.push(v[i].to_xml_element());
                    i += 1;
                }
                proof {
                    assert(out.deep_view() =~= DependencyView::seq_xml(v.deep_view()));
                }
                Some(out)
            },
            None => None,
        }
    }
}

impl BomView {
    /// The root element of the document. It declares the namespace of the
    /// schema, carries the version and the serial number as attributes, and
    /// holds every other part in an element of its own.
    pub open spec fn xml(self) -> ElementView {
        ElementView::named("Bom"@)
            .with_attribute("xmlns"@, "ns:http://cyclonedx.org/schema/bom/1.3"@)
            .with_optional_attribute(
                "version"@,
                match self.version {
                    Some(x) => Some(decimal(x as nat)),
                    None => None,
                },
            )
            .with_optional_attribute("serialNumber"@, self.serial_number)
            .with_optional_child(
                match self.metadata {
                    Some(x) => Some(x.xml("metadata"@)),
                    None => None,
                },
            )
            .with_optional_child(
                optional_wrapper(
                    "components"@,
                    match self.components {
                        Some(x) => Some(ComponentView::seq_xml(x, "component"@)),
                        None => None,
                    },
                ),
            )
            .with_optional_child(
                optional_wrapper(
                    "services"@,
                    match self.services {
                        Some(x) => Some(ServiceView::seq_xml(x, "service"@)),
                        None => None,
                    },
                ),
            )
            .with_optional_child(
                optional_wrapper(
                    "externalReferences"@,
                    match self.external_references {
                        Some(x) => Some(ExternalReferenceView::seq_xml(x, "reference"@)),
                        None => None,
                    },
                ),
            )
            .with_optional_child(
                optional_wrapper(
                    "dependencies"@,
                    match self.dependencies {
                        Some(x) => Some(DependencyView::seq_xml(x)),
                        None => None,
                    },
                ),
            )
            .with_optional_child(
                optional_wrapper(
                    "compositions"@,
                    match self.compositions {
                        Some(x) => Some(CompositionView::seq_xml(x, "composition"@)),
                        None => None,
                    },
                ),
            )
            .with_optional_child(
                optional_wrapper(
                    "properties"@,
                    match self.properties {
                        Some(x) => Some(PropertyView::seq_xml(x, "property"@)),
                        None => None,
                    },
                ),
            )
    }

    /// The text of the XML document.
    pub open spec fn xml_text(self) -> Seq<char> {
        document_text(self.xml())
    }
}

impl Bom {
    /// Builds the root element of the document.
    pub fn to_xml_element(&self) -> (r: Element)
        ensures
            r.deep_view() == self.deep_view().xml(),
    {
        ElementBuilder::new("Bom")
            .with_attribute("xmlns", "ns:http://cyclonedx.org/schema/bom/1.3".to_string())
            .with_optional_attribute("version", optional_decimal(self.version))
            .with_optional_attribute("serialNumber", opt_string_clone(&self.serial_number))
            .with_optional_child(Metadata::opt_to_xml_element(&self.metadata, "metadata"))
            .with_optional_child(
                make_optional_wrapper(
                    "components",
                    Component::opt_vec_to_xml_elements(&self.components, "component"),
                ),
            )
            .with_optional_child(
                make_optional_wrapper(
                    "services",
                    Service::opt_vec_to_xml_elements(&self.services, "service"),
                ),
            )
            .with_optional_child(
                make_optional_wrapper(
                    "externalReferences",
                    ExternalReference::opt_vec_to_xml_elements(
                        &self.external_references,
                        "reference",
                    ),
                ),
            )
            .with_optional_child(
                make_optional_wrapper(
                    "dependencies",
                    Dependency::opt_vec_to_xml_elements(&self.dependencies),
                ),
            )
            .with_optional_child(
                make_optional_wrapper(
                    "compositions",
                    Composition::opt_vec_to_xml_elements(&self.compositions, "composition"),
                ),
            )
            .with_optional_child(
                make_optional_wrapper(
                    "properties",
                    Properties::opt_to_xml_elements(&self.properties),
                ),
            )
            .build()
    }

    /// Writes the document as XML: the declaration, and the root element
    /// with all that it holds, indented by two spaces for each level.
    /// Writing never fails.
    pub fn to_xml(&self) -> (r: Result<String, BomError>)
        ensures
            r matches Ok(text) && text@ == self.deep_view().xml_text(),
    {
        Ok(self.to_xml_element().to_document())
    }
}

} // verus!
