//! The adapter for the root of a document, its metadata and its dependency
//! graph.

use crate::models;
use crate::specs::v1_3::adapter::{opt_date_time_to_string, opt_string_to_date_time};
use crate::specs::v1_3::{
    Bom, BomFormat, BomView, Component, ComponentView, Composition, CompositionView, Dependency,
    DependencyView, ExternalReference, ExternalReferenceView, LicenseChoice, LicenseChoiceView,
    Metadata, MetadataView, OrganizationalContact, OrganizationalContactView,
    OrganizationalEntity, OrganizationalEntityView, Properties, PropertyView, Service,
    ServiceView, Tool, ToolView,
};
use vstd::prelude::*;

verus! {

impl MetadataView {
    /// The shape that schema 1.3 gives to the metadata `c`.
    pub open spec fn from_canonical(c: models::MetadataView) -> MetadataView {
        MetadataView {
            timestamp: c.timestamp,
            tools: match c.tools {
                Some(x) => Some(ToolView::seq_from_canonical(x)),
                None => None,
            },
            authors: match c.authors {
                Some(x) => Some(OrganizationalContactView::seq_from_canonical(x)),
                None => None,
            },
            component: match c.component {
                Some(x) => Some(ComponentView::from_canonical(x)),
                None => None,
            },
            manufacture: match c.manufacture {
                Some(x) => Some(OrganizationalEntityView::from_canonical(x)),
                None => None,
            },
            supplier: match c.supplier {
                Some(x) => Some(OrganizationalEntityView::from_canonical(x)),
                None => None,
            },
            licenses: LicenseChoiceView::list_from_canonical(c.licenses),
            properties: match c.properties {
                Some(x) => Some(PropertyView::seq_from_canonical(x)),
                None => None,
            },
        }
    }

    /// Every word in it, at any depth, belongs to the vocabulary of its
    /// place.
    pub open spec fn well_formed(self) -> bool {
        &&& (self.tools matches Some(x) ==> ToolView::all_well_formed(x))
        &&& (self.component matches Some(x) ==> x.well_formed())
    }

    /// The metadata that this shape stands for, where it is well formed.
    pub open spec fn to_canonical(self) -> models::MetadataView {
        models::MetadataView {
            timestamp: self.timestamp,
            tools: match self.tools {
                Some(x) => Some(ToolView::seq_to_canonical(x)),
                None => None,
            },
            authors: match self.authors {
                Some(x) => Some(OrganizationalContactView::seq_to_canonical(x)),
                None => None,
            },
            component: match self.component {
                Some(x) => Some(x.to_canonical()),
                None => None,
            },
            manufacture: match self.manufacture {
                Some(x) => Some(x.to_canonical()),
                None => None,
            },
            supplier: match self.supplier {
                Some(x) => Some(x.to_canonical()),
                None => None,
            },
            licenses: LicenseChoiceView::list_to_canonical(self.licenses),
            properties: match self.properties {
                Some(x) => Some(PropertyView::seq_to_canonical(x)),
                None => None,
            },
        }
    }

    /// Schema 1.3 can carry `c` without loss: every list of licenses in it
    /// that stands under one choice holds exactly one license.
    pub open spec fn fits(c: models::MetadataView) -> bool {
        &&& (c.component matches Some(x) ==> ComponentView::fits(x))
        &&& LicenseChoiceView::list_fits(c.licenses)
    }
}

impl Metadata {
    /// Shapes a metadata as schema 1.3 writes it.
    pub fn from_canonical(c: &models::Metadata) -> (r: Metadata)
        ensures
            r.deep_view() == MetadataView::from_canonical(c.deep_view()),
    {
        let timestamp = opt_date_time_to_string(&c.timestamp);
        let tools = Tool::opt_vec_from_canonical(&c.tools);
        let authors = OrganizationalContact::opt_vec_from_canonical(&c.authors);
        let component = Component::opt_from_canonical(&c.component);
        let manufacture = OrganizationalEntity::opt_from_canonical(&c.manufacture);
        let supplier = OrganizationalEntity::opt_from_canonical(&c.supplier);
        let licenses = LicenseChoice::list_from_canonical(&c.licenses);
        let properties = Properties::opt_from_canonical(&c.properties);
        Metadata {
            timestamp,
            tools,
            authors,
            component,
            manufacture,
            supplier,
            licenses,
            properties,
        }
    }

    /// Reads the shape back as a metadata; `None` exactly where a word in it is
    /// outside the vocabulary of its place.
    pub fn to_canonical(&self) -> (r: Option<models::Metadata>)
        ensures
            r is Some <==> self.deep_view().well_formed(),
            r matches Some(c) ==> c.deep_view() == self.deep_view().to_canonical(),
    {
        let timestamp = opt_string_to_date_time(&self.timestamp);
        let tools = match Tool::opt_vec_to_canonical(&self.tools) {
            Some(x) => x,
            None => {
                return None;
            },
        };
        let authors = OrganizationalContact::opt_vec_to_canonical(&self.authors);
        let component = match Component::opt_to_canonical(&self.component) {
            Some(x) => x,
            None => {
                return None;
            },
        };
        let manufacture = OrganizationalEntity::opt_to_canonical(&self.manufacture);
        let supplier = OrganizationalEntity::opt_to_canonical(&self.supplier);
        let licenses = LicenseChoice::list_to_canonical(&self.licenses);
        let properties = Properties::opt_to_canonical(&self.properties);
        Some(
            models::Metadata {
                timestamp,
                tools,
                authors,
                component,
                manufacture,
                supplier,
                licenses,
                properties,
            },
        )
    }

    /// Shapes one that may be absent.
    pub fn opt_from_canonical(o: &Option<models::Metadata>) -> (r: Option<Metadata>)
        ensures
            r.deep_view() == (match o.deep_view() {
                Some(x) => Some(MetadataView::from_canonical(x)),
                None => None,
            }),
    {
        match o {
            Some(x) => Some(Metadata::from_canonical(x)),
            None => None,
        }
    }

    /// Reads back one that may be absent; the outer `None` exactly where it
    /// is there and not well formed.
    pub fn opt_to_canonical(o: &Option<Metadata>) -> (r: Option<Option<models::Metadata>>)
        ensures
            r is Some <==> (o.deep_view() matches Some(x) ==> x.well_formed()),
            r matches Some(c) ==> c.deep_view() == (match o.deep_view() {
                Some(x) => Some(x.to_canonical()),
                None => None,
            }),
    {
        match o {
            Some(x) => {
                match x.to_canonical() {
                    Some(c) => Some(Some(c)),
                    None => None,
                }
            },
            None => Some(None),
        }
    }
}

impl DependencyView {
    /// The shape that schema 1.3 gives to a dependency: its reference, and
    /// the references of the dependencies directly below it. What stands
    /// deeper is not part of the shape.
    pub open spec fn from_canonical(c: models::DependencyView) -> DependencyView {
        DependencyView {
            dependency_ref: c.dependency_ref,
            depends_on: Seq::new(c.dependencies.len(), |i: int| c.dependencies[i].dependency_ref),
        }
    }

    /// The dependency that this shape stands for: each reference it depends
    /// on becomes a dependency with nothing below it.
    pub open spec fn to_canonical(self) -> models::DependencyView {
        models::DependencyView {
            dependency_ref: self.dependency_ref,
            dependencies: Seq::new(
                self.depends_on.len(),
                |i: int|
                    models::DependencyView {
                        dependency_ref: self.depends_on[i],
                        dependencies: Seq::empty(),
                    },
            ),
        }
    }

    /// Schema 1.3 can carry `c` without loss: nothing stands below the
    /// dependencies directly below it.
    pub open spec fn fits(c: models::DependencyView) -> bool {
        forall|i: int|
            0 <= i < c.dependencies.len() ==> (#[trigger] c.dependencies[i]).dependencies.len()
                == 0
    }

    /// The shapes of a sequence of them, one for one.
    pub open spec fn seq_from_canonical(s: Seq<models::DependencyView>) -> Seq<DependencyView> {
        Seq::new(s.len(), |i: int| DependencyView::from_canonical(s[i]))
    }

    /// What a sequence of shapes stands for, one for one.
    pub open spec fn seq_to_canonical(s: Seq<DependencyView>) -> Seq<models::DependencyView> {
        Seq::new(s.len(), |i: int| s[i].to_canonical())
    }

    /// Schema 1.3 can carry each of them without loss.
    pub open spec fn all_fit(s: Seq<models::DependencyView>) -> bool {
        forall|i: int| 0 <= i < s.len() ==> DependencyView::fits(#[trigger] s[i])
    }
}

impl Dependency {
    /// Shapes a dependency as schema 1.3 writes it.
    pub fn from_canonical(c: &models::Dependency) -> (r: Dependency)
        ensures
            r.deep_view() == DependencyView::from_canonical(c.deep_view()),
    {
        let mut depends_on: Vec<String> = Vec::new();
        let mut i: usize = 0;
        while i < c.dependencies.len()
            invariant
                i <= c.dependencies.len(),
                depends_on.len() == i,
                forall|j: int|
                    0 <= j < i ==> (#[trigger] depends_on[j])@ == c.dependencies[j].dependency_ref@,
            decreases c.dependencies.len() - i,
        {
            depends_on.push(c.dependencies[i].dependency_ref.clone());
            i += 1;
        }
        let r = Dependency { dependency_ref: c.dependency_ref.clone(), depends_on };
        proof {
            let want = DependencyView::from_canonical(c.deep_view());
            assert forall|j: int| 0 <= j < c.dependencies.len() implies r.deep_view().depends_on[j]
                == want.depends_on[j] by {
                assert(c.deep_view().dependencies[j] == c.dependencies[j].model());
            }
            assert(r.deep_view().depends_on =~= want.depends_on);
        }
        r
    }

    /// Reads the shape back as a dependency.
    pub fn to_canonical(&self) -> (r: models::Dependency)
        ensures
            r.deep_view() == self.deep_view().to_canonical(),
    {
        let mut dependencies: Vec<models::Dependency> = Vec::new();
        let mut i: usize = 0;
        while i < self.depends_on.len()
            invariant
                i <= self.depends_on.len(),
                dependencies.len() == i,
                forall|j: int|
                    0 <= j < i ==> (#[trigger] dependencies[j]).dependency_ref@
                        == self.depends_on[j]@ && dependencies[j].dependencies@.len() == 0,
            decreases self.depends_on.len() - i,
        {
            dependencies.push(
                models::Dependency {
                    dependency_ref: self.depends_on[i].clone(),
                    dependencies: Vec::new(),
                },
            );
            i += 1;
        }
        let r = models::Dependency { dependency_ref: self.dependency_ref.clone(), dependencies };
        proof {
            let want = self.deep_view().to_canonical();
            assert forall|j: int| 0 <= j < self.depends_on.len() implies r.deep_view().dependencies[j]
                == want.dependencies[j] by {
                let child = r.dependencies[j];
                assert(r.deep_view().dependencies[j] == child.model());
                assert(child.model().dependencies =~= Seq::<models::DependencyView>::empty());
            }
            assert(r.deep_view().dependencies =~= want.dependencies);
        }
        r
    }

    /// Shapes a list of them, one for one.
    pub fn vec_from_canonical(v: &Vec<models::Dependency>) -> (r: Vec<Dependency>)
        ensures
            r.deep_view() == DependencyView::seq_from_canonical(v.deep_view()),
    {
        let mut out: Vec<Dependency> = Vec::new();
        let mut i: usize = 0;
        while i < v.len()
            invariant
                i <= v.len(),
                out.len() == i,
                forall|j: int|
                    0 <= j < i ==> (#[trigger] out[j]).deep_view()
                        == DependencyView::from_canonical(v[j].deep_view()),
            decreases v.len() - i,
        {
            out.push(Dependency::from_canonical(&v[i]));
            i += 1;
        }
        proof {
            assert(out.deep_view() =~= DependencyView::seq_from_canonical(v.deep_view()));
        }
        out
    }

    /// Reads a list of shapes back, one for one.
    pub fn vec_to_canonical(v: &Vec<Dependency>) -> (r: Vec<models::Dependency>)
        ensures
            r.deep_view() == DependencyView::seq_to_canonical(v.deep_view()),
    {
        let mut out: Vec<models::Dependency> = Vec::new();
        let mut i: usize = 0;
        while i < v.len()
            invariant
                i <= v.len(),
                out.len() == i,
                forall|j: int|
                    0 <= j < i ==> (#[trigger] out[j]).deep_view()
                        == v[j].deep_view().to_canonical(),
            decreases v.len() - i,
        {
            out.push(v[i].to_canonical());
            i += 1;
        }
        proof {
            assert(out.deep_view() =~= DependencyView::seq_to_canonical(v.deep_view()));
        }
        out
    }
}

impl BomView {
    /// The shape that schema 1.3 gives to the document `c`: the fixed tag
    /// and version of the schema, and every part of the document.
    pub open spec fn from_canonical(c: models::BomView) -> BomView {
        BomView {
            bom_format: BomFormat::CycloneDX,
            spec_version: "1.3"@,
            version: Some(c.version),
            serial_number: c.serial_number,
            metadata: match c.metadata {
                Some(x) => Some(MetadataView::from_canonical(x)),
                None => None,
            },
            components: match c.components {
                Some(x) => Some(ComponentView::seq_from_canonical(x)),
                None => None,
            },
            services: match c.services {
                Some(x) => Some(ServiceView::seq_from_canonical(x)),
                None => None,
            },
            external_references: match c.external_references {
                Some(x) => Some(ExternalReferenceView::seq_from_canonical(x)),
                None => None,
            },
            dependencies: match c.dependencies {
                Some(x) => Some(DependencyView::seq_from_canonical(x)),
                None => None,
            },
            compositions: match c.compositions {
                Some(x) => Some(CompositionView::seq_from_canonical(x)),
                None => None,
            },
            properties: match c.properties {
                Some(x) => Some(PropertyView::seq_from_canonical(x)),
                None => None,
            },
        }
    }

    /// Every word in it, at any depth, belongs to the vocabulary of its
    /// place.
    pub open spec fn well_formed(self) -> bool {
        &&& (self.metadata matches Some(x) ==> x.well_formed())
        &&& (self.components matches Some(x) ==> ComponentView::all_well_formed(x))
        &&& (self.services matches Some(x) ==> ServiceView::all_well_formed(x))
        &&& (self.external_references matches Some(x) ==> ExternalReferenceView::all_well_formed(
            x,
        ))
        &&& (self.compositions matches Some(x) ==> CompositionView::all_well_formed(x))
    }

    /// The document that this shape stands for, where it is well formed. A
    /// shape without a version stands for version 1.
    pub open spec fn to_canonical(self) -> models::BomView {
        models::BomView {
            version: match self.version {
                Some(version) => version,
                None => 1,
            },
            serial_number: self.serial_number,
            metadata: match self.metadata {
                Some(x) => Some(x.to_canonical()),
                None => None,
            },
            components: match self.components {
                Some(x) => Some(ComponentView::seq_to_canonical(x)),
                None => None,
            },
            services: match self.services {
                Some(x) => Some(ServiceView::seq_to_canonical(x)),
                None => None,
            },
            external_references: match self.external_references {
                Some(x) => Some(ExternalReferenceView::seq_to_canonical(x)),
                None => None,
            },
            dependencies: match self.dependencies {
                Some(x) => Some(DependencyView::seq_to_canonical(x)),
                None => None,
            },
            compositions: match self.compositions {
                Some(x) => Some(CompositionView::seq_to_canonical(x)),
                None => None,
            },
            properties: match self.properties {
                Some(x) => Some(PropertyView::seq_to_canonical(x)),
                None => None,
            },
        }
    }

    /// Schema 1.3 can carry `c` without loss: every list of licenses that
    /// stands under one choice holds exactly one license, and the
    /// dependency graph is no deeper than a node and what it depends on.
    pub open spec fn fits(c: models::BomView) -> bool {
        &&& (c.metadata matches Some(x) ==> MetadataView::fits(x))
        &&& (c.components matches Some(x) ==> ComponentView::all_fit(x))
        &&& (c.services matches Some(x) ==> ServiceView::all_fit(x))
        &&& (c.dependencies matches Some(x) ==> DependencyView::all_fit(x))
    }
}

impl Bom {
    /// Shapes a document as schema 1.3 writes it.
    pub fn from_canonical(c: &models::Bom) -> (r: Bom)
        ensures
            r.deep_view() == BomView::from_canonical(c.deep_view()),
    {
        let serial_number = match &c.serial_number {
            Some(x) => Some(x.to_string()),
            None => None,
        };
        let metadata = match &c.metadata {
            Some(x) => Some(Metadata::from_canonical(x)),
            None => None,
        };
        let components = match &c.components {
            Some(x) => Some(Component::vec_from_canonical(x)),
            None => None,
        };
        let services = match &c.services {
            Some(x) => Some(Service::vec_from_canonical(x)),
            None => None,
        };
        let external_references = match &c.external_references {
            Some(x) => Some(ExternalReference::vec_from_canonical(x)),
            None => None,
        };
        let dependencies = match &c.dependencies {
            Some(x) => Some(Dependency::vec_from_canonical(x)),
            None => None,
        };
        let compositions = match &c.compositions {
            Some(x) => Some(Composition::vec_from_canonical(x)),
            None => None,
        };
        let properties = match &c.properties {
            Some(x) => Some(Properties::from_canonical(x)),
            None => None,
        };
        Bom {
            bom_format: BomFormat::CycloneDX,
            spec_version: "1.3".to_string(),
            version: Some(c.version),
            serial_number,
            metadata,
            components,
            services,
            external_references,
            dependencies,
            compositions,
            properties,
        }
    }

    /// Reads the shape back as a document; `None` exactly where a word in it
    /// is outside the vocabulary of its place.
    pub fn to_canonical(&self) -> (r: Option<models::Bom>)
        ensures
            r is Some <==> self.deep_view().well_formed(),
            r matches Some(c) ==> c.deep_view() == self.deep_view().to_canonical(),
    {
        let version = match self.version {
            Some(version) => version,
            None => 1,
        };
        let serial_number = match &self.serial_number {
            Some(x) => Some(models::UrnUuid::new_unchecked(x.clone())),
            None => None,
        };
        let metadata = match &self.metadata {
            Some(x) => {
                match x.to_canonical() {
                    Some(y) => Some(y),
                    None => {
                        return None;
                    },
                }
            },
            None => None,
        };
        let components = match &self.components {
            Some(x) => {
                match Component::vec_to_canonical(x) {
                    Some(list) => Some(list),
                    None => {
                        return None;
                    },
                }
            },
            None => None,
        };
        let services = match &self.services {
            Some(x) => {
                match Service::vec_to_canonical(x) {
                    Some(list) => Some(list),
                    None => {
                        return None;
                    },
                }
            },
            None => None,
        };
        let external_references = match &self.external_references {
            Some(x) => {
                match ExternalReference::vec_to_canonical(x) {
                    Some(list) => Some(list),
                    None => {
                        return None;
                    },
                }
            },
            None => None,
        };
        let dependencies = match &self.dependencies {
            Some(x) => Some(Dependency::vec_to_canonical(x)),
            None => None,
        };
        let compositions = match &self.compositions {
            Some(x) => {
                match Composition::vec_to_canonical(x) {
                    Some(list) => Some(list),
                    None => {
                        return None;
                    },
                }
            },
            None => None,
        };
        let properties = match &self.properties {
            Some(x) => Some(x.to_canonical()),
            None => None,
        };
        Some(
            models::Bom {
                version,
                serial_number,
                metadata,
                components,
                services,
                external_references,
                dependencies,
                compositions,
                properties,
            },
        )
    }
}

} // verus!
