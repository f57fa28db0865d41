//! Schema version 1.3: the shape of its documents. Every type here mirrors
//! one object of the schema, field for field, with plain text where the
//! document model has validated values.

pub mod adapter;
pub mod json;
pub mod tokens;
pub mod xml;

use vstd::prelude::*;

verus! {

/// Text attached to a document, such as the text of a license.
#[derive(Debug, PartialEq)]
pub struct AttachedText {
    pub content_type: Option<String>,
    pub encoding: Option<String>,
    pub content: String,
}

/// What an [`AttachedText`] holds, as mathematical values.
pub struct AttachedTextView {
    pub content_type: Option<Seq<char>>,
    pub encoding: Option<Seq<char>>,
    pub content: Seq<char>,
}

impl DeepView for AttachedText {
    type V = AttachedTextView;

    open spec fn deep_view(&self) -> AttachedTextView {
        AttachedTextView {
            content_type: self.content_type.deep_view(),
            encoding: self.encoding.deep_view(),
            content: self.content.deep_view(),
        }
    }
}

/// A hash of a component or of an external resource.
#[derive(Debug, PartialEq)]
pub struct Hash {
    pub alg: String,
    pub content: HashValue,
}

/// What a [`Hash`] holds, as mathematical values.
pub struct HashView {
    pub alg: Seq<char>,
    pub content: Seq<char>,
}

impl DeepView for Hash {
    type V = HashView;

    open spec fn deep_view(&self) -> HashView {
        HashView {
            alg: self.alg.deep_view(),
            content: self.content.deep_view(),
        }
    }
}

/// A person to contact at an organization.
#[derive(Debug, PartialEq)]
pub struct OrganizationalContact {
    pub name: Option<String>,
    pub email: Option<String>,
    pub phone: Option<String>,
}

/// What an [`OrganizationalContact`] holds, as mathematical values.
pub struct OrganizationalContactView {
    pub name: Option<Seq<char>>,
    pub email: Option<Seq<char>>,
    pub phone: Option<Seq<char>>,
}

impl DeepView for OrganizationalContact {
    type V = OrganizationalContactView;

    open spec fn deep_view(&self) -> OrganizationalContactView {
        OrganizationalContactView {
            name: self.name.deep_view(),
            email: self.email.deep_view(),
            phone: self.phone.deep_view(),
        }
    }
}

/// An organization, with its addresses and contacts.
#[derive(Debug, PartialEq)]
pub struct OrganizationalEntity {
    pub name: Option<String>,
    pub url: Option<Vec<String>>,
    pub contact: Option<Vec<OrganizationalContact>>,
}

/// What an [`OrganizationalEntity`] holds, as mathematical values.
pub struct OrganizationalEntityView {
    pub name: Option<Seq<char>>,
    pub url: Option<Seq<Seq<char>>>,
    pub contact: Option<Seq<OrganizationalContactView>>,
}

impl DeepView for OrganizationalEntity {
    type V = OrganizationalEntityView;

    open spec fn deep_view(&self) -> OrganizationalEntityView {
        OrganizationalEntityView {
            name: self.name.deep_view(),
            url: self.url.deep_view(),
            contact: self.contact.deep_view(),
        }
    }
}

/// Who did something to a commit, and when.
#[derive(Debug, PartialEq)]
pub struct IdentifiableAction {
    pub timestamp: Option<String>,
    pub name: Option<String>,
    pub email: Option<String>,
}

/// What an [`IdentifiableAction`] holds, as mathematical values.
pub struct IdentifiableActionView {
    pub timestamp: Option<Seq<char>>,
    pub name: Option<Seq<char>>,
    pub email: Option<Seq<char>>,
}

impl DeepView for IdentifiableAction {
    type V = IdentifiableActionView;

    open spec fn deep_view(&self) -> IdentifiableActionView {
        IdentifiableActionView {
            timestamp: self.timestamp.deep_view(),
            name: self.name.deep_view(),
            email: self.email.deep_view(),
        }
    }
}

/// A commit in the history of a component.
#[derive(Debug, PartialEq)]
pub struct Commit {
    pub uid: Option<String>,
    pub url: Option<String>,
    pub author: Option<IdentifiableAction>,
    pub committer: Option<IdentifiableAction>,
    pub message: Option<String>,
}

/// What a [`Commit`] holds, as mathematical values.
pub struct CommitView {
    pub uid: Option<Seq<char>>,
    pub url: Option<Seq<char>>,
    pub author: Option<IdentifiableActionView>,
    pub committer: Option<IdentifiableActionView>,
    pub message: Option<Seq<char>>,
}

impl DeepView for Commit {
    type V = CommitView;

    open spec fn deep_view(&self) -> CommitView {
        CommitView {
            uid: self.uid.deep_view(),
            url: self.url.deep_view(),
            author: self.author.deep_view(),
            committer: self.committer.deep_view(),
            message: self.message.deep_view(),
        }
    }
}

/// A statement on how complete a part of the inventory is.
#[derive(Debug, PartialEq)]
pub struct Composition {
    pub aggregate: String,
    pub assemblies: Option<Vec<BomReference>>,
    pub dependencies: Option<Vec<BomReference>>,
}

/// What a [`Composition`] holds, as mathematical values.
pub struct CompositionView {
    pub aggregate: Seq<char>,
    pub assemblies: Option<Seq<Seq<char>>>,
    pub dependencies: Option<Seq<Seq<char>>>,
}

impl DeepView for Composition {
    type V = CompositionView;

    open spec fn deep_view(&self) -> CompositionView {
        CompositionView {
            aggregate: self.aggregate.deep_view(),
            assemblies: self.assemblies.deep_view(),
            dependencies: self.dependencies.deep_view(),
        }
    }
}

/// A class of data and the direction in which a service moves it.
#[derive(Debug, PartialEq)]
pub struct DataClassification {
    pub flow: String,
    pub classification: String,
}

/// What a [`DataClassification`] holds, as mathematical values.
pub struct DataClassificationView {
    pub flow: Seq<char>,
    pub classification: Seq<char>,
}

impl DeepView for DataClassification {
    type V = DataClassificationView;

    open spec fn deep_view(&self) -> DataClassificationView {
        DataClassificationView {
            flow: self.flow.deep_view(),
            classification: self.classification.deep_view(),
        }
    }
}

/// The changes a patch makes, as text or by reference.
#[derive(Debug, PartialEq)]
pub struct Diff {
    pub text: Option<AttachedText>,
    pub url: Option<String>,
}

/// What a [`Diff`] holds, as mathematical values.
pub struct DiffView {
    pub text: Option<AttachedTextView>,
    pub url: Option<Seq<char>>,
}

impl DeepView for Diff {
    type V = DiffView;

    open spec fn deep_view(&self) -> DiffView {
        DiffView {
            text: self.text.deep_view(),
            url: self.url.deep_view(),
        }
    }
}

/// A pointer to a resource outside the document.
#[derive(Debug, PartialEq)]
pub struct ExternalReference {
    pub external_reference_type: String,
    pub url: String,
    pub comment: Option<String>,
    pub hashes: Option<Vec<Hash>>,
}

/// What an [`ExternalReference`] holds, as mathematical values.
pub struct ExternalReferenceView {
    pub external_reference_type: Seq<char>,
    pub url: Seq<char>,
    pub comment: Option<Seq<char>>,
    pub hashes: Option<Seq<HashView>>,
}

impl DeepView for ExternalReference {
    type V = ExternalReferenceView;

    open spec fn deep_view(&self) -> ExternalReferenceView {
        ExternalReferenceView {
            external_reference_type: self.external_reference_type.deep_view(),
            url: self.url.deep_view(),
            comment: self.comment.deep_view(),
            hashes: self.hashes.deep_view(),
        }
    }
}

/// Where an issue was reported.
#[derive(Debug, PartialEq)]
pub struct Source {
    pub name: Option<String>,
    pub url: Option<String>,
}

/// What a [`Source`] holds, as mathematical values.
pub struct SourceView {
    pub name: Option<Seq<char>>,
    pub url: Option<Seq<char>>,
}

impl DeepView for Source {
    type V = SourceView;

    open spec fn deep_view(&self) -> SourceView {
        SourceView {
            name: self.name.deep_view(),
            url: self.url.deep_view(),
        }
    }
}

/// An issue that a patch resolves.
#[derive(Debug, PartialEq)]
pub struct Issue {
    pub issue_type: String,
    pub id: Option<String>,
    pub name: Option<String>,
    pub description: Option<String>,
    pub source: Option<Source>,
    pub references: Option<Vec<String>>,
}

/// What an [`Issue`] holds, as mathematical values.
pub struct IssueView {
    pub issue_type: Seq<char>,
    pub id: Option<Seq<char>>,
    pub name: Option<Seq<char>>,
    pub description: Option<Seq<char>>,
    pub source: Option<SourceView>,
    pub references: Option<Seq<Seq<char>>>,
}

impl DeepView for Issue {
    type V = IssueView;

    open spec fn deep_view(&self) -> IssueView {
        IssueView {
            issue_type: self.issue_type.deep_view(),
            id: self.id.deep_view(),
            name: self.name.deep_view(),
            description: self.description.deep_view(),
            source: self.source.deep_view(),
            references: self.references.deep_view(),
        }
    }
}

/// One license, named by an SPDX identifier or in free text.
#[derive(Debug, PartialEq)]
pub struct License {
    pub license_identifier: LicenseIdentifier,
    pub text: Option<AttachedText>,
    pub url: Option<String>,
}

/// What a [`License`] holds, as mathematical values.
pub struct LicenseView {
    pub license_identifier: LicenseIdentifierView,
    pub text: Option<AttachedTextView>,
    pub url: Option<Seq<char>>,
}

impl DeepView for License {
    type V = LicenseView;

    open spec fn deep_view(&self) -> LicenseView {
        LicenseView {
            license_identifier: self.license_identifier.deep_view(),
            text: self.text.deep_view(),
            url: self.url.deep_view(),
        }
    }
}

/// A patch applied to a component.
#[derive(Debug, PartialEq)]
pub struct Patch {
    pub patch_type: String,
    pub diff: Diff,
    pub resolves: Option<Vec<Issue>>,
}

/// What a [`Patch`] holds, as mathematical values.
pub struct PatchView {
    pub patch_type: Seq<char>,
    pub diff: DiffView,
    pub resolves: Option<Seq<IssueView>>,
}

impl DeepView for Patch {
    type V = PatchView;

    open spec fn deep_view(&self) -> PatchView {
        PatchView {
            patch_type: self.patch_type.deep_view(),
            diff: self.diff.deep_view(),
            resolves: self.resolves.deep_view(),
        }
    }
}

/// A name and a value attached to a part of the document.
#[derive(Debug, PartialEq)]
pub struct Property {
    pub name: String,
    pub value: String,
}

/// What a [`Property`] holds, as mathematical values.
pub struct PropertyView {
    pub name: Seq<char>,
    pub value: Seq<char>,
}

impl DeepView for Property {
    type V = PropertyView;

    open spec fn deep_view(&self) -> PropertyView {
        PropertyView {
            name: self.name.deep_view(),
            value: self.value.deep_view(),
        }
    }
}

/// An ISO/IEC 19770-2 software identification tag.
#[derive(Debug, PartialEq)]
pub struct Swid {
    pub tag_id: String,
    pub name: String,
    pub version: Option<String>,
    pub tag_version: Option<u32>,
    pub patch: Option<bool>,
    pub text: Option<AttachedText>,
    pub url: Option<String>,
}

/// What a [`Swid`] holds, as mathematical values.
pub struct SwidView {
    pub tag_id: Seq<char>,
    pub name: Seq<char>,
    pub version: Option<Seq<char>>,
    pub tag_version: Option<u32>,
    pub patch: Option<bool>,
    pub text: Option<AttachedTextView>,
    pub url: Option<Seq<char>>,
}

impl DeepView for Swid {
    type V = SwidView;

    open spec fn deep_view(&self) -> SwidView {
        SwidView {
            tag_id: self.tag_id.deep_view(),
            name: self.name.deep_view(),
            version: self.version.deep_view(),
            tag_version: self.tag_version.deep_view(),
            patch: self.patch.deep_view(),
            text: self.text.deep_view(),
            url: self.url.deep_view(),
        }
    }
}

/// A tool that took part in writing the document.
#[derive(Debug, PartialEq)]
pub struct Tool {
    pub vendor: Option<String>,
    pub name: Option<String>,
    pub version: Option<String>,
    pub hashes: Option<Vec<Hash>>,
}

/// What a [`Tool`] holds, as mathematical values.
pub struct ToolView {
    pub vendor: Option<Seq<char>>,
    pub name: Option<Seq<char>>,
    pub version: Option<Seq<char>>,
    pub hashes: Option<Seq<HashView>>,
}

impl DeepView for Tool {
    type V = ToolView;

    open spec fn deep_view(&self) -> ToolView {
        ToolView {
            vendor: self.vendor.deep_view(),
            name: self.name.deep_view(),
            version: self.version.deep_view(),
            hashes: self.hashes.deep_view(),
        }
    }
}

/// Licenses and copyrights found by analysis rather than declared.
#[derive(Debug, PartialEq)]
pub struct ComponentEvidence {
    pub licenses: Option<Vec<LicenseChoice>>,
    pub copyright: Option<Vec<Copyright>>,
}

/// What a [`ComponentEvidence`] holds, as mathematical values.
pub struct ComponentEvidenceView {
    pub licenses: Option<Seq<LicenseChoiceView>>,
    pub copyright: Option<Seq<Seq<Seq<char>>>>,
}

impl DeepView for ComponentEvidence {
    type V = ComponentEvidenceView;

    open spec fn deep_view(&self) -> ComponentEvidenceView {
        ComponentEvidenceView {
            licenses: self.licenses.deep_view(),
            copyright: self.copyright.deep_view(),
        }
    }
}

/// Where a component comes from: its relatives and its history.
#[derive(Debug, PartialEq)]
pub struct Pedigree {
    pub ancestors: Option<Vec<Component>>,
    pub descendants: Option<Vec<Component>>,
    pub variants: Option<Vec<Component>>,
    pub commits: Option<Vec<Commit>>,
    pub patches: Option<Vec<Patch>>,
    pub notes: Option<String>,
}

/// What a [`Pedigree`] holds, as mathematical values.
pub struct PedigreeView {
    pub ancestors: Option<Seq<ComponentView>>,
    pub descendants: Option<Seq<ComponentView>>,
    pub variants: Option<Seq<ComponentView>>,
    pub commits: Option<Seq<CommitView>>,
    pub patches: Option<Seq<PatchView>>,
    pub notes: Option<Seq<char>>,
}

impl Pedigree {
    /// The mathematical value of this pedigree.
    pub open spec fn model(self) -> PedigreeView
        decreases self,
    {
        PedigreeView {
            ancestors: match self.ancestors {
                Some(v) => Some(Component::models(v@)),
                None => None,
            },
            descendants: match self.descendants {
                Some(v) => Some(Component::models(v@)),
                None => None,
            },
            variants: match self.variants {
                Some(v) => Some(Component::models(v@)),
                None => None,
            },
            commits: self.commits.deep_view(),
            patches: self.patches.deep_view(),
            notes: self.notes.deep_view(),
        }
    }

    /// The mathematical values of a sequence of them, one for one.
    pub open spec fn models(s: Seq<Pedigree>) -> Seq<PedigreeView>
        decreases s,
    {
        Seq::new(
            s.len(),
            |i: int|
                if 0 <= i < s.len() {
                    s[i].model()
                } else {
                    arbitrary()
                },
        )
    }

    /// `models` agrees with the view that a vector of them has.
    pub proof fn lemma_models(v: Vec<Pedigree>)
        ensures
            Pedigree::models(v@) == v.deep_view(),
    {
        assert(Pedigree::models(v@) =~= v.deep_view());
    }

    /// The same for a vector that may be absent.
    pub proof fn lemma_opt_models(o: Option<Vec<Pedigree>>)
        ensures
            o.deep_view() == (match o {
                Some(v) => Some(Pedigree::models(v@)),
                None => None,
            }),
    {
        if o is Some {
            Pedigree::lemma_models(o->0);
        }
    }
}

impl DeepView for Pedigree {
    type V = PedigreeView;

    open spec fn deep_view(&self) -> PedigreeView {
        self.model()
    }
}

/// One piece of software or hardware.
#[derive(Debug, PartialEq)]
pub struct Component {
    pub component_type: String,
    pub mime_type: Option<MimeType>,
    pub bom_ref: Option<String>,
    pub supplier: Option<OrganizationalEntity>,
    pub author: Option<String>,
    pub publisher: Option<String>,
    pub group: Option<String>,
    pub name: String,
    pub version: String,
    pub description: Option<String>,
    pub scope: Option<String>,
    pub hashes: Option<Vec<Hash>>,
    pub licenses: Option<Vec<LicenseChoice>>,
    pub copyright: Option<String>,
    pub cpe: Option<Cpe>,
    pub purl: Option<String>,
    pub swid: Option<Swid>,
    pub modified: Option<bool>,
    pub pedigree: Option<Pedigree>,
    pub external_references: Option<Vec<ExternalReference>>,
    pub properties: Option<Properties>,
    pub components: Option<Vec<Component>>,
    pub evidence: Option<ComponentEvidence>,
}

/// What a [`Component`] holds, as mathematical values.
pub struct ComponentView {
    pub component_type: Seq<char>,
    pub mime_type: Option<Seq<char>>,
    pub bom_ref: Option<Seq<char>>,
    pub supplier: Option<OrganizationalEntityView>,
    pub author: Option<Seq<char>>,
    pub publisher: Option<Seq<char>>,
    pub group: Option<Seq<char>>,
    pub name: Seq<char>,
    pub version: Seq<char>,
    pub description: Option<Seq<char>>,
    pub scope: Option<Seq<char>>,
    pub hashes: Option<Seq<HashView>>,
    pub licenses: Option<Seq<LicenseChoiceView>>,
    pub copyright: Option<Seq<char>>,
    pub cpe: Option<Seq<char>>,
    pub purl: Option<Seq<char>>,
    pub swid: Option<SwidView>,
    pub modified: Option<bool>,
    pub pedigree: Option<PedigreeView>,
    pub external_references: Option<Seq<ExternalReferenceView>>,
    pub properties: Option<Seq<PropertyView>>,
    pub components: Option<Seq<ComponentView>>,
    pub evidence: Option<ComponentEvidenceView>,
}

impl Component {
    /// The mathematical value of this component.
    pub open spec fn model(self) -> ComponentView
        decreases self,
    {
        ComponentView {
            component_type: self.component_type.deep_view(),
            mime_type: self.mime_type.deep_view(),
            bom_ref: self.bom_ref.deep_view(),
            supplier: self.supplier.deep_view(),
            author: self.author.deep_view(),
            publisher: self.publisher.deep_view(),
            group: self.group.deep_view(),
            name: self.name.deep_view(),
            version: self.version.deep_view(),
            description: self.description.deep_view(),
            scope: self.scope.deep_view(),
            hashes: self.hashes.deep_view(),
            licenses: self.licenses.deep_view(),
            copyright: self.copyright.deep_view(),
            cpe: self.cpe.deep_view(),
            purl: self.purl.deep_view(),
            swid: self.swid.deep_view(),
            modified: self.modified.deep_view(),
            pedigree: match self.pedigree {
                Some(x) => Some(x.model()),
                None => None,
            },
            external_references: self.external_references.deep_view(),
            properties: self.properties.deep_view(),
            components: match self.components {
                Some(v) => Some(Component::models(v@)),
                None => None,
            },
            evidence: self.evidence.deep_view(),
        }
    }

    /// The mathematical values of a sequence of them, one for one.
    pub open spec fn models(s: Seq<Component>) -> Seq<ComponentView>
        decreases s,
    {
        Seq::new(
            s.len(),
            |i: int|
                if 0 <= i < s.len() {
                    s[i].model()
                } else {
                    arbitrary()
                },
        )
    }

    /// `models` agrees with the view that a vector of them has.
    pub proof fn lemma_models(v: Vec<Component>)
        ensures
            Component::models(v@) == v.deep_view(),
    {
        assert(Component::models(v@) =~= v.deep_view());
    }

    /// The same for a vector that may be absent.
    pub proof fn lemma_opt_models(o: Option<Vec<Component>>)
        ensures
            o.deep_view() == (match o {
                Some(v) => Some(Component::models(v@)),
                None => None,
            }),
    {
        if o is Some {
            Component::lemma_models(o->0);
        }
    }
}

impl DeepView for Component {
    type V = ComponentView;

    open spec fn deep_view(&self) -> ComponentView {
        self.model()
    }
}

/// A service reachable over a network.
#[derive(Debug, PartialEq)]
pub struct Service {
    pub bom_ref: Option<String>,
    pub provider: Option<OrganizationalEntity>,
    pub group: Option<String>,
    pub name: String,
    pub version: Option<String>,
    pub description: Option<String>,
    pub endpoints: Option<Vec<String>>,
    pub authenticated: Option<bool>,
    pub x_trust_boundary: Option<bool>,
    pub data: Option<Vec<DataClassification>>,
    pub licenses: Option<Vec<LicenseChoice>>,
    pub external_references: Option<Vec<ExternalReference>>,
    pub properties: Option<Properties>,
    pub services: Option<Vec<Service>>,
}

/// What a [`Service`] holds, as mathematical values.
pub struct ServiceView {
    pub bom_ref: Option<Seq<char>>,
    pub provider: Option<OrganizationalEntityView>,
    pub group: Option<Seq<char>>,
    pub name: Seq<char>,
    pub version: Option<Seq<char>>,
    pub description: Option<Seq<char>>,
    pub endpoints: Option<Seq<Seq<char>>>,
    pub authenticated: Option<bool>,
    pub x_trust_boundary: Option<bool>,
    pub data: Option<Seq<DataClassificationView>>,
    pub licenses: Option<Seq<LicenseChoiceView>>,
    pub external_references: Option<Seq<ExternalReferenceView>>,
    pub properties: Option<Seq<PropertyView>>,
    pub services: Option<Seq<ServiceView>>,
}

impl Service {
    /// The mathematical value of this service.
    pub open spec fn model(self) -> ServiceView
        decreases self,
    {
        ServiceView {
            bom_ref: self.bom_ref.deep_view(),
            provider: self.provider.deep_view(),
            group: self.group.deep_view(),
            name: self.name.deep_view(),
            version: self.version.deep_view(),
            description: self.description.deep_view(),
            endpoints: self.endpoints.deep_view(),
            authenticated: self.authenticated.deep_view(),
            x_trust_boundary: self.x_trust_boundary.deep_view(),
            data: self.data.deep_view(),
            licenses: self.licenses.deep_view(),
            external_references: self.external_references.deep_view(),
            properties: self.properties.deep_view(),
            services: match self.services {
                Some(v) => Some(Service::models(v@)),
                None => None,
            },
        }
    }

    /// The mathematical values of a sequence of them, one for one.
    pub open spec fn models(s: Seq<Service>) -> Seq<ServiceView>
        decreases s,
    {
        Seq::new(
            s.len(),
            |i: int|
                if 0 <= i < s.len() {
                    s[i].model()
                } else {
                    arbitrary()
                },
        )
    }

    /// `models` agrees with the view that a vector of them has.
    pub proof fn lemma_models(v: Vec<Service>)
        ensures
            Service::models(v@) == v.deep_view(),
    {
        assert(Service::models(v@) =~= v.deep_view());
    }

    /// The same for a vector that may be absent.
    pub proof fn lemma_opt_models(o: Option<Vec<Service>>)
        ensures
            o.deep_view() == (match o {
                Some(v) => Some(Service::models(v@)),
                None => None,
            }),
    {
        if o is Some {
            Service::lemma_models(o->0);
        }
    }
}

impl DeepView for Service {
    type V = ServiceView;

    open spec fn deep_view(&self) -> ServiceView {
        self.model()
    }
}

/// Facts about the document itself and the thing it describes.
#[derive(Debug, PartialEq)]
pub struct Metadata {
    pub timestamp: Option<String>,
    pub tools: Option<Vec<Tool>>,
    pub authors: Option<Vec<OrganizationalContact>>,
    pub component: Option<Component>,
    pub manufacture: Option<OrganizationalEntity>,
    pub supplier: Option<OrganizationalEntity>,
    pub licenses: Option<Vec<LicenseChoice>>,
    pub properties: Option<Properties>,
}

/// What a [`Metadata`] holds, as mathematical values.
pub struct MetadataView {
    pub timestamp: Option<Seq<char>>,
    pub tools: Option<Seq<ToolView>>,
    pub authors: Option<Seq<OrganizationalContactView>>,
    pub component: Option<ComponentView>,
    pub manufacture: Option<OrganizationalEntityView>,
    pub supplier: Option<OrganizationalEntityView>,
    pub licenses: Option<Seq<LicenseChoiceView>>,
    pub properties: Option<Seq<PropertyView>>,
}

impl DeepView for Metadata {
    type V = MetadataView;

    open spec fn deep_view(&self) -> MetadataView {
        MetadataView {
            timestamp: self.timestamp.deep_view(),
            tools: self.tools.deep_view(),
            authors: self.authors.deep_view(),
            component: self.component.deep_view(),
            manufacture: self.manufacture.deep_view(),
            supplier: self.supplier.deep_view(),
            licenses: self.licenses.deep_view(),
            properties: self.properties.deep_view(),
        }
    }
}

/// The tag that marks a document as a CycloneDX document.
#[derive(Debug, PartialEq, Eq, Clone, Copy)]
pub enum BomFormat {
    CycloneDX,
}

/// A reference to an element of the document by its `bom-ref`.
#[derive(Debug, PartialEq)]
pub struct BomReference(pub String);

impl DeepView for BomReference {
    type V = Seq<char>;

    open spec fn deep_view(&self) -> Seq<char> {
        self.0@
    }
}

/// Copyright statements found as evidence.
#[derive(Debug, PartialEq)]
pub struct Copyright(pub Vec<String>);

impl DeepView for Copyright {
    type V = Seq<Seq<char>>;

    open spec fn deep_view(&self) -> Seq<Seq<char>> {
        self.0.deep_view()
    }
}

/// A list of properties.
#[derive(Debug, PartialEq)]
pub struct Properties(pub Vec<Property>);

impl DeepView for Properties {
    type V = Seq<PropertyView>;

    open spec fn deep_view(&self) -> Seq<PropertyView> {
        self.0.deep_view()
    }
}

/// A Common Platform Enumeration name.
#[derive(Debug, PartialEq)]
pub struct Cpe(pub String);

impl DeepView for Cpe {
    type V = Seq<char>;

    open spec fn deep_view(&self) -> Seq<char> {
        self.0@
    }
}

/// The value of a hash.
#[derive(Debug, PartialEq)]
pub struct HashValue(pub String);

impl DeepView for HashValue {
    type V = Seq<char>;

    open spec fn deep_view(&self) -> Seq<char> {
        self.0@
    }
}

/// A media type.
#[derive(Debug, PartialEq)]
pub struct MimeType(pub String);

impl DeepView for MimeType {
    type V = Seq<char>;

    open spec fn deep_view(&self) -> Seq<char> {
        self.0@
    }
}

/// A serial number.
#[derive(Debug, PartialEq)]
pub struct UrnUuid(pub String);

impl DeepView for UrnUuid {
    type V = Seq<char>;

    open spec fn deep_view(&self) -> Seq<char> {
        self.0@
    }
}

/// How a license is named: by its SPDX identifier (`id`) or in free text
/// (`name`).
#[derive(Debug, PartialEq)]
pub enum LicenseIdentifier {
    SpdxId(String),
    Name(String),
}

/// What a [`LicenseIdentifier`] holds, as mathematical values.
pub enum LicenseIdentifierView {
    SpdxId(Seq<char>),
    Name(Seq<char>),
}

impl DeepView for LicenseIdentifier {
    type V = LicenseIdentifierView;

    open spec fn deep_view(&self) -> LicenseIdentifierView {
        match self {
            LicenseIdentifier::SpdxId(id) => LicenseIdentifierView::SpdxId(id@),
            LicenseIdentifier::Name(name) => LicenseIdentifierView::Name(name@),
        }
    }
}

/// One entry of a list of licenses: a license described on its own, or a
/// license expression.
#[derive(Debug, PartialEq)]
pub enum LicenseChoice {
    License(Option<License>),
    Expression(Option<String>),
}

/// What a [`LicenseChoice`] holds, as mathematical values.
pub enum LicenseChoiceView {
    License(Option<LicenseView>),
    Expression(Option<Seq<char>>),
}

impl DeepView for LicenseChoice {
    type V = LicenseChoiceView;

    open spec fn deep_view(&self) -> LicenseChoiceView {
        match self {
            LicenseChoice::License(license) => LicenseChoiceView::License(license.deep_view()),
            LicenseChoice::Expression(expression) => LicenseChoiceView::Expression(
                expression.deep_view(),
            ),
        }
    }
}

/// An element and the references of the elements it depends on.
#[derive(Debug, PartialEq)]
pub struct Dependency {
    pub dependency_ref: String,
    pub depends_on: Vec<String>,
}

/// What a [`Dependency`] holds, as mathematical values.
pub struct DependencyView {
    pub dependency_ref: Seq<char>,
    pub depends_on: Seq<Seq<char>>,
}

impl DeepView for Dependency {
    type V = DependencyView;

    open spec fn deep_view(&self) -> DependencyView {
        DependencyView {
            dependency_ref: self.dependency_ref@,
            depends_on: self.depends_on.deep_view(),
        }
    }
}

/// The root of a document.
#[derive(Debug, PartialEq)]
pub struct Bom {
    pub bom_format: BomFormat,
    pub spec_version: String,
    pub version: Option<u32>,
    pub serial_number: Option<String>,
    pub metadata: Option<Metadata>,
    pub components: Option<Vec<Component>>,
    pub services: Option<Vec<Service>>,
    pub external_references: Option<Vec<ExternalReference>>,
    pub dependencies: Option<Vec<Dependency>>,
    pub compositions: Option<Vec<Composition>>,
    pub properties: Option<Properties>,
}

/// What a [`Bom`] holds, as mathematical values.
pub struct BomView {
    pub bom_format: BomFormat,
    pub spec_version: Seq<char>,
    pub version: Option<u32>,
    pub serial_number: Option<Seq<char>>,
    pub metadata: Option<MetadataView>,
    pub components: Option<Seq<ComponentView>>,
    pub services: Option<Seq<ServiceView>>,
    pub external_references: Option<Seq<ExternalReferenceView>>,
    pub dependencies: Option<Seq<DependencyView>>,
    pub compositions: Option<Seq<CompositionView>>,
    pub properties: Option<Seq<PropertyView>>,
}

impl DeepView for Bom {
    type V = BomView;

    open spec fn deep_view(&self) -> BomView {
        BomView {
            bom_format: self.bom_format,
            spec_version: self.spec_version@,
            version: self.version,
            serial_number: self.serial_number.deep_view(),
            metadata: self.metadata.deep_view(),
            components: self.components.deep_view(),
            services: self.services.deep_view(),
            external_references: self.external_references.deep_view(),
            dependencies: self.dependencies.deep_view(),
            compositions: self.compositions.deep_view(),
            properties: self.properties.deep_view(),
        }
    }
}

} // verus!
