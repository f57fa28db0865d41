//! The version-agnostic document model: a tree of plain data, built from
//! validated primitives, that no schema version shapes.

use crate::errors::ValidationError;
use crate::external_models::grammar::{
    char_in_class, check_cpe, check_date_time, check_hash_value, check_media_type, check_prefix,
    is_cpe, is_date_time, is_hash_value, is_media_type, to_chars, CharClass,
};
use crate::external_models::normalized_string::{
    is_normalized, lemma_normalize_keeps_normalized, NormalizedString,
};
use crate::external_models::spdx::SpdxIdentifier;
use crate::external_models::uri::{Purl, Uri};
use crate::text::{hex_digit, hex_digit_of, is_lower_hex, push_char};
use vstd::prelude::*;

verus! {

/// How the content of an attached text is encoded: `base64`, or any other
/// name, which is kept as it was written.
#[derive(Debug, PartialEq)]
pub enum Encoding {
    Base64,
    UnknownEncoding(String),
}

impl View for Encoding {
    type V = Seq<char>;

    /// An encoding is the name it goes by.
    open spec fn view(&self) -> Seq<char> {
        match self {
            Encoding::Base64 => "base64"@,
            Encoding::UnknownEncoding(name) => name@,
        }
    }
}

impl DeepView for Encoding {
    type V = Seq<char>;

    open spec fn deep_view(&self) -> Seq<char> {
        self@
    }
}

impl From<String> for Encoding {
    /// Recognizes `base64`; any other name is kept unchanged.
    fn from(s: String) -> (r: Encoding)
        ensures
            r@ == s@,
    {
        if crate::text::str_eq(s.as_str(), "base64") {
            Encoding::Base64
        } else {
            Encoding::UnknownEncoding(s)
        }
    }
}

impl vstd::std_specs::convert::FromSpecImpl<String> for Encoding {
    open spec fn obeys_from_spec() -> bool {
        true
    }

    open spec fn from_spec(s: String) -> Encoding {
        if s@ == "base64"@ {
            Encoding::Base64
        } else {
            Encoding::UnknownEncoding(s)
        }
    }
}

impl From<Encoding> for String {
    /// The name of the encoding; a name that was not recognized comes back
    /// as it went in.
    fn from(e: Encoding) -> (r: String)
        ensures
            r@ == e@,
            e matches Encoding::UnknownEncoding(name) ==> r == name,
    {
        match e {
            Encoding::Base64 => "base64".to_string(),
            Encoding::UnknownEncoding(name) => name,
        }
    }
}

impl vstd::std_specs::convert::FromSpecImpl<Encoding> for String {
    open spec fn obeys_from_spec() -> bool {
        false
    }

    open spec fn from_spec(e: Encoding) -> String {
        arbitrary()
    }
}

impl Encoding {
    /// A copy of the encoding's name.
    pub fn to_string(&self) -> (r: String)
        ensures
            r@ == self@,
    {
        match self {
            Encoding::Base64 => "base64".to_string(),
            Encoding::UnknownEncoding(name) => name.clone(),
        }
    }
}

/// How complete the inventory of an assembly or dependency set is.
#[derive(Debug, PartialEq, Eq, Clone, Copy)]
pub enum AggregateType {
    Complete,
    Incomplete,
    IncompleteFirstPartyOnly,
    IncompleteThirdPartyOnly,
    Unknown,
    NotSpecified,
}

impl DeepView for AggregateType {
    type V = AggregateType;

    open spec fn deep_view(&self) -> AggregateType {
        *self
    }
}

/// The kind of thing a component is.
#[derive(Debug, PartialEq, Eq, Clone, Copy)]
pub enum Classification {
    Application,
    Framework,
    Library,
    Container,
    OperatingSystem,
    Device,
    Firmware,
    File,
}

impl DeepView for Classification {
    type V = Classification;

    open spec fn deep_view(&self) -> Classification {
        *self
    }
}

/// The direction in which data moves through a service.
#[derive(Debug, PartialEq, Eq, Clone, Copy)]
pub enum DataFlowType {
    Inbound,
    Outbound,
    BiDirectional,
    Unknown,
}

impl DeepView for DataFlowType {
    type V = DataFlowType;

    open spec fn deep_view(&self) -> DataFlowType {
        *self
    }
}

/// What an external reference points to.
#[derive(Debug, PartialEq, Eq, Clone, Copy)]
pub enum ExternalReferenceType {
    Vcs,
    IssueTracker,
    Website,
    Advisories,
    Bom,
    MailingList,
    Social,
    Chat,
    Documentation,
    Support,
    Distribution,
    License,
    BuildMeta,
    BuildSystem,
    Other,
}

impl DeepView for ExternalReferenceType {
    type V = ExternalReferenceType;

    open spec fn deep_view(&self) -> ExternalReferenceType {
        *self
    }
}

/// The algorithm that produced a hash value.
#[allow(non_camel_case_types)]
#[derive(Debug, PartialEq, Eq, Clone, Copy)]
pub enum HashAlgorithm {
    MD5,
    SHA1,
    SHA256,
    SHA384,
    SHA512,
    SHA3_256,
    SHA3_384,
    SHA3_512,
    BLAKE2b_256,
    BLAKE2b_384,
    BLAKE2b_512,
    BLAKE3,
}

impl DeepView for HashAlgorithm {
    type V = HashAlgorithm;

    open spec fn deep_view(&self) -> HashAlgorithm {
        *self
    }
}

/// The kind of issue a patch resolves.
#[derive(Debug, PartialEq, Eq, Clone, Copy)]
pub enum IssueClassification {
    Defect,
    Enhancement,
    Security,
}

impl DeepView for IssueClassification {
    type V = IssueClassification;

    open spec fn deep_view(&self) -> IssueClassification {
        *self
    }
}

/// How a patch came about.
#[derive(Debug, PartialEq, Eq, Clone, Copy)]
pub enum PatchClassification {
    Unofficial,
    Monkey,
    Backport,
    CherryPick,
}

impl DeepView for PatchClassification {
    type V = PatchClassification;

    open spec fn deep_view(&self) -> PatchClassification {
        *self
    }
}

/// Whether a component is needed at run time.
#[derive(Debug, PartialEq, Eq, Clone, Copy)]
pub enum Scope {
    Required,
    Optional,
    Excluded,
}

impl DeepView for Scope {
    type V = Scope;

    open spec fn deep_view(&self) -> Scope {
        *self
    }
}

/// A Common Platform Enumeration name, in the URI form of version 2.2 or the
/// formatted-string form of version 2.3.
#[derive(Debug, PartialEq)]
pub struct Cpe(String);

impl View for Cpe {
    type V = Seq<char>;

    closed spec fn view(&self) -> Seq<char> {
        self.0@
    }
}

impl DeepView for Cpe {
    type V = Seq<char>;

    open spec fn deep_view(&self) -> Seq<char> {
        self@
    }
}

impl Cpe {
    /// Validates `value` and keeps it unchanged where it is a CPE name; the error
    /// carries the text that was refused.
    pub fn new(value: String) -> (r: Result<Cpe, ValidationError>)
        ensures
            is_cpe(value@) ==> (r matches Ok(v) && v@ == value@),
            !is_cpe(value@) ==> (r matches Err(ValidationError::InvalidCpe(refused)) && refused@
                == value@),
    {
        if check_cpe(value.as_str()) {
            Ok(Cpe(value))
        } else {
            Err(ValidationError::InvalidCpe(value))
        }
    }

    /// Whether the text held is a CPE name.
    pub fn is_valid(&self) -> (r: bool)
        ensures
            r == is_cpe(self@),
    {
        check_cpe(self.0.as_str())
    }

    /// Wraps `value` as it is, for text read from a document that is taken
    /// to be well formed.
    pub fn new_unchecked(value: String) -> (r: Cpe)
        ensures
            r@ == value@,
    {
        Cpe(value)
    }

    /// A copy of the text.
    pub fn to_string(&self) -> (r: String)
        ensures
            r@ == self@,
    {
        self.0.clone()
    }
}

/// The value of a hash, in hexadecimal digits.
#[derive(Debug, PartialEq)]
pub struct HashValue(String);

impl View for HashValue {
    type V = Seq<char>;

    closed spec fn view(&self) -> Seq<char> {
        self.0@
    }
}

impl DeepView for HashValue {
    type V = Seq<char>;

    open spec fn deep_view(&self) -> Seq<char> {
        self@
    }
}

impl HashValue {
    /// Validates `value` and keeps it unchanged where it is a hash value; the error
    /// carries the text that was refused.
    pub fn new(value: String) -> (r: Result<HashValue, ValidationError>)
        ensures
            is_hash_value(value@) ==> (r matches Ok(v) && v@ == value@),
            !is_hash_value(value@) ==> (r matches Err(ValidationError::InvalidHashValue(refused)) && refused@
                == value@),
    {
        if check_hash_value(value.as_str()) {
            Ok(HashValue(value))
        } else {
            Err(ValidationError::InvalidHashValue(value))
        }
    }

    /// Whether the text held is a hash value.
    pub fn is_valid(&self) -> (r: bool)
        ensures
            r == is_hash_value(self@),
    {
        check_hash_value(self.0.as_str())
    }

    /// Wraps `value` as it is, for text read from a document that is taken
    /// to be well formed.
    pub fn new_unchecked(value: String) -> (r: HashValue)
        ensures
            r@ == value@,
    {
        HashValue(value)
    }

    /// A copy of the text.
    pub fn to_string(&self) -> (r: String)
        ensures
            r@ == self@,
    {
        self.0.clone()
    }
}

/// A media type, such as `text/plain`.
#[derive(Debug, PartialEq)]
pub struct MimeType(String);

impl View for MimeType {
    type V = Seq<char>;

    closed spec fn view(&self) -> Seq<char> {
        self.0@
    }
}

impl DeepView for MimeType {
    type V = Seq<char>;

    open spec fn deep_view(&self) -> Seq<char> {
        self@
    }
}

impl MimeType {
    /// Validates `value` and keeps it unchanged where it is a media type; the error
    /// carries the text that was refused.
    pub fn new(value: String) -> (r: Result<MimeType, ValidationError>)
        ensures
            is_media_type(value@) ==> (r matches Ok(v) && v@ == value@),
            !is_media_type(value@) ==> (r matches Err(ValidationError::InvalidMimeType(refused)) && refused@
                == value@),
    {
        if check_media_type(value.as_str()) {
            Ok(MimeType(value))
        } else {
            Err(ValidationError::InvalidMimeType(value))
        }
    }

    /// Whether the text held is a media type.
    pub fn is_valid(&self) -> (r: bool)
        ensures
            r == is_media_type(self@),
    {
        check_media_type(self.0.as_str())
    }

    /// Wraps `value` as it is, for text read from a document that is taken
    /// to be well formed.
    pub fn new_unchecked(value: String) -> (r: MimeType)
        ensures
            r@ == value@,
    {
        MimeType(value)
    }

    /// A copy of the text.
    pub fn to_string(&self) -> (r: String)
        ensures
            r@ == self@,
    {
        self.0.clone()
    }
}

/// A point in time, written as an RFC 3339 date-time.
#[derive(Debug, PartialEq)]
pub struct DateTime(String);

impl View for DateTime {
    type V = Seq<char>;

    closed spec fn view(&self) -> Seq<char> {
        self.0@
    }
}

impl DeepView for DateTime {
    type V = Seq<char>;

    open spec fn deep_view(&self) -> Seq<char> {
        self@
    }
}

impl DateTime {
    /// Validates `value` and keeps it unchanged where it is an RFC 3339 date-time; the error
    /// carries the text that was refused.
    pub fn new(value: String) -> (r: Result<DateTime, ValidationError>)
        ensures
            is_date_time(value@) ==> (r matches Ok(v) && v@ == value@),
            !is_date_time(value@) ==> (r matches Err(ValidationError::InvalidDateTime(refused)) && refused@
                == value@),
    {
        if check_date_time(value.as_str()) {
            Ok(DateTime(value))
        } else {
            Err(ValidationError::InvalidDateTime(value))
        }
    }

    /// Whether the text held is an RFC 3339 date-time.
    pub fn is_valid(&self) -> (r: bool)
        ensures
            r == is_date_time(self@),
    {
        check_date_time(self.0.as_str())
    }

    /// Wraps `value` as it is, for text read from a document that is taken
    /// to be well formed.
    pub fn new_unchecked(value: String) -> (r: DateTime)
        ensures
            r@ == value@,
    {
        DateTime(value)
    }

    /// A copy of the text.
    pub fn to_string(&self) -> (r: String)
        ensures
            r@ == self@,
    {
        self.0.clone()
    }
}

/// Text attached to a document, such as the text of a license.
#[derive(Debug, PartialEq)]
pub struct AttachedText {
    pub content_type: Option<NormalizedString>,
    pub encoding: Option<Encoding>,
    pub content: String,
}

/// What an [`AttachedText`] holds, as mathematical values.
pub struct AttachedTextView {
    pub content_type: Option<Seq<char>>,
    pub encoding: Option<Seq<char>>,
    pub content: Seq<char>,
}

impl DeepView for AttachedText {
    type V = AttachedTextView;

    open spec fn deep_view(&self) -> AttachedTextView {
        AttachedTextView {
            content_type: self.content_type.deep_view(),
            encoding: self.encoding.deep_view(),
            content: self.content.deep_view(),
        }
    }
}

/// A hash of a component or of an external resource.
#[derive(Debug, PartialEq)]
pub struct Hash {
    pub alg: HashAlgorithm,
    pub value: HashValue,
}

/// What a [`Hash`] holds, as mathematical values.
pub struct HashView {
    pub alg: HashAlgorithm,
    pub value: Seq<char>,
}

impl DeepView for Hash {
    type V = HashView;

    open spec fn deep_view(&self) -> HashView {
        HashView {
            alg: self.alg.deep_view(),
            value: self.value.deep_view(),
        }
    }
}

/// A person to contact at an organization.
#[derive(Debug, PartialEq)]
pub struct OrganizationalContact {
    pub name: Option<NormalizedString>,
    pub email: Option<NormalizedString>,
    pub phone: Option<NormalizedString>,
}

/// What an [`OrganizationalContact`] holds, as mathematical values.
pub struct OrganizationalContactView {
    pub name: Option<Seq<char>>,
    pub email: Option<Seq<char>>,
    pub phone: Option<Seq<char>>,
}

impl DeepView for OrganizationalContact {
    type V = OrganizationalContactView;

    open spec fn deep_view(&self) -> OrganizationalContactView {
        OrganizationalContactView {
            name: self.name.deep_view(),
            email: self.email.deep_view(),
            phone: self.phone.deep_view(),
        }
    }
}

/// An organization, with its addresses and contacts.
#[derive(Debug, PartialEq)]
pub struct OrganizationalEntity {
    pub name: Option<NormalizedString>,
    pub url: Option<Vec<Uri>>,
    pub contact: Option<Vec<OrganizationalContact>>,
}

/// What an [`OrganizationalEntity`] holds, as mathematical values.
pub struct OrganizationalEntityView {
    pub name: Option<Seq<char>>,
    pub url: Option<Seq<Seq<char>>>,
    pub contact: Option<Seq<OrganizationalContactView>>,
}

impl DeepView for OrganizationalEntity {
    type V = OrganizationalEntityView;

    open spec fn deep_view(&self) -> OrganizationalEntityView {
        OrganizationalEntityView {
            name: self.name.deep_view(),
            url: self.url.deep_view(),
            contact: self.contact.deep_view(),
        }
    }
}

/// Who did something to a commit, and when.
#[derive(Debug, PartialEq)]
pub struct IdentifiableAction {
    pub timestamp: Option<DateTime>,
    pub name: Option<NormalizedString>,
    pub email: Option<NormalizedString>,
}

/// What an [`IdentifiableAction`] holds, as mathematical values.
pub struct IdentifiableActionView {
    pub timestamp: Option<Seq<char>>,
    pub name: Option<Seq<char>>,
    pub email: Option<Seq<char>>,
}

impl DeepView for IdentifiableAction {
    type V = IdentifiableActionView;

    open spec fn deep_view(&self) -> IdentifiableActionView {
        IdentifiableActionView {
            timestamp: self.timestamp.deep_view(),
            name: self.name.deep_view(),
            email: self.email.deep_view(),
        }
    }
}

/// A commit in the history of a component.
#[derive(Debug, PartialEq)]
pub struct Commit {
    pub uid: Option<NormalizedString>,
    pub url: Option<Uri>,
    pub author: Option<IdentifiableAction>,
    pub committer: Option<IdentifiableAction>,
    pub message: Option<NormalizedString>,
}

/// What a [`Commit`] holds, as mathematical values.
pub struct CommitView {
    pub uid: Option<Seq<char>>,
    pub url: Option<Seq<char>>,
    pub author: Option<IdentifiableActionView>,
    pub committer: Option<IdentifiableActionView>,
    pub message: Option<Seq<char>>,
}

impl DeepView for Commit {
    type V = CommitView;

    open spec fn deep_view(&self) -> CommitView {
        CommitView {
            uid: self.uid.deep_view(),
            url: self.url.deep_view(),
            author: self.author.deep_view(),
            committer: self.committer.deep_view(),
            message: self.message.deep_view(),
        }
    }
}

/// A statement on how complete a part of the inventory is.
#[derive(Debug, PartialEq)]
pub struct Composition {
    pub aggregate: AggregateType,
    pub assemblies: Option<Vec<BomReference>>,
    pub dependencies: Option<Vec<BomReference>>,
}

/// What a [`Composition`] holds, as mathematical values.
pub struct CompositionView {
    pub aggregate: AggregateType,
    pub assemblies: Option<Seq<Seq<char>>>,
    pub dependencies: Option<Seq<Seq<char>>>,
}

impl DeepView for Composition {
    type V = CompositionView;

    open spec fn deep_view(&self) -> CompositionView {
        CompositionView {
            aggregate: self.aggregate.deep_view(),
            assemblies: self.assemblies.deep_view(),
            dependencies: self.dependencies.deep_view(),
        }
    }
}

/// A class of data and the direction in which a service moves it.
#[derive(Debug, PartialEq)]
pub struct DataClassification {
    pub flow: DataFlowType,
    pub classification: NormalizedString,
}

/// What a [`DataClassification`] holds, as mathematical values.
pub struct DataClassificationView {
    pub flow: DataFlowType,
    pub classification: Seq<char>,
}

impl DeepView for DataClassification {
    type V = DataClassificationView;

    open spec fn deep_view(&self) -> DataClassificationView {
        DataClassificationView {
            flow: self.flow.deep_view(),
            classification: self.classification.deep_view(),
        }
    }
}

/// The changes a patch makes, as text or by reference.
#[derive(Debug, PartialEq)]
pub struct Diff {
    pub text: Option<AttachedText>,
    pub url: Option<Uri>,
}

/// What a [`Diff`] holds, as mathematical values.
pub struct DiffView {
    pub text: Option<AttachedTextView>,
    pub url: Option<Seq<char>>,
}

impl DeepView for Diff {
    type V = DiffView;

    open spec fn deep_view(&self) -> DiffView {
        DiffView {
            text: self.text.deep_view(),
            url: self.url.deep_view(),
        }
    }
}

/// A pointer to a resource outside the document.
#[derive(Debug, PartialEq)]
pub struct ExternalReference {
    pub external_reference_type: ExternalReferenceType,
    pub url: Uri,
    pub comment: Option<String>,
    pub hashes: Option<Vec<Hash>>,
}

/// What an [`ExternalReference`] holds, as mathematical values.
pub struct ExternalReferenceView {
    pub external_reference_type: ExternalReferenceType,
    pub url: Seq<char>,
    pub comment: Option<Seq<char>>,
    pub hashes: Option<Seq<HashView>>,
}

impl DeepView for ExternalReference {
    type V = ExternalReferenceView;

    open spec fn deep_view(&self) -> ExternalReferenceView {
        ExternalReferenceView {
            external_reference_type: self.external_reference_type.deep_view(),
            url: self.url.deep_view(),
            comment: self.comment.deep_view(),
            hashes: self.hashes.deep_view(),
        }
    }
}

/// Where an issue was reported.
#[derive(Debug, PartialEq)]
pub struct Source {
    pub name: Option<NormalizedString>,
    pub url: Option<Uri>,
}

/// What a [`Source`] holds, as mathematical values.
pub struct SourceView {
    pub name: Option<Seq<char>>,
    pub url: Option<Seq<char>>,
}

impl DeepView for Source {
    type V = SourceView;

    open spec fn deep_view(&self) -> SourceView {
        SourceView {
            name: self.name.deep_view(),
            url: self.url.deep_view(),
        }
    }
}

/// An issue that a patch resolves.
#[derive(Debug, PartialEq)]
pub struct Issue {
    pub issue_type: IssueClassification,
    pub id: Option<NormalizedString>,
    pub name: Option<NormalizedString>,
    pub description: Option<NormalizedString>,
    pub source: Option<Source>,
    pub references: Option<Vec<Uri>>,
}

/// What an [`Issue`] holds, as mathematical values.
pub struct IssueView {
    pub issue_type: IssueClassification,
    pub id: Option<Seq<char>>,
    pub name: Option<Seq<char>>,
    pub description: Option<Seq<char>>,
    pub source: Option<SourceView>,
    pub references: Option<Seq<Seq<char>>>,
}

impl DeepView for Issue {
    type V = IssueView;

    open spec fn deep_view(&self) -> IssueView {
        IssueView {
            issue_type: self.issue_type.deep_view(),
            id: self.id.deep_view(),
            name: self.name.deep_view(),
            description: self.description.deep_view(),
            source: self.source.deep_view(),
            references: self.references.deep_view(),
        }
    }
}

/// One license, named by an SPDX identifier or in free text.
#[derive(Debug, PartialEq)]
pub struct License {
    pub license_identifier: LicenseIdentifier,
    pub text: Option<AttachedText>,
    pub url: Option<Uri>,
}

/// What a [`License`] holds, as mathematical values.
pub struct LicenseView {
    pub license_identifier: LicenseIdentifierView,
    pub text: Option<AttachedTextView>,
    pub url: Option<Seq<char>>,
}

impl DeepView for License {
    type V = LicenseView;

    open spec fn deep_view(&self) -> LicenseView {
        LicenseView {
            license_identifier: self.license_identifier.deep_view(),
            text: self.text.deep_view(),
            url: self.url.deep_view(),
        }
    }
}

/// A patch applied to a component.
#[derive(Debug, PartialEq)]
pub struct Patch {
    pub patch_type: PatchClassification,
    pub diff: Diff,
    pub resolves: Option<Vec<Issue>>,
}

/// What a [`Patch`] holds, as mathematical values.
pub struct PatchView {
    pub patch_type: PatchClassification,
    pub diff: DiffView,
    pub resolves: Option<Seq<IssueView>>,
}

impl DeepView for Patch {
    type V = PatchView;

    open spec fn deep_view(&self) -> PatchView {
        PatchView {
            patch_type: self.patch_type.deep_view(),
            diff: self.diff.deep_view(),
            resolves: self.resolves.deep_view(),
        }
    }
}

/// A name and a value attached to a part of the document.
#[derive(Debug, PartialEq)]
pub struct Property {
    pub name: String,
    pub value: NormalizedString,
}

/// What a [`Property`] holds, as mathematical values.
pub struct PropertyView {
    pub name: Seq<char>,
    pub value: Seq<char>,
}

impl DeepView for Property {
    type V = PropertyView;

    open spec fn deep_view(&self) -> PropertyView {
        PropertyView {
            name: self.name.deep_view(),
            value: self.value.deep_view(),
        }
    }
}

/// An ISO/IEC 19770-2 software identification tag.
#[derive(Debug, PartialEq)]
pub struct Swid {
    pub tag_id: String,
    pub name: String,
    pub version: Option<String>,
    pub tag_version: Option<u32>,
    pub patch: Option<bool>,
    pub text: Option<AttachedText>,
    pub url: Option<Uri>,
}

/// What a [`Swid`] holds, as mathematical values.
pub struct SwidView {
    pub tag_id: Seq<char>,
    pub name: Seq<char>,
    pub version: Option<Seq<char>>,
    pub tag_version: Option<u32>,
    pub patch: Option<bool>,
    pub text: Option<AttachedTextView>,
    pub url: Option<Seq<char>>,
}

impl DeepView for Swid {
    type V = SwidView;

    open spec fn deep_view(&self) -> SwidView {
        SwidView {
            tag_id: self.tag_id.deep_view(),
            name: self.name.deep_view(),
            version: self.version.deep_view(),
            tag_version: self.tag_version.deep_view(),
            patch: self.patch.deep_view(),
            text: self.text.deep_view(),
            url: self.url.deep_view(),
        }
    }
}

/// A tool that took part in writing the document.
#[derive(Debug, PartialEq)]
pub struct Tool {
    pub vendor: Option<NormalizedString>,
    pub name: Option<NormalizedString>,
    pub version: Option<NormalizedString>,
    pub hashes: Option<Vec<Hash>>,
}

/// What a [`Tool`] holds, as mathematical values.
pub struct ToolView {
    pub vendor: Option<Seq<char>>,
    pub name: Option<Seq<char>>,
    pub version: Option<Seq<char>>,
    pub hashes: Option<Seq<HashView>>,
}

impl DeepView for Tool {
    type V = ToolView;

    open spec fn deep_view(&self) -> ToolView {
        ToolView {
            vendor: self.vendor.deep_view(),
            name: self.name.deep_view(),
            version: self.version.deep_view(),
            hashes: self.hashes.deep_view(),
        }
    }
}

/// Licenses and copyrights found by analysis rather than declared.
#[derive(Debug, PartialEq)]
pub struct ComponentEvidence {
    pub licenses: Option<Vec<LicenseChoice>>,
    pub copyright: Option<Vec<Copyright>>,
}

/// What a [`ComponentEvidence`] holds, as mathematical values.
pub struct ComponentEvidenceView {
    pub licenses: Option<Seq<LicenseChoiceView>>,
    pub copyright: Option<Seq<Seq<Seq<char>>>>,
}

impl DeepView for ComponentEvidence {
    type V = ComponentEvidenceView;

    open spec fn deep_view(&self) -> ComponentEvidenceView {
        ComponentEvidenceView {
            licenses: self.licenses.deep_view(),
            copyright: self.copyright.deep_view(),
        }
    }
}

/// Where a component comes from: its relatives and its history.
#[derive(Debug, PartialEq)]
pub struct Pedigree {
    pub ancestors: Option<Vec<Component>>,
    pub decendants: Option<Vec<Component>>,
    pub variants: Option<Vec<Component>>,
    pub commits: Option<Vec<Commit>>,
    pub patches: Option<Vec<Patch>>,
    pub notes: Option<String>,
}

/// What a [`Pedigree`] holds, as mathematical values.
pub struct PedigreeView {
    pub ancestors: Option<Seq<ComponentView>>,
    pub decendants: Option<Seq<ComponentView>>,
    pub variants: Option<Seq<ComponentView>>,
    pub commits: Option<Seq<CommitView>>,
    pub patches: Option<Seq<PatchView>>,
    pub notes: Option<Seq<char>>,
}

impl Pedigree {
    /// The mathematical value of this pedigree.
    pub open spec fn model(self) -> PedigreeView
        decreases self,
    {
        PedigreeView {
            ancestors: match self.ancestors {
                Some(v) => Some(Component::models(v@)),
                None => None,
            },
            decendants: match self.decendants {
                Some(v) => Some(Component::models(v@)),
                None => None,
            },
            variants: match self.variants {
                Some(v) => Some(Component::models(v@)),
                None => None,
            },
            commits: self.commits.deep_view(),
            patches: self.patches.deep_view(),
            notes: self.notes.deep_view(),
        }
    }

    /// The mathematical values of a sequence of them, one for one.
    pub open spec fn models(s: Seq<Pedigree>) -> Seq<PedigreeView>
        decreases s,
    {
        Seq::new(
            s.len(),
            |i: int|
                if 0 <= i < s.len() {
                    s[i].model()
                } else {
                    arbitrary()
                },
        )
    }

    /// `models` agrees with the view that a vector of them has.
    pub proof fn lemma_models(v: Vec<Pedigree>)
        ensures
            Pedigree::models(v@) == v.deep_view(),
    {
        assert(Pedigree::models(v@) =~= v.deep_view());
    }

    /// The same for a vector that may be absent.
    pub proof fn lemma_opt_models(o: Option<Vec<Pedigree>>)
        ensures
            o.deep_view() == (match o {
                Some(v) => Some(Pedigree::models(v@)),
                None => None,
            }),
    {
        if o is Some {
            Pedigree::lemma_models(o->0);
        }
    }
}

impl DeepView for Pedigree {
    type V = PedigreeView;

    open spec fn deep_view(&self) -> PedigreeView {
        self.model()
    }
}

/// One piece of software or hardware.
#[derive(Debug, PartialEq)]
pub struct Component {
    pub component_type: Classification,
    pub mime_type: Option<MimeType>,
    pub bom_ref: Option<String>,
    pub supplier: Option<OrganizationalEntity>,
    pub author: Option<NormalizedString>,
    pub publisher: Option<NormalizedString>,
    pub group: Option<NormalizedString>,
    pub name: NormalizedString,
    pub version: NormalizedString,
    pub description: Option<NormalizedString>,
    pub scope: Option<Scope>,
    pub hashes: Option<Vec<Hash>>,
    pub licenses: Option<Vec<LicenseChoice>>,
    pub copyright: Option<NormalizedString>,
    pub cpe: Option<Cpe>,
    pub purl: Option<Purl>,
    pub swid: Option<Swid>,
    pub modified: Option<bool>,
    pub pedigree: Option<Pedigree>,
    pub external_references: Option<Vec<ExternalReference>>,
    pub properties: Option<Properties>,
    pub components: Option<Vec<Component>>,
    pub evidence: Option<ComponentEvidence>,
}

/// What a [`Component`] holds, as mathematical values.
pub struct ComponentView {
    pub component_type: Classification,
    pub mime_type: Option<Seq<char>>,
    pub bom_ref: Option<Seq<char>>,
    pub supplier: Option<OrganizationalEntityView>,
    pub author: Option<Seq<char>>,
    pub publisher: Option<Seq<char>>,
    pub group: Option<Seq<char>>,
    pub name: Seq<char>,
    pub version: Seq<char>,
    pub description: Option<Seq<char>>,
    pub scope: Option<Scope>,
    pub hashes: Option<Seq<HashView>>,
    pub licenses: Option<Seq<LicenseChoiceView>>,
    pub copyright: Option<Seq<char>>,
    pub cpe: Option<Seq<char>>,
    pub purl: Option<Seq<char>>,
    pub swid: Option<SwidView>,
    pub modified: Option<bool>,
    pub pedigree: Option<PedigreeView>,
    pub external_references: Option<Seq<ExternalReferenceView>>,
    pub properties: Option<Seq<PropertyView>>,
    pub components: Option<Seq<ComponentView>>,
    pub evidence: Option<ComponentEvidenceView>,
}

impl Component {
    /// The mathematical value of this component.
    pub open spec fn model(self) -> ComponentView
        decreases self,
    {
        ComponentView {
            component_type: self.component_type.deep_view(),
            mime_type: self.mime_type.deep_view(),
            bom_ref: self.bom_ref.deep_view(),
            supplier: self.supplier.deep_view(),
            author: self.author.deep_view(),
            publisher: self.publisher.deep_view(),
            group: self.group.deep_view(),
            name: self.name.deep_view(),
            version: self.version.deep_view(),
            description: self.description.deep_view(),
            scope: self.scope.deep_view(),
            hashes: self.hashes.deep_view(),
            licenses: self.licenses.deep_view(),
            copyright: self.copyright.deep_view(),
            cpe: self.cpe.deep_view(),
            purl: self.purl.deep_view(),
            swid: self.swid.deep_view(),
            modified: self.modified.deep_view(),
            pedigree: match self.pedigree {
                Some(x) => Some(x.model()),
                None => None,
            },
            external_references: self.external_references.deep_view(),
            properties: self.properties.deep_view(),
            components: match self.components {
                Some(v) => Some(Component::models(v@)),
                None => None,
            },
            evidence: self.evidence.deep_view(),
        }
    }

    /// The mathematical values of a sequence of them, one for one.
    pub open spec fn models(s: Seq<Component>) -> Seq<ComponentView>
        decreases s,
    {
        Seq::new(
            s.len(),
            |i: int|
                if 0 <= i < s.len() {
                    s[i].model()
                } else {
                    arbitrary()
                },
        )
    }

    /// `models` agrees with the view that a vector of them has.
    pub proof fn lemma_models(v: Vec<Component>)
        ensures
            Component::models(v@) == v.deep_view(),
    {
        assert(Component::models(v@) =~= v.deep_view());
    }

    /// The same for a vector that may be absent.
    pub proof fn lemma_opt_models(o: Option<Vec<Component>>)
        ensures
            o.deep_view() == (match o {
                Some(v) => Some(Component::models(v@)),
                None => None,
            }),
    {
        if o is Some {
            Component::lemma_models(o->0);
        }
    }
}

impl DeepView for Component {
    type V = ComponentView;

    open spec fn deep_view(&self) -> ComponentView {
        self.model()
    }
}

/// A service reachable over a network.
#[derive(Debug, PartialEq)]
pub struct Service {
    pub bom_ref: Option<String>,
    pub provider: Option<OrganizationalEntity>,
    pub group: Option<NormalizedString>,
    pub name: NormalizedString,
    pub version: Option<NormalizedString>,
    pub description: Option<NormalizedString>,
    pub endpoints: Option<Vec<Uri>>,
    pub authenticated: Option<bool>,
    pub x_trust_boundary: Option<bool>,
    pub data: Option<Vec<DataClassification>>,
    pub licenses: Option<Vec<LicenseChoice>>,
    pub external_references: Option<Vec<ExternalReference>>,
    pub properties: Option<Properties>,
    pub services: Option<Vec<Service>>,
}

/// What a [`Service`] holds, as mathematical values.
pub struct ServiceView {
    pub bom_ref: Option<Seq<char>>,
    pub provider: Option<OrganizationalEntityView>,
    pub group: Option<Seq<char>>,
    pub name: Seq<char>,
    pub version: Option<Seq<char>>,
    pub description: Option<Seq<char>>,
    pub endpoints: Option<Seq<Seq<char>>>,
    pub authenticated: Option<bool>,
    pub x_trust_boundary: Option<bool>,
    pub data: Option<Seq<DataClassificationView>>,
    pub licenses: Option<Seq<LicenseChoiceView>>,
    pub external_references: Option<Seq<ExternalReferenceView>>,
    pub properties: Option<Seq<PropertyView>>,
    pub services: Option<Seq<ServiceView>>,
}

impl Service {
    /// The mathematical value of this service.
    pub open spec fn model(self) -> ServiceView
        decreases self,
    {
        ServiceView {
            bom_ref: self.bom_ref.deep_view(),
            provider: self.provider.deep_view(),
            group: self.group.deep_view(),
            name: self.name.deep_view(),
            version: self.version.deep_view(),
            description: self.description.deep_view(),
            endpoints: self.endpoints.deep_view(),
            authenticated: self.authenticated.deep_view(),
            x_trust_boundary: self.x_trust_boundary.deep_view(),
            data: self.data.deep_view(),
            licenses: self.licenses.deep_view(),
            external_references: self.external_references.deep_view(),
            properties: self.properties.deep_view(),
            services: match self.services {
                Some(v) => Some(Service::models(v@)),
                None => None,
            },
        }
    }

    /// The mathematical values of a sequence of them, one for one.
    pub open spec fn models(s: Seq<Service>) -> Seq<ServiceView>
        decreases s,
    {
        Seq::new(
            s.len(),
            |i: int|
                if 0 <= i < s.len() {
                    s[i].model()
                } else {
                    arbitrary()
                },
        )
    }

    /// `models` agrees with the view that a vector of them has.
    pub proof fn lemma_models(v: Vec<Service>)
        ensures
            Service::models(v@) == v.deep_view(),
    {
        assert(Service::models(v@) =~= v.deep_view());
    }

    /// The same for a vector that may be absent.
    pub proof fn lemma_opt_models(o: Option<Vec<Service>>)
        ensures
            o.deep_view() == (match o {
                Some(v) => Some(Service::models(v@)),
                None => None,
            }),
    {
        if o is Some {
            Service::lemma_models(o->0);
        }
    }
}

impl DeepView for Service {
    type V = ServiceView;

    open spec fn deep_view(&self) -> ServiceView {
        self.model()
    }
}

/// Facts about the document itself and the thing it describes.
#[derive(Debug, PartialEq)]
pub struct Metadata {
    pub timestamp: Option<DateTime>,
    pub tools: Option<Vec<Tool>>,
    pub authors: Option<Vec<OrganizationalContact>>,
    pub component: Option<Component>,
    pub manufacture: Option<OrganizationalEntity>,
    pub supplier: Option<OrganizationalEntity>,
    pub licenses: Option<Vec<LicenseChoice>>,
    pub properties: Option<Properties>,
}

/// What a [`Metadata`] holds, as mathematical values.
pub struct MetadataView {
    pub timestamp: Option<Seq<char>>,
    pub tools: Option<Seq<ToolView>>,
    pub authors: Option<Seq<OrganizationalContactView>>,
    pub component: Option<ComponentView>,
    pub manufacture: Option<OrganizationalEntityView>,
    pub supplier: Option<OrganizationalEntityView>,
    pub licenses: Option<Seq<LicenseChoiceView>>,
    pub properties: Option<Seq<PropertyView>>,
}

impl DeepView for Metadata {
    type V = MetadataView;

    open spec fn deep_view(&self) -> MetadataView {
        MetadataView {
            timestamp: self.timestamp.deep_view(),
            tools: self.tools.deep_view(),
            authors: self.authors.deep_view(),
            component: self.component.deep_view(),
            manufacture: self.manufacture.deep_view(),
            supplier: self.supplier.deep_view(),
            licenses: self.licenses.deep_view(),
            properties: self.properties.deep_view(),
        }
    }
}

/// A reference to an element of the document by its `bom-ref`.
#[derive(Debug, PartialEq)]
pub struct BomReference(pub String);

impl DeepView for BomReference {
    type V = Seq<char>;

    open spec fn deep_view(&self) -> Seq<char> {
        self.0@
    }
}

/// Copyright statements found as evidence.
#[derive(Debug, PartialEq)]
pub struct Copyright(pub Vec<String>);

impl DeepView for Copyright {
    type V = Seq<Seq<char>>;

    open spec fn deep_view(&self) -> Seq<Seq<char>> {
        self.0.deep_view()
    }
}

/// A list of properties.
#[derive(Debug, PartialEq)]
pub struct Properties(pub Vec<Property>);

impl DeepView for Properties {
    type V = Seq<PropertyView>;

    open spec fn deep_view(&self) -> Seq<PropertyView> {
        self.0.deep_view()
    }
}

/// How a license is named: by a validated SPDX identifier, or in free text.
#[derive(Debug, PartialEq)]
pub enum LicenseIdentifier {
    SpdxId(SpdxIdentifier),
    Name(NormalizedString),
}

/// What a [`LicenseIdentifier`] holds, as mathematical values.
pub enum LicenseIdentifierView {
    SpdxId(Seq<char>),
    Name(Seq<char>),
}

impl DeepView for LicenseIdentifier {
    type V = LicenseIdentifierView;

    open spec fn deep_view(&self) -> LicenseIdentifierView {
        match self {
            LicenseIdentifier::SpdxId(id) => LicenseIdentifierView::SpdxId(id@),
            LicenseIdentifier::Name(name) => LicenseIdentifierView::Name(name@),
        }
    }
}

/// Either a list of licenses, each described on its own, or one license
/// expression in free text.
#[derive(Debug, PartialEq)]
pub enum LicenseChoice {
    License(Option<Vec<License>>),
    Expression(Option<NormalizedString>),
}

/// What a [`LicenseChoice`] holds, as mathematical values.
pub enum LicenseChoiceView {
    License(Option<Seq<LicenseView>>),
    Expression(Option<Seq<char>>),
}

impl DeepView for LicenseChoice {
    type V = LicenseChoiceView;

    open spec fn deep_view(&self) -> LicenseChoiceView {
        match self {
            LicenseChoice::License(licenses) => LicenseChoiceView::License(licenses.deep_view()),
            LicenseChoice::Expression(expression) => LicenseChoiceView::Expression(
                expression.deep_view(),
            ),
        }
    }
}

/// A node of the dependency graph: the reference of an element, and the
/// elements it depends on. Nodes are found by their reference, not by their
/// place in the tree.
#[derive(Debug, PartialEq)]
pub struct Dependency {
    pub dependency_ref: String,
    pub dependencies: Vec<Dependency>,
}

/// What a [`Dependency`] holds, as mathematical values.
pub struct DependencyView {
    pub dependency_ref: Seq<char>,
    pub dependencies: Seq<DependencyView>,
}

impl Dependency {
    /// The mathematical value of this dependency.
    pub open spec fn model(self) -> DependencyView
        decreases self,
    {
        DependencyView {
            dependency_ref: self.dependency_ref@,
            dependencies: Dependency::models(self.dependencies@),
        }
    }

    /// The mathematical values of a sequence of them, one for one.
    pub open spec fn models(s: Seq<Dependency>) -> Seq<DependencyView>
        decreases s,
    {
        Seq::new(
            s.len(),
            |i: int|
                if 0 <= i < s.len() {
                    s[i].model()
                } else {
                    arbitrary()
                },
        )
    }

    /// `models` agrees with the view that a vector of them has.
    pub proof fn lemma_models(v: Vec<Dependency>)
        ensures
            Dependency::models(v@) == v.deep_view(),
    {
        assert(Dependency::models(v@) =~= v.deep_view());
    }
}

impl DeepView for Dependency {
    type V = DependencyView;

    open spec fn deep_view(&self) -> DependencyView {
        self.model()
    }
}

/// The text that the `base64` crate's standard alphabet, with padding,
/// encodes `bytes` as.
pub uninterp spec fn base64_text(bytes: Seq<u8>) -> Seq<char>;

/// Encodes `bytes` as base64.
///
/// Trusted: `base64::encode`, which encodes with the standard alphabet and
/// padding and whose result depends on the bytes alone. It would panic only
/// if the length of the encoded text overflowed `usize`, which no slice in
/// memory is long enough for.
#[verifier::external_body]
fn base64_encode(bytes: &[u8]) -> (r: String)
    ensures
        r@ == base64_text(bytes@),
{
    base64::encode(bytes)
}

impl AttachedText {
    /// Attaches raw content: it is stored base64-encoded and tagged so.
    ///
    /// - `content_type`: the content type of the text; `text/plain` where
    ///   none is given
    /// - `content`: the raw content
    pub fn new(content_type: Option<NormalizedString>, content: &[u8]) -> (r: AttachedText)
        ensures
            content_type is Some ==> r.content_type == content_type,
            content_type is None ==> r.content_type.deep_view() == Some("text/plain"@),
            r.encoding == Some(Encoding::Base64),
            r.content@ == base64_text(content@),
    {
        let content_type = match content_type {
            Some(given) => given,
            None => {
                proof {
                    reveal_strlit("text/plain");
                    assert(is_normalized("text/plain"@));
                    lemma_normalize_keeps_normalized("text/plain"@);
                }
                NormalizedString::new("text/plain")
            },
        };
        AttachedText {
            content_type: Some(content_type),
            encoding: Some(Encoding::Base64),
            content: base64_encode(content),
        }
    }
}

/// Whether position `i` of the 36 characters of a UUID holds a hyphen.
pub open spec fn is_hyphen_position(i: int) -> bool {
    i == 8 || i == 13 || i == 18 || i == 23
}

/// The number of hexadecimal digits that stand before position `i` of a
/// UUID's text.
pub open spec fn digits_before(i: int) -> int {
    if i > 23 {
        i - 4
    } else if i > 18 {
        i - 3
    } else if i > 13 {
        i - 2
    } else if i > 8 {
        i - 1
    } else {
        i
    }
}

/// The character at position `i` of the hyphenated text of the UUID with
/// the sixteen bytes `bytes`.
pub open spec fn uuid_char(bytes: Seq<u8>, i: int) -> char {
    if is_hyphen_position(i) {
        '-'
    } else {
        let k = digits_before(i);
        if k % 2 == 0 {
            hex_digit(bytes[k / 2] as int / 16)
        } else {
            hex_digit(bytes[k / 2] as int % 16)
        }
    }
}

/// The URN of the UUID with the sixteen bytes `bytes`: `urn:uuid:` and the
/// digits in groups of 8, 4, 4, 4 and 12.
pub open spec fn urn_uuid_text(bytes: Seq<u8>) -> Seq<char> {
    "urn:uuid:"@ + Seq::new(36, |i: int| uuid_char(bytes, i))
}

/// `s` is a UUID URN: `urn:uuid:` followed by lower-case hexadecimal digits
/// in groups of 8, 4, 4, 4 and 12 with hyphens between them.
pub open spec fn is_urn_uuid(s: Seq<char>) -> bool {
    &&& s.len() == 45
    &&& s.subrange(0, 9) == "urn:uuid:"@
    &&& forall|i: int|
        0 <= i < 36 ==> if is_hyphen_position(i) {
            #[trigger] s[9 + i] == '-'
        } else {
            is_lower_hex(s[9 + i])
        }
}

/// The text of every sixteen bytes is a UUID URN.
pub proof fn lemma_urn_uuid_text_is_urn_uuid(bytes: Seq<u8>)
    requires
        bytes.len() == 16,
    ensures
        is_urn_uuid(urn_uuid_text(bytes)),
{
    reveal_strlit("urn:uuid:");
    let s = urn_uuid_text(bytes);
    assert(s.subrange(0, 9) =~= "urn:uuid:"@);
    assert forall|i: int| 0 <= i < 36 implies if is_hyphen_position(i) {
        #[trigger] s[9 + i] == '-'
    } else {
        is_lower_hex(s[9 + i])
    } by {
        assert(s[9 + i] == uuid_char(bytes, i));
    }
}

/// The bytes are those of a random UUID: the version is 4 and the variant
/// is that of RFC 4122.
pub open spec fn is_random_uuid(bytes: Seq<u8>) -> bool {
    bytes.len() == 16 && bytes[6] as int / 16 == 4 && bytes[8] as int / 64 == 2
}

/// `s` is the URN of a random UUID: a UUID URN whose version digit is `4`
/// and whose variant digit is `8`, `9`, `a` or `b`.
pub open spec fn is_random_urn_uuid(s: Seq<char>) -> bool {
    is_urn_uuid(s) && s[23] == '4' && (s[28] == '8' || s[28] == '9' || s[28] == 'a' || s[28]
        == 'b')
}

/// The sixteen bytes of a fresh random UUID.
///
/// Trusted: `uuid::Uuid::new_v4` and `Uuid::as_bytes`. The bytes come from
/// the operating system's random source, so nothing is claimed of them but
/// what `new_v4` sets after drawing them: the version, 4, in the upper half
/// of byte 6, and the variant of RFC 4122 in the two upper bits of byte 8.
/// The call panics where the random source fails.
#[verifier::external_body]
fn random_uuid_bytes() -> (r: [u8; 16])
    ensures
        is_random_uuid(r@),
{
    *uuid::Uuid::new_v4().as_bytes()
}

/// The text of a random UUID is the URN of a random UUID.
pub proof fn lemma_random_uuid_text(bytes: Seq<u8>)
    requires
        is_random_uuid(bytes),
    ensures
        is_random_urn_uuid(urn_uuid_text(bytes)),
{
    reveal_strlit("urn:uuid:");
    lemma_urn_uuid_text_is_urn_uuid(bytes);
    let s = urn_uuid_text(bytes);
    assert(s[23] == uuid_char(bytes, 14));
    assert(s[28] == uuid_char(bytes, 19));
}

/// Decides whether text is a UUID URN.
pub fn check_urn_uuid(text: &str) -> (r: bool)
    ensures
        r == is_urn_uuid(text@),
{
    let s = to_chars(text);
    if s.len() != 45 || !check_prefix(&s, "urn:uuid:") {
        return false;
    }
    proof {
        reveal_strlit("urn:uuid:");
    }
    let mut i: usize = 0;
    while i < 36
        invariant
            i <= 36,
            s.len() == 45,
            s@ == text@,
            s@.subrange(0, 9) == "urn:uuid:"@,
            forall|j: int|
                0 <= j < i ==> if is_hyphen_position(j) {
                    #[trigger] s[9 + j] == '-'
                } else {
                    is_lower_hex(s[9 + j])
                },
        decreases 36 - i,
    {
        let c = s[9 + i];
        let good = if i == 8 || i == 13 || i == 18 || i == 23 {
            c == '-'
        } else {
            char_in_class(CharClass::LowerHex, c)
        };
        if !good {
            proof {
                assert(s@[9 + i as int] == c);
            }
            return false;
        }
        i += 1;
    }
    true
}

/// The serial number of a document: a UUID as a URN.
#[derive(Debug, PartialEq)]
pub struct UrnUuid(String);

impl View for UrnUuid {
    type V = Seq<char>;

    closed spec fn view(&self) -> Seq<char> {
        self.0@
    }
}

impl DeepView for UrnUuid {
    type V = Seq<char>;

    open spec fn deep_view(&self) -> Seq<char> {
        self@
    }
}

impl UrnUuid {
    /// The URN of the UUID with the given bytes.
    pub fn from_bytes(bytes: [u8; 16]) -> (r: UrnUuid)
        ensures
            r@ == urn_uuid_text(bytes@),
            is_urn_uuid(r@),
    {
        let mut out = "urn:uuid:".to_string();
        let mut i: usize = 0;
        while i < 16
            invariant
                i <= 16,
                out@ == "urn:uuid:"@ + Seq::new(
                    digits_written(i as int) as nat,
                    |j: int| uuid_char(bytes@, j),
                ),
            decreases 16 - i,
        {
            let ghost before = out@;
            let ghost start = digits_written(i as int);
            if i == 4 || i == 6 || i == 8 || i == 10 {
                push_char(&mut out, '-');
            }
            let byte = bytes[i];
            push_char(&mut out, hex_digit_of(byte / 16));
            push_char(&mut out, hex_digit_of(byte % 16));
            i += 1;
            proof {
                let next = digits_written(i as int);
                let old_tail = Seq::new(start as nat, |j: int| uuid_char(bytes@, j));
                let new_tail = Seq::new(next as nat, |j: int| uuid_char(bytes@, j));
                assert(before == "urn:uuid:"@ + old_tail);
                assert(out@ =~= "urn:uuid:"@ + new_tail);
            }
        }
        proof {
            lemma_urn_uuid_text_is_urn_uuid(bytes@);
        }
        UrnUuid(out)
    }

    /// Validates `value` and keeps it unchanged where it is a UUID URN; the
    /// error carries the text that was refused.
    pub fn new(value: String) -> (r: Result<UrnUuid, ValidationError>)
        ensures
            is_urn_uuid(value@) ==> (r matches Ok(v) && v@ == value@),
            !is_urn_uuid(value@) ==> (r matches Err(ValidationError::InvalidUrnUuid(refused))
                && refused@ == value@),
    {
        if check_urn_uuid(value.as_str()) {
            Ok(UrnUuid(value))
        } else {
            Err(ValidationError::InvalidUrnUuid(value))
        }
    }

    /// Whether the text held is a UUID URN.
    pub fn is_valid(&self) -> (r: bool)
        ensures
            r == is_urn_uuid(self@),
    {
        check_urn_uuid(self.0.as_str())
    }

    /// A fresh random serial number.
    pub fn generate() -> (r: UrnUuid)
        ensures
            is_random_urn_uuid(r@),
    {
        let bytes = random_uuid_bytes();
        proof {
            lemma_random_uuid_text(bytes@);
        }
        UrnUuid::from_bytes(bytes)
    }

    /// Wraps `value` as it is, for text read from a document that is taken
    /// to be well formed.
    pub fn new_unchecked(value: String) -> (r: UrnUuid)
        ensures
            r@ == value@,
    {
        UrnUuid(value)
    }

    /// A copy of the text.
    pub fn to_string(&self) -> (r: String)
        ensures
            r@ == self@,
    {
        self.0.clone()
    }
}

/// The number of characters of a UUID's text that stand before the digits
/// of byte `i`, the hyphen in front of that byte not counted.
pub open spec fn digits_written(i: int) -> int {
    if i > 10 {
        2 * i + 4
    } else if i > 8 {
        2 * i + 3
    } else if i > 6 {
        2 * i + 2
    } else if i > 4 {
        2 * i + 1
    } else {
        2 * i
    }
}

/// The root of a document.
#[derive(Debug, PartialEq)]
pub struct Bom {
    pub version: u32,
    pub serial_number: Option<UrnUuid>,
    pub metadata: Option<Metadata>,
    pub components: Option<Vec<Component>>,
    pub services: Option<Vec<Service>>,
    pub external_references: Option<Vec<ExternalReference>>,
    pub dependencies: Option<Vec<Dependency>>,
    pub compositions: Option<Vec<Composition>>,
    pub properties: Option<Properties>,
}

/// What a [`Bom`] holds, as mathematical values.
pub struct BomView {
    pub version: u32,
    pub serial_number: Option<Seq<char>>,
    pub metadata: Option<MetadataView>,
    pub components: Option<Seq<ComponentView>>,
    pub services: Option<Seq<ServiceView>>,
    pub external_references: Option<Seq<ExternalReferenceView>>,
    pub dependencies: Option<Seq<DependencyView>>,
    pub compositions: Option<Seq<CompositionView>>,
    pub properties: Option<Seq<PropertyView>>,
}

impl DeepView for Bom {
    type V = BomView;

    open spec fn deep_view(&self) -> BomView {
        BomView {
            version: self.version,
            serial_number: self.serial_number.deep_view(),
            metadata: self.metadata.deep_view(),
            components: self.components.deep_view(),
            services: self.services.deep_view(),
            external_references: self.external_references.deep_view(),
            dependencies: self.dependencies.deep_view(),
            compositions: self.compositions.deep_view(),
            properties: self.properties.deep_view(),
        }
    }
}

impl Default for Bom {
    /// Version 1, a fresh serial number that is the URN of a random UUID,
    /// and nothing else: every optional part is absent, not empty.
    fn default() -> (r: Bom)
        ensures
            r.version == 1,
            r.serial_number matches Some(serial) && is_random_urn_uuid(serial@),
            r.metadata is None,
            r.components is None,
            r.services is None,
            r.external_references is None,
            r.dependencies is None,
            r.compositions is None,
            r.properties is None,
    {
        Bom {
            version: 1,
            serial_number: Some(UrnUuid::generate()),
            metadata: None,
            components: None,
            services: None,
            external_references: None,
            dependencies: None,
            compositions: None,
            properties: None,
        }
    }
}

} // verus!
