//! The words that schema 1.3 writes for the values of each closed
//! vocabulary, and how they are read back.

use crate::models::{
    AggregateType, Classification, DataFlowType, ExternalReferenceType, HashAlgorithm,
    IssueClassification, PatchClassification, Scope,
};
use crate::text::str_eq;
use vstd::prelude::*;

verus! {

/// The word that stands for an aggregate type.
pub open spec fn aggregate_type_token(value: AggregateType) -> Seq<char> {
    match value {
        AggregateType::Complete => "complete"@,
        AggregateType::Incomplete => "incomplete"@,
        AggregateType::IncompleteFirstPartyOnly => "incomplete_first_party_only"@,
        AggregateType::IncompleteThirdPartyOnly => "incomplete_third_party_only"@,
        AggregateType::Unknown => "unknown"@,
        AggregateType::NotSpecified => "not_specified"@,
    }
}

/// The aggregate type that a word stands for, if it stands for one.
pub open spec fn aggregate_type_of_token(token: Seq<char>) -> Option<AggregateType> {
    if token == "complete"@ {
        Some(AggregateType::Complete)
    } else if token == "incomplete"@ {
        Some(AggregateType::Incomplete)
    } else if token == "incomplete_first_party_only"@ {
        Some(AggregateType::IncompleteFirstPartyOnly)
    } else if token == "incomplete_third_party_only"@ {
        Some(AggregateType::IncompleteThirdPartyOnly)
    } else if token == "unknown"@ {
        Some(AggregateType::Unknown)
    } else if token == "not_specified"@ {
        Some(AggregateType::NotSpecified)
    } else {
        None
    }
}

/// Writes the word for an aggregate type.
pub fn aggregate_type_to_token(value: AggregateType) -> (r: String)
    ensures
        r@ == aggregate_type_token(value),
{
    match value {
        AggregateType::Complete => "complete".to_string(),
        AggregateType::Incomplete => "incomplete".to_string(),
        AggregateType::IncompleteFirstPartyOnly => "incomplete_first_party_only".to_string(),
        AggregateType::IncompleteThirdPartyOnly => "incomplete_third_party_only".to_string(),
        AggregateType::Unknown => "unknown".to_string(),
        AggregateType::NotSpecified => "not_specified".to_string(),
    }
}

/// Reads a word as an aggregate type; `None` for a word outside the vocabulary.
pub fn aggregate_type_from_token(token: &str) -> (r: Option<AggregateType>)
    ensures
        r == aggregate_type_of_token(token@),
{
    if str_eq(token, "complete") {
        Some(AggregateType::Complete)
    } else if str_eq(token, "incomplete") {
        Some(AggregateType::Incomplete)
    } else if str_eq(token, "incomplete_first_party_only") {
        Some(AggregateType::IncompleteFirstPartyOnly)
    } else if str_eq(token, "incomplete_third_party_only") {
        Some(AggregateType::IncompleteThirdPartyOnly)
    } else if str_eq(token, "unknown") {
        Some(AggregateType::Unknown)
    } else if str_eq(token, "not_specified") {
        Some(AggregateType::NotSpecified)
    } else {
        None
    }
}

/// Every aggregate type is read back from its own word, and a word that is read as
/// one is the word of that one.
pub proof fn lemma_aggregate_type_round_trip(value: AggregateType, token: Seq<char>)
    ensures
        aggregate_type_of_token(aggregate_type_token(value)) == Some(value),
        aggregate_type_of_token(token) matches Some(v) ==> aggregate_type_token(v) == token,
{
    reveal_strlit("complete");
    reveal_strlit("incomplete");
    reveal_strlit("incomplete_first_party_only");
    reveal_strlit("incomplete_third_party_only");
    reveal_strlit("unknown");
    reveal_strlit("not_specified");
    assert("complete"@.len() == 8);
    assert("incomplete"@.len() == 10);
    assert("incomplete_first_party_only"@.len() == 27);
    assert("incomplete_third_party_only"@.len() == 27);
    assert("unknown"@.len() == 7);
    assert("not_specified"@.len() == 13);
    assert("incomplete_first_party_only"@[11] != "incomplete_third_party_only"@[11]);
}

/// The word that stands for a classification.
pub open spec fn classification_token(value: Classification) -> Seq<char> {
    match value {
        Classification::Application => "application"@,
        Classification::Framework => "framework"@,
        Classification::Library => "library"@,
        Classification::Container => "container"@,
        Classification::OperatingSystem => "operating-system"@,
        Classification::Device => "device"@,
        Classification::Firmware => "firmware"@,
        Classification::File => "file"@,
    }
}

/// The classification that a word stands for, if it stands for one.
pub open spec fn classification_of_token(token: Seq<char>) -> Option<Classification> {
    if token == "application"@ {
        Some(Classification::Application)
    } else if token == "framework"@ {
        Some(Classification::Framework)
    } else if token == "library"@ {
        Some(Classification::Library)
    } else if token == "container"@ {
        Some(Classification::Container)
    } else if token == "operating-system"@ {
        Some(Classification::OperatingSystem)
    } else if token == "device"@ {
        Some(Classification::Device)
    } else if token == "firmware"@ {
        Some(Classification::Firmware)
    } else if token == "file"@ {
        Some(Classification::File)
    } else {
        None
    }
}

/// Writes the word for a classification.
pub fn classification_to_token(value: Classification) -> (r: String)
    ensures
        r@ == classification_token(value),
{
    match value {
        Classification::Application => "application".to_string(),
        Classification::Framework => "framework".to_string(),
        Classification::Library => "library".to_string(),
        Classification::Container => "container".to_string(),
        Classification::OperatingSystem => "operating-system".to_string(),
        Classification::Device => "device".to_string(),
        Classification::Firmware => "firmware".to_string(),
        Classification::File => "file".to_string(),
    }
}

/// Reads a word as a classification; `None` for a word outside the vocabulary.
pub fn classification_from_token(token: &str) -> (r: Option<Classification>)
    ensures
        r == classification_of_token(token@),
{
    if str_eq(token, "application") {
        Some(Classification::Application)
    } else if str_eq(token, "framework") {
        Some(Classification::Framework)
    } else if str_eq(token, "library") {
        Some(Classification::Library)
    } else if str_eq(token, "container") {
        Some(Classification::Container)
    } else if str_eq(token, "operating-system") {
        Some(Classification::OperatingSystem)
    } else if str_eq(token, "device") {
        Some(Classification::Device)
    } else if str_eq(token, "firmware") {
        Some(Classification::Firmware)
    } else if str_eq(token, "file") {
        Some(Classification::File)
    } else {
        None
    }
}

/// Every classification is read back from its own word, and a word that is read as
/// one is the word of that one.
pub proof fn lemma_classification_round_trip(value: Classification, token: Seq<char>)
    ensures
        classification_of_token(classification_token(value)) == Some(value),
        classification_of_token(token) matches Some(v) ==> classification_token(v) == token,
{
    reveal_strlit("application");
    reveal_strlit("framework");
    reveal_strlit("library");
    reveal_strlit("container");
    reveal_strlit("operating-system");
    reveal_strlit("device");
    reveal_strlit("firmware");
    reveal_strlit("file");
    assert("application"@.len() == 11);
    assert("framework"@.len() == 9);
    assert("library"@.len() == 7);
    assert("container"@.len() == 9);
    assert("operating-system"@.len() == 16);
    assert("device"@.len() == 6);
    assert("firmware"@.len() == 8);
    assert("file"@.len() == 4);
    assert("framework"@[0] != "container"@[0]);
}

/// The word that stands for a data flow type.
pub open spec fn data_flow_type_token(value: DataFlowType) -> Seq<char> {
    match value {
        DataFlowType::Inbound => "inbound"@,
        DataFlowType::Outbound => "outbound"@,
        DataFlowType::BiDirectional => "bi-directional"@,
        DataFlowType::Unknown => "unknown"@,
    }
}

/// The data flow type that a word stands for, if it stands for one.
pub open spec fn data_flow_type_of_token(token: Seq<char>) -> Option<DataFlowType> {
    if token == "inbound"@ {
        Some(DataFlowType::Inbound)
    } else if token == "outbound"@ {
        Some(DataFlowType::Outbound)
    } else if token == "bi-directional"@ {
        Some(DataFlowType::BiDirectional)
    } else if token == "unknown"@ {
        Some(DataFlowType::Unknown)
    } else {
        None
    }
}

/// Writes the word for a data flow type.
pub fn data_flow_type_to_token(value: DataFlowType) -> (r: String)
    ensures
        r@ == data_flow_type_token(value),
{
    match value {
        DataFlowType::Inbound => "inbound".to_string(),
        DataFlowType::Outbound => "outbound".to_string(),
        DataFlowType::BiDirectional => "bi-directional".to_string(),
        DataFlowType::Unknown => "unknown".to_string(),
    }
}

/// Reads a word as a data flow type; `None` for a word outside the vocabulary.
pub fn data_flow_type_from_token(token: &str) -> (r: Option<DataFlowType>)
    ensures
        r == data_flow_type_of_token(token@),
{
    if str_eq(token, "inbound") {
        Some(DataFlowType::Inbound)
    } else if str_eq(token, "outbound") {
        Some(DataFlowType::Outbound)
    } else if str_eq(token, "bi-directional") {
        Some(DataFlowType::BiDirectional)
    } else if str_eq(token, "unknown") {
        Some(DataFlowType::Unknown)
    } else {
        None
    }
}

/// Every data flow type is read back from its own word, and a word that is read as
/// one is the word of that one.
pub proof fn lemma_data_flow_type_round_trip(value: DataFlowType, token: Seq<char>)
    ensures
        data_flow_type_of_token(data_flow_type_token(value)) == Some(value),
        data_flow_type_of_token(token) matches Some(v) ==> data_flow_type_token(v) == token,
{
    reveal_strlit("inbound");
    reveal_strlit("outbound");
    reveal_strlit("bi-directional");
    reveal_strlit("unknown");
    assert("inbound"@.len() == 7);
    assert("outbound"@.len() == 8);
    assert("bi-directional"@.len() == 14);
    assert("unknown"@.len() == 7);
    assert("inbound"@[0] != "unknown"@[0]);
}

/// The word that stands for an external reference type.
pub open spec fn external_reference_type_token(value: ExternalReferenceType) -> Seq<char> {
    match value {
        ExternalReferenceType::Vcs => "vcs"@,
        ExternalReferenceType::IssueTracker => "issue-tracker"@,
        ExternalReferenceType::Website => "website"@,
        ExternalReferenceType::Advisories => "advisories"@,
        ExternalReferenceType::Bom => "bom"@,
        ExternalReferenceType::MailingList => "mailing-list"@,
        ExternalReferenceType::Social => "social"@,
        ExternalReferenceType::Chat => "chat"@,
        ExternalReferenceType::Documentation => "documentation"@,
        ExternalReferenceType::Support => "support"@,
        ExternalReferenceType::Distribution => "distribution"@,
        ExternalReferenceType::License => "license"@,
        ExternalReferenceType::BuildMeta => "build-meta"@,
        ExternalReferenceType::BuildSystem => "build-system"@,
        ExternalReferenceType::Other => "other"@,
    }
}

/// The external reference type that a word stands for, if it stands for one.
pub open spec fn external_reference_type_of_token(token: Seq<char>) -> Option<ExternalReferenceType> {
    if token == "vcs"@ {
        Some(ExternalReferenceType::Vcs)
    } else if token == "issue-tracker"@ {
        Some(ExternalReferenceType::IssueTracker)
    } else if token == "website"@ {
        Some(ExternalReferenceType::Website)
    } else if token == "advisories"@ {
        Some(ExternalReferenceType::Advisories)
    } else if token == "bom"@ {
        Some(ExternalReferenceType::Bom)
    } else if token == "mailing-list"@ {
        Some(ExternalReferenceType::MailingList)
    } else if token == "social"@ {
        Some(ExternalReferenceType::Social)
    } else if token == "chat"@ {
        Some(ExternalReferenceType::Chat)
    } else if token == "documentation"@ {
        Some(ExternalReferenceType::Documentation)
    } else if token == "support"@ {
        Some(ExternalReferenceType::Support)
    } else if token == "distribution"@ {
        Some(ExternalReferenceType::Distribution)
    } else if token == "license"@ {
        Some(ExternalReferenceType::License)
    } else if token == "build-meta"@ {
        Some(ExternalReferenceType::BuildMeta)
    } else if token == "build-system"@ {
        Some(ExternalReferenceType::BuildSystem)
    } else if token == "other"@ {
        Some(ExternalReferenceType::Other)
    } else {
        None
    }
}

/// Writes the word for an external reference type.
pub fn external_reference_type_to_token(value: ExternalReferenceType) -> (r: String)
    ensures
        r@ == external_reference_type_token(value),
{
    match value {
        ExternalReferenceType::Vcs => "vcs".to_string(),
        ExternalReferenceType::IssueTracker => "issue-tracker".to_string(),
        ExternalReferenceType::Website => "website".to_string(),
        ExternalReferenceType::Advisories => "advisories".to_string(),
        ExternalReferenceType::Bom => "bom".to_string(),
        ExternalReferenceType::MailingList => "mailing-list".to_string(),
        ExternalReferenceType::Social => "social".to_string(),
        ExternalReferenceType::Chat => "chat".to_string(),
        ExternalReferenceType::Documentation => "documentation".to_string(),
        ExternalReferenceType::Support => "support".to_string(),
        ExternalReferenceType::Distribution => "distribution".to_string(),
        ExternalReferenceType::License => "license".to_string(),
        ExternalReferenceType::BuildMeta => "build-meta".to_string(),
        ExternalReferenceType::BuildSystem => "build-system".to_string(),
        ExternalReferenceType::Other => "other".to_string(),
    }
}

/// Reads a word as an external reference type; `None` for a word outside the vocabulary.
pub fn external_reference_type_from_token(token: &str) -> (r: Option<ExternalReferenceType>)
    ensures
        r == external_reference_type_of_token(token@),
{
    if str_eq(token, "vcs") {
        Some(ExternalReferenceType::Vcs)
    } else if str_eq(token, "issue-tracker") {
        Some(ExternalReferenceType::IssueTracker)
    } else if str_eq(token, "website") {
        Some(ExternalReferenceType::Website)
    } else if str_eq(token, "advisories") {
        Some(ExternalReferenceType::Advisories)
    } else if str_eq(token, "bom") {
        Some(ExternalReferenceType::Bom)
    } else if str_eq(token, "mailing-list") {
        Some(ExternalReferenceType::MailingList)
    } else if str_eq(token, "social") {
        Some(ExternalReferenceType::Social)
    } else if str_eq(token, "chat") {
        Some(ExternalReferenceType::Chat)
    } else if str_eq(token, "documentation") {
        Some(ExternalReferenceType::Documentation)
    } else if str_eq(token, "support") {
        Some(ExternalReferenceType::Support)
    } else if str_eq(token, "distribution") {
        Some(ExternalReferenceType::Distribution)
    } else if str_eq(token, "license") {
        Some(ExternalReferenceType::License)
    } else if str_eq(token, "build-meta") {
        Some(ExternalReferenceType::BuildMeta)
    } else if str_eq(token, "build-system") {
        Some(ExternalReferenceType::BuildSystem)
    } else if str_eq(token, "other") {
        Some(ExternalReferenceType::Other)
    } else {
        None
    }
}

/// Every external reference type is read back from its own word, and a word that is read as
/// one is the word of that one.
pub proof fn lemma_external_reference_type_round_trip(
    value: ExternalReferenceType,
    token: Seq<char>,
)
    ensures
        external_reference_type_of_token(external_reference_type_token(value)) == Some(value),
        external_reference_type_of_token(token) matches Some(v) ==> external_reference_type_token(v) == token,
{
    reveal_strlit("vcs");
    reveal_strlit("issue-tracker");
    reveal_strlit("website");
    reveal_strlit("advisories");
    reveal_strlit("bom");
    reveal_strlit("mailing-list");
    reveal_strlit("social");
    reveal_strlit("chat");
    reveal_strlit("documentation");
    reveal_strlit("support");
    reveal_strlit("distribution");
    reveal_strlit("license");
    reveal_strlit("build-meta");
    reveal_strlit("build-system");
    reveal_strlit("other");
    assert("vcs"@.len() == 3);
    assert("issue-tracker"@.len() == 13);
    assert("website"@.len() == 7);
    assert("advisories"@.len() == 10);
    assert("bom"@.len() == 3);
    assert("mailing-list"@.len() == 12);
    assert("social"@.len() == 6);
    assert("chat"@.len() == 4);
    assert("documentation"@.len() == 13);
    assert("support"@.len() == 7);
    assert("distribution"@.len() == 12);
    assert("license"@.len() == 7);
    assert("build-meta"@.len() == 10);
    assert("build-system"@.len() == 12);
    assert("other"@.len() == 5);
    assert("vcs"@[0] != "bom"@[0]);
    assert("issue-tracker"@[0] != "documentation"@[0]);
    assert("website"@[0] != "support"@[0]);
    assert("website"@[0] != "license"@[0]);
    assert("advisories"@[0] != "build-meta"@[0]);
    assert("mailing-list"@[0] != "distribution"@[0]);
    assert("mailing-list"@[0] != "build-system"@[0]);
    assert("support"@[0] != "license"@[0]);
    assert("distribution"@[0] != "build-system"@[0]);
}

/// The word that stands for a hash algorithm.
pub open spec fn hash_algorithm_token(value: HashAlgorithm) -> Seq<char> {
    match value {
        HashAlgorithm::MD5 => "MD5"@,
        HashAlgorithm::SHA1 => "SHA-1"@,
        HashAlgorithm::SHA256 => "SHA-256"@,
        HashAlgorithm::SHA384 => "SHA-384"@,
        HashAlgorithm::SHA512 => "SHA-512"@,
        HashAlgorithm::SHA3_256 => "SHA3-256"@,
        HashAlgorithm::SHA3_384 => "SHA3-384"@,
        HashAlgorithm::SHA3_512 => "SHA3-512"@,
        HashAlgorithm::BLAKE2b_256 => "BLAKE2b-256"@,
        HashAlgorithm::BLAKE2b_384 => "BLAKE2b-384"@,
        HashAlgorithm::BLAKE2b_512 => "BLAKE2b-512"@,
        HashAlgorithm::BLAKE3 => "BLAKE3"@,
    }
}

/// The hash algorithm that a word stands for, if it stands for one.
pub open spec fn hash_algorithm_of_token(token: Seq<char>) -> Option<HashAlgorithm> {
    if token == "MD5"@ {
        Some(HashAlgorithm::MD5)
    } else if token == "SHA-1"@ {
        Some(HashAlgorithm::SHA1)
    } else if token == "SHA-256"@ {
        Some(HashAlgorithm::SHA256)
    } else if token == "SHA-384"@ {
        Some(HashAlgorithm::SHA384)
    } else if token == "SHA-512"@ {
        Some(HashAlgorithm::SHA512)
    } else if token == "SHA3-256"@ {
        Some(HashAlgorithm::SHA3_256)
    } else if token == "SHA3-384"@ {
        Some(HashAlgorithm::SHA3_384)
    } else if token == "SHA3-512"@ {
        Some(HashAlgorithm::SHA3_512)
    } else if token == "BLAKE2b-256"@ {
        Some(HashAlgorithm::BLAKE2b_256)
    } else if token == "BLAKE2b-384"@ {
        Some(HashAlgorithm::BLAKE2b_384)
    } else if token == "BLAKE2b-512"@ {
        Some(HashAlgorithm::BLAKE2b_512)
    } else if token == "BLAKE3"@ {
        Some(HashAlgorithm::BLAKE3)
    } else {
        None
    }
}

/// Writes the word for a hash algorithm.
pub fn hash_algorithm_to_token(value: HashAlgorithm) -> (r: String)
    ensures
        r@ == hash_algorithm_token(value),
{
    match value {
        HashAlgorithm::MD5 => "MD5".to_string(),
        HashAlgorithm::SHA1 => "SHA-1".to_string(),
        HashAlgorithm::SHA256 => "SHA-256".to_string(),
        HashAlgorithm::SHA384 => "SHA-384".to_string(),
        HashAlgorithm::SHA512 => "SHA-512".to_string(),
        HashAlgorithm::SHA3_256 => "SHA3-256".to_string(),
        HashAlgorithm::SHA3_384 => "SHA3-384".to_string(),
        HashAlgorithm::SHA3_512 => "SHA3-512".to_string(),
        HashAlgorithm::BLAKE2b_256 => "BLAKE2b-256".to_string(),
        HashAlgorithm::BLAKE2b_384 => "BLAKE2b-384".to_string(),
        HashAlgorithm::BLAKE2b_512 => "BLAKE2b-512".to_string(),
        HashAlgorithm::BLAKE3 => "BLAKE3".to_string(),
    }
}

/// Reads a word as a hash algorithm; `None` for a word outside the vocabulary.
pub fn hash_algorithm_from_token(token: &str) -> (r: Option<HashAlgorithm>)
    ensures
        r == hash_algorithm_of_token(token@),
{
    if str_eq(token, "MD5") {
        Some(HashAlgorithm::MD5)
    } else if str_eq(token, "SHA-1") {
        Some(HashAlgorithm::SHA1)
    } else if str_eq(token, "SHA-256") {
        Some(HashAlgorithm::SHA256)
    } else if str_eq(token, "SHA-384") {
        Some(HashAlgorithm::SHA384)
    } else if str_eq(token, "SHA-512") {
        Some(HashAlgorithm::SHA512)
    } else if str_eq(token, "SHA3-256") {
        Some(HashAlgorithm::SHA3_256)
    } else if str_eq(token, "SHA3-384") {
        Some(HashAlgorithm::SHA3_384)
    } else if str_eq(token, "SHA3-512") {
        Some(HashAlgorithm::SHA3_512)
    } else if str_eq(token, "BLAKE2b-256") {
        Some(HashAlgorithm::BLAKE2b_256)
    } else if str_eq(token, "BLAKE2b-384") {
        Some(HashAlgorithm::BLAKE2b_384)
    } else if str_eq(token, "BLAKE2b-512") {
        Some(HashAlgorithm::BLAKE2b_512)
    } else if str_eq(token, "BLAKE3") {
        Some(HashAlgorithm::BLAKE3)
    } else {
        None
    }
}

/// Every hash algorithm is read back from its own word, and a word that is read as
/// one is the word of that one.
pub proof fn lemma_hash_algorithm_round_trip(value: HashAlgorithm, token: Seq<char>)
    ensures
        hash_algorithm_of_token(hash_algorithm_token(value)) == Some(value),
        hash_algorithm_of_token(token) matches Some(v) ==> hash_algorithm_token(v) == token,
{
    reveal_strlit("MD5");
    reveal_strlit("SHA-1");
    reveal_strlit("SHA-256");
    reveal_strlit("SHA-384");
    reveal_strlit("SHA-512");
    reveal_strlit("SHA3-256");
    reveal_strlit("SHA3-384");
    reveal_strlit("SHA3-512");
    reveal_strlit("BLAKE2b-256");
    reveal_strlit("BLAKE2b-384");
    reveal_strlit("BLAKE2b-512");
    reveal_strlit("BLAKE3");
    assert("MD5"@.len() == 3);
    assert("SHA-1"@.len() == 5);
    assert("SHA-256"@.len() == 7);
    assert("SHA-384"@.len() == 7);
    assert("SHA-512"@.len() == 7);
    assert("SHA3-256"@.len() == 8);
    assert("SHA3-384"@.len() == 8);
    assert("SHA3-512"@.len() == 8);
    assert("BLAKE2b-256"@.len() == 11);
    assert("BLAKE2b-384"@.len() == 11);
    assert("BLAKE2b-512"@.len() == 11);
    assert("BLAKE3"@.len() == 6);
    assert("SHA-256"@[4] != "SHA-384"@[4]);
    assert("SHA-256"@[4] != "SHA-512"@[4]);
    assert("SHA-384"@[4] != "SHA-512"@[4]);
    assert("SHA3-256"@[5] != "SHA3-384"@[5]);
    assert("SHA3-256"@[5] != "SHA3-512"@[5]);
    assert("SHA3-384"@[5] != "SHA3-512"@[5]);
    assert("BLAKE2b-256"@[8] != "BLAKE2b-384"@[8]);
    assert("BLAKE2b-256"@[8] != "BLAKE2b-512"@[8]);
    assert("BLAKE2b-384"@[8] != "BLAKE2b-512"@[8]);
}

/// The word that stands for an issue classification.
pub open spec fn issue_classification_token(value: IssueClassification) -> Seq<char> {
    match value {
        IssueClassification::Defect => "defect"@,
        IssueClassification::Enhancement => "enhancement"@,
        IssueClassification::Security => "security"@,
    }
}

/// The issue classification that a word stands for, if it stands for one.
pub open spec fn issue_classification_of_token(token: Seq<char>) -> Option<IssueClassification> {
    if token == "defect"@ {
        Some(IssueClassification::Defect)
    } else if token == "enhancement"@ {
        Some(IssueClassification::Enhancement)
    } else if token == "security"@ {
        Some(IssueClassification::Security)
    } else {
        None
    }
}

/// Writes the word for an issue classification.
pub fn issue_classification_to_token(value: IssueClassification) -> (r: String)
    ensures
        r@ == issue_classification_token(value),
{
    match value {
        IssueClassification::Defect => "defect".to_string(),
        IssueClassification::Enhancement => "enhancement".to_string(),
        IssueClassification::Security => "security".to_string(),
    }
}

/// Reads a word as an issue classification; `None` for a word outside the vocabulary.
pub fn issue_classification_from_token(token: &str) -> (r: Option<IssueClassification>)
    ensures
        r == issue_classification_of_token(token@),
{
    if str_eq(token, "defect") {
        Some(IssueClassification::Defect)
    } else if str_eq(token, "enhancement") {
        Some(IssueClassification::Enhancement)
    } else if str_eq(token, "security") {
        Some(IssueClassification::Security)
    } else {
        None
    }
}

/// Every issue classification is read back from its own word, and a word that is read as
/// one is the word of that one.
pub proof fn lemma_issue_classification_round_trip(value: IssueClassification, token: Seq<char>)
    ensures
        issue_classification_of_token(issue_classification_token(value)) == Some(value),
        issue_classification_of_token(token) matches Some(v) ==> issue_classification_token(v) == token,
{
    reveal_strlit("defect");
    reveal_strlit("enhancement");
    reveal_strlit("security");
    assert("defect"@.len() == 6);
    assert("enhancement"@.len() == 11);
    assert("security"@.len() == 8);
}

/// The word that stands for a patch classification.
pub open spec fn patch_classification_token(value: PatchClassification) -> Seq<char> {
    match value {
        PatchClassification::Unofficial => "unofficial"@,
        PatchClassification::Monkey => "monkey"@,
        PatchClassification::Backport => "backport"@,
        PatchClassification::CherryPick => "cherry-pick"@,
    }
}

/// The patch classification that a word stands for, if it stands for one.
pub open spec fn patch_classification_of_token(token: Seq<char>) -> Option<PatchClassification> {
    if token == "unofficial"@ {
        Some(PatchClassification::Unofficial)
    } else if token == "monkey"@ {
        Some(PatchClassification::Monkey)
    } else if token == "backport"@ {
        Some(PatchClassification::Backport)
    } else if token == "cherry-pick"@ {
        Some(PatchClassification::CherryPick)
    } else {
        None
    }
}

/// Writes the word for a patch classification.
pub fn patch_classification_to_token(value: PatchClassification) -> (r: String)
    ensures
        r@ == patch_classification_token(value),
{
    match value {
        PatchClassification::Unofficial => "unofficial".to_string(),
        PatchClassification::Monkey => "monkey".to_string(),
        PatchClassification::Backport => "backport".to_string(),
        PatchClassification::CherryPick => "cherry-pick".to_string(),
    }
}

/// Reads a word as a patch classification; `None` for a word outside the vocabulary.
pub fn patch_classification_from_token(token: &str) -> (r: Option<PatchClassification>)
    ensures
        r == patch_classification_of_token(token@),
{
    if str_eq(token, "unofficial") {
        Some(PatchClassification::Unofficial)
    } else if str_eq(token, "monkey") {
        Some(PatchClassification::Monkey)
    } else if str_eq(token, "backport") {
        Some(PatchClassification::Backport)
    } else if str_eq(token, "cherry-pick") {
        Some(PatchClassification::CherryPick)
    } else {
        None
    }
}

/// Every patch classification is read back from its own word, and a word that is read as
/// one is the word of that one.
pub proof fn lemma_patch_classification_round_trip(value: PatchClassification, token: Seq<char>)
    ensures
        patch_classification_of_token(patch_classification_token(value)) == Some(value),
        patch_classification_of_token(token) matches Some(v) ==> patch_classification_token(v) == token,
{
    reveal_strlit("unofficial");
    reveal_strlit("monkey");
    reveal_strlit("backport");
    reveal_strlit("cherry-pick");
    assert("unofficial"@.len() == 10);
    assert("monkey"@.len() == 6);
    assert("backport"@.len() == 8);
    assert("cherry-pick"@.len() == 11);
}

/// The word that stands for a scope.
pub open spec fn scope_token(value: Scope) -> Seq<char> {
    match value {
        Scope::Required => "required"@,
        Scope::Optional => "optional"@,
        Scope::Excluded => "excluded"@,
    }
}

/// The scope that a word stands for, if it stands for one.
pub open spec fn scope_of_token(token: Seq<char>) -> Option<Scope> {
    if token == "required"@ {
        Some(Scope::Required)
    } else if token == "optional"@ {
        Some(Scope::Optional)
    } else if token == "excluded"@ {
        Some(Scope::Excluded)
    } else {
        None
    }
}

/// Writes the word for a scope.
pub fn scope_to_token(value: Scope) -> (r: String)
    ensures
        r@ == scope_token(value),
{
    match value {
        Scope::Required => "required".to_string(),
        Scope::Optional => "optional".to_string(),
        Scope::Excluded => "excluded".to_string(),
    }
}

/// Reads a word as a scope; `None` for a word outside the vocabulary.
pub fn scope_from_token(token: &str) -> (r: Option<Scope>)
    ensures
        r == scope_of_token(token@),
{
    if str_eq(token, "required") {
        Some(Scope::Required)
    } else if str_eq(token, "optional") {
        Some(Scope::Optional)
    } else if str_eq(token, "excluded") {
        Some(Scope::Excluded)
    } else {
        None
    }
}

/// Every scope is read back from its own word, and a word that is read as
/// one is the word of that one.
pub proof fn lemma_scope_round_trip(value: Scope, token: Seq<char>)
    ensures
        scope_of_token(scope_token(value)) == Some(value),
        scope_of_token(token) matches Some(v) ==> scope_token(v) == token,
{
    reveal_strlit("required");
    reveal_strlit("optional");
    reveal_strlit("excluded");
    assert("required"@.len() == 8);
    assert("optional"@.len() == 8);
    assert("excluded"@.len() == 8);
    assert("required"@[0] != "optional"@[0]);
    assert("required"@[0] != "excluded"@[0]);
    assert("optional"@[0] != "excluded"@[0]);
}

} // verus!
