use cyclonedx_bom::external_models::normalized_string::NormalizedString;
use cyclonedx_bom::external_models::spdx::SpdxIdentifier;
use cyclonedx_bom::external_models::uri::Uri;
use cyclonedx_bom::models;
use cyclonedx_bom::models::{
    AggregateType, Classification, DataFlowType, ExternalReferenceType, HashAlgorithm,
    IssueClassification, PatchClassification, Scope,
};
use cyclonedx_bom::specs::v1_3;
use cyclonedx_bom::specs::v1_3::tokens::{
    aggregate_type_from_token, aggregate_type_to_token, classification_from_token,
    classification_to_token, data_flow_type_from_token, data_flow_type_to_token,
    external_reference_type_from_token, external_reference_type_to_token,
    hash_algorithm_from_token, hash_algorithm_to_token, issue_classification_from_token,
    issue_classification_to_token, patch_classification_from_token,
    patch_classification_to_token, scope_from_token, scope_to_token,
};

fn text(s: &str) -> NormalizedString {
    NormalizedString::new(s)
}

fn left_pad() -> models::Component {
    models::Component {
        component_type: models::Classification::Library,
        mime_type: None,
        bom_ref: None,
        supplier: None,
        author: None,
        publisher: None,
        group: None,
        name: text("left-pad"),
        version: text("1.3.0"),
        description: None,
        scope: None,
        hashes: None,
        licenses: None,
        copyright: None,
        cpe: None,
        purl: None,
        swid: None,
        modified: None,
        pedigree: None,
        external_references: None,
        properties: None,
        components: None,
        evidence: None,
    }
}

fn fixed_bom() -> models::Bom {
    models::Bom {
        version: 1,
        serial_number: Some(models::UrnUuid::new_unchecked(
            "urn:uuid:3e671687-395b-41f5-a30f-a58921a69b79".to_string(),
        )),
        metadata: None,
        components: Some(vec![left_pad()]),
        services: None,
        external_references: None,
        dependencies: None,
        compositions: None,
        properties: None,
    }
}

#[test]
fn end_to_end_json_for_a_bom_with_one_component() {
    let wire = v1_3::Bom::from_canonical(&fixed_bom());
    let json = wire.to_json().expect("Failed to output BOM as JSON");
    assert_eq!(
        json,
        r#"{
  "bomFormat": "CycloneDX",
  "specVersion": "1.3",
  "version": 1,
  "serialNumber": "urn:uuid:3e671687-395b-41f5-a30f-a58921a69b79",
  "components": [
    {
      "type": "library",
      "name": "left-pad",
      "version": "1.3.0"
    }
  ]
}"#
    );
    let value: serde_json::Value = serde_json::from_str(&json).expect("the output is JSON");
    let top: Vec<&str> = value.as_object().expect("an object").keys().map(|k| k.as_str()).collect();
    assert_eq!(top.len(), 5);
    for key in ["bomFormat", "specVersion", "version", "serialNumber", "components"] {
        assert!(top.contains(&key));
    }
    let component = value["components"][0].as_object().expect("an object");
    assert_eq!(component.len(), 3);
}

#[test]
fn end_to_end_xml_for_a_bom_with_one_component() {
    let wire = v1_3::Bom::from_canonical(&fixed_bom());
    let xml = wire.to_xml().expect("Failed to output BOM as XML");
    assert_eq!(
        xml,
        r#"<?xml version="1.0" encoding="UTF-8"?>
<Bom xmlns="ns:http://cyclonedx.org/schema/bom/1.3" version="1" serialNumber="urn:uuid:3e671687-395b-41f5-a30f-a58921a69b79">
  <components>
    <component type="library">
      <name>left-pad</name>
      <version>1.3.0</version>
    </component>
  </components>
</Bom>"#
    );
    let root = xml.lines().nth(1).expect("the line of the root element");
    assert!(root.starts_with("<Bom "));
    assert!(root.contains(" xmlns=\"ns:http://cyclonedx.org/schema/bom/1.3\""));
    assert!(root.contains(" version=\"1\""));
    assert!(root.contains(" serialNumber=\"urn:uuid:3e671687-395b-41f5-a30f-a58921a69b79\""));
    assert!(!xml.contains("<version>1<"));
    assert!(!xml.contains("<serialNumber"));
}

#[test]
fn shaping_a_bom_sets_the_tag_and_the_schema_version() {
    let wire = v1_3::Bom::from_canonical(&fixed_bom());
    assert_eq!(wire.bom_format, v1_3::BomFormat::CycloneDX);
    assert_eq!(wire.spec_version, "1.3");
    assert_eq!(wire.version, Some(1));
    assert_eq!(
        wire.serial_number,
        Some("urn:uuid:3e671687-395b-41f5-a30f-a58921a69b79".to_string())
    );
    let components = wire.components.as_ref().expect("components");
    assert_eq!(components.len(), 1);
    assert_eq!(components[0].component_type, "library");
    assert_eq!(components[0].name, "left-pad");
    assert!(wire.metadata.is_none());
    assert!(wire.dependencies.is_none());
}

#[test]
fn a_bom_comes_back_from_its_shape() {
    let bom = fixed_bom();
    let back = v1_3::Bom::from_canonical(&bom).to_canonical().expect("a well-formed shape");
    assert_eq!(back, bom);
}

fn rich_component() -> models::Component {
    models::Component {
        component_type: models::Classification::OperatingSystem,
        mime_type: Some(models::MimeType::new_unchecked("text/plain".to_string())),
        bom_ref: Some("ref-1".to_string()),
        supplier: Some(models::OrganizationalEntity {
            name: Some(text("ACME")),
            url: Some(vec![Uri::new_unchecked("https://example.com".to_string())]),
            contact: Some(vec![models::OrganizationalContact {
                name: Some(text("Jo")),
                email: None,
                phone: Some(text("0")),
            }]),
        }),
        author: Some(text("author")),
        publisher: None,
        group: Some(text("group")),
        name: text("name"),
        version: text("1"),
        description: None,
        scope: Some(models::Scope::Excluded),
        hashes: Some(vec![models::Hash {
            alg: models::HashAlgorithm::SHA3_256,
            value: models::HashValue::new_unchecked("00ff".to_string()),
        }]),
        licenses: Some(vec![
            models::LicenseChoice::Expression(Some(text("MIT OR Apache-2.0"))),
            models::LicenseChoice::License(Some(vec![models::License {
                license_identifier: models::LicenseIdentifier::SpdxId(
                    SpdxIdentifier::new_unchecked("MIT".to_string()),
                ),
                text: Some(models::AttachedText::new(Some(text("text/plain")), b"license")),
                url: None,
            }])),
            models::LicenseChoice::License(None),
        ]),
        copyright: Some(text("(c)")),
        cpe: Some(models::Cpe::new_unchecked("cpe:/a:b:c".to_string())),
        purl: None,
        swid: Some(models::Swid {
            tag_id: "tag".to_string(),
            name: "swid".to_string(),
            version: None,
            tag_version: Some(3),
            patch: Some(false),
            text: Some(models::AttachedText {
                content_type: None,
                encoding: Some(models::Encoding::UnknownEncoding("hex".to_string())),
                content: "00".to_string(),
            }),
            url: None,
        }),
        modified: Some(false),
        pedigree: Some(models::Pedigree {
            ancestors: Some(vec![left_pad()]),
            decendants: None,
            variants: Some(vec![]),
            commits: Some(vec![models::Commit {
                uid: Some(text("abc")),
                url: None,
                author: Some(models::IdentifiableAction {
                    timestamp: Some(models::DateTime::new_unchecked(
                        "2022-03-01T12:00:00Z".to_string(),
                    )),
                    name: None,
                    email: None,
                }),
                committer: None,
                message: None,
            }]),
            patches: Some(vec![models::Patch {
                patch_type: models::PatchClassification::CherryPick,
                diff: models::Diff { text: None, url: None },
                resolves: Some(vec![models::Issue {
                    issue_type: models::IssueClassification::Security,
                    id: None,
                    name: None,
                    description: None,
                    source: Some(models::Source { name: None, url: None }),
                    references: None,
                }]),
            }]),
            notes: Some("notes".to_string()),
        }),
        external_references: Some(vec![models::ExternalReference {
            external_reference_type: models::ExternalReferenceType::IssueTracker,
            url: Uri::new_unchecked("https://example.com/issues".to_string()),
            comment: None,
            hashes: None,
        }]),
        properties: Some(models::Properties(vec![models::Property {
            name: "k".to_string(),
            value: text("v"),
        }])),
        components: Some(vec![left_pad(), left_pad()]),
        evidence: Some(models::ComponentEvidence {
            licenses: None,
            copyright: Some(vec![models::Copyright(vec!["c1".to_string(), "c2".to_string()])]),
        }),
    }
}

fn rich_bom() -> models::Bom {
    models::Bom {
        version: 7,
        serial_number: None,
        metadata: Some(models::Metadata {
            timestamp: Some(models::DateTime::new_unchecked("2022-03-01T12:00:00Z".to_string())),
            tools: Some(vec![models::Tool { vendor: None, name: Some(text("tool")), version: None, hashes: None }]),
            authors: None,
            component: Some(left_pad()),
            manufacture: None,
            supplier: None,
            licenses: None,
            properties: None,
        }),
        components: Some(vec![rich_component()]),
        services: Some(vec![models::Service {
            bom_ref: None,
            provider: None,
            group: None,
            name: text("svc"),
            version: None,
            description: None,
            endpoints: Some(vec![Uri::new_unchecked("https://example.com/api".to_string())]),
            authenticated: Some(true),
            x_trust_boundary: None,
            data: Some(vec![models::DataClassification {
                flow: models::DataFlowType::BiDirectional,
                classification: text("PII"),
            }]),
            licenses: None,
            external_references: None,
            properties: None,
            services: Some(vec![models::Service {
                bom_ref: None,
                provider: None,
                group: None,
                name: text("inner"),
                version: None,
                description: None,
                endpoints: None,
                authenticated: None,
                x_trust_boundary: None,
                data: None,
                licenses: None,
                external_references: None,
                properties: None,
                services: None,
            }]),
        }]),
        external_references: None,
        dependencies: Some(vec![
            models::Dependency {
                dependency_ref: "a".to_string(),
                dependencies: vec![
                    models::Dependency { dependency_ref: "b".to_string(), dependencies: vec![] },
                    models::Dependency { dependency_ref: "c".to_string(), dependencies: vec![] },
                ],
            },
            models::Dependency { dependency_ref: "b".to_string(), dependencies: vec![] },
        ]),
        compositions: Some(vec![models::Composition {
            aggregate: models::AggregateType::IncompleteFirstPartyOnly,
            assemblies: Some(vec![models::BomReference("a".to_string())]),
            dependencies: None,
        }]),
        properties: Some(models::Properties(vec![])),
    }
}

#[test]
fn a_rich_bom_comes_back_from_its_shape() {
    let bom = rich_bom();
    let wire = v1_3::Bom::from_canonical(&bom);
    let component = &wire.components.as_ref().expect("components")[0];
    assert_eq!(component.component_type, "operating-system");
    assert_eq!(component.scope, Some("excluded".to_string()));
    assert_eq!(component.hashes.as_ref().expect("hashes")[0].alg, "SHA3-256");
    assert_eq!(component.pedigree.as_ref().expect("pedigree").descendants, None);
    assert_eq!(
        wire.compositions.as_ref().expect("compositions")[0].aggregate,
        "incomplete_first_party_only"
    );
    assert_eq!(wire.services.as_ref().expect("services")[0].data.as_ref().expect("data")[0].flow, "bi-directional");
    assert_eq!(
        wire.dependencies.as_ref().expect("dependencies")[0].depends_on,
        vec!["b".to_string(), "c".to_string()]
    );
    let back = wire.to_canonical().expect("a well-formed shape");
    assert_eq!(back, bom);
    assert_eq!(v1_3::Bom::from_canonical(&back), wire);
}

#[test]
fn a_list_of_licenses_becomes_one_entry_for_each_license() {
    let two = models::LicenseChoice::License(Some(vec![
        models::License {
            license_identifier: models::LicenseIdentifier::Name(text("first")),
            text: None,
            url: None,
        },
        models::License {
            license_identifier: models::LicenseIdentifier::Name(text("second")),
            text: None,
            url: None,
        },
    ]));
    let choices = Some(vec![
        two,
        models::LicenseChoice::License(Some(vec![])),
        models::LicenseChoice::Expression(None),
    ]);
    let wire = v1_3::LicenseChoice::list_from_canonical(&choices).expect("a list");
    assert_eq!(
        wire,
        vec![
            v1_3::LicenseChoice::License(Some(v1_3::License {
                license_identifier: v1_3::LicenseIdentifier::Name("first".to_string()),
                text: None,
                url: None,
            })),
            v1_3::LicenseChoice::License(Some(v1_3::License {
                license_identifier: v1_3::LicenseIdentifier::Name("second".to_string()),
                text: None,
                url: None,
            })),
            v1_3::LicenseChoice::Expression(None),
        ]
    );
    let back = v1_3::LicenseChoice::list_to_canonical(&Some(wire)).expect("a list");
    assert_eq!(back.len(), 3);
    assert_eq!(
        back[0],
        models::LicenseChoice::License(Some(vec![models::License {
            license_identifier: models::LicenseIdentifier::Name(NormalizedString::new_unchecked(
                "first".to_string()
            )),
            text: None,
            url: None,
        }]))
    );
    assert_eq!(v1_3::LicenseChoice::list_from_canonical(&None), None);
    assert_eq!(v1_3::LicenseChoice::list_to_canonical(&None), None);
}

#[test]
fn dependencies_below_the_first_level_are_not_carried() {
    let deep = models::Dependency {
        dependency_ref: "a".to_string(),
        dependencies: vec![models::Dependency {
            dependency_ref: "b".to_string(),
            dependencies: vec![models::Dependency {
                dependency_ref: "c".to_string(),
                dependencies: vec![],
            }],
        }],
    };
    let wire = v1_3::Dependency::from_canonical(&deep);
    assert_eq!(
        wire,
        v1_3::Dependency { dependency_ref: "a".to_string(), depends_on: vec!["b".to_string()] }
    );
    assert_eq!(
        wire.to_canonical(),
        models::Dependency {
            dependency_ref: "a".to_string(),
            dependencies: vec![models::Dependency {
                dependency_ref: "b".to_string(),
                dependencies: vec![],
            }],
        }
    );
}

#[test]
fn a_word_outside_the_vocabulary_is_refused() {
    let mut wire = v1_3::Bom::from_canonical(&rich_bom());
    assert!(wire.to_canonical().is_some());
    wire.components.as_mut().expect("components")[0].component_type = "gadget".to_string();
    assert_eq!(wire.to_canonical(), None);

    let mut wire = v1_3::Bom::from_canonical(&rich_bom());
    wire.components.as_mut().expect("components")[0].pedigree.as_mut().expect("pedigree").ancestors.as_mut().expect("ancestors")[0].scope = Some("sometimes".to_string());
    assert_eq!(wire.to_canonical(), None);

    let hash = cyclonedx_bom::specs::v1_3::Hash {
        alg: "sha-256".to_string(),
        content: v1_3::HashValue("00".to_string()),
    };
    assert_eq!(hash.to_canonical(), None);
    let hash = cyclonedx_bom::specs::v1_3::Hash {
        alg: "SHA-256".to_string(),
        content: v1_3::HashValue("00".to_string()),
    };
    assert_eq!(
        hash.to_canonical(),
        Some(models::Hash {
            alg: models::HashAlgorithm::SHA256,
            value: models::HashValue::new_unchecked("00".to_string()),
        })
    );
}

#[test]
fn a_shape_without_a_version_stands_for_version_one() {
    let wire = v1_3::Bom {
        bom_format: v1_3::BomFormat::CycloneDX,
        spec_version: "1.3".to_string(),
        version: None,
        serial_number: None,
        metadata: None,
        components: None,
        services: None,
        external_references: None,
        dependencies: None,
        compositions: None,
        properties: None,
    };
    let bom = wire.to_canonical().expect("a well-formed shape");
    assert_eq!(bom.version, 1);
    assert_eq!(bom.serial_number, None);
}

#[test]
fn attached_text_converts_by_value() {
    let canonical = models::AttachedText::new(Some(text("text/plain")), b"this text is plain");
    let wire = v1_3::AttachedText::from(canonical);
    assert_eq!(
        wire,
        v1_3::AttachedText {
            content_type: Some("text/plain".to_string()),
            encoding: Some("base64".to_string()),
            content: "dGhpcyB0ZXh0IGlzIHBsYWlu".to_string(),
        }
    );
    let back = models::AttachedText::from(wire);
    assert_eq!(back, models::AttachedText::new(Some(text("text/plain")), b"this text is plain"));
    let other = models::AttachedText::from(v1_3::AttachedText {
        content_type: Some("a\tb".to_string()),
        encoding: Some("gzip".to_string()),
        content: "x".to_string(),
    });
    assert_eq!(other.encoding, Some(models::Encoding::UnknownEncoding("gzip".to_string())));
    assert_eq!(other.content_type.expect("a content type").to_string(), "a\tb");
    assert_eq!(v1_3::BomReference::from(models::BomReference("r".to_string())), v1_3::BomReference("r".to_string()));
    assert_eq!(models::BomReference::from(v1_3::BomReference("r".to_string())), models::BomReference("r".to_string()));
}

#[test]
fn every_word_of_every_vocabulary_is_read_back() {
    let aggregates = [
        (AggregateType::Complete, "complete"),
        (AggregateType::Incomplete, "incomplete"),
        (AggregateType::IncompleteFirstPartyOnly, "incomplete_first_party_only"),
        (AggregateType::IncompleteThirdPartyOnly, "incomplete_third_party_only"),
        (AggregateType::Unknown, "unknown"),
        (AggregateType::NotSpecified, "not_specified"),
    ];
    for (value, word) in aggregates {
        assert_eq!(aggregate_type_to_token(value), word);
        assert_eq!(aggregate_type_from_token(word), Some(value));
    }
    let classifications = [
        (Classification::Application, "application"),
        (Classification::Framework, "framework"),
        (Classification::Library, "library"),
        (Classification::Container, "container"),
        (Classification::OperatingSystem, "operating-system"),
        (Classification::Device, "device"),
        (Classification::Firmware, "firmware"),
        (Classification::File, "file"),
    ];
    for (value, word) in classifications {
        assert_eq!(classification_to_token(value), word);
        assert_eq!(classification_from_token(word), Some(value));
    }
    let flows = [
        (DataFlowType::Inbound, "inbound"),
        (DataFlowType::Outbound, "outbound"),
        (DataFlowType::BiDirectional, "bi-directional"),
        (DataFlowType::Unknown, "unknown"),
    ];
    for (value, word) in flows {
        assert_eq!(data_flow_type_to_token(value), word);
        assert_eq!(data_flow_type_from_token(word), Some(value));
    }
    let references = [
        (ExternalReferenceType::Vcs, "vcs"),
        (ExternalReferenceType::IssueTracker, "issue-tracker"),
        (ExternalReferenceType::Website, "website"),
        (ExternalReferenceType::Advisories, "advisories"),
        (ExternalReferenceType::Bom, "bom"),
        (ExternalReferenceType::MailingList, "mailing-list"),
        (ExternalReferenceType::Social, "social"),
        (ExternalReferenceType::Chat, "chat"),
        (ExternalReferenceType::Documentation, "documentation"),
        (ExternalReferenceType::Support, "support"),
        (ExternalReferenceType::Distribution, "distribution"),
        (ExternalReferenceType::License, "license"),
        (ExternalReferenceType::BuildMeta, "build-meta"),
        (ExternalReferenceType::BuildSystem, "build-system"),
        (ExternalReferenceType::Other, "other"),
    ];
    for (value, word) in references {
        assert_eq!(external_reference_type_to_token(value), word);
        assert_eq!(external_reference_type_from_token(word), Some(value));
    }
    let algorithms = [
        (HashAlgorithm::MD5, "MD5"),
        (HashAlgorithm::SHA1, "SHA-1"),
        (HashAlgorithm::SHA256, "SHA-256"),
        (HashAlgorithm::SHA384, "SHA-384"),
        (HashAlgorithm::SHA512, "SHA-512"),
        (HashAlgorithm::SHA3_256, "SHA3-256"),
        (HashAlgorithm::SHA3_384, "SHA3-384"),
        (HashAlgorithm::SHA3_512, "SHA3-512"),
        (HashAlgorithm::BLAKE2b_256, "BLAKE2b-256"),
        (HashAlgorithm::BLAKE2b_384, "BLAKE2b-384"),
        (HashAlgorithm::BLAKE2b_512, "BLAKE2b-512"),
        (HashAlgorithm::BLAKE3, "BLAKE3"),
    ];
    for (value, word) in algorithms {
        assert_eq!(hash_algorithm_to_token(value), word);
        assert_eq!(hash_algorithm_from_token(word), Some(value));
    }
    let issues = [
        (IssueClassification::Defect, "defect"),
        (IssueClassification::Enhancement, "enhancement"),
        (IssueClassification::Security, "security"),
    ];
    for (value, word) in issues {
        assert_eq!(issue_classification_to_token(value), word);
        assert_eq!(issue_classification_from_token(word), Some(value));
    }
    let patches = [
        (PatchClassification::Unofficial, "unofficial"),
        (PatchClassification::Monkey, "monkey"),
        (PatchClassification::Backport, "backport"),
        (PatchClassification::CherryPick, "cherry-pick"),
    ];
    for (value, word) in patches {
        assert_eq!(patch_classification_to_token(value), word);
        assert_eq!(patch_classification_from_token(word), Some(value));
    }
    let scopes = [
        (Scope::Required, "required"),
        (Scope::Optional, "optional"),
        (Scope::Excluded, "excluded"),
    ];
    for (value, word) in scopes {
        assert_eq!(scope_to_token(value), word);
        assert_eq!(scope_from_token(word), Some(value));
    }
    for word in ["", "Library", "library ", "sha-1", "Required", "bi_directional"] {
        assert_eq!(classification_from_token(word).filter(|_| word != "library"), None);
        assert_eq!(scope_from_token(word), None);
        assert_eq!(hash_algorithm_from_token(word), None);
        assert_eq!(data_flow_type_from_token(word), None);
    }
}
