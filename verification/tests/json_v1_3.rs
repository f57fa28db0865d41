use cyclonedx_bom::specs::v1_3::{
    AttachedText, Bom, BomFormat, BomReference, Commit, Component, ComponentEvidence,
    Composition, Copyright, Cpe, DataClassification, Dependency, Diff, ExternalReference,
    HashValue, IdentifiableAction, Issue, License, LicenseChoice, LicenseIdentifier, Metadata,
    MimeType, OrganizationalContact, OrganizationalEntity, Patch, Pedigree, Properties, Property,
    Service, Source, Swid, Tool,
};

fn contact() -> OrganizationalContact {
    OrganizationalContact {
        name: Some("name".to_string()),
        email: Some("email".to_string()),
        phone: Some("phone".to_string()),
    }
}

fn entity() -> OrganizationalEntity {
    OrganizationalEntity {
        name: Some("name".to_string()),
        url: Some(vec!["url".to_string()]),
        contact: Some(vec![contact()]),
    }
}

fn attached_text(content: &str) -> AttachedText {
    AttachedText {
        content_type: Some("content type".to_string()),
        encoding: Some("encoding".to_string()),
        content: content.to_string(),
    }
}

fn action() -> IdentifiableAction {
    IdentifiableAction {
        timestamp: Some("timestamp".to_string()),
        name: Some("name".to_string()),
        email: Some("email".to_string()),
    }
}

fn external_reference() -> ExternalReference {
    ExternalReference {
        external_reference_type: "external reference type".to_string(),
        url: "url".to_string(),
        comment: Some("comment".to_string()),
        hashes: Some(vec![]),
    }
}

fn property() -> Property {
    Property { name: "property name".to_string(), value: "property value".to_string() }
}

fn minimal_bom() -> Bom {
    Bom {
        bom_format: BomFormat::CycloneDX,
        spec_version: "1.3".to_string(),
        version: Some(1),
        serial_number: Some("fake-uuid".to_string()),
        metadata: None,
        components: None,
        services: None,
        external_references: None,
        dependencies: None,
        compositions: None,
        properties: None,
    }
}

const MINIMAL_JSON: &str = r#"{
  "bomFormat": "CycloneDX",
  "specVersion": "1.3",
  "version": 1,
  "serialNumber": "fake-uuid"
}"#;

#[test]
fn v1_3_it_should_serialize_to_json() {
    let actual = minimal_bom();

    assert_eq!(actual.to_json().expect("Failed to output BOM as JSON"), MINIMAL_JSON);
}

#[test]
fn mod_it_should_serialize_to_json() {
    let actual = Bom {
        version: Some(1),
        serial_number: Some("fake-uuid".to_string()),
        ..minimal_bom()
    };

    assert_eq!(actual.to_json().expect("Failed to output BOM as JSON"), MINIMAL_JSON);
}

fn complex_bom() -> Bom {
    Bom {
        bom_format: BomFormat::CycloneDX,
        spec_version: "1.3".to_string(),
        version: Some(1),
        serial_number: Some("fake-uuid".to_string()),
        metadata: Some(Metadata {
            timestamp: Some("time".to_string()),
            tools: Some(vec![Tool {
                vendor: Some("vendor".to_string()),
                name: Some("name".to_string()),
                version: Some("version".to_string()),
                hashes: Some(vec![cyclonedx_bom::specs::v1_3::Hash {
                    alg: "hash algorithm".to_string(),
                    content: HashValue("hash value".to_string()),
                }]),
            }]),
            authors: Some(vec![contact()]),
            component: None,
            manufacture: Some(entity()),
            supplier: Some(entity()),
            licenses: Some(vec![LicenseChoice::License(Some(License {
                license_identifier: LicenseIdentifier::Name("MIT".to_string()),
                text: Some(attached_text("legal document")),
                url: Some("url".to_string()),
            }))]),
            properties: Some(Properties(vec![property()])),
        }),
        components: Some(vec![Component {
            component_type: "component type".to_string(),
            mime_type: Some(MimeType("mime type".to_string())),
            bom_ref: Some("bom ref".to_string()),
            supplier: Some(entity()),
            author: Some("author".to_string()),
            publisher: Some("publisher".to_string()),
            group: Some("group".to_string()),
            name: "name".to_string(),
            version: "version".to_string(),
            description: Some("description".to_string()),
            scope: Some("scope".to_string()),
            hashes: Some(vec![cyclonedx_bom::specs::v1_3::Hash {
                alg: "algorithm".to_string(),
                content: HashValue("hash value".to_string()),
            }]),
            licenses: Some(vec![LicenseChoice::Expression(Some(
                "license expression".to_string(),
            ))]),
            copyright: Some("copyright".to_string()),
            cpe: Some(Cpe("cpe".to_string())),
            purl: Some("purl".to_string()),
            swid: Some(Swid {
                tag_id: "tag ID".to_string(),
                name: "name".to_string(),
                version: Some("version".to_string()),
                tag_version: Some(1),
                patch: Some(true),
                text: Some(attached_text("content")),
                url: Some("url".to_string()),
            }),
            modified: Some(true),
            pedigree: Some(Pedigree {
                ancestors: Some(vec![]),
                descendants: Some(vec![]),
                variants: Some(vec![]),
                commits: Some(vec![Commit {
                    uid: Some("uid".to_string()),
                    url: Some("url".to_string()),
                    author: Some(action()),
                    committer: Some(action()),
                    message: Some("message".to_string()),
                }]),
                patches: Some(vec![Patch {
                    patch_type: "patch type".to_string(),
                    diff: Diff { text: Some(attached_text("content")), url: Some("url".to_string()) },
                    resolves: Some(vec![Issue {
                        issue_type: "issue type".to_string(),
                        id: Some("id".to_string()),
                        name: Some("name".to_string()),
                        description: Some("description".to_string()),
                        source: Some(Source {
                            name: Some("name".to_string()),
                            url: Some("url".to_string()),
                        }),
                        references: Some(vec!["reference".to_string()]),
                    }]),
                }]),
                notes: Some("notes".to_string()),
            }),
            external_references: Some(vec![external_reference()]),
            properties: Some(Properties(vec![property()])),
            components: Some(vec![]),
            evidence: Some(ComponentEvidence {
                licenses: Some(vec![]),
                copyright: Some(vec![Copyright(vec!["copyright".to_string()])]),
            }),
        }]),
        services: Some(vec![Service {
            bom_ref: Some("bom ref".to_string()),
            provider: Some(entity()),
            group: Some("group".to_string()),
            name: "name".to_string(),
            version: Some("version".to_string()),
            description: Some("description".to_string()),
            endpoints: Some(vec!["endpoint".to_string()]),
            authenticated: Some(true),
            x_trust_boundary: Some(true),
            data: Some(vec![DataClassification {
                flow: "flow".to_string(),
                classification: "value".to_string(),
            }]),
            licenses: Some(vec![]),
            external_references: Some(vec![]),
            properties: Some(Properties(vec![])),
            services: Some(vec![]),
        }]),
        external_references: Some(vec![external_reference()]),
        dependencies: Some(vec![Dependency {
            dependency_ref: "dependency ref".to_string(),
            depends_on: vec!["depends on".to_string()],
        }]),
        compositions: Some(vec![Composition {
            aggregate: "aggregate".to_string(),
            assemblies: Some(vec![BomReference("bom reference".to_string())]),
            dependencies: Some(vec![BomReference("bom reference".to_string())]),
        }]),
        properties: Some(Properties(vec![property()])),
    }
}

#[test]
fn it_should_serialize_a_complex_example_to_json() {
    let actual = complex_bom();

    let text = actual.to_json().expect("Failed to output BOM as JSON");
    let expected = include_complex_json();
    assert_eq!(text, expected);
}

fn include_complex_json() -> String {
    let entity = r#"{
  "name": "name",
  "url": [
    "url"
  ],
  "contact": [
    {
      "name": "name",
      "email": "email",
      "phone": "phone"
    }
  ]
}"#;
    let external_reference = r#"{
  "type": "external reference type",
  "url": "url",
  "comment": "comment",
  "hashes": []
}"#;
    let properties = r#"[
  {
    "name": "property name",
    "value": "property value"
  }
]"#;
    let action = r#"{
  "timestamp": "timestamp",
  "name": "name",
  "email": "email"
}"#;
    let text = |content: &str| {
        format!(
            "{{\n  \"contentType\": \"content type\",\n  \"encoding\": \"encoding\",\n  \"content\": \"{}\"\n}}",
            content
        )
    };
    let at = |level: usize, block: &str| block.replace('\n', &format!("\n{}", "  ".repeat(level)));
    let mut s = String::new();
    s += "{\n";
    s += "  \"bomFormat\": \"CycloneDX\",\n";
    s += "  \"specVersion\": \"1.3\",\n";
    s += "  \"version\": 1,\n";
    s += "  \"serialNumber\": \"fake-uuid\",\n";
    s += "  \"metadata\": {\n";
    s += "    \"timestamp\": \"time\",\n";
    s += "    \"tools\": [\n";
    s += "      {\n";
    s += "        \"vendor\": \"vendor\",\n";
    s += "        \"name\": \"name\",\n";
    s += "        \"version\": \"version\",\n";
    s += "        \"hashes\": [\n";
    s += "          {\n";
    s += "            \"alg\": \"hash algorithm\",\n";
    s += "            \"content\": \"hash value\"\n";
    s += "          }\n";
    s += "        ]\n";
    s += "      }\n";
    s += "    ],\n";
    s += "    \"authors\": [\n";
    s += "      {\n";
    s += "        \"name\": \"name\",\n";
    s += "        \"email\": \"email\",\n";
    s += "        \"phone\": \"phone\"\n";
    s += "      }\n";
    s += "    ],\n";
    s += &format!("    \"manufacture\": {},\n", at(2, entity));
    s += &format!("    \"supplier\": {},\n", at(2, entity));
    s += "    \"licenses\": [\n";
    s += "      {\n";
    s += "        \"license\": {\n";
    s += "          \"name\": \"MIT\",\n";
    s += &format!("          \"text\": {},\n", at(5, &text("legal document")));
    s += "          \"url\": \"url\"\n";
    s += "        }\n";
    s += "      }\n";
    s += "    ],\n";
    s += &format!("    \"properties\": {}\n", at(2, properties));
    s += "  },\n";
    s += "  \"components\": [\n";
    s += "    {\n";
    s += "      \"type\": \"component type\",\n";
    s += "      \"mime-type\": \"mime type\",\n";
    s += "      \"bom-ref\": \"bom ref\",\n";
    s += &format!("      \"supplier\": {},\n", at(3, entity));
    s += "      \"author\": \"author\",\n";
    s += "      \"publisher\": \"publisher\",\n";
    s += "      \"group\": \"group\",\n";
    s += "      \"name\": \"name\",\n";
    s += "      \"version\": \"version\",\n";
    s += "      \"description\": \"description\",\n";
    s += "      \"scope\": \"scope\",\n";
    s += "      \"hashes\": [\n";
    s += "        {\n";
    s += "          \"alg\": \"algorithm\",\n";
    s += "          \"content\": \"hash value\"\n";
    s += "        }\n";
    s += "      ],\n";
    s += "      \"licenses\": [\n";
    s += "        {\n";
    s += "          \"expression\": \"license expression\"\n";
    s += "        }\n";
    s += "      ],\n";
    s += "      \"copyright\": \"copyright\",\n";
    s += "      \"cpe\": \"cpe\",\n";
    s += "      \"purl\": \"purl\",\n";
    s += "      \"swid\": {\n";
    s += "        \"tagId\": \"tag ID\",\n";
    s += "        \"name\": \"name\",\n";
    s += "        \"version\": \"version\",\n";
    s += "        \"tagVersion\": 1,\n";
    s += "        \"patch\": true,\n";
    s += &format!("        \"text\": {},\n", at(4, &text("content")));
    s += "        \"url\": \"url\"\n";
    s += "      },\n";
    s += "      \"modified\": true,\n";
    s += "      \"pedigree\": {\n";
    s += "        \"ancestors\": [],\n";
    s += "        \"descendants\": [],\n";
    s += "        \"variants\": [],\n";
    s += "        \"commits\": [\n";
    s += "          {\n";
    s += "            \"uid\": \"uid\",\n";
    s += "            \"url\": \"url\",\n";
    s += &format!("            \"author\": {},\n", at(6, action));
    s += &format!("            \"committer\": {},\n", at(6, action));
    s += "            \"message\": \"message\"\n";
    s += "          }\n";
    s += "        ],\n";
    s += "        \"patches\": [\n";
    s += "          {\n";
    s += "            \"type\": \"patch type\",\n";
    s += "            \"diff\": {\n";
    s += &format!("              \"text\": {},\n", at(7, &text("content")));
    s += "              \"url\": \"url\"\n";
    s += "            },\n";
    s += "            \"resolves\": [\n";
    s += "              {\n";
    s += "                \"type\": \"issue type\",\n";
    s += "                \"id\": \"id\",\n";
    s += "                \"name\": \"name\",\n";
    s += "                \"description\": \"description\",\n";
    s += "                \"source\": {\n";
    s += "                  \"name\": \"name\",\n";
    s += "                  \"url\": \"url\"\n";
    s += "                },\n";
    s += "                \"references\": [\n";
    s += "                  \"reference\"\n";
    s += "                ]\n";
    s += "              }\n";
    s += "            ]\n";
    s += "          }\n";
    s += "        ],\n";
    s += "        \"notes\": \"notes\"\n";
    s += "      },\n";
    s += &format!("      \"externalReferences\": [\n        {}\n      ],\n", at(4, external_reference));
    s += &format!("      \"properties\": {},\n", at(3, properties));
    s += "      \"components\": [],\n";
    s += "      \"evidence\": {\n";
    s += "        \"licenses\": [],\n";
    s += "        \"copyright\": [\n";
    s += "          [\n";
    s += "            \"copyright\"\n";
    s += "          ]\n";
    s += "        ]\n";
    s += "      }\n";
    s += "    }\n";
    s += "  ],\n";
    s += "  \"services\": [\n";
    s += "    {\n";
    s += "      \"bom-ref\": \"bom ref\",\n";
    s += &format!("      \"provider\": {},\n", at(3, entity));
    s += "      \"group\": \"group\",\n";
    s += "      \"name\": \"name\",\n";
    s += "      \"version\": \"version\",\n";
    s += "      \"description\": \"description\",\n";
    s += "      \"endpoints\": [\n";
    s += "        \"endpoint\"\n";
    s += "      ],\n";
    s += "      \"authenticated\": true,\n";
    s += "      \"x-trust-boundary\": true,\n";
    s += "      \"data\": [\n";
    s += "        {\n";
    s += "          \"flow\": \"flow\",\n";
    s += "          \"classification\": \"value\"\n";
    s += "        }\n";
    s += "      ],\n";
    s += "      \"licenses\": [],\n";
    s += "      \"externalReferences\": [],\n";
    s += "      \"properties\": [],\n";
    s += "      \"services\": []\n";
    s += "    }\n";
    s += "  ],\n";
    s += &format!("  \"externalReferences\": [\n    {}\n  ],\n", at(2, external_reference));
    s += "  \"dependencies\": [\n";
    s += "    {\n";
    s += "      \"ref\": \"dependency ref\",\n";
    s += "      \"dependsOn\": [\n";
    s += "        \"depends on\"\n";
    s += "      ]\n";
    s += "    }\n";
    s += "  ],\n";
    s += "  \"compositions\": [\n";
    s += "    {\n";
    s += "      \"aggregate\": \"aggregate\",\n";
    s += "      \"assemblies\": [\n";
    s += "        \"bom reference\"\n";
    s += "      ],\n";
    s += "      \"dependencies\": [\n";
    s += "        \"bom reference\"\n";
    s += "      ]\n";
    s += "    }\n";
    s += "  ],\n";
    s += &format!("  \"properties\": {}\n", at(1, properties));
    s += "}";
    s
}

#[test]
fn complex_example_is_the_json_that_serde_json_reads() {
    let text = complex_bom().to_json().expect("Failed to output BOM as JSON");
    let value: serde_json::Value = serde_json::from_str(&text).expect("the output is JSON");
    assert_eq!(value["bomFormat"], serde_json::Value::String("CycloneDX".to_string()));
    assert_eq!(value["metadata"]["tools"][0]["hashes"][0]["alg"].as_str(), Some("hash algorithm"));
    assert_eq!(value["components"][0]["swid"]["tagVersion"].as_u64(), Some(1));
    assert_eq!(value["components"][0]["pedigree"]["ancestors"].as_array().map(|a| a.len()), Some(0));
    assert_eq!(value["services"][0]["x-trust-boundary"].as_bool(), Some(true));
    assert_eq!(value["dependencies"][0]["dependsOn"][0].as_str(), Some("depends on"));
    assert_eq!(value["components"][0]["evidence"]["copyright"][0][0].as_str(), Some("copyright"));
    let keys: Vec<&String> = value.as_object().expect("an object").keys().collect();
    assert_eq!(keys.len(), 11);
}

#[test]
fn it_should_handle_licenses_correctly() {
    let actual = vec![
        LicenseChoice::Expression(Some("expression".to_string())),
        LicenseChoice::License(Some(License {
            license_identifier: LicenseIdentifier::SpdxId("id".to_string()),
            text: Some(attached_text("content")),
            url: Some("url".to_string()),
        })),
        LicenseChoice::License(Some(License {
            license_identifier: LicenseIdentifier::Name("name".to_string()),
            text: Some(attached_text("content")),
            url: Some("url".to_string()),
        })),
    ];

    let json = LicenseChoice::list_to_json_value(&Some(actual)).expect("a list that is there");
    assert_eq!(
        json.to_string_pretty(),
        r#"[
  {
    "expression": "expression"
  },
  {
    "license": {
      "id": "id",
      "text": {
        "contentType": "content type",
        "encoding": "encoding",
        "content": "content"
      },
      "url": "url"
    }
  },
  {
    "license": {
      "name": "name",
      "text": {
        "contentType": "content type",
        "encoding": "encoding",
        "content": "content"
      },
      "url": "url"
    }
  }
]"#
    );
}

#[test]
fn absent_parts_leave_no_key_and_no_null() {
    let bom = Bom { version: None, serial_number: None, ..minimal_bom() };
    let text = bom.to_json().expect("Failed to output BOM as JSON");
    assert_eq!(text, "{\n  \"bomFormat\": \"CycloneDX\",\n  \"specVersion\": \"1.3\"\n}");
    assert!(!text.contains("null"));

    let component = Component {
        component_type: "library".to_string(),
        mime_type: None,
        bom_ref: None,
        supplier: None,
        author: None,
        publisher: None,
        group: None,
        name: "left-pad".to_string(),
        version: "1.3.0".to_string(),
        description: None,
        scope: None,
        hashes: None,
        licenses: None,
        copyright: None,
        cpe: None,
        purl: None,
        swid: None,
        modified: None,
        pedigree: None,
        external_references: None,
        properties: None,
        components: None,
        evidence: None,
    };
    assert_eq!(
        component.to_json_value().to_string_pretty(),
        "{\n  \"type\": \"library\",\n  \"name\": \"left-pad\",\n  \"version\": \"1.3.0\"\n}"
    );
    let empty = LicenseChoice::License(None);
    assert_eq!(empty.to_json_value().to_string_pretty(), "{}");
    let service = Service {
        bom_ref: None,
        provider: None,
        group: None,
        name: "api".to_string(),
        version: None,
        description: None,
        endpoints: None,
        authenticated: None,
        x_trust_boundary: None,
        data: None,
        licenses: None,
        external_references: None,
        properties: None,
        services: None,
    };
    assert_eq!(service.to_json_value().to_string_pretty(), "{\n  \"name\": \"api\"\n}");
}

#[test]
fn an_empty_list_is_written_and_an_absent_one_is_not() {
    let with_empty = Bom { components: Some(vec![]), ..minimal_bom() };
    let text = with_empty.to_json().expect("Failed to output BOM as JSON");
    assert!(text.contains("\"components\": []"));
    let without = minimal_bom();
    let text = without.to_json().expect("Failed to output BOM as JSON");
    assert!(!text.contains("components"));
}

#[test]
fn writing_twice_gives_the_same_text() {
    let a = complex_bom().to_json().expect("Failed to output BOM as JSON");
    let b = complex_bom().to_json().expect("Failed to output BOM as JSON");
    assert_eq!(a, b);
    let bom = complex_bom();
    assert_eq!(bom.to_json(), bom.to_json());
}
