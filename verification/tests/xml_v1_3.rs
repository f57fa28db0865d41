use cyclonedx_bom::specs::v1_3::{
    AttachedText, Bom, BomFormat, BomReference, Component, ComponentEvidence, Composition,
    Copyright, DataClassification, Dependency, License, LicenseChoice, LicenseIdentifier,
    MimeType, OrganizationalContact, OrganizationalEntity, Properties, Property, Service, Swid,
};
use cyclonedx_bom::xml::{Attribute, Content};
use yaserde::xml::writer::{EmitterConfig, XmlEvent};

fn bom(version: Option<u32>, serial_number: Option<&str>) -> Bom {
    Bom {
        bom_format: BomFormat::CycloneDX,
        spec_version: "1.3".to_string(),
        version,
        serial_number: serial_number.map(|s| s.to_string()),
        metadata: None,
        components: None,
        services: None,
        external_references: None,
        dependencies: None,
        compositions: None,
        properties: None,
    }
}

/// What the `xml` crate writes for a root element without content, set up
/// as for an indented document with a declaration.
fn written_by_the_xml_crate(name: &str, namespace: &str, attributes: &[(&str, &str)]) -> String {
    let mut writer = EmitterConfig::new()
        .cdata_to_characters(true)
        .perform_indent(true)
        .write_document_declaration(true)
        .indent_string("  ")
        .create_writer(Vec::new());
    let mut start = XmlEvent::start_element(name).default_ns(namespace);
    for (key, value) in attributes {
        start = start.attr(*key, value);
    }
    writer.write(start).expect("a start tag");
    writer.write(XmlEvent::end_element()).expect("an end tag");
    String::from_utf8(writer.into_inner()).expect("text")
}

#[test]
fn it_should_serialize_to_xml() {
    let actual = bom(Some(1), Some("fake-uuid"));

    let actual_xml = actual.to_xml().expect("Failed to output BOM as XML");
    assert_eq!(
        actual_xml,
        "<?xml version=\"1.0\" encoding=\"UTF-8\"?>\n<Bom xmlns=\"ns:http://cyclonedx.org/schema/bom/1.3\" version=\"1\" serialNumber=\"fake-uuid\" />"
    );
}

#[test]
fn the_root_element_is_written_as_the_xml_crate_writes_it() {
    let namespace = "ns:http://cyclonedx.org/schema/bom/1.3";
    assert_eq!(
        bom(Some(1), Some("fake-uuid")).to_xml().expect("Failed to output BOM as XML"),
        written_by_the_xml_crate("Bom", namespace, &[("version", "1"), ("serialNumber", "fake-uuid")])
    );
    assert_eq!(
        bom(Some(4294967295), None).to_xml().expect("Failed to output BOM as XML"),
        written_by_the_xml_crate("Bom", namespace, &[("version", "4294967295")])
    );
    assert_eq!(
        bom(None, None).to_xml().expect("Failed to output BOM as XML"),
        written_by_the_xml_crate("Bom", namespace, &[])
    );
    let odd = "a<b>&\"c'\n\r\td é\u{1F600}";
    assert_eq!(
        bom(Some(0), Some(odd)).to_xml().expect("Failed to output BOM as XML"),
        written_by_the_xml_crate("Bom", namespace, &[("version", "0"), ("serialNumber", odd)])
    );
}

#[test]
fn an_absent_part_has_no_attribute() {
    let xml = bom(None, None).to_xml().expect("Failed to output BOM as XML");
    assert_eq!(
        xml,
        "<?xml version=\"1.0\" encoding=\"UTF-8\"?>\n<Bom xmlns=\"ns:http://cyclonedx.org/schema/bom/1.3\" />"
    );
    let xml = bom(None, Some("s")).to_xml().expect("Failed to output BOM as XML");
    assert!(!xml.contains("version=\"1\""));
    assert!(xml.contains(" serialNumber=\"s\""));
    let element = bom(Some(2), None).to_xml_element();
    assert_eq!(element.name, "Bom");
    assert_eq!(element.content, Content::Children(vec![]));
    assert_eq!(
        element.attributes,
        vec![
            Attribute {
                name: "xmlns".to_string(),
                value: "ns:http://cyclonedx.org/schema/bom/1.3".to_string()
            },
            Attribute { name: "version".to_string(), value: "2".to_string() },
        ]
    );
}

fn component() -> Component {
    Component {
        component_type: "library".to_string(),
        mime_type: Some(MimeType("text/plain".to_string())),
        bom_ref: Some("left-pad@1.3.0".to_string()),
        supplier: Some(OrganizationalEntity {
            name: Some("ACME".to_string()),
            url: Some(vec!["https://a.example".to_string(), "https://b.example".to_string()]),
            contact: Some(vec![OrganizationalContact {
                name: Some("Jo".to_string()),
                email: None,
                phone: None,
            }]),
        }),
        author: None,
        publisher: None,
        group: None,
        name: "left-pad".to_string(),
        version: "1.3.0".to_string(),
        description: None,
        scope: Some("required".to_string()),
        hashes: Some(vec![cyclonedx_bom::specs::v1_3::Hash {
            alg: "MD5".to_string(),
            content: cyclonedx_bom::specs::v1_3::HashValue(
                "d41d8cd98f00b204e9800998ecf8427e".to_string(),
            ),
        }]),
        licenses: Some(vec![
            LicenseChoice::License(Some(License {
                license_identifier: LicenseIdentifier::SpdxId("MIT".to_string()),
                text: Some(AttachedText {
                    content_type: Some("text/plain".to_string()),
                    encoding: Some("base64".to_string()),
                    content: "TUlU".to_string(),
                }),
                url: None,
            })),
            LicenseChoice::License(None),
            LicenseChoice::Expression(Some("MIT OR Apache-2.0".to_string())),
        ]),
        copyright: None,
        cpe: None,
        purl: Some("pkg:cargo/left-pad@1.3.0".to_string()),
        swid: Some(Swid {
            tag_id: "tag".to_string(),
            name: "swid".to_string(),
            version: None,
            tag_version: Some(2),
            patch: Some(false),
            text: None,
            url: None,
        }),
        modified: Some(false),
        pedigree: None,
        external_references: None,
        properties: Some(Properties(vec![Property {
            name: "k".to_string(),
            value: "v<1>".to_string(),
        }])),
        components: Some(vec![]),
        evidence: Some(ComponentEvidence {
            licenses: None,
            copyright: Some(vec![Copyright(vec!["(c) one".to_string(), "(c) two".to_string()])]),
        }),
    }
}

#[test]
fn a_component_carries_its_type_in_an_attribute_and_its_name_in_an_element() {
    let mut document = bom(Some(1), None);
    document.components = Some(vec![component()]);
    document.services = Some(vec![Service {
        bom_ref: None,
        provider: None,
        group: None,
        name: "api".to_string(),
        version: None,
        description: None,
        endpoints: Some(vec!["https://api.example".to_string()]),
        authenticated: Some(true),
        x_trust_boundary: None,
        data: Some(vec![DataClassification {
            flow: "inbound".to_string(),
            classification: "PII".to_string(),
        }]),
        licenses: None,
        external_references: None,
        properties: None,
        services: None,
    }]);
    document.dependencies = Some(vec![Dependency {
        dependency_ref: "a".to_string(),
        depends_on: vec!["b".to_string(), "c".to_string()],
    }]);
    document.compositions = Some(vec![Composition {
        aggregate: "complete".to_string(),
        assemblies: Some(vec![BomReference("a".to_string())]),
        dependencies: None,
    }]);
    let xml = document.to_xml().expect("Failed to output BOM as XML");
    assert_eq!(
        xml,
        r#"<?xml version="1.0" encoding="UTF-8"?>
<Bom xmlns="ns:http://cyclonedx.org/schema/bom/1.3" version="1">
  <components>
    <component type="library" mime-type="text/plain" bom-ref="left-pad@1.3.0">
      <supplier>
        <name>ACME</name>
        <url>https://a.example</url>
        <url>https://b.example</url>
        <contact>
          <name>Jo</name>
        </contact>
      </supplier>
      <name>left-pad</name>
      <version>1.3.0</version>
      <scope>required</scope>
      <hashes>
        <hash alg="MD5">d41d8cd98f00b204e9800998ecf8427e</hash>
      </hashes>
      <licenses>
        <license>
          <id>MIT</id>
          <text content-type="text/plain" encoding="base64">TUlU</text>
        </license>
        <expression>MIT OR Apache-2.0</expression>
      </licenses>
      <purl>pkg:cargo/left-pad@1.3.0</purl>
      <swid tagId="tag" name="swid" tagVersion="2" patch="false" />
      <modified>false</modified>
      <properties>
        <property name="k">v&lt;1&gt;</property>
      </properties>
      <components />
      <evidence>
        <copyright>
          <text>(c) one</text>
          <text>(c) two</text>
        </copyright>
      </evidence>
    </component>
  </components>
  <services>
    <service>
      <name>api</name>
      <endpoints>
        <endpoint>https://api.example</endpoint>
      </endpoints>
      <authenticated>true</authenticated>
      <data>
        <classification flow="inbound">PII</classification>
      </data>
    </service>
  </services>
  <dependencies>
    <dependency ref="a">
      <dependency ref="b" />
      <dependency ref="c" />
    </dependency>
  </dependencies>
  <compositions>
    <composition>
      <aggregate>complete</aggregate>
      <assemblies>
        <assembly ref="a" />
      </assemblies>
    </composition>
  </compositions>
</Bom>"#
    );
}

#[test]
fn an_absent_part_of_a_component_has_no_attribute_and_no_element() {
    let mut bare = component();
    bare.mime_type = None;
    bare.bom_ref = None;
    bare.supplier = None;
    bare.scope = None;
    bare.hashes = None;
    bare.licenses = None;
    bare.purl = None;
    bare.swid = None;
    bare.modified = None;
    bare.properties = None;
    bare.components = None;
    bare.evidence = None;
    let element = bare.to_xml_element("component");
    assert_eq!(
        element.attributes,
        vec![Attribute { name: "type".to_string(), value: "library".to_string() }]
    );
    match &element.content {
        Content::Children(children) => {
            let names: Vec<&str> = children.iter().map(|c| c.name.as_str()).collect();
            assert_eq!(names, vec!["name", "version"]);
        }
        Content::Text(_) => panic!("a component holds elements"),
    }
    assert_eq!(
        element.to_document(),
        "<?xml version=\"1.0\" encoding=\"UTF-8\"?>\n<component type=\"library\">\n  <name>left-pad</name>\n  <version>1.3.0</version>\n</component>"
    );
}

#[test]
fn writing_xml_twice_gives_the_same_text() {
    let b = bom(Some(3), Some("urn:uuid:3e671687-395b-41f5-a30f-a58921a69b79"));
    assert_eq!(b.to_xml(), b.to_xml());
}
