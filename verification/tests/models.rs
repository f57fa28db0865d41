use cyclonedx_bom::external_models::normalized_string::NormalizedString;
use cyclonedx_bom::models::{AttachedText, Bom, Encoding, UrnUuid};

#[test]
fn it_should_construct_attached_text() {
    let actual = AttachedText::new(
        Some(NormalizedString::new("text/plain")),
        "this text is plain".as_bytes(),
    );
    assert_eq!(
        actual,
        AttachedText {
            content_type: Some(NormalizedString::new("text/plain")),
            encoding: Some(Encoding::Base64),
            content: "dGhpcyB0ZXh0IGlzIHBsYWlu".to_string(),
        }
    )
}

#[test]
fn attached_text_pads_the_encoded_content() {
    assert_eq!(AttachedText::new(None, b"").content, "");
    assert_eq!(AttachedText::new(None, b"a").content, "YQ==");
    assert_eq!(AttachedText::new(None, b"ab").content, "YWI=");
    assert_eq!(AttachedText::new(None, b"abc").content, "YWJj");
    assert_eq!(AttachedText::new(None, &[0xfb, 0xff, 0xfe]).content, "+//+");
    assert_eq!(
        AttachedText::new(None, b"abc").content_type,
        Some(NormalizedString::new("text/plain"))
    );
    assert_eq!(
        AttachedText::new(Some(NormalizedString::new("text/html")), b"abc").content_type,
        Some(NormalizedString::new("text/html"))
    );
    assert_eq!(AttachedText::new(None, b"abc").encoding, Some(Encoding::Base64));
}

#[test]
fn encoding_keeps_unknown_names() {
    assert_eq!(Encoding::from("base64".to_string()), Encoding::Base64);
    assert_eq!(
        Encoding::from("quoted-printable".to_string()),
        Encoding::UnknownEncoding("quoted-printable".to_string())
    );
    assert_eq!(Encoding::from("Base64".to_string()), Encoding::UnknownEncoding("Base64".to_string()));
    assert_eq!(Encoding::from("".to_string()), Encoding::UnknownEncoding("".to_string()));
    assert_eq!(String::from(Encoding::Base64), "base64");
    assert_eq!(String::from(Encoding::UnknownEncoding("other".to_string())), "other");
    for name in ["base64", "hex", "", "BASE64"] {
        assert_eq!(String::from(Encoding::from(name.to_string())), name);
        assert_eq!(Encoding::from(name.to_string()).to_string(), name);
    }
}

#[test]
fn default_bom_has_version_one_and_nothing_else() {
    let bom = Bom::default();
    assert_eq!(bom.version, 1);
    assert!(bom.metadata.is_none());
    assert!(bom.components.is_none());
    assert!(bom.services.is_none());
    assert!(bom.external_references.is_none());
    assert!(bom.dependencies.is_none());
    assert!(bom.compositions.is_none());
    assert!(bom.properties.is_none());
    let serial = bom.serial_number.expect("a serial number").to_string();
    assert_eq!(serial.len(), 45);
    assert!(serial.starts_with("urn:uuid:"));
    let parsed = uuid::Uuid::parse_str(&serial).expect("a UUID URN");
    assert_eq!(parsed.get_version_num(), 4);
}

#[test]
fn default_boms_get_different_serial_numbers() {
    let a = Bom::default().serial_number;
    let b = Bom::default().serial_number;
    assert_ne!(a, b);
}

#[test]
fn urn_uuid_is_written_as_the_uuid_crate_writes_it() {
    let samples: [[u8; 16]; 4] = [
        [0; 16],
        [0xff; 16],
        [0x3e, 0x67, 0x16, 0x87, 0x39, 0x5b, 0x41, 0xf5, 0xa3, 0x0f, 0xa5, 0x89, 0x21, 0xa6, 0x9b, 0x79],
        [0x01, 0x23, 0x45, 0x67, 0x89, 0xab, 0xcd, 0xef, 0x10, 0x32, 0x54, 0x76, 0x98, 0xba, 0xdc, 0xfe],
    ];
    for bytes in samples {
        let expected = uuid::Uuid::from_bytes(bytes).to_urn().to_string();
        assert_eq!(UrnUuid::from_bytes(bytes).to_string(), expected);
    }
    assert_eq!(
        UrnUuid::from_bytes(samples[2]).to_string(),
        "urn:uuid:3e671687-395b-41f5-a30f-a58921a69b79"
    );
    assert_eq!(
        UrnUuid::generate().to_string().len(),
        45
    );
}
