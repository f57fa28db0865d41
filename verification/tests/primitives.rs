use cyclonedx_bom::errors::{BomError, ValidationError};
use cyclonedx_bom::external_models::grammar::{
    check_cpe, check_date_time, check_hash_value, check_media_type, check_purl, check_uri,
};
use cyclonedx_bom::external_models::uri::{Purl, Uri};
use cyclonedx_bom::models::{check_urn_uuid, Cpe, DateTime, HashValue, MimeType, UrnUuid};

#[test]
fn urn_uuid_is_validated() {
    let good = "urn:uuid:3e671687-395b-41f5-a30f-a58921a69b79";
    assert_eq!(UrnUuid::new(good.to_string()).map(|u| u.to_string()), Ok(good.to_string()));
    assert!(UrnUuid::new_unchecked(good.to_string()).is_valid());
    for bad in [
        "",
        "fake-uuid",
        "3e671687-395b-41f5-a30f-a58921a69b79",
        "urn:uuid:3E671687-395B-41F5-A30F-A58921A69B79",
        "urn:uuid:3e671687-395b-41f5-a30f-a58921a69b7",
        "urn:uuid:3e671687-395b-41f5-a30f-a58921a69b790",
        "urn:uuid:3e671687x395b-41f5-a30f-a58921a69b79",
        "urn:uuid:3e671687-395b-41f5-a30f-a58921a69b7g",
        "urn:uuid:3e67168-7395b-41f5-a30f-a58921a69b79",
        "URN:UUID:3e671687-395b-41f5-a30f-a58921a69b79",
        "urn:uuid:3e671687-395b-41f5-a30f-a58921a69b7é",
    ] {
        assert!(!check_urn_uuid(bad));
        assert_eq!(
            UrnUuid::new(bad.to_string()),
            Err(ValidationError::InvalidUrnUuid(bad.to_string()))
        );
        assert!(!UrnUuid::new_unchecked(bad.to_string()).is_valid());
    }
    assert!(check_urn_uuid("urn:uuid:00000000-0000-0000-0000-000000000000"));
    assert!(check_urn_uuid("urn:uuid:ffffffff-ffff-ffff-ffff-ffffffffffff"));
    assert!(UrnUuid::generate().is_valid());
}

#[test]
fn hash_value_is_validated() {
    for length in [32usize, 40, 64, 96, 128] {
        let digest = "aB3".repeat(length).chars().take(length).collect::<String>();
        assert!(check_hash_value(&digest));
        assert_eq!(HashValue::new(digest.clone()).map(|h| h.to_string()), Ok(digest.clone()));
        let shorter = digest.chars().skip(1).collect::<String>();
        assert!(!check_hash_value(&shorter));
        let mut wrong = digest.chars().skip(1).collect::<String>();
        wrong.push('g');
        assert_eq!(HashValue::new(wrong.clone()), Err(ValidationError::InvalidHashValue(wrong)));
    }
    assert!(!check_hash_value(""));
    assert!(!check_hash_value("hash value"));
    assert!(check_hash_value("d41d8cd98f00b204e9800998ecf8427e"));
    assert!(HashValue::new_unchecked("da39a3ee5e6b4b0d3255bfef95601890afd80709".to_string()).is_valid());
    assert!(!HashValue::new_unchecked("da39".to_string()).is_valid());
}

#[test]
fn media_type_is_validated() {
    for good in ["text/plain", "application/vnd.cyclonedx+json", "a/b", "x-1.2/y+z"] {
        assert!(check_media_type(good));
        assert_eq!(MimeType::new(good.to_string()).map(|m| m.to_string()), Ok(good.to_string()));
    }
    for bad in ["", "/", "text", "text/", "/plain", "Text/plain", "text/plain; charset=utf-8", "a/b/c", "a b/c", "mime type"] {
        assert!(!check_media_type(bad));
        assert_eq!(
            MimeType::new(bad.to_string()),
            Err(ValidationError::InvalidMimeType(bad.to_string()))
        );
    }
    assert!(MimeType::new_unchecked("text/plain".to_string()).is_valid());
    assert!(!MimeType::new_unchecked("plain".to_string()).is_valid());
}

#[test]
fn cpe_is_validated() {
    for good in [
        "cpe:/",
        "cpe:/a",
        "cpe:/a:acme:product:1.0:update2:pro:en-us",
        "cpe:/o:microsoft:windows_2000::sp4:pro",
        "cpe:/:vendor",
        "cpe:/H:x%7e",
        "cpe:2.3:a:acme:product:1.0:*:*:*:*:*:*:*",
        "cpe:2.3:*:acme:pro\\:duct:1.0:-:*:*:*:*:*:*",
        "cpe:2.3:o:microsoft:windows_10:1607:*:*:*:*:*:x64:*",
    ] {
        assert!(check_cpe(good));
        assert_eq!(Cpe::new(good.to_string()).map(|c| c.to_string()), Ok(good.to_string()));
    }
    for bad in [
        "",
        "cpe",
        "cpe:",
        "CPE:/a",
        "cpe:/x:vendor",
        "cpe:/ab:vendor",
        "cpe:/a:b:c:d:e:f:g:h",
        "cpe:/a:ven dor",
        "cpe:/a:ven*dor",
        "cpe:2.3:",
        "cpe:2.3:a",
        "cpe:2.3:a:b\\:c:d",
        "cpe:2.3:a:acme:product:1.0:*:*:*:*:*:*",
        "cpe:2.3:a:acme:product:1.0:*:*:*:*:*:*:*:*",
        "cpe:2.3:x:acme:product:1.0:*:*:*:*:*:*:*",
        "cpe:2.3:ab:acme:product:1.0:*:*:*:*:*:*",
        "cpe:2.3:a:ac me:product:1.0:*:*:*:*:*:*:*",
        "cpe:2.3:a:b c",
        "cpe:2.2:a:b",
        "cpe something",
    ] {
        assert!(!check_cpe(bad));
        assert_eq!(Cpe::new(bad.to_string()), Err(ValidationError::InvalidCpe(bad.to_string())));
    }
    assert!(Cpe::new_unchecked("cpe:/a:b".to_string()).is_valid());
    assert!(!Cpe::new_unchecked("cpe".to_string()).is_valid());
}

#[test]
fn purl_is_validated() {
    for good in [
        "pkg:cargo/left-pad@1.3.0",
        "pkg:maven/org.apache/commons@1.0?type=jar#sub/path",
        "pkg:a/b",
        "pkg:npm.x+y-z/%40scope/name@1",
        "pkg:generic/é",
    ] {
        assert!(check_purl(good));
        assert_eq!(Purl::new(good.to_string()).map(|p| p.to_string()), Ok(good.to_string()));
    }
    for bad in [
        "",
        "pkg:",
        "pkg:cargo",
        "pkg:cargo/",
        "pkg:/name",
        "pkg:1cargo/name",
        "pkg:car go/name",
        "pkg:cargo/na me",
        "PKG:cargo/name",
        "cargo/name",
        "purl",
        "pkg:ca_rgo/name",
    ] {
        assert!(!check_purl(bad));
        assert_eq!(Purl::new(bad.to_string()), Err(ValidationError::InvalidPurl(bad.to_string())));
    }
    assert!(Purl::new_unchecked("pkg:cargo/x".to_string()).is_valid());
    assert!(!Purl::new_unchecked("purl".to_string()).is_valid());
}

#[test]
fn uri_is_validated() {
    for good in ["https://example.com/a?b=c#d", "url", "../relative", "mailto:a@example.com", "http://é.example"] {
        assert!(check_uri(good));
        assert_eq!(Uri::new(good.to_string()).map(|u| u.to_string()), Ok(good.to_string()));
    }
    for bad in ["", " ", "a b", "a\tb", "line\nbreak", "\u{7f}", "a\u{a0}b", "a\u{0}"] {
        assert!(!check_uri(bad));
        assert_eq!(Uri::new(bad.to_string()), Err(ValidationError::InvalidUri(bad.to_string())));
    }
    assert!(Uri::new_unchecked("x".to_string()).is_valid());
    assert!(!Uri::new_unchecked("".to_string()).is_valid());
}

#[test]
fn date_time_is_validated() {
    for good in [
        "2022-03-01T12:30:00Z",
        "0000-01-01T00:00:00Z",
        "9999-12-31T23:59:60Z",
        "2022-03-01T12:30:00.5Z",
        "2022-03-01T12:30:00.123456789Z",
        "2022-03-01T12:30:00+01:00",
        "2022-03-01T12:30:00-23:59",
        "2022-03-01T12:30:00.25+00:00",
        "2024-02-29T00:00:00Z",
        "2000-02-29T00:00:00Z",
        "2022-02-28T00:00:00Z",
        "2022-04-30T00:00:00Z",
        "2022-01-31T00:00:00Z",
    ] {
        assert!(check_date_time(good));
        assert_eq!(DateTime::new(good.to_string()).map(|d| d.to_string()), Ok(good.to_string()));
    }
    for bad in [
        "",
        "time",
        "2022-03-01",
        "2022-03-01T12:30:00",
        "2022-03-01 12:30:00Z",
        "2022-03-01t12:30:00Z",
        "2022-03-01T12:30:00z",
        "2022-13-01T12:30:00Z",
        "2022-00-01T12:30:00Z",
        "2022-03-32T12:30:00Z",
        "2022-03-00T12:30:00Z",
        "2022-02-29T12:30:00Z",
        "2022-02-30T12:30:00Z",
        "1900-02-29T12:30:00Z",
        "2100-02-29T12:30:00Z",
        "2022-04-31T12:30:00Z",
        "2022-06-31T12:30:00Z",
        "2022-09-31T12:30:00Z",
        "2022-11-31T12:30:00Z",
        "2022-03-01T24:30:00Z",
        "2022-03-01T12:60:00Z",
        "2022-03-01T12:30:61Z",
        "2022-03-01T12:30:00.Z",
        "2022-03-01T12:30:00.5",
        "2022-03-01T12:30:00+0100",
        "2022-03-01T12:30:00+24:00",
        "2022-03-01T12:30:00+01:60",
        "2022-03-01T12:30:00ZZ",
        "2022-03-01T12:30:00Z ",
        "20a2-03-01T12:30:00Z",
        "2022/03/01T12:30:00Z",
        "2022-03-01T12.30.00Z",
        "２０２２-03-01T12:30:00Z",
    ] {
        assert!(!check_date_time(bad));
        assert_eq!(
            DateTime::new(bad.to_string()),
            Err(ValidationError::InvalidDateTime(bad.to_string()))
        );
    }
    assert!(DateTime::new_unchecked("2022-03-01T12:30:00Z".to_string()).is_valid());
    assert!(!DateTime::new_unchecked("time".to_string()).is_valid());
}

#[test]
fn errors_are_rendered_with_what_failed() {
    assert_eq!(
        BomError::JsonSerializationError("key must be a string".to_string()).to_string(),
        "Failed to serialize BOM to JSON: key must be a string"
    );
    assert_eq!(
        BomError::XmlSerializationError("emitter error".to_string()).to_string(),
        "Failed to serialize BOM to XML: emitter error"
    );
    assert_eq!(ValidationError::InvalidCpe("x".to_string()).to_string(), "invalid CPE name: x");
    assert_eq!(ValidationError::InvalidDateTime("x".to_string()).to_string(), "invalid date-time: x");
    assert_eq!(ValidationError::InvalidHashValue("x".to_string()).to_string(), "invalid hash value: x");
    assert_eq!(ValidationError::InvalidMimeType("x".to_string()).to_string(), "invalid media type: x");
    assert_eq!(ValidationError::InvalidPurl("x".to_string()).to_string(), "invalid package URL: x");
    assert_eq!(ValidationError::InvalidUri("x".to_string()).to_string(), "invalid URI: x");
    assert_eq!(ValidationError::InvalidUrnUuid("x".to_string()).to_string(), "invalid UUID URN: x");
}
