use cyclonedx_bom::json::{array, optional_bool, optional_number, optional_string, optional_strings, string, strings, JsonValue, ObjectBuilder};

fn same_as_serde(value: &JsonValue, expected: &serde_json::Value) {
    assert_eq!(
        value.to_string_pretty(),
        serde_json::to_string_pretty(expected).expect("serde_json writes a value")
    );
}

#[test]
fn scalars_are_written_as_serde_json_writes_them() {
    same_as_serde(&JsonValue::Null, &serde_json::Value::Null);
    same_as_serde(&JsonValue::Bool(true), &serde_json::Value::Bool(true));
    same_as_serde(&JsonValue::Bool(false), &serde_json::Value::Bool(false));
    for n in [0u64, 1, 9, 10, 11, 99, 100, 12345, 4294967295, u64::MAX] {
        same_as_serde(&JsonValue::Number(n), &serde_json::Value::from(n));
    }
    assert_eq!(JsonValue::Number(1203).to_string_pretty(), "1203");
}

#[test]
fn strings_are_escaped_as_serde_json_escapes_them() {
    let mut all_low = String::new();
    for code in 0u32..0x30 {
        all_low.push(char::from_u32(code).expect("a character"));
    }
    for text in [
        "",
        "plain",
        "quote \" and backslash \\",
        "line\nfeed\r\ttab",
        "\u{08}\u{0c}\u{00}\u{1f}\u{7f}",
        "slash / stays",
        "déjà vu \u{1F600} \u{2028}",
        all_low.as_str(),
    ] {
        same_as_serde(&string(text), &serde_json::Value::String(text.to_string()));
    }
    assert_eq!(string("a\"b").to_string_pretty(), "\"a\\\"b\"");
    assert_eq!(string("\u{01}\u{1f}").to_string_pretty(), "\"\\u0001\\u001f\"");
    assert_eq!(string("\u{08}\t\n\u{0c}\r").to_string_pretty(), "\"\\b\\t\\n\\f\\r\"");
}

#[test]
fn arrays_are_indented_as_serde_json_indents_them() {
    same_as_serde(&array(vec![]), &serde_json::Value::Array(vec![]));
    let nested = array(vec![
        JsonValue::Number(1),
        array(vec![string("a"), array(vec![]), array(vec![JsonValue::Null])]),
        JsonValue::Bool(false),
    ]);
    let expected = serde_json::Value::Array(vec![
        serde_json::Value::from(1u64),
        serde_json::Value::Array(vec![
            serde_json::Value::String("a".to_string()),
            serde_json::Value::Array(vec![]),
            serde_json::Value::Array(vec![serde_json::Value::Null]),
        ]),
        serde_json::Value::Bool(false),
    ]);
    same_as_serde(&nested, &expected);
    assert_eq!(
        strings(&vec!["x".to_string(), "y".to_string()]).to_string_pretty(),
        "[\n  \"x\",\n  \"y\"\n]"
    );
}

#[test]
fn objects_are_indented_as_serde_json_indents_them() {
    same_as_serde(&ObjectBuilder::new().build(), &serde_json::Value::Object(serde_json::Map::new()));
    let inner = ObjectBuilder::new().with("a", JsonValue::Number(1)).with("b", array(vec![])).build();
    let value = ObjectBuilder::new()
        .with("first", inner)
        .with("second \"quoted\"", string("x"))
        .with("third", ObjectBuilder::new().build())
        .build();
    let mut inner = serde_json::Map::new();
    inner.insert("a".to_string(), serde_json::Value::from(1u64));
    inner.insert("b".to_string(), serde_json::Value::Array(vec![]));
    let mut outer = serde_json::Map::new();
    outer.insert("first".to_string(), serde_json::Value::Object(inner));
    outer.insert("second \"quoted\"".to_string(), serde_json::Value::String("x".to_string()));
    outer.insert("third".to_string(), serde_json::Value::Object(serde_json::Map::new()));
    same_as_serde(&value, &serde_json::Value::Object(outer));
}

#[test]
fn members_keep_the_order_in_which_they_were_added() {
    let value = ObjectBuilder::new()
        .with("zebra", JsonValue::Number(1))
        .with("apple", JsonValue::Number(2))
        .with("mango", JsonValue::Number(3))
        .build();
    assert_eq!(
        value.to_string_pretty(),
        "{\n  \"zebra\": 1,\n  \"apple\": 2,\n  \"mango\": 3\n}"
    );
}

#[test]
fn an_optional_member_without_a_value_is_not_written() {
    let value = ObjectBuilder::new()
        .with_optional("a", optional_string(&None))
        .with_optional("b", optional_number(Some(7)))
        .with_optional("c", optional_bool(None))
        .with_optional("d", optional_strings(&Some(vec![])))
        .with_optional("e", optional_string(&Some("x".to_string())))
        .with_optional("f", optional_bool(Some(false)))
        .with_optional("g", optional_number(None))
        .with_optional("h", optional_strings(&None))
        .build();
    assert_eq!(
        value.to_string_pretty(),
        "{\n  \"b\": 7,\n  \"d\": [],\n  \"e\": \"x\",\n  \"f\": false\n}"
    );
}
