use cyclonedx_bom::xml::{
    make_optional_text_element, make_optional_wrapper, make_text_element, make_text_elements,
    make_wrapper, Attribute, Content, Element, ElementBuilder,
};
use yaserde::xml::writer::{EmitterConfig, EventWriter, XmlEvent};

fn write_with_the_xml_crate(writer: &mut EventWriter<Vec<u8>>, element: &Element) {
    let mut start = XmlEvent::start_element(element.name.as_str());
    for attribute in &element.attributes {
        start = start.attr(attribute.name.as_str(), attribute.value.as_str());
    }
    writer.write(start).expect("a start tag");
    match &element.content {
        Content::Text(text) => {
            writer.write(XmlEvent::characters(text)).expect("text");
        }
        Content::Children(children) => {
            for child in children {
                write_with_the_xml_crate(writer, child);
            }
        }
    }
    writer.write(XmlEvent::end_element()).expect("an end tag");
}

fn written_by_the_xml_crate(element: &Element) -> String {
    let mut writer = EmitterConfig::new()
        .cdata_to_characters(true)
        .perform_indent(true)
        .write_document_declaration(true)
        .indent_string("  ")
        .create_writer(Vec::new());
    write_with_the_xml_crate(&mut writer, element);
    String::from_utf8(writer.into_inner()).expect("text")
}

fn same_as_the_xml_crate(element: &Element) {
    assert_eq!(element.to_document(), written_by_the_xml_crate(element));
}

#[test]
fn an_empty_element_is_a_self_closing_tag() {
    let element = ElementBuilder::new("e").build();
    assert_eq!(element.to_document(), "<?xml version=\"1.0\" encoding=\"UTF-8\"?>\n<e />");
    same_as_the_xml_crate(&element);
    same_as_the_xml_crate(&make_wrapper("w", vec![]));
}

#[test]
fn text_stands_on_the_line_of_its_element() {
    let element = make_text_element("name", "left-pad");
    assert_eq!(
        element.to_document(),
        "<?xml version=\"1.0\" encoding=\"UTF-8\"?>\n<name>left-pad</name>"
    );
    for text in ["", " ", "a<b>&c", "quote \" and ' stay", "line\nbreak\tand\rreturn", "é \u{1F600}", "]]>"] {
        same_as_the_xml_crate(&make_text_element("t", text));
    }
    assert_eq!(
        make_text_element("t", "a<b>&\"'").to_document(),
        "<?xml version=\"1.0\" encoding=\"UTF-8\"?>\n<t>a&lt;b&gt;&amp;\"'</t>"
    );
}

#[test]
fn children_stand_on_lines_of_their_own() {
    let tree = ElementBuilder::new("root")
        .with_attribute("a", "1".to_string())
        .with_optional_attribute("b", None)
        .with_optional_attribute("c", Some("<&>".to_string()))
        .with_child(make_text_element("first", "text"))
        .with_optional_child(None)
        .with_optional_child(make_optional_text_element("second", &Some("x".to_string())))
        .with_optional_child(make_optional_text_element("never", &None))
        .with_child(
            ElementBuilder::new("third")
                .with_attribute("k", "v".to_string())
                .with_children(make_text_elements("item", &vec!["1".to_string(), "2".to_string()]))
                .with_child(make_wrapper("deep", vec![make_wrapper("deeper", vec![])]))
                .build(),
        )
        .with_optional_child(make_optional_wrapper("empty", Some(vec![])))
        .with_optional_child(make_optional_wrapper("absent", None))
        .with_optional_children(None)
        .with_optional_children(Some(vec![ElementBuilder::new("last")
            .with_attribute("z", "".to_string())
            .build_with_text("t".to_string())]))
        .build();
    assert_eq!(
        tree.to_document(),
        r#"<?xml version="1.0" encoding="UTF-8"?>
<root a="1" c="&lt;&amp;&gt;">
  <first>text</first>
  <second>x</second>
  <third k="v">
    <item>1</item>
    <item>2</item>
    <deep>
      <deeper />
    </deep>
  </third>
  <empty />
  <last z="">t</last>
</root>"#
    );
    same_as_the_xml_crate(&tree);
}

#[test]
fn elements_can_be_written_by_hand() {
    let tree = Element {
        name: "a".to_string(),
        attributes: vec![Attribute { name: "x".to_string(), value: "y\n".to_string() }],
        content: Content::Children(vec![
            Element { name: "b".to_string(), attributes: vec![], content: Content::Text("".to_string()) },
            Element { name: "c".to_string(), attributes: vec![], content: Content::Children(vec![]) },
        ]),
    };
    assert_eq!(
        tree.to_document(),
        "<?xml version=\"1.0\" encoding=\"UTF-8\"?>\n<a x=\"y&#xA;\">\n  <b></b>\n  <c />\n</a>"
    );
    same_as_the_xml_crate(&tree);
}
