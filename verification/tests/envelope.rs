use soap::dom::{XmlElement, XmlNode};
use soap::codec::TreeParseError;
use soap::envelope::{EmitterSettings, Envelope, ParseError};
use soap::helper::element_builder::ElementBuilder;
use soap::helper::string_buffer::StringBuffer;

#[test]
fn reader_soap12_part1_example1() {
    // Example 1 from https://www.w3.org/TR/soap12-part1/
    let input = r#"<env:Envelope xmlns:env="http://www.w3.org/2003/05/soap-envelope">
<env:Header>
<n:alertcontrol xmlns:n="http://example.org/alertcontrol">
  <n:priority>1</n:priority>
  <n:expires>2001-06-22T14:00:00-05:00</n:expires>
</n:alertcontrol>
</env:Header>
<env:Body>
<m:alert xmlns:m="http://example.org/alert">
  <m:msg>Pick up Mary at school at 2pm</m:msg>
</m:alert>
</env:Body>
</env:Envelope>"#;

    let envelope = Envelope::parse(input.as_bytes()).unwrap();
    assert_eq!(
        "alertcontrol",
        envelope.header.first().unwrap().as_element().unwrap().name
    );
    assert_eq!(
        "http://example.org/alertcontrol",
        envelope
            .header
            .first()
            .unwrap()
            .as_element()
            .unwrap()
            .namespace
            .as_ref()
            .unwrap()
    );
    assert_eq!(
        "alert",
        envelope.body.first().unwrap().as_element().unwrap().name
    );
    assert_eq!(
        "http://example.org/alert",
        envelope
            .body
            .first()
            .unwrap()
            .as_element()
            .unwrap()
            .namespace
            .as_ref()
            .unwrap()
    );
}

fn build_alertcontrol_header() -> XmlElement {
    let priority = ElementBuilder::new("n:priority").text("1");

    let expires = ElementBuilder::new("n:expires").text("2001-06-22T14:00:00-05:00");

    ElementBuilder::new("n:alertcontrol")
        .ns("n", "http://example.org/alertcontrol")
        .child(priority.into())
        .child(expires.into())
        .into()
}

fn build_alert_body() -> XmlElement {
    let msg = ElementBuilder::new("m:msg").text("Pick up Mary at school at 2pm");

    ElementBuilder::new("m:alert")
        .ns("m", "http://example.org/alert")
        .child(msg.into())
        .into()
}

#[test]
fn writer_soap12_part1_example1() {
    let mut output = StringBuffer::new();

    let config = EmitterSettings::new()
        .perform_indent(true)
        .write_document_declaration(false);

    let envelope = Envelope {
        header: vec![XmlNode::Element(build_alertcontrol_header())],
        body: vec![XmlNode::Element(build_alert_body())],
    };

    let bytes = envelope.write_with_config(config).unwrap();
    output.write(&bytes);

    // Example 1 from https://www.w3.org/TR/soap12-part1/
    let expected_result = r#"<env:Envelope xmlns:env="http://www.w3.org/2003/05/soap-envelope">
  <env:Header>
    <n:alertcontrol xmlns:n="http://example.org/alertcontrol">
      <n:priority>1</n:priority>
      <n:expires>2001-06-22T14:00:00-05:00</n:expires>
    </n:alertcontrol>
  </env:Header>
  <env:Body>
    <m:alert xmlns:m="http://example.org/alert">
      <m:msg>Pick up Mary at school at 2pm</m:msg>
    </m:alert>
  </env:Body>
</env:Envelope>"#;

    assert_eq!(expected_result, output.to_string());
}

#[test]
fn parse_rejects_malformed_xml() {
    match Envelope::parse(b"<env:Envelope") {
        Err(ParseError::MalformedXml(TreeParseError::MalformedXml(e, text))) => {
            assert_eq!(text, e.to_string());
        }
        other => panic!("unexpected result {:?}", other),
    }
}

#[test]
fn parse_error_messages() {
    let err = Envelope::parse(b"<a><b></a>").unwrap_err();
    match &err {
        ParseError::MalformedXml(TreeParseError::MalformedXml(e, _)) => {
            assert_eq!(err.message(), format!("Malformed XML. Malformed XML. {}", e));
        }
        other => panic!("unexpected error {:?}", other),
    }
    assert_eq!(
        ParseError::MalformedXml(TreeParseError::CannotParse).message(),
        "Malformed XML. Cannot parse"
    );
    assert_eq!(ParseError::InvalidEnvelopeName.message(), "Invalid envelope name");
    assert_eq!(ParseError::MissingBody.message(), "Missing body");
}

#[test]
fn parse_rejects_other_root_name() {
    let input = r#"<env:Letter xmlns:env="http://www.w3.org/2003/05/soap-envelope"><env:Body/></env:Letter>"#;
    match Envelope::parse(input.as_bytes()) {
        Err(ParseError::InvalidEnvelopeName) => {}
        other => panic!("unexpected result {:?}", other),
    }
}

#[test]
fn parse_rejects_missing_body() {
    let input = r#"<env:Envelope xmlns:env="http://www.w3.org/2003/05/soap-envelope"><env:Header><a/></env:Header></env:Envelope>"#;
    match Envelope::parse(input.as_bytes()) {
        Err(ParseError::MissingBody) => {}
        other => panic!("unexpected result {:?}", other),
    }
}

#[test]
fn parse_without_header_gives_empty_header() {
    let input = r#"<Envelope><Body><x>1</x><y/></Body></Envelope>"#;
    let envelope = Envelope::parse(input.as_bytes()).unwrap();
    assert!(envelope.header.is_empty());
    assert_eq!(envelope.body.len(), 2);
    assert_eq!(envelope.body[0].as_element().unwrap().name, "x");
    assert_eq!(envelope.body[1].as_element().unwrap().name, "y");
}

#[test]
fn parse_takes_first_header_and_body() {
    let input = r#"<Envelope><Body><first/></Body><Header><h1/></Header><Header><h2/></Header><Body><second/></Body></Envelope>"#;
    let envelope = Envelope::parse(input.as_bytes()).unwrap();
    assert_eq!(envelope.header.len(), 1);
    assert_eq!(envelope.header[0].as_element().unwrap().name, "h1");
    assert_eq!(envelope.body.len(), 1);
    assert_eq!(envelope.body[0].as_element().unwrap().name, "first");
}

#[test]
fn from_root_reads_children() {
    let body = ElementBuilder::new("Body").text("hello").build();
    let header = ElementBuilder::new("Header").child(ElementBuilder::new("h").build()).build();
    let root = ElementBuilder::new("Envelope").child(header).child(body).build();
    let envelope = Envelope::from_root(&root).unwrap();
    assert_eq!(envelope.header.len(), 1);
    assert_eq!(envelope.header[0].as_element().unwrap().name, "h");
    match &envelope.body[0] {
        XmlNode::Text(t) => assert_eq!(t, "hello"),
        other => panic!("unexpected node {:?}", other),
    }
}

#[test]
fn from_root_error_descriptions() {
    let wrong = ElementBuilder::new("Envelop").build();
    let err = Envelope::from_root(&wrong).unwrap_err();
    assert!(matches!(err, ParseError::InvalidEnvelopeName));
    assert_eq!(err.description(), "Invalid envelope name");

    let no_body = ElementBuilder::new("Envelope").child(ElementBuilder::new("Header").build()).build();
    let err = Envelope::from_root(&no_body).unwrap_err();
    assert!(matches!(err, ParseError::MissingBody));
    assert_eq!(err.description(), "Missing body");

    let err = Envelope::parse(b"").unwrap_err();
    assert_eq!(err.description(), "Malformed XML");
}

#[test]
fn to_element_wraps_header_and_body() {
    let envelope = Envelope {
        header: vec![XmlNode::Comment("c".to_string())],
        body: vec![XmlNode::Text("t".to_string())],
    };
    let root = envelope.to_element();
    assert_eq!(root.name, "env:Envelope");
    assert_eq!(
        root.namespaces,
        Some(vec![(
            "env".to_string(),
            "http://www.w3.org/2003/05/soap-envelope".to_string()
        )])
    );
    assert_eq!(root.children.len(), 2);
    let header = root.children[0].as_element().unwrap();
    assert_eq!(header.name, "env:Header");
    assert_eq!(header.children.len(), 1);
    let body = root.children[1].as_element().unwrap();
    assert_eq!(body.name, "env:Body");
    match &body.children[0] {
        XmlNode::Text(t) => assert_eq!(t, "t"),
        other => panic!("unexpected node {:?}", other),
    }
}

#[test]
fn write_with_default_settings() {
    let envelope = Envelope::empty();
    let bytes = envelope.write().unwrap();
    assert_eq!(
        String::from_utf8(bytes).unwrap(),
        r#"<?xml version="1.0" encoding="UTF-8"?><env:Envelope xmlns:env="http://www.w3.org/2003/05/soap-envelope"><env:Header /><env:Body /></env:Envelope>"#
    );
}

#[test]
fn written_envelope_parses_back() {
    let envelope = Envelope {
        header: vec![XmlNode::Element(build_alertcontrol_header())],
        body: vec![XmlNode::Element(build_alert_body())],
    };
    let bytes = envelope.write().unwrap();
    let back = Envelope::parse(&bytes).unwrap();
    assert_eq!(back.header[0].as_element().unwrap().name, "alertcontrol");
    assert_eq!(back.body[0].as_element().unwrap().name, "alert");
}

#[test]
fn default_settings_are_documented_defaults() {
    let c = EmitterSettings::new();
    assert_eq!(c.line_separator, "\n");
    assert_eq!(c.indent_string, "  ");
    assert!(!c.perform_indent);
    assert!(c.perform_escaping);
    assert!(c.write_document_declaration);
    assert!(c.normalize_empty_elements);
    assert!(!c.cdata_to_characters);
    assert!(c.keep_element_names_stack);
    assert!(c.autopad_comments);
    assert!(c.pad_self_closing);
}

#[test]
fn settings_change_the_output() {
    let envelope = Envelope::empty();
    let config = EmitterSettings::new()
        .write_document_declaration(false)
        .pad_self_closing(false);
    let bytes = envelope.write_with_config(config).unwrap();
    assert_eq!(
        String::from_utf8(bytes).unwrap(),
        r#"<env:Envelope xmlns:env="http://www.w3.org/2003/05/soap-envelope"><env:Header/><env:Body/></env:Envelope>"#
    );
}
