use soap::addressing::{Addressing, AddressingBuilder, WSA_NAMESPACE};
use soap::dom::XmlNode;
use soap::envelope::{EmitterSettings, Envelope};
use soap::helper::string_buffer::StringBuffer;

#[test]
fn writer_addressing_printer() {
    let mut output = StringBuffer::new();

    let config = EmitterSettings::new()
        .perform_indent(true)
        .write_document_declaration(false);

    let mut envelope = Envelope::empty();

    let addressing: Addressing = AddressingBuilder::new()
        .action("http://schemas.xmlsoap.org/ws/2005/04/discovery/Hello")
        .message_id("urn:uuid:94ff5a40-6d87-11b2-8da8-84ba3bbfd024")
        .to("urn:schemas-xmlsoap-org:ws:2005:04:discovery")
        .into();

    addressing.write(&mut envelope);

    let bytes = envelope.write_with_config(config).unwrap();
    output.write(&bytes);

    // Example 1 from https://www.w3.org/TR/soap12-part1/
    let expected_result = r#"<env:Envelope xmlns:env="http://www.w3.org/2003/05/soap-envelope">
  <env:Header>
    <wsa:Action xmlns:wsa="http://schemas.xmlsoap.org/ws/2004/08/addressing">http://schemas.xmlsoap.org/ws/2005/04/discovery/Hello</wsa:Action>
    <wsa:MessageID xmlns:wsa="http://schemas.xmlsoap.org/ws/2004/08/addressing">urn:uuid:94ff5a40-6d87-11b2-8da8-84ba3bbfd024</wsa:MessageID>
    <wsa:To xmlns:wsa="http://schemas.xmlsoap.org/ws/2004/08/addressing">urn:schemas-xmlsoap-org:ws:2005:04:discovery</wsa:To>
  </env:Header>
  <env:Body />
</env:Envelope>"#;

    assert_eq!(expected_result, output.to_string());
}

#[test]
fn builder_sets_each_field() {
    let a = AddressingBuilder::new().to("dest").action("act").build();
    assert_eq!(a.action.as_deref(), Some("act"));
    assert_eq!(a.message_id, None);
    assert_eq!(a.to.as_deref(), Some("dest"));

    let b = AddressingBuilder::new().message_id("first").message_id("second").build();
    assert_eq!(b.message_id.as_deref(), Some("second"));
    assert_eq!(b.action, None);
    assert_eq!(b.to, None);
}

#[test]
fn builder_new_is_empty() {
    let a: Addressing = AddressingBuilder::new().into();
    assert_eq!(a, Addressing { action: None, message_id: None, to: None });
}

#[test]
fn write_appends_only_set_fields() {
    let mut envelope = Envelope::empty();
    envelope.body.push(XmlNode::Text("payload".to_string()));
    envelope.header.push(XmlNode::Comment("existing".to_string()));

    let addressing = AddressingBuilder::new().to("somewhere").build();
    addressing.write(&mut envelope);

    assert_eq!(envelope.header.len(), 2);
    match &envelope.header[0] {
        XmlNode::Comment(c) => assert_eq!(c, "existing"),
        other => panic!("unexpected node {:?}", other),
    }
    let to = envelope.header[1].as_element().unwrap();
    assert_eq!(to.name, "wsa:To");
    assert_eq!(to.prefix, None);
    assert_eq!(to.namespace, None);
    assert_eq!(
        to.namespaces,
        Some(vec![("wsa".to_string(), WSA_NAMESPACE.to_string())])
    );
    assert!(to.attributes.is_empty());
    assert_eq!(to.children.len(), 1);
    match &to.children[0] {
        XmlNode::Text(t) => assert_eq!(t, "somewhere"),
        other => panic!("unexpected node {:?}", other),
    }

    assert_eq!(envelope.body.len(), 1);
    match &envelope.body[0] {
        XmlNode::Text(t) => assert_eq!(t, "payload"),
        other => panic!("unexpected node {:?}", other),
    }
}

#[test]
fn write_of_empty_addressing_changes_nothing() {
    let mut envelope = Envelope::empty();
    AddressingBuilder::new().build().write(&mut envelope);
    assert!(envelope.header.is_empty());
    assert!(envelope.body.is_empty());
}

#[test]
fn write_keeps_field_order() {
    let mut envelope = Envelope::empty();
    AddressingBuilder::new()
        .to("t")
        .message_id("m")
        .action("a")
        .build()
        .write(&mut envelope);
    let names: Vec<&str> = envelope
        .header
        .iter()
        .map(|n| n.as_element().unwrap().name.as_str())
        .collect();
    assert_eq!(names, vec!["wsa:Action", "wsa:MessageID", "wsa:To"]);
}
