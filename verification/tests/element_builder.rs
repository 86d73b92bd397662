use soap::dom::XmlNode;
use soap::helper::element_builder::ElementBuilder;

#[test]
fn new_element_is_empty() {
    let e = ElementBuilder::new("a:b").build();
    assert_eq!(e.name, "a:b");
    assert_eq!(e.prefix, None);
    assert_eq!(e.namespace, None);
    assert_eq!(e.namespaces, None);
    assert!(e.attributes.is_empty());
    assert!(e.children.is_empty());
}

#[test]
fn duplicate_attribute_is_overridden() {
    let e = ElementBuilder::new("x")
        .attr("k", "1")
        .attr("other", "o")
        .attr("k", "2")
        .build();
    assert_eq!(
        e.attributes,
        vec![
            ("k".to_string(), "2".to_string()),
            ("other".to_string(), "o".to_string())
        ]
    );
}

#[test]
fn namespace_keeps_first_binding() {
    let e = ElementBuilder::new("x")
        .ns("p", "first")
        .ns("q", "q-uri")
        .ns("p", "second")
        .build();
    assert_eq!(
        e.namespaces,
        Some(vec![
            ("p".to_string(), "first".to_string()),
            ("q".to_string(), "q-uri".to_string())
        ])
    );
}

#[test]
fn text_and_child_append_in_order() {
    let e = ElementBuilder::new("x")
        .text("one")
        .child(ElementBuilder::new("y").build())
        .text("two")
        .into();
    let e: soap::dom::XmlElement = e;
    assert_eq!(e.children.len(), 3);
    match &e.children[0] {
        XmlNode::Text(t) => assert_eq!(t, "one"),
        other => panic!("unexpected node {:?}", other),
    }
    assert_eq!(e.children[1].as_element().unwrap().name, "y");
    match &e.children[2] {
        XmlNode::Text(t) => assert_eq!(t, "two"),
        other => panic!("unexpected node {:?}", other),
    }
}

#[test]
fn get_child_finds_first_named_element() {
    let e = ElementBuilder::new("root")
        .text("Body")
        .child(ElementBuilder::new("Body").text("first").build())
        .child(ElementBuilder::new("Body").text("second").build())
        .build();
    let c = e.get_child("Body").unwrap();
    match &c.children[0] {
        XmlNode::Text(t) => assert_eq!(t, "first"),
        other => panic!("unexpected node {:?}", other),
    }
    assert!(e.get_child("Header").is_none());
}

#[test]
fn deep_clone_copies_the_tree() {
    let e = ElementBuilder::new("root")
        .attr("a", "1")
        .ns("n", "u")
        .child(ElementBuilder::new("inner").text("t").build())
        .build();
    let c = e.deep_clone();
    assert_eq!(c.name, e.name);
    assert_eq!(c.attributes, e.attributes);
    assert_eq!(c.namespaces, e.namespaces);
    assert_eq!(c.children.len(), 1);
    assert_eq!(c.children[0].as_element().unwrap().name, "inner");
}
