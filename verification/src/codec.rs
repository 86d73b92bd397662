//! The boundary with `xmltree` and `xml-rs`: reading and writing XML documents.
//!
//! Everything here is trusted: the contracts below are believed, not proved.

use vstd::prelude::*;
use vstd::utf8::valid_utf8;
use crate::dom::{ElementModel, XmlElement, XmlNode};
use crate::envelope::{EmitterSettings, EmitterSettingsModel, default_config_model};

verus! {

/// `xmltree::Element`, opaque: only the conversions below look inside it.
#[verifier::external_type_specification]
#[verifier::external_body]
pub struct ExTreeElement(xmltree::Element);

/// `xmltree::XMLNode`, opaque: only the conversions below look inside it.
#[verifier::external_type_specification]
#[verifier::external_body]
pub struct ExTreeNode(xmltree::XMLNode);

/// `xml::reader::Error`, opaque: the error that xml-rs reports for malformed XML.
#[verifier::external_type_specification]
#[verifier::external_body]
pub struct ExReaderError(xml::reader::Error);

/// Why `xmltree` could not read a document, variant by variant those of
/// `xmltree::ParseError`.
#[derive(Debug)]
pub enum TreeParseError {
    /// The XML is invalid: xml-rs's error, and the text that its `Display` gives (the position,
    /// then the message).
    MalformedXml(xml::reader::Error, String),
    /// The XML is well formed, but `xmltree` cannot make a tree of it.
    CannotParse,
}

/// Which of the two kinds of `TreeParseError` an error is.
pub enum TreeParseFailure {
    /// Malformed XML, with the text of xml-rs's error.
    MalformedXml(Seq<char>),
    CannotParse,
}

impl TreeParseError {
    /// The kind of this error.
    pub open spec fn kind(&self) -> TreeParseFailure {
        match self {
            TreeParseError::MalformedXml(_, text) => TreeParseFailure::MalformedXml(text@),
            TreeParseError::CannotParse => TreeParseFailure::CannotParse,
        }
    }
}

/// `xml::writer::Error`, opaque: the error that the xml-rs writer reports.
#[verifier::external_type_specification]
#[verifier::external_body]
pub struct ExEmitterError(xml::writer::Error);

/// `xml::writer::EmitterConfig`, opaque: made from `EmitterSettings` for each write.
#[verifier::external_type_specification]
#[verifier::external_body]
pub struct ExXmlEmitterConfig(xml::writer::EmitterConfig);

/// The root element that `xmltree::Element::parse` reads from these bytes, or the kind of error
/// that it reports, for malformed XML with the `Display` text of xml-rs's error (its position
/// and message). Parsing depends on the bytes alone, and so does that text.
pub uninterp spec fn parsed_document(bytes: Seq<u8>) -> Result<ElementModel, TreeParseFailure>;

/// The bytes that `xmltree::Element::write_with_config` writes for this root element under
/// these settings. Writing depends on the element and the settings alone: attributes keep their
/// order (the `attribute-order` feature) and namespace bindings are kept in a sorted map.
pub uninterp spec fn emitted_document(root: ElementModel, config: EmitterSettingsModel) -> Seq<u8>;

/// Reads an XML document with `xmltree::Element::parse` and hands back its root element.
/// Claims: it succeeds exactly where `parsed_document` is `Ok`, and then returns that element;
/// otherwise its error is `xmltree::ParseError`'s, variant by variant, of the kind that
/// `parsed_document` gives; for malformed XML it carries xml-rs's error together with the text
/// that the error's `Display` writes, which is the text `parsed_document` gives. (`xmltree` relies on xml-rs
/// reporting an error for a document without a root element; it does.) Nothing is claimed of
/// which bytes parse, nor of what tree they give.
#[verifier::external_body]
pub(crate) fn parse_document(bytes: &[u8]) -> (r: Result<XmlElement, TreeParseError>)
    ensures
        match parsed_document(bytes@) {
            Ok(m) => r matches Ok(root) && root.model() == m,
            Err(k) => r matches Err(e) && e.kind() == k,
        },
{
    match xmltree::Element::parse(bytes) {
        Ok(root) => Ok(element_from_tree(root)),
        Err(xmltree::ParseError::MalformedXml(e)) => {
            let text = e.to_string();
            Err(TreeParseError::MalformedXml(e, text))
        },
        Err(xmltree::ParseError::CannotParse) => Err(TreeParseError::CannotParse),
    }
}

/// Writes a document whose root is `root` with `xmltree::Element::write_with_config` into a
/// byte vector. Claims: it returns the bytes `emitted_document` names, and they are valid
/// UTF-8; it never fails, since the events that `xmltree` hands the writer always match up (one
/// start of document at most, each end element named as its start) and writing into memory
/// cannot fail.
#[verifier::external_body]
pub(crate) fn emit_document(root: &XmlElement, config: &EmitterSettings) -> (r: Result<
    Vec<u8>,
    xml::writer::Error,
>)
    ensures
        r is Ok,
        r matches Ok(bytes) ==> bytes@ == emitted_document(root.model(), config.model()),
        r matches Ok(bytes) ==> valid_utf8(bytes@),
{
    let mut out: Vec<u8> = Vec::new();
    match element_to_tree(root).write_with_config(&mut out, config_to_tree(config)) {
        Ok(()) => Ok(out),
        Err(e) => Err(e),
    }
}

/// The settings of `xml::writer::EmitterConfig::new`. Claims: they are the defaults that the
/// documentation of each field of `xml::writer::EmitterConfig` gives.
#[verifier::external_body]
pub(crate) fn default_emitter_config() -> (c: EmitterSettings)
    ensures
        c.model() == default_config_model(),
{
    let c = xml::writer::EmitterConfig::new();
    EmitterSettings {
        line_separator: c.line_separator.into_owned(),
        indent_string: c.indent_string.into_owned(),
        perform_indent: c.perform_indent,
        perform_escaping: c.perform_escaping,
        write_document_declaration: c.write_document_declaration,
        normalize_empty_elements: c.normalize_empty_elements,
        cdata_to_characters: c.cdata_to_characters,
        keep_element_names_stack: c.keep_element_names_stack,
        autopad_comments: c.autopad_comments,
        pad_self_closing: c.pad_self_closing,
    }
}

/// Converts an `xmltree::Element` into the library's element, field by field.
#[verifier::external_body]
fn element_from_tree(e: xmltree::Element) -> XmlElement {
    XmlElement {
        prefix: e.prefix,
        namespace: e.namespace,
        namespaces: e.namespaces.map(|ns| ns.0.into_iter().collect()),
        name: e.name,
        attributes: e.attributes.into_iter().collect(),
        children: e.children.into_iter().map(node_from_tree).collect(),
    }
}

/// Converts an `xmltree::XMLNode` into the library's node, variant by variant.
#[verifier::external_body]
fn node_from_tree(n: xmltree::XMLNode) -> XmlNode {
    match n {
        xmltree::XMLNode::Element(e) => XmlNode::Element(element_from_tree(e)),
        xmltree::XMLNode::Comment(s) => XmlNode::Comment(s),
        xmltree::XMLNode::CData(s) => XmlNode::CData(s),
        xmltree::XMLNode::Text(s) => XmlNode::Text(s),
        xmltree::XMLNode::ProcessingInstruction(n, d) => XmlNode::ProcessingInstruction(n, d),
    }
}

/// Converts the library's element into an `xmltree::Element`, field by field.
#[verifier::external_body]
fn element_to_tree(e: &XmlElement) -> xmltree::Element {
    xmltree::Element {
        prefix: e.prefix.clone(),
        namespace: e.namespace.clone(),
        namespaces: e.namespaces.as_ref().map(|ns| xmltree::Namespace(ns.iter().cloned().collect())),
        name: e.name.clone(),
        attributes: e.attributes.iter().cloned().collect(),
        children: e.children.iter().map(node_to_tree).collect(),
    }
}

/// Converts the library's node into an `xmltree::XMLNode`, variant by variant.
#[verifier::external_body]
fn node_to_tree(n: &XmlNode) -> xmltree::XMLNode {
    match n {
        XmlNode::Element(e) => xmltree::XMLNode::Element(element_to_tree(e)),
        XmlNode::Comment(s) => xmltree::XMLNode::Comment(s.clone()),
        XmlNode::CData(s) => xmltree::XMLNode::CData(s.clone()),
        XmlNode::Text(s) => xmltree::XMLNode::Text(s.clone()),
        XmlNode::ProcessingInstruction(n, d) => xmltree::XMLNode::ProcessingInstruction(
            n.clone(),
            d.clone(),
        ),
    }
}

/// Converts the library's settings into an `xml::writer::EmitterConfig`, field by field.
#[verifier::external_body]
fn config_to_tree(c: &EmitterSettings) -> xml::writer::EmitterConfig {
    xml::writer::EmitterConfig {
        line_separator: c.line_separator.clone().into(),
        indent_string: c.indent_string.clone().into(),
        perform_indent: c.perform_indent,
        perform_escaping: c.perform_escaping,
        write_document_declaration: c.write_document_declaration,
        normalize_empty_elements: c.normalize_empty_elements,
        cdata_to_characters: c.cdata_to_characters,
        keep_element_names_stack: c.keep_element_names_stack,
        autopad_comments: c.autopad_comments,
        pad_self_closing: c.pad_self_closing,
    }
}

} // verus!
