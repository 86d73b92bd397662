//! The SOAP envelope: a header and a body, each a list of XML nodes.

use vstd::prelude::*;
use vstd::utf8::valid_utf8;
use crate::codec::{TreeParseError, TreeParseFailure, default_emitter_config, emit_document, emitted_document, parse_document, parsed_document};
use crate::dom::{is_element_named, is_first_named, lemma_first_child_named, ElementModel, NodeModel, XmlElement, XmlNode, clone_nodes, first_child_named, nodes_model, str_eq};
use crate::helper::element_builder::{ElementBuilder, new_element_model};

verus! {

/// Settings for writing an XML document, field by field those of `xml::writer::EmitterConfig`.
#[derive(Debug)]
pub struct EmitterSettings {
    /// Line separator used to separate lines in formatted output.
    pub line_separator: String,
    /// The string used for a single level of indentation.
    pub indent_string: String,
    /// Whether the emitted document is indented.
    pub perform_indent: bool,
    /// Whether characters in character data and attributes are escaped.
    pub perform_escaping: bool,
    /// Whether an XML declaration starts the document.
    pub write_document_declaration: bool,
    /// Whether elements with empty content are written as empty elements.
    pub normalize_empty_elements: bool,
    /// Whether CDATA sections are written as plain character data.
    pub cdata_to_characters: bool,
    /// Whether element names are kept for writing closing tags.
    pub keep_element_names_stack: bool,
    /// Whether spaces are put around the text of comments where needed.
    pub autopad_comments: bool,
    /// Whether a space stands before the `/>` of an empty element.
    pub pad_self_closing: bool,
}

/// The mathematical value of an `EmitterSettings`.
pub struct EmitterSettingsModel {
    pub line_separator: Seq<char>,
    pub indent_string: Seq<char>,
    pub perform_indent: bool,
    pub perform_escaping: bool,
    pub write_document_declaration: bool,
    pub normalize_empty_elements: bool,
    pub cdata_to_characters: bool,
    pub keep_element_names_stack: bool,
    pub autopad_comments: bool,
    pub pad_self_closing: bool,
}

/// The settings that `xml::writer::EmitterConfig::new` documents as its defaults.
pub open spec fn default_config_model() -> EmitterSettingsModel {
    EmitterSettingsModel {
        line_separator: seq!['\n'],
        indent_string: seq![' ', ' '],
        perform_indent: false,
        perform_escaping: true,
        write_document_declaration: true,
        normalize_empty_elements: true,
        cdata_to_characters: false,
        keep_element_names_stack: true,
        autopad_comments: true,
        pad_self_closing: true,
    }
}

impl EmitterSettings {
    pub open spec fn model(&self) -> EmitterSettingsModel {
        EmitterSettingsModel {
            line_separator: self.line_separator@,
            indent_string: self.indent_string@,
            perform_indent: self.perform_indent,
            perform_escaping: self.perform_escaping,
            write_document_declaration: self.write_document_declaration,
            normalize_empty_elements: self.normalize_empty_elements,
            cdata_to_characters: self.cdata_to_characters,
            keep_element_names_stack: self.keep_element_names_stack,
            autopad_comments: self.autopad_comments,
            pad_self_closing: self.pad_self_closing,
        }
    }

    /// The default settings of the XML writer.
    pub fn new() -> (c: Self)
        ensures
            c.model() == default_config_model(),
    {
        default_emitter_config()
    }

    /// Sets the line separator.
    pub fn line_separator(self, value: &str) -> (c: Self)
        ensures
            c.model() == (EmitterSettingsModel { line_separator: value@, ..self.model() }),
    {
        EmitterSettings { line_separator: String::from_str(value), ..self }
    }

    /// Sets the string used for one level of indentation.
    pub fn indent_string(self, value: &str) -> (c: Self)
        ensures
            c.model() == (EmitterSettingsModel { indent_string: value@, ..self.model() }),
    {
        EmitterSettings { indent_string: String::from_str(value), ..self }
    }

    /// Sets whether the document is indented.
    pub fn perform_indent(self, value: bool) -> (c: Self)
        ensures
            c.model() == (EmitterSettingsModel { perform_indent: value, ..self.model() }),
    {
        EmitterSettings { perform_indent: value, ..self }
    }

    /// Sets whether an XML declaration starts the document.
    pub fn write_document_declaration(self, value: bool) -> (c: Self)
        ensures
            c.model() == (EmitterSettingsModel { write_document_declaration: value, ..self.model() }),
    {
        EmitterSettings { write_document_declaration: value, ..self }
    }

    /// Sets whether elements with empty content are written as empty elements.
    pub fn normalize_empty_elements(self, value: bool) -> (c: Self)
        ensures
            c.model() == (EmitterSettingsModel { normalize_empty_elements: value, ..self.model() }),
    {
        EmitterSettings { normalize_empty_elements: value, ..self }
    }

    /// Sets whether CDATA sections are written as plain character data.
    pub fn cdata_to_characters(self, value: bool) -> (c: Self)
        ensures
            c.model() == (EmitterSettingsModel { cdata_to_characters: value, ..self.model() }),
    {
        EmitterSettings { cdata_to_characters: value, ..self }
    }

    /// Sets whether element names are kept for writing closing tags.
    pub fn keep_element_names_stack(self, value: bool) -> (c: Self)
        ensures
            c.model() == (EmitterSettingsModel { keep_element_names_stack: value, ..self.model() }),
    {
        EmitterSettings { keep_element_names_stack: value, ..self }
    }

    /// Sets whether spaces are put around the text of comments where needed.
    pub fn autopad_comments(self, value: bool) -> (c: Self)
        ensures
            c.model() == (EmitterSettingsModel { autopad_comments: value, ..self.model() }),
    {
        EmitterSettings { autopad_comments: value, ..self }
    }

    /// Sets whether a space stands before the `/>` of an empty element.
    pub fn pad_self_closing(self, value: bool) -> (c: Self)
        ensures
            c.model() == (EmitterSettingsModel { pad_self_closing: value, ..self.model() }),
    {
        EmitterSettings { pad_self_closing: value, ..self }
    }
}

/// The namespace of SOAP 1.2 envelopes.
pub const SOAP_ENV_NAMESPACE: &'static str = "http://www.w3.org/2003/05/soap-envelope";

/// Container for an SOAP Envelope
#[derive(Debug)]
pub struct Envelope {
    pub header: Vec<XmlNode>,
    pub body: Vec<XmlNode>,
}

/// Errors that can occur parsing XML
#[derive(Debug)]
pub enum ParseError {
    /// The XML is invalid
    MalformedXml(TreeParseError),
    /// Root tag of the parsed data is not `Envelope`
    InvalidEnvelopeName,
    /// No `Body` child was found in the `Envelope`
    MissingBody,
}

/// Errors that can occur writing XML
#[derive(Debug)]
pub enum WriteError {
    /// The XML writer reported an error
    Emitter(xml::writer::Error),
}

impl ParseError {
    /// The text that describes the error, as `Display` writes it: `Malformed XML. ` and
    /// `xmltree`'s own text (`Malformed XML. ` and the xml-rs error, or `Cannot parse`),
    /// `Invalid envelope name`, or `Missing body`.
    pub fn message(&self) -> (s: String)
        ensures
            match self {
                ParseError::MalformedXml(TreeParseError::MalformedXml(_, text)) => s@
                    == "Malformed XML. Malformed XML. "@ + text@,
                ParseError::MalformedXml(TreeParseError::CannotParse) => s@ == "Malformed XML. Cannot parse"@,
                ParseError::InvalidEnvelopeName => s@ == "Invalid envelope name"@,
                ParseError::MissingBody => s@ == "Missing body"@,
            },
    {
        match self {
            ParseError::MalformedXml(TreeParseError::MalformedXml(_, text)) => {
                let mut s = String::from_str("Malformed XML. Malformed XML. ");
                s.append(text.as_str());
                s
            },
            ParseError::MalformedXml(TreeParseError::CannotParse) => String::from_str(
                "Malformed XML. Cannot parse",
            ),
            ParseError::InvalidEnvelopeName => String::from_str("Invalid envelope name"),
            ParseError::MissingBody => String::from_str("Missing body"),
        }
    }

    /// A short description of the error.
    pub fn description(&self) -> (d: &'static str)
        ensures
            d@ == match self {
                ParseError::MalformedXml(..) => "Malformed XML"@,
                ParseError::InvalidEnvelopeName => "Invalid envelope name"@,
                ParseError::MissingBody => "Missing body"@,
            },
    {
        match self {
            ParseError::MalformedXml(..) => "Malformed XML",
            ParseError::InvalidEnvelopeName => "Invalid envelope name",
            ParseError::MissingBody => "Missing body",
        }
    }
}

/// The children of the first `Header` element under `root`, or nothing where there is none.
pub open spec fn header_of(root: ElementModel) -> Seq<NodeModel> {
    match first_child_named(root.children, "Header"@) {
        Some(h) => h.children,
        None => Seq::empty(),
    }
}

/// What reading an envelope out of the root element `root` gives: an error where the root is
/// not named `Envelope` or has no `Body` child; else the children of the first `Header` child
/// (if any) as header and those of the first `Body` child as body.
pub open spec fn envelope_from_root(r: Result<Envelope, ParseError>, root: ElementModel) -> bool {
    if root.name != "Envelope"@ {
        r matches Err(ParseError::InvalidEnvelopeName)
    } else {
        match first_child_named(root.children, "Body"@) {
            None => r matches Err(ParseError::MissingBody),
            Some(body) => r matches Ok(env) && env.header_model() == header_of(root)
                && env.body_model() == body.children,
        }
    }
}

/// The root element that an envelope is written as: `env:Envelope`, binding the prefix `env`
/// to the SOAP namespace, with an `env:Header` child holding the header and an `env:Body`
/// child holding the body.
pub open spec fn envelope_element(header: Seq<NodeModel>, body: Seq<NodeModel>) -> ElementModel {
    ElementModel {
        namespaces: Some(seq![("env"@, SOAP_ENV_NAMESPACE@)]),
        children: seq![
            NodeModel::Element(ElementModel { children: header, ..new_element_model("env:Header"@) }),
            NodeModel::Element(ElementModel { children: body, ..new_element_model("env:Body"@) }),
        ],
        ..new_element_model("env:Envelope"@)
    }
}

/// Reading an envelope out of a root named `Envelope` that has an element child named `Body`
/// succeeds, whatever that element holds (nothing included): the body is every child of the
/// first such element, in order; the header is every child of the first element child named
/// `Header`, in order, or nothing where there is no such child.
pub proof fn law_envelope_read_from_root(
    r: Result<Envelope, ParseError>,
    root: ElementModel,
    body_at: int,
)
    requires
        envelope_from_root(r, root),
        root.name == "Envelope"@,
        is_first_named(root.children, "Body"@, body_at),
    ensures
        r is Ok,
        r->Ok_0.body_model() == root.children[body_at]->Element_0.children,
        forall|header_at: int|
            is_first_named(root.children, "Header"@, header_at) ==> r->Ok_0.header_model()
                == root.children[header_at]->Element_0.children,
        (forall|j: int|
            0 <= j < root.children.len() ==> !is_element_named(#[trigger] root.children[j], "Header"@))
            ==> r->Ok_0.header_model().len() == 0,
{
    lemma_first_child_named(root.children, "Body"@, body_at);
    lemma_first_child_named(root.children, "Header"@, 0);
    assert forall|header_at: int|
        is_first_named(root.children, "Header"@, header_at) implies r->Ok_0.header_model()
            == root.children[header_at]->Element_0.children by {
        lemma_first_child_named(root.children, "Header"@, header_at);
    }
}

/// Reading an envelope fails with `MissingBody` only where the root is named `Envelope` and no
/// child of it is an element named `Body`, and with `InvalidEnvelopeName` only where the root
/// has another name.
pub proof fn law_envelope_read_errors(r: Result<Envelope, ParseError>, root: ElementModel)
    requires
        envelope_from_root(r, root),
    ensures
        r matches Err(ParseError::MissingBody) ==> root.name == "Envelope"@ && forall|j: int|
            0 <= j < root.children.len() ==> !is_element_named(#[trigger] root.children[j], "Body"@),
        r matches Err(ParseError::InvalidEnvelopeName) <==> root.name != "Envelope"@,
        r matches Err(ParseError::MalformedXml(_)) ==> false,
{
    lemma_first_child_named(root.children, "Body"@, 0);
}

/// The element an envelope is written as is named `env:Envelope`, binds only `env` to the SOAP
/// namespace, and has exactly two children: an element `env:Header` holding every header node
/// and an element `env:Body` holding every body node, each in order, with nothing else.
pub proof fn law_envelope_element(header: Seq<NodeModel>, body: Seq<NodeModel>)
    ensures
        ({
            let root = envelope_element(header, body);
            &&& root.name == "env:Envelope"@
            &&& root.namespaces == Some(seq![("env"@, SOAP_ENV_NAMESPACE@)])
            &&& root.attributes.len() == 0
            &&& root.children.len() == 2
            &&& root.children[0] matches NodeModel::Element(h) && h.name == "env:Header"@
                && h.children == header && h.attributes.len() == 0 && h.namespaces is None
            &&& root.children[1] matches NodeModel::Element(b) && b.name == "env:Body"@
                && b.children == body && b.attributes.len() == 0 && b.namespaces is None
        }),
{
}

impl Envelope {
    pub open spec fn header_model(&self) -> Seq<NodeModel> {
        nodes_model(self.header@)
    }

    pub open spec fn body_model(&self) -> Seq<NodeModel> {
        nodes_model(self.body@)
    }

    /// Create an empty Envelope
    pub fn empty() -> (e: Self)
        ensures
            e.header@.len() == 0,
            e.body@.len() == 0,
    {
        Envelope { header: Vec::new(), body: Vec::new() }
    }

    /// Reads an envelope out of the root element of a parsed document.
    pub fn from_root(root: &XmlElement) -> (r: Result<Envelope, ParseError>)
        ensures
            envelope_from_root(r, root.model()),
    {
        if !str_eq(root.name.as_str(), "Envelope") {
            return Err(ParseError::InvalidEnvelopeName);
        }
        let mut envelope = Self::empty();
        match root.get_child("Header") {
            Some(child) => {
                envelope.header = clone_nodes(&child.children);
                assert(child.model().children =~= nodes_model(child.children@));
            },
            None => {
                assert(envelope.header_model() =~= Seq::empty());
            },
        }
        match root.get_child("Body") {
            Some(child) => {
                envelope.body = clone_nodes(&child.children);
                assert(child.model().children =~= nodes_model(child.children@));
            },
            None => {
                return Err(ParseError::MissingBody);
            },
        }
        Ok(envelope)
    }

    /// Parses xml data into an Envelope
    pub fn parse(bytes: &[u8]) -> (r: Result<Envelope, ParseError>)
        ensures
            match parsed_document(bytes@) {
                Err(kind) => r matches Err(ParseError::MalformedXml(e)) && e.kind() == kind,
                Ok(root) => envelope_from_root(r, root),
            },
    {
        match parse_document(bytes) {
            Ok(root) => Self::from_root(&root),
            Err(e) => Err(ParseError::MalformedXml(e)),
        }
    }

    /// The root element that this envelope is written as.
    pub fn to_element(&self) -> (e: XmlElement)
        ensures
            e.model() == envelope_element(self.header_model(), self.body_model()),
    {
        let mut header = ElementBuilder::new("env:Header").build();
        header.children = clone_nodes(&self.header);
        assert(header.model().children =~= self.header_model());
        let mut body = ElementBuilder::new("env:Body").build();
        body.children = clone_nodes(&self.body);
        assert(body.model().children =~= self.body_model());
        let e = ElementBuilder::new("env:Envelope").ns("env", SOAP_ENV_NAMESPACE).child(header).child(
            body,
        ).build();
        assert(e.model().children =~= envelope_element(self.header_model(), self.body_model()).children);
        e
    }

    /// Writes out this Envelope as the root element in a new XML document using the provided
    /// configuration, and returns the document's bytes, which are valid UTF-8. Writing never
    /// fails.
    pub fn write_with_config(&self, config: EmitterSettings) -> (r: Result<Vec<u8>, WriteError>)
        ensures
            r matches Ok(bytes) && bytes@ == emitted_document(
                envelope_element(self.header_model(), self.body_model()),
                config.model(),
            ) && valid_utf8(bytes@),
    {
        let root = self.to_element();
        match emit_document(&root, &config) {
            Ok(bytes) => Ok(bytes),
            Err(e) => Err(WriteError::Emitter(e)),
        }
    }

    /// Writes out this Envelope as the root element in a new XML document with the default
    /// settings, and returns the document's bytes, which are valid UTF-8. Writing never fails.
    pub fn write(&self) -> (r: Result<Vec<u8>, WriteError>)
        ensures
            r matches Ok(bytes) && bytes@ == emitted_document(
                envelope_element(self.header_model(), self.body_model()),
                default_config_model(),
            ) && valid_utf8(bytes@),
    {
        self.write_with_config(EmitterSettings::new())
    }
}

} // verus!
