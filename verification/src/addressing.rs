//! WS-Addressing headers.

use vstd::prelude::*;
use crate::dom::{is_element_named, ElementModel, NodeModel, XmlNode, nodes_model, opt_string_model};
use crate::envelope::Envelope;
use crate::helper::element_builder::{ElementBuilder, new_element_model};

verus! {

/// The namespace of WS-Addressing (August 2004).
pub const WSA_NAMESPACE: &'static str = "http://schemas.xmlsoap.org/ws/2004/08/addressing";

/// Implementation of WS-Addressing
///
/// # Status
/// Incomplete
#[derive(Debug, Clone, PartialEq, Eq)]
pub struct Addressing {
    pub action: Option<String>,
    pub message_id: Option<String>,
    pub to: Option<String>,
}

/// The mathematical value of an `Addressing`.
pub struct AddressingModel {
    pub action: Option<Seq<char>>,
    pub message_id: Option<Seq<char>>,
    pub to: Option<Seq<char>>,
}

/// The addressing with no field set.
pub open spec fn empty_addressing() -> AddressingModel {
    AddressingModel { action: None, message_id: None, to: None }
}

/// The header element `name` (such as `wsa:Action`), binding the prefix `wsa` to the
/// WS-Addressing namespace and holding `text`.
pub open spec fn wsa_element(name: Seq<char>, text: Seq<char>) -> ElementModel {
    ElementModel {
        namespaces: Some(seq![("wsa"@, WSA_NAMESPACE@)]),
        children: seq![NodeModel::Text(text)],
        ..new_element_model(name)
    }
}

/// The header node for a field: one element where the field is set, none where it is not.
pub open spec fn wsa_header(name: Seq<char>, field: Option<Seq<char>>) -> Seq<NodeModel> {
    match field {
        Some(text) => seq![NodeModel::Element(wsa_element(name, text))],
        None => Seq::empty(),
    }
}

/// The header nodes that an addressing writes: `wsa:Action`, `wsa:MessageID` and `wsa:To`,
/// in this order, each where its field is set.
pub open spec fn addressing_headers(a: AddressingModel) -> Seq<NodeModel> {
    wsa_header("wsa:Action"@, a.action) + wsa_header("wsa:MessageID"@, a.message_id) + wsa_header(
        "wsa:To"@,
        a.to,
    )
}

/// Whether `node` is the WS-Addressing header element `name`: no prefix or namespace of its
/// own, `wsa` bound to the WS-Addressing namespace, no attributes, and `text` as its only child.
pub open spec fn is_wsa_header(node: NodeModel, name: Seq<char>, text: Seq<char>) -> bool {
    match node {
        NodeModel::Element(e) => {
            &&& e.name == name
            &&& e.prefix is None
            &&& e.namespace is None
            &&& e.namespaces == Some(seq![("wsa"@, WSA_NAMESPACE@)])
            &&& e.attributes.len() == 0
            &&& e.children == seq![NodeModel::Text(text)]
        },
        _ => false,
    }
}

/// How many of the three fields are set.
pub open spec fn set_fields(a: AddressingModel) -> int {
    (if a.action is Some { 1int } else { 0 }) + (if a.message_id is Some { 1int } else { 0 }) + (
    if a.to is Some { 1int } else { 0 })
}

/// What writing a field adds to `added`: where it is set, a header element of its name holding
/// its text; where it is not, no element of its name.
pub open spec fn field_written(added: Seq<NodeModel>, name: Seq<char>, field: Option<Seq<char>>) -> bool {
    match field {
        Some(text) => exists|i: int| 0 <= i < added.len() && is_wsa_header(#[trigger] added[i], name, text),
        None => forall|i: int| 0 <= i < added.len() ==> !is_element_named(#[trigger] added[i], name),
    }
}

/// Writing an addressing keeps the header there was and adds one node per set field, no more:
/// for each of `wsa:Action`, `wsa:MessageID` and `wsa:To`, a header element of that name
/// holding the field's text where the field is set, whatever the other fields are, and no
/// element of that name where it is not.
pub proof fn law_addressing_write(a: AddressingModel, before: Seq<NodeModel>, after: Seq<NodeModel>)
    requires
        after == before + addressing_headers(a),
    ensures
        after.len() == before.len() + set_fields(a),
        after.subrange(0, before.len() as int) == before,
        field_written(after.skip(before.len() as int), "wsa:Action"@, a.action),
        field_written(after.skip(before.len() as int), "wsa:MessageID"@, a.message_id),
        field_written(after.skip(before.len() as int), "wsa:To"@, a.to),
{
    let added = after.skip(before.len() as int);
    let h1 = wsa_header("wsa:Action"@, a.action);
    let h2 = wsa_header("wsa:MessageID"@, a.message_id);
    let h3 = wsa_header("wsa:To"@, a.to);
    assert(added =~= h1 + h2 + h3);
    assert(after.subrange(0, before.len() as int) =~= before);
    reveal_strlit("wsa:Action");
    reveal_strlit("wsa:MessageID");
    reveal_strlit("wsa:To");
    assert forall|i: int| 0 <= i < added.len() implies #[trigger] added[i] == (if i < h1.len() {
        h1[i]
    } else if i < h1.len() + h2.len() {
        h2[i - h1.len()]
    } else {
        h3[i - h1.len() - h2.len()]
    }) by {}
    assert("wsa:Action"@.len() == 10 && "wsa:MessageID"@.len() == 13 && "wsa:To"@.len() == 6);
    assert(forall|i: int| 0 <= i < h1.len() ==> is_element_named(#[trigger] h1[i], "wsa:Action"@));
    assert(forall|i: int|
        0 <= i < h2.len() ==> is_element_named(#[trigger] h2[i], "wsa:MessageID"@));
    assert(forall|i: int| 0 <= i < h3.len() ==> is_element_named(#[trigger] h3[i], "wsa:To"@));
    if let Some(t) = a.action {
        assert(is_wsa_header(added[0], "wsa:Action"@, t));
    }
    if let Some(t) = a.message_id {
        assert(is_wsa_header(added[h1.len() as int], "wsa:MessageID"@, t));
    }
    if let Some(t) = a.to {
        assert(is_wsa_header(added[(h1.len() + h2.len()) as int], "wsa:To"@, t));
    }
}

/// Appends the header element `name` holding `text` to the envelope's header.
fn push_wsa_header(envelope: &mut Envelope, name: &str, text: &str)
    ensures
        final(envelope).header_model() == old(envelope).header_model() + wsa_header(
            name@,
            Some(text@),
        ),
        final(envelope).body == old(envelope).body,
{
    let element = ElementBuilder::new(name).ns("wsa", WSA_NAMESPACE).text(text).build();
    proof {
        assert(element.model().children =~= seq![NodeModel::Text(text@)]);
    }
    envelope.header.push(XmlNode::Element(element));
    assert(envelope.header_model() =~= old(envelope).header_model() + wsa_header(
        name@,
        Some(text@),
    ));
}

impl Addressing {
    pub open spec fn model(&self) -> AddressingModel {
        AddressingModel {
            action: opt_string_model(self.action),
            message_id: opt_string_model(self.message_id),
            to: opt_string_model(self.to),
        }
    }

    /// Appends a header element to the envelope for each field that is set: `wsa:Action`,
    /// `wsa:MessageID` and `wsa:To`, in this order. The body is left as it is.
    pub fn write(&self, envelope: &mut Envelope)
        ensures
            final(envelope).header_model() == old(envelope).header_model() + addressing_headers(
                self.model(),
            ),
            final(envelope).body == old(envelope).body,
    {
        let ghost start = envelope.header_model();
        if let Some(action) = &self.action {
            push_wsa_header(envelope, "wsa:Action", action.as_str());
        }
        let ghost after_action = envelope.header_model();
        assert(after_action =~= start + wsa_header("wsa:Action"@, self.model().action));
        if let Some(message_id) = &self.message_id {
            push_wsa_header(envelope, "wsa:MessageID", message_id.as_str());
        }
        let ghost after_id = envelope.header_model();
        assert(after_id =~= after_action + wsa_header("wsa:MessageID"@, self.model().message_id));
        if let Some(to) = &self.to {
            push_wsa_header(envelope, "wsa:To", to.as_str());
        }
        assert(envelope.header_model() =~= after_id + wsa_header("wsa:To"@, self.model().to));
        assert(envelope.header_model() =~= start + addressing_headers(self.model()));
    }
}

/// A builder for `Addressing`.
#[derive(Debug, Clone, PartialEq, Eq)]
pub struct AddressingBuilder {
    addressing: Addressing,
}

impl AddressingBuilder {
    /// The addressing built so far.
    pub closed spec fn model(&self) -> AddressingModel {
        self.addressing.model()
    }

    /// A builder with no field set.
    pub fn new() -> (b: Self)
        ensures
            b.model() == empty_addressing(),
    {
        AddressingBuilder { addressing: Addressing { action: None, message_id: None, to: None } }
    }

    /// Sets the action.
    pub fn action(self, text: &str) -> (b: Self)
        ensures
            b.model() == (AddressingModel { action: Some(text@), ..self.model() }),
    {
        let mut b = self;
        b.addressing.action = Some(String::from_str(text));
        b
    }

    /// Sets the message id.
    pub fn message_id(self, text: &str) -> (b: Self)
        ensures
            b.model() == (AddressingModel { message_id: Some(text@), ..self.model() }),
    {
        let mut b = self;
        b.addressing.message_id = Some(String::from_str(text));
        b
    }

    /// Sets the destination.
    pub fn to(self, text: &str) -> (b: Self)
        ensures
            b.model() == (AddressingModel { to: Some(text@), ..self.model() }),
    {
        let mut b = self;
        b.addressing.to = Some(String::from_str(text));
        b
    }

    /// The addressing that was built.
    pub fn build(self) -> (a: Addressing)
        ensures
            a.model() == self.model(),
    {
        self.addressing
    }
}

impl Default for Addressing {
    fn default() -> (a: Self)
        ensures
            a.model() == empty_addressing(),
    {
        Addressing { action: None, message_id: None, to: None }
    }
}

impl Default for AddressingBuilder {
    fn default() -> (b: Self)
        ensures
            b.model() == empty_addressing(),
    {
        AddressingBuilder::new()
    }
}

impl From<AddressingBuilder> for Addressing {
    fn from(b: AddressingBuilder) -> (a: Addressing) {
        b.addressing
    }
}

impl vstd::std_specs::convert::FromSpecImpl<AddressingBuilder> for Addressing {
    open spec fn obeys_from_spec() -> bool {
        true
    }

    closed spec fn from_spec(b: AddressingBuilder) -> Addressing {
        b.addressing
    }
}

/// Converting a builder with `From` gives the addressing that was built.
pub proof fn lemma_from_builder(b: AddressingBuilder)
    ensures
        <Addressing as vstd::std_specs::convert::FromSpec<AddressingBuilder>>::from_spec(b).model()
            == b.model(),
{
}

} // verus!
