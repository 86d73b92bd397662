//! A builder for XML elements.

use vstd::prelude::*;
use crate::dom::{keys_unique, ElementModel, NodeModel, XmlElement, XmlNode, str_eq, pairs_model};

verus! {

/// The position of the first pair in `pairs` whose key is `key`, or -1 where there is none.
pub open spec fn key_position(pairs: Seq<(Seq<char>, Seq<char>)>, key: Seq<char>) -> int
    decreases pairs.len(),
{
    if pairs.len() == 0 {
        -1
    } else if pairs[0].0 == key {
        0
    } else {
        let rest = key_position(pairs.drop_first(), key);
        if rest < 0 {
            -1
        } else {
            rest + 1
        }
    }
}

/// Whether some pair in `pairs` has the key `key`.
pub open spec fn has_key(pairs: Seq<(Seq<char>, Seq<char>)>, key: Seq<char>) -> bool {
    exists|i: int| 0 <= i < pairs.len() && pairs[i].0 == key
}

/// The attribute list after inserting `value` under `name` into an insertion-ordered map:
/// an existing entry keeps its place and takes the new value, a new one goes last.
pub open spec fn insert_attribute(
    pairs: Seq<(Seq<char>, Seq<char>)>,
    name: Seq<char>,
    value: Seq<char>,
) -> Seq<(Seq<char>, Seq<char>)> {
    let p = key_position(pairs, name);
    if p >= 0 {
        pairs.update(p, (name, value))
    } else {
        pairs.push((name, value))
    }
}

/// `key_position` is the first position holding the key, and -1 exactly where none does.
pub proof fn lemma_key_position(pairs: Seq<(Seq<char>, Seq<char>)>, key: Seq<char>)
    ensures
        -1 <= key_position(pairs, key) < pairs.len(),
        key_position(pairs, key) >= 0 ==> pairs[key_position(pairs, key)].0 == key,
        forall|j: int| 0 <= j < key_position(pairs, key) ==> pairs[j].0 != key,
        key_position(pairs, key) < 0 <==> !has_key(pairs, key),
    decreases pairs.len(),
{
    if pairs.len() > 0 {
        let rest = pairs.drop_first();
        lemma_key_position(rest, key);
        if pairs[0].0 != key {
            assert forall|j: int| 1 <= j < pairs.len() implies pairs[j] == rest[j - 1] by {}
            if key_position(rest, key) < 0 {
                assert forall|j: int| 0 <= j < pairs.len() implies pairs[j].0 != key by {
                    if j > 0 {
                        assert(pairs[j] == rest[j - 1]);
                        assert(!(0 <= j - 1 < rest.len() && rest[j - 1].0 == key));
                    }
                }
            } else {
                assert(0 <= key_position(rest, key) < rest.len() && rest[key_position(rest, key)].0 == key);
                assert(pairs[key_position(rest, key) + 1].0 == key);
            }
        } else {
            assert(0 <= 0 < pairs.len() && pairs[0].0 == key);
        }
    }
}

/// The namespace bindings after binding `prefix` to `uri` where `prefix` is not yet bound.
pub open spec fn put_namespace(
    namespaces: Option<Seq<(Seq<char>, Seq<char>)>>,
    prefix: Seq<char>,
    uri: Seq<char>,
) -> Option<Seq<(Seq<char>, Seq<char>)>> {
    match namespaces {
        None => Some(seq![(prefix, uri)]),
        Some(ns) => if has_key(ns, prefix) {
            Some(ns)
        } else {
            Some(ns.push((prefix, uri)))
        },
    }
}

/// The empty element with this name, as `xmltree::Element::new` makes it.
pub open spec fn new_element_model(name: Seq<char>) -> ElementModel {
    ElementModel {
        prefix: None,
        namespace: None,
        namespaces: None,
        name,
        attributes: Seq::empty(),
        children: Seq::empty(),
    }
}

/// A builder for `XmlElement`.
pub struct ElementBuilder {
    element: XmlElement,
}

/// The position of the first pair whose key is `key`, if any.
fn find_key(pairs: &Vec<(String, String)>, key: &str) -> (r: Option<usize>)
    ensures
        match r {
            Some(i) => key_position(pairs_model(pairs@), key@) == i,
            None => key_position(pairs_model(pairs@), key@) == -1,
        },
{
    let ghost model = pairs_model(pairs@);
    proof {
        lemma_key_position(model, key@);
    }
    let mut i: usize = 0;
    while i < pairs.len()
        invariant
            i <= pairs@.len(),
            model == pairs_model(pairs@),
            forall|j: int| 0 <= j < i ==> model[j].0 != key@,
            -1 <= key_position(model, key@) < model.len(),
            key_position(model, key@) >= 0 ==> model[key_position(model, key@)].0 == key@,
            forall|j: int| 0 <= j < key_position(model, key@) ==> model[j].0 != key@,
            key_position(model, key@) < 0 <==> !has_key(model, key@),
        decreases pairs@.len() - i,
    {
        if str_eq(pairs[i].0.as_str(), key) {
            proof {
                let p = key_position(model, key@);
                assert(0 <= i < model.len() && model[i as int].0 == key@);
                if p >= 0 && p < i {
                    assert(model[p].0 != key@);
                }
            }
            return Some(i);
        }
        i = i + 1;
    }
    proof {
        let p = key_position(model, key@);
        if p >= 0 {
            assert(model[p].0 == key@);
        }
    }
    None
}

/// Setting an attribute changes only the attribute of that name: where the name is present,
/// the list keeps its length and only that entry takes the new value; where it is absent, the
/// new entry goes last and nothing else moves. Every attribute of another name keeps its place
/// and value, the name ends up holding the value, and keys that were unique stay unique.
pub proof fn law_attribute_insert(
    pairs: Seq<(Seq<char>, Seq<char>)>,
    name: Seq<char>,
    value: Seq<char>,
)
    ensures
        ({
            let r = insert_attribute(pairs, name, value);
            &&& (exists|i: int| 0 <= i < pairs.len() && #[trigger] pairs[i].0 == name) ==> r.len()
                == pairs.len()
            &&& (forall|i: int| 0 <= i < pairs.len() ==> #[trigger] pairs[i].0 != name) ==> r.len()
                == pairs.len() + 1 && r[pairs.len() as int] == (name, value)
            &&& forall|i: int| 0 <= i < pairs.len() && #[trigger] pairs[i].0 != name ==> r[i] == pairs[i]
            &&& exists|i: int| 0 <= i < r.len() && #[trigger] r[i] == (name, value)
            &&& keys_unique(pairs) ==> keys_unique(r) && forall|i: int|
                0 <= i < r.len() && #[trigger] r[i].0 == name ==> r[i].1 == value
        }),
{
    lemma_key_position(pairs, name);
    let r = insert_attribute(pairs, name, value);
    let p = key_position(pairs, name);
    if p >= 0 {
        assert(r[p] == (name, value));
    } else {
        assert(r[pairs.len() as int] == (name, value));
    }
    if keys_unique(pairs) {
        assert forall|i: int, j: int|
            0 <= i < r.len() && 0 <= j < r.len() && i != j implies r[i].0 != r[j].0 by {
            if p < 0 {
                if i == pairs.len() {
                    assert(!(0 <= j < pairs.len() && pairs[j].0 == name));
                } else if j == pairs.len() {
                    assert(!(0 <= i < pairs.len() && pairs[i].0 == name));
                }
            }
        }
        assert forall|i: int| 0 <= i < r.len() && #[trigger] r[i].0 == name implies r[i].1 == value by {
            if p >= 0 && i != p {
                assert(pairs[i].0 == name && pairs[p].0 == name);
            } else if p < 0 && i < pairs.len() {
                assert(0 <= i < pairs.len() && pairs[i].0 == name);
            }
        }
    }
}

/// Binding a namespace prefix never changes a binding there is: every existing binding keeps
/// its place and URI, and the prefix ends up bound, to the new URI only where it was unbound.
pub proof fn law_namespace_put(
    namespaces: Option<Seq<(Seq<char>, Seq<char>)>>,
    prefix: Seq<char>,
    uri: Seq<char>,
)
    ensures
        ({
            let r = put_namespace(namespaces, prefix, uri)->0;
            &&& put_namespace(namespaces, prefix, uri) is Some
            &&& namespaces matches Some(ns) ==> r.len() >= ns.len() && forall|i: int|
                0 <= i < ns.len() ==> r[i] == #[trigger] ns[i]
            &&& exists|i: int| 0 <= i < r.len() && #[trigger] r[i].0 == prefix
            &&& (namespaces matches Some(ns) ==> forall|i: int|
                0 <= i < ns.len() ==> #[trigger] ns[i].0 != prefix) ==> r.last() == (prefix, uri)
        }),
{
    match namespaces {
        None => {
            assert(put_namespace(namespaces, prefix, uri)->0[0].0 == prefix);
        },
        Some(ns) => {
            if has_key(ns, prefix) {
                let k = choose|k: int| 0 <= k < ns.len() && ns[k].0 == prefix;
                assert(put_namespace(namespaces, prefix, uri)->0[k].0 == prefix);
            } else {
                assert(put_namespace(namespaces, prefix, uri)->0[ns.len() as int].0 == prefix);
            }
        },
    }
}

/// Setting an attribute twice keeps the second value: duplicate values are overridden, and the
/// attribute keeps the place that the first setting gave it.
pub proof fn lemma_attribute_overridden(
    pairs: Seq<(Seq<char>, Seq<char>)>,
    name: Seq<char>,
    first: Seq<char>,
    second: Seq<char>,
)
    ensures
        insert_attribute(insert_attribute(pairs, name, first), name, second) == insert_attribute(
            pairs,
            name,
            second,
        ),
{
    let once = insert_attribute(pairs, name, first);
    lemma_key_position(pairs, name);
    lemma_key_position(once, name);
    let p = key_position(pairs, name);
    let q = key_position(once, name);
    if p >= 0 {
        assert(once[p].0 == name);
        if q < p {
            assert(once[q] == pairs[q]);
        }
        assert(q <= p);
        assert(q == p);
    } else {
        assert(once[pairs.len() as int].0 == name);
        if q < pairs.len() {
            assert(once[q] == pairs[q]);
            assert(has_key(pairs, name));
        }
        assert(q == pairs.len());
    }
    assert(insert_attribute(once, name, second) =~= insert_attribute(pairs, name, second));
}

/// Binding a prefix that is already bound changes nothing: the first binding stays.
pub proof fn lemma_namespace_first_binding_kept(
    namespaces: Option<Seq<(Seq<char>, Seq<char>)>>,
    prefix: Seq<char>,
    first: Seq<char>,
    second: Seq<char>,
)
    ensures
        put_namespace(put_namespace(namespaces, prefix, first), prefix, second) == put_namespace(
            namespaces,
            prefix,
            first,
        ),
{
    let once = put_namespace(namespaces, prefix, first)->0;
    match namespaces {
        None => {
            assert(once[0].0 == prefix);
        },
        Some(ns) => {
            if !has_key(ns, prefix) {
                assert(once[ns.len() as int].0 == prefix);
            }
        },
    }
}

impl ElementBuilder {
    /// The element built so far.
    pub closed spec fn model(&self) -> ElementModel {
        self.element.model()
    }

    /// The attributes and namespace bindings of the element being built never repeat a key.
    #[verifier::type_invariant]
    closed spec fn keys_stay_unique(self) -> bool {
        self.element.model().has_unique_keys()
    }

    /// Starts an element with the given name and nothing else.
    pub fn new(name: &str) -> (b: Self)
        ensures
            b.model().has_unique_keys(),
            b.model() == new_element_model(name@),
    {
        let e = XmlElement {
            prefix: None,
            namespace: None,
            namespaces: None,
            name: String::from_str(name),
            attributes: Vec::new(),
            children: Vec::new(),
        };
        assert(e.model().attributes =~= Seq::empty());
        assert(e.model().children =~= Seq::empty());
        ElementBuilder { element: e }
    }

    /// Sets an attribute value of this element to the given string.
    ///
    /// This method can be used to add attributes to the element. Name is a plain local
    /// name. Duplicate values are overridden.
    pub fn attr(self, name: &str, value: &str) -> (b: Self)
        ensures
            b.model().has_unique_keys(),
            b.model() == (ElementModel {
                attributes: insert_attribute(self.model().attributes, name@, value@),
                ..self.model()
            }),
    {
        proof {
            use_type_invariant(&self);
        }
        let mut element = self.element;
        let ghost before = element.model();
        proof {
            lemma_key_position(before.attributes, name@);
        }
        match find_key(&element.attributes, name) {
            Some(i) => {
                element.attributes.set(i, (String::from_str(name), String::from_str(value)));
            },
            None => {
                element.attributes.push((String::from_str(name), String::from_str(value)));
            },
        }
        assert(element.model().attributes =~= insert_attribute(before.attributes, name@, value@));
        assert(element.model().children =~= before.children);
        ElementBuilder { element }
    }

    /// Adds a namespace to the current namespace context.
    ///
    /// If no namespace URI was bound to the provided prefix at this point of the document,
    /// then the mapping from the prefix to the provided namespace URI will be written as
    /// a part of this element attribute set.
    ///
    /// If the same namespace URI was bound to the provided prefix at this point of the document,
    /// then no namespace attributes will be emitted.
    ///
    /// If some other namespace URI was bound to the provided prefix at this point of the document,
    /// then another binding will be added as a part of this element attribute set, shadowing
    /// the outer binding.
    pub fn ns(self, prefix: &str, uri: &str) -> (b: Self)
        ensures
            b.model().has_unique_keys(),
            b.model() == (ElementModel {
                namespaces: put_namespace(self.model().namespaces, prefix@, uri@),
                ..self.model()
            }),
    {
        proof {
            use_type_invariant(&self);
        }
        let mut element = self.element;
        let ghost before = element.model();
        proof {
            if let Some(ns) = before.namespaces {
                lemma_key_position(ns, prefix@);
            }
        }
        let namespaces = match element.namespaces {
            None => {
                let mut ns: Vec<(String, String)> = Vec::new();
                ns.push((String::from_str(prefix), String::from_str(uri)));
                ns
            },
            Some(mut ns) => {
                match find_key(&ns, prefix) {
                    Some(_) => {},
                    None => {
                        ns.push((String::from_str(prefix), String::from_str(uri)));
                    },
                }
                ns
            },
        };
        proof {
            match before.namespaces {
                None => {
                    assert(pairs_model(namespaces@) =~= seq![(prefix@, uri@)]);
                },
                Some(old_ns) => {
                    assert(pairs_model(namespaces@) =~= put_namespace(before.namespaces, prefix@, uri@)->0);
                },
            }
        }
        element.namespaces = Some(namespaces);
        assert(element.model().children =~= before.children);
        ElementBuilder { element }
    }

    /// Adds a text node as a child of the element.
    pub fn text(self, text: &str) -> (b: Self)
        ensures
            b.model().has_unique_keys(),
            b.model() == (ElementModel {
                children: self.model().children.push(NodeModel::Text(text@)),
                ..self.model()
            }),
    {
        proof {
            use_type_invariant(&self);
        }
        let mut element = self.element;
        let ghost before = element.model();
        element.children.push(XmlNode::Text(String::from_str(text)));
        assert(element.model().children =~= before.children.push(NodeModel::Text(text@)));
        ElementBuilder { element }
    }

    /// Adds another element as a child of this element.
    pub fn child(self, child: XmlElement) -> (b: Self)
        ensures
            b.model().has_unique_keys(),
            b.model() == (ElementModel {
                children: self.model().children.push(NodeModel::Element(child.model())),
                ..self.model()
            }),
    {
        proof {
            use_type_invariant(&self);
        }
        let mut element = self.element;
        let ghost before = element.model();
        let ghost child_model = child.model();
        element.children.push(XmlNode::Element(child));
        assert(element.model().children =~= before.children.push(NodeModel::Element(child_model)));
        ElementBuilder { element }
    }

    /// The element that was built.
    pub fn build(self) -> (e: XmlElement)
        ensures
            e.model().has_unique_keys(),
            e.model() == self.model(),
    {
        proof {
            use_type_invariant(&self);
        }
        self.element
    }
}

impl From<ElementBuilder> for XmlElement {
    fn from(b: ElementBuilder) -> (e: XmlElement) {
        b.element
    }
}

impl vstd::std_specs::convert::FromSpecImpl<ElementBuilder> for XmlElement {
    open spec fn obeys_from_spec() -> bool {
        true
    }

    closed spec fn from_spec(b: ElementBuilder) -> XmlElement {
        b.element
    }
}

/// Building through `From` gives the element that was built.
pub proof fn lemma_from_builder(b: ElementBuilder)
    ensures
        <XmlElement as vstd::std_specs::convert::FromSpec<ElementBuilder>>::from_spec(b).model()
            == b.model(),
{
}

} // verus!
