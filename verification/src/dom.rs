//! The XML tree that envelopes are made of, with its mathematical model.

use vstd::prelude::*;

verus! {

/// A node of an XML tree: an element, or one of the kinds of character data.
#[derive(Debug)]
pub enum XmlNode {
    Element(XmlElement),
    Comment(String),
    CData(String),
    Text(String),
    ProcessingInstruction(String, Option<String>),
}

/// An XML element with its namespace information, attributes and children.
#[derive(Debug)]
pub struct XmlElement {
    /// The element's prefix, if any.
    pub prefix: Option<String>,
    /// The element's namespace, if any.
    pub namespace: Option<String>,
    /// The namespace bindings of the element, as (prefix, uri) pairs.
    pub namespaces: Option<Vec<(String, String)>>,
    /// The element's name.
    pub name: String,
    /// The attributes, as (name, value) pairs in insertion order.
    pub attributes: Vec<(String, String)>,
    /// The child nodes, in document order.
    pub children: Vec<XmlNode>,
}

/// The mathematical value of an `XmlNode`.
pub enum NodeModel {
    Element(ElementModel),
    Comment(Seq<char>),
    CData(Seq<char>),
    Text(Seq<char>),
    ProcessingInstruction(Seq<char>, Option<Seq<char>>),
}

/// The mathematical value of an `XmlElement`.
pub struct ElementModel {
    pub prefix: Option<Seq<char>>,
    pub namespace: Option<Seq<char>>,
    pub namespaces: Option<Seq<(Seq<char>, Seq<char>)>>,
    pub name: Seq<char>,
    pub attributes: Seq<(Seq<char>, Seq<char>)>,
    pub children: Seq<NodeModel>,
}

/// The model of an optional string.
pub open spec fn opt_string_model(o: Option<String>) -> Option<Seq<char>> {
    match o {
        Some(s) => Some(s@),
        None => None,
    }
}

/// The model of a list of string pairs.
pub open spec fn pairs_model(v: Seq<(String, String)>) -> Seq<(Seq<char>, Seq<char>)> {
    Seq::new(v.len(), |i: int| (v[i].0@, v[i].1@))
}

/// The model of an optional list of string pairs.
pub open spec fn opt_pairs_model(o: Option<Vec<(String, String)>>) -> Option<
    Seq<(Seq<char>, Seq<char>)>,
> {
    match o {
        Some(v) => Some(pairs_model(v@)),
        None => None,
    }
}

/// The models of a list of nodes.
pub open spec fn nodes_model(v: Seq<XmlNode>) -> Seq<NodeModel> {
    Seq::new(v.len(), |i: int| v[i].model())
}

impl XmlNode {
    /// The mathematical value of this node.
    pub open spec fn model(&self) -> NodeModel
        decreases self,
    {
        match self {
            XmlNode::Element(e) => NodeModel::Element(e.model()),
            XmlNode::Comment(s) => NodeModel::Comment(s@),
            XmlNode::CData(s) => NodeModel::CData(s@),
            XmlNode::Text(s) => NodeModel::Text(s@),
            XmlNode::ProcessingInstruction(n, d) => NodeModel::ProcessingInstruction(
                n@,
                opt_string_model(*d),
            ),
        }
    }
}

impl XmlElement {
    /// The mathematical value of this element.
    pub open spec fn model(&self) -> ElementModel
        decreases self,
    {
        ElementModel {
            prefix: opt_string_model(self.prefix),
            namespace: opt_string_model(self.namespace),
            namespaces: opt_pairs_model(self.namespaces),
            name: self.name@,
            attributes: pairs_model(self.attributes@),
            children: Seq::new(
                self.children@.len(),
                |i: int|
                    if 0 <= i < self.children@.len() {
                        self.children@[i].model()
                    } else {
                        NodeModel::Text(Seq::empty())
                    },
            ),
        }
    }
}

/// Whether no two pairs in `pairs` have the same key, as in a map.
pub open spec fn keys_unique(pairs: Seq<(Seq<char>, Seq<char>)>) -> bool {
    forall|i: int, j: int|
        0 <= i < pairs.len() && 0 <= j < pairs.len() && i != j ==> pairs[i].0 != pairs[j].0
}

impl ElementModel {
    /// Whether the attributes and the namespace bindings each hold every key at most once, as
    /// the maps of `xmltree::Element` do.
    pub open spec fn has_unique_keys(self) -> bool {
        &&& keys_unique(self.attributes)
        &&& match self.namespaces {
            Some(ns) => keys_unique(ns),
            None => true,
        }
    }
}

/// The first element among `children` whose name is `name`, as `xmltree::Element::get_child`
/// finds it.
pub open spec fn first_child_named(children: Seq<NodeModel>, name: Seq<char>) -> Option<
    ElementModel,
>
    decreases children.len(),
{
    if children.len() == 0 {
        None
    } else {
        match children[0] {
            NodeModel::Element(e) => if e.name == name {
                Some(e)
            } else {
                first_child_named(children.drop_first(), name)
            },
            _ => first_child_named(children.drop_first(), name),
        }
    }
}

/// Whether `node` is an element named `name`.
pub open spec fn is_element_named(node: NodeModel, name: Seq<char>) -> bool {
    match node {
        NodeModel::Element(e) => e.name == name,
        _ => false,
    }
}

/// Whether `i` is the position of the first element among `children` named `name`.
pub open spec fn is_first_named(children: Seq<NodeModel>, name: Seq<char>, i: int) -> bool {
    &&& 0 <= i < children.len()
    &&& is_element_named(children[i], name)
    &&& forall|j: int| 0 <= j < i ==> !is_element_named(#[trigger] children[j], name)
}

/// `first_child_named` finds the element at the first position holding an element of that
/// name, and finds nothing exactly where no child is an element of that name.
pub proof fn lemma_first_child_named(children: Seq<NodeModel>, name: Seq<char>, i: int)
    ensures
        is_first_named(children, name, i) ==> children[i] == NodeModel::Element(
            first_child_named(children, name)->0,
        ) && first_child_named(children, name) is Some,
        first_child_named(children, name) is None <==> forall|j: int|
            0 <= j < children.len() ==> !is_element_named(#[trigger] children[j], name),
    decreases children.len(),
{
    if children.len() > 0 {
        let rest = children.drop_first();
        lemma_first_child_named(rest, name, i - 1);
        assert forall|j: int| 1 <= j < children.len() implies children[j] == rest[j - 1] by {}
        if is_first_named(children, name, i) && i > 0 {
            assert(!is_element_named(children[0], name));
            assert forall|j: int| 0 <= j < i - 1 implies !is_element_named(#[trigger] rest[j], name) by {
                assert(!is_element_named(children[j + 1], name));
            }
            assert(is_first_named(rest, name, i - 1));
        }
        if first_child_named(children, name) is None {
            assert forall|j: int| 0 <= j < children.len() implies !is_element_named(
                #[trigger] children[j],
                name,
            ) by {
                if j > 0 {
                    assert(children[j] == rest[j - 1]);
                }
            }
        } else if !is_element_named(children[0], name) {
            let k = choose|k: int| 0 <= k < rest.len() && is_element_named(#[trigger] rest[k], name);
            assert(is_element_named(children[k + 1], name));
        }
    }
}

/// Whether two string slices hold the same characters.
pub fn str_eq(a: &str, b: &str) -> (r: bool)
    ensures
        r == (a@ == b@),
{
    let n = a.unicode_len();
    if n != b.unicode_len() {
        return false;
    }
    let mut i: usize = 0;
    while i < n
        invariant
            n == a@.len(),
            n == b@.len(),
            i <= n,
            forall|j: int| 0 <= j < i ==> a@[j] == b@[j],
        decreases n - i,
    {
        if a.get_char(i) != b.get_char(i) {
            return false;
        }
        i = i + 1;
    }
    assert(a@ =~= b@);
    true
}

fn clone_opt_string(o: &Option<String>) -> (r: Option<String>)
    ensures
        opt_string_model(r) == opt_string_model(*o),
{
    match o {
        Some(s) => Some(s.clone()),
        None => None,
    }
}

fn clone_pairs(v: &Vec<(String, String)>) -> (r: Vec<(String, String)>)
    ensures
        pairs_model(r@) == pairs_model(v@),
{
    let mut r: Vec<(String, String)> = Vec::new();
    let mut i: usize = 0;
    while i < v.len()
        invariant
            i <= v.len(),
            r@.len() == i,
            forall|j: int| 0 <= j < i ==> r@[j].0@ == v@[j].0@ && r@[j].1@ == v@[j].1@,
        decreases v.len() - i,
    {
        r.push((v[i].0.clone(), v[i].1.clone()));
        i = i + 1;
    }
    assert(pairs_model(r@) =~= pairs_model(v@));
    r
}

impl XmlNode {
    /// The element in this node, if it is one.
    pub fn as_element(&self) -> (r: Option<&XmlElement>)
        ensures
            match self {
                XmlNode::Element(e) => r == Some(e),
                _ => r is None,
            },
    {
        match self {
            XmlNode::Element(e) => Some(e),
            _ => None,
        }
    }

    /// A copy of this node and everything below it.
    pub fn deep_clone(&self) -> (r: XmlNode)
        ensures
            r.model() == self.model(),
        decreases self,
    {
        match self {
            XmlNode::Element(e) => XmlNode::Element(e.deep_clone()),
            XmlNode::Comment(s) => XmlNode::Comment(s.clone()),
            XmlNode::CData(s) => XmlNode::CData(s.clone()),
            XmlNode::Text(s) => XmlNode::Text(s.clone()),
            XmlNode::ProcessingInstruction(n, d) => XmlNode::ProcessingInstruction(
                n.clone(),
                clone_opt_string(d),
            ),
        }
    }
}

/// A copy of a list of nodes and everything below them.
pub fn clone_nodes(v: &Vec<XmlNode>) -> (r: Vec<XmlNode>)
    ensures
        r@.len() == v@.len(),
        forall|i: int| 0 <= i < v@.len() ==> #[trigger] r@[i].model() == v@[i].model(),
        nodes_model(r@) == nodes_model(v@),
{
    let mut r: Vec<XmlNode> = Vec::new();
    let mut i: usize = 0;
    while i < v.len()
        invariant
            i <= v.len(),
            r@.len() == i,
            forall|j: int| 0 <= j < i ==> #[trigger] r@[j].model() == v@[j].model(),
        decreases v.len() - i,
    {
        r.push(v[i].deep_clone());
        i = i + 1;
    }
    assert(nodes_model(r@) =~= nodes_model(v@));
    r
}

impl XmlElement {
    /// A copy of this element and everything below it.
    pub fn deep_clone(&self) -> (r: XmlElement)
        ensures
            r.model() == self.model(),
        decreases self,
    {
        let mut children: Vec<XmlNode> = Vec::new();
        let mut i: usize = 0;
        while i < self.children.len()
            invariant
                i <= self.children@.len(),
                children@.len() == i,
                forall|j: int|
                    0 <= j < i ==> #[trigger] children@[j].model() == self.children@[j].model(),
            decreases self.children@.len() - i,
        {
            children.push(self.children[i].deep_clone());
            i = i + 1;
        }
        let namespaces = match &self.namespaces {
            Some(ns) => Some(clone_pairs(ns)),
            None => None,
        };
        let r = XmlElement {
            prefix: clone_opt_string(&self.prefix),
            namespace: clone_opt_string(&self.namespace),
            namespaces,
            name: self.name.clone(),
            attributes: clone_pairs(&self.attributes),
            children,
        };
        assert forall|j: int| 0 <= j < self.children@.len() implies r.model().children[j]
            == self.model().children[j] by {
            assert(r.children@[j].model() == self.children@[j].model());
        }
        assert(r.model().children =~= self.model().children);
        r
    }

    /// The first child element whose name is `name`.
    pub fn get_child(&self, name: &str) -> (r: Option<&XmlElement>)
        ensures
            match r {
                Some(c) => first_child_named(self.model().children, name@) == Some(c.model()),
                None => first_child_named(self.model().children, name@) is None,
            },
    {
        let ghost all = self.model().children;
        let mut i: usize = 0;
        assert(all.skip(0) =~= all);
        while i < self.children.len()
            invariant
                i <= self.children@.len(),
                all == self.model().children,
                first_child_named(all, name@) == first_child_named(all.skip(i as int), name@),
            decreases self.children@.len() - i,
        {
            assert(all.skip(i as int).drop_first() =~= all.skip(i + 1));
            match &self.children[i] {
                XmlNode::Element(e) => {
                    if str_eq(e.name.as_str(), name) {
                        return Some(e);
                    }
                },
                _ => {},
            }
            i = i + 1;
        }
        assert(all.skip(i as int).len() == 0);
        None
    }
}

} // verus!
