//! XML documents as a list of nodes in document order, each naming its parent,
//! as `roxmltree` parses them.

use roxmltree::{Document, NodeType};
use vstd::prelude::*;

use crate::text::str_eq;

verus! {

/// The kind of an XML node.
#[derive(Clone, Copy, Debug, PartialEq, Eq, Structural)]
pub enum XmlKind {
    Root,
    Element,
    Text,
    Comment,
    Instruction,
}

/// One node of a parsed document.
pub struct XmlItem {
    /// The node's identity within its document.
    pub id: u32,
    /// The identity of its parent; only the root has none.
    pub parent: Option<u32>,
    pub kind: XmlKind,
    /// The local part of its tag name; empty for nodes that are not elements.
    pub name: String,
    /// Its attributes, by local name, in order.
    pub attrs: Vec<(String, String)>,
    /// Its text: a text or comment node's own, an element's first child's when
    /// that is text.
    pub text: Option<String>,
}

/// A node over plain values.
pub struct XmlItemView {
    pub id: nat,
    pub parent: Option<nat>,
    pub kind: XmlKind,
    pub name: Seq<char>,
    pub attrs: Seq<(Seq<char>, Seq<char>)>,
    pub text: Option<Seq<char>>,
}

impl View for XmlItem {
    type V = XmlItemView;

    open spec fn view(&self) -> XmlItemView {
        XmlItemView {
            id: self.id as nat,
            parent: match self.parent {
                Some(p) => Some(p as nat),
                None => None,
            },
            kind: self.kind,
            name: self.name@,
            attrs: self.attrs@.map_values(|a: (String, String)| (a.0@, a.1@)),
            text: match self.text {
                Some(t) => Some(t@),
                None => None,
            },
        }
    }
}

/// A parsed document: its nodes in document order, the root first.
pub struct XmlDoc {
    pub items: Vec<XmlItem>,
}

impl View for XmlDoc {
    type V = Seq<XmlItemView>;

    open spec fn view(&self) -> Seq<XmlItemView> {
        self.items@.map_values(|n: XmlItem| n@)
    }
}

/// The nodes of the document that `roxmltree` parses from `text`, or `None`
/// when it refuses the text.
pub uninterp spec fn xml_parse(text: Seq<char>) -> Option<Seq<XmlItemView>>;

/// Parses `text` with `roxmltree::Document::parse` and lists the document's
/// nodes in document order (`Document::descendants`), each with the identity
/// of its parent, its kind, its tag name, its attributes and its text, as
/// `roxmltree`'s accessors give them. The contract names the result and
/// claims no property of it: that is `roxmltree`'s work.
#[verifier::external_body]
pub(crate) fn parse_xml(text: &str) -> (r: Option<XmlDoc>)
    ensures
        match r {
            Some(d) => xml_parse(text@) == Some(d@),
            None => xml_parse(text@) is None,
        },
{
    let d = Document::parse(text).ok()?;
    Some(XmlDoc { items: d.descendants().map(|n| XmlItem {
        id: n.id().get(),
        parent: n.parent().map(|p| p.id().get()),
        kind: match n.node_type() {
            NodeType::Root => XmlKind::Root,
            NodeType::Element => XmlKind::Element,
            NodeType::Text => XmlKind::Text,
            NodeType::Comment => XmlKind::Comment,
            NodeType::PI => XmlKind::Instruction,
        },
        name: n.tag_name().name().to_string(),
        attrs: n.attributes().map(|a| (a.name().to_string(), a.value().to_string())).collect(),
        text: n.text().map(String::from),
    }).collect() })
}

/// The positions, in order, of the nodes among the first `n` whose parent has
/// identity `id`.
pub open spec fn children_upto(d: Seq<XmlItemView>, id: nat, n: int) -> Seq<int>
    decreases n,
{
    if n <= 0 {
        Seq::empty()
    } else if d[n - 1].parent == Some(id) {
        children_upto(d, id, n - 1).push(n - 1)
    } else {
        children_upto(d, id, n - 1)
    }
}

/// The positions, in order, of the children of the node at position `k`.
pub open spec fn spec_children(d: Seq<XmlItemView>, k: int) -> Seq<int> {
    children_upto(d, d[k].id, d.len() as int)
}

/// Every position in `children_upto` is a node of the document.
pub proof fn lemma_children_in_range(d: Seq<XmlItemView>, id: nat, n: int)
    requires
        n <= d.len(),
    ensures
        forall|i: int| 0 <= i < children_upto(d, id, n).len() ==> 0 <= #[trigger] children_upto(d, id, n)[i] < n,
    decreases n,
{
    if n > 0 {
        lemma_children_in_range(d, id, n - 1);
        let prev = children_upto(d, id, n - 1);
        let c = children_upto(d, id, n);
        assert forall|i: int| 0 <= i < c.len() implies 0 <= #[trigger] c[i] < n by {
            if i < prev.len() {
                assert(c[i] == prev[i]);
            }
        }
    }
}

/// Whether the node at position `k` is an element whose tag name has the
/// local part `name`, whatever its namespace.
pub open spec fn spec_has_tag_name(d: Seq<XmlItemView>, k: int, name: Seq<char>) -> bool {
    d[k].kind == XmlKind::Element && d[k].name == name
}

/// The first attribute named `name`, if any.
pub open spec fn attr_from(attrs: Seq<(Seq<char>, Seq<char>)>, name: Seq<char>, i: int) -> Option<
    Seq<char>,
>
    decreases attrs.len() - i,
{
    if i < 0 || i >= attrs.len() {
        None
    } else if attrs[i].0 == name {
        Some(attrs[i].1)
    } else {
        attr_from(attrs, name, i + 1)
    }
}

/// The value of the attribute `name` of the node at position `k`.
pub open spec fn spec_attribute(d: Seq<XmlItemView>, k: int, name: Seq<char>) -> Option<Seq<char>> {
    attr_from(d[k].attrs, name, 0)
}

/// The position of the document's root element: the first element child of
/// the root node.
pub open spec fn spec_root_element(d: Seq<XmlItemView>) -> Option<int> {
    if d.len() == 0 {
        None
    } else {
        first_element(d, spec_children(d, 0), 0)
    }
}

/// The first element among `ks` from index `i` on.
pub open spec fn first_element(d: Seq<XmlItemView>, ks: Seq<int>, i: int) -> Option<int>
    decreases ks.len() - i,
{
    if i < 0 || i >= ks.len() {
        None
    } else if d[ks[i]].kind == XmlKind::Element {
        Some(ks[i])
    } else {
        first_element(d, ks, i + 1)
    }
}

/// The first among `ks` from index `i` on that is an element named `name`.
pub open spec fn first_tagged(d: Seq<XmlItemView>, ks: Seq<int>, name: Seq<char>, i: int) -> Option<int>
    decreases ks.len() - i,
{
    if i < 0 || i >= ks.len() {
        None
    } else if spec_has_tag_name(d, ks[i], name) {
        Some(ks[i])
    } else {
        first_tagged(d, ks, name, i + 1)
    }
}

impl XmlDoc {
    /// The number of nodes.
    pub fn len(&self) -> (r: usize)
        ensures
            r == self@.len(),
    {
        self.items.len()
    }

    /// The positions, in order, of the children of the node at position `k`.
    pub fn children(&self, k: usize) -> (r: Vec<usize>)
        requires
            k < self@.len(),
        ensures
            r@.len() == spec_children(self@, k as int).len(),
            forall|i: int| 0 <= i < r@.len() ==> r@[i] as int == #[trigger] spec_children(self@, k as int)[i],
            forall|i: int| 0 <= i < r@.len() ==> r@[i] < self@.len(),
    {
        let id = self.items[k].id;
        let ghost d = self@;
        let mut r: Vec<usize> = Vec::new();
        let mut j: usize = 0;
        while j < self.items.len()
            invariant
                d == self@,
                k < d.len(),
                id as nat == d[k as int].id,
                j <= d.len(),
                r@.len() == children_upto(d, id as nat, j as int).len(),
                forall|i: int| 0 <= i < r@.len() ==> r@[i] as int == #[trigger] children_upto(d, id as nat, j as int)[i],
                forall|i: int| 0 <= i < r@.len() ==> r@[i] < j,
            decreases d.len() - j,
        {
            let is_child = match self.items[j].parent {
                Some(p) => p == id,
                None => false,
            };
            assert(d[j as int] == self.items@[j as int]@);
            if is_child {
                r.push(j);
            }
            j = j + 1;
        }
        r
    }

    /// Whether the node at position `k` is an element named `name` without a
    /// namespace.
    pub fn has_tag_name(&self, k: usize, name: &str) -> (r: bool)
        requires
            k < self@.len(),
        ensures
            r == spec_has_tag_name(self@, k as int, name@),
    {
        let n = &self.items[k];
        assert(self@[k as int] == n@);
        n.kind == XmlKind::Element && str_eq(n.name.as_str(), name)
    }

    /// Whether the node at position `k` is an element.
    pub fn is_element(&self, k: usize) -> (r: bool)
        requires
            k < self@.len(),
        ensures
            r == (self@[k as int].kind == XmlKind::Element),
    {
        assert(self@[k as int] == self.items@[k as int]@);
        self.items[k].kind == XmlKind::Element
    }

    /// Whether the node at position `k` is text.
    pub fn is_text(&self, k: usize) -> (r: bool)
        requires
            k < self@.len(),
        ensures
            r == (self@[k as int].kind == XmlKind::Text),
    {
        assert(self@[k as int] == self.items@[k as int]@);
        self.items[k].kind == XmlKind::Text
    }

    /// The tag name of the node at position `k`.
    pub fn name(&self, k: usize) -> (r: &str)
        requires
            k < self@.len(),
        ensures
            r@ == self@[k as int].name,
    {
        assert(self@[k as int] == self.items@[k as int]@);
        self.items[k].name.as_str()
    }

    /// The text of the node at position `k`.
    pub fn text(&self, k: usize) -> (r: Option<&str>)
        requires
            k < self@.len(),
        ensures
            match r {
                Some(t) => self@[k as int].text == Some(t@),
                None => self@[k as int].text is None,
            },
    {
        assert(self@[k as int] == self.items@[k as int]@);
        match &self.items[k].text {
            Some(t) => Some(t.as_str()),
            None => None,
        }
    }

    /// The value of the attribute `name` of the node at position `k`.
    pub fn attribute(&self, k: usize, name: &str) -> (r: Option<&str>)
        requires
            k < self@.len(),
        ensures
            match r {
                Some(v) => spec_attribute(self@, k as int, name@) == Some(v@),
                None => spec_attribute(self@, k as int, name@) is None,
            },
    {
        let n = &self.items[k];
        assert(self@[k as int] == n@);
        let ghost a = n@.attrs;
        let mut i: usize = 0;
        while i < n.attrs.len()
            invariant
                k < self@.len(),
                self@[k as int] == n@,
                a == n@.attrs,
                a.len() == n.attrs@.len(),
                forall|j: int| 0 <= j < n.attrs@.len() ==> #[trigger] a[j] == (n.attrs@[j].0@, n.attrs@[j].1@),
                i <= n.attrs@.len(),
                attr_from(a, name@, 0) == attr_from(a, name@, i as int),
            decreases n.attrs@.len() - i,
        {
            if str_eq(n.attrs[i].0.as_str(), name) {
                assert(a[i as int] == (n.attrs@[i as int].0@, n.attrs@[i as int].1@));
                return Some(n.attrs[i].1.as_str());
            }
            assert(a[i as int] == (n.attrs@[i as int].0@, n.attrs@[i as int].1@));
            i = i + 1;
        }
        None
    }

    /// The first among `ks` that is an element named `name`.
    pub fn first_tagged(&self, ks: &Vec<usize>, name: &str) -> (r: Option<usize>)
        requires
            forall|i: int| 0 <= i < ks@.len() ==> ks@[i] < self@.len(),
        ensures
            match r {
                Some(k) => first_tagged(self@, ks@.map_values(|x: usize| x as int), name@, 0) == Some(k as int)
                    && k < self@.len(),
                None => first_tagged(self@, ks@.map_values(|x: usize| x as int), name@, 0) is None,
            },
    {
        let ghost s = ks@.map_values(|x: usize| x as int);
        let mut i: usize = 0;
        while i < ks.len()
            invariant
                s == ks@.map_values(|x: usize| x as int),
                forall|j: int| 0 <= j < ks@.len() ==> ks@[j] < self@.len(),
                i <= ks@.len(),
                first_tagged(self@, s, name@, 0) == first_tagged(self@, s, name@, i as int),
            decreases ks@.len() - i,
        {
            if self.has_tag_name(ks[i], name) {
                return Some(ks[i]);
            }
            i = i + 1;
        }
        None
    }

    /// The position of the root element.
    pub fn root_element(&self) -> (r: Option<usize>)
        ensures
            match r {
                Some(k) => spec_root_element(self@) == Some(k as int) && k < self@.len(),
                None => spec_root_element(self@) is None,
            },
    {
        if self.items.len() == 0 {
            return None;
        }
        let ks = self.children(0);
        let ghost s = ks@.map_values(|x: usize| x as int);
        proof {
            assert(s =~= spec_children(self@, 0));
        }
        let mut i: usize = 0;
        while i < ks.len()
            invariant
                s == ks@.map_values(|x: usize| x as int),
                s == spec_children(self@, 0),
                self@.len() > 0,
                forall|j: int| 0 <= j < ks@.len() ==> ks@[j] < self@.len(),
                i <= ks@.len(),
                first_element(self@, s, 0) == first_element(self@, s, i as int),
            decreases ks@.len() - i,
        {
            if self.is_element(ks[i]) {
                return Some(ks[i]);
            }
            i = i + 1;
        }
        None
    }
}

} // verus!
