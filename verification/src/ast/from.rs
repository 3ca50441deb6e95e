//! From the nodes of the markup to the document.
use super::map::{
    attribute_entries, attributes_insert, attributes_new, child_entries, children_insert,
    children_new, find, lookup, upsert, Children,
};
use super::meta::{color_space_of, parse_version, ColorSpace, ColorSpaceView, Version, VersionError};
use super::xml::{parse_xml, xml_nodes, XmlNode, XmlNodeView};
use super::{AstError, AstErrorView, Element, MaterialX};
use crate::error::{Error, ErrorView};
use crate::text::str_eq;
use indexmap::IndexMap;
use vstd::prelude::*;

verus! {

/// The value of the first attribute of that name.
pub open spec fn attribute_value(node: XmlNodeView, name: Seq<char>) -> Option<Seq<char>> {
    lookup(node.attributes, name)
}

/// The name of an element that has one.
pub open spec fn element_name(node: XmlNodeView) -> Seq<char> {
    attribute_value(node, "name"@)->0
}

/// The map that the first `n` attributes fill, one after the other: of two attributes
/// of one name the first gives the place and the last the value.
pub open spec fn attribute_map(attributes: Seq<(Seq<char>, Seq<char>)>, n: int) -> Seq<
    (Seq<char>, Seq<char>),
>
    decreases n,
{
    if n <= 0 {
        Seq::empty()
    } else {
        upsert(attribute_map(attributes, n - 1), attributes[n - 1].0, attributes[n - 1].1)
    }
}

/// Whether the node at `j` stands directly under the node at `parent`.
pub open spec fn is_child(nodes: Seq<XmlNodeView>, parent: int, j: int) -> bool {
    &&& 0 <= parent < j < nodes.len()
    &&& nodes[j].parent matches Some(p)
    &&& p == parent
}

/// Whether the node at `j` is an element directly under the node at `parent`.
pub open spec fn is_element_child(nodes: Seq<XmlNodeView>, parent: int, j: int) -> bool {
    is_child(nodes, parent, j) && nodes[j].is_element
}

/// The number of children of `parent`, elements or not, that come before the node at
/// `j`.
pub open spec fn child_rank(nodes: Seq<XmlNodeView>, parent: int, j: int) -> nat
    decreases j,
{
    if j <= 0 || j <= parent + 1 {
        0
    } else {
        child_rank(nodes, parent, j - 1) + if is_child(nodes, parent, j - 1) {
            1nat
        } else {
            0nat
        }
    }
}

/// The first element at or after `j` that stands directly under `parent`; the number
/// of nodes if there is none.
pub open spec fn first_element_child(nodes: Seq<XmlNodeView>, parent: int, j: int) -> int
    decreases nodes.len() - j,
{
    if j < 0 || j >= nodes.len() {
        nodes.len() as int
    } else if is_element_child(nodes, parent, j) {
        j
    } else {
        first_element_child(nodes, parent, j + 1)
    }
}

/// Why the element at `i` cannot be built: it has no name, or one of the elements
/// under it cannot be built, of which the first in document order is reported.
pub open spec fn element_error(nodes: Seq<XmlNodeView>, i: int) -> Option<AstErrorView>
    decreases nodes.len() - i, nodes.len() - i,
{
    if i < 0 || i >= nodes.len() {
        None
    } else {
        match attribute_value(nodes[i], "name"@) {
            None => Some(AstErrorView::NoName),
            Some(name) => children_error(nodes, i, name, i + 1),
        }
    }
}

/// The error of the first element child of `i` at or after `j` that cannot be built,
/// with the name of the parent and the place of the child among all children.
pub open spec fn children_error(nodes: Seq<XmlNodeView>, i: int, name: Seq<char>, j: int) -> Option<
    AstErrorView,
>
    decreases nodes.len() - i, nodes.len() - j,
{
    if j >= nodes.len() || j <= i || i < 0 {
        None
    } else if is_element_child(nodes, i, j) && element_error(nodes, j) is Some {
        Some(
            AstErrorView::Build {
                parent: name,
                index: child_rank(nodes, i, j) as usize,
                source: Box::new(element_error(nodes, j)->0),
            },
        )
    } else {
        children_error(nodes, i, name, j + 1)
    }
}

/// The places of a collection of children after the element children of `i` before
/// `j` were put into it one after the other: each place has a name and the index of
/// the node that was put there last.
pub open spec fn child_slots(nodes: Seq<XmlNodeView>, i: int, j: int) -> Seq<(Seq<char>, int)>
    decreases j,
{
    if j <= 0 || j <= i + 1 {
        Seq::empty()
    } else {
        let before = child_slots(nodes, i, j - 1);
        if is_element_child(nodes, i, j - 1) {
            upsert(before, element_name(nodes[j - 1]), j - 1)
        } else {
            before
        }
    }
}

/// Whether an element is what the markup says at the node `i`: its tag, its name, its
/// attributes, and under it the elements that the markup has there.
pub open spec fn element_matches(el: Element, nodes: Seq<XmlNodeView>, i: int) -> bool
    decreases nodes.len() - i, 1nat,
{
    &&& 0 <= i < nodes.len()
    &&& el.tag@ == nodes[i].tag
    &&& attribute_value(nodes[i], "name"@) == Some(el.name@)
    &&& attribute_entries(el.attributes) == attribute_map(
        nodes[i].attributes,
        nodes[i].attributes.len() as int,
    )
    &&& children_match(child_entries(el.children), nodes, i, nodes.len() as int)
}

/// Whether a collection holds the element children of `i` before `j`: one element for
/// each name, in the order in which the names first occur, and of two children of one
/// name the later one.
pub open spec fn children_match(
    entries: Seq<(Seq<char>, Element)>,
    nodes: Seq<XmlNodeView>,
    i: int,
    j: int,
) -> bool
    decreases nodes.len() - i, 0nat,
{
    let slots = child_slots(nodes, i, j);
    &&& entries.len() == slots.len()
    &&& forall|k: int|
        0 <= k < entries.len() ==> {
            &&& (#[trigger] entries[k]).0 == slots[k].0
            &&& i < slots[k].1 < nodes.len()
            &&& element_matches(entries[k].1, nodes, slots[k].1)
        }
}

/// The index of the outermost element: the first element under the root of the markup.
pub open spec fn root_index(nodes: Seq<XmlNodeView>) -> int {
    first_element_child(nodes, 0, 1)
}

/// The error of the first element under the outermost element `r`, at or after `j`,
/// that is an inclusion or cannot be built.
pub open spec fn top_level_error(nodes: Seq<XmlNodeView>, r: int, j: int) -> Option<ErrorView>
    decreases nodes.len() - j,
{
    if j >= nodes.len() || j <= r || r < 0 {
        None
    } else if is_element_child(nodes, r, j) && nodes[j].tag == "include"@ {
        Some(ErrorView::IncludesNotSupported)
    } else if is_element_child(nodes, r, j) && element_error(nodes, j) is Some {
        Some(
            ErrorView::Ast(
                AstErrorView::Build {
                    parent: "<root>"@,
                    index: child_rank(nodes, r, j) as usize,
                    source: Box::new(element_error(nodes, j)->0),
                },
            ),
        )
    } else {
        top_level_error(nodes, r, j + 1)
    }
}

/// Why the markup is no document, if it is none. In this order: there is no element
/// under the outermost element; the version is missing or malformed; an element under
/// the outermost one is an inclusion or cannot be built.
pub open spec fn document_error(nodes: Seq<XmlNodeView>) -> Option<ErrorView> {
    let r = root_index(nodes);
    if r >= nodes.len() || first_element_child(nodes, r, r + 1) >= nodes.len() {
        Some(ErrorView::Empty)
    } else {
        match attribute_value(nodes[r], "version"@) {
            None => Some(ErrorView::Ast(AstErrorView::InvalidVersion(super::VersionErrorView::NoVersion))),
            Some(v) => match parse_version(v) {
                Err(e) => Some(ErrorView::Ast(AstErrorView::InvalidVersion(e))),
                Ok(_) => top_level_error(nodes, r, r + 1),
            },
        }
    }
}

/// The colour space that an optional attribute names.
pub open spec fn optional_color_space(value: Option<Seq<char>>) -> Option<ColorSpaceView> {
    match value {
        Some(name) => Some(color_space_of(name)),
        None => None,
    }
}

/// Whether a document is what the markup says: the version, the colour space and the
/// namespace of the outermost element, and the elements under it.
pub open spec fn document_matches(doc: MaterialX, nodes: Seq<XmlNodeView>) -> bool {
    let r = root_index(nodes);
    &&& 0 < r < nodes.len()
    &&& parse_version(attribute_value(nodes[r], "version"@)->0) == Ok::<
        Version,
        super::VersionErrorView,
    >(doc.version)
    &&& doc.colorspace.deep_view() == optional_color_space(
        attribute_value(nodes[r], "colorspace"@),
    )
    &&& doc.namespace.deep_view() == attribute_value(nodes[r], "namespace"@)
    &&& children_match(child_entries(doc.elements), nodes, r, nodes.len() as int)
}

/// Collections with the same names in the same places find a name at the same place.
pub(crate) proof fn lemma_find_same_keys<A, B>(
    a: Seq<(Seq<char>, A)>,
    b: Seq<(Seq<char>, B)>,
    key: Seq<char>,
    from: int,
)
    requires
        a.len() == b.len(),
        forall|k: int| 0 <= k < a.len() ==> (#[trigger] a[k]).0 == b[k].0,
    ensures
        find(a, key, from) == find(b, key, from),
    decreases a.len() - from,
{
    if 0 <= from < a.len() {
        assert(a[from].0 == b[from].0);
        if a[from].0 != key {
            lemma_find_same_keys(a, b, key, from + 1);
        }
    }
}

/// The place that `find` gives holds the key, and no place before it does.
pub proof fn lemma_find<V>(entries: Seq<(Seq<char>, V)>, key: Seq<char>, from: int)
    requires
        0 <= from <= entries.len(),
    ensures
        from <= find(entries, key, from) <= entries.len(),
        find(entries, key, from) < entries.len() ==> entries[find(entries, key, from)].0 == key,
        forall|k: int| from <= k < find(entries, key, from) ==> (#[trigger] entries[k]).0 != key,
    decreases entries.len() - from,
{
    if from < entries.len() && entries[from].0 != key {
        lemma_find(entries, key, from + 1);
    }
}

/// Putting a built child into the collection keeps the collection in step with the
/// markup.
proof fn lemma_children_match_insert(
    entries: Seq<(Seq<char>, Element)>,
    nodes: Seq<XmlNodeView>,
    i: int,
    j: int,
    child: Element,
)
    requires
        0 <= i < j < nodes.len(),
        children_match(entries, nodes, i, j),
        is_element_child(nodes, i, j),
        element_matches(child, nodes, j),
    ensures
        children_match(upsert(entries, child.name@, child), nodes, i, j + 1),
{
    let slots = child_slots(nodes, i, j);
    let key = child.name@;
    assert(key == element_name(nodes[j]));
    lemma_find_same_keys(entries, slots, key, 0);
    lemma_find(entries, key, 0);
    let after = upsert(entries, key, child);
    let slots_after = upsert(slots, key, j);
    assert(child_slots(nodes, i, j + 1) == slots_after);
    assert forall|k: int| 0 <= k < after.len() implies {
        &&& (#[trigger] after[k]).0 == slots_after[k].0
        &&& i < slots_after[k].1 < nodes.len()
        &&& element_matches(after[k].1, nodes, slots_after[k].1)
    } by {
        let p = find(entries, key, 0);
        if k != p {
            assert(after[k] == entries[k]);
            assert(slots_after[k] == slots[k]);
        }
    }
    assert(after.len() == slots_after.len());
    assert(children_match(after, nodes, i, j + 1));
}

/// The value of the first attribute of that name.
pub fn find_attribute<'a>(attributes: &'a Vec<(String, String)>, name: &str) -> (r: Option<
    &'a String,
>)
    ensures
        match r {
            Some(value) => lookup(attributes.deep_view(), name@) == Some(value@),
            None => lookup(attributes.deep_view(), name@) is None,
        },
{
    let mut k: usize = 0;
    while k < attributes.len()
        invariant
            0 <= k <= attributes.len(),
            find(attributes.deep_view(), name@, k as int) == find(attributes.deep_view(), name@, 0),
        decreases attributes.len() - k,
    {
        assert(attributes.deep_view()[k as int] == (attributes[k as int].0@, attributes[k as int].1@));
        if str_eq(attributes[k].0.as_str(), name) {
            return Some(&attributes[k].1);
        }
        k = k + 1;
    }
    None
}

/// The map of the attributes of a node.
fn build_attributes(attributes: &Vec<(String, String)>) -> (m: IndexMap<String, String>)
    ensures
        attribute_entries(m) == attribute_map(
            attributes.deep_view(),
            attributes.deep_view().len() as int,
        ),
{
    let mut m = attributes_new();
    let mut k: usize = 0;
    while k < attributes.len()
        invariant
            0 <= k <= attributes.len(),
            attribute_entries(m) == attribute_map(attributes.deep_view(), k as int),
        decreases attributes.len() - k,
    {
        assert(attributes.deep_view()[k as int] == (attributes[k as int].0@, attributes[k as int].1@));
        attributes_insert(&mut m, attributes[k].0.clone(), attributes[k].1.clone());
        k = k + 1;
    }
    m
}

/// Whether the node at `j` stands directly under the node at `parent`.
fn child_of(nodes: &Vec<XmlNode>, parent: usize, j: usize) -> (r: bool)
    requires
        j < nodes.len(),
    ensures
        r == is_child(nodes.deep_view(), parent as int, j as int),
{
    assert(nodes.deep_view()[j as int] == nodes[j as int]@);
    match nodes[j].parent {
        Some(p) => p == parent && parent < j,
        None => false,
    }
}

impl Element {
    /// Builds the element that stands at the node `i` of the markup, with all the
    /// elements under it.
    pub fn from_nodes(nodes: &Vec<XmlNode>, i: usize) -> (r: Result<Element, AstError>)
        requires
            i < nodes.len(),
        ensures
            match r {
                Ok(el) => element_error(nodes.deep_view(), i as int) is None && element_matches(
                    el,
                    nodes.deep_view(),
                    i as int,
                ),
                Err(e) => element_error(nodes.deep_view(), i as int) == Some(e@),
            },
        decreases nodes.len() - i,
    {
        let ghost ns = nodes.deep_view();
        let n = nodes.len();
        assert(ns[i as int] == nodes[i as int]@);
        let node = &nodes[i];
        let name = match find_attribute(&node.attributes, "name") {
            None => {
                return Err(AstError::NoName);
            },
            Some(value) => value.clone(),
        };
        let mut children = children_new();
        let mut index: usize = 0;
        let mut j: usize = i + 1;
        while j < n
            invariant
                i < j <= n,
                n == nodes.len(),
                ns == nodes.deep_view(),
                attribute_value(ns[i as int], "name"@) == Some(name@),
                children_match(child_entries(children), ns, i as int, j as int),
                children_error(ns, i as int, name@, i + 1) == children_error(
                    ns,
                    i as int,
                    name@,
                    j as int,
                ),
                index == child_rank(ns, i as int, j as int),
                index <= j,
            decreases n - j,
        {
            assert(ns[j as int] == nodes[j as int]@);
            proof {
                if !is_element_child(ns, i as int, j as int) {
                    assert(child_slots(ns, i as int, j + 1) == child_slots(ns, i as int, j as int));
                    assert(children_match(child_entries(children), ns, i as int, j + 1));
                }
            }
            if child_of(nodes, i, j) {
                if nodes[j].is_element {
                    match Element::from_nodes(nodes, j) {
                        Ok(child) => {
                            proof {
                                lemma_children_match_insert(
                                    child_entries(children),
                                    ns,
                                    i as int,
                                    j as int,
                                    child,
                                );
                            }
                            let child_name = child.name.clone();
                            children_insert(&mut children, child_name, child);
                        },
                        Err(e) => {
                            return Err(
                                AstError::Build {
                                    parent: name,
                                    index,
                                    source: Box::new(e),
                                },
                            );
                        },
                    }
                }
                index = index + 1;
            }
            j = j + 1;
        }
        let attributes = build_attributes(&node.attributes);
        Ok(Element { tag: node.tag.clone(), name, attributes, children })
    }
}

/// The first element at or after `j` that stands directly under `parent`; the number
/// of nodes if there is none.
fn next_element_child(nodes: &Vec<XmlNode>, parent: usize, j: usize) -> (r: usize)
    ensures
        r == first_element_child(nodes.deep_view(), parent as int, j as int),
        r <= nodes.len(),
        j <= nodes.len() ==> j <= r,
{
    let n = nodes.len();
    let mut k: usize = j;
    while k < n
        invariant
            n == nodes.len(),
            j <= k,
            first_element_child(nodes.deep_view(), parent as int, k as int) == first_element_child(
                nodes.deep_view(),
                parent as int,
                j as int,
            ),
        decreases n - k,
    {
        assert(nodes.deep_view()[k as int] == nodes[k as int]@);
        if child_of(nodes, parent, k) && nodes[k].is_element {
            return k;
        }
        k = k + 1;
    }
    n
}

/// What the name of a colour space stands for, where there is a name.
fn color_space_from(value: Option<&String>) -> (r: Option<ColorSpace>)
    ensures
        r.deep_view() == optional_color_space(value.deep_view()),
{
    match value {
        Some(name) => Some(ColorSpace::from_name(name.as_str())),
        None => None,
    }
}

/// A copy of a text, where there is one.
pub fn owned(value: Option<&String>) -> (r: Option<String>)
    ensures
        r.deep_view() == value.deep_view(),
{
    match value {
        Some(text) => Some(text.clone()),
        None => None,
    }
}

/// What the result of building a document has to be for the markup `nodes`.
pub open spec fn document_result(r: Result<MaterialX, Error>, nodes: Seq<XmlNodeView>) -> bool {
    match r {
        Ok(doc) => document_error(nodes) is None && document_matches(doc, nodes),
        Err(e) => document_error(nodes) == Some(e@),
    }
}

impl MaterialX {
    /// Builds the document from the nodes of its markup.
    ///
    /// The outermost element is the first element under the first node. It gives the
    /// version, the colour space and the namespace; the elements under it become the
    /// elements of the document. Of two elements of one name the later one is kept, at
    /// the place of the first.
    pub fn from_nodes(nodes: &Vec<XmlNode>) -> (r: Result<MaterialX, Error>)
        ensures
            document_result(r, nodes.deep_view()),
    {
        let ghost ns = nodes.deep_view();
        let n = nodes.len();
        let root = next_element_child(nodes, 0, 1);
        if root >= n {
            return Err(Error::Empty);
        }
        if next_element_child(nodes, root, root + 1) >= n {
            return Err(Error::Empty);
        }
        assert(ns[root as int] == nodes[root as int]@);
        let node = &nodes[root];
        let version = match find_attribute(&node.attributes, "version") {
            None => {
                return Err(Error::Ast(AstError::InvalidVersion(VersionError::NoVersion)));
            },
            Some(text) => match Version::from_str(text.as_str()) {
                Ok(version) => version,
                Err(e) => {
                    return Err(Error::Ast(AstError::InvalidVersion(e)));
                },
            },
        };
        let colorspace = color_space_from(find_attribute(&node.attributes, "colorspace"));
        let namespace = owned(find_attribute(&node.attributes, "namespace"));
        let mut elements = children_new();
        let mut index: usize = 0;
        let mut j: usize = root + 1;
        while j < n
            invariant
                0 < root < j <= n,
                n == nodes.len(),
                ns == nodes.deep_view(),
                root == root_index(ns),
                document_error(ns) == top_level_error(ns, root as int, root + 1),
                parse_version(attribute_value(ns[root as int], "version"@)->0) == Ok::<
                    Version,
                    super::VersionErrorView,
                >(version),
                colorspace.deep_view() == optional_color_space(
                    attribute_value(ns[root as int], "colorspace"@),
                ),
                namespace.deep_view() == attribute_value(ns[root as int], "namespace"@),
                children_match(child_entries(elements), ns, root as int, j as int),
                top_level_error(ns, root as int, root + 1) == top_level_error(
                    ns,
                    root as int,
                    j as int,
                ),
                index == child_rank(ns, root as int, j as int),
                index <= j,
            decreases n - j,
        {
            assert(ns[j as int] == nodes[j as int]@);
            proof {
                if !is_element_child(ns, root as int, j as int) {
                    assert(child_slots(ns, root as int, j + 1) == child_slots(
                        ns,
                        root as int,
                        j as int,
                    ));
                    assert(children_match(child_entries(elements), ns, root as int, j + 1));
                }
            }
            if child_of(nodes, root, j) {
                if nodes[j].is_element {
                    if str_eq(nodes[j].tag.as_str(), "include") {
                        return Err(Error::IncludesNotSupported);
                    }
                    match Element::from_nodes(nodes, j) {
                        Ok(child) => {
                            proof {
                                lemma_children_match_insert(
                                    child_entries(elements),
                                    ns,
                                    root as int,
                                    j as int,
                                    child,
                                );
                            }
                            let child_name = child.name.clone();
                            children_insert(&mut elements, child_name, child);
                        },
                        Err(e) => {
                            return Err(
                                Error::Ast(
                                    AstError::Build {
                                        parent: "<root>".to_owned(),
                                        index,
                                        source: Box::new(e),
                                    },
                                ),
                            );
                        },
                    }
                }
                index = index + 1;
            }
            j = j + 1;
        }
        Ok(MaterialX { version, colorspace, namespace, elements })
    }

    /// Reads a document from its text.
    ///
    /// A text that is no well-formed XML is refused with the error of the XML parser.
    /// Of any other text the nodes decide, as [`MaterialX::from_nodes`] says.
    pub fn from_str(text: &str) -> (r: Result<MaterialX, Error>)
        ensures
            match xml_nodes(text@) {
                Some(nodes) => document_result(r, nodes),
                None => r is Err && r->Err_0@ == ErrorView::Xml,
            },
    {
        match parse_xml(text) {
            Ok(nodes) => MaterialX::from_nodes(&nodes),
            Err(e) => Err(Error::Xml(e)),
        }
    }
}

/// What the result of building the outermost element has to be for the markup `nodes`.
pub open spec fn outermost_result(r: Result<Element, Error>, nodes: Seq<XmlNodeView>) -> bool {
    let root = root_index(nodes);
    if root >= nodes.len() {
        r is Err && r->Err_0@ == ErrorView::Empty
    } else {
        match r {
            Ok(el) => element_error(nodes, root) is None && element_matches(el, nodes, root),
            Err(e) => element_error(nodes, root) is Some && e@ == ErrorView::Ast(
                element_error(nodes, root)->0,
            ),
        }
    }
}

impl Element {
    /// Reads a text whose outermost element is any named element, and builds that
    /// element with all the elements under it.
    pub fn from_str(text: &str) -> (r: Result<Element, Error>)
        ensures
            match xml_nodes(text@) {
                Some(nodes) => outermost_result(r, nodes),
                None => r is Err && r->Err_0@ == ErrorView::Xml,
            },
    {
        let nodes = match parse_xml(text) {
            Ok(nodes) => nodes,
            Err(e) => {
                return Err(Error::Xml(e));
            },
        };
        let root = next_element_child(&nodes, 0, 1);
        if root >= nodes.len() {
            return Err(Error::Empty);
        }
        match Element::from_nodes(&nodes, root) {
            Ok(el) => Ok(el),
            Err(e) => Err(Error::Ast(e)),
        }
    }
}

} // verus!
