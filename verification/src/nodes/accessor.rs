//! Lookup of elements by name, and their projection onto a kind of node.
use super::error::{AccessError, AccessErrorView};
use super::input::{input_of, Input, InputView};
use crate::ast::{
    attribute, attribute_entries, child_at, child_count, child_entries, child_named, lookup,
    Children, Element, MaterialX,
};
use crate::text::str_eq;
use vstd::prelude::*;

verus! {

/// The name under which the root of a document is reported as the parent of an element.
pub open spec fn root_label() -> Seq<char> {
    "<root>"@
}

/// A field of a kind of node: an input that nodes of the kind have.
#[derive(Debug, Clone)]
pub struct FieldSpec {
    /// The name of the input.
    pub name: String,
    /// The value that stands for the input where a node leaves it out. A field without
    /// such a value is required.
    pub default: Option<String>,
}

/// The mathematical model of a [`FieldSpec`].
pub struct FieldSpecView {
    pub name: Seq<char>,
    pub default: Option<Seq<char>>,
}

impl View for FieldSpec {
    type V = FieldSpecView;

    open spec fn view(&self) -> FieldSpecView {
        FieldSpecView { name: self.name@, default: self.default.deep_view() }
    }
}

impl DeepView for FieldSpec {
    type V = FieldSpecView;

    open spec fn deep_view(&self) -> FieldSpecView {
        self.view()
    }
}

/// A kind of node: the tag that its elements have, and its fields in order.
#[derive(Debug, Clone)]
pub struct NodeKind {
    pub tag: String,
    pub fields: Vec<FieldSpec>,
}

/// The mathematical model of a [`NodeKind`].
pub struct NodeKindView {
    pub tag: Seq<char>,
    pub fields: Seq<FieldSpecView>,
}

impl View for NodeKind {
    type V = NodeKindView;

    open spec fn view(&self) -> NodeKindView {
        NodeKindView { tag: self.tag@, fields: self.fields.deep_view() }
    }
}

/// An element read as a node of some kind: the element, and for each field of the kind
/// its input, in the order of the fields. An optional field that the element leaves
/// out has no input.
#[derive(Debug)]
pub struct Node<'a> {
    pub element: &'a Element,
    pub inputs: Vec<Option<Input>>,
}

/// The mathematical model of a [`Node`].
pub struct NodeView {
    pub element: Element,
    pub inputs: Seq<Option<InputView>>,
}

/// The model of the inputs of a node.
pub open spec fn inputs_view(inputs: Seq<Option<Input>>) -> Seq<Option<InputView>> {
    Seq::new(
        inputs.len(),
        |i: int|
            match inputs[i] {
                Some(input) => Some(input@),
                None => None,
            },
    )
}

impl<'a> View for Node<'a> {
    type V = NodeView;

    open spec fn view(&self) -> NodeView {
        NodeView { element: *self.element, inputs: inputs_view(self.inputs@) }
    }
}

impl<'a> DeepView for Node<'a> {
    type V = NodeView;

    open spec fn deep_view(&self) -> NodeView {
        self.view()
    }
}

/// The element of that name among `entries`, which stand under `parent`.
pub open spec fn find_element(
    entries: Seq<(Seq<char>, Element)>,
    parent: Seq<char>,
    name: Seq<char>,
) -> Result<Element, AccessErrorView> {
    match lookup(entries, name) {
        Some(el) => Ok(el),
        None => Err(AccessErrorView::NotFound { name, parent }),
    }
}

/// The element of that name among `entries`, read as an input.
pub open spec fn find_input(
    entries: Seq<(Seq<char>, Element)>,
    parent: Seq<char>,
    name: Seq<char>,
) -> Result<InputView, AccessErrorView> {
    match find_element(entries, parent, name) {
        Err(e) => Err(e),
        Ok(el) => match input_of(el) {
            Ok(input) => Ok(input),
            Err(e) => Err(
                AccessErrorView::ConversionError { name, target: "Input"@, source: Box::new(e) },
            ),
        },
    }
}

/// The input of an element for a field. An optional field that the element leaves out
/// has none, which is no error; any other failure is reported with the names of the
/// field and of the element.
pub open spec fn field_input(el: Element, field: FieldSpecView) -> Result<
    Option<InputView>,
    AccessErrorView,
> {
    match find_input(child_entries(el.children), el.name@, field.name) {
        Ok(input) => Ok(Some(input)),
        Err(e) => if field.default is Some && e is NotFound {
            Ok(None)
        } else {
            Err(
                AccessErrorView::SubElementAccess {
                    child: field.name,
                    parent: el.name@,
                    source: Box::new(e),
                },
            )
        },
    }
}

/// The index of the first field at or after `from` whose input cannot be had; the
/// number of fields if there is none.
pub open spec fn first_bad_field(el: Element, fields: Seq<FieldSpecView>, from: int) -> int
    decreases fields.len() - from,
{
    if from < 0 || from >= fields.len() {
        fields.len() as int
    } else if field_input(el, fields[from]) is Err {
        from
    } else {
        first_bad_field(el, fields, from + 1)
    }
}

/// The inputs of an element for the fields of a kind.
pub open spec fn field_inputs(el: Element, fields: Seq<FieldSpecView>) -> Seq<Option<InputView>> {
    Seq::new(fields.len(), |i: int| field_input(el, fields[i])->Ok_0)
}

/// An element read as a node of a kind. An element of another tag is refused with a
/// tag mismatch; then the fields are looked up in order, and the first that cannot be
/// had fails the projection.
pub open spec fn project(kind: NodeKindView, el: Element) -> Result<NodeView, AccessErrorView> {
    if el.tag@ != kind.tag {
        Err(AccessErrorView::TagMismatch { name: el.name@, expected: kind.tag, found: el.tag@ })
    } else {
        let k = first_bad_field(el, kind.fields, 0);
        if k < kind.fields.len() {
            Err(field_input(el, kind.fields[k])->Err_0)
        } else {
            Ok(NodeView { element: el, inputs: field_inputs(el, kind.fields) })
        }
    }
}

/// The element of that name among `entries`, read as a node of a kind. A tag mismatch
/// is reported as it is; any other failure of the projection is reported as a failed
/// conversion of the element, with the failure inside.
pub open spec fn find_node(
    entries: Seq<(Seq<char>, Element)>,
    parent: Seq<char>,
    kind: NodeKindView,
    name: Seq<char>,
) -> Result<NodeView, AccessErrorView> {
    match find_element(entries, parent, name) {
        Err(e) => Err(e),
        Ok(el) => match project(kind, el) {
            Ok(node) => Ok(node),
            Err(e) => if e is TagMismatch {
                Err(e)
            } else {
                Err(
                    AccessErrorView::ConversionError {
                        name,
                        target: kind.tag,
                        source: Box::new(e),
                    },
                )
            },
        },
    }
}

/// The first `n` of `entries` that can be read as nodes of a kind, in order; the others
/// are passed over.
pub open spec fn nodes_among(entries: Seq<(Seq<char>, Element)>, kind: NodeKindView, n: int) -> Seq<
    NodeView,
>
    decreases n,
{
    if n <= 0 {
        Seq::empty()
    } else {
        let before = nodes_among(entries, kind, n - 1);
        match project(kind, entries[n - 1].1) {
            Ok(node) => before.push(node),
            Err(_) => before,
        }
    }
}

/// The first `n` of `entries` that have a tag, in order.
pub open spec fn tagged_among(entries: Seq<(Seq<char>, Element)>, tag: Seq<char>, n: int) -> Seq<
    Element,
>
    decreases n,
{
    if n <= 0 {
        Seq::empty()
    } else {
        let before = tagged_among(entries, tag, n - 1);
        if entries[n - 1].1.tag@ == tag {
            before.push(entries[n - 1].1)
        } else {
            before
        }
    }
}

/// The elements that references stand for.
pub open spec fn elements_view(elements: Seq<&Element>) -> Seq<Element> {
    Seq::new(elements.len(), |i: int| *elements[i])
}

/// Whether `r` is the exec form of `expected`.
pub open spec fn same_element(
    r: Result<&Element, AccessError>,
    expected: Result<Element, AccessErrorView>,
) -> bool {
    match r {
        Ok(el) => expected == Ok::<Element, AccessErrorView>(*el),
        Err(e) => expected == Err::<Element, AccessErrorView>(e@),
    }
}

/// Whether `r` is the exec form of `expected`.
pub open spec fn same_input(
    r: Result<Input, AccessError>,
    expected: Result<InputView, AccessErrorView>,
) -> bool {
    match r {
        Ok(input) => expected == Ok::<InputView, AccessErrorView>(input@),
        Err(e) => expected == Err::<InputView, AccessErrorView>(e@),
    }
}

/// Whether `r` is the exec form of `expected`.
pub open spec fn same_node(
    r: Result<Node, AccessError>,
    expected: Result<NodeView, AccessErrorView>,
) -> bool {
    match r {
        Ok(node) => expected == Ok::<NodeView, AccessErrorView>(node@),
        Err(e) => expected == Err::<NodeView, AccessErrorView>(e@),
    }
}

/// The element of that name in a collection that stands under `parent`.
pub fn element_in<'a>(children: &'a Children, parent: &str, name: &str) -> (r: Result<
    &'a Element,
    AccessError,
>)
    ensures
        same_element(r, find_element(child_entries(*children), parent@, name@)),
{
    match child_named(children, name) {
        Some(el) => Ok(el),
        None => Err(AccessError::NotFound { name: name.to_owned(), parent: parent.to_owned() }),
    }
}

/// The element of that name in a collection that stands under `parent`, read as an
/// input.
pub fn input_in(children: &Children, parent: &str, name: &str) -> (r: Result<Input, AccessError>)
    ensures
        same_input(r, find_input(child_entries(*children), parent@, name@)),
{
    let el = element_in(children, parent, name)?;
    match Input::from_element(el) {
        Ok(input) => Ok(input),
        Err(e) => Err(
            AccessError::ConversionError {
                name: name.to_owned(),
                target: "Input".to_owned(),
                source: Box::new(e),
            },
        ),
    }
}

impl<'a> Node<'a> {
    /// Reads an element as a node of a kind.
    pub fn from_element(kind: &NodeKind, element: &'a Element) -> (r: Result<
        Node<'a>,
        AccessError,
    >)
        ensures
            same_node(r, project(kind@, *element)),
    {
        if !str_eq(element.tag.as_str(), kind.tag.as_str()) {
            return Err(
                AccessError::TagMismatch {
                    name: element.name.clone(),
                    expected: kind.tag.clone(),
                    found: element.tag.clone(),
                },
            );
        }
        let ghost fields = kind@.fields;
        let mut inputs: Vec<Option<Input>> = Vec::new();
        let mut k: usize = 0;
        while k < kind.fields.len()
            invariant
                0 <= k <= kind.fields.len(),
                fields == kind@.fields,
                fields.len() == kind.fields.len(),
                element.tag@ == kind@.tag,
                first_bad_field(*element, fields, k as int) == first_bad_field(*element, fields, 0),
                inputs_view(inputs@) == field_inputs(*element, fields).take(k as int),
            decreases kind.fields.len() - k,
        {
            let field = &kind.fields[k];
            assert(fields[k as int] == field@);
            let found = match input_in(&element.children, element.name.as_str(), field.name.as_str()) {
                Ok(input) => Some(input),
                Err(e) => {
                    let missing = match &e {
                        AccessError::NotFound { .. } => true,
                        _ => false,
                    };
                    if field.default.is_some() && missing {
                        None
                    } else {
                        return Err(
                            AccessError::SubElementAccess {
                                child: field.name.clone(),
                                parent: element.name.clone(),
                                source: Box::new(e),
                            },
                        );
                    }
                },
            };
            let ghost before = inputs_view(inputs@);
            let ghost found_view = match &found {
                Some(input) => Some(input@),
                None => None,
            };
            assert(field_input(*element, fields[k as int]) == Ok::<
                Option<InputView>,
                AccessErrorView,
            >(found_view));
            inputs.push(found);
            assert(inputs_view(inputs@) =~= before.push(found_view));
            assert(inputs_view(inputs@) =~= field_inputs(*element, fields).take(k + 1));
            k = k + 1;
        }
        assert(inputs_view(inputs@) =~= field_inputs(*element, fields));
        Ok(Node { element, inputs })
    }
}

/// The element of that name in a collection that stands under `parent`, read as a node
/// of a kind.
pub fn node_in<'a>(children: &'a Children, parent: &str, kind: &NodeKind, name: &str) -> (r: Result<
    Node<'a>,
    AccessError,
>)
    ensures
        same_node(r, find_node(child_entries(*children), parent@, kind@, name@)),
{
    let el = element_in(children, parent, name)?;
    match Node::from_element(kind, el) {
        Ok(node) => Ok(node),
        Err(e) => {
            let mismatch = match &e {
                AccessError::TagMismatch { .. } => true,
                _ => false,
            };
            if mismatch {
                Err(e)
            } else {
                Err(
                    AccessError::ConversionError {
                        name: name.to_owned(),
                        target: kind.tag.clone(),
                        source: Box::new(e),
                    },
                )
            }
        },
    }
}

/// The elements of a collection that can be read as nodes of a kind, in order.
pub fn nodes_in<'a>(children: &'a Children, kind: &NodeKind) -> (r: Vec<Node<'a>>)
    ensures
        r.deep_view() == nodes_among(
            child_entries(*children),
            kind@,
            child_entries(*children).len() as int,
        ),
{
    let n = child_count(children);
    let mut out: Vec<Node<'a>> = Vec::new();
    let mut i: usize = 0;
    while i < n
        invariant
            0 <= i <= n,
            n == child_entries(*children).len(),
            out.deep_view() == nodes_among(child_entries(*children), kind@, i as int),
        decreases n - i,
    {
        let el = child_at(children, i);
        let ghost before = out.deep_view();
        match Node::from_element(kind, el) {
            Ok(node) => {
                out.push(node);
                assert(out.deep_view() =~= before.push(node@));
            },
            Err(_) => {},
        }
        i = i + 1;
    }
    out
}

/// The elements of a collection that have a tag, in order.
pub fn tagged_in<'a>(children: &'a Children, tag: &str) -> (r: Vec<&'a Element>)
    ensures
        elements_view(r@) == tagged_among(
            child_entries(*children),
            tag@,
            child_entries(*children).len() as int,
        ),
{
    let n = child_count(children);
    let mut out: Vec<&'a Element> = Vec::new();
    let mut i: usize = 0;
    while i < n
        invariant
            0 <= i <= n,
            n == child_entries(*children).len(),
            elements_view(out@) == tagged_among(child_entries(*children), tag@, i as int),
        decreases n - i,
    {
        let el = child_at(children, i);
        let ghost before = elements_view(out@);
        if str_eq(el.tag.as_str(), tag) {
            out.push(el);
            assert(elements_view(out@) =~= before.push(*el));
        }
        i = i + 1;
    }
    out
}

/// Lookup of an element by its name, read as what the caller asks for.
pub trait GetByTypeAndName {
    /// The elements among which names are looked up.
    spec fn scope(&self) -> Seq<(Seq<char>, Element)>;

    /// The name under which `self` is reported as the parent.
    spec fn label(&self) -> Seq<char>;

    /// The element of that name, read as a node of a kind.
    fn get<'a>(&'a self, kind: &NodeKind, name: &str) -> (r: Result<Node<'a>, AccessError>)
        ensures
            same_node(r, find_node(self.scope(), self.label(), kind@, name@)),
    ;

    /// The element of that name, read as an input.
    fn input(&self, name: &str) -> (r: Result<Input, AccessError>)
        ensures
            same_input(r, find_input(self.scope(), self.label(), name@)),
    ;
}

/// The elements that can be read as nodes of one kind.
pub trait GetAllByType {
    /// The elements among which nodes are looked for.
    spec fn members(&self) -> Seq<(Seq<char>, Element)>;

    /// The elements that can be read as nodes of a kind, in order. An element of
    /// another tag, or one that lacks a field, is passed over.
    fn all<'a>(&'a self, kind: &NodeKind) -> (r: Vec<Node<'a>>)
        ensures
            r.deep_view() == nodes_among(self.members(), kind@, self.members().len() as int),
    ;
}

impl GetByTypeAndName for MaterialX {
    open spec fn scope(&self) -> Seq<(Seq<char>, Element)> {
        child_entries(self.elements)
    }

    open spec fn label(&self) -> Seq<char> {
        root_label()
    }

    fn get<'a>(&'a self, kind: &NodeKind, name: &str) -> (r: Result<Node<'a>, AccessError>) {
        node_in(&self.elements, "<root>", kind, name)
    }

    fn input(&self, name: &str) -> (r: Result<Input, AccessError>) {
        input_in(&self.elements, "<root>", name)
    }
}

impl GetByTypeAndName for Element {
    open spec fn scope(&self) -> Seq<(Seq<char>, Element)> {
        child_entries(self.children)
    }

    open spec fn label(&self) -> Seq<char> {
        self.name@
    }

    fn get<'a>(&'a self, kind: &NodeKind, name: &str) -> (r: Result<Node<'a>, AccessError>) {
        node_in(&self.children, self.name.as_str(), kind, name)
    }

    fn input(&self, name: &str) -> (r: Result<Input, AccessError>) {
        input_in(&self.children, self.name.as_str(), name)
    }
}

impl GetAllByType for MaterialX {
    open spec fn members(&self) -> Seq<(Seq<char>, Element)> {
        child_entries(self.elements)
    }

    fn all<'a>(&'a self, kind: &NodeKind) -> (r: Vec<Node<'a>>) {
        nodes_in(&self.elements, kind)
    }
}

impl GetAllByType for Element {
    open spec fn members(&self) -> Seq<(Seq<char>, Element)> {
        child_entries(self.children)
    }

    fn all<'a>(&'a self, kind: &NodeKind) -> (r: Vec<Node<'a>>) {
        nodes_in(&self.children, kind)
    }
}

impl MaterialX {
    /// The element of that name under the root.
    pub fn element(&self, name: &str) -> (r: Result<&Element, AccessError>)
        ensures
            same_element(r, find_element(child_entries(self.elements), root_label(), name@)),
    {
        element_in(&self.elements, "<root>", name)
    }

    /// The elements under the root that have a tag, in order.
    pub fn tags(&self, tag: &str) -> (r: Vec<&Element>)
        ensures
            elements_view(r@) == tagged_among(
                child_entries(self.elements),
                tag@,
                child_entries(self.elements).len() as int,
            ),
    {
        tagged_in(&self.elements, tag)
    }
}

impl Element {
    /// The value of an attribute.
    pub fn attr(&self, name: &str) -> (r: Result<String, AccessError>)
        ensures
            match r {
                Ok(value) => lookup(attribute_entries(self.attributes), name@) == Some(value@),
                Err(e) => lookup(attribute_entries(self.attributes), name@) is None && e@ == (
                AccessErrorView::InputMissingData { name: name@ }),
            },
    {
        match attribute(&self.attributes, name) {
            Some(value) => Ok(value.clone()),
            None => Err(AccessError::InputMissingData { name: name.to_owned() }),
        }
    }

    /// The element of that name under this one.
    pub fn child(&self, name: &str) -> (r: Result<&Element, AccessError>)
        ensures
            same_element(r, find_element(child_entries(self.children), self.name@, name@)),
    {
        element_in(&self.children, self.name.as_str(), name)
    }
}

} // verus!
