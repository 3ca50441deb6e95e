//! Resolution of inputs: from a field of a node to the value that it stands for, along
//! the references between nodes.
use super::accessor::{element_in, find_element, find_input, input_in, root_label};
use super::error::{AccessError, AccessErrorView};
use super::input::{Input, InputData, InputDataView, InputView};
use crate::ast::{child_entries, Element, MaterialX};
use crate::data_types::{parse_value, DataTypeAndValue, ValueView};
use crate::text::str_eq;
use vstd::prelude::*;

verus! {

/// What the resolution of inputs does not follow.
#[derive(Debug, Clone)]
pub enum Unimplemented {
    /// A reference to a parameter of the interface of a node graph.
    InterfaceReference { interface_name: String },
    /// A reference to a node of a kind for which no field is known to carry the value.
    NodeTag { name: String, tag: String },
}

/// The mathematical model of an [`Unimplemented`].
pub enum UnimplementedView {
    InterfaceReference { interface_name: Seq<char> },
    NodeTag { name: Seq<char>, tag: Seq<char> },
}

impl View for Unimplemented {
    type V = UnimplementedView;

    open spec fn view(&self) -> UnimplementedView {
        match self {
            Unimplemented::InterfaceReference { interface_name } => UnimplementedView::InterfaceReference {
                interface_name: interface_name@,
            },
            Unimplemented::NodeTag { name, tag } => UnimplementedView::NodeTag {
                name: name@,
                tag: tag@,
            },
        }
    }
}

/// Why an input could not be resolved.
#[derive(Debug)]
pub enum ResolveError {
    /// The field `field` of the element `element` refers to something that could not be
    /// resolved, for the reason inside.
    Inner { element: String, field: String, source: Box<ResolveError> },
    /// An element or an input could not be had, or a value is none of its type.
    Access(AccessError),
    /// The input refers to something that is not followed.
    Unimplemented(Unimplemented),
    /// The chain of references is longer than the limit allows; it may be a cycle.
    DepthExceeded,
}

/// The mathematical model of a [`ResolveError`].
pub enum ResolveErrorView {
    Inner { element: Seq<char>, field: Seq<char>, source: Box<ResolveErrorView> },
    Access(AccessErrorView),
    Unimplemented(UnimplementedView),
    DepthExceeded,
}

/// The model of an error, with the model of its cause inside.
pub open spec fn resolve_error_view(e: ResolveError) -> ResolveErrorView
    decreases e,
{
    match e {
        ResolveError::Inner { element, field, source } => ResolveErrorView::Inner {
            element: element@,
            field: field@,
            source: Box::new(resolve_error_view(*source)),
        },
        ResolveError::Access(e) => ResolveErrorView::Access(e@),
        ResolveError::Unimplemented(u) => ResolveErrorView::Unimplemented(u@),
        ResolveError::DepthExceeded => ResolveErrorView::DepthExceeded,
    }
}

impl View for ResolveError {
    type V = ResolveErrorView;

    open spec fn view(&self) -> ResolveErrorView {
        resolve_error_view(*self)
    }
}

/// The number of references that [`MaterialX::resolve_input`] follows at most.
pub const MAX_RESOLVE_DEPTH: usize = 64;

/// The field that carries the value of a node, by the tag of the node: the file of a
/// tiled image, the input of a normal map, the displacement of a displacement.
pub open spec fn primary_field(tag: Seq<char>) -> Option<Seq<char>> {
    if tag == "tiledimage"@ {
        Some("file"@)
    } else if tag == "normalmap"@ {
        Some("in"@)
    } else if tag == "displacement"@ {
        Some("displacement"@)
    } else {
        None
    }
}

/// A failure one level down, reported with the element and the field of this level.
pub open spec fn wrap_inner(
    element: Seq<char>,
    field: Seq<char>,
    r: Result<ValueView, ResolveErrorView>,
) -> Result<ValueView, ResolveErrorView> {
    match r {
        Ok(v) => Ok(v),
        Err(e) => Err(ResolveErrorView::Inner { element, field, source: Box::new(e) }),
    }
}

/// The value of the field `field` of the element `el`, following at most `depth`
/// references.
///
/// The field is looked up as an input under the element. A field that the element does
/// not have is reported as not found, with the name of the element as the parent; an
/// input that cannot be read is reported with the element and the field around it.
pub open spec fn resolve_field(doc: MaterialX, el: Element, field: Seq<char>, depth: nat) -> Result<
    ValueView,
    ResolveErrorView,
>
    decreases depth, 1nat,
{
    match find_input(child_entries(el.children), el.name@, field) {
        Err(e) => if e is NotFound {
            Err(ResolveErrorView::Access(e))
        } else {
            Err(
                ResolveErrorView::Inner {
                    element: el.name@,
                    field,
                    source: Box::new(ResolveErrorView::Access(e)),
                },
            )
        },
        Ok(input) => resolve_data(doc, el.name@, field, input, depth),
    }
}

/// The value that the input `input`, which is the field `field` of the element named
/// `owner`, stands for, following at most `depth` references.
///
/// - A value is read by the declared type of the input.
/// - A reference to a node is followed to the element of that name under the root, and
///   there to the field that carries the value of a node of its tag.
/// - A reference to an output of a node graph is followed to the element of the graph's
///   name under the root, and there to the element of the output's name, which is read
///   as an input and resolved in turn.
/// - A reference to an interface parameter is not followed.
///
/// What fails one level down is reported with `owner` and `field` around it.
pub open spec fn resolve_data(
    doc: MaterialX,
    owner: Seq<char>,
    field: Seq<char>,
    input: InputView,
    depth: nat,
) -> Result<ValueView, ResolveErrorView>
    decreases depth, 0nat,
{
    match input.data {
        InputDataView::Value(text) => match parse_value(input.type_tag, text) {
            Ok(v) => Ok(v),
            Err(e) => Err(
                ResolveErrorView::Access(
                    AccessErrorView::ValueParseError {
                        name: owner,
                        target: "DataTypeAndValue"@,
                        source: e,
                    },
                ),
            ),
        },
        InputDataView::InterfaceReference { interface_name } => Err(
            ResolveErrorView::Unimplemented(
                UnimplementedView::InterfaceReference { interface_name },
            ),
        ),
        InputDataView::NodeReference { node_name } => match find_element(
            child_entries(doc.elements),
            root_label(),
            node_name,
        ) {
            Err(e) => Err(ResolveErrorView::Access(e)),
            Ok(node) => match primary_field(node.tag@) {
                None => Err(
                    ResolveErrorView::Unimplemented(
                        UnimplementedView::NodeTag { name: node.name@, tag: node.tag@ },
                    ),
                ),
                Some(primary) => if depth == 0 {
                    Err(ResolveErrorView::DepthExceeded)
                } else {
                    wrap_inner(owner, field, resolve_field(doc, node, primary, (depth - 1) as nat))
                },
            },
        },
        InputDataView::OutputReference { nodegraph, output } => match find_element(
            child_entries(doc.elements),
            root_label(),
            nodegraph,
        ) {
            Err(e) => Err(ResolveErrorView::Access(e)),
            Ok(graph) => match find_input(child_entries(graph.children), graph.name@, output) {
                Err(e) => Err(ResolveErrorView::Access(e)),
                Ok(out) => if depth == 0 {
                    Err(ResolveErrorView::DepthExceeded)
                } else {
                    wrap_inner(
                        owner,
                        field,
                        resolve_data(doc, graph.name@, output, out, (depth - 1) as nat),
                    )
                },
            },
        },
    }
}

/// Whether `r` is the exec form of `expected`.
pub open spec fn same_value(
    r: Result<DataTypeAndValue, ResolveError>,
    expected: Result<ValueView, ResolveErrorView>,
) -> bool {
    match r {
        Ok(v) => expected == Ok::<ValueView, ResolveErrorView>(v@),
        Err(e) => expected == Err::<ValueView, ResolveErrorView>(e@),
    }
}

/// The field that carries the value of a node of a tag.
pub fn primary_field_of(tag: &str) -> (r: Option<&'static str>)
    ensures
        r.deep_view() == primary_field(tag@),
{
    if str_eq(tag, "tiledimage") {
        Some("file")
    } else if str_eq(tag, "normalmap") {
        Some("in")
    } else if str_eq(tag, "displacement") {
        Some("displacement")
    } else {
        None
    }
}

/// Reports a failure one level down with the element and the field of this level.
fn wrapped(element: &str, field: &str, r: Result<DataTypeAndValue, ResolveError>) -> (w: Result<
    DataTypeAndValue,
    ResolveError,
>)
    ensures
        forall|expected: Result<ValueView, ResolveErrorView>|
            same_value(r, expected) ==> same_value(w, wrap_inner(element@, field@, expected)),
{
    match r {
        Ok(v) => Ok(v),
        Err(e) => Err(
            ResolveError::Inner {
                element: element.to_owned(),
                field: field.to_owned(),
                source: Box::new(e),
            },
        ),
    }
}

/// Resolves the field `field` of the element `el`, following at most `depth`
/// references.
pub fn resolve_field_within(doc: &MaterialX, el: &Element, field: &str, depth: usize) -> (r: Result<
    DataTypeAndValue,
    ResolveError,
>)
    ensures
        same_value(r, resolve_field(*doc, *el, field@, depth as nat)),
    decreases depth, 1nat,
{
    match input_in(&el.children, el.name.as_str(), field) {
        Ok(input) => resolve_data_within(doc, el.name.as_str(), field, &input, depth),
        Err(e) => {
            let missing = match &e {
                AccessError::NotFound { .. } => true,
                _ => false,
            };
            if missing {
                Err(ResolveError::Access(e))
            } else {
                let ghost cause = e@;
                let inner = ResolveError::Access(e);
                assert(inner@ == ResolveErrorView::Access(cause));
                let outer = ResolveError::Inner {
                    element: el.name.clone(),
                    field: field.to_owned(),
                    source: Box::new(inner),
                };
                assert(outer@ == ResolveErrorView::Inner {
                    element: el.name@,
                    field: field@,
                    source: Box::new(ResolveErrorView::Access(cause)),
                });
                Err(outer)
            }
        },
    }
}

/// Resolves an input that is the field `field` of the element named `owner`,
/// following at most `depth` references.
pub fn resolve_data_within(
    doc: &MaterialX,
    owner: &str,
    field: &str,
    input: &Input,
    depth: usize,
) -> (r: Result<DataTypeAndValue, ResolveError>)
    ensures
        same_value(r, resolve_data(*doc, owner@, field@, input@, depth as nat)),
    decreases depth, 0nat,
{
    match &input.data {
        InputData::Value(text) => match DataTypeAndValue::from_tag_and_value(
            input.type_tag.as_str(),
            text.as_str(),
        ) {
            Ok(v) => Ok(v),
            Err(e) => Err(
                ResolveError::Access(
                    AccessError::ValueParseError {
                        name: owner.to_owned(),
                        target: "DataTypeAndValue".to_owned(),
                        source: Box::new(e),
                    },
                ),
            ),
        },
        InputData::InterfaceReference { interface_name } => Err(
            ResolveError::Unimplemented(
                Unimplemented::InterfaceReference { interface_name: interface_name.clone() },
            ),
        ),
        InputData::NodeReference { node_name } => {
            let node = match element_in(&doc.elements, "<root>", node_name.as_str()) {
                Ok(node) => node,
                Err(e) => {
                    return Err(ResolveError::Access(e));
                },
            };
            let primary = match primary_field_of(node.tag.as_str()) {
                Some(primary) => primary,
                None => {
                    return Err(
                        ResolveError::Unimplemented(
                            Unimplemented::NodeTag {
                                name: node.name.clone(),
                                tag: node.tag.clone(),
                            },
                        ),
                    );
                },
            };
            if depth == 0 {
                return Err(ResolveError::DepthExceeded);
            }
            wrapped(owner, field, resolve_field_within(doc, node, primary, depth - 1))
        },
        InputData::OutputReference { nodegraph, output } => {
            let graph = match element_in(&doc.elements, "<root>", nodegraph.as_str()) {
                Ok(graph) => graph,
                Err(e) => {
                    return Err(ResolveError::Access(e));
                },
            };
            let out = match input_in(&graph.children, graph.name.as_str(), output.as_str()) {
                Ok(out) => out,
                Err(e) => {
                    return Err(ResolveError::Access(e));
                },
            };
            if depth == 0 {
                return Err(ResolveError::DepthExceeded);
            }
            wrapped(
                owner,
                field,
                resolve_data_within(doc, graph.name.as_str(), output.as_str(), &out, depth - 1),
            )
        },
    }
}

impl MaterialX {
    /// Resolves the field `field` of `element` to the value that it stands for,
    /// following at most [`MAX_RESOLVE_DEPTH`] references.
    pub fn resolve_input(&self, element: &Element, field: &str) -> (r: Result<
        DataTypeAndValue,
        ResolveError,
    >)
        ensures
            same_value(r, resolve_field(*self, *element, field@, MAX_RESOLVE_DEPTH as nat)),
    {
        resolve_field_within(self, element, field, MAX_RESOLVE_DEPTH)
    }
}

impl From<AccessError> for ResolveError {
    fn from(e: AccessError) -> (r: Self) {
        ResolveError::Access(e)
    }
}

impl vstd::std_specs::convert::FromSpecImpl<AccessError> for ResolveError {
    open spec fn obeys_from_spec() -> bool {
        true
    }

    open spec fn from_spec(e: AccessError) -> Self {
        ResolveError::Access(e)
    }
}

} // verus!
