//! What holds of lookup and resolution on every document.
use super::accessor::{find_element, find_input, find_node, root_label, NodeKindView};
use super::error::AccessErrorView;
use super::input::{InputDataView, InputView};
use super::resolve::{
    primary_field, resolve_data, resolve_field, wrap_inner, ResolveErrorView, UnimplementedView,
};
use crate::ast::{
    child_entries, document_matches, element_matches, last_named_child,
    lemma_later_sibling_wins, lookup, root_index, Element, MaterialX, XmlNodeView,
};
use crate::data_types::{parse_value, ValueView};
use vstd::prelude::*;

verus! {

/// An element of another tag than the kind asks for is never read as a node of the
/// kind: the lookup fails with a tag mismatch that names the element, the expected tag
/// and the tag that was found.
pub proof fn lemma_tag_mismatch(
    entries: Seq<(Seq<char>, Element)>,
    parent: Seq<char>,
    kind: NodeKindView,
    name: Seq<char>,
)
    requires
        lookup(entries, name) is Some,
        lookup(entries, name)->0.tag@ != kind.tag,
    ensures
        find_node(entries, parent, kind, name) == Err::<super::NodeView, AccessErrorView>(
            AccessErrorView::TagMismatch {
                name: lookup(entries, name)->0.name@,
                expected: kind.tag,
                found: lookup(entries, name)->0.tag@,
            },
        ),
{
}

/// An input that holds a value resolves to that value, read by the declared type of
/// the input, at any depth.
pub proof fn lemma_literal_resolution(
    doc: MaterialX,
    el: Element,
    field: Seq<char>,
    depth: nat,
)
    requires
        find_input(child_entries(el.children), el.name@, field) is Ok,
        find_input(child_entries(el.children), el.name@, field)->Ok_0.data is Value,
    ensures
        ({
            let input = find_input(child_entries(el.children), el.name@, field)->Ok_0;
            match parse_value(input.type_tag, input.data->Value_0) {
                Ok(v) => resolve_field(doc, el, field, depth) == Ok::<ValueView, ResolveErrorView>(v),
                Err(_) => resolve_field(doc, el, field, depth) is Err,
            }
        }),
{
}

/// A reference to a node is resolved at the field that carries the value of that
/// node, one level down.
pub proof fn lemma_node_reference(
    doc: MaterialX,
    owner: Seq<char>,
    field: Seq<char>,
    input: InputView,
    depth: nat,
)
    requires
        depth > 0,
        input.data is NodeReference,
        lookup(child_entries(doc.elements), input.data->node_name) is Some,
        primary_field(lookup(child_entries(doc.elements), input.data->node_name)->0.tag@) is Some,
    ensures
        ({
            let node = lookup(child_entries(doc.elements), input.data->node_name)->0;
            resolve_data(doc, owner, field, input, depth) == wrap_inner(
                owner,
                field,
                resolve_field(doc, node, primary_field(node.tag@)->0, (depth - 1) as nat),
            )
        }),
{
}

/// A reference to an output of a node graph is resolved at that output, which is read
/// as an input, one level down.
pub proof fn lemma_output_reference(
    doc: MaterialX,
    owner: Seq<char>,
    field: Seq<char>,
    input: InputView,
    depth: nat,
)
    requires
        depth > 0,
        input.data is OutputReference,
        lookup(child_entries(doc.elements), input.data->nodegraph) is Some,
        ({
            let graph = lookup(child_entries(doc.elements), input.data->nodegraph)->0;
            find_input(child_entries(graph.children), graph.name@, input.data->output) is Ok
        }),
    ensures
        ({
            let graph = lookup(child_entries(doc.elements), input.data->nodegraph)->0;
            let out = find_input(child_entries(graph.children), graph.name@, input.data->output)->Ok_0;
            resolve_data(doc, owner, field, input, depth) == wrap_inner(
                owner,
                field,
                resolve_data(doc, graph.name@, input.data->output, out, (depth - 1) as nat),
            )
        }),
{
}

/// An input that refers to an interface parameter never resolves to a value: it is
/// reported as not implemented, with the name of the parameter.
pub proof fn lemma_interface_reference_unimplemented(
    doc: MaterialX,
    owner: Seq<char>,
    field: Seq<char>,
    input: InputView,
    depth: nat,
)
    requires
        input.data is InterfaceReference,
    ensures
        resolve_data(doc, owner, field, input, depth) == Err::<ValueView, ResolveErrorView>(
            ResolveErrorView::Unimplemented(
                UnimplementedView::InterfaceReference {
                    interface_name: input.data->interface_name,
                },
            ),
        ),
{
}

/// A field of an element that is a reference to an interface parameter never resolves
/// to a value.
pub proof fn lemma_interface_field_unimplemented(
    doc: MaterialX,
    el: Element,
    field: Seq<char>,
    depth: nat,
)
    requires
        find_input(child_entries(el.children), el.name@, field) is Ok,
        find_input(child_entries(el.children), el.name@, field)->Ok_0.data is InterfaceReference,
    ensures
        resolve_field(doc, el, field, depth) is Err,
        resolve_field(doc, el, field, depth)->Err_0 is Unimplemented,
{
}

/// A field that an element does not have resolves to "not found", with the name of
/// the field and the name of the element; never to a value.
pub proof fn lemma_missing_field(doc: MaterialX, el: Element, field: Seq<char>, depth: nat)
    requires
        lookup(child_entries(el.children), field) is None,
    ensures
        resolve_field(doc, el, field, depth) == Err::<ValueView, ResolveErrorView>(
            ResolveErrorView::Access(AccessErrorView::NotFound { name: field, parent: el.name@ }),
        ),
{
}

/// Where the markup has several elements of one name under the outermost element,
/// the document keeps the last of them alone, and that one is what a lookup of the name
/// gives. A name that no element has is not found.
pub proof fn lemma_lookup_gives_later_sibling(
    doc: MaterialX,
    nodes: Seq<XmlNodeView>,
    name: Seq<char>,
)
    requires
        document_matches(doc, nodes),
    ensures
        match last_named_child(nodes, root_index(nodes), name, nodes.len() as int) {
            Some(j) => {
                let found = find_element(child_entries(doc.elements), root_label(), name);
                found is Ok && element_matches(found->Ok_0, nodes, j)
            },
            None => find_element(child_entries(doc.elements), root_label(), name) == Err::<
                Element,
                AccessErrorView,
            >(AccessErrorView::NotFound { name, parent: root_label() }),
        },
{
    lemma_later_sibling_wins(child_entries(doc.elements), nodes, root_index(nodes), name);
}

} // verus!
