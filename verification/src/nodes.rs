//! Elements read as nodes: lookup by name and kind, inputs, and their resolution.
mod accessor;
mod error;
mod input;
mod laws;
mod resolve;
pub mod standard_nodes;

pub use error::{access_error_view, AccessError, AccessErrorView};
pub use input::{input_data_of, input_of, input_value, Input, InputData, InputDataView, InputView};
pub use accessor::{
    element_in, elements_view, field_input, field_inputs, find_element, find_input, find_node,
    first_bad_field, input_in, inputs_view, node_in, nodes_among, nodes_in, project, root_label,
    same_element, same_input, same_node, tagged_among, tagged_in, FieldSpec, FieldSpecView,
    GetAllByType, GetByTypeAndName, Node, NodeKind, NodeKindView, NodeView,
};
pub use resolve::{
    primary_field, primary_field_of, resolve_data, resolve_data_within, resolve_error_view,
    resolve_field, resolve_field_within, same_value, wrap_inner, ResolveError, ResolveErrorView,
    Unimplemented, UnimplementedView, MAX_RESOLVE_DEPTH,
};
pub use laws::{
    lemma_interface_field_unimplemented, lemma_interface_reference_unimplemented,
    lemma_literal_resolution, lemma_lookup_gives_later_sibling, lemma_missing_field, lemma_node_reference,
    lemma_output_reference, lemma_tag_mismatch,
};
