//! The document model: an ordered tree of named elements under one root.
mod from;
mod laws;
mod map;
mod meta;
mod xml;

use indexmap::IndexMap;
use vstd::prelude::*;

pub use from::{
    attribute_map, attribute_value, child_rank, child_slots, children_error, children_match,
    document_error, document_matches, document_result, element_error, element_matches, element_name,
    find_attribute, first_element_child, is_child, is_element_child, lemma_find,
    optional_color_space, outermost_result, owned, root_index, top_level_error,
};
pub use laws::{
    last_named_child, lemma_child_slots, lemma_later_sibling_wins, lemma_lookup_upsert,
    lemma_upsert_distinct,
};
pub use map::{
    attribute_entries, child_entries, distinct_keys, find, lookup, upsert, Children,
};
pub use meta::{
    color_space_of, parse_version, ColorSpace, ColorSpaceView, Version, VersionError,
    VersionErrorView,
};
pub use xml::{xml_nodes, XmlError, XmlNode, XmlNodeView};

verus! {

/// A document: what its root says of it, and the elements that stand under the root.
#[derive(Debug)]
pub struct MaterialX {
    /// The version of the format.
    pub version: Version,
    /// The colour space in which colours are given, where the root names one.
    pub colorspace: Option<ColorSpace>,
    /// The namespace of the names of the document, where the root gives one.
    pub namespace: Option<String>,
    /// The elements under the root, by name.
    pub elements: Children,
}

/// A named element with its tag, its attributes and the elements under it.
#[derive(Debug)]
pub struct Element {
    /// The kind of the element.
    pub tag: String,
    /// The name, which is unique among the elements under one parent.
    pub name: String,
    /// The attributes as they are written, by name.
    pub attributes: IndexMap<String, String>,
    /// The elements under this one, by name.
    pub children: Children,
}

/// Why a document could not be built from its markup.
#[derive(Debug)]
#[non_exhaustive]
pub enum AstError {
    /// The child at place `index` under the element `parent` could not be built.
    Build { parent: String, index: usize, source: Box<AstError> },
    /// An element has no `name` attribute.
    NoName,
    /// The root has no valid `version` attribute.
    InvalidVersion(VersionError),
}

/// The mathematical model of an [`AstError`].
pub enum AstErrorView {
    Build { parent: Seq<char>, index: usize, source: Box<AstErrorView> },
    NoName,
    InvalidVersion(VersionErrorView),
}

/// The model of an error, with the model of its cause inside.
pub open spec fn ast_error_view(e: AstError) -> AstErrorView
    decreases e,
{
    match e {
        AstError::Build { parent, index, source } => AstErrorView::Build {
            parent: parent@,
            index,
            source: Box::new(ast_error_view(*source)),
        },
        AstError::NoName => AstErrorView::NoName,
        AstError::InvalidVersion(e) => AstErrorView::InvalidVersion(e@),
    }
}

impl View for AstError {
    type V = AstErrorView;

    open spec fn view(&self) -> AstErrorView {
        ast_error_view(*self)
    }
}

impl From<VersionError> for AstError {
    fn from(e: VersionError) -> (r: Self) {
        AstError::InvalidVersion(e)
    }
}

impl vstd::std_specs::convert::FromSpecImpl<VersionError> for AstError {
    open spec fn obeys_from_spec() -> bool {
        true
    }

    open spec fn from_spec(e: VersionError) -> Self {
        AstError::InvalidVersion(e)
    }
}

/// The value of an attribute in a map of attributes, if the map has the attribute.
pub fn attribute<'a>(attributes: &'a IndexMap<String, String>, name: &str) -> (r: Option<
    &'a String,
>)
    ensures
        r.deep_view() == lookup(attribute_entries(*attributes), name@),
{
    map::attributes_get(attributes, name)
}

/// The element that a collection holds under a name, if it holds the name.
pub fn child_named<'a>(children: &'a Children, name: &str) -> (r: Option<&'a Element>)
    ensures
        match r {
            Some(el) => lookup(child_entries(*children), name@) == Some(*el),
            None => lookup(child_entries(*children), name@) is None,
        },
{
    map::children_get(children, name)
}

/// The number of elements in a collection.
pub fn child_count(children: &Children) -> (n: usize)
    ensures
        n == child_entries(*children).len(),
{
    map::children_len(children)
}

/// The element at a place of a collection.
pub fn child_at<'a>(children: &'a Children, index: usize) -> (r: &'a Element)
    requires
        index < child_entries(*children).len(),
    ensures
        *r == child_entries(*children)[index as int].1,
{
    map::children_get_index(children, index).unwrap().1
}

} // verus!
