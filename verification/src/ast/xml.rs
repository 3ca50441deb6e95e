//! The markup of a document as a plain list of nodes, and the call that reads it.
use vstd::prelude::*;

verus! {

/// What the XML parser says of a text that it refuses.
#[derive(Debug, Clone)]
pub struct XmlError {
    /// The parser's message.
    pub message: String,
    /// The line at which the parser stopped, counted from 1.
    pub row: u32,
    /// The column at which the parser stopped, counted from 1.
    pub col: u32,
}

/// A node of the markup: an element, or anything else that stands between elements
/// (text, a comment, a processing instruction, the root above the outermost element).
///
/// The nodes of a document are listed in document order. A node is a child of the node
/// at the index `parent` if that index is lower than its own.
#[derive(Debug, Clone)]
pub struct XmlNode {
    /// The index of the node under which this one stands.
    pub parent: Option<usize>,
    /// Whether this is an element.
    pub is_element: bool,
    /// The tag of an element, without its namespace; empty for other nodes.
    pub tag: String,
    /// The attributes of an element by name and value, in the order in which they are
    /// written.
    pub attributes: Vec<(String, String)>,
}

/// The mathematical model of an [`XmlNode`].
pub struct XmlNodeView {
    pub parent: Option<usize>,
    pub is_element: bool,
    pub tag: Seq<char>,
    pub attributes: Seq<(Seq<char>, Seq<char>)>,
}

impl View for XmlNode {
    type V = XmlNodeView;

    open spec fn view(&self) -> XmlNodeView {
        XmlNodeView {
            parent: self.parent,
            is_element: self.is_element,
            tag: self.tag@,
            attributes: self.attributes.deep_view(),
        }
    }
}

impl DeepView for XmlNode {
    type V = XmlNodeView;

    open spec fn deep_view(&self) -> XmlNodeView {
        self.view()
    }
}

/// The nodes that the XML parser finds in a text, in document order; `None` for a text
/// that it refuses.
pub uninterp spec fn xml_nodes(text: Seq<char>) -> Option<Seq<XmlNodeView>>;

/// Reads a text with `roxmltree::Document::parse` and lists the nodes of the tree as
/// `Document::descendants` gives them: each with the index of `Node::parent`, with
/// `Node::is_element`, the local name of `Node::tag_name`, and the local name and the
/// value of each of `Node::attributes`.
///
/// The contract only names the list: it is the one that [`xml_nodes`] stands for, and
/// the parser's error comes exactly for the texts for which there is none. Of the
/// error, which is handed on with its message and its position, nothing is claimed.
#[verifier::external_body]
pub(crate) fn parse_xml(text: &str) -> (r: Result<Vec<XmlNode>, XmlError>)
    ensures
        match r {
            Ok(nodes) => xml_nodes(text@) == Some(nodes.deep_view()),
            Err(_) => xml_nodes(text@) is None,
        },
{
    let doc = roxmltree::Document::parse(text).map_err(
        |e| XmlError { message: e.to_string(), row: e.pos().row, col: e.pos().col })?;
    Ok(doc.descendants().map(|n| XmlNode {
        parent: n.parent().map(|p| p.id().get_usize()),
        is_element: n.is_element(),
        tag: n.tag_name().name().to_string(),
        attributes: n.attributes().map(|a| (a.name().to_string(), a.value().to_string())).collect(),
    }).collect())
}

} // verus!
