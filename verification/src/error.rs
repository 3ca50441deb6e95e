//! The error of the library as a whole.
use crate::ast::{AstError, AstErrorView, XmlError};
use crate::nodes::{AccessError, AccessErrorView};
use vstd::prelude::*;

verus! {

/// Why a text is no document, or why a document does not hold what was asked of it.
#[derive(Debug)]
#[non_exhaustive]
pub enum Error {
    /// The root holds no element.
    Empty,
    /// The text is no well-formed XML.
    Xml(XmlError),
    /// The markup is no document.
    Ast(AstError),
    /// The document includes another one.
    IncludesNotSupported,
    /// An element could not be had.
    Get(AccessError),
}

/// The mathematical model of an [`Error`]. Of an error of the XML parser it keeps the
/// kind alone.
pub enum ErrorView {
    Empty,
    Xml,
    Ast(AstErrorView),
    IncludesNotSupported,
    Get(AccessErrorView),
}

impl View for Error {
    type V = ErrorView;

    open spec fn view(&self) -> ErrorView {
        match self {
            Error::Empty => ErrorView::Empty,
            Error::Xml(_) => ErrorView::Xml,
            Error::Ast(e) => ErrorView::Ast(e@),
            Error::IncludesNotSupported => ErrorView::IncludesNotSupported,
            Error::Get(e) => ErrorView::Get(e@),
        }
    }
}

impl From<XmlError> for Error {
    fn from(e: XmlError) -> (r: Self) {
        Error::Xml(e)
    }
}

impl vstd::std_specs::convert::FromSpecImpl<XmlError> for Error {
    open spec fn obeys_from_spec() -> bool {
        true
    }

    open spec fn from_spec(e: XmlError) -> Self {
        Error::Xml(e)
    }
}

impl From<AstError> for Error {
    fn from(e: AstError) -> (r: Self) {
        Error::Ast(e)
    }
}

impl vstd::std_specs::convert::FromSpecImpl<AstError> for Error {
    open spec fn obeys_from_spec() -> bool {
        true
    }

    open spec fn from_spec(e: AstError) -> Self {
        Error::Ast(e)
    }
}

impl From<AccessError> for Error {
    fn from(e: AccessError) -> (r: Self) {
        Error::Get(e)
    }
}

impl vstd::std_specs::convert::FromSpecImpl<AccessError> for Error {
    open spec fn obeys_from_spec() -> bool {
        true
    }

    open spec fn from_spec(e: AccessError) -> Self {
        Error::Get(e)
    }
}

} // verus!
