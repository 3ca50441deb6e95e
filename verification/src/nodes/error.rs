//! What can go wrong when an element is looked up or read as a node.
use crate::data_types::{ValueParseError, ValueParseErrorView};
use vstd::prelude::*;

verus! {

/// Why an element could not be had, or could not be read as what was asked for.
#[derive(Debug)]
#[non_exhaustive]
pub enum AccessError {
    /// `parent` has no element of that name.
    NotFound { name: String, parent: String },
    /// The element has another tag than the node kind asks for.
    TagMismatch { name: String, expected: String, found: String },
    /// The element could not be read as a `target`, the name of what was asked for.
    ConversionError { name: String, target: String, source: Box<AccessError> },
    /// The value of the input is none of its declared type.
    ValueParseError { name: String, target: String, source: Box<ValueParseError> },
    /// The attribute `name` is missing; for an input: it has no value and no reference.
    InputMissingData { name: String },
    /// The input holds a reference where a value was asked for.
    InputMissingValue { name: String },
    /// The field `child` of the node `parent` could not be had.
    SubElementAccess { child: String, parent: String, source: Box<AccessError> },
}

/// The mathematical model of an [`AccessError`].
pub enum AccessErrorView {
    NotFound { name: Seq<char>, parent: Seq<char> },
    TagMismatch { name: Seq<char>, expected: Seq<char>, found: Seq<char> },
    ConversionError { name: Seq<char>, target: Seq<char>, source: Box<AccessErrorView> },
    ValueParseError { name: Seq<char>, target: Seq<char>, source: ValueParseErrorView },
    InputMissingData { name: Seq<char> },
    InputMissingValue { name: Seq<char> },
    SubElementAccess { child: Seq<char>, parent: Seq<char>, source: Box<AccessErrorView> },
}

/// The model of an error, with the model of its cause inside.
pub open spec fn access_error_view(e: AccessError) -> AccessErrorView
    decreases e,
{
    match e {
        AccessError::NotFound { name, parent } => AccessErrorView::NotFound {
            name: name@,
            parent: parent@,
        },
        AccessError::TagMismatch { name, expected, found } => AccessErrorView::TagMismatch {
            name: name@,
            expected: expected@,
            found: found@,
        },
        AccessError::ConversionError { name, target, source } => AccessErrorView::ConversionError {
            name: name@,
            target: target@,
            source: Box::new(access_error_view(*source)),
        },
        AccessError::ValueParseError { name, target, source } => AccessErrorView::ValueParseError {
            name: name@,
            target: target@,
            source: source@,
        },
        AccessError::InputMissingData { name } => AccessErrorView::InputMissingData { name: name@ },
        AccessError::InputMissingValue { name } => AccessErrorView::InputMissingValue {
            name: name@,
        },
        AccessError::SubElementAccess { child, parent, source } => AccessErrorView::SubElementAccess {
            child: child@,
            parent: parent@,
            source: Box::new(access_error_view(*source)),
        },
    }
}

impl View for AccessError {
    type V = AccessErrorView;

    open spec fn view(&self) -> AccessErrorView {
        access_error_view(*self)
    }
}

} // verus!
