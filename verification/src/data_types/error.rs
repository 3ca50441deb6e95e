//! The errors of the value grammar.
use super::kind::{DataType, DataTypeView};
use crate::literal::{FloatErrorKind, IntErrorKind};
use vstd::prelude::*;

verus! {

/// Why a text is no value of its declared type.
#[derive(Debug, Clone)]
#[non_exhaustive]
pub enum ValueParseError {
    /// The number of components is not the one that the type asks for.
    InvalidLength { expected: usize, actual: usize },
    /// `got` is no floating-point literal.
    InvalidFloat { got: String, source: FloatErrorKind },
    /// `got` is no unsigned integer, or holds one that is none.
    InvalidInteger { got: String, source: IntErrorKind },
    /// `got` is neither `true` nor `false`.
    InvalidBoolean { got: String },
    /// A value of another type was expected.
    UnexpectedFormat { format: DataType },
}

/// The mathematical model of a [`ValueParseError`].
pub enum ValueParseErrorView {
    InvalidLength { expected: usize, actual: usize },
    InvalidFloat { got: Seq<char>, source: FloatErrorKind },
    InvalidInteger { got: Seq<char>, source: IntErrorKind },
    InvalidBoolean { got: Seq<char> },
    UnexpectedFormat { format: DataTypeView },
}

impl View for ValueParseError {
    type V = ValueParseErrorView;

    open spec fn view(&self) -> ValueParseErrorView {
        match self {
            ValueParseError::InvalidLength { expected, actual } => ValueParseErrorView::InvalidLength {
                expected: *expected,
                actual: *actual,
            },
            ValueParseError::InvalidFloat { got, source } => ValueParseErrorView::InvalidFloat {
                got: got@,
                source: *source,
            },
            ValueParseError::InvalidInteger { got, source } => ValueParseErrorView::InvalidInteger {
                got: got@,
                source: *source,
            },
            ValueParseError::InvalidBoolean { got } => ValueParseErrorView::InvalidBoolean {
                got: got@,
            },
            ValueParseError::UnexpectedFormat { format } => ValueParseErrorView::UnexpectedFormat {
                format: format@,
            },
        }
    }
}

/// What a count of components is checked against: nothing is wrong when it is the
/// expected one.
pub open spec fn length_check(expected: usize, actual: usize) -> Result<(), ValueParseErrorView> {
    if expected != actual {
        Err(ValueParseErrorView::InvalidLength { expected, actual })
    } else {
        Ok(())
    }
}

impl ValueParseError {
    /// The error for a text that is no floating-point literal.
    pub fn float(got: &str, source: FloatErrorKind) -> (e: Self)
        ensures
            e@ == (ValueParseErrorView::InvalidFloat { got: got@, source }),
    {
        ValueParseError::InvalidFloat { got: got.to_owned(), source }
    }

    /// Fails with `InvalidLength` unless `actual` is `expected`.
    pub fn assert_length(expected: usize, actual: usize) -> (r: Result<(), Self>)
        ensures
            match r {
                Ok(_) => length_check(expected, actual) is Ok,
                Err(e) => length_check(expected, actual) == Err::<(), ValueParseErrorView>(e@),
            },
    {
        if expected != actual {
            Err(ValueParseError::InvalidLength { expected, actual })
        } else {
            Ok(())
        }
    }
}

} // verus!
