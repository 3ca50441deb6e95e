//! The errors of the library in words.
use crate::ast::{AstError, AstErrorView, VersionError, VersionErrorView};
use crate::data_types::{DataType, DataTypeView, ValueParseError, ValueParseErrorView};
use crate::error::{Error, ErrorView};
use crate::literal::{FloatErrorKind, IntErrorKind};
use crate::nodes::{
    AccessError, AccessErrorView, ResolveError, ResolveErrorView, Unimplemented,
    UnimplementedView,
};
use vstd::prelude::*;
use vstd::string::StringExecFns;

verus! {

/// The character of a decimal digit.
pub open spec fn digit_char(d: nat) -> char {
    if d == 0 {
        '0'
    } else if d == 1 {
        '1'
    } else if d == 2 {
        '2'
    } else if d == 3 {
        '3'
    } else if d == 4 {
        '4'
    } else if d == 5 {
        '5'
    } else if d == 6 {
        '6'
    } else if d == 7 {
        '7'
    } else if d == 8 {
        '8'
    } else {
        '9'
    }
}

/// A number in decimal digits, without leading zeros.
pub open spec fn decimal_text(n: nat) -> Seq<char>
    decreases n,
{
    if n < 10 {
        seq![digit_char(n)]
    } else {
        decimal_text(n / 10).push(digit_char(n % 10))
    }
}

fn digit_str(d: usize) -> (r: &'static str)
    requires
        d < 10,
    ensures
        r@ == seq![digit_char(d as nat)],
{
    proof {
        reveal_strlit("0");
        reveal_strlit("1");
        reveal_strlit("2");
        reveal_strlit("3");
        reveal_strlit("4");
        reveal_strlit("5");
        reveal_strlit("6");
        reveal_strlit("7");
        reveal_strlit("8");
        reveal_strlit("9");
    }
    let r = if d == 0 {
        "0"
    } else if d == 1 {
        "1"
    } else if d == 2 {
        "2"
    } else if d == 3 {
        "3"
    } else if d == 4 {
        "4"
    } else if d == 5 {
        "5"
    } else if d == 6 {
        "6"
    } else if d == 7 {
        "7"
    } else if d == 8 {
        "8"
    } else {
        "9"
    };
    assert(r@ =~= seq![digit_char(d as nat)]);
    r
}

/// Writes a number in decimal digits behind a text.
pub fn push_decimal(out: &mut String, n: usize)
    ensures
        final(out)@ == old(out)@ + decimal_text(n as nat),
    decreases n,
{
    if n >= 10 {
        push_decimal(out, n / 10);
    }
    out.append(digit_str(n % 10));
    assert(out@ =~= old(out)@ + decimal_text(n as nat));
}

/// The tag that names a type.
pub open spec fn tag_of(t: DataTypeView) -> Seq<char> {
    match t {
        DataTypeView::Integer => "integer"@,
        DataTypeView::Boolean => "boolean"@,
        DataTypeView::Float => "float"@,
        DataTypeView::Color3 => "color3"@,
        DataTypeView::Color4 => "color4"@,
        DataTypeView::Vector2 => "vector2"@,
        DataTypeView::Vector3 => "vector3"@,
        DataTypeView::Vector4 => "vector4"@,
        DataTypeView::Matrix3x3 => "matrix33"@,
        DataTypeView::Matrix4x4 => "matrix44"@,
        DataTypeView::String => "string"@,
        DataTypeView::Filename => "filename"@,
        DataTypeView::IntegerArray => "integerarray"@,
        DataTypeView::FloatArray => "floatarray"@,
        DataTypeView::Color3Array => "color3array"@,
        DataTypeView::Color4Array => "color4array"@,
        DataTypeView::Vector2Array => "vector2array"@,
        DataTypeView::Vector3Array => "vector3array"@,
        DataTypeView::Vector4Array => "vector4array"@,
        DataTypeView::StringArray => "stringarray"@,
        DataTypeView::Unknown(tag) => tag,
    }
}

impl DataType {
    /// The tag that names this type.
    pub fn name(&self) -> (r: &str)
        ensures
            r@ == tag_of(self@),
    {
        match self {
            DataType::Integer => "integer",
            DataType::Boolean => "boolean",
            DataType::Float => "float",
            DataType::Color3 => "color3",
            DataType::Color4 => "color4",
            DataType::Vector2 => "vector2",
            DataType::Vector3 => "vector3",
            DataType::Vector4 => "vector4",
            DataType::Matrix3x3 => "matrix33",
            DataType::Matrix4x4 => "matrix44",
            DataType::String => "string",
            DataType::Filename => "filename",
            DataType::IntegerArray => "integerarray",
            DataType::FloatArray => "floatarray",
            DataType::Color3Array => "color3array",
            DataType::Color4Array => "color4array",
            DataType::Vector2Array => "vector2array",
            DataType::Vector3Array => "vector3array",
            DataType::Vector4Array => "vector4array",
            DataType::StringArray => "stringarray",
            DataType::Unknown(tag) => tag.as_str(),
        }
    }
}

/// Why a text is no integer, in words.
pub open spec fn int_error_text(kind: IntErrorKind) -> Seq<char> {
    match kind {
        IntErrorKind::Empty => "cannot parse integer from empty string"@,
        IntErrorKind::InvalidDigit => "invalid digit found in string"@,
        IntErrorKind::PosOverflow => "number too large to fit in target type"@,
    }
}

/// Why a text is no floating-point literal, in words.
pub open spec fn float_error_text(kind: FloatErrorKind) -> Seq<char> {
    match kind {
        FloatErrorKind::Empty => "cannot parse float from empty string"@,
        FloatErrorKind::Invalid => "invalid float literal"@,
    }
}

impl IntErrorKind {
    /// This kind of error in words.
    pub fn message(&self) -> (r: &'static str)
        ensures
            r@ == int_error_text(*self),
    {
        match self {
            IntErrorKind::Empty => "cannot parse integer from empty string",
            IntErrorKind::InvalidDigit => "invalid digit found in string",
            IntErrorKind::PosOverflow => "number too large to fit in target type",
        }
    }
}

impl FloatErrorKind {
    /// This kind of error in words.
    pub fn message(&self) -> (r: &'static str)
        ensures
            r@ == float_error_text(*self),
    {
        match self {
            FloatErrorKind::Empty => "cannot parse float from empty string",
            FloatErrorKind::Invalid => "invalid float literal",
        }
    }
}

/// An error of the value grammar in words.
pub open spec fn value_error_text(e: ValueParseErrorView) -> Seq<char> {
    match e {
        ValueParseErrorView::InvalidLength { expected, actual } => "Invalid length: expected "@
            + decimal_text(expected as nat) + ", got "@ + decimal_text(actual as nat),
        ValueParseErrorView::InvalidFloat { got, source } => "Invalid float value `"@ + got
            + "`: "@ + float_error_text(source),
        ValueParseErrorView::InvalidInteger { got, source } => "Invalid integer value `"@ + got
            + "`: "@ + int_error_text(source),
        ValueParseErrorView::InvalidBoolean { got } => "Invalid bool value `"@ + got
            + "`: provided string was not `true` or `false`"@,
        ValueParseErrorView::UnexpectedFormat { format } => "Unexpected data format `"@ + tag_of(
            format,
        ) + "`"@,
    }
}

impl ValueParseError {
    /// This error in words.
    pub fn message(&self) -> (r: String)
        ensures
            r@ == value_error_text(self@),
    {
        match self {
            ValueParseError::InvalidLength { expected, actual } => {
                let mut out = "Invalid length: expected ".to_owned();
                push_decimal(&mut out, *expected);
                out.append(", got ");
                push_decimal(&mut out, *actual);
                out
            },
            ValueParseError::InvalidFloat { got, source } => {
                let mut out = "Invalid float value `".to_owned();
                out.append(got.as_str());
                out.append("`: ");
                out.append(source.message());
                out
            },
            ValueParseError::InvalidInteger { got, source } => {
                let mut out = "Invalid integer value `".to_owned();
                out.append(got.as_str());
                out.append("`: ");
                out.append(source.message());
                out
            },
            ValueParseError::InvalidBoolean { got } => {
                let mut out = "Invalid bool value `".to_owned();
                out.append(got.as_str());
                out.append("`: provided string was not `true` or `false`");
                out
            },
            ValueParseError::UnexpectedFormat { format } => {
                let mut out = "Unexpected data format `".to_owned();
                out.append(format.name());
                out.append("`");
                out
            },
        }
    }
}

/// An error of lookup in words. The cause inside is not part of the words.
pub open spec fn access_error_text(e: AccessErrorView) -> Seq<char> {
    match e {
        AccessErrorView::NotFound { name, parent } => "No element found with name `"@ + name
            + "` (in `"@ + parent + "`)"@,
        AccessErrorView::TagMismatch { name, expected, found } => "Element `"@ + name
            + "` has wrong tag mismatch, expected `"@ + expected + "`, found `"@ + found + "`"@,
        AccessErrorView::ConversionError { name, target, .. } => "Failed to convert element `"@
            + name + "` to `"@ + target + "`"@,
        AccessErrorView::ValueParseError { name, target, .. } => "Failed to convert element `"@
            + name + "` to `"@ + target + "`"@,
        AccessErrorView::InputMissingData { name } =>
            "No value, node name, or interface name found for input `"@ + name + "`"@,
        AccessErrorView::InputMissingValue { name } => "No value found for input `"@ + name
            + "`"@,
        AccessErrorView::SubElementAccess { child, parent, .. } => "Could not get `"@ + child
            + "` from `"@ + parent + "`"@,
    }
}

impl AccessError {
    /// This error in words.
    pub fn message(&self) -> (r: String)
        ensures
            r@ == access_error_text(self@),
    {
        match self {
            AccessError::NotFound { name, parent } => {
                let mut out = "No element found with name `".to_owned();
                out.append(name.as_str());
                out.append("` (in `");
                out.append(parent.as_str());
                out.append("`)");
                out
            },
            AccessError::TagMismatch { name, expected, found } => {
                let mut out = "Element `".to_owned();
                out.append(name.as_str());
                out.append("` has wrong tag mismatch, expected `");
                out.append(expected.as_str());
                out.append("`, found `");
                out.append(found.as_str());
                out.append("`");
                out
            },
            AccessError::ConversionError { name, target, .. } => {
                let mut out = "Failed to convert element `".to_owned();
                out.append(name.as_str());
                out.append("` to `");
                out.append(target.as_str());
                out.append("`");
                out
            },
            AccessError::ValueParseError { name, target, .. } => {
                let mut out = "Failed to convert element `".to_owned();
                out.append(name.as_str());
                out.append("` to `");
                out.append(target.as_str());
                out.append("`");
                out
            },
            AccessError::InputMissingData { name } => {
                let mut out = "No value, node name, or interface name found for input `".to_owned();
                out.append(name.as_str());
                out.append("`");
                out
            },
            AccessError::InputMissingValue { name } => {
                let mut out = "No value found for input `".to_owned();
                out.append(name.as_str());
                out.append("`");
                out
            },
            AccessError::SubElementAccess { child, parent, .. } => {
                let mut out = "Could not get `".to_owned();
                out.append(child.as_str());
                out.append("` from `");
                out.append(parent.as_str());
                out.append("`");
                out
            },
        }
    }
}

/// What is not followed, in words.
pub open spec fn unimplemented_text(u: UnimplementedView) -> Seq<char> {
    match u {
        UnimplementedView::InterfaceReference { interface_name } =>
            "Unimplemented: following the interface reference `"@ + interface_name + "`"@,
        UnimplementedView::NodeTag { name, tag } => "Unimplemented element "@ + tag + " ("@
            + name + ")"@,
    }
}

/// An error of resolution in words: the chain of the elements and fields through which
/// the failure came, and the failure at its end.
pub open spec fn resolve_error_text(e: ResolveErrorView) -> Seq<char>
    decreases e,
{
    match e {
        ResolveErrorView::Inner { element, field, source } => "Failed to resolve "@ + element
            + "."@ + field + ": "@ + resolve_error_text(*source),
        ResolveErrorView::Access(e) => access_error_text(e),
        ResolveErrorView::Unimplemented(u) => unimplemented_text(u),
        ResolveErrorView::DepthExceeded => "Too many references to follow"@,
    }
}

impl Unimplemented {
    /// This in words.
    pub fn message(&self) -> (r: String)
        ensures
            r@ == unimplemented_text(self@),
    {
        match self {
            Unimplemented::InterfaceReference { interface_name } => {
                let mut out = "Unimplemented: following the interface reference `".to_owned();
                out.append(interface_name.as_str());
                out.append("`");
                out
            },
            Unimplemented::NodeTag { name, tag } => {
                let mut out = "Unimplemented element ".to_owned();
                out.append(tag.as_str());
                out.append(" (");
                out.append(name.as_str());
                out.append(")");
                out
            },
        }
    }
}

impl ResolveError {
    /// This error in words.
    pub fn message(&self) -> (r: String)
        ensures
            r@ == resolve_error_text(self@),
        decreases self,
    {
        match self {
            ResolveError::Inner { element, field, source } => {
                let mut out = "Failed to resolve ".to_owned();
                out.append(element.as_str());
                out.append(".");
                out.append(field.as_str());
                out.append(": ");
                let cause = source.message();
                out.append(cause.as_str());
                out
            },
            ResolveError::Access(e) => e.message(),
            ResolveError::Unimplemented(u) => u.message(),
            ResolveError::DepthExceeded => "Too many references to follow".to_owned(),
        }
    }
}

/// An error of the version in words.
pub open spec fn version_error_text(e: VersionErrorView) -> Seq<char> {
    match e {
        VersionErrorView::NoVersion => "No version attribute found on materialx element"@,
        VersionErrorView::InvalidLength { given } => "Invalid version: "@ + given,
        VersionErrorView::InvalidNumber { given, .. } => "Invalid version: "@ + given,
    }
}

impl VersionError {
    /// This error in words.
    pub fn message(&self) -> (r: String)
        ensures
            r@ == version_error_text(self@),
    {
        match self {
            VersionError::NoVersion => "No version attribute found on materialx element".to_owned(),
            VersionError::InvalidLength { given } => {
                let mut out = "Invalid version: ".to_owned();
                out.append(given.as_str());
                out
            },
            VersionError::InvalidNumber { given, .. } => {
                let mut out = "Invalid version: ".to_owned();
                out.append(given.as_str());
                out
            },
        }
    }
}

/// An error of building in words. The cause inside is not part of the words.
pub open spec fn ast_error_text(e: AstErrorView) -> Seq<char> {
    match e {
        AstErrorView::Build { .. } => "Failed to build Ast"@,
        AstErrorView::NoName => "No name attribute found"@,
        AstErrorView::InvalidVersion(_) => "Invalid version attribute on materialx element"@,
    }
}

impl AstError {
    /// This error in words.
    pub fn message(&self) -> (r: &'static str)
        ensures
            r@ == ast_error_text(self@),
    {
        match self {
            AstError::Build { .. } => "Failed to build Ast",
            AstError::NoName => "No name attribute found",
            AstError::InvalidVersion(_) => "Invalid version attribute on materialx element",
        }
    }
}

/// An error of the library in words. The cause inside is not part of the words.
pub open spec fn error_text(e: ErrorView) -> Seq<char> {
    match e {
        ErrorView::Empty => "Empty input"@,
        ErrorView::Xml => "Failed to parse XML"@,
        ErrorView::Ast(_) => "Failed to build structure from AST"@,
        ErrorView::IncludesNotSupported => "Include elements are not supported yet"@,
        ErrorView::Get(_) => "Failed to access element"@,
    }
}

impl Error {
    /// This error in words.
    pub fn message(&self) -> (r: &'static str)
        ensures
            r@ == error_text(self@),
    {
        match self {
            Error::Empty => "Empty input",
            Error::Xml(_) => "Failed to parse XML",
            Error::Ast(_) => "Failed to build structure from AST",
            Error::IncludesNotSupported => "Include elements are not supported yet",
            Error::Get(_) => "Failed to access element",
        }
    }
}

} // verus!
