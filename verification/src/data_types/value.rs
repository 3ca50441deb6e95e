//! Typed values and the grammar that reads them.
use super::error::{ValueParseError, ValueParseErrorView};
use super::kind::{data_type_of, DataType, DataTypeView};
use super::primitives::{
    parse_float_list, parse_floats, parse_matrix, parse_vector, Float, Matrix3x3, Matrix4x4,
    Vector2, Vector3, Vector4,
};
use crate::literal::{
    float_error, parse_boolean, parse_boolean_str, parse_unsigned, parse_unsigned_str,
};
use crate::text::{split, split_str, trim, trim_all, trim_str};
use vstd::prelude::*;

verus! {

/// A colour of three channels.
pub type Color3 = Vector3;

/// A colour of four channels.
pub type Color4 = Vector4;

/// A value together with its type.
#[derive(Debug, Clone)]
pub enum DataTypeAndValue {
    Integer(u64),
    Boolean(bool),
    Float(Float),
    Color3(Color3),
    Color4(Color4),
    Vector2(Vector2),
    Vector3(Vector3),
    Vector4(Vector4),
    Matrix3x3(Matrix3x3),
    Matrix4x4(Matrix4x4),
    String(String),
    Filename(String),
    IntegerArray(Vec<u64>),
    FloatArray(Vec<Float>),
    Color3Array(Vec<Color3>),
    Color4Array(Vec<Color4>),
    Vector2Array(Vec<Vector2>),
    Vector3Array(Vec<Vector3>),
    Vector4Array(Vec<Vector4>),
    StringArray(Vec<String>),
    /// A value of a type that the grammar does not know, kept as it was written.
    Unknown { tag: String, value: String },
}

/// The mathematical model of a [`DataTypeAndValue`]. A floating-point number is the
/// text of its literal, a vector the sequence of its components, a matrix the sequence
/// of its rows.
pub enum ValueView {
    Integer(u64),
    Boolean(bool),
    Float(Seq<char>),
    Color3(Seq<Seq<char>>),
    Color4(Seq<Seq<char>>),
    Vector2(Seq<Seq<char>>),
    Vector3(Seq<Seq<char>>),
    Vector4(Seq<Seq<char>>),
    Matrix3x3(Seq<Seq<Seq<char>>>),
    Matrix4x4(Seq<Seq<Seq<char>>>),
    String(Seq<char>),
    Filename(Seq<char>),
    IntegerArray(Seq<u64>),
    FloatArray(Seq<Seq<char>>),
    Color3Array(Seq<Seq<Seq<char>>>),
    Color4Array(Seq<Seq<Seq<char>>>),
    Vector2Array(Seq<Seq<Seq<char>>>),
    Vector3Array(Seq<Seq<Seq<char>>>),
    Vector4Array(Seq<Seq<Seq<char>>>),
    StringArray(Seq<Seq<char>>),
    Unknown { tag: Seq<char>, value: Seq<char> },
}

impl View for DataTypeAndValue {
    type V = ValueView;

    open spec fn view(&self) -> ValueView {
        match self {
            DataTypeAndValue::Integer(n) => ValueView::Integer(*n),
            DataTypeAndValue::Boolean(b) => ValueView::Boolean(*b),
            DataTypeAndValue::Float(f) => ValueView::Float(f@),
            DataTypeAndValue::Color3(v) => ValueView::Color3(v@),
            DataTypeAndValue::Color4(v) => ValueView::Color4(v@),
            DataTypeAndValue::Vector2(v) => ValueView::Vector2(v@),
            DataTypeAndValue::Vector3(v) => ValueView::Vector3(v@),
            DataTypeAndValue::Vector4(v) => ValueView::Vector4(v@),
            DataTypeAndValue::Matrix3x3(m) => ValueView::Matrix3x3(m@),
            DataTypeAndValue::Matrix4x4(m) => ValueView::Matrix4x4(m@),
            DataTypeAndValue::String(s) => ValueView::String(s@),
            DataTypeAndValue::Filename(s) => ValueView::Filename(s@),
            DataTypeAndValue::IntegerArray(v) => ValueView::IntegerArray(v@),
            DataTypeAndValue::FloatArray(v) => ValueView::FloatArray(v.deep_view()),
            DataTypeAndValue::Color3Array(v) => ValueView::Color3Array(v.deep_view()),
            DataTypeAndValue::Color4Array(v) => ValueView::Color4Array(v.deep_view()),
            DataTypeAndValue::Vector2Array(v) => ValueView::Vector2Array(v.deep_view()),
            DataTypeAndValue::Vector3Array(v) => ValueView::Vector3Array(v.deep_view()),
            DataTypeAndValue::Vector4Array(v) => ValueView::Vector4Array(v.deep_view()),
            DataTypeAndValue::StringArray(v) => ValueView::StringArray(v.deep_view()),
            DataTypeAndValue::Unknown { tag, value } => ValueView::Unknown {
                tag: tag@,
                value: value@,
            },
        }
    }
}

/// The type of a value.
pub open spec fn type_of(value: ValueView) -> DataTypeView {
    match value {
        ValueView::Integer(_) => DataTypeView::Integer,
        ValueView::Boolean(_) => DataTypeView::Boolean,
        ValueView::Float(_) => DataTypeView::Float,
        ValueView::Color3(_) => DataTypeView::Color3,
        ValueView::Color4(_) => DataTypeView::Color4,
        ValueView::Vector2(_) => DataTypeView::Vector2,
        ValueView::Vector3(_) => DataTypeView::Vector3,
        ValueView::Vector4(_) => DataTypeView::Vector4,
        ValueView::Matrix3x3(_) => DataTypeView::Matrix3x3,
        ValueView::Matrix4x4(_) => DataTypeView::Matrix4x4,
        ValueView::String(_) => DataTypeView::String,
        ValueView::Filename(_) => DataTypeView::Filename,
        ValueView::IntegerArray(_) => DataTypeView::IntegerArray,
        ValueView::FloatArray(_) => DataTypeView::FloatArray,
        ValueView::Color3Array(_) => DataTypeView::Color3Array,
        ValueView::Color4Array(_) => DataTypeView::Color4Array,
        ValueView::Vector2Array(_) => DataTypeView::Vector2Array,
        ValueView::Vector3Array(_) => DataTypeView::Vector3Array,
        ValueView::Vector4Array(_) => DataTypeView::Vector4Array,
        ValueView::StringArray(_) => DataTypeView::StringArray,
        ValueView::Unknown { tag, .. } => DataTypeView::Unknown(tag),
    }
}

/// The largest integer of the grammar.
pub open spec fn max_integer() -> nat {
    u64::MAX as nat
}

/// The index of the first piece at or after `from` whose trimmed text is no unsigned
/// integer; the number of pieces if there is none.
pub open spec fn first_bad_integer(pieces: Seq<Seq<char>>, from: int) -> int
    decreases pieces.len() - from,
{
    if from < 0 || from >= pieces.len() {
        pieces.len() as int
    } else if parse_unsigned(trim(pieces[from]), max_integer()) is Err {
        from
    } else {
        first_bad_integer(pieces, from + 1)
    }
}

/// The integers that the pieces denote, each piece trimmed.
pub open spec fn all_integers(pieces: Seq<Seq<char>>) -> Seq<u64> {
    Seq::new(
        pieces.len(),
        |i: int| parse_unsigned(trim(pieces[i]), max_integer())->Ok_0 as u64,
    )
}

/// The unsigned integers of a comma-separated list. The first piece that is no integer
/// fails the whole list, which is reported as a whole.
pub open spec fn parse_integers(text: Seq<char>) -> Result<Seq<u64>, ValueParseErrorView> {
    let pieces = split(text, ',');
    let k = first_bad_integer(pieces, 0);
    if k < pieces.len() {
        Err(
            ValueParseErrorView::InvalidInteger {
                got: text,
                source: parse_unsigned(trim(pieces[k]), max_integer())->Err_0,
            },
        )
    } else {
        Ok(all_integers(pieces))
    }
}

/// The index of the first piece at or after `from` whose trimmed text is no vector of
/// `arity` components; the number of pieces if there is none.
pub open spec fn first_bad_vector(pieces: Seq<Seq<char>>, arity: usize, from: int) -> int
    decreases pieces.len() - from,
{
    if from < 0 || from >= pieces.len() {
        pieces.len() as int
    } else if parse_vector(trim(pieces[from]), arity) is Err {
        from
    } else {
        first_bad_vector(pieces, arity, from + 1)
    }
}

/// The vectors that the pieces denote, each piece trimmed.
pub open spec fn all_vectors(pieces: Seq<Seq<char>>, arity: usize) -> Seq<Seq<Seq<char>>> {
    Seq::new(pieces.len(), |i: int| parse_vector(trim(pieces[i]), arity)->Ok_0)
}

/// A comma-separated list in which every piece is read as a whole vector of `arity`
/// components. The first piece that is none fails the list with its own error.
pub open spec fn parse_vectors(text: Seq<char>, arity: usize) -> Result<
    Seq<Seq<Seq<char>>>,
    ValueParseErrorView,
> {
    let pieces = split(text, ',');
    let k = first_bad_vector(pieces, arity, 0);
    if k < pieces.len() {
        Err(parse_vector(trim(pieces[k]), arity)->Err_0)
    } else {
        Ok(all_vectors(pieces, arity))
    }
}

/// The value that `value` denotes under the type that `tag` names.
///
/// Scalars are read as they stand, without trimming. The components of vectors,
/// matrices and arrays are separated by commas and trimmed. A tag that the grammar does
/// not know gives an unknown value, never an error.
pub open spec fn parse_value(tag: Seq<char>, value: Seq<char>) -> Result<
    ValueView,
    ValueParseErrorView,
> {
    match data_type_of(tag) {
        DataTypeView::Integer => match parse_unsigned(value, max_integer()) {
            Ok(n) => Ok(ValueView::Integer(n as u64)),
            Err(source) => Err(ValueParseErrorView::InvalidInteger { got: value, source }),
        },
        DataTypeView::Boolean => match parse_boolean(value) {
            Some(b) => Ok(ValueView::Boolean(b)),
            None => Err(ValueParseErrorView::InvalidBoolean { got: value }),
        },
        DataTypeView::Float => match float_error(value) {
            None => Ok(ValueView::Float(value)),
            Some(source) => Err(ValueParseErrorView::InvalidFloat { got: value, source }),
        },
        DataTypeView::Color3 => match parse_vector(value, 3) {
            Ok(v) => Ok(ValueView::Color3(v)),
            Err(e) => Err(e),
        },
        DataTypeView::Color4 => match parse_vector(value, 4) {
            Ok(v) => Ok(ValueView::Color4(v)),
            Err(e) => Err(e),
        },
        DataTypeView::Vector2 => match parse_vector(value, 2) {
            Ok(v) => Ok(ValueView::Vector2(v)),
            Err(e) => Err(e),
        },
        DataTypeView::Vector3 => match parse_vector(value, 3) {
            Ok(v) => Ok(ValueView::Vector3(v)),
            Err(e) => Err(e),
        },
        DataTypeView::Vector4 => match parse_vector(value, 4) {
            Ok(v) => Ok(ValueView::Vector4(v)),
            Err(e) => Err(e),
        },
        DataTypeView::Matrix3x3 => match parse_matrix(value, 3) {
            Ok(m) => Ok(ValueView::Matrix3x3(m)),
            Err(e) => Err(e),
        },
        DataTypeView::Matrix4x4 => match parse_matrix(value, 4) {
            Ok(m) => Ok(ValueView::Matrix4x4(m)),
            Err(e) => Err(e),
        },
        DataTypeView::String => Ok(ValueView::String(value)),
        DataTypeView::Filename => Ok(ValueView::Filename(value)),
        DataTypeView::IntegerArray => match parse_integers(value) {
            Ok(v) => Ok(ValueView::IntegerArray(v)),
            Err(e) => Err(e),
        },
        DataTypeView::FloatArray => match parse_floats(value) {
            Ok(v) => Ok(ValueView::FloatArray(v)),
            Err(e) => Err(
                ValueParseErrorView::InvalidFloat { got: value, source: e->InvalidFloat_source },
            ),
        },
        DataTypeView::Color3Array => match parse_vectors(value, 3) {
            Ok(v) => Ok(ValueView::Color3Array(v)),
            Err(e) => Err(e),
        },
        DataTypeView::Color4Array => match parse_vectors(value, 4) {
            Ok(v) => Ok(ValueView::Color4Array(v)),
            Err(e) => Err(e),
        },
        DataTypeView::Vector2Array => match parse_vectors(value, 2) {
            Ok(v) => Ok(ValueView::Vector2Array(v)),
            Err(e) => Err(e),
        },
        DataTypeView::Vector3Array => match parse_vectors(value, 3) {
            Ok(v) => Ok(ValueView::Vector3Array(v)),
            Err(e) => Err(e),
        },
        DataTypeView::Vector4Array => match parse_vectors(value, 4) {
            Ok(v) => Ok(ValueView::Vector4Array(v)),
            Err(e) => Err(e),
        },
        DataTypeView::StringArray => Ok(ValueView::StringArray(trim_all(split(value, ',')))),
        DataTypeView::Unknown(t) => Ok(ValueView::Unknown { tag: t, value }),
    }
}

/// Parses a comma-separated list of unsigned integers.
fn parse_integer_array(text: &str) -> (r: Result<Vec<u64>, ValueParseError>)
    ensures
        match r {
            Ok(v) => parse_integers(text@) == Ok::<Seq<u64>, ValueParseErrorView>(v@),
            Err(e) => parse_integers(text@) == Err::<Seq<u64>, ValueParseErrorView>(e@),
        },
{
    let pieces = split_str(text, ',');
    let mut out: Vec<u64> = Vec::new();
    let mut i: usize = 0;
    while i < pieces.len()
        invariant
            0 <= i <= pieces.len(),
            pieces.deep_view() == split(text@, ','),
            first_bad_integer(pieces.deep_view(), i as int) == first_bad_integer(
                pieces.deep_view(),
                0,
            ),
            out@ == all_integers(pieces.deep_view()).take(i as int),
        decreases pieces.len() - i,
    {
        let piece = pieces[i].as_str();
        assert(piece@ == pieces.deep_view()[i as int]);
        match parse_unsigned_str(trim_str(piece), u64::MAX) {
            Ok(n) => {
                out.push(n);
                assert(out@ =~= all_integers(pieces.deep_view()).take(i + 1));
            },
            Err(source) => {
                return Err(ValueParseError::InvalidInteger { got: text.to_owned(), source });
            },
        }
        i = i + 1;
    }
    assert(out@ =~= all_integers(pieces.deep_view()));
    Ok(out)
}

/// Splits a comma-separated list and trims every piece.
fn parse_string_array(text: &str) -> (r: Vec<String>)
    ensures
        r.deep_view() == trim_all(split(text@, ',')),
{
    let pieces = split_str(text, ',');
    let mut out: Vec<String> = Vec::new();
    let mut i: usize = 0;
    while i < pieces.len()
        invariant
            0 <= i <= pieces.len(),
            pieces.deep_view() == split(text@, ','),
            out.deep_view() == trim_all(pieces.deep_view()).take(i as int),
        decreases pieces.len() - i,
    {
        let piece = pieces[i].as_str();
        assert(piece@ == pieces.deep_view()[i as int]);
        let trimmed = trim_str(piece).to_owned();
        let ghost before = out.deep_view();
        out.push(trimmed);
        assert(out.deep_view() =~= before.push(trimmed@));
        assert(out.deep_view() =~= trim_all(pieces.deep_view()).take(i + 1));
        i = i + 1;
    }
    assert(out.deep_view() =~= trim_all(pieces.deep_view()));
    out
}

/// Parses a comma-separated list in which every element is a whole `Vector2`.
fn parse_vector2_array(text: &str) -> (r: Result<Vec<Vector2>, ValueParseError>)
    ensures
        match r {
            Ok(v) => parse_vectors(text@, 2) == Ok::<Seq<Seq<Seq<char>>>, ValueParseErrorView>(
                v.deep_view(),
            ),
            Err(e) => parse_vectors(text@, 2) == Err::<Seq<Seq<Seq<char>>>, ValueParseErrorView>(
                e@,
            ),
        },
{
    let pieces = split_str(text, ',');
    let mut out: Vec<Vector2> = Vec::new();
    let mut i: usize = 0;
    while i < pieces.len()
        invariant
            0 <= i <= pieces.len(),
            pieces.deep_view() == split(text@, ','),
            first_bad_vector(pieces.deep_view(), 2, i as int) == first_bad_vector(
                pieces.deep_view(),
                2,
                0,
            ),
            out.deep_view() == all_vectors(pieces.deep_view(), 2).take(i as int),
        decreases pieces.len() - i,
    {
        let piece = pieces[i].as_str();
        assert(piece@ == pieces.deep_view()[i as int]);
        match Vector2::from_str(trim_str(piece)) {
            Ok(v) => {
                let ghost before = out.deep_view();
                out.push(v);
                assert(out.deep_view() =~= before.push(v@));
                assert(out.deep_view() =~= all_vectors(pieces.deep_view(), 2).take(i + 1));
            },
            Err(e) => {
                return Err(e);
            },
        }
        i = i + 1;
    }
    assert(out.deep_view() =~= all_vectors(pieces.deep_view(), 2));
    Ok(out)
}

/// Parses a comma-separated list in which every element is a whole `Vector3`.
fn parse_vector3_array(text: &str) -> (r: Result<Vec<Vector3>, ValueParseError>)
    ensures
        match r {
            Ok(v) => parse_vectors(text@, 3) == Ok::<Seq<Seq<Seq<char>>>, ValueParseErrorView>(
                v.deep_view(),
            ),
            Err(e) => parse_vectors(text@, 3) == Err::<Seq<Seq<Seq<char>>>, ValueParseErrorView>(
                e@,
            ),
        },
{
    let pieces = split_str(text, ',');
    let mut out: Vec<Vector3> = Vec::new();
    let mut i: usize = 0;
    while i < pieces.len()
        invariant
            0 <= i <= pieces.len(),
            pieces.deep_view() == split(text@, ','),
            first_bad_vector(pieces.deep_view(), 3, i as int) == first_bad_vector(
                pieces.deep_view(),
                3,
                0,
            ),
            out.deep_view() == all_vectors(pieces.deep_view(), 3).take(i as int),
        decreases pieces.len() - i,
    {
        let piece = pieces[i].as_str();
        assert(piece@ == pieces.deep_view()[i as int]);
        match Vector3::from_str(trim_str(piece)) {
            Ok(v) => {
                let ghost before = out.deep_view();
                out.push(v);
                assert(out.deep_view() =~= before.push(v@));
                assert(out.deep_view() =~= all_vectors(pieces.deep_view(), 3).take(i + 1));
            },
            Err(e) => {
                return Err(e);
            },
        }
        i = i + 1;
    }
    assert(out.deep_view() =~= all_vectors(pieces.deep_view(), 3));
    Ok(out)
}

/// Parses a comma-separated list in which every element is a whole `Vector4`.
fn parse_vector4_array(text: &str) -> (r: Result<Vec<Vector4>, ValueParseError>)
    ensures
        match r {
            Ok(v) => parse_vectors(text@, 4) == Ok::<Seq<Seq<Seq<char>>>, ValueParseErrorView>(
                v.deep_view(),
            ),
            Err(e) => parse_vectors(text@, 4) == Err::<Seq<Seq<Seq<char>>>, ValueParseErrorView>(
                e@,
            ),
        },
{
    let pieces = split_str(text, ',');
    let mut out: Vec<Vector4> = Vec::new();
    let mut i: usize = 0;
    while i < pieces.len()
        invariant
            0 <= i <= pieces.len(),
            pieces.deep_view() == split(text@, ','),
            first_bad_vector(pieces.deep_view(), 4, i as int) == first_bad_vector(
                pieces.deep_view(),
                4,
                0,
            ),
            out.deep_view() == all_vectors(pieces.deep_view(), 4).take(i as int),
        decreases pieces.len() - i,
    {
        let piece = pieces[i].as_str();
        assert(piece@ == pieces.deep_view()[i as int]);
        match Vector4::from_str(trim_str(piece)) {
            Ok(v) => {
                let ghost before = out.deep_view();
                out.push(v);
                assert(out.deep_view() =~= before.push(v@));
                assert(out.deep_view() =~= all_vectors(pieces.deep_view(), 4).take(i + 1));
            },
            Err(e) => {
                return Err(e);
            },
        }
        i = i + 1;
    }
    assert(out.deep_view() =~= all_vectors(pieces.deep_view(), 4));
    Ok(out)
}

impl DataTypeAndValue {
    /// Reads `value` as a value of the type that `tag` names.
    pub fn from_tag_and_value(tag: &str, value: &str) -> (r: Result<Self, ValueParseError>)
        ensures
            match r {
                Ok(v) => parse_value(tag@, value@) == Ok::<ValueView, ValueParseErrorView>(v@),
                Err(e) => parse_value(tag@, value@) == Err::<ValueView, ValueParseErrorView>(e@),
            },
    {
        match DataType::from_tag(tag) {
            DataType::Integer => match parse_unsigned_str(value, u64::MAX) {
                Ok(n) => Ok(DataTypeAndValue::Integer(n)),
                Err(source) => Err(
                    ValueParseError::InvalidInteger { got: value.to_owned(), source },
                ),
            },
            DataType::Boolean => match parse_boolean_str(value) {
                Some(b) => Ok(DataTypeAndValue::Boolean(b)),
                None => Err(ValueParseError::InvalidBoolean { got: value.to_owned() }),
            },
            DataType::Float => match Float::parse(value) {
                Ok(f) => Ok(DataTypeAndValue::Float(f)),
                Err(source) => Err(ValueParseError::float(value, source)),
            },
            DataType::Color3 => match Vector3::from_str(value) {
                Ok(v) => Ok(DataTypeAndValue::Color3(v)),
                Err(e) => Err(e),
            },
            DataType::Color4 => match Vector4::from_str(value) {
                Ok(v) => Ok(DataTypeAndValue::Color4(v)),
                Err(e) => Err(e),
            },
            DataType::Vector2 => match Vector2::from_str(value) {
                Ok(v) => Ok(DataTypeAndValue::Vector2(v)),
                Err(e) => Err(e),
            },
            DataType::Vector3 => match Vector3::from_str(value) {
                Ok(v) => Ok(DataTypeAndValue::Vector3(v)),
                Err(e) => Err(e),
            },
            DataType::Vector4 => match Vector4::from_str(value) {
                Ok(v) => Ok(DataTypeAndValue::Vector4(v)),
                Err(e) => Err(e),
            },
            DataType::Matrix3x3 => match Matrix3x3::from_str(value) {
                Ok(m) => Ok(DataTypeAndValue::Matrix3x3(m)),
                Err(e) => Err(e),
            },
            DataType::Matrix4x4 => match Matrix4x4::from_str(value) {
                Ok(m) => Ok(DataTypeAndValue::Matrix4x4(m)),
                Err(e) => Err(e),
            },
            DataType::String => Ok(DataTypeAndValue::String(value.to_owned())),
            DataType::Filename => Ok(DataTypeAndValue::Filename(value.to_owned())),
            DataType::IntegerArray => match parse_integer_array(value) {
                Ok(v) => Ok(DataTypeAndValue::IntegerArray(v)),
                Err(e) => Err(e),
            },
            DataType::FloatArray => match parse_float_list(value) {
                Ok(v) => Ok(DataTypeAndValue::FloatArray(v)),
                Err(e) => match e {
                    ValueParseError::InvalidFloat { got: _, source } => Err(
                        ValueParseError::float(value, source),
                    ),
                    other => Err(other),
                },
            },
            DataType::Color3Array => match parse_vector3_array(value) {
                Ok(v) => Ok(DataTypeAndValue::Color3Array(v)),
                Err(e) => Err(e),
            },
            DataType::Color4Array => match parse_vector4_array(value) {
                Ok(v) => Ok(DataTypeAndValue::Color4Array(v)),
                Err(e) => Err(e),
            },
            DataType::Vector2Array => match parse_vector2_array(value) {
                Ok(v) => Ok(DataTypeAndValue::Vector2Array(v)),
                Err(e) => Err(e),
            },
            DataType::Vector3Array => match parse_vector3_array(value) {
                Ok(v) => Ok(DataTypeAndValue::Vector3Array(v)),
                Err(e) => Err(e),
            },
            DataType::Vector4Array => match parse_vector4_array(value) {
                Ok(v) => Ok(DataTypeAndValue::Vector4Array(v)),
                Err(e) => Err(e),
            },
            DataType::StringArray => Ok(
                DataTypeAndValue::StringArray(parse_string_array(value)),
            ),
            DataType::Unknown(t) => Ok(
                DataTypeAndValue::Unknown { tag: t, value: value.to_owned() },
            ),
        }
    }

    /// The type of this value.
    pub fn tag(&self) -> (t: DataType)
        ensures
            t@ == type_of(self@),
    {
        match self {
            DataTypeAndValue::Integer(..) => DataType::Integer,
            DataTypeAndValue::Boolean(..) => DataType::Boolean,
            DataTypeAndValue::Float(..) => DataType::Float,
            DataTypeAndValue::Color3(..) => DataType::Color3,
            DataTypeAndValue::Color4(..) => DataType::Color4,
            DataTypeAndValue::Vector2(..) => DataType::Vector2,
            DataTypeAndValue::Vector3(..) => DataType::Vector3,
            DataTypeAndValue::Vector4(..) => DataType::Vector4,
            DataTypeAndValue::Matrix3x3(..) => DataType::Matrix3x3,
            DataTypeAndValue::Matrix4x4(..) => DataType::Matrix4x4,
            DataTypeAndValue::String(..) => DataType::String,
            DataTypeAndValue::Filename(..) => DataType::Filename,
            DataTypeAndValue::IntegerArray(..) => DataType::IntegerArray,
            DataTypeAndValue::FloatArray(..) => DataType::FloatArray,
            DataTypeAndValue::Color3Array(..) => DataType::Color3Array,
            DataTypeAndValue::Color4Array(..) => DataType::Color4Array,
            DataTypeAndValue::Vector2Array(..) => DataType::Vector2Array,
            DataTypeAndValue::Vector3Array(..) => DataType::Vector3Array,
            DataTypeAndValue::Vector4Array(..) => DataType::Vector4Array,
            DataTypeAndValue::StringArray(..) => DataType::StringArray,
            DataTypeAndValue::Unknown { tag, .. } => DataType::Unknown(tag.clone()),
        }
    }
}

/// The floating-point number that a value is; a value of any other type is refused with
/// its type.
pub open spec fn float_of(value: ValueView) -> Result<Seq<char>, ValueParseErrorView> {
    match value {
        ValueView::Float(f) => Ok(f),
        _ => Err(ValueParseErrorView::UnexpectedFormat { format: type_of(value) }),
    }
}

/// The channels of the colour that a value is, three or four; a value of any other
/// type is refused with its type.
pub open spec fn color_of(value: ValueView) -> Result<Seq<Seq<char>>, ValueParseErrorView> {
    match value {
        ValueView::Color3(c) => Ok(c),
        ValueView::Color4(c) => Ok(c),
        _ => Err(ValueParseErrorView::UnexpectedFormat { format: type_of(value) }),
    }
}

impl DataTypeAndValue {
    /// The floating-point number that this value is.
    pub fn expect_float(&self) -> (r: Result<Float, ValueParseError>)
        ensures
            match r {
                Ok(f) => float_of(self@) == Ok::<Seq<char>, ValueParseErrorView>(f@),
                Err(e) => float_of(self@) == Err::<Seq<char>, ValueParseErrorView>(e@),
            },
    {
        match self {
            DataTypeAndValue::Float(f) => Ok(f.clone()),
            _ => Err(ValueParseError::UnexpectedFormat { format: self.tag() }),
        }
    }

    /// The channels of the colour that this value is: red, green and blue, and alpha
    /// where the colour has it.
    pub fn expect_color(&self) -> (r: Result<Vec<Float>, ValueParseError>)
        ensures
            match r {
                Ok(c) => color_of(self@) == Ok::<Seq<Seq<char>>, ValueParseErrorView>(
                    c.deep_view(),
                ),
                Err(e) => color_of(self@) == Err::<Seq<Seq<char>>, ValueParseErrorView>(e@),
            },
    {
        match self {
            DataTypeAndValue::Color3(c) => {
                let mut out: Vec<Float> = Vec::new();
                out.push(c.0[0].clone());
                out.push(c.0[1].clone());
                out.push(c.0[2].clone());
                assert(out.deep_view() =~= c@);
                Ok(out)
            },
            DataTypeAndValue::Color4(c) => {
                let mut out: Vec<Float> = Vec::new();
                out.push(c.0[0].clone());
                out.push(c.0[1].clone());
                out.push(c.0[2].clone());
                out.push(c.0[3].clone());
                assert(out.deep_view() =~= c@);
                Ok(out)
            },
            _ => Err(ValueParseError::UnexpectedFormat { format: self.tag() }),
        }
    }
}

} // verus!
