//! The type tags of the value grammar.
use crate::text::str_eq;
use vstd::prelude::*;

verus! {

/// The declared type of a value.
#[derive(Debug, Clone)]
pub enum DataType {
    Integer,
    Boolean,
    Float,
    Color3,
    Color4,
    Vector2,
    Vector3,
    Vector4,
    Matrix3x3,
    Matrix4x4,
    String,
    Filename,
    IntegerArray,
    FloatArray,
    Color3Array,
    Color4Array,
    Vector2Array,
    Vector3Array,
    Vector4Array,
    StringArray,
    /// Any tag that the grammar does not know.
    Unknown(String),
}

/// The mathematical model of a [`DataType`].
pub enum DataTypeView {
    Integer,
    Boolean,
    Float,
    Color3,
    Color4,
    Vector2,
    Vector3,
    Vector4,
    Matrix3x3,
    Matrix4x4,
    String,
    Filename,
    IntegerArray,
    FloatArray,
    Color3Array,
    Color4Array,
    Vector2Array,
    Vector3Array,
    Vector4Array,
    StringArray,
    Unknown(Seq<char>),
}

impl View for DataType {
    type V = DataTypeView;

    open spec fn view(&self) -> DataTypeView {
        match self {
            DataType::Integer => DataTypeView::Integer,
            DataType::Boolean => DataTypeView::Boolean,
            DataType::Float => DataTypeView::Float,
            DataType::Color3 => DataTypeView::Color3,
            DataType::Color4 => DataTypeView::Color4,
            DataType::Vector2 => DataTypeView::Vector2,
            DataType::Vector3 => DataTypeView::Vector3,
            DataType::Vector4 => DataTypeView::Vector4,
            DataType::Matrix3x3 => DataTypeView::Matrix3x3,
            DataType::Matrix4x4 => DataTypeView::Matrix4x4,
            DataType::String => DataTypeView::String,
            DataType::Filename => DataTypeView::Filename,
            DataType::IntegerArray => DataTypeView::IntegerArray,
            DataType::FloatArray => DataTypeView::FloatArray,
            DataType::Color3Array => DataTypeView::Color3Array,
            DataType::Color4Array => DataTypeView::Color4Array,
            DataType::Vector2Array => DataTypeView::Vector2Array,
            DataType::Vector3Array => DataTypeView::Vector3Array,
            DataType::Vector4Array => DataTypeView::Vector4Array,
            DataType::StringArray => DataTypeView::StringArray,
            DataType::Unknown(tag) => DataTypeView::Unknown(tag@),
        }
    }
}

/// The type that a tag names. A tag that the grammar does not know names an unknown
/// type, which keeps the tag.
pub open spec fn data_type_of(tag: Seq<char>) -> DataTypeView {
    if tag == "integer"@ {
        DataTypeView::Integer
    } else if tag == "boolean"@ {
        DataTypeView::Boolean
    } else if tag == "float"@ {
        DataTypeView::Float
    } else if tag == "color3"@ {
        DataTypeView::Color3
    } else if tag == "color4"@ {
        DataTypeView::Color4
    } else if tag == "vector2"@ {
        DataTypeView::Vector2
    } else if tag == "vector3"@ {
        DataTypeView::Vector3
    } else if tag == "vector4"@ {
        DataTypeView::Vector4
    } else if tag == "matrix33"@ {
        DataTypeView::Matrix3x3
    } else if tag == "matrix44"@ {
        DataTypeView::Matrix4x4
    } else if tag == "string"@ {
        DataTypeView::String
    } else if tag == "filename"@ {
        DataTypeView::Filename
    } else if tag == "integerarray"@ {
        DataTypeView::IntegerArray
    } else if tag == "floatarray"@ {
        DataTypeView::FloatArray
    } else if tag == "color3array"@ {
        DataTypeView::Color3Array
    } else if tag == "color4array"@ {
        DataTypeView::Color4Array
    } else if tag == "vector2array"@ {
        DataTypeView::Vector2Array
    } else if tag == "vector3array"@ {
        DataTypeView::Vector3Array
    } else if tag == "vector4array"@ {
        DataTypeView::Vector4Array
    } else if tag == "stringarray"@ {
        DataTypeView::StringArray
    } else {
        DataTypeView::Unknown(tag)
    }
}

impl DataType {
    /// The type that `tag` names.
    pub fn from_tag(tag: &str) -> (r: DataType)
        ensures
            r@ == data_type_of(tag@),
    {
        if str_eq(tag, "integer") {
            DataType::Integer
        } else if str_eq(tag, "boolean") {
            DataType::Boolean
        } else if str_eq(tag, "float") {
            DataType::Float
        } else if str_eq(tag, "color3") {
            DataType::Color3
        } else if str_eq(tag, "color4") {
            DataType::Color4
        } else if str_eq(tag, "vector2") {
            DataType::Vector2
        } else if str_eq(tag, "vector3") {
            DataType::Vector3
        } else if str_eq(tag, "vector4") {
            DataType::Vector4
        } else if str_eq(tag, "matrix33") {
            DataType::Matrix3x3
        } else if str_eq(tag, "matrix44") {
            DataType::Matrix4x4
        } else if str_eq(tag, "string") {
            DataType::String
        } else if str_eq(tag, "filename") {
            DataType::Filename
        } else if str_eq(tag, "integerarray") {
            DataType::IntegerArray
        } else if str_eq(tag, "floatarray") {
            DataType::FloatArray
        } else if str_eq(tag, "color3array") {
            DataType::Color3Array
        } else if str_eq(tag, "color4array") {
            DataType::Color4Array
        } else if str_eq(tag, "vector2array") {
            DataType::Vector2Array
        } else if str_eq(tag, "vector3array") {
            DataType::Vector3Array
        } else if str_eq(tag, "vector4array") {
            DataType::Vector4Array
        } else if str_eq(tag, "stringarray") {
            DataType::StringArray
        } else {
            DataType::Unknown(tag.to_owned())
        }
    }
}

} // verus!
