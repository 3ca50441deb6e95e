//! The typed value grammar: scalars, vectors, matrices and arrays, as they are written
//! in the attributes of a document.
mod error;
mod kind;
mod laws;
mod primitives;
mod value;

pub use error::{length_check, ValueParseError, ValueParseErrorView};
pub use laws::{
    all_float_literals, lemma_float_list_round_trip, lemma_known_tags, lemma_value_round_trip,
    lemma_vector_array_is_refused, lemma_vector_round_trip, reads_back,
};
pub use kind::{data_type_of, DataType, DataTypeView};
pub use primitives::{
    first_bad_float, parse_float_list, parse_floats, parse_matrix, parse_vector, rows, Float,
    Matrix3x3, Matrix4x4, Vector2, Vector3, Vector4,
};
pub use value::{
    all_integers, all_vectors, color_of, first_bad_integer, first_bad_vector, float_of,
    max_integer, parse_integers, parse_value, parse_vectors, type_of, Color3, Color4,
    DataTypeAndValue, ValueView,
};
