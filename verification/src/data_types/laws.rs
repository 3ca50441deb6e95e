//! What holds of the value grammar as a whole.
use super::error::ValueParseErrorView;
use super::kind::{data_type_of, DataTypeView};
use super::primitives::{first_bad_float, parse_floats, parse_matrix, parse_vector, rows};
use super::value::{first_bad_vector, parse_value, parse_vectors, ValueView};
use crate::literal::{float_error, is_float_literal, lemma_float_literal_chars};
use crate::text::{
    free_of, join, lemma_split_join, lemma_split_pieces, lemma_split_single, lemma_trim_free,
    lemma_trim_tight, split, trim, trim_all,
};
use vstd::prelude::*;

verus! {

/// Whether every item is a floating-point literal.
pub open spec fn all_float_literals(items: Seq<Seq<char>>) -> bool {
    forall|i: int| 0 <= i < items.len() ==> is_float_literal(#[trigger] items[i])
}

proof fn lemma_no_bad_float(items: Seq<Seq<char>>, from: int)
    requires
        0 <= from <= items.len(),
        all_float_literals(items),
    ensures
        first_bad_float(items, from) == items.len(),
    decreases items.len() - from,
{
    if from < items.len() {
        let item = items[from];
        assert(is_float_literal(item));
        lemma_float_literal_chars(item);
        lemma_trim_tight(item);
        lemma_no_bad_float(items, from + 1);
    }
}

/// Writing floating-point literals as a comma-separated list and reading the list
/// back gives the same literals, in the same order.
pub proof fn lemma_float_list_round_trip(items: Seq<Seq<char>>)
    requires
        items.len() >= 1,
        all_float_literals(items),
    ensures
        parse_floats(join(items, ',')) == Ok::<Seq<Seq<char>>, ValueParseErrorView>(items),
{
    assert forall|i: int| 0 <= i < items.len() implies free_of(#[trigger] items[i], ',') by {
        lemma_float_literal_chars(items[i]);
    }
    lemma_split_join(items, ',');
    lemma_no_bad_float(items, 0);
    assert(trim_all(items) =~= items) by {
        assert forall|i: int| 0 <= i < items.len() implies trim(#[trigger] items[i])
            == items[i] by {
            lemma_float_literal_chars(items[i]);
            lemma_trim_tight(items[i]);
        }
    }
}

/// A vector of `arity` components that is written as a comma-separated list reads back
/// as the same components. A list of any other number of literals is refused for its
/// length, with the expected and the actual number of components.
pub proof fn lemma_vector_round_trip(items: Seq<Seq<char>>, arity: usize)
    requires
        1 <= items.len() <= usize::MAX,
        all_float_literals(items),
    ensures
        items.len() == arity ==> parse_vector(join(items, ','), arity) == Ok::<
            Seq<Seq<char>>,
            ValueParseErrorView,
        >(items),
        items.len() != arity ==> parse_vector(join(items, ','), arity) == Err::<
            Seq<Seq<char>>,
            ValueParseErrorView,
        >(ValueParseErrorView::InvalidLength { expected: arity, actual: items.len() as usize }),
{
    lemma_float_list_round_trip(items);
}

/// Each tag of the grammar names its own type.
pub proof fn lemma_known_tags()
    ensures
        data_type_of("integer"@) == DataTypeView::Integer,
        data_type_of("boolean"@) == DataTypeView::Boolean,
        data_type_of("float"@) == DataTypeView::Float,
        data_type_of("color3"@) == DataTypeView::Color3,
        data_type_of("color4"@) == DataTypeView::Color4,
        data_type_of("vector2"@) == DataTypeView::Vector2,
        data_type_of("vector3"@) == DataTypeView::Vector3,
        data_type_of("vector4"@) == DataTypeView::Vector4,
        data_type_of("matrix33"@) == DataTypeView::Matrix3x3,
        data_type_of("matrix44"@) == DataTypeView::Matrix4x4,
        data_type_of("string"@) == DataTypeView::String,
        data_type_of("filename"@) == DataTypeView::Filename,
        data_type_of("integerarray"@) == DataTypeView::IntegerArray,
        data_type_of("floatarray"@) == DataTypeView::FloatArray,
        data_type_of("color3array"@) == DataTypeView::Color3Array,
        data_type_of("color4array"@) == DataTypeView::Color4Array,
        data_type_of("vector2array"@) == DataTypeView::Vector2Array,
        data_type_of("vector3array"@) == DataTypeView::Vector3Array,
        data_type_of("vector4array"@) == DataTypeView::Vector4Array,
        data_type_of("stringarray"@) == DataTypeView::StringArray,
{
    reveal_strlit("integer");
    reveal_strlit("boolean");
    reveal_strlit("float");
    reveal_strlit("color3");
    reveal_strlit("color4");
    reveal_strlit("vector2");
    reveal_strlit("vector3");
    reveal_strlit("vector4");
    reveal_strlit("matrix33");
    reveal_strlit("matrix44");
    reveal_strlit("string");
    reveal_strlit("filename");
    reveal_strlit("integerarray");
    reveal_strlit("floatarray");
    reveal_strlit("color3array");
    reveal_strlit("color4array");
    reveal_strlit("vector2array");
    reveal_strlit("vector3array");
    reveal_strlit("vector4array");
    reveal_strlit("stringarray");
    assert("integer"@.len() == 7);
    assert("boolean"@.len() == 7);
    assert("float"@.len() == 5);
    assert("color3"@.len() == 6);
    assert("color4"@.len() == 6);
    assert("vector2"@.len() == 7);
    assert("vector3"@.len() == 7);
    assert("vector4"@.len() == 7);
    assert("matrix33"@.len() == 8);
    assert("matrix44"@.len() == 8);
    assert("string"@.len() == 6);
    assert("filename"@.len() == 8);
    assert("integerarray"@.len() == 12);
    assert("floatarray"@.len() == 10);
    assert("color3array"@.len() == 11);
    assert("color4array"@.len() == 11);
    assert("vector2array"@.len() == 12);
    assert("vector3array"@.len() == 12);
    assert("vector4array"@.len() == 12);
    assert("stringarray"@.len() == 11);
    assert("boolean"@[0] != "integer"@[0]);
    assert("color4"@[5] != "color3"@[5]);
    assert("vector2"@[0] != "integer"@[0]);
    assert("vector2"@[0] != "boolean"@[0]);
    assert("vector3"@[0] != "integer"@[0]);
    assert("vector3"@[0] != "boolean"@[0]);
    assert("vector3"@[6] != "vector2"@[6]);
    assert("vector4"@[0] != "integer"@[0]);
    assert("vector4"@[0] != "boolean"@[0]);
    assert("vector4"@[6] != "vector2"@[6]);
    assert("vector4"@[6] != "vector3"@[6]);
    assert("matrix44"@[6] != "matrix33"@[6]);
    assert("string"@[0] != "color3"@[0]);
    assert("string"@[0] != "color4"@[0]);
    assert("filename"@[0] != "matrix33"@[0]);
    assert("filename"@[0] != "matrix44"@[0]);
    assert("color4array"@[5] != "color3array"@[5]);
    assert("vector2array"@[0] != "integerarray"@[0]);
    assert("vector3array"@[0] != "integerarray"@[0]);
    assert("vector3array"@[6] != "vector2array"@[6]);
    assert("vector4array"@[0] != "integerarray"@[0]);
    assert("vector4array"@[6] != "vector2array"@[6]);
    assert("vector4array"@[6] != "vector3array"@[6]);
    assert("stringarray"@[0] != "color3array"@[0]);
    assert("stringarray"@[0] != "color4array"@[0]);
}

/// Whether a list reads back under a tag as the vector `expected`, if it has `arity`
/// items, and is refused for its length otherwise.
pub open spec fn reads_back(
    tag: Seq<char>,
    items: Seq<Seq<char>>,
    arity: usize,
    expected: ValueView,
) -> bool {
    if items.len() == arity {
        parse_value(tag, join(items, ',')) == Ok::<ValueView, ValueParseErrorView>(expected)
    } else {
        parse_value(tag, join(items, ',')) == Err::<ValueView, ValueParseErrorView>(
            ValueParseErrorView::InvalidLength { expected: arity, actual: items.len() as usize },
        )
    }
}

/// Floating-point literals that are written as a comma-separated list read back, under
/// the tag of a vector, a colour or a matrix, as the value of those components if they
/// are as many as the type has, and are refused for their length if they are not.
pub proof fn lemma_value_round_trip(items: Seq<Seq<char>>)
    requires
        1 <= items.len() <= usize::MAX,
        all_float_literals(items),
    ensures
        reads_back("vector2"@, items, 2, ValueView::Vector2(items)),
        reads_back("vector3"@, items, 3, ValueView::Vector3(items)),
        reads_back("vector4"@, items, 4, ValueView::Vector4(items)),
        reads_back("color3"@, items, 3, ValueView::Color3(items)),
        reads_back("color4"@, items, 4, ValueView::Color4(items)),
        reads_back("matrix33"@, items, 9, ValueView::Matrix3x3(rows(items, 3))),
        reads_back("matrix44"@, items, 16, ValueView::Matrix4x4(rows(items, 4))),
{
    lemma_known_tags();
    lemma_float_list_round_trip(items);
}

/// A list in which every element is read as a whole vector is never accepted for a
/// vector of two or more components: an element stands between two commas, so it holds
/// one number at most.
pub proof fn lemma_vector_array_is_refused(text: Seq<char>, arity: usize)
    requires
        arity != 1,
    ensures
        parse_vectors(text, arity) is Err,
{
    let pieces = split(text, ',');
    lemma_split_pieces(text, ',');
    let element = trim(pieces[0]);
    lemma_trim_free(pieces[0], ',');
    lemma_split_single(element, ',');
    assert(trim_all(seq![element]).len() == 1);
    assert(parse_vector(element, arity) is Err);
    assert(first_bad_vector(pieces, arity, 0) == 0);
}

} // verus!
