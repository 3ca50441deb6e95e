//! The kinds of node that the format defines, each with its fields.
use super::accessor::{FieldSpec, FieldSpecView, NodeKind, NodeKindView};
use crate::text::str_eq;
use vstd::prelude::*;

verus! {

/// A field that a node must have.
pub open spec fn required(name: Seq<char>) -> FieldSpecView {
    FieldSpecView { name, default: None }
}

/// A field that a node may leave out, with the value that then stands for it.
pub open spec fn optional(name: Seq<char>, default: Seq<char>) -> FieldSpecView {
    FieldSpecView { name, default: Some(default) }
}

/// The operations on two inputs, `in1` and `in2`.
pub open spec fn is_binary_tag(tag: Seq<char>) -> bool {
    ||| tag == "add"@
    ||| tag == "subtract"@
    ||| tag == "multiply"@
    ||| tag == "divide"@
    ||| tag == "modulo"@
    ||| tag == "min"@
    ||| tag == "max"@
    ||| tag == "and"@
    ||| tag == "or"@
    ||| tag == "distance"@
    ||| tag == "dotproduct"@
    ||| tag == "crossproduct"@
}

fn binary_tag(tag: &str) -> (r: bool)
    ensures
        r == is_binary_tag(tag@),
{
    str_eq(tag, "add")
        || str_eq(tag, "subtract")
        || str_eq(tag, "multiply")
        || str_eq(tag, "divide")
        || str_eq(tag, "modulo")
        || str_eq(tag, "min")
        || str_eq(tag, "max")
        || str_eq(tag, "and")
        || str_eq(tag, "or")
        || str_eq(tag, "distance")
        || str_eq(tag, "dotproduct")
        || str_eq(tag, "crossproduct")
}

/// The operations on one input, `in`.
pub open spec fn is_unary_tag(tag: Seq<char>) -> bool {
    ||| tag == "absval"@
    ||| tag == "sign"@
    ||| tag == "floor"@
    ||| tag == "ceil"@
    ||| tag == "round"@
    ||| tag == "sin"@
    ||| tag == "cos"@
    ||| tag == "tan"@
    ||| tag == "asin"@
    ||| tag == "acos"@
    ||| tag == "sqrt"@
    ||| tag == "exp"@
    ||| tag == "trianglewave"@
    ||| tag == "not"@
    ||| tag == "normalize"@
    ||| tag == "magnitude"@
}

fn unary_tag(tag: &str) -> (r: bool)
    ensures
        r == is_unary_tag(tag@),
{
    str_eq(tag, "absval")
        || str_eq(tag, "sign")
        || str_eq(tag, "floor")
        || str_eq(tag, "ceil")
        || str_eq(tag, "round")
        || str_eq(tag, "sin")
        || str_eq(tag, "cos")
        || str_eq(tag, "tan")
        || str_eq(tag, "asin")
        || str_eq(tag, "acos")
        || str_eq(tag, "sqrt")
        || str_eq(tag, "exp")
        || str_eq(tag, "trianglewave")
        || str_eq(tag, "not")
        || str_eq(tag, "normalize")
        || str_eq(tag, "magnitude")
}

/// The powers: `in1` to the `in2`, which is 1 where it is left out.
pub open spec fn is_power_tag(tag: Seq<char>) -> bool {
    ||| tag == "power"@
    ||| tag == "safepower"@
}

fn power_tag(tag: &str) -> (r: bool)
    ensures
        r == is_power_tag(tag@),
{
    str_eq(tag, "power")
        || str_eq(tag, "safepower")
}

/// The changes of space: `in` from `fromSpace` to `toSpace`.
pub open spec fn is_transform_tag(tag: Seq<char>) -> bool {
    ||| tag == "transformpoint"@
    ||| tag == "transformvector"@
    ||| tag == "transformcolor"@
}

fn transform_tag(tag: &str) -> (r: bool)
    ensures
        r == is_transform_tag(tag@),
{
    str_eq(tag, "transformpoint")
        || str_eq(tag, "transformvector")
        || str_eq(tag, "transformcolor")
}

/// The images: a `file` and its `uvtiling`.
pub open spec fn is_image_tag(tag: Seq<char>) -> bool {
    ||| tag == "image"@
    ||| tag == "tiledimage"@
}

fn image_tag(tag: &str) -> (r: bool)
    ensures
        r == is_image_tag(tag@),
{
    str_eq(tag, "image")
        || str_eq(tag, "tiledimage")
}

/// The fields of the kind of node that a tag names, in order; `None` for a tag that
/// names no kind of node of the format.
pub open spec fn standard_fields(tag: Seq<char>) -> Option<Seq<FieldSpecView>> {
    if is_binary_tag(tag) {
        Some(seq![required("in1"@), required("in2"@)])
    } else if is_unary_tag(tag) {
        Some(seq![required("in"@)])
    } else if is_power_tag(tag) {
        Some(seq![required("in1"@), optional("in2"@, "1.0"@)])
    } else if is_transform_tag(tag) {
        Some(seq![required("in"@), required("fromSpace"@), required("toSpace"@)])
    } else if is_image_tag(tag) {
        Some(seq![required("file"@), required("uvtiling"@)])
    } else if tag == "invert"@ {
        Some(seq![required("in"@), optional("amount"@, "1.0"@)])
    } else if tag == "atan2"@ {
        Some(seq![optional("inY"@, "0.0"@), optional("inX"@, "1.0"@)])
    } else if tag == "ln"@ {
        Some(seq![optional("in"@, "1.0"@)])
    } else if tag == "clap"@ {
        Some(seq![required("in"@), optional("low"@, "0.0"@), optional("high"@, "1.0"@)])
    } else if tag == "transformmatrix"@ {
        Some(seq![required("in"@), required("mat"@)])
    } else if tag == "normalmap"@ {
        Some(
            seq![
                required("in"@),
                optional("scale"@, "1.0"@),
                required("normal"@),
                required("tangent"@),
                required("bitangent"@),
            ],
        )
    } else {
        None
    }
}

fn must(name: &str) -> (f: FieldSpec)
    ensures
        f@ == required(name@),
{
    FieldSpec { name: name.to_owned(), default: None }
}

fn may(name: &str, default: &str) -> (f: FieldSpec)
    ensures
        f@ == optional(name@, default@),
{
    FieldSpec { name: name.to_owned(), default: Some(default.to_owned()) }
}

fn fields1(a: FieldSpec) -> (v: Vec<FieldSpec>)
    ensures
        v.deep_view() == seq![a@],
{
    let mut v: Vec<FieldSpec> = Vec::new();
    v.push(a);
    assert(v.deep_view() =~= seq![a@]);
    v
}

fn fields2(a: FieldSpec, b: FieldSpec) -> (v: Vec<FieldSpec>)
    ensures
        v.deep_view() == seq![a@, b@],
{
    let mut v: Vec<FieldSpec> = Vec::new();
    v.push(a);
    v.push(b);
    assert(v.deep_view() =~= seq![a@, b@]);
    v
}

fn fields3(a: FieldSpec, b: FieldSpec, c: FieldSpec) -> (v: Vec<FieldSpec>)
    ensures
        v.deep_view() == seq![a@, b@, c@],
{
    let mut v: Vec<FieldSpec> = Vec::new();
    v.push(a);
    v.push(b);
    v.push(c);
    assert(v.deep_view() =~= seq![a@, b@, c@]);
    v
}

fn standard_fields_of(tag: &str) -> (r: Option<Vec<FieldSpec>>)
    ensures
        r.deep_view() == standard_fields(tag@),
{
    if binary_tag(tag) {
        Some(fields2(must("in1"), must("in2")))
    } else if unary_tag(tag) {
        Some(fields1(must("in")))
    } else if power_tag(tag) {
        Some(fields2(must("in1"), may("in2", "1.0")))
    } else if transform_tag(tag) {
        Some(fields3(must("in"), must("fromSpace"), must("toSpace")))
    } else if image_tag(tag) {
        Some(fields2(must("file"), must("uvtiling")))
    } else if str_eq(tag, "invert") {
        Some(fields2(must("in"), may("amount", "1.0")))
    } else if str_eq(tag, "atan2") {
        Some(fields2(may("inY", "0.0"), may("inX", "1.0")))
    } else if str_eq(tag, "ln") {
        Some(fields1(may("in", "1.0")))
    } else if str_eq(tag, "clap") {
        Some(fields3(must("in"), may("low", "0.0"), may("high", "1.0")))
    } else if str_eq(tag, "transformmatrix") {
        Some(fields2(must("in"), must("mat")))
    } else if str_eq(tag, "normalmap") {
        let mut v = fields3(must("in"), may("scale", "1.0"), must("normal"));
        let ghost before = v.deep_view();
        let t = must("tangent");
        let b = must("bitangent");
        v.push(t);
        v.push(b);
        assert(v.deep_view() =~= before.push(t@).push(b@));
        assert(v.deep_view() =~= standard_fields(tag@)->0);
        Some(v)
    } else {
        None
    }
}

/// The kind of node that a tag of the format names, with its fields.
pub fn standard_node(tag: &str) -> (r: Option<NodeKind>)
    ensures
        match r {
            Some(kind) => kind@.tag == tag@ && standard_fields(tag@) == Some(kind@.fields),
            None => standard_fields(tag@) is None,
        },
{
    match standard_fields_of(tag) {
        Some(fields) => Some(NodeKind { tag: tag.to_owned(), fields }),
        None => None,
    }
}

/// The kind of node of a tag that has no fields.
pub open spec fn plain_kind(tag: Seq<char>) -> NodeKindView {
    NodeKindView { tag, fields: Seq::empty() }
}

/// A kind of node without fields: any element of the tag is a node of the kind.
pub fn plain_node(tag: &str) -> (kind: NodeKind)
    ensures
        kind@ == plain_kind(tag@),
{
    let kind = NodeKind { tag: tag.to_owned(), fields: Vec::new() };
    assert(kind@.fields =~= Seq::empty());
    kind
}

} // verus!
