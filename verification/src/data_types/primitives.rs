//! Floating-point literals and the vectors and matrices made of them.
use super::error::{length_check, ValueParseError, ValueParseErrorView};
use crate::literal::{check_float, float_error, is_float_literal, FloatErrorKind};
use super::laws::{all_float_literals, lemma_vector_round_trip};
use crate::text::{
    join, lemma_join_concat, lemma_join_push, split, split_str, trim, trim_all, trim_str,
};
use vstd::string::StringExecFns;
use vstd::prelude::*;

verus! {

/// A floating-point number, kept as the literal that was written for it.
///
/// The literal follows the grammar of [`is_float_literal`]; what number it stands for
/// is left to the caller.
#[derive(Debug, PartialEq)]
pub struct Float {
    text: String,
}

impl Clone for Float {
    fn clone(&self) -> (r: Self)
        ensures
            r@ == self@,
    {
        proof {
            use_type_invariant(self);
        }
        Float { text: self.text.clone() }
    }
}

impl View for Float {
    type V = Seq<char>;

    closed spec fn view(&self) -> Seq<char> {
        self.text@
    }
}

impl DeepView for Float {
    type V = Seq<char>;

    open spec fn deep_view(&self) -> Seq<char> {
        self.view()
    }
}

impl Float {
    #[verifier::type_invariant]
    spec fn well_formed(self) -> bool {
        is_float_literal(self.text@)
    }

    /// Accepts `s` if it is a floating-point literal, without any whitespace around it.
    pub fn parse(s: &str) -> (r: Result<Float, FloatErrorKind>)
        ensures
            match r {
                Ok(f) => float_error(s@) is None && f@ == s@,
                Err(kind) => float_error(s@) == Some(kind),
            },
    {
        match check_float(s) {
            Some(kind) => Err(kind),
            None => Ok(Float { text: s.to_owned() }),
        }
    }

    /// The literal as it was written.
    pub fn as_str(&self) -> (r: &str)
        ensures
            r@ == self@,
            is_float_literal(r@),
    {
        proof {
            use_type_invariant(self);
        }
        self.text.as_str()
    }
}

/// The index of the first piece at or after `from` whose trimmed text is no
/// floating-point literal; the number of pieces if there is none.
pub open spec fn first_bad_float(pieces: Seq<Seq<char>>, from: int) -> int
    decreases pieces.len() - from,
{
    if from < 0 || from >= pieces.len() {
        pieces.len() as int
    } else if float_error(trim(pieces[from])) is Some {
        from
    } else {
        first_bad_float(pieces, from + 1)
    }
}

/// The floating-point literals of a comma-separated list, each trimmed. The first piece
/// that is no literal fails the whole list, and is reported as it stood between the
/// commas.
pub open spec fn parse_floats(text: Seq<char>) -> Result<Seq<Seq<char>>, ValueParseErrorView> {
    let pieces = split(text, ',');
    let k = first_bad_float(pieces, 0);
    if k < pieces.len() {
        Err(
            ValueParseErrorView::InvalidFloat {
                got: pieces[k],
                source: float_error(trim(pieces[k])).unwrap(),
            },
        )
    } else {
        Ok(trim_all(pieces))
    }
}

/// A comma-separated list of exactly `arity` floating-point literals.
pub open spec fn parse_vector(text: Seq<char>, arity: usize) -> Result<
    Seq<Seq<char>>,
    ValueParseErrorView,
> {
    match parse_floats(text) {
        Err(e) => Err(e),
        Ok(v) => match length_check(arity, v.len() as usize) {
            Err(e) => Err(e),
            Ok(_) => Ok(v),
        },
    }
}

/// The rows of a square matrix that is written row by row.
pub open spec fn rows(flat: Seq<Seq<char>>, width: int) -> Seq<Seq<Seq<char>>> {
    Seq::new(width as nat, |r: int| flat.subrange(r * width, r * width + width))
}

/// A comma-separated list of `width * width` floating-point literals, as the rows of a
/// matrix.
pub open spec fn parse_matrix(text: Seq<char>, width: usize) -> Result<
    Seq<Seq<Seq<char>>>,
    ValueParseErrorView,
> {
    match parse_vector(text, (width * width) as usize) {
        Err(e) => Err(e),
        Ok(v) => Ok(rows(v, width as int)),
    }
}

/// Parses a comma-separated list of floating-point literals.
pub fn parse_float_list(text: &str) -> (r: Result<Vec<Float>, ValueParseError>)
    ensures
        match r {
            Ok(v) => parse_floats(text@) == Ok::<Seq<Seq<char>>, ValueParseErrorView>(
                v.deep_view(),
            ),
            Err(e) => parse_floats(text@) == Err::<Seq<Seq<char>>, ValueParseErrorView>(e@),
        },
{
    let pieces = split_str(text, ',');
    let mut out: Vec<Float> = Vec::new();
    let mut i: usize = 0;
    while i < pieces.len()
        invariant
            0 <= i <= pieces.len(),
            pieces.deep_view() == split(text@, ','),
            first_bad_float(pieces.deep_view(), i as int) == first_bad_float(
                pieces.deep_view(),
                0,
            ),
            out.deep_view() == trim_all(pieces.deep_view()).take(i as int),
        decreases pieces.len() - i,
    {
        let piece = pieces[i].as_str();
        assert(piece@ == pieces.deep_view()[i as int]);
        match Float::parse(trim_str(piece)) {
            Ok(f) => {
                let ghost before = out.deep_view();
                out.push(f);
                assert(out.deep_view() =~= before.push(f@));
                assert(out.deep_view() =~= trim_all(pieces.deep_view()).take(i + 1));
            },
            Err(kind) => {
                return Err(ValueParseError::float(piece, kind));
            },
        }
        i = i + 1;
    }
    assert(out.deep_view() =~= trim_all(pieces.deep_view()));
    Ok(out)
}

/// Two floating-point numbers.
#[derive(Debug, Clone, PartialEq)]
pub struct Vector2(pub [Float; 2]);

/// Three floating-point numbers.
#[derive(Debug, Clone, PartialEq)]
pub struct Vector3(pub [Float; 3]);

/// Four floating-point numbers.
#[derive(Debug, Clone, PartialEq)]
pub struct Vector4(pub [Float; 4]);

/// Three rows of three floating-point numbers.
#[derive(Debug, Clone, PartialEq)]
pub struct Matrix3x3(pub [Vector3; 3]);

/// Four rows of four floating-point numbers.
#[derive(Debug, Clone, PartialEq)]
pub struct Matrix4x4(pub [Vector4; 4]);

impl View for Vector2 {
    type V = Seq<Seq<char>>;

    open spec fn view(&self) -> Seq<Seq<char>> {
        self.0.deep_view()
    }
}

impl DeepView for Vector2 {
    type V = Seq<Seq<char>>;

    open spec fn deep_view(&self) -> Seq<Seq<char>> {
        self.view()
    }
}

impl View for Vector3 {
    type V = Seq<Seq<char>>;

    open spec fn view(&self) -> Seq<Seq<char>> {
        self.0.deep_view()
    }
}

impl DeepView for Vector3 {
    type V = Seq<Seq<char>>;

    open spec fn deep_view(&self) -> Seq<Seq<char>> {
        self.view()
    }
}

impl View for Vector4 {
    type V = Seq<Seq<char>>;

    open spec fn view(&self) -> Seq<Seq<char>> {
        self.0.deep_view()
    }
}

impl DeepView for Vector4 {
    type V = Seq<Seq<char>>;

    open spec fn deep_view(&self) -> Seq<Seq<char>> {
        self.view()
    }
}

impl View for Matrix3x3 {
    type V = Seq<Seq<Seq<char>>>;

    open spec fn view(&self) -> Seq<Seq<Seq<char>>> {
        self.0.deep_view()
    }
}

impl DeepView for Matrix3x3 {
    type V = Seq<Seq<Seq<char>>>;

    open spec fn deep_view(&self) -> Seq<Seq<Seq<char>>> {
        self.view()
    }
}

impl View for Matrix4x4 {
    type V = Seq<Seq<Seq<char>>>;

    open spec fn view(&self) -> Seq<Seq<Seq<char>>> {
        self.0.deep_view()
    }
}

impl DeepView for Matrix4x4 {
    type V = Seq<Seq<Seq<char>>>;

    open spec fn deep_view(&self) -> Seq<Seq<Seq<char>>> {
        self.view()
    }
}

/// Takes the last number off a list.
fn take_last(v: &mut Vec<Float>) -> (f: Float)
    requires
        old(v).len() > 0,
    ensures
        final(v)@ == old(v)@.drop_last(),
        f == old(v)@.last(),
{
    v.pop().unwrap()
}

impl Vector2 {
    /// Parses two comma-separated floating-point literals.
    pub fn from_str(s: &str) -> (r: Result<Vector2, ValueParseError>)
        ensures
            match r {
                Ok(v) => parse_vector(s@, 2) == Ok::<Seq<Seq<char>>, ValueParseErrorView>(v@),
                Err(e) => parse_vector(s@, 2) == Err::<Seq<Seq<char>>, ValueParseErrorView>(e@),
            },
    {
        let mut v = parse_float_list(s)?;
        ValueParseError::assert_length(2, v.len())?;
        let ghost all = v.deep_view();
        let b = take_last(&mut v);
        let a = take_last(&mut v);
        let r = Vector2([a, b]);
        assert(r@ =~= all);
        Ok(r)
    }
}

impl Vector3 {
    /// Parses three comma-separated floating-point literals.
    pub fn from_str(s: &str) -> (r: Result<Vector3, ValueParseError>)
        ensures
            match r {
                Ok(v) => parse_vector(s@, 3) == Ok::<Seq<Seq<char>>, ValueParseErrorView>(v@),
                Err(e) => parse_vector(s@, 3) == Err::<Seq<Seq<char>>, ValueParseErrorView>(e@),
            },
    {
        let mut v = parse_float_list(s)?;
        ValueParseError::assert_length(3, v.len())?;
        let ghost all = v.deep_view();
        let c = take_last(&mut v);
        let b = take_last(&mut v);
        let a = take_last(&mut v);
        let r = Vector3([a, b, c]);
        assert(r@ =~= all);
        Ok(r)
    }
}

impl Vector4 {
    /// Parses four comma-separated floating-point literals.
    pub fn from_str(s: &str) -> (r: Result<Vector4, ValueParseError>)
        ensures
            match r {
                Ok(v) => parse_vector(s@, 4) == Ok::<Seq<Seq<char>>, ValueParseErrorView>(v@),
                Err(e) => parse_vector(s@, 4) == Err::<Seq<Seq<char>>, ValueParseErrorView>(e@),
            },
    {
        let mut v = parse_float_list(s)?;
        ValueParseError::assert_length(4, v.len())?;
        let ghost all = v.deep_view();
        let d = take_last(&mut v);
        let c = take_last(&mut v);
        let b = take_last(&mut v);
        let a = take_last(&mut v);
        let r = Vector4([a, b, c, d]);
        assert(r@ =~= all);
        Ok(r)
    }
}

impl Matrix3x3 {
    /// Parses nine comma-separated floating-point literals, row by row.
    pub fn from_str(s: &str) -> (r: Result<Matrix3x3, ValueParseError>)
        ensures
            match r {
                Ok(m) => parse_matrix(s@, 3) == Ok::<Seq<Seq<Seq<char>>>, ValueParseErrorView>(
                    m@,
                ),
                Err(e) => parse_matrix(s@, 3) == Err::<Seq<Seq<Seq<char>>>, ValueParseErrorView>(
                    e@,
                ),
            },
    {
        let mut v = parse_float_list(s)?;
        ValueParseError::assert_length(9, v.len())?;
        let ghost all = v.deep_view();
        let a22 = take_last(&mut v);
        let a21 = take_last(&mut v);
        let a20 = take_last(&mut v);
        let a12 = take_last(&mut v);
        let a11 = take_last(&mut v);
        let a10 = take_last(&mut v);
        let a02 = take_last(&mut v);
        let a01 = take_last(&mut v);
        let a00 = take_last(&mut v);
        let r0 = Vector3([a00, a01, a02]);
        let r1 = Vector3([a10, a11, a12]);
        let r2 = Vector3([a20, a21, a22]);
        assert(r0@ =~= all.subrange(0, 3));
        assert(r1@ =~= all.subrange(3, 6));
        assert(r2@ =~= all.subrange(6, 9));
        let m = Matrix3x3([r0, r1, r2]);
        assert(m@ =~= rows(all, 3));
        Ok(m)
    }
}

impl Matrix4x4 {
    /// Parses sixteen comma-separated floating-point literals, row by row.
    pub fn from_str(s: &str) -> (r: Result<Matrix4x4, ValueParseError>)
        ensures
            match r {
                Ok(m) => parse_matrix(s@, 4) == Ok::<Seq<Seq<Seq<char>>>, ValueParseErrorView>(
                    m@,
                ),
                Err(e) => parse_matrix(s@, 4) == Err::<Seq<Seq<Seq<char>>>, ValueParseErrorView>(
                    e@,
                ),
            },
    {
        let mut v = parse_float_list(s)?;
        ValueParseError::assert_length(16, v.len())?;
        let ghost all = v.deep_view();
        let a33 = take_last(&mut v);
        let a32 = take_last(&mut v);
        let a31 = take_last(&mut v);
        let a30 = take_last(&mut v);
        let a23 = take_last(&mut v);
        let a22 = take_last(&mut v);
        let a21 = take_last(&mut v);
        let a20 = take_last(&mut v);
        let a13 = take_last(&mut v);
        let a12 = take_last(&mut v);
        let a11 = take_last(&mut v);
        let a10 = take_last(&mut v);
        let a03 = take_last(&mut v);
        let a02 = take_last(&mut v);
        let a01 = take_last(&mut v);
        let a00 = take_last(&mut v);
        let r0 = Vector4([a00, a01, a02, a03]);
        let r1 = Vector4([a10, a11, a12, a13]);
        let r2 = Vector4([a20, a21, a22, a23]);
        let r3 = Vector4([a30, a31, a32, a33]);
        assert(r0@ =~= all.subrange(0, 4));
        assert(r1@ =~= all.subrange(4, 8));
        assert(r2@ =~= all.subrange(8, 12));
        assert(r3@ =~= all.subrange(12, 16));
        let m = Matrix4x4([r0, r1, r2, r3]);
        assert(m@ =~= rows(all, 4));
        Ok(m)
    }
}

/// Writes numbers as a comma-separated list.
fn join_components<const N: usize>(items: &[Float; N]) -> (r: String)
    requires
        N >= 1,
    ensures
        r@ == join(items.deep_view(), ','),
        all_float_literals(items.deep_view()),
{
    let ghost all = items.deep_view();
    let mut out = items[0].as_str().to_owned();
    assert(out@ == join(all.take(1), ',')) by {
        assert(all.take(1) =~= seq![all[0]]);
    }
    let mut i: usize = 1;
    while i < N
        invariant
            1 <= i <= N,
            all == items.deep_view(),
            all.len() == N,
            out@ == join(all.take(i as int), ','),
            forall|k: int| 0 <= k < i ==> is_float_literal(#[trigger] all[k]),
        decreases N - i,
    {
        proof {
            reveal_strlit(",");
            lemma_join_push(all.take(i as int), ',', all[i as int]);
            assert(all.take(i + 1) =~= all.take(i as int).push(all[i as int]));
            assert(","@ =~= seq![',']);
        }
        out.append(",");
        out.append(items[i].as_str());
        i = i + 1;
    }
    assert(all.take(N as int) =~= all);
    out
}

impl Vector2 {
    /// The components as a comma-separated list, which reads back as this vector.
    pub fn to_text(&self) -> (r: String)
        ensures
            r@ == join(self@, ','),
            all_float_literals(self@),
            parse_vector(r@, 2) == Ok::<Seq<Seq<char>>, ValueParseErrorView>(self@),
    {
        let r = join_components(&self.0);
        proof {
            lemma_vector_round_trip(self@, 2);
        }
        r
    }
}

impl Vector3 {
    /// The components as a comma-separated list, which reads back as this vector.
    pub fn to_text(&self) -> (r: String)
        ensures
            r@ == join(self@, ','),
            all_float_literals(self@),
            parse_vector(r@, 3) == Ok::<Seq<Seq<char>>, ValueParseErrorView>(self@),
    {
        let r = join_components(&self.0);
        proof {
            lemma_vector_round_trip(self@, 3);
        }
        r
    }
}

impl Vector4 {
    /// The components as a comma-separated list, which reads back as this vector.
    pub fn to_text(&self) -> (r: String)
        ensures
            r@ == join(self@, ','),
            all_float_literals(self@),
            parse_vector(r@, 4) == Ok::<Seq<Seq<char>>, ValueParseErrorView>(self@),
    {
        let r = join_components(&self.0);
        proof {
            lemma_vector_round_trip(self@, 4);
        }
        r
    }
}

impl Matrix3x3 {
    /// The components as a comma-separated list, row after row, which reads back as
    /// this matrix.
    pub fn to_text(&self) -> (r: String)
        ensures
            r@ == join(self@[0] + self@[1] + self@[2], ','),
            parse_matrix(r@, 3) == Ok::<Seq<Seq<Seq<char>>>, ValueParseErrorView>(self@),
    {
        proof {
            reveal_strlit(",");
            assert(","@ =~= seq![',']);
        }
        let mut out = self.0[0].to_text();
        out.append(",");
        out.append(self.0[1].to_text().as_str());
        out.append(",");
        out.append(self.0[2].to_text().as_str());
        proof {
            let m = self@;
            let flat = m[0] + m[1] + m[2];
            lemma_join_concat(m[0], m[1], ',');
            lemma_join_concat(m[0] + m[1], m[2], ',');
            assert(all_float_literals(flat));
            lemma_vector_round_trip(flat, 9);
            assert(rows(flat, 3) =~= m) by {
                assert(flat.subrange(0, 3) =~= m[0]);
                assert(flat.subrange(3, 6) =~= m[1]);
                assert(flat.subrange(6, 9) =~= m[2]);
            }
        }
        out
    }
}

impl Matrix4x4 {
    /// The components as a comma-separated list, row after row, which reads back as
    /// this matrix.
    pub fn to_text(&self) -> (r: String)
        ensures
            r@ == join(self@[0] + self@[1] + self@[2] + self@[3], ','),
            parse_matrix(r@, 4) == Ok::<Seq<Seq<Seq<char>>>, ValueParseErrorView>(self@),
    {
        proof {
            reveal_strlit(",");
            assert(","@ =~= seq![',']);
        }
        let mut out = self.0[0].to_text();
        out.append(",");
        out.append(self.0[1].to_text().as_str());
        out.append(",");
        out.append(self.0[2].to_text().as_str());
        out.append(",");
        out.append(self.0[3].to_text().as_str());
        proof {
            let m = self@;
            let flat = m[0] + m[1] + m[2] + m[3];
            lemma_join_concat(m[0], m[1], ',');
            lemma_join_concat(m[0] + m[1], m[2], ',');
            lemma_join_concat(m[0] + m[1] + m[2], m[3], ',');
            assert(all_float_literals(flat));
            lemma_vector_round_trip(flat, 16);
            assert(rows(flat, 4) =~= m) by {
                assert(flat.subrange(0, 4) =~= m[0]);
                assert(flat.subrange(4, 8) =~= m[1]);
                assert(flat.subrange(8, 12) =~= m[2]);
                assert(flat.subrange(12, 16) =~= m[3]);
            }
        }
        out
    }
}

} // verus!
