//! The scalar literals of the value grammar: unsigned decimal integers, booleans and
//! decimal floating-point literals.
use crate::text::{chars_of, str_eq};
use vstd::prelude::*;

verus! {

/// Why a text is no unsigned decimal integer.
#[derive(Clone, Copy, Debug, PartialEq, Eq, Structural)]
pub enum IntErrorKind {
    /// The text is empty.
    Empty,
    /// The text holds something else than decimal digits after an optional `+`.
    InvalidDigit,
    /// The number does not fit the integer type.
    PosOverflow,
}

/// Why a text is no floating-point literal.
#[derive(Clone, Copy, Debug, PartialEq, Eq, Structural)]
pub enum FloatErrorKind {
    /// The text is empty.
    Empty,
    /// The text does not follow the grammar of floating-point literals.
    Invalid,
}

pub open spec fn is_digit(c: char) -> bool {
    '0' <= c && c <= '9'
}

pub open spec fn digit_value(c: char) -> nat {
    (c as u32 - '0' as u32) as nat
}

/// The number that the decimal digits `s` denote; the most significant digit comes first.
pub open spec fn decimal_value(s: Seq<char>) -> nat
    decreases s.len(),
{
    if s.len() == 0 {
        0
    } else {
        decimal_value(s.drop_last()) * 10 + digit_value(s.last())
    }
}

/// Reads the digits `s[i..]` from left to right onto the number `acc` read so far, and
/// stops at the first character that is no digit or that takes the number above `max`.
pub open spec fn scan_digits(s: Seq<char>, i: int, acc: nat, max: nat) -> Result<
    nat,
    IntErrorKind,
>
    decreases s.len() - i,
{
    if i < 0 || i >= s.len() {
        Ok(acc)
    } else if !is_digit(s[i]) {
        Err(IntErrorKind::InvalidDigit)
    } else if acc * 10 + digit_value(s[i]) > max {
        Err(IntErrorKind::PosOverflow)
    } else {
        scan_digits(s, i + 1, acc * 10 + digit_value(s[i]), max)
    }
}

/// The unsigned integer up to `max` that `s` denotes: decimal digits, at least one,
/// after an optional `+`. No whitespace is accepted.
pub open spec fn parse_unsigned(s: Seq<char>, max: nat) -> Result<nat, IntErrorKind> {
    if s.len() == 0 {
        Err(IntErrorKind::Empty)
    } else if s.len() == 1 && (s[0] == '+' || s[0] == '-') {
        Err(IntErrorKind::InvalidDigit)
    } else if s[0] == '+' {
        scan_digits(s, 1, 0, max)
    } else {
        scan_digits(s, 0, 0, max)
    }
}

/// The boolean that `s` denotes: `true` or `false`, in lower case.
pub open spec fn parse_boolean(s: Seq<char>) -> Option<bool> {
    if s == "true"@ {
        Some(true)
    } else if s == "false"@ {
        Some(false)
    } else {
        None
    }
}

/// The end of the run of decimal digits that starts at `i`.
pub open spec fn digits_end(s: Seq<char>, i: int) -> int
    decreases s.len() - i,
{
    if 0 <= i < s.len() && is_digit(s[i]) {
        digits_end(s, i + 1)
    } else {
        i
    }
}

/// Whether `c` is the letter given in its lower-case and upper-case form.
pub open spec fn is_letter(c: char, lower: char, upper: char) -> bool {
    c == lower || c == upper
}

/// `inf`, `infinity` or `nan`, in any case.
pub open spec fn is_special_float(s: Seq<char>) -> bool {
    ||| {
        &&& s.len() == 3
        &&& is_letter(s[0], 'i', 'I')
        &&& is_letter(s[1], 'n', 'N')
        &&& is_letter(s[2], 'f', 'F')
    }
    ||| {
        &&& s.len() == 8
        &&& is_letter(s[0], 'i', 'I')
        &&& is_letter(s[1], 'n', 'N')
        &&& is_letter(s[2], 'f', 'F')
        &&& is_letter(s[3], 'i', 'I')
        &&& is_letter(s[4], 'n', 'N')
        &&& is_letter(s[5], 'i', 'I')
        &&& is_letter(s[6], 't', 'T')
        &&& is_letter(s[7], 'y', 'Y')
    }
    ||| {
        &&& s.len() == 3
        &&& is_letter(s[0], 'n', 'N')
        &&& is_letter(s[1], 'a', 'A')
        &&& is_letter(s[2], 'n', 'N')
    }
}

/// Whether `s[i..]` is an exponent: `e` or `E`, an optional sign, and at least one digit.
pub open spec fn is_exponent(s: Seq<char>, i: int) -> bool {
    &&& 0 <= i < s.len()
    &&& (s[i] == 'e' || s[i] == 'E')
    &&& {
        let j = if i + 1 < s.len() && (s[i + 1] == '+' || s[i + 1] == '-') {
            i + 2
        } else {
            i + 1
        };
        j < s.len() && digits_end(s, j) == s.len()
    }
}

/// Whether `s` is an unsigned decimal number: digits with an optional `.` among them,
/// at least one digit in all, and an optional exponent.
pub open spec fn is_decimal_number(s: Seq<char>) -> bool {
    let int_end = digits_end(s, 0);
    let has_point = int_end < s.len() && s[int_end] == '.';
    let frac_end = if has_point {
        digits_end(s, int_end + 1)
    } else {
        int_end
    };
    let digits = if has_point {
        frac_end - 1
    } else {
        frac_end
    };
    digits >= 1 && (frac_end == s.len() || is_exponent(s, frac_end))
}

/// Whether `s` is a floating-point literal: an optional sign, then a decimal number,
/// `inf`, `infinity` or `nan`. No whitespace is accepted.
pub open spec fn is_float_literal(s: Seq<char>) -> bool {
    let body = if s.len() > 0 && (s[0] == '+' || s[0] == '-') {
        s.subrange(1, s.len() as int)
    } else {
        s
    };
    is_special_float(body) || is_decimal_number(body)
}

/// Why `s` is no floating-point literal, if it is none.
pub open spec fn float_error(s: Seq<char>) -> Option<FloatErrorKind> {
    if s.len() == 0 {
        Some(FloatErrorKind::Empty)
    } else if is_float_literal(s) {
        None
    } else {
        Some(FloatErrorKind::Invalid)
    }
}

pub fn char_is_digit(c: char) -> (r: bool)
    ensures
        r == is_digit(c),
{
    '0' <= c && c <= '9'
}

/// Parses an unsigned decimal integer that is at most `max`.
pub fn parse_unsigned_str(s: &str, max: u64) -> (r: Result<u64, IntErrorKind>)
    ensures
        match r {
            Ok(n) => parse_unsigned(s@, max as nat) == Ok::<nat, IntErrorKind>(n as nat),
            Err(e) => parse_unsigned(s@, max as nat) == Err::<nat, IntErrorKind>(e),
        },
{
    let v = chars_of(s);
    let n = v.len();
    if n == 0 {
        return Err(IntErrorKind::Empty);
    }
    if n == 1 && (v[0] == '+' || v[0] == '-') {
        return Err(IntErrorKind::InvalidDigit);
    }
    let first: usize = if v[0] == '+' {
        1
    } else {
        0
    };
    let mut i: usize = first;
    let mut acc: u64 = 0;
    while i < n
        invariant
            first <= i <= n,
            n == v@.len(),
            acc <= max,
            parse_unsigned(s@, max as nat) == scan_digits(v@, i as int, acc as nat, max as nat),
        decreases n - i,
    {
        let c = v[i];
        if !char_is_digit(c) {
            return Err(IntErrorKind::InvalidDigit);
        }
        let d: u64 = (c as u32 - '0' as u32) as u64;
        let wide: u128 = acc as u128 * 10 + d as u128;
        if wide > max as u128 {
            return Err(IntErrorKind::PosOverflow);
        }
        acc = wide as u64;
        i = i + 1;
    }
    Ok(acc)
}

fn letter(c: char, lower: char, upper: char) -> (r: bool)
    ensures
        r == is_letter(c, lower, upper),
{
    c == lower || c == upper
}

fn special_float(v: &Vec<char>) -> (r: bool)
    ensures
        r == is_special_float(v@),
{
    let n = v.len();
    if n == 3 {
        (letter(v[0], 'i', 'I') && letter(v[1], 'n', 'N') && letter(v[2], 'f', 'F')) || (letter(
            v[0],
            'n',
            'N',
        ) && letter(v[1], 'a', 'A') && letter(v[2], 'n', 'N'))
    } else if n == 8 {
        letter(v[0], 'i', 'I') && letter(v[1], 'n', 'N') && letter(v[2], 'f', 'F') && letter(
            v[3],
            'i',
            'I',
        ) && letter(v[4], 'n', 'N') && letter(v[5], 'i', 'I') && letter(v[6], 't', 'T') && letter(
            v[7],
            'y',
            'Y',
        )
    } else {
        false
    }
}

fn run_of_digits(v: &Vec<char>, i: usize) -> (r: usize)
    requires
        i <= v.len(),
    ensures
        r == digits_end(v@, i as int),
        i <= r <= v.len(),
{
    let n = v.len();
    let mut j: usize = i;
    while j < n && char_is_digit(v[j])
        invariant
            i <= j <= n,
            n == v@.len(),
            digits_end(v@, j as int) == digits_end(v@, i as int),
        decreases n - j,
    {
        j = j + 1;
    }
    j
}

fn exponent(v: &Vec<char>, i: usize) -> (r: bool)
    requires
        i <= v.len(),
    ensures
        r == is_exponent(v@, i as int),
{
    let n = v.len();
    if i >= n || !(v[i] == 'e' || v[i] == 'E') {
        return false;
    }
    let j: usize = if i + 1 < n && (v[i + 1] == '+' || v[i + 1] == '-') {
        i + 2
    } else {
        i + 1
    };
    j < n && run_of_digits(v, j) == n
}

fn decimal_number(v: &Vec<char>) -> (r: bool)
    ensures
        r == is_decimal_number(v@),
{
    let n = v.len();
    let int_end = run_of_digits(v, 0);
    let has_point = int_end < n && v[int_end] == '.';
    let frac_end = if has_point {
        run_of_digits(v, int_end + 1)
    } else {
        int_end
    };
    let digits: usize = if has_point {
        frac_end - 1
    } else {
        frac_end
    };
    digits >= 1 && (frac_end == n || exponent(v, frac_end))
}

/// Checks `s` against the grammar of floating-point literals.
pub fn check_float(s: &str) -> (r: Option<FloatErrorKind>)
    ensures
        r == float_error(s@),
{
    let v = chars_of(s);
    let n = v.len();
    if n == 0 {
        return Some(FloatErrorKind::Empty);
    }
    let signed = v[0] == '+' || v[0] == '-';
    let body = if signed {
        chars_of(s.substring_char(1, n))
    } else {
        v
    };
    if special_float(&body) || decimal_number(&body) {
        None
    } else {
        Some(FloatErrorKind::Invalid)
    }
}

/// Parses `true` or `false`.
pub fn parse_boolean_str(s: &str) -> (r: Option<bool>)
    ensures
        r == parse_boolean(s@),
{
    if str_eq(s, "true") {
        Some(true)
    } else if str_eq(s, "false") {
        Some(false)
    } else {
        None
    }
}

/// The characters that occur in floating-point literals.
pub open spec fn is_float_char(c: char) -> bool {
    ||| is_digit(c)
    ||| c == '+'
    ||| c == '-'
    ||| c == '.'
    ||| is_letter(c, 'e', 'E')
    ||| is_letter(c, 'i', 'I')
    ||| is_letter(c, 'n', 'N')
    ||| is_letter(c, 'f', 'F')
    ||| is_letter(c, 't', 'T')
    ||| is_letter(c, 'y', 'Y')
    ||| is_letter(c, 'a', 'A')
}

/// A run of digits ends within the text and holds digits only.
pub proof fn lemma_digits_end(s: Seq<char>, i: int)
    requires
        0 <= i <= s.len(),
    ensures
        i <= digits_end(s, i) <= s.len(),
        forall|j: int| i <= j < digits_end(s, i) ==> is_digit(s[j]),
    decreases s.len() - i,
{
    if i < s.len() && is_digit(s[i]) {
        lemma_digits_end(s, i + 1);
    }
}

proof fn lemma_decimal_number_chars(s: Seq<char>)
    requires
        is_decimal_number(s),
    ensures
        s.len() >= 1,
        forall|j: int| 0 <= j < s.len() ==> is_float_char(s[j]),
{
    lemma_digits_end(s, 0);
    let int_end = digits_end(s, 0);
    let has_point = int_end < s.len() && s[int_end] == '.';
    if has_point {
        lemma_digits_end(s, int_end + 1);
    }
    let frac_end = if has_point {
        digits_end(s, int_end + 1)
    } else {
        int_end
    };
    if frac_end < s.len() {
        let j = if frac_end + 1 < s.len() && (s[frac_end + 1] == '+' || s[frac_end + 1] == '-') {
            frac_end + 2
        } else {
            frac_end + 1
        };
        lemma_digits_end(s, j);
    }
}

/// A floating-point literal is not empty and is made of the characters of
/// [`is_float_char`], so it holds neither a comma nor whitespace.
pub proof fn lemma_float_literal_chars(s: Seq<char>)
    requires
        is_float_literal(s),
    ensures
        s.len() >= 1,
        forall|j: int| 0 <= j < s.len() ==> is_float_char(s[j]),
        forall|j: int| 0 <= j < s.len() ==> s[j] != ',' && !crate::text::is_whitespace(s[j]),
{
    let signed = s.len() > 0 && (s[0] == '+' || s[0] == '-');
    let body = if signed {
        s.subrange(1, s.len() as int)
    } else {
        s
    };
    if is_decimal_number(body) {
        lemma_decimal_number_chars(body);
    }
    assert forall|j: int| 0 <= j < s.len() implies is_float_char(s[j]) by {
        if signed && j >= 1 {
            assert(s[j] == body[j - 1]);
        }
    }
}

/// The number of a text of digits is at least the number of each text that it starts
/// with.
proof fn lemma_decimal_prefix(s: Seq<char>, i: int)
    requires
        0 <= i <= s.len(),
    ensures
        decimal_value(s.take(i)) <= decimal_value(s),
    decreases s.len() - i,
{
    if i < s.len() {
        lemma_decimal_prefix(s, i + 1);
        assert(s.take(i + 1).drop_last() =~= s.take(i));
    } else {
        assert(s.take(i) =~= s);
    }
}

proof fn lemma_scan_all_digits(s: Seq<char>, i: int, max: nat)
    requires
        0 <= i <= s.len(),
        forall|j: int| 0 <= j < s.len() ==> is_digit(s[j]),
        decimal_value(s) <= max,
    ensures
        scan_digits(s, i, decimal_value(s.take(i)), max) == Ok::<nat, IntErrorKind>(
            decimal_value(s),
        ),
    decreases s.len() - i,
{
    if i < s.len() {
        assert(s.take(i + 1).drop_last() =~= s.take(i));
        assert(s.take(i + 1).last() == s[i]);
        lemma_decimal_prefix(s, i + 1);
        lemma_scan_all_digits(s, i + 1, max);
    } else {
        assert(s.take(i) =~= s);
    }
}

/// A text of decimal digits, at least one, denotes the number that the digits spell,
/// if that number is within the bound.
pub proof fn lemma_parse_unsigned_digits(s: Seq<char>, max: nat)
    requires
        s.len() >= 1,
        forall|j: int| 0 <= j < s.len() ==> is_digit(s[j]),
        decimal_value(s) <= max,
    ensures
        parse_unsigned(s, max) == Ok::<nat, IntErrorKind>(decimal_value(s)),
{
    assert(s.take(0) =~= Seq::<char>::empty());
    lemma_scan_all_digits(s, 0, max);
}

} // verus!
