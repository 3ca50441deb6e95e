//! Character-level building blocks of the value grammar: whitespace, trimming and
//! splitting, each with a mathematical definition over `Seq<char>`.
use vstd::prelude::*;

verus! {

/// The characters with the Unicode property `White_Space`.
pub open spec fn is_whitespace(c: char) -> bool {
    ||| ('\u{9}' <= c && c <= '\u{d}')
    ||| c == ' '
    ||| c == '\u{85}'
    ||| c == '\u{a0}'
    ||| c == '\u{1680}'
    ||| ('\u{2000}' <= c && c <= '\u{200a}')
    ||| c == '\u{2028}'
    ||| c == '\u{2029}'
    ||| c == '\u{202f}'
    ||| c == '\u{205f}'
    ||| c == '\u{3000}'
}

/// The first position at or after `i` that holds no whitespace.
pub open spec fn skip_whitespace(s: Seq<char>, i: int) -> int
    decreases s.len() - i,
{
    if 0 <= i < s.len() && is_whitespace(s[i]) {
        skip_whitespace(s, i + 1)
    } else {
        i
    }
}

/// The end of `s[lo..j]` once its trailing whitespace is dropped.
pub open spec fn drop_whitespace(s: Seq<char>, lo: int, j: int) -> int
    decreases j,
{
    if 0 <= lo < j <= s.len() && is_whitespace(s[j - 1]) {
        drop_whitespace(s, lo, j - 1)
    } else {
        j
    }
}

/// `s` without its leading and trailing whitespace.
pub open spec fn trim(s: Seq<char>) -> Seq<char> {
    let a = skip_whitespace(s, 0);
    let b = drop_whitespace(s, a, s.len() as int);
    s.subrange(a, b)
}

/// The pieces of `s[start..]` between occurrences of `sep`, where `s[start..i]` is
/// known to hold no separator.
pub open spec fn split_from(s: Seq<char>, sep: char, start: int, i: int) -> Seq<Seq<char>>
    decreases s.len() - i,
{
    if i >= s.len() || i < start || start < 0 {
        seq![s.subrange(start, s.len() as int)]
    } else if s[i] == sep {
        seq![s.subrange(start, i)] + split_from(s, sep, i + 1, i + 1)
    } else {
        split_from(s, sep, start, i + 1)
    }
}

/// The pieces of `s` between occurrences of `sep`. There is always at least one piece;
/// the pieces may be empty.
pub open spec fn split(s: Seq<char>, sep: char) -> Seq<Seq<char>> {
    split_from(s, sep, 0, 0)
}

/// Each piece of `pieces`, trimmed.
pub open spec fn trim_all(pieces: Seq<Seq<char>>) -> Seq<Seq<char>> {
    Seq::new(pieces.len(), |i: int| trim(pieces[i]))
}

pub fn char_is_whitespace(c: char) -> (r: bool)
    ensures
        r == is_whitespace(c),
{
    ('\u{9}' <= c && c <= '\u{d}') || c == ' ' || c == '\u{85}' || c == '\u{a0}' || c == '\u{1680}'
        || ('\u{2000}' <= c && c <= '\u{200a}') || c == '\u{2028}' || c == '\u{2029}' || c
        == '\u{202f}' || c == '\u{205f}' || c == '\u{3000}'
}

/// The characters of `s`, in order.
pub fn chars_of(s: &str) -> (v: Vec<char>)
    ensures
        v@ == s@,
{
    let mut v: Vec<char> = Vec::new();
    for c in it: s.chars()
        invariant
            v@ == it.seq().take(it.index() as int),
    {
        v.push(c);
    }
    v
}

/// Whether two strings hold the same characters.
pub fn str_eq(a: &str, b: &str) -> (r: bool)
    ensures
        r == (a@ == b@),
{
    let x = a.to_owned();
    let y = b.to_owned();
    x == y
}

/// `s` without its leading and trailing whitespace.
pub fn trim_str(s: &str) -> (r: &str)
    ensures
        r@ == trim(s@),
{
    let v = chars_of(s);
    let n = v.len();
    let mut a: usize = 0;
    while a < n && char_is_whitespace(v[a])
        invariant
            0 <= a <= n,
            n == v@.len(),
            skip_whitespace(v@, a as int) == skip_whitespace(v@, 0),
        decreases n - a,
    {
        a = a + 1;
    }
    let mut b: usize = n;
    while a < b && char_is_whitespace(v[b - 1])
        invariant
            a <= b <= n,
            n == v@.len(),
            drop_whitespace(v@, a as int, b as int) == drop_whitespace(v@, a as int, n as int),
        decreases b,
    {
        b = b - 1;
    }
    s.substring_char(a, b)
}

/// The pieces of `s` between occurrences of `sep`, in order.
pub fn split_str(s: &str, sep: char) -> (pieces: Vec<String>)
    ensures
        pieces.deep_view() == split(s@, sep),
        pieces.len() >= 1,
{
    let v = chars_of(s);
    let n = v.len();
    let mut pieces: Vec<String> = Vec::new();
    let mut start: usize = 0;
    let mut i: usize = 0;
    while i < n
        invariant
            0 <= start <= i <= n,
            n == v@.len(),
            v@ == s@,
            split(s@, sep) == pieces.deep_view() + split_from(s@, sep, start as int, i as int),
        decreases n - i,
    {
        if v[i] == sep {
            let piece = s.substring_char(start, i).to_owned();
            let ghost before = pieces.deep_view();
            pieces.push(piece);
            proof {
                assert(pieces.deep_view() =~= before.push(s@.subrange(start as int, i as int)));
                assert(before.push(s@.subrange(start as int, i as int)) + split_from(
                    s@,
                    sep,
                    i + 1,
                    i + 1,
                ) =~= before + (seq![s@.subrange(start as int, i as int)] + split_from(
                    s@,
                    sep,
                    i + 1,
                    i + 1,
                )));
            }
            start = i + 1;
        }
        i = i + 1;
    }
    let piece = s.substring_char(start, n).to_owned();
    let ghost before = pieces.deep_view();
    pieces.push(piece);
    proof {
        assert(pieces.deep_view() =~= before.push(s@.subrange(start as int, n as int)));
        assert(before.push(s@.subrange(start as int, n as int)) =~= before + seq![
            s@.subrange(start as int, n as int),
        ]);
    }
    pieces
}

/// The items with `sep` between neighbours.
pub open spec fn join(items: Seq<Seq<char>>, sep: char) -> Seq<char>
    decreases items.len(),
{
    if items.len() == 0 {
        Seq::empty()
    } else if items.len() == 1 {
        items[0]
    } else {
        items[0] + seq![sep] + join(items.drop_first(), sep)
    }
}

/// Whether `sep` occurs nowhere in `s`.
pub open spec fn free_of(s: Seq<char>, sep: char) -> bool {
    forall|i: int| 0 <= i < s.len() ==> s[i] != sep
}

/// A text without separator from `i` on is one piece from `start` on.
proof fn lemma_split_last_piece(s: Seq<char>, sep: char, start: int, i: int)
    requires
        0 <= start <= i <= s.len(),
        forall|j: int| i <= j < s.len() ==> s[j] != sep,
    ensures
        split_from(s, sep, start, i) == seq![s.subrange(start, s.len() as int)],
    decreases s.len() - i,
{
    if i < s.len() {
        lemma_split_last_piece(s, sep, start, i + 1);
    }
}

/// Scanning reaches the next separator at `k` and cuts a piece there.
proof fn lemma_split_next_piece(s: Seq<char>, sep: char, start: int, i: int, k: int)
    requires
        0 <= start <= i <= k < s.len(),
        forall|j: int| i <= j < k ==> s[j] != sep,
        s[k] == sep,
    ensures
        split_from(s, sep, start, i) == seq![s.subrange(start, k)] + split_from(
            s,
            sep,
            k + 1,
            k + 1,
        ),
    decreases k - i,
{
    if i < k {
        lemma_split_next_piece(s, sep, start, i + 1, k);
    }
}

/// Splitting behind a prefix is splitting the rest.
proof fn lemma_split_behind_prefix(
    prefix: Seq<char>,
    rest: Seq<char>,
    sep: char,
    start: int,
    i: int,
)
    requires
        0 <= start <= i <= rest.len(),
    ensures
        split_from(prefix + rest, sep, prefix.len() + start, prefix.len() + i) == split_from(
            rest,
            sep,
            start,
            i,
        ),
    decreases rest.len() - i,
{
    let s = prefix + rest;
    let m = prefix.len() as int;
    assert(s.subrange(m + start, s.len() as int) =~= rest.subrange(start, rest.len() as int));
    if i < rest.len() {
        assert(s[m + i] == rest[i]);
        assert(s.subrange(m + start, m + i) =~= rest.subrange(start, i));
        if rest[i] == sep {
            lemma_split_behind_prefix(prefix, rest, sep, i + 1, i + 1);
        } else {
            lemma_split_behind_prefix(prefix, rest, sep, start, i + 1);
        }
    }
}

/// Splitting undoes joining: a list of at least one item, none of which holds the
/// separator, is what its joined text splits into.
pub proof fn lemma_split_join(items: Seq<Seq<char>>, sep: char)
    requires
        items.len() >= 1,
        forall|i: int| 0 <= i < items.len() ==> free_of(#[trigger] items[i], sep),
    ensures
        split(join(items, sep), sep) == items,
    decreases items.len(),
{
    let first = items[0];
    assert(free_of(first, sep));
    if items.len() == 1 {
        lemma_split_last_piece(first, sep, 0, 0);
        assert(first.subrange(0, first.len() as int) =~= first);
        assert(seq![first] =~= items);
    } else {
        let rest = items.drop_first();
        let tail = join(rest, sep);
        let head = first + seq![sep];
        let s = head + tail;
        assert(join(items, sep) =~= s);
        assert forall|i: int| 0 <= i < rest.len() implies free_of(#[trigger] rest[i], sep) by {
            assert(rest[i] == items[i + 1]);
        }
        lemma_split_join(rest, sep);
        let k = first.len() as int;
        assert(s[k] == sep);
        assert forall|j: int| 0 <= j < k implies s[j] != sep by {
            assert(s[j] == first[j]);
        }
        lemma_split_next_piece(s, sep, 0, 0, k);
        assert(s.subrange(0, k) =~= first);
        lemma_split_behind_prefix(head, tail, sep, 0, 0);
        assert(seq![first] + rest =~= items);
    }
}

/// A text that neither starts nor ends with whitespace is left as it is by trimming.
pub proof fn lemma_trim_tight(s: Seq<char>)
    requires
        s.len() > 0,
        !is_whitespace(s[0]),
        !is_whitespace(s.last()),
    ensures
        trim(s) == s,
{
    assert(s.subrange(0, s.len() as int) =~= s);
}

/// Joining one more item puts the separator and the item behind what was joined.
pub proof fn lemma_join_push(items: Seq<Seq<char>>, sep: char, item: Seq<char>)
    requires
        items.len() >= 1,
    ensures
        join(items.push(item), sep) == join(items, sep) + seq![sep] + item,
    decreases items.len(),
{
    let all = items.push(item);
    assert(all.drop_first() =~= items.drop_first().push(item));
    if items.len() == 1 {
        assert(all.drop_first() =~= seq![item]);
        assert(join(seq![item], sep) == item);
        assert(all[0] == items[0]);
        assert(join(all, sep) =~= items[0] + seq![sep] + item);
    } else {
        lemma_join_push(items.drop_first(), sep, item);
        assert(join(all, sep) =~= join(items, sep) + seq![sep] + item);
    }
}

/// Joining two lists one after the other joins what each of them is joined to.
pub proof fn lemma_join_concat(a: Seq<Seq<char>>, b: Seq<Seq<char>>, sep: char)
    requires
        a.len() >= 1,
        b.len() >= 1,
    ensures
        join(a + b, sep) == join(a, sep) + seq![sep] + join(b, sep),
    decreases b.len(),
{
    if b.len() == 1 {
        assert(a + b =~= a.push(b[0]));
        lemma_join_push(a, sep, b[0]);
    } else {
        let front = b.drop_last();
        assert(a + b =~= (a + front).push(b.last()));
        assert(b =~= front.push(b.last()));
        lemma_join_concat(a, front, sep);
        lemma_join_push(a + front, sep, b.last());
        lemma_join_push(front, sep, b.last());
        assert(join(a + b, sep) =~= join(a, sep) + seq![sep] + join(b, sep));
    }
}

/// A text without the separator is one piece.
pub proof fn lemma_split_single(s: Seq<char>, sep: char)
    requires
        free_of(s, sep),
    ensures
        split(s, sep) == seq![s],
{
    lemma_split_last_piece(s, sep, 0, 0);
    assert(s.subrange(0, s.len() as int) =~= s);
}

proof fn lemma_split_from_pieces(s: Seq<char>, sep: char, start: int, i: int)
    requires
        0 <= start <= i <= s.len(),
        forall|j: int| start <= j < i ==> s[j] != sep,
    ensures
        split_from(s, sep, start, i).len() >= 1,
        forall|k: int|
            0 <= k < split_from(s, sep, start, i).len() ==> free_of(
                #[trigger] split_from(s, sep, start, i)[k],
                sep,
            ),
    decreases s.len() - i,
{
    if i < s.len() {
        if s[i] == sep {
            lemma_split_from_pieces(s, sep, i + 1, i + 1);
        } else {
            lemma_split_from_pieces(s, sep, start, i + 1);
        }
    }
}

/// A text splits into at least one piece, and no piece holds the separator.
pub proof fn lemma_split_pieces(s: Seq<char>, sep: char)
    ensures
        split(s, sep).len() >= 1,
        forall|k: int| 0 <= k < split(s, sep).len() ==> free_of(#[trigger] split(s, sep)[k], sep),
{
    lemma_split_from_pieces(s, sep, 0, 0);
}

proof fn lemma_skip_whitespace_bounds(s: Seq<char>, i: int)
    requires
        0 <= i <= s.len(),
    ensures
        i <= skip_whitespace(s, i) <= s.len(),
    decreases s.len() - i,
{
    if i < s.len() && is_whitespace(s[i]) {
        lemma_skip_whitespace_bounds(s, i + 1);
    }
}

proof fn lemma_drop_whitespace_bounds(s: Seq<char>, lo: int, j: int)
    requires
        0 <= lo <= j <= s.len(),
    ensures
        lo <= drop_whitespace(s, lo, j) <= j,
    decreases j,
{
    if lo < j && is_whitespace(s[j - 1]) {
        lemma_drop_whitespace_bounds(s, lo, j - 1);
    }
}

/// Trimming brings no separator into a text that has none.
pub proof fn lemma_trim_free(s: Seq<char>, sep: char)
    requires
        free_of(s, sep),
    ensures
        free_of(trim(s), sep),
{
    lemma_skip_whitespace_bounds(s, 0);
    lemma_drop_whitespace_bounds(s, skip_whitespace(s, 0), s.len() as int);
}

} // verus!
