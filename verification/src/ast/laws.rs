//! What holds of every document that is built from markup.
use super::from::{
    child_slots, children_match, element_matches, element_name, is_element_child, lemma_find,
    lemma_find_same_keys,
};
use super::map::{distinct_keys, find, lookup, upsert};
use super::xml::XmlNodeView;
use super::Element;
use vstd::prelude::*;

verus! {

/// The last element under `i`, before `j`, that has the name.
pub open spec fn last_named_child(
    nodes: Seq<XmlNodeView>,
    i: int,
    name: Seq<char>,
    j: int,
) -> Option<int>
    decreases j,
{
    if j <= 0 || j <= i + 1 {
        None
    } else if is_element_child(nodes, i, j - 1) && element_name(nodes[j - 1]) == name {
        Some(j - 1)
    } else {
        last_named_child(nodes, i, name, j - 1)
    }
}

/// After a value is put under a key, that key gives the value, and every other key
/// gives what it gave before.
pub proof fn lemma_lookup_upsert<V>(
    entries: Seq<(Seq<char>, V)>,
    key: Seq<char>,
    value: V,
    other: Seq<char>,
)
    ensures
        lookup(upsert(entries, key, value), key) == Some(value),
        other != key ==> lookup(upsert(entries, key, value), other) == lookup(entries, other),
{
    let after = upsert(entries, key, value);
    let p = find(entries, key, 0);
    lemma_find(entries, key, 0);
    lemma_find(after, key, 0);
    let r = find(after, key, 0);
    assert(after[p] == (key, value));
    if r < p {
        assert(after[r] == entries[r]);
        assert(entries[r].0 != key);
    }
    assert(r == p);
    if other != key {
        let q = find(entries, other, 0);
        let q2 = find(after, other, 0);
        lemma_find(entries, other, 0);
        lemma_find(after, other, 0);
        if q < entries.len() {
            assert(entries[q].0 == other);
            assert(after[q] == entries[q]);
            if q2 < q {
                assert(after[q2].0 == other);
                if q2 != p {
                    assert(after[q2] == entries[q2]);
                }
            }
            assert(q2 == q);
        } else {
            if q2 < after.len() {
                assert(after[q2].0 == other);
                if q2 < entries.len() && q2 != p {
                    assert(after[q2] == entries[q2]);
                }
            }
            assert(q2 == after.len());
        }
    }
}

/// Putting a value under a key leaves no key twice.
pub proof fn lemma_upsert_distinct<V>(entries: Seq<(Seq<char>, V)>, key: Seq<char>, value: V)
    requires
        distinct_keys(entries),
    ensures
        distinct_keys(upsert(entries, key, value)),
{
    let after = upsert(entries, key, value);
    let p = find(entries, key, 0);
    lemma_find(entries, key, 0);
    assert forall|a: int, b: int| 0 <= a < b < after.len() implies (#[trigger] after[a]).0 != (
    #[trigger] after[b]).0 by {
        if p < entries.len() {
            assert(after[a].0 == entries[a].0);
            assert(after[b].0 == entries[b].0);
        } else {
            if b < entries.len() {
                assert(after[a] == entries[a]);
                assert(after[b] == entries[b]);
            } else {
                assert(after[a] == entries[a]);
                assert(entries[a].0 != key);
            }
        }
    }
}

/// In the places of the children of `i`, no name occurs twice, and each name stands
/// for the last child of that name.
pub proof fn lemma_child_slots(nodes: Seq<XmlNodeView>, i: int, j: int, name: Seq<char>)
    ensures
        distinct_keys(child_slots(nodes, i, j)),
        lookup(child_slots(nodes, i, j), name) == last_named_child(nodes, i, name, j),
    decreases j,
{
    if j <= 0 || j <= i + 1 {
    } else {
        lemma_child_slots(nodes, i, j - 1, name);
        let before = child_slots(nodes, i, j - 1);
        if is_element_child(nodes, i, j - 1) {
            lemma_upsert_distinct(before, element_name(nodes[j - 1]), j - 1);
            lemma_lookup_upsert(before, element_name(nodes[j - 1]), j - 1, name);
        }
    }
}

/// Of the elements of one name under one parent the document keeps the last.
///
/// In a collection that holds the element children of the node `i`, no name occurs
/// twice; a name that some child has leads to the element built from the last child of
/// that name; any other name leads to nothing.
pub proof fn lemma_later_sibling_wins(
    entries: Seq<(Seq<char>, Element)>,
    nodes: Seq<XmlNodeView>,
    i: int,
    name: Seq<char>,
)
    requires
        children_match(entries, nodes, i, nodes.len() as int),
    ensures
        distinct_keys(entries),
        match last_named_child(nodes, i, name, nodes.len() as int) {
            Some(j) => lookup(entries, name) is Some && element_matches(
                lookup(entries, name)->0,
                nodes,
                j,
            ),
            None => lookup(entries, name) is None,
        },
{
    let slots = child_slots(nodes, i, nodes.len() as int);
    lemma_child_slots(nodes, i, nodes.len() as int, name);
    lemma_find_same_keys(entries, slots, name, 0);
    lemma_find(entries, name, 0);
    assert forall|a: int, b: int| 0 <= a < b < entries.len() implies (#[trigger] entries[a]).0 != (
    #[trigger] entries[b]).0 by {
        assert(entries[a].0 == slots[a].0);
        assert(entries[b].0 == slots[b].0);
    }
    let p = find(entries, name, 0);
    if p < entries.len() {
        assert(entries[p].0 == slots[p].0);
    }
}

} // verus!
