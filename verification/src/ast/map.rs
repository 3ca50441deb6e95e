//! The ordered, name-keyed collections of the document model, kept in `IndexMap`s.
use super::Element;
use indexmap::IndexMap;
use vstd::prelude::*;

verus! {

/// `indexmap::IndexMap`, a map that keeps its entries in the order in which their keys
/// were first put in. The verifier sees nothing inside it.
#[verifier::external_type_specification]
#[verifier::external_body]
#[verifier::reject_recursive_types(K)]
#[verifier::reject_recursive_types(V)]
#[verifier::reject_recursive_types(S)]
pub struct ExIndexMap<K, V, S>(IndexMap<K, V, S>);

/// The index of the first entry at or after `from` that has the key; the number of
/// entries if there is none.
pub open spec fn find<V>(entries: Seq<(Seq<char>, V)>, key: Seq<char>, from: int) -> int
    decreases entries.len() - from,
{
    if from < 0 || from >= entries.len() {
        entries.len() as int
    } else if entries[from].0 == key {
        from
    } else {
        find(entries, key, from + 1)
    }
}

/// The value that is kept under a key.
pub open spec fn lookup<V>(entries: Seq<(Seq<char>, V)>, key: Seq<char>) -> Option<V> {
    let i = find(entries, key, 0);
    if i < entries.len() {
        Some(entries[i].1)
    } else {
        None
    }
}

/// The entries after a value is put under a key: a key that is there keeps its place
/// and gets the new value, a new key goes to the end.
pub open spec fn upsert<V>(entries: Seq<(Seq<char>, V)>, key: Seq<char>, value: V) -> Seq<
    (Seq<char>, V),
> {
    let i = find(entries, key, 0);
    if i < entries.len() {
        entries.update(i, (key, value))
    } else {
        entries.push((key, value))
    }
}

/// Whether no key occurs twice.
pub open spec fn distinct_keys<V>(entries: Seq<(Seq<char>, V)>) -> bool {
    forall|i: int, j: int|
        0 <= i < j < entries.len() ==> (#[trigger] entries[i]).0 != (#[trigger] entries[j]).0
}

/// The attributes that a map holds, by name and value, in the order of the map.
pub uninterp spec fn attribute_entries(m: IndexMap<String, String>) -> Seq<
    (Seq<char>, Seq<char>),
>;

/// `IndexMap::new`: the new map holds nothing.
#[verifier::external_body]
pub(crate) fn attributes_new() -> (m: IndexMap<String, String>)
    ensures
        attribute_entries(m) == Seq::<(Seq<char>, Seq<char>)>::empty(),
{
    IndexMap::new()
}

/// `IndexMap::insert`: a name that the map holds keeps its place and gets the new
/// value; a new name goes last in the order.
#[verifier::external_body]
pub(crate) fn attributes_insert(m: &mut IndexMap<String, String>, name: String, value: String)
    ensures
        attribute_entries(*final(m)) == upsert(attribute_entries(*old(m)), name@, value@),
{
    m.insert(name, value);
}

/// `IndexMap::get`: the value that the map holds under the name, if it holds the name.
#[verifier::external_body]
pub(crate) fn attributes_get<'a>(m: &'a IndexMap<String, String>, name: &str) -> (r: Option<
    &'a String,
>)
    ensures
        match r {
            Some(value) => lookup(attribute_entries(*m), name@) == Some(value@),
            None => lookup(attribute_entries(*m), name@) is None,
        },
{
    m.get(name)
}

/// The elements that stand directly under an element or under the root of a document,
/// by name, in the order in which the names first occurred.
///
/// This is an `IndexMap` from names to elements. It is kept behind a type of its own
/// that the verifier does not look into, because an element holds such a map of
/// elements, and the verifier accepts no type that contains itself through an outside
/// type. What the map holds is named by [`child_entries`].
#[verifier::external_body]
#[derive(Debug)]
pub struct Children {
    map: IndexMap<String, Element>,
}

/// The elements that a collection holds, each with its name, in the order of the
/// collection.
pub uninterp spec fn child_entries(c: Children) -> Seq<(Seq<char>, Element)>;

/// `IndexMap::new`: the new collection holds nothing.
#[verifier::external_body]
pub(crate) fn children_new() -> (c: Children)
    ensures
        child_entries(c) == Seq::<(Seq<char>, Element)>::empty(),
{
    Children { map: IndexMap::new() }
}

/// `IndexMap::insert`: a name that the collection holds keeps its place and gets the
/// new element; a new name goes last in the order.
#[verifier::external_body]
pub(crate) fn children_insert(c: &mut Children, name: String, child: Element)
    ensures
        child_entries(*final(c)) == upsert(child_entries(*old(c)), name@, child),
{
    c.map.insert(name, child);
}

/// `IndexMap::get`: the element that the collection holds under the name, if it holds
/// the name.
#[verifier::external_body]
pub(crate) fn children_get<'a>(c: &'a Children, name: &str) -> (r: Option<&'a Element>)
    ensures
        match r {
            Some(child) => lookup(child_entries(*c), name@) == Some(*child),
            None => lookup(child_entries(*c), name@) is None,
        },
{
    c.map.get(name)
}

/// `IndexMap::len`: the number of elements in the collection.
#[verifier::external_body]
pub(crate) fn children_len(c: &Children) -> (n: usize)
    ensures
        n == child_entries(*c).len(),
{
    c.map.len()
}

/// `IndexMap::get_index`: the name and the element at a place in the order, if the
/// collection has that many.
#[verifier::external_body]
pub(crate) fn children_get_index<'a>(c: &'a Children, index: usize) -> (r: Option<
    (&'a String, &'a Element),
>)
    ensures
        match r {
            Some((name, child)) => index < child_entries(*c).len() && child_entries(
                *c,
            )[index as int] == (name@, *child),
            None => index >= child_entries(*c).len(),
        },
{
    c.map.get_index(index)
}

} // verus!
