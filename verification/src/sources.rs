//! The catalogues from which example materials are fetched, and the choice among what
//! a catalogue offers for one material.
use vstd::prelude::*;

verus! {

/// The catalogue at matlib.gpuopen.com, by the categories that are fetched from it.
#[derive(Debug, Clone)]
pub struct MatLib {
    pub categories: Vec<String>,
}

/// The catalogue at ambientcg.com, by the number of materials that are fetched from it.
#[derive(Debug, Clone)]
pub struct AmbientCg {
    pub limit: usize,
}

/// A package in which a material of the first catalogue can be had.
#[derive(Debug, Clone, PartialEq)]
pub struct Package {
    pub id: String,
    pub file_url: String,
    pub size: String,
    pub file: String,
    pub label: String,
}

/// The categories that are fetched where none is asked for.
pub open spec fn default_categories() -> Seq<Seq<char>> {
    seq!["Cobblestone"@, "Metal"@, "Marble"@, "SciFi"@]
}

/// The number of materials that is fetched where none is asked for.
pub open spec fn default_limit() -> usize {
    20
}

impl Default for MatLib {
    fn default() -> (r: Self)
        ensures
            r.categories.deep_view() == default_categories(),
    {
        let mut categories: Vec<String> = Vec::new();
        categories.push("Cobblestone".to_owned());
        categories.push("Metal".to_owned());
        categories.push("Marble".to_owned());
        categories.push("SciFi".to_owned());
        assert(categories.deep_view() =~= default_categories());
        MatLib { categories }
    }
}

impl Default for AmbientCg {
    fn default() -> (r: Self)
        ensures
            r.limit == default_limit(),
    {
        AmbientCg { limit: 20 }
    }
}

impl Default for Package {
    fn default() -> (r: Self)
        ensures
            r.id@.len() == 0,
            r.file_url@.len() == 0,
            r.size@.len() == 0,
            r.file@.len() == 0,
            r.label@.len() == 0,
    {
        Package {
            id: String::new(),
            file_url: String::new(),
            size: String::new(),
            file: String::new(),
            label: String::new(),
        }
    }
}

/// Whether `a` comes before `b` in the order of texts: character by character, a
/// proper prefix before what it is a prefix of.
pub open spec fn text_before(a: Seq<char>, b: Seq<char>) -> bool
    decreases a.len(),
{
    if b.len() == 0 {
        false
    } else if a.len() == 0 {
        true
    } else if a[0] != b[0] {
        a[0] < b[0]
    } else {
        text_before(a.drop_first(), b.drop_first())
    }
}

/// Whether `a[i..]` comes before `b[i..]` in the order of texts.
pub open spec fn text_before_from(a: Seq<char>, b: Seq<char>, i: int) -> bool
    decreases a.len() - i,
{
    if i < 0 || i >= b.len() {
        false
    } else if i >= a.len() {
        true
    } else if a[i] != b[i] {
        a[i] < b[i]
    } else {
        text_before_from(a, b, i + 1)
    }
}

/// Comparing from a position on is comparing what is left from that position on.
pub proof fn lemma_text_before_from(a: Seq<char>, b: Seq<char>, i: int)
    requires
        0 <= i <= a.len(),
        0 <= i <= b.len(),
    ensures
        text_before_from(a, b, i) == text_before(
            a.subrange(i, a.len() as int),
            b.subrange(i, b.len() as int),
        ),
    decreases a.len() - i,
{
    let x = a.subrange(i, a.len() as int);
    let y = b.subrange(i, b.len() as int);
    if i < b.len() && i < a.len() {
        assert(x[0] == a[i]);
        assert(y[0] == b[i]);
        if a[i] == b[i] {
            lemma_text_before_from(a, b, i + 1);
            assert(x.drop_first() =~= a.subrange(i + 1, a.len() as int));
            assert(y.drop_first() =~= b.subrange(i + 1, b.len() as int));
        }
    }
}

/// Whether `a` comes before `b` in the order of texts.
pub fn comes_before(a: &str, b: &str) -> (r: bool)
    ensures
        r == text_before(a@, b@),
{
    let x = crate::text::chars_of(a);
    let y = crate::text::chars_of(b);
    proof {
        lemma_text_before_from(a@, b@, 0);
        assert(a@.subrange(0, a@.len() as int) =~= a@);
        assert(b@.subrange(0, b@.len() as int) =~= b@);
    }
    let mut i: usize = 0;
    loop
        invariant
            x@ == a@,
            y@ == b@,
            0 <= i <= x.len(),
            0 <= i <= y.len(),
            text_before_from(a@, b@, i as int) == text_before(a@, b@),
        decreases x.len() - i,
    {
        if i >= y.len() {
            return false;
        }
        if i >= x.len() {
            return true;
        }
        if x[i] != y[i] {
            return x[i] < y[i];
        }
        i = i + 1;
    }
}

/// Whether the package at `best` is the one to take: no package has a label that
/// comes before its label, and of the packages with its label it is the first.
pub open spec fn is_smallest_package(labels: Seq<Seq<char>>, best: int) -> bool {
    &&& 0 <= best < labels.len()
    &&& forall|j: int| 0 <= j < labels.len() ==> !text_before(#[trigger] labels[j], labels[best])
    &&& forall|j: int| 0 <= j < best ==> text_before(labels[best], #[trigger] labels[j])
}

/// The labels of packages.
pub open spec fn labels_of(packages: Seq<Package>) -> Seq<Seq<char>> {
    Seq::new(packages.len(), |i: int| packages[i].label@)
}

/// No text comes before itself.
pub proof fn lemma_before_irreflexive(a: Seq<char>)
    ensures
        !text_before(a, a),
    decreases a.len(),
{
    if a.len() > 0 {
        lemma_before_irreflexive(a.drop_first());
    }
}

/// What comes before a text comes before whatever that text comes before.
pub proof fn lemma_before_chain(a: Seq<char>, b: Seq<char>, c: Seq<char>)
    requires
        text_before(a, b),
        text_before(b, c),
    ensures
        text_before(a, c),
    decreases a.len(),
{
    if a.len() > 0 && b.len() > 0 && c.len() > 0 {
        if a[0] == b[0] && b[0] == c[0] {
            lemma_before_chain(a.drop_first(), b.drop_first(), c.drop_first());
        }
    }
}

/// What comes before a text comes before whatever does not come before that text.
pub proof fn lemma_before_rest(a: Seq<char>, b: Seq<char>, c: Seq<char>)
    requires
        text_before(a, b),
        !text_before(c, b),
    ensures
        text_before(a, c),
    decreases a.len(),
{
    if a.len() > 0 && b.len() > 0 && c.len() > 0 {
        if a[0] == b[0] && b[0] == c[0] {
            lemma_before_rest(a.drop_first(), b.drop_first(), c.drop_first());
        }
    }
}

/// The package to fetch for a material: the one whose label comes first in the order
/// of texts, and of several with that label the first. There is none only where the
/// material has no package.
pub fn smallest_package(packages: &Vec<Package>) -> (r: Option<usize>)
    ensures
        match r {
            Some(best) => is_smallest_package(labels_of(packages@), best as int),
            None => packages.len() == 0,
        },
{
    if packages.len() == 0 {
        return None;
    }
    let ghost labels = labels_of(packages@);
    let mut best: usize = 0;
    let mut i: usize = 1;
    proof {
        lemma_before_irreflexive(labels[0]);
    }
    while i < packages.len()
        invariant
            0 <= best < i <= packages.len(),
            labels == labels_of(packages@),
            forall|j: int| 0 <= j < i ==> !text_before(#[trigger] labels[j], labels[best as int]),
            forall|j: int| 0 <= j < best ==> text_before(labels[best as int], #[trigger] labels[j]),
        decreases packages.len() - i,
    {
        assert(labels[i as int] == packages[i as int].label@);
        assert(labels[best as int] == packages[best as int].label@);
        if comes_before(packages[i].label.as_str(), packages[best].label.as_str()) {
            proof {
                let candidate = labels[i as int];
                let so_far = labels[best as int];
                assert forall|j: int| 0 <= j < i + 1 implies !text_before(
                    #[trigger] labels[j],
                    candidate,
                ) by {
                    if j == i {
                        lemma_before_irreflexive(candidate);
                    } else if text_before(labels[j], candidate) {
                        lemma_before_chain(labels[j], candidate, so_far);
                    }
                }
                assert forall|j: int| 0 <= j < i implies text_before(
                    candidate,
                    #[trigger] labels[j],
                ) by {
                    lemma_before_rest(candidate, so_far, labels[j]);
                }
            }
            best = i;
        }
        i = i + 1;
    }
    Some(best)
}

/// Whether the download at `best` is the one to take: none is smaller, and of the
/// downloads of its size it is the first.
pub open spec fn is_smallest_download(sizes: Seq<usize>, best: int) -> bool {
    &&& 0 <= best < sizes.len()
    &&& forall|j: int| 0 <= j < sizes.len() ==> sizes[best] <= #[trigger] sizes[j]
    &&& forall|j: int| 0 <= j < best ==> sizes[best] < #[trigger] sizes[j]
}

/// The download to fetch for a material of the second catalogue, by the sizes of the
/// downloads on offer: the smallest, and of several of that size the first. There is
/// none only where nothing is on offer.
pub fn smallest_download(sizes: &Vec<usize>) -> (r: Option<usize>)
    ensures
        match r {
            Some(best) => is_smallest_download(sizes@, best as int),
            None => sizes.len() == 0,
        },
{
    if sizes.len() == 0 {
        return None;
    }
    let mut best: usize = 0;
    let mut i: usize = 1;
    while i < sizes.len()
        invariant
            0 <= best < i <= sizes.len(),
            forall|j: int| 0 <= j < i ==> sizes[best as int] <= #[trigger] sizes[j],
            forall|j: int| 0 <= j < best ==> sizes[best as int] < #[trigger] sizes[j],
        decreases sizes.len() - i,
    {
        if sizes[i] < sizes[best] {
            best = i;
        }
        i = i + 1;
    }
    Some(best)
}

} // verus!
