//! What a list has to do with the rows that it is made of.
use crate::table;
use vstd::prelude::*;

verus! {

/// Everything in a list is a row that it is to show, as it is shown.
pub proof fn what_is_listed_is_a_row<K, V, T>(
    out: Seq<T>,
    m: Map<K, V>,
    keep: spec_fn(K, V) -> bool,
    show: spec_fn(K, V) -> T,
    le: spec_fn((K, V), (K, V)) -> bool,
    i: int,
) -> (k: K)
    requires
        table::lists(out, m, keep, show, le),
        0 <= i < out.len(),
    ensures
        m.contains_key(k),
        keep(k, m[k]),
        out[i] == show(k, m[k]),
{
    let ks = choose|ks: Seq<K>| #[trigger]
        table::listing_keys(ks, m, keep, le) && out =~= Seq::new(
            ks.len(),
            |i: int| show(ks[i], m[ks[i]]),
        );
    assert(ks.contains(ks[i]));
    ks[i]
}

/// Every row that a list is to show is in it.
pub proof fn every_row_is_listed<K, V, T>(
    out: Seq<T>,
    m: Map<K, V>,
    keep: spec_fn(K, V) -> bool,
    show: spec_fn(K, V) -> T,
    le: spec_fn((K, V), (K, V)) -> bool,
    k: K,
) -> (i: int)
    requires
        table::lists(out, m, keep, show, le),
        m.contains_key(k),
        keep(k, m[k]),
    ensures
        0 <= i < out.len(),
        out[i] == show(k, m[k]),
{
    let ks = choose|ks: Seq<K>| #[trigger]
        table::listing_keys(ks, m, keep, le) && out =~= Seq::new(
            ks.len(),
            |i: int| show(ks[i], m[ks[i]]),
        );
    assert(ks.contains(k));
    let i = choose|i: int| 0 <= i < ks.len() && ks[i] == k;
    i
}

/// A list keeps its order, and shows no row twice: of two places in it, the earlier one is of a
/// row that is not after the other's.
pub proof fn a_list_is_in_order<K, V, T>(
    out: Seq<T>,
    m: Map<K, V>,
    keep: spec_fn(K, V) -> bool,
    show: spec_fn(K, V) -> T,
    le: spec_fn((K, V), (K, V)) -> bool,
    i: int,
    j: int,
) -> (ks: (K, K))
    requires
        table::lists(out, m, keep, show, le),
        0 <= i < j < out.len(),
    ensures
        ks.0 != ks.1,
        m.contains_key(ks.0) && m.contains_key(ks.1),
        keep(ks.0, m[ks.0]) && keep(ks.1, m[ks.1]),
        out[i] == show(ks.0, m[ks.0]),
        out[j] == show(ks.1, m[ks.1]),
        le((ks.0, m[ks.0]), (ks.1, m[ks.1])),
{
    let ks = choose|ks: Seq<K>| #[trigger]
        table::listing_keys(ks, m, keep, le) && out =~= Seq::new(
            ks.len(),
            |i: int| show(ks[i], m[ks[i]]),
        );
    assert(ks.contains(ks[i]) && ks.contains(ks[j]));
    assert(le((ks[i], m[ks[i]]), (ks[j], m[ks[j]])));
    (ks[i], ks[j])
}

} // verus!
