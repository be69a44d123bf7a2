//! Keyed tables. A table is a finite map; its rows can be looked up by key,
//! replaced, removed, searched, and listed in an order of choice.
use crate::text::same_text;
use vstd::prelude::*;

verus! {

/// What a table can hold: a value with a mathematical view, which can be copied.
pub trait Record: View + Sized {
    /// A copy, with the same view.
    fn dup(&self) -> (r: Self)
        ensures
            r@ == self@,
    ;
}

/// What can name a row of a table.
pub trait Key: Record {
    /// Whether two keys have the same view.
    fn same(&self, other: &Self) -> (r: bool)
        ensures
            r == (self@ == other@),
    ;
}

impl Record for String {
    fn dup(&self) -> (r: Self) {
        self.clone()
    }
}

impl Key for String {
    fn same(&self, other: &Self) -> (r: bool) {
        same_text(self, other)
    }
}

/// A key of two texts.
#[derive(Debug, Clone, PartialEq, Eq)]
pub struct Pair {
    pub first: String,
    pub second: String,
}

impl View for Pair {
    type V = (Seq<char>, Seq<char>);

    open spec fn view(&self) -> (Seq<char>, Seq<char>) {
        (self.first@, self.second@)
    }
}

impl Record for Pair {
    fn dup(&self) -> (r: Self) {
        Pair { first: self.first.clone(), second: self.second.clone() }
    }
}

impl Key for Pair {
    fn same(&self, other: &Self) -> (r: bool) {
        same_text(&self.first, &other.first) && same_text(&self.second, &other.second)
    }
}

/// The key of two texts.
pub fn pair(first: &str, second: &str) -> (k: Pair)
    ensures
        k@ == (first@, second@),
{
    Pair { first: first.to_owned(), second: second.to_owned() }
}

/// A key of three texts.
#[derive(Debug, Clone, PartialEq, Eq)]
pub struct Triple {
    pub first: String,
    pub second: String,
    pub third: String,
}

impl View for Triple {
    type V = (Seq<char>, Seq<char>, Seq<char>);

    open spec fn view(&self) -> (Seq<char>, Seq<char>, Seq<char>) {
        (self.first@, self.second@, self.third@)
    }
}

impl Record for Triple {
    fn dup(&self) -> (r: Self) {
        Triple {
            first: self.first.clone(),
            second: self.second.clone(),
            third: self.third.clone(),
        }
    }
}

impl Key for Triple {
    fn same(&self, other: &Self) -> (r: bool) {
        same_text(&self.first, &other.first) && same_text(&self.second, &other.second)
            && same_text(&self.third, &other.third)
    }
}

/// The views of a sequence of values.
pub open spec fn seen<T: View>(s: Seq<T>) -> Seq<T::V> {
    s.map_values(|t: T| t@)
}

/// Copies of a list of records.
pub fn dup_all<T: Record>(list: &Vec<T>) -> (r: Vec<T>)
    ensures
        seen(r@) == seen(list@),
{
    let mut r: Vec<T> = Vec::new();
    let mut i: usize = 0;
    while i < list.len()
        invariant
            i <= list@.len(),
            r@.len() == i,
            forall|j: int| 0 <= j < i ==> (#[trigger] r@[j])@ == list@[j]@,
        decreases list@.len() - i,
    {
        r.push(list[i].dup());
        i = i + 1;
    }
    assert(seen(r@) =~= seen(list@));
    r
}

/// A copy of an optional record.
pub fn dup_option<T: Record>(value: &Option<T>) -> (r: Option<T>)
    ensures
        match (r, *value) {
            (Some(x), Some(y)) => x@ == y@,
            (None, None) => true,
            _ => false,
        },
{
    match value {
        Some(x) => Some(x.dup()),
        None => None,
    }
}

/// No key stands in two rows.
pub open spec fn distinct_keys<K, V>(rows: Seq<(K, V)>) -> bool {
    forall|i: int, j: int|
        0 <= i < rows.len() && 0 <= j < rows.len() && i != j ==> (#[trigger] rows[i]).0 != (
        #[trigger] rows[j]).0
}

/// The map that rows with distinct keys make up.
pub open spec fn rows_map<K, V>(rows: Seq<(K, V)>) -> Map<K, V> {
    Map::new(
        |k: K| exists|i: int| 0 <= i < rows.len() && (#[trigger] rows[i]).0 == k,
        |k: K| rows[choose|i: int| 0 <= i < rows.len() && (#[trigger] rows[i]).0 == k].1,
    )
}

pub proof fn lemma_rows_map<K, V>(rows: Seq<(K, V)>)
    requires
        distinct_keys(rows),
    ensures
        forall|i: int|
            0 <= i < rows.len() ==> rows_map(rows).contains_key((#[trigger] rows[i]).0) && rows_map(
                rows,
            )[rows[i].0] == rows[i].1,
        forall|k: K| #[trigger]
            rows_map(rows).contains_key(k) ==> exists|i: int|
                0 <= i < rows.len() && (#[trigger] rows[i]).0 == k && rows[i].1 == rows_map(
                    rows,
                )[k],
{
    assert forall|i: int| 0 <= i < rows.len() implies rows_map(rows).contains_key(
        (#[trigger] rows[i]).0,
    ) && rows_map(rows)[rows[i].0] == rows[i].1 by {
        let k = rows[i].0;
        let j = choose|j: int| 0 <= j < rows.len() && (#[trigger] rows[j]).0 == k;
        assert(rows[j].0 == rows[i].0);
    }
    assert forall|k: K| #[trigger] rows_map(rows).contains_key(k) implies exists|i: int|
        0 <= i < rows.len() && (#[trigger] rows[i]).0 == k && rows[i].1 == rows_map(rows)[k] by {
        let j = choose|j: int| 0 <= j < rows.len() && (#[trigger] rows[j]).0 == k;
        assert(rows[j].0 == k);
    }
}

/// `ks` are, without repetition and in the order `le`, the keys of the rows of
/// `m` that `keep` holds of.
pub open spec fn listing_keys<K, V>(
    ks: Seq<K>,
    m: Map<K, V>,
    keep: spec_fn(K, V) -> bool,
    le: spec_fn((K, V), (K, V)) -> bool,
) -> bool {
    &&& ks.no_duplicates()
    &&& forall|k: K| #[trigger] ks.contains(k) <==> m.contains_key(k) && keep(k, m[k])
    &&& forall|i: int, j: int|
        0 <= i < j < ks.len() ==> le((#[trigger] ks[i], m[ks[i]]), (#[trigger] ks[j], m[ks[j]]))
}

/// `out` shows each row of `m` that `keep` holds of, once, in the order `le`.
pub open spec fn lists<K, V, T>(
    out: Seq<T>,
    m: Map<K, V>,
    keep: spec_fn(K, V) -> bool,
    show: spec_fn(K, V) -> T,
    le: spec_fn((K, V), (K, V)) -> bool,
) -> bool {
    exists|ks: Seq<K>| #[trigger]
        listing_keys(ks, m, keep, le) && out =~= Seq::new(
            ks.len(),
            |i: int| show(ks[i], m[ks[i]]),
        )
}

/// `le` is a total order up to ties.
pub open spec fn ranks<R>(le: spec_fn(R, R) -> bool) -> bool {
    &&& forall|x: R, y: R| #[trigger] le(x, y) || le(y, x)
    &&& forall|x: R, y: R, z: R| #[trigger] le(x, y) && #[trigger] le(y, z) ==> le(x, z)
}

/// `p` are, without repetition and in the order `le`, the positions of the rows
/// that `keep` holds of.
pub open spec fn picks<K, V>(
    p: Seq<usize>,
    rows: Seq<(K, V)>,
    keep: spec_fn(K, V) -> bool,
    le: spec_fn((K, V), (K, V)) -> bool,
) -> bool {
    &&& forall|i: int|
        0 <= i < p.len() ==> (#[trigger] p[i]) < rows.len() && keep(
            rows[p[i] as int].0,
            rows[p[i] as int].1,
        )
    &&& forall|i: int, j: int|
        0 <= i < j < p.len() ==> (#[trigger] p[i]) != (#[trigger] p[j]) && le(
            rows[p[i] as int],
            rows[p[j] as int],
        )
    &&& forall|r: usize|
        r < rows.len() && keep(rows[r as int].0, rows[r as int].1) ==> #[trigger] p.contains(r)
}

pub proof fn lemma_picks_list<K, V, T>(
    p: Seq<usize>,
    rows: Seq<(K, V)>,
    keep: spec_fn(K, V) -> bool,
    le: spec_fn((K, V), (K, V)) -> bool,
    show: spec_fn(K, V) -> T,
    out: Seq<T>,
)
    requires
        distinct_keys(rows),
        rows.len() <= usize::MAX,
        picks(p, rows, keep, le),
        out.len() == p.len(),
        forall|i: int|
            0 <= i < p.len() ==> #[trigger] out[i] == show(
                rows[p[i] as int].0,
                rows[p[i] as int].1,
            ),
    ensures
        lists(out, rows_map(rows), keep, show, le),
{
    let m = rows_map(rows);
    lemma_rows_map(rows);
    let ks = Seq::new(p.len(), |i: int| rows[p[i] as int].0);
    assert forall|i: int, j: int| 0 <= i < j < ks.len() implies ks[i] != ks[j] && le(
        (#[trigger] ks[i], m[ks[i]]),
        (#[trigger] ks[j], m[ks[j]]),
    ) by {
        assert(p[i] != p[j]);
        assert(rows[p[i] as int].0 != rows[p[j] as int].0);
    }
    assert(ks.no_duplicates()) by {
        assert forall|i: int, j: int|
            0 <= i < ks.len() && 0 <= j < ks.len() && i != j implies ks[i] != ks[j] by {
            if i < j {
                assert((ks[i], m[ks[i]]) == (ks[i], m[ks[i]]));
            } else {
                assert(ks[j] != ks[i]);
            }
        }
    }
    assert forall|k: K| #[trigger] ks.contains(k) <==> m.contains_key(k) && keep(k, m[k]) by {
        if ks.contains(k) {
            let i = choose|i: int| 0 <= i < ks.len() && ks[i] == k;
            assert(p[i] < rows.len());
            assert(rows[p[i] as int].0 == k);
        }
        if m.contains_key(k) && keep(k, m[k]) {
            let r = choose|r: int|
                0 <= r < rows.len() && (#[trigger] rows[r]).0 == k && rows[r].1 == m[k];
            assert(p.contains(r as usize));
            let i = choose|i: int| 0 <= i < p.len() && p[i] == r as usize;
            assert(ks[i] == k);
        }
    }
    assert(listing_keys(ks, m, keep, le));
    assert(out =~= Seq::new(ks.len(), |i: int| show(ks[i], m[ks[i]])));
}

/// The views of rows.
pub open spec fn entries_of<K: View, V: View>(rows: Seq<(K, V)>) -> Seq<(K::V, V::V)> {
    rows.map_values(|r: (K, V)| (r.0@, r.1@))
}

/// A table: rows with distinct keys.
pub struct Table<K: Key, V: Record> {
    rows: Vec<(K, V)>,
}

impl<K: Key, V: Record> View for Table<K, V> {
    type V = Map<K::V, V::V>;

    closed spec fn view(&self) -> Map<K::V, V::V> {
        rows_map(self.entries())
    }
}

impl<K: Key, V: Record> Table<K, V> {
    /// The rows, in the order in which their keys first came.
    pub closed spec fn entries(self) -> Seq<(K::V, V::V)> {
        entries_of(self.rows@)
    }

    /// No key stands in two rows.
    pub closed spec fn wf(self) -> bool {
        distinct_keys(self.entries())
    }

    /// The map of a table and its rows say the same.
    pub proof fn lemma_entries(self)
        requires
            self.wf(),
        ensures
            distinct_keys(self.entries()),
            self@ == rows_map(self.entries()),
            forall|i: int|
                0 <= i < self.entries().len() ==> self@.contains_key(
                    (#[trigger] self.entries()[i]).0,
                ) && self@[self.entries()[i].0] == self.entries()[i].1,
            forall|k: K::V| #[trigger]
                self@.contains_key(k) ==> exists|i: int|
                    0 <= i < self.entries().len() && (#[trigger] self.entries()[i]).0 == k
                        && self.entries()[i].1 == self@[k],
            self@.dom().finite(),
            self@.dom().len() == self.entries().len(),
    {
        lemma_rows_map(self.entries());
        let keys = self.entries().map_values(|e: (K::V, V::V)| e.0);
        assert(keys.no_duplicates()) by {
            assert forall|i: int, j: int|
                0 <= i < keys.len() && 0 <= j < keys.len() && i != j implies keys[i]
                != keys[j] by {
                assert(self.entries()[i].0 != self.entries()[j].0);
            }
        }
        keys.unique_seq_to_set();
        assert(keys.to_set() =~= self@.dom()) by {
            assert forall|k: K::V| keys.to_set().contains(k) <==> self@.contains_key(k) by {
                if keys.contains(k) {
                    let i = choose|i: int| 0 <= i < keys.len() && keys[i] == k;
                    assert(self.entries()[i].0 == k);
                }
                if self@.contains_key(k) {
                    let i = choose|i: int|
                        0 <= i < self.entries().len() && (#[trigger] self.entries()[i]).0 == k;
                    assert(keys[i] == k);
                }
            }
        }
        vstd::seq_lib::seq_to_set_is_finite(keys);
    }

    /// A table without rows.
    pub fn new() -> (t: Self)
        ensures
            t.wf(),
            t@ == Map::<K::V, V::V>::empty(),
    {
        let t = Table { rows: Vec::new() };
        assert(t@ =~= Map::<K::V, V::V>::empty());
        t
    }

    /// A table of given rows; `None` where a key stands in two of them.
    pub fn from_rows(rows: Vec<(K, V)>) -> (r: Option<Self>)
        ensures
            match r {
                Some(t) => t.wf() && t.entries() == entries_of(rows@) && distinct_keys(
                    entries_of(rows@),
                ) && t@ == rows_map(entries_of(rows@)),
                None => !distinct_keys(entries_of(rows@)),
            },
    {
        let mut i: usize = 0;
        while i < rows.len()
            invariant
                i <= rows@.len(),
                forall|a: int, b: int|
                    0 <= a < b < i ==> (#[trigger] entries_of(rows@)[a]).0 != (
                    #[trigger] entries_of(rows@)[b]).0,
            decreases rows@.len() - i,
        {
            let mut j: usize = 0;
            while j < i
                invariant
                    j <= i < rows@.len(),
                    forall|a: int|
                        0 <= a < j ==> (#[trigger] entries_of(rows@)[a]).0 != entries_of(
                            rows@,
                        )[i as int].0,
                decreases i - j,
            {
                assert(entries_of(rows@)[i as int].0 == rows@[i as int].0@);
                assert(entries_of(rows@)[j as int].0 == rows@[j as int].0@);
                if rows[j].0.same(&rows[i].0) {
                    return None;
                }
                j = j + 1;
            }
            i = i + 1;
        }
        Some(Table { rows })
    }

    /// A copy of the rows.
    pub fn to_rows(&self) -> (rows: Vec<(K, V)>)
        requires
            self.wf(),
        ensures
            entries_of(rows@) == self.entries(),
            distinct_keys(entries_of(rows@)),
            rows_map(entries_of(rows@)) == self@,
    {
        let mut rows: Vec<(K, V)> = Vec::new();
        let mut i: usize = 0;
        while i < self.rows.len()
            invariant
                i <= self.rows@.len(),
                rows@.len() == i,
                forall|j: int|
                    0 <= j < i ==> (#[trigger] rows@[j]).0@ == self.rows@[j].0@ && rows@[j].1@
                        == self.rows@[j].1@,
            decreases self.rows@.len() - i,
        {
            rows.push((self.rows[i].0.dup(), self.rows[i].1.dup()));
            i = i + 1;
        }
        assert(entries_of(rows@) =~= self.entries());
        rows
    }

    /// The number of rows.
    pub fn size(&self) -> (n: usize)
        requires
            self.wf(),
        ensures
            n == self.entries().len(),
            n == self@.dom().len(),
    {
        proof {
            self.lemma_entries();
        }
        self.rows.len()
    }

    /// The key of a row.
    pub fn key_at(&self, i: usize) -> (k: &K)
        requires
            i < self.entries().len(),
        ensures
            k@ == self.entries()[i as int].0,
    {
        &self.rows[i].0
    }

    /// The value of a row.
    pub fn value_at(&self, i: usize) -> (v: &V)
        requires
            i < self.entries().len(),
        ensures
            v@ == self.entries()[i as int].1,
    {
        &self.rows[i].1
    }

    fn position(&self, k: &K) -> (at: Option<usize>)
        ensures
            match at {
                Some(i) => i < self.entries().len() && self.entries()[i as int].0 == k@,
                None => forall|i: int|
                    0 <= i < self.entries().len() ==> (#[trigger] self.entries()[i]).0 != k@,
            },
    {
        let mut i: usize = 0;
        while i < self.rows.len()
            invariant
                i <= self.rows@.len(),
                forall|j: int| 0 <= j < i ==> (#[trigger] self.entries()[j]).0 != k@,
            decreases self.rows@.len() - i,
        {
            if self.rows[i].0.same(k) {
                return Some(i);
            }
            i = i + 1;
        }
        None
    }

    /// Looks a row up by its key.
    pub fn get(&self, k: &K) -> (v: Option<&V>)
        requires
            self.wf(),
        ensures
            match v {
                Some(v) => self@.contains_key(k@) && self@[k@] == v@,
                None => !self@.contains_key(k@),
            },
    {
        proof {
            self.lemma_entries();
        }
        match self.position(k) {
            Some(i) => Some(&self.rows[i].1),
            None => None,
        }
    }

    /// Whether a row has this key.
    pub fn has(&self, k: &K) -> (r: bool)
        requires
            self.wf(),
        ensures
            r == self@.contains_key(k@),
    {
        self.get(k).is_some()
    }

    /// Puts a value under a key, in place of what stood there.
    pub fn put(&mut self, k: K, v: V)
        requires
            old(self).wf(),
        ensures
            final(self).wf(),
            final(self)@ == old(self)@.insert(k@, v@),
    {
        let ghost before = self.entries();
        proof {
            self.lemma_entries();
        }
        match self.position(&k) {
            Some(i) => {
                let ghost kv = k@;
                let ghost vv = v@;
                self.rows.set(i, (k, v));
                assert(self.entries() =~= before.update(i as int, (kv, vv)));
                assert(distinct_keys(self.entries())) by {
                    assert forall|a: int, b: int|
                        0 <= a < before.len() && 0 <= b < before.len() && a
                            != b implies (#[trigger] self.entries()[a]).0 != (
                    #[trigger] self.entries()[b]).0 by {
                        assert(before[a].0 != before[b].0);
                    }
                }
                proof {
                    self.lemma_entries();
                }
                assert(self@ =~= old(self)@.insert(kv, vv)) by {
                    assert forall|q: K::V|
                        self@.contains_key(q) <==> old(self)@.insert(kv, vv).contains_key(q) by {
                        if self@.contains_key(q) && q != kv {
                            let j = choose|j: int|
                                0 <= j < self.entries().len() && (#[trigger] self.entries()[j]).0
                                    == q;
                            assert(before[j].0 == q);
                        }
                        if old(self)@.contains_key(q) && q != kv {
                            let j = choose|j: int|
                                0 <= j < before.len() && (#[trigger] before[j]).0 == q;
                            assert(self.entries()[j].0 == q);
                        }
                        if q == kv {
                            assert(self.entries()[i as int].0 == q);
                        }
                    }
                    assert forall|q: K::V| self@.contains_key(q) implies self@[q]
                        == old(self)@.insert(kv, vv)[q] by {
                        let j = choose|j: int|
                            0 <= j < self.entries().len() && (#[trigger] self.entries()[j]).0 == q;
                        if j != i {
                            assert(before[j] == self.entries()[j]);
                            assert(self.entries()[i as int].0 != self.entries()[j].0);
                        }
                    }
                }
            },
            None => {
                let ghost kv = k@;
                let ghost vv = v@;
                self.rows.push((k, v));
                assert(self.entries() =~= before.push((kv, vv)));
                assert(distinct_keys(self.entries())) by {
                    assert forall|a: int, b: int|
                        0 <= a < self.entries().len() && 0 <= b < self.entries().len() && a
                            != b implies (#[trigger] self.entries()[a]).0 != (
                    #[trigger] self.entries()[b]).0 by {
                        if a < before.len() {
                            assert(self.entries()[a] == before[a]);
                        }
                        if b < before.len() {
                            assert(self.entries()[b] == before[b]);
                        }
                    }
                }
                proof {
                    self.lemma_entries();
                }
                assert(self@ =~= old(self)@.insert(kv, vv)) by {
                    assert forall|q: K::V|
                        self@.contains_key(q) <==> old(self)@.insert(kv, vv).contains_key(q) by {
                        if self@.contains_key(q) && q != kv {
                            let j = choose|j: int|
                                0 <= j < self.entries().len() && (#[trigger] self.entries()[j]).0
                                    == q;
                            assert(before[j].0 == q);
                        }
                        if old(self)@.contains_key(q) {
                            let j = choose|j: int|
                                0 <= j < before.len() && (#[trigger] before[j]).0 == q;
                            assert(self.entries()[j].0 == q);
                        }
                        if q == kv {
                            assert(self.entries()[before.len() as int].0 == q);
                        }
                    }
                    assert forall|q: K::V| self@.contains_key(q) implies self@[q]
                        == old(self)@.insert(kv, vv)[q] by {
                        let j = choose|j: int|
                            0 <= j < self.entries().len() && (#[trigger] self.entries()[j]).0 == q;
                        if j < before.len() {
                            assert(before[j] == self.entries()[j]);
                        }
                    }
                }
            },
        }
    }

    /// Removes the rows that `gone` holds of, and says how many there were.
    pub(crate) fn remove_where<F: Fn(&K, &V) -> bool>(
        &mut self,
        gone: F,
        Ghost(hit): Ghost<spec_fn(K::V, V::V) -> bool>,
    ) -> (n: usize)
        requires
            old(self).wf(),
            forall|k: &K, v: &V| call_requires(gone, (k, v)),
            forall|k: &K, v: &V, r: bool|
                call_ensures(gone, (k, v), r) ==> r == hit(k@, v@),
        ensures
            final(self).wf(),
            final(self)@ == without(old(self)@, hit),
            n == old(self)@.dom().len() - final(self)@.dom().len(),
    {
        let ghost before = self.entries();
        proof {
            self.lemma_entries();
        }
        let mut kept: Vec<(K, V)> = Vec::new();
        let mut i: usize = 0;
        let mut n: usize = 0;
        let ghost mut from: Seq<int> = Seq::empty();
        while i < self.rows.len()
            invariant
                self.entries() == before,
                self.rows@.len() == before.len(),
                i <= before.len(),
                kept@.len() + n == i,
                from.len() == kept@.len(),
                forall|k: &K, v: &V| call_requires(gone, (k, v)),
                forall|k: &K, v: &V, r: bool|
                    call_ensures(gone, (k, v), r) ==> r == hit(k@, v@),
                forall|a: int|
                    0 <= a < from.len() ==> 0 <= (#[trigger] from[a]) < i && !hit(
                        before[from[a]].0,
                        before[from[a]].1,
                    ) && (kept@[a].0@, kept@[a].1@) == before[from[a]],
                forall|a: int, b: int|
                    0 <= a < b < from.len() ==> (#[trigger] from[a]) < (#[trigger] from[b]),
                forall|j: int|
                    0 <= j < i && !hit((#[trigger] before[j]).0, before[j].1)
                        ==> from.contains(j),
            decreases before.len() - i,
        {
            assert(before[i as int] == (self.rows@[i as int].0@, self.rows@[i as int].1@));
            if gone(&self.rows[i].0, &self.rows[i].1) {
                n = n + 1;
            } else {
                let ghost was = from;
                kept.push((self.rows[i].0.dup(), self.rows[i].1.dup()));
                proof {
                    from = from.push(i as int);
                    assert forall|j: int|
                        0 <= j < i + 1 && !hit((#[trigger] before[j]).0, before[j].1)
                        implies from.contains(j) by {
                        if j < i {
                            let a = choose|a: int| 0 <= a < was.len() && was[a] == j;
                            assert(from[a] == j);
                        } else {
                            assert(from[was.len() as int] == j);
                        }
                    }
                }
            }
            i = i + 1;
        }
        self.rows = kept;
        assert forall|a: int| 0 <= a < from.len() implies #[trigger] self.entries()[a]
            == before[from[a]] by {}
        assert(distinct_keys(self.entries())) by {
            assert forall|a: int, b: int|
                0 <= a < self.entries().len() && 0 <= b < self.entries().len() && a
                    != b implies (#[trigger] self.entries()[a]).0 != (
            #[trigger] self.entries()[b]).0 by {
                assert(from[a] != from[b]) by {
                    if a < b {
                        assert(from[a] < from[b]);
                    } else {
                        assert(from[b] < from[a]);
                    }
                }
                assert(before[from[a]].0 != before[from[b]].0);
            }
        }
        proof {
            self.lemma_entries();
            assert(self@ =~= without(old(self)@, hit)) by {
                assert forall|q: K::V|
                    self@.contains_key(q) <==> without(old(self)@, hit).contains_key(q) by {
                    if self@.contains_key(q) {
                        let a = choose|a: int|
                            0 <= a < self.entries().len() && (#[trigger] self.entries()[a]).0 == q;
                        assert(before[from[a]].0 == q);
                    }
                    if without(old(self)@, hit).contains_key(q) {
                        let j = choose|j: int|
                            0 <= j < before.len() && (#[trigger] before[j]).0 == q && before[j].1
                                == old(self)@[q];
                        assert(from.contains(j));
                        let a = choose|a: int| 0 <= a < from.len() && from[a] == j;
                        assert(self.entries()[a].0 == q);
                    }
                }
                assert forall|q: K::V| self@.contains_key(q) implies self@[q] == without(
                    old(self)@,
                    hit,
                )[q] by {
                    let a = choose|a: int|
                        0 <= a < self.entries().len() && (#[trigger] self.entries()[a]).0 == q;
                    assert(before[from[a]] == self.entries()[a]);
                }
            }
        }
        n
    }

    /// Removes the row with a key, and says whether there was one.
    pub fn remove(&mut self, k: &K) -> (there: bool)
        requires
            old(self).wf(),
        ensures
            final(self).wf(),
            final(self)@ == old(self)@.remove(k@),
            there == old(self)@.contains_key(k@),
    {
        let there = self.has(k);
        if there {
            let ghost kv = k@;
            let ghost hit = |q: K::V, v: V::V| q == kv;
            let is_it = |q: &K, v: &V| -> (r: bool)
                ensures (r == (q@ == k@))
            {
                q.same(k)
            };
            let _ = self.remove_where(is_it, Ghost(hit));
            assert(self@ =~= old(self)@.remove(k@));
        } else {
            assert(self@ =~= old(self)@.remove(k@));
        }
        there
    }

    /// The first row that `found` holds of.
    pub(crate) fn find<F: Fn(&K, &V) -> bool>(
        &self,
        found: F,
        Ghost(hit): Ghost<spec_fn(K::V, V::V) -> bool>,
    ) -> (at: Option<usize>)
        requires
            self.wf(),
            forall|k: &K, v: &V| call_requires(found, (k, v)),
            forall|k: &K, v: &V, r: bool|
                call_ensures(found, (k, v), r) ==> r == hit(k@, v@),
        ensures
            match at {
                Some(i) => i < self.entries().len() && self@.contains_key(
                    self.entries()[i as int].0,
                ) && self@[self.entries()[i as int].0] == self.entries()[i as int].1 && hit(
                    self.entries()[i as int].0,
                    self.entries()[i as int].1,
                ),
                None => forall|k: K::V| #[trigger] self@.contains_key(k) ==> !hit(k, self@[k]),
            },
    {
        proof {
            self.lemma_entries();
        }
        let mut i: usize = 0;
        while i < self.rows.len()
            invariant
                self.rows@.len() == self.entries().len(),
                i <= self.rows@.len(),
                forall|k: &K, v: &V| call_requires(found, (k, v)),
                forall|k: &K, v: &V, r: bool|
                    call_ensures(found, (k, v), r) ==> r == hit(k@, v@),
                forall|i: int|
                    0 <= i < self.entries().len() ==> self@.contains_key(
                        (#[trigger] self.entries()[i]).0,
                    ) && self@[self.entries()[i].0] == self.entries()[i].1,
                forall|j: int|
                    0 <= j < i ==> !hit((#[trigger] self.entries()[j]).0, self.entries()[j].1),
            decreases self.rows@.len() - i,
        {
            assert(self.entries()[i as int] == (
                self.rows@[i as int].0@,
                self.rows@[i as int].1@,
            ));
            if found(&self.rows[i].0, &self.rows[i].1) {
                return Some(i);
            }
            i = i + 1;
        }
        None
    }

    /// How many rows `found` holds of.
    pub(crate) fn count_where<F: Fn(&K, &V) -> bool>(
        &self,
        found: F,
        Ghost(hit): Ghost<spec_fn(K::V, V::V) -> bool>,
    ) -> (n: usize)
        requires
            self.wf(),
            forall|k: &K, v: &V| call_requires(found, (k, v)),
            forall|k: &K, v: &V, r: bool|
                call_ensures(found, (k, v), r) ==> r == hit(k@, v@),
        ensures
            n == only(self@, hit).dom().len(),
            only(self@, hit).dom().finite(),
    {
        proof {
            self.lemma_entries();
        }
        let ghost rows = self.entries();
        let ghost mut counted: Set<K::V> = Set::empty();
        let mut n: usize = 0;
        let mut i: usize = 0;
        while i < self.rows.len()
            invariant
                rows == self.entries(),
                self.rows@.len() == rows.len(),
                distinct_keys(rows),
                n <= i <= rows.len(),
                forall|k: &K, v: &V| call_requires(found, (k, v)),
                forall|k: &K, v: &V, r: bool|
                    call_ensures(found, (k, v), r) ==> r == hit(k@, v@),
                counted.finite(),
                counted.len() == n,
                forall|k: K::V| #[trigger]
                    counted.contains(k) <==> exists|j: int|
                        0 <= j < i && (#[trigger] rows[j]).0 == k && hit(k, rows[j].1),
            decreases rows.len() - i,
        {
            assert(rows[i as int] == (self.rows@[i as int].0@, self.rows@[i as int].1@));
            let ghost was = counted;
            if found(&self.rows[i].0, &self.rows[i].1) {
                proof {
                    let k = rows[i as int].0;
                    if was.contains(k) {
                        let j = choose|j: int| 0 <= j < i && (#[trigger] rows[j]).0 == k;
                        assert(rows[j].0 != rows[i as int].0);
                    }
                    counted = counted.insert(k);
                    assert forall|q: K::V| #[trigger] counted.contains(q) <==> exists|j: int|
                        0 <= j < i + 1 && (#[trigger] rows[j]).0 == q && hit(q, rows[j].1) by {
                        if q == k {
                            assert(rows[i as int].0 == q);
                        } else if was.contains(q) {
                            let j = choose|j: int|
                                0 <= j < i && (#[trigger] rows[j]).0 == q && hit(q, rows[j].1);
                            assert(rows[j].0 == q);
                        }
                    }
                }
                n = n + 1;
            } else {
                proof {
                    assert forall|q: K::V| #[trigger] counted.contains(q) <==> exists|j: int|
                        0 <= j < i + 1 && (#[trigger] rows[j]).0 == q && hit(q, rows[j].1) by {
                        if was.contains(q) {
                            let j = choose|j: int|
                                0 <= j < i && (#[trigger] rows[j]).0 == q && hit(q, rows[j].1);
                            assert(rows[j].0 == q);
                        }
                    }
                }
            }
            i = i + 1;
        }
        assert(counted =~= only(self@, hit).dom()) by {
            assert forall|k: K::V| counted.contains(k) <==> only(self@, hit).contains_key(k) by {
                if counted.contains(k) {
                    let j = choose|j: int|
                        0 <= j < rows.len() && (#[trigger] rows[j]).0 == k && hit(k, rows[j].1);
                    assert(self@.contains_key(rows[j].0));
                }
                if only(self@, hit).contains_key(k) {
                    let j = choose|j: int|
                        0 <= j < rows.len() && (#[trigger] rows[j]).0 == k && rows[j].1
                            == self@[k];
                    assert(rows[j].0 == k && hit(k, rows[j].1));
                }
            }
        }
        n
    }

    /// The positions of the rows that `kept` holds of, in the order `le`.
    pub(crate) fn ordered<F: Fn(&K, &V) -> bool, G: Fn(&K, &V, &K, &V) -> bool>(
        &self,
        kept: F,
        no_later: G,
        Ghost(keep): Ghost<spec_fn(K::V, V::V) -> bool>,
        Ghost(le): Ghost<spec_fn((K::V, V::V), (K::V, V::V)) -> bool>,
    ) -> (p: Vec<usize>)
        requires
            self.wf(),
            ranks(le),
            forall|k: &K, v: &V| call_requires(kept, (k, v)),
            forall|k: &K, v: &V, r: bool|
                call_ensures(kept, (k, v), r) ==> r == keep(k@, v@),
            forall|k: &K, v: &V, l: &K, w: &V| call_requires(no_later, (k, v, l, w)),
            forall|k: &K, v: &V, l: &K, w: &V, r: bool|
                call_ensures(no_later, (k, v, l, w), r) ==> r == le((k@, v@), (l@, w@)),
        ensures
            self.entries().len() <= usize::MAX,
            picks(p@, self.entries(), keep, le),
    {
        let mut p: Vec<usize> = Vec::new();
        let mut r: usize = 0;
        let ghost rows = self.entries();
        while r < self.rows.len()
            invariant
                self.entries() == rows,
                self.rows@.len() == rows.len(),
                r <= rows.len(),
                ranks(le),
                forall|k: &K, v: &V| call_requires(kept, (k, v)),
                forall|k: &K, v: &V, r: bool|
                    call_ensures(kept, (k, v), r) ==> r == keep(k@, v@),
                forall|k: &K, v: &V, l: &K, w: &V| call_requires(no_later, (k, v, l, w)),
                forall|k: &K, v: &V, l: &K, w: &V, r: bool|
                    call_ensures(no_later, (k, v, l, w), r) ==> r == le((k@, v@), (l@, w@)),
                picks(p@, rows.take(r as int), keep, le),
            decreases rows.len() - r,
        {
            assert(rows[r as int] == (self.rows@[r as int].0@, self.rows@[r as int].1@));
            let ghost was = p@;
            let ghost done = rows.take(r as int);
            let ghost more = rows.take(r + 1);
            if kept(&self.rows[r].0, &self.rows[r].1) {
                let mut at: usize = 0;
                while at < p.len() && no_later(
                    &self.rows[p[at]].0,
                    &self.rows[p[at]].1,
                    &self.rows[r].0,
                    &self.rows[r].1,
                )
                    invariant
                        self.entries() == rows,
                        self.rows@.len() == rows.len(),
                        r < rows.len(),
                        at <= p@.len(),
                        forall|i: int| 0 <= i < p@.len() ==> (#[trigger] p@[i]) < r,
                        forall|k: &K, v: &V, l: &K, w: &V| call_requires(no_later, (k, v, l, w)),
                        forall|k: &K, v: &V, l: &K, w: &V, r: bool|
                            call_ensures(no_later, (k, v, l, w), r) ==> r == le(
                                (k@, v@),
                                (l@, w@),
                            ),
                        forall|i: int|
                            0 <= i < at ==> le(rows[(#[trigger] p@[i]) as int], rows[r as int]),
                    ensures
                        at <= p@.len(),
                        forall|i: int|
                            0 <= i < at ==> le(rows[(#[trigger] p@[i]) as int], rows[r as int]),
                        at < p@.len() ==> !le(rows[p@[at as int] as int], rows[r as int]),
                    decreases p@.len() - at,
                {
                    assert(rows[p@[at as int] as int] == (
                        self.rows@[p@[at as int] as int].0@,
                        self.rows@[p@[at as int] as int].1@,
                    ));
                    at = at + 1;
                }
                if at < p.len() {
                    assert(rows[p@[at as int] as int] == (
                        self.rows@[p@[at as int] as int].0@,
                        self.rows@[p@[at as int] as int].1@,
                    ));
                }
                p.insert(at, r);
                proof {
                    assert(p@ =~= was.insert(at as int, r));
                    assert forall|i: int|
                        at < i < p@.len() implies le(rows[r as int], rows[(#[trigger] p@[i]) as int]) by {
                        assert(p@[i] == was[i - 1]);
                        assert(le(rows[r as int], rows[was[at as int] as int]));
                        if i - 1 > at {
                            assert(was[at as int] != was[i - 1]);
                            assert(le(done[was[at as int] as int], done[was[i - 1] as int]));
                            assert(le(rows[was[at as int] as int], rows[was[i - 1] as int]));
                        }
                    }
                    assert forall|i: int| 0 <= i < p@.len() implies (#[trigger] p@[i])
                        < more.len() && keep(more[p@[i] as int].0, more[p@[i] as int].1) by {
                        if i < at {
                            assert(p@[i] == was[i]);
                        } else if i > at {
                            assert(p@[i] == was[i - 1]);
                        }
                    }
                    assert forall|i: int, j: int| 0 <= i < j < p@.len() implies (#[trigger] p@[i])
                        != (#[trigger] p@[j]) && le(more[p@[i] as int], more[p@[j] as int]) by {
                        let a: int = if at > i { i } else { i - 1 };
                        let b: int = if at > j { j } else { j - 1 };
                        if i != at && j != at {
                            assert(p@[i] == was[a] && p@[j] == was[b]);
                            assert(was[a] != was[b]);
                            assert(le(done[was[a] as int], done[was[b] as int]));
                        } else if i == at {
                            assert(p@[j] == was[j - 1]);
                        } else {
                            assert(p@[i] == was[i]);
                        }
                    }
                    assert forall|q: usize|
                        q < more.len() && keep(more[q as int].0, more[q as int].1) implies
                        #[trigger] p@.contains(q) by {
                        if q < r {
                            assert(was.contains(q));
                            let i = choose|i: int| 0 <= i < was.len() && was[i] == q;
                            if i < at {
                                assert(p@[i] == q);
                            } else {
                                assert(p@[i + 1] == q);
                            }
                        } else {
                            assert(p@[at as int] == q);
                        }
                    }
                }
            } else {
                proof {
                    assert forall|i: int| 0 <= i < p@.len() implies (#[trigger] p@[i])
                        < more.len() && keep(more[p@[i] as int].0, more[p@[i] as int].1) by {
                        assert(done[p@[i] as int] == more[p@[i] as int]);
                    }
                    assert forall|i: int, j: int| 0 <= i < j < p@.len() implies (#[trigger] p@[i])
                        != (#[trigger] p@[j]) && le(more[p@[i] as int], more[p@[j] as int]) by {
                        assert(le(done[p@[i] as int], done[p@[j] as int]));
                    }
                    assert forall|q: usize|
                        q < more.len() && keep(more[q as int].0, more[q as int].1) implies
                        #[trigger] p@.contains(q) by {
                        assert(done[q as int] == more[q as int]);
                    }
                }
            }
            r = r + 1;
        }
        assert(rows.take(r as int) =~= rows);
        p
    }
}

/// The rows of a map that `hit` holds of.
pub open spec fn only<K, V>(m: Map<K, V>, hit: spec_fn(K, V) -> bool) -> Map<K, V> {
    Map::new(|k: K| m.contains_key(k) && hit(k, m[k]), |k: K| m[k])
}

/// A map without the rows that `hit` holds of.
pub open spec fn without<K, V>(m: Map<K, V>, hit: spec_fn(K, V) -> bool) -> Map<K, V> {
    Map::new(|k: K| m.contains_key(k) && !hit(k, m[k]), |k: K| m[k])
}

} // verus!
