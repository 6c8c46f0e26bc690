//! One collection of the catalog: an append-only list of entities whose ids
//! are their insertion positions, counted from 1.

use crate::entity::CatalogEntry;
use vstd::prelude::*;

verus! {

/// Number of entries of `s` whose identity key is `k`.
pub open spec fn count_key<T: CatalogEntry>(s: Seq<T>, k: Seq<char>) -> nat
    decreases s.len(),
{
    if s.len() == 0 {
        0
    } else {
        count_key(s.drop_last(), k) + if s.last().key() == k {
            1nat
        } else {
            0nat
        }
    }
}

/// Whether some entry of `s` has identity key `k`.
pub open spec fn has_key<T: CatalogEntry>(s: Seq<T>, k: Seq<char>) -> bool {
    exists|i: int| 0 <= i < s.len() && #[trigger] s[i].key() == k
}

/// `i` is the first position of `s` that holds key `k`.
pub open spec fn first_with_key<T: CatalogEntry>(s: Seq<T>, k: Seq<char>, i: int) -> bool {
    &&& 0 <= i < s.len()
    &&& s[i].key() == k
    &&& forall|j: int| 0 <= j < i ==> #[trigger] s[j].key() != k
}

/// `after` is `before` with one entry of key `k` appended under id `id`.
pub open spec fn appended<T: CatalogEntry>(before: Seq<T>, k: Seq<char>, after: Seq<T>, id: int) -> bool {
    &&& id == before.len() + 1
    &&& after.len() == before.len() + 1
    &&& after.subrange(0, before.len() as int) == before
    &&& after.last().key() == k
    &&& after.last().entry_id() == Some(id as usize)
}

/// The effect of an upsert of key `k` that reported id `id`: an existing
/// entry lends its id and nothing is stored; otherwise one entry is appended.
pub open spec fn synced<T: CatalogEntry>(before: Seq<T>, k: Seq<char>, after: Seq<T>, id: int) -> bool {
    if has_key(before, k) {
        first_with_key(before, k, id - 1) && after == before
    } else {
        appended(before, k, after, id)
    }
}

pub struct Store<T> {
    items: Vec<T>,
}

impl<T: CatalogEntry> Store<T> {
    /// The entries in insertion order.
    pub closed spec fn view(&self) -> Seq<T> {
        self.items@
    }

    /// Each entry's id is its position plus one, so the next id to hand out
    /// is the length plus one.
    pub open spec fn wf(&self) -> bool {
        forall|i: int|
            0 <= i < self@.len() ==> (#[trigger] self@[i].entry_id()) is Some
                && self@[i].entry_id().unwrap() == i + 1
    }

    pub fn new() -> (r: Store<T>)
        ensures
            r@ == Seq::<T>::empty(),
            r.wf(),
    {
        Store { items: Vec::new() }
    }

    pub fn len(&self) -> (r: usize)
        ensures
            r == self@.len(),
    {
        self.items.len()
    }

    /// The entry with the given id.
    pub fn get(&self, id: usize) -> (r: Option<T>)
        requires
            self.wf(),
        ensures
            r is Some <==> 1 <= id <= self@.len(),
            r matches Some(e) ==> e.same(&self@[id - 1]) && e.key() == self@[id - 1].key()
                && e.entry_id() == Some(id),
    {
        if id >= 1 && id <= self.items.len() {
            Some(self.items[id - 1].duplicate())
        } else {
            None
        }
    }

    /// A copy of every entry, in insertion order.
    pub fn all(&self) -> (r: Vec<T>)
        ensures
            r@.len() == self@.len(),
            forall|i: int|
                0 <= i < r@.len() ==> (#[trigger] r@[i]).same(&self@[i]) && r@[i].key()
                    == self@[i].key() && r@[i].entry_id() == self@[i].entry_id(),
    {
        let mut out: Vec<T> = Vec::new();
        let mut i: usize = 0;
        while i < self.items.len()
            invariant
                i <= self@.len(),
                out@.len() == i,
                forall|j: int|
                    0 <= j < i ==> (#[trigger] out@[j]).same(&self@[j]) && out@[j].key()
                        == self@[j].key() && out@[j].entry_id() == self@[j].entry_id(),
            decreases self@.len() - i,
        {
            out.push(self.items[i].duplicate());
            i = i + 1;
        }
        out
    }

    /// Position of the first entry whose uri is `uri`.
    pub fn find(&self, uri: &String) -> (r: Option<usize>)
        ensures
            r matches Some(i) ==> first_with_key(self@, uri@, i as int),
            r is None <==> !has_key(self@, uri@),
    {
        let mut i: usize = 0;
        while i < self.items.len()
            invariant
                i <= self@.len(),
                forall|j: int| 0 <= j < i ==> #[trigger] self@[j].key() != uri@,
            decreases self@.len() - i,
        {
            if self.items[i].uri().eq(uri) {
                return Some(i);
            }
            i = i + 1;
        }
        None
    }

    /// Appends the entry unconditionally under the next id, which is also
    /// written into the caller's entry.
    pub fn add(&mut self, entry: &mut T) -> (r: usize)
        requires
            old(self).wf(),
            old(self)@.len() < usize::MAX,
        ensures
            final(self).wf(),
            r == old(self)@.len() + 1,
            *final(entry) == old(entry).with_id(Some(r)),
            appended(old(self)@, old(entry).key(), final(self)@, r as int),
            final(self)@.last().same(&*final(entry)),
    {
        let id = self.items.len() + 1;
        entry.set_id(id);
        proof {
            old(entry).lemma_with_id(Some(id));
        }
        let stored = entry.duplicate();
        self.items.push(stored);
        assert(self@.subrange(0, old(self)@.len() as int) =~= old(self)@);
        id
    }

    /// Upsert by uri: an entry already stored under the same uri keeps its
    /// fields and lends its id to the caller's entry; otherwise the entry is
    /// added under the next id.
    pub fn sync(&mut self, entry: &mut T) -> (r: usize)
        requires
            old(self).wf(),
            old(self)@.len() < usize::MAX || has_key(old(self)@, old(entry).key()),
        ensures
            final(self).wf(),
            *final(entry) == old(entry).with_id(Some(r)),
            synced(old(self)@, old(entry).key(), final(self)@, r as int),
            !has_key(old(self)@, old(entry).key()) ==> final(self)@.last().same(&*final(entry)),
    {
        proof {
            old(entry).lemma_with_id(old(entry).entry_id());
        }
        let _n = self.items.len();
        match self.find(entry.uri()) {
            Some(i) => {
                let id = i + 1;
                entry.set_id(id);
                id
            },
            None => self.add(entry),
        }
    }

    /// Appends every entry, in order, under consecutive ids following the
    /// stored ones; the ids are written back into `entries`.
    pub fn add_all(&mut self, entries: &mut Vec<T>)
        requires
            old(self).wf(),
            old(self)@.len() + old(entries)@.len() < usize::MAX,
        ensures
            final(self).wf(),
            final(entries)@.len() == old(entries)@.len(),
            final(self)@.len() == old(self)@.len() + old(entries)@.len(),
            final(self)@.subrange(0, old(self)@.len() as int) == old(self)@,
            forall|i: int|
                0 <= i < old(entries)@.len() ==> #[trigger] final(entries)@[i] == old(entries)@[i].with_id(
                    Some((old(self)@.len() + 1 + i) as usize),
                ),
            forall|i: int|
                0 <= i < old(entries)@.len() ==> (#[trigger] final(self)@[old(self)@.len() + i]).same(
                    &final(entries)@[i],
                ) && final(self)@[old(self)@.len() + i].key() == old(entries)@[i].key(),
    {
        let ghost n0 = self@.len();
        let mut i: usize = 0;
        while i < entries.len()
            invariant
                self.wf(),
                entries@.len() == old(entries)@.len(),
                i <= entries@.len(),
                n0 == old(self)@.len(),
                n0 + entries@.len() < usize::MAX,
                self@.len() == n0 + i,
                self@.subrange(0, n0 as int) == old(self)@,
                forall|j: int|
                    0 <= j < i ==> #[trigger] entries@[j] == old(entries)@[j].with_id(Some((n0 + 1 + j) as usize)),
                forall|j: int| i <= j < entries@.len() ==> #[trigger] entries@[j] == old(entries)@[j],
                forall|j: int|
                    0 <= j < i ==> (#[trigger] self@[n0 + j]).same(&entries@[j]) && self@[n0 + j].key()
                        == old(entries)@[j].key(),
            decreases entries@.len() - i,
        {
            let ghost before = self@;
            let ghost before_entries = entries@;
            let id = self.add(&mut entries[i]);
            proof {
                assert forall|j: int| 0 <= j < n0 + i implies self@[j] == before[j] by {
                    assert(self@.subrange(0, before.len() as int)[j] == self@[j]);
                }
                assert forall|j: int| 0 <= j < i + 1 implies (#[trigger] self@[n0 + j]).same(&entries@[j])
                    && self@[n0 + j].key() == old(entries)@[j].key() by {
                    if j < i {
                        assert(self@[n0 + j] == before[n0 + j]);
                        assert(entries@[j] == before_entries[j]);
                    } else {
                        assert(self@[n0 + j] == self@.last());
                    }
                }
                assert(self@.subrange(0, n0 as int) =~= old(self)@) by {
                    assert forall|j: int| 0 <= j < n0 implies self@.subrange(0, n0 as int)[j] == old(self)@[j] by {
                        assert(before.subrange(0, n0 as int)[j] == before[j]);
                    }
                }
            }
            i = i + 1;
        }
    }

    /// Upserts every entry, in order. Each caller's entry receives the id of
    /// the first stored entry with its uri; uris not stored yet are appended
    /// in input order, each once even when it repeats in the input.
    pub fn sync_all(&mut self, entries: &mut Vec<T>)
        requires
            old(self).wf(),
            old(self)@.len() + old(entries)@.len() < usize::MAX,
        ensures
            final(self).wf(),
            final(entries)@.len() == old(entries)@.len(),
            keys_of(final(self)@) == upserted(keys_of(old(self)@), old(entries)@),
            final(self)@.subrange(0, old(self)@.len() as int) == old(self)@,
            forall|i: int|
                0 <= i < old(entries)@.len() ==> {
                    &&& (#[trigger] final(entries)@[i]).entry_id() is Some
                    &&& final(entries)@[i] == old(entries)@[i].with_id(final(entries)@[i].entry_id())
                    &&& first_with_key(final(self)@, old(entries)@[i].key(), final(entries)@[i].entry_id().unwrap() - 1)
                },
            forall|i: int|
                0 <= i < old(entries)@.len() && first_in(old(entries)@, i) && !has_key(old(self)@, old(entries)@[i].key())
                    ==> final(self)@[(#[trigger] final(entries)@[i]).entry_id().unwrap() - 1].same(&final(entries)@[i]),
    {
        let ghost n0 = self@.len();
        let mut i: usize = 0;
        while i < entries.len()
            invariant
                self.wf(),
                entries@.len() == old(entries)@.len(),
                i <= entries@.len(),
                n0 == old(self)@.len(),
                n0 + entries@.len() < usize::MAX,
                n0 <= self@.len() <= n0 + i,
                self@.subrange(0, n0 as int) == old(self)@,
                keys_of(self@) == upserted(keys_of(old(self)@), old(entries)@.subrange(0, i as int)),
                forall|j: int|
                    0 <= j < i ==> {
                        &&& (#[trigger] entries@[j]).entry_id() is Some
                        &&& entries@[j] == old(entries)@[j].with_id(entries@[j].entry_id())
                        &&& first_with_key(self@, old(entries)@[j].key(), entries@[j].entry_id().unwrap() - 1)
                    },
                forall|j: int| i <= j < entries@.len() ==> #[trigger] entries@[j] == old(entries)@[j],
                forall|j: int|
                    0 <= j < i && first_in(old(entries)@, j) && !has_key(old(self)@, old(entries)@[j].key())
                        ==> self@[(#[trigger] entries@[j]).entry_id().unwrap() - 1].same(&entries@[j]),
            decreases entries@.len() - i,
        {
            let ghost before = self@;
            let ghost before_entries = entries@;
            let ghost k = old(entries)@[i as int].key();
            let id = self.sync(&mut entries[i]);
            proof {
                old(entries)@[i as int].lemma_with_id(Some(id));
                let es = old(entries)@.subrange(0, i + 1);
                assert(es.drop_last() =~= old(entries)@.subrange(0, i as int));
                assert(es.last() == old(entries)@[i as int]);
                lemma_has_key_keys(before, k);
                if !has_key(before, k) {
                    assert(keys_of(self@) =~= keys_of(before).push(k)) by {
                        assert forall|j: int| 0 <= j < before.len() implies self@[j] == before[j] by {
                            assert(self@.subrange(0, before.len() as int)[j] == self@[j]);
                        }
                    }
                    assert(self@.subrange(0, n0 as int) =~= old(self)@) by {
                        assert forall|j: int| 0 <= j < n0 implies self@.subrange(0, n0 as int)[j] == old(self)@[j] by {
                            assert(before.subrange(0, n0 as int)[j] == before[j]);
                            assert(self@.subrange(0, before.len() as int)[j] == self@[j]);
                        }
                    }
                    assert forall|j: int| 0 <= j < before.len() implies #[trigger] self@[j].key() != k by {
                        assert(self@.subrange(0, before.len() as int)[j] == self@[j]);
                    }
                    assert(first_with_key(self@, k, before.len() as int));
                }
                if first_in(old(entries)@, i as int) && !has_key(old(self)@, k) && has_key(before, k) {
                    lemma_upserted_contains(keys_of(old(self)@), old(entries)@.subrange(0, i as int), k);
                    lemma_has_key_keys(old(self)@, k);
                    if exists|j: int| 0 <= j < i && #[trigger] old(entries)@.subrange(0, i as int)[j].key() == k {
                        let j = choose|j: int| 0 <= j < i && #[trigger] old(entries)@.subrange(0, i as int)[j].key() == k;
                        assert(old(entries)@[j].key() == k);
                    }
                }
                assert forall|j: int|
                    0 <= j < i + 1 && first_in(old(entries)@, j) && !has_key(old(self)@, old(entries)@[j].key())
                        implies self@[(#[trigger] entries@[j]).entry_id().unwrap() - 1].same(&entries@[j]) by {
                    if j < i {
                        assert(entries@[j] == before_entries[j]);
                        let p = entries@[j].entry_id().unwrap() - 1;
                        assert(first_with_key(before, old(entries)@[j].key(), p));
                        if !has_key(before, k) {
                            assert(self@.subrange(0, before.len() as int)[p] == self@[p]);
                        }
                    } else {
                        assert(self@[before.len() as int] == self@.last());
                    }
                }
                assert forall|j: int| 0 <= j < i + 1 implies {
                    &&& (#[trigger] entries@[j]).entry_id() is Some
                    &&& entries@[j] == old(entries)@[j].with_id(entries@[j].entry_id())
                    &&& first_with_key(self@, old(entries)@[j].key(), entries@[j].entry_id().unwrap() - 1)
                } by {
                    if j < i {
                        assert(entries@[j] == before_entries[j]);
                        if !has_key(before, k) {
                            lemma_first_kept(before, self@, old(entries)@[j].key(), entries@[j].entry_id().unwrap() - 1);
                        }
                    }
                }
            }
            i = i + 1;
        }
        assert(old(entries)@.subrange(0, old(entries)@.len() as int) =~= old(entries)@);
    }
}

/// No entry before position `i` of `es` has the key of entry `i`.
pub open spec fn first_in<T: CatalogEntry>(es: Seq<T>, i: int) -> bool {
    forall|j: int| 0 <= j < i ==> #[trigger] es[j].key() != es[i].key()
}

/// A key held after upserting is held before, or is the key of an upserted
/// entry.
proof fn lemma_upserted_contains<T: CatalogEntry>(ks: Seq<Seq<char>>, es: Seq<T>, k: Seq<char>)
    requires
        upserted(ks, es).contains(k),
    ensures
        ks.contains(k) || exists|j: int| 0 <= j < es.len() && #[trigger] es[j].key() == k,
    decreases es.len(),
{
    if es.len() > 0 {
        let prev = upserted(ks, es.drop_last());
        if prev.contains(k) {
            lemma_upserted_contains(ks, es.drop_last(), k);
            if exists|j: int| 0 <= j < es.drop_last().len() && #[trigger] es.drop_last()[j].key() == k {
                let j = choose|j: int| 0 <= j < es.drop_last().len() && #[trigger] es.drop_last()[j].key() == k;
                assert(es[j].key() == k);
            }
        } else {
            let i = choose|i: int| 0 <= i < prev.push(es.last().key()).len() && prev.push(es.last().key())[i] == k;
            assert(i == prev.len());
            assert(es[es.len() - 1].key() == k);
        }
    }
}

/// The identity keys of `s`, in order.
pub open spec fn keys_of<T: CatalogEntry>(s: Seq<T>) -> Seq<Seq<char>> {
    s.map_values(|e: T| e.key())
}

/// The keys stored after upserting `entries`, in order, into a collection
/// holding `ks`: a key not held yet is appended, a held one changes nothing.
pub open spec fn upserted<T: CatalogEntry>(ks: Seq<Seq<char>>, entries: Seq<T>) -> Seq<Seq<char>>
    decreases entries.len(),
{
    if entries.len() == 0 {
        ks
    } else {
        let prev = upserted(ks, entries.drop_last());
        if prev.contains(entries.last().key()) {
            prev
        } else {
            prev.push(entries.last().key())
        }
    }
}

proof fn lemma_has_key_keys<T: CatalogEntry>(s: Seq<T>, k: Seq<char>)
    ensures
        has_key(s, k) <==> keys_of(s).contains(k),
{
    if has_key(s, k) {
        let i = choose|i: int| 0 <= i < s.len() && #[trigger] s[i].key() == k;
        assert(keys_of(s)[i] == k);
    }
    if keys_of(s).contains(k) {
        let i = choose|i: int| 0 <= i < keys_of(s).len() && keys_of(s)[i] == k;
        assert(s[i].key() == k);
    }
}

proof fn lemma_first_kept<T: CatalogEntry>(before: Seq<T>, after: Seq<T>, k: Seq<char>, p: int)
    requires
        first_with_key(before, k, p),
        before.len() <= after.len(),
        after.subrange(0, before.len() as int) == before,
    ensures
        first_with_key(after, k, p),
{
    assert(after[p] == after.subrange(0, before.len() as int)[p]);
    assert forall|j: int| 0 <= j < p implies #[trigger] after[j].key() != k by {
        assert(after[j] == after.subrange(0, before.len() as int)[j]);
    }
}

/// Synchronizing the same uri twice stores it at most once and reports the
/// same id both times: the second upsert changes nothing, and the number of
/// entries under that uri becomes one if there was none and stays as it was
/// otherwise.
pub proof fn lemma_sync_twice<T: CatalogEntry>(
    s0: Seq<T>,
    k: Seq<char>,
    s1: Seq<T>,
    id1: int,
    s2: Seq<T>,
    id2: int,
)
    requires
        synced(s0, k, s1, id1),
        synced(s1, k, s2, id2),
    ensures
        id1 == id2,
        s2 == s1,
        count_key(s2, k) == if count_key(s0, k) == 0 {
            1
        } else {
            count_key(s0, k)
        },
{
    if has_key(s0, k) {
        let i = choose|i: int| 0 <= i < s0.len() && #[trigger] s0[i].key() == k;
        assert(has_key(s1, k));
        lemma_count_positive(s0, k, i);
    } else {
        let n = s0.len() as int;
        assert(s1[n].key() == k);
        assert(has_key(s1, k));
        assert forall|j: int| 0 <= j < n implies #[trigger] s1[j].key() != k by {
            assert(s1.subrange(0, n)[j] == s1[j]);
        }
        assert(first_with_key(s1, k, n));
        assert(s1 =~= s0.push(s1.last()));
        assert(s1.drop_last() =~= s0);
        lemma_count_zero(s0, k);
    }
}

/// A uri held by no entry is counted zero times.
pub proof fn lemma_count_zero<T: CatalogEntry>(s: Seq<T>, k: Seq<char>)
    requires
        !has_key(s, k),
    ensures
        count_key(s, k) == 0,
    decreases s.len(),
{
    if s.len() > 0 {
        assert forall|i: int| 0 <= i < s.drop_last().len() implies #[trigger] s.drop_last()[i].key() != k by {
            assert(s.drop_last()[i] == s[i]);
        }
        lemma_count_zero(s.drop_last(), k);
        assert(s.last() == s[s.len() - 1]);
    }
}

/// A uri held by some entry is counted at least once.
pub proof fn lemma_count_positive<T: CatalogEntry>(s: Seq<T>, k: Seq<char>, i: int)
    requires
        0 <= i < s.len(),
        s[i].key() == k,
    ensures
        count_key(s, k) > 0,
    decreases s.len(),
{
    if i < s.len() - 1 {
        assert(s.drop_last()[i] == s[i]);
        lemma_count_positive(s.drop_last(), k, i);
    }
}

/// Ids handed out by two successive insertions strictly increase, and the
/// first insertion into an empty collection receives id 1. An upsert that
/// stores a new entry is such an insertion too.
pub proof fn lemma_successive_ids<T: CatalogEntry>(
    s0: Seq<T>,
    k1: Seq<char>,
    s1: Seq<T>,
    id1: int,
    k2: Seq<char>,
    s2: Seq<T>,
    id2: int,
)
    requires
        appended(s0, k1, s1, id1),
        appended(s1, k2, s2, id2),
    ensures
        id1 < id2,
        s0.len() == 0 ==> id1 == 1,
        s2.subrange(0, s0.len() as int) == s0,
{
    assert(s2.subrange(0, s0.len() as int) =~= s1.subrange(0, s0.len() as int));
}

/// Inserting entries one after another into an empty collection hands out
/// the ids 1, 2, ..., n in call order: they start at 1, strictly increase
/// and never repeat. `states[i]` is the collection before the `i`-th
/// insertion, which stored key `keys[i]` under id `ids[i]`.
pub proof fn lemma_insertions_from_empty<T: CatalogEntry>(
    states: Seq<Seq<T>>,
    keys: Seq<Seq<char>>,
    ids: Seq<int>,
)
    requires
        states.len() == ids.len() + 1,
        keys.len() == ids.len(),
        states[0].len() == 0,
        forall|i: int| 0 <= i < ids.len() ==> #[trigger] appended(states[i], keys[i], states[i + 1], ids[i]),
    ensures
        forall|i: int| 0 <= i < ids.len() ==> #[trigger] ids[i] == i + 1,
        states[ids.len() as int].len() == ids.len(),
{
    assert forall|i: int| 0 <= i < ids.len() implies #[trigger] ids[i] == i + 1 by {
        lemma_insertion_count(states, keys, ids, i);
    }
    if ids.len() > 0 {
        lemma_insertion_count(states, keys, ids, ids.len() - 1);
        assert(appended(states[ids.len() - 1], keys[ids.len() - 1], states[ids.len() as int], ids[ids.len() - 1]));
    }
}

proof fn lemma_insertion_count<T: CatalogEntry>(states: Seq<Seq<T>>, keys: Seq<Seq<char>>, ids: Seq<int>, i: int)
    requires
        states.len() == ids.len() + 1,
        keys.len() == ids.len(),
        states[0].len() == 0,
        forall|j: int| 0 <= j < ids.len() ==> #[trigger] appended(states[j], keys[j], states[j + 1], ids[j]),
        0 <= i < ids.len(),
    ensures
        states[i].len() == i,
        ids[i] == i + 1,
    decreases i,
{
    assert(appended(states[i], keys[i], states[i + 1], ids[i]));
    if i > 0 {
        lemma_insertion_count(states, keys, ids, i - 1);
        assert(appended(states[i - 1], keys[i - 1], states[i], ids[i - 1]));
    }
}

/// Ids in a well-formed collection are 1, 2, 3, ... in insertion order: they
/// strictly increase and never repeat.
pub proof fn lemma_ids_strictly_increasing<T: CatalogEntry>(s: Store<T>)
    requires
        s.wf(),
    ensures
        s@.len() > 0 ==> s@[0].entry_id() == Some(1usize),
        forall|i: int, j: int|
            0 <= i < j < s@.len() ==> (#[trigger] s@[i].entry_id()).unwrap() < (
            #[trigger] s@[j].entry_id()).unwrap(),
{
    assert forall|i: int, j: int| 0 <= i < j < s@.len() implies (
    #[trigger] s@[i].entry_id()).unwrap() < (#[trigger] s@[j].entry_id()).unwrap() by {
        assert(s@[i].entry_id().unwrap() == i + 1);
        assert(s@[j].entry_id().unwrap() == j + 1);
    }
}

/// The tracks of `s` whose title contains `query`, in order.
pub open spec fn matching_tracks(s: Seq<crate::entity::Track>, query: Seq<char>) -> Seq<crate::entity::Track> {
    s.filter(|t: crate::entity::Track| contains_text(t.title@, query))
}

impl Store<crate::entity::Track> {
    /// The tracks whose title contains `query`, in insertion order.
    pub fn search(&self, query: &String) -> (r: Vec<crate::entity::Track>)
        ensures
            r@ == matching_tracks(self@, query@),
    {
        let mut out: Vec<crate::entity::Track> = Vec::new();
        let mut i: usize = 0;
        while i < self.items.len()
            invariant
                i <= self@.len(),
                out@ == self@.subrange(0, i as int).filter(
                    |t: crate::entity::Track| contains_text(t.title@, query@),
                ),
            decreases self@.len() - i,
        {
            let t = &self.items[i];
            proof {
                reveal(Seq::filter);
                assert(self@.subrange(0, i + 1).drop_last() =~= self@.subrange(0, i as int));
                assert(self@.subrange(0, i + 1).last() == self@[i as int]);
            }
            if text_contains(&t.title, query) {
                out.push(t.clone());
            }
            i = i + 1;
        }
        assert(self@.subrange(0, self@.len() as int) =~= self@);
        out
    }
}

/// `q` occurs in `t` starting at position `i`.
pub open spec fn occurs_at(t: Seq<char>, q: Seq<char>, i: int) -> bool {
    0 <= i && i + q.len() <= t.len() && t.subrange(i, i + q.len()) == q
}

/// `q` is a substring of `t`; case matters.
pub open spec fn contains_text(t: Seq<char>, q: Seq<char>) -> bool {
    exists|i: int| occurs_at(t, q, i)
}

/// Whether `q` occurs at position `i` of `t`.
fn matches_at(t: &String, q: &String, i: usize, n: usize, m: usize) -> (r: bool)
    requires
        n == t@.len(),
        m == q@.len(),
        i + m <= n,
    ensures
        r == occurs_at(t@, q@, i as int),
{
    let mut j: usize = 0;
    while j < m
        invariant
            n == t@.len(),
            m == q@.len(),
            i + m <= n,
            j <= m,
            t@.subrange(i as int, i + j) == q@.subrange(0, j as int),
        decreases m - j,
    {
        if t.as_str().get_char(i + j) != q.as_str().get_char(j) {
            assert(t@.subrange(i as int, i + m)[j as int] == t@[i + j]);
            return false;
        }
        assert(t@.subrange(i as int, i + j + 1) =~= t@.subrange(i as int, i + j).push(t@[i + j]));
        assert(q@.subrange(0, j + 1) =~= q@.subrange(0, j as int).push(q@[j as int]));
        j = j + 1;
    }
    assert(q@.subrange(0, m as int) =~= q@);
    true
}

/// Case-sensitive substring test.
pub fn text_contains(t: &String, q: &String) -> (r: bool)
    ensures
        r == contains_text(t@, q@),
{
    let n = t.as_str().unicode_len();
    let m = q.as_str().unicode_len();
    if m > n {
        return false;
    }
    if m == 0 {
        assert(t@.subrange(0, 0) =~= q@);
        assert(occurs_at(t@, q@, 0));
        return true;
    }
    let mut i: usize = 0;
    while i <= n - m
        invariant
            n == t@.len(),
            m == q@.len(),
            1 <= m <= n,
            i <= n - m + 1,
            forall|p: int| 0 <= p < i ==> !occurs_at(t@, q@, p),
        decreases n - m + 1 - i,
    {
        if matches_at(t, q, i, n, m) {
            return true;
        }
        i = i + 1;
    }
    false
}

} // verus!
