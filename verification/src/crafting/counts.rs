//! Item counts keyed by item id, kept sorted by id so that iteration order
//! and equality are those of an ordered map.
use vstd::prelude::*;
use crate::text::{seq_lt, str_lt, str_equal, lemma_seq_lt_irreflexive, lemma_seq_lt_transitive,
    lemma_seq_lt_total, lemma_seq_lt_asymmetric};

verus! {

/// Whether the entries' ids are strictly increasing.
pub open spec fn ids_sorted(e: Seq<(String, u32)>) -> bool {
    forall|i: int, j: int| 0 <= i < j < e.len() ==> seq_lt(#[trigger] e[i].0@, #[trigger] e[j].0@)
}

/// Whether some entry has id `k`.
pub open spec fn has_id(e: Seq<(String, u32)>, k: Seq<char>) -> bool {
    exists|i: int| 0 <= i < e.len() && (#[trigger] e[i]).0@ == k
}

/// An entry with id `k`, where there is one.
pub open spec fn index_of_id(e: Seq<(String, u32)>, k: Seq<char>) -> int {
    choose|i: int| 0 <= i < e.len() && (#[trigger] e[i]).0@ == k
}

/// The entries read as a map from id to count.
pub open spec fn entries_map(e: Seq<(String, u32)>) -> Map<Seq<char>, u32> {
    Map::new(|k: Seq<char>| has_id(e, k), |k: Seq<char>| e[index_of_id(e, k)].1)
}

/// In sorted entries, entry `i` is what the map holds under its id.
pub proof fn lemma_entry_in_map(e: Seq<(String, u32)>, i: int)
    requires
        ids_sorted(e),
        0 <= i < e.len(),
    ensures
        entries_map(e).dom().contains(e[i].0@),
        entries_map(e)[e[i].0@] == e[i].1,
{
    let k = e[i].0@;
    assert(has_id(e, k));
    let j = index_of_id(e, k);
    if j < i {
        assert(seq_lt(e[j].0@, e[i].0@));
        lemma_seq_lt_irreflexive(k);
    } else if i < j {
        assert(seq_lt(e[i].0@, e[j].0@));
        lemma_seq_lt_irreflexive(k);
    }
    assert(j == i);
    assert(entries_map(e).dom().contains(k));
    assert(entries_map(e)[k] == e[j].1);
}

/// Counts of items by id.
#[derive(Debug, PartialEq, Eq)]
pub struct ItemCounts {
    entries: Vec<(String, u32)>,
}

impl Clone for ItemCounts {
    fn clone(&self) -> (c: Self)
        ensures
            c@ == self@,
    {
        proof {
            use_type_invariant(self);
        }
        let mut entries: Vec<(String, u32)> = Vec::new();
        let mut i: usize = 0;
        while i < self.entries.len()
            invariant
                i <= self.entries@.len(),
                entries@ == self.entries@.take(i as int),
            decreases self.entries@.len() - i,
        {
            let id = self.entries[i].0.clone();
            entries.push((id, self.entries[i].1));
            proof {
                assert(self.entries@.take(i + 1) =~= self.entries@.take(i as int).push(self.entries@[i as int]));
            }
            i = i + 1;
        }
        proof {
            assert(self.entries@.take(self.entries@.len() as int) =~= self.entries@);
        }
        ItemCounts { entries }
    }
}

impl Default for ItemCounts {
    fn default() -> (c: Self)
        ensures
            c@ == Map::<Seq<char>, u32>::empty(),
    {
        ItemCounts::new()
    }
}

impl View for ItemCounts {
    type V = Map<Seq<char>, u32>;

    closed spec fn view(&self) -> Map<Seq<char>, u32> {
        entries_map(self.entries@)
    }
}

/// The count under `k`, zero when there is none.
pub open spec fn count_of(m: Map<Seq<char>, u32>, k: Seq<char>) -> u32 {
    if m.dom().contains(k) {
        m[k]
    } else {
        0
    }
}

impl ItemCounts {
    #[verifier::type_invariant]
    closed spec fn sorted(self) -> bool {
        ids_sorted(self.entries@)
    }

    /// No counts at all.
    pub fn new() -> (c: Self)
        ensures
            c@ == Map::<Seq<char>, u32>::empty(),
    {
        let c = ItemCounts { entries: Vec::new() };
        assert(c@ =~= Map::<Seq<char>, u32>::empty());
        c
    }

    /// Where `id` is, or would be inserted, in the sorted entries.
    fn position(&self, id: &str) -> (r: (usize, bool))
        ensures
            r.0 <= self.entries@.len(),
            forall|i: int| 0 <= i < r.0 ==> seq_lt(#[trigger] self.entries@[i].0@, id@),
            r.1 ==> r.0 < self.entries@.len() && self.entries@[r.0 as int].0@ == id@,
            !r.1 && r.0 < self.entries@.len() ==> seq_lt(id@, self.entries@[r.0 as int].0@),
    {
        proof {
            use_type_invariant(self);
        }
        let mut p: usize = 0;
        while p < self.entries.len()
            invariant
                p <= self.entries@.len(),
                forall|i: int| 0 <= i < p ==> seq_lt(#[trigger] self.entries@[i].0@, id@),
            decreases self.entries@.len() - p,
        {
            if !str_lt(self.entries[p].0.as_str(), id) {
                if str_equal(self.entries[p].0.as_str(), id) {
                    return (p, true);
                }
                proof {
                    lemma_seq_lt_total(self.entries@[p as int].0@, id@);
                }
                return (p, false);
            }
            p = p + 1;
        }
        (p, false)
    }

    /// The count under `id`, zero when there is none.
    pub fn get(&self, id: &str) -> (n: u32)
        ensures
            n == count_of(self@, id@),
    {
        proof {
            use_type_invariant(self);
        }
        let (p, found) = self.position(id);
        if found {
            proof {
                lemma_entry_in_map(self.entries@, p as int);
            }
            self.entries[p].1
        } else {
            proof {
                self.lemma_absent(id@, p as int);
            }
            0
        }
    }

    /// Whether there is an entry under `id` (possibly a zero count).
    pub fn contains_key(&self, id: &str) -> (r: bool)
        ensures
            r == self@.dom().contains(id@),
    {
        proof {
            use_type_invariant(self);
        }
        let (p, found) = self.position(id);
        proof {
            if found {
                lemma_entry_in_map(self.entries@, p as int);
            } else {
                self.lemma_absent(id@, p as int);
            }
        }
        found
    }

    /// An id that sorts after every entry before `p` and before every entry
    /// from `p` on has no entry.
    proof fn lemma_absent(&self, k: Seq<char>, p: int)
        requires
            ids_sorted(self.entries@),
            0 <= p <= self.entries@.len(),
            forall|i: int| 0 <= i < p ==> seq_lt(#[trigger] self.entries@[i].0@, k),
            p < self.entries@.len() ==> seq_lt(k, self.entries@[p].0@),
        ensures
            !self@.dom().contains(k),
    {
        let e = self.entries@;
        if has_id(e, k) {
            let j = choose|j: int| 0 <= j < e.len() && (#[trigger] e[j]).0@ == k;
            if j < p {
                assert(seq_lt(e[j].0@, k));
                lemma_seq_lt_irreflexive(k);
            } else {
                if j > p {
                    assert(seq_lt(e[p].0@, e[j].0@));
                    lemma_seq_lt_transitive(k, e[p].0@, k);
                }
                lemma_seq_lt_irreflexive(k);
            }
        }
    }

    /// Sets the count under `id` to `n`.
    pub fn insert(&mut self, id: String, n: u32)
        ensures
            final(self)@ == old(self)@.insert(id@, n),
    {
        proof {
            use_type_invariant(&*self);
        }
        let (p, found) = self.position(id.as_str());
        let ghost e = self.entries@;
        let ghost k = id@;
        let mut entries: Vec<(String, u32)> = Vec::new();
        std::mem::swap(&mut entries, &mut self.entries);
        if found {
            entries.set(p, (id, n));
            proof {
                let e2 = entries@;
                assert(e2 =~= e.update(p as int, (e2[p as int].0, n)));
                assert forall|a: int, b: int| 0 <= a < b < e2.len() implies seq_lt(#[trigger] e2[a].0@, #[trigger] e2[b].0@) by {
                    assert(e2[a].0@ == e[a].0@);
                    assert(e2[b].0@ == e[b].0@);
                }
                assert(ids_sorted(e2));
                lemma_entry_in_map(e2, p as int);
                assert forall|q: Seq<char>| q != k implies (has_id(e, q) == has_id(e2, q)) by {
                    if has_id(e, q) {
                        let j = choose|j: int| 0 <= j < e.len() && (#[trigger] e[j]).0@ == q;
                        assert(e2[j].0@ == q);
                    }
                    if has_id(e2, q) {
                        let j = choose|j: int| 0 <= j < e2.len() && (#[trigger] e2[j]).0@ == q;
                        assert(e[j].0@ == q);
                    }
                }
                assert forall|q: Seq<char>| q != k && has_id(e, q) implies entries_map(e2)[q] == entries_map(e)[q] by {
                    let j = choose|j: int| 0 <= j < e.len() && (#[trigger] e[j]).0@ == q;
                    lemma_entry_in_map(e, j);
                    assert(e2[j].0@ == q);
                    lemma_entry_in_map(e2, j);
                }
                assert(entries_map(e2) =~= entries_map(e).insert(k, n));
            }
        } else {
            entries.insert(p, (id, n));
            proof {
                let e2 = entries@;
                assert(e2 =~= e.insert(p as int, (e2[p as int].0, n)));
                assert forall|a: int, b: int| 0 <= a < b < e2.len() implies seq_lt(#[trigger] e2[a].0@, #[trigger] e2[b].0@) by {
                    if b < p {
                    } else if a < p && b == p {
                    } else if a < p {
                        assert(e2[b].0@ == e[b - 1].0@);
                        assert(seq_lt(e[p as int].0@, e[b - 1].0@) || p == b - 1);
                        lemma_seq_lt_transitive(e[a].0@, k, e[p as int].0@);
                        if p != b - 1 {
                            lemma_seq_lt_transitive(e[a].0@, e[p as int].0@, e[b - 1].0@);
                        }
                    } else if a == p {
                        assert(e2[b].0@ == e[b - 1].0@);
                        if p != b - 1 {
                            assert(seq_lt(e[p as int].0@, e[b - 1].0@));
                            lemma_seq_lt_transitive(k, e[p as int].0@, e[b - 1].0@);
                        }
                    } else {
                        assert(e2[a].0@ == e[a - 1].0@);
                        assert(e2[b].0@ == e[b - 1].0@);
                    }
                }
                assert(ids_sorted(e2));
                lemma_entry_in_map(e2, p as int);
                assert forall|q: Seq<char>| q != k implies (has_id(e, q) == has_id(e2, q)) by {
                    if has_id(e, q) {
                        let j = choose|j: int| 0 <= j < e.len() && (#[trigger] e[j]).0@ == q;
                        if j < p {
                            assert(e2[j].0@ == q);
                        } else {
                            assert(e2[j + 1].0@ == q);
                        }
                    }
                    if has_id(e2, q) {
                        let j = choose|j: int| 0 <= j < e2.len() && (#[trigger] e2[j]).0@ == q;
                        if j < p {
                            assert(e[j].0@ == q);
                        } else if j > p {
                            assert(e[j - 1].0@ == q);
                        }
                    }
                }
                assert forall|q: Seq<char>| q != k && has_id(e, q) implies entries_map(e2)[q] == entries_map(e)[q] by {
                    let j = choose|j: int| 0 <= j < e.len() && (#[trigger] e[j]).0@ == q;
                    lemma_entry_in_map(e, j);
                    if j < p {
                        assert(e2[j].0@ == q);
                        lemma_entry_in_map(e2, j);
                    } else {
                        assert(e2[j + 1].0@ == q);
                        lemma_entry_in_map(e2, j + 1);
                    }
                }
                assert(entries_map(e2) =~= entries_map(e).insert(k, n));
            }
        }
        self.entries = entries;
    }

    /// Removes the entry under `id`, if any.
    pub fn remove(&mut self, id: &str)
        ensures
            final(self)@ == old(self)@.remove(id@),
    {
        proof {
            use_type_invariant(&*self);
        }
        let (p, found) = self.position(id);
        let ghost e = self.entries@;
        let ghost k = id@;
        if found {
            let mut entries: Vec<(String, u32)> = Vec::new();
            std::mem::swap(&mut entries, &mut self.entries);
            entries.remove(p);
            proof {
                let e2 = entries@;
                assert(e2 =~= e.remove(p as int));
                assert forall|a: int, b: int| 0 <= a < b < e2.len() implies seq_lt(#[trigger] e2[a].0@, #[trigger] e2[b].0@) by {
                    if b < p {
                    } else if a < p {
                        assert(e2[b].0@ == e[b + 1].0@);
                    } else {
                        assert(e2[a].0@ == e[a + 1].0@);
                        assert(e2[b].0@ == e[b + 1].0@);
                    }
                }
                assert(ids_sorted(e2));
                if has_id(e2, k) {
                    let j = choose|j: int| 0 <= j < e2.len() && (#[trigger] e2[j]).0@ == k;
                    if j < p {
                        assert(seq_lt(e[j].0@, e[p as int].0@));
                    } else {
                        assert(e2[j].0@ == e[j + 1].0@);
                        assert(seq_lt(e[p as int].0@, e[j + 1].0@));
                    }
                    lemma_seq_lt_irreflexive(k);
                }
                assert forall|q: Seq<char>| q != k implies (has_id(e, q) == has_id(e2, q)) by {
                    if has_id(e, q) {
                        let j = choose|j: int| 0 <= j < e.len() && (#[trigger] e[j]).0@ == q;
                        if j < p {
                            assert(e2[j].0@ == q);
                        } else {
                            assert(e2[j - 1].0@ == q);
                        }
                    }
                    if has_id(e2, q) {
                        let j = choose|j: int| 0 <= j < e2.len() && (#[trigger] e2[j]).0@ == q;
                        if j < p {
                            assert(e[j].0@ == q);
                        } else {
                            assert(e[j + 1].0@ == q);
                        }
                    }
                }
                assert forall|q: Seq<char>| q != k && has_id(e, q) implies entries_map(e2)[q] == entries_map(e)[q] by {
                    let j = choose|j: int| 0 <= j < e.len() && (#[trigger] e[j]).0@ == q;
                    lemma_entry_in_map(e, j);
                    if j < p {
                        assert(e2[j].0@ == q);
                        lemma_entry_in_map(e2, j);
                    } else {
                        assert(e2[j - 1].0@ == q);
                        lemma_entry_in_map(e2, j - 1);
                    }
                }
                assert(entries_map(e2) =~= entries_map(e).remove(k));
            }
            self.entries = entries;
        } else {
            proof {
                self.lemma_absent(k, p as int);
                assert(self@ =~= self@.remove(k));
            }
        }
    }

    /// Adds `amount` to the count under `id`, starting from zero.
    pub fn add(&mut self, id: String, amount: u32)
        requires
            count_of(old(self)@, id@) + amount <= u32::MAX,
        ensures
            final(self)@ == old(self)@.insert(id@, (count_of(old(self)@, id@) + amount) as u32),
    {
        let held = self.get(id.as_str());
        self.insert(id, held + amount);
    }

    /// How many ids have an entry.
    pub closed spec fn size(&self) -> nat {
        self.entries@.len()
    }

    /// How many ids have an entry.
    pub fn len(&self) -> (n: usize)
        ensures
            n == self.size(),
    {
        self.entries.len()
    }

    /// Whether there are no entries.
    pub fn is_empty(&self) -> (r: bool)
        ensures
            r == (self@.dom() =~= Set::<Seq<char>>::empty()),
    {
        proof {
            use_type_invariant(self);
            if self.entries@.len() > 0 {
                lemma_entry_in_map(self.entries@, 0);
            }
        }
        self.entries.len() == 0
    }

    /// The entry at position `i` in id order: its id and count.
    pub fn entry(&self, i: usize) -> (r: (&String, u32))
        requires
            i < self.size(),
        ensures
            self@.dom().contains(r.0@),
            self@[r.0@] == r.1,
    {
        proof {
            use_type_invariant(self);
            lemma_entry_in_map(self.entries@, i as int);
        }
        (&self.entries[i].0, self.entries[i].1)
    }
}

/// Counts built from `(id, count)` pairs, a later pair for the same id
/// replacing an earlier one.
pub open spec fn pairs_map(pairs: Seq<(&str, u32)>) -> Map<Seq<char>, u32>
    decreases pairs.len(),
{
    if pairs.len() == 0 {
        Map::empty()
    } else {
        pairs_map(pairs.drop_last()).insert(pairs.last().0@, pairs.last().1)
    }
}

impl ItemCounts {
    /// Counts holding the given `(id, count)` pairs.
    pub fn from_pairs(pairs: &[(&str, u32)]) -> (c: Self)
        ensures
            c@ == pairs_map(pairs@),
    {
        let mut c = ItemCounts::new();
        let mut i: usize = 0;
        while i < pairs.len()
            invariant
                i <= pairs@.len(),
                c@ == pairs_map(pairs@.take(i as int)),
            decreases pairs@.len() - i,
        {
            let (id, n) = pairs[i];
            c.insert(id.to_owned(), n);
            proof {
                assert(pairs@.take(i + 1).drop_last() =~= pairs@.take(i as int));
            }
            i = i + 1;
        }
        proof {
            assert(pairs@.take(pairs@.len() as int) =~= pairs@);
        }
        c
    }
}

} // verus!
