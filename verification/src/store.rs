//! The ledger store: an ordered string-keyed map, the persistence
//! abstraction every entity of the registry lives in.  Entries are kept
//! sorted by key so that range scans enumerate keys in ascending order.

use vstd::prelude::*;
use vstd::pervasive::VecAdditionalExecFns;

use crate::order::{
    lemma_seq_lt_irreflexive, lemma_seq_lt_total, lemma_seq_lt_transitive, seq_lt, str_eq, str_lt,
};

verus! {

/// The map abstraction of a sequence of entries: later entries win, though a
/// well-formed store never holds a key twice.
pub open spec fn map_of<V>(s: Seq<(String, V)>) -> Map<Seq<char>, V>
    decreases s.len(),
{
    if s.len() == 0 {
        Map::empty()
    } else {
        map_of(s.drop_last()).insert(s.last().0@, s.last().1)
    }
}

pub proof fn lemma_map_of_contains<V>(s: Seq<(String, V)>, k: Seq<char>)
    ensures
        map_of(s).contains_key(k) <==> exists|i: int| 0 <= i < s.len() && s[i].0@ == k,
    decreases s.len(),
{
    if s.len() > 0 {
        lemma_map_of_contains(s.drop_last(), k);
        if map_of(s).contains_key(k) {
            if s.last().0@ == k {
                assert(s[s.len() - 1].0@ == k);
            } else {
                let i = choose|i: int| 0 <= i < s.drop_last().len() && s.drop_last()[i].0@ == k;
                assert(s[i].0@ == k);
            }
        }
        if exists|i: int| 0 <= i < s.len() && s[i].0@ == k {
            let i = choose|i: int| 0 <= i < s.len() && s[i].0@ == k;
            if i < s.len() - 1 {
                assert(s.drop_last()[i].0@ == k);
            }
        }
    }
}

/// With no later duplicate of the key at `i`, lookup returns that entry.
pub proof fn lemma_map_of_index<V>(s: Seq<(String, V)>, i: int)
    requires
        0 <= i < s.len(),
        forall|j: int| i < j < s.len() ==> s[j].0@ != s[i].0@,
    ensures
        map_of(s).contains_key(s[i].0@),
        map_of(s)[s[i].0@] == s[i].1,
    decreases s.len(),
{
    if i == s.len() - 1 {
    } else {
        assert(s.drop_last()[i] == s[i]);
        lemma_map_of_index(s.drop_last(), i);
    }
}

pub proof fn lemma_map_of_push<V>(s: Seq<(String, V)>, e: (String, V))
    ensures
        map_of(s.push(e)) == map_of(s).insert(e.0@, e.1),
{
    assert(s.push(e).drop_last() =~= s);
    assert(s.push(e).last() == e);
}

/// Replacing the value of the entry at `i` (same key) updates the map.
pub proof fn lemma_map_of_update<V>(s: Seq<(String, V)>, i: int, e: (String, V))
    requires
        0 <= i < s.len(),
        e.0@ == s[i].0@,
        forall|a: int, b: int| 0 <= a < b < s.len() ==> s[a].0@ != s[b].0@,
    ensures
        map_of(s.update(i, e)) == map_of(s).insert(e.0@, e.1),
    decreases s.len(),
{
    let s2 = s.update(i, e);
    if i == s.len() - 1 {
        assert(s2.drop_last() =~= s.drop_last());
        assert(s2.last() == e);
        assert(map_of(s2) == map_of(s.drop_last()).insert(e.0@, e.1));
        assert(map_of(s.drop_last()).insert(s.last().0@, s.last().1).insert(e.0@, e.1) =~= map_of(
            s.drop_last(),
        ).insert(e.0@, e.1));
    } else {
        assert(s2.drop_last() =~= s.drop_last().update(i, e));
        assert(s2.last() == s.last());
        assert(forall|a: int, b: int|
            0 <= a < b < s.drop_last().len() ==> s.drop_last()[a].0@ != s.drop_last()[b].0@);
        assert(s.drop_last()[i] == s[i]);
        lemma_map_of_update(s.drop_last(), i, e);
        // the last key differs from e.0@, so the two inserts commute
        assert(s.last().0@ != e.0@);
        assert(map_of(s.drop_last()).insert(e.0@, e.1).insert(s.last().0@, s.last().1) =~= map_of(
            s.drop_last(),
        ).insert(s.last().0@, s.last().1).insert(e.0@, e.1));
    }
}

/// Inserting an entry under a fresh key anywhere in the sequence inserts it
/// into the map.
pub proof fn lemma_map_of_insert_at<V>(s: Seq<(String, V)>, i: int, e: (String, V))
    requires
        0 <= i <= s.len(),
        forall|j: int| 0 <= j < s.len() ==> s[j].0@ != e.0@,
    ensures
        map_of(s.insert(i, e)) == map_of(s).insert(e.0@, e.1),
    decreases s.len(),
{
    s.insert_ensures(i, e);
    let s2 = s.insert(i, e);
    if i == s.len() {
        assert(s2 =~= s.push(e));
        lemma_map_of_push(s, e);
    } else {
        assert(s2.len() == s.len() + 1);
        assert(s2.last() == s[s.len() - 1]);
        assert(s2.drop_last() =~= s.drop_last().insert(i, e)) by {
            s.drop_last().insert_ensures(i, e);
        }
        assert(forall|j: int|
            0 <= j < s.drop_last().len() ==> s.drop_last()[j].0@ != e.0@);
        lemma_map_of_insert_at(s.drop_last(), i, e);
        assert(s.last().0@ != e.0@);
        assert(map_of(s.drop_last()).insert(e.0@, e.1).insert(s.last().0@, s.last().1) =~= map_of(
            s.drop_last(),
        ).insert(s.last().0@, s.last().1).insert(e.0@, e.1));
        assert(map_of(s) == map_of(s.drop_last()).insert(s.last().0@, s.last().1));
    }
}

/// An ordered map from string keys to values, the shape of every table of
/// the ledger store.  Keys are unique and kept in ascending lexicographic
/// order.
pub struct StrMap<V> {
    entries: Vec<(String, V)>,
}

impl<V> View for StrMap<V> {
    type V = Map<Seq<char>, V>;

    closed spec fn view(&self) -> Map<Seq<char>, V> {
        map_of(self.entries@)
    }
}

impl<V> StrMap<V> {
    /// The keys in storage order (ascending when well formed).
    pub closed spec fn key_seq(self) -> Seq<Seq<char>> {
        self.entries@.map_values(|e: (String, V)| e.0@)
    }

    /// The values in storage order, aligned with `key_seq`.
    pub closed spec fn val_seq(self) -> Seq<V> {
        self.entries@.map_values(|e: (String, V)| e.1)
    }

    pub open spec fn spec_len(self) -> nat {
        self.key_seq().len()
    }

    /// Entries are sorted strictly ascending by key.
    pub open spec fn wf(self) -> bool {
        forall|i: int, j: int|
            0 <= i < j < self.key_seq().len() ==> seq_lt(
                #[trigger] self.key_seq()[i],
                #[trigger] self.key_seq()[j],
            )
    }

    /// The storage position of a present key.
    pub open spec fn key_index(self, k: Seq<char>) -> int {
        choose|i: int| 0 <= i < self.key_seq().len() && self.key_seq()[i] == k
    }

    /// Keys and values line up slot for slot.
    pub proof fn lemma_lens(self)
        ensures
            self.key_seq().len() == self.val_seq().len(),
    {
    }

    /// A well-formed store holds no key twice.
    pub proof fn lemma_distinct(self)
        requires
            self.wf(),
        ensures
            forall|i: int, j: int|
                0 <= i < j < self.key_seq().len() ==> self.key_seq()[i] != self.key_seq()[j],
    {
        assert forall|i: int, j: int|
            0 <= i < j < self.key_seq().len() implies self.key_seq()[i] != self.key_seq()[j] by {
            lemma_seq_lt_irreflexive(self.key_seq()[i]);
        }
    }

    /// Each storage slot is the map entry for its key, and the domain is
    /// exactly the stored keys.
    pub proof fn lemma_entries(self)
        requires
            self.wf(),
        ensures
            forall|i: int|
                0 <= i < self.key_seq().len() ==> self@.contains_key(#[trigger] self.key_seq()[i])
                    && self@[self.key_seq()[i]] == self.val_seq()[i],
            forall|k: Seq<char>|
                self@.contains_key(k) ==> exists|i: int|
                    0 <= i < self.key_seq().len() && self.key_seq()[i] == k,
    {
        self.lemma_distinct();
        assert forall|i: int| 0 <= i < self.key_seq().len() implies self@.contains_key(
            #[trigger] self.key_seq()[i],
        ) && self@[self.key_seq()[i]] == self.val_seq()[i] by {
            assert forall|j: int| i < j < self.entries@.len() implies self.entries@[j].0@
                != self.entries@[i].0@ by {
                assert(self.key_seq()[j] == self.entries@[j].0@);
                assert(self.key_seq()[i] == self.entries@[i].0@);
            }
            lemma_map_of_index(self.entries@, i);
        }
        assert forall|k: Seq<char>| self@.contains_key(k) implies exists|i: int|
            0 <= i < self.key_seq().len() && self.key_seq()[i] == k by {
            lemma_map_of_contains(self.entries@, k);
            let i = choose|i: int| 0 <= i < self.entries@.len() && self.entries@[i].0@ == k;
            assert(self.key_seq()[i] == k);
        }
    }

    /// The slot of a present key holds its map value.
    pub proof fn lemma_key_index(self, k: Seq<char>)
        requires
            self.wf(),
            self@.contains_key(k),
        ensures
            0 <= self.key_index(k) < self.key_seq().len(),
            self.key_seq()[self.key_index(k)] == k,
            self.val_seq()[self.key_index(k)] == self@[k],
    {
        self.lemma_entries();
        let i = choose|i: int| 0 <= i < self.key_seq().len() && self.key_seq()[i] == k;
        assert(self.key_seq()[self.key_index(k)] == k);
    }

    pub fn new() -> (m: Self)
        ensures
            m@ == Map::<Seq<char>, V>::empty(),
            m.wf(),
            m.key_seq() == Seq::<Seq<char>>::empty(),
            m.val_seq() == Seq::<V>::empty(),
    {
        let m = StrMap { entries: Vec::new() };
        proof {
            assert(m.key_seq() =~= Seq::<Seq<char>>::empty());
            assert(m.val_seq() =~= Seq::<V>::empty());
        }
        m
    }

    pub fn len(&self) -> (n: usize)
        ensures
            n == self.spec_len(),
    {
        self.entries.len()
    }

    pub fn key_at(&self, i: usize) -> (k: &String)
        requires
            i < self.spec_len(),
        ensures
            k@ == self.key_seq()[i as int],
    {
        &self.entries[i].0
    }

    pub fn val_at(&self, i: usize) -> (v: &V)
        requires
            i < self.spec_len(),
        ensures
            *v == self.val_seq()[i as int],
    {
        &self.entries[i].1
    }

    pub fn get(&self, k: &String) -> (r: Option<&V>)
        requires
            self.wf(),
        ensures
            match r {
                Some(v) => self@.contains_key(k@) && *v == self@[k@],
                None => !self@.contains_key(k@),
            },
    {
        let n = self.entries.len();
        let mut i: usize = 0;
        loop
            invariant
                i <= n,
                n == self.spec_len(),
                self.wf(),
                forall|j: int| 0 <= j < i ==> self.key_seq()[j] != k@,
            decreases n - i,
        {
            if i >= n {
                proof {
                    assert forall|j: int| 0 <= j < self.entries@.len() implies self.entries@[j].0@
                        != k@ by {
                        assert(self.key_seq()[j] == self.entries@[j].0@);
                    }
                    lemma_map_of_contains(self.entries@, k@);
                }
                return None;
            }
            if str_eq(&self.entries[i].0, k) {
                proof {
                    self.lemma_entries();
                    assert(self.key_seq()[i as int] == k@);
                }
                return Some(&self.entries[i].1);
            }
            i = i + 1;
        }
    }

    pub fn contains_key(&self, k: &String) -> (r: bool)
        requires
            self.wf(),
        ensures
            r == self@.contains_key(k@),
    {
        match self.get(k) {
            Some(_) => true,
            None => false,
        }
    }

    /// Store `v` under `k`, replacing any previous value and keeping the
    /// entries sorted.
    pub fn insert(&mut self, k: String, v: V)
        requires
            old(self).wf(),
        ensures
            final(self).wf(),
            final(self)@ == old(self)@.insert(k@, v),
            old(self)@.contains_key(k@) ==> {
                &&& final(self).key_seq() == old(self).key_seq()
                &&& final(self).val_seq() == old(self).val_seq().update(
                    old(self).key_index(k@),
                    v,
                )
            },
            !old(self)@.contains_key(k@) ==> ({
                let j = final(self).key_index(k@);
                &&& 0 <= j <= old(self).spec_len()
                &&& final(self).key_seq() == old(self).key_seq().insert(j, k@)
                &&& final(self).val_seq() == old(self).val_seq().insert(j, v)
            }),
            final(self).spec_len() == if old(self)@.contains_key(k@) {
                old(self).spec_len()
            } else {
                old(self).spec_len() + 1nat
            },
    {
        let n = self.entries.len();
        let mut pos: usize = 0;
        loop
            invariant
                pos <= n,
                n == self.spec_len(),
                self.wf(),
                forall|j: int| 0 <= j < pos ==> seq_lt(#[trigger] self.key_seq()[j], k@),
            ensures
                pos <= n,
                forall|j: int| 0 <= j < pos ==> seq_lt(#[trigger] self.key_seq()[j], k@),
                pos < n ==> !seq_lt(self.key_seq()[pos as int], k@),
            decreases n - pos,
        {
            if pos >= n {
                break;
            }
            let below = str_lt(self.entries[pos].0.as_str(), k.as_str());
            proof {
                assert(self.key_seq()[pos as int] == self.entries@[pos as int].0@);
            }
            if below {
                pos = pos + 1;
            } else {
                break;
            }
        }
        // keys below pos sort before k; the key at pos (if any) does not
        if pos < n && str_eq(&self.entries[pos].0, &k) {
            // replace in place
            let ghost pre = *self;
            let ghost i = pos as int;
            proof {
                pre.lemma_distinct();
                pre.lemma_entries();
                assert(pre.key_seq()[i] == k@);
                assert forall|a: int, b: int| 0 <= a < b < pre.entries@.len() implies
                    pre.entries@[a].0@ != pre.entries@[b].0@ by {
                    assert(pre.key_seq()[a] == pre.entries@[a].0@);
                    assert(pre.key_seq()[b] == pre.entries@[b].0@);
                }
                lemma_map_of_update(pre.entries@, i, (k, v));
            }
            self.entries.set(pos, (k, v));
            proof {
                assert(self.key_seq() =~= pre.key_seq());
                assert(self.val_seq() =~= pre.val_seq().update(i, v));
                assert(pre.key_index(k@) == i) by {
                    pre.lemma_distinct();
                    assert(pre.key_seq()[i] == k@);
                }
                assert(self.wf());
            }
        } else {
            // fresh key: k sorts after everything below pos and before
            // everything at or above pos
            let ghost pre = *self;
            let ghost i = pos as int;
            proof {
                assert forall|j: int| i <= j < pre.spec_len() implies seq_lt(
                    k@,
                    #[trigger] pre.key_seq()[j],
                ) by {
                    lemma_seq_lt_total(pre.key_seq()[i], k@);
                    assert(pre.key_seq()[i] == pre.entries@[i].0@);
                    assert(pre.key_seq()[i] != k@);
                    assert(seq_lt(k@, pre.key_seq()[i]));
                    if j > i {
                        lemma_seq_lt_transitive(k@, pre.key_seq()[i], pre.key_seq()[j]);
                    }
                }
                assert forall|j: int| 0 <= j < pre.entries@.len() implies pre.entries@[j].0@
                    != k@ by {
                    assert(pre.key_seq()[j] == pre.entries@[j].0@);
                    if pre.key_seq()[j] == k@ {
                        lemma_seq_lt_irreflexive(k@);
                    }
                }
                lemma_map_of_contains(pre.entries@, k@);
                lemma_map_of_insert_at(pre.entries@, i, (k, v));
            }
            self.entries.insert(pos, (k, v));
            proof {
                pre.key_seq().insert_ensures(i, k@);
                pre.val_seq().insert_ensures(i, v);
                pre.entries@.insert_ensures(i, (k, v));
                assert(self.key_seq() =~= pre.key_seq().insert(i, k@));
                assert(self.val_seq() =~= pre.val_seq().insert(i, v));
                let ks = self.key_seq();
                assert forall|a: int, b: int| 0 <= a < b < ks.len() implies seq_lt(
                    #[trigger] ks[a],
                    #[trigger] ks[b],
                ) by {
                    if b < i {
                        assert(ks[a] == pre.key_seq()[a]);
                        assert(ks[b] == pre.key_seq()[b]);
                    } else if b == i {
                        assert(ks[a] == pre.key_seq()[a]);
                        assert(seq_lt(pre.key_seq()[a], k@));
                    } else if a == i {
                        assert(ks[b] == pre.key_seq()[b - 1]);
                        assert(seq_lt(k@, pre.key_seq()[b - 1]));
                    } else if a < i {
                        assert(ks[a] == pre.key_seq()[a]);
                        assert(ks[b] == pre.key_seq()[b - 1]);
                        assert(a < b - 1 || a == b - 1);
                        if a == b - 1 {
                            assert(seq_lt(pre.key_seq()[a], k@));
                            assert(seq_lt(k@, pre.key_seq()[a]));
                            lemma_seq_lt_irreflexive(k@);
                            lemma_seq_lt_transitive(pre.key_seq()[a], k@, pre.key_seq()[a]);
                        }
                    } else {
                        assert(ks[a] == pre.key_seq()[a - 1]);
                        assert(ks[b] == pre.key_seq()[b - 1]);
                    }
                }
                assert(self.wf());
                assert(self.key_index(k@) == i) by {
                    self.lemma_distinct();
                    assert(self.key_seq()[i] == k@);
                    let j = self.key_index(k@);
                    assert(0 <= j < self.key_seq().len() && self.key_seq()[j] == k@);
                }
            }
        }
    }
}

} // verus!
