//! An insertion-ordered association list keyed by strings, with unique keys.
//! It backs the per-account cookie records and the metadata cache, both of
//! which are insertion-only maps during a process run.

use crate::text::str_eq;
use vstd::prelude::*;

verus! {

pub struct KvList<V> {
    entries: Vec<(String, V)>,
}

/// The map described by an entry sequence, later entries winning.
pub closed spec fn map_of<V: View>(s: Seq<(String, V)>) -> Map<Seq<char>, V::V>
    decreases s.len(),
{
    if s.len() == 0 {
        Map::empty()
    } else {
        map_of(s.drop_last()).insert(s.last().0@, s.last().1@)
    }
}

proof fn lemma_map_of_domain<V: View>(s: Seq<(String, V)>, k: Seq<char>)
    ensures
        map_of(s).contains_key(k) <==> exists|i: int| 0 <= i < s.len() && s[i].0@ == k,
    decreases s.len(),
{
    if s.len() > 0 {
        lemma_map_of_domain(s.drop_last(), k);
        if s.last().0@ == k {
            assert(s[s.len() - 1].0@ == k);
        } else {
            if map_of(s).contains_key(k) {
                let i = choose|i: int| 0 <= i < s.drop_last().len() && s.drop_last()[i].0@ == k;
                assert(s[i].0@ == k);
            }
            if exists|i: int| 0 <= i < s.len() && s[i].0@ == k {
                let i = choose|i: int| 0 <= i < s.len() && s[i].0@ == k;
                assert(i < s.len() - 1);
                assert(s.drop_last()[i].0@ == k);
            }
        }
    }
}

proof fn lemma_map_of_index<V: View>(s: Seq<(String, V)>, i: int)
    requires
        0 <= i < s.len(),
        forall|p: int, q: int| 0 <= p < q < s.len() ==> s[p].0@ != s[q].0@,
    ensures
        map_of(s).contains_key(s[i].0@),
        map_of(s)[s[i].0@] == s[i].1@,
    decreases s.len(),
{
    if i == s.len() - 1 {
        assert(s.last() == s[i]);
    } else {
        assert(s.last().0@ != s[i].0@);
        assert(s.drop_last()[i] == s[i]);
        lemma_map_of_index(s.drop_last(), i);
    }
}

proof fn lemma_map_of_push<V: View>(s: Seq<(String, V)>, e: (String, V))
    ensures
        map_of(s.push(e)) == map_of(s).insert(e.0@, e.1@),
{
    assert(s.push(e).drop_last() =~= s);
    assert(s.push(e).last() == e);
}

proof fn lemma_map_of_update<V: View>(s: Seq<(String, V)>, i: int, e: (String, V))
    requires
        0 <= i < s.len(),
        s[i].0@ == e.0@,
        forall|p: int, q: int| 0 <= p < q < s.len() ==> s[p].0@ != s[q].0@,
    ensures
        map_of(s.update(i, e)) == map_of(s).insert(e.0@, e.1@),
    decreases s.len(),
{
    let su = s.update(i, e);
    if i == s.len() - 1 {
        assert(su.drop_last() =~= s.drop_last());
        assert(su.last() == e);
        assert(map_of(su) == map_of(s.drop_last()).insert(e.0@, e.1@));
        assert(map_of(s.drop_last()).insert(s.last().0@, s.last().1@).insert(e.0@, e.1@) =~= map_of(
            s.drop_last(),
        ).insert(e.0@, e.1@));
    } else {
        assert(su.last() == s.last());
        assert(su.drop_last() =~= s.drop_last().update(i, e));
        assert(s.drop_last()[i] == s[i]);
        lemma_map_of_update(s.drop_last(), i, e);
        assert(map_of(su) == map_of(s.drop_last()).insert(e.0@, e.1@).insert(
            s.last().0@,
            s.last().1@,
        ));
        assert(s.last().0@ != e.0@);
        assert(map_of(s.drop_last()).insert(e.0@, e.1@).insert(s.last().0@, s.last().1@) =~= map_of(
            s.drop_last(),
        ).insert(s.last().0@, s.last().1@).insert(e.0@, e.1@));
    }
}

impl<V: View> View for KvList<V> {
    type V = Map<Seq<char>, V::V>;

    closed spec fn view(&self) -> Map<Seq<char>, V::V> {
        map_of(self.entries@)
    }
}

impl<V: View> KvList<V> {
    /// Keys occur at most once.
    pub closed spec fn wf(self) -> bool {
        forall|p: int, q: int|
            0 <= p < q < self.entries@.len() ==> self.entries@[p].0@ != self.entries@[q].0@
    }

    pub fn new() -> (r: Self)
        ensures
            r.wf(),
            r@ == Map::<Seq<char>, V::V>::empty(),
    {
        KvList { entries: Vec::new() }
    }

    /// The entry stored under `key`, if any.
    pub fn get(&self, key: &str) -> (r: Option<&V>)
        requires
            self.wf(),
        ensures
            r is Some <==> self@.contains_key(key@),
            r matches Some(v) ==> self@.contains_key(key@) && v@ == self@[key@],
    {
        let n = self.entries.len();
        let mut i: usize = 0;
        while i < n
            invariant
                n == self.entries@.len(),
                i <= n,
                self.wf(),
                forall|j: int| 0 <= j < i ==> self.entries@[j].0@ != key@,
            decreases n - i,
        {
            if str_eq(self.entries[i].0.as_str(), key) {
                proof {
                    lemma_map_of_index(self.entries@, i as int);
                }
                return Some(&self.entries[i].1);
            }
            i += 1;
        }
        proof {
            lemma_map_of_domain(self.entries@, key@);
        }
        None
    }

    /// Whether an entry is stored under `key`.
    pub fn contains(&self, key: &str) -> (r: bool)
        requires
            self.wf(),
        ensures
            r == self@.contains_key(key@),
    {
        self.get(key).is_some()
    }

    /// Stores `value` under `key`, replacing an earlier entry for the same
    /// key in place and appending otherwise.
    pub fn insert(&mut self, key: String, value: V)
        requires
            old(self).wf(),
        ensures
            final(self).wf(),
            final(self)@ == old(self)@.insert(key@, value@),
    {
        let ghost e: (String, V) = (key, value);
        let n = self.entries.len();
        let mut i: usize = 0;
        while i < n
            invariant
                n == self.entries@.len(),
                i <= n,
                self == old(self),
                self.wf(),
                e.0 == key && e.1 == value,
                forall|j: int| 0 <= j < i ==> self.entries@[j].0@ != e.0@,
            decreases n - i,
        {
            if str_eq(self.entries[i].0.as_str(), key.as_str()) {
                let ghost s0 = self.entries@;
                proof {
                    assert(s0[i as int].0@ == e.0@);
                    lemma_map_of_update(s0, i as int, e);
                }
                self.entries[i] = (key, value);
                proof {
                    assert(self.entries@ =~= s0.update(i as int, e));
                    assert forall|p: int, q: int|
                        0 <= p < q < self.entries@.len() implies self.entries@[p].0@
                        != self.entries@[q].0@ by {
                        assert(self.entries@[p].0@ == s0[p].0@);
                        assert(self.entries@[q].0@ == s0[q].0@);
                    }
                }
                return ;
            }
            i += 1;
        }
        let ghost s0 = self.entries@;
        proof {
            lemma_map_of_push(s0, e);
        }
        self.entries.push((key, value));
        proof {
            assert(self.entries@ =~= s0.push(e));
            assert forall|p: int, q: int|
                0 <= p < q < self.entries@.len() implies self.entries@[p].0@
                != self.entries@[q].0@ by {
                if q < s0.len() {
                    assert(self.entries@[p] == s0[p]);
                    assert(self.entries@[q] == s0[q]);
                } else {
                    assert(self.entries@[p] == s0[p]);
                    assert(self.entries@[q] == e);
                }
            }
        }
    }

    /// The number of entries stored.
    pub fn len(&self) -> (r: usize)
        requires
            self.wf(),
        ensures
            r == self@.dom().len(),
    {
        proof {
            lemma_map_of_card(self.entries@);
        }
        self.entries.len()
    }

    /// The stored entries, in insertion order. The surrounding application
    /// walks these when mirroring the records to durable storage.
    pub fn entries(&self) -> (r: &Vec<(String, V)>)
        requires
            self.wf(),
        ensures
            r@.len() == self@.dom().len(),
            forall|j: int|
                0 <= j < r@.len() ==> self@.contains_key(#[trigger] r@[j].0@) && self@[r@[j].0@]
                    == r@[j].1@,
    {
        proof {
            lemma_map_of_card(self.entries@);
            assert forall|j: int| 0 <= j < self.entries@.len() implies self@.contains_key(
                #[trigger] self.entries@[j].0@,
            ) && self@[self.entries@[j].0@] == self.entries@[j].1@ by {
                lemma_map_of_index(self.entries@, j);
            }
        }
        &self.entries
    }
}

proof fn lemma_map_of_card<V: View>(s: Seq<(String, V)>)
    requires
        forall|p: int, q: int| 0 <= p < q < s.len() ==> s[p].0@ != s[q].0@,
    ensures
        map_of(s).dom().len() == s.len(),
        map_of(s).dom().finite(),
    decreases s.len(),
{
    if s.len() > 0 {
        lemma_map_of_card(s.drop_last());
        lemma_map_of_domain(s.drop_last(), s.last().0@);
        assert(forall|i: int|
            0 <= i < s.drop_last().len() ==> s.drop_last()[i].0@ != s.last().0@);
        assert(!map_of(s.drop_last()).contains_key(s.last().0@));
    }
}

} // verus!
