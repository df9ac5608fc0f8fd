//! The associative container at the bottom of the store. One `Coremap` backs
//! one table (or one level of the namespace hierarchy); keys are byte
//! strings, kept unique. Point lookups hand values out by shared reference,
//! insertion is insert-if-absent, and removal is either unconditional or
//! guarded by a caller-supplied predicate over the current value, the
//! check-and-remove being a single step over the map state.
//!
//! The abstract value of a `Coremap<V>` is a `Map<Seq<u8>, V>` from key
//! contents to stored values.

use vstd::prelude::*;

use crate::data::Data;

verus! {

broadcast use vstd::set::group_set_axioms, vstd::map::group_map_axioms, vstd::seq::group_seq_axioms;

/// The mapping denoted by a sequence of key/value entries, later entries
/// taking precedence; the container never stores one key twice, so
/// precedence never actually decides anything.
pub open spec fn entries_map<V>(s: Seq<(Data, V)>) -> Map<Seq<u8>, V>
    decreases s.len(),
{
    if s.len() == 0 {
        Map::empty()
    } else {
        entries_map(s.drop_last()).insert(s.last().0@, s.last().1)
    }
}

/// No two entries hold the same key contents.
pub open spec fn entry_keys_distinct<V>(s: Seq<(Data, V)>) -> bool {
    forall|i: int, j: int| 0 <= i < j < s.len() ==> s[i].0@ != s[j].0@
}

proof fn lemma_entries_map_dom<V>(s: Seq<(Data, V)>)
    ensures
        forall|k: Seq<u8>|
            entries_map(s).contains_key(k) <==> (exists|i: int|
                0 <= i < s.len() && #[trigger] s[i].0@ == k),
        entries_map(s).dom().finite(),
    decreases s.len(),
{
    if s.len() == 0 {
    } else {
        lemma_entries_map_dom(s.drop_last());
        assert forall|k: Seq<u8>| entries_map(s).contains_key(k) implies (exists|i: int|
            0 <= i < s.len() && #[trigger] s[i].0@ == k) by {
            if k == s.last().0@ {
                assert(s[s.len() - 1].0@ == k);
            } else {
                let i = choose|i: int| 0 <= i < s.drop_last().len() && #[trigger] s.drop_last()[i].0@ == k;
                assert(s[i].0@ == k);
            }
        }
        assert forall|k: Seq<u8>| (exists|i: int| 0 <= i < s.len() && #[trigger] s[i].0@ == k)
            implies entries_map(s).contains_key(k) by {
            let i = choose|i: int| 0 <= i < s.len() && #[trigger] s[i].0@ == k;
            if i < s.len() - 1 {
                assert(s.drop_last()[i].0@ == k);
            }
        }
    }
}

proof fn lemma_entries_map_index<V>(s: Seq<(Data, V)>, i: int)
    requires
        entry_keys_distinct(s),
        0 <= i < s.len(),
    ensures
        entries_map(s).contains_key(s[i].0@),
        entries_map(s)[s[i].0@] == s[i].1,
    decreases s.len(),
{
    if i == s.len() - 1 {
    } else {
        assert(entry_keys_distinct(s.drop_last()));
        assert(s.drop_last()[i] == s[i]);
        lemma_entries_map_index(s.drop_last(), i);
        assert(s[i].0@ != s.last().0@);
    }
}

proof fn lemma_entries_map_len<V>(s: Seq<(Data, V)>)
    requires
        entry_keys_distinct(s),
    ensures
        entries_map(s).len() == s.len(),
    decreases s.len(),
{
    if s.len() == 0 {
    } else {
        assert(entry_keys_distinct(s.drop_last()));
        lemma_entries_map_len(s.drop_last());
        lemma_entries_map_dom(s.drop_last());
        assert(!entries_map(s.drop_last()).contains_key(s.last().0@));
    }
}

proof fn lemma_entries_map_push<V>(s: Seq<(Data, V)>, e: (Data, V))
    ensures
        entries_map(s.push(e)) == entries_map(s).insert(e.0@, e.1),
{
    assert(s.push(e).drop_last() =~= s);
    assert(s.push(e).last() == e);
}

proof fn lemma_entries_map_remove_at<V>(s: Seq<(Data, V)>, i: int)
    requires
        entry_keys_distinct(s),
        0 <= i < s.len(),
    ensures
        entries_map(s.remove(i)) == entries_map(s).remove(s[i].0@),
    decreases s.len(),
{
    lemma_entries_map_dom(s);
    lemma_entries_map_dom(s.drop_last());
    if i == s.len() - 1 {
        assert(s.remove(i) =~= s.drop_last());
        assert(!entries_map(s.drop_last()).contains_key(s.last().0@));
        assert(entries_map(s.drop_last()).insert(s.last().0@, s.last().1).remove(s.last().0@)
            =~= entries_map(s.drop_last()));
    } else {
        assert(entry_keys_distinct(s.drop_last()));
        lemma_entries_map_remove_at(s.drop_last(), i);
        assert(s.remove(i).drop_last() =~= s.drop_last().remove(i));
        assert(s.remove(i).last() == s.last());
        assert(s[i].0@ != s.last().0@);
        assert(entries_map(s.remove(i)) == entries_map(s.drop_last().remove(i)).insert(
            s.last().0@,
            s.last().1,
        ));
        assert(entries_map(s.drop_last()).remove(s[i].0@).insert(s.last().0@, s.last().1)
            =~= entries_map(s.drop_last()).insert(s.last().0@, s.last().1).remove(s[i].0@));
    }
}

/// An associative container keyed by byte strings, holding each key at most
/// once. In the running store every mutation of a table goes through one
/// `Coremap` call, so reasoning about a single call at a time is reasoning
/// about one atomic step of the table.
pub struct Coremap<V> {
    entries: Vec<(Data, V)>,
}

impl<V> View for Coremap<V> {
    type V = Map<Seq<u8>, V>;

    closed spec fn view(&self) -> Map<Seq<u8>, V> {
        entries_map(self.entries@)
    }
}

impl<V> Coremap<V> {
    #[verifier::type_invariant]
    spec fn wf(&self) -> bool {
        entry_keys_distinct(self.entries@)
    }

    /// The abstract map never holds more than the finitely many stored
    /// entries.
    pub proof fn lemma_dom_finite(&self)
        ensures
            self@.dom().finite(),
    {
        lemma_entries_map_dom(self.entries@);
    }

    /// An empty map.
    pub fn new() -> (r: Coremap<V>)
        ensures
            r@ == Map::<Seq<u8>, V>::empty(),
    {
        Coremap { entries: Vec::new() }
    }

    /// Number of keys currently mapped.
    pub fn len(&self) -> (r: usize)
        ensures
            r == self@.len(),
    {
        proof {
            use_type_invariant(&*self);
            lemma_entries_map_len(self.entries@);
        }
        self.entries.len()
    }

    /// Index of the entry holding `key`, if one does.
    fn index_of(&self, key: &Data) -> (r: Option<usize>)
        ensures
            match r {
                Some(i) => i < self.entries@.len() && self.entries@[i as int].0@ == key@,
                None => forall|j: int|
                    0 <= j < self.entries@.len() ==> #[trigger] self.entries@[j].0@ != key@,
            },
    {
        let n = self.entries.len();
        let mut i: usize = 0;
        while i < n
            invariant
                n == self.entries@.len(),
                i <= n,
                forall|j: int| 0 <= j < i ==> #[trigger] self.entries@[j].0@ != key@,
            decreases n - i,
        {
            if self.entries[i].0.content_eq(key) {
                return Some(i);
            }
            i = i + 1;
        }
        None
    }

    /// Point lookup; the value comes back by reference, never a torn or
    /// partial one: it is exactly the value the abstract map holds.
    pub fn get(&self, key: &Data) -> (r: Option<&V>)
        ensures
            match r {
                Some(v) => self@.contains_key(key@) && *v == self@[key@],
                None => !self@.contains_key(key@),
            },
    {
        proof {
            use_type_invariant(&*self);
            lemma_entries_map_dom(self.entries@);
        }
        match self.index_of(key) {
            Some(i) => {
                proof {
                    lemma_entries_map_index(self.entries@, i as int);
                }
                Some(&self.entries[i].1)
            },
            None => None,
        }
    }

    /// True exactly when `key` is mapped.
    pub fn contains_key(&self, key: &Data) -> (r: bool)
        ensures
            r == self@.contains_key(key@),
    {
        proof {
            use_type_invariant(&*self);
            lemma_entries_map_dom(self.entries@);
        }
        match self.index_of(key) {
            Some(_) => true,
            None => false,
        }
    }

    /// Store `value` under `key` unless the key is already mapped; true
    /// exactly when the mapping was created.
    pub fn true_if_insert(&mut self, key: Data, value: V) -> (r: bool)
        ensures
            r == !old(self)@.contains_key(key@),
            r ==> final(self)@ == old(self)@.insert(key@, value),
            !r ==> final(self)@ == old(self)@,
    {
        proof {
            use_type_invariant(&*self);
            lemma_entries_map_dom(self.entries@);
        }
        match self.index_of(&key) {
            Some(_) => false,
            None => {
                let ghost s0 = self.entries@;
                let mut entries: Vec<(Data, V)> = Vec::new();
                core::mem::swap(&mut entries, &mut self.entries);
                entries.push((key, value));
                proof {
                    lemma_entries_map_push(s0, entries@.last());
                    assert(entry_keys_distinct(entries@)) by {
                        assert(forall|j: int|
                            0 <= j < s0.len() ==> #[trigger] entries@[j] == s0[j]);
                    }
                }
                self.entries = entries;
                true
            },
        }
    }

    /// Unconditionally drop the mapping for `key`; true exactly when one
    /// existed.
    pub fn true_if_removed(&mut self, key: &Data) -> (r: bool)
        ensures
            r == old(self)@.contains_key(key@),
            final(self)@ == old(self)@.remove(key@),
    {
        proof {
            use_type_invariant(&*self);
            lemma_entries_map_dom(self.entries@);
        }
        match self.index_of(key) {
            Some(i) => {
                self.remove_entry_at(i);
                true
            },
            None => {
                proof {
                    assert(old(self)@.remove(key@) =~= old(self)@);
                }
                false
            },
        }
    }

    /// Atomically check the current value under `key` against `pred` and
    /// drop the mapping only when the predicate accepts it; between the check
    /// and the removal nothing else can touch the key. True exactly when the
    /// mapping was dropped.
    pub fn remove_if<F: Fn(&V) -> bool>(&mut self, key: &Data, pred: F) -> (r: bool)
        requires
            forall|v: &V| #[trigger] call_requires(pred, (v,)),
        ensures
            r ==> old(self)@.contains_key(key@) && call_ensures(
                pred,
                (&old(self)@[key@],),
                true,
            ) && final(self)@ == old(self)@.remove(key@),
            !r ==> final(self)@ == old(self)@,
            !r && old(self)@.contains_key(key@) ==> call_ensures(
                pred,
                (&old(self)@[key@],),
                false,
            ),
    {
        proof {
            use_type_invariant(&*self);
            lemma_entries_map_dom(self.entries@);
        }
        match self.index_of(key) {
            Some(i) => {
                proof {
                    lemma_entries_map_index(self.entries@, i as int);
                }
                if pred(&self.entries[i].1) {
                    self.remove_entry_at(i);
                    true
                } else {
                    false
                }
            },
            None => false,
        }
    }

    /// Drop the entry at a known index.
    fn remove_entry_at(&mut self, i: usize)
        requires
            i < old(self).entries@.len(),
        ensures
            final(self)@ == old(self)@.remove(old(self).entries@[i as int].0@),
    {
        proof {
            use_type_invariant(&*self);
            lemma_entries_map_remove_at(self.entries@, i as int);
        }
        let ghost s0 = self.entries@;
        let mut entries: Vec<(Data, V)> = Vec::new();
        core::mem::swap(&mut entries, &mut self.entries);
        entries.remove(i);
        proof {
            assert(entry_keys_distinct(entries@)) by {
                assert(forall|j: int|
                    0 <= j < entries@.len() ==> #[trigger] entries@[j] == if j < i {
                        s0[j]
                    } else {
                        s0[j + 1]
                    });
            }
        }
        self.entries = entries;
    }
}

} // verus!
