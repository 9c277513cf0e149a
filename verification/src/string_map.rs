//! A map keyed by strings.

use vstd::prelude::*;

verus! {

/// No two entries of `entries` have the same key.
pub open spec fn unique_keys<V>(entries: Seq<(String, V)>) -> bool {
    forall|i: int, j: int| 0 <= i < j < entries.len() ==> entries[i].0@ != entries[j].0@
}

/// Some entry of `entries` has the key `key`.
pub open spec fn has_key<V>(entries: Seq<(String, V)>, key: Seq<char>) -> bool {
    exists|i: int| 0 <= i < entries.len() && #[trigger] entries[i].0@ == key
}

/// The place of the entry of `entries` that has the key `key`.
pub open spec fn index_of<V>(entries: Seq<(String, V)>, key: Seq<char>) -> int {
    choose|i: int| 0 <= i < entries.len() && #[trigger] entries[i].0@ == key
}

/// The map that a list of entries stands for: each key with the view of its
/// value, a later entry replacing an earlier one with the same key.
pub open spec fn entries_map<V: View>(entries: Seq<(String, V)>) -> Map<Seq<char>, V::V>
    decreases entries.len(),
{
    if entries.len() == 0 {
        Map::empty()
    } else {
        entries_map(entries.drop_last()).insert(entries.last().0@, entries.last().1@)
    }
}

/// What `entries_map` holds when no key occurs twice: exactly the keys of
/// the entries, each with its own value, and as many keys as entries.
pub proof fn lemma_entries_map<V: View>(entries: Seq<(String, V)>)
    requires
        unique_keys(entries),
    ensures
        forall|k: Seq<char>| #[trigger] entries_map(entries).contains_key(k) <==> has_key(entries, k),
        forall|i: int|
            0 <= i < entries.len() ==> entries_map(entries)[(#[trigger] entries[i]).0@]
                == entries[i].1@,
        entries_map(entries).dom().finite(),
        entries_map(entries).dom().len() == entries.len(),
    decreases entries.len(),
{
    if entries.len() > 0 {
        let front = entries.drop_last();
        let last = entries.last();
        lemma_entries_map(front);
        assert forall|k: Seq<char>| #[trigger]
            entries_map(entries).contains_key(k) <==> has_key(entries, k) by {
            if has_key(entries, k) {
                let i = choose|i: int| 0 <= i < entries.len() && #[trigger] entries[i].0@ == k;
                if i < entries.len() - 1 {
                    assert(front[i].0@ == k);
                }
            }
            if entries_map(entries).contains_key(k) {
                if k != last.0@ {
                    let i = choose|i: int| 0 <= i < front.len() && #[trigger] front[i].0@ == k;
                    assert(entries[i].0@ == k);
                } else {
                    assert(entries[entries.len() - 1].0@ == k);
                }
            }
        }
        assert forall|i: int| 0 <= i < entries.len() implies entries_map(entries)[(
        #[trigger] entries[i]).0@] == entries[i].1@ by {
            if i < entries.len() - 1 {
                assert(front[i] == entries[i]);
            }
        }
        if has_key(front, last.0@) {
            let i = choose|i: int| 0 <= i < front.len() && #[trigger] front[i].0@ == last.0@;
            assert(entries[i].0@ == entries[entries.len() - 1].0@);
        }
    }
}

/// A finite map from strings to values, kept as a list of entries in the
/// order in which their keys were first inserted.
#[derive(Debug)]
pub struct StringMap<V> {
    entries: Vec<(String, V)>,
}

impl<V> StringMap<V> {
    #[verifier::type_invariant]
    spec fn well_formed(&self) -> bool {
        unique_keys(self.entries@)
    }

    /// The entries, in the order in which their keys were first inserted.
    pub closed spec fn entries(&self) -> Seq<(String, V)> {
        self.entries@
    }
}

impl<V: View> View for StringMap<V> {
    type V = Map<Seq<char>, V::V>;

    open spec fn view(&self) -> Map<Seq<char>, V::V> {
        entries_map(self.entries())
    }
}

impl<V: View> StringMap<V> {
    /// The empty map.
    pub fn new() -> (r: Self)
        ensures
            r.entries() == Seq::<(String, V)>::empty(),
            r@ == Map::<Seq<char>, V::V>::empty(),
    {
        StringMap { entries: Vec::new() }
    }

    /// The number of keys, which is the number of entries.
    pub fn len(&self) -> (r: usize)
        ensures
            r == self.entries().len(),
            unique_keys(self.entries()),
            self@.dom().finite(),
            r == self@.dom().len(),
    {
        proof {
            use_type_invariant(self);
            lemma_entries_map(self.entries@);
        }
        self.entries.len()
    }

    /// The key and the value of the entry at `index`.
    pub fn entry(&self, index: usize) -> (r: (&String, &V))
        requires
            index < self.entries().len(),
        ensures
            *r.0 == self.entries()[index as int].0,
            *r.1 == self.entries()[index as int].1,
            self@.contains_key(r.0@),
            self@[r.0@] == r.1@,
    {
        proof {
            use_type_invariant(self);
            lemma_entries_map(self.entries@);
        }
        (&self.entries[index].0, &self.entries[index].1)
    }

    fn find(&self, key: &String) -> (r: Option<usize>)
        ensures
            match r {
                Some(i) => i < self.entries.len() && self.entries[i as int].0@ == key@,
                None => !has_key(self.entries@, key@),
            },
    {
        let mut i: usize = 0;
        while i < self.entries.len()
            invariant
                i <= self.entries.len(),
                forall|j: int| 0 <= j < i ==> self.entries[j].0@ != key@,
            decreases self.entries.len() - i,
        {
            if self.entries[i].0 == *key {
                return Some(i);
            }
            i += 1;
        }
        None
    }

    /// Whether `key` has a value.
    pub fn contains_key(&self, key: &str) -> (r: bool)
        ensures
            r == self@.contains_key(key@),
    {
        proof {
            use_type_invariant(self);
            lemma_entries_map(self.entries@);
        }
        let owned = key.to_owned();
        self.find(&owned).is_some()
    }

    /// The value of `key`, if it has one.
    pub fn get(&self, key: &str) -> (r: Option<&V>)
        ensures
            match r {
                Some(v) => self@.contains_key(key@) && v@ == self@[key@],
                None => !self@.contains_key(key@),
            },
    {
        proof {
            use_type_invariant(self);
            lemma_entries_map(self.entries@);
        }
        let owned = key.to_owned();
        match self.find(&owned) {
            Some(i) => Some(&self.entries[i].1),
            None => None,
        }
    }

    /// Gives `key` the value `value`, in place of the value it had, if any.
    pub fn insert(&mut self, key: String, value: V)
        ensures
            final(self)@ == old(self)@.insert(key@, value@),
            final(self).entries() == if has_key(old(self).entries(), key@) {
                old(self).entries().update(index_of(old(self).entries(), key@), (key, value))
            } else {
                old(self).entries().push((key, value))
            },
    {
        proof {
            use_type_invariant(&*self);
            lemma_entries_map(self.entries@);
        }
        let found = self.find(&key);
        let ghost before = self.entries@;
        let mut entries: Vec<(String, V)> = Vec::new();
        core::mem::swap(&mut self.entries, &mut entries);
        match found {
            Some(i) => {
                entries[i] = (key, value);
                proof {
                    lemma_replaced(before, entries@, i as int);
                    assert(before[i as int].0@ == key@);
                    assert(index_of(before, key@) == i);
                    assert(entries@ =~= before.update(i as int, (key, value)));
                }
            },
            None => {
                entries.push((key, value));
                proof {
                    assert(entries@.drop_last() =~= before);
                }
            },
        }
        core::mem::swap(&mut self.entries, &mut entries);
    }

    /// Takes `key` and its value out of the map, and returns the value if
    /// there was one.
    pub fn remove(&mut self, key: &str) -> (r: Option<V>)
        ensures
            final(self)@ == old(self)@.remove(key@),
            match r {
                Some(v) => old(self)@.contains_key(key@) && v@ == old(self)@[key@],
                None => !old(self)@.contains_key(key@),
            },
            final(self).entries() == if has_key(old(self).entries(), key@) {
                old(self).entries().remove(index_of(old(self).entries(), key@))
            } else {
                old(self).entries()
            },
    {
        proof {
            use_type_invariant(&*self);
            lemma_entries_map(self.entries@);
        }
        let owned = key.to_owned();
        let found = self.find(&owned);
        match found {
            Some(i) => {
                let ghost before = self.entries@;
                let mut entries: Vec<(String, V)> = Vec::new();
                core::mem::swap(&mut self.entries, &mut entries);
                let removed = entries.remove(i);
                proof {
                    lemma_removed(before, i as int);
                    assert(before[i as int].0@ == key@);
                    assert(index_of(before, key@) == i);
                }
                core::mem::swap(&mut self.entries, &mut entries);
                Some(removed.1)
            },
            None => {
                proof {
                    assert(self@.remove(key@) =~= self@);
                }
                None
            },
        }
    }
}

/// Taking one entry out takes its key out and leaves the other keys as they
/// were.
proof fn lemma_removed<V: View>(before: Seq<(String, V)>, i: int)
    requires
        unique_keys(before),
        0 <= i < before.len(),
    ensures
        unique_keys(before.remove(i)),
        entries_map(before.remove(i)) == entries_map(before).remove(before[i].0@),
{
    let after = before.remove(i);
    assert forall|j: int| 0 <= j < after.len() implies after[j] == before[if j < i {
        j
    } else {
        j + 1
    }] by {}
    assert(unique_keys(after)) by {
        assert forall|a: int, b: int| 0 <= a < b < after.len() implies after[a].0@ != after[b].0@ by {
            let a0 = if a < i { a } else { a + 1 };
            let b0 = if b < i { b } else { b + 1 };
            assert(after[a] == before[a0]);
            assert(after[b] == before[b0]);
        }
    }
    lemma_entries_map(before);
    lemma_entries_map(after);
    let key = before[i].0@;
    assert forall|k: Seq<char>| has_key(after, k) <==> (has_key(before, k) && k != key) by {
        if has_key(after, k) {
            let j = choose|j: int| 0 <= j < after.len() && #[trigger] after[j].0@ == k;
            let j0 = if j < i { j } else { j + 1 };
            assert(after[j] == before[j0]);
            assert(before[j0].0@ == k);
        }
        if has_key(before, k) && k != key {
            let j = choose|j: int| 0 <= j < before.len() && #[trigger] before[j].0@ == k;
            let j1 = if j < i { j } else { j - 1 };
            assert(after[j1] == before[j]);
            assert(after[j1].0@ == k);
        }
    }
    assert forall|k: Seq<char>| #[trigger] entries_map(after).contains_key(k) implies entries_map(
        after,
    )[k] == entries_map(before)[k] by {
        let j = choose|j: int| 0 <= j < after.len() && #[trigger] after[j].0@ == k;
        let j0 = if j < i { j } else { j + 1 };
        assert(after[j] == before[j0]);
    }
    assert(entries_map(after) =~= entries_map(before).remove(key));
}

/// Replacing the value of one entry replaces the value of its key.
proof fn lemma_replaced<V: View>(before: Seq<(String, V)>, after: Seq<(String, V)>, i: int)
    requires
        unique_keys(before),
        0 <= i < before.len(),
        after == before.update(i, after[i]),
        after[i].0@ == before[i].0@,
    ensures
        unique_keys(after),
        entries_map(after) == entries_map(before).insert(after[i].0@, after[i].1@),
{
    assert(unique_keys(after)) by {
        assert forall|a: int, b: int| 0 <= a < b < after.len() implies after[a].0@ != after[b].0@ by {
            assert(after[a].0@ == before[a].0@);
            assert(after[b].0@ == before[b].0@);
        }
    }
    lemma_entries_map(before);
    lemma_entries_map(after);
    assert forall|k: Seq<char>| has_key(after, k) <==> has_key(before, k) by {
        if has_key(after, k) {
            let j = choose|j: int| 0 <= j < after.len() && #[trigger] after[j].0@ == k;
            assert(before[j].0@ == k);
        }
        if has_key(before, k) {
            let j = choose|j: int| 0 <= j < before.len() && #[trigger] before[j].0@ == k;
            assert(after[j].0@ == k);
        }
    }
    assert forall|k: Seq<char>| #[trigger] entries_map(after).contains_key(k) implies entries_map(
        after,
    )[k] == entries_map(before).insert(after[i].0@, after[i].1@)[k] by {
        let j = choose|j: int| 0 <= j < after.len() && #[trigger] after[j].0@ == k;
        if j != i {
            assert(before[j] == after[j]);
        }
    }
    assert(entries_map(after) =~= entries_map(before).insert(after[i].0@, after[i].1@));
}

} // verus!
