//! A table keyed by a pair of strings.
//!
//! The agent's caches of sandboxes and containers are such tables: sandboxes
//! are found by namespace and pod name, containers by sandbox id and
//! container name. A table is a list of entries in which a key occurs at
//! most once; its view is the map from keys to the views of the values.

use vstd::prelude::*;

verus! {

/// The view of a key: the two strings as sequences of characters.
pub type Key = (Seq<char>, Seq<char>);

/// One entry of a table.
#[derive(Debug)]
pub struct Entry<V> {
    pub first: String,
    pub second: String,
    pub value: V,
}

impl<V> Entry<V> {
    /// The key under which this entry is found.
    pub open spec fn key(self) -> Key {
        (self.first@, self.second@)
    }
}

/// The map that a list of entries stands for: each entry is inserted in
/// turn, so of two entries with one key the later one counts.
pub open spec fn entries_map<V: View>(s: Seq<Entry<V>>) -> Map<Key, V::V>
    decreases s.len(),
{
    if s.len() == 0 {
        Map::empty()
    } else {
        entries_map(s.drop_last()).insert(s.last().key(), s.last().value@)
    }
}

/// No key occurs at two places of the list.
pub open spec fn distinct_keys<V>(s: Seq<Entry<V>>) -> bool {
    forall|i: int, j: int| 0 <= i < j < s.len() ==> s[i].key() != s[j].key()
}

proof fn lemma_absent<V: View>(s: Seq<Entry<V>>, k: Key)
    requires
        forall|j: int| 0 <= j < s.len() ==> s[j].key() != k,
    ensures
        !entries_map(s).contains_key(k),
    decreases s.len(),
{
    if s.len() > 0 {
        lemma_absent(s.drop_last(), k);
    }
}

proof fn lemma_last_match<V: View>(s: Seq<Entry<V>>, i: int, k: Key)
    requires
        0 <= i < s.len(),
        s[i].key() == k,
        forall|j: int| i < j < s.len() ==> s[j].key() != k,
    ensures
        entries_map(s).contains_key(k),
        entries_map(s)[k] == s[i].value@,
    decreases s.len(),
{
    if i < s.len() - 1 {
        lemma_last_match(s.drop_last(), i, k);
    }
}

proof fn lemma_remove_at<V: View>(s: Seq<Entry<V>>, i: int, k: Key)
    requires
        0 <= i < s.len(),
        s[i].key() == k,
    ensures
        entries_map(s.remove(i)).remove(k) == entries_map(s).remove(k),
    decreases s.len(),
{
    let front = s.drop_last();
    if i == s.len() - 1 {
        assert(s.remove(i) =~= front);
        assert(entries_map(s).remove(k) =~= entries_map(front).remove(k));
    } else {
        lemma_remove_at(front, i, k);
        assert(s.remove(i).drop_last() =~= front.remove(i));
        assert(s.remove(i).last() == s.last());
        let a = entries_map(front.remove(i));
        let b = entries_map(front);
        let kl = s.last().key();
        let vl = s.last().value@;
        assert forall|x: Key| #[trigger] a.insert(kl, vl).remove(k).contains_key(x) implies b.insert(kl, vl).remove(k).contains_key(x) by {
            if x != kl {
                assert(a.remove(k).contains_key(x));
            }
        }
        assert forall|x: Key| #[trigger] b.insert(kl, vl).remove(k).contains_key(x) implies a.insert(kl, vl).remove(k).contains_key(x)
            && a.insert(kl, vl).remove(k)[x] == b.insert(kl, vl).remove(k)[x] by {
            if x != kl {
                assert(b.remove(k).contains_key(x));
                assert(a.remove(k)[x] == b.remove(k)[x]);
            }
        }
        assert(a.insert(kl, vl).remove(k) =~= b.insert(kl, vl).remove(k));
    }
}

/// A map from pairs of strings to values, held as a list.
#[derive(Debug)]
pub struct Table<V> {
    entries: Vec<Entry<V>>,
}

impl<V: View> View for Table<V> {
    type V = Map<Key, V::V>;

    closed spec fn view(&self) -> Map<Key, V::V> {
        entries_map(self.entries@)
    }
}

impl<V> Table<V> {
    #[verifier::type_invariant]
    spec fn wf(self) -> bool {
        distinct_keys(self.entries@)
    }
}

impl<V: View> Table<V> {
    /// The empty table.
    pub fn new() -> (r: Self)
        ensures
            r@ == Map::<Key, V::V>::empty(),
    {
        Table { entries: Vec::new() }
    }

    /// The place of the entry with this key, if there is one.
    fn position(&self, first: &String, second: &String) -> (r: Option<usize>)
        ensures
            match r {
                Some(i) => i < self.entries.len() && self.entries[i as int].key() == (
                    first@,
                    second@,
                ) && self@.contains_key((first@, second@)) && self@[(first@, second@)]
                    == self.entries[i as int].value@,
                None => !self@.contains_key((first@, second@)),
            },
    {
        proof {
            use_type_invariant(self);
        }
        let mut i: usize = 0;
        while i < self.entries.len()
            invariant
                i <= self.entries.len(),
                distinct_keys(self.entries@),
                forall|j: int| 0 <= j < i ==> self.entries[j].key() != (first@, second@),
            decreases self.entries.len() - i,
        {
            if self.entries[i].first == *first && self.entries[i].second == *second {
                proof {
                    lemma_last_match(self.entries@, i as int, (first@, second@));
                }
                return Some(i);
            }
            i += 1;
        }
        proof {
            lemma_absent(self.entries@, (first@, second@));
        }
        None
    }

    /// Whether the table has an entry with this key.
    pub fn contains_key(&self, first: &String, second: &String) -> (r: bool)
        ensures
            r == self@.contains_key((first@, second@)),
    {
        self.position(first, second).is_some()
    }

    /// The value found under this key, if there is one.
    pub fn get(&self, first: &String, second: &String) -> (r: Option<&V>)
        ensures
            match r {
                Some(v) => self@.contains_key((first@, second@)) && v@ == self@[(first@, second@)],
                None => !self@.contains_key((first@, second@)),
            },
    {
        match self.position(first, second) {
            Some(i) => Some(&self.entries[i].value),
            None => None,
        }
    }

    /// Takes the entry with this key out of the table, if there is one.
    pub fn remove(&mut self, first: &String, second: &String)
        ensures
            final(self)@ == old(self)@.remove((first@, second@)),
    {
        proof {
            use_type_invariant(&*self);
        }
        match self.position(first, second) {
            Some(i) => {
                let mut taken: Table<V> = Table { entries: Vec::new() };
                core::mem::swap(self, &mut taken);
                let mut entries = taken.entries;
                proof {
                    lemma_remove_at(entries@, i as int, (first@, second@));
                    let rest = entries@.remove(i as int);
                    assert forall|j: int| 0 <= j < rest.len() implies rest[j].key() != (
                        first@,
                        second@,
                    ) by {
                        if j < i {
                            assert(rest[j] == entries@[j]);
                        } else {
                            assert(rest[j] == entries@[j + 1]);
                        }
                    }
                    lemma_absent(rest, (first@, second@));
                    assert(entries_map(rest).remove((first@, second@)) =~= entries_map(rest));
                    assert(distinct_keys(rest)) by {
                        assert forall|a: int, b: int| 0 <= a < b < rest.len() implies rest[a].key()
                            != rest[b].key() by {
                            let a0 = if a < i { a } else { a + 1 };
                            let b0 = if b < i { b } else { b + 1 };
                            assert(rest[a] == entries@[a0]);
                            assert(rest[b] == entries@[b0]);
                        }
                    }
                }
                entries.remove(i);
                *self = Table { entries };
            },
            None => {
                assert(self@.remove((first@, second@)) =~= self@);
            },
        }
    }

    /// Puts a value under a key. What was there under that key is replaced.
    pub fn insert(&mut self, first: String, second: String, value: V)
        ensures
            final(self)@ == old(self)@.insert((first@, second@), value@),
    {
        self.remove(&first, &second);
        let mut taken: Table<V> = Table { entries: Vec::new() };
        core::mem::swap(self, &mut taken);
        proof {
            use_type_invariant(&taken);
        }
        let mut entries = taken.entries;
        let ghost before = entries@;
        let ghost key = (first@, second@);
        proof {
            lemma_keys_present(before);
            assert(before.push(Entry { first, second, value }).drop_last() =~= before);
            assert(old(self)@.remove(key).insert(key, value@) =~= old(self)@.insert(key, value@));
        }
        entries.push(Entry { first, second, value });
        proof {
            assert forall|a: int, b: int| 0 <= a < b < entries@.len() implies entries@[a].key()
                != entries@[b].key() by {
                assert(entries@[a] == before[a]);
                if b < before.len() {
                    assert(entries@[b] == before[b]);
                } else {
                    assert(entries_map(before).contains_key(before[a].key()));
                }
            }
        }
        *self = Table { entries };
    }

    /// Empties the table.
    pub fn clear(&mut self)
        ensures
            final(self)@ == Map::<Key, V::V>::empty(),
    {
        *self = Table { entries: Vec::new() };
    }
}

proof fn lemma_keys_present<V: View>(s: Seq<Entry<V>>)
    ensures
        forall|j: int| 0 <= j < s.len() ==> entries_map(s).contains_key(#[trigger] s[j].key()),
    decreases s.len(),
{
    if s.len() > 0 {
        lemma_keys_present(s.drop_last());
        assert forall|j: int| 0 <= j < s.len() implies entries_map(s).contains_key(
            #[trigger] s[j].key(),
        ) by {
            if j < s.len() - 1 {
                assert(s.drop_last()[j] == s[j]);
            }
        }
    }
}

} // verus!
