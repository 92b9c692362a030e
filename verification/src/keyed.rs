//! A collection of values kept by text key, with at most one value per key
//! (inserting under a key in use replaces its value), listed in the order
//! the keys were first inserted.

use vstd::prelude::*;

verus! {

/// The values of a list of pairs, by key.
pub open spec fn keyed_map<V>(entries: Seq<(String, V)>) -> Map<Seq<char>, V>
    decreases entries.len(),
{
    if entries.len() == 0 {
        Map::empty()
    } else {
        keyed_map(entries.drop_last()).insert(entries.last().0@, entries.last().1)
    }
}

/// No two pairs of the list have the same key.
pub open spec fn keys_unique<V>(entries: Seq<(String, V)>) -> bool {
    forall|i: int, j: int| 0 <= i < j < entries.len() ==> entries[i].0@ != entries[j].0@
}

proof fn lemma_keyed_map<V>(entries: Seq<(String, V)>)
    requires
        keys_unique(entries),
    ensures
        keyed_map(entries).dom().finite(),
        keyed_map(entries).len() == entries.len(),
        forall|i: int|
            0 <= i < entries.len() ==> #[trigger] keyed_map(entries).contains_key(entries[i].0@)
                && keyed_map(entries)[entries[i].0@] == entries[i].1,
        forall|k: Seq<char>|
            #[trigger] keyed_map(entries).contains_key(k) ==> exists|i: int|
                0 <= i < entries.len() && entries[i].0@ == k,
    decreases entries.len(),
{
    if entries.len() > 0 {
        let rest = entries.drop_last();
        assert(keys_unique(rest));
        lemma_keyed_map(rest);
        let last = entries.last();
        assert(!keyed_map(rest).contains_key(last.0@)) by {
            if keyed_map(rest).contains_key(last.0@) {
                let i = choose|i: int| 0 <= i < rest.len() && rest[i].0@ == last.0@;
                assert(entries[i].0@ == entries[entries.len() - 1].0@);
            }
        }
        assert forall|i: int| 0 <= i < entries.len() implies #[trigger] keyed_map(
            entries,
        ).contains_key(entries[i].0@) && keyed_map(entries)[entries[i].0@] == entries[i].1 by {
            if i < entries.len() - 1 {
                assert(rest[i] == entries[i]);
                assert(entries[i].0@ != last.0@);
            }
        }
        assert forall|k: Seq<char>| #[trigger] keyed_map(entries).contains_key(k) implies exists|
            i: int,
        | 0 <= i < entries.len() && entries[i].0@ == k by {
            if k == last.0@ {
                assert(entries[entries.len() - 1].0@ == k);
            } else {
                assert(keyed_map(rest).contains_key(k));
                let i = choose|i: int| 0 <= i < rest.len() && rest[i].0@ == k;
                assert(entries[i] == rest[i]);
            }
        }
    }
}

proof fn lemma_keyed_map_update<V>(entries: Seq<(String, V)>, i: int, entry: (String, V))
    requires
        keys_unique(entries),
        0 <= i < entries.len(),
        entry.0@ == entries[i].0@,
    ensures
        keys_unique(entries.update(i, entry)),
        keyed_map(entries.update(i, entry)) == keyed_map(entries).insert(entry.0@, entry.1),
{
    let updated = entries.update(i, entry);
    assert(keys_unique(updated)) by {
        assert forall|a: int, b: int| 0 <= a < b < updated.len() implies updated[a].0@
            != updated[b].0@ by {
            assert(updated[a].0@ == entries[a].0@);
            assert(updated[b].0@ == entries[b].0@);
        }
    }
    lemma_keyed_map(entries);
    lemma_keyed_map(updated);
    let lhs = keyed_map(updated);
    let rhs = keyed_map(entries).insert(entry.0@, entry.1);
    assert forall|k: Seq<char>| #[trigger] lhs.contains_key(k) == rhs.contains_key(k) by {
        if lhs.contains_key(k) {
            let j = choose|j: int| 0 <= j < updated.len() && updated[j].0@ == k;
            assert(entries[j].0@ == k);
            assert(keyed_map(entries).contains_key(entries[j].0@));
        }
        if keyed_map(entries).contains_key(k) {
            let j = choose|j: int| 0 <= j < entries.len() && entries[j].0@ == k;
            assert(updated[j].0@ == k);
            assert(lhs.contains_key(updated[j].0@));
        }
        if k == entry.0@ {
            assert(lhs.contains_key(updated[i].0@));
        }
    }
    assert forall|k: Seq<char>| #[trigger] lhs.contains_key(k) implies lhs[k] == rhs[k] by {
        let j = choose|j: int| 0 <= j < updated.len() && updated[j].0@ == k;
        assert(lhs[updated[j].0@] == updated[j].1);
        if j == i {
            assert(k == entry.0@);
        } else {
            assert(entries[j].0@ == k);
            assert(keyed_map(entries)[entries[j].0@] == entries[j].1);
            assert(k != entry.0@) by {
                assert(entries[i].0@ != entries[j].0@);
            }
        }
    }
    assert(lhs =~= rhs);
}

proof fn lemma_keyed_map_remove<V>(entries: Seq<(String, V)>, i: int)
    requires
        keys_unique(entries),
        0 <= i < entries.len(),
    ensures
        keys_unique(entries.remove(i)),
        keyed_map(entries.remove(i)) == keyed_map(entries).remove(entries[i].0@),
{
    let removed = entries.remove(i);
    assert(keys_unique(removed)) by {
        assert forall|a: int, b: int| 0 <= a < b < removed.len() implies removed[a].0@
            != removed[b].0@ by {
            let ta = if a < i { a } else { a + 1 };
            let tb = if b < i { b } else { b + 1 };
            assert(removed[a] == entries[ta]);
            assert(removed[b] == entries[tb]);
        }
    }
    lemma_keyed_map(entries);
    lemma_keyed_map(removed);
    let gone = entries[i].0@;
    let lhs = keyed_map(removed);
    let rhs = keyed_map(entries).remove(gone);
    assert forall|k: Seq<char>| #[trigger] lhs.contains_key(k) == rhs.contains_key(k) by {
        if lhs.contains_key(k) {
            let j = choose|j: int| 0 <= j < removed.len() && removed[j].0@ == k;
            let tj = if j < i { j } else { j + 1 };
            assert(removed[j] == entries[tj]);
            assert(keyed_map(entries).contains_key(entries[tj].0@));
            assert(entries[tj].0@ != gone);
        }
        if rhs.contains_key(k) {
            let j = choose|j: int| 0 <= j < entries.len() && entries[j].0@ == k;
            assert(j != i);
            let rj = if j < i { j } else { j - 1 };
            assert(removed[rj] == entries[j]);
            assert(lhs.contains_key(removed[rj].0@));
        }
    }
    assert forall|k: Seq<char>| #[trigger] lhs.contains_key(k) implies lhs[k] == rhs[k] by {
        let j = choose|j: int| 0 <= j < removed.len() && removed[j].0@ == k;
        let tj = if j < i { j } else { j + 1 };
        assert(removed[j] == entries[tj]);
        assert(lhs[removed[j].0@] == removed[j].1);
        assert(keyed_map(entries)[entries[tj].0@] == entries[tj].1);
    }
    assert(lhs =~= rhs);
}

proof fn lemma_keyed_map_push<V>(entries: Seq<(String, V)>, entry: (String, V))
    requires
        keys_unique(entries),
        forall|j: int| 0 <= j < entries.len() ==> entries[j].0@ != entry.0@,
    ensures
        keys_unique(entries.push(entry)),
        keyed_map(entries.push(entry)) == keyed_map(entries).insert(entry.0@, entry.1),
{
    assert(entries.push(entry).drop_last() =~= entries);
    assert(keys_unique(entries.push(entry))) by {
        assert forall|a: int, b: int| 0 <= a < b < entries.push(entry).len() implies entries.push(
            entry,
        )[a].0@ != entries.push(entry)[b].0@ by {
            if b == entries.len() {
                assert(entries.push(entry)[a] == entries[a]);
            } else {
                assert(entries.push(entry)[a] == entries[a]);
                assert(entries.push(entry)[b] == entries[b]);
            }
        }
    }
}

/// The position of the pair with key `key`, if the list holds one.
fn find_key<V>(entries: &Vec<(String, V)>, key: &String) -> (pos: Option<usize>)
    ensures
        match pos {
            Some(i) => i < entries@.len() && entries@[i as int].0@ == key@,
            None => forall|j: int| 0 <= j < entries@.len() ==> entries@[j].0@ != key@,
        },
{
    let mut i: usize = 0;
    while i < entries.len()
        invariant
            i <= entries@.len(),
            forall|j: int| 0 <= j < i ==> entries@[j].0@ != key@,
        decreases entries@.len() - i,
    {
        if entries[i].0 == *key {
            return Some(i);
        }
        i = i + 1;
    }
    None
}

/// Values kept by text key, at most one per key.
#[derive(Debug)]
pub struct KeyedList<V> {
    entries: Vec<(String, V)>,
}

impl<V> View for KeyedList<V> {
    type V = Map<Seq<char>, V>;

    closed spec fn view(&self) -> Map<Seq<char>, V> {
        keyed_map(self.entries@)
    }
}

impl<V> KeyedList<V> {
    #[verifier::type_invariant]
    spec fn one_value_per_key(self) -> bool {
        keys_unique(self.entries@)
    }

    /// The order in which the pairs are listed.
    pub closed spec fn listing(&self) -> Seq<(String, V)> {
        self.entries@
    }

    /// An empty collection.
    pub fn new() -> (list: Self)
        ensures
            list@ == Map::<Seq<char>, V>::empty(),
    {
        KeyedList { entries: Vec::new() }
    }

    /// Keeps `value` under `key`, replacing the value kept under it, if any.
    pub fn insert(&mut self, key: &str, value: V)
        ensures
            final(self)@ == old(self)@.insert(key@, value),
    {
        proof {
            use_type_invariant(&*self);
        }
        let entry = (key.to_owned(), value);
        let mut entries: Vec<(String, V)> = Vec::new();
        std::mem::swap(&mut entries, &mut self.entries);
        match find_key(&entries, &entry.0) {
            Some(i) => {
                proof {
                    lemma_keyed_map_update(entries@, i as int, entry);
                }
                entries.set(i, entry);
            },
            None => {
                proof {
                    lemma_keyed_map_push(entries@, entry);
                }
                entries.push(entry);
            },
        }
        self.entries = entries;
    }

    /// Removes the value kept under `key`. Returns whether there was one.
    pub fn remove(&mut self, key: &str) -> (removed: bool)
        ensures
            removed == old(self)@.contains_key(key@),
            final(self)@ == old(self)@.remove(key@),
    {
        proof {
            use_type_invariant(&*self);
            lemma_keyed_map(self.entries@);
        }
        let k = key.to_owned();
        let mut entries: Vec<(String, V)> = Vec::new();
        std::mem::swap(&mut entries, &mut self.entries);
        let removed = match find_key(&entries, &k) {
            Some(i) => {
                proof {
                    lemma_keyed_map_remove(entries@, i as int);
                }
                entries.remove(i);
                true
            },
            None => {
                assert(keyed_map(entries@).remove(key@) =~= keyed_map(entries@));
                false
            },
        };
        self.entries = entries;
        removed
    }

    /// The value kept under `key`, if any.
    pub fn get(&self, key: &str) -> (value: Option<&V>)
        ensures
            value == (if self@.contains_key(key@) {
                Some(&self@[key@])
            } else {
                None
            }),
    {
        proof {
            use_type_invariant(self);
            lemma_keyed_map(self.entries@);
        }
        let k = key.to_owned();
        match find_key(&self.entries, &k) {
            Some(i) => Some(&self.entries[i].1),
            None => None,
        }
    }

    /// The pair at position `pos` of the listing, if there is one.
    pub fn get_by_pos(&self, pos: usize) -> (entry: Option<&(String, V)>)
        ensures
            entry == (if pos < self.listing().len() {
                Some(&self.listing()[pos as int])
            } else {
                None
            }),
            entry matches Some(e) ==> self@.contains_key(e.0@) && self@[e.0@] == e.1,
    {
        proof {
            use_type_invariant(self);
            lemma_keyed_map(self.entries@);
        }
        if pos < self.entries.len() {
            Some(&self.entries[pos])
        } else {
            None
        }
    }

    /// The number of keys.
    pub fn len(&self) -> (count: usize)
        ensures
            count == self@.len(),
            count == self.listing().len(),
    {
        proof {
            use_type_invariant(self);
            lemma_keyed_map(self.entries@);
        }
        self.entries.len()
    }
}

} // verus!
