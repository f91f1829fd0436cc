//! A map from texts to values, kept as a list of entries in key order.
//!
//! Lookups take the first entry of a key, so every operation is meaningful on
//! any list of entries; an ordered list stays ordered, which also means that no
//! key occurs twice.

use vstd::prelude::*;

use crate::text::{text_eq, text_less};

verus! {

/// A map with text keys.
pub struct TextMap<V> {
    /// The entries, in key order.
    pub entries: Vec<(String, V)>,
}

/// The map that a list of entries stands for.
pub open spec fn entries_map<V>(entries: Seq<(String, V)>) -> Map<Seq<char>, V>
    decreases entries.len(),
{
    if entries.len() == 0 {
        Map::empty()
    } else {
        entries_map(entries.subrange(1, entries.len() as int)).insert(
            entries[0].0@,
            entries[0].1,
        )
    }
}

/// Whether `key` occurs in the list.
pub open spec fn has_key<V>(entries: Seq<(String, V)>, key: Seq<char>) -> bool {
    exists|i: int| 0 <= i < entries.len() && (#[trigger] entries[i]).0@ == key
}

/// Whether `i` is the first position of `key`.
pub open spec fn first_at<V>(entries: Seq<(String, V)>, key: Seq<char>, i: int) -> bool {
    &&& 0 <= i < entries.len()
    &&& entries[i].0@ == key
    &&& forall|j: int| 0 <= j < i ==> (#[trigger] entries[j]).0@ != key
}

/// Whether the keys of the list ascend strictly.
pub open spec fn keys_ascend<V>(entries: Seq<(String, V)>) -> bool {
    forall|i: int, j: int|
        0 <= i < j < entries.len() ==> crate::text::less(
            (#[trigger] entries[i]).0@,
            (#[trigger] entries[j]).0@,
        )
}

/// The keys of the list, in order.
pub open spec fn entry_keys<V>(entries: Seq<(String, V)>) -> Seq<Seq<char>> {
    entries.map_values(|e: (String, V)| e.0@)
}

/// The map holds exactly the keys that occur in the list.
pub proof fn lemma_entries_domain<V>(entries: Seq<(String, V)>, key: Seq<char>)
    ensures
        entries_map(entries).contains_key(key) == has_key(entries, key),
    decreases entries.len(),
{
    if entries.len() > 0 {
        let rest = entries.subrange(1, entries.len() as int);
        lemma_entries_domain(rest, key);
        if has_key(rest, key) {
            let i = choose|i: int| 0 <= i < rest.len() && (#[trigger] rest[i]).0@ == key;
            assert(entries[i + 1].0@ == key);
        }
        if has_key(entries, key) && entries[0].0@ != key {
            let i = choose|i: int| 0 <= i < entries.len() && (#[trigger] entries[i]).0@ == key;
            assert(rest[i - 1].0@ == key);
        }
    }
}

/// The value of a key is that of its first entry.
pub proof fn lemma_entries_first<V>(entries: Seq<(String, V)>, key: Seq<char>, i: int)
    requires
        first_at(entries, key, i),
    ensures
        entries_map(entries).contains_key(key),
        entries_map(entries)[key] == entries[i].1,
    decreases entries.len(),
{
    if i > 0 {
        let rest = entries.subrange(1, entries.len() as int);
        assert(entries[0].0@ != key);
        assert forall|j: int| 0 <= j < i - 1 implies (#[trigger] rest[j]).0@ != key by {
            assert(entries[j + 1].0@ != key);
        }
        lemma_entries_first(rest, key, i - 1);
    }
}

/// Replacing the value of a key's first entry replaces it in the map.
pub proof fn lemma_entries_update<V>(entries: Seq<(String, V)>, i: int, entry: (String, V))
    requires
        first_at(entries, entry.0@, i),
    ensures
        entries_map(entries.update(i, entry)) == entries_map(entries).insert(entry.0@, entry.1),
    decreases entries.len(),
{
    let updated = entries.update(i, entry);
    let rest = entries.subrange(1, entries.len() as int);
    let updated_rest = updated.subrange(1, updated.len() as int);
    if i == 0 {
        assert(updated_rest =~= rest);
        assert(entries_map(updated) =~= entries_map(entries).insert(entry.0@, entry.1));
    } else {
        assert(entries[0].0@ != entry.0@);
        assert forall|j: int| 0 <= j < i - 1 implies (#[trigger] rest[j]).0@ != entry.0@ by {
            assert(entries[j + 1].0@ != entry.0@);
        }
        lemma_entries_update(rest, i - 1, entry);
        assert(updated_rest =~= rest.update(i - 1, entry));
        assert(entries_map(updated) =~= entries_map(entries).insert(entry.0@, entry.1));
    }
}

/// Putting in an entry of a new key adds it to the map.
pub proof fn lemma_entries_insert<V>(entries: Seq<(String, V)>, i: int, entry: (String, V))
    requires
        0 <= i <= entries.len(),
        !has_key(entries, entry.0@),
    ensures
        entries_map(entries.insert(i, entry)) == entries_map(entries).insert(entry.0@, entry.1),
    decreases entries.len(),
{
    let inserted = entries.insert(i, entry);
    let inserted_rest = inserted.subrange(1, inserted.len() as int);
    if i == 0 {
        assert(inserted_rest =~= entries);
    } else {
        let rest = entries.subrange(1, entries.len() as int);
        assert(entries[0].0@ != entry.0@);
        assert forall|j: int| 0 <= j < rest.len() implies (#[trigger] rest[j]).0@ != entry.0@ by {
            assert(entries[j + 1].0@ != entry.0@);
        }
        lemma_entries_insert(rest, i - 1, entry);
        assert(inserted_rest =~= rest.insert(i - 1, entry));
        assert(entries_map(inserted) =~= entries_map(entries).insert(entry.0@, entry.1));
    }
}

/// In an ordered list every entry is the first of its key.
pub proof fn lemma_unique_first<V>(entries: Seq<(String, V)>, i: int)
    requires
        keys_ascend(entries),
        0 <= i < entries.len(),
    ensures
        first_at(entries, entries[i].0@, i),
{
    assert forall|j: int| 0 <= j < i implies (#[trigger] entries[j]).0@ != entries[i].0@ by {
        crate::text::lemma_less_irreflexive(entries[i].0@);
    }
}

/// The list without the entries of a key.
pub open spec fn entries_without<V>(entries: Seq<(String, V)>, key: Seq<char>) -> Seq<(String, V)>
    decreases entries.len(),
{
    if entries.len() == 0 {
        entries
    } else {
        let rest = entries_without(entries.subrange(1, entries.len() as int), key);
        if entries[0].0@ == key {
            rest
        } else {
            seq![entries[0]] + rest
        }
    }
}

/// Dropping the entries of a key removes it from the map.
pub proof fn lemma_entries_without<V>(entries: Seq<(String, V)>, key: Seq<char>)
    ensures
        entries_map(entries_without(entries, key)) == entries_map(entries).remove(key),
    decreases entries.len(),
{
    if entries.len() == 0 {
        assert(entries_map(entries).remove(key) =~= entries_map(entries));
    } else {
        let rest = entries.subrange(1, entries.len() as int);
        lemma_entries_without(rest, key);
        if entries[0].0@ != key {
            let kept = entries_without(entries, key);
            assert(kept.subrange(1, kept.len() as int) =~= entries_without(rest, key));
        }
        assert(entries_map(entries_without(entries, key)) =~= entries_map(entries).remove(key));
    }
}

impl<V> View for TextMap<V> {
    type V = Map<Seq<char>, V>;

    open spec fn view(&self) -> Map<Seq<char>, V> {
        entries_map(self.entries@)
    }
}

impl<V> TextMap<V> {
    /// Whether the entries are in key order, so that no key occurs twice.
    pub open spec fn ordered(self) -> bool {
        keys_ascend(self.entries@)
    }

    /// The keys in entry order.
    pub open spec fn key_list(self) -> Seq<Seq<char>> {
        entry_keys(self.entries@)
    }

    /// An empty map.
    pub fn new() -> (r: Self)
        ensures
            r@ == Map::<Seq<char>, V>::empty(),
            r.entries@ == Seq::<(String, V)>::empty(),
            r.ordered(),
    {
        TextMap { entries: Vec::new() }
    }

    /// The number of entries.
    pub fn len(&self) -> (r: usize)
        ensures
            r == self.entries@.len(),
    {
        self.entries.len()
    }

    /// The first position of `key`.
    pub fn find(&self, key: &str) -> (r: Option<usize>)
        ensures
            match r {
                Some(i) => first_at(self.entries@, key@, i as int) && self@.contains_key(key@)
                    && self@[key@] == self.entries@[i as int].1,
                None => !has_key(self.entries@, key@) && !self@.contains_key(key@),
            },
    {
        let mut i: usize = 0;
        while i < self.entries.len()
            invariant
                i <= self.entries.len(),
                forall|j: int| 0 <= j < i ==> (#[trigger] self.entries@[j]).0@ != key@,
            decreases self.entries.len() - i,
        {
            if text_eq(self.entries[i].0.as_str(), key) {
                proof {
                    lemma_entries_first(self.entries@, key@, i as int);
                }
                return Some(i);
            }
            i += 1;
        }
        proof {
            lemma_entries_domain(self.entries@, key@);
        }
        None
    }

    /// Whether the map holds `key`.
    pub fn contains_key(&self, key: &str) -> (r: bool)
        ensures
            r == self@.contains_key(key@),
    {
        self.find(key).is_some()
    }

    /// The value of `key`.
    pub fn get(&self, key: &str) -> (r: Option<&V>)
        ensures
            match r {
                Some(v) => self@.contains_key(key@) && *v == self@[key@],
                None => !self@.contains_key(key@),
            },
    {
        match self.find(key) {
            Some(i) => Some(&self.entries[i].1),
            None => None,
        }
    }

    /// Sets the value of `key`.
    pub fn insert(&mut self, key: String, value: V)
        ensures
            final(self)@ == old(self)@.insert(key@, value),
            old(self).ordered() ==> final(self).ordered(),
            forall|i: int|
                0 <= i < final(self).entries@.len() ==> (#[trigger] final(self).entries@[i]) == (
                    key,
                    value,
                ) || old(self).entries@.contains(final(self).entries@[i]),
    {
        match self.find(key.as_str()) {
            Some(i) => {
                proof {
                    lemma_entries_update(self.entries@, i as int, (key, value));
                }
                let ghost before = self.entries@;
                self.entries[i] = (key, value);
                assert(self.entries@ =~= before.update(i as int, (key, value)));
                assert forall|j: int| 0 <= j < self.entries@.len() implies (
                #[trigger] self.entries@[j]) == (key, value) || before.contains(
                    self.entries@[j],
                ) by {
                    if j != i {
                        assert(self.entries@[j] == before[j]);
                    }
                }
                assert(keys_ascend(before) ==> keys_ascend(self.entries@)) by {
                    assert(forall|j: int|
                        0 <= j < before.len() ==> (#[trigger] self.entries@[j]).0@
                            == before[j].0@);
                }
            },
            None => {
                let mut i: usize = 0;
                while i < self.entries.len() && text_less(
                    self.entries[i].0.as_str(),
                    key.as_str(),
                )
                    invariant
                        i <= self.entries.len(),
                        self.entries@ == old(self).entries@,
                        forall|j: int|
                            0 <= j < i ==> crate::text::less(
                                (#[trigger] self.entries@[j]).0@,
                                key@,
                            ),
                    decreases self.entries.len() - i,
                {
                    i += 1;
                }
                let ghost before = self.entries@;
                proof {
                    lemma_entries_insert(before, i as int, (key, value));
                    if keys_ascend(before) {
                        lemma_ordered_insert(before, i as int, (key, value));
                    }
                }
                self.entries.insert(i, (key, value));
                assert forall|j: int| 0 <= j < self.entries@.len() implies (
                #[trigger] self.entries@[j]) == (key, value) || before.contains(
                    self.entries@[j],
                ) by {
                    if j < i {
                        assert(self.entries@[j] == before[j]);
                    } else if j > i {
                        assert(self.entries@[j] == before[j - 1]);
                    }
                }
            },
        }
    }

    /// Replaces the value at position `i`.
    pub fn set_value(&mut self, i: usize, value: V)
        requires
            i < old(self).entries@.len(),
            first_at(old(self).entries@, old(self).entries@[i as int].0@, i as int),
        ensures
            final(self)@ == old(self)@.insert(old(self).entries@[i as int].0@, value),
            final(self).entries@ == old(self).entries@.update(
                i as int,
                (old(self).entries@[i as int].0, value),
            ),
            old(self).ordered() ==> final(self).ordered(),
    {
        let ghost before = self.entries@;
        proof {
            lemma_entries_update(before, i as int, (before[i as int].0, value));
        }
        let key = self.entries[i].0.clone();
        self.entries[i] = (key, value);
        assert(self.entries@ =~= before.update(i as int, (before[i as int].0, value)));
        assert(keys_ascend(before) ==> keys_ascend(self.entries@)) by {
            assert(forall|j: int|
                0 <= j < before.len() ==> (#[trigger] self.entries@[j]).0@ == before[j].0@);
        }
    }

    /// Removes `key` and returns its value.
    pub fn remove(&mut self, key: &str) -> (r: Option<V>)
        ensures
            final(self)@ == old(self)@.remove(key@),
            final(self).entries@ == entries_without(old(self).entries@, key@),
            r == (if old(self)@.contains_key(key@) {
                Some(old(self)@[key@])
            } else {
                None
            }),
            old(self).ordered() ==> final(self).ordered(),
            forall|i: int|
                0 <= i < final(self).entries@.len() ==> old(self).entries@.contains(
                    #[trigger] final(self).entries@[i],
                ),
    {
        let ghost before = self.entries@;
        let mut removed: Option<V> = None;
        let mut i: usize = 0;
        assert(before.subrange(0, before.len() as int) =~= before);
        assert forall|j: int| 0 <= j < before.len() implies before.contains(
            #[trigger] self.entries@[j],
        ) by {
            assert(before[j] == self.entries@[j]);
        }
        while i < self.entries.len()
            invariant
                i <= self.entries.len(),
                before == old(self).entries@,
                removed is None ==> self.entries@ == before,
                removed is Some ==> old(self)@.contains_key(key@) && removed->0 == old(self)@[key@],
                forall|j: int| 0 <= j < i ==> (#[trigger] self.entries@[j]).0@ != key@,
                forall|j: int|
                    0 <= j < self.entries@.len() ==> before.contains(#[trigger] self.entries@[j]),
                entries_without(before, key@) == self.entries@.take(i as int) + entries_without(
                    self.entries@.subrange(i as int, self.entries@.len() as int),
                    key@,
                ),
                keys_ascend(before) ==> keys_ascend(self.entries@),
            decreases self.entries.len() - i,
        {
            let ghost now = self.entries@;
            let ghost tail = now.subrange(i as int, now.len() as int);
            assert(tail.subrange(1, tail.len() as int) =~= now.subrange(i + 1, now.len() as int));
            if text_eq(self.entries[i].0.as_str(), key) {
                let entry = self.entries.remove(i);
                assert forall|j: int| 0 <= j < self.entries@.len() implies before.contains(
                    #[trigger] self.entries@[j],
                ) by {
                    if j < i {
                        assert(self.entries@[j] == now[j]);
                    } else {
                        assert(self.entries@[j] == now[j + 1]);
                    }
                }
                assert(self.entries@.subrange(i as int, self.entries@.len() as int)
                    =~= now.subrange(i + 1, now.len() as int));
                assert(self.entries@.take(i as int) =~= now.take(i as int));
                if removed.is_none() {
                    proof {
                        lemma_entries_first(before, key@, i as int);
                    }
                    removed = Some(entry.1);
                }
            } else {
                i += 1;
                assert(now.take(i as int) =~= now.take(i - 1) + seq![now[i - 1]]);
            }
        }
        proof {
            lemma_entries_without(before, key@);
            lemma_entries_domain(before, key@);
            assert(self.entries@ =~= entries_without(before, key@));
        }
        removed
    }
}

/// An entry put in where its key belongs keeps the list ordered.
proof fn lemma_ordered_insert<V>(entries: Seq<(String, V)>, i: int, entry: (String, V))
    requires
        0 <= i <= entries.len(),
        keys_ascend(entries),
        !has_key(entries, entry.0@),
        forall|j: int| 0 <= j < i ==> crate::text::less((#[trigger] entries[j]).0@, entry.0@),
        i < entries.len() ==> !crate::text::less(entries[i].0@, entry.0@),
    ensures
        keys_ascend(entries.insert(i, entry)),
{
    let s = entries.insert(i, entry);
    assert forall|a: int, b: int| 0 <= a < b < s.len() implies crate::text::less(
        (#[trigger] s[a]).0@,
        (#[trigger] s[b]).0@,
    ) by {
        if a == i {
            assert(entries[i].0@ != entry.0@);
            crate::text::lemma_less_total(entry.0@, entries[i].0@);
            assert(s[b] == entries[b - 1]);
            if b - 1 > i {
                assert(crate::text::less(entries[i].0@, entries[b - 1].0@));
                crate::text::lemma_less_transitive(entry.0@, entries[i].0@, entries[b - 1].0@);
            }
        } else if b == i {
            assert(s[a] == entries[a]);
        } else {
            let x = if a < i {
                a
            } else {
                a - 1
            };
            let y = if b < i {
                b
            } else {
                b - 1
            };
            assert(s[a] == entries[x] && s[b] == entries[y]);
        }
    }
}

} // verus!
