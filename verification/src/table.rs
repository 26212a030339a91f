use vstd::prelude::*;

use crate::text::str_equal;

verus! {

/// The keys of a list of entries.
pub open spec fn entry_keys<T>(entries: Seq<(String, T)>) -> Seq<Seq<char>> {
    entries.map_values(|e: (String, T)| e.0@)
}

/// No key occurs twice.
pub open spec fn keys_unique<T>(entries: Seq<(String, T)>) -> bool {
    forall|i: int, j: int|
        0 <= i < entries.len() && 0 <= j < entries.len() && i != j ==> entries[i].0@ != entries[j].0@
}

/// The map that a list of entries describes.
pub open spec fn entries_map<T>(entries: Seq<(String, T)>) -> Map<Seq<char>, T>
    decreases entries.len(),
{
    if entries.len() == 0 {
        Map::empty()
    } else {
        entries_map(entries.drop_last()).insert(entries.last().0@, entries.last().1)
    }
}

/// With unique keys, the map holds exactly the entries' keys, each with its value.
pub proof fn lemma_entries_map<T>(entries: Seq<(String, T)>)
    requires
        keys_unique(entries),
    ensures
        forall|k: Seq<char>| #[trigger] entries_map(entries).contains_key(k) <==> entry_keys(entries).contains(k),
        forall|i: int| 0 <= i < entries.len() ==> #[trigger] entries_map(entries)[entries[i].0@] == entries[i].1,
    decreases entries.len(),
{
    if entries.len() > 0 {
        let init = entries.drop_last();
        let last = entries.last();
        assert(keys_unique(init));
        lemma_entries_map(init);
        assert(entry_keys(entries) =~= entry_keys(init).push(last.0@));
        assert(entries_map(entries) == entries_map(init).insert(last.0@, last.1));
        assert forall|k: Seq<char>| #[trigger] entries_map(entries).contains_key(k) <==> entry_keys(entries).contains(k) by {
            let ek = entry_keys(entries);
            let ik = entry_keys(init);
            if ik.contains(k) {
                let i = choose|i: int| 0 <= i < ik.len() && ik[i] == k;
                assert(ek[i] == k);
            }
            if k == last.0@ {
                assert(ek[ek.len() - 1] == k);
            }
            if ek.contains(k) {
                let i = choose|i: int| 0 <= i < ek.len() && ek[i] == k;
                if i < ik.len() {
                    assert(ik[i] == k);
                }
            }
            assert(entries_map(init).contains_key(k) <==> ik.contains(k));
        }
        assert(entries_map(entries) == entries_map(init).insert(last.0@, last.1));
        assert forall|i: int| 0 <= i < entries.len() implies #[trigger] entries_map(entries)[entries[i].0@] == entries[i].1 by {
            if i == entries.len() - 1 {
                assert(entries[i] == last);
            } else {
                assert(init.len() == entries.len() - 1);
                assert(init[i] == entries[i]);
                assert(entries_map(init)[init[i].0@] == init[i].1);
                assert(entries[i].0@ != entries[entries.len() - 1].0@);
            }
        }
    }
}

/// The position of a key that the entries hold.
pub proof fn key_index<T>(entries: Seq<(String, T)>, k: Seq<char>) -> (i: int)
    requires
        entry_keys(entries).contains(k),
    ensures
        0 <= i < entries.len(),
        entries[i].0@ == k,
{
    let i = choose|i: int| 0 <= i < entry_keys(entries).len() && entry_keys(entries)[i] == k;
    i
}

/// A table of values under distinct string keys; setting a key that is present
/// replaces its value in place, a new key is added at the end.
#[derive(Debug)]
pub struct KeyedTable<T> {
    entries: Vec<(String, T)>,
}

impl<T> KeyedTable<T> {
    /// Well-formed: no key occurs twice.
    pub closed spec fn wf(self) -> bool {
        keys_unique(self.entries@)
    }

    /// The table as a map from keys to values.
    pub closed spec fn map(self) -> Map<Seq<char>, T> {
        entries_map(self.entries@)
    }

    /// The keys in table order.
    pub closed spec fn keys(self) -> Seq<Seq<char>> {
        entry_keys(self.entries@)
    }

    /// The entries in table order.
    pub closed spec fn entries(self) -> Seq<(String, T)> {
        self.entries@
    }

    /// The keys are those of the map, each once; the entries carry the map's values.
    pub proof fn lemma_view(self)
        requires
            self.wf(),
        ensures
            keys_unique(self.entries()),
            self.keys() == entry_keys(self.entries()),
            self.map() == entries_map(self.entries()),
            forall|k: Seq<char>| #[trigger] self.map().contains_key(k) <==> self.keys().contains(k),
            forall|i: int| 0 <= i < self.entries().len() ==> #[trigger] self.map()[self.entries()[i].0@] == self.entries()[i].1,
            self.keys().len() == self.entries().len(),
    {
        lemma_entries_map(self.entries@);
    }

    pub fn new() -> (r: Self)
        ensures
            r.wf(),
            r.map() == Map::<Seq<char>, T>::empty(),
            r.keys() == Seq::<Seq<char>>::empty(),
    {
        let r = KeyedTable { entries: Vec::new() };
        proof {
            assert(entry_keys(r.entries@) =~= Seq::<Seq<char>>::empty());
        }
        r
    }

    pub fn len(&self) -> (r: usize)
        requires
            self.wf(),
        ensures
            r == self.keys().len(),
            r == self.map().len(),
    {
        proof {
            self.lemma_view();
            self.lemma_len();
        }
        self.entries.len()
    }

    proof fn lemma_len(self)
        requires
            self.wf(),
        ensures
            self.map().len() == self.entries@.len(),
    {
        lemma_map_len(self.entries@);
    }

    /// The position of `key`, if present.
    fn position(&self, key: &str) -> (r: Option<usize>)
        ensures
            match r {
                Some(i) => i < self.entries@.len() && self.entries@[i as int].0@ == key@,
                None => forall|i: int| 0 <= i < self.entries@.len() ==> self.entries@[i].0@ != key@,
            },
    {
        let mut i: usize = 0;
        while i < self.entries.len()
            invariant
                i <= self.entries@.len(),
                forall|k: int| 0 <= k < i ==> self.entries@[k].0@ != key@,
            decreases self.entries@.len() - i,
        {
            if str_equal(self.entries[i].0.as_str(), key) {
                return Some(i);
            }
            i = i + 1;
        }
        None
    }

    /// The value under `key`.
    pub fn get(&self, key: &str) -> (r: Option<&T>)
        requires
            self.wf(),
        ensures
            match r {
                Some(v) => self.map().contains_key(key@) && self.map()[key@] == *v,
                None => !self.map().contains_key(key@),
            },
    {
        proof {
                lemma_entries_map(self.entries@);
        }
        match self.position(key) {
            Some(i) => {
                proof {
                    assert(entry_keys(self.entries@)[i as int] == key@);
                }
                Some(&self.entries[i].1)
            },
            None => {
                proof {
                    if self.map().contains_key(key@) {
                        let i = key_index(self.entries@, key@);
                    }
                }
                None
            },
        }
    }

    /// Whether `key` is present.
    pub fn contains(&self, key: &str) -> (r: bool)
        requires
            self.wf(),
        ensures
            r == self.map().contains_key(key@),
    {
        self.get(key).is_some()
    }

    /// Sets the value under `key`.
    pub fn set(&mut self, key: String, value: T)
        requires
            old(self).wf(),
        ensures
            final(self).wf(),
            final(self).map() == old(self).map().insert(key@, value),
            old(self).map().contains_key(key@) ==> final(self).keys() == old(self).keys(),
            !old(self).map().contains_key(key@) ==> final(self).keys() == old(self).keys().push(key@),
    {
        proof {
            lemma_entries_map(self.entries@);
        }
        let ghost old_entries = self.entries@;
        match self.position(key.as_str()) {
            Some(i) => {
                proof {
                    assert(entry_keys(old_entries)[i as int] == key@);
                    lemma_update_map(old_entries, i as int, (key, value));
                }
                let mut entries: Vec<(String, T)> = Vec::new();
                std::mem::swap(&mut entries, &mut self.entries);
                proof {
                    assert(entries@ == old_entries);
                }
                entries.set(i, (key, value));
                proof {
                    assert(entry_keys(entries@) =~= entry_keys(old_entries));
                    assert(keys_unique(entries@)) by {
                        assert forall|a: int, b: int| 0 <= a < entries@.len() && 0 <= b < entries@.len() && a != b implies entries@[a].0@ != entries@[b].0@ by {
                            assert(entries@[a].0@ == old_entries[a].0@);
                            assert(entries@[b].0@ == old_entries[b].0@);
                        }
                    }
                }
                self.entries = entries;
            },
            None => {
                let mut entries: Vec<(String, T)> = Vec::new();
                std::mem::swap(&mut entries, &mut self.entries);
                proof {
                    assert(entries@ == old_entries);
                    if self.map().contains_key(key@) {
                        let j = key_index(old_entries, key@);
                    }
                }
                entries.push((key, value));
                proof {
                    assert(entries@.drop_last() =~= old_entries);
                    assert(entry_keys(entries@) =~= entry_keys(old_entries).push(key@));
                    assert(keys_unique(entries@)) by {
                        assert forall|a: int, b: int| 0 <= a < entries@.len() && 0 <= b < entries@.len() && a != b implies entries@[a].0@ != entries@[b].0@ by {
                            if a < old_entries.len() && b < old_entries.len() {
                                assert(entries@[a] == old_entries[a]);
                                assert(entries@[b] == old_entries[b]);
                            } else if a < old_entries.len() {
                                assert(entries@[a] == old_entries[a]);
                            } else {
                                assert(entries@[b] == old_entries[b]);
                            }
                        }
                    }
                }
                self.entries = entries;
            },
        }
    }

    /// Removes the entry under `key` and returns its value.
    pub fn remove(&mut self, key: &str) -> (r: Option<T>)
        requires
            old(self).wf(),
        ensures
            final(self).wf(),
            final(self).map() == old(self).map().remove(key@),
            match r {
                Some(v) => old(self).map().contains_key(key@) && old(self).map()[key@] == v,
                None => !old(self).map().contains_key(key@),
            },
    {
        proof {
            lemma_entries_map(self.entries@);
        }
        let ghost old_entries = self.entries@;
        match self.position(key) {
            Some(i) => {
                let mut entries: Vec<(String, T)> = Vec::new();
                std::mem::swap(&mut entries, &mut self.entries);
                proof {
                    assert(entries@ == old_entries);
                    assert(entry_keys(old_entries)[i as int] == key@);
                    lemma_remove_map(old_entries, i as int);
                }
                let (_, value) = entries.remove(i);
                proof {
                    assert(keys_unique(entries@)) by {
                        assert forall|a: int, b: int| 0 <= a < entries@.len() && 0 <= b < entries@.len() && a != b implies entries@[a].0@ != entries@[b].0@ by {
                            let oa = if a < i { a } else { a + 1 };
                            let ob = if b < i { b } else { b + 1 };
                            assert(entries@[a] == old_entries[oa]);
                            assert(entries@[b] == old_entries[ob]);
                        }
                    }
                }
                self.entries = entries;
                Some(value)
            },
            None => {
                proof {
                    if self.map().contains_key(key@) {
                        let j = key_index(old_entries, key@);
                    }
                    assert(self.map().remove(key@) =~= self.map());
                }
                None
            },
        }
    }

    /// The keys in table order.
    pub fn key_list(&self) -> (r: Vec<String>)
        ensures
            r@.map_values(|s: String| s@) == self.keys(),
    {
        let mut out: Vec<String> = Vec::new();
        let mut i: usize = 0;
        while i < self.entries.len()
            invariant
                i <= self.entries@.len(),
                out@.map_values(|s: String| s@) == entry_keys(self.entries@.take(i as int)),
            decreases self.entries@.len() - i,
        {
            let ghost prev = out@;
            let k = self.entries[i].0.clone();
            out.push(k);
            proof {
                assert(out@ == prev.push(k));
                assert(out@.map_values(|s: String| s@) =~= prev.map_values(|s: String| s@).push(k@));
                assert(entry_keys(self.entries@.take(i + 1)) =~= entry_keys(self.entries@.take(i as int)).push(self.entries@[i as int].0@));
            }
            i = i + 1;
        }
        proof {
            assert(self.entries@.take(self.entries@.len() as int) =~= self.entries@);
        }
        out
    }

    /// The entries in table order.
    pub fn entry_list(&self) -> (r: &Vec<(String, T)>)
        ensures
            r@ == self.entries(),
    {
        &self.entries
    }
}

/// With unique keys, the map has as many keys as there are entries.
pub proof fn lemma_map_len<T>(entries: Seq<(String, T)>)
    requires
        keys_unique(entries),
    ensures
        entries_map(entries).dom().finite(),
        entries_map(entries).len() == entries.len(),
    decreases entries.len(),
{
    if entries.len() > 0 {
        let init = entries.drop_last();
        assert(keys_unique(init));
        lemma_map_len(init);
        lemma_entries_map(init);
        if entries_map(init).contains_key(entries.last().0@) {
            let i = key_index(init, entries.last().0@);
            assert(entries[i].0@ == entries[entries.len() - 1].0@);
        }
    }
}

/// Replacing the entry at `i` by one with the same key updates the map at that key.
pub proof fn lemma_update_map<T>(entries: Seq<(String, T)>, i: int, e: (String, T))
    requires
        keys_unique(entries),
        0 <= i < entries.len(),
        entries[i].0@ == e.0@,
    ensures
        entries_map(entries.update(i, e)) == entries_map(entries).insert(e.0@, e.1),
    decreases entries.len(),
{
    let n = entries.update(i, e);
    if i == entries.len() - 1 {
        assert(n.drop_last() =~= entries.drop_last());
        let init = entries.drop_last();
        assert(keys_unique(init));
        lemma_entries_map(init);
        assert(!entries_map(init).contains_key(e.0@)) by {
            if entries_map(init).contains_key(e.0@) {
                let j = key_index(init, e.0@);
                assert(entries[j].0@ == entries[i].0@);
            }
        }
        assert(entries_map(n) =~= entries_map(entries).insert(e.0@, e.1));
    } else {
        let init = entries.drop_last();
        assert(keys_unique(init));
        lemma_update_map(init, i, e);
        assert(n.drop_last() =~= init.update(i, e));
        assert(entries.last().0@ != e.0@) by {
            assert(entries[entries.len() - 1].0@ != entries[i].0@);
        }
        assert(entries_map(n) =~= entries_map(entries).insert(e.0@, e.1));
    }
}

/// Removing the entry at `i` removes its key from the map.
pub proof fn lemma_remove_map<T>(entries: Seq<(String, T)>, i: int)
    requires
        keys_unique(entries),
        0 <= i < entries.len(),
    ensures
        entries_map(entries.remove(i)) == entries_map(entries).remove(entries[i].0@),
    decreases entries.len(),
{
    let n = entries.remove(i);
    let init = entries.drop_last();
    assert(keys_unique(init));
    lemma_entries_map(init);
    if i == entries.len() - 1 {
        assert(n =~= init);
        assert(!entries_map(init).contains_key(entries[i].0@)) by {
            if entries_map(init).contains_key(entries[i].0@) {
                let j = key_index(init, entries[i].0@);
                assert(entries[j].0@ == entries[i].0@);
            }
        }
        assert(entries_map(n) =~= entries_map(entries).remove(entries[i].0@));
    } else {
        lemma_remove_map(init, i);
        assert(n.drop_last() =~= init.remove(i));
        assert(n.last() == entries.last());
        assert(entries.last().0@ != entries[i].0@) by {
            assert(entries[entries.len() - 1].0@ != entries[i].0@);
        }
        assert(entries_map(n) =~= entries_map(entries).remove(entries[i].0@));
    }
}

} // verus!
