//! A small map keyed by text: the name of a mount namespace, the name of a
//! setting.
use vstd::prelude::*;

verus! {

/// The place of `key` among `entries`, where it has one.
pub open spec fn key_index<V>(entries: Seq<(String, V)>, key: Seq<char>) -> int {
    choose|i: int| 0 <= i < entries.len() && entries[i].0@ == key
}

/// Whether no two of `entries` have the same key.
pub open spec fn distinct_keys<V>(entries: Seq<(String, V)>) -> bool {
    forall|i: int, j: int|
        0 <= i < j < entries.len() ==> (#[trigger] entries[i]).0@ != (#[trigger] entries[j]).0@
}

/// The map that a list of entries with distinct keys stands for.
pub open spec fn entries_map<V>(entries: Seq<(String, V)>) -> Map<Seq<char>, V> {
    Map::new(
        |k: Seq<char>| exists|i: int| 0 <= i < entries.len() && (#[trigger] entries[i]).0@ == k,
        |k: Seq<char>| entries[key_index(entries, k)].1,
    )
}

/// Among entries with distinct keys a key stands at one place only.
pub proof fn key_index_is<V>(entries: Seq<(String, V)>, i: int)
    requires
        distinct_keys(entries),
        0 <= i < entries.len(),
    ensures
        key_index(entries, entries[i].0@) == i,
        entries_map(entries).contains_key(entries[i].0@),
        entries_map(entries)[entries[i].0@] == entries[i].1,
{
    let k = entries[i].0@;
    let j = key_index(entries, k);
    assert(0 <= j < entries.len() && entries[j].0@ == k);
    if j < i {
        assert(entries[j].0@ != entries[i].0@);
    }
    if i < j {
        assert(entries[i].0@ != entries[j].0@);
    }
}

/// A map from names to values, held as a list of entries in which no name
/// occurs twice.
#[derive(Debug)]
pub struct TextMap<V> {
    entries: Vec<(String, V)>,
}

impl<V> View for TextMap<V> {
    type V = Map<Seq<char>, V>;

    closed spec fn view(&self) -> Map<Seq<char>, V> {
        entries_map(self.entries@)
    }
}

impl<V> TextMap<V> {
    /// The invariant: no name occurs twice.
    pub closed spec fn wf(&self) -> bool {
        distinct_keys(self.entries@)
    }

    /// The empty map.
    pub fn new() -> (m: Self)
        ensures
            m.wf(),
            m@ == Map::<Seq<char>, V>::empty(),
    {
        let m = TextMap { entries: Vec::new() };
        assert(m@ =~= Map::<Seq<char>, V>::empty());
        m
    }

    /// Where `key` stands in the list.
    fn find(&self, key: &String) -> (found: Option<usize>)
        requires
            self.wf(),
        ensures
            match found {
                Some(i) => i < self.entries.len() && self.entries[i as int].0@ == key@,
                None => forall|i: int|
                    0 <= i < self.entries.len() ==> (#[trigger] self.entries[i]).0@ != key@,
            },
            found.is_some() == self@.contains_key(key@),
    {
        let mut i: usize = 0;
        while i < self.entries.len()
            invariant
                0 <= i <= self.entries.len(),
                forall|j: int| 0 <= j < i ==> (#[trigger] self.entries[j]).0@ != key@,
            decreases self.entries.len() - i,
        {
            if self.entries[i].0 == *key {
                return Some(i);
            }
            i = i + 1;
        }
        None
    }

    /// Whether `key` has a value.
    pub fn contains_key(&self, key: &String) -> (b: bool)
        requires
            self.wf(),
        ensures
            b == self@.contains_key(key@),
    {
        self.find(key).is_some()
    }

    /// The value of `key`, where it has one.
    pub fn get(&self, key: &String) -> (value: Option<&V>)
        requires
            self.wf(),
        ensures
            match value {
                Some(v) => self@.contains_key(key@) && *v == self@[key@],
                None => !self@.contains_key(key@),
            },
    {
        match self.find(key) {
            Some(i) => {
                proof {
                    key_index_is(self.entries@, i as int);
                }
                Some(&self.entries[i].1)
            },
            None => None,
        }
    }

    /// Takes `key` and its value out of the map and hands the value back.
    pub fn remove(&mut self, key: &String) -> (removed: Option<V>)
        requires
            old(self).wf(),
        ensures
            final(self).wf(),
            final(self)@ == old(self)@.remove(key@),
            match removed {
                Some(v) => old(self)@.contains_key(key@) && v == old(self)@[key@],
                None => !old(self)@.contains_key(key@),
            },
    {
        match self.find(key) {
            Some(i) => {
                let ghost before = self.entries@;
                proof {
                    key_index_is(before, i as int);
                }
                let entry = self.entries.remove(i);
                proof {
                    let after = self.entries@;
                    assert forall|a: int, b: int| 0 <= a < b < after.len() implies (
                    #[trigger] after[a]).0@ != (#[trigger] after[b]).0@ by {
                        let a0 = if a < i { a } else { a + 1 };
                        let b0 = if b < i { b } else { b + 1 };
                        assert(after[a] == before[a0]);
                        assert(after[b] == before[b0]);
                    }
                    assert forall|k: Seq<char>| #[trigger]
                        entries_map(after).contains_key(k) == (k != key@ && entries_map(
                            before,
                        ).contains_key(k)) by {
                        if entries_map(after).contains_key(k) {
                            let a = choose|a: int| 0 <= a < after.len() && (#[trigger] after[a]).0@ == k;
                            let a0 = if a < i { a } else { a + 1 };
                            assert(after[a] == before[a0]);
                            assert(before[a0].0@ == k);
                            if a0 < i {
                                assert(before[a0].0@ != before[i as int].0@);
                            } else {
                                assert(before[i as int].0@ != before[a0].0@);
                            }
                        }
                        if k != key@ && entries_map(before).contains_key(k) {
                            let b = choose|b: int| 0 <= b < before.len() && (#[trigger] before[b]).0@ == k;
                            let b1 = if b < i { b } else { b - 1 };
                            assert(after[b1] == before[b]);
                            assert(after[b1].0@ == k);
                        }
                    }
                    assert forall|k: Seq<char>| #[trigger]
                        entries_map(after).contains_key(k) implies entries_map(after)[k]
                        == entries_map(before)[k] by {
                        let a = key_index(after, k);
                        let a0 = if a < i { a } else { a + 1 };
                        assert(after[a] == before[a0]);
                        key_index_is(before, a0);
                    }
                    assert(entries_map(after) =~= entries_map(before).remove(key@));
                }
                Some(entry.1)
            },
            None => {
                assert(self@ =~= self@.remove(key@));
                None
            },
        }
    }

    /// Gives `key` the value `value` and hands back the value it had.
    pub fn insert(&mut self, key: String, value: V) -> (replaced: Option<V>)
        requires
            old(self).wf(),
        ensures
            final(self).wf(),
            final(self)@ == old(self)@.insert(key@, value),
            match replaced {
                Some(v) => old(self)@.contains_key(key@) && v == old(self)@[key@],
                None => !old(self)@.contains_key(key@),
            },
    {
        let replaced = self.remove(&key);
        let ghost before = self.entries@;
        let ghost key_view = key@;
        proof {
            assert(!entries_map(before).contains_key(key_view));
            assert forall|i: int| 0 <= i < before.len() implies (#[trigger] before[i]).0@
                != key_view by {
                if before[i].0@ == key_view {
                    assert(entries_map(before).contains_key(key_view));
                }
            }
        }
        self.entries.push((key, value));
        proof {
            let after = self.entries@;
            let last = before.len() as int;
            assert(after[last].0@ == key_view);
            assert forall|a: int, b: int| 0 <= a < b < after.len() implies (#[trigger] after[a]).0@
                != (#[trigger] after[b]).0@ by {
                assert(after[a] == before[a]);
                if b < last {
                    assert(after[b] == before[b]);
                }
            }
            assert forall|k: Seq<char>| #[trigger]
                entries_map(after).contains_key(k) == (k == key_view || entries_map(
                    before,
                ).contains_key(k)) by {
                if entries_map(after).contains_key(k) && k != key_view {
                    let a = choose|a: int| 0 <= a < after.len() && (#[trigger] after[a]).0@ == k;
                    assert(a < last);
                    assert(after[a] == before[a]);
                    assert(before[a].0@ == k);
                }
                if entries_map(before).contains_key(k) {
                    let b = choose|b: int| 0 <= b < before.len() && (#[trigger] before[b]).0@ == k;
                    assert(after[b] == before[b]);
                    assert(after[b].0@ == k);
                }
                if k == key_view {
                    assert(after[last].0@ == k);
                }
            }
            assert forall|k: Seq<char>| #[trigger]
                entries_map(after).contains_key(k) implies entries_map(after)[k] == entries_map(
                before,
            ).insert(key_view, value)[k] by {
                let a = key_index(after, k);
                key_index_is(after, a);
                if a < last {
                    assert(after[a] == before[a]);
                    key_index_is(before, a);
                } else {
                    assert(k == key_view);
                }
            }
            assert(entries_map(after) =~= entries_map(before).insert(key_view, value));
            assert(old(self)@.remove(key_view).insert(key_view, value) =~= old(self)@.insert(
                key_view,
                value,
            ));
        }
        replaced
    }

    /// The entries of the map, one for each name, in no particular order.
    pub fn entries(&self) -> (list: &Vec<(String, V)>)
        requires
            self.wf(),
        ensures
            distinct_keys(list@),
            entries_map(list@) == self@,
    {
        &self.entries
    }

    /// How many names have a value.
    pub fn len(&self) -> (n: usize)
        requires
            self.wf(),
        ensures
            n == self@.dom().len(),
            self@.dom().finite(),
    {
        proof {
            Self::lemma_dom_len(self.entries@);
        }
        self.entries.len()
    }

    /// A list of entries with distinct keys stands for a map with as many
    /// keys as the list is long.
    proof fn lemma_dom_len(entries: Seq<(String, V)>)
        requires
            distinct_keys(entries),
        ensures
            entries_map(entries).dom().finite(),
            entries_map(entries).dom().len() == entries.len(),
        decreases entries.len(),
    {
        if entries.len() == 0 {
            assert(entries_map(entries).dom() =~= Set::<Seq<char>>::empty());
        } else {
            let front = entries.drop_last();
            let last = entries.last();
            assert forall|i: int, j: int| 0 <= i < j < front.len() implies (#[trigger] front[i]).0@
                != (#[trigger] front[j]).0@ by {
                assert(front[i] == entries[i]);
                assert(front[j] == entries[j]);
            }
            Self::lemma_dom_len(front);
            assert forall|k: Seq<char>| #[trigger]
                entries_map(entries).dom().contains(k) == entries_map(front).dom().insert(
                    last.0@,
                ).contains(k) by {
                if entries_map(entries).dom().contains(k) && k != last.0@ {
                    let a = choose|a: int| 0 <= a < entries.len() && (#[trigger] entries[a]).0@ == k;
                    assert(a < front.len());
                    assert(front[a] == entries[a]);
                    assert(front[a].0@ == k);
                }
                if entries_map(front).dom().contains(k) {
                    let b = choose|b: int| 0 <= b < front.len() && (#[trigger] front[b]).0@ == k;
                    assert(front[b] == entries[b]);
                    assert(entries[b].0@ == k);
                }
                if k == last.0@ {
                    assert(entries[entries.len() - 1].0@ == k);
                }
            }
            assert(entries_map(entries).dom() =~= entries_map(front).dom().insert(last.0@));
            if entries_map(front).dom().contains(last.0@) {
                let b = choose|b: int| 0 <= b < front.len() && (#[trigger] front[b]).0@ == last.0@;
                assert(front[b] == entries[b]);
                assert(entries[b].0@ != entries[entries.len() - 1].0@);
            }
        }
    }
}

} // verus!
