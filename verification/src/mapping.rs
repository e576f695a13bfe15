//! Mapping tables from spoken keys to what they stand for.

use vstd::prelude::*;
use crate::text::str_eq;

verus! {

/// One line of a mapping table.
#[derive(Debug, Clone)]
pub struct MappingEntry {
    /// The key by which the entry is asked for.
    pub key: String,
    /// What the key stands for: a path or a command.
    pub value: String,
}

/// A table of keys and values in which no key occurs twice. Entries keep
/// the order in which their keys were first inserted.
#[derive(Debug)]
pub struct Mapping {
    entries: Vec<MappingEntry>,
}

/// The keys of a run of entries, in order.
pub open spec fn entry_keys(entries: Seq<MappingEntry>) -> Seq<Seq<char>> {
    entries.map_values(|e: MappingEntry| e.key@)
}

/// The table that a run of entries spells out; a later entry replaces an
/// earlier one with the same key.
pub open spec fn entry_map(entries: Seq<MappingEntry>) -> Map<Seq<char>, Seq<char>>
    decreases entries.len(),
{
    if entries.len() == 0 {
        Map::empty()
    } else {
        entry_map(entries.drop_last()).insert(entries.last().key@, entries.last().value@)
    }
}

/// The keys of the table are those of its entries.
pub proof fn lemma_entry_map_dom(entries: Seq<MappingEntry>)
    ensures
        forall|k: Seq<char>| #[trigger]
            entry_map(entries).dom().contains(k) <==> entry_keys(entries).contains(k),
        entry_map(entries).dom().finite(),
    decreases entries.len(),
{
    if entries.len() > 0 {
        let front = entries.drop_last();
        lemma_entry_map_dom(front);
        assert forall|k: Seq<char>| #[trigger]
            entry_map(entries).dom().contains(k) <==> entry_keys(entries).contains(k) by {
            if entry_keys(entries).contains(k) {
                let i = choose|i: int| 0 <= i < entries.len() && entry_keys(entries)[i] == k;
                if i < entries.len() - 1 {
                    assert(entry_keys(front)[i] == k);
                }
            }
            if entry_keys(front).contains(k) {
                let i = choose|i: int| 0 <= i < front.len() && entry_keys(front)[i] == k;
                assert(entry_keys(entries)[i] == k);
            }
            if k == entries.last().key@ {
                assert(entry_keys(entries)[entries.len() - 1] == k);
            }
        }
    }
}

/// Where keys are distinct, each entry's value is what the table holds for
/// its key.
pub proof fn lemma_entry_map_value(entries: Seq<MappingEntry>, i: int)
    requires
        0 <= i < entries.len(),
        entry_keys(entries).no_duplicates(),
    ensures
        entry_map(entries).dom().contains(entries[i].key@),
        entry_map(entries)[entries[i].key@] == entries[i].value@,
    decreases entries.len(),
{
    let front = entries.drop_last();
    if i < entries.len() - 1 {
        assert(entry_keys(front) =~= entry_keys(entries).drop_last());
        assert(entry_keys(entries)[i] != entry_keys(entries)[entries.len() - 1]);
        lemma_entry_map_value(front, i);
    }
}

/// Replacing the value of an entry replaces the value that the table holds
/// for the entry's key.
pub proof fn lemma_entry_map_update(entries: Seq<MappingEntry>, i: int, entry: MappingEntry)
    requires
        0 <= i < entries.len(),
        entry_keys(entries).no_duplicates(),
        entry.key@ == entries[i].key@,
    ensures
        entry_map(entries.update(i, entry)) == entry_map(entries).insert(entry.key@, entry.value@),
        entry_keys(entries.update(i, entry)) == entry_keys(entries),
    decreases entries.len(),
{
    let after = entries.update(i, entry);
    let front = entries.drop_last();
    assert(entry_keys(after) =~= entry_keys(entries));
    if i == entries.len() - 1 {
        assert(after.drop_last() =~= front);
        assert(entry_map(after) =~= entry_map(entries).insert(entry.key@, entry.value@));
    } else {
        assert(after.drop_last() =~= front.update(i, entry));
        assert(entry_keys(front) =~= entry_keys(entries).drop_last());
        assert(entry_keys(entries)[i] != entry_keys(entries)[entries.len() - 1]);
        lemma_entry_map_update(front, i, entry);
        assert(entry_map(after) =~= entry_map(entries).insert(entry.key@, entry.value@));
    }
}

/// Distinct keys are as many as the table has keys.
pub proof fn lemma_distinct_keys_count(entries: Seq<MappingEntry>)
    requires
        entry_keys(entries).no_duplicates(),
    ensures
        entry_keys(entries).len() == entry_map(entries).dom().len(),
{
    lemma_entry_map_dom(entries);
    let keys = entry_keys(entries);
    keys.unique_seq_to_set();
    assert(keys.to_set() =~= entry_map(entries).dom());
}

impl Mapping {
    #[verifier::type_invariant]
    spec fn distinct_keys(self) -> bool {
        entry_keys(self.entries@).no_duplicates()
    }

    /// The table: each key with its value.
    pub closed spec fn view(&self) -> Map<Seq<char>, Seq<char>> {
        entry_map(self.entries@)
    }

    /// The keys in the order in which they were first inserted.
    pub closed spec fn key_order(&self) -> Seq<Seq<char>> {
        entry_keys(self.entries@)
    }

    /// An empty table.
    pub fn new() -> (table: Self)
        ensures
            table@ == Map::<Seq<char>, Seq<char>>::empty(),
            table.key_order() == Seq::<Seq<char>>::empty(),
    {
        let table = Mapping { entries: Vec::new() };
        assert(table.key_order() =~= Seq::<Seq<char>>::empty());
        table
    }

    /// The table with the value of `key` set. The key keeps its place if the
    /// table holds it already and is put last if not.
    pub fn with_entry(self, key: String, value: String) -> (table: Self)
        ensures
            table@ == self@.insert(key@, value@),
            table.key_order() == if self@.dom().contains(key@) {
                self.key_order()
            } else {
                self.key_order().push(key@)
            },
    {
        proof {
            use_type_invariant(&self);
            lemma_entry_map_dom(self.entries@);
        }
        let at = self.position(key.as_str());
        let mut entries = self.entries;
        let ghost before = entries@;
        let entry = MappingEntry { key, value };
        match at {
            Some(i) => {
                proof {
                    lemma_entry_map_update(before, i as int, entry);
                    assert(entry_keys(before)[i as int] == entry.key@);
                }
                entries.set(i, entry);
            },
            None => {
                proof {
                    assert(before.push(entry).drop_last() =~= before);
                    assert(entry_keys(before.push(entry)) =~= entry_keys(before).push(entry.key@));
                }
                entries.push(entry);
            },
        }
        Mapping { entries }
    }

    /// Sets the value of `key`, which keeps its place if the table holds
    /// it already and is put last if not.
    pub fn insert(&mut self, key: String, value: String)
        ensures
            final(self)@ == old(self)@.insert(key@, value@),
            final(self).key_order() == if old(self)@.dom().contains(key@) {
                old(self).key_order()
            } else {
                old(self).key_order().push(key@)
            },
    {
        let mut table = Mapping::new();
        core::mem::swap(self, &mut table);
        *self = table.with_entry(key, value);
    }

    /// The position of `key` among the entries.
    fn position(&self, key: &str) -> (at: Option<usize>)
        ensures
            match at {
                Some(i) => i < self.entries@.len() && self.entries@[i as int].key@ == key@,
                None => !entry_keys(self.entries@).contains(key@),
            },
    {
        let mut i: usize = 0;
        while i < self.entries.len()
            invariant
                i <= self.entries@.len(),
                forall|k: int| 0 <= k < i ==> (#[trigger] self.entries@[k]).key@ != key@,
            decreases self.entries@.len() - i,
        {
            if str_eq(self.entries[i].key.as_str(), key) {
                return Some(i);
            }
            i = i + 1;
        }
        proof {
            if entry_keys(self.entries@).contains(key@) {
                let k = choose|k: int|
                    0 <= k < self.entries@.len() && entry_keys(self.entries@)[k] == key@;
                assert(self.entries@[k].key@ == key@);
            }
        }
        None
    }

    /// Whether the table holds `key`.
    pub fn contains_key(&self, key: &str) -> (found: bool)
        ensures
            found == self@.dom().contains(key@),
    {
        proof {
            lemma_entry_map_dom(self.entries@);
        }
        match self.position(key) {
            Some(i) => {
                proof {
                    assert(entry_keys(self.entries@)[i as int] == key@);
                }
                true
            },
            None => false,
        }
    }

    /// The value that the table holds for `key`.
    pub fn get(&self, key: &str) -> (value: Option<&String>)
        ensures
            match value {
                Some(v) => self@.dom().contains(key@) && v@ == self@[key@],
                None => !self@.dom().contains(key@),
            },
    {
        proof {
            use_type_invariant(self);
            lemma_entry_map_dom(self.entries@);
        }
        match self.position(key) {
            Some(i) => {
                proof {
                    lemma_entry_map_value(self.entries@, i as int);
                }
                Some(&self.entries[i].value)
            },
            None => None,
        }
    }

    /// The number of keys.
    pub fn len(&self) -> (n: usize)
        ensures
            n == self@.dom().len(),
            n == self.key_order().len(),
    {
        proof {
            use_type_invariant(self);
            lemma_distinct_keys_count(self.entries@);
        }
        self.entries.len()
    }

    /// Whether the table holds no key.
    pub fn is_empty(&self) -> (empty: bool)
        ensures
            empty == (self@.dom().len() == 0),
            empty == (self.key_order().len() == 0),
    {
        proof {
            use_type_invariant(self);
            lemma_distinct_keys_count(self.entries@);
        }
        self.entries.len() == 0
    }

    /// The keys, in the order in which they were first inserted.
    pub fn keys(&self) -> (keys: Vec<String>)
        ensures
            keys@.len() == self.key_order().len(),
            forall|i: int| 0 <= i < keys@.len() ==> (#[trigger] keys@[i])@ == self.key_order()[i],
            self.key_order().no_duplicates(),
            forall|k: Seq<char>| #[trigger] self.key_order().contains(k) <==> self@.dom().contains(k),
    {
        proof {
            use_type_invariant(self);
            lemma_entry_map_dom(self.entries@);
        }
        let mut keys: Vec<String> = Vec::new();
        let mut i: usize = 0;
        while i < self.entries.len()
            invariant
                i <= self.entries@.len(),
                keys@.len() == i,
                forall|k: int| 0 <= k < i ==> (#[trigger] keys@[k])@ == self.entries@[k].key@,
            decreases self.entries@.len() - i,
        {
            keys.push(self.entries[i].key.clone());
            i = i + 1;
        }
        keys
    }
}

impl Clone for Mapping {
    fn clone(&self) -> (copy: Self)
        ensures
            copy@ == self@,
            copy.key_order() == self.key_order(),
    {
        proof {
            use_type_invariant(self);
        }
        let mut entries: Vec<MappingEntry> = Vec::new();
        let mut i: usize = 0;
        while i < self.entries.len()
            invariant
                i <= self.entries@.len(),
                entries@ == self.entries@.subrange(0, i as int),
            decreases self.entries@.len() - i,
        {
            let entry = MappingEntry {
                key: self.entries[i].key.clone(),
                value: self.entries[i].value.clone(),
            };
            entries.push(entry);
            proof {
                assert(entries@ =~= self.entries@.subrange(0, i as int + 1));
            }
            i = i + 1;
        }
        proof {
            assert(entries@ =~= self.entries@);
        }
        Mapping { entries }
    }
}

} // verus!
