//! A string-keyed table: a hashbrown map from key to slot, and the values in
//! a vector indexed by slot.

use vstd::prelude::*;

verus! {

/// Map from key text to a slot number, held in a `hashbrown::HashMap`.
#[verifier::external_body]
pub struct SlotIndex {
    table: hashbrown::HashMap<String, usize>,
}

/// The entries of a slot index, keyed by the characters of each key.
pub uninterp spec fn slot_entries(index: SlotIndex) -> Map<Seq<char>, usize>;

/// Relies on `hashbrown::HashMap::new`: a new map holds no entries.
#[verifier::external_body]
fn slot_index_new() -> (r: SlotIndex)
    ensures
        slot_entries(r).dom() == Set::<Seq<char>>::empty(),
{
    SlotIndex { table: hashbrown::HashMap::new() }
}

/// Relies on `hashbrown::HashMap::get`: the slot stored under the key equal to
/// `key`, if there is one.
#[verifier::external_body]
fn slot_index_get(index: &SlotIndex, key: &str) -> (r: Option<usize>)
    ensures
        match r {
            Some(slot) => slot_entries(*index).contains_key(key@) && slot_entries(*index)[key@]
                == slot,
            None => !slot_entries(*index).contains_key(key@),
        },
{
    index.table.get(key).copied()
}

/// Relies on `hashbrown::HashMap::insert`: afterwards `key` maps to `slot` and
/// every other key keeps its slot.
#[verifier::external_body]
fn slot_index_insert(index: &mut SlotIndex, key: &str, slot: usize)
    ensures
        slot_entries(*final(index)) == slot_entries(*old(index)).insert(key@, slot),
{
    index.table.insert(key.to_string(), slot);
}

/// Relies on `hashbrown::HashMap::clone`: the copy holds the same entries.
#[verifier::external_body]
fn slot_index_clone(index: &SlotIndex) -> (r: SlotIndex)
    ensures
        slot_entries(r) == slot_entries(*index),
{
    SlotIndex { table: index.table.clone() }
}

/// Values stored under string keys. Slot `i` holds the `i`-th key inserted
/// and its value.
pub struct KeyedTable<V> {
    index: SlotIndex,
    keys: Vec<String>,
    values: Vec<V>,
}

impl<V> KeyedTable<V> {
    /// The index maps each stored key to its slot, and each slot holds the
    /// key the index maps to it.
    pub closed spec fn wf(&self) -> bool {
        &&& self.keys.len() == self.values.len()
        &&& forall|k: Seq<char>| #[trigger]
            slot_entries(self.index).contains_key(k) ==> slot_entries(self.index)[k]
                < self.values.len() && self.keys@[slot_entries(self.index)[k] as int]@ == k
        &&& forall|i: int|
            0 <= i < self.keys.len() ==> slot_entries(self.index).contains_key(
                #[trigger] self.keys@[i]@,
            ) && slot_entries(self.index)[self.keys@[i]@] == i
    }

    /// The table as a map from key text to value.
    pub closed spec fn view(&self) -> Map<Seq<char>, V> {
        Map::new(
            |k: Seq<char>| slot_entries(self.index).contains_key(k),
            |k: Seq<char>| self.values@[slot_entries(self.index)[k] as int],
        )
    }

    /// The stored keys, in insertion order.
    pub closed spec fn key_list(&self) -> Seq<String> {
        self.keys@
    }

    /// The stored values, in the order of their keys.
    pub closed spec fn value_list(&self) -> Seq<V> {
        self.values@
    }

    /// The two lists pair each stored key with its value, once each.
    pub proof fn lemma_lists_match_view(&self)
        requires
            self.wf(),
        ensures
            self.key_list().len() == self.value_list().len(),
            forall|i: int|
                0 <= i < self.key_list().len() ==> self@.contains_key(#[trigger] self.key_list()[i]@)
                    && self@[self.key_list()[i]@] == self.value_list()[i],
            forall|k: Seq<char>| #[trigger]
                self@.contains_key(k) ==> exists|i: int|
                    0 <= i < self.key_list().len() && #[trigger] self.key_list()[i]@ == k,
    {
        assert forall|k: Seq<char>| #[trigger] self@.contains_key(k) implies exists|i: int|
            0 <= i < self.key_list().len() && #[trigger] self.key_list()[i]@ == k by {
            let i = slot_entries(self.index)[k] as int;
            assert(self.key_list()[i]@ == k);
        }
    }

    /// An empty table.
    pub fn new() -> (r: Self)
        ensures
            r.wf(),
            r@.dom() == Set::<Seq<char>>::empty(),
    {
        let r = KeyedTable { index: slot_index_new(), keys: Vec::new(), values: Vec::new() };
        assert(r@.dom() =~= Set::<Seq<char>>::empty());
        r
    }

    /// The value stored under `key`.
    pub fn get(&self, key: &str) -> (r: Option<&V>)
        requires
            self.wf(),
        ensures
            match r {
                Some(v) => self@.contains_key(key@) && self@[key@] == *v,
                None => !self@.contains_key(key@),
            },
    {
        match slot_index_get(&self.index, key) {
            Some(slot) => Some(&self.values[slot]),
            None => None,
        }
    }

    /// Stores `value` under `key`, replacing any value there.
    pub fn insert(&mut self, key: &str, value: V)
        requires
            old(self).wf(),
        ensures
            final(self).wf(),
            final(self)@ == old(self)@.insert(key@, value),
    {
        let ghost before = self@;
        match slot_index_get(&self.index, key) {
            Some(slot) => {
                self.values.set(slot, value);
            },
            None => {
                let slot = self.values.len();
                self.values.push(value);
                self.keys.push(key.to_owned());
                slot_index_insert(&mut self.index, key, slot);
                assert forall|i: int| 0 <= i < self.keys.len() implies slot_entries(
                    self.index,
                ).contains_key(#[trigger] self.keys@[i]@) && slot_entries(self.index)[self.keys@[i]@]
                    == i by {
                    if i < slot {
                        assert(self.keys@[i] == old(self).keys@[i]);
                        assert(old(self).keys@[i]@ != key@);
                    }
                }
            },
        }
        assert(self@ =~= before.insert(key@, value));
    }

    /// The stored keys, in insertion order.
    pub fn keys(&self) -> (r: &Vec<String>)
        ensures
            r@ == self.key_list(),
    {
        &self.keys
    }

    /// The stored values, in the order of their keys.
    pub fn values(&self) -> (r: &Vec<V>)
        ensures
            r@ == self.value_list(),
    {
        &self.values
    }
}

impl<V: Clone> Clone for KeyedTable<V> {
    fn clone(&self) -> (r: Self)
        ensures
            self.wf() ==> r.wf(),
            r@.dom() == self@.dom(),
            self.wf() ==> forall|k: Seq<char>| #[trigger]
                self@.contains_key(k) ==> cloned::<V>(self@[k], r@[k]),
    {
        let mut keys: Vec<String> = Vec::new();
        let mut i: usize = 0;
        while i < self.keys.len()
            invariant
                i <= self.keys@.len(),
                keys@ == self.keys@.subrange(0, i as int),
            decreases self.keys@.len() - i,
        {
            keys.push(self.keys[i].clone());
            i = i + 1;
        }
        assert(keys@ =~= self.keys@);
        let values = self.values.clone();
        let r = KeyedTable { index: slot_index_clone(&self.index), keys, values };
        assert(r@.dom() =~= self@.dom());
        r
    }
}

} // verus!
