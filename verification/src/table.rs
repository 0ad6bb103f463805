//! A small keyed store: at most one value per identity, kept in insertion order.

use vstd::prelude::*;
use crate::address::Address;

verus! {

/// Values keyed by identity. No identity occurs twice.
pub struct Table<V> {
    keys: Vec<Address>,
    values: Vec<V>,
}

impl<V> Table<V> {
    /// Keys and values pair up, and no key occurs twice.
    pub closed spec fn wf(&self) -> bool {
        &&& self.keys@.len() == self.values@.len()
        &&& forall|i: int, j: int|
            0 <= i < j < self.keys@.len() ==> (#[trigger] self.keys@[i])@ != (
            #[trigger] self.keys@[j])@
    }

    /// Whether slot `i` holds `key`.
    pub closed spec fn holds_at(&self, i: int, key: Seq<u8>) -> bool {
        0 <= i < self.keys@.len() && self.keys@[i]@ == key
    }

    /// The slot that holds `key`, where there is one.
    pub closed spec fn slot_of(&self, key: Seq<u8>) -> int {
        choose|i: int| self.holds_at(i, key)
    }

    /// The table as a map from identity to value.
    pub closed spec fn view(&self) -> Map<Seq<u8>, V> {
        Map::new(
            |key: Seq<u8>| exists|i: int| self.holds_at(i, key),
            |key: Seq<u8>| self.values@[self.slot_of(key)],
        )
    }

    /// A key found at a slot is in the map, with that slot's value.
    proof fn lemma_slot(&self, i: int, key: Seq<u8>)
        requires
            self.wf(),
            self.holds_at(i, key),
        ensures
            self.view().contains_key(key),
            self.view()[key] == self.values@[i],
            self.slot_of(key) == i,
    {
        let j = self.slot_of(key);
        assert(self.holds_at(j, key));
        if i < j {
            assert(self.keys@[i]@ != self.keys@[j]@);
        } else if j < i {
            assert(self.keys@[j]@ != self.keys@[i]@);
        }
    }

    /// An empty table.
    pub fn new() -> (table: Table<V>)
        ensures
            table.wf(),
            table.view() == Map::<Seq<u8>, V>::empty(),
    {
        let table = Table { keys: Vec::new(), values: Vec::new() };
        assert(table.view() =~= Map::<Seq<u8>, V>::empty());
        table
    }

    /// The slot of `key`, if the table has it.
    pub fn find(&self, key: &Address) -> (slot: Option<usize>)
        requires
            self.wf(),
        ensures
            match slot {
                Some(i) => self.holds_at(i as int, key@) && self.view().contains_key(key@)
                    && self.slot_of(key@) == i,
                None => !self.view().contains_key(key@),
            },
    {
        let mut i: usize = 0;
        while i < self.keys.len()
            invariant
                self.wf(),
                i <= self.keys@.len(),
                forall|j: int| 0 <= j < i ==> !self.holds_at(j, key@),
            decreases self.keys@.len() - i,
        {
            if self.keys[i].same(key) {
                proof {
                    self.lemma_slot(i as int, key@);
                }
                return Some(i);
            }
            i += 1;
        }
        None
    }

    /// Whether the table has `key`.
    pub fn contains(&self, key: &Address) -> (found: bool)
        requires
            self.wf(),
        ensures
            found == self.view().contains_key(key@),
    {
        self.find(key).is_some()
    }

    /// The value stored under `key`.
    pub fn get(&self, key: &Address) -> (value: Option<&V>)
        requires
            self.wf(),
        ensures
            match value {
                Some(v) => self.view().contains_key(key@) && *v == self.view()[key@],
                None => !self.view().contains_key(key@),
            },
    {
        match self.find(key) {
            Some(i) => {
                proof {
                    self.lemma_slot(i as int, key@);
                }
                Some(&self.values[i])
            },
            None => None,
        }
    }

    /// Stores `value` under a key that the table does not have yet.
    pub fn insert_new(&mut self, key: Address, value: V)
        requires
            old(self).wf(),
            !old(self).view().contains_key(key@),
        ensures
            final(self).wf(),
            final(self).view() == old(self).view().insert(key@, value),
    {
        let ghost before = *self;
        self.keys.push(key);
        self.values.push(value);
        proof {
            let after = *self;
            let n = before.keys@.len() as int;
            assert forall|i: int| 0 <= i < n implies (#[trigger] after.keys@[i])@ != key@ by {
                assert(before.holds_at(i, before.keys@[i]@));
                assert(before.view().contains_key(before.keys@[i]@));
            }
            assert(after.wf());
            assert forall|k: Seq<u8>| #[trigger]
                after.view().contains_key(k) == before.view().insert(key@, value).contains_key(
                    k,
                ) by {
                if after.view().contains_key(k) {
                    let i = choose|i: int| after.holds_at(i, k);
                    if i < n {
                        assert(before.holds_at(i, k));
                    }
                }
                if before.view().contains_key(k) {
                    let i = choose|i: int| before.holds_at(i, k);
                    assert(after.holds_at(i, k));
                }
                if k == key@ {
                    assert(after.holds_at(n, k));
                }
            }
            assert forall|k: Seq<u8>| after.view().contains_key(k) implies #[trigger]
                after.view()[k] == before.view().insert(key@, value)[k] by {
                let i = choose|i: int| after.holds_at(i, k);
                after.lemma_slot(i, k);
                if i < n {
                    assert(before.holds_at(i, k));
                    before.lemma_slot(i, k);
                }
            }
            assert(after.view() =~= before.view().insert(key@, value));
        }
    }

    /// Replaces the value stored under a key that the table has.
    pub fn replace(&mut self, key: &Address, value: V)
        requires
            old(self).wf(),
            old(self).view().contains_key(key@),
        ensures
            final(self).wf(),
            final(self).view() == old(self).view().insert(key@, value),
    {
        let ghost before = *self;
        if let Some(i) = self.find(key) {
            self.values.set(i, value);
            proof {
                let after = *self;
                assert(after.wf());
                assert forall|k: Seq<u8>| #[trigger]
                    after.view().contains_key(k) == before.view().insert(key@, value).contains_key(
                        k,
                    ) by {
                    if after.view().contains_key(k) {
                        let j = choose|j: int| after.holds_at(j, k);
                        assert(before.holds_at(j, k));
                    }
                    if before.view().contains_key(k) {
                        let j = choose|j: int| before.holds_at(j, k);
                        assert(after.holds_at(j, k));
                    }
                }
                assert forall|k: Seq<u8>| after.view().contains_key(k) implies #[trigger]
                    after.view()[k] == before.view().insert(key@, value)[k] by {
                    let j = choose|j: int| after.holds_at(j, k);
                    after.lemma_slot(j, k);
                    assert(before.holds_at(j, k));
                    before.lemma_slot(j, k);
                    if k == key@ {
                        before.lemma_slot(i as int, key@);
                    }
                }
                assert(after.view() =~= before.view().insert(key@, value));
            }
        }
    }
}

} // verus!
