//! A keyed table: at most one value is filed under each key. It stands for
//! a durable store that is addressed by key, and its view is the map from
//! the keys in use to what is filed under them.

use vstd::prelude::*;

verus! {

/// What can serve as the key of a [`Table`]: two keys are the same exactly
/// when their views are equal.
pub trait Key: View + Sized {
    /// Whether both keys are the same.
    fn same(&self, other: &Self) -> (equal: bool)
        ensures
            equal == (self@ == other@),
    ;
}

impl Key for u64 {
    fn same(&self, other: &u64) -> (equal: bool) {
        *self == *other
    }
}

/// No two slots are filed under the same key.
spec fn distinct_keys<K: View, V>(slots: Seq<(K, V)>) -> bool {
    forall|i: int, j: int|
        0 <= i < j < slots.len() ==> (#[trigger] slots[i]).0@ != (#[trigger] slots[j]).0@
}

/// Whether a slot of `slots` is filed under `key`.
spec fn has_key<K: View, V>(slots: Seq<(K, V)>, key: K::V) -> bool {
    exists|i: int| 0 <= i < slots.len() && (#[trigger] slots[i]).0@ == key
}

/// The position of a slot filed under `key`.
spec fn slot_of<K: View, V>(slots: Seq<(K, V)>, key: K::V) -> int {
    choose|i: int| 0 <= i < slots.len() && (#[trigger] slots[i]).0@ == key
}

/// The map that a list of slots stands for.
spec fn mapping<K: View, V: View>(slots: Seq<(K, V)>) -> Map<K::V, V::V> {
    Map::new(|key: K::V| has_key(slots, key), |key: K::V| slots[slot_of(slots, key)].1@)
}

proof fn lemma_slot_lookup<K: View, V: View>(slots: Seq<(K, V)>, i: int)
    requires
        distinct_keys(slots),
        0 <= i < slots.len(),
    ensures
        has_key(slots, slots[i].0@),
        slot_of(slots, slots[i].0@) == i,
        mapping(slots).contains_key(slots[i].0@),
        mapping(slots)[slots[i].0@] == slots[i].1@,
{
    let key = slots[i].0@;
    assert(has_key(slots, key));
    let j = slot_of(slots, key);
    assert(0 <= j < slots.len() && slots[j].0@ == key);
    if j < i {
        assert(slots[j].0@ != slots[i].0@);
    } else if i < j {
        assert(slots[i].0@ != slots[j].0@);
    }
}

proof fn lemma_update<K: View, V: View>(slots: Seq<(K, V)>, i: int, slot: (K, V))
    requires
        distinct_keys(slots),
        0 <= i < slots.len(),
        slots[i].0@ == slot.0@,
    ensures
        distinct_keys(slots.update(i, slot)),
        mapping(slots.update(i, slot)) == mapping(slots).insert(slot.0@, slot.1@),
{
    let after = slots.update(i, slot);
    assert forall|a: int, b: int| 0 <= a < b < after.len() implies (#[trigger] after[a]).0@ != (
    #[trigger] after[b]).0@ by {
        assert(after[a].0@ == slots[a].0@);
        assert(after[b].0@ == slots[b].0@);
    }
    assert forall|key: K::V| has_key(after, key) <==> has_key(slots, key) by {
        if has_key(after, key) {
            let j = slot_of(after, key);
            assert(slots[j].0@ == key);
        }
        if has_key(slots, key) {
            let j = slot_of(slots, key);
            assert(after[j].0@ == key);
        }
    }
    assert forall|key: K::V| has_key(after, key) implies #[trigger] mapping(after)[key] == mapping(
        slots,
    ).insert(slot.0@, slot.1@)[key] by {
        let j = slot_of(after, key);
        lemma_slot_lookup(after, j);
        if j != i {
            assert(slots[j].0@ == key);
            lemma_slot_lookup(slots, j);
        }
    }
    lemma_slot_lookup(slots, i);
    assert(mapping(after) =~= mapping(slots).insert(slot.0@, slot.1@));
}

proof fn lemma_push<K: View, V: View>(slots: Seq<(K, V)>, slot: (K, V))
    requires
        distinct_keys(slots),
        !has_key(slots, slot.0@),
    ensures
        distinct_keys(slots.push(slot)),
        mapping(slots.push(slot)) == mapping(slots).insert(slot.0@, slot.1@),
{
    let after = slots.push(slot);
    assert forall|a: int, b: int| 0 <= a < b < after.len() implies (#[trigger] after[a]).0@ != (
    #[trigger] after[b]).0@ by {
        assert(after[a] == slots[a]);
        if b < slots.len() {
            assert(after[b] == slots[b]);
        }
    }
    assert forall|key: K::V| has_key(after, key) <==> (has_key(slots, key) || key == slot.0@) by {
        if has_key(after, key) {
            let j = slot_of(after, key);
            if j < slots.len() {
                assert(slots[j].0@ == key);
            }
        }
        if has_key(slots, key) {
            let j = slot_of(slots, key);
            assert(after[j].0@ == key);
        }
        if key == slot.0@ {
            assert(after[slots.len() as int].0@ == key);
        }
    }
    assert forall|key: K::V| has_key(after, key) implies #[trigger] mapping(after)[key] == mapping(
        slots,
    ).insert(slot.0@, slot.1@)[key] by {
        let j = slot_of(after, key);
        lemma_slot_lookup(after, j);
        if j < slots.len() {
            assert(slots[j].0@ == key);
            lemma_slot_lookup(slots, j);
        }
    }
    assert(mapping(after) =~= mapping(slots).insert(slot.0@, slot.1@));
}

proof fn lemma_remove<K: View, V: View>(slots: Seq<(K, V)>, i: int)
    requires
        distinct_keys(slots),
        0 <= i < slots.len(),
    ensures
        distinct_keys(slots.remove(i)),
        mapping(slots.remove(i)) == mapping(slots).remove(slots[i].0@),
{
    let after = slots.remove(i);
    let gone = slots[i].0@;
    assert forall|a: int, b: int| 0 <= a < b < after.len() implies (#[trigger] after[a]).0@ != (
    #[trigger] after[b]).0@ by {
        let sa = if a < i {
            a
        } else {
            a + 1
        };
        let sb = if b < i {
            b
        } else {
            b + 1
        };
        assert(after[a] == slots[sa]);
        assert(after[b] == slots[sb]);
    }
    assert forall|key: K::V| has_key(after, key) <==> (has_key(slots, key) && key != gone) by {
        if has_key(after, key) {
            let j = slot_of(after, key);
            let sj = if j < i {
                j
            } else {
                j + 1
            };
            assert(after[j] == slots[sj]);
            assert(slots[sj].0@ == key);
            if sj < i {
                assert(slots[sj].0@ != slots[i].0@);
            } else {
                assert(slots[i].0@ != slots[sj].0@);
            }
        }
        if has_key(slots, key) && key != gone {
            let j = slot_of(slots, key);
            let aj = if j < i {
                j
            } else {
                j - 1
            };
            assert(after[aj] == slots[j]);
            assert(after[aj].0@ == key);
        }
    }
    assert forall|key: K::V| has_key(after, key) implies #[trigger] mapping(after)[key] == mapping(
        slots,
    ).remove(gone)[key] by {
        let j = slot_of(after, key);
        lemma_slot_lookup(after, j);
        let sj = if j < i {
            j
        } else {
            j + 1
        };
        assert(after[j] == slots[sj]);
        lemma_slot_lookup(slots, sj);
    }
    assert(mapping(after) =~= mapping(slots).remove(gone));
}

proof fn lemma_count<K: View, V: View>(slots: Seq<(K, V)>)
    requires
        distinct_keys(slots),
    ensures
        mapping(slots).dom().finite(),
        mapping(slots).dom().len() == slots.len(),
    decreases slots.len(),
{
    if slots.len() == 0 {
        assert(mapping(slots).dom() =~= Set::<K::V>::empty());
    } else {
        let front = slots.drop_last();
        let last = slots.last();
        assert forall|i: int, j: int| 0 <= i < j < front.len() implies (#[trigger] front[i]).0@ != (
        #[trigger] front[j]).0@ by {
            assert(front[i] == slots[i]);
            assert(front[j] == slots[j]);
        }
        lemma_count(front);
        if has_key(front, last.0@) {
            let j = slot_of(front, last.0@);
            assert(front[j] == slots[j]);
            assert(slots[j].0@ != slots[slots.len() - 1].0@);
        }
        lemma_push(front, last);
        assert(front.push(last) =~= slots);
        assert(mapping(slots).dom() =~= mapping(front).dom().insert(last.0@));
        assert(!mapping(front).dom().contains(last.0@));
    }
}

/// The position of the slot filed under `key`, if there is one.
fn find<K: Key, V>(slots: &Vec<(K, V)>, key: &K) -> (found: Option<usize>)
    ensures
        match found {
            Some(i) => i < slots@.len() && slots@[i as int].0@ == key@,
            None => !has_key(slots@, key@),
        },
{
    let mut i: usize = 0;
    while i < slots.len()
        invariant
            i <= slots@.len(),
            forall|j: int| 0 <= j < i ==> (#[trigger] slots@[j]).0@ != key@,
        decreases slots@.len() - i,
    {
        if slots[i].0.same(key) {
            return Some(i);
        }
        i += 1;
    }
    None
}

/// Files `slot` under its key, in place of what was filed there.
fn put_slot<K: Key, V: View>(slots: &mut Vec<(K, V)>, slot: (K, V))
    requires
        distinct_keys(old(slots)@),
    ensures
        distinct_keys(final(slots)@),
        mapping(final(slots)@) == mapping(old(slots)@).insert(slot.0@, slot.1@),
{
    match find(slots, &slot.0) {
        Some(i) => {
            proof {
                lemma_update(slots@, i as int, slot);
            }
            slots[i] = slot;
        },
        None => {
            proof {
                lemma_push(slots@, slot);
            }
            slots.push(slot);
        },
    }
}

/// Removes what is filed under `key`, if anything is.
fn drop_slot<K: Key, V: View>(slots: &mut Vec<(K, V)>, key: &K)
    requires
        distinct_keys(old(slots)@),
    ensures
        distinct_keys(final(slots)@),
        mapping(final(slots)@) == mapping(old(slots)@).remove(key@),
{
    match find(slots, key) {
        Some(i) => {
            proof {
                lemma_remove(slots@, i as int);
            }
            slots.remove(i);
        },
        None => {
            assert(mapping(slots@).remove(key@) =~= mapping(slots@));
        },
    }
}

/// A keyed table. Its view is the map from the keys in use to the views of
/// the values filed under them.
pub struct Table<K: Key, V: View> {
    slots: Vec<(K, V)>,
}

impl<K: Key, V: View> View for Table<K, V> {
    type V = Map<K::V, V::V>;

    closed spec fn view(&self) -> Map<K::V, V::V> {
        mapping(self.slots@)
    }
}

impl<K: Key, V: View> Table<K, V> {
    #[verifier::type_invariant]
    spec fn well_formed(&self) -> bool {
        distinct_keys(self.slots@)
    }

    /// How many slots the table has.
    pub closed spec fn slot_count(&self) -> nat {
        self.slots@.len()
    }

    /// The key of the slot at `position`.
    pub closed spec fn key_at(&self, position: int) -> K::V {
        self.slots@[position].0@
    }

    /// A table with nothing filed in it.
    pub fn new() -> (table: Self)
        ensures
            table@ == Map::<K::V, V::V>::empty(),
    {
        let table = Table { slots: Vec::new() };
        assert(table@ =~= Map::<K::V, V::V>::empty());
        table
    }

    /// What is filed under `key`, if anything is.
    pub fn get(&self, key: &K) -> (value: Option<&V>)
        ensures
            value is Some == self@.contains_key(key@),
            value is Some ==> value->0@ == self@[key@],
    {
        proof {
            use_type_invariant(self);
        }
        match find(&self.slots, key) {
            Some(i) => {
                proof {
                    lemma_slot_lookup(self.slots@, i as int);
                }
                Some(&self.slots[i].1)
            },
            None => None,
        }
    }

    /// Files `value` under `key`, in place of what was filed there.
    pub fn put(&mut self, key: K, value: V)
        ensures
            final(self)@ == old(self)@.insert(key@, value@),
    {
        proof {
            use_type_invariant(&*self);
        }
        let mut slots = Vec::new();
        core::mem::swap(&mut self.slots, &mut slots);
        put_slot(&mut slots, (key, value));
        core::mem::swap(&mut self.slots, &mut slots);
    }

    /// Removes what is filed under `key`, if anything is.
    pub fn discard(&mut self, key: &K)
        ensures
            final(self)@ == old(self)@.remove(key@),
    {
        proof {
            use_type_invariant(&*self);
        }
        let mut slots = Vec::new();
        core::mem::swap(&mut self.slots, &mut slots);
        drop_slot(&mut slots, key);
        core::mem::swap(&mut self.slots, &mut slots);
    }

    /// The number of keys in use, which is the number of slots.
    pub fn len(&self) -> (count: usize)
        ensures
            count == self.slot_count(),
            self@.dom().finite(),
            count == self@.dom().len(),
    {
        proof {
            use_type_invariant(self);
            lemma_count(self.slots@);
        }
        self.slots.len()
    }

    /// The key of the slot at `position`.
    pub fn key_of(&self, position: usize) -> (key: &K)
        requires
            position < self.slot_count(),
        ensures
            key@ == self.key_at(position as int),
    {
        &self.slots[position].0
    }

    /// The value in the slot at `position`.
    pub fn value_at(&self, position: usize) -> (value: &V)
        requires
            position < self.slot_count(),
        ensures
            self@.contains_key(self.key_at(position as int)),
            value@ == self@[self.key_at(position as int)],
    {
        proof {
            use_type_invariant(self);
            lemma_slot_lookup(self.slots@, position as int);
        }
        &self.slots[position].1
    }

    /// Every key in use is the key of one of the slots.
    pub proof fn lemma_key_has_slot(&self, key: K::V)
        requires
            self@.contains_key(key),
        ensures
            exists|position: int|
                0 <= position < self.slot_count() && #[trigger] self.key_at(position) == key,
    {
        let position = slot_of(self.slots@, key);
        assert(0 <= position < self.slot_count() && self.key_at(position) == key);
    }
}

} // verus!
