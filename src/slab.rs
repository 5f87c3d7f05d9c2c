use vstd::prelude::*;

verus! {

/// An index-addressed table with O(1) insert, lookup and remove.
///
/// Vacant slots are kept on a free list and handed out again by `insert`;
/// an index is never handed out while it is occupied.
pub struct Slab<T> {
    entries: Vec<Option<T>>,
    free: Vec<usize>,
    len: usize,
    contents: Ghost<Map<usize, T>>,
}

impl<T> Slab<T> {
    /// The occupied slots, by index.
    pub closed spec fn view(&self) -> Map<usize, T> {
        self.contents@
    }

    pub closed spec fn wf(&self) -> bool {
        &&& self.contents@.dom().finite()
        &&& self.len == self.contents@.dom().len()
        &&& self.len + self.free@.len() == self.entries@.len()
        &&& forall|i: usize| #[trigger]
            self.contents@.contains_key(i) <==> (i < self.entries@.len() && self.entries@[i as int] is Some)
        &&& forall|i: usize| #[trigger]
            self.contents@.contains_key(i) ==> self.entries@[i as int] == Some(self.contents@[i])
        &&& forall|j: int|
            0 <= j < self.free@.len() ==> #[trigger] self.free@[j] < self.entries@.len()
                && self.entries@[self.free@[j] as int] is None
        &&& forall|j: int, k: int|
            0 <= j < k < self.free@.len() ==> #[trigger] self.free@[j] != #[trigger] self.free@[k]
    }

    /// Number of slots ever allocated, occupied or vacant. Every index that
    /// `insert` returns lies below it.
    pub closed spec fn slots(&self) -> nat {
        self.entries@.len()
    }

    pub fn new() -> (r: Self)
        ensures
            r.wf(),
            r@ == Map::<usize, T>::empty(),
            r.slots() == 0,
    {
        Slab { entries: Vec::new(), free: Vec::new(), len: 0, contents: Ghost(Map::empty()) }
    }

    /// Number of occupied slots.
    pub fn len(&self) -> (r: usize)
        requires
            self.wf(),
        ensures
            r == self@.len(),
    {
        self.len
    }

    pub fn contains(&self, index: usize) -> (r: bool)
        requires
            self.wf(),
        ensures
            r == self@.contains_key(index),
    {
        index < self.entries.len() && self.entries[index].is_some()
    }

    pub fn get(&self, index: usize) -> (r: Option<&T>)
        requires
            self.wf(),
        ensures
            r == (if self@.contains_key(index) { Some(&self@[index]) } else { None }),
    {
        if index < self.entries.len() {
            self.entries[index].as_ref()
        } else {
            None
        }
    }

    /// Occupied slots are among the allocated ones.
    pub proof fn lemma_len_le_slots(&self)
        requires
            self.wf(),
        ensures
            self@.len() <= self.slots(),
    {
    }

    pub fn slot_count(&self) -> (r: usize)
        ensures
            r == self.slots(),
    {
        self.entries.len()
    }

    /// Stores `value` in a vacant slot and returns its index. A slot is
    /// allocated only when no vacant one is left.
    pub fn insert(&mut self, value: T) -> (r: usize)
        requires
            old(self).wf(),
            old(self).slots() < usize::MAX,
        ensures
            final(self).wf(),
            !old(self)@.contains_key(r),
            final(self)@ == old(self)@.insert(r, value),
            r < final(self).slots(),
            final(self).slots() <= old(self).slots() + 1,
            old(self)@.len() < old(self).slots() ==> final(self).slots() == old(self).slots(),
    {
        let ghost old_contents = self.contents@;
        match self.free.pop() {
            Some(i) => {
                proof {
                    assert(self.free@ == old(self).free@.drop_last());
                    assert forall|j: int| 0 <= j < self.free@.len() implies self.free@[j] != i by {
                        assert(old(self).free@[j] == self.free@[j]);
                        assert(old(self).free@[old(self).free@.len() - 1] == i);
                    }
                }
                self.entries.set(i, Some(value));
                self.len = self.len + 1;
                self.contents = Ghost(old_contents.insert(i, value));
                proof {
                    assert(!old_contents.contains_key(i));
                    assert forall|j: int| 0 <= j < self.free@.len() implies #[trigger] self.free@[j]
                        < self.entries@.len() && self.entries@[self.free@[j] as int] is None by {
                        assert(old(self).free@[j] == self.free@[j]);
                    }
                }
                i
            },
            None => {
                let i = self.entries.len();
                self.entries.push(Some(value));
                self.len = self.len + 1;
                self.contents = Ghost(old_contents.insert(i, value));
                proof {
                    assert(!old_contents.contains_key(i));
                    assert forall|j: int| 0 <= j < self.free@.len() implies #[trigger] self.free@[j]
                        < self.entries@.len() && self.entries@[self.free@[j] as int] is None by {
                        assert(old(self).free@[j] == self.free@[j]);
                    }
                }
                i
            },
        }
    }

    /// Replaces the value of an occupied slot in place and returns the old one.
    pub fn replace(&mut self, index: usize, value: T) -> (r: T)
        requires
            old(self).wf(),
            old(self)@.contains_key(index),
        ensures
            final(self).wf(),
            r == old(self)@[index],
            final(self)@ == old(self)@.insert(index, value),
            final(self).slots() == old(self).slots(),
    {
        let ghost old_contents = self.contents@;
        let mut slot = Some(value);
        self.entries.set_and_swap(index, &mut slot);
        self.contents = Ghost(old_contents.insert(index, value));
        proof {
            assert(old_contents.dom().insert(index) =~= old_contents.dom());
            assert forall|j: int| 0 <= j < self.free@.len() implies #[trigger] self.free@[j]
                < self.entries@.len() && self.entries@[self.free@[j] as int] is None by {
                if self.free@[j] == index {
                    assert(old(self).entries@[index as int] is None);
                }
            }
        }
        match slot {
            Some(v) => v,
            None => {
                proof {
                    assert(false);
                }
                slot.unwrap()
            },
        }
    }

    /// Empties an occupied slot, returning its value; the index becomes vacant.
    pub fn remove(&mut self, index: usize) -> (r: T)
        requires
            old(self).wf(),
            old(self)@.contains_key(index),
        ensures
            final(self).wf(),
            r == old(self)@[index],
            final(self)@ == old(self)@.remove(index),
            final(self).slots() == old(self).slots(),
    {
        let ghost old_contents = self.contents@;
        let mut slot: Option<T> = None;
        self.entries.set_and_swap(index, &mut slot);
        proof {
            assert forall|j: int| 0 <= j < self.free@.len() implies self.free@[j] != index by {
                assert(old(self).entries@[self.free@[j] as int] is None);
            }
        }
        self.free.push(index);
        self.len = self.len - 1;
        self.contents = Ghost(old_contents.remove(index));
        proof {
            assert forall|j: int| 0 <= j < self.free@.len() implies #[trigger] self.free@[j]
                < self.entries@.len() && self.entries@[self.free@[j] as int] is None by {
                if j < old(self).free@.len() {
                    assert(self.free@[j] == old(self).free@[j]);
                }
            }
            assert forall|j: int, k: int| 0 <= j < k < self.free@.len() implies #[trigger] self.free@[j]
                != #[trigger] self.free@[k] by {
                if k < old(self).free@.len() {
                    assert(self.free@[j] == old(self).free@[j]);
                    assert(self.free@[k] == old(self).free@[k]);
                } else {
                    assert(self.free@[j] == old(self).free@[j]);
                }
            }
        }
        match slot {
            Some(v) => v,
            None => {
                proof {
                    assert(false);
                }
                slot.unwrap()
            },
        }
    }
}

} // verus!
