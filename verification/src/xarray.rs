//! A table of values under small integer ids, handed out lowest first.

use crate::error::{Error, Result};
use vstd::prelude::*;

verus! {

/// A table that stores values under ids from 1 on. A new value gets the
/// lowest id that is free.
pub struct IdTable<T> {
    slots: Vec<Option<T>>,
}

/// The lowest position among the first `n` that holds nothing, if there is
/// one.
pub open spec fn spec_first_free<T>(slots: Seq<Option<T>>, n: int) -> Option<int>
    decreases n,
{
    if n <= 0 {
        None
    } else {
        match spec_first_free(slots, n - 1) {
            Some(i) => Some(i),
            None => if slots[n - 1] is None {
                Some(n - 1)
            } else {
                None
            },
        }
    }
}

/// The position found by `spec_first_free` holds nothing, and every
/// position before it holds something.
pub proof fn lemma_first_free<T>(slots: Seq<Option<T>>, n: int)
    requires
        0 <= n <= slots.len(),
    ensures
        spec_first_free(slots, n) matches Some(i) ==> 0 <= i < n && slots[i] is None && forall|
            j: int,
        | 0 <= j < i ==> (#[trigger] slots[j]) is Some,
        spec_first_free(slots, n) is None ==> forall|j: int|
            0 <= j < n ==> (#[trigger] slots[j]) is Some,
    decreases n,
{
    if n > 0 {
        lemma_first_free(slots, n - 1);
    }
}

impl<T> IdTable<T> {
    /// The contents of the table: position `i` holds the value of id
    /// `i + 1`.
    pub closed spec fn view(&self) -> Seq<Option<T>> {
        self.slots@
    }

    /// Whether the id `id` is in use.
    pub open spec fn spec_contains(&self, id: u32) -> bool {
        1 <= id <= self@.len() && self@[id - 1] is Some
    }

    /// The value stored under the id `id`.
    pub open spec fn spec_get(&self, id: u32) -> T
        recommends
            self.spec_contains(id),
    {
        self@[id - 1]->0
    }

    /// The id that the next value gets: the lowest that is free.
    pub open spec fn spec_next_id(&self) -> int {
        match spec_first_free(self@, self@.len() as int) {
            Some(i) => i + 1,
            None => self@.len() as int + 1,
        }
    }

    /// Whether every position has an id.
    pub closed spec fn wf(&self) -> bool {
        self.slots@.len() < u32::MAX
    }

    /// Creates an empty table.
    pub fn new() -> (r: Self)
        ensures
            r.wf(),
            r@ == Seq::<Option<T>>::empty(),
    {
        IdTable { slots: Vec::new() }
    }

    /// Returns the id that the next value gets.
    ///
    /// Fails with `EBUSY` when the ids have run out.
    pub fn next_id(&self) -> (r: Result<u32>)
        requires
            self.wf(),
        ensures
            r is Ok <==> self.spec_next_id() < u32::MAX,
            r matches Ok(id) ==> id == self.spec_next_id() && id >= 1 && !self.spec_contains(id),
            r matches Err(e) ==> e == Error::EBUSY,
    {
        let mut i: usize = 0;
        proof {
            lemma_first_free(self.slots@, self.slots@.len() as int);
        }
        while i < self.slots.len()
            invariant
                i <= self.slots@.len(),
                self.slots@.len() < u32::MAX,
                spec_first_free(self.slots@, i as int) is None,
            decreases self.slots@.len() - i,
        {
            if self.slots[i].is_none() {
                proof {
                    lemma_first_free_found(self.slots@, i as int, self.slots@.len() as int);
                }
                return Ok((i + 1) as u32);
            }
            i = i + 1;
        }
        if self.slots.len() + 1 >= u32::MAX as usize {
            return Err(Error::EBUSY);
        }
        Ok((self.slots.len() + 1) as u32)
    }

    /// Stores `value` under the lowest free id and returns the id.
    ///
    /// Fails with `EBUSY`, changing nothing, when the ids have run out.
    pub fn insert(&mut self, value: T) -> (r: Result<u32>)
        requires
            old(self).wf(),
        ensures
            final(self).wf(),
            r is Ok <==> old(self).spec_next_id() < u32::MAX,
            r matches Ok(id) ==> {
                &&& id == old(self).spec_next_id()
                &&& !old(self).spec_contains(id)
                &&& final(self).spec_contains(id)
                &&& final(self).spec_get(id) == value
                &&& forall|other: u32|
                    other != id ==> final(self).spec_contains(other) == old(self).spec_contains(
                        other,
                    ) && (old(self).spec_contains(other) ==> final(self).spec_get(other) == old(
                        self,
                    ).spec_get(other))
            },
            r matches Err(e) ==> e == Error::EBUSY && final(self)@ == old(self)@,
    {
        let id = match self.next_id() {
            Ok(id) => id,
            Err(e) => {
                return Err(e);
            },
        };
        proof {
            lemma_first_free(self.slots@, self.slots@.len() as int);
        }
        if (id as usize) <= self.slots.len() {
            self.slots.set((id - 1) as usize, Some(value));
        } else {
            self.slots.push(Some(value));
        }
        proof {
            assert forall|other: u32| other != id implies self.spec_contains(other) == old(
                self,
            ).spec_contains(other) && (old(self).spec_contains(other) ==> self.spec_get(other)
                == old(self).spec_get(other)) by {
                if 1 <= other <= old(self)@.len() {
                    assert(self@[other - 1] == old(self)@[other - 1]);
                }
            }
        }
        Ok(id)
    }

    /// Returns whether the id `id` is in use.
    pub fn contains(&self, id: u32) -> (r: bool)
        ensures
            r == self.spec_contains(id),
    {
        id >= 1 && (id as usize) <= self.slots.len() && self.slots[(id - 1) as usize].is_some()
    }

    /// Returns the value stored under `id`, if the id is in use.
    pub fn get(&self, id: u32) -> (r: Option<&T>)
        ensures
            r is Some <==> self.spec_contains(id),
            r matches Some(v) ==> *v == self.spec_get(id),
    {
        if id >= 1 && (id as usize) <= self.slots.len() {
            self.slots[(id - 1) as usize].as_ref()
        } else {
            None
        }
    }

    /// Takes the value stored under `id` out of the table, if the id is in
    /// use. The id is free afterwards.
    pub fn remove(&mut self, id: u32) -> (r: Option<T>)
        requires
            old(self).wf(),
        ensures
            final(self).wf(),
            r is Some <==> old(self).spec_contains(id),
            r matches Some(v) ==> v == old(self).spec_get(id),
            !final(self).spec_contains(id),
            forall|other: u32|
                other != id ==> final(self).spec_contains(other) == old(self).spec_contains(other)
                    && (old(self).spec_contains(other) ==> final(self).spec_get(other) == old(
                    self,
                ).spec_get(other)),
            r is None ==> final(self)@ == old(self)@,
            r is Some ==> final(self)@ == old(self)@.update(id - 1, None),
    {
        if id >= 1 && (id as usize) <= self.slots.len() {
            let mut taken: Option<T> = None;
            let ghost before = self.slots@;
            let slot = &mut self.slots[(id - 1) as usize];
            core::mem::swap(slot, &mut taken);
            proof {
                if taken is None {
                    assert(self.slots@ =~= before);
                }
            }
            taken
        } else {
            None
        }
    }

    /// Stores `value` under the id `id`, which has to be in use, in place of
    /// the value that is there.
    pub fn replace(&mut self, id: u32, value: T)
        requires
            old(self).wf(),
            old(self).spec_contains(id),
        ensures
            final(self).wf(),
            final(self)@ == old(self)@.update(id - 1, Some(value)),
    {
        self.slots.set((id - 1) as usize, Some(value));
    }

    /// Stores `value` under the id `id`, which has to be free and not
    /// above the highest id that was ever in use.
    pub fn restore(&mut self, id: u32, value: T)
        requires
            old(self).wf(),
            1 <= id <= old(self)@.len(),
            !old(self).spec_contains(id),
        ensures
            final(self).wf(),
            final(self)@ == old(self)@.update(id - 1, Some(value)),
    {
        self.slots.set((id - 1) as usize, Some(value));
    }

    /// Returns the number of the highest id that was ever in use.
    pub fn capacity(&self) -> (r: u32)
        requires
            self.wf(),
        ensures
            r == self@.len(),
            r < u32::MAX,
    {
        self.slots.len() as u32
    }
}

/// A free position behind occupied ones is the first free one.
pub proof fn lemma_first_free_found<T>(slots: Seq<Option<T>>, i: int, n: int)
    requires
        0 <= i < n <= slots.len(),
        spec_first_free(slots, i) is None,
        slots[i] is None,
    ensures
        spec_first_free(slots, n) == Some(i),
    decreases n - i,
{
    if n > i + 1 {
        lemma_first_free_found(slots, i, n - 1);
    }
}

} // verus!
