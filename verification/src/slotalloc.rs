//! Generic slot allocator.
//!
//! A bounded pool of numbered slots. A user that gives a slot back and asks
//! for one again later gets the same slot back unchanged when nobody used it
//! in between; otherwise it gets the slot that has been free the longest and
//! is told that it has to set the slot up again.

use crate::error::{Error, Result};
use vstd::prelude::*;

verus! {

/// Identifies one tenure of one slot: the slot and the reading of the
/// allocator's acquisition counter when the tenure began.
#[derive(Clone, Copy, Debug, PartialEq, Eq, Structural)]
pub struct SlotToken {
    pub time: u64,
    pub slot: u32,
}

impl SlotToken {
    /// Returns the slot that this token was issued for.
    pub fn last_slot(&self) -> (r: u32)
        ensures
            r == self.slot,
    {
        self.slot
    }
}

/// What the pool remembers of a slot that is free.
#[derive(Clone, Copy, Debug, PartialEq, Eq, Structural)]
pub struct Entry {
    /// Acquisition counter when the slot's last tenure began.
    pub get_time: u64,
    /// Release counter when the slot was given back.
    pub drop_time: u64,
}

/// A slot that has been handed out.
#[derive(Clone, Copy, Debug, PartialEq, Eq, Structural)]
pub struct Guard {
    /// The slot.
    pub slot: u32,
    /// The token of this tenure.
    pub token: SlotToken,
    /// Whether the slot was used by another tenure, or by none, since the
    /// tenure that the requested token stood for.
    pub changed: bool,
}

/// The state of a slot allocator: for each slot what is remembered of it
/// while it is free, and the two counters.
pub struct SlotModel {
    pub slots: Seq<Option<Entry>>,
    pub get_count: u64,
    pub drop_count: u64,
}

/// The free slot among the first `n` that was given back first, the lowest
/// numbered of several; `None` when none of them is free.
pub open spec fn spec_oldest_free(slots: Seq<Option<Entry>>, n: int) -> Option<int>
    decreases n,
{
    if n <= 0 {
        None
    } else {
        let rest = spec_oldest_free(slots, n - 1);
        match slots[n - 1] {
            None => rest,
            Some(e) => match rest {
                None => Some(n - 1),
                Some(i) => if e.drop_time < slots[i]->0.drop_time {
                    Some(n - 1)
                } else {
                    Some(i)
                },
            },
        }
    }
}

/// Whether `token` stands for the last tenure of a slot that is free.
pub open spec fn spec_token_matches(m: SlotModel, token: Option<SlotToken>) -> bool {
    &&& token matches Some(t)
    &&& t.slot < m.slots.len()
    &&& m.slots[t.slot as int] matches Some(e)
    &&& e.get_time == t.time
}

/// What a request for a slot hands out: the slot of a matching token,
/// unchanged; else the free slot that was given back first, under a new
/// token; nothing when no slot is free or the counter is exhausted.
pub open spec fn spec_get(m: SlotModel, token: Option<SlotToken>) -> Option<Guard> {
    if spec_token_matches(m, token) {
        Some(Guard { slot: token->0.slot, token: token->0, changed: false })
    } else {
        match spec_oldest_free(m.slots, m.slots.len() as int) {
            Some(i) if m.get_count < u64::MAX => Some(
                Guard {
                    slot: i as u32,
                    token: SlotToken { time: (m.get_count + 1) as u64, slot: i as u32 },
                    changed: true,
                },
            ),
            _ => None,
        }
    }
}

/// The allocator after handing out `guard`.
pub open spec fn spec_after_get(m: SlotModel, guard: Guard) -> SlotModel {
    SlotModel {
        slots: m.slots.update(guard.slot as int, None),
        get_count: if guard.changed {
            guard.token.time
        } else {
            m.get_count
        },
        drop_count: m.drop_count,
    }
}

/// The allocator after `guard` was given back.
pub open spec fn spec_after_release(m: SlotModel, guard: Guard) -> SlotModel {
    SlotModel {
        slots: m.slots.update(
            guard.slot as int,
            Some(Entry { get_time: guard.token.time, drop_time: (m.drop_count + 1) as u64 }),
        ),
        get_count: m.get_count,
        drop_count: (m.drop_count + 1) as u64,
    }
}

/// The slot found by `spec_oldest_free` is free, and no free slot was given
/// back before it.
pub proof fn lemma_oldest_free(slots: Seq<Option<Entry>>, n: int)
    requires
        0 <= n <= slots.len(),
    ensures
        spec_oldest_free(slots, n) matches Some(i) ==> 0 <= i < n && slots[i] is Some,
        spec_oldest_free(slots, n) matches Some(i) ==> forall|j: int|
            0 <= j < n && (#[trigger] slots[j]) is Some ==> slots[i]->0.drop_time
                <= slots[j]->0.drop_time,
        spec_oldest_free(slots, n) is None ==> forall|j: int|
            0 <= j < n ==> (#[trigger] slots[j]) is None,
    decreases n,
{
    if n > 0 {
        lemma_oldest_free(slots, n - 1);
    }
}

/// Giving a slot back and asking for a slot with the token of the tenure
/// that just ended hands out the same slot, unchanged.
pub proof fn lemma_release_then_get(m: SlotModel, guard: Guard)
    requires
        guard.slot < m.slots.len(),
        guard.token.slot == guard.slot,
    ensures
        spec_get(spec_after_release(m, guard), Some(guard.token)) == Some(
            Guard { slot: guard.slot, token: guard.token, changed: false },
        ),
{
}

/// Taking a slot, giving it back and asking again with the token of that
/// tenure restores what the first request found: the same slot comes back,
/// and it has not changed.
pub proof fn lemma_get_release_get(m: SlotModel, token: Option<SlotToken>)
    requires
        m.slots.len() <= u32::MAX,
        spec_get(m, token) is Some,
    ensures
        ({
            let g = spec_get(m, token)->0;
            let again = spec_get(spec_after_release(spec_after_get(m, g), g), Some(g.token));
            again == Some(Guard { slot: g.slot, token: g.token, changed: false })
        }),
{
    lemma_get_same_or_changed(m, token);
    let g = spec_get(m, token)->0;
    lemma_release_then_get(spec_after_get(m, g), g);
}

/// A request hands out the slot of the token that was asked for, unchanged,
/// or some slot that has to be set up again.
pub proof fn lemma_get_same_or_changed(m: SlotModel, token: Option<SlotToken>)
    requires
        m.slots.len() <= u32::MAX,
    ensures
        spec_get(m, token) matches Some(g) ==> {
            ||| (token matches Some(t) && g.slot == t.slot && g.token == t && !g.changed)
            ||| g.changed
        },
        spec_get(m, token) matches Some(g) ==> g.token.slot == g.slot && g.slot < m.slots.len()
            && m.slots[g.slot as int] is Some,
{
    if !spec_token_matches(m, token) {
        lemma_oldest_free(m.slots, m.slots.len() as int);
    }
}

/// The bounded pool of slots.
pub struct SlotAllocator {
    slots: Vec<Option<Entry>>,
    get_count: u64,
    drop_count: u64,
}

impl SlotAllocator {
    /// The state of the allocator.
    pub closed spec fn view(&self) -> SlotModel {
        SlotModel { slots: self.slots@, get_count: self.get_count, drop_count: self.drop_count }
    }

    /// Whether the number of slots fits a slot number and the release
    /// counter has room for every slot that is out.
    pub closed spec fn wf(&self) -> bool {
        &&& self.slots@.len() <= u32::MAX
        &&& self.drop_count < u64::MAX
    }

    /// Creates a pool of `num_slots` slots, all free and never used.
    pub fn new(num_slots: u32) -> (r: Self)
        ensures
            r.wf(),
            r@.slots == Seq::new(
                num_slots as nat,
                |i: int| Some(Entry { get_time: 0, drop_time: 0 }),
            ),
            r@.get_count == 0,
            r@.drop_count == 0,
    {
        let mut slots: Vec<Option<Entry>> = Vec::new();
        let mut i: u32 = 0;
        while i < num_slots
            invariant
                i <= num_slots,
                slots@ == Seq::new(i as nat, |i: int| Some(Entry { get_time: 0, drop_time: 0 })),
            decreases num_slots - i,
        {
            slots.push(Some(Entry { get_time: 0, drop_time: 0 }));
            i = i + 1;
            assert(slots@ =~= Seq::new(
                i as nat,
                |i: int| Some(Entry { get_time: 0, drop_time: 0 }),
            ));
        }
        SlotAllocator { slots, get_count: 0, drop_count: 0 }
    }

    /// Returns the number of slots of the pool.
    pub fn num_slots(&self) -> (r: usize)
        ensures
            r == self@.slots.len(),
    {
        self.slots.len()
    }

    /// Returns whether `slot` is free.
    pub fn is_free(&self, slot: u32) -> (r: bool)
        ensures
            r == (slot < self@.slots.len() && self@.slots[slot as int] is Some),
    {
        (slot as usize) < self.slots.len() && self.slots[slot as usize].is_some()
    }

    /// Finds the free slot that was given back first.
    fn oldest_free(&self) -> (r: Option<usize>)
        ensures
            r is Some <==> spec_oldest_free(self.slots@, self.slots@.len() as int) is Some,
            r matches Some(i) ==> spec_oldest_free(self.slots@, self.slots@.len() as int)
                == Some(i as int),
    {
        let mut best: Option<usize> = None;
        let mut best_time: u64 = 0;
        let mut i: usize = 0;
        while i < self.slots.len()
            invariant
                i <= self.slots@.len(),
                best is Some <==> spec_oldest_free(self.slots@, i as int) is Some,
                best matches Some(b) ==> spec_oldest_free(self.slots@, i as int) == Some(b as int)
                    && b < i && self.slots@[b as int] is Some && best_time
                    == self.slots@[b as int]->0.drop_time,
            decreases self.slots@.len() - i,
        {
            match self.slots[i] {
                Some(e) => {
                    if best.is_none() || e.drop_time < best_time {
                        best = Some(i);
                        best_time = e.drop_time;
                    }
                },
                None => {},
            }
            i = i + 1;
        }
        best
    }

    /// Hands out a slot, the one that `token` stands for if it is free and
    /// nobody used it since.
    ///
    /// Fails with `EBUSY`, changing nothing, when no slot is free or the
    /// acquisition counter is exhausted.
    pub fn get(&mut self, token: Option<SlotToken>) -> (r: Result<Guard>)
        requires
            old(self).wf(),
        ensures
            final(self).wf(),
            r is Ok <==> spec_get(old(self)@, token) is Some,
            r matches Ok(g) ==> Some(g) == spec_get(old(self)@, token) && final(self)@
                == spec_after_get(old(self)@, g),
            r matches Err(e) ==> e == Error::EBUSY && final(self)@ == old(self)@,
    {
        match token {
            Some(t) => {
                if (t.slot as usize) < self.slots.len() {
                    match self.slots[t.slot as usize] {
                        Some(e) => {
                            if e.get_time == t.time {
                                self.slots.set(t.slot as usize, None);
                                return Ok(Guard { slot: t.slot, token: t, changed: false });
                            }
                        },
                        None => {},
                    }
                }
            },
            None => {},
        }
        let slot: usize = match self.oldest_free() {
            Some(i) => i,
            None => {
                return Err(Error::EBUSY);
            },
        };
        proof {
            lemma_oldest_free(self.slots@, self.slots@.len() as int);
        }
        if self.get_count == u64::MAX {
            return Err(Error::EBUSY);
        }
        self.get_count = self.get_count + 1;
        self.slots.set(slot, None);
        Ok(
            Guard {
                slot: slot as u32,
                token: SlotToken { time: self.get_count, slot: slot as u32 },
                changed: true,
            },
        )
    }

    /// Takes back a slot that was handed out.
    ///
    /// Fails with `EINVAL`, changing nothing, when the slot does not exist,
    /// is free already, or the release counter is exhausted.
    pub fn release(&mut self, guard: Guard) -> (r: Result<()>)
        requires
            old(self).wf(),
        ensures
            final(self).wf(),
            r is Ok <==> guard.slot < old(self)@.slots.len() && old(self)@.slots[guard.slot as int]
                is None && old(self)@.drop_count + 2 <= u64::MAX,
            r is Ok ==> final(self)@ == spec_after_release(old(self)@, guard),
            r matches Err(e) ==> e == Error::EINVAL && final(self)@ == old(self)@,
    {
        if (guard.slot as usize) >= self.slots.len() {
            return Err(Error::EINVAL);
        }
        if self.slots[guard.slot as usize].is_some() {
            return Err(Error::EINVAL);
        }
        if self.drop_count >= u64::MAX - 1 {
            return Err(Error::EINVAL);
        }
        self.drop_count = self.drop_count + 1;
        self.slots.set(
            guard.slot as usize,
            Some(Entry { get_time: guard.token.time, drop_time: self.drop_count }),
        );
        Ok(())
    }
}

} // verus!
