//! The handoff region shared with the firmware.
//!
//! The region holds two magic words, a lock that the host and the firmware
//! take by Dekker's algorithm, the context slot that the firmware is using,
//! and one flush request record per context slot plus a global one.
//!
//! The firmware changes the region at any time, so the host's side of each
//! protocol is a step function: the embedding reads what the firmware wrote,
//! asks what to do, and does it.

use crate::error::{Error, Result};
use crate::mmu::UAT_NUM_CTX;
use vstd::prelude::*;

verus! {

/// PPL magic number for the handoff region.
pub const PPL_MAGIC: u64 = 0x4b1d000000000002;

/// How long the host waits for the firmware's magic, in nanoseconds.
pub const HANDOFF_TIMEOUT_NS: u64 = 1_000_000_000;

/// How long the host sleeps between two looks at the firmware's magic, in
/// nanoseconds.
pub const HANDOFF_POLL_NS: u64 = 10_000_000;

/// Where the host stands in taking the handoff lock.
#[derive(Clone, Copy, Debug, PartialEq, Eq, Structural)]
pub enum LockState {
    /// The host neither holds nor wants the lock.
    Unlocked,
    /// The host has raised its flag and waits for the firmware's flag to
    /// drop.
    Contending,
    /// The host has lowered its flag because it is the firmware's turn, and
    /// waits for its own turn.
    Backoff,
    /// The host holds the lock.
    Locked,
}

/// What the host does to the region in one step of the lock protocol.
#[derive(Clone, Copy, Debug, PartialEq, Eq, Structural)]
pub enum LockAction {
    /// Nothing; look again.
    Wait,
    /// Store 1 to the host's flag, then issue a full fence.
    RaiseFlag,
    /// Store 0 to the host's flag.
    LowerFlag,
    /// Issue an acquire fence; the lock is held.
    Acquire,
    /// Store 1 to the turn word, then store 0 to the host's flag with
    /// release ordering.
    Release,
}

/// The host's side of the handoff lock.
#[derive(Clone, Copy, Debug, PartialEq, Eq, Structural)]
pub struct HandoffLock {
    /// Where the host stands.
    pub state: LockState,
    /// The value of the host's flag in the region.
    pub lock_ap: u8,
}

impl HandoffLock {
    /// The host's flag is raised exactly while the host contends for the
    /// lock or holds it.
    pub open spec fn wf(&self) -> bool {
        (self.lock_ap == 1) == (self.state == LockState::Contending || self.state
            == LockState::Locked) && self.lock_ap <= 1
    }

    /// The lock before anybody took it.
    pub fn new() -> (r: Self)
        ensures
            r.wf(),
            r.state == LockState::Unlocked,
    {
        HandoffLock { state: LockState::Unlocked, lock_ap: 0 }
    }

    /// Starts taking the lock: the host raises its flag.
    pub fn lock(&mut self) -> (r: LockAction)
        requires
            old(self).wf(),
            old(self).state == LockState::Unlocked,
        ensures
            final(self).wf(),
            final(self).state == LockState::Contending,
            r == LockAction::RaiseFlag,
    {
        self.state = LockState::Contending;
        self.lock_ap = 1;
        LockAction::RaiseFlag
    }

    /// The next state of the lock protocol for what the region shows.
    pub open spec fn spec_step(state: LockState, lock_fw: u8, turn: u32) -> (LockState, LockAction) {
        match state {
            LockState::Contending => if lock_fw == 0 {
                (LockState::Locked, LockAction::Acquire)
            } else if turn != 0 {
                (LockState::Backoff, LockAction::LowerFlag)
            } else {
                (LockState::Contending, LockAction::Wait)
            },
            LockState::Backoff => if turn != 0 {
                (LockState::Backoff, LockAction::Wait)
            } else {
                (LockState::Contending, LockAction::RaiseFlag)
            },
            LockState::Locked => (LockState::Locked, LockAction::Wait),
            LockState::Unlocked => (LockState::Unlocked, LockAction::Wait),
        }
    }

    /// Takes one step towards the lock, given the firmware's flag and the
    /// turn word as just read from the region.
    ///
    /// While the firmware's flag is up the host waits; if it is the
    /// firmware's turn the host lowers its own flag until the turn word
    /// says otherwise, then raises it again.
    pub fn poll(&mut self, lock_fw: u8, turn: u32) -> (r: LockAction)
        requires
            old(self).wf(),
        ensures
            final(self).wf(),
            (final(self).state, r) == Self::spec_step(old(self).state, lock_fw, turn),
    {
        match self.state {
            LockState::Contending => {
                if lock_fw == 0 {
                    self.state = LockState::Locked;
                    LockAction::Acquire
                } else if turn != 0 {
                    self.state = LockState::Backoff;
                    self.lock_ap = 0;
                    LockAction::LowerFlag
                } else {
                    LockAction::Wait
                }
            },
            LockState::Backoff => {
                if turn != 0 {
                    LockAction::Wait
                } else {
                    self.state = LockState::Contending;
                    self.lock_ap = 1;
                    LockAction::RaiseFlag
                }
            },
            LockState::Locked => LockAction::Wait,
            LockState::Unlocked => LockAction::Wait,
        }
    }

    /// Gives the lock back: the turn goes to the firmware and the host
    /// lowers its flag.
    pub fn unlock(&mut self) -> (r: LockAction)
        requires
            old(self).wf(),
            old(self).state == LockState::Locked,
        ensures
            final(self).wf(),
            final(self).state == LockState::Unlocked,
            r == LockAction::Release,
    {
        self.state = LockState::Unlocked;
        self.lock_ap = 0;
        LockAction::Release
    }
}

/// The host only comes to hold the lock in a step in which the firmware's
/// flag was down, and it never lowers its flag while holding the lock.
pub proof fn lemma_lock_taken_when_free(state: LockState, lock_fw: u8, turn: u32)
    ensures
        state != LockState::Locked && HandoffLock::spec_step(state, lock_fw, turn).0
            == LockState::Locked ==> lock_fw == 0 && state == LockState::Contending,
        state == LockState::Locked ==> HandoffLock::spec_step(state, lock_fw, turn) == (
            LockState::Locked,
            LockAction::Wait,
        ),
{
}

/// What to do next while waiting for the firmware to initialize its side of
/// the region.
#[derive(Clone, Copy, Debug, PartialEq, Eq, Structural)]
pub enum InitStep {
    /// The firmware's magic is there.
    Ready,
    /// Give the lock back, sleep for this many nanoseconds, take the lock
    /// and look again.
    Sleep(u64),
}

/// Decides how to go on waiting for the firmware's magic, `elapsed_ns`
/// nanoseconds after the host wrote its own, when the region shows
/// `magic_fw`.
///
/// Fails with `EIO` when the magic is not there after the timeout.
pub fn init_poll(elapsed_ns: u64, magic_fw: u64) -> (r: Result<InitStep>)
    ensures
        magic_fw == PPL_MAGIC ==> r == Ok::<InitStep, Error>(InitStep::Ready),
        magic_fw != PPL_MAGIC && elapsed_ns < HANDOFF_TIMEOUT_NS ==> r == Ok::<InitStep, Error>(
            InitStep::Sleep(HANDOFF_POLL_NS),
        ),
        magic_fw != PPL_MAGIC && elapsed_ns >= HANDOFF_TIMEOUT_NS ==> r == Err::<InitStep, Error>(
            Error::EIO,
        ),
{
    if magic_fw == PPL_MAGIC {
        Ok(InitStep::Ready)
    } else if elapsed_ns < HANDOFF_TIMEOUT_NS {
        Ok(InitStep::Sleep(HANDOFF_POLL_NS))
    } else {
        Err(Error::EIO)
    }
}

/// The context slot that the firmware is using for unprivileged access, if
/// any, from the current-slot word of the region.
pub open spec fn spec_current_slot(raw: u32) -> Option<u32> {
    if raw == 0 || raw == u32::MAX {
        None
    } else {
        Some(raw)
    }
}

/// Returns the context slot that the firmware is using, if any.
pub fn current_slot(raw: u32) -> (r: Option<u32>)
    ensures
        r == spec_current_slot(raw),
{
    if raw == 0 || raw == u32::MAX {
        None
    } else {
        Some(raw)
    }
}

/// Flush state: no flush is going on.
pub const FLUSH_IDLE: u64 = 0;

/// Flush state: the host has asked for a flush.
pub const FLUSH_REQUESTED: u64 = 1;

/// Flush state: the firmware has done the flush.
pub const FLUSH_DONE: u64 = 2;

/// One flush request record of the handoff region.
#[derive(Clone, Copy, Debug, PartialEq, Eq, Structural)]
pub struct FlushInfo {
    pub state: u64,
    pub addr: u64,
    pub size: u64,
}

impl FlushInfo {
    /// Sets up a flush of `size` bytes at `start` for the coprocessor.
    /// Returns whether the record was idle, as it should be.
    pub fn begin_flush(&mut self, start: u64, size: u64) -> (r: bool)
        ensures
            r == (old(self).state == FLUSH_IDLE),
            *final(self) == (FlushInfo { state: FLUSH_REQUESTED, addr: start, size }),
    {
        let idle = self.state == FLUSH_IDLE;
        self.addr = start;
        self.size = size;
        self.state = FLUSH_REQUESTED;
        idle
    }

    /// Completes a flush. Returns whether the firmware had reported the
    /// flush as done, as it should have.
    pub fn end_flush(&mut self) -> (r: bool)
        ensures
            r == (old(self).state == FLUSH_DONE),
            *final(self) == (FlushInfo { state: FLUSH_IDLE, ..*old(self) }),
    {
        let done = self.state == FLUSH_DONE;
        self.state = FLUSH_IDLE;
        done
    }
}

/// The host's image of the handoff region.
pub struct Handoff {
    pub magic_ap: u64,
    pub magic_fw: u64,
    pub cur_slot: u32,
    /// Flush records: one per context slot, and a global one last.
    pub flush: Vec<FlushInfo>,
    pub unk3: u64,
}

impl Handoff {
    /// Whether the region has a flush record per context slot and the
    /// global one.
    pub open spec fn wf(&self) -> bool {
        self.flush@.len() == UAT_NUM_CTX + 1
    }

    /// Writes the host's part of the region at initialization: the host's
    /// magic, no current slot, and idle flush records.
    pub fn init() -> (r: Self)
        ensures
            r.wf(),
            r.magic_ap == PPL_MAGIC,
            r.magic_fw == 0,
            r.cur_slot == 0,
            r.unk3 == 0,
            forall|i: int|
                0 <= i <= UAT_NUM_CTX ==> #[trigger] r.flush@[i] == (FlushInfo {
                    state: 0,
                    addr: 0,
                    size: 0,
                }),
    {
        let mut flush: Vec<FlushInfo> = Vec::new();
        let mut i: usize = 0;
        while i <= UAT_NUM_CTX
            invariant
                i <= UAT_NUM_CTX + 1,
                flush@.len() == i,
                forall|j: int|
                    0 <= j < i ==> #[trigger] flush@[j] == (FlushInfo {
                        state: 0,
                        addr: 0,
                        size: 0,
                    }),
            decreases UAT_NUM_CTX + 1 - i,
        {
            flush.push(FlushInfo { state: 0, addr: 0, size: 0 });
            i = i + 1;
        }
        Handoff { magic_ap: PPL_MAGIC, magic_fw: 0, cur_slot: 0, flush, unk3: 0 }
    }
}

} // verus!
