//! Event channels and completion errors of firmware work queues.

use vstd::prelude::*;

verus! {

/// Why a piece of submitted work did not complete.
#[derive(Clone, Copy, Debug, PartialEq, Eq, Structural)]
pub enum WorkError {
    /// The GPU timed out.
    Timeout,
    /// The work faulted.
    Fault,
    /// The work was killed because related work failed.
    Killed,
    /// The firmware crashed.
    NoDevice,
    /// Any other failure.
    Unknown,
}

/// Completion status written to a result record.
#[derive(Clone, Copy, Debug, PartialEq, Eq, Structural)]
pub enum Status {
    Pending,
    Complete,
    UnknownError,
    Timeout,
    Fault,
    Killed,
    NoDevice,
}

impl WorkError {
    /// The status that a result record carries for this error.
    pub open spec fn spec_status(self) -> Status {
        match self {
            WorkError::Timeout => Status::Timeout,
            WorkError::Fault => Status::Fault,
            WorkError::Killed => Status::Killed,
            WorkError::NoDevice => Status::NoDevice,
            WorkError::Unknown => Status::UnknownError,
        }
    }

    /// Returns the status that a result record carries for this error.
    pub fn status(self) -> (r: Status)
        ensures
            r == self.spec_status(),
    {
        match self {
            WorkError::Timeout => Status::Timeout,
            WorkError::Fault => Status::Fault,
            WorkError::Killed => Status::Killed,
            WorkError::NoDevice => Status::NoDevice,
            WorkError::Unknown => Status::UnknownError,
        }
    }
}

/// The value that follows `value` on an event stamp: stamps advance by one
/// per step and wrap around.
pub open spec fn spec_next_stamp(value: u32) -> u32 {
    if value == u32::MAX {
        0
    } else {
        (value + 1) as u32
    }
}

/// Returns the value that follows `value` on an event stamp.
pub fn next_stamp(value: u32) -> (r: u32)
    ensures
        r == spec_next_stamp(value),
{
    if value == u32::MAX {
        0
    } else {
        value + 1
    }
}

/// One event channel of a queue: a stamp slot assigned by the GPU manager,
/// the last value reserved on it, and the firmware objects that describe it.
#[derive(Clone, Copy, Debug, PartialEq, Eq, Structural)]
pub struct EventChannel {
    /// GPU pointer to the stamp cell.
    pub stamp_pointer: u64,
    /// GPU pointer to the firmware's copy of the stamp.
    pub fw_stamp_pointer: u64,
    /// Stamp slot.
    pub slot: u32,
    /// Last stamp value reserved on this channel.
    pub value: u32,
    /// GPU pointer to the work queue info structure.
    pub info_ptr: u64,
    /// Number of submissions made on this channel.
    pub event_seq: u64,
}

impl EventChannel {
    /// The channel after one more submission: the stamp advances by one and
    /// the sequence number counts the submission.
    pub open spec fn spec_advance(self) -> EventChannel {
        EventChannel {
            value: spec_next_stamp(self.value),
            event_seq: if self.event_seq == u64::MAX {
                0
            } else {
                (self.event_seq + 1) as u64
            },
            ..self
        }
    }

    /// Reserves the next stamp value and counts the submission.
    pub fn advance(&mut self)
        ensures
            *final(self) == old(self).spec_advance(),
    {
        self.value = next_stamp(self.value);
        self.event_seq = if self.event_seq == u64::MAX {
            0
        } else {
            self.event_seq + 1
        };
    }
}

} // verus!
