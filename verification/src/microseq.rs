//! Microsequences: the small firmware programs embedded in each job.
//!
//! A microsequence is a list of operations laid out back to back. Branches
//! inside a microsequence are byte offsets between operations, so the builder
//! tracks the encoded size of everything that was added.

use crate::error::{Error, Result};
use crate::queue::common::Attachments;
use vstd::prelude::*;

verus! {

/// Largest encoded size of a microsequence, in bytes.
pub const MAX_MICROSEQ_SIZE: u32 = 0x7fff_ffff;

/// A GPU pipe.
#[derive(Clone, Copy, Debug, PartialEq, Eq, Structural)]
pub enum Pipe {
    Vertex,
    Fragment,
    Compute,
}

/// Starts the vertex stage of a render.
#[derive(Clone, Debug)]
pub struct StartVertex {
    /// Pointer to the tiling parameters inside the job.
    pub tiling_params: u64,
    /// Pointer to the first job parameter block inside the job.
    pub job_params1: u64,
    pub buffer: u64,
    pub scene: u64,
    pub stats: u64,
    /// Pointer to the event channel's work queue info.
    pub work_queue: u64,
    pub vm_slot: u32,
    pub unk_38: u32,
    pub event_generation: u32,
    pub buffer_slot: u32,
    pub event_seq: u64,
    pub unk_pointer: u64,
    pub unk_job_buf: u64,
    pub unk_68: u32,
    pub uuid: u32,
    pub attachments: Attachments,
    /// Submission counter; only firmware 13.0 and later has this field.
    pub counter: Option<u64>,
    pub notifier_buf: Option<u64>,
}

/// Starts the fragment stage of a render.
#[derive(Clone, Debug)]
pub struct StartFragment {
    pub job_params2: u64,
    pub job_params1: u64,
    pub scene: u64,
    pub stats: u64,
    pub busy_flag: u64,
    pub tvb_overflow_count: u64,
    pub unk_pointer: u64,
    pub work_queue: u64,
    /// Pointer to the job that holds this microsequence.
    pub work_item: u64,
    pub vm_slot: u32,
    pub unk_50: u32,
    pub event_generation: u32,
    pub buffer_slot: u32,
    pub event_seq: u64,
    pub unk_758_flag: u64,
    pub unk_job_buf: u64,
    pub uuid: u32,
    pub attachments: Attachments,
    pub counter: Option<u64>,
    pub notifier_buf: Option<u64>,
}

/// Records the GPU timestamp into the job.
#[derive(Clone, Copy, Debug, PartialEq, Eq, Structural)]
pub struct Timestamp {
    /// Whether this is the timestamp taken at the start of the work.
    pub start: bool,
    pub cur_ts: u64,
    pub start_ts: u64,
    /// The cell that receives the timestamp.
    pub update_ts: u64,
    pub work_queue: u64,
    pub unk_ts: Option<u64>,
    pub uuid: u32,
}

/// Completes the vertex stage of a render.
#[derive(Clone, Copy, Debug, PartialEq, Eq, Structural)]
pub struct FinalizeVertex {
    pub scene: u64,
    pub buffer: u64,
    pub stats: u64,
    pub work_queue: u64,
    pub vm_slot: u32,
    pub unk_pointer: u64,
    pub uuid: u32,
    pub fw_stamp: u64,
    pub stamp_value: u32,
    /// Distance in bytes back to the matching start operation.
    pub restart_branch_offset: i32,
    pub has_attachments: u32,
}

/// Completes the fragment stage of a render.
#[derive(Clone, Copy, Debug, PartialEq, Eq, Structural)]
pub struct FinalizeFragment {
    pub uuid: u32,
    pub fw_stamp: u64,
    pub stamp_value: u32,
    pub scene: u64,
    pub buffer: u64,
    pub unk_2c: u64,
    pub stats: u64,
    pub unk_pointer: u64,
    pub busy_flag: u64,
    pub work_queue: u64,
    pub work_item: u64,
    pub vm_slot: u32,
    pub unk_758_flag: u64,
    /// Distance in bytes back to the matching start operation.
    pub restart_branch_offset: i32,
    pub has_attachments: u32,
}

/// One operation of a microsequence.
#[derive(Clone, Debug)]
pub enum MicroOp {
    StartVertex(StartVertex),
    StartFragment(StartFragment),
    Timestamp(Timestamp),
    WaitForIdle(Pipe),
    FinalizeVertex(FinalizeVertex),
    FinalizeFragment(FinalizeFragment),
    RetireStamp,
}

/// Encoded size in bytes of each kind of operation. The sizes depend on the
/// GPU generation and the firmware version.
#[derive(Clone, Copy, Debug, PartialEq, Eq, Structural)]
pub struct OpSizes {
    pub start_vertex: u32,
    pub start_fragment: u32,
    pub timestamp: u32,
    pub wait_for_idle: u32,
    pub finalize_vertex: u32,
    pub finalize_fragment: u32,
    pub retire_stamp: u32,
}

impl OpSizes {
    /// The encoded size of `op`.
    pub open spec fn spec_size_of(self, op: MicroOp) -> u32 {
        match op {
            MicroOp::StartVertex(_) => self.start_vertex,
            MicroOp::StartFragment(_) => self.start_fragment,
            MicroOp::Timestamp(_) => self.timestamp,
            MicroOp::WaitForIdle(_) => self.wait_for_idle,
            MicroOp::FinalizeVertex(_) => self.finalize_vertex,
            MicroOp::FinalizeFragment(_) => self.finalize_fragment,
            MicroOp::RetireStamp => self.retire_stamp,
        }
    }

    /// Returns the encoded size of `op`.
    pub fn size_of(&self, op: &MicroOp) -> (r: u32)
        ensures
            r == self.spec_size_of(*op),
    {
        match op {
            MicroOp::StartVertex(_) => self.start_vertex,
            MicroOp::StartFragment(_) => self.start_fragment,
            MicroOp::Timestamp(_) => self.timestamp,
            MicroOp::WaitForIdle(_) => self.wait_for_idle,
            MicroOp::FinalizeVertex(_) => self.finalize_vertex,
            MicroOp::FinalizeFragment(_) => self.finalize_fragment,
            MicroOp::RetireStamp => self.retire_stamp,
        }
    }

    /// The encoded size of a list of operations.
    pub open spec fn spec_total(self, ops: Seq<MicroOp>) -> int
        decreases ops.len(),
    {
        if ops.len() == 0 {
            0
        } else {
            self.spec_total(ops.drop_last()) + self.spec_size_of(ops.last())
        }
    }
}

/// A finished microsequence.
#[derive(Clone, Debug)]
pub struct MicroSequence {
    pub ops: Vec<MicroOp>,
    /// Encoded size in bytes.
    pub size: u32,
}

/// Assembles a microsequence.
pub struct Builder {
    ops: Vec<MicroOp>,
    len: u32,
    sizes: OpSizes,
}

impl Builder {
    /// The operations added so far.
    pub closed spec fn spec_ops(&self) -> Seq<MicroOp> {
        self.ops@
    }

    /// The encoded size of the operations added so far.
    pub closed spec fn spec_len(&self) -> u32 {
        self.len
    }

    /// The size table that this builder works with.
    pub closed spec fn spec_sizes(&self) -> OpSizes {
        self.sizes
    }

    /// Whether the tracked size is the size of the operations.
    pub closed spec fn wf(&self) -> bool {
        &&& self.len == self.sizes.spec_total(self.ops@)
        &&& self.len <= MAX_MICROSEQ_SIZE
    }

    /// Creates an empty builder.
    pub fn new(sizes: OpSizes) -> (r: Self)
        ensures
            r.wf(),
            r.spec_ops() == Seq::<MicroOp>::empty(),
            r.spec_len() == 0,
            r.spec_sizes() == sizes,
    {
        Builder { ops: Vec::new(), len: 0, sizes }
    }

    /// Appends an operation and returns its offset in the microsequence.
    ///
    /// Fails with `ENOMEM`, leaving the builder as it was, when the
    /// microsequence would grow beyond `MAX_MICROSEQ_SIZE`.
    pub fn add(&mut self, op: MicroOp) -> (r: Result<i32>)
        requires
            old(self).wf(),
        ensures
            final(self).wf(),
            final(self).spec_sizes() == old(self).spec_sizes(),
            r is Ok <==> old(self).spec_len() + old(self).spec_sizes().spec_size_of(op)
                <= MAX_MICROSEQ_SIZE,
            r matches Ok(off) ==> {
                &&& off == old(self).spec_len()
                &&& final(self).spec_ops() == old(self).spec_ops().push(op)
                &&& final(self).spec_len() == old(self).spec_len() + old(
                    self,
                ).spec_sizes().spec_size_of(op)
            },
            r matches Err(e) ==> e == Error::ENOMEM && *final(self) == *old(self),
    {
        let size: u32 = self.sizes.size_of(&op);
        if size > MAX_MICROSEQ_SIZE - self.len {
            return Err(Error::ENOMEM);
        }
        let off: u32 = self.len;
        proof {
            assert(self.ops@.push(op).drop_last() =~= self.ops@);
        }
        self.ops.push(op);
        self.len = self.len + size;
        Ok(off as i32)
    }

    /// Returns the distance from the end of the microsequence to the
    /// operation at offset `target`. The distance to an earlier operation is
    /// negative.
    pub fn offset_to(&self, target: i32) -> (r: i32)
        requires
            self.wf(),
            0 <= target <= self.spec_len(),
        ensures
            r == target - self.spec_len(),
    {
        target - (self.len as i32)
    }

    /// Finishes the microsequence.
    pub fn build(self) -> (r: MicroSequence)
        requires
            self.wf(),
        ensures
            r.ops@ == self.spec_ops(),
            r.size == self.spec_len(),
            r.size == self.spec_sizes().spec_total(r.ops@),
    {
        MicroSequence { ops: self.ops, size: self.len }
    }
}

} // verus!
