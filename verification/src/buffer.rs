//! Tile vertex buffer (TVB) management.
//!
//! The vertex stage writes binned geometry into a buffer made of fixed-size
//! blocks. The buffer grows when a frame needs more blocks than it has, and
//! after the firmware reported that a frame overflowed it.

use crate::error::{Error, Result};
use vstd::prelude::*;

verus! {

/// Page size used by the firmware's buffer manager.
pub const PAGE_SIZE: u64 = 0x8000;

/// Size of one TVB block in bytes.
pub const BLOCK_SIZE: u64 = 0x20000;

/// Largest number of blocks of one buffer.
pub const MAX_BLOCKS: u32 = 0x1000;

/// The GPU pointers of one scene and of the buffer it renders with.
#[derive(Clone, Copy, Debug, PartialEq, Eq, Structural)]
pub struct Scene {
    /// Buffer manager slot of the scene's buffer.
    pub slot: u32,
    /// Whether the buffer has to be bound to its slot again before use.
    pub rebind: bool,
    pub gpu_pointer: u64,
    pub weak_pointer: u64,
    pub buffer_pointer: u64,
    pub weak_buffer_pointer: u64,
    pub kernel_buffer_pointer: u64,
    pub tvb_tilemap_pointer: u64,
    pub tvb_heapmeta_pointer: u64,
    pub cluster_tilemaps_pointer: Option<u64>,
    pub tpc_pointer: u64,
    pub meta_1_pointer: Option<u64>,
    pub meta_2_pointer: Option<u64>,
    pub meta_3_pointer: Option<u64>,
    pub meta_4_pointer: Option<u64>,
    pub preempt_buf_1_pointer: u64,
    pub preempt_buf_2_pointer: u64,
    pub preempt_buf_3_pointer: u64,
    pub seq_buf_pointer: u64,
}

/// The block accounting of one tile vertex buffer.
#[derive(Clone, Copy, Debug, PartialEq, Eq, Structural)]
pub struct Buffer {
    block_count: u32,
    grow_request: Option<u32>,
    frames: u64,
}

impl Buffer {
    /// Number of blocks that the buffer has.
    pub closed spec fn spec_block_count(&self) -> u32 {
        self.block_count
    }

    /// The block count that the firmware asked for after an overflow, if it
    /// has not been served yet.
    pub closed spec fn spec_grow_request(&self) -> Option<u32> {
        self.grow_request
    }

    /// Number of frames submitted with this buffer.
    pub closed spec fn spec_frames(&self) -> u64 {
        self.frames
    }

    /// Whether the block count is within the limit.
    pub closed spec fn wf(&self) -> bool {
        self.block_count <= MAX_BLOCKS
    }

    /// Creates a buffer with `block_count` blocks.
    pub fn new(block_count: u32) -> (r: Result<Self>)
        ensures
            r is Ok <==> block_count <= MAX_BLOCKS,
            r matches Ok(b) ==> b.wf() && b.spec_block_count() == block_count
                && b.spec_grow_request() is None && b.spec_frames() == 0,
            r matches Err(e) ==> e == Error::ENOMEM,
    {
        if block_count > MAX_BLOCKS {
            return Err(Error::ENOMEM);
        }
        Ok(Buffer { block_count, grow_request: None, frames: 0 })
    }

    /// Returns the number of blocks.
    pub fn block_count(&self) -> (r: u32)
        ensures
            r == self.spec_block_count(),
    {
        self.block_count
    }

    /// Returns the size of the buffer in bytes.
    pub fn size(&self) -> (r: u64)
        requires
            self.wf(),
        ensures
            r == self.spec_block_count() * BLOCK_SIZE,
    {
        (self.block_count as u64) * BLOCK_SIZE
    }

    /// Records that a frame overflowed the buffer and that `wanted` blocks
    /// would have been enough.
    pub fn request_grow(&mut self, wanted: u32)
        ensures
            final(self).spec_grow_request() == Some(wanted),
            final(self).spec_block_count() == old(self).spec_block_count(),
            final(self).spec_frames() == old(self).spec_frames(),
            old(self).wf() ==> final(self).wf(),
    {
        self.grow_request = Some(wanted);
    }

    /// The block count after serving a pending grow request.
    pub open spec fn spec_auto_grown(count: u32, request: Option<u32>) -> u32 {
        match request {
            Some(wanted) if wanted > count => if wanted > MAX_BLOCKS {
                MAX_BLOCKS
            } else {
                wanted
            },
            _ => count,
        }
    }

    /// Grows the buffer if an earlier frame overflowed it. Returns whether the
    /// buffer grew.
    pub fn auto_grow(&mut self) -> (r: bool)
        requires
            old(self).wf(),
        ensures
            final(self).wf(),
            final(self).spec_block_count() == Self::spec_auto_grown(
                old(self).spec_block_count(),
                old(self).spec_grow_request(),
            ),
            final(self).spec_grow_request() is None,
            final(self).spec_frames() == old(self).spec_frames(),
            r == (final(self).spec_block_count() > old(self).spec_block_count()),
    {
        let request = self.grow_request;
        self.grow_request = None;
        match request {
            Some(wanted) => {
                if wanted > self.block_count {
                    let target: u32 = if wanted > MAX_BLOCKS {
                        MAX_BLOCKS
                    } else {
                        wanted
                    };
                    let grew = target > self.block_count;
                    self.block_count = target;
                    grew
                } else {
                    false
                }
            },
            None => false,
        }
    }

    /// Makes sure that the buffer has at least `min_blocks` blocks. Returns
    /// whether the buffer grew.
    ///
    /// Fails with `ENOMEM`, leaving the buffer as it was, when `min_blocks`
    /// is above `MAX_BLOCKS`.
    pub fn ensure_blocks(&mut self, min_blocks: u32) -> (r: Result<bool>)
        requires
            old(self).wf(),
        ensures
            final(self).wf(),
            r is Ok <==> min_blocks <= MAX_BLOCKS,
            r matches Ok(grew) ==> {
                &&& grew == (old(self).spec_block_count() < min_blocks)
                &&& final(self).spec_block_count() == (if grew {
                    min_blocks
                } else {
                    old(self).spec_block_count()
                })
                &&& final(self).spec_grow_request() == old(self).spec_grow_request()
                &&& final(self).spec_frames() == old(self).spec_frames()
            },
            r matches Err(e) ==> e == Error::ENOMEM && *final(self) == *old(self),
    {
        if min_blocks > MAX_BLOCKS {
            return Err(Error::ENOMEM);
        }
        if self.block_count < min_blocks {
            self.block_count = min_blocks;
            Ok(true)
        } else {
            Ok(false)
        }
    }

    /// The buffer after a frame that needs `min_blocks` blocks was
    /// submitted: a pending grow request has been served, the buffer has
    /// room for the frame, and the frame is counted.
    pub closed spec fn spec_after_frame(self, min_blocks: u32) -> Buffer {
        let grown = Self::spec_auto_grown(self.block_count, self.grow_request);
        Buffer {
            block_count: if grown < min_blocks {
                min_blocks
            } else {
                grown
            },
            grow_request: None,
            frames: if self.frames == u64::MAX {
                0
            } else {
                (self.frames + 1) as u64
            },
        }
    }

    /// What `spec_after_frame` says of the parts of the buffer.
    pub proof fn lemma_after_frame(self, min_blocks: u32)
        ensures
            self.spec_after_frame(min_blocks).spec_block_count() == (if Self::spec_auto_grown(
                self.spec_block_count(),
                self.spec_grow_request(),
            ) < min_blocks {
                min_blocks
            } else {
                Self::spec_auto_grown(self.spec_block_count(), self.spec_grow_request())
            }),
            self.spec_after_frame(min_blocks).spec_grow_request() is None,
            self.spec_after_frame(min_blocks).spec_frames() == (if self.spec_frames() == u64::MAX {
                0
            } else {
                (self.spec_frames() + 1) as u64
            }),
    {
    }

    /// A buffer is the same as another if its parts are.
    pub proof fn lemma_same(self, other: Buffer)
        requires
            self.spec_block_count() == other.spec_block_count(),
            self.spec_grow_request() == other.spec_grow_request(),
            self.spec_frames() == other.spec_frames(),
        ensures
            self == other,
    {
    }

    /// Counts one more frame submitted with this buffer.
    pub fn increment(&mut self)
        ensures
            final(self).spec_block_count() == old(self).spec_block_count(),
            final(self).spec_grow_request() == old(self).spec_grow_request(),
            final(self).spec_frames() == (if old(self).spec_frames() == u64::MAX {
                0
            } else {
                (old(self).spec_frames() + 1) as u64
            }),
            old(self).wf() ==> final(self).wf(),
    {
        self.frames = if self.frames == u64::MAX {
            0
        } else {
            self.frames + 1
        };
    }
}

} // verus!
