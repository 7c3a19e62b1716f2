//! GPU memory allocator.
//!
//! A sub-allocator that carves a window of a GPU address space into aligned
//! firmware objects. Objects are handed out one behind the other; each is
//! known by the GPU address that it was given.

use crate::error::{Error, Result};
use core::ops::Range;
use vstd::prelude::*;

verus! {

/// What an allocator is made with.
#[derive(Debug)]
pub struct HeapConfig {
    /// Identifier of the address space that the window lies in.
    pub vm_id: u64,
    /// The window.
    pub iova_range: Range<u64>,
    /// Smallest unit that memory is mapped in.
    pub page_size: u64,
    /// Protection that the memory is mapped with.
    pub default_prot: u32,
    /// Coarse granularity in which backing memory is taken.
    pub chunk_bytes: u64,
    /// Whether memory is zeroed when it is handed out.
    pub zeroed: bool,
}

/// A sub-allocator over a window of a GPU address space.
#[derive(Debug)]
pub struct HeapAllocator {
    cfg: HeapConfig,
    next: u64,
}

/// One allocation: where it lies and how large it is.
#[derive(Clone, Copy, Debug, PartialEq, Eq, Structural)]
pub struct GpuAllocation {
    /// GPU address of the allocation.
    pub gpu_ptr: u64,
    /// Size in bytes.
    pub size: u64,
}

/// The lowest multiple of `align` that is not below `addr`.
pub open spec fn spec_round_up(addr: int, align: int) -> int {
    if addr % align == 0 {
        addr
    } else {
        addr + (align - addr % align)
    }
}

/// Where the allocation before which `k` others were placed ends its
/// search: the address behind the `k` first of the allocations of `sizes`,
/// placed one behind the other from `next` on, each at a multiple of
/// `align`.
pub open spec fn spec_run_end(next: int, align: int, sizes: Seq<u64>, k: int) -> int
    decreases k,
{
    if k <= 0 {
        next
    } else {
        spec_round_up(spec_run_end(next, align, sizes, k - 1), align) + sizes[k - 1]
    }
}

/// The address of allocation `k` of such a run.
pub open spec fn spec_run_addr(next: int, align: int, sizes: Seq<u64>, k: int) -> int {
    spec_round_up(spec_run_end(next, align, sizes, k), align)
}

/// Whether the whole run ends at or before `end`.
pub open spec fn spec_run_fits(next: int, align: int, sizes: Seq<u64>, end: int) -> bool {
    forall|k: int| 0 <= k <= sizes.len() ==> #[trigger] spec_run_end(next, align, sizes, k) <= end
}

impl HeapAllocator {
    /// The window of the allocator.
    pub closed spec fn spec_range(&self) -> Range<u64> {
        self.cfg.iova_range
    }

    /// The address behind the last allocation.
    pub closed spec fn spec_next(&self) -> u64 {
        self.next
    }

    /// The page size of the allocator.
    pub closed spec fn spec_page_size(&self) -> u64 {
        self.cfg.page_size
    }

    /// The protection of the allocator's memory.
    pub closed spec fn spec_prot(&self) -> u32 {
        self.cfg.default_prot
    }

    /// Whether the next allocation starts in the window.
    pub open spec fn wf(&self) -> bool {
        &&& self.spec_range().start <= self.spec_next() <= self.spec_range().end
        &&& self.spec_page_size() > 0
    }

    /// Creates an allocator over a window.
    ///
    /// Fails with `EINVAL` when the window is empty, the page size is zero,
    /// or the window does not start and end at a page.
    pub fn new(cfg: HeapConfig) -> (r: Result<Self>)
        ensures
            r is Ok <==> cfg.iova_range.start < cfg.iova_range.end && cfg.page_size > 0
                && cfg.iova_range.start % cfg.page_size == 0 && cfg.iova_range.end % cfg.page_size
                == 0,
            r matches Ok(a) ==> a.wf() && a.spec_range() == cfg.iova_range && a.spec_next()
                == cfg.iova_range.start && a.spec_page_size() == cfg.page_size && a.spec_prot()
                == cfg.default_prot,
            r matches Err(e) ==> e == Error::EINVAL,
    {
        if cfg.iova_range.start >= cfg.iova_range.end || cfg.page_size == 0 {
            return Err(Error::EINVAL);
        }
        if cfg.iova_range.start % cfg.page_size != 0 || cfg.iova_range.end % cfg.page_size != 0 {
            return Err(Error::EINVAL);
        }
        let next = cfg.iova_range.start;
        Ok(HeapAllocator { cfg, next })
    }

    /// Hands out `size` bytes at the lowest free address that is a multiple
    /// of `align`.
    ///
    /// Fails with `EINVAL` when `align` is zero, and with `ENOMEM`, changing
    /// nothing, when the window has no room.
    pub fn allocate(&mut self, size: u64, align: u64) -> (r: Result<GpuAllocation>)
        requires
            old(self).wf(),
        ensures
            final(self).wf(),
            final(self).spec_range() == old(self).spec_range(),
            final(self).spec_page_size() == old(self).spec_page_size(),
            final(self).spec_prot() == old(self).spec_prot(),
            r is Ok <==> align > 0 && spec_round_up(old(self).spec_next() as int, align as int)
                + size <= old(self).spec_range().end,
            r matches Ok(a) ==> {
                &&& a.gpu_ptr == spec_round_up(old(self).spec_next() as int, align as int)
                &&& a.size == size
                &&& a.gpu_ptr % align == 0
                &&& old(self).spec_next() <= a.gpu_ptr
                &&& final(self).spec_next() == a.gpu_ptr + size
            },
            r matches Err(e) ==> final(self).spec_next() == old(self).spec_next() && e == (if align
                == 0 {
                Error::EINVAL
            } else {
                Error::ENOMEM
            }),
    {
        if align == 0 {
            return Err(Error::EINVAL);
        }
        let rem: u64 = self.next % align;
        let pad: u64 = if rem == 0 {
            0
        } else {
            align - rem
        };
        let end: u64 = self.cfg.iova_range.end;
        if pad > end - self.next || size > end - self.next - pad {
            return Err(Error::ENOMEM);
        }
        let ptr: u64 = self.next + pad;
        assert(ptr % align == 0) by (nonlinear_arith)
            requires
                align > 0,
                rem == (ptr - pad) % (align as int),
                pad == (if rem == 0 {
                    0
                } else {
                    align - rem
                }),
        ;
        self.next = ptr + size;
        Ok(GpuAllocation { gpu_ptr: ptr, size })
    }

    /// Returns the address behind the last allocation.
    pub fn mark(&self) -> (r: u64)
        ensures
            r == self.spec_next(),
    {
        self.next
    }

    /// Gives back all that was handed out at and above `mark`.
    pub fn release_to(&mut self, mark: u64)
        requires
            old(self).wf(),
            old(self).spec_range().start <= mark <= old(self).spec_next(),
        ensures
            final(self).wf(),
            final(self).spec_range() == old(self).spec_range(),
            final(self).spec_page_size() == old(self).spec_page_size(),
            final(self).spec_prot() == old(self).spec_prot(),
            final(self).spec_next() == mark,
    {
        self.next = mark;
    }

    /// Hands out one allocation for each of `sizes`, one behind the other,
    /// each at the lowest free address that is a multiple of `align`.
    ///
    /// Fails with `EINVAL` when `align` is zero, and with `ENOMEM` when the
    /// window has no room for all of them; nothing is handed out then.
    pub fn allocate_all(&mut self, sizes: &[u64], align: u64) -> (r: Result<Vec<GpuAllocation>>)
        requires
            old(self).wf(),
        ensures
            final(self).wf(),
            final(self).spec_range() == old(self).spec_range(),
            final(self).spec_page_size() == old(self).spec_page_size(),
            final(self).spec_prot() == old(self).spec_prot(),
            r is Ok <==> align > 0 && spec_run_fits(
                old(self).spec_next() as int,
                align as int,
                sizes@,
                old(self).spec_range().end as int,
            ),
            r matches Ok(v) ==> {
                &&& v@.len() == sizes@.len()
                &&& forall|k: int|
                    0 <= k < sizes@.len() ==> (#[trigger] v@[k]).gpu_ptr == spec_run_addr(
                        old(self).spec_next() as int,
                        align as int,
                        sizes@,
                        k,
                    ) && v@[k].size == sizes@[k]
                &&& final(self).spec_next() == spec_run_end(
                    old(self).spec_next() as int,
                    align as int,
                    sizes@,
                    sizes@.len() as int,
                )
                &&& old(self).spec_next() <= final(self).spec_next()
            },
            r matches Err(e) ==> final(self).spec_next() == old(self).spec_next() && e == (if align
                == 0 {
                Error::EINVAL
            } else {
                Error::ENOMEM
            }),
    {
        if align == 0 {
            return Err(Error::EINVAL);
        }
        let start: u64 = self.next;
        let ghost end = self.cfg.iova_range.end as int;
        let mut out: Vec<GpuAllocation> = Vec::new();
        let mut i: usize = 0;
        while i < sizes.len()
            invariant
                i <= sizes@.len(),
                align > 0,
                self.wf(),
                self.spec_range() == old(self).spec_range(),
                self.spec_page_size() == old(self).spec_page_size(),
                self.spec_prot() == old(self).spec_prot(),
                end == self.cfg.iova_range.end,
                start == old(self).next,
                start <= self.next,
                old(self).wf(),
                out@.len() == i,
                self.next == spec_run_end(start as int, align as int, sizes@, i as int),
                forall|k: int|
                    0 <= k <= i ==> #[trigger] spec_run_end(start as int, align as int, sizes@, k)
                        <= end,
                forall|k: int|
                    0 <= k < i ==> (#[trigger] out@[k]).gpu_ptr == spec_run_addr(
                        start as int,
                        align as int,
                        sizes@,
                        k,
                    ) && out@[k].size == sizes@[k],
            decreases sizes@.len() - i,
        {
            match self.allocate(sizes[i], align) {
                Ok(a) => {
                    out.push(a);
                },
                Err(_) => {
                    assert(spec_run_end(start as int, align as int, sizes@, i + 1) > end);
                    self.next = start;
                    return Err(Error::ENOMEM);
                },
            }
            i = i + 1;
        }
        Ok(out)
    }
}

} // verus!
