//! Buffer objects.
//!
//! The driver's view of a GPU buffer object: who created it, what it may be
//! mapped into, and the pages that back it.

use crate::error::{Error, Result};
use crate::mmu::UAT_PGSZ;
use crate::util::{align, spec_align};
use vstd::prelude::*;

verus! {

/// Object creation flag: map the object cached (write-back) on the CPU; the
/// default is write-combine.
pub const ASAHI_GEM_WRITEBACK: u32 = 0x1;

/// Object creation flag: the object belongs to one address space and cannot
/// be exported.
pub const ASAHI_GEM_VM_PRIVATE: u32 = 0x2;

/// One contiguous piece of the DMA memory that backs an object.
#[derive(Clone, Copy, Debug, PartialEq, Eq, Structural)]
pub struct SgEntry {
    pub dma_address: u64,
    pub dma_len: u64,
}

/// Whether a piece starts at a page, is made of whole pages and lies in the
/// address space.
pub open spec fn sg_entry_aligned(e: SgEntry) -> bool {
    e.dma_address % UAT_PGSZ == 0 && e.dma_len % UAT_PGSZ == 0 && e.dma_address + e.dma_len
        <= u64::MAX
}

/// Whether every piece is made of whole pages.
pub open spec fn sg_aligned(sgt: Seq<SgEntry>) -> bool {
    forall|i: int| 0 <= i < sgt.len() ==> sg_entry_aligned(#[trigger] sgt[i])
}

/// The addresses of the pages of one piece.
pub open spec fn spec_sg_entry_pages(e: SgEntry) -> Seq<u64> {
    Seq::new((e.dma_len / UAT_PGSZ) as nat, |i: int| (e.dma_address + i * UAT_PGSZ) as u64)
}

/// The addresses of the pages of all pieces, in order.
pub open spec fn spec_sg_pages(sgt: Seq<SgEntry>) -> Seq<u64>
    decreases sgt.len(),
{
    if sgt.len() == 0 {
        Seq::empty()
    } else {
        spec_sg_pages(sgt.drop_last()) + spec_sg_entry_pages(sgt.last())
    }
}

/// Lists the pages of a scatter-gather table.
///
/// Fails with `EINVAL` when a piece is not made of whole pages.
pub fn sg_pages(sgt: &[SgEntry]) -> (r: Result<Vec<u64>>)
    ensures
        r is Ok <==> sg_aligned(sgt@),
        r matches Ok(v) ==> v@ == spec_sg_pages(sgt@),
        r matches Err(e) ==> e == Error::EINVAL,
{
    let mut out: Vec<u64> = Vec::new();
    let mut i: usize = 0;
    while i < sgt.len()
        invariant
            i <= sgt@.len(),
            sg_aligned(sgt@.subrange(0, i as int)),
            out@ == spec_sg_pages(sgt@.subrange(0, i as int)),
        decreases sgt@.len() - i,
    {
        let e = sgt[i];
        if e.dma_address % UAT_PGSZ != 0 || e.dma_len % UAT_PGSZ != 0 || e.dma_len > u64::MAX
            - e.dma_address {
            assert(!sg_entry_aligned(sgt@[i as int]));
            return Err(Error::EINVAL);
        }
        let count: u64 = e.dma_len / UAT_PGSZ;
        let ghost before = out@;
        let mut j: u64 = 0;
        while j < count
            invariant
                j <= count,
                count == e.dma_len / UAT_PGSZ,
                e.dma_address + e.dma_len <= u64::MAX,
                out@ == before + spec_sg_entry_pages(e).subrange(0, j as int),
            decreases count - j,
        {
            out.push(e.dma_address + j * UAT_PGSZ);
            j = j + 1;
            assert(out@ =~= before + spec_sg_entry_pages(e).subrange(0, j as int));
        }
        i = i + 1;
        proof {
            let next = sgt@.subrange(0, i as int);
            assert(next.drop_last() =~= sgt@.subrange(0, i - 1));
            assert(next.last() == e);
            assert(spec_sg_entry_pages(e).subrange(0, count as int) =~= spec_sg_entry_pages(e));
            assert forall|k: int| 0 <= k < next.len() implies sg_entry_aligned(
                #[trigger] next[k],
            ) by {
                if k < i - 1 {
                    assert(next[k] == sgt@.subrange(0, i - 1)[k]);
                }
            }
        }
    }
    assert(sgt@.subrange(0, sgt@.len() as int) =~= sgt@);
    Ok(out)
}

/// A buffer object.
pub struct Object {
    /// Identifier of the object, unique over the driver.
    pub id: u64,
    /// Size in bytes, a multiple of the page size.
    pub size: u64,
    /// Whether this is a kernel-created object.
    pub kernel: bool,
    /// Object creation flags.
    pub flags: u32,
    /// The address space that a private object belongs to.
    pub vm_id: Option<u64>,
    /// Whether the object can be exported to other devices.
    pub exportable: bool,
    /// Whether the CPU maps the object write-combined.
    pub write_combine: bool,
    /// Physical addresses of the pages that back the object.
    pub pages: Vec<u64>,
}

/// Whether the creation flags and the owning address space of a user object
/// go together: an object has an owner exactly if it is private.
pub open spec fn new_object_valid(flags: u32, vm_id: Option<u64>) -> bool {
    (flags & ASAHI_GEM_VM_PRIVATE != 0) == (vm_id is Some)
}

/// Create a new kernel-owned GEM object of at least `size` bytes, backed by
/// `pages`.
///
/// The size is rounded up to whole pages. Kernel objects cannot be
/// exported. Fails with `ENOMEM` when `pages` does not hold one page for
/// each page of the rounded size.
pub fn new_kernel_object(id: u64, size: u64, pages: Vec<u64>) -> (r: Result<Object>)
    requires
        size + UAT_PGSZ - 1 <= u64::MAX,
    ensures
        r is Ok <==> pages@.len() * UAT_PGSZ == spec_align(size as int, UAT_PGSZ as int),
        r matches Ok(o) ==> {
            &&& o.id == id
            &&& o.size == spec_align(size as int, UAT_PGSZ as int)
            &&& o.kernel
            &&& o.flags == 0
            &&& o.vm_id is None
            &&& !o.exportable
            &&& o.write_combine
            &&& o.pages@ == pages@
        },
        r matches Err(e) ==> e == Error::ENOMEM,
{
    proof {
        crate::util::lemma_pow2_constants();
    }
    let aligned: u64 = align(size, UAT_PGSZ);
    if aligned / UAT_PGSZ != pages.len() as u64 {
        return Err(Error::ENOMEM);
    }
    Ok(
        Object {
            id,
            size: aligned,
            kernel: true,
            flags: 0,
            vm_id: None,
            exportable: false,
            write_combine: true,
            pages,
        },
    )
}

/// Create a new user-owned GEM object with the given flags, backed by
/// `pages`.
///
/// A private object is tied to the address space `vm_id` and cannot be
/// exported; any other object can. The object is mapped write-combined
/// unless `ASAHI_GEM_WRITEBACK` asks for a cached mapping.
///
/// Fails with `EINVAL` when the object is private without an owner or has
/// an owner without being private, and with `ENOMEM` when `pages` does not
/// hold one page for each page of the rounded size.
pub fn new_object(id: u64, size: u64, flags: u32, vm_id: Option<u64>, pages: Vec<u64>) -> (r:
    Result<Object>)
    requires
        size + UAT_PGSZ - 1 <= u64::MAX,
    ensures
        r is Ok <==> new_object_valid(flags, vm_id) && pages@.len() * UAT_PGSZ == spec_align(
            size as int,
            UAT_PGSZ as int,
        ),
        r matches Ok(o) ==> {
            &&& o.id == id
            &&& o.size == spec_align(size as int, UAT_PGSZ as int)
            &&& !o.kernel
            &&& o.flags == flags
            &&& o.vm_id == vm_id
            &&& o.exportable == (vm_id is None)
            &&& o.write_combine == (flags & ASAHI_GEM_WRITEBACK == 0)
            &&& o.pages@ == pages@
        },
        r matches Err(e) ==> e == (if !new_object_valid(flags, vm_id) {
            Error::EINVAL
        } else {
            Error::ENOMEM
        }),
{
    if (flags & ASAHI_GEM_VM_PRIVATE != 0) != vm_id.is_some() {
        return Err(Error::EINVAL);
    }
    proof {
        crate::util::lemma_pow2_constants();
    }
    let aligned: u64 = align(size, UAT_PGSZ);
    if aligned / UAT_PGSZ != pages.len() as u64 {
        return Err(Error::ENOMEM);
    }
    Ok(
        Object {
            id,
            size: aligned,
            kernel: false,
            flags,
            vm_id,
            exportable: vm_id.is_none(),
            write_combine: flags & ASAHI_GEM_WRITEBACK == 0,
            pages,
        },
    )
}

} // verus!
