//! One GPU address space.

use crate::error::{Error, Result};
use crate::mmu::pgtable::{
    in_pages, lemma_holes_same, lemma_holes_skip_run, lemma_run_bound, map_request_valid,
    pages_free, spec_chunk, spec_holes, spec_map, spec_run, spec_unmap, unmap_request_valid,
    Config, PageTable, Pte,
};
use crate::mmu::{
    iova_kern_range, iova_user_range, iova_user_usable_range, spec_iova_kern_range,
    spec_iova_user_range, spec_iova_user_usable_range, HwOp, Warning, UAT_IAS, UAT_IAS_KERN,
    UAT_PGSZ,
};
use crate::slotalloc::{Guard, SlotToken};
use core::ops::Range;
use vstd::prelude::*;

verus! {

/// Slot binding state of an address space.
#[derive(Clone, Copy, Debug, PartialEq, Eq, Structural)]
pub struct VmBinding {
    /// Number of users of the current binding.
    pub active_users: usize,
    /// The slot that the address space is bound to, while it has users.
    pub binding: Option<Guard>,
    /// The token of the slot that the address space was last bound to.
    pub bind_token: Option<SlotToken>,
    /// Translation table base of the address space.
    pub ttb: u64,
}

impl VmBinding {
    /// An address space is bound exactly while it has users, and its token
    /// is that of its slot.
    pub open spec fn wf(&self) -> bool {
        &&& (self.active_users > 0) == (self.binding is Some)
        &&& self.binding matches Some(g) ==> self.bind_token == Some(g.token) && g.token.slot
            == g.slot
        &&& self.bind_token matches Some(t) ==> t.slot < crate::mmu::UAT_USER_CTX
    }
}

/// A flush of the coprocessor's caches that the firmware has to be asked
/// for, through a flush record of the handoff region.
#[derive(Clone, Copy, Debug, PartialEq, Eq, Structural)]
pub struct FlushRequest {
    /// The flush record to use and the context to name to the firmware.
    pub slot: u32,
    /// First address to flush.
    pub iova: u64,
    /// Number of bytes to flush.
    pub size: u64,
    /// Number of pages to name to the firmware.
    pub page_count: u16,
}

/// An address range reserved for a kernel mapping.
#[derive(Clone, Copy, Debug, PartialEq, Eq, Structural)]
pub struct Node {
    /// First address of the range.
    pub start: u64,
    /// Size of the range in bytes, a guard page included.
    pub size: u64,
    /// Size of what is mapped in the range.
    pub mapped_size: u64,
    /// Protection of the mapping.
    pub prot: u32,
    /// Identifier of the buffer object that is mapped, if one is.
    pub bo: Option<u64>,
}

/// A range of a buffer object bound into an address space by userspace.
#[derive(Clone, Copy, Debug, PartialEq, Eq, Structural)]
pub struct GpuVa {
    /// First address of the range.
    pub addr: u64,
    /// Size of the range in bytes.
    pub range: u64,
    /// Identifier of the buffer object.
    pub bo: u64,
    /// Offset into the buffer object of the first byte of the range.
    pub offset: u64,
    /// Protection of the mapping.
    pub prot: u32,
}

/// An object mapping into an address space, which reserves the address
/// range from use by other mappings.
#[derive(Clone, Copy, Debug, PartialEq, Eq, Structural)]
pub struct KernelMapping {
    /// The reserved range.
    pub node: Node,
    /// Identifier of the address space.
    pub vm_id: u64,
}

impl KernelMapping {
    /// Returns the IOVA base of this mapping.
    pub fn iova(&self) -> (r: u64)
        ensures
            r == self.node.start,
    {
        self.node.start
    }

    /// Returns the size of this mapping in bytes.
    pub fn size(&self) -> (r: u64)
        ensures
            r == self.node.mapped_size,
    {
        self.node.mapped_size
    }
}

/// Whether the `size` bytes from `start` on have an address in common with
/// the range of `node`.
pub open spec fn node_overlaps(node: Node, start: u64, size: int) -> bool {
    start < node.start + node.size && node.start < start + size
}

/// Whether none of the reserved ranges has an address in the `size` bytes
/// from `start` on.
pub open spec fn nodes_free(nodes: Seq<Node>, start: u64, size: int) -> bool {
    forall|i: int| 0 <= i < nodes.len() ==> !node_overlaps(#[trigger] nodes[i], start, size)
}

/// Whether the reserved ranges are not empty, lie in `va` and do not
/// overlap.
#[verifier::opaque]
pub open spec fn nodes_wf(nodes: Seq<Node>, va: Range<u64>) -> bool {
    &&& forall|i: int|
        0 <= i < nodes.len() ==> (#[trigger] nodes[i]).size > 0 && va.start <= nodes[i].start
            && nodes[i].start + nodes[i].size <= va.end
    &&& forall|i: int, j: int|
        0 <= i < nodes.len() && 0 <= j < nodes.len() && i != j ==> !node_overlaps(
            #[trigger] nodes[i],
            (#[trigger] nodes[j]).start,
            nodes[j].size as int,
        )
}

/// Whether the `range` bytes at `addr` are a range that buffer objects may
/// be bound in: it lies in `gpuvm`, where bindings go, and has no address
/// in common with `kernel`, the part set aside for the kernel.
pub open spec fn gpuvm_range_valid(gpuvm: Range<u64>, kernel: Range<u64>, addr: u64, range: int)
    -> bool {
    &&& 0 <= range
    &&& addr + range <= u64::MAX
    &&& gpuvm.start <= addr
    &&& addr + range <= gpuvm.end
    &&& !(kernel.start < kernel.end && addr < kernel.end && kernel.start < addr + range)
}

/// Whether a bound range is made of whole pages and is where bindings may
/// be.
pub open spec fn va_wf(va: GpuVa, gpuvm: Range<u64>, kernel: Range<u64>) -> bool {
    &&& va.range > 0
    &&& va.addr % UAT_PGSZ == 0
    &&& va.range % UAT_PGSZ == 0
    &&& va.offset % UAT_PGSZ == 0
    &&& gpuvm_range_valid(gpuvm, kernel, va.addr, va.range as int)
}

/// Whether every bound range is well-formed, for an address space that
/// takes bindings: the kernel's address space has none.
#[verifier::opaque]
pub open spec fn vas_wf(vas: Seq<GpuVa>, is_kernel: bool, gpuvm: Range<u64>, kernel: Range<u64>)
    -> bool {
    &&& is_kernel ==> vas.len() == 0 && gpuvm == kernel
    &&& !is_kernel ==> gpuvm == spec_iova_user_usable_range()
    &&& forall|i: int| 0 <= i < vas.len() ==> va_wf(#[trigger] vas[i], gpuvm, kernel)
}

/// Every range bound in a user address space lies in the address space,
/// has no address in common with the part set aside for the kernel, and
/// stays clear of the unknown dummy page below the top of the user range.
pub proof fn lemma_bound_ranges(vm: &Vm, i: int)
    requires
        vm.wf(),
        0 <= i < vm.vas@.len(),
    ensures
        !vm.is_kernel,
        vm.va_range.start <= vm.vas@[i].addr,
        vm.vas@[i].addr + vm.vas@[i].range <= vm.va_range.end,
        vm.vas@[i].addr + vm.vas@[i].range <= crate::mmu::IOVA_UNK_PAGE,
        !(vm.kernel_range.start < vm.kernel_range.end && vm.vas@[i].addr < vm.kernel_range.end
            && vm.kernel_range.start < vm.vas@[i].addr + vm.vas@[i].range),
{
    reveal(vas_wf);
    assert(va_wf(vm.vas@[i], vm.gpuvm_range, vm.kernel_range));
}

/// Every range reserved for a kernel mapping is not empty and lies in the
/// address space, and no two of them have an address in common.
pub proof fn lemma_reserved_ranges(vm: &Vm, i: int, j: int)
    requires
        vm.wf(),
        0 <= i < vm.nodes@.len(),
        0 <= j < vm.nodes@.len(),
    ensures
        vm.nodes@[i].size > 0,
        vm.va_range.start <= vm.nodes@[i].start,
        vm.nodes@[i].start + vm.nodes@[i].size <= vm.va_range.end,
        i != j ==> !node_overlaps(vm.nodes@[i], vm.nodes@[j].start, vm.nodes@[j].size as int),
{
    reveal(nodes_wf);
}

/// Whether a range can be reserved: it is not empty, lies in `va` and is
/// free.
pub open spec fn node_fits(nodes: Seq<Node>, va: Range<u64>, start: u64, size: int) -> bool {
    size > 0 && va.start <= start && start + size <= va.end && nodes_free(nodes, start, size)
}

/// Whether the `size` bytes at `a` are a place for a reservation that is
/// to lie in `range`: they can be reserved, see `node_fits`, lie in `range`,
/// and `a` is a multiple of `alignment` if that is not zero.
pub open spec fn place_ok(
    nodes: Seq<Node>,
    va: Range<u64>,
    range: Range<u64>,
    alignment: u64,
    a: u64,
    size: int,
) -> bool {
    &&& node_fits(nodes, va, a, size)
    &&& range.start <= a
    &&& a + size <= range.end
    &&& alignment != 0 ==> a % alignment == 0
}

/// Whether `a` is the lowest place for such a reservation.
pub open spec fn is_first_fit(
    nodes: Seq<Node>,
    va: Range<u64>,
    range: Range<u64>,
    alignment: u64,
    a: u64,
    size: int,
) -> bool {
    &&& place_ok(nodes, va, range, alignment, a, size)
    &&& forall|b: u64| b < a ==> !#[trigger] place_ok(nodes, va, range, alignment, b, size)
}

/// Whether there is no place for such a reservation.
pub open spec fn no_place(
    nodes: Seq<Node>,
    va: Range<u64>,
    range: Range<u64>,
    alignment: u64,
    size: int,
) -> bool {
    forall|b: u64| !#[trigger] place_ok(nodes, va, range, alignment, b, size)
}

/// No address between a number that is not a multiple of `alignment` and
/// the next multiple is a multiple.
proof fn lemma_between_multiples(cand: u64, alignment: u64, b: u64)
    requires
        alignment > 0,
        cand % alignment != 0,
        cand <= b < cand + (alignment - cand % alignment),
    ensures
        b % alignment != 0,
{
    let q = cand as int / alignment as int;
    let r0 = cand as int % alignment as int;
    vstd::arithmetic::div_mod::lemma_fundamental_div_mod(cand as int, alignment as int);
    let d = b - cand;
    assert(b == q * alignment + (r0 + d)) by (nonlinear_arith)
        requires
            cand == alignment * q + r0,
            d == b - cand,
    ;
    vstd::arithmetic::div_mod::lemma_fundamental_div_mod_converse(
        b as int,
        alignment as int,
        q,
        r0 + d,
    );
}

/// Whether the `size` bytes at `iova` lie inside the non-empty range `va`.
pub open spec fn spec_iova_in_range(va: Range<u64>, iova: u64, size: int) -> bool {
    va.start < va.end && (size <= 0 || (va.start <= iova && iova + size <= va.end))
}

/// One GPU address space: its page table and what is mapped into it.
pub struct Vm {
    /// Identifier of the address space.
    pub id: u64,
    /// Whether this is the kernel's address space in the upper half.
    pub is_kernel: bool,
    /// The addresses that the page table translates.
    pub va_range: Range<u64>,
    /// The addresses where buffer objects may be bound.
    pub gpuvm_range: Range<u64>,
    /// The part set aside for the kernel's own mappings.
    pub kernel_range: Range<u64>,
    /// The page table.
    pub page_table: PageTable,
    /// The address ranges reserved for kernel mappings.
    pub nodes: Vec<Node>,
    /// The buffer object ranges bound by userspace.
    pub vas: Vec<GpuVa>,
    /// Slot binding state.
    pub binding: VmBinding,
}

impl Vm {
    /// The address that the page table knows `iova` by: the walker of the
    /// kernel's address space counts from the start of the range.
    pub open spec fn spec_map_iova(&self, iova: u64) -> u64 {
        if self.is_kernel {
            (iova - self.va_range.start) as u64
        } else {
            iova
        }
    }

    /// The context number that the address space is, or was last, bound to,
    /// if any. The kernel's address space always answers 0.
    pub open spec fn spec_slot(&self) -> Option<u32> {
        if self.is_kernel {
            Some(0u32)
        } else {
            match self.binding.bind_token {
                Some(t) => Some((t.slot + crate::mmu::UAT_USER_CTX_START) as u32),
                None => None,
            }
        }
    }

    /// Whether everything but the slot binding is the same in both.
    pub open spec fn same_but_binding(&self, other: &Vm) -> bool {
        &&& self.id == other.id
        &&& self.is_kernel == other.is_kernel
        &&& self.va_range == other.va_range
        &&& self.gpuvm_range == other.gpuvm_range
        &&& self.kernel_range == other.kernel_range
        &&& self.binding.ttb == other.binding.ttb
        &&& self.page_table == other.page_table
        &&& self.nodes@ == other.nodes@
        &&& self.vas@ == other.vas@
    }

    /// Whether everything but what is mapped is the same in both.
    pub open spec fn same_config(&self, other: &Vm) -> bool {
        &&& self.id == other.id
        &&& self.is_kernel == other.is_kernel
        &&& self.va_range == other.va_range
        &&& self.gpuvm_range == other.gpuvm_range
        &&& self.kernel_range == other.kernel_range
        &&& self.binding == other.binding
        &&& self.page_table.spec_cfg() == other.page_table.spec_cfg()
        &&& self.page_table.spec_ttbr() == other.page_table.spec_ttbr()
    }

    /// Whether the parts of the address space fit together.
    pub open spec fn wf(&self) -> bool {
        &&& self.table_wf()
        &&& self.binding.wf()
        &&& nodes_wf(self.nodes@, self.va_range)
        &&& vas_wf(self.vas@, self.is_kernel, self.gpuvm_range, self.kernel_range)
        &&& self.binding.ttb == self.page_table.spec_ttbr()
        &&& self.binding.ttb <= crate::mmu::uat::MAX_TTB
    }

    /// Whether the page table fits the addresses of the address space.
    pub open spec fn table_wf(&self) -> bool {
        &&& self.page_table.wf()
        &&& self.va_range == (if self.is_kernel {
            spec_iova_kern_range()
        } else {
            spec_iova_user_range()
        })
        &&& self.page_table.spec_cfg().ias == (if self.is_kernel {
            UAT_IAS_KERN
        } else {
            UAT_IAS
        })
    }

    /// Creates a new virtual memory address space whose page table root
    /// lies at the physical address `ttbr` and translates to `oas` output
    /// address bits.
    ///
    /// Fails with `EINVAL` when the page table does not support `oas`
    /// address bits or `ttbr` is above `MAX_TTB`.
    pub fn new(kernel_range: Range<u64>, oas: usize, is_kernel: bool, id: u64, ttbr: u64) -> (r:
        Result<Vm>)
        ensures
            r is Ok <==> oas <= crate::mmu::pgtable::MAX_ADDRESS_BITS && ttbr
                <= crate::mmu::uat::MAX_TTB,
            r matches Ok(vm) ==> {
                &&& vm.wf()
                &&& vm.id == id
                &&& vm.is_kernel == is_kernel
                &&& vm.kernel_range == kernel_range
                &&& vm.gpuvm_range == (if is_kernel {
                    kernel_range
                } else {
                    spec_iova_user_usable_range()
                })
                &&& vm.page_table@ == Map::<u64, Pte>::empty()
                &&& vm.nodes@ == Seq::<Node>::empty()
                &&& vm.vas@ == Seq::<GpuVa>::empty()
                &&& vm.page_table.spec_cfg().oas == oas
                &&& vm.binding == (VmBinding {
                    active_users: 0,
                    binding: None,
                    bind_token: None,
                    ttb: ttbr,
                })
            },
            r matches Err(e) ==> e == Error::EINVAL,
    {
        if ttbr > crate::mmu::uat::MAX_TTB {
            return Err(Error::EINVAL);
        }
        let page_table = match PageTable::new(
            Config {
                pgsize_bitmap: UAT_PGSZ,
                ias: if is_kernel {
                    UAT_IAS_KERN
                } else {
                    UAT_IAS
                },
                oas,
                coherent_walk: true,
                quirks: 0,
            },
            ttbr,
        ) {
            Ok(t) => t,
            Err(e) => {
                return Err(e);
            },
        };
        let (va_range, gpuvm_range) = if is_kernel {
            (iova_kern_range(), Range { start: kernel_range.start, end: kernel_range.end })
        } else {
            (iova_user_range(), iova_user_usable_range())
        };
        proof {
            reveal(nodes_wf);
            reveal(vas_wf);
        }
        Ok(
            Vm {
                id,
                is_kernel,
                va_range,
                gpuvm_range,
                kernel_range,
                page_table,
                nodes: Vec::new(),
                vas: Vec::new(),
                binding: VmBinding { active_users: 0, binding: None, bind_token: None, ttb: ttbr },
            },
        )
    }

    /// Returns the translation table base for this address space.
    pub fn ttb(&self) -> (r: u64)
        ensures
            r == self.binding.ttb,
    {
        self.binding.ttb
    }

    /// Returns the context number that the address space is, or was last,
    /// bound to, if any. The kernel's address space always answers 0.
    pub fn slot(&self) -> (r: Option<u32>)
        requires
            self.binding.wf(),
        ensures
            r == self.spec_slot(),
            r matches Some(s) ==> s < crate::mmu::UAT_NUM_CTX,
    {
        if self.is_kernel {
            // The coprocessor does not care about the context number of the
            // kernel's address space.
            Some(0)
        } else {
            match self.binding.bind_token {
                Some(token) => Some(token.last_slot() + crate::mmu::UAT_USER_CTX_START as u32),
                None => None,
            }
        }
    }

    /// Maps an IOVA to the shifted address the underlying page table uses.
    ///
    /// Fails with `EINVAL` when the `size` bytes at `iova` do not lie in
    /// the range of the address space.
    pub fn map_iova(&self, iova: u64, size: u64) -> (r: Result<u64>)
        ensures
            r is Ok <==> spec_iova_in_range(self.va_range, iova, size as int),
            r matches Ok(a) ==> a == (if self.is_kernel {
                iova.wrapping_sub(self.va_range.start)
            } else {
                iova
            }),
            r matches Ok(a) ==> size > 0 ==> a == self.spec_map_iova(iova),
            r matches Err(e) ==> e == Error::EINVAL,
    {
        let inside = match iova.checked_add(size) {
            Some(end) => self.va_range.start < self.va_range.end && (iova >= end || (iova
                >= self.va_range.start && end <= self.va_range.end)),
            None => false,
        };
        if !inside {
            Err(Error::EINVAL)
        } else if self.is_kernel {
            // A range that holds nothing may lie anywhere: its address does
            // not matter, and the difference wraps around.
            Ok(iova.wrapping_sub(self.va_range.start))
        } else {
            Ok(iova)
        }
    }

    /// Whether `pgcount` pages of `pgsize` bytes can be mapped at `iova`:
    /// they lie in the address space, the page table accepts the request,
    /// and none of them is mapped. There is nothing to ask of no pages.
    pub open spec fn spec_can_map(&self, iova: u64, paddr: u64, pgsize: u64, pgcount: u64, prot: u32)
        -> bool {
        pgcount == 0 || {
            &&& spec_iova_in_range(self.va_range, iova, pgsize * pgcount)
            &&& map_request_valid(
                self.page_table.spec_cfg(),
                self.spec_map_iova(iova),
                paddr,
                pgsize,
                pgcount,
                prot,
            )
            &&& pages_free(self.page_table@, self.spec_map_iova(iova), pgcount as int)
        }
    }

    /// Whether everything but the page table is the same in both.
    pub open spec fn same_but_table(&self, other: &Vm) -> bool {
        &&& self.same_config(other)
        &&& self.nodes@ == other.nodes@
        &&& self.vas@ == other.vas@
    }

    /// Map a contiguous range of virtual->physical pages. Returns the
    /// number of bytes mapped.
    ///
    /// Fails with `EINVAL` when the pages do not lie in the address space
    /// or the page table does not accept the request, and with `EEXIST`
    /// when it comes to a page that is mapped already; the pages before
    /// that one are mapped then.
    pub fn map_pages(&mut self, iova: u64, paddr: u64, pgsize: u64, pgcount: u64, prot: u32)
        -> (r: Result<u64>)
        requires
            old(self).wf(),
        ensures
            final(self).wf(),
            final(self).same_but_table(old(self)),
            r is Ok <==> old(self).spec_can_map(iova, paddr, pgsize, pgcount, prot),
            r matches Ok(n) ==> n == pgcount * pgsize && final(self).page_table@ == spec_map(
                old(self).page_table@,
                old(self).spec_map_iova(iova),
                paddr,
                pgcount as int,
                prot,
            ),
            r matches Err(e) ==> (e == Error::EINVAL || e == Error::EEXIST) && exists|done: int|
                0 <= done < pgcount && final(self).page_table@ == #[trigger] spec_map(
                    old(self).page_table@,
                    old(self).spec_map_iova(iova),
                    paddr,
                    done,
                    prot,
                ),
            pgcount > 0 && !spec_iova_in_range(old(self).va_range, iova, pgsize * pgcount) ==> r
                == Err::<u64, Error>(Error::EINVAL) && final(self).page_table@ == old(
                self,
            ).page_table@,
    {
        let ghost table0 = self.page_table@;
        let ghost miova0 = self.spec_map_iova(iova);
        proof {
            vstd::arithmetic::power2::lemma2_to64_rest();
            if self.page_table.spec_cfg().oas < 48 {
                vstd::arithmetic::power2::lemma_pow2_strictly_increases(
                    self.page_table.spec_cfg().oas as nat,
                    48,
                );
            }
            assert(table0 =~= spec_map(table0, miova0, paddr, 0, prot));
        }
        if pgcount == 0 {
            return Ok(0);
        }
        if pgsize != UAT_PGSZ || pgcount > (u64::MAX - paddr) / UAT_PGSZ {
            return Err(Error::EINVAL);
        }
        let mut cur: u64 = iova;
        let mut pcur: u64 = paddr;
        let mut left: u64 = pgcount;
        while left > 0
            invariant
                self.wf(),
                self.same_but_table(old(self)),
                pgsize == UAT_PGSZ,
                0 <= left <= pgcount,
                paddr + pgcount * UAT_PGSZ <= u64::MAX,
                table0 == old(self).page_table@,
                miova0 == old(self).spec_map_iova(iova),
                pcur == paddr + (pgcount - left) * UAT_PGSZ,
                cur == iova + (pgcount - left) * UAT_PGSZ,
                self.page_table@ == spec_map(table0, miova0, paddr, pgcount - left, prot),
                pages_free(table0, miova0, pgcount - left),
                left < pgcount ==> spec_iova_in_range(self.va_range, iova, pgsize * pgcount)
                    && map_request_valid(
                    self.page_table.spec_cfg(),
                    miova0,
                    paddr,
                    pgsize,
                    pgcount,
                    prot,
                ),
            decreases left,
        {
            let ghost done = pgcount - left;
            let mapped_iova = match self.map_iova(cur, pgsize * left) {
                Ok(a) => a,
                Err(e) => {
                    return Err(e);
                },
            };
            assert(mapped_iova == miova0 + done * UAT_PGSZ);
            let ghost before = self.page_table@;
            let ghost chunk = spec_chunk(mapped_iova, left as int);
            proof {
                if old(self).spec_can_map(iova, paddr, pgsize, pgcount, prot) {
                    assert forall|k: u64| in_pages(k, mapped_iova, chunk) implies !(
                    #[trigger] before.contains_key(k)) by {
                        assert(in_pages(k, miova0, pgcount as int));
                        assert(!table0.contains_key(k));
                    }
                }
            }
            let mapped = match self.page_table.map_pages(mapped_iova, pcur, pgsize, left, prot) {
                Ok(m) => m,
                Err(e) => {
                    return Err(e);
                },
            };
            proof {
                assert(mapped == chunk * UAT_PGSZ);
                assert(spec_map(before, mapped_iova, pcur, chunk, prot) =~= spec_map(
                    table0,
                    miova0,
                    paddr,
                    done + chunk,
                    prot,
                ));
                assert forall|k: u64| in_pages(k, miova0, done + chunk) implies !(
                #[trigger] table0.contains_key(k)) by {
                    if !in_pages(k, miova0, done) {
                        assert(in_pages(k, mapped_iova, chunk));
                        assert(!before.contains_key(k));
                    }
                }
            }
            left = left - mapped / pgsize;
            pcur = pcur + mapped;
            cur = cur + mapped;
        }
        Ok(pgcount * pgsize)
    }

    /// Whether `pgcount` pages of `pgsize` bytes at `iova` can be asked to
    /// be unmapped: they lie in the address space. There is nothing to ask
    /// of no pages.
    pub open spec fn spec_can_unmap(&self, iova: u64, pgsize: u64, pgcount: u64) -> bool {
        pgcount == 0 || (pgsize == UAT_PGSZ && spec_iova_in_range(
            self.va_range,
            iova,
            pgsize * pgcount,
        ))
    }

    /// The number of pages that `unmap_pages` passes over because nothing is
    /// mapped there: the pages of the range that are not mapped. Of a range
    /// that does not start at a page that is every page.
    pub open spec fn spec_unmap_holes(&self, iova: u64, pgcount: u64) -> nat {
        if iova % UAT_PGSZ == 0 {
            spec_holes(self.page_table@, self.spec_map_iova(iova), pgcount as int) as nat
        } else {
            pgcount as nat
        }
    }

    /// Unmap a contiguous range of pages. Returns the number of bytes of
    /// the range.
    ///
    /// Pages of the range that are not mapped are passed over, each with a
    /// warning in `hw`. A range that does not start at a page has no pages
    /// to unmap.
    ///
    /// Fails with `EINVAL`, changing nothing, when the range does not lie in
    /// the address space.
    pub fn unmap_pages(&mut self, iova: u64, pgsize: u64, pgcount: u64, hw: &mut Vec<HwOp>) -> (r:
        Result<u64>)
        requires
            old(self).wf(),
        ensures
            final(self).wf(),
            final(self).same_but_table(old(self)),
            r is Ok <==> old(self).spec_can_unmap(iova, pgsize, pgcount),
            r matches Ok(n) ==> n == pgcount * pgsize && final(self).page_table@ == (if iova
                % UAT_PGSZ == 0 {
                spec_unmap(old(self).page_table@, old(self).spec_map_iova(iova), pgcount as int)
            } else {
                old(self).page_table@
            }),
            r matches Err(e) ==> e == Error::EINVAL && final(self).page_table@ == old(
                self,
            ).page_table@ && final(hw)@ == old(hw)@,
            r is Ok ==> final(hw)@ == old(hw)@ + spec_unmap_warnings(
                old(self).spec_unmap_holes(iova, pgcount),
            ),
    {
        let ghost table0 = self.page_table@;
        let ghost miova0 = self.spec_map_iova(iova);
        let ghost aligned = iova % UAT_PGSZ == 0;
        proof {
            vstd::arithmetic::power2::lemma2_to64_rest();
            assert(table0 =~= spec_unmap(table0, miova0, 0));
            assert(hw@ =~= old(hw)@ + spec_unmap_warnings(0));
        }
        if pgcount == 0 {
            return Ok(0);
        }
        if pgsize != UAT_PGSZ || pgcount > u64::MAX / UAT_PGSZ {
            return Err(Error::EINVAL);
        }
        let mut cur: u64 = iova;
        let mut left: u64 = pgcount;
        while left > 0
            invariant
                self.wf(),
                self.same_but_table(old(self)),
                pgsize == UAT_PGSZ,
                0 <= left <= pgcount,
                pgcount * UAT_PGSZ <= u64::MAX,
                table0 == old(self).page_table@,
                miova0 == old(self).spec_map_iova(iova),
                aligned == (iova % UAT_PGSZ == 0),
                cur == iova + (pgcount - left) * UAT_PGSZ,
                self.page_table@ == (if aligned {
                    spec_unmap(table0, miova0, pgcount - left)
                } else {
                    table0
                }),
                left < pgcount ==> spec_iova_in_range(self.va_range, iova, pgsize * pgcount),
                left == pgcount ==> hw@ == old(hw)@,
                hw@.len() >= old(hw)@.len(),
                hw@ == old(hw)@ + spec_unmap_warnings((hw@.len() - old(hw)@.len()) as nat),
                !aligned ==> hw@.len() - old(hw)@.len() == pgcount - left,
                aligned && left < pgcount ==> (hw@.len() - old(hw)@.len()) + spec_holes(
                    table0,
                    (miova0 + (pgcount - left) * UAT_PGSZ) as u64,
                    left as int,
                ) == spec_holes(table0, miova0, pgcount as int),
            decreases left,
        {
            let ghost done = pgcount - left;
            let mapped_iova = match self.map_iova(cur, pgsize * left) {
                Ok(a) => a,
                Err(e) => {
                    return Err(e);
                },
            };
            assert(mapped_iova == miova0 + done * UAT_PGSZ);
            let ghost before = self.page_table@;
            let ghost chunk = spec_chunk(mapped_iova, left as int);
            let ghost hw_before = hw@;
            proof {
                vstd::arithmetic::power2::lemma2_to64_rest();
                lemma_run_bound(before, mapped_iova, chunk);
                if aligned {
                    // What is left of the range is as it was at the start.
                    assert forall|k: u64| in_pages(k, mapped_iova, left as int) implies before.contains_key(
                        k,
                    ) == table0.contains_key(k) by {}
                    lemma_holes_same(before, table0, mapped_iova, left as int);
                    assert((mapped_iova / UAT_PGSZ) % (crate::mmu::UAT_NPTE as u64) < 2048);
                    lemma_holes_skip_run(before, mapped_iova, chunk, left as int);
                }
                assert(aligned ==> unmap_request_valid(
                    self.page_table.spec_cfg(),
                    mapped_iova,
                    pgsize,
                    left,
                ));
            }
            let mut unmapped: u64 = self.page_table.unmap_pages(mapped_iova, pgsize, left);
            let ghost run = unmapped as int / (UAT_PGSZ as int);
            if unmapped == 0 {
                hw.push(HwOp::Warn { what: Warning::UnmapFoundNothing });
                // Pretend we unmapped one page and try again...
                unmapped = pgsize;
                proof {
                    if aligned {
                        assert(spec_run(before, mapped_iova, chunk) == 0);
                        assert((mapped_iova / UAT_PGSZ) % (crate::mmu::UAT_NPTE as u64) < 2048);
                        assert(chunk >= 1);
                        assert(mapped_iova + UAT_PGSZ <= u64::MAX);
                        lemma_run_bound(before, (mapped_iova + UAT_PGSZ) as u64, chunk - 1);
                        assert(!before.contains_key(mapped_iova));
                        assert forall|k: u64|
                            before.contains_key(k) && in_pages(k, mapped_iova, 1) implies false by {
                            assert(self.page_table@ =~= before);
                            assert(self.page_table@.contains_key(k));
                            assert(k % UAT_PGSZ == 0);
                            assert(mapped_iova % UAT_PGSZ == 0);
                            assert(k == mapped_iova);
                        }
                        assert(before =~= spec_unmap(table0, miova0, done + 1));
                    }
                }
            } else {
                proof {
                    assert(aligned);
                    assert(spec_unmap(before, mapped_iova, run) =~= spec_unmap(
                        table0,
                        miova0,
                        done + run,
                    ));
                }
            }
            proof {
                assert(hw@ =~= old(hw)@ + spec_unmap_warnings((hw@.len() - old(hw)@.len()) as nat));
                if aligned {
                    let step = unmapped as int / (UAT_PGSZ as int);
                    let next = (mapped_iova + step * UAT_PGSZ) as u64;
                    assert forall|k: u64| in_pages(k, next, left - step) implies before.contains_key(
                        k,
                    ) == table0.contains_key(k) by {
                        assert(in_pages(k, mapped_iova, left as int));
                    }
                    lemma_holes_same(before, table0, next, left - step);
                }
            }
            left = left - unmapped / pgsize;
            cur = cur + unmapped;
        }
        Ok(pgcount * pgsize)
    }

    /// Whether the pages of `pages` can be mapped one after the other from
    /// `iova` on: the address is that of a page, the range lies in the
    /// address space, every page has an address that the page table can
    /// translate to, and nothing is mapped in the range.
    pub open spec fn spec_can_map_list(&self, iova: u64, pages: Seq<u64>, prot: u32) -> bool {
        self.spec_can_map_list_on(self.page_table@, iova, pages, prot)
    }

    /// `spec_can_map_list` for an address space whose page table holds
    /// `table`.
    pub open spec fn spec_can_map_list_on(
        &self,
        table: Map<u64, Pte>,
        iova: u64,
        pages: Seq<u64>,
        prot: u32,
    ) -> bool {
        pages.len() == 0 || {
            &&& iova % UAT_PGSZ == 0
            &&& prot & (crate::mmu::PROT_READ | crate::mmu::PROT_WRITE) != 0
            &&& spec_iova_in_range(self.va_range, iova, pages.len() * UAT_PGSZ)
            &&& forall|i: int|
                0 <= i < pages.len() ==> (#[trigger] pages[i]) % UAT_PGSZ == 0 && pages[i]
                    + UAT_PGSZ <= vstd::arithmetic::power2::pow2(
                    self.page_table.spec_cfg().oas as nat,
                )
            &&& pages_free(table, self.spec_map_iova(iova), pages.len() as int)
        }
    }

    /// Maps the pages `pages`, which need not be contiguous, one after the
    /// other from `iova` on.
    ///
    /// Fails with `EINVAL` or `EEXIST` as `map_pages` does; the pages
    /// before the one that cannot be mapped are mapped then.
    pub fn map_list(&mut self, iova: u64, pages: &[u64], prot: u32) -> (r: Result<()>)
        requires
            old(self).wf(),
        ensures
            final(self).wf(),
            final(self).same_but_table(old(self)),
            r is Ok <==> old(self).spec_can_map_list(iova, pages@, prot),
            r is Ok ==> final(self).page_table@ == spec_map_list(
                old(self).page_table@,
                old(self).spec_map_iova(iova),
                pages@,
                prot,
            ),
            r matches Err(e) ==> (e == Error::EINVAL || e == Error::EEXIST) && exists|done: int|
                0 <= done < pages@.len() && final(self).page_table@ == #[trigger] spec_map_list(
                    old(self).page_table@,
                    old(self).spec_map_iova(iova),
                    pages@.subrange(0, done),
                    prot,
                ),
    {
        let ghost table0 = self.page_table@;
        let ghost miova0 = self.spec_map_iova(iova);
        let n: usize = pages.len();
        proof {
            vstd::arithmetic::power2::lemma2_to64_rest();
            assert(table0 =~= spec_map_list(table0, miova0, pages@.subrange(0, 0), prot));
            assert(pages@.subrange(0, n as int) =~= pages@);
        }
        if n == 0 {
            return Ok(());
        }
        if (n as u64) > (u64::MAX - iova) / UAT_PGSZ {
            return Err(Error::EINVAL);
        }
        let mut i: usize = 0;
        while i < n
            invariant
                self.wf(),
                self.same_but_table(old(self)),
                0 <= i <= n,
                n == pages@.len(),
                n > 0,
                iova + n * UAT_PGSZ <= u64::MAX,
                table0 == old(self).page_table@,
                miova0 == old(self).spec_map_iova(iova),
                self.page_table@ == spec_map_list(table0, miova0, pages@.subrange(0, i as int), prot),
                i > 0 ==> iova % UAT_PGSZ == 0 && self.va_range.start <= iova && prot & (
                crate::mmu::PROT_READ | crate::mmu::PROT_WRITE) != 0,
                i > 0 ==> self.va_range.start < self.va_range.end && iova + i * UAT_PGSZ
                    <= self.va_range.end,
                forall|j: int|
                    0 <= j < i ==> (#[trigger] pages@[j]) % UAT_PGSZ == 0 && pages@[j] + UAT_PGSZ
                        <= vstd::arithmetic::power2::pow2(self.page_table.spec_cfg().oas as nat),
                pages_free(table0, miova0, i as int),
            decreases n - i,
        {
            let cur: u64 = iova + (i as u64) * UAT_PGSZ;
            let ghost before = self.page_table@;
            let ghost mcur = self.spec_map_iova(cur);
            proof {
                vstd::arithmetic::power2::lemma2_to64_rest();
                if old(self).spec_can_map_list(iova, pages@, prot) {
                    assert(mcur == miova0 + i * UAT_PGSZ);
                    assert(pages@[i as int] % UAT_PGSZ == 0);
                    assert forall|k: u64| in_pages(k, mcur, 1) implies !(
                    #[trigger] before.contains_key(k)) by {
                        assert(in_pages(k, miova0, n as int));
                        assert(!table0.contains_key(k));
                    }
                    assert(spec_chunk(mcur, 1) == 1) by {
                        assert((mcur / UAT_PGSZ) % (crate::mmu::UAT_NPTE as u64) < 2048);
                    }
                    assert(self.spec_can_map(cur, pages@[i as int], UAT_PGSZ, 1, prot));
                }
            }
            match self.map_pages(cur, pages[i], UAT_PGSZ, 1, prot) {
                Ok(_) => {},
                Err(e) => {
                    return Err(e);
                },
            }
            proof {
                assert(mcur == miova0 + i * UAT_PGSZ);
                assert(spec_map(before, mcur, pages@[i as int], 1, prot) =~= spec_map_list(
                    table0,
                    miova0,
                    pages@.subrange(0, i + 1),
                    prot,
                )) by {
                    let a = spec_map(before, mcur, pages@[i as int], 1, prot);
                    let b = spec_map_list(table0, miova0, pages@.subrange(0, i + 1), prot);
                    assert forall|k: u64| a.contains_key(k) == b.contains_key(k) && (
                    a.contains_key(k) ==> a[k] == b[k]) by {
                        if in_pages(k, miova0, i + 1) && (k - miova0) % (UAT_PGSZ as int) == 0 {
                            if in_pages(k, miova0, i as int) {
                                assert((k - miova0) / (UAT_PGSZ as int) < i);
                            } else {
                                assert(k == mcur);
                                assert((k - miova0) / (UAT_PGSZ as int) == i);
                            }
                        }
                    }
                }
                assert forall|k: u64| in_pages(k, miova0, i + 1) implies !(
                #[trigger] table0.contains_key(k)) by {
                    if !in_pages(k, miova0, i as int) {
                        assert(in_pages(k, mcur, 1));
                        assert(!before.contains_key(k));
                    }
                }
            }
            i = i + 1;
        }
        Ok(())
    }

    /// Reserves the range of `node` for a kernel mapping.
    ///
    /// Fails with `ENOSPC`, changing nothing, when the range is empty, does
    /// not lie in the address space or overlaps a reserved range.
    pub fn reserve_node(&mut self, node: Node) -> (r: Result<()>)
        requires
            old(self).wf(),
        ensures
            final(self).wf(),
            r is Ok <==> node_fits(old(self).nodes@, old(self).va_range, node.start, node.size as int),
            r is Ok ==> final(self).nodes@ == old(self).nodes@.push(node),
            r matches Err(e) ==> e == Error::ENOSPC && final(self).nodes@ == old(self).nodes@,
            final(self).page_table@ == old(self).page_table@,
            final(self).vas@ == old(self).vas@,
            final(self).same_config(old(self)),
    {
        reveal(nodes_wf);
        if node.size == 0 || node.start < self.va_range.start || node.start > self.va_range.end
            || node.size > self.va_range.end - node.start {
            return Err(Error::ENOSPC);
        }
        let mut i: usize = 0;
        while i < self.nodes.len()
            invariant
                i <= self.nodes@.len(),
                *self == *old(self),
                self.wf(),
                nodes_wf(self.nodes@, self.va_range),
                node.start + node.size <= u64::MAX,
                forall|j: int|
                    0 <= j < i ==> !node_overlaps(
                        #[trigger] self.nodes@[j],
                        node.start,
                        node.size as int,
                    ),
            decreases self.nodes@.len() - i,
        {
            let other = self.nodes[i];
            proof {
                reveal(nodes_wf);
            }
            if node.start < other.start + other.size && other.start < node.start + node.size {
                return Err(Error::ENOSPC);
            }
            i = i + 1;
        }
        self.nodes.push(node);
        proof {
            reveal(nodes_wf);
            let nodes = self.nodes@;
            let n = old(self).nodes@.len() as int;
            assert forall|a: int, b: int|
                0 <= a < nodes.len() && 0 <= b < nodes.len() && a != b implies !node_overlaps(
                #[trigger] nodes[a],
                (#[trigger] nodes[b]).start,
                nodes[b].size as int,
            ) by {
                if a < n && b < n {
                    assert(nodes[a] == old(self).nodes@[a]);
                    assert(nodes[b] == old(self).nodes@[b]);
                } else if a < n {
                    assert(nodes[a] == old(self).nodes@[a]);
                } else {
                    assert(nodes[b] == old(self).nodes@[b]);
                }
            }
            assert forall|a: int| 0 <= a < nodes.len() implies (#[trigger] nodes[a]).size > 0
                && self.va_range.start <= nodes[a].start && nodes[a].start + nodes[a].size
                <= self.va_range.end by {
                if a < n {
                    assert(nodes[a] == old(self).nodes@[a]);
                }
            }
        }
        Ok(())
    }

    /// The position of the reserved range that starts at `start`, if there
    /// is one.
    pub open spec fn spec_node_index(nodes: Seq<Node>, start: u64) -> Option<int>
        decreases nodes.len(),
    {
        if nodes.len() == 0 {
            None
        } else if nodes.last().start == start {
            Some(nodes.len() - 1)
        } else {
            Self::spec_node_index(nodes.drop_last(), start)
        }
    }

    /// The reserved ranges without the one that starts at `start`.
    pub open spec fn spec_without_node(nodes: Seq<Node>, start: u64) -> Seq<Node> {
        match Self::spec_node_index(nodes, start) {
            Some(i) => nodes.remove(i),
            None => nodes,
        }
    }

    /// A position found by `spec_node_index` is that of a range that starts
    /// at `start`.
    pub proof fn lemma_node_index(nodes: Seq<Node>, start: u64)
        ensures
            Self::spec_node_index(nodes, start) matches Some(i) ==> 0 <= i < nodes.len()
                && nodes[i].start == start,
            Self::spec_node_index(nodes, start) is None ==> forall|j: int|
                0 <= j < nodes.len() ==> (#[trigger] nodes[j]).start != start,
        decreases nodes.len(),
    {
        if nodes.len() > 0 && nodes.last().start != start {
            Self::lemma_node_index(nodes.drop_last(), start);
            assert forall|j: int| 0 <= j < nodes.len() && Self::spec_node_index(nodes, start)
                is None implies (#[trigger] nodes[j]).start != start by {
                if j < nodes.len() - 1 {
                    assert(nodes.drop_last()[j] == nodes[j]);
                }
            }
        }
    }

    /// Gives up the reservation of the range that starts at `start`, if
    /// there is one.
    pub fn remove_node(&mut self, start: u64)
        requires
            old(self).wf(),
        ensures
            final(self).wf(),
            final(self).nodes@ == Self::spec_without_node(old(self).nodes@, start),
            final(self).page_table@ == old(self).page_table@,
            final(self).vas@ == old(self).vas@,
            final(self).same_config(old(self)),
    {
        let mut i: usize = self.nodes.len();
        assert(self.nodes@.subrange(0, i as int) =~= self.nodes@);
        while i > 0
            invariant
                i <= self.nodes@.len(),
                *self == *old(self),
                self.wf(),
                Self::spec_node_index(self.nodes@, start) == Self::spec_node_index(
                    self.nodes@.subrange(0, i as int),
                    start,
                ),
            decreases i,
        {
            proof {
                let cur = self.nodes@.subrange(0, i as int);
                assert(cur.drop_last() =~= self.nodes@.subrange(0, i - 1));
                assert(cur.last() == self.nodes@[i - 1]);
            }
            if self.nodes[i - 1].start == start {
                let ghost before = self.nodes@;
                self.nodes.remove(i - 1);
                proof {
                    reveal(nodes_wf);
                    let nodes = self.nodes@;
                    let at = i - 1;
                    assert forall|a: int, b: int|
                        0 <= a < nodes.len() && 0 <= b < nodes.len() && a != b implies !node_overlaps(
                        #[trigger] nodes[a],
                        (#[trigger] nodes[b]).start,
                        nodes[b].size as int,
                    ) by {
                        let a0 = if a < at { a } else { a + 1 };
                        let b0 = if b < at { b } else { b + 1 };
                        assert(nodes[a] == before[a0]);
                        assert(nodes[b] == before[b0]);
                    }
                    assert forall|a: int| 0 <= a < nodes.len() implies (#[trigger] nodes[a]).size
                        > 0 && self.va_range.start <= nodes[a].start && nodes[a].start
                        + nodes[a].size <= self.va_range.end by {
                        let a0 = if a < at { a } else { a + 1 };
                        assert(nodes[a] == before[a0]);
                    }
                }
                return ;
            }
            i = i - 1;
        }
        assert(self.nodes@.subrange(0, 0) =~= Seq::<Node>::empty());
    }

    /// The reservation for a mapping of `size` bytes at `addr`, with a guard
    /// page behind it if asked for.
    pub open spec fn spec_node(addr: u64, size: u64, prot: u32, bo: Option<u64>, guard: bool)
        -> Node {
        Node {
            start: addr,
            size: (size + (if guard {
                UAT_PGSZ as int
            } else {
                0
            })) as u64,
            mapped_size: size,
            prot,
            bo,
        }
    }

    /// The number of bytes that are reserved for a mapping of `size`
    /// bytes: a guard page more if `guard` is set.
    pub open spec fn spec_reserved(size: u64, guard: bool) -> int {
        size + (if guard {
            UAT_PGSZ as int
        } else {
            0
        })
    }

    /// Whether the range for a mapping of `size` bytes at `addr`, with its
    /// guard page, can be reserved.
    pub open spec fn spec_node_fits(&self, addr: u64, size: u64, guard: bool) -> bool {
        node_fits(
            self.nodes@,
            self.va_range,
            addr,
            size + (if guard {
                UAT_PGSZ as int
            } else {
                0
            }),
        )
    }

    /// Map a GEM object, by the pages that back it, into this address space
    /// at a specific address.
    ///
    /// The range of `size` bytes at `addr`, and a guard page behind it if
    /// `guard` is set, is reserved for the mapping.
    ///
    /// Fails with `ENOSPC`, changing nothing, when the range cannot be
    /// reserved. Fails with `EINVAL` or `EEXIST` as `map_list` does; the
    /// range is not reserved then, but the pages that could be mapped
    /// remain mapped.
    pub fn map_at(&mut self, addr: u64, size: u64, bo: u64, pages: &[u64], prot: u32, guard: bool)
        -> (r: Result<KernelMapping>)
        requires
            old(self).wf(),
        ensures
            final(self).wf(),
            final(self).same_config(old(self)),
            final(self).vas@ == old(self).vas@,
            r is Ok <==> old(self).spec_node_fits(addr, size, guard) && old(
                self,
            ).spec_can_map_list(addr, pages@, prot),
            r matches Ok(m) ==> {
                &&& m.node == Self::spec_node(addr, size, prot, Some(bo), guard)
                &&& m.vm_id == old(self).id
                &&& final(self).nodes@ == old(self).nodes@.push(m.node)
                &&& final(self).page_table@ == spec_map_list(
                    old(self).page_table@,
                    old(self).spec_map_iova(addr),
                    pages@,
                    prot,
                )
            },
            r matches Err(e) ==> final(self).nodes@ == old(self).nodes@,
            r matches Err(e) ==> !old(self).spec_node_fits(addr, size, guard) ==> e == Error::ENOSPC
                && final(self).page_table@ == old(self).page_table@,
            r matches Err(e) ==> old(self).spec_node_fits(addr, size, guard) ==> (e == Error::EINVAL
                || e == Error::EEXIST) && exists|done: int|
                0 <= done < pages@.len() && final(self).page_table@ == #[trigger] spec_map_list(
                    old(self).page_table@,
                    old(self).spec_map_iova(addr),
                    pages@.subrange(0, done),
                    prot,
                ),
    {
        let extra: u64 = if guard {
            UAT_PGSZ
        } else {
            0
        };
        if size > u64::MAX - extra {
            proof {
                reveal(nodes_wf);
            }
            return Err(Error::ENOSPC);
        }
        let node = Node { start: addr, size: size + extra, mapped_size: size, prot, bo: Some(bo) };
        match self.reserve_node(node) {
            Ok(()) => {},
            Err(e) => {
                return Err(e);
            },
        }
        let ghost table0 = self.page_table@;
        let ghost miova0 = self.spec_map_iova(addr);
        match self.map_list(addr, pages, prot) {
            Ok(()) => {},
            Err(e) => {
                let ghost done = choose|done: int|
                    0 <= done < pages@.len() && self.page_table@ == #[trigger] spec_map_list(
                        table0,
                        miova0,
                        pages@.subrange(0, done),
                        prot,
                    );
                self.remove_node(addr);
                proof {
                    let pushed = old(self).nodes@.push(node);
                    assert(pushed.drop_last() =~= old(self).nodes@);
                    assert(pushed.remove(pushed.len() - 1) =~= old(self).nodes@);
                    assert(table0 == old(self).page_table@);
                    assert(miova0 == old(self).spec_map_iova(addr));
                    assert(self.page_table@ == spec_map_list(
                        old(self).page_table@,
                        old(self).spec_map_iova(addr),
                        pages@.subrange(0, done),
                        prot,
                    ));
                }
                return Err(e);
            },
        }
        Ok(KernelMapping { node, vm_id: self.id })
    }

    /// Add a direct MMIO mapping of `size` bytes at the physical address
    /// `phys` to this address space at `iova`.
    ///
    /// Fails with `EINVAL`, changing nothing, when an address or the size
    /// is not a multiple of the page size, and with `ENOSPC`, changing
    /// nothing, when the range cannot be reserved. Fails with `EINVAL` or
    /// `EEXIST` as `map_pages` does; the range is not reserved then, but
    /// the pages that could be mapped remain mapped.
    pub fn map_io(&mut self, iova: u64, phys: u64, size: u64, prot: u32) -> (r: Result<
        KernelMapping,
    >)
        requires
            old(self).wf(),
        ensures
            final(self).wf(),
            final(self).same_config(old(self)),
            final(self).vas@ == old(self).vas@,
            r is Ok <==> {
                &&& iova % UAT_PGSZ == 0 && phys % UAT_PGSZ == 0 && size % UAT_PGSZ == 0
                &&& old(self).spec_node_fits(iova, size, false)
                &&& old(self).spec_can_map(
                    iova,
                    phys,
                    UAT_PGSZ,
                    size / UAT_PGSZ,
                    prot,
                )
            },
            r matches Ok(m) ==> {
                &&& m.node == Self::spec_node(iova, size, prot, None, false)
                &&& m.vm_id == old(self).id
                &&& final(self).nodes@ == old(self).nodes@.push(m.node)
                &&& final(self).page_table@ == spec_map(
                    old(self).page_table@,
                    old(self).spec_map_iova(iova),
                    phys,
                    (size / UAT_PGSZ) as int,
                    prot,
                )
            },
            r matches Err(e) ==> final(self).nodes@ == old(self).nodes@,
            r matches Err(e) ==> !(iova % UAT_PGSZ == 0 && phys % UAT_PGSZ == 0 && size % UAT_PGSZ
                == 0) ==> e == Error::EINVAL && final(self).page_table@ == old(self).page_table@,
            r matches Err(e) ==> (iova % UAT_PGSZ == 0 && phys % UAT_PGSZ == 0 && size % UAT_PGSZ
                == 0) && !old(self).spec_node_fits(iova, size, false) ==> e == Error::ENOSPC
                && final(self).page_table@ == old(self).page_table@,
    {
        if iova % UAT_PGSZ != 0 || phys % UAT_PGSZ != 0 || size % UAT_PGSZ != 0 {
            return Err(Error::EINVAL);
        }
        let node = Node { start: iova, size, mapped_size: size, prot, bo: None };
        match self.reserve_node(node) {
            Ok(()) => {},
            Err(e) => {
                return Err(e);
            },
        }
        match self.map_pages(iova, phys, UAT_PGSZ, size / UAT_PGSZ, prot) {
            Ok(_) => {},
            Err(e) => {
                self.remove_node(iova);
                proof {
                    let pushed = old(self).nodes@.push(node);
                    assert(pushed.drop_last() =~= old(self).nodes@);
                    assert(pushed.remove(pushed.len() - 1) =~= old(self).nodes@);
                }
                return Err(e);
            },
        }
        Ok(KernelMapping { node, vm_id: self.id })
    }

    /// What `drop_mapping` asks of the hardware after the pages are
    /// unmapped: to invalidate the range in the TLB, if the address space
    /// has, or had, a context number.
    pub open spec fn spec_drop_ops(&self, mapping: KernelMapping) -> Seq<HwOp> {
        match self.spec_slot() {
            Some(asid) => seq![
                HwOp::TlbiRange {
                    asid: asid as u8,
                    start: mapping.node.start,
                    len: mapping.node.mapped_size,
                },
                HwOp::Sync,
            ],
            None => Seq::empty(),
        }
    }

    /// The number of pages that unmapping `pgcount` pages at `iova` passes
    /// over when the page table holds `table`, see `spec_unmap_holes`.
    pub open spec fn spec_unmap_holes_on(&self, table: Map<u64, Pte>, iova: u64, pgcount: u64)
        -> nat {
        if iova % UAT_PGSZ == 0 {
            spec_holes(table, self.spec_map_iova(iova), pgcount as int) as nat
        } else {
            pgcount as nat
        }
    }

    /// The page table `table` after the pages of a mapping were asked to
    /// be unmapped: without them, if the mapping starts at a page and lies
    /// in the address space.
    pub open spec fn spec_unmapped_on(&self, table: Map<u64, Pte>, mapping: KernelMapping) -> Map<
        u64,
        Pte,
    > {
        if self.spec_can_unmap(mapping.node.start, UAT_PGSZ, mapping.node.mapped_size / UAT_PGSZ)
            && mapping.node.start % UAT_PGSZ == 0 {
            spec_unmap(
                table,
                self.spec_map_iova(mapping.node.start),
                (mapping.node.mapped_size / UAT_PGSZ) as int,
            )
        } else {
            table
        }
    }

    /// What unmapping the pages of a mapping reports when the page table
    /// holds `table`: a warning for each page that is not mapped, or that
    /// unmapping has failed.
    pub open spec fn spec_unmap_part_on(&self, table: Map<u64, Pte>, mapping: KernelMapping) -> Seq<
        HwOp,
    > {
        if self.spec_can_unmap(mapping.node.start, UAT_PGSZ, mapping.node.mapped_size / UAT_PGSZ) {
            spec_unmap_warnings(
                self.spec_unmap_holes_on(
                    table,
                    mapping.node.start,
                    mapping.node.mapped_size / UAT_PGSZ,
                ),
            )
        } else {
            seq![HwOp::Warn { what: Warning::UnmapFailed }]
        }
    }

    /// The request to the firmware that a flush asks for, if one is asked
    /// for.
    pub open spec fn spec_flush_op(req: Option<FlushRequest>) -> Seq<HwOp> {
        match req {
            Some(f) => seq![
                HwOp::FwFlush { slot: f.slot, iova: f.iova, size: f.size, page_count: f.page_count },
            ],
            None => Seq::empty(),
        }
    }

    /// The page table after a mapping was unmapped and the first `done` of
    /// its pages were mapped again as uncached. A mapping of no object is
    /// not mapped again.
    pub open spec fn spec_remap_table(&self, mapping: KernelMapping, pages: Seq<u64>, done: int)
        -> Map<u64, Pte> {
        if mapping.node.bo is Some {
            spec_map_list(
                self.spec_after_unmap(mapping),
                self.spec_map_iova(mapping.node.start),
                pages.subrange(0, done),
                mapping.node.prot | crate::mmu::PROT_CACHE,
            )
        } else {
            self.spec_after_unmap(mapping)
        }
    }

    /// Whether `PROT_CACHE` is set in the protection of a mapping: the
    /// mapping is coherent, and not cached on the coprocessor's side.
    pub open spec fn spec_coherent(mapping: KernelMapping) -> bool {
        mapping.node.prot & crate::mmu::PROT_CACHE != 0
    }

    /// Unmaps the pages of a mapping, invalidates its range in the TLB and
    /// gives up the reservation of its range.
    fn unmap_mapping(&mut self, mapping: KernelMapping, hw: &mut Vec<HwOp>)
        requires
            old(self).wf(),
        ensures
            final(self).wf(),
            final(self).same_config(old(self)),
            final(self).vas@ == old(self).vas@,
            final(self).nodes@ == Self::spec_without_node(old(self).nodes@, mapping.node.start),
            final(self).page_table@ == old(self).spec_unmapped_on(old(self).page_table@, mapping),
            final(hw)@ == old(hw)@ + old(self).spec_unmap_part_on(old(self).page_table@, mapping)
                + old(self).spec_drop_ops(mapping),
    {
        let iova = mapping.iova();
        let size = mapping.size();
        match self.unmap_pages(iova, UAT_PGSZ, size / UAT_PGSZ, hw) {
            Ok(_) => {},
            Err(_) => {
                hw.push(HwOp::Warn { what: Warning::UnmapFailed });
            },
        }
        let ghost mid = hw@;
        assert(mid =~= old(hw)@ + old(self).spec_unmap_part_on(old(self).page_table@, mapping));
        match self.slot() {
            Some(asid) => {
                hw.push(HwOp::TlbiRange { asid: asid as u8, start: iova, len: size });
                hw.push(HwOp::Sync);
            },
            None => {},
        }
        assert(hw@ =~= mid + old(self).spec_drop_ops(mapping));
        self.remove_node(iova);
    }

    /// Takes a mapping down: unmaps its pages, invalidates its range in the
    /// TLB and gives up the reservation of its range. `pages` are the pages
    /// of the object that it maps.
    ///
    /// A mapping without `PROT_CACHE` is cached on the coprocessor's side.
    /// It is first unmapped and mapped again as uncached, and the firmware
    /// is asked to flush its range from its caches, if a flush is needed,
    /// see `remap_uncached_and_flush`; only then it is unmapped.
    ///
    /// `cur_slot` is the context slot that the firmware is using and
    /// `ttb_cur` the first base register of this address space's slot in the
    /// TTBAT, both read under the handoff lock.
    pub fn drop_mapping(
        &mut self,
        mapping: KernelMapping,
        pages: &[u64],
        cur_slot: Option<u32>,
        ttb_cur: u64,
        hw: &mut Vec<HwOp>,
    )
        requires
            old(self).wf(),
        ensures
            final(self).wf(),
            final(self).same_config(old(self)),
            final(self).vas@ == old(self).vas@,
            final(self).nodes@ == Self::spec_without_node(old(self).nodes@, mapping.node.start),
            Self::spec_coherent(mapping) ==> final(self).page_table@ == old(self).spec_unmapped_on(
                old(self).page_table@,
                mapping,
            ) && final(hw)@ == old(hw)@ + old(self).spec_unmap_part_on(
                old(self).page_table@,
                mapping,
            ) + old(self).spec_drop_ops(mapping),
            !Self::spec_coherent(mapping) ==> exists|done: int|
                {
                    let mid = #[trigger] old(self).spec_remap_table(mapping, pages@, done);
                    let flush = old(self).spec_flush_request(mapping, cur_slot, ttb_cur);
                    &&& 0 <= done <= pages@.len()
                    &&& old(self).spec_remapped(mapping, pages@) ==> done == pages@.len()
                    &&& !old(self).spec_remapped(mapping, pages@) && mapping.node.bo is Some
                        ==> done < pages@.len()
                    &&& final(self).page_table@ == old(self).spec_unmapped_on(mid, mapping)
                    &&& final(hw)@ == old(hw)@ + old(self).spec_remap_ops(
                        mapping,
                        pages@,
                        flush is Some,
                    ) + Self::spec_flush_op(flush) + old(self).spec_unmap_part_on(mid, mapping)
                        + old(self).spec_drop_ops(mapping)
                },
    {
        // What `PROT_CACHE` names is coherence: a mapping without it is
        // cached on the coprocessor's side and has to be flushed from its
        // caches before it goes.
        if mapping.node.prot & crate::mmu::PROT_CACHE == 0 {
            let ghost table0 = self.page_table@;
            let flush = self.remap_uncached_and_flush(&mapping, pages, cur_slot, ttb_cur, hw);
            let ghost remapped = hw@;
            match flush {
                Some(f) => {
                    hw.push(
                        HwOp::FwFlush {
                            slot: f.slot,
                            iova: f.iova,
                            size: f.size,
                            page_count: f.page_count,
                        },
                    );
                },
                None => {},
            }
            let ghost flushed = hw@;
            assert(flushed =~= remapped + Self::spec_flush_op(flush));
            let ghost mid = self.page_table@;
            proof {
                let done: int = if old(self).spec_remapped(mapping, pages@) {
                    pages@.len() as int
                } else if mapping.node.bo is None {
                    0
                } else {
                    choose|done: int|
                        0 <= done < pages@.len() && mid == #[trigger] spec_map_list(
                            old(self).spec_after_unmap(mapping),
                            old(self).spec_map_iova(mapping.node.start),
                            pages@.subrange(0, done),
                            mapping.node.prot | crate::mmu::PROT_CACHE,
                        )
                };
                assert(pages@.subrange(0, pages@.len() as int) =~= pages@);
                assert(mid == old(self).spec_remap_table(mapping, pages@, done));
            }
            self.unmap_mapping(mapping, hw);
            proof {
                assert(hw@ =~= old(hw)@ + old(self).spec_remap_ops(mapping, pages@, flush is Some)
                    + Self::spec_flush_op(flush) + old(self).spec_unmap_part_on(mid, mapping)
                    + old(self).spec_drop_ops(mapping));
            }
        } else {
            self.unmap_mapping(mapping, hw);
        }
    }

    /// The value of the first base register of the TTBAT slot `slot` while
    /// this address space owns it.
    pub open spec fn spec_ttb_for(&self, slot: u32) -> u64 {
        self.binding.ttb | crate::mmu::TTBR_VALID | ((slot as u64) << 48)
    }

    /// The flush that a cached mapping needs before it can be taken down:
    /// none if the address space never had a context number, or is a user
    /// address space that the firmware is not using right now.
    ///
    /// `cur_slot` is the context slot that the firmware is using and
    /// `ttb_cur` the first base register of this address space's slot.
    pub open spec fn spec_flush_request(
        &self,
        mapping: KernelMapping,
        cur_slot: Option<u32>,
        ttb_cur: u64,
    ) -> Option<FlushRequest> {
        let request = |slot: u32|
            FlushRequest {
                slot,
                iova: mapping.node.start,
                size: mapping.node.mapped_size,
                page_count: ((mapping.node.mapped_size / UAT_PGSZ) % 0x10000) as u16,
            };
        match self.spec_slot() {
            None => None,
            Some(slot) => if self.is_kernel {
                // Kernel mappings always flush on the slot behind the last
                // context.
                Some(request(crate::mmu::UAT_NUM_CTX as u32))
            } else if cur_slot == Some(slot) && ttb_cur == self.spec_ttb_for(slot) {
                Some(request(slot))
            } else {
                None
            },
        }
    }

    /// The page table after the pages of a mapping were asked to be
    /// unmapped: without them, if the mapping starts at a page and lies in
    /// the address space.
    pub open spec fn spec_after_unmap(&self, mapping: KernelMapping) -> Map<u64, Pte> {
        if self.spec_can_unmap(mapping.node.start, UAT_PGSZ, mapping.node.mapped_size / UAT_PGSZ)
            && mapping.node.start % UAT_PGSZ == 0 {
            spec_unmap(
                self.page_table@,
                self.spec_map_iova(mapping.node.start),
                (mapping.node.mapped_size / UAT_PGSZ) as int,
            )
        } else {
            self.page_table@
        }
    }

    /// Whether a mapping that was unmapped is mapped again: it maps an
    /// object and its pages can be mapped where it was.
    pub open spec fn spec_remapped(&self, mapping: KernelMapping, pages: Seq<u64>) -> bool {
        mapping.node.bo is Some && self.spec_can_map_list_on(
            self.spec_after_unmap(mapping),
            mapping.node.start,
            pages,
            mapping.node.prot | crate::mmu::PROT_CACHE,
        )
    }

    /// What unmapping the pages of a mapping reports: a warning for each
    /// page that is not mapped, or that unmapping has failed.
    pub open spec fn spec_remap_unmap_ops(&self, mapping: KernelMapping) -> Seq<HwOp> {
        if self.spec_can_unmap(mapping.node.start, UAT_PGSZ, mapping.node.mapped_size / UAT_PGSZ) {
            spec_unmap_warnings(
                self.spec_unmap_holes(mapping.node.start, mapping.node.mapped_size / UAT_PGSZ),
            )
        } else {
            seq![HwOp::Warn { what: Warning::UnmapFailed }]
        }
    }

    /// What `remap_uncached_and_flush` reports: what unmapping reports, a
    /// warning if the mapping is not mapped again, and, if a flush is asked
    /// for, a warning if the mapping has more pages than a flush can name.
    pub open spec fn spec_remap_ops(&self, mapping: KernelMapping, pages: Seq<u64>, flush: bool)
        -> Seq<HwOp> {
        self.spec_remap_unmap_ops(mapping) + (if self.spec_remapped(mapping, pages) {
            Seq::<HwOp>::empty()
        } else {
            seq![HwOp::Warn { what: Warning::RemapFailed }]
        }) + (if flush && mapping.node.mapped_size / UAT_PGSZ >= 0x10000 {
            seq![HwOp::Warn { what: Warning::FlushTooBig }]
        } else {
            Seq::<HwOp>::empty()
        })
    }

    /// Remap a cached mapping as uncached, and say which flush of the
    /// coprocessor's caches has to follow. This is required to safely unmap
    /// cached/private mappings.
    ///
    /// The mapping is unmapped and mapped again with the `PROT_CACHE` flag
    /// forced on; `pages` are the pages of the object that it maps. Failures
    /// of either step are reported in `hw` and otherwise passed over; where
    /// mapping again fails the pages before the one that cannot be mapped
    /// are mapped.
    ///
    /// `cur_slot` is the context slot that the firmware is using and
    /// `ttb_cur` the first base register of this address space's slot in the
    /// TTBAT, both read under the handoff lock; they matter for user
    /// address spaces only. Between that reading and the flush the firmware
    /// may switch to another address space. This is accepted.
    pub fn remap_uncached_and_flush(
        &mut self,
        mapping: &KernelMapping,
        pages: &[u64],
        cur_slot: Option<u32>,
        ttb_cur: u64,
        hw: &mut Vec<HwOp>,
    ) -> (r: Option<FlushRequest>)
        requires
            old(self).wf(),
        ensures
            final(self).wf(),
            final(self).same_config(old(self)),
            final(self).vas@ == old(self).vas@,
            final(self).nodes@ == old(self).nodes@,
            r == old(self).spec_flush_request(*mapping, cur_slot, ttb_cur),
            old(self).spec_remapped(*mapping, pages@) ==> final(self).page_table@ == spec_map_list(
                old(self).spec_after_unmap(*mapping),
                old(self).spec_map_iova(mapping.node.start),
                pages@,
                mapping.node.prot | crate::mmu::PROT_CACHE,
            ),
            !old(self).spec_remapped(*mapping, pages@) && mapping.node.bo is None
                ==> final(self).page_table@ == old(self).spec_after_unmap(*mapping),
            !old(self).spec_remapped(*mapping, pages@) && mapping.node.bo is Some ==> exists|
                done: int,
            |
                0 <= done < pages@.len() && final(self).page_table@ == #[trigger] spec_map_list(
                    old(self).spec_after_unmap(*mapping),
                    old(self).spec_map_iova(mapping.node.start),
                    pages@.subrange(0, done),
                    mapping.node.prot | crate::mmu::PROT_CACHE,
                ),
            final(hw)@ == old(hw)@ + old(self).spec_remap_ops(*mapping, pages@, r is Some),
    {
        let iova = mapping.iova();
        let size = mapping.size();
        // The page table cannot change a mapping in place: unmap and map
        // again. The guard page is not mapped and is left alone.
        match self.unmap_pages(iova, UAT_PGSZ, size / UAT_PGSZ, hw) {
            Ok(_) => {},
            Err(_) => {
                hw.push(HwOp::Warn { what: Warning::UnmapFailed });
            },
        }
        let ghost unmapped = hw@;
        assert(unmapped =~= old(hw)@ + old(self).spec_remap_unmap_ops(*mapping));
        let prot = mapping.node.prot | crate::mmu::PROT_CACHE;
        let ghost table1 = self.page_table@;
        let ghost miova = self.spec_map_iova(iova);
        let remapped = match mapping.node.bo {
            Some(_) => match self.map_list(iova, pages, prot) {
                Ok(()) => true,
                Err(_) => {
                    proof {
                        let done = choose|done: int|
                            0 <= done < pages@.len() && self.page_table@
                                == #[trigger] spec_map_list(
                                table1,
                                miova,
                                pages@.subrange(0, done),
                                prot,
                            );
                        assert(self.page_table@ == spec_map_list(
                            old(self).spec_after_unmap(*mapping),
                            old(self).spec_map_iova(mapping.node.start),
                            pages@.subrange(0, done),
                            mapping.node.prot | crate::mmu::PROT_CACHE,
                        ));
                    }
                    false
                },
            },
            None => false,
        };
        if !remapped {
            hw.push(HwOp::Warn { what: Warning::RemapFailed });
        }
        let ghost mapped = hw@;
        assert(mapped =~= unmapped + (if old(self).spec_remapped(*mapping, pages@) {
            Seq::<HwOp>::empty()
        } else {
            seq![HwOp::Warn { what: Warning::RemapFailed }]
        }));
        assert(hw@ =~= old(hw)@ + old(self).spec_remap_ops(*mapping, pages@, false));
        // If we don't have (and have never had) a VM slot, just return
        let slot = match self.slot() {
            None => {
                return None;
            },
            Some(slot) => slot,
        };
        let flush_slot: u32 = if self.is_kernel {
            // If this is a kernel mapping, always flush on index 64
            crate::mmu::UAT_NUM_CTX as u32
        } else {
            // Otherwise, check if this slot is the active one, otherwise return
            // Also check that we actually own this slot
            let ttb = self.ttb() | crate::mmu::TTBR_VALID | ((slot as u64) << 48);
            if cur_slot == Some(slot) && ttb_cur == ttb {
                slot
            } else {
                return None;
            }
        };
        let pages_count: u64 = size / UAT_PGSZ;
        if pages_count >= 0x10000 {
            hw.push(HwOp::Warn { what: Warning::FlushTooBig });
        }
        assert(hw@ =~= old(hw)@ + old(self).spec_remap_ops(*mapping, pages@, true));
        Some(
            FlushRequest {
                slot: flush_slot,
                iova,
                size,
                page_count: (pages_count % 0x10000) as u16,
            },
        )
    }

    /// Finds the lowest address in `range` that is a multiple of
    /// `alignment`, if `alignment` is not zero, past which `size` bytes are
    /// free and lie in `range` and in the address space. The search looks
    /// at the start of `range` and behind each reserved range that is in
    /// the way.
    fn find_free(&self, size: u64, alignment: u64, range: &Range<u64>) -> (r: Option<u64>)
        requires
            self.wf(),
        ensures
            r matches Some(a) ==> is_first_fit(
                self.nodes@,
                self.va_range,
                *range,
                alignment,
                a,
                size as int,
            ),
            r is None ==> no_place(self.nodes@, self.va_range, *range, alignment, size as int),
    {
        if size == 0 || range.start >= range.end {
            return None;
        }
        let lowest: u64 = if range.start > self.va_range.start {
            range.start
        } else {
            self.va_range.start
        };
        let highest: u64 = if range.end < self.va_range.end {
            range.end
        } else {
            self.va_range.end
        };
        let mut cand: u64 = lowest;
        loop
            invariant
                self.wf(),
                size > 0,
                lowest <= cand,
                lowest >= range.start,
                lowest >= self.va_range.start,
                highest <= range.end,
                highest <= self.va_range.end,
                highest == range.end || highest == self.va_range.end,
                forall|b: u64|
                    b < cand ==> !#[trigger] place_ok(
                        self.nodes@,
                        self.va_range,
                        *range,
                        alignment,
                        b,
                        size as int,
                    ),
            decreases u64::MAX - cand,
        {
            // Round the candidate up to the alignment.
            if alignment != 0 && cand % alignment != 0 {
                let step: u64 = alignment - cand % alignment;
                assert forall|b: u64| cand <= b < cand + step implies !#[trigger] place_ok(
                    self.nodes@,
                    self.va_range,
                    *range,
                    alignment,
                    b,
                    size as int,
                ) by {
                    lemma_between_multiples(cand, alignment, b);
                }
                if step > u64::MAX - cand {
                    return None;
                }
                cand = cand + step;
                assert(cand % alignment == 0) by (nonlinear_arith)
                    requires
                        alignment > 0,
                        cand == (cand - step) + (alignment - (cand - step) % (alignment as int)),
                ;
            }
            if cand > highest || size > highest - cand {
                return None;
            }
            // Look for a reserved range that is in the way.
            let mut blocker: Option<u64> = None;
            let mut i: usize = 0;
            while i < self.nodes.len() && blocker.is_none()
                invariant
                    i <= self.nodes@.len(),
                    cand + size <= u64::MAX,
                    nodes_wf(self.nodes@, self.va_range),
                    blocker is None ==> forall|j: int|
                        0 <= j < i ==> !node_overlaps(#[trigger] self.nodes@[j], cand, size as int),
                    blocker matches Some(end) ==> end > cand && i < self.nodes@.len() && end
                        == self.nodes@[i as int].start + self.nodes@[i as int].size
                        && self.nodes@[i as int].start < cand + size,
                decreases self.nodes@.len() - i + (if blocker is None { 1int } else { 0int }),
            {
                let other = self.nodes[i];
                proof {
                    reveal(nodes_wf);
                }
                if cand < other.start + other.size && other.start < cand + size {
                    blocker = Some(other.start + other.size);
                } else {
                    i = i + 1;
                }
            }
            match blocker {
                None => {
                    return Some(cand);
                },
                Some(end) => {
                    assert forall|b: u64| cand <= b < end implies !#[trigger] place_ok(
                        self.nodes@,
                        self.va_range,
                        *range,
                        alignment,
                        b,
                        size as int,
                    ) by {
                        assert(node_overlaps(self.nodes@[i as int], b, size as int));
                    }
                    cand = end;
                },
            }
        }
    }

    /// Map a GEM object, by the pages that back it, into this address space
    /// at a free address in a given range.
    ///
    /// The mapping goes to the lowest place in `range`, see `is_first_fit`.
    /// `alignment` is the alignment of the address in bytes; zero asks for
    /// none.
    ///
    /// Fails with `ENOSPC`, changing nothing, exactly when there is no
    /// place. Fails with `EINVAL` or `EEXIST` as `map_at` does; the range
    /// is not reserved then, but the pages that could be mapped at the
    /// lowest place remain mapped.
    pub fn map_in_range(
        &mut self,
        size: u64,
        bo: u64,
        pages: &[u64],
        alignment: u64,
        range: Range<u64>,
        prot: u32,
        guard: bool,
    ) -> (r: Result<KernelMapping>)
        requires
            old(self).wf(),
        ensures
            final(self).wf(),
            final(self).same_config(old(self)),
            final(self).vas@ == old(self).vas@,
            r == Err::<KernelMapping, Error>(Error::ENOSPC) <==> no_place(
                old(self).nodes@,
                old(self).va_range,
                range,
                alignment,
                Self::spec_reserved(size, guard),
            ),
            r is Ok <==> exists|a: u64|
                #[trigger] is_first_fit(
                    old(self).nodes@,
                    old(self).va_range,
                    range,
                    alignment,
                    a,
                    Self::spec_reserved(size, guard),
                ) && old(self).spec_can_map_list(a, pages@, prot),
            r matches Ok(m) ==> {
                &&& is_first_fit(
                    old(self).nodes@,
                    old(self).va_range,
                    range,
                    alignment,
                    m.node.start,
                    Self::spec_reserved(size, guard),
                )
                &&& old(self).spec_node_fits(m.node.start, size, guard)
                &&& range.start <= m.node.start
                &&& m.node.start + m.node.size <= range.end
                &&& alignment != 0 ==> m.node.start % alignment == 0
                &&& old(self).spec_can_map_list(m.node.start, pages@, prot)
                &&& m.node == Self::spec_node(m.node.start, size, prot, Some(bo), guard)
                &&& m.vm_id == old(self).id
                &&& final(self).nodes@ == old(self).nodes@.push(m.node)
                &&& final(self).page_table@ == spec_map_list(
                    old(self).page_table@,
                    old(self).spec_map_iova(m.node.start),
                    pages@,
                    prot,
                )
            },
            r matches Err(e) ==> final(self).nodes@ == old(self).nodes@ && (e == Error::ENOSPC
                || e == Error::EINVAL || e == Error::EEXIST),
            r matches Err(e) ==> e == Error::ENOSPC ==> final(self).page_table@ == old(
                self,
            ).page_table@,
            r matches Err(e) ==> e != Error::ENOSPC ==> exists|a: u64, done: int|
                is_first_fit(
                    old(self).nodes@,
                    old(self).va_range,
                    range,
                    alignment,
                    a,
                    Self::spec_reserved(size, guard),
                ) && 0 <= done < pages@.len() && final(self).page_table@
                    == #[trigger] spec_map_list(
                    old(self).page_table@,
                    old(self).spec_map_iova(a),
                    pages@.subrange(0, done),
                    prot,
                ),
    {
        let extra: u64 = if guard {
            UAT_PGSZ
        } else {
            0
        };
        let ghost total = Self::spec_reserved(size, guard);
        if size > u64::MAX - extra {
            assert forall|b: u64| !#[trigger] place_ok(
                self.nodes@,
                self.va_range,
                range,
                alignment,
                b,
                total,
            ) by {}
            return Err(Error::ENOSPC);
        }
        let addr = match self.find_free(size + extra, alignment, &range) {
            Some(a) => a,
            None => {
                return Err(Error::ENOSPC);
            },
        };
        proof {
            // The lowest place is the only lowest place.
            assert forall|a: u64| #[trigger]
                is_first_fit(self.nodes@, self.va_range, range, alignment, a, total) implies a
                == addr by {
                if a < addr {
                    assert(!place_ok(self.nodes@, self.va_range, range, alignment, a, total));
                }
                if addr < a {
                    assert(!place_ok(self.nodes@, self.va_range, range, alignment, addr, total));
                }
            }
            assert(place_ok(self.nodes@, self.va_range, range, alignment, addr, total));
        }
        match self.map_at(addr, size, bo, pages, prot, guard) {
            Ok(m) => Ok(m),
            Err(e) => Err(e),
        }
    }

    /// What `unmap_overlaps` asks of the hardware for the bound ranges
    /// `vas` when the page table holds `table`: a warning for each page that
    /// is not mapped where a bound range is unmapped, and an invalidation
    /// of each range that is unmapped as a whole, if the address space has,
    /// or had, a context number.
    pub open spec fn spec_unmap_ops(
        &self,
        table: Map<u64, Pte>,
        vas: Seq<GpuVa>,
        start: u64,
        end: u64,
    ) -> Seq<HwOp>
        decreases vas.len(),
    {
        if vas.len() == 0 {
            Seq::empty()
        } else {
            let va = vas.last();
            let rest = self.spec_unmap_ops(table, vas.drop_last(), start, end);
            let before = spec_unmap_vas(table, vas.drop_last(), start, end);
            if va_overlaps(va, start, end) {
                let lo = if va.addr > start {
                    va.addr
                } else {
                    start
                };
                let hi = if va.addr + va.range < end {
                    (va.addr + va.range) as u64
                } else {
                    end
                };
                rest + spec_unmap_warnings(
                    spec_holes(before, lo, (hi - lo) / (UAT_PGSZ as int)) as nat,
                ) + (if va_inside(va, start, end) && self.spec_slot() is Some {
                    seq![
                        HwOp::TlbiRange {
                            asid: self.spec_slot()->0 as u8,
                            start: va.addr,
                            len: va.range,
                        },
                        HwOp::Sync,
                    ]
                } else {
                    Seq::empty()
                })
            } else {
                rest
            }
        }
    }

    /// Unmaps the parts of the bound ranges that lie in `start..end`. A
    /// range that lies in there as a whole is dropped and invalidated in the
    /// TLB; of any other the parts on either side stay bound.
    #[verifier::rlimit(60)]
    fn unmap_overlaps(&mut self, start: u64, end: u64, hw: &mut Vec<HwOp>)
        requires
            old(self).wf(),
            start % UAT_PGSZ == 0,
            end % UAT_PGSZ == 0,
            start <= end,
        ensures
            final(self).wf(),
            final(self).same_config(old(self)),
            final(self).nodes@ == old(self).nodes@,
            final(self).vas@ == spec_sm_unmap(old(self).vas@, start, end),
            final(self).page_table@ == spec_unmap_vas(
                old(self).page_table@,
                old(self).vas@,
                start,
                end,
            ),
            final(hw)@ == old(hw)@ + old(self).spec_unmap_ops(
                old(self).page_table@,
                old(self).vas@,
                start,
                end,
            ),
    {
        let mut out: Vec<GpuVa> = Vec::new();
        let ghost vas0 = self.vas@;
        let ghost table0 = self.page_table@;
        let n: usize = self.vas.len();
        let mut i: usize = 0;
        proof {
            reveal(vas_wf);
            assert(vas0.subrange(0, 0) =~= Seq::<GpuVa>::empty());
            assert(hw@ =~= old(hw)@ + Seq::<HwOp>::empty());
        }
        while i < n
            invariant
                i <= n,
                n == vas0.len(),
                start % UAT_PGSZ == 0,
                end % UAT_PGSZ == 0,
                start <= end,
                self.wf(),
                self.same_config(old(self)),
                self.nodes@ == old(self).nodes@,
                self.vas@ == vas0,
                vas0 == old(self).vas@,
                table0 == old(self).page_table@,
                out@ == spec_sm_unmap(vas0.subrange(0, i as int), start, end),
                forall|j: int|
                    0 <= j < out@.len() ==> va_wf(
                        #[trigger] out@[j],
                        self.gpuvm_range,
                        self.kernel_range,
                    ),
                self.page_table@ == spec_unmap_vas(table0, vas0.subrange(0, i as int), start, end),
                hw@ == old(hw)@ + old(self).spec_unmap_ops(
                    table0,
                    vas0.subrange(0, i as int),
                    start,
                    end,
                ),
            decreases n - i,
        {
            let va = self.vas[i];
            proof {
                reveal(vas_wf);
                assert(va_wf(vas0[i as int], self.gpuvm_range, self.kernel_range));
                let next = vas0.subrange(0, i + 1);
                assert(next.drop_last() =~= vas0.subrange(0, i as int));
                assert(next.last() == va);
                vstd::arithmetic::power2::lemma2_to64_rest();
            }
            let va_end: u64 = va.addr + va.range;
            let ghost hw_before = hw@;
            if va.addr < end && start < va_end {
                let lo: u64 = if va.addr > start {
                    va.addr
                } else {
                    start
                };
                let hi: u64 = if va_end < end {
                    va_end
                } else {
                    end
                };
                match self.unmap_pages(lo, UAT_PGSZ, (hi - lo) / UAT_PGSZ, hw) {
                    Ok(_) => {},
                    Err(_) => {
                        assert(false);
                    },
                }
                if va.addr >= start && va_end <= end {
                    // The whole range goes.
                    match self.slot() {
                        Some(asid) => {
                            hw.push(
                                HwOp::TlbiRange { asid: asid as u8, start: va.addr, len: va.range },
                            );
                            hw.push(HwOp::Sync);
                        },
                        None => {},
                    }
                } else {
                    // Only unmap the hole between what stays on either side.
                    if va.addr < start {
                        out.push(GpuVa { range: start - va.addr, ..va });
                    }
                    if va_end > end {
                        out.push(
                            GpuVa {
                                addr: end,
                                range: va_end - end,
                                offset: va.offset.wrapping_add(end - va.addr),
                                ..va
                            },
                        );
                    }
                }
            } else {
                out.push(va);
            }
            i = i + 1;
            proof {
                assert(out@ =~= spec_sm_unmap(vas0.subrange(0, i as int), start, end));
                assert(hw@ =~= old(hw)@ + old(self).spec_unmap_ops(
                    table0,
                    vas0.subrange(0, i as int),
                    start,
                    end,
                ));
            }
        }
        proof {
            assert(vas0.subrange(0, n as int) =~= vas0);
            reveal(vas_wf);
        }
        self.vas = out;
    }

    /// Whether the `size` bytes at `iova` are whole pages where buffer
    /// objects may be bound.
    pub open spec fn spec_bind_range_valid(&self, iova: u64, size: u64) -> bool {
        &&& iova % UAT_PGSZ == 0
        &&& size % UAT_PGSZ == 0
        &&& gpuvm_range_valid(self.gpuvm_range, self.kernel_range, iova, size as int)
    }

    /// Unmap everything in an address range.
    ///
    /// Of the bound ranges that reach into the range, the parts outside of
    /// it stay bound. Unmapping a range where nothing is bound is not an
    /// error.
    ///
    /// Fails with `EINVAL`, changing nothing, when the range is not made of
    /// whole pages or is not where buffer objects may be bound.
    pub fn unmap_range(&mut self, iova: u64, size: u64, hw: &mut Vec<HwOp>) -> (r: Result<()>)
        requires
            old(self).wf(),
        ensures
            final(self).wf(),
            final(self).same_config(old(self)),
            final(self).nodes@ == old(self).nodes@,
            r is Ok <==> old(self).spec_bind_range_valid(iova, size),
            r is Ok ==> {
                &&& final(self).vas@ == spec_sm_unmap(old(self).vas@, iova, (iova + size) as u64)
                &&& final(self).page_table@ == spec_unmap_vas(
                    old(self).page_table@,
                    old(self).vas@,
                    iova,
                    (iova + size) as u64,
                )
                &&& final(hw)@ == old(hw)@ + old(self).spec_unmap_ops(
                    old(self).page_table@,
                    old(self).vas@,
                    iova,
                    (iova + size) as u64,
                )
            },
            r matches Err(e) ==> e == Error::EINVAL && final(self).vas@ == old(self).vas@
                && final(hw)@ == old(hw)@ && final(self).page_table@ == old(self).page_table@,
    {
        if !self.bind_range_valid(iova, size) {
            return Err(Error::EINVAL);
        }
        self.unmap_overlaps(iova, iova + size, hw);
        Ok(())
    }

    /// Whether the user addresses below the kernel's part of the address
    /// space are a range that can be unmapped.
    pub open spec fn spec_below_kernel(&self) -> bool {
        self.kernel_range.start > crate::mmu::IOVA_USER_BASE && self.spec_bind_range_valid(
            crate::mmu::IOVA_USER_BASE,
            (self.kernel_range.start - crate::mmu::IOVA_USER_BASE) as u64,
        )
    }

    /// Whether the user addresses above the kernel's part of the address
    /// space are a range that can be unmapped.
    pub open spec fn spec_above_kernel(&self) -> bool {
        self.kernel_range.end < crate::mmu::IOVA_UNK_PAGE && self.spec_bind_range_valid(
            self.kernel_range.end,
            (crate::mmu::IOVA_UNK_PAGE - self.kernel_range.end) as u64,
        )
    }

    /// The ranges that stay bound when everything below the kernel's part
    /// of the address space is unmapped.
    pub open spec fn spec_vas_below_gone(&self) -> Seq<GpuVa> {
        if self.spec_below_kernel() {
            spec_sm_unmap(self.vas@, crate::mmu::IOVA_USER_BASE, self.kernel_range.start)
        } else {
            self.vas@
        }
    }

    /// The page table when everything below the kernel's part of the
    /// address space is unmapped.
    pub open spec fn spec_table_below_gone(&self) -> Map<u64, Pte> {
        if self.spec_below_kernel() {
            spec_unmap_vas(
                self.page_table@,
                self.vas@,
                crate::mmu::IOVA_USER_BASE,
                self.kernel_range.start,
            )
        } else {
            self.page_table@
        }
    }

    /// The ranges that stay bound when everything that userspace has bound
    /// is unmapped, see `unmap_all`.
    pub open spec fn spec_unmap_all_vas(&self) -> Seq<GpuVa> {
        if self.spec_above_kernel() {
            spec_sm_unmap(
                self.spec_vas_below_gone(),
                self.kernel_range.end,
                crate::mmu::IOVA_UNK_PAGE,
            )
        } else {
            self.spec_vas_below_gone()
        }
    }

    /// The page table when everything that userspace has bound is
    /// unmapped, see `unmap_all`.
    pub open spec fn spec_unmap_all_table(&self) -> Map<u64, Pte> {
        if self.spec_above_kernel() {
            spec_unmap_vas(
                self.spec_table_below_gone(),
                self.spec_vas_below_gone(),
                self.kernel_range.end,
                crate::mmu::IOVA_UNK_PAGE,
            )
        } else {
            self.spec_table_below_gone()
        }
    }

    /// What `unmap_all` asks of the hardware: what unmapping the user
    /// addresses below the kernel's part asks for, then what unmapping
    /// those above it asks for, see `unmap_range`.
    pub open spec fn spec_unmap_all_ops(&self) -> Seq<HwOp> {
        (if self.spec_below_kernel() {
            self.spec_unmap_ops(
                self.page_table@,
                self.vas@,
                crate::mmu::IOVA_USER_BASE,
                self.kernel_range.start,
            )
        } else {
            Seq::empty()
        }) + (if self.spec_above_kernel() {
            self.spec_unmap_ops(
                self.spec_table_below_gone(),
                self.spec_vas_below_gone(),
                self.kernel_range.end,
                crate::mmu::IOVA_UNK_PAGE,
            )
        } else {
            Seq::empty()
        })
    }

    /// Unmaps everything that userspace has bound: the user addresses on
    /// either side of the kernel's part of the address space.
    pub fn unmap_all(&mut self, hw: &mut Vec<HwOp>)
        requires
            old(self).wf(),
        ensures
            final(self).wf(),
            final(self).same_config(old(self)),
            final(self).nodes@ == old(self).nodes@,
            final(self).vas@ == old(self).spec_unmap_all_vas(),
            final(self).page_table@ == old(self).spec_unmap_all_table(),
            final(hw)@ == old(hw)@ + old(self).spec_unmap_all_ops(),
    {
        let start: u64 = self.kernel_range.start;
        let end: u64 = self.kernel_range.end;
        if start > crate::mmu::IOVA_USER_BASE {
            let _ = self.unmap_range(
                crate::mmu::IOVA_USER_BASE,
                start - crate::mmu::IOVA_USER_BASE,
                hw,
            );
        }
        let ghost below = hw@;
        assert(below =~= old(hw)@ + (if old(self).spec_below_kernel() {
            old(self).spec_unmap_ops(
                old(self).page_table@,
                old(self).vas@,
                crate::mmu::IOVA_USER_BASE,
                old(self).kernel_range.start,
            )
        } else {
            Seq::<HwOp>::empty()
        }));
        let ghost vm1_table = self.page_table@;
        let ghost vm1_vas = self.vas@;
        proof {
            lemma_unmap_ops_slot(
                self,
                old(self),
                vm1_table,
                vm1_vas,
                end,
                crate::mmu::IOVA_UNK_PAGE,
            );
        }
        if end < crate::mmu::IOVA_UNK_PAGE {
            let _ = self.unmap_range(end, crate::mmu::IOVA_UNK_PAGE - end, hw);
        }
        assert(hw@ =~= below + (if old(self).spec_above_kernel() {
            old(self).spec_unmap_ops(vm1_table, vm1_vas, end, crate::mmu::IOVA_UNK_PAGE)
        } else {
            Seq::<HwOp>::empty()
        }));
    }

    /// Checks that a range is made of whole pages where buffer objects may
    /// be bound.
    fn bind_range_valid(&self, iova: u64, size: u64) -> (r: bool)
        ensures
            r == self.spec_bind_range_valid(iova, size),
    {
        if iova % UAT_PGSZ != 0 || size % UAT_PGSZ != 0 {
            return false;
        }
        let end = match iova.checked_add(size) {
            Some(e) => e,
            None => {
                return false;
            },
        };
        if iova < self.gpuvm_range.start || end > self.gpuvm_range.end {
            return false;
        }
        !(self.kernel_range.start < self.kernel_range.end && iova < self.kernel_range.end
            && self.kernel_range.start < end)
    }

    /// The pages of an object that a binding of `size` bytes from `offset`
    /// on maps: those that the object has from there on.
    pub open spec fn spec_bound_pages(pages: Seq<u64>, size: u64, offset: u64) -> Seq<u64> {
        let first = offset / UAT_PGSZ;
        if first >= pages.len() {
            Seq::empty()
        } else {
            let count = if size / UAT_PGSZ < pages.len() - first {
                (size / UAT_PGSZ) as int
            } else {
                pages.len() - first
            };
            pages.subrange(first as int, first + count)
        }
    }

    /// Map a range of a GEM object, backed by `pages`, into this address
    /// space.
    ///
    /// The `size` bytes of the object from `offset` on are bound at `addr`.
    /// What was bound in that range before is unmapped first, as by
    /// `unmap_range`.
    ///
    /// A binding that fails while the pages are mapped leaves the pages
    /// mapped that come before the one that cannot be mapped.
    ///
    /// Fails with `EINVAL`, changing nothing, when `addr`, `size` or
    /// `offset` is not a multiple of the page size, when `size` is zero, or
    /// when the range is not where buffer objects may be bound. Fails with
    /// `EINVAL` or `EEXIST` as `map_list` does; what was bound in the range
    /// before is unmapped then, and the pages that could be mapped remain
    /// mapped.
    pub fn bind_object(
        &mut self,
        bo: u64,
        pages: &[u64],
        addr: u64,
        size: u64,
        offset: u64,
        prot: u32,
        hw: &mut Vec<HwOp>,
    ) -> (r: Result<()>)
        requires
            old(self).wf(),
        ensures
            final(self).wf(),
            final(self).same_config(old(self)),
            final(self).nodes@ == old(self).nodes@,
            r is Ok <==> old(self).spec_can_bind(pages@, addr, size, offset, prot),
            !old(self).spec_bind_valid(addr, size, offset) ==> r == Err::<(), Error>(Error::EINVAL)
                && final(self).vas@ == old(self).vas@ && final(hw)@ == old(hw)@
                && final(self).page_table@ == old(self).page_table@,
            old(self).spec_bind_valid(addr, size, offset) ==> final(hw)@ == old(hw)@ + old(
                self,
            ).spec_unmap_ops(old(self).page_table@, old(self).vas@, addr, (addr + size) as u64),
            r is Ok ==> {
                &&& final(self).vas@ == spec_sm_unmap(
                    old(self).vas@,
                    addr,
                    (addr + size) as u64,
                ).push(GpuVa { addr, range: size, bo, offset, prot })
                &&& final(self).page_table@ == spec_map_list(
                    spec_unmap_vas(
                        old(self).page_table@,
                        old(self).vas@,
                        addr,
                        (addr + size) as u64,
                    ),
                    addr,
                    Self::spec_bound_pages(pages@, size, offset),
                    prot,
                )
            },
            r matches Err(e) ==> old(self).spec_bind_valid(addr, size, offset) ==> {
                &&& (e == Error::EINVAL || e == Error::EEXIST)
                &&& final(self).vas@ == spec_sm_unmap(old(self).vas@, addr, (addr + size) as u64)
                &&& exists|done: int|
                    0 <= done < Self::spec_bound_pages(pages@, size, offset).len() && final(self).page_table@ == #[trigger] spec_map_list(
                        spec_unmap_vas(
                            old(self).page_table@,
                            old(self).vas@,
                            addr,
                            (addr + size) as u64,
                        ),
                        addr,
                        Self::spec_bound_pages(pages@, size, offset).subrange(0, done),
                        prot,
                    )
            },
    {
        if offset % UAT_PGSZ != 0 || size == 0 || !self.bind_range_valid(addr, size) {
            return Err(Error::EINVAL);
        }
        self.unmap_overlaps(addr, addr + size, hw);
        let first: u64 = offset / UAT_PGSZ;
        let total: usize = pages.len();
        let (from, to): (usize, usize) = if first >= total as u64 {
            (0, 0)
        } else {
            let avail: u64 = total as u64 - first;
            let count: u64 = if size / UAT_PGSZ < avail {
                size / UAT_PGSZ
            } else {
                avail
            };
            (first as usize, (first + count) as usize)
        };
        let bound = vstd::slice::slice_subrange(pages, from, to);
        proof {
            assert(bound@ =~= Self::spec_bound_pages(pages@, size, offset));
            assert(!self.is_kernel) by {
                reveal(vas_wf);
            }
        }
        let ghost unmapped = self.page_table@;
        match self.map_list(addr, bound, prot) {
            Ok(()) => {},
            Err(e) => {
                proof {
                    let done = choose|done: int|
                        0 <= done < bound@.len() && self.page_table@ == #[trigger] spec_map_list(
                            unmapped,
                            addr,
                            bound@.subrange(0, done),
                            prot,
                        );
                    assert(self.page_table@ == spec_map_list(
                        spec_unmap_vas(
                            old(self).page_table@,
                            old(self).vas@,
                            addr,
                            (addr + size) as u64,
                        ),
                        addr,
                        Self::spec_bound_pages(pages@, size, offset).subrange(0, done),
                        prot,
                    ));
                }
                return Err(e);
            },
        }
        let ghost trimmed = self.vas@;
        self.vas.push(GpuVa { addr, range: size, bo, offset, prot });
        proof {
            reveal(vas_wf);
            assert forall|j: int| 0 <= j < self.vas@.len() implies va_wf(
                #[trigger] self.vas@[j],
                self.gpuvm_range,
                self.kernel_range,
            ) by {
                if j < trimmed.len() {
                    assert(self.vas@[j] == trimmed[j]);
                }
            }
        }
        Ok(())
    }

    /// Whether the arguments of a binding are whole pages where buffer
    /// objects may be bound.
    pub open spec fn spec_bind_valid(&self, addr: u64, size: u64, offset: u64) -> bool {
        offset % UAT_PGSZ == 0 && size > 0 && self.spec_bind_range_valid(addr, size)
    }

    /// Whether a binding goes through: its arguments are valid and, once
    /// what was bound in the range is unmapped, the pages of the object can
    /// be mapped there.
    pub open spec fn spec_can_bind(
        &self,
        pages: Seq<u64>,
        addr: u64,
        size: u64,
        offset: u64,
        prot: u32,
    ) -> bool {
        &&& self.spec_bind_valid(addr, size, offset)
        &&& self.spec_can_map_list_on(
            spec_unmap_vas(self.page_table@, self.vas@, addr, (addr + size) as u64),
            addr,
            Self::spec_bound_pages(pages, size, offset),
            prot,
        )
    }

    /// What `drop_mappings` asks of the hardware for the bound ranges `vas`
    /// when the page table holds `table`: for each range of the object, a
    /// warning for each of its pages that is not mapped, and an
    /// invalidation of the range if the address space has, or had, a
    /// context number.
    pub open spec fn spec_bo_ops(&self, table: Map<u64, Pte>, vas: Seq<GpuVa>, bo: u64) -> Seq<HwOp>
        decreases vas.len(),
    {
        if vas.len() == 0 {
            Seq::empty()
        } else {
            let va = vas.last();
            let rest = self.spec_bo_ops(table, vas.drop_last(), bo);
            let before = spec_unmap_bo(table, vas.drop_last(), bo);
            if va.bo == bo {
                rest + spec_unmap_warnings(
                    spec_holes(before, va.addr, (va.range / UAT_PGSZ) as int) as nat,
                ) + (if self.spec_slot() is Some {
                    seq![
                        HwOp::TlbiRange {
                            asid: self.spec_slot()->0 as u8,
                            start: va.addr,
                            len: va.range,
                        },
                        HwOp::Sync,
                    ]
                } else {
                    Seq::empty()
                })
            } else {
                rest
            }
        }
    }

    /// Drop mappings for a given bo: every range of the object `bo` that is
    /// bound in this address space is unmapped and invalidated in the TLB.
    pub fn drop_mappings(&mut self, bo: u64, hw: &mut Vec<HwOp>)
        requires
            old(self).wf(),
        ensures
            final(self).wf(),
            final(self).same_config(old(self)),
            final(self).nodes@ == old(self).nodes@,
            final(self).vas@ == spec_without_bo(old(self).vas@, bo),
            final(self).page_table@ == spec_unmap_bo(old(self).page_table@, old(self).vas@, bo),
            final(hw)@ == old(hw)@ + old(self).spec_bo_ops(
                old(self).page_table@,
                old(self).vas@,
                bo,
            ),
    {
        let mut out: Vec<GpuVa> = Vec::new();
        let ghost vas0 = self.vas@;
        let ghost table0 = self.page_table@;
        let n: usize = self.vas.len();
        let mut i: usize = 0;
        proof {
            reveal(vas_wf);
            assert(vas0.subrange(0, 0) =~= Seq::<GpuVa>::empty());
            assert(hw@ =~= old(hw)@ + Seq::<HwOp>::empty());
        }
        while i < n
            invariant
                i <= n,
                n == vas0.len(),
                self.wf(),
                self.same_config(old(self)),
                self.nodes@ == old(self).nodes@,
                self.vas@ == vas0,
                vas0 == old(self).vas@,
                table0 == old(self).page_table@,
                out@ == spec_without_bo(vas0.subrange(0, i as int), bo),
                forall|j: int|
                    0 <= j < out@.len() ==> va_wf(
                        #[trigger] out@[j],
                        self.gpuvm_range,
                        self.kernel_range,
                    ),
                self.page_table@ == spec_unmap_bo(table0, vas0.subrange(0, i as int), bo),
                hw@ == old(hw)@ + old(self).spec_bo_ops(table0, vas0.subrange(0, i as int), bo),
            decreases n - i,
        {
            let va = self.vas[i];
            proof {
                reveal(vas_wf);
                assert(va_wf(vas0[i as int], self.gpuvm_range, self.kernel_range));
                let next = vas0.subrange(0, i + 1);
                assert(next.drop_last() =~= vas0.subrange(0, i as int));
                assert(next.last() == va);
                vstd::arithmetic::power2::lemma2_to64_rest();
            }
            if va.bo == bo {
                match self.unmap_pages(va.addr, UAT_PGSZ, va.range / UAT_PGSZ, hw) {
                    Ok(_) => {},
                    Err(_) => {
                        assert(false);
                    },
                }
                match self.slot() {
                    Some(asid) => {
                        hw.push(HwOp::TlbiRange { asid: asid as u8, start: va.addr, len: va.range });
                        hw.push(HwOp::Sync);
                    },
                    None => {},
                }
            } else {
                out.push(va);
            }
            i = i + 1;
            proof {
                assert(out@ =~= spec_without_bo(vas0.subrange(0, i as int), bo));
                assert(hw@ =~= old(hw)@ + old(self).spec_bo_ops(
                    table0,
                    vas0.subrange(0, i as int),
                    bo,
                ));
            }
        }
        proof {
            assert(vas0.subrange(0, n as int) =~= vas0);
            reveal(vas_wf);
        }
        self.vas = out;
    }
}

/// What unmapping a range asks of the hardware depends on the address space
/// only by its context number.
pub proof fn lemma_unmap_ops_slot(
    a: &Vm,
    b: &Vm,
    table: Map<u64, Pte>,
    vas: Seq<GpuVa>,
    start: u64,
    end: u64,
)
    requires
        a.spec_slot() == b.spec_slot(),
    ensures
        a.spec_unmap_ops(table, vas, start, end) == b.spec_unmap_ops(table, vas, start, end),
    decreases vas.len(),
{
    if vas.len() > 0 {
        lemma_unmap_ops_slot(a, b, table, vas.drop_last(), start, end);
    }
}

/// What dropping the mappings of an object asks of the hardware depends on
/// the address space only by its context number.
pub proof fn lemma_bo_ops_slot(a: &Vm, b: &Vm, table: Map<u64, Pte>, vas: Seq<GpuVa>, bo: u64)
    requires
        a.spec_slot() == b.spec_slot(),
    ensures
        a.spec_bo_ops(table, vas, bo) == b.spec_bo_ops(table, vas, bo),
    decreases vas.len(),
{
    if vas.len() > 0 {
        lemma_bo_ops_slot(a, b, table, vas.drop_last(), bo);
    }
}

/// What unmapping everything asks of the hardware, and what it leaves,
/// depends on the address space only by what is mapped in it and by its
/// context number.
pub proof fn lemma_unmap_all_same(a: &Vm, b: &Vm)
    requires
        a.same_but_binding(b),
        a.spec_slot() == b.spec_slot(),
    ensures
        a.spec_unmap_all_ops() == b.spec_unmap_all_ops(),
        a.spec_unmap_all_table() == b.spec_unmap_all_table(),
        a.spec_unmap_all_vas() == b.spec_unmap_all_vas(),
{
    lemma_unmap_ops_slot(
        a,
        b,
        a.page_table@,
        a.vas@,
        crate::mmu::IOVA_USER_BASE,
        a.kernel_range.start,
    );
    lemma_unmap_ops_slot(
        a,
        b,
        a.spec_table_below_gone(),
        a.spec_vas_below_gone(),
        a.kernel_range.end,
        crate::mmu::IOVA_UNK_PAGE,
    );
}

/// The table `m` with the pages of `pages` mapped one after the other from
/// `iova` on.
pub open spec fn spec_map_list(m: Map<u64, Pte>, iova: u64, pages: Seq<u64>, prot: u32) -> Map<
    u64,
    Pte,
> {
    Map::new(
        |k: u64|
            m.contains_key(k) || (in_pages(k, iova, pages.len() as int) && (k - iova) % (
            UAT_PGSZ as int) == 0),
        |k: u64|
            if in_pages(k, iova, pages.len() as int) && (k - iova) % (UAT_PGSZ as int) == 0 {
                Pte { paddr: pages[(k - iova) / (UAT_PGSZ as int)], prot }
            } else {
                m[k]
            },
    )
}


/// `n` warnings that the page table found nothing to unmap.
pub open spec fn spec_unmap_warnings(n: nat) -> Seq<HwOp> {
    Seq::new(n, |i: int| HwOp::Warn { what: Warning::UnmapFoundNothing })
}

/// Whether the bound range `va` has an address in `start..end`.
pub open spec fn va_overlaps(va: GpuVa, start: u64, end: u64) -> bool {
    va.addr < end && start < va.addr + va.range
}

/// Whether the bound range `va` lies in `start..end` as a whole.
pub open spec fn va_inside(va: GpuVa, start: u64, end: u64) -> bool {
    va_overlaps(va, start, end) && start <= va.addr && va.addr + va.range <= end
}

/// What stays bound of `va` when `start..end` is unmapped: the part below
/// `start` and the part from `end` on, which maps the object from where the
/// part begins.
pub open spec fn spec_trim(va: GpuVa, start: u64, end: u64) -> Seq<GpuVa> {
    if !va_overlaps(va, start, end) {
        seq![va]
    } else {
        (if va.addr < start {
            seq![GpuVa { range: (start - va.addr) as u64, ..va }]
        } else {
            Seq::empty()
        }) + (if va.addr + va.range > end {
            seq![
                GpuVa {
                    addr: end,
                    range: (va.addr + va.range - end) as u64,
                    offset: va.offset.wrapping_add((end - va.addr) as u64),
                    ..va
                },
            ]
        } else {
            Seq::empty()
        })
    }
}

/// The bound ranges after `start..end` was unmapped.
pub open spec fn spec_sm_unmap(vas: Seq<GpuVa>, start: u64, end: u64) -> Seq<GpuVa>
    decreases vas.len(),
{
    if vas.len() == 0 {
        Seq::empty()
    } else {
        spec_sm_unmap(vas.drop_last(), start, end) + spec_trim(vas.last(), start, end)
    }
}

/// The page table `m` after the parts of the bound ranges `vas` that lie in
/// `start..end` were unmapped.
pub open spec fn spec_unmap_vas(m: Map<u64, Pte>, vas: Seq<GpuVa>, start: u64, end: u64) -> Map<
    u64,
    Pte,
>
    decreases vas.len(),
{
    if vas.len() == 0 {
        m
    } else {
        let rest = spec_unmap_vas(m, vas.drop_last(), start, end);
        let va = vas.last();
        if va_overlaps(va, start, end) {
            let lo = if va.addr > start {
                va.addr
            } else {
                start
            };
            let hi = if va.addr + va.range < end {
                (va.addr + va.range) as u64
            } else {
                end
            };
            spec_unmap(rest, lo, (hi - lo) / (UAT_PGSZ as int))
        } else {
            rest
        }
    }
}


/// The bound ranges `vas` without those of the object `bo`.
pub open spec fn spec_without_bo(vas: Seq<GpuVa>, bo: u64) -> Seq<GpuVa>
    decreases vas.len(),
{
    if vas.len() == 0 {
        Seq::empty()
    } else if vas.last().bo == bo {
        spec_without_bo(vas.drop_last(), bo)
    } else {
        spec_without_bo(vas.drop_last(), bo).push(vas.last())
    }
}

/// The page table `m` after the ranges of the object `bo` among `vas` were
/// unmapped.
pub open spec fn spec_unmap_bo(m: Map<u64, Pte>, vas: Seq<GpuVa>, bo: u64) -> Map<u64, Pte>
    decreases vas.len(),
{
    if vas.len() == 0 {
        m
    } else {
        let rest = spec_unmap_bo(m, vas.drop_last(), bo);
        let va = vas.last();
        if va.bo == bo {
            spec_unmap(rest, va.addr, (va.range / UAT_PGSZ) as int)
        } else {
            rest
        }
    }
}


/// After `n` pages from `iova` on are unmapped, none of their addresses is
/// mapped, whatever was mapped there.
pub proof fn lemma_unmapped_range_empty(m: Map<u64, Pte>, iova: u64, n: int)
    ensures
        pages_free(spec_unmap(m, iova, n), iova, n),
{
}

/// Mapping pages at a free address and taking the mapping down again
/// leaves no address of the mapping mapped, and leaves every other address
/// as it was.
pub proof fn lemma_map_then_drop(m: Map<u64, Pte>, iova: u64, pages: Seq<u64>, prot: u32)
    requires
        pages_free(m, iova, pages.len() as int),
    ensures
        pages_free(spec_unmap(spec_map_list(m, iova, pages, prot), iova, pages.len() as int), iova,
            pages.len() as int),
        spec_unmap(spec_map_list(m, iova, pages, prot), iova, pages.len() as int) == m,
{
    let out = spec_unmap(spec_map_list(m, iova, pages, prot), iova, pages.len() as int);
    assert forall|k: u64| out.contains_key(k) == m.contains_key(k) by {
        if in_pages(k, iova, pages.len() as int) {
            assert(!m.contains_key(k));
        }
    }
    assert(out =~= m);
}

} // verus!
