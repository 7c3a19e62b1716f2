//! GPU UAT (MMU) management.
//!
//! AGX GPUs use an MMU called the UAT. This module manages the global MMU
//! structures: the handoff region that coordinates address-space changes
//! with the firmware, the TTBAT that points to the active GPU address
//! spaces, and the operations of one address space (`Vm`) that map and unmap
//! buffer objects.

pub mod handoff;
pub mod pgtable;
pub mod uat;
pub mod vm;

use core::ops::Range;
use vstd::prelude::*;

verus! {

/// Number of supported context entries in the TTBAT.
pub const UAT_NUM_CTX: usize = 64;

/// First context available for users.
pub const UAT_USER_CTX_START: usize = 1;

/// Number of available user contexts.
pub const UAT_USER_CTX: usize = 63;

/// Number of bits in a page offset.
pub const UAT_PGBIT: usize = 14;

/// UAT page size.
pub const UAT_PGSZ: u64 = 0x4000;

/// UAT page offset mask.
pub const UAT_PGMSK: u64 = 0x3fff;

/// Number of PTEs per page.
pub const UAT_NPTE: usize = 2048;

/// UAT input address space (user).
pub const UAT_IAS: usize = 39;

/// "Fake" kernel UAT input address space (one page level lower).
pub const UAT_IAS_KERN: usize = 36;

/// Lower/user base VA.
pub const IOVA_USER_BASE: u64 = 0x4000;

/// Lower/user top VA.
pub const IOVA_USER_TOP: u64 = 0x80_0000_0000;

/// Driver-managed kernel base VA.
pub const IOVA_KERN_BASE: u64 = 0xffffffa000000000;

/// Driver-managed kernel top VA.
pub const IOVA_KERN_TOP: u64 = 0xffffffb000000000;

/// Address of a special dummy page, two pages below the top of the user
/// range.
pub const IOVA_UNK_PAGE: u64 = 0x7f_ffff_8000;

/// Translation table base register: the entry is valid.
pub const TTBR_VALID: u64 = 0x1;

/// Translation table base register: position of the context number.
pub const TTBR_ASID_SHIFT: usize = 48;

/// Page table entry type: the entry points to a table.
pub const PTE_TABLE: u64 = 0x3;

/// Protection: the mapping can be read.
pub const PROT_READ: u32 = 0x1;

/// Protection: the mapping can be written.
pub const PROT_WRITE: u32 = 0x2;

/// Protection: the mapping is cache coherent. For the UAT this means
/// uncached, since uncached mappings from the coprocessor side are coherent
/// with the CPU cache. Without this flag a mapping is cached and not
/// coherent.
pub const PROT_CACHE: u32 = 0x4;

/// Protection: the mapping cannot be executed from.
pub const PROT_NOEXEC: u32 = 0x8;

/// Protection: the mapping is device memory.
pub const PROT_MMIO: u32 = 0x10;

/// Protection: the mapping is for privileged accesses only.
pub const PROT_PRIV: u32 = 0x20;

/// Firmware MMIO R/W: `PRIV | READ | WRITE | CACHE | MMIO`.
pub const PROT_FW_MMIO_RW: u32 = 0x37;

/// Firmware MMIO R/O: `PRIV | READ | CACHE | MMIO`.
pub const PROT_FW_MMIO_RO: u32 = 0x35;

/// Firmware shared (uncached) RW: `PRIV | READ | WRITE | CACHE`.
pub const PROT_FW_SHARED_RW: u32 = 0x27;

/// Firmware shared (uncached) RO: `PRIV | READ | CACHE`.
pub const PROT_FW_SHARED_RO: u32 = 0x25;

/// Firmware private (cached) RW: `PRIV | READ | WRITE`.
pub const PROT_FW_PRIV_RW: u32 = 0x23;

/// Firmware/GPU shared (uncached) RW: `READ | WRITE | CACHE`.
pub const PROT_GPU_FW_SHARED_RW: u32 = 0x7;

/// Firmware/GPU shared (private) RW: `READ | WRITE`.
pub const PROT_GPU_FW_PRIV_RW: u32 = 0x3;

/// Firmware-RW/GPU-RO shared (private) RW: `PRIV | WRITE`.
pub const PROT_GPU_RO_FW_PRIV_RW: u32 = 0x22;

/// GPU shared/coherent RW: `READ | WRITE | CACHE | NOEXEC`.
pub const PROT_GPU_SHARED_RW: u32 = 0xf;

/// GPU shared/coherent RO: `READ | CACHE | NOEXEC`.
pub const PROT_GPU_SHARED_RO: u32 = 0xd;

/// GPU shared/coherent WO: `WRITE | CACHE | NOEXEC`.
pub const PROT_GPU_SHARED_WO: u32 = 0xe;

/// The named protection types are the combinations of flags that their
/// names say.
pub proof fn lemma_prot_types()
    ensures
        PROT_FW_MMIO_RW == PROT_PRIV | PROT_READ | PROT_WRITE | PROT_CACHE | PROT_MMIO,
        PROT_FW_MMIO_RO == PROT_PRIV | PROT_READ | PROT_CACHE | PROT_MMIO,
        PROT_FW_SHARED_RW == PROT_PRIV | PROT_READ | PROT_WRITE | PROT_CACHE,
        PROT_FW_SHARED_RO == PROT_PRIV | PROT_READ | PROT_CACHE,
        PROT_FW_PRIV_RW == PROT_PRIV | PROT_READ | PROT_WRITE,
        PROT_GPU_FW_SHARED_RW == PROT_READ | PROT_WRITE | PROT_CACHE,
        PROT_GPU_FW_PRIV_RW == PROT_READ | PROT_WRITE,
        PROT_GPU_RO_FW_PRIV_RW == PROT_PRIV | PROT_WRITE,
        PROT_GPU_SHARED_RW == PROT_READ | PROT_WRITE | PROT_CACHE | PROT_NOEXEC,
        PROT_GPU_SHARED_RO == PROT_READ | PROT_CACHE | PROT_NOEXEC,
        PROT_GPU_SHARED_WO == PROT_WRITE | PROT_CACHE | PROT_NOEXEC,
{
    assert(0x37u32 == 0x20u32 | 0x1u32 | 0x2u32 | 0x4u32 | 0x10u32 && 0x35u32 == 0x20u32 | 0x1u32
        | 0x4u32 | 0x10u32 && 0x27u32 == 0x20u32 | 0x1u32 | 0x2u32 | 0x4u32 && 0x25u32 == 0x20u32
        | 0x1u32 | 0x4u32 && 0x23u32 == 0x20u32 | 0x1u32 | 0x2u32 && 0x7u32 == 0x1u32 | 0x2u32
        | 0x4u32 && 0x3u32 == 0x1u32 | 0x2u32 && 0x22u32 == 0x20u32 | 0x2u32 && 0xfu32 == 0x1u32
        | 0x2u32 | 0x4u32 | 0x8u32 && 0xdu32 == 0x1u32 | 0x4u32 | 0x8u32 && 0xeu32 == 0x2u32
        | 0x4u32 | 0x8u32) by (bit_vector);
}

/// Lower/user VA range.
pub open spec fn spec_iova_user_range() -> Range<u64> {
    Range { start: IOVA_USER_BASE, end: IOVA_USER_TOP }
}

/// Driver-managed kernel VA range.
pub open spec fn spec_iova_kern_range() -> Range<u64> {
    Range { start: IOVA_KERN_BASE, end: IOVA_KERN_TOP }
}

/// User VA range excluding the unk page.
pub open spec fn spec_iova_user_usable_range() -> Range<u64> {
    Range { start: IOVA_USER_BASE, end: IOVA_UNK_PAGE }
}

/// Returns the lower/user VA range.
pub fn iova_user_range() -> (r: Range<u64>)
    ensures
        r == spec_iova_user_range(),
{
    Range { start: IOVA_USER_BASE, end: IOVA_USER_TOP }
}

/// Returns the driver-managed kernel VA range.
pub fn iova_kern_range() -> (r: Range<u64>)
    ensures
        r == spec_iova_kern_range(),
{
    Range { start: IOVA_KERN_BASE, end: IOVA_KERN_TOP }
}

/// Returns the user VA range excluding the unk page.
pub fn iova_user_usable_range() -> (r: Range<u64>)
    ensures
        r == spec_iova_user_usable_range(),
{
    Range { start: IOVA_USER_BASE, end: IOVA_UNK_PAGE }
}

/// Something that the driver asks of the hardware or of the firmware while
/// it changes an address space. The operations of this module list what they
/// ask for, in order; the embedding carries it out.
#[derive(Clone, Copy, Debug, PartialEq, Eq, Structural)]
pub enum HwOp {
    /// Take the handoff lock against the firmware.
    HandoffLock,
    /// Give the handoff lock back.
    HandoffUnlock,
    /// Write both base registers of a TTBAT slot.
    WriteTtb { slot: u32, ttb0: u64, ttb1: u64 },
    /// Write an entry of the root of the kernel's page table.
    WriteKernelPte { index: u32, pte: u64 },
    /// Invalidate all TLB entries of an address space.
    TlbiAsid { asid: u8 },
    /// Invalidate the TLB entries of an address range of an address space.
    TlbiRange { asid: u8, start: u64, len: u64 },
    /// Invalidate all TLB entries.
    TlbiAll,
    /// Wait for invalidations to complete.
    Sync,
    /// Ask the firmware to flush an address range from the coprocessor's
    /// caches, through the flush slot `slot`.
    FwFlush { slot: u32, iova: u64, size: u64, page_count: u16 },
    /// Report a condition that should not arise.
    Warn { what: Warning },
}

/// Conditions that the driver reports but carries on from.
#[derive(Clone, Copy, Debug, PartialEq, Eq, Structural)]
pub enum Warning {
    /// The firmware is using a TTBAT slot that is set up anew, or that was
    /// to be cleared and is left as it is.
    SlotInUse,
    /// The page table found nothing to unmap where something was expected.
    UnmapFoundNothing,
    /// An unmap on behalf of a remap failed.
    UnmapFailed,
    /// A remap as uncached failed.
    RemapFailed,
    /// A flush covers more pages than the firmware interface can name.
    FlushTooBig,
    /// A flush slot was not idle when a flush began.
    FlushStateNotIdle,
    /// A flush slot did not report completion when a flush ended.
    FlushNotDone,
}

} // verus!
