//! File implementation, which represents a single DRM client.
//!
//! This is in charge of managing the resources associated with one GPU
//! client, including an arbitrary number of submission queues and address
//! spaces, and reporting hardware/driver information to userspace and
//! accepting submissions.

use crate::buffer::PAGE_SIZE;
use crate::error::{Error, Result};
use crate::gem::{
    new_kernel_object, new_object, Object, ASAHI_GEM_VM_PRIVATE, ASAHI_GEM_WRITEBACK,
};
use crate::heap::{HeapAllocator, HeapConfig};
use crate::mmu::uat::{
    spec_drop_ops_on, spec_ttbs_after_drop_on, SlotTtbs, Uat, VmBind, MAX_TTB,
};
use crate::mmu::vm::{KernelMapping, Vm};
use crate::mmu::{
    HwOp, IOVA_UNK_PAGE, IOVA_USER_BASE, PROT_GPU_FW_PRIV_RW,
    PROT_GPU_SHARED_RO, PROT_GPU_SHARED_RW, PROT_GPU_SHARED_WO, UAT_PGSZ,
};
use crate::util::{align, align_down};
use crate::queue::common::MAX_ATTACHMENTS;
use crate::queue::{
    caps_valid, parse_commands, spec_command, spec_submit_state, Queue, QueueResources,
    RenderPayload, Submission, COMMAND_STRIDE, MAX_COMMANDS_IN_FLIGHT,
    MAX_COMMANDS_PER_SUBMISSION,
};
use crate::sync::{spec_sync_prefix, SyncItem, SyncObj, SYNC_STRIDE};
use crate::wire::{push_u32, push_u64, spec_u32_bytes, spec_u64_bytes};
use crate::xarray::IdTable;
use core::ops::Range;
use vstd::prelude::*;

verus! {

/// Version of the unstable userspace interface.
pub const DRM_ASAHI_UNSTABLE_UABI_VERSION: u32 = 10011;

/// Largest number of clusters that the parameters have room for.
pub const DRM_ASAHI_MAX_CLUSTERS: usize = 32;

/// Minimum reserved AS for kernel mappings.
pub const VM_KERNEL_MIN_SIZE: u64 = 0x20000000;

/// Compatible feature: faults are reported to userspace without killing the
/// context.
pub const FEAT_SOFT_FAULTS: u64 = 0x1;

/// Value of the fault control setting that makes faults soft.
pub const FAULT_CONTROL_SOFT: u32 = 0xb;

/// Size in bytes of the global parameters.
pub const PARAMS_SIZE: usize = 424;

/// What the GPU manager knows of the hardware, the firmware and the
/// driver.
pub struct GpuInfo {
    /// Whether the firmware has crashed.
    pub crashed: bool,
    pub feat_compat: u64,
    pub feat_incompat: u64,
    pub gpu_generation: u32,
    pub gpu_variant: u32,
    pub gpu_revision: u32,
    pub chip_id: u32,
    pub num_dies: u32,
    pub num_clusters_total: u32,
    pub num_cores_per_cluster: u32,
    pub num_frags_per_cluster: u32,
    pub num_gps_per_cluster: u32,
    pub num_cores_total_active: u32,
    /// Mask of the active cores of each cluster.
    pub core_masks: Vec<u32>,
    pub timer_frequency_hz: u32,
    pub min_frequency_khz: u32,
    pub max_frequency_khz: u32,
    pub max_power_mw: u32,
    /// Size in bytes of the result record of a render command.
    pub result_render_size: u32,
    /// Size in bytes of the result record of a compute command.
    pub result_compute_size: u32,
    /// Version of the firmware, most significant part first.
    pub firmware_version: Vec<u32>,
    /// The fault control setting of the driver.
    pub fault_control: u32,
}

/// Arguments of the `GET_PARAMS` ioctl.
#[derive(Clone, Copy, Debug, PartialEq, Eq, Structural)]
pub struct GetParams {
    pub extensions: u64,
    pub param_group: u32,
    pub pad: u32,
    /// Userspace address that the parameters go to.
    pub pointer: u64,
    /// Number of bytes that userspace has room for.
    pub size: u64,
}

/// The compatible features that are reported: those of the hardware, and
/// soft faults if the fault control setting asks for them.
pub open spec fn spec_feat_compat(gpu: GpuInfo) -> u64 {
    if gpu.fault_control == FAULT_CONTROL_SOFT {
        gpu.feat_compat | FEAT_SOFT_FAULTS
    } else {
        gpu.feat_compat
    }
}

/// The core mask reported for cluster `i`.
pub open spec fn spec_core_mask(gpu: GpuInfo, i: int) -> u64 {
    if i < gpu.core_masks@.len() {
        gpu.core_masks@[i] as u64
    } else {
        0
    }
}

/// The bytes of the first `n` core masks.
pub open spec fn spec_core_mask_bytes(gpu: GpuInfo, n: int) -> Seq<u8>
    decreases n,
{
    if n <= 0 {
        Seq::empty()
    } else {
        spec_core_mask_bytes(gpu, n - 1) + spec_u64_bytes(spec_core_mask(gpu, n - 1))
    }
}

/// Part `i` of the firmware version that is reported.
pub open spec fn spec_fw_version(gpu: GpuInfo, i: int) -> u32 {
    if i < 3 && i < gpu.firmware_version@.len() {
        gpu.firmware_version@[i]
    } else {
        0
    }
}

/// The first part of the global parameters: identification of the
/// interface and the GPU, and the numbers of its parts.
pub open spec fn spec_params_head(gpu: GpuInfo) -> Seq<u8> {
    Seq::<u8>::empty() + spec_u32_bytes(DRM_ASAHI_UNSTABLE_UABI_VERSION) + spec_u32_bytes(0)
        + spec_u64_bytes(spec_feat_compat(gpu)) + spec_u64_bytes(gpu.feat_incompat)
        + spec_u32_bytes(gpu.gpu_generation) + spec_u32_bytes(gpu.gpu_variant) + spec_u32_bytes(
        gpu.gpu_revision,
    ) + spec_u32_bytes(gpu.chip_id) + spec_u32_bytes(gpu.num_dies) + spec_u32_bytes(
        gpu.num_clusters_total,
    ) + spec_u32_bytes(gpu.num_cores_per_cluster) + spec_u32_bytes(gpu.num_frags_per_cluster)
        + spec_u32_bytes(gpu.num_gps_per_cluster) + spec_u32_bytes(gpu.num_cores_total_active)
}

/// The last part of the global parameters: the layout of address spaces,
/// the limits of submissions, clock rates and power, the sizes of the
/// result records, and the firmware version.
pub open spec fn spec_params_tail(gpu: GpuInfo) -> Seq<u8> {
    Seq::<u8>::empty() + spec_u32_bytes(UAT_PGSZ as u32) + spec_u32_bytes(0) + spec_u64_bytes(
        IOVA_USER_BASE,
    ) + spec_u64_bytes(IOVA_UNK_PAGE) + spec_u64_bytes(0) + spec_u64_bytes(0) + spec_u64_bytes(
        VM_KERNEL_MIN_SIZE,
    ) + spec_u32_bytes(0) + spec_u32_bytes(MAX_COMMANDS_PER_SUBMISSION) + spec_u32_bytes(
        MAX_COMMANDS_IN_FLIGHT,
    ) + spec_u32_bytes(MAX_ATTACHMENTS as u32) + spec_u32_bytes(gpu.timer_frequency_hz)
        + spec_u32_bytes(gpu.min_frequency_khz) + spec_u32_bytes(gpu.max_frequency_khz)
        + spec_u32_bytes(gpu.max_power_mw) + spec_u32_bytes(gpu.result_render_size)
        + spec_u32_bytes(gpu.result_compute_size) + spec_u32_bytes(spec_fw_version(gpu, 0))
        + spec_u32_bytes(spec_fw_version(gpu, 1)) + spec_u32_bytes(spec_fw_version(gpu, 2))
        + spec_u32_bytes(0)
}

/// The global parameters as userspace reads them: the first part, the mask
/// of the active cores of each of `DRM_ASAHI_MAX_CLUSTERS` clusters, and the
/// last part.
pub open spec fn spec_params_bytes(gpu: GpuInfo) -> Seq<u8> {
    spec_params_head(gpu) + spec_core_mask_bytes(gpu, DRM_ASAHI_MAX_CLUSTERS as int)
        + spec_params_tail(gpu)
}

/// Writes the first part of the global parameters.
fn params_head(gpu: &GpuInfo) -> (out: Vec<u8>)
    ensures
        out@ == spec_params_head(*gpu),
        out@.len() == 64,
{
    let feat_compat: u64 = if gpu.fault_control == FAULT_CONTROL_SOFT {
        gpu.feat_compat | FEAT_SOFT_FAULTS
    } else {
        gpu.feat_compat
    };
    let mut out: Vec<u8> = Vec::new();
    assert(out@ =~= Seq::<u8>::empty());
    push_u32(&mut out, DRM_ASAHI_UNSTABLE_UABI_VERSION);
    push_u32(&mut out, 0);
    push_u64(&mut out, feat_compat);
    push_u64(&mut out, gpu.feat_incompat);
    push_u32(&mut out, gpu.gpu_generation);
    push_u32(&mut out, gpu.gpu_variant);
    push_u32(&mut out, gpu.gpu_revision);
    push_u32(&mut out, gpu.chip_id);
    push_u32(&mut out, gpu.num_dies);
    push_u32(&mut out, gpu.num_clusters_total);
    push_u32(&mut out, gpu.num_cores_per_cluster);
    push_u32(&mut out, gpu.num_frags_per_cluster);
    push_u32(&mut out, gpu.num_gps_per_cluster);
    push_u32(&mut out, gpu.num_cores_total_active);
    out
}

/// Writes the last part of the global parameters.
fn params_tail(gpu: &GpuInfo) -> (out: Vec<u8>)
    ensures
        out@ == spec_params_tail(*gpu),
        out@.len() == 104,
{
    let mut out: Vec<u8> = Vec::new();
    assert(out@ =~= Seq::<u8>::empty());
    push_u32(&mut out, UAT_PGSZ as u32);
    push_u32(&mut out, 0);
    push_u64(&mut out, IOVA_USER_BASE);
    push_u64(&mut out, IOVA_UNK_PAGE);
    push_u64(&mut out, 0);
    push_u64(&mut out, 0);
    push_u64(&mut out, VM_KERNEL_MIN_SIZE);
    push_u32(&mut out, 0);
    push_u32(&mut out, MAX_COMMANDS_PER_SUBMISSION);
    push_u32(&mut out, MAX_COMMANDS_IN_FLIGHT);
    push_u32(&mut out, MAX_ATTACHMENTS as u32);
    push_u32(&mut out, gpu.timer_frequency_hz);
    push_u32(&mut out, gpu.min_frequency_khz);
    push_u32(&mut out, gpu.max_frequency_khz);
    push_u32(&mut out, gpu.max_power_mw);
    push_u32(&mut out, gpu.result_render_size);
    push_u32(&mut out, gpu.result_compute_size);
    let fw0: u32 = if 0 < gpu.firmware_version.len() {
        gpu.firmware_version[0]
    } else {
        0
    };
    let fw1: u32 = if 1 < gpu.firmware_version.len() {
        gpu.firmware_version[1]
    } else {
        0
    };
    let fw2: u32 = if 2 < gpu.firmware_version.len() {
        gpu.firmware_version[2]
    } else {
        0
    };
    push_u32(&mut out, fw0);
    push_u32(&mut out, fw1);
    push_u32(&mut out, fw2);
    push_u32(&mut out, 0);
    out
}

/// The core masks take 8 bytes each.
pub proof fn lemma_core_mask_bytes_len(gpu: GpuInfo, n: int)
    requires
        0 <= n,
    ensures
        spec_core_mask_bytes(gpu, n).len() == 8 * n,
    decreases n,
{
    if n > 0 {
        lemma_core_mask_bytes_len(gpu, n - 1);
        crate::wire::lemma_u64_bytes_roundtrip(spec_core_mask(gpu, n - 1));
    }
}

/// The first error that makes `GET_PARAMS` fail, if any.
pub open spec fn spec_get_params_error(gpu: GpuInfo, data: GetParams) -> Option<Error> {
    if data.extensions != 0 || data.param_group != 0 || data.pad != 0 {
        Some(Error::EINVAL)
    } else if gpu.crashed {
        Some(Error::ENODEV)
    } else if gpu.core_masks@.len() > DRM_ASAHI_MAX_CLUSTERS {
        Some(Error::EIO)
    } else {
        None
    }
}

/// IOCTL: get_params: Get the driver parameters.
///
/// Returns the bytes to write to the userspace buffer: the global
/// parameters, cut off at the size that userspace has room for.
///
/// Fails with `EINVAL` when a reserved field is not zero or the parameter
/// group is not the global one, with `ENODEV` when the firmware has crashed,
/// and with `EIO` when the GPU has more clusters than the parameters have
/// room for.
pub fn get_params(gpu: &GpuInfo, data: &GetParams) -> (r: Result<Vec<u8>>)
    ensures
        r is Ok <==> spec_get_params_error(*gpu, *data) is None,
        r matches Err(e) ==> Some(e) == spec_get_params_error(*gpu, *data),
        r matches Ok(bytes) ==> bytes@ == spec_params_bytes(*gpu).subrange(
            0,
            if data.size < PARAMS_SIZE {
                data.size as int
            } else {
                PARAMS_SIZE as int
            },
        ),
        r is Ok ==> spec_params_bytes(*gpu).len() == PARAMS_SIZE,
{
    proof {
        lemma_core_mask_bytes_len(*gpu, DRM_ASAHI_MAX_CLUSTERS as int);
    }
    if data.extensions != 0 || data.param_group != 0 || data.pad != 0 {
        return Err(Error::EINVAL);
    }
    if gpu.crashed {
        return Err(Error::ENODEV);
    }
    if gpu.core_masks.len() > DRM_ASAHI_MAX_CLUSTERS {
        return Err(Error::EIO);
    }
    let mut out: Vec<u8> = params_head(gpu);
    let ghost head = out@;
    assert(out@ == head + spec_core_mask_bytes(*gpu, 0)) by {
        assert(out@ =~= head + Seq::<u8>::empty());
    }
    let mut i: usize = 0;
    while i < DRM_ASAHI_MAX_CLUSTERS
        invariant
            i <= DRM_ASAHI_MAX_CLUSTERS,
            out@ == head + spec_core_mask_bytes(*gpu, i as int),
            out@.len() == 64 + 8 * i,
        decreases DRM_ASAHI_MAX_CLUSTERS - i,
    {
        let mask: u64 = if i < gpu.core_masks.len() {
            gpu.core_masks[i] as u64
        } else {
            0
        };
        let ghost prev = out@;
        push_u64(&mut out, mask);
        i = i + 1;
        assert(out@ == head + spec_core_mask_bytes(*gpu, i as int)) by {
            assert(prev + spec_u64_bytes(mask) =~= head + (spec_core_mask_bytes(*gpu, i - 1)
                + spec_u64_bytes(mask)));
        }
    }
    let mut tail = params_tail(gpu);
    out.append(&mut tail);
    assert(out@ == spec_params_bytes(*gpu));
    assert(out@.len() == PARAMS_SIZE);
    let size: usize = if data.size < PARAMS_SIZE as u64 {
        data.size as usize
    } else {
        PARAMS_SIZE
    };
    out.truncate(size);
    Ok(out)
}


/// Arguments of the `GET_TIME` ioctl.
#[derive(Clone, Copy, Debug, PartialEq, Eq, Structural)]
pub struct GetTime {
    pub extensions: u64,
    pub flags: u64,
    /// Seconds of the CPU's raw monotonic clock.
    pub tv_sec: i64,
    /// Nanoseconds of the CPU's raw monotonic clock.
    pub tv_nsec: i64,
    /// The GPU's timestamp counter.
    pub gpu_timestamp: u64,
}

/// IOCTL: get_time: Get the time of the CPU and of the GPU.
///
/// `tv_sec` and `tv_nsec` are a reading of the CPU's raw monotonic clock
/// and `gpu_timestamp` a reading of the GPU's timestamp counter, taken
/// together; they are written to `data`.
///
/// Fails with `EINVAL`, changing nothing, when a reserved field is not
/// zero.
pub fn get_time(data: &mut GetTime, tv_sec: i64, tv_nsec: i64, gpu_timestamp: u64) -> (r: Result<
    u32,
>)
    ensures
        r is Ok <==> old(data).extensions == 0 && old(data).flags == 0,
        r matches Ok(v) ==> v == 0 && *final(data) == (GetTime {
            tv_sec,
            tv_nsec,
            gpu_timestamp,
            ..*old(data)
        }),
        r matches Err(e) ==> e == Error::EINVAL && *final(data) == *old(data),
{
    if data.extensions != 0 || data.flags != 0 {
        return Err(Error::EINVAL);
    }
    data.tv_sec = tv_sec;
    data.tv_nsec = tv_nsec;
    data.gpu_timestamp = gpu_timestamp;
    Ok(0)
}

/// Arguments of the `VM_CREATE` ioctl.
#[derive(Clone, Copy, Debug, PartialEq, Eq, Structural)]
pub struct VmCreate {
    pub extensions: u64,
    /// First address of the part set aside for the kernel.
    pub kernel_start: u64,
    /// Address behind the part set aside for the kernel.
    pub kernel_end: u64,
    /// Identifier of the new address space; written by the driver.
    pub vm_id: u32,
}

/// Arguments of the `VM_DESTROY` ioctl.
#[derive(Clone, Copy, Debug, PartialEq, Eq, Structural)]
pub struct VmDestroy {
    pub extensions: u64,
    pub vm_id: u32,
}

/// What the GPU manager contributes to a new address space.
#[derive(Clone, Copy, Debug, PartialEq, Eq, Structural)]
pub struct VmResources {
    /// Identifier of the address space, unique over the driver.
    pub vm_id: u64,
    /// Physical address of the root of the page table.
    pub ttbr: u64,
    /// Number of output address bits of the UAT.
    pub oas: usize,
    /// Identifier of the object behind the dummy page.
    pub dummy_obj_id: u64,
    /// Physical address of the zeroed page behind the dummy page.
    pub dummy_page: u64,
}

/// A client instance of an address space.
pub struct FileVm {
    /// The address space.
    pub vm: Vm,
    /// The part set aside for the kernel.
    pub kernel_range: Range<u64>,
    /// Allocator for memory shared between the GPU and the firmware, in the
    /// lower half of the kernel's part.
    pub ualloc: HeapAllocator,
    /// Allocator for memory private to the firmware, in the upper half.
    pub ualloc_priv: HeapAllocator,
    /// The object that is mapped at the dummy page.
    pub dummy_obj: Object,
    /// The mapping of the dummy page.
    pub dummy_mapping: KernelMapping,
}

/// Whether a range can be the kernel's part of a user address space: it
/// lies in the usable user range, is made of whole pages and has the
/// minimum size.
pub open spec fn kernel_range_valid(start: u64, end: u64) -> bool {
    &&& IOVA_USER_BASE <= start
    &&& start < end
    &&& end <= IOVA_UNK_PAGE
    &&& end - start >= VM_KERNEL_MIN_SIZE
    &&& start % UAT_PGSZ == 0
    &&& end % UAT_PGSZ == 0
}

impl FileVm {
    /// Whether the kernel's part of the address space is as the client
    /// asked for it and valid, and the address space is in working order.
    pub open spec fn wf(&self) -> bool {
        &&& self.vm.wf()
        &&& !self.vm.is_kernel
        &&& self.vm.kernel_range == self.kernel_range
        &&& kernel_range_valid(self.kernel_range.start, self.kernel_range.end)
        &&& self.ualloc.wf()
        &&& self.ualloc_priv.wf()
        &&& Vm::spec_coherent(self.dummy_mapping)
    }
}

/// The kernel's part of every address space of a client lies in the usable
/// user range of the address space, is at least `VM_KERNEL_MIN_SIZE` bytes
/// long, and starts and ends at a page.
pub proof fn lemma_kernel_range(fv: &FileVm)
    requires
        fv.wf(),
    ensures
        fv.vm.va_range.start <= fv.vm.kernel_range.start,
        fv.vm.kernel_range.end <= fv.vm.va_range.end,
        fv.vm.kernel_range.end - fv.vm.kernel_range.start >= VM_KERNEL_MIN_SIZE,
        fv.vm.kernel_range.start % UAT_PGSZ == 0,
        fv.vm.kernel_range.end % UAT_PGSZ == 0,
{
}

/// Where the kernel's part of an address space is split: its lower half,
/// from the first multiple of the buffer manager's page size on, is for
/// memory shared between the GPU and the firmware, its upper half, up to
/// the last such multiple, for memory private to the firmware.
pub open spec fn spec_kernel_split(start: u64, end: u64) -> (u64, u64, u64) {
    let lo = crate::util::spec_align(start as int, PAGE_SIZE as int);
    let hi = crate::util::spec_align_down(end as int, PAGE_SIZE as int);
    let half = crate::util::spec_align_down((hi - lo) / 2, PAGE_SIZE as int);
    (lo as u64, (lo + half) as u64, hi as u64)
}

/// Whether `fv` is an address space as it is created: nothing is bound in
/// it, it is not bound to a slot, its page table translates to as many
/// address bits as the GPU puts out, the zeroed page is mapped at the dummy
/// page below the top of the user range, with a guard page behind it, and
/// nothing has been taken from its two allocators.
pub open spec fn vm_fresh(fv: FileVm, data: VmCreate, res: VmResources) -> bool {
    let split = spec_kernel_split(data.kernel_start, data.kernel_end);
    let node = Vm::spec_node(
        IOVA_UNK_PAGE,
        UAT_PGSZ,
        PROT_GPU_SHARED_RW,
        Some(res.dummy_obj_id),
        true,
    );
    &&& fv.vm.binding == (crate::mmu::vm::VmBinding {
        active_users: 0,
        binding: None,
        bind_token: None,
        ttb: res.ttbr,
    })
    &&& fv.vm.page_table.spec_cfg().oas == res.oas
    &&& fv.vm.va_range == crate::mmu::spec_iova_user_range()
    &&& fv.vm.gpuvm_range == crate::mmu::spec_iova_user_usable_range()
    &&& fv.vm.nodes@ == seq![node]
    &&& fv.dummy_mapping == (KernelMapping { node, vm_id: res.vm_id })
    &&& fv.dummy_obj.id == res.dummy_obj_id
    &&& fv.dummy_obj.pages@ == seq![res.dummy_page]
    &&& fv.vm.page_table@ == crate::mmu::vm::spec_map_list(
        Map::<u64, crate::mmu::pgtable::Pte>::empty(),
        IOVA_UNK_PAGE,
        seq![res.dummy_page],
        PROT_GPU_SHARED_RW,
    )
    &&& fv.ualloc.spec_range() == (Range { start: split.0, end: split.1 })
    &&& fv.ualloc.spec_next() == split.0
    &&& fv.ualloc.spec_prot() == PROT_GPU_SHARED_RW
    &&& fv.ualloc_priv.spec_range() == (Range { start: split.1, end: split.2 })
    &&& fv.ualloc_priv.spec_next() == split.1
    &&& fv.ualloc_priv.spec_prot() == PROT_GPU_FW_PRIV_RW
}

/// What taking an address space down asks of the hardware when the TTBAT
/// holds `ttbs`: what unmapping everything that the client bound asks for,
/// see `Vm::unmap_all`; what taking the dummy page down asks for, see
/// `Vm::drop_mapping`; and what clearing its context slot asks for, see
/// `Uat::drop_vm`.
pub open spec fn spec_destroy_ops(fv: FileVm, ttbs: Seq<SlotTtbs>, cur_slot: u32) -> Seq<HwOp> {
    fv.vm.spec_unmap_all_ops() + fv.vm.spec_unmap_part_on(
        fv.vm.spec_unmap_all_table(),
        fv.dummy_mapping,
    ) + fv.vm.spec_drop_ops(fv.dummy_mapping) + spec_drop_ops_on(ttbs, &fv.vm, cur_slot)
}

/// The TTBAT after the first `n` address spaces of a client that closes
/// were destroyed, in the order of their ids: that of each that no user has
/// bound to a slot is cleared, see `Uat::drop_vm`.
pub open spec fn spec_close_ttbs(
    vms: Seq<Option<FileVm>>,
    ttbs: Seq<SlotTtbs>,
    cur_slot: u32,
    n: int,
) -> Seq<SlotTtbs>
    decreases n,
{
    if n <= 0 {
        ttbs
    } else {
        let before = spec_close_ttbs(vms, ttbs, cur_slot, n - 1);
        match vms[n - 1] {
            Some(fv) => if fv.vm.binding.active_users == 0 {
                spec_ttbs_after_drop_on(before, &fv.vm, cur_slot)
            } else {
                before
            },
            None => before,
        }
    }
}

/// What destroying the first `n` address spaces of a client that closes
/// asks of the hardware: for each that no user has bound to a slot, what
/// taking it down asks for.
pub open spec fn spec_close_ops(
    vms: Seq<Option<FileVm>>,
    ttbs: Seq<SlotTtbs>,
    cur_slot: u32,
    n: int,
) -> Seq<HwOp>
    decreases n,
{
    if n <= 0 {
        Seq::empty()
    } else {
        let before = spec_close_ops(vms, ttbs, cur_slot, n - 1);
        match vms[n - 1] {
            Some(fv) => if fv.vm.binding.active_users == 0 {
                before + spec_destroy_ops(
                    fv,
                    spec_close_ttbs(vms, ttbs, cur_slot, n - 1),
                    cur_slot,
                )
            } else {
                before
            },
            None => before,
        }
    }
}

/// The address spaces among the first `n` of a client that closes that are
/// kept aside because work is running in them.
pub open spec fn spec_close_retired(vms: Seq<Option<FileVm>>, n: int) -> Seq<FileVm>
    decreases n,
{
    if n <= 0 {
        Seq::empty()
    } else {
        let before = spec_close_retired(vms, n - 1);
        match vms[n - 1] {
            Some(fv) => if fv.vm.binding.active_users == 0 {
                before
            } else {
                before.push(fv)
            },
            None => before,
        }
    }
}

/// The position of the first address space among the first `n` of
/// `retired` that has the identifier `vm_id`, if there is one.
pub open spec fn spec_retired_index(retired: Seq<FileVm>, vm_id: u64, n: int) -> Option<int>
    decreases n,
{
    if n <= 0 {
        None
    } else {
        match spec_retired_index(retired, vm_id, n - 1) {
            Some(i) => Some(i),
            None => if retired[n - 1].vm.id == vm_id {
                Some(n - 1)
            } else {
                None
            },
        }
    }
}

/// An address space with the identifier behind others without it is the
/// first with it.
pub proof fn lemma_retired_index_found(retired: Seq<FileVm>, vm_id: u64, i: int, n: int)
    requires
        0 <= i < n <= retired.len(),
        spec_retired_index(retired, vm_id, i) is None,
        retired[i].vm.id == vm_id,
    ensures
        spec_retired_index(retired, vm_id, n) == Some(i),
    decreases n - i,
{
    if n > i + 1 {
        lemma_retired_index_found(retired, vm_id, i, n - 1);
    }
}

/// Whether the address space `vm_id` of the client is the one that the
/// binding `bind` is a user of.
pub open spec fn spec_bound_live(file: &File, vm_id: u32, bind: VmBind) -> bool {
    file.vms.spec_contains(vm_id) && file.vms.spec_get(vm_id).vm.id == bind.vm_id
        && file.vms.spec_get(vm_id).vm.binding.active_users > 0
}

/// A binding with one user less; with its last user the slot is given up,
/// and the token of the slot is kept.
pub open spec fn spec_unbound(b: crate::mmu::vm::VmBinding) -> crate::mmu::vm::VmBinding {
    crate::mmu::vm::VmBinding {
        active_users: (b.active_users - 1) as usize,
        binding: if b.active_users == 1 {
            None
        } else {
            b.binding
        },
        ..b
    }
}

/// The slot pool after a binding lost a user: with the last user the slot
/// goes back to the pool, if the pool can take it.
pub open spec fn spec_slots_after_unbind(
    m: crate::slotalloc::SlotModel,
    b: crate::mmu::vm::VmBinding,
) -> crate::slotalloc::SlotModel {
    if b.active_users == 1 && Uat::spec_can_release(m, b.binding->0) {
        crate::slotalloc::spec_after_release(m, b.binding->0)
    } else {
        m
    }
}

/// Whether two address spaces of a client are the same but for the binding
/// to a slot.
pub open spec fn vm_same_but_binding(a: FileVm, b: FileVm) -> bool {
    &&& a.vm.same_but_binding(&b.vm)
    &&& a.kernel_range == b.kernel_range
    &&& a.ualloc == b.ualloc
    &&& a.ualloc_priv == b.ualloc_priv
    &&& a.dummy_obj == b.dummy_obj
    &&& a.dummy_mapping == b.dummy_mapping
}

/// State associated with a client.
pub struct File {
    /// Identifier of the client.
    pub id: u64,
    /// The address spaces of the client, by id.
    pub vms: IdTable<FileVm>,
    /// The queues of the client, by id.
    pub queues: IdTable<Queue>,
    /// The buffer objects that the client has handles for, by handle.
    pub objects: IdTable<Object>,
    /// The sync objects that the client has handles for, by handle.
    pub syncobjs: IdTable<SyncObj>,
    /// The address spaces that the client has destroyed while work was
    /// running in them: each stays until its last user has gone.
    pub retired: Vec<FileVm>,
}

/// The first error that makes `VM_CREATE` fail, if any.
pub open spec fn spec_vm_create_error(file: &File, data: VmCreate, res: VmResources) -> Option<
    Error,
> {
    if data.extensions != 0 {
        Some(Error::EINVAL)
    } else if !kernel_range_valid(data.kernel_start, data.kernel_end) {
        Some(Error::EINVAL)
    } else if res.oas > crate::mmu::pgtable::MAX_ADDRESS_BITS || res.ttbr > MAX_TTB {
        Some(Error::EINVAL)
    } else if file.vms.spec_next_id() >= u32::MAX {
        Some(Error::EBUSY)
    } else if res.dummy_page % UAT_PGSZ != 0 || res.dummy_page + UAT_PGSZ
        > vstd::arithmetic::power2::pow2(res.oas as nat) {
        Some(Error::EINVAL)
    } else {
        None
    }
}

impl File {
    /// Whether the tables are in working order and so is every address
    /// space.
    pub open spec fn wf(&self) -> bool {
        &&& self.vms.wf()
        &&& self.queues.wf()
        &&& self.objects.wf()
        &&& self.syncobjs.wf()
        &&& forall|id: u32| #[trigger] self.vms.spec_contains(id) ==> self.vms.spec_get(id).wf()
        &&& forall|id: u32|
            #[trigger] self.queues.spec_contains(id) ==> self.queues.spec_get(id).wf()
        &&& forall|i: int|
            0 <= i < self.retired@.len() ==> (#[trigger] self.retired@[i]).wf()
                && self.retired@[i].vm.binding.active_users > 0
    }

    /// Create a new `File` instance for a fresh client.
    pub fn open(id: u64) -> (r: Self)
        ensures
            r.wf(),
            r.id == id,
            r.vms@ == Seq::<Option<FileVm>>::empty(),
            r.queues@ == Seq::<Option<Queue>>::empty(),
            r.objects@ == Seq::<Option<Object>>::empty(),
            r.syncobjs@ == Seq::<Option<SyncObj>>::empty(),
            r.retired@ == Seq::<FileVm>::empty(),
    {
        File {
            id,
            vms: IdTable::new(),
            queues: IdTable::new(),
            objects: IdTable::new(),
            syncobjs: IdTable::new(),
            retired: Vec::new(),
        }
    }

    /// IOCTL: vm_create: Create a new address space.
    ///
    /// The address space gets the lowest free id, which is written to
    /// `data`. The range that the client names is set aside for the kernel:
    /// its lower half for memory shared between the GPU and the firmware,
    /// its upper half for memory private to the firmware. A zeroed page is
    /// mapped at the dummy page below the top of the user range.
    ///
    /// Fails with `EINVAL` when the reserved field is not zero or the
    /// kernel's range is not valid. A failed call changes nothing.
    pub fn vm_create(&mut self, data: &mut VmCreate, res: &VmResources) -> (r: Result<u32>)
        requires
            old(self).wf(),
        ensures
            final(self).wf(),
            final(self).id == old(self).id,
            final(self).queues == old(self).queues,
            final(self).objects == old(self).objects,
            final(self).syncobjs == old(self).syncobjs,
            r is Ok <==> spec_vm_create_error(old(self), *old(data), *res) is None,
            r matches Err(e) ==> Some(e) == spec_vm_create_error(old(self), *old(data), *res)
                && final(self).vms@ == old(self).vms@ && *final(data) == *old(data),
            r matches Ok(v) ==> {
                let id = final(data).vm_id;
                &&& v == 0
                &&& id == old(self).vms.spec_next_id()
                &&& *final(data) == (VmCreate { vm_id: id, ..*old(data) })
                &&& !old(self).vms.spec_contains(id)
                &&& final(self).vms.spec_contains(id)
                &&& final(self).vms.spec_get(id).vm.id == res.vm_id
                &&& final(self).vms.spec_get(id).kernel_range == (Range {
                    start: old(data).kernel_start,
                    end: old(data).kernel_end,
                })
                &&& final(self).vms.spec_get(id).vm.vas@ == Seq::<crate::mmu::vm::GpuVa>::empty()
                &&& vm_fresh(final(self).vms.spec_get(id), *old(data), *res)
                &&& forall|other: u32|
                    other != id ==> final(self).vms.spec_contains(other) == old(
                        self,
                    ).vms.spec_contains(other) && (old(self).vms.spec_contains(other)
                        ==> final(self).vms.spec_get(other) == old(self).vms.spec_get(other))
            },
    {
        if data.extensions != 0 {
            return Err(Error::EINVAL);
        }
        let start = data.kernel_start;
        let end = data.kernel_end;
        // Validate requested kernel range
        if start < IOVA_USER_BASE || start >= end || end > IOVA_UNK_PAGE || end - start
            < VM_KERNEL_MIN_SIZE || start % UAT_PGSZ != 0 || end % UAT_PGSZ != 0 {
            return Err(Error::EINVAL);
        }
        proof {
            crate::util::lemma_pow2_constants();
        }
        // Align to the buffer manager's page size so the allocators are happy
        let alloc_start: u64 = align(start, PAGE_SIZE);
        let alloc_end: u64 = align_down(end, PAGE_SIZE);
        let half: u64 = align_down((alloc_end - alloc_start) / 2, PAGE_SIZE);
        let mid: u64 = alloc_start + half;

        let mut vm = match Vm::new(Range { start, end }, res.oas, false, res.vm_id, res.ttbr) {
            Ok(vm) => vm,
            Err(e) => {
                return Err(e);
            },
        };
        match self.vms.next_id() {
            Ok(_) => {},
            Err(e) => {
                return Err(e);
            },
        }
        let ualloc = match HeapAllocator::new(
            HeapConfig {
                vm_id: res.vm_id,
                iova_range: Range { start: alloc_start, end: mid },
                page_size: PAGE_SIZE,
                default_prot: PROT_GPU_SHARED_RW,
                chunk_bytes: 512 * 1024,
                zeroed: true,
            },
        ) {
            Ok(a) => a,
            Err(e) => {
                assert(false);
                return Err(e);
            },
        };
        let ualloc_priv = match HeapAllocator::new(
            HeapConfig {
                vm_id: res.vm_id,
                iova_range: Range { start: mid, end: alloc_end },
                page_size: PAGE_SIZE,
                default_prot: PROT_GPU_FW_PRIV_RW,
                chunk_bytes: 64 * 1024,
                zeroed: true,
            },
        ) {
            Ok(a) => a,
            Err(e) => {
                assert(false);
                return Err(e);
            },
        };
        let limit: u64 = crate::mmu::pgtable::address_limit(res.oas);
        if res.dummy_page % UAT_PGSZ != 0 || limit < UAT_PGSZ || res.dummy_page > limit - UAT_PGSZ {
            return Err(Error::EINVAL);
        }
        let mut dummy_pages: Vec<u64> = Vec::new();
        dummy_pages.push(res.dummy_page);
        let dummy_obj = match new_kernel_object(res.dummy_obj_id, 0x4000, dummy_pages) {
            Ok(o) => o,
            Err(e) => {
                assert(false);
                return Err(e);
            },
        };
        proof {
            vstd::arithmetic::power2::lemma2_to64_rest();
            reveal(crate::mmu::vm::nodes_wf);
            assert(dummy_obj.pages@ =~= seq![res.dummy_page]);
            assert(PROT_GPU_SHARED_RW & (crate::mmu::PROT_READ | crate::mmu::PROT_WRITE) != 0)
                by (bit_vector);
            assert(PROT_GPU_SHARED_RW & crate::mmu::PROT_CACHE != 0) by (bit_vector);
            assert(vm.spec_node_fits(IOVA_UNK_PAGE, dummy_obj.size, true));
            assert(vm.spec_can_map_list(IOVA_UNK_PAGE, dummy_obj.pages@, PROT_GPU_SHARED_RW));
        }
        let dummy_mapping = match vm.map_at(
            IOVA_UNK_PAGE,
            dummy_obj.size,
            dummy_obj.id,
            dummy_obj.pages.as_slice(),
            PROT_GPU_SHARED_RW,
            true,
        ) {
            Ok(m) => m,
            Err(e) => {
                assert(false);
                return Err(e);
            },
        };
        let file_vm = FileVm {
            vm,
            kernel_range: Range { start, end },
            ualloc,
            ualloc_priv,
            dummy_obj,
            dummy_mapping,
        };
        let id = match self.vms.insert(file_vm) {
            Ok(id) => id,
            Err(e) => {
                assert(false);
                return Err(e);
            },
        };
        data.vm_id = id;
        Ok(0)
    }

    /// Takes an address space down that no user has bound to a slot:
    /// everything that the client bound in it is unmapped, the dummy page
    /// is unmapped, and the context slot that it was last bound to is
    /// cleared, see `Uat::drop_vm`.
    fn destroy(fv: FileVm, uat: &mut Uat, cur_slot: u32, hw: &mut Vec<HwOp>)
        requires
            fv.wf(),
            old(uat).wf(),
            fv.vm.binding.active_users == 0,
        ensures
            final(uat).wf(),
            final(uat).spec_slots() == old(uat).spec_slots(),
            final(uat).spec_ttb_base() == old(uat).spec_ttb_base(),
            final(uat).spec_kernel_ttb1() == old(uat).spec_kernel_ttb1(),
            final(uat).spec_map_kernel_to_user() == old(uat).spec_map_kernel_to_user(),
            final(uat).spec_ttbs() == spec_ttbs_after_drop_on(
                old(uat).spec_ttbs(),
                &fv.vm,
                cur_slot,
            ),
            final(hw)@ == old(hw)@ + spec_destroy_ops(fv, old(uat).spec_ttbs(), cur_slot),
    {
        let mut fv = fv;
        let ghost fv0 = fv;
        // When the user Vm is dropped, unmap everything in the user range
        fv.vm.unmap_all(hw);
        let ghost unmapped = hw@;
        let firmware_slot = crate::mmu::handoff::current_slot(cur_slot);
        let ttb_cur: u64 = match fv.vm.slot() {
            Some(slot) => uat.ttbs(slot).ttb0,
            None => 0,
        };
        fv.vm.drop_mapping(
            fv.dummy_mapping,
            fv.dummy_obj.pages.as_slice(),
            firmware_slot,
            ttb_cur,
            hw,
        );
        let ghost dropped = hw@;
        assert(dropped =~= unmapped + fv0.vm.spec_unmap_part_on(
            fv0.vm.spec_unmap_all_table(),
            fv0.dummy_mapping,
        ) + fv0.vm.spec_drop_ops(fv0.dummy_mapping));
        uat.drop_vm(&mut fv.vm, cur_slot, hw);
        assert(hw@ =~= old(hw)@ + spec_destroy_ops(fv0, old(uat).spec_ttbs(), cur_slot));
    }

    /// IOCTL: vm_destroy: Destroy an address space.
    ///
    /// The address space leaves the table of the client. If no user has
    /// bound it to a slot it is taken down at once: everything that the
    /// client bound in it is unmapped, the dummy page is unmapped, and the
    /// context slot that it was last bound to is cleared if it still holds
    /// its page table and the firmware is not using it. An address space
    /// that work is running in is kept aside and taken down when its last
    /// user has gone, see `complete`.
    ///
    /// `cur_slot` is the current-slot word of the handoff region, which the
    /// embedding reads under the handoff lock.
    ///
    /// Fails with `EINVAL` when the reserved field is not zero, and with
    /// `ENOENT` when the client has no address space of that id. A failed
    /// call changes nothing.
    pub fn vm_destroy(&mut self, data: &VmDestroy, uat: &mut Uat, cur_slot: u32, hw: &mut Vec<HwOp>)
        -> (r: Result<u32>)
        requires
            old(self).wf(),
            old(uat).wf(),
        ensures
            final(self).wf(),
            final(uat).wf(),
            final(self).id == old(self).id,
            final(self).queues == old(self).queues,
            final(self).objects == old(self).objects,
            final(self).syncobjs == old(self).syncobjs,
            final(self).vms@.len() == old(self).vms@.len(),
            final(uat).spec_slots() == old(uat).spec_slots(),
            final(uat).spec_ttb_base() == old(uat).spec_ttb_base(),
            final(uat).spec_kernel_ttb1() == old(uat).spec_kernel_ttb1(),
            final(uat).spec_map_kernel_to_user() == old(uat).spec_map_kernel_to_user(),
            r is Ok <==> data.extensions == 0 && old(self).vms.spec_contains(data.vm_id),
            r matches Err(e) ==> {
                &&& e == (if data.extensions != 0 {
                    Error::EINVAL
                } else {
                    Error::ENOENT
                })
                &&& final(self).vms@ == old(self).vms@
                &&& final(self).retired@ == old(self).retired@
                &&& final(uat).spec_ttbs() == old(uat).spec_ttbs()
                &&& final(hw)@ == old(hw)@
            },
            r matches Ok(v) ==> {
                let fv = old(self).vms.spec_get(data.vm_id);
                &&& v == 0
                &&& final(self).vms@ == old(self).vms@.update(data.vm_id - 1, None)
                &&& if fv.vm.binding.active_users == 0 {
                    &&& final(self).retired@ == old(self).retired@
                    &&& final(uat).spec_ttbs() == spec_ttbs_after_drop_on(
                        old(uat).spec_ttbs(),
                        &fv.vm,
                        cur_slot,
                    )
                    &&& final(hw)@ == old(hw)@ + spec_destroy_ops(
                        fv,
                        old(uat).spec_ttbs(),
                        cur_slot,
                    )
                } else {
                    &&& final(self).retired@ == old(self).retired@.push(fv)
                    &&& final(uat).spec_ttbs() == old(uat).spec_ttbs()
                    &&& final(hw)@ == old(hw)@
                }
            },
    {
        if data.extensions != 0 {
            return Err(Error::EINVAL);
        }
        let fv = match self.vms.remove(data.vm_id) {
            Some(fv) => fv,
            None => {
                return Err(Error::ENOENT);
            },
        };
        proof {
            assert forall|id: u32| #[trigger]
                self.vms.spec_contains(id) implies self.vms.spec_get(id).wf() by {
                assert(old(self).vms.spec_contains(id));
            }
        }
        if fv.vm.binding.active_users == 0 {
            Self::destroy(fv, uat, cur_slot, hw);
        } else {
            // Work is running in the address space: it stays until the
            // last user of its binding has gone.
            let ghost before = self.retired@;
            self.retired.push(fv);
            proof {
                assert forall|i: int| 0 <= i < self.retired@.len() implies (
                #[trigger] self.retired@[i]).wf() && self.retired@[i].vm.binding.active_users
                    > 0 by {
                    if i < before.len() {
                        assert(self.retired@[i] == before[i]);
                    }
                }
            }
        }
        Ok(0)
    }

    /// Closes the client: every queue goes and every address space is
    /// destroyed as `vm_destroy` does, in the order of their ids.
    pub fn close(&mut self, uat: &mut Uat, cur_slot: u32, hw: &mut Vec<HwOp>)
        requires
            old(self).wf(),
            old(uat).wf(),
        ensures
            final(self).wf(),
            final(uat).wf(),
            final(self).id == old(self).id,
            final(self).objects == old(self).objects,
            final(self).syncobjs == old(self).syncobjs,
            final(self).queues@ == Seq::<Option<Queue>>::empty(),
            final(uat).spec_slots() == old(uat).spec_slots(),
            forall|id: u32| !#[trigger] final(self).vms.spec_contains(id),
            final(self).retired@ == old(self).retired@ + spec_close_retired(
                old(self).vms@,
                old(self).vms@.len() as int,
            ),
            final(uat).spec_ttbs() == spec_close_ttbs(
                old(self).vms@,
                old(uat).spec_ttbs(),
                cur_slot,
                old(self).vms@.len() as int,
            ),
            final(hw)@ == old(hw)@ + spec_close_ops(
                old(self).vms@,
                old(uat).spec_ttbs(),
                cur_slot,
                old(self).vms@.len() as int,
            ),
    {
        self.queues = IdTable::new();
        let n: u32 = self.vms.capacity();
        let mut id: u32 = 1;
        proof {
            assert(hw@ =~= old(hw)@ + Seq::<HwOp>::empty());
            assert(self.retired@ =~= old(self).retired@ + Seq::<FileVm>::empty());
        }
        while id <= n
            invariant
                1 <= id <= n + 1,
                n < u32::MAX,
                self.wf(),
                uat.wf(),
                self.id == old(self).id,
                self.objects == old(self).objects,
                self.syncobjs == old(self).syncobjs,
                self.queues@ == Seq::<Option<Queue>>::empty(),
                self.vms@.len() == n,
                old(self).vms@.len() == n,
                uat.spec_slots() == old(uat).spec_slots(),
                forall|k: int| 0 <= k < id - 1 ==> (#[trigger] self.vms@[k]) is None,
                forall|k: int| id - 1 <= k < n ==> #[trigger] self.vms@[k] == old(self).vms@[k],
                self.retired@ == old(self).retired@ + spec_close_retired(old(self).vms@, id - 1),
                uat.spec_ttbs() == spec_close_ttbs(
                    old(self).vms@,
                    old(uat).spec_ttbs(),
                    cur_slot,
                    id - 1,
                ),
                hw@ == old(hw)@ + spec_close_ops(
                    old(self).vms@,
                    old(uat).spec_ttbs(),
                    cur_slot,
                    id - 1,
                ),
            decreases n + 1 - id,
        {
            let ghost before = self.vms@;
            let ghost hw_before = hw@;
            let ghost retired_before = self.retired@;
            let ghost ttbs_before = uat.spec_ttbs();
            let data = VmDestroy { extensions: 0, vm_id: id };
            // An id that is free is passed over.
            let _ = self.vm_destroy(&data, uat, cur_slot, hw);
            proof {
                let k = id - 1;
                assert(before[k] == old(self).vms@[k]);
                assert(self.vms@[k] is None);
                assert forall|j: int| id <= j < n implies #[trigger] self.vms@[j] == old(
                    self,
                ).vms@[j] by {
                    assert(before[j] == old(self).vms@[j]);
                }
                let ops0 = spec_close_ops(old(self).vms@, old(uat).spec_ttbs(), cur_slot, k);
                let ret0 = spec_close_retired(old(self).vms@, k);
                match old(self).vms@[k] {
                    Some(fv) => {
                        if fv.vm.binding.active_users == 0 {
                            assert(hw@ =~= old(hw)@ + (ops0 + spec_destroy_ops(
                                fv,
                                ttbs_before,
                                cur_slot,
                            )));
                            assert(self.retired@ =~= old(self).retired@ + ret0);
                        } else {
                            assert(self.retired@ =~= old(self).retired@ + ret0.push(fv));
                        }
                    },
                    None => {},
                }
            }
            id = id + 1;
        }
        proof {
            assert forall|k: u32| !#[trigger] self.vms.spec_contains(k) by {
                if 1 <= k <= n {
                    assert(self.vms@[k - 1] is None);
                }
            }
        }
    }

    /// Tells the client that work has completed that ran under the binding
    /// `bind` in the address space that had the id `vm_id` when the work
    /// was submitted: the binding has one user less. An address space that
    /// was destroyed meanwhile is taken down when its last user goes, as
    /// `vm_destroy` does.
    ///
    /// Fails with `ENOENT`, changing nothing, when the client has no address
    /// space that the binding is a user of.
    pub fn complete(
        &mut self,
        vm_id: u32,
        bind: VmBind,
        uat: &mut Uat,
        cur_slot: u32,
        hw: &mut Vec<HwOp>,
    ) -> (r: Result<()>)
        requires
            old(self).wf(),
            old(uat).wf(),
        ensures
            final(self).wf(),
            final(uat).wf(),
            final(self).id == old(self).id,
            final(self).queues == old(self).queues,
            final(self).objects == old(self).objects,
            final(self).syncobjs == old(self).syncobjs,
            final(uat).spec_ttb_base() == old(uat).spec_ttb_base(),
            final(uat).spec_kernel_ttb1() == old(uat).spec_kernel_ttb1(),
            final(uat).spec_map_kernel_to_user() == old(uat).spec_map_kernel_to_user(),
            r is Ok <==> spec_bound_live(old(self), vm_id, bind) || spec_retired_index(
                old(self).retired@,
                bind.vm_id,
                old(self).retired@.len() as int,
            ) is Some,
            r matches Err(e) ==> e == Error::ENOENT && final(self).vms@ == old(self).vms@
                && final(self).retired@ == old(self).retired@ && final(uat).spec_ttbs() == old(
                uat,
            ).spec_ttbs() && final(uat).spec_slots() == old(uat).spec_slots() && final(hw)@
                == old(hw)@,
            // The address space is in the table: its binding has a user less.
            spec_bound_live(old(self), vm_id, bind) ==> {
                let v0 = old(self).vms.spec_get(vm_id).vm;
                let v1 = final(self).vms.spec_get(vm_id).vm;
                &&& others_same(old(self), final(self), vm_id)
                &&& final(self).retired@ == old(self).retired@
                &&& v1.same_but_binding(&v0)
                &&& v1.binding == spec_unbound(v0.binding)
                &&& crate::mmu::uat::unbind_step(old(uat), final(uat), &v0, &v1)
                &&& final(uat).spec_ttbs() == old(uat).spec_ttbs()
                &&& final(uat).spec_slots() == spec_slots_after_unbind(
                    old(uat).spec_slots(),
                    v0.binding,
                )
                &&& final(hw)@ == old(hw)@
            },
            // The address space was destroyed: its binding has a user less,
            // and with its last user it goes.
            !spec_bound_live(old(self), vm_id, bind) && spec_retired_index(
                old(self).retired@,
                bind.vm_id,
                old(self).retired@.len() as int,
            ) is Some ==> {
                let i = spec_retired_index(
                    old(self).retired@,
                    bind.vm_id,
                    old(self).retired@.len() as int,
                )->0;
                let fv = old(self).retired@[i];
                &&& final(self).vms@ == old(self).vms@
                &&& final(uat).spec_slots() == spec_slots_after_unbind(
                    old(uat).spec_slots(),
                    fv.vm.binding,
                )
                &&& if fv.vm.binding.active_users == 1 {
                    &&& final(self).retired@ == old(self).retired@.remove(i)
                    &&& final(uat).spec_ttbs() == spec_ttbs_after_drop_on(
                        old(uat).spec_ttbs(),
                        &fv.vm,
                        cur_slot,
                    )
                    &&& final(hw)@ == old(hw)@ + spec_destroy_ops(
                        fv,
                        old(uat).spec_ttbs(),
                        cur_slot,
                    )
                } else {
                    &&& final(self).retired@.len() == old(self).retired@.len()
                    &&& forall|j: int|
                        0 <= j < old(self).retired@.len() && j != i ==> #[trigger] final(self).retired@[j] == old(self).retired@[j]
                    &&& vm_same_but_binding(final(self).retired@[i], fv)
                    &&& final(self).retired@[i].vm.binding == spec_unbound(fv.vm.binding)
                    &&& final(uat).spec_ttbs() == old(uat).spec_ttbs()
                    &&& final(hw)@ == old(hw)@
                }
            },
    {
        let live = match self.vms.get(vm_id) {
            Some(fv) => fv.vm.id == bind.vm_id && fv.vm.binding.active_users > 0,
            None => false,
        };
        if live {
            let mut fv = match self.vms.remove(vm_id) {
                Some(fv) => fv,
                None => {
                    return Err(Error::ENOENT);
                },
            };
            uat.unbind(&mut fv.vm, bind);
            self.vms.restore(vm_id, fv);
            proof {
                assert forall|id: u32| #[trigger]
                    self.vms.spec_contains(id) implies self.vms.spec_get(id).wf() by {
                    if id != vm_id {
                        assert(old(self).vms.spec_contains(id));
                    }
                }
            }
            return Ok(());
        }
        let i: usize = match Self::retired_index(&self.retired, bind.vm_id) {
            Some(i) => i,
            None => {
                return Err(Error::ENOENT);
            },
        };
        let ghost fv0 = self.retired@[i as int];
        let mut fv = self.retired.remove(i);
        uat.unbind(&mut fv.vm, bind);
        if fv.vm.binding.active_users == 0 {
            proof {
                assert forall|j: int| 0 <= j < self.retired@.len() implies (
                #[trigger] self.retired@[j]).wf() && self.retired@[j].vm.binding.active_users
                    > 0 by {
                    if j < i {
                        assert(self.retired@[j] == old(self).retired@[j]);
                    } else {
                        assert(self.retired@[j] == old(self).retired@[j + 1]);
                    }
                }
                crate::mmu::vm::lemma_unmap_all_same(&fv.vm, &fv0.vm);
            }
            let ghost ttbs0 = uat.spec_ttbs();
            Self::destroy(fv, uat, cur_slot, hw);
            assert(hw@ =~= old(hw)@ + spec_destroy_ops(fv0, ttbs0, cur_slot));
        } else {
            self.retired.insert(i, fv);
            proof {
                assert forall|j: int| 0 <= j < self.retired@.len() implies (
                #[trigger] self.retired@[j]).wf() && self.retired@[j].vm.binding.active_users
                    > 0 by {
                    if j != i {
                        assert(self.retired@[j] == old(self).retired@[j]);
                    }
                }
            }
        }
        Ok(())
    }

    /// Finds the first address space among `retired` that has the
    /// identifier `vm_id`.
    fn retired_index(retired: &Vec<FileVm>, vm_id: u64) -> (r: Option<usize>)
        ensures
            r is Some <==> spec_retired_index(retired@, vm_id, retired@.len() as int) is Some,
            r matches Some(i) ==> i < retired@.len() && spec_retired_index(
                retired@,
                vm_id,
                retired@.len() as int,
            ) == Some(i as int) && retired@[i as int].vm.id == vm_id,
    {
        let mut i: usize = 0;
        while i < retired.len()
            invariant
                i <= retired@.len(),
                spec_retired_index(retired@, vm_id, i as int) is None,
            decreases retired@.len() - i,
        {
            if retired[i].vm.id == vm_id {
                proof {
                    lemma_retired_index_found(retired@, vm_id, i as int, retired@.len() as int);
                }
                return Some(i);
            }
            i = i + 1;
        }
        None
    }

    /// IOCTL: gem_create: Create a new GEM object.
    ///
    /// The object gets the lowest free handle, which is written to `data`.
    /// `object_id` is the identifier of the object, unique over the driver,
    /// and `pages` are the pages that back it.
    ///
    /// Fails with `EINVAL` when the reserved field is not zero, a flag is
    /// not known, or an address space is named for an object that is not
    /// private; with `ENOENT` when the client has no address space of the
    /// id that a private object names; with `ENOMEM` when the size is too
    /// large or `pages` does not back all of it; with `EBUSY` when the
    /// handles have run out. A failed call changes nothing.
    pub fn gem_create(&mut self, data: &mut GemCreate, object_id: u64, pages: Vec<u64>) -> (r:
        Result<u32>)
        requires
            old(self).wf(),
        ensures
            final(self).wf(),
            final(self).id == old(self).id,
            final(self).queues == old(self).queues,
            final(self).vms == old(self).vms,
            final(self).syncobjs == old(self).syncobjs,
            r is Ok <==> spec_gem_create_error(old(self), *old(data), pages@) is None,
            r matches Err(e) ==> Some(e) == spec_gem_create_error(old(self), *old(data), pages@)
                && final(self).objects@ == old(self).objects@ && *final(data) == *old(data),
            r matches Ok(v) ==> {
                let handle = final(data).handle;
                let o = final(self).objects.spec_get(handle);
                &&& v == 0
                &&& handle == old(self).objects.spec_next_id()
                &&& *final(data) == (GemCreate { handle, ..*old(data) })
                &&& final(self).objects.spec_contains(handle)
                &&& o.id == object_id
                &&& o.size == crate::util::spec_align(old(data).size as int, UAT_PGSZ as int)
                &&& !o.kernel
                &&& o.flags == old(data).flags
                &&& o.vm_id == (if old(data).flags & ASAHI_GEM_VM_PRIVATE != 0 {
                    Some(old(data).vm_id as u64)
                } else {
                    None
                })
                &&& o.exportable == (old(data).flags & ASAHI_GEM_VM_PRIVATE == 0)
                &&& o.write_combine == (old(data).flags & ASAHI_GEM_WRITEBACK == 0)
                &&& o.pages@ == pages@
                &&& forall|other: u32|
                    other != handle ==> final(self).objects.spec_contains(other) == old(
                        self,
                    ).objects.spec_contains(other) && (old(self).objects.spec_contains(other)
                        ==> final(self).objects.spec_get(other) == old(self).objects.spec_get(
                        other,
                    ))
            },
    {
        if data.extensions != 0 || (data.flags & !(ASAHI_GEM_WRITEBACK | ASAHI_GEM_VM_PRIVATE)) != 0
            || (data.flags & ASAHI_GEM_VM_PRIVATE == 0 && data.vm_id != 0) {
            return Err(Error::EINVAL);
        }
        let owner: Option<u64> = if data.flags & ASAHI_GEM_VM_PRIVATE != 0 {
            if !self.vms.contains(data.vm_id) {
                return Err(Error::ENOENT);
            }
            Some(data.vm_id as u64)
        } else {
            None
        };
        if data.size > u64::MAX - (UAT_PGSZ - 1) {
            return Err(Error::ENOMEM);
        }
        let bo = match new_object(object_id, data.size, data.flags, owner, pages) {
            Ok(bo) => bo,
            Err(e) => {
                return Err(e);
            },
        };
        let handle = match self.objects.insert(bo) {
            Ok(h) => h,
            Err(e) => {
                return Err(e);
            },
        };
        data.handle = handle;
        Ok(0)
    }

    /// IOCTL: gem_mmap_offset: Assign an mmap offset to a GEM object.
    ///
    /// `offset` is the fake file offset that the memory manager has set
    /// aside for the object; it is written to `data`.
    ///
    /// Fails with `EINVAL` when the reserved field or the flags are not
    /// zero, and with `ENOENT` when the client has no object of that
    /// handle; `data` is left as it was then.
    pub fn gem_mmap_offset(&self, data: &mut GemMmapOffset, offset: u64) -> (r: Result<u32>)
        ensures
            r is Ok <==> old(data).extensions == 0 && old(data).flags == 0
                && self.objects.spec_contains(old(data).handle),
            r matches Ok(v) ==> v == 0 && *final(data) == (GemMmapOffset { offset, ..*old(data) }),
            r matches Err(e) ==> *final(data) == *old(data) && e == (if old(data).extensions != 0
                || old(data).flags != 0 {
                Error::EINVAL
            } else {
                Error::ENOENT
            }),
    {
        if data.extensions != 0 || data.flags != 0 {
            return Err(Error::EINVAL);
        }
        if !self.objects.contains(data.handle) {
            return Err(Error::ENOENT);
        }
        data.offset = offset;
        Ok(0)
    }

    /// Look up a GEM object handle and return the object.
    ///
    /// Fails with `ENOENT` when the client has no object of that handle.
    pub fn lookup_handle(&self, handle: u32) -> (r: Result<&Object>)
        ensures
            r is Ok <==> self.objects.spec_contains(handle),
            r matches Ok(o) ==> *o == self.objects.spec_get(handle),
            r matches Err(e) ==> e == Error::ENOENT,
    {
        match self.objects.get(handle) {
            Some(o) => Ok(o),
            None => Err(Error::ENOENT),
        }
    }

    /// IOCTL: gem_bind: Map or unmap a GEM object into an address space.
    ///
    /// Fails with `EINVAL` when the reserved field is not zero or the
    /// operation is not known, and otherwise as the operation does, see
    /// `do_gem_bind`, `do_gem_unbind` and `do_gem_unbind_all`.
    pub fn gem_bind(&mut self, data: &GemBind, hw: &mut Vec<HwOp>) -> (r: Result<u32>)
        requires
            old(self).wf(),
        ensures
            final(self).wf(),
            final(self).same_but_vms(old(self)),
            data.extensions != 0 || data.op > ASAHI_BIND_OP_UNBIND_ALL ==> r == Err::<u32, Error>(
                Error::EINVAL,
            ) && final(self).vms@ == old(self).vms@ && final(hw)@ == old(hw)@,
            data.extensions == 0 && data.op == ASAHI_BIND_OP_BIND ==> gem_bind_done(
                old(self),
                final(self),
                *data,
                old(hw)@,
                final(hw)@,
                r,
            ),
            data.extensions == 0 && data.op == ASAHI_BIND_OP_UNBIND ==> gem_unbind_done(
                old(self),
                final(self),
                *data,
                old(hw)@,
                final(hw)@,
                r,
            ),
            data.extensions == 0 && data.op == ASAHI_BIND_OP_UNBIND_ALL ==> gem_unbind_all_done(
                old(self),
                final(self),
                *data,
                old(hw)@,
                final(hw)@,
                r,
            ),
    {
        if data.extensions != 0 {
            return Err(Error::EINVAL);
        }
        if data.op == ASAHI_BIND_OP_BIND {
            self.do_gem_bind(data, hw)
        } else if data.op == ASAHI_BIND_OP_UNBIND {
            self.do_gem_unbind(data, hw)
        } else if data.op == ASAHI_BIND_OP_UNBIND_ALL {
            self.do_gem_unbind_all(data, hw)
        } else {
            Err(Error::EINVAL)
        }
    }

    /// Whether everything but the address spaces is the same in both.
    pub open spec fn same_but_vms(&self, other: &File) -> bool {
        &&& self.id == other.id
        &&& self.queues == other.queues
        &&& self.objects == other.objects
        &&& self.syncobjs == other.syncobjs
        &&& self.retired@ == other.retired@
        &&& self.vms@.len() == other.vms@.len()
        &&& forall|id: u32| self.vms.spec_contains(id) == other.vms.spec_contains(id)
    }

    /// Binds a range of an object in an address space of the client.
    ///
    /// The mapping is readable, writable or both as the flags say. What was
    /// bound in the range before is unmapped first.
    ///
    /// Fails, changing nothing, with `EINVAL` when the address, the range
    /// or the offset is not a multiple of the page size, a flag is not
    /// known, the range is empty, wraps around, does not lie in the usable
    /// user range or has an address in common with the part set aside for
    /// the kernel, neither reading nor writing is asked for, or the object
    /// is private to another address space; and with `ENOENT` when the
    /// client has no object of that handle or no address space of that id.
    /// Fails with `EINVAL` or `EEXIST` when the pages of the object cannot
    /// be mapped, see `Vm::bind_object`.
    pub fn do_gem_bind(&mut self, data: &GemBind, hw: &mut Vec<HwOp>) -> (r: Result<u32>)
        requires
            old(self).wf(),
        ensures
            final(self).wf(),
            final(self).same_but_vms(old(self)),
            gem_bind_done(old(self), final(self), *data, old(hw)@, final(hw)@, r),
    {
        if data.addr % UAT_PGSZ != 0 || data.range % UAT_PGSZ != 0 || data.offset % UAT_PGSZ != 0 {
            return Err(Error::EINVAL);  // Must be page aligned
        }
        if (data.flags & !(ASAHI_BIND_READ | ASAHI_BIND_WRITE)) != 0 {
            return Err(Error::EINVAL);
        }
        let bo = match self.objects.get(data.handle) {
            Some(bo) => bo,
            None => {
                return Err(Error::ENOENT);
            },
        };
        let start = data.addr;
        let end = match data.addr.checked_add(data.range) {
            Some(end) => end,
            None => {
                return Err(Error::EINVAL);
            },
        };
        if !(start >= end || (start >= IOVA_USER_BASE && end <= IOVA_UNK_PAGE)) {
            return Err(Error::EINVAL);  // Invalid map range
        }
        proof {
            lemma_bind_flags(data.flags);
        }
        let prot: u32 = if data.flags & ASAHI_BIND_READ != 0 {
            if data.flags & ASAHI_BIND_WRITE != 0 {
                PROT_GPU_SHARED_RW
            } else {
                PROT_GPU_SHARED_RO
            }
        } else if data.flags & ASAHI_BIND_WRITE != 0 {
            PROT_GPU_SHARED_WO
        } else {
            return Err(Error::EINVAL);  // Must specify one of ASAHI_BIND_{READ,WRITE}
        };
        let (kernel_start, kernel_end) = match self.vms.get(data.vm_id) {
            Some(fv) => (fv.kernel_range.start, fv.kernel_range.end),
            None => {
                return Err(Error::ENOENT);
            },
        };
        if start < end && start < kernel_end && kernel_start < end {
            return Err(Error::EINVAL);
        }
        if bo.flags & ASAHI_GEM_VM_PRIVATE != 0 {
            let owned = match bo.vm_id {
                Some(owner) => owner == data.vm_id as u64,
                None => false,
            };
            if !owned {
                return Err(Error::EINVAL);
            }
        }
        if data.range == 0 {
            return Err(Error::EINVAL);
        }
        let mut fv = match self.vms.remove(data.vm_id) {
            Some(fv) => fv,
            None => {
                return Err(Error::ENOENT);
            },
        };
        proof {
            reveal(crate::mmu::vm::vas_wf);
            assert(fv.vm.spec_bind_valid(data.addr, data.range, data.offset));
        }
        let res = fv.vm.bind_object(
            bo.id,
            bo.pages.as_slice(),
            data.addr,
            data.range,
            data.offset,
            prot,
            hw,
        );
        self.vms.restore(data.vm_id, fv);
        proof {
            assert forall|id: u32| #[trigger] self.vms.spec_contains(id) implies self.vms.spec_get(
                id,
            ).wf() by {
                if id != data.vm_id {
                    assert(old(self).vms.spec_contains(id));
                }
            }
        }
        match res {
            Ok(()) => Ok(0),
            Err(e) => Err(e),
        }
    }

    /// Unmaps an address range in an address space of the client. Of what
    /// is bound there, the parts outside the range stay bound. Unmapping a
    /// range where nothing is bound is not an error.
    ///
    /// Fails, changing nothing, with `EINVAL` when the offset, the flags or
    /// the handle is not zero, the address or the range is not a multiple
    /// of the page size, or the range wraps around, does not lie in the
    /// usable user range or has an address in common with the part set
    /// aside for the kernel; and with `ENOENT` when the client has no
    /// address space of that id.
    pub fn do_gem_unbind(&mut self, data: &GemBind, hw: &mut Vec<HwOp>) -> (r: Result<u32>)
        requires
            old(self).wf(),
        ensures
            final(self).wf(),
            final(self).same_but_vms(old(self)),
            gem_unbind_done(old(self), final(self), *data, old(hw)@, final(hw)@, r),
    {
        if data.offset != 0 || data.flags != 0 || data.handle != 0 {
            return Err(Error::EINVAL);
        }
        if data.addr % UAT_PGSZ != 0 || data.range % UAT_PGSZ != 0 {
            return Err(Error::EINVAL);  // Must be page aligned
        }
        let start = data.addr;
        let end = match data.addr.checked_add(data.range) {
            Some(end) => end,
            None => {
                return Err(Error::EINVAL);
            },
        };
        if !(start >= end || (start >= IOVA_USER_BASE && end <= IOVA_UNK_PAGE)) {
            return Err(Error::EINVAL);  // Invalid map range
        }
        let (kernel_start, kernel_end) = match self.vms.get(data.vm_id) {
            Some(fv) => (fv.kernel_range.start, fv.kernel_range.end),
            None => {
                return Err(Error::ENOENT);
            },
        };
        if start < end && start < kernel_end && kernel_start < end {
            return Err(Error::EINVAL);
        }
        if data.range == 0 {
            // Nothing is mapped in a range that holds nothing.
            proof {
                assert(hw@ =~= old(hw)@ + Seq::<HwOp>::empty());
            }
            return Ok(0);
        }
        let mut fv = match self.vms.remove(data.vm_id) {
            Some(fv) => fv,
            None => {
                return Err(Error::ENOENT);
            },
        };
        proof {
            reveal(crate::mmu::vm::vas_wf);
            assert(fv.vm.spec_bind_range_valid(data.addr, data.range));
        }
        let res = fv.vm.unmap_range(data.addr, data.range, hw);
        self.vms.restore(data.vm_id, fv);
        proof {
            assert forall|id: u32| #[trigger] self.vms.spec_contains(id) implies self.vms.spec_get(
                id,
            ).wf() by {
                if id != data.vm_id {
                    assert(old(self).vms.spec_contains(id));
                }
            }
        }
        match res {
            Ok(()) => Ok(0),
            Err(e) => Err(e),
        }
    }

    /// Drops all mappings of a buffer object in every address space of the
    /// client. This is what closing the client's handle of the object
    /// does.
    pub fn unbind_gem_object(&mut self, bo: u64, hw: &mut Vec<HwOp>)
        requires
            old(self).wf(),
        ensures
            final(self).wf(),
            final(self).same_but_vms(old(self)),
            unbound_in_all(old(self), final(self), bo),
            final(hw)@ == old(hw)@ + spec_unbind_all_ops(
                old(self).vms@,
                bo,
                old(self).vms@.len() as int,
            ),
    {
        let n: u32 = self.vms.capacity();
        let mut id: u32 = 1;
        proof {
            assert(hw@ =~= old(hw)@ + Seq::<HwOp>::empty());
        }
        while id <= n
            invariant
                1 <= id <= n + 1,
                n == old(self).vms@.len(),
                n < u32::MAX,
                self.wf(),
                self.same_but_vms(old(self)),
                old(self).wf(),
                forall|k: u32|
                    1 <= k < id && #[trigger] self.vms.spec_contains(k) ==> unbound_in(
                        old(self).vms.spec_get(k),
                        self.vms.spec_get(k),
                        bo,
                    ),
                forall|k: u32|
                    k >= id && #[trigger] self.vms.spec_contains(k) ==> self.vms.spec_get(k) == old(
                        self,
                    ).vms.spec_get(k),
                hw@ == old(hw)@ + spec_unbind_all_ops(old(self).vms@, bo, id - 1),
            decreases n + 1 - id,
        {
            let ghost before = self.vms;
            let ghost hw_before = hw@;
            proof {
                if before.spec_contains(id) {
                    assert(before.spec_get(id) == old(self).vms.spec_get(id));
                    assert(old(self).vms.spec_contains(id));
                } else {
                    assert(!old(self).vms.spec_contains(id));
                }
            }
            match self.vms.remove(id) {
                Some(fv) => {
                    let mut fv = fv;
                    let ghost fv0 = fv;
                    fv.vm.drop_mappings(bo, hw);
                    self.vms.restore(id, fv);
                    proof {
                        assert(hw@ =~= old(hw)@ + (spec_unbind_all_ops(
                            old(self).vms@,
                            bo,
                            id - 1,
                        ) + fv0.vm.spec_bo_ops(fv0.vm.page_table@, fv0.vm.vas@, bo)));
                        assert forall|k: u32| #[trigger]
                            self.vms.spec_contains(k) implies self.vms.spec_get(k).wf() by {
                            if k != id {
                                assert(before.spec_contains(k));
                            }
                        }
                        assert forall|k: u32|
                            1 <= k < id + 1 && #[trigger] self.vms.spec_contains(
                                k,
                            ) implies unbound_in(
                            old(self).vms.spec_get(k),
                            self.vms.spec_get(k),
                            bo,
                        ) by {
                            if k != id {
                                assert(before.spec_contains(k));
                            }
                        }
                        assert forall|k: u32|
                            k >= id + 1 && #[trigger] self.vms.spec_contains(
                                k,
                            ) implies self.vms.spec_get(k) == old(self).vms.spec_get(k) by {
                            assert(before.spec_contains(k));
                        }
                    }
                },
                None => {},
            }
            id = id + 1;
        }
    }

    /// Unmaps all ranges of an object in one address space of the client,
    /// or in all of them when the address space named is 0.
    ///
    /// Fails, changing nothing, with `EINVAL` when the flags, the offset,
    /// the range or the address is not zero, and with `ENOENT` when the
    /// client has no object of that handle or no address space of that id.
    pub fn do_gem_unbind_all(&mut self, data: &GemBind, hw: &mut Vec<HwOp>) -> (r: Result<u32>)
        requires
            old(self).wf(),
        ensures
            final(self).wf(),
            final(self).same_but_vms(old(self)),
            gem_unbind_all_done(old(self), final(self), *data, old(hw)@, final(hw)@, r),
    {
        if data.flags != 0 || data.offset != 0 || data.range != 0 || data.addr != 0 {
            return Err(Error::EINVAL);
        }
        let bo: u64 = match self.objects.get(data.handle) {
            Some(bo) => bo.id,
            None => {
                return Err(Error::ENOENT);
            },
        };
        if data.vm_id == 0 {
            self.unbind_gem_object(bo, hw);
        } else {
            let mut fv = match self.vms.remove(data.vm_id) {
                Some(fv) => fv,
                None => {
                    return Err(Error::ENOENT);
                },
            };
            fv.vm.drop_mappings(bo, hw);
            self.vms.restore(data.vm_id, fv);
            proof {
                assert forall|id: u32| #[trigger]
                    self.vms.spec_contains(id) implies self.vms.spec_get(id).wf() by {
                    if id != data.vm_id {
                        assert(old(self).vms.spec_contains(id));
                    }
                }
            }
        }
        Ok(0)
    }

    /// IOCTL: queue_create: Create a new command submission queue of a
    /// given type.
    ///
    /// The queue gets the lowest free id, which is written to `data`. It
    /// runs in the address space `data.vm_id` of the client.
    ///
    /// Fails with `EINVAL` when the reserved field or the flags are not
    /// zero, the priority is above 3, or the capabilities are none or not
    /// known; with `EBUSY` when the ids have run out; with `ENOENT` when
    /// the client has no address space of that id; with `ENOMEM` when the
    /// tile vertex buffer of a render queue cannot be made. A failed call
    /// changes nothing.
    pub fn queue_create(&mut self, data: &mut QueueCreate, res: &QueueResources) -> (r: Result<u32>)
        requires
            old(self).wf(),
        ensures
            final(self).wf(),
            final(self).id == old(self).id,
            final(self).vms == old(self).vms,
            final(self).objects == old(self).objects,
            final(self).syncobjs == old(self).syncobjs,
            r is Ok <==> spec_queue_create_error(old(self), *old(data), *res) is None,
            r matches Err(e) ==> Some(e) == spec_queue_create_error(old(self), *old(data), *res)
                && final(self).queues@ == old(self).queues@ && *final(data) == *old(data),
            r matches Ok(v) ==> {
                let id = final(data).queue_id;
                let q = final(self).queues.spec_get(id);
                &&& v == 0
                &&& id == old(self).queues.spec_next_id()
                &&& *final(data) == (QueueCreate { queue_id: id, ..*old(data) })
                &&& final(self).queues.spec_contains(id)
                &&& q == Queue::spec_new(
                    (QueueResources { vm_id: old(data).vm_id as u64, ..*res }),
                    old(data).priority,
                    old(data).queue_caps,
                    q.buffer,
                )
                &&& q.buffer is Some <==> old(data).queue_caps & crate::queue::QUEUE_CAP_RENDER != 0
                &&& q.buffer matches Some(b) ==> b.spec_block_count() == res.tvb_blocks
                &&& forall|other: u32|
                    other != id ==> final(self).queues.spec_contains(other) == old(
                        self,
                    ).queues.spec_contains(other) && (old(self).queues.spec_contains(other)
                        ==> final(self).queues.spec_get(other) == old(self).queues.spec_get(other))
            },
    {
        if data.extensions != 0 || data.flags != 0 || data.priority > 3 || data.queue_caps == 0
            || (data.queue_caps & !(crate::queue::QUEUE_CAP_RENDER | crate::queue::QUEUE_CAP_BLIT
            | crate::queue::QUEUE_CAP_COMPUTE)) != 0 {
            return Err(Error::EINVAL);
        }
        match self.queues.next_id() {
            Ok(_) => {},
            Err(e) => {
                return Err(e);
            },
        }
        if !self.vms.contains(data.vm_id) {
            return Err(Error::ENOENT);
        }
        let res_local = QueueResources { vm_id: data.vm_id as u64, ..*res };
        let queue = match Queue::new(&res_local, data.priority, data.queue_caps) {
            Ok(q) => q,
            Err(e) => {
                return Err(e);
            },
        };
        let id = match self.queues.insert(queue) {
            Ok(id) => id,
            Err(e) => {
                assert(false);
                return Err(e);
            },
        };
        data.queue_id = id;
        Ok(0)
    }

    /// IOCTL: queue_destroy: Destroy a command submission queue.
    ///
    /// Fails with `EINVAL` when the reserved field is not zero and with
    /// `ENOENT` when the client has no queue of that id; nothing changes
    /// then.
    pub fn queue_destroy(&mut self, data: &QueueDestroy) -> (r: Result<u32>)
        requires
            old(self).wf(),
        ensures
            final(self).wf(),
            final(self).id == old(self).id,
            final(self).vms == old(self).vms,
            final(self).objects == old(self).objects,
            final(self).syncobjs == old(self).syncobjs,
            r is Ok <==> data.extensions == 0 && old(self).queues.spec_contains(data.queue_id),
            r matches Ok(v) ==> v == 0 && !final(self).queues.spec_contains(data.queue_id),
            r matches Err(e) ==> final(self).queues@ == old(self).queues@ && e == (if data.extensions
                != 0 {
                Error::EINVAL
            } else {
                Error::ENOENT
            }),
            forall|other: u32|
                other != data.queue_id ==> final(self).queues.spec_contains(other) == old(
                    self,
                ).queues.spec_contains(other) && (old(self).queues.spec_contains(other)
                    ==> final(self).queues.spec_get(other) == old(self).queues.spec_get(other)),
    {
        if data.extensions != 0 {
            return Err(Error::EINVAL);
        }
        match self.queues.remove(data.queue_id) {
            Some(_) => Ok(0),
            None => Err(Error::ENOENT),
        }
    }

    /// IOCTL: submit: Submit GPU work to a command submission queue.
    ///
    /// `mem` holds the userspace memory that the submission names: the
    /// arrays of its input syncs, its output syncs and its commands.
    /// `payloads` holds, for each command in order, what the command points
    /// to. `cur_slot` is the current-slot word of the handoff region.
    ///
    /// The address space of the queue is bound to a context slot for the
    /// submission. The binding is returned with the submission; it is to be
    /// given up when the work has completed.
    ///
    /// Fails, changing nothing, with the error that `spec_submit_error`
    /// names. Beyond that it fails with `ENOENT` when the address space of
    /// the queue is gone, with `EBUSY` when no context slot is free, and
    /// when a command is refused with the reason for that; the queue is as
    /// it was then.
    pub fn submit(
        &mut self,
        data: &Submit,
        mem: &SubmitMemory,
        payloads: &Vec<RenderPayload>,
        uat: &mut Uat,
        cur_slot: u32,
        hw: &mut Vec<HwOp>,
    ) -> (r: Result<(u32, Submission, VmBind)>)
        requires
            old(self).wf(),
            old(uat).wf(),
        ensures
            final(self).wf(),
            final(uat).wf(),
            final(self).id == old(self).id,
            final(self).objects == old(self).objects,
            final(self).syncobjs == old(self).syncobjs,
            spec_submit_error(old(self), *data, *mem) matches Some(e) ==> r == Err::<
                (u32, Submission, VmBind),
                Error,
            >(e) && final(self).queues@ == old(self).queues@ && final(self).vms@ == old(self).vms@
                && *final(uat) == *old(uat) && final(hw)@ == old(hw)@,
            r is Err ==> final(self).queues@ == old(self).queues@,
            old(hw)@.len() <= final(hw)@.len(),
            final(hw)@.subrange(0, old(hw)@.len() as int) == old(hw)@,
            old(self).queues.spec_contains(data.queue_id) && old(self).queues.spec_get(
                data.queue_id,
            ).vm_id <= u32::MAX ==> submit_bound(
                old(self),
                final(self),
                old(self).queues.spec_get(data.queue_id).vm_id as u32,
                r,
            ),
            old(self).queues.spec_contains(data.queue_id) && old(self).queues.spec_get(
                data.queue_id,
            ).vm_id <= u32::MAX && old(self).vms.spec_contains(
                old(self).queues.spec_get(data.queue_id).vm_id as u32,
            ) && old(uat).slot_holds(
                &old(self).vms.spec_get(old(self).queues.spec_get(data.queue_id).vm_id as u32).vm,
            ) ==> final(uat).slot_holds(
                &final(self).vms.spec_get(
                    old(self).queues.spec_get(data.queue_id).vm_id as u32,
                ).vm,
            ),
            r is Ok ==> crate::mmu::uat::bind_step(
                old(uat),
                final(uat),
                &old(self).vms.spec_get(old(self).queues.spec_get(data.queue_id).vm_id as u32).vm,
                &final(self).vms.spec_get(
                    old(self).queues.spec_get(data.queue_id).vm_id as u32,
                ).vm,
            ),
            spec_submit_error(old(self), *data, *mem) is None ==> (r is Ok <==> spec_submit_late_error(
                old(self),
                *data,
                *mem,
                payloads@,
                old(uat),
            ) is None) && (r matches Err(e) ==> Some(e) == spec_submit_late_error(
                old(self),
                *data,
                *mem,
                payloads@,
                old(uat),
            )),
            r matches Ok(out) ==> {
                let q0 = old(self).queues.spec_get(data.queue_id);
                let commands = Seq::new(
                    data.command_count as nat,
                    |i: int| spec_command(mem.commands@, i * 56),
                );
                let result_buf_size = if data.result_handle != 0 {
                    Some(old(self).objects.spec_get(data.result_handle).size)
                } else {
                    None
                };
                &&& spec_submit_error(old(self), *data, *mem) is None
                &&& out.0 == 0
                &&& payloads@.len() == data.command_count
                &&& final(self).queues.spec_contains(data.queue_id)
                &&& Some(final(self).queues.spec_get(data.queue_id)) == spec_submit_state(
                    q0,
                    commands,
                    payloads@,
                    result_buf_size,
                    data.command_count as int,
                )
                &&& crate::queue::submission_built(
                    q0,
                    out.2.slot,
                    commands,
                    payloads@,
                    result_buf_size,
                    out.1.job.frag@,
                    out.1.job.vtx@,
                    out.1.results@,
                )
                &&& out.1.results@.len() == data.command_count
                &&& out.1.in_syncs@.len() == data.in_sync_count
                &&& out.1.out_syncs@.len() == data.out_sync_count
                &&& out.1.job.vm_slot == out.2.slot
                &&& forall|other: u32|
                    other != data.queue_id ==> final(self).queues.spec_contains(other) == old(
                        self,
                    ).queues.spec_contains(other) && (old(self).queues.spec_contains(other)
                        ==> final(self).queues.spec_get(other) == old(self).queues.spec_get(other))
            },
    {
        if data.extensions != 0 {
            return Err(Error::EINVAL);
        }
        if data.flags != 0 {
            return Err(Error::EINVAL);
        }
        if data.command_count > MAX_COMMANDS_PER_SUBMISSION {
            return Err(Error::EINVAL);
        }
        let mut queue: Queue = match self.queues.get(data.queue_id) {
            Some(q) => *q,
            None => {
                return Err(Error::ENOENT);
            },
        };
        let in_syncs = match SyncItem::parse_array(
            &self.syncobjs,
            mem.in_syncs.as_slice(),
            data.in_sync_count,
            false,
        ) {
            Ok(v) => v,
            Err(e) => {
                return Err(e);
            },
        };
        let out_syncs = match SyncItem::parse_array(
            &self.syncobjs,
            mem.out_syncs.as_slice(),
            data.out_sync_count,
            true,
        ) {
            Ok(v) => v,
            Err(e) => {
                return Err(e);
            },
        };
        let result_buf_size: Option<u64> = if data.result_handle != 0 {
            match self.objects.get(data.result_handle) {
                Some(bo) => Some(bo.size),
                None => {
                    return Err(Error::ENOENT);
                },
            }
        } else {
            None
        };
        let commands = match parse_commands(mem.commands.as_slice(), data.command_count) {
            Ok(c) => c,
            Err(e) => {
                return Err(e);
            },
        };
        // The submission runs in the queue's address space, which has to
        // be bound to a context slot for as long as the work runs.
        if queue.vm_id > u32::MAX as u64 {
            return Err(Error::ENOENT);
        }
        let vm_id: u32 = queue.vm_id as u32;
        let mut fv = match self.vms.remove(vm_id) {
            Some(fv) => fv,
            None => {
                return Err(Error::ENOENT);
            },
        };
        let ghost vms_before = self.vms;
        let bind = match uat.bind(&mut fv.vm, cur_slot, hw) {
            Ok(b) => b,
            Err(e) => {
                self.vms.restore(vm_id, fv);
                proof {
                    assert forall|id: u32| #[trigger]
                        self.vms.spec_contains(id) implies self.vms.spec_get(id).wf() by {
                        if id != vm_id {
                            assert(old(self).vms.spec_contains(id));
                        }
                    }
                }
                return Err(e);
            },
        };
        let ret = queue.submit(
            bind.slot(),
            in_syncs,
            out_syncs,
            result_buf_size,
            &commands,
            payloads,
        );
        let submission = match ret {
            Ok(s) => s,
            Err(e) => {
                uat.unbind(&mut fv.vm, bind);
                self.vms.restore(vm_id, fv);
                proof {
                    assert forall|id: u32| #[trigger]
                        self.vms.spec_contains(id) implies self.vms.spec_get(id).wf() by {
                        if id != vm_id {
                            assert(old(self).vms.spec_contains(id));
                        }
                    }
                }
                // A restart of the system call is passed on as it is; any
                // other error is reported and returned.
                return Err(e);
            },
        };
        self.vms.restore(vm_id, fv);
        self.queues.replace(data.queue_id, queue);
        proof {
            assert forall|id: u32| #[trigger]
                self.vms.spec_contains(id) implies self.vms.spec_get(id).wf() by {
                if id != vm_id {
                    assert(old(self).vms.spec_contains(id));
                }
            }
            assert forall|id: u32| #[trigger]
                self.queues.spec_contains(id) implies self.queues.spec_get(id).wf() by {
                if id != data.queue_id {
                    assert(old(self).queues.spec_contains(id));
                }
            }
        }
        Ok((0, submission, bind))
    }
}

/// The first reason to refuse to unmap a range, if any.
pub open spec fn spec_gem_unbind_error(file: &File, data: GemBind) -> Option<Error> {
    if data.offset != 0 || data.flags != 0 || data.handle != 0 {
        Some(Error::EINVAL)
    } else if data.addr % UAT_PGSZ != 0 || data.range % UAT_PGSZ != 0 {
        Some(Error::EINVAL)
    } else if data.addr + data.range > u64::MAX {
        Some(Error::EINVAL)
    } else if !in_user_range(data.addr, data.range) {
        Some(Error::EINVAL)
    } else if !file.vms.spec_contains(data.vm_id) {
        Some(Error::ENOENT)
    } else if overlaps_kernel(file.vms.spec_get(data.vm_id), data.addr, data.range) {
        Some(Error::EINVAL)
    } else {
        None
    }
}

/// What unmapping a range does: it is refused for the reason that
/// `spec_gem_unbind_error` gives, changing nothing; otherwise it succeeds,
/// the address space unmaps the range, see `Vm::unmap_range`, and no other
/// address space changes.
pub open spec fn gem_unbind_done(
    before: &File,
    after: &File,
    data: GemBind,
    hw_before: Seq<HwOp>,
    hw_after: Seq<HwOp>,
    r: Result<u32>,
) -> bool {
    match spec_gem_unbind_error(before, data) {
        Some(e) => r == Err::<u32, Error>(e) && after.vms@ == before.vms@ && hw_after == hw_before,
        None => {
            let vm0 = before.vms.spec_get(data.vm_id).vm;
            let vm1 = after.vms.spec_get(data.vm_id).vm;
            let end = (data.addr + data.range) as u64;
            &&& r == Ok::<u32, Error>(0)
            &&& others_same(before, after, data.vm_id)
            &&& vm1.same_config(&vm0)
            &&& vm1.nodes@ == vm0.nodes@
            &&& data.range == 0 ==> vm1.vas@ == vm0.vas@ && vm1.page_table@ == vm0.page_table@
                && hw_after == hw_before
            &&& data.range > 0 ==> {
                &&& vm1.vas@ == crate::mmu::vm::spec_sm_unmap(vm0.vas@, data.addr, end)
                &&& vm1.page_table@ == crate::mmu::vm::spec_unmap_vas(
                    vm0.page_table@,
                    vm0.vas@,
                    data.addr,
                    end,
                )
                &&& hw_after == hw_before + vm0.spec_unmap_ops(
                    vm0.page_table@,
                    vm0.vas@,
                    data.addr,
                    end,
                )
            }
        },
    }
}

/// Whether `after` is the address space `before` with the ranges of the
/// object `bo` unmapped.
pub open spec fn unbound_in(before: FileVm, after: FileVm, bo: u64) -> bool {
    &&& after.kernel_range == before.kernel_range
    &&& after.ualloc == before.ualloc
    &&& after.ualloc_priv == before.ualloc_priv
    &&& after.dummy_obj == before.dummy_obj
    &&& after.dummy_mapping == before.dummy_mapping
    &&& after.vm.same_config(&before.vm)
    &&& after.vm.nodes@ == before.vm.nodes@
    &&& after.vm.vas@ == crate::mmu::vm::spec_without_bo(before.vm.vas@, bo)
    &&& after.vm.page_table@ == crate::mmu::vm::spec_unmap_bo(
        before.vm.page_table@,
        before.vm.vas@,
        bo,
    )
}

/// Whether every address space of `after` is that of `before` with the
/// ranges of the object `bo` unmapped.
pub open spec fn unbound_in_all(before: &File, after: &File, bo: u64) -> bool {
    forall|id: u32| #[trigger]
        after.vms.spec_contains(id) ==> unbound_in(
            before.vms.spec_get(id),
            after.vms.spec_get(id),
            bo,
        )
}

/// What unmapping all ranges of an object does: it is refused with `EINVAL`
/// when a field that has to be zero is not, and with `ENOENT` when the
/// object or the address space does not exist, changing nothing; otherwise
/// it succeeds and the ranges of the object are unmapped in the address
/// space named, or in all when 0 is named.
pub open spec fn gem_unbind_all_done(
    before: &File,
    after: &File,
    data: GemBind,
    hw_before: Seq<HwOp>,
    hw_after: Seq<HwOp>,
    r: Result<u32>,
) -> bool {
    if data.flags != 0 || data.offset != 0 || data.range != 0 || data.addr != 0 {
        r == Err::<u32, Error>(Error::EINVAL) && after.vms@ == before.vms@ && hw_after
            == hw_before
    } else if !before.objects.spec_contains(data.handle) {
        r == Err::<u32, Error>(Error::ENOENT) && after.vms@ == before.vms@ && hw_after
            == hw_before
    } else if data.vm_id == 0 {
        &&& r == Ok::<u32, Error>(0)
        &&& unbound_in_all(before, after, before.objects.spec_get(data.handle).id)
        &&& hw_after == hw_before + spec_unbind_all_ops(
            before.vms@,
            before.objects.spec_get(data.handle).id,
            before.vms@.len() as int,
        )
    } else if !before.vms.spec_contains(data.vm_id) {
        r == Err::<u32, Error>(Error::ENOENT) && after.vms@ == before.vms@ && hw_after
            == hw_before
    } else {
        let vm = before.vms.spec_get(data.vm_id).vm;
        &&& r == Ok::<u32, Error>(0)
        &&& others_same(before, after, data.vm_id)
        &&& unbound_in(
            before.vms.spec_get(data.vm_id),
            after.vms.spec_get(data.vm_id),
            before.objects.spec_get(data.handle).id,
        )
        &&& hw_after == hw_before + vm.spec_bo_ops(
            vm.page_table@,
            vm.vas@,
            before.objects.spec_get(data.handle).id,
        )
    }
}

/// What dropping the mappings of the object `bo` in the first `n` address
/// spaces of a client asks of the hardware: for each address space in the
/// order of the ids what `Vm::drop_mappings` asks for.
pub open spec fn spec_unbind_all_ops(vms: Seq<Option<FileVm>>, bo: u64, n: int) -> Seq<HwOp>
    decreases n,
{
    if n <= 0 {
        Seq::empty()
    } else {
        let before = spec_unbind_all_ops(vms, bo, n - 1);
        match vms[n - 1] {
            Some(fv) => before + fv.vm.spec_bo_ops(fv.vm.page_table@, fv.vm.vas@, bo),
            None => before,
        }
    }
}

/// Arguments of the `QUEUE_CREATE` ioctl.
#[derive(Clone, Copy, Debug, PartialEq, Eq, Structural)]
pub struct QueueCreate {
    pub extensions: u64,
    pub flags: u32,
    /// Identifier of the address space that the queue runs in.
    pub vm_id: u32,
    /// Capabilities of the queue.
    pub queue_caps: u32,
    /// Priority of the queue, 0 to 3.
    pub priority: u32,
    /// Identifier of the new queue; written by the driver.
    pub queue_id: u32,
}

/// Arguments of the `QUEUE_DESTROY` ioctl.
#[derive(Clone, Copy, Debug, PartialEq, Eq, Structural)]
pub struct QueueDestroy {
    pub extensions: u64,
    pub queue_id: u32,
}

/// Arguments of the `SUBMIT` ioctl.
#[derive(Clone, Copy, Debug, PartialEq, Eq, Structural)]
pub struct Submit {
    pub extensions: u64,
    /// Userspace address of the array of input syncs.
    pub in_syncs: u64,
    /// Userspace address of the array of output syncs.
    pub out_syncs: u64,
    /// Userspace address of the array of commands.
    pub commands: u64,
    pub flags: u32,
    pub queue_id: u32,
    /// Handle of the buffer object that result records go to, or 0.
    pub result_handle: u32,
    pub in_sync_count: u32,
    pub out_sync_count: u32,
    pub command_count: u32,
}

/// The userspace memory that a submission names.
pub struct SubmitMemory {
    /// The memory at the address of the input syncs.
    pub in_syncs: Vec<u8>,
    /// The memory at the address of the output syncs.
    pub out_syncs: Vec<u8>,
    /// The memory at the address of the commands.
    pub commands: Vec<u8>,
}

/// The first error that makes `QUEUE_CREATE` fail, if any.
pub open spec fn spec_queue_create_error(file: &File, data: QueueCreate, res: QueueResources)
    -> Option<Error> {
    if data.extensions != 0 || data.flags != 0 || data.priority > 3 || !caps_valid(
        data.queue_caps,
    ) {
        Some(Error::EINVAL)
    } else if file.queues.spec_next_id() >= u32::MAX {
        Some(Error::EBUSY)
    } else if !file.vms.spec_contains(data.vm_id) {
        Some(Error::ENOENT)
    } else if data.queue_caps & crate::queue::QUEUE_CAP_RENDER != 0 && res.tvb_blocks
        > crate::buffer::MAX_BLOCKS {
        Some(Error::ENOMEM)
    } else {
        None
    }
}

/// The first error that makes `SUBMIT` fail before the queue is asked, if
/// any: `EINVAL` when the reserved field or the flags are not zero or there
/// are more than `MAX_COMMANDS_PER_SUBMISSION` commands; `ENOENT` when the
/// client has no queue of that id; `EFAULT` when the memory of the input
/// syncs is too short, or the error of the first input sync that is
/// refused; the same for the output syncs; `ENOENT` when the client has no
/// object of the result handle; `EFAULT` when the memory of the commands is
/// too short.
pub open spec fn spec_submit_error(file: &File, data: Submit, mem: SubmitMemory) -> Option<Error> {
    if data.extensions != 0 {
        Some(Error::EINVAL)
    } else if data.flags != 0 {
        Some(Error::EINVAL)
    } else if data.command_count > MAX_COMMANDS_PER_SUBMISSION {
        Some(Error::EINVAL)
    } else if !file.queues.spec_contains(data.queue_id) {
        Some(Error::ENOENT)
    } else if spec_syncs_error(&file.syncobjs, mem.in_syncs@, data.in_sync_count, false) is Some {
        spec_syncs_error(&file.syncobjs, mem.in_syncs@, data.in_sync_count, false)
    } else if spec_syncs_error(&file.syncobjs, mem.out_syncs@, data.out_sync_count, true)
        is Some {
        spec_syncs_error(&file.syncobjs, mem.out_syncs@, data.out_sync_count, true)
    } else if data.result_handle != 0 && !file.objects.spec_contains(data.result_handle) {
        Some(Error::ENOENT)
    } else if mem.commands@.len() < data.command_count * COMMAND_STRIDE {
        Some(Error::EFAULT)
    } else {
        None
    }
}

/// What a submission does to the address spaces of a client: none but the
/// address space `vm_id` of the queue changes, and of that only the binding
/// to a slot. A submission that is accepted is one more user of the
/// binding, and says which slot the address space is bound to; one that is
/// refused leaves the number of users as it was.
pub open spec fn submit_bound(
    before: &File,
    after: &File,
    vm_id: u32,
    r: Result<(u32, Submission, VmBind)>,
) -> bool {
    &&& others_same(before, after, vm_id)
    &&& before.vms.spec_contains(vm_id) ==> {
        let v0 = before.vms.spec_get(vm_id).vm;
        let v1 = after.vms.spec_get(vm_id).vm;
        &&& v1.same_but_binding(&v0)
        &&& r is Err ==> v1.binding.active_users == v0.binding.active_users && v1.binding.binding
            == v0.binding.binding
        &&& r matches Ok(out) ==> {
            &&& v1.binding.active_users == v0.binding.active_users + 1
            &&& v1.binding.binding is Some
            &&& out.2 == (VmBind {
                vm_id: v0.id,
                slot: (v1.binding.binding->0.slot + crate::mmu::UAT_USER_CTX_START) as u32,
            })
        }
    }
}

/// The reason to refuse a submission that `spec_submit_error` lets pass, if
/// any: the address space of the queue is gone, no context slot is to be
/// had for it, `payloads` does not match the commands, or a command is
/// refused.
pub open spec fn spec_submit_late_error(
    file: &File,
    data: Submit,
    mem: SubmitMemory,
    payloads: Seq<RenderPayload>,
    uat: &Uat,
) -> Option<Error> {
    let q0 = file.queues.spec_get(data.queue_id);
    let commands = Seq::new(data.command_count as nat, |i: int| spec_command(mem.commands@, i * 56));
    let result_buf_size = if data.result_handle != 0 {
        Some(file.objects.spec_get(data.result_handle).size)
    } else {
        None
    };
    if q0.vm_id > u32::MAX || !file.vms.spec_contains(q0.vm_id as u32) {
        Some(Error::ENOENT)
    } else if !uat.spec_can_bind(&file.vms.spec_get(q0.vm_id as u32).vm) {
        Some(Error::EBUSY)
    } else if payloads.len() != data.command_count {
        Some(Error::EFAULT)
    } else {
        crate::queue::spec_submit_refusal(
            q0,
            commands,
            payloads,
            result_buf_size,
            data.command_count as int,
        )
    }
}

/// The error that makes reading an array of sync records fail, if any.
pub open spec fn spec_syncs_error(
    syncobjs: &IdTable<SyncObj>,
    data: Seq<u8>,
    count: u32,
    out: bool,
) -> Option<Error> {
    if data.len() < count * SYNC_STRIDE {
        Some(Error::EFAULT)
    } else if spec_sync_prefix(syncobjs, data, count as int, out) == count {
        None
    } else {
        match crate::sync::spec_parse_sync(
            syncobjs,
            crate::sync::spec_sync_record(
                data,
                spec_sync_prefix(syncobjs, data, count as int, out) * 24,
            ),
            out,
        ) {
            Err(e) => Some(e),
            Ok(_) => None,
        }
    }
}

/// Arguments of the `GEM_BIND` ioctl.
#[derive(Clone, Copy, Debug, PartialEq, Eq, Structural)]
pub struct GemBind {
    pub extensions: u64,
    /// The operation: bind, unbind or unbind all.
    pub op: u32,
    /// Binding flags.
    pub flags: u32,
    /// Handle of the object.
    pub handle: u32,
    /// Identifier of the address space.
    pub vm_id: u32,
    /// Offset into the object.
    pub offset: u64,
    /// Number of bytes.
    pub range: u64,
    /// Address in the address space.
    pub addr: u64,
}

/// Bind operation: map a range of an object.
pub const ASAHI_BIND_OP_BIND: u32 = 0;

/// Bind operation: unmap an address range.
pub const ASAHI_BIND_OP_UNBIND: u32 = 1;

/// Bind operation: unmap all ranges of an object.
pub const ASAHI_BIND_OP_UNBIND_ALL: u32 = 2;

/// Binding flag: the GPU may read the mapping.
pub const ASAHI_BIND_READ: u32 = 0x1;

/// Binding flag: the GPU may write the mapping.
pub const ASAHI_BIND_WRITE: u32 = 0x2;

/// Neither reading nor writing is asked for exactly if neither flag is set.
pub proof fn lemma_bind_flags(flags: u32)
    ensures
        (flags & (ASAHI_BIND_READ | ASAHI_BIND_WRITE) == 0) <==> (flags & ASAHI_BIND_READ == 0
            && flags & ASAHI_BIND_WRITE == 0),
{
    assert((flags & (1u32 | 2u32) == 0) <==> (flags & 1u32 == 0 && flags & 2u32 == 0))
        by (bit_vector);
}

/// The protection that the binding flags ask for: read-write, read-only or
/// write-only, always coherent and never executable.
pub open spec fn spec_bind_prot(flags: u32) -> u32 {
    if flags & ASAHI_BIND_READ != 0 {
        if flags & ASAHI_BIND_WRITE != 0 {
            PROT_GPU_SHARED_RW
        } else {
            PROT_GPU_SHARED_RO
        }
    } else {
        PROT_GPU_SHARED_WO
    }
}

/// Whether the `range` bytes at `addr` lie in the usable user range. A
/// range that holds nothing lies anywhere.
pub open spec fn in_user_range(addr: u64, range: u64) -> bool {
    range == 0 || (IOVA_USER_BASE <= addr && addr + range <= IOVA_UNK_PAGE)
}

/// Whether the `range` bytes at `addr` have an address in common with the
/// kernel's part of an address space.
pub open spec fn overlaps_kernel(fv: FileVm, addr: u64, range: u64) -> bool {
    range > 0 && addr < fv.kernel_range.end && fv.kernel_range.start < addr + range
}

/// The first reason to refuse a binding before anything is done, if any.
pub open spec fn spec_gem_bind_error(file: &File, data: GemBind) -> Option<Error> {
    if data.addr % UAT_PGSZ != 0 || data.range % UAT_PGSZ != 0 || data.offset % UAT_PGSZ != 0 {
        Some(Error::EINVAL)
    } else if data.flags & !(ASAHI_BIND_READ | ASAHI_BIND_WRITE) != 0 {
        Some(Error::EINVAL)
    } else if !file.objects.spec_contains(data.handle) {
        Some(Error::ENOENT)
    } else if data.addr + data.range > u64::MAX {
        Some(Error::EINVAL)
    } else if !in_user_range(data.addr, data.range) {
        Some(Error::EINVAL)
    } else if data.flags & (ASAHI_BIND_READ | ASAHI_BIND_WRITE) == 0 {
        Some(Error::EINVAL)
    } else if !file.vms.spec_contains(data.vm_id) {
        Some(Error::ENOENT)
    } else if overlaps_kernel(file.vms.spec_get(data.vm_id), data.addr, data.range) {
        Some(Error::EINVAL)
    } else if file.objects.spec_get(data.handle).flags & ASAHI_GEM_VM_PRIVATE != 0
        && file.objects.spec_get(data.handle).vm_id != Some(data.vm_id as u64) {
        Some(Error::EINVAL)
    } else if data.range == 0 {
        Some(Error::EINVAL)
    } else {
        None
    }
}

/// What a binding does: it is refused for the reason that
/// `spec_gem_bind_error` gives, changing nothing; otherwise the address
/// space binds the range, see `Vm::bind_object`, and no other address space
/// changes.
pub open spec fn gem_bind_done(
    before: &File,
    after: &File,
    data: GemBind,
    hw_before: Seq<HwOp>,
    hw_after: Seq<HwOp>,
    r: Result<u32>,
) -> bool {
    match spec_gem_bind_error(before, data) {
        Some(e) => r == Err::<u32, Error>(e) && after.vms@ == before.vms@ && hw_after == hw_before,
        None => {
            let vm0 = before.vms.spec_get(data.vm_id).vm;
            let vm1 = after.vms.spec_get(data.vm_id).vm;
            let bo = before.objects.spec_get(data.handle);
            let prot = spec_bind_prot(data.flags);
            let end = (data.addr + data.range) as u64;
            &&& r is Ok <==> vm0.spec_can_bind(bo.pages@, data.addr, data.range, data.offset, prot)
            &&& r matches Ok(v) ==> v == 0
            &&& r matches Err(e) ==> e == Error::EINVAL || e == Error::EEXIST
            &&& others_same(before, after, data.vm_id)
            &&& vm1.same_config(&vm0)
            &&& vm1.nodes@ == vm0.nodes@
            &&& hw_after == hw_before + vm0.spec_unmap_ops(
                vm0.page_table@,
                vm0.vas@,
                data.addr,
                end,
            )
            &&& vm1.vas@ == (if r is Ok {
                crate::mmu::vm::spec_sm_unmap(vm0.vas@, data.addr, end).push(
                    crate::mmu::vm::GpuVa {
                        addr: data.addr,
                        range: data.range,
                        bo: bo.id,
                        offset: data.offset,
                        prot,
                    },
                )
            } else {
                crate::mmu::vm::spec_sm_unmap(vm0.vas@, data.addr, end)
            })
            &&& r is Ok ==> vm1.page_table@ == crate::mmu::vm::spec_map_list(
                crate::mmu::vm::spec_unmap_vas(vm0.page_table@, vm0.vas@, data.addr, end),
                data.addr,
                Vm::spec_bound_pages(bo.pages@, data.range, data.offset),
                prot,
            )
        },
    }
}

/// Whether everything about the address spaces other than `vm_id` is the
/// same in both, and what is kept beside the address space `vm_id` too.
pub open spec fn others_same(before: &File, after: &File, vm_id: u32) -> bool {
    &&& after.vms@.len() == before.vms@.len()
    &&& after.vms.spec_contains(vm_id) == before.vms.spec_contains(vm_id)
    &&& forall|other: u32|
        other != vm_id ==> after.vms.spec_contains(other) == before.vms.spec_contains(other) && (
        before.vms.spec_contains(other) ==> after.vms.spec_get(other) == before.vms.spec_get(
            other,
        ))
    &&& before.vms.spec_contains(vm_id) ==> {
        let a = after.vms.spec_get(vm_id);
        let b = before.vms.spec_get(vm_id);
        &&& a.kernel_range == b.kernel_range
        &&& a.ualloc == b.ualloc
        &&& a.ualloc_priv == b.ualloc_priv
        &&& a.dummy_obj == b.dummy_obj
        &&& a.dummy_mapping == b.dummy_mapping
    }
}

/// Arguments of the `GEM_CREATE` ioctl.
#[derive(Clone, Copy, Debug, PartialEq, Eq, Structural)]
pub struct GemCreate {
    pub extensions: u64,
    /// Size of the object in bytes.
    pub size: u64,
    /// Creation flags.
    pub flags: u32,
    /// Address space that a private object belongs to.
    pub vm_id: u32,
    /// Handle of the new object; written by the driver.
    pub handle: u32,
}

/// Arguments of the `GEM_MMAP_OFFSET` ioctl.
#[derive(Clone, Copy, Debug, PartialEq, Eq, Structural)]
pub struct GemMmapOffset {
    pub extensions: u64,
    pub handle: u32,
    pub flags: u32,
    /// Fake file offset to map the object at; written by the driver.
    pub offset: u64,
}

/// The first error that makes `GEM_CREATE` fail, if any.
pub open spec fn spec_gem_create_error(file: &File, data: GemCreate, pages: Seq<u64>) -> Option<
    Error,
> {
    if data.extensions != 0 || (data.flags & !(ASAHI_GEM_WRITEBACK | ASAHI_GEM_VM_PRIVATE)) != 0
        || (data.flags & ASAHI_GEM_VM_PRIVATE == 0 && data.vm_id != 0) {
        Some(Error::EINVAL)
    } else if data.flags & ASAHI_GEM_VM_PRIVATE != 0 && !file.vms.spec_contains(data.vm_id) {
        Some(Error::ENOENT)
    } else if data.size + UAT_PGSZ - 1 > u64::MAX || pages.len() * UAT_PGSZ
        != crate::util::spec_align(data.size as int, UAT_PGSZ as int) {
        Some(Error::ENOMEM)
    } else if file.objects.spec_next_id() >= u32::MAX {
        Some(Error::EBUSY)
    } else {
        None
    }
}

} // verus!
