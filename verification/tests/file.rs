use asahi::buffer::Scene;
use asahi::error::Error;
use asahi::file::{
    get_params, get_time, File, GemBind, GemCreate, GemMmapOffset, GetParams, GetTime, GpuInfo,
    QueueCreate, QueueDestroy, Submit, SubmitMemory, VmCreate, VmDestroy, VmResources,
    ASAHI_BIND_OP_BIND, ASAHI_BIND_OP_UNBIND, ASAHI_BIND_OP_UNBIND_ALL, ASAHI_BIND_READ,
    ASAHI_BIND_WRITE, PARAMS_SIZE,
};
use asahi::gem::{ASAHI_GEM_VM_PRIVATE, ASAHI_GEM_WRITEBACK};
use asahi::microseq::OpSizes;
use asahi::mmu::pgtable::Pte;
use asahi::mmu::uat::Uat;
use asahi::mmu::{HwOp, PROT_GPU_SHARED_RO, PROT_GPU_SHARED_RW, PROT_GPU_SHARED_WO};
use asahi::queue::render::{FragmentPointers, RenderCommand, RenderEnv, VertexPointers};
use asahi::queue::{QueueResources, RenderPayload, QUEUE_CAP_COMPUTE, QUEUE_CAP_RENDER};
use asahi::workqueue::EventChannel;

const PG: u64 = 0x4000;

fn resources(vm_id: u64) -> VmResources {
    VmResources {
        vm_id,
        ttbr: 0x9_0000_0000 + vm_id * PG,
        oas: 40,
        dummy_obj_id: 1000 + vm_id,
        dummy_page: 0x7_0000_0000,
    }
}

fn create_vm(file: &mut File, start: u64, end: u64) -> Result<u32, Error> {
    let mut data = VmCreate {
        extensions: 0,
        kernel_start: start,
        kernel_end: end,
        vm_id: 0,
    };
    let n = file.vms.capacity() as u64;
    file.vm_create(&mut data, &resources(n + 1)).map(|_| data.vm_id)
}

fn file_with_vm() -> File {
    let mut file = File::open(1);
    assert_eq!(create_vm(&mut file, 0x1_0000_0000, 0x1_8000_0000), Ok(1));
    file
}

fn create_bo(file: &mut File, size: u64, flags: u32, vm_id: u32) -> Result<u32, Error> {
    let object_id = 77 + file.objects.capacity() as u64;
    let mut data = GemCreate {
        extensions: 0,
        size,
        flags,
        vm_id,
        handle: 0,
    };
    let pages: Vec<u64> = (0..(size + PG - 1) / PG)
        .map(|i| 0x4_0000_0000 + i * PG)
        .collect();
    file.gem_create(&mut data, object_id, pages)
        .map(|_| data.handle)
}

fn bind(op: u32, flags: u32, handle: u32, addr: u64, range: u64) -> GemBind {
    GemBind {
        extensions: 0,
        op,
        flags,
        handle,
        vm_id: 1,
        offset: 0,
        range,
        addr,
    }
}

fn uat() -> Uat {
    let mut hw: Vec<HwOp> = Vec::new();
    Uat::new(0x1000_0000, 0x2000_0000, 0x3000_0000, 0x4000_0000, false, &mut hw).unwrap()
}

fn channel(base: u64, value: u32) -> EventChannel {
    EventChannel {
        stamp_pointer: base,
        fw_stamp_pointer: base + 0x100,
        slot: 0,
        value,
        info_ptr: base + 0x200,
        event_seq: 0,
    }
}

fn queue_resources() -> QueueResources {
    QueueResources {
        id: 5,
        vm_id: 0,
        vtx: channel(0x1000, 10),
        frag: channel(0x2000, 20),
        comp: channel(0x3000, 30),
        tvb_blocks: 8,
    }
}

fn create_queue(file: &mut File, caps: u32, priority: u32) -> Result<u32, Error> {
    let mut data = QueueCreate {
        extensions: 0,
        flags: 0,
        vm_id: 1,
        queue_caps: caps,
        priority,
        queue_id: 0,
    };
    file.queue_create(&mut data, &queue_resources())
        .map(|_| data.queue_id)
}

fn render_command() -> RenderCommand {
    RenderCommand {
        flags: 0,
        encoder_ptr: 0x10_0000,
        depth_buffer_1: 0,
        depth_buffer_2: 0,
        depth_buffer_3: 0,
        depth_meta_buffer_1: 0,
        depth_meta_buffer_2: 0,
        depth_meta_buffer_3: 0,
        stencil_buffer_1: 0,
        stencil_buffer_2: 0,
        stencil_buffer_3: 0,
        stencil_meta_buffer_1: 0,
        stencil_meta_buffer_2: 0,
        stencil_meta_buffer_3: 0,
        scissor_array: 0,
        depth_bias_array: 0,
        visibility_result_buffer: 0,
        zls_ctrl: 0,
        ppp_multisamplectl: 0,
        ppp_ctrl: 0,
        fb_width: 64,
        fb_height: 64,
        utile_width: 32,
        utile_height: 32,
        samples: 1,
        layers: 1,
        encoder_id: 1,
        cmd_ta_id: 2,
        cmd_3d_id: 3,
        iogpu_unk_49: 0,
        iogpu_unk_212: 0,
        iogpu_unk_214: 0,
        merge_upper_x: 0,
        merge_upper_y: 0,
        load_pipeline: 0,
        load_pipeline_bind: 0,
        store_pipeline: 0,
        store_pipeline_bind: 0,
        partial_reload_pipeline: 0,
        partial_reload_pipeline_bind: 0,
        partial_store_pipeline: 0,
        partial_store_pipeline_bind: 0,
        depth_dimensions: 0,
        isp_bgobjdepth: 0,
        isp_bgobjvals: 0,
        attachment_count: 0,
    }
}

fn render_env() -> RenderEnv {
    RenderEnv {
        num_clusters: 1,
        tiling_control: None,
        core_masks: None,
        has_counter: false,
        disable_clustering: false,
        debug1: false,
        debug2: false,
        sizes: OpSizes {
            start_vertex: 0x100,
            start_fragment: 0x120,
            timestamp: 0x30,
            wait_for_idle: 0x10,
            finalize_vertex: 0x80,
            finalize_fragment: 0x90,
            retire_stamp: 0x20,
        },
        scene: Scene {
            slot: 1,
            rebind: false,
            gpu_pointer: 0x5000,
            weak_pointer: 0x5000,
            buffer_pointer: 0x6000,
            weak_buffer_pointer: 0x6000,
            kernel_buffer_pointer: 0x7000,
            tvb_tilemap_pointer: 0x8000,
            tvb_heapmeta_pointer: 0x9000,
            cluster_tilemaps_pointer: None,
            tpc_pointer: 0xa000,
            meta_1_pointer: None,
            meta_2_pointer: None,
            meta_3_pointer: None,
            meta_4_pointer: None,
            preempt_buf_1_pointer: 0xb000,
            preempt_buf_2_pointer: 0xc000,
            preempt_buf_3_pointer: 0xd000,
            seq_buf_pointer: 0xe000,
        },
        notifier: 0x1_0000,
        notifier_buf: 0x1_1000,
        stats_vtx: 0x1_2000,
        stats_frag: 0x1_3000,
        aux_fb: 0x1_4000,
        vtx: VertexPointers {
            job: 0x2_0000,
            tiling_params: 0x2_0100,
            job_params1: 0x2_0200,
            unk_pointee: 0x2_0300,
            unk_buf_0: 0x2_0400,
            cur_ts: 0x2_0500,
            start_ts: 0x2_0600,
            end_ts: 0x2_0700,
            unk_ts: 0x2_0800,
            ts_start: 0x2_0900,
            ts_end: 0x2_0a00,
        },
        frag: FragmentPointers {
            job: 0x3_0000,
            job_params1: 0x3_0100,
            job_params2: 0x3_0200,
            busy_flag: 0x3_0300,
            tvb_overflow_count: 0x3_0400,
            unk_pointee: 0x3_0500,
            unk_758_flag: 0x3_0600,
            unk_buf_0: 0x3_0700,
            cur_ts: 0x3_0800,
            start_ts: 0x3_0900,
            end_ts: 0x3_0a00,
            unk_ts: 0x3_0b00,
            ts_start: 0x3_0c00,
            ts_end: 0x3_0d00,
        },
    }
}

fn payload(cmdbuf: RenderCommand) -> RenderPayload {
    RenderPayload {
        cmdbuf,
        attachments: Vec::new(),
        env: render_env(),
    }
}

fn command_record(cmd_type: u32) -> Vec<u8> {
    let mut out: Vec<u8> = Vec::new();
    out.extend_from_slice(&0u64.to_le_bytes());
    out.extend_from_slice(&cmd_type.to_le_bytes());
    out.extend_from_slice(&0u32.to_le_bytes());
    out.extend_from_slice(&0x10_0000u64.to_le_bytes());
    out.extend_from_slice(&0x200u64.to_le_bytes());
    out.extend_from_slice(&0u64.to_le_bytes());
    out.extend_from_slice(&0u64.to_le_bytes());
    out.extend_from_slice(&0xffff_ffffu32.to_le_bytes());
    out.extend_from_slice(&0xffff_ffffu32.to_le_bytes());
    assert_eq!(out.len(), 56);
    out
}

fn submit_args(count: u32) -> Submit {
    Submit {
        extensions: 0,
        in_syncs: 0,
        out_syncs: 0,
        commands: 0x1234_0000,
        flags: 0,
        queue_id: 1,
        result_handle: 0,
        in_sync_count: 0,
        out_sync_count: 0,
        command_count: count,
    }
}

fn submit_memory(count: u32) -> SubmitMemory {
    let mut commands: Vec<u8> = Vec::new();
    for _ in 0..count {
        commands.extend_from_slice(&command_record(0));
    }
    SubmitMemory {
        in_syncs: Vec::new(),
        out_syncs: Vec::new(),
        commands,
    }
}

fn submit_render(cmdbuf: RenderCommand) -> Result<u32, Error> {
    let mut file = file_with_vm();
    create_queue(&mut file, QUEUE_CAP_RENDER, 2).unwrap();
    let mut u = uat();
    let mut hw: Vec<HwOp> = Vec::new();
    let payloads = vec![payload(cmdbuf)];
    file.submit(
        &submit_args(1),
        &submit_memory(1),
        &payloads,
        &mut u,
        0,
        &mut hw,
    )
    .map(|out| out.0)
}

fn gpu_info() -> GpuInfo {
    GpuInfo {
        crashed: false,
        feat_compat: 0x10,
        feat_incompat: 0x20,
        gpu_generation: 13,
        gpu_variant: 71,
        gpu_revision: 0x11,
        chip_id: 0x8103,
        num_dies: 1,
        num_clusters_total: 1,
        num_cores_per_cluster: 8,
        num_frags_per_cluster: 8,
        num_gps_per_cluster: 4,
        num_cores_total_active: 7,
        core_masks: vec![0x7f],
        timer_frequency_hz: 24_000_000,
        min_frequency_khz: 396_000,
        max_frequency_khz: 1_278_000,
        max_power_mw: 8_000,
        result_render_size: 64,
        result_compute_size: 32,
        firmware_version: vec![12, 3, 0],
        fault_control: 0,
    }
}

fn get_params_args(size: u64) -> GetParams {
    GetParams {
        extensions: 0,
        param_group: 0,
        pad: 0,
        pointer: 0x7000_0000,
        size,
    }
}

fn word(bytes: &[u8], off: usize) -> u32 {
    u32::from_le_bytes([bytes[off], bytes[off + 1], bytes[off + 2], bytes[off + 3]])
}

fn dword(bytes: &[u8], off: usize) -> u64 {
    (word(bytes, off) as u64) | ((word(bytes, off + 4) as u64) << 32)
}

#[test]
fn vm_create_and_destroy() {
    let mut file = File::open(1);
    let mut u = uat();
    let mut hw: Vec<HwOp> = Vec::new();
    assert_eq!(create_vm(&mut file, 0x1_0000_0000, 0x1_8000_0000), Ok(1));
    let fv = file.vms.get(1).unwrap();
    assert_eq!(fv.kernel_range, 0x1_0000_0000..0x1_8000_0000);
    assert_eq!(fv.vm.kernel_range, 0x1_0000_0000..0x1_8000_0000);
    let destroy = VmDestroy {
        extensions: 0,
        vm_id: 1,
    };
    assert_eq!(file.vm_destroy(&destroy, &mut u, 0, &mut hw), Ok(0));
    assert_eq!(
        file.vm_destroy(&destroy, &mut u, 0, &mut hw),
        Err(Error::ENOENT)
    );
}

#[test]
fn vm_create_checks_the_kernel_range() {
    let mut file = File::open(1);
    // Too small.
    assert_eq!(
        create_vm(&mut file, 0x1_0000_0000, 0x1_1000_0000),
        Err(Error::EINVAL)
    );
    // Not at a page.
    assert_eq!(
        create_vm(&mut file, 0x1_0000_1000, 0x1_8000_0000),
        Err(Error::EINVAL)
    );
    // Below the user range.
    assert_eq!(create_vm(&mut file, 0, 0x8000_0000), Err(Error::EINVAL));
    // Above what is usable of it.
    assert_eq!(
        create_vm(&mut file, 0x7f_0000_0000, 0x80_0000_0000),
        Err(Error::EINVAL)
    );
    // Empty.
    assert_eq!(
        create_vm(&mut file, 0x1_8000_0000, 0x1_0000_0000),
        Err(Error::EINVAL)
    );
    // The smallest and the highest that go.
    assert_eq!(create_vm(&mut file, 0x4000, 0x2000_4000), Ok(1));
    assert_eq!(
        create_vm(&mut file, 0x7f_dfff_8000, 0x7f_ffff_8000),
        Ok(2)
    );
}

#[test]
fn vm_ids_are_reused_lowest_first() {
    let mut file = File::open(1);
    let mut u = uat();
    let mut hw: Vec<HwOp> = Vec::new();
    for want in 1..=3u32 {
        assert_eq!(
            create_vm(&mut file, 0x1_0000_0000, 0x1_8000_0000),
            Ok(want)
        );
    }
    let destroy = VmDestroy {
        extensions: 0,
        vm_id: 2,
    };
    assert_eq!(file.vm_destroy(&destroy, &mut u, 0, &mut hw), Ok(0));
    assert!(file.vms.contains(1) && !file.vms.contains(2) && file.vms.contains(3));
    assert_eq!(create_vm(&mut file, 0x1_0000_0000, 0x1_8000_0000), Ok(2));
}

#[test]
fn map_unmap_round_trip() {
    let mut file = file_with_vm();
    let mut hw: Vec<HwOp> = Vec::new();
    let h = create_bo(&mut file, 0x40_0000, 0, 0).unwrap();
    assert_eq!(h, 1);
    let b = bind(
        ASAHI_BIND_OP_BIND,
        ASAHI_BIND_READ | ASAHI_BIND_WRITE,
        h,
        0x10_0000,
        0x40_0000,
    );
    assert_eq!(file.gem_bind(&b, &mut hw), Ok(0));
    let table = &file.vms.get(1).unwrap().vm.page_table;
    assert_eq!(
        table.lookup(0x10_0000),
        Some(Pte {
            paddr: 0x4_0000_0000,
            prot: PROT_GPU_SHARED_RW
        })
    );
    assert_eq!(
        table.lookup(0x10_0000 + 0x40_0000 - PG),
        Some(Pte {
            paddr: 0x4_0000_0000 + 0x40_0000 - PG,
            prot: PROT_GPU_SHARED_RW
        })
    );
    assert_eq!(table.lookup(0x10_0000 + 0x40_0000), None);
    let un = bind(ASAHI_BIND_OP_UNBIND, 0, 0, 0x10_0000, 0x40_0000);
    assert_eq!(file.gem_bind(&un, &mut hw), Ok(0));
    let table = &file.vms.get(1).unwrap().vm.page_table;
    assert_eq!(table.lookup(0x10_0000), None);
    assert_eq!(table.lookup(0x10_0000 + 0x40_0000 - PG), None);
    assert!(file.vms.get(1).unwrap().vm.vas.is_empty());
    // Unmapping nothing is no error.
    assert_eq!(file.gem_bind(&un, &mut hw), Ok(0));
}

#[test]
fn bind_rejects_overlap_with_the_kernel_range() {
    let mut file = file_with_vm();
    let mut hw: Vec<HwOp> = Vec::new();
    let h = create_bo(&mut file, 0x4000, 0, 0).unwrap();
    let b = bind(
        ASAHI_BIND_OP_BIND,
        ASAHI_BIND_READ | ASAHI_BIND_WRITE,
        h,
        0x1_0000_0000,
        0x4000,
    );
    assert_eq!(file.gem_bind(&b, &mut hw), Err(Error::EINVAL));
    let last = bind(
        ASAHI_BIND_OP_BIND,
        ASAHI_BIND_READ,
        h,
        0x1_8000_0000 - PG,
        0x4000,
    );
    assert_eq!(file.gem_bind(&last, &mut hw), Err(Error::EINVAL));
    assert!(hw.is_empty());
    // Right under and right above it is fine.
    let under = bind(ASAHI_BIND_OP_BIND, ASAHI_BIND_READ, h, 0x1_0000_0000 - PG, PG);
    assert_eq!(file.gem_bind(&under, &mut hw), Ok(0));
    let above = bind(ASAHI_BIND_OP_BIND, ASAHI_BIND_READ, h, 0x1_8000_0000, PG);
    assert_eq!(file.gem_bind(&above, &mut hw), Ok(0));
}

#[test]
fn bind_flags_choose_the_protection() {
    let mut file = file_with_vm();
    let mut hw: Vec<HwOp> = Vec::new();
    let h = create_bo(&mut file, 0x4000, 0, 0).unwrap();
    let none = bind(ASAHI_BIND_OP_BIND, 0, h, 0x10_0000, PG);
    assert_eq!(file.gem_bind(&none, &mut hw), Err(Error::EINVAL));
    let unknown = bind(ASAHI_BIND_OP_BIND, 4 | ASAHI_BIND_READ, h, 0x10_0000, PG);
    assert_eq!(file.gem_bind(&unknown, &mut hw), Err(Error::EINVAL));
    let cases = [
        (ASAHI_BIND_READ | ASAHI_BIND_WRITE, PROT_GPU_SHARED_RW),
        (ASAHI_BIND_READ, PROT_GPU_SHARED_RO),
        (ASAHI_BIND_WRITE, PROT_GPU_SHARED_WO),
    ];
    for (i, (flags, prot)) in cases.iter().enumerate() {
        let addr = 0x10_0000 + (i as u64) * 0x10_0000;
        let b = bind(ASAHI_BIND_OP_BIND, *flags, h, addr, PG);
        assert_eq!(file.gem_bind(&b, &mut hw), Ok(0));
        let table = &file.vms.get(1).unwrap().vm.page_table;
        assert_eq!(
            table.lookup(addr),
            Some(Pte {
                paddr: 0x4_0000_0000,
                prot: *prot
            })
        );
    }
}

#[test]
fn bind_checks_its_arguments() {
    let mut file = file_with_vm();
    let mut hw: Vec<HwOp> = Vec::new();
    let h = create_bo(&mut file, 0x8000, 0, 0).unwrap();
    let rw = ASAHI_BIND_READ | ASAHI_BIND_WRITE;
    let mut b = bind(ASAHI_BIND_OP_BIND, rw, h, 0x10_0000, PG);
    b.extensions = 1;
    assert_eq!(file.gem_bind(&b, &mut hw), Err(Error::EINVAL));
    let b = bind(3, rw, h, 0x10_0000, PG);
    assert_eq!(file.gem_bind(&b, &mut hw), Err(Error::EINVAL));
    let b = bind(ASAHI_BIND_OP_BIND, rw, h, 0x10_0001, PG);
    assert_eq!(file.gem_bind(&b, &mut hw), Err(Error::EINVAL));
    let b = bind(ASAHI_BIND_OP_BIND, rw, h, 0x10_0000, PG + 1);
    assert_eq!(file.gem_bind(&b, &mut hw), Err(Error::EINVAL));
    let b = bind(ASAHI_BIND_OP_BIND, rw, h + 1, 0x10_0000, PG);
    assert_eq!(file.gem_bind(&b, &mut hw), Err(Error::ENOENT));
    let mut b = bind(ASAHI_BIND_OP_BIND, rw, h, 0x10_0000, PG);
    b.vm_id = 9;
    assert_eq!(file.gem_bind(&b, &mut hw), Err(Error::ENOENT));
    let b = bind(ASAHI_BIND_OP_BIND, rw, h, 0, PG);
    assert_eq!(file.gem_bind(&b, &mut hw), Err(Error::EINVAL));
    let b = bind(ASAHI_BIND_OP_BIND, rw, h, 0x7f_ffff_8000 - PG, 2 * PG);
    assert_eq!(file.gem_bind(&b, &mut hw), Err(Error::EINVAL));
    let b = bind(ASAHI_BIND_OP_BIND, rw, h, 0x10_0000, 0);
    assert_eq!(file.gem_bind(&b, &mut hw), Err(Error::EINVAL));
    assert!(hw.is_empty());
    assert!(file.vms.get(1).unwrap().vm.vas.is_empty());
}

#[test]
fn unbind_all_takes_down_every_binding_of_an_object() {
    let mut file = file_with_vm();
    let mut hw: Vec<HwOp> = Vec::new();
    let a = create_bo(&mut file, 0x4000, 0, 0).unwrap();
    let b = create_bo(&mut file, 0x4000, 0, 0).unwrap();
    let rw = ASAHI_BIND_READ | ASAHI_BIND_WRITE;
    for (h, addr) in [(a, 0x10_0000u64), (b, 0x20_0000), (a, 0x30_0000)] {
        assert_eq!(
            file.gem_bind(&bind(ASAHI_BIND_OP_BIND, rw, h, addr, PG), &mut hw),
            Ok(0)
        );
    }
    let all = bind(ASAHI_BIND_OP_UNBIND_ALL, 0, a, 0, 0);
    assert_eq!(file.gem_bind(&all, &mut hw), Ok(0));
    let vm = &file.vms.get(1).unwrap().vm;
    assert_eq!(vm.vas.len(), 1);
    assert_eq!(vm.page_table.lookup(0x10_0000), None);
    assert_eq!(vm.page_table.lookup(0x30_0000), None);
    assert!(vm.page_table.lookup(0x20_0000).is_some());
}

#[test]
fn gem_create_checks_its_flags() {
    let mut file = file_with_vm();
    assert_eq!(create_bo(&mut file, 0x4000, 4, 0), Err(Error::EINVAL));
    assert_eq!(create_bo(&mut file, 0x4000, 0, 1), Err(Error::EINVAL));
    assert_eq!(
        create_bo(&mut file, 0x4000, ASAHI_GEM_VM_PRIVATE, 7),
        Err(Error::ENOENT)
    );
    let h = create_bo(&mut file, 0x4001, ASAHI_GEM_VM_PRIVATE | ASAHI_GEM_WRITEBACK, 1).unwrap();
    let o = file.lookup_handle(h).unwrap();
    assert_eq!(o.size, 0x8000);
    assert_eq!(o.vm_id, Some(1));
    assert!(!o.exportable);
    assert!(!o.write_combine);
    let h = create_bo(&mut file, 0x4000, 0, 0).unwrap();
    let o = file.lookup_handle(h).unwrap();
    assert_eq!(o.vm_id, None);
    assert!(o.exportable);
    assert!(o.write_combine);
    assert!(matches!(file.lookup_handle(9), Err(Error::ENOENT)));
    let mut data = GemCreate {
        extensions: 1,
        size: 0x4000,
        flags: 0,
        vm_id: 0,
        handle: 0,
    };
    assert_eq!(file.gem_create(&mut data, 1, vec![0]), Err(Error::EINVAL));
}

#[test]
fn private_objects_stay_in_their_address_space() {
    let mut file = file_with_vm();
    assert_eq!(create_vm(&mut file, 0x1_0000_0000, 0x1_8000_0000), Ok(2));
    let mut hw: Vec<HwOp> = Vec::new();
    let h = create_bo(&mut file, 0x4000, ASAHI_GEM_VM_PRIVATE, 2).unwrap();
    let b = bind(ASAHI_BIND_OP_BIND, ASAHI_BIND_READ, h, 0x10_0000, PG);
    assert_eq!(file.gem_bind(&b, &mut hw), Err(Error::EINVAL));
    let mut b = b;
    b.vm_id = 2;
    assert_eq!(file.gem_bind(&b, &mut hw), Ok(0));
}

#[test]
fn mmap_offset_is_handed_through() {
    let mut file = file_with_vm();
    let h = create_bo(&mut file, 0x4000, 0, 0).unwrap();
    let mut data = GemMmapOffset {
        extensions: 0,
        handle: h,
        flags: 0,
        offset: 0,
    };
    assert_eq!(file.gem_mmap_offset(&mut data, 0x1_0000_0000), Ok(0));
    assert_eq!(data.offset, 0x1_0000_0000);
    data.flags = 1;
    assert_eq!(file.gem_mmap_offset(&mut data, 0), Err(Error::EINVAL));
    data.flags = 0;
    data.extensions = 1;
    assert_eq!(file.gem_mmap_offset(&mut data, 0), Err(Error::EINVAL));
    data.extensions = 0;
    data.handle = 9;
    assert_eq!(file.gem_mmap_offset(&mut data, 0), Err(Error::ENOENT));
}

#[test]
fn queue_create_and_destroy() {
    let mut file = file_with_vm();
    assert_eq!(create_queue(&mut file, QUEUE_CAP_RENDER, 2), Ok(1));
    let q = file.queues.get(1).unwrap();
    assert_eq!(q.priority, 2);
    assert_eq!(q.vm_id, 1);
    assert_eq!(q.vtx, Some(channel(0x1000, 10)));
    assert_eq!(q.frag, Some(channel(0x2000, 20)));
    assert_eq!(q.comp, None);
    assert_eq!(q.buffer.unwrap().block_count(), 8);
    assert_eq!(create_queue(&mut file, QUEUE_CAP_COMPUTE, 0), Ok(2));
    let q = file.queues.get(2).unwrap();
    assert_eq!(q.vtx, None);
    assert_eq!(q.frag, None);
    assert_eq!(q.comp, Some(channel(0x3000, 30)));
    assert_eq!(create_queue(&mut file, 0, 2), Err(Error::EINVAL));
    assert_eq!(create_queue(&mut file, 8, 2), Err(Error::EINVAL));
    assert_eq!(create_queue(&mut file, QUEUE_CAP_RENDER, 4), Err(Error::EINVAL));
    let destroy = QueueDestroy {
        extensions: 0,
        queue_id: 1,
    };
    assert_eq!(file.queue_destroy(&destroy), Ok(0));
    assert_eq!(file.queue_destroy(&destroy), Err(Error::ENOENT));
    let bad = QueueDestroy {
        extensions: 1,
        queue_id: 2,
    };
    assert_eq!(file.queue_destroy(&bad), Err(Error::EINVAL));
}

#[test]
fn queue_needs_an_address_space() {
    let mut file = File::open(1);
    assert_eq!(
        create_queue(&mut file, QUEUE_CAP_RENDER, 2),
        Err(Error::ENOENT)
    );
}

#[test]
fn submit_minimal_render() {
    let mut file = file_with_vm();
    assert_eq!(create_queue(&mut file, QUEUE_CAP_RENDER, 2), Ok(1));
    let mut u = uat();
    let mut hw: Vec<HwOp> = Vec::new();
    let payloads = vec![payload(render_command())];
    let (ret, submission, bound) = file
        .submit(
            &submit_args(1),
            &submit_memory(1),
            &payloads,
            &mut u,
            0,
            &mut hw,
        )
        .unwrap();
    assert_eq!(ret, 0);
    let q = file.queues.get(1).unwrap();
    assert_eq!(q.vtx.unwrap().value, 11);
    assert_eq!(q.frag.unwrap().value, 21);
    // The vertex job; and the barrier that waits for it with the fragment
    // job.
    assert_eq!(submission.job.vtx.len(), 1);
    assert_eq!(submission.job.frag.len(), 2);
    assert_eq!(submission.job.vm_slot, bound.slot);
    assert_eq!(submission.results.len(), 1);
    assert!(submission.results[0].is_none());
    assert!(submission.in_syncs.is_empty());
    assert!(submission.out_syncs.is_empty());
    assert_eq!(bound.vm_id, file.vms.get(1).unwrap().vm.id);
    assert_eq!(file.vms.get(1).unwrap().vm.binding.active_users, 1);
}

#[test]
fn submit_rejects_flags_and_extensions() {
    let mut file = file_with_vm();
    create_queue(&mut file, QUEUE_CAP_RENDER, 2).unwrap();
    let mut u = uat();
    let mut hw: Vec<HwOp> = Vec::new();
    let payloads = vec![payload(render_command())];
    let mut args = submit_args(1);
    args.flags = 1;
    let r = file.submit(&args, &submit_memory(1), &payloads, &mut u, 0, &mut hw);
    assert!(matches!(r, Err(Error::EINVAL)));
    let mut args = submit_args(1);
    args.extensions = 1;
    let r = file.submit(&args, &submit_memory(1), &payloads, &mut u, 0, &mut hw);
    assert!(matches!(r, Err(Error::EINVAL)));
    let mut args = submit_args(1);
    args.queue_id = 2;
    let r = file.submit(&args, &submit_memory(1), &payloads, &mut u, 0, &mut hw);
    assert!(matches!(r, Err(Error::ENOENT)));
    let mut args = submit_args(1);
    args.result_handle = 5;
    let r = file.submit(&args, &submit_memory(1), &payloads, &mut u, 0, &mut hw);
    assert!(matches!(r, Err(Error::ENOENT)));
    let r = file.submit(&submit_args(2), &submit_memory(1), &payloads, &mut u, 0, &mut hw);
    assert!(matches!(r, Err(Error::EFAULT)));
    assert!(hw.is_empty());
    assert_eq!(file.queues.get(1).unwrap().vtx.unwrap().value, 10);
}

#[test]
fn submit_takes_up_to_sixty_four_commands() {
    let mut file = file_with_vm();
    create_queue(&mut file, QUEUE_CAP_RENDER, 2).unwrap();
    let mut u = uat();
    let mut hw: Vec<HwOp> = Vec::new();
    let mut payloads: Vec<RenderPayload> = Vec::new();
    for _ in 0..65 {
        payloads.push(payload(render_command()));
    }
    let r = file.submit(
        &submit_args(65),
        &submit_memory(65),
        &payloads,
        &mut u,
        0,
        &mut hw,
    );
    assert!(matches!(r, Err(Error::EINVAL)));
    payloads.pop();
    let (ret, submission, _) = file
        .submit(
            &submit_args(64),
            &submit_memory(64),
            &payloads,
            &mut u,
            0,
            &mut hw,
        )
        .unwrap();
    assert_eq!(ret, 0);
    assert_eq!(submission.job.vtx.len(), 64);
    assert_eq!(submission.job.frag.len(), 128);
    let q = file.queues.get(1).unwrap();
    assert_eq!(q.vtx.unwrap().value, 10 + 64);
    assert_eq!(q.frag.unwrap().value, 20 + 64);
}

#[test]
fn submit_checks_the_sample_count() {
    for samples in [1u32, 2, 4] {
        let mut c = render_command();
        c.samples = samples;
        assert_eq!(submit_render(c), Ok(0));
    }
    for samples in [0u32, 3, 5, 8] {
        let mut c = render_command();
        c.samples = samples;
        assert_eq!(submit_render(c), Err(Error::EINVAL));
    }
}

#[test]
fn submit_checks_the_geometry() {
    let mut c = render_command();
    c.fb_width = 16384;
    c.fb_height = 16384;
    c.layers = 2048;
    assert_eq!(submit_render(c), Ok(0));
    let mut c = render_command();
    c.fb_width = 16385;
    assert_eq!(submit_render(c), Err(Error::EINVAL));
    let mut c = render_command();
    c.layers = 0;
    assert_eq!(submit_render(c), Err(Error::EINVAL));
    let mut c = render_command();
    c.utile_width = 16;
    c.utile_height = 32;
    assert_eq!(submit_render(c), Err(Error::EINVAL));
}

#[test]
fn submit_checks_the_render_flags() {
    let mut c = render_command();
    c.flags = 0x20;
    assert_eq!(submit_render(c), Err(Error::EINVAL));
    let mut c = render_command();
    c.flags = 0x4;
    assert_eq!(submit_render(c), Err(Error::EINVAL));
    let mut c = render_command();
    c.flags = 0x1 | 0x2 | 0x8 | 0x10;
    assert_eq!(submit_render(c), Ok(0));
    let mut c = render_command();
    c.attachment_count = 17;
    assert_eq!(submit_render(c), Err(Error::EINVAL));
    let mut c = render_command();
    c.attachment_count = 1;
    assert_eq!(submit_render(c), Err(Error::EFAULT));
}

#[test]
fn submit_on_a_queue_without_render_is_refused() {
    let mut file = file_with_vm();
    create_queue(&mut file, QUEUE_CAP_COMPUTE, 2).unwrap();
    let mut u = uat();
    let mut hw: Vec<HwOp> = Vec::new();
    let payloads = vec![payload(render_command())];
    let r = file.submit(
        &submit_args(1),
        &submit_memory(1),
        &payloads,
        &mut u,
        0,
        &mut hw,
    );
    assert!(matches!(r, Err(Error::EINVAL)));
    assert_eq!(file.vms.get(1).unwrap().vm.binding.active_users, 0);
}

#[test]
fn vm_in_use_is_destroyed_when_its_work_is_done() {
    let mut file = file_with_vm();
    create_queue(&mut file, QUEUE_CAP_RENDER, 2).unwrap();
    let mut u = uat();
    let mut hw: Vec<HwOp> = Vec::new();
    let payloads = vec![payload(render_command())];
    let (_, _, bound) = file
        .submit(
            &submit_args(1),
            &submit_memory(1),
            &payloads,
            &mut u,
            0,
            &mut hw,
        )
        .unwrap();
    let held = u.ttbs(bound.slot);
    let destroy = VmDestroy {
        extensions: 0,
        vm_id: 1,
    };
    hw.clear();
    // The entry goes at once; the address space stays aside.
    assert_eq!(file.vm_destroy(&destroy, &mut u, 0, &mut hw), Ok(0));
    assert!(!file.vms.contains(1));
    assert_eq!(file.retired.len(), 1);
    assert!(hw.is_empty());
    assert_eq!(u.ttbs(bound.slot), held);
    assert_eq!(
        file.vm_destroy(&destroy, &mut u, 0, &mut hw),
        Err(Error::ENOENT)
    );
    // With its last user it is taken down: the dummy page is unmapped and
    // the slot is cleared.
    assert_eq!(file.complete(1, bound, &mut u, 0, &mut hw), Ok(()));
    assert!(file.retired.is_empty());
    assert_eq!(
        hw,
        vec![
            HwOp::TlbiRange {
                asid: bound.slot as u8,
                start: 0x7f_ffff_8000,
                len: PG
            },
            HwOp::Sync,
            HwOp::HandoffLock,
            HwOp::WriteTtb {
                slot: bound.slot,
                ttb0: 0,
                ttb1: 0
            },
            HwOp::HandoffUnlock,
            HwOp::TlbiAsid {
                asid: bound.slot as u8
            },
            HwOp::Sync,
        ]
    );
    assert_eq!(u.ttbs(bound.slot).ttb0, 0);
    assert_eq!(
        file.complete(1, bound, &mut u, 0, &mut hw),
        Err(Error::ENOENT)
    );
    let bad = VmDestroy {
        extensions: 1,
        vm_id: 1,
    };
    assert_eq!(file.vm_destroy(&bad, &mut u, 0, &mut hw), Err(Error::EINVAL));
}

#[test]
fn completed_work_gives_up_its_binding() {
    let mut file = file_with_vm();
    create_queue(&mut file, QUEUE_CAP_RENDER, 2).unwrap();
    let mut u = uat();
    let mut hw: Vec<HwOp> = Vec::new();
    let payloads = vec![payload(render_command())];
    let (_, _, bound) = file
        .submit(
            &submit_args(1),
            &submit_memory(1),
            &payloads,
            &mut u,
            0,
            &mut hw,
        )
        .unwrap();
    hw.clear();
    assert_eq!(file.complete(1, bound, &mut u, 0, &mut hw), Ok(()));
    let vm = &file.vms.get(1).unwrap().vm;
    assert_eq!(vm.binding.active_users, 0);
    assert!(vm.binding.binding.is_none());
    assert!(vm.binding.bind_token.is_some());
    assert!(hw.is_empty());
    assert_eq!(
        file.complete(1, bound, &mut u, 0, &mut hw),
        Err(Error::ENOENT)
    );
}

#[test]
fn destroying_an_address_space_unmaps_what_was_bound() {
    let mut file = file_with_vm();
    let mut u = uat();
    let mut hw: Vec<HwOp> = Vec::new();
    let h = create_bo(&mut file, 0x4000, 0, 0).unwrap();
    let rw = ASAHI_BIND_READ | ASAHI_BIND_WRITE;
    file.gem_bind(&bind(ASAHI_BIND_OP_BIND, rw, h, 0x10_0000, PG), &mut hw)
        .unwrap();
    hw.clear();
    let destroy = VmDestroy {
        extensions: 0,
        vm_id: 1,
    };
    assert_eq!(file.vm_destroy(&destroy, &mut u, 0, &mut hw), Ok(0));
    // The address space never had a slot: there is nothing to invalidate
    // and nothing to clear.
    assert!(hw.is_empty());
    assert!(file.retired.is_empty());
}

#[test]
fn get_params_writes_the_global_parameters() {
    let out = get_params(&gpu_info(), &get_params_args(4096)).unwrap();
    assert_eq!(out.len(), PARAMS_SIZE);
    assert_eq!(word(&out, 0), 10011);
    assert_eq!(dword(&out, 8), 0x10);
    assert_eq!(dword(&out, 16), 0x20);
    assert_eq!(word(&out, 24), 13);
    assert_eq!(word(&out, 28), 71);
    assert_eq!(word(&out, 32), 0x11);
    assert_eq!(word(&out, 36), 0x8103);
    assert_eq!(word(&out, 60), 7);
    // The masks of the active cores, one for each of 32 clusters.
    assert_eq!(dword(&out, 64), 0x7f);
    assert_eq!(dword(&out, 72), 0);
    let tail = 64 + 32 * 8;
    assert_eq!(word(&out, tail), 0x4000);
    assert_eq!(dword(&out, tail + 8), 0x4000);
    assert_eq!(dword(&out, tail + 16), 0x7f_ffff_8000);
    assert_eq!(dword(&out, tail + 24), 0);
    assert_eq!(dword(&out, tail + 32), 0);
    assert_eq!(dword(&out, tail + 40), 0x2000_0000);
    assert_eq!(word(&out, tail + 52), 64);
    assert_eq!(word(&out, tail + 56), 1024);
    assert_eq!(word(&out, tail + 60), 16);
    assert_eq!(word(&out, tail + 64), 24_000_000);
    assert_eq!(word(&out, tail + 88), 12);
    assert_eq!(word(&out, tail + 92), 3);
}

#[test]
fn get_params_cuts_off_at_the_size_of_the_buffer() {
    let whole = get_params(&gpu_info(), &get_params_args(4096)).unwrap();
    let part = get_params(&gpu_info(), &get_params_args(10)).unwrap();
    assert_eq!(part.len(), 10);
    assert_eq!(part[..], whole[..10]);
    let none = get_params(&gpu_info(), &get_params_args(0)).unwrap();
    assert!(none.is_empty());
}

#[test]
fn get_params_advertises_soft_faults() {
    let mut gpu = gpu_info();
    gpu.fault_control = 0xb;
    let out = get_params(&gpu, &get_params_args(4096)).unwrap();
    assert_eq!(dword(&out, 8), 0x11);
}

#[test]
fn get_params_checks_its_arguments() {
    let mut args = get_params_args(4096);
    args.param_group = 1;
    assert_eq!(get_params(&gpu_info(), &args), Err(Error::EINVAL));
    let mut args = get_params_args(4096);
    args.extensions = 1;
    assert_eq!(get_params(&gpu_info(), &args), Err(Error::EINVAL));
    let mut args = get_params_args(4096);
    args.pad = 1;
    assert_eq!(get_params(&gpu_info(), &args), Err(Error::EINVAL));
    let mut gpu = gpu_info();
    gpu.crashed = true;
    assert_eq!(get_params(&gpu, &get_params_args(4096)), Err(Error::ENODEV));
    let mut gpu = gpu_info();
    gpu.core_masks = vec![1; 33];
    assert_eq!(get_params(&gpu, &get_params_args(4096)), Err(Error::EIO));
}

#[test]
fn unbind_all_reaches_every_address_space() {
    let mut file = file_with_vm();
    assert_eq!(create_vm(&mut file, 0x1_0000_0000, 0x1_8000_0000), Ok(2));
    let mut hw: Vec<HwOp> = Vec::new();
    let h = create_bo(&mut file, 0x4000, 0, 0).unwrap();
    let rw = ASAHI_BIND_READ | ASAHI_BIND_WRITE;
    for vm_id in [1u32, 2] {
        let mut b = bind(ASAHI_BIND_OP_BIND, rw, h, 0x10_0000, PG);
        b.vm_id = vm_id;
        assert_eq!(file.gem_bind(&b, &mut hw), Ok(0));
    }
    let mut all = bind(ASAHI_BIND_OP_UNBIND_ALL, 0, h, 0, 0);
    all.vm_id = 0;
    assert_eq!(file.gem_bind(&all, &mut hw), Ok(0));
    assert!(file.vms.get(1).unwrap().vm.vas.is_empty());
    assert!(file.vms.get(2).unwrap().vm.vas.is_empty());
}

#[test]
fn unbind_checks_its_arguments() {
    let mut file = file_with_vm();
    let mut hw: Vec<HwOp> = Vec::new();
    let h = create_bo(&mut file, 0x4000, 0, 0).unwrap();
    for change in 0..4 {
        let mut all = bind(ASAHI_BIND_OP_UNBIND_ALL, 0, h, 0, 0);
        match change {
            0 => all.flags = 1,
            1 => all.offset = PG,
            2 => all.range = PG,
            _ => all.addr = PG,
        }
        assert_eq!(file.gem_bind(&all, &mut hw), Err(Error::EINVAL));
    }
    let mut gone = bind(ASAHI_BIND_OP_UNBIND_ALL, 0, h, 0, 0);
    gone.vm_id = 9;
    assert_eq!(file.gem_bind(&gone, &mut hw), Err(Error::ENOENT));
    let missing = bind(ASAHI_BIND_OP_UNBIND_ALL, 0, h + 5, 0, 0);
    assert_eq!(file.gem_bind(&missing, &mut hw), Err(Error::ENOENT));
    for change in 0..3 {
        let mut un = bind(ASAHI_BIND_OP_UNBIND, 0, 0, 0x10_0000, PG);
        match change {
            0 => un.flags = 1,
            1 => un.offset = PG,
            _ => un.handle = h,
        }
        assert_eq!(file.gem_bind(&un, &mut hw), Err(Error::EINVAL));
    }
    let un = bind(ASAHI_BIND_OP_UNBIND, 0, 0, 0x1_0000_0000, PG);
    assert_eq!(file.gem_bind(&un, &mut hw), Err(Error::EINVAL));
    assert!(hw.is_empty());
}

#[test]
fn closing_a_client_destroys_its_address_spaces() {
    let mut file = file_with_vm();
    assert_eq!(create_vm(&mut file, 0x1_0000_0000, 0x1_8000_0000), Ok(2));
    create_queue(&mut file, QUEUE_CAP_RENDER, 2).unwrap();
    let mut u = uat();
    let mut hw: Vec<HwOp> = Vec::new();
    let payloads = vec![payload(render_command())];
    let (_, _, bound) = file
        .submit(
            &submit_args(1),
            &submit_memory(1),
            &payloads,
            &mut u,
            0,
            &mut hw,
        )
        .unwrap();
    file.close(&mut u, 0, &mut hw);
    assert!(!file.vms.contains(1));
    assert!(!file.vms.contains(2));
    assert!(!file.queues.contains(1));
    // The first address space runs work: it waits for that.
    assert_eq!(file.retired.len(), 1);
    assert_eq!(file.complete(1, bound, &mut u, 0, &mut hw), Ok(()));
    assert!(file.retired.is_empty());
    assert_eq!(u.ttbs(bound.slot).ttb0, 0);
}

#[test]
fn get_time_hands_the_readings_on() {
    let mut data = GetTime {
        extensions: 0,
        flags: 0,
        tv_sec: 0,
        tv_nsec: 0,
        gpu_timestamp: 0,
    };
    assert_eq!(get_time(&mut data, 12, 345, 0x1234_5678_9abc), Ok(0));
    assert_eq!(
        data,
        GetTime {
            extensions: 0,
            flags: 0,
            tv_sec: 12,
            tv_nsec: 345,
            gpu_timestamp: 0x1234_5678_9abc
        }
    );
    data.flags = 1;
    assert_eq!(get_time(&mut data, 1, 1, 1), Err(Error::EINVAL));
    data.flags = 0;
    data.extensions = 8;
    assert_eq!(get_time(&mut data, 1, 1, 1), Err(Error::EINVAL));
    assert_eq!(data.tv_sec, 12);
}
