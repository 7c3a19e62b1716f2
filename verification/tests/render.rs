use asahi::buffer::{Buffer, BLOCK_SIZE, MAX_BLOCKS};
use asahi::error::Error;
use asahi::gem::{new_kernel_object, new_object, sg_pages, SgEntry};
use asahi::microseq::{Builder, MicroOp, OpSizes, Pipe, MAX_MICROSEQ_SIZE};
use asahi::queue::common::{
    build_attachments, parse_attachment, parse_attachments, serialize_attachments, Attachment,
    UserAttachment,
};
use asahi::queue::render::{
    get_tiling_params, RenderCommand, RenderResult, ResultRender, TileInfo, TilingParameters,
    RESULT_RENDER_TVB_OVERFLOWED,
};
use asahi::queue::{parse_commands, Command, Queue, QueueResources, ResultWriter};
use asahi::sync::{Fence, SyncItem, SyncObj, SyncRecord};
use asahi::workqueue::{EventChannel, Status, WorkError};
use asahi::xarray::IdTable;

fn geometry(width: u32, height: u32, utile: (u32, u32), layers: u32) -> RenderCommand {
    RenderCommand {
        flags: 0,
        encoder_ptr: 0,
        depth_buffer_1: 0,
        depth_buffer_2: 0,
        depth_buffer_3: 0,
        depth_meta_buffer_1: 0,
        depth_meta_buffer_2: 0,
        depth_meta_buffer_3: 0,
        stencil_buffer_1: 0,
        stencil_buffer_2: 0,
        stencil_buffer_3: 0,
        stencil_meta_buffer_1: 0,
        stencil_meta_buffer_2: 0,
        stencil_meta_buffer_3: 0,
        scissor_array: 0,
        depth_bias_array: 0,
        visibility_result_buffer: 0,
        zls_ctrl: 0,
        ppp_multisamplectl: 0,
        ppp_ctrl: 0x203,
        fb_width: width,
        fb_height: height,
        utile_width: utile.0,
        utile_height: utile.1,
        samples: 1,
        layers,
        encoder_id: 0,
        cmd_ta_id: 0,
        cmd_3d_id: 0,
        iogpu_unk_49: 0,
        iogpu_unk_212: 0,
        iogpu_unk_214: 0,
        merge_upper_x: 0,
        merge_upper_y: 0,
        load_pipeline: 0,
        load_pipeline_bind: 0,
        store_pipeline: 0,
        store_pipeline_bind: 0,
        partial_reload_pipeline: 0,
        partial_reload_pipeline_bind: 0,
        partial_store_pipeline: 0,
        partial_store_pipeline_bind: 0,
        depth_dimensions: 0,
        isp_bgobjdepth: 0,
        isp_bgobjvals: 0,
        attachment_count: 0,
    }
}

fn record(pointer: u64, size: u64, order: u32, flags: u32) -> Vec<u8> {
    let mut out: Vec<u8> = Vec::new();
    out.extend_from_slice(&pointer.to_le_bytes());
    out.extend_from_slice(&size.to_le_bytes());
    out.extend_from_slice(&order.to_le_bytes());
    out.extend_from_slice(&flags.to_le_bytes());
    out
}

fn sync_record(sync_type: u32, handle: u32, timeline_value: u64) -> Vec<u8> {
    let mut out: Vec<u8> = Vec::new();
    out.extend_from_slice(&0u64.to_le_bytes());
    out.extend_from_slice(&sync_type.to_le_bytes());
    out.extend_from_slice(&handle.to_le_bytes());
    out.extend_from_slice(&timeline_value.to_le_bytes());
    out
}

fn pending() -> RenderResult {
    RenderResult {
        result: ResultRender {
            status: Status::Pending,
            flags: 0,
            vertex_ts_start: 0,
            vertex_ts_end: 0,
            fragment_ts_start: 0,
            fragment_ts_end: 0,
            tvb_size_bytes: 0x10_0000,
            tvb_usage_bytes: 0,
            num_tvb_overflows: 0,
        },
        vtx_complete: false,
        frag_complete: false,
        vtx_error: None,
        frag_error: None,
        writer: ResultWriter {
            offset: 0,
            size: 64,
        },
    }
}

fn sizes() -> OpSizes {
    OpSizes {
        start_vertex: 0x100,
        start_fragment: 0x120,
        timestamp: 0x30,
        wait_for_idle: 0x10,
        finalize_vertex: 0x80,
        finalize_fragment: 0x90,
        retire_stamp: 0x20,
    }
}

#[test]
fn tiling_of_a_full_hd_frame() {
    let t = get_tiling_params(&geometry(1920, 1080, (32, 32), 1), 1).unwrap();
    assert_eq!(
        t,
        TileInfo {
            tiles_x: 60,
            tiles_y: 34,
            tiles: 2040,
            utile_width: 32,
            utile_height: 32,
            tiles_per_mtile_x: 16,
            tiles_per_mtile_y: 12,
            utiles_per_mtile_x: 16,
            utiles_per_mtile_y: 12,
            tilemap_size: 15360,
            tpc_size: 24576,
            meta1_blocks: 0,
            min_tvb_blocks: 16,
            cluster_factor: 2,
            params: TilingParameters {
                rgn_size: 240,
                unk_4: 0x88,
                ppp_ctrl: 0x203,
                x_max: 1919,
                y_max: 1079,
                te_screen: (33 << 12) | 59,
                te_mtile1: 48 | (32 << 9) | (16 << 18),
                te_mtile2: 36 | (24 << 9) | (12 << 18),
                tiles_per_mtile: 192,
                tpc_stride: 384,
                unk_24: 0x100,
                unk_28: 0x8000,
            },
        }
    );
}

#[test]
fn tiling_with_small_micro_tiles_layers_and_clusters() {
    let t = get_tiling_params(&geometry(64, 64, (16, 16), 4), 2).unwrap();
    assert_eq!((t.tiles_x, t.tiles_y, t.tiles), (2, 2, 4));
    assert_eq!((t.tiles_per_mtile_x, t.tiles_per_mtile_y), (4, 4));
    assert_eq!((t.utiles_per_mtile_x, t.utiles_per_mtile_y), (8, 8));
    // 16 tiles of 4 micro-tiles with 5 words each.
    assert_eq!(t.params.rgn_size, 80);
    assert_eq!(t.params.tpc_stride, 128);
    assert_eq!(t.tilemap_size, 4 * 80 * 16 * 4);
    assert_eq!(t.tpc_size, 2 * (4 * 128 * 16) * 4);
    assert_eq!(t.meta1_blocks, 1);
    assert_eq!(t.min_tvb_blocks, 9);
    assert_eq!(t.params.unk_28, 0xe000 | 3);
    let t = get_tiling_params(&geometry(64, 64, (32, 16), 1), 1).unwrap();
    assert_eq!((t.utiles_per_mtile_x, t.utiles_per_mtile_y), (4, 8));
    assert_eq!(t.params.rgn_size, 40);
}

#[test]
fn tiling_has_a_floor_of_tvb_blocks() {
    for (w, h) in [(1u32, 1u32), (64, 64), (1024, 1024)] {
        let one = get_tiling_params(&geometry(w, h, (32, 32), 1), 1).unwrap();
        assert!(one.min_tvb_blocks >= 8);
        let many = get_tiling_params(&geometry(w, h, (32, 32), 1), 4).unwrap();
        assert!(many.min_tvb_blocks >= 9);
    }
    let one = get_tiling_params(&geometry(1, 1, (32, 32), 1), 1).unwrap();
    assert_eq!(one.min_tvb_blocks, 8);
    let big = get_tiling_params(&geometry(16384, 16384, (32, 32), 1), 1).unwrap();
    assert_eq!(big.min_tvb_blocks, 2048);
}

#[test]
fn tiling_checks_the_size_of_the_frame() {
    assert!(get_tiling_params(&geometry(16384, 16384, (32, 32), 2048), 1).is_ok());
    assert_eq!(
        get_tiling_params(&geometry(16385, 64, (32, 32), 1), 1),
        Err(Error::EINVAL)
    );
    assert_eq!(
        get_tiling_params(&geometry(64, 16385, (32, 32), 1), 1),
        Err(Error::EINVAL)
    );
    assert_eq!(
        get_tiling_params(&geometry(64, 64, (32, 32), 0), 1),
        Err(Error::EINVAL)
    );
    assert_eq!(
        get_tiling_params(&geometry(64, 64, (32, 32), 2049), 1),
        Err(Error::EINVAL)
    );
    assert_eq!(
        get_tiling_params(&geometry(0, 64, (32, 32), 1), 1),
        Err(Error::EINVAL)
    );
}

#[test]
fn tiling_checks_the_micro_tile() {
    for utile in [(32u32, 32u32), (32, 16), (16, 16)] {
        assert!(get_tiling_params(&geometry(64, 64, utile, 1), 1).is_ok());
    }
    for utile in [(16u32, 32u32), (0, 0), (64, 64), (32, 8), (8, 8)] {
        assert_eq!(
            get_tiling_params(&geometry(64, 64, utile, 1), 1),
            Err(Error::EINVAL)
        );
    }
}

#[test]
fn attachments_round_trip() {
    let mut data: Vec<u8> = Vec::new();
    data.extend_from_slice(&record(0x11_0000_4000, 0x1234, 1, 0));
    data.extend_from_slice(&record(0x22_0000_8000, 0x80, 0, 7));
    data.extend_from_slice(&record(u64::MAX, u64::MAX, u32::MAX, u32::MAX));
    let list = parse_attachments(&data, 3).unwrap();
    assert_eq!(
        list[0],
        UserAttachment {
            pointer: 0x11_0000_4000,
            size: 0x1234,
            order: 1,
            flags: 0
        }
    );
    assert_eq!(list[1].flags, 7);
    assert_eq!(serialize_attachments(&list), data);
    // Bytes behind the records are left alone.
    data.extend_from_slice(&[1, 2, 3]);
    let two = parse_attachments(&data, 2).unwrap();
    assert_eq!(serialize_attachments(&two)[..], data[..48]);
    assert_eq!(parse_attachment(&data, 24), list[1]);
}

#[test]
fn attachments_are_counted_in_cache_lines() {
    let mut data: Vec<u8> = Vec::new();
    data.extend_from_slice(&record(0x4000, 0, 0, 0));
    data.extend_from_slice(&record(0x8000, 1, 0, 0));
    data.extend_from_slice(&record(0xc000, 128, 0, 0));
    data.extend_from_slice(&record(0x10000, 129, 0, 0));
    let a = build_attachments(&data, 4).unwrap();
    assert_eq!(a.count, 4);
    assert_eq!(a.list.len(), 16);
    let lines: Vec<u64> = a.list.iter().take(4).map(|x| x.size).collect();
    assert_eq!(lines, vec![0, 1, 1, 2]);
    assert_eq!(
        a.list[1],
        Attachment {
            address: 0x8000,
            size: 1,
            unk_c: 0x17,
            unk_e: 1
        }
    );
    assert_eq!(
        a.list[4],
        Attachment {
            address: 0,
            size: 0,
            unk_c: 0,
            unk_e: 0
        }
    );
}

#[test]
fn attachments_are_checked() {
    let data = record(0x4000, 0x100, 0, 0);
    assert!(matches!(parse_attachments(&data, 17), Err(Error::EINVAL)));
    assert!(matches!(parse_attachments(&data, 2), Err(Error::EFAULT)));
    assert!(matches!(build_attachments(&data, 17), Err(Error::EINVAL)));
    assert!(matches!(build_attachments(&data, 2), Err(Error::EFAULT)));
    // No size is too large to be counted.
    let huge = record(0x4000, u64::MAX, 0, 0);
    assert_eq!(build_attachments(&huge, 1).unwrap().list[0].size, 1 << 57);
    let empty = build_attachments(&data, 0).unwrap();
    assert_eq!(empty.count, 0);
}

#[test]
fn commands_are_read_from_their_records() {
    let mut data: Vec<u8> = Vec::new();
    data.extend_from_slice(&0u64.to_le_bytes());
    data.extend_from_slice(&2u32.to_le_bytes());
    data.extend_from_slice(&1u32.to_le_bytes());
    data.extend_from_slice(&0x1000u64.to_le_bytes());
    data.extend_from_slice(&0x200u64.to_le_bytes());
    data.extend_from_slice(&0x40u64.to_le_bytes());
    data.extend_from_slice(&0x80u64.to_le_bytes());
    data.extend_from_slice(&5u32.to_le_bytes());
    data.extend_from_slice(&6u32.to_le_bytes());
    let v = parse_commands(&data, 1).unwrap();
    assert_eq!(
        v,
        vec![Command {
            extensions: 0,
            cmd_type: 2,
            flags: 1,
            cmd_buffer: 0x1000,
            cmd_buffer_size: 0x200,
            result_offset: 0x40,
            result_size: 0x80,
            barrier_0: 5,
            barrier_1: 6,
        }]
    );
    assert!(matches!(parse_commands(&data, 2), Err(Error::EFAULT)));
    assert_eq!(parse_commands(&data, 0).unwrap().len(), 0);
}

#[test]
fn queue_takes_the_channels_of_its_capabilities() {
    let ch = |v: u32| EventChannel {
        stamp_pointer: 0,
        fw_stamp_pointer: 0,
        slot: 0,
        value: v,
        info_ptr: 0,
        event_seq: 0,
    };
    let res = QueueResources {
        id: 3,
        vm_id: 4,
        vtx: ch(1),
        frag: ch(2),
        comp: ch(3),
        tvb_blocks: 16,
    };
    let q = Queue::new(&res, 1, 0x2).unwrap();
    assert_eq!((q.vtx, q.frag, q.comp), (None, Some(ch(2)), None));
    assert!(q.buffer.is_none());
    let q = Queue::new(&res, 3, 0x7).unwrap();
    assert_eq!((q.vtx, q.frag, q.comp), (Some(ch(1)), Some(ch(2)), Some(ch(3))));
    assert_eq!(q.buffer.unwrap().block_count(), 16);
    assert_eq!((q.id, q.vm_id, q.priority, q.caps), (3, 4, 3, 7));
    assert!(matches!(Queue::new(&res, 4, 0x1), Err(Error::EINVAL)));
    assert!(matches!(Queue::new(&res, 0, 0), Err(Error::EINVAL)));
    let big = QueueResources {
        tvb_blocks: MAX_BLOCKS + 1,
        ..res
    };
    assert!(matches!(Queue::new(&big, 0, 0x1), Err(Error::ENOMEM)));
    assert!(Queue::new(&big, 0, 0x4).is_ok());
}

#[test]
fn render_result_is_written_when_both_halves_are_done() {
    let mut r = pending();
    assert_eq!(r.commit(), None);
    assert_eq!(r.complete_vertex(10, 20, 0x4000, true, None), None);
    let rec = r.complete_fragment(30, 40, 2, None).unwrap();
    assert_eq!(
        rec,
        ResultRender {
            status: Status::Complete,
            flags: RESULT_RENDER_TVB_OVERFLOWED,
            vertex_ts_start: 10,
            vertex_ts_end: 20,
            fragment_ts_start: 30,
            fragment_ts_end: 40,
            tvb_size_bytes: 0x10_0000,
            tvb_usage_bytes: 0x4000,
            num_tvb_overflows: 2,
        }
    );
    // Either order does.
    let mut r = pending();
    assert_eq!(r.complete_fragment(30, 40, 0, None), None);
    let rec = r.complete_vertex(10, 20, 0, false, None).unwrap();
    assert_eq!(rec.status, Status::Complete);
    assert_eq!(rec.flags, 0);
}

#[test]
fn render_result_reports_the_error_that_counts() {
    let cases = [
        (None, Some(WorkError::Fault), Status::Fault),
        (Some(WorkError::Timeout), None, Status::Timeout),
        (Some(WorkError::Timeout), Some(WorkError::Fault), Status::Timeout),
        (Some(WorkError::Killed), Some(WorkError::Fault), Status::Fault),
        (Some(WorkError::Killed), None, Status::Killed),
        (Some(WorkError::NoDevice), Some(WorkError::Killed), Status::NoDevice),
        (None, Some(WorkError::Unknown), Status::UnknownError),
    ];
    for (vtx, frag, status) in cases {
        let mut r = pending();
        r.complete_vertex(0, 0, 0, false, vtx);
        let rec = r.complete_fragment(0, 0, 0, frag).unwrap();
        assert_eq!(rec.status, status);
    }
}

#[test]
fn buffer_grows_on_request_and_to_the_minimum() {
    let mut b = Buffer::new(8).unwrap();
    assert_eq!(b.block_count(), 8);
    assert_eq!(b.size(), 8 * BLOCK_SIZE);
    assert!(!b.auto_grow());
    b.request_grow(4);
    assert!(!b.auto_grow());
    assert_eq!(b.block_count(), 8);
    b.request_grow(12);
    assert!(b.auto_grow());
    assert_eq!(b.block_count(), 12);
    // The request is used up.
    assert!(!b.auto_grow());
    b.request_grow(u32::MAX);
    assert!(b.auto_grow());
    assert_eq!(b.block_count(), MAX_BLOCKS);
    let mut b = Buffer::new(8).unwrap();
    assert_eq!(b.ensure_blocks(8), Ok(false));
    assert_eq!(b.ensure_blocks(9), Ok(true));
    assert_eq!(b.block_count(), 9);
    assert_eq!(b.ensure_blocks(MAX_BLOCKS + 1), Err(Error::ENOMEM));
    assert_eq!(b.block_count(), 9);
    b.increment();
    assert_eq!(b.block_count(), 9);
    assert!(matches!(Buffer::new(MAX_BLOCKS + 1), Err(Error::ENOMEM)));
}

#[test]
fn microsequence_offsets_add_up() {
    let mut b = Builder::new(sizes());
    assert_eq!(b.add(MicroOp::WaitForIdle(Pipe::Vertex)), Ok(0));
    assert_eq!(b.add(MicroOp::RetireStamp), Ok(0x10));
    assert_eq!(b.add(MicroOp::WaitForIdle(Pipe::Fragment)), Ok(0x30));
    assert_eq!(b.offset_to(0x10), 0x10 - 0x40);
    assert_eq!(b.offset_to(0), -0x40);
    let seq = b.build();
    assert_eq!(seq.size, 0x40);
    assert_eq!(seq.ops.len(), 3);
    assert_eq!(sizes().size_of(&MicroOp::RetireStamp), 0x20);
}

#[test]
fn microsequence_has_a_largest_size() {
    let huge = OpSizes {
        retire_stamp: MAX_MICROSEQ_SIZE,
        ..sizes()
    };
    let mut b = Builder::new(huge);
    assert_eq!(b.add(MicroOp::RetireStamp), Ok(0));
    assert_eq!(b.add(MicroOp::WaitForIdle(Pipe::Compute)), Err(Error::ENOMEM));
    assert_eq!(b.build().ops.len(), 1);
}

#[test]
fn sync_records_are_looked_up() {
    let mut objs: IdTable<SyncObj> = IdTable::new();
    let signalled = objs
        .insert(SyncObj {
            fence: Some(Fence {
                context: 9,
                seqno: 5,
            }),
        })
        .unwrap();
    let fresh = objs.insert(SyncObj { fence: None }).unwrap();
    let rec = |sync_type: u32, handle: u32, timeline_value: u64| SyncRecord {
        extensions: 0,
        sync_type,
        handle,
        timeline_value,
    };
    assert_eq!(
        SyncItem::parse_one(&objs, rec(0, signalled, 0), false),
        Ok(SyncItem {
            syncobj: signalled,
            fence: Some(Fence {
                context: 9,
                seqno: 5
            }),
            chain_fence: false,
            timeline_value: 0
        })
    );
    // An in-sync needs a fence; an out-sync does not.
    assert_eq!(
        SyncItem::parse_one(&objs, rec(0, fresh, 0), false),
        Err(Error::EINVAL)
    );
    assert_eq!(
        SyncItem::parse_one(&objs, rec(0, fresh, 0), true),
        Ok(SyncItem {
            syncobj: fresh,
            fence: None,
            chain_fence: false,
            timeline_value: 0
        })
    );
    assert_eq!(
        SyncItem::parse_one(&objs, rec(0, signalled, 1), false),
        Err(Error::EINVAL)
    );
    assert_eq!(
        SyncItem::parse_one(&objs, rec(0, 9, 0), false),
        Err(Error::ENOENT)
    );
    assert_eq!(
        SyncItem::parse_one(&objs, rec(2, signalled, 0), false),
        Err(Error::EINVAL)
    );
    let mut bad = rec(0, signalled, 0);
    bad.extensions = 1;
    assert_eq!(SyncItem::parse_one(&objs, bad, false), Err(Error::EINVAL));
    // Timeline points.
    assert_eq!(
        SyncItem::parse_one(&objs, rec(1, signalled, 3), false),
        Ok(SyncItem {
            syncobj: signalled,
            fence: Some(Fence {
                context: 9,
                seqno: 3
            }),
            chain_fence: false,
            timeline_value: 3
        })
    );
    assert_eq!(
        SyncItem::parse_one(&objs, rec(1, signalled, 6), false),
        Err(Error::EINVAL)
    );
    assert_eq!(
        SyncItem::parse_one(&objs, rec(1, fresh, 6), true),
        Ok(SyncItem {
            syncobj: fresh,
            fence: None,
            chain_fence: true,
            timeline_value: 6
        })
    );
}

#[test]
fn sync_arrays_stop_at_the_first_bad_record() {
    let mut objs: IdTable<SyncObj> = IdTable::new();
    let h = objs
        .insert(SyncObj {
            fence: Some(Fence {
                context: 1,
                seqno: 1,
            }),
        })
        .unwrap();
    let mut data: Vec<u8> = Vec::new();
    data.extend_from_slice(&sync_record(0, h, 0));
    data.extend_from_slice(&sync_record(0, h, 0));
    let items = SyncItem::parse_array(&objs, &data, 2, false).unwrap();
    assert_eq!(items.len(), 2);
    assert_eq!(items[1].syncobj, h);
    assert!(matches!(
        SyncItem::parse_array(&objs, &data, 3, false),
        Err(Error::EFAULT)
    ));
    data.extend_from_slice(&sync_record(0, h + 1, 0));
    assert!(matches!(
        SyncItem::parse_array(&objs, &data, 3, false),
        Err(Error::ENOENT)
    ));
    assert_eq!(
        SyncItem::parse_array(&objs, &data, 0, false).unwrap().len(),
        0
    );
}

#[test]
fn scatter_lists_are_cut_into_pages() {
    let sgt = [
        SgEntry {
            dma_address: 0x80_0000,
            dma_len: 0x8000,
        },
        SgEntry {
            dma_address: 0x100_0000,
            dma_len: 0x4000,
        },
    ];
    assert_eq!(
        sg_pages(&sgt),
        Ok(vec![0x80_0000, 0x80_4000, 0x100_0000])
    );
    let off = [SgEntry {
        dma_address: 0x80_0001,
        dma_len: 0x4000,
    }];
    assert!(sg_pages(&off).is_err());
    let short = [SgEntry {
        dma_address: 0x80_0000,
        dma_len: 0x1000,
    }];
    assert!(sg_pages(&short).is_err());
}

#[test]
fn objects_are_rounded_to_whole_pages() {
    let o = new_kernel_object(1, 0x4001, vec![0x80_0000, 0x80_4000]).unwrap();
    assert_eq!(o.size, 0x8000);
    assert!(o.kernel);
    let o = new_object(2, 0x4000, 0, None, vec![0x80_0000]).unwrap();
    assert_eq!(o.size, 0x4000);
    assert!(!o.kernel);
    assert!(new_object(2, 0x4000, 0, None, vec![]).is_err());
}
