//! Firmware job structures, described by the values of their fields.
//!
//! The byte layout of these structures depends on the GPU generation and the
//! firmware version. Fields that exist only in some versions are optional.

use crate::microseq::MicroSequence;
use crate::queue::render::{RenderCommand, TilingParameters};
use vstd::prelude::*;

verus! {

/// Makes a queue wait for a stamp of another queue.
#[derive(Clone, Copy, Debug, PartialEq, Eq, Structural)]
pub struct Barrier {
    /// Firmware stamp to wait on.
    pub wait_stamp: u64,
    /// Value that the stamp has to reach.
    pub wait_value: u32,
    /// Slot of the stamp to wait on.
    pub wait_slot: u32,
    /// Value that the waiting queue's own stamp will take next.
    pub stamp_self: u32,
    pub uuid: u32,
    pub barrier_type: u32,
}

/// Binds a tile vertex buffer to a slot before a vertex job runs.
#[derive(Clone, Copy, Debug, PartialEq, Eq, Structural)]
pub struct InitBuffer {
    pub vm_slot: u32,
    pub buffer_slot: u32,
    pub unk_c: u32,
    pub block_count: u32,
    pub buffer: u64,
    pub stamp_value: u32,
}

/// Completion bookkeeping shared by all job types.
#[derive(Clone, Copy, Debug, PartialEq, Eq, Structural)]
pub struct JobMeta {
    pub unk_0: u16,
    pub unk_2: u8,
    pub no_preemption: u8,
    pub stamp: u64,
    pub fw_stamp: u64,
    pub stamp_value: u32,
    pub stamp_slot: u32,
    pub evctl_index: u32,
    pub flush_stamps: u32,
    pub uuid: u32,
    pub event_seq: u32,
}

/// Encoder identification of a job.
#[derive(Clone, Copy, Debug, PartialEq, Eq, Structural)]
pub struct EncoderParams {
    pub unk_8: u32,
    pub unk_c: u32,
    pub unk_10: u32,
    pub encoder_id: u32,
    pub unk_18: u32,
    pub iogpu_compute_unk44: u32,
    pub seq_buffer: u64,
    pub unk_28: u64,
}

/// The first two words of the packed masks of active cores.
#[derive(Clone, Copy, Debug, PartialEq, Eq, Structural)]
pub struct CoreMasks {
    pub first: u32,
    pub second: u32,
}

/// Auxiliary framebuffer description of a fragment job.
#[derive(Clone, Copy, Debug, PartialEq, Eq, Structural)]
pub struct AuxFBInfo {
    pub iogpu_unk_214: u32,
    pub unk2: u32,
    pub width: u32,
    pub height: u32,
    pub unk3: Option<u64>,
}

/// A fragment job.
#[derive(Clone, Debug)]
pub struct RunFragment {
    pub counter: Option<u64>,
    pub vm_slot: u32,
    pub microsequence: MicroSequence,
    pub notifier: u64,
    pub buffer: u64,
    pub scene: u64,
    pub unk_buffer_buf: u64,
    pub tvb_tilemap: u64,
    pub tvb_heapmeta: u64,
    pub aux_fb: u64,
    pub samples: u32,
    pub tiles_per_mtile_y: u16,
    pub tiles_per_mtile_x: u16,
    pub tile_count: u64,
    pub utile_config: u32,
    pub aux_fb_info: AuxFBInfo,
    pub mtile_stride_dwords: u64,
    pub tile_config: u64,
    pub pipeline_base: u64,
    pub utiles_per_mtile_y: u16,
    pub utiles_per_mtile_x: u16,
    pub tile_counts: u32,
    /// Background object values of the second parameter block.
    pub isp_bgobjvals: u32,
    pub encoder_params: EncoderParams,
    pub process_empty_tiles: u32,
    pub no_clear_pipeline_textures: u32,
    pub unk_param: u32,
    pub meta: JobMeta,
    pub unk_after_meta: u32,
    pub unk_buf_10: u64,
    pub start_ts: u64,
    pub end_ts: u64,
    pub client_sequence: u8,
    /// The pipeline descriptors and buffer addresses of the command, passed
    /// through to the job parameter blocks.
    pub cmd: RenderCommand,
}

/// A vertex job.
#[derive(Clone, Debug)]
pub struct RunVertex {
    pub counter: Option<u64>,
    pub vm_slot: u32,
    pub notifier: u64,
    pub buffer_slot: u32,
    pub buffer: u64,
    pub scene: u64,
    pub unk_buffer_buf: u64,
    pub unk_0: u64,
    pub tvb_tilemap: u64,
    pub tvb_cluster_tilemaps: Option<u64>,
    pub tpc: u64,
    pub tvb_heapmeta: u64,
    pub tvb_cluster_meta1: Option<u64>,
    pub tvb_cluster_meta2: Option<u64>,
    pub tvb_cluster_meta3: Option<u64>,
    pub tvb_cluster_meta4: Option<u64>,
    pub utile_config: u32,
    pub ppp_multisamplectl: u64,
    pub tvb_heapmeta_2: u64,
    pub core_mask: Option<CoreMasks>,
    pub preempt_buf1: u64,
    pub preempt_buf2: u64,
    pub preempt_buf3: u64,
    pub encoder_addr: u64,
    pub tiling_control: Option<u32>,
    pub pipeline_base: u64,
    pub unk_f0: Option<u64>,
    pub tiling_params: TilingParameters,
    pub tpc_size: u64,
    pub microsequence: MicroSequence,
    pub fragment_stamp_slot: u32,
    pub fragment_stamp_value: u32,
    pub encoder_params: EncoderParams,
    pub memoryless_rts_used: u32,
    pub meta: JobMeta,
    pub unk_after_meta: u32,
    pub start_ts: u64,
    pub end_ts: u64,
    pub client_sequence: u8,
}

/// A command of a firmware work queue.
#[derive(Clone, Debug)]
pub enum WorkCommand {
    Barrier(Barrier),
    InitBuffer(InitBuffer),
    RunVertex(RunVertex),
    RunFragment(RunFragment),
}

} // verus!
