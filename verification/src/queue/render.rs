//! Render work queue.
//!
//! A render submission consists of a vertex job and a fragment job that share
//! a barrier. This module derives the tiling parameters of a framebuffer and
//! assembles the description of both jobs from a userspace command buffer.

use crate::buffer::{Buffer, Scene, BLOCK_SIZE};
use crate::error::{Error, Result};
use crate::fw::{
    AuxFBInfo, Barrier, CoreMasks, EncoderParams, InitBuffer, JobMeta, RunFragment, RunVertex, WorkCommand,
};
use crate::microseq::{
    Builder, FinalizeFragment, FinalizeVertex, MicroOp, MicroSequence, OpSizes, Pipe,
    StartFragment, StartVertex, Timestamp, MAX_MICROSEQ_SIZE,
};
use crate::queue::common::{
    build_attachments, spec_parse_attachments, Attachments, UserAttachment,
    ATTACHMENT_STRIDE, MAX_ATTACHMENTS,
};
use crate::queue::{Command, Queue, QueueJob, ResultWriter, CMD_RENDER};
use crate::util::{align, div_ceil, spec_align, spec_div_ceil};
use crate::workqueue::{spec_next_stamp, EventChannel, Status, WorkError};
use vstd::prelude::*;

verus! {

/// Tiling/vertex control bit that disables the use of more than one GPU cluster.
pub const TILECTL_DISABLE_CLUSTERING: u32 = 0x1;

/// Largest framebuffer width and height, in pixels.
pub const MAX_FB_DIMENSION: u32 = 16384;

/// Largest number of framebuffer layers.
pub const MAX_LAYERS: u32 = 2048;

/// Largest number of GPU clusters.
pub const MAX_CLUSTERS: u32 = 32;

/// Width and height of a tile, in pixels.
pub const TILE_SIZE: u32 = 32;

/// The userspace view of a render command.
#[derive(Clone, Copy, Debug, PartialEq, Eq, Structural)]
pub struct RenderCommand {
    pub flags: u64,
    pub encoder_ptr: u64,
    pub depth_buffer_1: u64,
    pub depth_buffer_2: u64,
    pub depth_buffer_3: u64,
    pub depth_meta_buffer_1: u64,
    pub depth_meta_buffer_2: u64,
    pub depth_meta_buffer_3: u64,
    pub stencil_buffer_1: u64,
    pub stencil_buffer_2: u64,
    pub stencil_buffer_3: u64,
    pub stencil_meta_buffer_1: u64,
    pub stencil_meta_buffer_2: u64,
    pub stencil_meta_buffer_3: u64,
    pub scissor_array: u64,
    pub depth_bias_array: u64,
    pub visibility_result_buffer: u64,
    pub zls_ctrl: u64,
    pub ppp_multisamplectl: u64,
    pub ppp_ctrl: u32,
    pub fb_width: u32,
    pub fb_height: u32,
    pub utile_width: u32,
    pub utile_height: u32,
    pub samples: u32,
    pub layers: u32,
    pub encoder_id: u32,
    pub cmd_ta_id: u32,
    pub cmd_3d_id: u32,
    pub iogpu_unk_49: u32,
    pub iogpu_unk_212: u32,
    pub iogpu_unk_214: u32,
    pub merge_upper_x: u32,
    pub merge_upper_y: u32,
    pub load_pipeline: u32,
    pub load_pipeline_bind: u32,
    pub store_pipeline: u32,
    pub store_pipeline_bind: u32,
    pub partial_reload_pipeline: u32,
    pub partial_reload_pipeline_bind: u32,
    pub partial_store_pipeline: u32,
    pub partial_store_pipeline_bind: u32,
    pub depth_dimensions: u32,
    pub isp_bgobjdepth: u32,
    pub isp_bgobjvals: u32,
    pub attachment_count: u32,
}

/// The tiling parameters block handed to the firmware with a vertex job.
#[derive(Clone, Copy, Debug, PartialEq, Eq, Structural)]
pub struct TilingParameters {
    pub rgn_size: u32,
    pub unk_4: u32,
    pub ppp_ctrl: u32,
    pub x_max: u16,
    pub y_max: u16,
    pub te_screen: u32,
    pub te_mtile1: u32,
    pub te_mtile2: u32,
    pub tiles_per_mtile: u32,
    pub tpc_stride: u32,
    pub unk_24: u32,
    pub unk_28: u32,
}

/// Everything derived from the framebuffer geometry of one render command.
#[derive(Clone, Copy, Debug, PartialEq, Eq, Structural)]
pub struct TileInfo {
    pub tiles_x: u32,
    pub tiles_y: u32,
    pub tiles: u32,
    pub utile_width: u32,
    pub utile_height: u32,
    pub tiles_per_mtile_x: u32,
    pub tiles_per_mtile_y: u32,
    pub utiles_per_mtile_x: u32,
    pub utiles_per_mtile_y: u32,
    pub tilemap_size: u64,
    pub tpc_size: u64,
    pub meta1_blocks: u32,
    pub min_tvb_blocks: u32,
    pub cluster_factor: u32,
    pub params: TilingParameters,
}

/// Whether the micro-tile dimensions are one of the supported pairs.
pub open spec fn utile_valid(utile_width: u32, utile_height: u32) -> bool {
    ||| (utile_width == 32 && utile_height == 32)
    ||| (utile_width == 32 && utile_height == 16)
    ||| (utile_width == 16 && utile_height == 16)
}

/// Whether a framebuffer geometry can be tiled.
pub open spec fn tiling_valid(cmd: RenderCommand) -> bool {
    &&& 1 <= cmd.fb_width <= MAX_FB_DIMENSION
    &&& 1 <= cmd.fb_height <= MAX_FB_DIMENSION
    &&& 1 <= cmd.layers <= MAX_LAYERS
    &&& utile_valid(cmd.utile_width, cmd.utile_height)
}

/// Number of tiles needed to cover `pixels` pixels.
pub open spec fn spec_tiles(pixels: int) -> int {
    spec_div_ceil(pixels, 32)
}

/// Number of tiles along one axis of a macrotile, for `tiles` tiles along
/// that axis of the frame. The frame is always 4 macrotiles wide and high.
pub open spec fn spec_tiles_per_mtile(tiles: int) -> int {
    spec_align(spec_div_ceil(tiles, 4), 4)
}

/// Number of micro-tiles in a tile.
pub open spec fn spec_utiles_per_tile(utile_width: int, utile_height: int) -> int {
    (32int / utile_width) * (32int / utile_height)
}

/// Macrotile stride of the tilemap in 32-bit words. A region entry has 5
/// words.
pub open spec fn spec_rgn_size(tiles_per_mtile: int, utiles_per_tile: int) -> int {
    spec_align(5 * tiles_per_mtile * utiles_per_tile, 4) / 4
}

/// Per-cluster macrotile stride of the TPC area in 32-bit words.
pub open spec fn spec_tpc_stride(tiles_per_mtile: int, utiles_per_tile: int) -> int {
    8 * utiles_per_tile * tiles_per_mtile / 4
}

/// Number of blocks of the first cluster metadata buffer.
pub open spec fn spec_meta1_blocks(tiles_x: int, tiles_y: int, num_clusters: int) -> int {
    if num_clusters > 1 {
        spec_div_ceil(spec_align(tiles_x, 2) * spec_align(tiles_y, 4), 0x1980)
    } else {
        0
    }
}

/// Smallest number of TVB blocks that a frame of the given size may run with.
pub open spec fn spec_min_tvb_blocks(tiles_x: int, tiles_y: int, num_clusters: int) -> int {
    let by_size = spec_div_ceil(tiles_x * tiles_y, 128);
    let floor: int = if num_clusters > 1 {
        9
    } else {
        8
    };
    if by_size >= floor {
        by_size
    } else {
        floor
    }
}

/// The layers control word of the tiling parameters.
pub open spec fn spec_layers_ctrl(layers: u32) -> u32 {
    if layers > 1 {
        0xe000u32 | ((layers - 1) as u32)
    } else {
        0x8000u32
    }
}

/// Packs the three inner macrotile boundaries along one axis.
pub open spec fn spec_te_mtile(tiles_per_mtile: u32) -> u32 {
    ((3 * tiles_per_mtile) as u32) | (((2 * tiles_per_mtile) as u32) << 9) | (tiles_per_mtile
        << 18)
}

/// Packs the index of the last tile along each axis.
pub open spec fn spec_te_screen(tiles_x: u32, tiles_y: u32) -> u32 {
    (((tiles_y - 1) as u32) << 12) | ((tiles_x - 1) as u32)
}

/// The tiling of a valid framebuffer geometry on `num_clusters` clusters.
pub open spec fn spec_tile_info(cmd: RenderCommand, num_clusters: u32) -> TileInfo {
    let upt = spec_utiles_per_tile(cmd.utile_width as int, cmd.utile_height as int);
    let tiles_x = spec_tiles(cmd.fb_width as int);
    let tiles_y = spec_tiles(cmd.fb_height as int);
    let tpm_x = spec_tiles_per_mtile(tiles_x);
    let tpm_y = spec_tiles_per_mtile(tiles_y);
    let tpm = tpm_x * tpm_y;
    TileInfo {
        tiles_x: tiles_x as u32,
        tiles_y: tiles_y as u32,
        tiles: (tiles_x * tiles_y) as u32,
        utile_width: cmd.utile_width,
        utile_height: cmd.utile_height,
        tiles_per_mtile_x: tpm_x as u32,
        tiles_per_mtile_y: tpm_y as u32,
        utiles_per_mtile_x: (tpm_x * (32int / cmd.utile_width as int)) as u32,
        utiles_per_mtile_y: (tpm_y * (32int / cmd.utile_height as int)) as u32,
        tilemap_size: (4 * spec_rgn_size(tpm, upt) * 16 * cmd.layers) as u64,
        tpc_size: (num_clusters * (4 * spec_tpc_stride(tpm, upt) * 16) * cmd.layers) as u64,
        meta1_blocks: spec_meta1_blocks(tiles_x, tiles_y, num_clusters as int) as u32,
        min_tvb_blocks: spec_min_tvb_blocks(tiles_x, tiles_y, num_clusters as int) as u32,
        cluster_factor: 2,
        params: TilingParameters {
            rgn_size: spec_rgn_size(tpm, upt) as u32,
            unk_4: 0x88,
            ppp_ctrl: cmd.ppp_ctrl,
            x_max: (cmd.fb_width - 1) as u16,
            y_max: (cmd.fb_height - 1) as u16,
            te_screen: spec_te_screen(tiles_x as u32, tiles_y as u32),
            te_mtile1: spec_te_mtile(tpm_x as u32),
            te_mtile2: spec_te_mtile(tpm_y as u32),
            tiles_per_mtile: tpm as u32,
            tpc_stride: spec_tpc_stride(tpm, upt) as u32,
            unk_24: 0x100,
            unk_28: spec_layers_ctrl(cmd.layers),
        },
    }
}

/// The geometry-derived numbers of a valid tiling fit their fields: the
/// frame has at most 512 by 512 tiles in macrotiles of at most 128 by 128
/// tiles, and the TVB never needs more than 2048 blocks.
pub open spec fn tile_info_in_range(t: TileInfo) -> bool {
    &&& 1 <= t.tiles_x <= 512
    &&& 1 <= t.tiles_y <= 512
    &&& 4 <= t.tiles_per_mtile_x <= 128
    &&& 4 <= t.tiles_per_mtile_y <= 128
    &&& t.utiles_per_mtile_x <= 256
    &&& t.utiles_per_mtile_y <= 256
    &&& t.params.rgn_size <= 81920
    &&& t.meta1_blocks <= 41
    &&& 8 <= t.min_tvb_blocks <= 2048
}

/// A frame never runs with fewer than 8 TVB blocks, nor with fewer than 9
/// when more than one cluster is used.
pub proof fn lemma_min_tvb_blocks_floor(tiles_x: int, tiles_y: int, num_clusters: int)
    ensures
        spec_min_tvb_blocks(tiles_x, tiles_y, num_clusters) >= 8,
        num_clusters > 1 ==> spec_min_tvb_blocks(tiles_x, tiles_y, num_clusters) >= 9,
{
}

/// Gets the tiling parameters for a given userspace command buffer.
///
/// `num_clusters` is the number of clusters the job will run on.
pub fn get_tiling_params(cmdbuf: &RenderCommand, num_clusters: u32) -> (r: Result<TileInfo>)
    requires
        num_clusters <= MAX_CLUSTERS,
    ensures
        r is Ok <==> tiling_valid(*cmdbuf),
        r matches Ok(t) ==> t == spec_tile_info(*cmdbuf, num_clusters) && tile_info_in_range(t),
        r matches Ok(t) ==> t.min_tvb_blocks >= 8 && (num_clusters > 1 ==> t.min_tvb_blocks >= 9),
        r matches Err(e) ==> e == Error::EINVAL,
{
    let width: u32 = cmdbuf.fb_width;
    let height: u32 = cmdbuf.fb_height;
    let layers: u32 = cmdbuf.layers;

    if width == 0 || height == 0 || width > MAX_FB_DIMENSION || height > MAX_FB_DIMENSION {
        return Err(Error::EINVAL);
    }
    if layers == 0 || layers > MAX_LAYERS {
        return Err(Error::EINVAL);
    }
    let utile_width: u32 = cmdbuf.utile_width;
    let utile_height: u32 = cmdbuf.utile_height;

    if !((utile_width == 32 && utile_height == 32) || (utile_width == 32 && utile_height == 16)
        || (utile_width == 16 && utile_height == 16)) {
        return Err(Error::EINVAL);
    }
    let utiles_per_tile_x: u32 = TILE_SIZE / utile_width;
    let utiles_per_tile_y: u32 = TILE_SIZE / utile_height;
    assert(utiles_per_tile_x == 1 || utiles_per_tile_x == 2) by {
        assert(utile_width == 32 ==> utiles_per_tile_x == 1);
        assert(utile_width == 16 ==> utiles_per_tile_x == 2);
    }
    assert(utiles_per_tile_y == 1 || utiles_per_tile_y == 2) by {
        assert(utile_height == 32 ==> utiles_per_tile_y == 1);
        assert(utile_height == 16 ==> utiles_per_tile_y == 2);
    }
    assert(utiles_per_tile_x * utiles_per_tile_y <= 4) by (nonlinear_arith)
        requires
            utiles_per_tile_x <= 2,
            utiles_per_tile_y <= 2,
    ;
    let utiles_per_tile: u32 = utiles_per_tile_x * utiles_per_tile_y;

    let tiles_x: u32 = (width + TILE_SIZE - 1) / TILE_SIZE;
    let tiles_y: u32 = (height + TILE_SIZE - 1) / TILE_SIZE;
    assert(tiles_x * tiles_y <= 512 * 512) by (nonlinear_arith)
        requires
            tiles_x <= 512,
            tiles_y <= 512,
    ;
    let tiles: u32 = tiles_x * tiles_y;

    let mtiles: u64 = 16;

    proof {
        crate::util::lemma_pow2_constants();
    }
    let tiles_per_mtile_x: u32 = align(div_ceil(tiles_x as u64, 4), 4) as u32;
    let tiles_per_mtile_y: u32 = align(div_ceil(tiles_y as u64, 4), 4) as u32;
    assert(tiles_per_mtile_x * tiles_per_mtile_y <= 128 * 128) by (nonlinear_arith)
        requires
            tiles_per_mtile_x <= 128,
            tiles_per_mtile_y <= 128,
    ;
    let tiles_per_mtile: u32 = tiles_per_mtile_x * tiles_per_mtile_y;

    let mtile_x1: u32 = tiles_per_mtile_x;
    let mtile_x2: u32 = 2 * tiles_per_mtile_x;
    let mtile_x3: u32 = 3 * tiles_per_mtile_x;

    let mtile_y1: u32 = tiles_per_mtile_y;
    let mtile_y2: u32 = 2 * tiles_per_mtile_y;
    let mtile_y3: u32 = 3 * tiles_per_mtile_y;

    let rgn_entry_size: u64 = 5;
    assert(5 * tiles_per_mtile * utiles_per_tile <= 5 * 16384 * 4) by (nonlinear_arith)
        requires
            tiles_per_mtile <= 16384,
            utiles_per_tile <= 4,
    ;
    // Macrotile stride in 32-bit words
    let rgn_size: u64 = align(rgn_entry_size * (tiles_per_mtile as u64) * (utiles_per_tile as u64), 4)
        / 4;
    assert(4 * rgn_size * 16 * layers <= 4 * 81920 * 16 * 2048) by (nonlinear_arith)
        requires
            rgn_size <= 81920,
            layers <= 2048,
    ;
    let tilemap_size: u64 = 4 * rgn_size * mtiles * (layers as u64);

    let tpc_entry_size: u64 = 8;
    assert(8 * utiles_per_tile * tiles_per_mtile <= 8 * 4 * 16384) by (nonlinear_arith)
        requires
            tiles_per_mtile <= 16384,
            utiles_per_tile <= 4,
    ;
    // TPC stride in 32-bit words
    let tpc_mtile_stride: u64 = tpc_entry_size * (utiles_per_tile as u64) * (tiles_per_mtile as u64)
        / 4;
    assert(num_clusters * (4 * tpc_mtile_stride * 16) * layers <= 32 * (4 * 131072 * 16) * 2048)
        by (nonlinear_arith)
        requires
            num_clusters <= 32,
            tpc_mtile_stride <= 131072,
            layers <= 2048,
    ;
    assert(num_clusters * (4 * tpc_mtile_stride * 16) <= 32 * (4 * 131072 * 16)) by (nonlinear_arith)
        requires
            num_clusters <= 32,
            tpc_mtile_stride <= 131072,
    ;
    let tpc_size: u64 = (num_clusters as u64) * (4 * tpc_mtile_stride * mtiles) * (layers as u64);

    let meta1_blocks: u32 = if num_clusters > 1 {
        let ax: u64 = align(tiles_x as u64, 2);
        let ay: u64 = align(tiles_y as u64, 4);
        assert(ax * ay <= 512 * 512) by (nonlinear_arith)
            requires
                ax <= 512,
                ay <= 512,
        ;
        div_ceil(ax * ay, 0x1980) as u32
    } else {
        0
    };

    let by_size: u32 = div_ceil(tiles as u64, 128) as u32;
    let floor: u32 = if num_clusters > 1 {
        9
    } else {
        8
    };
    let min_tvb_blocks: u32 = if by_size >= floor {
        by_size
    } else {
        floor
    };

    // Sometimes clustering seems to use twice the cluster tilemap count
    // and twice the meta4 size.
    let cluster_factor: u32 = 2;

    assert(tiles_per_mtile_x * utiles_per_tile_x <= 256) by (nonlinear_arith)
        requires
            tiles_per_mtile_x <= 128,
            utiles_per_tile_x <= 2,
    ;
    assert(tiles_per_mtile_y * utiles_per_tile_y <= 256) by (nonlinear_arith)
        requires
            tiles_per_mtile_y <= 128,
            utiles_per_tile_y <= 2,
    ;
    Ok(
        TileInfo {
            tiles_x,
            tiles_y,
            tiles,
            utile_width,
            utile_height,
            tiles_per_mtile_x,
            tiles_per_mtile_y,
            utiles_per_mtile_x: tiles_per_mtile_x * utiles_per_tile_x,
            utiles_per_mtile_y: tiles_per_mtile_y * utiles_per_tile_y,
            tilemap_size,
            tpc_size,
            meta1_blocks,
            min_tvb_blocks,
            cluster_factor,
            params: TilingParameters {
                rgn_size: rgn_size as u32,
                unk_4: 0x88,
                ppp_ctrl: cmdbuf.ppp_ctrl,
                x_max: (width - 1) as u16,
                y_max: (height - 1) as u16,
                te_screen: ((tiles_y - 1) << 12) | (tiles_x - 1),
                te_mtile1: mtile_x3 | (mtile_x2 << 9) | (mtile_x1 << 18),
                te_mtile2: mtile_y3 | (mtile_y2 << 9) | (mtile_y1 << 18),
                tiles_per_mtile,
                tpc_stride: tpc_mtile_stride as u32,
                unk_24: 0x100,
                unk_28: if layers > 1 {
                    0xe000 | (layers - 1)
                } else {
                    0x8000
                },
            },
        },
    )
}


/// Render flag: the clear pipeline does not read textures.
pub const RENDER_NO_CLEAR_PIPELINE_TEXTURES: u64 = 0x1;

/// Render flag: set when depth or stencil is reloaded.
pub const RENDER_SET_WHEN_RELOADING_Z_OR_S: u64 = 0x2;

/// Render flag: the render uses memoryless render targets.
pub const RENDER_MEMORYLESS_RTS_USED: u64 = 0x4;

/// Render flag: process tiles that no geometry touches.
pub const RENDER_PROCESS_EMPTY_TILES: u64 = 0x8;

/// Render flag: run the vertex stage on a single cluster.
pub const RENDER_NO_VERTEX_CLUSTERING: u64 = 0x10;

/// All render flags that the driver knows.
pub const RENDER_FLAGS_KNOWN: u64 = 0x1f;

/// Result flag: the TVB grew because an earlier frame overflowed it.
pub const RESULT_RENDER_TVB_GROW_OVF: u64 = 0x1;

/// Result flag: the TVB grew to the minimum that this frame needs.
pub const RESULT_RENDER_TVB_GROW_MIN: u64 = 0x2;

/// Result flag: this frame overflowed the TVB.
pub const RESULT_RENDER_TVB_OVERFLOWED: u64 = 0x4;

/// The result record of a render command.
#[derive(Clone, Copy, Debug, PartialEq, Eq, Structural)]
pub struct ResultRender {
    pub status: Status,
    pub flags: u64,
    pub vertex_ts_start: u64,
    pub vertex_ts_end: u64,
    pub fragment_ts_start: u64,
    pub fragment_ts_end: u64,
    pub tvb_size_bytes: u64,
    pub tvb_usage_bytes: u64,
    pub num_tvb_overflows: u32,
}

/// The result of a render command while its two halves complete.
#[derive(Clone, Copy, Debug, PartialEq, Eq, Structural)]
pub struct RenderResult {
    pub result: ResultRender,
    pub vtx_complete: bool,
    pub frag_complete: bool,
    pub vtx_error: Option<WorkError>,
    pub frag_error: Option<WorkError>,
    pub writer: ResultWriter,
}

/// The error that a render result carries: the vertex error, unless there is
/// none or it only says that the work was killed and the fragment half has
/// an error of its own.
pub open spec fn spec_combined_error(vtx: Option<WorkError>, frag: Option<WorkError>) -> Option<
    WorkError,
> {
    if frag is Some && (vtx is None || vtx == Some(WorkError::Killed)) {
        frag
    } else {
        vtx
    }
}

/// The status for a combined error.
pub open spec fn spec_result_status(error: Option<WorkError>) -> Status {
    match error {
        Some(e) => e.spec_status(),
        None => Status::Complete,
    }
}

impl RenderResult {
    /// Commits the result once both halves have completed.
    ///
    /// Returns the record to write through the result writer, or `None`
    /// while a half is outstanding; then nothing changes.
    pub fn commit(&mut self) -> (r: Option<ResultRender>)
        ensures
            !(old(self).vtx_complete && old(self).frag_complete) ==> r is None && *final(self)
                == *old(self),
            old(self).vtx_complete && old(self).frag_complete ==> {
                &&& r == Some(final(self).result)
                &&& final(self).result == ResultRender {
                    status: spec_result_status(
                        spec_combined_error(old(self).vtx_error, old(self).frag_error),
                    ),
                    ..old(self).result
                }
                &&& final(self).vtx_error is None
                &&& final(self).frag_error is None
                &&& final(self).vtx_complete
                &&& final(self).frag_complete
                &&& final(self).writer == old(self).writer
            },
    {
        if !self.vtx_complete || !self.frag_complete {
            return None;
        }
        let mut error = self.vtx_error;
        self.vtx_error = None;
        let frag_error = self.frag_error;
        self.frag_error = None;
        match frag_error {
            Some(fe) => {
                let replace = match error {
                    None => true,
                    Some(WorkError::Killed) => true,
                    Some(_) => false,
                };
                if replace {
                    error = Some(fe);
                }
            },
            None => {},
        }
        match error {
            Some(err) => {
                self.result.status = err.status();
            },
            None => {
                self.result.status = Status::Complete;
            },
        }
        Some(self.result)
    }

    /// Records the completion of the vertex half and commits the result if
    /// the fragment half has completed too.
    pub fn complete_vertex(
        &mut self,
        ts_start: u64,
        ts_end: u64,
        used_bytes: u64,
        overflowed: bool,
        error: Option<WorkError>,
    ) -> (r: Option<ResultRender>)
        ensures
            r is Some <==> old(self).frag_complete,
            final(self).vtx_complete,
            final(self).frag_complete == old(self).frag_complete,
            final(self).result.vertex_ts_start == ts_start,
            final(self).result.vertex_ts_end == ts_end,
            final(self).result.tvb_usage_bytes == used_bytes,
            final(self).result.flags == (if overflowed {
                old(self).result.flags | RESULT_RENDER_TVB_OVERFLOWED
            } else {
                old(self).result.flags
            }),
            final(self).result.fragment_ts_start == old(self).result.fragment_ts_start,
            final(self).result.fragment_ts_end == old(self).result.fragment_ts_end,
            final(self).result.num_tvb_overflows == old(self).result.num_tvb_overflows,
            final(self).result.tvb_size_bytes == old(self).result.tvb_size_bytes,
            r matches Some(rec) ==> rec == final(self).result && rec.status == spec_result_status(
                spec_combined_error(error, old(self).frag_error),
            ),
            r is None ==> final(self).vtx_error == error && final(self).frag_error == old(
                self,
            ).frag_error && final(self).result.status == old(self).result.status,
    {
        self.result.vertex_ts_start = ts_start;
        self.result.vertex_ts_end = ts_end;
        self.result.tvb_usage_bytes = used_bytes;
        if overflowed {
            self.result.flags = self.result.flags | RESULT_RENDER_TVB_OVERFLOWED;
        }
        self.vtx_error = error;
        self.vtx_complete = true;
        self.commit()
    }

    /// Records the completion of the fragment half and commits the result if
    /// the vertex half has completed too.
    pub fn complete_fragment(
        &mut self,
        ts_start: u64,
        ts_end: u64,
        num_tvb_overflows: u32,
        error: Option<WorkError>,
    ) -> (r: Option<ResultRender>)
        ensures
            r is Some <==> old(self).vtx_complete,
            final(self).frag_complete,
            final(self).vtx_complete == old(self).vtx_complete,
            final(self).result.fragment_ts_start == ts_start,
            final(self).result.fragment_ts_end == ts_end,
            final(self).result.num_tvb_overflows == num_tvb_overflows,
            final(self).result.flags == old(self).result.flags,
            final(self).result.vertex_ts_start == old(self).result.vertex_ts_start,
            final(self).result.vertex_ts_end == old(self).result.vertex_ts_end,
            final(self).result.tvb_usage_bytes == old(self).result.tvb_usage_bytes,
            final(self).result.tvb_size_bytes == old(self).result.tvb_size_bytes,
            r matches Some(rec) ==> rec == final(self).result && rec.status == spec_result_status(
                spec_combined_error(old(self).vtx_error, error),
            ),
            r is None ==> final(self).frag_error == error && final(self).vtx_error == old(
                self,
            ).vtx_error && final(self).result.status == old(self).result.status,
    {
        self.result.fragment_ts_start = ts_start;
        self.result.fragment_ts_end = ts_end;
        self.result.num_tvb_overflows = num_tvb_overflows;
        self.frag_error = error;
        self.frag_complete = true;
        self.commit()
    }
}


/// GPU pointers into a vertex job object.
#[derive(Clone, Copy, Debug, PartialEq, Eq, Structural)]
pub struct VertexPointers {
    /// The job object itself.
    pub job: u64,
    pub tiling_params: u64,
    pub job_params1: u64,
    pub unk_pointee: u64,
    pub unk_buf_0: u64,
    pub cur_ts: u64,
    pub start_ts: u64,
    pub end_ts: u64,
    pub unk_ts: u64,
    /// Start cell of the vertex half in the shared timestamps object.
    pub ts_start: u64,
    /// End cell of the vertex half in the shared timestamps object.
    pub ts_end: u64,
}

/// GPU pointers into a fragment job object.
#[derive(Clone, Copy, Debug, PartialEq, Eq, Structural)]
pub struct FragmentPointers {
    /// The job object itself.
    pub job: u64,
    pub job_params1: u64,
    pub job_params2: u64,
    pub busy_flag: u64,
    pub tvb_overflow_count: u64,
    pub unk_pointee: u64,
    pub unk_758_flag: u64,
    pub unk_buf_0: u64,
    pub cur_ts: u64,
    pub start_ts: u64,
    pub end_ts: u64,
    pub unk_ts: u64,
    /// Start cell of the fragment half in the shared timestamps object.
    pub ts_start: u64,
    /// End cell of the fragment half in the shared timestamps object.
    pub ts_end: u64,
}

/// What the GPU manager, the allocators and the buffer manager contribute to
/// one render submission.
#[derive(Clone, Copy, Debug, PartialEq, Eq, Structural)]
pub struct RenderEnv {
    /// Number of clusters of the GPU.
    pub num_clusters: u32,
    /// Tiling control register value; only the first GPU generation has it.
    pub tiling_control: Option<u32>,
    /// Packed masks of the active cores; only the first GPU generation.
    pub core_masks: Option<CoreMasks>,
    /// Whether the firmware counts submissions (13.0 and later).
    pub has_counter: bool,
    /// Debug switch that keeps every vertex job on one cluster.
    pub disable_clustering: bool,
    pub debug1: bool,
    pub debug2: bool,
    /// Encoded sizes of the microsequence operations.
    pub sizes: OpSizes,
    /// The scene allocated for this render.
    pub scene: Scene,
    pub notifier: u64,
    pub notifier_buf: u64,
    pub stats_vtx: u64,
    pub stats_frag: u64,
    pub aux_fb: u64,
    pub vtx: VertexPointers,
    pub frag: FragmentPointers,
}

/// Whether the multisample count is supported.
pub open spec fn samples_valid(samples: u32) -> bool {
    samples == 1 || samples == 2 || samples == 4
}

/// The encoding of a multisample count.
pub open spec fn spec_samples_code(samples: u32) -> u32 {
    if samples == 1 {
        0
    } else if samples == 2 {
        1
    } else {
        2
    }
}

/// The micro-tile configuration word.
pub open spec fn spec_utile_config(utile_width: u32, utile_height: u32, samples: u32) -> u32 {
    ((utile_width / 16) << 12) | ((utile_height / 16) << 14) | spec_samples_code(samples)
}

/// The tile configuration word.
pub open spec fn spec_tile_config(cmd: RenderCommand, debug1: bool) -> u64 {
    (if !debug1 {
        0x280u64
    } else {
        0u64
    }) | (if cmd.layers > 1 {
        1u64
    } else {
        0u64
    }) | (if cmd.flags & RENDER_PROCESS_EMPTY_TILES != 0 {
        0x10000u64
    } else {
        0u64
    })
}

/// Whether the vertex stage of a command runs on all clusters.
pub open spec fn spec_clustering(cmd: RenderCommand, env: RenderEnv) -> bool {
    env.num_clusters > 1 && !env.disable_clustering && cmd.flags & RENDER_NO_VERTEX_CLUSTERING
        == 0
}

/// The number of clusters that the vertex stage of a command runs on.
pub open spec fn spec_clusters(cmd: RenderCommand, env: RenderEnv) -> u32 {
    if spec_clustering(cmd, env) {
        env.num_clusters
    } else {
        1
    }
}

/// The tiling control value of a vertex job.
pub open spec fn spec_tiling_control(cmd: RenderCommand, env: RenderEnv) -> Option<u32> {
    match env.tiling_control {
        Some(t) => Some(
            if spec_clustering(cmd, env) {
                t
            } else {
                t | TILECTL_DISABLE_CLUSTERING
            },
        ),
        None => None,
    }
}

/// Encoded size of the microsequence of one half of a render.
pub open spec fn spec_microseq_size(start: u32, finalize: u32, sizes: OpSizes, timed: bool) -> int {
    start + (if timed {
        2 * sizes.timestamp
    } else {
        0
    }) + sizes.wait_for_idle + finalize + sizes.retire_stamp
}

/// The branch offset from a finalize operation back to its start operation.
pub open spec fn spec_restart_offset(start: u32, sizes: OpSizes, timed: bool) -> int {
    -(start + (if timed {
        2 * sizes.timestamp
    } else {
        0
    }) + sizes.wait_for_idle)
}

/// The first reason why a render command is refused, if any.
pub open spec fn spec_render_check(
    queue: Queue,
    cmd: Command,
    cmdbuf: RenderCommand,
    attachments: Seq<u8>,
    env: RenderEnv,
    timed: bool,
) -> Option<Error> {
    if cmd.cmd_type != CMD_RENDER {
        Some(Error::EINVAL)
    } else if cmdbuf.flags & !RENDER_FLAGS_KNOWN != 0 {
        Some(Error::EINVAL)
    } else if cmdbuf.flags & RENDER_MEMORYLESS_RTS_USED != 0 {
        Some(Error::EINVAL)
    } else if !tiling_valid(cmdbuf) {
        Some(Error::EINVAL)
    } else if queue.vtx is None || queue.frag is None || queue.buffer is None {
        Some(Error::EINVAL)
    } else if !samples_valid(cmdbuf.samples) {
        Some(Error::EINVAL)
    } else if cmdbuf.attachment_count > MAX_ATTACHMENTS {
        Some(Error::EINVAL)
    } else if attachments.len() < cmdbuf.attachment_count * ATTACHMENT_STRIDE {
        Some(Error::EFAULT)
    } else if spec_microseq_size(
        env.sizes.start_fragment,
        env.sizes.finalize_fragment,
        env.sizes,
        timed,
    ) > MAX_MICROSEQ_SIZE || spec_microseq_size(
        env.sizes.start_vertex,
        env.sizes.finalize_vertex,
        env.sizes,
        timed,
    ) > MAX_MICROSEQ_SIZE {
        Some(Error::ENOMEM)
    } else {
        None
    }
}

/// The values that the firmware structures of one render are built from.
#[derive(Clone, Copy, Debug, PartialEq, Eq, Structural)]
pub struct RenderContext {
    pub cmdbuf: RenderCommand,
    pub tile_info: TileInfo,
    /// Vertex event channel before the submission.
    pub ev_vtx: EventChannel,
    /// Fragment event channel before the submission.
    pub ev_frag: EventChannel,
    pub vm_slot: u32,
    pub queue_id: u64,
    pub flush_stamps: bool,
    /// Whether a result record was asked for.
    pub timed: bool,
    pub tiling_control: Option<u32>,
    pub tile_config: u64,
    pub utile_config: u32,
    pub count_frag: Option<u64>,
    pub count_vtx: Option<u64>,
    /// Number of TVB blocks after the buffer grew.
    pub block_count: u32,
    pub env: RenderEnv,
}

/// The barrier that makes the fragment queue wait for the vertex half.
pub open spec fn spec_barrier(ctx: RenderContext) -> Barrier {
    Barrier {
        wait_stamp: ctx.ev_vtx.fw_stamp_pointer,
        wait_value: spec_next_stamp(ctx.ev_vtx.value),
        wait_slot: ctx.ev_vtx.slot,
        stamp_self: spec_next_stamp(ctx.ev_frag.value),
        uuid: ctx.cmdbuf.cmd_3d_id,
        barrier_type: 0,
    }
}

/// The command that binds the tile vertex buffer before the vertex job.
pub open spec fn spec_init_buffer(ctx: RenderContext) -> InitBuffer {
    InitBuffer {
        vm_slot: ctx.vm_slot,
        buffer_slot: ctx.env.scene.slot,
        unk_c: 0,
        block_count: ctx.block_count,
        buffer: ctx.env.scene.buffer_pointer,
        stamp_value: spec_next_stamp(ctx.ev_vtx.value),
    }
}

/// A timestamp operation of the fragment half.
pub open spec fn spec_frag_timestamp(ctx: RenderContext, start: bool) -> Timestamp {
    Timestamp {
        start,
        cur_ts: ctx.env.frag.cur_ts,
        start_ts: ctx.env.frag.start_ts,
        update_ts: if start {
            ctx.env.frag.start_ts
        } else {
            ctx.env.frag.end_ts
        },
        work_queue: ctx.ev_frag.info_ptr,
        unk_ts: if ctx.env.has_counter {
            Some(ctx.env.frag.unk_ts)
        } else {
            None
        },
        uuid: ctx.cmdbuf.cmd_3d_id,
    }
}

/// A timestamp operation of the vertex half.
pub open spec fn spec_vtx_timestamp(ctx: RenderContext, start: bool) -> Timestamp {
    Timestamp {
        start,
        cur_ts: ctx.env.vtx.cur_ts,
        start_ts: ctx.env.vtx.start_ts,
        update_ts: if start {
            ctx.env.vtx.start_ts
        } else {
            ctx.env.vtx.end_ts
        },
        work_queue: ctx.ev_vtx.info_ptr,
        unk_ts: if ctx.env.has_counter {
            Some(ctx.env.vtx.unk_ts)
        } else {
            None
        },
        uuid: ctx.cmdbuf.cmd_ta_id,
    }
}

/// The operation that completes the fragment half.
pub open spec fn spec_finalize_fragment(ctx: RenderContext) -> FinalizeFragment {
    FinalizeFragment {
        uuid: ctx.cmdbuf.cmd_3d_id,
        fw_stamp: ctx.ev_frag.fw_stamp_pointer,
        stamp_value: spec_next_stamp(ctx.ev_frag.value),
        scene: ctx.env.scene.weak_pointer,
        buffer: ctx.env.scene.weak_buffer_pointer,
        unk_2c: 1,
        stats: ctx.env.stats_frag,
        unk_pointer: ctx.env.frag.unk_pointee,
        busy_flag: ctx.env.frag.busy_flag,
        work_queue: ctx.ev_frag.info_ptr,
        work_item: ctx.env.frag.job,
        vm_slot: ctx.vm_slot,
        unk_758_flag: ctx.env.frag.unk_758_flag,
        restart_branch_offset: spec_restart_offset(
            ctx.env.sizes.start_fragment,
            ctx.env.sizes,
            ctx.timed,
        ) as i32,
        has_attachments: if ctx.cmdbuf.attachment_count > 0 {
            1
        } else {
            0
        },
    }
}

/// The operation that completes the vertex half.
pub open spec fn spec_finalize_vertex(ctx: RenderContext) -> FinalizeVertex {
    FinalizeVertex {
        scene: ctx.env.scene.weak_pointer,
        buffer: ctx.env.scene.weak_buffer_pointer,
        stats: ctx.env.stats_vtx,
        work_queue: ctx.ev_vtx.info_ptr,
        vm_slot: ctx.vm_slot,
        unk_pointer: ctx.env.vtx.unk_pointee,
        uuid: ctx.cmdbuf.cmd_ta_id,
        fw_stamp: ctx.ev_vtx.fw_stamp_pointer,
        stamp_value: spec_next_stamp(ctx.ev_vtx.value),
        restart_branch_offset: spec_restart_offset(
            ctx.env.sizes.start_vertex,
            ctx.env.sizes,
            ctx.timed,
        ) as i32,
        has_attachments: 0,
    }
}

/// Whether `op` starts the fragment half of the render described by `ctx`
/// with the attachments `users`.
pub open spec fn start_fragment_matches(
    op: StartFragment,
    ctx: RenderContext,
    users: Seq<UserAttachment>,
) -> bool {
    &&& op.job_params2 == ctx.env.frag.job_params2
    &&& op.job_params1 == ctx.env.frag.job_params1
    &&& op.scene == ctx.env.scene.gpu_pointer
    &&& op.stats == ctx.env.stats_frag
    &&& op.busy_flag == ctx.env.frag.busy_flag
    &&& op.tvb_overflow_count == ctx.env.frag.tvb_overflow_count
    &&& op.unk_pointer == ctx.env.frag.unk_pointee
    &&& op.work_queue == ctx.ev_frag.info_ptr
    &&& op.work_item == ctx.env.frag.job
    &&& op.vm_slot == ctx.vm_slot
    &&& op.unk_50 == 1
    &&& op.event_generation == (ctx.queue_id & 0xffff_ffff)
    &&& op.buffer_slot == ctx.env.scene.slot
    &&& op.event_seq == ctx.ev_frag.event_seq
    &&& op.unk_758_flag == ctx.env.frag.unk_758_flag
    &&& op.unk_job_buf == ctx.env.frag.unk_buf_0
    &&& op.uuid == ctx.cmdbuf.cmd_3d_id
    &&& op.attachments.holds(users)
    &&& op.counter == ctx.count_frag
    &&& op.notifier_buf == (if ctx.env.has_counter {
        Some(ctx.env.notifier_buf)
    } else {
        None
    })
}

/// Whether `op` starts the vertex half of the render described by `ctx`.
pub open spec fn start_vertex_matches(op: StartVertex, ctx: RenderContext) -> bool {
    &&& op.tiling_params == ctx.env.vtx.tiling_params
    &&& op.job_params1 == ctx.env.vtx.job_params1
    &&& op.buffer == ctx.env.scene.weak_buffer_pointer
    &&& op.scene == ctx.env.scene.weak_pointer
    &&& op.stats == ctx.env.stats_vtx
    &&& op.work_queue == ctx.ev_vtx.info_ptr
    &&& op.vm_slot == ctx.vm_slot
    &&& op.unk_38 == 1
    &&& op.event_generation == (ctx.queue_id & 0xffff_ffff)
    &&& op.buffer_slot == ctx.env.scene.slot
    &&& op.event_seq == ctx.ev_vtx.event_seq
    &&& op.unk_pointer == ctx.env.vtx.unk_pointee
    &&& op.unk_job_buf == ctx.env.vtx.unk_buf_0
    &&& op.unk_68 == (if ctx.env.debug1 {
        1u32
    } else {
        0u32
    })
    &&& op.uuid == ctx.cmdbuf.cmd_ta_id
    &&& op.attachments.holds(Seq::empty())
    &&& op.counter == ctx.count_vtx
    &&& op.notifier_buf == (if ctx.env.has_counter {
        Some(ctx.env.notifier_buf)
    } else {
        None
    })
}

/// Whether `seq` is the microsequence of the fragment half: start, wait for
/// idle, finalize and retire the stamp, with a timestamp on either side of
/// the wait when a result was asked for.
pub open spec fn fragment_microseq_matches(
    seq: MicroSequence,
    ctx: RenderContext,
    users: Seq<UserAttachment>,
) -> bool {
    let ops = seq.ops@;
    let k: int = if ctx.timed {
        1
    } else {
        0
    };
    &&& ops.len() == 4 + 2 * k
    &&& ops[0] is StartFragment
    &&& start_fragment_matches(ops[0]->StartFragment_0, ctx, users)
    &&& ctx.timed ==> ops[1] == MicroOp::Timestamp(spec_frag_timestamp(ctx, true))
    &&& ops[1 + k] == MicroOp::WaitForIdle(Pipe::Fragment)
    &&& ctx.timed ==> ops[3] == MicroOp::Timestamp(spec_frag_timestamp(ctx, false))
    &&& ops[2 + 2 * k] == MicroOp::FinalizeFragment(spec_finalize_fragment(ctx))
    &&& ops[3 + 2 * k] == MicroOp::RetireStamp
    &&& seq.size == spec_microseq_size(
        ctx.env.sizes.start_fragment,
        ctx.env.sizes.finalize_fragment,
        ctx.env.sizes,
        ctx.timed,
    )
}

/// Whether `seq` is the microsequence of the vertex half.
pub open spec fn vertex_microseq_matches(seq: MicroSequence, ctx: RenderContext) -> bool {
    let ops = seq.ops@;
    let k: int = if ctx.timed {
        1
    } else {
        0
    };
    &&& ops.len() == 4 + 2 * k
    &&& ops[0] is StartVertex
    &&& start_vertex_matches(ops[0]->StartVertex_0, ctx)
    &&& ctx.timed ==> ops[1] == MicroOp::Timestamp(spec_vtx_timestamp(ctx, true))
    &&& ops[1 + k] == MicroOp::WaitForIdle(Pipe::Vertex)
    &&& ctx.timed ==> ops[3] == MicroOp::Timestamp(spec_vtx_timestamp(ctx, false))
    &&& ops[2 + 2 * k] == MicroOp::FinalizeVertex(spec_finalize_vertex(ctx))
    &&& ops[3 + 2 * k] == MicroOp::RetireStamp
    &&& seq.size == spec_microseq_size(
        ctx.env.sizes.start_vertex,
        ctx.env.sizes.finalize_vertex,
        ctx.env.sizes,
        ctx.timed,
    )
}

/// The completion bookkeeping of one half of a render.
pub open spec fn spec_job_meta(ev: EventChannel, uuid: u32, flush_stamps: bool) -> JobMeta {
    JobMeta {
        unk_0: 0,
        unk_2: 0,
        no_preemption: 0,
        stamp: ev.stamp_pointer,
        fw_stamp: ev.fw_stamp_pointer,
        stamp_value: spec_next_stamp(ev.value),
        stamp_slot: ev.slot,
        evctl_index: 0,
        flush_stamps: if flush_stamps {
            1
        } else {
            0
        },
        uuid,
        event_seq: (ev.event_seq & 0xffff_ffff) as u32,
    }
}

/// Whether `job` is the fragment job of the render described by `ctx`.
pub open spec fn run_fragment_matches(
    job: RunFragment,
    ctx: RenderContext,
    users: Seq<UserAttachment>,
) -> bool {
    let t = ctx.tile_info;
    let c = ctx.cmdbuf;
    &&& job.counter == ctx.count_frag
    &&& job.vm_slot == ctx.vm_slot
    &&& fragment_microseq_matches(job.microsequence, ctx, users)
    &&& job.notifier == ctx.env.notifier
    &&& job.buffer == ctx.env.scene.buffer_pointer
    &&& job.scene == ctx.env.scene.gpu_pointer
    &&& job.unk_buffer_buf == ctx.env.scene.kernel_buffer_pointer
    &&& job.tvb_tilemap == ctx.env.scene.tvb_tilemap_pointer
    &&& job.tvb_heapmeta == ctx.env.scene.tvb_heapmeta_pointer
    &&& job.aux_fb == ctx.env.aux_fb
    &&& job.samples == c.samples
    &&& job.tiles_per_mtile_y == t.tiles_per_mtile_y
    &&& job.tiles_per_mtile_x == t.tiles_per_mtile_x
    &&& job.tile_count == t.tiles
    &&& job.utile_config == ctx.utile_config
    &&& job.aux_fb_info == AuxFBInfo {
        iogpu_unk_214: c.iogpu_unk_214,
        unk2: 0,
        width: c.fb_width,
        height: c.fb_height,
        unk3: if ctx.env.has_counter {
            Some(0x100000u64)
        } else {
            None
        },
    }
    &&& job.mtile_stride_dwords == ((4 * t.params.rgn_size) as u64) << 24
    &&& job.tile_config == ctx.tile_config
    &&& job.pipeline_base == 0x11_0000_0000
    &&& job.utiles_per_mtile_y == t.utiles_per_mtile_y
    &&& job.utiles_per_mtile_x == t.utiles_per_mtile_x
    &&& job.tile_counts == t.params.te_screen
    &&& job.isp_bgobjvals == c.isp_bgobjvals | 0x400
    &&& job.encoder_params == EncoderParams {
        unk_8: if c.flags & RENDER_SET_WHEN_RELOADING_Z_OR_S != 0 {
            1
        } else {
            0
        },
        unk_c: 0,
        unk_10: 0,
        encoder_id: c.encoder_id,
        unk_18: 0,
        iogpu_compute_unk44: 0xffff_ffff,
        seq_buffer: ctx.env.scene.seq_buf_pointer,
        unk_28: 0,
    }
    &&& job.process_empty_tiles == (if c.flags & RENDER_PROCESS_EMPTY_TILES != 0 {
        1u32
    } else {
        0u32
    })
    &&& job.no_clear_pipeline_textures == (if c.flags & RENDER_NO_CLEAR_PIPELINE_TEXTURES != 0 {
        1u32
    } else {
        0u32
    })
    &&& job.unk_param == (if ctx.env.debug2 {
        1u32
    } else {
        0u32
    })
    &&& job.meta == spec_job_meta(ctx.ev_frag, c.cmd_3d_id, ctx.flush_stamps)
    &&& job.unk_after_meta == (if ctx.env.debug1 {
        1u32
    } else {
        0u32
    })
    &&& job.unk_buf_10 == 1
    &&& job.start_ts == ctx.env.frag.ts_start
    &&& job.end_ts == ctx.env.frag.ts_end
    &&& job.client_sequence == (ctx.queue_id & 0xff)
    &&& job.cmd == c
}

/// The pointer to the first cluster metadata buffer, tagged with the number
/// of its blocks.
pub open spec fn spec_meta1(pointer: Option<u64>, meta1_blocks: u32) -> Option<u64> {
    match pointer {
        Some(p) => Some(p | ((meta1_blocks as u64) << 50)),
        None => None,
    }
}

/// The pointer to the fourth cluster metadata buffer, tagged.
pub open spec fn spec_meta4(pointer: Option<u64>) -> Option<u64> {
    match pointer {
        Some(p) => Some(p | 0x3000_0000_0000_0000),
        None => None,
    }
}

/// Whether `job` is the vertex job of the render described by `ctx`.
pub open spec fn run_vertex_matches(job: RunVertex, ctx: RenderContext) -> bool {
    let t = ctx.tile_info;
    let c = ctx.cmdbuf;
    let sc = ctx.env.scene;
    &&& job.counter == ctx.count_vtx
    &&& job.vm_slot == ctx.vm_slot
    &&& job.notifier == ctx.env.notifier
    &&& job.buffer_slot == sc.slot
    &&& job.buffer == sc.buffer_pointer
    &&& job.scene == sc.gpu_pointer
    &&& job.unk_buffer_buf == sc.kernel_buffer_pointer
    &&& job.unk_0 == (if ctx.env.debug1 {
        0u64
    } else {
        0x200u64
    })
    &&& job.tvb_tilemap == sc.tvb_tilemap_pointer
    &&& job.tvb_cluster_tilemaps == sc.cluster_tilemaps_pointer
    &&& job.tpc == sc.tpc_pointer
    &&& job.tvb_heapmeta == sc.tvb_heapmeta_pointer | 0x8000_0000_0000_0000
    &&& job.tvb_cluster_meta1 == spec_meta1(sc.meta_1_pointer, t.meta1_blocks)
    &&& job.tvb_cluster_meta2 == sc.meta_2_pointer
    &&& job.tvb_cluster_meta3 == sc.meta_3_pointer
    &&& job.tvb_cluster_meta4 == spec_meta4(sc.meta_4_pointer)
    &&& job.utile_config == ctx.utile_config
    &&& job.ppp_multisamplectl == c.ppp_multisamplectl
    &&& job.tvb_heapmeta_2 == sc.tvb_heapmeta_pointer
    &&& job.core_mask == ctx.env.core_masks
    &&& job.preempt_buf1 == sc.preempt_buf_1_pointer
    &&& job.preempt_buf2 == sc.preempt_buf_2_pointer
    &&& job.preempt_buf3 == sc.preempt_buf_3_pointer | 0x4_0000_0000_0000
    &&& job.encoder_addr == c.encoder_ptr
    &&& job.tiling_control == ctx.tiling_control
    &&& job.pipeline_base == 0x11_0000_0000
    &&& job.unk_f0 == (if ctx.env.tiling_control is Some {
        Some((0x1c + spec_align(t.meta1_blocks as int, 4)) as u64)
    } else {
        None
    })
    &&& job.tiling_params == t.params
    &&& job.tpc_size == t.tpc_size
    &&& vertex_microseq_matches(job.microsequence, ctx)
    &&& job.fragment_stamp_slot == ctx.ev_frag.slot
    &&& job.fragment_stamp_value == spec_next_stamp(ctx.ev_frag.value)
    &&& job.encoder_params == EncoderParams {
        unk_8: 0,
        unk_c: 0,
        unk_10: 0,
        encoder_id: c.encoder_id,
        unk_18: 0,
        iogpu_compute_unk44: 0xffff_ffff,
        seq_buffer: sc.seq_buf_pointer,
        unk_28: 0,
    }
    &&& job.memoryless_rts_used == 0
    &&& job.meta == spec_job_meta(ctx.ev_vtx, c.cmd_ta_id, ctx.flush_stamps)
    &&& job.unk_after_meta == (if ctx.env.debug1 {
        1u32
    } else {
        0u32
    })
    &&& job.start_ts == ctx.env.vtx.ts_start
    &&& job.end_ts == ctx.env.vtx.ts_end
    &&& job.client_sequence == (ctx.queue_id & 0xff)
}


/// Masking a 64-bit value yields a value that fits the mask.
proof fn lemma_mask_bounds(x: u64)
    ensures
        x & 0xff <= 0xff,
        x & 0xffff_ffff <= 0xffff_ffff,
{
    assert(x & 0xff <= 0xff) by (bit_vector);
    assert(x & 0xffff_ffff <= 0xffff_ffff) by (bit_vector);
}

/// The TVB block count after an automatic growth and after making room for
/// `min_blocks` blocks.
pub open spec fn spec_blocks_after(buffer: Buffer, min_blocks: u32) -> u32 {
    let grown = Buffer::spec_auto_grown(buffer.spec_block_count(), buffer.spec_grow_request());
    if grown < min_blocks {
        min_blocks
    } else {
        grown
    }
}

/// Whether the TVB grows on its own account before a submission.
pub open spec fn spec_tvb_autogrown(buffer: Buffer) -> bool {
    Buffer::spec_auto_grown(buffer.spec_block_count(), buffer.spec_grow_request())
        > buffer.spec_block_count()
}

/// Whether the TVB grows to hold the `min_blocks` blocks of a submission.
pub open spec fn spec_tvb_grown(buffer: Buffer, min_blocks: u32) -> bool {
    Buffer::spec_auto_grown(buffer.spec_block_count(), buffer.spec_grow_request()) < min_blocks
}

/// The values that the firmware structures of a valid render command are
/// built from.
pub open spec fn spec_render_context(
    queue: Queue,
    vm_slot: u32,
    cmdbuf: RenderCommand,
    env: RenderEnv,
    timed: bool,
    flush_stamps: bool,
) -> RenderContext {
    let tile_info = spec_tile_info(cmdbuf, spec_clusters(cmdbuf, env));
    RenderContext {
        cmdbuf,
        tile_info,
        ev_vtx: queue.vtx->0,
        ev_frag: queue.frag->0,
        vm_slot,
        queue_id: queue.id,
        flush_stamps,
        timed,
        tiling_control: spec_tiling_control(cmdbuf, env),
        tile_config: spec_tile_config(cmdbuf, env.debug1),
        utile_config: spec_utile_config(cmdbuf.utile_width, cmdbuf.utile_height, cmdbuf.samples),
        count_frag: if env.has_counter {
            Some(queue.counter)
        } else {
            None
        },
        count_vtx: if env.has_counter {
            Some(queue.counter.wrapping_add(1))
        } else {
            None
        },
        block_count: spec_blocks_after(queue.buffer->0, tile_info.min_tvb_blocks),
        env,
    }
}

/// The result record of a render at submission time.
pub open spec fn spec_initial_result(queue: Queue, ctx: RenderContext, writer: ResultWriter)
    -> RenderResult {
    RenderResult {
        result: ResultRender {
            status: Status::Pending,
            flags: (if spec_tvb_autogrown(queue.buffer->0) {
                RESULT_RENDER_TVB_GROW_OVF
            } else {
                0u64
            }) | (if spec_tvb_grown(queue.buffer->0, ctx.tile_info.min_tvb_blocks) {
                RESULT_RENDER_TVB_GROW_MIN
            } else {
                0u64
            }),
            vertex_ts_start: 0,
            vertex_ts_end: 0,
            fragment_ts_start: 0,
            fragment_ts_end: 0,
            tvb_size_bytes: (ctx.block_count * BLOCK_SIZE) as u64,
            tvb_usage_bytes: 0,
            num_tvb_overflows: 0,
        },
        vtx_complete: false,
        frag_complete: false,
        vtx_error: None,
        frag_error: None,
        writer,
    }
}

/// The queue after a render command was submitted: both stamps have
/// advanced by one, the counters count the two jobs, and the tile vertex
/// buffer has grown as needed and counts the frame.
pub open spec fn spec_queue_after(queue: Queue, cmdbuf: RenderCommand, env: RenderEnv) -> Queue {
    Queue {
        vtx: Some(queue.vtx->0.spec_advance()),
        frag: Some(queue.frag->0.spec_advance()),
        counter: if env.has_counter {
            queue.counter.wrapping_add(2)
        } else {
            queue.counter
        },
        notifier_threshold: queue.notifier_threshold.wrapping_add(2),
        buffer: Some(
            queue.buffer->0.spec_after_frame(
                spec_tile_info(cmdbuf, spec_clusters(cmdbuf, env)).min_tvb_blocks,
            ),
        ),
        ..queue
    }
}

/// Whether a render binds the tile vertex buffer anew: its scene is new, or
/// the buffer grows for it.
pub open spec fn spec_render_binds(queue: Queue, cmdbuf: RenderCommand, env: RenderEnv) -> bool {
    let min_blocks = spec_tile_info(cmdbuf, spec_clusters(cmdbuf, env)).min_tvb_blocks;
    env.scene.rebind || spec_tvb_grown(queue.buffer->0, min_blocks) || spec_tvb_autogrown(
        queue.buffer->0,
    )
}

/// Whether the subqueues `frag` and `vtx` hold the commands of a render at
/// the positions `nf` and `nv`: in `frag` the barrier that waits for the
/// vertex half and then the fragment job; in `vtx` the binding of the tile
/// vertex buffer, if the render binds it anew, and then the vertex job.
/// `queue` is the queue before the render.
pub open spec fn render_commands_at(
    queue: Queue,
    vm_slot: u32,
    frag: Seq<WorkCommand>,
    vtx: Seq<WorkCommand>,
    nf: int,
    nv: int,
    cmdbuf: RenderCommand,
    attachments: Seq<u8>,
    env: RenderEnv,
    timed: bool,
    flush_stamps: bool,
) -> bool {
    let ctx = spec_render_context(queue, vm_slot, cmdbuf, env, timed, flush_stamps);
    let users = spec_parse_attachments(attachments, cmdbuf.attachment_count as nat);
    let bind = spec_render_binds(queue, cmdbuf, env);
    let b: int = if bind {
        1
    } else {
        0
    };
    &&& 0 <= nf && nf + 2 <= frag.len()
    &&& 0 <= nv && nv + b + 1 <= vtx.len()
    &&& frag[nf] == WorkCommand::Barrier(spec_barrier(ctx))
    &&& frag[nf + 1] is RunFragment
    &&& run_fragment_matches(frag[nf + 1]->RunFragment_0, ctx, users)
    &&& bind ==> vtx[nv] == WorkCommand::InitBuffer(spec_init_buffer(ctx))
    &&& vtx[nv + b] is RunVertex
    &&& run_vertex_matches(vtx[nv + b]->RunVertex_0, ctx)
}

/// The commands of a render stay where they are when the subqueues grow.
pub proof fn lemma_render_commands_stay(
    queue: Queue,
    vm_slot: u32,
    frag: Seq<WorkCommand>,
    vtx: Seq<WorkCommand>,
    more_frag: Seq<WorkCommand>,
    more_vtx: Seq<WorkCommand>,
    nf: int,
    nv: int,
    cmdbuf: RenderCommand,
    attachments: Seq<u8>,
    env: RenderEnv,
    timed: bool,
    flush_stamps: bool,
)
    requires
        render_commands_at(
            queue,
            vm_slot,
            frag,
            vtx,
            nf,
            nv,
            cmdbuf,
            attachments,
            env,
            timed,
            flush_stamps,
        ),
        frag.len() <= more_frag.len(),
        more_frag.subrange(0, frag.len() as int) == frag,
        vtx.len() <= more_vtx.len(),
        more_vtx.subrange(0, vtx.len() as int) == vtx,
    ensures
        render_commands_at(
            queue,
            vm_slot,
            more_frag,
            more_vtx,
            nf,
            nv,
            cmdbuf,
            attachments,
            env,
            timed,
            flush_stamps,
        ),
{
    let b: int = if spec_render_binds(queue, cmdbuf, env) {
        1
    } else {
        0
    };
    assert(more_frag.subrange(0, frag.len() as int)[nf] == more_frag[nf]);
    assert(more_frag.subrange(0, frag.len() as int)[nf + 1] == more_frag[nf + 1]);
    assert(more_vtx.subrange(0, vtx.len() as int)[nv] == more_vtx[nv]);
    assert(more_vtx.subrange(0, vtx.len() as int)[nv + b] == more_vtx[nv + b]);
}

/// A render that is submitted puts its commands behind those that the job
/// holds.
pub proof fn lemma_render_submitted_commands(
    before: Queue,
    after: Queue,
    job_before: QueueJob,
    job_after: QueueJob,
    cmdbuf: RenderCommand,
    attachments: Seq<u8>,
    env: RenderEnv,
    result_writer: Option<ResultWriter>,
    flush_stamps: bool,
    result: Option<RenderResult>,
)
    requires
        render_submitted(
            before,
            after,
            job_before,
            job_after,
            cmdbuf,
            attachments,
            env,
            result_writer,
            flush_stamps,
            result,
        ),
    ensures
        render_commands_at(
            before,
            job_before.vm_slot,
            job_after.frag@,
            job_after.vtx@,
            job_before.frag@.len() as int,
            job_before.vtx@.len() as int,
            cmdbuf,
            attachments,
            env,
            result_writer is Some,
            flush_stamps,
        ),
        job_after.frag@.len() == job_before.frag@.len() + 2,
        job_after.vtx@.len() == job_before.vtx@.len() + 1 + (if spec_render_binds(
            before,
            cmdbuf,
            env,
        ) {
            1int
        } else {
            0int
        }),
        job_after.frag@.subrange(0, job_before.frag@.len() as int) == job_before.frag@,
        job_after.vtx@.subrange(0, job_before.vtx@.len() as int) == job_before.vtx@,
        result == (match result_writer {
            Some(w) => Some(
                spec_initial_result(
                    before,
                    spec_render_context(
                        before,
                        job_before.vm_slot,
                        cmdbuf,
                        env,
                        true,
                        flush_stamps,
                    ),
                    w,
                ),
            ),
            None => None,
        }),
{
}

/// What a successful render submission does to the queue and to the job.
pub open spec fn render_submitted(
    before: Queue,
    after: Queue,
    job_before: QueueJob,
    job_after: QueueJob,
    cmdbuf: RenderCommand,
    attachments: Seq<u8>,
    env: RenderEnv,
    result_writer: Option<ResultWriter>,
    flush_stamps: bool,
    result: Option<RenderResult>,
) -> bool {
    let timed = result_writer is Some;
    let ctx = spec_render_context(before, job_before.vm_slot, cmdbuf, env, timed, flush_stamps);
    let users = spec_parse_attachments(attachments, cmdbuf.attachment_count as nat);
    let buffer = before.buffer->0;
    let bind = env.scene.rebind || spec_tvb_grown(buffer, ctx.tile_info.min_tvb_blocks)
        || spec_tvb_autogrown(buffer);
    let nf = job_before.frag@.len() as int;
    let nv = job_before.vtx@.len() as int;
    let b: int = if bind {
        1
    } else {
        0
    };
    // The queue: both stamps advance by one, the TVB has grown, counters count.
    &&& after.vtx == Some(before.vtx->0.spec_advance())
    &&& after.frag == Some(before.frag->0.spec_advance())
    &&& after.comp == before.comp
    &&& after.id == before.id
    &&& after.vm_id == before.vm_id
    &&& after.priority == before.priority
    &&& after.caps == before.caps
    &&& after.counter == (if env.has_counter {
        before.counter.wrapping_add(2)
    } else {
        before.counter
    })
    &&& after.notifier_threshold == before.notifier_threshold.wrapping_add(2)
    &&& after.buffer is Some
    &&& after.buffer->0.wf()
    &&& after.buffer->0.spec_block_count() == ctx.block_count
    &&& after.buffer->0.spec_grow_request() is None
    &&& after.buffer->0.spec_frames() == (if buffer.spec_frames() == u64::MAX {
        0
    } else {
        (buffer.spec_frames() + 1) as u64
    })
    // The fragment subqueue gets the barrier, then the fragment job.
    &&& job_after.vm_slot == job_before.vm_slot
    &&& job_after.fence_commands == job_before.fence_commands.wrapping_add(2)
    &&& job_after.frag@.len() == nf + 2
    &&& job_after.frag@.subrange(0, nf) == job_before.frag@
    &&& job_after.frag@[nf] == WorkCommand::Barrier(spec_barrier(ctx))
    &&& job_after.frag@[nf + 1] is RunFragment
    &&& run_fragment_matches(job_after.frag@[nf + 1]->RunFragment_0, ctx, users)
    // The vertex subqueue gets the buffer binding if needed, then the vertex job.
    &&& job_after.vtx@.len() == nv + b + 1
    &&& job_after.vtx@.subrange(0, nv) == job_before.vtx@
    &&& bind ==> job_after.vtx@[nv] == WorkCommand::InitBuffer(spec_init_buffer(ctx))
    &&& job_after.vtx@[nv + b] is RunVertex
    &&& run_vertex_matches(job_after.vtx@[nv + b]->RunVertex_0, ctx)
    // The result record, if one was asked for.
    &&& result == (match result_writer {
        Some(w) => Some(spec_initial_result(before, ctx, w)),
        None => None,
    })
}

/// Builds the microsequence of the fragment half.
fn build_fragment_microseq(
    ctx: &RenderContext,
    attachments: Attachments,
    Ghost(users): Ghost<Seq<UserAttachment>>,
) -> (r: MicroSequence)
    requires
        attachments.holds(users),
        spec_microseq_size(
            ctx.env.sizes.start_fragment,
            ctx.env.sizes.finalize_fragment,
            ctx.env.sizes,
            ctx.timed,
        ) <= MAX_MICROSEQ_SIZE,
    ensures
        fragment_microseq_matches(r, *ctx, users),
{
    proof {
        lemma_mask_bounds(ctx.queue_id);
    }
    let sizes = ctx.env.sizes;
    let mut builder = Builder::new(sizes);
    let frag = ctx.env.frag;
    let scene = ctx.env.scene;
    let notifier_buf = if ctx.env.has_counter {
        Some(ctx.env.notifier_buf)
    } else {
        None
    };
    let unk_ts = if ctx.env.has_counter {
        Some(frag.unk_ts)
    } else {
        None
    };
    let start = MicroOp::StartFragment(
        StartFragment {
            job_params2: frag.job_params2,
            job_params1: frag.job_params1,
            scene: scene.gpu_pointer,
            stats: ctx.env.stats_frag,
            busy_flag: frag.busy_flag,
            tvb_overflow_count: frag.tvb_overflow_count,
            unk_pointer: frag.unk_pointee,
            work_queue: ctx.ev_frag.info_ptr,
            work_item: frag.job,
            vm_slot: ctx.vm_slot,
            unk_50: 1,
            event_generation: (ctx.queue_id & 0xffff_ffff) as u32,
            buffer_slot: scene.slot,
            event_seq: ctx.ev_frag.event_seq,
            unk_758_flag: frag.unk_758_flag,
            unk_job_buf: frag.unk_buf_0,
            uuid: ctx.cmdbuf.cmd_3d_id,
            attachments,
            counter: ctx.count_frag,
            notifier_buf,
        },
    );
    let start_frag: i32 = match builder.add(start) {
        Ok(off) => off,
        Err(_) => 0,
    };
    if ctx.timed {
        let _ = builder.add(
            MicroOp::Timestamp(
                Timestamp {
                    start: true,
                    cur_ts: frag.cur_ts,
                    start_ts: frag.start_ts,
                    update_ts: frag.start_ts,
                    work_queue: ctx.ev_frag.info_ptr,
                    unk_ts,
                    uuid: ctx.cmdbuf.cmd_3d_id,
                },
            ),
        );
    }
    let _ = builder.add(MicroOp::WaitForIdle(Pipe::Fragment));
    if ctx.timed {
        let _ = builder.add(
            MicroOp::Timestamp(
                Timestamp {
                    start: false,
                    cur_ts: frag.cur_ts,
                    start_ts: frag.start_ts,
                    update_ts: frag.end_ts,
                    work_queue: ctx.ev_frag.info_ptr,
                    unk_ts,
                    uuid: ctx.cmdbuf.cmd_3d_id,
                },
            ),
        );
    }
    let off: i32 = builder.offset_to(start_frag);
    let _ = builder.add(
        MicroOp::FinalizeFragment(
            FinalizeFragment {
                uuid: ctx.cmdbuf.cmd_3d_id,
                fw_stamp: ctx.ev_frag.fw_stamp_pointer,
                stamp_value: crate::workqueue::next_stamp(ctx.ev_frag.value),
                scene: scene.weak_pointer,
                buffer: scene.weak_buffer_pointer,
                unk_2c: 1,
                stats: ctx.env.stats_frag,
                unk_pointer: frag.unk_pointee,
                busy_flag: frag.busy_flag,
                work_queue: ctx.ev_frag.info_ptr,
                work_item: frag.job,
                vm_slot: ctx.vm_slot,
                unk_758_flag: frag.unk_758_flag,
                restart_branch_offset: off,
                has_attachments: if ctx.cmdbuf.attachment_count > 0 {
                    1
                } else {
                    0
                },
            },
        ),
    );
    let _ = builder.add(MicroOp::RetireStamp);
    builder.build()
}

/// Builds the microsequence of the vertex half.
fn build_vertex_microseq(ctx: &RenderContext) -> (r: MicroSequence)
    requires
        spec_microseq_size(
            ctx.env.sizes.start_vertex,
            ctx.env.sizes.finalize_vertex,
            ctx.env.sizes,
            ctx.timed,
        ) <= MAX_MICROSEQ_SIZE,
    ensures
        vertex_microseq_matches(r, *ctx),
{
    proof {
        lemma_mask_bounds(ctx.queue_id);
    }
    let sizes = ctx.env.sizes;
    let mut builder = Builder::new(sizes);
    let vtx = ctx.env.vtx;
    let scene = ctx.env.scene;
    let notifier_buf = if ctx.env.has_counter {
        Some(ctx.env.notifier_buf)
    } else {
        None
    };
    let unk_ts = if ctx.env.has_counter {
        Some(vtx.unk_ts)
    } else {
        None
    };
    let start = MicroOp::StartVertex(
        StartVertex {
            tiling_params: vtx.tiling_params,
            job_params1: vtx.job_params1,
            buffer: scene.weak_buffer_pointer,
            scene: scene.weak_pointer,
            stats: ctx.env.stats_vtx,
            work_queue: ctx.ev_vtx.info_ptr,
            vm_slot: ctx.vm_slot,
            unk_38: 1,
            event_generation: (ctx.queue_id & 0xffff_ffff) as u32,
            buffer_slot: scene.slot,
            event_seq: ctx.ev_vtx.event_seq,
            unk_pointer: vtx.unk_pointee,
            unk_job_buf: vtx.unk_buf_0,
            unk_68: if ctx.env.debug1 {
                1
            } else {
                0
            },
            uuid: ctx.cmdbuf.cmd_ta_id,
            attachments: Attachments::empty(),
            counter: ctx.count_vtx,
            notifier_buf,
        },
    );
    let start_vtx: i32 = match builder.add(start) {
        Ok(off) => off,
        Err(_) => 0,
    };
    if ctx.timed {
        let _ = builder.add(
            MicroOp::Timestamp(
                Timestamp {
                    start: true,
                    cur_ts: vtx.cur_ts,
                    start_ts: vtx.start_ts,
                    update_ts: vtx.start_ts,
                    work_queue: ctx.ev_vtx.info_ptr,
                    unk_ts,
                    uuid: ctx.cmdbuf.cmd_ta_id,
                },
            ),
        );
    }
    let _ = builder.add(MicroOp::WaitForIdle(Pipe::Vertex));
    if ctx.timed {
        let _ = builder.add(
            MicroOp::Timestamp(
                Timestamp {
                    start: false,
                    cur_ts: vtx.cur_ts,
                    start_ts: vtx.start_ts,
                    update_ts: vtx.end_ts,
                    work_queue: ctx.ev_vtx.info_ptr,
                    unk_ts,
                    uuid: ctx.cmdbuf.cmd_ta_id,
                },
            ),
        );
    }
    let off: i32 = builder.offset_to(start_vtx);
    let _ = builder.add(
        MicroOp::FinalizeVertex(
            FinalizeVertex {
                scene: scene.weak_pointer,
                buffer: scene.weak_buffer_pointer,
                stats: ctx.env.stats_vtx,
                work_queue: ctx.ev_vtx.info_ptr,
                vm_slot: ctx.vm_slot,
                unk_pointer: vtx.unk_pointee,
                uuid: ctx.cmdbuf.cmd_ta_id,
                fw_stamp: ctx.ev_vtx.fw_stamp_pointer,
                stamp_value: crate::workqueue::next_stamp(ctx.ev_vtx.value),
                restart_branch_offset: off,
                has_attachments: 0,
            },
        ),
    );
    let _ = builder.add(MicroOp::RetireStamp);
    builder.build()
}


/// Builds the completion bookkeeping of one half of a render.
fn build_job_meta(ev: &EventChannel, uuid: u32, flush_stamps: bool) -> (r: JobMeta)
    ensures
        r == spec_job_meta(*ev, uuid, flush_stamps),
{
    proof {
        lemma_mask_bounds(ev.event_seq);
    }
    JobMeta {
        unk_0: 0,
        unk_2: 0,
        no_preemption: 0,
        stamp: ev.stamp_pointer,
        fw_stamp: ev.fw_stamp_pointer,
        stamp_value: crate::workqueue::next_stamp(ev.value),
        stamp_slot: ev.slot,
        evctl_index: 0,
        flush_stamps: if flush_stamps {
            1
        } else {
            0
        },
        uuid,
        event_seq: (ev.event_seq & 0xffff_ffff) as u32,
    }
}

/// Builds the fragment job.
fn build_run_fragment(
    ctx: &RenderContext,
    microsequence: MicroSequence,
    Ghost(users): Ghost<Seq<UserAttachment>>,
) -> (r: RunFragment)
    requires
        fragment_microseq_matches(microsequence, *ctx, users),
        tile_info_in_range(ctx.tile_info),
    ensures
        run_fragment_matches(r, *ctx, users),
{
    proof {
        lemma_mask_bounds(ctx.queue_id);
    }
    let t = ctx.tile_info;
    let c = ctx.cmdbuf;
    let scene = ctx.env.scene;
    RunFragment {
        counter: ctx.count_frag,
        vm_slot: ctx.vm_slot,
        microsequence,
        notifier: ctx.env.notifier,
        buffer: scene.buffer_pointer,
        scene: scene.gpu_pointer,
        unk_buffer_buf: scene.kernel_buffer_pointer,
        tvb_tilemap: scene.tvb_tilemap_pointer,
        tvb_heapmeta: scene.tvb_heapmeta_pointer,
        aux_fb: ctx.env.aux_fb,
        samples: c.samples,
        tiles_per_mtile_y: t.tiles_per_mtile_y as u16,
        tiles_per_mtile_x: t.tiles_per_mtile_x as u16,
        tile_count: t.tiles as u64,
        utile_config: ctx.utile_config,
        aux_fb_info: AuxFBInfo {
            iogpu_unk_214: c.iogpu_unk_214,
            unk2: 0,
            width: c.fb_width,
            height: c.fb_height,
            unk3: if ctx.env.has_counter {
                Some(0x100000)
            } else {
                None
            },
        },
        mtile_stride_dwords: ((4 * t.params.rgn_size) as u64) << 24,
        tile_config: ctx.tile_config,
        pipeline_base: 0x11_0000_0000,
        utiles_per_mtile_y: t.utiles_per_mtile_y as u16,
        utiles_per_mtile_x: t.utiles_per_mtile_x as u16,
        tile_counts: t.params.te_screen,
        isp_bgobjvals: c.isp_bgobjvals | 0x400,
        encoder_params: EncoderParams {
            unk_8: if c.flags & RENDER_SET_WHEN_RELOADING_Z_OR_S != 0 {
                1
            } else {
                0
            },
            unk_c: 0,
            unk_10: 0,
            encoder_id: c.encoder_id,
            unk_18: 0,
            iogpu_compute_unk44: 0xffff_ffff,
            seq_buffer: scene.seq_buf_pointer,
            unk_28: 0,
        },
        process_empty_tiles: if c.flags & RENDER_PROCESS_EMPTY_TILES != 0 {
            1
        } else {
            0
        },
        no_clear_pipeline_textures: if c.flags & RENDER_NO_CLEAR_PIPELINE_TEXTURES != 0 {
            1
        } else {
            0
        },
        unk_param: if ctx.env.debug2 {
            1
        } else {
            0
        },
        meta: build_job_meta(&ctx.ev_frag, c.cmd_3d_id, ctx.flush_stamps),
        unk_after_meta: if ctx.env.debug1 {
            1
        } else {
            0
        },
        unk_buf_10: 1,
        start_ts: ctx.env.frag.ts_start,
        end_ts: ctx.env.frag.ts_end,
        client_sequence: (ctx.queue_id & 0xff) as u8,
        cmd: c,
    }
}

/// Builds the vertex job.
fn build_run_vertex(ctx: &RenderContext, microsequence: MicroSequence) -> (r: RunVertex)
    requires
        vertex_microseq_matches(microsequence, *ctx),
        tile_info_in_range(ctx.tile_info),
    ensures
        run_vertex_matches(r, *ctx),
{
    proof {
        lemma_mask_bounds(ctx.queue_id);
        crate::util::lemma_pow2_constants();
    }
    let t = ctx.tile_info;
    let c = ctx.cmdbuf;
    let scene = ctx.env.scene;
    let meta1 = match scene.meta_1_pointer {
        Some(p) => Some(p | ((t.meta1_blocks as u64) << 50)),
        None => None,
    };
    let meta4 = match scene.meta_4_pointer {
        Some(p) => Some(p | 0x3000_0000_0000_0000),
        None => None,
    };
    let unk_f0 = if ctx.env.tiling_control.is_some() {
        Some(0x1c + align(t.meta1_blocks as u64, 4))
    } else {
        None
    };
    RunVertex {
        counter: ctx.count_vtx,
        vm_slot: ctx.vm_slot,
        notifier: ctx.env.notifier,
        buffer_slot: scene.slot,
        buffer: scene.buffer_pointer,
        scene: scene.gpu_pointer,
        unk_buffer_buf: scene.kernel_buffer_pointer,
        unk_0: if ctx.env.debug1 {
            0
        } else {
            0x200
        },
        tvb_tilemap: scene.tvb_tilemap_pointer,
        tvb_cluster_tilemaps: scene.cluster_tilemaps_pointer,
        tpc: scene.tpc_pointer,
        tvb_heapmeta: scene.tvb_heapmeta_pointer | 0x8000_0000_0000_0000,
        tvb_cluster_meta1: meta1,
        tvb_cluster_meta2: scene.meta_2_pointer,
        tvb_cluster_meta3: scene.meta_3_pointer,
        tvb_cluster_meta4: meta4,
        utile_config: ctx.utile_config,
        ppp_multisamplectl: c.ppp_multisamplectl,
        tvb_heapmeta_2: scene.tvb_heapmeta_pointer,
        core_mask: ctx.env.core_masks,
        preempt_buf1: scene.preempt_buf_1_pointer,
        preempt_buf2: scene.preempt_buf_2_pointer,
        preempt_buf3: scene.preempt_buf_3_pointer | 0x4_0000_0000_0000,
        encoder_addr: c.encoder_ptr,
        tiling_control: ctx.tiling_control,
        pipeline_base: 0x11_0000_0000,
        unk_f0,
        tiling_params: t.params,
        tpc_size: t.tpc_size,
        microsequence,
        fragment_stamp_slot: ctx.ev_frag.slot,
        fragment_stamp_value: crate::workqueue::next_stamp(ctx.ev_frag.value),
        encoder_params: EncoderParams {
            unk_8: 0,
            unk_c: 0,
            unk_10: 0,
            encoder_id: c.encoder_id,
            unk_18: 0,
            iogpu_compute_unk44: 0xffff_ffff,
            seq_buffer: scene.seq_buf_pointer,
            unk_28: 0,
        },
        memoryless_rts_used: 0,
        meta: build_job_meta(&ctx.ev_vtx, c.cmd_ta_id, ctx.flush_stamps),
        unk_after_meta: if ctx.env.debug1 {
            1
        } else {
            0
        },
        start_ts: ctx.env.vtx.ts_start,
        end_ts: ctx.env.vtx.ts_end,
        client_sequence: (ctx.queue_id & 0xff) as u8,
    }
}

/// What the checks on a render command establish.
struct CheckedRender {
    tile_info: TileInfo,
    attachments: Attachments,
    ev_vtx: EventChannel,
    ev_frag: EventChannel,
    buffer: Buffer,
    tiling_control: Option<u32>,
    utile_config: u32,
    tile_config: u64,
}

/// Checks a render command against the queue it is submitted to.
fn check_render(
    queue: &Queue,
    cmd: &Command,
    cmdbuf: &RenderCommand,
    attachments: &[u8],
    env: &RenderEnv,
    timed: bool,
) -> (r: Result<CheckedRender>)
    requires
        env.num_clusters <= MAX_CLUSTERS,
    ensures
        r is Err <==> spec_render_check(*queue, *cmd, *cmdbuf, attachments@, *env, timed) is Some,
        r matches Err(e) ==> Some(e) == spec_render_check(
            *queue,
            *cmd,
            *cmdbuf,
            attachments@,
            *env,
            timed,
        ),
        r matches Ok(c) ==> {
            &&& c.tile_info == spec_tile_info(*cmdbuf, spec_clusters(*cmdbuf, *env))
            &&& tile_info_in_range(c.tile_info)
            &&& c.attachments.holds(
                spec_parse_attachments(attachments@, cmdbuf.attachment_count as nat),
            )
            &&& queue.vtx == Some(c.ev_vtx)
            &&& queue.frag == Some(c.ev_frag)
            &&& queue.buffer == Some(c.buffer)
            &&& c.tiling_control == spec_tiling_control(*cmdbuf, *env)
            &&& c.utile_config == spec_utile_config(
                cmdbuf.utile_width,
                cmdbuf.utile_height,
                cmdbuf.samples,
            )
            &&& c.tile_config == spec_tile_config(*cmdbuf, env.debug1)
        },
{
    if cmd.cmd_type != CMD_RENDER {
        return Err(Error::EINVAL);
    }
    if cmdbuf.flags & !RENDER_FLAGS_KNOWN != 0 {
        return Err(Error::EINVAL);
    }
    if cmdbuf.flags & RENDER_MEMORYLESS_RTS_USED != 0 {
        // Not supported yet
        return Err(Error::EINVAL);
    }
    let nclusters: u32 = env.num_clusters;

    // Clustering can be switched off for simpler jobs.
    let clustering: bool = nclusters > 1 && !env.disable_clustering && cmdbuf.flags
        & RENDER_NO_VERTEX_CLUSTERING == 0;

    let tiling_control: Option<u32> = match env.tiling_control {
        Some(t) => Some(
            if clustering {
                t
            } else {
                t | TILECTL_DISABLE_CLUSTERING
            },
        ),
        None => None,
    };

    let tile_info = match get_tiling_params(
        cmdbuf,
        if clustering {
            nclusters
        } else {
            1
        },
    ) {
        Ok(t) => t,
        Err(e) => {
            return Err(e);
        },
    };

    let (ev_vtx, ev_frag, buffer) = match (queue.vtx, queue.frag, queue.buffer) {
        (Some(v), Some(f), Some(b)) => (v, f, b),
        _ => {
            return Err(Error::EINVAL);
        },
    };

    let samples_code: u32 = if cmdbuf.samples == 1 {
        0
    } else if cmdbuf.samples == 2 {
        1
    } else if cmdbuf.samples == 4 {
        2
    } else {
        return Err(Error::EINVAL);
    };
    let utile_config: u32 = ((tile_info.utile_width / 16) << 12) | ((tile_info.utile_height / 16)
        << 14) | samples_code;

    let tile_config: u64 = (if !env.debug1 {
        0x280u64
    } else {
        0u64
    }) | (if cmdbuf.layers > 1 {
        1u64
    } else {
        0u64
    }) | (if cmdbuf.flags & RENDER_PROCESS_EMPTY_TILES != 0 {
        0x10000u64
    } else {
        0u64
    });

    let fw_attachments = match build_attachments(attachments, cmdbuf.attachment_count) {
        Ok(a) => a,
        Err(e) => {
            return Err(e);
        },
    };

    let sizes = env.sizes;
    let ts_size: u64 = if timed {
        2 * (sizes.timestamp as u64)
    } else {
        0
    };
    let frag_size: u64 = sizes.start_fragment as u64 + ts_size + sizes.wait_for_idle as u64
        + sizes.finalize_fragment as u64 + sizes.retire_stamp as u64;
    let vtx_size: u64 = sizes.start_vertex as u64 + ts_size + sizes.wait_for_idle as u64
        + sizes.finalize_vertex as u64 + sizes.retire_stamp as u64;
    if frag_size > MAX_MICROSEQ_SIZE as u64 || vtx_size > MAX_MICROSEQ_SIZE as u64 {
        return Err(Error::ENOMEM);
    }
    Ok(
        CheckedRender {
            tile_info,
            attachments: fw_attachments,
            ev_vtx,
            ev_frag,
            buffer,
            tiling_control,
            utile_config,
            tile_config,
        },
    )
}

impl Queue {
    /// Submits one render command to a render queue.
    ///
    /// Derives the tiling of the framebuffer, grows the tile vertex buffer
    /// as needed, and appends to `job` the barrier and the fragment job for
    /// the fragment subqueue and the vertex job, preceded by a buffer binding
    /// where the buffer is new or has grown, for the vertex subqueue. Both
    /// event channels of the queue reserve their next stamp value.
    ///
    /// `attachments` is the userspace memory that holds the attachment array
    /// of the command. With a `result_writer`, both halves record timestamps
    /// and the returned result collects their completion.
    ///
    /// A command that is refused leaves the queue and the job as they were.
    pub fn submit_render(
        &mut self,
        job: &mut QueueJob,
        cmd: &Command,
        cmdbuf: &RenderCommand,
        attachments: &[u8],
        env: &RenderEnv,
        result_writer: Option<ResultWriter>,
        flush_stamps: bool,
    ) -> (r: Result<Option<RenderResult>>)
        requires
            old(self).wf(),
            env.num_clusters <= MAX_CLUSTERS,
        ensures
            final(self).wf(),
            r is Err <==> spec_render_check(
                *old(self),
                *cmd,
                *cmdbuf,
                attachments@,
                *env,
                result_writer is Some,
            ) is Some,
            r matches Err(e) ==> {
                &&& Some(e) == spec_render_check(
                    *old(self),
                    *cmd,
                    *cmdbuf,
                    attachments@,
                    *env,
                    result_writer is Some,
                )
                &&& *final(self) == *old(self)
                &&& *final(job) == *old(job)
            },
            r matches Ok(res) ==> render_submitted(
                *old(self),
                *final(self),
                *old(job),
                *final(job),
                *cmdbuf,
                attachments@,
                *env,
                result_writer,
                flush_stamps,
                res,
            ),
            r is Ok ==> *final(self) == spec_queue_after(*old(self), *cmdbuf, *env),
    {
        let timed: bool = result_writer.is_some();
        let checked = match check_render(self, cmd, cmdbuf, attachments, env, timed) {
            Ok(c) => c,
            Err(e) => {
                return Err(e);
            },
        };
        let ghost users = spec_parse_attachments(attachments@, cmdbuf.attachment_count as nat);
        let tile_info = checked.tile_info;
        let fw_attachments = checked.attachments;
        let ev_vtx = checked.ev_vtx;
        let ev_frag = checked.ev_frag;
        let buffer_before = checked.buffer;
        let tiling_control = checked.tiling_control;
        let utile_config = checked.utile_config;
        let tile_config = checked.tile_config;
        // Everything has been checked: from here on the submission goes through.

        let mut buffer = buffer_before;
        let tvb_autogrown: bool = buffer.auto_grow();
        let tvb_grown: bool = match buffer.ensure_blocks(tile_info.min_tvb_blocks) {
            Ok(grew) => grew,
            Err(_) => false,
        };

        let ctx = RenderContext {
            cmdbuf: *cmdbuf,
            tile_info,
            ev_vtx,
            ev_frag,
            vm_slot: job.vm_slot,
            queue_id: self.id,
            flush_stamps,
            timed,
            tiling_control,
            tile_config,
            utile_config,
            count_frag: if env.has_counter {
                Some(self.counter)
            } else {
                None
            },
            count_vtx: if env.has_counter {
                Some(self.counter.wrapping_add(1))
            } else {
                None
            },
            block_count: buffer.block_count(),
            env: *env,
        };
        assert(ctx == spec_render_context(
            *old(self),
            old(job).vm_slot,
            *cmdbuf,
            *env,
            timed,
            flush_stamps,
        ));

        let barrier = Barrier {
            wait_stamp: ev_vtx.fw_stamp_pointer,
            wait_value: crate::workqueue::next_stamp(ev_vtx.value),
            wait_slot: ev_vtx.slot,
            stamp_self: crate::workqueue::next_stamp(ev_frag.value),
            uuid: cmdbuf.cmd_3d_id,
            barrier_type: 0,
        };

        let result: Option<RenderResult> = match result_writer {
            Some(writer) => Some(
                RenderResult {
                    result: ResultRender {
                        status: Status::Pending,
                        flags: (if tvb_autogrown {
                            RESULT_RENDER_TVB_GROW_OVF
                        } else {
                            0u64
                        }) | (if tvb_grown {
                            RESULT_RENDER_TVB_GROW_MIN
                        } else {
                            0u64
                        }),
                        vertex_ts_start: 0,
                        vertex_ts_end: 0,
                        fragment_ts_start: 0,
                        fragment_ts_end: 0,
                        tvb_size_bytes: buffer.size(),
                        tvb_usage_bytes: 0,
                        num_tvb_overflows: 0,
                    },
                    vtx_complete: false,
                    frag_complete: false,
                    vtx_error: None,
                    frag_error: None,
                    writer,
                },
            ),
            None => None,
        };

        let frag_seq = build_fragment_microseq(&ctx, fw_attachments, Ghost(users));
        let frag = build_run_fragment(&ctx, frag_seq, Ghost(users));

        job.frag.push(WorkCommand::Barrier(barrier));
        job.frag.push(WorkCommand::RunFragment(frag));

        if env.scene.rebind || tvb_grown || tvb_autogrown {
            let bind_buffer = InitBuffer {
                vm_slot: job.vm_slot,
                buffer_slot: env.scene.slot,
                unk_c: 0,
                block_count: buffer.block_count(),
                buffer: env.scene.buffer_pointer,
                stamp_value: crate::workqueue::next_stamp(ev_vtx.value),
            };
            job.vtx.push(WorkCommand::InitBuffer(bind_buffer));
        }
        let vtx_seq = build_vertex_microseq(&ctx);
        let vtx = build_run_vertex(&ctx, vtx_seq);
        job.vtx.push(WorkCommand::RunVertex(vtx));
        job.fence_commands = job.fence_commands.wrapping_add(2);

        self.notifier_threshold = self.notifier_threshold.wrapping_add(2);
        buffer.increment();
        self.buffer = Some(buffer);
        if env.has_counter {
            self.counter = self.counter.wrapping_add(2);
        }
        let mut v = ev_vtx;
        v.advance();
        self.vtx = Some(v);
        let mut f = ev_frag;
        f.advance();
        self.frag = Some(f);

        proof {
            let nf = old(job).frag@.len() as int;
            let nv = old(job).vtx@.len() as int;
            assert(job.frag@.subrange(0, nf) =~= old(job).frag@);
            assert(job.vtx@.subrange(0, nv) =~= old(job).vtx@);
            buffer_before.lemma_after_frame(tile_info.min_tvb_blocks);
            buffer.lemma_same(buffer_before.spec_after_frame(tile_info.min_tvb_blocks));
        }
        Ok(result)
    }
}

} // verus!
