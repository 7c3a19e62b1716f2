//! GPU initialization data builder.
//!
//! The root of all interaction between the GPU firmware and the host driver
//! is a set of nested structures, the initialization data. It holds both
//! the configuration of hardware and firmware and the pointers to the
//! structures that the two sides talk through at runtime.
//!
//! This module computes what these structures hold, as plain values.
//! Floating point values are carried through as bit patterns; what has to
//! be computed with them is left to the embedding.

use crate::error::{Error, Result};
use crate::heap::{spec_run_addr, spec_run_fits, HeapAllocator};
use crate::hw::{
    GpuIdConfig, HwConfig, PerfStates, PowerZone, PwrConfig, F32, MAX_POWERZONES,
};
use crate::mmu::pgtable::{address_limit, MAX_ADDRESS_BITS};
use crate::mmu::UAT_PGMSK;
use vstd::arithmetic::power2::pow2;
use vstd::prelude::*;

verus! {

/// Number of points of a curve.
pub const CURVE_POINTS: usize = 9;

/// Number of rows of the third table of a curve.
pub const CURVE_ROWS: usize = 3;

/// The filler of the third table of a curve.
pub const CURVE_FILL: i32 = 0x3ffffff;

/// Chip with the curve tables.
pub const CHIP_T8112: u32 = 0x8112;

/// Chip that shares the extra power data with it.
pub const CHIP_T8103: u32 = 0x8103;

/// The first of the shared hardware data structures.
#[derive(Debug)]
pub struct HwDataShared1 {
    pub table: Vec<i32>,
    pub unk_a4: u32,
}

/// One polynomial curve.
#[derive(Debug)]
pub struct Curve {
    pub unk_0: u32,
    pub unk_4: u32,
    pub t1: Vec<i16>,
    pub t2: Vec<i16>,
    pub t3: Vec<Vec<i32>>,
}

/// The curves and what goes with them.
#[derive(Debug)]
pub struct T8112Data {
    pub unk_14: u32,
    pub curve1: Curve,
    pub curve2: Curve,
}

/// The second of the shared hardware data structures.
#[derive(Debug)]
pub struct HwDataShared2 {
    pub table: Vec<i32>,
    pub unk_28: Vec<u8>,
    pub t8112: Option<T8112Data>,
    pub unk_508: u32,
}

/// The third of the shared hardware data structures.
#[derive(Debug)]
pub struct HwDataShared3 {
    pub unk_0: u32,
    pub unk_4: u32,
    pub unk_8: u32,
    pub table: Vec<u32>,
    pub unk_4c: u32,
}

/// A table of `n` points that starts with `given` and goes on with its
/// first point.
pub open spec fn spec_curve_points(given: Seq<i16>, n: int) -> Seq<i16> {
    Seq::new(
        n as nat,
        |i: int|
            if i < given.len() {
                given[i]
            } else {
                given[0]
            },
    )
}

/// A row of `n` points that starts with `given` and goes on with the
/// filler.
pub open spec fn spec_curve_row(given: Seq<i32>, n: int) -> Seq<i32> {
    Seq::new(
        n as nat,
        |i: int|
            if i < given.len() {
                given[i]
            } else {
                CURVE_FILL
            },
    )
}

/// Whether `c` is the curve of the given values: the two tables padded
/// with their first point, the rows of the third padded with the filler,
/// and rows that are not given filled with it.
pub open spec fn curve_matches(
    c: Curve,
    unk_0: u32,
    unk_4: u32,
    t1: Seq<i16>,
    t2: Seq<i16>,
    t3: Seq<Seq<i32>>,
) -> bool {
    &&& c.unk_0 == unk_0
    &&& c.unk_4 == unk_4
    &&& c.t1@ == spec_curve_points(t1, CURVE_POINTS as int)
    &&& c.t2@ == spec_curve_points(t2, CURVE_POINTS as int)
    &&& c.t3@.len() == CURVE_ROWS
    &&& forall|i: int|
        0 <= i < CURVE_ROWS ==> (#[trigger] c.t3@[i])@ == (if i < t3.len() {
            spec_curve_row(t3[i], CURVE_POINTS as int)
        } else {
            spec_curve_row(Seq::empty(), CURVE_POINTS as int)
        })
}

/// The rows of a table, each as a sequence.
pub open spec fn spec_rows(t3: Seq<Vec<i32>>) -> Seq<Seq<i32>> {
    Seq::new(t3.len(), |i: int| t3[i]@)
}

/// Whether the values can make a curve: each table has a first point and
/// none has more points or rows than a curve has.
pub open spec fn curve_valid(t1: Seq<i16>, t2: Seq<i16>, t3: Seq<Seq<i32>>) -> bool {
    &&& 1 <= t1.len() <= CURVE_POINTS
    &&& 1 <= t2.len() <= CURVE_POINTS
    &&& t3.len() <= CURVE_ROWS
    &&& forall|i: int| 0 <= i < t3.len() ==> (#[trigger] t3[i]).len() <= CURVE_POINTS
}

fn curve_points(given: &[i16]) -> (r: Vec<i16>)
    requires
        1 <= given@.len() <= CURVE_POINTS,
    ensures
        r@ == spec_curve_points(given@, CURVE_POINTS as int),
{
    let mut out: Vec<i16> = Vec::new();
    let mut i: usize = 0;
    while i < CURVE_POINTS
        invariant
            i <= CURVE_POINTS,
            1 <= given@.len() <= CURVE_POINTS,
            out@ =~= spec_curve_points(given@, i as int),
        decreases CURVE_POINTS - i,
    {
        if i < given.len() {
            out.push(given[i]);
        } else {
            out.push(given[0]);
        }
        i = i + 1;
    }
    out
}

fn curve_row(given: &[i32]) -> (r: Vec<i32>)
    requires
        given@.len() <= CURVE_POINTS,
    ensures
        r@ == spec_curve_row(given@, CURVE_POINTS as int),
{
    let mut out: Vec<i32> = Vec::new();
    let mut i: usize = 0;
    while i < CURVE_POINTS
        invariant
            i <= CURVE_POINTS,
            given@.len() <= CURVE_POINTS,
            out@ =~= spec_curve_row(given@, i as int),
        decreases CURVE_POINTS - i,
    {
        if i < given.len() {
            out.push(given[i]);
        } else {
            out.push(CURVE_FILL);
        }
        i = i + 1;
    }
    out
}

/// Makes a curve of the given values.
pub fn init_curve(unk_0: u32, unk_4: u32, t1: &[i16], t2: &[i16], t3: &Vec<Vec<i32>>) -> (r: Curve)
    requires
        curve_valid(t1@, t2@, spec_rows(t3@)),
    ensures
        curve_matches(r, unk_0, unk_4, t1@, t2@, spec_rows(t3@)),
{
    let first = curve_points(t1);
    let second = curve_points(t2);
    let mut rows: Vec<Vec<i32>> = Vec::new();
    let mut i: usize = 0;
    while i < CURVE_ROWS
        invariant
            i <= CURVE_ROWS,
            curve_valid(t1@, t2@, spec_rows(t3@)),
            rows@.len() == i,
            forall|k: int|
                0 <= k < i ==> (#[trigger] rows@[k])@ == (if k < t3@.len() {
                    spec_curve_row(t3@[k]@, CURVE_POINTS as int)
                } else {
                    spec_curve_row(Seq::empty(), CURVE_POINTS as int)
                }),
        decreases CURVE_ROWS - i,
    {
        if i < t3.len() {
            assert(spec_rows(t3@)[i as int] == t3@[i as int]@);
            let row = curve_row(t3[i].as_slice());
            rows.push(row);
        } else {
            let none: Vec<i32> = Vec::new();
            let row = curve_row(none.as_slice());
            rows.push(row);
        }
        i = i + 1;
    }
    Curve { unk_0, unk_4, t1: first, t2: second, t3: rows }
}

/// The first table of the second curve of the chip with curves.
pub open spec fn spec_curve2_t1() -> Seq<i16> {
    seq![-1i16, 25740i16, 17429i16, 12550i16, 9597i16, 7910i16, 6657i16, 5881i16, 5421i16]
}

/// The second table of that curve.
pub open spec fn spec_curve2_t2() -> Seq<i16> {
    seq![
        0x0f07i16,
        0x04c0i16,
        0x06c0i16,
        0x08c0i16,
        0x0ac0i16,
        0x0c40i16,
        0x0dc0i16,
        0x0ec0i16,
        0x0f80i16,
    ]
}

/// The third table of that curve.
pub open spec fn spec_curve2_t3() -> Seq<Seq<i32>> {
    seq![
        seq![0x3ffffffi32, 107i32, 101i32, 94i32, 87i32, 82i32, 77i32, 73i32, 71i32],
        seq![
            0x3ffffffi32,
            38240i32,
            36251i32,
            33562i32,
            31368i32,
            29379i32,
            27693i32,
            26211i32,
            25370i32,
        ],
        seq![
            0x3ffffffi32,
            123933i32,
            117485i32,
            108771i32,
            101661i32,
            95217i32,
            89751i32,
            84948i32,
            82222i32,
        ],
    ]
}

/// Whether `d` is the curve data of the chip with curves.
pub open spec fn t8112_matches(d: T8112Data) -> bool {
    &&& d.unk_14 == 0x6000000
    &&& curve_matches(d.curve1, 0, 0x20000000, seq![-1i16], seq![0x0f07i16], Seq::empty())
    &&& curve_matches(
        d.curve2,
        7,
        0x80000000,
        spec_curve2_t1(),
        spec_curve2_t2(),
        spec_curve2_t3(),
    )
}

fn t8112_data() -> (r: T8112Data)
    ensures
        t8112_matches(r),
{
    let none: Vec<Vec<i32>> = Vec::new();
    let a1: [i16; 1] = [-1];
    let a2: [i16; 1] = [0x0f07];
    assert(a1@ =~= seq![-1i16]);
    assert(a2@ =~= seq![0x0f07i16]);
    assert(spec_rows(none@) =~= Seq::<Seq<i32>>::empty());
    let curve1 = init_curve(0, 0x20000000, a1.as_slice(), a2.as_slice(), &none);
    let t1: [i16; 9] = [-1, 25740, 17429, 12550, 9597, 7910, 6657, 5881, 5421];
    let t2: [i16; 9] = [0x0f07, 0x04c0, 0x06c0, 0x08c0, 0x0ac0, 0x0c40, 0x0dc0, 0x0ec0, 0x0f80];
    let r0: [i32; 9] = [0x3ffffff, 107, 101, 94, 87, 82, 77, 73, 71];
    let r1: [i32; 9] = [0x3ffffff, 38240, 36251, 33562, 31368, 29379, 27693, 26211, 25370];
    let r2: [i32; 9] = [0x3ffffff, 123933, 117485, 108771, 101661, 95217, 89751, 84948, 82222];
    let mut rows: Vec<Vec<i32>> = Vec::new();
    rows.push(copy_i32(r0.as_slice()));
    rows.push(copy_i32(r1.as_slice()));
    rows.push(copy_i32(r2.as_slice()));
    assert(t1@ =~= spec_curve2_t1());
    assert(t2@ =~= spec_curve2_t2());
    assert(rows@[0]@ =~= spec_curve2_t3()[0]);
    assert(rows@[1]@ =~= spec_curve2_t3()[1]);
    assert(rows@[2]@ =~= spec_curve2_t3()[2]);
    assert(spec_rows(rows@) =~= spec_curve2_t3());
    let curve2 = init_curve(7, 0x80000000, t1.as_slice(), t2.as_slice(), &rows);
    T8112Data { unk_14: 0x6000000, curve1, curve2 }
}

/// Whether `s` is the second shared structure of a chip: the table of the
/// configuration, sixteen bytes that are all ones, one value more, and on
/// the chip with curves their data.
pub open spec fn shared2_matches(
    s: HwDataShared2,
    chip_id: u32,
    shared2_tab: Seq<i32>,
    shared2_unk_508: u32,
) -> bool {
    &&& s.table@ == shared2_tab
    &&& s.unk_28@ == Seq::new(16, |i: int| 0xffu8)
    &&& s.unk_508 == shared2_unk_508
    &&& s.t8112 is Some <==> chip_id == CHIP_T8112
    &&& s.t8112 matches Some(d) ==> t8112_matches(d)
}

/// Creates the second shared structure.
pub fn hw_shared2(chip_id: u32, shared2_tab: &[i32], shared2_unk_508: u32) -> (r: HwDataShared2)
    ensures
        shared2_matches(r, chip_id, shared2_tab@, shared2_unk_508),
{
    let table = copy_i32(shared2_tab);
    let unk_28 = filled_u8(16, 0xff);
    let t8112 = if chip_id == CHIP_T8112 {
        Some(t8112_data())
    } else {
        None
    };
    HwDataShared2 { table, unk_28, t8112, unk_508: shared2_unk_508 }
}

/// The table of the third shared structure on the chip with curves.
pub open spec fn spec_shared3_table() -> Seq<u32> {
    seq![
        10700u32,
        10700u32,
        10700u32,
        10700u32,
        10700u32,
        6000u32,
        1000u32,
        1000u32,
        1000u32,
        10700u32,
        10700u32,
        10700u32,
        10700u32,
        10700u32,
        10700u32,
        10700u32,
    ]
}

/// Whether `s` is the third shared structure of a chip: all zero but on the
/// chip with curves.
pub open spec fn shared3_matches(s: HwDataShared3, chip_id: u32) -> bool {
    if chip_id == CHIP_T8112 {
        &&& s.unk_0 == 1
        &&& s.unk_4 == 500
        &&& s.unk_8 == 5
        &&& s.table@ == spec_shared3_table()
        &&& s.unk_4c == 1
    } else {
        &&& s.unk_0 == 0
        &&& s.unk_4 == 0
        &&& s.unk_8 == 0
        &&& s.table@ == Seq::new(16, |i: int| 0u32)
        &&& s.unk_4c == 0
    }
}

/// Creates the third shared structure.
pub fn hw_shared3(chip_id: u32) -> (r: HwDataShared3)
    ensures
        shared3_matches(r, chip_id),
{
    let mut table: Vec<u32> = Vec::new();
    if chip_id == CHIP_T8112 {
        let vals: [u32; 16] = [
            10700,
            10700,
            10700,
            10700,
            10700,
            6000,
            1000,
            1000,
            1000,
            10700,
            10700,
            10700,
            10700,
            10700,
            10700,
            10700,
        ];
        let mut i: usize = 0;
        while i < 16
            invariant
                i <= 16,
                table@ =~= vals@.take(i as int),
            decreases 16 - i,
        {
            table.push(vals[i]);
            i = i + 1;
        }
        assert(table@ =~= spec_shared3_table());
        HwDataShared3 { unk_0: 1, unk_4: 500, unk_8: 5, table, unk_4c: 1 }
    } else {
        let mut i: usize = 0;
        while i < 16
            invariant
                i <= 16,
                table@ =~= Seq::new(i as nat, |k: int| 0u32),
            decreases 16 - i,
        {
            table.push(0);
            i = i + 1;
        }
        HwDataShared3 { unk_0: 0, unk_4: 0, unk_8: 0, table, unk_4c: 0 }
    }
}

/// Creates the first shared structure: the table of the configuration and
/// one value more.
pub fn hw_shared1(shared1_tab: &[i32], shared1_a4: u32) -> (r: HwDataShared1)
    ensures
        r.table@ == shared1_tab@,
        r.unk_a4 == shared1_a4,
{
    let table = copy_i32(shared1_tab);
    HwDataShared1 { table, unk_a4: shared1_a4 }
}

fn copy_i32(src: &[i32]) -> (r: Vec<i32>)
    ensures
        r@ == src@,
{
    let mut out: Vec<i32> = Vec::new();
    let mut i: usize = 0;
    while i < src.len()
        invariant
            i <= src@.len(),
            out@ =~= src@.take(i as int),
        decreases src@.len() - i,
    {
        out.push(src[i]);
        i = i + 1;
    }
    assert(src@.take(src@.len() as int) =~= src@);
    out
}

fn filled_u8(n: usize, v: u8) -> (r: Vec<u8>)
    ensures
        r@ == Seq::new(n as nat, |i: int| v),
{
    let mut out: Vec<u8> = Vec::new();
    let mut i: usize = 0;
    while i < n
        invariant
            i <= n,
            out@ =~= Seq::new(i as nat, |k: int| v),
        decreases n - i,
    {
        out.push(v);
        i = i + 1;
    }
    out
}

/// Describes one level of translation of the UAT.
#[derive(Clone, Copy, Debug, PartialEq, Eq, Structural)]
pub struct UatLevelInfo {
    pub index_shift: u8,
    pub unk_1: u8,
    pub unk_2: u8,
    pub unk_3: u8,
    pub unk_4: u16,
    pub num_entries: u16,
    pub unk_8: u64,
    pub unk_10: u64,
    pub index_mask: u64,
}

/// The description of a level with `num_entries` entries whose index
/// starts at bit `index_shift` of an address, for `uat_oas` bits of output
/// address.
pub open spec fn spec_uat_level_info(uat_oas: usize, index_shift: u8, num_entries: u16)
    -> UatLevelInfo {
    UatLevelInfo {
        index_shift,
        unk_1: 14,
        unk_2: 14,
        unk_3: 8,
        unk_4: 0x4000,
        num_entries,
        unk_8: 1,
        unk_10: ((pow2(uat_oas as nat) - 1) as u64) & !UAT_PGMSK,
        index_mask: (((num_entries - 1) as u64) << (index_shift as u64)),
    }
}

/// Creates the description of one level of translation.
pub fn uat_level_info(uat_oas: usize, index_shift: u8, num_entries: u16) -> (r: UatLevelInfo)
    requires
        uat_oas <= MAX_ADDRESS_BITS,
        index_shift < 64,
        num_entries >= 1,
    ensures
        r == spec_uat_level_info(uat_oas, index_shift, num_entries),
{
    proof {
        vstd::arithmetic::power2::lemma_pow2_pos(uat_oas as nat);
    }
    let limit: u64 = address_limit(uat_oas);
    UatLevelInfo {
        index_shift,
        unk_1: 14,
        unk_2: 14,
        unk_3: 8,
        unk_4: 0x4000,
        num_entries,
        unk_8: 1,
        unk_10: (limit - 1) & !UAT_PGMSK,
        index_mask: (((num_entries - 1) as u64) << (index_shift as u64)),
    }
}

/// The descriptions of the three levels of translation, from the top.
pub open spec fn spec_uat_levels(uat_oas: usize) -> Seq<UatLevelInfo> {
    seq![
        spec_uat_level_info(uat_oas, 36, 8),
        spec_uat_level_info(uat_oas, 25, 2048),
        spec_uat_level_info(uat_oas, 14, 2048),
    ]
}

/// The index masks of the three levels, as numbers: three bits from bit 36
/// on, eleven from bit 25 on, and eleven from bit 14 on.
pub proof fn lemma_uat_level_masks(uat_oas: usize)
    ensures
        spec_uat_levels(uat_oas)[0].index_mask == 0x70_0000_0000,
        spec_uat_levels(uat_oas)[1].index_mask == 0xf_fe00_0000,
        spec_uat_levels(uat_oas)[2].index_mask == 0x1ff_c000,
{
    assert((7u64 << 36u64) == 0x70_0000_0000) by (bit_vector);
    assert((2047u64 << 25u64) == 0xf_fe00_0000) by (bit_vector);
    assert((2047u64 << 14u64) == 0x1ff_c000) by (bit_vector);
}

/// The power loop parameters of the first hardware data structure that are
/// whole numbers.
#[derive(Clone, Copy, Debug, PartialEq, Eq, Structural)]
pub struct HwDataA {
    pub clocks_per_period: u32,
    pub clocks_per_period_2: Option<u32>,
    pub base_pstate_scaled: u32,
    pub max_pstate_scaled: u32,
    pub min_pstate_scaled: u32,
    pub boost_pstate_count: u32,
    pub max_power: u32,
    pub max_freq_mhz: u32,
    pub pwr_min_duty_cycle: u32,
    pub pwr_pstate_max_dc_offset: i32,
    pub ppm_filter_tc_periods: u32,
    pub ppm_filter_tc_periods_x4: u32,
    pub ppm_filter_tc_ms: u32,
    pub ppm_filter_tc_clks: Option<u32>,
    pub fast_die0_release_temp_cc: u32,
    pub fast_die0_prop_tgt_delta: u32,
    pub power_zone_count: u32,
    pub avg_power_target_filter_tc_x4: u32,
    pub avg_power_target_filter_tc_xperiod: u32,
    pub avg_power_target_filter_tc_clks: Option<u32>,
    pub avg_power_filter_tc_periods: u32,
    pub avg_power_filter_tc_periods_x4: u32,
    pub avg_power_filter_tc_ms: u32,
    pub avg_power_filter_tc_clks: Option<u32>,
    pub t81xx_max_pstate_scaled: u32,
    pub fast_die0_sensor_mask: u64,
    pub fast_die0_sensor_mask_alt: u64,
    pub fast_die0_sensor_present: Option<u64>,
    pub unk_87c: i32,
    pub unk_8cc: u32,
    pub unk_e24: u32,
}

/// A power zone as the first hardware data structure holds it.
#[derive(Clone, Copy, Debug, PartialEq, Eq, Structural)]
pub struct HwPowerZone {
    pub target: u32,
    pub target_off: u32,
    pub filter_tc_x4: u32,
    pub filter_tc_xperiod: u32,
    pub unk_10: u32,
}

/// What the power loop parameters are computed from, but for tables.
#[derive(Clone, Copy, Debug, PartialEq, Eq, Structural)]
pub struct PowerInputs {
    /// Chip ID.
    pub chip_id: u32,
    /// Base clock in hertz.
    pub base_clock_hz: u32,
    /// Whether the firmware is of the later of the two layouts.
    pub later_layout: bool,
    /// State to start at.
    pub perf_base_pstate: u32,
    /// Highest state.
    pub perf_max_pstate: u32,
    /// Maximum power in milliwatts.
    pub max_power_mw: u32,
    /// Maximum frequency in megahertz.
    pub max_freq_mhz: u32,
    /// Sensor lists and sensor bitmask.
    pub fast_die0_sensor_mask: u64,
    pub fast_die0_sensor_mask_alt: u64,
    pub fast_die0_sensor_present: u32,
    /// Values of unknown meaning.
    pub unk_87c: i32,
    pub unk_8cc: u32,
    pub unk_e24: u32,
}

/// Whether the power loop parameters can be computed: the sample period is
/// not zero, the state to start at is not above the highest, and no value
/// leaves the range of its field.
pub open spec fn power_inputs_valid(inp: PowerInputs, pwr: PwrConfig) -> bool {
    let period = pwr.power_sample_period as int;
    let khz = inp.base_clock_hz as int / 1000;
    &&& period > 0
    &&& inp.perf_base_pstate <= inp.perf_max_pstate
    &&& 100 * inp.perf_max_pstate <= i32::MAX
    &&& pwr.pwr_min_duty_cycle <= i32::MAX
    &&& khz * period <= u32::MAX
    &&& 100 * pwr.fast_die0_release_temp <= u32::MAX
    &&& 100 * pwr.fast_die0_prop_tgt_delta <= u32::MAX
    &&& 4 * (pwr.ppm_filter_time_constant_ms as int / period) <= u32::MAX
    &&& 4 * pwr.avg_power_target_filter_tc <= u32::MAX
    &&& period * pwr.avg_power_target_filter_tc <= u32::MAX
    &&& 4 * (pwr.avg_power_filter_tc_ms as int / period) <= u32::MAX
    &&& inp.later_layout ==> {
        &&& (pwr.ppm_filter_time_constant_ms as int / period) * period * khz <= u32::MAX
        &&& period * pwr.avg_power_target_filter_tc * khz <= u32::MAX
        &&& (pwr.avg_power_filter_tc_ms as int / period) * period * khz <= u32::MAX
    }
}

/// The power loop parameters.
pub open spec fn spec_hwdata_a(inp: PowerInputs, pwr: PwrConfig, zones: nat) -> HwDataA {
    let period = pwr.power_sample_period as int;
    let khz = inp.base_clock_hz as int / 1000;
    let ppm_periods = pwr.ppm_filter_time_constant_ms as int / period;
    let avg_periods = pwr.avg_power_filter_tc_ms as int / period;
    let max_scaled = 100 * inp.perf_max_pstate;
    HwDataA {
        clocks_per_period: (khz * period) as u32,
        clocks_per_period_2: if inp.later_layout {
            Some((khz * period) as u32)
        } else {
            None
        },
        base_pstate_scaled: (100 * inp.perf_base_pstate) as u32,
        max_pstate_scaled: max_scaled as u32,
        min_pstate_scaled: 100,
        boost_pstate_count: (inp.perf_max_pstate - inp.perf_base_pstate) as u32,
        max_power: inp.max_power_mw,
        max_freq_mhz: inp.max_freq_mhz,
        pwr_min_duty_cycle: pwr.pwr_min_duty_cycle,
        pwr_pstate_max_dc_offset: (pwr.pwr_min_duty_cycle - max_scaled) as i32,
        ppm_filter_tc_periods: ppm_periods as u32,
        ppm_filter_tc_periods_x4: (4 * ppm_periods) as u32,
        ppm_filter_tc_ms: pwr.ppm_filter_time_constant_ms,
        ppm_filter_tc_clks: if inp.later_layout {
            Some((ppm_periods * period * khz) as u32)
        } else {
            None
        },
        fast_die0_release_temp_cc: (100 * pwr.fast_die0_release_temp) as u32,
        fast_die0_prop_tgt_delta: (100 * pwr.fast_die0_prop_tgt_delta) as u32,
        power_zone_count: zones as u32,
        avg_power_target_filter_tc_x4: (4 * pwr.avg_power_target_filter_tc) as u32,
        avg_power_target_filter_tc_xperiod: (period * pwr.avg_power_target_filter_tc) as u32,
        avg_power_target_filter_tc_clks: if inp.later_layout {
            Some((period * pwr.avg_power_target_filter_tc * khz) as u32)
        } else {
            None
        },
        avg_power_filter_tc_periods: avg_periods as u32,
        avg_power_filter_tc_periods_x4: (4 * avg_periods) as u32,
        avg_power_filter_tc_ms: pwr.avg_power_filter_tc_ms,
        avg_power_filter_tc_clks: if inp.later_layout {
            Some((avg_periods * period * khz) as u32)
        } else {
            None
        },
        t81xx_max_pstate_scaled: if inp.chip_id == CHIP_T8103 || inp.chip_id == CHIP_T8112 {
            max_scaled as u32
        } else {
            0
        },
        fast_die0_sensor_mask: inp.fast_die0_sensor_mask,
        fast_die0_sensor_mask_alt: inp.fast_die0_sensor_mask_alt,
        fast_die0_sensor_present: if inp.later_layout {
            None
        } else {
            Some(inp.fast_die0_sensor_present as u64)
        },
        unk_87c: inp.unk_87c,
        unk_8cc: inp.unk_8cc,
        unk_e24: inp.unk_e24,
    }
}

fn mul_u32(a: u32, b: u32) -> (r: u64)
    ensures
        r == a * b,
        r <= 0xffff_fffe_0000_0001,
{
    assert(a * b <= 0xffff_fffe_0000_0001) by (nonlinear_arith)
        requires
            0 <= a <= 0xffff_ffff,
            0 <= b <= 0xffff_ffff,
    ;
    (a as u64) * (b as u64)
}

/// Whether the product of `a`, `b` and `c` fits 32 bits, given that the
/// product of `a` and `b` does.
fn mul3_fits(a: u32, b: u32, c: u32) -> (r: bool)
    requires
        a * b <= u32::MAX,
    ensures
        r == (a * b * c <= u32::MAX),
{
    let ab: u64 = mul_u32(a, b);
    mul_u32(ab as u32, c) <= u32::MAX as u64
}

/// Tells whether the power loop parameters can be computed.
pub fn check_power_inputs(inp: &PowerInputs, pwr: &PwrConfig) -> (r: bool)
    ensures
        r == power_inputs_valid(*inp, *pwr),
{
    let period: u32 = pwr.power_sample_period;
    if period == 0 || inp.perf_base_pstate > inp.perf_max_pstate {
        return false;
    }
    let khz: u32 = inp.base_clock_hz / 1000;
    let ppm_periods: u32 = pwr.ppm_filter_time_constant_ms / period;
    let avg_periods: u32 = pwr.avg_power_filter_tc_ms / period;
    if mul_u32(100, inp.perf_max_pstate) > i32::MAX as u64 || pwr.pwr_min_duty_cycle
        > i32::MAX as u32 {
        return false;
    }
    if mul_u32(khz, period) > u32::MAX as u64 || mul_u32(100, pwr.fast_die0_release_temp)
        > u32::MAX as u64 || mul_u32(100, pwr.fast_die0_prop_tgt_delta) > u32::MAX as u64 {
        return false;
    }
    if mul_u32(4, ppm_periods) > u32::MAX as u64 || mul_u32(4, pwr.avg_power_target_filter_tc)
        > u32::MAX as u64 || mul_u32(period, pwr.avg_power_target_filter_tc) > u32::MAX as u64
        || mul_u32(4, avg_periods) > u32::MAX as u64 {
        return false;
    }
    if inp.later_layout {
        proof {
            lemma_periods(pwr.ppm_filter_time_constant_ms, period);
            lemma_periods(pwr.avg_power_filter_tc_ms, period);
        }
        if !mul3_fits(ppm_periods, period, khz) || !mul3_fits(
            period,
            pwr.avg_power_target_filter_tc,
            khz,
        ) || !mul3_fits(avg_periods, period, khz) {
            return false;
        }
    }
    true
}

/// A time in whole periods, taken times the period, is not above the time.
proof fn lemma_periods(ms: u32, period: u32)
    requires
        period > 0,
    ensures
        (ms as int / period as int) * period <= ms,
        0 <= ms as int / period as int <= ms,
{
    vstd::arithmetic::div_mod::lemma_fundamental_div_mod(ms as int, period as int);
    vstd::arithmetic::div_mod::lemma_div_pos_is_pos(ms as int, period as int);
    vstd::arithmetic::div_mod::lemma_div_is_ordered_by_denominator(ms as int, 1, period as int);
    assert((ms as int / period as int) * period == period * (ms as int / period as int))
        by (nonlinear_arith);
}

/// Computes the power loop parameters of the first hardware data structure
/// for `zones` power zones.
pub fn hwdata_a(inp: &PowerInputs, pwr: &PwrConfig, zones: usize) -> (r: HwDataA)
    requires
        power_inputs_valid(*inp, *pwr),
        zones <= MAX_POWERZONES,
    ensures
        r == spec_hwdata_a(*inp, *pwr, zones as nat),
{
    let period: u32 = pwr.power_sample_period;
    let khz: u32 = inp.base_clock_hz / 1000;
    let ppm_periods: u32 = pwr.ppm_filter_time_constant_ms / period;
    let avg_periods: u32 = pwr.avg_power_filter_tc_ms / period;
    proof {
        lemma_periods(pwr.ppm_filter_time_constant_ms, period);
        lemma_periods(pwr.avg_power_filter_tc_ms, period);
    }
    let max_scaled: u32 = mul_u32(100, inp.perf_max_pstate) as u32;
    let base_scaled: u32 = mul_u32(100, inp.perf_base_pstate) as u32;
    let clocks: u32 = mul_u32(khz, period) as u32;
    let target_xperiod: u32 = mul_u32(period, pwr.avg_power_target_filter_tc) as u32;
    let ppm_ms_rounded: u32 = mul_u32(ppm_periods, period) as u32;
    let avg_ms_rounded: u32 = mul_u32(avg_periods, period) as u32;
    let later = inp.later_layout;
    HwDataA {
        clocks_per_period: clocks,
        clocks_per_period_2: if later {
            Some(clocks)
        } else {
            None
        },
        base_pstate_scaled: base_scaled,
        max_pstate_scaled: max_scaled,
        min_pstate_scaled: 100,
        boost_pstate_count: inp.perf_max_pstate - inp.perf_base_pstate,
        max_power: inp.max_power_mw,
        max_freq_mhz: inp.max_freq_mhz,
        pwr_min_duty_cycle: pwr.pwr_min_duty_cycle,
        pwr_pstate_max_dc_offset: pwr.pwr_min_duty_cycle as i32 - max_scaled as i32,
        ppm_filter_tc_periods: ppm_periods,
        ppm_filter_tc_periods_x4: mul_u32(4, ppm_periods) as u32,
        ppm_filter_tc_ms: pwr.ppm_filter_time_constant_ms,
        ppm_filter_tc_clks: if later {
            Some(mul_u32(ppm_ms_rounded, khz) as u32)
        } else {
            None
        },
        fast_die0_release_temp_cc: mul_u32(100, pwr.fast_die0_release_temp) as u32,
        fast_die0_prop_tgt_delta: mul_u32(100, pwr.fast_die0_prop_tgt_delta) as u32,
        power_zone_count: zones as u32,
        avg_power_target_filter_tc_x4: mul_u32(4, pwr.avg_power_target_filter_tc) as u32,
        avg_power_target_filter_tc_xperiod: target_xperiod,
        avg_power_target_filter_tc_clks: if later {
            Some(mul_u32(target_xperiod, khz) as u32)
        } else {
            None
        },
        avg_power_filter_tc_periods: avg_periods,
        avg_power_filter_tc_periods_x4: mul_u32(4, avg_periods) as u32,
        avg_power_filter_tc_ms: pwr.avg_power_filter_tc_ms,
        avg_power_filter_tc_clks: if later {
            Some(mul_u32(avg_ms_rounded, khz) as u32)
        } else {
            None
        },
        t81xx_max_pstate_scaled: if inp.chip_id == CHIP_T8103 || inp.chip_id == CHIP_T8112 {
            max_scaled
        } else {
            0
        },
        fast_die0_sensor_mask: inp.fast_die0_sensor_mask,
        fast_die0_sensor_mask_alt: inp.fast_die0_sensor_mask_alt,
        fast_die0_sensor_present: if later {
            None
        } else {
            Some(inp.fast_die0_sensor_present as u64)
        },
        unk_87c: inp.unk_87c,
        unk_8cc: inp.unk_8cc,
        unk_e24: inp.unk_e24,
    }
}

/// Whether the power zones can be written: there are no more than the
/// structure has room for, no target is under its offset, and no value
/// leaves the range of its field.
pub open spec fn power_zones_valid(zones: Seq<PowerZone>, period: u32) -> bool {
    &&& zones.len() <= MAX_POWERZONES
    &&& forall|i: int|
        0 <= i < zones.len() ==> (#[trigger] zones[i]).target_offset <= zones[i].target && 4
            * zones[i].filter_tc <= u32::MAX && period * zones[i].filter_tc <= u32::MAX
}

/// A power zone as the first hardware data structure holds it, for a
/// sample period in milliseconds.
pub open spec fn spec_hw_power_zone(z: PowerZone, period: u32, later_layout: bool) -> HwPowerZone {
    HwPowerZone {
        target: z.target,
        target_off: (z.target - z.target_offset) as u32,
        filter_tc_x4: (4 * z.filter_tc) as u32,
        filter_tc_xperiod: (period * z.filter_tc) as u32,
        unk_10: if later_layout {
            1320000000
        } else {
            0
        },
    }
}

/// Tells whether the power zones can be written.
pub fn check_power_zones(zones: &Vec<PowerZone>, period: u32) -> (r: bool)
    ensures
        r == power_zones_valid(zones@, period),
{
    if zones.len() > MAX_POWERZONES {
        return false;
    }
    let mut i: usize = 0;
    while i < zones.len()
        invariant
            i <= zones@.len(),
            forall|k: int|
                0 <= k < i ==> (#[trigger] zones@[k]).target_offset <= zones@[k].target && 4
                    * zones@[k].filter_tc <= u32::MAX && period * zones@[k].filter_tc <= u32::MAX,
        decreases zones@.len() - i,
    {
        let z = zones[i];
        if z.target_offset > z.target || mul_u32(4, z.filter_tc) > u32::MAX as u64 || mul_u32(
            period,
            z.filter_tc,
        ) > u32::MAX as u64 {
            return false;
        }
        i = i + 1;
    }
    true
}

/// Computes the power zones of the first hardware data structure.
pub fn hw_power_zones(zones: &Vec<PowerZone>, period: u32, later_layout: bool) -> (r: Vec<
    HwPowerZone,
>)
    requires
        power_zones_valid(zones@, period),
    ensures
        r@.len() == zones@.len(),
        forall|i: int|
            0 <= i < zones@.len() ==> #[trigger] r@[i] == spec_hw_power_zone(
                zones@[i],
                period,
                later_layout,
            ),
{
    let mut out: Vec<HwPowerZone> = Vec::new();
    let mut i: usize = 0;
    while i < zones.len()
        invariant
            i <= zones@.len(),
            power_zones_valid(zones@, period),
            out@.len() == i,
            forall|k: int|
                0 <= k < i ==> #[trigger] out@[k] == spec_hw_power_zone(
                    zones@[k],
                    period,
                    later_layout,
                ),
        decreases zones@.len() - i,
    {
        let z = zones[i];
        out.push(
            HwPowerZone {
                target: z.target,
                target_off: z.target - z.target_offset,
                filter_tc_x4: mul_u32(4, z.filter_tc) as u32,
                filter_tc_xperiod: mul_u32(period, z.filter_tc) as u32,
                unk_10: if later_layout {
                    1320000000
                } else {
                    0
                },
            },
        );
        i = i + 1;
    }
    out
}

/// The tables of the second hardware data structure, one entry for each
/// performance state.
#[derive(Debug)]
pub struct HwDataB {
    pub chip_id: u32,
    pub base_clock_khz: u32,
    pub power_sample_period: u32,
    pub num_frags: u32,
    pub num_cores: u32,
    pub uat_ttb_base: u64,
    pub gpu_core_id: u32,
    pub gpu_rev_id: u32,
    pub max_pstate: u32,
    pub num_pstates: Option<u32>,
    pub min_sram_volt: Option<u32>,
    pub frequencies: Vec<u32>,
    pub voltages: Vec<Vec<u32>>,
    pub voltages_sram: Vec<Vec<u32>>,
    pub sram_k: Vec<F32>,
    pub rel_max_powers: Vec<u32>,
    pub rel_boost_freqs: Vec<u32>,
}

/// The frequency of a state, in hertz.
pub open spec fn spec_freq(perf: PerfStates, i: int) -> int {
    perf.perf_states@[i].freq_hz as int
}

/// Whether the tables can be computed: the state to start at and the
/// highest state are states, the maximum power is not zero, the highest
/// frequency is at least a hundred hertz above that of the state to start
/// at, no state above that one is slower than it, and no value leaves the
/// range of its field.
pub open spec fn perf_tables_valid(perf: PerfStates, id: GpuIdConfig) -> bool {
    let n = perf.perf_states@.len() as int;
    let base = perf.perf_base_pstate as int;
    let max = perf.perf_max_pstate as int;
    &&& 0 < n <= u32::MAX
    &&& base < n
    &&& max < n
    &&& perf.max_power_mw > 0
    &&& id.num_frags * id.num_clusters <= u32::MAX
    &&& id.num_cores * id.num_clusters <= u32::MAX
    &&& forall|i: int| 0 <= i < n ==> (#[trigger] perf.perf_states@[i]).pwr_mw * 100 <= u32::MAX
    &&& (base + 1 < n ==> spec_freq(perf, max) - spec_freq(perf, base) >= 100)
    &&& forall|i: int| base < i < n ==> #[trigger] spec_freq(perf, i) >= spec_freq(perf, base)
}

/// The voltage of the SRAM for a voltage: not under the least that the
/// SRAM takes.
pub open spec fn spec_sram_mv(mv: u32, min_sram_microvolt: u32) -> u32 {
    if mv >= min_sram_microvolt / 1000 {
        mv
    } else {
        min_sram_microvolt / 1000
    }
}

/// The voltages of the SRAM for the voltages of a state.
pub open spec fn spec_sram_row(volt_mv: Seq<u32>, min_sram_microvolt: u32) -> Seq<u32> {
    Seq::new(volt_mv.len(), |j: int| spec_sram_mv(volt_mv[j], min_sram_microvolt))
}

/// The power of a state in hundredths of the largest power.
pub open spec fn spec_rel_max_power(perf: PerfStates, i: int) -> int {
    perf.perf_states@[i].pwr_mw * 100 / perf.max_power_mw as int
}

/// How far the frequency of a state is above that of the state to start
/// at, in hundredths of what the highest state is above it; zero for the
/// state to start at and those under it.
pub open spec fn spec_rel_boost_freq(perf: PerfStates, i: int) -> int {
    let base = perf.perf_base_pstate as int;
    let max = perf.perf_max_pstate as int;
    if i > base {
        (spec_freq(perf, i) - spec_freq(perf, base)) / ((spec_freq(perf, max) - spec_freq(
            perf,
            base,
        )) / 100)
    } else {
        0
    }
}

/// Whether `b` holds the tables for the given states.
pub open spec fn hwdata_b_tables_match(
    b: HwDataB,
    perf: PerfStates,
    sram_k: F32,
    min_sram_microvolt: u32,
) -> bool {
    let n = perf.perf_states@.len() as int;
    &&& b.frequencies@.len() == n
    &&& b.voltages@.len() == n
    &&& b.voltages_sram@.len() == n
    &&& b.sram_k@.len() == n
    &&& b.rel_max_powers@.len() == n
    &&& b.rel_boost_freqs@.len() == n
    &&& forall|i: int|
        0 <= i < n ==> {
            &&& #[trigger] b.frequencies@[i] == spec_freq(perf, i) / 1000000
            &&& b.sram_k@[i] == sram_k
            &&& b.rel_max_powers@[i] == spec_rel_max_power(perf, i)
            &&& b.rel_boost_freqs@[i] == spec_rel_boost_freq(perf, i)
            &&& b.voltages@[i]@ == perf.perf_states@[i].volt_mv@
            &&& b.voltages_sram@[i]@ == spec_sram_row(
                perf.perf_states@[i].volt_mv@,
                min_sram_microvolt,
            )
        }
}

/// Whether `b` holds what identifies the GPU.
pub open spec fn hwdata_b_head_matches(
    b: HwDataB,
    cfg: HwConfig,
    id: GpuIdConfig,
    pwr: PwrConfig,
    perf: PerfStates,
    uat_ttb_base: u64,
    later_layout: bool,
) -> bool {
    &&& b.chip_id == cfg.chip_id
    &&& b.base_clock_khz == cfg.base_clock_hz / 1000
    &&& b.power_sample_period == pwr.power_sample_period
    &&& b.num_frags == id.num_frags * id.num_clusters
    &&& b.num_cores == id.num_cores * id.num_clusters
    &&& b.uat_ttb_base == uat_ttb_base
    &&& b.gpu_core_id == cfg.gpu_core.spec_to_u32()
    &&& b.gpu_rev_id == id.gpu_rev_id.spec_to_u32()
    &&& b.max_pstate == perf.perf_states@.len() - 1
    &&& b.num_pstates == (if later_layout {
        None
    } else {
        Some(perf.perf_states@.len() as u32)
    })
    &&& b.min_sram_volt == (if later_layout {
        None
    } else {
        Some(pwr.min_sram_microvolt / 1000)
    })
}

/// Tells whether the tables of the second hardware data structure can be
/// computed.
pub fn check_perf_tables(perf: &PerfStates, id: &GpuIdConfig) -> (r: bool)
    ensures
        r == perf_tables_valid(*perf, *id),
{
    let n: usize = perf.perf_states.len();
    if n == 0 || n > u32::MAX as usize {
        return false;
    }
    let base: usize = perf.perf_base_pstate as usize;
    let max: usize = perf.perf_max_pstate as usize;
    if base >= n || max >= n || perf.max_power_mw == 0 {
        return false;
    }
    if mul_u32(id.num_frags, id.num_clusters) > u32::MAX as u64 || mul_u32(
        id.num_cores,
        id.num_clusters,
    ) > u32::MAX as u64 {
        return false;
    }
    let base_freq: u32 = perf.perf_states[base].freq_hz;
    let max_freq: u32 = perf.perf_states[max].freq_hz;
    if base + 1 < n && (max_freq < base_freq || max_freq - base_freq < 100) {
        return false;
    }
    let mut i: usize = 0;
    while i < n
        invariant
            i <= n,
            n == perf.perf_states@.len(),
            base == perf.perf_base_pstate,
            base < n,
            base_freq == spec_freq(*perf, base as int),
            forall|k: int|
                0 <= k < i ==> (#[trigger] perf.perf_states@[k]).pwr_mw * 100 <= u32::MAX,
            forall|k: int|
                base < k < i ==> #[trigger] spec_freq(*perf, k) >= spec_freq(*perf, base as int),
        decreases n - i,
    {
        let ps = &perf.perf_states[i];
        if mul_u32(ps.pwr_mw, 100) > u32::MAX as u64 {
            return false;
        }
        if i > base && ps.freq_hz < base_freq {
            assert(spec_freq(*perf, i as int) < spec_freq(*perf, base as int));
            return false;
        }
        i = i + 1;
    }
    true
}

fn sram_voltages(volt_mv: &Vec<u32>, min_sram_microvolt: u32) -> (r: (Vec<u32>, Vec<u32>))
    ensures
        r.0@ == volt_mv@,
        r.1@ == spec_sram_row(volt_mv@, min_sram_microvolt),
{
    let floor: u32 = min_sram_microvolt / 1000;
    let mut plain: Vec<u32> = Vec::new();
    let mut sram: Vec<u32> = Vec::new();
    let mut j: usize = 0;
    while j < volt_mv.len()
        invariant
            j <= volt_mv@.len(),
            floor == min_sram_microvolt / 1000,
            plain@ =~= volt_mv@.take(j as int),
            sram@ =~= spec_sram_row(volt_mv@.take(j as int), min_sram_microvolt),
        decreases volt_mv@.len() - j,
    {
        let mv: u32 = volt_mv[j];
        plain.push(mv);
        sram.push(
            if mv >= floor {
                mv
            } else {
                floor
            },
        );
        j = j + 1;
    }
    assert(volt_mv@.take(volt_mv@.len() as int) =~= volt_mv@);
    (plain, sram)
}

/// Creates the second hardware data structure. It mostly holds what
/// identifies the GPU, and the tables of its performance states.
pub fn hwdata_b(
    cfg: &HwConfig,
    id: &GpuIdConfig,
    pwr: &PwrConfig,
    perf: &PerfStates,
    uat_ttb_base: u64,
    later_layout: bool,
) -> (r: HwDataB)
    requires
        perf_tables_valid(*perf, *id),
    ensures
        hwdata_b_head_matches(r, *cfg, *id, *pwr, *perf, uat_ttb_base, later_layout),
        hwdata_b_tables_match(r, *perf, cfg.sram_k, pwr.min_sram_microvolt),
{
    let n: usize = perf.perf_states.len();
    let base: usize = perf.perf_base_pstate as usize;
    let max: usize = perf.perf_max_pstate as usize;
    let base_freq: u32 = perf.perf_states[base].freq_hz;
    let max_freq: u32 = perf.perf_states[max].freq_hz;
    let mut frequencies: Vec<u32> = Vec::new();
    let mut voltages: Vec<Vec<u32>> = Vec::new();
    let mut voltages_sram: Vec<Vec<u32>> = Vec::new();
    let mut sram_k: Vec<F32> = Vec::new();
    let mut rel_max_powers: Vec<u32> = Vec::new();
    let mut rel_boost_freqs: Vec<u32> = Vec::new();
    let mut i: usize = 0;
    while i < n
        invariant
            i <= n,
            n == perf.perf_states@.len(),
            perf_tables_valid(*perf, *id),
            base == perf.perf_base_pstate,
            max == perf.perf_max_pstate,
            base_freq == spec_freq(*perf, base as int),
            max_freq == spec_freq(*perf, max as int),
            frequencies@.len() == i,
            voltages@.len() == i,
            voltages_sram@.len() == i,
            sram_k@.len() == i,
            rel_max_powers@.len() == i,
            rel_boost_freqs@.len() == i,
            forall|k: int|
                0 <= k < i ==> #[trigger] frequencies@[k] == spec_freq(*perf, k) / 1000000,
            forall|k: int| 0 <= k < i ==> #[trigger] sram_k@[k] == cfg.sram_k,
            forall|k: int|
                0 <= k < i ==> #[trigger] rel_max_powers@[k] == spec_rel_max_power(*perf, k),
            forall|k: int|
                0 <= k < i ==> #[trigger] rel_boost_freqs@[k] == spec_rel_boost_freq(*perf, k),
            forall|k: int|
                0 <= k < i ==> (#[trigger] voltages@[k])@ == perf.perf_states@[k].volt_mv@,
            forall|k: int|
                0 <= k < i ==> (#[trigger] voltages_sram@[k])@ == spec_sram_row(
                    perf.perf_states@[k].volt_mv@,
                    pwr.min_sram_microvolt,
                ),
        decreases n - i,
    {
        let ps = &perf.perf_states[i];
        frequencies.push(ps.freq_hz / 1000000);
        let (plain, sram) = sram_voltages(&ps.volt_mv, pwr.min_sram_microvolt);
        voltages.push(plain);
        voltages_sram.push(sram);
        sram_k.push(cfg.sram_k);
        let scaled: u64 = mul_u32(ps.pwr_mw, 100);
        rel_max_powers.push((scaled as u32) / perf.max_power_mw);
        if i > base {
            assert(spec_freq(*perf, i as int) >= spec_freq(*perf, base as int));
            let step: u32 = (max_freq - base_freq) / 100;
            rel_boost_freqs.push((ps.freq_hz - base_freq) / step);
        } else {
            rel_boost_freqs.push(0);
        }
        i = i + 1;
    }
    HwDataB {
        chip_id: cfg.chip_id,
        base_clock_khz: cfg.base_clock_hz / 1000,
        power_sample_period: pwr.power_sample_period,
        num_frags: mul_u32(id.num_frags, id.num_clusters) as u32,
        num_cores: mul_u32(id.num_cores, id.num_clusters) as u32,
        uat_ttb_base,
        gpu_core_id: cfg.gpu_core.to_u32(),
        gpu_rev_id: id.gpu_rev_id.to_u32(),
        max_pstate: (n - 1) as u32,
        num_pstates: if later_layout {
            None
        } else {
            Some(n as u32)
        },
        min_sram_volt: if later_layout {
            None
        } else {
            Some(pwr.min_sram_microvolt / 1000)
        },
        frequencies,
        voltages,
        voltages_sram,
        sram_k,
        rel_max_powers,
        rel_boost_freqs,
    }
}

/// The global firmware configuration that is whole numbers.
#[derive(Clone, Copy, Debug, PartialEq, Eq, Structural)]
pub struct Globals {
    pub max_power: u32,
    pub max_pstate_scaled: u32,
    pub power_zone_count: u32,
    pub avg_power_filter_tc_periods: u32,
    pub avg_power_min_duty_cycle: u32,
    pub avg_power_target_filter_tc: u32,
    pub unk_89bc: u32,
    pub fast_die0_release_temp: u32,
    pub unk_89c4: i32,
    pub fast_die0_prop_tgt_delta: u32,
    pub unk_903c: u32,
    pub fault_control: u32,
    pub do_init: u32,
    pub idle_off_delay_ms: u32,
    pub fender_idle_off_delay_ms: u32,
    pub fw_early_wake_timeout_ms: u32,
    pub unk_118e8: u32,
}

/// A power zone as the global configuration holds it.
#[derive(Clone, Copy, Debug, PartialEq, Eq, Structural)]
pub struct GlobalPowerZone {
    pub target: u32,
    pub target_off: u32,
    pub filter_tc: u32,
}

/// Whether the global configuration can be computed: the sample period is
/// not zero and no value leaves the range of its field.
pub open spec fn globals_valid(inp: PowerInputs, pwr: PwrConfig) -> bool {
    &&& pwr.power_sample_period > 0
    &&& 100 * inp.perf_max_pstate <= u32::MAX
    &&& 100 * pwr.fast_die0_release_temp <= u32::MAX
    &&& 100 * pwr.fast_die0_prop_tgt_delta <= u32::MAX
}

/// The global configuration for `zones` power zones. `has_tab` tells
/// whether the chip has a global table.
pub open spec fn spec_globals(
    inp: PowerInputs,
    pwr: PwrConfig,
    zones: nat,
    has_tab: bool,
    fault_control: u32,
) -> Globals {
    Globals {
        max_power: inp.max_power_mw,
        max_pstate_scaled: (100 * inp.perf_max_pstate) as u32,
        power_zone_count: zones as u32,
        avg_power_filter_tc_periods: pwr.avg_power_filter_tc_ms / pwr.power_sample_period,
        avg_power_min_duty_cycle: pwr.avg_power_min_duty_cycle,
        avg_power_target_filter_tc: pwr.avg_power_target_filter_tc,
        unk_89bc: inp.unk_8cc,
        fast_die0_release_temp: (100 * pwr.fast_die0_release_temp) as u32,
        unk_89c4: inp.unk_87c,
        fast_die0_prop_tgt_delta: (100 * pwr.fast_die0_prop_tgt_delta) as u32,
        unk_903c: if inp.later_layout {
            1
        } else {
            0
        },
        fault_control,
        do_init: 1,
        idle_off_delay_ms: pwr.idle_off_delay_ms,
        fender_idle_off_delay_ms: pwr.fender_idle_off_delay_ms,
        fw_early_wake_timeout_ms: pwr.fw_early_wake_timeout_ms,
        unk_118e8: if has_tab {
            1
        } else {
            0
        },
    }
}

/// Tells whether the global configuration can be computed.
pub fn check_globals(inp: &PowerInputs, pwr: &PwrConfig) -> (r: bool)
    ensures
        r == globals_valid(*inp, *pwr),
{
    pwr.power_sample_period > 0 && mul_u32(100, inp.perf_max_pstate) <= u32::MAX as u64 && mul_u32(
        100,
        pwr.fast_die0_release_temp,
    ) <= u32::MAX as u64 && mul_u32(100, pwr.fast_die0_prop_tgt_delta) <= u32::MAX as u64
}

/// Computes the global configuration.
pub fn globals(
    inp: &PowerInputs,
    pwr: &PwrConfig,
    zones: usize,
    has_tab: bool,
    fault_control: u32,
) -> (r: Globals)
    requires
        globals_valid(*inp, *pwr),
        zones <= MAX_POWERZONES,
    ensures
        r == spec_globals(*inp, *pwr, zones as nat, has_tab, fault_control),
{
    Globals {
        max_power: inp.max_power_mw,
        max_pstate_scaled: mul_u32(100, inp.perf_max_pstate) as u32,
        power_zone_count: zones as u32,
        avg_power_filter_tc_periods: pwr.avg_power_filter_tc_ms / pwr.power_sample_period,
        avg_power_min_duty_cycle: pwr.avg_power_min_duty_cycle,
        avg_power_target_filter_tc: pwr.avg_power_target_filter_tc,
        unk_89bc: inp.unk_8cc,
        fast_die0_release_temp: mul_u32(100, pwr.fast_die0_release_temp) as u32,
        unk_89c4: inp.unk_87c,
        fast_die0_prop_tgt_delta: mul_u32(100, pwr.fast_die0_prop_tgt_delta) as u32,
        unk_903c: if inp.later_layout {
            1
        } else {
            0
        },
        fault_control,
        do_init: 1,
        idle_off_delay_ms: pwr.idle_off_delay_ms,
        fender_idle_off_delay_ms: pwr.fender_idle_off_delay_ms,
        fw_early_wake_timeout_ms: pwr.fw_early_wake_timeout_ms,
        unk_118e8: if has_tab {
            1
        } else {
            0
        },
    }
}

/// A power zone as the global configuration holds it.
pub open spec fn spec_global_power_zone(z: PowerZone) -> GlobalPowerZone {
    GlobalPowerZone {
        target: z.target,
        target_off: (z.target - z.target_offset) as u32,
        filter_tc: z.filter_tc,
    }
}

/// Whether no target of a power zone is under its offset.
pub open spec fn zone_targets_valid(zones: Seq<PowerZone>) -> bool {
    forall|i: int| 0 <= i < zones.len() ==> (#[trigger] zones[i]).target_offset <= zones[i].target
}

/// Tells whether no target of a power zone is under its offset.
pub fn check_zone_targets(zones: &Vec<PowerZone>) -> (r: bool)
    ensures
        r == zone_targets_valid(zones@),
{
    let mut i: usize = 0;
    while i < zones.len()
        invariant
            i <= zones@.len(),
            forall|k: int| 0 <= k < i ==> (#[trigger] zones@[k]).target_offset <= zones@[k].target,
        decreases zones@.len() - i,
    {
        if zones[i].target_offset > zones[i].target {
            return false;
        }
        i = i + 1;
    }
    true
}

/// Computes the power zones of the global configuration.
pub fn global_power_zones(zones: &Vec<PowerZone>) -> (r: Vec<GlobalPowerZone>)
    requires
        zone_targets_valid(zones@),
    ensures
        r@.len() == zones@.len(),
        forall|i: int|
            0 <= i < zones@.len() ==> #[trigger] r@[i] == spec_global_power_zone(zones@[i]),
{
    let mut out: Vec<GlobalPowerZone> = Vec::new();
    let mut i: usize = 0;
    while i < zones.len()
        invariant
            i <= zones@.len(),
            zone_targets_valid(zones@),
            out@.len() == i,
            forall|k: int| 0 <= k < i ==> #[trigger] out@[k] == spec_global_power_zone(zones@[k]),
        decreases zones@.len() - i,
    {
        let z = zones[i];
        out.push(
            GlobalPowerZone {
                target: z.target,
                target_off: z.target - z.target_offset,
                filter_tc: z.filter_tc,
            },
        );
        i = i + 1;
    }
    out
}

/// The record through which firmware and driver agree on a halt of the
/// firmware. It starts out as zeros.
#[derive(Clone, Copy, Debug, PartialEq, Eq, Structural)]
pub struct FwStatus {
    pub fwctl_channel: u64,
    pub halt_count: u32,
    pub halted: u32,
    pub resume: u32,
    pub flags: u32,
}

/// Creates the halt record.
pub fn fw_status() -> (r: FwStatus)
    ensures
        r == (FwStatus { fwctl_channel: 0, halt_count: 0, halted: 0, resume: 0, flags: 0 }),
{
    FwStatus { fwctl_channel: 0, halt_count: 0, halted: 0, resume: 0, flags: 0 }
}

/// Number of entries of the buffer manager control array.
pub const BUFFER_MGR_SLOTS: u64 = 127;

/// Size of the buffer of unknown use that the initialization data points
/// to.
pub const UNK_BUF_SIZE: u64 = 0x4000;

/// How large the structures are that the initialization data is made of,
/// and how they are aligned.
#[derive(Clone, Copy, Debug, PartialEq, Eq, Structural)]
pub struct ObjectSizes {
    pub align: u64,
    pub hwdata_a: u64,
    pub hwdata_b: u64,
    pub stats_vtx: u64,
    pub stats_frag: u64,
    pub stats_comp: u64,
    pub buffer_mgr_ctl: u32,
    pub runtime_pointers: u64,
    pub globals: u64,
    pub fw_status: u64,
    pub init_data: u64,
}

/// The pointers to the structures that firmware and driver use at runtime.
#[derive(Clone, Copy, Debug, PartialEq, Eq, Structural)]
pub struct RuntimePointers {
    pub stats_vtx: u64,
    pub stats_frag: u64,
    pub stats_comp: u64,
    pub hwdata_a: u64,
    pub unkptr_190: u64,
    pub unkptr_198: u64,
    pub hwdata_b: u64,
    pub hwdata_b_2: u64,
    pub unkptr_1b8: u64,
    pub unkptr_1c0: u64,
    pub unkptr_1c8: u64,
    pub buffer_mgr_ctl: u64,
    pub buffer_mgr_ctl_2: u64,
    pub unk_6b38: u8,
}

/// The head of the initialization data.
#[derive(Debug)]
pub struct InitData {
    pub ver_info: Option<(u16, u16, u16, u16)>,
    pub unk_buf: u64,
    pub runtime_pointers: u64,
    pub globals: u64,
    pub fw_status: u64,
    pub uat_page_size: u16,
    pub uat_page_bits: u8,
    pub uat_num_levels: u8,
    pub uat_level_info: Vec<UatLevelInfo>,
    pub host_mapped_fw_allocations: u32,
    pub pointers: RuntimePointers,
}

/// The allocators that the structures are taken from.
#[derive(Debug)]
pub struct KernelAllocators {
    /// Memory that only the firmware uses.
    pub private: HeapAllocator,
    /// Memory that firmware and driver share.
    pub shared: HeapAllocator,
    /// Shared memory that the firmware only reads.
    pub shared_ro: HeapAllocator,
    /// Memory that the GPU itself uses.
    pub gpu: HeapAllocator,
}

impl KernelAllocators {
    /// Whether each of the allocators is in order.
    pub open spec fn wf(&self) -> bool {
        self.private.wf() && self.shared.wf() && self.shared_ro.wf() && self.gpu.wf()
    }

    /// Whether the allocators have the same windows as those of `o`.
    pub open spec fn same_windows(&self, o: &KernelAllocators) -> bool {
        &&& self.private.spec_range() == o.private.spec_range()
        &&& self.shared.spec_range() == o.shared.spec_range()
        &&& self.shared_ro.spec_range() == o.shared_ro.spec_range()
        &&& self.gpu.spec_range() == o.gpu.spec_range()
    }

    /// Whether nothing was taken from the allocators since `o`.
    pub open spec fn same_marks(&self, o: &KernelAllocators) -> bool {
        &&& self.private.spec_next() == o.private.spec_next()
        &&& self.shared.spec_next() == o.shared.spec_next()
        &&& self.shared_ro.spec_next() == o.shared_ro.spec_next()
        &&& self.gpu.spec_next() == o.gpu.spec_next()
    }
}

/// The sizes of what is taken from firmware memory, in the order in which
/// it is taken: the two hardware data structures, the three statistics
/// structures, five buffers of unknown use, and the runtime pointers
/// themselves.
pub open spec fn spec_private_sizes(sz: ObjectSizes) -> Seq<u64> {
    seq![
        sz.hwdata_a,
        sz.hwdata_b,
        sz.stats_vtx,
        sz.stats_frag,
        sz.stats_comp,
        0x80u64,
        0xc0u64,
        0x1000u64,
        0x300u64,
        0x1000u64,
        sz.runtime_pointers,
    ]
}

/// The sizes of what is taken from shared memory.
pub open spec fn spec_shared_sizes(sz: ObjectSizes) -> Seq<u64> {
    seq![sz.globals, sz.fw_status]
}

/// The sizes of what is taken from read-only shared memory.
pub open spec fn spec_shared_ro_sizes(sz: ObjectSizes) -> Seq<u64> {
    seq![UNK_BUF_SIZE, sz.init_data]
}

/// The size of the buffer manager control array.
pub open spec fn spec_buffer_mgr_size(sz: ObjectSizes) -> int {
    BUFFER_MGR_SLOTS * sz.buffer_mgr_ctl
}

/// Whether the allocators have room for all the structures.
pub open spec fn spec_layout_fits(a: KernelAllocators, sz: ObjectSizes) -> bool {
    &&& sz.align > 0
    &&& spec_run_fits(
        a.private.spec_next() as int,
        sz.align as int,
        spec_private_sizes(sz),
        a.private.spec_range().end as int,
    )
    &&& spec_run_fits(
        a.shared.spec_next() as int,
        sz.align as int,
        spec_shared_sizes(sz),
        a.shared.spec_range().end as int,
    )
    &&& spec_run_fits(
        a.shared_ro.spec_next() as int,
        sz.align as int,
        spec_shared_ro_sizes(sz),
        a.shared_ro.spec_range().end as int,
    )
    &&& crate::heap::spec_round_up(a.gpu.spec_next() as int, sz.align as int)
        + spec_buffer_mgr_size(sz) <= a.gpu.spec_range().end
}

/// The address of structure `k` of those taken from firmware memory.
pub open spec fn spec_private_addr(a: KernelAllocators, sz: ObjectSizes, k: int) -> int {
    spec_run_addr(a.private.spec_next() as int, sz.align as int, spec_private_sizes(sz), k)
}

/// The runtime pointers, for the allocators as they were before anything
/// was taken.
pub open spec fn spec_runtime_pointers(a: KernelAllocators, sz: ObjectSizes) -> RuntimePointers {
    let ctl = crate::heap::spec_round_up(a.gpu.spec_next() as int, sz.align as int) as u64;
    RuntimePointers {
        stats_vtx: spec_private_addr(a, sz, 2) as u64,
        stats_frag: spec_private_addr(a, sz, 3) as u64,
        stats_comp: spec_private_addr(a, sz, 4) as u64,
        hwdata_a: spec_private_addr(a, sz, 0) as u64,
        unkptr_190: spec_private_addr(a, sz, 5) as u64,
        unkptr_198: spec_private_addr(a, sz, 6) as u64,
        hwdata_b: spec_private_addr(a, sz, 1) as u64,
        hwdata_b_2: spec_private_addr(a, sz, 1) as u64,
        unkptr_1b8: spec_private_addr(a, sz, 7) as u64,
        unkptr_1c0: spec_private_addr(a, sz, 8) as u64,
        unkptr_1c8: spec_private_addr(a, sz, 9) as u64,
        buffer_mgr_ctl: ctl,
        buffer_mgr_ctl_2: ctl,
        unk_6b38: 0xff,
    }
}

/// Whether `d` is the head of the initialization data, for the allocators
/// as they were before anything was taken.
pub open spec fn init_data_matches(
    d: InitData,
    a: KernelAllocators,
    sz: ObjectSizes,
    uat_oas: usize,
    later_layout: bool,
) -> bool {
    &&& d.ver_info == (if later_layout {
        Some((1u16, 1u16, 16u16, 1u16))
    } else {
        None
    })
    &&& d.unk_buf == spec_run_addr(
        a.shared_ro.spec_next() as int,
        sz.align as int,
        spec_shared_ro_sizes(sz),
        0,
    )
    &&& d.runtime_pointers == spec_private_addr(a, sz, 10)
    &&& d.globals == spec_run_addr(
        a.shared.spec_next() as int,
        sz.align as int,
        spec_shared_sizes(sz),
        0,
    )
    &&& d.fw_status == spec_run_addr(
        a.shared.spec_next() as int,
        sz.align as int,
        spec_shared_sizes(sz),
        1,
    )
    &&& d.uat_page_size == 0x4000
    &&& d.uat_page_bits == 14
    &&& d.uat_num_levels == 3
    &&& d.uat_level_info@ == spec_uat_levels(uat_oas)
    &&& d.host_mapped_fw_allocations == 1
    &&& d.pointers == spec_runtime_pointers(a, sz)
}

/// Builds the head of the initialization data: takes the memory of all the
/// structures from the allocators and notes where each of them lies.
///
/// Fails with `EINVAL` when the alignment is zero, and with `ENOMEM` when
/// one of the allocators has no room; nothing is taken then.
pub fn build(alloc: &mut KernelAllocators, sz: &ObjectSizes, uat_oas: usize, later_layout: bool)
    -> (r: Result<InitData>)
    requires
        old(alloc).wf(),
        uat_oas <= MAX_ADDRESS_BITS,
    ensures
        final(alloc).wf(),
        final(alloc).same_windows(old(alloc)),
        r is Ok <==> spec_layout_fits(*old(alloc), *sz),
        r matches Ok(d) ==> init_data_matches(d, *old(alloc), *sz, uat_oas, later_layout),
        r matches Err(e) ==> final(alloc).same_marks(old(alloc)) && e == (if sz.align == 0 {
            Error::EINVAL
        } else {
            Error::ENOMEM
        }),
{
    if sz.align == 0 {
        return Err(Error::EINVAL);
    }
    let private_sizes: [u64; 11] = [
        sz.hwdata_a,
        sz.hwdata_b,
        sz.stats_vtx,
        sz.stats_frag,
        sz.stats_comp,
        0x80,
        0xc0,
        0x1000,
        0x300,
        0x1000,
        sz.runtime_pointers,
    ];
    let shared_sizes: [u64; 2] = [sz.globals, sz.fw_status];
    let shared_ro_sizes: [u64; 2] = [UNK_BUF_SIZE, sz.init_data];
    assert(private_sizes@ =~= spec_private_sizes(*sz));
    assert(shared_sizes@ =~= spec_shared_sizes(*sz));
    assert(shared_ro_sizes@ =~= spec_shared_ro_sizes(*sz));
    let private_mark: u64 = alloc.private.mark();
    let shared_ro_mark: u64 = alloc.shared_ro.mark();
    let gpu_mark: u64 = alloc.gpu.mark();
    let ro = match alloc.shared_ro.allocate_all(shared_ro_sizes.as_slice(), sz.align) {
        Ok(v) => v,
        Err(_) => {
            return Err(Error::ENOMEM);
        },
    };
    let private = match alloc.private.allocate_all(private_sizes.as_slice(), sz.align) {
        Ok(v) => v,
        Err(_) => {
            alloc.shared_ro.release_to(shared_ro_mark);
            return Err(Error::ENOMEM);
        },
    };
    let ctl_size: u64 = BUFFER_MGR_SLOTS * (sz.buffer_mgr_ctl as u64);
    let ctl = match alloc.gpu.allocate(ctl_size, sz.align) {
        Ok(a) => a,
        Err(_) => {
            alloc.shared_ro.release_to(shared_ro_mark);
            alloc.private.release_to(private_mark);
            return Err(Error::ENOMEM);
        },
    };
    let shared = match alloc.shared.allocate_all(shared_sizes.as_slice(), sz.align) {
        Ok(v) => v,
        Err(_) => {
            alloc.shared_ro.release_to(shared_ro_mark);
            alloc.private.release_to(private_mark);
            alloc.gpu.release_to(gpu_mark);
            return Err(Error::ENOMEM);
        },
    };
    let pointers = RuntimePointers {
        stats_vtx: private[2].gpu_ptr,
        stats_frag: private[3].gpu_ptr,
        stats_comp: private[4].gpu_ptr,
        hwdata_a: private[0].gpu_ptr,
        unkptr_190: private[5].gpu_ptr,
        unkptr_198: private[6].gpu_ptr,
        hwdata_b: private[1].gpu_ptr,
        hwdata_b_2: private[1].gpu_ptr,
        unkptr_1b8: private[7].gpu_ptr,
        unkptr_1c0: private[8].gpu_ptr,
        unkptr_1c8: private[9].gpu_ptr,
        buffer_mgr_ctl: ctl.gpu_ptr,
        buffer_mgr_ctl_2: ctl.gpu_ptr,
        unk_6b38: 0xff,
    };
    let mut levels: Vec<UatLevelInfo> = Vec::new();
    levels.push(uat_level_info(uat_oas, 36, 8));
    levels.push(uat_level_info(uat_oas, 25, 2048));
    levels.push(uat_level_info(uat_oas, 14, 2048));
    assert(levels@ =~= spec_uat_levels(uat_oas));
    Ok(
        InitData {
            ver_info: if later_layout {
                Some((1, 1, 16, 1))
            } else {
                None
            },
            unk_buf: ro[0].gpu_ptr,
            runtime_pointers: private[10].gpu_ptr,
            globals: shared[0].gpu_ptr,
            fw_status: shared[1].gpu_ptr,
            uat_page_size: 0x4000,
            uat_page_bits: 14,
            uat_num_levels: 3,
            uat_level_info: levels,
            host_mapped_fw_allocations: 1,
            pointers,
        },
    )
}

} // verus!
