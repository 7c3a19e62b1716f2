//! Per-SoC hardware configuration structures.
//!
//! This module contains the definitions used to store per-GPU and per-SoC
//! configuration data. Floating point values are carried as their bit
//! patterns and never computed with here.

use crate::error::{Error, Result};
use vstd::prelude::*;

verus! {

/// Largest number of power zones.
pub const MAX_POWERZONES: usize = 5;

/// GPU generation enumeration. Note: Part of the UABI.
#[derive(Clone, Copy, Debug, PartialEq, Eq, Structural)]
pub enum GpuGen {
    G13,
    G14,
}

/// GPU variant enumeration. Note: Part of the UABI.
#[derive(Clone, Copy, Debug, PartialEq, Eq, Structural)]
pub enum GpuVariant {
    P,
    G,
    S,
    C,
    D,
}

/// GPU revision enumeration. Note: Part of the UABI.
#[derive(Clone, Copy, Debug, PartialEq, Eq, Structural)]
pub enum GpuRevision {
    A0,
    A1,
    B0,
    B1,
    C0,
    C1,
}

/// GPU core type enumeration. Note: Part of the firmware ABI.
#[derive(Clone, Copy, Debug, PartialEq, Eq, Structural)]
pub enum GpuCore {
    G13G,
    G13S,
    G13C,
    G14G,
}

/// GPU revision ID. Note: Part of the firmware ABI.
#[derive(Clone, Copy, Debug, PartialEq, Eq, Structural)]
pub enum GpuRevisionID {
    A0,
    A1,
    B0,
    B1,
    C0,
    C1,
}

impl GpuGen {
    /// Returns the number of the generation.
    pub fn to_u32(self) -> (r: u32)
        ensures
            r == (match self {
                GpuGen::G13 => 13u32,
                GpuGen::G14 => 14u32,
            }),
    {
        match self {
            GpuGen::G13 => 13,
            GpuGen::G14 => 14,
        }
    }
}

impl GpuVariant {
    /// Returns the letter of the variant as its character code.
    pub fn to_u32(self) -> (r: u32)
        ensures
            r == (match self {
                GpuVariant::P => 80u32,
                GpuVariant::G => 71u32,
                GpuVariant::S => 83u32,
                GpuVariant::C => 67u32,
                GpuVariant::D => 68u32,
            }),
    {
        match self {
            GpuVariant::P => 80,
            GpuVariant::G => 71,
            GpuVariant::S => 83,
            GpuVariant::C => 67,
            GpuVariant::D => 68,
        }
    }
}

impl GpuRevision {
    /// Returns the revision as the hardware numbers it: the letter in the
    /// high and the digit in the low four bits.
    pub fn to_u32(self) -> (r: u32)
        ensures
            r == (match self {
                GpuRevision::A0 => 0x00u32,
                GpuRevision::A1 => 0x01u32,
                GpuRevision::B0 => 0x10u32,
                GpuRevision::B1 => 0x11u32,
                GpuRevision::C0 => 0x20u32,
                GpuRevision::C1 => 0x21u32,
            }),
    {
        match self {
            GpuRevision::A0 => 0x00,
            GpuRevision::A1 => 0x01,
            GpuRevision::B0 => 0x10,
            GpuRevision::B1 => 0x11,
            GpuRevision::C0 => 0x20,
            GpuRevision::C1 => 0x21,
        }
    }
}

impl GpuCore {
    /// The number that the firmware knows the core type by.
    pub open spec fn spec_to_u32(self) -> u32 {
        match self {
            GpuCore::G13G => 11u32,
            GpuCore::G13S => 12u32,
            GpuCore::G13C => 13u32,
            GpuCore::G14G => 15u32,
        }
    }

    /// Returns the number that the firmware knows the core type by.
    pub fn to_u32(self) -> (r: u32)
        ensures
            r == self.spec_to_u32(),
    {
        match self {
            GpuCore::G13G => 11,
            GpuCore::G13S => 12,
            GpuCore::G13C => 13,
            GpuCore::G14G => 15,
        }
    }
}

impl GpuRevisionID {
    /// The number that the firmware knows the revision by.
    pub open spec fn spec_to_u32(self) -> u32 {
        match self {
            GpuRevisionID::A0 => 1u32,
            GpuRevisionID::A1 => 2u32,
            GpuRevisionID::B0 => 3u32,
            GpuRevisionID::B1 => 4u32,
            GpuRevisionID::C0 => 5u32,
            GpuRevisionID::C1 => 6u32,
        }
    }

    /// Returns the number that the firmware knows the revision by.
    pub fn to_u32(self) -> (r: u32)
        ensures
            r == self.spec_to_u32(),
    {
        match self {
            GpuRevisionID::A0 => 1,
            GpuRevisionID::A1 => 2,
            GpuRevisionID::B0 => 3,
            GpuRevisionID::B1 => 4,
            GpuRevisionID::C0 => 5,
            GpuRevisionID::C1 => 6,
        }
    }
}

/// The bit pattern of a 32-bit floating point number.
#[derive(Clone, Copy, Debug, PartialEq, Eq, Structural)]
pub struct F32(pub u32);

/// The firmware that a GPU manager speaks to.
#[derive(Clone, Copy, Debug, PartialEq, Eq, Structural)]
pub enum GpuManagerKind {
    G13V12_3,
    G14V12_4,
    G13V13_5,
    G14V13_5,
    G14XV13_5,
}

/// The GPU manager for a GPU of the given generation and variant with a
/// firmware of the given compatibility version, if the combination is
/// supported.
pub open spec fn spec_gpu_manager(generation: GpuGen, variant: GpuVariant, compat: Seq<u32>)
    -> Option<GpuManagerKind> {
    if compat.len() != 3 {
        None
    } else if generation == GpuGen::G13 && compat[0] == 12 && compat[1] == 3 && compat[2] == 0 {
        Some(GpuManagerKind::G13V12_3)
    } else if generation == GpuGen::G14 && variant == GpuVariant::G && compat[0] == 12 && compat[1]
        == 4 && compat[2] == 0 {
        Some(GpuManagerKind::G14V12_4)
    } else if generation == GpuGen::G13 && compat[0] == 13 && compat[1] == 5 && compat[2] == 0 {
        Some(GpuManagerKind::G13V13_5)
    } else if generation == GpuGen::G14 && variant == GpuVariant::G && compat[0] == 13 && compat[1]
        == 5 && compat[2] == 0 {
        Some(GpuManagerKind::G14V13_5)
    } else if generation == GpuGen::G14 && compat[0] == 13 && compat[1] == 5 && compat[2] == 0 {
        Some(GpuManagerKind::G14XV13_5)
    } else {
        None
    }
}

/// Selects the GPU manager at device probe.
///
/// Fails with `ENODEV` when the combination of GPU and firmware is not
/// supported.
pub fn select_gpu_manager(generation: GpuGen, variant: GpuVariant, compat: &[u32]) -> (r: Result<
    GpuManagerKind,
>)
    ensures
        r is Ok <==> spec_gpu_manager(generation, variant, compat@) is Some,
        r matches Ok(k) ==> Some(k) == spec_gpu_manager(generation, variant, compat@),
        r matches Err(e) ==> e == Error::ENODEV,
{
    if compat.len() != 3 {
        return Err(Error::ENODEV);
    }
    let is_g13 = match generation {
        GpuGen::G13 => true,
        GpuGen::G14 => false,
    };
    let is_g = match variant {
        GpuVariant::G => true,
        _ => false,
    };
    let v12_3 = compat[0] == 12 && compat[1] == 3 && compat[2] == 0;
    let v12_4 = compat[0] == 12 && compat[1] == 4 && compat[2] == 0;
    let v13_5 = compat[0] == 13 && compat[1] == 5 && compat[2] == 0;
    if is_g13 && v12_3 {
        Ok(GpuManagerKind::G13V12_3)
    } else if !is_g13 && is_g && v12_4 {
        Ok(GpuManagerKind::G14V12_4)
    } else if is_g13 && v13_5 {
        Ok(GpuManagerKind::G13V13_5)
    } else if !is_g13 && is_g && v13_5 {
        Ok(GpuManagerKind::G14V13_5)
    } else if !is_g13 && v13_5 {
        Ok(GpuManagerKind::G14XV13_5)
    } else {
        Err(Error::ENODEV)
    }
}

/// The mask of the addresses that a device with `oas` output address bits
/// can reach.
pub fn dma_mask(oas: usize) -> (r: u64)
    requires
        oas <= crate::mmu::pgtable::MAX_ADDRESS_BITS,
    ensures
        r == vstd::arithmetic::power2::pow2(oas as nat) - 1,
{
    proof {
        vstd::arithmetic::power2::lemma_pow2_pos(oas as nat);
    }
    crate::mmu::pgtable::address_limit(oas) - 1
}

/// A single performance state of the GPU.
#[derive(Debug)]
pub struct PState {
    /// Voltage in millivolts, per GPU cluster.
    pub volt_mv: Vec<u32>,
    /// Frequency in hertz.
    pub freq_hz: u32,
    /// Maximum power consumption of the GPU at this pstate, in milliwatts.
    pub pwr_mw: u32,
}

/// A power zone definition.
#[derive(Clone, Copy, Debug, PartialEq, Eq, Structural)]
pub struct PowerZone {
    pub target: u32,
    pub target_offset: u32,
    pub filter_tc: u32,
}

/// An MMIO mapping used by the firmware.
#[derive(Clone, Copy, Debug, PartialEq, Eq, Structural)]
pub struct IOMapping {
    /// Base physical address of the mapping.
    pub base: usize,
    /// Size of the mapping.
    pub size: usize,
    /// Range size of the mapping (for arrays?)
    pub range_size: usize,
    /// Whether the mapping should be writable.
    pub writable: bool,
}

impl IOMapping {
    /// Convenience constructor for a new IOMapping.
    pub fn new(base: usize, size: usize, range_size: usize, writable: bool) -> (r: IOMapping)
        ensures
            r == (IOMapping { base, size, range_size, writable }),
    {
        IOMapping { base, size, range_size, writable }
    }
}

/// Values of unknown meaning in the first hardware data structure.
#[derive(Clone, Copy, Debug, PartialEq, Eq, Structural)]
pub struct HwConfigA {
    pub unk_87c: i32,
    pub unk_8cc: u32,
    pub unk_e24: u32,
}

/// Values of unknown meaning in the second hardware data structure.
#[derive(Clone, Copy, Debug, PartialEq, Eq, Structural)]
pub struct HwConfigB {
    pub unk_4e0: u64,
    pub unk_534: u32,
    pub unk_ab8: u32,
    pub unk_abc: u32,
    pub unk_b30: u32,
}

/// Static hardware configuration for a given SoC model.
#[derive(Debug)]
pub struct HwConfig {
    /// Chip ID in hex format (e.g. 0x8103 for t8103).
    pub chip_id: u32,
    /// GPU core type.
    pub gpu_core: GpuCore,
    /// Base clock used used for timekeeping.
    pub base_clock_hz: u32,
    /// Output address space for the UAT on this SoC.
    pub uat_oas: usize,
    /// Maximum number of clusters on this SoC.
    pub max_num_clusters: u32,
    /// Values for the first hardware data structure.
    pub da: HwConfigA,
    /// Values for the second hardware data structure.
    pub db: HwConfigB,
    /// Table of the first shared structure.
    pub shared1_tab: Vec<i32>,
    /// A value of the first shared structure.
    pub shared1_a4: u32,
    /// Table of the second shared structure.
    pub shared2_tab: Vec<i32>,
    /// A value of the second shared structure.
    pub shared2_unk_508: u32,
    /// Constant related to SRAM voltages.
    pub sram_k: F32,
    /// Table of the global structure, if the chip has one.
    pub global_tab: Option<Vec<u8>>,
    /// Temperature sensor list (8 bits per sensor).
    pub fast_die0_sensor_mask: u64,
    /// Temperature sensor list (alternate).
    pub fast_die0_sensor_mask_alt: u64,
    /// Temperature sensor present bitmask.
    pub fast_die0_sensor_present: u32,
}

/// What identifies a GPU and its layout, as found at runtime.
#[derive(Clone, Copy, Debug, PartialEq, Eq, Structural)]
pub struct GpuIdConfig {
    /// GPU revision ID encoded for the firmware.
    pub gpu_rev_id: GpuRevisionID,
    /// Number of clusters.
    pub num_clusters: u32,
    /// Number of cores per cluster.
    pub num_cores: u32,
    /// Number of fragment processors per cluster.
    pub num_frags: u32,
}

/// The power configuration that the device tree gives as whole numbers.
#[derive(Clone, Copy, Debug, PartialEq, Eq, Structural)]
pub struct PwrConfig {
    /// Minimum voltage for the SRAM power domain in microvolts.
    pub min_sram_microvolt: u32,
    /// Average power filter time constant in milliseconds.
    pub avg_power_filter_tc_ms: u32,
    /// Average power minimum duty cycle.
    pub avg_power_min_duty_cycle: u32,
    /// Average power target filter time constant in periods.
    pub avg_power_target_filter_tc: u32,
    /// Target delta of the proportional part for the first die.
    pub fast_die0_prop_tgt_delta: u32,
    /// Temperature at which the first die is released.
    pub fast_die0_release_temp: u32,
    /// Delay from the fender going idle to power off, in milliseconds.
    pub fender_idle_off_delay_ms: u32,
    /// Timeout of an early wake of the firmware, in milliseconds.
    pub fw_early_wake_timeout_ms: u32,
    /// Delay from idle to power off, in milliseconds.
    pub idle_off_delay_ms: u32,
    /// Step of a performance boost.
    pub perf_boost_ce_step: u32,
    /// Least utilisation for a performance boost.
    pub perf_boost_min_util: u32,
    /// Threshold under which the performance filter drops.
    pub perf_filter_drop_threshold: u32,
    /// Performance filter time constant.
    pub perf_filter_time_constant: u32,
    /// Second performance filter time constant.
    pub perf_filter_time_constant2: u32,
    /// Lower clamp of the performance integral.
    pub perf_integral_min_clamp: u32,
    /// Iterations after which the performance loop is reset.
    pub perf_reset_iters: u32,
    /// Target utilisation.
    pub perf_tgt_utilization: u32,
    /// Power sample period in milliseconds.
    pub power_sample_period: u32,
    /// Filter time constant of the power manager in milliseconds.
    pub ppm_filter_time_constant_ms: u32,
    /// Power filter time constant.
    pub pwr_filter_time_constant: u32,
    /// Lower clamp of the power integral.
    pub pwr_integral_min_clamp: u32,
    /// Minimum duty cycle of the power loop.
    pub pwr_min_duty_cycle: u32,
}

/// One operating point as the device tree describes it.
#[derive(Debug)]
pub struct OperatingPoint {
    /// Frequency in hertz.
    pub freq_hz: u64,
    /// Voltage in microvolts, per GPU cluster.
    pub volt_uv: Vec<u32>,
    /// Power in microwatts.
    pub pwr_uw: u32,
}

/// The power states and limits of a GPU, from its operating points.
#[derive(Debug)]
pub struct PerfStates {
    /// GPU performance state list.
    pub perf_states: Vec<PState>,
    /// Maximum total power of the GPU in milliwatts.
    pub max_power_mw: u32,
    /// Maximum frequency of the GPU in megahertz.
    pub max_freq_mhz: u32,
    /// Minimum performance state to start at.
    pub perf_base_pstate: u32,
    /// Maximum enabled performance state.
    pub perf_max_pstate: u32,
}

/// The larger of the powers of the first `n` operating points, in
/// milliwatts.
pub open spec fn spec_max_power(opps: Seq<OperatingPoint>, n: int) -> int
    decreases n,
{
    if n <= 0 {
        0
    } else {
        let rest = spec_max_power(opps, n - 1);
        let p = opps[n - 1].pwr_uw / 1000;
        if p > rest {
            p as int
        } else {
            rest
        }
    }
}

/// The larger of the frequencies of the first `n` operating points, in
/// megahertz.
pub open spec fn spec_max_freq(opps: Seq<OperatingPoint>, n: int) -> int
    decreases n,
{
    if n <= 0 {
        0
    } else {
        let rest = spec_max_freq(opps, n - 1);
        let f = opps[n - 1].freq_hz / 1_000_000;
        if f > rest {
            f as int
        } else {
            rest
        }
    }
}

/// Whether the operating points are such that power states can be made of
/// them: there is one, each names a voltage for each cluster, and each
/// frequency fits 32 bits.
pub open spec fn opps_valid(opps: Seq<OperatingPoint>, num_clusters: u32) -> bool {
    &&& opps.len() > 0
    &&& opps.len() <= u32::MAX
    &&& forall|i: int|
        0 <= i < opps.len() ==> (#[trigger] opps[i]).volt_uv@.len() == num_clusters
            && opps[i].freq_hz <= u32::MAX
}

/// The power state for an operating point: the voltages in millivolts, the
/// frequency in hertz, the power in milliwatts.
pub open spec fn pstate_matches(ps: PState, opp: OperatingPoint) -> bool {
    &&& ps.freq_hz == opp.freq_hz
    &&& ps.pwr_mw == opp.pwr_uw / 1000
    &&& ps.volt_mv@.len() == opp.volt_uv@.len()
    &&& forall|j: int|
        0 <= j < ps.volt_mv@.len() ==> #[trigger] ps.volt_mv@[j] == opp.volt_uv@[j] / 1000
}

/// Whether `p` holds the power states for the operating points: a state
/// for each point, the largest power and the largest frequency of them, the
/// state to start at, and the last state as the highest.
pub open spec fn perf_states_match(p: PerfStates, opps: Seq<OperatingPoint>, perf_base_pstate: u32)
    -> bool {
    &&& p.perf_states@.len() == opps.len()
    &&& forall|i: int| 0 <= i < opps.len() ==> pstate_matches(#[trigger] p.perf_states@[i], opps[i])
    &&& p.max_power_mw == spec_max_power(opps, opps.len() as int)
    &&& p.max_freq_mhz == spec_max_freq(opps, opps.len() as int)
    &&& p.perf_base_pstate == perf_base_pstate
    &&& p.perf_max_pstate == opps.len() - 1
}

impl PerfStates {
    /// Makes the power states of a GPU with `num_clusters` clusters from
    /// its operating points. `perf_base_pstate` is the state to start at.
    ///
    /// Fails with `EINVAL` when there is no operating point, one does not
    /// name a voltage for each cluster, or a frequency does not fit 32
    /// bits.
    pub fn load(opps: &Vec<OperatingPoint>, num_clusters: u32, perf_base_pstate: u32) -> (r: Result<
        PerfStates,
    >)
        ensures
            r is Ok <==> opps_valid(opps@, num_clusters),
            r matches Ok(p) ==> perf_states_match(p, opps@, perf_base_pstate),
            r matches Err(e) ==> e == Error::EINVAL,
    {
        let n: usize = opps.len();
        if n == 0 || n > u32::MAX as usize {
            return Err(Error::EINVAL);
        }
        let mut perf_states: Vec<PState> = Vec::new();
        let mut max_power_mw: u32 = 0;
        let mut max_freq_mhz: u32 = 0;
        let mut i: usize = 0;
        while i < n
            invariant
                i <= n,
                n == opps@.len(),
                perf_states@.len() == i,
                forall|k: int|
                    0 <= k < i ==> (#[trigger] opps@[k]).volt_uv@.len() == num_clusters
                        && opps@[k].freq_hz <= u32::MAX,
                forall|k: int|
                    0 <= k < i ==> pstate_matches(#[trigger] perf_states@[k], opps@[k]),
                max_power_mw == spec_max_power(opps@, i as int),
                max_freq_mhz == spec_max_freq(opps@, i as int),
            decreases n - i,
        {
            let opp = &opps[i];
            if opp.volt_uv.len() != num_clusters as usize {
                return Err(Error::EINVAL);
            }
            if opp.freq_hz > u32::MAX as u64 {
                return Err(Error::EINVAL);
            }
            let mut volt_mv: Vec<u32> = Vec::new();
            let mut j: usize = 0;
            while j < opp.volt_uv.len()
                invariant
                    j <= opp.volt_uv@.len(),
                    volt_mv@.len() == j,
                    forall|k: int| 0 <= k < j ==> #[trigger] volt_mv@[k] == opp.volt_uv@[k] / 1000,
                decreases opp.volt_uv@.len() - j,
            {
                volt_mv.push(opp.volt_uv[j] / 1000);
                j = j + 1;
            }
            let pwr_mw: u32 = opp.pwr_uw / 1000;
            if pwr_mw > max_power_mw {
                max_power_mw = pwr_mw;
            }
            let freq_mhz: u32 = (opp.freq_hz / 1_000_000) as u32;
            if freq_mhz > max_freq_mhz {
                max_freq_mhz = freq_mhz;
            }
            perf_states.push(PState { freq_hz: opp.freq_hz as u32, volt_mv, pwr_mw });
            i = i + 1;
        }
        Ok(
            PerfStates {
                perf_states,
                max_power_mw,
                max_freq_mhz,
                perf_base_pstate,
                perf_max_pstate: (n - 1) as u32,
            },
        )
    }

    /// Returns the frequency of the state to start at, in kilohertz.
    pub fn min_frequency_khz(&self) -> (r: u32)
        requires
            self.perf_base_pstate < self.perf_states@.len(),
        ensures
            r == self.perf_states@[self.perf_base_pstate as int].freq_hz / 1000,
    {
        self.perf_states[self.perf_base_pstate as usize].freq_hz / 1000
    }

    /// Returns the frequency of the highest state, in kilohertz.
    pub fn max_frequency_khz(&self) -> (r: u32)
        requires
            self.perf_max_pstate < self.perf_states@.len(),
        ensures
            r == self.perf_states@[self.perf_max_pstate as int].freq_hz / 1000,
    {
        self.perf_states[self.perf_max_pstate as usize].freq_hz / 1000
    }
}

/// The first `n` power zones among the words of the power zone property. A
/// zone takes three words: its target, the offset of its target, and its
/// filter time constant.
pub open spec fn spec_power_zones(pz_data: Seq<u32>, n: int) -> Seq<PowerZone>
    decreases n,
{
    if n <= 0 {
        Seq::empty()
    } else {
        spec_power_zones(pz_data, n - 1).push(
            PowerZone {
                target: pz_data[3 * (n - 1)],
                target_offset: pz_data[3 * (n - 1) + 1],
                filter_tc: pz_data[3 * (n - 1) + 2],
            },
        )
    }
}

/// How many power zones are taken from a property that describes `count`
/// of them: every third, counting from the first.
pub open spec fn spec_power_zone_count(count: int) -> int {
    (count + 2) / 3
}

/// Reads the power zones out of the words of the power zone property.
///
/// Fails with `EINVAL` when the property has more than `MAX_POWERZONES`
/// zones or a number of words that is not a multiple of three. The walk
/// over the zones advances by three, so that of up to three zones the
/// first is taken, and of four or five the first two.
pub fn load_power_zones(pz_data: &[u32]) -> (r: Result<Vec<PowerZone>>)
    ensures
        r is Ok <==> pz_data@.len() <= 3 * MAX_POWERZONES && pz_data@.len() % 3 == 0,
        r matches Ok(z) ==> z@ == spec_power_zones(
            pz_data@,
            spec_power_zone_count(pz_data@.len() as int / 3),
        ),
        r matches Err(e) ==> e == Error::EINVAL,
{
    if pz_data.len() > 3 * MAX_POWERZONES || pz_data.len() % 3 != 0 {
        return Err(Error::EINVAL);
    }
    let pz_count: usize = pz_data.len() / 3;
    let mut power_zones: Vec<PowerZone> = Vec::new();
    let mut i: usize = 0;
    while i < pz_count
        invariant
            i % 3 == 0,
            i <= pz_count + 2,
            pz_count <= MAX_POWERZONES,
            pz_count * 3 == pz_data@.len(),
            power_zones@ == spec_power_zones(pz_data@, i as int / 3),
            i >= pz_count ==> i as int / 3 == spec_power_zone_count(pz_count as int),
        decreases pz_count + 3 - i,
    {
        power_zones.push(
            PowerZone {
                target: pz_data[i],
                target_offset: pz_data[i + 1],
                filter_tc: pz_data[i + 2],
            },
        );
        i = i + 3;
    }
    Ok(power_zones)
}

/// The gains of the control loops, as bits of floating point numbers.
#[derive(Clone, Copy, Debug, PartialEq, Eq, Structural)]
pub struct PwrGains {
    pub avg_power_ki_only: F32,
    pub avg_power_kp: F32,
    pub fast_die0_integral_gain: F32,
    pub fast_die0_proportional_gain: F32,
    pub perf_integral_gain: F32,
    pub perf_integral_gain2: F32,
    pub perf_proportional_gain: F32,
    pub perf_proportional_gain2: F32,
    pub ppm_ki: F32,
    pub ppm_kp: F32,
    pub pwr_integral_gain: F32,
    pub pwr_proportional_gain: F32,
}

/// The power properties of the device tree: those that have to be there
/// as they are, and those that may be missing as options.
#[derive(Clone, Copy, Debug, PartialEq, Eq, Structural)]
pub struct PwrProps {
    pub min_sram_microvolt: u32,
    pub avg_power_filter_tc_ms: u32,
    pub avg_power_ki_only: F32,
    pub avg_power_kp: F32,
    pub avg_power_min_duty_cycle: u32,
    pub avg_power_target_filter_tc: u32,
    pub fast_die0_integral_gain: F32,
    pub fast_die0_proportional_gain: F32,
    pub perf_filter_drop_threshold: u32,
    pub perf_filter_time_constant2: u32,
    pub perf_filter_time_constant: u32,
    pub perf_integral_gain2: F32,
    pub perf_integral_min_clamp: u32,
    pub perf_proportional_gain2: F32,
    pub perf_tgt_utilization: u32,
    pub power_sample_period: u32,
    pub ppm_filter_time_constant_ms: u32,
    pub ppm_ki: F32,
    pub ppm_kp: F32,
    pub pwr_min_duty_cycle: u32,
    pub perf_base_pstate: Option<u32>,
    pub fast_die0_prop_tgt_delta: Option<u32>,
    pub fast_die0_release_temp: Option<u32>,
    pub fender_idle_off_delay_ms: Option<u32>,
    pub fw_early_wake_timeout_ms: Option<u32>,
    pub idle_off_delay_ms: Option<u32>,
    pub perf_boost_ce_step: Option<u32>,
    pub perf_boost_min_util: Option<u32>,
    pub perf_integral_gain: Option<F32>,
    pub perf_proportional_gain: Option<F32>,
    pub perf_reset_iters: Option<u32>,
    pub pwr_filter_time_constant: Option<u32>,
    pub pwr_integral_gain: Option<F32>,
    pub pwr_integral_min_clamp: Option<u32>,
    pub pwr_proportional_gain: Option<F32>,
}

/// The performance integral gain of a device tree that names none: the
/// bits of 7.8956833.
pub const DEFAULT_PERF_INTEGRAL_GAIN: u32 = 0x40fca970;

/// The performance proportional gain of a device tree that names none: the
/// bits of 14.707963.
pub const DEFAULT_PERF_PROPORTIONAL_GAIN: u32 = 0x416b53d1;

/// The power integral gain of a device tree that names none: the bits of
/// 0.0202129.
pub const DEFAULT_PWR_INTEGRAL_GAIN: u32 = 0x3ca59586;

/// The power proportional gain of a device tree that names none: the bits
/// of 5.2831855.
pub const DEFAULT_PWR_PROPORTIONAL_GAIN: u32 = 0x40a90fdb;

/// A property, or its default where the device tree does not name it.
pub open spec fn spec_or(value: Option<u32>, default: u32) -> u32 {
    match value {
        Some(v) => v,
        None => default,
    }
}

/// A gain, or its default where the device tree does not name it.
pub open spec fn spec_gain_or(value: Option<F32>, default: u32) -> F32 {
    match value {
        Some(v) => v,
        None => F32(default),
    }
}

/// The power configuration for the properties of a device tree.
pub open spec fn spec_pwr_config(props: PwrProps) -> PwrConfig {
    PwrConfig {
        min_sram_microvolt: props.min_sram_microvolt,
        avg_power_filter_tc_ms: props.avg_power_filter_tc_ms,
        avg_power_min_duty_cycle: props.avg_power_min_duty_cycle,
        avg_power_target_filter_tc: props.avg_power_target_filter_tc,
        fast_die0_prop_tgt_delta: spec_or(props.fast_die0_prop_tgt_delta, 0),
        fast_die0_release_temp: spec_or(props.fast_die0_release_temp, 80),
        fender_idle_off_delay_ms: spec_or(props.fender_idle_off_delay_ms, 40),
        fw_early_wake_timeout_ms: spec_or(props.fw_early_wake_timeout_ms, 5),
        idle_off_delay_ms: spec_or(props.idle_off_delay_ms, 2),
        perf_boost_ce_step: spec_or(props.perf_boost_ce_step, 25),
        perf_boost_min_util: spec_or(props.perf_boost_min_util, 100),
        perf_filter_drop_threshold: props.perf_filter_drop_threshold,
        perf_filter_time_constant: props.perf_filter_time_constant,
        perf_filter_time_constant2: props.perf_filter_time_constant2,
        perf_integral_min_clamp: props.perf_integral_min_clamp,
        perf_reset_iters: spec_or(props.perf_reset_iters, 6),
        perf_tgt_utilization: props.perf_tgt_utilization,
        power_sample_period: props.power_sample_period,
        ppm_filter_time_constant_ms: props.ppm_filter_time_constant_ms,
        pwr_filter_time_constant: spec_or(props.pwr_filter_time_constant, 313),
        pwr_integral_min_clamp: spec_or(props.pwr_integral_min_clamp, 0),
        pwr_min_duty_cycle: props.pwr_min_duty_cycle,
    }
}

/// The gains for the properties of a device tree.
pub open spec fn spec_pwr_gains(props: PwrProps) -> PwrGains {
    PwrGains {
        avg_power_ki_only: props.avg_power_ki_only,
        avg_power_kp: props.avg_power_kp,
        fast_die0_integral_gain: props.fast_die0_integral_gain,
        fast_die0_proportional_gain: props.fast_die0_proportional_gain,
        perf_integral_gain: spec_gain_or(props.perf_integral_gain, DEFAULT_PERF_INTEGRAL_GAIN),
        perf_integral_gain2: props.perf_integral_gain2,
        perf_proportional_gain: spec_gain_or(
            props.perf_proportional_gain,
            DEFAULT_PERF_PROPORTIONAL_GAIN,
        ),
        perf_proportional_gain2: props.perf_proportional_gain2,
        ppm_ki: props.ppm_ki,
        ppm_kp: props.ppm_kp,
        pwr_integral_gain: spec_gain_or(props.pwr_integral_gain, DEFAULT_PWR_INTEGRAL_GAIN),
        pwr_proportional_gain: spec_gain_or(
            props.pwr_proportional_gain,
            DEFAULT_PWR_PROPORTIONAL_GAIN,
        ),
    }
}

fn or_default(value: Option<u32>, default: u32) -> (r: u32)
    ensures
        r == spec_or(value, default),
{
    match value {
        Some(v) => v,
        None => default,
    }
}

fn gain_or_default(value: Option<F32>, default: u32) -> (r: F32)
    ensures
        r == spec_gain_or(value, default),
{
    match value {
        Some(v) => v,
        None => F32(default),
    }
}

impl PwrConfig {
    /// Makes the power configuration of the properties, with the default
    /// of each property that the device tree does not name.
    pub fn from_props(props: &PwrProps) -> (r: PwrConfig)
        ensures
            r == spec_pwr_config(*props),
    {
        PwrConfig {
            min_sram_microvolt: props.min_sram_microvolt,
            avg_power_filter_tc_ms: props.avg_power_filter_tc_ms,
            avg_power_min_duty_cycle: props.avg_power_min_duty_cycle,
            avg_power_target_filter_tc: props.avg_power_target_filter_tc,
            fast_die0_prop_tgt_delta: or_default(props.fast_die0_prop_tgt_delta, 0),
            fast_die0_release_temp: or_default(props.fast_die0_release_temp, 80),
            fender_idle_off_delay_ms: or_default(props.fender_idle_off_delay_ms, 40),
            fw_early_wake_timeout_ms: or_default(props.fw_early_wake_timeout_ms, 5),
            idle_off_delay_ms: or_default(props.idle_off_delay_ms, 2),
            perf_boost_ce_step: or_default(props.perf_boost_ce_step, 25),
            perf_boost_min_util: or_default(props.perf_boost_min_util, 100),
            perf_filter_drop_threshold: props.perf_filter_drop_threshold,
            perf_filter_time_constant: props.perf_filter_time_constant,
            perf_filter_time_constant2: props.perf_filter_time_constant2,
            perf_integral_min_clamp: props.perf_integral_min_clamp,
            perf_reset_iters: or_default(props.perf_reset_iters, 6),
            perf_tgt_utilization: props.perf_tgt_utilization,
            power_sample_period: props.power_sample_period,
            ppm_filter_time_constant_ms: props.ppm_filter_time_constant_ms,
            pwr_filter_time_constant: or_default(props.pwr_filter_time_constant, 313),
            pwr_integral_min_clamp: or_default(props.pwr_integral_min_clamp, 0),
            pwr_min_duty_cycle: props.pwr_min_duty_cycle,
        }
    }
}

impl PwrGains {
    /// Makes the gains of the properties, with the default of each gain
    /// that the device tree does not name.
    pub fn from_props(props: &PwrProps) -> (r: PwrGains)
        ensures
            r == spec_pwr_gains(*props),
    {
        PwrGains {
            avg_power_ki_only: props.avg_power_ki_only,
            avg_power_kp: props.avg_power_kp,
            fast_die0_integral_gain: props.fast_die0_integral_gain,
            fast_die0_proportional_gain: props.fast_die0_proportional_gain,
            perf_integral_gain: gain_or_default(
                props.perf_integral_gain,
                DEFAULT_PERF_INTEGRAL_GAIN,
            ),
            perf_integral_gain2: props.perf_integral_gain2,
            perf_proportional_gain: gain_or_default(
                props.perf_proportional_gain,
                DEFAULT_PERF_PROPORTIONAL_GAIN,
            ),
            perf_proportional_gain2: props.perf_proportional_gain2,
            ppm_ki: props.ppm_ki,
            ppm_kp: props.ppm_kp,
            pwr_integral_gain: gain_or_default(props.pwr_integral_gain, DEFAULT_PWR_INTEGRAL_GAIN),
            pwr_proportional_gain: gain_or_default(
                props.pwr_proportional_gain,
                DEFAULT_PWR_PROPORTIONAL_GAIN,
            ),
        }
    }
}

/// The power configuration of a GPU, as loaded from the device tree.
#[derive(Debug)]
pub struct PowerConfig {
    /// The performance states.
    pub perf: PerfStates,
    /// The power zones.
    pub power_zones: Vec<PowerZone>,
    /// Core leakage coefficient per cluster.
    pub core_leak_coef: Vec<F32>,
    /// SRAM leakage coefficient per cluster.
    pub sram_leak_coef: Vec<F32>,
    /// The properties that are whole numbers.
    pub pwr: PwrConfig,
    /// The gains of the control loops.
    pub gains: PwrGains,
}

/// Whether a power configuration can be loaded: the operating points and
/// the power zones are in order, and there is a leakage coefficient of
/// each kind for each cluster.
pub open spec fn power_config_valid(
    opps: Seq<OperatingPoint>,
    pz_data: Seq<u32>,
    core_leak_coef: Seq<F32>,
    sram_leak_coef: Seq<F32>,
    max_num_clusters: u32,
) -> bool {
    &&& opps_valid(opps, max_num_clusters)
    &&& pz_data.len() <= 3 * MAX_POWERZONES
    &&& pz_data.len() % 3 == 0
    &&& core_leak_coef.len() == max_num_clusters
    &&& sram_leak_coef.len() == max_num_clusters
}

impl PowerConfig {
    /// Loads the GPU power configuration from what the device tree holds
    /// for a GPU with at most `max_num_clusters` clusters.
    ///
    /// Fails with `EINVAL` when the operating points or the power zones are
    /// not in order, see `PerfStates::load` and `load_power_zones`, or when
    /// there is not one leakage coefficient of each kind for each cluster.
    pub fn load(
        opps: &Vec<OperatingPoint>,
        pz_data: &[u32],
        core_leak_coef: Vec<F32>,
        sram_leak_coef: Vec<F32>,
        props: &PwrProps,
        max_num_clusters: u32,
    ) -> (r: Result<PowerConfig>)
        ensures
            r is Ok <==> power_config_valid(
                opps@,
                pz_data@,
                core_leak_coef@,
                sram_leak_coef@,
                max_num_clusters,
            ),
            r matches Ok(c) ==> {
                &&& perf_states_match(c.perf, opps@, spec_or(props.perf_base_pstate, 1))
                &&& c.power_zones@ == spec_power_zones(
                    pz_data@,
                    spec_power_zone_count(pz_data@.len() as int / 3),
                )
                &&& c.core_leak_coef@ == core_leak_coef@
                &&& c.sram_leak_coef@ == sram_leak_coef@
                &&& c.pwr == spec_pwr_config(*props)
                &&& c.gains == spec_pwr_gains(*props)
            },
            r matches Err(e) ==> e == Error::EINVAL,
    {
        let perf = match PerfStates::load(
            opps,
            max_num_clusters,
            or_default(props.perf_base_pstate, 1),
        ) {
            Ok(p) => p,
            Err(e) => {
                return Err(e);
            },
        };
        let power_zones = match load_power_zones(pz_data) {
            Ok(z) => z,
            Err(e) => {
                return Err(e);
            },
        };
        if core_leak_coef.len() != max_num_clusters as usize {
            return Err(Error::EINVAL);
        }
        if sram_leak_coef.len() != max_num_clusters as usize {
            return Err(Error::EINVAL);
        }
        Ok(
            PowerConfig {
                perf,
                power_zones,
                core_leak_coef,
                sram_leak_coef,
                pwr: PwrConfig::from_props(props),
                gains: PwrGains::from_props(props),
            },
        )
    }
}

} // verus!
