use asahi::error::Error;
use asahi::heap::{HeapAllocator, HeapConfig};
use asahi::hw::{
    dma_mask, load_power_zones, select_gpu_manager, GpuCore, GpuGen, GpuIdConfig,
    GpuManagerKind, GpuRevision, GpuRevisionID, GpuVariant, HwConfig, HwConfigA, HwConfigB,
    IOMapping, OperatingPoint, PerfStates, PowerConfig, PowerZone, PwrConfig, PwrGains, PwrProps,
    F32,
};
use asahi::initdata::{
    build, check_globals, check_perf_tables, check_power_inputs, check_power_zones,
    check_zone_targets, fw_status,
    global_power_zones, globals, hw_power_zones, hw_shared1, hw_shared2, hw_shared3, hwdata_a,
    hwdata_b, init_curve, uat_level_info, GlobalPowerZone, HwPowerZone, KernelAllocators,
    ObjectSizes, PowerInputs, UatLevelInfo,
};
use asahi::kernel::dma::{coherent_size, CoherentAllocation};
use asahi::kernel::io::Io;
use asahi::kernel::io_mem::{IoMem, IoResource, MapKind, Mem, Resource};
use asahi::kernel::page::{page_align, Page};
use asahi::kernel::time::{ktime_ms_delta, Clock, Instant, KernelTime, Ktime, Monotonic, Now};

fn opp(freq_hz: u64, volt_uv: u32, pwr_uw: u32) -> OperatingPoint {
    OperatingPoint {
        freq_hz,
        volt_uv: vec![volt_uv],
        pwr_uw,
    }
}

fn perf() -> PerfStates {
    let opps = vec![
        opp(0, 400_000, 0),
        opp(396_000_000, 603_000, 19_551),
        opp(528_000_000, 640_500, 2_844_100),
        opp(1_278_000_000, 920_000, 7_613_999),
    ];
    PerfStates::load(&opps, 1, 1).unwrap()
}

fn pwr() -> PwrConfig {
    PwrConfig {
        min_sram_microvolt: 850_000,
        avg_power_filter_tc_ms: 1_000,
        avg_power_min_duty_cycle: 40,
        avg_power_target_filter_tc: 125,
        fast_die0_prop_tgt_delta: 3,
        fast_die0_release_temp: 80,
        fender_idle_off_delay_ms: 40,
        fw_early_wake_timeout_ms: 5,
        idle_off_delay_ms: 2,
        perf_boost_ce_step: 25,
        perf_boost_min_util: 100,
        perf_filter_drop_threshold: 0,
        perf_filter_time_constant: 5,
        perf_filter_time_constant2: 50,
        perf_integral_min_clamp: 0,
        perf_reset_iters: 6,
        perf_tgt_utilization: 85,
        power_sample_period: 8,
        ppm_filter_time_constant_ms: 100,
        pwr_filter_time_constant: 313,
        pwr_integral_min_clamp: 0,
        pwr_min_duty_cycle: 40,
    }
}

fn inputs(later_layout: bool) -> PowerInputs {
    PowerInputs {
        chip_id: 0x8103,
        base_clock_hz: 24_000_000,
        later_layout,
        perf_base_pstate: 1,
        perf_max_pstate: 3,
        max_power_mw: 7_613,
        max_freq_mhz: 1_278,
        fast_die0_sensor_mask: 0x12,
        fast_die0_sensor_mask_alt: 0x13,
        fast_die0_sensor_present: 0x14,
        unk_87c: -220,
        unk_8cc: 9880,
        unk_e24: 112,
    }
}

fn hw_config() -> HwConfig {
    HwConfig {
        chip_id: 0x8103,
        gpu_core: GpuCore::G13G,
        base_clock_hz: 24_000_000,
        uat_oas: 40,
        max_num_clusters: 1,
        da: HwConfigA {
            unk_87c: -220,
            unk_8cc: 9880,
            unk_e24: 112,
        },
        db: HwConfigB {
            unk_4e0: 0,
            unk_534: 0,
            unk_ab8: 0x48,
            unk_abc: 0x8,
            unk_b30: 0,
        },
        shared1_tab: vec![-1, 0x7282, 0x50ea],
        shared1_a4: 0xffff,
        shared2_tab: vec![0x800, 0x1555],
        shared2_unk_508: 0xc0007,
        sram_k: F32(0x3f800000),
        global_tab: None,
        fast_die0_sensor_mask: 0x12,
        fast_die0_sensor_mask_alt: 0x13,
        fast_die0_sensor_present: 0x14,
    }
}

fn heap(start: u64, end: u64) -> HeapAllocator {
    HeapAllocator::new(HeapConfig {
        vm_id: 0,
        iova_range: start..end,
        page_size: 0x4000,
        default_prot: 0,
        chunk_bytes: 0x4000,
        zeroed: true,
    })
    .unwrap()
}

fn allocators() -> KernelAllocators {
    KernelAllocators {
        private: heap(0x100_0000, 0x200_0000),
        shared: heap(0x200_0000, 0x300_0000),
        shared_ro: heap(0x300_0000, 0x400_0000),
        gpu: heap(0x400_0000, 0x500_0000),
    }
}

fn sizes() -> ObjectSizes {
    ObjectSizes {
        align: 0x80,
        hwdata_a: 0x4000,
        hwdata_b: 0xc40,
        stats_vtx: 0x100,
        stats_frag: 0x130,
        stats_comp: 0x90,
        buffer_mgr_ctl: 0x10,
        runtime_pointers: 0x7000,
        globals: 0x12000,
        fw_status: 0x20,
        init_data: 0xc0,
    }
}

#[test]
fn hardware_enumerations_have_their_numbers() {
    assert_eq!(GpuGen::G13.to_u32(), 13);
    assert_eq!(GpuGen::G14.to_u32(), 14);
    assert_eq!(GpuVariant::P.to_u32(), 'P' as u32);
    assert_eq!(GpuVariant::G.to_u32(), 'G' as u32);
    assert_eq!(GpuVariant::S.to_u32(), 'S' as u32);
    assert_eq!(GpuVariant::C.to_u32(), 'C' as u32);
    assert_eq!(GpuVariant::D.to_u32(), 'D' as u32);
    assert_eq!(GpuRevision::A0.to_u32(), 0x00);
    assert_eq!(GpuRevision::B1.to_u32(), 0x11);
    assert_eq!(GpuRevision::C1.to_u32(), 0x21);
    assert_eq!(GpuCore::G13G.to_u32(), 11);
    assert_eq!(GpuCore::G13C.to_u32(), 13);
    assert_eq!(GpuCore::G14G.to_u32(), 15);
    assert_eq!(GpuRevisionID::A0.to_u32(), 1);
    assert_eq!(GpuRevisionID::C1.to_u32(), 6);
    assert_eq!(
        IOMapping::new(0x2_0400_0000, 0x4000, 0x4000, true),
        IOMapping {
            base: 0x2_0400_0000,
            size: 0x4000,
            range_size: 0x4000,
            writable: true
        }
    );
}

#[test]
fn gpu_manager_is_chosen_by_gpu_and_firmware() {
    let cases = [
        (GpuGen::G13, GpuVariant::G, [12, 3, 0], Some(GpuManagerKind::G13V12_3)),
        (GpuGen::G13, GpuVariant::S, [12, 3, 0], Some(GpuManagerKind::G13V12_3)),
        (GpuGen::G14, GpuVariant::G, [12, 4, 0], Some(GpuManagerKind::G14V12_4)),
        (GpuGen::G13, GpuVariant::C, [13, 5, 0], Some(GpuManagerKind::G13V13_5)),
        (GpuGen::G14, GpuVariant::G, [13, 5, 0], Some(GpuManagerKind::G14V13_5)),
        (GpuGen::G14, GpuVariant::S, [13, 5, 0], Some(GpuManagerKind::G14XV13_5)),
        (GpuGen::G14, GpuVariant::D, [13, 5, 0], Some(GpuManagerKind::G14XV13_5)),
        (GpuGen::G14, GpuVariant::S, [12, 4, 0], None),
        (GpuGen::G13, GpuVariant::G, [12, 4, 0], None),
        (GpuGen::G14, GpuVariant::G, [12, 3, 0], None),
        (GpuGen::G13, GpuVariant::G, [13, 5, 1], None),
    ];
    for (generation, variant, compat, want) in cases {
        assert_eq!(
            select_gpu_manager(generation, variant, &compat),
            want.ok_or(Error::ENODEV)
        );
    }
    assert_eq!(
        select_gpu_manager(GpuGen::G13, GpuVariant::G, &[12, 3]),
        Err(Error::ENODEV)
    );
    assert_eq!(
        select_gpu_manager(GpuGen::G13, GpuVariant::G, &[12, 3, 0, 0]),
        Err(Error::ENODEV)
    );
}

#[test]
fn dma_mask_covers_the_output_address() {
    assert_eq!(dma_mask(40), 0xff_ffff_ffff);
    assert_eq!(dma_mask(42), 0x3ff_ffff_ffff);
    assert_eq!(dma_mask(0), 0);
}

#[test]
fn performance_states_come_from_the_operating_points() {
    let p = perf();
    assert_eq!(p.perf_states.len(), 4);
    assert_eq!(p.perf_states[1].freq_hz, 396_000_000);
    assert_eq!(p.perf_states[1].volt_mv, vec![603]);
    assert_eq!(p.perf_states[1].pwr_mw, 19);
    assert_eq!(p.perf_states[2].volt_mv, vec![640]);
    assert_eq!(p.perf_states[3].pwr_mw, 7_613);
    assert_eq!(p.max_power_mw, 7_613);
    assert_eq!(p.max_freq_mhz, 1_278);
    assert_eq!(p.perf_base_pstate, 1);
    assert_eq!(p.perf_max_pstate, 3);
    assert_eq!(p.min_frequency_khz(), 396_000);
    assert_eq!(p.max_frequency_khz(), 1_278_000);
}

#[test]
fn operating_points_are_checked() {
    assert!(matches!(
        PerfStates::load(&Vec::new(), 1, 1),
        Err(Error::EINVAL)
    ));
    let two = vec![OperatingPoint {
        freq_hz: 1,
        volt_uv: vec![1, 2],
        pwr_uw: 0,
    }];
    assert!(matches!(PerfStates::load(&two, 1, 0), Err(Error::EINVAL)));
    assert!(PerfStates::load(&two, 2, 0).is_ok());
    let fast = vec![opp(1 << 32, 1, 1)];
    assert!(matches!(PerfStates::load(&fast, 1, 0), Err(Error::EINVAL)));
    let edge = vec![opp((1 << 32) - 1, 1, 1)];
    assert_eq!(
        PerfStates::load(&edge, 1, 0).unwrap().perf_states[0].freq_hz,
        u32::MAX
    );
}

#[test]
fn power_zones_are_read_from_their_words() {
    assert_eq!(load_power_zones(&[]), Ok(vec![]));
    let zone = |n: u32| PowerZone {
        target: n,
        target_offset: n + 1,
        filter_tc: n + 2,
    };
    assert_eq!(load_power_zones(&[1, 2, 3]), Ok(vec![zone(1)]));
    // The walk advances by three zones.
    let words: Vec<u32> = (1..=12).collect();
    assert_eq!(load_power_zones(&words), Ok(vec![zone(1), zone(4)]));
    let words: Vec<u32> = (1..=15).collect();
    assert_eq!(load_power_zones(&words), Ok(vec![zone(1), zone(4)]));
    assert_eq!(load_power_zones(&[1, 2]), Err(Error::EINVAL));
    assert_eq!(load_power_zones(&[0; 18]), Err(Error::EINVAL));
    assert_eq!(load_power_zones(&[0; 16]), Err(Error::EINVAL));
}

#[test]
fn shared_tables_are_copied() {
    let s1 = hw_shared1(&[1, -2, 3], 0xffff);
    assert_eq!(s1.table, vec![1, -2, 3]);
    assert_eq!(s1.unk_a4, 0xffff);
    let s2 = hw_shared2(0x8103, &[5, 6], 0xc0007);
    assert_eq!(s2.table, vec![5, 6]);
    assert_eq!(s2.unk_28, vec![0xff; 16]);
    assert_eq!(s2.unk_508, 0xc0007);
    assert!(s2.t8112.is_none());
    let s3 = hw_shared3(0x8103);
    assert_eq!((s3.unk_0, s3.unk_4, s3.unk_8, s3.unk_4c), (0, 0, 0, 0));
    assert_eq!(s3.table, vec![0; 16]);
}

#[test]
fn curves_are_filled_in_for_the_chip_that_has_them() {
    let s2 = hw_shared2(0x8112, &[], 0);
    let t = s2.t8112.unwrap();
    assert_eq!(t.unk_14, 0x6000000);
    assert_eq!((t.curve1.unk_0, t.curve1.unk_4), (0, 0x20000000));
    assert_eq!(t.curve1.t1, vec![-1; 9]);
    assert_eq!(t.curve1.t2, vec![0x0f07; 9]);
    assert_eq!(t.curve1.t3, vec![vec![0x3ffffff; 9]; 3]);
    assert_eq!((t.curve2.unk_0, t.curve2.unk_4), (7, 0x80000000));
    assert_eq!(
        t.curve2.t1,
        vec![-1, 25740, 17429, 12550, 9597, 7910, 6657, 5881, 5421]
    );
    assert_eq!(
        t.curve2.t2,
        vec![0x0f07, 0x04c0, 0x06c0, 0x08c0, 0x0ac0, 0x0c40, 0x0dc0, 0x0ec0, 0x0f80]
    );
    assert_eq!(
        t.curve2.t3[0],
        vec![0x3ffffff, 107, 101, 94, 87, 82, 77, 73, 71]
    );
    assert_eq!(t.curve2.t3[2][8], 82222);
    let s3 = hw_shared3(0x8112);
    assert_eq!((s3.unk_0, s3.unk_4, s3.unk_8, s3.unk_4c), (1, 500, 5, 1));
    assert_eq!(
        s3.table,
        vec![
            10700, 10700, 10700, 10700, 10700, 6000, 1000, 1000, 1000, 10700, 10700, 10700,
            10700, 10700, 10700, 10700
        ]
    );
}

#[test]
fn curve_tables_are_padded() {
    let c = init_curve(1, 2, &[5, 6], &[7], &vec![vec![1, 2, 3]]);
    assert_eq!((c.unk_0, c.unk_4), (1, 2));
    assert_eq!(c.t1, vec![5, 6, 5, 5, 5, 5, 5, 5, 5]);
    assert_eq!(c.t2, vec![7; 9]);
    let fill = 0x3ffffff;
    assert_eq!(
        c.t3,
        vec![
            vec![1, 2, 3, fill, fill, fill, fill, fill, fill],
            vec![fill; 9],
            vec![fill; 9]
        ]
    );
}

#[test]
fn translation_levels_are_described() {
    let top = uat_level_info(40, 36, 8);
    assert_eq!(
        top,
        UatLevelInfo {
            index_shift: 36,
            unk_1: 14,
            unk_2: 14,
            unk_3: 8,
            unk_4: 0x4000,
            num_entries: 8,
            unk_8: 1,
            unk_10: 0xff_ffff_c000,
            index_mask: 0x70_0000_0000,
        }
    );
    assert_eq!(uat_level_info(40, 25, 2048).index_mask, 0xf_fe00_0000);
    assert_eq!(uat_level_info(40, 14, 2048).index_mask, 0x1ff_c000);
    assert_eq!(uat_level_info(42, 14, 2048).unk_10, 0x3ff_ffff_c000);
    assert_eq!(uat_level_info(40, 14, 1).index_mask, 0);
}

#[test]
fn power_loop_parameters_are_computed() {
    assert!(check_power_inputs(&inputs(true), &pwr()));
    let a = hwdata_a(&inputs(true), &pwr(), 2);
    assert_eq!(a.clocks_per_period, 24_000 * 8);
    assert_eq!(a.clocks_per_period_2, Some(24_000 * 8));
    assert_eq!(a.base_pstate_scaled, 100);
    assert_eq!(a.max_pstate_scaled, 300);
    assert_eq!(a.min_pstate_scaled, 100);
    assert_eq!(a.boost_pstate_count, 2);
    assert_eq!(a.max_power, 7_613);
    assert_eq!(a.max_freq_mhz, 1_278);
    assert_eq!(a.pwr_pstate_max_dc_offset, 40 - 300);
    assert_eq!(a.ppm_filter_tc_periods, 12);
    assert_eq!(a.ppm_filter_tc_periods_x4, 48);
    assert_eq!(a.ppm_filter_tc_ms, 100);
    assert_eq!(a.ppm_filter_tc_clks, Some(96 * 24_000));
    assert_eq!(a.fast_die0_release_temp_cc, 8_000);
    assert_eq!(a.fast_die0_prop_tgt_delta, 300);
    assert_eq!(a.power_zone_count, 2);
    assert_eq!(a.avg_power_target_filter_tc_x4, 500);
    assert_eq!(a.avg_power_target_filter_tc_xperiod, 1_000);
    assert_eq!(a.avg_power_target_filter_tc_clks, Some(24_000_000));
    assert_eq!(a.avg_power_filter_tc_periods, 125);
    assert_eq!(a.avg_power_filter_tc_periods_x4, 500);
    assert_eq!(a.avg_power_filter_tc_clks, Some(24_000_000));
    assert_eq!(a.t81xx_max_pstate_scaled, 300);
    assert_eq!(a.fast_die0_sensor_present, None);
    assert_eq!((a.unk_87c, a.unk_8cc, a.unk_e24), (-220, 9880, 112));
    let a = hwdata_a(&inputs(false), &pwr(), 0);
    assert_eq!(a.clocks_per_period_2, None);
    assert_eq!(a.ppm_filter_tc_clks, None);
    assert_eq!(a.avg_power_target_filter_tc_clks, None);
    assert_eq!(a.avg_power_filter_tc_clks, None);
    assert_eq!(a.fast_die0_sensor_present, Some(0x14));
    let mut other = inputs(false);
    other.chip_id = 0x6000;
    assert_eq!(hwdata_a(&other, &pwr(), 0).t81xx_max_pstate_scaled, 0);
}

#[test]
fn power_inputs_are_checked() {
    let mut p = pwr();
    p.power_sample_period = 0;
    assert!(!check_power_inputs(&inputs(true), &p));
    assert!(!check_globals(&inputs(true), &p));
    let mut i = inputs(true);
    i.perf_base_pstate = 4;
    assert!(!check_power_inputs(&i, &pwr()));
    let mut i = inputs(true);
    i.perf_max_pstate = 50_000_000;
    assert!(!check_power_inputs(&i, &pwr()));
    assert!(!check_globals(&i, &pwr()));
    let mut p = pwr();
    p.avg_power_target_filter_tc = 1 << 30;
    assert!(!check_power_inputs(&inputs(false), &p));
    // The clocks of a time count only for the later layout.
    let mut p = pwr();
    p.avg_power_target_filter_tc = 30_000;
    assert!(check_power_inputs(&inputs(false), &p));
    assert!(!check_power_inputs(&inputs(true), &p));
    let mut p = pwr();
    p.fast_die0_release_temp = 50_000_000;
    assert!(!check_power_inputs(&inputs(false), &p));
    assert!(!check_globals(&inputs(false), &p));
    assert!(check_globals(&inputs(false), &pwr()));
}

#[test]
fn power_zones_are_written() {
    let zones = vec![
        PowerZone {
            target: 6000,
            target_offset: 100,
            filter_tc: 20,
        },
        PowerZone {
            target: 5,
            target_offset: 5,
            filter_tc: 0,
        },
    ];
    assert!(check_power_zones(&zones, 8));
    assert_eq!(
        hw_power_zones(&zones, 8, true),
        vec![
            HwPowerZone {
                target: 6000,
                target_off: 5900,
                filter_tc_x4: 80,
                filter_tc_xperiod: 160,
                unk_10: 1320000000
            },
            HwPowerZone {
                target: 5,
                target_off: 0,
                filter_tc_x4: 0,
                filter_tc_xperiod: 0,
                unk_10: 1320000000
            },
        ]
    );
    assert_eq!(hw_power_zones(&zones, 8, false)[0].unk_10, 0);
    assert_eq!(
        global_power_zones(&zones),
        vec![
            GlobalPowerZone {
                target: 6000,
                target_off: 5900,
                filter_tc: 20
            },
            GlobalPowerZone {
                target: 5,
                target_off: 0,
                filter_tc: 0
            },
        ]
    );
    let under = vec![PowerZone {
        target: 1,
        target_offset: 2,
        filter_tc: 0,
    }];
    assert!(!check_power_zones(&under, 8));
    assert!(!check_zone_targets(&under));
    assert!(check_zone_targets(&zones));
    let long = vec![PowerZone {
        target: 1,
        target_offset: 0,
        filter_tc: (1 << 30) - 1,
    }];
    assert!(!check_power_zones(&long, 8));
    assert!(check_power_zones(&long, 1));
    let many = vec![zones[0]; 6];
    assert!(!check_power_zones(&many, 8));
}

#[test]
fn tables_of_the_performance_states_are_computed() {
    let opps = vec![
        opp(0, 400_000, 0),
        opp(396_000_000, 603_000, 19_000_000),
        opp(528_000_000, 900_000, 28_000_000),
        opp(1_278_000_000, 920_000, 76_000_000),
    ];
    let p = PerfStates::load(&opps, 1, 1).unwrap();
    let id = GpuIdConfig {
        gpu_rev_id: GpuRevisionID::B1,
        num_clusters: 2,
        num_cores: 8,
        num_frags: 4,
    };
    assert!(check_perf_tables(&p, &id));
    let b = hwdata_b(&hw_config(), &id, &pwr(), &p, 0x8_0000_0000, false);
    assert_eq!(b.chip_id, 0x8103);
    assert_eq!(b.base_clock_khz, 24_000);
    assert_eq!(b.power_sample_period, 8);
    assert_eq!(b.num_frags, 8);
    assert_eq!(b.num_cores, 16);
    assert_eq!(b.uat_ttb_base, 0x8_0000_0000);
    assert_eq!(b.gpu_core_id, 11);
    assert_eq!(b.gpu_rev_id, 4);
    assert_eq!(b.max_pstate, 3);
    assert_eq!(b.num_pstates, Some(4));
    assert_eq!(b.min_sram_volt, Some(850));
    assert_eq!(b.frequencies, vec![0, 396, 528, 1278]);
    assert_eq!(b.voltages, vec![vec![400], vec![603], vec![900], vec![920]]);
    assert_eq!(
        b.voltages_sram,
        vec![vec![850], vec![850], vec![900], vec![920]]
    );
    assert_eq!(b.sram_k, vec![F32(0x3f800000); 4]);
    assert_eq!(b.rel_max_powers, vec![0, 25, 36, 100]);
    // In hundredths of the 882 MHz between the state to start at and the
    // highest.
    assert_eq!(b.rel_boost_freqs, vec![0, 0, 14, 100]);
    let later = hwdata_b(&hw_config(), &id, &pwr(), &p, 0, true);
    assert_eq!(later.num_pstates, None);
    assert_eq!(later.min_sram_volt, None);
}

#[test]
fn tables_of_the_performance_states_are_checked() {
    let id = GpuIdConfig {
        gpu_rev_id: GpuRevisionID::A0,
        num_clusters: 1,
        num_cores: 8,
        num_frags: 8,
    };
    assert!(check_perf_tables(&perf(), &id));
    let flat = vec![opp(100, 1, 1000), opp(100, 1, 1000), opp(150, 1, 2000)];
    let p = PerfStates::load(&flat, 1, 1).unwrap();
    // The highest state is not a hundred hertz above the one to start at.
    assert!(!check_perf_tables(&p, &id));
    let p = PerfStates::load(&flat, 1, 2).unwrap();
    assert!(check_perf_tables(&p, &id));
    let none = vec![opp(100, 1, 0), opp(400, 1, 0)];
    let p = PerfStates::load(&none, 1, 0).unwrap();
    assert!(!check_perf_tables(&p, &id));
    let slow = vec![opp(500, 1, 1000), opp(400, 1, 1000), opp(900, 1, 1000)];
    let p = PerfStates::load(&slow, 1, 0).unwrap();
    assert!(!check_perf_tables(&p, &id));
    let good = vec![opp(400, 1, 1000), opp(500, 1, 1000), opp(900, 1, 1000)];
    let p = PerfStates::load(&good, 1, 0).unwrap();
    assert!(check_perf_tables(&p, &id));
    let mut q = PerfStates::load(&good, 1, 3).unwrap();
    assert!(!check_perf_tables(&q, &id));
    q.perf_base_pstate = 0;
    let wide = GpuIdConfig {
        num_clusters: 1 << 16,
        num_cores: 1 << 16,
        ..id
    };
    assert!(!check_perf_tables(&q, &wide));
}

#[test]
fn global_configuration_is_computed() {
    let g = globals(&inputs(true), &pwr(), 1, true, 0xb);
    assert_eq!(g.max_power, 7_613);
    assert_eq!(g.max_pstate_scaled, 300);
    assert_eq!(g.power_zone_count, 1);
    assert_eq!(g.avg_power_filter_tc_periods, 125);
    assert_eq!(g.avg_power_min_duty_cycle, 40);
    assert_eq!(g.avg_power_target_filter_tc, 125);
    assert_eq!(g.unk_89bc, 9880);
    assert_eq!(g.fast_die0_release_temp, 8_000);
    assert_eq!(g.unk_89c4, -220);
    assert_eq!(g.fast_die0_prop_tgt_delta, 300);
    assert_eq!(g.unk_903c, 1);
    assert_eq!(g.fault_control, 0xb);
    assert_eq!(g.do_init, 1);
    assert_eq!(g.idle_off_delay_ms, 2);
    assert_eq!(g.fender_idle_off_delay_ms, 40);
    assert_eq!(g.fw_early_wake_timeout_ms, 5);
    assert_eq!(g.unk_118e8, 1);
    let g = globals(&inputs(false), &pwr(), 0, false, 0);
    assert_eq!(g.unk_903c, 0);
    assert_eq!(g.unk_118e8, 0);
    let s = fw_status();
    assert_eq!(
        (s.fwctl_channel, s.halt_count, s.halted, s.resume, s.flags),
        (0, 0, 0, 0, 0)
    );
}

#[test]
fn initialization_data_is_laid_out() {
    let mut alloc = allocators();
    let d = build(&mut alloc, &sizes(), 40, true).unwrap();
    assert_eq!(d.ver_info, Some((1, 1, 16, 1)));
    assert_eq!(d.unk_buf, 0x300_0000);
    assert_eq!(d.globals, 0x200_0000);
    assert_eq!(d.fw_status, 0x201_2000);
    let p = d.pointers;
    assert_eq!(p.hwdata_a, 0x100_0000);
    assert_eq!(p.hwdata_b, 0x100_4000);
    assert_eq!(p.hwdata_b_2, p.hwdata_b);
    assert_eq!(p.stats_vtx, 0x100_4c80);
    assert_eq!(p.stats_frag, 0x100_4d80);
    assert_eq!(p.stats_comp, 0x100_4f00);
    assert_eq!(p.unkptr_190, 0x100_5000);
    assert_eq!(p.unkptr_198, 0x100_5080);
    assert_eq!(p.unkptr_1b8, 0x100_5180);
    assert_eq!(p.unkptr_1c0, 0x100_6180);
    assert_eq!(p.unkptr_1c8, 0x100_6480);
    assert_eq!(d.runtime_pointers, 0x100_7480);
    assert_eq!(p.buffer_mgr_ctl, 0x400_0000);
    assert_eq!(p.buffer_mgr_ctl_2, p.buffer_mgr_ctl);
    assert_eq!(p.unk_6b38, 0xff);
    assert_eq!((d.uat_page_size, d.uat_page_bits, d.uat_num_levels), (0x4000, 14, 3));
    assert_eq!(
        d.uat_level_info,
        vec![
            uat_level_info(40, 36, 8),
            uat_level_info(40, 25, 2048),
            uat_level_info(40, 14, 2048)
        ]
    );
    assert_eq!(d.host_mapped_fw_allocations, 1);
    assert_eq!(alloc.private.mark(), 0x100_7480 + 0x7000);
    assert_eq!(alloc.shared.mark(), 0x201_2020);
    assert_eq!(alloc.shared_ro.mark(), 0x300_4000 + 0xc0);
    assert_eq!(alloc.gpu.mark(), 0x400_0000 + 127 * 0x10);
    let mut alloc = allocators();
    assert_eq!(build(&mut alloc, &sizes(), 40, false).unwrap().ver_info, None);
}

#[test]
fn initialization_data_takes_all_or_nothing() {
    let mut alloc = allocators();
    alloc.gpu = heap(0x400_0000, 0x400_4000);
    let mut big = sizes();
    big.buffer_mgr_ctl = 0x1000;
    assert!(matches!(
        build(&mut alloc, &big, 40, true),
        Err(Error::ENOMEM)
    ));
    assert_eq!(alloc.private.mark(), 0x100_0000);
    assert_eq!(alloc.shared.mark(), 0x200_0000);
    assert_eq!(alloc.shared_ro.mark(), 0x300_0000);
    assert_eq!(alloc.gpu.mark(), 0x400_0000);
    let mut huge = sizes();
    huge.globals = 0x200_0000;
    assert!(matches!(
        build(&mut alloc, &huge, 40, true),
        Err(Error::ENOMEM)
    ));
    assert_eq!(alloc.private.mark(), 0x100_0000);
    assert_eq!(alloc.shared_ro.mark(), 0x300_0000);
    let mut none = sizes();
    none.align = 0;
    assert!(matches!(
        build(&mut alloc, &none, 40, true),
        Err(Error::EINVAL)
    ));
}

#[test]
fn kernel_time_is_rounded_towards_zero() {
    assert_eq!(Ktime::from_raw(1_999_999).to_ms(), 1);
    assert_eq!(Ktime::from_raw(-1_999_999).to_ms(), -1);
    assert_eq!(Ktime::from_raw(-999_999).to_ms(), 0);
    assert_eq!(Ktime::from_raw(i64::MIN).to_ms(), -9_223_372_036_854);
    assert_eq!(Ktime::from_raw(i64::MAX).to_ms(), 9_223_372_036_854);
    assert_eq!(Ktime::from_raw(5).to_ns(), 5);
    let later = Ktime::from_raw(7_000_000);
    let earlier = Ktime::from_raw(2_500_000);
    assert_eq!(later.sub(earlier).to_ns(), 4_500_000);
    assert_eq!(ktime_ms_delta(later, earlier), 4);
    assert_eq!(ktime_ms_delta(earlier, later), -4);
}

#[test]
fn instants_tell_the_time_between_them() {
    let a: Instant<KernelTime> = Instant::new(100);
    let b: Instant<KernelTime> = Instant::new(350);
    assert_eq!(b.since(a), Some(250));
    assert_eq!(a.since(b), None);
    assert_eq!(a.since(a), Some(0));
    assert_eq!(a.elapsed_at(b), 250);
    assert_eq!(b.elapsed_at(a), 0);
    let first: Instant<KernelTime> = Instant::new(i64::MIN);
    let last: Instant<KernelTime> = Instant::new(i64::MAX);
    assert_eq!(last.since(first), Some(u64::MAX));
}

#[test]
fn pages_are_read_and_written_in_bounds() {
    assert_eq!(page_align(0), 0);
    assert_eq!(page_align(1), 0x4000);
    assert_eq!(page_align(0x4000), 0x4000);
    assert_eq!(page_align(0x4001), 0x8000);
    let mut p = Page::alloc_page();
    assert_eq!(p.read_raw(0x3ffe, 2), Ok(vec![0, 0]));
    assert_eq!(p.write_raw(&[1, 2, 3], 0x3ffd), Ok(()));
    assert_eq!(p.read_raw(0x3ffc, 4), Ok(vec![0, 1, 2, 3]));
    assert_eq!(p.write_raw(&[1, 2, 3], 0x3ffe), Err(Error::EINVAL));
    assert_eq!(p.read_raw(0x3ffe, 3), Err(Error::EINVAL));
    assert_eq!(p.read_raw(usize::MAX, 2), Err(Error::EINVAL));
    assert_eq!(p.fill_zero_raw(0x3ffe, 1), Ok(()));
    assert_eq!(p.read_raw(0x3ffc, 4), Ok(vec![0, 1, 0, 3]));
    assert_eq!(p.fill_zero_raw(0x4000, 1), Err(Error::EINVAL));
    assert_eq!(p.read_raw(0x4000, 0), Ok(vec![]));
}

#[test]
fn io_offsets_are_checked() {
    let io: Io<0x100> = Io::new(0x1000, 0x200).unwrap();
    assert_eq!(io.base_addr(), 0x1000);
    assert_eq!(io.maxsize(), 0x200);
    assert_eq!(io.io_addr(0x1fc, 4), Ok(0x11fc));
    assert_eq!(io.io_addr(0x1fd, 4), Err(Error::EINVAL));
    assert_eq!(io.io_addr(0x1fe, 4), Err(Error::EINVAL));
    assert_eq!(io.io_addr(0x200, 1), Err(Error::EINVAL));
    assert_eq!(io.io_addr(usize::MAX, 1), Err(Error::EINVAL));
    assert_eq!(io.io_addr_assert(0xf8, 8), 0x10f8);
    assert!(Io::<0x100>::offset_valid(0xfc, 0x100, 4));
    assert!(!Io::<0x100>::offset_valid(0xfe, 0x100, 4));
    assert!(matches!(Io::<0x100>::new(0x1000, 0xff), Err(Error::EINVAL)));
}

#[test]
fn io_memory_needs_a_fitting_resource() {
    assert_eq!(IoResource::Mem.flags(), 0x200);
    assert!(Resource::new(0, 0xff, 0x200).is_none());
    assert!(Resource::new(0x2000, 0x1fff, 0x200).is_none());
    let res = Resource::new(0x2000, 0x20ff, 0x200).unwrap();
    assert_eq!(res.start(), 0x2000);
    assert_eq!(res.size(), 0x100);
    assert_eq!(IoMem::<0x100>::check_resource(&res), Ok(MapKind::Posted));
    assert_eq!(IoMem::<0x101>::check_resource(&res), Err(Error::EINVAL));
    let nonposted = Resource::new(0x2000, 0x20ff, 0x220).unwrap();
    assert_eq!(
        IoMem::<0x100>::check_resource(&nonposted),
        Ok(MapKind::NonPosted)
    );
    let odd = Resource::new(0x2004, 0x2103, 0x200).unwrap();
    assert_eq!(IoMem::<0x100>::check_resource(&odd), Err(Error::EDOM));
    assert!(matches!(
        IoMem::<0x100>::try_new(Resource::new(0x2000, 0x20ff, 0x200).unwrap(), 0),
        Err(Error::ENOMEM)
    ));
    let m = IoMem::<0x100>::try_new(Resource::new(0x2000, 0x20ff, 0x200).unwrap(), 0x9000).unwrap();
    assert!(IoMem::<0x100>::offset_ok(0xfc, 4));
    assert!(!IoMem::<0x100>::offset_ok(0x100, 4));
    assert!(!IoMem::<0x100>::offset_ok(0xfe, 4));
    assert!(IoMem::<0x100>::offset_ok_of_val(0xf0, 16, 8));
    assert!(!IoMem::<0x100>::offset_ok_of_val(0xf4, 16, 8));
    assert_eq!(m.check_offset(0xfc, 4), 0x90fc);
    let mem = Mem::try_new(Resource::new(0x2000, 0x2fff, 0x200).unwrap(), 0x9000).unwrap();
    assert_eq!((mem.ptr(), mem.size()), (0x9000, 0x1000));
    assert!(matches!(
        Mem::try_new(Resource::new(0x2000, 0x2fff, 0x200).unwrap(), 0),
        Err(Error::ENOMEM)
    ));
}

#[test]
fn coherent_memory_is_read_and_written_by_index() {
    let mut a: CoherentAllocation<u32> = CoherentAllocation::new(0x9000, 0x8000_0000, 4, 0);
    assert_eq!(a.count(), 4);
    assert_eq!(a.dma_handle(), 0x8000_0000);
    assert_eq!(a.read(3), Some(0));
    assert_eq!(a.read(4), None);
    assert!(a.write(3, &7));
    assert!(!a.write(4, &7));
    assert_eq!(a.read(3), Some(7));
    assert_eq!(a.read_write(3, 9), Some(7));
    assert_eq!(a.read(3), Some(9));
    assert_eq!(a.read_write(4, 9), None);
    assert_eq!(a.into_parts(), (0x9000, 0x8000_0000));
    assert_eq!(coherent_size(4, 8), Ok(32));
    assert_eq!(coherent_size(usize::MAX, 2), Err(Error::ENOMEM));
    assert_eq!(coherent_size(0, 8), Ok(0));
}

fn props() -> PwrProps {
    PwrProps {
        min_sram_microvolt: 850_000,
        avg_power_filter_tc_ms: 1_000,
        avg_power_ki_only: F32(1),
        avg_power_kp: F32(2),
        avg_power_min_duty_cycle: 40,
        avg_power_target_filter_tc: 125,
        fast_die0_integral_gain: F32(3),
        fast_die0_proportional_gain: F32(4),
        perf_filter_drop_threshold: 0,
        perf_filter_time_constant2: 50,
        perf_filter_time_constant: 5,
        perf_integral_gain2: F32(5),
        perf_integral_min_clamp: 0,
        perf_proportional_gain2: F32(6),
        perf_tgt_utilization: 85,
        power_sample_period: 8,
        ppm_filter_time_constant_ms: 100,
        ppm_ki: F32(7),
        ppm_kp: F32(8),
        pwr_min_duty_cycle: 40,
        perf_base_pstate: None,
        fast_die0_prop_tgt_delta: None,
        fast_die0_release_temp: None,
        fender_idle_off_delay_ms: None,
        fw_early_wake_timeout_ms: None,
        idle_off_delay_ms: None,
        perf_boost_ce_step: None,
        perf_boost_min_util: None,
        perf_integral_gain: None,
        perf_proportional_gain: None,
        perf_reset_iters: None,
        pwr_filter_time_constant: None,
        pwr_integral_gain: None,
        pwr_integral_min_clamp: None,
        pwr_proportional_gain: None,
    }
}

#[test]
fn missing_properties_get_their_defaults() {
    let c = PwrConfig::from_props(&props());
    assert_eq!(c.fast_die0_prop_tgt_delta, 0);
    assert_eq!(c.fast_die0_release_temp, 80);
    assert_eq!(c.fender_idle_off_delay_ms, 40);
    assert_eq!(c.fw_early_wake_timeout_ms, 5);
    assert_eq!(c.idle_off_delay_ms, 2);
    assert_eq!(c.perf_boost_ce_step, 25);
    assert_eq!(c.perf_boost_min_util, 100);
    assert_eq!(c.perf_reset_iters, 6);
    assert_eq!(c.pwr_filter_time_constant, 313);
    assert_eq!(c.pwr_integral_min_clamp, 0);
    assert_eq!(c.power_sample_period, 8);
    assert_eq!(c.min_sram_microvolt, 850_000);
    let g = PwrGains::from_props(&props());
    assert_eq!(f32::from_bits(g.perf_integral_gain.0), 7.8956833);
    assert_eq!(f32::from_bits(g.perf_proportional_gain.0), 14.707963);
    assert_eq!(f32::from_bits(g.pwr_integral_gain.0), 0.0202129);
    assert_eq!(f32::from_bits(g.pwr_proportional_gain.0), 5.2831855);
    assert_eq!(g.ppm_kp, F32(8));
    let mut named = props();
    named.fast_die0_release_temp = Some(95);
    named.perf_integral_gain = Some(F32(0x3f80_0000));
    named.pwr_filter_time_constant = Some(0);
    let c = PwrConfig::from_props(&named);
    assert_eq!(c.fast_die0_release_temp, 95);
    assert_eq!(c.pwr_filter_time_constant, 0);
    assert_eq!(
        PwrGains::from_props(&named).perf_integral_gain,
        F32(0x3f80_0000)
    );
}

#[test]
fn power_configuration_is_loaded() {
    let opps = vec![opp(0, 400_000, 0), opp(396_000_000, 603_000, 19_551)];
    let leak = vec![F32(0x4000_0000)];
    let c = PowerConfig::load(&opps, &[1, 2, 3], leak.clone(), leak.clone(), &props(), 1).unwrap();
    assert_eq!(c.perf.perf_base_pstate, 1);
    assert_eq!(c.perf.perf_max_pstate, 1);
    assert_eq!(
        c.power_zones,
        vec![PowerZone {
            target: 1,
            target_offset: 2,
            filter_tc: 3
        }]
    );
    assert_eq!(c.core_leak_coef, leak);
    assert_eq!(c.sram_leak_coef, leak);
    assert_eq!(c.pwr, PwrConfig::from_props(&props()));
    assert_eq!(c.gains, PwrGains::from_props(&props()));
    let mut named = props();
    named.perf_base_pstate = Some(0);
    let c = PowerConfig::load(&opps, &[], leak.clone(), leak.clone(), &named, 1).unwrap();
    assert_eq!(c.perf.perf_base_pstate, 0);
    assert!(c.power_zones.is_empty());
}

#[test]
fn power_configuration_is_checked() {
    let opps = vec![opp(396_000_000, 603_000, 19_551)];
    let leak = vec![F32(0)];
    let bad = |r: Result<PowerConfig, Error>| matches!(r, Err(Error::EINVAL));
    assert!(bad(PowerConfig::load(
        &Vec::new(),
        &[],
        leak.clone(),
        leak.clone(),
        &props(),
        1
    )));
    assert!(bad(PowerConfig::load(
        &opps,
        &[1, 2],
        leak.clone(),
        leak.clone(),
        &props(),
        1
    )));
    assert!(bad(PowerConfig::load(
        &opps,
        &[],
        Vec::new(),
        leak.clone(),
        &props(),
        1
    )));
    assert!(bad(PowerConfig::load(
        &opps,
        &[],
        leak.clone(),
        vec![F32(0), F32(0)],
        &props(),
        1
    )));
    assert!(bad(PowerConfig::load(
        &opps,
        &[],
        leak.clone(),
        leak.clone(),
        &props(),
        2
    )));
    assert!(PowerConfig::load(&opps, &[], leak.clone(), leak, &props(), 1).is_ok());
}

struct StoppedClock;

impl Clock for StoppedClock {}

impl Monotonic for StoppedClock {}

impl Now for StoppedClock {
    fn now() -> Instant<Self> {
        Instant::new(350)
    }
}

#[test]
fn elapsed_time_is_counted_from_the_instant_to_the_reading() {
    let earlier: Instant<StoppedClock> = Instant::new(100);
    assert_eq!(earlier.elapsed(), 250);
    let same: Instant<StoppedClock> = Instant::new(350);
    assert_eq!(same.elapsed(), 0);
    // A clock that went backwards counts as no time.
    let later: Instant<StoppedClock> = Instant::new(400);
    assert_eq!(later.elapsed(), 0);
    let first: Instant<StoppedClock> = Instant::new(i64::MIN);
    assert_eq!(first.elapsed(), (1u64 << 63) + 350);
}
