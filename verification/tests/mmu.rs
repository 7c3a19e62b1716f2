use asahi::error::Error;
use asahi::mmu::handoff::{
    current_slot, init_poll, FlushInfo, Handoff, HandoffLock, InitStep, LockAction, LockState,
    FLUSH_DONE, FLUSH_IDLE, FLUSH_REQUESTED, HANDOFF_POLL_NS, HANDOFF_TIMEOUT_NS, PPL_MAGIC,
};
use asahi::mmu::pgtable::{address_limit, Config, PageTable, Pte};
use asahi::mmu::uat::{map_region, ttbr, SlotTtbs, Uat, UatRegion, VmBind, MAX_TTB};
use asahi::mmu::vm::{FlushRequest, Node, Vm};
use asahi::mmu::{
    iova_kern_range, iova_user_range, iova_user_usable_range, HwOp, Warning, PROT_CACHE,
    PROT_FW_PRIV_RW, PROT_FW_SHARED_RW,
    PROT_GPU_SHARED_RO, PROT_GPU_SHARED_RW, PROT_GPU_SHARED_WO, UAT_PGSZ,
};

const PG: u64 = 0x4000;

fn table() -> PageTable {
    PageTable::new(
        Config {
            pgsize_bitmap: UAT_PGSZ,
            ias: 39,
            oas: 40,
            coherent_walk: true,
            quirks: 0,
        },
        0x8_0000_0000,
    )
    .unwrap()
}

fn uat(hw: &mut Vec<HwOp>) -> Uat {
    Uat::new(0x1000_0000, 0x2000_0000, 0x3000_0000, 0x4000_0000, false, hw).unwrap()
}

fn user_vm(u: &Uat, id: u64) -> Vm {
    u.new_vm(id, 0x10_0000_0000..0x10_2000_0000, 40, 0x9_0000_0000 + id * PG)
        .unwrap()
}

#[test]
fn address_limit_is_a_power_of_two() {
    assert_eq!(address_limit(0), 1);
    assert_eq!(address_limit(14), 0x4000);
    assert_eq!(address_limit(40), 1 << 40);
    assert_eq!(address_limit(48), 1 << 48);
}

#[test]
fn address_ranges_have_their_bounds() {
    assert_eq!(iova_user_range(), 0x4000..0x80_0000_0000);
    assert_eq!(iova_user_usable_range(), 0x4000..0x7f_ffff_8000);
    assert_eq!(iova_kern_range(), 0xffffffa000000000..0xffffffb000000000);
}

#[test]
fn page_table_maps_and_looks_up() {
    let mut t = table();
    assert_eq!(t.ttbr(), 0x8_0000_0000);
    assert_eq!(t.cfg().oas, 40);
    assert_eq!(t.map_pages(0x10000, 0x80_0000, PG, 3, 7), Ok(3 * PG));
    assert_eq!(
        t.lookup(0x10000),
        Some(Pte {
            paddr: 0x80_0000,
            prot: 7
        })
    );
    assert_eq!(
        t.lookup(0x18000),
        Some(Pte {
            paddr: 0x80_8000,
            prot: 7
        })
    );
    assert_eq!(t.lookup(0x1c000), None);
    assert_eq!(t.lookup(0xc000), None);
}

#[test]
fn page_table_rejects_what_is_mapped_or_misaligned() {
    let mut t = table();
    t.map_pages(0x10000, 0x80_0000, PG, 2, 7).unwrap();
    assert_eq!(t.map_pages(0x14000, 0x90_0000, PG, 1, 7), Err(Error::EEXIST));
    assert_eq!(t.map_pages(0x20001, 0x90_0000, PG, 1, 7), Err(Error::EINVAL));
    assert_eq!(t.map_pages(0x20000, 0x90_0001, PG, 1, 7), Err(Error::EINVAL));
    assert_eq!(t.map_pages(0x20000, 0x90_0000, 0x1000, 1, 7), Err(Error::EINVAL));
    assert_eq!(
        t.map_pages(0x80_0000_0000 - PG, 0x90_0000, PG, 2, 7),
        Err(Error::EINVAL)
    );
    // A failed request leaves the table alone.
    assert_eq!(t.lookup(0x20000), None);
    assert_eq!(
        t.lookup(0x14000),
        Some(Pte {
            paddr: 0x80_4000,
            prot: 7
        })
    );
}

#[test]
fn page_table_unmaps_the_mapped_run() {
    let mut t = table();
    t.map_pages(0x10000, 0x80_0000, PG, 2, 7).unwrap();
    assert_eq!(t.unmap_pages(0x10000, PG, 4), 2 * PG);
    assert_eq!(t.lookup(0x10000), None);
    assert_eq!(t.lookup(0x14000), None);
    assert_eq!(t.unmap_pages(0x10000, PG, 4), 0);
}

#[test]
fn page_table_wants_the_page_size_of_the_uat() {
    let r = PageTable::new(
        Config {
            pgsize_bitmap: 0x1000,
            ias: 39,
            oas: 40,
            coherent_walk: true,
            quirks: 0,
        },
        0,
    );
    assert!(matches!(r, Err(Error::EINVAL)));
    let r = PageTable::new(
        Config {
            pgsize_bitmap: UAT_PGSZ,
            ias: 39,
            oas: 49,
            coherent_walk: true,
            quirks: 0,
        },
        0,
    );
    assert!(matches!(r, Err(Error::EINVAL)));
}

#[test]
fn ttbr_carries_the_valid_bit_and_the_slot() {
    assert_eq!(ttbr(0x8_0000_0000, 0), 0x8_0000_0001);
    assert_eq!(ttbr(0x8_0000_0000, 5), 0x0005_0008_0000_0001);
    assert_eq!(ttbr(0x8_0000_4000, 63), 0x003f_0008_0000_4001);
}

#[test]
fn region_mapping_checks_the_size() {
    assert_eq!(
        map_region(0x1000, 0x8000, 0x8000, 7),
        Ok(UatRegion {
            base: 0x1000,
            map: 7
        })
    );
    assert_eq!(map_region(0x1000, 0x8000, 0x8001, 7), Err(Error::ENOMEM));
    assert_eq!(map_region(0x1000, 0x8000, 0x4000, 0), Err(Error::ENOMEM));
}

#[test]
fn uat_sets_up_the_kernel_slot_and_clears_the_others() {
    let mut hw: Vec<HwOp> = Vec::new();
    let u = uat(&mut hw);
    assert_eq!(hw.len(), 2 + 63 + 2);
    assert_eq!(hw[0], HwOp::HandoffLock);
    assert_eq!(
        hw[1],
        HwOp::WriteTtb {
            slot: 0,
            ttb0: 0x1000_0001,
            ttb1: 0x3000_0001
        }
    );
    for i in 1..64u32 {
        assert_eq!(
            hw[1 + i as usize],
            HwOp::WriteTtb {
                slot: i,
                ttb0: 0,
                ttb1: 0
            }
        );
    }
    assert_eq!(hw[65], HwOp::HandoffUnlock);
    assert_eq!(
        hw[66],
        HwOp::WriteKernelPte {
            index: 2,
            pte: 0x2000_0003
        }
    );
    assert_eq!(u.ttb_base(), 0x4000_0000);
    assert_eq!(
        u.ttbs(0),
        SlotTtbs {
            ttb0: 0x1000_0001,
            ttb1: 0x3000_0001
        }
    );
    assert_eq!(u.ttbs(1), SlotTtbs { ttb0: 0, ttb1: 0 });
}

#[test]
fn uat_rejects_a_root_that_is_out_of_reach() {
    let mut hw: Vec<HwOp> = Vec::new();
    let r = Uat::new(0, 0, MAX_TTB + 1, 0, false, &mut hw);
    assert!(matches!(r, Err(Error::EINVAL)));
    assert!(hw.is_empty());
}

#[test]
fn bind_writes_the_slot_and_rebind_does_not() {
    let mut hw: Vec<HwOp> = Vec::new();
    let mut u = uat(&mut hw);
    let mut vm = user_vm(&u, 1);
    hw.clear();
    let b = u.bind(&mut vm, 0, &mut hw).unwrap();
    assert_eq!(b, VmBind { vm_id: 1, slot: 1 });
    assert_eq!(b.slot(), 1);
    let ttb0 = ttbr(vm.ttb(), 1);
    assert_eq!(
        hw,
        vec![
            HwOp::HandoffLock,
            HwOp::WriteTtb {
                slot: 1,
                ttb0,
                ttb1: 0
            },
            HwOp::HandoffUnlock,
            HwOp::TlbiAsid { asid: 1 },
            HwOp::Sync,
        ]
    );
    assert_eq!(u.ttbs(1), SlotTtbs { ttb0, ttb1: 0 });
    u.unbind(&mut vm, b);
    assert_eq!(vm.binding.active_users, 0);
    // The same slot comes back and nothing is written.
    hw.clear();
    let again = u.bind(&mut vm, 0, &mut hw).unwrap();
    assert_eq!(again.slot, 1);
    assert!(hw.is_empty());
    assert_eq!(u.ttbs(1), SlotTtbs { ttb0, ttb1: 0 });
}

#[test]
fn bound_address_spaces_have_slots_of_their_own() {
    let mut hw: Vec<HwOp> = Vec::new();
    let mut u = uat(&mut hw);
    let mut a = user_vm(&u, 1);
    let mut b = user_vm(&u, 2);
    let ba = u.bind(&mut a, 0, &mut hw).unwrap();
    let bb = u.bind(&mut b, 0, &mut hw).unwrap();
    assert_ne!(ba.slot, bb.slot);
    assert_ne!(u.ttbs(ba.slot).ttb0, u.ttbs(bb.slot).ttb0);
    assert_eq!(u.ttbs(ba.slot).ttb0, ttbr(a.ttb(), ba.slot));
    assert_eq!(u.ttbs(bb.slot).ttb0, ttbr(b.ttb(), bb.slot));
}

#[test]
fn bind_is_busy_when_all_slots_are_in_use() {
    let mut hw: Vec<HwOp> = Vec::new();
    let mut u = uat(&mut hw);
    let mut vms: Vec<Vm> = Vec::new();
    for i in 0..63u64 {
        let mut vm = user_vm(&u, i + 1);
        let b = u.bind(&mut vm, 0, &mut hw).unwrap();
        assert_eq!(b.slot as u64, i + 1);
        vms.push(vm);
    }
    let mut extra = user_vm(&u, 100);
    hw.clear();
    assert_eq!(u.bind(&mut extra, 0, &mut hw), Err(Error::EBUSY));
    assert!(hw.is_empty());
    assert_eq!(extra.binding.active_users, 0);
}

#[test]
fn a_second_user_shares_the_binding() {
    let mut hw: Vec<HwOp> = Vec::new();
    let mut u = uat(&mut hw);
    let mut vm = user_vm(&u, 1);
    let b = u.bind(&mut vm, 0, &mut hw).unwrap();
    let c = u.clone_bind(&mut vm, &b).unwrap();
    assert_eq!(c, b);
    assert_eq!(vm.binding.active_users, 2);
    u.unbind(&mut vm, c);
    assert!(vm.binding.binding.is_some());
    u.unbind(&mut vm, b);
    assert!(vm.binding.binding.is_none());
    let mut other = user_vm(&u, 2);
    assert_eq!(u.clone_bind(&mut other, &b), Err(Error::EINVAL));
}

#[test]
fn dropping_an_address_space_clears_its_slot() {
    let mut hw: Vec<HwOp> = Vec::new();
    let mut u = uat(&mut hw);
    let mut vm = user_vm(&u, 1);
    let b = u.bind(&mut vm, 0, &mut hw).unwrap();
    u.unbind(&mut vm, b);
    hw.clear();
    u.drop_vm(&mut vm, 0, &mut hw);
    assert_eq!(
        hw,
        vec![
            HwOp::HandoffLock,
            HwOp::WriteTtb {
                slot: 1,
                ttb0: 0,
                ttb1: 0
            },
            HwOp::HandoffUnlock,
            HwOp::TlbiAsid { asid: 1 },
            HwOp::Sync,
        ]
    );
    assert_eq!(u.ttbs(1), SlotTtbs { ttb0: 0, ttb1: 0 });
    assert!(vm.binding.bind_token.is_none());
}

#[test]
fn a_slot_that_the_firmware_uses_is_not_cleared() {
    let mut hw: Vec<HwOp> = Vec::new();
    let mut u = uat(&mut hw);
    let mut vm = user_vm(&u, 1);
    let b = u.bind(&mut vm, 0, &mut hw).unwrap();
    u.unbind(&mut vm, b);
    let held = u.ttbs(1);
    hw.clear();
    u.drop_vm(&mut vm, 1, &mut hw);
    assert_eq!(
        hw,
        vec![
            HwOp::HandoffLock,
            HwOp::Warn {
                what: Warning::SlotInUse
            },
            HwOp::HandoffUnlock,
        ]
    );
    assert_eq!(u.ttbs(1), held);
    assert_ne!(held.ttb0, 0);
    assert!(vm.binding.bind_token.is_none());
}

#[test]
fn new_vm_checks_its_arguments() {
    let mut hw: Vec<HwOp> = Vec::new();
    let u = uat(&mut hw);
    assert!(matches!(u.new_vm(1, 0..0, 49, 0), Err(Error::EINVAL)));
    assert!(matches!(
        u.new_vm(1, 0..0, 40, MAX_TTB + 1),
        Err(Error::EINVAL)
    ));
    let vm = u.new_vm(7, 0x1000_0000..0x3000_0000, 40, 0x8000).unwrap();
    assert_eq!(vm.id, 7);
    assert_eq!(vm.ttb(), 0x8000);
    assert_eq!(vm.kernel_range, 0x1000_0000..0x3000_0000);
    assert_eq!(vm.slot(), None);
}

#[test]
fn kernel_mapping_leaves_nothing_behind() {
    let mut hw: Vec<HwOp> = Vec::new();
    let u = uat(&mut hw);
    let mut vm = user_vm(&u, 1);
    let pages = [0x80_0000u64, 0x90_0000, 0xa0_0000];
    let m = vm
        .map_at(0x10_0000_0000, 3 * PG, 5, &pages, PROT_FW_SHARED_RW, false)
        .unwrap();
    assert_eq!(m.iova(), 0x10_0000_0000);
    assert_eq!(m.size(), 3 * PG);
    assert_eq!(vm.nodes.len(), 1);
    assert_eq!(
        vm.page_table.lookup(0x10_0000_4000),
        Some(Pte {
            paddr: 0x90_0000,
            prot: PROT_FW_SHARED_RW
        })
    );
    hw.clear();
    vm.drop_mapping(m, &pages, None, 0, &mut hw);
    assert!(vm.nodes.is_empty());
    for i in 0..3u64 {
        assert_eq!(vm.page_table.lookup(0x10_0000_0000 + i * PG), None);
    }
    // The address space was never bound, so that there is nothing to
    // invalidate.
    assert!(hw.is_empty());
}

#[test]
fn kernel_mapping_is_invalidated_in_the_slot_last_used() {
    let mut hw: Vec<HwOp> = Vec::new();
    let mut u = uat(&mut hw);
    let mut vm = user_vm(&u, 1);
    let b = u.bind(&mut vm, 0, &mut hw).unwrap();
    let pages = [0x80_0000u64];
    let m = vm
        .map_at(0x10_0000_0000, PG, 5, &pages, PROT_FW_SHARED_RW, false)
        .unwrap();
    hw.clear();
    vm.drop_mapping(m, &pages, None, 0, &mut hw);
    assert_eq!(
        hw,
        vec![
            HwOp::TlbiRange {
                asid: b.slot as u8,
                start: 0x10_0000_0000,
                len: PG
            },
            HwOp::Sync
        ]
    );
}

#[test]
fn reserved_ranges_do_not_overlap() {
    let mut hw: Vec<HwOp> = Vec::new();
    let u = uat(&mut hw);
    let mut vm = user_vm(&u, 1);
    let pages = [0x80_0000u64, 0x90_0000];
    vm.map_at(0x10_0000_0000, 2 * PG, 5, &pages, 7, false).unwrap();
    let r = vm.map_at(0x10_0000_4000, 2 * PG, 6, &pages, 7, false);
    assert!(matches!(r, Err(Error::ENOSPC)));
    assert_eq!(vm.nodes.len(), 1);
    let r = vm.map_at(0x10_0000_8000, 2 * PG, 6, &pages, 7, false);
    assert!(r.is_ok());
}

#[test]
fn map_in_range_finds_a_free_aligned_place() {
    let mut hw: Vec<HwOp> = Vec::new();
    let u = uat(&mut hw);
    let mut vm = user_vm(&u, 1);
    let pages = [0x80_0000u64, 0x90_0000];
    let range = 0x10_0000_0000..0x10_0010_0000;
    let a = vm
        .map_in_range(2 * PG, 1, &pages, 0x8000, range.clone(), 7, true)
        .unwrap();
    let b = vm
        .map_in_range(2 * PG, 2, &pages, 0x8000, range.clone(), 7, true)
        .unwrap();
    assert_eq!(a.iova() % 0x8000, 0);
    assert_eq!(b.iova() % 0x8000, 0);
    assert!(a.iova() >= range.start && a.iova() + a.size() <= range.end);
    assert!(b.iova() >= range.start && b.iova() + b.size() <= range.end);
    // A guard page follows each mapping.
    assert_eq!(a.node.size, 3 * PG);
    assert!(b.iova() >= a.iova() + a.node.size || a.iova() >= b.iova() + b.node.size);
    assert_eq!(
        vm.page_table.lookup(b.iova() + PG),
        Some(Pte {
            paddr: 0x90_0000,
            prot: 7
        })
    );
}

#[test]
fn io_mapping_maps_consecutive_pages() {
    let mut hw: Vec<HwOp> = Vec::new();
    let u = uat(&mut hw);
    let mut vm = user_vm(&u, 1);
    let m = vm.map_io(0x10_0000_0000, 0x2_0000_0000, 2 * PG, 0x37).unwrap();
    assert_eq!(m.node.bo, None);
    assert_eq!(
        vm.page_table.lookup(0x10_0000_4000),
        Some(Pte {
            paddr: 0x2_0000_4000,
            prot: 0x37
        })
    );
    assert!(matches!(
        vm.map_io(0x10_0001_0001, 0x2_0000_0000, PG, 0x37),
        Err(Error::EINVAL)
    ));
}

#[test]
fn binding_an_object_maps_its_pages_and_unbinding_unmaps_them() {
    let mut hw: Vec<HwOp> = Vec::new();
    let u = uat(&mut hw);
    let mut vm = user_vm(&u, 1);
    let pages = [0x80_0000u64, 0x90_0000, 0xa0_0000, 0xb0_0000];
    hw.clear();
    // Two pages of the object from its second page on.
    vm.bind_object(9, &pages, 0x10_0000, 2 * PG, PG, PROT_GPU_SHARED_RW, &mut hw)
        .unwrap();
    assert_eq!(vm.vas.len(), 1);
    assert_eq!(
        vm.page_table.lookup(0x10_0000),
        Some(Pte {
            paddr: 0x90_0000,
            prot: PROT_GPU_SHARED_RW
        })
    );
    assert_eq!(
        vm.page_table.lookup(0x10_4000),
        Some(Pte {
            paddr: 0xa0_0000,
            prot: PROT_GPU_SHARED_RW
        })
    );
    assert_eq!(vm.page_table.lookup(0x10_8000), None);
    vm.unmap_range(0x10_0000, 2 * PG, &mut hw).unwrap();
    assert!(vm.vas.is_empty());
    assert_eq!(vm.page_table.lookup(0x10_0000), None);
    assert_eq!(vm.page_table.lookup(0x10_4000), None);
}

#[test]
fn unmapping_the_middle_splits_a_binding() {
    let mut hw: Vec<HwOp> = Vec::new();
    let u = uat(&mut hw);
    let mut vm = user_vm(&u, 1);
    let pages = [0x80_0000u64, 0x90_0000, 0xa0_0000];
    vm.bind_object(9, &pages, 0x10_0000, 3 * PG, 0, PROT_GPU_SHARED_RO, &mut hw)
        .unwrap();
    vm.unmap_range(0x10_4000, PG, &mut hw).unwrap();
    assert_eq!(vm.vas.len(), 2);
    assert_eq!(
        vm.page_table.lookup(0x10_0000),
        Some(Pte {
            paddr: 0x80_0000,
            prot: PROT_GPU_SHARED_RO
        })
    );
    assert_eq!(vm.page_table.lookup(0x10_4000), None);
    assert_eq!(
        vm.page_table.lookup(0x10_8000),
        Some(Pte {
            paddr: 0xa0_0000,
            prot: PROT_GPU_SHARED_RO
        })
    );
    let mut ranges: Vec<(u64, u64, u64)> =
        vm.vas.iter().map(|v| (v.addr, v.range, v.offset)).collect();
    ranges.sort();
    assert_eq!(ranges, vec![(0x10_0000, PG, 0), (0x10_8000, PG, 2 * PG)]);
}

#[test]
fn bindings_stay_out_of_the_kernel_range() {
    let mut hw: Vec<HwOp> = Vec::new();
    let u = uat(&mut hw);
    let mut vm = user_vm(&u, 1);
    let pages = [0x80_0000u64, 0x90_0000];
    hw.clear();
    let r = vm.bind_object(
        9,
        &pages,
        0x10_0000_0000 - PG,
        2 * PG,
        0,
        PROT_GPU_SHARED_WO,
        &mut hw,
    );
    assert_eq!(r, Err(Error::EINVAL));
    assert!(vm.vas.is_empty());
    assert!(hw.is_empty());
    // Nor do they reach the dummy page under the top of the user range.
    let r = vm.bind_object(
        9,
        &pages,
        0x7f_ffff_8000 - PG,
        2 * PG,
        0,
        PROT_GPU_SHARED_WO,
        &mut hw,
    );
    assert_eq!(r, Err(Error::EINVAL));
    let r = vm.bind_object(9, &pages, 0x10_0000, 0, 0, PROT_GPU_SHARED_WO, &mut hw);
    assert_eq!(r, Err(Error::EINVAL));
    assert!(vm.vas.is_empty());
}

#[test]
fn a_binding_longer_than_its_object_maps_what_there_is() {
    let mut hw: Vec<HwOp> = Vec::new();
    let u = uat(&mut hw);
    let mut vm = user_vm(&u, 1);
    let pages = [0x80_0000u64, 0x90_0000];
    let r = vm.bind_object(9, &pages, 0x10_0000, 3 * PG, PG, PROT_GPU_SHARED_WO, &mut hw);
    assert_eq!(r, Ok(()));
    assert_eq!(
        vm.page_table.lookup(0x10_0000),
        Some(Pte {
            paddr: 0x90_0000,
            prot: PROT_GPU_SHARED_WO
        })
    );
    assert_eq!(vm.page_table.lookup(0x10_4000), None);
}

#[test]
fn dropping_the_mappings_of_an_object_spares_the_others() {
    let mut hw: Vec<HwOp> = Vec::new();
    let u = uat(&mut hw);
    let mut vm = user_vm(&u, 1);
    let pages = [0x80_0000u64];
    let other = [0xc0_0000u64];
    vm.bind_object(9, &pages, 0x10_0000, PG, 0, 7, &mut hw).unwrap();
    vm.bind_object(10, &other, 0x20_0000, PG, 0, 7, &mut hw).unwrap();
    vm.bind_object(9, &pages, 0x30_0000, PG, 0, 7, &mut hw).unwrap();
    vm.drop_mappings(9, &mut hw);
    assert_eq!(vm.vas.len(), 1);
    assert_eq!(vm.vas[0].bo, 10);
    assert_eq!(vm.page_table.lookup(0x10_0000), None);
    assert_eq!(vm.page_table.lookup(0x30_0000), None);
    assert!(vm.page_table.lookup(0x20_0000).is_some());
}

#[test]
fn reserving_and_removing_a_node() {
    let mut hw: Vec<HwOp> = Vec::new();
    let u = uat(&mut hw);
    let mut vm = user_vm(&u, 1);
    let node = Node {
        start: 0x10_0000_0000,
        size: 2 * PG,
        mapped_size: PG,
        prot: 7,
        bo: None,
    };
    assert_eq!(vm.reserve_node(node), Ok(()));
    assert_eq!(vm.reserve_node(node), Err(Error::ENOSPC));
    vm.remove_node(0x10_0000_0000);
    assert!(vm.nodes.is_empty());
    assert_eq!(vm.reserve_node(node), Ok(()));
}

#[test]
fn handoff_lock_follows_the_protocol() {
    let mut l = HandoffLock::new();
    assert_eq!(l.state, LockState::Unlocked);
    assert_eq!(l.lock(), LockAction::RaiseFlag);
    assert_eq!(l.lock_ap, 1);
    // The firmware holds its flag up and it is our turn: wait.
    assert_eq!(l.poll(1, 0), LockAction::Wait);
    // It is the firmware's turn: back off.
    assert_eq!(l.poll(1, 1), LockAction::LowerFlag);
    assert_eq!(l.lock_ap, 0);
    assert_eq!(l.poll(1, 1), LockAction::Wait);
    assert_eq!(l.poll(1, 0), LockAction::RaiseFlag);
    assert_eq!(l.lock_ap, 1);
    // The firmware lowered its flag.
    assert_eq!(l.poll(0, 0), LockAction::Acquire);
    assert_eq!(l.state, LockState::Locked);
    l.unlock();
    assert_eq!(l.state, LockState::Unlocked);
    assert_eq!(l.lock_ap, 0);
}

#[test]
fn handoff_lock_is_taken_at_once_when_free() {
    let mut l = HandoffLock::new();
    l.lock();
    assert_eq!(l.poll(0, 1), LockAction::Acquire);
    assert_eq!(l.state, LockState::Locked);
}

#[test]
fn handoff_init_waits_for_the_firmware() {
    assert_eq!(init_poll(0, PPL_MAGIC), Ok(InitStep::Ready));
    assert_eq!(init_poll(0, 0), Ok(InitStep::Sleep(HANDOFF_POLL_NS)));
    assert_eq!(
        init_poll(HANDOFF_TIMEOUT_NS - 1, 1),
        Ok(InitStep::Sleep(HANDOFF_POLL_NS))
    );
    assert_eq!(init_poll(HANDOFF_TIMEOUT_NS, 0), Err(Error::EIO));
    assert_eq!(init_poll(HANDOFF_TIMEOUT_NS, PPL_MAGIC), Ok(InitStep::Ready));
    let h = Handoff::init();
    assert_eq!(h.magic_ap, PPL_MAGIC);
    assert_eq!(h.magic_fw, 0);
    assert_eq!(h.flush.len(), 65);
}

#[test]
fn current_slot_word_names_a_slot_or_none() {
    assert_eq!(current_slot(0), None);
    assert_eq!(current_slot(u32::MAX), None);
    assert_eq!(current_slot(1), Some(1));
    assert_eq!(current_slot(63), Some(63));
}

#[test]
fn flush_slot_goes_through_its_states() {
    let mut f = FlushInfo {
        state: FLUSH_IDLE,
        addr: 0,
        size: 0,
    };
    assert!(f.begin_flush(0x4000, 0x8000));
    assert_eq!(
        f,
        FlushInfo {
            state: FLUSH_REQUESTED,
            addr: 0x4000,
            size: 0x8000
        }
    );
    assert!(!f.end_flush());
    f.state = FLUSH_DONE;
    assert!(f.end_flush());
    assert_eq!(f.state, FLUSH_IDLE);
}

#[test]
fn map_in_range_takes_the_lowest_place() {
    let mut hw: Vec<HwOp> = Vec::new();
    let u = uat(&mut hw);
    let mut vm = user_vm(&u, 1);
    let base = 0x10_0000_0000u64;
    let two = [0x80_0000u64, 0x90_0000];
    let three = [0x80_0000u64, 0x90_0000, 0xa0_0000];
    vm.map_at(base, 2 * PG, 1, &two, 7, false).unwrap();
    vm.map_at(base + 4 * PG, 2 * PG, 2, &two, 7, false).unwrap();
    let range = base..base + 16 * PG;
    // Three pages do not fit the gap of two; two do.
    let m = vm
        .map_in_range(3 * PG, 3, &three, 0, range.clone(), 7, false)
        .unwrap();
    assert_eq!(m.iova(), base + 6 * PG);
    let m = vm
        .map_in_range(2 * PG, 4, &two, 0, range.clone(), 7, false)
        .unwrap();
    assert_eq!(m.iova(), base + 2 * PG);
    // With an alignment of four pages the next place is at twelve.
    let m = vm
        .map_in_range(PG, 5, &two[..1], 4 * PG, range.clone(), 7, false)
        .unwrap();
    assert_eq!(m.iova(), base + 12 * PG);
    // A guard page is reserved but not mapped.
    let m = vm
        .map_in_range(PG, 6, &two[..1], 0, range.clone(), 7, true)
        .unwrap();
    assert_eq!(m.iova(), base + 9 * PG);
    assert_eq!(m.node.size, 2 * PG);
    assert_eq!(vm.page_table.lookup(base + 10 * PG), None);
}

#[test]
fn map_in_range_fails_when_there_is_no_place() {
    let mut hw: Vec<HwOp> = Vec::new();
    let u = uat(&mut hw);
    let mut vm = user_vm(&u, 1);
    let base = 0x10_0000_0000u64;
    let two = [0x80_0000u64, 0x90_0000];
    let range = base..base + 3 * PG;
    assert!(matches!(
        vm.map_in_range(2 * PG, 1, &two, 0, range.clone(), 7, true),
        Ok(_)
    ));
    assert!(matches!(
        vm.map_in_range(PG, 2, &two[..1], 0, range.clone(), 7, false),
        Err(Error::ENOSPC)
    ));
    assert!(matches!(
        vm.map_in_range(0, 2, &[], 0, base + 8 * PG..base + 16 * PG, 7, false),
        Err(Error::ENOSPC)
    ));
    assert!(matches!(
        vm.map_in_range(PG, 2, &two[..1], 0, base + 8 * PG..base + 8 * PG, 7, false),
        Err(Error::ENOSPC)
    ));
    assert!(matches!(
        vm.map_in_range(u64::MAX, 2, &two[..1], 0, range, 7, true),
        Err(Error::ENOSPC)
    ));
    assert_eq!(vm.nodes.len(), 1);
}

#[test]
fn cached_mapping_is_made_uncached_before_it_goes() {
    let mut hw: Vec<HwOp> = Vec::new();
    let mut u = uat(&mut hw);
    let mut vm = user_vm(&u, 1);
    let pages = [0x80_0000u64, 0x90_0000];
    let base = 0x10_0000_0000u64;
    let m = vm
        .map_at(base, 2 * PG, 5, &pages, PROT_FW_PRIV_RW, false)
        .unwrap();
    // The address space never had a slot: nothing to flush.
    hw.clear();
    assert_eq!(vm.remap_uncached_and_flush(&m, &pages, Some(1), 0, &mut hw), None);
    assert!(hw.is_empty());
    assert_eq!(
        vm.page_table.lookup(base + PG),
        Some(Pte {
            paddr: 0x90_0000,
            prot: PROT_FW_PRIV_RW | PROT_CACHE
        })
    );
    // Bound, and in use by the firmware: the range is to be flushed.
    let b = u.bind(&mut vm, 0, &mut hw).unwrap();
    let ttb_cur = u.ttbs(b.slot).ttb0;
    hw.clear();
    assert_eq!(
        vm.remap_uncached_and_flush(&m, &pages, Some(b.slot), ttb_cur, &mut hw),
        Some(FlushRequest {
            slot: b.slot,
            iova: base,
            size: 2 * PG,
            page_count: 2
        })
    );
    assert!(hw.is_empty());
    // The firmware uses another slot, or the slot holds something else.
    assert_eq!(
        vm.remap_uncached_and_flush(&m, &pages, Some(b.slot + 1), ttb_cur, &mut hw),
        None
    );
    assert_eq!(
        vm.remap_uncached_and_flush(&m, &pages, Some(b.slot), ttb_cur + PG, &mut hw),
        None
    );
    // A mapping of no object cannot be mapped again.
    let io = vm.map_io(base + 8 * PG, 0x2_0000_0000, PG, 0x33).unwrap();
    hw.clear();
    vm.remap_uncached_and_flush(&io, &[], None, 0, &mut hw);
    assert_eq!(
        hw,
        vec![HwOp::Warn {
            what: Warning::RemapFailed
        }]
    );
    assert_eq!(vm.page_table.lookup(base + 8 * PG), None);
}

#[test]
fn cached_mapping_is_flushed_before_it_is_unmapped() {
    let mut hw: Vec<HwOp> = Vec::new();
    let mut u = uat(&mut hw);
    let mut vm = user_vm(&u, 1);
    let pages = [0x80_0000u64, 0x90_0000];
    let base = 0x10_0000_0000u64;
    let m = vm
        .map_at(base, 2 * PG, 5, &pages, PROT_FW_PRIV_RW, false)
        .unwrap();
    let b = u.bind(&mut vm, 0, &mut hw).unwrap();
    let ttb_cur = u.ttbs(b.slot).ttb0;
    hw.clear();
    vm.drop_mapping(m, &pages, Some(b.slot), ttb_cur, &mut hw);
    assert_eq!(
        hw,
        vec![
            HwOp::FwFlush {
                slot: b.slot,
                iova: base,
                size: 2 * PG,
                page_count: 2
            },
            HwOp::TlbiRange {
                asid: b.slot as u8,
                start: base,
                len: 2 * PG
            },
            HwOp::Sync,
        ]
    );
    assert!(vm.nodes.is_empty());
    assert_eq!(vm.page_table.lookup(base), None);
    assert_eq!(vm.page_table.lookup(base + PG), None);
    // The firmware is elsewhere: nothing to flush.
    let m = vm
        .map_at(base, 2 * PG, 5, &pages, PROT_FW_PRIV_RW, false)
        .unwrap();
    hw.clear();
    vm.drop_mapping(m, &pages, Some(b.slot + 1), ttb_cur, &mut hw);
    assert_eq!(
        hw,
        vec![
            HwOp::TlbiRange {
                asid: b.slot as u8,
                start: base,
                len: 2 * PG
            },
            HwOp::Sync,
        ]
    );
    // A coherent mapping is unmapped as it is.
    let m = vm
        .map_at(base, PG, 5, &pages[..1], PROT_FW_SHARED_RW, false)
        .unwrap();
    hw.clear();
    vm.drop_mapping(m, &pages[..1], Some(b.slot), ttb_cur, &mut hw);
    assert_eq!(hw.len(), 2);
    assert!(!hw.iter().any(|op| matches!(op, HwOp::FwFlush { .. })));
}

#[test]
fn unmapping_everything_spares_the_kernel_part() {
    let mut hw: Vec<HwOp> = Vec::new();
    let u = uat(&mut hw);
    let mut vm = user_vm(&u, 1);
    let pages = [0x80_0000u64];
    vm.bind_object(9, &pages, 0x10_0000, PG, 0, PROT_GPU_SHARED_RW, &mut hw)
        .unwrap();
    vm.bind_object(9, &pages, 0x20_0000_0000, PG, 0, PROT_GPU_SHARED_RW, &mut hw)
        .unwrap();
    let m = vm
        .map_at(0x10_0000_0000, PG, 5, &pages, PROT_FW_SHARED_RW, false)
        .unwrap();
    vm.unmap_all(&mut hw);
    assert!(vm.vas.is_empty());
    assert_eq!(vm.page_table.lookup(0x10_0000), None);
    assert_eq!(vm.page_table.lookup(0x20_0000_0000), None);
    assert!(vm.page_table.lookup(m.iova()).is_some());
    assert_eq!(vm.nodes.len(), 1);
}
