use asahi::error::Error;
use asahi::heap::{HeapAllocator, HeapConfig};
use asahi::slotalloc::{SlotAllocator, SlotToken};
use asahi::util::{align, align_down, div_ceil, RangeExt};
use asahi::wire::{
    push_u16, push_u32, push_u64, read_bytes, read_u16, read_u32, read_u64, write_bytes,
    write_u32,
};
use asahi::workqueue::{next_stamp, EventChannel, Status, WorkError};
use asahi::xarray::IdTable;

#[test]
fn align_rounds_up_to_the_next_multiple() {
    assert_eq!(align(0, 0x4000), 0);
    assert_eq!(align(1, 0x4000), 0x4000);
    assert_eq!(align(0x4000, 0x4000), 0x4000);
    assert_eq!(align(0x4001, 0x4000), 0x8000);
    assert_eq!(align(127, 0x80), 128);
    assert_eq!(align(129, 0x80), 256);
}

#[test]
fn align_down_rounds_to_the_multiple_below() {
    assert_eq!(align_down(0x7fff, 0x4000), 0x4000);
    assert_eq!(align_down(0x3fff, 0x4000), 0);
    assert_eq!(align_down(0x8000, 0x4000), 0x8000);
}

#[test]
fn div_ceil_rounds_up() {
    assert_eq!(div_ceil(0, 32), 0);
    assert_eq!(div_ceil(1, 32), 1);
    assert_eq!(div_ceil(32, 32), 1);
    assert_eq!(div_ceil(33, 32), 2);
    assert_eq!(div_ceil(16384, 32), 512);
}

#[test]
fn ranges_overlap_and_contain() {
    let a = 0x1000u64..0x2000u64;
    assert!(a.overlaps(0x1fffu64..0x3000u64));
    assert!(!a.overlaps(0x2000u64..0x3000u64));
    assert!(!a.overlaps(0x0u64..0x1000u64));
    assert!(a.is_superset(0x1000u64..0x2000u64));
    assert!(a.is_superset(0x1800u64..0x1900u64));
    assert!(!a.is_superset(0x1800u64..0x2001u64));
    assert_eq!(a.range(), 0x1000);
}

#[test]
fn wire_integers_are_little_endian() {
    let mut out: Vec<u8> = Vec::new();
    push_u16(&mut out, 0x1234);
    push_u32(&mut out, 0xdeadbeef);
    push_u64(&mut out, 0x0102030405060708);
    assert_eq!(
        out,
        vec![0x34, 0x12, 0xef, 0xbe, 0xad, 0xde, 8, 7, 6, 5, 4, 3, 2, 1]
    );
    assert_eq!(read_u16(&out, 0), 0x1234);
    assert_eq!(read_u32(&out, 2), 0xdeadbeef);
    assert_eq!(read_u64(&out, 6), 0x0102030405060708);
}

#[test]
fn wire_writes_in_place() {
    let mut buf: Vec<u8> = vec![0; 8];
    write_u32(&mut buf, 2, 0x11223344);
    assert_eq!(buf, vec![0, 0, 0x44, 0x33, 0x22, 0x11, 0, 0]);
    write_bytes(&mut buf, 0, &[9, 8]);
    assert_eq!(buf, vec![9, 8, 0x44, 0x33, 0x22, 0x11, 0, 0]);
    assert_eq!(read_bytes(&buf, 1, 3), vec![8, 0x44, 0x33]);
}

#[test]
fn slot_is_reused_unchanged_when_nobody_took_it() {
    let mut a = SlotAllocator::new(2);
    let g = a.get(None).unwrap();
    assert!(g.changed);
    assert_eq!(g.slot, 0);
    assert!(!a.is_free(0));
    let token = g.token;
    a.release(g).unwrap();
    assert!(a.is_free(0));
    let again = a.get(Some(token)).unwrap();
    assert_eq!(again.slot, 0);
    assert!(!again.changed);
    assert_eq!(again.token, token);
}

#[test]
fn slot_allocator_evicts_the_slot_free_the_longest() {
    let mut a = SlotAllocator::new(2);
    let g0 = a.get(None).unwrap();
    let g1 = a.get(None).unwrap();
    assert_eq!((g0.slot, g1.slot), (0, 1));
    let t0 = g0.token;
    a.release(g1).unwrap();
    a.release(g0).unwrap();
    // Slot 1 was given back first, so that a new user gets it.
    let g = a.get(None).unwrap();
    assert_eq!(g.slot, 1);
    assert!(g.changed);
    // Another new user evicts the tenure of the first token.
    let h = a.get(None).unwrap();
    assert_eq!(h.slot, 0);
    assert!(h.changed);
    a.release(h).unwrap();
    let back = a.get(Some(t0)).unwrap();
    assert_eq!(back.slot, 0);
    assert!(back.changed);
}

#[test]
fn slot_allocator_is_busy_when_all_slots_are_out() {
    let mut a = SlotAllocator::new(1);
    assert_eq!(a.num_slots(), 1);
    let g = a.get(None).unwrap();
    assert_eq!(a.get(None), Err(Error::EBUSY));
    assert_eq!(
        a.get(Some(SlotToken { time: 77, slot: 0 })),
        Err(Error::EBUSY)
    );
    a.release(g).unwrap();
    // A slot that is free cannot be given back.
    assert_eq!(a.release(g), Err(Error::EINVAL));
}

#[test]
fn slot_token_tells_its_slot() {
    let t = SlotToken { time: 3, slot: 5 };
    assert_eq!(t.last_slot(), 5);
}

#[test]
fn id_table_hands_out_the_lowest_free_id() {
    let mut t: IdTable<u32> = IdTable::new();
    assert_eq!(t.insert(10), Ok(1));
    assert_eq!(t.insert(20), Ok(2));
    assert_eq!(t.insert(30), Ok(3));
    assert_eq!(t.get(2), Some(&20));
    assert_eq!(t.remove(2), Some(20));
    assert!(!t.contains(2));
    assert_eq!(t.get(2), None);
    assert_eq!(t.remove(2), None);
    assert_eq!(t.next_id(), Ok(2));
    assert_eq!(t.insert(40), Ok(2));
    assert_eq!(t.insert(50), Ok(4));
    assert_eq!(t.get(0), None);
}

#[test]
fn heap_allocations_follow_each_other_aligned() {
    let cfg = HeapConfig {
        vm_id: 1,
        iova_range: 0x10000..0x20000,
        page_size: 0x4000,
        default_prot: 0,
        chunk_bytes: 0x4000,
        zeroed: true,
    };
    let mut h = HeapAllocator::new(cfg).unwrap();
    let a = h.allocate(0x30, 0x80).unwrap();
    assert_eq!((a.gpu_ptr, a.size), (0x10000, 0x30));
    let b = h.allocate(0x100, 0x80).unwrap();
    assert_eq!(b.gpu_ptr, 0x10080);
    assert_eq!(h.mark(), 0x10180);
    assert_eq!(h.allocate(0x10000, 0x80), Err(Error::ENOMEM));
    assert_eq!(h.allocate(1, 0), Err(Error::EINVAL));
    assert_eq!(h.mark(), 0x10180);
    h.release_to(0x10080);
    let c = h.allocate(8, 8).unwrap();
    assert_eq!(c.gpu_ptr, 0x10080);
}

#[test]
fn heap_run_is_all_or_nothing() {
    let cfg = HeapConfig {
        vm_id: 1,
        iova_range: 0x4000..0x8000,
        page_size: 0x4000,
        default_prot: 0,
        chunk_bytes: 0x4000,
        zeroed: false,
    };
    let mut h = HeapAllocator::new(cfg).unwrap();
    let v = h.allocate_all(&[0x10, 0x20, 0x100], 0x40).unwrap();
    let ptrs: Vec<u64> = v.iter().map(|a| a.gpu_ptr).collect();
    assert_eq!(ptrs, vec![0x4000, 0x4040, 0x4080]);
    assert_eq!(h.mark(), 0x4180);
    assert!(matches!(
        h.allocate_all(&[0x100, 0x4000], 0x40),
        Err(Error::ENOMEM)
    ));
    assert_eq!(h.mark(), 0x4180);
}

#[test]
fn heap_rejects_a_window_that_is_empty_or_off_a_page() {
    let bad = HeapConfig {
        vm_id: 0,
        iova_range: 0x4000..0x4000,
        page_size: 0x4000,
        default_prot: 0,
        chunk_bytes: 0,
        zeroed: false,
    };
    assert!(matches!(HeapAllocator::new(bad), Err(Error::EINVAL)));
    let off = HeapConfig {
        vm_id: 0,
        iova_range: 0x4000..0x9000,
        page_size: 0x4000,
        default_prot: 0,
        chunk_bytes: 0,
        zeroed: false,
    };
    assert!(matches!(HeapAllocator::new(off), Err(Error::EINVAL)));
}

#[test]
fn stamps_advance_by_one_and_wrap() {
    assert_eq!(next_stamp(0), 1);
    assert_eq!(next_stamp(41), 42);
    assert_eq!(next_stamp(u32::MAX), 0);
    let mut ev = EventChannel {
        stamp_pointer: 0x100,
        fw_stamp_pointer: 0x200,
        slot: 3,
        value: u32::MAX,
        info_ptr: 0x300,
        event_seq: 9,
    };
    ev.advance();
    assert_eq!(ev.value, 0);
    assert_eq!(ev.event_seq, 10);
    assert_eq!(ev.slot, 3);
}

#[test]
fn work_errors_map_to_statuses() {
    assert_eq!(WorkError::Timeout.status(), Status::Timeout);
    assert_eq!(WorkError::Fault.status(), Status::Fault);
    assert_eq!(WorkError::Killed.status(), Status::Killed);
    assert_eq!(WorkError::NoDevice.status(), Status::NoDevice);
    assert_eq!(WorkError::Unknown.status(), Status::UnknownError);
}

#[test]
fn errors_have_their_numbers() {
    assert_eq!(Error::ENOENT.to_errno(), -2);
    assert_eq!(Error::EIO.to_errno(), -5);
    assert_eq!(Error::ENOMEM.to_errno(), -12);
    assert_eq!(Error::EFAULT.to_errno(), -14);
    assert_eq!(Error::EBUSY.to_errno(), -16);
    assert_eq!(Error::EEXIST.to_errno(), -17);
    assert_eq!(Error::ENODEV.to_errno(), -19);
    assert_eq!(Error::EINVAL.to_errno(), -22);
    assert_eq!(Error::ENOSPC.to_errno(), -28);
    assert_eq!(Error::EDOM.to_errno(), -33);
    assert_eq!(Error::ERESTARTSYS.to_errno(), -512);
}
