use asahi::aop::{
    boot_patches, epic_header_bytes, from_fourcc, parse_epic_header, parse_qe_header,
    patch_bootargs, qe_header_bytes, service_device, start, start_cpu, AFKEndpoint, AFKRingBuffer, AfkAction,
    BootargPatch, EPICHeader, EPICService, FakehidReport, Listeners, QEHeader, ServiceDevice,
    AFK_MSG_GET_BUF_ACK, AFK_MSG_INIT, AFK_MSG_INIT_ACK, AFK_MSG_SHUTDOWN, AFK_MSG_START,
    EPIC_HEADER_SIZE, QE_MAGIC1, QE_MAGIC2,
};
use asahi::error::Error;
use asahi::sensors::{als_process, als_property, enable_als, f32_to_u32, las_process};
use asahi::sep::{build_shmem, BootState, FwRegionParams, Message, SepAction, SepData};

const TX: usize = 0;
const RX: usize = 0x400;
const BLOCK: usize = 0x40;
const BUF: usize = 0x340;

fn opc(op: u64) -> u64 {
    op << 48
}

fn ring_msg(op: u64, offset: usize, size: usize) -> u64 {
    opc(op) | (((offset / BLOCK) as u64) << 32) | (((size / BLOCK) as u64) << 16)
}

fn put32(mem: &mut Vec<u8>, off: usize, v: u32) {
    mem[off..off + 4].copy_from_slice(&v.to_le_bytes());
}

fn get32(mem: &[u8], off: usize) -> u32 {
    u32::from_le_bytes([mem[off], mem[off + 1], mem[off + 2], mem[off + 3]])
}

/// An endpoint that went through the handshake: it has its shared region
/// and both rings.
fn running() -> AFKEndpoint {
    let mut ep = AFKEndpoint::new(0x20);
    let mut out: Vec<AfkAction> = Vec::new();
    let mut reports: Vec<FakehidReport> = Vec::new();
    let mut mem: Vec<u8> = vec![0; 0x1000];
    put32(&mut mem, TX, BUF as u32);
    put32(&mut mem, RX, BUF as u32);
    ep.set_buffer(mem, 0x8000_0000, &mut out).unwrap();
    ep.recv_message(ring_msg(0x8a, TX, 0x400), &mut out, &mut reports)
        .unwrap();
    ep.recv_message(ring_msg(0x8b, RX, 0x400), &mut out, &mut reports)
        .unwrap();
    ep
}

fn reply_header(category: u8, subtype: u16, tag: u16, length: u32) -> EPICHeader {
    EPICHeader {
        version: 2,
        seq: 0,
        timestamp: 0,
        length,
        sub_version: 2,
        category,
        subtype,
        tag,
        inline_len: 0,
    }
}

/// Puts a message into the receive ring as the firmware does, and moves the
/// write pointer behind it.
fn firmware_sends(ep: &mut AFKEndpoint, channel: u32, hdr: &EPICHeader, payload: &[u8]) {
    let mem = ep.iomem.as_mut().unwrap();
    let wptr = get32(mem, RX + 2 * BLOCK) as usize;
    let base = RX + 3 * BLOCK;
    let mut frame = qe_header_bytes(&QEHeader {
        magic: QE_MAGIC2,
        size: (EPIC_HEADER_SIZE + payload.len()) as u32,
        channel,
        ty: 0,
    });
    frame.extend_from_slice(&epic_header_bytes(hdr));
    frame.extend_from_slice(payload);
    // A message that does not fit behind the write pointer leaves its
    // header there and goes to the start of the buffer.
    let at = if frame.len() > BUF - wptr {
        mem[base + wptr..base + wptr + 16].copy_from_slice(&frame[..16]);
        0
    } else {
        wptr
    };
    mem[base + at..base + at + frame.len()].copy_from_slice(&frame);
    let next = ((at + frame.len() + BLOCK - 1) & !(BLOCK - 1)) % BUF;
    put32(mem, RX + 2 * BLOCK, next as u32);
}

fn announce(name: &[u8], channel: u32) -> Vec<u8> {
    let mut data: Vec<u8> = vec![0; 44];
    data[..name.len()].copy_from_slice(name);
    data[32..36].copy_from_slice(&channel.to_le_bytes());
    data
}

#[test]
fn handshake_sets_up_the_endpoint() {
    let mut ep = AFKEndpoint::new(0x21);
    let mut out: Vec<AfkAction> = Vec::new();
    let mut reports: Vec<FakehidReport> = Vec::new();
    assert_eq!(
        ep.start(),
        AfkAction::Send {
            endpoint: 0x21,
            msg: AFK_MSG_INIT
        }
    );
    ep.recv_message(opc(0x80), &mut out, &mut reports).unwrap();
    assert_eq!(
        out,
        vec![AfkAction::Send {
            endpoint: 0x21,
            msg: AFK_MSG_INIT_ACK
        }]
    );
    out.clear();
    ep.recv_message(opc(0x89) | (0x40 << 16), &mut out, &mut reports)
        .unwrap();
    assert_eq!(
        out,
        vec![AfkAction::AllocBuffer {
            endpoint: 0x21,
            size: 0x40 * 0x40
        }]
    );
    out.clear();
    let mut mem: Vec<u8> = vec![0; 0x1000];
    put32(&mut mem, TX, BUF as u32);
    put32(&mut mem, RX, BUF as u32);
    ep.set_buffer(mem, 0x8000_0000, &mut out).unwrap();
    assert_eq!(
        out,
        vec![AfkAction::Send {
            endpoint: 0x21,
            msg: AFK_MSG_GET_BUF_ACK | 0x8000_0000
        }]
    );
    out.clear();
    ep.recv_message(ring_msg(0x8b, RX, 0x400), &mut out, &mut reports)
        .unwrap();
    assert!(out.is_empty());
    assert_eq!(
        ep.rxbuf,
        Some(AFKRingBuffer {
            offset: RX,
            block_size: BLOCK,
            buf_size: BUF
        })
    );
    ep.recv_message(ring_msg(0x8a, TX, 0x400), &mut out, &mut reports)
        .unwrap();
    assert_eq!(
        ep.txbuf,
        Some(AFKRingBuffer {
            offset: TX,
            block_size: BLOCK,
            buf_size: BUF
        })
    );
    // Both rings are there: the firmware is told to start.
    assert_eq!(
        out,
        vec![AfkAction::Send {
            endpoint: 0x21,
            msg: AFK_MSG_START
        }]
    );
    out.clear();
    // Messages that carry nothing or are not known are passed over.
    ep.recv_message(opc(0x86), &mut out, &mut reports).unwrap();
    ep.recv_message(opc(0x8c), &mut out, &mut reports).unwrap();
    ep.recv_message(opc(0x33), &mut out, &mut reports).unwrap();
    assert!(out.is_empty());
    assert_eq!(
        ep.stop(),
        AfkAction::Send {
            endpoint: 0x21,
            msg: AFK_MSG_SHUTDOWN
        }
    );
    ep.recv_message(opc(0xc1), &mut out, &mut reports).unwrap();
    assert_eq!(out, vec![AfkAction::ShutdownComplete { endpoint: 0x21 }]);
}

#[test]
fn handshake_refuses_what_is_there_already() {
    let mut ep = running();
    let mut out: Vec<AfkAction> = Vec::new();
    let mut reports: Vec<FakehidReport> = Vec::new();
    assert_eq!(
        ep.recv_message(ring_msg(0x8a, TX, 0x400), &mut out, &mut reports),
        Err(Error::EIO)
    );
    assert_eq!(
        ep.recv_message(ring_msg(0x8b, RX, 0x400), &mut out, &mut reports),
        Err(Error::EIO)
    );
    assert_eq!(
        ep.recv_message(opc(0x89) | (0x40 << 16), &mut out, &mut reports),
        Err(Error::EIO)
    );
    assert_eq!(ep.set_buffer(vec![0; 16], 0, &mut out), Err(Error::EIO));
    assert!(out.is_empty());
    // A ring cannot be named before there is a region to hold it.
    let mut fresh = AFKEndpoint::new(0x20);
    assert_eq!(
        fresh.recv_message(ring_msg(0x8a, TX, 0x400), &mut out, &mut reports),
        Err(Error::EIO)
    );
    assert_eq!(
        fresh.recv_message(opc(0x85), &mut out, &mut reports),
        Err(Error::EIO)
    );
}

#[test]
fn epic_round_trip() {
    let mut ep = running();
    let mut out: Vec<AfkAction> = Vec::new();
    let mut reports: Vec<FakehidReport> = Vec::new();
    let tag = ep.epic_notify(7, 0x20, &[1, 2, 3, 4], &mut out).unwrap();
    assert_eq!(tag, 1);
    assert!(ep.calls[0]);
    assert_eq!(ep.seq, 1);
    // The message is in the transmit ring and the firmware is told where
    // the ring ends now.
    assert_eq!(
        out,
        vec![AfkAction::Send {
            endpoint: 0x20,
            msg: 0x80 | (0xa2 << 48)
        }]
    );
    let mem = ep.iomem.as_ref().unwrap();
    let base = TX + 3 * BLOCK;
    assert_eq!(
        parse_qe_header(mem, base),
        QEHeader {
            magic: QE_MAGIC1,
            size: 52,
            channel: 7,
            ty: 0
        }
    );
    assert_eq!(
        parse_epic_header(mem, base + 16),
        EPICHeader {
            version: 2,
            seq: 0,
            timestamp: 0,
            length: 4,
            sub_version: 2,
            category: 0x10,
            subtype: 0x20,
            tag: 1,
            inline_len: 0
        }
    );
    assert_eq!(mem[base + 64..base + 68], [1, 2, 3, 4]);
    assert_eq!(get32(mem, TX + 2 * BLOCK), 0x80);

    // The firmware answers with the tag and a return code.
    out.clear();
    firmware_sends(&mut ep, 7, &reply_header(0x20, 0xa0, tag, 4), &0x2au32.to_le_bytes());
    ep.recv_message(opc(0x85), &mut out, &mut reports).unwrap();
    assert_eq!(
        out,
        vec![AfkAction::CallComplete {
            endpoint: 0x20,
            tag: 1,
            retcode: 0x2a
        }]
    );
    assert!(!ep.calls[0]);
    // The read pointer has caught up with the write pointer.
    let mem = ep.iomem.as_ref().unwrap();
    assert_eq!(get32(mem, RX + BLOCK), get32(mem, RX + 2 * BLOCK));
    // The tag can be used again.
    out.clear();
    assert_eq!(ep.epic_notify(7, 0x20, &[], &mut out), Ok(1));
}

#[test]
fn at_most_eight_calls_wait_for_their_reply() {
    let mut ep = running();
    let mut out: Vec<AfkAction> = Vec::new();
    for want in 1..=8u16 {
        // The firmware takes the messages out as they come.
        let mem = ep.iomem.as_mut().unwrap();
        let wptr = get32(mem, TX + 2 * BLOCK);
        put32(mem, TX + BLOCK, wptr);
        assert_eq!(ep.epic_notify(1, 0x20, &[0; 8], &mut out), Ok(want));
    }
    out.clear();
    assert_eq!(ep.epic_notify(1, 0x20, &[0; 8], &mut out), Err(Error::EIO));
    assert!(out.is_empty());
    assert_eq!(ep.seq, 8);
}

#[test]
fn a_message_that_does_not_fit_the_ring_is_refused() {
    let mut ep = running();
    let mut out: Vec<AfkAction> = Vec::new();
    let big = vec![0u8; BUF];
    assert_eq!(ep.epic_notify(1, 0x20, &big, &mut out), Err(Error::EIO));
    assert!(out.is_empty());
    assert!(!ep.calls[0]);
    let mut fresh = AFKEndpoint::new(0x20);
    assert_eq!(fresh.epic_notify(1, 0x20, &[], &mut out), Err(Error::EIO));
}

#[test]
fn replies_need_a_call_that_waits() {
    let mut ep = running();
    let mut out: Vec<AfkAction> = Vec::new();
    let mut reports: Vec<FakehidReport> = Vec::new();
    let q = QEHeader {
        magic: QE_MAGIC1,
        size: 52,
        channel: 1,
        ty: 0,
    };
    let code = 5u32.to_le_bytes();
    for tag in [0u16, 1, 8, 9, 0xffff] {
        let r = ep.handle_ipc(&q, &reply_header(0x20, 0x84, tag, 4), &code, &mut out, &mut reports);
        assert_eq!(r, Err(Error::EIO));
    }
    let tag = ep.epic_notify(1, 0x20, &[], &mut out).unwrap();
    out.clear();
    // Too short for a return code.
    let r = ep.handle_ipc(&q, &reply_header(0x20, 0x84, tag, 2), &[0, 0], &mut out, &mut reports);
    assert_eq!(r, Err(Error::EIO));
    // A subtype or a category that is not known.
    let r = ep.handle_ipc(&q, &reply_header(0x20, 0x85, tag, 4), &code, &mut out, &mut reports);
    assert_eq!(r, Err(Error::EIO));
    let r = ep.handle_ipc(&q, &reply_header(0x30, 0x84, tag, 4), &code, &mut out, &mut reports);
    assert_eq!(r, Err(Error::EIO));
    let r = ep.handle_ipc(&q, &reply_header(0x00, 0x84, tag, 4), &code, &mut out, &mut reports);
    assert_eq!(r, Err(Error::EIO));
    assert!(ep.calls[0]);
    assert!(out.is_empty());
    let r = ep.handle_ipc(&q, &reply_header(0x20, 0x84, tag, 4), &code, &mut out, &mut reports);
    assert_eq!(r, Ok(()));
    assert_eq!(
        out,
        vec![AfkAction::CallComplete {
            endpoint: 0x20,
            tag,
            retcode: 5
        }]
    );
    assert!(!ep.calls[0]);
}

#[test]
fn services_are_registered_as_they_are_announced() {
    let mut ep = running();
    let mut out: Vec<AfkAction> = Vec::new();
    let mut reports: Vec<FakehidReport> = Vec::new();
    firmware_sends(&mut ep, 0, &reply_header(0, 0xc0, 0, 44), &announce(b"aop-audio", 3));
    firmware_sends(&mut ep, 0, &reply_header(0, 0xc0, 0, 44), &announce(b"unknown", 4));
    firmware_sends(&mut ep, 0, &reply_header(0, 0xc0, 0, 44), &announce(b"las", 5));
    firmware_sends(&mut ep, 0, &reply_header(0, 0xc0, 0, 44), &announce(b"als", 6));
    ep.recv_message(opc(0x85), &mut out, &mut reports).unwrap();
    let svc = |channel: u32| EPICService {
        channel,
        endpoint: 0x20,
    };
    assert_eq!(
        out,
        vec![
            AfkAction::RegisterService {
                service: svc(3),
                device: ServiceDevice::Audio
            },
            AfkAction::RegisterService {
                service: svc(5),
                device: ServiceDevice::LidAngle
            },
            AfkAction::RegisterService {
                service: svc(6),
                device: ServiceDevice::AmbientLight
            },
        ]
    );
    assert!(reports.is_empty());
}

#[test]
fn reports_are_handed_on_with_their_service() {
    let mut ep = running();
    let mut out: Vec<AfkAction> = Vec::new();
    let mut reports: Vec<FakehidReport> = Vec::new();
    firmware_sends(&mut ep, 9, &reply_header(0, 0xc4, 0, 3), &[7, 8, 9]);
    ep.recv_message(opc(0x85), &mut out, &mut reports).unwrap();
    assert!(out.is_empty());
    assert_eq!(reports.len(), 1);
    assert_eq!(
        reports[0].service,
        EPICService {
            channel: 9,
            endpoint: 0x20
        }
    );
    assert_eq!(reports[0].data, vec![7, 8, 9]);
}

#[test]
fn receive_ring_wraps_around() {
    let mut ep = running();
    let mut out: Vec<AfkAction> = Vec::new();
    let mut reports: Vec<FakehidReport> = Vec::new();
    // Each report takes two blocks; the buffer has thirteen.
    for round in 0..20u8 {
        firmware_sends(&mut ep, 9, &reply_header(0, 0xc4, 0, 1), &[round]);
        ep.recv_message(opc(0x85), &mut out, &mut reports).unwrap();
        assert_eq!(reports.last().unwrap().data, vec![round]);
    }
    assert_eq!(reports.len(), 20);
}

#[test]
fn a_frame_without_its_magic_stops_the_ring() {
    let mut ep = running();
    let mut out: Vec<AfkAction> = Vec::new();
    let mut reports: Vec<FakehidReport> = Vec::new();
    firmware_sends(&mut ep, 9, &reply_header(0, 0xc4, 0, 1), &[1]);
    let mem = ep.iomem.as_mut().unwrap();
    put32(mem, RX + 3 * BLOCK, 0x12345678);
    assert_eq!(
        ep.recv_message(opc(0x85), &mut out, &mut reports),
        Err(Error::EIO)
    );
    assert!(reports.is_empty());
    // So does one that is too short for its header.
    let mut ep = running();
    let mem = ep.iomem.as_mut().unwrap();
    let frame = qe_header_bytes(&QEHeader {
        magic: QE_MAGIC1,
        size: 8,
        channel: 0,
        ty: 0,
    });
    mem[RX + 3 * BLOCK..RX + 3 * BLOCK + 16].copy_from_slice(&frame);
    put32(mem, RX + 2 * BLOCK, 0x40);
    assert_eq!(
        ep.recv_message(opc(0x85), &mut out, &mut reports),
        Err(Error::EIO)
    );
}

#[test]
fn shared_region_is_read_and_written_in_bounds() {
    let mut ep = AFKEndpoint::new(0x20);
    let mut out: Vec<AfkAction> = Vec::new();
    assert_eq!(ep.iomem_read32(0), Err(Error::EIO));
    assert_eq!(ep.iomem_write32(0, 1), Err(Error::EIO));
    ep.set_buffer(vec![0; 16], 0, &mut out).unwrap();
    assert_eq!(ep.iomem_write32(12, 0xaabbccdd), Ok(()));
    assert_eq!(ep.iomem_read32(12), Ok(0xaabbccdd));
    assert_eq!(ep.iomem_read32(13), Err(Error::EIO));
    assert_eq!(ep.iomem_write32(13, 0), Err(Error::EIO));
    assert_eq!(ep.memcpy_to_iomem(2, &[1, 2, 3]), Ok(()));
    assert_eq!(ep.memcpy_from_iomem(1, 5), Ok(vec![0, 1, 2, 3, 0]));
    assert_eq!(ep.memcpy_from_iomem(12, 5), Err(Error::EIO));
    assert_eq!(ep.memcpy_to_iomem(14, &[1, 2, 3]), Err(Error::EIO));
    assert_eq!(ep.memcpy_from_iomem(16, 0), Ok(vec![]));
}

#[test]
fn headers_round_trip() {
    let q = QEHeader {
        magic: QE_MAGIC1,
        size: 0x1234,
        channel: 7,
        ty: 3,
    };
    let bytes = qe_header_bytes(&q);
    assert_eq!(
        bytes,
        vec![0x49, 0x4f, 0x50, 0x20, 0x34, 0x12, 0, 0, 7, 0, 0, 0, 3, 0, 0, 0]
    );
    assert_eq!(parse_qe_header(&bytes, 0), q);
    let e = EPICHeader {
        version: 2,
        seq: 0x0102,
        timestamp: 0x1122334455667788,
        length: 0x20,
        sub_version: 3,
        category: 0x10,
        subtype: 0xc4,
        tag: 5,
        inline_len: 9,
    };
    let bytes = epic_header_bytes(&e);
    assert_eq!(bytes.len(), 48);
    assert_eq!(bytes[0], 2);
    assert_eq!(bytes[1..3], [0x02, 0x01]);
    assert_eq!(bytes[8..16], 0x1122334455667788u64.to_le_bytes());
    assert_eq!(bytes[20..26], [3, 0x10, 0xc4, 0, 5, 0]);
    assert_eq!(parse_epic_header(&bytes, 0), e);
}

#[test]
fn services_are_known_by_name() {
    assert_eq!(service_device(b"aop-audio"), Some(ServiceDevice::Audio));
    assert_eq!(service_device(b"las"), Some(ServiceDevice::LidAngle));
    assert_eq!(service_device(b"als"), Some(ServiceDevice::AmbientLight));
    assert_eq!(service_device(b"aop-audi"), None);
    assert_eq!(service_device(b"alsx"), None);
    assert_eq!(service_device(b""), None);
    assert_eq!(from_fourcc(b"gila"), 0x67696c61);
}

#[test]
fn boot_arguments_are_patched_in_place() {
    let mut args: Vec<u8> = Vec::new();
    for (key, value) in [(b"abcd", vec![1u8, 1, 1, 1]), (b"efgh", vec![2u8; 8]), (b"ijkl", vec![3u8; 2])] {
        args.extend_from_slice(&from_fourcc(key).to_le_bytes());
        args.extend_from_slice(&(value.len() as u32).to_le_bytes());
        args.extend_from_slice(&value);
    }
    let before = args.clone();
    let patches = [
        BootargPatch {
            key: from_fourcc(b"efgh"),
            value: 0xdeadbeef,
        },
        BootargPatch {
            key: from_fourcc(b"ijkl"),
            value: 0x11223344,
        },
        BootargPatch {
            key: from_fourcc(b"none"),
            value: 1,
        },
    ];
    assert_eq!(patch_bootargs(&mut args, &patches), Ok(()));
    assert_eq!(args[..12], before[..12]);
    assert_eq!(args[12..20], before[12..20]);
    assert_eq!(args[20..28], [0xef, 0xbe, 0xad, 0xde, 0, 0, 0, 0]);
    assert_eq!(args[36..38], [0x44, 0x33]);
    assert_eq!(args.len(), before.len());
}

#[test]
fn boot_arguments_that_are_cut_off_are_refused() {
    let mut args: Vec<u8> = Vec::new();
    args.extend_from_slice(&from_fourcc(b"abcd").to_le_bytes());
    args.extend_from_slice(&8u32.to_le_bytes());
    args.extend_from_slice(&[0; 4]);
    assert_eq!(patch_bootargs(&mut args, &[]), Err(Error::EIO));
    let mut args: Vec<u8> = vec![1, 2, 3];
    assert_eq!(patch_bootargs(&mut args, &[]), Err(Error::EIO));
    // A value of more than eight bytes cannot be patched.
    let mut args: Vec<u8> = Vec::new();
    args.extend_from_slice(&from_fourcc(b"abcd").to_le_bytes());
    args.extend_from_slice(&9u32.to_le_bytes());
    args.extend_from_slice(&[0; 9]);
    let patch = [BootargPatch {
        key: from_fourcc(b"abcd"),
        value: 1,
    }];
    assert_eq!(patch_bootargs(&mut args, &patch), Err(Error::EIO));
    assert_eq!(patch_bootargs(&mut args, &[]), Ok(()));
    let mut none: Vec<u8> = Vec::new();
    assert_eq!(patch_bootargs(&mut none, &patch), Ok(()));
}

#[test]
fn processor_is_started_and_endpoints_are_initialised() {
    assert_eq!(start_cpu(0), 0x10);
    assert_eq!(start_cpu(0x4), 0x14);
    assert_eq!(start_cpu(0x10), 0x10);
    let mut has = [false; 12];
    has[0] = true;
    has[3] = true;
    has[11] = true;
    assert_eq!(
        start(&has),
        vec![
            AfkAction::Send {
                endpoint: 0x20,
                msg: AFK_MSG_INIT
            },
            AfkAction::Send {
                endpoint: 0x23,
                msg: AFK_MSG_INIT
            },
            AfkAction::Send {
                endpoint: 0x2b,
                msg: AFK_MSG_INIT
            },
        ]
    );
    assert!(start(&[false; 12]).is_empty());
}

#[test]
fn listeners_are_found_by_their_service() {
    let mut l = Listeners::new();
    let a = EPICService {
        channel: 1,
        endpoint: 0x20,
    };
    let b = EPICService {
        channel: 2,
        endpoint: 0x21,
    };
    l.add_fakehid_listener(a);
    l.add_fakehid_listener(b);
    l.add_fakehid_listener(a);
    assert_eq!(l.process_fakehid_report(0x21, 2), Some(1));
    assert_eq!(l.process_fakehid_report(0x20, 1), Some(0));
    assert_eq!(l.process_fakehid_report(0x20, 2), None);
    assert!(l.remove_fakehid_listener(&b));
    assert!(!l.remove_fakehid_listener(&b));
    assert_eq!(l.process_fakehid_report(0x21, 2), None);
    assert!(l.process_fakehid_report(0x20, 1).is_some());
}

#[test]
fn secure_enclave_boots_in_steps() {
    let mut sep = SepData::new(
        FwRegionParams {
            addr: 0x9_0000_0000,
            size: 0x80_0000,
        },
        0x7000_0000,
    );
    assert_eq!(sep.state, BootState::Idle);
    assert_eq!(
        sep.start(),
        Message {
            msg0: 0xff | (0x5 << 16),
            msg1: 0
        }
    );
    assert_eq!(sep.state, BootState::Tz0Sent);
    let boot = |ty: u64| Message {
        msg0: 0xff | (ty << 16),
        msg1: 0,
    };
    assert_eq!(sep.process_message(boot(0x69)), SepAction::Nothing);
    assert_eq!(sep.state, BootState::Tz0Sent);
    assert_eq!(
        sep.process_message(boot(0xd2)),
        SepAction::MapFirmware {
            addr: 0x9_0000_0000,
            size: 0x80_0000
        }
    );
    assert_eq!(sep.state, BootState::MapFirmware);
    let (img4, shmem) = sep.load_fw_and_shmem(Some(0x1234_5000)).unwrap();
    assert_eq!(
        img4,
        Message {
            msg0: 0xff | (0x6 << 16) | (0x12345 << 32),
            msg1: 0
        }
    );
    assert_eq!(
        shmem,
        Message {
            msg0: 0xfe | (0x18 << 16) | (0x70000 << 32),
            msg1: 0
        }
    );
    assert_eq!(sep.state, BootState::Img4Sent);
    assert_eq!(sep.process_message(boot(0x6a)), SepAction::Nothing);
    assert_eq!(sep.state, BootState::Booted);
    // What is not known is reported, what is for other endpoints is passed
    // over.
    assert_eq!(
        sep.process_message(boot(0x77)),
        SepAction::UnknownBootMessage { ty: 0x77 }
    );
    let discover = Message {
        msg0: 0xfd | (0xd2 << 16),
        msg1: 0,
    };
    assert_eq!(sep.process_message(discover), SepAction::Nothing);
    assert_eq!(sep.state, BootState::Booted);
    assert!(sep.remove());
    assert_eq!(sep.state, BootState::Idle);
    assert!(!sep.remove());
}

#[test]
fn secure_enclave_needs_its_firmware_mapped() {
    let mut sep = SepData::new(
        FwRegionParams {
            addr: 0,
            size: 0,
        },
        0,
    );
    assert_eq!(sep.load_fw_and_shmem(None), Err(Error::ENOMEM));
    assert_eq!(sep.state, BootState::Idle);
    assert!(!sep.fw_mapped);
}

#[test]
fn shared_memory_of_the_secure_enclave_is_laid_out() {
    let lpol = [0xaau8; 5];
    let ibot = [0xbbu8; 0x4000];
    let m = build_shmem(&lpol, &ibot).unwrap();
    assert_eq!(m.len(), 0x30000);
    // The table of what the region holds.
    assert_eq!(m[0..4], *b"CNIP");
    assert_eq!(get32(&m, 4), 0x8000);
    assert_eq!(get32(&m, 8), 0x4000);
    assert_eq!(m[16..20], *b"OPLA");
    assert_eq!(get32(&m, 20), 0x4000);
    assert_eq!(get32(&m, 24), 0xc000);
    assert_eq!(m[32..36], *b"IPIS");
    assert_eq!(get32(&m, 36), 0x8000);
    assert_eq!(get32(&m, 40), 0x10000);
    assert_eq!(m[48..52], *b"llun");
    // And what it holds.
    assert_eq!(get32(&m, 0x4000), 1);
    assert_eq!(get32(&m, 0xc000), 5);
    assert_eq!(m[0xc004..0xc009], lpol);
    assert_eq!(m[0xc009], 0);
    assert_eq!(get32(&m, 0x10000), 0x4000);
    assert_eq!(m[0x10004..0x14004], ibot);
    assert_eq!(m[0x14004], 0);
}

#[test]
fn shared_memory_of_the_secure_enclave_has_its_limits() {
    let room = 0x30000 - 0xc000 - 0x4000 - 4;
    assert!(build_shmem(&[0; 4], &vec![0u8; room]).is_ok());
    assert_eq!(build_shmem(&[0; 4], &vec![0u8; room + 1]), Err(Error::EIO));
    assert_eq!(
        build_shmem(&vec![0u8; 0x30000 - 0xc000 - 3], &[]),
        Err(Error::EIO)
    );
    assert!(build_shmem(&[], &[]).is_ok());
}

#[test]
fn floating_point_readings_become_whole_numbers() {
    assert_eq!(f32_to_u32(0x3f80_0000), 1);
    assert_eq!(f32_to_u32(0x3fc0_0000), 1);
    assert_eq!(f32_to_u32(0x3fff_ffff), 1);
    assert_eq!(f32_to_u32(0x4000_0000), 2);
    assert_eq!(f32_to_u32(0x4843_5000), 200_000);
    assert_eq!(f32_to_u32(0x4b80_0000), 1 << 24);
    assert_eq!(f32_to_u32(0x4b7f_ffff), (1 << 24) - 1);
    assert_eq!(f32_to_u32(0x4f00_0000), 1 << 31);
    assert_eq!(f32_to_u32(0x4f7f_ffff), 0xffff_ff00);
    // Below one, negative, and not a number.
    assert_eq!(f32_to_u32(0), 0);
    assert_eq!(f32_to_u32(0x3f00_0000), 0);
    assert_eq!(f32_to_u32(0x3f7f_ffff), 0);
    assert_eq!(f32_to_u32(0xbf80_0000), 0);
    assert_eq!(f32_to_u32(0xc843_5000), 0);
    assert_eq!(f32_to_u32(0x7fc0_0000), 0);
    assert_eq!(f32_to_u32(0x7f80_0001), 0);
    // Too large, and infinite.
    assert_eq!(f32_to_u32(0x4f80_0000), u32::MAX);
    assert_eq!(f32_to_u32(0x7f00_0000), u32::MAX);
    assert_eq!(f32_to_u32(0x7f80_0000), u32::MAX);
}

#[test]
fn sensor_reports_are_read() {
    let mut report: Vec<u8> = vec![0; 48];
    report[40..44].copy_from_slice(&0x4843_5000u32.to_le_bytes());
    assert_eq!(als_process(&report, 40), 200_000);
    assert_eq!(als_process(&report, 44), 0);
    assert_eq!(las_process(&[9, 135, 0]), 135);
}

#[test]
fn ambient_light_sensor_is_switched_on_with_its_calibration() {
    assert_eq!(
        als_property(0xb, &[1, 2, 3]),
        vec![0, 0, 0, 0, 0xb, 0, 0, 0, 1, 2, 3]
    );
    assert_eq!(als_property(7, &[]), vec![0, 0, 0, 0, 7, 0, 0, 0]);
    let calibration = [5u8, 6];
    assert_eq!(
        enable_als(Some(&calibration)),
        vec![
            vec![0, 0, 0, 0, 0xb, 0, 0, 0, 5, 6],
            vec![0, 0, 0, 0, 0, 0, 0, 0, 0x40, 0x0d, 0x03, 0x00],
        ]
    );
    assert!(enable_als(None).is_empty());
}

#[test]
fn boot_patches_are_keyed_by_four_letters() {
    let patches = boot_patches(0x40, 7);
    let keys: Vec<u32> = patches.iter().map(|p| p.key).collect();
    assert_eq!(
        keys,
        vec![
            from_fourcc(b"EC0p"),
            from_fourcc(b"nCal"),
            from_fourcc(b"alig"),
            from_fourcc(b"AOPt")
        ]
    );
    let values: Vec<u32> = patches.iter().map(|p| p.value).collect();
    assert_eq!(values, vec![0x20000, 0, 0x40, 7]);
}
