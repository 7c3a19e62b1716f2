//! Transport to the Always-On Processor (AOP).
//!
//! The AOP offers its services over AFK: each endpoint of the mailbox owns a
//! shared memory region with a transmit and a receive ring, and messages in
//! the rings are framed as EPIC calls and reports. This module holds the
//! host's side of an endpoint: the state machine driven by mailbox messages,
//! the rings, and the bookkeeping of calls that wait for their reply.
//!
//! The mailbox itself, the allocation of the shared region and the waiting
//! for replies are left to the embedding: the endpoint says what to send
//! and what has happened, and is told what has arrived.

use crate::error::{Error, Result};
use crate::wire::{
    push_u16, push_u32, push_u64, read_bytes, read_u16, read_u32, spec_le_u16, spec_le_u32,
    spec_overwrite, spec_u32_bytes, write_bytes, write_u32,
};
use vstd::prelude::*;

verus! {

/// Offset in the AOP's registers of the offset of the boot arguments.
pub const BOOTARGS_OFFSET: usize = 0x22c;

/// Offset in the AOP's registers of the size of the boot arguments.
pub const BOOTARGS_SIZE: usize = 0x230;

/// Offset in the coprocessor's registers of the CPU control register.
pub const CPU_CONTROL: usize = 0x44;

/// CPU control bit that lets the coprocessor run.
pub const CPU_RUN: u32 = 0x10;

/// First AFK endpoint.
pub const AFK_ENDPOINT_START: u8 = 0x20;

/// Number of AFK endpoints.
pub const AFK_ENDPOINT_COUNT: u8 = 0xc;

/// Opcode: the firmware asks for a buffer.
pub const AFK_OPC_GET_BUF: u64 = 0x89;

/// Opcode: the firmware starts the handshake.
pub const AFK_OPC_INIT: u64 = 0x80;

/// Opcode: the firmware names the receive ring.
pub const AFK_OPC_INIT_RX: u64 = 0x8b;

/// Opcode: the firmware names the transmit ring.
pub const AFK_OPC_INIT_TX: u64 = 0x8a;

/// Opcode: unknown part of the handshake.
pub const AFK_OPC_INIT_UNK: u64 = 0x8c;

/// Opcode: the host has put a message into the transmit ring.
pub const AFK_OPC_SEND: u64 = 0xa2;

/// Opcode: the firmware confirms the start.
pub const AFK_OPC_START_ACK: u64 = 0x86;

/// Opcode: the firmware confirms the shutdown.
pub const AFK_OPC_SHUTDOWN_ACK: u64 = 0xc1;

/// Opcode: the firmware has put messages into the receive ring.
pub const AFK_OPC_RECV: u64 = 0x85;

/// Message: here is the buffer that was asked for.
pub const AFK_MSG_GET_BUF_ACK: u64 = 0xa1_0000_0000_0000;

/// Message: start the handshake.
pub const AFK_MSG_INIT: u64 = 0x80_0000_0000_0000;

/// Message: the handshake is confirmed.
pub const AFK_MSG_INIT_ACK: u64 = 0xa0_0000_0000_0000;

/// Message: both rings are set up, start.
pub const AFK_MSG_START: u64 = 0xa3_0000_0000_0000;

/// Message: shut down.
pub const AFK_MSG_SHUTDOWN: u64 = 0xc0_0000_0000_0000;

/// Unit of the sizes and offsets that ring messages carry.
pub const AFK_RB_BLOCK_STEP: usize = 0x40;

/// Queue entry type of a notification.
pub const EPIC_TYPE_NOTIFY: u32 = 0;

/// EPIC category: a report of the firmware.
pub const EPIC_CATEGORY_REPORT: u8 = 0x00;

/// EPIC category: a notification of the host.
pub const EPIC_CATEGORY_NOTIFY: u8 = 0x10;

/// EPIC category: a reply of the firmware.
pub const EPIC_CATEGORY_REPLY: u8 = 0x20;

/// EPIC subtype: a service announces itself.
pub const EPIC_SUBTYPE_STD_SERVICE: u16 = 0xc0;

/// EPIC subtype: a report of a sensor in the guise of a HID device.
pub const EPIC_SUBTYPE_FAKEHID_REPORT: u16 = 0xc4;

/// EPIC subtype: a return code.
pub const EPIC_SUBTYPE_RETCODE: u16 = 0x84;

/// EPIC subtype: a return code with a payload.
pub const EPIC_SUBTYPE_RETCODE_PAYLOAD: u16 = 0xa0;

/// Magic of a queue entry, `" POI"`.
pub const QE_MAGIC1: u32 = 0x20504f49;

/// Magic of a queue entry, `" POA"`.
pub const QE_MAGIC2: u32 = 0x20504f41;

/// Size in bytes of the header of a queue entry.
pub const QEH_SIZE: usize = 16;

/// Size in bytes of the EPIC header.
pub const EPIC_HEADER_SIZE: usize = 48;

/// Size in bytes of the announcement of a service.
pub const SERVICE_ANNOUNCE_SIZE: usize = 44;

/// Largest number of calls of one endpoint that wait for their reply.
pub const MAX_CALLS: usize = 8;

/// The number that the four characters of a FourCC stand for, the first
/// character in the most significant byte.
pub open spec fn spec_from_fourcc(b: Seq<u8>) -> u32 {
    (b[3] as u32) | ((b[2] as u32) << 8) | ((b[1] as u32) << 16) | ((b[0] as u32) << 24)
}

/// Converts a text representation of a FourCC to u32.
pub fn from_fourcc(b: &[u8]) -> (r: u32)
    requires
        b@.len() >= 4,
    ensures
        r == spec_from_fourcc(b@),
{
    (b[3] as u32) | ((b[2] as u32) << 8) | ((b[1] as u32) << 16) | ((b[0] as u32) << 24)
}

/// Representation of an "EPIC" service.
#[derive(Clone, Copy, Debug, PartialEq, Eq, Structural)]
pub struct EPICService {
    /// Channel id
    pub channel: u32,
    /// RTKit endpoint
    pub endpoint: u8,
}

/// The header of a queue entry.
#[derive(Clone, Copy, Debug, PartialEq, Eq, Structural)]
pub struct QEHeader {
    pub magic: u32,
    /// Size in bytes of what follows the header.
    pub size: u32,
    pub channel: u32,
    pub ty: u32,
}

/// The EPIC header of a message.
#[derive(Clone, Copy, Debug, PartialEq, Eq, Structural)]
pub struct EPICHeader {
    pub version: u8,
    pub seq: u16,
    pub timestamp: u64,
    /// Size in bytes of the payload.
    pub length: u32,
    pub sub_version: u8,
    pub category: u8,
    pub subtype: u16,
    pub tag: u16,
    pub inline_len: u32,
}

/// The queue entry header stored at byte `off` of `data`.
pub open spec fn spec_qe_header(data: Seq<u8>, off: int) -> QEHeader {
    QEHeader {
        magic: spec_le_u32(data, off) as u32,
        size: spec_le_u32(data, off + 4) as u32,
        channel: spec_le_u32(data, off + 8) as u32,
        ty: spec_le_u32(data, off + 12) as u32,
    }
}

/// The EPIC header stored at byte `off` of `data`.
pub open spec fn spec_epic_header(data: Seq<u8>, off: int) -> EPICHeader {
    EPICHeader {
        version: data[off],
        seq: spec_le_u16(data, off + 1) as u16,
        timestamp: crate::wire::spec_le_u64(data, off + 8) as u64,
        length: spec_le_u32(data, off + 16) as u32,
        sub_version: data[off + 20],
        category: data[off + 21],
        subtype: spec_le_u16(data, off + 22) as u16,
        tag: spec_le_u16(data, off + 24) as u16,
        inline_len: spec_le_u32(data, off + 36) as u32,
    }
}

/// Reads the queue entry header at byte `off`.
pub fn parse_qe_header(data: &[u8], off: usize) -> (r: QEHeader)
    requires
        off + QEH_SIZE <= data@.len(),
    ensures
        r == spec_qe_header(data@, off as int),
{
    let total: usize = data.len();
    QEHeader {
        magic: read_u32(data, off),
        size: read_u32(data, off + 4),
        channel: read_u32(data, off + 8),
        ty: read_u32(data, off + 12),
    }
}

/// Reads the EPIC header at byte `off`.
pub fn parse_epic_header(data: &[u8], off: usize) -> (r: EPICHeader)
    requires
        off + EPIC_HEADER_SIZE <= data@.len(),
    ensures
        r == spec_epic_header(data@, off as int),
{
    let total: usize = data.len();
    EPICHeader {
        version: data[off],
        seq: read_u16(data, off + 1),
        timestamp: crate::wire::read_u64(data, off + 8),
        length: read_u32(data, off + 16),
        sub_version: data[off + 20],
        category: data[off + 21],
        subtype: read_u16(data, off + 22),
        tag: read_u16(data, off + 24),
        inline_len: read_u32(data, off + 36),
    }
}

/// The bytes of a queue entry header.
pub open spec fn spec_qe_header_bytes(h: QEHeader) -> Seq<u8> {
    Seq::<u8>::empty() + spec_u32_bytes(h.magic) + spec_u32_bytes(h.size) + spec_u32_bytes(
        h.channel,
    ) + spec_u32_bytes(h.ty)
}

/// Writes a queue entry header.
pub fn qe_header_bytes(h: &QEHeader) -> (out: Vec<u8>)
    ensures
        out@ == spec_qe_header_bytes(*h),
        out@.len() == QEH_SIZE,
{
    let mut out: Vec<u8> = Vec::new();
    assert(out@ =~= Seq::<u8>::empty());
    push_u32(&mut out, h.magic);
    push_u32(&mut out, h.size);
    push_u32(&mut out, h.channel);
    push_u32(&mut out, h.ty);
    out
}

/// The bytes of an EPIC header. Parts of the header that carry nothing are
/// zero.
pub open spec fn spec_epic_header_bytes(h: EPICHeader) -> Seq<u8> {
    Seq::<u8>::empty().push(h.version) + crate::wire::spec_u16_bytes(h.seq) + seq![0u8]
        + spec_u32_bytes(0) + crate::wire::spec_u64_bytes(h.timestamp) + spec_u32_bytes(h.length)
        + seq![h.sub_version, h.category] + crate::wire::spec_u16_bytes(h.subtype)
        + crate::wire::spec_u16_bytes(h.tag) + crate::wire::spec_u16_bytes(0)
        + crate::wire::spec_u64_bytes(0) + spec_u32_bytes(h.inline_len) + crate::wire::spec_u64_bytes(
        0,
    )
}

/// Writes an EPIC header.
pub fn epic_header_bytes(h: &EPICHeader) -> (out: Vec<u8>)
    ensures
        out@ == spec_epic_header_bytes(*h),
        out@.len() == EPIC_HEADER_SIZE,
{
    let mut out: Vec<u8> = Vec::new();
    out.push(h.version);
    assert(out@ =~= Seq::<u8>::empty().push(h.version));
    push_u16(&mut out, h.seq);
    let ghost s1 = out@;
    out.push(0);
    assert(out@ =~= s1 + seq![0u8]);
    push_u32(&mut out, 0);
    push_u64(&mut out, h.timestamp);
    push_u32(&mut out, h.length);
    let ghost s2 = out@;
    out.push(h.sub_version);
    out.push(h.category);
    assert(out@ =~= s2 + seq![h.sub_version, h.category]);
    push_u16(&mut out, h.subtype);
    push_u16(&mut out, h.tag);
    push_u16(&mut out, 0);
    push_u64(&mut out, 0);
    push_u32(&mut out, h.inline_len);
    push_u64(&mut out, 0);
    out
}


/// One direction of an endpoint's rings in the shared region: three
/// consecutive blocks that hold the size of the buffer, the read pointer and
/// the write pointer, and behind them the buffer.
#[derive(Clone, Copy, Debug, PartialEq, Eq, Structural)]
pub struct AFKRingBuffer {
    /// Offset of the first block in the shared region.
    pub offset: usize,
    /// Size of one block.
    pub block_size: usize,
    /// Size of the buffer.
    pub buf_size: usize,
}

/// The device that serves an EPIC service.
#[derive(Clone, Copy, Debug, PartialEq, Eq, Structural)]
pub enum ServiceDevice {
    /// The audio service: `snd_soc_apple_aop`.
    Audio,
    /// The lid angle sensor: `iio_aop_las`.
    LidAngle,
    /// The ambient light sensor: `iio_aop_als`.
    AmbientLight,
}

/// Something that an endpoint asks of the embedding, or tells it.
#[derive(Clone, Copy, Debug, PartialEq, Eq, Structural)]
pub enum AfkAction {
    /// Send a message to the firmware over the mailbox.
    Send { endpoint: u8, msg: u64 },
    /// Allocate the shared region of the endpoint and hand it over with
    /// `set_buffer`.
    AllocBuffer { endpoint: u8, size: usize },
    /// A service has announced itself: create the device that serves it.
    RegisterService { service: EPICService, device: ServiceDevice },
    /// A call has its reply: wake the caller.
    CallComplete { endpoint: u8, tag: u16, retcode: u32 },
    /// The firmware has confirmed the shutdown of the endpoint.
    ShutdownComplete { endpoint: u8 },
}

/// A report of a sensor, for the listener of its service.
pub struct FakehidReport {
    pub service: EPICService,
    pub data: Vec<u8>,
}

/// The host's side of one AFK endpoint.
pub struct AFKEndpoint {
    /// Number of the endpoint at the mailbox.
    pub index: u8,
    /// The shared region, once it is allocated.
    pub iomem: Option<Vec<u8>>,
    /// Address of the shared region as the firmware sees it.
    pub dma_handle: u64,
    /// The transmit ring, once the firmware has named it.
    pub txbuf: Option<AFKRingBuffer>,
    /// The receive ring, once the firmware has named it.
    pub rxbuf: Option<AFKRingBuffer>,
    /// Sequence number of the next message.
    pub seq: u16,
    /// For each tag whether a call waits for its reply under it. The tag
    /// of position `i` is `i + 1`.
    pub calls: Vec<bool>,
}

/// The device for the service that announces itself as `name`, if the
/// service is one that the driver knows.
pub open spec fn spec_service_device(name: Seq<u8>) -> Option<ServiceDevice> {
    if name == seq![97u8, 111u8, 112u8, 45u8, 97u8, 117u8, 100u8, 105u8, 111u8] {
        // "aop-audio"
        Some(ServiceDevice::Audio)
    } else if name == seq![108u8, 97u8, 115u8] {
        // "las"
        Some(ServiceDevice::LidAngle)
    } else if name == seq![97u8, 108u8, 115u8] {
        // "als"
        Some(ServiceDevice::AmbientLight)
    } else {
        None
    }
}

/// The length of the name at the start of `data`: the number of bytes
/// before the first zero byte among the first `limit`.
pub open spec fn spec_name_len(data: Seq<u8>, limit: int) -> int
    decreases limit,
{
    if limit <= 0 {
        0
    } else {
        let before = spec_name_len(data, limit - 1);
        if before == limit - 1 && data[limit - 1] != 0 {
            limit
        } else {
            before
        }
    }
}

/// Finds the device for the service that announces itself as `name`.
pub fn service_device(name: &[u8]) -> (r: Option<ServiceDevice>)
    ensures
        r == spec_service_device(name@),
{
    let n: usize = name.len();
    if n == 9 && name[0] == 97 && name[1] == 111 && name[2] == 112 && name[3] == 45 && name[4]
        == 97 && name[5] == 117 && name[6] == 100 && name[7] == 105 && name[8] == 111 {
        assert(name@ =~= seq![97u8, 111u8, 112u8, 45u8, 97u8, 117u8, 100u8, 105u8, 111u8]);
        Some(ServiceDevice::Audio)
    } else if n == 3 && name[0] == 108 && name[1] == 97 && name[2] == 115 {
        assert(name@ =~= seq![108u8, 97u8, 115u8]);
        Some(ServiceDevice::LidAngle)
    } else if n == 3 && name[0] == 97 && name[1] == 108 && name[2] == 115 {
        assert(name@ =~= seq![97u8, 108u8, 115u8]);
        Some(ServiceDevice::AmbientLight)
    } else {
        proof {
            let audio = seq![97u8, 111u8, 112u8, 45u8, 97u8, 117u8, 100u8, 105u8, 111u8];
            let las = seq![108u8, 97u8, 115u8];
            let als = seq![97u8, 108u8, 115u8];
            if name@ == audio {
                assert(audio.len() == 9);
                assert(audio[0] == 97 && audio[1] == 111 && audio[2] == 112 && audio[3] == 45
                    && audio[4] == 97 && audio[5] == 117 && audio[6] == 100 && audio[7] == 105
                    && audio[8] == 111);
            }
            if name@ == las {
                assert(las.len() == 3);
                assert(las[0] == 108 && las[1] == 97 && las[2] == 115);
            }
            if name@ == als {
                assert(als.len() == 3);
                assert(als[0] == 97 && als[1] == 108 && als[2] == 115);
            }
        }
        None
    }
}

/// The number of the first free tag, if one is free: tags are handed out
/// lowest first.
pub open spec fn spec_free_tag(calls: Seq<bool>, n: int) -> Option<int>
    decreases n,
{
    if n <= 0 {
        None
    } else {
        match spec_free_tag(calls, n - 1) {
            Some(t) => Some(t),
            None => if !calls[n - 1] {
                Some(n)
            } else {
                None
            },
        }
    }
}

/// `v` rounded up to the block size `a` of a ring.
pub open spec fn spec_align_up(v: usize, a: usize) -> usize {
    (((v + a - 1) as usize) & !((a - 1) as usize))
}

/// What a reply or a report that has arrived asks for, see `handle_ipc`.
pub open spec fn spec_ipc_result(
    index: u8,
    calls: Seq<bool>,
    qhdr: QEHeader,
    ehdr: EPICHeader,
    data: Seq<u8>,
) -> Result<Option<AfkAction>> {
    if ehdr.category == EPIC_CATEGORY_REPORT {
        if ehdr.subtype == EPIC_SUBTYPE_STD_SERVICE {
            if data.len() < SERVICE_ANNOUNCE_SIZE {
                Err(Error::EIO)
            } else {
                match spec_service_device(data.subrange(0, spec_name_len(data, 20))) {
                    Some(device) => Ok(
                        Some(
                            AfkAction::RegisterService {
                                service: EPICService {
                                    channel: spec_le_u32(data, 32) as u32,
                                    endpoint: index,
                                },
                                device,
                            },
                        ),
                    ),
                    None => Ok(None),
                }
            }
        } else if ehdr.subtype == EPIC_SUBTYPE_FAKEHID_REPORT {
            Ok(None)
        } else {
            Err(Error::EIO)
        }
    } else if ehdr.category == EPIC_CATEGORY_REPLY {
        if ehdr.subtype == EPIC_SUBTYPE_RETCODE_PAYLOAD || ehdr.subtype == EPIC_SUBTYPE_RETCODE {
            if data.len() < 4 {
                Err(Error::EIO)
            } else if ehdr.tag == 0 || ehdr.tag > MAX_CALLS || !calls[ehdr.tag - 1] {
                Err(Error::EIO)
            } else {
                Ok(
                    Some(
                        AfkAction::CallComplete {
                            endpoint: index,
                            tag: ehdr.tag,
                            retcode: spec_le_u32(data, 0) as u32,
                        },
                    ),
                )
            }
        } else {
            Err(Error::EIO)
        }
    } else {
        Err(Error::EIO)
    }
}

impl AFKEndpoint {
    /// Whether the endpoint has a slot for each tag.
    pub open spec fn wf(&self) -> bool {
        self.calls@.len() == MAX_CALLS
    }

    /// Creates the endpoint of the given number, with nothing set up.
    pub fn new(index: u8) -> (r: AFKEndpoint)
        ensures
            r.wf(),
            r.index == index,
            r.iomem is None,
            r.txbuf is None,
            r.rxbuf is None,
            r.seq == 0,
            r.dma_handle == 0,
            forall|i: int| 0 <= i < MAX_CALLS ==> !#[trigger] r.calls@[i],
    {
        let mut calls: Vec<bool> = Vec::new();
        let mut i: usize = 0;
        while i < MAX_CALLS
            invariant
                i <= MAX_CALLS,
                calls@.len() == i,
                forall|j: int| 0 <= j < i ==> !#[trigger] calls@[j],
            decreases MAX_CALLS - i,
        {
            calls.push(false);
            i = i + 1;
        }
        AFKEndpoint {
            index,
            iomem: None,
            dma_handle: 0,
            txbuf: None,
            rxbuf: None,
            seq: 0,
            calls,
        }
    }

    /// Returns the message that starts the handshake of the endpoint.
    pub fn start(&self) -> (r: AfkAction)
        ensures
            r == (AfkAction::Send { endpoint: self.index, msg: AFK_MSG_INIT }),
    {
        AfkAction::Send { endpoint: self.index, msg: AFK_MSG_INIT }
    }

    /// Returns the message that shuts the endpoint down.
    pub fn stop(&self) -> (r: AfkAction)
        ensures
            r == (AfkAction::Send { endpoint: self.index, msg: AFK_MSG_SHUTDOWN }),
    {
        AfkAction::Send { endpoint: self.index, msg: AFK_MSG_SHUTDOWN }
    }

    /// Reads a 32-bit word of the shared region.
    ///
    /// Fails with `EIO` when there is no shared region or the word does
    /// not lie in it.
    pub fn iomem_read32(&self, off: usize) -> (r: Result<u32>)
        ensures
            r is Ok <==> self.iomem is Some && off + 4 <= self.iomem->0@.len(),
            r matches Ok(v) ==> v == spec_le_u32(self.iomem->0@, off as int),
            r matches Err(e) ==> e == Error::EIO,
    {
        match &self.iomem {
            Some(iomem) => {
                if off > iomem.len() || 4 > iomem.len() - off {
                    return Err(Error::EIO);
                }
                Ok(read_u32(iomem.as_slice(), off))
            },
            None => Err(Error::EIO),
        }
    }

    /// Writes a 32-bit word of the shared region.
    ///
    /// Fails with `EIO`, changing nothing, when there is no shared region
    /// or the word does not lie in it.
    pub fn iomem_write32(&mut self, off: usize, data: u32) -> (r: Result<()>)
        ensures
            r is Ok <==> old(self).iomem is Some && off + 4 <= old(self).iomem->0@.len(),
            r is Ok ==> final(self).iomem is Some && final(self).iomem->0@ == spec_overwrite(
                old(self).iomem->0@,
                off as int,
                spec_u32_bytes(data),
            ),
            r matches Err(e) ==> e == Error::EIO && *final(self) == *old(self),
            final(self).same_but_iomem(old(self)),
    {
        let mut taken: Option<Vec<u8>> = None;
        core::mem::swap(&mut taken, &mut self.iomem);
        match taken {
            Some(mut iomem) => {
                if off > iomem.len() || 4 > iomem.len() - off {
                    self.iomem = Some(iomem);
                    return Err(Error::EIO);
                }
                write_u32(&mut iomem, off, data);
                self.iomem = Some(iomem);
                Ok(())
            },
            None => Err(Error::EIO),
        }
    }

    /// Whether everything but the shared region is the same in both.
    pub open spec fn same_but_iomem(&self, other: &AFKEndpoint) -> bool {
        &&& self.index == other.index
        &&& self.dma_handle == other.dma_handle
        &&& self.txbuf == other.txbuf
        &&& self.rxbuf == other.rxbuf
        &&& self.seq == other.seq
        &&& self.calls == other.calls
        &&& (self.iomem is Some) == (other.iomem is Some)
        &&& self.iomem is Some ==> self.iomem->0@.len() == other.iomem->0@.len()
    }

    /// Copies `len` bytes at `off` out of the shared region.
    ///
    /// Fails with `EIO` when there is no shared region or the bytes do not
    /// lie in it.
    pub fn memcpy_from_iomem(&self, off: usize, len: usize) -> (r: Result<Vec<u8>>)
        ensures
            r is Ok <==> self.iomem is Some && off + len <= self.iomem->0@.len(),
            r matches Ok(v) ==> v@ == self.iomem->0@.subrange(off as int, off + len),
            r matches Err(e) ==> e == Error::EIO,
    {
        match &self.iomem {
            Some(iomem) => {
                if off > iomem.len() || len > iomem.len() - off {
                    return Err(Error::EIO);
                }
                Ok(read_bytes(iomem.as_slice(), off, len))
            },
            None => Err(Error::EIO),
        }
    }

    /// Copies `src` into the shared region at `off`.
    ///
    /// Fails with `EIO`, changing nothing, when there is no shared region
    /// or the bytes do not lie in it.
    pub fn memcpy_to_iomem(&mut self, off: usize, src: &[u8]) -> (r: Result<()>)
        ensures
            r is Ok <==> old(self).iomem is Some && off + src@.len() <= old(self).iomem->0@.len(),
            r is Ok ==> final(self).iomem is Some && final(self).iomem->0@ == spec_overwrite(
                old(self).iomem->0@,
                off as int,
                src@,
            ),
            r matches Err(e) ==> e == Error::EIO && *final(self) == *old(self),
            final(self).same_but_iomem(old(self)),
    {
        let mut taken: Option<Vec<u8>> = None;
        core::mem::swap(&mut taken, &mut self.iomem);
        match taken {
            Some(mut iomem) => {
                if off > iomem.len() || src.len() > iomem.len() - off {
                    self.iomem = Some(iomem);
                    return Err(Error::EIO);
                }
                write_bytes(&mut iomem, off, src);
                self.iomem = Some(iomem);
                Ok(())
            },
            None => Err(Error::EIO),
        }
    }

    /// The ring that a message of the firmware names: the message carries
    /// the offset and the size of the three blocks and the buffer in units
    /// of `AFK_RB_BLOCK_STEP` bytes, and the first block holds the size of
    /// the buffer.
    pub open spec fn spec_ring_buf(&self, msg: u64) -> AFKRingBuffer {
        let size = ((msg >> 16) & 0xFFFF) * AFK_RB_BLOCK_STEP;
        let offset = ((msg >> 32) & 0xFFFF) * AFK_RB_BLOCK_STEP;
        let buf_size = spec_le_u32(self.iomem->0@, offset as int);
        AFKRingBuffer {
            offset: offset as usize,
            block_size: ((size - buf_size) / 3) as usize,
            buf_size: buf_size as usize,
        }
    }

    /// Reads the description of a ring out of the message that names it.
    ///
    /// Fails with `EIO` when there is no shared region, the first block
    /// does not lie in it, or the buffer is larger than all of the ring.
    pub fn parse_ring_buf(&self, msg: u64) -> (r: Result<AFKRingBuffer>)
        ensures
            r is Ok <==> {
                &&& self.iomem is Some
                &&& ((msg >> 32) & 0xFFFF) * AFK_RB_BLOCK_STEP + 4 <= self.iomem->0@.len()
                &&& spec_le_u32(
                    self.iomem->0@,
                    (((msg >> 32) & 0xFFFF) * AFK_RB_BLOCK_STEP) as int,
                ) <= ((msg >> 16) & 0xFFFF) * AFK_RB_BLOCK_STEP
            },
            r matches Ok(rb) ==> rb == self.spec_ring_buf(msg),
            r matches Err(e) ==> e == Error::EIO,
    {
        let s: u64 = (msg >> 16) & 0xFFFF;
        let o: u64 = (msg >> 32) & 0xFFFF;
        assert(s <= 0xFFFF && o <= 0xFFFF) by (bit_vector)
            requires
                s == (msg >> 16) & 0xFFFF,
                o == (msg >> 32) & 0xFFFF,
        ;
        let size: usize = (s as usize) * AFK_RB_BLOCK_STEP;
        let offset: usize = (o as usize) * AFK_RB_BLOCK_STEP;
        let buf_size: usize = match self.iomem_read32(offset) {
            Ok(v) => v as usize,
            Err(e) => {
                return Err(e);
            },
        };
        if buf_size > size {
            return Err(Error::EIO);
        }
        let block_size: usize = (size - buf_size) / 3;
        Ok(AFKRingBuffer { offset, block_size, buf_size })
    }

    /// Whether everything but the call table is the same in both.
    pub open spec fn same_but_calls(&self, other: &AFKEndpoint) -> bool {
        &&& self.index == other.index
        &&& self.dma_handle == other.dma_handle
        &&& self.txbuf == other.txbuf
        &&& self.rxbuf == other.rxbuf
        &&& self.seq == other.seq
        &&& self.iomem == other.iomem
    }

    /// Finds the length of the name at the start of a service
    /// announcement.
    fn name_len(data: &[u8]) -> (r: usize)
        requires
            data@.len() >= 20,
        ensures
            r == spec_name_len(data@, 20),
            r <= 20,
    {
        let mut i: usize = 0;
        while i < 20 && data[i] != 0
            invariant
                i <= 20,
                data@.len() >= 20,
                spec_name_len(data@, i as int) == i,
            decreases 20 - i,
        {
            i = i + 1;
        }
        proof {
            lemma_name_len_stops(data@, i as int, 20);
        }
        i
    }

    /// Handles a message that has arrived in the receive ring.
    ///
    /// A service that announces itself is registered if the driver knows
    /// it. A report of a sensor is queued in `reports` for the listener of
    /// its service. A return code completes the call that waits under its
    /// tag and frees the tag.
    ///
    /// Fails with `EIO`, changing nothing, when the category or the subtype
    /// is not expected, the payload is too short, or no call waits under
    /// the tag of a return code.
    pub fn handle_ipc(
        &mut self,
        qhdr: &QEHeader,
        ehdr: &EPICHeader,
        data: &[u8],
        out: &mut Vec<AfkAction>,
        reports: &mut Vec<FakehidReport>,
    ) -> (r: Result<()>)
        requires
            old(self).wf(),
        ensures
            final(self).wf(),
            final(self).same_but_calls(old(self)),
            r is Ok <==> spec_ipc_result(old(self).index, old(self).calls@, *qhdr, *ehdr, data@)
                is Ok,
            r matches Err(e) ==> e == Error::EIO && final(self).calls@ == old(self).calls@
                && final(out)@ == old(out)@ && final(reports)@ == old(reports)@,
            r is Ok ==> {
                let action = spec_ipc_result(
                    old(self).index,
                    old(self).calls@,
                    *qhdr,
                    *ehdr,
                    data@,
                )->Ok_0;
                &&& final(out)@ == (match action {
                    Some(a) => old(out)@.push(a),
                    None => old(out)@,
                })
                &&& final(self).calls@ == (if ehdr.category == EPIC_CATEGORY_REPLY {
                    old(self).calls@.update(ehdr.tag - 1, false)
                } else {
                    old(self).calls@
                })
                &&& if ehdr.category == EPIC_CATEGORY_REPORT && ehdr.subtype
                    == EPIC_SUBTYPE_FAKEHID_REPORT {
                    &&& final(reports)@.len() == old(reports)@.len() + 1
                    &&& final(reports)@.subrange(0, old(reports)@.len() as int) == old(reports)@
                    &&& final(reports)@.last().service == (EPICService {
                        channel: qhdr.channel,
                        endpoint: old(self).index,
                    })
                    &&& final(reports)@.last().data@ == data@
                } else {
                    final(reports)@ == old(reports)@
                }
            },
    {
        let subtype = ehdr.subtype;
        if ehdr.category == EPIC_CATEGORY_REPORT {
            if subtype == EPIC_SUBTYPE_STD_SERVICE {
                if data.len() < SERVICE_ANNOUNCE_SIZE {
                    return Err(Error::EIO);
                }
                let chan = read_u32(data, 32);
                let name_len = Self::name_len(data);
                let name = vstd::slice::slice_subrange(data, 0, name_len);
                match service_device(name) {
                    Some(device) => {
                        out.push(
                            AfkAction::RegisterService {
                                service: EPICService { channel: chan, endpoint: self.index },
                                device,
                            },
                        );
                    },
                    None => {},
                }
                Ok(())
            } else if subtype == EPIC_SUBTYPE_FAKEHID_REPORT {
                let copy = read_bytes(data, 0, data.len());
                assert(copy@ =~= data@);
                let ghost before = reports@;
                reports.push(
                    FakehidReport {
                        service: EPICService { channel: qhdr.channel, endpoint: self.index },
                        data: copy,
                    },
                );
                assert(reports@.subrange(0, before.len() as int) =~= before);
                Ok(())
            } else {
                Err(Error::EIO)
            }
        } else if ehdr.category == EPIC_CATEGORY_REPLY {
            if subtype == EPIC_SUBTYPE_RETCODE_PAYLOAD || subtype == EPIC_SUBTYPE_RETCODE {
                if data.len() < 4 {
                    return Err(Error::EIO);
                }
                let retcode = read_u32(data, 0);
                let tag = ehdr.tag as usize;
                if tag == 0 || tag > MAX_CALLS || !self.calls[tag - 1] {
                    return Err(Error::EIO);
                }
                self.calls.set(tag - 1, false);
                out.push(AfkAction::CallComplete { endpoint: self.index, tag: ehdr.tag, retcode });
                Ok(())
            } else {
                Err(Error::EIO)
            }
        } else {
            Err(Error::EIO)
        }
    }

    /// Hands the shared region that the firmware asked for to the endpoint
    /// and confirms it to the firmware.
    ///
    /// Fails with `EIO`, changing nothing, when the endpoint has a shared
    /// region already.
    pub fn set_buffer(&mut self, iomem: Vec<u8>, dma_handle: u64, out: &mut Vec<AfkAction>) -> (r:
        Result<()>)
        ensures
            r is Ok <==> old(self).iomem is None,
            r is Ok ==> {
                &&& final(self).iomem is Some
                &&& final(self).iomem->0@ == iomem@
                &&& final(self).dma_handle == dma_handle
                &&& final(self).index == old(self).index
                &&& final(self).txbuf == old(self).txbuf
                &&& final(self).rxbuf == old(self).rxbuf
                &&& final(self).seq == old(self).seq
                &&& final(self).calls == old(self).calls
                &&& final(out)@ == old(out)@.push(
                    AfkAction::Send {
                        endpoint: old(self).index,
                        msg: AFK_MSG_GET_BUF_ACK | dma_handle,
                    },
                )
            },
            r matches Err(e) ==> e == Error::EIO && *final(self) == *old(self) && final(out)@
                == old(out)@,
    {
        if self.iomem.is_some() {
            return Err(Error::EIO);
        }
        out.push(AfkAction::Send { endpoint: self.index, msg: AFK_MSG_GET_BUF_ACK | dma_handle });
        self.iomem = Some(iomem);
        self.dma_handle = dma_handle;
        Ok(())
    }

    /// Handles the firmware's request for a shared region: the embedding
    /// is asked to allocate it.
    ///
    /// Fails with `EIO` when the endpoint has a shared region already.
    pub fn recv_get_buf(&self, msg: u64, out: &mut Vec<AfkAction>) -> (r: Result<()>)
        ensures
            r is Ok <==> self.iomem is None,
            r is Ok ==> final(out)@ == old(out)@.push(
                AfkAction::AllocBuffer {
                    endpoint: self.index,
                    size: ((((msg & 0xFFFF0000) >> 16) as usize) * AFK_RB_BLOCK_STEP) as usize,
                },
            ),
            r matches Err(e) ==> e == Error::EIO && final(out)@ == old(out)@,
    {
        let blocks: u64 = (msg & 0xFFFF0000) >> 16;
        assert(blocks <= 0xFFFF) by (bit_vector)
            requires
                blocks == (msg & 0xFFFF0000) >> 16,
        ;
        let size: usize = (blocks as usize) * AFK_RB_BLOCK_STEP;
        if self.iomem.is_some() {
            return Err(Error::EIO);
        }
        out.push(AfkAction::AllocBuffer { endpoint: self.index, size });
        Ok(())
    }

    /// Reads where the transmit ring stands.
    ///
    /// Fails with `EIO` when the ring is not set up, does not lie in the
    /// shared region, or is full.
    fn tx_state(&self) -> (r: Result<TxState>)
        ensures
            r is Ok <==> spec_tx_state(*self) is Some,
            r matches Ok(t) ==> Some(t) == spec_tx_state(*self),
            r matches Err(e) ==> e == Error::EIO,
    {
        let (buf_offset, block_size, buf_size) = match self.txbuf {
            Some(b) => (b.offset, b.block_size, b.buf_size),
            None => {
                return Err(Error::EIO);
            },
        };
        if block_size > AFK_RING_MAX || buf_offset > AFK_RING_MAX || buf_size > AFK_RING_MAX {
            return Err(Error::EIO);
        }
        if buf_size == 0 || block_size == 0 {
            return Err(Error::EIO);
        }
        let rptr: u32 = match self.iomem_read32(buf_offset + block_size) {
            Ok(v) => v,
            Err(e) => {
                return Err(e);
            },
        };
        let wptr: u32 = match self.iomem_read32(buf_offset + block_size * 2) {
            Ok(v) => v,
            Err(e) => {
                return Err(e);
            },
        };
        if wptr < rptr && wptr as u64 + QEH_SIZE as u64 >= rptr as u64 {
            return Err(Error::EIO);
        }
        if wptr as u64 + QEH_SIZE as u64 > buf_size as u64 {
            return Err(Error::EIO);
        }
        Ok(
            TxState {
                base: buf_offset + block_size * 3,
                wptr_at: buf_offset + block_size * 2,
                wptr: wptr as usize,
                block_size,
                buf_size,
            },
        )
    }

    /// Puts a message into the transmit ring and tells the firmware.
    ///
    /// The message is a queue entry header followed by `header` and `data`.
    /// It goes to the write pointer, or to the start of the buffer when it
    /// does not fit behind the write pointer; the header is written to the
    /// write pointer in any case. The write pointer then moves behind the
    /// message, rounded up to the block size.
    ///
    /// Fails with `EIO` when the transmit ring is not set up, is full or
    /// does not lie in the shared region, or the message does not fit the
    /// ring. What was written to the shared region before the failure was
    /// found stays written; the write pointer is not moved.
    pub fn send_rb(
        &mut self,
        channel: u32,
        ty: u32,
        header: &[u8],
        data: &[u8],
        out: &mut Vec<AfkAction>,
    ) -> (r: Result<()>)
        ensures
            final(self).same_but_iomem(old(self)),
            r is Ok <==> spec_send_rb(*old(self), channel, ty, header@, data@) is Some,
            r is Ok ==> {
                let sent = spec_send_rb(*old(self), channel, ty, header@, data@)->0;
                &&& final(self).iomem->0@ == sent.0
                &&& final(out)@ == old(out)@.push(
                    AfkAction::Send {
                        endpoint: old(self).index,
                        msg: (sent.1 as u64) | (AFK_OPC_SEND << 48),
                    },
                )
            },
            r matches Err(e) ==> e == Error::EIO && final(out)@ == old(out)@,
    {
        let t = match self.tx_state() {
            Ok(t) => t,
            Err(e) => {
                return Err(e);
            },
        };
        if header.len() > AFK_RING_MAX || data.len() > AFK_RING_MAX {
            return Err(Error::EIO);
        }
        let payload_len: usize = header.len() + data.len();
        let qeh = QEHeader { magic: QE_MAGIC1, size: payload_len as u32, channel, ty };
        let qeh_bytes = qe_header_bytes(&qeh);
        let at: usize = if payload_len > t.buf_size - t.wptr - QEH_SIZE {
            0
        } else {
            t.wptr
        };
        if payload_len > t.buf_size - at - QEH_SIZE {
            return Err(Error::EIO);
        }
        let total: usize = match &self.iomem {
            Some(m) => m.len(),
            None => 0,
        };
        if t.base > total || t.buf_size > total - t.base {
            return Err(Error::EIO);
        }
        // Everything lies in the shared region: the writes go through.
        let r1 = self.memcpy_to_iomem(t.base + t.wptr, qeh_bytes.as_slice());
        if at != t.wptr {
            let r2 = self.memcpy_to_iomem(t.base, qeh_bytes.as_slice());
        }
        let r3 = self.memcpy_to_iomem(t.base + at + QEH_SIZE, header);
        let r4 = self.memcpy_to_iomem(t.base + at + QEH_SIZE + header.len(), data);
        let end: usize = at + QEH_SIZE + payload_len;
        let next: usize = ((end + t.block_size - 1) & !(t.block_size - 1)) % t.buf_size;
        let r5 = self.iomem_write32(t.wptr_at, next as u32);
        let msg: u64 = (next as u64) | (AFK_OPC_SEND << 48);
        out.push(AfkAction::Send { endpoint: self.index, msg });
        Ok(())
    }

    /// Starts a call of a service: sends a notification and sets a tag
    /// aside for the reply. Returns the tag; the return code of the call
    /// arrives with a `CallComplete` of that tag.
    ///
    /// Fails with `EIO`, changing nothing but what `send_rb` had written,
    /// when no tag is free or the message cannot be sent.
    pub fn epic_notify(&mut self, channel: u32, subtype: u16, data: &[u8], out: &mut Vec<AfkAction>)
        -> (r: Result<u16>)
        requires
            old(self).wf(),
        ensures
            final(self).wf(),
            final(self).index == old(self).index,
            final(self).dma_handle == old(self).dma_handle,
            final(self).txbuf == old(self).txbuf,
            final(self).rxbuf == old(self).rxbuf,
            r is Ok <==> spec_free_tag(old(self).calls@, MAX_CALLS as int) is Some && data@.len()
                <= u32::MAX && spec_send_rb(
                *old(self),
                channel,
                EPIC_TYPE_NOTIFY,
                spec_epic_header_bytes(
                    spec_notify_header(
                        old(self).seq,
                        subtype,
                        spec_free_tag(old(self).calls@, MAX_CALLS as int)->0 as u16,
                        data@.len() as u32,
                    ),
                ),
                data@,
            ) is Some,
            r matches Ok(tag) ==> {
                let hdr = spec_epic_header_bytes(
                    spec_notify_header(old(self).seq, subtype, tag, data@.len() as u32),
                );
                let sent = spec_send_rb(*old(self), channel, EPIC_TYPE_NOTIFY, hdr, data@)->0;
                &&& tag == spec_free_tag(old(self).calls@, MAX_CALLS as int)->0
                &&& 1 <= tag <= MAX_CALLS
                &&& !old(self).calls@[tag - 1]
                &&& final(self).calls@ == old(self).calls@.update(tag - 1, true)
                &&& final(self).seq == old(self).seq.wrapping_add(1)
                &&& final(self).iomem->0@ == sent.0
                &&& final(out)@ == old(out)@.push(
                    AfkAction::Send {
                        endpoint: old(self).index,
                        msg: (sent.1 as u64) | (AFK_OPC_SEND << 48),
                    },
                )
            },
            r matches Err(e) ==> e == Error::EIO && final(self).calls@ == old(self).calls@
                && final(self).seq == old(self).seq && final(out)@ == old(out)@,
    {
        let mut tag: usize = 0;
        let mut i: usize = 0;
        while i < MAX_CALLS && tag == 0
            invariant
                i <= MAX_CALLS,
                self.calls@.len() == MAX_CALLS,
                *self == *old(self),
                tag == 0 ==> spec_free_tag(self.calls@, i as int) is None,
                tag != 0 ==> spec_free_tag(self.calls@, MAX_CALLS as int) == Some(tag as int) && 1
                    <= tag <= MAX_CALLS && !self.calls@[tag - 1],
            decreases MAX_CALLS - i + (if tag == 0 { 1int } else { 0int }),
        {
            if !self.calls[i] {
                tag = i + 1;
                proof {
                    lemma_free_tag_found(self.calls@, i as int, MAX_CALLS as int);
                }
            } else {
                i = i + 1;
            }
        }
        if tag == 0 {
            return Err(Error::EIO);
        }
        if data.len() > u32::MAX as usize {
            return Err(Error::EIO);
        }
        let hdr = EPICHeader {
            version: 2,
            seq: self.seq,
            timestamp: 0,
            length: data.len() as u32,
            sub_version: 2,
            category: EPIC_CATEGORY_NOTIFY,
            subtype,
            tag: tag as u16,
            inline_len: 0,
        };
        let hdr_bytes = epic_header_bytes(&hdr);
        match self.send_rb(channel, EPIC_TYPE_NOTIFY, hdr_bytes.as_slice(), data, out) {
            Ok(()) => {},
            Err(e) => {
                return Err(e);
            },
        }
        self.seq = self.seq.wrapping_add(1);
        self.calls.set(tag - 1, true);
        Ok(tag as u16)
    }

    /// Whether everything but the shared region and the call table is the
    /// same in both.
    pub open spec fn same_setup(&self, other: &AFKEndpoint) -> bool {
        &&& self.index == other.index
        &&& self.dma_handle == other.dma_handle
        &&& self.txbuf == other.txbuf
        &&& self.rxbuf == other.rxbuf
        &&& self.seq == other.seq
        &&& (self.iomem is Some) == (other.iomem is Some)
        &&& self.iomem is Some ==> self.iomem->0@.len() == other.iomem->0@.len()
    }

    /// Finds the message at the read pointer of the receive ring `rx`.
    fn rx_frame(&self, rx: AFKRingBuffer) -> (r: Result<(usize, QEHeader)>)
        requires
            self.rxbuf == Some(rx),
            spec_rx_ready(*self),
        ensures
            r is Ok <==> spec_rx_frame(self.iomem->0@, rx) is Some,
            r matches Ok(f) ==> spec_rx_frame(self.iomem->0@, rx) == Some((f.0 as int, f.1))
                && f.0 <= AFK_RING_MAX && f.1.size <= AFK_RING_MAX && f.1.size >= EPIC_HEADER_SIZE
                && rx.offset + 3 * rx.block_size + f.0 + QEH_SIZE + f.1.size
                <= self.iomem->0@.len(),
            r matches Err(e) ==> e == Error::EIO,
    {
        let block_size: usize = rx.block_size;
        let buf_size: usize = rx.buf_size;
        let rptr_at: usize = rx.offset + block_size;
        let base: usize = rx.offset + block_size * 3;
        let rptr: usize = match self.iomem_read32(rptr_at) {
            Ok(v) => v as usize,
            Err(e) => {
                return Err(e);
            },
        };
        if rptr > buf_size || QEH_SIZE > buf_size - rptr {
            return Err(Error::EIO);
        }
        let qeh_bytes = match self.memcpy_from_iomem(base + rptr, QEH_SIZE) {
            Ok(b) => b,
            Err(e) => {
                return Err(e);
            },
        };
        let mut qeh = parse_qe_header(qeh_bytes.as_slice(), 0);
        if qeh.magic != QE_MAGIC1 && qeh.magic != QE_MAGIC2 {
            return Err(Error::EIO);
        }
        let mut at: usize = rptr;
        if qeh.size as usize > buf_size - rptr - QEH_SIZE {
            at = 0;
            let again = match self.memcpy_from_iomem(base, QEH_SIZE) {
                Ok(b) => b,
                Err(e) => {
                    return Err(e);
                },
            };
            qeh = parse_qe_header(again.as_slice(), 0);
            if qeh.magic != QE_MAGIC1 && qeh.magic != QE_MAGIC2 {
                return Err(Error::EIO);
            }
        }
        if qeh.size as usize > AFK_RING_MAX {
            return Err(Error::EIO);
        }
        let len: usize = match &self.iomem {
            Some(m) => m.len(),
            None => 0,
        };
        if base + at + QEH_SIZE > len || qeh.size as usize > len - (base + at + QEH_SIZE) {
            return Err(Error::EIO);
        }
        if (qeh.size as usize) < EPIC_HEADER_SIZE {
            return Err(Error::EIO);
        }
        Ok((at, qeh))
    }

    /// Takes the message at the read pointer out of the receive ring `rx`.
    fn rx_step(
        &mut self,
        rx: AFKRingBuffer,
        out: &mut Vec<AfkAction>,
        reports: &mut Vec<FakehidReport>,
    ) -> (r: Result<()>)
        requires
            old(self).wf(),
            old(self).rxbuf == Some(rx),
            spec_rx_ready(*old(self)),
        ensures
            final(self).wf(),
            final(self).same_setup(old(self)),
            ({
                let st = RxState {
                    mem: old(self).iomem->0@,
                    calls: old(self).calls@,
                    out: old(out)@,
                    reports: spec_reports(old(reports)@),
                    budget: 0,
                    failed: false,
                };
                let next = spec_rx_step(old(self).index, rx, st);
                &&& r is Ok <==> !next.failed
                &&& r matches Err(e) ==> e == Error::EIO && final(self).iomem->0@ == old(
                    self,
                ).iomem->0@ && final(self).calls@ == old(self).calls@ && final(out)@ == old(out)@
                    && final(reports)@ == old(reports)@
                &&& r is Ok ==> final(self).iomem->0@ == next.mem && final(self).calls@
                    == next.calls && final(out)@ == next.out && spec_reports(final(reports)@)
                    == next.reports
            }),
    {
        let (at, qeh) = match self.rx_frame(rx) {
            Ok(f) => f,
            Err(e) => {
                return Err(e);
            },
        };
        let block_size: usize = rx.block_size;
        let rptr_at: usize = rx.offset + block_size;
        let base: usize = rx.offset + block_size * 3;
        let msg_buf = match self.memcpy_from_iomem(base + at + QEH_SIZE, qeh.size as usize) {
            Ok(b) => b,
            Err(e) => {
                return Err(e);
            },
        };
        let header = parse_epic_header(msg_buf.as_slice(), 0);
        let payload = vstd::slice::slice_subrange(
            msg_buf.as_slice(),
            EPIC_HEADER_SIZE,
            msg_buf.len(),
        );
        let ghost reports_before = reports@;
        match self.handle_ipc(&qeh, &header, payload, out, reports) {
            Ok(()) => {},
            Err(e) => {
                return Err(e);
            },
        }
        proof {
            if header.category == EPIC_CATEGORY_REPORT && header.subtype
                == EPIC_SUBTYPE_FAKEHID_REPORT {
                let svc = EPICService { channel: qeh.channel, endpoint: self.index };
                assert(reports@.last() == reports@[reports_before.len() as int]);
                assert forall|i: int| 0 <= i < reports_before.len() implies reports@[i]
                    == reports_before[i] by {
                    assert(reports@.subrange(0, reports_before.len() as int)[i] == reports@[i]);
                }
                assert(spec_reports(reports@) =~= spec_reports(reports_before).push(
                    (svc, payload@),
                ));
            }
        }
        let end: usize = at + QEH_SIZE + qeh.size as usize;
        let next: usize = ((end + block_size - 1) & !(block_size - 1)) % rx.buf_size;
        match self.iomem_write32(rptr_at, next as u32) {
            Ok(()) => {},
            Err(e) => {
                return Err(e);
            },
        }
        Ok(())
    }

    /// Drains the receive ring: every message between the read pointer and
    /// the write pointer is handled, see `handle_ipc`, and the read pointer
    /// is moved behind it.
    ///
    /// A message that does not fit between the read pointer and the end of
    /// the buffer is taken from the start of the buffer.
    ///
    /// Fails with `EIO` when the receive ring is not set up or does not lie
    /// in the shared region, a message does not begin with the magic of a
    /// queue entry or is shorter than an EPIC header, a message is refused,
    /// or the ring holds more messages than its size allows for. The
    /// messages before the failure have been handled then.
    pub fn recv_rb(&mut self, out: &mut Vec<AfkAction>, reports: &mut Vec<FakehidReport>) -> (r:
        Result<()>)
        requires
            old(self).wf(),
        ensures
            final(self).wf(),
            final(self).same_setup(old(self)),
            rx_drained(
                *old(self),
                *final(self),
                old(out)@,
                final(out)@,
                old(reports)@,
                final(reports)@,
                r,
            ),
    {
        let rx = match self.rxbuf {
            Some(b) => b,
            None => {
                return Err(Error::EIO);
            },
        };
        if self.iomem.is_none() {
            return Err(Error::EIO);
        }
        if rx.block_size > AFK_RING_MAX || rx.offset > AFK_RING_MAX || rx.buf_size > AFK_RING_MAX
            || rx.block_size == 0 || rx.buf_size == 0 {
            return Err(Error::EIO);
        }
        let wptr_at: usize = rx.offset + rx.block_size * 2;
        let rptr_at: usize = rx.offset + rx.block_size;
        let mut wptr: u32 = match self.iomem_read32(wptr_at) {
            Ok(v) => v,
            Err(e) => {
                return Err(e);
            },
        };
        let mut rptr: u32 = match self.iomem_read32(rptr_at) {
            Ok(v) => v,
            Err(e) => {
                return Err(e);
            },
        };
        let mut budget: usize = rx.buf_size / QEH_SIZE + 1;
        let ghost start = spec_rx_start(*old(self), old(out)@, old(reports)@);
        while wptr != rptr && budget > 0
            invariant
                self.wf(),
                self.same_setup(old(self)),
                self.rxbuf == Some(rx),
                spec_rx_ready(*self),
                spec_rx_ready(*old(self)),
                old(self).rxbuf == Some(rx),
                wptr_at == rx.offset + rx.block_size * 2,
                rptr_at == rx.offset + rx.block_size,
                rptr == spec_le_u32(self.iomem->0@, rptr_at as int),
                wptr == spec_le_u32(self.iomem->0@, wptr_at as int),
                start == spec_rx_start(*old(self), old(out)@, old(reports)@),
                spec_rx_drain(self.index, rx, start) == spec_rx_drain(
                    self.index,
                    rx,
                    RxState {
                        mem: self.iomem->0@,
                        calls: self.calls@,
                        out: out@,
                        reports: spec_reports(reports@),
                        budget: budget as int,
                        failed: false,
                    },
                ),
            decreases budget,
        {
            let ghost cur = RxState {
                mem: self.iomem->0@,
                calls: self.calls@,
                out: out@,
                reports: spec_reports(reports@),
                budget: budget as int,
                failed: false,
            };
            let ghost stepped = spec_rx_step(self.index, rx, cur);
            proof {
                // What a step does is the same whatever the budget.
                assert(stepped == (RxState {
                    budget: budget as int,
                    ..spec_rx_step(self.index, rx, RxState { budget: 0, ..cur })
                }));
            }
            match self.rx_step(rx, out, reports) {
                Ok(()) => {},
                Err(e) => {
                    assert(spec_rx_drain(self.index, rx, cur) == stepped);
                    return Err(e);
                },
            }
            budget = budget - 1;
            wptr = match self.iomem_read32(wptr_at) {
                Ok(v) => v,
                Err(e) => {
                    return Err(e);
                },
            };
            rptr = match self.iomem_read32(rptr_at) {
                Ok(v) => v,
                Err(e) => {
                    return Err(e);
                },
            };
            proof {
                assert(spec_rx_drain(self.index, rx, cur) == spec_rx_drain(
                    self.index,
                    rx,
                    RxState { budget: cur.budget - 1, ..stepped },
                ));
            }
        }
        if wptr != rptr {
            return Err(Error::EIO);
        }
        Ok(())
    }

    /// Handles a message of the firmware that has arrived at the mailbox
    /// for this endpoint. The opcode of the message is in its bits 48 and
    /// up.
    ///
    /// The start of the handshake is confirmed. A request for a buffer asks
    /// the embedding to allocate the shared region. The messages that name
    /// the rings set them up; when both are set up the firmware is told to
    /// start. A message that says that the receive ring has messages drains
    /// it. The confirmation of the shutdown is passed on. Messages of the
    /// handshake that carry nothing, and messages that are not known, are
    /// passed over.
    ///
    /// Fails with `EIO` when a ring is named that is set up already or
    /// cannot be read, when a buffer is asked for that is there already,
    /// and when draining the receive ring fails.
    pub fn recv_message(
        &mut self,
        msg: u64,
        out: &mut Vec<AfkAction>,
        reports: &mut Vec<FakehidReport>,
    ) -> (r: Result<()>)
        requires
            old(self).wf(),
        ensures
            final(self).wf(),
            final(self).index == old(self).index,
            r matches Err(e) ==> e == Error::EIO,
            msg >> 48 != AFK_OPC_RECV ==> final(reports)@ == old(reports)@ && final(self).calls
                == old(self).calls && final(self).iomem == old(self).iomem && final(self).seq
                == old(self).seq,
            msg >> 48 == AFK_OPC_RECV ==> final(self).same_setup(old(self)) && rx_drained(
                *old(self),
                *final(self),
                old(out)@,
                final(out)@,
                old(reports)@,
                final(reports)@,
                r,
            ),
            msg >> 48 == AFK_OPC_INIT ==> r is Ok && final(out)@ == old(out)@.push(
                AfkAction::Send { endpoint: old(self).index, msg: AFK_MSG_INIT_ACK },
            ) && *final(self) == *old(self),
            msg >> 48 == AFK_OPC_SHUTDOWN_ACK ==> r is Ok && final(out)@ == old(out)@.push(
                AfkAction::ShutdownComplete { endpoint: old(self).index },
            ) && *final(self) == *old(self),
            msg >> 48 == AFK_OPC_GET_BUF ==> (r is Ok <==> old(self).iomem is None) && *final(self)
                == *old(self) && final(out)@ == (if old(self).iomem is None {
                old(out)@.push(
                    AfkAction::AllocBuffer {
                        endpoint: old(self).index,
                        size: ((((msg & 0xFFFF0000) >> 16) as usize) * AFK_RB_BLOCK_STEP) as usize,
                    },
                )
            } else {
                old(out)@
            }),
            msg >> 48 == AFK_OPC_INIT_RX ==> {
                &&& r is Ok <==> old(self).rxbuf is None && old(self).parse_ring_buf_ok(msg)
                &&& final(self).txbuf == old(self).txbuf
                &&& r is Ok ==> final(self).rxbuf == Some(old(self).spec_ring_buf(msg))
                    && final(out)@ == (if old(self).txbuf is Some {
                    old(out)@.push(AfkAction::Send { endpoint: old(self).index, msg: AFK_MSG_START })
                } else {
                    old(out)@
                })
                &&& r is Err ==> *final(self) == *old(self) && final(out)@ == old(out)@
            },
            msg >> 48 == AFK_OPC_INIT_TX ==> {
                &&& r is Ok <==> old(self).txbuf is None && old(self).parse_ring_buf_ok(msg)
                &&& final(self).rxbuf == old(self).rxbuf
                &&& r is Ok ==> final(self).txbuf == Some(old(self).spec_ring_buf(msg))
                    && final(out)@ == (if old(self).rxbuf is Some {
                    old(out)@.push(AfkAction::Send { endpoint: old(self).index, msg: AFK_MSG_START })
                } else {
                    old(out)@
                })
                &&& r is Err ==> *final(self) == *old(self) && final(out)@ == old(out)@
            },
            msg >> 48 != AFK_OPC_INIT && msg >> 48 != AFK_OPC_GET_BUF && msg >> 48
                != AFK_OPC_INIT_RX && msg >> 48 != AFK_OPC_INIT_TX && msg >> 48 != AFK_OPC_RECV
                && msg >> 48 != AFK_OPC_SHUTDOWN_ACK ==> r is Ok && *final(self) == *old(self)
                && final(out)@ == old(out)@,
    {
        let opc: u64 = msg >> 48;
        if opc == AFK_OPC_INIT {
            out.push(AfkAction::Send { endpoint: self.index, msg: AFK_MSG_INIT_ACK });
        } else if opc == AFK_OPC_GET_BUF {
            match self.recv_get_buf(msg, out) {
                Ok(()) => {},
                Err(e) => {
                    return Err(e);
                },
            }
        } else if opc == AFK_OPC_INIT_UNK {
            // no-op
        } else if opc == AFK_OPC_START_ACK {
        } else if opc == AFK_OPC_INIT_RX {
            if self.rxbuf.is_some() {
                return Err(Error::EIO);
            }
            let rb = match self.parse_ring_buf(msg) {
                Ok(rb) => rb,
                Err(e) => {
                    return Err(e);
                },
            };
            self.rxbuf = Some(rb);
            if self.txbuf.is_some() {
                out.push(AfkAction::Send { endpoint: self.index, msg: AFK_MSG_START });
            }
        } else if opc == AFK_OPC_INIT_TX {
            if self.txbuf.is_some() {
                return Err(Error::EIO);
            }
            let rb = match self.parse_ring_buf(msg) {
                Ok(rb) => rb,
                Err(e) => {
                    return Err(e);
                },
            };
            self.txbuf = Some(rb);
            if self.rxbuf.is_some() {
                out.push(AfkAction::Send { endpoint: self.index, msg: AFK_MSG_START });
            }
        } else if opc == AFK_OPC_RECV {
            match self.recv_rb(out, reports) {
                Ok(()) => {},
                Err(e) => {
                    return Err(e);
                },
            }
        } else if opc == AFK_OPC_SHUTDOWN_ACK {
            out.push(AfkAction::ShutdownComplete { endpoint: self.index });
        } else {
            // An unknown message is reported and passed over.
        }
        Ok(())
    }

    /// Whether the ring that a message names can be read, see
    /// `parse_ring_buf`.
    pub open spec fn parse_ring_buf_ok(&self, msg: u64) -> bool {
        &&& self.iomem is Some
        &&& ((msg >> 32) & 0xFFFF) * AFK_RB_BLOCK_STEP + 4 <= self.iomem->0@.len()
        &&& spec_le_u32(self.iomem->0@, (((msg >> 32) & 0xFFFF) * AFK_RB_BLOCK_STEP) as int) <= ((
        msg >> 16) & 0xFFFF) * AFK_RB_BLOCK_STEP
    }
}

/// The EPIC header of a notification.
pub open spec fn spec_notify_header(seq: u16, subtype: u16, tag: u16, length: u32) -> EPICHeader {
    EPICHeader {
        version: 2,
        seq,
        timestamp: 0,
        length,
        sub_version: 2,
        category: EPIC_CATEGORY_NOTIFY,
        subtype,
        tag,
        inline_len: 0,
    }
}

/// A free tag behind tags in use is the first free one.
pub proof fn lemma_free_tag_found(calls: Seq<bool>, i: int, n: int)
    requires
        0 <= i < n <= calls.len(),
        spec_free_tag(calls, i) is None,
        !calls[i],
    ensures
        spec_free_tag(calls, n) == Some(i + 1),
    decreases n - i,
{
    if n > i + 1 {
        lemma_free_tag_found(calls, i, n - 1);
    }
}

/// Where the transmit ring of an endpoint stands.
#[derive(Clone, Copy, Debug, PartialEq, Eq, Structural)]
pub struct TxState {
    /// Offset of the buffer in the shared region.
    pub base: usize,
    /// Offset of the write pointer in the shared region.
    pub wptr_at: usize,
    /// The write pointer.
    pub wptr: usize,
    pub block_size: usize,
    pub buf_size: usize,
}

/// Largest offset and size of a ring that the host works with.
pub const AFK_RING_MAX: usize = 0x0fff_ffff;

/// Where the transmit ring stands; `None` when it is not set up, is larger
/// than `AFK_RING_MAX`, is empty, has its pointers outside the shared
/// region, or is full.
pub open spec fn spec_tx_state(ep: AFKEndpoint) -> Option<TxState> {
    if ep.txbuf is None || ep.iomem is None {
        None
    } else {
        let tx = ep.txbuf->0;
        let m = ep.iomem->0@;
        let rptr = spec_le_u32(m, tx.offset + tx.block_size);
        let wptr = spec_le_u32(m, tx.offset + 2 * tx.block_size);
        if tx.block_size > AFK_RING_MAX || tx.offset > AFK_RING_MAX || tx.buf_size
            > AFK_RING_MAX {
            None
        } else if tx.buf_size == 0 || tx.block_size == 0 {
            None
        } else if tx.offset + 2 * tx.block_size + 4 > m.len() {
            None
        } else if wptr < rptr && wptr + QEH_SIZE >= rptr {
            None
        } else if wptr + QEH_SIZE > tx.buf_size {
            None
        } else {
            Some(
                TxState {
                    base: (tx.offset + 3 * tx.block_size) as usize,
                    wptr_at: (tx.offset + 2 * tx.block_size) as usize,
                    wptr: wptr as usize,
                    block_size: tx.block_size,
                    buf_size: tx.buf_size,
                },
            )
        }
    }
}

/// What putting a message into the transmit ring does to the shared region
/// and where it leaves the write pointer; `None` when the message cannot be
/// sent: the ring is not ready, see `spec_tx_state`, the message is larger
/// than `AFK_RING_MAX` or does not fit the buffer, or the buffer does not
/// lie in the shared region.
pub open spec fn spec_send_rb(
    ep: AFKEndpoint,
    channel: u32,
    ty: u32,
    header: Seq<u8>,
    data: Seq<u8>,
) -> Option<(Seq<u8>, usize)> {
    match spec_tx_state(ep) {
        None => None,
        Some(t) => {
            let m = ep.iomem->0@;
            let payload = header.len() + data.len();
            let qeh = spec_qe_header_bytes(
                QEHeader { magic: QE_MAGIC1, size: payload as u32, channel, ty },
            );
            let at: int = if payload > t.buf_size - t.wptr - QEH_SIZE {
                0
            } else {
                t.wptr as int
            };
            let end = at + QEH_SIZE + payload;
            let next = spec_align_up(end as usize, t.block_size) % t.buf_size;
            if header.len() > AFK_RING_MAX || data.len() > AFK_RING_MAX {
                None
            } else if payload > t.buf_size - at - QEH_SIZE {
                None
            } else if t.base + t.buf_size > m.len() {
                None
            } else {
                let m1 = spec_overwrite(m, t.base + t.wptr, qeh);
                let m2 = if at != t.wptr {
                    spec_overwrite(m1, t.base as int, qeh)
                } else {
                    m1
                };
                let m3 = spec_overwrite(m2, t.base + at + QEH_SIZE, header);
                let m4 = spec_overwrite(m3, t.base + at + QEH_SIZE + header.len(), data);
                Some((spec_overwrite(m4, t.wptr_at as int, spec_u32_bytes(next as u32)), next))
            }
        },
    }
}

/// What draining the receive ring has come to: the shared region, the
/// calls that wait, the actions and reports that were handed out, how many
/// messages may still be taken, and whether draining has failed.
pub struct RxState {
    pub mem: Seq<u8>,
    pub calls: Seq<bool>,
    pub out: Seq<AfkAction>,
    pub reports: Seq<(EPICService, Seq<u8>)>,
    pub budget: int,
    pub failed: bool,
}

/// The reports as values: the service and the bytes of each.
pub open spec fn spec_reports(reports: Seq<FakehidReport>) -> Seq<(EPICService, Seq<u8>)> {
    Seq::new(reports.len(), |i: int| (reports[i].service, reports[i].data@))
}

/// Whether a queue entry begins as it has to.
pub open spec fn qe_magic_ok(h: QEHeader) -> bool {
    h.magic == QE_MAGIC1 || h.magic == QE_MAGIC2
}

/// Where in the buffer of the receive ring `rx` the message at the read
/// pointer lies, and its queue entry header; `None` when there is no such
/// message: the read pointer is outside the buffer, the header is not
/// that of a queue entry, or the message does not lie in the shared region
/// or is too short for an EPIC header. A message that does not fit behind
/// its header at the read pointer lies at the start of the buffer, under a
/// header of its own.
pub open spec fn spec_rx_frame(mem: Seq<u8>, rx: AFKRingBuffer) -> Option<(int, QEHeader)> {
    let base = rx.offset + 3 * rx.block_size;
    let rptr = spec_le_u32(mem, rx.offset + rx.block_size);
    if rptr > rx.buf_size || QEH_SIZE > rx.buf_size - rptr {
        None
    } else if base + rptr + QEH_SIZE > mem.len() {
        None
    } else if !qe_magic_ok(spec_qe_header(mem.subrange(base + rptr, base + rptr + QEH_SIZE), 0)) {
        None
    } else {
        let first = spec_qe_header(mem.subrange(base + rptr, base + rptr + QEH_SIZE), 0);
        let at: int = if first.size > rx.buf_size - rptr - QEH_SIZE {
            0
        } else {
            rptr
        };
        if base + at + QEH_SIZE > mem.len() {
            None
        } else {
            let qeh = spec_qe_header(mem.subrange(base + at, base + at + QEH_SIZE), 0);
            if !qe_magic_ok(qeh) || qeh.size > AFK_RING_MAX || base + at + QEH_SIZE + qeh.size
                > mem.len() || qeh.size < EPIC_HEADER_SIZE {
                None
            } else {
                Some((at, qeh))
            }
        }
    }
}

/// Taking one message out of the receive ring `rx` of endpoint `index`:
/// the message at the read pointer is handled, see `spec_ipc_result`, and
/// the read pointer moves behind it, to the next multiple of the block
/// size. Draining fails, with nothing changed, when there is no message,
/// see `spec_rx_frame`, or the message is refused.
pub open spec fn spec_rx_step(index: u8, rx: AFKRingBuffer, st: RxState) -> RxState {
    match spec_rx_frame(st.mem, rx) {
        None => RxState { failed: true, ..st },
        Some((at, qeh)) => {
            let start = rx.offset + 3 * rx.block_size + at + QEH_SIZE;
            let msg = st.mem.subrange(start, start + qeh.size);
            let ehdr = spec_epic_header(msg, 0);
            let payload = msg.subrange(EPIC_HEADER_SIZE as int, msg.len() as int);
            match spec_ipc_result(index, st.calls, qeh, ehdr, payload) {
                Err(_) => RxState { failed: true, ..st },
                Ok(action) => {
                    let next = spec_align_up((at + QEH_SIZE + qeh.size) as usize, rx.block_size)
                        % rx.buf_size;
                    RxState {
                        mem: spec_overwrite(
                            st.mem,
                            rx.offset + rx.block_size,
                            spec_u32_bytes(next as u32),
                        ),
                        calls: if ehdr.category == EPIC_CATEGORY_REPLY {
                            st.calls.update(ehdr.tag - 1, false)
                        } else {
                            st.calls
                        },
                        out: match action {
                            Some(a) => st.out.push(a),
                            None => st.out,
                        },
                        reports: if ehdr.category == EPIC_CATEGORY_REPORT && ehdr.subtype
                            == EPIC_SUBTYPE_FAKEHID_REPORT {
                            st.reports.push(
                                (EPICService { channel: qeh.channel, endpoint: index }, payload),
                            )
                        } else {
                            st.reports
                        },
                        budget: st.budget,
                        failed: false,
                    }
                },
            }
        },
    }
}

/// Draining the receive ring `rx` of endpoint `index`: messages are taken
/// out, see `spec_rx_step`, until the read pointer has caught up with the
/// write pointer. Draining fails when taking a message out fails, and when
/// more messages are found than `budget` allows for.
pub open spec fn spec_rx_drain(index: u8, rx: AFKRingBuffer, st: RxState) -> RxState
    decreases st.budget,
{
    if st.failed {
        st
    } else if spec_le_u32(st.mem, rx.offset + 2 * rx.block_size) == spec_le_u32(
        st.mem,
        rx.offset + rx.block_size,
    ) {
        st
    } else if st.budget <= 0 {
        RxState { failed: true, ..st }
    } else {
        let next = spec_rx_step(index, rx, st);
        if next.failed {
            next
        } else {
            spec_rx_drain(index, rx, RxState { budget: st.budget - 1, ..next })
        }
    }
}

/// Whether the receive ring of an endpoint can be drained: the ring is set
/// up, not larger than `AFK_RING_MAX` and not empty, and its pointers lie
/// in the shared region.
pub open spec fn spec_rx_ready(ep: AFKEndpoint) -> bool {
    &&& ep.rxbuf is Some
    &&& ep.iomem is Some
    &&& 0 < ep.rxbuf->0.block_size <= AFK_RING_MAX
    &&& 0 < ep.rxbuf->0.buf_size <= AFK_RING_MAX
    &&& ep.rxbuf->0.offset <= AFK_RING_MAX
    &&& ep.rxbuf->0.offset + 2 * ep.rxbuf->0.block_size + 4 <= ep.iomem->0@.len()
}

/// The state in which draining the receive ring of an endpoint starts: a
/// message is allowed for each queue entry header that the buffer has room
/// for, and one more.
pub open spec fn spec_rx_start(
    ep: AFKEndpoint,
    out: Seq<AfkAction>,
    reports: Seq<FakehidReport>,
) -> RxState {
    RxState {
        mem: ep.iomem->0@,
        calls: ep.calls@,
        out,
        reports: spec_reports(reports),
        budget: ep.rxbuf->0.buf_size as int / (QEH_SIZE as int) + 1,
        failed: false,
    }
}

/// What draining the receive ring does. A ring that cannot be drained, see
/// `spec_rx_ready`, makes it fail with nothing changed. Else the endpoint,
/// the actions and the reports are as `spec_rx_drain` leaves them, and
/// draining succeeds unless that has failed.
pub open spec fn rx_drained(
    before: AFKEndpoint,
    after: AFKEndpoint,
    out_before: Seq<AfkAction>,
    out_after: Seq<AfkAction>,
    reports_before: Seq<FakehidReport>,
    reports_after: Seq<FakehidReport>,
    r: Result<()>,
) -> bool {
    if !spec_rx_ready(before) {
        r == Err::<(), Error>(Error::EIO) && after == before && out_after == out_before
            && reports_after == reports_before
    } else {
        let fin = spec_rx_drain(
            before.index,
            before.rxbuf->0,
            spec_rx_start(before, out_before, reports_before),
        );
        &&& r is Ok <==> !fin.failed
        &&& r matches Err(e) ==> e == Error::EIO
        &&& after.iomem is Some
        &&& after.iomem->0@ == fin.mem
        &&& after.calls@ == fin.calls
        &&& out_after == fin.out
        &&& spec_reports(reports_after) == fin.reports
    }
}

/// Behind a zero byte no byte counts for the name.
pub proof fn lemma_name_len_stops(data: Seq<u8>, i: int, limit: int)
    requires
        0 <= i <= limit,
        spec_name_len(data, i) == i,
        i < limit ==> data[i] == 0,
    ensures
        spec_name_len(data, limit) == i,
    decreases limit - i,
{
    if limit > i {
        lemma_name_len_stops(data, i, limit - 1);
    }
}


/// A replacement for the value of a boot argument.
#[derive(Clone, Copy, Debug, PartialEq, Eq, Structural)]
pub struct BootargPatch {
    /// FourCC of the boot argument.
    pub key: u32,
    /// The new value.
    pub value: u32,
}

/// The bytes that store `value` in a boot argument of `size` bytes: the
/// first `size` bytes of the value as a 64-bit little-endian integer.
pub open spec fn spec_patch_bytes(value: u32, size: int) -> Seq<u8> {
    (spec_u32_bytes(value) + spec_u32_bytes(0)).subrange(0, size)
}

/// The position in `patches` of the first patch for `key`, if there is
/// one.
pub open spec fn spec_find_patch(patches: Seq<BootargPatch>, key: u32, n: int) -> Option<int>
    decreases n,
{
    if n <= 0 {
        None
    } else {
        match spec_find_patch(patches, key, n - 1) {
            Some(i) => Some(i),
            None => if patches[n - 1].key == key {
                Some(n - 1)
            } else {
                None
            },
        }
    }
}

/// The boot arguments `bytes` from the entry at `idx` on, patched. An entry
/// is a FourCC, the size of its value, and the value; the value of an entry
/// that has a patch is replaced. `None` when an entry does not lie in the
/// boot arguments or the value of an entry that has a patch is longer than 8
/// bytes.
pub open spec fn spec_patch_bootargs(bytes: Seq<u8>, patches: Seq<BootargPatch>, idx: int)
    -> Option<Seq<u8>>
    decreases bytes.len() - idx,
{
    if idx >= bytes.len() {
        Some(bytes)
    } else if idx < 0 || idx + 8 > bytes.len() {
        None
    } else {
        let key = spec_le_u32(bytes, idx) as u32;
        let size = spec_le_u32(bytes, idx + 4);
        if idx + 8 + size > bytes.len() {
            None
        } else {
            match spec_find_patch(patches, key, patches.len() as int) {
                Some(i) => if size > 8 {
                    None
                } else {
                    spec_patch_bootargs(
                        spec_overwrite(bytes, idx + 8, spec_patch_bytes(patches[i].value, size)),
                        patches,
                        idx + 8 + size,
                    )
                },
                None => spec_patch_bootargs(bytes, patches, idx + 8 + size),
            }
        }
    }
}

/// Finds the first patch for `key`.
fn find_patch(patches: &[BootargPatch], key: u32) -> (r: Option<usize>)
    ensures
        r is Some <==> spec_find_patch(patches@, key, patches@.len() as int) is Some,
        r matches Some(i) ==> spec_find_patch(patches@, key, patches@.len() as int) == Some(
            i as int,
        ) && i < patches@.len(),
{
    let mut i: usize = 0;
    while i < patches.len()
        invariant
            i <= patches@.len(),
            spec_find_patch(patches@, key, i as int) is None,
        decreases patches@.len() - i,
    {
        if patches[i].key == key {
            proof {
                lemma_find_patch_found(patches@, key, i as int, patches@.len() as int);
            }
            return Some(i);
        }
        i = i + 1;
    }
    None
}

/// A patch for the key behind patches for other keys is the first.
pub proof fn lemma_find_patch_found(patches: Seq<BootargPatch>, key: u32, i: int, n: int)
    requires
        0 <= i < n <= patches.len(),
        spec_find_patch(patches, key, i) is None,
        patches[i].key == key,
    ensures
        spec_find_patch(patches, key, n) == Some(i),
    decreases n - i,
{
    if n > i + 1 {
        lemma_find_patch_found(patches, key, i, n - 1);
    }
}

/// Patches the boot arguments of the coprocessor: the values of the entries
/// that `patches` names are replaced.
///
/// Fails with `EIO` when an entry does not lie in the boot arguments or the
/// value of an entry to patch is longer than 8 bytes. The entries before
/// that one are patched then.
pub fn patch_bootargs(arg_bytes: &mut Vec<u8>, patches: &[BootargPatch]) -> (r: Result<()>)
    ensures
        final(arg_bytes)@.len() == old(arg_bytes)@.len(),
        r is Ok <==> spec_patch_bootargs(old(arg_bytes)@, patches@, 0) is Some,
        r is Ok ==> Some(final(arg_bytes)@) == spec_patch_bootargs(old(arg_bytes)@, patches@, 0),
        r matches Err(e) ==> e == Error::EIO,
{
    let size: usize = arg_bytes.len();
    let mut idx: usize = 0;
    while idx < size
        invariant
            arg_bytes@.len() == size,
            size == old(arg_bytes)@.len(),
            idx <= size,
            spec_patch_bootargs(old(arg_bytes)@, patches@, 0) == spec_patch_bootargs(
                arg_bytes@,
                patches@,
                idx as int,
            ),
        decreases size - idx,
    {
        if 8 > size - idx {
            return Err(Error::EIO);
        }
        let key = read_u32(arg_bytes.as_slice(), idx);
        let len = read_u32(arg_bytes.as_slice(), idx + 4) as usize;
        idx = idx + 8;
        if len > size - idx {
            return Err(Error::EIO);
        }
        match find_patch(patches, key) {
            Some(i) => {
                if len > 8 {
                    return Err(Error::EIO);
                }
                let mut value: Vec<u8> = Vec::new();
                push_u32(&mut value, patches[i].value);
                push_u32(&mut value, 0);
                assert(value@ =~= spec_u32_bytes(patches@[i as int].value) + spec_u32_bytes(0));
                let part = vstd::slice::slice_subrange(value.as_slice(), 0, len);
                write_bytes(arg_bytes, idx, part);
            },
            None => {},
        }
        idx = idx + len;
    }
    Ok(())
}

/// The patches of the boot arguments that the coprocessor is started
/// with: `EC0p`, `nCal`, the alignment under `alig` and the target under
/// `AOPt`.
pub open spec fn spec_boot_patches(alig: u32, aopt: u32) -> Seq<BootargPatch> {
    seq![
        BootargPatch { key: 0x45433070, value: 0x20000 },
        BootargPatch { key: 0x6e43616c, value: 0 },
        BootargPatch { key: 0x616c6967, value: alig },
        BootargPatch { key: 0x414f5074, value: aopt },
    ]
}

/// Lists the patches of the boot arguments.
pub fn boot_patches(alig: u32, aopt: u32) -> (r: Vec<BootargPatch>)
    ensures
        r@ == spec_boot_patches(alig, aopt),
{
    let mut out: Vec<BootargPatch> = Vec::new();
    out.push(BootargPatch { key: 0x45433070, value: 0x20000 });
    out.push(BootargPatch { key: 0x6e43616c, value: 0 });
    out.push(BootargPatch { key: 0x616c6967, value: alig });
    out.push(BootargPatch { key: 0x414f5074, value: aopt });
    assert(out@ =~= spec_boot_patches(alig, aopt));
    out
}

/// The value of the CPU control register that lets the coprocessor run.
pub fn start_cpu(control: u32) -> (r: u32)
    ensures
        r == control | CPU_RUN,
{
    control | CPU_RUN
}

/// The listeners for the reports of sensors, by service.
pub struct Listeners {
    entries: Vec<EPICService>,
}

impl Listeners {
    /// The services that have a listener, in the order in which reports
    /// are offered to them.
    pub closed spec fn view(&self) -> Seq<EPICService> {
        self.entries@
    }

    /// Creates an empty list.
    pub fn new() -> (r: Self)
        ensures
            r@ == Seq::<EPICService>::empty(),
    {
        Listeners { entries: Vec::new() }
    }

    /// Adds the listener for the specified service.
    pub fn add_fakehid_listener(&mut self, svc: EPICService)
        ensures
            final(self)@ == old(self)@.push(svc),
    {
        self.entries.push(svc);
    }

    /// Finds the listener that a report of the endpoint `endpoint` on the
    /// channel `channel` goes to: the first for that service.
    pub fn process_fakehid_report(&self, endpoint: u8, channel: u32) -> (r: Option<usize>)
        ensures
            r matches Some(i) ==> i < self@.len() && self@[i as int] == (EPICService {
                channel,
                endpoint,
            }) && forall|j: int|
                0 <= j < i ==> (#[trigger] self@[j]) != (EPICService { channel, endpoint }),
            r is None ==> forall|j: int|
                0 <= j < self@.len() ==> (#[trigger] self@[j]) != (EPICService {
                    channel,
                    endpoint,
                }),
    {
        let mut i: usize = 0;
        while i < self.entries.len()
            invariant
                i <= self.entries@.len(),
                forall|j: int|
                    0 <= j < i ==> (#[trigger] self.entries@[j]) != (EPICService {
                        channel,
                        endpoint,
                    }),
            decreases self.entries@.len() - i,
        {
            let e = self.entries[i];
            if e.endpoint == endpoint && e.channel == channel {
                return Some(i);
            }
            i = i + 1;
        }
        None
    }

    /// Remove the listener for the specified service: the first for that
    /// service is taken out and the last listener takes its place. Returns
    /// whether there was one.
    pub fn remove_fakehid_listener(&mut self, svc: &EPICService) -> (r: bool)
        ensures
            r == old(self)@.contains(*svc),
            !r ==> final(self)@ == old(self)@,
            r ==> final(self)@.len() == old(self)@.len() - 1,
    {
        let mut i: usize = 0;
        while i < self.entries.len()
            invariant
                i <= self.entries@.len(),
                *self == *old(self),
                forall|j: int| 0 <= j < i ==> (#[trigger] self.entries@[j]) != *svc,
            decreases self.entries@.len() - i,
        {
            let e = self.entries[i];
            if e.endpoint == svc.endpoint && e.channel == svc.channel {
                assert(self.entries@[i as int] == *svc);
                self.entries.swap_remove(i);
                return true;
            }
            i = i + 1;
        }
        false
    }
}

/// The endpoints that the firmware offers are woken and started, each with
/// the start of its handshake, lowest first.
pub open spec fn spec_start_ops(has_endpoint: Seq<bool>, n: int) -> Seq<AfkAction>
    decreases n,
{
    if n <= 0 {
        Seq::empty()
    } else {
        let rest = spec_start_ops(has_endpoint, n - 1);
        if has_endpoint[n - 1] {
            rest.push(
                AfkAction::Send {
                    endpoint: (AFK_ENDPOINT_START + (n - 1)) as u8,
                    msg: AFK_MSG_INIT,
                },
            )
        } else {
            rest
        }
    }
}

/// Lists the messages that start the endpoints that the firmware offers;
/// `has_endpoint` says for each of the `AFK_ENDPOINT_COUNT` endpoints
/// whether it is offered. An endpoint has to be started at the mailbox
/// before its message is sent.
pub fn start(has_endpoint: &[bool]) -> (r: Vec<AfkAction>)
    requires
        has_endpoint@.len() == AFK_ENDPOINT_COUNT,
    ensures
        r@ == spec_start_ops(has_endpoint@, AFK_ENDPOINT_COUNT as int),
{
    let mut out: Vec<AfkAction> = Vec::new();
    let mut ep: u8 = 0;
    while ep < AFK_ENDPOINT_COUNT
        invariant
            ep <= AFK_ENDPOINT_COUNT,
            has_endpoint@.len() == AFK_ENDPOINT_COUNT,
            out@ == spec_start_ops(has_endpoint@, ep as int),
        decreases AFK_ENDPOINT_COUNT - ep,
    {
        if has_endpoint[ep as usize] {
            out.push(AfkAction::Send { endpoint: AFK_ENDPOINT_START + ep, msg: AFK_MSG_INIT });
        }
        ep = ep + 1;
    }
    out
}

} // verus!
