//! Transport to the Secure Enclave Processor (SEP).
//!
//! The SEP is booted over one mailbox channel: the host announces the boot,
//! the firmware confirms twice, the host names the firmware image and a
//! shared memory region, and the firmware confirms the image. What the
//! firmware sends afterwards is accepted and not acted upon.

use crate::error::{Error, Result};
use crate::wire::{push_u32, spec_overwrite, spec_u32_bytes, write_bytes};
use vstd::prelude::*;

verus! {

/// Size in bytes of the shared memory region.
pub const SHMEM_SIZE: usize = 0x30000;

/// Message type: boot, first stage.
pub const MSG_BOOT_TZ0: u64 = 0x5;

/// Message type: boot from the image named.
pub const MSG_BOOT_IMG4: u64 = 0x6;

/// Message type: here is the shared memory region.
pub const MSG_SET_SHMEM: u64 = 0x18;

/// Message type: the first stage is confirmed, first part.
pub const MSG_BOOT_TZ0_ACK1: u64 = 0x69;

/// Message type: the first stage is confirmed, second part.
pub const MSG_BOOT_TZ0_ACK2: u64 = 0xD2;

/// Message type: the image is confirmed.
pub const MSG_BOOT_IMG4_ACK: u64 = 0x6A;

/// Message type: an endpoint is advertised.
pub const MSG_ADVERTISE_EP: u64 = 0;

/// Endpoint: discovery.
pub const EP_DISCOVER: u64 = 0xFD;

/// Endpoint: shared memory.
pub const EP_SHMEM: u64 = 0xFE;

/// Endpoint: boot.
pub const EP_BOOT: u64 = 0xFF;

/// Position of the message type in a message.
pub const MSG_TYPE_SHIFT: u32 = 16;

/// Mask of the message type.
pub const MSG_TYPE_MASK: u64 = 0xFF;

/// Mask of the endpoint.
pub const MSG_EP_MASK: u64 = 0xFF;

/// Position of the data in a message.
pub const MSG_DATA_SHIFT: u32 = 32;

/// What is shifted out of an address in a message.
pub const IOVA_SHIFT: u32 = 0xC;

/// Offset of the panic area in the shared memory region.
pub const PANIC_OFFSET: usize = 0x4000;

/// Size of the panic area.
pub const PANIC_SIZE: usize = 0x8000;

/// Offset of the local policy manifest in the shared memory region.
pub const LPOL_OFFSET: usize = 0xc000;

/// A message of the mailbox: 96 bits, of which the SEP uses the first 64.
#[derive(Clone, Copy, Debug, PartialEq, Eq, Structural)]
pub struct Message {
    pub msg0: u64,
    pub msg1: u32,
}

/// The endpoint that a message is for or from.
pub open spec fn spec_msg_ep(msg: Message) -> u64 {
    msg.msg0 & MSG_EP_MASK
}

/// The type of a message.
pub open spec fn spec_msg_type(msg: Message) -> u64 {
    (msg.msg0 >> 16) & MSG_TYPE_MASK
}

/// The message that announces the boot.
pub open spec fn spec_boot_tz0() -> Message {
    Message { msg0: EP_BOOT | (MSG_BOOT_TZ0 << 16), msg1: 0 }
}

/// The message that names the firmware image mapped at `fw_iova`.
pub open spec fn spec_boot_img4(fw_iova: u64) -> Message {
    Message { msg0: EP_BOOT | (MSG_BOOT_IMG4 << 16) | ((fw_iova >> 12) << 32), msg1: 0 }
}

/// The message that names the shared memory region mapped at `shmem_iova`.
pub open spec fn spec_set_shmem(shmem_iova: u64) -> Message {
    Message { msg0: EP_SHMEM | (MSG_SET_SHMEM << 16) | ((shmem_iova >> 12) << 32), msg1: 0 }
}

/// `v` rounded up to the alignment `a`.
pub open spec fn spec_align_up(v: usize, a: usize) -> usize {
    (((v + a - 1) as usize) & !((a - 1) as usize))
}

/// Rounds `v` up to the alignment `a`, a power of two.
pub fn align_up(v: usize, a: usize) -> (r: usize)
    requires
        a > 0,
        v + a - 1 <= usize::MAX,
    ensures
        r == spec_align_up(v, a),
{
    (v + (a - 1)) & !(a - 1)
}

/// The directory entry of a blob of the shared memory region: its key, its
/// size and its offset.
pub open spec fn spec_shmem_entry(key: Seq<u8>, size: u32, offset: u32) -> Seq<u8> {
    key + spec_u32_bytes(size) + spec_u32_bytes(offset)
}

/// The shared memory region for the manifests `lpol` and `ibot`.
///
/// The region begins with a directory of four entries of 16 bytes: the
/// panic area `CNIP`, the local policy manifest `OPLA`, the iBoot manifest
/// `IPIS`, and the sentinel `llun`. The panic area begins with the word 1.
/// A manifest is stored as its length in four bytes and its bytes, and
/// takes whole units of 0x4000 bytes; the iBoot manifest follows the local
/// policy manifest.
pub open spec fn spec_shmem(lpol: Seq<u8>, ibot: Seq<u8>) -> Seq<u8> {
    let lpol_size = spec_align_up((lpol.len() + 4) as usize, 0x4000);
    let ibot_offset = LPOL_OFFSET + lpol_size;
    let ibot_size = spec_align_up((ibot.len() + 4) as usize, 0x4000);
    let m0 = Seq::new(SHMEM_SIZE as nat, |i: int| 0u8);
    let m1 = spec_overwrite(m0, PANIC_OFFSET as int, spec_u32_bytes(1));
    let m2 = spec_overwrite(m1, LPOL_OFFSET as int, spec_u32_bytes(lpol.len() as u32));
    let m3 = spec_overwrite(m2, LPOL_OFFSET + 4, lpol);
    let m4 = spec_overwrite(m3, ibot_offset as int, spec_u32_bytes(ibot.len() as u32));
    let m5 = spec_overwrite(m4, ibot_offset + 4, ibot);
    let m6 = spec_overwrite(
        m5,
        0,
        spec_shmem_entry(seq![67u8, 78u8, 73u8, 80u8], PANIC_SIZE as u32, PANIC_OFFSET as u32),
    );
    let m7 = spec_overwrite(
        m6,
        16,
        spec_shmem_entry(seq![79u8, 80u8, 76u8, 65u8], lpol_size as u32, LPOL_OFFSET as u32),
    );
    let m8 = spec_overwrite(
        m7,
        32,
        spec_shmem_entry(seq![73u8, 80u8, 73u8, 83u8], ibot_size as u32, ibot_offset as u32),
    );
    spec_overwrite(m8, 48, seq![108u8, 108u8, 117u8, 110u8])
}

/// Whether the manifests fit the shared memory region.
pub open spec fn shmem_fits(lpol: Seq<u8>, ibot: Seq<u8>) -> bool {
    &&& lpol.len() + 4 <= SHMEM_SIZE - LPOL_OFFSET
    &&& ibot.len() + 4 <= SHMEM_SIZE
    &&& LPOL_OFFSET + spec_align_up((lpol.len() + 4) as usize, 0x4000) + 4 + ibot.len()
        <= SHMEM_SIZE
}

/// Writes a directory entry.
fn shmem_entry(key: &[u8], size: u32, offset: u32) -> (out: Vec<u8>)
    requires
        key@.len() == 4,
    ensures
        out@ == spec_shmem_entry(key@, size, offset),
        out@.len() == 12,
{
    let mut out: Vec<u8> = Vec::new();
    out.push(key[0]);
    out.push(key[1]);
    out.push(key[2]);
    out.push(key[3]);
    assert(out@ =~= key@);
    push_u32(&mut out, size);
    push_u32(&mut out, offset);
    out
}

/// Builds the contents of the shared memory region from the local policy
/// manifest and the iBoot manifest.
///
/// Fails with `EIO` when the manifests do not fit the region.
pub fn build_shmem(lpol: &[u8], ibot: &[u8]) -> (r: Result<Vec<u8>>)
    ensures
        r is Ok <==> shmem_fits(lpol@, ibot@),
        r matches Ok(m) ==> m@ == spec_shmem(lpol@, ibot@),
        r matches Err(e) ==> e == Error::EIO,
{
    let lpol_offset: usize = LPOL_OFFSET;
    if lpol.len() > SHMEM_SIZE - lpol_offset - 4 || ibot.len() > SHMEM_SIZE - 4 {
        return Err(Error::EIO);
    }
    let lpol_len: usize = lpol.len() + 4;
    let lpol_size: usize = align_up(lpol_len, 0x4000);
    assert(lpol_size <= lpol_len + 0x3fff) by (bit_vector)
        requires
            lpol_len <= 0x40000usize,
            lpol_size == ((lpol_len + 0x3fffusize) as usize) & !(0x3fffusize),
    ;
    let ibot_offset: usize = lpol_offset + lpol_size;
    if ibot_offset > SHMEM_SIZE || 4 + ibot.len() > SHMEM_SIZE - ibot_offset {
        return Err(Error::EIO);
    }
    let ibot_len: usize = ibot.len() + 4;
    let ibot_size: usize = align_up(ibot_len, 0x4000);
    assert(ibot_size <= ibot_len + 0x3fff) by (bit_vector)
        requires
            ibot_len <= 0x40000usize,
            ibot_size == ((ibot_len + 0x3fffusize) as usize) & !(0x3fffusize),
    ;
    let mut iomem: Vec<u8> = Vec::new();
    let mut i: usize = 0;
    while i < SHMEM_SIZE
        invariant
            i <= SHMEM_SIZE,
            iomem@ == Seq::new(i as nat, |i: int| 0u8),
        decreases SHMEM_SIZE - i,
    {
        iomem.push(0);
        i = i + 1;
        assert(iomem@ =~= Seq::new(i as nat, |i: int| 0u8));
    }
    let mut word: Vec<u8> = Vec::new();
    push_u32(&mut word, 1);
    assert(word@ =~= spec_u32_bytes(1));
    proof {
        crate::wire::lemma_u32_bytes_roundtrip(1);
        crate::wire::lemma_u32_bytes_roundtrip(lpol@.len() as u32);
        crate::wire::lemma_u32_bytes_roundtrip(ibot@.len() as u32);
    }
    write_bytes(&mut iomem, PANIC_OFFSET, word.as_slice());

    let mut len: Vec<u8> = Vec::new();
    push_u32(&mut len, lpol.len() as u32);
    assert(len@ =~= spec_u32_bytes(lpol@.len() as u32));
    write_bytes(&mut iomem, lpol_offset, len.as_slice());
    write_bytes(&mut iomem, lpol_offset + 4, lpol);

    let mut len2: Vec<u8> = Vec::new();
    push_u32(&mut len2, ibot.len() as u32);
    assert(len2@ =~= spec_u32_bytes(ibot@.len() as u32));
    write_bytes(&mut iomem, ibot_offset, len2.as_slice());
    write_bytes(&mut iomem, ibot_offset + 4, ibot);

    let cnip: [u8; 4] = [67, 78, 73, 80];
    let opla: [u8; 4] = [79, 80, 76, 65];
    let ipis: [u8; 4] = [73, 80, 73, 83];
    let llun: [u8; 4] = [108, 108, 117, 110];
    assert(cnip@ =~= seq![67u8, 78u8, 73u8, 80u8]);
    assert(opla@ =~= seq![79u8, 80u8, 76u8, 65u8]);
    assert(ipis@ =~= seq![73u8, 80u8, 73u8, 83u8]);
    assert(llun@ =~= seq![108u8, 108u8, 117u8, 110u8]);
    let e0 = shmem_entry(cnip.as_slice(), PANIC_SIZE as u32, PANIC_OFFSET as u32);
    write_bytes(&mut iomem, 0, e0.as_slice());
    let e1 = shmem_entry(opla.as_slice(), lpol_size as u32, lpol_offset as u32);
    write_bytes(&mut iomem, 16, e1.as_slice());
    let e2 = shmem_entry(ipis.as_slice(), ibot_size as u32, ibot_offset as u32);
    write_bytes(&mut iomem, 32, e2.as_slice());
    write_bytes(&mut iomem, 48, llun.as_slice());
    Ok(iomem)
}

/// Where the boot of the SEP stands.
#[derive(Clone, Copy, Debug, PartialEq, Eq, Structural)]
pub enum BootState {
    /// Nothing has been sent.
    Idle,
    /// The boot is announced; the firmware has to confirm.
    Tz0Sent,
    /// The firmware has confirmed; the host has to map the firmware image.
    MapFirmware,
    /// The image and the shared memory region are named.
    Img4Sent,
    /// The firmware has confirmed the image.
    Booted,
}

/// Something that the boot asks of the embedding.
#[derive(Clone, Copy, Debug, PartialEq, Eq, Structural)]
pub enum SepAction {
    /// Nothing.
    Nothing,
    /// Send a message to the firmware.
    Send(Message),
    /// Map the firmware memory region for the device, write-only, and hand
    /// the address over with `firmware_mapped`.
    MapFirmware { addr: u64, size: usize },
    /// Report a message type that is not known.
    UnknownBootMessage { ty: u64 },
}

/// Where the firmware image lies in memory.
#[derive(Clone, Copy, Debug, PartialEq, Eq, Structural)]
pub struct FwRegionParams {
    pub addr: u64,
    pub size: usize,
}

/// The host's side of the boot of the SEP.
#[derive(Clone, Copy, Debug, PartialEq, Eq, Structural)]
pub struct SepData {
    /// Where the boot stands.
    pub state: BootState,
    /// Where the firmware image lies.
    pub region_params: FwRegionParams,
    /// Address of the shared memory region as the firmware sees it.
    pub shmem_iova: u64,
    /// Whether the firmware image is mapped.
    pub fw_mapped: bool,
}

impl SepData {
    /// Describes a SEP that has not been booted.
    pub fn new(region_params: FwRegionParams, shmem_iova: u64) -> (r: Self)
        ensures
            r == (SepData { state: BootState::Idle, region_params, shmem_iova, fw_mapped: false }),
    {
        SepData { state: BootState::Idle, region_params, shmem_iova, fw_mapped: false }
    }

    /// Announces the boot to the firmware.
    pub fn start(&mut self) -> (r: Message)
        ensures
            r == spec_boot_tz0(),
            *final(self) == (SepData { state: BootState::Tz0Sent, ..*old(self) }),
    {
        self.state = BootState::Tz0Sent;
        Message { msg0: EP_BOOT | (MSG_BOOT_TZ0 << 16), msg1: 0 }
    }

    /// What a message on the boot endpoint asks for, and where it leaves the
    /// boot: the second confirmation of the first stage asks for the
    /// firmware image to be mapped; the confirmation of the image ends the
    /// boot; the first confirmation asks for nothing; a message that is not
    /// known is reported.
    pub open spec fn spec_boot_msg(self, msg: Message) -> (SepData, SepAction) {
        let ty = spec_msg_type(msg);
        if ty == MSG_BOOT_TZ0_ACK1 {
            (self, SepAction::Nothing)
        } else if ty == MSG_BOOT_TZ0_ACK2 {
            (
                SepData { state: BootState::MapFirmware, ..self },
                SepAction::MapFirmware {
                    addr: self.region_params.addr,
                    size: self.region_params.size,
                },
            )
        } else if ty == MSG_BOOT_IMG4_ACK {
            (SepData { state: BootState::Booted, ..self }, SepAction::Nothing)
        } else {
            (self, SepAction::UnknownBootMessage { ty })
        }
    }

    /// Handles a message of the boot endpoint.
    pub fn process_boot_msg(&mut self, msg: Message) -> (r: SepAction)
        ensures
            (*final(self), r) == old(self).spec_boot_msg(msg),
    {
        let ty: u64 = (msg.msg0 >> 16) & MSG_TYPE_MASK;
        if ty == MSG_BOOT_TZ0_ACK1 {
            SepAction::Nothing
        } else if ty == MSG_BOOT_TZ0_ACK2 {
            self.state = BootState::MapFirmware;
            SepAction::MapFirmware { addr: self.region_params.addr, size: self.region_params.size }
        } else if ty == MSG_BOOT_IMG4_ACK {
            self.state = BootState::Booted;
            SepAction::Nothing
        } else {
            SepAction::UnknownBootMessage { ty }
        }
    }

    /// Handles a message of the discovery endpoint: endpoints that the
    /// firmware advertises are taken note of and nothing else.
    pub fn process_discover_msg(&self, msg: Message) -> (r: SepAction)
        ensures
            r == SepAction::Nothing,
    {
        SepAction::Nothing
    }

    /// Handles a message of the firmware. Messages of the boot endpoint
    /// drive the boot; all others are accepted and passed over.
    pub fn process_message(&mut self, msg: Message) -> (r: SepAction)
        ensures
            spec_msg_ep(msg) == EP_BOOT ==> (*final(self), r) == old(self).spec_boot_msg(msg),
            spec_msg_ep(msg) != EP_BOOT ==> *final(self) == *old(self) && r == SepAction::Nothing,
    {
        let ep: u64 = msg.msg0 & MSG_EP_MASK;
        if ep == EP_BOOT {
            self.process_boot_msg(msg)
        } else if ep == EP_DISCOVER {
            self.process_discover_msg(msg)
        } else {
            SepAction::Nothing
        }
    }

    /// Takes the address `fw_iova` that the firmware image was mapped at
    /// for the device; `None` says that the mapping failed. Returns the
    /// messages that name the image and the shared memory region to the
    /// firmware, in the order to send them in.
    ///
    /// Fails with `ENOMEM`, changing nothing, when the mapping failed.
    pub fn load_fw_and_shmem(&mut self, fw_iova: Option<u64>) -> (r: Result<(Message, Message)>)
        ensures
            r is Ok <==> fw_iova is Some,
            r matches Ok(msgs) ==> {
                &&& msgs.0 == spec_boot_img4(fw_iova->0)
                &&& msgs.1 == spec_set_shmem(old(self).shmem_iova)
                &&& *final(self) == (SepData {
                    state: BootState::Img4Sent,
                    fw_mapped: true,
                    ..*old(self)
                })
            },
            r matches Err(e) ==> e == Error::ENOMEM && *final(self) == *old(self),
    {
        let iova = match fw_iova {
            Some(a) => a,
            None => {
                return Err(Error::ENOMEM);
            },
        };
        self.fw_mapped = true;
        self.state = BootState::Img4Sent;
        let fw_addr: u64 = iova >> 12;
        let shm_addr: u64 = self.shmem_iova >> 12;
        Ok(
            (
                Message { msg0: EP_BOOT | (MSG_BOOT_IMG4 << 16) | (fw_addr << 32), msg1: 0 },
                Message { msg0: EP_SHMEM | (MSG_SET_SHMEM << 16) | (shm_addr << 32), msg1: 0 },
            ),
        )
    }

    /// Tears the transport down. Returns whether the firmware image is
    /// mapped and has to be unmapped.
    pub fn remove(&mut self) -> (r: bool)
        ensures
            r == old(self).fw_mapped,
            *final(self) == (SepData { state: BootState::Idle, fw_mapped: false, ..*old(self) }),
    {
        let mapped = self.fw_mapped;
        self.fw_mapped = false;
        self.state = BootState::Idle;
        mapped
    }
}

} // verus!
