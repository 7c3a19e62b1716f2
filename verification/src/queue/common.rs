//! Common queue functionality.
//!
//! Shared helpers used by the submission logic for multiple command types.

use crate::error::{Error, Result};
use crate::wire::{
    lemma_le_u32_roundtrip, lemma_le_u64_roundtrip, push_u32, push_u64, read_u32, read_u64,
    spec_le_u32, spec_le_u64, spec_u32_bytes, spec_u64_bytes,
};
use vstd::prelude::*;

verus! {

/// Largest number of attachments of one render command.
pub const MAX_ATTACHMENTS: usize = 16;

/// Size in bytes of one attachment record in userspace memory.
pub const ATTACHMENT_STRIDE: usize = 24;

/// Marker stored in every attachment entry handed to the firmware.
pub const ATTACHMENT_UNK_C: u16 = 0x17;

/// One attachment record as userspace lays it out: a pointer, a size in
/// bytes, an order and flags.
#[derive(Clone, Copy, Debug, PartialEq, Eq, Structural)]
pub struct UserAttachment {
    pub pointer: u64,
    pub size: u64,
    pub order: u32,
    pub flags: u32,
}

/// One attachment entry of a firmware job.
#[derive(Clone, Copy, Debug, PartialEq, Eq, Structural)]
pub struct Attachment {
    /// GPU address of the attachment.
    pub address: u64,
    /// Size in 128-byte cache lines.
    pub size: u64,
    pub unk_c: u16,
    pub unk_e: u16,
}

/// The attachment list of a firmware job: always `MAX_ATTACHMENTS` entries,
/// of which the first `count` are in use.
#[derive(Clone, Debug)]
pub struct Attachments {
    pub list: Vec<Attachment>,
    pub count: u32,
}

/// The record stored at byte `off` of `data`.
#[verifier::opaque]
pub open spec fn spec_parse_attachment(data: Seq<u8>, off: int) -> UserAttachment {
    UserAttachment {
        pointer: spec_le_u64(data, off) as u64,
        size: spec_le_u64(data, off + 8) as u64,
        order: spec_le_u32(data, off + 16) as u32,
        flags: spec_le_u32(data, off + 20) as u32,
    }
}

/// The first `count` records of `data`.
pub open spec fn spec_parse_attachments(data: Seq<u8>, count: nat) -> Seq<UserAttachment> {
    Seq::new(count, |i: int| spec_parse_attachment(data, i * 24))
}

/// The bytes of one record.
#[verifier::opaque]
pub open spec fn spec_serialize_attachment(a: UserAttachment) -> Seq<u8> {
    spec_u64_bytes(a.pointer) + spec_u64_bytes(a.size) + spec_u32_bytes(a.order) + spec_u32_bytes(
        a.flags,
    )
}

/// The bytes of an array of records.
pub open spec fn spec_serialize_attachments(list: Seq<UserAttachment>) -> Seq<u8>
    decreases list.len(),
{
    if list.len() == 0 {
        Seq::empty()
    } else {
        spec_serialize_attachments(list.drop_last()) + spec_serialize_attachment(list.last())
    }
}

/// Number of 128-byte cache lines that cover `size` bytes.
pub open spec fn spec_cache_lines(size: int) -> int {
    (size + 127) / 128
}

/// The empty firmware entry.
pub open spec fn spec_empty_attachment() -> Attachment {
    Attachment { address: 0, size: 0, unk_c: 0, unk_e: 0 }
}

/// The firmware entry for a userspace record.
pub open spec fn spec_fw_attachment(a: UserAttachment) -> Attachment {
    Attachment {
        address: a.pointer,
        size: spec_cache_lines(a.size as int) as u64,
        unk_c: ATTACHMENT_UNK_C,
        unk_e: 1,
    }
}

impl Attachments {
    /// Whether the list has its fixed length and its unused entries are empty.
    pub open spec fn wf(&self) -> bool {
        &&& self.list@.len() == MAX_ATTACHMENTS
        &&& self.count <= MAX_ATTACHMENTS
        &&& forall|i: int|
            self.count <= i < MAX_ATTACHMENTS ==> #[trigger] self.list@[i]
                == spec_empty_attachment()
    }

    /// Whether the list holds the firmware entries for `users`, in order.
    pub open spec fn holds(&self, users: Seq<UserAttachment>) -> bool {
        &&& self.wf()
        &&& self.count == users.len()
        &&& forall|i: int|
            0 <= i < users.len() ==> #[trigger] self.list@[i] == spec_fw_attachment(users[i])
    }

    /// The list with no attachment in use.
    pub fn empty() -> (r: Self)
        ensures
            r.holds(Seq::empty()),
    {
        let mut list: Vec<Attachment> = Vec::new();
        let mut i: usize = 0;
        while i < MAX_ATTACHMENTS
            invariant
                i <= MAX_ATTACHMENTS,
                list@.len() == i,
                forall|j: int| 0 <= j < i ==> #[trigger] list@[j] == spec_empty_attachment(),
            decreases MAX_ATTACHMENTS - i,
        {
            list.push(Attachment { address: 0, size: 0, unk_c: 0, unk_e: 0 });
            i = i + 1;
        }
        Attachments { list, count: 0 }
    }
}

/// Reads the attachment record at byte `off`.
pub fn parse_attachment(data: &[u8], off: usize) -> (r: UserAttachment)
    requires
        off + ATTACHMENT_STRIDE <= data@.len(),
    ensures
        r == spec_parse_attachment(data@, off as int),
{
    reveal(spec_parse_attachment);
    reveal(spec_serialize_attachment);
    let total: usize = data.len();
    UserAttachment {
        pointer: read_u64(data, off),
        size: read_u64(data, off + 8),
        order: read_u32(data, off + 16),
        flags: read_u32(data, off + 20),
    }
}

/// Reads an array of `count` attachment records from userspace memory.
///
/// Fails with `EINVAL` when `count` is above `MAX_ATTACHMENTS`, and with
/// `EFAULT` when `data` is too short for `count` records.
pub fn parse_attachments(data: &[u8], count: u32) -> (r: Result<Vec<UserAttachment>>)
    ensures
        count > MAX_ATTACHMENTS ==> r == Err::<Vec<UserAttachment>, Error>(Error::EINVAL),
        count <= MAX_ATTACHMENTS && data@.len() < count * ATTACHMENT_STRIDE ==> r == Err::<
            Vec<UserAttachment>,
            Error,
        >(Error::EFAULT),
        count <= MAX_ATTACHMENTS && data@.len() >= count * ATTACHMENT_STRIDE ==> r is Ok,
        r matches Ok(v) ==> v@ == spec_parse_attachments(data@, count as nat),
{
    if count as usize > MAX_ATTACHMENTS {
        return Err(Error::EINVAL);
    }
    let n: usize = count as usize;
    if data.len() < n * ATTACHMENT_STRIDE {
        return Err(Error::EFAULT);
    }
    let mut out: Vec<UserAttachment> = Vec::new();
    let mut i: usize = 0;
    while i < n
        invariant
            i <= n,
            n <= MAX_ATTACHMENTS,
            n * ATTACHMENT_STRIDE <= data@.len(),
            out@ == spec_parse_attachments(data@, i as nat),
        decreases n - i,
    {
        let a = parse_attachment(data, i * ATTACHMENT_STRIDE);
        out.push(a);
        i = i + 1;
        assert(out@ =~= spec_parse_attachments(data@, i as nat));
    }
    Ok(out)
}

/// Writes an array of attachment records as userspace lays them out.
pub fn serialize_attachments(list: &Vec<UserAttachment>) -> (r: Vec<u8>)
    ensures
        r@ == spec_serialize_attachments(list@),
{
    let mut out: Vec<u8> = Vec::new();
    let mut i: usize = 0;
    while i < list.len()
        invariant
            i <= list@.len(),
            out@ == spec_serialize_attachments(list@.subrange(0, i as int)),
        decreases list@.len() - i,
    {
        let a = list[i];
        let ghost before = out@;
        push_u64(&mut out, a.pointer);
        push_u64(&mut out, a.size);
        push_u32(&mut out, a.order);
        push_u32(&mut out, a.flags);
        i = i + 1;
        proof {
            reveal(spec_serialize_attachment);
            let next = list@.subrange(0, i as int);
            assert(next.drop_last() =~= list@.subrange(0, i - 1));
            assert(next.last() == a);
            assert(out@ =~= before + spec_serialize_attachment(a));
        }
    }
    assert(list@.subrange(0, list@.len() as int) =~= list@);
    out
}

/// Serializing `n` records gives `24 * n` bytes.
pub proof fn lemma_serialize_len(list: Seq<UserAttachment>)
    ensures
        spec_serialize_attachments(list).len() == 24 * list.len(),
    decreases list.len(),
{
    reveal(spec_parse_attachment);
    reveal(spec_serialize_attachment);
    if list.len() > 0 {
        lemma_serialize_len(list.drop_last());
        let a = list.last();
        crate::wire::lemma_u64_bytes_roundtrip(a.pointer);
        crate::wire::lemma_u64_bytes_roundtrip(a.size);
        crate::wire::lemma_u32_bytes_roundtrip(a.order);
        crate::wire::lemma_u32_bytes_roundtrip(a.flags);
    }
}

/// Serializing the record parsed at `off` yields the 24 bytes at `off`.
pub proof fn lemma_record_roundtrip(data: Seq<u8>, off: int)
    requires
        0 <= off,
        off + 24 <= data.len(),
    ensures
        spec_serialize_attachment(spec_parse_attachment(data, off)) == data.subrange(
            off,
            off + 24,
        ),
{
    reveal(spec_parse_attachment);
    reveal(spec_serialize_attachment);
    lemma_le_u64_roundtrip(data, off);
    lemma_le_u64_roundtrip(data, off + 8);
    lemma_le_u32_roundtrip(data, off + 16);
    lemma_le_u32_roundtrip(data, off + 20);
    let a = data.subrange(off, off + 8);
    let b = data.subrange(off + 8, off + 16);
    let c = data.subrange(off + 16, off + 20);
    let d = data.subrange(off + 20, off + 24);
    assert(a + b + c + d =~= data.subrange(off, off + 24));
}

/// Parsing an attachment array and serializing the records again yields the
/// bytes that were parsed.
pub proof fn lemma_attachments_roundtrip(data: Seq<u8>, count: nat)
    requires
        data.len() == count * 24,
    ensures
        spec_serialize_attachments(spec_parse_attachments(data, count)) == data,
    decreases count,
{
    let list = spec_parse_attachments(data, count);
    if count == 0 {
        assert(data =~= Seq::empty());
    } else {
        let off = (count - 1) * 24;
        let head = data.subrange(0, off);
        lemma_attachments_roundtrip(head, (count - 1) as nat);
        let head_list = spec_parse_attachments(head, (count - 1) as nat);
        assert forall|i: int| 0 <= i < count - 1 implies list.drop_last()[i] == head_list[i] by {
            lemma_parse_prefix(data, head, i * 24);
        }
        assert(list.drop_last() =~= head_list);
        lemma_record_roundtrip(data, off);
        assert(list.last() == spec_parse_attachment(data, off));
        assert(head + data.subrange(off, off + 24) =~= data);
    }
}

/// A record that lies inside a prefix of a buffer parses the same from the
/// prefix and from the buffer.
pub proof fn lemma_parse_prefix(data: Seq<u8>, head: Seq<u8>, off: int)
    requires
        0 <= off,
        off + 24 <= head.len(),
        head.len() <= data.len(),
        head == data.subrange(0, head.len() as int),
    ensures
        spec_parse_attachment(data, off) == spec_parse_attachment(head, off),
{
    reveal(spec_parse_attachment);
    reveal(spec_serialize_attachment);
    assert(forall|k: int| off <= k < off + 24 ==> #[trigger] head[k] == data[k]);
}

/// Where the bytes of a record are stored, the record is parsed.
pub proof fn lemma_record_roundtrip_values(a: UserAttachment, bytes: Seq<u8>, off: int)
    requires
        0 <= off,
        off + 24 <= bytes.len(),
        bytes.subrange(off, off + 24) == spec_serialize_attachment(a),
    ensures
        spec_parse_attachment(bytes, off) == a,
{
    reveal(spec_parse_attachment);
    reveal(spec_serialize_attachment);
    crate::wire::lemma_u64_bytes_roundtrip(a.pointer);
    crate::wire::lemma_u64_bytes_roundtrip(a.size);
    crate::wire::lemma_u32_bytes_roundtrip(a.order);
    crate::wire::lemma_u32_bytes_roundtrip(a.flags);
    let rec = bytes.subrange(off, off + 24);
    assert(bytes.subrange(off, off + 8) =~= rec.subrange(0, 8));
    assert(bytes.subrange(off + 8, off + 16) =~= rec.subrange(8, 16));
    assert(bytes.subrange(off + 16, off + 20) =~= rec.subrange(16, 20));
    assert(bytes.subrange(off + 20, off + 24) =~= rec.subrange(20, 24));
    assert(rec.subrange(0, 8) =~= spec_u64_bytes(a.pointer));
    assert(rec.subrange(8, 16) =~= spec_u64_bytes(a.size));
    assert(rec.subrange(16, 20) =~= spec_u32_bytes(a.order));
    assert(rec.subrange(20, 24) =~= spec_u32_bytes(a.flags));
    crate::wire::lemma_le_u64_at(bytes, off, a.pointer);
    crate::wire::lemma_le_u64_at(bytes, off + 8, a.size);
    crate::wire::lemma_le_u32_at(bytes, off + 16, a.order);
    crate::wire::lemma_le_u32_at(bytes, off + 20, a.flags);
}

/// Serializing attachment records and parsing the bytes again yields the
/// records.
pub proof fn lemma_attachments_roundtrip_values(list: Seq<UserAttachment>)
    ensures
        spec_parse_attachments(spec_serialize_attachments(list), list.len()) == list,
    decreases list.len(),
{
    if list.len() > 0 {
        let n = list.len();
        let head = list.drop_last();
        let a = list.last();
        let bytes = spec_serialize_attachments(list);
        let hbytes = spec_serialize_attachments(head);
        lemma_attachments_roundtrip_values(head);
        lemma_serialize_len(head);
        lemma_serialize_len(list);
        let parsed = spec_parse_attachments(bytes, n);
        assert(hbytes =~= bytes.subrange(0, hbytes.len() as int));
        assert forall|i: int| 0 <= i < n implies parsed[i] == list[i] by {
            if i < n - 1 {
                assert(spec_parse_attachments(hbytes, (n - 1) as nat)[i] == head[i]);
                lemma_parse_prefix(bytes, hbytes, i * 24);
            } else {
                let off = (n - 1) * 24;
                assert(bytes.subrange(off, off + 24) =~= spec_serialize_attachment(a));
                lemma_record_roundtrip_values(a, bytes, off);
            }
        }
        assert(parsed =~= list);
    } else {
        assert(spec_parse_attachments(spec_serialize_attachments(list), 0) =~= list);
    }
}

/// Builds the attachment list of a firmware job from the attachment array of
/// a userspace command.
///
/// Each record's size is rounded up to 128-byte cache lines. Fails with
/// `EINVAL` when there are more than `MAX_ATTACHMENTS` records, and with
/// `EFAULT` when `data` is too short for `count` records.
pub fn build_attachments(data: &[u8], count: u32) -> (r: Result<Attachments>)
    ensures
        r is Ok <==> count <= MAX_ATTACHMENTS && data@.len() >= count * ATTACHMENT_STRIDE,
        r matches Ok(a) ==> a.holds(spec_parse_attachments(data@, count as nat)),
        r matches Err(e) ==> e == (if count <= MAX_ATTACHMENTS {
            Error::EFAULT
        } else {
            Error::EINVAL
        }),
{
    let users = match parse_attachments(data, count) {
        Ok(users) => users,
        Err(e) => {
            return Err(e);
        },
    };
    let mut attachments = Attachments::empty();
    let mut i: usize = 0;
    while i < users.len()
        invariant
            i <= users@.len(),
            users@.len() == count,
            count <= MAX_ATTACHMENTS,
            data@.len() >= count * ATTACHMENT_STRIDE,
            users@ == spec_parse_attachments(data@, count as nat),
            attachments.holds(users@.subrange(0, i as int)),
        decreases users@.len() - i,
    {
        let att = users[i];
        let cache_lines: u64 = att.size / 128 + (if att.size % 128 != 0 {
            1
        } else {
            0
        });
        assert(cache_lines == spec_cache_lines(att.size as int));
        attachments.list.set(
            i,
            Attachment {
                address: att.pointer,
                size: cache_lines,
                unk_c: ATTACHMENT_UNK_C,
                unk_e: 1,
            },
        );
        attachments.count = attachments.count + 1;
        i = i + 1;
        proof {
            let prev = users@.subrange(0, i - 1);
            let next = users@.subrange(0, i as int);
            assert forall|j: int| 0 <= j < next.len() implies #[trigger] attachments.list@[j]
                == spec_fw_attachment(next[j]) by {
                if j < i - 1 {
                    assert(next[j] == prev[j]);
                }
            }
        }
    }
    assert(users@.subrange(0, users@.len() as int) =~= users@);
    Ok(attachments)
}

} // verus!
