//! Little-endian integers in byte buffers.
//!
//! Records exchanged with userspace and with the coprocessors are packed
//! little-endian structures. The functions here read and write their fields.

use vstd::prelude::*;

verus! {

/// The 16-bit little-endian integer stored at `off`.
pub open spec fn spec_le_u16(s: Seq<u8>, off: int) -> int {
    s[off] + 0x100 * s[off + 1]
}

/// The 32-bit little-endian integer stored at `off`.
pub open spec fn spec_le_u32(s: Seq<u8>, off: int) -> int {
    s[off] + 0x100 * s[off + 1] + 0x1_0000 * s[off + 2] + 0x100_0000 * s[off + 3]
}

/// The 64-bit little-endian integer stored at `off`.
pub open spec fn spec_le_u64(s: Seq<u8>, off: int) -> int {
    spec_le_u32(s, off) + 0x1_0000_0000 * spec_le_u32(s, off + 4)
}

/// The two bytes that store `x`.
#[verifier::opaque]
pub open spec fn spec_u16_bytes(x: u16) -> Seq<u8> {
    seq![(x % 0x100) as u8, (x / 0x100) as u8]
}

/// The four bytes that store `x`.
#[verifier::opaque]
pub open spec fn spec_u32_bytes(x: u32) -> Seq<u8> {
    seq![
        (x % 0x100) as u8,
        ((x / 0x100) % 0x100) as u8,
        ((x / 0x1_0000) % 0x100) as u8,
        (x / 0x100_0000) as u8,
    ]
}

/// The eight bytes that store `x`.
#[verifier::opaque]
pub open spec fn spec_u64_bytes(x: u64) -> Seq<u8> {
    spec_u32_bytes((x % 0x1_0000_0000) as u32) + spec_u32_bytes((x / 0x1_0000_0000) as u32)
}

/// `s` with the bytes from `off` on replaced by `src`.
pub open spec fn spec_overwrite(s: Seq<u8>, off: int, src: Seq<u8>) -> Seq<u8> {
    Seq::new(
        s.len(),
        |i: int|
            if off <= i < off + src.len() {
                src[i - off]
            } else {
                s[i]
            },
    )
}

/// Reading back a stored 32-bit integer gives the integer.
pub proof fn lemma_u32_bytes_roundtrip(x: u32)
    ensures
        spec_u32_bytes(x).len() == 4,
        spec_le_u32(spec_u32_bytes(x), 0) == x,
{
    reveal(spec_u32_bytes);
    let xi = x as int;
    let q1 = xi / 0x100;
    let q2 = q1 / 0x100;
    let q3 = q2 / 0x100;
    let b0 = xi % 0x100;
    let b1 = q1 % 0x100;
    let b2 = q2 % 0x100;
    vstd::arithmetic::div_mod::lemma_fundamental_div_mod(xi, 0x100);
    vstd::arithmetic::div_mod::lemma_fundamental_div_mod(q1, 0x100);
    vstd::arithmetic::div_mod::lemma_fundamental_div_mod(q2, 0x100);
    vstd::arithmetic::div_mod::lemma_fundamental_div_mod_converse(
        xi,
        0x1_0000,
        q2,
        b0 + 0x100 * b1,
    );
    vstd::arithmetic::div_mod::lemma_fundamental_div_mod_converse(
        xi,
        0x100_0000,
        q3,
        b0 + 0x100 * b1 + 0x1_0000 * b2,
    );
    let out = spec_u32_bytes(x);
    assert(out[0] == b0);
    assert(out[1] == b1);
    assert(out[2] == b2);
    assert(out[3] == q3);
}

/// Storing the 32-bit integer read at `off` gives the four bytes at `off`.
pub proof fn lemma_le_u32_roundtrip(s: Seq<u8>, off: int)
    requires
        0 <= off,
        off + 4 <= s.len(),
    ensures
        0 <= spec_le_u32(s, off) <= u32::MAX,
        spec_u32_bytes(spec_le_u32(s, off) as u32) == s.subrange(off, off + 4),
{
    reveal(spec_u32_bytes);
    let b0 = s[off] as int;
    let b1 = s[off + 1] as int;
    let b2 = s[off + 2] as int;
    let b3 = s[off + 3] as int;
    let x = spec_le_u32(s, off);
    let r1 = b1 + 0x100 * b2 + 0x1_0000 * b3;
    let r2 = b2 + 0x100 * b3;
    vstd::arithmetic::div_mod::lemma_fundamental_div_mod_converse(x, 0x100, r1, b0);
    vstd::arithmetic::div_mod::lemma_fundamental_div_mod_converse(r1, 0x100, r2, b1);
    vstd::arithmetic::div_mod::lemma_fundamental_div_mod_converse(
        x,
        0x1_0000,
        r2,
        b0 + 0x100 * b1,
    );
    vstd::arithmetic::div_mod::lemma_fundamental_div_mod_converse(r2, 0x100, b3, b2);
    vstd::arithmetic::div_mod::lemma_fundamental_div_mod_converse(
        x,
        0x100_0000,
        b3,
        b0 + 0x100 * b1 + 0x1_0000 * b2,
    );
    let v = x as u32;
    let out = spec_u32_bytes(v);
    assert(out[0] == s[off]);
    assert(out[1] == s[off + 1]);
    assert(out[2] == s[off + 2]);
    assert(out[3] == s[off + 3]);
    assert(out =~= s.subrange(off, off + 4));
}

/// Reading back a stored 64-bit integer gives the integer.
pub proof fn lemma_u64_bytes_roundtrip(x: u64)
    ensures
        spec_u64_bytes(x).len() == 8,
        spec_le_u64(spec_u64_bytes(x), 0) == x,
{
    reveal(spec_u64_bytes);
    lemma_u32_bytes_roundtrip((x % 0x1_0000_0000) as u32);
    lemma_u32_bytes_roundtrip((x / 0x1_0000_0000) as u32);
    let lo = spec_u32_bytes((x % 0x1_0000_0000) as u32);
    let hi = spec_u32_bytes((x / 0x1_0000_0000) as u32);
    let s = spec_u64_bytes(x);
    assert(spec_le_u32(s, 0) == spec_le_u32(lo, 0));
    assert(spec_le_u32(s, 4) == spec_le_u32(hi, 0));
}

/// Storing the 64-bit integer read at `off` gives the eight bytes at `off`.
pub proof fn lemma_le_u64_roundtrip(s: Seq<u8>, off: int)
    requires
        0 <= off,
        off + 8 <= s.len(),
    ensures
        0 <= spec_le_u64(s, off) <= u64::MAX,
        spec_u64_bytes(spec_le_u64(s, off) as u64) == s.subrange(off, off + 8),
{
    reveal(spec_u64_bytes);
    lemma_le_u32_roundtrip(s, off);
    lemma_le_u32_roundtrip(s, off + 4);
    let x = spec_le_u64(s, off) as u64;
    assert(x % 0x1_0000_0000 == spec_le_u32(s, off));
    assert(x / 0x1_0000_0000 == spec_le_u32(s, off + 4));
    assert(spec_u64_bytes(x) =~= s.subrange(off, off + 8));
}

/// Where the four bytes of a 32-bit integer are stored, the integer is
/// read.
pub proof fn lemma_le_u32_at(s: Seq<u8>, off: int, x: u32)
    requires
        0 <= off,
        off + 4 <= s.len(),
        s.subrange(off, off + 4) == spec_u32_bytes(x),
    ensures
        spec_le_u32(s, off) == x,
{
    lemma_u32_bytes_roundtrip(x);
    let w = s.subrange(off, off + 4);
    assert(w[0] == s[off]);
    assert(w[1] == s[off + 1]);
    assert(w[2] == s[off + 2]);
    assert(w[3] == s[off + 3]);
    assert(spec_le_u32(s, off) == spec_le_u32(w, 0));
}

/// Where the eight bytes of a 64-bit integer are stored, the integer is
/// read.
pub proof fn lemma_le_u64_at(s: Seq<u8>, off: int, x: u64)
    requires
        0 <= off,
        off + 8 <= s.len(),
        s.subrange(off, off + 8) == spec_u64_bytes(x),
    ensures
        spec_le_u64(s, off) == x,
{
    reveal(spec_u64_bytes);
    let lo = (x % 0x1_0000_0000) as u32;
    let hi = (x / 0x1_0000_0000) as u32;
    lemma_u32_bytes_roundtrip(lo);
    lemma_u32_bytes_roundtrip(hi);
    let w = s.subrange(off, off + 8);
    assert(s.subrange(off, off + 4) =~= w.subrange(0, 4));
    assert(s.subrange(off + 4, off + 8) =~= w.subrange(4, 8));
    assert(w.subrange(0, 4) =~= spec_u32_bytes(lo));
    assert(w.subrange(4, 8) =~= spec_u32_bytes(hi));
    lemma_le_u32_at(s, off, lo);
    lemma_le_u32_at(s, off + 4, hi);
}

/// Reads a 16-bit little-endian integer.
pub fn read_u16(data: &[u8], off: usize) -> (r: u16)
    requires
        off + 2 <= data@.len(),
    ensures
        r == spec_le_u16(data@, off as int),
{
    let b0: u16 = data[off] as u16;
    let b1: u16 = data[off + 1] as u16;
    b0 + 0x100 * b1
}

/// Reads a 32-bit little-endian integer.
pub fn read_u32(data: &[u8], off: usize) -> (r: u32)
    requires
        off + 4 <= data@.len(),
    ensures
        r == spec_le_u32(data@, off as int),
{
    let b0: u32 = data[off] as u32;
    let b1: u32 = data[off + 1] as u32;
    let b2: u32 = data[off + 2] as u32;
    let b3: u32 = data[off + 3] as u32;
    b0 + 0x100 * b1 + 0x1_0000 * b2 + 0x100_0000 * b3
}

/// Reads a 64-bit little-endian integer.
pub fn read_u64(data: &[u8], off: usize) -> (r: u64)
    requires
        off + 8 <= data@.len(),
    ensures
        r == spec_le_u64(data@, off as int),
{
    let total: usize = data.len();
    let lo: u64 = read_u32(data, off) as u64;
    let hi: u64 = read_u32(data, off + 4) as u64;
    lo + 0x1_0000_0000 * hi
}

/// Appends a 16-bit integer in little-endian order.
pub fn push_u16(out: &mut Vec<u8>, x: u16)
    ensures
        final(out)@ == old(out)@ + spec_u16_bytes(x),
        final(out)@.len() == old(out)@.len() + 2,
{
    reveal(spec_u16_bytes);
    out.push((x % 0x100) as u8);
    out.push((x / 0x100) as u8);
    assert(out@ =~= old(out)@ + spec_u16_bytes(x));
}

/// Appends a 32-bit integer in little-endian order.
pub fn push_u32(out: &mut Vec<u8>, x: u32)
    ensures
        final(out)@ == old(out)@ + spec_u32_bytes(x),
        final(out)@.len() == old(out)@.len() + 4,
{
    reveal(spec_u32_bytes);
    out.push((x % 0x100) as u8);
    out.push(((x / 0x100) % 0x100) as u8);
    out.push(((x / 0x1_0000) % 0x100) as u8);
    out.push((x / 0x100_0000) as u8);
    assert(out@ =~= old(out)@ + spec_u32_bytes(x));
}

/// Appends a 64-bit integer in little-endian order.
pub fn push_u64(out: &mut Vec<u8>, x: u64)
    ensures
        final(out)@ == old(out)@ + spec_u64_bytes(x),
        final(out)@.len() == old(out)@.len() + 8,
{
    reveal(spec_u64_bytes);
    push_u32(out, (x % 0x1_0000_0000) as u32);
    push_u32(out, (x / 0x1_0000_0000) as u32);
    assert(out@ =~= old(out)@ + spec_u64_bytes(x));
}

/// Copies `src` over the bytes of `buf` that start at `off`.
pub fn write_bytes(buf: &mut Vec<u8>, off: usize, src: &[u8])
    requires
        off + src@.len() <= old(buf)@.len(),
    ensures
        final(buf)@ == spec_overwrite(old(buf)@, off as int, src@),
{
    let n: usize = src.len();
    let total: usize = buf.len();
    let mut i: usize = 0;
    while i < n
        invariant
            i <= n,
            n == src@.len(),
            off + n <= buf@.len(),
            buf@.len() == total,
            buf@.len() == old(buf)@.len(),
            buf@ == spec_overwrite(old(buf)@, off as int, src@.subrange(0, i as int)),
        decreases n - i,
    {
        buf.set(off + i, src[i]);
        i = i + 1;
        assert(buf@ =~= spec_overwrite(old(buf)@, off as int, src@.subrange(0, i as int)));
    }
    assert(src@.subrange(0, n as int) =~= src@);
}

/// Stores a 32-bit integer in little-endian order at `off`.
pub fn write_u32(buf: &mut Vec<u8>, off: usize, x: u32)
    requires
        off + 4 <= old(buf)@.len(),
    ensures
        final(buf)@ == spec_overwrite(old(buf)@, off as int, spec_u32_bytes(x)),
{
    let mut tmp: Vec<u8> = Vec::new();
    push_u32(&mut tmp, x);
    assert(tmp@ =~= spec_u32_bytes(x));
    write_bytes(buf, off, tmp.as_slice());
}

/// Copies `len` bytes that start at `off` out of `data`.
pub fn read_bytes(data: &[u8], off: usize, len: usize) -> (r: Vec<u8>)
    requires
        off + len <= data@.len(),
    ensures
        r@ == data@.subrange(off as int, off + len),
{
    let mut out: Vec<u8> = Vec::new();
    let total: usize = data.len();
    let mut i: usize = 0;
    while i < len
        invariant
            i <= len,
            off + len <= data@.len(),
            data@.len() == total,
            out@ == data@.subrange(off as int, off + i),
        decreases len - i,
    {
        out.push(data[off + i]);
        i = i + 1;
        assert(out@ =~= data@.subrange(off as int, off + i));
    }
    out
}

} // verus!
