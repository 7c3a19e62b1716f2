//! Sensors behind the Always-On Processor.
//!
//! The ambient light sensor and the lid angle sensor report their readings
//! through the AOP, see `crate::aop`. This module reads a value out of a
//! report and builds the calls that set a sensor up.

use crate::wire::{push_u32, read_u32, spec_le_u32, spec_u32_bytes};
use vstd::arithmetic::power2::{lemma2_to64, lemma_pow2_pos, lemma_pow2_strictly_increases, pow2};
use vstd::prelude::*;

verus! {

/// Subtype of the call that sets a property of the ambient light sensor.
pub const EPIC_SUBTYPE_SET_ALS_PROPERTY: u16 = 0x4;

/// The property that holds the calibration of the ambient light sensor.
pub const ALS_PROPERTY_CALIBRATION: u32 = 0xb;

/// The property that holds the interval of its reports.
pub const ALS_PROPERTY_INTERVAL: u32 = 0;

/// The interval that the sensor is set to.
pub const ALS_INTERVAL: u32 = 200000;

/// Where a report of the ambient light sensor holds the reading.
pub const ALS_REPORT_OFFSET: usize = 40;

/// Whether a floating point number given by its bits is negative.
pub open spec fn spec_f32_negative(f: u32) -> bool {
    f & 0x8000_0000 != 0
}

/// The exponent of a floating point number given by its bits.
pub open spec fn spec_f32_exponent(f: u32) -> int {
    ((f & 0x7f80_0000) >> 23) as int - 127
}

/// The significand of a floating point number given by its bits, as a
/// number of 24 bits with the leading one.
pub open spec fn spec_f32_significand(f: u32) -> u32 {
    f & 0x7f_ffff | 0x80_0000
}

/// The whole number that a floating point number given by its bits is
/// turned into: the number without its fraction; zero for a negative number,
/// a number below one and what is not a number; the largest whole number
/// for a number that is too large.
pub open spec fn spec_f32_to_u32(f: u32) -> u32 {
    let e = spec_f32_exponent(f);
    let m = spec_f32_significand(f);
    if spec_f32_negative(f) || e < 0 || (e == 128 && f & 0x7f_ffff != 0) {
        0
    } else if e <= 23 {
        (m as nat / pow2((23 - e) as nat)) as u32
    } else if e >= 32 {
        u32::MAX
    } else {
        (m * pow2((e - 23) as nat)) as u32
    }
}

/// Turns a floating point number given by its bits into a whole number.
pub fn f32_to_u32(f: u32) -> (r: u32)
    ensures
        r == spec_f32_to_u32(f),
{
    if f & 0x80000000 != 0 {
        return 0;
    }
    let biased: u32 = (f & 0x7f800000) >> 23;
    assert(biased <= 255) by (bit_vector)
        requires
            biased == (f & 0x7f800000u32) >> 23u32,
    ;
    if biased < 127 {
        return 0;
    }
    let exp: u32 = biased - 127;
    if exp == 128 && f & 0x7fffff != 0 {
        return 0;
    }
    let mant: u32 = f & 0x7fffff | 0x800000;
    assert(mant < 0x100_0000) by (bit_vector)
        requires
            mant == f & 0x7fffffu32 | 0x800000u32,
    ;
    if exp <= 23 {
        proof {
            vstd::bits::lemma_u32_shr_is_div(mant, (23 - exp) as u32);
        }
        return mant >> (23 - exp);
    }
    if exp >= 32 {
        return u32::MAX;
    }
    proof {
        let k = (exp - 23) as nat;
        lemma2_to64();
        if k < 8 {
            lemma_pow2_strictly_increases(k, 8);
        }
        lemma_pow2_pos(k);
        assert(mant * pow2(k) <= u32::MAX) by (nonlinear_arith)
            requires
                mant < 0x100_0000,
                0 < pow2(k) <= 0x100,
        ;
        vstd::bits::lemma_u32_shl_is_mul(mant, (exp - 23) as u32);
    }
    mant << (exp - 23)
}

/// Reads the value out of a report of the ambient light sensor: the
/// floating point number at `offset`, as a whole number.
pub fn als_process(message: &[u8], offset: usize) -> (r: u32)
    requires
        offset + 4 <= message@.len(),
    ensures
        r == spec_f32_to_u32(spec_le_u32(message@, offset as int) as u32),
{
    let total: usize = message.len();
    f32_to_u32(read_u32(message, offset))
}

/// Reads the value out of a report of the lid angle sensor: its second
/// byte.
pub fn las_process(message: &[u8]) -> (r: u32)
    requires
        message@.len() >= 2,
    ensures
        r == message@[1],
{
    message[1] as u32
}

/// The payload of the call that sets the property `tag` of the ambient
/// light sensor to `data`: four bytes of zero, the tag, and the value.
pub open spec fn spec_als_property(tag: u32, data: Seq<u8>) -> Seq<u8> {
    spec_u32_bytes(0) + spec_u32_bytes(tag) + data
}

/// Builds the payload of the call that sets a property of the ambient light
/// sensor.
pub fn als_property(tag: u32, data: &[u8]) -> (r: Vec<u8>)
    ensures
        r@ == spec_als_property(tag, data@),
{
    let mut out: Vec<u8> = Vec::new();
    assert(out@ =~= Seq::<u8>::empty());
    push_u32(&mut out, 0);
    push_u32(&mut out, tag);
    let ghost head = out@;
    assert(head =~= spec_u32_bytes(0) + spec_u32_bytes(tag));
    let mut i: usize = 0;
    while i < data.len()
        invariant
            i <= data@.len(),
            out@ =~= head + data@.take(i as int),
        decreases data@.len() - i,
    {
        out.push(data[i]);
        i = i + 1;
    }
    assert(data@.take(data@.len() as int) =~= data@);
    out
}

/// The payloads of the calls that switch the ambient light sensor on: its
/// calibration, then the interval of its reports. Without a calibration
/// the sensor is left off.
pub open spec fn spec_enable_als(calibration: Option<Seq<u8>>) -> Seq<Seq<u8>> {
    match calibration {
        Some(c) => seq![
            spec_als_property(ALS_PROPERTY_CALIBRATION, c),
            spec_als_property(ALS_PROPERTY_INTERVAL, spec_u32_bytes(ALS_INTERVAL)),
        ],
        None => Seq::empty(),
    }
}

/// Lists the payloads of the calls that switch the ambient light sensor on.
/// Each goes out as a call of subtype `EPIC_SUBTYPE_SET_ALS_PROPERTY`.
pub fn enable_als(calibration: Option<&[u8]>) -> (r: Vec<Vec<u8>>)
    ensures
        r@.len() == spec_enable_als(
            match calibration {
                Some(c) => Some(c@),
                None => None,
            },
        ).len(),
        forall|i: int|
            0 <= i < r@.len() ==> (#[trigger] r@[i])@ == spec_enable_als(
                match calibration {
                    Some(c) => Some(c@),
                    None => None,
                },
            )[i],
{
    let mut out: Vec<Vec<u8>> = Vec::new();
    match calibration {
        Some(c) => {
            out.push(als_property(ALS_PROPERTY_CALIBRATION, c));
            let mut interval: Vec<u8> = Vec::new();
            assert(interval@ =~= Seq::<u8>::empty());
            push_u32(&mut interval, ALS_INTERVAL);
            assert(interval@ =~= spec_u32_bytes(ALS_INTERVAL));
            out.push(als_property(ALS_PROPERTY_INTERVAL, interval.as_slice()));
        },
        None => {},
    }
    out
}

} // verus!
