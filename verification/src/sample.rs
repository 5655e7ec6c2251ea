//! Decoding of the six raw bytes read from the magnetometer.
//!
//! The sensor hands back six bytes in the order X-high, X-low, Z-high,
//! Z-low, Y-high, Y-low (Z precedes Y in the sensor's register layout).
//! Each axis is the big-endian pair reinterpreted as a 16-bit
//! two's-complement integer.

use vstd::prelude::*;

verus! {

/// One magnetometer reading: the three axis values of a single
/// bus transaction.
#[derive(Clone, Copy, PartialEq, Eq, Structural, Debug)]
pub struct Sample {
    pub x: i16,
    pub y: i16,
    pub z: i16,
}

/// The unsigned 16-bit value `u` read as a two's-complement integer.
pub open spec fn sign16(u: int) -> int {
    if u >= 0x8000 {
        u - 0x10000
    } else {
        u
    }
}

/// The axis value formed from a high and a low byte: `(high << 8) | low`,
/// reinterpreted as a 16-bit signed integer.
pub open spec fn axis_value(high: u8, low: u8) -> int {
    sign16(high * 0x100 + low)
}

/// The sample encoded by a six-byte buffer, axes laid out as the sensor
/// emits them: X from bytes 0 and 1, Z from bytes 2 and 3, Y from bytes
/// 4 and 5.
pub open spec fn sample_of(b: Seq<u8>) -> Sample
    recommends
        b.len() == 6,
{
    Sample {
        x: axis_value(b[0], b[1]) as i16,
        y: axis_value(b[4], b[5]) as i16,
        z: axis_value(b[2], b[3]) as i16,
    }
}

/// Forms one axis value from its big-endian byte pair.
pub fn decode_axis(high: u8, low: u8) -> (v: i16)
    ensures
        v as int == axis_value(high, low),
{
    let u: u16 = ((high as u16) * 0x100) + (low as u16);
    if u >= 0x8000 {
        ((u as i32) - 0x10000) as i16
    } else {
        u as i16
    }
}

/// The raw 16-bit pattern of an axis value: its two's-complement bits
/// read as an unsigned integer.
pub open spec fn axis_bits_of(v: i16) -> int {
    if v >= 0 {
        v as int
    } else {
        v as int + 0x10000
    }
}

/// The 64-bit word packed from a sample's three axis patterns, X in
/// the low bits, then Y, then Z; the control program seeds its
/// demonstration RNG with it.
pub open spec fn seed_of(s: Sample) -> int {
    axis_bits_of(s.x) + axis_bits_of(s.y) * 0x1_0000 + axis_bits_of(s.z) * 0x1_0000_0000
}

/// Reads one axis value's two's-complement bit pattern.
pub fn axis_bits(v: i16) -> (b: u16)
    ensures
        b as int == axis_bits_of(v),
{
    if v >= 0 {
        v as u16
    } else {
        ((v as i32) + 0x10000) as u16
    }
}

/// Packs a sample into the 64-bit RNG seed word.
pub fn seed_from_sample(s: &Sample) -> (seed: u64)
    ensures
        seed as int == seed_of(*s),
{
    (axis_bits(s.x) as u64) + (axis_bits(s.y) as u64) * 0x1_0000 + (axis_bits(s.z) as u64)
        * 0x1_0000_0000
}

/// Decodes a full six-byte buffer into the sample it encodes.
pub fn decode_sample(b: &Vec<u8>) -> (s: Sample)
    requires
        b@.len() == 6,
    ensures
        s == sample_of(b@),
        s.x as int == sign16(b@[0] * 0x100 + b@[1]),
        s.z as int == sign16(b@[2] * 0x100 + b@[3]),
        s.y as int == sign16(b@[4] * 0x100 + b@[5]),
{
    Sample { x: decode_axis(b[0], b[1]), y: decode_axis(b[4], b[5]), z: decode_axis(b[2], b[3]) }
}

} // verus!
