//! Typed decoding of response payloads: big-endian 16- and 32-bit words,
//! unsigned or two's-complement signed, selected by the command code.

use vstd::prelude::*;

use crate::table::{expected_payload_len_of, is_command};

verus! {

/// One decoded telemetry value. Temperatures stay in centi-degrees so the
/// fractional part of a degree is preserved exactly.
#[derive(Clone, Copy, Debug, PartialEq, Eq, Structural)]
pub enum DecodedValue {
    Millivolts(u16),
    CentiDegrees(i16),
    Milliamps(i32),
    MilliampHours(u32),
    Millivolts32(u32),
    RawStatus(u16),
    Count(u16),
}

/// The unsigned big-endian 16-bit value of a 2-byte payload.
pub open spec fn be_u16_of(b: Seq<u8>) -> u16
    recommends
        b.len() == 2,
{
    (b[0] * 0x100 + b[1]) as u16
}

/// The two's-complement big-endian 16-bit value of a 2-byte payload.
pub open spec fn be_i16_of(b: Seq<u8>) -> i16 {
    if b[0] * 0x100 + b[1] < 0x8000 {
        (b[0] * 0x100 + b[1]) as i16
    } else {
        (b[0] * 0x100 + b[1] - 0x10000) as i16
    }
}

/// The unsigned big-endian 32-bit value of a 4-byte payload.
pub open spec fn be_u32_of(b: Seq<u8>) -> u32
    recommends
        b.len() == 4,
{
    (b[0] * 0x1000000 + b[1] * 0x10000 + b[2] * 0x100 + b[3]) as u32
}

/// The two's-complement big-endian 32-bit value of a 4-byte payload.
pub open spec fn be_i32_of(b: Seq<u8>) -> i32 {
    if b[0] * 0x1000000 + b[1] * 0x10000 + b[2] * 0x100 + b[3] < 0x80000000 {
        (b[0] * 0x1000000 + b[1] * 0x10000 + b[2] * 0x100 + b[3]) as i32
    } else {
        (b[0] * 0x1000000 + b[1] * 0x10000 + b[2] * 0x100 + b[3] - 0x100000000) as i32
    }
}

/// Reads a 2-byte payload as an unsigned big-endian word.
pub fn be_u16(b: &Vec<u8>) -> (r: u16)
    requires
        b@.len() == 2,
    ensures
        r == be_u16_of(b@),
{
    (b[0] as u16) * 0x100 + (b[1] as u16)
}

/// Reads a 2-byte payload as a signed big-endian word.
pub fn be_i16(b: &Vec<u8>) -> (r: i16)
    requires
        b@.len() == 2,
    ensures
        r == be_i16_of(b@),
{
    let raw: u16 = be_u16(b);
    if raw < 0x8000 {
        raw as i16
    } else {
        let flipped: u16 = 0xFFFF - raw;
        -(flipped as i16) - 1
    }
}

/// Reads a 4-byte payload as an unsigned big-endian word.
pub fn be_u32(b: &Vec<u8>) -> (r: u32)
    requires
        b@.len() == 4,
    ensures
        r == be_u32_of(b@),
{
    (b[0] as u32) * 0x1000000 + (b[1] as u32) * 0x10000 + (b[2] as u32) * 0x100 + (b[3] as u32)
}

/// Reads a 4-byte payload as a signed big-endian word.
pub fn be_i32(b: &Vec<u8>) -> (r: i32)
    requires
        b@.len() == 4,
    ensures
        r == be_i32_of(b@),
{
    let raw: u32 = be_u32(b);
    if raw < 0x80000000 {
        raw as i32
    } else {
        let flipped: u32 = 0xFFFFFFFF - raw;
        -(flipped as i32) - 1
    }
}

/// The value a command's payload decodes to: unsigned millivolts for the
/// per-cell voltages, signed centi-degrees for the temperatures, the four
/// 32-bit aggregates, and the 16-bit status and counter words.
pub open spec fn decode_of(command: u8, payload: Seq<u8>) -> DecodedValue
    recommends
        is_command(command),
        payload.len() == expected_payload_len_of(command),
{
    if 0x01 <= command <= 0x10 {
        DecodedValue::Millivolts(be_u16_of(payload))
    } else if command == 0x11 {
        DecodedValue::Millivolts32(be_u32_of(payload))
    } else if command == 0x12 {
        DecodedValue::Milliamps(be_i32_of(payload))
    } else if 0x13 <= command <= 0x15 {
        DecodedValue::CentiDegrees(be_i16_of(payload))
    } else if command == 0x16 || command == 0x17 {
        DecodedValue::MilliampHours(be_u32_of(payload))
    } else if command == 0x18 || command == 0x19 {
        DecodedValue::Count(be_u16_of(payload))
    } else {
        DecodedValue::RawStatus(be_u16_of(payload))
    }
}

/// Decodes a payload of the declared length. Total: given the declared
/// length, decoding cannot fail.
pub fn decode(command: u8, payload: &Vec<u8>) -> (r: DecodedValue)
    requires
        is_command(command),
        payload@.len() == expected_payload_len_of(command),
    ensures
        r == decode_of(command, payload@),
{
    if command >= 0x01 && command <= 0x10 {
        DecodedValue::Millivolts(be_u16(payload))
    } else if command == 0x11 {
        DecodedValue::Millivolts32(be_u32(payload))
    } else if command == 0x12 {
        DecodedValue::Milliamps(be_i32(payload))
    } else if command >= 0x13 && command <= 0x15 {
        DecodedValue::CentiDegrees(be_i16(payload))
    } else if command == 0x16 || command == 0x17 {
        DecodedValue::MilliampHours(be_u32(payload))
    } else if command == 0x18 || command == 0x19 {
        DecodedValue::Count(be_u16(payload))
    } else {
        DecodedValue::RawStatus(be_u16(payload))
    }
}

} // verus!
