// Tests of the register decoder and the command catalog.

use bms_gateway::decode::{decode, DecodedValue};
use bms_gateway::table::{command_table, DecodeRule, Unit, unit_for, TABLE_LEN};

#[test]
fn cell_voltage_decodes_unsigned() {
    for code in 0x01u8..=0x10u8 {
        let low: Vec<u8> = vec![0x00, 0x01];
        assert_eq!(decode(code, &low), DecodedValue::Millivolts(1));
        let high: Vec<u8> = vec![0xFF, 0xFF];
        assert_eq!(decode(code, &high), DecodedValue::Millivolts(65535));
    }
}

#[test]
fn pack_current_decodes_signed() {
    let minus_one: Vec<u8> = vec![0xFF, 0xFF, 0xFF, 0xFF];
    assert_eq!(decode(0x12, &minus_one), DecodedValue::Milliamps(-1));
    let hundred: Vec<u8> = vec![0x00, 0x00, 0x00, 0x64];
    assert_eq!(decode(0x12, &hundred), DecodedValue::Milliamps(100));
}

#[test]
fn temperature_keeps_centi_degrees() {
    // 0x0064 is one degree exactly: one hundred centi-degrees, not a
    // truncated whole degree.
    let one_degree: Vec<u8> = vec![0x00, 0x64];
    assert_eq!(decode(0x13, &one_degree), DecodedValue::CentiDegrees(100));
    let minus_one_degree: Vec<u8> = vec![0xFF, 0x9C];
    assert_eq!(decode(0x14, &minus_one_degree), DecodedValue::CentiDegrees(-100));
    let coldest: Vec<u8> = vec![0x80, 0x00];
    assert_eq!(decode(0x15, &coldest), DecodedValue::CentiDegrees(-32768));
}

#[test]
fn aggregates_decode_32_bits() {
    let volts: Vec<u8> = vec![0x00, 0x00, 0xC8, 0x00];
    assert_eq!(decode(0x11, &volts), DecodedValue::Millivolts32(51200));
    let full: Vec<u8> = vec![0x00, 0x01, 0x86, 0xA0];
    assert_eq!(decode(0x16, &full), DecodedValue::MilliampHours(100_000));
    let rest: Vec<u8> = vec![0xFF, 0xFF, 0xFF, 0xFF];
    assert_eq!(decode(0x17, &rest), DecodedValue::MilliampHours(4_294_967_295));
}

#[test]
fn status_words_decode_unsigned() {
    let p: Vec<u8> = vec![0x00, 0x55];
    assert_eq!(decode(0x18, &p), DecodedValue::Count(0x55));
    assert_eq!(decode(0x19, &p), DecodedValue::Count(0x55));
    assert_eq!(decode(0x1A, &p), DecodedValue::RawStatus(0x55));
    assert_eq!(decode(0x1B, &p), DecodedValue::RawStatus(0x55));
    assert_eq!(decode(0x1C, &p), DecodedValue::RawStatus(0x55));
}

#[test]
fn catalog_order_and_lengths() {
    let table = command_table();
    assert_eq!(table.len(), TABLE_LEN);
    let codes: Vec<u8> = table.iter().map(|c| c.code).collect();
    let mut expected: Vec<u8> = (0x01u8..=0x10u8).collect();
    expected.extend_from_slice(&[0x13, 0x14, 0x15]);
    expected.extend_from_slice(&[0x11, 0x12, 0x16, 0x17]);
    expected.extend_from_slice(&[0x18, 0x19, 0x1A, 0x1B, 0x1C]);
    assert_eq!(codes, expected);
    for entry in &table {
        let four_byte = matches!(entry.code, 0x11 | 0x12 | 0x16 | 0x17);
        assert_eq!(entry.expected_payload_len, if four_byte { 4 } else { 2 });
        match entry.code {
            0x11 => assert_eq!(entry.decode, DecodeRule::Unsigned32),
            0x12 => assert_eq!(entry.decode, DecodeRule::Signed32),
            0x13..=0x15 => assert_eq!(entry.decode, DecodeRule::Signed16),
            0x16 | 0x17 => assert_eq!(entry.decode, DecodeRule::Unsigned32),
            _ => assert_eq!(entry.decode, DecodeRule::Unsigned16),
        }
    }
}

#[test]
fn units_follow_the_catalog() {
    assert_eq!(unit_for(0x01), Unit::Millivolts);
    assert_eq!(unit_for(0x11), Unit::Millivolts);
    assert_eq!(unit_for(0x12), Unit::Milliamps);
    assert_eq!(unit_for(0x14), Unit::CentiDegrees);
    assert_eq!(unit_for(0x16), Unit::MilliampHours);
    assert_eq!(unit_for(0x17), Unit::MilliampHours);
    assert_eq!(unit_for(0x18), Unit::Percent);
    assert_eq!(unit_for(0x19), Unit::Cycles);
    assert_eq!(unit_for(0x1A), Unit::Bitfield);
    assert_eq!(unit_for(0x1C), Unit::Bitfield);
}
