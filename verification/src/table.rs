//! The fixed catalog of register commands the session polls, in the exact
//! order the device firmware expects: sixteen per-cell voltages, three
//! temperatures, four 32-bit aggregates, five 16-bit status/counter words.

use vstd::prelude::*;

verus! {

/// How a command's payload bytes are interpreted on the wire.
#[derive(Clone, Copy, Debug, PartialEq, Eq, Structural)]
pub enum DecodeRule {
    Unsigned16,
    Signed16,
    Unsigned32,
    Signed32,
}

/// The physical unit of a decoded reading.
#[derive(Clone, Copy, Debug, PartialEq, Eq, Structural)]
pub enum Unit {
    Millivolts,
    CentiDegrees,
    Milliamps,
    MilliampHours,
    Percent,
    Cycles,
    Bitfield,
}

/// One entry of the command catalog: the command code, the payload length
/// the device answers with, and the wire encoding of that payload.
#[derive(Clone, Copy, Debug, PartialEq, Eq, Structural)]
pub struct CommandSpec {
    pub code: u8,
    pub expected_payload_len: u8,
    pub decode: DecodeRule,
}

/// Number of commands polled per cycle.
pub const TABLE_LEN: usize = 28;

/// True for the command codes the catalog covers (`0x01` through `0x1C`).
pub open spec fn is_command(code: u8) -> bool {
    0x01 <= code <= 0x1C
}

/// Payload length the device answers with: 4 bytes for the aggregate
/// quantities, 2 bytes for everything else.
pub open spec fn expected_payload_len_of(code: u8) -> u8 {
    if code == 0x11 || code == 0x12 || code == 0x16 || code == 0x17 {
        4u8
    } else {
        2u8
    }
}

/// Wire encoding of each command's payload.
pub open spec fn rule_of(code: u8) -> DecodeRule {
    if code == 0x11 {
        DecodeRule::Unsigned32
    } else if code == 0x12 {
        DecodeRule::Signed32
    } else if 0x13 <= code <= 0x15 {
        DecodeRule::Signed16
    } else if code == 0x16 || code == 0x17 {
        DecodeRule::Unsigned32
    } else {
        DecodeRule::Unsigned16
    }
}

/// Unit of the reading each command produces.
pub open spec fn unit_of(code: u8) -> Unit {
    if 0x01 <= code <= 0x11 {
        Unit::Millivolts
    } else if code == 0x12 {
        Unit::Milliamps
    } else if 0x13 <= code <= 0x15 {
        Unit::CentiDegrees
    } else if code == 0x16 || code == 0x17 {
        Unit::MilliampHours
    } else if code == 0x18 {
        Unit::Percent
    } else if code == 0x19 {
        Unit::Cycles
    } else {
        Unit::Bitfield
    }
}

/// Command code at each position of the polling cycle: cell voltages first,
/// then temperatures, then the aggregates, then the status/counter words.
pub open spec fn code_at(i: int) -> u8
    recommends
        0 <= i < TABLE_LEN,
{
    if i < 16 {
        (i + 1) as u8  // 0x01 ..= 0x10
    } else if i < 19 {
        (i + 3) as u8  // 0x13 ..= 0x15
    } else if i == 19 {
        0x11u8
    } else if i == 20 {
        0x12u8
    } else if i == 21 {
        0x16u8
    } else if i == 22 {
        0x17u8
    } else {
        (i + 1) as u8  // 0x18 ..= 0x1C
    }
}

/// The full catalog entry at each position of the polling cycle.
pub open spec fn spec_at(i: int) -> CommandSpec {
    CommandSpec {
        code: code_at(i),
        expected_payload_len: expected_payload_len_of(code_at(i)),
        decode: rule_of(code_at(i)),
    }
}

/// Returns the catalog entry at position `i` of the polling cycle.
pub fn command_at(i: usize) -> (r: CommandSpec)
    requires
        i < TABLE_LEN,
    ensures
        r == spec_at(i as int),
        is_command(r.code),
{
    let code: u8 = if i < 16 {
        (i + 1) as u8
    } else if i < 19 {
        (i + 3) as u8
    } else if i == 19 {
        0x11
    } else if i == 20 {
        0x12
    } else if i == 21 {
        0x16
    } else if i == 22 {
        0x17
    } else {
        (i + 1) as u8
    };
    let expected_payload_len: u8 = if code == 0x11 || code == 0x12 || code == 0x16 || code
        == 0x17 {
        4
    } else {
        2
    };
    let decode: DecodeRule = if code == 0x11 {
        DecodeRule::Unsigned32
    } else if code == 0x12 {
        DecodeRule::Signed32
    } else if code >= 0x13 && code <= 0x15 {
        DecodeRule::Signed16
    } else if code == 0x16 || code == 0x17 {
        DecodeRule::Unsigned32
    } else {
        DecodeRule::Unsigned16
    };
    CommandSpec { code, expected_payload_len, decode }
}

/// Returns the unit of the reading `code` produces.
pub fn unit_for(code: u8) -> (r: Unit)
    requires
        is_command(code),
    ensures
        r == unit_of(code),
{
    if code >= 0x01 && code <= 0x11 {
        Unit::Millivolts
    } else if code == 0x12 {
        Unit::Milliamps
    } else if code >= 0x13 && code <= 0x15 {
        Unit::CentiDegrees
    } else if code == 0x16 || code == 0x17 {
        Unit::MilliampHours
    } else if code == 0x18 {
        Unit::Percent
    } else if code == 0x19 {
        Unit::Cycles
    } else {
        Unit::Bitfield
    }
}

/// Builds the whole polling catalog, in cycle order.
pub fn command_table() -> (t: Vec<CommandSpec>)
    ensures
        t@.len() == TABLE_LEN,
        forall|i: int| 0 <= i < TABLE_LEN ==> t@[i] == spec_at(i),
{
    let mut t: Vec<CommandSpec> = Vec::new();
    let mut i: usize = 0;
    while i < TABLE_LEN
        invariant
            i <= TABLE_LEN,
            t@.len() == i,
            forall|k: int| 0 <= k < i ==> t@[k] == spec_at(k),
        decreases TABLE_LEN - i,
    {
        t.push(command_at(i));
        i = i + 1;
    }
    t
}

} // verus!
