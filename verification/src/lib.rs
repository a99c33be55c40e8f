//! Device session engine for a battery-management-system (BMS) gateway.
//!
//! The library covers the protocol logic of one device session: the 3-byte
//! request frames, CRC-8/SMBUS response validation, the fixed catalog of
//! polled registers, typed decoding of their payloads, and the session state
//! machine that drives one round-trip per command. All transport I/O and the
//! metrics sink live outside the library; callers hand events in as plain
//! byte vectors and take decoded readings back.

pub mod decode;
pub mod frame;
pub mod identity;
pub mod session;
pub mod table;
