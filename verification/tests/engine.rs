// Tests of the session engine: handshake, polling, skip-and-continue, and
// session termination.

use bms_gateway::decode::DecodedValue;
use bms_gateway::frame::FrameError;
use bms_gateway::identity::DeviceIdentity;
use bms_gateway::session::{CloseReason, PollStep, Session, SessionState, TransportEvent};

fn checksummed_response(request: &[u8], payload: &[u8]) -> Vec<u8> {
    let mut all: Vec<u8> = request.to_vec();
    all.extend_from_slice(payload);
    let sum: u8 = crc::Crc::<u8>::new(&crc::CRC_8_SMBUS).checksum(&all);
    let mut response: Vec<u8> = payload.to_vec();
    response.push(sum);
    response
}

fn polling_session() -> Session {
    let mut s = Session::new();
    let hs: Vec<u8> = vec![0x00, 0x1A, 0x2B, 0x3C, 0x4D, 0x5E];
    s.handle_handshake(TransportEvent::Received(hs))
        .expect("six bytes must be accepted");
    s
}

#[test]
fn handshake_extracts_big_endian_identity() {
    let mut s = Session::new();
    let hs: Vec<u8> = vec![0x00, 0x1A, 0x2B, 0x3C, 0x4D, 0x5E];
    let id = s
        .handle_handshake(TransportEvent::Received(hs))
        .expect("six bytes must be accepted");
    assert_eq!(id.raw(), 0x00001A2B3C4D5E);
    assert_eq!(s.state(), SessionState::Polling);
    assert_eq!(s.identity(), Some(id));
    assert_eq!(id.hex_string(), "0x1a2b3c4d5e");
}

#[test]
fn handshake_of_five_bytes_closes_without_polling() {
    let mut s = Session::new();
    let hs: Vec<u8> = vec![0x00, 0x1A, 0x2B, 0x3C, 0x4D];
    let r = s.handle_handshake(TransportEvent::Received(hs));
    assert_eq!(r, Err(CloseReason::MalformedHandshake));
    assert_eq!(s.state(), SessionState::Closed);
    assert_eq!(s.identity(), None);
}

#[test]
fn handshake_of_seven_bytes_closes_without_polling() {
    let mut s = Session::new();
    let hs: Vec<u8> = vec![0x00, 0x1A, 0x2B, 0x3C, 0x4D, 0x5E, 0x6F];
    let r = s.handle_handshake(TransportEvent::Received(hs));
    assert_eq!(r, Err(CloseReason::MalformedHandshake));
    assert_eq!(s.state(), SessionState::Closed);
}

#[test]
fn handshake_peer_close_ends_silently() {
    let mut s = Session::new();
    let r = s.handle_handshake(TransportEvent::PeerClosed);
    assert_eq!(r, Err(CloseReason::PeerClosed));
    assert_eq!(s.state(), SessionState::Closed);
}

#[test]
fn handshake_read_error_closes() {
    let mut s = Session::new();
    let r = s.handle_handshake(TransportEvent::Failed);
    assert_eq!(r, Err(CloseReason::TransportFailed));
    assert_eq!(s.state(), SessionState::Closed);
}

#[test]
fn identity_of_all_zero_bytes() {
    let b: Vec<u8> = vec![0, 0, 0, 0, 0, 0];
    let id = DeviceIdentity::from_bytes(&b);
    assert_eq!(id.raw(), 0);
    assert_eq!(id.hex_string(), "0x0");
}

#[test]
fn identity_of_all_ones() {
    let b: Vec<u8> = vec![0xFF, 0xFF, 0xFF, 0xFF, 0xFF, 0xFF];
    let id = DeviceIdentity::from_bytes(&b);
    assert_eq!(id.raw(), 0x0000FFFFFFFFFFFF);
    assert_eq!(id.hex_string(), "0xffffffffffff");
}

// A response one byte too long is a framing failure, never a checksum
// failure, and does not close the session.
#[test]
fn oversized_response_is_a_length_mismatch() {
    let mut s = polling_session();
    let request = s.next_request();
    // Expected length for the first cell-voltage command is 2 + 1 checksum
    // byte; hand back 4 bytes, with a checksum that would even be correct.
    let mut response = checksummed_response(&request, &[0x0D, 0x48]);
    response.insert(0, 0x00);
    assert_eq!(response.len(), 4);
    let step = s.handle_response(TransportEvent::Received(response));
    assert_eq!(step, PollStep::Skipped(FrameError::LengthMismatch));
    assert_eq!(s.state(), SessionState::Polling);
    // The session moved on to the second cell-voltage command.
    assert_eq!(s.next_request(), vec![0x0A, 0x02, 0x02]);
}

#[test]
fn corrupted_response_is_skipped_not_fatal() {
    let mut s = polling_session();
    let request = s.next_request();
    let mut response = checksummed_response(&request, &[0x0D, 0x48]);
    let last = response.len() - 1;
    response[last] = response[last].wrapping_add(1);
    let step = s.handle_response(TransportEvent::Received(response));
    assert_eq!(step, PollStep::Skipped(FrameError::ChecksumMismatch));
    assert_eq!(s.state(), SessionState::Polling);
    assert_eq!(s.next_request(), vec![0x0A, 0x02, 0x02]);
}

#[test]
fn valid_response_emits_a_reading() {
    let mut s = polling_session();
    let request = s.next_request();
    assert_eq!(request, vec![0x0A, 0x01, 0x02]);
    let response = checksummed_response(&request, &[0x0D, 0x48]);
    let step = s.handle_response(TransportEvent::Received(response));
    match step {
        PollStep::Emitted(reading) => {
            assert_eq!(reading.command, 0x01);
            assert_eq!(reading.value, DecodedValue::Millivolts(0x0D48));
            assert_eq!(reading.device.raw(), 0x00001A2B3C4D5E);
        }
        other => panic!("expected a reading, got {:?}", other),
    }
}

#[test]
fn write_failure_closes_the_session() {
    let mut s = polling_session();
    s.transport_failed();
    assert_eq!(s.state(), SessionState::Closed);
}

#[test]
fn read_error_closes_the_session() {
    let mut s = polling_session();
    let step = s.handle_response(TransportEvent::Failed);
    assert_eq!(step, PollStep::Closed(CloseReason::TransportFailed));
    assert_eq!(s.state(), SessionState::Closed);
}

// Sixteen valid cell-voltage round-trips, then a read of zero bytes: the
// session must emit exactly sixteen readings and close cleanly.
#[test]
fn sixteen_cells_then_peer_close() {
    let mut s = polling_session();
    let mut readings: Vec<DecodedValue> = Vec::new();
    for cell in 1u16..=16u16 {
        let request = s.next_request();
        assert_eq!(request, vec![0x0A, cell as u8, 0x02]);
        let payload: [u8; 2] = [(cell >> 8) as u8, cell as u8];
        let response = checksummed_response(&request, &payload);
        match s.handle_response(TransportEvent::Received(response)) {
            PollStep::Emitted(reading) => {
                assert_eq!(reading.command, cell as u8);
                assert_eq!(reading.value, DecodedValue::Millivolts(cell));
                readings.push(reading.value);
            }
            other => panic!("cell {} was not emitted: {:?}", cell, other),
        }
    }
    assert_eq!(readings.len(), 16);
    let step = s.handle_response(TransportEvent::PeerClosed);
    assert_eq!(step, PollStep::Closed(CloseReason::PeerClosed));
    assert_eq!(s.state(), SessionState::Closed);
}

// After a full cycle of 28 commands the engine starts over at the first.
#[test]
fn polling_cycle_wraps_around() {
    let mut s = polling_session();
    for _round in 0u32..28u32 {
        let response: Vec<u8> = vec![0x00; 10];
        let step = s.handle_response(TransportEvent::Received(response));
        assert!(matches!(step, PollStep::Skipped(FrameError::LengthMismatch)));
    }
    assert_eq!(s.state(), SessionState::Polling);
    assert_eq!(s.next_request(), vec![0x0A, 0x01, 0x02]);
}

// The whole cycle round-trips: every command in catalog order accepts a
// well-formed response and emits a reading with the catalog's unit.
#[test]
fn full_cycle_emits_28_readings() {
    let mut s = polling_session();
    let mut emitted: u32 = 0;
    for entry in bms_gateway::table::command_table() {
        let request = s.next_request();
        assert_eq!(request[1], entry.code);
        let payload: Vec<u8> = vec![0x01; entry.expected_payload_len as usize];
        let response = checksummed_response(&request, &payload);
        match s.handle_response(TransportEvent::Received(response)) {
            PollStep::Emitted(reading) => {
                assert_eq!(reading.command, entry.code);
                assert_eq!(reading.unit, bms_gateway::table::unit_for(entry.code));
                emitted += 1;
            }
            other => panic!("command {:#04X} was not emitted: {:?}", entry.code, other),
        }
    }
    assert_eq!(emitted, 28);
}
