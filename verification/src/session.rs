//! The session engine: one device connection as a state machine. The caller
//! performs the transport I/O and hands each outcome in as a
//! [`TransportEvent`]; the engine decides the handshake, drives the command
//! catalog one round-trip at a time, and emits decoded readings.

use vstd::prelude::*;

use crate::decode::{decode, decode_of, DecodedValue};
use crate::frame::{build_request, checksum_matches, payload_of, request_of, validate, FrameError};
use crate::identity::{be_u48_of, DeviceIdentity};
use crate::table::{
    code_at, command_at, expected_payload_len_of, spec_at, unit_for, unit_of, CommandSpec, Unit,
    TABLE_LEN,
};

verus! {

/// Where a session stands: waiting for the 6-byte handshake, polling the
/// command catalog, or closed for good.
#[derive(Clone, Copy, Debug, PartialEq, Eq, Structural)]
pub enum SessionState {
    AwaitingHandshake,
    Polling,
    Closed,
}

/// Why a session closed. Only transport-level failures and a malformed
/// handshake ever close one.
#[derive(Clone, Copy, Debug, PartialEq, Eq, Structural)]
pub enum CloseReason {
    /// A read returned zero bytes: the peer closed the connection.
    PeerClosed,
    /// A read or write failed, or timed out.
    TransportFailed,
    /// The handshake held a byte count other than six.
    MalformedHandshake,
}

/// The outcome of one transport read, as the caller observed it.
#[derive(Debug)]
pub enum TransportEvent {
    /// The read returned these bytes (at least one).
    Received(Vec<u8>),
    /// The read returned zero bytes.
    PeerClosed,
    /// The read or the preceding write failed, or timed out.
    Failed,
}

/// One decoded telemetry value, tagged with the device it came from, the
/// command that produced it, and its physical unit. Ownership passes to the
/// sink; the session keeps no copy.
#[derive(Clone, Copy, Debug, PartialEq, Eq, Structural)]
pub struct Reading {
    pub device: DeviceIdentity,
    pub command: u8,
    pub value: DecodedValue,
    pub unit: Unit,
}

/// What one polling round-trip produced.
#[derive(Clone, Copy, Debug, PartialEq, Eq, Structural)]
pub enum PollStep {
    /// The response validated and decoded; the session moved to the next
    /// command.
    Emitted(Reading),
    /// The response was dropped (wrong length or bad checksum); the session
    /// moved to the next command.
    Skipped(FrameError),
    /// The transport ended; the session is closed.
    Closed(CloseReason),
}

/// The position that follows `i` in the polling cycle: the catalog wraps
/// around and is polled indefinitely.
pub open spec fn next_position(i: int) -> int {
    if i + 1 == TABLE_LEN {
        0
    } else {
        i + 1
    }
}

/// One device session. Created when a connection is accepted; destroyed
/// when the transport ends.
pub struct Session {
    identity: Option<DeviceIdentity>,
    state: SessionState,
    position: usize,
}

impl Session {
    /// The session's current state.
    pub closed spec fn state_spec(&self) -> SessionState {
        self.state
    }

    /// The identity extracted at handshake, if any.
    pub closed spec fn identity_spec(&self) -> Option<DeviceIdentity> {
        self.identity
    }

    /// The position in the polling cycle of the command in flight.
    pub closed spec fn position_spec(&self) -> int {
        self.position as int
    }

    /// A polling session always has a well-formed identity and a position
    /// inside the catalog.
    pub open spec fn wf(&self) -> bool {
        self.state_spec() == SessionState::Polling ==> {
            &&& 0 <= self.position_spec() < TABLE_LEN
            &&& self.identity_spec() matches Some(id) && id.wf()
        }
    }

    /// A fresh session, waiting for the handshake.
    pub fn new() -> (s: Session)
        ensures
            s.state_spec() == SessionState::AwaitingHandshake,
            s.identity_spec() is None,
            s.wf(),
    {
        Session { identity: None, state: SessionState::AwaitingHandshake, position: 0 }
    }

    /// The session's current state.
    pub fn state(&self) -> (r: SessionState)
        ensures
            r == self.state_spec(),
    {
        self.state
    }

    /// The identity extracted at handshake, if any.
    pub fn identity(&self) -> (r: Option<DeviceIdentity>)
        ensures
            r == self.identity_spec(),
    {
        self.identity
    }

    /// Consumes the first read of the connection. Exactly six bytes are the
    /// device identity, big-endian, and the session starts polling at the
    /// head of the catalog; any other byte count is a malformed handshake
    /// and closes the session, as do a peer close and a transport failure.
    /// A closed session issues no polling request.
    pub fn handle_handshake(&mut self, event: TransportEvent) -> (r: Result<
        DeviceIdentity,
        CloseReason,
    >)
        requires
            old(self).state_spec() == SessionState::AwaitingHandshake,
        ensures
            final(self).wf(),
            match event {
                TransportEvent::Received(b) => {
                    if b@.len() == 6 {
                        &&& r matches Ok(id)
                        &&& id.raw_spec() == be_u48_of(b@)
                        &&& final(self).state_spec() == SessionState::Polling
                        &&& final(self).position_spec() == 0
                        &&& final(self).identity_spec() == Some(id)
                    } else {
                        &&& r == Err::<DeviceIdentity, CloseReason>(
                            CloseReason::MalformedHandshake,
                        )
                        &&& final(self).state_spec() == SessionState::Closed
                        &&& final(self).identity_spec() == old(self).identity_spec()
                    }
                },
                TransportEvent::PeerClosed => {
                    &&& r == Err::<DeviceIdentity, CloseReason>(CloseReason::PeerClosed)
                    &&& final(self).state_spec() == SessionState::Closed
                    &&& final(self).identity_spec() == old(self).identity_spec()
                },
                TransportEvent::Failed => {
                    &&& r == Err::<DeviceIdentity, CloseReason>(CloseReason::TransportFailed)
                    &&& final(self).state_spec() == SessionState::Closed
                    &&& final(self).identity_spec() == old(self).identity_spec()
                },
            },
    {
        match event {
            TransportEvent::Received(b) => {
                if b.len() == 6 {
                    let id = DeviceIdentity::from_bytes(&b);
                    self.identity = Some(id);
                    self.state = SessionState::Polling;
                    self.position = 0;
                    Ok(id)
                } else {
                    self.state = SessionState::Closed;
                    Err(CloseReason::MalformedHandshake)
                }
            },
            TransportEvent::PeerClosed => {
                self.state = SessionState::Closed;
                Err(CloseReason::PeerClosed)
            },
            TransportEvent::Failed => {
                self.state = SessionState::Closed;
                Err(CloseReason::TransportFailed)
            },
        }
    }

    /// The catalog entry of the command in flight.
    pub fn current_command(&self) -> (r: CommandSpec)
        requires
            self.wf(),
            self.state_spec() == SessionState::Polling,
        ensures
            r == spec_at(self.position_spec()),
    {
        command_at(self.position)
    }

    /// Builds the request frame for the command in flight.
    pub fn next_request(&self) -> (r: Vec<u8>)
        requires
            self.wf(),
            self.state_spec() == SessionState::Polling,
        ensures
            r@ == request_of(
                code_at(self.position_spec()),
                expected_payload_len_of(code_at(self.position_spec())),
            ),
    {
        let cs = command_at(self.position);
        build_request(cs.code, cs.expected_payload_len)
    }

    /// Records that a write (or any other transport operation) failed: the
    /// session closes and no further I/O is attempted.
    pub fn transport_failed(&mut self)
        ensures
            final(self).state_spec() == SessionState::Closed,
            final(self).identity_spec() == old(self).identity_spec(),
            final(self).wf(),
    {
        self.state = SessionState::Closed;
    }

    /// Consumes the response to the command in flight.
    ///
    /// A peer close or a transport failure closes the session. A response
    /// whose length is not the declared payload length plus one checksum
    /// byte is dropped as `LengthMismatch` without ever reaching checksum
    /// validation; one whose checksum trailer does not match is dropped as
    /// `ChecksumMismatch`. Either way the session stays open and moves to
    /// the next command. A response of the right length and checksum
    /// decodes to a reading for this device, and the session moves on.
    pub fn handle_response(&mut self, event: TransportEvent) -> (r: PollStep)
        requires
            old(self).wf(),
            old(self).state_spec() == SessionState::Polling,
        ensures
            final(self).wf(),
            final(self).identity_spec() == old(self).identity_spec(),
            ({
                let code = code_at(old(self).position_spec());
                let request = request_of(code, expected_payload_len_of(code));
                match event {
                    TransportEvent::PeerClosed => r == PollStep::Closed(CloseReason::PeerClosed)
                        && final(self).state_spec() == SessionState::Closed,
                    TransportEvent::Failed => r == PollStep::Closed(CloseReason::TransportFailed)
                        && final(self).state_spec() == SessionState::Closed,
                    TransportEvent::Received(b) => {
                        &&& final(self).state_spec() == SessionState::Polling
                        &&& final(self).position_spec() == next_position(
                            old(self).position_spec(),
                        )
                        &&& if b@.len() != expected_payload_len_of(code) + 1 {
                            r == PollStep::Skipped(FrameError::LengthMismatch)
                        } else if !checksum_matches(request, b@) {
                            r == PollStep::Skipped(FrameError::ChecksumMismatch)
                        } else {
                            &&& r matches PollStep::Emitted(reading)
                            &&& Some(reading.device) == old(self).identity_spec()
                            &&& reading.command == code
                            &&& reading.value == decode_of(code, payload_of(b@))
                            &&& reading.unit == unit_of(code)
                        }
                    },
                }
            }),
    {
        match event {
            TransportEvent::PeerClosed => {
                self.state = SessionState::Closed;
                PollStep::Closed(CloseReason::PeerClosed)
            },
            TransportEvent::Failed => {
                self.state = SessionState::Closed;
                PollStep::Closed(CloseReason::TransportFailed)
            },
            TransportEvent::Received(b) => {
                let cs = command_at(self.position);
                let step: PollStep;
                if b.len() != cs.expected_payload_len as usize + 1 {
                    step = PollStep::Skipped(FrameError::LengthMismatch);
                } else {
                    let request = build_request(cs.code, cs.expected_payload_len);
                    match validate(&request, &b) {
                        Ok(payload) => {
                            let value = decode(cs.code, &payload);
                            let device = self.identity.unwrap();
                            let unit = unit_for(cs.code);
                            step = PollStep::Emitted(
                                Reading { device, command: cs.code, value, unit },
                            );
                        },
                        Err(e) => {
                            proof {
                                assert(e == FrameError::ChecksumMismatch);
                            }
                            step = PollStep::Skipped(e);
                        },
                    }
                }
                if self.position + 1 == TABLE_LEN {
                    self.position = 0;
                } else {
                    self.position = self.position + 1;
                }
                step
            },
        }
    }
}

} // verus!
