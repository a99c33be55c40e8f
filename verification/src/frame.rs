//! The frame codec: builds the 3-byte request frames and validates response
//! frames against their CRC-8/SMBUS trailer.

use vstd::prelude::*;

verus! {

/// Why a response frame was rejected. A rejected frame drops one reading;
/// it never closes the session.
#[derive(Clone, Copy, Debug, PartialEq, Eq, Structural)]
pub enum FrameError {
    /// Request and response together are too short to carry a checksum.
    TooShort,
    /// The response does not hold exactly the declared payload plus one
    /// checksum byte.
    LengthMismatch,
    /// The trailing byte differs from the checksum of request and payload.
    ChecksumMismatch,
}

/// The CRC-8/SMBUS checksum of a byte sequence. The algorithm's result
/// depends on the input bytes alone; its exact table-driven definition is
/// left to the outside implementation that computes it.
pub uninterp spec fn crc8_of(data: Seq<u8>) -> u8;

/// Relies on `crc::Crc::<u8>::checksum` with the `CRC_8_SMBUS` algorithm
/// (polynomial 0x07, init 0x00, no reflection, no final xor): a pure
/// function of the input bytes.
#[verifier::external_body]
fn crc8_checksum(data: &Vec<u8>) -> (r: u8)
    ensures
        r == crc8_of(data@),
{
    crc::Crc::<u8>::new(&crc::CRC_8_SMBUS).checksum(data.as_slice())
}

/// The bytes of a request frame: header, command code, expected payload
/// length.
pub open spec fn request_of(command: u8, expected_len: u8) -> Seq<u8> {
    seq![0x0Au8, command, expected_len]
}

/// A response minus its trailing checksum byte; an empty response carries
/// no payload.
pub open spec fn payload_of(response: Seq<u8>) -> Seq<u8> {
    if response.len() == 0 {
        Seq::empty()
    } else {
        response.subrange(0, response.len() - 1)
    }
}

/// True when the last byte of `request ‖ response` is the CRC-8/SMBUS
/// checksum of every byte before it. With a nonempty response this is the
/// response's trailer checked over the request bytes followed by the
/// payload bytes; the check depends on the concatenation alone, not on how
/// the bytes split between the two arguments.
pub open spec fn checksum_matches(request: Seq<u8>, response: Seq<u8>) -> bool
    recommends
        request.len() + response.len() >= 1,
{
    (request + response).last() == crc8_of((request + response).drop_last())
}

/// Builds the request frame for one command: exactly
/// `[0x0A, command, expected_len]`.
pub fn build_request(command: u8, expected_len: u8) -> (r: Vec<u8>)
    ensures
        r@ == request_of(command, expected_len),
{
    let mut r: Vec<u8> = Vec::new();
    r.push(0x0A);
    r.push(command);
    r.push(expected_len);
    proof {
        assert(r@ =~= request_of(command, expected_len));
    }
    r
}

/// Checks a response against its checksum trailer and extracts the payload.
///
/// The classification depends on the concatenation `request ‖ response`
/// alone. Returns the payload exactly when the concatenation holds more
/// than three bytes and its last byte equals the CRC-8/SMBUS checksum of
/// every byte before it; returns `TooShort` exactly when it holds three
/// bytes or fewer, and `ChecksumMismatch` exactly when the length is
/// sufficient but the trailer differs. `LengthMismatch` is never produced
/// here: a response of the wrong length must be rejected by the caller
/// before checksum validation.
pub fn validate(request: &Vec<u8>, response: &Vec<u8>) -> (r: Result<Vec<u8>, FrameError>)
    ensures
        match r {
            Ok(payload) => request@.len() + response@.len() > 3 && payload@ == payload_of(
                response@,
            ) && checksum_matches(request@, response@),
            Err(FrameError::TooShort) => request@.len() + response@.len() <= 3,
            Err(FrameError::ChecksumMismatch) => request@.len() + response@.len() > 3
                && !checksum_matches(request@, response@),
            Err(FrameError::LengthMismatch) => false,
        },
{
    let n = response.len();
    let mut data: Vec<u8> = Vec::new();
    let mut i: usize = 0;
    while i < request.len()
        invariant
            i <= request@.len(),
            data@ == request@.subrange(0, i as int),
        decreases request@.len() - i,
    {
        data.push(request[i]);
        proof {
            assert(data@ =~= request@.subrange(0, i + 1));
        }
        i = i + 1;
    }
    proof {
        assert(data@ =~= request@);
    }
    let mut j: usize = 0;
    while j < n
        invariant
            n == response@.len(),
            j <= n,
            data@ == request@ + response@.subrange(0, j as int),
        decreases n - j,
    {
        data.push(response[j]);
        proof {
            assert(data@ =~= request@ + response@.subrange(0, j + 1));
        }
        j = j + 1;
    }
    proof {
        assert(data@ =~= request@ + response@);
    }
    if data.len() <= 3 {
        return Err(FrameError::TooShort);
    }
    let trailer = data.pop().unwrap();
    proof {
        assert(trailer == (request@ + response@).last());
        assert(data@ =~= (request@ + response@).drop_last());
    }
    if crc8_checksum(&data) == trailer {
        let mut payload: Vec<u8> = Vec::new();
        let mut k: usize = 0;
        while k + 1 < n
            invariant
                n == response@.len(),
                n > 0 ==> k <= n - 1,
                n == 0 ==> k == 0,
                payload@ == response@.subrange(0, k as int),
            decreases n - k,
        {
            payload.push(response[k]);
            proof {
                assert(payload@ =~= response@.subrange(0, k + 1));
            }
            k = k + 1;
        }
        proof {
            assert(payload@ =~= payload_of(response@));
        }
        Ok(payload)
    } else {
        Err(FrameError::ChecksumMismatch)
    }
}

} // verus!
