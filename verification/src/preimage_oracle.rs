//! The pure framing of the preimage-oracle protocol.  A request record is
//! a one-byte key-type tag followed by bytes 1..31 of a 32-byte digest
//! (byte 0 and byte 31 are not transmitted).  The response is an 8-byte
//! big-endian length, then exactly that many payload bytes; a response
//! carrying fewer bytes than declared is a protocol violation, never a
//! silent truncation.
//!
//! The pipe plumbing that carries these records to and from the oracle
//! child process is unverified driver code around this library; it hands
//! byte vectors in and out of the functions here.

use vstd::prelude::*;
use crate::VmError;

verus! {

/// The key-type tag of a Keccak digest key, the kind this protocol sends.
pub const KECCAK_KEY_TAG: u8 = 2;

/// The paired read half and write half of one byte-stream channel.  The
/// oracle protocol runs over two such channels, one for hints and one for
/// preimage data; the driver instantiates them with its pipe endpoints.
pub struct ReadWrite<R, W> {
    pub reader: R,
    pub writer: W,
}

/// A preimage fetched from the oracle.
#[derive(Debug)]
pub struct Preimage {
    pub data: Vec<u8>,
}

impl Preimage {
    /// Wrap fetched payload bytes.
    pub fn create(v: Vec<u8>) -> (r: Preimage)
        ensures
            r.data@ == v@,
    {
        Preimage { data: v }
    }

    /// The payload length in bytes.
    pub fn length(&self) -> (r: usize)
        ensures
            r == self.data@.len(),
    {
        self.data.len()
    }
}

/// Build the request record for a 32-byte digest key: the key-type tag,
/// then bytes 1..31 of the digest — 31 bytes in all.
pub fn build_preimage_request(key: &Vec<u8>) -> (r: Vec<u8>)
    requires
        key@.len() == 32,
    ensures
        r@.len() == 31,
        r@[0] == KECCAK_KEY_TAG,
        forall|i: int| 1 <= i < 31 ==> r@[i] == key@[i],
{
    let mut out: Vec<u8> = Vec::new();
    out.push(KECCAK_KEY_TAG);
    let mut i: usize = 1;
    while i < 31
        invariant
            1 <= i <= 31,
            key@.len() == 32,
            out@.len() == i,
            out@[0] == KECCAK_KEY_TAG,
            forall|j: int| 1 <= j < i ==> out@[j] == key@[j],
        decreases 31 - i,
    {
        out.push(key[i]);
        i = i + 1;
    }
    out
}

/// The unsigned big-endian value of an 8-byte sequence.
pub open spec fn spec_be64(b: Seq<u8>) -> int
    recommends
        b.len() == 8,
{
    b[0] * 0x100_0000_0000_0000 + b[1] * 0x1_0000_0000_0000 + b[2] * 0x100_0000_0000 + b[3]
        * 0x1_0000_0000 + b[4] * 0x100_0000 + b[5] * 0x1_0000 + b[6] * 0x100 + b[7]
}

/// Parse the 8-byte big-endian length prefix of an oracle response.
pub fn parse_length_prefix(buf: &Vec<u8>) -> (r: u64)
    requires
        buf@.len() == 8,
    ensures
        r as int == spec_be64(buf@),
{
    (buf[0] as u64) * 0x100_0000_0000_0000 + (buf[1] as u64) * 0x1_0000_0000_0000 + (buf[2] as u64)
        * 0x100_0000_0000 + (buf[3] as u64) * 0x1_0000_0000 + (buf[4] as u64) * 0x100_0000 + (buf[5]
        as u64) * 0x1_0000 + (buf[6] as u64) * 0x100 + (buf[7] as u64)
}

/// Check a response against its declared length.  Returns the preimage
/// exactly when the payload carries as many bytes as the length prefix
/// declared; a short (or long) response is a `ProtocolViolation` naming
/// both lengths.  This is what makes a truncated response detectable
/// rather than silently accepted.
pub fn validate_response(declared: u64, payload: Vec<u8>) -> (r: Result<Preimage, VmError>)
    ensures
        match r {
            Ok(p) => payload@.len() as u64 == declared && p.data@ == payload@,
            Err(e) => payload@.len() as u64 != declared && e == (VmError::ProtocolViolation {
                declared,
                actual: payload@.len() as u64,
            }),
        },
{
    let actual: u64 = payload.len() as u64;
    if actual == declared {
        Ok(Preimage::create(payload))
    } else {
        Err(VmError::ProtocolViolation { declared, actual })
    }
}

} // verus!
