//! Fixed-size packet codec.
//!
//! Every packet on the wire is exactly 1024 bytes: a 32-byte random header,
//! a 976-byte payload, and a 16-byte authentication tag. The codec places
//! JSON-RPC bytes inside the payload without disturbing the random padding
//! around them; it never interprets the bytes it carries.

use vstd::prelude::*;
use crate::errors::PenumError;

verus! {

/// Total size of a packet on the wire.
pub const PACKET_SIZE: usize = 1024;

/// Size of the random header, used as associated data for the AEAD.
pub const HEADER_SIZE: usize = 32;

/// Size of the detached Poly1305 tag.
pub const TAG_SIZE: usize = 16;

/// Size of the encrypted payload region between header and tag.
pub const PAYLOAD_SIZE: usize = 976;

/// Largest request the client accepts: the request must end 32 bytes before
/// the tag region, so this much room is left inside the packet.
pub const MAX_REQUEST_SIZE: usize = 960;

/// A factory for fresh randomized packet buffers.
pub struct Packet;

impl Packet {
    /// A full packet buffer of cryptographically random bytes.
    ///
    /// Relies on rand's `ThreadRng::fill_bytes` (a CSPRNG): it fills the
    /// buffer completely; nothing else can be said of random contents.
    #[verifier::external_body]
    pub fn new_random() -> (r: Vec<u8>)
        ensures
            r@.len() == PACKET_SIZE,
    {
        let mut data = vec![0u8; PACKET_SIZE];
        rand::RngCore::fill_bytes(&mut rand::thread_rng(), &mut data);
        data
    }
}

/// Where a request of length `len` begins inside the packet: it ends 32
/// bytes before the tag region.
pub open spec fn request_start(len: int) -> int {
    PACKET_SIZE - TAG_SIZE - len - 32
}

/// Copy `json` into `buf` so that it ends 32 bytes before the tag region,
/// leaving every other byte of `buf` as it was.
pub fn place_request(buf: &mut Vec<u8>, json: &Vec<u8>)
    requires
        old(buf)@.len() == PACKET_SIZE,
        json@.len() <= MAX_REQUEST_SIZE,
    ensures
        final(buf)@.len() == PACKET_SIZE,
        final(buf)@.subrange(request_start(json@.len() as int), PACKET_SIZE - TAG_SIZE - 32)
            == json@,
        forall|i: int|
            0 <= i < PACKET_SIZE
                && !(request_start(json@.len() as int) <= i < PACKET_SIZE - TAG_SIZE - 32)
                ==> final(buf)@[i] == old(buf)@[i],
{
    let len = json.len();
    let start = PACKET_SIZE - TAG_SIZE - len - 32;
    let mut i: usize = 0;
    while i < len
        invariant
            len == json@.len(),
            len <= MAX_REQUEST_SIZE,
            start == request_start(len as int),
            0 <= i <= len,
            buf@.len() == PACKET_SIZE,
            forall|j: int| 0 <= j < i ==> buf@[start + j] == json@[j],
            forall|j: int|
                0 <= j < PACKET_SIZE && !(start <= j < start + i) ==> buf@[j] == old(buf)@[j],
        decreases len - i,
    {
        buf[start + i] = json[i];
        i += 1;
    }
    assert(buf@.subrange(request_start(len as int), PACKET_SIZE - TAG_SIZE - 32) =~= json@);
}

/// Where a response of placed length `m` begins inside the packet: it ends
/// at the last payload byte, just before the tag region.
pub open spec fn response_start(m: int) -> int {
    PACKET_SIZE - TAG_SIZE - m
}

/// How much of a response of length `len` fits in the payload.
pub open spec fn response_placed_len(len: int) -> int {
    if len <= PAYLOAD_SIZE {
        len
    } else {
        PAYLOAD_SIZE as int
    }
}

/// Copy `resp` into `buf` so that it ends at the last payload byte,
/// truncating it to the payload size if it is larger, and leaving every
/// other byte of `buf` as it was.
pub fn place_response(buf: &mut Vec<u8>, resp: &Vec<u8>)
    requires
        old(buf)@.len() == PACKET_SIZE,
    ensures
        final(buf)@.len() == PACKET_SIZE,
        final(buf)@.subrange(
            response_start(response_placed_len(resp@.len() as int)),
            PACKET_SIZE - TAG_SIZE,
        ) == resp@.take(response_placed_len(resp@.len() as int)),
        forall|i: int|
            0 <= i < PACKET_SIZE
                && !(response_start(response_placed_len(resp@.len() as int)) <= i < PACKET_SIZE
                - TAG_SIZE) ==> final(buf)@[i] == old(buf)@[i],
{
    let m = if resp.len() <= PAYLOAD_SIZE {
        resp.len()
    } else {
        PAYLOAD_SIZE
    };
    let start = PACKET_SIZE - TAG_SIZE - m;
    let mut i: usize = 0;
    while i < m
        invariant
            m == response_placed_len(resp@.len() as int),
            m <= resp@.len(),
            start == response_start(m as int),
            0 <= i <= m,
            buf@.len() == PACKET_SIZE,
            forall|j: int| 0 <= j < i ==> buf@[start + j] == resp@[j],
            forall|j: int|
                0 <= j < PACKET_SIZE && !(start <= j < start + i) ==> buf@[j] == old(buf)@[j],
        decreases m - i,
    {
        buf[start + i] = resp[i];
        i += 1;
    }
    assert(buf@.subrange(response_start(m as int), PACKET_SIZE - TAG_SIZE) =~= resp@.take(
        m as int,
    ));
}

/// A fresh random packet carrying `json` at the request position.
///
/// Requests larger than the reserved room are rejected before any byte
/// reaches the wire.
pub fn build_request_packet(json: &Vec<u8>) -> (r: Result<Vec<u8>, PenumError>)
    ensures
        r is Ok <==> json@.len() <= MAX_REQUEST_SIZE,
        r matches Err(e) ==> e == PenumError::SizeViolation,
        r matches Ok(p) ==> {
            &&& p@.len() == PACKET_SIZE
            &&& p@.subrange(request_start(json@.len() as int), PACKET_SIZE - TAG_SIZE - 32)
                == json@
        },
{
    if json.len() > MAX_REQUEST_SIZE {
        return Err(PenumError::SizeViolation);
    }
    let mut buf = Packet::new_random();
    place_request(&mut buf, json);
    Ok(buf)
}

/// A fresh random packet carrying `resp` at the response position,
/// truncated to the payload size if it is larger.
pub fn build_response_packet(resp: &Vec<u8>) -> (r: Vec<u8>)
    ensures
        r@.len() == PACKET_SIZE,
        r@.subrange(
            response_start(response_placed_len(resp@.len() as int)),
            PACKET_SIZE - TAG_SIZE,
        ) == resp@.take(response_placed_len(resp@.len() as int)),
{
    let mut buf = Packet::new_random();
    place_response(&mut buf, resp);
    buf
}

} // verus!
