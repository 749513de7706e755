//! Client-side response processing.
//!
//! The client builds and seals its request with the packet codec and the
//! AEAD envelope; what remains of its side of the exchange is reading the
//! response packet back: authenticate and decrypt it, recover the JSON-RPC
//! document from the padding, and check that it is shaped like a response.
//! The socket work stays outside the library.

use vstd::prelude::*;
use crate::crypto::{is_sealed, open_packet, packet_authentic, packet_payload, seal_packet};
use crate::errors::PenumError;
use crate::json::{extract_json, is_candidate, is_chosen, rpc_response_shaped};
use crate::packet::{build_request_packet, request_start, PACKET_SIZE, MAX_REQUEST_SIZE, TAG_SIZE};
use crate::rpc::validate_response;

verus! {

/// Build and seal the client's request packet: whenever the request fits,
/// the ciphertext put on the wire is exactly one packet — the sealing, in
/// the request direction, of a fresh random buffer that carries the
/// request ending 32 bytes before the tag region.
pub fn prepare_request_packet(key: &Vec<u8>, json: &Vec<u8>) -> (r: Result<Vec<u8>, PenumError>)
    requires
        key@.len() == 32,
    ensures
        r is Ok <==> json@.len() <= MAX_REQUEST_SIZE,
        r matches Err(e) ==> e == PenumError::SizeViolation,
        r matches Ok(p) ==> {
            &&& p@.len() == PACKET_SIZE
            &&& exists|base: Seq<u8>|
                {
                    &&& base.len() == PACKET_SIZE
                    &&& base.subrange(
                        request_start(json@.len() as int),
                        (PACKET_SIZE - TAG_SIZE - 32) as int,
                    ) == json@
                    &&& is_sealed(key@, base, true, p@)
                }
        },
{
    let base = match build_request_packet(json) {
        Ok(b) => b,
        Err(e) => {
            return Err(e);
        },
    };
    let sealed = seal_packet(key, &base, true);
    proof {
        assert(base@.len() == PACKET_SIZE && base@.subrange(
            request_start(json@.len() as int),
            (PACKET_SIZE - TAG_SIZE - 32) as int,
        ) == json@ && is_sealed(key@, base@, true, sealed@));
    }
    Ok(sealed)
}

/// Open a response packet and recover the JSON-RPC response placed in it.
///
/// Fails with `AuthFailure` exactly when the tag does not authenticate the
/// packet in the response direction; fails with `MalformedEnvelope` when
/// no region of the decrypted payload parses as JSON, or the recovered
/// document is not shaped like a JSON-RPC response.
pub fn read_response(key: &Vec<u8>, packet: &Vec<u8>) -> (r: Result<Vec<u8>, PenumError>)
    requires
        key@.len() == 32,
        packet@.len() == PACKET_SIZE,
    ensures
        !packet_authentic(key@, packet@, false) ==> r == Err::<Vec<u8>, PenumError>(
            PenumError::AuthFailure,
        ),
        (packet_authentic(key@, packet@, false) && (forall|s: int, e: int|
            !is_candidate(packet_payload(key@, packet@, false), s, e))) ==> r == Err::<
            Vec<u8>,
            PenumError,
        >(PenumError::MalformedEnvelope),
        (packet_authentic(key@, packet@, false) && (exists|s: int, e: int|
            is_candidate(packet_payload(key@, packet@, false), s, e)) && (forall|s: int, e: int|
            is_chosen(packet_payload(key@, packet@, false), s, e) ==> rpc_response_shaped(
                packet_payload(key@, packet@, false).subrange(s, e),
            ))) ==> r is Ok,
        r matches Ok(v) ==> {
            &&& packet_authentic(key@, packet@, false)
            &&& exists|s: int, e: int|
                is_chosen(packet_payload(key@, packet@, false), s, e) && v@ == packet_payload(
                    key@,
                    packet@,
                    false,
                ).subrange(s, e)
            &&& rpc_response_shaped(v@)
        },
        r matches Err(e) ==> (e == PenumError::AuthFailure || e == PenumError::MalformedEnvelope),
{
    let payload = match open_packet(key, packet, false) {
        Ok(p) => p,
        Err(_) => {
            return Err(PenumError::AuthFailure);
        },
    };
    let json = match extract_json(&payload) {
        Some(j) => j,
        None => {
            return Err(PenumError::MalformedEnvelope);
        },
    };
    if !validate_response(&json) {
        return Err(PenumError::MalformedEnvelope);
    }
    Ok(json)
}

} // verus!
