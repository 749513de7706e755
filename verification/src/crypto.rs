//! Key agreement, key derivation, and the AEAD envelope.
//!
//! A session key is agreed by ephemeral X25519 and derived with
//! HKDF-SHA256. Each packet is encrypted with ChaCha20-Poly1305 under a
//! deterministic nonce: the first 12 bytes of
//! `SHA256(session_key || header || direction_tag)`, with the 32-byte
//! packet header as associated data. The direction tag keeps the request
//! and the response of one session on distinct nonce inputs.

use vstd::prelude::*;
use vstd::slice::{slice_subrange, slice_to_vec};
use crate::errors::PenumError;
use crate::packet::{PACKET_SIZE, HEADER_SIZE, TAG_SIZE, PAYLOAD_SIZE};
use chacha20poly1305::{AeadInPlace, KeyInit};
use sha2::Digest;

verus! {

#[verifier::external_type_specification]
#[verifier::external_body]
pub struct ExEphemeralSecret(x25519_dalek::EphemeralSecret);

#[verifier::external_type_specification]
#[verifier::external_body]
pub struct ExPublicKey(x25519_dalek::PublicKey);

#[verifier::external_type_specification]
#[verifier::external_body]
pub struct ExSharedSecret(x25519_dalek::SharedSecret);

/// One side's ephemeral key pair; the secret is consumed by exactly one
/// Diffie-Hellman exchange.
pub struct EphemeralKeys {
    pub secret: x25519_dalek::EphemeralSecret,
    pub public: x25519_dalek::PublicKey,
}

impl EphemeralKeys {
    /// A fresh random key pair.
    ///
    /// Relies on x25519_dalek's `EphemeralSecret::random_from_rng` with
    /// rand's thread CSPRNG, and `PublicKey::from` for the matching public
    /// point; nothing can be stated of a random key.
    #[verifier::external_body]
    pub fn generate() -> Self {
        let mut rng = rand::thread_rng();
        let secret = x25519_dalek::EphemeralSecret::random_from_rng(&mut rng);
        let public = x25519_dalek::PublicKey::from(&secret);
        EphemeralKeys { secret, public }
    }

    /// The X25519 shared secret with the remote public key; consumes the
    /// ephemeral secret so it cannot be reused.
    ///
    /// Relies on x25519_dalek's `EphemeralSecret::diffie_hellman`; the
    /// secret scalar is opaque, so nothing is stated of the result.
    #[verifier::external_body]
    pub fn diffie_hellman(self, remote_public: &x25519_dalek::PublicKey) -> x25519_dalek::SharedSecret {
        self.secret.diffie_hellman(remote_public)
    }
}

/// The 32-byte session key: HKDF-SHA256 with salt `"penum-v1"`, the shared
/// secret as input key material, and empty info.
///
/// Relies on hkdf's `Hkdf::<Sha256>::new` and `expand`: a 32-byte output
/// never exceeds the RFC 5869 length bound, so `expand` succeeds. The
/// shared secret is opaque, so only the length is stated.
#[verifier::external_body]
pub fn derive_session_key(secret: x25519_dalek::SharedSecret) -> (r: Vec<u8>)
    ensures
        r@.len() == 32,
{
    let hk = hkdf::Hkdf::<sha2::Sha256>::new(Some(b"penum-v1"), secret.as_bytes());
    let mut okm = [0u8; 32];
    hk.expand(&[], &mut okm).unwrap();
    okm.to_vec()
}

/// The SHA-256 digest of a byte sequence.
pub uninterp spec fn sha256_of(data: Seq<u8>) -> Seq<u8>;

/// Relies on sha2's `Sha256::digest`: the digest is 32 bytes and depends on
/// the input bytes alone.
#[verifier::external_body]
fn sha256(data: &Vec<u8>) -> (r: Vec<u8>)
    ensures
        r@ == sha256_of(data@),
        r@.len() == 32,
{
    sha2::Sha256::digest(data.as_slice()).to_vec()
}

/// The direction tag mixed into the nonce input: the ASCII bytes of
/// `"req_"` for a request, `"res_"` for a response.
pub open spec fn dir_tag(is_request: bool) -> Seq<u8> {
    if is_request {
        seq![0x72u8, 0x65u8, 0x71u8, 0x5fu8]
    } else {
        seq![0x72u8, 0x65u8, 0x73u8, 0x5fu8]
    }
}

fn dir_tag_bytes(is_request: bool) -> (r: Vec<u8>)
    ensures
        r@ == dir_tag(is_request),
{
    let mut v: Vec<u8> = Vec::new();
    v.push(0x72u8);
    v.push(0x65u8);
    if is_request {
        v.push(0x71u8);
    } else {
        v.push(0x73u8);
    }
    v.push(0x5fu8);
    assert(v@ =~= dir_tag(is_request));
    v
}

/// The byte sequence hashed to obtain a packet's nonce.
pub open spec fn nonce_input(key: Seq<u8>, header: Seq<u8>, is_request: bool) -> Seq<u8> {
    key + header + dir_tag(is_request)
}

/// The 12-byte packet nonce: the truncated hash of key, header and
/// direction tag.
pub open spec fn nonce_spec(key: Seq<u8>, header: Seq<u8>, is_request: bool) -> Seq<u8> {
    sha256_of(nonce_input(key, header, is_request)).take(12)
}

/// The deterministic per-packet nonce.
pub fn derive_nonce(key: &Vec<u8>, header: &Vec<u8>, is_request: bool) -> (r: Vec<u8>)
    requires
        key@.len() == 32,
        header@.len() == 32,
    ensures
        r@ == nonce_spec(key@, header@, is_request),
        r@.len() == 12,
{
    let mut input: Vec<u8> = Vec::new();
    let mut i: usize = 0;
    while i < key.len()
        invariant
            0 <= i <= key@.len(),
            input@ == key@.take(i as int),
        decreases key@.len() - i,
    {
        input.push(key[i]);
        i += 1;
    }
    assert(input@ =~= key@);
    i = 0;
    while i < header.len()
        invariant
            0 <= i <= header@.len(),
            input@ == key@ + header@.take(i as int),
        decreases header@.len() - i,
    {
        input.push(header[i]);
        i += 1;
    }
    let tag = dir_tag_bytes(is_request);
    i = 0;
    while i < tag.len()
        invariant
            0 <= i <= tag@.len(),
            tag@ == dir_tag(is_request),
            input@ == key@ + header@ + tag@.take(i as int),
        decreases tag@.len() - i,
    {
        input.push(tag[i]);
        i += 1;
    }
    assert(input@ =~= nonce_input(key@, header@, is_request));
    let digest = sha256(&input);
    let mut out: Vec<u8> = Vec::new();
    i = 0;
    while i < 12
        invariant
            0 <= i <= 12,
            digest@.len() == 32,
            digest@ == sha256_of(nonce_input(key@, header@, is_request)),
            out@ == digest@.take(i as int),
        decreases 12 - i,
    {
        out.push(digest[i]);
        i += 1;
    }
    assert(out@ =~= nonce_spec(key@, header@, is_request));
    out
}

/// The ChaCha20 keystream applied to a byte sequence under a key and nonce.
/// Applying it twice returns the input, which the trusted items state of
/// each call they make.
pub uninterp spec fn chacha_xor(key: Seq<u8>, nonce: Seq<u8>, data: Seq<u8>) -> Seq<u8>;

/// The detached Poly1305 tag over associated data and ciphertext under a
/// key and nonce.
pub uninterp spec fn poly1305_tag(key: Seq<u8>, nonce: Seq<u8>, aad: Seq<u8>, ct: Seq<u8>) -> Seq<u8>;

/// Relies on chacha20poly1305's `encrypt_in_place_detached`: it applies the
/// keystream determined by key and nonce to the buffer (so applying it
/// again restores the plaintext), returns the 16-byte Poly1305 tag over the
/// associated data and the ciphertext, and succeeds for any buffer far
/// below the cipher's block-count limit.
#[verifier::external_body]
fn aead_encrypt(key: &Vec<u8>, nonce: &Vec<u8>, aad: &Vec<u8>, plaintext: &Vec<u8>) -> (r: (
    Vec<u8>,
    Vec<u8>,
))
    requires
        key@.len() == 32,
        nonce@.len() == 12,
        plaintext@.len() <= PACKET_SIZE,
    ensures
        r.0@ == chacha_xor(key@, nonce@, plaintext@),
        r.0@.len() == plaintext@.len(),
        chacha_xor(key@, nonce@, r.0@) == plaintext@,
        r.1@ == poly1305_tag(key@, nonce@, aad@, r.0@),
        r.1@.len() == 16,
{
    let cipher = chacha20poly1305::ChaCha20Poly1305::new(chacha20poly1305::Key::from_slice(
        key.as_slice(),
    ));
    let mut buf = plaintext.clone();
    let tag = cipher
        .encrypt_in_place_detached(
            chacha20poly1305::Nonce::from_slice(nonce.as_slice()),
            aad.as_slice(),
            &mut buf,
        )
        .unwrap();
    (buf, tag.to_vec())
}

/// Relies on chacha20poly1305's `decrypt_in_place_detached`: it recomputes
/// the Poly1305 tag over the associated data and the ciphertext and fails
/// exactly when the given tag differs; on success it applies the keystream
/// determined by key and nonce, so a ciphertext produced by that keystream
/// decrypts to the plaintext it was produced from.
#[verifier::external_body]
fn aead_decrypt(key: &Vec<u8>, nonce: &Vec<u8>, aad: &Vec<u8>, ct: &Vec<u8>, tag: &Vec<u8>) -> (r:
    Result<Vec<u8>, ()>)
    requires
        key@.len() == 32,
        nonce@.len() == 12,
        ct@.len() <= PACKET_SIZE,
        tag@.len() == 16,
    ensures
        r is Ok <==> tag@ == poly1305_tag(key@, nonce@, aad@, ct@),
        r matches Ok(pt) ==> {
            &&& pt@ == chacha_xor(key@, nonce@, ct@)
            &&& pt@.len() == ct@.len()
            &&& forall|p: Seq<u8>| ct@ == chacha_xor(key@, nonce@, p) ==> pt@ == p
        },
{
    let cipher = chacha20poly1305::ChaCha20Poly1305::new(chacha20poly1305::Key::from_slice(
        key.as_slice(),
    ));
    let mut buf = ct.clone();
    match cipher.decrypt_in_place_detached(
        chacha20poly1305::Nonce::from_slice(nonce.as_slice()),
        aad.as_slice(),
        &mut buf,
        chacha20poly1305::Tag::from_slice(tag.as_slice()),
    ) {
        Ok(()) => Ok(buf),
        Err(_) => Err(()),
    }
}

/// `sealed` is the encryption of the 1024-byte buffer `orig` in direction
/// `is_request` under `key`: same header, payload replaced by its
/// keystream image, tag over header and ciphertext.
pub open spec fn is_sealed(key: Seq<u8>, orig: Seq<u8>, is_request: bool, sealed: Seq<u8>) -> bool {
    let header = orig.subrange(0, HEADER_SIZE as int);
    let nonce = nonce_spec(key, header, is_request);
    &&& orig.len() == PACKET_SIZE
    &&& sealed.len() == PACKET_SIZE
    &&& sealed.subrange(0, HEADER_SIZE as int) == header
    &&& sealed.subrange(HEADER_SIZE as int, (PACKET_SIZE - TAG_SIZE) as int) == chacha_xor(
        key,
        nonce,
        orig.subrange(HEADER_SIZE as int, (PACKET_SIZE - TAG_SIZE) as int),
    )
    &&& sealed.subrange((PACKET_SIZE - TAG_SIZE) as int, PACKET_SIZE as int) == poly1305_tag(
        key,
        nonce,
        header,
        sealed.subrange(HEADER_SIZE as int, (PACKET_SIZE - TAG_SIZE) as int),
    )
}

/// The tag region of `packet` authenticates its header and ciphertext
/// under `key` in the given direction.
pub open spec fn packet_authentic(key: Seq<u8>, packet: Seq<u8>, is_request: bool) -> bool {
    packet.subrange((PACKET_SIZE - TAG_SIZE) as int, PACKET_SIZE as int) == poly1305_tag(
        key,
        nonce_spec(key, packet.subrange(0, HEADER_SIZE as int), is_request),
        packet.subrange(0, HEADER_SIZE as int),
        packet.subrange(HEADER_SIZE as int, (PACKET_SIZE - TAG_SIZE) as int),
    )
}

/// The payload of `packet` after the keystream of `key` and the packet's
/// direction-bound nonce is applied to its ciphertext region.
pub open spec fn packet_payload(key: Seq<u8>, packet: Seq<u8>, is_request: bool) -> Seq<u8> {
    chacha_xor(
        key,
        nonce_spec(key, packet.subrange(0, HEADER_SIZE as int), is_request),
        packet.subrange(HEADER_SIZE as int, (PACKET_SIZE - TAG_SIZE) as int),
    )
}

/// A copy of `v[from..to]`.
pub fn vec_range(v: &Vec<u8>, from: usize, to: usize) -> (r: Vec<u8>)
    requires
        from <= to <= v@.len(),
    ensures
        r@ == v@.subrange(from as int, to as int),
{
    slice_to_vec(slice_subrange(v.as_slice(), from, to))
}

/// Encrypt a full packet buffer in the given direction: the header stays
/// in clear, the payload is encrypted under the direction-bound nonce with
/// the header as associated data, and the tag region is filled with the
/// detached tag.
pub fn seal_packet(key: &Vec<u8>, packet: &Vec<u8>, is_request: bool) -> (r: Vec<u8>)
    requires
        key@.len() == 32,
        packet@.len() == PACKET_SIZE,
    ensures
        r@.len() == PACKET_SIZE,
        is_sealed(key@, packet@, is_request, r@),
{
    let header = vec_range(packet, 0, HEADER_SIZE);
    let payload = vec_range(packet, HEADER_SIZE, PACKET_SIZE - TAG_SIZE);
    let nonce = derive_nonce(key, &header, is_request);
    let (mut ct, mut tag) = aead_encrypt(key, &nonce, &header, &payload);
    let mut out = header;
    out.append(&mut ct);
    out.append(&mut tag);
    proof {
        assert(out@.subrange(0, HEADER_SIZE as int) =~= packet@.subrange(0, HEADER_SIZE as int));
        assert(out@.subrange(HEADER_SIZE as int, (PACKET_SIZE - TAG_SIZE) as int) =~= chacha_xor(
            key@,
            nonce_spec(key@, packet@.subrange(0, HEADER_SIZE as int), is_request),
            packet@.subrange(HEADER_SIZE as int, (PACKET_SIZE - TAG_SIZE) as int),
        ));
        assert(out@.subrange((PACKET_SIZE - TAG_SIZE) as int, PACKET_SIZE as int)
            =~= poly1305_tag(
            key@,
            nonce_spec(key@, packet@.subrange(0, HEADER_SIZE as int), is_request),
            packet@.subrange(0, HEADER_SIZE as int),
            out@.subrange(HEADER_SIZE as int, (PACKET_SIZE - TAG_SIZE) as int),
        ));
    }
    out
}

/// Authenticate and decrypt a full packet buffer in the given direction,
/// returning the 976-byte payload in clear.
///
/// Opening succeeds exactly when the tag region authenticates the header
/// and ciphertext under the direction-bound nonce; in particular a packet
/// sealed from some buffer in the same direction under the same key opens
/// to that buffer's payload.
pub fn open_packet(key: &Vec<u8>, packet: &Vec<u8>, is_request: bool) -> (r: Result<
    Vec<u8>,
    PenumError,
>)
    requires
        key@.len() == 32,
        packet@.len() == PACKET_SIZE,
    ensures
        r is Ok <==> packet_authentic(key@, packet@, is_request),
        r matches Ok(p) ==> {
            &&& p@.len() == PAYLOAD_SIZE
            &&& p@ == packet_payload(key@, packet@, is_request)
        },
        r matches Err(e) ==> e == PenumError::AuthFailure,
        forall|orig: Seq<u8>|
            is_sealed(key@, orig, is_request, packet@) ==> (r matches Ok(p) && p@ == orig.subrange(
                HEADER_SIZE as int,
                (PACKET_SIZE - TAG_SIZE) as int,
            )),
{
    let header = vec_range(packet, 0, HEADER_SIZE);
    let ct = vec_range(packet, HEADER_SIZE, PACKET_SIZE - TAG_SIZE);
    let tag = vec_range(packet, PACKET_SIZE - TAG_SIZE, PACKET_SIZE);
    let nonce = derive_nonce(key, &header, is_request);
    match aead_decrypt(key, &nonce, &header, &ct, &tag) {
        Ok(pt) => Ok(pt),
        Err(_) => Err(PenumError::AuthFailure),
    }
}

/// The request and response directions of one session never hash the same
/// nonce input: the direction tags differ in their third byte.
pub proof fn lemma_nonce_domain_separation(key: Seq<u8>, header: Seq<u8>)
    ensures
        nonce_input(key, header, true) != nonce_input(key, header, false),
{
    let a = nonce_input(key, header, true);
    let b = nonce_input(key, header, false);
    assert(a[key.len() + header.len() + 2int] == 0x71u8);
    assert(b[key.len() + header.len() + 2int] == 0x73u8);
}

/// Two packets with different headers never hash the same nonce input
/// under the same key and direction: the inputs differ inside the header
/// bytes.
pub proof fn lemma_nonce_header_freshness(
    key: Seq<u8>,
    h1: Seq<u8>,
    h2: Seq<u8>,
    is_request: bool,
)
    requires
        h1.len() == HEADER_SIZE,
        h2.len() == HEADER_SIZE,
        h1 != h2,
    ensures
        nonce_input(key, h1, is_request) != nonce_input(key, h2, is_request),
{
    if h1 =~= h2 {
        assert(h1 == h2);
    }
    let i = choose|i: int| 0 <= i < HEADER_SIZE && h1[i] != h2[i];
    assert(nonce_input(key, h1, is_request)[key.len() + i] == h1[i]);
    assert(nonce_input(key, h2, is_request)[key.len() + i] == h2[i]);
}

} // verus!
