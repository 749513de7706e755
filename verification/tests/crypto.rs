use penum::crypto::{derive_nonce, derive_session_key, open_packet, seal_packet, EphemeralKeys};
use penum::errors::PenumError;

fn test_key() -> Vec<u8> {
    (0..32u8).collect()
}

fn test_packet() -> Vec<u8> {
    (0..1024u32).map(|i| (i % 253) as u8).collect()
}

#[test]
fn seal_produces_full_size_ciphertext() {
    let key = test_key();
    let packet = test_packet();
    let sealed = seal_packet(&key, &packet, true);
    assert_eq!(sealed.len(), 1024);
    // the header stays in clear
    assert_eq!(&sealed[..32], &packet[..32]);
    // the payload does not
    assert_ne!(&sealed[32..1008], &packet[32..1008]);
}

#[test]
fn open_inverts_seal_in_each_direction() {
    let key = test_key();
    let packet = test_packet();
    for dir in [true, false] {
        let sealed = seal_packet(&key, &packet, dir);
        let payload = open_packet(&key, &sealed, dir).unwrap();
        assert_eq!(&payload[..], &packet[32..1008]);
    }
}

#[test]
fn open_with_flipped_direction_fails() {
    let key = test_key();
    let packet = test_packet();
    let sealed = seal_packet(&key, &packet, true);
    let r = open_packet(&key, &sealed, false);
    assert!(matches!(r, Err(PenumError::AuthFailure)));
}

#[test]
fn open_with_flipped_header_bit_fails() {
    let key = test_key();
    let packet = test_packet();
    let mut sealed = seal_packet(&key, &packet, true);
    sealed[7] ^= 0x01;
    let r = open_packet(&key, &sealed, true);
    assert!(matches!(r, Err(PenumError::AuthFailure)));
}

#[test]
fn open_with_flipped_payload_bit_fails() {
    let key = test_key();
    let packet = test_packet();
    let mut sealed = seal_packet(&key, &packet, true);
    sealed[500] ^= 0x80;
    let r = open_packet(&key, &sealed, true);
    assert!(matches!(r, Err(PenumError::AuthFailure)));
}

#[test]
fn open_with_flipped_tag_bit_fails() {
    let key = test_key();
    let packet = test_packet();
    let mut sealed = seal_packet(&key, &packet, false);
    sealed[1023] ^= 0x10;
    let r = open_packet(&key, &sealed, false);
    assert!(matches!(r, Err(PenumError::AuthFailure)));
}

#[test]
fn open_with_wrong_key_fails() {
    let key = test_key();
    let packet = test_packet();
    let sealed = seal_packet(&key, &packet, true);
    let mut other_key = test_key();
    other_key[0] ^= 0xff;
    let r = open_packet(&other_key, &sealed, true);
    assert!(matches!(r, Err(PenumError::AuthFailure)));
}

#[test]
fn nonces_differ_between_directions() {
    let key = test_key();
    let header: Vec<u8> = (100..132u8).collect();
    let req = derive_nonce(&key, &header, true);
    let res = derive_nonce(&key, &header, false);
    assert_eq!(req.len(), 12);
    assert_eq!(res.len(), 12);
    assert_ne!(req, res);
}

#[test]
fn nonces_differ_between_headers() {
    let key = test_key();
    let h1: Vec<u8> = vec![1u8; 32];
    let h2: Vec<u8> = vec![2u8; 32];
    assert_ne!(derive_nonce(&key, &h1, true), derive_nonce(&key, &h2, true));
}

#[test]
fn handshake_derives_one_session_key_on_both_sides() {
    let client = EphemeralKeys::generate();
    let server = EphemeralKeys::generate();
    let client_pub = x25519_dalek::PublicKey::from(*client.public.as_bytes());
    let server_pub = x25519_dalek::PublicKey::from(*server.public.as_bytes());
    let k_client = derive_session_key(client.diffie_hellman(&server_pub));
    let k_server = derive_session_key(server.diffie_hellman(&client_pub));
    assert_eq!(k_client.len(), 32);
    assert_eq!(k_client, k_server);
}

#[test]
fn fresh_sessions_derive_independent_keys() {
    let gateway_a = EphemeralKeys::generate();
    let gateway_b = EphemeralKeys::generate();
    let client_a = EphemeralKeys::generate();
    let client_b = EphemeralKeys::generate();
    let pub_a = x25519_dalek::PublicKey::from(*gateway_a.public.as_bytes());
    let pub_b = x25519_dalek::PublicKey::from(*gateway_b.public.as_bytes());
    let k_a = derive_session_key(client_a.diffie_hellman(&pub_a));
    let k_b = derive_session_key(client_b.diffie_hellman(&pub_b));
    assert_ne!(k_a, k_b);
}
