use penum::errors::PenumError;
use penum::packet::{build_request_packet, build_response_packet, Packet};

#[test]
fn new_random_packet_is_full_size() {
    let p = Packet::new_random();
    assert_eq!(p.len(), 1024);
}

#[test]
fn request_placement_ends_before_trailer() {
    let json = b"{\"jsonrpc\":\"2.0\",\"method\":\"eth_blockNumber\",\"params\":[],\"id\":1}".to_vec();
    let p = build_request_packet(&json).unwrap();
    assert_eq!(p.len(), 1024);
    let start = 1024 - 16 - json.len() - 32;
    assert_eq!(&p[start..start + json.len()], &json[..]);
}

#[test]
fn request_of_max_size_is_accepted() {
    let json = vec![b'x'; 960];
    let p = build_request_packet(&json).unwrap();
    assert_eq!(p.len(), 1024);
    let start = 1024 - 16 - 960 - 32;
    assert_eq!(&p[start..start + 960], &json[..]);
}

#[test]
fn oversize_request_is_rejected_before_any_byte_leaves() {
    let json = vec![b'x'; 961];
    let r = build_request_packet(&json);
    assert!(matches!(r, Err(PenumError::SizeViolation)));
}

#[test]
fn response_placement_ends_at_last_payload_byte() {
    let resp = b"{\"jsonrpc\":\"2.0\",\"result\":\"0x10\",\"id\":1}".to_vec();
    let p = build_response_packet(&resp);
    assert_eq!(p.len(), 1024);
    let start = 1024 - 16 - resp.len();
    assert_eq!(&p[start..start + resp.len()], &resp[..]);
}

#[test]
fn oversize_response_is_truncated_to_payload_size() {
    let resp: Vec<u8> = (0..2000u32).map(|i| (i % 251) as u8).collect();
    let p = build_response_packet(&resp);
    assert_eq!(p.len(), 1024);
    assert_eq!(&p[32..1008], &resp[..976]);
}
