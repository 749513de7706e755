use penum::json::extract_json;

/// Padding free of braces, so the placed document is the only candidate.
fn pad(len: usize) -> Vec<u8> {
    (0..len).map(|i| ((i * 37 + 11) % 120) as u8).map(|b| if b == b'{' || b == b'}' { b'.' } else { b }).collect()
}

#[test]
fn recovers_document_placed_at_request_position() {
    let doc = b"{\"jsonrpc\":\"2.0\",\"method\":\"eth_call\",\"params\":[],\"id\":7}".to_vec();
    let mut payload = pad(976);
    // request convention: the document ends 32 bytes before the payload end
    let start = 976 - 32 - doc.len();
    payload[start..start + doc.len()].copy_from_slice(&doc);
    assert_eq!(extract_json(&payload).unwrap(), doc);
}

#[test]
fn recovers_document_placed_at_response_position() {
    let doc = b"{\"jsonrpc\":\"2.0\",\"result\":\"0x10\",\"id\":1}".to_vec();
    let mut payload = pad(976);
    let start = 976 - doc.len();
    payload[start..].copy_from_slice(&doc);
    assert_eq!(extract_json(&payload).unwrap(), doc);
}

#[test]
fn random_braces_that_do_not_parse_are_skipped() {
    let doc = b"{\"a\":1}".to_vec();
    let mut payload = pad(976);
    let start = 400;
    payload[start..start + doc.len()].copy_from_slice(&doc);
    // stray braces around the document that bracket non-JSON bytes
    payload[10] = b'{';
    payload[970] = b'}';
    payload[20] = b'}';
    payload[960] = b'{';
    assert_eq!(extract_json(&payload).unwrap(), doc);
}

#[test]
fn the_latest_ending_document_wins() {
    let early = b"{\"a\":1}".to_vec();
    let late = b"{\"b\":2}".to_vec();
    let mut payload = pad(976);
    payload[100..100 + early.len()].copy_from_slice(&early);
    payload[900..900 + late.len()].copy_from_slice(&late);
    assert_eq!(extract_json(&payload).unwrap(), late);
}

#[test]
fn the_widest_document_wins_at_one_end() {
    let doc = b"{\"outer\":{\"inner\":1}}".to_vec();
    let mut payload = pad(976);
    let start = 976 - doc.len();
    payload[start..].copy_from_slice(&doc);
    // both the whole document and its inner object end near the payload end;
    // the whole document is returned
    assert_eq!(extract_json(&payload).unwrap(), doc);
}

#[test]
fn braces_inside_string_values_do_not_confuse_the_scan() {
    let doc = b"{\"data\":\"}{\",\"ok\":true}".to_vec();
    let mut payload = pad(976);
    let start = 976 - 32 - doc.len();
    payload[start..start + doc.len()].copy_from_slice(&doc);
    assert_eq!(extract_json(&payload).unwrap(), doc);
}

#[test]
fn payload_without_json_yields_nothing() {
    let payload = pad(976);
    assert!(extract_json(&payload).is_none());
}

#[test]
fn unbalanced_braces_yield_nothing() {
    let mut payload = pad(976);
    payload[5] = b'}';
    payload[900] = b'{';
    assert!(extract_json(&payload).is_none());
}
