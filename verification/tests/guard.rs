use penum::errors::PenumError;
use penum::gateway::{evaluate_request, route_url, GatewayConfig, UpstreamRoute};
use penum::guard::{check_tx_params, guard_decision, GuardDecision};

fn send_raw(params: &str) -> Vec<u8> {
    let mut v = b"{\"jsonrpc\":\"2.0\",\"method\":\"eth_sendRawTransaction\",\"params\":".to_vec();
    v.extend_from_slice(params.as_bytes());
    v.extend_from_slice(b",\"id\":1}");
    v
}

const VALID_TX: &str = "[\"0x02f87001018459682f00\"]";

#[test]
fn closed_mempool_without_blocker_rejects_transactions() {
    let r = evaluate_request(&send_raw(VALID_TX), false, false);
    assert!(matches!(r, Err(PenumError::PrivacyPolicyViolation)));
}

#[test]
fn closed_mempool_with_blocker_routes_to_blocker() {
    let r = evaluate_request(&send_raw(VALID_TX), false, true);
    assert_eq!(r.unwrap(), UpstreamRoute::MevBlocker);
}

#[test]
fn open_mempool_forwards_transactions_to_provider() {
    let r = evaluate_request(&send_raw(VALID_TX), true, false);
    assert_eq!(r.unwrap(), UpstreamRoute::Provider);
}

#[test]
fn params_not_an_array_is_rejected() {
    let r = evaluate_request(&send_raw("\"0x02f87001018459682f00\""), true, true);
    assert!(matches!(r, Err(PenumError::InvalidRequest)));
}

#[test]
fn first_param_without_0x_prefix_is_rejected() {
    let r = evaluate_request(&send_raw("[\"02f87001018459682f00\"]"), true, true);
    assert!(matches!(r, Err(PenumError::InvalidRequest)));
}

#[test]
fn short_first_param_is_rejected() {
    let r = evaluate_request(&send_raw("[\"0x02f87\"]"), true, true);
    assert!(matches!(r, Err(PenumError::InvalidRequest)));
}

#[test]
fn privacy_intent_without_private_route_is_rejected() {
    let json = send_raw("[\"0x02f87001018459682f00\",{\"privacy\":true}]");
    let r = evaluate_request(&json, false, false);
    assert!(matches!(r, Err(PenumError::PrivacyPolicyViolation)));
}

#[test]
fn privacy_intent_with_blocker_routes_to_blocker() {
    let json = send_raw("[\"0x02f87001018459682f00\",{\"mevBlocker\":1}]");
    let r = evaluate_request(&json, false, true);
    assert_eq!(r.unwrap(), UpstreamRoute::MevBlocker);
}

#[test]
fn other_methods_bypass_the_guard() {
    let json = b"{\"jsonrpc\":\"2.0\",\"method\":\"eth_call\",\"params\":[],\"id\":1}".to_vec();
    assert_eq!(evaluate_request(&json, false, false).unwrap(), UpstreamRoute::Provider);
}

#[test]
fn invalid_shape_is_rejected_before_the_guard() {
    let json = b"{\"jsonrpc\":\"1.0\",\"method\":\"eth_call\",\"params\":[],\"id\":1}".to_vec();
    assert!(matches!(evaluate_request(&json, true, true), Err(PenumError::InvalidRequest)));
}

#[test]
fn tx_params_checks_prefix_and_length() {
    assert!(check_tx_params(true, &Some("0x12345678aa".to_string())));
    assert!(!check_tx_params(false, &Some("0x12345678aa".to_string())));
    assert!(!check_tx_params(true, &None));
    assert!(!check_tx_params(true, &Some("0x1234".to_string())));
    assert!(!check_tx_params(true, &Some("1x12345678aa".to_string())));
}

#[test]
fn blocked_transactions_are_posted_to_the_blocker_not_the_provider() {
    let config = GatewayConfig {
        listen_addr: "127.0.0.1".to_string(),
        listen_port: 9003,
        rpc_provider_url: "https://rpc.example/default".to_string(),
        allow_public_mempool: false,
        mev_blocker_url: Some("https://mev.example".to_string()),
    };
    let route = evaluate_request(&send_raw(VALID_TX), false, true).unwrap();
    assert_eq!(route, UpstreamRoute::MevBlocker);
    assert_eq!(route_url(&config, route).unwrap(), "https://mev.example");
    assert_eq!(
        route_url(&config, UpstreamRoute::Provider).unwrap(),
        "https://rpc.example/default"
    );
}

#[test]
fn a_missing_blocker_endpoint_yields_no_url_at_all() {
    let config = GatewayConfig {
        listen_addr: "127.0.0.1".to_string(),
        listen_port: 9003,
        rpc_provider_url: "https://rpc.example/default".to_string(),
        allow_public_mempool: false,
        mev_blocker_url: None,
    };
    assert!(route_url(&config, UpstreamRoute::MevBlocker).is_none());
}

#[test]
fn guard_decision_follows_the_rules_in_order() {
    let p = Some("0x12345678aa".to_string());
    assert_eq!(guard_decision(true, &p, false, false, false), GuardDecision::RejectPolicy);
    assert_eq!(guard_decision(true, &p, true, false, false), GuardDecision::RejectPolicy);
    assert_eq!(guard_decision(true, &p, true, false, true), GuardDecision::ForwardMevBlocker);
    assert_eq!(guard_decision(true, &p, false, true, false), GuardDecision::ForwardDefault);
    assert_eq!(guard_decision(false, &p, false, true, true), GuardDecision::RejectMalformed);
}
