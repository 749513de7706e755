//! Gateway-side request processing.
//!
//! One connection carries one exchange: the gateway opens the request
//! packet, recovers and validates the JSON-RPC document, consults the
//! transaction privacy guard, and — once the upstream answered — packs the
//! response into a fresh random packet sealed in the response direction.
//! The socket work and the upstream HTTP call stay outside the library;
//! everything the gateway decides is here.

use vstd::prelude::*;
use crate::crypto::{is_sealed, open_packet, packet_authentic, packet_payload, seal_packet};
use crate::errors::PenumError;
use crate::guard::{guard_decision, guard_decision_spec, tx_params_well_formed, GuardDecision};
use crate::json::{
    extract_json, first_param_of, is_candidate, is_chosen, json_first_param, json_method_field,
    json_params_is_array, json_privacy_intent, method_field_of, params_is_array_of,
    privacy_intent_of,
};
use crate::packet::{
    build_response_packet, response_placed_len, response_start, PACKET_SIZE, TAG_SIZE,
};
use crate::rpc::{request_valid, str_eq, validate_request};

verus! {

/// Where the gateway sends a request it decided to forward.
#[derive(Clone, Copy, PartialEq, Eq, Structural, Debug)]
pub enum UpstreamRoute {
    /// The default RPC provider.
    Provider,
    /// The configured MEV-blocker endpoint.
    MevBlocker,
}

/// The gateway's persisted configuration.
pub struct GatewayConfig {
    pub listen_addr: String,
    pub listen_port: u16,
    pub rpc_provider_url: String,
    pub allow_public_mempool: bool,
    pub mev_blocker_url: Option<String>,
}

impl core::default::Default for GatewayConfig {
    /// A local gateway that keeps transactions out of the public mempool
    /// and has no private endpoint configured.
    fn default() -> (r: Self)
        ensures
            r.listen_addr@ == "127.0.0.1"@,
            r.listen_port == 9003,
            r.rpc_provider_url@ == "https://eth-mainnet.g.alchemy.com/v2/YOUR_API_KEY"@,
            !r.allow_public_mempool,
            r.mev_blocker_url is None,
    {
        GatewayConfig {
            listen_addr: "127.0.0.1".to_owned(),
            listen_port: 9003,
            rpc_provider_url: "https://eth-mainnet.g.alchemy.com/v2/YOUR_API_KEY".to_owned(),
            allow_public_mempool: false,
            mev_blocker_url: None,
        }
    }
}

/// What the gateway does with a recovered request document: invalid shapes
/// are refused; every method other than `eth_sendRawTransaction` goes to
/// the default provider; a transaction submission follows the privacy
/// guard.
pub open spec fn request_route_spec(s: Seq<u8>, allow_public_mempool: bool, has_mev_blocker: bool) -> Result<
    UpstreamRoute,
    PenumError,
> {
    if !request_valid(s) {
        Err(PenumError::InvalidRequest)
    } else if method_field_of(s) != Some("eth_sendRawTransaction"@) {
        Ok(UpstreamRoute::Provider)
    } else {
        match guard_decision_spec(
            tx_params_well_formed(params_is_array_of(s), first_param_of(s)),
            privacy_intent_of(s),
            allow_public_mempool,
            has_mev_blocker,
        ) {
            GuardDecision::ForwardDefault => Ok(UpstreamRoute::Provider),
            GuardDecision::ForwardMevBlocker => Ok(UpstreamRoute::MevBlocker),
            GuardDecision::RejectMalformed => Err(PenumError::InvalidRequest),
            GuardDecision::RejectPolicy => Err(PenumError::PrivacyPolicyViolation),
        }
    }
}

/// Validate a recovered request document and route it.
pub fn evaluate_request(json: &Vec<u8>, allow_public_mempool: bool, has_mev_blocker: bool) -> (r:
    Result<UpstreamRoute, PenumError>)
    ensures
        r == request_route_spec(json@, allow_public_mempool, has_mev_blocker),
{
    if !validate_request(json) {
        return Err(PenumError::InvalidRequest);
    }
    let is_send_raw = match json_method_field(json.as_slice()) {
        Some(m) => str_eq(m.as_str(), "eth_sendRawTransaction"),
        None => false,
    };
    if !is_send_raw {
        return Ok(UpstreamRoute::Provider);
    }
    let params_is_array = json_params_is_array(json.as_slice());
    let first_param = json_first_param(json.as_slice());
    let privacy_intent = json_privacy_intent(json.as_slice());
    match guard_decision(
        params_is_array,
        &first_param,
        privacy_intent,
        allow_public_mempool,
        has_mev_blocker,
    ) {
        GuardDecision::ForwardDefault => Ok(UpstreamRoute::Provider),
        GuardDecision::ForwardMevBlocker => Ok(UpstreamRoute::MevBlocker),
        GuardDecision::RejectMalformed => Err(PenumError::InvalidRequest),
        GuardDecision::RejectPolicy => Err(PenumError::PrivacyPolicyViolation),
    }
}

/// Open a request packet, recover the JSON-RPC document placed in it, and
/// route it. On success the document and its route are returned; every
/// failure is a single error with nothing else observable.
///
/// When the public mempool is closed and no MEV-blocker endpoint is
/// configured, no `eth_sendRawTransaction` request ever comes back
/// routable: the last clause of the contract rules it out.
pub fn process_request_packet(
    key: &Vec<u8>,
    packet: &Vec<u8>,
    allow_public_mempool: bool,
    has_mev_blocker: bool,
) -> (r: Result<(Vec<u8>, UpstreamRoute), PenumError>)
    requires
        key@.len() == 32,
        packet@.len() == PACKET_SIZE,
    ensures
        !packet_authentic(key@, packet@, true) ==> r == Err::<(Vec<u8>, UpstreamRoute),
        PenumError>(PenumError::AuthFailure),
        (packet_authentic(key@, packet@, true) && (forall|s: int, e: int|
            !is_candidate(packet_payload(key@, packet@, true), s, e))) ==> r == Err::<
            (Vec<u8>, UpstreamRoute),
            PenumError,
        >(PenumError::MalformedEnvelope),
        r matches Ok((json, route)) ==> {
            &&& packet_authentic(key@, packet@, true)
            &&& exists|s: int, e: int|
                is_chosen(packet_payload(key@, packet@, true), s, e) && json@ == packet_payload(
                    key@,
                    packet@,
                    true,
                ).subrange(s, e)
            &&& request_route_spec(json@, allow_public_mempool, has_mev_blocker) == Ok::<
                UpstreamRoute,
                PenumError,
            >(route)
        },
        r matches Ok((json, route)) && method_field_of(json@) == Some(
            "eth_sendRawTransaction"@,
        ) && !allow_public_mempool && !has_mev_blocker ==> false,
        forall|s: int, e: int|
            (packet_authentic(key@, packet@, true) && is_chosen(
                packet_payload(key@, packet@, true),
                s,
                e,
            )) ==> match request_route_spec(
                packet_payload(key@, packet@, true).subrange(s, e),
                allow_public_mempool,
                has_mev_blocker,
            ) {
                Ok(route) => r matches Ok((json, rt)) && json@ == packet_payload(
                    key@,
                    packet@,
                    true,
                ).subrange(s, e) && rt == route,
                Err(e2) => r == Err::<(Vec<u8>, UpstreamRoute), PenumError>(e2),
            },
{
    let payload = match open_packet(key, packet, true) {
        Ok(p) => p,
        Err(_) => {
            return Err(PenumError::AuthFailure);
        },
    };
    let json = match extract_json(&payload) {
        Some(j) => j,
        None => {
            return Err(PenumError::MalformedEnvelope);
        },
    };
    proof {
        assert forall|s: int, e: int| is_chosen(payload@, s, e) implies payload@.subrange(s, e)
            == json@ by {
            let (s1, e1) = choose|s1: int, e1: int|
                is_chosen(payload@, s1, e1) && json@ == payload@.subrange(s1, e1);
            crate::json::lemma_chosen_unique(payload@, s, e, s1, e1);
        }
    }
    match evaluate_request(&json, allow_public_mempool, has_mev_blocker) {
        Ok(route) => Ok((json, route)),
        Err(e) => Err(e),
    }
}

/// The URL a routed request is posted to: the default provider for
/// `Provider`, the configured MEV-blocker endpoint for `MevBlocker`.
/// Nothing is returned when the chosen endpoint is not configured, and a
/// routed transaction is then dropped rather than sent anywhere else.
pub fn route_url(config: &GatewayConfig, route: UpstreamRoute) -> (r: Option<String>)
    ensures
        route == UpstreamRoute::Provider ==> (r matches Some(u) && u@
            == config.rpc_provider_url@),
        route == UpstreamRoute::MevBlocker ==> match config.mev_blocker_url {
            Some(u) => r matches Some(v) && v@ == u@,
            None => r is None,
        },
{
    match route {
        UpstreamRoute::Provider => Some(config.rpc_provider_url.clone()),
        UpstreamRoute::MevBlocker => match &config.mev_blocker_url {
            Some(u) => Some(u.clone()),
            None => None,
        },
    }
}

/// Pack an upstream response into a fresh random packet, truncated to the
/// payload size if oversize, and seal it in the response direction: the
/// result is the sealing of some 1024-byte buffer that carries the
/// response at the end of its payload.
pub fn build_gateway_response(key: &Vec<u8>, response_json: &Vec<u8>) -> (r: Vec<u8>)
    requires
        key@.len() == 32,
    ensures
        r@.len() == PACKET_SIZE,
        exists|base: Seq<u8>|
            {
                &&& base.len() == PACKET_SIZE
                &&& base.subrange(
                    response_start(response_placed_len(response_json@.len() as int)),
                    (PACKET_SIZE - TAG_SIZE) as int,
                ) == response_json@.take(response_placed_len(response_json@.len() as int))
                &&& is_sealed(key@, base, false, r@)
            },
{
    let base = build_response_packet(response_json);
    let sealed = seal_packet(key, &base, false);
    proof {
        assert(base@.len() == PACKET_SIZE && base@.subrange(
            response_start(response_placed_len(response_json@.len() as int)),
            (PACKET_SIZE - TAG_SIZE) as int,
        ) == response_json@.take(response_placed_len(response_json@.len() as int)) && is_sealed(
            key@,
            base@,
            false,
            sealed@,
        ));
    }
    sealed
}

} // verus!
