//! Transaction privacy guard.
//!
//! `eth_sendRawTransaction` is the one call that can leak a pending
//! transaction to the public mempool. Before the gateway forwards it, the
//! guard checks the parameter shape and the gateway's policy, and decides
//! whether the call goes to the default provider, to the MEV-blocker
//! endpoint, or nowhere at all. Every other method bypasses the guard.

use vstd::prelude::*;
use vstd::string::StrSliceExecFns;

verus! {

/// What the guard decides for an `eth_sendRawTransaction` call.
#[derive(Clone, Copy, PartialEq, Eq, Structural, Debug)]
pub enum GuardDecision {
    /// Forward to the default upstream provider.
    ForwardDefault,
    /// Forward to the configured MEV-blocker endpoint instead.
    ForwardMevBlocker,
    /// Refuse: the transaction parameters are not well formed.
    RejectMalformed,
    /// Refuse: the policy forbids the public mempool and no private
    /// endpoint is configured.
    RejectPolicy,
}

/// Well-formed `eth_sendRawTransaction` parameters: `params` is an array
/// whose first element is a `0x`-prefixed string of at least 10
/// characters.
pub open spec fn tx_params_well_formed(params_is_array: bool, first_param: Option<Seq<char>>) -> bool {
    &&& params_is_array
    &&& (first_param matches Some(p) && p.len() >= 10 && p[0] == '0' && p[1] == 'x')
}

/// The guard's rules, in order: malformed parameters are refused; declared
/// privacy intent with no private route is refused; a closed public
/// mempool routes to the MEV blocker when one is configured and is refused
/// otherwise; an open public mempool forwards to the default provider.
pub open spec fn guard_decision_spec(
    params_ok: bool,
    privacy_intent: bool,
    allow_public_mempool: bool,
    has_mev_blocker: bool,
) -> GuardDecision {
    if !params_ok {
        GuardDecision::RejectMalformed
    } else if privacy_intent && !allow_public_mempool && !has_mev_blocker {
        GuardDecision::RejectPolicy
    } else if !allow_public_mempool {
        if has_mev_blocker {
            GuardDecision::ForwardMevBlocker
        } else {
            GuardDecision::RejectPolicy
        }
    } else {
        GuardDecision::ForwardDefault
    }
}

/// Whether the first transaction parameter is a `0x`-prefixed string of at
/// least 10 characters.
pub fn check_tx_params(params_is_array: bool, first_param: &Option<String>) -> (r: bool)
    ensures
        r == tx_params_well_formed(
            params_is_array,
            match first_param {
                Some(p) => Some(p@),
                None => None,
            },
        ),
{
    if !params_is_array {
        return false;
    }
    match first_param {
        Some(p) => {
            let len = p.as_str().unicode_len();
            if len < 10 {
                false
            } else {
                p.as_str().get_char(0) == '0' && p.as_str().get_char(1) == 'x'
            }
        },
        None => false,
    }
}

/// Decide the fate of an `eth_sendRawTransaction` call from its parameter
/// shape and the gateway policy.
pub fn guard_decision(
    params_is_array: bool,
    first_param: &Option<String>,
    privacy_intent: bool,
    allow_public_mempool: bool,
    has_mev_blocker: bool,
) -> (r: GuardDecision)
    ensures
        r == guard_decision_spec(
            tx_params_well_formed(
                params_is_array,
                match first_param {
                    Some(p) => Some(p@),
                    None => None,
                },
            ),
            privacy_intent,
            allow_public_mempool,
            has_mev_blocker,
        ),
{
    let params_ok = check_tx_params(params_is_array, first_param);
    if !params_ok {
        GuardDecision::RejectMalformed
    } else if privacy_intent && !allow_public_mempool && !has_mev_blocker {
        GuardDecision::RejectPolicy
    } else if !allow_public_mempool {
        if has_mev_blocker {
            GuardDecision::ForwardMevBlocker
        } else {
            GuardDecision::RejectPolicy
        }
    } else {
        GuardDecision::ForwardDefault
    }
}

/// When the public mempool is closed and no MEV-blocker endpoint is
/// configured, the guard refuses every `eth_sendRawTransaction` call: no
/// such transaction is ever forwarded anywhere.
pub proof fn lemma_closed_mempool_never_forwards(params_ok: bool, privacy_intent: bool)
    ensures
        guard_decision_spec(params_ok, privacy_intent, false, false)
            != GuardDecision::ForwardDefault,
        guard_decision_spec(params_ok, privacy_intent, false, false)
            != GuardDecision::ForwardMevBlocker,
{
}

/// When the public mempool is closed, the guard never forwards a
/// transaction to the default provider, whatever the parameters and
/// whatever endpoint is configured.
pub proof fn lemma_closed_mempool_never_default(
    params_ok: bool,
    privacy_intent: bool,
    has_mev_blocker: bool,
)
    ensures
        guard_decision_spec(params_ok, privacy_intent, false, has_mev_blocker)
            != GuardDecision::ForwardDefault,
{
}

} // verus!
