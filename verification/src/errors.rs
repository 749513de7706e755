//! Error taxonomy of the tunnel library.
//!
//! Every failure on the gateway side is reported to the peer only by dropping
//! the connection; the client side translates failures into generic JSON-RPC
//! error objects. No variant carries content-identifying data.

use vstd::prelude::*;

verus! {

/// What went wrong inside the tunnel logic.
#[derive(Clone, Copy, PartialEq, Eq, Structural, Debug)]
pub enum PenumError {
    /// A request larger than the space the fixed-size packet reserves for it.
    SizeViolation,
    /// The AEAD tag did not authenticate the packet.
    AuthFailure,
    /// No JSON-RPC document could be recovered from a decrypted payload,
    /// or the recovered document is not shaped like one.
    MalformedEnvelope,
    /// The request failed the gateway's structural validation.
    InvalidRequest,
    /// The transaction privacy guard refused the request.
    PrivacyPolicyViolation,
}

impl PenumError {
    /// A short description, for the client side's generic diagnostics only.
    pub fn describe(&self) -> (r: &'static str)
        ensures
            r@ == match self {
                PenumError::SizeViolation => "request too large"@,
                PenumError::AuthFailure => "authentication failed"@,
                PenumError::MalformedEnvelope => "malformed envelope"@,
                PenumError::InvalidRequest => "invalid request"@,
                PenumError::PrivacyPolicyViolation => "privacy policy violation"@,
            },
    {
        match self {
            PenumError::SizeViolation => "request too large",
            PenumError::AuthFailure => "authentication failed",
            PenumError::MalformedEnvelope => "malformed envelope",
            PenumError::InvalidRequest => "invalid request",
            PenumError::PrivacyPolicyViolation => "privacy policy violation",
        }
    }
}

} // verus!
