//! The human-verification round trip, modelled from the library's side. The
//! outbound POST itself is transport and lives outside the library; here are
//! the request body it carries, the response body it expects back, and the
//! typed outcome the orchestrator consumes. Any transport or protocol failure
//! is treated by the caller as "verification unavailable".

use vstd::prelude::*;
use crate::config::HCaptchaConfig;

verus! {

/// The JSON body the verification provider answers with; only the boolean
/// `success` field matters to this service.
pub struct VerifyResponse {
    pub success: bool,
}

/// The form-encoded body of the outbound verification call.
pub struct VerifyRequest<'a> {
    pub secret: &'a str,
    pub response: &'a str,
}

/// Why a verification call failed: the connection timed out or broke, or the
/// provider answered with something other than the expected JSON.
#[derive(Clone, Copy, PartialEq, Eq, Structural, Debug)]
pub enum VerificationError {
    Timeout,
    Transport,
    MalformedResponse,
}

/// What one verification round trip came to: the provider's boolean verdict,
/// or a failure that leaves the verdict unknown.
#[derive(Clone, Copy, PartialEq, Eq, Structural, Debug)]
pub enum VerificationOutcome {
    Verified(bool),
    Unavailable(VerificationError),
}

/// Builds the body of the verification call: the configured secret paired
/// with the submitted token.
pub fn verify_request<'a>(cfg: &'a HCaptchaConfig, token: &'a str) -> (r: VerifyRequest<'a>)
    ensures
        r.secret@ == cfg.secret_key@,
        r.response@ == token@,
{
    VerifyRequest { secret: cfg.secret_key.as_str(), response: token }
}

impl VerifyResponse {
    /// Reads the provider's verdict out of a well-formed response.
    pub fn outcome(&self) -> (r: VerificationOutcome)
        ensures
            r == VerificationOutcome::Verified(self.success),
    {
        VerificationOutcome::Verified(self.success)
    }
}

} // verus!
