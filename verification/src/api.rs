//! Shared data model of the signing service: session identifiers and the
//! payloads that cross the API surface.
//!
//! Binary values (commitments, shares, signatures) travel as lower-case hex
//! strings; see `hexcode`.  Secret nonces never appear here: only their
//! public commitments are transmissible.

use vstd::prelude::*;

verus! {

/// Process-unique 128-bit identifier of one signing flow.
///
/// Created by the coordinator at session start, used as the key under which
/// signer nonces are stored and retrieved.  Cross-session isolation is
/// absolute: no state of one session can be reached through another's id.
#[derive(Debug, Clone, Copy, PartialEq, Eq, Hash, Structural)]
pub struct SessionId {
    pub id: u128,
}

/// Relies on uuid::Uuid::new_v4 for a fresh random 128-bit value; nothing can
/// be promised of a random draw.
#[verifier::external_body]
fn fresh_id_bits() -> u128 {
    uuid::Uuid::new_v4().as_u128()
}

impl SessionId {
    /// A fresh random session id.
    pub fn new() -> Self {
        SessionId { id: fresh_id_bits() }
    }
}

impl Default for SessionId {
    /// A fresh random session id; nothing can be promised of the draw.
    fn default() -> Self {
        SessionId::new()
    }
}

/// Relies on chrono::Utc::now: the current wall-clock time as milliseconds
/// since the Unix epoch.  The value depends on the clock, so nothing is
/// promised of it.
#[verifier::external_body]
pub fn now_utc_millis() -> i64 {
    chrono::Utc::now().timestamp_millis()
}

/// One signer's public round-1 output: the pair of curve points, hex-encoded.
#[derive(Debug, Clone)]
pub struct CommitmentData {
    /// The submitting signer, in `[1, n]`.
    pub signer_id: u16,
    /// Hex-encoded serialized signing commitments.
    pub commitment: String,
}

/// The canonical round-2 input: every participant's commitment plus the
/// message bytes.  Identical across all signers of one session.
#[derive(Debug, Clone)]
pub struct SigningPackageData {
    /// The participating signers' commitments.
    pub commitments: Vec<CommitmentData>,
    /// The message to sign.
    pub message: Vec<u8>,
}

/// One signer's round-2 contribution, hex-encoded.
#[derive(Debug, Clone)]
pub struct SignatureShareData {
    /// The contributing signer.
    pub signer_id: u16,
    /// Hex-encoded serialized signature share.
    pub signature_share: String,
}

/// Request to initialise a new signing group through a trusted dealer.
#[derive(Debug, Clone)]
pub struct SetupRequest {
    /// Total number of signers.
    pub max_signers: u16,
    /// Minimum number of cooperating signers for a signature.
    pub min_signers: u16,
}

/// Reply to a setup request.
#[derive(Debug, Clone)]
pub struct SetupResponse {
    /// Hex-encoded group verifying key.
    pub group_public_key: String,
    /// The signer ids that were dealt shares.
    pub signer_ids: Vec<u16>,
    /// Human-readable outcome.
    pub message: String,
}

/// Round-1 request: asks a signer to commit for a session.
#[derive(Debug, Clone)]
pub struct Round1Request {
    /// The signing flow this commitment belongs to.
    pub session_id: SessionId,
    /// The message that will be signed.
    pub message: Vec<u8>,
}

/// Round-1 reply carrying the public commitment.
#[derive(Debug, Clone)]
pub struct Round1Response {
    pub signer_id: u16,
    pub session_id: SessionId,
    /// Hex-encoded signing commitments; the secret nonce never leaves the
    /// signer.
    pub commitment: String,
    /// Milliseconds since the Unix epoch.
    pub timestamp_ms: i64,
}

/// Round-2 request: asks a signer to produce its signature share.
#[derive(Debug, Clone)]
pub struct Round2Request {
    /// Must equal the session id used in round 1.
    pub session_id: SessionId,
    /// The signing package assembled by the coordinator.
    pub signing_package: SigningPackageData,
}

/// Round-2 reply carrying the signature share.
#[derive(Debug, Clone)]
pub struct Round2Response {
    pub signer_id: u16,
    pub session_id: SessionId,
    /// Hex-encoded signature share.
    pub signature_share: String,
    /// Milliseconds since the Unix epoch.
    pub timestamp_ms: i64,
}

/// Request to aggregate collected signature shares.
#[derive(Debug, Clone)]
pub struct AggregateRequest {
    pub session_id: SessionId,
    pub signature_shares: Vec<SignatureShareData>,
}

/// Reply to an aggregation request.
#[derive(Debug, Clone)]
pub struct AggregateResponse {
    pub session_id: SessionId,
    /// Hex-encoded final Schnorr signature.
    pub signature: String,
    /// Whether the signature verified under the group key.
    pub verified: bool,
    /// Human-readable outcome.
    pub message: String,
}

/// Structured error body: `{error_code, message, details?}`.
#[derive(Debug, Clone)]
pub struct ErrorResponse {
    /// Machine-readable code.
    pub error_code: String,
    /// Human-readable message.
    pub message: String,
    /// Optional debugging detail.
    pub details: Option<String>,
}

impl ErrorResponse {
    /// A response with the given code and message and no details.
    pub fn new(error_code: String, message: String) -> (r: ErrorResponse)
        ensures
            r.error_code == error_code,
            r.message == message,
            r.details is None,
    {
        ErrorResponse { error_code, message, details: None }
    }

    /// The same response with the detail field filled in.
    pub fn with_details(self, details: String) -> (r: ErrorResponse)
        ensures
            r.error_code == self.error_code,
            r.message == self.message,
            r.details == Some(details),
    {
        ErrorResponse { details: Some(details), ..self }
    }
}

} // verus!
