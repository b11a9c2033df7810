//! Coordinator-orchestrated FROST threshold signing over secp256k1.
//!
//! A fixed `(threshold, signers)` policy — 3-of-5 in the demo flows —
//! governs how many participants must cooperate to produce one Schnorr
//! signature verifiable under the group key.  The crate is organised
//! around three subsystems:
//!
//! - `signer`: one participant's key share, its nonce store, and the
//!   round-1 / round-2 operations; the store's take-and-delete makes
//!   nonce reuse impossible.
//! - `coordinator`: session state, commitment collection, signing-package
//!   assembly, share aggregation and final verification; never holds
//!   secrets.
//! - `transport` / `simulated_lora`: a fragmenting, lossy, retrying
//!   message layer modelling a constrained radio link, with an
//!   observation surface for a status dashboard.
//!
//! Around them, `api` holds the payloads that cross the service surface,
//! `hexcode` the hex codec those payloads use, and `file_store` the JSON
//! record shapes of the command-line flows together with the compute half
//! of each command.  The elliptic-curve arithmetic and the FROST
//! primitives themselves are provided by `frost-secp256k1` and are
//! invoked as opaque operations through the trusted boundary in `crypto`.

pub mod api;
pub mod coordinator;
pub mod crypto;
pub mod file_store;
pub mod hexcode;
pub mod signer;
pub mod simulated_lora;
pub mod transport;

use vstd::prelude::*;

verus! {

/// The library version.
pub fn version() -> (r: &'static str)
    ensures
        r@ == "0.1.0"@,
{
    "0.1.0"
}

/// The library name.
pub fn name() -> (r: &'static str)
    ensures
        r@ == "frost_threshold_signature"@,
{
    "frost_threshold_signature"
}

} // verus!
