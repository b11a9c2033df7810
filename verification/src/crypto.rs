//! Trusted boundary to the FROST(secp256k1, SHA-256) primitives.
//!
//! The elliptic-curve arithmetic and the FROST operations (`commit`,
//! `sign`, `aggregate`, `verify`) are provided by `frost-secp256k1` and are
//! opaque here.  The generic parameter of the crate's types is bounded by
//! its own `Ciphersuite` trait, which cannot be declared to the verifier,
//! so each value is carried in an opaque newtype of this module instead.
//! Each primitive call is made by one wrapper whose contract states what
//! the crate's source shows; results that are functions of their arguments
//! alone are given names (uninterpreted spec functions), while random
//! results get none.

use vstd::prelude::*;

use crate::hexcode::{hex_encode, hex_seq_of};

verus! {

// ------------------------------------------------------------------
// Opaque carriers for the FROST values.  The verifier sees nothing
// inside them; the protocol logic only moves them around.
// ------------------------------------------------------------------
/// A signer's secret share, dealt once and immutable.  Never leaves the
/// signer boundary.
#[verifier::external_body]
pub struct SecretShare {
    inner: frost_secp256k1::keys::SecretShare,
}

/// A signer's validated signing key package.
#[verifier::external_body]
pub struct KeyPackage {
    inner: frost_secp256k1::keys::KeyPackage,
}

/// The group verifying key plus per-signer public commitments; may be
/// published freely.
#[verifier::external_body]
pub struct PublicKeyPackage {
    inner: frost_secp256k1::keys::PublicKeyPackage,
}

/// The group verifying key alone.
#[verifier::external_body]
pub struct VerifyingKey {
    inner: frost_secp256k1::VerifyingKey,
}

/// The secret counterpart of a commitment: two random scalars.  Must be
/// consumed at most once; zeroized on drop by the underlying crate.
#[verifier::external_body]
pub struct SigningNonces {
    inner: frost_secp256k1::round1::SigningNonces,
}

/// The public round-1 output of one signer: a pair of curve points.
#[verifier::external_body]
pub struct SigningCommitments {
    inner: frost_secp256k1::round1::SigningCommitments,
}

/// One signer's round-2 contribution: a single scalar.
#[verifier::external_body]
pub struct SignatureShare {
    inner: frost_secp256k1::round2::SignatureShare,
}

/// The canonical round-2 input in the primitives' own representation.
#[verifier::external_body]
pub struct SigningPackage {
    inner: frost_secp256k1::SigningPackage,
}

/// A Schnorr signature `(R, z)` verifiable under the group key.
#[verifier::external_body]
pub struct GroupSignature {
    inner: frost_secp256k1::Signature,
}

// ------------------------------------------------------------------
// Names for the deterministic results of the primitives.  Each is
// applied by exactly one wrapper below; the verifier learns of them
// only what those contracts state.
// ------------------------------------------------------------------
/// The byte encoding of a set of signing commitments, if they serialize.
pub uninterp spec fn commitment_encoding(c: SigningCommitments) -> Option<Seq<u8>>;

/// What deserializing bytes as signing commitments yields, if anything.
pub uninterp spec fn parse_commitments(b: Seq<u8>) -> Option<SigningCommitments>;

/// What validating a secret share into a signing key package yields.
pub uninterp spec fn key_package_check(s: SecretShare) -> Option<KeyPackage>;

/// The signing package built from identifier/commitment pairs and a message.
pub uninterp spec fn package_of(pairs: Seq<(u16, SigningCommitments)>, msg: Seq<u8>) -> SigningPackage;

/// What one round-2 signing call yields: a share, or a failure.
pub uninterp spec fn sign_result(p: SigningPackage, n: SigningNonces, k: KeyPackage) -> Option<
    SignatureShare,
>;

/// The byte encoding of a signature share.
pub uninterp spec fn share_encoding(s: SignatureShare) -> Seq<u8>;

/// What deserializing bytes as a signature share yields, if anything.
pub uninterp spec fn parse_share(b: Seq<u8>) -> Option<SignatureShare>;

/// The byte encoding of a Schnorr signature, if it serializes.
pub uninterp spec fn signature_encoding(s: GroupSignature) -> Option<Seq<u8>>;

/// What deserializing bytes as a Schnorr signature yields, if anything.
pub uninterp spec fn parse_signature(b: Seq<u8>) -> Option<GroupSignature>;

/// What aggregating shares over a signing package yields: the group
/// signature, or a failure.
pub uninterp spec fn aggregate_result(
    p: SigningPackage,
    shares: Seq<(u16, SignatureShare)>,
    pk: PublicKeyPackage,
) -> Option<GroupSignature>;

/// The group verifying key held inside a public key package.
pub uninterp spec fn vk_of(p: PublicKeyPackage) -> VerifyingKey;

/// The byte encoding of a verifying key, if it serializes.
pub uninterp spec fn key_encoding(k: VerifyingKey) -> Option<Seq<u8>>;

/// Whether a signature verifies under a key for a message.  Verification
/// is a pure function of the three: it cannot depend on which subset of
/// signers produced the signature.
pub uninterp spec fn signature_valid(k: VerifyingKey, msg: Seq<u8>, sig: GroupSignature) -> bool;

/// The byte encoding of a set of signing nonces, if they serialize.
pub uninterp spec fn nonce_encoding(n: SigningNonces) -> Option<Seq<u8>>;

/// What deserializing bytes as signing nonces yields, if anything.
pub uninterp spec fn parse_nonces(b: Seq<u8>) -> Option<SigningNonces>;

/// The byte encoding of a secret share, if it serializes.
pub uninterp spec fn secret_share_encoding(s: SecretShare) -> Option<Seq<u8>>;

/// What deserializing bytes as a secret share yields, if anything.
pub uninterp spec fn parse_secret_share(b: Seq<u8>) -> Option<SecretShare>;

/// The byte encoding of a public key package, if it serializes.
pub uninterp spec fn pubkey_package_encoding(p: PublicKeyPackage) -> Option<Seq<u8>>;

/// What deserializing bytes as a public key package yields, if anything.
pub uninterp spec fn parse_pubkey_package(b: Seq<u8>) -> Option<PublicKeyPackage>;

// ------------------------------------------------------------------
// Wrappers: one per primitive call the protocol logic makes.
// ------------------------------------------------------------------
/// Relies on frost_secp256k1::keys::generate_with_dealer with
/// IdentifierList::Default: it fails exactly when `min_signers < 2`,
/// `max_signers < 2` or `min_signers > max_signers` — with the default
/// identifier list and a dealer-drawn key, no other failure path exists —
/// and on success it deals one share per identifier 1..=max_signers,
/// returned here in ascending identifier order.  The shares are random,
/// so nothing more is promised of them.
#[verifier::external_body]
pub(crate) fn dealer_keygen(max_signers: u16, min_signers: u16) -> (r: Result<
    (Vec<SecretShare>, PublicKeyPackage),
    String,
>)
    ensures
        r is Ok <==> (2 <= min_signers && min_signers <= max_signers),
        r matches Ok(p) ==> p.0@.len() == max_signers as nat,
{
    let mut rng = rand::thread_rng();
    let (shares, pk) = frost_secp256k1::keys::generate_with_dealer(
        max_signers,
        min_signers,
        frost_secp256k1::keys::IdentifierList::Default,
        &mut rng,
    ).map_err(|e| format!("{:?}", e))?;
    let shares: Vec<SecretShare> = shares.into_values().map(|s| SecretShare { inner: s }).collect();
    Ok((shares, PublicKeyPackage { inner: pk }))
}

/// Relies on frost_secp256k1::round1::commit with a fresh thread-local
/// cryptographic RNG.  The nonces are random, so nothing is promised of
/// the result.
#[verifier::external_body]
pub(crate) fn frost_commit(share: &SecretShare) -> (r: (SigningNonces, SigningCommitments)) {
    let mut rng = rand::thread_rng();
    let (nonces, commitments) = frost_secp256k1::round1::commit(
        share.inner.signing_share(),
        &mut rng,
    );
    (SigningNonces { inner: nonces }, SigningCommitments { inner: commitments })
}

/// Relies on SigningCommitments::serialize: a deterministic encoding of the
/// commitment points, which SigningCommitments::deserialize inverts.
#[verifier::external_body]
pub(crate) fn commitments_serialize(c: &SigningCommitments) -> (r: Result<Vec<u8>, String>)
    ensures
        r is Ok <==> commitment_encoding(*c) is Some,
        r matches Ok(v) ==> Some(v@) == commitment_encoding(*c),
        r matches Ok(v) ==> parse_commitments(v@) == Some(*c),
{
    c.inner.serialize().map_err(|e| format!("{:?}", e))
}

/// Relies on SigningCommitments::deserialize: a deterministic parse of the
/// commitment points, failing on malformed bytes.
#[verifier::external_body]
pub(crate) fn commitments_deserialize(b: &[u8]) -> (r: Result<SigningCommitments, String>)
    ensures
        r is Ok <==> parse_commitments(b@) is Some,
        r matches Ok(c) ==> parse_commitments(b@) == Some(c),
{
    frost_secp256k1::round1::SigningCommitments::deserialize(b)
        .map(|c| SigningCommitments { inner: c })
        .map_err(|e| format!("{:?}", e))
}

/// Relies on KeyPackage::try_from(SecretShare): deterministic validation of
/// the share against its commitment.
#[verifier::external_body]
pub(crate) fn key_package_of(share: &SecretShare) -> (r: Result<KeyPackage, String>)
    ensures
        r is Ok <==> key_package_check(*share) is Some,
        r matches Ok(k) ==> key_package_check(*share) == Some(k),
{
    frost_secp256k1::keys::KeyPackage::try_from(share.inner.clone())
        .map(|k| KeyPackage { inner: k })
        .map_err(|e| format!("{:?}", e))
}

/// Relies on SigningPackage::new and Identifier::try_from: the package is a
/// plain construction from the commitment map and the message, and
/// Identifier::try_from(n) succeeds for every n > 0.
#[verifier::external_body]
pub(crate) fn new_signing_package(pairs: &Vec<(u16, SigningCommitments)>, message: &[u8]) -> (r:
    SigningPackage)
    requires
        forall|i: int| 0 <= i < pairs@.len() ==> (#[trigger] pairs@[i]).0 != 0,
    ensures
        r == package_of(pairs@, message@),
{
    let map: std::collections::BTreeMap<_, _> = pairs
        .iter()
        .map(
            |(id, c)| (frost_secp256k1::Identifier::try_from(*id).unwrap(), c.inner.clone()),
        )
        .collect();
    SigningPackage { inner: frost_secp256k1::SigningPackage::new(map, message) }
}

/// Relies on frost_secp256k1::round2::sign: deterministic given the
/// package, the nonces and the key package.
#[verifier::external_body]
pub(crate) fn frost_sign(package: &SigningPackage, nonces: &SigningNonces, key: &KeyPackage) -> (r: Result<
    SignatureShare,
    String,
>)
    ensures
        r is Ok <==> sign_result(*package, *nonces, *key) is Some,
        r matches Ok(s) ==> sign_result(*package, *nonces, *key) == Some(s),
{
    frost_secp256k1::round2::sign(&package.inner, &nonces.inner, &key.inner)
        .map(|s| SignatureShare { inner: s })
        .map_err(|e| format!("{:?}", e))
}

/// Relies on SignatureShare::serialize: a deterministic, infallible
/// encoding of the share scalar, which SignatureShare::deserialize
/// inverts.
#[verifier::external_body]
pub(crate) fn share_serialize(s: &SignatureShare) -> (r: Vec<u8>)
    ensures
        r@ == share_encoding(*s),
        parse_share(r@) == Some(*s),
{
    s.inner.serialize()
}

/// Relies on SignatureShare::deserialize: a deterministic parse of the
/// share scalar, failing on malformed bytes.
#[verifier::external_body]
pub(crate) fn share_deserialize(b: &[u8]) -> (r: Result<SignatureShare, String>)
    ensures
        r is Ok <==> parse_share(b@) is Some,
        r matches Ok(s) ==> parse_share(b@) == Some(s),
{
    frost_secp256k1::round2::SignatureShare::deserialize(b)
        .map(|s| SignatureShare { inner: s })
        .map_err(|e| format!("{:?}", e))
}

/// Relies on Signature::serialize: a deterministic encoding of `(R, z)`,
/// which Signature::deserialize inverts.
#[verifier::external_body]
pub(crate) fn signature_serialize(s: &GroupSignature) -> (r: Result<Vec<u8>, String>)
    ensures
        r is Ok <==> signature_encoding(*s) is Some,
        r matches Ok(v) ==> Some(v@) == signature_encoding(*s),
        r matches Ok(v) ==> parse_signature(v@) == Some(*s),
{
    s.inner.serialize().map_err(|e| format!("{:?}", e))
}

/// Relies on Signature::deserialize: a deterministic parse of `(R, z)`,
/// failing on malformed bytes.
#[verifier::external_body]
pub(crate) fn signature_deserialize(b: &[u8]) -> (r: Result<GroupSignature, String>)
    ensures
        r is Ok <==> parse_signature(b@) is Some,
        r matches Ok(s) ==> parse_signature(b@) == Some(s),
{
    frost_secp256k1::Signature::deserialize(b)
        .map(|s| GroupSignature { inner: s })
        .map_err(|e| format!("{:?}", e))
}

/// Relies on frost_secp256k1::aggregate and Identifier::try_from: share
/// verification and aggregation are deterministic, and
/// Identifier::try_from(n) succeeds for every n > 0.
#[verifier::external_body]
pub(crate) fn frost_aggregate(
    package: &SigningPackage,
    shares: &Vec<(u16, SignatureShare)>,
    pubkeys: &PublicKeyPackage,
) -> (r: Result<GroupSignature, String>)
    requires
        forall|i: int| 0 <= i < shares@.len() ==> (#[trigger] shares@[i]).0 != 0,
    ensures
        r is Ok <==> aggregate_result(*package, shares@, *pubkeys) is Some,
        r matches Ok(s) ==> aggregate_result(*package, shares@, *pubkeys) == Some(s),
{
    let map: std::collections::BTreeMap<_, _> = shares
        .iter()
        .map(
            |(id, s)| (frost_secp256k1::Identifier::try_from(*id).unwrap(), s.inner.clone()),
        )
        .collect();
    frost_secp256k1::aggregate(&package.inner, &map, &pubkeys.inner)
        .map(|s| GroupSignature { inner: s })
        .map_err(|e| format!("{:?}", e))
}

/// Relies on PublicKeyPackage::verifying_key: picks the group verifying key
/// out of the package.
#[verifier::external_body]
pub(crate) fn verifying_key_of(p: &PublicKeyPackage) -> (r: VerifyingKey)
    ensures
        r == vk_of(*p),
{
    VerifyingKey { inner: *p.inner.verifying_key() }
}

/// Relies on VerifyingKey::serialize: a deterministic encoding of the group
/// key point.
#[verifier::external_body]
pub(crate) fn verifying_key_serialize(k: &VerifyingKey) -> (r: Result<Vec<u8>, String>)
    ensures
        r is Ok <==> key_encoding(*k) is Some,
        r matches Ok(v) ==> Some(v@) == key_encoding(*k),
{
    k.inner.serialize().map_err(|e| format!("{:?}", e))
}

/// Relies on VerifyingKey::verify: deterministic Schnorr verification of
/// the signature under the key for the message.
#[verifier::external_body]
pub(crate) fn frost_verify(key: &VerifyingKey, msg: &[u8], sig: &GroupSignature) -> (r: Result<
    (),
    String,
>)
    ensures
        r is Ok <==> signature_valid(*key, msg@, *sig),
{
    key.inner.verify(msg, &sig.inner).map_err(|e| format!("{:?}", e))
}

/// Relies on SigningNonces::serialize: a deterministic encoding of the two
/// nonce scalars, which SigningNonces::deserialize inverts.  For the
/// multi-process demo flow only: secret nonces must never be persisted in
/// production.
#[verifier::external_body]
pub(crate) fn nonces_serialize(n: &SigningNonces) -> (r: Result<Vec<u8>, String>)
    ensures
        r is Ok <==> nonce_encoding(*n) is Some,
        r matches Ok(v) ==> Some(v@) == nonce_encoding(*n),
        r matches Ok(v) ==> parse_nonces(v@) == Some(*n),
{
    n.inner.serialize().map_err(|e| format!("{:?}", e))
}

/// Relies on SigningNonces::deserialize: a deterministic parse, failing on
/// malformed bytes.
#[verifier::external_body]
pub(crate) fn nonces_deserialize(b: &[u8]) -> (r: Result<SigningNonces, String>)
    ensures
        r is Ok <==> parse_nonces(b@) is Some,
        r matches Ok(n) ==> parse_nonces(b@) == Some(n),
{
    frost_secp256k1::round1::SigningNonces::deserialize(b)
        .map(|n| SigningNonces { inner: n })
        .map_err(|e| format!("{:?}", e))
}

/// Relies on SecretShare::serialize: a deterministic encoding of the
/// share, which SecretShare::deserialize inverts.
#[verifier::external_body]
pub(crate) fn secret_share_serialize(s: &SecretShare) -> (r: Result<Vec<u8>, String>)
    ensures
        r is Ok <==> secret_share_encoding(*s) is Some,
        r matches Ok(v) ==> Some(v@) == secret_share_encoding(*s),
        r matches Ok(v) ==> parse_secret_share(v@) == Some(*s),
{
    s.inner.serialize().map_err(|e| format!("{:?}", e))
}

/// Relies on SecretShare::deserialize: a deterministic parse, failing on
/// malformed bytes.
#[verifier::external_body]
pub(crate) fn secret_share_deserialize(b: &[u8]) -> (r: Result<SecretShare, String>)
    ensures
        r is Ok <==> parse_secret_share(b@) is Some,
        r matches Ok(s) ==> parse_secret_share(b@) == Some(s),
{
    frost_secp256k1::keys::SecretShare::deserialize(b)
        .map(|s| SecretShare { inner: s })
        .map_err(|e| format!("{:?}", e))
}

/// Relies on PublicKeyPackage::serialize: a deterministic encoding, which
/// PublicKeyPackage::deserialize inverts.
#[verifier::external_body]
pub(crate) fn pubkey_package_serialize(p: &PublicKeyPackage) -> (r: Result<Vec<u8>, String>)
    ensures
        r is Ok <==> pubkey_package_encoding(*p) is Some,
        r matches Ok(v) ==> Some(v@) == pubkey_package_encoding(*p),
        r matches Ok(v) ==> parse_pubkey_package(v@) == Some(*p),
{
    p.inner.serialize().map_err(|e| format!("{:?}", e))
}

/// Relies on PublicKeyPackage::deserialize: a deterministic parse, failing
/// on malformed bytes.
#[verifier::external_body]
pub(crate) fn pubkey_package_deserialize(b: &[u8]) -> (r: Result<PublicKeyPackage, String>)
    ensures
        r is Ok <==> parse_pubkey_package(b@) is Some,
        r matches Ok(p) ==> parse_pubkey_package(b@) == Some(p),
{
    frost_secp256k1::keys::PublicKeyPackage::deserialize(b)
        .map(|p| PublicKeyPackage { inner: p })
        .map_err(|e| format!("{:?}", e))
}


// ------------------------------------------------------------------
// Verified hex views of the opaque values, for the API surface.
// ------------------------------------------------------------------
/// A commitment as lower-case hex, ready for transmission.
pub fn commitment_hex_of(c: &SigningCommitments) -> (r: Result<String, String>)
    ensures
        r is Ok <==> commitment_encoding(*c) is Some,
        r matches Ok(s) ==> s@ == hex_seq_of(commitment_encoding(*c).unwrap()),
{
    let bytes = commitments_serialize(c)?;
    Ok(hex_encode(bytes.as_slice()))
}

/// A signature share as lower-case hex.
pub fn share_hex_of(s: &SignatureShare) -> (r: String)
    ensures
        r@ == hex_seq_of(share_encoding(*s)),
{
    let bytes = share_serialize(s);
    hex_encode(bytes.as_slice())
}

/// A group signature as lower-case hex.
pub fn signature_hex_of(s: &GroupSignature) -> (r: Result<String, String>)
    ensures
        r is Ok <==> signature_encoding(*s) is Some,
        r matches Ok(h) ==> h@ == hex_seq_of(signature_encoding(*s).unwrap()),
{
    let bytes = signature_serialize(s)?;
    Ok(hex_encode(bytes.as_slice()))
}

/// The group verifying key as lower-case hex.
pub fn group_key_hex(p: &PublicKeyPackage) -> (r: Result<String, String>)
    ensures
        r is Ok <==> key_encoding(vk_of(*p)) is Some,
        r matches Ok(h) ==> h@ == hex_seq_of(key_encoding(vk_of(*p)).unwrap()),
{
    let key = verifying_key_of(p);
    let bytes = verifying_key_serialize(&key)?;
    Ok(hex_encode(bytes.as_slice()))
}


/// Trusted-dealer setup: deal `max_signers` secret shares with the given
/// threshold and return them in ascending signer-id order (position `i`
/// belongs to signer `i + 1`) together with the group public key package.
/// Succeeds exactly when the policy is sound: a threshold of at least 2
/// that does not exceed the number of signers.
pub fn generate_group(max_signers: u16, min_signers: u16) -> (r: Result<
    (Vec<SecretShare>, PublicKeyPackage),
    String,
>)
    ensures
        r is Ok <==> (2 <= min_signers && min_signers <= max_signers),
        r matches Ok(p) ==> p.0@.len() == max_signers as nat,
{
    if min_signers > max_signers {
        return Err(String::from_str("the threshold cannot exceed the number of signers"));
    }
    dealer_keygen(max_signers, min_signers)
}

} // verus!

