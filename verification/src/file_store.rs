//! The JSON file formats of the demo command-line flow, and the verified
//! halves of saving and loading them.
//!
//! Every file is JSON with binary payloads as lower-case hex.  Reading and
//! writing the files themselves is plain I/O and lives outside the
//! library; what stands here is the computation: building each record from
//! protocol values, and parsing protocol values back out of records, with
//! the consistency checks the flow demands.

use vstd::prelude::*;

use crate::api::CommitmentData;
use crate::crypto::{
    aggregate_result, commitment_encoding, commitments_serialize, frost_aggregate, frost_commit,
    frost_sign, frost_verify, key_encoding, key_package_check, key_package_of,
    new_signing_package, nonce_encoding, nonces_deserialize, nonces_serialize, package_of,
    parse_commitments, parse_nonces, parse_pubkey_package, parse_secret_share, parse_share, parse_signature,
    pubkey_package_deserialize, pubkey_package_encoding, pubkey_package_serialize,
    secret_share_deserialize, secret_share_encoding, secret_share_serialize, share_deserialize,
    share_encoding, share_serialize, sign_result, signature_deserialize, signature_encoding,
    signature_serialize, signature_valid, verifying_key_of, verifying_key_serialize, vk_of,
    GroupSignature, PublicKeyPackage, SecretShare, SignatureShare, SigningCommitments,
    SigningNonces,
};
use crate::hexcode::{bytes_of_hex, hex_decode, hex_encode, hex_seq_of, valid_hex};
use crate::signer::{canonical_commitment_pairs, canonical_seq, package_ok};

verus! {

// ------------------------------------------------------------------
// Record shapes
// ------------------------------------------------------------------
/// Shared metadata of the key material files.
#[derive(Debug, Clone)]
pub struct KeyShareMetadata {
    /// Creation time, RFC 3339.
    pub created_at: String,
    /// The policy threshold the keys were dealt for.
    pub threshold: u16,
    /// How many signers were dealt shares.
    pub max_signers: u16,
}

/// `share_{id}.json`: one signer's secret key material.
#[derive(Debug, Clone)]
pub struct KeyShareFile {
    pub signer_id: u16,
    /// Hex-encoded serialized secret share.
    pub key_package_hex: String,
    pub metadata: KeyShareMetadata,
}

/// `pubkey.json`: the group's public key material.
#[derive(Debug, Clone)]
pub struct PublicKeyFile {
    /// Hex-encoded serialized public key package.
    pub pubkey_package_hex: String,
    /// Hex-encoded group verifying key, for convenient verification.
    pub group_pubkey_hex: String,
    pub metadata: KeyShareMetadata,
}

/// `commitment_{id}.json`: one signer's round-1 output.
#[derive(Debug, Clone)]
pub struct CommitmentFile {
    pub session_id: String,
    pub signer_id: u16,
    /// Hex-encoded serialized signing commitments.
    pub commitment_hex: String,
    /// Hex of the first bytes of the message, to spot mixed-up files.
    pub message_hash: String,
}

/// `signing_package.json`: the assembled round-2 input.
#[derive(Debug, Clone)]
pub struct SigningPackageFile {
    pub session_id: String,
    pub commitments: Vec<CommitmentData>,
    /// Hex-encoded message.
    pub message_hex: String,
    pub signer_ids: Vec<u16>,
}

/// `sig_share_{id}.json`: one signer's round-2 output.
#[derive(Debug, Clone)]
pub struct SignatureShareFile {
    pub session_id: String,
    pub signer_id: u16,
    /// Hex-encoded serialized signature share.
    pub signature_share_hex: String,
}

/// `signature.json`: the final group signature.
#[derive(Debug, Clone)]
pub struct SignatureFile {
    pub session_id: String,
    /// Hex-encoded serialized Schnorr signature.
    pub signature_hex: String,
    /// Hex-encoded message.
    pub message_hex: String,
    pub signer_ids: Vec<u16>,
}

/// `nonce_{session}_{id}.json`: a persisted secret nonce.  For the
/// multi-process demo flow only — persisting secret nonces is unsafe, and
/// the record says so in its warning field.
#[derive(Debug, Clone)]
pub struct NonceFile {
    pub session_id: String,
    pub signer_id: u16,
    /// Hex-encoded serialized secret nonces.  Leaking this leaks the key.
    pub nonce_hex: String,
    /// A prominent warning for anyone who opens the file.
    pub warning: String,
}

// ------------------------------------------------------------------
// Small string utilities
// ------------------------------------------------------------------
/// Character-for-character equality of two strings.
pub fn str_eq(a: &str, b: &str) -> (r: bool)
    ensures
        r == (a@ == b@),
{
    let alen = a.unicode_len();
    let blen = b.unicode_len();
    if alen != blen {
        assert(a@ != b@);
        return false;
    }
    let mut i: usize = 0;
    while i < alen
        invariant
            0 <= i <= alen,
            alen as nat == a@.len(),
            a@.len() == b@.len(),
            forall|k: int| 0 <= k < i ==> a@[k] == b@[k],
        decreases alen - i,
    {
        if a.get_char(i) != b.get_char(i) {
            return false;
        }
        i += 1;
    }
    assert(a@ =~= b@);
    true
}

/// A fresh copy of a string.
pub fn clone_string(s: &String) -> (r: String)
    ensures
        r@ == s@,
{
    String::from_str(s.as_str())
}

/// Relies on chrono::Utc::now().to_rfc3339(): the current wall-clock time
/// rendered as RFC 3339.  The value depends on the clock, so nothing is
/// promised of it.
#[verifier::external_body]
fn now_rfc3339() -> String {
    chrono::Utc::now().to_rfc3339()
}

// ------------------------------------------------------------------
// Key material records
// ------------------------------------------------------------------
/// Build one signer's key share record.
pub fn make_key_share_file(
    signer_id: u16,
    share: &SecretShare,
    threshold: u16,
    max_signers: u16,
) -> (r: Result<KeyShareFile, String>)
    ensures
        r is Ok <==> secret_share_encoding(*share) is Some,
        r matches Ok(f) ==> {
            &&& f.signer_id == signer_id
            &&& f.key_package_hex@ == hex_seq_of(secret_share_encoding(*share).unwrap())
            &&& valid_hex(f.key_package_hex@)
            &&& parse_secret_share(bytes_of_hex(f.key_package_hex@)) == Some(*share)
            &&& f.metadata.threshold == threshold
            &&& f.metadata.max_signers == max_signers
        },
{
    let bytes = secret_share_serialize(share)?;
    proof {
        crate::hexcode::lemma_hex_round_trip(bytes@);
    }
    Ok(
        KeyShareFile {
            signer_id,
            key_package_hex: hex_encode(bytes.as_slice()),
            metadata: KeyShareMetadata { created_at: now_rfc3339(), threshold, max_signers },
        },
    )
}

/// Recover the secret share from a key share record.
pub fn secret_share_from_file(f: &KeyShareFile) -> (r: Result<SecretShare, String>)
    ensures
        r is Ok <==> (valid_hex(f.key_package_hex@) && parse_secret_share(
            bytes_of_hex(f.key_package_hex@),
        ) is Some),
        r matches Ok(s) ==> Some(s) == parse_secret_share(bytes_of_hex(f.key_package_hex@)),
{
    let bytes = hex_decode(f.key_package_hex.as_str())?;
    secret_share_deserialize(bytes.as_slice())
}

/// Build the group public key record.
pub fn make_public_key_file(
    pubkey_package: &PublicKeyPackage,
    threshold: u16,
    max_signers: u16,
) -> (r: Result<PublicKeyFile, String>)
    ensures
        r is Ok <==> (pubkey_package_encoding(*pubkey_package) is Some && key_encoding(
            vk_of(*pubkey_package),
        ) is Some),
        r matches Ok(f) ==> {
            &&& f.pubkey_package_hex@ == hex_seq_of(
                pubkey_package_encoding(*pubkey_package).unwrap(),
            )
            &&& valid_hex(f.pubkey_package_hex@)
            &&& parse_pubkey_package(bytes_of_hex(f.pubkey_package_hex@)) == Some(
                *pubkey_package,
            )
            &&& f.group_pubkey_hex@ == hex_seq_of(key_encoding(vk_of(*pubkey_package)).unwrap())
            &&& f.metadata.threshold == threshold
            &&& f.metadata.max_signers == max_signers
        },
{
    let package_bytes = pubkey_package_serialize(pubkey_package)?;
    proof {
        crate::hexcode::lemma_hex_round_trip(package_bytes@);
    }
    let key = verifying_key_of(pubkey_package);
    let key_bytes = verifying_key_serialize(&key)?;
    Ok(
        PublicKeyFile {
            pubkey_package_hex: hex_encode(package_bytes.as_slice()),
            group_pubkey_hex: hex_encode(key_bytes.as_slice()),
            metadata: KeyShareMetadata { created_at: now_rfc3339(), threshold, max_signers },
        },
    )
}

/// Recover the public key package from its record.
pub fn pubkey_package_from_file(f: &PublicKeyFile) -> (r: Result<PublicKeyPackage, String>)
    ensures
        r is Ok <==> (valid_hex(f.pubkey_package_hex@) && parse_pubkey_package(
            bytes_of_hex(f.pubkey_package_hex@),
        ) is Some),
        r matches Ok(p) ==> Some(p) == parse_pubkey_package(bytes_of_hex(f.pubkey_package_hex@)),
{
    let bytes = hex_decode(f.pubkey_package_hex.as_str())?;
    pubkey_package_deserialize(bytes.as_slice())
}

// ------------------------------------------------------------------
// Round-1 records
// ------------------------------------------------------------------
/// Build one signer's commitment record.  The message hash field holds the
/// hex of the first 32 bytes of the message (or all of it, if shorter), so
/// mixed-up files are spotted early.
pub fn make_commitment_file(
    session_id: String,
    signer_id: u16,
    commitment: &SigningCommitments,
    message: &Vec<u8>,
) -> (r: Result<CommitmentFile, String>)
    ensures
        r is Ok <==> commitment_encoding(*commitment) is Some,
        r matches Ok(f) ==> {
            &&& f.session_id == session_id
            &&& f.signer_id == signer_id
            &&& f.commitment_hex@ == hex_seq_of(commitment_encoding(*commitment).unwrap())
            &&& valid_hex(f.commitment_hex@)
            &&& parse_commitments(bytes_of_hex(f.commitment_hex@)) == Some(*commitment)
            &&& f.message_hash@ == hex_seq_of(
                message@.take(if message@.len() < 32 {
                    message@.len() as int
                } else {
                    32
                }),
            )
        },
{
    let bytes = commitments_serialize(commitment)?;
    proof {
        crate::hexcode::lemma_hex_round_trip(bytes@);
    }
    let cut = if message.len() < 32 {
        message.len()
    } else {
        32
    };
    let prefix = slice_prefix(message, cut);
    Ok(
        CommitmentFile {
            session_id,
            signer_id,
            commitment_hex: hex_encode(bytes.as_slice()),
            message_hash: hex_encode(prefix.as_slice()),
        },
    )
}

/// The first `n` bytes of a byte string.
fn slice_prefix(v: &Vec<u8>, n: usize) -> (r: Vec<u8>)
    requires
        n <= v@.len(),
    ensures
        r@ == v@.take(n as int),
{
    let mut out: Vec<u8> = Vec::new();
    let mut i: usize = 0;
    while i < n
        invariant
            0 <= i <= n,
            n <= v@.len(),
            out@ == v@.take(i as int),
        decreases n - i,
    {
        out.push(v[i]);
        i += 1;
        proof {
            assert(out@ =~= v@.take(i as int));
        }
    }
    out
}

/// Assemble the signing package record from gathered commitment records.
/// Fails unless at least `min_commitments` records are given and they all
/// carry the same session id.
pub fn build_signing_package_file(
    commitment_files: &Vec<CommitmentFile>,
    message: &Vec<u8>,
    min_commitments: usize,
) -> (r: Result<SigningPackageFile, String>)
    ensures
        r is Ok <==> (commitment_files@.len() >= min_commitments && min_commitments >= 1 && (
        forall|i: int|
            0 <= i < commitment_files@.len() ==> (#[trigger] commitment_files@[i]).session_id@
                == commitment_files@[0].session_id@)),
        r matches Ok(f) ==> {
            &&& f.session_id@ == commitment_files@[0].session_id@
            &&& f.message_hex@ == hex_seq_of(message@)
            &&& f.commitments@.len() == commitment_files@.len()
            &&& f.signer_ids@.len() == commitment_files@.len()
            &&& forall|i: int|
                0 <= i < commitment_files@.len() ==> {
                    &&& (#[trigger] f.commitments@[i]).signer_id == commitment_files@[i].signer_id
                    &&& f.commitments@[i].commitment@ == commitment_files@[i].commitment_hex@
                    &&& f.signer_ids@[i] == commitment_files@[i].signer_id
                }
        },
{
    if commitment_files.len() < min_commitments || min_commitments < 1 {
        return Err(String::from_str("not enough commitment records"));
    }
    let mut commitments: Vec<CommitmentData> = Vec::new();
    let mut signer_ids: Vec<u16> = Vec::new();
    let mut i: usize = 0;
    while i < commitment_files.len()
        invariant
            0 <= i <= commitment_files@.len(),
            commitment_files@.len() >= 1,
            commitments@.len() == i as nat,
            signer_ids@.len() == i as nat,
            forall|k: int|
                0 <= k < i ==> (#[trigger] commitment_files@[k]).session_id@
                    == commitment_files@[0].session_id@,
            forall|k: int|
                0 <= k < i ==> {
                    &&& (#[trigger] commitments@[k]).signer_id == commitment_files@[k].signer_id
                    &&& commitments@[k].commitment@ == commitment_files@[k].commitment_hex@
                    &&& signer_ids@[k] == commitment_files@[k].signer_id
                },
        decreases commitment_files@.len() - i,
    {
        let file = &commitment_files[i];
        if !str_eq(file.session_id.as_str(), commitment_files[0].session_id.as_str()) {
            return Err(String::from_str("commitment records disagree on the session id"));
        }
        let cd = CommitmentData {
            signer_id: file.signer_id,
            commitment: clone_string(&file.commitment_hex),
        };
        commitments.push(cd);
        signer_ids.push(file.signer_id);
        i += 1;
        proof {
            assert forall|k: int|
                0 <= k < i implies {
                &&& (#[trigger] commitments@[k]).signer_id == commitment_files@[k].signer_id
                &&& commitments@[k].commitment@ == commitment_files@[k].commitment_hex@
                &&& signer_ids@[k] == commitment_files@[k].signer_id
            } by {
                if k == i - 1 {
                    assert(commitments@[k] == cd);
                    assert(signer_ids@[k] == file.signer_id);
                }
            }
        }
    }
    Ok(
        SigningPackageFile {
            session_id: clone_string(&commitment_files[0].session_id),
            commitments,
            message_hex: hex_encode(message.as_slice()),
            signer_ids,
        },
    )
}

// ------------------------------------------------------------------
// Round-2 and signature records
// ------------------------------------------------------------------
/// Build one signer's signature share record.
pub fn make_signature_share_file(
    session_id: String,
    signer_id: u16,
    share: &SignatureShare,
) -> (r: SignatureShareFile)
    ensures
        r.session_id == session_id,
        r.signer_id == signer_id,
        r.signature_share_hex@ == hex_seq_of(share_encoding(*share)),
        valid_hex(r.signature_share_hex@),
        parse_share(bytes_of_hex(r.signature_share_hex@)) == Some(*share),
{
    let bytes = share_serialize(share);
    proof {
        crate::hexcode::lemma_hex_round_trip(bytes@);
    }
    SignatureShareFile {
        session_id,
        signer_id,
        signature_share_hex: hex_encode(bytes.as_slice()),
    }
}

/// Recover one identifier/share pair from its record.
pub fn share_from_file(f: &SignatureShareFile) -> (r: Result<(u16, SignatureShare), String>)
    ensures
        r is Ok <==> (valid_hex(f.signature_share_hex@) && parse_share(
            bytes_of_hex(f.signature_share_hex@),
        ) is Some),
        r matches Ok(p) ==> p.0 == f.signer_id && Some(p.1) == parse_share(
            bytes_of_hex(f.signature_share_hex@),
        ),
{
    let bytes = hex_decode(f.signature_share_hex.as_str())?;
    let share = share_deserialize(bytes.as_slice())?;
    Ok((f.signer_id, share))
}

/// Build the final signature record.
pub fn make_signature_file(
    session_id: String,
    signature: &GroupSignature,
    message: &Vec<u8>,
    signer_ids: Vec<u16>,
) -> (r: Result<SignatureFile, String>)
    ensures
        r is Ok <==> signature_encoding(*signature) is Some,
        r matches Ok(f) ==> {
            &&& f.session_id == session_id
            &&& f.signature_hex@ == hex_seq_of(signature_encoding(*signature).unwrap())
            &&& valid_hex(f.signature_hex@)
            &&& parse_signature(bytes_of_hex(f.signature_hex@)) == Some(*signature)
            &&& f.message_hex@ == hex_seq_of(message@)
            &&& valid_hex(f.message_hex@)
            &&& bytes_of_hex(f.message_hex@) == message@
            &&& f.signer_ids == signer_ids
        },
{
    let bytes = signature_serialize(signature)?;
    proof {
        crate::hexcode::lemma_hex_round_trip(bytes@);
        crate::hexcode::lemma_hex_round_trip(message@);
    }
    Ok(
        SignatureFile {
            session_id,
            signature_hex: hex_encode(bytes.as_slice()),
            message_hex: hex_encode(message.as_slice()),
            signer_ids,
        },
    )
}

/// Recover a signature from its hex form.
pub fn signature_from_hex(signature_hex: &str) -> (r: Result<GroupSignature, String>)
    ensures
        r is Ok <==> (valid_hex(signature_hex@) && parse_signature(
            bytes_of_hex(signature_hex@),
        ) is Some),
        r matches Ok(s) ==> Some(s) == parse_signature(bytes_of_hex(signature_hex@)),
{
    let bytes = hex_decode(signature_hex)?;
    signature_deserialize(bytes.as_slice())
}

/// Whether a signature record was made over the given message: its stored
/// message hex must decode to exactly these bytes.
pub fn message_matches(f: &SignatureFile, message: &Vec<u8>) -> (r: bool)
    ensures
        r == (valid_hex(f.message_hex@) && bytes_of_hex(f.message_hex@) == message@),
{
    let stored = match hex_decode(f.message_hex.as_str()) {
        Ok(b) => b,
        Err(_) => {
            return false;
        },
    };
    crate::coordinator::bytes_equal(&stored, message)
}

// ------------------------------------------------------------------
// The demo-only nonce record
// ------------------------------------------------------------------
/// The warning every persisted nonce record carries.
pub open spec fn nonce_warning_text() -> Seq<char> {
    "DEMO ONLY! Never persist secret nonces in production!"@
}

/// Build the demo-only persisted nonce record, warning included.
pub fn make_nonce_file(session_id: String, signer_id: u16, nonces: &SigningNonces) -> (r: Result<
    NonceFile,
    String,
>)
    ensures
        r is Ok <==> nonce_encoding(*nonces) is Some,
        r matches Ok(f) ==> {
            &&& f.session_id == session_id
            &&& f.signer_id == signer_id
            &&& f.nonce_hex@ == hex_seq_of(nonce_encoding(*nonces).unwrap())
            &&& valid_hex(f.nonce_hex@)
            &&& parse_nonces(bytes_of_hex(f.nonce_hex@)) == Some(*nonces)
            &&& f.warning@ == nonce_warning_text()
        },
{
    let bytes = nonces_serialize(nonces)?;
    proof {
        crate::hexcode::lemma_hex_round_trip(bytes@);
    }
    Ok(
        NonceFile {
            session_id,
            signer_id,
            nonce_hex: hex_encode(bytes.as_slice()),
            warning: String::from_str("DEMO ONLY! Never persist secret nonces in production!"),
        },
    )
}

/// Recover the secret nonces from a persisted record, checking that the
/// record belongs to the expected session and signer.
pub fn nonce_from_file(f: &NonceFile, session_id: &str, signer_id: u16) -> (r: Result<
    SigningNonces,
    String,
>)
    ensures
        r is Ok <==> (f.session_id@ == session_id@ && f.signer_id == signer_id && valid_hex(
            f.nonce_hex@,
        ) && parse_nonces(bytes_of_hex(f.nonce_hex@)) is Some),
        r matches Ok(n) ==> Some(n) == parse_nonces(bytes_of_hex(f.nonce_hex@)),
{
    if !str_eq(f.session_id.as_str(), session_id) {
        return Err(String::from_str("the nonce record belongs to another session"));
    }
    if f.signer_id != signer_id {
        return Err(String::from_str("the nonce record belongs to another signer"));
    }
    let bytes = hex_decode(f.nonce_hex.as_str())?;
    nonces_deserialize(bytes.as_slice())
}


// ------------------------------------------------------------------
// The command-line flows: the compute half of each command.
// ------------------------------------------------------------------
/// The round-1 command: draw fresh nonces for the session and build both
/// records — the commitment to hand to the coordinator, and the demo-only
/// nonce file that lets a separate round-2 process consume the nonce.
pub fn round1_record(
    session_id: String,
    signer_id: u16,
    share: &SecretShare,
    message: &Vec<u8>,
) -> (r: Result<(NonceFile, CommitmentFile), String>)
    ensures
        r matches Ok(p) ==> {
            &&& p.0.session_id@ == session_id@
            &&& p.0.signer_id == signer_id
            &&& p.0.warning@ == nonce_warning_text()
            &&& valid_hex(p.0.nonce_hex@)
            &&& parse_nonces(bytes_of_hex(p.0.nonce_hex@)) is Some
            &&& p.1.session_id@ == session_id@
            &&& p.1.signer_id == signer_id
            &&& valid_hex(p.1.commitment_hex@)
            &&& parse_commitments(bytes_of_hex(p.1.commitment_hex@)) is Some
            &&& p.1.message_hash@ == hex_seq_of(
                message@.take(if message@.len() < 32 {
                    message@.len() as int
                } else {
                    32
                }),
            )
        },
{
    let (nonces, commitments) = frost_commit(share);
    let nonce_file = make_nonce_file(clone_string(&session_id), signer_id, &nonces)?;
    let commitment_file = make_commitment_file(session_id, signer_id, &commitments, message)?;
    Ok((nonce_file, commitment_file))
}

/// The round-2 command: check the package belongs to the expected session,
/// consume the persisted nonce, rebuild the canonical signing package, and
/// produce this signer's share record.  Succeeds exactly when the session
/// ids agree, the nonce record matches and parses, the message and every
/// commitment decode, and the signing primitive accepts.
pub fn round2_record(
    session_id: &str,
    signer_id: u16,
    share: &SecretShare,
    package_file: &SigningPackageFile,
    nonce_file: &NonceFile,
) -> (r: Result<SignatureShareFile, String>)
    ensures
        ({
            let nonce_ok = nonce_file.session_id@ == session_id@ && nonce_file.signer_id
                == signer_id && valid_hex(nonce_file.nonce_hex@) && parse_nonces(
                bytes_of_hex(nonce_file.nonce_hex@),
            ) is Some;
            let all_ok = package_file.session_id@ == session_id@ && nonce_ok && valid_hex(
                package_file.message_hex@,
            ) && package_ok(package_file.commitments@) && key_package_check(*share) is Some
                && sign_result(
                package_of(
                    canonical_seq(package_file.commitments@),
                    bytes_of_hex(package_file.message_hex@),
                ),
                parse_nonces(bytes_of_hex(nonce_file.nonce_hex@)).unwrap(),
                key_package_check(*share).unwrap(),
            ) is Some;
            &&& (r is Ok <==> all_ok)
            &&& (r matches Ok(f) ==> {
                &&& f.session_id@ == session_id@
                &&& f.signer_id == signer_id
                &&& f.signature_share_hex@ == hex_seq_of(
                    share_encoding(
                        sign_result(
                            package_of(
                                canonical_seq(package_file.commitments@),
                                bytes_of_hex(package_file.message_hex@),
                            ),
                            parse_nonces(bytes_of_hex(nonce_file.nonce_hex@)).unwrap(),
                            key_package_check(*share).unwrap(),
                        ).unwrap(),
                    ),
                )
            })
        }),
{
    if !str_eq(package_file.session_id.as_str(), session_id) {
        return Err(String::from_str("the signing package belongs to another session"));
    }
    let nonces = nonce_from_file(nonce_file, session_id, signer_id)?;
    let message = hex_decode(package_file.message_hex.as_str())?;
    let pairs = match canonical_commitment_pairs(&package_file.commitments) {
        Ok(p) => p,
        Err(_) => {
            return Err(String::from_str("a commitment in the package does not decode"));
        },
    };
    let key_package = key_package_of(share)?;
    proof {
        crate::signer::lemma_canonical_ids(package_file.commitments@);
        assert forall|t: int| 0 <= t < pairs@.len() implies (#[trigger] pairs@[t]).0 != 0 by {
            assert(crate::signer::has_id(pairs@, pairs@[t].0));
        }
    }
    let package = new_signing_package(&pairs, message.as_slice());
    let share_value = frost_sign(&package, &nonces, &key_package)?;
    Ok(
        make_signature_share_file(
            clone_string_from_str(session_id),
            signer_id,
            &share_value,
        ),
    )
}

/// One share record's identifier/share pair.
pub open spec fn parsed_share_of(f: SignatureShareFile) -> (u16, SignatureShare) {
    (f.signer_id, parse_share(bytes_of_hex(f.signature_share_hex@)).unwrap())
}

/// Every share record decodes and names a real signer.
pub open spec fn shares_ok(files: Seq<SignatureShareFile>) -> bool {
    forall|i: int|
        0 <= i < files.len() ==> {
            &&& (#[trigger] files[i]).signer_id >= 1
            &&& valid_hex(files[i].signature_share_hex@)
            &&& parse_share(bytes_of_hex(files[i].signature_share_hex@)) is Some
        }
}

/// The aggregate command: decode the gathered share records, rebuild the
/// canonical signing package, aggregate under the group key, verify the
/// result, and build the final signature record.  A returned record always
/// carries a signature that verifies under the group key for the package's
/// message.
pub fn aggregate_records(
    package_file: &SigningPackageFile,
    share_files: &Vec<SignatureShareFile>,
    pubkey_file: &PublicKeyFile,
    threshold: u16,
) -> (r: Result<SignatureFile, String>)
    ensures
        ({
            let msg = bytes_of_hex(package_file.message_hex@);
            let pk_opt = parse_pubkey_package(bytes_of_hex(pubkey_file.pubkey_package_hex@));
            let pkg = package_of(canonical_seq(package_file.commitments@), msg);
            let agg = aggregate_result(
                pkg,
                share_files@.map_values(|sf: SignatureShareFile| parsed_share_of(sf)),
                pk_opt.unwrap(),
            );
            let all_ok = share_files@.len() >= threshold as nat && valid_hex(
                pubkey_file.pubkey_package_hex@,
            ) && pk_opt is Some && valid_hex(package_file.message_hex@) && shares_ok(
                share_files@,
            ) && package_ok(package_file.commitments@) && agg is Some && signature_valid(
                vk_of(pk_opt.unwrap()),
                msg,
                agg.unwrap(),
            ) && signature_encoding(agg.unwrap()) is Some;
            &&& (r is Ok <==> all_ok)
            &&& (r matches Ok(f) ==> {
                &&& f.session_id@ == package_file.session_id@
                &&& f.message_hex@ == hex_seq_of(msg)
                &&& f.signature_hex@ == hex_seq_of(signature_encoding(agg.unwrap()).unwrap())
            })
        }),
{
    if share_files.len() < threshold as usize {
        return Err(String::from_str("not enough signature share records"));
    }
    let pubkey_package = pubkey_package_from_file(pubkey_file)?;
    let message = hex_decode(package_file.message_hex.as_str())?;
    let mut shares: Vec<(u16, SignatureShare)> = Vec::new();
    let mut i: usize = 0;
    while i < share_files.len()
        invariant
            0 <= i <= share_files@.len(),
            shares@.len() == i as nat,
            forall|k: int|
                0 <= k < i ==> {
                    &&& (#[trigger] share_files@[k]).signer_id >= 1
                    &&& valid_hex(share_files@[k].signature_share_hex@)
                    &&& parse_share(bytes_of_hex(share_files@[k].signature_share_hex@)) is Some
                },
            forall|k: int|
                0 <= k < i ==> #[trigger] shares@[k] == parsed_share_of(share_files@[k]),
        decreases share_files@.len() - i,
    {
        let sf = &share_files[i];
        if sf.signer_id < 1 {
            return Err(String::from_str("a share record names signer id 0"));
        }
        let pair = share_from_file(sf)?;
        shares.push(pair);
        i += 1;
    }
    let pairs = match canonical_commitment_pairs(&package_file.commitments) {
        Ok(p) => p,
        Err(_) => {
            return Err(String::from_str("a commitment in the package does not decode"));
        },
    };
    proof {
        crate::signer::lemma_canonical_ids(package_file.commitments@);
        assert forall|t: int| 0 <= t < pairs@.len() implies (#[trigger] pairs@[t]).0 != 0 by {
            assert(crate::signer::has_id(pairs@, pairs@[t].0));
        }
        assert(shares@ =~= share_files@.map_values(
            |sf: SignatureShareFile| parsed_share_of(sf),
        ));
    }
    let package = new_signing_package(&pairs, message.as_slice());
    let signature = frost_aggregate(&package, &shares, &pubkey_package)?;
    let key = verifying_key_of(&pubkey_package);
    frost_verify(&key, message.as_slice(), &signature)?;
    // gather the participating signer ids for the record
    let mut signer_ids: Vec<u16> = Vec::new();
    let mut k: usize = 0;
    while k < share_files.len()
        invariant
            0 <= k <= share_files@.len(),
        decreases share_files@.len() - k,
    {
        signer_ids.push(share_files[k].signer_id);
        k += 1;
    }
    make_signature_file(
        clone_string(&package_file.session_id),
        &signature,
        &message,
        signer_ids,
    )
}

/// The verify command: anyone holding the signature record, the message
/// and the group public key can check the signature.  Succeeds exactly
/// when everything decodes, the record's stored message is the given one,
/// and the signature verifies under the group key.
pub fn verify_record(
    signature_file: &SignatureFile,
    message: &Vec<u8>,
    pubkey_file: &PublicKeyFile,
) -> (r: Result<(), String>)
    ensures
        r is Ok <==> (valid_hex(signature_file.signature_hex@) && parse_signature(
            bytes_of_hex(signature_file.signature_hex@),
        ) is Some && valid_hex(signature_file.message_hex@) && bytes_of_hex(
            signature_file.message_hex@,
        ) == message@ && valid_hex(pubkey_file.pubkey_package_hex@) && parse_pubkey_package(
            bytes_of_hex(pubkey_file.pubkey_package_hex@),
        ) is Some && signature_valid(
            vk_of(parse_pubkey_package(bytes_of_hex(pubkey_file.pubkey_package_hex@)).unwrap()),
            message@,
            parse_signature(bytes_of_hex(signature_file.signature_hex@)).unwrap(),
        )),
{
    let signature = signature_from_hex(signature_file.signature_hex.as_str())?;
    if !message_matches(signature_file, message) {
        return Err(String::from_str("the record was made over a different message"));
    }
    let pubkey_package = pubkey_package_from_file(pubkey_file)?;
    let key = verifying_key_of(&pubkey_package);
    frost_verify(&key, message.as_slice(), &signature)
}

/// A fresh owned copy of a borrowed string slice.
pub fn clone_string_from_str(s: &str) -> (r: String)
    ensures
        r@ == s@,
{
    String::from_str(s)
}

} // verus!
