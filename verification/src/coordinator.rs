//! The coordinator: session state, commitment collection, signing-package
//! assembly, share aggregation and final verification.
//!
//! The coordinator never holds secrets — only the public key package, the
//! policy threshold, and per-session transient state.  A session is removed
//! on any terminal outcome.  The same `(session, message)` binding is
//! enforced across rounds: `check_round2_binding` rejects a round-2 package
//! whose message differs from the session's stored message.

use vstd::prelude::*;

use crate::api::{now_utc_millis, CommitmentData, SessionId, SignatureShareData, SigningPackageData};
use crate::crypto::{
    aggregate_result, commitments_serialize, frost_aggregate, frost_verify,
    new_signing_package, package_of, parse_share, share_deserialize, signature_valid,
    verifying_key_of, vk_of, GroupSignature, PublicKeyPackage, SignatureShare, SigningPackage,
    VerifyingKey,
};
use crate::hexcode::{bytes_of_hex, hex_decode, valid_hex};
use crate::signer::{canonical_commitment_pairs, canonical_seq, package_ok, Signer, SignerError};

verus! {

// ------------------------------------------------------------------
// Errors
// ------------------------------------------------------------------
/// What can go wrong on the coordinator side.
#[derive(Debug)]
pub enum CoordinatorError {
    /// The queried session does not exist (never created, or already
    /// finished, cancelled or timed out).
    SessionNotFound(SessionId),
    /// Fewer commitments were gathered than the threshold requires.
    InsufficientCommitments { expected: usize, actual: usize },
    /// Fewer signature shares were supplied than the threshold requires.
    InsufficientShares { expected: usize, actual: usize },
    /// The same signer submitted a commitment twice for one session: the
    /// first submission wins, later ones are rejected.
    DuplicateCommitment { signer_id: u16 },
    /// A round-2 package's message differs from the session's message.
    SessionMismatch,
    /// The aggregation primitive failed.
    AggregationFailed(String),
    /// The final signature did not verify under the group key.
    VerificationFailed(String),
    /// A signer failed during an orchestrated flow.
    SignerError(String),
    /// The public key package is unusable.
    InvalidPublicKeyPackage,
    /// A commitment could not be decoded.
    CommitmentDeserializationFailed(String),
    /// A signature share could not be decoded.
    ShareDeserializationFailed(String),
}

// ------------------------------------------------------------------
// Session state
// ------------------------------------------------------------------
/// Coordinator-side state of one signing session.  `commitments` is
/// append-only while the session lives; the session is removed after
/// successful aggregation or on cancellation.
#[derive(Debug, Clone)]
pub struct SessionState {
    /// The session this state belongs to.
    pub session_id: SessionId,
    /// The message to be signed.
    pub message: Vec<u8>,
    /// Round-1 commitments gathered so far, in arrival order, one per
    /// signer.
    pub commitments: Vec<CommitmentData>,
    /// Creation time, milliseconds since the Unix epoch; lets a sweeper
    /// cancel sessions past a policy deadline.
    pub created_at_ms: i64,
}

impl SessionState {
    /// A fresh session for a message, with no commitments yet.
    pub fn new(session_id: SessionId, message: Vec<u8>) -> (r: SessionState)
        ensures
            r.session_id == session_id,
            r.message == message,
            r.commitments@ =~= Seq::<CommitmentData>::empty(),
    {
        SessionState { session_id, message, commitments: Vec::new(), created_at_ms: now_utc_millis() }
    }
}

/// Whether some gathered commitment carries the given signer id.
pub open spec fn has_signer(cs: Seq<CommitmentData>, id: u16) -> bool {
    exists|i: int| 0 <= i < cs.len() && (#[trigger] cs[i]).signer_id == id
}

/// Whether a round-2 request binds to its session: the session exists and
/// the package's message is exactly the session's stored message.
pub open spec fn round2_binding_ok(
    sessions: Map<u128, SessionState>,
    sid: u128,
    package_message: Seq<u8>,
) -> bool {
    sessions.contains_key(sid) && package_message == sessions[sid].message@
}

/// Commitments ordered by ascending signer id.
pub open spec fn sorted_data(cs: Seq<CommitmentData>) -> bool {
    forall|i: int, j: int|
        0 <= i < j < cs.len() ==> (#[trigger] cs[i]).signer_id <= (#[trigger] cs[j]).signer_id
}

// ------------------------------------------------------------------
// The concurrent session store, kept behind trusted wrappers.
// ------------------------------------------------------------------
/// What the coordinator's concurrent session map holds.
pub uninterp spec fn session_map_of(m: dashmap::DashMap<u128, SessionState>) -> Map<
    u128,
    SessionState,
>;

/// Relies on DashMap::new: the new map is empty.
#[verifier::external_body]
fn session_map_new() -> (m: dashmap::DashMap<u128, SessionState>)
    ensures
        session_map_of(m) =~= Map::empty(),
{
    dashmap::DashMap::new()
}

/// Relies on DashMap::insert: remaps the key to the value.
#[verifier::external_body]
fn session_map_insert(m: &mut dashmap::DashMap<u128, SessionState>, k: u128, v: SessionState)
    ensures
        session_map_of(*final(m)) == session_map_of(*old(m)).insert(k, v),
{
    m.insert(k, v);
}

/// Relies on DashMap::remove: takes the entry out and returns whether it
/// was there.
#[verifier::external_body]
fn session_map_remove(m: &mut dashmap::DashMap<u128, SessionState>, k: u128) -> (r: bool)
    ensures
        session_map_of(*final(m)) == session_map_of(*old(m)).remove(k),
        r == session_map_of(*old(m)).contains_key(k),
{
    m.remove(&k).is_some()
}

/// Relies on DashMap::get and on the derived Clone of SessionState, which
/// copies the fields: the returned state equals the stored one.
#[verifier::external_body]
fn session_map_get(m: &dashmap::DashMap<u128, SessionState>, k: u128) -> (r: Option<SessionState>)
    ensures
        r is Some <==> session_map_of(*m).contains_key(k),
        r matches Some(st) ==> st == session_map_of(*m)[k],
{
    m.get(&k).map(|entry| entry.value().clone())
}

/// Relies on DashMap::len: the number of stored entries.
#[verifier::external_body]
fn session_map_len(m: &dashmap::DashMap<u128, SessionState>) -> (r: usize)
    ensures
        r as nat == session_map_of(*m).dom().len(),
{
    m.len()
}

/// Relies on DashMap::clear: afterwards the map is empty.
#[verifier::external_body]
fn session_map_clear(m: &mut dashmap::DashMap<u128, SessionState>)
    ensures
        session_map_of(*final(m)) =~= Map::empty(),
{
    m.clear()
}

// ------------------------------------------------------------------
// The coordinator
// ------------------------------------------------------------------
/// Orchestrates one or many concurrent signing sessions.  Holds the group
/// public key package and the policy threshold; never holds secrets.
pub struct Coordinator {
    pubkey_package: PublicKeyPackage,
    threshold: u16,
    sessions: dashmap::DashMap<u128, SessionState>,
}

impl Coordinator {
    /// The live sessions.
    pub closed spec fn sessions_spec(self) -> Map<u128, SessionState> {
        session_map_of(self.sessions)
    }

    /// The policy threshold: how many signers must cooperate.
    pub closed spec fn threshold_spec(self) -> u16 {
        self.threshold
    }

    /// The group public key package.
    pub closed spec fn pubkey_spec(self) -> PublicKeyPackage {
        self.pubkey_package
    }

    /// A coordinator with no sessions.
    pub fn new(pubkey_package: PublicKeyPackage, threshold: u16) -> (r: Coordinator)
        ensures
            r.pubkey_spec() == pubkey_package,
            r.threshold_spec() == threshold,
            r.sessions_spec() == Map::<u128, SessionState>::empty(),
    {
        Coordinator { pubkey_package, threshold, sessions: session_map_new() }
    }

    /// The group verifying key, under which every signature this
    /// coordinator accepts can be checked.
    pub fn group_public_key(&self) -> (r: VerifyingKey)
        ensures
            r == vk_of(self.pubkey_spec()),
    {
        verifying_key_of(&self.pubkey_package)
    }

    /// Open a new session for a message: a fresh random session id is
    /// allocated and mapped to an empty state carrying the message.
    pub fn create_session(&mut self, message: Vec<u8>) -> (r: SessionId)
        ensures
            final(self).threshold_spec() == old(self).threshold_spec(),
            final(self).pubkey_spec() == old(self).pubkey_spec(),
            final(self).sessions_spec().contains_key(r.id),
            final(self).sessions_spec() == old(self).sessions_spec().insert(
                r.id,
                final(self).sessions_spec()[r.id],
            ),
            final(self).sessions_spec()[r.id].session_id == r,
            final(self).sessions_spec()[r.id].message == message,
            final(self).sessions_spec()[r.id].commitments@ =~= Seq::<CommitmentData>::empty(),
    {
        let session_id = SessionId::new();
        let state = SessionState::new(session_id, message);
        session_map_insert(&mut self.sessions, session_id.id, state);
        session_id
    }

    /// Record one signer's commitment for a session.  The first submission
    /// of a signer wins; a second one is rejected with
    /// `DuplicateCommitment`.  Returns how many commitments the session now
    /// holds.
    pub fn add_commitment(&mut self, session_id: SessionId, commitment: CommitmentData) -> (r:
        Result<usize, CoordinatorError>)
        ensures
            final(self).threshold_spec() == old(self).threshold_spec(),
            final(self).pubkey_spec() == old(self).pubkey_spec(),
            !old(self).sessions_spec().contains_key(session_id.id) ==> {
                &&& r matches Err(e) && e matches CoordinatorError::SessionNotFound(s) && s
                    == session_id
                &&& final(self).sessions_spec() == old(self).sessions_spec()
            },
            old(self).sessions_spec().contains_key(session_id.id) && has_signer(
                old(self).sessions_spec()[session_id.id].commitments@,
                commitment.signer_id,
            ) ==> {
                &&& r matches Err(e) && e matches CoordinatorError::DuplicateCommitment {
                    signer_id,
                } && signer_id == commitment.signer_id
                &&& final(self).sessions_spec() == old(self).sessions_spec()
            },
            old(self).sessions_spec().contains_key(session_id.id) && !has_signer(
                old(self).sessions_spec()[session_id.id].commitments@,
                commitment.signer_id,
            ) ==> {
                let pre = old(self).sessions_spec()[session_id.id];
                let post = final(self).sessions_spec()[session_id.id];
                &&& r matches Ok(n) && n as nat == pre.commitments@.len() + 1
                &&& final(self).sessions_spec() == old(self).sessions_spec().insert(
                    session_id.id,
                    post,
                )
                &&& post.commitments@ == pre.commitments@.push(commitment)
                &&& post.session_id == pre.session_id
                &&& post.message == pre.message
                &&& post.created_at_ms == pre.created_at_ms
            },
    {
        let st = session_map_get(&self.sessions, session_id.id);
        let mut state = match st {
            None => {
                return Err(CoordinatorError::SessionNotFound(session_id));
            },
            Some(s) => s,
        };
        // reject a second submission by the same signer
        let mut k: usize = 0;
        let mut seen = false;
        while k < state.commitments.len()
            invariant
                0 <= k <= state.commitments@.len(),
                seen <==> exists|t: int|
                    0 <= t < k && (#[trigger] state.commitments@[t]).signer_id
                        == commitment.signer_id,
            decreases state.commitments@.len() - k,
        {
            if state.commitments[k].signer_id == commitment.signer_id {
                seen = true;
            }
            k += 1;
        }
        if seen {
            return Err(CoordinatorError::DuplicateCommitment { signer_id: commitment.signer_id });
        }
        assert(!has_signer(state.commitments@, commitment.signer_id));
        state.commitments.push(commitment);
        let count = state.commitments.len();
        session_map_insert(&mut self.sessions, session_id.id, state);
        Ok(count)
    }

    /// Assemble the round-2 input for a session: fails with
    /// `InsufficientCommitments` until the threshold is reached, then
    /// selects the first `threshold` commitments by arrival order and
    /// presents them sorted by ascending signer id, together with the
    /// session's message.
    pub fn get_signing_package(&self, session_id: SessionId) -> (r: Result<
        SigningPackageData,
        CoordinatorError,
    >)
        ensures
            !self.sessions_spec().contains_key(session_id.id) ==> (r matches Err(e) && e
                matches CoordinatorError::SessionNotFound(s) && s == session_id),
            self.sessions_spec().contains_key(session_id.id)
                && self.sessions_spec()[session_id.id].commitments@.len() < self.threshold_spec()
                ==> (r matches Err(e) && e matches CoordinatorError::InsufficientCommitments {
                expected,
                actual,
            } && expected == self.threshold_spec() as usize && actual as nat == self.sessions_spec()[session_id.id].commitments@.len()),
            self.sessions_spec().contains_key(session_id.id)
                && self.sessions_spec()[session_id.id].commitments@.len()
                >= self.threshold_spec() ==> {
                let st = self.sessions_spec()[session_id.id];
                &&& r matches Ok(p) && p.message == st.message && p.commitments@.len()
                    == self.threshold_spec() as nat && sorted_data(p.commitments@)
                    && p.commitments@.to_multiset() == st.commitments@.subrange(
                    0,
                    self.threshold_spec() as int,
                ).to_multiset()
            },
    {
        broadcast use vstd::seq_lib::group_to_multiset_ensures;

        let st = session_map_get(&self.sessions, session_id.id);
        let mut state = match st {
            None => {
                return Err(CoordinatorError::SessionNotFound(session_id));
            },
            Some(s) => s,
        };
        let need = self.threshold as usize;
        if state.commitments.len() < need {
            return Err(
                CoordinatorError::InsufficientCommitments {
                    expected: need,
                    actual: state.commitments.len(),
                },
            );
        }
        let ghost orig = state.commitments@;
        let mut sel: Vec<CommitmentData> = Vec::new();
        let mut i: usize = 0;
        while i < need
            invariant
                0 <= i <= need,
                need == self.threshold_spec() as usize,
                need as nat <= orig.len(),
                self.sessions_spec().contains_key(session_id.id),
                orig == self.sessions_spec()[session_id.id].commitments@,
                state.message == self.sessions_spec()[session_id.id].message,
                state.commitments@ == orig.skip(i as int),
                sel@.len() == i as nat,
                sorted_data(sel@),
                sel@.to_multiset() == orig.subrange(0, i as int).to_multiset(),
            decreases need - i,
        {
            let cd = state.commitments.remove(0);
            proof {
                assert(cd == orig[i as int]);
                assert(orig.skip(i as int).remove(0) =~= orig.skip(i as int + 1));
            }
            let mut j: usize = 0;
            while j < sel.len() && sel[j].signer_id < cd.signer_id
                invariant
                    0 <= j <= sel@.len(),
                    forall|k: int| 0 <= k < j ==> (#[trigger] sel@[k]).signer_id < cd.signer_id,
                decreases sel@.len() - j,
            {
                j += 1;
            }
            let ghost old_sel = sel@;
            sel.insert(j, cd);
            i += 1;
            proof {
                broadcast use vstd::seq_lib::group_to_multiset_ensures;
                // sortedness is kept: everything before j is smaller, and
                // everything from j on was already at least as large
                assert forall|a: int, b: int| 0 <= a < b < sel@.len() implies (#[trigger] sel@[a]).signer_id
                    <= (#[trigger] sel@[b]).signer_id by {
                    if a < j && b == j {
                    } else if a == j && b > j {
                        assert(sel@[b] == old_sel[b - 1]);
                        assert(old_sel[j as int].signer_id <= old_sel[b - 1].signer_id);
                    } else if a < j && b > j {
                        assert(sel@[a] == old_sel[a]);
                        assert(sel@[b] == old_sel[b - 1]);
                    } else if a > j && b > j {
                        assert(sel@[a] == old_sel[a - 1]);
                        assert(sel@[b] == old_sel[b - 1]);
                    }
                }
                // the multiset gains exactly the taken element
                assert(sel@ =~= old_sel.insert(j as int, cd));
                assert(old_sel.insert(j as int, cd).to_multiset() =~= old_sel.to_multiset().insert(
                    cd,
                ));
                assert(orig.subrange(0, i as int) =~= orig.subrange(0, i as int - 1).push(
                    orig[i as int - 1],
                ));
                assert(orig.subrange(0, i as int - 1).push(orig[i as int - 1]).to_multiset()
                    =~= orig.subrange(0, i as int - 1).to_multiset().insert(orig[i as int - 1]));
                assert(sel@.to_multiset() =~= orig.subrange(0, i as int).to_multiset());
            }
        }
        Ok(SigningPackageData { commitments: sel, message: state.message })
    }

    /// Enforce the `(session, message)` binding across rounds: a round-2
    /// package whose message differs from the session's stored message is
    /// rejected with `SessionMismatch`.
    pub fn check_round2_binding(&self, session_id: SessionId, package: &SigningPackageData) -> (r:
        Result<(), CoordinatorError>)
        ensures
            r is Ok <==> round2_binding_ok(self.sessions_spec(), session_id.id, package.message@),
            !self.sessions_spec().contains_key(session_id.id) ==> (r matches Err(e) && e
                matches CoordinatorError::SessionNotFound(s) && s == session_id),
            self.sessions_spec().contains_key(session_id.id) && package.message@ != self.sessions_spec()[session_id.id].message@
                ==> (r matches Err(e) && e matches CoordinatorError::SessionMismatch),
    {
        let st = session_map_get(&self.sessions, session_id.id);
        let state = match st {
            None => {
                return Err(CoordinatorError::SessionNotFound(session_id));
            },
            Some(s) => s,
        };
        if !bytes_equal(&package.message, &state.message) {
            return Err(CoordinatorError::SessionMismatch);
        }
        Ok(())
    }

    /// Aggregate gathered signature shares into the group signature.
    /// Fails with `InsufficientShares` when fewer than `threshold` shares
    /// are supplied; otherwise the primitive decides, and its verdict is a
    /// function of the package, the shares and the key package alone.
    pub fn aggregate_signature(
        &self,
        signing_package: &SigningPackage,
        signature_shares: &Vec<(u16, SignatureShare)>,
    ) -> (r: Result<GroupSignature, CoordinatorError>)
        ensures
            signature_shares@.len() < self.threshold_spec() as nat ==> (r matches Err(e) && e
                matches CoordinatorError::InsufficientShares { expected, actual } && expected
                == self.threshold_spec() as usize && actual as nat == signature_shares@.len()),
            signature_shares@.len() >= self.threshold_spec() as nat && (exists|i: int|
                0 <= i < signature_shares@.len() && (#[trigger] signature_shares@[i]).0 == 0)
                ==> (r matches Err(e) && e
                matches CoordinatorError::ShareDeserializationFailed(_)),
            signature_shares@.len() >= self.threshold_spec() as nat && (forall|i: int|
                0 <= i < signature_shares@.len() ==> (#[trigger] signature_shares@[i]).0 != 0)
                ==> {
                let agg = aggregate_result(*signing_package, signature_shares@, self.pubkey_spec());
                &&& (r is Ok <==> agg is Some)
                &&& (r matches Ok(s) ==> agg == Some(s))
                &&& (agg is None ==> (r matches Err(e) && e
                    matches CoordinatorError::AggregationFailed(_)))
            },
    {
        if signature_shares.len() < self.threshold as usize {
            return Err(
                CoordinatorError::InsufficientShares {
                    expected: self.threshold as usize,
                    actual: signature_shares.len(),
                },
            );
        }
        let mut i: usize = 0;
        while i < signature_shares.len()
            invariant
                0 <= i <= signature_shares@.len(),
                signature_shares@.len() >= self.threshold_spec() as nat,
                forall|k: int| 0 <= k < i ==> (#[trigger] signature_shares@[k]).0 != 0,
            decreases signature_shares@.len() - i,
        {
            if signature_shares[i].0 == 0 {
                return Err(
                    CoordinatorError::ShareDeserializationFailed(
                        String::from_str("signer id must be at least 1"),
                    ),
                );
            }
            i += 1;
        }
        match frost_aggregate(signing_package, signature_shares, &self.pubkey_package) {
            Ok(sig) => Ok(sig),
            Err(msg) => Err(CoordinatorError::AggregationFailed(msg)),
        }
    }

    /// Verify a signature over a message under the group key.  The verdict
    /// is a pure function of key, message and signature: it cannot depend
    /// on which subset of signers produced the signature.
    pub fn verify_signature(&self, message: &Vec<u8>, signature: &GroupSignature) -> (r: Result<
        (),
        CoordinatorError,
    >)
        ensures
            r is Ok <==> signature_valid(vk_of(self.pubkey_spec()), message@, *signature),
            !signature_valid(vk_of(self.pubkey_spec()), message@, *signature) ==> (r matches Err(
                e,
            ) && e matches CoordinatorError::VerificationFailed(_)),
    {
        let key = verifying_key_of(&self.pubkey_package);
        match frost_verify(&key, message.as_slice(), signature) {
            Ok(()) => Ok(()),
            Err(msg) => Err(CoordinatorError::VerificationFailed(msg)),
        }
    }

    /// Run one complete signing flow over the given signers: open a
    /// session, gather every signer's round-1 commitment, assemble the
    /// signing package, gather the selected signers' round-2 shares,
    /// aggregate, verify, and clean up.  On any outcome the session is
    /// removed again, every other session is untouched, and no signer is
    /// left holding a nonce for the flow's session; a signature is
    /// returned only if it verifies under the group key.  Fewer signers
    /// than the threshold cannot yield enough shares, so that is rejected
    /// up front with `InsufficientShares`.
    pub fn orchestrate_signing(&mut self, signers: &mut Vec<Signer>, message: &Vec<u8>) -> (r:
        Result<GroupSignature, CoordinatorError>)
        ensures
            final(self).threshold_spec() == old(self).threshold_spec(),
            final(self).pubkey_spec() == old(self).pubkey_spec(),
            final(signers)@.len() == old(signers)@.len(),
            forall|k: int|
                0 <= k < old(signers)@.len() ==> (#[trigger] final(signers)@[k]).id_spec() == old(
                    signers,
                )@[k].id_spec() && final(signers)@[k].share_spec() == old(
                    signers,
                )@[k].share_spec(),
            old(signers)@.len() < old(self).threshold_spec() as nat ==> {
                &&& r matches Err(e) && e matches CoordinatorError::InsufficientShares {
                    expected,
                    actual,
                } && expected == old(self).threshold_spec() as usize && actual as nat == old(
                    signers,
                )@.len()
                &&& final(self).sessions_spec() == old(self).sessions_spec()
                &&& final(signers)@ == old(signers)@
            },
            old(signers)@.len() >= old(self).threshold_spec() as nat ==> (exists|sid: u128|
                #![trigger old(self).sessions_spec().remove(sid)]
                final(self).sessions_spec() == old(self).sessions_spec().remove(sid) && (
                forall|k: int|
                    #![trigger final(signers)@[k]]
                    0 <= k < final(signers)@.len()
                        ==> !final(signers)@[k].nonces().contains_key(sid))),
            r matches Ok(sig) ==> signature_valid(vk_of(old(self).pubkey_spec()), message@, sig),
    {
        if signers.len() < self.threshold as usize {
            return Err(
                CoordinatorError::InsufficientShares {
                    expected: self.threshold as usize,
                    actual: signers.len(),
                },
            );
        }
        let session_id = self.create_session(clone_bytes(message));
        let outcome = self.run_signing_flow(signers, message, session_id);
        self.cleanup_session(signers, session_id);
        proof {
            assert(self.sessions_spec() =~= old(self).sessions_spec().remove(session_id.id));
            assert forall|k: int| 0 <= k < signers@.len() implies !(#[trigger] signers@[k]).nonces().contains_key(
                session_id.id,
            ) by {}
        }
        outcome
    }

    /// The two rounds, aggregation and verification of one flow, over an
    /// already-created session.  Touches no session but the given one and
    /// leaves the signers' identities and shares alone; the caller owns
    /// the terminal cleanup.
    fn run_signing_flow(
        &mut self,
        signers: &mut Vec<Signer>,
        message: &Vec<u8>,
        session_id: SessionId,
    ) -> (r: Result<GroupSignature, CoordinatorError>)
        requires
            old(self).sessions_spec().contains_key(session_id.id),
        ensures
            final(self).threshold_spec() == old(self).threshold_spec(),
            final(self).pubkey_spec() == old(self).pubkey_spec(),
            final(signers)@.len() == old(signers)@.len(),
            forall|k: int|
                0 <= k < old(signers)@.len() ==> (#[trigger] final(signers)@[k]).id_spec() == old(
                    signers,
                )@[k].id_spec() && final(signers)@[k].share_spec() == old(
                    signers,
                )@[k].share_spec(),
            final(self).sessions_spec().contains_key(session_id.id),
            final(self).sessions_spec() == old(self).sessions_spec().insert(
                session_id.id,
                final(self).sessions_spec()[session_id.id],
            ),
            r matches Ok(sig) ==> signature_valid(vk_of(old(self).pubkey_spec()), message@, sig),
    {
        proof {
            assert(old(self).sessions_spec() =~= old(self).sessions_spec().insert(
                session_id.id,
                old(self).sessions_spec()[session_id.id],
            ));
        }

        // round 1: gather one commitment from every signer
        let mut i: usize = 0;
        while i < signers.len()
            invariant
                0 <= i <= signers@.len(),
                self.threshold_spec() == old(self).threshold_spec(),
                self.pubkey_spec() == old(self).pubkey_spec(),
                signers@.len() == old(signers)@.len(),
                forall|k: int|
                    0 <= k < signers@.len() ==> (#[trigger] signers@[k]).id_spec() == old(
                        signers,
                    )@[k].id_spec() && signers@[k].share_spec() == old(signers)@[k].share_spec(),
                self.sessions_spec().contains_key(session_id.id),
                self.sessions_spec() == old(self).sessions_spec().insert(
                    session_id.id,
                    self.sessions_spec()[session_id.id],
                ),
            decreases signers@.len() - i,
        {
            let commitment = {
                let s = &mut signers[i];
                match s.commit(session_id) {
                    Ok(c) => c,
                    Err(_) => {
                        return Err(
                            CoordinatorError::SignerError(
                                String::from_str("a signer failed to commit"),
                            ),
                        );
                    },
                }
            };
            let ser = match commitments_serialize(&commitment) {
                Ok(b) => b,
                Err(msg) => {
                    return Err(CoordinatorError::SignerError(msg));
                },
            };
            let signer_id = signers[i].id();
            let cd = CommitmentData {
                signer_id,
                commitment: crate::hexcode::hex_encode(ser.as_slice()),
            };
            let ghost pre_sessions = self.sessions_spec();
            match self.add_commitment(session_id, cd) {
                Ok(_) => {},
                Err(e) => {
                    return Err(e);
                },
            }
            proof {
                // a second insert at the same key collapses into one
                assert(self.sessions_spec() =~= old(self).sessions_spec().insert(
                    session_id.id,
                    self.sessions_spec()[session_id.id],
                ));
            }
            i += 1;
        }

        // assemble the canonical round-2 package
        let package = match self.get_signing_package(session_id) {
            Ok(p) => p,
            Err(e) => {
                return Err(e);
            },
        };

        // round 2: the selected signers produce their shares
        let mut shares: Vec<(u16, SignatureShare)> = Vec::new();
        let mut k: usize = 0;
        while k < package.commitments.len()
            invariant
                0 <= k <= package.commitments@.len(),
                self.threshold_spec() == old(self).threshold_spec(),
                self.pubkey_spec() == old(self).pubkey_spec(),
                signers@.len() == old(signers)@.len(),
                forall|n: int|
                    0 <= n < signers@.len() ==> (#[trigger] signers@[n]).id_spec() == old(
                        signers,
                    )@[n].id_spec() && signers@[n].share_spec() == old(signers)@[n].share_spec(),
                self.sessions_spec().contains_key(session_id.id),
                self.sessions_spec() == old(self).sessions_spec().insert(
                    session_id.id,
                    self.sessions_spec()[session_id.id],
                ),
            decreases package.commitments@.len() - k,
        {
            let target = package.commitments[k].signer_id;
            let mut idx: usize = 0;
            let mut found: Option<usize> = None;
            while idx < signers.len()
                invariant
                    0 <= idx <= signers@.len(),
                    found matches Some(f) ==> 0 <= f < signers@.len(),
                decreases signers@.len() - idx,
            {
                if signers[idx].id() == target && found.is_none() {
                    found = Some(idx);
                }
                idx += 1;
            }
            let at = match found {
                Some(f) => f,
                None => {
                    return Err(
                        CoordinatorError::SignerError(
                            String::from_str("a selected participant is not among the signers"),
                        ),
                    );
                },
            };
            let share = {
                let s = &mut signers[at];
                match s.sign(session_id, &package) {
                    Ok(sh) => sh,
                    Err(e) => {
                        return Err(CoordinatorError::SignerError(signer_error_message(e)));
                    },
                }
            };
            shares.push((target, share));
            k += 1;
        }

        // aggregate and verify
        let frost_package = match build_frost_package(&package) {
            Ok(p) => p,
            Err(e) => {
                return Err(e);
            },
        };
        let signature = match self.aggregate_signature(&frost_package, &shares) {
            Ok(s) => s,
            Err(e) => {
                return Err(e);
            },
        };
        match self.verify_signature(message, &signature) {
            Ok(()) => {},
            Err(e) => {
                return Err(e);
            },
        }
        Ok(signature)
    }

    /// Terminal cleanup of one session: drop the coordinator's state and
    /// clear every signer's nonce for it (consumed ones are already gone).
    fn cleanup_session(&mut self, signers: &mut Vec<Signer>, session_id: SessionId)
        ensures
            final(self).sessions_spec() == old(self).sessions_spec().remove(session_id.id),
            final(self).threshold_spec() == old(self).threshold_spec(),
            final(self).pubkey_spec() == old(self).pubkey_spec(),
            final(signers)@.len() == old(signers)@.len(),
            forall|k: int|
                0 <= k < old(signers)@.len() ==> {
                    &&& (#[trigger] final(signers)@[k]).id_spec() == old(signers)@[k].id_spec()
                    &&& final(signers)@[k].share_spec() == old(signers)@[k].share_spec()
                    &&& final(signers)@[k].nonces() == old(signers)@[k].nonces().remove(
                        session_id.id,
                    )
                },
    {
        let _ = self.clear_session(&session_id);
        let mut i: usize = 0;
        while i < signers.len()
            invariant
                0 <= i <= signers@.len(),
                signers@.len() == old(signers)@.len(),
                self.sessions_spec() == old(self).sessions_spec().remove(session_id.id),
                self.threshold_spec() == old(self).threshold_spec(),
                self.pubkey_spec() == old(self).pubkey_spec(),
                forall|k: int|
                    0 <= k < i ==> {
                        &&& (#[trigger] signers@[k]).id_spec() == old(signers)@[k].id_spec()
                        &&& signers@[k].share_spec() == old(signers)@[k].share_spec()
                        &&& signers@[k].nonces() == old(signers)@[k].nonces().remove(
                            session_id.id,
                        )
                    },
                forall|k: int| i <= k < signers@.len() ==> #[trigger] signers@[k] == old(
                    signers,
                )@[k],
            decreases signers@.len() - i,
        {
            let s = &mut signers[i];
            let _ = s.clear_session(&session_id);
            i += 1;
        }
    }

    /// How many sessions are live.
    pub fn active_sessions_count(&self) -> (r: usize)
        ensures
            r as nat == self.sessions_spec().dom().len(),
    {
        session_map_len(&self.sessions)
    }

    /// Remove one session, reporting whether it existed.
    pub fn clear_session(&mut self, session_id: &SessionId) -> (r: bool)
        ensures
            r == old(self).sessions_spec().contains_key(session_id.id),
            final(self).sessions_spec() == old(self).sessions_spec().remove(session_id.id),
            final(self).threshold_spec() == old(self).threshold_spec(),
            final(self).pubkey_spec() == old(self).pubkey_spec(),
    {
        session_map_remove(&mut self.sessions, session_id.id)
    }

    /// Remove every session.
    pub fn clear_all_sessions(&mut self)
        ensures
            final(self).sessions_spec() == Map::<u128, SessionState>::empty(),
            final(self).threshold_spec() == old(self).threshold_spec(),
            final(self).pubkey_spec() == old(self).pubkey_spec(),
    {
        session_map_clear(&mut self.sessions)
    }
}

/// A fresh copy of a byte string.
pub fn clone_bytes(v: &Vec<u8>) -> (r: Vec<u8>)
    ensures
        r@ == v@,
{
    let mut out: Vec<u8> = Vec::new();
    let mut i: usize = 0;
    while i < v.len()
        invariant
            0 <= i <= v@.len(),
            out@ == v@.subrange(0, i as int),
        decreases v@.len() - i,
    {
        out.push(v[i]);
        i += 1;
        proof {
            assert(out@ =~= v@.subrange(0, i as int));
        }
    }
    proof {
        assert(out@ =~= v@);
    }
    out
}

/// The message a signer-side error carries, for surfacing through the
/// coordinator.
pub fn signer_error_message(e: SignerError) -> (r: String) {
    match e {
        SignerError::SessionNotFound(_) => String::from_str(
            "session not found at signer - the nonce was consumed or never created",
        ),
        SignerError::CommitmentGenerationFailed(m) => m,
        SignerError::SignatureGenerationFailed(m) => m,
        SignerError::InvalidCommitment(m) => m,
        SignerError::InvalidSigningPackage(m) => m,
        SignerError::FrostError(m) => m,
    }
}

/// Byte-for-byte equality of two byte strings.
pub fn bytes_equal(a: &Vec<u8>, b: &Vec<u8>) -> (r: bool)
    ensures
        r == (a@ == b@),
{
    if a.len() != b.len() {
        assert(a@ != b@);
        return false;
    }
    let mut i: usize = 0;
    while i < a.len()
        invariant
            0 <= i <= a@.len(),
            a@.len() == b@.len(),
            forall|k: int| 0 <= k < i ==> a@[k] == b@[k],
        decreases a@.len() - i,
    {
        if a[i] != b[i] {
            return false;
        }
        i += 1;
    }
    assert(a@ =~= b@);
    true
}

/// Decode one transmitted signature share: the signer id must be at least
/// 1, the payload well-formed hex whose bytes the primitives accept.
pub fn parse_share_data(d: &SignatureShareData) -> (r: Result<
    (u16, SignatureShare),
    CoordinatorError,
>)
    ensures
        r is Ok <==> (d.signer_id >= 1 && valid_hex(d.signature_share@) && parse_share(
            bytes_of_hex(d.signature_share@),
        ) is Some),
        r matches Ok(p) ==> p.0 == d.signer_id && Some(p.1) == parse_share(
            bytes_of_hex(d.signature_share@),
        ),
        r matches Err(e) ==> e matches CoordinatorError::ShareDeserializationFailed(_),
{
    if d.signer_id < 1 {
        return Err(
            CoordinatorError::ShareDeserializationFailed(
                String::from_str("signer id must be at least 1"),
            ),
        );
    }
    let bytes = match hex_decode(d.signature_share.as_str()) {
        Ok(b) => b,
        Err(_) => {
            return Err(
                CoordinatorError::ShareDeserializationFailed(
                    String::from_str("signature share is not valid hex"),
                ),
            );
        },
    };
    match share_deserialize(bytes.as_slice()) {
        Ok(s) => Ok((d.signer_id, s)),
        Err(_) => Err(
            CoordinatorError::ShareDeserializationFailed(
                String::from_str("signature share bytes do not decode"),
            ),
        ),
    }
}

/// Rebuild the primitives' signing package from transmitted data: every
/// commitment decoded and ordered canonically by ascending signer id.
pub fn build_frost_package(data: &SigningPackageData) -> (r: Result<
    SigningPackage,
    CoordinatorError,
>)
    ensures
        r is Ok <==> package_ok(data.commitments@),
        r matches Ok(p) ==> p == package_of(canonical_seq(data.commitments@), data.message@),
        r matches Err(e) ==> e matches CoordinatorError::CommitmentDeserializationFailed(_),
{
    let pairs = match canonical_commitment_pairs(&data.commitments) {
        Ok(p) => p,
        Err(_) => {
            return Err(
                CoordinatorError::CommitmentDeserializationFailed(
                    String::from_str("a commitment in the package does not decode"),
                ),
            );
        },
    };
    proof {
        crate::signer::lemma_canonical_ids(data.commitments@);
        assert forall|t: int| 0 <= t < pairs@.len() implies (#[trigger] pairs@[t]).0 != 0 by {
            assert(crate::signer::has_id(pairs@, pairs@[t].0));
        }
    }
    Ok(new_signing_package(&pairs, data.message.as_slice()))
}

/// Message binding across rounds.  `create_session` stores the message
/// `m1` with the new session; if the message is altered to some `m2`
/// before round 2, no session store can satisfy the binding predicate for
/// `m2`, so `check_round2_binding` — whose success is exactly
/// `round2_binding_ok` — rejects the request with `SessionMismatch`.
pub proof fn lemma_message_binding(
    sessions: Map<u128, SessionState>,
    sid: u128,
    altered_message: Seq<u8>,
)
    requires
        sessions.contains_key(sid),
        sessions[sid].message@ != altered_message,
    ensures
        !round2_binding_ok(sessions, sid, altered_message),
{
}

} // verus!
