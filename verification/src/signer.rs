//! The signer actor: one key share, a nonce store, and the round-1 /
//! round-2 operations.
//!
//! The security heart of the module is the nonce lifecycle.  A secret nonce
//! is created inside `commit`, stored keyed by session id, and removed
//! atomically with its first use in `sign` (or discarded by
//! `clear_session`).  `sign` obtains a nonce only through that removal, so
//! no two calls can derive shares from the same stored nonce;
//! `lemma_nonce_consumed_once` states the map-level fact this rests on.

use vstd::prelude::*;

use crate::api::{CommitmentData, SessionId, SigningPackageData};
use crate::crypto::{
    commitments_deserialize, frost_commit, frost_sign, key_package_check, key_package_of,
    new_signing_package, package_of, parse_commitments, sign_result, SecretShare,
    SignatureShare, SigningCommitments, SigningNonces,
};
use crate::hexcode::{bytes_of_hex, hex_decode, valid_hex};

verus! {

// ------------------------------------------------------------------
// Errors
// ------------------------------------------------------------------
/// What can go wrong on the signer side.
#[derive(Debug)]
pub enum SignerError {
    /// No nonce is stored for the session: it was never created, was
    /// already consumed by a sign, or was cleared.
    SessionNotFound(SessionId),
    /// Nonce or commitment generation failed.
    CommitmentGenerationFailed(String),
    /// The round-2 primitive failed.
    SignatureGenerationFailed(String),
    /// One commitment in a signing package could not be decoded.
    InvalidCommitment(String),
    /// The signing package is structurally unusable: duplicate signer, or
    /// this signer's own commitment missing.
    InvalidSigningPackage(String),
    /// Any other error surfaced by the underlying FROST library.
    FrostError(String),
}

// ------------------------------------------------------------------
// The concurrent nonce store, kept behind trusted wrappers.
// ------------------------------------------------------------------
#[verifier::external_type_specification]
#[verifier::external_body]
#[verifier::reject_recursive_types(K)]
#[verifier::reject_recursive_types(V)]
#[verifier::reject_recursive_types(S)]
pub struct ExDashMap<K, V, S>(dashmap::DashMap<K, V, S>);

/// What the signer's concurrent nonce map holds: one secret nonce per
/// pending session id.
pub uninterp spec fn nonce_map_of(m: dashmap::DashMap<u128, SigningNonces>) -> Map<
    u128,
    SigningNonces,
>;

/// Relies on DashMap::new: the new map is empty.
#[verifier::external_body]
fn nonce_map_new() -> (m: dashmap::DashMap<u128, SigningNonces>)
    ensures
        nonce_map_of(m) =~= Map::empty(),
{
    dashmap::DashMap::new()
}

/// Relies on DashMap::insert: remaps the key to the value; the returned
/// prior value tells whether the key was present.
#[verifier::external_body]
fn nonce_map_insert(
    m: &mut dashmap::DashMap<u128, SigningNonces>,
    k: u128,
    v: SigningNonces,
) -> (prev: Option<SigningNonces>)
    ensures
        nonce_map_of(*final(m)) == nonce_map_of(*old(m)).insert(k, v),
        prev is Some <==> nonce_map_of(*old(m)).contains_key(k),
{
    m.insert(k, v)
}

/// Relies on DashMap::remove: takes the entry out and returns its value.
/// The removal is a single atomic step, so no two concurrent takes for one
/// key can both observe the nonce as present.
#[verifier::external_body]
fn nonce_map_remove(m: &mut dashmap::DashMap<u128, SigningNonces>, k: u128) -> (r: Option<
    SigningNonces,
>)
    ensures
        nonce_map_of(*final(m)) == nonce_map_of(*old(m)).remove(k),
        r is Some <==> nonce_map_of(*old(m)).contains_key(k),
        r matches Some(v) ==> nonce_map_of(*old(m))[k] == v,
{
    m.remove(&k).map(|(_, v)| v)
}

/// Relies on DashMap::contains_key.
#[verifier::external_body]
fn nonce_map_contains(m: &dashmap::DashMap<u128, SigningNonces>, k: u128) -> (r: bool)
    ensures
        r == nonce_map_of(*m).contains_key(k),
{
    m.contains_key(&k)
}

/// Relies on DashMap::len: the number of stored entries.
#[verifier::external_body]
fn nonce_map_len(m: &dashmap::DashMap<u128, SigningNonces>) -> (r: usize)
    ensures
        r as nat == nonce_map_of(*m).dom().len(),
{
    m.len()
}

/// Relies on DashMap::clear: afterwards the map is empty.
#[verifier::external_body]
fn nonce_map_clear(m: &mut dashmap::DashMap<u128, SigningNonces>)
    ensures
        nonce_map_of(*final(m)) =~= Map::empty(),
{
    m.clear()
}

// ------------------------------------------------------------------
// The canonical signing package: parsing and deterministic ordering.
// ------------------------------------------------------------------
/// The bytes a commitment entry denotes.
pub open spec fn commitment_bytes_of(c: CommitmentData) -> Seq<u8> {
    bytes_of_hex(c.commitment@)
}

/// Whether one commitment entry can be turned into curve points: a signer
/// id of at least 1, well-formed hex, and bytes the primitives accept.
pub open spec fn parseable(c: CommitmentData) -> bool {
    &&& c.signer_id >= 1
    &&& valid_hex(c.commitment@)
    &&& parse_commitments(commitment_bytes_of(c)) is Some
}

/// The identifier/commitment pair one entry denotes.
pub open spec fn parsed_of(c: CommitmentData) -> (u16, SigningCommitments) {
    (c.signer_id, parse_commitments(commitment_bytes_of(c)).unwrap())
}

/// No signer appears twice.
pub open spec fn distinct_ids(cs: Seq<CommitmentData>) -> bool {
    forall|i: int, j: int|
        0 <= i < j < cs.len() ==> (#[trigger] cs[i]).signer_id != (#[trigger] cs[j]).signer_id
}

/// A commitment list a canonical package can be built from: every entry
/// parses and no signer appears twice.
pub open spec fn package_ok(cs: Seq<CommitmentData>) -> bool {
    &&& forall|i: int| 0 <= i < cs.len() ==> parseable(#[trigger] cs[i])
    &&& distinct_ids(cs)
}

/// Strictly ascending signer ids.
pub open spec fn sorted_pairs(s: Seq<(u16, SigningCommitments)>) -> bool {
    forall|i: int, j: int| 0 <= i < j < s.len() ==> (#[trigger] s[i]).0 < (#[trigger] s[j]).0
}

/// Whether some pair carries the given signer id.
pub open spec fn has_id(s: Seq<(u16, SigningCommitments)>, id: u16) -> bool {
    exists|i: int| 0 <= i < s.len() && (#[trigger] s[i]).0 == id
}

/// Insertion of one pair into an id-sorted sequence, before the first
/// element whose id is not smaller.
pub open spec fn insert_sorted(
    s: Seq<(u16, SigningCommitments)>,
    p: (u16, SigningCommitments),
) -> Seq<(u16, SigningCommitments)>
    decreases s.len(),
{
    if s.len() == 0 {
        seq![p]
    } else if p.0 <= s[0].0 {
        seq![p] + s
    } else {
        seq![s[0]] + insert_sorted(s.skip(1), p)
    }
}

/// The canonical participant list of a signing package: every entry parsed,
/// ordered by ascending signer id.  The primitives' Fiat-Shamir hashing
/// depends on this order being identical across all parties.
pub open spec fn canonical_seq(cs: Seq<CommitmentData>) -> Seq<(u16, SigningCommitments)>
    decreases cs.len(),
{
    if cs.len() == 0 {
        Seq::empty()
    } else {
        insert_sorted(canonical_seq(cs.drop_last()), parsed_of(cs.last()))
    }
}

proof fn lemma_insert_sorted_ids(s: Seq<(u16, SigningCommitments)>, p: (u16, SigningCommitments))
    ensures
        insert_sorted(s, p).len() == s.len() + 1,
        forall|x: u16|
            #![trigger has_id(insert_sorted(s, p), x)]
            has_id(insert_sorted(s, p), x) <==> (has_id(s, x) || x == p.0),
    decreases s.len(),
{
    if s.len() == 0 {
        assert forall|x: u16|
            has_id(insert_sorted(s, p), x) <==> (has_id(s, x) || x == p.0) by {
            if has_id(insert_sorted(s, p), x) {
                let i = choose|i: int|
                    0 <= i < insert_sorted(s, p).len() && insert_sorted(s, p)[i].0 == x;
                assert(insert_sorted(s, p)[i] == p);
            }
            if x == p.0 {
                assert(insert_sorted(s, p)[0] == p);
                assert(has_id(insert_sorted(s, p), x));
            }
        }
    } else if p.0 <= s[0].0 {
        let t = seq![p] + s;
        assert forall|x: u16| has_id(t, x) <==> (has_id(s, x) || x == p.0) by {
            if has_id(t, x) {
                let i = choose|i: int| 0 <= i < t.len() && t[i].0 == x;
                if i == 0 {
                } else {
                    assert(t[i] == s[i - 1]);
                    assert(has_id(s, x));
                }
            }
            if x == p.0 {
                assert(t[0] == p);
                assert(has_id(t, x));
            }
            if has_id(s, x) {
                let i = choose|i: int| 0 <= i < s.len() && s[i].0 == x;
                assert(t[i + 1] == s[i]);
                assert(has_id(t, x));
            }
        }
        assert(insert_sorted(s, p) == t);
    } else {
        lemma_insert_sorted_ids(s.skip(1), p);
        let rec = insert_sorted(s.skip(1), p);
        let t = seq![s[0]] + rec;
        assert forall|x: u16| has_id(t, x) <==> (has_id(s, x) || x == p.0) by {
            if has_id(t, x) {
                let i = choose|i: int| 0 <= i < t.len() && t[i].0 == x;
                if i == 0 {
                    assert(s[0].0 == x);
                    assert(has_id(s, x));
                } else {
                    assert(t[i] == rec[i - 1]);
                    assert(has_id(insert_sorted(s.skip(1), p), x));
                    if has_id(s.skip(1), x) {
                        let k = choose|k: int| 0 <= k < s.skip(1).len() && s.skip(1)[k].0 == x;
                        assert(s[k + 1].0 == x);
                        assert(has_id(s, x));
                    }
                }
            }
            if x == p.0 {
                assert(has_id(insert_sorted(s.skip(1), p), x));
                let i = choose|i: int| 0 <= i < rec.len() && rec[i].0 == x;
                assert(t[i + 1] == rec[i]);
                assert(has_id(t, x));
            }
            if has_id(s, x) {
                let i = choose|i: int| 0 <= i < s.len() && s[i].0 == x;
                if i == 0 {
                    assert(t[0].0 == x);
                    assert(has_id(t, x));
                } else {
                    assert(s.skip(1)[i - 1].0 == x);
                    assert(has_id(s.skip(1), x));
                    assert(has_id(insert_sorted(s.skip(1), p), x));
                    let k = choose|k: int| 0 <= k < rec.len() && rec[k].0 == x;
                    assert(t[k + 1] == rec[k]);
                    assert(has_id(t, x));
                }
            }
        }
        assert(insert_sorted(s, p) == t);
    }
}

proof fn lemma_insert_sorted_sorted(
    s: Seq<(u16, SigningCommitments)>,
    p: (u16, SigningCommitments),
)
    requires
        sorted_pairs(s),
        !has_id(s, p.0),
    ensures
        sorted_pairs(insert_sorted(s, p)),
    decreases s.len(),
{
    if s.len() == 0 {
    } else if p.0 <= s[0].0 {
        let t = seq![p] + s;
        assert(s[0].0 != p.0);
        assert forall|i: int, j: int| 0 <= i < j < t.len() implies t[i].0 < t[j].0 by {
            if i == 0 {
                assert(t[j] == s[j - 1]);
                if j - 1 > 0 {
                    assert(s[0].0 < s[j - 1].0);
                }
            } else {
                assert(t[i] == s[i - 1]);
                assert(t[j] == s[j - 1]);
            }
        }
    } else {
        assert(forall|k: int| 0 <= k < s.skip(1).len() ==> #[trigger] s.skip(1)[k] == s[k + 1]);
        assert(sorted_pairs(s.skip(1)));
        assert forall|x: u16| has_id(s.skip(1), x) implies has_id(s, x) by {
            let k = choose|k: int| 0 <= k < s.skip(1).len() && s.skip(1)[k].0 == x;
            assert(s[k + 1].0 == x);
        }
        lemma_insert_sorted_sorted(s.skip(1), p);
        lemma_insert_sorted_ids(s.skip(1), p);
        let rec = insert_sorted(s.skip(1), p);
        let t = seq![s[0]] + rec;
        assert forall|i: int, j: int| 0 <= i < j < t.len() implies t[i].0 < t[j].0 by {
            if i == 0 {
                assert(t[j] == rec[j - 1]);
                assert(has_id(rec, rec[j - 1].0));
                if has_id(s.skip(1), rec[j - 1].0) {
                    let k = choose|k: int|
                        0 <= k < s.skip(1).len() && s.skip(1)[k].0 == rec[j - 1].0;
                    assert(s[k + 1].0 == rec[j - 1].0);
                    assert(s[0].0 < s[k + 1].0);
                } else {
                    assert(rec[j - 1].0 == p.0);
                }
            } else {
                assert(t[i] == rec[i - 1]);
                assert(t[j] == rec[j - 1]);
            }
        }
    }
}

proof fn lemma_insert_sorted_at(s: Seq<(u16, SigningCommitments)>, p: (u16, SigningCommitments), j: int)
    requires
        0 <= j <= s.len(),
        forall|k: int| 0 <= k < j ==> (#[trigger] s[k]).0 < p.0,
        j < s.len() ==> p.0 <= s[j].0,
    ensures
        insert_sorted(s, p) =~= s.subrange(0, j) + seq![p] + s.subrange(j, s.len() as int),
    decreases s.len(),
{
    if s.len() == 0 {
    } else if j == 0 {
        assert(p.0 <= s[0].0);
    } else {
        assert(s[0].0 < p.0);
        assert(forall|k: int| 0 <= k < j - 1 ==> (#[trigger] s.skip(1)[k]).0 < p.0);
        lemma_insert_sorted_at(s.skip(1), p, j - 1);
    }
}

/// The ids appearing in the canonical order are exactly the submitted ones,
/// and the length is kept.
pub proof fn lemma_canonical_ids(cs: Seq<CommitmentData>)
    ensures
        canonical_seq(cs).len() == cs.len(),
        forall|x: u16|
            #![trigger has_id(canonical_seq(cs), x)]
            has_id(canonical_seq(cs), x) <==> (exists|k: int|
                0 <= k < cs.len() && (#[trigger] cs[k]).signer_id == x),
    decreases cs.len(),
{
    if cs.len() == 0 {
    } else {
        lemma_canonical_ids(cs.drop_last());
        lemma_insert_sorted_ids(canonical_seq(cs.drop_last()), parsed_of(cs.last()));
        assert(canonical_seq(cs) == insert_sorted(
            canonical_seq(cs.drop_last()),
            parsed_of(cs.last()),
        ));
        assert forall|x: u16|
            has_id(canonical_seq(cs), x) <==> (exists|k: int|
                0 <= k < cs.len() && (#[trigger] cs[k]).signer_id == x) by {
            if has_id(canonical_seq(cs), x) {
                assert(has_id(canonical_seq(cs.drop_last()), x) || x == parsed_of(cs.last()).0);
                if has_id(canonical_seq(cs.drop_last()), x) {
                    let k = choose|k: int|
                        0 <= k < cs.drop_last().len() && (#[trigger] cs.drop_last()[k]).signer_id
                            == x;
                    assert(cs[k].signer_id == x);
                } else {
                    assert(cs[cs.len() - 1].signer_id == x);
                }
            }
            if exists|k: int| 0 <= k < cs.len() && (#[trigger] cs[k]).signer_id == x {
                let k = choose|k: int| 0 <= k < cs.len() && (#[trigger] cs[k]).signer_id == x;
                if k == cs.len() - 1 {
                    assert(x == parsed_of(cs.last()).0);
                    assert(has_id(canonical_seq(cs), x));
                } else {
                    assert(cs.drop_last()[k].signer_id == x);
                    assert(exists|t: int|
                        0 <= t < cs.drop_last().len() && (#[trigger] cs.drop_last()[t]).signer_id
                            == x);
                    assert(has_id(canonical_seq(cs.drop_last()), x));
                    assert(has_id(canonical_seq(cs), x));
                }
            }
        }
    }
}

/// With distinct submitted ids the canonical order is strictly ascending.
proof fn lemma_canonical_sorted(cs: Seq<CommitmentData>)
    requires
        distinct_ids(cs),
    ensures
        sorted_pairs(canonical_seq(cs)),
    decreases cs.len(),
{
    if cs.len() > 0 {
        assert(distinct_ids(cs.drop_last()));
        lemma_canonical_sorted(cs.drop_last());
        lemma_canonical_ids(cs.drop_last());
        let last_id = parsed_of(cs.last()).0;
        assert(!has_id(canonical_seq(cs.drop_last()), last_id)) by {
            if has_id(canonical_seq(cs.drop_last()), last_id) {
                let k = choose|k: int|
                    0 <= k < cs.drop_last().len() && (#[trigger] cs.drop_last()[k]).signer_id
                        == last_id;
                assert(cs[k].signer_id == cs[cs.len() - 1].signer_id);
            }
        }
        lemma_insert_sorted_sorted(canonical_seq(cs.drop_last()), parsed_of(cs.last()));
    }
}

/// Parse a submitted commitment list into the canonical participant list:
/// every entry decoded, ordered by ascending signer id.  Succeeds exactly
/// when every entry parses and no signer appears twice: a signing package
/// is a mapping keyed by signer id, so a repeated signer makes the package
/// ambiguous and it is rejected outright rather than silently collapsed.
pub fn canonical_commitment_pairs(commitments: &Vec<CommitmentData>) -> (r: Result<
    Vec<(u16, SigningCommitments)>,
    SignerError,
>)
    ensures
        r is Ok <==> package_ok(commitments@),
        r matches Ok(v) ==> v@ == canonical_seq(commitments@) && sorted_pairs(v@),
        r matches Err(e) ==> (e matches SignerError::InvalidCommitment(_) || e
            matches SignerError::InvalidSigningPackage(_)),
{
    let mut out: Vec<(u16, SigningCommitments)> = Vec::new();
    let mut i: usize = 0;
    while i < commitments.len()
        invariant
            0 <= i <= commitments@.len(),
            forall|k: int| 0 <= k < i ==> parseable(#[trigger] commitments@[k]),
            distinct_ids(commitments@.subrange(0, i as int)),
            out@ == canonical_seq(commitments@.subrange(0, i as int)),
            sorted_pairs(out@),
            out@.len() == i as nat,
        decreases commitments@.len() - i,
    {
        let cd = &commitments[i];
        if cd.signer_id < 1 {
            assert(!parseable(commitments@[i as int]));
            assert(!package_ok(commitments@));
            return Err(
                SignerError::InvalidCommitment(String::from_str("signer id must be at least 1")),
            );
        }
        let bytes = match hex_decode(cd.commitment.as_str()) {
            Ok(b) => b,
            Err(_) => {
                assert(!parseable(commitments@[i as int]));
                assert(!package_ok(commitments@));
                return Err(
                    SignerError::InvalidCommitment(
                        String::from_str("commitment is not valid hex"),
                    ),
                );
            },
        };
        let parsed = match commitments_deserialize(bytes.as_slice()) {
            Ok(c) => c,
            Err(_) => {
                assert(!parseable(commitments@[i as int]));
                assert(!package_ok(commitments@));
                return Err(
                    SignerError::InvalidCommitment(
                        String::from_str("commitment bytes do not decode"),
                    ),
                );
            },
        };
        assert(parseable(commitments@[i as int]));
        assert((cd.signer_id, parsed) == parsed_of(commitments@[i as int]));
        // find the insertion point in the id-sorted list built so far
        let mut j: usize = 0;
        while j < out.len() && out[j].0 < cd.signer_id
            invariant
                0 <= j <= out@.len(),
                forall|k: int| 0 <= k < j ==> (#[trigger] out@[k]).0 < cd.signer_id,
            decreases out@.len() - j,
        {
            j += 1;
        }
        if j < out.len() && out[j].0 == cd.signer_id {
            // the same signer already appears: the package is ambiguous
            proof {
                assert(has_id(out@, cd.signer_id));
                lemma_canonical_ids(commitments@.subrange(0, i as int));
                assert(has_id(canonical_seq(commitments@.subrange(0, i as int)), cd.signer_id));
                assert(exists|k: int|
                    0 <= k < commitments@.subrange(0, i as int).len()
                        && (#[trigger] commitments@.subrange(0, i as int)[k]).signer_id == cd.signer_id);
                let k = choose|k: int|
                    0 <= k < commitments@.subrange(0, i as int).len()
                        && (#[trigger] commitments@.subrange(0, i as int)[k]).signer_id == cd.signer_id;
                assert(commitments@[k].signer_id == commitments@[i as int].signer_id);
                assert(!distinct_ids(commitments@));
                assert(!package_ok(commitments@));
            }
            return Err(
                SignerError::InvalidSigningPackage(
                    String::from_str("duplicate signer in package"),
                ),
            );
        }
        proof {
            // no pair in `out` carries this id, so insertion keeps ids unique
            assert(!has_id(out@, cd.signer_id)) by {
                if has_id(out@, cd.signer_id) {
                    let k = choose|k: int| 0 <= k < out@.len() && (#[trigger] out@[k]).0
                        == cd.signer_id;
                    if k < j {
                    } else {
                        if j < out@.len() && k > j {
                            assert(out@[j as int].0 < out@[k].0);
                        }
                    }
                }
            }
            lemma_insert_sorted_at(out@, parsed_of(commitments@[i as int]), j as int);
            lemma_insert_sorted_sorted(out@, parsed_of(commitments@[i as int]));
        }
        let ghost old_out = out@;
        out.insert(j, (cd.signer_id, parsed));
        i += 1;
        proof {
            let prefix = commitments@.subrange(0, i as int);
            assert(prefix.drop_last() =~= commitments@.subrange(0, i as int - 1));
            assert(prefix.last() == commitments@[i as int - 1]);
            assert(out@ =~= insert_sorted(old_out, parsed_of(commitments@[i as int - 1])));
            assert(out@ == canonical_seq(prefix));
            assert(distinct_ids(prefix)) by {
                lemma_canonical_ids(commitments@.subrange(0, i as int - 1));
                assert forall|a: int, b: int| 0 <= a < b < prefix.len() implies (#[trigger] prefix[a]).signer_id
                    != (#[trigger] prefix[b]).signer_id by {
                    if b == prefix.len() - 1 {
                        if prefix[a].signer_id == prefix[b].signer_id {
                            assert(commitments@.subrange(0, i as int - 1)[a].signer_id == prefix[b].signer_id);
                            assert(has_id(old_out, prefix[b].signer_id));
                        }
                    }
                }
            }
            lemma_insert_sorted_ids(old_out, parsed_of(commitments@[i as int - 1]));
        }
    }
    assert(commitments@.subrange(0, commitments@.len() as int) =~= commitments@);
    Ok(out)
}

// ------------------------------------------------------------------
// The signer actor.
// ------------------------------------------------------------------
/// One FROST participant: holds its secret share, manages its nonce store,
/// and produces round-1 commitments and round-2 signature shares.  Never
/// exposes secrets.
pub struct Signer {
    signer_id: u16,
    secret_share: SecretShare,
    nonce_store: dashmap::DashMap<u128, SigningNonces>,
    overwrite_warnings: u64,
}

impl Signer {
    /// The nonce store contents: one secret nonce per pending session.
    pub closed spec fn nonces(self) -> Map<u128, SigningNonces> {
        nonce_map_of(self.nonce_store)
    }

    /// This signer's identifier.
    pub closed spec fn id_spec(self) -> u16 {
        self.signer_id
    }

    /// This signer's immutable secret share.
    pub closed spec fn share_spec(self) -> SecretShare {
        self.secret_share
    }

    /// How many commits found (and replaced) an existing nonce: each such
    /// event is an anomaly worth surfacing.
    pub closed spec fn warnings_spec(self) -> u64 {
        self.overwrite_warnings
    }

    /// A fresh signer with the given identifier and secret share and an
    /// empty nonce store.
    pub fn new(signer_id: u16, secret_share: SecretShare) -> (r: Signer)
        ensures
            r.id_spec() == signer_id,
            r.share_spec() == secret_share,
            r.nonces() == Map::<u128, SigningNonces>::empty(),
            r.warnings_spec() == 0,
    {
        Signer {
            signer_id,
            secret_share,
            nonce_store: nonce_map_new(),
            overwrite_warnings: 0,
        }
    }

    /// This signer's identifier.
    pub fn id(&self) -> (r: u16)
        ensures
            r == self.id_spec(),
    {
        self.signer_id
    }

    /// Round 1: generate fresh signing nonces, store the secret part under
    /// the session id, and return the public commitment.
    ///
    /// If a nonce already exists for the session the call still succeeds,
    /// but the old nonce is replaced — it can never be used again — and the
    /// overwrite-warning counter records the anomaly.
    pub fn commit(&mut self, session_id: SessionId) -> (r: Result<SigningCommitments, SignerError>)
        ensures
            r is Ok,
            final(self).nonces().contains_key(session_id.id),
            exists|n: SigningNonces|
                final(self).nonces() == old(self).nonces().insert(session_id.id, n),
            final(self).id_spec() == old(self).id_spec(),
            final(self).share_spec() == old(self).share_spec(),
            final(self).warnings_spec() == if old(self).nonces().contains_key(session_id.id) {
                sat_inc(old(self).warnings_spec())
            } else {
                old(self).warnings_spec()
            },
    {
        let (nonces, commitments) = frost_commit(&self.secret_share);
        let had = nonce_map_contains(&self.nonce_store, session_id.id);
        if had {
            if self.overwrite_warnings < u64::MAX {
                self.overwrite_warnings = self.overwrite_warnings + 1;
            }
        }
        let ghost pre = self.nonces();
        let ghost nval = nonces;
        let _prev = nonce_map_insert(&mut self.nonce_store, session_id.id, nonces);
        proof {
            assert(self.nonces() == pre.insert(session_id.id, nval));
            assert(pre == old(self).nonces());
        }
        Ok(commitments)
    }

    /// Round 2: produce this signer's signature share.
    ///
    /// The nonce for the session is removed first, atomically with the
    /// lookup — whatever happens afterwards, it is consumed and a second
    /// call for the same session fails with `SessionNotFound`.  A failure
    /// after the removal deliberately leaves the session dead: retrying a
    /// sign with a stale nonce is the disaster FROST exists to prevent.
    /// A malformed package — an entry that does not decode, or the same
    /// signer listed twice — is rejected whole with
    /// `InvalidSigningPackage`.
    pub fn sign(&mut self, session_id: SessionId, signing_package_data: &SigningPackageData) -> (r:
        Result<SignatureShare, SignerError>)
        ensures
            final(self).id_spec() == old(self).id_spec(),
            final(self).share_spec() == old(self).share_spec(),
            final(self).warnings_spec() == old(self).warnings_spec(),
            !old(self).nonces().contains_key(session_id.id) ==> {
                &&& r matches Err(e) && e matches SignerError::SessionNotFound(s) && s
                    == session_id
                &&& final(self).nonces() == old(self).nonces()
            },
            old(self).nonces().contains_key(session_id.id) ==> final(self).nonces() == old(
                self,
            ).nonces().remove(session_id.id),
            old(self).nonces().contains_key(session_id.id) && !package_ok(
                signing_package_data.commitments@,
            ) ==> (r matches Err(e) && e matches SignerError::InvalidSigningPackage(_)),
            old(self).nonces().contains_key(session_id.id) && package_ok(
                signing_package_data.commitments@,
            ) && !has_id(canonical_seq(signing_package_data.commitments@), old(self).id_spec())
                ==> (r matches Err(e) && e matches SignerError::InvalidSigningPackage(_)),
            old(self).nonces().contains_key(session_id.id) && package_ok(
                signing_package_data.commitments@,
            ) && has_id(canonical_seq(signing_package_data.commitments@), old(self).id_spec())
                && key_package_check(old(self).share_spec()) is None ==> (r matches Err(e) && e
                matches SignerError::SignatureGenerationFailed(_)),
            old(self).nonces().contains_key(session_id.id) && package_ok(
                signing_package_data.commitments@,
            ) && has_id(canonical_seq(signing_package_data.commitments@), old(self).id_spec())
                && key_package_check(old(self).share_spec()) is Some ==> {
                let pkg = package_of(
                    canonical_seq(signing_package_data.commitments@),
                    signing_package_data.message@,
                );
                let kp = key_package_check(old(self).share_spec()).unwrap();
                let n = old(self).nonces()[session_id.id];
                &&& (r is Ok <==> sign_result(pkg, n, kp) is Some)
                &&& (r matches Ok(s) ==> sign_result(pkg, n, kp) == Some(s))
                &&& (sign_result(pkg, n, kp) is None ==> (r matches Err(e) && e
                    matches SignerError::SignatureGenerationFailed(_)))
            },
    {
        // take-and-delete: the only way a nonce value is ever read
        let taken = nonce_map_remove(&mut self.nonce_store, session_id.id);
        let nonces = match taken {
            None => {
                return Err(SignerError::SessionNotFound(session_id));
            },
            Some(n) => n,
        };
        // a package that cannot be parsed into the canonical form is
        // malformed as a whole: surface it as an invalid signing package
        let pairs = match canonical_commitment_pairs(&signing_package_data.commitments) {
            Err(SignerError::InvalidCommitment(m)) => {
                return Err(SignerError::InvalidSigningPackage(m));
            },
            Err(e) => {
                return Err(e);
            },
            Ok(p) => p,
        };
        // this signer's own commitment must be part of the package
        let mut present = false;
        let mut k: usize = 0;
        while k < pairs.len()
            invariant
                0 <= k <= pairs@.len(),
                pairs@ == canonical_seq(signing_package_data.commitments@),
                present <==> exists|t: int| 0 <= t < k && (#[trigger] pairs@[t]).0
                    == self.signer_id,
            decreases pairs@.len() - k,
        {
            if pairs[k].0 == self.signer_id {
                present = true;
            }
            k += 1;
        }
        if !present {
            assert(!has_id(canonical_seq(signing_package_data.commitments@), self.signer_id));
            return Err(
                SignerError::InvalidSigningPackage(
                    String::from_str("this signer's commitment is missing from the package"),
                ),
            );
        }
        assert(has_id(canonical_seq(signing_package_data.commitments@), self.signer_id));
        let key_package = match key_package_of(&self.secret_share) {
            Err(msg) => {
                return Err(SignerError::SignatureGenerationFailed(msg));
            },
            Ok(kp) => kp,
        };
        proof {
            lemma_canonical_ids(signing_package_data.commitments@);
            assert forall|t: int| 0 <= t < pairs@.len() implies (#[trigger] pairs@[t]).0 != 0 by {
                assert(has_id(pairs@, pairs@[t].0));
            }
        }
        let package = new_signing_package(&pairs, signing_package_data.message.as_slice());
        match frost_sign(&package, &nonces, &key_package) {
            Ok(s) => Ok(s),
            Err(msg) => Err(SignerError::SignatureGenerationFailed(msg)),
        }
    }

    /// How many commits found (and replaced) an existing nonce for their
    /// session: the observable warning surface for the overwrite anomaly.
    pub fn overwrite_warnings(&self) -> (r: u64)
        ensures
            r == self.warnings_spec(),
    {
        self.overwrite_warnings
    }

    /// How many sessions currently hold a stored nonce.
    pub fn active_sessions_count(&self) -> (r: usize)
        ensures
            r as nat == self.nonces().dom().len(),
    {
        nonce_map_len(&self.nonce_store)
    }

    /// Whether a nonce is stored for the session.
    pub fn has_session(&self, session_id: &SessionId) -> (r: bool)
        ensures
            r == self.nonces().contains_key(session_id.id),
    {
        nonce_map_contains(&self.nonce_store, session_id.id)
    }

    /// Discard the nonce stored for one session, reporting whether there
    /// was one.  Used for cancellation and error recovery.
    pub fn clear_session(&mut self, session_id: &SessionId) -> (r: bool)
        ensures
            r == old(self).nonces().contains_key(session_id.id),
            final(self).nonces() == old(self).nonces().remove(session_id.id),
            final(self).id_spec() == old(self).id_spec(),
            final(self).share_spec() == old(self).share_spec(),
            final(self).warnings_spec() == old(self).warnings_spec(),
    {
        let taken = nonce_map_remove(&mut self.nonce_store, session_id.id);
        taken.is_some()
    }

    /// Discard every stored nonce.
    pub fn clear_all_sessions(&mut self)
        ensures
            final(self).nonces() == Map::<u128, SigningNonces>::empty(),
            final(self).id_spec() == old(self).id_spec(),
            final(self).share_spec() == old(self).share_spec(),
            final(self).warnings_spec() == old(self).warnings_spec(),
    {
        nonce_map_clear(&mut self.nonce_store)
    }
}

/// Saturating increment, used for the overwrite-warning counter.
pub open spec fn sat_inc(x: u64) -> u64 {
    if x == u64::MAX {
        x
    } else {
        (x + 1) as u64
    }
}

/// No nonce reuse.  For every store state and session: once the nonce of a
/// session is taken (by `sign`) or discarded (by `clear_session`), the
/// store no longer holds an entry for that session, taking again changes
/// nothing, and every other session is untouched.  Together with the
/// contracts of `Signer::sign` — which obtains a nonce only through the
/// removal and consumes it whatever happens afterwards — no two sign calls
/// can ever derive shares from the same stored nonce.
pub proof fn lemma_nonce_consumed_once(m: Map<u128, SigningNonces>, sid: u128)
    ensures
        !m.remove(sid).contains_key(sid),
        m.remove(sid).remove(sid) == m.remove(sid),
        forall|s: u128|
            s != sid ==> (m.remove(sid).contains_key(s) <==> m.contains_key(s)),
        forall|s: u128|
            s != sid && m.contains_key(s) ==> m.remove(sid)[s] == m[s],
{
    assert(m.remove(sid).remove(sid) =~= m.remove(sid));
}

} // verus!
