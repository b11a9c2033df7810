// End-to-end protocol behaviour: key generation, both rounds, aggregation,
// verification, and the error paths the flow owes its callers.

use frost_threshold_signature::api::{CommitmentData, SessionId, SignatureShareData, SigningPackageData};
use frost_threshold_signature::coordinator::parse_share_data;
use frost_threshold_signature::coordinator::{Coordinator, CoordinatorError};
use frost_threshold_signature::crypto::{commitment_hex_of, generate_group};
use frost_threshold_signature::signer::{Signer, SignerError};

fn make_signers(max_signers: u16, min_signers: u16) -> (Vec<Signer>, Coordinator) {
    let (shares, pubkey_package) = generate_group(max_signers, min_signers).unwrap();
    let mut signers = Vec::new();
    for (i, share) in shares.into_iter().enumerate() {
        signers.push(Signer::new((i + 1) as u16, share));
    }
    (signers, Coordinator::new(pubkey_package, min_signers))
}

#[test]
fn happy_three_of_five() {
    let (mut signers, mut coordinator) = make_signers(5, 3);
    let mut subset: Vec<Signer> = signers.drain(0..3).collect();
    let message = b"Hello, FROST!".to_vec();

    let signature = coordinator
        .orchestrate_signing(&mut subset, &message)
        .expect("three of five cooperating signers must produce a signature");
    coordinator
        .verify_signature(&message, &signature)
        .expect("the group signature must verify under the group key");
    assert_eq!(coordinator.active_sessions_count(), 0);
}

#[test]
fn threshold_correctness_across_policies() {
    // the underlying dealer requires a threshold of at least 2
    for (t, n) in [(2u16, 2u16), (2, 3), (3, 5), (5, 5), (2, 16)] {
        let (mut signers, mut coordinator) = make_signers(n, t);
        let mut subset: Vec<Signer> = signers.drain(0..t as usize).collect();
        let message = b"policy check".to_vec();
        let signature = coordinator
            .orchestrate_signing(&mut subset, &message)
            .expect("a full subset must produce a signature");
        assert!(coordinator.verify_signature(&message, &signature).is_ok());
    }
}

#[test]
fn subset_indistinguishability() {
    // two different size-3 subsets of one group sign the same message;
    // both signatures verify under the same group key
    let (mut signers, mut coordinator) = make_signers(5, 3);
    let message = b"same message".to_vec();

    let mut late: Vec<Signer> = signers.drain(2..5).collect(); // ids 3, 4, 5
    let mut early: Vec<Signer> = signers; // ids 1, 2

    let mut first_subset: Vec<Signer> = Vec::new();
    first_subset.push(early.remove(0)); // 1
    first_subset.push(early.remove(0)); // 2
    first_subset.push(late.remove(0)); // 3
    let sig_a = coordinator
        .orchestrate_signing(&mut first_subset, &message)
        .expect("subset {1,2,3} must sign");

    let mut second_subset: Vec<Signer> = Vec::new();
    second_subset.push(first_subset.remove(2)); // 3
    second_subset.push(late.remove(0)); // 4
    second_subset.push(late.remove(0)); // 5
    let sig_b = coordinator
        .orchestrate_signing(&mut second_subset, &message)
        .expect("subset {3,4,5} must sign");

    assert!(coordinator.verify_signature(&message, &sig_a).is_ok());
    assert!(coordinator.verify_signature(&message, &sig_b).is_ok());
}

#[test]
fn threshold_miss_reports_counts() {
    // running the full flow over two signers of a 3-of-5 policy cannot
    // gather enough shares
    let (mut signers, mut coordinator) = make_signers(5, 3);
    let mut subset: Vec<Signer> = signers.drain(0..2).collect();
    let message = b"under threshold".to_vec();

    match coordinator.orchestrate_signing(&mut subset, &message) {
        Err(CoordinatorError::InsufficientShares { expected, actual }) => {
            assert_eq!(expected, 3);
            assert_eq!(actual, 2);
        }
        other => panic!("expected InsufficientShares, got {:?}", other.map(|_| ())),
    }
    assert_eq!(coordinator.active_sessions_count(), 0);
}

#[test]
fn sub_threshold_aggregation_fails_with_insufficient_shares() {
    // gather commitments from three signers but hand only two shares to
    // the aggregation step: it must fail with InsufficientShares
    let (mut signers, mut coordinator) = make_signers(5, 3);
    let session_id = coordinator.create_session(b"partial".to_vec());

    let mut commitments = Vec::new();
    for signer in signers.iter_mut().take(3) {
        let c = signer.commit(session_id).unwrap();
        commitments.push(CommitmentData {
            signer_id: signer.id(),
            commitment: commitment_hex_of(&c).unwrap(),
        });
        coordinator
            .add_commitment(session_id, commitments.last().unwrap().clone())
            .unwrap();
    }
    let package = coordinator.get_signing_package(session_id).unwrap();

    let mut shares = Vec::new();
    for signer in signers.iter_mut().take(2) {
        shares.push((signer.id(), signer.sign(session_id, &package).unwrap()));
    }
    let frost_package = frost_threshold_signature::coordinator::build_frost_package(&package).unwrap();
    match coordinator.aggregate_signature(&frost_package, &shares) {
        Err(CoordinatorError::InsufficientShares { expected, actual }) => {
            assert_eq!(expected, 3);
            assert_eq!(actual, 2);
        }
        other => panic!("expected InsufficientShares, got {:?}", other.map(|_| ())),
    }
}

#[test]
fn nonce_reuse_attempt_is_rejected() {
    // after a sign for session X, a second sign for session X must fail
    // with SessionNotFound: the nonce was consumed
    let (mut signers, mut coordinator) = make_signers(5, 3);
    let session_id = coordinator.create_session(b"one shot".to_vec());

    let mut commitments = Vec::new();
    for signer in signers.iter_mut().take(3) {
        let c = signer.commit(session_id).unwrap();
        commitments.push(CommitmentData {
            signer_id: signer.id(),
            commitment: commitment_hex_of(&c).unwrap(),
        });
    }
    let package = SigningPackageData {
        commitments,
        message: b"one shot".to_vec(),
    };

    let first = signers[0].sign(session_id, &package);
    assert!(first.is_ok());
    match signers[0].sign(session_id, &package) {
        Err(SignerError::SessionNotFound(s)) => assert_eq!(s, session_id),
        other => panic!("expected SessionNotFound, got {:?}", other.map(|_| ())),
    }
    assert_eq!(signers[0].active_sessions_count(), 0);
}

#[test]
fn clear_session_discards_the_nonce() {
    let (mut signers, _coordinator) = make_signers(5, 3);
    let session_id = SessionId::new();
    signers[0].commit(session_id).unwrap();
    assert!(signers[0].has_session(&session_id));
    assert!(signers[0].clear_session(&session_id));
    assert!(!signers[0].has_session(&session_id));
    assert!(!signers[0].clear_session(&session_id));
}

#[test]
fn duplicate_commitment_is_rejected() {
    let (mut signers, mut coordinator) = make_signers(5, 3);
    let session_id = coordinator.create_session(b"dup".to_vec());

    let c = signers[0].commit(session_id).unwrap();
    let data = CommitmentData {
        signer_id: signers[0].id(),
        commitment: commitment_hex_of(&c).unwrap(),
    };
    assert_eq!(coordinator.add_commitment(session_id, data.clone()).unwrap(), 1);
    match coordinator.add_commitment(session_id, data) {
        Err(CoordinatorError::DuplicateCommitment { signer_id }) => assert_eq!(signer_id, 1),
        other => panic!("expected DuplicateCommitment, got {:?}", other),
    }
}

#[test]
fn signing_package_is_sorted_by_signer_id() {
    let (mut signers, mut coordinator) = make_signers(5, 3);
    let session_id = coordinator.create_session(b"ordering".to_vec());

    // submit in arrival order 3, 1, 2: the package must present 1, 2, 3
    for idx in [2usize, 0, 1] {
        let c = signers[idx].commit(session_id).unwrap();
        coordinator
            .add_commitment(
                session_id,
                CommitmentData {
                    signer_id: signers[idx].id(),
                    commitment: commitment_hex_of(&c).unwrap(),
                },
            )
            .unwrap();
    }
    let package = coordinator.get_signing_package(session_id).unwrap();
    let ids: Vec<u16> = package.commitments.iter().map(|c| c.signer_id).collect();
    assert_eq!(ids, vec![1, 2, 3]);
    assert_eq!(package.message, b"ordering".to_vec());
}

#[test]
fn message_binding_rejects_a_swapped_message() {
    // the coordinator half: a round-2 package whose message differs from
    // the session's stored message fails with SessionMismatch
    let (_signers, mut coordinator) = make_signers(5, 3);
    let session_id = coordinator.create_session(b"message one".to_vec());

    let swapped = SigningPackageData {
        commitments: Vec::new(),
        message: b"message two".to_vec(),
    };
    match coordinator.check_round2_binding(session_id, &swapped) {
        Err(CoordinatorError::SessionMismatch) => {}
        other => panic!("expected SessionMismatch, got {:?}", other),
    }
    let same = SigningPackageData {
        commitments: Vec::new(),
        message: b"message one".to_vec(),
    };
    assert!(coordinator.check_round2_binding(session_id, &same).is_ok());
}

#[test]
fn altered_message_fails_verification() {
    // the verifier half of message binding: shares produced over an
    // altered message cannot verify against the original message
    let (mut signers, mut coordinator) = make_signers(5, 3);
    let m1 = b"the agreed message".to_vec();
    let m2 = b"a swapped message!".to_vec();
    let session_id = coordinator.create_session(m1.clone());

    let mut commitments = Vec::new();
    for signer in signers.iter_mut().take(3) {
        let c = signer.commit(session_id).unwrap();
        commitments.push(CommitmentData {
            signer_id: signer.id(),
            commitment: commitment_hex_of(&c).unwrap(),
        });
    }
    // the adversary swaps the message between the rounds
    let altered = SigningPackageData {
        commitments,
        message: m2.clone(),
    };
    let mut shares = Vec::new();
    for signer in signers.iter_mut().take(3) {
        shares.push((signer.id(), signer.sign(session_id, &altered).unwrap()));
    }
    let frost_package = frost_threshold_signature::coordinator::build_frost_package(&altered).unwrap();
    match coordinator.aggregate_signature(&frost_package, &shares) {
        Ok(signature) => {
            // if aggregation happens to pass, verification against the
            // session's real message must fail
            assert!(coordinator.verify_signature(&m1, &signature).is_err());
        }
        Err(_) => {}
    }
}

#[test]
fn sign_rejects_package_without_own_commitment() {
    let (mut signers, _coordinator) = make_signers(5, 3);
    let session_id = SessionId::new();

    let c2 = signers[1].commit(session_id).unwrap();
    let package = SigningPackageData {
        commitments: vec![CommitmentData {
            signer_id: 2,
            commitment: commitment_hex_of(&c2).unwrap(),
        }],
        message: b"who am i".to_vec(),
    };
    signers[0].commit(session_id).unwrap();
    match signers[0].sign(session_id, &package) {
        Err(SignerError::InvalidSigningPackage(_)) => {}
        other => panic!("expected InvalidSigningPackage, got {:?}", other.map(|_| ())),
    }
    // the nonce was consumed by the failed attempt: the session is dead
    assert!(!signers[0].has_session(&session_id));
}

#[test]
fn sign_rejects_malformed_commitments() {
    let (mut signers, _coordinator) = make_signers(5, 3);
    let session_id = SessionId::new();
    signers[0].commit(session_id).unwrap();

    let package = SigningPackageData {
        commitments: vec![CommitmentData {
            signer_id: 1,
            commitment: "not hex at all".to_string(),
        }],
        message: b"broken".to_vec(),
    };
    match signers[0].sign(session_id, &package) {
        Err(SignerError::InvalidSigningPackage(_)) => {}
        other => panic!("expected InvalidSigningPackage, got {:?}", other.map(|_| ())),
    }
    // the failed attempt still consumed the nonce: the session is dead
    match signers[0].sign(session_id, &package) {
        Err(SignerError::SessionNotFound(_)) => {}
        other => panic!("expected SessionNotFound, got {:?}", other.map(|_| ())),
    }
}

#[test]
fn sign_rejects_duplicate_signer_in_package() {
    let (mut signers, _coordinator) = make_signers(5, 3);
    let session_id = SessionId::new();
    let c = signers[0].commit(session_id).unwrap();
    let hex_commitment = commitment_hex_of(&c).unwrap();

    let package = SigningPackageData {
        commitments: vec![
            CommitmentData { signer_id: 1, commitment: hex_commitment.clone() },
            CommitmentData { signer_id: 1, commitment: hex_commitment },
        ],
        message: b"twice".to_vec(),
    };
    match signers[0].sign(session_id, &package) {
        Err(SignerError::InvalidSigningPackage(_)) => {}
        other => panic!("expected InvalidSigningPackage, got {:?}", other.map(|_| ())),
    }
}

#[test]
fn commit_overwrite_warns() {
    let (mut signers, _coordinator) = make_signers(5, 3);
    let session_id = SessionId::new();
    signers[0].commit(session_id).unwrap();
    assert_eq!(signers[0].overwrite_warnings(), 0);
    // a second commit for the same session replaces the nonce and records
    // the anomaly on the warning counter
    signers[0].commit(session_id).unwrap();
    assert_eq!(signers[0].overwrite_warnings(), 1);
    assert_eq!(signers[0].active_sessions_count(), 1);
}

#[test]
fn group_generation_validates_the_policy() {
    // a threshold above the signer count, or below the dealer's minimum
    // of two, is rejected; a sound policy succeeds
    assert!(generate_group(5, 6).is_err());
    assert!(generate_group(5, 1).is_err());
    assert!(generate_group(1, 1).is_err());
    let (shares, _pubkey_package) = generate_group(4, 2).unwrap();
    assert_eq!(shares.len(), 4);
}

#[test]
fn parse_share_data_rejects_bad_hex() {
    let bad = SignatureShareData {
        signer_id: 1,
        signature_share: "zz".to_string(),
    };
    match parse_share_data(&bad) {
        Err(CoordinatorError::ShareDeserializationFailed(_)) => {}
        other => panic!("expected ShareDeserializationFailed, got {:?}", other.map(|_| ())),
    }
}

#[test]
fn sign_after_clear_reports_session_not_found() {
    let (mut signers, _coordinator) = make_signers(5, 3);
    let session_id = SessionId::new();
    let c = signers[0].commit(session_id).unwrap();
    let package = SigningPackageData {
        commitments: vec![CommitmentData {
            signer_id: 1,
            commitment: commitment_hex_of(&c).unwrap(),
        }],
        message: b"cancelled".to_vec(),
    };
    assert!(signers[0].clear_session(&session_id));
    match signers[0].sign(session_id, &package) {
        Err(SignerError::SessionNotFound(s)) => assert_eq!(s, session_id),
        other => panic!("expected SessionNotFound, got {:?}", other.map(|_| ())),
    }
}

#[test]
fn sessions_are_isolated_from_each_other() {
    // nonces of concurrent sessions never interfere: consuming one leaves
    // the other intact and usable
    let (mut signers, _coordinator) = make_signers(5, 3);
    let session_a = SessionId { id: 1 };
    let session_b = SessionId { id: 2 };

    let mut commitments_a = Vec::new();
    let mut commitments_b = Vec::new();
    for signer in signers.iter_mut().take(3) {
        let ca = signer.commit(session_a).unwrap();
        commitments_a.push(CommitmentData {
            signer_id: signer.id(),
            commitment: commitment_hex_of(&ca).unwrap(),
        });
        let cb = signer.commit(session_b).unwrap();
        commitments_b.push(CommitmentData {
            signer_id: signer.id(),
            commitment: commitment_hex_of(&cb).unwrap(),
        });
    }
    assert_eq!(signers[0].active_sessions_count(), 2);

    let package_a = SigningPackageData { commitments: commitments_a, message: b"message a".to_vec() };
    let package_b = SigningPackageData { commitments: commitments_b, message: b"message b".to_vec() };

    assert!(signers[0].sign(session_a, &package_a).is_ok());
    assert_eq!(signers[0].active_sessions_count(), 1);
    assert!(signers[0].has_session(&session_b));
    assert!(signers[0].sign(session_b, &package_b).is_ok());
    assert_eq!(signers[0].active_sessions_count(), 0);
}
