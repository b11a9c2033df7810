// The file-record flows of the command-line demo: key material round
// trips, both rounds over records, aggregation and verification.

use frost_threshold_signature::api::ErrorResponse;
use frost_threshold_signature::crypto::generate_group;
use frost_threshold_signature::file_store::{
    aggregate_records, build_signing_package_file, make_key_share_file, make_public_key_file,
    round1_record, round2_record, secret_share_from_file, verify_record,
};

#[test]
fn full_record_flow_three_of_five() {
    let (shares, pubkey_package) = generate_group(5, 3).unwrap();

    // keygen writes one share record per signer and the public key record
    let mut share_files = Vec::new();
    for (i, share) in shares.iter().enumerate() {
        share_files.push(
            make_key_share_file((i + 1) as u16, share, 3, 5).unwrap(),
        );
    }
    let pubkey_file = make_public_key_file(&pubkey_package, 3, 5).unwrap();
    assert_eq!(pubkey_file.metadata.threshold, 3);
    assert_eq!(pubkey_file.metadata.max_signers, 5);

    // round 1: signers 1..=3 each produce a nonce record and a commitment
    let message = b"Hello, FROST!".to_vec();
    let session = "record-flow-session".to_string();
    let mut nonce_files = Vec::new();
    let mut commitment_files = Vec::new();
    for id in 1u16..=3 {
        let restored = secret_share_from_file(&share_files[(id - 1) as usize]).unwrap();
        let (nonce_file, commitment_file) =
            round1_record(session.clone(), id, &restored, &message).unwrap();
        assert_eq!(nonce_file.session_id, session);
        assert!(nonce_file.warning.contains("DEMO ONLY"));
        nonce_files.push(nonce_file);
        commitment_files.push(commitment_file);
    }

    // the coordinator assembles the signing package record
    let package_file = build_signing_package_file(&commitment_files, &message, 3).unwrap();
    assert_eq!(package_file.session_id, session);
    assert_eq!(package_file.signer_ids, vec![1, 2, 3]);

    // round 2: each signer consumes its nonce record and signs
    let mut sig_share_files = Vec::new();
    for id in 1u16..=3 {
        let restored = secret_share_from_file(&share_files[(id - 1) as usize]).unwrap();
        let record = round2_record(
            &session,
            id,
            &restored,
            &package_file,
            &nonce_files[(id - 1) as usize],
        )
        .unwrap();
        assert_eq!(record.signer_id, id);
        sig_share_files.push(record);
    }

    // aggregation produces a signature record that verifies
    let signature_file = aggregate_records(&package_file, &sig_share_files, &pubkey_file, 3)
        .unwrap();
    assert_eq!(signature_file.session_id, session);
    assert!(verify_record(&signature_file, &message, &pubkey_file).is_ok());

    // verification against another message fails
    let other = b"another message".to_vec();
    assert!(verify_record(&signature_file, &other, &pubkey_file).is_err());
}

#[test]
fn round2_rejects_a_nonce_for_another_session() {
    let (shares, _pubkey_package) = generate_group(5, 3).unwrap();
    let message = b"m".to_vec();
    let share = &shares[0];

    let (nonce_file, commitment_file) =
        round1_record("session-a".to_string(), 1, share, &message).unwrap();
    let package_file =
        build_signing_package_file(&vec![commitment_file], &message, 1).unwrap();

    // the package carries session-a, but the caller expects session-b
    assert!(round2_record("session-b", 1, share, &package_file, &nonce_file).is_err());
}

#[test]
fn package_assembly_rejects_mixed_sessions() {
    let (shares, _pubkey_package) = generate_group(5, 3).unwrap();
    let message = b"m".to_vec();

    let (_n1, c1) = round1_record("session-a".to_string(), 1, &shares[0], &message).unwrap();
    let (_n2, c2) = round1_record("session-b".to_string(), 2, &shares[1], &message).unwrap();
    assert!(build_signing_package_file(&vec![c1, c2], &message, 2).is_err());
}

#[test]
fn aggregation_needs_enough_share_records() {
    let (shares, pubkey_package) = generate_group(5, 3).unwrap();
    let message = b"m".to_vec();
    let pubkey_file = make_public_key_file(&pubkey_package, 3, 5).unwrap();

    let session = "short".to_string();
    let mut commitment_files = Vec::new();
    let mut nonce_files = Vec::new();
    for id in 1u16..=3 {
        let (n, c) =
            round1_record(session.clone(), id, &shares[(id - 1) as usize], &message).unwrap();
        nonce_files.push(n);
        commitment_files.push(c);
    }
    let package_file = build_signing_package_file(&commitment_files, &message, 3).unwrap();

    let only_one = vec![round2_record(
        &session,
        1,
        &shares[0],
        &package_file,
        &nonce_files[0],
    )
    .unwrap()];
    assert!(aggregate_records(&package_file, &only_one, &pubkey_file, 3).is_err());
}

#[test]
fn error_response_carries_code_message_and_details() {
    let plain = ErrorResponse::new("SESSION_NOT_FOUND".to_string(), "no such session".to_string());
    assert_eq!(plain.error_code, "SESSION_NOT_FOUND");
    assert_eq!(plain.message, "no such session");
    assert!(plain.details.is_none());

    let detailed = plain.with_details("session 42".to_string());
    assert_eq!(detailed.error_code, "SESSION_NOT_FOUND");
    assert_eq!(detailed.details.as_deref(), Some("session 42"));
}
