use credential_verification::{
    create_attestation, create_credential_commitment, initialize_institution, CreateAttestation,
    CreateCredentialCommitment, CredentialAttestation, CredentialCommitment, ErrorCode,
    InitializeInstitution, Institution, Ledger,
};

fn id(n: u8) -> [u8; 32] {
    [n; 32]
}

#[test]
fn degree_scenario() {
    let a = id(0xA);
    let b = id(0xB);
    let c = id(0xC);
    let hash = [7u8; 32];
    let sig = [9u8; 64];
    let sig2 = [8u8; 64];
    let mut ledger = Ledger::new();

    assert_eq!(ledger.insert_commitment(a, "deg-2024-001".to_string(), hash, 100), Ok(()));
    let stored = ledger.commitment(&"deg-2024-001".to_string()).unwrap();
    assert_eq!(stored.owner_did, a);
    assert_eq!(stored.credential_hash, hash);
    assert_eq!(stored.timestamp, 100);

    assert_eq!(ledger.insert_institution(b, "State University".to_string()), Ok(()));
    let inst = ledger.institution(&b).unwrap();
    assert!(inst.is_whitelisted);
    assert_eq!(inst.name, "State University");

    assert_eq!(ledger.insert_attestation(b, "deg-2024-001".to_string(), hash, sig, 200), Ok(()));
    assert_eq!(
        ledger.insert_attestation(b, "deg-2024-001".to_string(), hash, sig, 300),
        Err(ErrorCode::RecordAlreadyExists)
    );
    assert_eq!(
        ledger.insert_attestation(c, "deg-2024-001".to_string(), hash, sig2, 400),
        Err(ErrorCode::InstitutionNotWhitelisted)
    );
    assert_eq!(ledger.attestation_count(), 1);
    let att = ledger.attestation(&"deg-2024-001".to_string(), &b).unwrap();
    assert_eq!(
        *att,
        CredentialAttestation {
            credential_id: "deg-2024-001".to_string(),
            credential_hash: hash,
            institution_pubkey: b,
            signature: sig,
            timestamp: 200,
        }
    );
}

#[test]
fn second_commitment_with_other_hash_is_refused() {
    let mut ledger = Ledger::new();
    assert_eq!(ledger.insert_commitment(id(1), "cert-1".to_string(), [1u8; 32], 10), Ok(()));
    assert_eq!(
        ledger.insert_commitment(id(2), "cert-1".to_string(), [2u8; 32], 11),
        Err(ErrorCode::RecordAlreadyExists)
    );
    assert_eq!(ledger.commitment_count(), 1);
    let stored = ledger.commitment(&"cert-1".to_string()).unwrap();
    assert_eq!(
        *stored,
        CredentialCommitment {
            credential_id: "cert-1".to_string(),
            owner_did: id(1),
            credential_hash: [1u8; 32],
            timestamp: 10,
        }
    );
}

#[test]
fn second_commitment_through_handler_is_refused() {
    let mut ledger = Ledger::new();
    assert_eq!(ledger.insert_commitment(id(1), "cert-2".to_string(), [1u8; 32], 10), Ok(()));
    let ctx = CreateCredentialCommitment { owner: id(3) };
    assert_eq!(
        create_credential_commitment(&mut ledger, &ctx, "cert-2".to_string(), [5u8; 32]),
        Err(ErrorCode::RecordAlreadyExists)
    );
    assert_eq!(ledger.commitment_count(), 1);
}

#[test]
fn distinct_commitments_are_both_stored() {
    let mut ledger = Ledger::new();
    assert_eq!(ledger.insert_commitment(id(1), "x".to_string(), [1u8; 32], 1), Ok(()));
    assert_eq!(ledger.insert_commitment(id(1), "y".to_string(), [1u8; 32], 2), Ok(()));
    assert_eq!(ledger.commitment_count(), 2);
    assert!(ledger.commitment(&"z".to_string()).is_none());
}

#[test]
fn handler_commitment_reads_clock_or_reports_it() {
    let mut ledger = Ledger::new();
    let ctx = CreateCredentialCommitment { owner: id(4) };
    let r = create_credential_commitment(&mut ledger, &ctx, "cert-3".to_string(), [3u8; 32]);
    match r {
        Ok(()) => {
            let stored = ledger.commitment(&"cert-3".to_string()).unwrap();
            assert_eq!(stored.owner_did, id(4));
            assert_eq!(stored.credential_hash, [3u8; 32]);
        }
        Err(e) => {
            assert_eq!(e, ErrorCode::ClockUnavailable);
            assert_eq!(ledger.commitment_count(), 0);
        }
    }
}

#[test]
fn unregistered_institution_cannot_attest() {
    let mut ledger = Ledger::new();
    assert_eq!(
        ledger.insert_attestation(id(5), "cert".to_string(), [0u8; 32], [0u8; 64], 1),
        Err(ErrorCode::InstitutionNotWhitelisted)
    );
    let ctx = CreateAttestation { institution: id(5) };
    assert_eq!(
        create_attestation(&mut ledger, &ctx, "cert".to_string(), [0u8; 32], [0u8; 64]),
        Err(ErrorCode::InstitutionNotWhitelisted)
    );
    assert_eq!(ledger.attestation_count(), 0);
    assert!(ledger.attestation(&"cert".to_string(), &id(5)).is_none());
}

#[test]
fn whitelist_is_checked_before_duplicates_and_length() {
    let mut ledger = Ledger::new();
    let long_id = "a".repeat(300);
    assert_eq!(
        ledger.insert_attestation(id(6), long_id, [0u8; 32], [0u8; 64], 1),
        Err(ErrorCode::InstitutionNotWhitelisted)
    );
}

#[test]
fn second_attestation_through_handler_is_refused() {
    let mut ledger = Ledger::new();
    let ctx = InitializeInstitution { authority: id(7) };
    assert_eq!(initialize_institution(&mut ledger, &ctx, "Inst".to_string()), Ok(()));
    assert_eq!(ledger.insert_attestation(id(7), "c".to_string(), [1u8; 32], [2u8; 64], 1), Ok(()));
    let actx = CreateAttestation { institution: id(7) };
    assert_eq!(
        create_attestation(&mut ledger, &actx, "c".to_string(), [1u8; 32], [2u8; 64]),
        Err(ErrorCode::RecordAlreadyExists)
    );
    assert_eq!(ledger.attestation_count(), 1);
}

#[test]
fn two_institutions_attest_same_credential() {
    let mut ledger = Ledger::new();
    assert_eq!(ledger.insert_institution(id(1), "One".to_string()), Ok(()));
    assert_eq!(ledger.insert_institution(id(2), "Two".to_string()), Ok(()));
    assert_eq!(ledger.insert_attestation(id(1), "c".to_string(), [1u8; 32], [1u8; 64], 5), Ok(()));
    assert_eq!(ledger.insert_attestation(id(2), "c".to_string(), [1u8; 32], [2u8; 64], 6), Ok(()));
    assert_eq!(ledger.attestation_count(), 2);
    assert_eq!(ledger.attestation(&"c".to_string(), &id(1)).unwrap().signature, [1u8; 64]);
    assert_eq!(ledger.attestation(&"c".to_string(), &id(2)).unwrap().signature, [2u8; 64]);
}

#[test]
fn attestation_needs_no_matching_commitment() {
    let mut ledger = Ledger::new();
    assert_eq!(ledger.insert_commitment(id(1), "c".to_string(), [1u8; 32], 1), Ok(()));
    assert_eq!(ledger.insert_institution(id(2), "Two".to_string()), Ok(()));
    assert_eq!(ledger.insert_attestation(id(2), "c".to_string(), [9u8; 32], [0u8; 64], 2), Ok(()));
    assert_eq!(ledger.insert_attestation(id(2), "d".to_string(), [9u8; 32], [0u8; 64], 3), Ok(()));
    assert_eq!(ledger.attestation_count(), 2);
}

#[test]
fn institution_registers_once() {
    let mut ledger = Ledger::new();
    let ctx = InitializeInstitution { authority: id(3) };
    assert_eq!(initialize_institution(&mut ledger, &ctx, "A".to_string()), Ok(()));
    assert_eq!(
        initialize_institution(&mut ledger, &ctx, "B".to_string()),
        Err(ErrorCode::RecordAlreadyExists)
    );
    assert_eq!(ledger.institution_count(), 1);
    assert_eq!(
        *ledger.institution(&id(3)).unwrap(),
        Institution { pubkey: id(3), name: "A".to_string(), is_whitelisted: true }
    );
}

#[test]
fn two_identities_register_independently() {
    let mut ledger = Ledger::new();
    let x = InitializeInstitution { authority: id(1) };
    let y = InitializeInstitution { authority: id(2) };
    assert_eq!(initialize_institution(&mut ledger, &x, "X".to_string()), Ok(()));
    assert_eq!(initialize_institution(&mut ledger, &y, "Y".to_string()), Ok(()));
    assert!(ledger.is_whitelisted(&id(1)));
    assert!(ledger.is_whitelisted(&id(2)));
    assert!(!ledger.is_whitelisted(&id(3)));
    assert_eq!(ledger.institution_count(), 2);
}

#[test]
fn strings_are_capped_at_record_space() {
    let mut ledger = Ledger::new();
    assert_eq!(ledger.insert_commitment(id(1), "a".repeat(256), [0u8; 32], 1), Ok(()));
    assert_eq!(
        ledger.insert_commitment(id(1), "b".repeat(257), [0u8; 32], 1),
        Err(ErrorCode::FieldTooLong)
    );
    // 129 two-byte characters encode to 258 bytes.
    assert_eq!(
        ledger.insert_commitment(id(1), "\u{e9}".repeat(129), [0u8; 32], 1),
        Err(ErrorCode::FieldTooLong)
    );
    assert_eq!(
        ledger.insert_institution(id(2), "n".repeat(257)),
        Err(ErrorCode::FieldTooLong)
    );
    assert_eq!(ledger.insert_institution(id(2), "n".repeat(256)), Ok(()));
    assert_eq!(
        ledger.insert_attestation(id(2), "c".repeat(257), [0u8; 32], [0u8; 64], 1),
        Err(ErrorCode::FieldTooLong)
    );
    assert_eq!(ledger.commitment_count(), 1);
    assert_eq!(ledger.attestation_count(), 0);
}

#[test]
fn duplicate_is_reported_before_length() {
    let mut ledger = Ledger::new();
    assert_eq!(ledger.insert_institution(id(1), "ok".to_string()), Ok(()));
    assert_eq!(
        ledger.insert_institution(id(1), "n".repeat(300)),
        Err(ErrorCode::RecordAlreadyExists)
    );
}

#[test]
fn record_space_constants() {
    assert_eq!(CredentialCommitment::LEN, 332);
    assert_eq!(CredentialAttestation::LEN, 396);
    assert_eq!(Institution::LEN, 293);
}
