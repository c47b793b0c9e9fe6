use locd::builder::current_timestamp;
use locd::ed25519::{Ed25519PublicKey, Ed25519Signature};
use locd::encoding::{base64url_encode, hex_decode};
use locd::records::{IdentityRecord, RevocationRecord};
use locd::token::DelegationToken;
use locd::types::DelegationId;
use locd::vectors::{
    generate_crypto_vectors, generate_delegation_vectors_at, generate_dns_vectors_at,
    generate_key_vectors_at, generate_suite, generate_suite_at, generate_verification_vectors_at,
    keypair_from_seed,
};

#[test]
fn test_generate_suite() {
    let suite = generate_suite();

    assert_eq!(suite.version, "0.1.0");
    assert!(suite.created_at > 0);

    assert_eq!(suite.crypto.ed25519.len(), 2);
    assert_eq!(suite.crypto.base64url.len(), 3);

    assert_eq!(suite.keys.master_keys.len(), 2);
    assert_eq!(suite.keys.device_keys.len(), 2);
    assert_eq!(suite.keys.session_keys.len(), 1);

    assert_eq!(suite.delegation.tokens.len(), 1);

    assert_eq!(suite.dns.identity_records.len(), 2);
    assert_eq!(suite.dns.revocation_records.len(), 2);

    assert_eq!(suite.verification.flows.len(), 1);
    assert_eq!(suite.verification.messages.hello_messages.len(), 1);
    assert_eq!(suite.verification.messages.result_messages.len(), 2);
}

#[test]
fn test_ed25519_vectors_deterministic() {
    let suite1 = generate_crypto_vectors();
    let suite2 = generate_crypto_vectors();

    assert_eq!(suite1.ed25519[0].public_key, suite2.ed25519[0].public_key);
    assert_eq!(suite1.ed25519[0].signature, suite2.ed25519[0].signature);
}

#[test]
fn test_base64url_vectors() {
    let suite = generate_crypto_vectors();

    for case in &suite.base64url {
        let input = hex_decode(&case.input).expect("Valid hex");
        let encoded = base64url_encode(&input);
        assert_eq!(encoded, case.output, "Failed: {}", case.description);
    }
}

#[test]
fn test_key_vectors() {
    let vectors = generate_key_vectors_at(current_timestamp());

    for key in &vectors.master_keys {
        assert!(key.expires_at.is_none());
        assert!(!key.is_expired);
    }

    assert!(vectors.device_keys.iter().any(|k| k.is_expired));
}

#[test]
fn test_delegation_vectors() {
    let vectors = generate_delegation_vectors_at(current_timestamp(), DelegationId::new());

    assert_eq!(vectors.tokens.len(), 1);

    let token = &vectors.tokens[0];
    assert!(token.should_verify);
    assert_eq!(token.services.len(), 1);
    assert_eq!(token.actions.len(), 1);
}

#[test]
fn test_dns_vectors() {
    let vectors = generate_dns_vectors_at(current_timestamp());

    assert!(vectors.identity_records.iter().any(|r| r.should_parse));
    assert!(vectors.identity_records.iter().any(|r| !r.should_parse));

    assert_eq!(vectors.revocation_records.len(), 2);
}

#[test]
fn test_verification_vectors() {
    let vectors = generate_verification_vectors_at(current_timestamp(), [3u8; 32], DelegationId::new());

    assert_eq!(vectors.flows.len(), 1);
    assert_eq!(vectors.messages.hello_messages.len(), 1);
    assert_eq!(vectors.messages.challenge_messages.len(), 1);
    assert_eq!(vectors.messages.result_messages.len(), 2);
}

#[test]
fn test_deterministic_generation() {
    let suite1 = generate_suite();
    let suite2 = generate_suite();

    assert_eq!(suite1.crypto.ed25519[0].public_key, suite2.crypto.ed25519[0].public_key);
    assert_eq!(suite1.crypto.ed25519[0].signature, suite2.crypto.ed25519[0].signature);
}

#[test]
fn test_vector_counts() {
    let suite = generate_suite();

    assert!(suite.crypto.ed25519.len() >= 2, "Should have at least 2 Ed25519 test cases");
    assert!(suite.crypto.base64url.len() >= 3, "Should have at least 3 Base64url test cases");

    assert!(suite.keys.master_keys.len() >= 2, "Should have at least 2 master key cases");
    assert!(suite.keys.device_keys.len() >= 2, "Should have at least 2 device key cases");
    assert!(suite.keys.session_keys.len() >= 1, "Should have at least 1 session key case");

    assert!(suite.delegation.tokens.len() >= 1, "Should have at least 1 delegation token case");

    assert!(suite.dns.identity_records.len() >= 2, "Should have at least 2 identity record cases");
    assert!(suite.dns.revocation_records.len() >= 2, "Should have at least 2 revocation record cases");

    assert!(suite.verification.flows.len() >= 1, "Should have at least 1 verification flow");
    assert!(suite.verification.messages.hello_messages.len() >= 1);
    assert!(suite.verification.messages.challenge_messages.len() >= 1);
    assert!(suite.verification.messages.result_messages.len() >= 2);
}

#[test]
fn ed25519_vectors_verify() {
    let suite = generate_crypto_vectors();
    for case in &suite.ed25519 {
        let public = hex_decode(&case.public_key).unwrap();
        let message = hex_decode(&case.message).unwrap();
        let signature = hex_decode(&case.signature).unwrap();
        let key = Ed25519PublicKey::from_bytes(&public).unwrap();
        let sig = Ed25519Signature::from_bytes(&signature).unwrap();
        assert_eq!(key.verify(&message, &sig).is_ok(), case.should_verify);
        assert_eq!(case.seed, case.private_key);
    }
    assert_eq!(suite.ed25519[0].message, "48656c6c6f2c204c6f6327642050726f746f636f6c21");
    assert_eq!(suite.base64url[1].output, "aGVsbG8");
}

#[test]
fn key_vectors_are_exact_at_a_given_time() {
    let now = 10_000_000;
    let v = generate_key_vectors_at(now);
    assert_eq!(v.master_keys[1].created_at, now - 86400);
    assert_eq!(v.device_keys[0].expires_at, Some(now + 86400 * 30));
    assert_eq!(v.device_keys[1].expires_at, Some(now - 86400));
    assert_eq!(v.device_keys[1].created_at, now - 86400 * 60);
    assert_eq!(v.session_keys[0].expires_at, Some(now + 3600));
    assert_eq!(v.master_keys[0].seed, "01".repeat(32));
    let kp = keypair_from_seed([1u8; 32]);
    assert_eq!(v.master_keys[0].public_key, locd::encoding::hex_encode(&kp.public_key().to_bytes()));
}

#[test]
fn delegation_vector_token_verifies_under_the_master_key() {
    let now = 1_800_000_000;
    let id = DelegationId::from_u128(0x550e8400_e29b_41d4_a716_446655440000);
    let v = generate_delegation_vectors_at(now, id);
    let case = &v.tokens[0];
    assert_eq!(case.delegation_id, "550e8400-e29b-41d4-a716-446655440000");
    let signed = hex_decode(&case.token_cbor).unwrap();
    let master = keypair_from_seed([1u8; 32]);
    let token = DelegationToken::verify(&signed, &master.public_key()).unwrap();
    assert_eq!(token.issued_at, now);
    assert_eq!(token.expires_at, now + 86400);
    assert_eq!(token.delegation_id, id);
    assert_eq!(token.services[0].as_str(), "api.example.com");
    assert_eq!(token.actions[0].as_str(), "read");
}

#[test]
fn dns_vectors_parse_as_they_say() {
    let v = generate_dns_vectors_at(1739577600);
    for case in &v.identity_records {
        assert_eq!(IdentityRecord::from_txt_record(&case.txt_record).is_ok(), case.should_parse);
    }
    for case in &v.revocation_records {
        let parsed = RevocationRecord::from_txt_record(&case.txt_record).unwrap();
        assert_eq!(parsed.revoked_ids, case.revoked_ids);
        assert_eq!(parsed.timestamp, 1739577600);
    }
    assert_eq!(v.identity_records[0].dns_name, "_locd.example.com");
}

#[test]
fn suite_at_a_given_time_is_reproducible() {
    let a = generate_suite_at(10_000_000, DelegationId::from_u128(1), DelegationId::from_u128(2), [4u8; 32]);
    let b = generate_suite_at(10_000_000, DelegationId::from_u128(1), DelegationId::from_u128(2), [4u8; 32]);
    assert_eq!(a.delegation.tokens[0].token_cbor, b.delegation.tokens[0].token_cbor);
    assert_eq!(a.dns.identity_records[0].txt_record, b.dns.identity_records[0].txt_record);
    assert_eq!(a.verification.flows[0].challenge_nonce, "04".repeat(32));
    assert_eq!(a.verification.flows[0].response_signature, "00".repeat(64));
}

#[test]
fn suite_is_the_same_on_every_call() {
    let a = generate_suite();
    let b = generate_suite();
    assert_eq!(a.created_at, 1700000000);
    assert_eq!(a.created_at, b.created_at);
    assert_eq!(a.delegation.tokens[0].delegation_id, "550e8400-e29b-41d4-a716-446655440000");
    assert_eq!(a.delegation.tokens[0].token_cbor, b.delegation.tokens[0].token_cbor);
    assert_eq!(a.verification.flows[0].delegation_id, "660e8400-e29b-41d4-a716-446655440001");
    assert_eq!(a.verification.flows[0].challenge_nonce, "2a".repeat(32));
    assert_eq!(a.keys.device_keys[1].expires_at, b.keys.device_keys[1].expires_at);
    assert_eq!(a.dns.identity_records[0].txt_record, b.dns.identity_records[0].txt_record);
}
