use locd::builder::current_timestamp;
use locd::claimant::{challenge_payload_bytes, Claimant, VerificationOutcome};
use locd::ed25519::{Ed25519KeyPair, Ed25519Signature};
use locd::messages::{ChallengeMessage, HelloMessage, ReasonCode, ResponseMessage, ResultMessage};
use locd::token::DelegationToken;
use locd::types::{DelegationId, IdentityDomain};
use locd::verification::{MockRevocationChecker, RevocationChecker, Verifier};

#[test]
fn test_verification_module() {
    let device_key = Ed25519KeyPair::generate();
    let claimant = Claimant::new(device_key, IdentityDomain::new("test"));

    let hello = claimant.create_hello().unwrap();
    assert_eq!(hello.identity_domain, "test");
}

#[test]
fn test_end_to_end_message_flow() {
    let master_key = Ed25519KeyPair::generate();
    let device_key = Ed25519KeyPair::generate();
    let device_pubkey = device_key.public_key().to_bytes();

    let claimant = Claimant::new(device_key, IdentityDomain::new("alice.com"));

    let verifier = Verifier::new(IdentityDomain::new("service.com"), vec![1, 2, 3, 4, 5], None);

    let hello = claimant.create_hello().unwrap();
    let hello_bytes = hello.encode().unwrap();
    let hello_decoded = HelloMessage::decode(&hello_bytes).unwrap();
    assert_eq!(hello.identity_domain, hello_decoded.identity_domain);

    let challenge = verifier.handle_hello(&hello_decoded).unwrap();
    let challenge_bytes = challenge.encode().unwrap();
    let challenge_decoded = ChallengeMessage::decode(&challenge_bytes).unwrap();
    assert_eq!(challenge.nonce, challenge_decoded.nonce);

    let token = DelegationToken::builder()
        .delegator(master_key.public_key().to_bytes())
        .delegate(device_pubkey)
        .expires_in(86400)
        .service("service.com")
        .action("read")
        .build()
        .unwrap();
    let signed_token = token.sign(&master_key).unwrap();

    let response = claimant.create_response(&challenge_decoded, signed_token, Vec::new()).unwrap();
    let response_bytes = response.encode().unwrap();
    let response_decoded = ResponseMessage::decode(&response_bytes).unwrap();
    assert_eq!(response.signature, response_decoded.signature);

    let result = ResultMessage::success(vec![6, 7, 8, 9, 10]);
    let result_bytes = result.encode().unwrap();
    let result_decoded = ResultMessage::decode(&result_bytes).unwrap();
    assert!(result_decoded.verified);
    assert_eq!(result_decoded.reason, ReasonCode::Success);
}

#[test]
fn test_verification_failure_cases() {
    let result_expired = ResultMessage::failure(ReasonCode::DelegationExpired);
    assert!(!result_expired.verified);
    assert_eq!(result_expired.reason, ReasonCode::DelegationExpired);

    let result_revoked = ResultMessage::failure(ReasonCode::DelegationRevoked);
    assert!(!result_revoked.verified);
    assert_eq!(result_revoked.reason, ReasonCode::DelegationRevoked);

    let result_scope = ResultMessage::failure(ReasonCode::ScopeViolation);
    assert!(!result_scope.verified);
    assert_eq!(result_scope.reason, ReasonCode::ScopeViolation);
}

#[test]
fn test_hello_message_roundtrip() {
    let msg = HelloMessage::new(
        "example.com".to_string(),
        vec![1, 2, 3, 4, 5, 6, 7, 8, 9, 10, 11, 12, 13, 14, 15, 16],
    );

    let encoded = msg.encode().unwrap();
    let decoded = HelloMessage::decode(&encoded).unwrap();

    assert_eq!(msg.identity_domain, decoded.identity_domain);
    assert_eq!(msg.device_public_key, decoded.device_public_key);
}

#[test]
fn test_challenge_message_generation() {
    let msg = ChallengeMessage::generate("verifier.com".to_string()).unwrap();

    assert_eq!(msg.nonce.len(), 32);
    assert_eq!(msg.verifier_domain, "verifier.com");
    assert!(msg.is_timestamp_valid());
}

#[test]
fn test_challenge_message_roundtrip() {
    let nonce = vec![0u8; 32];
    let msg = ChallengeMessage::new(nonce.clone(), 1234567890, "verifier.com".to_string()).unwrap();

    let encoded = msg.encode().unwrap();
    let decoded = ChallengeMessage::decode(&encoded).unwrap();

    assert_eq!(msg.nonce, decoded.nonce);
    assert_eq!(msg.timestamp, decoded.timestamp);
    assert_eq!(msg.verifier_domain, decoded.verifier_domain);
}

#[test]
fn test_challenge_invalid_nonce_length() {
    let result = ChallengeMessage::new(vec![0u8; 16], 1234567890, "verifier.com".to_string());
    assert!(result.is_err());
}

#[test]
fn test_response_message_roundtrip() {
    let msg = ResponseMessage::new(vec![1, 2, 3, 4, 5], vec![6, 7, 8, 9, 10], vec![vec![11, 12], vec![13, 14]]);

    let encoded = msg.encode().unwrap();
    let decoded = ResponseMessage::decode(&encoded).unwrap();

    assert_eq!(msg.signature, decoded.signature);
    assert_eq!(msg.delegation_token, decoded.delegation_token);
    assert_eq!(msg.sub_delegation_chain, decoded.sub_delegation_chain);
}

#[test]
fn test_response_message_no_chain() {
    let msg = ResponseMessage::new(vec![1, 2, 3, 4, 5], vec![6, 7, 8, 9, 10], Vec::new());

    let encoded = msg.encode().unwrap();
    let decoded = ResponseMessage::decode(&encoded).unwrap();

    assert_eq!(msg.signature, decoded.signature);
    assert_eq!(msg.delegation_token, decoded.delegation_token);
    assert!(decoded.sub_delegation_chain.is_empty());
}

#[test]
fn test_result_message_success() {
    let msg = ResultMessage::success(vec![1, 2, 3, 4, 5]);

    assert!(msg.verified);
    assert!(matches!(msg.reason, ReasonCode::Success));
    assert!(msg.wireguard_public_key.is_some());

    let encoded = msg.encode().unwrap();
    let decoded = ResultMessage::decode(&encoded).unwrap();

    assert_eq!(msg.verified, decoded.verified);
    assert_eq!(msg.reason, decoded.reason);
    assert_eq!(msg.wireguard_public_key, decoded.wireguard_public_key);
}

#[test]
fn test_result_message_failure() {
    let msg = ResultMessage::failure(ReasonCode::DelegationExpired);

    assert!(!msg.verified);
    assert!(matches!(msg.reason, ReasonCode::DelegationExpired));
    assert!(msg.wireguard_public_key.is_none());

    let encoded = msg.encode().unwrap();
    let decoded = ResultMessage::decode(&encoded).unwrap();

    assert_eq!(msg.verified, decoded.verified);
    assert_eq!(msg.reason, decoded.reason);
    assert!(decoded.wireguard_public_key.is_none());
}

#[test]
fn test_reason_code_roundtrip() {
    let codes = vec![
        ReasonCode::Success,
        ReasonCode::DnsLookupFailed,
        ReasonCode::DnssecInvalid,
        ReasonCode::IdentityNotFound,
        ReasonCode::IdentityExpired,
        ReasonCode::DelegationInvalid,
        ReasonCode::DelegationExpired,
        ReasonCode::DelegationRevoked,
        ReasonCode::ScopeViolation,
        ReasonCode::NonceMismatch,
        ReasonCode::TimestampSkew,
        ReasonCode::ChainTooDeep,
        ReasonCode::AttestationFailed,
    ];

    for code in codes {
        let s = code.as_str();
        let decoded = ReasonCode::from_str(s).unwrap();
        assert_eq!(code, decoded);
    }
}

#[test]
fn test_timestamp_tolerance() {
    let now = current_timestamp();

    let msg1 = ChallengeMessage::new(vec![0u8; 32], now, "test.com".to_string()).unwrap();
    assert!(msg1.is_timestamp_valid());

    let msg2 = ChallengeMessage::new(vec![0u8; 32], now - 30, "test.com".to_string()).unwrap();
    assert!(msg2.is_timestamp_valid());

    let msg3 = ChallengeMessage::new(vec![0u8; 32], now + 30, "test.com".to_string()).unwrap();
    assert!(msg3.is_timestamp_valid());

    let msg4 = ChallengeMessage::new(vec![0u8; 32], now - 120, "test.com".to_string()).unwrap();
    assert!(!msg4.is_timestamp_valid());

    let msg5 = ChallengeMessage::new(vec![0u8; 32], now + 120, "test.com".to_string()).unwrap();
    assert!(!msg5.is_timestamp_valid());
}

#[test]
fn test_claimant_create_hello() {
    let device_key = Ed25519KeyPair::generate();
    let identity_domain = IdentityDomain::new("example.com");
    let claimant = Claimant::new(device_key, identity_domain);

    let hello = claimant.create_hello().unwrap();

    assert_eq!(hello.identity_domain, "example.com");
    assert_eq!(hello.device_public_key, claimant.device_key().public_key().to_bytes().to_vec());
}

#[test]
fn test_claimant_create_response() {
    let device_key = Ed25519KeyPair::generate();
    let device_pubkey = device_key.public_key().to_bytes();
    let master_key = Ed25519KeyPair::generate();
    let identity_domain = IdentityDomain::new("example.com");
    let claimant = Claimant::new(device_key, identity_domain);

    let token = DelegationToken::builder()
        .delegator(master_key.public_key().to_bytes())
        .delegate(device_pubkey)
        .expires_in(86400)
        .service("api.example.com")
        .action("read")
        .build()
        .unwrap();

    let signed_token = token.sign(&master_key).unwrap();

    let challenge = ChallengeMessage::generate("verifier.com".to_string()).unwrap();

    let response = claimant.create_response(&challenge, signed_token, Vec::new()).unwrap();

    assert_eq!(response.signature.len(), 64);

    let mut payload = Vec::new();
    payload.extend_from_slice(&challenge.nonce);
    payload.extend_from_slice(&challenge.timestamp.to_le_bytes());
    payload.extend_from_slice(challenge.verifier_domain.as_bytes());

    let mut sig_bytes = [0u8; 64];
    sig_bytes.copy_from_slice(&response.signature);
    let signature = Ed25519Signature::from_bytes(&sig_bytes).unwrap();
    assert!(claimant.device_key().public_key().verify(&payload, &signature).is_ok());
}

#[test]
fn test_claimant_reject_stale_challenge() {
    let device_key = Ed25519KeyPair::generate();
    let identity_domain = IdentityDomain::new("example.com");
    let claimant = Claimant::new(device_key, identity_domain);

    let now = current_timestamp();
    let stale_challenge = ChallengeMessage::new(vec![0u8; 32], now - 120, "verifier.com".to_string()).unwrap();

    let result = claimant.create_response(&stale_challenge, Vec::new(), Vec::new());
    assert!(result.is_err());
}

#[test]
fn test_verification_outcome() {
    let outcome = VerificationOutcome {
        verified: true,
        reason: ReasonCode::Success,
        wireguard_public_key: Some(vec![1, 2, 3]),
    };

    assert!(outcome.is_success());
    assert!(outcome.wireguard_public_key.is_some());

    let failure = VerificationOutcome {
        verified: false,
        reason: ReasonCode::DelegationExpired,
        wireguard_public_key: None,
    };

    assert!(!failure.is_success());
    assert!(failure.wireguard_public_key.is_none());
}

#[test]
fn test_verifier_handle_hello() {
    let verifier = Verifier::new(IdentityDomain::new("verifier.com"), vec![1, 2, 3, 4, 5], None);

    let hello = HelloMessage::new("claimant.com".to_string(), vec![6, 7, 8, 9, 10]);

    let challenge = verifier.handle_hello(&hello).unwrap();

    assert_eq!(challenge.nonce.len(), 32);
    assert_eq!(challenge.verifier_domain, "verifier.com");
    assert!(challenge.is_timestamp_valid());
}

#[test]
fn test_full_verification_flow() {
    let master_key = Ed25519KeyPair::generate();
    let device_key = Ed25519KeyPair::generate();
    let device_pubkey = device_key.public_key().to_bytes();

    let claimant_domain = IdentityDomain::new("claimant.com");
    let claimant = Claimant::new(device_key, claimant_domain);

    let token = DelegationToken::builder()
        .delegator(master_key.public_key().to_bytes())
        .delegate(device_pubkey)
        .expires_in(86400)
        .service("api.verifier.com")
        .action("read")
        .build()
        .unwrap();

    let signed_token = token.sign(&master_key).unwrap();

    let hello = claimant.create_hello().unwrap();

    let verifier = Verifier::new(
        IdentityDomain::new("verifier.com"),
        vec![1, 2, 3, 4, 5],
        Some(Box::new(MockRevocationChecker::allow_all())),
    );

    let challenge = verifier.handle_hello(&hello).unwrap();

    let response = claimant.create_response(&challenge, signed_token, Vec::new()).unwrap();

    assert_eq!(response.signature.len(), 64);
    assert!(!response.delegation_token.is_empty());
}

#[test]
fn test_mock_revocation_checker() {
    let revoked_id = DelegationId::new();
    let allowed_id = DelegationId::new();

    let checker = MockRevocationChecker::new(vec![revoked_id.clone()]);

    assert!(checker.is_revoked("test.com", &revoked_id).unwrap());
    assert!(!checker.is_revoked("test.com", &allowed_id).unwrap());

    let allow_all = MockRevocationChecker::allow_all();
    assert!(!allow_all.is_revoked("test.com", &revoked_id).unwrap());
}

#[test]
fn test_verification_timestamp_skew() {
    let _verifier = Verifier::new(IdentityDomain::new("verifier.com"), vec![1, 2, 3, 4, 5], None);

    let now = current_timestamp();
    let old_challenge = ChallengeMessage::new(vec![0u8; 32], now - 120, "verifier.com".to_string()).unwrap();

    assert!(!old_challenge.is_timestamp_valid());
}

#[test]
fn test_verification_chain_too_deep() {
    let master_key = Ed25519KeyPair::generate();
    let device_key = Ed25519KeyPair::generate();
    let device_pubkey = device_key.public_key().to_bytes();
    let claimant_domain = IdentityDomain::new("claimant.com");
    let claimant = Claimant::new(device_key, claimant_domain);

    let token = DelegationToken::builder()
        .delegator(master_key.public_key().to_bytes())
        .delegate(device_pubkey)
        .expires_in(86400)
        .service("api.verifier.com")
        .action("read")
        .build()
        .unwrap();

    let signed_token = token.sign(&master_key).unwrap();

    let _hello = claimant.create_hello().unwrap();
    let challenge = ChallengeMessage::generate("verifier.com".to_string()).unwrap();

    let chain = vec![vec![1, 2], vec![3, 4], vec![5, 6], vec![7, 8]];
    let response = claimant.create_response(&challenge, signed_token, chain).unwrap();

    let _verifier = Verifier::new(IdentityDomain::new("verifier.com"), vec![1, 2, 3], None);

    assert_eq!(response.sub_delegation_chain.len(), 4);
}

fn flow_parts(now: u64) -> (Claimant, Ed25519KeyPair, HelloMessage, ChallengeMessage, ResponseMessage) {
    let master = Ed25519KeyPair::from_secret_bytes(&[1u8; 32]).unwrap();
    let device = Ed25519KeyPair::from_secret_bytes(&[10u8; 32]).unwrap();
    let device_pub = device.public_key().to_bytes();
    let claimant = Claimant::new(device, IdentityDomain::new("claimant.com"));
    let token = DelegationToken::builder()
        .delegator(master.public_key().to_bytes())
        .delegate(device_pub)
        .issued_at(now)
        .expires_at(now + 3600)
        .service("api.verifier.com")
        .action("read")
        .build_at(now, DelegationId::from_u128(9))
        .unwrap();
    let signed = token.sign(&master).unwrap();
    let hello = claimant.create_hello().unwrap();
    let challenge = ChallengeMessage::new(vec![7u8; 32], now, "verifier.com".to_string()).unwrap();
    let response = claimant.create_response_at(&challenge, signed, Vec::new(), now).unwrap();
    (claimant, master, hello, challenge, response)
}

#[test]
fn verifier_accepts_a_good_response() {
    let now = 1_800_000_000;
    let (claimant, master, hello, challenge, response) = flow_parts(now);
    let verifier = Verifier::new(IdentityDomain::new("verifier.com"), vec![9u8; 32], None);
    let result = verifier
        .verify_response_with_key(&master.public_key(), &hello, &challenge, &response, "api.verifier.com", "read", now)
        .unwrap();
    assert!(result.verified);
    assert_eq!(result.reason, ReasonCode::Success);
    assert_eq!(result.wireguard_public_key, Some(vec![9u8; 32]));
    let outcome = claimant.handle_result(&result).unwrap();
    assert!(outcome.is_success());
}

#[test]
fn verifier_refuses_scope_and_revocation() {
    let now = 1_800_000_000;
    let (_claimant, master, hello, challenge, response) = flow_parts(now);
    let verifier = Verifier::new(IdentityDomain::new("verifier.com"), vec![9u8; 32], None);
    let result = verifier
        .verify_response_with_key(&master.public_key(), &hello, &challenge, &response, "other.com", "read", now)
        .unwrap();
    assert!(!result.verified);
    assert_eq!(result.reason, ReasonCode::ScopeViolation);

    let revoking = Verifier::new(
        IdentityDomain::new("verifier.com"),
        vec![9u8; 32],
        Some(Box::new(MockRevocationChecker::new(vec![DelegationId::from_u128(9)]))),
    );
    let result = revoking
        .verify_response_with_key(&master.public_key(), &hello, &challenge, &response, "api.verifier.com", "read", now)
        .unwrap();
    assert!(!result.verified);
    assert_eq!(result.reason, ReasonCode::DelegationRevoked);
}

#[test]
fn verifier_refuses_an_expired_delegation_and_a_stale_challenge() {
    let now = 1_800_000_000;
    let (_claimant, master, hello, challenge, response) = flow_parts(now);
    let verifier = Verifier::new(IdentityDomain::new("verifier.com"), vec![9u8; 32], None);
    let result = verifier
        .verify_response_with_key(&master.public_key(), &hello, &challenge, &response, "api.verifier.com", "read", now + 3600)
        .unwrap();
    assert!(!result.verified);
    assert_eq!(result.reason, ReasonCode::DelegationExpired);
    let result = verifier
        .verify_response_with_key(&master.public_key(), &hello, &challenge, &response, "api.verifier.com", "read", now + 61)
        .unwrap();
    assert!(!result.verified);
    assert_eq!(result.reason, ReasonCode::TimestampSkew);
}

#[test]
fn challenge_payload_is_nonce_time_domain() {
    let challenge = ChallengeMessage::new(vec![1u8; 32], 0x0102, "ab".to_string()).unwrap();
    let payload = challenge_payload_bytes(&challenge);
    let mut expected = vec![1u8; 32];
    expected.extend_from_slice(&[0x02, 0x01, 0, 0, 0, 0, 0, 0]);
    expected.extend_from_slice(b"ab");
    assert_eq!(payload, expected);
}

#[test]
fn reason_code_wire_names() {
    assert_eq!(ReasonCode::Success.as_str(), "ok");
    assert_eq!(ReasonCode::ChainTooDeep.as_str(), "chain_too_deep");
    assert!(ReasonCode::from_str("nonsense").is_err());
}

struct DomainChecker;

impl RevocationChecker for DomainChecker {
    fn is_revoked(&self, domain: &str, _delegation_id: &DelegationId) -> locd::error::Result<bool> {
        match domain {
            "claimant.com" => Ok(true),
            "broken.com" => Err(locd::error::Error::Custom("checker down".to_string())),
            _ => Ok(false),
        }
    }
}

#[test]
fn verifier_asks_the_checker_about_the_claimants_domain() {
    let now = 1_800_000_000;
    let (_claimant, master, hello, challenge, response) = flow_parts(now);
    let verifier = Verifier::new(IdentityDomain::new("verifier.com"), vec![9u8; 32], Some(Box::new(DomainChecker)));
    let result = verifier
        .verify_response_with_key(&master.public_key(), &hello, &challenge, &response, "api.verifier.com", "read", now)
        .unwrap();
    assert_eq!(result.reason, ReasonCode::DelegationRevoked);

    let broken_hello = HelloMessage::new("broken.com".to_string(), hello.device_public_key.clone());
    match verifier.verify_response_with_key(&master.public_key(), &broken_hello, &challenge, &response, "api.verifier.com", "read", now) {
        Err(locd::error::Error::Custom(m)) => assert_eq!(m, "checker down"),
        _ => panic!("the checker's error should be passed on"),
    }
}
