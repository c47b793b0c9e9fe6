use locd::builder::current_timestamp;
use locd::constants::MAX_DELEGATION_DURATION_SECS;
use locd::ed25519::Ed25519KeyPair;
use locd::error::Error;
use locd::token::DelegationToken;
use locd::types::DelegationId;
use locd::validator::{DelegationValidator, ValidationContext};

#[test]
fn test_current_timestamp() {
    let ts = current_timestamp();
    assert!(ts > 1700000000);
    assert!(ts < 2000000000);
}

#[test]
fn test_token_builder() {
    let master = Ed25519KeyPair::generate();
    let device = Ed25519KeyPair::generate();

    let token = DelegationToken::builder()
        .delegator(master.public_key().to_bytes())
        .delegate(device.public_key().to_bytes())
        .expires_in(3600)
        .service("api.example.com")
        .action("read")
        .action("write")
        .max_uses(100)
        .build()
        .unwrap();

    assert_eq!(token.services.len(), 1);
    assert_eq!(token.actions.len(), 2);
    assert_eq!(token.max_uses, 100);
}

#[test]
fn test_cbor_roundtrip() {
    let master = Ed25519KeyPair::generate();
    let device = Ed25519KeyPair::generate();

    let token1 = DelegationToken::builder()
        .delegator(master.public_key().to_bytes())
        .delegate(device.public_key().to_bytes())
        .expires_in(3600)
        .service("*.example.com")
        .action("*")
        .build()
        .unwrap();

    let cbor = token1.to_cbor().unwrap();
    let token2 = DelegationToken::from_cbor(&cbor).unwrap();

    assert_eq!(token1.delegator, token2.delegator);
    assert_eq!(token1.delegate, token2.delegate);
    assert_eq!(token1.issued_at, token2.issued_at);
    assert_eq!(token1.expires_at, token2.expires_at);
    assert_eq!(token1.delegation_id.to_string(), token2.delegation_id.to_string());
}

#[test]
fn token_test_sign_verify() {
    let master = Ed25519KeyPair::generate();
    let device = Ed25519KeyPair::generate();

    let token = DelegationToken::builder()
        .delegator(master.public_key().to_bytes())
        .delegate(device.public_key().to_bytes())
        .expires_in(3600)
        .service("api.example.com")
        .action("read")
        .build()
        .unwrap();

    let signed = token.sign(&master).unwrap();
    let verified = DelegationToken::verify(&signed, &master.public_key()).unwrap();

    assert_eq!(token.delegator, verified.delegator);
    assert_eq!(token.delegate, verified.delegate);
}

#[test]
fn test_invalid_signature() {
    let master = Ed25519KeyPair::generate();
    let wrong_key = Ed25519KeyPair::generate();
    let device = Ed25519KeyPair::generate();

    let token = DelegationToken::builder()
        .delegator(master.public_key().to_bytes())
        .delegate(device.public_key().to_bytes())
        .expires_in(3600)
        .build()
        .unwrap();

    let signed = token.sign(&master).unwrap();
    let result = DelegationToken::verify(&signed, &wrong_key.public_key());

    assert!(result.is_err());
}

#[test]
fn test_duration_validation() {
    let master = Ed25519KeyPair::generate();
    let device = Ed25519KeyPair::generate();

    let result = DelegationToken::builder()
        .delegator(master.public_key().to_bytes())
        .delegate(device.public_key().to_bytes())
        .expires_in(MAX_DELEGATION_DURATION_SECS + 1)
        .build();

    assert!(result.is_err());
}

fn create_test_token() -> DelegationToken {
    let master = Ed25519KeyPair::generate();
    let device = Ed25519KeyPair::generate();

    DelegationToken::builder()
        .delegator(master.public_key().to_bytes())
        .delegate(device.public_key().to_bytes())
        .expires_in(3600)
        .service("api.example.com")
        .service("*.example.org")
        .action("read")
        .action("write")
        .max_uses(100)
        .build()
        .unwrap()
}

#[test]
fn test_valid_delegation() {
    let token = create_test_token();
    let context = ValidationContext::new()
        .with_service("api.example.com")
        .with_action("read")
        .with_use_count(50);

    assert!(DelegationValidator::validate(&token, &context).is_ok());
}

#[test]
fn test_expired_delegation() {
    let token = create_test_token();
    let context = ValidationContext::new().with_timestamp(token.expires_at + 1);

    let result = DelegationValidator::validate(&token, &context);
    assert!(result.is_err());
    assert!(matches!(result.unwrap_err(), Error::DelegationExpired(_)));
}

#[test]
fn test_service_not_permitted() {
    let token = create_test_token();
    let context = ValidationContext::new()
        .with_service("api.other.com")
        .with_action("read");

    let result = DelegationValidator::validate(&token, &context);
    assert!(result.is_err());
    assert!(matches!(result.unwrap_err(), Error::ServiceNotPermitted(_)));
}

#[test]
fn test_wildcard_service_match() {
    let token = create_test_token();
    let context = ValidationContext::new()
        .with_service("web.example.org")
        .with_action("read");

    assert!(DelegationValidator::validate(&token, &context).is_ok());
}

#[test]
fn test_action_not_permitted() {
    let token = create_test_token();
    let context = ValidationContext::new()
        .with_service("api.example.com")
        .with_action("delete");

    let result = DelegationValidator::validate(&token, &context);
    assert!(result.is_err());
    assert!(matches!(result.unwrap_err(), Error::ActionNotPermitted(_)));
}

#[test]
fn test_max_uses_exceeded() {
    let token = create_test_token();
    let context = ValidationContext::new()
        .with_service("api.example.com")
        .with_action("read")
        .with_use_count(100);

    let result = DelegationValidator::validate(&token, &context);
    assert!(result.is_err());
    assert!(matches!(result.unwrap_err(), Error::MaxUsesExceeded(_)));
}

#[test]
fn test_empty_services_permits_all() {
    let master = Ed25519KeyPair::generate();
    let device = Ed25519KeyPair::generate();

    let token = DelegationToken::builder()
        .delegator(master.public_key().to_bytes())
        .delegate(device.public_key().to_bytes())
        .expires_in(3600)
        .action("read")
        .build()
        .unwrap();

    let context = ValidationContext::new()
        .with_service("any.service.com")
        .with_action("read");

    assert!(DelegationValidator::validate(&token, &context).is_ok());
}

#[test]
fn test_empty_actions_permits_all() {
    let master = Ed25519KeyPair::generate();
    let device = Ed25519KeyPair::generate();

    let token = DelegationToken::builder()
        .delegator(master.public_key().to_bytes())
        .delegate(device.public_key().to_bytes())
        .expires_in(3600)
        .service("api.example.com")
        .build()
        .unwrap();

    let context = ValidationContext::new()
        .with_service("api.example.com")
        .with_action("any_action");

    assert!(DelegationValidator::validate(&token, &context).is_ok());
}

#[test]
fn test_is_expired() {
    let token = create_test_token();
    assert!(!DelegationValidator::is_expired(&token, token.issued_at));
    assert!(DelegationValidator::is_expired(&token, token.expires_at));
    assert!(DelegationValidator::is_expired(&token, token.expires_at + 100));
}

#[test]
fn test_remaining_validity() {
    let token = create_test_token();
    let remaining = DelegationValidator::remaining_validity(&token, token.issued_at);
    assert!(remaining > 0);
    assert!(remaining <= 3600);

    let remaining_expired = DelegationValidator::remaining_validity(&token, token.expires_at + 10);
    assert!(remaining_expired < 0);
}

fn fixed_builder() -> locd::builder::DelegationTokenBuilder {
    let master = Ed25519KeyPair::from_secret_bytes(&[1u8; 32]).unwrap();
    let device = Ed25519KeyPair::from_secret_bytes(&[2u8; 32]).unwrap();
    DelegationToken::builder()
        .delegator(master.public_key().to_bytes())
        .delegate(device.public_key().to_bytes())
}

#[test]
fn build_at_fills_defaults() {
    let id = DelegationId::from_u128(7);
    let token = fixed_builder().build_at(1000, id).unwrap();
    assert_eq!(token.issued_at, 1000);
    assert_eq!(token.expires_at, 1000 + 86400);
    assert_eq!(token.delegation_id, id);
    assert_eq!(token.max_uses, 0);
    assert!(!token.can_sub_delegate);
}

#[test]
fn build_errors_name_the_missing_part() {
    let id = DelegationId::from_u128(7);
    match DelegationToken::builder().build_at(1000, id) {
        Err(Error::InvalidDelegation(m)) => assert_eq!(m, "Missing delegator"),
        _ => panic!("expected a missing delegator"),
    }
    let master = Ed25519KeyPair::from_secret_bytes(&[1u8; 32]).unwrap();
    match DelegationToken::builder().delegator(master.public_key().to_bytes()).build_at(1000, id) {
        Err(Error::InvalidDelegation(m)) => assert_eq!(m, "Missing delegate"),
        _ => panic!("expected a missing delegate"),
    }
    match fixed_builder().issued_at(2000).expires_at(2000).build_at(1000, id) {
        Err(Error::InvalidDelegation(m)) => assert_eq!(m, "Expiry must be after issuance"),
        _ => panic!("expected an expiry error"),
    }
    match fixed_builder().issued_at(0).expires_at(2592001).build_at(1000, id) {
        Err(Error::InvalidDelegation(m)) => {
            assert_eq!(m, "Duration exceeds maximum of 2592000 seconds")
        }
        _ => panic!("expected a duration error"),
    }
    assert!(fixed_builder().issued_at(0).expires_at(2592000).build_at(1000, id).is_ok());
}

#[test]
fn signed_token_verifies_back_to_itself() {
    let master = Ed25519KeyPair::from_secret_bytes(&[3u8; 32]).unwrap();
    let token = fixed_builder()
        .issued_at(100)
        .expires_at(200)
        .delegation_id(DelegationId::from_u128(42))
        .service("a.example.com")
        .action("read")
        .max_uses(5)
        .attestation(vec![1, 2, 3])
        .can_sub_delegate(true)
        .build_at(100, DelegationId::from_u128(1))
        .unwrap();
    let signed = token.sign(&master).unwrap();
    let back = DelegationToken::verify(&signed, &master.public_key()).unwrap();
    assert_eq!(back.delegator, token.delegator);
    assert_eq!(back.delegate, token.delegate);
    assert_eq!(back.issued_at, 100);
    assert_eq!(back.expires_at, 200);
    assert_eq!(back.delegation_id, DelegationId::from_u128(42));
    assert_eq!(back.services[0].as_str(), "a.example.com");
    assert_eq!(back.actions[0].as_str(), "read");
    assert_eq!(back.max_uses, 5);
    assert_eq!(back.attestation, Some(vec![1, 2, 3]));
    assert!(back.can_sub_delegate);
}

#[test]
fn validation_refuses_future_issuance() {
    let token = fixed_builder()
        .issued_at(1000)
        .expires_at(5000)
        .build_at(0, DelegationId::from_u128(1))
        .unwrap();
    let context = ValidationContext::at(900);
    match DelegationValidator::validate(&token, &context) {
        Err(Error::TimestampOutOfTolerance(t)) => assert_eq!(t, 1000),
        _ => panic!("expected a tolerance error"),
    }
    assert!(DelegationValidator::validate(&token, &ValidationContext::at(940)).is_ok());
}

#[test]
fn remaining_validity_is_exact() {
    let token = fixed_builder()
        .issued_at(1000)
        .expires_at(5000)
        .build_at(0, DelegationId::from_u128(1))
        .unwrap();
    assert_eq!(DelegationValidator::remaining_validity(&token, 1000), 4000);
    assert_eq!(DelegationValidator::remaining_validity(&token, 6000), -1000);
}

#[test]
fn validation_near_the_end_of_time_does_not_overflow() {
    let id = DelegationId::from_u128(9);
    let token = fixed_builder()
        .issued_at(u64::MAX - 100)
        .expires_at(u64::MAX)
        .build_at(u64::MAX - 100, id)
        .unwrap();
    let context = ValidationContext::at(u64::MAX - 10);
    assert!(DelegationValidator::validate(&token, &context).is_ok());
}

#[test]
fn new_delegation_ids_are_version_4() {
    for _ in 0..20 {
        let text = DelegationId::new().to_string();
        let chars: Vec<char> = text.chars().collect();
        assert_eq!(chars[14], '4');
        assert!(matches!(chars[19], '8' | '9' | 'a' | 'b'));
    }
}

#[test]
fn signed_token_is_refused_under_another_key() {
    let master = Ed25519KeyPair::from_secret_bytes(&[1u8; 32]).unwrap();
    let other = Ed25519KeyPair::from_secret_bytes(&[3u8; 32]).unwrap();
    let token = fixed_builder().build_at(1000, DelegationId::from_u128(5)).unwrap();
    let signed = token.sign(&master).unwrap();
    assert!(DelegationToken::verify(&signed, &master.public_key()).is_ok());
    match DelegationToken::verify(&signed, &other.public_key()) {
        Err(Error::InvalidDelegation(m)) => assert_eq!(m, "Signature verification failed"),
        _ => panic!("expected a refused signature"),
    }
}
