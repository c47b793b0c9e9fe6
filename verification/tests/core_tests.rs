use locd::constants::{
    COOPERATIVE_NAMESPACE, DEFAULT_DELEGATION_DURATION_SECS, DELEGATION_TYPE, DNS_IDENTITY_PREFIX,
    DNS_REVOCATION_PREFIX, ED25519_PUBLIC_KEY_SIZE, ED25519_SIGNATURE_SIZE,
    MAX_DELEGATION_DURATION_SECS, PROTOCOL_VERSION, X25519_PUBLIC_KEY_SIZE,
};
use locd::error::{Error, Result};
use locd::keys::{DeviceKey, KeyTier, MasterKey, SessionKey};
use locd::types::{ActionPattern, DelegationId, IdentityDomain, ServicePattern};

#[test]
fn test_constants() {
    assert_eq!(PROTOCOL_VERSION, "locd1");
    assert_eq!(DELEGATION_TYPE, "locd-delegation-v1");
}

#[test]
fn test_key_sizes() {
    assert_eq!(ED25519_PUBLIC_KEY_SIZE, 32);
    assert_eq!(ED25519_SIGNATURE_SIZE, 64);
    assert_eq!(X25519_PUBLIC_KEY_SIZE, 32);
}

#[test]
fn test_delegation_durations() {
    assert_eq!(DEFAULT_DELEGATION_DURATION_SECS, 86400);
    assert_eq!(MAX_DELEGATION_DURATION_SECS, 2592000);
}

#[test]
fn test_dns_constants() {
    assert_eq!(DNS_IDENTITY_PREFIX, "_locd");
    assert_eq!(DNS_REVOCATION_PREFIX, "_locd-revoke");
    assert_eq!(COOPERATIVE_NAMESPACE, "id.locd.net");
}

#[test]
fn test_error_display() {
    let err = Error::DelegationExpired(1234567890);
    assert_eq!(err.to_string(), "Delegation expired at 1234567890");

    let err = Error::custom("test error");
    assert_eq!(err.to_string(), "test error");
}

#[test]
fn test_result_type() {
    fn returns_result() -> Result<i32> {
        Ok(42)
    }
    assert_eq!(returns_result().unwrap(), 42);
}

#[test]
fn test_key_tier_display() {
    assert_eq!(KeyTier::Master.to_string(), "master");
    assert_eq!(KeyTier::Device.to_string(), "device");
    assert_eq!(KeyTier::Session.to_string(), "session");
}

#[test]
fn test_master_key_expiry() {
    let key = MasterKey::new(vec![0u8; 32], 1000, Some(2000), None);
    assert!(!key.is_expired(1500));
    assert!(key.is_expired(2000));
    assert!(key.is_expired(2500));

    let no_expiry = MasterKey::new(vec![0u8; 32], 1000, None, None);
    assert!(!no_expiry.is_expired(9999999999));
}

#[test]
fn test_session_key_expiry() {
    let key = SessionKey::new(vec![0u8; 32], "sess-123".to_string(), 1000, 2000);
    assert!(!key.is_expired(1500));
    assert!(key.is_expired(2000));
    assert!(key.is_expired(2500));
}

#[test]
fn test_key_tiers() {
    let master = MasterKey::new(vec![0u8; 32], 0, None, None);
    assert_eq!(master.tier(), KeyTier::Master);

    let device = DeviceKey::new(vec![0u8; 32], "laptop".to_string(), 0, None);
    assert_eq!(device.tier(), KeyTier::Device);

    let session = SessionKey::new(vec![0u8; 32], "sess-1".to_string(), 0, 3600);
    assert_eq!(session.tier(), KeyTier::Session);
}

#[test]
fn test_delegation_id() {
    let id1 = DelegationId::new();
    let id2 = DelegationId::new();
    assert_ne!(id1, id2);

    let id_str = id1.to_string();
    let id_parsed = DelegationId::from_string(&id_str).unwrap();
    assert_eq!(id1, id_parsed);
}

#[test]
fn test_identity_domain() {
    let domain = IdentityDomain::new("example.com");
    assert_eq!(domain.as_str(), "example.com");
    assert_eq!(domain.identity_record_name(), "_locd.example.com");
    assert_eq!(domain.revocation_record_name(), "_locd-revoke.example.com");
    assert_eq!(domain.rotation_record_name(), "_locd-rotate.example.com");
    assert!(!domain.is_cooperative_namespace());

    let coop = IdentityDomain::new("alice.id.locd.net");
    assert!(coop.is_cooperative_namespace());
}

#[test]
fn test_service_pattern_matching() {
    let exact = ServicePattern::new("api.example.com");
    assert!(exact.matches("api.example.com"));
    assert!(!exact.matches("other.example.com"));

    let wildcard = ServicePattern::new("*.example.com");
    assert!(wildcard.matches("api.example.com"));
    assert!(wildcard.matches("web.example.com"));
    assert!(wildcard.matches("example.com"));
    assert!(!wildcard.matches("example.org"));

    let all = ServicePattern::new("*");
    assert!(all.matches("anything.com"));
    assert!(all.matches("example.org"));
}

#[test]
fn test_action_pattern_matching() {
    let exact = ActionPattern::new("read");
    assert!(exact.matches("read"));
    assert!(!exact.matches("write"));

    let all = ActionPattern::new("*");
    assert!(all.matches("read"));
    assert!(all.matches("write"));
    assert!(all.matches("anything"));
}

#[test]
fn delegation_id_text_is_lowercase_hyphenated() {
    let id = DelegationId::from_u128(0x550e8400_e29b_41d4_a716_446655440000);
    assert_eq!(id.to_string(), "550e8400-e29b-41d4-a716-446655440000");
    assert_eq!(id.as_uuid(), 0x550e8400_e29b_41d4_a716_446655440000);
}

#[test]
fn delegation_id_rejects_bad_text() {
    match DelegationId::from_string("not-a-uuid") {
        Err(Error::Decoding(_)) => {}
        other => panic!("expected a decoding error, got {:?}", other),
    }
}

#[test]
fn cooperative_namespace_needs_a_label() {
    assert!(!IdentityDomain::new("id.locd.net").is_cooperative_namespace());
    assert!(!IdentityDomain::new("xid.locd.net").is_cooperative_namespace());
}
