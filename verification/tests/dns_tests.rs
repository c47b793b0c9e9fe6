use locd::ed25519::Ed25519KeyPair;
use locd::error::Error;
use locd::records::{IdentityRecord, RevocationRecord, RotationRecord};
use locd::resolver::{DnsResolver, QueryOptions};
use locd::txt::parse_txt_fields;
use locd::types::IdentityDomain;

#[test]
fn test_dns_module() {
    assert!(true);
}

#[test]
fn test_identity_record_format() {
    let kp = Ed25519KeyPair::generate();
    let pub_key = kp.public_key().to_bytes();

    let record = IdentityRecord::new(&pub_key, 1234567890)
        .with_expiry(1234567900)
        .with_revocation_endpoint("https://example.com/.well-known/locd/revocations");

    let txt = record.to_txt_record();
    assert!(txt.contains("v=locd1"));
    assert!(txt.contains("k=ed25519"));
    assert!(txt.contains("t=1234567890"));
    assert!(txt.contains("exp=1234567900"));
    assert!(txt.contains("rev=https://example.com/.well-known/locd/revocations"));
}

#[test]
fn test_identity_record_roundtrip() {
    let kp = Ed25519KeyPair::generate();
    let pub_key = kp.public_key().to_bytes();

    let record1 = IdentityRecord::new(&pub_key, 1234567890);
    let txt = record1.to_txt_record();
    let record2 = IdentityRecord::from_txt_record(&txt).unwrap();

    assert_eq!(record1.version, record2.version);
    assert_eq!(record1.algorithm, record2.algorithm);
    assert_eq!(record1.public_key, record2.public_key);
    assert_eq!(record1.timestamp, record2.timestamp);
}

#[test]
fn test_revocation_record_format() {
    let record = RevocationRecord::new(vec!["abc-123".to_string(), "def-456".to_string()], 1234567890);

    let txt = record.to_txt_record();
    assert!(txt.contains("v=locd-revoke1"));
    assert!(txt.contains("ids=abc-123,def-456"));
    assert!(txt.contains("t=1234567890"));
}

#[test]
fn test_revocation_record_roundtrip() {
    let record1 = RevocationRecord::new(
        vec!["id1".to_string(), "id2".to_string(), "id3".to_string()],
        9999999999,
    );

    let txt = record1.to_txt_record();
    let record2 = RevocationRecord::from_txt_record(&txt).unwrap();

    assert_eq!(record1.version, record2.version);
    assert_eq!(record1.revoked_ids, record2.revoked_ids);
    assert_eq!(record1.timestamp, record2.timestamp);
}

#[test]
fn test_rotation_record() {
    let record = RotationRecord::new(
        "old_key_base64url".to_string(),
        "new_key_base64url".to_string(),
        "signature_base64url".to_string(),
    );

    let txt = record.to_txt_record();
    assert!(txt.contains("v=locd-rotate1"));
    assert!(txt.contains("old=old_key_base64url"));
    assert!(txt.contains("new=new_key_base64url"));
    assert!(txt.contains("sig=signature_base64url"));

    let parsed = RotationRecord::from_txt_record(&txt).unwrap();
    assert_eq!(record.old_key, parsed.old_key);
    assert_eq!(record.new_key, parsed.new_key);
    assert_eq!(record.signature, parsed.signature);
}

#[test]
fn test_parse_txt_fields() {
    let fields = parse_txt_fields("a=1; b=2; c=3").unwrap();
    assert_eq!(fields.get("a"), Some(&"1".to_string()));
    assert_eq!(fields.get("b"), Some(&"2".to_string()));
    assert_eq!(fields.get("c"), Some(&"3".to_string()));

    let fields2 = parse_txt_fields(" a = 1 ; b = 2 ").unwrap();
    assert_eq!(fields2.get("a"), Some(&"1".to_string()));
    assert_eq!(fields2.get("b"), Some(&"2".to_string()));
}

#[test]
fn test_invalid_version() {
    let result = IdentityRecord::from_txt_record("v=locd2; k=ed25519; p=test; t=123");
    assert!(result.is_err());
    assert!(matches!(result.unwrap_err(), Error::InvalidVersion { .. }));
}

#[test]
fn test_query_options() {
    let opts = QueryOptions::new();
    assert!(opts.require_dnssec);
    assert_eq!(opts.timeout_secs, 5);

    let opts2 = QueryOptions::new().without_dnssec().with_server("8.8.8.8").with_timeout(10);

    assert!(!opts2.require_dnssec);
    assert_eq!(opts2.server, Some("8.8.8.8".to_string()));
    assert_eq!(opts2.timeout_secs, 10);
}

#[test]
fn test_resolver_creation() {
    let resolver = DnsResolver::new();
    assert!(resolver.query_options().require_dnssec);

    let custom_opts = QueryOptions::new().without_dnssec();
    let resolver2 = DnsResolver::with_options(custom_opts);
    assert!(!resolver2.query_options().require_dnssec);
}

#[test]
fn test_query_identity_placeholder() {
    let resolver = DnsResolver::new();
    let domain = IdentityDomain::new("example.com");

    let result = resolver.query_identity(&domain);
    assert!(result.is_err());
}

#[test]
fn identity_record_text_is_exact() {
    let record = IdentityRecord::new(&[0u8; 32], 42).with_expiry(50);
    assert_eq!(
        record.to_txt_record(),
        "v=locd1; k=ed25519; p=AAAAAAAAAAAAAAAAAAAAAAAAAAAAAAAAAAAAAAAAAAA; t=42; exp=50"
    );
}

#[test]
fn identity_record_needs_its_fields() {
    match IdentityRecord::from_txt_record("k=ed25519; p=abc; t=1") {
        Err(Error::InvalidIdentityRecord(m)) => assert_eq!(m, "Missing version"),
        other => panic!("unexpected: {:?}", other),
    }
    match IdentityRecord::from_txt_record("v=locd1; k=rsa; p=abc; t=1") {
        Err(Error::InvalidIdentityRecord(_)) => {}
        other => panic!("unexpected: {:?}", other),
    }
    match IdentityRecord::from_txt_record("v=locd1; k=ed25519; p=abc; t=soon") {
        Err(Error::InvalidIdentityRecord(_)) => {}
        other => panic!("unexpected: {:?}", other),
    }
    match parse_txt_fields("a=1; broken") {
        Err(Error::InvalidIdentityRecord(m)) => assert_eq!(m, "Invalid field: broken"),
        other => panic!("unexpected: {:?}", other),
    }
}

#[test]
fn revocation_record_with_no_ids() {
    let record = RevocationRecord::new(vec![], 7);
    let txt = record.to_txt_record();
    assert_eq!(txt, "v=locd-revoke1; ids=; t=7");
    let parsed = RevocationRecord::from_txt_record(&txt).unwrap();
    assert!(parsed.revoked_ids.is_empty());
    assert_eq!(parsed.timestamp, 7);
}

#[test]
fn later_field_wins() {
    let fields = parse_txt_fields("a=1; a=2").unwrap();
    assert_eq!(fields.get("a"), Some(&"2".to_string()));
    assert_eq!(fields.len(), 2);
    assert_eq!(fields.get("z"), None);
}

#[test]
fn record_names_follow_the_domain() {
    let domain = IdentityDomain::new("example.com");
    assert_eq!(IdentityRecord::record_name(&domain), "_locd.example.com");
    assert_eq!(RevocationRecord::record_name(&domain), "_locd-revoke.example.com");
    assert_eq!(RotationRecord::record_name(&domain), "_locd-rotate.example.com");
}
