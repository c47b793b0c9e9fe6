use locd::compliance::{
    check_name, run_check, suite_check_count, suite_name, test_cbor_integrity, test_dns_format_stability,
    test_negative_expiry, test_reject_empty_cbor, test_reject_malformed_txt_record, test_token_format_stability,
    CheckSuite, TestResult, TestStatus, TestSuite,
};
use locd::ed25519::Ed25519KeyPair;
use locd::error::Error;
use locd::messages::ReasonCode;
use locd::toolkit::{
    create_signed_delegation, export_key, hello_for, import_key, key_file_public_hex, max_uses_text,
    parse_revocation_ids, patterns_text, public_key_of_secret, response_for, revocation_record_for,
    challenge_for, validate_record, verify_exchange, verify_signed_delegation, zone_listing, ValidatedRecord,
};

#[test]
fn compliance_checks_that_always_pass() {
    assert!(test_dns_format_stability().is_ok());
    assert!(test_reject_empty_cbor().is_ok());
    assert!(test_reject_malformed_txt_record().is_ok());
}

#[test]
fn compliance_checks_that_never_pass() {
    match test_negative_expiry() {
        Err(Error::InvalidDelegation(m)) => assert_eq!(m, "Expiry must be after issuance"),
        other => panic!("unexpected: {:?}", other),
    }
    match test_cbor_integrity() {
        Err(Error::InvalidDelegation(m)) => assert_eq!(m, "Expected CBOR map"),
        other => panic!("unexpected: {:?}", other),
    }
    match test_token_format_stability() {
        Err(Error::InvalidDelegation(m)) => assert_eq!(m, "Expected CBOR map"),
        other => panic!("unexpected: {:?}", other),
    }
}

#[test]
fn suites_list_their_checks() {
    assert_eq!(suite_check_count(CheckSuite::Negative), 15);
    assert_eq!(suite_check_count(CheckSuite::EdgeCases), 15);
    assert_eq!(suite_check_count(CheckSuite::Compat), 10);
    assert_eq!(suite_name(CheckSuite::Crypto), "Cryptography Tests");
    assert_eq!(check_name(CheckSuite::Negative, 7), "Handle negative expiry");
    assert!(run_check(CheckSuite::Crypto, 0).is_ok());
    assert!(run_check(CheckSuite::Negative, 7).is_err());
}

#[test]
fn report_suite_counts_passes() {
    let ok: locd::error::Result<()> = Ok(());
    let bad: locd::error::Result<()> = Err(Error::custom("broken"));
    let a = TestResult::from_outcome("a", &ok, "1.00ms".to_string());
    let b = TestResult::from_outcome("b", &bad, "2.00ms".to_string());
    assert_eq!(a.status, TestStatus::Pass);
    assert_eq!(b.status, TestStatus::Fail);
    assert_eq!(b.error, Some("broken".to_string()));
    let suite = TestSuite::from_results("S", vec![a, b]);
    assert_eq!(suite.total, 2);
    assert_eq!(suite.passed, 1);
    assert_eq!(suite.failed, 1);
}

#[test]
fn revocation_ids_are_trimmed_and_non_empty() {
    assert_eq!(parse_revocation_ids(" a, ,b ,"), vec!["a".to_string(), "b".to_string()]);
    assert!(parse_revocation_ids(" , ").is_empty());
    match revocation_record_for(vec![], 1) {
        Err(Error::Custom(m)) => assert_eq!(m, "No revocation IDs provided"),
        _ => panic!("expected an error"),
    }
    let rec = revocation_record_for(vec!["x".to_string()], 5).unwrap();
    assert_eq!(rec.to_txt_record(), "v=locd-revoke1; ids=x; t=5");
}

#[test]
fn zone_listing_is_exact() {
    assert_eq!(
        zone_listing("_locd.a.com", "v=1"),
        "DNS TXT Record:\n\nName: _locd.a.com\nValue: \"v=1\"\n\nFor BIND zone file:\n_locd.a.com IN TXT \"v=1\"\n"
    );
}

#[test]
fn records_validate_by_type() {
    match validate_record("v=locd-revoke1; ids=a,b; t=3", "revocation") {
        Ok(ValidatedRecord::Revocation(r)) => assert_eq!(r.revoked_ids.len(), 2),
        other => panic!("unexpected: {:?}", other),
    }
    match validate_record("v=1", "rotation") {
        Err(Error::Custom(m)) => assert_eq!(m, "Unknown record type: rotation. Use 'identity' or 'revocation'"),
        other => panic!("unexpected: {:?}", other),
    }
    assert!(validate_record("k=ed25519", "identity").is_err());
}

#[test]
fn key_exports() {
    let secret = [9u8; 32];
    let kp = Ed25519KeyPair::from_secret_bytes(&secret).unwrap();
    let public_hex = locd::encoding::hex_encode(&kp.public_key().to_bytes());
    let export = export_key(&secret).unwrap();
    assert_eq!(export.key_type, "secret");
    assert_eq!(export.secret_key_hex, Some("09".repeat(32)));
    assert_eq!(export.public_key_hex, public_hex);
    assert_eq!(import_key(&export).unwrap(), secret.to_vec());
    assert_eq!(key_file_public_hex(&secret).unwrap(), public_hex);
    match export_key(&[0u8; 5]) {
        Err(Error::Custom(m)) => assert_eq!(m, "Invalid key size: expected 32 bytes, got 5"),
        _ => panic!("expected a size error"),
    }
    assert_eq!(public_key_of_secret(&secret).unwrap(), kp.public_key().to_bytes());
    assert!(public_key_of_secret(&[1u8; 3]).is_err());
}

#[test]
fn delegation_tool_round_trip() {
    let master = [1u8; 32];
    let device = Ed25519KeyPair::from_secret_bytes(&[2u8; 32]).unwrap().public_key().to_bytes();
    let (token, signed) = create_signed_delegation(
        &master,
        &device,
        vec!["api.example.com".to_string()],
        vec!["read".to_string(), "write".to_string()],
        Some(3600),
        7,
        true,
    )
    .unwrap();
    assert_eq!(token.expires_at - token.issued_at, 3600);
    let master_public = Ed25519KeyPair::from_secret_bytes(&master).unwrap().public_key().to_bytes();
    let back = verify_signed_delegation(&signed, &master_public).unwrap();
    assert_eq!(back.delegation_id, token.delegation_id);
    assert_eq!(back.actions.len(), 2);
    assert_eq!(back.max_uses, 7);
    assert!(back.can_sub_delegate);
    assert_eq!(max_uses_text(0), "unlimited");
    assert_eq!(max_uses_text(12), "12");
    assert_eq!(patterns_text(&vec![]), "any");
    assert_eq!(patterns_text(&vec!["a".to_string(), "b".to_string()]), "a, b");
}

#[test]
fn verification_tool_exchange() {
    let device_secret = [3u8; 32];
    let hello = hello_for(&device_secret, "alice.example.com").unwrap();
    let challenge = challenge_for("verifier.example.com", &hello).unwrap();
    let response = response_for(&device_secret, "alice.example.com", &challenge, vec![1, 2, 3]).unwrap();
    let result = verify_exchange("verifier.example.com", &hello, &challenge, &response, "svc", "read").unwrap();
    assert!(!result.verified);
    assert_eq!(result.reason, ReasonCode::DnsLookupFailed);
    assert!(challenge_for("v.com", &[0xff]).is_err());
}
