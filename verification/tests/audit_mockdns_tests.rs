use locd::audit::{check_all_vulnerabilities, check_signature_malleability, scan_counts, Severity, Status};
use locd::builder::current_timestamp;
use locd::ed25519::Ed25519KeyPair;
use locd::mockdns::{DnsAnswer, DnsRecordStore};
use locd::records::{IdentityRecord, RevocationRecord};
use locd::types::{DelegationId, IdentityDomain};

#[test]
fn test_vulnerability_scan() {
    let reports = check_all_vulnerabilities();
    assert_eq!(reports.len(), 5, "Should have 5 vulnerability checks");

    let mitigated = reports.iter().filter(|r| matches!(r.status, Status::Mitigated)).count();
    assert!(mitigated > 0, "Should have at least one mitigated vulnerability");
}

#[test]
fn test_report_formatting() {
    let report = check_signature_malleability();
    assert!(!report.name.is_empty());
    assert!(!report.description.is_empty());
}

#[test]
fn test_library_imports() {
    let _ = IdentityDomain::new("test.example.com");
}

#[test]
fn scan_counts_mitigated_and_vulnerable() {
    let reports = check_all_vulnerabilities();
    assert_eq!(scan_counts(&reports), (3, 0));
    assert_eq!(Severity::Critical.to_string(), "CRITICAL");
    assert_eq!(Status::Mitigated.to_string(), "✅ MITIGATED");
    assert_eq!(reports[1].name, "Timestamp Overflow");
}

#[test]
fn test_mock_dns_creation() {
    let server = DnsRecordStore::new();
    assert_eq!(server.len(), 0);
}

#[test]
fn test_add_identity_record() {
    let mut server = DnsRecordStore::new();
    let keypair = Ed25519KeyPair::generate();
    let timestamp = current_timestamp();

    let record = IdentityRecord::new(&keypair.public_key().to_bytes(), timestamp);
    server.add_identity_record("example.com", record);

    assert_eq!(server.len(), 1);
    assert!(server.contains_name("_locd.example.com"));
}

#[test]
fn test_add_revocation_record() {
    let mut server = DnsRecordStore::new();
    let ids = vec![DelegationId::new().to_string()];
    let timestamp = current_timestamp();

    let record = RevocationRecord::new(ids, timestamp);
    server.add_revocation_record("example.com", record);

    assert_eq!(server.len(), 1);
    assert!(server.contains_name("_locd-revoke.example.com"));
}

#[test]
fn test_clear() {
    let mut server = DnsRecordStore::new();
    let keypair = Ed25519KeyPair::generate();
    let timestamp = current_timestamp();

    let record = IdentityRecord::new(&keypair.public_key().to_bytes(), timestamp);
    server.add_identity_record("example.com", record);

    assert_eq!(server.len(), 1);

    server.clear();
    assert_eq!(server.len(), 0);
}

#[test]
fn test_multiple_records() {
    let mut server = DnsRecordStore::new();
    let keypair1 = Ed25519KeyPair::generate();
    let keypair2 = Ed25519KeyPair::generate();
    let timestamp = current_timestamp();

    let record1 = IdentityRecord::new(&keypair1.public_key().to_bytes(), timestamp);
    let record2 = IdentityRecord::new(&keypair2.public_key().to_bytes(), timestamp);

    server.add_identity_record("example.com", record1);
    server.add_identity_record("example.com", record2);

    assert_eq!(server.len(), 1);
    assert_eq!(server.txt_records("_locd.example.com").unwrap().len(), 2);
}

#[test]
fn store_answers_a_txt_query() {
    let mut server = DnsRecordStore::new();
    let record = IdentityRecord::new(&[0u8; 32], 42);
    let expected = record.to_txt_record();
    server.add_identity_record("example.com", record);
    match server.answer_query(true, "_locd.example.com.") {
        DnsAnswer::Records(txts) => assert_eq!(txts, vec![expected]),
        other => panic!("unexpected answer: {:?}", other),
    }
}

#[test]
fn store_answers_unknown_names_not_found() {
    let server = DnsRecordStore::new();
    assert!(matches!(server.answer_query(true, "_locd.unknown.com."), DnsAnswer::NotFound));
    assert!(matches!(server.answer_query(false, "_locd.unknown.com."), DnsAnswer::NotImplemented));
}

#[test]
fn store_answers_all_records_of_a_name() {
    let mut server = DnsRecordStore::new();
    server.add_identity_record("example.com", IdentityRecord::new(&[1u8; 32], 1));
    server.add_identity_record("example.com", IdentityRecord::new(&[2u8; 32], 2));
    server.add_revocation_record("example.com", RevocationRecord::new(vec!["a".to_string()], 3));
    assert_eq!(server.len(), 2);
    match server.answer_query(true, "_locd.example.com") {
        DnsAnswer::Records(txts) => {
            assert_eq!(txts.len(), 2);
            assert!(txts[0].ends_with("t=1"));
            assert!(txts[1].ends_with("t=2"));
        }
        other => panic!("unexpected answer: {:?}", other),
    }
    match server.answer_query(true, "_locd-revoke.example.com.") {
        DnsAnswer::Records(txts) => assert_eq!(txts, vec!["v=locd-revoke1; ids=a; t=3".to_string()]),
        other => panic!("unexpected answer: {:?}", other),
    }
}
