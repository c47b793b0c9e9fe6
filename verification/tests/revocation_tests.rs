use locd::builder::current_timestamp;
use locd::ed25519::{Ed25519KeyPair, Ed25519PublicKey};
use locd::error::Error;
use locd::idset::IdSet;
use locd::revocation::{
    accept_https_revocation_list, dns_record_to_cached_data, dns_record_to_cached_data_at,
    parse_dns_revocation_record, CachedRevocationData, DefaultRevocationChecker, HttpsUrlProvider,
    MasterKeyProvider, RevocationCache,
    RevocationEntry, RevocationList, RevocationReason, RevocationSource, SimpleRevocationChecker,
};
use locd::types::DelegationId;

fn ids(items: &[&str]) -> IdSet {
    let mut s = IdSet::new();
    for i in items {
        s.insert(i.to_string());
    }
    s
}

#[test]
fn test_simple_revocation_checker() {
    let mut checker = SimpleRevocationChecker::new();
    let domain = "example.com";

    let id1 = DelegationId::new();
    let id2 = DelegationId::new();

    assert!(!checker.is_revoked(domain, &id1).unwrap());
    assert!(!checker.is_revoked(domain, &id2).unwrap());

    checker.revoke(id1.clone());
    assert!(checker.is_revoked(domain, &id1).unwrap());
    assert!(!checker.is_revoked(domain, &id2).unwrap());

    checker.revoke(id2.clone());
    assert!(checker.is_revoked(domain, &id1).unwrap());
    assert!(checker.is_revoked(domain, &id2).unwrap());

    checker.clear();
    assert!(!checker.is_revoked(domain, &id1).unwrap());
    assert!(!checker.is_revoked(domain, &id2).unwrap());
}

#[test]
fn test_simple_revocation_checker_with_initial_ids() {
    let id1 = DelegationId::new();
    let id2 = DelegationId::new();
    let id3 = DelegationId::new();

    let checker = SimpleRevocationChecker::with_revoked_ids(vec![id1.clone(), id2.clone()]);

    assert_eq!(checker.len(), 2);
    assert!(!checker.is_empty());

    assert!(checker.is_revoked("example.com", &id1).unwrap());
    assert!(checker.is_revoked("example.com", &id2).unwrap());
    assert!(!checker.is_revoked("example.com", &id3).unwrap());
}

#[test]
fn test_simple_revocation_checker_len_empty() {
    let mut checker = SimpleRevocationChecker::new();
    assert_eq!(checker.len(), 0);
    assert!(checker.is_empty());

    checker.revoke(DelegationId::new());
    assert_eq!(checker.len(), 1);
    assert!(!checker.is_empty());

    checker.clear();
    assert_eq!(checker.len(), 0);
    assert!(checker.is_empty());
}

#[test]
fn test_cache_put_get() {
    let mut cache = RevocationCache::new();
    let domain = "example.com";

    let revoked_ids = ids(&["id1", "id2"]);

    let data = CachedRevocationData {
        revoked_ids,
        expires_at: current_timestamp() + 300,
        source: RevocationSource::Dns,
    };

    cache.put(domain.to_string(), data);

    let cached = cache.get(domain).expect("Should be cached");
    assert_eq!(cached.revoked_ids.len(), 2);
    assert!(cached.revoked_ids.contains("id1"));
    assert!(cached.revoked_ids.contains("id2"));
    assert_eq!(cached.source, RevocationSource::Dns);
}

#[test]
fn test_cache_expiry() {
    let mut cache = RevocationCache::new();
    let domain = "example.com";

    let data = CachedRevocationData {
        revoked_ids: IdSet::new(),
        expires_at: current_timestamp() - 1,
        source: RevocationSource::Dns,
    };

    cache.put(domain.to_string(), data);

    assert!(cache.get(domain).is_none());
}

#[test]
fn test_cache_merge() {
    let mut cache = RevocationCache::new();
    let domain = "example.com";

    let dns_data = CachedRevocationData {
        revoked_ids: ids(&["id1", "id2"]),
        expires_at: current_timestamp() + 300,
        source: RevocationSource::Dns,
    };

    let https_data = CachedRevocationData {
        revoked_ids: ids(&["id2", "id3"]),
        expires_at: current_timestamp() + 600,
        source: RevocationSource::Https,
    };

    cache.put_merged(domain.to_string(), Some(dns_data), Some(https_data));

    let merged = cache.get(domain).expect("Should be cached");
    assert_eq!(merged.revoked_ids.len(), 3);
    assert_eq!(merged.source, RevocationSource::Merged);
    assert_eq!(merged.expires_at, current_timestamp() + 300);
}

#[test]
fn cache_test_cache_cleanup() {
    let mut cache = RevocationCache::new();

    let expired = CachedRevocationData {
        revoked_ids: IdSet::new(),
        expires_at: current_timestamp() - 1,
        source: RevocationSource::Dns,
    };
    cache.put("expired.com".to_string(), expired);

    let valid = CachedRevocationData {
        revoked_ids: IdSet::new(),
        expires_at: current_timestamp() + 300,
        source: RevocationSource::Dns,
    };
    cache.put("valid.com".to_string(), valid);

    assert_eq!(cache.len(), 2);

    cache.cleanup();

    assert_eq!(cache.len(), 1);
    assert!(cache.get("valid.com").is_some());
    assert!(cache.get("expired.com").is_none());
}

#[test]
fn test_cache_clear() {
    let mut cache = RevocationCache::new();

    let data = CachedRevocationData {
        revoked_ids: IdSet::new(),
        expires_at: current_timestamp() + 300,
        source: RevocationSource::Dns,
    };

    cache.put("example.com".to_string(), data);
    assert_eq!(cache.len(), 1);

    cache.clear();
    assert_eq!(cache.len(), 0);
}

#[test]
fn checker_test_cache_cleanup() {
    let mut checker = DefaultRevocationChecker::new();

    checker.cleanup_cache();
    checker.clear_cache();
}

#[test]
fn test_parse_dns_revocation_record() {
    let txt = "v=locd-revoke1; ids=550e8400-e29b-41d4-a716-446655440000,660e8400-e29b-41d4-a716-446655440001; t=1739577600";

    let (ids, timestamp) = parse_dns_revocation_record(txt).unwrap();

    assert_eq!(ids.len(), 2);
    assert!(ids.contains("550e8400-e29b-41d4-a716-446655440000"));
    assert!(ids.contains("660e8400-e29b-41d4-a716-446655440001"));
    assert_eq!(timestamp, 1739577600);
}

#[test]
fn test_parse_dns_revocation_record_empty() {
    let txt = "v=locd-revoke1; ids=; t=1739577600";

    let (ids, timestamp) = parse_dns_revocation_record(txt).unwrap();

    assert_eq!(ids.len(), 0);
    assert_eq!(timestamp, 1739577600);
}

#[test]
fn test_parse_dns_revocation_record_invalid() {
    let txt = "invalid format";
    assert!(parse_dns_revocation_record(txt).is_err());
}

#[test]
fn test_dns_record_to_cached_data() {
    let revoked_ids = ids(&["id1", "id2"]);

    let cached = dns_record_to_cached_data(revoked_ids, Some(300));

    assert_eq!(cached.revoked_ids.len(), 2);
    assert_eq!(cached.source, RevocationSource::Dns);
    let now = current_timestamp();
    assert!(cached.expires_at >= now + 299);
    assert!(cached.expires_at <= now + 301);
}

#[test]
fn test_dns_record_to_cached_data_default_ttl() {
    let revoked_ids = IdSet::new();
    let cached = dns_record_to_cached_data(revoked_ids, None);

    let now = current_timestamp();
    assert!(cached.expires_at >= now + 299);
    assert!(cached.expires_at <= now + 301);
}

#[test]
fn cached_data_expiry_is_exact_at_a_given_time() {
    let cached = dns_record_to_cached_data_at(ids(&["a"]), Some(60), 1000);
    assert_eq!(cached.expires_at, 1060);
    let cached = dns_record_to_cached_data_at(IdSet::new(), None, 1000);
    assert_eq!(cached.expires_at, 1300);
}

#[test]
fn cache_lookup_respects_expiry_exactly() {
    let mut cache = RevocationCache::new();
    cache.put(
        "example.com".to_string(),
        CachedRevocationData { revoked_ids: ids(&["x"]), expires_at: 100, source: RevocationSource::Dns },
    );
    assert!(cache.get_at("example.com", 99).is_some());
    assert!(cache.get_at("example.com", 100).is_none());
    assert!(cache.get_at("other.com", 0).is_none());
    cache.cleanup_at(100);
    assert_eq!(cache.len(), 0);
}

#[test]
fn later_put_replaces_earlier() {
    let mut cache = RevocationCache::new();
    cache.put(
        "example.com".to_string(),
        CachedRevocationData { revoked_ids: ids(&["x"]), expires_at: 100, source: RevocationSource::Dns },
    );
    cache.put(
        "example.com".to_string(),
        CachedRevocationData { revoked_ids: ids(&["y"]), expires_at: 200, source: RevocationSource::Https },
    );
    assert_eq!(cache.len(), 1);
    let got = cache.get_at("example.com", 150).unwrap();
    assert!(got.revoked_ids.contains("y"));
    assert!(!got.revoked_ids.contains("x"));
    assert_eq!(got.source, RevocationSource::Https);
}

#[test]
fn checker_caches_what_it_absorbs() {
    let mut checker = DefaultRevocationChecker::new();
    let id = DelegationId::from_u128(0x550e8400_e29b_41d4_a716_446655440000);
    assert_eq!(checker.cached_answer_at("example.com", &id, 10), None);
    let dns = CachedRevocationData {
        revoked_ids: ids(&["550e8400-e29b-41d4-a716-446655440000"]),
        expires_at: 300,
        source: RevocationSource::Dns,
    };
    assert!(checker.absorb_fetched("example.com", &id, Some(dns), None));
    assert_eq!(checker.cached_answer_at("example.com", &id, 10), Some(true));
    let other = DelegationId::from_u128(1);
    assert_eq!(checker.cached_answer_at("example.com", &other, 10), Some(false));
    assert_eq!(checker.cached_answer_at("example.com", &id, 300), None);
    checker.clear_cache();
    assert_eq!(checker.cached_answer_at("example.com", &id, 10), None);
}

#[test]
fn https_list_must_have_the_right_version_and_signature() {
    let key = Ed25519KeyPair::from_secret_bytes(&[5u8; 32]).unwrap();
    let canonical = b"canonical list bytes";
    let signature = locd::encoding::base64url_encode(&key.sign_bytes(canonical));
    let list = RevocationList {
        v: "locd-revoke-list-v1".to_string(),
        identity: "example.com".to_string(),
        revocations: vec![RevocationEntry {
            delegation_id: "550e8400-e29b-41d4-a716-446655440000".to_string(),
            revoked_at: 1739577600,
            reason: RevocationReason::DeviceLost,
        }],
        published_at: 1739577660,
        signature,
    };
    let data = accept_https_revocation_list(&list, canonical, &key.public_key(), 1000)
        .unwrap()
        .unwrap();
    assert_eq!(data.expires_at, 1600);
    assert_eq!(data.source, RevocationSource::Https);
    assert!(data.revoked_ids.contains("550e8400-e29b-41d4-a716-446655440000"));

    let tampered = accept_https_revocation_list(&list, b"other bytes", &key.public_key(), 1000);
    assert!(tampered.is_err());

    let mut old = list.clone();
    old.v = "v0".to_string();
    match accept_https_revocation_list(&old, canonical, &key.public_key(), 1000) {
        Err(Error::Custom(m)) => assert_eq!(m, "Unsupported revocation list version: v0"),
        _ => panic!("expected a version error"),
    }
}

#[test]
fn revocation_reasons_have_wire_names() {
    assert_eq!(RevocationReason::DeviceLost.as_str(), "device_lost");
}

struct OneUrl;

impl HttpsUrlProvider for OneUrl {
    fn get_url(&self, domain: &str) -> Option<String> {
        if domain == "example.com" {
            Some("https://example.com/.well-known/locd-revocations.json".to_string())
        } else {
            None
        }
    }
}

struct OneKey;

impl MasterKeyProvider for OneKey {
    fn get_master_key(&self, domain: &str) -> Option<Ed25519PublicKey> {
        if domain == "example.com" {
            Some(Ed25519KeyPair::from_secret_bytes(&[7u8; 32]).unwrap().public_key())
        } else {
            None
        }
    }
}

#[test]
fn https_source_needs_both_providers() {
    let bare = DefaultRevocationChecker::new();
    assert!(bare.https_source("example.com").is_none());
    let urls_only = DefaultRevocationChecker::new().with_https_provider(Box::new(OneUrl));
    assert!(urls_only.https_source("example.com").is_none());
    let keys_only = DefaultRevocationChecker::new().with_master_key_provider(Box::new(OneKey));
    assert!(keys_only.https_source("example.com").is_none());
    let both = DefaultRevocationChecker::new()
        .with_https_provider(Box::new(OneUrl))
        .with_master_key_provider(Box::new(OneKey));
    let (url, key) = both.https_source("example.com").unwrap();
    assert_eq!(url, "https://example.com/.well-known/locd-revocations.json");
    let expected = Ed25519KeyPair::from_secret_bytes(&[7u8; 32]).unwrap().public_key();
    assert_eq!(key.to_bytes(), expected.to_bytes());
    assert!(both.https_source("other.org").is_none());
}

#[test]
fn checker_counts_each_distinct_id_once() {
    let a = DelegationId::from_u128(1);
    let b = DelegationId::from_u128(2);
    let mut c = SimpleRevocationChecker::with_revoked_ids(vec![a, b, a]);
    assert_eq!(c.len(), 2);
    c.revoke(a);
    assert_eq!(c.len(), 2);
    c.revoke(DelegationId::from_u128(3));
    assert_eq!(c.len(), 3);
}

#[test]
fn dns_data_may_expire_at_the_end_of_time() {
    let data = dns_record_to_cached_data_at(IdSet::new(), None, u64::MAX - 300);
    assert_eq!(data.expires_at, u64::MAX);
}

#[test]
fn failed_https_fetch_is_passed_on_and_nothing_is_cached() {
    let mut checker = DefaultRevocationChecker::new();
    let id = DelegationId::from_u128(0x550e8400_e29b_41d4_a716_446655440000);
    let dns = || CachedRevocationData {
        revoked_ids: ids(&["550e8400-e29b-41d4-a716-446655440000"]),
        expires_at: 300,
        source: RevocationSource::Dns,
    };
    let failed = checker.absorb_https_outcome("example.com", &id, Some(dns()), Err(Error::Custom("down".to_string())));
    assert!(failed.is_err());
    assert_eq!(checker.cached_answer_at("example.com", &id, 10), None);
    assert_eq!(checker.absorb_https_outcome("example.com", &id, Some(dns()), Ok(None)).unwrap(), true);
    assert_eq!(checker.cached_answer_at("example.com", &id, 10), Some(true));
}
