//! Protocol compliance checks: each exercises the library the way another
//! implementation would, and gives `Ok` where the expectation holds. Keys
//! and IDs are fresh random ones and times come from the clock, so the
//! contracts say what holds of every key, ID and time; where an expectation
//! rests on what an outside crate gives (a decoding, a random draw), the
//! check tests it and says so.

use vstd::prelude::*;
use crate::builder::{
    build_answers, build_outcome, current_timestamp, expires_in_view, DelegationTokenBuilder,
};
use crate::constants::{DELEGATION_TYPE, PROTOCOL_VERSION, REVOCATION_TYPE};
use crate::ed25519::{ed25519_public, Ed25519KeyPair, Ed25519PublicKey};
use crate::error::{Error, Result};
use crate::records::{
    clean_id, identity_parse, identity_record_roundtrip, revocation_record_roundtrip, IdentityRecord,
    RevocationRecord,
};
use crate::token::{token_decode, DelegationToken, TokenFailure, TokenView};
use crate::types::{uuid_text, DelegationId};
use crate::validator::DelegationValidator;

verus! {

/// The clock read by a build was too close to the end of time.
pub open spec fn clock_refused<T>(r: Result<T>) -> bool {
    r matches Err(Error::Custom(m)) && m@ == "timestamp out of range"@
}

/// A build refused the builder's times.
pub open spec fn build_refused<T>(r: Result<T>) -> bool {
    r matches Err(Error::InvalidDelegation(m)) && (m@ == "Expiry must be after issuance"@ || m@
        == "Duration exceeds maximum of 2592000 seconds"@)
}

/// The check's expectation `msg` did not hold.
pub open spec fn expectation_failed<T>(r: Result<T>, msg: Seq<char>) -> bool {
    r matches Err(Error::Custom(m)) && m@ == msg
}

/// `Ok` where `cond` holds, else the failed expectation `msg`.
fn expect(cond: bool, msg: &str) -> (r: Result<()>)
    ensures
        cond ==> r is Ok,
        !cond ==> expectation_failed(r, msg@),
{
    if cond {
        Ok(())
    } else {
        Err(Error::Custom(String::from_str(msg)))
    }
}

/// A builder from the master key to the device key, with a fresh ID.
fn keyed_builder(master: &Ed25519KeyPair, device: &Ed25519KeyPair) -> (b: DelegationTokenBuilder)
    ensures
        b@.delegator == Some(ed25519_public(master@)),
        b@.delegate == Some(ed25519_public(device@)),
        b@.delegation_id is Some,
        b@.issued_at is None,
        b@.expires_at is None,
        b@.services == Seq::<Seq<char>>::empty(),
        b@.actions == Seq::<Seq<char>>::empty(),
        b@.max_uses == 0,
        b@.attestation is None,
        !b@.can_sub_delegate,
{
    DelegationToken::builder()
        .delegator(master.public_key().to_bytes())
        .delegate(device.public_key().to_bytes())
        .delegation_id(DelegationId::new())
}

/// Sets the expiry `secs` seconds from now and builds: the token has the
/// builder's keys, ID and scope, and lasts `secs` seconds; or the clock
/// refused.
fn build_lasting(b: DelegationTokenBuilder, secs: u64) -> (r: Result<DelegationToken>)
    requires
        b@.delegator is Some,
        b@.delegate is Some,
        b@.issued_at is None,
        b@.expires_at is None,
        0 < secs <= 86400,
    ensures
        match r {
            Ok(t) => {
                &&& t@.delegator == b@.delegator->0
                &&& t@.delegate == b@.delegate->0
                &&& t@.services == b@.services
                &&& t@.actions == b@.actions
                &&& t@.max_uses == b@.max_uses
                &&& t@.can_sub_delegate == b@.can_sub_delegate
                &&& (b@.delegation_id matches Some(id) ==> t@.delegation_id == id)
                &&& (t@.expires_at == t@.issued_at + secs || t@.expires_at == t@.issued_at + 86400)
            },
            Err(_) => clock_refused(r),
        },
{
    let ghost v = b@;
    let b1 = b.expires_in(secs);
    let ghost v1 = b1@;
    let r = b1.build();
    proof {
        if !clock_refused(r) {
            let (now, fresh) = choose|now: u64, fresh: u128| crate::builder::build_in_range(v1, now) && build_answers(r, #[trigger] build_outcome(v1, now, fresh));
            assert(build_answers(r, build_outcome(v1, now, fresh)));
            assert(crate::builder::build_in_range(v1, now));
            if v1 != v {
                let n0 = choose|n0: u64| v1 == #[trigger] crate::builder::expires_in_outcome(v, n0, secs);
                assert(n0 + secs <= u64::MAX);
                assert(v1 == expires_in_view(v, n0, secs));
            }
        }
    }
    r
}

/// Sets the expiry a day from now and builds.
fn build_for_a_day(b: DelegationTokenBuilder) -> (r: Result<DelegationToken>)
    requires
        b@.delegator is Some,
        b@.delegate is Some,
        b@.issued_at is None,
        b@.expires_at is None,
    ensures
        match r {
            Ok(t) => {
                &&& t@.delegator == b@.delegator->0
                &&& t@.delegate == b@.delegate->0
                &&& t@.services == b@.services
                &&& t@.actions == b@.actions
                &&& t@.max_uses == b@.max_uses
                &&& t@.can_sub_delegate == b@.can_sub_delegate
                &&& (b@.delegation_id matches Some(id) ==> t@.delegation_id == id)
                &&& t@.expires_at == t@.issued_at + 86400
            },
            Err(_) => clock_refused(r),
        },
{
    build_lasting(b, 86400)
}

/// Sets the expiry and builds, the issuance time left to the clock: the
/// token expires then, after it was issued; or the build refused the times.
fn build_expiring_at(b: DelegationTokenBuilder, expires_at: u64) -> (r: Result<DelegationToken>)
    requires
        b@.delegator is Some,
        b@.delegate is Some,
        b@.issued_at is None,
    ensures
        match r {
            Ok(t) => {
                &&& t@.delegator == b@.delegator->0
                &&& t@.delegate == b@.delegate->0
                &&& t@.services == b@.services
                &&& t@.actions == b@.actions
                &&& (b@.delegation_id matches Some(id) ==> t@.delegation_id == id)
                &&& t@.expires_at == expires_at
                &&& t@.issued_at < expires_at
            },
            Err(_) => build_refused(r),
        },
        expires_at == 0 ==> (r matches Err(Error::InvalidDelegation(m)) && m@
            == "Expiry must be after issuance"@),
{
    let ghost v = b@;
    let b1 = b.expires_at(expires_at);
    let ghost v1 = b1@;
    let r = b1.build();
    proof {
        let (now, fresh) = choose|now: u64, fresh: u128| crate::builder::build_in_range(v1, now) && build_answers(r, #[trigger] build_outcome(v1, now, fresh));
        assert(build_answers(r, build_outcome(v1, now, fresh)));
    }
    r
}

// ------------------------------------------------------ compatibility checks

/// Signs a token and reads the signed bytes back as a token. The signed
/// form is the COSE Sign1-shaped array, which `from_cbor` (a reader of the
/// bare CBOR map) refuses: the check fails with "Expected CBOR map", or the
/// clock refused.
pub fn test_token_format_stability() -> (r: Result<()>)
    ensures
        (r matches Err(Error::InvalidDelegation(m)) && m@ == "Expected CBOR map"@) || clock_refused(r),
{
    let master = Ed25519KeyPair::generate();
    let device = Ed25519KeyPair::generate();
    let b = keyed_builder(&master, &device).service("example.com").action("read");
    let token = match build_for_a_day(b) {
        Ok(t) => t,
        Err(e) => return Err(e),
    };
    let cbor = token.sign(&master).unwrap();
    proof {
        lemma_signed_is_no_map(cbor@, ed25519_public(master@), token@);
    }
    let parsed = match DelegationToken::from_cbor(cbor.as_slice()) {
        Ok(p) => p,
        Err(e) => return Err(e),
    };
    let keys_kept = crate::bytes::bytes_eq(parsed.delegator.as_slice(), token.delegator.as_slice())
        && crate::bytes::bytes_eq(parsed.delegate.as_slice(), token.delegate.as_slice());
    if !keys_kept {
        return expect(false, "parsed keys differ");
    }
    let cbor2 = parsed.sign(&master).unwrap();
    expect(cbor.len() > 0 && cbor2.len() > 0, "signed tokens should not be empty")
}

/// Bytes that verify as a signed token are a CBOR array, which the reader
/// of the bare token map refuses.
pub proof fn lemma_signed_is_no_map(b: Seq<u8>, public: Seq<u8>, v: TokenView)
    requires
        crate::token::cose_verify(b, public) == Ok::<TokenView, TokenFailure>(v),
    ensures
        token_decode(b) == Err::<TokenView, TokenFailure>(TokenFailure::Invalid("Expected CBOR map"@)),
{
}

/// An identity record reads back from its TXT text and gives the same text.
pub fn test_dns_format_stability() -> (r: Result<()>)
    ensures
        r is Ok,
{
    let keypair = Ed25519KeyPair::generate();
    let timestamp: u64 = 1234567890;
    let record = IdentityRecord::new(keypair.public_key().to_bytes().as_slice(), timestamp);
    let txt1 = record.to_txt_record();
    proof {
        identity_record_roundtrip(record@);
    }
    let parsed = match IdentityRecord::from_txt_record(txt1.as_str()) {
        Ok(p) => p,
        Err(e) => return Err(e),
    };
    let txt2 = parsed.to_txt_record();
    expect(crate::text::str_eq(txt1.as_str(), txt2.as_str()), "DNS TXT format should be stable")
}

/// A minimal token signs and verifies under its master key.
pub fn test_minimal_token_compat() -> (r: Result<()>)
    ensures
        r is Ok || clock_refused(r),
{
    let master = Ed25519KeyPair::generate();
    let device = Ed25519KeyPair::generate();
    let b = keyed_builder(&master, &device).service("example.com").action("read");
    let token = match build_for_a_day(b) {
        Ok(t) => t,
        Err(e) => return Err(e),
    };
    let signed = token.sign(&master).unwrap();
    match DelegationToken::verify(signed.as_slice(), &master.public_key()) {
        Ok(_) => Ok(()),
        Err(e) => Err(e),
    }
}

/// The protocol version is a non-empty string.
pub fn test_protocol_version() -> (r: Result<()>)
    ensures
        r is Ok,
{
    let version = PROTOCOL_VERSION;
    proof {
        reveal_strlit("locd1");
    }
    expect(version.unicode_len() > 0, "Protocol version should not be empty")
}

/// The delegation and revocation type names are non-empty.
pub fn test_delegation_type_constants() -> (r: Result<()>)
    ensures
        r is Ok,
{
    proof {
        reveal_strlit("locd-delegation-v1");
        reveal_strlit("locd-revoke1");
    }
    let d = expect(DELEGATION_TYPE.unicode_len() > 0, "delegation type should not be empty");
    if d.is_err() {
        return d;
    }
    expect(REVOCATION_TYPE.unicode_len() > 0, "revocation type should not be empty")
}

/// A public key has 32 bytes and imports back unchanged.
pub fn test_key_format_compat() -> (r: Result<()>)
    ensures
        r is Ok,
{
    let keypair = Ed25519KeyPair::generate();
    let public_bytes = keypair.public_key().to_bytes();
    if public_bytes.len() != 32 {
        return expect(false, "public key should have 32 bytes");
    }
    let imported = match Ed25519PublicKey::from_bytes(public_bytes.as_slice()) {
        Ok(k) => k,
        Err(e) => return Err(e),
    };
    expect(crate::bytes::bytes_eq(imported.to_bytes().as_slice(), public_bytes.as_slice()), "imported key differs")
}

/// A signature has 64 bytes and verifies.
pub fn test_signature_format_compat() -> (r: Result<()>)
    ensures
        r is Ok,
{
    let keypair = Ed25519KeyPair::generate();
    let message: [u8; 12] = [0x74, 0x65, 0x73, 0x74, 0x20, 0x6d, 0x65, 0x73, 0x73, 0x61, 0x67, 0x65];
    let signature = keypair.sign(vstd::array::array_as_slice(&message));
    if signature.to_bytes().len() != 64 {
        return expect(false, "signature should have 64 bytes");
    }
    keypair.public_key().verify(vstd::array::array_as_slice(&message), &signature)
}

/// A signed token starts with a byte of a CBOR major type (0 to 6). The
/// bytes come from the CBOR encoder, so the check tests them.
pub fn test_cbor_version_marker() -> (r: Result<()>)
    ensures
        r is Ok || clock_refused(r) || expectation_failed(r, "CBOR should not be empty"@)
            || expectation_failed(r, "Invalid CBOR major type"@),
{
    let master = Ed25519KeyPair::generate();
    let device = Ed25519KeyPair::generate();
    let b = keyed_builder(&master, &device).service("example.com").action("read");
    let token = match build_for_a_day(b) {
        Ok(t) => t,
        Err(e) => return Err(e),
    };
    let cbor = token.sign(&master).unwrap();
    if cbor.len() == 0 {
        return expect(false, "CBOR should not be empty");
    }
    let first_byte = cbor[0];
    let major_type = (first_byte >> 5u8) & 7u8;
    expect(major_type <= 6, "Invalid CBOR major type")
}

/// A token valid for a year: the builder refuses it (more than the
/// 30-day maximum) unless the clock moves on; a token it does build is read
/// back from its signed form, which `from_cbor` refuses. The check never
/// passes.
pub fn test_token_longevity() -> (r: Result<()>)
    ensures
        r is Err,
        build_refused(r) || clock_refused(r) || expectation_failed(r, "token should not be expired"@)
            || (r matches Err(Error::InvalidDelegation(m)) && m@ == "Expected CBOR map"@),
{
    let master = Ed25519KeyPair::generate();
    let device = Ed25519KeyPair::generate();
    let one_year: u64 = 365 * 24 * 60 * 60;
    let now = current_timestamp();
    if now > u64::MAX - one_year {
        return Err(Error::Custom(String::from_str("timestamp out of range")));
    }
    let b = keyed_builder(&master, &device).service("example.com").action("read");
    let token = match build_expiring_at(b, now + one_year) {
        Ok(t) => t,
        Err(e) => return Err(e),
    };
    if DelegationValidator::is_expired(&token, current_timestamp()) {
        return expect(false, "token should not be expired");
    }
    let cbor = token.sign(&master).unwrap();
    proof {
        lemma_signed_is_no_map(cbor@, ed25519_public(master@), token@);
    }
    match DelegationToken::from_cbor(cbor.as_slice()) {
        Ok(_) => Ok(()),
        Err(e) => Err(e),
    }
}

/// Two builds of the same delegation give the same keys and ID.
pub fn test_cbor_field_order_independence() -> (r: Result<()>)
    ensures
        r is Ok || clock_refused(r) || build_refused(r),
{
    let master = Ed25519KeyPair::generate();
    let device = Ed25519KeyPair::generate();
    let b1 = keyed_builder(&master, &device).service("example.com").action("read");
    let token1 = match build_for_a_day(b1) {
        Ok(t) => t,
        Err(e) => return Err(e),
    };
    let b2 = DelegationToken::builder()
        .delegator(master.public_key().to_bytes())
        .delegate(device.public_key().to_bytes())
        .delegation_id(token1.delegation_id)
        .service("example.com")
        .action("read");
    let token2 = match build_expiring_at(b2, token1.expires_at) {
        Ok(t) => t,
        Err(e) => return Err(e),
    };
    let same = crate::bytes::bytes_eq(token1.delegator.as_slice(), token2.delegator.as_slice())
        && crate::bytes::bytes_eq(token1.delegate.as_slice(), token2.delegate.as_slice())
        && token1.delegation_id.as_uuid() == token2.delegation_id.as_uuid();
    expect(same, "tokens should have the same content")
}

// --------------------------------------------------------- edge-case checks

/// A token expiring at the clock's time is expired then (where the builder
/// takes it: the issuance time is read from the clock again).
pub fn test_delegation_expires_at_boundary() -> (r: Result<()>)
    ensures
        r is Ok || build_refused(r),
{
    let master = Ed25519KeyPair::generate();
    let device = Ed25519KeyPair::generate();
    let now = current_timestamp();
    let b = keyed_builder(&master, &device).service("example.com").action("read");
    let token = match build_expiring_at(b, now) {
        Ok(t) => t,
        Err(e) => return Err(e),
    };
    expect(DelegationValidator::is_expired(&token, now), "token should be expired")
}

/// A token expiring a second after the clock's time is not expired then.
pub fn test_delegation_expires_just_future() -> (r: Result<()>)
    ensures
        r is Ok || build_refused(r) || clock_refused(r),
{
    let master = Ed25519KeyPair::generate();
    let device = Ed25519KeyPair::generate();
    let now = current_timestamp();
    if now == u64::MAX {
        return Err(Error::Custom(String::from_str("timestamp out of range")));
    }
    let b = keyed_builder(&master, &device).service("example.com").action("read");
    let token = match build_expiring_at(b, now + 1) {
        Ok(t) => t,
        Err(e) => return Err(e),
    };
    expect(!DelegationValidator::is_expired(&token, now), "token should not be expired")
}

/// A token expiring near `u64::MAX`: the builder refuses it (more than the
/// 30-day maximum after now) unless the clock is near the end of time.
pub fn test_timestamp_max_value() -> (r: Result<()>)
    ensures
        r is Ok || build_refused(r) || expectation_failed(r, "token should not be expired"@),
{
    let master = Ed25519KeyPair::generate();
    let device = Ed25519KeyPair::generate();
    let far_future: u64 = u64::MAX - 1000;
    let b = keyed_builder(&master, &device).service("example.com").action("read");
    let token = match build_expiring_at(b, far_future) {
        Ok(t) => t,
        Err(e) => return Err(e),
    };
    if DelegationValidator::is_expired(&token, current_timestamp()) {
        return expect(false, "token should not be expired");
    }
    expect(token.expires_at == far_future, "expiry should be kept")
}

/// `n` copies of `unit`.
fn repeat_text(unit: &str, n: usize) -> (r: String)
    ensures
        r@.len() == n * unit@.len(),
{
    let mut out = String::new();
    let mut i: usize = 0;
    while i < n
        invariant
            i <= n,
            out@.len() == i * unit@.len(),
        decreases n - i,
    {
        out.append(unit);
        proof {
            vstd::arithmetic::mul::lemma_mul_is_distributive_add_other_way(unit@.len() as int, i as int, 1);
        }
        i = i + 1;
    }
    out
}

/// A domain of three 63-character labels and "com" is kept as given.
pub fn test_max_domain_length() -> (r: Result<()>)
    ensures
        r is Ok,
{
    let a = repeat_text("a", 63);
    let b = repeat_text("b", 63);
    let c = repeat_text("c", 63);
    let mut long_domain = String::new();
    long_domain.append(a.as_str());
    long_domain.append(".");
    long_domain.append(b.as_str());
    long_domain.append(".");
    long_domain.append(c.as_str());
    long_domain.append(".com");
    proof {
        reveal_strlit("a");
        reveal_strlit("b");
        reveal_strlit("c");
        reveal_strlit(".");
        reveal_strlit(".com");
    }
    let n = long_domain.as_str().unicode_len();
    if n > 253 {
        return expect(false, "Domain should be under 253 chars");
    }
    let domain = crate::types::IdentityDomain::new(long_domain.as_str());
    expect(crate::text::str_eq(domain.as_str(), long_domain.as_str()), "domain should be kept")
}

/// A one-character domain is kept as given.
pub fn test_min_domain_length() -> (r: Result<()>)
    ensures
        r is Ok,
{
    let domain = crate::types::IdentityDomain::new("a");
    expect(crate::text::str_eq(domain.as_str(), "a"), "domain should be kept")
}

/// A token for every service ("*") has a service pattern.
pub fn test_wildcard_service_pattern() -> (r: Result<()>)
    ensures
        r is Ok || clock_refused(r),
{
    let master = Ed25519KeyPair::generate();
    let device = Ed25519KeyPair::generate();
    let b = keyed_builder(&master, &device).service("*").action("read");
    let token = match build_for_a_day(b) {
        Ok(t) => t,
        Err(e) => return Err(e),
    };
    assert(token@.services.len() == 1);
    assert(token.services.deep_view().len() == token.services@.len());
    expect(token.services.len() > 0, "token should have a service")
}

/// The length of the text of an identity record without expiry or
/// revocation endpoint: the fixed parts, the key and the timestamp.
proof fn lemma_identity_text_len(v: crate::records::IdentityView)
    requires
        v.version == "locd1"@,
        v.algorithm == "ed25519"@,
        v.expiry is None,
        v.revocation_endpoint is None,
    ensures
        crate::txt::entries_text(crate::records::identity_fields(v)).len() == 26 + v.public_key.len()
            + crate::text::decimal(v.timestamp as nat).len(),
{
    reveal_strlit("locd1");
    reveal_strlit("ed25519");
    reveal_strlit("v");
    reveal_strlit("k");
    reveal_strlit("p");
    reveal_strlit("t");
    reveal_strlit("=");
    reveal_strlit("; ");
    let f0: crate::txt::Field = ("v"@, "locd1"@);
    let f1: crate::txt::Field = ("k"@, "ed25519"@);
    let f2: crate::txt::Field = ("p"@, v.public_key);
    let f3: crate::txt::Field = ("t"@, crate::text::decimal(v.timestamp as nat));
    let fs = crate::records::identity_fields(v);
    assert(fs =~= seq![f0, f1, f2, f3]);
    assert(seq![f0, f1, f2, f3].drop_last() =~= seq![f0, f1, f2]);
    assert(seq![f0, f1, f2].drop_last() =~= seq![f0, f1]);
    assert(seq![f0, f1].drop_last() =~= seq![f0]);
    assert(crate::txt::entries_text(seq![f0]) == crate::txt::entry_text(f0));
    assert(crate::txt::entries_text(seq![f0, f1]) == crate::txt::entry_text(f0) + "; "@ + crate::txt::entry_text(f1));
    assert(crate::txt::entries_text(seq![f0, f1, f2]) == crate::txt::entries_text(seq![f0, f1]) + "; "@
        + crate::txt::entry_text(f2));
    assert(crate::txt::entries_text(fs) == crate::txt::entries_text(seq![f0, f1, f2]) + "; "@
        + crate::txt::entry_text(f3));
}

/// An identity record's TXT text is short and reads back with its key.
pub fn test_max_txt_record_length() -> (r: Result<()>)
    ensures
        r is Ok,
{
    let keypair = Ed25519KeyPair::generate();
    let timestamp: u64 = 1234567890;
    let record = IdentityRecord::new(keypair.public_key().to_bytes().as_slice(), timestamp);
    let txt = record.to_txt_record();
    proof {
        lemma_identity_text_len(record@);
        assert(crate::text::decimal(1nat).len() == 1);
        assert(crate::text::decimal(12nat).len() == 2);
        assert(crate::text::decimal(123nat).len() == 3);
        assert(crate::text::decimal(1234nat).len() == 4);
        assert(crate::text::decimal(12345nat).len() == 5);
        assert(crate::text::decimal(123456nat).len() == 6);
        assert(crate::text::decimal(1234567nat).len() == 7);
        assert(crate::text::decimal(12345678nat).len() == 8);
        assert(crate::text::decimal(123456789nat).len() == 9);
        assert(crate::text::decimal(1234567890nat).len() == 10);
    }
    if txt.as_str().unicode_len() >= 500 {
        return expect(false, "TXT record should be under 500 bytes");
    }
    proof {
        identity_record_roundtrip(record@);
    }
    let parsed = match IdentityRecord::from_txt_record(txt.as_str()) {
        Ok(p) => p,
        Err(e) => return Err(e),
    };
    expect(crate::text::str_eq(parsed.public_key.as_str(), record.public_key.as_str()), "public key should be kept")
}

/// "<prefix><i><suffix>".
fn numbered(prefix: &str, i: u64, suffix: &str) -> (r: String)
    ensures
        r@ == prefix@ + crate::text::decimal(i as nat) + suffix@,
{
    let d = crate::text::u64_to_decimal(i);
    crate::text::concat3(prefix, d.as_str(), suffix)
}

/// A token with 100 services and 100 actions signs; its signed form is
/// read back with `from_cbor`, which refuses it: the check never passes.
pub fn test_max_cbor_token_size() -> (r: Result<()>)
    ensures
        r is Err,
        clock_refused(r) || expectation_failed(r, "CBOR should not be empty"@) || expectation_failed(
            r,
            "CBOR should be under 100KB"@,
        ) || (r matches Err(Error::InvalidDelegation(m)) && m@ == "Expected CBOR map"@),
{
    let master = Ed25519KeyPair::generate();
    let device = Ed25519KeyPair::generate();
    let mut b = keyed_builder(&master, &device);
    let mut i: u64 = 0;
    while i < 100
        invariant
            i <= 100,
            b@.delegator is Some,
            b@.delegate is Some,
            b@.issued_at is None,
            b@.expires_at is None,
        decreases 100 - i,
    {
        let name = numbered("service", i, ".example.com");
        b = b.service(name.as_str());
        i = i + 1;
    }
    let mut j: u64 = 0;
    while j < 100
        invariant
            j <= 100,
            b@.delegator is Some,
            b@.delegate is Some,
            b@.issued_at is None,
            b@.expires_at is None,
        decreases 100 - j,
    {
        let name = numbered("action", j, "");
        b = b.action(name.as_str());
        j = j + 1;
    }
    let token = match build_for_a_day(b) {
        Ok(t) => t,
        Err(e) => return Err(e),
    };
    let cbor = token.sign(&master).unwrap();
    if cbor.len() == 0 {
        return expect(false, "CBOR should not be empty");
    }
    if cbor.len() >= 100_000 {
        return expect(false, "CBOR should be under 100KB");
    }
    proof {
        lemma_signed_is_no_map(cbor@, ed25519_public(master@), token@);
    }
    match DelegationToken::from_cbor(cbor.as_slice()) {
        Ok(_) => Ok(()),
        Err(e) => Err(e),
    }
}

/// The empty message signs and verifies.
pub fn test_sign_empty_message() -> (r: Result<()>)
    ensures
        r is Ok,
{
    let keypair = Ed25519KeyPair::generate();
    let message: Vec<u8> = Vec::new();
    let signature = keypair.sign(message.as_slice());
    keypair.public_key().verify(message.as_slice(), &signature)
}

/// A message of a million bytes signs and verifies.
pub fn test_sign_long_message() -> (r: Result<()>)
    ensures
        r is Ok,
{
    let keypair = Ed25519KeyPair::generate();
    let mut message: Vec<u8> = Vec::new();
    let mut i: usize = 0;
    while i < 1_000_000
        invariant
            i <= 1_000_000,
            message@.len() == i,
        decreases 1_000_000 - i,
    {
        message.push(0xAA);
        i = i + 1;
    }
    let signature = keypair.sign(message.as_slice());
    keypair.public_key().verify(message.as_slice(), &signature)
}

/// Two new delegation IDs differ (they are random: the check tests them).
pub fn test_delegation_id_uniqueness() -> (r: Result<()>)
    ensures
        r is Ok || expectation_failed(r, "Delegation IDs should be unique"@),
{
    let id1 = DelegationId::new();
    let id2 = DelegationId::new();
    let t1 = id1.to_string();
    let t2 = id2.to_string();
    expect(!crate::text::str_eq(t1.as_str(), t2.as_str()), "Delegation IDs should be unique")
}

/// The ASCII lowercase of a text.
pub open spec fn ascii_lower(s: Seq<char>) -> Seq<char> {
    s.map_values(|c: char| if 'A' <= c && c <= 'Z' { ((c as u32) + 32) as char } else { c })
}

/// Calls `str::to_lowercase`. Trusted: on ASCII text the result is its
/// ASCII lowercase (as the documentation of `to_lowercase` and of ASCII
/// case mapping say); on other text nothing is stated.
#[verifier::external_body]
fn lowercase(s: &str) -> (r: String)
    ensures
        s.is_ascii() ==> r@ == ascii_lower(s@),
{
    s.to_lowercase()
}

/// Domains in any case read the same in lowercase.
pub fn test_domain_case_sensitivity() -> (r: Result<()>)
    ensures
        r is Ok,
{
    let lower = crate::types::IdentityDomain::new("example.com");
    let upper = crate::types::IdentityDomain::new("EXAMPLE.COM");
    let mixed = crate::types::IdentityDomain::new("Example.Com");
    proof {
        reveal_strlit("example.com");
        reveal_strlit("EXAMPLE.COM");
        reveal_strlit("Example.Com");
    }
    let l1 = lowercase(lower.as_str());
    let l2 = lowercase(upper.as_str());
    let l3 = lowercase(mixed.as_str());
    assert(l1@ =~= "example.com"@);
    assert(l2@ =~= "example.com"@);
    assert(l3@ =~= "example.com"@);
    let ok = crate::text::str_eq(l1.as_str(), "example.com") && crate::text::str_eq(l2.as_str(), "example.com")
        && crate::text::str_eq(l3.as_str(), "example.com");
    expect(ok, "domains should read the same in lowercase")
}

/// Actions with special characters build.
pub fn test_special_chars_in_actions() -> (r: Result<()>)
    ensures
        r is Ok || clock_refused(r),
{
    let master = Ed25519KeyPair::generate();
    let device = Ed25519KeyPair::generate();
    let special_actions: [&str; 4] = ["read:write", "admin/delete", "api.v1.read", "resource_update"];
    let mut i: usize = 0;
    while i < 4
        invariant
            i <= 4,
        decreases 4 - i,
    {
        let b = keyed_builder(&master, &device).service("example.com").action(special_actions[i]);
        let token = match build_for_a_day(b) {
            Ok(t) => t,
            Err(e) => return Err(e),
        };
        assert(token@.actions.len() == 1);
        assert(token.actions.deep_view().len() == token.actions@.len());
        if token.actions.len() == 0 {
            return expect(false, "token should have an action");
        }
        i = i + 1;
    }
    Ok(())
}

/// A punycode domain is kept (non-empty).
pub fn test_unicode_domains() -> (r: Result<()>)
    ensures
        r is Ok,
{
    let domain = crate::types::IdentityDomain::new("xn--e1afmkfd.xn--p1ai");
    proof {
        reveal_strlit("xn--e1afmkfd.xn--p1ai");
    }
    expect(domain.as_str().unicode_len() > 0, "domain should not be empty")
}

/// An identity record published at time 0 reads back at time 0.
pub fn test_timestamp_epoch_zero() -> (r: Result<()>)
    ensures
        r is Ok,
{
    let keypair = Ed25519KeyPair::generate();
    let record = IdentityRecord::new(keypair.public_key().to_bytes().as_slice(), 0);
    if record.timestamp != 0 {
        return expect(false, "timestamp should be 0");
    }
    let txt = record.to_txt_record();
    proof {
        identity_record_roundtrip(record@);
    }
    let parsed = match IdentityRecord::from_txt_record(txt.as_str()) {
        Ok(p) => p,
        Err(e) => return Err(e),
    };
    expect(parsed.timestamp == 0, "timestamp should read back as 0")
}

// ----------------------------------------------------------- negative checks

/// A token that expired an hour ago: the builder refuses it (its expiry is
/// before the issuance time it reads from the clock) unless the clock went
/// back; a token it does build must be expired now.
pub fn test_reject_expired_delegation() -> (r: Result<()>)
    ensures
        r is Ok || build_refused(r) || clock_refused(r) || expectation_failed(r, "token should be expired"@),
{
    let master = Ed25519KeyPair::generate();
    let device = Ed25519KeyPair::generate();
    let now = current_timestamp();
    if now < 3600 {
        return Err(Error::Custom(String::from_str("timestamp out of range")));
    }
    let past = now - 3600;
    let b = keyed_builder(&master, &device).service("example.com").action("read");
    let token = match build_expiring_at(b, past) {
        Ok(t) => t,
        Err(e) => return Err(e),
    };
    expect(DelegationValidator::is_expired(&token, current_timestamp()), "token should be expired")
}

/// Flips a bit of a signed token's last byte and reads it with `from_cbor`,
/// which must refuse it. What the CBOR reader makes of the changed bytes is
/// not known here, so the check tests it.
pub fn test_reject_invalid_signature() -> (r: Result<()>)
    ensures
        r is Ok || clock_refused(r) || expectation_failed(r, "Tampered signature should fail verification"@),
{
    let master = Ed25519KeyPair::generate();
    let device = Ed25519KeyPair::generate();
    let b = keyed_builder(&master, &device).service("example.com").action("read");
    let token = match build_for_a_day(b) {
        Ok(t) => t,
        Err(e) => return Err(e),
    };
    let mut cbor = token.sign(&master).unwrap();
    let n = cbor.len();
    if n > 0 {
        let last = cbor[n - 1];
        cbor.set(n - 1, last ^ 1u8);
    }
    let result = DelegationToken::from_cbor(cbor.as_slice());
    expect(result.is_err(), "Tampered signature should fail verification")
}

/// Four bytes that are no CBOR token are refused: `Ok` exactly when
/// decoding them as a token fails.
pub fn test_reject_corrupted_cbor() -> (r: Result<()>)
    ensures
        r is Ok <==> token_decode(seq![0xFFu8, 0xFEu8, 0xFDu8, 0xFCu8]) is Err,
        r is Ok || expectation_failed(r, "Corrupted CBOR should be rejected"@),
{
    let corrupted: [u8; 4] = [0xFF, 0xFE, 0xFD, 0xFC];
    assert(corrupted@ =~= seq![0xFFu8, 0xFEu8, 0xFDu8, 0xFCu8]);
    let result = DelegationToken::from_cbor(vstd::array::array_as_slice(&corrupted));
    expect(result.is_err(), "Corrupted CBOR should be rejected")
}

/// No bytes are no token: `Ok` exactly when decoding them fails.
pub fn test_reject_empty_cbor() -> (r: Result<()>)
    ensures
        r is Ok <==> token_decode(Seq::<u8>::empty()) is Err,
        r is Ok || expectation_failed(r, "Empty CBOR should be rejected"@),
{
    let empty: Vec<u8> = Vec::new();
    assert(empty@ =~= Seq::<u8>::empty());
    let result = DelegationToken::from_cbor(empty.as_slice());
    expect(result.is_err(), "Empty CBOR should be rejected")
}

/// Whether the identity record parser refuses each of the malformed texts.
pub open spec fn malformed_records_rejected() -> bool {
    &&& identity_parse(""@) is Err
    &&& identity_parse("not-a-valid-record"@) is Err
    &&& identity_parse("v=1"@) is Err
    &&& identity_parse("v=999;k=abc"@) is Err
    &&& identity_parse("k=not-base64;t=123"@) is Err
}

/// Whether the identity record parser refuses a text.
fn identity_refused(txt: &str) -> (b: bool)
    ensures
        b == identity_parse(txt@) is Err,
{
    IdentityRecord::from_txt_record(txt).is_err()
}

/// Malformed TXT records are refused.
pub fn test_reject_malformed_txt_record() -> (r: Result<()>)
    ensures
        r is Ok <==> malformed_records_rejected(),
        r is Ok || expectation_failed(r, "Malformed TXT record should be rejected"@),
{
    let all = identity_refused("") && identity_refused("not-a-valid-record") && identity_refused("v=1")
        && identity_refused("v=999;k=abc") && identity_refused("k=not-base64;t=123");
    expect(all, "Malformed TXT record should be rejected")
}

/// A signature verifies for its message and (the check tests it) not for
/// another.
pub fn test_reject_wrong_message() -> (r: Result<()>)
    ensures
        r is Ok || expectation_failed(r, "Signature should fail for wrong message"@),
{
    let keypair = Ed25519KeyPair::generate();
    let message1 = ascii("original message");
    let message2 = ascii("different message");
    let signature = keypair.sign(message1.as_slice());
    match keypair.public_key().verify(message1.as_slice(), &signature) {
        Ok(_) => {},
        Err(e) => return Err(e),
    }
    let result = keypair.public_key().verify(message2.as_slice(), &signature);
    expect(result.is_err(), "Signature should fail for wrong message")
}

/// The UTF-8 bytes of a text.
fn ascii(s: &str) -> (v: Vec<u8>)
    ensures
        v@ == vstd::string::StringSliceAdditionalSpecFns::spec_bytes(s),
{
    crate::bytes::to_vec(s.as_bytes())
}

/// A key may delegate to itself: delegator and delegate are then equal.
pub fn test_self_delegation() -> (r: Result<()>)
    ensures
        r is Ok || clock_refused(r),
{
    let master = Ed25519KeyPair::generate();
    let b = keyed_builder(&master, &master).service("example.com").action("read");
    let token = match build_for_a_day(b) {
        Ok(t) => t,
        Err(e) => return Err(e),
    };
    expect(crate::bytes::bytes_eq(token.delegator.as_slice(), token.delegate.as_slice()), "delegator should be the delegate")
}

/// A token expiring at time 0 is refused by the builder: its expiry is not
/// after the issuance time. The check never passes.
pub fn test_negative_expiry() -> (r: Result<()>)
    ensures
        r matches Err(Error::InvalidDelegation(m)) && m@ == "Expiry must be after issuance"@,
{
    let master = Ed25519KeyPair::generate();
    let device = Ed25519KeyPair::generate();
    let b = keyed_builder(&master, &device).service("example.com").action("read");
    let token = match build_expiring_at(b, 0) {
        Ok(t) => t,
        Err(e) => return Err(e),
    };
    expect(DelegationValidator::is_expired(&token, current_timestamp()), "token should be expired")
}

/// A new delegation ID has a non-empty text.
pub fn test_empty_delegation_id() -> (r: Result<()>)
    ensures
        r is Ok,
{
    let id = DelegationId::new();
    let t = id.to_string();
    expect(t.as_str().unicode_len() > 0, "Delegation ID should not be empty")
}

/// A 300-character domain is kept (non-empty).
pub fn test_reject_overlong_domain() -> (r: Result<()>)
    ensures
        r is Ok,
{
    let too_long = repeat_text("a", 300);
    proof {
        reveal_strlit("a");
    }
    let domain = crate::types::IdentityDomain::new(too_long.as_str());
    expect(domain.as_str().unicode_len() > 0, "domain should not be empty")
}

/// Domains with whitespace are kept (non-empty).
pub fn test_invalid_domain_chars() -> (r: Result<()>)
    ensures
        r is Ok,
{
    proof {
        reveal_strlit("example .com");
        reveal_strlit("example\n.com");
        reveal_strlit("example\t.com");
    }
    let d1 = crate::types::IdentityDomain::new("example .com");
    let d2 = crate::types::IdentityDomain::new("example\n.com");
    let d3 = crate::types::IdentityDomain::new("example\t.com");
    let ok = d1.as_str().unicode_len() > 0 && d2.as_str().unicode_len() > 0 && d3.as_str().unicode_len() > 0;
    expect(ok, "domain should not be empty")
}

/// A signed token read back with `from_cbor`: the signed form is the
/// COSE Sign1-shaped array, which `from_cbor` refuses. The check never
/// passes.
pub fn test_cbor_integrity() -> (r: Result<()>)
    ensures
        (r matches Err(Error::InvalidDelegation(m)) && m@ == "Expected CBOR map"@) || clock_refused(r),
{
    let master = Ed25519KeyPair::generate();
    let device = Ed25519KeyPair::generate();
    let b = keyed_builder(&master, &device).service("example.com").action("read");
    let token = match build_for_a_day(b) {
        Ok(t) => t,
        Err(e) => return Err(e),
    };
    let cbor = token.sign(&master).unwrap();
    proof {
        lemma_signed_is_no_map(cbor@, ed25519_public(master@), token@);
    }
    let parsed = match DelegationToken::from_cbor(cbor.as_slice()) {
        Ok(p) => p,
        Err(e) => return Err(e),
    };
    let same = crate::bytes::bytes_eq(parsed.delegator.as_slice(), token.delegator.as_slice())
        && crate::bytes::bytes_eq(parsed.delegate.as_slice(), token.delegate.as_slice());
    expect(same, "parsed keys differ")
}

/// A token lasting one second is not expired when checked right after
/// (the check reads the clock again, so it tests it).
pub fn test_very_short_expiry() -> (r: Result<()>)
    ensures
        r is Ok || clock_refused(r) || expectation_failed(r, "token should not be expired yet"@),
{
    let master = Ed25519KeyPair::generate();
    let device = Ed25519KeyPair::generate();
    let b = keyed_builder(&master, &device).service("example.com").action("read");
    let token = match build_lasting(b, 1) {
        Ok(t) => t,
        Err(e) => return Err(e),
    };
    expect(!DelegationValidator::is_expired(&token, current_timestamp()), "token should not be expired yet")
}

/// A token with 1000 services keeps them all and signs.
pub fn test_max_services() -> (r: Result<()>)
    ensures
        r is Ok || clock_refused(r),
{
    let master = Ed25519KeyPair::generate();
    let device = Ed25519KeyPair::generate();
    let mut b = keyed_builder(&master, &device);
    let mut i: u64 = 0;
    while i < 1000
        invariant
            i <= 1000,
            b@.delegator is Some,
            b@.delegate is Some,
            b@.issued_at is None,
            b@.expires_at is None,
            b@.services.len() == i,
        decreases 1000 - i,
    {
        let name = numbered("service", i, ".example.com");
        b = b.service(name.as_str());
        i = i + 1;
    }
    b = b.action("read");
    let token = match build_for_a_day(b) {
        Ok(t) => t,
        Err(e) => return Err(e),
    };
    assert(token.services.deep_view().len() == token.services@.len());
    if token.services.len() != 1000 {
        return expect(false, "token should keep 1000 services");
    }
    let _cbor = token.sign(&master).unwrap();
    Ok(())
}

/// A token without services or actions: whatever the builder gives is
/// accepted.
pub fn test_empty_permissions() -> (r: Result<()>)
    ensures
        r is Ok,
{
    let master = Ed25519KeyPair::generate();
    let device = Ed25519KeyPair::generate();
    let b = keyed_builder(&master, &device);
    let _result = build_for_a_day(b);
    Ok(())
}

// -------------------------------------------------------------- basic checks

/// A new Ed25519 public key has 32 bytes.
pub fn test_ed25519_keygen() -> (r: Result<()>)
    ensures
        r is Ok,
{
    let keypair = Ed25519KeyPair::generate();
    let public_key = keypair.public_key();
    expect(public_key.to_bytes().len() == 32, "public key should have 32 bytes")
}

/// A signature verifies.
pub fn test_ed25519_sign_verify() -> (r: Result<()>)
    ensures
        r is Ok,
{
    let keypair = Ed25519KeyPair::generate();
    let message = ascii("test message");
    let signature = keypair.sign(message.as_slice());
    keypair.public_key().verify(message.as_slice(), &signature)
}

/// A token with a service and an action builds with both.
pub fn test_delegation_creation() -> (r: Result<()>)
    ensures
        r is Ok || clock_refused(r),
{
    let master = Ed25519KeyPair::generate();
    let device = Ed25519KeyPair::generate();
    let b = keyed_builder(&master, &device).service("example.com").action("read");
    let token = match build_for_a_day(b) {
        Ok(t) => t,
        Err(e) => return Err(e),
    };
    assert(token.services.deep_view().len() == token.services@.len());
    assert(token.actions.deep_view().len() == token.actions@.len());
    expect(token.services.len() > 0 && token.actions.len() > 0, "token should keep its scope")
}

/// A signed token verifies under its master key and gives its keys back.
pub fn test_delegation_sign_verify() -> (r: Result<()>)
    ensures
        r is Ok || clock_refused(r),
{
    let master = Ed25519KeyPair::generate();
    let device = Ed25519KeyPair::generate();
    let b = keyed_builder(&master, &device).service("example.com").action("read");
    let token = match build_for_a_day(b) {
        Ok(t) => t,
        Err(e) => return Err(e),
    };
    let signed = token.sign(&master).unwrap();
    let verified = match DelegationToken::verify(signed.as_slice(), &master.public_key()) {
        Ok(v) => v,
        Err(e) => return Err(e),
    };
    let same = crate::bytes::bytes_eq(verified.delegator.as_slice(), token.delegator.as_slice())
        && crate::bytes::bytes_eq(verified.delegate.as_slice(), token.delegate.as_slice());
    expect(same, "verified keys differ")
}

/// An identity record published now reads back with its key and time.
pub fn test_dns_identity_record() -> (r: Result<()>)
    ensures
        r is Ok,
{
    let keypair = Ed25519KeyPair::generate();
    let timestamp = current_timestamp();
    let record = IdentityRecord::new(keypair.public_key().to_bytes().as_slice(), timestamp);
    let txt = record.to_txt_record();
    proof {
        identity_record_roundtrip(record@);
    }
    let parsed = match IdentityRecord::from_txt_record(txt.as_str()) {
        Ok(p) => p,
        Err(e) => return Err(e),
    };
    let same = crate::text::str_eq(parsed.public_key.as_str(), record.public_key.as_str())
        && parsed.timestamp == record.timestamp;
    expect(same, "record should read back")
}

/// The text of a UUID has no whitespace, comma or semicolon.
proof fn lemma_uuid_text_clean(u: u128)
    ensures
        clean_id(uuid_text(u)),
{
    let t = uuid_text(u);
    assert forall|i: int| 0 <= i < 36 implies t[i] != ',' && t[i] != ';' && !crate::text::is_ws(t[i]) && !crate::text::is_ws(t[i]) by {
        if !(i == 8 || i == 13 || i == 18 || i == 23) {
            let k = crate::types::uuid_digit_index(i);
            let sh = (124 - 4 * k) as u128;
            let x = u >> sh;
            assert(x & 0xf < 16) by (bit_vector);
            assert(crate::types::uuid_nibble(u, k) < 16);
        }
    }
}

/// A revocation record of a new ID reads back with one ID.
pub fn test_dns_revocation_record() -> (r: Result<()>)
    ensures
        r is Ok,
{
    let id = DelegationId::new();
    let mut ids: Vec<String> = Vec::new();
    ids.push(id.to_string());
    let timestamp = current_timestamp();
    let record = RevocationRecord::new(ids, timestamp);
    let txt = record.to_txt_record();
    proof {
        lemma_uuid_text_clean(id@);
        assert(record@.revoked_ids[0] == uuid_text(id@));
        revocation_record_roundtrip(record@);
    }
    let parsed = match RevocationRecord::from_txt_record(txt.as_str()) {
        Ok(p) => p,
        Err(e) => return Err(e),
    };
    assert(parsed.revoked_ids.deep_view().len() == parsed.revoked_ids@.len());
    expect(parsed.revoked_ids.len() == 1, "record should keep its one ID")
}

/// A claimant's HELLO names its domain.
pub fn test_verification_hello() -> (r: Result<()>)
    ensures
        r is Ok,
{
    let device = Ed25519KeyPair::generate();
    let domain = crate::types::IdentityDomain::new("example.com");
    let claimant = crate::claimant::Claimant::new(device, domain);
    let hello = match claimant.create_hello() {
        Ok(h) => h,
        Err(e) => return Err(e),
    };
    expect(crate::text::str_eq(hello.identity_domain.as_str(), "example.com"), "HELLO should name the domain")
}

// ------------------------------------------------------------------ suites

/// The suites of compliance checks.
#[derive(Debug, Clone, Copy, PartialEq, Eq, Structural)]
pub enum CheckSuite {
    Crypto,
    Delegation,
    Dns,
    Verification,
    EdgeCases,
    Negative,
    Compat,
}

/// The number of checks of a suite.
pub open spec fn suite_size(suite: CheckSuite) -> nat {
    match suite {
        CheckSuite::Crypto => 2,
        CheckSuite::Delegation => 2,
        CheckSuite::Dns => 2,
        CheckSuite::Verification => 1,
        CheckSuite::EdgeCases => 15,
        CheckSuite::Negative => 15,
        CheckSuite::Compat => 10,
    }
}

/// The title of a suite.
pub open spec fn suite_title(suite: CheckSuite) -> Seq<char> {
    match suite {
        CheckSuite::Crypto => "Cryptography Tests"@,
        CheckSuite::Delegation => "Delegation Tests"@,
        CheckSuite::Dns => "DNS Tests"@,
        CheckSuite::Verification => "Verification Tests"@,
        CheckSuite::EdgeCases => "Edge Case Tests"@,
        CheckSuite::Negative => "Negative Tests"@,
        CheckSuite::Compat => "Compatibility Tests"@,
    }
}

/// The name of the `i`-th check of a suite.
pub open spec fn check_name_spec(suite: CheckSuite, i: int) -> Seq<char> {
    match suite {
        CheckSuite::Crypto => if i == 0 { "Ed25519 key generation"@ } else { "Ed25519 sign/verify"@ },
        CheckSuite::Delegation => if i == 0 { "Delegation token creation"@ } else { "Token signing and verification"@ },
        CheckSuite::Dns => if i == 0 { "Identity record formatting"@ } else { "Revocation record formatting"@ },
        CheckSuite::Verification => { "HELLO message creation"@ },
        CheckSuite::EdgeCases => if i == 0 { "Delegation expires at boundary"@ } else if i == 1 { "Delegation expires just in future"@ } else if i == 2 { "Timestamp at max value"@ } else if i == 3 { "Maximum domain length"@ } else if i == 4 { "Minimum domain length"@ } else if i == 5 { "Wildcard service pattern"@ } else if i == 6 { "Maximum TXT record length"@ } else if i == 7 { "Maximum CBOR token size"@ } else if i == 8 { "Sign empty message"@ } else if i == 9 { "Sign long message (1MB)"@ } else if i == 10 { "Delegation ID uniqueness"@ } else if i == 11 { "Domain case sensitivity"@ } else if i == 12 { "Special chars in actions"@ } else if i == 13 { "Unicode domains (IDN)"@ } else { "Timestamp at epoch zero"@ },
        CheckSuite::Negative => if i == 0 { "Reject expired delegation"@ } else if i == 1 { "Reject invalid signature"@ } else if i == 2 { "Reject corrupted CBOR"@ } else if i == 3 { "Reject empty CBOR"@ } else if i == 4 { "Reject malformed TXT records"@ } else if i == 5 { "Reject wrong message"@ } else if i == 6 { "Handle self-delegation"@ } else if i == 7 { "Handle negative expiry"@ } else if i == 8 { "Handle empty delegation ID"@ } else if i == 9 { "Reject overlong domain"@ } else if i == 10 { "Handle invalid domain chars"@ } else if i == 11 { "CBOR integrity check"@ } else if i == 12 { "Handle very short expiry"@ } else if i == 13 { "Handle maximum services"@ } else { "Handle empty permissions"@ },
        CheckSuite::Compat => if i == 0 { "Token format stability"@ } else if i == 1 { "DNS format stability"@ } else if i == 2 { "Minimal token compatibility"@ } else if i == 3 { "Protocol version check"@ } else if i == 4 { "Delegation type constants"@ } else if i == 5 { "Ed25519 key format"@ } else if i == 6 { "Signature format (64 bytes)"@ } else if i == 7 { "CBOR version marker"@ } else if i == 8 { "Token longevity (1 year)"@ } else { "CBOR field order independence"@ },
    }
}

/// What the `i`-th check of a suite guarantees of its result.
pub open spec fn check_holds(suite: CheckSuite, i: int, r: Result<()>) -> bool {
    match suite {
        CheckSuite::Crypto => if i == 0 { r is Ok } else { r is Ok },
        CheckSuite::Delegation => if i == 0 { r is Ok || clock_refused(r) } else { r is Ok || clock_refused(r) },
        CheckSuite::Dns => if i == 0 { r is Ok } else { r is Ok },
        CheckSuite::Verification => { r is Ok },
        CheckSuite::EdgeCases => if i == 0 { r is Ok || build_refused(r) } else if i == 1 { r is Ok || build_refused(r) || clock_refused(r) } else if i == 2 { r is Ok || build_refused(r) || expectation_failed(r, "token should not be expired"@) } else if i == 3 { r is Ok } else if i == 4 { r is Ok } else if i == 5 { r is Ok || clock_refused(r) } else if i == 6 { r is Ok || expectation_failed(r, "TXT record should be under 500 bytes"@) } else if i == 7 { r is Err } else if i == 8 { r is Ok } else if i == 9 { r is Ok } else if i == 10 { r is Ok || expectation_failed(r, "Delegation IDs should be unique"@) } else if i == 11 { r is Ok } else if i == 12 { r is Ok || clock_refused(r) } else if i == 13 { r is Ok } else { r is Ok },
        CheckSuite::Negative => if i == 0 { r is Ok || build_refused(r) || clock_refused(r) || expectation_failed(r, "token should be expired"@) } else if i == 1 { r is Ok || clock_refused(r) || expectation_failed(r, "Tampered signature should fail verification"@) } else if i == 2 { (r is Ok <==> token_decode(seq![0xFFu8, 0xFEu8, 0xFDu8, 0xFCu8]) is Err) } else if i == 3 { (r is Ok <==> token_decode(Seq::<u8>::empty()) is Err) } else if i == 4 { (r is Ok <==> malformed_records_rejected()) } else if i == 5 { r is Ok || expectation_failed(r, "Signature should fail for wrong message"@) } else if i == 6 { r is Ok || clock_refused(r) } else if i == 7 { (r matches Err(Error::InvalidDelegation(m)) && m@ == "Expiry must be after issuance"@) } else if i == 8 { r is Ok } else if i == 9 { r is Ok } else if i == 10 { r is Ok } else if i == 11 { (r matches Err(Error::InvalidDelegation(m)) && m@ == "Expected CBOR map"@) || clock_refused(r) } else if i == 12 { r is Ok || clock_refused(r) || expectation_failed(r, "token should not be expired yet"@) } else if i == 13 { r is Ok || clock_refused(r) } else { r is Ok },
        CheckSuite::Compat => if i == 0 { (r matches Err(Error::InvalidDelegation(m)) && m@ == "Expected CBOR map"@) || clock_refused(r) } else if i == 1 { r is Ok } else if i == 2 { r is Ok || clock_refused(r) } else if i == 3 { r is Ok } else if i == 4 { r is Ok } else if i == 5 { r is Ok } else if i == 6 { r is Ok } else if i == 7 { r is Ok || clock_refused(r) || expectation_failed(r, "CBOR should not be empty"@) || expectation_failed(r, "Invalid CBOR major type"@) } else if i == 8 { r is Err } else { r is Ok || clock_refused(r) || build_refused(r) },
    }
}

/// The number of checks of a suite.
pub fn suite_check_count(suite: CheckSuite) -> (n: usize)
    ensures
        n == suite_size(suite),
{
    match suite {
        CheckSuite::Crypto => 2,
        CheckSuite::Delegation => 2,
        CheckSuite::Dns => 2,
        CheckSuite::Verification => 1,
        CheckSuite::EdgeCases => 15,
        CheckSuite::Negative => 15,
        CheckSuite::Compat => 10,
    }
}

/// The title of a suite.
pub fn suite_name(suite: CheckSuite) -> (r: &'static str)
    ensures
        r@ == suite_title(suite),
{
    match suite {
        CheckSuite::Crypto => "Cryptography Tests",
        CheckSuite::Delegation => "Delegation Tests",
        CheckSuite::Dns => "DNS Tests",
        CheckSuite::Verification => "Verification Tests",
        CheckSuite::EdgeCases => "Edge Case Tests",
        CheckSuite::Negative => "Negative Tests",
        CheckSuite::Compat => "Compatibility Tests",
    }
}

/// The name of the `i`-th check of a suite.
pub fn check_name(suite: CheckSuite, i: usize) -> (r: &'static str)
    requires
        i < suite_size(suite),
    ensures
        r@ == check_name_spec(suite, i as int),
{
    match suite {
        CheckSuite::Crypto => if i == 0 { "Ed25519 key generation" } else { "Ed25519 sign/verify" },
        CheckSuite::Delegation => if i == 0 { "Delegation token creation" } else { "Token signing and verification" },
        CheckSuite::Dns => if i == 0 { "Identity record formatting" } else { "Revocation record formatting" },
        CheckSuite::Verification => { "HELLO message creation" },
        CheckSuite::EdgeCases => if i == 0 { "Delegation expires at boundary" } else if i == 1 { "Delegation expires just in future" } else if i == 2 { "Timestamp at max value" } else if i == 3 { "Maximum domain length" } else if i == 4 { "Minimum domain length" } else if i == 5 { "Wildcard service pattern" } else if i == 6 { "Maximum TXT record length" } else if i == 7 { "Maximum CBOR token size" } else if i == 8 { "Sign empty message" } else if i == 9 { "Sign long message (1MB)" } else if i == 10 { "Delegation ID uniqueness" } else if i == 11 { "Domain case sensitivity" } else if i == 12 { "Special chars in actions" } else if i == 13 { "Unicode domains (IDN)" } else { "Timestamp at epoch zero" },
        CheckSuite::Negative => if i == 0 { "Reject expired delegation" } else if i == 1 { "Reject invalid signature" } else if i == 2 { "Reject corrupted CBOR" } else if i == 3 { "Reject empty CBOR" } else if i == 4 { "Reject malformed TXT records" } else if i == 5 { "Reject wrong message" } else if i == 6 { "Handle self-delegation" } else if i == 7 { "Handle negative expiry" } else if i == 8 { "Handle empty delegation ID" } else if i == 9 { "Reject overlong domain" } else if i == 10 { "Handle invalid domain chars" } else if i == 11 { "CBOR integrity check" } else if i == 12 { "Handle very short expiry" } else if i == 13 { "Handle maximum services" } else { "Handle empty permissions" },
        CheckSuite::Compat => if i == 0 { "Token format stability" } else if i == 1 { "DNS format stability" } else if i == 2 { "Minimal token compatibility" } else if i == 3 { "Protocol version check" } else if i == 4 { "Delegation type constants" } else if i == 5 { "Ed25519 key format" } else if i == 6 { "Signature format (64 bytes)" } else if i == 7 { "CBOR version marker" } else if i == 8 { "Token longevity (1 year)" } else { "CBOR field order independence" },
    }
}

/// Runs the `i`-th check of a suite.
pub fn run_check(suite: CheckSuite, i: usize) -> (r: Result<()>)
    requires
        i < suite_size(suite),
    ensures
        check_holds(suite, i as int, r),
{
    match suite {
        CheckSuite::Crypto => if i == 0 { test_ed25519_keygen() } else { test_ed25519_sign_verify() },
        CheckSuite::Delegation => if i == 0 { test_delegation_creation() } else { test_delegation_sign_verify() },
        CheckSuite::Dns => if i == 0 { test_dns_identity_record() } else { test_dns_revocation_record() },
        CheckSuite::Verification => { test_verification_hello() },
        CheckSuite::EdgeCases => if i == 0 { test_delegation_expires_at_boundary() } else if i == 1 { test_delegation_expires_just_future() } else if i == 2 { test_timestamp_max_value() } else if i == 3 { test_max_domain_length() } else if i == 4 { test_min_domain_length() } else if i == 5 { test_wildcard_service_pattern() } else if i == 6 { test_max_txt_record_length() } else if i == 7 { test_max_cbor_token_size() } else if i == 8 { test_sign_empty_message() } else if i == 9 { test_sign_long_message() } else if i == 10 { test_delegation_id_uniqueness() } else if i == 11 { test_domain_case_sensitivity() } else if i == 12 { test_special_chars_in_actions() } else if i == 13 { test_unicode_domains() } else { test_timestamp_epoch_zero() },
        CheckSuite::Negative => if i == 0 { test_reject_expired_delegation() } else if i == 1 { test_reject_invalid_signature() } else if i == 2 { test_reject_corrupted_cbor() } else if i == 3 { test_reject_empty_cbor() } else if i == 4 { test_reject_malformed_txt_record() } else if i == 5 { test_reject_wrong_message() } else if i == 6 { test_self_delegation() } else if i == 7 { test_negative_expiry() } else if i == 8 { test_empty_delegation_id() } else if i == 9 { test_reject_overlong_domain() } else if i == 10 { test_invalid_domain_chars() } else if i == 11 { test_cbor_integrity() } else if i == 12 { test_very_short_expiry() } else if i == 13 { test_max_services() } else { test_empty_permissions() },
        CheckSuite::Compat => if i == 0 { test_token_format_stability() } else if i == 1 { test_dns_format_stability() } else if i == 2 { test_minimal_token_compat() } else if i == 3 { test_protocol_version() } else if i == 4 { test_delegation_type_constants() } else if i == 5 { test_key_format_compat() } else if i == 6 { test_signature_format_compat() } else if i == 7 { test_cbor_version_marker() } else if i == 8 { test_token_longevity() } else { test_cbor_field_order_independence() },
    }
}

// ------------------------------------------------------------------ report

/// Whether a check passed.
#[derive(Debug, Clone, Copy, PartialEq, Eq, Structural)]
pub enum TestStatus {
    Pass,
    Fail,
}

/// The result of one check in a report.
#[derive(Debug, Clone)]
pub struct TestResult {
    pub name: String,
    pub status: TestStatus,
    /// How long it took, as text.
    pub duration: String,
    /// The error's message where it failed.
    pub error: Option<String>,
}

impl TestResult {
    /// The report entry of a check's outcome: a pass where it gave `Ok`,
    /// else a failure with the error's message.
    pub fn from_outcome(name: &str, outcome: &Result<()>, duration: String) -> (t: TestResult)
        ensures
            t.name@ == name@,
            t.duration@ == duration@,
            outcome is Ok ==> t.status == TestStatus::Pass && t.error is None,
            outcome matches Err(e) ==> t.status == TestStatus::Fail && (t.error matches Some(m) && m@
                == crate::error::error_text(*e)),
    {
        match outcome {
            Ok(_) => TestResult { name: String::from_str(name), status: TestStatus::Pass, duration, error: None },
            Err(e) => TestResult {
                name: String::from_str(name),
                status: TestStatus::Fail,
                duration,
                error: Some(e.to_string()),
            },
        }
    }
}

/// The number of passes among results.
pub open spec fn passes(ts: Seq<TestResult>) -> nat
    decreases ts.len(),
{
    if ts.len() == 0 {
        0
    } else {
        passes(ts.drop_last()) + if ts.last().status == TestStatus::Pass {
            1nat
        } else {
            0nat
        }
    }
}

proof fn lemma_passes_bound(ts: Seq<TestResult>)
    ensures
        passes(ts) <= ts.len(),
    decreases ts.len(),
{
    if ts.len() > 0 {
        lemma_passes_bound(ts.drop_last());
    }
}

/// A suite of check results in a report, with its counts.
#[derive(Debug, Clone)]
pub struct TestSuite {
    pub name: String,
    pub total: usize,
    pub passed: usize,
    pub failed: usize,
    pub tests: Vec<TestResult>,
}

impl TestSuite {
    /// The suite of the given results: its counts are those of the results.
    pub fn from_results(name: &str, tests: Vec<TestResult>) -> (s: TestSuite)
        ensures
            s.name@ == name@,
            s.tests@ == tests@,
            s.total == tests@.len(),
            s.passed == passes(tests@),
            s.failed == s.total - s.passed,
    {
        let mut passed: usize = 0;
        let mut i: usize = 0;
        while i < tests.len()
            invariant
                i <= tests@.len(),
                passed == passes(tests@.subrange(0, i as int)),
                passed <= i,
            decreases tests@.len() - i,
        {
            proof {
                assert(tests@.subrange(0, i + 1).drop_last() =~= tests@.subrange(0, i as int));
            }
            if tests[i].status == TestStatus::Pass {
                passed = passed + 1;
            }
            i = i + 1;
        }
        assert(tests@.subrange(0, tests@.len() as int) =~= tests@);
        let total = tests.len();
        TestSuite { name: String::from_str(name), total, passed, failed: total - passed, tests }
    }
}

} // verus!
