//! Protocol messages of the verification layer: HELLO, CHALLENGE, RESPONSE
//! and RESULT, each a CBOR map with integer keys and a version text under 1.

use vstd::prelude::*;
use rand::RngCore;
use crate::builder::current_timestamp;
use crate::bytes::to_vec;
use crate::cbor::{
    cbor_array, cbor_bool, cbor_bytes, cbor_decoding, cbor_encoding, cbor_entries, cbor_int,
    cbor_model, cbor_models, cbor_pair_models, cbor_read, cbor_read_item, cbor_text, cbor_uint,
    cbor_write, find_entry, find_int_key, lemma_all_pairs_writable, lemma_all_writable,
    lemma_find_entry_absent, lemma_find_entry_at, read_as, cbor_depth, serializable, CborRef, CborTerm,
};
use crate::error::{Error, Result};
use crate::text::{concat2, decimal, str_eq, u64_to_decimal};

verus! {

// ------------------------------------------------------------ reason codes

/// Reason codes of verification results.
#[derive(Debug, Clone, Copy, PartialEq, Eq, Structural)]
pub enum ReasonCode {
    /// Verification succeeded (wire name "ok").
    Success,
    DnsLookupFailed,
    DnssecInvalid,
    IdentityNotFound,
    IdentityExpired,
    DelegationInvalid,
    DelegationExpired,
    DelegationRevoked,
    ScopeViolation,
    NonceMismatch,
    TimestampSkew,
    ChainTooDeep,
    AttestationFailed,
}

/// The wire name of a reason code.
pub open spec fn reason_name(c: ReasonCode) -> Seq<char> {
    match c {
        ReasonCode::Success => "ok"@,
        ReasonCode::DnsLookupFailed => "dns_lookup_failed"@,
        ReasonCode::DnssecInvalid => "dnssec_invalid"@,
        ReasonCode::IdentityNotFound => "identity_not_found"@,
        ReasonCode::IdentityExpired => "identity_expired"@,
        ReasonCode::DelegationInvalid => "delegation_invalid"@,
        ReasonCode::DelegationExpired => "delegation_expired"@,
        ReasonCode::DelegationRevoked => "delegation_revoked"@,
        ReasonCode::ScopeViolation => "scope_violation"@,
        ReasonCode::NonceMismatch => "nonce_mismatch"@,
        ReasonCode::TimestampSkew => "timestamp_skew"@,
        ReasonCode::ChainTooDeep => "chain_too_deep"@,
        ReasonCode::AttestationFailed => "attestation_failed"@,
    }
}

/// The reason code with a wire name, if any.
pub open spec fn reason_of_name(s: Seq<char>) -> Option<ReasonCode> {
    if s == "ok"@ {
        Some(ReasonCode::Success)
    } else if s == "dns_lookup_failed"@ {
        Some(ReasonCode::DnsLookupFailed)
    } else if s == "dnssec_invalid"@ {
        Some(ReasonCode::DnssecInvalid)
    } else if s == "identity_not_found"@ {
        Some(ReasonCode::IdentityNotFound)
    } else if s == "identity_expired"@ {
        Some(ReasonCode::IdentityExpired)
    } else if s == "delegation_invalid"@ {
        Some(ReasonCode::DelegationInvalid)
    } else if s == "delegation_expired"@ {
        Some(ReasonCode::DelegationExpired)
    } else if s == "delegation_revoked"@ {
        Some(ReasonCode::DelegationRevoked)
    } else if s == "scope_violation"@ {
        Some(ReasonCode::ScopeViolation)
    } else if s == "nonce_mismatch"@ {
        Some(ReasonCode::NonceMismatch)
    } else if s == "timestamp_skew"@ {
        Some(ReasonCode::TimestampSkew)
    } else if s == "chain_too_deep"@ {
        Some(ReasonCode::ChainTooDeep)
    } else if s == "attestation_failed"@ {
        Some(ReasonCode::AttestationFailed)
    } else {
        None
    }
}

impl ReasonCode {
    /// The wire name of the code.
    pub fn as_str(&self) -> (r: &'static str)
        ensures
            r@ == reason_name(*self),
    {
        match self {
            ReasonCode::Success => "ok",
            ReasonCode::DnsLookupFailed => "dns_lookup_failed",
            ReasonCode::DnssecInvalid => "dnssec_invalid",
            ReasonCode::IdentityNotFound => "identity_not_found",
            ReasonCode::IdentityExpired => "identity_expired",
            ReasonCode::DelegationInvalid => "delegation_invalid",
            ReasonCode::DelegationExpired => "delegation_expired",
            ReasonCode::DelegationRevoked => "delegation_revoked",
            ReasonCode::ScopeViolation => "scope_violation",
            ReasonCode::NonceMismatch => "nonce_mismatch",
            ReasonCode::TimestampSkew => "timestamp_skew",
            ReasonCode::ChainTooDeep => "chain_too_deep",
            ReasonCode::AttestationFailed => "attestation_failed",
        }
    }

    /// The code with the given wire name; `Error::Custom` for an unknown name.
    pub fn from_str(s: &str) -> (r: Result<ReasonCode>)
        ensures
            match reason_of_name(s@) {
                Some(c) => r == Ok::<ReasonCode, Error>(c),
                None => r matches Err(Error::Custom(m)) && m@ == "unknown reason code: "@ + s@,
            },
    {
        if str_eq(s, "ok") {
            Ok(ReasonCode::Success)
        } else if str_eq(s, "dns_lookup_failed") {
            Ok(ReasonCode::DnsLookupFailed)
        } else if str_eq(s, "dnssec_invalid") {
            Ok(ReasonCode::DnssecInvalid)
        } else if str_eq(s, "identity_not_found") {
            Ok(ReasonCode::IdentityNotFound)
        } else if str_eq(s, "identity_expired") {
            Ok(ReasonCode::IdentityExpired)
        } else if str_eq(s, "delegation_invalid") {
            Ok(ReasonCode::DelegationInvalid)
        } else if str_eq(s, "delegation_expired") {
            Ok(ReasonCode::DelegationExpired)
        } else if str_eq(s, "delegation_revoked") {
            Ok(ReasonCode::DelegationRevoked)
        } else if str_eq(s, "scope_violation") {
            Ok(ReasonCode::ScopeViolation)
        } else if str_eq(s, "nonce_mismatch") {
            Ok(ReasonCode::NonceMismatch)
        } else if str_eq(s, "timestamp_skew") {
            Ok(ReasonCode::TimestampSkew)
        } else if str_eq(s, "chain_too_deep") {
            Ok(ReasonCode::ChainTooDeep)
        } else if str_eq(s, "attestation_failed") {
            Ok(ReasonCode::AttestationFailed)
        } else {
            Err(Error::Custom(concat2("unknown reason code: ", s)))
        }
    }
}

/// Every reason code is read back from its wire name.
pub proof fn reason_code_roundtrip(c: ReasonCode)
    ensures
        reason_of_name(reason_name(c)) == Some(c),
{
    reveal_strlit("ok");
    reveal_strlit("dns_lookup_failed");
    reveal_strlit("dnssec_invalid");
    reveal_strlit("identity_not_found");
    reveal_strlit("identity_expired");
    reveal_strlit("delegation_invalid");
    reveal_strlit("delegation_expired");
    reveal_strlit("delegation_revoked");
    reveal_strlit("scope_violation");
    reveal_strlit("nonce_mismatch");
    reveal_strlit("timestamp_skew");
    reveal_strlit("chain_too_deep");
    reveal_strlit("attestation_failed");
    assert("ok"@.len() == 2);
    assert("dns_lookup_failed"@.len() == 17);
    assert("dnssec_invalid"@.len() == 14);
    assert("identity_not_found"@.len() == 18);
    assert("identity_expired"@.len() == 16);
    assert("delegation_invalid"@.len() == 18);
    assert("delegation_expired"@.len() == 18);
    assert("delegation_revoked"@.len() == 18);
    assert("scope_violation"@.len() == 15);
    assert("nonce_mismatch"@.len() == 14);
    assert("timestamp_skew"@.len() == 14);
    assert("chain_too_deep"@.len() == 14);
    assert("attestation_failed"@.len() == 18);
    assert("dnssec_invalid"@[0] == 'd' && "nonce_mismatch"@[0] == 'n');
    assert("timestamp_skew"@[0] == 't' && "chain_too_deep"@[0] == 'c');
    assert("identity_not_found"@[0] == 'i' && "attestation_failed"@[0] == 'a');
    assert("delegation_invalid"@[0] == 'd' && "delegation_invalid"@[11] == 'i');
    assert("delegation_expired"@[0] == 'd' && "delegation_expired"@[11] == 'e');
    assert("delegation_revoked"@[0] == 'd' && "delegation_revoked"@[11] == 'r');
    match c {
        ReasonCode::Success => {},
        ReasonCode::DnsLookupFailed => {},
        ReasonCode::DnssecInvalid => {},
        ReasonCode::IdentityNotFound => {},
        ReasonCode::IdentityExpired => {},
        ReasonCode::DelegationInvalid => {},
        ReasonCode::DelegationExpired => {},
        ReasonCode::DelegationRevoked => {},
        ReasonCode::ScopeViolation => {},
        ReasonCode::NonceMismatch => {},
        ReasonCode::TimestampSkew => {},
        ReasonCode::ChainTooDeep => {},
        ReasonCode::AttestationFailed => {},
    }
}

// ------------------------------------------------------------- map fields

/// How a message's bytes are refused.
pub enum MessageFailure {
    /// `Error::Decoding` with this message.
    Decoding(Seq<char>),
    /// `Error::Custom` with this message.
    Custom(Seq<char>),
}

/// Whether the error `e` is the refusal `f`.
pub open spec fn message_failure_is(e: Error, f: MessageFailure) -> bool {
    match f {
        MessageFailure::Decoding(m) => e matches Error::Decoding(s) && s@ == m,
        MessageFailure::Custom(m) => e matches Error::Custom(s) && s@ == m,
    }
}

/// Whether `r` answers the outcome `o`.
pub open spec fn message_answers<T: View>(r: Result<T>, o: core::result::Result<T::V, MessageFailure>) -> bool {
    match o {
        Ok(v) => r matches Ok(x) && x@ == v,
        Err(f) => r matches Err(e) && message_failure_is(e, f),
    }
}

/// The text field under key `k`.
pub open spec fn field_text(es: Seq<(CborTerm, CborTerm)>, k: int) -> core::result::Result<Seq<char>, Seq<char>> {
    match find_entry(es, k) {
        Some(CborTerm::Text(s)) => Ok(s),
        _ => Err("missing or invalid text field "@ + decimal(k as nat)),
    }
}

/// The bytes field under key `k`.
pub open spec fn field_bytes(es: Seq<(CborTerm, CborTerm)>, k: int) -> core::result::Result<Seq<u8>, Seq<char>> {
    match find_entry(es, k) {
        Some(CborTerm::Bytes(b)) => Ok(b),
        _ => Err("missing or invalid bytes field "@ + decimal(k as nat)),
    }
}

/// The unsigned integer field under key `k`.
pub open spec fn field_uint(es: Seq<(CborTerm, CborTerm)>, k: int) -> core::result::Result<u64, Seq<char>> {
    match find_entry(es, k) {
        Some(CborTerm::Integer(i)) => if i < 0 {
            Err("field "@ + decimal(k as nat) + " must be non-negative"@)
        } else {
            Ok(i as u64)
        },
        _ => Err("missing or invalid uint field "@ + decimal(k as nat)),
    }
}

/// The boolean field under key `k`.
pub open spec fn field_bool(es: Seq<(CborTerm, CborTerm)>, k: int) -> core::result::Result<bool, Seq<char>> {
    match find_entry(es, k) {
        Some(CborTerm::Bool(b)) => Ok(b),
        _ => Err("missing or invalid bool field "@ + decimal(k as nat)),
    }
}

/// The entries of a message map, or the refusal of the item.
pub open spec fn message_entries(b: Seq<u8>) -> core::result::Result<Seq<(CborTerm, CborTerm)>, MessageFailure> {
    match cbor_decoding(b) {
        Err(m) => Err(MessageFailure::Decoding(m)),
        Ok(CborTerm::Entries(es)) => Ok(es),
        Ok(_) => Err(MessageFailure::Custom("expected CBOR map"@)),
    }
}

/// The check of a message's version field: the refusal, if any.
pub open spec fn version_refusal(es: Seq<(CborTerm, CborTerm)>, expected: Seq<char>) -> Option<MessageFailure> {
    match field_text(es, 1) {
        Err(m) => Some(MessageFailure::Custom(m)),
        Ok(v) => if v != expected {
            Some(MessageFailure::Custom("expected "@ + expected + ", got "@ + v))
        } else {
            None
        },
    }
}

fn field_error(prefix: &str, key: i64) -> (e: Error)
    requires
        key >= 0,
    ensures
        e matches Error::Custom(m) && m@ == prefix@ + decimal(key as nat),
{
    let d = u64_to_decimal(key as u64);
    Error::Custom(concat2(prefix, d.as_str()))
}

fn get_text_field(map: &Vec<(ciborium::Value, ciborium::Value)>, key: i64) -> (r: Result<String>)
    requires
        key >= 0,
    ensures
        match field_text(cbor_pair_models(map@), key as int) {
            Ok(s) => r matches Ok(v) && v@ == s,
            Err(m) => r matches Err(e) && message_failure_is(e, MessageFailure::Custom(m)),
        },
{
    match find_int_key(map, key) {
        Some(v) => match cbor_read_item(v) {
            CborRef::Text(s) => Ok(s.clone()),
            _ => Err(field_error("missing or invalid text field ", key)),
        },
        None => Err(field_error("missing or invalid text field ", key)),
    }
}

fn get_bytes_field(map: &Vec<(ciborium::Value, ciborium::Value)>, key: i64) -> (r: Result<Vec<u8>>)
    requires
        key >= 0,
    ensures
        match field_bytes(cbor_pair_models(map@), key as int) {
            Ok(b) => r matches Ok(v) && v@ == b,
            Err(m) => r matches Err(e) && message_failure_is(e, MessageFailure::Custom(m)),
        },
{
    match find_int_key(map, key) {
        Some(v) => match cbor_read_item(v) {
            CborRef::Bytes(b) => Ok(to_vec(b.as_slice())),
            _ => Err(field_error("missing or invalid bytes field ", key)),
        },
        None => Err(field_error("missing or invalid bytes field ", key)),
    }
}

fn get_uint_field(map: &Vec<(ciborium::Value, ciborium::Value)>, key: i64) -> (r: Result<u64>)
    requires
        key >= 0,
    ensures
        match field_uint(cbor_pair_models(map@), key as int) {
            Ok(n) => r matches Ok(v) && v == n,
            Err(m) => r matches Err(e) && message_failure_is(e, MessageFailure::Custom(m)),
        },
{
    match find_int_key(map, key) {
        Some(v) => match cbor_read_item(v) {
            CborRef::Integer(i) => {
                if i < 0 {
                    let d = u64_to_decimal(key as u64);
                    let mut s = String::from_str("field ");
                    s.append(d.as_str());
                    s.append(" must be non-negative");
                    Err(Error::Custom(s))
                } else {
                    Ok(i as u64)
                }
            },
            _ => Err(field_error("missing or invalid uint field ", key)),
        },
        None => Err(field_error("missing or invalid uint field ", key)),
    }
}

fn get_bool_field(map: &Vec<(ciborium::Value, ciborium::Value)>, key: i64) -> (r: Result<bool>)
    requires
        key >= 0,
    ensures
        match field_bool(cbor_pair_models(map@), key as int) {
            Ok(b) => r == Ok::<bool, Error>(b),
            Err(m) => r matches Err(e) && message_failure_is(e, MessageFailure::Custom(m)),
        },
{
    match find_int_key(map, key) {
        Some(v) => match cbor_read_item(v) {
            CborRef::Bool(b) => Ok(b),
            _ => Err(field_error("missing or invalid bool field ", key)),
        },
        None => Err(field_error("missing or invalid bool field ", key)),
    }
}

/// Checks the version field of a message map.
fn check_version(map: &Vec<(ciborium::Value, ciborium::Value)>, expected: &str) -> (r: Result<()>)
    ensures
        match version_refusal(cbor_pair_models(map@), expected@) {
            None => r is Ok,
            Some(f) => r matches Err(e) && message_failure_is(e, f),
        },
{
    let version = match get_text_field(map, 1) {
        Ok(v) => v,
        Err(e) => return Err(e),
    };
    if !str_eq(version.as_str(), expected) {
        let mut s = String::from_str("expected ");
        s.append(expected);
        s.append(", got ");
        s.append(version.as_str());
        return Err(Error::Custom(s));
    }
    Ok(())
}

/// Appends the entry `key => value` to a map's entries.
fn push_field(map: &mut Vec<(ciborium::Value, ciborium::Value)>, key: i64, value: ciborium::Value)
    ensures
        cbor_pair_models(final(map)@) == cbor_pair_models(old(map)@).push(
            (CborTerm::Integer(key as int), cbor_model(value)),
        ),
{
    let k = cbor_int(key);
    let ghost old_models = cbor_pair_models(map@);
    map.push((k, value));
    assert(cbor_pair_models(map@) =~= old_models.push((CborTerm::Integer(key as int), cbor_model(value))));
}

/// Writes a message map.
fn write_map(map: Vec<(ciborium::Value, ciborium::Value)>) -> (r: Result<Vec<u8>>)
    requires
        forall|i: int| 0 <= i < map@.len() ==> serializable(#[trigger] cbor_pair_models(map@)[i].0)
            && serializable(cbor_pair_models(map@)[i].1) && cbor_depth(cbor_pair_models(map@)[i].0) <= 1
            && cbor_depth(cbor_pair_models(map@)[i].1) <= 1,
    ensures
        r is Ok,
        match r {
            Ok(b) => b@ == cbor_encoding(CborTerm::Entries(cbor_pair_models(map@)))
                && cbor_decoding(b@) == read_as(CborTerm::Entries(cbor_pair_models(map@))),
            Err(e) => e is Encoding,
        },
{
    let ghost ps = cbor_pair_models(map@);
    proof {
        lemma_all_pairs_writable(ps, 1);
    }
    let value = cbor_entries(map);
    match cbor_write(&value) {
        Ok(b) => Ok(b),
        Err(m) => Err(Error::Encoding(m)),
    }
}

/// A map whose keys are 1, 2, ... in order leads key `k` to entry `k - 1`.
proof fn lemma_find_in_order(es: Seq<(CborTerm, CborTerm)>, k: int)
    requires
        forall|i: int| 0 <= i < es.len() ==> (#[trigger] es[i]).0 == CborTerm::Integer(i + 1),
    ensures
        1 <= k <= es.len() ==> find_entry(es, k) == Some(es[k - 1].1),
        !(1 <= k <= es.len()) ==> find_entry(es, k) is None,
{
    if 1 <= k <= es.len() {
        assert forall|j: int| 0 <= j < k - 1 implies es[j].0 != CborTerm::Integer(k) by {
            assert(es[j].0 == CborTerm::Integer(j + 1));
        }
        lemma_find_entry_at(es, k, k - 1);
    } else {
        assert forall|j: int| 0 <= j < es.len() implies es[j].0 != CborTerm::Integer(k) by {
            assert(es[j].0 == CborTerm::Integer(j + 1));
        }
        lemma_find_entry_absent(es, k);
    }
}

// ------------------------------------------------------------------ HELLO

/// The content of a HELLO message.
pub struct HelloView {
    pub identity_domain: Seq<char>,
    pub device_public_key: Seq<u8>,
}

/// HELLO message, claimant to verifier: `{1: "locd-hello-v1", 2: domain, 3: device key}`.
#[derive(Debug, Clone)]
pub struct HelloMessage {
    pub identity_domain: String,
    pub device_public_key: Vec<u8>,
}

impl View for HelloMessage {
    type V = HelloView;

    open spec fn view(&self) -> HelloView {
        HelloView { identity_domain: self.identity_domain@, device_public_key: self.device_public_key@ }
    }
}

/// The CBOR entries of a HELLO message.
pub open spec fn hello_entries(v: HelloView) -> Seq<(CborTerm, CborTerm)> {
    seq![
        (CborTerm::Integer(1), CborTerm::Text("locd-hello-v1"@)),
        (CborTerm::Integer(2), CborTerm::Text(v.identity_domain)),
        (CborTerm::Integer(3), CborTerm::Bytes(v.device_public_key)),
    ]
}

/// What decoding HELLO bytes gives.
pub open spec fn hello_decode(b: Seq<u8>) -> core::result::Result<HelloView, MessageFailure> {
    match message_entries(b) {
        Err(f) => Err(f),
        Ok(es) => match version_refusal(es, "locd-hello-v1"@) {
            Some(f) => Err(f),
            None => match field_text(es, 2) {
                Err(m) => Err(MessageFailure::Custom(m)),
                Ok(d) => match field_bytes(es, 3) {
                    Err(m) => Err(MessageFailure::Custom(m)),
                    Ok(k) => Ok(HelloView { identity_domain: d, device_public_key: k }),
                },
            },
        },
    }
}

/// A successful decoding of a HELLO message.
pub open spec fn hello_decoded_as(v: HelloView) -> core::result::Result<HelloView, MessageFailure> {
    Ok(v)
}

impl HelloMessage {
    /// A new HELLO message.
    pub fn new(identity_domain: String, device_public_key: Vec<u8>) -> (m: HelloMessage)
        ensures
            m@ == (HelloView { identity_domain: identity_domain@, device_public_key: device_public_key@ }),
    {
        HelloMessage { identity_domain, device_public_key }
    }

    /// Encodes the message; the bytes decode back to it.
    pub fn encode(&self) -> (r: Result<Vec<u8>>)
        ensures
            r is Ok,
            match r {
                Ok(b) => b@ == cbor_encoding(CborTerm::Entries(hello_entries(self@))) && hello_decode(b@)
                    == hello_decoded_as(self@),
                Err(e) => e is Encoding,
            },
    {
        let mut map: Vec<(ciborium::Value, ciborium::Value)> = Vec::new();
        push_field(&mut map, 1, cbor_text(String::from_str("locd-hello-v1")));
        push_field(&mut map, 2, cbor_text(self.identity_domain.clone()));
        push_field(&mut map, 3, cbor_bytes(to_vec(self.device_public_key.as_slice())));
        let ghost es = cbor_pair_models(map@);
        assert(es =~= hello_entries(self@));
        proof {
            lemma_find_in_order(es, 1);
            lemma_find_in_order(es, 2);
            lemma_find_in_order(es, 3);
        }
        write_map(map)
    }

    /// Decodes a message.
    pub fn decode(data: &[u8]) -> (r: Result<HelloMessage>)
        ensures
            message_answers(r, hello_decode(data@)),
    {
        let value = match cbor_read(data) {
            Ok(v) => v,
            Err(m) => return Err(Error::Decoding(m)),
        };
        let map = match cbor_read_item(&value) {
            CborRef::Entries(es) => es,
            _ => return Err(Error::Custom(String::from_str("expected CBOR map"))),
        };
        match check_version(map, "locd-hello-v1") {
            Ok(_) => {},
            Err(e) => return Err(e),
        }
        let identity_domain = match get_text_field(map, 2) {
            Ok(s) => s,
            Err(e) => return Err(e),
        };
        let device_public_key = match get_bytes_field(map, 3) {
            Ok(b) => b,
            Err(e) => return Err(e),
        };
        Ok(HelloMessage { identity_domain, device_public_key })
    }
}

// -------------------------------------------------------------- CHALLENGE

/// The content of a CHALLENGE message.
pub struct ChallengeView {
    pub nonce: Seq<u8>,
    pub timestamp: u64,
    pub verifier_domain: Seq<char>,
}

/// CHALLENGE message, verifier to claimant:
/// `{1: "locd-challenge-v1", 2: 32-byte nonce, 3: timestamp, 4: verifier domain}`.
#[derive(Debug, Clone)]
pub struct ChallengeMessage {
    pub nonce: Vec<u8>,
    pub timestamp: u64,
    pub verifier_domain: String,
}

impl View for ChallengeMessage {
    type V = ChallengeView;

    open spec fn view(&self) -> ChallengeView {
        ChallengeView { nonce: self.nonce@, timestamp: self.timestamp, verifier_domain: self.verifier_domain@ }
    }
}

/// The message of a wrong nonce length.
pub open spec fn nonce_length_message(n: nat) -> Seq<char> {
    "nonce must be 32 bytes, got "@ + decimal(n)
}

/// What `ChallengeMessage::new` gives.
pub open spec fn challenge_new(nonce: Seq<u8>, timestamp: u64, domain: Seq<char>) -> core::result::Result<ChallengeView, MessageFailure> {
    if nonce.len() != 32 {
        Err(MessageFailure::Custom(nonce_length_message(nonce.len())))
    } else {
        Ok(ChallengeView { nonce, timestamp, verifier_domain: domain })
    }
}

/// The CBOR entries of a CHALLENGE message.
pub open spec fn challenge_entries(v: ChallengeView) -> Seq<(CborTerm, CborTerm)> {
    seq![
        (CborTerm::Integer(1), CborTerm::Text("locd-challenge-v1"@)),
        (CborTerm::Integer(2), CborTerm::Bytes(v.nonce)),
        (CborTerm::Integer(3), CborTerm::Integer(v.timestamp as int)),
        (CborTerm::Integer(4), CborTerm::Text(v.verifier_domain)),
    ]
}

/// What decoding CHALLENGE bytes gives.
pub open spec fn challenge_decode(b: Seq<u8>) -> core::result::Result<ChallengeView, MessageFailure> {
    match message_entries(b) {
        Err(f) => Err(f),
        Ok(es) => match version_refusal(es, "locd-challenge-v1"@) {
            Some(f) => Err(f),
            None => match field_bytes(es, 2) {
                Err(m) => Err(MessageFailure::Custom(m)),
                Ok(n) => match field_uint(es, 3) {
                    Err(m) => Err(MessageFailure::Custom(m)),
                    Ok(t) => match field_text(es, 4) {
                        Err(m) => Err(MessageFailure::Custom(m)),
                        Ok(d) => challenge_new(n, t, d),
                    },
                },
            },
        },
    }
}

/// A successful decoding of a CHALLENGE message.
pub open spec fn challenge_decoded_as(v: ChallengeView) -> core::result::Result<ChallengeView, MessageFailure> {
    Ok(v)
}

/// Whether `timestamp` is within 60 seconds of `now`, either way.
pub open spec fn within_tolerance(timestamp: u64, now: u64) -> bool {
    if now > timestamp {
        now - timestamp <= 60
    } else {
        timestamp - now <= 60
    }
}

/// Calls `rand::thread_rng().fill_bytes` on 32 bytes.
/// Trusted: 32 bytes come back; they are random, so nothing more is stated.
#[verifier::external_body]
pub(crate) fn random_nonce() -> (r: Vec<u8>)
    ensures
        r@.len() == 32,
{
    let mut nonce = vec![0u8; 32];
    rand::thread_rng().fill_bytes(&mut nonce);
    nonce
}

impl ChallengeMessage {
    /// A new challenge; the nonce must have 32 bytes.
    pub fn new(nonce: Vec<u8>, timestamp: u64, verifier_domain: String) -> (r: Result<ChallengeMessage>)
        ensures
            message_answers(r, challenge_new(nonce@, timestamp, verifier_domain@)),
    {
        if nonce.len() != 32 {
            let d = u64_to_decimal(nonce.len() as u64);
            return Err(Error::Custom(concat2("nonce must be 32 bytes, got ", d.as_str())));
        }
        Ok(ChallengeMessage { nonce, timestamp, verifier_domain })
    }

    /// A new challenge with a random nonce and the current time (the clock).
    pub fn generate(verifier_domain: String) -> (r: Result<ChallengeMessage>)
        ensures
            r matches Ok(c) && c@.nonce.len() == 32 && c@.verifier_domain == verifier_domain@,
    {
        let nonce = random_nonce();
        let timestamp = current_timestamp();
        Self::new(nonce, timestamp, verifier_domain)
    }

    /// Encodes the message; with a 32-byte nonce, the bytes decode back to it.
    pub fn encode(&self) -> (r: Result<Vec<u8>>)
        ensures
            r is Ok,
            match r {
                Ok(b) => b@ == cbor_encoding(CborTerm::Entries(challenge_entries(self@))) && (self@.nonce.len()
                    == 32 ==> challenge_decode(b@) == challenge_decoded_as(self@)),
                Err(e) => e is Encoding,
            },
    {
        let mut map: Vec<(ciborium::Value, ciborium::Value)> = Vec::new();
        push_field(&mut map, 1, cbor_text(String::from_str("locd-challenge-v1")));
        push_field(&mut map, 2, cbor_bytes(to_vec(self.nonce.as_slice())));
        push_field(&mut map, 3, cbor_uint(self.timestamp));
        push_field(&mut map, 4, cbor_text(self.verifier_domain.clone()));
        let ghost es = cbor_pair_models(map@);
        assert(es =~= challenge_entries(self@));
        proof {
            lemma_find_in_order(es, 1);
            lemma_find_in_order(es, 2);
            lemma_find_in_order(es, 3);
            lemma_find_in_order(es, 4);
        }
        write_map(map)
    }

    /// Decodes a message (and checks the nonce length).
    pub fn decode(data: &[u8]) -> (r: Result<ChallengeMessage>)
        ensures
            message_answers(r, challenge_decode(data@)),
    {
        let value = match cbor_read(data) {
            Ok(v) => v,
            Err(m) => return Err(Error::Decoding(m)),
        };
        let map = match cbor_read_item(&value) {
            CborRef::Entries(es) => es,
            _ => return Err(Error::Custom(String::from_str("expected CBOR map"))),
        };
        match check_version(map, "locd-challenge-v1") {
            Ok(_) => {},
            Err(e) => return Err(e),
        }
        let nonce = match get_bytes_field(map, 2) {
            Ok(b) => b,
            Err(e) => return Err(e),
        };
        let timestamp = match get_uint_field(map, 3) {
            Ok(t) => t,
            Err(e) => return Err(e),
        };
        let verifier_domain = match get_text_field(map, 4) {
            Ok(s) => s,
            Err(e) => return Err(e),
        };
        Self::new(nonce, timestamp, verifier_domain)
    }

    /// Whether the timestamp is within 60 seconds of `now`.
    pub fn is_timestamp_valid_at(&self, now: u64) -> (r: bool)
        ensures
            r == within_tolerance(self.timestamp, now),
    {
        let diff = if now > self.timestamp {
            now - self.timestamp
        } else {
            self.timestamp - now
        };
        diff <= 60
    }

    /// Whether the timestamp is within 60 seconds of the current time (the clock).
    pub fn is_timestamp_valid(&self) -> (r: bool)
        ensures
            exists|now: u64| r == #[trigger] within_tolerance(self.timestamp, now),
    {
        self.is_timestamp_valid_at(current_timestamp())
    }
}

// --------------------------------------------------------------- RESPONSE

/// The content of a RESPONSE message.
pub struct ResponseView {
    pub signature: Seq<u8>,
    pub delegation_token: Seq<u8>,
    pub sub_delegation_chain: Seq<Seq<u8>>,
}

/// RESPONSE message, claimant to verifier: `{1: "locd-response-v1",
/// 2: signature, 3: signed delegation token, 4: [sub-delegations]}`.
#[derive(Debug, Clone)]
pub struct ResponseMessage {
    pub signature: Vec<u8>,
    pub delegation_token: Vec<u8>,
    pub sub_delegation_chain: Vec<Vec<u8>>,
}

/// The views of a list of byte strings.
pub open spec fn bytes_views(v: Seq<Vec<u8>>) -> Seq<Seq<u8>> {
    Seq::new(v.len(), |i: int| v[i]@)
}

impl View for ResponseMessage {
    type V = ResponseView;

    open spec fn view(&self) -> ResponseView {
        ResponseView {
            signature: self.signature@,
            delegation_token: self.delegation_token@,
            sub_delegation_chain: bytes_views(self.sub_delegation_chain@),
        }
    }
}

/// The CBOR entries of a RESPONSE message.
pub open spec fn response_entries(v: ResponseView) -> Seq<(CborTerm, CborTerm)> {
    seq![
        (CborTerm::Integer(1), CborTerm::Text("locd-response-v1"@)),
        (CborTerm::Integer(2), CborTerm::Bytes(v.signature)),
        (CborTerm::Integer(3), CborTerm::Bytes(v.delegation_token)),
        (CborTerm::Integer(4), CborTerm::Array(Seq::new(v.sub_delegation_chain.len(), |i: int| CborTerm::Bytes(v.sub_delegation_chain[i])))),
    ]
}

/// The byte strings of an array; `None` where an item is not one.
pub open spec fn bytes_items(items: Seq<CborTerm>) -> Option<Seq<Seq<u8>>>
    decreases items.len(),
{
    if items.len() == 0 {
        Some(Seq::empty())
    } else {
        match bytes_items(items.drop_last()) {
            None => None,
            Some(init) => match items.last() {
                CborTerm::Bytes(b) => Some(init.push(b)),
                _ => None,
            },
        }
    }
}

/// What decoding RESPONSE bytes gives.
pub open spec fn response_decode(b: Seq<u8>) -> core::result::Result<ResponseView, MessageFailure> {
    match message_entries(b) {
        Err(f) => Err(f),
        Ok(es) => match version_refusal(es, "locd-response-v1"@) {
            Some(f) => Err(f),
            None => match field_bytes(es, 2) {
                Err(m) => Err(MessageFailure::Custom(m)),
                Ok(s) => match field_bytes(es, 3) {
                    Err(m) => Err(MessageFailure::Custom(m)),
                    Ok(t) => match find_entry(es, 4) {
                        Some(CborTerm::Array(items)) => match bytes_items(items) {
                            None => Err(MessageFailure::Custom("sub-delegation chain must be array of bytes"@)),
                            Some(chain) => Ok(ResponseView { signature: s, delegation_token: t, sub_delegation_chain: chain }),
                        },
                        _ => Ok(ResponseView { signature: s, delegation_token: t, sub_delegation_chain: Seq::empty() }),
                    },
                },
            },
        },
    }
}

/// A successful decoding of a RESPONSE message.
pub open spec fn response_decoded_as(v: ResponseView) -> core::result::Result<ResponseView, MessageFailure> {
    Ok(v)
}

proof fn lemma_bytes_items_none_extends(a: Seq<CborTerm>, b: Seq<CborTerm>)
    requires
        bytes_items(a) is None,
    ensures
        bytes_items(a + b) is None,
    decreases b.len(),
{
    if b.len() > 0 {
        lemma_bytes_items_none_extends(a, b.drop_last());
        assert((a + b).drop_last() =~= a + b.drop_last());
    } else {
        assert(a + b =~= a);
    }
}

proof fn lemma_bytes_items(chain: Seq<Seq<u8>>)
    ensures
        bytes_items(Seq::new(chain.len(), |i: int| CborTerm::Bytes(chain[i]))) == Some(chain),
    decreases chain.len(),
{
    let items = Seq::new(chain.len(), |i: int| CborTerm::Bytes(chain[i]));
    if chain.len() > 0 {
        let init = chain.drop_last();
        lemma_bytes_items(init);
        assert(items.drop_last() =~= Seq::new(init.len(), |i: int| CborTerm::Bytes(init[i])));
        assert(init.push(chain.last()) =~= chain);
    } else {
        assert(chain =~= Seq::<Seq<u8>>::empty());
    }
}

impl ResponseMessage {
    /// A new RESPONSE message.
    pub fn new(signature: Vec<u8>, delegation_token: Vec<u8>, sub_delegation_chain: Vec<Vec<u8>>) -> (m: ResponseMessage)
        ensures
            m@ == (ResponseView {
                signature: signature@,
                delegation_token: delegation_token@,
                sub_delegation_chain: bytes_views(sub_delegation_chain@),
            }),
    {
        ResponseMessage { signature, delegation_token, sub_delegation_chain }
    }

    /// Encodes the message; the bytes decode back to it.
    pub fn encode(&self) -> (r: Result<Vec<u8>>)
        ensures
            r is Ok,
            match r {
                Ok(b) => b@ == cbor_encoding(CborTerm::Entries(response_entries(self@))) && response_decode(b@)
                    == response_decoded_as(self@),
                Err(e) => e is Encoding,
            },
    {
        let mut items: Vec<ciborium::Value> = Vec::new();
        let mut i: usize = 0;
        let ghost chain = self@.sub_delegation_chain;
        while i < self.sub_delegation_chain.len()
            invariant
                i <= self.sub_delegation_chain@.len(),
                chain == bytes_views(self.sub_delegation_chain@),
                items@.len() == i,
                cbor_models(items@) == Seq::new(i as nat, |k: int| CborTerm::Bytes(chain[k])),
            decreases self.sub_delegation_chain@.len() - i,
        {
            let b = cbor_bytes(to_vec(self.sub_delegation_chain[i].as_slice()));
            let ghost old_items = items@;
            items.push(b);
            proof {
                assert forall|k: int| 0 <= k < i + 1 implies cbor_models(items@)[k] == CborTerm::Bytes(chain[k]) by {
                    if k < i {
                        assert(items@[k] == old_items[k]);
                        assert(cbor_models(old_items)[k] == CborTerm::Bytes(chain[k]));
                    } else {
                        assert(items@[k] == b);
                    }
                }
            }
            assert(cbor_models(items@) =~= Seq::new((i + 1) as nat, |k: int| CborTerm::Bytes(chain[k])));
            i = i + 1;
        }
        let ghost ts = cbor_models(items@);
        proof {
            lemma_all_writable(ts, 0);
            lemma_bytes_items(chain);
        }
        let mut map: Vec<(ciborium::Value, ciborium::Value)> = Vec::new();
        push_field(&mut map, 1, cbor_text(String::from_str("locd-response-v1")));
        push_field(&mut map, 2, cbor_bytes(to_vec(self.signature.as_slice())));
        push_field(&mut map, 3, cbor_bytes(to_vec(self.delegation_token.as_slice())));
        push_field(&mut map, 4, cbor_array(items));
        let ghost es = cbor_pair_models(map@);
        assert(es =~= response_entries(self@));
        proof {
            lemma_find_in_order(es, 1);
            lemma_find_in_order(es, 2);
            lemma_find_in_order(es, 3);
            lemma_find_in_order(es, 4);
        }
        write_map(map)
    }

    /// Decodes a message.
    pub fn decode(data: &[u8]) -> (r: Result<ResponseMessage>)
        ensures
            message_answers(r, response_decode(data@)),
    {
        let value = match cbor_read(data) {
            Ok(v) => v,
            Err(m) => return Err(Error::Decoding(m)),
        };
        let map = match cbor_read_item(&value) {
            CborRef::Entries(es) => es,
            _ => return Err(Error::Custom(String::from_str("expected CBOR map"))),
        };
        match check_version(map, "locd-response-v1") {
            Ok(_) => {},
            Err(e) => return Err(e),
        }
        let signature = match get_bytes_field(map, 2) {
            Ok(b) => b,
            Err(e) => return Err(e),
        };
        let delegation_token = match get_bytes_field(map, 3) {
            Ok(b) => b,
            Err(e) => return Err(e),
        };
        let mut chain: Vec<Vec<u8>> = Vec::new();
        match find_int_key(map, 4) {
            Some(v) => match cbor_read_item(v) {
                CborRef::Array(arr) => {
                    let ghost ts = cbor_models(arr@);
                    let mut i: usize = 0;
                    assert(ts.subrange(0, 0) =~= Seq::<CborTerm>::empty());
                    assert(bytes_views(chain@) =~= Seq::<Seq<u8>>::empty());
                    assert(response_decode(data@) == match bytes_items(ts) {
                        None => Err(MessageFailure::Custom("sub-delegation chain must be array of bytes"@)),
                        Some(c) => Ok(ResponseView { signature: signature@, delegation_token: delegation_token@, sub_delegation_chain: c }),
                    });
                    while i < arr.len()
                        invariant
                            i <= arr@.len(),
                            ts == cbor_models(arr@),
                            response_decode(data@) == match bytes_items(ts) {
                                None => Err(MessageFailure::Custom("sub-delegation chain must be array of bytes"@)),
                                Some(c) => Ok(ResponseView { signature: signature@, delegation_token: delegation_token@, sub_delegation_chain: c }),
                            },
                            chain@.len() == i,
                            bytes_items(ts.subrange(0, i as int)) == Some(bytes_views(chain@)),
                        decreases arr@.len() - i,
                    {
                        let ghost pre = ts.subrange(0, i + 1);
                        assert(pre.drop_last() =~= ts.subrange(0, i as int));
                        assert(pre.last() == cbor_model(arr@[i as int]));
                        match cbor_read_item(&arr[i]) {
                            CborRef::Bytes(b) => {
                                let ghost old_chain = chain@;
                                let c = to_vec(b.as_slice());
                                chain.push(c);
                                proof {
                                    assert forall|k: int| 0 <= k < i + 1 implies bytes_views(chain@)[k]
                                        == bytes_views(old_chain).push(c@)[k] by {
                                        if k < i {
                                            assert(chain@[k] == old_chain[k]);
                                        }
                                    }
                                }
                                assert(bytes_views(chain@) =~= bytes_views(old_chain).push(c@));
                            },
                            _ => {
                                proof {
                                    assert(bytes_items(pre) is None);
                                    lemma_bytes_items_none_extends(pre, ts.subrange(i + 1, ts.len() as int));
                                    assert(pre + ts.subrange(i + 1, ts.len() as int) =~= ts);
                                }
                                return Err(Error::Custom(String::from_str("sub-delegation chain must be array of bytes")));
                            },
                        }
                        i = i + 1;
                    }
                    assert(ts.subrange(0, arr@.len() as int) =~= ts);
                },
                _ => {
                    assert(bytes_views(chain@) =~= Seq::<Seq<u8>>::empty());
                },
            },
            None => {
                assert(bytes_views(chain@) =~= Seq::<Seq<u8>>::empty());
            },
        }
        Ok(ResponseMessage { signature, delegation_token, sub_delegation_chain: chain })
    }
}

// ----------------------------------------------------------------- RESULT

/// The content of a RESULT message.
pub struct ResultView {
    pub verified: bool,
    pub reason: ReasonCode,
    pub wireguard_public_key: Option<Seq<u8>>,
}

/// RESULT message, verifier to claimant: `{1: "locd-result-v1", 2: verified,
/// 3: reason code, 4: WireGuard key (when verified)}`.
#[derive(Debug, Clone)]
pub struct ResultMessage {
    pub verified: bool,
    pub reason: ReasonCode,
    pub wireguard_public_key: Option<Vec<u8>>,
}

impl View for ResultMessage {
    type V = ResultView;

    open spec fn view(&self) -> ResultView {
        ResultView {
            verified: self.verified,
            reason: self.reason,
            wireguard_public_key: match self.wireguard_public_key {
                Some(k) => Some(k@),
                None => None,
            },
        }
    }
}

/// The CBOR entries of a RESULT message.
pub open spec fn result_entries(v: ResultView) -> Seq<(CborTerm, CborTerm)> {
    seq![
        (CborTerm::Integer(1), CborTerm::Text("locd-result-v1"@)),
        (CborTerm::Integer(2), CborTerm::Bool(v.verified)),
        (CborTerm::Integer(3), CborTerm::Text(reason_name(v.reason))),
    ] + match v.wireguard_public_key {
        Some(k) => seq![(CborTerm::Integer(4), CborTerm::Bytes(k))],
        None => Seq::empty(),
    }
}

/// What decoding RESULT bytes gives.
pub open spec fn result_decode(b: Seq<u8>) -> core::result::Result<ResultView, MessageFailure> {
    match message_entries(b) {
        Err(f) => Err(f),
        Ok(es) => match version_refusal(es, "locd-result-v1"@) {
            Some(f) => Err(f),
            None => match field_bool(es, 2) {
                Err(m) => Err(MessageFailure::Custom(m)),
                Ok(v) => match field_text(es, 3) {
                    Err(m) => Err(MessageFailure::Custom(m)),
                    Ok(s) => match reason_of_name(s) {
                        None => Err(MessageFailure::Custom("unknown reason code: "@ + s)),
                        Some(c) => Ok(ResultView {
                            verified: v,
                            reason: c,
                            wireguard_public_key: match find_entry(es, 4) {
                                Some(CborTerm::Bytes(k)) => Some(k),
                                _ => None,
                            },
                        }),
                    },
                },
            },
        },
    }
}

/// A successful decoding of a RESULT message.
pub open spec fn result_decoded_as(v: ResultView) -> core::result::Result<ResultView, MessageFailure> {
    Ok(v)
}

impl ResultMessage {
    /// A new RESULT message.
    pub fn new(verified: bool, reason: ReasonCode, wireguard_public_key: Option<Vec<u8>>) -> (m: ResultMessage)
        ensures
            m.verified == verified,
            m.reason == reason,
            m.wireguard_public_key == wireguard_public_key,
    {
        ResultMessage { verified, reason, wireguard_public_key }
    }

    /// A successful result carrying the verifier's WireGuard key.
    pub fn success(wireguard_public_key: Vec<u8>) -> (m: ResultMessage)
        ensures
            m@ == (ResultView { verified: true, reason: ReasonCode::Success, wireguard_public_key: Some(wireguard_public_key@) }),
    {
        ResultMessage { verified: true, reason: ReasonCode::Success, wireguard_public_key: Some(wireguard_public_key) }
    }

    /// A failed result with its reason.
    pub fn failure(reason: ReasonCode) -> (m: ResultMessage)
        ensures
            m@ == (ResultView { verified: false, reason, wireguard_public_key: None }),
    {
        ResultMessage { verified: false, reason, wireguard_public_key: None }
    }

    /// Encodes the message; the bytes decode back to it.
    pub fn encode(&self) -> (r: Result<Vec<u8>>)
        ensures
            r is Ok,
            match r {
                Ok(b) => b@ == cbor_encoding(CborTerm::Entries(result_entries(self@))) && result_decode(b@)
                    == result_decoded_as(self@),
                Err(e) => e is Encoding,
            },
    {
        let mut map: Vec<(ciborium::Value, ciborium::Value)> = Vec::new();
        push_field(&mut map, 1, cbor_text(String::from_str("locd-result-v1")));
        push_field(&mut map, 2, cbor_bool(self.verified));
        push_field(&mut map, 3, cbor_text(String::from_str(self.reason.as_str())));
        match &self.wireguard_public_key {
            Some(k) => {
                push_field(&mut map, 4, cbor_bytes(to_vec(k.as_slice())));
            },
            None => {},
        }
        let ghost es = cbor_pair_models(map@);
        assert(es =~= result_entries(self@));
        proof {
            lemma_find_in_order(es, 1);
            lemma_find_in_order(es, 2);
            lemma_find_in_order(es, 3);
            lemma_find_in_order(es, 4);
            reason_code_roundtrip(self.reason);
        }
        write_map(map)
    }

    /// Decodes a message.
    pub fn decode(data: &[u8]) -> (r: Result<ResultMessage>)
        ensures
            message_answers(r, result_decode(data@)),
    {
        let value = match cbor_read(data) {
            Ok(v) => v,
            Err(m) => return Err(Error::Decoding(m)),
        };
        let map = match cbor_read_item(&value) {
            CborRef::Entries(es) => es,
            _ => return Err(Error::Custom(String::from_str("expected CBOR map"))),
        };
        match check_version(map, "locd-result-v1") {
            Ok(_) => {},
            Err(e) => return Err(e),
        }
        let verified = match get_bool_field(map, 2) {
            Ok(b) => b,
            Err(e) => return Err(e),
        };
        let reason_str = match get_text_field(map, 3) {
            Ok(s) => s,
            Err(e) => return Err(e),
        };
        let reason = match ReasonCode::from_str(reason_str.as_str()) {
            Ok(c) => c,
            Err(e) => return Err(e),
        };
        let wireguard_public_key = match find_int_key(map, 4) {
            Some(v) => match cbor_read_item(v) {
                CborRef::Bytes(b) => Some(to_vec(b.as_slice())),
                _ => None,
            },
            None => None,
        };
        Ok(ResultMessage { verified, reason, wireguard_public_key })
    }
}

/// Every message carries its version in field 1 and is read only with its
/// own: a HELLO decodes only from a map whose field 1 is the text
/// "locd-hello-v1", a CHALLENGE only with "locd-challenge-v1", a RESPONSE
/// only with "locd-response-v1", a RESULT only with "locd-result-v1". A map
/// with another version text is refused with "expected <version>, got
/// <text>"; one without a text in field 1 as missing that field; bytes that
/// are no map are refused.
pub proof fn message_version_law(b: Seq<u8>)
    ensures
        hello_decode(b) is Ok ==> (cbor_decoding(b) matches Ok(CborTerm::Entries(es)) && find_entry(es, 1) == Some(
            CborTerm::Text("locd-hello-v1"@),
        )),
        match cbor_decoding(b) {
            Ok(CborTerm::Entries(es)) => match find_entry(es, 1) {
                Some(CborTerm::Text(v)) => v != "locd-hello-v1"@ ==> hello_decode(b) == Err::<HelloView, MessageFailure>(
                    MessageFailure::Custom("expected locd-hello-v1, got "@ + v),
                ),
                _ => hello_decode(b) == Err::<HelloView, MessageFailure>(
                    MessageFailure::Custom("missing or invalid text field "@ + decimal(1)),
                ),
            },
            _ => hello_decode(b) is Err,
        },
        challenge_decode(b) is Ok ==> (cbor_decoding(b) matches Ok(CborTerm::Entries(es)) && find_entry(es, 1) == Some(
            CborTerm::Text("locd-challenge-v1"@),
        )),
        match cbor_decoding(b) {
            Ok(CborTerm::Entries(es)) => match find_entry(es, 1) {
                Some(CborTerm::Text(v)) => v != "locd-challenge-v1"@ ==> challenge_decode(b) == Err::<ChallengeView, MessageFailure>(
                    MessageFailure::Custom("expected locd-challenge-v1, got "@ + v),
                ),
                _ => challenge_decode(b) == Err::<ChallengeView, MessageFailure>(
                    MessageFailure::Custom("missing or invalid text field "@ + decimal(1)),
                ),
            },
            _ => challenge_decode(b) is Err,
        },
        response_decode(b) is Ok ==> (cbor_decoding(b) matches Ok(CborTerm::Entries(es)) && find_entry(es, 1) == Some(
            CborTerm::Text("locd-response-v1"@),
        )),
        match cbor_decoding(b) {
            Ok(CborTerm::Entries(es)) => match find_entry(es, 1) {
                Some(CborTerm::Text(v)) => v != "locd-response-v1"@ ==> response_decode(b) == Err::<ResponseView, MessageFailure>(
                    MessageFailure::Custom("expected locd-response-v1, got "@ + v),
                ),
                _ => response_decode(b) == Err::<ResponseView, MessageFailure>(
                    MessageFailure::Custom("missing or invalid text field "@ + decimal(1)),
                ),
            },
            _ => response_decode(b) is Err,
        },
        result_decode(b) is Ok ==> (cbor_decoding(b) matches Ok(CborTerm::Entries(es)) && find_entry(es, 1) == Some(
            CborTerm::Text("locd-result-v1"@),
        )),
        match cbor_decoding(b) {
            Ok(CborTerm::Entries(es)) => match find_entry(es, 1) {
                Some(CborTerm::Text(v)) => v != "locd-result-v1"@ ==> result_decode(b) == Err::<ResultView, MessageFailure>(
                    MessageFailure::Custom("expected locd-result-v1, got "@ + v),
                ),
                _ => result_decode(b) == Err::<ResultView, MessageFailure>(
                    MessageFailure::Custom("missing or invalid text field "@ + decimal(1)),
                ),
            },
            _ => result_decode(b) is Err,
        },
{
    reveal_strlit("expected ");
    reveal_strlit(", got ");
    reveal_strlit("locd-hello-v1");
    reveal_strlit("expected locd-hello-v1, got ");
    assert("expected locd-hello-v1, got "@ =~= "expected "@ + "locd-hello-v1"@ + ", got "@);
    reveal_strlit("locd-challenge-v1");
    reveal_strlit("expected locd-challenge-v1, got ");
    assert("expected locd-challenge-v1, got "@ =~= "expected "@ + "locd-challenge-v1"@ + ", got "@);
    reveal_strlit("locd-response-v1");
    reveal_strlit("expected locd-response-v1, got ");
    assert("expected locd-response-v1, got "@ =~= "expected "@ + "locd-response-v1"@ + ", got "@);
    reveal_strlit("locd-result-v1");
    reveal_strlit("expected locd-result-v1, got ");
    assert("expected locd-result-v1, got "@ =~= "expected "@ + "locd-result-v1"@ + ", got "@);
}

} // verus!
