//! Golden test vectors for cross-implementation validation: deterministic
//! keys from known seeds, signatures, encodings, DNS records and protocol
//! messages. Binary data is lowercase hex, base64url has no padding.

use vstd::prelude::*;
use crate::bytes::to_vec;
use crate::ed25519::{ed25519_public, ed25519_signature, Ed25519KeyPair};
use crate::cbor::{cbor_encoding, cbor_size, items_size, CborTerm};
use crate::encoding::{base64url_encode, base64url_of, hex_encode, hex_lower, is_b64url_char};
use crate::records::{
    clean_id, identity_fields, identity_parse, identity_record_roundtrip, revocation_fields,
    revocation_parse, revocation_record_roundtrip, IdentityView, RevocationView,
};
use crate::txt::{
    clean_key, clean_value, entries_text, entry_text, lemma_decimal_clean, lemma_entries_roundtrip,
    lemma_field_get_absent, Field,
};
use crate::token::{cose_term, token_term, DelegationToken, TokenView};
use crate::text::{decimal, join_with, u64_to_decimal};
use crate::types::{uuid_text, DelegationId};

verus! {

broadcast use vstd::array::group_array_axioms;

/// 32 bytes, each `b`: the known seeds of the vectors.
pub open spec fn filled(b: u8) -> Seq<u8> {
    Seq::new(32, |_i: int| b)
}

/// The bytes of ASCII text.
pub open spec fn ascii_bytes(s: Seq<char>) -> Seq<u8> {
    s.map_values(|c: char| c as u8)
}

/// The 32 sample bytes of the third base64url vector.
pub open spec fn sample_bytes() -> Seq<u8> {
    seq![
        0x12u8, 0x34u8, 0x56u8, 0x78u8, 0x9au8, 0xbcu8, 0xdeu8, 0xf0u8, 0x11u8, 0x22u8, 0x33u8,
        0x44u8, 0x55u8, 0x66u8, 0x77u8, 0x88u8, 0x99u8, 0xaau8, 0xbbu8, 0xccu8, 0xddu8, 0xeeu8,
        0xffu8, 0x00u8, 0xa1u8, 0xb2u8, 0xc3u8, 0xd4u8, 0xe5u8, 0xf6u8, 0x07u8, 0x18u8,
    ]
}

/// Ed25519 signature test case.
#[derive(Debug, Clone)]
pub struct Ed25519TestCase {
    pub description: String,
    /// Hex seed.
    pub seed: String,
    /// Hex secret key.
    pub private_key: String,
    /// Hex public key (32 bytes).
    pub public_key: String,
    /// Hex message.
    pub message: String,
    /// Hex signature (64 bytes).
    pub signature: String,
    pub should_verify: bool,
}

/// X25519 key agreement test case.
#[derive(Debug, Clone)]
pub struct X25519TestCase {
    pub description: String,
    pub alice_private: String,
    pub alice_public: String,
    pub bob_private: String,
    pub bob_public: String,
    pub shared_secret: String,
}

/// AEAD encryption test case.
#[derive(Debug, Clone)]
pub struct AeadTestCase {
    pub description: String,
    pub key: String,
    pub nonce: String,
    pub plaintext: String,
    pub aad: String,
    pub ciphertext: String,
}

/// HKDF key derivation test case.
#[derive(Debug, Clone)]
pub struct HkdfTestCase {
    pub description: String,
    pub ikm: String,
    pub salt: String,
    pub info: String,
    pub length: usize,
    pub okm: String,
}

/// Base64url encoding test case.
#[derive(Debug, Clone)]
pub struct Base64UrlTestCase {
    pub description: String,
    /// Hex input.
    pub input: String,
    /// Base64url output, without padding.
    pub output: String,
}

/// Cryptographic primitive test vectors.
#[derive(Debug, Clone)]
pub struct CryptoVectors {
    pub ed25519: Vec<Ed25519TestCase>,
    pub x25519: Vec<X25519TestCase>,
    pub chacha20_poly1305: Vec<AeadTestCase>,
    pub hkdf: Vec<HkdfTestCase>,
    pub base64url: Vec<Base64UrlTestCase>,
}

/// The Ed25519 case with a description, a seed of 32 bytes and a message:
/// the key and the signature are those the seed gives.
pub open spec fn ed25519_case_is(c: Ed25519TestCase, description: Seq<char>, seed: Seq<u8>, message: Seq<u8>) -> bool {
    &&& c.description@ == description
    &&& c.seed@ == hex_lower(seed)
    &&& c.private_key@ == hex_lower(seed)
    &&& c.public_key@ == hex_lower(ed25519_public(seed))
    &&& c.message@ == hex_lower(message)
    &&& c.signature@ == hex_lower(ed25519_signature(seed, message))
    &&& c.should_verify
}

/// The base64url case with a description and input bytes.
pub open spec fn base64url_case_is(c: Base64UrlTestCase, description: Seq<char>, input: Seq<u8>) -> bool {
    &&& c.description@ == description
    &&& c.input@ == hex_lower(input)
    &&& c.output@ == base64url_of(input)
}

/// The cryptographic vectors: two Ed25519 cases (seeds 42 and 7), three
/// base64url cases (empty, "hello", the sample bytes), nothing else.
pub open spec fn crypto_vectors_are(v: CryptoVectors) -> bool {
    &&& v.ed25519@.len() == 2
    &&& ed25519_case_is(
        v.ed25519@[0],
        "Ed25519 signature with known seed"@,
        filled(42),
        ascii_bytes("Hello, Loc'd Protocol!"@),
    )
    &&& ed25519_case_is(
        v.ed25519@[1],
        "Ed25519 signature with different seed"@,
        filled(7),
        ascii_bytes("Test message"@),
    )
    &&& v.x25519@.len() == 0
    &&& v.chacha20_poly1305@.len() == 0
    &&& v.hkdf@.len() == 0
    &&& v.base64url@.len() == 3
    &&& base64url_case_is(v.base64url@[0], "Empty string"@, Seq::empty())
    &&& base64url_case_is(v.base64url@[1], "Simple ASCII"@, ascii_bytes("hello"@))
    &&& base64url_case_is(v.base64url@[2], "32 random bytes"@, sample_bytes())
}

/// The bytes of ASCII text.
fn ascii_vec(s: &str) -> (v: Vec<u8>)
    requires
        s.is_ascii(),
    ensures
        v@ == ascii_bytes(s@),
{
    proof {
        vstd::string::is_ascii_spec_bytes(s);
    }
    let v = to_vec(s.as_bytes());
    assert(v@ =~= ascii_bytes(s@));
    v
}

/// 32 bytes, each `b`.
fn filled_array(b: u8) -> (a: [u8; 32])
    ensures
        a@ == filled(b),
{
    let a: [u8; 32] = [b; 32];
    assert(a@ =~= filled(b));
    a
}

/// The Ed25519 key pair of a known seed.
pub fn keypair_from_seed(seed: [u8; 32]) -> (kp: Ed25519KeyPair)
    ensures
        kp@ == seed@,
{
    Ed25519KeyPair::from_secret_bytes(vstd::array::array_as_slice(&seed)).unwrap()
}

/// Hex of the 32 bytes of a seed.
fn hex32(a: &[u8; 32]) -> (r: String)
    ensures
        r@ == hex_lower(a@),
{
    hex_encode(vstd::array::array_as_slice(a))
}

/// The Ed25519 case of a seed of 32 bytes `seed` and a message.
fn ed25519_case(description: &str, seed: u8, message: &[u8]) -> (c: Ed25519TestCase)
    requires
        message@.len() <= 1024,
    ensures
        ed25519_case_is(c, description@, filled(seed), message@),
{
    let s = filled_array(seed);
    let kp = keypair_from_seed(s);
    let secret = kp.secret_bytes();
    let public = kp.public_key().to_bytes();
    let sig = kp.sign(message).to_bytes();
    Ed25519TestCase {
        description: String::from_str(description),
        seed: hex32(&s),
        private_key: hex_encode(secret.as_slice()),
        public_key: hex_encode(public.as_slice()),
        message: hex_encode(message),
        signature: hex_encode(sig.as_slice()),
        should_verify: true,
    }
}

/// The base64url case of some input bytes.
fn base64url_case(description: &str, input: &[u8]) -> (c: Base64UrlTestCase)
    requires
        input@.len() <= 1024,
    ensures
        base64url_case_is(c, description@, input@),
{
    Base64UrlTestCase {
        description: String::from_str(description),
        input: hex_encode(input),
        output: base64url_encode(input),
    }
}

/// The cryptographic primitive vectors.
pub fn generate_crypto_vectors() -> (v: CryptoVectors)
    ensures
        crypto_vectors_are(v),
{
    proof {
        reveal_strlit("Hello, Loc'd Protocol!");
        reveal_strlit("Test message");
        reveal_strlit("hello");
    }
    let m1 = ascii_vec("Hello, Loc'd Protocol!");
    let m2 = ascii_vec("Test message");
    let mut ed25519: Vec<Ed25519TestCase> = Vec::new();
    ed25519.push(ed25519_case("Ed25519 signature with known seed", 42, m1.as_slice()));
    ed25519.push(ed25519_case("Ed25519 signature with different seed", 7, m2.as_slice()));
    let empty: Vec<u8> = Vec::new();
    let hello = ascii_vec("hello");
    let sample: [u8; 32] = [
        0x12, 0x34, 0x56, 0x78, 0x9a, 0xbc, 0xde, 0xf0, 0x11, 0x22, 0x33, 0x44, 0x55, 0x66, 0x77,
        0x88, 0x99, 0xaa, 0xbb, 0xcc, 0xdd, 0xee, 0xff, 0x00, 0xa1, 0xb2, 0xc3, 0xd4, 0xe5, 0xf6,
        0x07, 0x18,
    ];
    assert(sample@ =~= sample_bytes());
    assert(empty@ =~= Seq::<u8>::empty());
    let mut base64url: Vec<Base64UrlTestCase> = Vec::new();
    base64url.push(base64url_case("Empty string", empty.as_slice()));
    base64url.push(base64url_case("Simple ASCII", hello.as_slice()));
    base64url.push(base64url_case("32 random bytes", vstd::array::array_as_slice(&sample)));
    CryptoVectors {
        ed25519,
        x25519: Vec::new(),
        chacha20_poly1305: Vec::new(),
        hkdf: Vec::new(),
        base64url,
    }
}

/// Key test case.
#[derive(Debug, Clone)]
pub struct KeyTestCase {
    pub description: String,
    /// Hex seed for deterministic generation.
    pub seed: String,
    /// Hex public key (32 bytes).
    pub public_key: String,
    pub created_at: u64,
    pub expires_at: Option<u64>,
    /// At the time the vector was made.
    pub is_expired: bool,
}

/// Key hierarchy test vectors.
#[derive(Debug, Clone)]
pub struct KeyVectors {
    pub master_keys: Vec<KeyTestCase>,
    pub device_keys: Vec<KeyTestCase>,
    pub session_keys: Vec<KeyTestCase>,
}

/// The key case of a seed of 32 bytes `seed`.
pub open spec fn key_case_is(
    c: KeyTestCase,
    description: Seq<char>,
    seed: u8,
    created_at: u64,
    expires_at: Option<u64>,
    is_expired: bool,
) -> bool {
    &&& c.description@ == description
    &&& c.seed@ == hex_lower(filled(seed))
    &&& c.public_key@ == hex_lower(ed25519_public(filled(seed)))
    &&& c.created_at == created_at
    &&& c.expires_at == expires_at
    &&& c.is_expired == is_expired
}

/// Whether key vectors can be made at `now`: sixty days back and thirty
/// days ahead fit in a `u64`.
pub open spec fn key_vectors_in_range(now: u64) -> bool {
    86400 * 60 <= now && now + 86400 * 30 <= u64::MAX
}

/// The key vectors made at `now`: master keys of seeds 1 and 2 that do not
/// expire; a device key of seed 10 valid for thirty days and one of seed 11
/// that expired a day ago; a session key of seed 20 valid for an hour.
pub open spec fn key_vectors_are(v: KeyVectors, now: u64) -> bool {
    &&& v.master_keys@.len() == 2
    &&& key_case_is(v.master_keys@[0], "Master key with seed [1; 32]"@, 1, now, None, false)
    &&& key_case_is(v.master_keys@[1], "Master key with seed [2; 32]"@, 2, (now - 86400) as u64, None, false)
    &&& v.device_keys@.len() == 2
    &&& key_case_is(
        v.device_keys@[0],
        "Device key with seed [10; 32]"@,
        10,
        now,
        Some((now + 86400 * 30) as u64),
        false,
    )
    &&& key_case_is(
        v.device_keys@[1],
        "Expired device key"@,
        11,
        (now - 86400 * 60) as u64,
        Some((now - 86400) as u64),
        true,
    )
    &&& v.session_keys@.len() == 1
    &&& key_case_is(
        v.session_keys@[0],
        "Session key with seed [20; 32]"@,
        20,
        now,
        Some((now + 3600) as u64),
        false,
    )
}

/// The key case of a seed of 32 bytes `seed`.
fn key_case(description: &str, seed: u8, created_at: u64, expires_at: Option<u64>, is_expired: bool) -> (c: KeyTestCase)
    ensures
        c.description@ == description@,
        c.seed@ == hex_lower(filled(seed)),
        c.public_key@ == hex_lower(ed25519_public(filled(seed))),
        c.created_at == created_at,
        c.expires_at == expires_at,
        c.is_expired == is_expired,
{
    let s = filled_array(seed);
    let public = keypair_from_seed(s).public_key().to_bytes();
    KeyTestCase {
        description: String::from_str(description),
        seed: hex32(&s),
        public_key: hex_encode(public.as_slice()),
        created_at,
        expires_at,
        is_expired,
    }
}

/// The key hierarchy vectors made at `now`.
pub fn generate_key_vectors_at(now: u64) -> (v: KeyVectors)
    requires
        key_vectors_in_range(now),
    ensures
        key_vectors_are(v, now),
{
    let mut master_keys: Vec<KeyTestCase> = Vec::new();
    master_keys.push(key_case("Master key with seed [1; 32]", 1, now, None, false));
    master_keys.push(key_case("Master key with seed [2; 32]", 2, now - 86400, None, false));
    let mut device_keys: Vec<KeyTestCase> = Vec::new();
    device_keys.push(key_case("Device key with seed [10; 32]", 10, now, Some(now + 86400 * 30), false));
    device_keys.push(key_case("Expired device key", 11, now - 86400 * 60, Some(now - 86400), true));
    let mut session_keys: Vec<KeyTestCase> = Vec::new();
    session_keys.push(key_case("Session key with seed [20; 32]", 20, now, Some(now + 3600), false));
    KeyVectors { master_keys, device_keys, session_keys }
}

/// Delegation token test case.
#[derive(Debug, Clone)]
pub struct DelegationTestCase {
    pub description: String,
    pub master_key_seed: String,
    pub master_key_public: String,
    pub device_key_seed: String,
    pub device_key_public: String,
    /// UUID text.
    pub delegation_id: String,
    pub created_at: u64,
    pub expires_at: u64,
    pub services: Vec<String>,
    pub actions: Vec<String>,
    pub max_uses: Option<u32>,
    /// Hex of the signed token.
    pub token_cbor: String,
    /// Hex signature; left empty (the signature is inside the signed token).
    pub signature: String,
    pub should_verify: bool,
}

/// Delegation token test vectors.
#[derive(Debug, Clone)]
pub struct DelegationVectors {
    pub tokens: Vec<DelegationTestCase>,
}

/// The token of the delegation vector made at `now` with ID `id`: from the
/// master key of seed 1 to the device key of seed 10, for a day, for
/// reading "api.example.com".
pub open spec fn vector_token(now: u64, id: u128) -> TokenView {
    TokenView {
        delegator: ed25519_public(filled(1)),
        delegate: ed25519_public(filled(10)),
        issued_at: now,
        expires_at: (now + 86400) as u64,
        delegation_id: id,
        services: seq!["api.example.com"@],
        actions: seq!["read"@],
        max_uses: 0,
        attestation: None,
        can_sub_delegate: false,
    }
}

/// That token signed with the master key of seed 1.
pub open spec fn vector_signed_token(now: u64, id: u128) -> Seq<u8> {
    let payload = cbor_encoding(token_term(vector_token(now, id)));
    cbor_encoding(cose_term(payload, ed25519_signature(filled(1), payload)))
}

/// The delegation vectors made at `now` with ID `id`: one valid token.
pub open spec fn delegation_vectors_are(v: DelegationVectors, now: u64, id: u128) -> bool {
    &&& v.tokens@.len() == 1
    &&& v.tokens@[0].description@ == "Valid delegation token for api.example.com"@
    &&& v.tokens@[0].master_key_seed@ == hex_lower(filled(1))
    &&& v.tokens@[0].master_key_public@ == hex_lower(ed25519_public(filled(1)))
    &&& v.tokens@[0].device_key_seed@ == hex_lower(filled(10))
    &&& v.tokens@[0].device_key_public@ == hex_lower(ed25519_public(filled(10)))
    &&& v.tokens@[0].delegation_id@ == uuid_text(id)
    &&& v.tokens@[0].created_at == now
    &&& v.tokens@[0].expires_at == now + 86400
    &&& v.tokens@[0].services@.len() == 1
    &&& v.tokens@[0].services@[0]@ == "api.example.com"@
    &&& v.tokens@[0].actions@.len() == 1
    &&& v.tokens@[0].actions@[0]@ == "read"@
    &&& v.tokens@[0].max_uses is None
    &&& v.tokens@[0].token_cbor@ == hex_lower(vector_signed_token(now, id))
    &&& v.tokens@[0].signature@ == Seq::<char>::empty()
    &&& v.tokens@[0].should_verify
}

/// The encoding of the vectors' token is short: its CBOR size bound is at
/// most 2000 bytes.
proof fn lemma_vector_token_size(v: TokenView)
    requires
        v.delegator.len() == 32,
        v.delegate.len() == 32,
        v.services == seq!["api.example.com"@],
        v.actions == seq!["read"@],
        v.max_uses == 0,
        v.attestation is None,
    ensures
        cbor_size(token_term(v)) <= 2000,
{
    reveal_strlit("locd-delegation-v1");
    reveal_strlit("api.example.com");
    reveal_strlit("read");
    let es = crate::token::token_entries(v);
    let sv = Seq::new(1, |i: int| CborTerm::Text(v.services[i]));
    let av = Seq::new(1, |i: int| CborTerm::Text(v.actions[i]));
    assert(sv.drop_last() =~= Seq::<CborTerm>::empty());
    assert(av.drop_last() =~= Seq::<CborTerm>::empty());
    assert(items_size(Seq::<CborTerm>::empty()) == 0);
    assert(sv.last() == CborTerm::Text("api.example.com"@));
    assert(av.last() == CborTerm::Text("read"@));
    assert("api.example.com"@.len() == 15);
    assert("read"@.len() == 4);
    assert(cbor_size(sv.last()) == 69);
    assert(cbor_size(av.last()) == 25);
    assert(items_size(sv) == items_size(sv.drop_last()) + cbor_size(sv.last()));
    assert(items_size(av) == items_size(av.drop_last()) + cbor_size(av.last()));
    assert(items_size(sv) == 69);
    assert(items_size(av) == 25);
    assert(crate::token::texts_term(v.services) == CborTerm::Array(sv));
    assert(crate::token::texts_term(v.actions) == CborTerm::Array(av));
    assert(uuid_text(v.delegation_id).len() == 36);
    assert(es.len() == 9);
    assert forall|i: int| 0 <= i < es.len() implies cbor_size(#[trigger] es[i].0) + cbor_size(es[i].1)
        <= 200 by {
        if i == 6 {
            assert(es[i].1 == crate::token::texts_term(v.services));
        } else if i == 7 {
            assert(es[i].1 == crate::token::texts_term(v.actions));
        }
    }
    crate::cbor::lemma_pairs_size_bound(es, 200);
}

/// The delegation token vectors made at `now` with ID `delegation_id`.
pub fn generate_delegation_vectors_at(now: u64, delegation_id: DelegationId) -> (v: DelegationVectors)
    requires
        now + 86400 <= u64::MAX,
    ensures
        delegation_vectors_are(v, now, delegation_id@),
{
    let master_key = keypair_from_seed(filled_array(1));
    let device_key = keypair_from_seed(filled_array(10));
    let master_public = master_key.public_key().to_bytes();
    let device_public = device_key.public_key().to_bytes();
    let id_text = delegation_id.to_string();
    let ghost id = delegation_id@;
    let builder = DelegationToken::builder()
        .delegator(to_vec(master_public.as_slice()))
        .delegate(to_vec(device_public.as_slice()))
        .delegation_id(delegation_id)
        .issued_at(now)
        .expires_at(now + 86400)
        .service("api.example.com")
        .action("read");
    proof {
        assert(builder@.services =~= seq!["api.example.com"@]);
        assert(builder@.actions =~= seq!["read"@]);
    }
    let token = builder.build_at(now, delegation_id).unwrap();
    assert(token@ == vector_token(now, id));
    let signed = token.sign(&master_key).unwrap();
    proof {
        lemma_vector_token_size(token@);
    }
    let mut services: Vec<String> = Vec::new();
    services.push(String::from_str("api.example.com"));
    let mut actions: Vec<String> = Vec::new();
    actions.push(String::from_str("read"));
    let mut tokens: Vec<DelegationTestCase> = Vec::new();
    tokens.push(
        DelegationTestCase {
            description: String::from_str("Valid delegation token for api.example.com"),
            master_key_seed: hex32(&filled_array(1)),
            master_key_public: hex_encode(master_public.as_slice()),
            device_key_seed: hex32(&filled_array(10)),
            device_key_public: hex_encode(device_public.as_slice()),
            delegation_id: id_text,
            created_at: now,
            expires_at: now + 86400,
            services,
            actions,
            max_uses: None,
            token_cbor: hex_encode(signed.as_slice()),
            signature: String::new(),
            should_verify: true,
        },
    );
    DelegationVectors { tokens }
}

/// Identity record test case.
#[derive(Debug, Clone)]
pub struct IdentityRecordTestCase {
    pub description: String,
    pub domain: String,
    /// `_locd.<domain>`.
    pub dns_name: String,
    /// Base64url public key.
    pub public_key: String,
    pub timestamp: u64,
    /// The whole TXT record value.
    pub txt_record: String,
    pub should_parse: bool,
}

/// Revocation record test case.
#[derive(Debug, Clone)]
pub struct RevocationRecordTestCase {
    pub description: String,
    pub domain: String,
    /// `_locd-revoke.<domain>`.
    pub dns_name: String,
    /// UUID texts.
    pub revoked_ids: Vec<String>,
    pub timestamp: u64,
    pub txt_record: String,
    pub should_parse: bool,
}

/// Rotation record test case.
#[derive(Debug, Clone)]
pub struct RotationRecordTestCase {
    pub description: String,
    pub domain: String,
    /// `_locd-rotate.<domain>`.
    pub dns_name: String,
    pub old_key: String,
    pub new_key: String,
    pub timestamp: u64,
    pub signature: String,
    pub txt_record: String,
    pub should_parse: bool,
}

/// DNS record test vectors.
#[derive(Debug, Clone)]
pub struct DnsVectors {
    pub identity_records: Vec<IdentityRecordTestCase>,
    pub revocation_records: Vec<RevocationRecordTestCase>,
    pub rotation_records: Vec<RotationRecordTestCase>,
}

/// The base64url public key of the master key of seed 1.
pub open spec fn vector_master_b64() -> Seq<char> {
    base64url_of(ed25519_public(filled(1)))
}

/// The identity case of a domain, made at `now`.
pub open spec fn identity_case_is(
    c: IdentityRecordTestCase,
    description: Seq<char>,
    domain: Seq<char>,
    txt: Seq<char>,
    now: u64,
    should_parse: bool,
) -> bool {
    &&& c.description@ == description
    &&& c.domain@ == domain
    &&& c.dns_name@ == "_locd."@ + domain
    &&& c.public_key@ == vector_master_b64()
    &&& c.timestamp == now
    &&& c.txt_record@ == txt
    &&& c.should_parse == should_parse
}

/// The two revoked IDs of the first revocation vector.
pub open spec fn vector_revoked_ids() -> Seq<Seq<char>> {
    seq!["550e8400-e29b-41d4-a716-446655440000"@, "660e8400-e29b-41d4-a716-446655440001"@]
}

/// The revocation case of "example.com" made at `now`.
pub open spec fn revocation_case_is(
    c: RevocationRecordTestCase,
    description: Seq<char>,
    ids: Seq<Seq<char>>,
    ids_text: Seq<char>,
    now: u64,
) -> bool {
    &&& c.description@ == description
    &&& c.domain@ == "example.com"@
    &&& c.dns_name@ == "_locd-revoke.example.com"@
    &&& c.revoked_ids@.len() == ids.len()
    &&& forall|i: int| 0 <= i < ids.len() ==> (#[trigger] c.revoked_ids@[i])@ == ids[i]
    &&& c.timestamp == now
    &&& c.txt_record@ == "v=locd-revoke1; ids="@ + ids_text + "; t="@ + decimal(now as nat)
    &&& c.should_parse
}

/// The DNS vectors made at `now`: a valid identity record for
/// "example.com" and one without its version for "bad.example.com", both
/// with the master key of seed 1; revocation records with two IDs and with
/// none; no rotation record.
pub open spec fn dns_vectors_are(v: DnsVectors, now: u64) -> bool {
    let t = "; t="@ + decimal(now as nat);
    &&& v.identity_records@.len() == 2
    &&& identity_case_is(
        v.identity_records@[0],
        "Valid identity record for example.com"@,
        "example.com"@,
        "v=locd1; k=ed25519; p="@ + vector_master_b64() + t,
        now,
        true,
    )
    &&& identity_case_is(
        v.identity_records@[1],
        "Invalid format (missing version)"@,
        "bad.example.com"@,
        "k=ed25519; p="@ + vector_master_b64() + t,
        now,
        false,
    )
    &&& v.revocation_records@.len() == 2
    &&& revocation_case_is(
        v.revocation_records@[0],
        "Revocation record with 2 IDs"@,
        vector_revoked_ids(),
        vector_revoked_ids()[0] + ","@ + vector_revoked_ids()[1],
        now,
    )
    &&& revocation_case_is(
        v.revocation_records@[1],
        "Empty revocation list"@,
        Seq::empty(),
        Seq::empty(),
        now,
    )
    &&& v.rotation_records@.len() == 0
}

/// Whether every identity and revocation case of `v` parses exactly when
/// its flag says that it should.
pub open spec fn dns_flags_hold(v: DnsVectors) -> bool {
    &&& forall|i: int|
        0 <= i < v.identity_records@.len() ==> (identity_parse(
            (#[trigger] v.identity_records@[i]).txt_record@,
        ) is Ok) == v.identity_records@[i].should_parse
    &&& forall|i: int|
        0 <= i < v.revocation_records@.len() ==> (revocation_parse(
            (#[trigger] v.revocation_records@[i]).txt_record@,
        ) is Ok) == v.revocation_records@[i].should_parse
}

/// Base64url text is a field value that the record syntax carries.
proof fn lemma_b64_value(b64: Seq<char>)
    requires
        forall|i: int| 0 <= i < b64.len() ==> is_b64url_char(#[trigger] b64[i]),
    ensures
        clean_value(b64),
{
    if b64.len() > 0 {
        assert(is_b64url_char(b64[0]));
        assert(is_b64url_char(b64[b64.len() - 1]));
    }
    assert forall|i: int| 0 <= i < b64.len() implies b64[i] != ';' by {
        assert(is_b64url_char(b64[i]));
    }
}

/// The valid identity text of the vectors parses.
proof fn lemma_identity_text_parses(b64: Seq<char>, now: u64)
    requires
        forall|i: int| 0 <= i < b64.len() ==> is_b64url_char(#[trigger] b64[i]),
    ensures
        identity_parse("v=locd1; k=ed25519; p="@ + b64 + ("; t="@ + decimal(now as nat))) is Ok,
{
    lemma_b64_value(b64);
    reveal_strlit("locd1");
    reveal_strlit("ed25519");
    let v = IdentityView {
        version: "locd1"@,
        algorithm: "ed25519"@,
        public_key: b64,
        timestamp: now,
        expiry: None,
        revocation_endpoint: None,
    };
    identity_record_roundtrip(v);
    reveal_strlit("v");
    reveal_strlit("k");
    reveal_strlit("p");
    reveal_strlit("t");
    reveal_strlit("=");
    reveal_strlit("; ");
    reveal_strlit("v=locd1; k=ed25519; p=");
    reveal_strlit("; t=");
    let d = decimal(now as nat);
    let f0: Field = ("v"@, "locd1"@);
    let f1: Field = ("k"@, "ed25519"@);
    let f2: Field = ("p"@, b64);
    let f3: Field = ("t"@, d);
    let fs = identity_fields(v);
    assert(fs =~= seq![f0, f1, f2, f3]);
    assert(seq![f0, f1, f2, f3].drop_last() =~= seq![f0, f1, f2]);
    assert(seq![f0, f1, f2].drop_last() =~= seq![f0, f1]);
    assert(seq![f0, f1].drop_last() =~= seq![f0]);
    let head = "v"@ + "="@ + "locd1"@ + "; "@ + ("k"@ + "="@ + "ed25519"@) + "; "@ + ("p"@ + "="@);
    assert(head =~= "v=locd1; k=ed25519; p="@);
    assert(entries_text(seq![f0]) == entry_text(f0));
    assert(entries_text(seq![f0, f1]) == entry_text(f0) + "; "@ + entry_text(f1));
    assert(entries_text(seq![f0, f1, f2]) == entries_text(seq![f0, f1]) + "; "@ + entry_text(f2));
    assert(entries_text(fs) == entries_text(seq![f0, f1, f2]) + "; "@ + entry_text(f3));
    assert(entries_text(fs) =~= "v=locd1; k=ed25519; p="@ + b64 + ("; t="@ + d));
}

/// The identity text of the vectors without a version parses to an error.
proof fn lemma_versionless_text_fails(b64: Seq<char>, now: u64)
    requires
        forall|i: int| 0 <= i < b64.len() ==> is_b64url_char(#[trigger] b64[i]),
    ensures
        identity_parse("k=ed25519; p="@ + b64 + ("; t="@ + decimal(now as nat))) is Err,
{
    lemma_b64_value(b64);
    let d = decimal(now as nat);
    lemma_decimal_clean(now as nat);
    reveal_strlit("ed25519");
    reveal_strlit("v");
    reveal_strlit("k");
    reveal_strlit("p");
    reveal_strlit("t");
    reveal_strlit("=");
    reveal_strlit("; ");
    reveal_strlit("k=ed25519; p=");
    reveal_strlit("; t=");
    let f1: Field = ("k"@, "ed25519"@);
    let f2: Field = ("p"@, b64);
    let f3: Field = ("t"@, d);
    let fs = seq![f1, f2, f3];
    assert(fs.drop_last() =~= seq![f1, f2]);
    assert(seq![f1, f2].drop_last() =~= seq![f1]);
    let head = "k"@ + "="@ + "ed25519"@ + "; "@ + ("p"@ + "="@);
    assert(head =~= "k=ed25519; p="@);
    assert(entries_text(seq![f1]) == entry_text(f1));
    assert(entries_text(seq![f1, f2]) == entry_text(f1) + "; "@ + entry_text(f2));
    assert(entries_text(fs) == entries_text(seq![f1, f2]) + "; "@ + entry_text(f3));
    assert(entries_text(fs) =~= "k=ed25519; p="@ + b64 + ("; t="@ + d));
    assert forall|i: int| 0 <= i < fs.len() implies clean_key(#[trigger] fs[i].0) && clean_value(
        fs[i].1,
    ) by {
        if i == 0 {
            assert(fs[i] == f1);
        } else if i == 1 {
            assert(fs[i] == f2);
        } else {
            assert(fs[i] == f3);
        }
    }
    lemma_entries_roundtrip(fs);
    assert forall|a: int| 0 <= a < fs.len() implies fs[a].0 != "v"@ by {
        assert(fs[a].0[0] != 'v');
    }
    lemma_field_get_absent(fs, "v"@);
}

/// The revocation texts of the vectors parse.
proof fn lemma_revocation_texts_parse(now: u64)
    ensures
        revocation_parse(
            "v=locd-revoke1; ids="@ + (vector_revoked_ids()[0] + ","@ + vector_revoked_ids()[1])
                + "; t="@ + decimal(now as nat),
        ) is Ok,
        revocation_parse("v=locd-revoke1; ids="@ + Seq::<char>::empty() + "; t="@ + decimal(now as nat)) is Ok,
{
    reveal_strlit("550e8400-e29b-41d4-a716-446655440000");
    reveal_strlit("660e8400-e29b-41d4-a716-446655440001");
    reveal_strlit("locd-revoke1");
    let ids = vector_revoked_ids();
    assert(clean_id(ids[0]));
    assert(clean_id(ids[1]));
    reveal_strlit("v");
    reveal_strlit("ids");
    reveal_strlit("t");
    reveal_strlit("=");
    reveal_strlit("; ");
    reveal_strlit(",");
    reveal_strlit("v=locd-revoke1; ids=");
    reveal_strlit("; t=");
    let d = decimal(now as nat);
    let head = "v"@ + "="@ + "locd-revoke1"@ + "; "@ + ("ids"@ + "="@);
    assert(head =~= "v=locd-revoke1; ids="@);
    let none: Seq<Seq<char>> = Seq::empty();
    let lists = seq![ids, none];
    assert forall|k: int| 0 <= k < 2 implies {
        let l = #[trigger] lists[k];
        let j = join_with(l, ","@);
        revocation_parse("v=locd-revoke1; ids="@ + j + "; t="@ + d) is Ok
    } by {
        let l = lists[k];
        let rv = RevocationView { version: "locd-revoke1"@, revoked_ids: l, timestamp: now };
        assert forall|i: int| 0 <= i < l.len() implies clean_id(#[trigger] l[i]) by {
            assert(l[i] == ids[0] || l[i] == ids[1]);
        }
        revocation_record_roundtrip(rv);
        let j = join_with(l, ","@);
        let f0: Field = ("v"@, "locd-revoke1"@);
        let f1: Field = ("ids"@, j);
        let f2: Field = ("t"@, d);
        let fs = revocation_fields(rv);
        assert(fs =~= seq![f0, f1, f2]);
        assert(fs.drop_last() =~= seq![f0, f1]);
        assert(seq![f0, f1].drop_last() =~= seq![f0]);
        assert(entries_text(seq![f0]) == entry_text(f0));
        assert(entries_text(seq![f0, f1]) == entry_text(f0) + "; "@ + entry_text(f1));
        assert(entries_text(fs) == entries_text(seq![f0, f1]) + "; "@ + entry_text(f2));
        assert(entries_text(fs) =~= "v=locd-revoke1; ids="@ + j + "; t="@ + d);
    }
    assert(lists[0] == ids);
    assert(lists[1] == none);
    assert(join_with(ids, ","@) =~= ids[0] + ","@ + ids[1]) by {
        assert(ids.drop_last() =~= seq![ids[0]]);
        assert(join_with(seq![ids[0]], ","@) == ids[0]);
        assert(ids.last() == ids[1]);
    }
    assert(join_with(none, ","@) =~= Seq::<char>::empty());
}

/// Concatenation of four strings.
fn concat4(a: &str, b: &str, c: &str, d: &str) -> (r: String)
    ensures
        r@ == a@ + b@ + c@ + d@,
{
    let mut s = String::from_str(a);
    s.append(b);
    s.append(c);
    s.append(d);
    s
}

/// The DNS record vectors made at `now`; each record parses exactly when
/// its flag says that it should.
pub fn generate_dns_vectors_at(now: u64) -> (v: DnsVectors)
    ensures
        dns_vectors_are(v, now),
        dns_flags_hold(v),
{
    let master_key = keypair_from_seed(filled_array(1));
    let public = master_key.public_key().to_bytes();
    let b64 = base64url_encode(public.as_slice());
    let d = u64_to_decimal(now);
    let txt1 = concat4("v=locd1; k=ed25519; p=", b64.as_str(), "; t=", d.as_str());
    let txt2 = concat4("k=ed25519; p=", b64.as_str(), "; t=", d.as_str());
    assert(txt1@ =~= "v=locd1; k=ed25519; p="@ + b64@ + ("; t="@ + d@));
    assert(txt2@ =~= "k=ed25519; p="@ + b64@ + ("; t="@ + d@));
    let mut identity_records: Vec<IdentityRecordTestCase> = Vec::new();
    identity_records.push(
        IdentityRecordTestCase {
            description: String::from_str("Valid identity record for example.com"),
            domain: String::from_str("example.com"),
            dns_name: String::from_str("_locd.example.com"),
            public_key: b64.clone(),
            timestamp: now,
            txt_record: txt1,
            should_parse: true,
        },
    );
    identity_records.push(
        IdentityRecordTestCase {
            description: String::from_str("Invalid format (missing version)"),
            domain: String::from_str("bad.example.com"),
            dns_name: String::from_str("_locd.bad.example.com"),
            public_key: b64.clone(),
            timestamp: now,
            txt_record: txt2,
            should_parse: false,
        },
    );
    let mut ids: Vec<String> = Vec::new();
    ids.push(String::from_str("550e8400-e29b-41d4-a716-446655440000"));
    ids.push(String::from_str("660e8400-e29b-41d4-a716-446655440001"));
    let mut revocation_records: Vec<RevocationRecordTestCase> = Vec::new();
    revocation_records.push(
        RevocationRecordTestCase {
            description: String::from_str("Revocation record with 2 IDs"),
            domain: String::from_str("example.com"),
            dns_name: String::from_str("_locd-revoke.example.com"),
            revoked_ids: ids,
            timestamp: now,
            txt_record: concat4(
                "v=locd-revoke1; ids=",
                "550e8400-e29b-41d4-a716-446655440000,660e8400-e29b-41d4-a716-446655440001",
                "; t=",
                d.as_str(),
            ),
            should_parse: true,
        },
    );
    revocation_records.push(
        RevocationRecordTestCase {
            description: String::from_str("Empty revocation list"),
            domain: String::from_str("example.com"),
            dns_name: String::from_str("_locd-revoke.example.com"),
            revoked_ids: Vec::new(),
            timestamp: now,
            txt_record: concat4("v=locd-revoke1; ids=", "", "; t=", d.as_str()),
            should_parse: true,
        },
    );
    proof {
        reveal_strlit("_locd.example.com");
        reveal_strlit("_locd.bad.example.com");
        reveal_strlit("_locd.");
        reveal_strlit("example.com");
        reveal_strlit("bad.example.com");
        reveal_strlit("");
        reveal_strlit("550e8400-e29b-41d4-a716-446655440000,660e8400-e29b-41d4-a716-446655440001");
        reveal_strlit("550e8400-e29b-41d4-a716-446655440000");
        reveal_strlit("660e8400-e29b-41d4-a716-446655440001");
        reveal_strlit(",");
        assert("_locd.example.com"@ =~= "_locd."@ + "example.com"@);
        assert("_locd.bad.example.com"@ =~= "_locd."@ + "bad.example.com"@);
        assert("550e8400-e29b-41d4-a716-446655440000,660e8400-e29b-41d4-a716-446655440001"@
            =~= "550e8400-e29b-41d4-a716-446655440000"@ + ","@ + "660e8400-e29b-41d4-a716-446655440001"@);
        assert(""@ =~= Seq::<char>::empty());
    }
    let v = DnsVectors { identity_records, revocation_records, rotation_records: Vec::new() };
    proof {
        lemma_identity_text_parses(b64@, now);
        lemma_versionless_text_fails(b64@, now);
        lemma_revocation_texts_parse(now);
        assert(dns_vectors_are(v, now));
        assert forall|i: int| 0 <= i < v.identity_records@.len() implies (identity_parse(
            (#[trigger] v.identity_records@[i]).txt_record@,
        ) is Ok) == v.identity_records@[i].should_parse by {
            if i == 0 {
                assert(v.identity_records@[0].should_parse);
            } else {
                assert(!v.identity_records@[1].should_parse);
            }
        }
        assert forall|i: int| 0 <= i < v.revocation_records@.len() implies (revocation_parse(
            (#[trigger] v.revocation_records@[i]).txt_record@,
        ) is Ok) == v.revocation_records@[i].should_parse by {
            assert(revocation_case_is(v.revocation_records@[0], "Revocation record with 2 IDs"@, vector_revoked_ids(),
                vector_revoked_ids()[0] + ","@ + vector_revoked_ids()[1], now));
            assert(revocation_case_is(v.revocation_records@[1], "Empty revocation list"@, Seq::empty(),
                Seq::empty(), now));
        }
    }
    v
}

/// Complete verification flow test case.
#[derive(Debug, Clone)]
pub struct VerificationFlowTestCase {
    pub description: String,
    pub claimant_domain: String,
    pub claimant_device_key_seed: String,
    pub claimant_device_key_public: String,
    pub verifier_domain: String,
    pub verifier_wg_public_key: String,
    /// Hex nonce (32 bytes).
    pub challenge_nonce: String,
    pub challenge_timestamp: u64,
    /// UUID text.
    pub delegation_id: String,
    /// Hex signature (64 bytes).
    pub response_signature: String,
    /// Whether verification should succeed.
    pub expected_result: bool,
    /// Reason code name.
    pub expected_reason: String,
}

/// HELLO message test case.
#[derive(Debug, Clone)]
pub struct HelloMessageTestCase {
    pub description: String,
    pub identity_domain: String,
    pub device_public_key: String,
    pub cbor_encoded: String,
    pub should_parse: bool,
}

/// CHALLENGE message test case.
#[derive(Debug, Clone)]
pub struct ChallengeMessageTestCase {
    pub description: String,
    pub nonce: String,
    pub timestamp: u64,
    pub verifier_domain: String,
    pub cbor_encoded: String,
    pub should_parse: bool,
}

/// RESPONSE message test case.
#[derive(Debug, Clone)]
pub struct ResponseMessageTestCase {
    pub description: String,
    pub signature: String,
    pub delegation_token: String,
    pub sub_delegation_chain: Vec<String>,
    pub cbor_encoded: String,
    pub should_parse: bool,
}

/// RESULT message test case.
#[derive(Debug, Clone)]
pub struct ResultMessageTestCase {
    pub description: String,
    pub verified: bool,
    /// Reason code name.
    pub reason: String,
    pub wireguard_key: Option<String>,
    pub cbor_encoded: String,
    pub should_parse: bool,
}

/// Protocol message test vectors.
#[derive(Debug, Clone)]
pub struct MessageVectors {
    pub hello_messages: Vec<HelloMessageTestCase>,
    pub challenge_messages: Vec<ChallengeMessageTestCase>,
    pub response_messages: Vec<ResponseMessageTestCase>,
    pub result_messages: Vec<ResultMessageTestCase>,
}

/// Challenge-response protocol test vectors.
#[derive(Debug, Clone)]
pub struct VerificationVectors {
    pub flows: Vec<VerificationFlowTestCase>,
    pub messages: MessageVectors,
}

/// The verification vectors made at `now` with a nonce and the flow's
/// delegation ID: one successful flow from "alice.example.com" (device key
/// of seed 10) to "service.example.com" (WireGuard key of 32 bytes 99);
/// one HELLO, one CHALLENGE, no RESPONSE and two RESULT messages, whose
/// encodings are placeholders.
pub open spec fn verification_vectors_are(v: VerificationVectors, now: u64, nonce: Seq<u8>, flow_id: u128) -> bool {
    let f = v.flows@[0];
    let m = v.messages;
    &&& v.flows@.len() == 1
    &&& f.description@ == "Successful verification flow"@
    &&& f.claimant_domain@ == "alice.example.com"@
    &&& f.claimant_device_key_seed@ == hex_lower(filled(10))
    &&& f.claimant_device_key_public@ == hex_lower(ed25519_public(filled(10)))
    &&& f.verifier_domain@ == "service.example.com"@
    &&& f.verifier_wg_public_key@ == hex_lower(filled(99))
    &&& f.challenge_nonce@ == hex_lower(nonce)
    &&& f.challenge_timestamp == now
    &&& f.delegation_id@ == uuid_text(flow_id)
    &&& f.response_signature@ == hex_lower(Seq::new(64, |_i: int| 0u8))
    &&& f.expected_result
    &&& f.expected_reason@ == "Success"@
    &&& m.hello_messages@.len() == 1
    &&& m.hello_messages@[0].description@ == "HELLO message from alice.example.com"@
    &&& m.hello_messages@[0].identity_domain@ == "alice.example.com"@
    &&& m.hello_messages@[0].device_public_key@ == hex_lower(ed25519_public(filled(10)))
    &&& m.hello_messages@[0].cbor_encoded@ == hex_lower(seq![0xa2u8, 0x01u8])
    &&& m.hello_messages@[0].should_parse
    &&& m.challenge_messages@.len() == 1
    &&& m.challenge_messages@[0].description@ == "CHALLENGE with 32-byte nonce"@
    &&& m.challenge_messages@[0].nonce@ == hex_lower(nonce)
    &&& m.challenge_messages@[0].timestamp == now
    &&& m.challenge_messages@[0].verifier_domain@ == "service.example.com"@
    &&& m.challenge_messages@[0].cbor_encoded@ == hex_lower(seq![0xa3u8, 0x01u8])
    &&& m.challenge_messages@[0].should_parse
    &&& m.response_messages@.len() == 0
    &&& m.result_messages@.len() == 2
    &&& m.result_messages@[0].description@ == "RESULT message - verified"@
    &&& m.result_messages@[0].verified
    &&& m.result_messages@[0].reason@ == "Success"@
    &&& m.result_messages@[0].wireguard_key matches Some(k) && k@ == hex_lower(filled(99))
    &&& m.result_messages@[0].cbor_encoded@ == hex_lower(seq![0xa3u8, 0x01u8])
    &&& m.result_messages@[0].should_parse
    &&& m.result_messages@[1].description@ == "RESULT message - failed (expired)"@
    &&& !m.result_messages@[1].verified
    &&& m.result_messages@[1].reason@ == "DelegationExpired"@
    &&& m.result_messages@[1].wireguard_key is None
    &&& m.result_messages@[1].cbor_encoded@ == hex_lower(seq![0xa2u8, 0x01u8])
    &&& m.result_messages@[1].should_parse
}

/// Hex of two bytes.
fn hex2(a: u8, b: u8) -> (r: String)
    ensures
        r@ == hex_lower(seq![a, b]),
{
    let arr: [u8; 2] = [a, b];
    assert(arr@ =~= seq![a, b]);
    hex_encode(vstd::array::array_as_slice(&arr))
}

/// The verification protocol vectors made at `now` with a challenge nonce
/// and the flow's delegation ID.
pub fn generate_verification_vectors_at(now: u64, nonce: [u8; 32], flow_delegation_id: DelegationId) -> (v: VerificationVectors)
    ensures
        verification_vectors_are(v, now, nonce@, flow_delegation_id@),
{
    let device_key = keypair_from_seed(filled_array(10));
    let device_public = device_key.public_key().to_bytes();
    let zeros: [u8; 64] = [0u8; 64];
    assert(zeros@ =~= Seq::new(64, |_i: int| 0u8));
    let mut flows: Vec<VerificationFlowTestCase> = Vec::new();
    flows.push(
        VerificationFlowTestCase {
            description: String::from_str("Successful verification flow"),
            claimant_domain: String::from_str("alice.example.com"),
            claimant_device_key_seed: hex32(&filled_array(10)),
            claimant_device_key_public: hex_encode(device_public.as_slice()),
            verifier_domain: String::from_str("service.example.com"),
            verifier_wg_public_key: hex32(&filled_array(99)),
            challenge_nonce: hex32(&nonce),
            challenge_timestamp: now,
            delegation_id: flow_delegation_id.to_string(),
            response_signature: hex_encode(vstd::array::array_as_slice(&zeros)),
            expected_result: true,
            expected_reason: String::from_str("Success"),
        },
    );
    let mut hello_messages: Vec<HelloMessageTestCase> = Vec::new();
    hello_messages.push(
        HelloMessageTestCase {
            description: String::from_str("HELLO message from alice.example.com"),
            identity_domain: String::from_str("alice.example.com"),
            device_public_key: hex_encode(device_public.as_slice()),
            cbor_encoded: hex2(0xa2, 0x01),
            should_parse: true,
        },
    );
    let mut challenge_messages: Vec<ChallengeMessageTestCase> = Vec::new();
    challenge_messages.push(
        ChallengeMessageTestCase {
            description: String::from_str("CHALLENGE with 32-byte nonce"),
            nonce: hex32(&nonce),
            timestamp: now,
            verifier_domain: String::from_str("service.example.com"),
            cbor_encoded: hex2(0xa3, 0x01),
            should_parse: true,
        },
    );
    let mut result_messages: Vec<ResultMessageTestCase> = Vec::new();
    result_messages.push(
        ResultMessageTestCase {
            description: String::from_str("RESULT message - verified"),
            verified: true,
            reason: String::from_str("Success"),
            wireguard_key: Some(hex32(&filled_array(99))),
            cbor_encoded: hex2(0xa3, 0x01),
            should_parse: true,
        },
    );
    result_messages.push(
        ResultMessageTestCase {
            description: String::from_str("RESULT message - failed (expired)"),
            verified: false,
            reason: String::from_str("DelegationExpired"),
            wireguard_key: None,
            cbor_encoded: hex2(0xa2, 0x01),
            should_parse: true,
        },
    );
    VerificationVectors {
        flows,
        messages: MessageVectors {
            hello_messages,
            challenge_messages,
            response_messages: Vec::new(),
            result_messages,
        },
    }
}

/// Complete test vector suite.
#[derive(Debug, Clone)]
pub struct TestVectorSuite {
    /// Protocol version these vectors are for.
    pub version: String,
    /// Creation timestamp.
    pub created_at: u64,
    pub crypto: CryptoVectors,
    pub keys: KeyVectors,
    pub delegation: DelegationVectors,
    pub dns: DnsVectors,
    pub verification: VerificationVectors,
}

/// The suite made at `now`, with the token's delegation ID, the flow's
/// delegation ID and the challenge nonce.
pub open spec fn suite_is(s: TestVectorSuite, now: u64, token_id: u128, flow_id: u128, nonce: Seq<u8>) -> bool {
    &&& s.version@ == "0.1.0"@
    &&& s.created_at == now
    &&& crypto_vectors_are(s.crypto)
    &&& key_vectors_are(s.keys, now)
    &&& delegation_vectors_are(s.delegation, now, token_id)
    &&& dns_vectors_are(s.dns, now)
    &&& dns_flags_hold(s.dns)
    &&& verification_vectors_are(s.verification, now, nonce, flow_id)
}

/// The time at which the suite is made: 2023-11-14 22:13:20 UTC.
pub const VECTOR_TIME: u64 = 1700000000;

/// The delegation ID of the suite's token.
pub const VECTOR_TOKEN_ID: u128 = 0x550e8400_e29b_41d4_a716_446655440000;

/// The delegation ID of the suite's verification flow.
pub const VECTOR_FLOW_ID: u128 = 0x660e8400_e29b_41d4_a716_446655440001;

/// The byte that fills the suite's challenge nonce.
pub const VECTOR_NONCE_BYTE: u8 = 42;

/// The complete suite made at `now`, with the token's delegation ID, the
/// flow's delegation ID and the challenge nonce.
pub fn generate_suite_at(now: u64, token_id: DelegationId, flow_id: DelegationId, nonce: [u8; 32]) -> (s: TestVectorSuite)
    requires
        key_vectors_in_range(now),
    ensures
        suite_is(s, now, token_id@, flow_id@, nonce@),
{
    let delegation = generate_delegation_vectors_at(now, token_id);
    TestVectorSuite {
        version: String::from_str("0.1.0"),
        created_at: now,
        crypto: generate_crypto_vectors(),
        keys: generate_key_vectors_at(now),
        delegation,
        dns: generate_dns_vectors_at(now),
        verification: generate_verification_vectors_at(now, nonce, flow_id),
    }
}

/// The complete suite. All vectors are deterministic, so that other
/// implementations reproduce them bit for bit: keys come from known seeds,
/// and the suite is made at `VECTOR_TIME`, with the delegation IDs
/// `VECTOR_TOKEN_ID` and `VECTOR_FLOW_ID` and a nonce of 32 bytes
/// `VECTOR_NONCE_BYTE`.
pub fn generate_suite() -> (s: TestVectorSuite)
    ensures
        suite_is(s, VECTOR_TIME, VECTOR_TOKEN_ID, VECTOR_FLOW_ID, filled(VECTOR_NONCE_BYTE)),
{
    let nonce = filled_array(VECTOR_NONCE_BYTE);
    generate_suite_at(
        VECTOR_TIME,
        DelegationId::from_u128(VECTOR_TOKEN_ID),
        DelegationId::from_u128(VECTOR_FLOW_ID),
        nonce,
    )
}

} // verus!
