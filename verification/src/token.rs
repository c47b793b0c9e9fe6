//! Delegation tokens: the CBOR map that grants a device key scoped authority
//! on behalf of a master key, and its signed (COSE Sign1-shaped) form.

use vstd::prelude::*;
use crate::bytes::to_vec;
use crate::cbor::{
    cbor_array, cbor_bool, cbor_bytes, cbor_decoding, cbor_encoding, cbor_entries, cbor_int,
    cbor_model, cbor_models, cbor_pair_models, cbor_read, cbor_read_item, cbor_text, cbor_uint,
    cbor_write, find_entry, find_int_key, lemma_all_pairs_writable, lemma_all_writable,
    cbor_depth, cbor_size, items_size, read_as, serializable, writable, CborRef, CborTerm,
};
use crate::constants::{
    CBOR_KEY_ACTIONS, CBOR_KEY_ATTESTATION, CBOR_KEY_CAN_SUB_DELEGATE, CBOR_KEY_DELEGATE,
    CBOR_KEY_DELEGATION_ID, CBOR_KEY_DELEGATOR, CBOR_KEY_EXPIRES_AT, CBOR_KEY_ISSUED_AT,
    CBOR_KEY_MAX_USES, CBOR_KEY_SERVICES, CBOR_KEY_TYPE, DELEGATION_TYPE,
};
use crate::ed25519::{
    ed25519_public, ed25519_signature, ed25519_verify_outcome, Ed25519KeyPair,
    Ed25519PublicKey,
};
use crate::error::{Error, Result};
use crate::text::{concat2, decimal, u64_to_decimal};
use crate::types::{uuid_parse_outcome, uuid_parsed_as, uuid_text, ActionPattern, DelegationId, ServicePattern};

verus! {

/// The content of a delegation token.
pub struct TokenView {
    pub delegator: Seq<u8>,
    pub delegate: Seq<u8>,
    pub issued_at: u64,
    pub expires_at: u64,
    pub delegation_id: u128,
    pub services: Seq<Seq<char>>,
    pub actions: Seq<Seq<char>>,
    pub max_uses: u64,
    pub attestation: Option<Seq<u8>>,
    pub can_sub_delegate: bool,
}

/// Delegation token: grants a device key scoped authority to act on behalf
/// of a master key.
#[derive(Debug, Clone)]
pub struct DelegationToken {
    /// Delegator's master public key (32 bytes).
    pub delegator: Vec<u8>,
    /// Delegate's device public key (32 bytes).
    pub delegate: Vec<u8>,
    /// Issued-at timestamp (Unix time).
    pub issued_at: u64,
    /// Expires-at timestamp (Unix time).
    pub expires_at: u64,
    /// Delegation ID (UUID).
    pub delegation_id: DelegationId,
    /// Permitted services (domain patterns); none means all.
    pub services: Vec<ServicePattern>,
    /// Permitted actions; none means all.
    pub actions: Vec<ActionPattern>,
    /// Maximum number of uses (0 = unlimited).
    pub max_uses: u64,
    /// Device attestation (optional TPM quote).
    pub attestation: Option<Vec<u8>>,
    /// Whether sub-delegations may be made.
    pub can_sub_delegate: bool,
}

/// The view of optional bytes.
pub open spec fn opt_bytes(o: Option<Vec<u8>>) -> Option<Seq<u8>> {
    match o {
        Some(v) => Some(v@),
        None => None,
    }
}

impl View for DelegationToken {
    type V = TokenView;

    open spec fn view(&self) -> TokenView {
        TokenView {
            delegator: self.delegator@,
            delegate: self.delegate@,
            issued_at: self.issued_at,
            expires_at: self.expires_at,
            delegation_id: self.delegation_id@,
            services: self.services.deep_view(),
            actions: self.actions.deep_view(),
            max_uses: self.max_uses,
            attestation: opt_bytes(self.attestation),
            can_sub_delegate: self.can_sub_delegate,
        }
    }
}

// ------------------------------------------------------------ the CBOR map

/// A map entry with an integer key.
pub open spec fn key_entry(k: int, t: CborTerm) -> (CborTerm, CborTerm) {
    (CborTerm::Integer(k), t)
}

/// An array of text strings.
pub open spec fn texts_term(ts: Seq<Seq<char>>) -> CborTerm {
    CborTerm::Array(Seq::new(ts.len(), |i: int| CborTerm::Text(ts[i])))
}

/// The entries of a token's CBOR map, in the order they are written:
/// the type, the keys, the times and the ID always; the services and the
/// actions where there are some, the maximum uses where it is not 0, the
/// attestation where there is one; the sub-delegation flag last.
pub open spec fn token_entries(v: TokenView) -> Seq<(CborTerm, CborTerm)> {
    seq![
        key_entry(1, CborTerm::Text("locd-delegation-v1"@)),
        key_entry(2, CborTerm::Bytes(v.delegator)),
        key_entry(3, CborTerm::Bytes(v.delegate)),
        key_entry(4, CborTerm::Integer(v.issued_at as int)),
        key_entry(5, CborTerm::Integer(v.expires_at as int)),
        key_entry(6, CborTerm::Text(uuid_text(v.delegation_id))),
    ] + (if v.services.len() > 0 {
        seq![key_entry(7, texts_term(v.services))]
    } else {
        Seq::empty()
    }) + (if v.actions.len() > 0 {
        seq![key_entry(8, texts_term(v.actions))]
    } else {
        Seq::empty()
    }) + (if v.max_uses > 0 {
        seq![key_entry(9, CborTerm::Integer(v.max_uses as int))]
    } else {
        Seq::empty()
    }) + (match v.attestation {
        Some(a) => seq![key_entry(10, CborTerm::Bytes(a))],
        None => Seq::empty(),
    }) + seq![key_entry(11, CborTerm::Bool(v.can_sub_delegate))]
}

/// The CBOR item of a token.
pub open spec fn token_term(v: TokenView) -> CborTerm {
    CborTerm::Entries(token_entries(v))
}

/// How a token's bytes are refused.
pub enum TokenFailure {
    /// `Error::Decoding` with this message.
    Decoding(Seq<char>),
    /// `Error::InvalidDelegation` with this message.
    Invalid(Seq<char>),
}

/// Whether the error `e` is the refusal `f`.
pub open spec fn token_failure_is(e: Error, f: TokenFailure) -> bool {
    match f {
        TokenFailure::Decoding(m) => e matches Error::Decoding(s) && s@ == m,
        TokenFailure::Invalid(m) => e matches Error::InvalidDelegation(s) && s@ == m,
    }
}

/// Whether `r` answers the outcome `o`.
pub open spec fn token_answers(r: Result<DelegationToken>, o: core::result::Result<TokenView, TokenFailure>) -> bool {
    match o {
        Ok(v) => r matches Ok(t) && t@ == v,
        Err(f) => r matches Err(e) && token_failure_is(e, f),
    }
}

/// A successful decoding of the token `v`.
pub open spec fn token_decoded_as(v: TokenView) -> core::result::Result<TokenView, TokenFailure> {
    Ok(v)
}

/// The text strings of an array, in order; other items are skipped.
pub open spec fn texts_in(items: Seq<CborTerm>) -> Seq<Seq<char>>
    decreases items.len(),
{
    if items.len() == 0 {
        Seq::empty()
    } else {
        let init = texts_in(items.drop_last());
        match items.last() {
            CborTerm::Text(s) => init.push(s),
            _ => init,
        }
    }
}

/// The message for a missing or mistyped entry.
pub open spec fn missing_key(k: int) -> Seq<char> {
    "Missing or invalid key "@ + decimal(k as nat)
}

/// The text strings of the array under key `k`; none where there is none.
pub open spec fn text_list_at(es: Seq<(CborTerm, CborTerm)>, k: int) -> Seq<Seq<char>> {
    match find_entry(es, k) {
        Some(CborTerm::Array(items)) => texts_in(items),
        _ => Seq::empty(),
    }
}

/// The byte string under key `k`.
pub open spec fn bytes_at(es: Seq<(CborTerm, CborTerm)>, k: int) -> core::result::Result<Seq<u8>, Seq<char>> {
    match find_entry(es, k) {
        Some(CborTerm::Bytes(b)) => Ok(b),
        _ => Err(missing_key(k)),
    }
}

/// The text string under key `k`.
pub open spec fn text_at(es: Seq<(CborTerm, CborTerm)>, k: int) -> core::result::Result<Seq<char>, Seq<char>> {
    match find_entry(es, k) {
        Some(CborTerm::Text(s)) => Ok(s),
        _ => Err(missing_key(k)),
    }
}

/// The `u64` under key `k`.
pub open spec fn u64_at(es: Seq<(CborTerm, CborTerm)>, k: int) -> core::result::Result<u64, Seq<char>> {
    match find_entry(es, k) {
        Some(CborTerm::Integer(i)) => if 0 <= i <= u64::MAX {
            Ok(i as u64)
        } else {
            Err("Invalid integer for key "@ + decimal(k as nat))
        },
        _ => Err(missing_key(k)),
    }
}

/// The token that a CBOR item denotes, or why it denotes none.
pub open spec fn token_from_term(t: CborTerm) -> core::result::Result<TokenView, TokenFailure> {
    match t {
        CborTerm::Entries(es) => match text_at(es, 6) {
            Err(m) => Err(TokenFailure::Invalid(m)),
            Ok(idt) => match uuid_parse_outcome(idt) {
                Err(m) => Err(TokenFailure::Invalid("Invalid delegation ID: "@ + m)),
                Ok(id) => match bytes_at(es, 2) {
                    Err(m) => Err(TokenFailure::Invalid(m)),
                    Ok(dr) => match bytes_at(es, 3) {
                        Err(m) => Err(TokenFailure::Invalid(m)),
                        Ok(de) => match u64_at(es, 4) {
                            Err(m) => Err(TokenFailure::Invalid(m)),
                            Ok(ia) => match u64_at(es, 5) {
                                Err(m) => Err(TokenFailure::Invalid(m)),
                                Ok(ea) => Ok(
                                    TokenView {
                                        delegator: dr,
                                        delegate: de,
                                        issued_at: ia,
                                        expires_at: ea,
                                        delegation_id: id,
                                        services: text_list_at(es, 7),
                                        actions: text_list_at(es, 8),
                                        max_uses: match find_entry(es, 9) {
                                            Some(CborTerm::Integer(i)) => if 0 <= i <= u64::MAX {
                                                i as u64
                                            } else {
                                                0
                                            },
                                            _ => 0,
                                        },
                                        attestation: match find_entry(es, 10) {
                                            Some(CborTerm::Bytes(b)) => Some(b),
                                            _ => None,
                                        },
                                        can_sub_delegate: match find_entry(es, 11) {
                                            Some(CborTerm::Bool(b)) => b,
                                            _ => false,
                                        },
                                    },
                                ),
                            },
                        },
                    },
                },
            },
        },
        _ => Err(TokenFailure::Invalid("Expected CBOR map"@)),
    }
}

/// What decoding a token's CBOR bytes gives.
pub open spec fn token_decode(b: Seq<u8>) -> core::result::Result<TokenView, TokenFailure> {
    match cbor_decoding(b) {
        Err(m) => Err(TokenFailure::Decoding("CBOR decoding failed: "@ + m)),
        Ok(t) => token_from_term(t),
    }
}

// --------------------------------------------------------- the signed form

/// The COSE Sign1-shaped array: empty protected header, empty unprotected
/// header, payload, signature.
pub open spec fn cose_term(payload: Seq<u8>, signature: Seq<u8>) -> CborTerm {
    CborTerm::Array(
        seq![
            CborTerm::Bytes(Seq::empty()),
            CborTerm::Entries(Seq::empty()),
            CborTerm::Bytes(payload),
            CborTerm::Bytes(signature),
        ],
    )
}

/// What verifying signed token bytes under a public key gives.
pub open spec fn cose_verify(b: Seq<u8>, public: Seq<u8>) -> core::result::Result<TokenView, TokenFailure> {
    match cbor_decoding(b) {
        Err(m) => Err(TokenFailure::Decoding("COSE Sign1 decoding failed: "@ + m)),
        Ok(CborTerm::Array(items)) => if items.len() != 4 {
            Err(TokenFailure::Invalid("Invalid COSE Sign1 structure"@))
        } else {
            match items[2] {
                CborTerm::Bytes(p) => match items[3] {
                    CborTerm::Bytes(s) => if s.len() != 64 || ed25519_verify_outcome(public, p, s) is Err {
                        Err(TokenFailure::Invalid("Signature verification failed"@))
                    } else {
                        token_decode(p)
                    },
                    _ => Err(TokenFailure::Invalid("Invalid signature"@)),
                },
                _ => Err(TokenFailure::Invalid("Invalid payload"@)),
            }
        },
        Ok(_) => Err(TokenFailure::Invalid("Expected CBOR array for COSE Sign1"@)),
    }
}

/// What verifying the token `v`, signed with the secret key `secret`,
/// gives under the public key `public`: the token where Ed25519 accepts the
/// signature under that key, else the refusal of the signature.
pub open spec fn signed_outcome(v: TokenView, secret: Seq<u8>, public: Seq<u8>) -> core::result::Result<
    TokenView,
    TokenFailure,
> {
    let p = cbor_encoding(token_term(v));
    if ed25519_verify_outcome(public, p, ed25519_signature(secret, p)) is Err {
        Err(TokenFailure::Invalid("Signature verification failed"@))
    } else {
        token_decoded_as(v)
    }
}

// ------------------------------------------------------------------ proofs

/// Looking a key up in `a + b` looks in `a` first, then in `b`.
pub proof fn lemma_find_entry_concat(a: Seq<(CborTerm, CborTerm)>, b: Seq<(CborTerm, CborTerm)>, k: int)
    ensures
        find_entry(a + b, k) == match find_entry(a, k) {
            Some(t) => Some(t),
            None => find_entry(b, k),
        },
    decreases a.len(),
{
    if a.len() > 0 {
        let ab = a + b;
        assert(ab[0] == a[0]);
        assert(ab.subrange(1, ab.len() as int) =~= a.subrange(1, a.len() as int) + b);
        lemma_find_entry_concat(a.subrange(1, a.len() as int), b, k);
    } else {
        assert(a + b =~= b);
    }
}

proof fn lemma_find_single(k: int, t: CborTerm, key: int)
    ensures
        find_entry(seq![key_entry(k, t)], key) == (if key == k {
            Some(t)
        } else {
            None::<CborTerm>
        }),
{
    let s = seq![key_entry(k, t)];
    let e = Seq::<(CborTerm, CborTerm)>::empty();
    assert(s.subrange(1, 1) =~= e);
    assert(find_entry(e, key) is None);
    assert(s[0] == key_entry(k, t));
}

/// Where each key of a token's map leads.
proof fn lemma_token_entries_find(v: TokenView, k: int)
    ensures
        find_entry(token_entries(v), k) == (if k == 1 {
            Some(CborTerm::Text("locd-delegation-v1"@))
        } else if k == 2 {
            Some(CborTerm::Bytes(v.delegator))
        } else if k == 3 {
            Some(CborTerm::Bytes(v.delegate))
        } else if k == 4 {
            Some(CborTerm::Integer(v.issued_at as int))
        } else if k == 5 {
            Some(CborTerm::Integer(v.expires_at as int))
        } else if k == 6 {
            Some(CborTerm::Text(uuid_text(v.delegation_id)))
        } else if k == 7 {
            if v.services.len() > 0 {
                Some(texts_term(v.services))
            } else {
                None
            }
        } else if k == 8 {
            if v.actions.len() > 0 {
                Some(texts_term(v.actions))
            } else {
                None
            }
        } else if k == 9 {
            if v.max_uses > 0 {
                Some(CborTerm::Integer(v.max_uses as int))
            } else {
                None
            }
        } else if k == 10 {
            match v.attestation {
                Some(a) => Some(CborTerm::Bytes(a)),
                None => None,
            }
        } else if k == 11 {
            Some(CborTerm::Bool(v.can_sub_delegate))
        } else {
            None
        }),
{
    let base = seq![
        key_entry(1, CborTerm::Text("locd-delegation-v1"@)),
        key_entry(2, CborTerm::Bytes(v.delegator)),
        key_entry(3, CborTerm::Bytes(v.delegate)),
        key_entry(4, CborTerm::Integer(v.issued_at as int)),
        key_entry(5, CborTerm::Integer(v.expires_at as int)),
        key_entry(6, CborTerm::Text(uuid_text(v.delegation_id))),
    ];
    let s7: Seq<(CborTerm, CborTerm)> = if v.services.len() > 0 {
        seq![key_entry(7, texts_term(v.services))]
    } else {
        Seq::empty()
    };
    let s8: Seq<(CborTerm, CborTerm)> = if v.actions.len() > 0 {
        seq![key_entry(8, texts_term(v.actions))]
    } else {
        Seq::empty()
    };
    let s9: Seq<(CborTerm, CborTerm)> = if v.max_uses > 0 {
        seq![key_entry(9, CborTerm::Integer(v.max_uses as int))]
    } else {
        Seq::empty()
    };
    let s10: Seq<(CborTerm, CborTerm)> = match v.attestation {
        Some(a) => seq![key_entry(10, CborTerm::Bytes(a))],
        None => Seq::empty(),
    };
    let s11 = seq![key_entry(11, CborTerm::Bool(v.can_sub_delegate))];
    assert(token_entries(v) == base + s7 + s8 + s9 + s10 + s11);
    lemma_find_entry_concat(base + s7 + s8 + s9 + s10, s11, k);
    lemma_find_entry_concat(base + s7 + s8 + s9, s10, k);
    lemma_find_entry_concat(base + s7 + s8, s9, k);
    lemma_find_entry_concat(base + s7, s8, k);
    lemma_find_entry_concat(base, s7, k);
    let empty = Seq::<(CborTerm, CborTerm)>::empty();
    assert(find_entry(empty, k) is None);
    lemma_find_single(11, CborTerm::Bool(v.can_sub_delegate), k);
    if v.services.len() > 0 {
        lemma_find_single(7, texts_term(v.services), k);
    }
    if v.actions.len() > 0 {
        lemma_find_single(8, texts_term(v.actions), k);
    }
    if v.max_uses > 0 {
        lemma_find_single(9, CborTerm::Integer(v.max_uses as int), k);
    }
    if let Some(a) = v.attestation {
        lemma_find_single(10, CborTerm::Bytes(a), k);
    }
    assert(find_entry(base, k) == (if 1 <= k <= 6 {
        Some(base[k - 1].1)
    } else {
        None
    })) by {
        reveal_with_fuel(find_entry, 7);
        assert(base.subrange(1, 6) =~= seq![base[1], base[2], base[3], base[4], base[5]]);
        let b1 = base.subrange(1, 6);
        assert(b1.subrange(1, 5) =~= seq![base[2], base[3], base[4], base[5]]);
        let b2 = b1.subrange(1, 5);
        assert(b2.subrange(1, 4) =~= seq![base[3], base[4], base[5]]);
        let b3 = b2.subrange(1, 4);
        assert(b3.subrange(1, 3) =~= seq![base[4], base[5]]);
        let b4 = b3.subrange(1, 3);
        assert(b4.subrange(1, 2) =~= seq![base[5]]);
        let b5 = b4.subrange(1, 2);
        assert(b5.subrange(1, 1) =~= Seq::<(CborTerm, CborTerm)>::empty());
    }
}

/// The text strings of an array of texts are those texts.
proof fn lemma_texts_in_texts(ts: Seq<Seq<char>>)
    ensures
        texts_in(Seq::new(ts.len(), |i: int| CborTerm::Text(ts[i]))) == ts,
    decreases ts.len(),
{
    let items = Seq::new(ts.len(), |i: int| CborTerm::Text(ts[i]));
    if ts.len() > 0 {
        let init = ts.drop_last();
        lemma_texts_in_texts(init);
        assert(items.drop_last() =~= Seq::new(init.len(), |i: int| CborTerm::Text(init[i])));
        assert(items.last() == CborTerm::Text(ts.last()));
        assert(init.push(ts.last()) =~= ts);
    } else {
        assert(ts =~= Seq::<Seq<char>>::empty());
    }
}

/// Every token parses back from its CBOR item, given that the `uuid`
/// crate parses the hyphenated text of the ID back to the ID.
pub proof fn token_cbor_roundtrip(v: TokenView)
    requires
        uuid_parse_outcome(uuid_text(v.delegation_id)) == uuid_parsed_as(v.delegation_id),
    ensures
        token_from_term(token_term(v)) == token_decoded_as(v),
{
    let es = token_entries(v);
    lemma_token_entries_find(v, 2);
    lemma_token_entries_find(v, 3);
    lemma_token_entries_find(v, 4);
    lemma_token_entries_find(v, 5);
    lemma_token_entries_find(v, 6);
    lemma_token_entries_find(v, 7);
    lemma_token_entries_find(v, 8);
    lemma_token_entries_find(v, 9);
    lemma_token_entries_find(v, 10);
    lemma_token_entries_find(v, 11);
    lemma_texts_in_texts(v.services);
    lemma_texts_in_texts(v.actions);
    let d = token_from_term(token_term(v));
    assert(text_list_at(es, 7) =~= v.services);
    assert(text_list_at(es, 8) =~= v.actions);
}

/// The entries of a token's map are writable.
proof fn lemma_token_writable(v: TokenView)
    ensures
        writable(token_term(v)),
{
    let es = token_entries(v);
    let sv = Seq::new(v.services.len(), |i: int| CborTerm::Text(v.services[i]));
    let av = Seq::new(v.actions.len(), |i: int| CborTerm::Text(v.actions[i]));
    lemma_all_writable(sv, 0);
    lemma_all_writable(av, 0);
    assert forall|i: int| 0 <= i < es.len() implies serializable(#[trigger] es[i].0) && serializable(es[i].1)
        && cbor_depth(es[i].0) <= 1 && cbor_depth(es[i].1) <= 1 by {
        let (a, b) = es[i];
        assert(a is Integer && 1 <= a->Integer_0 <= 11);
    }
    lemma_all_pairs_writable(es, 1);
}

// ------------------------------------------------------------------- code

/// Appends the entry `key => value` to a map's entries.
fn push_pair(map: &mut Vec<(ciborium::Value, ciborium::Value)>, key: i64, value: ciborium::Value)
    ensures
        cbor_pair_models(final(map)@) == cbor_pair_models(old(map)@).push(
            key_entry(key as int, cbor_model(value)),
        ),
{
    let k = cbor_int(key);
    let ghost old_models = cbor_pair_models(map@);
    map.push((k, value));
    assert(cbor_pair_models(map@) =~= old_models.push(key_entry(key as int, cbor_model(value))));
}

/// The array of the service patterns' texts.
fn service_texts(pats: &Vec<ServicePattern>) -> (r: ciborium::Value)
    ensures
        cbor_model(r) == texts_term(pats.deep_view()),
{
    let mut items: Vec<ciborium::Value> = Vec::new();
    let mut i: usize = 0;
    while i < pats.len()
        invariant
            i <= pats@.len(),
            items@.len() == i,
            cbor_models(items@) == Seq::new(i as nat, |k: int| CborTerm::Text(pats@[k]@)),
        decreases pats@.len() - i,
    {
        let t = cbor_text(String::from_str(pats[i].as_str()));
        let ghost old_items = items@;
        items.push(t);
        proof {
            assert forall|k: int| 0 <= k < i + 1 implies cbor_models(items@)[k] == CborTerm::Text(
                pats@[k]@,
            ) by {
                if k < i {
                    assert(items@[k] == old_items[k]);
                    assert(cbor_models(old_items)[k] == CborTerm::Text(pats@[k]@));
                } else {
                    assert(items@[k] == t);
                }
            }
        }
        assert(cbor_models(items@) =~= Seq::new((i + 1) as nat, |k: int| CborTerm::Text(pats@[k]@)));
        i = i + 1;
    }
    let r = cbor_array(items);
    assert(cbor_models(items@) =~= Seq::new(pats.deep_view().len(), |k: int| CborTerm::Text(pats.deep_view()[k])));
    r
}

/// The array of the action patterns' texts.
fn action_texts(pats: &Vec<ActionPattern>) -> (r: ciborium::Value)
    ensures
        cbor_model(r) == texts_term(pats.deep_view()),
{
    let mut items: Vec<ciborium::Value> = Vec::new();
    let mut i: usize = 0;
    while i < pats.len()
        invariant
            i <= pats@.len(),
            items@.len() == i,
            cbor_models(items@) == Seq::new(i as nat, |k: int| CborTerm::Text(pats@[k]@)),
        decreases pats@.len() - i,
    {
        let t = cbor_text(String::from_str(pats[i].as_str()));
        let ghost old_items = items@;
        items.push(t);
        proof {
            assert forall|k: int| 0 <= k < i + 1 implies cbor_models(items@)[k] == CborTerm::Text(
                pats@[k]@,
            ) by {
                if k < i {
                    assert(items@[k] == old_items[k]);
                    assert(cbor_models(old_items)[k] == CborTerm::Text(pats@[k]@));
                } else {
                    assert(items@[k] == t);
                }
            }
        }
        assert(cbor_models(items@) =~= Seq::new((i + 1) as nat, |k: int| CborTerm::Text(pats@[k]@)));
        i = i + 1;
    }
    let r = cbor_array(items);
    assert(cbor_models(items@) =~= Seq::new(pats.deep_view().len(), |k: int| CborTerm::Text(pats.deep_view()[k])));
    r
}

/// The error `InvalidDelegation` with the given message.
fn invalid_delegation(msg: &str) -> (e: Error)
    ensures
        token_failure_is(e, TokenFailure::Invalid(msg@)),
{
    Error::InvalidDelegation(String::from_str(msg))
}

/// The text of a missing-entry error for key `k`.
fn missing_key_error(k: i64) -> (e: Error)
    requires
        k >= 0,
    ensures
        token_failure_is(e, TokenFailure::Invalid(missing_key(k as int))),
{
    let d = u64_to_decimal(k as u64);
    Error::InvalidDelegation(concat2("Missing or invalid key ", d.as_str()))
}

/// The byte string under key `k` of a map.
fn get_bytes(map: &Vec<(ciborium::Value, ciborium::Value)>, k: i64) -> (r: Result<Vec<u8>>)
    requires
        k >= 0,
    ensures
        match bytes_at(cbor_pair_models(map@), k as int) {
            Ok(b) => r matches Ok(v) && v@ == b,
            Err(m) => r matches Err(e) && token_failure_is(e, TokenFailure::Invalid(m)),
        },
{
    match find_int_key(map, k) {
        Some(v) => match cbor_read_item(v) {
            CborRef::Bytes(b) => Ok(to_vec(b.as_slice())),
            _ => Err(missing_key_error(k)),
        },
        None => Err(missing_key_error(k)),
    }
}

/// The text string under key `k` of a map.
fn get_text(map: &Vec<(ciborium::Value, ciborium::Value)>, k: i64) -> (r: Result<String>)
    requires
        k >= 0,
    ensures
        match text_at(cbor_pair_models(map@), k as int) {
            Ok(s) => r matches Ok(v) && v@ == s,
            Err(m) => r matches Err(e) && token_failure_is(e, TokenFailure::Invalid(m)),
        },
{
    match find_int_key(map, k) {
        Some(v) => match cbor_read_item(v) {
            CborRef::Text(s) => Ok(s.clone()),
            _ => Err(missing_key_error(k)),
        },
        None => Err(missing_key_error(k)),
    }
}

/// The `u64` under key `k` of a map.
fn get_u64(map: &Vec<(ciborium::Value, ciborium::Value)>, k: i64) -> (r: Result<u64>)
    requires
        k >= 0,
    ensures
        match u64_at(cbor_pair_models(map@), k as int) {
            Ok(n) => r matches Ok(v) && v == n,
            Err(m) => r matches Err(e) && token_failure_is(e, TokenFailure::Invalid(m)),
        },
{
    match find_int_key(map, k) {
        Some(v) => match cbor_read_item(v) {
            CborRef::Integer(i) => {
                if 0 <= i && i <= 0xffff_ffff_ffff_ffff {
                    Ok(i as u64)
                } else {
                    let d = u64_to_decimal(k as u64);
                    Err(Error::InvalidDelegation(concat2("Invalid integer for key ", d.as_str())))
                }
            },
            _ => Err(missing_key_error(k)),
        },
        None => Err(missing_key_error(k)),
    }
}

/// The text strings of the array under key `k` of a map.
fn get_texts(map: &Vec<(ciborium::Value, ciborium::Value)>, k: i64) -> (r: Vec<String>)
    ensures
        r.deep_view() == text_list_at(cbor_pair_models(map@), k as int),
{
    let mut out: Vec<String> = Vec::new();
    match find_int_key(map, k) {
        Some(v) => match cbor_read_item(v) {
            CborRef::Array(items) => {
                let ghost ts = cbor_models(items@);
                let mut i: usize = 0;
                assert(out.deep_view() =~= texts_in(ts.subrange(0, 0)));
                while i < items.len()
                    invariant
                        i <= items@.len(),
                        ts == cbor_models(items@),
                        out.deep_view() == texts_in(ts.subrange(0, i as int)),
                    decreases items@.len() - i,
                {
                    let ghost pre = ts.subrange(0, i + 1);
                    assert(pre.drop_last() =~= ts.subrange(0, i as int));
                    assert(pre.last() == cbor_model(items@[i as int]));
                    match cbor_read_item(&items[i]) {
                        CborRef::Text(s) => {
                            let ghost before = out.deep_view();
                            out.push(s.clone());
                            assert(out.deep_view() =~= before.push(s@));
                        },
                        _ => {},
                    }
                    i = i + 1;
                }
                assert(ts.subrange(0, items@.len() as int) =~= ts);
            },
            _ => {
                assert(out.deep_view() =~= Seq::<Seq<char>>::empty());
            },
        },
        None => {
            assert(out.deep_view() =~= Seq::<Seq<char>>::empty());
        },
    }
    out
}

impl DelegationToken {
    /// A new delegation token builder.
    pub fn builder() -> (b: crate::builder::DelegationTokenBuilder)
        ensures
            b@ == crate::builder::empty_builder(),
    {
        crate::builder::DelegationTokenBuilder::new()
    }

    /// Encodes the token as a CBOR map; the bytes decode back to the token.
    pub fn to_cbor(&self) -> (r: Result<Vec<u8>>)
        ensures
            r is Ok,
            match r {
                Ok(b) => b@ == cbor_encoding(token_term(self@)) && token_decode(b@)
                    == token_decoded_as(self@) && b@.len() <= cbor_size(token_term(self@)),
                Err(e) => e is Encoding,
            },
    {
        let mut map: Vec<(ciborium::Value, ciborium::Value)> = Vec::new();
        let ghost v = self@;
        push_pair(&mut map, CBOR_KEY_TYPE, cbor_text(String::from_str(DELEGATION_TYPE)));
        push_pair(&mut map, CBOR_KEY_DELEGATOR, cbor_bytes(to_vec(self.delegator.as_slice())));
        push_pair(&mut map, CBOR_KEY_DELEGATE, cbor_bytes(to_vec(self.delegate.as_slice())));
        push_pair(&mut map, CBOR_KEY_ISSUED_AT, cbor_uint(self.issued_at));
        push_pair(&mut map, CBOR_KEY_EXPIRES_AT, cbor_uint(self.expires_at));
        let id_text = self.delegation_id.to_string();
        push_pair(&mut map, CBOR_KEY_DELEGATION_ID, cbor_text(id_text));
        let ghost base = cbor_pair_models(map@);
        if self.services.len() > 0 {
            push_pair(&mut map, CBOR_KEY_SERVICES, service_texts(&self.services));
        }
        let ghost with7 = cbor_pair_models(map@);
        if self.actions.len() > 0 {
            push_pair(&mut map, CBOR_KEY_ACTIONS, action_texts(&self.actions));
        }
        let ghost with8 = cbor_pair_models(map@);
        if self.max_uses > 0 {
            push_pair(&mut map, CBOR_KEY_MAX_USES, cbor_uint(self.max_uses));
        }
        let ghost with9 = cbor_pair_models(map@);
        match &self.attestation {
            Some(a) => {
                push_pair(&mut map, CBOR_KEY_ATTESTATION, cbor_bytes(to_vec(a.as_slice())));
            },
            None => {},
        }
        let ghost with10 = cbor_pair_models(map@);
        push_pair(&mut map, CBOR_KEY_CAN_SUB_DELEGATE, cbor_bool(self.can_sub_delegate));
        proof {
            reveal_strlit("locd-delegation-v1");
            assert(DELEGATION_TYPE@ == "locd-delegation-v1"@);
            assert(cbor_pair_models(map@) =~= token_entries(v));
            lemma_token_writable(v);
            token_cbor_roundtrip(v);
        }
        let value = cbor_entries(map);
        match cbor_write(&value) {
            Ok(b) => Ok(b),
            Err(m) => Err(Error::Encoding(concat2("CBOR encoding failed: ", m.as_str()))),
        }
    }

    /// Decodes a token from CBOR bytes.
    pub fn from_cbor(cbor: &[u8]) -> (r: Result<DelegationToken>)
        ensures
            token_answers(r, token_decode(cbor@)),
    {
        let value = match cbor_read(cbor) {
            Ok(v) => v,
            Err(m) => return Err(Error::Decoding(concat2("CBOR decoding failed: ", m.as_str()))),
        };
        let map = match cbor_read_item(&value) {
            CborRef::Entries(m) => m,
            _ => return Err(invalid_delegation("Expected CBOR map")),
        };
        let ghost es = cbor_pair_models(map@);
        let service_texts = get_texts(map, CBOR_KEY_SERVICES);
        let mut services: Vec<ServicePattern> = Vec::new();
        let mut i: usize = 0;
        while i < service_texts.len()
            invariant
                i <= service_texts@.len(),
                services@.len() == i,
                services.deep_view() == service_texts.deep_view().subrange(0, i as int),
            decreases service_texts@.len() - i,
        {
            let ghost old_v = services@;
            let ghost old_dv = services.deep_view();
            let p = ServicePattern::new(service_texts[i].as_str());
            services.push(p);
            proof {
                assert forall|k: int| 0 <= k < i + 1 implies services.deep_view()[k]
                    == service_texts.deep_view()[k] by {
                    if k < i {
                        assert(services@[k] == old_v[k]);
                        assert(old_dv[k] == service_texts.deep_view().subrange(0, i as int)[k]);
                    } else {
                        assert(services@[k] == p);
                    }
                }
            }
            assert(services.deep_view() =~= service_texts.deep_view().subrange(0, i + 1));
            i = i + 1;
        }
        assert(service_texts.deep_view().subrange(0, service_texts@.len() as int) =~= service_texts.deep_view());
        let action_texts = get_texts(map, CBOR_KEY_ACTIONS);
        let mut actions: Vec<ActionPattern> = Vec::new();
        let mut j: usize = 0;
        while j < action_texts.len()
            invariant
                j <= action_texts@.len(),
                actions@.len() == j,
                actions.deep_view() == action_texts.deep_view().subrange(0, j as int),
            decreases action_texts@.len() - j,
        {
            let ghost old_a = actions@;
            let ghost old_da = actions.deep_view();
            let p = ActionPattern::new(action_texts[j].as_str());
            actions.push(p);
            proof {
                assert forall|k: int| 0 <= k < j + 1 implies actions.deep_view()[k]
                    == action_texts.deep_view()[k] by {
                    if k < j {
                        assert(actions@[k] == old_a[k]);
                        assert(old_da[k] == action_texts.deep_view().subrange(0, j as int)[k]);
                    } else {
                        assert(actions@[k] == p);
                    }
                }
            }
            assert(actions.deep_view() =~= action_texts.deep_view().subrange(0, j + 1));
            j = j + 1;
        }
        assert(action_texts.deep_view().subrange(0, action_texts@.len() as int) =~= action_texts.deep_view());
        let attestation = match find_int_key(map, CBOR_KEY_ATTESTATION) {
            Some(v) => match cbor_read_item(v) {
                CborRef::Bytes(b) => Some(to_vec(b.as_slice())),
                _ => None,
            },
            None => None,
        };
        let id_text = match get_text(map, CBOR_KEY_DELEGATION_ID) {
            Ok(t) => t,
            Err(e) => return Err(e),
        };
        let delegation_id = match DelegationId::from_string(id_text.as_str()) {
            Ok(id) => id,
            Err(Error::Decoding(m)) => {
                return Err(Error::InvalidDelegation(concat2("Invalid delegation ID: ", m.as_str())));
            },
            Err(e) => return Err(e),
        };
        let delegator = match get_bytes(map, CBOR_KEY_DELEGATOR) {
            Ok(b) => b,
            Err(e) => return Err(e),
        };
        let delegate = match get_bytes(map, CBOR_KEY_DELEGATE) {
            Ok(b) => b,
            Err(e) => return Err(e),
        };
        let issued_at = match get_u64(map, CBOR_KEY_ISSUED_AT) {
            Ok(n) => n,
            Err(e) => return Err(e),
        };
        let expires_at = match get_u64(map, CBOR_KEY_EXPIRES_AT) {
            Ok(n) => n,
            Err(e) => return Err(e),
        };
        let max_uses = match find_int_key(map, CBOR_KEY_MAX_USES) {
            Some(v) => match cbor_read_item(v) {
                CborRef::Integer(i) => if 0 <= i && i <= 0xffff_ffff_ffff_ffff {
                    i as u64
                } else {
                    0
                },
                _ => 0,
            },
            None => 0,
        };
        let can_sub_delegate = match find_int_key(map, CBOR_KEY_CAN_SUB_DELEGATE) {
            Some(v) => match cbor_read_item(v) {
                CborRef::Bool(b) => b,
                _ => false,
            },
            None => false,
        };
        Ok(DelegationToken {
            delegator,
            delegate,
            issued_at,
            expires_at,
            delegation_id,
            services,
            actions,
            max_uses,
            attestation,
            can_sub_delegate,
        })
    }

    /// Signs the token with a master key: the CBOR payload and its Ed25519
    /// signature in a COSE Sign1-shaped array. The bytes decode to that
    /// array; under any public key they give the token back where Ed25519
    /// accepts the signature under it, and the refusal of the signature
    /// elsewhere; under the master key's own public key they give the token
    /// back.
    pub fn sign(&self, master_key: &Ed25519KeyPair) -> (r: Result<Vec<u8>>)
        ensures
            r is Ok,
            match r {
                Ok(b) => b@ == cbor_encoding(
                    cose_term(
                        cbor_encoding(token_term(self@)),
                        ed25519_signature(master_key@, cbor_encoding(token_term(self@))),
                    ),
                ) && cbor_decoding(b@) == read_as(
                    cose_term(
                        cbor_encoding(token_term(self@)),
                        ed25519_signature(master_key@, cbor_encoding(token_term(self@))),
                    ),
                ) && (forall|public: Seq<u8>| #[trigger] cose_verify(b@, public) == signed_outcome(
                    self@,
                    master_key@,
                    public,
                )) && cose_verify(b@, ed25519_public(master_key@)) == token_decoded_as(self@)
                    && b@.len() <= 109 + cbor_size(token_term(self@)),
                Err(e) => e is Encoding,
            },
    {
        let payload = match self.to_cbor() {
            Ok(p) => p,
            Err(e) => return Err(e),
        };
        let signature = master_key.sign_bytes(payload.as_slice());
        let ghost p = payload@;
        let ghost s = signature@;
        let mut items: Vec<ciborium::Value> = Vec::new();
        items.push(cbor_bytes(Vec::new()));
        items.push(cbor_entries(Vec::new()));
        items.push(cbor_bytes(payload));
        items.push(cbor_bytes(signature));
        let structure = cbor_array(items);
        proof {
            assert(cbor_pair_models(Seq::<(ciborium::Value, ciborium::Value)>::empty()) =~= Seq::<(CborTerm, CborTerm)>::empty());
            assert(cbor_models(items@) =~= seq![
                CborTerm::Bytes(Seq::empty()),
                CborTerm::Entries(Seq::empty()),
                CborTerm::Bytes(p),
                CborTerm::Bytes(s),
            ]);
            let ts = cbor_models(items@);
            assert(ts[0] == CborTerm::Bytes(Seq::<u8>::empty()));
            lemma_all_pairs_writable(Seq::<(CborTerm, CborTerm)>::empty(), 0);
            lemma_all_writable(ts, 1);
            let t0 = CborTerm::Bytes(Seq::<u8>::empty());
            let t1 = CborTerm::Entries(Seq::<(CborTerm, CborTerm)>::empty());
            let t2 = CborTerm::Bytes(p);
            let t3 = CborTerm::Bytes(s);
            assert(seq![t0, t1, t2, t3].drop_last() =~= seq![t0, t1, t2]);
            assert(seq![t0, t1, t2].drop_last() =~= seq![t0, t1]);
            assert(seq![t0, t1].drop_last() =~= seq![t0]);
            assert(seq![t0].drop_last() =~= Seq::<CborTerm>::empty());
            assert(items_size(Seq::<CborTerm>::empty()) == 0);
            assert(crate::cbor::pairs_size(Seq::<(CborTerm, CborTerm)>::empty()) == 0);
            assert(cbor_size(t0) == 9);
            assert(cbor_size(t1) == 9);
            assert(seq![t0].last() == t0);
            assert(seq![t0, t1].last() == t1);
            assert(seq![t0, t1, t2].last() == t2);
            assert(seq![t0, t1, t2, t3].last() == t3);
            assert(s.len() == 64);
            assert(items_size(seq![t0]) == 9);
            assert(items_size(seq![t0, t1]) == 18);
            assert(cbor_size(t2) == 9 + p.len());
            assert(cbor_size(t3) == 73);
            assert(items_size(seq![t0, t1, t2]) == items_size(seq![t0, t1, t2].drop_last()) + cbor_size(
                seq![t0, t1, t2].last(),
            ));
            assert(items_size(seq![t0, t1, t2]) == 27 + p.len());
            assert(items_size(seq![t0, t1, t2, t3]) == 100 + p.len());
            assert(cbor_size(cose_term(p, s)) == 109 + p.len());
        }
        let written = cbor_write(&structure);
        proof {
            let ghost wb = written;
            if let Ok(b) = wb {
                assert forall|public: Seq<u8>| #[trigger] cose_verify(b@, public) == signed_outcome(
                    self@,
                    master_key@,
                    public,
                ) by {
                    let items = seq![
                        CborTerm::Bytes(Seq::<u8>::empty()),
                        CborTerm::Entries(Seq::<(CborTerm, CborTerm)>::empty()),
                        CborTerm::Bytes(p),
                        CborTerm::Bytes(s),
                    ];
                    assert(cbor_decoding(b@) == read_as(CborTerm::Array(items)));
                    assert(items[2] == CborTerm::Bytes(p));
                    assert(items[3] == CborTerm::Bytes(s));
                }
            }
        }
        match written {
            Ok(b) => Ok(b),
            Err(m) => Err(Error::Encoding(concat2("COSE Sign1 encoding failed: ", m.as_str()))),
        }
    }

    /// Verifies signed token bytes under a master public key and decodes
    /// the token.
    pub fn verify(cose_sign1_bytes: &[u8], master_public_key: &Ed25519PublicKey) -> (r: Result<DelegationToken>)
        ensures
            token_answers(r, cose_verify(cose_sign1_bytes@, master_public_key@)),
    {
        let value = match cbor_read(cose_sign1_bytes) {
            Ok(v) => v,
            Err(m) => return Err(Error::Decoding(concat2("COSE Sign1 decoding failed: ", m.as_str()))),
        };
        let elements = match cbor_read_item(&value) {
            CborRef::Array(a) => a,
            _ => return Err(invalid_delegation("Expected CBOR array for COSE Sign1")),
        };
        if elements.len() != 4 {
            return Err(invalid_delegation("Invalid COSE Sign1 structure"));
        }
        let ghost ts = cbor_models(elements@);
        assert(ts[2] == cbor_model(elements@[2]));
        assert(ts[3] == cbor_model(elements@[3]));
        let payload = match cbor_read_item(&elements[2]) {
            CborRef::Bytes(b) => b,
            _ => return Err(invalid_delegation("Invalid payload")),
        };
        let signature = match cbor_read_item(&elements[3]) {
            CborRef::Bytes(b) => b,
            _ => return Err(invalid_delegation("Invalid signature")),
        };
        match master_public_key.verify_bytes(payload.as_slice(), signature.as_slice()) {
            Ok(_) => {},
            Err(_) => return Err(invalid_delegation("Signature verification failed")),
        }
        Self::from_cbor(payload.as_slice())
    }
}

} // verus!
