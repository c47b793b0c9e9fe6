//! What the command-line tools compute: key files and their exports, DNS
//! records to publish, delegation tokens to hand out, and the messages of a
//! verification exchange. The tools themselves read and write the files.

use vstd::prelude::*;
use crate::ed25519::{ed25519_public, Ed25519KeyPair, Ed25519PublicKey};
use crate::encoding::{hex_decode, hex_encode, hex_lower};
use crate::error::{Error, Result};
use crate::messages::{ChallengeMessage, HelloMessage, ResponseMessage, ResultMessage};
use crate::records::{IdentityRecord, IdentityView, RevocationRecord};
use crate::text::{concat2, decimal, join_strs, join_with, split_trimmed, str_eq, trim_all, split_on, u64_to_decimal};
use crate::token::DelegationToken;
use crate::types::{DelegationId, IdentityDomain};

verus! {

// ---------------------------------------------------------------- key files

/// "Invalid key size: expected 32 bytes, got <n>".
pub open spec fn key_size_message(n: nat) -> Seq<char> {
    "Invalid key size: expected 32 bytes, got "@ + decimal(n)
}

fn key_size_error(n: usize) -> (e: Error)
    ensures
        e matches Error::Custom(m) && m@ == key_size_message(n as nat),
{
    let d = u64_to_decimal(n as u64);
    Error::Custom(concat2("Invalid key size: expected 32 bytes, got ", d.as_str()))
}

/// A key exported as JSON fields.
#[derive(Debug, Clone)]
pub struct KeyExport {
    /// "secret" or "public".
    pub key_type: String,
    pub secret_key_hex: Option<String>,
    pub public_key_hex: String,
}

/// A new key: its secret bytes, its public bytes and the public key's hex.
pub fn new_key_material() -> (r: (Vec<u8>, Vec<u8>, String))
    ensures
        r.0@.len() == 32,
        r.1@ == ed25519_public(r.0@),
        r.2@ == hex_lower(r.1@),
{
    let keypair = Ed25519KeyPair::generate();
    let secret = keypair.secret_bytes();
    let public = keypair.public_key().to_bytes();
    let text = hex_encode(public.as_slice());
    (secret, public, text)
}

/// The hex public key of the secret key in a key file: a file of 32 bytes
/// is read as a secret key (every 32 bytes are one); any other size is
/// refused.
pub fn key_file_public_hex(bytes: &[u8]) -> (r: Result<String>)
    ensures
        bytes@.len() == 32 ==> (r matches Ok(h) && h@ == hex_lower(ed25519_public(bytes@))),
        bytes@.len() != 32 ==> (r matches Err(Error::Custom(m)) && m@ == key_size_message(bytes@.len())),
{
    if bytes.len() != 32 {
        return Err(key_size_error(bytes.len()));
    }
    let keypair = match Ed25519KeyPair::from_secret_bytes(bytes) {
        Ok(k) => k,
        Err(e) => return Err(e),
    };
    Ok(hex_encode(keypair.public_key().to_bytes().as_slice()))
}

/// The JSON export of a key file of 32 bytes: a secret key, with its
/// public key; any other size is refused.
pub fn export_key(bytes: &[u8]) -> (r: Result<KeyExport>)
    ensures
        bytes@.len() == 32 ==> (r matches Ok(x) && x.key_type@ == "secret"@ && (x.secret_key_hex matches Some(s)
            && s@ == hex_lower(bytes@)) && x.public_key_hex@ == hex_lower(ed25519_public(bytes@))),
        bytes@.len() != 32 ==> (r matches Err(Error::Custom(m)) && m@ == key_size_message(bytes@.len())),
{
    if bytes.len() != 32 {
        return Err(key_size_error(bytes.len()));
    }
    let keypair = match Ed25519KeyPair::from_secret_bytes(bytes) {
        Ok(k) => k,
        Err(e) => return Err(e),
    };
    Ok(
        KeyExport {
            key_type: String::from_str("secret"),
            secret_key_hex: Some(hex_encode(bytes)),
            public_key_hex: hex_encode(keypair.public_key().to_bytes().as_slice()),
        },
    )
}

/// The key bytes of an export: the secret key where there is one, else the
/// public key, decoded from hex.
pub fn import_key(export: &KeyExport) -> (r: Result<Vec<u8>>)
    ensures
        ({
            let text = match export.secret_key_hex {
                Some(s) => s@,
                None => export.public_key_hex@,
            };
            match crate::encoding::hex_decoded(text) {
                Some(d) => r matches Ok(v) && v@ == d,
                None => r matches Err(Error::Decoding(m)) && m@ == "Hex decode failed"@,
            }
        }),
{
    match &export.secret_key_hex {
        Some(s) => hex_decode(s.as_str()),
        None => hex_decode(export.public_key_hex.as_str()),
    }
}

/// The public key of a secret key.
pub fn public_key_of_secret(secret: &[u8]) -> (r: Result<Vec<u8>>)
    ensures
        secret@.len() == 32 ==> (r matches Ok(v) && v@ == ed25519_public(secret@)),
        secret@.len() != 32 ==> r matches Err(Error::InvalidKey(_)),
{
    let keypair = match Ed25519KeyPair::from_secret_bytes(secret) {
        Ok(k) => k,
        Err(e) => return Err(e),
    };
    Ok(keypair.public_key().to_bytes())
}

// ------------------------------------------------------------- DNS records

/// The identity record of a master public key published at `timestamp`,
/// with an optional expiry and revocation endpoint; the key must be 32
/// bytes of a valid point.
pub fn identity_record_for(master_public: &[u8], timestamp: u64, expiry: Option<u64>, revocation_url: Option<String>) -> (r: Result<IdentityRecord>)
    ensures
        match r {
            Ok(rec) => rec@ == (IdentityView {
                version: "locd1"@,
                algorithm: "ed25519"@,
                public_key: crate::encoding::base64url_of(master_public@),
                timestamp,
                expiry,
                revocation_endpoint: match revocation_url {
                    Some(u) => Some(u@),
                    None => None,
                },
            }),
            Err(e) => e is InvalidKey,
        },
        r is Ok <==> master_public@.len() == 32 && crate::ed25519::ed25519_key_check(master_public@)
            == crate::ed25519::checked_ok(),
{
    let key = match Ed25519PublicKey::from_bytes(master_public) {
        Ok(k) => k,
        Err(e) => return Err(e),
    };
    proof {
        let kc = crate::ed25519::ed25519_key_check(master_public@);
        if let Ok(u) = kc {
            assert(kc == crate::ed25519::checked_ok());
        }
    }
    let bytes = key.to_bytes();
    let mut record = IdentityRecord::new(bytes.as_slice(), timestamp);
    match expiry {
        Some(exp) => {
            record = record.with_expiry(exp);
        },
        None => {},
    }
    match &revocation_url {
        Some(url) => {
            record = record.with_revocation_endpoint(url.as_str());
        },
        None => {},
    }
    Ok(record)
}

/// The non-empty pieces of a list.
pub open spec fn non_empty(ps: Seq<Seq<char>>) -> Seq<Seq<char>>
    decreases ps.len(),
{
    if ps.len() == 0 {
        Seq::empty()
    } else if ps.last().len() == 0 {
        non_empty(ps.drop_last())
    } else {
        non_empty(ps.drop_last()).push(ps.last())
    }
}

/// The revoked IDs of a comma-separated list: each trimmed, the empty ones
/// left out.
#[verifier::spinoff_prover]
pub fn parse_revocation_ids(text: &str) -> (r: Vec<String>)
    ensures
        r.deep_view() == non_empty(trim_all(split_on(text@, ','))),
{
    let parts = split_trimmed(text, ',');
    let mut out: Vec<String> = Vec::new();
    let mut i: usize = 0;
    while i < parts.len()
        invariant
            i <= parts@.len(),
            out.deep_view() == non_empty(parts.deep_view().subrange(0, i as int)),
        decreases parts@.len() - i,
    {
        let ghost before = out.deep_view();
        proof {
            assert(parts.deep_view().subrange(0, i + 1).drop_last() =~= parts.deep_view().subrange(0, i as int));
        }
        if parts[i].as_str().unicode_len() > 0 {
            out.push(parts[i].clone());
            assert(out.deep_view() =~= before.push(parts.deep_view()[i as int]));
        }
        i = i + 1;
    }
    assert(parts.deep_view().subrange(0, parts@.len() as int) =~= parts.deep_view());
    out
}

/// The revocation record of a list of IDs published at `timestamp`; a list
/// with no ID is refused.
pub fn revocation_record_for(ids: Vec<String>, timestamp: u64) -> (r: Result<RevocationRecord>)
    ensures
        ids@.len() == 0 ==> (r matches Err(Error::Custom(m)) && m@ == "No revocation IDs provided"@),
        ids@.len() > 0 ==> (r matches Ok(rec) && rec@.version == "locd-revoke1"@ && rec@.revoked_ids
            == ids.deep_view() && rec@.timestamp == timestamp),
{
    if ids.len() == 0 {
        return Err(Error::Custom(String::from_str("No revocation IDs provided")));
    }
    Ok(RevocationRecord::new(ids, timestamp))
}

/// The text that shows a TXT record to publish: its name and value, and
/// the line for a BIND zone file.
pub open spec fn zone_listing_text(name: Seq<char>, value: Seq<char>) -> Seq<char> {
    "DNS TXT Record:\n\nName: "@ + name + "\nValue: \""@ + value + "\"\n\nFor BIND zone file:\n"@ + name
        + " IN TXT \""@ + value + "\"\n"@
}

/// The text that shows a TXT record to publish.
pub fn zone_listing(name: &str, value: &str) -> (r: String)
    ensures
        r@ == zone_listing_text(name@, value@),
{
    let mut s = String::from_str("DNS TXT Record:\n\nName: ");
    s.append(name);
    s.append("\nValue: \"");
    s.append(value);
    s.append("\"\n\nFor BIND zone file:\n");
    s.append(name);
    s.append(" IN TXT \"");
    s.append(value);
    s.append("\"\n");
    s
}

/// A record that validated.
#[derive(Debug)]
pub enum ValidatedRecord {
    Identity(IdentityRecord),
    Revocation(RevocationRecord),
}

/// Validates a TXT record value as a record of the named type ("identity"
/// or "revocation"); another type is refused.
pub fn validate_record(record: &str, record_type: &str) -> (r: Result<ValidatedRecord>)
    ensures
        record_type@ == "identity"@ ==> match crate::records::identity_parse(record@) {
            Ok(v) => r matches Ok(ValidatedRecord::Identity(x)) && x@ == v,
            Err(f) => r matches Err(e) && crate::records::failure_matches(e, f),
        },
        record_type@ == "revocation"@ ==> match crate::records::revocation_parse(record@) {
            Ok(v) => r matches Ok(ValidatedRecord::Revocation(x)) && x@ == v,
            Err(f) => r matches Err(e) && crate::records::failure_matches(e, f),
        },
        record_type@ != "identity"@ && record_type@ != "revocation"@ ==> (r matches Err(Error::Custom(m))
            && m@ == "Unknown record type: "@ + record_type@ + ". Use 'identity' or 'revocation'"@),
{
    proof {
        reveal_strlit("identity");
        reveal_strlit("revocation");
        assert("identity"@.len() == 8);
        assert("revocation"@.len() == 10);
        assert("identity"@ != "revocation"@);
    }
    if str_eq(record_type, "identity") {
        match IdentityRecord::from_txt_record(record) {
            Ok(rec) => Ok(ValidatedRecord::Identity(rec)),
            Err(e) => Err(e),
        }
    } else if str_eq(record_type, "revocation") {
        match RevocationRecord::from_txt_record(record) {
            Ok(rec) => Ok(ValidatedRecord::Revocation(rec)),
            Err(e) => Err(e),
        }
    } else {
        Err(Error::Custom(crate::text::concat3("Unknown record type: ", record_type, ". Use 'identity' or 'revocation'")))
    }
}

// --------------------------------------------------------- delegation tool

/// The expiry a new delegation gets: the given duration, a day where none
/// is given.
pub open spec fn chosen_duration(expires_in: Option<u64>) -> u64 {
    match expires_in {
        Some(d) => d,
        None => 86400,
    }
}

/// Creates and signs a delegation from the master secret key to the device
/// public key, with a new ID, the given scope, maximum uses and
/// sub-delegation flag, expiring the given duration from now (a day where
/// none is given). The token is returned with its signed bytes.
pub fn create_signed_delegation(
    master_secret: &[u8],
    device_public: &[u8],
    services: Vec<String>,
    actions: Vec<String>,
    expires_in: Option<u64>,
    max_uses: u64,
    sub_delegate: bool,
) -> (r: Result<(DelegationToken, Vec<u8>)>)
    ensures
        master_secret@.len() != 32 ==> r matches Err(Error::InvalidKey(_)),
        r matches Ok((t, b)) ==> {
            &&& master_secret@.len() == 32
            &&& t@.delegator == ed25519_public(master_secret@)
            &&& t@.delegate == device_public@
            &&& t@.services == services.deep_view()
            &&& t@.actions == actions.deep_view()
            &&& t@.max_uses == max_uses
            &&& t@.can_sub_delegate == sub_delegate
            &&& (t@.expires_at == t@.issued_at + chosen_duration(expires_in)
                || t@.expires_at == t@.issued_at + crate::constants::DEFAULT_DELEGATION_DURATION_SECS)
            &&& crate::token::cose_verify(b@, ed25519_public(master_secret@)) == crate::token::token_decoded_as(t@)
        },
{
    let master = match Ed25519KeyPair::from_secret_bytes(master_secret) {
        Ok(k) => k,
        Err(e) => return Err(e),
    };
    let device = match Ed25519PublicKey::from_bytes(device_public) {
        Ok(k) => k,
        Err(e) => return Err(e),
    };
    let mut builder = DelegationToken::builder()
        .delegator(master.public_key().to_bytes())
        .delegate(device.to_bytes())
        .delegation_id(DelegationId::new())
        .max_uses(max_uses)
        .can_sub_delegate(sub_delegate);
    let duration = match expires_in {
        Some(d) => d,
        None => 86400,
    };
    assert(builder@.expires_at is None && builder@.issued_at is None);
    let ghost unset = builder@;
    builder = builder.expires_in(duration);
    let ghost expiry = builder@.expires_at;
    let ghost issuance = builder@.issued_at;
    proof {
        let n0 = choose|n0: u64| builder@ == #[trigger] crate::builder::expires_in_outcome(unset, n0, duration);
        assert(builder@ == crate::builder::expires_in_outcome(unset, n0, duration));
    }
    assert(expiry is None && issuance is None || (expiry is Some && issuance is Some
        && expiry->0 == issuance->0 + duration));
    let mut i: usize = 0;
    while i < services.len()
        invariant
            i <= services@.len(),
            builder@.services == services.deep_view().subrange(0, i as int),
            builder@.delegator == Some(ed25519_public(master@)),
            builder@.delegate == Some(device@),
            builder@.actions == Seq::<Seq<char>>::empty(),
            builder@.max_uses == max_uses,
            builder@.can_sub_delegate == sub_delegate,
            builder@.expires_at == expiry,
            builder@.issued_at == issuance,
        decreases services@.len() - i,
    {
        builder = builder.service(services[i].as_str());
        assert(services.deep_view().subrange(0, i + 1) =~= services.deep_view().subrange(0, i as int).push(services.deep_view()[i as int]));
        i = i + 1;
    }
    let mut j: usize = 0;
    while j < actions.len()
        invariant
            j <= actions@.len(),
            builder@.services == services.deep_view(),
            builder@.actions == actions.deep_view().subrange(0, j as int),
            builder@.delegator == Some(ed25519_public(master@)),
            builder@.delegate == Some(device@),
            builder@.max_uses == max_uses,
            builder@.can_sub_delegate == sub_delegate,
            builder@.expires_at == expiry,
            builder@.issued_at == issuance,
        decreases actions@.len() - j,
    {
        builder = builder.action(actions[j].as_str());
        assert(actions.deep_view().subrange(0, j + 1) =~= actions.deep_view().subrange(0, j as int).push(actions.deep_view()[j as int]));
        j = j + 1;
    }
    assert(services.deep_view().subrange(0, services@.len() as int) =~= services.deep_view());
    assert(actions.deep_view().subrange(0, actions@.len() as int) =~= actions.deep_view());
    let ghost bv = builder@;
    let token = match builder.build() {
        Ok(t) => t,
        Err(e) => return Err(e),
    };
    proof {
        let (now, fresh) = choose|now: u64, fresh: u128| crate::builder::build_in_range(bv, now) && crate::builder::build_answers(
            Ok::<DelegationToken, Error>(token),
            #[trigger] crate::builder::build_outcome(bv, now, fresh),
        );
    }
    let signed = match token.sign(&master) {
        Ok(b) => b,
        Err(e) => return Err(e),
    };
    Ok((token, signed))
}

/// Verifies signed token bytes under a master public key given as bytes.
pub fn verify_signed_delegation(token_bytes: &[u8], master_public: &[u8]) -> (r: Result<DelegationToken>)
    ensures
        master_public@.len() == 32 && crate::ed25519::ed25519_key_check(master_public@) == crate::ed25519::checked_ok()
            ==> crate::token::token_answers(r, crate::token::cose_verify(token_bytes@, master_public@)),
        master_public@.len() != 32 ==> r matches Err(Error::InvalidKey(_)),
        master_public@.len() == 32 ==> match crate::ed25519::ed25519_key_check(master_public@) {
            Err(m) => r matches Err(Error::InvalidKey(e)) && e@ == m,
            Ok(_) => true,
        },
{
    let key = match Ed25519PublicKey::from_bytes(master_public) {
        Ok(k) => k,
        Err(e) => return Err(e),
    };
    DelegationToken::verify(token_bytes, &key)
}

/// How a maximum number of uses reads: "unlimited" for 0, else the number.
pub fn max_uses_text(max_uses: u64) -> (r: String)
    ensures
        max_uses == 0 ==> r@ == "unlimited"@,
        max_uses != 0 ==> r@ == decimal(max_uses as nat),
{
    if max_uses == 0 {
        String::from_str("unlimited")
    } else {
        u64_to_decimal(max_uses)
    }
}

/// How a list of patterns reads: "any" where there is none, else the
/// patterns joined with ", ".
pub fn patterns_text(patterns: &Vec<String>) -> (r: String)
    ensures
        patterns@.len() == 0 ==> r@ == "any"@,
        patterns@.len() > 0 ==> r@ == join_with(patterns.deep_view(), ", "@),
{
    if patterns.len() == 0 {
        String::from_str("any")
    } else {
        join_strs(patterns, ", ")
    }
}

// -------------------------------------------------------- verification tool

/// The encoded HELLO of a device secret key acting for a domain.
pub fn hello_for(device_secret: &[u8], domain: &str) -> (r: Result<Vec<u8>>)
    ensures
        device_secret@.len() != 32 ==> r matches Err(Error::InvalidKey(_)),
        device_secret@.len() == 32 ==> (r matches Ok(b) && b@ == crate::cbor::cbor_encoding(
            crate::cbor::CborTerm::Entries(
                crate::messages::hello_entries(
                    crate::messages::HelloView {
                        identity_domain: domain@,
                        device_public_key: ed25519_public(device_secret@),
                    },
                ),
            ),
        )),
{
    let keypair = match Ed25519KeyPair::from_secret_bytes(device_secret) {
        Ok(k) => k,
        Err(e) => return Err(e),
    };
    let claimant = crate::claimant::Claimant::new(keypair, IdentityDomain::new(domain));
    let hello = match claimant.create_hello() {
        Ok(h) => h,
        Err(e) => return Err(e),
    };
    hello.encode()
}

/// The encoded CHALLENGE a verifier of a domain answers an encoded HELLO
/// with (a placeholder WireGuard key of 32 zero bytes): a HELLO that does
/// not decode is refused with the decoding error; else the bytes decode to
/// a challenge for the domain with a 32-byte nonce.
pub fn challenge_for(domain: &str, hello_bytes: &[u8]) -> (r: Result<Vec<u8>>)
    ensures
        match crate::messages::hello_decode(hello_bytes@) {
            Err(f) => r matches Err(e) && crate::messages::message_failure_is(e, f),
            Ok(_) => r matches Ok(b) && (crate::messages::challenge_decode(b@) matches Ok(c)
                && c.nonce.len() == 32 && c.verifier_domain == domain@),
        },
{
    let zeros: Vec<u8> = zero_key();
    let verifier = crate::verification::Verifier::new(IdentityDomain::new(domain), zeros, None);
    let hello = match HelloMessage::decode(hello_bytes) {
        Ok(h) => h,
        Err(e) => return Err(e),
    };
    let challenge = match verifier.handle_hello(&hello) {
        Ok(c) => c,
        Err(e) => return Err(e),
    };
    challenge.encode()
}

/// 32 zero bytes.
fn zero_key() -> (v: Vec<u8>)
    ensures
        v@ == Seq::new(32, |_i: int| 0u8),
{
    let mut v: Vec<u8> = Vec::new();
    let mut i: usize = 0;
    while i < 32
        invariant
            i <= 32,
            v@ == Seq::new(i as nat, |_i: int| 0u8),
        decreases 32 - i,
    {
        v.push(0);
        assert(v@ =~= Seq::new((i + 1) as nat, |_i: int| 0u8));
        i = i + 1;
    }
    v
}

/// The encoded RESPONSE of a device secret key acting for a domain to an
/// encoded CHALLENGE, carrying the signed delegation: a key of the wrong
/// length or a CHALLENGE that does not decode is refused; a challenge
/// outside the clock's tolerance too; else the bytes decode to the device
/// key's signature over the challenge payload with the delegation and no
/// sub-delegations.
pub fn response_for(device_secret: &[u8], domain: &str, challenge_bytes: &[u8], delegation_bytes: Vec<u8>) -> (r: Result<Vec<u8>>)
    ensures
        device_secret@.len() != 32 ==> r matches Err(Error::InvalidKey(_)),
        device_secret@.len() == 32 ==> match crate::messages::challenge_decode(challenge_bytes@) {
            Err(f) => r matches Err(e) && crate::messages::message_failure_is(e, f),
            Ok(c) => (r matches Err(Error::Custom(m)) && m@ == "challenge timestamp outside tolerance"@)
                || (r matches Ok(b) && crate::messages::response_decode(b@) == Ok::<crate::messages::ResponseView, crate::messages::MessageFailure>(
                crate::messages::ResponseView {
                    signature: crate::ed25519::ed25519_signature(device_secret@, crate::claimant::challenge_payload(c)),
                    delegation_token: delegation_bytes@,
                    sub_delegation_chain: Seq::empty(),
                },
            )),
        },
{
    let keypair = match Ed25519KeyPair::from_secret_bytes(device_secret) {
        Ok(k) => k,
        Err(e) => return Err(e),
    };
    let claimant = crate::claimant::Claimant::new(keypair, IdentityDomain::new(domain));
    let challenge = match ChallengeMessage::decode(challenge_bytes) {
        Ok(c) => c,
        Err(e) => return Err(e),
    };
    let chain: Vec<Vec<u8>> = Vec::new();
    assert(crate::messages::bytes_views(chain@) =~= Seq::<Seq<u8>>::empty());
    let response = match claimant.create_response(&challenge, delegation_bytes, chain) {
        Ok(m) => m,
        Err(e) => return Err(e),
    };
    response.encode()
}

/// Verifies an encoded exchange as a verifier of a domain (placeholder
/// WireGuard key): a message that does not decode is refused with its
/// decoding error, HELLO first, then CHALLENGE, then RESPONSE; the master
/// key lookup in DNS is not available, so a decoded exchange is answered
/// with a `DnsLookupFailed` failure.
pub fn verify_exchange(domain: &str, hello_bytes: &[u8], challenge_bytes: &[u8], response_bytes: &[u8], service: &str, action: &str) -> (r: Result<ResultMessage>)
    ensures
        match crate::messages::hello_decode(hello_bytes@) {
            Err(f) => r matches Err(e) && crate::messages::message_failure_is(e, f),
            Ok(_) => match crate::messages::challenge_decode(challenge_bytes@) {
                Err(f) => r matches Err(e) && crate::messages::message_failure_is(e, f),
                Ok(_) => match crate::messages::response_decode(response_bytes@) {
                    Err(f) => r matches Err(e) && crate::messages::message_failure_is(e, f),
                    Ok(_) => r matches Ok(m) && m@ == crate::verification::verdict(
                        Some(crate::messages::ReasonCode::DnsLookupFailed),
                        Seq::new(32, |_i: int| 0u8),
                    ),
                },
            },
        },
{
    let verifier = crate::verification::Verifier::new(IdentityDomain::new(domain), zero_key(), None);
    let hello = match HelloMessage::decode(hello_bytes) {
        Ok(h) => h,
        Err(e) => return Err(e),
    };
    let challenge = match ChallengeMessage::decode(challenge_bytes) {
        Ok(c) => c,
        Err(e) => return Err(e),
    };
    let response = match ResponseMessage::decode(response_bytes) {
        Ok(m) => m,
        Err(e) => return Err(e),
    };
    verifier.verify_response(&hello, &challenge, &response, service, action)
}

} // verus!
