//! The claimant of the challenge-response protocol: it says HELLO, answers a
//! CHALLENGE with a signature and its delegation, and reads the RESULT.

use vstd::prelude::*;
use crate::builder::current_timestamp;
use crate::bytes::to_vec;
use crate::ed25519::{checked_ok, ed25519_public, ed25519_signature, ed25519_verify_outcome, Ed25519KeyPair};
use crate::error::{Error, Result};
use crate::messages::{
    bytes_views, within_tolerance, ChallengeMessage, ChallengeView, HelloMessage, HelloView,
    ReasonCode, ResponseMessage, ResponseView, ResultMessage,
};
use crate::token::opt_bytes;
use crate::types::IdentityDomain;

verus! {

/// The little-endian bytes of a `u64`.
pub open spec fn le_bytes(x: u64) -> Seq<u8> {
    Seq::new(8, |i: int| ((x >> ((8 * i) as u64)) % 256) as u8)
}

/// What a claimant signs for a challenge: the nonce, the timestamp (8
/// bytes, little-endian) and the verifier's domain (UTF-8).
pub open spec fn challenge_payload(c: ChallengeView) -> Seq<u8> {
    c.nonce + le_bytes(c.timestamp) + vstd::utf8::encode_utf8(c.verifier_domain)
}

/// The bytes a claimant signs for a challenge.
pub fn challenge_payload_bytes(challenge: &ChallengeMessage) -> (r: Vec<u8>)
    ensures
        r@ == challenge_payload(challenge@),
{
    let mut payload = to_vec(challenge.nonce.as_slice());
    let ghost n = payload@;
    let mut i: u64 = 0;
    while i < 8
        invariant
            i <= 8,
            payload@ == n + le_bytes(challenge.timestamp).subrange(0, i as int),
        decreases 8 - i,
    {
        let b: u8 = ((challenge.timestamp >> (8 * i)) % 256) as u8;
        let ghost before = payload@;
        payload.push(b);
        assert(payload@ =~= n + le_bytes(challenge.timestamp).subrange(0, i + 1));
        i = i + 1;
    }
    assert(le_bytes(challenge.timestamp).subrange(0, 8) =~= le_bytes(challenge.timestamp));
    let domain_bytes = challenge.verifier_domain.as_str().as_bytes();
    let ghost m = payload@;
    let mut j: usize = 0;
    while j < domain_bytes.len()
        invariant
            j <= domain_bytes@.len(),
            payload@ == m + domain_bytes@.subrange(0, j as int),
        decreases domain_bytes@.len() - j,
    {
        payload.push(domain_bytes[j]);
        assert(payload@ =~= m + domain_bytes@.subrange(0, j + 1));
        j = j + 1;
    }
    assert(domain_bytes@.subrange(0, domain_bytes@.len() as int) =~= domain_bytes@);
    payload
}

/// Outcome of a verification, as the claimant sees it.
#[derive(Debug, Clone)]
pub struct VerificationOutcome {
    pub verified: bool,
    pub reason: ReasonCode,
    pub wireguard_public_key: Option<Vec<u8>>,
}

impl VerificationOutcome {
    /// Whether the verification succeeded.
    pub fn is_success(&self) -> (r: bool)
        ensures
            r == self.verified,
    {
        self.verified
    }
}

/// The claimant: a device key and the identity domain it acts for.
pub struct Claimant {
    device_key: Ed25519KeyPair,
    identity_domain: IdentityDomain,
}

impl Claimant {
    /// A claimant with a device key, acting for an identity domain.
    pub fn new(device_key: Ed25519KeyPair, identity_domain: IdentityDomain) -> (c: Claimant)
        ensures
            c.device_secret() == device_key@,
            c.domain() == identity_domain@,
    {
        Claimant { device_key, identity_domain }
    }

    /// The secret key bytes of the device key.
    pub closed spec fn device_secret(&self) -> Seq<u8> {
        self.device_key@
    }

    /// The identity domain.
    pub closed spec fn domain(&self) -> Seq<char> {
        self.identity_domain@
    }

    /// The HELLO message: the identity domain and the device's public key.
    pub fn create_hello(&self) -> (r: Result<HelloMessage>)
        ensures
            r matches Ok(h) && h@ == (HelloView {
                identity_domain: self.domain(),
                device_public_key: ed25519_public(self.device_secret()),
            }),
            r matches Ok(h) ==> h@.device_public_key.len() == 32 && crate::ed25519::ed25519_key_check(
                h@.device_public_key,
            ) == checked_ok(),
    {
        let pk = self.device_key.public_key();
        Ok(HelloMessage::new(String::from_str(self.identity_domain.as_str()), pk.to_bytes()))
    }

    /// The RESPONSE to a challenge at time `now`: refused where the challenge's
    /// timestamp is more than 60 seconds from `now`; else the device key's
    /// signature of the challenge payload, which verifies under the device's
    /// public key, with the delegation token and the sub-delegation chain.
    pub fn create_response_at(&self, challenge: &ChallengeMessage, delegation_token: Vec<u8>, sub_delegation_chain: Vec<Vec<u8>>, now: u64) -> (r: Result<ResponseMessage>)
        ensures
            !within_tolerance(challenge.timestamp, now) ==> (r matches Err(Error::Custom(m)) && m@ == "challenge timestamp outside tolerance"@),
            within_tolerance(challenge.timestamp, now) ==> (r matches Ok(resp) && resp@ == (ResponseView {
                signature: ed25519_signature(self.device_secret(), challenge_payload(challenge@)),
                delegation_token: delegation_token@,
                sub_delegation_chain: bytes_views(sub_delegation_chain@),
            }) && ed25519_verify_outcome(ed25519_public(self.device_secret()), challenge_payload(challenge@), resp@.signature) == checked_ok()
                && resp@.signature.len() == 64),
    {
        if !challenge.is_timestamp_valid_at(now) {
            return Err(Error::Custom(String::from_str("challenge timestamp outside tolerance")));
        }
        let payload = challenge_payload_bytes(challenge);
        let signature = self.device_key.sign(payload.as_slice());
        Ok(ResponseMessage::new(signature.to_bytes(), delegation_token, sub_delegation_chain))
    }

    /// The RESPONSE to a challenge now (the clock).
    pub fn create_response(&self, challenge: &ChallengeMessage, delegation_token: Vec<u8>, sub_delegation_chain: Vec<Vec<u8>>) -> (r: Result<ResponseMessage>)
        ensures
            r matches Err(e) ==> (e matches Error::Custom(m) && m@ == "challenge timestamp outside tolerance"@),
            r matches Ok(resp) ==> resp@ == (ResponseView {
                signature: ed25519_signature(self.device_secret(), challenge_payload(challenge@)),
                delegation_token: delegation_token@,
                sub_delegation_chain: bytes_views(sub_delegation_chain@),
            }),
    {
        self.create_response_at(challenge, delegation_token, sub_delegation_chain, current_timestamp())
    }

    /// The outcome that a RESULT message reports.
    pub fn handle_result(&self, result: &ResultMessage) -> (r: Result<VerificationOutcome>)
        ensures
            r matches Ok(o) && o.verified == result.verified && o.reason == result.reason
                && opt_bytes(o.wireguard_public_key) == opt_bytes(result.wireguard_public_key),
    {
        let key = match &result.wireguard_public_key {
            Some(k) => Some(to_vec(k.as_slice())),
            None => None,
        };
        Ok(VerificationOutcome { verified: result.verified, reason: result.reason, wireguard_public_key: key })
    }

    /// The device key.
    pub fn device_key(&self) -> (k: &Ed25519KeyPair)
        ensures
            k@ == self.device_secret(),
    {
        &self.device_key
    }

    /// The identity domain.
    pub fn identity_domain(&self) -> (d: &IdentityDomain)
        ensures
            d@ == self.domain(),
    {
        &self.identity_domain
    }
}

} // verus!
