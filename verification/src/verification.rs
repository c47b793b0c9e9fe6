//! The verifier of the challenge-response protocol: it answers HELLO with a
//! CHALLENGE and checks a RESPONSE (delegation, expiry, revocation, scope,
//! signature, timestamp, device key) into a RESULT.

use vstd::prelude::*;
use crate::builder::current_timestamp;
use crate::bytes::bytes_eq;
use crate::claimant::{challenge_payload, challenge_payload_bytes};
use crate::ed25519::{ed25519_key_check, ed25519_verify_outcome, Ed25519PublicKey, Ed25519Signature};
use crate::error::{Error, Result};
use crate::messages::{
    within_tolerance, ChallengeMessage, ChallengeView, HelloMessage, HelloView, ReasonCode,
    ResponseMessage, ResponseView, ResultMessage, ResultView,
};
use crate::token::{cose_verify, DelegationToken, TokenView};
use crate::types::{DelegationId, IdentityDomain};
use crate::validator::{validation_refusal, ContextView, DelegationValidator, Refusal, ValidationContext};

verus! {

/// A source of revocation answers, for users to implement.
pub trait RevocationChecker {
    /// Whether `r` is an answer that this checker gives when asked about
    /// the delegation with ID `id` of the domain `domain`. A checker that
    /// does not say is taken to give any answer.
    closed spec fn answers(&self, domain: Seq<char>, id: u128, r: Result<bool>) -> bool {
        true
    }

    /// Whether the delegation of `domain` is revoked.
    fn is_revoked(&self, domain: &str, delegation_id: &DelegationId) -> (r: Result<bool>)
        ensures
            self.answers(domain@, delegation_id@, r),
    ;
}

/// A revocation checker with a fixed list of revoked IDs.
pub struct MockRevocationChecker {
    revoked_ids: Vec<DelegationId>,
}

impl MockRevocationChecker {
    /// A checker that revokes the given IDs.
    pub fn new(revoked_ids: Vec<DelegationId>) -> (c: MockRevocationChecker)
        ensures
            c.revoked() == revoked_ids@.map_values(|d: DelegationId| d@),
    {
        MockRevocationChecker { revoked_ids }
    }

    /// A checker that revokes nothing.
    pub fn allow_all() -> (c: MockRevocationChecker)
        ensures
            c.revoked() == Seq::<u128>::empty(),
    {
        let c = MockRevocationChecker { revoked_ids: Vec::new() };
        assert(c.revoked() =~= Seq::<u128>::empty());
        c
    }

    /// The revoked IDs.
    pub closed spec fn revoked(&self) -> Seq<u128> {
        self.revoked_ids@.map_values(|d: DelegationId| d@)
    }
}

impl RevocationChecker for MockRevocationChecker {
    /// The checker answers whether the ID is among its revoked ones,
    /// whatever the domain.
    open spec fn answers(&self, domain: Seq<char>, id: u128, r: Result<bool>) -> bool {
        r == Ok::<bool, Error>(self.revoked().contains(id))
    }

    fn is_revoked(&self, domain: &str, delegation_id: &DelegationId) -> (r: Result<bool>)
        ensures
            r == Ok::<bool, Error>(self.revoked().contains(delegation_id@)),
    {
        let mut i: usize = 0;
        while i < self.revoked_ids.len()
            invariant
                i <= self.revoked_ids@.len(),
                forall|k: int| 0 <= k < i ==> self.revoked_ids@[k]@ != delegation_id@,
            decreases self.revoked_ids@.len() - i,
        {
            if self.revoked_ids[i].as_uuid() == delegation_id.as_uuid() {
                assert(self.revoked()[i as int] == delegation_id@);
                return Ok(true);
            }
            i = i + 1;
        }
        assert forall|k: int| 0 <= k < self.revoked().len() implies self.revoked()[k] != delegation_id@ by {
            assert(self.revoked()[k] == self.revoked_ids@[k]@);
        }
        Ok(false)
    }
}

/// The failure, if any, of the checks that follow the revocation check: the
/// scope (service and action) at `now`, the sub-delegation chain's depth,
/// the device key, the response's signature over the challenge payload, the
/// challenge's timestamp at `now`, and that the delegation names the
/// device's key.
pub open spec fn final_checks(
    t: TokenView,
    hello: HelloView,
    challenge: ChallengeView,
    response: ResponseView,
    service: Seq<char>,
    action: Seq<char>,
    now: u64,
) -> Option<ReasonCode> {
    let ctx = ContextView { current_time: now, service: Some(service), action: Some(action), use_count: None };
    match validation_refusal(t, ctx) {
        Some(Refusal::Expired(_)) => Some(ReasonCode::DelegationExpired),
        Some(_) => Some(ReasonCode::ScopeViolation),
        None => if response.sub_delegation_chain.len() > 3 {
            Some(ReasonCode::ChainTooDeep)
        } else if hello.device_public_key.len() != 32 || ed25519_key_check(hello.device_public_key) is Err {
            Some(ReasonCode::DelegationInvalid)
        } else if response.signature.len() != 64 {
            Some(ReasonCode::NonceMismatch)
        } else if ed25519_verify_outcome(hello.device_public_key, challenge_payload(challenge), response.signature) is Err {
            Some(ReasonCode::NonceMismatch)
        } else if !within_tolerance(challenge.timestamp, now) {
            Some(ReasonCode::TimestampSkew)
        } else if t.delegate != hello.device_public_key {
            Some(ReasonCode::DelegationInvalid)
        } else {
            None
        },
    }
}

/// The RESULT for a failure reason, or success with the verifier's key.
pub open spec fn verdict(failure: Option<ReasonCode>, wireguard_key: Seq<u8>) -> ResultView {
    match failure {
        Some(c) => ResultView { verified: false, reason: c, wireguard_public_key: None },
        None => ResultView { verified: true, reason: ReasonCode::Success, wireguard_public_key: Some(wireguard_key) },
    }
}

/// The verifier: its domain, its WireGuard key, its DNS resolver and its
/// optional revocation checker.
pub struct Verifier {
    domain: IdentityDomain,
    wireguard_public_key: Vec<u8>,
    dns_resolver: crate::resolver::DnsResolver,
    revocation_checker: Option<Box<dyn RevocationChecker>>,
}

impl Verifier {
    /// A verifier for a domain.
    pub fn new(domain: IdentityDomain, wireguard_public_key: Vec<u8>, revocation_checker: Option<Box<dyn RevocationChecker>>) -> (v: Verifier)
        ensures
            v.domain() == domain@,
            v.wireguard_key() == wireguard_public_key@,
            v.has_checker() == revocation_checker is Some,
            forall|domain: Seq<char>, id: u128, a: Result<bool>| #[trigger] v.checker_answers(domain, id, a)
                == (revocation_checker matches Some(c) && c.answers(domain, id, a)),
    {
        Verifier { domain, wireguard_public_key, dns_resolver: crate::resolver::DnsResolver::new(), revocation_checker }
    }

    /// The verifier's domain.
    pub closed spec fn domain(&self) -> Seq<char> {
        self.domain@
    }

    /// The verifier's WireGuard public key.
    pub closed spec fn wireguard_key(&self) -> Seq<u8> {
        self.wireguard_public_key@
    }

    /// Whether the verifier has a revocation checker.
    pub closed spec fn has_checker(&self) -> bool {
        self.revocation_checker is Some
    }

    /// Whether `a` is an answer that the verifier's revocation checker gives
    /// about the delegation with ID `id` of `domain` (never, without one).
    pub closed spec fn checker_answers(&self, domain: Seq<char>, id: u128, a: Result<bool>) -> bool {
        match self.revocation_checker {
            Some(c) => c.answers(domain, id, a),
            None => false,
        }
    }

    /// The CHALLENGE answering a HELLO: a random nonce, the current time and
    /// the verifier's domain.
    pub fn handle_hello(&self, hello: &HelloMessage) -> (r: Result<ChallengeMessage>)
        ensures
            r matches Ok(c) && c@.nonce.len() == 32 && c@.verifier_domain == self.domain(),
    {
        ChallengeMessage::generate(String::from_str(self.domain.as_str()))
    }

    /// The checks after the revocation check, at time `now`, for a delegation
    /// that verified and has not expired at `now`.
    pub fn finish_verification(&self, delegation: &DelegationToken, hello: &HelloMessage, challenge: &ChallengeMessage, response: &ResponseMessage, requested_service: &str, requested_action: &str, now: u64) -> (r: ResultMessage)
        requires
            now < delegation.expires_at,
        ensures
            r@ == verdict(final_checks(delegation@, hello@, challenge@, response@, requested_service@, requested_action@, now), self.wireguard_key()),
    {
        let context = ValidationContext::at(now).with_service(requested_service).with_action(requested_action);
        match DelegationValidator::validate(delegation, &context) {
            Ok(_) => {},
            Err(Error::DelegationExpired(_)) => return ResultMessage::failure(ReasonCode::DelegationExpired),
            Err(_) => return ResultMessage::failure(ReasonCode::ScopeViolation),
        }
        if response.sub_delegation_chain.len() > 3 {
            return ResultMessage::failure(ReasonCode::ChainTooDeep);
        }
        let device_public_key = match Ed25519PublicKey::from_bytes(hello.device_public_key.as_slice()) {
            Ok(k) => k,
            Err(_) => return ResultMessage::failure(ReasonCode::DelegationInvalid),
        };
        let payload = challenge_payload_bytes(challenge);
        if response.signature.len() != 64 {
            return ResultMessage::failure(ReasonCode::NonceMismatch);
        }
        let signature = match Ed25519Signature::from_bytes(response.signature.as_slice()) {
            Ok(s) => s,
            Err(_) => return ResultMessage::failure(ReasonCode::NonceMismatch),
        };
        if device_public_key.verify(payload.as_slice(), &signature).is_err() {
            return ResultMessage::failure(ReasonCode::NonceMismatch);
        }
        if !challenge.is_timestamp_valid_at(now) {
            return ResultMessage::failure(ReasonCode::TimestampSkew);
        }
        if !bytes_eq(delegation.delegate.as_slice(), hello.device_public_key.as_slice()) {
            return ResultMessage::failure(ReasonCode::DelegationInvalid);
        }
        let key = crate::bytes::to_vec(self.wireguard_public_key.as_slice());
        ResultMessage::success(key)
    }

    /// Verifies a RESPONSE at time `now`, with the master key that DNS gave
    /// for the claimant's domain: the delegation must verify under it and
    /// not have expired; the revocation checker (where there is one) is
    /// asked; then come the final checks. An error of the checker is passed
    /// on, and what it answers is not known here, so the contract says what
    /// holds for each answer it can give.
    pub fn verify_response_with_key(&self, master_key: &Ed25519PublicKey, hello: &HelloMessage, challenge: &ChallengeMessage, response: &ResponseMessage, requested_service: &str, requested_action: &str, now: u64) -> (r: Result<ResultMessage>)
        ensures
            match cose_verify(response.delegation_token@, master_key@) {
                Err(_) => r matches Ok(m) && m@ == verdict(Some(ReasonCode::DelegationInvalid), self.wireguard_key()),
                Ok(t) => if now >= t.expires_at {
                    r matches Ok(m) && m@ == verdict(Some(ReasonCode::DelegationExpired), self.wireguard_key())
                } else if !self.has_checker() {
                    r matches Ok(m) && m@ == verdict(final_checks(t, hello@, challenge@, response@, requested_service@, requested_action@, now), self.wireguard_key())
                } else {
                    exists|a: Result<bool>| #[trigger] self.checker_answers(hello@.identity_domain, t.delegation_id, a)
                        && match a {
                        Err(e) => r == Err::<ResultMessage, Error>(e),
                        Ok(true) => r matches Ok(m) && m@ == verdict(Some(ReasonCode::DelegationRevoked), self.wireguard_key()),
                        Ok(false) => r matches Ok(m) && m@ == verdict(final_checks(t, hello@, challenge@, response@, requested_service@, requested_action@, now), self.wireguard_key()),
                    }
                },
            },
    {
        let delegation = match DelegationToken::verify(response.delegation_token.as_slice(), master_key) {
            Ok(t) => t,
            Err(_) => return Ok(ResultMessage::failure(ReasonCode::DelegationInvalid)),
        };
        if now >= delegation.expires_at {
            return Ok(ResultMessage::failure(ReasonCode::DelegationExpired));
        }
        match &self.revocation_checker {
            Some(checker) => {
                let answer = checker.is_revoked(hello.identity_domain.as_str(), &delegation.delegation_id);
                assert(self.checker_answers(hello@.identity_domain, delegation@.delegation_id, answer));
                match answer {
                    Ok(true) => return Ok(ResultMessage::failure(ReasonCode::DelegationRevoked)),
                    Ok(false) => {},
                    Err(e) => return Err(e),
                }
            },
            None => {},
        }
        Ok(self.finish_verification(&delegation, hello, challenge, response, requested_service, requested_action, now))
    }

    /// Verifies a RESPONSE. Looking the claimant's master key up in DNS is not
    /// implemented, so the result is always a failure with reason
    /// `DnsLookupFailed`.
    pub fn verify_response(&self, hello: &HelloMessage, challenge: &ChallengeMessage, response: &ResponseMessage, requested_service: &str, requested_action: &str) -> (r: Result<ResultMessage>)
        ensures
            r matches Ok(m) && m@ == verdict(Some(ReasonCode::DnsLookupFailed), self.wireguard_key()),
    {
        match self.lookup_master_key(hello.identity_domain.as_str()) {
            Ok(key) => {
                let now = current_timestamp();
                self.verify_response_with_key(&key, hello, challenge, response, requested_service, requested_action, now)
            },
            Err(_) => Ok(ResultMessage::failure(ReasonCode::DnsLookupFailed)),
        }
    }

    /// The master key of a domain from DNS. Not implemented: always a DNS error.
    fn lookup_master_key(&self, domain: &str) -> (r: Result<Ed25519PublicKey>)
        ensures
            r matches Err(Error::Dns(m)) && m@ == "DNS lookup not implemented (placeholder)"@,
    {
        Err(Error::dns("DNS lookup not implemented (placeholder)"))
    }
}

/// The context in which the verifier checks a delegation at `now`.
pub open spec fn request_context(service: Seq<char>, action: Seq<char>, now: u64) -> ContextView {
    ContextView { current_time: now, service: Some(service), action: Some(action), use_count: None }
}

/// An honest exchange is accepted: where the HELLO carries a valid 32-byte
/// device key, the RESPONSE's 64-byte signature over the challenge payload
/// verifies under it, the challenge is within tolerance at `now`, the
/// delegation names that device key, permits the requested service and
/// action at `now`, and the chain has at most three links, the verifier
/// answers success with its WireGuard key.
pub proof fn honest_exchange_is_accepted(
    t: TokenView,
    hello: HelloView,
    challenge: ChallengeView,
    response: ResponseView,
    service: Seq<char>,
    action: Seq<char>,
    now: u64,
    wireguard_key: Seq<u8>,
)
    requires
        hello.device_public_key.len() == 32,
        ed25519_key_check(hello.device_public_key) == crate::ed25519::checked_ok(),
        response.signature.len() == 64,
        ed25519_verify_outcome(hello.device_public_key, challenge_payload(challenge), response.signature)
            == crate::ed25519::checked_ok(),
        within_tolerance(challenge.timestamp, now),
        t.delegate == hello.device_public_key,
        response.sub_delegation_chain.len() <= 3,
        validation_refusal(t, request_context(service, action, now)) is None,
    ensures
        verdict(final_checks(t, hello, challenge, response, service, action, now), wireguard_key) == (ResultView {
            verified: true,
            reason: ReasonCode::Success,
            wireguard_public_key: Some(wireguard_key),
        }),
{
}

/// Only an honest exchange is accepted: where the verifier answers
/// success, the delegation permits the request at `now`, the chain has at
/// most three links, the HELLO's device key is a valid 32-byte key, the
/// RESPONSE's signature over the challenge payload verifies under it, the
/// challenge is within tolerance, and the delegation names that device key.
pub proof fn accepted_exchange_is_honest(
    t: TokenView,
    hello: HelloView,
    challenge: ChallengeView,
    response: ResponseView,
    service: Seq<char>,
    action: Seq<char>,
    now: u64,
    wireguard_key: Seq<u8>,
)
    requires
        verdict(final_checks(t, hello, challenge, response, service, action, now), wireguard_key).verified,
    ensures
        validation_refusal(t, request_context(service, action, now)) is None,
        response.sub_delegation_chain.len() <= 3,
        hello.device_public_key.len() == 32,
        ed25519_key_check(hello.device_public_key) == crate::ed25519::checked_ok(),
        ed25519_verify_outcome(hello.device_public_key, challenge_payload(challenge), response.signature)
            == crate::ed25519::checked_ok(),
        within_tolerance(challenge.timestamp, now),
        t.delegate == hello.device_public_key,
{
    let ctx = request_context(service, action, now);
    assert(final_checks(t, hello, challenge, response, service, action, now) is None);
    match validation_refusal(t, ctx) {
        Some(_) => {},
        None => {},
    }
    match ed25519_key_check(hello.device_public_key) {
        Ok(u) => {
            assert(u == ());
        },
        Err(_) => {},
    }
    match ed25519_verify_outcome(hello.device_public_key, challenge_payload(challenge), response.signature) {
        Ok(u) => {
            assert(u == ());
        },
        Err(_) => {},
    }
}

/// Whether a delegation and an exchange pass every check that comes before
/// the signature: the delegation is valid for the request at `now`, the
/// chain has at most three links, and the HELLO's device key is a valid
/// 32-byte key.
pub open spec fn passes_checks_before_signature(
    t: TokenView,
    hello: HelloView,
    response: ResponseView,
    service: Seq<char>,
    action: Seq<char>,
    now: u64,
) -> bool {
    &&& validation_refusal(t, request_context(service, action, now)) is None
    &&& response.sub_delegation_chain.len() <= 3
    &&& hello.device_public_key.len() == 32
    &&& ed25519_key_check(hello.device_public_key) is Ok
}

/// The reason a refused exchange is given, for every exchange:
/// - an expired delegation is refused as expired;
/// - a delegation refused for anything else (issuance, service, action) as
///   a scope violation;
/// - a chain of more than three links as too deep;
/// - an invalid device key as an invalid delegation;
/// - a signature that is not 64 bytes, or that does not verify over the
///   challenge payload under the device key, as a nonce mismatch;
/// - a challenge outside the tolerance at `now` as a timestamp skew;
/// - a delegation that names another device key as an invalid delegation.
pub proof fn refusal_reason_law(
    t: TokenView,
    hello: HelloView,
    challenge: ChallengeView,
    response: ResponseView,
    service: Seq<char>,
    action: Seq<char>,
    now: u64,
)
    ensures
        now >= t.expires_at ==> final_checks(t, hello, challenge, response, service, action, now) == Some(
            ReasonCode::DelegationExpired,
        ),
        now < t.expires_at && validation_refusal(t, request_context(service, action, now)) is Some
            ==> final_checks(t, hello, challenge, response, service, action, now) == Some(ReasonCode::ScopeViolation),
        validation_refusal(t, request_context(service, action, now)) is None && response.sub_delegation_chain.len() > 3
            ==> final_checks(t, hello, challenge, response, service, action, now) == Some(ReasonCode::ChainTooDeep),
        validation_refusal(t, request_context(service, action, now)) is None && response.sub_delegation_chain.len() <= 3
            && (hello.device_public_key.len() != 32 || ed25519_key_check(hello.device_public_key) is Err)
            ==> final_checks(t, hello, challenge, response, service, action, now) == Some(ReasonCode::DelegationInvalid),
        passes_checks_before_signature(t, hello, response, service, action, now) && response.signature.len() != 64
            ==> final_checks(t, hello, challenge, response, service, action, now) == Some(ReasonCode::NonceMismatch),
        passes_checks_before_signature(t, hello, response, service, action, now) && response.signature.len() == 64
            && ed25519_verify_outcome(hello.device_public_key, challenge_payload(challenge), response.signature) is Err
            ==> final_checks(t, hello, challenge, response, service, action, now) == Some(ReasonCode::NonceMismatch),
        passes_checks_before_signature(t, hello, response, service, action, now) && response.signature.len() == 64
            && ed25519_verify_outcome(hello.device_public_key, challenge_payload(challenge), response.signature) is Ok
            && !within_tolerance(challenge.timestamp, now)
            ==> final_checks(t, hello, challenge, response, service, action, now) == Some(ReasonCode::TimestampSkew),
        passes_checks_before_signature(t, hello, response, service, action, now) && response.signature.len() == 64
            && ed25519_verify_outcome(hello.device_public_key, challenge_payload(challenge), response.signature) is Ok
            && within_tolerance(challenge.timestamp, now) && t.delegate != hello.device_public_key
            ==> final_checks(t, hello, challenge, response, service, action, now) == Some(ReasonCode::DelegationInvalid),
{
}

/// A RESULT is a success exactly when no check failed: it then carries the
/// verifier's WireGuard key and the reason `Success`; a failure carries
/// its reason and no key.
pub proof fn verdict_law(failure: Option<ReasonCode>, wireguard_key: Seq<u8>)
    ensures
        verdict(failure, wireguard_key).verified <==> failure is None,
        failure matches Some(c) ==> verdict(failure, wireguard_key).reason == c
            && verdict(failure, wireguard_key).wireguard_public_key is None,
        failure is None ==> verdict(failure, wireguard_key).reason == ReasonCode::Success
            && verdict(failure, wireguard_key).wireguard_public_key == Some(wireguard_key),
{
}

} // verus!
