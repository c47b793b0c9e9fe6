//! Validation of a delegation token against the context of a request:
//! expiry, clock skew, service and action scope, and use count.

use vstd::prelude::*;
use crate::builder::current_timestamp;
use crate::constants::TIMESTAMP_TOLERANCE_SECS;
use crate::error::{Error, Result};
use crate::token::{DelegationToken, TokenView};
use crate::types::{action_matches, service_matches};

verus! {

/// What a validation context holds.
pub struct ContextView {
    pub current_time: u64,
    pub service: Option<Seq<char>>,
    pub action: Option<Seq<char>>,
    pub use_count: Option<u64>,
}

/// Context of a validation: the time, and the service, action and use
/// count of the request where they are known.
pub struct ValidationContext {
    /// Current timestamp for the expiry check.
    pub current_time: u64,
    /// Service being accessed.
    pub service: Option<String>,
    /// Action being performed.
    pub action: Option<String>,
    /// Current use count (for the max-uses check).
    pub use_count: Option<u64>,
}

/// The view of an optional string.
pub open spec fn opt_text(o: Option<String>) -> Option<Seq<char>> {
    match o {
        Some(s) => Some(s@),
        None => None,
    }
}

impl View for ValidationContext {
    type V = ContextView;

    open spec fn view(&self) -> ContextView {
        ContextView {
            current_time: self.current_time,
            service: opt_text(self.service),
            action: opt_text(self.action),
            use_count: self.use_count,
        }
    }
}

impl ValidationContext {
    /// A context at time `now`, with nothing else known.
    pub fn at(now: u64) -> (c: ValidationContext)
        ensures
            c@ == (ContextView { current_time: now, service: None, action: None, use_count: None }),
    {
        ValidationContext { current_time: now, service: None, action: None, use_count: None }
    }

    /// A context at the current time (the clock), with nothing else known.
    pub fn new() -> (c: ValidationContext)
        ensures
            c@.service is None && c@.action is None && c@.use_count is None,
    {
        Self::at(current_timestamp())
    }

    /// Sets the service being accessed.
    pub fn with_service(self, service: &str) -> (c: ValidationContext)
        ensures
            c@ == (ContextView { service: Some(service@), ..self@ }),
    {
        let mut s = self;
        s.service = Some(String::from_str(service));
        s
    }

    /// Sets the action being performed.
    pub fn with_action(self, action: &str) -> (c: ValidationContext)
        ensures
            c@ == (ContextView { action: Some(action@), ..self@ }),
    {
        let mut s = self;
        s.action = Some(String::from_str(action));
        s
    }

    /// Sets the current use count.
    pub fn with_use_count(self, count: u64) -> (c: ValidationContext)
        ensures
            c@ == (ContextView { use_count: Some(count), ..self@ }),
    {
        let mut s = self;
        s.use_count = Some(count);
        s
    }

    /// Sets the time.
    pub fn with_timestamp(self, timestamp: u64) -> (c: ValidationContext)
        ensures
            c@ == (ContextView { current_time: timestamp, ..self@ }),
    {
        let mut s = self;
        s.current_time = timestamp;
        s
    }
}

/// Whether `service` is permitted by the patterns: all are where there is
/// no pattern, else one must match.
pub open spec fn service_permitted(patterns: Seq<Seq<char>>, service: Seq<char>) -> bool {
    patterns.len() == 0 || exists|i: int| 0 <= i < patterns.len() && service_matches(#[trigger] patterns[i], service)
}

/// Whether `action` is permitted by the patterns: all are where there is no
/// pattern, else one must match.
pub open spec fn action_permitted(patterns: Seq<Seq<char>>, action: Seq<char>) -> bool {
    patterns.len() == 0 || exists|i: int| 0 <= i < patterns.len() && action_matches(#[trigger] patterns[i], action)
}

/// Why a token is refused in a context.
pub enum Refusal {
    /// `Error::DelegationExpired` with the expiry time.
    Expired(u64),
    /// `Error::TimestampOutOfTolerance` with the issuance time.
    IssuedInFuture(u64),
    /// `Error::ServiceNotPermitted` with the service.
    Service(Seq<char>),
    /// `Error::ActionNotPermitted` with the action.
    Action(Seq<char>),
    /// `Error::MaxUsesExceeded` with the maximum.
    Uses(u64),
}

/// Whether the error `e` is the refusal `f`.
pub open spec fn refusal_is(e: Error, f: Refusal) -> bool {
    match f {
        Refusal::Expired(n) => e == Error::DelegationExpired(n),
        Refusal::IssuedInFuture(n) => e == Error::TimestampOutOfTolerance(n),
        Refusal::Service(s) => e matches Error::ServiceNotPermitted(x) && x@ == s,
        Refusal::Action(a) => e matches Error::ActionNotPermitted(x) && x@ == a,
        Refusal::Uses(n) => e == Error::MaxUsesExceeded(n),
    }
}

/// The first check that a token fails in a context, in the order: expiry,
/// issuance more than the tolerance in the future, service, action, uses.
pub open spec fn validation_refusal(t: TokenView, c: ContextView) -> Option<Refusal> {
    if c.current_time >= t.expires_at {
        Some(Refusal::Expired(t.expires_at))
    } else if t.issued_at > c.current_time + TIMESTAMP_TOLERANCE_SECS {
        Some(Refusal::IssuedInFuture(t.issued_at))
    } else if c.service is Some && !service_permitted(t.services, c.service->0) {
        Some(Refusal::Service(c.service->0))
    } else if c.action is Some && !action_permitted(t.actions, c.action->0) {
        Some(Refusal::Action(c.action->0))
    } else if c.use_count is Some && t.max_uses > 0 && c.use_count->0 >= t.max_uses {
        Some(Refusal::Uses(t.max_uses))
    } else {
        None
    }
}

/// Limits on uses: a token whose `max_uses` is 0 has unlimited uses and is
/// never refused for its use count, nor is any token checked without a
/// use count; a refusal for uses names the token's limit, which the
/// context's count has reached.
pub proof fn use_limit_law(t: TokenView, c: ContextView)
    ensures
        t.max_uses == 0 ==> !(validation_refusal(t, c) matches Some(Refusal::Uses(_))),
        c.use_count is None ==> !(validation_refusal(t, c) matches Some(Refusal::Uses(_))),
        validation_refusal(t, c) matches Some(Refusal::Uses(m)) ==> {
            &&& m == t.max_uses
            &&& m > 0
            &&& c.use_count matches Some(n) && n >= m
        },
        ({
            &&& c.current_time < t.expires_at
            &&& t.issued_at <= c.current_time + TIMESTAMP_TOLERANCE_SECS
            &&& (c.service matches Some(s) ==> service_permitted(t.services, s))
            &&& (c.action matches Some(a) ==> action_permitted(t.actions, a))
            &&& t.max_uses > 0
            &&& c.use_count matches Some(n) && n >= t.max_uses
        }) ==> validation_refusal(t, c) == Some(Refusal::Uses(t.max_uses)),
{
}

/// What makes a token refused or accepted in a context, over all tokens and
/// contexts:
/// - it is refused as expired exactly when the time has reached its expiry;
/// - a token that has not expired, is issued no more than the tolerance
///   after the context's time, permits the requested service and action,
///   and is within its use limit is accepted;
/// - a refusal for the service, the action or the issuance time names
///   what was not permitted.
pub proof fn validation_law(t: TokenView, c: ContextView)
    ensures
        (validation_refusal(t, c) matches Some(Refusal::Expired(e))) <==> c.current_time >= t.expires_at,
        validation_refusal(t, c) matches Some(Refusal::Expired(e)) ==> e == t.expires_at,
        ({
            &&& c.current_time < t.expires_at
            &&& t.issued_at <= c.current_time + TIMESTAMP_TOLERANCE_SECS
            &&& (c.service matches Some(s) ==> service_permitted(t.services, s))
            &&& (c.action matches Some(a) ==> action_permitted(t.actions, a))
            &&& (c.use_count matches Some(n) ==> t.max_uses == 0 || n < t.max_uses)
        }) ==> validation_refusal(t, c) is None,
        validation_refusal(t, c) matches Some(Refusal::IssuedInFuture(i)) ==> i == t.issued_at && t.issued_at
            > c.current_time + TIMESTAMP_TOLERANCE_SECS,
        validation_refusal(t, c) matches Some(Refusal::Service(s)) ==> c.service == Some(s)
            && !service_permitted(t.services, s),
        validation_refusal(t, c) matches Some(Refusal::Action(a)) ==> c.action == Some(a)
            && !action_permitted(t.actions, a),
        validation_refusal(t, c) is None ==> c.current_time < t.expires_at && (c.service matches Some(s)
            ==> service_permitted(t.services, s)) && (c.action matches Some(a) ==> action_permitted(t.actions, a)),
{
}

/// The signed value of a `u64` cast to `i64` (two's complement).
pub open spec fn as_i64(x: u64) -> int {
    if x <= i64::MAX {
        x as int
    } else {
        x - 0x1_0000_0000_0000_0000
    }
}

/// `x as i64`, written without a truncating cast.
fn to_i64_wrapping(x: u64) -> (r: i64)
    ensures
        r as int == as_i64(x),
{
    if x <= 0x7fff_ffff_ffff_ffff {
        x as i64
    } else {
        let low: u64 = x - 0x8000_0000_0000_0000;
        (low as i64) - 0x7fff_ffff_ffff_ffff - 1
    }
}

/// Validator of delegation tokens.
pub struct DelegationValidator;

impl DelegationValidator {
    /// Validates a token in a context: `Ok` where every check passes, else
    /// the error of the first that fails.
    pub fn validate(token: &DelegationToken, context: &ValidationContext) -> (r: Result<()>)
        ensures
            match validation_refusal(token@, context@) {
                None => r is Ok,
                Some(f) => r matches Err(e) && refusal_is(e, f),
            },
    {
        if context.current_time >= token.expires_at {
            return Err(Error::DelegationExpired(token.expires_at));
        }
        if token.issued_at > context.current_time.saturating_add(TIMESTAMP_TOLERANCE_SECS) {
            return Err(Error::TimestampOutOfTolerance(token.issued_at));
        }
        match &context.service {
            Some(service) => {
                match Self::check_service_permitted(token, service.as_str()) {
                    Ok(true) => {},
                    _ => return Err(Error::ServiceNotPermitted(service.clone())),
                }
            },
            None => {},
        }
        match &context.action {
            Some(action) => {
                match Self::check_action_permitted(token, action.as_str()) {
                    Ok(true) => {},
                    _ => return Err(Error::ActionNotPermitted(action.clone())),
                }
            },
            None => {},
        }
        match context.use_count {
            Some(use_count) => {
                if token.max_uses > 0 && use_count >= token.max_uses {
                    return Err(Error::MaxUsesExceeded(token.max_uses));
                }
            },
            None => {},
        }
        Ok(())
    }

    /// Whether the token permits the service.
    pub fn check_service_permitted(token: &DelegationToken, service: &str) -> (r: Result<bool>)
        ensures
            r == Ok::<bool, Error>(service_permitted(token@.services, service@)),
    {
        if token.services.len() == 0 {
            return Ok(true);
        }
        let mut i: usize = 0;
        while i < token.services.len()
            invariant
                i <= token.services@.len(),
                token@.services.len() == token.services@.len(),
                forall|k: int| 0 <= k < i ==> !service_matches(#[trigger] token@.services[k], service@),
            decreases token.services@.len() - i,
        {
            if token.services[i].matches(service) {
                assert(service_matches(token@.services[i as int], service@));
                return Ok(true);
            }
            i = i + 1;
        }
        Ok(false)
    }

    /// Whether the token permits the action.
    pub fn check_action_permitted(token: &DelegationToken, action: &str) -> (r: Result<bool>)
        ensures
            r == Ok::<bool, Error>(action_permitted(token@.actions, action@)),
    {
        if token.actions.len() == 0 {
            return Ok(true);
        }
        let mut i: usize = 0;
        while i < token.actions.len()
            invariant
                i <= token.actions@.len(),
                token@.actions.len() == token.actions@.len(),
                forall|k: int| 0 <= k < i ==> !action_matches(#[trigger] token@.actions[k], action@),
            decreases token.actions@.len() - i,
        {
            if token.actions[i].matches(action) {
                assert(action_matches(token@.actions[i as int], action@));
                return Ok(true);
            }
            i = i + 1;
        }
        Ok(false)
    }

    /// Whether the token has expired at time `now`.
    pub fn is_expired(token: &DelegationToken, now: u64) -> (r: bool)
        ensures
            r == (now >= token.expires_at),
    {
        now >= token.expires_at
    }

    /// Seconds of validity left at time `now` (negative once expired), with
    /// both times taken as `i64`.
    pub fn remaining_validity(token: &DelegationToken, now: u64) -> (r: i64)
        requires
            i64::MIN <= as_i64(token.expires_at) - as_i64(now) <= i64::MAX,
        ensures
            r as int == as_i64(token.expires_at) - as_i64(now),
    {
        let e = to_i64_wrapping(token.expires_at);
        let n = to_i64_wrapping(now);
        e - n
    }
}

} // verus!
