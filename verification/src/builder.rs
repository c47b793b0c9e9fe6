//! The builder of delegation tokens, and the clock it reads.

use vstd::prelude::*;
use crate::constants::{DEFAULT_DELEGATION_DURATION_SECS, MAX_DELEGATION_DURATION_SECS};
use crate::error::{Error, Result};
use crate::token::{opt_bytes, DelegationToken, TokenView};
use crate::types::{ActionPattern, DelegationId, ServicePattern};

verus! {

/// Calls `SystemTime::now` and `duration_since(UNIX_EPOCH)`, in seconds.
/// Nothing is stated of the result: it is the time.
#[verifier::external_body]
pub fn current_timestamp() -> (r: u64) {
    std::time::SystemTime::now().duration_since(std::time::UNIX_EPOCH).unwrap().as_secs()
}

/// What a builder holds.
pub struct BuilderView {
    pub delegator: Option<Seq<u8>>,
    pub delegate: Option<Seq<u8>>,
    pub issued_at: Option<u64>,
    pub expires_at: Option<u64>,
    pub delegation_id: Option<u128>,
    pub services: Seq<Seq<char>>,
    pub actions: Seq<Seq<char>>,
    pub max_uses: u64,
    pub attestation: Option<Seq<u8>>,
    pub can_sub_delegate: bool,
}

/// A builder that holds nothing yet.
pub open spec fn empty_builder() -> BuilderView {
    BuilderView {
        delegator: None,
        delegate: None,
        issued_at: None,
        expires_at: None,
        delegation_id: None,
        services: Seq::empty(),
        actions: Seq::empty(),
        max_uses: 0,
        attestation: None,
        can_sub_delegate: false,
    }
}

/// The issuance time a build at `now` uses.
pub open spec fn built_issued_at(b: BuilderView, now: u64) -> u64 {
    match b.issued_at {
        Some(x) => x,
        None => now,
    }
}

/// Whether a build at `now` computes its default expiry without overflow.
pub open spec fn build_in_range(b: BuilderView, now: u64) -> bool {
    b.expires_at is Some || built_issued_at(b, now) + DEFAULT_DELEGATION_DURATION_SECS <= u64::MAX
}

/// What building at time `now` gives, with `fresh` as the ID where none was
/// set: the token, or the message of the `InvalidDelegation` error.
pub open spec fn build_outcome(b: BuilderView, now: u64, fresh: u128) -> core::result::Result<TokenView, Seq<char>> {
    match b.delegator {
        None => Err("Missing delegator"@),
        Some(dr) => match b.delegate {
            None => Err("Missing delegate"@),
            Some(de) => {
                let ia = built_issued_at(b, now);
                let ea = match b.expires_at {
                    Some(x) => x,
                    None => (ia + DEFAULT_DELEGATION_DURATION_SECS) as u64,
                };
                if ea <= ia {
                    Err("Expiry must be after issuance"@)
                } else if ea - ia > MAX_DELEGATION_DURATION_SECS {
                    Err("Duration exceeds maximum of 2592000 seconds"@)
                } else {
                    Ok(
                        TokenView {
                            delegator: dr,
                            delegate: de,
                            issued_at: ia,
                            expires_at: ea,
                            delegation_id: match b.delegation_id {
                                Some(id) => id,
                                None => fresh,
                            },
                            services: b.services,
                            actions: b.actions,
                            max_uses: b.max_uses,
                            attestation: b.attestation,
                            can_sub_delegate: b.can_sub_delegate,
                        },
                    )
                }
            },
        },
    }
}

/// The builder with the expiry `d` seconds after `now`, and the issuance
/// time `now` where none was set.
pub open spec fn expires_in_view(b: BuilderView, now: u64, d: u64) -> BuilderView {
    BuilderView {
        expires_at: Some((now + d) as u64),
        issued_at: match b.issued_at {
            Some(x) => Some(x),
            None => Some(now),
        },
        ..b
    }
}

/// What setting the expiry `d` seconds from now makes of the builder when
/// the clock reads `now`: the expiry and issuance of `expires_in_view`, or
/// the builder unchanged where `now + d` would not fit in a `u64`.
pub open spec fn expires_in_outcome(b: BuilderView, now: u64, d: u64) -> BuilderView {
    if now + d <= u64::MAX {
        expires_in_view(b, now, d)
    } else {
        b
    }
}

/// Whether `r` answers the build outcome `o`.
pub open spec fn build_answers(r: Result<DelegationToken>, o: core::result::Result<TokenView, Seq<char>>) -> bool {
    match o {
        Ok(v) => r matches Ok(t) && t@ == v,
        Err(m) => r matches Err(Error::InvalidDelegation(s)) && s@ == m,
    }
}

/// Builder of delegation tokens.
pub struct DelegationTokenBuilder {
    delegator: Option<Vec<u8>>,
    delegate: Option<Vec<u8>>,
    issued_at: Option<u64>,
    expires_at: Option<u64>,
    delegation_id: Option<DelegationId>,
    services: Vec<ServicePattern>,
    actions: Vec<ActionPattern>,
    max_uses: u64,
    attestation: Option<Vec<u8>>,
    can_sub_delegate: bool,
}

impl View for DelegationTokenBuilder {
    type V = BuilderView;

    closed spec fn view(&self) -> BuilderView {
        BuilderView {
            delegator: opt_bytes(self.delegator),
            delegate: opt_bytes(self.delegate),
            issued_at: self.issued_at,
            expires_at: self.expires_at,
            delegation_id: match self.delegation_id {
                Some(id) => Some(id@),
                None => None,
            },
            services: self.services.deep_view(),
            actions: self.actions.deep_view(),
            max_uses: self.max_uses,
            attestation: opt_bytes(self.attestation),
            can_sub_delegate: self.can_sub_delegate,
        }
    }
}

impl DelegationTokenBuilder {
    /// A builder that holds nothing yet.
    pub fn new() -> (b: DelegationTokenBuilder)
        ensures
            b@ == empty_builder(),
    {
        let b = DelegationTokenBuilder {
            delegator: None,
            delegate: None,
            issued_at: None,
            expires_at: None,
            delegation_id: None,
            services: Vec::new(),
            actions: Vec::new(),
            max_uses: 0,
            attestation: None,
            can_sub_delegate: false,
        };
        assert(b@.services =~= Seq::<Seq<char>>::empty());
        assert(b@.actions =~= Seq::<Seq<char>>::empty());
        b
    }

    /// Sets the delegator's public key.
    pub fn delegator(self, public_key: Vec<u8>) -> (b: DelegationTokenBuilder)
        ensures
            b@ == (BuilderView { delegator: Some(public_key@), ..self@ }),
    {
        let mut s = self;
        s.delegator = Some(public_key);
        s
    }

    /// Sets the delegate's public key.
    pub fn delegate(self, public_key: Vec<u8>) -> (b: DelegationTokenBuilder)
        ensures
            b@ == (BuilderView { delegate: Some(public_key@), ..self@ }),
    {
        let mut s = self;
        s.delegate = Some(public_key);
        s
    }

    /// Sets the issuance time.
    pub fn issued_at(self, timestamp: u64) -> (b: DelegationTokenBuilder)
        ensures
            b@ == (BuilderView { issued_at: Some(timestamp), ..self@ }),
    {
        let mut s = self;
        s.issued_at = Some(timestamp);
        s
    }

    /// Sets the expiry time.
    pub fn expires_at(self, timestamp: u64) -> (b: DelegationTokenBuilder)
        ensures
            b@ == (BuilderView { expires_at: Some(timestamp), ..self@ }),
    {
        let mut s = self;
        s.expires_at = Some(timestamp);
        s
    }

    /// Sets the expiry to `duration_secs` after `now`, and the issuance time
    /// to `now` where none was set.
    pub fn expires_in_at(self, now: u64, duration_secs: u64) -> (b: DelegationTokenBuilder)
        requires
            now + duration_secs <= u64::MAX,
        ensures
            b@ == expires_in_view(self@, now, duration_secs),
    {
        let mut s = self;
        s.expires_at = Some(now + duration_secs);
        if s.issued_at.is_none() {
            s.issued_at = Some(now);
        }
        s
    }

    /// Sets the expiry to `duration_secs` from now (the clock), and the
    /// issuance time to now where none was set. Where the expiry would not
    /// fit in a `u64`, the builder is left unchanged.
    pub fn expires_in(self, duration_secs: u64) -> (b: DelegationTokenBuilder)
        ensures
            exists|now: u64| b@ == #[trigger] expires_in_outcome(self@, now, duration_secs),
    {
        let ghost before = self@;
        let now = current_timestamp();
        let b = if now <= u64::MAX - duration_secs {
            self.expires_in_at(now, duration_secs)
        } else {
            self
        };
        assert(b@ == expires_in_outcome(before, now, duration_secs));
        b
    }

    /// Sets the delegation ID.
    pub fn delegation_id(self, id: DelegationId) -> (b: DelegationTokenBuilder)
        ensures
            b@ == (BuilderView { delegation_id: Some(id@), ..self@ }),
    {
        let mut s = self;
        s.delegation_id = Some(id);
        s
    }

    /// Adds a permitted service pattern.
    pub fn service(self, pattern: &str) -> (b: DelegationTokenBuilder)
        ensures
            b@ == (BuilderView { services: self@.services.push(pattern@), ..self@ }),
    {
        let mut s = self;
        let ghost before = s.services.deep_view();
        s.services.push(ServicePattern::new(pattern));
        assert(s.services.deep_view() =~= before.push(pattern@));
        s
    }

    /// Sets the permitted service patterns.
    pub fn services(self, patterns: Vec<ServicePattern>) -> (b: DelegationTokenBuilder)
        ensures
            b@ == (BuilderView { services: patterns.deep_view(), ..self@ }),
    {
        let mut s = self;
        s.services = patterns;
        s
    }

    /// Adds a permitted action pattern.
    pub fn action(self, pattern: &str) -> (b: DelegationTokenBuilder)
        ensures
            b@ == (BuilderView { actions: self@.actions.push(pattern@), ..self@ }),
    {
        let mut s = self;
        let ghost before = s.actions.deep_view();
        s.actions.push(ActionPattern::new(pattern));
        assert(s.actions.deep_view() =~= before.push(pattern@));
        s
    }

    /// Sets the permitted action patterns.
    pub fn actions(self, patterns: Vec<ActionPattern>) -> (b: DelegationTokenBuilder)
        ensures
            b@ == (BuilderView { actions: patterns.deep_view(), ..self@ }),
    {
        let mut s = self;
        s.actions = patterns;
        s
    }

    /// Sets the maximum number of uses (0 = unlimited).
    pub fn max_uses(self, count: u64) -> (b: DelegationTokenBuilder)
        ensures
            b@ == (BuilderView { max_uses: count, ..self@ }),
    {
        let mut s = self;
        s.max_uses = count;
        s
    }

    /// Sets the device attestation.
    pub fn attestation(self, data: Vec<u8>) -> (b: DelegationTokenBuilder)
        ensures
            b@ == (BuilderView { attestation: Some(data@), ..self@ }),
    {
        let mut s = self;
        s.attestation = Some(data);
        s
    }

    /// Sets whether sub-delegations may be made.
    pub fn can_sub_delegate(self, enabled: bool) -> (b: DelegationTokenBuilder)
        ensures
            b@ == (BuilderView { can_sub_delegate: enabled, ..self@ }),
    {
        let mut s = self;
        s.can_sub_delegate = enabled;
        s
    }

    /// Builds the token at time `now`, with `fresh_id` as its ID where none
    /// was set.
    pub fn build_at(self, now: u64, fresh_id: DelegationId) -> (r: Result<DelegationToken>)
        requires
            build_in_range(self@, now),
        ensures
            build_answers(r, build_outcome(self@, now, fresh_id@)),
    {
        let delegator = match self.delegator {
            Some(d) => d,
            None => return Err(Error::InvalidDelegation(String::from_str("Missing delegator"))),
        };
        let delegate = match self.delegate {
            Some(d) => d,
            None => return Err(Error::InvalidDelegation(String::from_str("Missing delegate"))),
        };
        let issued_at = match self.issued_at {
            Some(x) => x,
            None => now,
        };
        let expires_at = match self.expires_at {
            Some(x) => x,
            None => issued_at + DEFAULT_DELEGATION_DURATION_SECS,
        };
        if expires_at <= issued_at {
            return Err(Error::InvalidDelegation(String::from_str("Expiry must be after issuance")));
        }
        if expires_at - issued_at > MAX_DELEGATION_DURATION_SECS {
            return Err(
                Error::InvalidDelegation(
                    String::from_str("Duration exceeds maximum of 2592000 seconds"),
                ),
            );
        }
        let delegation_id = match self.delegation_id {
            Some(id) => id,
            None => fresh_id,
        };
        Ok(DelegationToken {
            delegator,
            delegate,
            issued_at,
            expires_at,
            delegation_id,
            services: self.services,
            actions: self.actions,
            max_uses: self.max_uses,
            attestation: self.attestation,
            can_sub_delegate: self.can_sub_delegate,
        })
    }

    /// Builds the token now (the clock), with a new random ID where none was
    /// set. Where the default expiry after the clock's time would not fit in
    /// a `u64`, the result is `Error::Custom("timestamp out of range")`.
    pub fn build(self) -> (r: Result<DelegationToken>)
        requires
            self@.expires_at is None && self@.issued_at is Some ==> self@.issued_at->0
                + DEFAULT_DELEGATION_DURATION_SECS <= u64::MAX,
        ensures
            (r matches Err(Error::Custom(m)) && m@ == "timestamp out of range"@) || exists|
                now: u64,
                fresh: u128,
            | build_in_range(self@, now) && build_answers(r, #[trigger] build_outcome(self@, now, fresh)),
            (r matches Err(Error::Custom(_))) ==> self@.expires_at is None && self@.issued_at is None,
    {
        let now = current_timestamp();
        if !(self.expires_at.is_some() || self.issued_at.is_some() || now
            <= u64::MAX - DEFAULT_DELEGATION_DURATION_SECS) {
            return Err(Error::Custom(String::from_str("timestamp out of range")));
        }
        let fresh = DelegationId::new();
        self.build_at(now, fresh)
    }
}

} // verus!
