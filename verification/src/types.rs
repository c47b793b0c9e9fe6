//! Core protocol types: identity domains and delegation scope patterns.

use vstd::prelude::*;
use crate::encoding::hex_digit_lower;
use crate::text::{concat2, ends_with, starts_with, str_eq};

verus! {

/// Identity domain (a DNS name), such as "example.com" or
/// "username.id.locd.net".
#[derive(Debug, Clone)]
pub struct IdentityDomain(String);

impl View for IdentityDomain {
    type V = Seq<char>;

    closed spec fn view(&self) -> Seq<char> {
        self.0@
    }
}

/// Whether `s` ends with `suffix`.
pub open spec fn seq_ends_with(s: Seq<char>, suffix: Seq<char>) -> bool {
    suffix.len() <= s.len() && s.subrange(s.len() - suffix.len(), s.len() as int) == suffix
}

/// Whether `s` starts with `prefix`.
pub open spec fn seq_starts_with(s: Seq<char>, prefix: Seq<char>) -> bool {
    prefix.len() <= s.len() && s.subrange(0, prefix.len() as int) == prefix
}

impl IdentityDomain {
    /// A new identity domain.
    pub fn new(domain: &str) -> (d: IdentityDomain)
        ensures
            d@ == domain@,
    {
        IdentityDomain(String::from_str(domain))
    }

    /// The domain as a string slice.
    pub fn as_str(&self) -> (r: &str)
        ensures
            r@ == self@,
    {
        self.0.as_str()
    }

    /// The DNS record name for identity lookup: "_locd.<domain>".
    pub fn identity_record_name(&self) -> (r: String)
        ensures
            r@ == "_locd."@ + self@,
    {
        concat2("_locd.", self.0.as_str())
    }

    /// The DNS record name for the revocation list: "_locd-revoke.<domain>".
    pub fn revocation_record_name(&self) -> (r: String)
        ensures
            r@ == "_locd-revoke."@ + self@,
    {
        concat2("_locd-revoke.", self.0.as_str())
    }

    /// The DNS record name for key rotation: "_locd-rotate.<domain>".
    pub fn rotation_record_name(&self) -> (r: String)
        ensures
            r@ == "_locd-rotate."@ + self@,
    {
        concat2("_locd-rotate.", self.0.as_str())
    }

    /// Whether this is a domain of the cooperative namespace (ends with ".id.locd.net").
    pub fn is_cooperative_namespace(&self) -> (r: bool)
        ensures
            r == seq_ends_with(self@, ".id.locd.net"@),
    {
        ends_with(self.0.as_str(), ".id.locd.net")
    }
}

/// Whether the service pattern `p` matches `service`: "*" matches all,
/// "*.<suffix>" matches services that end with `<suffix>` or equal it, and any
/// other pattern matches itself only.
pub open spec fn service_matches(p: Seq<char>, service: Seq<char>) -> bool {
    if p == "*"@ {
        true
    } else if seq_starts_with(p, "*."@) {
        let suffix = p.subrange(2, p.len() as int);
        seq_ends_with(service, suffix) || service == suffix
    } else {
        p == service
    }
}

/// Whether the action pattern `p` matches `action`: "*" matches all, any
/// other pattern matches itself only.
pub open spec fn action_matches(p: Seq<char>, action: Seq<char>) -> bool {
    p == "*"@ || p == action
}

/// How service patterns match: "*" matches every service; a pattern
/// "*.<suffix>" matches exactly the services that end with `<suffix>`; any
/// other pattern matches exactly the service equal to it.
pub proof fn service_match_law(p: Seq<char>, service: Seq<char>)
    ensures
        p == "*"@ ==> service_matches(p, service),
        seq_starts_with(p, "*."@) ==> (service_matches(p, service) <==> seq_ends_with(
            service,
            p.subrange(2, p.len() as int),
        )),
        p != "*"@ && !seq_starts_with(p, "*."@) ==> (service_matches(p, service) <==> p == service),
{
    reveal_strlit("*");
    reveal_strlit("*.");
    if seq_starts_with(p, "*."@) {
        assert(p != "*"@) by {
            assert(p.len() >= 2);
        }
        let suffix = p.subrange(2, p.len() as int);
        if service == suffix {
            assert(service.subrange(service.len() - suffix.len(), service.len() as int) =~= service);
        }
    }
}

/// How action patterns match: "*" matches every action; any other pattern
/// matches exactly the action equal to it.
pub proof fn action_match_law(p: Seq<char>, action: Seq<char>)
    ensures
        p == "*"@ ==> action_matches(p, action),
        p != "*"@ ==> (action_matches(p, action) <==> p == action),
{
}

/// Service pattern of a delegation scope, such as "*.example.com".
#[derive(Debug, Clone)]
pub struct ServicePattern(String);

impl View for ServicePattern {
    type V = Seq<char>;

    closed spec fn view(&self) -> Seq<char> {
        self.0@
    }
}

impl DeepView for ServicePattern {
    type V = Seq<char>;

    open spec fn deep_view(&self) -> Seq<char> {
        self@
    }
}

impl ServicePattern {
    /// A new service pattern.
    pub fn new(pattern: &str) -> (p: ServicePattern)
        ensures
            p@ == pattern@,
    {
        ServicePattern(String::from_str(pattern))
    }

    /// The pattern as a string slice.
    pub fn as_str(&self) -> (r: &str)
        ensures
            r@ == self@,
    {
        self.0.as_str()
    }

    /// Whether `service` matches this pattern.
    pub fn matches(&self, service: &str) -> (r: bool)
        ensures
            r == service_matches(self@, service@),
    {
        let p = self.0.as_str();
        if str_eq(p, "*") {
            true
        } else if starts_with(p, "*.") {
            proof {
                reveal_strlit("*.");
            }
            let n = p.unicode_len();
            let suffix = p.substring_char(2, n);
            ends_with(service, suffix) || str_eq(service, suffix)
        } else {
            str_eq(p, service)
        }
    }
}

/// Action pattern of a delegation scope, such as "read" or "*".
#[derive(Debug, Clone)]
pub struct ActionPattern(String);

impl View for ActionPattern {
    type V = Seq<char>;

    closed spec fn view(&self) -> Seq<char> {
        self.0@
    }
}

impl DeepView for ActionPattern {
    type V = Seq<char>;

    open spec fn deep_view(&self) -> Seq<char> {
        self@
    }
}

impl ActionPattern {
    /// A new action pattern.
    pub fn new(pattern: &str) -> (p: ActionPattern)
        ensures
            p@ == pattern@,
    {
        ActionPattern(String::from_str(pattern))
    }

    /// The pattern as a string slice.
    pub fn as_str(&self) -> (r: &str)
        ensures
            r@ == self@,
    {
        self.0.as_str()
    }

    /// Whether `action` matches this pattern.
    pub fn matches(&self, action: &str) -> (r: bool)
        ensures
            r == action_matches(self@, action@),
    {
        let p = self.0.as_str();
        str_eq(p, "*") || str_eq(p, action)
    }
}

/// The `k`-th hexadecimal digit (from the most significant) of a 128-bit value.
pub open spec fn uuid_nibble(u: u128, k: int) -> nat {
    ((u >> ((124 - 4 * k) as u128)) & 0xf) as nat
}

/// The index of the hex digit at position `i` of the hyphenated form.
pub open spec fn uuid_digit_index(i: int) -> int {
    if i < 8 {
        i
    } else if i < 13 {
        i - 1
    } else if i < 18 {
        i - 2
    } else if i < 23 {
        i - 3
    } else {
        i - 4
    }
}

/// The hyphenated lowercase form of a UUID: 8-4-4-4-12 hex digits.
pub open spec fn uuid_text(u: u128) -> Seq<char> {
    Seq::new(
        36,
        |i: int|
            if i == 8 || i == 13 || i == 18 || i == 23 {
                '-'
            } else {
                hex_digit_lower(uuid_nibble(u, uuid_digit_index(i)))
            },
    )
}

/// What `uuid::Uuid::parse_str` gives for a text: the UUID's 128-bit value,
/// or the text of its error.
pub uninterp spec fn uuid_parse_outcome(s: Seq<char>) -> core::result::Result<u128, Seq<char>>;

/// A successful parse giving the UUID `u`.
pub open spec fn uuid_parsed_as(u: u128) -> core::result::Result<u128, Seq<char>> {
    Ok(u)
}

/// Calls `uuid::Uuid::parse_str` (then `as_u128`, or `to_string` of the error).
/// Trusted: the outcome is `uuid_parse_outcome` of the text.
#[verifier::external_body]
fn uuid_parse_str(s: &str) -> (r: core::result::Result<u128, String>)
    ensures
        match r {
            Ok(u) => uuid_parse_outcome(s@) == uuid_parsed_as(u),
            Err(m) => uuid_parse_outcome(s@) == Err::<u128, Seq<char>>(m@),
        },
{
    uuid::Uuid::parse_str(s).map(|u| u.as_u128()).map_err(|e| e.to_string())
}

/// Calls `to_string` on `uuid::Uuid::from_u128(u)`.
/// Trusted: the text is the hyphenated lowercase form of the UUID, which
/// `Uuid::parse_str` parses back to the same UUID.
#[verifier::external_body]
fn uuid_to_string(u: u128) -> (r: String)
    ensures
        r@ == uuid_text(u),
        uuid_parse_outcome(r@) == uuid_parsed_as(u),
{
    uuid::Uuid::from_u128(u).to_string()
}

/// A 128-bit value is determined by its 32 nibbles.
proof fn lemma_nibbles_determine(a: u128, b: u128)
    by (bit_vector)
    requires
        (a >> 124u128) & 0xfu128 == (b >> 124u128) & 0xfu128,
        (a >> 120u128) & 0xfu128 == (b >> 120u128) & 0xfu128,
        (a >> 116u128) & 0xfu128 == (b >> 116u128) & 0xfu128,
        (a >> 112u128) & 0xfu128 == (b >> 112u128) & 0xfu128,
        (a >> 108u128) & 0xfu128 == (b >> 108u128) & 0xfu128,
        (a >> 104u128) & 0xfu128 == (b >> 104u128) & 0xfu128,
        (a >> 100u128) & 0xfu128 == (b >> 100u128) & 0xfu128,
        (a >> 96u128) & 0xfu128 == (b >> 96u128) & 0xfu128,
        (a >> 92u128) & 0xfu128 == (b >> 92u128) & 0xfu128,
        (a >> 88u128) & 0xfu128 == (b >> 88u128) & 0xfu128,
        (a >> 84u128) & 0xfu128 == (b >> 84u128) & 0xfu128,
        (a >> 80u128) & 0xfu128 == (b >> 80u128) & 0xfu128,
        (a >> 76u128) & 0xfu128 == (b >> 76u128) & 0xfu128,
        (a >> 72u128) & 0xfu128 == (b >> 72u128) & 0xfu128,
        (a >> 68u128) & 0xfu128 == (b >> 68u128) & 0xfu128,
        (a >> 64u128) & 0xfu128 == (b >> 64u128) & 0xfu128,
        (a >> 60u128) & 0xfu128 == (b >> 60u128) & 0xfu128,
        (a >> 56u128) & 0xfu128 == (b >> 56u128) & 0xfu128,
        (a >> 52u128) & 0xfu128 == (b >> 52u128) & 0xfu128,
        (a >> 48u128) & 0xfu128 == (b >> 48u128) & 0xfu128,
        (a >> 44u128) & 0xfu128 == (b >> 44u128) & 0xfu128,
        (a >> 40u128) & 0xfu128 == (b >> 40u128) & 0xfu128,
        (a >> 36u128) & 0xfu128 == (b >> 36u128) & 0xfu128,
        (a >> 32u128) & 0xfu128 == (b >> 32u128) & 0xfu128,
        (a >> 28u128) & 0xfu128 == (b >> 28u128) & 0xfu128,
        (a >> 24u128) & 0xfu128 == (b >> 24u128) & 0xfu128,
        (a >> 20u128) & 0xfu128 == (b >> 20u128) & 0xfu128,
        (a >> 16u128) & 0xfu128 == (b >> 16u128) & 0xfu128,
        (a >> 12u128) & 0xfu128 == (b >> 12u128) & 0xfu128,
        (a >> 8u128) & 0xfu128 == (b >> 8u128) & 0xfu128,
        (a >> 4u128) & 0xfu128 == (b >> 4u128) & 0xfu128,
        (a >> 0u128) & 0xfu128 == (b >> 0u128) & 0xfu128,
    ensures
        a == b,
{
}

/// Two hex digits below 16 that read the same are the same.
proof fn lemma_hex_digit_injective(x: nat, y: nat)
    requires
        x < 16,
        y < 16,
        hex_digit_lower(x) == hex_digit_lower(y),
    ensures
        x == y,
{
}

/// The position in the hyphenated form of the `k`-th hex digit.
spec fn uuid_digit_position(k: int) -> int {
    if k < 8 {
        k
    } else if k < 12 {
        k + 1
    } else if k < 16 {
        k + 2
    } else if k < 20 {
        k + 3
    } else {
        k + 4
    }
}

/// Distinct UUIDs have distinct texts: the hyphenated form of a UUID
/// determines it.
pub proof fn uuid_text_injective(a: u128, b: u128)
    ensures
        uuid_text(a) == uuid_text(b) ==> a == b,
{
    if uuid_text(a) == uuid_text(b) {
        assert forall|k: int| 0 <= k < 32 implies uuid_nibble(a, k) == uuid_nibble(b, k) by {
            let i = uuid_digit_position(k);
            assert(uuid_digit_index(i) == k);
            assert(uuid_text(a)[i] == uuid_text(b)[i]);
            let sh = (124 - 4 * k) as u128;
            let xa = a >> sh;
            let xb = b >> sh;
            assert(xa & 0xf < 16) by (bit_vector);
            assert(xb & 0xf < 16) by (bit_vector);
            lemma_hex_digit_injective(uuid_nibble(a, k), uuid_nibble(b, k));
        }
    assert(uuid_nibble(a, 0) == ((a >> 124u128) & 0xfu128) as nat);
    assert(uuid_nibble(b, 0) == ((b >> 124u128) & 0xfu128) as nat);
    assert(uuid_nibble(a, 1) == ((a >> 120u128) & 0xfu128) as nat);
    assert(uuid_nibble(b, 1) == ((b >> 120u128) & 0xfu128) as nat);
    assert(uuid_nibble(a, 2) == ((a >> 116u128) & 0xfu128) as nat);
    assert(uuid_nibble(b, 2) == ((b >> 116u128) & 0xfu128) as nat);
    assert(uuid_nibble(a, 3) == ((a >> 112u128) & 0xfu128) as nat);
    assert(uuid_nibble(b, 3) == ((b >> 112u128) & 0xfu128) as nat);
    assert(uuid_nibble(a, 4) == ((a >> 108u128) & 0xfu128) as nat);
    assert(uuid_nibble(b, 4) == ((b >> 108u128) & 0xfu128) as nat);
    assert(uuid_nibble(a, 5) == ((a >> 104u128) & 0xfu128) as nat);
    assert(uuid_nibble(b, 5) == ((b >> 104u128) & 0xfu128) as nat);
    assert(uuid_nibble(a, 6) == ((a >> 100u128) & 0xfu128) as nat);
    assert(uuid_nibble(b, 6) == ((b >> 100u128) & 0xfu128) as nat);
    assert(uuid_nibble(a, 7) == ((a >> 96u128) & 0xfu128) as nat);
    assert(uuid_nibble(b, 7) == ((b >> 96u128) & 0xfu128) as nat);
    assert(uuid_nibble(a, 8) == ((a >> 92u128) & 0xfu128) as nat);
    assert(uuid_nibble(b, 8) == ((b >> 92u128) & 0xfu128) as nat);
    assert(uuid_nibble(a, 9) == ((a >> 88u128) & 0xfu128) as nat);
    assert(uuid_nibble(b, 9) == ((b >> 88u128) & 0xfu128) as nat);
    assert(uuid_nibble(a, 10) == ((a >> 84u128) & 0xfu128) as nat);
    assert(uuid_nibble(b, 10) == ((b >> 84u128) & 0xfu128) as nat);
    assert(uuid_nibble(a, 11) == ((a >> 80u128) & 0xfu128) as nat);
    assert(uuid_nibble(b, 11) == ((b >> 80u128) & 0xfu128) as nat);
    assert(uuid_nibble(a, 12) == ((a >> 76u128) & 0xfu128) as nat);
    assert(uuid_nibble(b, 12) == ((b >> 76u128) & 0xfu128) as nat);
    assert(uuid_nibble(a, 13) == ((a >> 72u128) & 0xfu128) as nat);
    assert(uuid_nibble(b, 13) == ((b >> 72u128) & 0xfu128) as nat);
    assert(uuid_nibble(a, 14) == ((a >> 68u128) & 0xfu128) as nat);
    assert(uuid_nibble(b, 14) == ((b >> 68u128) & 0xfu128) as nat);
    assert(uuid_nibble(a, 15) == ((a >> 64u128) & 0xfu128) as nat);
    assert(uuid_nibble(b, 15) == ((b >> 64u128) & 0xfu128) as nat);
    assert(uuid_nibble(a, 16) == ((a >> 60u128) & 0xfu128) as nat);
    assert(uuid_nibble(b, 16) == ((b >> 60u128) & 0xfu128) as nat);
    assert(uuid_nibble(a, 17) == ((a >> 56u128) & 0xfu128) as nat);
    assert(uuid_nibble(b, 17) == ((b >> 56u128) & 0xfu128) as nat);
    assert(uuid_nibble(a, 18) == ((a >> 52u128) & 0xfu128) as nat);
    assert(uuid_nibble(b, 18) == ((b >> 52u128) & 0xfu128) as nat);
    assert(uuid_nibble(a, 19) == ((a >> 48u128) & 0xfu128) as nat);
    assert(uuid_nibble(b, 19) == ((b >> 48u128) & 0xfu128) as nat);
    assert(uuid_nibble(a, 20) == ((a >> 44u128) & 0xfu128) as nat);
    assert(uuid_nibble(b, 20) == ((b >> 44u128) & 0xfu128) as nat);
    assert(uuid_nibble(a, 21) == ((a >> 40u128) & 0xfu128) as nat);
    assert(uuid_nibble(b, 21) == ((b >> 40u128) & 0xfu128) as nat);
    assert(uuid_nibble(a, 22) == ((a >> 36u128) & 0xfu128) as nat);
    assert(uuid_nibble(b, 22) == ((b >> 36u128) & 0xfu128) as nat);
    assert(uuid_nibble(a, 23) == ((a >> 32u128) & 0xfu128) as nat);
    assert(uuid_nibble(b, 23) == ((b >> 32u128) & 0xfu128) as nat);
    assert(uuid_nibble(a, 24) == ((a >> 28u128) & 0xfu128) as nat);
    assert(uuid_nibble(b, 24) == ((b >> 28u128) & 0xfu128) as nat);
    assert(uuid_nibble(a, 25) == ((a >> 24u128) & 0xfu128) as nat);
    assert(uuid_nibble(b, 25) == ((b >> 24u128) & 0xfu128) as nat);
    assert(uuid_nibble(a, 26) == ((a >> 20u128) & 0xfu128) as nat);
    assert(uuid_nibble(b, 26) == ((b >> 20u128) & 0xfu128) as nat);
    assert(uuid_nibble(a, 27) == ((a >> 16u128) & 0xfu128) as nat);
    assert(uuid_nibble(b, 27) == ((b >> 16u128) & 0xfu128) as nat);
    assert(uuid_nibble(a, 28) == ((a >> 12u128) & 0xfu128) as nat);
    assert(uuid_nibble(b, 28) == ((b >> 12u128) & 0xfu128) as nat);
    assert(uuid_nibble(a, 29) == ((a >> 8u128) & 0xfu128) as nat);
    assert(uuid_nibble(b, 29) == ((b >> 8u128) & 0xfu128) as nat);
    assert(uuid_nibble(a, 30) == ((a >> 4u128) & 0xfu128) as nat);
    assert(uuid_nibble(b, 30) == ((b >> 4u128) & 0xfu128) as nat);
    assert(uuid_nibble(a, 31) == ((a >> 0u128) & 0xfu128) as nat);
    assert(uuid_nibble(b, 31) == ((b >> 0u128) & 0xfu128) as nat);
        lemma_nibbles_determine(a, b);
    }
}

/// Whether a UUID is of version 4 with the RFC 4122 variant: its version
/// nibble (bits 76 to 79) is 4 and its two variant bits (62 and 63) are
/// `10`.
pub open spec fn is_v4(u: u128) -> bool {
    (u >> 76u128) & 0xfu128 == 4 && (u >> 62u128) & 0x3u128 == 2
}

/// Calls `uuid::Uuid::new_v4` (then `as_u128`).
/// Trusted: the result is random apart from its version and variant bits,
/// which `new_v4` sets (it masks the random value and ors in
/// `0x40008000000000000000`): a version 4 UUID of the RFC 4122 variant.
#[verifier::external_body]
fn uuid_random_v4() -> (r: u128)
    ensures
        is_v4(r),
{
    uuid::Uuid::new_v4().as_u128()
}

/// Delegation identifier (a UUID, version 4 when generated here).
#[derive(Debug, Clone, Copy, PartialEq, Eq, Structural, Hash)]
pub struct DelegationId {
    value: u128,
}

impl View for DelegationId {
    type V = u128;

    closed spec fn view(&self) -> u128 {
        self.value
    }
}

impl DelegationId {
    /// A new random delegation ID: a version 4 UUID of the RFC 4122 variant.
    pub fn new() -> (id: DelegationId)
        ensures
            is_v4(id@),
    {
        DelegationId { value: uuid_random_v4() }
    }

    /// The delegation ID with the given 128-bit value.
    pub fn from_u128(value: u128) -> (id: DelegationId)
        ensures
            id@ == value,
    {
        DelegationId { value }
    }

    /// Parses a delegation ID from its text (any form that `uuid` accepts).
    pub fn from_string(s: &str) -> (r: crate::error::Result<DelegationId>)
        ensures
            match uuid_parse_outcome(s@) {
                Ok(u) => r matches Ok(id) && id@ == u,
                Err(m) => r matches Err(crate::error::Error::Decoding(e)) && e@ == m,
            },
    {
        match uuid_parse_str(s) {
            Ok(u) => Ok(DelegationId { value: u }),
            Err(m) => Err(crate::error::Error::Decoding(m)),
        }
    }

    /// The 128-bit value of the UUID.
    pub fn as_uuid(&self) -> (r: u128)
        ensures
            r == self@,
    {
        self.value
    }

    /// The hyphenated lowercase text of the ID; parsing it gives the ID back.
    pub fn to_string(&self) -> (r: String)
        ensures
            r@ == uuid_text(self@),
            uuid_parse_outcome(r@) == uuid_parsed_as(self@),
    {
        uuid_to_string(self.value)
    }
}

} // verus!
