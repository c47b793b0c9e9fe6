//! Revocation: the reasons and records of revoked delegations, the TTL cache
//! of revocation data per domain, the in-memory checker, and the DNS record
//! source of revoked IDs.

use vstd::prelude::*;
use crate::builder::current_timestamp;
use crate::ed25519::{ed25519_verify_outcome, Ed25519PublicKey, Ed25519Signature};
use crate::encoding::{base64url_decode, base64url_decoded};
use crate::error::{Error, Result};
use crate::idset::IdSet;
use crate::records::{revocation_parse, RevocationRecord};
use crate::text::{concat2, str_eq};
use crate::types::{uuid_text, DelegationId};

verus! {

broadcast use vstd::seq::Seq::lemma_push_to_set_commute;

// ------------------------------------------------------------------ types

/// Reasons for revocation.
#[derive(Debug, Clone, Copy, PartialEq, Eq, Structural)]
pub enum RevocationReason {
    /// Physical device lost or stolen.
    DeviceLost,
    /// Device suspected or confirmed compromised.
    DeviceCompromised,
    /// Routine key rotation.
    KeyRotation,
    /// Delegation scope reduced.
    ScopeChange,
    /// User explicitly revoked.
    UserInitiated,
}

/// The wire name of a reason (snake case).
pub open spec fn reason_wire_name(r: RevocationReason) -> Seq<char> {
    match r {
        RevocationReason::DeviceLost => "device_lost"@,
        RevocationReason::DeviceCompromised => "device_compromised"@,
        RevocationReason::KeyRotation => "key_rotation"@,
        RevocationReason::ScopeChange => "scope_change"@,
        RevocationReason::UserInitiated => "user_initiated"@,
    }
}

impl RevocationReason {
    /// The wire name of the reason, as revocation lists write it.
    pub fn as_str(&self) -> (r: &'static str)
        ensures
            r@ == reason_wire_name(*self),
    {
        match self {
            RevocationReason::DeviceLost => "device_lost",
            RevocationReason::DeviceCompromised => "device_compromised",
            RevocationReason::KeyRotation => "key_rotation",
            RevocationReason::ScopeChange => "scope_change",
            RevocationReason::UserInitiated => "user_initiated",
        }
    }
}

/// A revocation entry of an HTTPS supplementary list.
#[derive(Debug, Clone)]
pub struct RevocationEntry {
    /// The delegation ID that was revoked.
    pub delegation_id: String,
    /// Unix time of the revocation.
    pub revoked_at: u64,
    /// Reason for the revocation.
    pub reason: RevocationReason,
}

/// HTTPS supplementary revocation list.
#[derive(Debug, Clone)]
pub struct RevocationList {
    /// List format version.
    pub v: String,
    /// Identity domain.
    pub identity: String,
    /// Revoked delegations.
    pub revocations: Vec<RevocationEntry>,
    /// Unix time of publication.
    pub published_at: u64,
    /// Ed25519 signature over the canonical JSON of the other fields (base64url).
    pub signature: String,
}

/// What checking a list's signature gives: the message of the refusal, by
/// the error's variant.
pub enum SignatureFailure {
    /// `Error::Custom` with this message.
    Custom(Seq<char>),
    /// `Error::Crypto` with this message.
    Crypto(Seq<char>),
}

/// The outcome of checking signature text over canonical bytes.
pub open spec fn list_signature_check(signature: Seq<char>, canonical: Seq<u8>, public: Seq<u8>) -> Option<SignatureFailure> {
    match base64url_decoded(signature) {
        None => Some(
            SignatureFailure::Custom(
                "Invalid signature encoding: "@ + ("Decoding error: "@ + "Base64url decode failed"@),
            ),
        ),
        Some(sig) => if sig.len() != 64 {
            Some(SignatureFailure::Crypto("Expected 64 bytes for signature, got "@ + crate::text::decimal(sig.len())))
        } else {
            match ed25519_verify_outcome(public, canonical, sig) {
                Ok(_) => None,
                Err(m) => Some(SignatureFailure::Crypto("Signature verification failed: "@ + m)),
            }
        },
    }
}

/// Whether the error `e` is the refusal `f`.
pub open spec fn signature_failure_is(e: Error, f: SignatureFailure) -> bool {
    match f {
        SignatureFailure::Custom(m) => e matches Error::Custom(s) && s@ == m,
        SignatureFailure::Crypto(m) => e matches Error::Crypto(s) && s@ == m,
    }
}

impl RevocationList {
    /// Verifies the list's signature over `canonical`, the canonical JSON of
    /// its other fields (`{"identity", "published_at", "revocations", "v"}`).
    pub fn verify_signature(&self, canonical: &[u8], public_key: &Ed25519PublicKey) -> (r: Result<()>)
        ensures
            match list_signature_check(self.signature@, canonical@, public_key@) {
                None => r is Ok,
                Some(f) => r matches Err(e) && signature_failure_is(e, f),
            },
    {
        let signature_bytes = match base64url_decode(self.signature.as_str()) {
            Ok(b) => b,
            Err(e) => {
                let t = e.to_string();
                return Err(Error::Custom(concat2("Invalid signature encoding: ", t.as_str())));
            },
        };
        let signature = match Ed25519Signature::from_bytes(signature_bytes.as_slice()) {
            Ok(s) => s,
            Err(e) => return Err(e),
        };
        public_key.verify(canonical, &signature)
    }
}

/// Source of revocation data.
#[derive(Debug, Clone, Copy, PartialEq, Eq, Structural)]
pub enum RevocationSource {
    /// DNS TXT record (authoritative).
    Dns,
    /// HTTPS supplementary list (fast).
    Https,
    /// Merged from several sources.
    Merged,
}

/// What cached revocation data holds.
pub struct CachedView {
    pub revoked_ids: Set<Seq<char>>,
    pub expires_at: u64,
    pub source: RevocationSource,
}

/// Cached revocation data of one domain.
#[derive(Debug)]
pub struct CachedRevocationData {
    /// Revoked delegation IDs (UUID texts).
    pub revoked_ids: IdSet,
    /// Unix time at which this entry expires.
    pub expires_at: u64,
    /// Source of this data.
    pub source: RevocationSource,
}

impl View for CachedRevocationData {
    type V = CachedView;

    open spec fn view(&self) -> CachedView {
        CachedView { revoked_ids: self.revoked_ids@, expires_at: self.expires_at, source: self.source }
    }
}

impl Clone for CachedRevocationData {
    fn clone(&self) -> (r: CachedRevocationData)
        ensures
            r@ == self@,
    {
        CachedRevocationData { revoked_ids: self.revoked_ids.clone(), expires_at: self.expires_at, source: self.source }
    }
}

// ------------------------------------------------------------------ cache

/// Whether some entry has the domain `k`.
pub open spec fn has_domain(s: Seq<(Seq<char>, CachedView)>, k: Seq<char>) -> bool {
    exists|i: int| 0 <= i < s.len() && (#[trigger] s[i]).0 == k
}

/// The index of the entry of domain `k`.
pub open spec fn domain_index(s: Seq<(Seq<char>, CachedView)>, k: Seq<char>) -> int {
    choose|i: int| 0 <= i < s.len() && (#[trigger] s[i]).0 == k
}

/// The map from domain to data that a list of entries holds.
pub open spec fn entries_map(s: Seq<(Seq<char>, CachedView)>) -> Map<Seq<char>, CachedView> {
    Map::new(|k: Seq<char>| has_domain(s, k), |k: Seq<char>| s[domain_index(s, k)].1)
}

/// No domain occurs twice.
pub open spec fn distinct_domains(s: Seq<(Seq<char>, CachedView)>) -> bool {
    forall|a: int, b: int| 0 <= a < b < s.len() ==> s[a].0 != s[b].0
}

proof fn lemma_entries_map_at(s: Seq<(Seq<char>, CachedView)>, i: int)
    requires
        distinct_domains(s),
        0 <= i < s.len(),
    ensures
        entries_map(s).contains_key(s[i].0),
        entries_map(s)[s[i].0] == s[i].1,
{
    let k = s[i].0;
    assert(has_domain(s, k));
    let j = domain_index(s, k);
    assert(s[j].0 == k);
    if j != i {
        if j < i {
            assert(s[j].0 != s[i].0);
        } else {
            assert(s[i].0 != s[j].0);
        }
    }
}

/// A TTL cache of revocation data, one entry per domain.
#[derive(Debug)]
pub struct RevocationCache {
    entries: Vec<(String, CachedRevocationData)>,
}

/// The views of the cache's entries.
pub open spec fn entry_views(v: Seq<(String, CachedRevocationData)>) -> Seq<(Seq<char>, CachedView)> {
    Seq::new(v.len(), |i: int| (v[i].0@, v[i].1@))
}

impl View for RevocationCache {
    type V = Map<Seq<char>, CachedView>;

    closed spec fn view(&self) -> Map<Seq<char>, CachedView> {
        entries_map(entry_views(self.entries@))
    }
}

/// The entries of `m` that have not expired at `now`.
pub open spec fn unexpired(m: Map<Seq<char>, CachedView>, now: u64) -> Map<Seq<char>, CachedView> {
    Map::new(|k: Seq<char>| m.contains_key(k) && m[k].expires_at > now, |k: Seq<char>| m[k])
}

/// The data of `domain` that a lookup at `now` gives: present and not expired.
pub open spec fn cache_lookup(m: Map<Seq<char>, CachedView>, domain: Seq<char>, now: u64) -> Option<CachedView> {
    if m.contains_key(domain) && m[domain].expires_at > now {
        Some(m[domain])
    } else {
        None
    }
}

/// The merge of DNS and HTTPS data: the union of their IDs, the earliest
/// expiry (`u64::MAX` where there is none), source `Merged`.
pub open spec fn merged_view(dns: Option<CachedView>, https: Option<CachedView>) -> CachedView {
    let d_ids = match dns {
        Some(d) => d.revoked_ids,
        None => Set::empty(),
    };
    let h_ids = match https {
        Some(h) => h.revoked_ids,
        None => Set::empty(),
    };
    let d_exp: u64 = match dns {
        Some(d) => d.expires_at,
        None => u64::MAX,
    };
    let h_exp: u64 = match https {
        Some(h) => h.expires_at,
        None => u64::MAX,
    };
    CachedView {
        revoked_ids: d_ids.union(h_ids),
        expires_at: if d_exp <= h_exp { d_exp } else { h_exp },
        source: RevocationSource::Merged,
    }
}

/// The view of optional cached data.
pub open spec fn opt_cached(o: Option<CachedRevocationData>) -> Option<CachedView> {
    match o {
        Some(d) => Some(d@),
        None => None,
    }
}

impl RevocationCache {
    #[verifier::type_invariant]
    spec fn inv(&self) -> bool {
        distinct_domains(entry_views(self.entries@))
    }

    /// An empty cache.
    pub fn new() -> (c: RevocationCache)
        ensures
            c@ == Map::<Seq<char>, CachedView>::empty(),
    {
        let c = RevocationCache { entries: Vec::new() };
        assert(entry_views(c.entries@) =~= Seq::<(Seq<char>, CachedView)>::empty());
        assert(c@ =~= Map::<Seq<char>, CachedView>::empty());
        c
    }

    /// The index of `domain`'s entry.
    fn find(&self, domain: &str) -> (r: Option<usize>)
        ensures
            match r {
                Some(i) => i < self.entries@.len() && self.entries@[i as int].0@ == domain@,
                None => !has_domain(entry_views(self.entries@), domain@),
            },
    {
        let mut i: usize = 0;
        while i < self.entries.len()
            invariant
                i <= self.entries@.len(),
                forall|k: int| 0 <= k < i ==> self.entries@[k].0@ != domain@,
            decreases self.entries@.len() - i,
        {
            if str_eq(self.entries[i].0.as_str(), domain) {
                return Some(i);
            }
            i = i + 1;
        }
        proof {
            let s = entry_views(self.entries@);
            assert forall|k: int| 0 <= k < s.len() implies (#[trigger] s[k]).0 != domain@ by {
                assert(s[k].0 == self.entries@[k].0@);
            }
        }
        None
    }

    /// The data of `domain` at time `now`: `None` where there is none or it
    /// has expired.
    pub fn get_at(&self, domain: &str, now: u64) -> (r: Option<CachedRevocationData>)
        ensures
            opt_cached(r) == cache_lookup(self@, domain@, now),
    {
        proof {
            use_type_invariant(self);
        }
        match self.find(domain) {
            Some(i) => {
                proof {
                    lemma_entries_map_at(entry_views(self.entries@), i as int);
                }
                if self.entries[i].1.expires_at > now {
                    Some(self.entries[i].1.clone())
                } else {
                    None
                }
            },
            None => None,
        }
    }

    /// The data of `domain` now (the clock): `None` where there is none or it
    /// has expired.
    pub fn get(&self, domain: &str) -> (r: Option<CachedRevocationData>)
        ensures
            exists|now: u64| opt_cached(r) == #[trigger] cache_lookup(self@, domain@, now),
    {
        self.get_at(domain, current_timestamp())
    }

    /// Stores the data of `domain`, in place of any before.
    #[verifier::spinoff_prover]
    pub fn put(&mut self, domain: String, data: CachedRevocationData)
        ensures
            final(self)@ == old(self)@.insert(domain@, data@),
    {
        proof {
            use_type_invariant(&*self);
        }
        let ghost old_s = entry_views(self.entries@);
        let ghost d = domain@;
        let ghost dv = data@;
        let pos = self.find(domain.as_str());
        let mut entries = Vec::new();
        std::mem::swap(&mut entries, &mut self.entries);
        match pos {
            Some(i) => {
                entries.set(i, (domain, data));
                proof {
                    let s = entry_views(entries@);
                    assert(s =~= old_s.update(i as int, (d, dv)));
                    assert(distinct_domains(s)) by {
                        assert forall|a: int, b: int| 0 <= a < b < s.len() implies s[a].0 != s[b].0 by {
                            if a != i && b != i {
                                assert(s[a] == old_s[a] && s[b] == old_s[b]);
                            } else if a == i {
                                assert(old_s[a].0 == d);
                                assert(s[b] == old_s[b]);
                            } else {
                                assert(old_s[b].0 == d);
                                assert(s[a] == old_s[a]);
                            }
                        }
                    }
                    assert forall|k: Seq<char>| #![auto] entries_map(s).contains_key(k) <==> entries_map(old_s).insert(d, dv).contains_key(k) by {
                        if has_domain(old_s, k) {
                            let j = choose|j: int| 0 <= j < old_s.len() && (#[trigger] old_s[j]).0 == k;
                            if j != i {
                                assert(s[j] == old_s[j]);
                            }
                            assert(s[j].0 == k);
                        }
                        if has_domain(s, k) {
                            let j = choose|j: int| 0 <= j < s.len() && (#[trigger] s[j]).0 == k;
                            if j != i {
                                assert(s[j] == old_s[j]);
                            }
                        }
                        if k == d {
                            assert(s[i as int].0 == d);
                        }
                    }
                    assert forall|k: Seq<char>| #![auto] entries_map(s).contains_key(k) implies entries_map(s)[k] == entries_map(old_s).insert(d, dv)[k] by {
                        let j = choose|j: int| 0 <= j < s.len() && (#[trigger] s[j]).0 == k;
                        assert(s[j].0 == k);
                        lemma_entries_map_at(s, j);
                        if j != i {
                            assert(s[j] == old_s[j]);
                            assert(old_s[i as int].0 == d);
                            assert(old_s[j].0 != old_s[i as int].0);
                            assert(k != d);
                            lemma_entries_map_at(old_s, j);
                            assert(entries_map(old_s).insert(d, dv)[k] == entries_map(old_s)[k]);
                        } else {
                            assert(k == d);
                        }
                    }
                    assert(entries_map(s) =~= entries_map(old_s).insert(d, dv));
                }
            },
            None => {
                entries.push((domain, data));
                proof {
                    let s = entry_views(entries@);
                    assert(s =~= old_s.push((d, dv)));
                    assert(distinct_domains(s)) by {
                        assert forall|a: int, b: int| 0 <= a < b < s.len() implies s[a].0 != s[b].0 by {
                            assert(s[a] == old_s[a]);
                            if b < old_s.len() {
                                assert(s[b] == old_s[b]);
                            } else {
                                assert(old_s[a].0 != d);
                            }
                        }
                    }
                    assert forall|k: Seq<char>| #![auto] entries_map(s).contains_key(k) <==> entries_map(old_s).insert(d, dv).contains_key(k) by {
                        if has_domain(old_s, k) {
                            let j = choose|j: int| 0 <= j < old_s.len() && (#[trigger] old_s[j]).0 == k;
                            assert(s[j] == old_s[j]);
                        }
                        if has_domain(s, k) {
                            let j = choose|j: int| 0 <= j < s.len() && (#[trigger] s[j]).0 == k;
                            if j < old_s.len() {
                                assert(s[j] == old_s[j]);
                            }
                        }
                        if k == d {
                            assert(s[old_s.len() as int].0 == d);
                        }
                    }
                    assert forall|k: Seq<char>| #![auto] entries_map(s).contains_key(k) implies entries_map(s)[k] == entries_map(old_s).insert(d, dv)[k] by {
                        let j = choose|j: int| 0 <= j < s.len() && (#[trigger] s[j]).0 == k;
                        lemma_entries_map_at(s, j);
                        if j < old_s.len() {
                            assert(s[j] == old_s[j]);
                            lemma_entries_map_at(old_s, j);
                        }
                    }
                    assert(entries_map(s) =~= entries_map(old_s).insert(d, dv));
                }
            },
        }
        self.entries = entries;
    }

    /// Merges DNS (authoritative) and HTTPS data of `domain` and stores the
    /// merge: the union of the IDs, the earliest expiry, source `Merged`.
    /// Where the union is empty, nothing is stored.
    pub fn put_merged(&mut self, domain: String, dns_data: Option<CachedRevocationData>, https_data: Option<CachedRevocationData>)
        ensures
            merged_view(opt_cached(dns_data), opt_cached(https_data)).revoked_ids.len() == 0 ==> final(self)@ == old(self)@,
            merged_view(opt_cached(dns_data), opt_cached(https_data)).revoked_ids.len() != 0 ==> final(self)@ == old(self)@.insert(
                domain@,
                merged_view(opt_cached(dns_data), opt_cached(https_data)),
            ),
    {
        let ghost m = merged_view(opt_cached(dns_data), opt_cached(https_data));
        let mut merged_ids = IdSet::new();
        let mut min_expires_at: u64 = 0xffff_ffff_ffff_ffff;
        match &dns_data {
            Some(d) => {
                merged_ids.extend(&d.revoked_ids);
                if d.expires_at < min_expires_at {
                    min_expires_at = d.expires_at;
                }
            },
            None => {},
        }
        match &https_data {
            Some(h) => {
                merged_ids.extend(&h.revoked_ids);
                if h.expires_at < min_expires_at {
                    min_expires_at = h.expires_at;
                }
            },
            None => {},
        }
        assert(merged_ids@ =~= m.revoked_ids);
        if !merged_ids.is_empty() {
            let merged = CachedRevocationData {
                revoked_ids: merged_ids,
                expires_at: min_expires_at,
                source: RevocationSource::Merged,
            };
            assert(merged@ == m);
            self.put(domain, merged);
        }
    }

    /// Removes the entries that have expired at time `now`.
    #[verifier::spinoff_prover]
    pub fn cleanup_at(&mut self, now: u64)
        ensures
            final(self)@ == unexpired(old(self)@, now),
    {
        proof {
            use_type_invariant(&*self);
        }
        let ghost old_s = entry_views(self.entries@);
        let mut kept: Vec<(String, CachedRevocationData)> = Vec::new();
        let mut old_entries = Vec::new();
        std::mem::swap(&mut old_entries, &mut self.entries);
        let ghost src = old_entries@;
        assert(entry_views(src) == old_s);
        let mut i: usize = 0;
        let n = old_entries.len();
        while i < n
            invariant
                n == src.len(),
                old_entries@ == src,
                i <= n,
                old_s == entry_views(src),
                distinct_domains(old_s),
                distinct_domains(entry_views(kept@)),
                forall|k: int| 0 <= k < kept@.len() ==> exists|j: int| 0 <= j < i && #[trigger] entry_views(kept@)[k] == old_s[j] && old_s[j].1.expires_at > now,
                forall|j: int| 0 <= j < i && old_s[j].1.expires_at > now ==> has_domain(entry_views(kept@), #[trigger] old_s[j].0),
            decreases n - i,
        {
            let item = (old_entries[i].0.clone(), old_entries[i].1.clone());
            if item.1.expires_at > now {
                let ghost before = entry_views(kept@);
                let ghost iv = (item.0@, item.1@);
                assert(iv == old_s[i as int]);
                kept.push(item);
                proof {
                    let s = entry_views(kept@);
                    assert(s =~= before.push(iv));
                    assert forall|a: int, b: int| 0 <= a < b < s.len() implies s[a].0 != s[b].0 by {
                        if b < before.len() {
                            assert(s[a] == before[a] && s[b] == before[b]);
                        } else {
                            assert(s[a] == before[a]);
                            let j = choose|j: int| 0 <= j < i && #[trigger] before[a] == old_s[j] && old_s[j].1.expires_at > now;
                            assert(old_s[j].0 != old_s[i as int].0);
                        }
                    }
                    assert forall|k: int| 0 <= k < s.len() implies exists|j: int| 0 <= j < i + 1 && #[trigger] s[k] == old_s[j] && old_s[j].1.expires_at > now by {
                        if k < before.len() {
                            assert(s[k] == before[k]);
                            let j = choose|j: int| 0 <= j < i && #[trigger] before[k] == old_s[j] && old_s[j].1.expires_at > now;
                            assert(s[k] == old_s[j]);
                        } else {
                            assert(s[k] == old_s[i as int]);
                        }
                    }
                    assert forall|j: int| 0 <= j < i + 1 && old_s[j].1.expires_at > now implies has_domain(s, #[trigger] old_s[j].0) by {
                        if j < i {
                            let q = choose|q: int| 0 <= q < before.len() && (#[trigger] before[q]).0 == old_s[j].0;
                            assert(s[q] == before[q]);
                        } else {
                            assert(s[before.len() as int] == old_s[j]);
                        }
                    }
                }
            } else {
                proof {
                    let s = entry_views(kept@);
                    assert forall|k: int| 0 <= k < s.len() implies exists|j: int| 0 <= j < i + 1 && #[trigger] s[k] == old_s[j] && old_s[j].1.expires_at > now by {
                        let j = choose|j: int| 0 <= j < i && #[trigger] s[k] == old_s[j] && old_s[j].1.expires_at > now;
                        assert(0 <= j < i + 1 && s[k] == old_s[j] && old_s[j].1.expires_at > now);
                    }
                }
            }
            i = i + 1;
        }
        proof {
            let s = entry_views(kept@);
            let target = unexpired(entries_map(old_s), now);
            assert forall|k: Seq<char>| #![auto] entries_map(s).contains_key(k) <==> target.contains_key(k) by {
                if has_domain(s, k) {
                    let q = choose|q: int| 0 <= q < s.len() && (#[trigger] s[q]).0 == k;
                    let j = choose|j: int| 0 <= j < n && #[trigger] s[q] == old_s[j] && old_s[j].1.expires_at > now;
                    lemma_entries_map_at(old_s, j);
                }
                if target.contains_key(k) {
                    let j = choose|j: int| 0 <= j < old_s.len() && (#[trigger] old_s[j]).0 == k;
                    lemma_entries_map_at(old_s, j);
                }
            }
            assert forall|k: Seq<char>| #![auto] entries_map(s).contains_key(k) implies entries_map(s)[k] == target[k] by {
                let q = choose|q: int| 0 <= q < s.len() && (#[trigger] s[q]).0 == k;
                lemma_entries_map_at(s, q);
                let j = choose|j: int| 0 <= j < n && #[trigger] s[q] == old_s[j] && old_s[j].1.expires_at > now;
                lemma_entries_map_at(old_s, j);
            }
            assert(entries_map(s) =~= target);
        }
        self.entries = kept;
    }

    /// Removes the entries that have expired now (the clock).
    pub fn cleanup(&mut self)
        ensures
            exists|now: u64| final(self)@ == #[trigger] unexpired(old(self)@, now),
    {
        let now = current_timestamp();
        self.cleanup_at(now);
    }

    /// Removes every entry.
    pub fn clear(&mut self)
        ensures
            final(self)@ == Map::<Seq<char>, CachedView>::empty(),
    {
        let e: Vec<(String, CachedRevocationData)> = Vec::new();
        self.entries = e;
        assert(entry_views(self.entries@) =~= Seq::<(Seq<char>, CachedView)>::empty());
        assert(self@ =~= Map::<Seq<char>, CachedView>::empty());
    }

    /// Number of cached domains.
    pub fn len(&self) -> (r: usize)
        ensures
            r == self@.len(),
    {
        proof {
            use_type_invariant(self);
            let s = entry_views(self.entries@);
            let keys = Seq::new(s.len(), |i: int| s[i].0);
            assert(keys.no_duplicates());
            keys.unique_seq_to_set();
            assert forall|k: Seq<char>| #![auto] keys.to_set().contains(k) <==> self@.dom().contains(k) by {
                if keys.to_set().contains(k) {
                    let i = choose|i: int| 0 <= i < keys.len() && keys[i] == k;
                    assert(s[i].0 == k);
                }
                if self@.dom().contains(k) {
                    let i = choose|i: int| 0 <= i < s.len() && (#[trigger] s[i]).0 == k;
                    assert(keys[i] == k);
                }
            }
            assert(keys.to_set() =~= self@.dom());
        }
        self.entries.len()
    }
}

// ------------------------------------------------------------ cache laws

/// A lookup after storing data for a domain gives that data while it has
/// not expired, and leaves every other domain's lookup as it was.
pub proof fn cache_put_then_lookup(m: Map<Seq<char>, CachedView>, d: Seq<char>, v: CachedView, k: Seq<char>, now: u64)
    ensures
        cache_lookup(m.insert(d, v), k, now) == if k == d {
            if v.expires_at > now {
                Some(v)
            } else {
                None
            }
        } else {
            cache_lookup(m, k, now)
        },
{
}

/// Removing the entries expired at `now` changes no lookup made at `now`.
pub proof fn cache_cleanup_keeps_lookups(m: Map<Seq<char>, CachedView>, k: Seq<char>, now: u64)
    ensures
        cache_lookup(unexpired(m, now), k, now) == cache_lookup(m, k, now),
{
}

/// A merge revokes exactly what either source revokes, and expires with
/// the earlier of them.
pub proof fn merge_revokes_either(dns: Option<CachedView>, https: Option<CachedView>, id: Seq<char>)
    ensures
        merged_view(dns, https).revoked_ids.contains(id) <==> (dns matches Some(d) && d.revoked_ids.contains(id)) || (https matches Some(h) && h.revoked_ids.contains(id)),
        dns matches Some(d) ==> merged_view(dns, https).expires_at <= d.expires_at,
        https matches Some(h) ==> merged_view(dns, https).expires_at <= h.expires_at,
{
}

// -------------------------------------------------------- simple checker

/// In-memory revocation checker without network access.
#[derive(Debug)]
pub struct SimpleRevocationChecker {
    revoked_ids: IdSet,
}

impl View for SimpleRevocationChecker {
    type V = Set<Seq<char>>;

    /// The texts of the revoked delegation IDs.
    closed spec fn view(&self) -> Set<Seq<char>> {
        self.revoked_ids@
    }
}

/// The texts of a list of delegation IDs.
pub open spec fn id_texts(ids: Seq<DelegationId>) -> Seq<Seq<char>> {
    Seq::new(ids.len(), |i: int| uuid_text(ids[i]@))
}

impl SimpleRevocationChecker {
    /// A checker with no revoked ID.
    pub fn new() -> (c: SimpleRevocationChecker)
        ensures
            c@ == Set::<Seq<char>>::empty(),
    {
        SimpleRevocationChecker { revoked_ids: IdSet::new() }
    }

    /// A checker with the given revoked IDs.
    pub fn with_revoked_ids(revoked_ids: Vec<DelegationId>) -> (c: SimpleRevocationChecker)
        ensures
            c@ == id_texts(revoked_ids@).to_set(),
    {
        let mut set = IdSet::new();
        let mut i: usize = 0;
        while i < revoked_ids.len()
            invariant
                i <= revoked_ids@.len(),
                set@ == id_texts(revoked_ids@).subrange(0, i as int).to_set(),
            decreases revoked_ids@.len() - i,
        {
            let ghost pre = id_texts(revoked_ids@).subrange(0, i as int);
            let t = revoked_ids[i].to_string();
            set.insert(t);
            proof {
                let nxt = id_texts(revoked_ids@).subrange(0, i + 1);
                assert(nxt =~= pre.push(uuid_text(revoked_ids@[i as int]@)));
                assert(nxt.to_set() =~= pre.to_set().insert(uuid_text(revoked_ids@[i as int]@)));
            }
            i = i + 1;
        }
        assert(id_texts(revoked_ids@).subrange(0, revoked_ids@.len() as int) =~= id_texts(revoked_ids@));
        SimpleRevocationChecker { revoked_ids: set }
    }

    /// Revokes a delegation.
    pub fn revoke(&mut self, delegation_id: DelegationId)
        ensures
            final(self)@ == old(self)@.insert(uuid_text(delegation_id@)),
    {
        let t = delegation_id.to_string();
        self.revoked_ids.insert(t);
    }

    /// Whether a delegation is revoked (the domain plays no part).
    pub fn is_revoked(&self, domain: &str, delegation_id: &DelegationId) -> (r: Result<bool>)
        ensures
            r == Ok::<bool, Error>(self@.contains(uuid_text(delegation_id@))),
    {
        let t = delegation_id.to_string();
        Ok(self.revoked_ids.contains(t.as_str()))
    }

    /// Clears all revocations.
    pub fn clear(&mut self)
        ensures
            final(self)@ == Set::<Seq<char>>::empty(),
    {
        self.revoked_ids.clear();
    }

    /// Number of revoked delegations.
    pub fn len(&self) -> (r: usize)
        ensures
            r == self@.len(),
    {
        self.revoked_ids.len()
    }

    /// Whether no delegation is revoked.
    pub fn is_empty(&self) -> (r: bool)
        ensures
            r == (self@.len() == 0),
    {
        self.revoked_ids.is_empty()
    }
}

/// A revoked delegation is reported revoked, and revoking one ID leaves
/// the answer for every other ID text as it was.
pub proof fn revoke_then_check(s: Set<Seq<char>>, revoked: u128, other: Seq<char>)
    ensures
        s.insert(uuid_text(revoked)).contains(uuid_text(revoked)),
        other != uuid_text(revoked) ==> (s.insert(uuid_text(revoked)).contains(other) == s.contains(other)),
{
}

/// Revoking an ID adds one to the count of revoked IDs where it was not
/// revoked yet, and nothing where it was.
pub proof fn revoke_counts_once(s: Set<Seq<char>>, revoked: u128)
    requires
        s.finite(),
    ensures
        s.insert(uuid_text(revoked)).len() == s.len() + (if s.contains(uuid_text(revoked)) {
            0int
        } else {
            1int
        }),
{
}

/// A checker made from a list of IDs revokes as many as the list has
/// distinct IDs: distinct IDs have distinct texts.
pub proof fn revoked_ids_count(ids: Seq<DelegationId>)
    ensures
        id_texts(ids).to_set().len() == ids.map_values(|d: DelegationId| d@).to_set().len(),
{
    broadcast use vstd::seq_lib::seq_to_set_is_finite;
    let us = ids.map_values(|d: DelegationId| d@);
    let f = |u: u128| uuid_text(u);
    assert(id_texts(ids) =~= us.map_values(f));
    us.lemma_to_set_map_commutes(f);
    assert forall|x1: u128, x2: u128|
        us.to_set().contains(x1) && us.to_set().contains(x2) && #[trigger] f(x1) == #[trigger] f(x2)
        implies x1 == x2 by {
        crate::types::uuid_text_injective(x1, x2);
    }
    vstd::set_lib::lemma_map_size(us.to_set(), id_texts(ids).to_set(), f);
}

// --------------------------------------------------------------- sources

/// Default TTL of DNS revocation data (seconds).
pub const DEFAULT_DNS_TTL: u64 = 300;

/// Default TTL of HTTPS revocation data (seconds).
pub const DEFAULT_HTTPS_TTL: u64 = 600;

/// Revocation data from DNS. Querying DNS for revocation records is not
/// implemented: the result is always `Ok(None)`.
pub fn fetch_dns_revocations(domain: &str) -> (r: Result<Option<CachedRevocationData>>)
    ensures
        r matches Ok(None),
{
    Ok(None)
}

/// Parses the TXT value of a revocation record into its revoked IDs and
/// its timestamp.
pub fn parse_dns_revocation_record(txt_content: &str) -> (r: Result<(IdSet, u64)>)
    ensures
        match revocation_parse(txt_content@) {
            Ok(v) => r matches Ok((ids, t)) && ids@ == v.revoked_ids.to_set() && t == v.timestamp,
            Err(f) => r matches Err(e) && crate::records::failure_matches(e, f),
        },
{
    let record = match RevocationRecord::from_txt_record(txt_content) {
        Ok(rec) => rec,
        Err(e) => return Err(e),
    };
    let ids = IdSet::from_vec(record.revoked_ids);
    Ok((ids, record.timestamp))
}

/// DNS revocation data that expires `ttl` seconds (300 where none is given)
/// after `now`.
pub fn dns_record_to_cached_data_at(revoked_ids: IdSet, ttl: Option<u32>, now: u64) -> (c: CachedRevocationData)
    requires
        now + match ttl {
            Some(t) => t as int,
            None => DEFAULT_DNS_TTL as int,
        } <= u64::MAX,
    ensures
        c@ == (CachedView {
            revoked_ids: revoked_ids@,
            expires_at: (now + match ttl {
                Some(t) => t as u64,
                None => DEFAULT_DNS_TTL,
            }) as u64,
            source: RevocationSource::Dns,
        }),
{
    let ttl_secs: u64 = match ttl {
        Some(t) => t as u64,
        None => DEFAULT_DNS_TTL,
    };
    CachedRevocationData { revoked_ids, expires_at: now + ttl_secs, source: RevocationSource::Dns }
}

/// DNS revocation data that expires `ttl` seconds (300 where none is given)
/// from now (the clock); where the clock is within 2^32 seconds of
/// `u64::MAX`, the data expires at `u64::MAX`.
pub fn dns_record_to_cached_data(revoked_ids: IdSet, ttl: Option<u32>) -> (c: CachedRevocationData)
    ensures
        c@.revoked_ids == revoked_ids@,
        c@.source == RevocationSource::Dns,
{
    let now = current_timestamp();
    if now <= 0xffff_ffff_0000_0000 - 1 {
        dns_record_to_cached_data_at(revoked_ids, ttl, now)
    } else {
        CachedRevocationData { revoked_ids, expires_at: 0xffff_ffff_ffff_ffff, source: RevocationSource::Dns }
    }
}

/// The IDs that a list revokes.
pub open spec fn list_ids(entries: Seq<RevocationEntry>) -> Set<Seq<char>> {
    Seq::new(entries.len(), |i: int| entries[i].delegation_id@).to_set()
}

/// Accepts a fetched HTTPS revocation list at time `now`: its version must
/// be "locd-revoke-list-v1" and its signature must verify over `canonical`
/// (the canonical JSON of its other fields) under the master key; the data
/// then revokes the listed IDs for 600 seconds.
pub fn accept_https_revocation_list(list: &RevocationList, canonical: &[u8], master_public_key: &Ed25519PublicKey, now: u64) -> (r: Result<Option<CachedRevocationData>>)
    requires
        now + DEFAULT_HTTPS_TTL <= u64::MAX,
    ensures
        list.v@ != "locd-revoke-list-v1"@ ==> (r matches Err(Error::Custom(m)) && m@ == "Unsupported revocation list version: "@ + list.v@),
        list.v@ == "locd-revoke-list-v1"@ ==> match list_signature_check(list.signature@, canonical@, master_public_key@) {
            Some(f) => r matches Err(e) && signature_failure_is(e, f),
            None => r matches Ok(Some(c)) && c@ == (CachedView {
                revoked_ids: list_ids(list.revocations@),
                expires_at: (now + DEFAULT_HTTPS_TTL) as u64,
                source: RevocationSource::Https,
            }),
        },
{
    if !str_eq(list.v.as_str(), "locd-revoke-list-v1") {
        return Err(Error::Custom(concat2("Unsupported revocation list version: ", list.v.as_str())));
    }
    match list.verify_signature(canonical, master_public_key) {
        Ok(_) => {},
        Err(e) => return Err(e),
    }
    let mut ids = IdSet::new();
    let mut i: usize = 0;
    while i < list.revocations.len()
        invariant
            i <= list.revocations@.len(),
            ids@ == Seq::new(i as nat, |k: int| list.revocations@[k].delegation_id@).to_set(),
        decreases list.revocations@.len() - i,
    {
        let ghost pre = Seq::new(i as nat, |k: int| list.revocations@[k].delegation_id@);
        ids.insert(list.revocations[i].delegation_id.clone());
        proof {
            let nxt = Seq::new((i + 1) as nat, |k: int| list.revocations@[k].delegation_id@);
            assert(nxt =~= pre.push(list.revocations@[i as int].delegation_id@));
            assert(nxt.to_set() =~= pre.to_set().insert(list.revocations@[i as int].delegation_id@));
        }
        i = i + 1;
    }
    Ok(Some(CachedRevocationData { revoked_ids: ids, expires_at: now + DEFAULT_HTTPS_TTL, source: RevocationSource::Https }))
}

// --------------------------------------------------------- layered checker

/// Provides the HTTPS revocation list URL of a domain, for users to
/// implement.
pub trait HttpsUrlProvider: Send + Sync {
    /// Whether `u` is an answer that this provider gives when asked about
    /// `domain`.
    /// A provider that does not say is taken to give any answer.
    closed spec fn url_answers(&self, domain: Seq<char>, u: Option<Seq<char>>) -> bool {
        true
    }

    /// The URL of the domain's HTTPS revocation list, where it has one.
    fn get_url(&self, domain: &str) -> (r: Option<String>)
        ensures
            self.url_answers(domain@, opt_text(r)),
    ;
}

/// The text of an optional string.
pub open spec fn opt_text(s: Option<String>) -> Option<Seq<char>> {
    match s {
        Some(t) => Some(t@),
        None => None,
    }
}

/// The bytes of an optional public key.
pub open spec fn opt_key(k: Option<Ed25519PublicKey>) -> Option<Seq<u8>> {
    match k {
        Some(p) => Some(p@),
        None => None,
    }
}

/// Provides the master public key of a domain, which signs its HTTPS
/// revocation lists; for users to implement.
pub trait MasterKeyProvider: Send + Sync {
    /// Whether `k` is an answer that this provider gives when asked about
    /// `domain`.
    /// A provider that does not say is taken to give any answer.
    closed spec fn key_answers(&self, domain: Seq<char>, k: Option<Seq<u8>>) -> bool {
        true
    }

    /// The master public key of the domain, where it is known.
    fn get_master_key(&self, domain: &str) -> (r: Option<Ed25519PublicKey>)
        ensures
            self.key_answers(domain@, opt_key(r)),
    ;
}

/// The layered revocation checker: the TTL cache of revocation data and
/// the providers of HTTPS list URLs and master keys. The network lookups it
/// decides on are made by its caller.
pub struct DefaultRevocationChecker {
    cache: RevocationCache,
    https_url_provider: Option<Box<dyn HttpsUrlProvider>>,
    master_key_provider: Option<Box<dyn MasterKeyProvider>>,
}

/// Whether optional data revokes the ID text `id`.
pub open spec fn data_revokes(d: Option<CachedView>, id: Seq<char>) -> bool {
    d matches Some(c) && c.revoked_ids.contains(id)
}

impl DefaultRevocationChecker {
    /// A checker with an empty cache and no providers.
    pub fn new() -> (c: DefaultRevocationChecker)
        ensures
            c.cache_view() == Map::<Seq<char>, CachedView>::empty(),
            !c.has_https_provider(),
            !c.has_master_key_provider(),
    {
        DefaultRevocationChecker { cache: RevocationCache::new(), https_url_provider: None, master_key_provider: None }
    }

    /// What the cache holds.
    pub closed spec fn cache_view(&self) -> Map<Seq<char>, CachedView> {
        self.cache@
    }

    /// Whether the checker has a provider of HTTPS list URLs.
    pub closed spec fn has_https_provider(&self) -> bool {
        self.https_url_provider is Some
    }

    /// Whether the checker has a provider of master keys.
    pub closed spec fn has_master_key_provider(&self) -> bool {
        self.master_key_provider is Some
    }

    /// The checker with `provider` as its provider of HTTPS list URLs.
    pub fn with_https_provider(self, provider: Box<dyn HttpsUrlProvider>) -> (c: DefaultRevocationChecker)
        ensures
            c.has_https_provider(),
            c.has_master_key_provider() == self.has_master_key_provider(),
            c.cache_view() == self.cache_view(),
            forall|d: Seq<char>, k: Option<Seq<u8>>| #[trigger] c.key_provider_answers(d, k) == self.key_provider_answers(d, k),
    {
        DefaultRevocationChecker {
            cache: self.cache,
            https_url_provider: Some(provider),
            master_key_provider: self.master_key_provider,
        }
    }

    /// The checker with `provider` as its provider of master keys.
    pub fn with_master_key_provider(self, provider: Box<dyn MasterKeyProvider>) -> (c: DefaultRevocationChecker)
        ensures
            c.has_master_key_provider(),
            c.has_https_provider() == self.has_https_provider(),
            c.cache_view() == self.cache_view(),
            forall|d: Seq<char>, u: Option<Seq<char>>| #[trigger] c.url_provider_answers(d, u) == self.url_provider_answers(d, u),
    {
        DefaultRevocationChecker {
            cache: self.cache,
            https_url_provider: self.https_url_provider,
            master_key_provider: Some(provider),
        }
    }

    /// Whether `u` is an answer that the checker's URL provider gives about
    /// `domain` (never, without one).
    pub closed spec fn url_provider_answers(&self, domain: Seq<char>, u: Option<Seq<char>>) -> bool {
        match self.https_url_provider {
            Some(p) => p.url_answers(domain, u),
            None => false,
        }
    }

    /// Whether `k` is an answer that the checker's key provider gives about
    /// `domain` (never, without one).
    pub closed spec fn key_provider_answers(&self, domain: Seq<char>, k: Option<Seq<u8>>) -> bool {
        match self.master_key_provider {
            Some(p) => p.key_answers(domain, k),
            None => false,
        }
    }

    /// The HTTPS revocation list to fetch for `domain` on a cache miss: its
    /// URL and the master key that must sign it. The URL provider is asked
    /// about the domain; where it gives a URL and there is a key provider,
    /// that is asked about the domain too, and where it gives a key the
    /// result is the URL and the key. In every other case there is none.
    pub fn https_source(&self, domain: &str) -> (r: Option<(String, Ed25519PublicKey)>)
        ensures
            !self.has_https_provider() ==> r is None,
            self.has_https_provider() ==> exists|u: Option<Seq<char>>|
                #[trigger] self.url_provider_answers(domain@, u) && match u {
                    None => r is None,
                    Some(url) => if !self.has_master_key_provider() {
                        r is None
                    } else {
                        exists|k: Option<Seq<u8>>|
                            #[trigger] self.key_provider_answers(domain@, k) && match k {
                                None => r is None,
                                Some(key) => r matches Some((ru, rk)) && ru@ == url && rk@ == key,
                            }
                    },
                },
    {
        match &self.https_url_provider {
            Some(urls) => {
                let u = urls.get_url(domain);
                assert(self.url_provider_answers(domain@, opt_text(u)));
                match u {
                    Some(url) => match &self.master_key_provider {
                        Some(keys) => {
                            let k = keys.get_master_key(domain);
                            assert(self.key_provider_answers(domain@, opt_key(k)));
                            match k {
                                Some(key) => Some((url, key)),
                                None => None,
                            }
                        },
                        None => None,
                    },
                    None => None,
                }
            },
            None => None,
        }
    }

    /// The answer the cache gives at time `now` for a delegation of
    /// `domain`: `None` on a miss (no data, or expired), else whether the
    /// cached data revokes it.
    pub fn cached_answer_at(&self, domain: &str, delegation_id: &DelegationId, now: u64) -> (r: Option<bool>)
        ensures
            r == match cache_lookup(self.cache_view(), domain@, now) {
                Some(c) => Some(c.revoked_ids.contains(uuid_text(delegation_id@))),
                None => None,
            },
    {
        let t = delegation_id.to_string();
        match self.cache.get_at(domain, now) {
            Some(c) => Some(c.revoked_ids.contains(t.as_str())),
            None => None,
        }
    }

    /// Takes fetched DNS and HTTPS data of `domain` on a cache miss: the
    /// answer is whether either revokes the delegation, and their merge is
    /// cached.
    pub fn absorb_fetched(&mut self, domain: &str, delegation_id: &DelegationId, dns_data: Option<CachedRevocationData>, https_data: Option<CachedRevocationData>) -> (r: bool)
        ensures
            r == (data_revokes(opt_cached(dns_data), uuid_text(delegation_id@)) || data_revokes(opt_cached(https_data), uuid_text(delegation_id@))),
            merged_view(opt_cached(dns_data), opt_cached(https_data)).revoked_ids.len() == 0 ==> final(self).cache_view() == old(self).cache_view(),
            merged_view(opt_cached(dns_data), opt_cached(https_data)).revoked_ids.len() != 0 ==> final(self).cache_view() == old(self).cache_view().insert(
                domain@,
                merged_view(opt_cached(dns_data), opt_cached(https_data)),
            ),
    {
        let t = delegation_id.to_string();
        let in_dns = match &dns_data {
            Some(d) => d.revoked_ids.contains(t.as_str()),
            None => false,
        };
        let in_https = match &https_data {
            Some(h) => h.revoked_ids.contains(t.as_str()),
            None => false,
        };
        self.cache.put_merged(String::from_str(domain), dns_data, https_data);
        in_dns || in_https
    }

    /// Takes the fetched DNS data and the outcome of the HTTPS fetch of
    /// `domain` on a cache miss: an error of the HTTPS fetch is passed on and
    /// nothing is cached; else the data are absorbed as `absorb_fetched`
    /// does.
    pub fn absorb_https_outcome(&mut self, domain: &str, delegation_id: &DelegationId, dns_data: Option<CachedRevocationData>, https_outcome: Result<Option<CachedRevocationData>>) -> (r: Result<bool>)
        ensures
            match https_outcome {
                Err(e) => r == Err::<bool, Error>(e) && final(self).cache_view() == old(self).cache_view(),
                Ok(h) => {
                    &&& r == Ok::<bool, Error>(data_revokes(opt_cached(dns_data), uuid_text(delegation_id@))
                        || data_revokes(opt_cached(h), uuid_text(delegation_id@)))
                    &&& merged_view(opt_cached(dns_data), opt_cached(h)).revoked_ids.len() == 0
                        ==> final(self).cache_view() == old(self).cache_view()
                    &&& merged_view(opt_cached(dns_data), opt_cached(h)).revoked_ids.len() != 0
                        ==> final(self).cache_view() == old(self).cache_view().insert(
                        domain@,
                        merged_view(opt_cached(dns_data), opt_cached(h)),
                    )
                },
            },
    {
        match https_outcome {
            Err(e) => Err(e),
            Ok(https_data) => Ok(self.absorb_fetched(domain, delegation_id, dns_data, https_data)),
        }
    }

    /// Clears the cache.
    pub fn clear_cache(&mut self)
        ensures
            final(self).cache_view() == Map::<Seq<char>, CachedView>::empty(),
    {
        self.cache.clear();
    }

    /// Removes the cache entries expired now (the clock).
    pub fn cleanup_cache(&mut self)
        ensures
            exists|now: u64| final(self).cache_view() == #[trigger] unexpired(old(self).cache_view(), now),
    {
        let now = current_timestamp();
        self.cache.cleanup_at(now);
        assert(self.cache_view() == unexpired(old(self).cache_view(), now));
    }
}

} // verus!
