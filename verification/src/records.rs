//! DNS TXT records of the protocol: the identity record (`_locd.<domain>`),
//! the revocation record (`_locd-revoke.<domain>`) and the key rotation
//! record (`_locd-rotate.<domain>`), their text form and its parsing.

use vstd::prelude::*;
use crate::constants::{PROTOCOL_VERSION, REVOCATION_TYPE, ROTATION_TYPE};
use crate::encoding::{base64url_encode, base64url_of, is_b64url_char};
use crate::error::{Error, Result};
use crate::text::{
    decimal, is_ws, join_strs, join_with, lemma_parse_decimal, parse_u64, parse_u64_spec,
    split_on, split_trimmed, str_eq, trim_all, u64_to_decimal, concat2,
};
use crate::txt::{
    clean_key, clean_value, entries_text, field_get, has_no, lemma_decimal_clean,
    lemma_entries_roundtrip, lemma_field_get_absent, lemma_field_get_at, lemma_split_join,
    lemma_trim_trimmed, parse_txt_fields, push_entry, trimmed, txt_fields, Field,
};
use crate::types::IdentityDomain;

verus! {

/// How a record text is refused.
pub enum RecordFailure {
    /// `Error::InvalidIdentityRecord` with this message.
    Invalid(Seq<char>),
    /// `Error::InvalidVersion` with the expected and the found version.
    Version(Seq<char>, Seq<char>),
}

/// Whether the error `e` is the refusal `f`.
pub open spec fn failure_matches(e: Error, f: RecordFailure) -> bool {
    match f {
        RecordFailure::Invalid(m) => e matches Error::InvalidIdentityRecord(s) && s@ == m,
        RecordFailure::Version(x, g) => e matches Error::InvalidVersion { expected, got }
            && expected@ == x && got@ == g,
    }
}

/// Whether `r` answers the parse outcome `o`: the same record on success,
/// the same refusal on failure.
pub open spec fn answers<T: View>(
    r: Result<T>,
    o: core::result::Result<T::V, RecordFailure>,
) -> bool {
    match o {
        Ok(v) => r matches Ok(x) && x@ == v,
        Err(f) => r matches Err(e) && failure_matches(e, f),
    }
}

// ---------------------------------------------------------------- identity

/// The content of an identity record.
pub struct IdentityView {
    pub version: Seq<char>,
    pub algorithm: Seq<char>,
    pub public_key: Seq<char>,
    pub timestamp: u64,
    pub expiry: Option<u64>,
    pub revocation_endpoint: Option<Seq<char>>,
}

/// Identity record (`_locd.<domain>`), in the text form
/// `v=locd1; k=ed25519; p=<base64url>; t=<timestamp>[; exp=<timestamp>][; rev=<url>]`.
#[derive(Debug, Clone)]
pub struct IdentityRecord {
    /// Protocol version (must be "locd1").
    pub version: String,
    /// Key algorithm (must be "ed25519").
    pub algorithm: String,
    /// Public key (base64url of 32 bytes).
    pub public_key: String,
    /// Publication timestamp (Unix time).
    pub timestamp: u64,
    /// Optional expiry timestamp.
    pub expiry: Option<u64>,
    /// Optional revocation endpoint URL.
    pub revocation_endpoint: Option<String>,
}

impl View for IdentityRecord {
    type V = IdentityView;

    open spec fn view(&self) -> IdentityView {
        IdentityView {
            version: self.version@,
            algorithm: self.algorithm@,
            public_key: self.public_key@,
            timestamp: self.timestamp,
            expiry: self.expiry,
            revocation_endpoint: self.revocation_endpoint.deep_view(),
        }
    }
}

/// The fields of an identity record's text, in order.
pub open spec fn identity_fields(v: IdentityView) -> Seq<Field> {
    seq![
        ("v"@, v.version),
        ("k"@, v.algorithm),
        ("p"@, v.public_key),
        ("t"@, decimal(v.timestamp as nat)),
    ] + match v.expiry {
        Some(e) => seq![("exp"@, decimal(e as nat))],
        None => Seq::empty(),
    } + match v.revocation_endpoint {
        Some(r) => seq![("rev"@, r)],
        None => Seq::empty(),
    }
}

/// The identity record that parsed fields denote, or why they denote none.
pub open spec fn identity_from_fields(fs: Seq<Field>) -> core::result::Result<
    IdentityView,
    RecordFailure,
> {
    match field_get(fs, "v"@) {
        None => Err(RecordFailure::Invalid("Missing version"@)),
        Some(v) => if v != "locd1"@ {
            Err(RecordFailure::Version("locd1"@, v))
        } else {
            match field_get(fs, "k"@) {
                None => Err(RecordFailure::Invalid("Missing algorithm"@)),
                Some(k) => if k != "ed25519"@ {
                    Err(RecordFailure::Invalid("Unsupported algorithm: "@ + k))
                } else {
                    match field_get(fs, "p"@) {
                        None => Err(RecordFailure::Invalid("Missing public key"@)),
                        Some(p) => match field_get(fs, "t"@) {
                            None => Err(RecordFailure::Invalid("Missing timestamp"@)),
                            Some(t) => match parse_u64_spec(t) {
                                None => Err(RecordFailure::Invalid("Invalid timestamp"@)),
                                Some(ts) => Ok(
                                    IdentityView {
                                        version: v,
                                        algorithm: k,
                                        public_key: p,
                                        timestamp: ts,
                                        expiry: match field_get(fs, "exp"@) {
                                            Some(e) => parse_u64_spec(e),
                                            None => None,
                                        },
                                        revocation_endpoint: field_get(fs, "rev"@),
                                    },
                                ),
                            },
                        },
                    }
                }
            }
        }
    }
}

/// What parsing an identity record text gives.
pub open spec fn identity_parse(txt: Seq<char>) -> core::result::Result<IdentityView, RecordFailure> {
    match txt_fields(txt) {
        Err(bad) => Err(RecordFailure::Invalid("Invalid field: "@ + bad)),
        Ok(fs) => identity_from_fields(fs),
    }
}

/// The error `InvalidIdentityRecord` with the given message.
fn invalid(msg: &str) -> (e: Error)
    ensures
        failure_matches(e, RecordFailure::Invalid(msg@)),
{
    Error::InvalidIdentityRecord(String::from_str(msg))
}

/// The error `InvalidVersion` for the expected and the found version.
fn wrong_version(expected: &str, got: &String) -> (e: Error)
    ensures
        failure_matches(e, RecordFailure::Version(expected@, got@)),
{
    Error::InvalidVersion { expected: String::from_str(expected), got: got.clone() }
}

/// Base64url text is a clean field value.
proof fn lemma_b64_clean(s: Seq<char>)
    requires
        forall|i: int| 0 <= i < s.len() ==> is_b64url_char(#[trigger] s[i]),
    ensures
        clean_value(s),
{
    if s.len() > 0 {
        assert(is_b64url_char(s[0]));
        assert(is_b64url_char(s[s.len() - 1]));
    }
    assert forall|i: int| 0 <= i < s.len() implies s[i] != ';' by {
        assert(is_b64url_char(s[i]));
    }
}

impl IdentityRecord {
    /// A new identity record for the public key `public_key_bytes`,
    /// published at `timestamp`, without expiry or revocation endpoint.
    pub fn new(public_key_bytes: &[u8], timestamp: u64) -> (r: IdentityRecord)
        requires
            public_key_bytes@.len() <= usize::MAX / 4,
        ensures
            r@ == (IdentityView {
                version: "locd1"@,
                algorithm: "ed25519"@,
                public_key: base64url_of(public_key_bytes@),
                timestamp,
                expiry: None,
                revocation_endpoint: None,
            }),
            clean_value(r@.public_key),
            r@.public_key.len() == (public_key_bytes@.len() * 4 + 2) / 3,
    {
        let pk = base64url_encode(public_key_bytes);
        proof {
            lemma_b64_clean(pk@);
        }
        IdentityRecord {
            version: String::from_str(PROTOCOL_VERSION),
            algorithm: String::from_str("ed25519"),
            public_key: pk,
            timestamp,
            expiry: None,
            revocation_endpoint: None,
        }
    }

    /// This record with the expiry timestamp set.
    pub fn with_expiry(self, expiry: u64) -> (r: IdentityRecord)
        ensures
            r@ == (IdentityView { expiry: Some(expiry), ..self@ }),
    {
        let mut s = self;
        s.expiry = Some(expiry);
        s
    }

    /// This record with the revocation endpoint set.
    pub fn with_revocation_endpoint(self, url: &str) -> (r: IdentityRecord)
        ensures
            r@ == (IdentityView { revocation_endpoint: Some(url@), ..self@ }),
    {
        let mut s = self;
        s.revocation_endpoint = Some(String::from_str(url));
        s
    }

    /// The DNS TXT record value.
    pub fn to_txt_record(&self) -> (r: String)
        ensures
            r@ == entries_text(identity_fields(self@)),
    {
        let mut out = String::new();
        let ghost mut es: Seq<Field> = Seq::empty();
        push_entry(&mut out, "v", self.version.as_str(), Ghost(es));
        proof {
            es = es.push(("v"@, self.version@));
        }
        push_entry(&mut out, "k", self.algorithm.as_str(), Ghost(es));
        proof {
            es = es.push(("k"@, self.algorithm@));
        }
        push_entry(&mut out, "p", self.public_key.as_str(), Ghost(es));
        proof {
            es = es.push(("p"@, self.public_key@));
        }
        let t = u64_to_decimal(self.timestamp);
        push_entry(&mut out, "t", t.as_str(), Ghost(es));
        proof {
            es = es.push(("t"@, t@));
        }
        let ghost base = es;
        match self.expiry {
            Some(e) => {
                let d = u64_to_decimal(e);
                push_entry(&mut out, "exp", d.as_str(), Ghost(es));
                proof {
                    es = es.push(("exp"@, d@));
                }
            },
            None => {},
        }
        let ghost with_exp = es;
        match &self.revocation_endpoint {
            Some(r) => {
                push_entry(&mut out, "rev", r.as_str(), Ghost(es));
                proof {
                    es = es.push(("rev"@, r@));
                }
            },
            None => {},
        }
        assert(es =~= identity_fields(self@));
        out
    }

    /// Parses a DNS TXT record value.
    pub fn from_txt_record(txt: &str) -> (r: Result<IdentityRecord>)
        ensures
            answers(r, identity_parse(txt@)),
    {
        let fields = match parse_txt_fields(txt) {
            Ok(f) => f,
            Err(e) => return Err(e),
        };
        let version = match fields.get("v") {
            Some(v) => v,
            None => return Err(invalid("Missing version")),
        };
        if !str_eq(version.as_str(), PROTOCOL_VERSION) {
            return Err(wrong_version(PROTOCOL_VERSION, version));
        }
        let algorithm = match fields.get("k") {
            Some(k) => k,
            None => return Err(invalid("Missing algorithm")),
        };
        if !str_eq(algorithm.as_str(), "ed25519") {
            return Err(Error::InvalidIdentityRecord(concat2("Unsupported algorithm: ", algorithm.as_str())));
        }
        let public_key = match fields.get("p") {
            Some(p) => p.clone(),
            None => return Err(invalid("Missing public key")),
        };
        let t = match fields.get("t") {
            Some(t) => t,
            None => return Err(invalid("Missing timestamp")),
        };
        let timestamp = match parse_u64(t.as_str()) {
            Some(ts) => ts,
            None => return Err(invalid("Invalid timestamp")),
        };
        let expiry = match fields.get("exp") {
            Some(e) => parse_u64(e.as_str()),
            None => None,
        };
        let revocation_endpoint = match fields.get("rev") {
            Some(r) => Some(r.clone()),
            None => None,
        };
        Ok(IdentityRecord {
            version: version.clone(),
            algorithm: algorithm.clone(),
            public_key,
            timestamp,
            expiry,
            revocation_endpoint,
        })
    }

    /// The DNS record name for `domain`: "_locd.<domain>".
    pub fn record_name(domain: &IdentityDomain) -> (r: String)
        ensures
            r@ == "_locd."@ + domain@,
    {
        domain.identity_record_name()
    }
}

/// The keys of the fields are pairwise distinct.
pub open spec fn distinct_keys(fs: Seq<Field>) -> bool {
    forall|a: int, b: int| 0 <= a < b < fs.len() ==> fs[a].0 != fs[b].0
}

proof fn lemma_identity_fields_shape(v: IdentityView)
    requires
        v.version == "locd1"@,
        v.algorithm == "ed25519"@,
        clean_value(v.public_key),
        v.revocation_endpoint matches Some(r) ==> clean_value(r),
    ensures
        forall|i: int| 0 <= i < identity_fields(v).len() ==> clean_key(#[trigger] identity_fields(v)[i].0)
            && clean_value(identity_fields(v)[i].1),
        distinct_keys(identity_fields(v)),
{
    reveal_strlit("v");
    reveal_strlit("k");
    reveal_strlit("p");
    reveal_strlit("t");
    reveal_strlit("exp");
    reveal_strlit("rev");
    reveal_strlit("locd1");
    reveal_strlit("ed25519");
    lemma_decimal_clean(v.timestamp as nat);
    if let Some(e) = v.expiry {
        lemma_decimal_clean(e as nat);
    }
    let fs = identity_fields(v);
    assert forall|i: int| 0 <= i < fs.len() implies clean_key(#[trigger] fs[i].0) && clean_value(
        fs[i].1,
    ) by {
        if i == 0 {
            assert(fs[i] == ("v"@, v.version));
        } else if i == 1 {
            assert(fs[i] == ("k"@, v.algorithm));
        } else if i == 2 {
            assert(fs[i] == ("p"@, v.public_key));
        } else if i == 3 {
            assert(fs[i] == ("t"@, decimal(v.timestamp as nat)));
        }
    }
    assert forall|a: int, b: int| 0 <= a < b < fs.len() implies fs[a].0 != fs[b].0 by {
        assert(fs[a].0.len() != fs[b].0.len() || fs[a].0[0] != fs[b].0[0]);
    }
}

/// An identity record with the protocol's version and algorithm, whose
/// public key and revocation endpoint the field syntax carries (trimmed, no
/// ';'), parses back from its text.
pub proof fn identity_record_roundtrip(v: IdentityView)
    requires
        v.version == "locd1"@,
        v.algorithm == "ed25519"@,
        clean_value(v.public_key),
        v.revocation_endpoint matches Some(r) ==> clean_value(r),
    ensures
        identity_parse(entries_text(identity_fields(v))) == Ok::<IdentityView, RecordFailure>(v),
{
    let fs = identity_fields(v);
    lemma_identity_fields_shape(v);
    lemma_entries_roundtrip(fs);
    reveal_strlit("v");
    reveal_strlit("k");
    reveal_strlit("p");
    reveal_strlit("t");
    reveal_strlit("exp");
    reveal_strlit("rev");
    lemma_field_get_at(fs, 0);
    lemma_field_get_at(fs, 1);
    lemma_field_get_at(fs, 2);
    lemma_field_get_at(fs, 3);
    lemma_parse_decimal(v.timestamp);
    match v.expiry {
        Some(e) => {
            lemma_field_get_at(fs, 4);
            lemma_parse_decimal(e);
            match v.revocation_endpoint {
                Some(r) => lemma_field_get_at(fs, 5),
                None => {
                    assert forall|a: int| 0 <= a < fs.len() implies fs[a].0 != "rev"@ by {
                        assert(fs[a].0.len() != 3 || fs[a].0[0] != 'r');
                    }
                    lemma_field_get_absent(fs, "rev"@);
                },
            }
        },
        None => {
            assert forall|a: int| 0 <= a < fs.len() implies fs[a].0 != "exp"@ by {
                assert(fs[a].0.len() != 3 || fs[a].0[0] != 'e');
            }
            lemma_field_get_absent(fs, "exp"@);
            match v.revocation_endpoint {
                Some(r) => lemma_field_get_at(fs, 4),
                None => {
                    assert forall|a: int| 0 <= a < fs.len() implies fs[a].0 != "rev"@ by {
                        assert(fs[a].0.len() != 3 || fs[a].0[0] != 'r');
                    }
                    lemma_field_get_absent(fs, "rev"@);
                },
            }
        },
    }
}

// -------------------------------------------------------------- revocation

/// The content of a revocation record.
pub struct RevocationView {
    pub version: Seq<char>,
    pub revoked_ids: Seq<Seq<char>>,
    pub timestamp: u64,
}

/// Revocation record (`_locd-revoke.<domain>`), in the text form
/// `v=locd-revoke1; ids=<id1>,<id2>,...; t=<timestamp>`.
#[derive(Debug, Clone)]
pub struct RevocationRecord {
    /// Record type and version (must be "locd-revoke1").
    pub version: String,
    /// Revoked delegation IDs (UUIDs).
    pub revoked_ids: Vec<String>,
    /// Timestamp of the revocation list.
    pub timestamp: u64,
}

impl View for RevocationRecord {
    type V = RevocationView;

    open spec fn view(&self) -> RevocationView {
        RevocationView {
            version: self.version@,
            revoked_ids: self.revoked_ids.deep_view(),
            timestamp: self.timestamp,
        }
    }
}

/// The fields of a revocation record's text, in order.
pub open spec fn revocation_fields(v: RevocationView) -> Seq<Field> {
    seq![
        ("v"@, v.version),
        ("ids"@, join_with(v.revoked_ids, ","@)),
        ("t"@, decimal(v.timestamp as nat)),
    ]
}

/// The IDs that the value of an `ids` field lists: none for an empty value,
/// else its comma-separated pieces, trimmed.
pub open spec fn id_list(s: Seq<char>) -> Seq<Seq<char>> {
    if s.len() == 0 {
        Seq::empty()
    } else {
        trim_all(split_on(s, ','))
    }
}

/// The revocation record that parsed fields denote, or why they denote none.
pub open spec fn revocation_from_fields(fs: Seq<Field>) -> core::result::Result<
    RevocationView,
    RecordFailure,
> {
    match field_get(fs, "v"@) {
        None => Err(RecordFailure::Invalid("Missing version"@)),
        Some(v) => if v != "locd-revoke1"@ {
            Err(RecordFailure::Version("locd-revoke1"@, v))
        } else {
            match field_get(fs, "ids"@) {
                None => Err(RecordFailure::Invalid("Missing IDs"@)),
                Some(ids) => match field_get(fs, "t"@) {
                    None => Err(RecordFailure::Invalid("Missing timestamp"@)),
                    Some(t) => match parse_u64_spec(t) {
                        None => Err(RecordFailure::Invalid("Invalid timestamp"@)),
                        Some(ts) => Ok(
                            RevocationView { version: v, revoked_ids: id_list(ids), timestamp: ts },
                        ),
                    },
                },
            }
        }
    }
}

/// What parsing a revocation record text gives.
pub open spec fn revocation_parse(txt: Seq<char>) -> core::result::Result<
    RevocationView,
    RecordFailure,
> {
    match txt_fields(txt) {
        Err(bad) => Err(RecordFailure::Invalid("Invalid field: "@ + bad)),
        Ok(fs) => revocation_from_fields(fs),
    }
}

impl RevocationRecord {
    /// A new revocation record listing `revoked_ids` at `timestamp`.
    pub fn new(revoked_ids: Vec<String>, timestamp: u64) -> (r: RevocationRecord)
        ensures
            r@ == (RevocationView {
                version: "locd-revoke1"@,
                revoked_ids: revoked_ids.deep_view(),
                timestamp,
            }),
    {
        RevocationRecord { version: String::from_str(REVOCATION_TYPE), revoked_ids, timestamp }
    }

    /// The DNS TXT record value.
    pub fn to_txt_record(&self) -> (r: String)
        ensures
            r@ == entries_text(revocation_fields(self@)),
    {
        let mut out = String::new();
        let ghost mut es: Seq<Field> = Seq::empty();
        push_entry(&mut out, "v", self.version.as_str(), Ghost(es));
        proof {
            es = es.push(("v"@, self.version@));
        }
        let ids = join_strs(&self.revoked_ids, ",");
        push_entry(&mut out, "ids", ids.as_str(), Ghost(es));
        proof {
            es = es.push(("ids"@, ids@));
        }
        let t = u64_to_decimal(self.timestamp);
        push_entry(&mut out, "t", t.as_str(), Ghost(es));
        proof {
            es = es.push(("t"@, t@));
        }
        assert(es =~= revocation_fields(self@));
        out
    }

    /// Parses a DNS TXT record value.
    pub fn from_txt_record(txt: &str) -> (r: Result<RevocationRecord>)
        ensures
            answers(r, revocation_parse(txt@)),
    {
        let fields = match parse_txt_fields(txt) {
            Ok(f) => f,
            Err(e) => return Err(e),
        };
        let version = match fields.get("v") {
            Some(v) => v,
            None => return Err(invalid("Missing version")),
        };
        if !str_eq(version.as_str(), REVOCATION_TYPE) {
            return Err(wrong_version(REVOCATION_TYPE, version));
        }
        let ids = match fields.get("ids") {
            Some(i) => i,
            None => return Err(invalid("Missing IDs")),
        };
        let revoked_ids: Vec<String> = if ids.as_str().is_empty() {
            let v: Vec<String> = Vec::new();
            assert(v.deep_view() =~= Seq::<Seq<char>>::empty());
            v
        } else {
            split_trimmed(ids.as_str(), ',')
        };
        let t = match fields.get("t") {
            Some(t) => t,
            None => return Err(invalid("Missing timestamp")),
        };
        let timestamp = match parse_u64(t.as_str()) {
            Some(ts) => ts,
            None => return Err(invalid("Invalid timestamp")),
        };
        Ok(RevocationRecord { version: version.clone(), revoked_ids, timestamp })
    }

    /// The DNS record name for `domain`: "_locd-revoke.<domain>".
    pub fn record_name(domain: &IdentityDomain) -> (r: String)
        ensures
            r@ == "_locd-revoke."@ + domain@,
    {
        domain.revocation_record_name()
    }
}

/// An ID that an `ids` field carries unchanged: trimmed, without ',' or ';'.
pub open spec fn clean_id(s: Seq<char>) -> bool {
    trimmed(s) && has_no(s, ',') && has_no(s, ';')
}

proof fn lemma_join_ids(ids: Seq<Seq<char>>)
    requires
        forall|i: int| 0 <= i < ids.len() ==> clean_id(#[trigger] ids[i]),
    ensures
        trimmed(join_with(ids, ","@)),
        has_no(join_with(ids, ","@), ';'),
        ids.len() >= 2 ==> join_with(ids, ","@).len() > 0,
        ids.len() == 1 ==> join_with(ids, ","@) == ids[0],
    decreases ids.len(),
{
    reveal_strlit(",");
    let j = join_with(ids, ","@);
    if ids.len() == 1 {
        assert(clean_id(ids[0]));
    } else if ids.len() >= 2 {
        let init = ids.drop_last();
        assert forall|i: int| 0 <= i < init.len() implies clean_id(#[trigger] init[i]) by {
            assert(init[i] == ids[i]);
        }
        lemma_join_ids(init);
        let a = join_with(init, ","@);
        let l = ids.last();
        assert(clean_id(ids[ids.len() - 1]));
        assert(j =~= a + seq![','] + l);
        assert(has_no(j, ';')) by {
            assert forall|i: int| 0 <= i < j.len() implies j[i] != ';' by {
                if i < a.len() {
                    assert(j[i] == a[i]);
                } else if i > a.len() {
                    assert(j[i] == l[i - a.len() - 1]);
                }
            }
        }
        if a.len() > 0 {
            assert(j[0] == a[0]);
        } else {
            assert(j[0] == ',');
        }
        if l.len() > 0 {
            assert(j[j.len() - 1] == l[l.len() - 1]);
        } else {
            assert(j[j.len() - 1] == ',');
        }
        assert(is_ws(',') == false);
    }
}

/// A revocation record with the protocol's record type, whose IDs are
/// trimmed and hold no ',' or ';', parses back from its text; the one
/// exception is a list made of a single empty ID, whose text lists none.
pub proof fn revocation_record_roundtrip(v: RevocationView)
    requires
        v.version == "locd-revoke1"@,
        forall|i: int| 0 <= i < v.revoked_ids.len() ==> clean_id(#[trigger] v.revoked_ids[i]),
        !(v.revoked_ids.len() == 1 && v.revoked_ids[0].len() == 0),
    ensures
        revocation_parse(entries_text(revocation_fields(v))) == Ok::<RevocationView, RecordFailure>(v),
{
    reveal_strlit("v");
    reveal_strlit("ids");
    reveal_strlit("t");
    reveal_strlit("locd-revoke1");
    reveal_strlit(",");
    let ids = v.revoked_ids;
    let j = join_with(ids, ","@);
    lemma_join_ids(ids);
    lemma_decimal_clean(v.timestamp as nat);
    let fs = revocation_fields(v);
    assert forall|i: int| 0 <= i < fs.len() implies clean_key(#[trigger] fs[i].0) && clean_value(
        fs[i].1,
    ) by {
        if i == 0 {
            assert(fs[i] == ("v"@, v.version));
        } else if i == 1 {
            assert(fs[i] == ("ids"@, j));
        } else {
            assert(fs[i] == ("t"@, decimal(v.timestamp as nat)));
        }
    }
    lemma_entries_roundtrip(fs);
    assert forall|a: int, b: int| 0 <= a < b < fs.len() implies fs[a].0 != fs[b].0 by {
        assert(fs[a].0.len() != fs[b].0.len() || fs[a].0[0] != fs[b].0[0]);
    }
    lemma_field_get_at(fs, 0);
    lemma_field_get_at(fs, 1);
    lemma_field_get_at(fs, 2);
    lemma_parse_decimal(v.timestamp);
    if ids.len() == 0 {
        assert(id_list(j) =~= ids);
    } else {
        assert(j.len() > 0);
        assert(forall|i: int| 0 <= i < ids.len() ==> has_no(#[trigger] ids[i], ',')) by {
            assert forall|i: int| 0 <= i < ids.len() implies has_no(#[trigger] ids[i], ',') by {
                assert(clean_id(ids[i]));
            }
        }
        assert(","@ == seq![',']);
        lemma_split_join(ids, ',');
        assert forall|i: int| 0 <= i < ids.len() implies trim_all(ids)[i] == ids[i] by {
            assert(clean_id(ids[i]));
            lemma_trim_trimmed(ids[i]);
        }
        assert(id_list(j) =~= ids);
    }
}

// ---------------------------------------------------------------- rotation

/// The content of a key rotation record.
pub struct RotationView {
    pub version: Seq<char>,
    pub old_key: Seq<char>,
    pub new_key: Seq<char>,
    pub signature: Seq<char>,
}

/// Key rotation record (`_locd-rotate.<domain>`), in the text form
/// `v=locd-rotate1; old=<base64url>; new=<base64url>; sig=<base64url>`.
#[derive(Debug, Clone)]
pub struct RotationRecord {
    /// Record type and version (must be "locd-rotate1").
    pub version: String,
    /// Old public key (base64url).
    pub old_key: String,
    /// New public key (base64url).
    pub new_key: String,
    /// Signature of the rotation (base64url).
    pub signature: String,
}

impl View for RotationRecord {
    type V = RotationView;

    open spec fn view(&self) -> RotationView {
        RotationView {
            version: self.version@,
            old_key: self.old_key@,
            new_key: self.new_key@,
            signature: self.signature@,
        }
    }
}

/// The fields of a rotation record's text, in order.
pub open spec fn rotation_fields(v: RotationView) -> Seq<Field> {
    seq![("v"@, v.version), ("old"@, v.old_key), ("new"@, v.new_key), ("sig"@, v.signature)]
}

/// The rotation record that parsed fields denote, or why they denote none.
pub open spec fn rotation_from_fields(fs: Seq<Field>) -> core::result::Result<
    RotationView,
    RecordFailure,
> {
    match field_get(fs, "v"@) {
        None => Err(RecordFailure::Invalid("Missing version"@)),
        Some(v) => if v != "locd-rotate1"@ {
            Err(RecordFailure::Version("locd-rotate1"@, v))
        } else {
            match field_get(fs, "old"@) {
                None => Err(RecordFailure::Invalid("Missing old key"@)),
                Some(o) => match field_get(fs, "new"@) {
                    None => Err(RecordFailure::Invalid("Missing new key"@)),
                    Some(n) => match field_get(fs, "sig"@) {
                        None => Err(RecordFailure::Invalid("Missing signature"@)),
                        Some(g) => Ok(
                            RotationView { version: v, old_key: o, new_key: n, signature: g },
                        ),
                    },
                },
            }
        }
    }
}

/// What parsing a rotation record text gives.
pub open spec fn rotation_parse(txt: Seq<char>) -> core::result::Result<RotationView, RecordFailure> {
    match txt_fields(txt) {
        Err(bad) => Err(RecordFailure::Invalid("Invalid field: "@ + bad)),
        Ok(fs) => rotation_from_fields(fs),
    }
}

impl RotationRecord {
    /// A new rotation record from `old_key` to `new_key`, with `signature`.
    pub fn new(old_key: String, new_key: String, signature: String) -> (r: RotationRecord)
        ensures
            r@ == (RotationView {
                version: "locd-rotate1"@,
                old_key: old_key@,
                new_key: new_key@,
                signature: signature@,
            }),
    {
        RotationRecord { version: String::from_str(ROTATION_TYPE), old_key, new_key, signature }
    }

    /// The DNS TXT record value.
    pub fn to_txt_record(&self) -> (r: String)
        ensures
            r@ == entries_text(rotation_fields(self@)),
    {
        let mut out = String::new();
        let ghost mut es: Seq<Field> = Seq::empty();
        push_entry(&mut out, "v", self.version.as_str(), Ghost(es));
        proof {
            es = es.push(("v"@, self.version@));
        }
        push_entry(&mut out, "old", self.old_key.as_str(), Ghost(es));
        proof {
            es = es.push(("old"@, self.old_key@));
        }
        push_entry(&mut out, "new", self.new_key.as_str(), Ghost(es));
        proof {
            es = es.push(("new"@, self.new_key@));
        }
        push_entry(&mut out, "sig", self.signature.as_str(), Ghost(es));
        proof {
            es = es.push(("sig"@, self.signature@));
        }
        assert(es =~= rotation_fields(self@));
        out
    }

    /// Parses a DNS TXT record value.
    pub fn from_txt_record(txt: &str) -> (r: Result<RotationRecord>)
        ensures
            answers(r, rotation_parse(txt@)),
    {
        let fields = match parse_txt_fields(txt) {
            Ok(f) => f,
            Err(e) => return Err(e),
        };
        let version = match fields.get("v") {
            Some(v) => v,
            None => return Err(invalid("Missing version")),
        };
        if !str_eq(version.as_str(), ROTATION_TYPE) {
            return Err(wrong_version(ROTATION_TYPE, version));
        }
        let old_key = match fields.get("old") {
            Some(o) => o.clone(),
            None => return Err(invalid("Missing old key")),
        };
        let new_key = match fields.get("new") {
            Some(n) => n.clone(),
            None => return Err(invalid("Missing new key")),
        };
        let signature = match fields.get("sig") {
            Some(g) => g.clone(),
            None => return Err(invalid("Missing signature")),
        };
        Ok(RotationRecord { version: version.clone(), old_key, new_key, signature })
    }

    /// The DNS record name for `domain`: "_locd-rotate.<domain>".
    pub fn record_name(domain: &IdentityDomain) -> (r: String)
        ensures
            r@ == "_locd-rotate."@ + domain@,
    {
        domain.rotation_record_name()
    }
}

/// A rotation record with the protocol's record type, whose keys and
/// signature the field syntax carries (trimmed, no ';'), parses back from
/// its text.
pub proof fn rotation_record_roundtrip(v: RotationView)
    requires
        v.version == "locd-rotate1"@,
        clean_value(v.old_key),
        clean_value(v.new_key),
        clean_value(v.signature),
    ensures
        rotation_parse(entries_text(rotation_fields(v))) == Ok::<RotationView, RecordFailure>(v),
{
    reveal_strlit("v");
    reveal_strlit("old");
    reveal_strlit("new");
    reveal_strlit("sig");
    reveal_strlit("locd-rotate1");
    let fs = rotation_fields(v);
    assert forall|i: int| 0 <= i < fs.len() implies clean_key(#[trigger] fs[i].0) && clean_value(
        fs[i].1,
    ) by {
        if i == 0 {
            assert(fs[i] == ("v"@, v.version));
        } else if i == 1 {
            assert(fs[i] == ("old"@, v.old_key));
        } else if i == 2 {
            assert(fs[i] == ("new"@, v.new_key));
        } else {
            assert(fs[i] == ("sig"@, v.signature));
        }
    }
    lemma_entries_roundtrip(fs);
    assert forall|a: int, b: int| 0 <= a < b < fs.len() implies fs[a].0 != fs[b].0 by {
        assert(fs[a].0.len() != fs[b].0.len() || fs[a].0[0] != fs[b].0[0]);
    }
    lemma_field_get_at(fs, 0);
    lemma_field_get_at(fs, 1);
    lemma_field_get_at(fs, 2);
    lemma_field_get_at(fs, 3);
}

// -------------------------------------------------------------------- laws

/// An identity record parses only with version "locd1" and algorithm
/// "ed25519", its key and timestamp taken from its fields; a text whose
/// `v` field holds another value is refused as a wrong version naming it,
/// one without a `v` field as missing its version, and one with another
/// algorithm as unsupported.
pub proof fn identity_version_law(txt: Seq<char>)
    ensures
        identity_parse(txt) matches Ok(v) ==> {
            &&& v.version == "locd1"@
            &&& v.algorithm == "ed25519"@
            &&& txt_fields(txt) matches Ok(fs) && field_get(fs, "v"@) == Some("locd1"@)
                && field_get(fs, "k"@) == Some("ed25519"@) && field_get(fs, "p"@) == Some(v.public_key)
                && (field_get(fs, "t"@) matches Some(ts) && parse_u64_spec(ts) == Some(v.timestamp))
        },
        match txt_fields(txt) {
            Ok(fs) => match field_get(fs, "v"@) {
                Some(x) => x != "locd1"@ ==> identity_parse(txt) == Err::<IdentityView, RecordFailure>(
                    RecordFailure::Version("locd1"@, x),
                ),
                None => identity_parse(txt) == Err::<IdentityView, RecordFailure>(RecordFailure::Invalid("Missing version"@)),
            },
            Err(_) => true,
        },
        match txt_fields(txt) {
            Ok(fs) => match field_get(fs, "k"@) {
                Some(k) => field_get(fs, "v"@) == Some("locd1"@) && k != "ed25519"@ ==> identity_parse(txt)
                    == Err::<IdentityView, RecordFailure>(RecordFailure::Invalid("Unsupported algorithm: "@ + k)),
                None => true,
            },
            Err(_) => true,
        },
{
}

/// A revocation record parses only with version "locd-revoke1", its
/// timestamp taken from its `t` field; a text whose `v` field holds another
/// value is refused as a wrong version naming it, and one without a `v`
/// field as missing its version.
pub proof fn revocation_version_law(txt: Seq<char>)
    ensures
        revocation_parse(txt) matches Ok(v) ==> {
            &&& v.version == "locd-revoke1"@
            &&& txt_fields(txt) matches Ok(fs) && field_get(fs, "v"@) == Some("locd-revoke1"@)
                && field_get(fs, "ids"@) is Some
                && (field_get(fs, "t"@) matches Some(ts) && parse_u64_spec(ts) == Some(v.timestamp))
        },
        match txt_fields(txt) {
            Ok(fs) => match field_get(fs, "v"@) {
                Some(x) => x != "locd-revoke1"@ ==> revocation_parse(txt) == Err::<RevocationView, RecordFailure>(
                    RecordFailure::Version("locd-revoke1"@, x),
                ),
                None => revocation_parse(txt) == Err::<RevocationView, RecordFailure>(RecordFailure::Invalid("Missing version"@)),
            },
            Err(_) => true,
        },
{
}

/// A rotation record parses only with version "locd-rotate1", its keys and
/// signature taken from its fields; a text whose `v` field holds another
/// value is refused as a wrong version naming it, and one without a `v`
/// field as missing its version.
pub proof fn rotation_version_law(txt: Seq<char>)
    ensures
        rotation_parse(txt) matches Ok(v) ==> {
            &&& v.version == "locd-rotate1"@
            &&& txt_fields(txt) matches Ok(fs) && field_get(fs, "v"@) == Some("locd-rotate1"@)
                && field_get(fs, "old"@) == Some(v.old_key) && field_get(fs, "new"@) == Some(v.new_key)
                && field_get(fs, "sig"@) == Some(v.signature)
        },
        match txt_fields(txt) {
            Ok(fs) => match field_get(fs, "v"@) {
                Some(x) => x != "locd-rotate1"@ ==> rotation_parse(txt) == Err::<RotationView, RecordFailure>(
                    RecordFailure::Version("locd-rotate1"@, x),
                ),
                None => rotation_parse(txt) == Err::<RotationView, RecordFailure>(RecordFailure::Invalid("Missing version"@)),
            },
            Err(_) => true,
        },
{
}

} // verus!

