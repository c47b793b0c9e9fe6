//! Known vulnerability checks of the protocol's security audit.

use vstd::prelude::*;

verus! {

/// How severe a vulnerability would be.
#[derive(Debug, Clone, Copy)]
pub enum Severity {
    Critical,
    High,
    Medium,
    Low,
}

/// The label of a severity.
pub open spec fn severity_text(s: Severity) -> Seq<char> {
    match s {
        Severity::Critical => "CRITICAL"@,
        Severity::High => "HIGH"@,
        Severity::Medium => "MEDIUM"@,
        Severity::Low => "LOW"@,
    }
}

impl Severity {
    /// The label of the severity.
    pub fn to_string(&self) -> (r: String)
        ensures
            r@ == severity_text(*self),
    {
        match self {
            Severity::Critical => String::from_str("CRITICAL"),
            Severity::High => String::from_str("HIGH"),
            Severity::Medium => String::from_str("MEDIUM"),
            Severity::Low => String::from_str("LOW"),
        }
    }
}

/// Where the protocol stands against a vulnerability.
#[derive(Debug, Clone, Copy)]
pub enum Status {
    Vulnerable,
    Mitigated,
    NotApplicable,
}

/// The label of a status.
pub open spec fn status_text(s: Status) -> Seq<char> {
    match s {
        Status::Vulnerable => "⚠️  VULNERABLE"@,
        Status::Mitigated => "✅ MITIGATED"@,
        Status::NotApplicable => "ℹ️  N/A"@,
    }
}

impl Status {
    /// The label of the status.
    pub fn to_string(&self) -> (r: String)
        ensures
            r@ == status_text(*self),
    {
        match self {
            Status::Vulnerable => String::from_str("⚠️  VULNERABLE"),
            Status::Mitigated => String::from_str("✅ MITIGATED"),
            Status::NotApplicable => String::from_str("ℹ️  N/A"),
        }
    }
}

/// The result of one vulnerability check.
pub struct VulnReport {
    pub name: String,
    pub severity: Severity,
    pub status: Status,
    pub description: String,
}

/// A report with the given name, severity, status and description.
pub open spec fn report_is(r: VulnReport, name: Seq<char>, severity: Severity, status: Status, description: Seq<char>) -> bool {
    &&& r.name@ == name
    &&& r.severity == severity
    &&& r.status == status
    &&& r.description@ == description
}

/// Ed25519 signatures are not malleable.
pub fn check_signature_malleability() -> (r: VulnReport)
    ensures
        report_is(
            r,
            "Signature Malleability"@,
            Severity::High,
            Status::Mitigated,
            "Ed25519 signatures are deterministic and non-malleable"@,
        ),
{
    VulnReport {
        name: String::from_str("Signature Malleability"),
        severity: Severity::High,
        status: Status::Mitigated,
        description: String::from_str("Ed25519 signatures are deterministic and non-malleable"),
    }
}

/// Timestamps are `u64`: they do not overflow before the year ~584 billion.
pub fn check_timestamp_overflow() -> (r: VulnReport)
    ensures
        report_is(
            r,
            "Timestamp Overflow"@,
            Severity::Medium,
            Status::Mitigated,
            "Using u64 timestamps, safe until year ~584 billion"@,
        ),
{
    let max_timestamp: u64 = u64::MAX;
    let status = if max_timestamp == u64::MAX {
        Status::Mitigated
    } else {
        Status::Vulnerable
    };
    VulnReport {
        name: String::from_str("Timestamp Overflow"),
        severity: Severity::Medium,
        status,
        description: String::from_str("Using u64 timestamps, safe until year ~584 billion"),
    }
}

/// Whether the depth of delegation chains is bounded.
pub fn check_delegation_chain_depth() -> (r: VulnReport)
    ensures
        report_is(
            r,
            "Unbounded Delegation Chain"@,
            Severity::High,
            Status::NotApplicable,
            "Verify MAX_CHAIN_DEPTH is enforced in locd-verification"@,
        ),
{
    VulnReport {
        name: String::from_str("Unbounded Delegation Chain"),
        severity: Severity::High,
        status: Status::NotApplicable,
        description: String::from_str("Verify MAX_CHAIN_DEPTH is enforced in locd-verification"),
    }
}

/// Whether the CBOR parser copes with deeply nested items.
pub fn check_cbor_bomb() -> (r: VulnReport)
    ensures
        report_is(
            r,
            "CBOR Bomb (Nested Structures)"@,
            Severity::High,
            Status::NotApplicable,
            "Test ciborium's handling of deeply nested arrays/maps"@,
        ),
{
    VulnReport {
        name: String::from_str("CBOR Bomb (Nested Structures)"),
        severity: Severity::High,
        status: Status::NotApplicable,
        description: String::from_str("Test ciborium's handling of deeply nested arrays/maps"),
    }
}

/// Ed25519 keys may sign many messages.
pub fn check_key_reuse() -> (r: VulnReport)
    ensures
        report_is(
            r,
            "Key Reuse"@,
            Severity::Low,
            Status::Mitigated,
            "Ed25519 allows safe key reuse with unique nonces"@,
        ),
{
    VulnReport {
        name: String::from_str("Key Reuse"),
        severity: Severity::Low,
        status: Status::Mitigated,
        description: String::from_str("Ed25519 allows safe key reuse with unique nonces"),
    }
}

/// All five checks, in order: signature malleability, timestamp overflow,
/// delegation chain depth, CBOR bomb, key reuse.
pub fn check_all_vulnerabilities() -> (r: Vec<VulnReport>)
    ensures
        r@.len() == 5,
        r@[0].name@ == "Signature Malleability"@ && r@[0].status == Status::Mitigated,
        r@[1].name@ == "Timestamp Overflow"@ && r@[1].status == Status::Mitigated,
        r@[2].name@ == "Unbounded Delegation Chain"@ && r@[2].status == Status::NotApplicable,
        r@[3].name@ == "CBOR Bomb (Nested Structures)"@ && r@[3].status == Status::NotApplicable,
        r@[4].name@ == "Key Reuse"@ && r@[4].status == Status::Mitigated,
        r@[0].severity == Severity::High && r@[1].severity == Severity::Medium && r@[2].severity
            == Severity::High && r@[3].severity == Severity::High && r@[4].severity == Severity::Low,
{
    let mut reports: Vec<VulnReport> = Vec::new();
    reports.push(check_signature_malleability());
    reports.push(check_timestamp_overflow());
    reports.push(check_delegation_chain_depth());
    reports.push(check_cbor_bomb());
    reports.push(check_key_reuse());
    reports
}

/// The number of reports with the given status.
pub open spec fn count_status(rs: Seq<VulnReport>, s: Status) -> nat
    decreases rs.len(),
{
    if rs.len() == 0 {
        0
    } else {
        count_status(rs.drop_last(), s) + if rs.last().status == s {
            1nat
        } else {
            0nat
        }
    }
}

/// How many reports are mitigated and how many are vulnerable.
pub fn scan_counts(reports: &Vec<VulnReport>) -> (r: (usize, usize))
    ensures
        r.0 == count_status(reports@, Status::Mitigated),
        r.1 == count_status(reports@, Status::Vulnerable),
{
    let mut mitigated: usize = 0;
    let mut vulnerable: usize = 0;
    let mut i: usize = 0;
    while i < reports.len()
        invariant
            i <= reports@.len(),
            mitigated == count_status(reports@.subrange(0, i as int), Status::Mitigated),
            vulnerable == count_status(reports@.subrange(0, i as int), Status::Vulnerable),
            mitigated <= i,
            vulnerable <= i,
        decreases reports@.len() - i,
    {
        proof {
            assert(reports@.subrange(0, i + 1).drop_last() =~= reports@.subrange(0, i as int));
        }
        match reports[i].status {
            Status::Mitigated => mitigated = mitigated + 1,
            Status::Vulnerable => vulnerable = vulnerable + 1,
            Status::NotApplicable => {},
        }
        i = i + 1;
    }
    assert(reports@.subrange(0, reports@.len() as int) =~= reports@);
    (mitigated, vulnerable)
}

} // verus!
