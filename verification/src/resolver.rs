//! The DNS resolver of protocol records and its query options. Queries are
//! not implemented: the resolver answers with the errors that say so.

use vstd::prelude::*;
use crate::error::{Error, Result};
use crate::records::IdentityRecord;
use crate::text::concat2;
use crate::types::IdentityDomain;

verus! {

/// Options of DNS queries.
#[derive(Debug, Clone)]
pub struct QueryOptions {
    /// Whether DNSSEC validation is required.
    pub require_dnssec: bool,
    /// DNS server to query (`None`: the system default).
    pub server: Option<String>,
    /// Query timeout in seconds.
    pub timeout_secs: u64,
}

impl Default for QueryOptions {
    fn default() -> (o: QueryOptions)
        ensures
            o.require_dnssec && o.server is None && o.timeout_secs == 5,
    {
        QueryOptions { require_dnssec: true, server: None, timeout_secs: 5 }
    }
}

impl QueryOptions {
    /// Options with DNSSEC required, the system's server and a 5-second timeout.
    pub fn new() -> (o: QueryOptions)
        ensures
            o.require_dnssec && o.server is None && o.timeout_secs == 5,
    {
        QueryOptions { require_dnssec: true, server: None, timeout_secs: 5 }
    }

    /// These options without the DNSSEC requirement (not recommended).
    pub fn without_dnssec(self) -> (o: QueryOptions)
        ensures
            !o.require_dnssec && o.server == self.server && o.timeout_secs == self.timeout_secs,
    {
        let mut s = self;
        s.require_dnssec = false;
        s
    }

    /// These options with a DNS server.
    pub fn with_server(self, server: &str) -> (o: QueryOptions)
        ensures
            o.require_dnssec == self.require_dnssec,
            o.server matches Some(x) && x@ == server@,
            o.timeout_secs == self.timeout_secs,
    {
        let mut s = self;
        s.server = Some(String::from_str(server));
        s
    }

    /// These options with a query timeout.
    pub fn with_timeout(self, secs: u64) -> (o: QueryOptions)
        ensures
            o.require_dnssec == self.require_dnssec && o.server == self.server && o.timeout_secs == secs,
    {
        let mut s = self;
        s.timeout_secs = secs;
        s
    }
}

/// DNS resolver of protocol records.
#[derive(Debug)]
pub struct DnsResolver {
    options: QueryOptions,
}

impl DnsResolver {
    /// A resolver with the default options.
    pub fn new() -> (r: DnsResolver)
        ensures
            r.options().require_dnssec && r.options().timeout_secs == 5,
    {
        DnsResolver { options: QueryOptions::new() }
    }

    /// A resolver with the given options.
    pub fn with_options(options: QueryOptions) -> (r: DnsResolver)
        ensures
            r.options() == options,
    {
        DnsResolver { options }
    }

    /// The resolver's options.
    pub closed spec fn options(&self) -> QueryOptions {
        self.options
    }

    /// The resolver's options.
    pub fn query_options(&self) -> (o: &QueryOptions)
        ensures
            *o == self.options(),
    {
        &self.options
    }

    /// Queries the identity record of a domain. Not implemented: the answer
    /// is a DNS error naming the record that would be queried.
    pub fn query_identity(&self, domain: &IdentityDomain) -> (r: Result<IdentityRecord>)
        ensures
            r matches Err(Error::Dns(m)) && m@ == "DNS query not implemented (would query: "@ + ("_locd."@ + domain@) + ")"@,
    {
        let record_name = IdentityRecord::record_name(domain);
        let mut s = String::from_str("DNS query not implemented (would query: ");
        s.append(record_name.as_str());
        s.append(")");
        Err(Error::Dns(s))
    }

    /// Checks DNSSEC for a domain: `Ok(false)` where DNSSEC is not required;
    /// else not implemented, and the answer is a DNS error.
    pub fn validate_dnssec(&self, domain: &str) -> (r: Result<bool>)
        ensures
            !self.options().require_dnssec ==> r == Ok::<bool, Error>(false),
            self.options().require_dnssec ==> (r matches Err(Error::Dns(m)) && m@ == "DNSSEC validation not implemented for: "@ + domain@),
    {
        if !self.options.require_dnssec {
            return Ok(false);
        }
        Err(Error::Dns(concat2("DNSSEC validation not implemented for: ", domain)))
    }
}

impl Default for DnsResolver {
    fn default() -> (r: DnsResolver)
        ensures
            r.options().require_dnssec && r.options().timeout_secs == 5,
    {
        DnsResolver::new()
    }
}

} // verus!
