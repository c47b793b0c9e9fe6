//! Error types for Loc'd Protocol operations.

use vstd::prelude::*;
use crate::text::{concat2, decimal, u64_to_decimal};

verus! {

/// Errors of Loc'd Protocol operations.
#[derive(Debug, Clone)]
pub enum Error {
    /// Cryptographic operation failed.
    Crypto(String),
    /// Invalid key format or encoding.
    InvalidKey(String),
    /// Invalid delegation token.
    InvalidDelegation(String),
    /// Delegation has expired (at the given time).
    DelegationExpired(u64),
    /// Delegation has been revoked.
    DelegationRevoked(String),
    /// Service not permitted by the delegation.
    ServiceNotPermitted(String),
    /// Action not permitted by the delegation.
    ActionNotPermitted(String),
    /// Maximum uses exceeded.
    MaxUsesExceeded(u64),
    /// DNS lookup failed.
    Dns(String),
    /// DNSSEC validation failed.
    DnssecFailed(String),
    /// Identity record not found.
    IdentityNotFound(String),
    /// Invalid identity record format.
    InvalidIdentityRecord(String),
    /// Challenge-response verification failed.
    VerificationFailed(String),
    /// Nonce mismatch.
    NonceMismatch,
    /// Timestamp out of the tolerance window.
    TimestampOutOfTolerance(u64),
    /// Encoding error (CBOR, COSE, Base64).
    Encoding(String),
    /// Decoding error (CBOR, COSE, Base64).
    Decoding(String),
    /// Invalid protocol version.
    InvalidVersion { expected: String, got: String },
    /// Generic error with a custom message.
    Custom(String),
}

/// Result type of Loc'd operations.
pub type Result<T> = core::result::Result<T, Error>;

/// The text that an error displays.
pub open spec fn error_text(e: Error) -> Seq<char> {
    match e {
        Error::Crypto(s) => "Cryptographic error: "@ + s@,
        Error::InvalidKey(s) => "Invalid key: "@ + s@,
        Error::InvalidDelegation(s) => "Invalid delegation: "@ + s@,
        Error::DelegationExpired(n) => "Delegation expired at "@ + decimal(n as nat),
        Error::DelegationRevoked(s) => "Delegation revoked: "@ + s@,
        Error::ServiceNotPermitted(s) => "Service not permitted: "@ + s@,
        Error::ActionNotPermitted(s) => "Action not permitted: "@ + s@,
        Error::MaxUsesExceeded(n) => "Maximum uses ("@ + decimal(n as nat) + ") exceeded"@,
        Error::Dns(s) => "DNS error: "@ + s@,
        Error::DnssecFailed(s) => "DNSSEC validation failed: "@ + s@,
        Error::IdentityNotFound(s) => "Identity not found: "@ + s@,
        Error::InvalidIdentityRecord(s) => "Invalid identity record: "@ + s@,
        Error::VerificationFailed(s) => "Verification failed: "@ + s@,
        Error::NonceMismatch => "Nonce mismatch"@,
        Error::TimestampOutOfTolerance(n) => "Timestamp out of tolerance: "@ + decimal(n as nat),
        Error::Encoding(s) => "Encoding error: "@ + s@,
        Error::Decoding(s) => "Decoding error: "@ + s@,
        Error::InvalidVersion { expected, got } => "Invalid protocol version: expected "@
            + expected@ + ", got "@ + got@,
        Error::Custom(s) => s@,
    }
}

impl Error {
    /// A custom error with the given message.
    pub fn custom(msg: &str) -> (e: Error)
        ensures
            e matches Error::Custom(s) && s@ == msg@,
    {
        Error::Custom(String::from_str(msg))
    }

    /// A cryptographic error with the given message.
    pub fn crypto(msg: &str) -> (e: Error)
        ensures
            e matches Error::Crypto(s) && s@ == msg@,
    {
        Error::Crypto(String::from_str(msg))
    }

    /// A DNS error with the given message.
    pub fn dns(msg: &str) -> (e: Error)
        ensures
            e matches Error::Dns(s) && s@ == msg@,
    {
        Error::Dns(String::from_str(msg))
    }

    /// The text that this error displays.
    pub fn to_string(&self) -> (r: String)
        ensures
            r@ == error_text(*self),
    {
        match self {
            Error::Crypto(s) => concat2("Cryptographic error: ", s.as_str()),
            Error::InvalidKey(s) => concat2("Invalid key: ", s.as_str()),
            Error::InvalidDelegation(s) => concat2("Invalid delegation: ", s.as_str()),
            Error::DelegationExpired(n) => {
                let d = u64_to_decimal(*n);
                concat2("Delegation expired at ", d.as_str())
            },
            Error::DelegationRevoked(s) => concat2("Delegation revoked: ", s.as_str()),
            Error::ServiceNotPermitted(s) => concat2("Service not permitted: ", s.as_str()),
            Error::ActionNotPermitted(s) => concat2("Action not permitted: ", s.as_str()),
            Error::MaxUsesExceeded(n) => {
                let d = u64_to_decimal(*n);
                let mut r = String::from_str("Maximum uses (");
                r.append(d.as_str());
                r.append(") exceeded");
                r
            },
            Error::Dns(s) => concat2("DNS error: ", s.as_str()),
            Error::DnssecFailed(s) => concat2("DNSSEC validation failed: ", s.as_str()),
            Error::IdentityNotFound(s) => concat2("Identity not found: ", s.as_str()),
            Error::InvalidIdentityRecord(s) => concat2("Invalid identity record: ", s.as_str()),
            Error::VerificationFailed(s) => concat2("Verification failed: ", s.as_str()),
            Error::NonceMismatch => String::from_str("Nonce mismatch"),
            Error::TimestampOutOfTolerance(n) => {
                let d = u64_to_decimal(*n);
                concat2("Timestamp out of tolerance: ", d.as_str())
            },
            Error::Encoding(s) => concat2("Encoding error: ", s.as_str()),
            Error::Decoding(s) => concat2("Decoding error: ", s.as_str()),
            Error::InvalidVersion { expected, got } => {
                let mut r = String::from_str("Invalid protocol version: expected ");
                r.append(expected.as_str());
                r.append(", got ");
                r.append(got.as_str());
                r
            },
            Error::Custom(s) => s.clone(),
        }
    }
}

} // verus!
