//! Key hierarchy types: master (tier 1), device (tier 2) and session (tier 3) keys.

use vstd::prelude::*;

verus! {

/// Key tier in the Loc'd hierarchy.
#[derive(Debug, Clone, Copy, PartialEq, Eq, Structural)]
pub enum KeyTier {
    /// Tier 1: the root of trust, kept in a phone's secure enclave.
    Master,
    /// Tier 2: a device-bound key kept in a TPM or secure enclave.
    Device,
    /// Tier 3: an ephemeral key for a single connection.
    Session,
}

/// The name of a tier, as it is displayed.
pub open spec fn tier_name(t: KeyTier) -> Seq<char> {
    match t {
        KeyTier::Master => "master"@,
        KeyTier::Device => "device"@,
        KeyTier::Session => "session"@,
    }
}

impl KeyTier {
    /// The name of the tier: "master", "device" or "session".
    pub fn to_string(&self) -> (r: String)
        ensures
            r@ == tier_name(*self),
    {
        match self {
            KeyTier::Master => String::from_str("master"),
            KeyTier::Device => String::from_str("device"),
            KeyTier::Session => String::from_str("session"),
        }
    }
}

/// Master key (tier 1) metadata: the user's sovereign identity, published to DNS.
#[derive(Debug, Clone)]
pub struct MasterKey {
    /// Ed25519 public key (32 bytes).
    pub public_key: Vec<u8>,
    /// Creation timestamp (Unix time).
    pub created_at: u64,
    /// Optional expiry timestamp.
    pub expires_at: Option<u64>,
    /// Optional revocation endpoint URL.
    pub revocation_endpoint: Option<String>,
}

/// Whether a key with expiry `expires_at` has expired at time `now`.
pub open spec fn expired_at(expires_at: Option<u64>, now: u64) -> bool {
    match expires_at {
        Some(exp) => now >= exp,
        None => false,
    }
}

impl MasterKey {
    /// New master key metadata.
    pub fn new(
        public_key: Vec<u8>,
        created_at: u64,
        expires_at: Option<u64>,
        revocation_endpoint: Option<String>,
    ) -> (k: MasterKey)
        ensures
            k.public_key@ == public_key@,
            k.created_at == created_at,
            k.expires_at == expires_at,
            k.revocation_endpoint == revocation_endpoint,
    {
        MasterKey { public_key, created_at, expires_at, revocation_endpoint }
    }

    /// Whether the key has expired at time `now`.
    pub fn is_expired(&self, now: u64) -> (r: bool)
        ensures
            r == expired_at(self.expires_at, now),
    {
        match self.expires_at {
            Some(exp) => now >= exp,
            None => false,
        }
    }

    /// The tier of this key.
    pub fn tier(&self) -> (t: KeyTier)
        ensures
            t == KeyTier::Master,
    {
        KeyTier::Master
    }
}

/// Device key (tier 2) metadata: authorised by the master key through a delegation.
#[derive(Debug, Clone)]
pub struct DeviceKey {
    /// Ed25519 public key (32 bytes).
    pub public_key: Vec<u8>,
    /// Device identifier (a user-friendly name).
    pub device_id: String,
    /// Creation timestamp.
    pub created_at: u64,
    /// Optional TPM attestation data.
    pub attestation: Option<Vec<u8>>,
}

impl DeviceKey {
    /// New device key metadata.
    pub fn new(public_key: Vec<u8>, device_id: String, created_at: u64, attestation: Option<Vec<u8>>)
        -> (k: DeviceKey)
        ensures
            k.public_key@ == public_key@,
            k.device_id@ == device_id@,
            k.created_at == created_at,
            k.attestation == attestation,
    {
        DeviceKey { public_key, device_id, created_at, attestation }
    }

    /// The tier of this key.
    pub fn tier(&self) -> (t: KeyTier)
        ensures
            t == KeyTier::Device,
    {
        KeyTier::Device
    }
}

/// Session key (tier 3) metadata: an ephemeral key for one connection.
#[derive(Debug, Clone)]
pub struct SessionKey {
    /// Ed25519 public key (32 bytes).
    pub public_key: Vec<u8>,
    /// Session identifier.
    pub session_id: String,
    /// Creation timestamp.
    pub created_at: u64,
    /// Expiry timestamp.
    pub expires_at: u64,
}

impl SessionKey {
    /// New session key metadata.
    pub fn new(public_key: Vec<u8>, session_id: String, created_at: u64, expires_at: u64) -> (k:
        SessionKey)
        ensures
            k.public_key@ == public_key@,
            k.session_id@ == session_id@,
            k.created_at == created_at,
            k.expires_at == expires_at,
    {
        SessionKey { public_key, session_id, created_at, expires_at }
    }

    /// Whether the session key has expired at time `now`.
    pub fn is_expired(&self, now: u64) -> (r: bool)
        ensures
            r == (now >= self.expires_at),
    {
        now >= self.expires_at
    }

    /// The tier of this key.
    pub fn tier(&self) -> (t: KeyTier)
        ensures
            t == KeyTier::Session,
    {
        KeyTier::Session
    }
}

} // verus!
