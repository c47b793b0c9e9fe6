//! X25519 key agreement (RFC 7748) through `x25519-dalek`.

use vstd::prelude::*;
use crate::bytes::{array32, to_vec};
use crate::ed25519::length_message;
use crate::error::{Error, Result};
use crate::text::u64_to_decimal;

verus! {

broadcast use vstd::array::group_array_axioms;

/// The public key that `x25519-dalek` derives from a 32-byte secret.
pub uninterp spec fn x25519_public(secret: Seq<u8>) -> Seq<u8>;

/// The shared secret that `x25519-dalek` computes from a secret and a
/// public key.
pub uninterp spec fn x25519_shared(secret: Seq<u8>, public: Seq<u8>) -> Seq<u8>;

/// Calls `StaticSecret::random_from_rng` with `OsRng` (then `to_bytes`).
/// Trusted: 32 bytes come back; they are random, so nothing more is stated.
#[verifier::external_body]
fn x_random_secret() -> (r: [u8; 32])
    ensures
        r@.len() == 32,
{
    x25519_dalek::StaticSecret::random_from_rng(rand::rngs::OsRng).to_bytes()
}

/// Calls `PublicKey::from(&StaticSecret::from(secret))` (then `to_bytes`).
/// Trusted: the result is the public key of the secret.
#[verifier::external_body]
fn x_public_of(secret: &[u8; 32]) -> (r: [u8; 32])
    ensures
        r@ == x25519_public(secret@),
{
    x25519_dalek::PublicKey::from(&x25519_dalek::StaticSecret::from(*secret)).to_bytes()
}

/// Calls `StaticSecret::diffie_hellman` (then `to_bytes`). Trusted: the
/// result is the shared secret of the secret and the public key, and both
/// sides of an agreement compute the same one: for every secret `b` whose
/// public key is `public`, it equals the shared secret of `b` and the public
/// key of `secret`.
#[verifier::external_body]
fn x_diffie_hellman(secret: &[u8; 32], public: &[u8; 32]) -> (r: [u8; 32])
    ensures
        r@ == x25519_shared(secret@, public@),
        forall|b: Seq<u8>| #[trigger] x25519_public(b) == public@ ==> r@ == x25519_shared(b, x25519_public(secret@)),
{
    x25519_dalek::StaticSecret::from(*secret).diffie_hellman(&x25519_dalek::PublicKey::from(*public)).to_bytes()
}

fn length_error(got: usize) -> (e: Error)
    ensures
        e matches Error::InvalidKey(m) && m@ == length_message("32"@, got as nat),
{
    let d = u64_to_decimal(got as u64);
    let mut s = String::from_str("Expected ");
    s.append("32");
    s.append(" bytes, got ");
    s.append(d.as_str());
    Error::InvalidKey(s)
}

/// X25519 key pair for key agreement.
pub struct X25519KeyPair {
    secret: [u8; 32],
}

impl View for X25519KeyPair {
    type V = Seq<u8>;

    /// The 32 bytes of the secret.
    closed spec fn view(&self) -> Seq<u8> {
        self.secret@
    }
}

impl X25519KeyPair {
    /// A new random key pair.
    pub fn generate() -> (kp: X25519KeyPair)
        ensures
            kp@.len() == 32,
    {
        X25519KeyPair { secret: x_random_secret() }
    }

    /// The key pair of a 32-byte secret.
    pub fn from_secret_bytes(bytes: &[u8]) -> (r: Result<X25519KeyPair>)
        ensures
            bytes@.len() == 32 ==> (r matches Ok(kp) && kp@ == bytes@),
            bytes@.len() != 32 ==> (r matches Err(Error::InvalidKey(m)) && m@ == length_message("32"@, bytes@.len())),
    {
        if bytes.len() != 32 {
            return Err(length_error(bytes.len()));
        }
        Ok(X25519KeyPair { secret: array32(bytes) })
    }

    /// The secret bytes.
    pub fn secret_bytes(&self) -> (r: Vec<u8>)
        ensures
            r@ == self@,
            r@.len() == 32,
    {
        to_vec(vstd::array::array_as_slice(&self.secret))
    }

    /// The public key.
    pub fn public_key(&self) -> (pk: X25519PublicKey)
        ensures
            pk@ == x25519_public(self@),
    {
        X25519PublicKey { public: x_public_of(&self.secret) }
    }

    /// The shared secret (32 bytes) with another party's public key; the
    /// other party computes the same one with its secret and this public key.
    pub fn key_agreement(&self, their_public: &X25519PublicKey) -> (r: Vec<u8>)
        ensures
            r@ == x25519_shared(self@, their_public@),
            r@.len() == 32,
            forall|b: Seq<u8>| #[trigger] x25519_public(b) == their_public@ ==> r@ == x25519_shared(b, x25519_public(self@)),
    {
        let s = x_diffie_hellman(&self.secret, &their_public.public);
        to_vec(vstd::array::array_as_slice(&s))
    }
}

/// X25519 public key.
#[derive(Clone, Copy, Debug)]
pub struct X25519PublicKey {
    public: [u8; 32],
}

impl View for X25519PublicKey {
    type V = Seq<u8>;

    closed spec fn view(&self) -> Seq<u8> {
        self.public@
    }
}

impl X25519PublicKey {
    /// The public key with the given 32 bytes.
    pub fn from_bytes(bytes: &[u8]) -> (r: Result<X25519PublicKey>)
        ensures
            bytes@.len() == 32 ==> (r matches Ok(pk) && pk@ == bytes@),
            bytes@.len() != 32 ==> (r matches Err(Error::InvalidKey(m)) && m@ == length_message("32"@, bytes@.len())),
    {
        if bytes.len() != 32 {
            return Err(length_error(bytes.len()));
        }
        Ok(X25519PublicKey { public: array32(bytes) })
    }

    /// The public key bytes.
    pub fn to_bytes(&self) -> (r: Vec<u8>)
        ensures
            r@ == self@,
            r@.len() == 32,
    {
        to_vec(vstd::array::array_as_slice(&self.public))
    }
}

/// X25519 secret key, for storage.
pub struct X25519SecretKey {
    secret: [u8; 32],
}

impl View for X25519SecretKey {
    type V = Seq<u8>;

    closed spec fn view(&self) -> Seq<u8> {
        self.secret@
    }
}

impl X25519SecretKey {
    /// The secret key with the given 32 bytes.
    pub fn from_bytes(bytes: &[u8]) -> (r: Result<X25519SecretKey>)
        ensures
            bytes@.len() == 32 ==> (r matches Ok(k) && k@ == bytes@),
            bytes@.len() != 32 ==> (r matches Err(Error::InvalidKey(m)) && m@ == length_message("32"@, bytes@.len())),
    {
        if bytes.len() != 32 {
            return Err(length_error(bytes.len()));
        }
        Ok(X25519SecretKey { secret: array32(bytes) })
    }

    /// The secret bytes.
    pub fn to_bytes(&self) -> (r: Vec<u8>)
        ensures
            r@ == self@,
    {
        to_vec(vstd::array::array_as_slice(&self.secret))
    }

    /// The key pair of this secret.
    pub fn to_keypair(self) -> (kp: X25519KeyPair)
        ensures
            kp@ == self@,
    {
        X25519KeyPair { secret: self.secret }
    }
}

} // verus!
