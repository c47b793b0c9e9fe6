//! Ed25519 signatures (RFC 8032) through `ed25519-dalek`.

use vstd::prelude::*;
use ed25519_dalek::{Signer, Verifier};
use crate::bytes::{array32, to_vec};
use crate::error::{Error, Result};
use crate::text::{concat2, decimal, u64_to_decimal};

verus! {

broadcast use vstd::array::group_array_axioms;

/// The public key that `ed25519-dalek` derives from a 32-byte secret key.
pub uninterp spec fn ed25519_public(secret: Seq<u8>) -> Seq<u8>;

/// The signature that `ed25519-dalek` makes of a message with a secret key
/// (Ed25519 signing is deterministic).
pub uninterp spec fn ed25519_signature(secret: Seq<u8>, message: Seq<u8>) -> Seq<u8>;

/// What `VerifyingKey::from_bytes` gives for 32 bytes: whether they are a
/// valid point, with the text of its error where they are not.
pub uninterp spec fn ed25519_key_check(public: Seq<u8>) -> core::result::Result<(), Seq<char>>;

/// What `VerifyingKey::verify` gives for a key, a message and a signature:
/// success, or the text of its error.
pub uninterp spec fn ed25519_verify_outcome(public: Seq<u8>, message: Seq<u8>, signature: Seq<u8>)
    -> core::result::Result<(), Seq<char>>;

/// Success of a check.
pub open spec fn checked_ok() -> core::result::Result<(), Seq<char>> {
    Ok(())
}

/// Calls `SigningKey::generate` with `OsRng` (then `to_bytes`).
/// Trusted: the secret key has 32 bytes; they are random, so nothing more
/// is stated of them.
#[verifier::external_body]
fn ed_generate_secret() -> (r: [u8; 32])
    ensures
        r@.len() == 32,
{
    ed25519_dalek::SigningKey::generate(&mut rand::rngs::OsRng).to_bytes()
}

/// Calls `SigningKey::from_bytes`, `verifying_key` and `to_bytes`.
/// Trusted: the result is the public key of the secret key, which
/// `VerifyingKey::from_bytes` accepts.
#[verifier::external_body]
fn ed_public_of(secret: &[u8; 32]) -> (r: [u8; 32])
    ensures
        r@ == ed25519_public(secret@) && ed25519_key_check(r@) == checked_ok(),
{
    ed25519_dalek::SigningKey::from_bytes(secret).verifying_key().to_bytes()
}

/// Calls `SigningKey::from_bytes` and `Signer::sign` (then `to_bytes`).
/// Trusted: the result is the signature of the message with the secret key,
/// which verifies under the matching public key.
#[verifier::external_body]
fn ed_sign(secret: &[u8; 32], message: &[u8]) -> (r: [u8; 64])
    ensures
        r@ == ed25519_signature(secret@, message@) && ed25519_verify_outcome(
            ed25519_public(secret@),
            message@,
            r@,
        ) == checked_ok(),
{
    ed25519_dalek::SigningKey::from_bytes(secret).sign(message).to_bytes()
}

/// Calls `VerifyingKey::from_bytes`, `Err` holding the text of its error.
/// Trusted: the outcome is `ed25519_key_check` of the bytes.
#[verifier::external_body]
fn ed_key_check(public: &[u8; 32]) -> (r: core::result::Result<(), String>)
    ensures
        match r {
            Ok(_) => ed25519_key_check(public@) == checked_ok(),
            Err(m) => ed25519_key_check(public@) == Err::<(), Seq<char>>(m@),
        },
{
    ed25519_dalek::VerifyingKey::from_bytes(public).map(|_| ()).map_err(|e| e.to_string())
}

/// Calls `VerifyingKey::from_bytes` and `Verifier::verify` on
/// `Signature::from_bytes`, `Err` holding the text of the error.
/// Trusted: the outcome is `ed25519_verify_outcome` of the key, the message
/// and the signature.
#[verifier::external_body]
fn ed_verify(public: &[u8; 32], message: &[u8], signature: &[u8; 64]) -> (r:
    core::result::Result<(), String>)
    requires
        ed25519_key_check(public@) == checked_ok(),
    ensures
        match r {
            Ok(_) => ed25519_verify_outcome(public@, message@, signature@) == checked_ok(),
            Err(m) => ed25519_verify_outcome(public@, message@, signature@) == Err::<
                (),
                Seq<char>,
            >(m@),
        },
{
    let sig = ed25519_dalek::Signature::from_bytes(signature);
    match ed25519_dalek::VerifyingKey::from_bytes(public) {
        Ok(key) => key.verify(message, &sig).map_err(|e| e.to_string()),
        Err(e) => Err(e.to_string()),
    }
}

/// Calls `Signature::from_slice` (then `to_bytes`), `Err` holding the text
/// of its error. Trusted: it succeeds exactly on 64 bytes, and keeps them.
#[verifier::external_body]
fn ed_signature_from_slice(bytes: &[u8]) -> (r: core::result::Result<[u8; 64], String>)
    ensures
        r is Ok <==> bytes@.len() == 64,
        r matches Ok(a) ==> a@ == bytes@,
{
    ed25519_dalek::Signature::from_slice(bytes).map(|s| s.to_bytes()).map_err(|e| e.to_string())
}

/// The message of a wrong-length error: "Expected <n> bytes, got <m>".
pub open spec fn length_message(expected: Seq<char>, got: nat) -> Seq<char> {
    "Expected "@ + expected + " bytes, got "@ + decimal(got)
}

fn length_error_text(expected: &str, got: usize) -> (r: String)
    ensures
        r@ == length_message(expected@, got as nat),
{
    let d = u64_to_decimal(got as u64);
    let mut s = String::from_str("Expected ");
    s.append(expected);
    s.append(" bytes, got ");
    s.append(d.as_str());
    s
}

/// Ed25519 key pair for signing.
pub struct Ed25519KeyPair {
    secret: [u8; 32],
}

impl View for Ed25519KeyPair {
    type V = Seq<u8>;

    /// The 32 bytes of the secret key.
    closed spec fn view(&self) -> Seq<u8> {
        self.secret@
    }
}

impl Ed25519KeyPair {
    /// A new random key pair.
    pub fn generate() -> (kp: Ed25519KeyPair)
        ensures
            kp@.len() == 32,
    {
        Ed25519KeyPair { secret: ed_generate_secret() }
    }

    /// The key pair of a 32-byte secret key.
    pub fn from_secret_bytes(secret: &[u8]) -> (r: Result<Ed25519KeyPair>)
        ensures
            secret@.len() == 32 ==> (r matches Ok(kp) && kp@ == secret@),
            secret@.len() != 32 ==> (r matches Err(Error::InvalidKey(m)) && m@ == length_message(
                "32"@,
                secret@.len(),
            )),
    {
        if secret.len() != 32 {
            return Err(Error::InvalidKey(length_error_text("32", secret.len())));
        }
        Ok(Ed25519KeyPair { secret: array32(secret) })
    }

    /// The secret key bytes.
    pub fn secret_bytes(&self) -> (r: Vec<u8>)
        ensures
            r@ == self@,
            r@.len() == 32,
    {
        to_vec(vstd::array::array_as_slice(&self.secret))
    }

    /// The public key.
    pub fn public_key(&self) -> (pk: Ed25519PublicKey)
        ensures
            pk@ == ed25519_public(self@),
            pk@.len() == 32,
            ed25519_key_check(pk@) == checked_ok(),
    {
        let pk = Ed25519PublicKey { bytes: ed_public_of(&self.secret) };
        proof {
            use_type_invariant(&pk);
        }
        pk
    }

    /// Signs a message.
    pub fn sign(&self, message: &[u8]) -> (sig: Ed25519Signature)
        ensures
            sig@ == ed25519_signature(self@, message@),
            ed25519_verify_outcome(ed25519_public(self@), message@, sig@) == checked_ok(),
    {
        Ed25519Signature { bytes: ed_sign(&self.secret, message) }
    }

    /// Signs a message and gives the 64 signature bytes.
    pub fn sign_bytes(&self, message: &[u8]) -> (r: Vec<u8>)
        ensures
            r@ == ed25519_signature(self@, message@),
            r@.len() == 64,
            ed25519_verify_outcome(ed25519_public(self@), message@, r@) == checked_ok(),
    {
        let sig = self.sign(message);
        sig.to_bytes()
    }
}

/// Ed25519 public key for verification: 32 bytes that are a valid point.
#[derive(Clone, Copy, Debug)]
pub struct Ed25519PublicKey {
    bytes: [u8; 32],
}

impl View for Ed25519PublicKey {
    type V = Seq<u8>;

    closed spec fn view(&self) -> Seq<u8> {
        self.bytes@
    }
}

impl Ed25519PublicKey {
    /// The key is 32 bytes that `ed25519-dalek` accepts as a point.
    #[verifier::type_invariant]
    spec fn inv(&self) -> bool {
        self.bytes@.len() == 32 && ed25519_key_check(self.bytes@) == checked_ok()
    }

    /// The public key with the given 32 bytes.
    pub fn from_bytes(bytes: &[u8]) -> (r: Result<Ed25519PublicKey>)
        ensures
            bytes@.len() != 32 ==> (r matches Err(Error::InvalidKey(m)) && m@ == length_message(
                "32"@,
                bytes@.len(),
            )),
            bytes@.len() == 32 ==> match ed25519_key_check(bytes@) {
                Ok(_) => r matches Ok(pk) && pk@ == bytes@,
                Err(m) => r matches Err(Error::InvalidKey(e)) && e@ == m,
            },
    {
        if bytes.len() != 32 {
            return Err(Error::InvalidKey(length_error_text("32", bytes.len())));
        }
        let key_bytes = array32(bytes);
        match ed_key_check(&key_bytes) {
            Ok(_) => Ok(Ed25519PublicKey { bytes: key_bytes }),
            Err(m) => Err(Error::InvalidKey(m)),
        }
    }

    /// The public key bytes.
    pub fn to_bytes(&self) -> (r: Vec<u8>)
        ensures
            r@ == self@,
            r@.len() == 32,
    {
        proof {
            use_type_invariant(self);
        }
        to_vec(vstd::array::array_as_slice(&self.bytes))
    }

    /// Verifies a signature of a message.
    pub fn verify(&self, message: &[u8], signature: &Ed25519Signature) -> (r: Result<()>)
        ensures
            match ed25519_verify_outcome(self@, message@, signature@) {
                Ok(_) => r is Ok,
                Err(m) => r matches Err(Error::Crypto(e)) && e@ == "Signature verification failed: "@
                    + m,
            },
    {
        proof {
            use_type_invariant(self);
        }
        match ed_verify(&self.bytes, message, &signature.bytes) {
            Ok(_) => Ok(()),
            Err(m) => Err(Error::Crypto(concat2("Signature verification failed: ", m.as_str()))),
        }
    }

    /// Verifies signature bytes of a message.
    pub fn verify_bytes(&self, message: &[u8], signature_bytes: &[u8]) -> (r: Result<()>)
        ensures
            signature_bytes@.len() != 64 ==> (r matches Err(Error::Crypto(m)) && m@
                == "Expected 64 bytes for signature, got "@ + decimal(signature_bytes@.len())),
            signature_bytes@.len() == 64 ==> match ed25519_verify_outcome(
                self@,
                message@,
                signature_bytes@,
            ) {
                Ok(_) => r is Ok,
                Err(m) => r matches Err(Error::Crypto(e)) && e@ == "Signature verification failed: "@
                    + m,
            },
    {
        let signature = match Ed25519Signature::from_bytes(signature_bytes) {
            Ok(s) => s,
            Err(e) => return Err(e),
        };
        self.verify(message, &signature)
    }
}

/// Ed25519 signature (64 bytes).
#[derive(Clone, Debug)]
pub struct Ed25519Signature {
    bytes: [u8; 64],
}

impl View for Ed25519Signature {
    type V = Seq<u8>;

    closed spec fn view(&self) -> Seq<u8> {
        self.bytes@
    }
}

impl Ed25519Signature {
    /// The signature with the given 64 bytes.
    pub fn from_bytes(bytes: &[u8]) -> (r: Result<Ed25519Signature>)
        ensures
            bytes@.len() == 64 ==> (r matches Ok(s) && s@ == bytes@),
            bytes@.len() != 64 ==> (r matches Err(Error::Crypto(m)) && m@
                == "Expected 64 bytes for signature, got "@ + decimal(bytes@.len())),
    {
        if bytes.len() != 64 {
            let d = u64_to_decimal(bytes.len() as u64);
            return Err(Error::Crypto(concat2("Expected 64 bytes for signature, got ", d.as_str())));
        }
        match ed_signature_from_slice(bytes) {
            Ok(a) => Ok(Ed25519Signature { bytes: a }),
            Err(m) => Err(Error::Crypto(concat2("Invalid signature: ", m.as_str()))),
        }
    }

    /// The signature bytes.
    pub fn to_bytes(&self) -> (r: Vec<u8>)
        ensures
            r@ == self@,
            r@.len() == 64,
    {
        to_vec(vstd::array::array_as_slice(&self.bytes))
    }
}

} // verus!
