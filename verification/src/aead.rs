//! Authenticated encryption with associated data: ChaCha20-Poly1305 and
//! XChaCha20-Poly1305, through the `chacha20poly1305` crate.

use vstd::prelude::*;
use chacha20poly1305::aead::{Aead, AeadCore, KeyInit};
use crate::error::{Error, Result};
use crate::text::{concat2, decimal, u64_to_decimal};

verus! {

broadcast use vstd::array::group_array_axioms;

/// The ciphertext (with its 16-byte tag) that ChaCha20-Poly1305 makes.
pub uninterp spec fn chacha_seal(key: Seq<u8>, nonce: Seq<u8>, msg: Seq<u8>, aad: Seq<u8>) -> Seq<u8>;

/// The plaintext that ChaCha20-Poly1305 opens, `None` where the tag fails.
pub uninterp spec fn chacha_open(key: Seq<u8>, nonce: Seq<u8>, ct: Seq<u8>, aad: Seq<u8>) -> Option<Seq<u8>>;

/// The ciphertext (with its 16-byte tag) that XChaCha20-Poly1305 makes.
pub uninterp spec fn xchacha_seal(key: Seq<u8>, nonce: Seq<u8>, msg: Seq<u8>, aad: Seq<u8>) -> Seq<u8>;

/// The plaintext that XChaCha20-Poly1305 opens, `None` where the tag fails.
pub uninterp spec fn xchacha_open(key: Seq<u8>, nonce: Seq<u8>, ct: Seq<u8>, aad: Seq<u8>) -> Option<Seq<u8>>;

/// Calls `ChaCha20Poly1305::generate_key` with `OsRng`.
/// Trusted: 32 bytes come back; they are random, so nothing more is stated.
#[verifier::external_body]
fn chacha_random_key() -> (r: Vec<u8>)
    ensures
        r@.len() == 32,
{
    chacha20poly1305::ChaCha20Poly1305::generate_key(&mut chacha20poly1305::aead::OsRng).to_vec()
}

/// Calls `ChaCha20Poly1305::generate_nonce` with `OsRng`.
/// Trusted: 12 bytes come back; they are random, so nothing more is stated.
#[verifier::external_body]
fn chacha_random_nonce() -> (r: [u8; 12])
    ensures
        r@.len() == 12,
{
    chacha20poly1305::ChaCha20Poly1305::generate_nonce(&mut chacha20poly1305::aead::OsRng).into()
}

/// Calls `XChaCha20Poly1305::generate_key` with `OsRng`.
/// Trusted: 32 bytes come back; they are random, so nothing more is stated.
#[verifier::external_body]
fn xchacha_random_key() -> (r: Vec<u8>)
    ensures
        r@.len() == 32,
{
    chacha20poly1305::XChaCha20Poly1305::generate_key(&mut chacha20poly1305::aead::OsRng).to_vec()
}

/// Calls `XChaCha20Poly1305::generate_nonce` with `OsRng`.
/// Trusted: 24 bytes come back; they are random, so nothing more is stated.
#[verifier::external_body]
fn xchacha_random_nonce() -> (r: [u8; 24])
    ensures
        r@.len() == 24,
{
    chacha20poly1305::XChaCha20Poly1305::generate_nonce(&mut chacha20poly1305::aead::OsRng).into()
}

/// Calls `ChaCha20Poly1305::new_from_slice` and `Aead::encrypt` with a
/// `Payload`, `Err` holding the text of the error. Trusted: the ciphertext is
/// `chacha_seal` of the inputs, 16 bytes longer than the message, and opens
/// back to the message; the error displays "aead::Error". When the call
/// fails (a message too long for the cipher) is left unsaid.
#[verifier::external_body]
fn chacha_encrypt(key: &[u8], nonce: &[u8; 12], msg: &[u8], aad: &[u8]) -> (r: core::result::Result<Vec<u8>, String>)
    requires
        key@.len() == 32,
    ensures
        r matches Ok(c) ==> c@ == chacha_seal(key@, nonce@, msg@, aad@) && c@.len() == msg@.len() + 16
            && chacha_open(key@, nonce@, c@, aad@) == Some(msg@),
        r matches Err(m) ==> m@ == "aead::Error"@,
{
    let cipher = chacha20poly1305::ChaCha20Poly1305::new_from_slice(key).unwrap();
    let payload = chacha20poly1305::aead::Payload { msg, aad };
    cipher.encrypt(nonce.into(), payload).map_err(|e| e.to_string())
}

/// Calls `ChaCha20Poly1305::new_from_slice` and `Aead::decrypt` with a
/// `Payload`, `Err` holding the text of the error. Trusted: the outcome is
/// `chacha_open` of the inputs; the error displays "aead::Error".
#[verifier::external_body]
fn chacha_decrypt(key: &[u8], nonce: &[u8; 12], ct: &[u8], aad: &[u8]) -> (r: core::result::Result<Vec<u8>, String>)
    requires
        key@.len() == 32,
    ensures
        match chacha_open(key@, nonce@, ct@, aad@) {
            Some(p) => r matches Ok(v) && v@ == p,
            None => r matches Err(m) && m@ == "aead::Error"@,
        },
{
    let cipher = chacha20poly1305::ChaCha20Poly1305::new_from_slice(key).unwrap();
    let payload = chacha20poly1305::aead::Payload { msg: ct, aad };
    cipher.decrypt(nonce.into(), payload).map_err(|e| e.to_string())
}

/// Calls `XChaCha20Poly1305::new_from_slice` and `Aead::encrypt` with a
/// `Payload`, `Err` holding the text of the error. Trusted: as for
/// ChaCha20-Poly1305, with `xchacha_seal` and `xchacha_open`.
#[verifier::external_body]
fn xchacha_encrypt(key: &[u8], nonce: &[u8; 24], msg: &[u8], aad: &[u8]) -> (r: core::result::Result<Vec<u8>, String>)
    requires
        key@.len() == 32,
    ensures
        r matches Ok(c) ==> c@ == xchacha_seal(key@, nonce@, msg@, aad@) && c@.len() == msg@.len() + 16
            && xchacha_open(key@, nonce@, c@, aad@) == Some(msg@),
        r matches Err(m) ==> m@ == "aead::Error"@,
{
    let cipher = chacha20poly1305::XChaCha20Poly1305::new_from_slice(key).unwrap();
    let payload = chacha20poly1305::aead::Payload { msg, aad };
    cipher.encrypt(nonce.into(), payload).map_err(|e| e.to_string())
}

/// Calls `XChaCha20Poly1305::new_from_slice` and `Aead::decrypt` with a
/// `Payload`, `Err` holding the text of the error. Trusted: the outcome is
/// `xchacha_open` of the inputs; the error displays "aead::Error".
#[verifier::external_body]
fn xchacha_decrypt(key: &[u8], nonce: &[u8; 24], ct: &[u8], aad: &[u8]) -> (r: core::result::Result<Vec<u8>, String>)
    requires
        key@.len() == 32,
    ensures
        match xchacha_open(key@, nonce@, ct@, aad@) {
            Some(p) => r matches Ok(v) && v@ == p,
            None => r matches Err(m) && m@ == "aead::Error"@,
        },
{
    let cipher = chacha20poly1305::XChaCha20Poly1305::new_from_slice(key).unwrap();
    let payload = chacha20poly1305::aead::Payload { msg: ct, aad };
    cipher.decrypt(nonce.into(), payload).map_err(|e| e.to_string())
}

/// The message of a wrong length: "<what> must be <n> bytes, got <m>".
pub open spec fn size_message(what: Seq<char>, expected: Seq<char>, got: nat) -> Seq<char> {
    what + " must be "@ + expected + " bytes, got "@ + decimal(got)
}

fn size_error(what: &str, expected: &str, got: usize) -> (e: Error)
    ensures
        e matches Error::Crypto(m) && m@ == size_message(what@, expected@, got as nat),
{
    let d = u64_to_decimal(got as u64);
    let mut s = String::from_str(what);
    s.append(" must be ");
    s.append(expected);
    s.append(" bytes, got ");
    s.append(d.as_str());
    Error::Crypto(s)
}

/// The 12 bytes of `s` as an array.
fn array12(s: &[u8]) -> (a: [u8; 12])
    requires
        s@.len() == 12,
    ensures
        a@ == s@,
{
    let mut a: [u8; 12] = [0u8; 12];
    let mut i: usize = 0;
    while i < 12
        invariant
            i <= 12,
            s@.len() == 12,
            a@.len() == 12,
            forall|k: int| 0 <= k < i ==> a@[k] == s@[k],
        decreases 12 - i,
    {
        a[i] = s[i];
        i = i + 1;
    }
    assert(a@ =~= s@);
    a
}

/// The 24 bytes of `s` as an array.
fn array24(s: &[u8]) -> (a: [u8; 24])
    requires
        s@.len() == 24,
    ensures
        a@ == s@,
{
    let mut a: [u8; 24] = [0u8; 24];
    let mut i: usize = 0;
    while i < 24
        invariant
            i <= 24,
            s@.len() == 24,
            a@.len() == 24,
            forall|k: int| 0 <= k < i ==> a@[k] == s@[k],
        decreases 24 - i,
    {
        a[i] = s[i];
        i = i + 1;
    }
    assert(a@ =~= s@);
    a
}

/// What decrypting gives: a refusal of a key that is not 32 bytes or a
/// nonce of the wrong size, else the opened plaintext, or the refusal of a
/// ciphertext whose tag fails.
pub open spec fn chacha_decryption(key: Seq<u8>, ct: Seq<u8>, nonce: Seq<u8>, aad: Seq<u8>) -> core::result::Result<Seq<u8>, Seq<char>> {
    if key.len() != 32 {
        Err(size_message("Key"@, "32"@, key.len()))
    } else if nonce.len() != 12 {
        Err(size_message("Nonce"@, "12"@, nonce.len()))
    } else {
        match chacha_open(key, nonce, ct, aad) {
            Some(p) => Ok(p),
            None => Err("Decryption failed: "@ + "aead::Error"@),
        }
    }
}

/// What decrypting with XChaCha20-Poly1305 gives (24-byte nonces).
pub open spec fn xchacha_decryption(key: Seq<u8>, ct: Seq<u8>, nonce: Seq<u8>, aad: Seq<u8>) -> core::result::Result<Seq<u8>, Seq<char>> {
    if key.len() != 32 {
        Err(size_message("Key"@, "32"@, key.len()))
    } else if nonce.len() != 24 {
        Err(size_message("Nonce"@, "24"@, nonce.len()))
    } else {
        match xchacha_open(key, nonce, ct, aad) {
            Some(p) => Ok(p),
            None => Err("Decryption failed: "@ + "aead::Error"@),
        }
    }
}

/// What ChaCha20-Poly1305 encryption gives decrypts back to the plaintext:
/// where `encrypt` returned the ciphertext and the nonce (which open back,
/// as its contract says), `decrypt` of them with the same key and
/// associated data gives the plaintext.
pub proof fn chacha_roundtrip(key: Seq<u8>, nonce: Seq<u8>, ct: Seq<u8>, plaintext: Seq<u8>, aad: Seq<u8>)
    requires
        key.len() == 32,
        nonce.len() == 12,
        chacha_open(key, nonce, ct, aad) == Some(plaintext),
    ensures
        chacha_decryption(key, ct, nonce, aad) == Ok::<Seq<u8>, Seq<char>>(plaintext),
{
}

/// What XChaCha20-Poly1305 encryption gives decrypts back to the plaintext.
pub proof fn xchacha_roundtrip(key: Seq<u8>, nonce: Seq<u8>, ct: Seq<u8>, plaintext: Seq<u8>, aad: Seq<u8>)
    requires
        key.len() == 32,
        nonce.len() == 24,
        xchacha_open(key, nonce, ct, aad) == Some(plaintext),
    ensures
        xchacha_decryption(key, ct, nonce, aad) == Ok::<Seq<u8>, Seq<char>>(plaintext),
{
}

/// ChaCha20-Poly1305 (12-byte nonces).
pub struct ChaCha20Poly1305;

impl ChaCha20Poly1305 {
    /// A new random key (32 bytes).
    pub fn generate_key() -> (k: Vec<u8>)
        ensures
            k@.len() == 32,
    {
        chacha_random_key()
    }

    /// Encrypts with a new random nonce: the ciphertext (with its tag) and
    /// the nonce, which open back to the plaintext.
    pub fn encrypt(key: &[u8], plaintext: &[u8], aad: &[u8]) -> (r: Result<(Vec<u8>, Vec<u8>)>)
        ensures
            key@.len() != 32 ==> (r matches Err(Error::Crypto(m)) && m@ == size_message("Key"@, "32"@, key@.len())),
            r matches Ok((c, n)) ==> n@.len() == 12 && c@ == chacha_seal(key@, n@, plaintext@, aad@) && c@.len() == plaintext@.len() + 16
                && chacha_open(key@, n@, c@, aad@) == Some(plaintext@),
            key@.len() == 32 ==> (r matches Err(e) ==> (e matches Error::Crypto(m) && m@ == "Encryption failed: "@ + "aead::Error"@)),
    {
        if key.len() != 32 {
            return Err(size_error("Key", "32", key.len()));
        }
        let nonce = chacha_random_nonce();
        match chacha_encrypt(key, &nonce, plaintext, aad) {
            Ok(c) => Ok((c, crate::bytes::to_vec(vstd::array::array_as_slice(&nonce)))),
            Err(m) => Err(Error::Crypto(concat2("Encryption failed: ", m.as_str()))),
        }
    }

    /// Decrypts and authenticates.
    pub fn decrypt(key: &[u8], ciphertext: &[u8], nonce: &[u8], aad: &[u8]) -> (r: Result<Vec<u8>>)
        ensures
            match chacha_decryption(key@, ciphertext@, nonce@, aad@) {
                Ok(p) => r matches Ok(v) && v@ == p,
                Err(m) => r matches Err(Error::Crypto(e)) && e@ == m,
            },
    {
        if key.len() != 32 {
            return Err(size_error("Key", "32", key.len()));
        }
        if nonce.len() != 12 {
            return Err(size_error("Nonce", "12", nonce.len()));
        }
        let n = array12(nonce);
        match chacha_decrypt(key, &n, ciphertext, aad) {
            Ok(p) => Ok(p),
            Err(m) => Err(Error::Crypto(concat2("Decryption failed: ", m.as_str()))),
        }
    }
}

/// XChaCha20-Poly1305 (24-byte nonces), for recovery data.
pub struct XChaCha20Poly1305;

impl XChaCha20Poly1305 {
    /// A new random key (32 bytes).
    pub fn generate_key() -> (k: Vec<u8>)
        ensures
            k@.len() == 32,
    {
        xchacha_random_key()
    }

    /// Encrypts with a new random nonce: the ciphertext (with its tag) and
    /// the nonce, which open back to the plaintext.
    pub fn encrypt(key: &[u8], plaintext: &[u8], aad: &[u8]) -> (r: Result<(Vec<u8>, Vec<u8>)>)
        ensures
            key@.len() != 32 ==> (r matches Err(Error::Crypto(m)) && m@ == size_message("Key"@, "32"@, key@.len())),
            r matches Ok((c, n)) ==> n@.len() == 24 && c@ == xchacha_seal(key@, n@, plaintext@, aad@) && c@.len() == plaintext@.len() + 16
                && xchacha_open(key@, n@, c@, aad@) == Some(plaintext@),
            key@.len() == 32 ==> (r matches Err(e) ==> (e matches Error::Crypto(m) && m@ == "Encryption failed: "@ + "aead::Error"@)),
    {
        if key.len() != 32 {
            return Err(size_error("Key", "32", key.len()));
        }
        let nonce = xchacha_random_nonce();
        match xchacha_encrypt(key, &nonce, plaintext, aad) {
            Ok(c) => Ok((c, crate::bytes::to_vec(vstd::array::array_as_slice(&nonce)))),
            Err(m) => Err(Error::Crypto(concat2("Encryption failed: ", m.as_str()))),
        }
    }

    /// Decrypts and authenticates.
    pub fn decrypt(key: &[u8], ciphertext: &[u8], nonce: &[u8], aad: &[u8]) -> (r: Result<Vec<u8>>)
        ensures
            match xchacha_decryption(key@, ciphertext@, nonce@, aad@) {
                Ok(p) => r matches Ok(v) && v@ == p,
                Err(m) => r matches Err(Error::Crypto(e)) && e@ == m,
            },
    {
        if key.len() != 32 {
            return Err(size_error("Key", "32", key.len()));
        }
        if nonce.len() != 24 {
            return Err(size_error("Nonce", "24", nonce.len()));
        }
        let n = array24(nonce);
        match xchacha_decrypt(key, &n, ciphertext, aad) {
            Ok(p) => Ok(p),
            Err(m) => Err(Error::Crypto(concat2("Decryption failed: ", m.as_str()))),
        }
    }
}

} // verus!
