//! Password hashing with Argon2id, through the `argon2` crate.

use vstd::prelude::*;
use argon2::password_hash::{PasswordHasher, PasswordVerifier};
use crate::error::{Error, Result};
use crate::text::concat2;

verus! {

/// What `PasswordHash::new` gives for a text: whether it is a PHC hash
/// string, with the text of its error where it is not.
pub uninterp spec fn phc_parse(hash: Seq<char>) -> core::result::Result<(), Seq<char>>;

/// What `Argon2::default().verify_password` gives for a password and a
/// parsed PHC hash string: success, or the text of its error.
pub uninterp spec fn argon2_verify(password: Seq<char>, hash: Seq<char>) -> core::result::Result<(), Seq<char>>;

/// What `Params::new` gives for a memory cost, a time cost and a degree of
/// parallelism: whether they are valid, with the text of its error.
pub uninterp spec fn argon2_params_check(memory_cost: u32, time_cost: u32, parallelism: u32) -> core::result::Result<(), Seq<char>>;

/// Success of a check.
pub open spec fn passed() -> core::result::Result<(), Seq<char>> {
    Ok(())
}

/// The largest password, in bytes, that Argon2 takes (`MAX_PWD_LEN`).
pub open spec fn argon2_max_password_len() -> nat {
    0xFFFF_FFFF
}

/// The length of a text in UTF-8 bytes.
pub open spec fn utf8_len(s: &str) -> nat {
    vstd::string::StringSliceAdditionalSpecFns::spec_bytes(s).len()
}

/// Calls `SaltString::generate` with `OsRng` and `hash_password` of
/// `Argon2::default()` (then `to_string`), `Err` holding the text of the
/// error. Trusted: a hash that comes back parses, and the password verifies
/// against it. With the default parameters, a generated 16-byte salt and
/// the default 32-byte output, the one error that `hash_password` can give
/// is a password longer than `MAX_PWD_LEN` bytes, so it succeeds on any
/// shorter one. The salt is random, so the hash itself is not stated.
#[verifier::external_body]
fn argon2_hash_default(password: &str) -> (r: core::result::Result<String, String>)
    ensures
        r matches Ok(h) ==> phc_parse(h@) == passed() && argon2_verify(password@, h@) == passed(),
        utf8_len(password) <= argon2_max_password_len() ==> r is Ok,
{
    let salt = argon2::password_hash::SaltString::generate(&mut rand::rngs::OsRng);
    argon2::Argon2::default().hash_password(password.as_bytes(), &salt).map(|h| h.to_string()).map_err(|e| e.to_string())
}

/// Calls `Params::new(memory_cost, time_cost, parallelism, None)`, `Err`
/// holding the text of its error. Trusted: the outcome is
/// `argon2_params_check` of the three values.
#[verifier::external_body]
fn argon2_params(memory_cost: u32, time_cost: u32, parallelism: u32) -> (r: core::result::Result<(), String>)
    ensures
        match r {
            Ok(_) => argon2_params_check(memory_cost, time_cost, parallelism) == passed(),
            Err(m) => argon2_params_check(memory_cost, time_cost, parallelism) == Err::<(), Seq<char>>(m@),
        },
{
    argon2::Params::new(memory_cost, time_cost, parallelism, None).map(|_| ()).map_err(|e| e.to_string())
}

/// Calls `SaltString::generate` with `OsRng` and `hash_password` of Argon2id
/// (version 0x13) with the given parameters (then `to_string`), `Err` holding
/// the text of the error. Trusted: a hash that comes back parses, and the
/// password verifies against it (verification reads the parameters from the
/// hash). With parameters that `Params::new` accepted, a generated
/// 16-byte salt and the default 32-byte output, the one error that
/// `hash_password` can give is a password longer than `MAX_PWD_LEN` bytes,
/// so it succeeds on any shorter one. The salt is random, so the hash
/// itself is not stated.
#[verifier::external_body]
fn argon2_hash_with(password: &str, memory_cost: u32, time_cost: u32, parallelism: u32) -> (r: core::result::Result<String, String>)
    requires
        argon2_params_check(memory_cost, time_cost, parallelism) == passed(),
    ensures
        r matches Ok(h) ==> phc_parse(h@) == passed() && argon2_verify(password@, h@) == passed(),
        utf8_len(password) <= argon2_max_password_len() ==> r is Ok,
{
    let salt = argon2::password_hash::SaltString::generate(&mut rand::rngs::OsRng);
    let params = argon2::Params::new(memory_cost, time_cost, parallelism, None).unwrap();
    let a = argon2::Argon2::new(argon2::Algorithm::Argon2id, argon2::Version::V0x13, params);
    a.hash_password(password.as_bytes(), &salt).map(|h| h.to_string()).map_err(|e| e.to_string())
}

/// Calls `PasswordHash::new`, `Err` holding the text of its error.
/// Trusted: the outcome is `phc_parse` of the text.
#[verifier::external_body]
fn phc_check(hash: &str) -> (r: core::result::Result<(), String>)
    ensures
        match r {
            Ok(_) => phc_parse(hash@) == passed(),
            Err(m) => phc_parse(hash@) == Err::<(), Seq<char>>(m@),
        },
{
    argon2::password_hash::PasswordHash::new(hash).map(|_| ()).map_err(|e| e.to_string())
}

/// Calls `PasswordHash::new` and `verify_password` of `Argon2::default()`,
/// `Err` holding the text of its error. Trusted: the outcome is
/// `argon2_verify` of the password and the hash.
#[verifier::external_body]
fn argon2_verify_call(password: &str, hash: &str) -> (r: core::result::Result<(), String>)
    requires
        phc_parse(hash@) == passed(),
    ensures
        match r {
            Ok(_) => argon2_verify(password@, hash@) == passed(),
            Err(m) => argon2_verify(password@, hash@) == Err::<(), Seq<char>>(m@),
        },
{
    let parsed = argon2::password_hash::PasswordHash::new(hash).unwrap();
    argon2::Argon2::default().verify_password(password.as_bytes(), &parsed).map_err(|e| e.to_string())
}

/// Hashes a password with Argon2id and a random salt, as a PHC string; the
/// password verifies against the hash. It succeeds on any password of at
/// most `MAX_PWD_LEN` bytes.
pub fn hash_password(password: &str) -> (r: Result<String>)
    ensures
        r matches Ok(h) ==> verify_outcome(password@, h@) == passed(),
        r matches Err(e) ==> e is Crypto,
        utf8_len(password) <= argon2_max_password_len() ==> r is Ok,
{
    match argon2_hash_default(password) {
        Ok(h) => Ok(h),
        Err(m) => Err(Error::Crypto(concat2("Password hashing failed: ", m.as_str()))),
    }
}

/// What verifying a password against a hash string gives: the refusal's
/// message where the string is not a PHC hash or the password does not
/// match.
pub open spec fn verify_outcome(password: Seq<char>, hash: Seq<char>) -> core::result::Result<(), Seq<char>> {
    match phc_parse(hash) {
        Err(m) => Err("Invalid password hash: "@ + m),
        Ok(_) => match argon2_verify(password, hash) {
            Err(m) => Err("Password verification failed: "@ + m),
            Ok(_) => Ok(()),
        },
    }
}

/// Verifies a password against a PHC hash string.
pub fn verify_password(password: &str, hash: &str) -> (r: Result<()>)
    ensures
        match verify_outcome(password@, hash@) {
            Ok(_) => r is Ok,
            Err(m) => r matches Err(Error::Crypto(e)) && e@ == m,
        },
{
    match phc_check(hash) {
        Ok(_) => {},
        Err(m) => return Err(Error::Crypto(concat2("Invalid password hash: ", m.as_str()))),
    }
    match argon2_verify_call(password, hash) {
        Ok(_) => Ok(()),
        Err(m) => Err(Error::Crypto(concat2("Password verification failed: ", m.as_str()))),
    }
}

/// Hashes a password with Argon2id and the given parameters; the password
/// verifies against the hash. Parameters that Argon2 refuses are refused;
/// with accepted ones it succeeds on any password of at most
/// `MAX_PWD_LEN` bytes.
pub fn hash_password_custom(password: &str, memory_cost: u32, time_cost: u32, parallelism: u32) -> (r: Result<String>)
    ensures
        argon2_params_check(memory_cost, time_cost, parallelism) matches Err(m) ==> (r matches Err(Error::Crypto(e)) && e@ == "Invalid Argon2 params: "@ + m),
        r matches Ok(h) ==> verify_outcome(password@, h@) == passed(),
        r matches Err(e) ==> e is Crypto,
        argon2_params_check(memory_cost, time_cost, parallelism) == passed() && utf8_len(password)
            <= argon2_max_password_len() ==> r is Ok,
{
    match argon2_params(memory_cost, time_cost, parallelism) {
        Ok(_) => {},
        Err(m) => return Err(Error::Crypto(concat2("Invalid Argon2 params: ", m.as_str()))),
    }
    match argon2_hash_with(password, memory_cost, time_cost, parallelism) {
        Ok(h) => Ok(h),
        Err(m) => Err(Error::Crypto(concat2("Password hashing failed: ", m.as_str()))),
    }
}

} // verus!
