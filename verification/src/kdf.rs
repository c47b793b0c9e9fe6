//! Key derivation with HKDF-SHA256 (RFC 5869).

use vstd::prelude::*;
use crate::error::{Error, Result};
use crate::text::concat2;

verus! {

/// The output key material that HKDF-SHA256 derives: `len` bytes from the
/// input key material, the salt and the info.
pub uninterp spec fn hkdf_sha256_okm(ikm: Seq<u8>, salt: Seq<u8>, info: Seq<u8>, len: nat) -> Seq<u8>;

/// The largest output of HKDF-SHA256: 255 blocks of 32 bytes.
pub open spec fn hkdf_max_output() -> nat {
    255 * 32
}

/// Calls `Hkdf::<Sha256>::new(Some(salt), ikm)` and `expand(info, ..)` into
/// `output_len` bytes, `Err` holding the text of its error. Trusted: it
/// succeeds exactly when the output has at most 255 * 32 bytes, with the
/// derived bytes; the error's text is the one `InvalidLength` displays.
#[verifier::external_body]
fn hkdf_expand(ikm: &[u8], salt: &[u8], info: &[u8], output_len: usize) -> (r: core::result::Result<Vec<u8>, String>)
    ensures
        r is Ok <==> output_len <= hkdf_max_output(),
        r matches Ok(v) ==> v@ == hkdf_sha256_okm(ikm@, salt@, info@, output_len as nat) && v@.len() == output_len,
        r matches Err(m) ==> m@ == "invalid number of blocks, too large output"@,
{
    let hk = hkdf::Hkdf::<sha2::Sha256>::new(Some(salt), ikm);
    let mut okm = vec![0u8; output_len];
    hk.expand(info, &mut okm).map(|_| okm).map_err(|e| e.to_string())
}

/// HKDF-SHA256: `output_len` bytes derived from the input key material, the
/// salt and the info; at most 255 * 32 bytes.
pub fn hkdf_sha256(ikm: &[u8], salt: &[u8], info: &[u8], output_len: usize) -> (r: Result<Vec<u8>>)
    ensures
        output_len <= hkdf_max_output() ==> (r matches Ok(v) && v@ == hkdf_sha256_okm(ikm@, salt@, info@, output_len as nat) && v@.len() == output_len),
        output_len > hkdf_max_output() ==> (r matches Err(Error::Crypto(m)) && m@ == "HKDF expansion failed: "@ + "invalid number of blocks, too large output"@),
{
    match hkdf_expand(ikm, salt, info, output_len) {
        Ok(v) => Ok(v),
        Err(m) => Err(Error::Crypto(concat2("HKDF expansion failed: ", m.as_str()))),
    }
}

/// The 32-byte encryption key derived from a shared secret and a context
/// (salt "locd-encryption-v1").
pub fn derive_encryption_key(shared_secret: &[u8], context: &[u8]) -> (r: Result<Vec<u8>>)
    ensures
        r matches Ok(v) && v@ == hkdf_sha256_okm(shared_secret@, "locd-encryption-v1"@.map_values(|c: char| c as u8), context@, 32)
            && v@.len() == 32,
{
    let salt = crate::bytes::to_vec("locd-encryption-v1".as_bytes());
    proof {
        reveal_strlit("locd-encryption-v1");
        assert(salt@ =~= "locd-encryption-v1"@.map_values(|c: char| c as u8)) by {
            vstd::string::is_ascii_spec_bytes("locd-encryption-v1");
        }
    }
    hkdf_sha256(shared_secret, salt.as_slice(), context, 32)
}

/// The 32-byte MAC key derived from a shared secret and a context (salt
/// "locd-mac-v1").
pub fn derive_mac_key(shared_secret: &[u8], context: &[u8]) -> (r: Result<Vec<u8>>)
    ensures
        r matches Ok(v) && v@ == hkdf_sha256_okm(shared_secret@, "locd-mac-v1"@.map_values(|c: char| c as u8), context@, 32)
            && v@.len() == 32,
{
    let salt = crate::bytes::to_vec("locd-mac-v1".as_bytes());
    proof {
        reveal_strlit("locd-mac-v1");
        assert(salt@ =~= "locd-mac-v1"@.map_values(|c: char| c as u8)) by {
            vstd::string::is_ascii_spec_bytes("locd-mac-v1");
        }
    }
    hkdf_sha256(shared_secret, salt.as_slice(), context, 32)
}

} // verus!
