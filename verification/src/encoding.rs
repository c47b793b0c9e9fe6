//! Base64url (unpadded) and hexadecimal encodings of byte strings.

use vstd::prelude::*;
use base64ct::Encoding;
use crate::error::{Error, Result};
use crate::text::digit_char;

verus! {

/// The characters of the URL-safe Base64 alphabet: `A-Z a-z 0-9 - _`.
pub open spec fn is_b64url_char(c: char) -> bool {
    ||| ('A' <= c && c <= 'Z')
    ||| ('a' <= c && c <= 'z')
    ||| ('0' <= c && c <= '9')
    ||| c == '-'
    ||| c == '_'
}

/// What `base64ct::Base64UrlUnpadded::encode_string` gives for `data`.
pub uninterp spec fn base64url_of(data: Seq<u8>) -> Seq<char>;

/// What `base64ct::Base64UrlUnpadded::decode_vec` gives for `text`
/// (`None` where it reports an error).
pub uninterp spec fn base64url_decoded(text: Seq<char>) -> Option<Seq<u8>>;

/// Calls `base64ct::Base64UrlUnpadded::encode_string`.
/// Trusted: the result is the URL-safe, unpadded Base64 text of `data`,
/// of length `ceil(4n/3)`, made of URL-safe characters only, and
/// `decode_vec` gives `data` back from it.
#[verifier::external_body]
fn b64url_encode_string(data: &[u8]) -> (r: String)
    requires
        data@.len() <= usize::MAX / 4,
    ensures
        r@ == base64url_of(data@),
        r@.len() == (data@.len() * 4 + 2) / 3,
        forall|i: int| 0 <= i < r@.len() ==> is_b64url_char(#[trigger] r@[i]),
        base64url_decoded(r@) == Some(data@),
{
    base64ct::Base64UrlUnpadded::encode_string(data)
}

/// Calls `base64ct::Base64UrlUnpadded::decode_vec`.
/// Trusted: the result is what that function gives for the text, `None`
/// standing for its error.
#[verifier::external_body]
fn b64url_decode_vec(text: &str) -> (r: Option<Vec<u8>>)
    ensures
        match r {
            Some(v) => base64url_decoded(text@) == Some(v@),
            None => base64url_decoded(text@) is None,
        },
{
    base64ct::Base64UrlUnpadded::decode_vec(text).ok()
}

/// Encode bytes as base64url without padding.
pub fn base64url_encode(data: &[u8]) -> (r: String)
    requires
        data@.len() <= usize::MAX / 4,
    ensures
        r@ == base64url_of(data@),
        r@.len() == (data@.len() * 4 + 2) / 3,
        forall|i: int| 0 <= i < r@.len() ==> is_b64url_char(#[trigger] r@[i]),
        base64url_decoded(r@) == Some(data@),
{
    b64url_encode_string(data)
}

/// Decode base64url without padding.
pub fn base64url_decode(encoded: &str) -> (r: Result<Vec<u8>>)
    ensures
        match base64url_decoded(encoded@) {
            Some(d) => r matches Ok(v) && v@ == d,
            None => r matches Err(Error::Decoding(m)) && m@ == "Base64url decode failed"@,
        },
{
    match b64url_decode_vec(encoded) {
        Some(v) => Ok(v),
        None => Err(Error::Decoding(String::from_str("Base64url decode failed"))),
    }
}

/// The lowercase hexadecimal digit for `v < 16`.
pub open spec fn hex_digit_lower(v: nat) -> char {
    if v < 10 {
        digit_char(v)
    } else {
        ((v - 10 + ('a' as u32)) as u32) as char
    }
}

/// Lowercase hexadecimal text of `data`: two digits per byte, high nibble first.
pub open spec fn hex_lower(data: Seq<u8>) -> Seq<char> {
    Seq::new(
        data.len() * 2,
        |i: int|
            if i % 2 == 0 {
                hex_digit_lower((data[i / 2] / 16) as nat)
            } else {
                hex_digit_lower((data[i / 2] % 16) as nat)
            },
    )
}

/// The value of a hexadecimal digit of either case.
pub open spec fn hex_value(c: char) -> Option<nat> {
    if '0' <= c && c <= '9' {
        Some(((c as u32) - ('0' as u32)) as nat)
    } else if 'a' <= c && c <= 'f' {
        Some(((c as u32) - ('a' as u32) + 10) as nat)
    } else if 'A' <= c && c <= 'F' {
        Some(((c as u32) - ('A' as u32) + 10) as nat)
    } else {
        None
    }
}

/// What `hex::decode` gives: even length, hex digits of either case only,
/// each pair one byte.
pub open spec fn hex_decoded(s: Seq<char>) -> Option<Seq<u8>> {
    if s.len() % 2 == 0 && (forall|i: int| 0 <= i < s.len() ==> (#[trigger] hex_value(s[i])) is Some) {
        Some(
            Seq::new(
                s.len() / 2,
                |i: int| (hex_value(s[2 * i]).unwrap() * 16 + hex_value(s[2 * i + 1]).unwrap()) as u8,
            ),
        )
    } else {
        None
    }
}

/// Calls `hex::encode`.
/// Trusted: the result is the lowercase hexadecimal text of `data`
/// (as the crate documents and its source computes).
#[verifier::external_body]
fn hex_encode_lower(data: &[u8]) -> (r: String)
    requires
        data@.len() <= usize::MAX / 4,
    ensures
        r@ == hex_lower(data@),
{
    hex::encode(data)
}

/// Calls `hex::decode`.
/// Trusted: the result is `hex_decoded` of the text, `None` standing for
/// its error (odd length or a character that is not a hex digit).
#[verifier::external_body]
fn hex_decode_str(text: &str) -> (r: Option<Vec<u8>>)
    ensures
        match r {
            Some(v) => hex_decoded(text@) == Some(v@),
            None => hex_decoded(text@) is None,
        },
{
    hex::decode(text).ok()
}

/// Encode bytes as lowercase hexadecimal.
pub fn hex_encode(data: &[u8]) -> (r: String)
    requires
        data@.len() <= usize::MAX / 4,
    ensures
        r@ == hex_lower(data@),
{
    hex_encode_lower(data)
}

/// Decode a hexadecimal string (either case).
pub fn hex_decode(encoded: &str) -> (r: Result<Vec<u8>>)
    ensures
        match hex_decoded(encoded@) {
            Some(d) => r matches Ok(v) && v@ == d,
            None => r matches Err(Error::Decoding(m)) && m@ == "Hex decode failed"@,
        },
{
    match hex_decode_str(encoded) {
        Some(v) => Ok(v),
        None => Err(Error::Decoding(String::from_str("Hex decode failed"))),
    }
}

proof fn lemma_hex_digit(v: nat)
    requires
        v < 16,
    ensures
        hex_value(hex_digit_lower(v)) == Some(v),
{
    let c = hex_digit_lower(v);
    if v < 10 {
        assert(c as u32 == v + 48);
    } else {
        assert(c as u32 == v - 10 + 97);
    }
}

/// Decoding the lowercase hexadecimal text of bytes gives the bytes back.
pub proof fn hex_roundtrip(data: Seq<u8>)
    ensures
        hex_decoded(hex_lower(data)) == Some(data),
{
    let s = hex_lower(data);
    assert forall|i: int| 0 <= i < s.len() implies (#[trigger] hex_value(s[i])) is Some by {
        if i % 2 == 0 {
            lemma_hex_digit((data[i / 2] / 16) as nat);
        } else {
            lemma_hex_digit((data[i / 2] % 16) as nat);
        }
    }
    assert(s.len() % 2 == 0);
    let d = hex_decoded(s).unwrap();
    assert(d.len() == data.len());
    assert forall|i: int| 0 <= i < data.len() implies d[i] == data[i] by {
        assert((2 * i) / 2 == i);
        assert((2 * i + 1) / 2 == i);
        assert((2 * i) % 2 == 0);
        assert((2 * i + 1) % 2 == 1);
        lemma_hex_digit((data[i] / 16) as nat);
        lemma_hex_digit((data[i] % 16) as nat);
        assert(data[i] == (data[i] / 16) * 16 + data[i] % 16);
    }
    assert(d =~= data);
}

} // verus!
