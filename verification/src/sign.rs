//! The signer: a message-authentication code over the canonical request
//! string, rendered as a lowercase hex string.  Pure and deterministic: the
//! signature is a function of the request bytes and the secret alone.

use vstd::prelude::*;

verus! {

/// The lowercase hex digit for a value below sixteen.
pub open spec fn hex_digit(n: int) -> char
    recommends
        0 <= n < 16,
{
    if n == 0 {
        '0'
    } else if n == 1 {
        '1'
    } else if n == 2 {
        '2'
    } else if n == 3 {
        '3'
    } else if n == 4 {
        '4'
    } else if n == 5 {
        '5'
    } else if n == 6 {
        '6'
    } else if n == 7 {
        '7'
    } else if n == 8 {
        '8'
    } else if n == 9 {
        '9'
    } else if n == 10 {
        'a'
    } else if n == 11 {
        'b'
    } else if n == 12 {
        'c'
    } else if n == 13 {
        'd'
    } else if n == 14 {
        'e'
    } else {
        'f'
    }
}

/// Lowercase hex encoding: two digits per byte, high nibble first.
pub open spec fn hex_encoding(bytes: Seq<u8>) -> Seq<char> {
    Seq::new(
        bytes.len() * 2,
        |i: int|
            if i % 2 == 0 {
                hex_digit(bytes[i / 2] as int / 16)
            } else {
                hex_digit(bytes[i / 2] as int % 16)
            },
    )
}

/// The HMAC-SHA-256 tag of a message under a key.  Left uninterpreted: the
/// algorithm is the outside crate's business; all that matters here is that
/// the tag depends on the key and the message alone.
pub uninterp spec fn hmac_sha256_tag(key: Seq<u8>, message: Seq<u8>) -> Seq<u8>;

/// Relies on hmac_sha256::HMAC::mac: the returned 32-byte tag is a
/// deterministic function of the input bytes and the key bytes alone.
#[verifier::external_body]
fn hmac_mac(input: &[u8], key: &[u8]) -> (tag: Vec<u8>)
    ensures
        tag@ == hmac_sha256_tag(key@, input@),
        tag@.len() == 32,
{
    hmac_sha256::HMAC::mac(input, key).to_vec()
}

/// Relies on hex::encode: the result spells each input byte as two lowercase
/// hex digits, high nibble first.
#[verifier::external_body]
fn hex_encode(data: &Vec<u8>) -> (r: String)
    ensures
        r@ == hex_encoding(data@),
{
    hex::encode(data)
}

/// What `sign` returns: the hex rendering of the request's MAC tag.
pub open spec fn signature_of(message: Seq<u8>, secret: Seq<u8>) -> Seq<char> {
    hex_encoding(hmac_sha256_tag(secret, message))
}

/// Sign a canonical request string with the account secret.
pub fn sign(message: &[u8], secret: &[u8]) -> (sig: String)
    ensures
        sig@ == signature_of(message@, secret@),
        sig@.len() == 64,
{
    let tag = hmac_mac(message, secret);
    hex_encode(&tag)
}

/// Law: signing is deterministic — equal request bytes and equal secrets
/// always yield equal signatures.
pub proof fn lemma_sign_deterministic(m1: Seq<u8>, s1: Seq<u8>, m2: Seq<u8>, s2: Seq<u8>)
    requires
        m1 == m2,
        s1 == s2,
    ensures
        signature_of(m1, s1) == signature_of(m2, s2),
{
}

} // verus!
