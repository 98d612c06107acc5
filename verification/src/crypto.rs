//! The primitives that the engine takes from outside: a message
//! authentication code, a password hash, and percent-encoding.
//!
//! The three functions at the end of this file are not proved. Each states
//! what the outside function computes, and the rest of the library is proved
//! from that.

use hmac::{Hmac, Mac};
use sha2::Sha256;
use vstd::prelude::*;
use vstd::utf8::encode_utf8;

use crate::encoding::ascii_text;

verus! {

/// HMAC-SHA-256 of `message` under `key` (RFC 2104 with SHA-256).
pub uninterp spec fn hmac_sha256(key: Seq<u8>, message: Seq<u8>) -> Seq<u8>;

/// PBKDF2 with HMAC-SHA-256 (RFC 8018), 32 bytes of output.
pub uninterp spec fn pbkdf2_sha256(password: Seq<u8>, salt: Seq<u8>, rounds: u32) -> Seq<u8>;

/// Whether percent-encoding leaves the byte as it is: an ASCII letter, a
/// digit, or one of `-`, `.`, `_`, `~`.
pub open spec fn is_unreserved(b: u8) -> bool {
    ||| 48 <= b <= 57
    ||| 65 <= b <= 90
    ||| 97 <= b <= 122
    ||| b == 45
    ||| b == 46
    ||| b == 95
    ||| b == 126
}

/// The ASCII code of the upper-case hexadecimal digit for `n`.
pub open spec fn upper_hex_digit(n: u8) -> u8 {
    if n < 10 {
        (48 + n) as u8
    } else {
        (55 + n) as u8
    }
}

/// One byte, percent-encoded: itself, or `%` and two upper-case hexadecimal
/// digits.
pub open spec fn percent_encode_byte(b: u8) -> Seq<u8> {
    if is_unreserved(b) {
        seq![b]
    } else {
        seq![37u8, upper_hex_digit(b / 16), upper_hex_digit(b % 16)]
    }
}

/// The bytes, percent-encoded one by one.
pub open spec fn percent_encode(bytes: Seq<u8>) -> Seq<u8>
    decreases bytes.len(),
{
    if bytes.len() == 0 {
        Seq::empty()
    } else {
        percent_encode_byte(bytes[0]) + percent_encode(bytes.drop_first())
    }
}

/// Calls `Hmac::<Sha256>` of the crate `hmac`: keys it with `key`, feeds it
/// `message` and takes the tag. The contract names the result; that the
/// crate computes HMAC-SHA-256 is taken on trust. A key of any length is
/// accepted by the crate, so the call cannot fail.
#[verifier::external_body]
pub(crate) fn hmac_tag(key: &[u8], message: &[u8]) -> (tag: Vec<u8>)
    ensures
        tag@ == hmac_sha256(key@, message@),
{
    let mut mac = Hmac::<Sha256>::new_from_slice(key).expect("HMAC takes a key of any length");
    mac.update(message);
    mac.finalize().into_bytes().to_vec()
}

/// Calls `pbkdf2::pbkdf2_hmac_array` with SHA-256 and 32 bytes of output.
/// The contract names the result; that the crate computes PBKDF2 is taken
/// on trust.
#[verifier::external_body]
pub(crate) fn derive_key(password: &[u8], salt: &[u8], rounds: u32) -> (key: Vec<u8>)
    ensures
        key@ == pbkdf2_sha256(password@, salt@, rounds),
{
    pbkdf2::pbkdf2_hmac_array::<Sha256, 32>(password, salt, rounds).to_vec()
}

/// Calls `urlencoding::encode`. The crate walks the UTF-8 bytes of `text`,
/// keeps the unreserved ones and writes every other byte as `%` and two
/// upper-case hexadecimal digits; the contract says exactly that.
#[verifier::external_body]
pub(crate) fn percent_encode_text(text: &str) -> (out: String)
    ensures
        out@ == ascii_text(percent_encode(encode_utf8(text@))),
{
    urlencoding::encode(text).into_owned()
}

} // verus!
