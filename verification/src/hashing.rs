//! SHA-256 over text, written out in lower-case hexadecimal.

use sha2::Digest;
use sha2::Sha256;
use vstd::prelude::*;
use vstd::string::*;
use vstd::utf8::encode_utf8;

verus! {

/// The sixteen hexadecimal digits, in order.
pub const HEX_DIGITS: &'static str = "0123456789abcdef";

/// Number of bytes in a SHA-256 digest.
pub const DIGEST_LEN: usize = 32;

/// Number of characters in a digest written in hexadecimal.
pub const HASH_LEN: usize = 64;

/// The SHA-256 digest of `data`.
pub uninterp spec fn sha256_digest(data: Seq<u8>) -> Seq<u8>;

/// The character of the hexadecimal digit with value `nibble`.
pub open spec fn hex_char(nibble: int) -> char {
    HEX_DIGITS@[nibble]
}

/// `bytes` in lower-case hexadecimal: two digits for each byte, the high
/// half first.
pub open spec fn hex_text(bytes: Seq<u8>) -> Seq<char> {
    Seq::new(
        2 * bytes.len(),
        |i: int|
            if i % 2 == 0 {
                hex_char(bytes[i / 2] as int / 16)
            } else {
                hex_char(bytes[i / 2] as int % 16)
            },
    )
}

/// The hash of a text: the SHA-256 digest of its UTF-8 bytes, in hexadecimal.
pub open spec fn sha256_hex(text: Seq<char>) -> Seq<char> {
    hex_text(sha256_digest(encode_utf8(text)))
}

/// `Digest::digest` of sha2's `Sha256`: the result is the SHA-256 digest of
/// `data`, which has 32 bytes.
#[verifier::external_body]
pub(crate) fn sha256(data: &[u8]) -> (digest: Vec<u8>)
    ensures
        digest@ == sha256_digest(data@),
        digest@.len() == DIGEST_LEN,
{
    Sha256::digest(data).to_vec()
}

/// `hex::encode`: each byte becomes two lower-case hexadecimal digits, the
/// high half first.
#[verifier::external_body]
pub(crate) fn hex_encode(bytes: &[u8]) -> (text: String)
    ensures
        text@ == hex_text(bytes@),
{
    hex::encode(bytes)
}

/// The hash of `text` in hexadecimal.
pub fn hash_text(text: &str) -> (hash: String)
    ensures
        hash@ == sha256_hex(text@),
        hash@.len() == HASH_LEN,
{
    let digest = sha256(text.as_bytes());
    hex_encode(digest.as_slice())
}

} // verus!
