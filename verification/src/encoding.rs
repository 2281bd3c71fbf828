//! Base64, for showing keys.

use base64::engine::general_purpose::STANDARD;
use base64::Engine;
use vstd::prelude::*;

verus! {

/// The alphabet of standard base64, in the order of its digits' values.
pub const BASE64_ALPHABET: &'static str =
    "ABCDEFGHIJKLMNOPQRSTUVWXYZabcdefghijklmnopqrstuvwxyz0123456789+/";

/// The character of the base64 digit with value `v`.
pub open spec fn base64_char(v: int) -> char {
    BASE64_ALPHABET@[v]
}

/// Standard base64 with padding: each group of three bytes becomes four
/// digits of six bits; a last group of one or two bytes is filled up with
/// zero bits and `=`.
pub open spec fn base64_text(bytes: Seq<u8>) -> Seq<char>
    decreases bytes.len(),
{
    if bytes.len() == 0 {
        Seq::<char>::empty()
    } else if bytes.len() == 1 {
        seq![base64_char(bytes[0] as int / 4), base64_char(bytes[0] as int % 4 * 16), '=', '=']
    } else if bytes.len() == 2 {
        seq![
            base64_char(bytes[0] as int / 4),
            base64_char(bytes[0] as int % 4 * 16 + bytes[1] as int / 16),
            base64_char(bytes[1] as int % 16 * 4),
            '=',
        ]
    } else {
        seq![
            base64_char(bytes[0] as int / 4),
            base64_char(bytes[0] as int % 4 * 16 + bytes[1] as int / 16),
            base64_char(bytes[1] as int % 16 * 4 + bytes[2] as int / 64),
            base64_char(bytes[2] as int % 64),
        ] + base64_text(bytes.skip(3))
    }
}

/// `Engine::encode` of base64's `STANDARD` engine: the bytes in standard
/// base64 with padding.
#[verifier::external_body]
pub(crate) fn base64_encode(bytes: &[u8]) -> (text: String)
    ensures
        text@ == base64_text(bytes@),
{
    STANDARD.encode(bytes)
}

} // verus!
