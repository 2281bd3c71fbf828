//! Ed25519 keys and signatures as plain bytes.

use ed25519_dalek::Signature;
use ed25519_dalek::Signer;
use ed25519_dalek::SigningKey;
use ed25519_dalek::Verifier;
use ed25519_dalek::VerifyingKey;
use vstd::prelude::*;

verus! {

/// Number of bytes in a secret key and in a public key.
pub const KEY_LEN: usize = 32;

/// Number of bytes in a signature.
pub const SIGNATURE_LEN: usize = 64;

/// The public key that belongs to the 32-byte secret key `secret`.
pub uninterp spec fn ed25519_public_key(secret: Seq<u8>) -> Seq<u8>;

/// The signature of `message` under the 32-byte secret key `secret`.
pub uninterp spec fn ed25519_signature(secret: Seq<u8>, message: Seq<u8>) -> Seq<u8>;

/// Whether the 32 bytes `public` are the encoding of a point of the curve.
pub uninterp spec fn ed25519_key_valid(public: Seq<u8>) -> bool;

/// Whether `signature` is accepted for `message` under the key `public`.
pub uninterp spec fn ed25519_verifies(
    public: Seq<u8>,
    message: Seq<u8>,
    signature: Seq<u8>,
) -> bool;

/// `SigningKey::generate` of ed25519-dalek on rand's thread-local generator:
/// 32 fresh secret bytes. Nothing more is claimed of them.
#[verifier::external_body]
pub(crate) fn fresh_secret_key() -> (secret: Vec<u8>)
    ensures
        secret@.len() == KEY_LEN,
{
    SigningKey::generate(&mut rand::thread_rng()).to_bytes().to_vec()
}

/// `SigningKey::verifying_key`: the public key of a secret key. It has 32
/// bytes and is the encoding of a point of the curve.
#[verifier::external_body]
pub(crate) fn public_key_of(secret: &[u8]) -> (public: Vec<u8>)
    requires
        secret@.len() == KEY_LEN,
    ensures
        public@ == ed25519_public_key(secret@),
        public@.len() == KEY_LEN,
        ed25519_key_valid(public@),
{
    let bytes: [u8; 32] = secret.try_into().unwrap();
    SigningKey::from_bytes(&bytes).verifying_key().to_bytes().to_vec()
}

/// `Signer::sign` of a `SigningKey`: the signature has 64 bytes, depends on
/// the key and the message alone, and is accepted under the key's public key.
#[verifier::external_body]
pub(crate) fn sign(secret: &[u8], message: &[u8]) -> (signature: Vec<u8>)
    requires
        secret@.len() == KEY_LEN,
    ensures
        signature@ == ed25519_signature(secret@, message@),
        signature@.len() == SIGNATURE_LEN,
        ed25519_verifies(ed25519_public_key(secret@), message@, signature@),
{
    let bytes: [u8; 32] = secret.try_into().unwrap();
    SigningKey::from_bytes(&bytes).sign(message).to_bytes().to_vec()
}

/// `VerifyingKey::from_bytes`: whether the bytes decode to a point of the
/// curve.
#[verifier::external_body]
pub(crate) fn key_is_valid(public: &[u8]) -> (valid: bool)
    requires
        public@.len() == KEY_LEN,
    ensures
        valid == ed25519_key_valid(public@),
{
    let bytes: [u8; 32] = public.try_into().unwrap();
    VerifyingKey::from_bytes(&bytes).is_ok()
}

/// `Verifier::verify` of a `VerifyingKey`: whether the signature is accepted
/// for the message under the key.
#[verifier::external_body]
pub(crate) fn verifies(public: &[u8], message: &[u8], signature: &[u8]) -> (accepted: bool)
    requires
        public@.len() == KEY_LEN,
        signature@.len() == SIGNATURE_LEN,
        ed25519_key_valid(public@),
    ensures
        accepted == ed25519_verifies(public@, message@, signature@),
{
    let key_bytes: [u8; 32] = public.try_into().unwrap();
    let signature_bytes: [u8; 64] = signature.try_into().unwrap();
    let key = VerifyingKey::from_bytes(&key_bytes).unwrap();
    key.verify(message, &Signature::from_bytes(&signature_bytes)).is_ok()
}

} // verus!
