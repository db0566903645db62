//! Trusted bindings to the cryptographic primitives.
//!
//! Every call into an outside crate that the engine's logic needs goes
//! through exactly one wrapper here. The digests, signatures, derived keys
//! and validity checks are deterministic functions of their byte arguments,
//! so each such result is given an uninterpreted name that the wrappers'
//! contracts and the engine's own contracts share.

use vstd::prelude::*;

verus! {

/// The 32-byte keyed Blake3 digest of `msg` under the 32-byte `key`.
pub uninterp spec fn blake3_digest(key: Seq<u8>, msg: Seq<u8>) -> Seq<u8>;

/// The 64-byte deterministic Ed25519 signature of `msg` under the 32-byte
/// signing key `sk`.
pub uninterp spec fn ed25519_signature(sk: Seq<u8>, msg: Seq<u8>) -> Seq<u8>;

/// The 32-byte encoding of the public key derived from the 32-byte signing
/// key `sk`.
pub uninterp spec fn ed25519_public_key(sk: Seq<u8>) -> Seq<u8>;

/// Whether the 32 bytes `pk` decode to a valid Ed25519 public key (a valid
/// curve point encoding).
pub uninterp spec fn ed25519_key_valid(pk: Seq<u8>) -> bool;

/// The deterministic accept/reject result of Ed25519 verification of the
/// 64-byte signature `sig` over `msg` under the valid 32-byte public key
/// `pk`.
pub uninterp spec fn ed25519_accepts(pk: Seq<u8>, msg: Seq<u8>, sig: Seq<u8>) -> bool;

/// Relies on `blake3::keyed_hash`: a 32-byte keyed digest, a function of the
/// key and the message alone.
#[verifier::external_body]
pub(crate) fn blake3_keyed_hash(key: &[u8], msg: &[u8]) -> (r: Vec<u8>)
    requires
        key@.len() == 32,
    ensures
        r@ == blake3_digest(key@, msg@),
        r@.len() == 32,
{
    let arr: [u8; 32] = key.try_into().unwrap();
    blake3::keyed_hash(&arr, msg).as_bytes().to_vec()
}

/// Relies on `ed25519_dalek::SigningKey::{from_bytes, sign}`: deterministic
/// (RFC 8032) signing, a function of the signing key and the message alone,
/// producing a 64-byte signature that, as the algorithm guarantees, is
/// accepted by Ed25519 verification under the public key derived from the
/// same signing key.
#[verifier::external_body]
pub(crate) fn ed25519_sign_bytes(sk: &[u8], msg: &[u8]) -> (r: Vec<u8>)
    requires
        sk@.len() == 32,
    ensures
        r@ == ed25519_signature(sk@, msg@),
        r@.len() == 64,
        ed25519_accepts(ed25519_public_key(sk@), msg@, r@),
{
    let arr: [u8; 32] = sk.try_into().unwrap();
    let key = ed25519_dalek::SigningKey::from_bytes(&arr);
    let sig = ed25519_dalek::Signer::sign(&key, msg);
    sig.to_bytes().to_vec()
}

/// Relies on `ed25519_dalek::SigningKey::{from_bytes, verifying_key}`: the
/// public key is derived deterministically from the signing key, and its
/// 32-byte encoding always decodes back to a valid public key (the crate
/// keeps the compressed encoding and the decompressed point together as an
/// invariant of `VerifyingKey`).
#[verifier::external_body]
pub(crate) fn ed25519_derive_public(sk: &[u8]) -> (r: Vec<u8>)
    requires
        sk@.len() == 32,
    ensures
        r@ == ed25519_public_key(sk@),
        r@.len() == 32,
        ed25519_key_valid(r@),
{
    let arr: [u8; 32] = sk.try_into().unwrap();
    let key = ed25519_dalek::SigningKey::from_bytes(&arr);
    key.verifying_key().to_bytes().to_vec()
}

/// Relies on `ed25519_dalek::VerifyingKey::from_bytes`: whether the bytes
/// decode to a valid public key is a function of the bytes alone (point
/// decompression either succeeds or fails).
#[verifier::external_body]
pub(crate) fn ed25519_check_public(pk: &[u8]) -> (r: bool)
    requires
        pk@.len() == 32,
    ensures
        r == ed25519_key_valid(pk@),
{
    let arr: [u8; 32] = pk.try_into().unwrap();
    ed25519_dalek::VerifyingKey::from_bytes(&arr).is_ok()
}

/// Relies on `ed25519_dalek::VerifyingKey::verify` (with
/// `VerifyingKey::from_bytes` and `Signature::from_bytes` converting the
/// arguments): deterministic accept/reject, a function of the public key,
/// the message, and the signature alone.
#[verifier::external_body]
pub(crate) fn ed25519_verify_bytes(pk: &[u8], msg: &[u8], sig: &[u8]) -> (r: bool)
    requires
        pk@.len() == 32,
        ed25519_key_valid(pk@),
        sig@.len() == 64,
    ensures
        r == ed25519_accepts(pk@, msg@, sig@),
{
    let ka: [u8; 32] = pk.try_into().unwrap();
    let sa: [u8; 64] = sig.try_into().unwrap();
    match ed25519_dalek::VerifyingKey::from_bytes(&ka) {
        Ok(key) => {
            let s = ed25519_dalek::Signature::from_bytes(&sa);
            ed25519_dalek::Verifier::verify(&key, msg, &s).is_ok()
        },
        Err(_) => false,
    }
}

/// Relies on `rand::rngs::OsRng` through `rand::RngCore::fill_bytes`: fills
/// the buffer from the operating system's entropy source. Nothing can be
/// promised of random bytes but their count.
#[verifier::external_body]
pub(crate) fn random_key_bytes() -> (r: Vec<u8>)
    ensures
        r@.len() == 32,
{
    let mut buf = vec![0u8; 32];
    rand::RngCore::fill_bytes(&mut rand::rngs::OsRng, &mut buf);
    buf
}

} // verus!
