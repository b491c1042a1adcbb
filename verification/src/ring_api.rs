//! Trusted declarations of the `ring` primitives this crate builds on.
//!
//! Every item here is believed, not proved: each wrapper's contract states
//! only what `ring`'s source and documentation show. Success of a parse is
//! captured by an unspecified well-formedness predicate per (encoding,
//! algorithm) pair; nothing in this crate states which byte sequences
//! satisfy those predicates.

use vstd::prelude::*;

use crate::error::SignError;

verus! {

#[verifier::external_type_specification]
#[verifier::external_body]
pub struct ExRsaKeyPair(ring::signature::RsaKeyPair);

#[verifier::external_type_specification]
#[verifier::external_body]
pub struct ExEcdsaKeyPair(ring::signature::EcdsaKeyPair);

#[verifier::external_type_specification]
#[verifier::external_body]
pub struct ExEd25519KeyPair(ring::signature::Ed25519KeyPair);

#[verifier::external_type_specification]
#[verifier::external_body]
pub struct ExSystemRandom(ring::rand::SystemRandom);

/// Whether `ring::signature::RsaKeyPair::from_der` accepts `der` as a
/// PKCS#1 RSA private key.
pub uninterp spec fn rsa_pkcs1_wellformed(der: Seq<u8>) -> bool;

/// Whether `ring::signature::RsaKeyPair::from_pkcs8` accepts `der` as a
/// PKCS#8 RSA private key.
pub uninterp spec fn rsa_pkcs8_wellformed(der: Seq<u8>) -> bool;

/// Whether `der` is a PKCS#8 ECDSA P-256 private key that
/// `ring::signature::EcdsaKeyPair::from_pkcs8` accepts (given working
/// randomness).
pub uninterp spec fn p256_pkcs8_wellformed(der: Seq<u8>) -> bool;

/// Whether `der` is a PKCS#8 ECDSA P-384 private key that
/// `ring::signature::EcdsaKeyPair::from_pkcs8` accepts (given working
/// randomness).
pub uninterp spec fn p384_pkcs8_wellformed(der: Seq<u8>) -> bool;

/// Whether `ring::signature::Ed25519KeyPair::from_pkcs8_maybe_unchecked`
/// accepts `der` as a PKCS#8 (v1 or v2) Ed25519 private key.
pub uninterp spec fn ed25519_pkcs8_wellformed(der: Seq<u8>) -> bool;

/// Relies on `ring::signature::RsaKeyPair::from_der`: deterministic
/// structural validation of a PKCS#1 RSA private key; it succeeds exactly
/// on the byte sequences it accepts, with no other input.
#[verifier::external_body]
pub(crate) fn rsa_key_from_der(der: &[u8]) -> (r: Result<ring::signature::RsaKeyPair, SignError>)
    ensures
        r is Ok <==> rsa_pkcs1_wellformed(der@),
{
    ring::signature::RsaKeyPair::from_der(der).map_err(|_| SignError)
}

/// Relies on `ring::signature::RsaKeyPair::from_pkcs8`: deterministic
/// structural validation of a PKCS#8 RSA private key.
#[verifier::external_body]
pub(crate) fn rsa_key_from_pkcs8(der: &[u8]) -> (r: Result<ring::signature::RsaKeyPair, SignError>)
    ensures
        r is Ok <==> rsa_pkcs8_wellformed(der@),
{
    ring::signature::RsaKeyPair::from_pkcs8(der).map_err(|_| SignError)
}

/// Relies on `RsaKeyPair::public().modulus_len()`: the byte length of the
/// key's public modulus. `ring` only constructs keys whose modulus is
/// 2047 to 4096 bits, so the length is between 256 and 512 bytes.
#[verifier::external_body]
pub(crate) fn rsa_modulus_len(key: &ring::signature::RsaKeyPair) -> (r: usize)
    ensures
        256 <= r <= 512,
{
    key.public().modulus_len()
}

/// Relies on `ring::rand::SystemRandom::new`: a handle to the operating
/// system's secure random source.
#[verifier::external_body]
pub(crate) fn system_random() -> ring::rand::SystemRandom {
    ring::rand::SystemRandom::new()
}

/// Relies on `RsaKeyPair::sign` with `RSA_PKCS1_SHA256` padding: the
/// signature is written in place into `sig`, a fixed-length slice, so the
/// buffer keeps its length whatever the outcome.
#[verifier::external_body]
pub(crate) fn rsa_sign_pkcs1_sha256(
    key: &ring::signature::RsaKeyPair,
    rng: &ring::rand::SystemRandom,
    msg: &[u8],
    sig: &mut Vec<u8>,
) -> (r: Result<(), SignError>)
    ensures
        final(sig)@.len() == old(sig)@.len(),
{
    key.sign(&ring::signature::RSA_PKCS1_SHA256, rng, msg, sig.as_mut_slice())
        .map_err(|_| SignError)
}

/// Relies on `RsaKeyPair::sign` with `RSA_PKCS1_SHA384` padding; see
/// `rsa_sign_pkcs1_sha256`.
#[verifier::external_body]
pub(crate) fn rsa_sign_pkcs1_sha384(
    key: &ring::signature::RsaKeyPair,
    rng: &ring::rand::SystemRandom,
    msg: &[u8],
    sig: &mut Vec<u8>,
) -> (r: Result<(), SignError>)
    ensures
        final(sig)@.len() == old(sig)@.len(),
{
    key.sign(&ring::signature::RSA_PKCS1_SHA384, rng, msg, sig.as_mut_slice())
        .map_err(|_| SignError)
}

/// Relies on `RsaKeyPair::sign` with `RSA_PKCS1_SHA512` padding; see
/// `rsa_sign_pkcs1_sha256`.
#[verifier::external_body]
pub(crate) fn rsa_sign_pkcs1_sha512(
    key: &ring::signature::RsaKeyPair,
    rng: &ring::rand::SystemRandom,
    msg: &[u8],
    sig: &mut Vec<u8>,
) -> (r: Result<(), SignError>)
    ensures
        final(sig)@.len() == old(sig)@.len(),
{
    key.sign(&ring::signature::RSA_PKCS1_SHA512, rng, msg, sig.as_mut_slice())
        .map_err(|_| SignError)
}

/// Relies on `RsaKeyPair::sign` with `RSA_PSS_SHA256` padding (the salt is
/// drawn from `rng`); see `rsa_sign_pkcs1_sha256`.
#[verifier::external_body]
pub(crate) fn rsa_sign_pss_sha256(
    key: &ring::signature::RsaKeyPair,
    rng: &ring::rand::SystemRandom,
    msg: &[u8],
    sig: &mut Vec<u8>,
) -> (r: Result<(), SignError>)
    ensures
        final(sig)@.len() == old(sig)@.len(),
{
    key.sign(&ring::signature::RSA_PSS_SHA256, rng, msg, sig.as_mut_slice())
        .map_err(|_| SignError)
}

/// Relies on `RsaKeyPair::sign` with `RSA_PSS_SHA384` padding; see
/// `rsa_sign_pss_sha256`.
#[verifier::external_body]
pub(crate) fn rsa_sign_pss_sha384(
    key: &ring::signature::RsaKeyPair,
    rng: &ring::rand::SystemRandom,
    msg: &[u8],
    sig: &mut Vec<u8>,
) -> (r: Result<(), SignError>)
    ensures
        final(sig)@.len() == old(sig)@.len(),
{
    key.sign(&ring::signature::RSA_PSS_SHA384, rng, msg, sig.as_mut_slice())
        .map_err(|_| SignError)
}

/// Relies on `RsaKeyPair::sign` with `RSA_PSS_SHA512` padding; see
/// `rsa_sign_pss_sha256`.
#[verifier::external_body]
pub(crate) fn rsa_sign_pss_sha512(
    key: &ring::signature::RsaKeyPair,
    rng: &ring::rand::SystemRandom,
    msg: &[u8],
    sig: &mut Vec<u8>,
) -> (r: Result<(), SignError>)
    ensures
        final(sig)@.len() == old(sig)@.len(),
{
    key.sign(&ring::signature::RSA_PSS_SHA512, rng, msg, sig.as_mut_slice())
        .map_err(|_| SignError)
}

/// Relies on `ring::signature::EcdsaKeyPair::from_pkcs8` with
/// `ECDSA_P256_SHA256_ASN1_SIGNING`: malformed input is always rejected;
/// success additionally needs the randomness source to deliver (it seeds
/// nonce hedging), so well-formed input is not promised to succeed.
#[verifier::external_body]
pub(crate) fn ecdsa_p256_from_pkcs8(
    der: &[u8],
    rng: &ring::rand::SystemRandom,
) -> (r: Result<ring::signature::EcdsaKeyPair, SignError>)
    ensures
        r is Ok ==> p256_pkcs8_wellformed(der@),
{
    ring::signature::EcdsaKeyPair::from_pkcs8(
        &ring::signature::ECDSA_P256_SHA256_ASN1_SIGNING,
        der,
        rng,
    )
    .map_err(|_| SignError)
}

/// Relies on `ring::signature::EcdsaKeyPair::from_pkcs8` with
/// `ECDSA_P384_SHA384_ASN1_SIGNING`; see `ecdsa_p256_from_pkcs8`.
#[verifier::external_body]
pub(crate) fn ecdsa_p384_from_pkcs8(
    der: &[u8],
    rng: &ring::rand::SystemRandom,
) -> (r: Result<ring::signature::EcdsaKeyPair, SignError>)
    ensures
        r is Ok ==> p384_pkcs8_wellformed(der@),
{
    ring::signature::EcdsaKeyPair::from_pkcs8(
        &ring::signature::ECDSA_P384_SHA384_ASN1_SIGNING,
        der,
        rng,
    )
    .map_err(|_| SignError)
}

/// Relies on `ring::signature::EcdsaKeyPair::sign`: an ASN.1-encoded ECDSA
/// signature over `msg`, using a nonce derived from `rng`; it fails only if
/// the randomness source fails.
#[verifier::external_body]
pub(crate) fn ecdsa_sign(
    key: &ring::signature::EcdsaKeyPair,
    rng: &ring::rand::SystemRandom,
    msg: &[u8],
) -> (r: Result<Vec<u8>, SignError>)
{
    key.sign(rng, msg)
        .map(|sig| sig.as_ref().to_vec())
        .map_err(|_| SignError)
}

/// Relies on `ring::signature::Ed25519KeyPair::from_pkcs8_maybe_unchecked`:
/// deterministic structural validation of a PKCS#8 v1 or v2 Ed25519 private
/// key.
#[verifier::external_body]
pub(crate) fn ed25519_from_pkcs8(der: &[u8]) -> (r: Result<
    ring::signature::Ed25519KeyPair,
    SignError,
>)
    ensures
        r is Ok <==> ed25519_pkcs8_wellformed(der@),
{
    ring::signature::Ed25519KeyPair::from_pkcs8_maybe_unchecked(der).map_err(|_| SignError)
}

/// Relies on `ring::signature::Ed25519KeyPair::sign`: deterministic Ed25519
/// signing, always producing the 64-byte signature of RFC 8032.
#[verifier::external_body]
pub(crate) fn ed25519_sign(key: &ring::signature::Ed25519KeyPair, msg: &[u8]) -> (r: Vec<u8>)
    ensures
        r@.len() == 64,
{
    key.sign(msg).as_ref().to_vec()
}

/// Relies on `std::sync::Arc::clone`: a second handle to the same shared
/// value.
#[verifier::external_body]
pub(crate) fn clone_rsa_handle(key: &std::sync::Arc<ring::signature::RsaKeyPair>) -> (r:
    std::sync::Arc<ring::signature::RsaKeyPair>)
    ensures
        r == *key,
{
    std::sync::Arc::clone(key)
}

/// Relies on `std::sync::Arc::clone`: a second handle to the same shared
/// value.
#[verifier::external_body]
pub(crate) fn clone_ecdsa_handle(key: &std::sync::Arc<ring::signature::EcdsaKeyPair>) -> (r:
    std::sync::Arc<ring::signature::EcdsaKeyPair>)
    ensures
        r == *key,
{
    std::sync::Arc::clone(key)
}

/// Relies on `std::sync::Arc::clone`: a second handle to the same shared
/// value.
#[verifier::external_body]
pub(crate) fn clone_ed25519_handle(key: &std::sync::Arc<ring::signature::Ed25519KeyPair>) -> (r:
    std::sync::Arc<ring::signature::Ed25519KeyPair>)
    ensures
        r == *key,
{
    std::sync::Arc::clone(key)
}

} // verus!
