//! Identifiers for signature schemes, signature algorithm families,
//! cipher suites, hash algorithms and AEAD algorithms.

use vstd::prelude::*;

verus! {

/// A signature scheme negotiated between TLS peers: a key type together
/// with a hash function.
#[derive(Clone, Copy, Debug, PartialEq, Eq, Structural)]
#[allow(non_camel_case_types)]
pub enum SignatureScheme {
    RSA_PKCS1_SHA256,
    RSA_PKCS1_SHA384,
    RSA_PKCS1_SHA512,
    ECDSA_NISTP256_SHA256,
    ECDSA_NISTP384_SHA384,
    ECDSA_NISTP521_SHA512,
    RSA_PSS_SHA256,
    RSA_PSS_SHA384,
    RSA_PSS_SHA512,
    ED25519,
    ED448,
}

/// A signature algorithm family, without a hash function.
#[derive(Clone, Copy, Debug, PartialEq, Eq, Structural)]
#[allow(non_camel_case_types)]
pub enum SignatureAlgorithm {
    RSA,
    ECDSA,
    ED25519,
    ED448,
}

impl SignatureScheme {
    /// The signature algorithm family this scheme uses.
    pub open spec fn sign_spec(self) -> SignatureAlgorithm {
        match self {
            SignatureScheme::RSA_PKCS1_SHA256
            | SignatureScheme::RSA_PKCS1_SHA384
            | SignatureScheme::RSA_PKCS1_SHA512
            | SignatureScheme::RSA_PSS_SHA256
            | SignatureScheme::RSA_PSS_SHA384
            | SignatureScheme::RSA_PSS_SHA512 => SignatureAlgorithm::RSA,
            SignatureScheme::ECDSA_NISTP256_SHA256
            | SignatureScheme::ECDSA_NISTP384_SHA384
            | SignatureScheme::ECDSA_NISTP521_SHA512 => SignatureAlgorithm::ECDSA,
            SignatureScheme::ED25519 => SignatureAlgorithm::ED25519,
            SignatureScheme::ED448 => SignatureAlgorithm::ED448,
        }
    }

    /// The signature algorithm family this scheme uses.
    pub fn sign(self) -> (r: SignatureAlgorithm)
        ensures
            r == self.sign_spec(),
    {
        match self {
            SignatureScheme::RSA_PKCS1_SHA256
            | SignatureScheme::RSA_PKCS1_SHA384
            | SignatureScheme::RSA_PKCS1_SHA512
            | SignatureScheme::RSA_PSS_SHA256
            | SignatureScheme::RSA_PSS_SHA384
            | SignatureScheme::RSA_PSS_SHA512 => SignatureAlgorithm::RSA,
            SignatureScheme::ECDSA_NISTP256_SHA256
            | SignatureScheme::ECDSA_NISTP384_SHA384
            | SignatureScheme::ECDSA_NISTP521_SHA512 => SignatureAlgorithm::ECDSA,
            SignatureScheme::ED25519 => SignatureAlgorithm::ED25519,
            SignatureScheme::ED448 => SignatureAlgorithm::ED448,
        }
    }
}

/// Returns whether `schemes` contains `wanted`.
pub fn contains_scheme(schemes: &[SignatureScheme], wanted: SignatureScheme) -> (r: bool)
    ensures
        r == schemes@.contains(wanted),
{
    let mut i: usize = 0;
    while i < schemes.len()
        invariant
            0 <= i <= schemes@.len(),
            forall|j: int| 0 <= j < i ==> schemes@[j] != wanted,
        decreases schemes@.len() - i,
    {
        if schemes[i] == wanted {
            assert(schemes@.contains(wanted));
            return true;
        }
        i = i + 1;
    }
    false
}

/// A TLS 1.3 cipher suite identifier.
#[derive(Clone, Copy, Debug, PartialEq, Eq, Structural)]
#[allow(non_camel_case_types)]
pub enum CipherSuite {
    TLS13_AES_128_GCM_SHA256,
    TLS13_AES_256_GCM_SHA384,
    TLS13_CHACHA20_POLY1305_SHA256,
}

/// A cryptographic hash algorithm identifier.
#[derive(Clone, Copy, Debug, PartialEq, Eq, Structural)]
pub enum HashAlgorithm {
    Sha256,
    Sha384,
    Sha512,
}

/// An AEAD algorithm identifier.
#[derive(Clone, Copy, Debug, PartialEq, Eq, Structural)]
pub enum AeadAlgorithm {
    Aes128Gcm,
    Aes256Gcm,
    Chacha20Poly1305,
}

} // verus!
