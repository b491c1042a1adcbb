//! Private-key loading and signature-scheme negotiation.
//!
//! Key bytes arrive tagged with their declared encoding. A fixed, ordered
//! set of (encoding, algorithm) parsers is tried and the first success
//! wins: RSA (PKCS#1 or PKCS#8), then ECDSA P-256, then ECDSA P-384 (each
//! PKCS#8 or SEC1), then Ed25519 (PKCS#8 only). A loaded key negotiates a
//! signature scheme against a peer-offered list and hands out a signer
//! bound to that one scheme.

use vstd::prelude::*;

use std::sync::Arc;

use crate::enums::{contains_scheme, SignatureAlgorithm, SignatureScheme};
use crate::error::{Error, SignError};
use crate::ring_api::{
    clone_ecdsa_handle, clone_ed25519_handle, clone_rsa_handle, ecdsa_p256_from_pkcs8,
    ecdsa_p384_from_pkcs8, ecdsa_sign, ed25519_from_pkcs8, ed25519_pkcs8_wellformed, ed25519_sign,
    p256_pkcs8_wellformed, p384_pkcs8_wellformed, rsa_key_from_der, rsa_key_from_pkcs8,
    rsa_modulus_len, rsa_pkcs1_wellformed, rsa_pkcs8_wellformed, rsa_sign_pkcs1_sha256,
    rsa_sign_pkcs1_sha384, rsa_sign_pkcs1_sha512, rsa_sign_pss_sha256, rsa_sign_pss_sha384,
    rsa_sign_pss_sha512, system_random,
};
use crate::x509::{
    asn1_wrapped, push_all, wrap_in_octet_string, wrap_in_sequence, DER_OCTET_STRING_TAG,
    DER_SEQUENCE_TAG,
};

verus! {

/// Private-key bytes together with their caller-declared encoding. The
/// encoding tag is never inferred from the bytes.
#[derive(Clone, Debug)]
pub enum PrivateKeyDer {
    /// A DER-encoded PKCS#1 `RSAPrivateKey` (RSA only).
    Pkcs1(Vec<u8>),
    /// A DER-encoded PKCS#8 `PrivateKeyInfo` (any algorithm).
    Pkcs8(Vec<u8>),
    /// A DER-encoded SEC1 `ECPrivateKey` (elliptic-curve only).
    Sec1(Vec<u8>),
}

/// Whether `der` parses as an RSA key under its declared encoding.
pub open spec fn rsa_parses(der: PrivateKeyDer) -> bool {
    match der {
        PrivateKeyDer::Pkcs1(b) => rsa_pkcs1_wellformed(b@),
        PrivateKeyDer::Pkcs8(b) => rsa_pkcs8_wellformed(b@),
        PrivateKeyDer::Sec1(_) => false,
    }
}

/// The PKCS#8 body prefix for an ECDSA key on the curve fixed by `scheme`:
/// an INTEGER version 0, then a SEQUENCE holding the id-ecPublicKey OID and
/// the curve's OID.
pub open spec fn ecdsa_pkcs8_prefix(scheme: SignatureScheme) -> Seq<u8> {
    if scheme == SignatureScheme::ECDSA_NISTP256_SHA256 {
        seq![
            0x02u8, 0x01, 0x00, 0x30, 0x13, 0x06, 0x07, 0x2a, 0x86, 0x48, 0xce, 0x3d, 0x02, 0x01,
            0x06, 0x08, 0x2a, 0x86, 0x48, 0xce, 0x3d, 0x03, 0x01, 0x07,
        ]
    } else {
        seq![
            0x02u8, 0x01, 0x00, 0x30, 0x10, 0x06, 0x07, 0x2a, 0x86, 0x48, 0xce, 0x3d, 0x02, 0x01,
            0x06, 0x05, 0x2b, 0x81, 0x04, 0x00, 0x22,
        ]
    }
}

/// The PKCS#8 document obtained from a SEC1 body: the SEC1 bytes wrapped in
/// an OCTET STRING, appended to the curve's prefix, all wrapped in a
/// SEQUENCE.
pub open spec fn sec1_to_pkcs8(prefix: Seq<u8>, sec1: Seq<u8>) -> Seq<u8> {
    asn1_wrapped(DER_SEQUENCE_TAG, prefix + asn1_wrapped(DER_OCTET_STRING_TAG, sec1))
}

/// Whether `der` is well-formed as a PKCS#8 ECDSA key on the curve fixed by
/// `scheme`.
pub open spec fn ecdsa_pkcs8_wellformed_for(scheme: SignatureScheme, der: Seq<u8>) -> bool {
    if scheme == SignatureScheme::ECDSA_NISTP256_SHA256 {
        p256_pkcs8_wellformed(der)
    } else {
        p384_pkcs8_wellformed(der)
    }
}

/// Whether `der` parses as an ECDSA key for `scheme` under its declared
/// encoding: PKCS#8 directly, SEC1 after re-encoding as PKCS#8.
pub open spec fn ecdsa_parses(scheme: SignatureScheme, der: PrivateKeyDer) -> bool {
    match der {
        PrivateKeyDer::Pkcs1(_) => false,
        PrivateKeyDer::Pkcs8(b) => ecdsa_pkcs8_wellformed_for(scheme, b@),
        PrivateKeyDer::Sec1(b) => ecdsa_pkcs8_wellformed_for(
            scheme,
            sec1_to_pkcs8(ecdsa_pkcs8_prefix(scheme), b@),
        ),
    }
}

/// Whether `der` parses as an Ed25519 key: PKCS#8-tagged input only.
pub open spec fn ed25519_parses(der: PrivateKeyDer) -> bool {
    match der {
        PrivateKeyDer::Pkcs8(b) => ed25519_pkcs8_wellformed(b@),
        _ => false,
    }
}

/// The fixed preference order in which an RSA key picks a scheme from a
/// peer-offered list: every PSS scheme ahead of every PKCS#1 scheme.
pub open spec fn rsa_preference() -> Seq<SignatureScheme> {
    seq![
        SignatureScheme::RSA_PSS_SHA512,
        SignatureScheme::RSA_PSS_SHA384,
        SignatureScheme::RSA_PSS_SHA256,
        SignatureScheme::RSA_PKCS1_SHA512,
        SignatureScheme::RSA_PKCS1_SHA384,
        SignatureScheme::RSA_PKCS1_SHA256,
    ]
}

/// The first entry of `pref` that also occurs in `offered`, if any.
pub open spec fn first_match(
    pref: Seq<SignatureScheme>,
    offered: Seq<SignatureScheme>,
) -> Option<SignatureScheme>
    decreases pref.len(),
{
    if pref.len() == 0 {
        None
    } else if offered.contains(pref[0]) {
        Some(pref[0])
    } else {
        first_match(pref.drop_first(), offered)
    }
}

/// A match comes from both lists; no match means no entry of `pref` is
/// offered.
pub proof fn lemma_first_match(pref: Seq<SignatureScheme>, offered: Seq<SignatureScheme>)
    ensures
        first_match(pref, offered) matches Some(s) ==> pref.contains(s) && offered.contains(s),
        first_match(pref, offered) is None ==> forall|s: SignatureScheme|
            pref.contains(s) ==> !offered.contains(s),
    decreases pref.len(),
{
    if pref.len() == 0 {
        assert forall|s: SignatureScheme| pref.contains(s) implies !offered.contains(s) by {
            assert(!pref.contains(s));
        }
    } else if offered.contains(pref[0]) {
        assert(pref.contains(pref[0]));
    } else {
        lemma_first_match(pref.drop_first(), offered);
        match first_match(pref, offered) {
            Some(s) => {
                assert(pref.drop_first().contains(s));
                let i = choose|i: int|
                    0 <= i < pref.drop_first().len() && pref.drop_first()[i] == s;
                assert(pref[i + 1] == s);
                assert(pref.contains(s));
            },
            None => {
                assert forall|s: SignatureScheme| pref.contains(s) implies !offered.contains(
                    s,
                ) by {
                    let i = choose|i: int| 0 <= i < pref.len() && pref[i] == s;
                    if i == 0 {
                    } else {
                        assert(pref.drop_first()[i - 1] == s);
                        assert(pref.drop_first().contains(s));
                    }
                }
            },
        }
    }
}

/// Returns the first entry of `pref` that also occurs in `offered`.
fn choose_first(pref: &[SignatureScheme], offered: &[SignatureScheme]) -> (r: Option<
    SignatureScheme,
>)
    ensures
        r == first_match(pref@, offered@),
{
    let mut i: usize = 0;
    proof {
        assert(pref@.skip(0) =~= pref@);
    }
    while i < pref.len()
        invariant
            0 <= i <= pref@.len(),
            first_match(pref@, offered@) == first_match(pref@.skip(i as int), offered@),
        decreases pref@.len() - i,
    {
        let s = pref[i];
        proof {
            assert(pref@.skip(i as int)[0] == pref@[i as int]);
        }
        if contains_scheme(offered, s) {
            return Some(s);
        }
        proof {
            assert(pref@.skip(i as int).drop_first() =~= pref@.skip(i as int + 1));
        }
        i = i + 1;
    }
    proof {
        assert(pref@.skip(i as int).len() == 0);
    }
    None
}

/// The RSA preference list as a vector.
fn all_rsa_schemes() -> (r: Vec<SignatureScheme>)
    ensures
        r@ == rsa_preference(),
{
    let mut v: Vec<SignatureScheme> = Vec::new();
    v.push(SignatureScheme::RSA_PSS_SHA512);
    v.push(SignatureScheme::RSA_PSS_SHA384);
    v.push(SignatureScheme::RSA_PSS_SHA256);
    v.push(SignatureScheme::RSA_PKCS1_SHA512);
    v.push(SignatureScheme::RSA_PKCS1_SHA384);
    v.push(SignatureScheme::RSA_PKCS1_SHA256);
    proof {
        assert(v@ =~= rsa_preference());
    }
    v
}

/// A vector of `n` zero bytes.
fn zero_vec(n: usize) -> (r: Vec<u8>)
    ensures
        r@.len() == n,
        forall|i: int| 0 <= i < n ==> r@[i] == 0u8,
{
    let mut v: Vec<u8> = Vec::new();
    let mut i: usize = 0;
    while i < n
        invariant
            0 <= i <= n,
            v@.len() == i,
            forall|j: int| 0 <= j < i ==> v@[j] == 0u8,
        decreases n - i,
    {
        v.push(0u8);
        i = i + 1;
    }
    v
}

/// A long-lived RSA signing key. One loaded key is willing to sign under
/// all six RSA schemes, PSS preferred, because the same key is expected to
/// serve both the PKCS#1 v1.5 and the PSS signature regimes.
pub struct RsaSigningKey {
    key: Arc<ring::signature::RsaKeyPair>,
    modulus_len: usize,
}

impl RsaSigningKey {
    /// The recorded modulus length lies in the range `ring` guarantees.
    pub closed spec fn wf(self) -> bool {
        256 <= self.modulus_len <= 512
    }

    /// The byte length of the key's public modulus.
    pub closed spec fn modulus_len_spec(self) -> usize {
        self.modulus_len
    }

    /// Loads an RSA key from a PKCS#1 or PKCS#8 DER encoding; succeeds
    /// exactly when the bytes are well-formed under the declared encoding.
    pub fn new(der: &PrivateKeyDer) -> (r: Result<RsaSigningKey, SignError>)
        ensures
            r is Ok <==> rsa_parses(*der),
            r matches Ok(k) ==> k.wf(),
    {
        let key_pair = match der {
            PrivateKeyDer::Pkcs1(pkcs1) => rsa_key_from_der(pkcs1.as_slice()),
            PrivateKeyDer::Pkcs8(pkcs8) => rsa_key_from_pkcs8(pkcs8.as_slice()),
            PrivateKeyDer::Sec1(_) => return Err(SignError),
        };
        match key_pair {
            Ok(kp) => {
                let modulus_len = rsa_modulus_len(&kp);
                Ok(RsaSigningKey { key: Arc::new(kp), modulus_len })
            },
            Err(e) => Err(e),
        }
    }

    /// Picks the first scheme of the fixed RSA preference list that the
    /// peer offered, and binds a signer to it.
    pub fn choose_scheme(&self, offered: &[SignatureScheme]) -> (r: Option<Signer>)
        requires
            self.wf(),
        ensures
            match r {
                Some(s) => {
                    &&& first_match(rsa_preference(), offered@) == Some(s.scheme_spec())
                    &&& s.wf()
                    &&& offered@.contains(s.scheme_spec())
                    &&& s.scheme_spec().sign_spec() == SignatureAlgorithm::RSA
                    &&& s.rsa_modulus_len_spec() == self.modulus_len_spec()
                },
                None => first_match(rsa_preference(), offered@) is None,
            },
    {
        let prefs = all_rsa_schemes();
        match choose_first(prefs.as_slice(), offered) {
            Some(scheme) => {
                proof {
                    lemma_first_match(rsa_preference(), offered@);
                }
                Some(Signer::Rsa(RsaSigner {
                    key: clone_rsa_handle(&self.key),
                    scheme,
                    modulus_len: self.modulus_len,
                }))
            },
            None => None,
        }
    }

    /// The signature algorithm family of this key.
    pub fn algorithm(&self) -> (r: SignatureAlgorithm)
        ensures
            r == SignatureAlgorithm::RSA,
    {
        SignatureAlgorithm::RSA
    }
}

/// A long-lived ECDSA signing key. Curve and scheme are fixed permanently
/// at load time: a P-256 key signs only ECDSA_NISTP256_SHA256, a P-384 key
/// only ECDSA_NISTP384_SHA384.
pub struct EcdsaSigningKey {
    key: Arc<ring::signature::EcdsaKeyPair>,
    scheme: SignatureScheme,
}

impl EcdsaSigningKey {
    /// The fixed scheme is one of the two supported ECDSA schemes.
    pub closed spec fn wf(self) -> bool {
        self.scheme == SignatureScheme::ECDSA_NISTP256_SHA256 || self.scheme
            == SignatureScheme::ECDSA_NISTP384_SHA384
    }

    /// The single scheme this key signs under.
    pub closed spec fn scheme_spec(self) -> SignatureScheme {
        self.scheme
    }

    /// Loads an ECDSA key usable with precisely `scheme` from a PKCS#8 or
    /// SEC1 DER encoding. Malformed input is always rejected; success also
    /// needs the randomness source behind the parser to deliver.
    pub fn new(der: &PrivateKeyDer, scheme: SignatureScheme) -> (r: Result<
        EcdsaSigningKey,
        SignError,
    >)
        requires
            scheme == SignatureScheme::ECDSA_NISTP256_SHA256 || scheme
                == SignatureScheme::ECDSA_NISTP384_SHA384,
        ensures
            r matches Ok(k) ==> k.wf() && k.scheme_spec() == scheme && ecdsa_parses(scheme, *der),
    {
        let rng = system_random();
        let key_pair = match der {
            PrivateKeyDer::Sec1(sec1) => Self::convert_sec1_to_pkcs8(
                scheme,
                sec1.as_slice(),
                &rng,
            ),
            PrivateKeyDer::Pkcs8(pkcs8) => {
                if matches!(scheme, SignatureScheme::ECDSA_NISTP256_SHA256) {
                    ecdsa_p256_from_pkcs8(pkcs8.as_slice(), &rng)
                } else {
                    ecdsa_p384_from_pkcs8(pkcs8.as_slice(), &rng)
                }
            },
            PrivateKeyDer::Pkcs1(_) => return Err(SignError),
        };
        match key_pair {
            Ok(kp) => Ok(EcdsaSigningKey { key: Arc::new(kp), scheme }),
            Err(e) => Err(e),
        }
    }

    /// Re-encodes a SEC1 body as the PKCS#8 document the primitive parser
    /// accepts, and asks it to parse the result.
    fn convert_sec1_to_pkcs8(
        scheme: SignatureScheme,
        maybe_sec1_der: &[u8],
        rng: &ring::rand::SystemRandom,
    ) -> (r: Result<ring::signature::EcdsaKeyPair, SignError>)
        requires
            scheme == SignatureScheme::ECDSA_NISTP256_SHA256 || scheme
                == SignatureScheme::ECDSA_NISTP384_SHA384,
        ensures
            r is Ok ==> ecdsa_pkcs8_wellformed_for(
                scheme,
                sec1_to_pkcs8(ecdsa_pkcs8_prefix(scheme), maybe_sec1_der@),
            ),
    {
        let mut sec1_wrap: Vec<u8> = Vec::new();
        push_all(&mut sec1_wrap, maybe_sec1_der);
        wrap_in_octet_string(&mut sec1_wrap);

        let mut pkcs8 = Self::pkcs8_prefix_bytes(scheme);
        pkcs8.append(&mut sec1_wrap);
        wrap_in_sequence(&mut pkcs8);
        proof {
            assert(pkcs8@ == sec1_to_pkcs8(ecdsa_pkcs8_prefix(scheme), maybe_sec1_der@));
        }

        if matches!(scheme, SignatureScheme::ECDSA_NISTP256_SHA256) {
            ecdsa_p256_from_pkcs8(pkcs8.as_slice(), rng)
        } else {
            ecdsa_p384_from_pkcs8(pkcs8.as_slice(), rng)
        }
    }

    /// The PKCS#8 body prefix for the curve fixed by `scheme`.
    fn pkcs8_prefix_bytes(scheme: SignatureScheme) -> (r: Vec<u8>)
        requires
            scheme == SignatureScheme::ECDSA_NISTP256_SHA256 || scheme
                == SignatureScheme::ECDSA_NISTP384_SHA384,
        ensures
            r@ == ecdsa_pkcs8_prefix(scheme),
    {
        if matches!(scheme, SignatureScheme::ECDSA_NISTP256_SHA256) {
            let v: Vec<u8> = vec![
                0x02u8, 0x01, 0x00, 0x30, 0x13, 0x06, 0x07, 0x2a, 0x86, 0x48, 0xce, 0x3d, 0x02,
                0x01, 0x06, 0x08, 0x2a, 0x86, 0x48, 0xce, 0x3d, 0x03, 0x01, 0x07,
            ];
            proof {
                assert(v@ =~= ecdsa_pkcs8_prefix(scheme));
            }
            v
        } else {
            let v: Vec<u8> = vec![
                0x02u8, 0x01, 0x00, 0x30, 0x10, 0x06, 0x07, 0x2a, 0x86, 0x48, 0xce, 0x3d, 0x02,
                0x01, 0x06, 0x05, 0x2b, 0x81, 0x04, 0x00, 0x22,
            ];
            proof {
                assert(v@ =~= ecdsa_pkcs8_prefix(scheme));
            }
            v
        }
    }

    /// Hands out a signer only if this key's single fixed scheme was
    /// offered.
    pub fn choose_scheme(&self, offered: &[SignatureScheme]) -> (r: Option<Signer>)
        requires
            self.wf(),
        ensures
            match r {
                Some(s) => {
                    &&& offered@.contains(self.scheme_spec())
                    &&& s.scheme_spec() == self.scheme_spec()
                    &&& s.wf()
                },
                None => !offered@.contains(self.scheme_spec()),
            },
    {
        if contains_scheme(offered, self.scheme) {
            Some(Signer::Ecdsa(EcdsaSigner {
                key: clone_ecdsa_handle(&self.key),
                scheme: self.scheme,
            }))
        } else {
            None
        }
    }

    /// The signature algorithm family of this key.
    pub fn algorithm(&self) -> (r: SignatureAlgorithm)
        requires
            self.wf(),
        ensures
            r == SignatureAlgorithm::ECDSA,
    {
        self.scheme.sign()
    }
}

/// A long-lived Ed25519 signing key, bound to the single ED25519 scheme,
/// loadable from PKCS#8 input only.
pub struct Ed25519SigningKey {
    key: Arc<ring::signature::Ed25519KeyPair>,
    scheme: SignatureScheme,
}

impl Ed25519SigningKey {
    /// The fixed scheme is ED25519.
    pub closed spec fn wf(self) -> bool {
        self.scheme == SignatureScheme::ED25519
    }

    /// The single scheme this key signs under.
    pub closed spec fn scheme_spec(self) -> SignatureScheme {
        self.scheme
    }

    /// Loads an Ed25519 key from PKCS#8 (v1 or v2) bytes; succeeds exactly
    /// when the bytes are well-formed.
    pub fn new(der: &[u8], scheme: SignatureScheme) -> (r: Result<Ed25519SigningKey, SignError>)
        requires
            scheme == SignatureScheme::ED25519,
        ensures
            r is Ok <==> ed25519_pkcs8_wellformed(der@),
            r matches Ok(k) ==> k.wf() && k.scheme_spec() == scheme,
    {
        match ed25519_from_pkcs8(der) {
            Ok(key_pair) => Ok(Ed25519SigningKey { key: Arc::new(key_pair), scheme }),
            Err(e) => Err(e),
        }
    }

    /// Hands out a signer only if ED25519 was offered.
    pub fn choose_scheme(&self, offered: &[SignatureScheme]) -> (r: Option<Signer>)
        requires
            self.wf(),
        ensures
            match r {
                Some(s) => {
                    &&& offered@.contains(self.scheme_spec())
                    &&& s.scheme_spec() == self.scheme_spec()
                    &&& s.wf()
                },
                None => !offered@.contains(self.scheme_spec()),
            },
    {
        if contains_scheme(offered, self.scheme) {
            Some(Signer::Ed25519(Ed25519Signer {
                key: clone_ed25519_handle(&self.key),
                scheme: self.scheme,
            }))
        } else {
            None
        }
    }

    /// The signature algorithm family of this key.
    pub fn algorithm(&self) -> (r: SignatureAlgorithm)
        requires
            self.wf(),
        ensures
            r == SignatureAlgorithm::ED25519,
    {
        self.scheme.sign()
    }
}

/// A short-lived RSA signer bound to one scheme.
pub struct RsaSigner {
    key: Arc<ring::signature::RsaKeyPair>,
    scheme: SignatureScheme,
    modulus_len: usize,
}

/// A short-lived ECDSA signer bound to one scheme.
pub struct EcdsaSigner {
    key: Arc<ring::signature::EcdsaKeyPair>,
    scheme: SignatureScheme,
}

/// A short-lived Ed25519 signer.
pub struct Ed25519Signer {
    key: Arc<ring::signature::Ed25519KeyPair>,
    scheme: SignatureScheme,
}

/// A signer bound to exactly one signature scheme for its lifetime.
pub enum Signer {
    Rsa(RsaSigner),
    Ecdsa(EcdsaSigner),
    Ed25519(Ed25519Signer),
}

impl Signer {
    /// The one scheme this signer signs under.
    pub closed spec fn scheme_spec(self) -> SignatureScheme {
        match self {
            Signer::Rsa(s) => s.scheme,
            Signer::Ecdsa(s) => s.scheme,
            Signer::Ed25519(s) => s.scheme,
        }
    }

    /// The modulus length an RSA signer's signatures will have.
    pub closed spec fn rsa_modulus_len_spec(self) -> usize {
        match self {
            Signer::Rsa(s) => s.modulus_len,
            _ => arbitrary(),
        }
    }

    /// The scheme agrees with the signer's algorithm family, and an RSA
    /// signer's recorded modulus length is in range.
    pub closed spec fn wf(self) -> bool {
        match self {
            Signer::Rsa(s) => s.scheme.sign_spec() == SignatureAlgorithm::RSA && 256
                <= s.modulus_len <= 512,
            Signer::Ecdsa(s) => s.scheme == SignatureScheme::ECDSA_NISTP256_SHA256 || s.scheme
                == SignatureScheme::ECDSA_NISTP384_SHA384,
            Signer::Ed25519(s) => s.scheme == SignatureScheme::ED25519,
        }
    }

    /// The scheme this signer is bound to.
    pub fn scheme(&self) -> (r: SignatureScheme)
        ensures
            r == self.scheme_spec(),
    {
        match self {
            Signer::Rsa(s) => s.scheme,
            Signer::Ecdsa(s) => s.scheme,
            Signer::Ed25519(s) => s.scheme,
        }
    }

    /// Signs `message` under the bound scheme. An RSA signature has exactly
    /// the modulus length; an Ed25519 signature is always produced and is
    /// 64 bytes. A rejection by the underlying primitive surfaces as the
    /// opaque signing failure.
    pub fn sign(&self, message: &[u8]) -> (r: Result<Vec<u8>, Error>)
        requires
            self.wf(),
        ensures
            r matches Err(e) ==> e == Error::Signing,
            self is Rsa ==> (r matches Ok(sig) ==> sig@.len() == self.rsa_modulus_len_spec()),
            self is Ed25519 ==> (r matches Ok(sig) && sig@.len() == 64),
    {
        match self {
            Signer::Rsa(s) => {
                let mut sig = zero_vec(s.modulus_len);
                let rng = system_random();
                let outcome = match s.scheme {
                    SignatureScheme::RSA_PKCS1_SHA256 => rsa_sign_pkcs1_sha256(
                        &s.key,
                        &rng,
                        message,
                        &mut sig,
                    ),
                    SignatureScheme::RSA_PKCS1_SHA384 => rsa_sign_pkcs1_sha384(
                        &s.key,
                        &rng,
                        message,
                        &mut sig,
                    ),
                    SignatureScheme::RSA_PKCS1_SHA512 => rsa_sign_pkcs1_sha512(
                        &s.key,
                        &rng,
                        message,
                        &mut sig,
                    ),
                    SignatureScheme::RSA_PSS_SHA256 => rsa_sign_pss_sha256(
                        &s.key,
                        &rng,
                        message,
                        &mut sig,
                    ),
                    SignatureScheme::RSA_PSS_SHA384 => rsa_sign_pss_sha384(
                        &s.key,
                        &rng,
                        message,
                        &mut sig,
                    ),
                    SignatureScheme::RSA_PSS_SHA512 => rsa_sign_pss_sha512(
                        &s.key,
                        &rng,
                        message,
                        &mut sig,
                    ),
                    _ => {
                        proof {
                            assert(false);
                        }
                        Err(SignError)
                    },
                };
                match outcome {
                    Ok(()) => Ok(sig),
                    Err(_) => Err(Error::Signing),
                }
            },
            Signer::Ecdsa(s) => {
                let rng = system_random();
                match ecdsa_sign(&s.key, &rng, message) {
                    Ok(sig) => Ok(sig),
                    Err(_) => Err(Error::Signing),
                }
            },
            Signer::Ed25519(s) => Ok(ed25519_sign(&s.key, message)),
        }
    }
}

/// A long-lived signing key: one concrete variant per algorithm family.
pub enum SigningKey {
    Rsa(RsaSigningKey),
    Ecdsa(EcdsaSigningKey),
    Ed25519(Ed25519SigningKey),
}

impl SigningKey {
    /// Well-formedness of the underlying variant.
    pub open spec fn wf(self) -> bool {
        match self {
            SigningKey::Rsa(k) => k.wf(),
            SigningKey::Ecdsa(k) => k.wf(),
            SigningKey::Ed25519(k) => k.wf(),
        }
    }

    /// The signature algorithm family of this key.
    pub open spec fn algorithm_spec(self) -> SignatureAlgorithm {
        match self {
            SigningKey::Rsa(_) => SignatureAlgorithm::RSA,
            SigningKey::Ecdsa(_) => SignatureAlgorithm::ECDSA,
            SigningKey::Ed25519(_) => SignatureAlgorithm::ED25519,
        }
    }

    /// The scheme this key would pick from `offered`: the RSA preference
    /// scan for an RSA key, the single fixed scheme for the others.
    pub open spec fn chosen_scheme_spec(self, offered: Seq<SignatureScheme>) -> Option<
        SignatureScheme,
    > {
        match self {
            SigningKey::Rsa(_) => first_match(rsa_preference(), offered),
            SigningKey::Ecdsa(k) => if offered.contains(k.scheme_spec()) {
                Some(k.scheme_spec())
            } else {
                None
            },
            SigningKey::Ed25519(k) => if offered.contains(k.scheme_spec()) {
                Some(k.scheme_spec())
            } else {
                None
            },
        }
    }

    /// Negotiates a scheme against the peer-offered list. A returned signer
    /// is bound to a scheme that was offered, and that scheme's algorithm
    /// family is this key's family.
    pub fn choose_scheme(&self, offered: &[SignatureScheme]) -> (r: Option<Signer>)
        requires
            self.wf(),
        ensures
            match r {
                Some(s) => {
                    &&& self.chosen_scheme_spec(offered@) == Some(s.scheme_spec())
                    &&& s.wf()
                    &&& offered@.contains(s.scheme_spec())
                    &&& s.scheme_spec().sign_spec() == self.algorithm_spec()
                },
                None => self.chosen_scheme_spec(offered@) is None,
            },
    {
        match self {
            SigningKey::Rsa(k) => k.choose_scheme(offered),
            SigningKey::Ecdsa(k) => k.choose_scheme(offered),
            SigningKey::Ed25519(k) => k.choose_scheme(offered),
        }
    }

    /// The signature algorithm family of this key.
    pub fn algorithm(&self) -> (r: SignatureAlgorithm)
        requires
            self.wf(),
        ensures
            r == self.algorithm_spec(),
    {
        match self {
            SigningKey::Rsa(k) => k.algorithm(),
            SigningKey::Ecdsa(k) => k.algorithm(),
            SigningKey::Ed25519(k) => k.algorithm(),
        }
    }
}

/// What a key handed back by `any_supported_type` says about the bytes it
/// was loaded from: an RSA key means the bytes parsed as RSA, any other
/// family additionally means they did not (RSA is tried first).
pub open spec fn parsed_from(k: SigningKey, der: PrivateKeyDer) -> bool {
    match k {
        SigningKey::Rsa(_) => rsa_parses(der),
        SigningKey::Ecdsa(ek) => !rsa_parses(der) && ecdsa_parses(ek.scheme_spec(), der),
        SigningKey::Ed25519(_) => !rsa_parses(der) && ed25519_parses(der),
    }
}

/// Parses `der` as any supported key encoding/type, trying RSA, then ECDSA
/// P-256, then ECDSA P-384, then Ed25519, and returning the first success.
/// RSA and Ed25519 parsing are deterministic, so their success is promised;
/// the ECDSA parsers also depend on the randomness source, so for them only
/// rejection of malformed input is promised.
pub fn any_supported_type(der: &PrivateKeyDer) -> (r: Result<SigningKey, SignError>)
    ensures
        rsa_parses(*der) ==> r is Ok,
        match r {
            Ok(k) => k.wf() && parsed_from(k, *der),
            Err(_) => !rsa_parses(*der) && !ed25519_parses(*der),
        },
{
    match RsaSigningKey::new(der) {
        Ok(rsa) => Ok(SigningKey::Rsa(rsa)),
        Err(_) => match any_ecdsa_type(der) {
            Ok(ecdsa) => Ok(ecdsa),
            Err(_) => match der {
                PrivateKeyDer::Pkcs8(pkcs8) => any_eddsa_type(pkcs8.as_slice()),
                _ => Err(SignError),
            },
        },
    }
}

/// Parses `der` as any ECDSA key type, P-256 before P-384, each from PKCS#8
/// or SEC1 encoding, returning the first success.
pub fn any_ecdsa_type(der: &PrivateKeyDer) -> (r: Result<SigningKey, SignError>)
    ensures
        r matches Ok(k) ==> k.wf() && match k {
            SigningKey::Ecdsa(ek) => ecdsa_parses(ek.scheme_spec(), *der),
            _ => false,
        },
{
    match EcdsaSigningKey::new(der, SignatureScheme::ECDSA_NISTP256_SHA256) {
        Ok(ecdsa_p256) => return Ok(SigningKey::Ecdsa(ecdsa_p256)),
        Err(_) => {},
    }

    match EcdsaSigningKey::new(der, SignatureScheme::ECDSA_NISTP384_SHA384) {
        Ok(ecdsa_p384) => Ok(SigningKey::Ecdsa(ecdsa_p384)),
        Err(e) => Err(e),
    }
}

/// Parses `der` (PKCS#8 bytes) as an Ed25519 key; succeeds exactly when the
/// bytes are well-formed.
pub fn any_eddsa_type(der: &[u8]) -> (r: Result<SigningKey, SignError>)
    ensures
        r is Ok <==> ed25519_pkcs8_wellformed(der@),
        r matches Ok(k) ==> k.wf() && k is Ed25519,
{
    match Ed25519SigningKey::new(der, SignatureScheme::ED25519) {
        Ok(ed25519) => Ok(SigningKey::Ed25519(ed25519)),
        Err(e) => Err(e),
    }
}

} // verus!
