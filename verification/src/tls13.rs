//! The TLS 1.3 cipher-suite model, the resumption-compatibility rule, and
//! the transcript verify-message builder of RFC 8446 section 4.4.3.

use vstd::prelude::*;

use crate::enums::{AeadAlgorithm, CipherSuite, HashAlgorithm};
use crate::x509::push_all;

verus! {

/// Fields shared by cipher suites of every protocol version: the suite's
/// identity and its hash algorithm.
pub struct CipherSuiteCommon {
    /// The suite's identity. Suite equality is identity-based.
    pub suite: CipherSuite,
    /// The hash algorithm the suite's key schedule and transcript use.
    pub hash_algorithm: HashAlgorithm,
}

/// A TLS 1.3 cipher suite.
pub struct Tls13CipherSuite {
    /// Common cipher suite fields.
    pub common: CipherSuiteCommon,
    /// The hash algorithm backing the suite's HMAC.
    pub hmac_algorithm: HashAlgorithm,
    /// The suite's AEAD algorithm.
    pub aead_algorithm: AeadAlgorithm,
    /// How many records may be protected under one key, if bounded.
    pub confidentiality_limit: Option<u64>,
    /// How many forgery attempts may be tolerated, if bounded.
    pub integrity_limit: Option<u64>,
}

impl Tls13CipherSuite {
    /// A session using suite `self` may resume from a session using suite
    /// `prev` exactly when the two suites share a hash algorithm; AEAD and
    /// HMAC choices play no part.
    pub open spec fn resumes_from(self, prev: Tls13CipherSuite) -> bool {
        prev.common.hash_algorithm == self.common.hash_algorithm
    }

    /// Can a session using suite `self` resume from suite `prev`?
    pub fn can_resume_from<'a>(&self, prev: &'a Tls13CipherSuite) -> (r: Option<
        &'a Tls13CipherSuite,
    >)
        ensures
            self.resumes_from(*prev) ==> r == Some(prev),
            !self.resumes_from(*prev) ==> r is None,
    {
        if prev.common.hash_algorithm == self.common.hash_algorithm {
            Some(prev)
        } else {
            None
        }
    }
}

/// Resumption compatibility is gated by the hash algorithm alone, and
/// therefore symmetrically: two suites sharing a hash algorithm (whatever
/// their AEADs) resume from each other in both directions; two suites with
/// different hash algorithms in neither direction.
pub proof fn lemma_resumption_symmetry(a: Tls13CipherSuite, b: Tls13CipherSuite)
    ensures
        a.resumes_from(b) <==> b.resumes_from(a),
        a.common.hash_algorithm == b.common.hash_algorithm ==> a.resumes_from(b)
            && b.resumes_from(a),
        a.common.hash_algorithm != b.common.hash_algorithm ==> !a.resumes_from(b)
            && !b.resumes_from(a),
{
}

impl PartialEq for Tls13CipherSuite {
    /// Suite equality is identity-based: two values are the same suite
    /// exactly when their suite identifiers agree.
    fn eq(&self, other: &Self) -> (r: bool) {
        self.common.suite == other.common.suite
    }
}

impl vstd::std_specs::cmp::PartialEqSpecImpl for Tls13CipherSuite {
    open spec fn obeys_eq_spec() -> bool {
        true
    }

    open spec fn eq_spec(&self, other: &Self) -> bool {
        self.common.suite == other.common.suite
    }
}

/// A cipher suite supported by this library, tagged by protocol version;
/// only the TLS 1.3 arm is populated here.
pub enum SupportedCipherSuite {
    Tls13(&'static Tls13CipherSuite),
}

impl From<&'static Tls13CipherSuite> for SupportedCipherSuite {
    fn from(s: &'static Tls13CipherSuite) -> (r: Self) {
        SupportedCipherSuite::Tls13(s)
    }
}

impl vstd::std_specs::convert::FromSpecImpl<&'static Tls13CipherSuite> for SupportedCipherSuite {
    open spec fn obeys_from_spec() -> bool {
        true
    }

    open spec fn from_spec(s: &'static Tls13CipherSuite) -> Self {
        SupportedCipherSuite::Tls13(s)
    }
}

/// The context string of a client CertificateVerify message,
/// "TLS 1.3, client CertificateVerify", NUL-terminated.
pub open spec fn client_context_string() -> Seq<u8> {
    seq![
        0x54u8, 0x4c, 0x53, 0x20, 0x31, 0x2e, 0x33, 0x2c, 0x20, 0x63, 0x6c, 0x69, 0x65, 0x6e,
        0x74, 0x20, 0x43, 0x65, 0x72, 0x74, 0x69, 0x66, 0x69, 0x63, 0x61, 0x74, 0x65, 0x56, 0x65,
        0x72, 0x69, 0x66, 0x79, 0x00,
    ]
}

/// The context string of a server CertificateVerify message,
/// "TLS 1.3, server CertificateVerify", NUL-terminated.
pub open spec fn server_context_string() -> Seq<u8> {
    seq![
        0x54u8, 0x4c, 0x53, 0x20, 0x31, 0x2e, 0x33, 0x2c, 0x20, 0x73, 0x65, 0x72, 0x76, 0x65,
        0x72, 0x20, 0x43, 0x65, 0x72, 0x74, 0x69, 0x66, 0x69, 0x63, 0x61, 0x74, 0x65, 0x56, 0x65,
        0x72, 0x69, 0x66, 0x79, 0x00,
    ]
}

/// The byte sequence that is signed for a CertificateVerify message:
/// 64 bytes of space (0x20), then the NUL-terminated context string, then
/// the raw transcript-hash bytes.
pub open spec fn verify_message(hash: Seq<u8>, context: Seq<u8>) -> Seq<u8> {
    Seq::new(64, |i: int| 0x20u8) + context + hash
}

/// Constructs the signature message of RFC 8446 section 4.4.3 for the
/// given NUL-terminated context string.
pub fn construct_verify_message(handshake_hash: &[u8], context_string_with_0: &[u8]) -> (r: Vec<
    u8,
>)
    ensures
        r@ == verify_message(handshake_hash@, context_string_with_0@),
{
    let mut msg: Vec<u8> = Vec::new();
    let mut i: usize = 0;
    while i < 64
        invariant
            0 <= i <= 64,
            msg@.len() == i,
            forall|j: int| 0 <= j < i ==> msg@[j] == 0x20u8,
        decreases 64 - i,
    {
        msg.push(0x20u8);
        i = i + 1;
    }
    proof {
        assert(msg@ =~= Seq::new(64, |i: int| 0x20u8));
    }
    push_all(&mut msg, context_string_with_0);
    push_all(&mut msg, handshake_hash);
    proof {
        assert(msg@ =~= verify_message(handshake_hash@, context_string_with_0@));
    }
    msg
}

/// The client CertificateVerify context string as a vector.
fn client_context_bytes() -> (r: Vec<u8>)
    ensures
        r@ == client_context_string(),
{
    let v: Vec<u8> = vec![
        0x54u8, 0x4c, 0x53, 0x20, 0x31, 0x2e, 0x33, 0x2c, 0x20, 0x63, 0x6c, 0x69, 0x65, 0x6e,
        0x74, 0x20, 0x43, 0x65, 0x72, 0x74, 0x69, 0x66, 0x69, 0x63, 0x61, 0x74, 0x65, 0x56, 0x65,
        0x72, 0x69, 0x66, 0x79, 0x00,
    ];
    proof {
        assert(v@ =~= client_context_string());
    }
    v
}

/// The server CertificateVerify context string as a vector.
fn server_context_bytes() -> (r: Vec<u8>)
    ensures
        r@ == server_context_string(),
{
    let v: Vec<u8> = vec![
        0x54u8, 0x4c, 0x53, 0x20, 0x31, 0x2e, 0x33, 0x2c, 0x20, 0x73, 0x65, 0x72, 0x76, 0x65,
        0x72, 0x20, 0x43, 0x65, 0x72, 0x74, 0x69, 0x66, 0x69, 0x63, 0x61, 0x74, 0x65, 0x56, 0x65,
        0x72, 0x69, 0x66, 0x79, 0x00,
    ];
    proof {
        assert(v@ =~= server_context_string());
    }
    v
}

/// Constructs the byte sequence a client signs in its CertificateVerify
/// message.
pub fn construct_client_verify_message(handshake_hash: &[u8]) -> (r: Vec<u8>)
    ensures
        r@ == verify_message(handshake_hash@, client_context_string()),
{
    let context = client_context_bytes();
    construct_verify_message(handshake_hash, context.as_slice())
}

/// Constructs the byte sequence a server signs in its CertificateVerify
/// message.
pub fn construct_server_verify_message(handshake_hash: &[u8]) -> (r: Vec<u8>)
    ensures
        r@ == verify_message(handshake_hash@, server_context_string()),
{
    let context = server_context_bytes();
    construct_verify_message(handshake_hash, context.as_slice())
}

/// For one transcript hash, the client and the server verify messages have
/// the same total length `64 + 34 + hash len`, both begin with 64 bytes of
/// 0x20, both end with the transcript hash, and they differ only within
/// the 34 embedded label bytes.
pub proof fn lemma_verify_message_role_separation(hash: Seq<u8>)
    ensures
        verify_message(hash, client_context_string()).len() == 64 + 34 + hash.len(),
        verify_message(hash, server_context_string()).len() == 64 + 34 + hash.len(),
        forall|i: int| 0 <= i < 64 ==> verify_message(hash, client_context_string())[i] == 0x20u8,
        forall|i: int| 0 <= i < 64 ==> verify_message(hash, server_context_string())[i] == 0x20u8,
        forall|i: int| 64 <= i < 64 + 34 ==> verify_message(hash, client_context_string())[i]
            == client_context_string()[i - 64],
        forall|i: int| 64 <= i < 64 + 34 ==> verify_message(hash, server_context_string())[i]
            == server_context_string()[i - 64],
        forall|i: int| 0 <= i < 64 ==> verify_message(hash, client_context_string())[i]
            == verify_message(hash, server_context_string())[i],
        forall|i: int| 64 + 34 <= i < 64 + 34 + hash.len() ==> verify_message(
            hash,
            client_context_string(),
        )[i] == verify_message(hash, server_context_string())[i],
{
    let c = verify_message(hash, client_context_string());
    let s = verify_message(hash, server_context_string());
    assert(client_context_string().len() == 34);
    assert(server_context_string().len() == 34);
    assert forall|i: int| 64 + 34 <= i < 64 + 34 + hash.len() implies c[i] == s[i] by {
        assert(c[i] == hash[i - 98]);
        assert(s[i] == hash[i - 98]);
    }
}

} // verus!
