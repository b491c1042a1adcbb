//! Minimal DER construction helpers: definite-length encodings and
//! tag/length wrapping, used when re-encoding SEC1 private keys as PKCS#8.

use vstd::prelude::*;

verus! {

/// DER tag of an ASN.1 SEQUENCE.
pub const DER_SEQUENCE_TAG: u8 = 0x30;

/// DER tag of an ASN.1 OCTET STRING.
pub const DER_OCTET_STRING_TAG: u8 = 0x04;

/// The minimal big-endian base-256 digits of `n` (empty for zero).
pub open spec fn be_bytes(n: nat) -> Seq<u8>
    decreases n,
{
    if n == 0 {
        Seq::empty()
    } else {
        be_bytes(n / 256) + seq![(n % 256) as u8]
    }
}

/// 256 raised to the power `k`.
pub open spec fn pow256(k: nat) -> nat
    decreases k,
{
    if k == 0 {
        1nat
    } else {
        256 * pow256((k - 1) as nat)
    }
}

/// `n` has at most `k` base-256 digits when `n < 256^k`.
pub proof fn lemma_be_bytes_len(n: nat, k: nat)
    requires
        n < pow256(k),
    ensures
        be_bytes(n).len() <= k,
    decreases k,
{
    if n == 0 {
    } else {
        assert(k > 0) by {
            if k == 0 {
                assert(pow256(0) == 1);
            }
        }
        assert(n / 256 < pow256((k - 1) as nat)) by {
            assert(pow256(k) == 256 * pow256((k - 1) as nat));
        }
        lemma_be_bytes_len(n / 256, (k - 1) as nat);
    }
}

/// The DER definite-length encoding of a content length `n`:
/// one byte in short form, else `0x80 + count` followed by the
/// minimal big-endian digits of `n`.
pub open spec fn asn1_len(n: nat) -> Seq<u8> {
    if n < 0x80 {
        seq![n as u8]
    } else {
        seq![(0x80 + be_bytes(n).len()) as u8] + be_bytes(n)
    }
}

/// `content` wrapped in the DER tag/length header for `tag`.
pub open spec fn asn1_wrapped(tag: u8, content: Seq<u8>) -> Seq<u8> {
    seq![tag] + asn1_len(content.len()) + content
}

/// Appends every byte of `src` to `dst`, in order.
pub fn push_all(dst: &mut Vec<u8>, src: &[u8])
    ensures
        final(dst)@ == old(dst)@ + src@,
{
    let mut i: usize = 0;
    while i < src.len()
        invariant
            0 <= i <= src@.len(),
            dst@ == old(dst)@ + src@.subrange(0, i as int),
        decreases src@.len() - i,
    {
        dst.push(src[i]);
        i = i + 1;
        assert(src@.subrange(0, i as int)
            == src@.subrange(0, i - 1 as int) + seq![src@[i - 1 as int]]);
    }
    assert(src@.subrange(0, src@.len() as int) == src@);
}

/// The minimal big-endian base-256 digits of `n`.
fn be_bytes_of(n: usize) -> (r: Vec<u8>)
    ensures
        r@ == be_bytes(n as nat),
    decreases n,
{
    if n == 0 {
        Vec::new()
    } else {
        let mut r = be_bytes_of(n / 256);
        r.push((n % 256) as u8);
        r
    }
}

/// Prefixes `bytes` with the DER definite-length encoding of its own length.
pub fn wrap_in_asn1_len(bytes: &mut Vec<u8>)
    ensures
        final(bytes)@ == asn1_len(old(bytes)@.len()) + old(bytes)@,
{
    let n = bytes.len();
    let mut out: Vec<u8> = Vec::new();
    if n < 0x80 {
        out.push(n as u8);
    } else {
        let be = be_bytes_of(n);
        proof {
            reveal_with_fuel(pow256, 9);
            assert(pow256(8) == 0x1_0000_0000_0000_0000);
            lemma_be_bytes_len(n as nat, 8);
        }
        out.push(0x80 + be.len() as u8);
        push_all(&mut out, be.as_slice());
    }
    push_all(&mut out, bytes.as_slice());
    *bytes = out;
}

/// Wraps `bytes` in a DER SEQUENCE header: length first, then the tag.
pub fn wrap_in_sequence(bytes: &mut Vec<u8>)
    ensures
        final(bytes)@ == asn1_wrapped(DER_SEQUENCE_TAG, old(bytes)@),
{
    wrap_in_asn1_len(bytes);
    bytes.insert(0, DER_SEQUENCE_TAG);
    assert(bytes@ == seq![DER_SEQUENCE_TAG] + asn1_len(old(bytes)@.len()) + old(bytes)@);
}

/// Wraps `bytes` in a DER OCTET STRING header: length first, then the tag.
pub fn wrap_in_octet_string(bytes: &mut Vec<u8>)
    ensures
        final(bytes)@ == asn1_wrapped(DER_OCTET_STRING_TAG, old(bytes)@),
{
    wrap_in_asn1_len(bytes);
    bytes.insert(0, DER_OCTET_STRING_TAG);
    assert(bytes@ == seq![DER_OCTET_STRING_TAG] + asn1_len(old(bytes)@.len()) + old(bytes)@);
}

} // verus!
