//! The fragment of DER (X.690) this library writes and reads by itself.

use vstd::prelude::*;

verus! {

/// The largest content length plus one that four length octets can give.
pub const DER_MAX_CONTENT: u64 = 4294967296;

/// The DER length octets for a content of `n` bytes (definite form, minimal
/// number of octets), for contents shorter than 2^32 bytes.
pub open spec fn der_length(n: nat) -> Seq<u8>
    recommends
        n < DER_MAX_CONTENT,
{
    if n < 128 {
        seq![n as u8]
    } else if n < 256 {
        seq![0x81u8, n as u8]
    } else if n < 65536 {
        seq![0x82u8, (n / 256) as u8, (n % 256) as u8]
    } else if n < 16777216 {
        seq![0x83u8, (n / 65536) as u8, ((n / 256) % 256) as u8, (n % 256) as u8]
    } else {
        seq![0x84u8, (n / 16777216) as u8, ((n / 65536) % 256) as u8, ((n / 256) % 256) as u8, (n % 256) as u8]
    }
}

/// The length octets of a content shorter than 2^32 bytes take at most
/// five bytes.
pub proof fn lemma_der_length_any_bound(n: nat)
    requires
        n < DER_MAX_CONTENT,
    ensures
        1 <= der_length(n).len() <= 5,
{
}

/// The length octets of a content shorter than 65536 bytes take at most
/// three bytes.
pub proof fn lemma_der_length_bound(n: nat)
    requires
        n < 65536,
    ensures
        1 <= der_length(n).len() <= 3,
{
}

/// The DER encoding of one element: its identifier octet, its length and
/// its content.
pub open spec fn der_tlv(tag: u8, content: Seq<u8>) -> Seq<u8> {
    seq![tag] + der_length(content.len()) + content
}

/// Universal tag of INTEGER.
pub const TAG_INTEGER: u8 = 0x02;
/// Universal tag of BIT STRING.
pub const TAG_BIT_STRING: u8 = 0x03;
/// Universal tag of OBJECT IDENTIFIER.
pub const TAG_OID: u8 = 0x06;
/// Universal tag of OCTET STRING.
pub const TAG_OCTET_STRING: u8 = 0x04;
/// Universal tag of SEQUENCE (constructed).
pub const TAG_SEQUENCE: u8 = 0x30;
/// Context-specific, primitive tag number 0.
pub const TAG_CONTEXT_0: u8 = 0x80;

/// Appends the bytes of `src` to `out`.
pub fn extend_bytes(out: &mut Vec<u8>, src: &[u8])
    ensures
        final(out)@ == old(out)@ + src@,
{
    let mut i: usize = 0;
    while i < src.len()
        invariant
            i <= src@.len(),
            out@ == old(out)@ + src@.subrange(0, i as int),
        decreases src@.len() - i,
    {
        out.push(src[i]);
        i = i + 1;
        assert(out@ =~= old(out)@ + src@.subrange(0, i as int));
    }
    assert(src@.subrange(0, src@.len() as int) =~= src@);
}

/// Appends the identifier and length octets of an element with `len`
/// content bytes.
pub fn push_der_header(out: &mut Vec<u8>, tag: u8, len: usize)
    requires
        len < DER_MAX_CONTENT,
    ensures
        final(out)@ == old(out)@ + seq![tag] + der_length(len as nat),
{
    out.push(tag);
    if len < 128 {
        out.push(len as u8);
    } else if len < 256 {
        out.push(0x81u8);
        out.push(len as u8);
    } else if len < 65536 {
        out.push(0x82u8);
        out.push((len / 256) as u8);
        out.push((len % 256) as u8);
    } else if len < 16777216 {
        out.push(0x83u8);
        out.push((len / 65536) as u8);
        out.push(((len / 256) % 256) as u8);
        out.push((len % 256) as u8);
    } else {
        out.push(0x84u8);
        out.push((len / 16777216) as u8);
        out.push(((len / 65536) % 256) as u8);
        out.push(((len / 256) % 256) as u8);
        out.push((len % 256) as u8);
    }
    assert(final(out)@ =~= old(out)@ + seq![tag] + der_length(len as nat));
}

/// The DER encoding of an element with tag `tag` and content `content`.
pub fn encode_tlv(tag: u8, content: &[u8]) -> (out: Vec<u8>)
    requires
        content@.len() < DER_MAX_CONTENT,
    ensures
        out@ == der_tlv(tag, content@),
{
    let mut out: Vec<u8> = Vec::new();
    push_der_header(&mut out, tag, content.len());
    extend_bytes(&mut out, content);
    assert(out@ =~= der_tlv(tag, content@));
    out
}

/// Whether `bytes[start..]` begins with `prefix`.
pub fn has_prefix_at(bytes: &[u8], start: usize, prefix: &[u8]) -> (b: bool)
    requires
        start <= bytes@.len(),
    ensures
        b == (start + prefix@.len() <= bytes@.len()
            && bytes@.subrange(start as int, start + prefix@.len()) == prefix@),
{
    let n = bytes.len();
    if prefix.len() > n - start {
        return false;
    }
    let mut i: usize = 0;
    while i < prefix.len()
        invariant
            n == bytes@.len(),
            start + prefix@.len() <= bytes@.len(),
            i <= prefix@.len(),
            forall|j: int| 0 <= j < i ==> bytes@[start + j] == prefix@[j],
        decreases prefix@.len() - i,
    {
        if bytes[start + i] != prefix[i] {
            assert(bytes@.subrange(start as int, start + prefix@.len())[i as int] != prefix@[i as int]);
            return false;
        }
        i = i + 1;
    }
    assert(bytes@.subrange(start as int, start + prefix@.len()) =~= prefix@);
    true
}

/// A copy of `bytes[start..end]`.
pub fn copy_range(bytes: &[u8], start: usize, end: usize) -> (out: Vec<u8>)
    requires
        start <= end <= bytes@.len(),
    ensures
        out@ == bytes@.subrange(start as int, end as int),
{
    let mut out: Vec<u8> = Vec::new();
    let mut i: usize = start;
    while i < end
        invariant
            start <= i <= end,
            end <= bytes@.len(),
            out@ == bytes@.subrange(start as int, i as int),
        decreases end - i,
    {
        out.push(bytes[i]);
        i = i + 1;
        assert(out@ =~= bytes@.subrange(start as int, i as int));
    }
    out
}

/// Whether two byte strings are equal.
pub fn bytes_eq(a: &[u8], b: &[u8]) -> (eq: bool)
    ensures
        eq == (a@ == b@),
{
    if a.len() != b.len() {
        return false;
    }
    let r = has_prefix_at(a, 0, b);
    proof {
        if r {
            assert(a@.subrange(0, b@.len() as int) =~= a@);
        } else {
            assert(a@.subrange(0, a@.len() as int) =~= a@);
        }
    }
    r
}

} // verus!
