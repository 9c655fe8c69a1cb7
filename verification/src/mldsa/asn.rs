//! The ASN.1 private key structure of ML-DSA (RFC 9881, `ML-DSA-44-PrivateKey`
//! and its siblings) in DER:
//!
//! ```text
//! ML-DSA-xx-PrivateKey ::= CHOICE {
//!     seed [0] IMPLICIT OCTET STRING (SIZE (32)),
//!     expandedKey OCTET STRING (SIZE (<secret key length>)),
//!     both SEQUENCE {
//!         seed OCTET STRING (SIZE (32)),
//!         expandedKey OCTET STRING (SIZE (<secret key length>)) } }
//! ```

use vstd::prelude::*;
use crate::der::{
    der_length, der_tlv, encode_tlv, extend_bytes, has_prefix_at, copy_range, push_der_header,
    TAG_CONTEXT_0, TAG_OCTET_STRING, TAG_SEQUENCE,
};
use crate::error::Error;
use crate::mldsa::params::{MlDsaParamSet, spec_secret_key_len, ML_DSA_SEED_SIZE};

verus! {

/// A decoded ML-DSA private key structure.
pub enum AsnPrivateKey {
    Seed(Vec<u8>),
    ExpandedKey(Vec<u8>),
    Both { seed: Vec<u8>, expanded_key: Vec<u8> },
}

/// The mathematical value of an [`AsnPrivateKey`].
pub ghost enum AsnPrivateKeyView {
    Seed(Seq<u8>),
    ExpandedKey(Seq<u8>),
    Both(Seq<u8>, Seq<u8>),
}

impl View for AsnPrivateKey {
    type V = AsnPrivateKeyView;

    open spec fn view(&self) -> AsnPrivateKeyView {
        match self {
            AsnPrivateKey::Seed(s) => AsnPrivateKeyView::Seed(s@),
            AsnPrivateKey::ExpandedKey(e) => AsnPrivateKeyView::ExpandedKey(e@),
            AsnPrivateKey::Both { seed, expanded_key } => AsnPrivateKeyView::Both(seed@, expanded_key@),
        }
    }
}

/// The size constraints of the structure for parameter set `p`.
pub open spec fn asn_private_key_wf(p: MlDsaParamSet, k: AsnPrivateKeyView) -> bool {
    match k {
        AsnPrivateKeyView::Seed(s) => s.len() == ML_DSA_SEED_SIZE,
        AsnPrivateKeyView::ExpandedKey(e) => e.len() == spec_secret_key_len(p),
        AsnPrivateKeyView::Both(s, e) => s.len() == ML_DSA_SEED_SIZE && e.len() == spec_secret_key_len(p),
    }
}

/// The DER encoding of the structure.
pub open spec fn spec_encode_asn_private_key(k: AsnPrivateKeyView) -> Seq<u8> {
    match k {
        AsnPrivateKeyView::Seed(s) => der_tlv(TAG_CONTEXT_0, s),
        AsnPrivateKeyView::ExpandedKey(e) => der_tlv(TAG_OCTET_STRING, e),
        AsnPrivateKeyView::Both(s, e) => der_tlv(
            TAG_SEQUENCE,
            der_tlv(TAG_OCTET_STRING, s) + der_tlv(TAG_OCTET_STRING, e),
        ),
    }
}

/// Encodes the structure in DER.
pub fn encode_asn_private_key(p: MlDsaParamSet, k: &AsnPrivateKey) -> (out: Vec<u8>)
    requires
        asn_private_key_wf(p, k@),
    ensures
        out@ == spec_encode_asn_private_key(k@),
{
    match k {
        AsnPrivateKey::Seed(s) => encode_tlv(TAG_CONTEXT_0, s.as_slice()),
        AsnPrivateKey::ExpandedKey(e) => encode_tlv(TAG_OCTET_STRING, e.as_slice()),
        AsnPrivateKey::Both { seed, expanded_key } => {
            let a = encode_tlv(TAG_OCTET_STRING, seed.as_slice());
            let b = encode_tlv(TAG_OCTET_STRING, expanded_key.as_slice());
            let mut content = a;
            extend_bytes(&mut content, b.as_slice());
            encode_tlv(TAG_SEQUENCE, content.as_slice())
        },
    }
}

proof fn lemma_der_length_long(n: nat)
    requires
        256 <= n < 65536,
    ensures
        der_length(n) == seq![0x82u8, (n / 256) as u8, (n % 256) as u8],
        der_length(n).len() == 3,
{
}

proof fn lemma_tlv_split(tag: u8, c: Seq<u8>)
    requires
        256 <= c.len() < 65536,
    ensures
        der_tlv(tag, c).len() == 4 + c.len(),
        der_tlv(tag, c).subrange(0, 4) == seq![tag] + der_length(c.len()),
        der_tlv(tag, c).subrange(4, 4 + c.len() as int) == c,
{
    lemma_der_length_long(c.len());
    assert(der_tlv(tag, c).subrange(0, 4) =~= seq![tag] + der_length(c.len()));
    assert(der_tlv(tag, c).subrange(4, 4 + c.len() as int) =~= c);
}

/// Decodes the DER encoding of the structure for parameter set `p`.
/// Exactly the DER encodings of structures that meet the size constraints
/// are accepted, with no trailing bytes.
pub fn decode_asn_private_key(p: MlDsaParamSet, bytes: &[u8]) -> (r: Result<AsnPrivateKey, Error>)
    ensures
        r matches Ok(k) ==> asn_private_key_wf(p, k@) && spec_encode_asn_private_key(k@) == bytes@,
        r matches Err(e) ==> e == Error::MalformedDer && forall|k: AsnPrivateKeyView|
            asn_private_key_wf(p, k) ==> spec_encode_asn_private_key(k) != bytes@,
{
    let n = bytes.len();
    let l = p.secret_key_len();
    // seed [0]: 80 20 <32 bytes>
    let mut seed_header: Vec<u8> = Vec::new();
    push_der_header(&mut seed_header, TAG_CONTEXT_0, ML_DSA_SEED_SIZE);
    if n == 2 + ML_DSA_SEED_SIZE && has_prefix_at(bytes, 0, seed_header.as_slice()) {
        let s = copy_range(bytes, 2, n);
        assert(bytes@ =~= seed_header@ + s@);
        return Ok(AsnPrivateKey::Seed(s));
    }
    // expandedKey: 04 82 hi lo <l bytes>
    let mut ek_header: Vec<u8> = Vec::new();
    push_der_header(&mut ek_header, TAG_OCTET_STRING, l);
    proof {
        lemma_der_length_long(l as nat);
    }
    if n == 4 + l && has_prefix_at(bytes, 0, ek_header.as_slice()) {
        let e = copy_range(bytes, 4, n);
        assert(bytes@ =~= ek_header@ + e@);
        return Ok(AsnPrivateKey::ExpandedKey(e));
    }
    // both: 30 82 hi lo | 04 20 <32 bytes> | 04 82 hi lo <l bytes>
    let content_len = 2 + ML_DSA_SEED_SIZE + 4 + l;
    let mut both_header: Vec<u8> = Vec::new();
    push_der_header(&mut both_header, TAG_SEQUENCE, content_len);
    let mut inner_seed_header: Vec<u8> = Vec::new();
    push_der_header(&mut inner_seed_header, TAG_OCTET_STRING, ML_DSA_SEED_SIZE);
    proof {
        lemma_der_length_long(content_len as nat);
    }
    if n == 4 + content_len
        && has_prefix_at(bytes, 0, both_header.as_slice())
        && has_prefix_at(bytes, 4, inner_seed_header.as_slice())
        && has_prefix_at(bytes, 38, ek_header.as_slice())
    {
        let s = copy_range(bytes, 6, 38);
        let e = copy_range(bytes, 42, n);
        assert(bytes@ =~= both_header@ + (inner_seed_header@ + s@ + (ek_header@ + e@))) by {
            assert(bytes@.subrange(0, 4) == both_header@);
            assert(bytes@.subrange(4, 6) == inner_seed_header@);
            assert(bytes@.subrange(38, 42) == ek_header@);
        }
        assert(der_tlv(TAG_OCTET_STRING, s@) =~= inner_seed_header@ + s@);
        assert(der_tlv(TAG_OCTET_STRING, e@) =~= ek_header@ + e@);
        return Ok(AsnPrivateKey::Both { seed: s, expanded_key: e });
    }
    proof {
        assert forall|k: AsnPrivateKeyView| asn_private_key_wf(p, k) implies spec_encode_asn_private_key(k)
            != bytes@ by {
            if spec_encode_asn_private_key(k) == bytes@ {
                match k {
                    AsnPrivateKeyView::Seed(s) => {
                        assert(bytes@.subrange(0, 2) =~= seed_header@);
                    },
                    AsnPrivateKeyView::ExpandedKey(e) => {
                        lemma_tlv_split(TAG_OCTET_STRING, e);
                    },
                    AsnPrivateKeyView::Both(s, e) => {
                        let c = der_tlv(TAG_OCTET_STRING, s) + der_tlv(TAG_OCTET_STRING, e);
                        lemma_tlv_split(TAG_OCTET_STRING, e);
                        assert(der_tlv(TAG_OCTET_STRING, s).len() == 34);
                        lemma_tlv_split(TAG_SEQUENCE, c);
                        assert(bytes@.subrange(4, 6) =~= inner_seed_header@);
                        assert(bytes@.subrange(38, 42) =~= ek_header@) by {
                            assert(bytes@.subrange(38, 42) =~= der_tlv(TAG_OCTET_STRING, e).subrange(0, 4));
                        }
                    },
                }
            }
        }
    }
    Err(Error::MalformedDer)
}

} // verus!
