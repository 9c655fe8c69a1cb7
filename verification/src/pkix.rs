//! PKCS#8 `PrivateKeyInfo`, X.509 `SubjectPublicKeyInfo` and PEM, through
//! the `pkcs8` and `pem` crates.
//!
//! Parsing DER is left to `pkcs8`; what a parse yields is named
//! (`pkcs8_private_key_info`, `spki_fields`) and the decoders decide on the
//! named fields. Encoding is stated exactly: the DER this library asks
//! `pkcs8` for is short enough to write down.

use vstd::prelude::*;
use crate::mldsa::params::{MlDsaParamSet, spec_oid};
use pkcs8::der::{Decode, Encode};
use crate::der::{der_tlv, TAG_BIT_STRING, TAG_OCTET_STRING, TAG_OID, TAG_SEQUENCE};

verus! {

/// What `pkcs8` reads out of a DER `PrivateKeyInfo`, or `None` where it
/// refuses the input: whether the structure is version 1 (it holds no
/// public key), the content octets of the algorithm OID, whether algorithm
/// parameters are present, and the content of the `privateKey` OCTET STRING.
pub uninterp spec fn pkcs8_private_key_info(der: Seq<u8>) -> Option<(bool, Seq<u8>, bool, Seq<u8>)>;

/// What `spki` reads out of a DER `SubjectPublicKeyInfo`, or `None` where
/// it refuses the input: the content octets of the algorithm OID, whether
/// algorithm parameters are present, and the bytes of the
/// `subjectPublicKey` BIT STRING (`None` when it is not a whole number of
/// bytes).
pub uninterp spec fn spki_fields(der: Seq<u8>) -> Option<(Seq<u8>, bool, Option<Seq<u8>>)>;

/// The PEM text (RFC 7468) that `pem` writes for `contents` under `label`,
/// as bytes.
pub uninterp spec fn pem_encoding(label: Seq<char>, contents: Seq<u8>) -> Seq<u8>;

/// DER of an `AlgorithmIdentifier` without parameters.
pub open spec fn spec_algorithm_identifier(oid: Seq<u8>) -> Seq<u8> {
    der_tlv(TAG_SEQUENCE, der_tlv(TAG_OID, oid))
}

/// DER of a version 1 `PrivateKeyInfo` with algorithm `oid` (no
/// parameters), private key `key` and no attributes.
pub open spec fn spec_private_key_info_der(oid: Seq<u8>, key: Seq<u8>) -> Seq<u8> {
    der_tlv(
        TAG_SEQUENCE,
        seq![0x02u8, 0x01, 0x00] + spec_algorithm_identifier(oid) + der_tlv(TAG_OCTET_STRING, key),
    )
}

/// DER of a `SubjectPublicKeyInfo` with algorithm `oid` (no parameters)
/// and the octet-aligned public key `key`.
pub open spec fn spec_spki_der(oid: Seq<u8>, key: Seq<u8>) -> Seq<u8> {
    der_tlv(TAG_SEQUENCE, spec_algorithm_identifier(oid) + der_tlv(TAG_BIT_STRING, seq![0u8] + key))
}

/// The fields of a parsed `PrivateKeyInfo`.
pub struct PrivateKeyInfoFields {
    pub v1: bool,
    pub oid: Vec<u8>,
    pub has_params: bool,
    pub private_key: Vec<u8>,
}

impl PrivateKeyInfoFields {
    pub open spec fn view(&self) -> (bool, Seq<u8>, bool, Seq<u8>) {
        (self.v1, self.oid@, self.has_params, self.private_key@)
    }
}

/// The fields of a parsed `SubjectPublicKeyInfo`.
pub struct SpkiFields {
    pub oid: Vec<u8>,
    pub has_params: bool,
    pub public_key: Option<Vec<u8>>,
}

impl SpkiFields {
    pub open spec fn view(&self) -> (Seq<u8>, bool, Option<Seq<u8>>) {
        (
            self.oid@,
            self.has_params,
            match self.public_key {
                Some(k) => Some(k@),
                None => None,
            },
        )
    }
}

pub open spec fn pki_view(r: Option<PrivateKeyInfoFields>) -> Option<(bool, Seq<u8>, bool, Seq<u8>)> {
    match r {
        Some(f) => Some(f.view()),
        None => None,
    }
}

pub open spec fn spki_view(r: Option<SpkiFields>) -> Option<(Seq<u8>, bool, Option<Seq<u8>>)> {
    match r {
        Some(f) => Some(f.view()),
        None => None,
    }
}

/// Parses a DER `PrivateKeyInfo` with `pkcs8::PrivateKeyInfoRef::try_from`
/// and reads its version, algorithm OID and parameters, and private key.
/// The contract claims only that the result is the one named
/// `pkcs8_private_key_info` for these bytes.
#[verifier::external_body]
pub(crate) fn parse_private_key_info(der: &[u8]) -> (r: Option<PrivateKeyInfoFields>)
    ensures
        pki_view(r) == pkcs8_private_key_info(der@),
{
    match pkcs8::PrivateKeyInfoRef::try_from(der) {
        Ok(pki) => Some(PrivateKeyInfoFields {
            v1: pki.version() == pkcs8::Version::V1,
            oid: pki.algorithm.oid.as_bytes().to_vec(),
            has_params: pki.algorithm.parameters.is_some(),
            private_key: pki.private_key.as_bytes().to_vec(),
        }),
        Err(_) => None,
    }
}

/// Parses a DER `SubjectPublicKeyInfo` with
/// `spki::SubjectPublicKeyInfoRef::from_der` and reads its algorithm OID and
/// parameters and the bytes of its BIT STRING (`BitStringRef::as_bytes`).
/// The contract claims only that the result is the one named `spki_fields`
/// for these bytes.
#[verifier::external_body]
pub(crate) fn parse_subject_public_key_info(der: &[u8]) -> (r: Option<SpkiFields>)
    ensures
        spki_view(r) == spki_fields(der@),
{
    let spki = match pkcs8::spki::SubjectPublicKeyInfoRef::from_der(der) {
        Ok(s) => s,
        Err(_) => return None,
    };
    let public_key = match spki.subject_public_key.as_bytes() {
        Some(b) => Some(b.to_vec()),
        None => None,
    };
    let oid = spki.algorithm.oid.as_bytes().to_vec();
    Some(SpkiFields { oid, has_params: spki.algorithm.parameters.is_some(), public_key })
}

/// Writes a version 1 `PrivateKeyInfo` (algorithm `oid` without
/// parameters, private key `key`) with `pkcs8::PrivateKeyInfoRef::new` and
/// `Encode::to_der`. The OID is built with `ObjectIdentifier::from_bytes`
/// and the key with `OctetStringRef::new`; `None` where one of these
/// calls fails. The contract claims the exact DER written, and that
/// `pkcs8` reads back from it the version, OID and key it was given. It
/// claims success for the ML-DSA OIDs: `const-oid` accepts their
/// well-formed arcs, and with a key this short neither `OctetStringRef::new`
/// nor the length arithmetic of `to_der` can overflow `der::Length`.
#[verifier::external_body]
pub(crate) fn encode_private_key_info(oid: &[u8], key: &[u8]) -> (r: Option<Vec<u8>>)
    requires
        oid@.len() < 100,
        key@.len() < 60000,
    ensures
        r matches Some(v) ==> v@ == spec_private_key_info_der(oid@, key@)
            && pkcs8_private_key_info(v@) == Some((true, oid@, false, key@)),
        oid@ == spec_oid(MlDsaParamSet::MlDsa44) || oid@ == spec_oid(MlDsaParamSet::MlDsa65) ==> r is Some,
{
    let oid = pkcs8::ObjectIdentifier::from_bytes(oid).ok()?;
    let key = pkcs8::der::asn1::OctetStringRef::new(key).ok()?;
    let aid = pkcs8::spki::AlgorithmIdentifierRef { oid, parameters: None };
    pkcs8::PrivateKeyInfoRef::new(aid, key).to_der().ok()
}

/// Writes a `SubjectPublicKeyInfo` (algorithm `oid` without parameters,
/// public key `key` as an octet-aligned BIT STRING) with
/// `spki::SubjectPublicKeyInfoOwned` and `Encode::to_der`; the BIT STRING
/// is built with `BitString::from_bytes`. `None` where one of these calls
/// fails. The contract claims the exact DER written, and that `spki`
/// reads back from it the OID and key it was given. It claims success for
/// the ML-DSA OIDs: `const-oid` accepts their well-formed arcs, and with a
/// key this short neither `BitString::from_bytes` nor the length
/// arithmetic of `to_der` can overflow `der::Length`.
#[verifier::external_body]
pub(crate) fn encode_subject_public_key_info(oid: &[u8], key: &[u8]) -> (r: Option<Vec<u8>>)
    requires
        oid@.len() < 100,
        key@.len() < 60000,
    ensures
        r matches Some(v) ==> v@ == spec_spki_der(oid@, key@)
            && spki_fields(v@) == Some((oid@, false, Some(key@))),
        oid@ == spec_oid(MlDsaParamSet::MlDsa44) || oid@ == spec_oid(MlDsaParamSet::MlDsa65) ==> r is Some,
{
    let oid = pkcs8::ObjectIdentifier::from_bytes(oid).ok()?;
    let bits = pkcs8::der::asn1::BitString::from_bytes(key).ok()?;
    let algorithm = pkcs8::spki::AlgorithmIdentifierOwned { oid, parameters: None };
    let spki = pkcs8::spki::SubjectPublicKeyInfoOwned { algorithm, subject_public_key: bits };
    spki.to_der().ok()
}

/// The PEM text of `contents` under `label`, written by `pem::encode` on
/// `pem::Pem::new(label, contents)`, as bytes. The contract claims only
/// that the result is the one named `pem_encoding`.
#[verifier::external_body]
pub(crate) fn pem_encode(label: &str, contents: &[u8]) -> (out: Vec<u8>)
    ensures
        out@ == pem_encoding(label@, contents@),
{
    pem::encode(&pem::Pem::new(label, contents)).into_bytes()
}

} // verus!
