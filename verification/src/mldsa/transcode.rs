//! DER and PEM encoders and DER decoders of ML-DSA keys: `PrivateKeyInfo`
//! (PKCS#8) for private keys, `SubjectPublicKeyInfo` for public keys.
//!
//! A decoder answers OpenSSL's decoding process: `Continue` when the input
//! is not for it (other decoders may try), `Stop` when the input names its
//! algorithm but cannot be used, or the decoded key pair.

use vstd::prelude::*;
use crate::der::{bytes_eq, der_tlv, encode_tlv, extend_bytes, DER_MAX_CONTENT, TAG_OCTET_STRING, TAG_SEQUENCE};
use crate::error::Error;
use crate::keymgmt::{selects, SELECT_PRIVATE_KEY, SELECT_PUBLIC_KEY};
use crate::mldsa::asn::spec_encode_asn_private_key;
use crate::mldsa::keypair::KeyPair;
use crate::mldsa::keys::{
    PrivateKey, PrivateKeyView, PublicKey, lemma_private_key_der_roundtrip, spec_asn_of_private_key,
    spec_private_key_from_der,
};
use crate::mldsa::params::{MlDsaParamSet, spec_oid, spec_public_key_len};
use crate::pkix::{
    encode_private_key_info, encode_subject_public_key_info, parse_private_key_info,
    parse_subject_public_key_info, pem_encode, pem_encoding, pkcs8_private_key_info,
    spec_algorithm_identifier, spec_private_key_info_der, spec_spki_der, spki_fields,
};

verus! {

/// What a decoder makes of an input, as a value.
pub ghost enum SpkiDecision {
    Continue,
    Stop,
    /// The input holds this encoded public key.
    Accept(Seq<u8>),
}

/// What a decoder makes of an input, as a value.
pub ghost enum PkiDecision {
    Continue,
    Stop,
    /// The input holds this private key.
    Accept(PrivateKeyView),
}

/// The answer of a decoder to OpenSSL's decoding process.
pub enum DecodeOutcome {
    /// The input is not for this decoder: let the others try.
    Continue,
    /// The input is for this decoder but cannot be decoded: stop.
    Stop,
    /// The key pair decoded from the input, to be handed to the callback.
    Decoded(KeyPair),
}

/// How a `SubjectPublicKeyInfo` decoder for parameter set `p` answers.
/// A nonzero selection must ask for the public key. Input that `spki`
/// cannot parse, or with another algorithm, is left to other decoders;
/// algorithm parameters, a BIT STRING that is not a whole number of bytes,
/// or a key of the wrong length stop decoding.
pub open spec fn spec_decode_spki(p: MlDsaParamSet, selection: i32, der: Seq<u8>) -> SpkiDecision {
    if selection != 0 && !selects(selection, SELECT_PUBLIC_KEY) {
        SpkiDecision::Stop
    } else {
        match spki_fields(der) {
            None => SpkiDecision::Continue,
            Some((oid, has_params, key)) => if oid != spec_oid(p) {
                SpkiDecision::Continue
            } else if has_params {
                SpkiDecision::Stop
            } else {
                match key {
                    None => SpkiDecision::Stop,
                    Some(k) => if k.len() == spec_public_key_len(p) {
                        SpkiDecision::Accept(k)
                    } else {
                        SpkiDecision::Stop
                    },
                }
            },
        }
    }
}

/// How a `PrivateKeyInfo` decoder for parameter set `p` answers. A nonzero
/// selection must ask for the private key. Input that `pkcs8` cannot parse
/// stops decoding; a version 2 structure or another algorithm is left to
/// other decoders; algorithm parameters or a private key that does not
/// decode stop decoding.
pub open spec fn spec_decode_private_key_info(p: MlDsaParamSet, selection: i32, der: Seq<u8>) -> PkiDecision {
    if selection != 0 && !selects(selection, SELECT_PRIVATE_KEY) {
        PkiDecision::Stop
    } else {
        match pkcs8_private_key_info(der) {
            None => PkiDecision::Stop,
            Some((v1, oid, has_params, key)) => if !v1 {
                PkiDecision::Continue
            } else if oid != spec_oid(p) {
                PkiDecision::Continue
            } else if has_params {
                PkiDecision::Stop
            } else {
                match spec_private_key_from_der(p, key) {
                    None => PkiDecision::Stop,
                    Some(v) => PkiDecision::Accept(v),
                }
            },
        }
    }
}

/// The DER `ML-DSA-xx-PrivateKey` structure a private key is written as.
pub open spec fn spec_private_key_der(v: PrivateKeyView) -> Seq<u8> {
    spec_encode_asn_private_key(spec_asn_of_private_key(v))
}

/// DER of the `AlgorithmIdentifier` of parameter set `p` (no parameters).
pub fn algorithm_id_der(p: MlDsaParamSet) -> (out: Vec<u8>)
    ensures
        out@ == spec_algorithm_identifier(spec_oid(p)),
{
    let oid = p.oid();
    let inner = encode_tlv(crate::der::TAG_OID, oid.as_slice());
    encode_tlv(TAG_SEQUENCE, inner.as_slice())
}

/// Decodes a DER `SubjectPublicKeyInfo` holding an ML-DSA public key of
/// parameter set `p`, for a decoding request with `selection`.
#[allow(non_snake_case)]
pub fn decodeSPKI(p: MlDsaParamSet, selection: i32, der: &[u8]) -> (r: DecodeOutcome)
    ensures
        r is Continue <==> spec_decode_spki(p, selection, der@) is Continue,
        r is Stop <==> spec_decode_spki(p, selection, der@) is Stop,
        r matches DecodeOutcome::Decoded(kp) ==> {
            &&& kp.params() == p
            &&& kp.private is None
            &&& kp.public matches Some(k) && k.params() == p
                && spec_decode_spki(p, selection, der@) == SpkiDecision::Accept(k.spec_bytes())
        },
{
    if selection != 0 && (selection & SELECT_PUBLIC_KEY) == 0 {
        return DecodeOutcome::Stop;
    }
    let fields = match parse_subject_public_key_info(der) {
        Some(f) => f,
        None => {
            return DecodeOutcome::Continue;
        },
    };
    let oid = p.oid();
    if !bytes_eq(fields.oid.as_slice(), oid.as_slice()) {
        return DecodeOutcome::Continue;
    }
    if fields.has_params {
        return DecodeOutcome::Stop;
    }
    let key = match fields.public_key {
        Some(k) => k,
        None => {
            return DecodeOutcome::Stop;
        },
    };
    let pk = match PublicKey::decode(p, key.as_slice()) {
        Ok(k) => k,
        Err(_) => {
            return DecodeOutcome::Stop;
        },
    };
    DecodeOutcome::Decoded(KeyPair::from_parts(p, None, Some(pk)))
}

/// Decodes a DER `PrivateKeyInfo` holding an ML-DSA private key of
/// parameter set `p`, for a decoding request with `selection`. The public
/// key is derived from the private key.
#[allow(non_snake_case)]
pub fn decodePrivateKeyInfo(p: MlDsaParamSet, selection: i32, der: &[u8]) -> (r: DecodeOutcome)
    ensures
        r is Continue <==> spec_decode_private_key_info(p, selection, der@) is Continue,
        r is Stop <==> spec_decode_private_key_info(p, selection, der@) is Stop,
        r matches DecodeOutcome::Decoded(kp) ==> {
            &&& kp.params() == p
            &&& kp.private matches Some(sk) && sk.params() == p
                && spec_decode_private_key_info(p, selection, der@) == PkiDecision::Accept(sk.view())
            &&& kp.public matches Some(pk) && pk.params() == p
                && pk.spec_bytes() == kp.private->0.spec_public()
        },
{
    if selection != 0 && (selection & SELECT_PRIVATE_KEY) == 0 {
        return DecodeOutcome::Stop;
    }
    let fields = match parse_private_key_info(der) {
        Some(f) => f,
        None => {
            return DecodeOutcome::Stop;
        },
    };
    if !fields.v1 {
        return DecodeOutcome::Continue;
    }
    let oid = p.oid();
    if !bytes_eq(fields.oid.as_slice(), oid.as_slice()) {
        return DecodeOutcome::Continue;
    }
    if fields.has_params {
        return DecodeOutcome::Stop;
    }
    let (sk, pk) = match PrivateKey::from_DER(p, fields.private_key.as_slice()) {
        Ok(pair) => pair,
        Err(_) => {
            return DecodeOutcome::Stop;
        },
    };
    let pk = match pk {
        Some(k) => k,
        None => match sk.derive_public_key() {
            Some(k) => k,
            None => {
                return DecodeOutcome::Stop;
            },
        },
    };
    DecodeOutcome::Decoded(KeyPair::from_parts(p, Some(sk), Some(pk)))
}

/// The DER `PrivateKeyInfo` of a private key: version 1, the key's
/// algorithm without parameters, its DER `ML-DSA-xx-PrivateKey`.
pub open spec fn spec_key_private_key_info(sk: PrivateKey) -> Seq<u8> {
    spec_private_key_info_der(spec_oid(sk.params()), spec_private_key_der(sk.view()))
}

/// The DER `SubjectPublicKeyInfo` of a public key: the key's algorithm
/// without parameters, the encoded key as the BIT STRING.
pub open spec fn spec_key_spki(pk: PublicKey) -> Seq<u8> {
    spec_spki_der(spec_oid(pk.params()), pk.spec_bytes())
}

/// A result of bytes, seen as a sequence.
pub open spec fn bytes_result(r: Result<Vec<u8>, Error>) -> Result<Seq<u8>, Error> {
    match r {
        Ok(v) => Ok(v@),
        Err(e) => Err(e),
    }
}

/// The outcome of encoding a key pair's private key as a `PrivateKeyInfo`
/// and then applying `f` to the DER: the key pair must hold both keys.
pub open spec fn private_key_info_outcome(
    kp: KeyPair,
    r: Result<Seq<u8>, Error>,
    f: spec_fn(Seq<u8>) -> Seq<u8>,
) -> bool {
    match kp.private {
        None => r == Err::<Seq<u8>, Error>(Error::MissingPrivateKey),
        Some(sk) => if kp.public is None {
            r == Err::<Seq<u8>, Error>(Error::MissingPublicKey)
        } else {
            r == Ok::<Seq<u8>, Error>(f(spec_key_private_key_info(sk)))
        },
    }
}

/// The outcome of encoding a key pair's public key as a
/// `SubjectPublicKeyInfo` and then applying `f` to the DER: the key pair
/// must hold a public key.
pub open spec fn spki_outcome(kp: KeyPair, r: Result<Seq<u8>, Error>, f: spec_fn(Seq<u8>) -> Seq<u8>) -> bool {
    match kp.public {
        None => r == Err::<Seq<u8>, Error>(Error::MissingPublicKey),
        Some(pk) => r == Ok::<Seq<u8>, Error>(f(spec_key_spki(pk))),
    }
}

/// The identity on byte strings.
pub open spec fn as_der(der: Seq<u8>) -> Seq<u8> {
    der
}

/// The PEM text of a `PrivateKeyInfo`.
pub open spec fn private_key_pem(der: Seq<u8>) -> Seq<u8> {
    pem_encoding("PRIVATE KEY"@, der)
}

/// The PEM text of a `SubjectPublicKeyInfo`.
pub open spec fn public_key_pem(der: Seq<u8>) -> Seq<u8> {
    pem_encoding("PUBLIC KEY"@, der)
}

impl KeyPair {
    /// Encodes the private key as a DER `PrivateKeyInfo`. The key pair must
    /// hold both keys. Decoding the result for the key's parameter set
    /// gives the private key back.
    #[allow(non_snake_case)]
    pub fn to_PrivateKeyInfoDER(&self) -> (r: Result<Vec<u8>, Error>)
        ensures
            private_key_info_outcome(*self, bytes_result(r), |d: Seq<u8>| as_der(d)),
            r matches Ok(v) ==> self.private matches Some(sk) && {
                &&& pkcs8_private_key_info(v@) == Some(
                    (true, spec_oid(sk.params()), false, spec_private_key_der(sk.view())),
                )
                &&& forall|sel: i32|
                    sel == 0 || selects(sel, SELECT_PRIVATE_KEY) ==> #[trigger] spec_decode_private_key_info(
                        sk.params(),
                        sel,
                        v@,
                    ) == PkiDecision::Accept(sk.view())
            },
    {
        let sk = match &self.private {
            Some(k) => k,
            None => {
                return Err(Error::MissingPrivateKey);
            },
        };
        if self.public.is_none() {
            return Err(Error::MissingPublicKey);
        }
        let p = sk.param_set();
        let der_sk = match sk.to_DER() {
            Ok(v) => v,
            Err(e) => {
                return Err(e);
            },
        };
        let _ = sk.encode();
        let oid = p.oid();
        match encode_private_key_info(oid.as_slice(), der_sk.as_slice()) {
            Some(v) => {
                proof {
                    lemma_private_key_der_roundtrip(p, sk.view());
                }
                Ok(v)
            },
            None => Err(Error::Backend),
        }
    }

    /// Encodes the public key as a DER `SubjectPublicKeyInfo`. Decoding the
    /// result for the key's parameter set gives the public key back.
    #[allow(non_snake_case)]
    pub fn to_SPKIDER(&self) -> (r: Result<Vec<u8>, Error>)
        ensures
            spki_outcome(*self, bytes_result(r), |d: Seq<u8>| as_der(d)),
            r matches Ok(v) ==> self.public matches Some(pk) && {
                &&& spki_fields(v@) == Some((spec_oid(pk.params()), false, Some(pk.spec_bytes())))
                &&& forall|sel: i32|
                    sel == 0 || selects(sel, SELECT_PUBLIC_KEY) ==> #[trigger] spec_decode_spki(
                        pk.params(),
                        sel,
                        v@,
                    ) == SpkiDecision::Accept(pk.spec_bytes())
            },
    {
        let pk = match &self.public {
            Some(k) => k,
            None => {
                return Err(Error::MissingPublicKey);
            },
        };
        let p = pk.param_set();
        let der_pk = match pk.to_DER() {
            Ok(v) => v,
            Err(e) => {
                return Err(e);
            },
        };
        let _ = pk.encode();
        let oid = p.oid();
        match encode_subject_public_key_info(oid.as_slice(), der_pk.as_slice()) {
            Some(v) => Ok(v),
            None => Err(Error::Backend),
        }
    }
}

/// Encodes the key pair's private key as a DER `PrivateKeyInfo`, for an
/// encoding request with `selection`, which must ask for the private key.
#[allow(non_snake_case)]
pub fn encodePrivateKeyInfo2DER(selection: i32, keypair: &KeyPair) -> (r: Result<Vec<u8>, Error>)
    ensures
        !selects(selection, SELECT_PRIVATE_KEY) ==> r == Err::<Vec<u8>, Error>(Error::InvalidSelection),
        selects(selection, SELECT_PRIVATE_KEY) ==> private_key_info_outcome(
            *keypair,
            bytes_result(r),
            |d: Seq<u8>| as_der(d),
        ),
{
    if (selection & SELECT_PRIVATE_KEY) == 0 {
        return Err(Error::InvalidSelection);
    }
    keypair.to_PrivateKeyInfoDER()
}

/// Encodes the key pair's private key as a PEM `PRIVATE KEY` (a DER
/// `PrivateKeyInfo`), for an encoding request with `selection`, which must
/// ask for the private key.
#[allow(non_snake_case)]
pub fn encodePrivateKeyInfo2PEM(selection: i32, keypair: &KeyPair) -> (r: Result<Vec<u8>, Error>)
    ensures
        !selects(selection, SELECT_PRIVATE_KEY) ==> r == Err::<Vec<u8>, Error>(Error::InvalidSelection),
        selects(selection, SELECT_PRIVATE_KEY) ==> private_key_info_outcome(
            *keypair,
            bytes_result(r),
            |d: Seq<u8>| private_key_pem(d),
        ),
{
    if (selection & SELECT_PRIVATE_KEY) == 0 {
        return Err(Error::InvalidSelection);
    }
    let der = match keypair.to_PrivateKeyInfoDER() {
        Ok(v) => v,
        Err(e) => {
            return Err(e);
        },
    };
    Ok(pem_encode("PRIVATE KEY", der.as_slice()))
}

/// Encodes the key pair's public key as a DER `SubjectPublicKeyInfo`, for
/// an encoding request with `selection`, which must ask for the public
/// key.
#[allow(non_snake_case)]
pub fn encodeSPKI2DER(selection: i32, keypair: &KeyPair) -> (r: Result<Vec<u8>, Error>)
    ensures
        !selects(selection, SELECT_PUBLIC_KEY) ==> r == Err::<Vec<u8>, Error>(Error::InvalidSelection),
        selects(selection, SELECT_PUBLIC_KEY) ==> spki_outcome(*keypair, bytes_result(r), |d: Seq<u8>| as_der(d)),
{
    if (selection & SELECT_PUBLIC_KEY) == 0 {
        return Err(Error::InvalidSelection);
    }
    keypair.to_SPKIDER()
}

/// Encodes the key pair's public key as a PEM `PUBLIC KEY` (a DER
/// `SubjectPublicKeyInfo`), for an encoding request with `selection`,
/// which must ask for the public key.
#[allow(non_snake_case)]
pub fn encodeSPKI2PEM(selection: i32, keypair: &KeyPair) -> (r: Result<Vec<u8>, Error>)
    ensures
        !selects(selection, SELECT_PUBLIC_KEY) ==> r == Err::<Vec<u8>, Error>(Error::InvalidSelection),
        selects(selection, SELECT_PUBLIC_KEY) ==> spki_outcome(
            *keypair,
            bytes_result(r),
            |d: Seq<u8>| public_key_pem(d),
        ),
{
    if (selection & SELECT_PUBLIC_KEY) == 0 {
        return Err(Error::InvalidSelection);
    }
    let der = match keypair.to_SPKIDER() {
        Ok(v) => v,
        Err(e) => {
            return Err(e);
        },
    };
    Ok(pem_encode("PUBLIC KEY", der.as_slice()))
}

/// DER of a version 1 `PrivateKeyInfo` of parameter set `p` whose private
/// key OCTET STRING wraps `key_bytes` in a further OCTET STRING.
pub open spec fn spec_private_key_bytes_der(p: MlDsaParamSet, key_bytes: Seq<u8>) -> Seq<u8> {
    der_tlv(
        TAG_SEQUENCE,
        seq![0x02u8, 0x01, 0x00] + spec_algorithm_identifier(spec_oid(p)) + der_tlv(
            TAG_OCTET_STRING,
            der_tlv(TAG_OCTET_STRING, key_bytes),
        ),
    )
}

/// Writes raw private key bytes as a DER `PrivateKeyInfo` of parameter set
/// `p`, the key OCTET STRING nested in the `privateKey` OCTET STRING.
/// Key bytes whose `PrivateKeyInfo` would not fit DER's four length octets
/// (2^32 - 64 bytes or more) are refused.
#[allow(non_snake_case)]
pub fn private_key_bytes_to_DER(p: MlDsaParamSet, keypair_bytes: &[u8]) -> (r: Result<Vec<u8>, Error>)
    ensures
        r is Ok <==> keypair_bytes@.len() < DER_MAX_CONTENT - 64,
        r matches Ok(v) ==> v@ == spec_private_key_bytes_der(p, keypair_bytes@),
        r matches Err(e) ==> e == Error::TooLong,
{
    if keypair_bytes.len() as u64 >= DER_MAX_CONTENT - 64 {
        return Err(Error::TooLong);
    }
    let mut content: Vec<u8> = vec![0x02u8, 0x01, 0x00];
    let aid = algorithm_id_der(p);
    extend_bytes(&mut content, aid.as_slice());
    let inner = encode_tlv(TAG_OCTET_STRING, keypair_bytes);
    let outer = encode_tlv(TAG_OCTET_STRING, inner.as_slice());
    extend_bytes(&mut content, outer.as_slice());
    let out = encode_tlv(TAG_SEQUENCE, content.as_slice());
    assert(out@ =~= spec_private_key_bytes_der(p, keypair_bytes@));
    Ok(out)
}

} // verus!
