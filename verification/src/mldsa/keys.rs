//! ML-DSA public and private keys.

use vstd::prelude::*;
use crate::der::{bytes_eq, copy_range, lemma_der_length_bound};
use crate::error::Error;
use crate::mldsa::asn::{
    AsnPrivateKey, AsnPrivateKeyView, asn_private_key_wf, decode_asn_private_key,
    encode_asn_private_key, spec_encode_asn_private_key,
};
use crate::mldsa::backend::{
    derive_public, expand_seed, sign, spec_expanded_from_seed, spec_public_from_expanded,
    spec_verify_accepts, verify,
};
use crate::mldsa::expanded::{check_secret_coefficients, secret_coefficients_in_range};
use crate::mldsa::params::{
    MlDsaParamSet, spec_public_key_len, spec_secret_key_len, spec_signature_len, ML_DSA_SEED_SIZE,
    MAX_CONTEXT_LEN,
};
use crate::mldsa::signature::Signature;
use crate::signature::VerificationError;

verus! {

/// An ML-DSA public key of some parameter set.
#[derive(Debug)]
pub struct PublicKey {
    params: MlDsaParamSet,
    bytes: Vec<u8>,
}

impl PublicKey {
    #[verifier::type_invariant]
    spec fn length_matches(self) -> bool {
        self.bytes@.len() == spec_public_key_len(self.params)
    }

    pub closed spec fn params(&self) -> MlDsaParamSet {
        self.params
    }

    /// The encoded key.
    pub closed spec fn spec_bytes(&self) -> Seq<u8> {
        self.bytes@
    }

    /// Length in bytes of an encoded public key of parameter set `p`.
    pub fn byte_len(p: MlDsaParamSet) -> (n: usize)
        ensures
            n == spec_public_key_len(p),
    {
        p.public_key_len()
    }

    /// Length in bytes of a signature of parameter set `p`.
    pub fn signature_bytes(p: MlDsaParamSet) -> (n: usize)
        ensures
            n == spec_signature_len(p),
    {
        p.signature_len()
    }

    /// Decodes an encoded public key of parameter set `p`: any byte string
    /// of the public key length is one.
    pub fn decode(p: MlDsaParamSet, bytes: &[u8]) -> (r: Result<PublicKey, Error>)
        ensures
            r is Ok <==> bytes@.len() == spec_public_key_len(p),
            r matches Ok(k) ==> k.params() == p && k.spec_bytes() == bytes@,
            r matches Err(e) ==> e == (Error::LengthMismatch {
                expected: spec_public_key_len(p) as usize,
                actual: bytes@.len() as usize,
            }),
    {
        let expected = p.public_key_len();
        if bytes.len() != expected {
            return Err(Error::LengthMismatch { expected, actual: bytes.len() });
        }
        let b = copy_range(bytes, 0, bytes.len());
        assert(b@ =~= bytes@);
        Ok(PublicKey { params: p, bytes: b })
    }

    /// The encoded key.
    pub fn encode(&self) -> (out: Vec<u8>)
        ensures
            out@ == self.spec_bytes(),
            out@.len() == spec_public_key_len(self.params()),
    {
        proof {
            use_type_invariant(self);
        }
        copy_range(self.bytes.as_slice(), 0, self.bytes.len())
    }

    /// The parameter set of the key.
    pub fn param_set(&self) -> (p: MlDsaParamSet)
        ensures
            p == self.params(),
    {
        self.params
    }

    /// Decodes the `subjectPublicKey` content of a SubjectPublicKeyInfo: the
    /// raw encoded key, which has the public key length.
    #[allow(non_snake_case)]
    pub fn from_DER(p: MlDsaParamSet, pk_der_bytes: &[u8]) -> (r: Result<PublicKey, Error>)
        requires
            pk_der_bytes@.len() == spec_public_key_len(p),
        ensures
            r matches Ok(k) && k.params() == p && k.spec_bytes() == pk_der_bytes@,
    {
        PublicKey::decode(p, pk_der_bytes)
    }

    /// The `subjectPublicKey` content for this key: the raw encoded key.
    #[allow(non_snake_case)]
    pub fn to_DER(&self) -> (r: Result<Vec<u8>, Error>)
        ensures
            r matches Ok(v) && v@ == self.spec_bytes(),
    {
        Ok(self.encode())
    }

    /// Whether two public keys are the same key.
    pub fn same_key(&self, other: &PublicKey) -> (b: bool)
        ensures
            b == (self.params() == other.params() && self.spec_bytes() == other.spec_bytes()),
    {
        self.params == other.params && bytes_eq(self.bytes.as_slice(), other.bytes.as_slice())
    }

    /// The outcome of verifying `sig` on `msg` under `ctx` with this key: a
    /// context longer than 255 bytes or a signature of another parameter set
    /// cannot be verified; otherwise the signature verifies or is invalid.
    pub open spec fn spec_verify_result(&self, msg: Seq<u8>, sig: Signature, ctx: Seq<u8>) -> Result<(), VerificationError> {
        if ctx.len() > MAX_CONTEXT_LEN || sig.params() != self.params() {
            Err(VerificationError::GenericVerificationError)
        } else if spec_verify_accepts(self.params(), self.spec_bytes(), msg, ctx, sig.spec_bytes()) {
            Ok(())
        } else {
            Err(VerificationError::InvalidSignature)
        }
    }

    /// Verifies `sig` on `msg` under the context string `ctx`.
    pub fn verify_with_ctx(&self, msg: &[u8], sig: &Signature, ctx: &[u8]) -> (r: Result<(), VerificationError>)
        ensures
            r == self.spec_verify_result(msg@, *sig, ctx@),
    {
        proof {
            use_type_invariant(self);
        }
        if ctx.len() > MAX_CONTEXT_LEN {
            return Err(VerificationError::GenericVerificationError);
        }
        if sig.param_set() != self.params {
            return Err(VerificationError::GenericVerificationError);
        }
        if verify(self.params, self.bytes.as_slice(), msg, ctx, sig.as_slice()) {
            Ok(())
        } else {
            Err(VerificationError::InvalidSignature)
        }
    }

    /// Verifies `sig` on `msg` with the empty context string.
    pub fn verify(&self, msg: &[u8], sig: &Signature) -> (r: Result<(), VerificationError>)
        ensures
            r == self.spec_verify_result(msg@, *sig, Seq::empty()),
    {
        let empty: Vec<u8> = Vec::new();
        assert(empty@ =~= Seq::<u8>::empty());
        self.verify_with_ctx(msg, sig, empty.as_slice())
    }
}

/// The secret part of an ML-DSA private key: the expanded key, and the seed
/// it was expanded from when that is known.
pub enum PrivateKeyData {
    Expanded(Vec<u8>),
    Both { seed: Vec<u8>, expanded: Vec<u8> },
}

/// The mathematical value of a private key: its seed, if known, and its
/// expanded form.
pub type PrivateKeyView = (Option<Seq<u8>>, Seq<u8>);

/// A well-formed private key value of parameter set `p`: a seed expands to
/// the expanded form, and the expanded form's secret coefficients are in
/// range.
pub open spec fn private_view_wf(p: MlDsaParamSet, v: PrivateKeyView) -> bool {
    &&& secret_coefficients_in_range(p, v.1)
    &&& match v.0 {
        Some(s) => s.len() == ML_DSA_SEED_SIZE && v.1 == spec_expanded_from_seed(p, s),
        None => true,
    }
}

/// The private key that an encoded private key decodes to: 32 bytes are a
/// seed; otherwise the bytes must be an expanded key whose secret
/// coefficients are in range.
pub open spec fn spec_decode_private_key(p: MlDsaParamSet, bytes: Seq<u8>) -> Option<PrivateKeyView> {
    if bytes.len() == ML_DSA_SEED_SIZE {
        Some((Some(bytes), spec_expanded_from_seed(p, bytes)))
    } else if secret_coefficients_in_range(p, bytes) {
        Some((None, bytes))
    } else {
        None
    }
}

/// The encoding of a private key: its seed if it is known, else its
/// expanded form.
pub open spec fn spec_encode_private_key(v: PrivateKeyView) -> Seq<u8> {
    match v.0 {
        Some(s) => s,
        None => v.1,
    }
}

/// The private key a DER-encoded `ML-DSA-xx-PrivateKey` structure holds.
pub open spec fn spec_private_key_from_asn(p: MlDsaParamSet, k: AsnPrivateKeyView) -> Option<PrivateKeyView> {
    match k {
        AsnPrivateKeyView::Seed(s) => Some((Some(s), spec_expanded_from_seed(p, s))),
        AsnPrivateKeyView::ExpandedKey(e) => if secret_coefficients_in_range(p, e) {
            Some((None, e))
        } else {
            None
        },
        AsnPrivateKeyView::Both(s, e) => if e == spec_expanded_from_seed(p, s) {
            Some((Some(s), e))
        } else {
            None
        },
    }
}

/// The ASN.1 structure a private key is written as: the seed form when the
/// seed is known, else the expanded form.
pub open spec fn spec_asn_of_private_key(v: PrivateKeyView) -> AsnPrivateKeyView {
    match v.0 {
        Some(s) => AsnPrivateKeyView::Seed(s),
        None => AsnPrivateKeyView::ExpandedKey(v.1),
    }
}

/// The private key held by the DER bytes `der`, if they are the encoding
/// of a well-formed structure from which a key follows.
pub open spec fn spec_private_key_from_der(p: MlDsaParamSet, der: Seq<u8>) -> Option<PrivateKeyView> {
    if exists|k: AsnPrivateKeyView| asn_private_key_wf(p, k) && spec_encode_asn_private_key(k) == der {
        spec_private_key_from_asn(
            p,
            choose|k: AsnPrivateKeyView| asn_private_key_wf(p, k) && spec_encode_asn_private_key(k) == der,
        )
    } else {
        None
    }
}

/// Two well-formed structures with the same DER encoding are the same.
pub proof fn lemma_asn_encoding_injective(p: MlDsaParamSet, k1: AsnPrivateKeyView, k2: AsnPrivateKeyView)
    requires
        asn_private_key_wf(p, k1),
        asn_private_key_wf(p, k2),
        spec_encode_asn_private_key(k1) == spec_encode_asn_private_key(k2),
    ensures
        k1 == k2,
{
    let b = spec_encode_asn_private_key(k1);
    assert(b[0] == spec_encode_asn_private_key(k2)[0]);
    match k1 {
        AsnPrivateKeyView::Seed(s1) => {
            match k2 {
                AsnPrivateKeyView::Seed(s2) => {
                    assert(s1 =~= b.subrange(2, 34));
                    assert(s2 =~= b.subrange(2, 34));
                },
                _ => {},
            }
        },
        AsnPrivateKeyView::ExpandedKey(e1) => {
            match k2 {
                AsnPrivateKeyView::ExpandedKey(e2) => {
                    let n = e1.len() as int;
                    assert(e1 =~= b.subrange(4, 4 + n));
                    assert(e2 =~= b.subrange(4, 4 + n));
                },
                _ => {},
            }
        },
        AsnPrivateKeyView::Both(s1, e1) => {
            match k2 {
                AsnPrivateKeyView::Both(s2, e2) => {
                    let n = e1.len() as int;
                    assert(s1 =~= b.subrange(6, 38));
                    assert(s2 =~= b.subrange(6, 38));
                    assert(e1 =~= b.subrange(42, 42 + n));
                    assert(e2 =~= b.subrange(42, 42 + n));
                },
                _ => {},
            }
        },
    }
}

/// An ML-DSA private key, together with its public key.
pub struct PrivateKey {
    params: MlDsaParamSet,
    private: PrivateKeyData,
    public: Vec<u8>,
}

impl PrivateKey {
    pub closed spec fn params(&self) -> MlDsaParamSet {
        self.params
    }

    /// The seed, if known, and the expanded form of the key.
    pub closed spec fn view(&self) -> PrivateKeyView {
        match self.private {
            PrivateKeyData::Expanded(e) => (None, e@),
            PrivateKeyData::Both { seed, expanded } => (Some(seed@), expanded@),
        }
    }

    /// The encoded public key that belongs to this private key.
    pub closed spec fn spec_public(&self) -> Seq<u8> {
        self.public@
    }

    #[verifier::type_invariant]
    spec fn well_formed(self) -> bool {
        &&& private_view_wf(self.params, self.view())
        &&& self.public@ == spec_public_from_expanded(self.params, self.view().1)
        &&& self.public@.len() == spec_public_key_len(self.params)
    }

    fn from_expanded_parts(p: MlDsaParamSet, seed: Option<Vec<u8>>, expanded: Vec<u8>) -> (k: PrivateKey)
        requires
            private_view_wf(p, (match seed { Some(s) => Some(s@), None => None }, expanded@)),
        ensures
            k.params() == p,
            k.view() == (match seed { Some(s) => Some(s@), None => None::<Seq<u8>> }, expanded@),
    {
        let public = derive_public(p, expanded.as_slice());
        let private = match seed {
            Some(s) => PrivateKeyData::Both { seed: s, expanded },
            None => PrivateKeyData::Expanded(expanded),
        };
        PrivateKey { params: p, private, public }
    }

    /// Length in bytes of an expanded private key of parameter set `p`.
    pub fn byte_len(p: MlDsaParamSet) -> (n: usize)
        ensures
            n == spec_secret_key_len(p),
    {
        p.secret_key_len()
    }

    /// Length in bytes of a signature of parameter set `p`.
    pub fn signature_bytes(p: MlDsaParamSet) -> (n: usize)
        ensures
            n == spec_signature_len(p),
    {
        p.signature_len()
    }

    /// Length in bytes of a key-generation seed.
    pub fn seed_bytes() -> (n: usize)
        ensures
            n == ML_DSA_SEED_SIZE,
    {
        ML_DSA_SEED_SIZE
    }

    /// The parameter set of the key.
    pub fn param_set(&self) -> (p: MlDsaParamSet)
        ensures
            p == self.params(),
    {
        self.params
    }

    /// The seed of the key, if the key was made from one.
    pub fn seed(&self) -> (r: Result<Vec<u8>, Error>)
        ensures
            r is Ok <==> self.view().0 is Some,
            r matches Ok(s) ==> Some(s@) == self.view().0,
            r matches Err(e) ==> e == Error::MissingSeed,
    {
        match &self.private {
            PrivateKeyData::Expanded(_) => Err(Error::MissingSeed),
            PrivateKeyData::Both { seed, expanded: _ } => Ok(copy_range(seed.as_slice(), 0, seed.len())),
        }
    }

    /// The expanded form of the key.
    pub fn expanded_key(&self) -> (e: &[u8])
        ensures
            e@ == self.view().1,
            e@.len() == spec_secret_key_len(self.params()),
    {
        proof {
            use_type_invariant(self);
        }
        match &self.private {
            PrivateKeyData::Expanded(e) => e.as_slice(),
            PrivateKeyData::Both { seed: _, expanded } => expanded.as_slice(),
        }
    }

    /// Encodes the key: only the seed when it is known, else the expanded
    /// form.
    pub fn encode(&self) -> (out: Vec<u8>)
        ensures
            out@ == spec_encode_private_key(self.view()),
            private_view_wf(self.params(), self.view()),
    {
        proof {
            use_type_invariant(self);
        }
        match &self.private {
            PrivateKeyData::Expanded(e) => copy_range(e.as_slice(), 0, e.len()),
            PrivateKeyData::Both { seed, expanded: _ } => copy_range(seed.as_slice(), 0, seed.len()),
        }
    }

    /// Decodes `bytes` as a private key in seed form: the expanded form and
    /// the public key are derived from the seed.
    pub fn decode_seed(p: MlDsaParamSet, bytes: &[u8]) -> (r: Result<PrivateKey, Error>)
        ensures
            r is Ok <==> bytes@.len() == ML_DSA_SEED_SIZE,
            r matches Ok(k) ==> k.params() == p && k.view() == (Some(bytes@), spec_expanded_from_seed(p, bytes@)),
            r matches Err(e) ==> e == (Error::LengthMismatch {
                expected: ML_DSA_SEED_SIZE,
                actual: bytes@.len() as usize,
            }),
    {
        if bytes.len() != ML_DSA_SEED_SIZE {
            return Err(Error::LengthMismatch { expected: ML_DSA_SEED_SIZE, actual: bytes.len() });
        }
        let seed = copy_range(bytes, 0, bytes.len());
        assert(seed@ =~= bytes@);
        let expanded = expand_seed(p, seed.as_slice());
        Ok(PrivateKey::from_expanded_parts(p, Some(seed), expanded))
    }

    /// Decodes `bytes` as a private key: a seed if they are 32 bytes long,
    /// else an expanded key, whose secret coefficients must be in range. The
    /// public key is derived and kept with the private key.
    pub fn decode(p: MlDsaParamSet, bytes: &[u8]) -> (r: Result<PrivateKey, Error>)
        ensures
            r is Ok <==> spec_decode_private_key(p, bytes@) is Some,
            r matches Ok(k) ==> k.params() == p && Some(k.view()) == spec_decode_private_key(p, bytes@),
            r matches Ok(k) ==> k.spec_public() == spec_public_from_expanded(p, k.view().1),
            r matches Err(e) ==> e == Error::InvalidKey,
    {
        if let Ok(key) = PrivateKey::decode_seed(p, bytes) {
            proof {
                use_type_invariant(&key);
            }
            return Ok(key);
        }
        if !check_secret_coefficients(p, bytes) {
            return Err(Error::InvalidKey);
        }
        let expanded = copy_range(bytes, 0, bytes.len());
        assert(expanded@ =~= bytes@);
        let key = PrivateKey::from_expanded_parts(p, None, expanded);
        proof {
            use_type_invariant(&key);
        }
        Ok(key)
    }

    /// The public key that belongs to this private key.
    pub fn derive_public_key(&self) -> (pk: Option<PublicKey>)
        ensures
            pk matches Some(k) && k.params() == self.params() && k.spec_bytes() == self.spec_public()
                && k.spec_bytes() == spec_public_from_expanded(self.params(), self.view().1),
    {
        proof {
            use_type_invariant(self);
        }
        let bytes = copy_range(self.public.as_slice(), 0, self.public.len());
        assert(bytes@ =~= self.public@);
        Some(PublicKey { params: self.params, bytes })
    }

    /// Whether two private keys are the same: same parameter set, same seed
    /// (or both without one) and same expanded form.
    pub fn same_key(&self, other: &PrivateKey) -> (b: bool)
        ensures
            b == (self.params() == other.params() && self.view() == other.view()),
    {
        if self.params != other.params {
            return false;
        }
        match (&self.private, &other.private) {
            (PrivateKeyData::Expanded(a), PrivateKeyData::Expanded(b)) => bytes_eq(a.as_slice(), b.as_slice()),
            (PrivateKeyData::Both { seed: s1, expanded: e1 }, PrivateKeyData::Both { seed: s2, expanded: e2 }) => {
                bytes_eq(s1.as_slice(), s2.as_slice()) && bytes_eq(e1.as_slice(), e2.as_slice())
            },
            _ => false,
        }
    }

    /// Decodes the DER-encoded `ML-DSA-xx-PrivateKey` structure of parameter
    /// set `p`. In the `both` form, the expanded key must be the expansion of
    /// the seed. The public key is derived and returned too.
    #[allow(non_snake_case)]
    pub fn from_DER(p: MlDsaParamSet, sk_der_bytes: &[u8]) -> (r: Result<(PrivateKey, Option<PublicKey>), Error>)
        ensures
            r is Ok <==> spec_private_key_from_der(p, sk_der_bytes@) is Some,
            r matches Ok((sk, pk)) ==> sk.params() == p && Some(sk.view()) == spec_private_key_from_der(
                p,
                sk_der_bytes@,
            ) && (pk matches Some(k) && k.params() == p && k.spec_bytes() == sk.spec_public()),
    {
        let asn = match decode_asn_private_key(p, sk_der_bytes) {
            Ok(k) => k,
            Err(e) => {
                return Err(e);
            },
        };
        let ghost k = asn@;
        proof {
            let c = choose|k2: AsnPrivateKeyView|
                asn_private_key_wf(p, k2) && spec_encode_asn_private_key(k2) == sk_der_bytes@;
            lemma_asn_encoding_injective(p, k, c);
        }
        let key_bytes: &[u8] = match &asn {
            AsnPrivateKey::Seed(s) => s.as_slice(),
            AsnPrivateKey::ExpandedKey(e) => e.as_slice(),
            AsnPrivateKey::Both { seed, expanded_key: _ } => seed.as_slice(),
        };
        let privkey = match PrivateKey::decode(p, key_bytes) {
            Ok(k) => k,
            Err(e) => {
                return Err(e);
            },
        };
        if let AsnPrivateKey::Both { seed: _, expanded_key } = &asn {
            if !bytes_eq(expanded_key.as_slice(), privkey.expanded_key()) {
                return Err(Error::ExpandedKeyMismatch);
            }
        }
        let pubkey = match privkey.derive_public_key() {
            Some(k) => k,
            None => {
                return Err(Error::InvalidKey);
            },
        };
        Ok((privkey, Some(pubkey)))
    }

    /// Encodes the key as a DER `ML-DSA-xx-PrivateKey` structure: the seed
    /// form when the seed is known, else the expanded form.
    #[allow(non_snake_case)]
    pub fn to_DER(&self) -> (r: Result<Vec<u8>, Error>)
        ensures
            r matches Ok(v) && v@ == spec_encode_asn_private_key(spec_asn_of_private_key(self.view()))
                && v@.len() <= spec_secret_key_len(self.params()) + 4,
    {
        proof {
            use_type_invariant(self);
            lemma_der_length_bound(spec_encode_private_key(self.view()).len());
        }
        let raw = self.encode();
        let asn = match &self.private {
            PrivateKeyData::Expanded(_) => AsnPrivateKey::ExpandedKey(raw),
            PrivateKeyData::Both { seed: _, expanded: _ } => AsnPrivateKey::Seed(raw),
        };
        Ok(encode_asn_private_key(self.params, &asn))
    }

    /// Signs `msg` under the context string `ctx`, which may be at most 255
    /// bytes long. Signing is randomized (hedged), so only the signature's
    /// parameter set and length are determined.
    pub fn try_sign_with_ctx(&self, msg: &[u8], ctx: &[u8]) -> (r: Result<Signature, Error>)
        ensures
            r is Ok <==> ctx@.len() <= MAX_CONTEXT_LEN,
            r matches Ok(s) ==> s.params() == self.params() && s.spec_bytes().len() == spec_signature_len(
                self.params(),
            ) && spec_signed_by(*self, msg@, ctx@, s),
            r matches Err(e) ==> e == Error::ContextTooLong,
    {
        proof {
            use_type_invariant(self);
        }
        if ctx.len() > MAX_CONTEXT_LEN {
            return Err(Error::ContextTooLong);
        }
        let sk = self.expanded_key();
        let sig = sign(self.params, sk, msg, ctx);
        proof {
            if let Some(seed) = self.view().0 {
                assert(sk@ == spec_expanded_from_seed(self.params, seed));
            }
            assert forall|seed: Seq<u8>|
                seed.len() == ML_DSA_SEED_SIZE && self.view().1 == #[trigger] spec_expanded_from_seed(
                    self.params(),
                    seed,
                ) implies spec_verify_accepts(self.params(), self.spec_public(), msg@, ctx@, sig@) by {
                assert(sk@ == spec_expanded_from_seed(self.params, seed));
            }
        }
        Signature::try_from(self.params, sig.as_slice())
    }

    /// Signs `msg` with the empty context string.
    pub fn try_sign(&self, msg: &[u8]) -> (r: Result<Signature, Error>)
        ensures
            r matches Ok(s) && s.params() == self.params() && s.spec_bytes().len() == spec_signature_len(
                self.params(),
            ) && spec_signed_by(*self, msg@, Seq::empty(), s),
    {
        let empty: Vec<u8> = Vec::new();
        assert(empty@ =~= Seq::<u8>::empty());
        self.try_sign_with_ctx(msg, empty.as_slice())
    }
}

/// `sig` was made by signing `msg` under `ctx` with `sk`: it is of the
/// key's parameter set, and when the key has its seed, or its expanded form
/// is the expansion of some seed, it verifies under the key's public key.
pub open spec fn spec_signed_by(sk: PrivateKey, msg: Seq<u8>, ctx: Seq<u8>, sig: Signature) -> bool {
    &&& sig.params() == sk.params()
    &&& sk.view().0 is Some ==> spec_verify_accepts(sk.params(), sk.spec_public(), msg, ctx, sig.spec_bytes())
    &&& forall|seed: Seq<u8>|
        seed.len() == ML_DSA_SEED_SIZE && sk.view().1 == #[trigger] spec_expanded_from_seed(sk.params(), seed)
            ==> spec_verify_accepts(sk.params(), sk.spec_public(), msg, ctx, sig.spec_bytes())
}

/// A signature made with a private key that has its seed, or whose
/// expanded form is the expansion of some seed, verifies, for the message
/// and context it was made for, under the public key of that private key.
pub proof fn lemma_signature_verifies(pk: PublicKey, sk: PrivateKey, msg: Seq<u8>, ctx: Seq<u8>, sig: Signature)
    requires
        pk.params() == sk.params(),
        pk.spec_bytes() == sk.spec_public(),
        sk.view().0 is Some || exists|seed: Seq<u8>|
            seed.len() == ML_DSA_SEED_SIZE && sk.view().1 == #[trigger] spec_expanded_from_seed(sk.params(), seed),
        ctx.len() <= MAX_CONTEXT_LEN,
        spec_signed_by(sk, msg, ctx, sig),
    ensures
        pk.spec_verify_result(msg, sig, ctx) == Ok::<(), VerificationError>(()),
{
    if sk.view().0 is None {
        let seed = choose|seed: Seq<u8>|
            seed.len() == ML_DSA_SEED_SIZE && sk.view().1 == #[trigger] spec_expanded_from_seed(sk.params(), seed);
        assert(spec_verify_accepts(sk.params(), sk.spec_public(), msg, ctx, sig.spec_bytes()));
    }
}

/// Decoding an encoded private key gives the key back.
pub proof fn lemma_private_key_encode_decode(p: MlDsaParamSet, v: PrivateKeyView)
    requires
        private_view_wf(p, v),
    ensures
        spec_decode_private_key(p, spec_encode_private_key(v)) == Some(v),
{
    match v.0 {
        Some(s) => {},
        None => {
            assert(v.1.len() == spec_secret_key_len(p));
        },
    }
}

/// Decoding the DER form of a private key gives the key back.
pub proof fn lemma_private_key_der_roundtrip(p: MlDsaParamSet, v: PrivateKeyView)
    requires
        private_view_wf(p, v),
    ensures
        spec_private_key_from_der(p, spec_encode_asn_private_key(spec_asn_of_private_key(v))) == Some(v),
{
    let k = spec_asn_of_private_key(v);
    let der = spec_encode_asn_private_key(k);
    assert(asn_private_key_wf(p, k));
    let c = choose|k2: AsnPrivateKeyView| asn_private_key_wf(p, k2) && spec_encode_asn_private_key(k2) == der;
    lemma_asn_encoding_injective(p, k, c);
}

} // verus!
