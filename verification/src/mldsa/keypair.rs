//! ML-DSA key pairs as the provider's key management sees them.

use vstd::prelude::*;
use rand::rngs::ThreadRng;
use crate::error::Error;
use crate::keymgmt::{
    ParamKey, ParamSource, ParamValue, ParamValueView, SELECT_KEYPAIR, SELECT_PRIVATE_KEY, SELECT_PUBLIC_KEY,
    selects, selects_all,
};
use crate::mldsa::backend::spec_expanded_from_seed;
use crate::mldsa::keys::{PrivateKey, PublicKey, spec_encode_private_key, spec_signed_by};
use crate::mldsa::params::{MlDsaParamSet, spec_security_bits, spec_signature_len, ML_DSA_SEED_SIZE};
use crate::mldsa::signature::Signature;
use crate::random::random_bytes;
use crate::signature::VerificationError;

verus! {

/// An ML-DSA key pair: either half may be missing.
pub struct KeyPair {
    pub params: MlDsaParamSet,
    pub private: Option<PrivateKey>,
    pub public: Option<PublicKey>,
}

/// Whether two optional public keys are equal (both absent, or the same key).
pub open spec fn same_public(a: Option<PublicKey>, b: Option<PublicKey>) -> bool {
    match (a, b) {
        (None, None) => true,
        (Some(x), Some(y)) => x.params() == y.params() && x.spec_bytes() == y.spec_bytes(),
        _ => false,
    }
}

/// Whether two optional private keys are equal (both absent, or the same key).
pub open spec fn same_private(a: Option<PrivateKey>, b: Option<PrivateKey>) -> bool {
    match (a, b) {
        (None, None) => true,
        (Some(x), Some(y)) => x.params() == y.params() && x.view() == y.view(),
        _ => false,
    }
}

/// The answer of `has`: 1 when the key pair holds what `selection` asks for
/// of a key pair, 0 otherwise. A private key is only held together with a
/// public key.
pub open spec fn spec_has(kp: KeyPair, selection: i32) -> i32 {
    if !selects(selection, SELECT_KEYPAIR) {
        1
    } else if kp.public is None {
        0
    } else if selects(selection, SELECT_PRIVATE_KEY) && kp.private is None {
        0
    } else {
        1
    }
}

/// The answer of `match`: 1 when the key pairs agree on what `selection`
/// asks for. The public keys are compared when the public key is selected;
/// otherwise the private keys, when the private key is selected.
pub open spec fn spec_match(kp1: KeyPair, kp2: KeyPair, selection: i32) -> i32 {
    if !selects(selection, SELECT_KEYPAIR) {
        1
    } else if selects(selection, SELECT_PUBLIC_KEY) {
        if same_public(kp1.public, kp2.public) { 1 } else { 0 }
    } else if selects(selection, SELECT_PRIVATE_KEY) {
        if same_private(kp1.private, kp2.private) { 1 } else { 0 }
    } else {
        0
    }
}

impl KeyPair {
    pub open spec fn params(&self) -> MlDsaParamSet {
        self.params
    }

    /// An empty key pair of parameter set `p`.
    pub fn new(p: MlDsaParamSet) -> (kp: KeyPair)
        ensures
            kp.params() == p,
            kp.private is None,
            kp.public is None,
    {
        KeyPair { params: p, private: None, public: None }
    }

    /// A key pair made of the given halves.
    pub fn from_parts(p: MlDsaParamSet, private: Option<PrivateKey>, public: Option<PublicKey>) -> (kp: KeyPair)
        ensures
            kp.params() == p,
            kp.private == private,
            kp.public == public,
    {
        KeyPair { params: p, private, public }
    }

    /// The parameter set of the key pair.
    pub fn param_set(&self) -> (p: MlDsaParamSet)
        ensures
            p == self.params(),
    {
        self.params
    }

    /// Generates a fresh key pair of parameter set `p` from a random seed
    /// drawn from `rng`.
    pub fn generate(p: MlDsaParamSet, rng: &mut ThreadRng) -> (r: Result<KeyPair, Error>)
        ensures
            r is Ok,
            r matches Ok(kp) ==> {
                &&& kp.params() == p
                &&& kp.private is Some
                &&& kp.public is Some
                &&& kp.private->0.params() == p
                &&& kp.public->0.params() == p
                &&& kp.private->0.view().0 is Some
                &&& kp.private->0.view().1 == spec_expanded_from_seed(p, kp.private->0.view().0->0)
                &&& kp.public->0.spec_bytes() == kp.private->0.spec_public()
            },
    {
        let seed = random_bytes(rng, ML_DSA_SEED_SIZE);
        let sk = match PrivateKey::decode_seed(p, seed.as_slice()) {
            Ok(k) => k,
            Err(e) => {
                return Err(e);
            },
        };
        let pk = match sk.derive_public_key() {
            Some(k) => k,
            None => {
                return Err(Error::InvalidKey);
            },
        };
        Ok(KeyPair { params: p, private: Some(sk), public: Some(pk) })
    }

    /// Signs `msg` with the private key.
    pub fn try_sign(&self, msg: &[u8]) -> (r: Result<Signature, Error>)
        ensures
            r is Ok <==> self.private is Some,
            r matches Err(e) ==> e == Error::MissingPrivateKey,
            r matches Ok(s) ==> s.params() == self.private->0.params() && s.spec_bytes().len()
                == spec_signature_len(self.private->0.params()) && spec_signed_by(
                self.private->0,
                msg@,
                Seq::empty(),
                s,
            ),
    {
        match &self.private {
            Some(sk) => sk.try_sign(msg),
            None => Err(Error::MissingPrivateKey),
        }
    }

    /// Verifies `sig` on `msg` with the public key.
    pub fn verify(&self, msg: &[u8], sig: &Signature) -> (r: Result<(), VerificationError>)
        ensures
            self.public is None ==> r == Err::<(), VerificationError>(VerificationError::GenericVerificationError),
            self.public matches Some(pk) ==> r == pk.spec_verify_result(msg@, *sig, Seq::empty()),
    {
        match &self.public {
            Some(pk) => pk.verify(msg, sig),
            None => Err(VerificationError::GenericVerificationError),
        }
    }

    /// Whether the key pair holds what `selection` asks for (1) or not (0).
    pub fn has(&self, selection: i32) -> (r: i32)
        requires
            selection >= 0,
        ensures
            r == spec_has(*self, selection),
            selection & SELECT_PRIVATE_KEY != 0 && self.private is None ==> r == 0,
            (r == 1) == ((selection & SELECT_PRIVATE_KEY != 0 ==> self.private is Some && self.public is Some) && (
            selection & SELECT_PUBLIC_KEY != 0 ==> self.public is Some)),
    {
        proof {
            lemma_has_exactly_selected(*self, selection);
        }
        if selection & SELECT_KEYPAIR == 0 {
            return 1;
        }
        if self.public.is_none() {
            return 0;
        }
        if selection & SELECT_PRIVATE_KEY != 0 && self.private.is_none() {
            return 0;
        }
        1
    }

    /// Whether two key pairs agree on what `selection` asks for (1) or not (0).
    pub fn match_(kp1: &KeyPair, kp2: &KeyPair, selection: i32) -> (r: i32)
        ensures
            r == spec_match(*kp1, *kp2, selection),
            selection & SELECT_PUBLIC_KEY != 0 ==> (r == 1) == same_public(kp1.public, kp2.public),
            selection & SELECT_PUBLIC_KEY == 0 && selection & SELECT_PRIVATE_KEY != 0 ==> (r == 1) == same_private(
                kp1.private,
                kp2.private,
            ),
            selection & SELECT_KEYPAIR == 0 ==> r == 1,
    {
        proof {
            lemma_match_compares_public(*kp1, *kp2, selection);
            lemma_match_compares_private(*kp1, *kp2, selection);
            lemma_match_without_keys(*kp1, *kp2, selection);
        }
        let mut key_checked = false;
        if selection & SELECT_KEYPAIR != 0 {
            if selection & SELECT_PUBLIC_KEY != 0 {
                let same = match (&kp1.public, &kp2.public) {
                    (None, None) => true,
                    (Some(a), Some(b)) => a.same_key(b),
                    _ => false,
                };
                if !same {
                    return 0;
                }
                key_checked = true;
            }
            if !key_checked && selection & SELECT_PRIVATE_KEY != 0 {
                let same = match (&kp1.private, &kp2.private) {
                    (None, None) => true,
                    (Some(a), Some(b)) => a.same_key(b),
                    _ => false,
                };
                if !same {
                    return 0;
                }
                key_checked = true;
            }
            return if key_checked { 1 } else { 0 };
        }
        1
    }

    /// What an export with `selection` hands out: the encoded private key
    /// under `PrivateKey` when the private key is selected and present, else
    /// the encoded public key under `PublicKey` when the private key is not
    /// selected and the public key is present. `None` is a failed export.
    pub fn export_key(&self, selection: i32) -> (r: Option<(ParamKey, Vec<u8>)>)
        ensures
            !selects(selection, SELECT_KEYPAIR) ==> r is None,
            selects(selection, SELECT_KEYPAIR) && selects(selection, SELECT_PRIVATE_KEY) ==> match self.private {
                Some(sk) => r matches Some((k, v)) && k == ParamKey::PrivateKey && v@ == spec_encode_private_key(
                    sk.view(),
                ),
                None => r is None,
            },
            selects(selection, SELECT_KEYPAIR) && !selects(selection, SELECT_PRIVATE_KEY) ==> match self.public {
                Some(pk) => r matches Some((k, v)) && k == ParamKey::PublicKey && v@ == pk.spec_bytes(),
                None => r is None,
            },
    {
        if selection & SELECT_KEYPAIR == 0 {
            return None;
        }
        let include_private = selection & SELECT_PRIVATE_KEY != 0;
        if include_private {
            match &self.private {
                Some(sk) => Some((ParamKey::PrivateKey, sk.encode())),
                None => None,
            }
        } else {
            match &self.public {
                Some(pk) => Some((ParamKey::PublicKey, pk.encode())),
                None => None,
            }
        }
    }
}

/// A key generation request: the parameter set and the key selection it
/// was made with.
#[derive(Debug, Clone, Copy)]
pub struct GenCtx {
    pub params: MlDsaParamSet,
    pub selection: i32,
}

impl GenCtx {
    pub fn new(params: MlDsaParamSet, selection: i32) -> (g: GenCtx)
        ensures
            g.params == params,
            g.selection == selection,
    {
        GenCtx { params, selection }
    }

    /// Generates a key pair when the selection asks for both keys; otherwise
    /// hands out an empty key pair.
    pub fn generate(&self, rng: &mut ThreadRng) -> (r: Result<KeyPair, Error>)
        ensures
            r matches Ok(kp) && kp.params() == self.params,
            !selects_all(self.selection, SELECT_KEYPAIR) ==> (r matches Ok(kp) && kp.private is None
                && kp.public is None),
            selects_all(self.selection, SELECT_KEYPAIR) ==> (r matches Ok(kp) && kp.private is Some
                && kp.public is Some),
    {
        if self.selection & SELECT_KEYPAIR != SELECT_KEYPAIR {
            return Ok(KeyPair::new(self.params));
        }
        KeyPair::generate(self.params, rng)
    }

    /// The generation parameters a request may set: none.
    pub fn settable_params() -> (v: Vec<ParamKey>)
        ensures
            v@ == Seq::<ParamKey>::empty(),
    {
        Vec::new()
    }
}

impl KeyPair {
    /// Generates a fresh key pair of parameter set `p` with randomness from
    /// `rng`.
    pub fn generate_new(p: MlDsaParamSet, rng: &mut ThreadRng) -> (r: Result<KeyPair, Error>)
        ensures
            r matches Ok(kp) && kp.params() == p && kp.private is Some && kp.public is Some,
    {
        let genctx = GenCtx::new(p, SELECT_KEYPAIR);
        assert(SELECT_KEYPAIR & SELECT_KEYPAIR == SELECT_KEYPAIR) by (bit_vector);
        genctx.generate(rng)
    }

    /// The key parameters a request may ask for.
    pub fn gettable_params() -> (v: Vec<ParamKey>)
        ensures
            v@ == seq![ParamKey::Bits, ParamKey::MaxSize, ParamKey::SecurityBits, ParamKey::MandatoryDigest],
    {
        vec![ParamKey::Bits, ParamKey::MaxSize, ParamKey::SecurityBits, ParamKey::MandatoryDigest]
    }

    /// The key parameters a request may set: none.
    pub fn settable_params() -> (v: Vec<ParamKey>)
        ensures
            v@ == Seq::<ParamKey>::empty(),
    {
        Vec::new()
    }

    /// The key parameters an import with `selection` takes: the public and
    /// the private key, when the selection asks for either; none otherwise.
    pub fn import_types_ex(selection: i32) -> (r: Option<Vec<ParamKey>>)
        ensures
            selects(selection, SELECT_KEYPAIR) ==> (r matches Some(v) && v@ == seq![
                ParamKey::PublicKey,
                ParamKey::PrivateKey,
            ]),
            !selects(selection, SELECT_KEYPAIR) ==> r is None,
    {
        if selection & SELECT_KEYPAIR != 0 {
            Some(vec![ParamKey::PublicKey, ParamKey::PrivateKey])
        } else {
            None
        }
    }

    /// Checks the parameters of a set request. None of them is settable, so
    /// each is ignored and the key pair stays as it is; a parameter without
    /// a key fails the request.
    pub fn set_params(&mut self, requested: &Vec<(Option<String>, Option<Vec<u8>>)>) -> (r: Result<(), Error>)
        ensures
            *final(self) == *old(self),
            r is Ok <==> forall|i: int| 0 <= i < requested@.len() ==> (#[trigger] requested@[i]).0 is Some,
            r is Err ==> r == Err::<(), Error>(Error::MissingParamKey),
    {
        let mut i: usize = 0;
        let mut result: Result<(), Error> = Ok(());
        while i < requested.len()
            invariant_except_break
                i <= requested@.len(),
                result is Ok,
                forall|j: int| 0 <= j < i ==> (#[trigger] requested@[j]).0 is Some,
            ensures
                result is Ok <==> forall|j: int| 0 <= j < requested@.len() ==> (#[trigger] requested@[j]).0 is Some,
                result is Err ==> result == Err::<(), Error>(Error::MissingParamKey),
            decreases requested@.len() - i,
        {
            if requested[i].0.is_none() {
                result = Err(Error::MissingParamKey);
                break;
            }
            i = i + 1;
        }
        result
    }
}

impl ParamSource for KeyPair {
    /// The security strength for `Bits` and `SecurityBits`, the signature
    /// length for `MaxSize`, and the empty digest name for `MandatoryDigest`.
    open spec fn spec_param(&self, key: ParamKey) -> Option<ParamValueView> {
        match key {
            ParamKey::Bits | ParamKey::SecurityBits => Some(
                ParamValueView::Int(spec_security_bits(self.params()) as i32),
            ),
            ParamKey::MaxSize => Some(ParamValueView::Int(spec_signature_len(self.params()) as i32)),
            ParamKey::MandatoryDigest => Some(ParamValueView::Utf8(Seq::empty())),
            _ => None,
        }
    }

    open spec fn answers_params(&self) -> bool {
        true
    }

    /// The value of key parameter `key`, if it is one the key pair answers.
    fn get_param(&self, key: ParamKey) -> (v: Option<ParamValue>) {
        proof {
            reveal_strlit("");
        }
        match key {
            ParamKey::Bits | ParamKey::SecurityBits => Some(ParamValue::Int(self.params.security_bits() as i32)),
            ParamKey::MaxSize => Some(ParamValue::Int(self.params.signature_len() as i32)),
            ParamKey::MandatoryDigest => Some(ParamValue::Utf8("")),
            _ => None,
        }
    }
}

/// A selection that names a key names the public or the private key.
proof fn lemma_keypair_bits(selection: i32)
    ensures
        selects(selection, SELECT_KEYPAIR) ==> selects(selection, SELECT_PUBLIC_KEY) || selects(
            selection,
            SELECT_PRIVATE_KEY,
        ),
{
    assert(selection & 3 != 0 ==> selection & 2 != 0 || selection & 1 != 0) by (bit_vector);
}

/// Every key pair matches itself, whatever the selection.
pub proof fn lemma_match_reflexive(kp: KeyPair, selection: i32)
    ensures
        spec_match(kp, kp, selection) == 1,
{
    lemma_keypair_bits(selection);
}

/// Whether two key pairs match does not depend on their order.
pub proof fn lemma_match_symmetric(kp1: KeyPair, kp2: KeyPair, selection: i32)
    ensures
        spec_match(kp1, kp2, selection) == spec_match(kp2, kp1, selection),
{
}

/// A key pair that holds both keys has whatever a selection asks for.
pub proof fn lemma_full_keypair_has_all(kp: KeyPair, selection: i32)
    requires
        kp.private is Some,
        kp.public is Some,
    ensures
        spec_has(kp, selection) == 1,
{
}

/// `has` answers 1 exactly when the key pair holds every key the selection
/// names: the private key (which comes with a public key) when the private
/// bit is set, the public key when the public bit is set.
pub proof fn lemma_has_exactly_selected(kp: KeyPair, selection: i32)
    ensures
        spec_has(kp, selection) == 0 || spec_has(kp, selection) == 1,
        (spec_has(kp, selection) == 1) == ((selection & SELECT_PRIVATE_KEY != 0 ==> kp.private is Some
            && kp.public is Some) && (selection & SELECT_PUBLIC_KEY != 0 ==> kp.public is Some)),
{
    assert(selection & 3 != 0 <==> selection & 1 != 0 || selection & 2 != 0) by (bit_vector);
}

/// When the selection names the public key, two key pairs match exactly
/// when their public keys are equal (or both absent), whatever their
/// private keys.
pub proof fn lemma_match_compares_public(kp1: KeyPair, kp2: KeyPair, selection: i32)
    ensures
        selection & SELECT_PUBLIC_KEY != 0 ==> (spec_match(kp1, kp2, selection) == 1) == same_public(
            kp1.public,
            kp2.public,
        ),
        spec_match(kp1, kp2, selection) == 0 || spec_match(kp1, kp2, selection) == 1,
{
    assert(selection & 2 != 0 ==> selection & 3 != 0) by (bit_vector);
}

/// When the selection names the private key but not the public key, two
/// key pairs match exactly when their private keys are equal (or both
/// absent).
pub proof fn lemma_match_compares_private(kp1: KeyPair, kp2: KeyPair, selection: i32)
    ensures
        selection & SELECT_PUBLIC_KEY == 0 && selection & SELECT_PRIVATE_KEY != 0 ==> (spec_match(
            kp1,
            kp2,
            selection,
        ) == 1) == same_private(kp1.private, kp2.private),
{
    assert(selection & 1 != 0 ==> selection & 3 != 0) by (bit_vector);
}

/// When the selection names no key, any two key pairs match.
pub proof fn lemma_match_without_keys(kp1: KeyPair, kp2: KeyPair, selection: i32)
    ensures
        selection & SELECT_KEYPAIR == 0 ==> spec_match(kp1, kp2, selection) == 1,
{
}

/// A key pair matches the public-only key pair holding its public key, for
/// every selection that names the public key: a certificate's key is
/// matched to its private key this way.
pub proof fn lemma_matches_own_public_part(kp: KeyPair, selection: i32)
    requires
        selection & SELECT_PUBLIC_KEY != 0,
    ensures
        spec_match(kp, KeyPair { params: kp.params, private: None, public: kp.public }, selection) == 1,
{
    lemma_match_compares_public(kp, KeyPair { params: kp.params, private: None, public: kp.public }, selection);
}

/// The strength parameters of a key pair are those of its own parameter
/// set: `bits` and `security-bits` are both 128 for ML-DSA-44 and 192 for
/// ML-DSA-65, and `max-size` is the signature length, 2420 and 3309.
pub proof fn lemma_strength_params(kp: KeyPair)
    ensures
        kp.spec_param(ParamKey::SecurityBits) == kp.spec_param(ParamKey::Bits),
        kp.params() == MlDsaParamSet::MlDsa44 ==> kp.spec_param(ParamKey::SecurityBits) == Some(
            ParamValueView::Int(128),
        ) && kp.spec_param(ParamKey::MaxSize) == Some(ParamValueView::Int(2420)),
        kp.params() == MlDsaParamSet::MlDsa65 ==> kp.spec_param(ParamKey::SecurityBits) == Some(
            ParamValueView::Int(192),
        ) && kp.spec_param(ParamKey::MaxSize) == Some(ParamValueView::Int(3309)),
{
}

} // verus!
