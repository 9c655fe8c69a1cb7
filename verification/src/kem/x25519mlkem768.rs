//! The X25519MLKEM768 hybrid KEM: every public key, private key, ciphertext
//! and shared secret is the ML-KEM-768 share followed by the X25519 share.

use vstd::prelude::*;
use rand::rngs::ThreadRng;
use crate::der::{copy_range, extend_bytes};
use crate::error::Error;
use crate::kem::backend::{
    KemAlgorithm, kem_decapsulate, kem_decapsulation, kem_encapsulate, kem_key_gen,
    kem_public_key_accepted, kem_public_key_check, spec_kem_private_key_len, x25519_public_of,
};
use crate::kem::traits::{Decapsulate, Encapsulate};
use crate::keymgmt::{
    ParamKey, ParamSource, ParamValue, ParamValueView, SELECT_KEYPAIR, selects, selects_all,
    spec_key_of_name,
};
use crate::random::provider_rng;

verus! {

/// Length of the ML-KEM-768 share of a public key.
pub const MLKEM_PUBLIC_KEY_LEN: usize = 1184;
/// Length of the X25519 share of a public key.
pub const EC_PUBLIC_KEY_LEN: usize = 32;
/// Length of the ML-KEM-768 share of a ciphertext.
pub const MLKEM_CIPHERTEXT_LEN: usize = 1088;
/// Length of the X25519 share of a ciphertext.
pub const EC_CIPHERTEXT_LEN: usize = 32;
/// Length of the ML-KEM-768 share of a shared secret.
pub const MLKEM_SHARED_SECRET_LEN: usize = 32;
/// Length of the X25519 share of a shared secret.
pub const EC_SHARED_SECRET_LEN: usize = 32;

/// An encapsulated key (ciphertext) of the hybrid.
pub type EncapsulatedKey = Vec<u8>;
/// A shared secret of the hybrid.
pub type SharedSecret = Vec<u8>;

/// The shares an encoded hybrid public key decodes to, ML-KEM-768 first:
/// the key must be 1216 bytes long and both component decoders must accept
/// their share.
pub open spec fn spec_decode_public_key(bytes: Seq<u8>) -> Option<(Seq<u8>, Seq<u8>)> {
    if bytes.len() != MLKEM_PUBLIC_KEY_LEN + EC_PUBLIC_KEY_LEN {
        None
    } else {
        let m = bytes.subrange(0, MLKEM_PUBLIC_KEY_LEN as int);
        let e = bytes.subrange(MLKEM_PUBLIC_KEY_LEN as int, bytes.len() as int);
        if kem_public_key_accepted(KemAlgorithm::MlKem768, m) && kem_public_key_accepted(KemAlgorithm::X25519, e) {
            Some((m, e))
        } else {
            None
        }
    }
}

/// The hybrid shared secret that decapsulating `ct` with the private key
/// shares `sk_mlkem` and `sk_ec` yields: the ciphertext must be 1120 bytes
/// long; its first 1088 bytes are decapsulated by ML-KEM-768 and its last
/// 32 by X25519, and the two 32-byte secrets are concatenated.
pub open spec fn spec_decapsulate(ct: Seq<u8>, sk_mlkem: Seq<u8>, sk_ec: Seq<u8>) -> Option<Seq<u8>> {
    if ct.len() != MLKEM_CIPHERTEXT_LEN + EC_CIPHERTEXT_LEN {
        None
    } else {
        let m = kem_decapsulation(
            KemAlgorithm::MlKem768,
            ct.subrange(0, MLKEM_CIPHERTEXT_LEN as int),
            sk_mlkem,
        );
        let e = kem_decapsulation(
            KemAlgorithm::X25519,
            ct.subrange(MLKEM_CIPHERTEXT_LEN as int, ct.len() as int),
            sk_ec,
        );
        match (m, e) {
            (Some(a), Some(b)) => if a.len() == MLKEM_SHARED_SECRET_LEN && b.len() == EC_SHARED_SECRET_LEN {
                Some(a + b)
            } else {
                None
            },
            _ => None,
        }
    }
}

/// Decapsulating the X25519 share of the ciphertext `ct` with any private
/// X25519 key whose public key is `pk_ec` gives the X25519 share of the
/// shared secret `ss`.
pub open spec fn x25519_share_decapsulates(pk_ec: Seq<u8>, ct: Seq<u8>, ss: Seq<u8>) -> bool {
    forall|sk_ec: Seq<u8>|
        sk_ec.len() == 32 && #[trigger] x25519_public_of(sk_ec) == pk_ec ==> kem_decapsulation(
            KemAlgorithm::X25519,
            ct.subrange(MLKEM_CIPHERTEXT_LEN as int, ct.len() as int),
            sk_ec,
        ) == Some(ss.subrange(MLKEM_SHARED_SECRET_LEN as int, ss.len() as int))
}

/// An encapsulation result, seen as values.
pub open spec fn encapsulation_view(r: Result<(EncapsulatedKey, SharedSecret), Error>) -> Result<
    (Seq<u8>, Seq<u8>),
    Error,
> {
    match r {
        Ok((ct, ss)) => Ok((ct@, ss@)),
        Err(e) => Err(e),
    }
}

/// What encapsulating to the public key `pk` may give: a ciphertext of
/// 1088 + 32 bytes and a shared secret of 32 + 32 bytes, the ML-KEM-768
/// share first, to a key whose shares both decode, and whose X25519 half
/// any holder of the X25519 private key decapsulates; or `InvalidKey`
/// exactly when a share does not decode, and `Backend` otherwise.
pub open spec fn spec_encapsulation_outcome(pk: PublicKey, r: Result<(Seq<u8>, Seq<u8>), Error>) -> bool {
    let accepted = kem_public_key_accepted(KemAlgorithm::MlKem768, pk.mlkem_share@) && kem_public_key_accepted(
        KemAlgorithm::X25519,
        pk.ec_share@,
    );
    match r {
        Ok((ct, ss)) => {
            &&& ct.len() == MLKEM_CIPHERTEXT_LEN + EC_CIPHERTEXT_LEN
            &&& ss.len() == MLKEM_SHARED_SECRET_LEN + EC_SHARED_SECRET_LEN
            &&& accepted
            &&& x25519_share_decapsulates(pk.ec_share@, ct, ss)
        },
        Err(e) => (e == Error::InvalidKey <==> !accepted) && (e == Error::InvalidKey || e == Error::Backend),
    }
}

fn concat(a: &[u8], b: &[u8]) -> (out: Vec<u8>)
    ensures
        out@ == a@ + b@,
{
    let mut out = copy_range(a, 0, a.len());
    assert(out@ =~= a@);
    extend_bytes(&mut out, b);
    out
}

/// A hybrid public key.
#[derive(Debug)]
pub struct PublicKey {
    pub ec_share: Vec<u8>,
    pub mlkem_share: Vec<u8>,
}

/// A hybrid private key.
pub struct PrivateKey {
    pub ec_share: Vec<u8>,
    pub mlkem_share: Vec<u8>,
}

impl PublicKey {
    /// Decodes an encoded hybrid public key.
    pub fn decode(bytes: &[u8]) -> (r: Result<PublicKey, Error>)
        ensures
            r is Ok <==> spec_decode_public_key(bytes@) is Some,
            r matches Ok(k) ==> spec_decode_public_key(bytes@) == Some((k.mlkem_share@, k.ec_share@)),
            bytes@.len() != MLKEM_PUBLIC_KEY_LEN + EC_PUBLIC_KEY_LEN ==> r == Err::<PublicKey, Error>(
                Error::LengthMismatch {
                    expected: (MLKEM_PUBLIC_KEY_LEN + EC_PUBLIC_KEY_LEN) as usize,
                    actual: bytes@.len() as usize,
                },
            ),
            r matches Err(e) ==> e == spec_public_key_decode_error(bytes@),
    {
        let expected = MLKEM_PUBLIC_KEY_LEN + EC_PUBLIC_KEY_LEN;
        if bytes.len() != expected {
            return Err(Error::LengthMismatch { expected, actual: bytes.len() });
        }
        let mlkem = copy_range(bytes, 0, MLKEM_PUBLIC_KEY_LEN);
        let ec = copy_range(bytes, MLKEM_PUBLIC_KEY_LEN, bytes.len());
        if !kem_public_key_check(KemAlgorithm::MlKem768, mlkem.as_slice()) {
            return Err(Error::InvalidKey);
        }
        if !kem_public_key_check(KemAlgorithm::X25519, ec.as_slice()) {
            return Err(Error::InvalidKey);
        }
        Ok(PublicKey { mlkem_share: mlkem, ec_share: ec })
    }

    /// Encodes the key: the ML-KEM-768 share, then the X25519 share.
    pub fn encode(&self) -> (out: Vec<u8>)
        ensures
            out@ == self.mlkem_share@ + self.ec_share@,
    {
        concat(self.mlkem_share.as_slice(), self.ec_share.as_slice())
    }

    /// Encapsulates to this key with randomness from `rng`: ML-KEM-768
    /// first, then X25519. The ciphertext and the shared secret are the two
    /// components' ones concatenated. A share its decoder rejects gives
    /// `InvalidKey`; with both shares accepted, only the X25519 step can
    /// fail, with `Backend`.
    pub fn encapsulate_to(&self, rng: &mut ThreadRng) -> (r: Result<(EncapsulatedKey, SharedSecret), Error>)
        ensures
            r == Err::<(EncapsulatedKey, SharedSecret), Error>(Error::InvalidKey) <==> !(kem_public_key_accepted(
                KemAlgorithm::MlKem768,
                self.mlkem_share@,
            ) && kem_public_key_accepted(KemAlgorithm::X25519, self.ec_share@)),
            r matches Err(e) ==> e == Error::InvalidKey || e == Error::Backend,
            spec_encapsulation_outcome(*self, encapsulation_view(r)),
            r matches Ok((ct, ss)) ==> ct@.len() == MLKEM_CIPHERTEXT_LEN + EC_CIPHERTEXT_LEN && ss@.len()
                == MLKEM_SHARED_SECRET_LEN + EC_SHARED_SECRET_LEN && kem_public_key_accepted(
                KemAlgorithm::MlKem768,
                self.mlkem_share@,
            ) && kem_public_key_accepted(KemAlgorithm::X25519, self.ec_share@)
                && x25519_share_decapsulates(self.ec_share@, ct@, ss@),
    {
        let (mlkem_ss, mlkem_ct) = match kem_encapsulate(KemAlgorithm::MlKem768, self.mlkem_share.as_slice(), rng) {
            Ok(x) => x,
            Err(e) => {
                return Err(e);
            },
        };
        let (ec_ss, ec_ct) = match kem_encapsulate(KemAlgorithm::X25519, self.ec_share.as_slice(), rng) {
            Ok(x) => x,
            Err(e) => {
                return Err(e);
            },
        };
        let ss = InnerSharedSecret { ec_share: ec_ss, mlkem_share: mlkem_ss }.encode();
        let ct = InnerEncapsulatedKey { ec_share: ec_ct, mlkem_share: mlkem_ct }.encode();
        assert(ct@.subrange(MLKEM_CIPHERTEXT_LEN as int, ct@.len() as int) =~= ec_ct@);
        assert(ss@.subrange(MLKEM_SHARED_SECRET_LEN as int, ss@.len() as int) =~= ec_ss@);
        Ok((ct, ss))
    }
}

impl Encapsulate<EncapsulatedKey, SharedSecret> for PublicKey {
    type Error = Error;

    fn encapsulate(&self, rng: &mut ThreadRng) -> (r: Result<(EncapsulatedKey, SharedSecret), Error>)
        ensures
            r matches Ok((ct, ss)) ==> ct@.len() == MLKEM_CIPHERTEXT_LEN + EC_CIPHERTEXT_LEN && ss@.len()
                == MLKEM_SHARED_SECRET_LEN + EC_SHARED_SECRET_LEN && x25519_share_decapsulates(
                self.ec_share@,
                ct@,
                ss@,
            ),
            r == Err::<(EncapsulatedKey, SharedSecret), Error>(Error::InvalidKey) <==> !(kem_public_key_accepted(
                KemAlgorithm::MlKem768,
                self.mlkem_share@,
            ) && kem_public_key_accepted(KemAlgorithm::X25519, self.ec_share@)),
            r matches Err(e) ==> e == Error::InvalidKey || e == Error::Backend,
    {
        self.encapsulate_to(rng)
    }
}

impl PrivateKey {
    /// Encodes the key: the ML-KEM-768 share, then the X25519 share.
    pub fn encode(&self) -> (out: Vec<u8>)
        ensures
            out@ == self.mlkem_share@ + self.ec_share@,
    {
        concat(self.mlkem_share.as_slice(), self.ec_share.as_slice())
    }
}

/// A decoded hybrid ciphertext.
#[derive(Debug)]
pub struct InnerEncapsulatedKey {
    pub ec_share: Vec<u8>,
    pub mlkem_share: Vec<u8>,
}

/// A hybrid shared secret, by component.
pub struct InnerSharedSecret {
    pub ec_share: Vec<u8>,
    pub mlkem_share: Vec<u8>,
}

impl InnerEncapsulatedKey {
    /// Encodes the ciphertext: the ML-KEM-768 share, then the X25519 share.
    pub fn encode(&self) -> (out: Vec<u8>)
        ensures
            out@ == self.mlkem_share@ + self.ec_share@,
    {
        concat(self.mlkem_share.as_slice(), self.ec_share.as_slice())
    }

    /// Splits an encoded ciphertext, which must be 1120 bytes long, into its
    /// shares.
    pub fn decode(bytes: &[u8]) -> (r: Result<InnerEncapsulatedKey, Error>)
        ensures
            r is Ok <==> bytes@.len() == MLKEM_CIPHERTEXT_LEN + EC_CIPHERTEXT_LEN,
            r matches Ok(c) ==> c.mlkem_share@ == bytes@.subrange(0, MLKEM_CIPHERTEXT_LEN as int)
                && c.ec_share@ == bytes@.subrange(MLKEM_CIPHERTEXT_LEN as int, bytes@.len() as int),
            r matches Err(e) ==> e == (Error::LengthMismatch {
                expected: (MLKEM_CIPHERTEXT_LEN + EC_CIPHERTEXT_LEN) as usize,
                actual: bytes@.len() as usize,
            }),
    {
        let expected = MLKEM_CIPHERTEXT_LEN + EC_CIPHERTEXT_LEN;
        if bytes.len() != expected {
            return Err(Error::LengthMismatch { expected, actual: bytes.len() });
        }
        let mlkem = copy_range(bytes, 0, MLKEM_CIPHERTEXT_LEN);
        let ec = copy_range(bytes, MLKEM_CIPHERTEXT_LEN, bytes.len());
        Ok(InnerEncapsulatedKey { mlkem_share: mlkem, ec_share: ec })
    }

    /// Decapsulates each share with the matching private key share.
    pub fn decapsulate(&self, sk: &PrivateKey) -> (r: Result<InnerSharedSecret, Error>)
        ensures
            r is Ok <==> kem_decapsulation(KemAlgorithm::MlKem768, self.mlkem_share@, sk.mlkem_share@) is Some
                && kem_decapsulation(KemAlgorithm::X25519, self.ec_share@, sk.ec_share@) is Some,
            r matches Ok(s) ==> Some(s.mlkem_share@) == kem_decapsulation(
                KemAlgorithm::MlKem768,
                self.mlkem_share@,
                sk.mlkem_share@,
            ) && Some(s.ec_share@) == kem_decapsulation(KemAlgorithm::X25519, self.ec_share@, sk.ec_share@)
                && s.mlkem_share@.len() == MLKEM_SHARED_SECRET_LEN && s.ec_share@.len() == EC_SHARED_SECRET_LEN,
            r matches Err(e) ==> e == Error::Backend,
    {
        let mlkem_share = match kem_decapsulate(
            KemAlgorithm::MlKem768,
            self.mlkem_share.as_slice(),
            sk.mlkem_share.as_slice(),
        ) {
            Some(s) => s,
            None => {
                return Err(Error::Backend);
            },
        };
        let ec_share = match kem_decapsulate(KemAlgorithm::X25519, self.ec_share.as_slice(), sk.ec_share.as_slice()) {
            Some(s) => s,
            None => {
                return Err(Error::Backend);
            },
        };
        Ok(InnerSharedSecret { ec_share, mlkem_share })
    }
}

impl InnerSharedSecret {
    /// Encodes the secret: the ML-KEM-768 share, then the X25519 share.
    pub fn encode(&self) -> (out: Vec<u8>)
        ensures
            out@ == self.mlkem_share@ + self.ec_share@,
    {
        concat(self.mlkem_share.as_slice(), self.ec_share.as_slice())
    }
}

/// A hybrid key pair: either half may be missing.
pub struct KeyPair {
    pub private: Option<PrivateKey>,
    pub public: Option<PublicKey>,
}

impl KeyPair {
    /// An empty key pair.
    pub fn new() -> (kp: KeyPair)
        ensures
            kp.private is None,
            kp.public is None,
    {
        KeyPair { private: None, public: None }
    }

    /// Generates a fresh key pair: an X25519 key pair, then an ML-KEM-768
    /// one, with randomness from `rng`. Only the X25519 step can fail, with
    /// `Backend`.
    pub fn generate(rng: &mut ThreadRng) -> (r: Result<KeyPair, Error>)
        ensures
            r matches Ok(kp) ==> kp.private matches Some(sk) && kp.public matches Some(pk) && sk.mlkem_share@.len()
                == spec_kem_private_key_len(KemAlgorithm::MlKem768) && sk.ec_share@.len()
                == spec_kem_private_key_len(KemAlgorithm::X25519) && pk.mlkem_share@.len() == MLKEM_PUBLIC_KEY_LEN
                && pk.ec_share@.len() == EC_PUBLIC_KEY_LEN && pk.ec_share@ == x25519_public_of(sk.ec_share@),
            r matches Err(e) ==> e == Error::Backend,
    {
        let (ec_priv, ec_pub) = match kem_key_gen(KemAlgorithm::X25519, rng) {
            Ok(k) => k,
            Err(e) => {
                return Err(e);
            },
        };
        let (mlkem_priv, mlkem_pub) = match kem_key_gen(KemAlgorithm::MlKem768, rng) {
            Ok(k) => k,
            Err(e) => {
                return Err(e);
            },
        };
        Ok(KeyPair {
            private: Some(PrivateKey { ec_share: ec_priv, mlkem_share: mlkem_priv }),
            public: Some(PublicKey { ec_share: ec_pub, mlkem_share: mlkem_pub }),
        })
    }

    /// Decapsulates `encapsulated_key` with the private key.
    pub fn decapsulate_key(&self, encapsulated_key: &[u8]) -> (r: Result<SharedSecret, Error>)
        ensures
            encapsulated_key@.len() != MLKEM_CIPHERTEXT_LEN + EC_CIPHERTEXT_LEN ==> r is Err,
            encapsulated_key@.len() == MLKEM_CIPHERTEXT_LEN + EC_CIPHERTEXT_LEN && self.private is None ==> r
                == Err::<SharedSecret, Error>(Error::MissingPrivateKey),
            self.private matches Some(sk) ==> match spec_decapsulate(
                encapsulated_key@,
                sk.mlkem_share@,
                sk.ec_share@,
            ) {
                Some(ss) => r matches Ok(out) && out@ == ss,
                None => r is Err,
            },
    {
        let ek = match InnerEncapsulatedKey::decode(encapsulated_key) {
            Ok(k) => k,
            Err(e) => {
                return Err(e);
            },
        };
        match &self.private {
            Some(sk) => {
                let ss = match ek.decapsulate(sk) {
                    Ok(s) => s,
                    Err(e) => {
                        return Err(e);
                    },
                };
                Ok(ss.encode())
            },
            None => Err(Error::MissingPrivateKey),
        }
    }

    /// Encapsulates to the public key with randomness from `rng`.
    pub fn encapsulate_to(&self, rng: &mut ThreadRng) -> (r: Result<(EncapsulatedKey, SharedSecret), Error>)
        ensures
            self.public is None ==> r == Err::<(EncapsulatedKey, SharedSecret), Error>(Error::MissingPublicKey),
            self.public matches Some(pk) ==> spec_encapsulation_outcome(pk, encapsulation_view(r)),
            r matches Ok((ct, ss)) ==> ct@.len() == MLKEM_CIPHERTEXT_LEN + EC_CIPHERTEXT_LEN && ss@.len()
                == MLKEM_SHARED_SECRET_LEN + EC_SHARED_SECRET_LEN,
    {
        match &self.public {
            Some(pk) => pk.encapsulate_to(rng),
            None => Err(Error::MissingPublicKey),
        }
    }

    /// Encapsulates to the public key with the provider's random number
    /// generator.
    pub fn encapsulate_ex(&self) -> (r: Result<(EncapsulatedKey, SharedSecret), Error>)
        ensures
            self.public is None ==> r == Err::<(EncapsulatedKey, SharedSecret), Error>(Error::MissingPublicKey),
            self.public matches Some(pk) ==> spec_encapsulation_outcome(pk, encapsulation_view(r)),
            r matches Ok((ct, ss)) ==> ct@.len() == MLKEM_CIPHERTEXT_LEN + EC_CIPHERTEXT_LEN && ss@.len()
                == MLKEM_SHARED_SECRET_LEN + EC_SHARED_SECRET_LEN,
    {
        let mut rng = provider_rng();
        self.encapsulate_to(&mut rng)
    }

    /// The length of a ciphertext.
    pub fn expected_ct_size(&self) -> (r: Result<usize, Error>)
        ensures
            r == Ok::<usize, Error>((EC_CIPHERTEXT_LEN + MLKEM_CIPHERTEXT_LEN) as usize),
    {
        Ok(EC_CIPHERTEXT_LEN + MLKEM_CIPHERTEXT_LEN)
    }

    /// The length of a shared secret.
    pub fn expected_ss_size(&self) -> (r: Result<usize, Error>)
        ensures
            r == Ok::<usize, Error>((MLKEM_SHARED_SECRET_LEN + EC_SHARED_SECRET_LEN) as usize),
    {
        Ok(MLKEM_SHARED_SECRET_LEN + EC_SHARED_SECRET_LEN)
    }
}

impl Decapsulate<EncapsulatedKey, SharedSecret> for KeyPair {
    type Error = Error;

    fn decapsulate(&self, encapsulated_key: &EncapsulatedKey) -> (r: Result<SharedSecret, Error>)
        ensures
            self.private matches Some(sk) ==> match spec_decapsulate(
                encapsulated_key@,
                sk.mlkem_share@,
                sk.ec_share@,
            ) {
                Some(ss) => r matches Ok(out) && out@ == ss,
                None => r is Err,
            },
            self.private is None ==> r is Err,
    {
        self.decapsulate_key(encapsulated_key.as_slice())
    }
}

impl Encapsulate<EncapsulatedKey, SharedSecret> for KeyPair {
    type Error = Error;

    fn encapsulate(&self, rng: &mut ThreadRng) -> (r: Result<(EncapsulatedKey, SharedSecret), Error>)
        ensures
            self.public is None ==> r == Err::<(EncapsulatedKey, SharedSecret), Error>(Error::MissingPublicKey),
            self.public matches Some(pk) ==> spec_encapsulation_outcome(pk, encapsulation_view(r)),
            r matches Ok((ct, ss)) ==> ct@.len() == MLKEM_CIPHERTEXT_LEN + EC_CIPHERTEXT_LEN && ss@.len()
                == MLKEM_SHARED_SECRET_LEN + EC_SHARED_SECRET_LEN,
    {
        self.encapsulate_to(rng)
    }
}

/// A key generation request: the key selection it was made with.
#[derive(Debug, Clone, Copy)]
pub struct GenCtx {
    pub selection: i32,
}

impl GenCtx {
    pub fn new(selection: i32) -> (g: GenCtx)
        ensures
            g.selection == selection,
    {
        GenCtx { selection }
    }

    /// Generates a key pair when the selection asks for both keys; otherwise
    /// hands out an empty key pair.
    pub fn generate(&self, rng: &mut ThreadRng) -> (r: Result<KeyPair, Error>)
        ensures
            !selects_all(self.selection, SELECT_KEYPAIR) ==> (r matches Ok(kp) && kp.private is None
                && kp.public is None),
            selects_all(self.selection, SELECT_KEYPAIR) ==> (r matches Ok(kp) ==> kp.private matches Some(sk)
                && kp.public matches Some(pk) && sk.ec_share@.len() == 32 && pk.mlkem_share@.len()
                == MLKEM_PUBLIC_KEY_LEN && pk.ec_share@.len() == EC_PUBLIC_KEY_LEN && pk.ec_share@
                == x25519_public_of(sk.ec_share@)),
            r matches Err(e) ==> e == Error::Backend,
    {
        if self.selection & SELECT_KEYPAIR != SELECT_KEYPAIR {
            return Ok(KeyPair::new());
        }
        KeyPair::generate(rng)
    }

    /// The generation parameters a request may set: none.
    pub fn settable_params() -> (v: Vec<ParamKey>)
        ensures
            v@ == Seq::<ParamKey>::empty(),
    {
        Vec::new()
    }
}

impl KeyPair {
    /// Generates a fresh key pair with randomness from `rng`; only the
    /// X25519 step can fail, with `Backend`.
    pub fn generate_new(rng: &mut ThreadRng) -> (r: Result<KeyPair, Error>)
        ensures
            r matches Ok(kp) ==> kp.private matches Some(sk) && kp.public matches Some(pk) && sk.ec_share@.len()
                == 32 && pk.mlkem_share@.len() == MLKEM_PUBLIC_KEY_LEN && pk.ec_share@.len() == EC_PUBLIC_KEY_LEN
                && pk.ec_share@ == x25519_public_of(sk.ec_share@),
            r matches Err(e) ==> e == Error::Backend,
    {
        let genctx = GenCtx::new(SELECT_KEYPAIR);
        assert(SELECT_KEYPAIR & SELECT_KEYPAIR == SELECT_KEYPAIR) by (bit_vector);
        genctx.generate(rng)
    }

    /// Sets key parameter `key` from `value`: the encoded public key is
    /// decoded and replaces the public key; a missing value for it is an
    /// error. Other parameters are left alone.
    pub fn set_param(&mut self, key: ParamKey, value: Option<&[u8]>) -> (r: Result<(), Error>)
        ensures
            key != ParamKey::EncodedPublicKey ==> r is Ok && final(self).public == old(self).public,
            key == ParamKey::EncodedPublicKey && value is None ==> r == Err::<(), Error>(Error::InvalidKey)
                && final(self).public == old(self).public,
            key == ParamKey::EncodedPublicKey ==> (value matches Some(b) ==> {
                &&& (r is Ok <==> spec_decode_public_key(b@) is Some)
                &&& r is Ok ==> (final(self).public matches Some(pk) && spec_decode_public_key(b@) == Some(
                    (pk.mlkem_share@, pk.ec_share@),
                ))
                &&& r is Err ==> final(self).public == old(self).public
            }),
            final(self).private == old(self).private,
    {
        if key != ParamKey::EncodedPublicKey {
            return Ok(());
        }
        let bytes = match value {
            Some(b) => b,
            None => {
                return Err(Error::InvalidKey);
            },
        };
        match PublicKey::decode(bytes) {
            Ok(pk) => {
                self.public = Some(pk);
                Ok(())
            },
            Err(e) => Err(e),
        }
    }

    /// The key parameters a request may ask for.
    pub fn gettable_params() -> (v: Vec<ParamKey>)
        ensures
            v@ == seq![ParamKey::EncodedPublicKey],
    {
        vec![ParamKey::EncodedPublicKey]
    }

    /// The key parameters a request may set.
    pub fn settable_params() -> (v: Vec<ParamKey>)
        ensures
            v@ == seq![ParamKey::EncodedPublicKey],
    {
        vec![ParamKey::EncodedPublicKey]
    }

    /// The key parameters an import with `selection` takes: the public and
    /// the private key, when the selection asks for either; none otherwise.
    pub fn import_types_ex(selection: i32) -> (r: Option<Vec<ParamKey>>)
        ensures
            selects(selection, SELECT_KEYPAIR) ==> (r matches Some(v) && v@ == seq![
                ParamKey::PublicKey,
                ParamKey::PrivateKey,
            ]),
            !selects(selection, SELECT_KEYPAIR) ==> r is None,
    {
        if selection & SELECT_KEYPAIR != 0 {
            Some(vec![ParamKey::PublicKey, ParamKey::PrivateKey])
        } else {
            None
        }
    }
}

/// A parameter of a set request, seen as values: its name, if it has a
/// key, and its octet-string value, if it has one.
pub type SetRequestView = (Option<Seq<char>>, Option<Seq<u8>>);

/// The view of a set request.
pub open spec fn set_request_view(r: (Option<String>, Option<Vec<u8>>)) -> SetRequestView {
    (
        match r.0 {
            Some(n) => Some(n@),
            None => None,
        },
        match r.1 {
            Some(v) => Some(v@),
            None => None,
        },
    )
}

/// The view of the parameters of a set request.
pub open spec fn set_requests_view(v: Seq<(Option<String>, Option<Vec<u8>>)>) -> Seq<SetRequestView> {
    v.map_values(|q: (Option<String>, Option<Vec<u8>>)| set_request_view(q))
}

/// The shares of an optional public key.
pub open spec fn public_shares(pk: Option<PublicKey>) -> Option<(Seq<u8>, Seq<u8>)> {
    match pk {
        Some(k) => Some((k.mlkem_share@, k.ec_share@)),
        None => None,
    }
}

/// The error decoding `v` as a public key reports.
pub open spec fn spec_public_key_decode_error(v: Seq<u8>) -> Error {
    if v.len() != MLKEM_PUBLIC_KEY_LEN + EC_PUBLIC_KEY_LEN {
        Error::LengthMismatch {
            expected: (MLKEM_PUBLIC_KEY_LEN + EC_PUBLIC_KEY_LEN) as usize,
            actual: v.len() as usize,
        }
    } else {
        Error::InvalidKey
    }
}

/// Setting one parameter on a key pair whose public key has the shares
/// `pk`: a parameter without a key fails; the encoded public key must be
/// given and must decode, and replaces the public key; other parameters
/// are left alone.
pub open spec fn spec_set_param(pk: Option<(Seq<u8>, Seq<u8>)>, req: SetRequestView) -> (Option<(Seq<u8>, Seq<u8>)>, Result<(), Error>) {
    match req.0 {
        None => (pk, Err(Error::MissingParamKey)),
        Some(n) => if spec_key_of_name(n) == Some(ParamKey::EncodedPublicKey) {
            match req.1 {
                None => (pk, Err(Error::InvalidKey)),
                Some(v) => match spec_decode_public_key(v) {
                    Some(k) => (Some(k), Ok(())),
                    None => (pk, Err(spec_public_key_decode_error(v))),
                },
            }
        } else {
            (pk, Ok(()))
        },
    }
}

/// Setting the parameters of a request in order, stopping at the first
/// failure: the public key shares at the end, and the outcome.
pub open spec fn spec_set_params(pk: Option<(Seq<u8>, Seq<u8>)>, reqs: Seq<SetRequestView>) -> (Option<(Seq<u8>, Seq<u8>)>, Result<(), Error>)
    decreases reqs.len(),
{
    if reqs.len() == 0 {
        (pk, Ok(()))
    } else {
        let before = spec_set_params(pk, reqs.drop_last());
        if before.1 is Err {
            before
        } else {
            spec_set_param(before.0, reqs.last())
        }
    }
}

proof fn lemma_set_params_stops(pk: Option<(Seq<u8>, Seq<u8>)>, reqs: Seq<SetRequestView>, i: int, j: int)
    requires
        0 <= i <= j <= reqs.len(),
        spec_set_params(pk, reqs.take(i)).1 is Err,
    ensures
        spec_set_params(pk, reqs.take(j)) == spec_set_params(pk, reqs.take(i)),
    decreases j - i,
{
    if j > i {
        lemma_set_params_stops(pk, reqs, i, j - 1);
        assert(reqs.take(j).drop_last() =~= reqs.take(j - 1));
    }
}

impl KeyPair {
    /// Sets the parameters of a request in order: see [`spec_set_params`].
    /// Parameters set before a failing one stay set.
    pub fn set_params(&mut self, requested: &Vec<(Option<String>, Option<Vec<u8>>)>) -> (r: Result<(), Error>)
        ensures
            spec_set_params(public_shares(old(self).public), set_requests_view(requested@))
                == (public_shares(final(self).public), r),
            final(self).private == old(self).private,
    {
        let ghost reqs = set_requests_view(requested@);
        let ghost start = public_shares(self.public);
        let mut i: usize = 0;
        let mut result: Result<(), Error> = Ok(());
        assert(reqs.take(0) =~= Seq::<SetRequestView>::empty());
        assert(reqs.take(reqs.len() as int) =~= reqs);
        while i < requested.len()
            invariant_except_break
                i <= requested@.len(),
                result == Ok::<(), Error>(()),
                spec_set_params(start, reqs.take(i as int)) == (public_shares(self.public), result),
            invariant
                reqs == set_requests_view(requested@),
                reqs.take(reqs.len() as int) == reqs,
                self.private == old(self).private,
            ensures
                spec_set_params(start, reqs) == (public_shares(self.public), result),
            decreases requested@.len() - i,
        {
            assert(reqs.take(i + 1).drop_last() =~= reqs.take(i as int));
            assert(reqs.take(i + 1).last() == set_request_view(requested@[i as int]));
            let r = self.set_request(&requested[i]);
            if r.is_err() {
                proof {
                    lemma_set_params_stops(start, reqs, i + 1, reqs.len() as int);
                }
                result = r;
                break;
            }
            i = i + 1;
        }
        result
    }

    /// Sets one parameter of a request: see [`spec_set_param`].
    fn set_request(&mut self, req: &(Option<String>, Option<Vec<u8>>)) -> (r: Result<(), Error>)
        ensures
            spec_set_param(public_shares(old(self).public), set_request_view(*req))
                == (public_shares(final(self).public), r),
            final(self).private == old(self).private,
    {
        let name = match &req.0 {
            Some(n) => n,
            None => {
                return Err(Error::MissingParamKey);
            },
        };
        if ParamKey::from_name(name) != Some(ParamKey::EncodedPublicKey) {
            return Ok(());
        }
        let bytes: &[u8] = match &req.1 {
            Some(v) => v.as_slice(),
            None => {
                return Err(Error::InvalidKey);
            },
        };
        match PublicKey::decode(bytes) {
            Ok(pk) => {
                self.public = Some(pk);
                Ok(())
            },
            Err(e) => Err(e),
        }
    }
}

impl ParamSource for KeyPair {
    /// The encoded public key for `EncodedPublicKey`.
    open spec fn spec_param(&self, key: ParamKey) -> Option<ParamValueView> {
        match (key, self.public) {
            (ParamKey::EncodedPublicKey, Some(pk)) => Some(
                ParamValueView::OctetString(pk.mlkem_share@ + pk.ec_share@),
            ),
            _ => None,
        }
    }

    /// The key pair answers only when it holds a public key.
    open spec fn answers_params(&self) -> bool {
        self.public is Some
    }

    fn get_param(&self, key: ParamKey) -> (v: Option<ParamValue>) {
        match (key, &self.public) {
            (ParamKey::EncodedPublicKey, Some(pk)) => Some(ParamValue::OctetString(pk.encode())),
            _ => None,
        }
    }
}

/// The context of a KEM operation: the key pair that decapsulates (own) and
/// the one encapsulated to (peer).
pub struct KemContext<'a> {
    pub own_keypair: Option<&'a KeyPair>,
    pub peer_keypair: Option<&'a KeyPair>,
}

impl<'a> KemContext<'a> {
    /// A context with neither key pair set.
    pub fn new() -> (ctx: KemContext<'a>)
        ensures
            ctx.own_keypair is None,
            ctx.peer_keypair is None,
    {
        KemContext { own_keypair: None, peer_keypair: None }
    }

    /// Sets the key pair to encapsulate to; it must hold a public key.
    pub fn set_peer_keypair(&mut self, peerkeypair: &'a KeyPair) -> (r: Result<(), Error>)
        ensures
            r is Ok <==> peerkeypair.public is Some,
            r is Ok ==> final(self).peer_keypair == Some(peerkeypair) && final(self).own_keypair == old(
                self,
            ).own_keypair,
            r is Err ==> *final(self) == *old(self) && r == Err::<(), Error>(Error::MissingPublicKey),
    {
        match &peerkeypair.public {
            Some(_) => {
                self.peer_keypair = Some(peerkeypair);
                Ok(())
            },
            None => Err(Error::MissingPublicKey),
        }
    }

    /// Sets the key pair that decapsulates; it must hold a private key.
    pub fn set_own_keypair(&mut self, ownkeypair: &'a KeyPair) -> (r: Result<(), Error>)
        ensures
            r is Ok <==> ownkeypair.private is Some,
            r is Ok ==> final(self).own_keypair == Some(ownkeypair) && final(self).peer_keypair == old(
                self,
            ).peer_keypair,
            r is Err ==> *final(self) == *old(self) && r == Err::<(), Error>(Error::MissingPrivateKey),
    {
        match &ownkeypair.private {
            Some(_) => {
                self.own_keypair = Some(ownkeypair);
                Ok(())
            },
            None => Err(Error::MissingPrivateKey),
        }
    }

    /// Encapsulates to the peer key pair with the provider's random number
    /// generator.
    pub fn encapsulate_ex(&self) -> (r: Result<(EncapsulatedKey, SharedSecret), Error>)
        ensures
            self.peer_keypair is None ==> r == Err::<(EncapsulatedKey, SharedSecret), Error>(
                Error::MissingPublicKey,
            ),
            self.peer_keypair matches Some(kp) ==> (kp.public is None ==> r == Err::<
                (EncapsulatedKey, SharedSecret),
                Error,
            >(Error::MissingPublicKey)),
            self.peer_keypair matches Some(kp) ==> (kp.public matches Some(pk) ==> spec_encapsulation_outcome(
                pk,
                encapsulation_view(r),
            )),
            r matches Ok((ct, ss)) ==> ct@.len() == MLKEM_CIPHERTEXT_LEN + EC_CIPHERTEXT_LEN && ss@.len()
                == MLKEM_SHARED_SECRET_LEN + EC_SHARED_SECRET_LEN,
    {
        match self.peer_keypair {
            Some(pk) => pk.encapsulate_ex(),
            None => Err(Error::MissingPublicKey),
        }
    }
}

impl<'a> Encapsulate<EncapsulatedKey, SharedSecret> for KemContext<'a> {
    type Error = Error;

    fn encapsulate(&self, rng: &mut ThreadRng) -> (r: Result<(EncapsulatedKey, SharedSecret), Error>)
        ensures
            self.peer_keypair is None ==> r == Err::<(EncapsulatedKey, SharedSecret), Error>(
                Error::MissingPublicKey,
            ),
            self.peer_keypair matches Some(kp) ==> (kp.public is None ==> r == Err::<
                (EncapsulatedKey, SharedSecret),
                Error,
            >(Error::MissingPublicKey)),
            self.peer_keypair matches Some(kp) ==> (kp.public matches Some(pk) ==> spec_encapsulation_outcome(
                pk,
                encapsulation_view(r),
            )),
            r matches Ok((ct, ss)) ==> ct@.len() == MLKEM_CIPHERTEXT_LEN + EC_CIPHERTEXT_LEN && ss@.len()
                == MLKEM_SHARED_SECRET_LEN + EC_SHARED_SECRET_LEN,
    {
        match self.peer_keypair {
            Some(pkp) => pkp.encapsulate_to(rng),
            None => Err(Error::MissingPublicKey),
        }
    }
}

impl<'a> Decapsulate<EncapsulatedKey, SharedSecret> for KemContext<'a> {
    type Error = Error;

    fn decapsulate(&self, encapsulated_key: &EncapsulatedKey) -> (r: Result<SharedSecret, Error>)
        ensures
            self.own_keypair is None ==> r == Err::<SharedSecret, Error>(Error::MissingPrivateKey),
            self.own_keypair matches Some(kp) ==> (kp.private is None ==> r is Err),
            self.own_keypair matches Some(kp) ==> (kp.private matches Some(sk) ==> match spec_decapsulate(
                encapsulated_key@,
                sk.mlkem_share@,
                sk.ec_share@,
            ) {
                Some(ss) => r matches Ok(out) && out@ == ss,
                None => r is Err,
            }),
    {
        match self.own_keypair {
            Some(okp) => okp.decapsulate_key(encapsulated_key.as_slice()),
            None => Err(Error::MissingPrivateKey),
        }
    }
}

/// The hybrid decapsulates what its components do: when ML-KEM-768 maps
/// `ct_mlkem` to `ss_mlkem` and X25519 maps `ct_ec` to `ss_ec`, the hybrid
/// maps the concatenated ciphertext to the concatenated secret.
pub proof fn lemma_hybrid_decapsulation(
    ct_mlkem: Seq<u8>,
    ct_ec: Seq<u8>,
    sk_mlkem: Seq<u8>,
    sk_ec: Seq<u8>,
    ss_mlkem: Seq<u8>,
    ss_ec: Seq<u8>,
)
    requires
        ct_mlkem.len() == MLKEM_CIPHERTEXT_LEN,
        ct_ec.len() == EC_CIPHERTEXT_LEN,
        kem_decapsulation(KemAlgorithm::MlKem768, ct_mlkem, sk_mlkem) == Some(ss_mlkem),
        kem_decapsulation(KemAlgorithm::X25519, ct_ec, sk_ec) == Some(ss_ec),
        ss_mlkem.len() == MLKEM_SHARED_SECRET_LEN,
        ss_ec.len() == EC_SHARED_SECRET_LEN,
    ensures
        spec_decapsulate(ct_mlkem + ct_ec, sk_mlkem, sk_ec) == Some(ss_mlkem + ss_ec),
{
    let ct = ct_mlkem + ct_ec;
    assert(ct.subrange(0, MLKEM_CIPHERTEXT_LEN as int) =~= ct_mlkem);
    assert(ct.subrange(MLKEM_CIPHERTEXT_LEN as int, ct.len() as int) =~= ct_ec);
}

/// Decoding an encoded public key gives its shares back.
pub proof fn lemma_public_key_encode_decode(mlkem: Seq<u8>, ec: Seq<u8>)
    requires
        kem_public_key_accepted(KemAlgorithm::MlKem768, mlkem),
        kem_public_key_accepted(KemAlgorithm::X25519, ec),
        mlkem.len() == MLKEM_PUBLIC_KEY_LEN,
        ec.len() == EC_PUBLIC_KEY_LEN,
    ensures
        spec_decode_public_key(mlkem + ec) == Some((mlkem, ec)),
{
    let b = mlkem + ec;
    assert(b.subrange(0, MLKEM_PUBLIC_KEY_LEN as int) =~= mlkem);
    assert(b.subrange(MLKEM_PUBLIC_KEY_LEN as int, b.len() as int) =~= ec);
}

/// What a set request writes to the encoded public key, a get request of
/// that parameter reads back: when setting `v` under the parameter's name
/// succeeds, the key pair answers `v` for it.
pub proof fn lemma_set_then_get_public_key(before: KeyPair, after: KeyPair, name: Seq<char>, v: Seq<u8>)
    requires
        spec_key_of_name(name) == Some(ParamKey::EncodedPublicKey),
        spec_set_param(public_shares(before.public), (Some(name), Some(v))) == (
            public_shares(after.public),
            Ok::<(), Error>(()),
        ),
    ensures
        after.spec_param(ParamKey::EncodedPublicKey) == Some(ParamValueView::OctetString(v)),
{
    let k = spec_decode_public_key(v)->0;
    assert(k.0 + k.1 =~= v);
}

/// Decapsulating, with a key pair's private key, what was encapsulated to
/// its public key gives back the X25519 share of the shared secret: the
/// last 32 bytes of the decapsulated secret are those of the encapsulated
/// one.
pub proof fn lemma_x25519_share_loopback(
    sk_mlkem: Seq<u8>,
    sk_ec: Seq<u8>,
    pk_ec: Seq<u8>,
    ct: Seq<u8>,
    ss: Seq<u8>,
    out: Seq<u8>,
)
    requires
        sk_ec.len() == 32,
        pk_ec == x25519_public_of(sk_ec),
        x25519_share_decapsulates(pk_ec, ct, ss),
        spec_decapsulate(ct, sk_mlkem, sk_ec) == Some(out),
    ensures
        out.subrange(MLKEM_SHARED_SECRET_LEN as int, out.len() as int) == ss.subrange(
            MLKEM_SHARED_SECRET_LEN as int,
            ss.len() as int,
        ),
{
    let m = kem_decapsulation(KemAlgorithm::MlKem768, ct.subrange(0, MLKEM_CIPHERTEXT_LEN as int), sk_mlkem);
    let a = m->0;
    assert(out.subrange(MLKEM_SHARED_SECRET_LEN as int, out.len() as int) =~= kem_decapsulation(
        KemAlgorithm::X25519,
        ct.subrange(MLKEM_CIPHERTEXT_LEN as int, ct.len() as int),
        sk_ec,
    )->0);
}

} // verus!
