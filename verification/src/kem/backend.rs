//! The KEM primitives of `libcrux-kem`, on encoded keys and ciphertexts.

use libcrux_kem::{Algorithm, Ct, PrivateKey as KemPrivateKey, PublicKey as KemPublicKey};
use rand::rngs::ThreadRng;
use vstd::prelude::*;
use crate::error::Error;

verus! {

/// The component KEMs of the hybrid.
#[derive(Debug, Clone, Copy, PartialEq, Eq, Structural)]
pub enum KemAlgorithm {
    X25519,
    MlKem768,
}

pub open spec fn spec_kem_public_key_len(a: KemAlgorithm) -> nat {
    match a {
        KemAlgorithm::X25519 => 32,
        KemAlgorithm::MlKem768 => 1184,
    }
}

pub open spec fn spec_kem_private_key_len(a: KemAlgorithm) -> nat {
    match a {
        KemAlgorithm::X25519 => 32,
        KemAlgorithm::MlKem768 => 2400,
    }
}

pub open spec fn spec_kem_ciphertext_len(a: KemAlgorithm) -> nat {
    match a {
        KemAlgorithm::X25519 => 32,
        KemAlgorithm::MlKem768 => 1088,
    }
}

/// Both component KEMs produce 32-byte shared secrets.
pub open spec fn spec_kem_shared_secret_len(a: KemAlgorithm) -> nat {
    32
}

/// Whether `libcrux_kem::PublicKey::decode(alg, pk)` accepts `pk`.
pub uninterp spec fn kem_public_key_accepted(alg: KemAlgorithm, pk: Seq<u8>) -> bool;

/// The X25519 public key that `libcrux_ecdh::x25519_secret_to_public`
/// computes from a 32-byte X25519 private key (scalar multiplication of the
/// base point).
pub uninterp spec fn x25519_public_of(sk: Seq<u8>) -> Seq<u8>;

/// The encoded shared secret that decapsulating the encoded ciphertext `ct`
/// with the encoded private key `sk` yields in `libcrux-kem`, or `None`
/// when decoding or decapsulation fails.
pub uninterp spec fn kem_decapsulation(alg: KemAlgorithm, ct: Seq<u8>, sk: Seq<u8>) -> Option<Seq<u8>>;

/// `libcrux_kem::PublicKey::decode(alg, pk).is_ok()`. Claimed: the answer
/// is the named acceptance; an accepted key has the algorithm's public key
/// length; an X25519 key is accepted exactly when it is 32 bytes long (the
/// decoder only converts to a 32-byte array).
#[verifier::external_body]
pub(crate) fn kem_public_key_check(alg: KemAlgorithm, pk: &[u8]) -> (ok: bool)
    ensures
        ok == kem_public_key_accepted(alg, pk@),
        ok ==> pk@.len() == spec_kem_public_key_len(alg),
        alg == KemAlgorithm::X25519 ==> (ok <==> pk@.len() == 32),
{
    let alg = match alg {
        KemAlgorithm::X25519 => Algorithm::X25519,
        KemAlgorithm::MlKem768 => Algorithm::MlKem768,
    };
    KemPublicKey::decode(alg, pk).is_ok()
}

/// `libcrux_kem::key_gen(alg, rng)`, with both keys encoded. The keys are
/// random; claimed are their lengths and, for X25519, that the public key
/// is the one `x25519_secret_to_public` computes from the private key
/// (`libcrux_ecdh::x25519_key_gen` draws the private key and derives the
/// public key so). Claimed too: ML-KEM-768 key generation succeeds (its
/// only failure is the generator's `try_fill_bytes`, whose error type is
/// `Infallible` for `ThreadRng`), and a failure is reported as `Backend`.
/// X25519 key generation may fail by chance (a hundred all-zero draws), so
/// its success is not claimed.
#[verifier::external_body]
pub(crate) fn kem_key_gen(alg: KemAlgorithm, rng: &mut ThreadRng) -> (r: Result<(Vec<u8>, Vec<u8>), Error>)
    ensures
        r matches Ok((sk, pk)) ==> sk@.len() == spec_kem_private_key_len(alg) && pk@.len()
            == spec_kem_public_key_len(alg),
        alg == KemAlgorithm::X25519 ==> (r matches Ok((sk, pk)) ==> pk@ == x25519_public_of(sk@)),
        alg == KemAlgorithm::MlKem768 ==> r is Ok,
        r matches Err(e) ==> e == Error::Backend,
{
    let alg = match alg {
        KemAlgorithm::X25519 => Algorithm::X25519,
        KemAlgorithm::MlKem768 => Algorithm::MlKem768,
    };
    match libcrux_kem::key_gen(alg, rng) {
        Ok((sk, pk)) => Ok((sk.encode(), pk.encode())),
        Err(_) => Err(Error::Backend),
    }
}

/// `libcrux_kem::PublicKey::decode(alg, pk)` followed by `encapsulate(rng)`,
/// with the shared secret and ciphertext encoded. They are random; claimed
/// are that a key the decoder rejects gives an error, the lengths, and for
/// X25519 that decapsulating the ciphertext with any private key whose
/// public key is `pk` gives the shared secret back (the ciphertext is a
/// fresh public key `g^y`, the secret is `pk^y`, and `(g^y)^x = (g^x)^y`).
/// The same is not claimed for ML-KEM-768, whose decapsulation fails to
/// recover the secret with a small probability. Claimed too: the error is
/// `InvalidKey` exactly when the decoder rejects the key, and `Backend`
/// otherwise; ML-KEM-768 encapsulation to an accepted key succeeds (it can
/// fail only through `ThreadRng`'s `Infallible` `try_fill_bytes`). X25519
/// encapsulation draws a fresh key pair and may fail by chance or on a
/// low-order key, so its success is not claimed.
#[verifier::external_body]
pub(crate) fn kem_encapsulate(alg: KemAlgorithm, pk: &[u8], rng: &mut ThreadRng) -> (r: Result<(Vec<u8>, Vec<u8>), Error>)
    ensures
        (r matches Err(e) && e == Error::InvalidKey) <==> !kem_public_key_accepted(alg, pk@),
        r matches Err(e) ==> e == Error::InvalidKey || e == Error::Backend,
        alg == KemAlgorithm::MlKem768 && kem_public_key_accepted(alg, pk@) ==> r is Ok,
        r matches Ok((ss, ct)) ==> kem_public_key_accepted(alg, pk@) && ss@.len()
            == spec_kem_shared_secret_len(alg) && ct@.len() == spec_kem_ciphertext_len(alg),
        alg == KemAlgorithm::X25519 ==> (r matches Ok((ss, ct)) ==> forall|sk: Seq<u8>|
            sk.len() == 32 && #[trigger] x25519_public_of(sk) == pk@ ==> kem_decapsulation(alg, ct@, sk)
                == Some(ss@)),
{
    let alg = match alg {
        KemAlgorithm::X25519 => Algorithm::X25519,
        KemAlgorithm::MlKem768 => Algorithm::MlKem768,
    };
    let pk = match KemPublicKey::decode(alg, pk) {
        Ok(k) => k,
        Err(_) => return Err(Error::InvalidKey),
    };
    match pk.encapsulate(rng) {
        Ok((ss, ct)) => Ok((ss.encode(), ct.encode())),
        Err(_) => Err(Error::Backend),
    }
}

/// `libcrux_kem::Ct::decode(alg, ct)` and `PrivateKey::decode(alg, sk)`
/// followed by `Ct::decapsulate`, with the shared secret encoded. Claimed:
/// the result is the named decapsulation; a result needs a ciphertext and a
/// private key of the algorithm's lengths and is 32 bytes long; ML-KEM-768
/// decapsulation of well-sized inputs always yields a result (it rejects
/// implicitly).
#[verifier::external_body]
pub(crate) fn kem_decapsulate(alg: KemAlgorithm, ct: &[u8], sk: &[u8]) -> (r: Option<Vec<u8>>)
    ensures
        r matches Some(ss) ==> Some(ss@) == kem_decapsulation(alg, ct@, sk@),
        r is None ==> kem_decapsulation(alg, ct@, sk@) is None,
        r matches Some(ss) ==> ss@.len() == spec_kem_shared_secret_len(alg) && ct@.len()
            == spec_kem_ciphertext_len(alg) && sk@.len() == spec_kem_private_key_len(alg),
        alg == KemAlgorithm::MlKem768 && ct@.len() == 1088 && sk@.len() == 2400 ==> r is Some,
{
    let alg = match alg {
        KemAlgorithm::X25519 => Algorithm::X25519,
        KemAlgorithm::MlKem768 => Algorithm::MlKem768,
    };
    let ct = Ct::decode(alg, ct).ok()?;
    let sk = KemPrivateKey::decode(alg, sk).ok()?;
    match ct.decapsulate(&sk) {
        Ok(ss) => Some(ss.encode()),
        Err(_) => None,
    }
}

} // verus!
