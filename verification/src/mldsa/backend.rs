//! The ML-DSA arithmetic this library delegates: signing and verification
//! by `pqcrypto-mldsa` (PQClean), seed expansion and public-key derivation
//! by the `ml-dsa` crate.

use ml_dsa::{ExpandedSigningKey, ExpandedSigningKeyBytes, MlDsa44, MlDsa65, Seed};
use pqcrypto_mldsa::{mldsa44, mldsa65};
use pqcrypto_traits::sign::{DetachedSignature as _, PublicKey as _, SecretKey as _};
use vstd::prelude::*;
use crate::mldsa::expanded::secret_coefficients_in_range;
use crate::mldsa::params::{MlDsaParamSet, ML_DSA_SEED_SIZE, MAX_CONTEXT_LEN};

verus! {

/// The expanded ML-DSA-44 secret key that `ml-dsa` derives from a seed.
pub uninterp spec fn mldsa44_expanded_from_seed(seed: Seq<u8>) -> Seq<u8>;

/// The expanded ML-DSA-65 secret key that `ml-dsa` derives from a seed.
pub uninterp spec fn mldsa65_expanded_from_seed(seed: Seq<u8>) -> Seq<u8>;

/// The encoded ML-DSA-44 public key that `ml-dsa` derives from an expanded
/// secret key.
pub uninterp spec fn mldsa44_public_from_expanded(sk: Seq<u8>) -> Seq<u8>;

/// The encoded ML-DSA-65 public key that `ml-dsa` derives from an expanded
/// secret key.
pub uninterp spec fn mldsa65_public_from_expanded(sk: Seq<u8>) -> Seq<u8>;

/// Whether PQClean's ML-DSA-44 verification accepts `sig` on `msg` under
/// `ctx` and the public key `pk`.
pub uninterp spec fn mldsa44_verify_accepts(pk: Seq<u8>, msg: Seq<u8>, ctx: Seq<u8>, sig: Seq<u8>) -> bool;

/// Whether PQClean's ML-DSA-65 verification accepts `sig` on `msg` under
/// `ctx` and the public key `pk`.
pub uninterp spec fn mldsa65_verify_accepts(pk: Seq<u8>, msg: Seq<u8>, ctx: Seq<u8>, sig: Seq<u8>) -> bool;

/// `ExpandedSigningKey::<MlDsa44>::from_seed(seed).to_expanded()` from
/// `ml-dsa`: FIPS 204 KeyGen_internal followed by skEncode. Claimed: the
/// result is the named expansion of the seed, has the ML-DSA-44 secret key
/// length, and its packed s1/s2 coefficients are in 0..=2η (skEncode's
/// BitPack asserts the range of every coefficient it packs).
#[verifier::external_body]
#[allow(deprecated)]
fn mldsa44_expand_seed(seed: &[u8]) -> (sk: Vec<u8>)
    requires
        seed@.len() == ML_DSA_SEED_SIZE,
    ensures
        sk@ == mldsa44_expanded_from_seed(seed@),
        secret_coefficients_in_range(MlDsaParamSet::MlDsa44, sk@),
{
    match Seed::try_from(seed) {
        Ok(s) => ExpandedSigningKey::<MlDsa44>::from_seed(&s).to_expanded().to_vec(),
        Err(_) => Vec::new(),
    }
}

/// `ExpandedSigningKey::<MlDsa65>::from_seed(seed).to_expanded()` from
/// `ml-dsa`; the same claims as for ML-DSA-44, for ML-DSA-65.
#[verifier::external_body]
#[allow(deprecated)]
fn mldsa65_expand_seed(seed: &[u8]) -> (sk: Vec<u8>)
    requires
        seed@.len() == ML_DSA_SEED_SIZE,
    ensures
        sk@ == mldsa65_expanded_from_seed(seed@),
        secret_coefficients_in_range(MlDsaParamSet::MlDsa65, sk@),
{
    match Seed::try_from(seed) {
        Ok(s) => ExpandedSigningKey::<MlDsa65>::from_seed(&s).to_expanded().to_vec(),
        Err(_) => Vec::new(),
    }
}

/// `ExpandedSigningKey::<MlDsa44>::from_expanded(sk).verifying_key().encode()`
/// from `ml-dsa`. `from_expanded` panics when a packed s1/s2 coefficient is
/// above 2η (BitUnpack's assertion), so such keys are excluded. Claimed: the
/// result is the named derivation and has the ML-DSA-44 public key length.
#[verifier::external_body]
#[allow(deprecated)]
fn mldsa44_derive_public(sk: &[u8]) -> (pk: Vec<u8>)
    requires
        secret_coefficients_in_range(MlDsaParamSet::MlDsa44, sk@),
    ensures
        pk@ == mldsa44_public_from_expanded(sk@),
        pk@.len() == 1312,
{
    match ExpandedSigningKeyBytes::<MlDsa44>::try_from(sk) {
        Ok(b) => ExpandedSigningKey::<MlDsa44>::from_expanded(&b).verifying_key().encode().to_vec(),
        Err(_) => Vec::new(),
    }
}

/// `ExpandedSigningKey::<MlDsa65>::from_expanded(sk).verifying_key().encode()`
/// from `ml-dsa`; the same claims as for ML-DSA-44, for ML-DSA-65.
#[verifier::external_body]
#[allow(deprecated)]
fn mldsa65_derive_public(sk: &[u8]) -> (pk: Vec<u8>)
    requires
        secret_coefficients_in_range(MlDsaParamSet::MlDsa65, sk@),
    ensures
        pk@ == mldsa65_public_from_expanded(sk@),
        pk@.len() == 1952,
{
    match ExpandedSigningKeyBytes::<MlDsa65>::try_from(sk) {
        Ok(b) => ExpandedSigningKey::<MlDsa65>::from_expanded(&b).verifying_key().encode().to_vec(),
        Err(_) => Vec::new(),
    }
}

/// `pqcrypto_mldsa::mldsa44::detached_sign_ctx`, PQClean's hedged
/// (randomized) ML-DSA-44 signing. The signature bytes depend on fresh
/// randomness and are not named. Claimed: PQClean writes a signature of
/// `CRYPTO_BYTES` (2420) bytes whenever the context is at most 255 bytes;
/// and, by the correctness of ML-DSA (FIPS 204), when the secret key is the
/// expansion of a seed, the signature verifies on `msg` under `ctx` and the
/// public key that key determines. Nothing is claimed of signatures made
/// with an expanded key that no seed is known to expand to.
#[verifier::external_body]
fn mldsa44_sign(sk: &[u8], msg: &[u8], ctx: &[u8]) -> (sig: Vec<u8>)
    requires
        sk@.len() == 2560,
        ctx@.len() <= MAX_CONTEXT_LEN,
    ensures
        sig@.len() == 2420,
        forall|seed: Seq<u8>|
            seed.len() == ML_DSA_SEED_SIZE && sk@ == #[trigger] mldsa44_expanded_from_seed(seed)
                ==> mldsa44_verify_accepts(mldsa44_public_from_expanded(sk@), msg@, ctx@, sig@),
{
    match mldsa44::SecretKey::from_bytes(sk) {
        Ok(k) => mldsa44::detached_sign_ctx(msg, ctx, &k).as_bytes().to_vec(),
        Err(_) => Vec::new(),
    }
}

/// `pqcrypto_mldsa::mldsa65::detached_sign_ctx`; the same claims as for
/// ML-DSA-44, with a signature of 3309 bytes.
#[verifier::external_body]
fn mldsa65_sign(sk: &[u8], msg: &[u8], ctx: &[u8]) -> (sig: Vec<u8>)
    requires
        sk@.len() == 4032,
        ctx@.len() <= MAX_CONTEXT_LEN,
    ensures
        sig@.len() == 3309,
        forall|seed: Seq<u8>|
            seed.len() == ML_DSA_SEED_SIZE && sk@ == #[trigger] mldsa65_expanded_from_seed(seed)
                ==> mldsa65_verify_accepts(mldsa65_public_from_expanded(sk@), msg@, ctx@, sig@),
{
    match mldsa65::SecretKey::from_bytes(sk) {
        Ok(k) => mldsa65::detached_sign_ctx(msg, ctx, &k).as_bytes().to_vec(),
        Err(_) => Vec::new(),
    }
}

/// `pqcrypto_mldsa::mldsa44::verify_detached_signature_ctx`. Claimed: the
/// answer is the named verification result, and PQClean accepts only
/// signatures of exactly 2420 bytes under contexts of at most 255 bytes.
#[verifier::external_body]
fn mldsa44_verify(pk: &[u8], msg: &[u8], ctx: &[u8], sig: &[u8]) -> (ok: bool)
    requires
        pk@.len() == 1312,
    ensures
        ok == mldsa44_verify_accepts(pk@, msg@, ctx@, sig@),
        ok ==> sig@.len() == 2420 && ctx@.len() <= MAX_CONTEXT_LEN,
{
    let pk = match mldsa44::PublicKey::from_bytes(pk) {
        Ok(k) => k,
        Err(_) => return false,
    };
    let sig = match mldsa44::DetachedSignature::from_bytes(sig) {
        Ok(s) => s,
        Err(_) => return false,
    };
    mldsa44::verify_detached_signature_ctx(&sig, msg, ctx, &pk).is_ok()
}

/// `pqcrypto_mldsa::mldsa65::verify_detached_signature_ctx`; as for
/// ML-DSA-44, with signatures of exactly 3309 bytes.
#[verifier::external_body]
fn mldsa65_verify(pk: &[u8], msg: &[u8], ctx: &[u8], sig: &[u8]) -> (ok: bool)
    requires
        pk@.len() == 1952,
    ensures
        ok == mldsa65_verify_accepts(pk@, msg@, ctx@, sig@),
        ok ==> sig@.len() == 3309 && ctx@.len() <= MAX_CONTEXT_LEN,
{
    let pk = match mldsa65::PublicKey::from_bytes(pk) {
        Ok(k) => k,
        Err(_) => return false,
    };
    let sig = match mldsa65::DetachedSignature::from_bytes(sig) {
        Ok(s) => s,
        Err(_) => return false,
    };
    mldsa65::verify_detached_signature_ctx(&sig, msg, ctx, &pk).is_ok()
}

/// The expanded secret key for `seed` under parameter set `p`.
pub open spec fn spec_expanded_from_seed(p: MlDsaParamSet, seed: Seq<u8>) -> Seq<u8> {
    match p {
        MlDsaParamSet::MlDsa44 => mldsa44_expanded_from_seed(seed),
        MlDsaParamSet::MlDsa65 => mldsa65_expanded_from_seed(seed),
    }
}

/// The public key for the expanded secret key `sk` under parameter set `p`.
pub open spec fn spec_public_from_expanded(p: MlDsaParamSet, sk: Seq<u8>) -> Seq<u8> {
    match p {
        MlDsaParamSet::MlDsa44 => mldsa44_public_from_expanded(sk),
        MlDsaParamSet::MlDsa65 => mldsa65_public_from_expanded(sk),
    }
}

/// Whether verification under parameter set `p` accepts.
pub open spec fn spec_verify_accepts(p: MlDsaParamSet, pk: Seq<u8>, msg: Seq<u8>, ctx: Seq<u8>, sig: Seq<u8>) -> bool {
    match p {
        MlDsaParamSet::MlDsa44 => mldsa44_verify_accepts(pk, msg, ctx, sig),
        MlDsaParamSet::MlDsa65 => mldsa65_verify_accepts(pk, msg, ctx, sig),
    }
}

/// Expands `seed` into the secret key of parameter set `p`.
pub fn expand_seed(p: MlDsaParamSet, seed: &[u8]) -> (sk: Vec<u8>)
    requires
        seed@.len() == ML_DSA_SEED_SIZE,
    ensures
        sk@ == spec_expanded_from_seed(p, seed@),
        secret_coefficients_in_range(p, sk@),
{
    match p {
        MlDsaParamSet::MlDsa44 => mldsa44_expand_seed(seed),
        MlDsaParamSet::MlDsa65 => mldsa65_expand_seed(seed),
    }
}

/// Derives the public key of the expanded secret key `sk`.
pub fn derive_public(p: MlDsaParamSet, sk: &[u8]) -> (pk: Vec<u8>)
    requires
        secret_coefficients_in_range(p, sk@),
    ensures
        pk@ == spec_public_from_expanded(p, sk@),
        pk@.len() == crate::mldsa::params::spec_public_key_len(p),
{
    match p {
        MlDsaParamSet::MlDsa44 => mldsa44_derive_public(sk),
        MlDsaParamSet::MlDsa65 => mldsa65_derive_public(sk),
    }
}

/// Signs `msg` under `ctx` with the expanded secret key `sk`.
pub fn sign(p: MlDsaParamSet, sk: &[u8], msg: &[u8], ctx: &[u8]) -> (sig: Vec<u8>)
    requires
        sk@.len() == crate::mldsa::params::spec_secret_key_len(p),
        ctx@.len() <= MAX_CONTEXT_LEN,
    ensures
        sig@.len() == crate::mldsa::params::spec_signature_len(p),
        forall|seed: Seq<u8>|
            seed.len() == ML_DSA_SEED_SIZE && sk@ == #[trigger] spec_expanded_from_seed(p, seed)
                ==> spec_verify_accepts(p, spec_public_from_expanded(p, sk@), msg@, ctx@, sig@),
{
    match p {
        MlDsaParamSet::MlDsa44 => mldsa44_sign(sk, msg, ctx),
        MlDsaParamSet::MlDsa65 => mldsa65_sign(sk, msg, ctx),
    }
}

/// Verifies `sig` on `msg` under `ctx` and the public key `pk`.
pub fn verify(p: MlDsaParamSet, pk: &[u8], msg: &[u8], ctx: &[u8], sig: &[u8]) -> (ok: bool)
    requires
        pk@.len() == crate::mldsa::params::spec_public_key_len(p),
    ensures
        ok == spec_verify_accepts(p, pk@, msg@, ctx@, sig@),
        ok ==> sig@.len() == crate::mldsa::params::spec_signature_len(p) && ctx@.len() <= MAX_CONTEXT_LEN,
{
    match p {
        MlDsaParamSet::MlDsa44 => mldsa44_verify(pk, msg, ctx, sig),
        MlDsaParamSet::MlDsa65 => mldsa65_verify(pk, msg, ctx, sig),
    }
}

} // verus!
