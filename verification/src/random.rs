use rand::Rng;
use rand::rngs::ThreadRng;
use vstd::prelude::*;

verus! {

#[verifier::external_type_specification]
#[verifier::external_body]
pub struct ExThreadRng(ThreadRng);

/// The provider's random number generator: `rand::rng()`, the thread-local
/// cryptographically secure generator. Nothing is claimed of its state.
#[verifier::external_body]
pub(crate) fn provider_rng() -> ThreadRng {
    rand::rng()
}

/// Fills a fresh buffer of `n` bytes with `Rng::fill_bytes` on `rng`.
/// Only the length of the result is claimed: its contents are random.
#[verifier::external_body]
pub(crate) fn random_bytes(rng: &mut ThreadRng, n: usize) -> (v: Vec<u8>)
    ensures
        v@.len() == n,
{
    let mut v = vec![0u8; n];
    rng.fill_bytes(&mut v);
    v
}

} // verus!
