use vstd::prelude::*;
use rand::rngs::ThreadRng;

verus! {

/// A value that can be encapsulated to: a public key, or a bundle of them.
pub trait Encapsulate<EK, SS> {
    /// Encapsulation error.
    type Error;

    /// Encapsulates a fresh shared secret, returning the encapsulated key and
    /// the shared secret.
    fn encapsulate(&self, rng: &mut ThreadRng) -> Result<(EK, SS), Self::Error>;
}

/// A value that can decapsulate an encapsulated key: a secret key, or a
/// bundle of them.
pub trait Decapsulate<EK, SS> {
    /// Decapsulation error.
    type Error;

    /// Decapsulates the given encapsulated key.
    fn decapsulate(&self, encapsulated_key: &EK) -> Result<SS, Self::Error>;
}

} // verus!
