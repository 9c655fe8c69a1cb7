use vstd::prelude::*;

verus! {

/// Errors reported by the library.
#[derive(Debug, Clone, Copy, PartialEq, Eq, Structural)]
pub enum Error {
    /// A byte string did not have the length its format demands.
    LengthMismatch { expected: usize, actual: usize },
    /// An encoded key was rejected by the key format or the backend.
    InvalidKey,
    /// A DER structure did not match the expected grammar.
    MalformedDer,
    /// The key has no seed form.
    MissingSeed,
    /// A key pair does not hold a private key.
    MissingPrivateKey,
    /// A key pair does not hold a public key.
    MissingPublicKey,
    /// A signing or verification context string longer than 255 bytes.
    ContextTooLong,
    /// The expanded key stored with a seed does not match the seed.
    ExpandedKeyMismatch,
    /// The backend reported a failure.
    Backend,
    /// An operation on a registry that was already finalized.
    AlreadyFinalized,
    /// A raw buffer argument was null.
    NullPointer,
    /// A raw buffer argument had length zero.
    ZeroLength,
    /// A key selection that does not ask for what the operation needs.
    InvalidSelection,
    /// A content too long for the DER lengths this library writes.
    TooLong,
    /// A parameter of a request has no key.
    MissingParamKey,
}

} // verus!
