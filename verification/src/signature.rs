use vstd::prelude::*;

verus! {

/// Why a signature was not accepted.
#[derive(Debug, Clone, Copy, PartialEq, Eq, Structural)]
pub enum VerificationError {
    /// The signature does not verify.
    InvalidSignature,
    /// Verification could not be carried out (malformed input, missing key).
    GenericVerificationError,
}

impl VerificationError {
    /// The verification error carried by an error's source, if its source is
    /// one; otherwise [`VerificationError::GenericVerificationError`].
    pub fn from_source(source: Option<VerificationError>) -> (e: VerificationError)
        ensures
            e == match source {
                Some(v) => v,
                None => VerificationError::GenericVerificationError,
            },
    {
        match source {
            Some(VerificationError::InvalidSignature) => VerificationError::InvalidSignature,
            Some(VerificationError::GenericVerificationError) => VerificationError::GenericVerificationError,
            None => VerificationError::GenericVerificationError,
        }
    }

    /// The message of the error.
    pub fn message(&self) -> (s: &'static str)
        ensures
            s@ == match self {
                VerificationError::InvalidSignature => "error: verification failed"@,
                VerificationError::GenericVerificationError => "error: generic internal failure"@,
            },
    {
        match self {
            VerificationError::InvalidSignature => "error: verification failed",
            VerificationError::GenericVerificationError => "error: generic internal failure",
        }
    }
}

} // verus!
