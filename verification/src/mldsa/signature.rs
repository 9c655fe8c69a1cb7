use vstd::prelude::*;
use crate::der::copy_range;
use crate::error::Error;
use crate::mldsa::params::{MlDsaParamSet, spec_signature_len};

verus! {

/// An ML-DSA signature: exactly the signature length of its parameter set.
#[derive(Debug)]
pub struct Signature {
    params: MlDsaParamSet,
    bytes: Vec<u8>,
}

/// The raw bytes of a [`Signature`].
#[derive(Debug)]
pub struct SignatureBytes(Vec<u8>);

impl Signature {
    #[verifier::type_invariant]
    spec fn length_matches(self) -> bool {
        self.bytes@.len() == spec_signature_len(self.params)
    }

    pub closed spec fn params(&self) -> MlDsaParamSet {
        self.params
    }

    pub closed spec fn spec_bytes(&self) -> Seq<u8> {
        self.bytes@
    }

    /// Takes `value` as a signature of parameter set `p`; it must be exactly
    /// the signature length of `p`.
    pub fn try_from(p: MlDsaParamSet, value: &[u8]) -> (r: Result<Signature, Error>)
        ensures
            r is Ok <==> value@.len() == spec_signature_len(p),
            r matches Ok(s) ==> s.params() == p && s.spec_bytes() == value@,
            r matches Err(e) ==> e == (Error::LengthMismatch {
                expected: spec_signature_len(p) as usize,
                actual: value@.len() as usize,
            }),
    {
        let expected = p.signature_len();
        if value.len() != expected {
            return Err(Error::LengthMismatch { expected, actual: value.len() });
        }
        let bytes = copy_range(value, 0, value.len());
        assert(bytes@ =~= value@);
        Ok(Signature { params: p, bytes })
    }

    /// The parameter set of the signature.
    pub fn param_set(&self) -> (p: MlDsaParamSet)
        ensures
            p == self.params(),
    {
        self.params
    }

    /// The encoded signature.
    pub fn to_bytes(&self) -> (b: SignatureBytes)
        ensures
            b@ == self.spec_bytes(),
    {
        SignatureBytes(copy_range(self.bytes.as_slice(), 0, self.bytes.len()))
    }

    /// Converts the signature into its encoding; this never fails.
    pub fn try_into(self) -> (r: Result<SignatureBytes, Error>)
        ensures
            r matches Ok(b) && b@ == self.spec_bytes(),
    {
        Ok(SignatureBytes(self.bytes))
    }

    /// The signature bytes.
    pub fn as_slice(&self) -> (s: &[u8])
        ensures
            s@ == self.spec_bytes(),
            s@.len() == spec_signature_len(self.params()),
    {
        proof {
            use_type_invariant(self);
        }
        self.bytes.as_slice()
    }
}

impl View for SignatureBytes {
    type V = Seq<u8>;

    closed spec fn view(&self) -> Seq<u8> {
        self.0@
    }
}

impl SignatureBytes {
    /// The bytes.
    pub fn as_ref(&self) -> (s: &[u8])
        ensures
            s@ == self@,
    {
        self.0.as_slice()
    }
}

} // verus!
