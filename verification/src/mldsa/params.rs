use vstd::prelude::*;

verus! {

/// The ML-DSA parameter sets this library manages keys for.
#[derive(Debug, Clone, Copy, PartialEq, Eq, Structural)]
pub enum MlDsaParamSet {
    MlDsa44,
    MlDsa65,
}

/// Length in bytes of an ML-DSA key-generation seed.
pub const ML_DSA_SEED_SIZE: usize = 32;

/// Largest context string ML-DSA accepts (FIPS 204).
pub const MAX_CONTEXT_LEN: usize = 255;

pub open spec fn spec_public_key_len(p: MlDsaParamSet) -> nat {
    match p {
        MlDsaParamSet::MlDsa44 => 1312,
        MlDsaParamSet::MlDsa65 => 1952,
    }
}

pub open spec fn spec_secret_key_len(p: MlDsaParamSet) -> nat {
    match p {
        MlDsaParamSet::MlDsa44 => 2560,
        MlDsaParamSet::MlDsa65 => 4032,
    }
}

pub open spec fn spec_signature_len(p: MlDsaParamSet) -> nat {
    match p {
        MlDsaParamSet::MlDsa44 => 2420,
        MlDsaParamSet::MlDsa65 => 3309,
    }
}

/// The collision strength of c̃ (λ in FIPS 204 Table 1).
pub open spec fn spec_security_bits(p: MlDsaParamSet) -> nat {
    match p {
        MlDsaParamSet::MlDsa44 => 128,
        MlDsaParamSet::MlDsa65 => 192,
    }
}

/// η, the bound on the coefficients of the secret vectors s1 and s2.
pub open spec fn spec_eta(p: MlDsaParamSet) -> nat {
    match p {
        MlDsaParamSet::MlDsa44 => 2,
        MlDsaParamSet::MlDsa65 => 4,
    }
}

/// Bits per packed coefficient of s1 and s2: the bit length of 2η.
pub open spec fn spec_eta_bits(p: MlDsaParamSet) -> nat {
    match p {
        MlDsaParamSet::MlDsa44 => 3,
        MlDsaParamSet::MlDsa65 => 4,
    }
}

/// Number of coefficients in s1 and s2 together: (ℓ + k) · 256.
pub open spec fn spec_secret_coefficient_count(p: MlDsaParamSet) -> nat {
    match p {
        MlDsaParamSet::MlDsa44 => 2048,
        MlDsaParamSet::MlDsa65 => 2816,
    }
}

/// Offset of s1 in an expanded secret key: after ρ, K and tr.
pub open spec fn spec_secret_vectors_offset() -> nat {
    128
}

/// Content octets of the object identifier of the parameter set:
/// id-ml-dsa-44 is 2.16.840.1.101.3.4.3.17, id-ml-dsa-65 is
/// 2.16.840.1.101.3.4.3.18 (NIST CSOR).
pub open spec fn spec_oid(p: MlDsaParamSet) -> Seq<u8> {
    match p {
        MlDsaParamSet::MlDsa44 => seq![0x60u8, 0x86, 0x48, 0x01, 0x65, 0x03, 0x04, 0x03, 0x11],
        MlDsaParamSet::MlDsa65 => seq![0x60u8, 0x86, 0x48, 0x01, 0x65, 0x03, 0x04, 0x03, 0x12],
    }
}

impl MlDsaParamSet {
    /// Content octets of the parameter set's object identifier.
    pub fn oid(self) -> (v: Vec<u8>)
        ensures
            v@ == spec_oid(self),
    {
        let last: u8 = match self {
            MlDsaParamSet::MlDsa44 => 0x11,
            MlDsaParamSet::MlDsa65 => 0x12,
        };
        let v: Vec<u8> = vec![0x60u8, 0x86, 0x48, 0x01, 0x65, 0x03, 0x04, 0x03, last];
        assert(v@ =~= spec_oid(self));
        v
    }

    pub fn public_key_len(self) -> (n: usize)
        ensures
            n == spec_public_key_len(self),
    {
        match self {
            MlDsaParamSet::MlDsa44 => 1312,
            MlDsaParamSet::MlDsa65 => 1952,
        }
    }

    pub fn secret_key_len(self) -> (n: usize)
        ensures
            n == spec_secret_key_len(self),
    {
        match self {
            MlDsaParamSet::MlDsa44 => 2560,
            MlDsaParamSet::MlDsa65 => 4032,
        }
    }

    pub fn signature_len(self) -> (n: usize)
        ensures
            n == spec_signature_len(self),
    {
        match self {
            MlDsaParamSet::MlDsa44 => 2420,
            MlDsaParamSet::MlDsa65 => 3309,
        }
    }

    pub fn security_bits(self) -> (n: u32)
        ensures
            n == spec_security_bits(self),
    {
        match self {
            MlDsaParamSet::MlDsa44 => 128,
            MlDsaParamSet::MlDsa65 => 192,
        }
    }

    pub fn eta(self) -> (n: u32)
        ensures
            n == spec_eta(self),
    {
        match self {
            MlDsaParamSet::MlDsa44 => 2,
            MlDsaParamSet::MlDsa65 => 4,
        }
    }

    pub fn eta_bits(self) -> (n: usize)
        ensures
            n == spec_eta_bits(self),
    {
        match self {
            MlDsaParamSet::MlDsa44 => 3,
            MlDsaParamSet::MlDsa65 => 4,
        }
    }

    pub fn secret_coefficient_count(self) -> (n: usize)
        ensures
            n == spec_secret_coefficient_count(self),
    {
        match self {
            MlDsaParamSet::MlDsa44 => 2048,
            MlDsaParamSet::MlDsa65 => 2816,
        }
    }
}

} // verus!
