use vstd::prelude::*;
use crate::mldsa::params::{
    MlDsaParamSet, spec_eta, spec_eta_bits, spec_secret_coefficient_count, spec_secret_key_len,
    spec_secret_vectors_offset,
};

verus! {

/// Bit `k` of a byte string read least-significant bit first.
pub open spec fn bit_at(s: Seq<u8>, k: int) -> u8 {
    (s[k / 8] >> ((k % 8) as u8)) & 1u8
}

/// The `w`-bit little-endian integer starting at bit `start`.
pub open spec fn bits_value(s: Seq<u8>, start: int, w: nat) -> nat
    decreases w,
{
    if w == 0 {
        0
    } else {
        bit_at(s, start) as nat + 2 * bits_value(s, start + 1, (w - 1) as nat)
    }
}

/// The `i`-th packed coefficient of s1‖s2 in an expanded secret key.
pub open spec fn packed_secret_coefficient(p: MlDsaParamSet, sk: Seq<u8>, i: int) -> nat {
    bits_value(sk, (spec_secret_vectors_offset() * 8) + i * spec_eta_bits(p), spec_eta_bits(p))
}

/// Every packed coefficient of s1 and s2 lies in 0..=2η, i.e. unpacks to a
/// value in [-η, η]. Expanded keys outside this set are rejected: unpacking
/// them is not defined by FIPS 204 (BitUnpack) and the `ml-dsa` crate
/// panics on them.
pub open spec fn secret_coefficients_in_range(p: MlDsaParamSet, sk: Seq<u8>) -> bool {
    &&& sk.len() == spec_secret_key_len(p)
    &&& forall|i: int|
        0 <= i < spec_secret_coefficient_count(p) ==> #[trigger] packed_secret_coefficient(p, sk, i)
            <= 2 * spec_eta(p)
}

proof fn lemma_bit_at_le_1(b: u8, j: u8)
    requires
        j < 8,
    ensures
        (b >> j) & 1u8 <= 1,
{
    assert((b >> j) & 1u8 <= 1) by (bit_vector);
}

proof fn lemma_bits_value_bound(s: Seq<u8>, start: int, w: nat)
    requires
        0 <= start,
        start + w <= s.len() * 8,
    ensures
        bits_value(s, start, w) < pow2_nat(w),
    decreases w,
{
    if w > 0 {
        lemma_bit_at_le_1(s[start / 8], (start % 8) as u8);
        lemma_bits_value_bound(s, start + 1, (w - 1) as nat);
    }
}

pub open spec fn pow2_nat(w: nat) -> nat
    decreases w,
{
    if w == 0 {
        1
    } else {
        2 * pow2_nat((w - 1) as nat)
    }
}

fn read_bits(s: &[u8], start: usize, w: usize) -> (v: u32)
    requires
        w <= 4,
        start + w <= s@.len() * 8,
        start + w <= usize::MAX,
    ensures
        v == bits_value(s@, start as int, w as nat),
    decreases w,
{
    if w == 0 {
        0
    } else {
        let byte = s[start / 8];
        let b = (byte >> ((start % 8) as u8)) & 1u8;
        proof {
            lemma_bit_at_le_1(byte, (start % 8) as u8);
            lemma_bits_value_bound(s@, start as int + 1, (w - 1) as nat);
            reveal_with_fuel(pow2_nat, 4);
            assert(pow2_nat((w - 1) as nat) <= 8);
        }
        let rest = read_bits(s, start + 1, w - 1);
        b as u32 + 2 * rest
    }
}

/// Whether every packed coefficient of s1 and s2 in the expanded secret key
/// `sk` lies in 0..=2η.
pub fn check_secret_coefficients(p: MlDsaParamSet, sk: &[u8]) -> (ok: bool)
    ensures
        ok == secret_coefficients_in_range(p, sk@),
{
    if sk.len() != p.secret_key_len() {
        return false;
    }
    let count = p.secret_coefficient_count();
    let w = p.eta_bits();
    let bound = 2 * p.eta();
    let mut i: usize = 0;
    while i < count
        invariant
            sk@.len() == spec_secret_key_len(p),
            count == spec_secret_coefficient_count(p),
            w == spec_eta_bits(p),
            bound == 2 * spec_eta(p),
            i <= count,
            forall|j: int| 0 <= j < i ==> #[trigger] packed_secret_coefficient(p, sk@, j) <= 2 * spec_eta(p),
        decreases count - i,
    {
        proof {
            assert(i * w <= count * w) by (nonlinear_arith)
                requires i < count;
            assert((i + 1) * w <= count * w) by (nonlinear_arith)
                requires i < count;
            assert((i + 1) * w == i * w + w) by (nonlinear_arith);
        }
        let start = 1024 + i * w;
        let v = read_bits(sk, start, w);
        if v > bound {
            assert(packed_secret_coefficient(p, sk@, i as int) > 2 * spec_eta(p));
            return false;
        }
        i = i + 1;
    }
    true
}

} // verus!
