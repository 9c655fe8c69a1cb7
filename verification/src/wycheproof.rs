//! Running Wycheproof test vectors against a signature algorithm.
//!
//! A test set is a list of groups; a group holds one key and test cases
//! for it. The runners classify every case as passed or failed and count
//! them, without stopping at the first failure. When the key of a group
//! does not decode, every case of the group is checked against that
//! failure at once.

use vstd::prelude::*;
use crate::der::{bytes_eq, copy_range};
use crate::error::Error;
use crate::mldsa::backend::{spec_expanded_from_seed, spec_public_from_expanded, spec_verify_accepts};
use crate::mldsa::keys::{PrivateKey, PublicKey, spec_decode_private_key, spec_encode_private_key};
use crate::mldsa::params::{MlDsaParamSet, spec_public_key_len, spec_signature_len, MAX_CONTEXT_LEN, ML_DSA_SEED_SIZE};
use crate::mldsa::signature::Signature;
use crate::signature::VerificationError;

verus! {

/// The expected result of a test case.
#[derive(Debug, Clone, Copy, PartialEq, Eq, Structural)]
pub enum TestResult {
    Valid,
    Invalid,
    Acceptable,
}

/// The flags of a test case that the runners look at.
#[derive(Debug, Clone, Copy, PartialEq, Eq, Structural)]
pub enum TestFlag {
    IncorrectPublicKeyLength,
    IncorrectPrivateKeyLength,
    InvalidPrivateKey,
    /// Any other flag.
    Other,
}

/// A verification test case.
#[derive(Debug)]
pub struct VerifyTestCase {
    pub tc_id: usize,
    pub comment: String,
    pub msg: Vec<u8>,
    pub sig: Vec<u8>,
    pub ctx: Option<Vec<u8>>,
    pub result: TestResult,
    pub flags: Vec<TestFlag>,
}

/// A group of verification test cases under one public key.
#[derive(Debug)]
pub struct VerifyTestGroup {
    pub pubkey: Vec<u8>,
    pub tests: Vec<VerifyTestCase>,
}

/// A signing test case.
#[derive(Debug)]
pub struct SignTestCase {
    pub tc_id: usize,
    pub comment: String,
    pub msg: Vec<u8>,
    pub ctx: Option<Vec<u8>>,
    pub sig: Vec<u8>,
    pub result: TestResult,
    pub flags: Vec<TestFlag>,
}

/// A group of signing test cases under one private key, given as a seed,
/// as an encoded key, or both.
#[derive(Debug)]
pub struct SignTestGroup {
    pub privseed: Option<Vec<u8>>,
    pub privkey: Option<Vec<u8>>,
    pub tests: Vec<SignTestCase>,
}

/// A group of composite signing test cases under one encoded private key.
#[derive(Debug)]
pub struct CompositeSignTestGroup {
    pub privkey: Vec<u8>,
    pub tests: Vec<SignTestCase>,
}

/// The outcome of a signing test case: whether it passed, and the encoded
/// signature when it was compared with the expected one.
#[derive(Debug)]
pub struct SignOutcome {
    pub passed: bool,
    pub signature: Option<Vec<u8>>,
}

/// The counts of a run, and the outcome of every case in order.
#[derive(Debug)]
pub struct VerifyReport {
    pub passed: usize,
    pub failed: usize,
    pub outcomes: Vec<bool>,
}

/// The counts of a run, and the outcome of every case in order.
#[derive(Debug)]
pub struct SignReport {
    pub passed: usize,
    pub failed: usize,
    pub outcomes: Vec<SignOutcome>,
}

/// A signature algorithm as the verification runners see it.
pub trait SigAlgVerifyVariant {
    type PublicKey;
    type Signature;

    /// Whether `bytes` decode as a public key.
    spec fn pubkey_valid(bytes: Seq<u8>) -> bool;

    /// Whether `bytes` decode as a signature.
    spec fn signature_valid(bytes: Seq<u8>) -> bool;

    /// A public key that decoding gives.
    spec fn pubkey_wf(pk: Self::PublicKey) -> bool;

    /// The bytes a public key was decoded from.
    spec fn pubkey_bytes(pk: Self::PublicKey) -> Seq<u8>;

    /// A signature that decoding gives.
    spec fn signature_wf(sig: Self::Signature) -> bool;

    /// The bytes a signature was decoded from.
    spec fn signature_bytes(sig: Self::Signature) -> Seq<u8>;

    /// Whether verification accepts `sig` on `msg` under `ctx` and the key
    /// `pk`.
    spec fn accepts(pk: Seq<u8>, msg: Seq<u8>, sig: Seq<u8>, ctx: Seq<u8>) -> bool;

    fn decode_pubkey(bytes: &[u8]) -> (r: Result<Self::PublicKey, Error>)
        ensures
            r is Ok <==> Self::pubkey_valid(bytes@),
            r matches Ok(pk) ==> Self::pubkey_wf(pk) && Self::pubkey_bytes(pk) == bytes@,
    ;

    fn decode_signature(bytes: &[u8]) -> (r: Result<Self::Signature, Error>)
        ensures
            r is Ok <==> Self::signature_valid(bytes@),
            r matches Ok(s) ==> Self::signature_wf(s) && Self::signature_bytes(s) == bytes@,
    ;

    fn verify(pubkey: &Self::PublicKey, msg: &[u8], sig: &Self::Signature) -> (r: Result<(), VerificationError>)
        requires
            Self::pubkey_wf(*pubkey),
            Self::signature_wf(*sig),
        ensures
            r is Ok <==> Self::accepts(Self::pubkey_bytes(*pubkey), msg@, Self::signature_bytes(*sig), Seq::empty()),
    ;

    fn verify_with_ctx(pubkey: &Self::PublicKey, msg: &[u8], sig: &Self::Signature, ctx: &[u8]) -> (r: Result<(), VerificationError>)
        requires
            Self::pubkey_wf(*pubkey),
            Self::signature_wf(*sig),
        ensures
            r is Ok <==> Self::accepts(Self::pubkey_bytes(*pubkey), msg@, Self::signature_bytes(*sig), ctx@),
    ;
}

/// A signature algorithm as the signing runners see it.
pub trait SigAlgSignVariant {
    type PrivateKey;
    type Signature;

    /// Whether `bytes` decode as a private key.
    spec fn privkey_valid(bytes: Seq<u8>) -> bool;

    /// A private key that decoding gives.
    spec fn privkey_wf(sk: Self::PrivateKey) -> bool;

    /// The bytes a private key was decoded from.
    spec fn privkey_bytes(sk: Self::PrivateKey) -> Seq<u8>;

    /// Whether signing `msg` under `ctx` with the key `sk` succeeds.
    spec fn sign_succeeds(sk: Seq<u8>, msg: Seq<u8>, ctx: Seq<u8>) -> bool;

    /// The encoding of a signature.
    spec fn signature_encoding(sig: Self::Signature) -> Seq<u8>;

    /// Whether `sig` is an encoded signature that signing `msg` under `ctx`
    /// with the key encoded as `sk` may produce.
    spec fn signs(sk: Seq<u8>, msg: Seq<u8>, ctx: Seq<u8>, sig: Seq<u8>) -> bool;

    fn decode_privkey(bytes: &[u8]) -> (r: Result<Self::PrivateKey, Error>)
        ensures
            r is Ok <==> Self::privkey_valid(bytes@),
            r matches Ok(sk) ==> Self::privkey_wf(sk) && Self::privkey_bytes(sk) == bytes@,
    ;

    fn try_sign(privkey: &Self::PrivateKey, msg: &[u8]) -> (r: Result<Self::Signature, Error>)
        requires
            Self::privkey_wf(*privkey),
        ensures
            r is Ok <==> Self::sign_succeeds(Self::privkey_bytes(*privkey), msg@, Seq::empty()),
            r matches Ok(sig) ==> Self::signs(
                Self::privkey_bytes(*privkey),
                msg@,
                Seq::empty(),
                Self::signature_encoding(sig),
            ),
    ;

    fn try_sign_with_ctx(privkey: &Self::PrivateKey, msg: &[u8], ctx: &[u8]) -> (r: Result<Self::Signature, Error>)
        requires
            Self::privkey_wf(*privkey),
        ensures
            r is Ok <==> Self::sign_succeeds(Self::privkey_bytes(*privkey), msg@, ctx@),
            r matches Ok(sig) ==> Self::signs(Self::privkey_bytes(*privkey), msg@, ctx@, Self::signature_encoding(sig)),
    ;

    fn encode_signature(sig: &Self::Signature) -> (v: Vec<u8>)
        ensures
            v@ == Self::signature_encoding(*sig),
    ;
}

/// Whether verification of ML-DSA parameter set `p` accepts `sig` on `msg`
/// under `ctx` and the key `pk`: the context is at most 255 bytes long and
/// the backend accepts.
pub open spec fn mldsa_accepts(p: MlDsaParamSet, pk: Seq<u8>, msg: Seq<u8>, sig: Seq<u8>, ctx: Seq<u8>) -> bool {
    ctx.len() <= MAX_CONTEXT_LEN && spec_verify_accepts(p, pk, msg, ctx, sig)
}

/// ML-DSA-44, as a signature algorithm under test.
pub struct MlDsa44;

/// ML-DSA-65, as a signature algorithm under test.
pub struct MlDsa65;

impl SigAlgVerifyVariant for MlDsa44 {
    type PublicKey = PublicKey;
    type Signature = Signature;

    open spec fn pubkey_valid(bytes: Seq<u8>) -> bool {
        bytes.len() == spec_public_key_len(MlDsaParamSet::MlDsa44)
    }

    open spec fn signature_valid(bytes: Seq<u8>) -> bool {
        bytes.len() == spec_signature_len(MlDsaParamSet::MlDsa44)
    }

    open spec fn pubkey_wf(pk: PublicKey) -> bool {
        pk.params() == MlDsaParamSet::MlDsa44
    }

    open spec fn pubkey_bytes(pk: PublicKey) -> Seq<u8> {
        pk.spec_bytes()
    }

    open spec fn signature_wf(sig: Signature) -> bool {
        sig.params() == MlDsaParamSet::MlDsa44
    }

    open spec fn signature_bytes(sig: Signature) -> Seq<u8> {
        sig.spec_bytes()
    }

    open spec fn accepts(pk: Seq<u8>, msg: Seq<u8>, sig: Seq<u8>, ctx: Seq<u8>) -> bool {
        mldsa_accepts(MlDsaParamSet::MlDsa44, pk, msg, sig, ctx)
    }

    fn decode_pubkey(bytes: &[u8]) -> (r: Result<PublicKey, Error>) {
        PublicKey::decode(MlDsaParamSet::MlDsa44, bytes)
    }

    fn decode_signature(bytes: &[u8]) -> (r: Result<Signature, Error>) {
        Signature::try_from(MlDsaParamSet::MlDsa44, bytes)
    }

    fn verify(pubkey: &PublicKey, msg: &[u8], sig: &Signature) -> (r: Result<(), VerificationError>) {
        pubkey.verify(msg, sig)
    }

    fn verify_with_ctx(pubkey: &PublicKey, msg: &[u8], sig: &Signature, ctx: &[u8]) -> (r: Result<(), VerificationError>) {
        pubkey.verify_with_ctx(msg, sig, ctx)
    }
}

impl SigAlgVerifyVariant for MlDsa65 {
    type PublicKey = PublicKey;
    type Signature = Signature;

    open spec fn pubkey_valid(bytes: Seq<u8>) -> bool {
        bytes.len() == spec_public_key_len(MlDsaParamSet::MlDsa65)
    }

    open spec fn signature_valid(bytes: Seq<u8>) -> bool {
        bytes.len() == spec_signature_len(MlDsaParamSet::MlDsa65)
    }

    open spec fn pubkey_wf(pk: PublicKey) -> bool {
        pk.params() == MlDsaParamSet::MlDsa65
    }

    open spec fn pubkey_bytes(pk: PublicKey) -> Seq<u8> {
        pk.spec_bytes()
    }

    open spec fn signature_wf(sig: Signature) -> bool {
        sig.params() == MlDsaParamSet::MlDsa65
    }

    open spec fn signature_bytes(sig: Signature) -> Seq<u8> {
        sig.spec_bytes()
    }

    open spec fn accepts(pk: Seq<u8>, msg: Seq<u8>, sig: Seq<u8>, ctx: Seq<u8>) -> bool {
        mldsa_accepts(MlDsaParamSet::MlDsa65, pk, msg, sig, ctx)
    }

    fn decode_pubkey(bytes: &[u8]) -> (r: Result<PublicKey, Error>) {
        PublicKey::decode(MlDsaParamSet::MlDsa65, bytes)
    }

    fn decode_signature(bytes: &[u8]) -> (r: Result<Signature, Error>) {
        Signature::try_from(MlDsaParamSet::MlDsa65, bytes)
    }

    fn verify(pubkey: &PublicKey, msg: &[u8], sig: &Signature) -> (r: Result<(), VerificationError>) {
        pubkey.verify(msg, sig)
    }

    fn verify_with_ctx(pubkey: &PublicKey, msg: &[u8], sig: &Signature, ctx: &[u8]) -> (r: Result<(), VerificationError>) {
        pubkey.verify_with_ctx(msg, sig, ctx)
    }
}

/// The context string of a case: empty when the case has none.
pub open spec fn case_ctx(ctx: Option<Vec<u8>>) -> Seq<u8> {
    match ctx {
        Some(c) => c@,
        None => Seq::empty(),
    }
}

/// Whether a verification case passes under the public key `pk`: when the
/// key does not decode, the case must expect Invalid and be flagged as
/// having an incorrect public key length; when the signature does not
/// decode, the case must expect Invalid; otherwise a Valid case must
/// verify and an Invalid case must not.
pub open spec fn verify_case_passes<V: SigAlgVerifyVariant>(pk: Seq<u8>, t: VerifyTestCase) -> bool {
    if !V::pubkey_valid(pk) {
        t.result == TestResult::Invalid && t.flags@.contains(TestFlag::IncorrectPublicKeyLength)
    } else if !V::signature_valid(t.sig@) {
        t.result == TestResult::Invalid
    } else {
        let ok = V::accepts(pk, t.msg@, t.sig@, case_ctx(t.ctx));
        (t.result == TestResult::Valid && ok) || (t.result == TestResult::Invalid && !ok)
    }
}

/// Whether a composite verification case passes under the public key
/// `pk`: as for a plain case, but without context strings and without
/// looking at the flags when the key does not decode.
pub open spec fn composite_verify_case_passes<V: SigAlgVerifyVariant>(pk: Seq<u8>, t: VerifyTestCase) -> bool {
    if !V::pubkey_valid(pk) {
        t.result == TestResult::Invalid
    } else if !V::signature_valid(t.sig@) {
        t.result == TestResult::Invalid
    } else {
        let ok = V::accepts(pk, t.msg@, t.sig@, Seq::empty());
        (t.result == TestResult::Valid && ok) || (t.result == TestResult::Invalid && !ok)
    }
}

/// The cases of a verification test set in order, each with the public key
/// of its group.
pub open spec fn verify_cases(gs: Seq<VerifyTestGroup>) -> Seq<(Seq<u8>, VerifyTestCase)>
    decreases gs.len(),
{
    if gs.len() == 0 {
        Seq::empty()
    } else {
        verify_cases(gs.drop_last()) + gs.last().tests@.map_values(
            |t: VerifyTestCase| (gs.last().pubkey@, t),
        )
    }
}

/// The number of `true`s in `s`.
pub open spec fn count_true(s: Seq<bool>) -> nat
    decreases s.len(),
{
    if s.len() == 0 {
        0
    } else {
        count_true(s.drop_last()) + if s.last() { 1nat } else { 0nat }
    }
}

proof fn lemma_count_true_push(s: Seq<bool>, b: bool)
    ensures
        count_true(s.push(b)) == count_true(s) + if b { 1nat } else { 0nat },
        count_true(s) <= s.len(),
    decreases s.len(),
{
    assert(s.push(b).drop_last() =~= s);
    if s.len() > 0 {
        lemma_count_true_push(s.drop_last(), s.last());
        assert(s.drop_last().push(s.last()) =~= s);
    }
}

/// When every outcome counts as passed, every outcome is `true`.
proof fn lemma_count_true_all(s: Seq<bool>)
    requires
        count_true(s) == s.len(),
    ensures
        forall|i: int| 0 <= i < s.len() ==> #[trigger] s[i],
    decreases s.len(),
{
    if s.len() > 0 {
        lemma_count_true_push(s.drop_last(), s.last());
        assert(s.drop_last().push(s.last()) =~= s);
        lemma_count_true_all(s.drop_last());
        assert forall|i: int| 0 <= i < s.len() implies #[trigger] s[i] by {
            if i < s.len() - 1 {
                assert(s[i] == s.drop_last()[i]);
            }
        }
    }
}

/// A verification case whose key and signature decode passes exactly when
/// the verifier's answer agrees with its label: a Valid case it accepts,
/// an Invalid case it rejects. An Invalid case the verifier accepts, a
/// Valid case it rejects, and an Acceptable case fail.
pub proof fn lemma_verify_verdict_agrees_with_label<V: SigAlgVerifyVariant>(pk: Seq<u8>, t: VerifyTestCase)
    requires
        V::pubkey_valid(pk),
        V::signature_valid(t.sig@),
    ensures
        verify_case_passes::<V>(pk, t) <==> t.result != TestResult::Acceptable && (V::accepts(
            pk,
            t.msg@,
            t.sig@,
            case_ctx(t.ctx),
        ) <==> t.result == TestResult::Valid),
        composite_verify_case_passes::<V>(pk, t) <==> t.result != TestResult::Acceptable && (V::accepts(
            pk,
            t.msg@,
            t.sig@,
            Seq::empty(),
        ) <==> t.result == TestResult::Valid),
{
}

proof fn lemma_verify_cases_step(gs: Seq<VerifyTestGroup>, gi: int)
    requires
        0 <= gi < gs.len(),
    ensures
        verify_cases(gs.take(gi + 1)) == verify_cases(gs.take(gi)) + gs[gi].tests@.map_values(
            |t: VerifyTestCase| (gs[gi].pubkey@, t),
        ),
{
    assert(gs.take(gi + 1).drop_last() =~= gs.take(gi));
}

/// Decides one verification case; `pk` is the decoded key of the group,
/// if it decoded from `pkb`.
fn verify_case_verdict<V: SigAlgVerifyVariant>(
    pk: &Option<V::PublicKey>,
    t: &VerifyTestCase,
    composite: bool,
    Ghost(pkb): Ghost<Seq<u8>>,
) -> (b: bool)
    requires
        *pk is Some <==> V::pubkey_valid(pkb),
        *pk matches Some(k) ==> V::pubkey_wf(k) && V::pubkey_bytes(k) == pkb,
    ensures
        !composite ==> b == verify_case_passes::<V>(pkb, *t),
        composite ==> b == composite_verify_case_passes::<V>(pkb, *t),
{
    let pubkey = match pk {
        Some(k) => k,
        None => {
            if composite {
                return t.result == TestResult::Invalid;
            }
            return t.result == TestResult::Invalid && has_flag(&t.flags, TestFlag::IncorrectPublicKeyLength);
        },
    };
    let sig = match V::decode_signature(t.sig.as_slice()) {
        Ok(s) => s,
        Err(_) => {
            return t.result == TestResult::Invalid;
        },
    };
    let empty: Vec<u8> = Vec::new();
    let ctx: &[u8] = match &t.ctx {
        Some(c) => {
            if composite {
                empty.as_slice()
            } else {
                c.as_slice()
            }
        },
        None => empty.as_slice(),
    };
    assert(empty@ =~= Seq::<u8>::empty());
    let result = if ctx.len() != 0 {
        V::verify_with_ctx(pubkey, t.msg.as_slice(), &sig, ctx)
    } else {
        V::verify(pubkey, t.msg.as_slice(), &sig)
    };
    proof {
        if ctx@.len() == 0 {
            assert(ctx@ =~= Seq::<u8>::empty());
        }
    }
    match (t.result, result.is_ok()) {
        (TestResult::Valid, true) => true,
        (TestResult::Invalid, false) => true,
        _ => false,
    }
}

/// Whether `flags` holds `f`.
pub fn has_flag(flags: &Vec<TestFlag>, f: TestFlag) -> (b: bool)
    ensures
        b == flags@.contains(f),
{
    let mut i: usize = 0;
    while i < flags.len()
        invariant
            i <= flags@.len(),
            forall|j: int| 0 <= j < i ==> flags@[j] != f,
        decreases flags@.len() - i,
    {
        if flags[i] == f {
            return true;
        }
        i = i + 1;
    }
    false
}

/// Runs verification test groups against `V`.
fn run_verify_groups<V: SigAlgVerifyVariant>(groups: &Vec<VerifyTestGroup>, composite: bool) -> (r: VerifyReport)
    ensures
        r.outcomes@.len() == verify_cases(groups@).len(),
        forall|i: int|
            0 <= i < r.outcomes@.len() ==> #[trigger] r.outcomes@[i] == if composite {
                composite_verify_case_passes::<V>(verify_cases(groups@)[i].0, verify_cases(groups@)[i].1)
            } else {
                verify_case_passes::<V>(verify_cases(groups@)[i].0, verify_cases(groups@)[i].1)
            },
        r.passed == count_true(r.outcomes@),
        r.passed + r.failed == r.outcomes@.len(),
{
    let mut passed: usize = 0;
    let mut failed: usize = 0;
    let mut outcomes: Vec<bool> = Vec::new();
    let mut gi: usize = 0;
    assert(groups@.take(0) =~= Seq::<VerifyTestGroup>::empty());
    while gi < groups.len()
        invariant
            gi <= groups@.len(),
            outcomes@.len() == verify_cases(groups@.take(gi as int)).len(),
            forall|i: int|
                0 <= i < outcomes@.len() ==> #[trigger] outcomes@[i] == if composite {
                    composite_verify_case_passes::<V>(
                        verify_cases(groups@.take(gi as int))[i].0,
                        verify_cases(groups@.take(gi as int))[i].1,
                    )
                } else {
                    verify_case_passes::<V>(
                        verify_cases(groups@.take(gi as int))[i].0,
                        verify_cases(groups@.take(gi as int))[i].1,
                    )
                },
            passed == count_true(outcomes@),
            passed + failed == outcomes@.len(),
        decreases groups@.len() - gi,
    {
        let group = &groups[gi];
        let pk = match V::decode_pubkey(group.pubkey.as_slice()) {
            Ok(k) => Some(k),
            Err(_) => None,
        };
        let ghost base = verify_cases(groups@.take(gi as int));
        let ghost cases = group.tests@.map_values(|t: VerifyTestCase| (group.pubkey@, t));
        let mut ti: usize = 0;
        while ti < group.tests.len()
            invariant
                gi < groups@.len(),
                *group == groups@[gi as int],
                cases == group.tests@.map_values(|t: VerifyTestCase| (group.pubkey@, t)),
                ti <= group.tests@.len(),
                pk is Some <==> V::pubkey_valid(group.pubkey@),
                pk matches Some(k) ==> V::pubkey_wf(k) && V::pubkey_bytes(k) == group.pubkey@,
                outcomes@.len() == base.len() + ti,
                forall|i: int|
                    0 <= i < outcomes@.len() ==> #[trigger] outcomes@[i] == if composite {
                        composite_verify_case_passes::<V>((base + cases)[i].0, (base + cases)[i].1)
                    } else {
                        verify_case_passes::<V>((base + cases)[i].0, (base + cases)[i].1)
                    },
                passed == count_true(outcomes@),
                passed + failed == outcomes@.len(),
            decreases group.tests@.len() - ti,
        {
            let t = &group.tests[ti];
            let b = verify_case_verdict::<V>(&pk, t, composite, Ghost(group.pubkey@));
            proof {
                lemma_count_true_push(outcomes@, b);
            }
            outcomes.push(b);
            let count = outcomes.len();
            if b {
                passed = passed + 1;
            }
            failed = count - passed;
            ti = ti + 1;
        }
        proof {
            lemma_verify_cases_step(groups@, gi as int);
        }
        gi = gi + 1;
    }
    assert(groups@.take(groups@.len() as int) =~= groups@);
    VerifyReport { passed, failed, outcomes }
}

/// Runs ML-DSA verification test groups against `V`. A case passes as
/// [`verify_case_passes`] says; the counts and the outcome of every case,
/// in order, are reported.
pub fn run_mldsa_wycheproof_verify_tests<V: SigAlgVerifyVariant>(groups: &Vec<VerifyTestGroup>) -> (r: VerifyReport)
    ensures
        r.outcomes@.len() == verify_cases(groups@).len(),
        forall|i: int|
            0 <= i < r.outcomes@.len() ==> #[trigger] r.outcomes@[i] == verify_case_passes::<V>(
                verify_cases(groups@)[i].0,
                verify_cases(groups@)[i].1,
            ),
        r.passed == count_true(r.outcomes@),
        r.passed + r.failed == r.outcomes@.len(),
        r.failed == 0 ==> forall|i: int|
            0 <= i < verify_cases(groups@).len() && V::pubkey_valid(#[trigger] verify_cases(groups@)[i].0)
                && V::signature_valid(verify_cases(groups@)[i].1.sig@) ==> verify_cases(groups@)[i].1.result
                != TestResult::Acceptable && (V::accepts(
                verify_cases(groups@)[i].0,
                verify_cases(groups@)[i].1.msg@,
                verify_cases(groups@)[i].1.sig@,
                case_ctx(verify_cases(groups@)[i].1.ctx),
            ) <==> verify_cases(groups@)[i].1.result == TestResult::Valid),
{
    let r = run_verify_groups::<V>(groups, false);
    proof {
        if r.failed == 0 {
            lemma_count_true_all(r.outcomes@);
            assert forall|i: int|
                0 <= i < verify_cases(groups@).len() && V::pubkey_valid(#[trigger] verify_cases(groups@)[i].0)
                    && V::signature_valid(verify_cases(groups@)[i].1.sig@) implies verify_cases(groups@)[i].1.result
                != TestResult::Acceptable && (V::accepts(
                verify_cases(groups@)[i].0,
                verify_cases(groups@)[i].1.msg@,
                verify_cases(groups@)[i].1.sig@,
                case_ctx(verify_cases(groups@)[i].1.ctx),
            ) <==> verify_cases(groups@)[i].1.result == TestResult::Valid) by {
                assert(r.outcomes@[i]);
                lemma_verify_verdict_agrees_with_label::<V>(verify_cases(groups@)[i].0, verify_cases(groups@)[i].1);
            }
        }
    }
    r
}

/// Runs composite ML-DSA verification test groups against `V`. A case
/// passes as [`composite_verify_case_passes`] says; the counts and the
/// outcome of every case, in order, are reported.
pub fn run_composite_mldsa_wycheproof_verify_tests<V: SigAlgVerifyVariant>(groups: &Vec<VerifyTestGroup>) -> (r: VerifyReport)
    ensures
        r.outcomes@.len() == verify_cases(groups@).len(),
        forall|i: int|
            0 <= i < r.outcomes@.len() ==> #[trigger] r.outcomes@[i] == composite_verify_case_passes::<V>(
                verify_cases(groups@)[i].0,
                verify_cases(groups@)[i].1,
            ),
        r.passed == count_true(r.outcomes@),
        r.passed + r.failed == r.outcomes@.len(),
        r.failed == 0 ==> forall|i: int|
            0 <= i < verify_cases(groups@).len() && V::pubkey_valid(#[trigger] verify_cases(groups@)[i].0)
                && V::signature_valid(verify_cases(groups@)[i].1.sig@) ==> verify_cases(groups@)[i].1.result
                != TestResult::Acceptable && (V::accepts(
                verify_cases(groups@)[i].0,
                verify_cases(groups@)[i].1.msg@,
                verify_cases(groups@)[i].1.sig@,
                Seq::empty(),
            ) <==> verify_cases(groups@)[i].1.result == TestResult::Valid),
{
    let r = run_verify_groups::<V>(groups, true);
    proof {
        if r.failed == 0 {
            lemma_count_true_all(r.outcomes@);
            assert forall|i: int|
                0 <= i < verify_cases(groups@).len() && V::pubkey_valid(#[trigger] verify_cases(groups@)[i].0)
                    && V::signature_valid(verify_cases(groups@)[i].1.sig@) implies verify_cases(groups@)[i].1.result
                != TestResult::Acceptable && (V::accepts(
                verify_cases(groups@)[i].0,
                verify_cases(groups@)[i].1.msg@,
                verify_cases(groups@)[i].1.sig@,
                Seq::empty(),
            ) <==> verify_cases(groups@)[i].1.result == TestResult::Valid) by {
                assert(r.outcomes@[i]);
                lemma_verify_verdict_agrees_with_label::<V>(verify_cases(groups@)[i].0, verify_cases(groups@)[i].1);
            }
        }
    }
    r
}


impl SigAlgSignVariant for MlDsa44 {
    type PrivateKey = PrivateKey;
    type Signature = Signature;

    open spec fn privkey_valid(bytes: Seq<u8>) -> bool {
        spec_decode_private_key(MlDsaParamSet::MlDsa44, bytes) is Some
    }

    open spec fn privkey_wf(sk: PrivateKey) -> bool {
        &&& sk.params() == MlDsaParamSet::MlDsa44
        &&& sk.spec_public() == spec_public_from_expanded(MlDsaParamSet::MlDsa44, sk.view().1)
        &&& spec_decode_private_key(MlDsaParamSet::MlDsa44, spec_encode_private_key(sk.view())) == Some(sk.view())
    }

    open spec fn privkey_bytes(sk: PrivateKey) -> Seq<u8> {
        spec_encode_private_key(sk.view())
    }

    open spec fn sign_succeeds(sk: Seq<u8>, msg: Seq<u8>, ctx: Seq<u8>) -> bool {
        ctx.len() <= MAX_CONTEXT_LEN
    }

    open spec fn signature_encoding(sig: Signature) -> Seq<u8> {
        sig.spec_bytes()
    }

    /// A signature of the parameter set's length that, when the key's
    /// expanded form is the expansion of some seed, verifies under the
    /// key's public key.
    open spec fn signs(sk: Seq<u8>, msg: Seq<u8>, ctx: Seq<u8>, sig: Seq<u8>) -> bool {
        mldsa_signs(MlDsaParamSet::MlDsa44, sk, msg, ctx, sig)
    }

    fn decode_privkey(bytes: &[u8]) -> (r: Result<PrivateKey, Error>) {
        PrivateKey::decode(MlDsaParamSet::MlDsa44, bytes)
    }

    fn try_sign(privkey: &PrivateKey, msg: &[u8]) -> (r: Result<Signature, Error>) {
        privkey.try_sign(msg)
    }

    fn try_sign_with_ctx(privkey: &PrivateKey, msg: &[u8], ctx: &[u8]) -> (r: Result<Signature, Error>) {
        privkey.try_sign_with_ctx(msg, ctx)
    }

    fn encode_signature(sig: &Signature) -> (v: Vec<u8>) {
        let b = sig.to_bytes();
        copy_range(b.as_ref(), 0, b.as_ref().len())
    }
}

impl SigAlgSignVariant for MlDsa65 {
    type PrivateKey = PrivateKey;
    type Signature = Signature;

    open spec fn privkey_valid(bytes: Seq<u8>) -> bool {
        spec_decode_private_key(MlDsaParamSet::MlDsa65, bytes) is Some
    }

    open spec fn privkey_wf(sk: PrivateKey) -> bool {
        &&& sk.params() == MlDsaParamSet::MlDsa65
        &&& sk.spec_public() == spec_public_from_expanded(MlDsaParamSet::MlDsa65, sk.view().1)
        &&& spec_decode_private_key(MlDsaParamSet::MlDsa65, spec_encode_private_key(sk.view())) == Some(sk.view())
    }

    open spec fn privkey_bytes(sk: PrivateKey) -> Seq<u8> {
        spec_encode_private_key(sk.view())
    }

    open spec fn sign_succeeds(sk: Seq<u8>, msg: Seq<u8>, ctx: Seq<u8>) -> bool {
        ctx.len() <= MAX_CONTEXT_LEN
    }

    open spec fn signature_encoding(sig: Signature) -> Seq<u8> {
        sig.spec_bytes()
    }

    /// A signature of the parameter set's length that, when the key's
    /// expanded form is the expansion of some seed, verifies under the
    /// key's public key.
    open spec fn signs(sk: Seq<u8>, msg: Seq<u8>, ctx: Seq<u8>, sig: Seq<u8>) -> bool {
        mldsa_signs(MlDsaParamSet::MlDsa65, sk, msg, ctx, sig)
    }

    fn decode_privkey(bytes: &[u8]) -> (r: Result<PrivateKey, Error>) {
        PrivateKey::decode(MlDsaParamSet::MlDsa65, bytes)
    }

    fn try_sign(privkey: &PrivateKey, msg: &[u8]) -> (r: Result<Signature, Error>) {
        privkey.try_sign(msg)
    }

    fn try_sign_with_ctx(privkey: &PrivateKey, msg: &[u8], ctx: &[u8]) -> (r: Result<Signature, Error>) {
        privkey.try_sign_with_ctx(msg, ctx)
    }

    fn encode_signature(sig: &Signature) -> (v: Vec<u8>) {
        let b = sig.to_bytes();
        copy_range(b.as_ref(), 0, b.as_ref().len())
    }
}

/// Whether `sig` is a signature that ML-DSA parameter set `p` may produce
/// on `msg` under `ctx` with the key encoded as `sk`: it has the parameter
/// set's signature length and, when the key's expanded form is the
/// expansion of some seed, it verifies under the public key derived from
/// that expanded form.
pub open spec fn mldsa_signs(p: MlDsaParamSet, sk: Seq<u8>, msg: Seq<u8>, ctx: Seq<u8>, sig: Seq<u8>) -> bool {
    let key = spec_decode_private_key(p, sk)->0;
    let expanded = key.1;
    &&& sig.len() == spec_signature_len(p)
    &&& forall|seed: Seq<u8>|
        seed.len() == ML_DSA_SEED_SIZE && expanded == #[trigger] spec_expanded_from_seed(p, seed)
            ==> spec_verify_accepts(p, spec_public_from_expanded(p, expanded), msg, ctx, sig)
}

/// An optional byte vector, seen as a sequence.
pub open spec fn opt_bytes(v: Option<Vec<u8>>) -> Option<Seq<u8>> {
    match v {
        Some(b) => Some(b@),
        None => None,
    }
}

/// Whether the signing runners compare the produced signature of a case
/// with the expected one: in a deterministic run, when the key decodes,
/// signing succeeds and the case expects Valid.
pub open spec fn sign_case_compares<S: SigAlgSignVariant>(
    sk: Seq<u8>,
    t: SignTestCase,
    composite: bool,
    deterministic: bool,
) -> bool {
    let ctx = if composite { Seq::empty() } else { case_ctx(t.ctx) };
    &&& deterministic
    &&& S::privkey_valid(sk)
    &&& S::sign_succeeds(sk, t.msg@, ctx)
    &&& t.result == TestResult::Valid
}

/// Whether a signing case passes under the private key `sk`, given the
/// encoded signature that was produced when one is compared. When the key
/// does not decode, the case must expect Invalid and (except for composite
/// cases) be flagged as having an incorrect private key length or an
/// invalid private key. Otherwise signing must fail for an Invalid case and
/// succeed for a Valid one, with the expected signature in a deterministic
/// run. Acceptable cases never pass. Composite cases sign without a
/// context string.
pub open spec fn sign_case_passes<S: SigAlgSignVariant>(
    sk: Seq<u8>,
    t: SignTestCase,
    composite: bool,
    deterministic: bool,
    produced: Option<Seq<u8>>,
) -> bool {
    if !S::privkey_valid(sk) {
        t.result == TestResult::Invalid && (composite || t.flags@.contains(TestFlag::IncorrectPrivateKeyLength)
            || t.flags@.contains(TestFlag::InvalidPrivateKey))
    } else {
        let ctx = if composite { Seq::empty() } else { case_ctx(t.ctx) };
        let ok = S::sign_succeeds(sk, t.msg@, ctx);
        if ok && t.result == TestResult::Valid {
            if deterministic {
                produced == Some(t.sig@)
            } else {
                true
            }
        } else {
            !ok && t.result == TestResult::Invalid
        }
    }
}

/// The outcome recorded for a signing case is the right one.
pub open spec fn sign_outcome_ok<S: SigAlgSignVariant>(
    sk: Seq<u8>,
    t: SignTestCase,
    composite: bool,
    deterministic: bool,
    o: SignOutcome,
) -> bool {
    &&& (o.signature is Some <==> sign_case_compares::<S>(sk, t, composite, deterministic))
    &&& (o.signature matches Some(sig) ==> S::signs(
        sk,
        t.msg@,
        if composite {
            Seq::empty()
        } else {
            case_ctx(t.ctx)
        },
        sig@,
    ))
    &&& o.passed == sign_case_passes::<S>(sk, t, composite, deterministic, opt_bytes(o.signature))
}

/// The private key bytes of a signing group: the seed when there is one,
/// else the encoded key.
pub open spec fn sign_group_key(g: SignTestGroup) -> Seq<u8> {
    match g.privseed {
        Some(s) => s@,
        None => match g.privkey {
            Some(k) => k@,
            None => Seq::empty(),
        },
    }
}

/// The cases of a signing test set in order, each with the private key of
/// its group.
pub open spec fn sign_cases(gs: Seq<SignTestGroup>) -> Seq<(Seq<u8>, SignTestCase)>
    decreases gs.len(),
{
    if gs.len() == 0 {
        Seq::empty()
    } else {
        sign_cases(gs.drop_last()) + gs.last().tests@.map_values(
            |t: SignTestCase| (sign_group_key(gs.last()), t),
        )
    }
}

/// The cases of a composite signing test set in order, each with the
/// private key of its group.
pub open spec fn composite_sign_cases(gs: Seq<CompositeSignTestGroup>) -> Seq<(Seq<u8>, SignTestCase)>
    decreases gs.len(),
{
    if gs.len() == 0 {
        Seq::empty()
    } else {
        composite_sign_cases(gs.drop_last()) + gs.last().tests@.map_values(
            |t: SignTestCase| (gs.last().privkey@, t),
        )
    }
}

/// Whether each outcome passed.
pub open spec fn passes(os: Seq<SignOutcome>) -> Seq<bool> {
    os.map_values(|o: SignOutcome| o.passed)
}

/// The report of a signing run is consistent: the counts are those of the
/// outcomes.
pub open spec fn sign_report_counts(r: SignReport) -> bool {
    &&& r.passed == count_true(passes(r.outcomes@))
    &&& r.passed + r.failed == r.outcomes@.len()
}

/// Decides one signing case with the decoded key `sk` of the group, if it
/// decoded from `skb`.
fn sign_case_outcome<S: SigAlgSignVariant>(
    sk: &Option<S::PrivateKey>,
    t: &SignTestCase,
    composite: bool,
    deterministic: bool,
    Ghost(skb): Ghost<Seq<u8>>,
) -> (o: SignOutcome)
    requires
        *sk is Some <==> S::privkey_valid(skb),
        *sk matches Some(k) ==> S::privkey_wf(k) && S::privkey_bytes(k) == skb,
    ensures
        sign_outcome_ok::<S>(skb, *t, composite, deterministic, o),
{
    let privkey = match sk {
        Some(k) => k,
        None => {
            let passed = t.result == TestResult::Invalid && (composite || has_flag(
                &t.flags,
                TestFlag::IncorrectPrivateKeyLength,
            ) || has_flag(&t.flags, TestFlag::InvalidPrivateKey));
            return SignOutcome { passed, signature: None };
        },
    };
    let empty: Vec<u8> = Vec::new();
    let ctx: &[u8] = match &t.ctx {
        Some(c) => {
            if composite {
                empty.as_slice()
            } else {
                c.as_slice()
            }
        },
        None => empty.as_slice(),
    };
    assert(empty@ =~= Seq::<u8>::empty());
    let sig_res = if ctx.len() == 0 {
        S::try_sign(privkey, t.msg.as_slice())
    } else {
        S::try_sign_with_ctx(privkey, t.msg.as_slice(), ctx)
    };
    proof {
        if ctx@.len() == 0 {
            assert(ctx@ =~= Seq::<u8>::empty());
        }
    }
    match sig_res {
        Err(_) => SignOutcome { passed: t.result == TestResult::Invalid, signature: None },
        Ok(sig) => {
            if t.result != TestResult::Valid {
                SignOutcome { passed: false, signature: None }
            } else if deterministic {
                let actual = S::encode_signature(&sig);
                let passed = bytes_eq(actual.as_slice(), t.sig.as_slice());
                SignOutcome { passed, signature: Some(actual) }
            } else {
                SignOutcome { passed: true, signature: None }
            }
        },
    }
}

/// Runs the cases of one signing group with the key bytes `key`, appending
/// their outcomes to `report`.
fn run_sign_group<S: SigAlgSignVariant>(
    key: &[u8],
    tests: &Vec<SignTestCase>,
    composite: bool,
    deterministic: bool,
    report: &mut SignReport,
)
    requires
        sign_report_counts(*old(report)),
    ensures
        sign_report_counts(*final(report)),
        final(report).outcomes@.len() == old(report).outcomes@.len() + tests@.len(),
        forall|i: int|
            0 <= i < old(report).outcomes@.len() ==> final(report).outcomes@[i] == old(report).outcomes@[i],
        forall|i: int|
            0 <= i < tests@.len() ==> sign_outcome_ok::<S>(
                key@,
                tests@[i],
                composite,
                deterministic,
                #[trigger] final(report).outcomes@[old(report).outcomes@.len() + i],
            ),
{
    let sk = match S::decode_privkey(key) {
        Ok(k) => Some(k),
        Err(_) => None,
    };
    let ghost start = report.outcomes@.len();
    let ghost before = report.outcomes@;
    let mut ti: usize = 0;
    while ti < tests.len()
        invariant
            ti <= tests@.len(),
            sk is Some <==> S::privkey_valid(key@),
            sk matches Some(k) ==> S::privkey_wf(k) && S::privkey_bytes(k) == key@,
            sign_report_counts(*report),
            report.outcomes@.len() == start + ti,
            start == before.len(),
            forall|i: int| 0 <= i < start ==> report.outcomes@[i] == before[i],
            forall|i: int|
                0 <= i < ti ==> sign_outcome_ok::<S>(
                    key@,
                    tests@[i],
                    composite,
                    deterministic,
                    #[trigger] report.outcomes@[start + i],
                ),
        decreases tests@.len() - ti,
    {
        let o = sign_case_outcome::<S>(&sk, &tests[ti], composite, deterministic, Ghost(key@));
        let b = o.passed;
        proof {
            lemma_count_true_push(passes(report.outcomes@), b);
            assert(passes(report.outcomes@.push(o)) =~= passes(report.outcomes@).push(b));
        }
        report.outcomes.push(o);
        let count = report.outcomes.len();
        if b {
            report.passed = report.passed + 1;
        }
        report.failed = count - report.passed;
        ti = ti + 1;
    }
}

proof fn lemma_sign_cases_step(gs: Seq<SignTestGroup>, gi: int)
    requires
        0 <= gi < gs.len(),
    ensures
        sign_cases(gs.take(gi + 1)) == sign_cases(gs.take(gi)) + gs[gi].tests@.map_values(
            |t: SignTestCase| (sign_group_key(gs[gi]), t),
        ),
{
    assert(gs.take(gi + 1).drop_last() =~= gs.take(gi));
}

proof fn lemma_composite_sign_cases_step(gs: Seq<CompositeSignTestGroup>, gi: int)
    requires
        0 <= gi < gs.len(),
    ensures
        composite_sign_cases(gs.take(gi + 1)) == composite_sign_cases(gs.take(gi))
            + gs[gi].tests@.map_values(|t: SignTestCase| (gs[gi].privkey@, t)),
{
    assert(gs.take(gi + 1).drop_last() =~= gs.take(gi));
}

/// Runs ML-DSA signing test groups against `S`. Each group must hold a
/// seed or an encoded key; the seed is used when there is one. A case
/// passes as [`sign_case_passes`] says; the counts and the outcome of every
/// case, in order, are reported.
pub fn run_mldsa_wycheproof_sign_tests<S: SigAlgSignVariant>(
    groups: &Vec<SignTestGroup>,
    deterministic: bool,
) -> (r: SignReport)
    requires
        forall|g: int| 0 <= g < groups@.len() ==> groups@[g].privseed is Some || groups@[g].privkey is Some,
    ensures
        sign_report_counts(r),
        r.outcomes@.len() == sign_cases(groups@).len(),
        forall|i: int|
            0 <= i < r.outcomes@.len() ==> sign_outcome_ok::<S>(
                sign_cases(groups@)[i].0,
                sign_cases(groups@)[i].1,
                false,
                deterministic,
                #[trigger] r.outcomes@[i],
            ),
{
    let mut report = SignReport { passed: 0, failed: 0, outcomes: Vec::new() };
    let mut gi: usize = 0;
    assert(groups@.take(0) =~= Seq::<SignTestGroup>::empty());
    proof {
        assert(passes(report.outcomes@) =~= Seq::<bool>::empty());
    }
    while gi < groups.len()
        invariant
            gi <= groups@.len(),
            sign_report_counts(report),
            report.outcomes@.len() == sign_cases(groups@.take(gi as int)).len(),
            forall|i: int|
                0 <= i < report.outcomes@.len() ==> sign_outcome_ok::<S>(
                    sign_cases(groups@.take(gi as int))[i].0,
                    sign_cases(groups@.take(gi as int))[i].1,
                    false,
                    deterministic,
                    #[trigger] report.outcomes@[i],
                ),
        decreases groups@.len() - gi,
    {
        let group = &groups[gi];
        let empty: Vec<u8> = Vec::new();
        let key: &[u8] = match (&group.privseed, &group.privkey) {
            (Some(s), _) => s.as_slice(),
            (None, Some(k)) => k.as_slice(),
            (None, None) => empty.as_slice(),
        };
        assert(key@ == sign_group_key(*group)) by {
            assert(empty@ =~= Seq::<u8>::empty());
        }
        let ghost base = sign_cases(groups@.take(gi as int));
        run_sign_group::<S>(key, &group.tests, false, deterministic, &mut report);
        proof {
            lemma_sign_cases_step(groups@, gi as int);
            let cases = group.tests@.map_values(|t: SignTestCase| (sign_group_key(*group), t));
            assert forall|i: int| 0 <= i < report.outcomes@.len() implies sign_outcome_ok::<S>(
                (base + cases)[i].0,
                (base + cases)[i].1,
                false,
                deterministic,
                #[trigger] report.outcomes@[i],
            ) by {
                if i >= base.len() {
                    let j = i - base.len();
                    assert(report.outcomes@[base.len() + j] == report.outcomes@[i]);
                }
            }
        }
        gi = gi + 1;
    }
    assert(groups@.take(groups@.len() as int) =~= groups@);
    report
}

/// Runs composite ML-DSA signing test groups against `S`. A case passes as
/// [`sign_case_passes`] says for composite cases; the counts and the
/// outcome of every case, in order, are reported.
pub fn run_composite_mldsa_wycheproof_sign_tests<S: SigAlgSignVariant>(
    groups: &Vec<CompositeSignTestGroup>,
    deterministic: bool,
) -> (r: SignReport)
    ensures
        sign_report_counts(r),
        r.outcomes@.len() == composite_sign_cases(groups@).len(),
        forall|i: int|
            0 <= i < r.outcomes@.len() ==> sign_outcome_ok::<S>(
                composite_sign_cases(groups@)[i].0,
                composite_sign_cases(groups@)[i].1,
                true,
                deterministic,
                #[trigger] r.outcomes@[i],
            ),
{
    let mut report = SignReport { passed: 0, failed: 0, outcomes: Vec::new() };
    let mut gi: usize = 0;
    assert(groups@.take(0) =~= Seq::<CompositeSignTestGroup>::empty());
    proof {
        assert(passes(report.outcomes@) =~= Seq::<bool>::empty());
    }
    while gi < groups.len()
        invariant
            gi <= groups@.len(),
            sign_report_counts(report),
            report.outcomes@.len() == composite_sign_cases(groups@.take(gi as int)).len(),
            forall|i: int|
                0 <= i < report.outcomes@.len() ==> sign_outcome_ok::<S>(
                    composite_sign_cases(groups@.take(gi as int))[i].0,
                    composite_sign_cases(groups@.take(gi as int))[i].1,
                    true,
                    deterministic,
                    #[trigger] report.outcomes@[i],
                ),
        decreases groups@.len() - gi,
    {
        let group = &groups[gi];
        let ghost base = composite_sign_cases(groups@.take(gi as int));
        run_sign_group::<S>(group.privkey.as_slice(), &group.tests, true, deterministic, &mut report);
        proof {
            lemma_composite_sign_cases_step(groups@, gi as int);
            let cases = group.tests@.map_values(|t: SignTestCase| (group.privkey@, t));
            assert forall|i: int| 0 <= i < report.outcomes@.len() implies sign_outcome_ok::<S>(
                (base + cases)[i].0,
                (base + cases)[i].1,
                true,
                deterministic,
                #[trigger] report.outcomes@[i],
            ) by {
                if i >= base.len() {
                    let j = i - base.len();
                    assert(report.outcomes@[base.len() + j] == report.outcomes@[i]);
                }
            }
        }
        gi = gi + 1;
    }
    assert(groups@.take(groups@.len() as int) =~= groups@);
    report
}

} // verus!
