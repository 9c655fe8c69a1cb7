//! ML-DSA-65 against the Wycheproof test vectors.

use aurora::wycheproof::{
    run_mldsa_wycheproof_sign_tests, run_mldsa_wycheproof_verify_tests, MlDsa65, SignTestCase,
    SignTestGroup, TestFlag, TestResult, VerifyTestCase, VerifyTestGroup,
};
use wycheproof::{mldsa_sign, mldsa_verify};

fn result_of(r: wycheproof::TestResult) -> TestResult {
    match r {
        wycheproof::TestResult::Valid => TestResult::Valid,
        wycheproof::TestResult::Invalid => TestResult::Invalid,
        wycheproof::TestResult::Acceptable => TestResult::Acceptable,
    }
}

fn verify_flag(f: &mldsa_verify::TestFlag) -> TestFlag {
    match f {
        mldsa_verify::TestFlag::IncorrectPublicKeyLength => TestFlag::IncorrectPublicKeyLength,
        mldsa_verify::TestFlag::InvalidPrivateKey => TestFlag::InvalidPrivateKey,
        _ => TestFlag::Other,
    }
}

fn sign_flag(f: &mldsa_sign::TestFlag) -> TestFlag {
    match f {
        mldsa_sign::TestFlag::IncorrectPrivateKeyLength => TestFlag::IncorrectPrivateKeyLength,
        mldsa_sign::TestFlag::InvalidPrivateKey => TestFlag::InvalidPrivateKey,
        _ => TestFlag::Other,
    }
}

fn load_verify_groups(name: mldsa_verify::TestName) -> Vec<VerifyTestGroup> {
    let set = mldsa_verify::TestSet::load(name)
        .unwrap_or_else(|e| panic!("Failed to load verify test set: {e}"));
    set.test_groups
        .iter()
        .map(|g| VerifyTestGroup {
            pubkey: g.pubkey.to_vec(),
            tests: g
                .tests
                .iter()
                .map(|t| VerifyTestCase {
                    tc_id: t.tc_id,
                    comment: t.comment.clone(),
                    msg: t.msg.to_vec(),
                    sig: t.sig.to_vec(),
                    ctx: t.ctx.as_ref().map(|c| c.to_vec()),
                    result: result_of(t.result),
                    flags: t.flags.iter().map(verify_flag).collect(),
                })
                .collect(),
        })
        .collect()
}

/// Cases that give only the external mu, without a message, are signed over
/// the empty message: in a randomized run only the success of signing is
/// checked for them.
fn load_sign_groups(name: mldsa_sign::TestName) -> Vec<SignTestGroup> {
    let set = mldsa_sign::TestSet::load(name)
        .unwrap_or_else(|e| panic!("Failed to load sign test set: {e}"));
    set.test_groups
        .iter()
        .map(|g| {
            assert!(
                g.privseed.is_some() || g.privkey.is_some(),
                "Neither privateKey nor privateSeed present in test group"
            );
            SignTestGroup {
                privseed: g.privseed.as_ref().map(|b| b.to_vec()),
                privkey: g.privkey.as_ref().map(|b| b.to_vec()),
                tests: g
                    .tests
                    .iter()
                    .map(|t| SignTestCase {
                        tc_id: t.tc_id,
                        comment: t.comment.clone(),
                        msg: t.msg.as_ref().map(|m| m.to_vec()).unwrap_or_default(),
                        ctx: t.ctx.as_ref().map(|c| c.to_vec()),
                        sig: t.sig.to_vec(),
                        result: result_of(t.result),
                        flags: t.flags.iter().map(sign_flag).collect(),
                    })
                    .collect(),
            }
        })
        .collect()
}

fn print_outcomes(ids: Vec<(usize, String)>, passed: &[bool]) {
    for ((tc_id, comment), ok) in ids.iter().zip(passed) {
        let mark = if *ok { "✅" } else { "❌" };
        println!("{mark} tcId {tc_id}: {comment}");
    }
}

fn run_sign_set(name: mldsa_sign::TestName) {
    let groups = load_sign_groups(name);
    // ML-DSA signing here is randomized (hedged), so signatures are not
    // compared with the expected ones.
    let report = run_mldsa_wycheproof_sign_tests::<MlDsa65>(&groups, false);
    let ids = groups
        .iter()
        .flat_map(|g| g.tests.iter().map(|t| (t.tc_id, t.comment.clone())))
        .collect::<Vec<_>>();
    let passed = report.outcomes.iter().map(|o| o.passed).collect::<Vec<_>>();
    assert_eq!(ids.len(), passed.len());
    print_outcomes(ids, &passed);
    println!(
        "\n✔️ Passed: {} | ❌ Failed: {} | Total: {}",
        report.passed,
        report.failed,
        report.passed + report.failed
    );
    assert_eq!(report.failed, 0, "Some Wycheproof signing test cases failed");
}

#[test]
fn test_mldsa_65_verify_from_wycheproof() {
    let groups = load_verify_groups(mldsa_verify::TestName::MlDsa65Verify);
    let report = run_mldsa_wycheproof_verify_tests::<MlDsa65>(&groups);
    let ids = groups
        .iter()
        .flat_map(|g| g.tests.iter().map(|t| (t.tc_id, t.comment.clone())))
        .collect::<Vec<_>>();
    assert_eq!(ids.len(), report.outcomes.len());
    print_outcomes(ids, &report.outcomes);
    println!(
        "\n✔️ Passed: {} | ❌ Failed: {} | Total: {}",
        report.passed,
        report.failed,
        report.passed + report.failed
    );
    assert_eq!(report.failed, 0, "Some Wycheproof test cases failed");
}

#[test]
fn test_mldsa_65_sign_seed_from_wycheproof() {
    run_sign_set(mldsa_sign::TestName::MlDsa65SignSeed);
}

#[test]
fn test_mldsa_65_sign_noseed_from_wycheproof() {
    run_sign_set(mldsa_sign::TestName::MlDsa65SignNoSeed);
}
