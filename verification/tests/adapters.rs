//! The adapters registry.

use aurora::adapters::{
    AdaptersHandle, StaticAdapter, FinalizedAdaptersHandle, ObjSigId, ObjSigIdCall,
    ObjSigIdRegistration, ObjSigIdStage, ObjSigIdStep,
};
use aurora::error::Error;

const END: u32 = 0;

type TestAdapter = StaticAdapter<u32, u32>;

fn ml_dsa_65() -> ObjSigId {
    ObjSigId {
        oid: "2.16.840.1.101.3.4.3.18",
        short_name: "ML-DSA-65",
        long_name: "id-ml-dsa-65",
        digest_name: None,
    }
}

fn adapter(
    algorithms: Vec<(u32, Vec<u32>)>,
    capabilities: Vec<(&'static str, u32)>,
    fail: bool,
) -> TestAdapter {
    StaticAdapter {
        algorithms: if fail { Err(Error::Backend) } else { Ok(algorithms) },
        capabilities: Ok(capabilities),
        obj_sigids: Ok(vec![ml_dsa_65()]),
    }
}

#[test]
fn registered_algorithms_are_closed_by_the_end_marker() {
    let a = adapter(vec![(12, vec![1, 2]), (13, vec![7])], vec![("TLS-GROUP", 100)], false);
    let b = adapter(vec![(12, vec![3])], vec![("TLS-GROUP", 101), ("TLS-SIGALG", 200)], false);
    let f = FinalizedAdaptersHandle::new(vec![a, b], END).unwrap();
    assert_eq!(f.get_algorithms_by_op_id(12).unwrap(), &vec![1, 2, 3, END]);
    assert_eq!(f.get_algorithms_by_op_id(13).unwrap(), &vec![7, END]);
    assert!(f.get_algorithms_by_op_id(14).is_none());
    assert_eq!(f.get_capabilities("TLS-GROUP").unwrap(), &vec![100, 101]);
    assert_eq!(f.get_capabilities("TLS-SIGALG").unwrap(), &vec![200]);
    assert!(f.get_capabilities("TLS-KEM").is_none());
    assert_eq!(f.registered_obj_sigids().len(), 2);
}

#[test]
fn a_failing_adapter_fails_the_registry() {
    let a = adapter(vec![(12, vec![1])], vec![], false);
    let b = adapter(vec![], vec![], true);
    assert_eq!(FinalizedAdaptersHandle::new(vec![a, b], END).unwrap_err(), Error::Backend);
}

#[test]
fn handle_accepts_registrations_while_open() {
    let mut h: AdaptersHandle<TestAdapter, u32, u32> = AdaptersHandle::new();
    assert!(h.check_state().is_ok());
    assert!(h.register_algorithms(1, vec![5]).is_ok());
    assert!(h.register_capability("TLS-GROUP", 9).is_ok());
    h.register_adapter(adapter(vec![], vec![], false));
}

#[test]
fn obj_sigid_registration_steps() {
    let obj = ObjSigId {
        oid: "2.16.840.1.101.3.4.3.17",
        short_name: "ML-DSA-44",
        long_name: "id-ml-dsa-44",
        digest_name: None,
    };
    let (mut reg, first) = ObjSigIdRegistration::start(obj);
    assert!(matches!(
        first,
        ObjSigIdStep::Call(ObjSigIdCall::Create { oid: "2.16.840.1.101.3.4.3.17", .. })
    ));
    let second = reg.step(Ok(()));
    assert!(matches!(
        second,
        ObjSigIdStep::Call(ObjSigIdCall::AddSigId {
            sign_name: "2.16.840.1.101.3.4.3.17",
            digest_name: None,
            pkey_name: "id-ml-dsa-44"
        })
    ));
    assert!(matches!(reg.step(Err(Error::Backend)), ObjSigIdStep::Done(Err(Error::Backend))));
    assert_eq!(reg.stage, ObjSigIdStage::Finished);

    let (mut reg, _) = ObjSigIdRegistration::start(obj);
    assert!(matches!(reg.step(Err(Error::Backend)), ObjSigIdStep::Done(Err(Error::Backend))));
}

#[test]
fn registry_from_registrations_and_without_adapters() {
    let f: FinalizedAdaptersHandle<TestAdapter, u32, u32> = FinalizedAdaptersHandle::from_registrations(
        Vec::new(),
        vec![(12, vec![1]), (13, vec![4]), (12, vec![2, 3])],
        vec![("TLS-GROUP", 7), ("TLS-SIGALG", 8), ("TLS-GROUP", 9)],
        Vec::new(),
        END,
    );
    assert_eq!(f.get_algorithms_by_op_id(12).unwrap(), &vec![1, 2, 3, END]);
    assert_eq!(f.get_algorithms_by_op_id(13).unwrap(), &vec![4, END]);
    assert_eq!(f.get_capabilities("TLS-GROUP").unwrap(), &vec![7, 9]);
    assert_eq!(f.get_capabilities("TLS-SIGALG").unwrap(), &vec![8]);
    assert!(f.registered_obj_sigids().is_empty());

    let empty = FinalizedAdaptersHandle::<TestAdapter, u32, u32>::new(Vec::new(), END).unwrap();
    assert!(empty.get_algorithms_by_op_id(12).is_none());
    assert!(empty.get_capabilities("TLS-GROUP").is_none());
    assert!(empty.registered_obj_sigids().is_empty());
}
