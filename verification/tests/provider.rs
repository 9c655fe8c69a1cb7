//! The provider instance and its parameters.

use aurora::adapters::StaticAdapter;
use aurora::built_info::{PROV_NAME, PROV_VER};
use aurora::error::Error;
use aurora::keymgmt::{get_params, ParamAction, ParamKey, ParamValue};
use aurora::provider::ProviderInstance;
use rand::Rng;

type OneAlgorithm = StaticAdapter<u32, u32>;

fn one_algorithm(fail: bool) -> OneAlgorithm {
    StaticAdapter {
        algorithms: if fail { Err(Error::Backend) } else { Ok(vec![(12, vec![5])]) },
        capabilities: Ok(vec![("TLS-GROUP", 9)]),
        obj_sigids: Ok(Vec::new()),
    }
}

#[test]
fn provider_answers_name_version_and_build_info() {
    let prov = ProviderInstance::new(vec![one_algorithm(false)], 0u32, "v0.12.0-test").unwrap();
    assert_eq!(prov.c_prov_name(), "aurora");
    assert_eq!(prov.c_prov_name(), PROV_NAME);
    assert_eq!(prov.c_prov_version(), PROV_VER);
    assert_eq!(prov.c_prov_buildinfo(), "v0.12.0-test");
    assert_eq!(
        ProviderInstance::<OneAlgorithm, u32, u32>::gettable_params(),
        vec![ParamKey::ProviderName, ParamKey::ProviderVersion, ParamKey::ProviderBuildInfo]
    );
    assert_eq!(prov.adapters_ctx.get_algorithms_by_op_id(12).unwrap(), &vec![5, 0]);

    let actions = get_params(
        &prov,
        &vec![
            Some("name".to_string()),
            Some("version".to_string()),
            Some("buildinfo".to_string()),
            Some("bits".to_string()),
        ],
    );
    assert!(matches!(actions[0], ParamAction::Answer(ParamValue::Utf8("aurora"))));
    assert!(matches!(actions[1], ParamAction::Answer(ParamValue::Utf8("0.12.0"))));
    assert!(matches!(actions[2], ParamAction::Answer(ParamValue::Utf8("v0.12.0-test"))));
    assert!(matches!(actions[3], ParamAction::Ignore));
    let failing = get_params(&prov, &vec![Some("name".to_string()), None]);
    assert!(matches!(failing[1], ParamAction::Fail));
}

#[test]
fn provider_fails_when_an_adapter_fails() {
    let r = ProviderInstance::new(
        vec![one_algorithm(false), one_algorithm(true)],
        0u32,
        "",
    );
    assert_eq!(r.err(), Some(Error::Backend));
}

#[test]
fn provider_rng_gives_bytes() {
    let prov = ProviderInstance::new(vec![one_algorithm(false)], 0u32, "").unwrap();
    let mut rng = prov.get_rng();
    let mut a = [0u8; 32];
    let mut b = [0u8; 32];
    rng.fill_bytes(&mut a);
    rng.fill_bytes(&mut b);
    assert_ne!(a, b);
}

#[test]
fn provider_without_adapters_starts() {
    let prov = ProviderInstance::<OneAlgorithm, u32, u32>::new(Vec::new(), 0u32, "bare").unwrap();
    assert_eq!(prov.c_prov_name(), "aurora");
    assert_eq!(prov.c_prov_buildinfo(), "bare");
    assert!(prov.adapters_ctx.get_algorithms_by_op_id(12).is_none());
}
