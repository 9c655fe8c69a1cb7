//! Key management: selections, parameters, key generation.

use aurora::error::Error;
use aurora::keymgmt::{get_params, ParamAction, ParamKey, ParamValue};
use aurora::mldsa::keypair::{GenCtx, KeyPair};
use aurora::mldsa::params::MlDsaParamSet;

fn keypair(p: MlDsaParamSet) -> KeyPair {
    let mut rng = rand::rng();
    KeyPair::generate_new(p, &mut rng).expect("Failed to generate keypair")
}

fn names(keys: &[&str]) -> Vec<Option<String>> {
    keys.iter().map(|k| Some(k.to_string())).collect()
}

#[test]
fn param_names_roundtrip() {
    for key in [
        ParamKey::Bits,
        ParamKey::MaxSize,
        ParamKey::SecurityBits,
        ParamKey::MandatoryDigest,
        ParamKey::EncodedPublicKey,
        ParamKey::PublicKey,
        ParamKey::PrivateKey,
        ParamKey::ProviderName,
        ParamKey::ProviderVersion,
        ParamKey::ProviderBuildInfo,
    ] {
        assert_eq!(ParamKey::from_name(&key.name().to_string()), Some(key));
    }
    assert_eq!(ParamKey::from_name(&"no-such-param".to_string()), None);
    assert_eq!(ParamKey::EncodedPublicKey.name(), "encoded-pub-key");
}

#[test]
fn mldsa_get_params() {
    let kp = keypair(MlDsaParamSet::MlDsa65);
    let mut requested = names(&["bits", "max-size", "security-bits", "mandatory-digest", "pub", "unknown"]);
    requested.push(None);
    let actions = get_params(&kp, &requested);
    assert_eq!(actions.len(), requested.len());
    assert!(matches!(actions[0], ParamAction::Answer(ParamValue::Int(192))));
    assert!(matches!(actions[1], ParamAction::Answer(ParamValue::Int(3309))));
    assert!(matches!(actions[2], ParamAction::Answer(ParamValue::Int(192))));
    assert!(matches!(actions[3], ParamAction::Answer(ParamValue::Utf8(""))));
    assert!(matches!(actions[4], ParamAction::Ignore));
    assert!(matches!(actions[5], ParamAction::Ignore));
    assert!(matches!(actions[6], ParamAction::Fail));

    let kp44 = keypair(MlDsaParamSet::MlDsa44);
    let actions = get_params(&kp44, &names(&["bits", "max-size"]));
    assert!(matches!(actions[0], ParamAction::Answer(ParamValue::Int(128))));
    assert!(matches!(actions[1], ParamAction::Answer(ParamValue::Int(2420))));
}

#[test]
fn has_and_match() {
    let a = keypair(MlDsaParamSet::MlDsa44);
    let b = keypair(MlDsaParamSet::MlDsa44);
    assert_eq!(a.has(0x03), 1);
    assert_eq!(a.has(0x80), 1);
    let only_public = KeyPair::from_parts(MlDsaParamSet::MlDsa44, None, b.public);
    assert_eq!(only_public.has(0x02), 1);
    assert_eq!(only_public.has(0x01), 0);
    assert_eq!(KeyPair::new(MlDsaParamSet::MlDsa44).has(0x02), 0);

    assert_eq!(KeyPair::match_(&a, &a, 0x03), 1);
    assert_eq!(KeyPair::match_(&a, &only_public, 0x03), 0);
    assert_eq!(KeyPair::match_(&only_public, &a, 0x03), 0);
    assert_eq!(KeyPair::match_(&a, &only_public, 0x80), 1);
    // only the private keys are compared when the public key is not selected
    assert_eq!(KeyPair::match_(&a, &a, 0x01), 1);
    assert_eq!(KeyPair::match_(&a, &only_public, 0x01), 0);
}

#[test]
fn export_key() {
    let kp = keypair(MlDsaParamSet::MlDsa44);
    let (k, v) = kp.export_key(0x03).unwrap();
    assert_eq!(k, ParamKey::PrivateKey);
    assert_eq!(v, kp.private.as_ref().unwrap().encode());
    assert_eq!(v.len(), 32);
    let (k, v) = kp.export_key(0x02).unwrap();
    assert_eq!(k, ParamKey::PublicKey);
    assert_eq!(v.len(), 1312);
    assert!(kp.export_key(0x80).is_none());
}

#[test]
fn generation_follows_selection() {
    let mut rng = rand::rng();
    let empty = GenCtx::new(MlDsaParamSet::MlDsa44, 0x02).generate(&mut rng).unwrap();
    assert!(empty.private.is_none() && empty.public.is_none());
    let full = GenCtx::new(MlDsaParamSet::MlDsa65, 0x87).generate(&mut rng).unwrap();
    assert!(full.private.is_some() && full.public.is_some());
    assert_eq!(full.param_set(), MlDsaParamSet::MlDsa65);
}

#[test]
fn sign_then_verify() {
    for p in [MlDsaParamSet::MlDsa44, MlDsaParamSet::MlDsa65] {
        let kp = keypair(p);
        let sig = kp.try_sign(b"message").unwrap();
        assert!(kp.verify(b"message", &sig).is_ok());
        assert!(kp.verify(b"another message", &sig).is_err());
        let sk = kp.private.as_ref().unwrap();
        let sig = sk.try_sign_with_ctx(b"message", b"context").unwrap();
        let pk = kp.public.as_ref().unwrap();
        assert!(pk.verify_with_ctx(b"message", &sig, b"context").is_ok());
        assert!(pk.verify(b"message", &sig).is_err());
        assert_eq!(
            sk.try_sign_with_ctx(b"message", &[0u8; 256]).unwrap_err(),
            Error::ContextTooLong
        );
    }
    let empty = KeyPair::new(MlDsaParamSet::MlDsa44);
    assert_eq!(empty.try_sign(b"m").unwrap_err(), Error::MissingPrivateKey);
}

#[test]
fn mldsa_set_params_only_checks_keys() {
    let mut kp = keypair(MlDsaParamSet::MlDsa65);
    let before = kp.public.as_ref().unwrap().encode();
    let named = vec![
        (Some("bits".to_string()), None),
        (Some("encoded-pub-key".to_string()), Some(vec![1u8, 2, 3])),
    ];
    assert!(kp.set_params(&named).is_ok());
    assert_eq!(kp.public.as_ref().unwrap().encode(), before);
    let keyless = vec![(Some("bits".to_string()), None), (None, None)];
    assert_eq!(kp.set_params(&keyless), Err(Error::MissingParamKey));
    assert!(kp.set_params(&Vec::new()).is_ok());
}

#[test]
fn mldsa_import_types_and_generation_params() {
    assert_eq!(
        KeyPair::import_types_ex(0x03).unwrap(),
        vec![ParamKey::PublicKey, ParamKey::PrivateKey]
    );
    assert_eq!(
        KeyPair::import_types_ex(0x02).unwrap(),
        vec![ParamKey::PublicKey, ParamKey::PrivateKey]
    );
    assert!(KeyPair::import_types_ex(0x04).is_none());
    assert!(GenCtx::settable_params().is_empty());
    assert!(KeyPair::settable_params().is_empty());
}
