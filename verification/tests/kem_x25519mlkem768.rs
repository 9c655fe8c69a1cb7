//! The X25519MLKEM768 hybrid KEM.

use aurora::error::Error;
use aurora::kem::functions::{decapsulate, encapsulate, InBuffer, KemAnswer, OutBuffer};
use aurora::kem::traits::{Decapsulate, Encapsulate};
use aurora::kem::x25519mlkem768::{GenCtx, KemContext, KeyPair, PublicKey};
use aurora::keymgmt::{get_params, ParamAction, ParamKey, ParamValue};

#[test]
fn test_loopback_kex() {
    let mut rng = rand::rng();
    let client_kp = KeyPair::generate_new(&mut rng).expect("Failed to generate keypair");

    let (ct, ss) = client_kp.encapsulate_ex().unwrap();

    let decapsulated_ss = client_kp.decapsulate(&ct).unwrap();

    assert_eq!(ss, decapsulated_ss);
}

#[test]
fn test_full_kex() {
    let mut rng = rand::rng();
    let client_kp = KeyPair::generate_new(&mut rng).expect("Failed to generate keypair");

    let client_keyshare = client_kp.public.as_ref().unwrap().encode();
    // client sends its keyshare

    // server decodes the received keyshare
    let server_recv_keyshare = client_keyshare;
    let server_decoded_keyshare = PublicKey::decode(&server_recv_keyshare).unwrap();
    let serverside_kp = KeyPair {
        private: None,
        public: Some(server_decoded_keyshare),
    };

    let (ct, ss) = serverside_kp.encapsulate_ex().unwrap();
    // server sends back CT as its keyshare
    let server_keyshare = ct;

    let decapsulated_ss = client_kp.decapsulate(&server_keyshare).unwrap();

    assert_eq!(ss, decapsulated_ss);
}

#[test]
fn decoding_rejects_wrong_lengths() {
    assert_eq!(
        PublicKey::decode(&[0u8; 1215]).unwrap_err(),
        Error::LengthMismatch { expected: 1216, actual: 1215 }
    );
    let mut rng = rand::rng();
    let kp = KeyPair::generate_new(&mut rng).unwrap();
    assert!(kp.decapsulate(&vec![0u8; 1119]).is_err());
    assert_eq!(kp.expected_ct_size().unwrap(), 1120);
    assert_eq!(kp.expected_ss_size().unwrap(), 64);
}

#[test]
fn encapsulation_sizes_and_shares() {
    let mut rng = rand::rng();
    let kp = KeyPair::generate_new(&mut rng).unwrap();
    let pk = kp.public.as_ref().unwrap();
    let encoded = pk.encode();
    assert_eq!(encoded.len(), 1216);
    assert_eq!(&encoded[..1184], pk.mlkem_share.as_slice());
    assert_eq!(&encoded[1184..], pk.ec_share.as_slice());
    let (ct, ss) = kp.encapsulate_ex().unwrap();
    assert_eq!(ct.len(), 1120);
    assert_eq!(ss.len(), 64);
    let back = kp.decapsulate(&ct).unwrap();
    // the X25519 share of the secret comes back
    assert_eq!(&back[32..], &ss[32..]);
    assert!(KeyPair::new().encapsulate_ex().is_err());
}

#[test]
fn kem_context_and_buffers() {

    let mut rng = rand::rng();
    let kp = KeyPair::generate_new(&mut rng).unwrap();
    let mut ctx = KemContext::new();
    ctx.set_peer_keypair(&kp).unwrap();
    ctx.set_own_keypair(&kp).unwrap();

    let sizes = encapsulate(
        &ctx,
        OutBuffer { is_null: true, len: Some(0) },
        OutBuffer { is_null: true, len: Some(0) },
    )
    .unwrap();
    assert!(matches!(sizes, KemAnswer::Sizes { ct_len: 1120, ss_len: 64 }));

    let out = encapsulate(
        &ctx,
        OutBuffer { is_null: false, len: Some(1120) },
        OutBuffer { is_null: false, len: Some(64) },
    )
    .unwrap();
    let (ct, ss) = match out {
        KemAnswer::Output { ct, ss } => (ct, ss),
        _ => panic!("unexpected answer"),
    };
    let back = decapsulate(
        &ctx,
        OutBuffer { is_null: false, len: Some(64) },
        InBuffer { is_null: false, len: ct.len() },
        &ct,
    )
    .unwrap();
    match back {
        KemAnswer::Output { ss: s, .. } => assert_eq!(s, ss),
        _ => panic!("unexpected answer"),
    }

    assert_eq!(
        encapsulate(
            &ctx,
            OutBuffer { is_null: false, len: None },
            OutBuffer { is_null: false, len: Some(64) }
        )
        .err(),
        Some(Error::NullPointer)
    );
    assert_eq!(
        decapsulate(
            &ctx,
            OutBuffer { is_null: false, len: Some(64) },
            InBuffer { is_null: false, len: 0 },
            &[]
        )
        .err(),
        Some(Error::ZeroLength)
    );
    let no_public = KeyPair::new();
    assert_eq!(KemContext::new().set_peer_keypair(&no_public).unwrap_err(), Error::MissingPublicKey);
}

#[test]
fn kem_params() {
    let mut rng = rand::rng();
    let kp = KeyPair::generate_new(&mut rng).unwrap();
    let encoded = kp.public.as_ref().unwrap().encode();
    let actions = get_params(&kp, &vec![Some("encoded-pub-key".to_string()), Some("bits".to_string())]);
    match &actions[0] {
        ParamAction::Answer(ParamValue::OctetString(v)) => assert_eq!(v, &encoded),
        other => panic!("unexpected action {other:?}"),
    }
    assert!(matches!(actions[1], ParamAction::Ignore));

    let mut other = KeyPair::new();
    other.set_param(ParamKey::EncodedPublicKey, Some(&encoded)).unwrap();
    assert_eq!(other.public.as_ref().unwrap().encode(), encoded);
    assert!(other.set_param(ParamKey::EncodedPublicKey, None).is_err());
    assert!(other.set_param(ParamKey::Bits, None).is_ok());
    assert_eq!(
        KeyPair::import_types_ex(0x01).unwrap(),
        vec![ParamKey::PublicKey, ParamKey::PrivateKey]
    );
    assert!(KeyPair::import_types_ex(0x80).is_none());
    assert!(GenCtx::settable_params().is_empty());
}

#[test]
fn kem_set_params_in_order() {
    let mut rng = rand::rng();
    let first = KeyPair::generate_new(&mut rng).unwrap();
    let second = KeyPair::generate_new(&mut rng).unwrap();
    let first_pk = first.public.as_ref().unwrap().encode();
    let second_pk = second.public.as_ref().unwrap().encode();

    let mut kp = KeyPair::new();
    let ok = vec![
        (Some("bits".to_string()), None),
        (Some("encoded-pub-key".to_string()), Some(first_pk.clone())),
        (Some("encoded-pub-key".to_string()), Some(second_pk.clone())),
    ];
    assert!(kp.set_params(&ok).is_ok());
    assert_eq!(kp.public.as_ref().unwrap().encode(), second_pk);
    let read = get_params(&kp, &vec![Some("encoded-pub-key".to_string())]);
    match &read[0] {
        ParamAction::Answer(ParamValue::OctetString(v)) => assert_eq!(v, &second_pk),
        _ => panic!("the encoded public key was not answered"),
    }

    // A failing parameter stops the request; what was set before stays set.
    let mut kp = KeyPair::new();
    let stops = vec![
        (Some("encoded-pub-key".to_string()), Some(first_pk.clone())),
        (None, Some(second_pk.clone())),
        (Some("encoded-pub-key".to_string()), Some(second_pk.clone())),
    ];
    assert_eq!(kp.set_params(&stops), Err(Error::MissingParamKey));
    assert_eq!(kp.public.as_ref().unwrap().encode(), first_pk);

    let mut kp = KeyPair::new();
    let short = vec![(Some("encoded-pub-key".to_string()), Some(vec![0u8; 3]))];
    assert_eq!(
        kp.set_params(&short),
        Err(Error::LengthMismatch { expected: 1216, actual: 3 })
    );
    assert!(kp.public.is_none());
    let no_value = vec![(Some("encoded-pub-key".to_string()), None)];
    assert_eq!(kp.set_params(&no_value), Err(Error::InvalidKey));
}

#[test]
fn kem_generation_and_encapsulation_errors() {
    let mut rng = rand::rng();
    let kp = KeyPair::generate_new(&mut rng).unwrap();
    let pk = kp.public.as_ref().unwrap();
    assert_eq!(pk.mlkem_share.len(), 1184);
    assert_eq!(pk.ec_share.len(), 32);
    let (ct, ss) = pk.encapsulate(&mut rng).unwrap();
    assert_eq!((ct.len(), ss.len()), (1120, 64));

    let short_ec = PublicKey { mlkem_share: pk.mlkem_share.clone(), ec_share: vec![9u8; 3] };
    assert_eq!(short_ec.encapsulate_to(&mut rng).err(), Some(Error::InvalidKey));
    let short_mlkem = PublicKey { mlkem_share: vec![0u8; 10], ec_share: pk.ec_share.clone() };
    assert_eq!(short_mlkem.encapsulate(&mut rng).err(), Some(Error::InvalidKey));
}
