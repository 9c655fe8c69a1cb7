//! ML-DSA key management.

use aurora::mldsa::keypair::KeyPair;
use aurora::mldsa::keys::{PrivateKey, PublicKey};
use aurora::mldsa::params::MlDsaParamSet;

#[test]
fn const_sanity_assertions() {
    // Compare against FIPS 204 Table 2
    assert_eq!(PublicKey::byte_len(MlDsaParamSet::MlDsa44), 1312);
    assert_eq!(PrivateKey::byte_len(MlDsaParamSet::MlDsa44), 2560);
    assert_eq!(PublicKey::signature_bytes(MlDsaParamSet::MlDsa44), 2420);

    // Compare against FIPS 204 Table 1 Row "λ - collision strength of c̃"
    assert_eq!(MlDsaParamSet::MlDsa44.security_bits(), 128);
}

#[test]
fn test_roundtrip_encode_decode() {
    let mut rng = rand::rng();
    let keypair = KeyPair::generate_new(MlDsaParamSet::MlDsa44, &mut rng)
        .expect("Failed to generate keypair");

    match (keypair.public, keypair.private) {
        (None, None) => panic!("No public or private key generated"),
        (None, Some(_)) => panic!("No public key generated"),
        (Some(_), None) => panic!("No private key generated"),
        (Some(pk), Some(sk)) => {
            let encoded_pk = pk.encode();
            let roundtripped_pk = PublicKey::decode(MlDsaParamSet::MlDsa44, &encoded_pk).unwrap();
            assert!(pk.same_key(&roundtripped_pk));

            let encoded_sk = sk.encode();
            let roundtripped_sk = PrivateKey::decode(MlDsaParamSet::MlDsa44, &encoded_sk).unwrap();
            assert!(sk.same_key(&roundtripped_sk));
        }
    }
}
