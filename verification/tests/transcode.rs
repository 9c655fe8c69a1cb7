//! DER and PEM encoding and decoding of ML-DSA keys.

use aurora::error::Error;
use aurora::mldsa::keypair::KeyPair;
use aurora::mldsa::params::MlDsaParamSet;
use aurora::mldsa::transcode::{
    algorithm_id_der, decodePrivateKeyInfo, decodeSPKI, encodePrivateKeyInfo2DER,
    encodePrivateKeyInfo2PEM, encodeSPKI2DER, encodeSPKI2PEM, private_key_bytes_to_DER,
    DecodeOutcome,
};
use pkcs8::der::Decode;

const SELECT_PRIVATE_KEY: i32 = 0x01;
const SELECT_PUBLIC_KEY: i32 = 0x02;
const SELECT_KEYPAIR: i32 = 0x03;

fn keypair(p: MlDsaParamSet) -> KeyPair {
    let mut rng = rand::rng();
    KeyPair::generate_new(p, &mut rng).expect("Failed to generate keypair")
}

#[test]
fn oid_matches_pkcs8() {
    let oid44 = pkcs8::ObjectIdentifier::new_unwrap("2.16.840.1.101.3.4.3.17");
    let oid65 = pkcs8::ObjectIdentifier::new_unwrap("2.16.840.1.101.3.4.3.18");
    assert_eq!(MlDsaParamSet::MlDsa44.oid(), oid44.as_bytes().to_vec());
    assert_eq!(MlDsaParamSet::MlDsa65.oid(), oid65.as_bytes().to_vec());
    assert_eq!(
        algorithm_id_der(MlDsaParamSet::MlDsa44),
        vec![0x30, 0x0b, 0x06, 0x09, 0x60, 0x86, 0x48, 0x01, 0x65, 0x03, 0x04, 0x03, 0x11]
    );
}

#[test]
fn spki_roundtrip() {
    for p in [MlDsaParamSet::MlDsa44, MlDsaParamSet::MlDsa65] {
        let kp = keypair(p);
        let der = kp.to_SPKIDER().expect("SPKI encoding failed");
        match decodeSPKI(p, SELECT_PUBLIC_KEY, &der) {
            DecodeOutcome::Decoded(back) => {
                assert!(back.private.is_none());
                assert!(back.public.unwrap().same_key(kp.public.as_ref().unwrap()));
            }
            _ => panic!("unexpected outcome"),
        }
        // selection 0 means "anything"
        assert!(matches!(decodeSPKI(p, 0, &der), DecodeOutcome::Decoded(_)));
        // pkcs8's own reading agrees
        let spki = pkcs8::spki::SubjectPublicKeyInfoRef::from_der(&der).unwrap();
        assert_eq!(spki.algorithm.oid.as_bytes(), p.oid().as_slice());
        assert!(spki.algorithm.parameters.is_none());
        assert_eq!(
            spki.subject_public_key.as_bytes().unwrap(),
            kp.public.as_ref().unwrap().encode().as_slice()
        );
    }
}

#[test]
fn spki_exact_header() {
    let kp = keypair(MlDsaParamSet::MlDsa44);
    let der = kp.to_SPKIDER().unwrap();
    // SEQUENCE (1330) { SEQUENCE { OID }, BIT STRING (1313) { 0, key } }
    let header = [
        0x30, 0x82, 0x05, 0x32, 0x30, 0x0b, 0x06, 0x09, 0x60, 0x86, 0x48, 0x01, 0x65, 0x03, 0x04,
        0x03, 0x11, 0x03, 0x82, 0x05, 0x21, 0x00,
    ];
    assert_eq!(&der[..header.len()], &header);
    assert_eq!(der.len(), header.len() + 1312);
}

#[test]
fn private_key_info_roundtrip() {
    for p in [MlDsaParamSet::MlDsa44, MlDsaParamSet::MlDsa65] {
        let kp = keypair(p);
        let der = kp.to_PrivateKeyInfoDER().expect("PrivateKeyInfo encoding failed");
        match decodePrivateKeyInfo(p, SELECT_KEYPAIR, &der) {
            DecodeOutcome::Decoded(back) => {
                assert!(back.private.as_ref().unwrap().same_key(kp.private.as_ref().unwrap()));
                assert!(back.public.as_ref().unwrap().same_key(kp.public.as_ref().unwrap()));
            }
            _ => panic!("unexpected outcome"),
        }
        let pki = pkcs8::PrivateKeyInfoRef::try_from(der.as_slice()).unwrap();
        assert_eq!(pki.version(), pkcs8::Version::V1);
        assert_eq!(pki.algorithm.oid.as_bytes(), p.oid().as_slice());
        // the private key is the seed form: [0] IMPLICIT OCTET STRING of 32 bytes
        let inner = pki.private_key.as_bytes();
        assert_eq!(inner[0], 0x80);
        assert_eq!(inner[1], 32);
        assert_eq!(&inner[2..], kp.private.as_ref().unwrap().seed().unwrap().as_slice());
    }
}

#[test]
fn decoders_leave_other_algorithms_to_others() {
    let kp = keypair(MlDsaParamSet::MlDsa44);
    let spki = kp.to_SPKIDER().unwrap();
    let pki = kp.to_PrivateKeyInfoDER().unwrap();
    assert!(matches!(decodeSPKI(MlDsaParamSet::MlDsa65, 0, &spki), DecodeOutcome::Continue));
    assert!(matches!(
        decodePrivateKeyInfo(MlDsaParamSet::MlDsa65, 0, &pki),
        DecodeOutcome::Continue
    ));
}

#[test]
fn decoders_on_garbage_and_wrong_selection() {
    let garbage = [0x01u8, 0x02, 0x03];
    // an unparsable SubjectPublicKeyInfo may be something else
    assert!(matches!(decodeSPKI(MlDsaParamSet::MlDsa44, 0, &garbage), DecodeOutcome::Continue));
    // an unparsable PrivateKeyInfo stops decoding
    assert!(matches!(
        decodePrivateKeyInfo(MlDsaParamSet::MlDsa44, 0, &garbage),
        DecodeOutcome::Stop
    ));
    let kp = keypair(MlDsaParamSet::MlDsa44);
    let spki = kp.to_SPKIDER().unwrap();
    let pki = kp.to_PrivateKeyInfoDER().unwrap();
    assert!(matches!(
        decodeSPKI(MlDsaParamSet::MlDsa44, SELECT_PRIVATE_KEY, &spki),
        DecodeOutcome::Stop
    ));
    assert!(matches!(
        decodePrivateKeyInfo(MlDsaParamSet::MlDsa44, SELECT_PUBLIC_KEY, &pki),
        DecodeOutcome::Stop
    ));
}

#[test]
fn spki_with_short_key_stops() {
    // a well-formed SubjectPublicKeyInfo for ML-DSA-44 with a 3-byte key
    let mut der = vec![0x30, 0x13];
    der.extend_from_slice(&algorithm_id_der(MlDsaParamSet::MlDsa44));
    der.extend_from_slice(&[0x03, 0x04, 0x00, 0xaa, 0xbb, 0xcc]);
    assert!(matches!(decodeSPKI(MlDsaParamSet::MlDsa44, 0, &der), DecodeOutcome::Stop));
}

#[test]
fn encoders_check_selection_and_keys() {
    let kp = keypair(MlDsaParamSet::MlDsa44);
    assert_eq!(
        encodePrivateKeyInfo2DER(SELECT_PUBLIC_KEY, &kp).unwrap_err(),
        Error::InvalidSelection
    );
    assert_eq!(encodeSPKI2DER(SELECT_PRIVATE_KEY, &kp).unwrap_err(), Error::InvalidSelection);
    assert_eq!(encodePrivateKeyInfo2DER(SELECT_KEYPAIR, &kp).unwrap(), kp.to_PrivateKeyInfoDER().unwrap());
    assert_eq!(encodeSPKI2DER(SELECT_KEYPAIR, &kp).unwrap(), kp.to_SPKIDER().unwrap());

    let only_public = KeyPair::from_parts(MlDsaParamSet::MlDsa44, None, kp.public);
    assert_eq!(only_public.to_PrivateKeyInfoDER().unwrap_err(), Error::MissingPrivateKey);
    let empty = KeyPair::new(MlDsaParamSet::MlDsa44);
    assert_eq!(empty.to_SPKIDER().unwrap_err(), Error::MissingPublicKey);
}

#[test]
fn pem_encoders() {
    let kp = keypair(MlDsaParamSet::MlDsa65);
    let pem = String::from_utf8(encodeSPKI2PEM(SELECT_PUBLIC_KEY, &kp).unwrap()).unwrap();
    assert!(pem.starts_with("-----BEGIN PUBLIC KEY-----"));
    let parsed = pem::parse(&pem).unwrap();
    assert_eq!(parsed.tag(), "PUBLIC KEY");
    assert_eq!(parsed.contents(), kp.to_SPKIDER().unwrap().as_slice());

    let pem = String::from_utf8(encodePrivateKeyInfo2PEM(SELECT_PRIVATE_KEY, &kp).unwrap()).unwrap();
    let parsed = pem::parse(&pem).unwrap();
    assert_eq!(parsed.tag(), "PRIVATE KEY");
    assert_eq!(parsed.contents(), kp.to_PrivateKeyInfoDER().unwrap().as_slice());
}

#[test]
fn private_key_bytes_der() {
    let der = private_key_bytes_to_DER(MlDsaParamSet::MlDsa44, &[0xab, 0xcd]).unwrap();
    let mut expected = vec![0x30, 0x16, 0x02, 0x01, 0x00];
    expected.extend_from_slice(&algorithm_id_der(MlDsaParamSet::MlDsa44));
    expected.extend_from_slice(&[0x04, 0x04, 0x04, 0x02, 0xab, 0xcd]);
    assert_eq!(der, expected);
    // 70000 = 0x011170: three length octets.
    let long = vec![7u8; 70000];
    let der = private_key_bytes_to_DER(MlDsaParamSet::MlDsa44, &long).unwrap();
    assert_eq!(&der[..5], &[0x30, 0x83, 0x01, 0x11, 0x8a]);
    assert_eq!(der.len(), 5 + 70026);
    let pki = pkcs8::PrivateKeyInfoRef::from_der(&der).unwrap();
    assert_eq!(&pki.private_key.as_bytes()[..5], &[0x04, 0x83, 0x01, 0x11, 0x70]);
    assert_eq!(pki.private_key.as_bytes().len(), 70005);
    // 2^24 bytes: four length octets.
    let longer = vec![1u8; 1 << 24];
    let der = private_key_bytes_to_DER(MlDsaParamSet::MlDsa65, &longer).unwrap();
    assert_eq!(der[1], 0x84);
    assert_eq!(der.len(), 6 + 16 + 12 + (1 << 24));
}
