use ledger_core::{PublicKey, SecretKey, SigOf, PROTOCOL_VERSION};
use sodiumoxide::crypto::sign;

fn keypair() -> (PublicKey, SecretKey) {
    sodiumoxide::init().unwrap();
    let (pk, sk) = sign::gen_keypair();
    (PublicKey { bytes: pk.0 }, SecretKey { bytes: sk.0 })
}

#[test]
fn signature_checks_against_signed_value() {
    let (pk, sk) = keypair();
    let sig = SigOf::<Vec<u8>>::sign_ser(&sk, pk, b"a value");
    assert!(sig.check_ser(b"a value"));
    assert_eq!(sig.protocol().as_str(), PROTOCOL_VERSION);
    assert_eq!(sig.protocol().as_str(), "NO");
    assert_eq!(sig.key(), pk);
    assert_ne!(sig.signature().bytes.to_vec(), b"a value".to_vec());
}

#[test]
fn signature_fails_on_other_value() {
    let (pk, sk) = keypair();
    let sig = SigOf::<Vec<u8>>::sign_ser(&sk, pk, b"a value");
    assert!(!sig.check_ser(b"a valuf"));
    assert!(!sig.check_ser(b""));
}

#[test]
fn signature_fails_under_other_key() {
    let (pk, sk) = keypair();
    let (other_pk, _) = keypair();
    let sig = SigOf::<Vec<u8>>::sign_ser(&sk, other_pk, b"a value");
    assert!(!sig.check_ser(b"a value"));
    let good = SigOf::<Vec<u8>>::sign_ser(&sk, pk, b"a value");
    assert!(good.check_ser(b"a value"));
}

#[test]
fn signing_is_deterministic() {
    let (pk, sk) = keypair();
    let a = SigOf::<u8>::sign_ser(&sk, pk, b"x");
    let b = SigOf::<u8>::sign_ser(&sk, pk, b"x");
    assert_eq!(a, b);
    assert_eq!(a.clone(), b);
}
