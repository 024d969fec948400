use hypersign::{keypair, salt, sign, signable, verify, HypersignError, KeyPair, Options};

#[test]
fn it_works() {
    assert_eq!(2 + 2, 4);
}

#[test]
fn payload_hello_world_unsalted() {
    let kp = keypair();
    let opts = Options { keypair: kp, salt: None, seq: Some(1) };
    let payload = signable(b"hello world".to_vec(), &opts).unwrap();
    assert_eq!(payload, b"3:seqi1e1:v11:hello world".to_vec());
}

#[test]
fn payload_hello_world_salted() {
    let kp = keypair();
    let opts = Options {
        keypair: kp,
        salt: Some(b"abcdefghijklmnop".to_vec()),
        seq: Some(1),
    };
    let payload = signable(b"hello world".to_vec(), &opts).unwrap();
    assert_eq!(
        payload,
        b"4:salt16:abcdefghijklmnop3:seqi1e1:v11:hello world".to_vec()
    );
}

#[test]
fn payload_defaults_seq_to_zero() {
    let kp = keypair();
    let opts = Options { keypair: kp, salt: None, seq: None };
    let payload = signable(b"hi".to_vec(), &opts).unwrap();
    assert_eq!(payload, b"3:seqi0e1:v2:hi".to_vec());
}

#[test]
fn payload_is_deterministic() {
    let kp1 = keypair();
    let kp2 = keypair();
    let opts1 = Options {
        keypair: kp1,
        salt: Some(b"0123456789abcdef".to_vec()),
        seq: Some(42),
    };
    let opts2 = Options {
        keypair: kp2,
        salt: Some(b"0123456789abcdef".to_vec()),
        seq: Some(42),
    };
    let p1 = signable(b"same value".to_vec(), &opts1).unwrap();
    let p2 = signable(b"same value".to_vec(), &opts2).unwrap();
    assert_eq!(p1, p2);
}

#[test]
fn payloads_differ_for_different_salts_of_same_length() {
    let opts1 = Options {
        keypair: keypair(),
        salt: Some(b"aaaaaaaaaaaaaaaa".to_vec()),
        seq: Some(5),
    };
    let opts2 = Options {
        keypair: keypair(),
        salt: Some(b"aaaaaaaaaaaaaaab".to_vec()),
        seq: Some(5),
    };
    let p1 = signable(b"value".to_vec(), &opts1).unwrap();
    let p2 = signable(b"value".to_vec(), &opts2).unwrap();
    assert_ne!(p1, p2);
}

#[test]
fn salt_rejects_size_below_range() {
    assert!(matches!(
        salt(Some("seed"), Some(15)),
        Err(HypersignError::SaltSizeError)
    ));
}

#[test]
fn salt_rejects_size_above_range() {
    assert!(matches!(
        salt(Some("seed"), Some(65)),
        Err(HypersignError::SaltSizeError)
    ));
}

#[test]
fn salt_default_size_is_32() {
    assert_eq!(salt(Some("seed"), None).unwrap().len(), 32);
    assert_eq!(salt(None, None).unwrap().len(), 32);
}

#[test]
fn salt_output_length_equals_requested_size() {
    assert_eq!(salt(Some("seed"), Some(16)).unwrap().len(), 16);
    assert_eq!(salt(Some("seed"), Some(40)).unwrap().len(), 40);
    assert_eq!(salt(None, Some(64)).unwrap().len(), 64);
}

#[test]
fn salt_is_deterministic_and_depends_on_seed() {
    assert_eq!(salt(Some("one"), None).unwrap(), salt(Some("one"), None).unwrap());
    assert_ne!(salt(Some("one"), None).unwrap(), salt(Some("two"), None).unwrap());
}

#[test]
fn salt_without_seed_is_hashed_not_zero_filled() {
    let derived = salt(None, Some(16)).unwrap();
    assert_ne!(derived, vec![0u8; 16]);
}

#[test]
fn signable_rejects_oversized_value() {
    let opts = Options { keypair: keypair(), salt: None, seq: Some(1) };
    assert!(matches!(
        signable(vec![7u8; 1001], &opts),
        Err(HypersignError::ValueSizeError)
    ));
}

#[test]
fn signable_accepts_value_at_boundary() {
    let opts = Options { keypair: keypair(), salt: None, seq: Some(1) };
    let payload = signable(vec![7u8; 1000], &opts).unwrap();
    let mut expect = b"3:seqi1e1:v1000:".to_vec();
    expect.extend_from_slice(&[7u8; 1000]);
    assert_eq!(payload, expect);
}

#[test]
fn sign_rejects_oversized_value() {
    let opts = Options { keypair: keypair(), salt: None, seq: Some(1) };
    assert!(matches!(
        sign(vec![7u8; 1001], opts),
        Err(HypersignError::ValueSizeError)
    ));
}

#[test]
fn sign_rejects_malformed_keypair() {
    let opts = Options {
        keypair: KeyPair { bytes: vec![0u8; 10] },
        salt: None,
        seq: Some(1),
    };
    assert!(matches!(
        sign(b"value".to_vec(), opts),
        Err(HypersignError::SecretKeyError)
    ));
}

#[test]
fn sign_rejects_mismatched_keypair_halves() {
    let kp1 = keypair();
    let kp2 = keypair();
    let mut bytes = kp1.bytes[..32].to_vec();
    bytes.extend_from_slice(&kp2.bytes[32..]);
    let opts = Options {
        keypair: KeyPair { bytes },
        salt: None,
        seq: Some(1),
    };
    assert!(matches!(
        sign(b"value".to_vec(), opts),
        Err(HypersignError::SecretKeyError)
    ));
}

#[test]
fn sign_verify_roundtrip_unsalted() {
    let kp = keypair();
    let pk = kp.public_key();
    let opts = Options { keypair: kp, salt: None, seq: Some(1) };
    let sig = sign(b"hello world".to_vec(), opts).unwrap();
    let ok = verify(&b"hello world".to_vec(), &None, 1, &sig, &pk).unwrap();
    assert!(ok);
}

#[test]
fn sign_verify_roundtrip_salted() {
    let kp = keypair();
    let pk = kp.public_key();
    let s = b"abcdefghijklmnop".to_vec();
    let opts = Options { keypair: kp, salt: Some(s.clone()), seq: Some(9) };
    let sig = sign(b"payload".to_vec(), opts).unwrap();
    let ok = verify(&b"payload".to_vec(), &Some(s), 9, &sig, &pk).unwrap();
    assert!(ok);
}

#[test]
fn verify_rejects_altered_value() {
    let kp = keypair();
    let pk = kp.public_key();
    let opts = Options { keypair: kp, salt: None, seq: Some(1) };
    let sig = sign(b"hello world".to_vec(), opts).unwrap();
    let ok = verify(&b"hello worle".to_vec(), &None, 1, &sig, &pk).unwrap();
    assert!(!ok);
}

#[test]
fn verify_rejects_altered_seq() {
    let kp = keypair();
    let pk = kp.public_key();
    let opts = Options { keypair: kp, salt: None, seq: Some(1) };
    let sig = sign(b"hello world".to_vec(), opts).unwrap();
    let ok = verify(&b"hello world".to_vec(), &None, 2, &sig, &pk).unwrap();
    assert!(!ok);
}

#[test]
fn verify_rejects_altered_salt() {
    let kp = keypair();
    let pk = kp.public_key();
    let s = b"abcdefghijklmnop".to_vec();
    let opts = Options { keypair: kp, salt: Some(s), seq: Some(1) };
    let sig = sign(b"hello world".to_vec(), opts).unwrap();
    let other = b"abcdefghijklmnoq".to_vec();
    assert!(!verify(&b"hello world".to_vec(), &Some(other), 1, &sig, &pk).unwrap());
    assert!(!verify(&b"hello world".to_vec(), &None, 1, &sig, &pk).unwrap());
}

#[test]
fn verify_rejects_oversized_value() {
    let kp = keypair();
    let pk = kp.public_key();
    let opts = Options { keypair: kp, salt: None, seq: Some(1) };
    let sig = sign(b"small".to_vec(), opts).unwrap();
    assert!(matches!(
        verify(&vec![7u8; 1001], &None, 1, &sig, &pk),
        Err(HypersignError::ValueSizeError)
    ));
}

#[test]
fn verify_rejects_wrong_public_key() {
    let kp = keypair();
    let other_pk = keypair().public_key();
    let opts = Options { keypair: kp, salt: None, seq: Some(1) };
    let sig = sign(b"hello world".to_vec(), opts).unwrap();
    let ok = verify(&b"hello world".to_vec(), &None, 1, &sig, &other_pk).unwrap();
    assert!(!ok);
}

#[test]
fn keypair_is_64_bytes_with_32_byte_public_half() {
    let kp = keypair();
    assert_eq!(kp.bytes.len(), 64);
    let pk = kp.public_key();
    assert_eq!(pk.len(), 32);
    assert_eq!(&kp.bytes[32..], &pk[..]);
}

#[test]
fn seq_supports_values_beyond_64_bits() {
    let kp = keypair();
    let big: u128 = 340282366920938463463374607431768211455;
    let opts = Options { keypair: kp, salt: None, seq: Some(big) };
    let payload = signable(b"v".to_vec(), &opts).unwrap();
    assert_eq!(
        payload,
        b"3:seqi340282366920938463463374607431768211455e1:v1:v".to_vec()
    );
}
