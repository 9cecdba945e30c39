use pet_participant::crypto::{
    digest_eligible, init, EncryptKeyPair, PublicEncryptKey, PublicSigningKey, Ratio,
    SecretEncryptKey, SecretSigningKey, Signature, SigningKeyPair, SEALBYTES,
};
use pet_participant::mask::MaskSeed;

fn hex(text: &str) -> Vec<u8> {
    (0..text.len() / 2)
        .map(|i| u8::from_str_radix(&text[2 * i..2 * i + 2], 16).unwrap())
        .collect()
}

fn known_keys() -> SigningKeyPair {
    let seed = hex("9d61b19deffd5a60ba844af492ec2cc44449c5697b326919703bac031cae7f60");
    let public = hex("d75a980182b10ab7d54bfed3c964073a0ee172f3daa62325af021a68f707511a");
    let mut secret = seed;
    secret.extend(public.clone());
    SigningKeyPair {
        public: PublicSigningKey::from_slice(&public).unwrap(),
        secret: SecretSigningKey::from_slice(&secret).unwrap(),
    }
}

#[test]
fn init_succeeds() {
    assert_eq!(init(), Ok(()));
}

#[test]
fn sign_gives_the_known_signature() {
    let keys = known_keys();
    let signature = keys.secret.sign_detached(&[]);
    let expected = hex(
        "e5564300c360ac729086e2cc806e828a84877f1eb8e5d974d873e065224901555fb8821590a33bacc61e39701cf9b46bd25bf5f0595bbe24655141438e7a100b",
    );
    assert_eq!(signature.as_slice(), expected.as_slice());
}

#[test]
fn sign_is_deterministic() {
    let keys = known_keys();
    let message = b"the same message";
    assert_eq!(
        keys.secret.sign_detached(message),
        keys.secret.sign_detached(message)
    );
    assert_ne!(
        keys.secret.sign_detached(message),
        keys.secret.sign_detached(b"another message")
    );
}

#[test]
fn verify_accepts_what_was_signed() {
    let keys = known_keys();
    let message = b"a message";
    let signature = keys.secret.sign_detached(message);
    assert!(keys.public.verify_detached(&signature, message));
}

#[test]
fn verify_refuses_another_message() {
    let keys = known_keys();
    let signature = keys.secret.sign_detached(b"a message");
    assert!(!keys.public.verify_detached(&signature, b"b message"));
}

#[test]
fn verify_refuses_a_changed_signature() {
    let keys = known_keys();
    let message = b"a message";
    let signature = keys.secret.sign_detached(message);
    for i in 0..64 {
        let mut changed = signature;
        changed.bytes[i] ^= 0x01;
        assert!(!keys.public.verify_detached(&changed, message));
    }
}

#[test]
fn verify_refuses_another_key() {
    init().unwrap();
    let keys = known_keys();
    let other = SigningKeyPair::generate();
    let message = b"a message";
    let signature = keys.secret.sign_detached(message);
    assert!(!other.public.verify_detached(&signature, message));
}

#[test]
fn verify_refuses_bytes_that_are_no_signature() {
    let keys = known_keys();
    let signature = Signature { bytes: [0xff; 64] };
    assert!(!keys.public.verify_detached(&signature, b"a message"));
}

#[test]
fn generated_keys_sign_and_verify() {
    init().unwrap();
    let keys = SigningKeyPair::generate();
    let signature = keys.secret.sign_detached(b"hello");
    assert!(keys.public.verify_detached(&signature, b"hello"));
}

#[test]
fn from_slice_wants_the_exact_length() {
    assert!(PublicSigningKey::from_slice(&[0; 31]).is_none());
    assert!(PublicSigningKey::from_slice(&[0; 33]).is_none());
    assert_eq!(
        PublicSigningKey::from_slice(&[7; 32]),
        Some(PublicSigningKey { bytes: [7; 32] })
    );
    assert!(SecretSigningKey::from_slice(&[0; 32]).is_none());
    assert!(Signature::from_slice(&[0; 63]).is_none());
    assert_eq!(
        Signature::from_slice(&[9; 64]),
        Some(Signature { bytes: [9; 64] })
    );
}

#[test]
fn digest_score_is_the_first_eight_bytes() {
    let mut digest = [0u8; 32];
    digest[7] = 5;
    digest[8] = 0xff;
    // score 5 of 2^64: under 6 / 2^63, not under 5 / 2^64 written as 5 / 2^63 halves
    assert!(digest_eligible(&digest, Ratio { numer: 3, denom: 1 << 63 }));
    assert!(!digest_eligible(&digest, Ratio { numer: 2, denom: 1 << 63 }));
}

#[test]
fn eligibility_is_strict() {
    // score = 2^63, that is one half
    let mut digest = [0u8; 32];
    digest[0] = 0x80;
    assert!(!digest_eligible(&digest, Ratio { numer: 1, denom: 2 }));
    assert!(digest_eligible(&digest, Ratio { numer: 2, denom: 3 }));
    assert!(!digest_eligible(&digest, Ratio { numer: 1, denom: 3 }));
}

#[test]
fn nobody_is_eligible_at_zero_and_everybody_at_one() {
    for byte in [0x00u8, 0x01, 0x7f, 0x80, 0xff] {
        let digest = [byte; 32];
        assert!(!digest_eligible(&digest, Ratio { numer: 0, denom: 1 }));
        assert!(digest_eligible(&digest, Ratio { numer: 1, denom: 1 }));
    }
}

#[test]
fn eligibility_goes_by_the_digest_of_the_signature() {
    // The digest of 64 zero bytes starts with f5a5fd42d16a2030.
    let signature = Signature { bytes: [0; 64] };
    let half_score = 0xf5a5fd42d16a2030u64 / 2;
    assert!(!signature.is_eligible(Ratio { numer: half_score, denom: 1 << 63 }));
    assert!(signature.is_eligible(Ratio { numer: half_score + 1, denom: 1 << 63 }));
    // The digest of 64 bytes 0x11 starts with 9aed5fce4bb60c40.
    let signature = Signature { bytes: [0x11; 64] };
    let half_score = 0x9aed5fce4bb60c40u64 / 2;
    assert!(!signature.is_eligible(Ratio { numer: half_score, denom: 1 << 63 }));
    assert!(signature.is_eligible(Ratio { numer: half_score + 1, denom: 1 << 63 }));
}

#[test]
fn is_eligible_is_deterministic() {
    let keys = known_keys();
    let signature = keys.secret.sign_detached(b"round");
    let threshold = Ratio { numer: 1, denom: 2 };
    assert_eq!(signature.is_eligible(threshold), signature.is_eligible(threshold));
}

#[test]
fn sealing_adds_the_overhead_and_opens_again() {
    init().unwrap();
    let keys = EncryptKeyPair::generate();
    let message = b"some plaintext".to_vec();
    let sealed = keys.public.encrypt(&message);
    assert_eq!(sealed.len(), message.len() + SEALBYTES);
    assert_ne!(&sealed[..message.len()], message.as_slice());
    assert_eq!(keys.decrypt(&sealed), Some(message));
}

#[test]
fn sealing_twice_differs() {
    init().unwrap();
    let keys = EncryptKeyPair::generate();
    let message = b"some plaintext".to_vec();
    assert_ne!(keys.public.encrypt(&message), keys.public.encrypt(&message));
}

#[test]
fn opening_with_other_keys_fails() {
    init().unwrap();
    let keys = EncryptKeyPair::generate();
    let other = EncryptKeyPair::generate();
    let sealed = keys.public.encrypt(b"some plaintext");
    assert_eq!(other.decrypt(&sealed), None);
}

#[test]
fn opening_what_was_tampered_with_fails() {
    init().unwrap();
    let keys = EncryptKeyPair::generate();
    let mut sealed = keys.public.encrypt(b"some plaintext");
    let last = sealed.len() - 1;
    sealed[last] ^= 1;
    assert_eq!(keys.decrypt(&sealed), None);
    assert_eq!(keys.decrypt(&[0u8; 10]), None);
}

#[test]
fn mask_seed_is_sealed_and_opened() {
    init().unwrap();
    let keys = EncryptKeyPair::generate();
    let seed = MaskSeed { bytes: [0x42; 32] };
    let sealed = seed.encrypt(&keys.public);
    assert_eq!(sealed.as_slice().len(), 80);
    assert_eq!(sealed.decrypt(&keys), Some(seed));
    let other = EncryptKeyPair::generate();
    assert_eq!(sealed.decrypt(&other), None);
}

#[test]
fn secret_encryption_key_gives_its_public_key() {
    let secret = SecretEncryptKey::from_slice(&hex(
        "77076d0a7318a57d3c16c17251b26645df4c2f87ebc0992ab177fba51db92c2a",
    ))
    .unwrap();
    let public = PublicEncryptKey::from_slice(&hex(
        "8520f0098930a754748b7ddcb43ef75a0dbf3a0d26381af4eba4a98eaa9b4e6a",
    ))
    .unwrap();
    assert_eq!(secret.public_key(), public);
}

#[test]
fn generated_encryption_keys_are_a_pair() {
    init().unwrap();
    for _ in 0..16 {
        let keys = EncryptKeyPair::generate();
        assert_eq!(keys.secret.public_key(), keys.public);
        assert_ne!(keys.secret.bytes, keys.public.bytes);
    }
    assert_ne!(EncryptKeyPair::generate(), EncryptKeyPair::generate());
}

#[test]
fn generated_signing_keys_are_a_pair() {
    init().unwrap();
    for _ in 0..16 {
        let keys = SigningKeyPair::generate();
        assert_eq!(&keys.secret.bytes[32..], &keys.public.bytes[..]);
    }
    assert_ne!(SigningKeyPair::generate(), SigningKeyPair::generate());
    let known = known_keys();
    assert_eq!(&known.secret.bytes[32..], &known.public.bytes[..]);
}

#[test]
fn sealed_seed_opens_for_every_pair_with_that_public_key() {
    init().unwrap();
    let keys = EncryptKeyPair::generate();
    let same = EncryptKeyPair { public: keys.secret.public_key(), secret: keys.secret };
    let seed = MaskSeed { bytes: [0x17; 32] };
    let sealed = seed.encrypt(&keys.public);
    assert_eq!(sealed.decrypt(&same), Some(seed));
    assert_ne!(seed.encrypt(&keys.public), sealed);
}
