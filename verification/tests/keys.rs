use bandersnatch_vrfs::keys;
use bandersnatch_vrfs::{thin_vrf, Message, Point, Scalar, SecretKey, ThinVrf, VrfInOut};

#[test]
fn same_seed_gives_the_same_public_key() {
    let first = SecretKey::from_seed([1u8; 32]).to_public();
    let second = SecretKey::from_seed([1u8; 32]).to_public();
    assert_eq!(first, second);
}

#[test]
fn different_seeds_give_different_public_keys() {
    let mut seed = [0u8; 32];
    let first = SecretKey::from_seed(seed).to_public();
    seed[31] = 1;
    let second = SecretKey::from_seed(seed).to_public();
    assert_ne!(first, second);
    seed[31] = 0;
    seed[0] = 128;
    let third = SecretKey::from_seed(seed).to_public();
    assert_ne!(first, third);
    assert_ne!(second, third);
}

#[test]
fn seed_expands_on_the_keying_base_of_the_flavor() {
    let base = Message { domain: b"bases", message: b"keying" }.into_vrf_input().0;
    let on_generator = keys::SecretKey::from_seed(thin_vrf(), [3u8; 32]);
    let on_base = keys::SecretKey::from_seed(ThinVrf { keying_base: base }, [3u8; 32]);
    assert_eq!(on_generator.to_public(), SecretKey::from_seed([3u8; 32]).to_public().0);
    assert_ne!(on_generator.to_public(), on_base.to_public());
    assert_eq!(on_base.flavor().keying_base, base);
    assert_eq!(*on_base.flavor().keying_base(), base);
}

#[test]
fn public_key_is_the_keying_base_times_the_secret_scalar() {
    let one = keys::SecretKey::from_scalar(thin_vrf(), Scalar::from_u64(1), [0u8; 32]);
    assert_eq!(one.to_public().0, Point::generator());
    let two = keys::SecretKey::from_scalar(thin_vrf(), Scalar::from_u64(2), [0u8; 32]);
    assert_eq!(two.to_public().0, Point::generator().add(&Point::generator()));
    assert_eq!(*two.as_publickey(), two.to_public());
    let zero = keys::SecretKey::from_scalar(thin_vrf(), Scalar::from_u64(0), [0u8; 32]);
    assert!(zero.to_public().0.is_identity());
}

#[test]
fn cloned_key_signs_alike() {
    let secret = SecretKey::from_seed([5u8; 32]);
    let copy = secret.clone();
    assert_eq!(secret.to_public(), copy.to_public());
    let input = Message { domain: b"domain", message: b"message" }.into_vrf_input();
    assert_eq!(secret.0.vrf_preout(&input), copy.0.vrf_preout(&input));
}

#[test]
fn preoutput_is_the_input_times_the_secret_scalar() {
    let key = Scalar::from_u64(31337);
    let secret = keys::SecretKey::from_scalar(thin_vrf(), key, [0u8; 32]);
    let input = Message { domain: b"domain", message: b"message" }.into_vrf_input();
    let preoutput = secret.vrf_preout(&input);
    assert_eq!(preoutput.0, input.0.mul(&key));
    assert_eq!(secret.vrf_inout(input), VrfInOut { input, preoutput });
}

#[test]
fn seed_expands_through_a_transcript() {
    let seed = [17u8; 32];
    let mut t = bandersnatch_vrfs::SigningTranscript::new("VrfSecretSeed");
    t.append_message("seed", &seed);
    let key = t.challenge("key");
    let nonce_seed: [u8; 32] = t.challenge_bytes("nonce", 32).try_into().unwrap();

    let expanded = keys::SecretKey::from_seed(thin_vrf(), seed);
    assert_eq!(expanded.to_public().0, Point::generator().mul(&key));

    let rebuilt = keys::SecretKey::from_scalar(thin_vrf(), key, nonce_seed);
    assert_eq!(rebuilt.to_public(), expanded.to_public());
    let input = Message { domain: b"domain", message: b"message" }.into_vrf_input();
    let io = expanded.vrf_inout(input);
    let sign = |secret: &keys::SecretKey| {
        let mut t = bandersnatch_vrfs::SigningTranscript::new("test");
        secret.sign_thin_vrf(&mut t, &[io], &[1u8; 32])
    };
    assert_eq!(sign(&expanded), sign(&rebuilt));
    let other_nonce = keys::SecretKey::from_scalar(thin_vrf(), key, [0u8; 32]);
    assert_ne!(sign(&expanded).r, sign(&other_nonce).r);
}
