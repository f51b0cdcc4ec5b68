use bandersnatch_vrfs::keys;
use bandersnatch_vrfs::{
    pedersen_vrf, thin_vrf, KeyCommitment, Message, PedersenVrf, Point, RingVrfSignature, Scalar,
    SecretBlinding, SecretKey, SignatureError, SigningTranscript, VrfInput, VrfPreOut,
};

fn ring_input(message: &[u8]) -> VrfInput {
    Message { domain: b"ring", message }.into_vrf_input()
}

fn ring_transcript() -> SigningTranscript {
    let mut t = SigningTranscript::new("ring test");
    t.append_message("context", b"shared by signer and verifier");
    t
}

fn probe(mut t: SigningTranscript) -> Vec<u8> {
    t.challenge_bytes("probe", 32)
}

fn flavor() -> PedersenVrf {
    pedersen_vrf(Message { domain: b"bases", message: b"blinding" }.into_vrf_input().0)
}

#[test]
fn pedersen_flavor_holds_its_bases() {
    let blinding_base = ring_input(b"base").0;
    let flavor = pedersen_vrf(blinding_base);
    assert_eq!(flavor.keying_base, Point::generator());
    assert_eq!(*flavor.keying_base(), Point::generator());
    assert_eq!(flavor.blinding_base, blinding_base);
    assert_eq!(PedersenVrf::new(Point::generator(), blinding_base), flavor);
}

#[test]
fn ring_signature_verifies() {
    let secret = SecretKey::from_seed([21u8; 32]);
    let inputs = [ring_input(b"one"), ring_input(b"two")];
    let ios = [secret.0.vrf_inout(inputs[0]), secret.0.vrf_inout(inputs[1])];
    let signature =
        secret.sign_ring_vrf::<2>(&flavor(), &mut ring_transcript(), &ios, &[3u8; 32]).unwrap();
    assert_eq!(signature.preoutputs, [ios[0].preoutput, ios[1].preoutput]);
    let verified = signature.verify_ring_vrf(&flavor(), &mut ring_transcript(), &inputs).unwrap();
    assert_eq!(verified, ios);
}

#[test]
fn ring_signature_without_pairs_verifies() {
    let secret = SecretKey::from_seed([22u8; 32]);
    let signature =
        secret.sign_ring_vrf::<0>(&flavor(), &mut ring_transcript(), &[], &[3u8; 32]).unwrap();
    assert!(signature.verify_ring_vrf(&flavor(), &mut ring_transcript(), &[]).is_ok());
}

#[test]
fn ring_signature_hides_the_public_key_behind_a_commitment() {
    let secret = SecretKey::from_seed([21u8; 32]);
    let io = secret.0.vrf_inout(ring_input(b"one"));
    let signature =
        secret.sign_ring_vrf::<1>(&flavor(), &mut ring_transcript(), &[io], &[3u8; 32]).unwrap();
    assert_ne!(signature.signature.compk.0, secret.to_public().0.0);
    assert_eq!(*signature.signature.as_key_commitment(), signature.signature.compk);
}

#[test]
fn signing_and_verifying_leave_the_same_transcript() {
    let secret = SecretKey::from_seed([21u8; 32]);
    let input = ring_input(b"one");
    let io = secret.0.vrf_inout(input);
    let mut signer = ring_transcript();
    let signature = secret.sign_ring_vrf::<1>(&flavor(), &mut signer, &[io], &[3u8; 32]).unwrap();
    let mut verifier = ring_transcript();
    signature.verify_ring_vrf(&flavor(), &mut verifier, &[input]).unwrap();
    assert_eq!(probe(signer), probe(verifier));
}

#[test]
fn sign_ring_vrf_refuses_wrong_arity() {
    let secret = SecretKey::from_seed([21u8; 32]);
    let io = secret.0.vrf_inout(ring_input(b"one"));
    let mut t = ring_transcript();
    let result = secret.sign_ring_vrf::<3>(&flavor(), &mut t, &[io], &[3u8; 32]);
    assert_eq!(result.err(), Some(SignatureError::InvalidArity));
    assert_eq!(probe(t), probe(ring_transcript()));
}

#[test]
fn verify_ring_vrf_refuses_wrong_arity() {
    let secret = SecretKey::from_seed([21u8; 32]);
    let input = ring_input(b"one");
    let io = secret.0.vrf_inout(input);
    let signature =
        secret.sign_ring_vrf::<1>(&flavor(), &mut ring_transcript(), &[io], &[3u8; 32]).unwrap();
    let mut t = ring_transcript();
    let result = signature.verify_ring_vrf(&flavor(), &mut t, &[]);
    assert_eq!(result.err(), Some(SignatureError::InvalidArity));
    assert_eq!(probe(t), probe(ring_transcript()));
    let result = signature.verify_ring_vrf(&flavor(), &mut ring_transcript(), &[input, input]);
    assert_eq!(result.err(), Some(SignatureError::InvalidArity));
}

#[test]
fn blinded_key_is_the_public_key_plus_the_blinded_base() {
    let flavor = flavor();
    let secret = SecretKey::from_seed([23u8; 32]);
    let blinding = SecretBlinding(Scalar::from_u64(77));
    let compk = flavor.compute_blinded_publickey(&secret.0.to_public(), &blinding);
    let expected = secret.to_public().0.0.add(&flavor.blinding_base.mul(&Scalar::from_u64(77)));
    assert_eq!(compk, KeyCommitment(expected));
    let zero = SecretBlinding(Scalar::from_u64(0));
    let unblinded = flavor.compute_blinded_publickey(&secret.0.to_public(), &zero);
    assert_eq!(unblinded.0, secret.to_public().0.0);
}

#[test]
fn different_blindings_give_different_commitments_and_both_verify() {
    let flavor = flavor();
    let secret = SecretKey::from_seed([23u8; 32]);
    let input = ring_input(b"one");
    let io = secret.0.vrf_inout(input);
    let first = SecretBlinding(Scalar::from_u64(1));
    let second = SecretBlinding(Scalar::from_u64(2));
    let entropy = [9u8; 32];
    let (a, used_a) =
        flavor.sign_pedersen_vrf(&mut ring_transcript(), &[io], Some(first), &secret.0, &entropy);
    let (b, used_b) =
        flavor.sign_pedersen_vrf(&mut ring_transcript(), &[io], Some(second), &secret.0, &entropy);
    assert_eq!(used_a.0, first.0);
    assert_eq!(used_b.0, second.0);
    assert_ne!(a.compk, b.compk);
    assert_eq!(a.compk, flavor.compute_blinded_publickey(&secret.0.to_public(), &first));
    assert_eq!(b.compk, flavor.compute_blinded_publickey(&secret.0.to_public(), &second));
    assert!(flavor.verify_pedersen_vrf(&mut ring_transcript(), &[io], &a).is_ok());
    assert!(flavor.verify_pedersen_vrf(&mut ring_transcript(), &[io], &b).is_ok());
}

#[test]
fn derived_blinding_is_returned_and_depends_on_the_entropy() {
    let flavor = flavor();
    let secret = SecretKey::from_seed([23u8; 32]);
    let io = secret.0.vrf_inout(ring_input(b"one"));
    let (a, blinding_a) =
        flavor.sign_pedersen_vrf(&mut ring_transcript(), &[io], None, &secret.0, &[1u8; 32]);
    let (b, blinding_b) =
        flavor.sign_pedersen_vrf(&mut ring_transcript(), &[io], None, &secret.0, &[2u8; 32]);
    assert_ne!(blinding_a.0, blinding_b.0);
    assert_ne!(a.compk, b.compk);
    assert_eq!(a.compk, flavor.compute_blinded_publickey(&secret.0.to_public(), &blinding_a));
    assert_eq!(
        blinding_a.0,
        flavor.new_secret_blinding(&ring_transcript(), &secret.0, &[1u8; 32]).0
    );
    assert!(flavor.verify_pedersen_vrf(&mut ring_transcript(), &[io], &a).is_ok());
    assert!(flavor.verify_pedersen_vrf(&mut ring_transcript(), &[io], &b).is_ok());
    let (again, _) =
        flavor.sign_pedersen_vrf(&mut ring_transcript(), &[io], None, &secret.0, &[1u8; 32]);
    assert_eq!(a, again);
}

#[test]
fn pedersen_responses_answer_for_key_and_blinding() {
    let flavor = flavor();
    let key = Scalar::from_u64(1000);
    let nonce_seed = [4u8; 32];
    let entropy = [5u8; 32];
    let blinding = Scalar::from_u64(2000);
    let secret = keys::SecretKey::from_scalar(thin_vrf(), key, nonce_seed);
    let io = secret.vrf_inout(ring_input(b"one"));
    let (signature, _) = flavor.sign_pedersen_vrf(
        &mut ring_transcript(),
        &[io],
        Some(SecretBlinding(blinding)),
        &secret,
        &entropy,
    );

    let mut t = ring_transcript();
    let merged = flavor.pedersen_vrf_merge(&mut t, &signature.compk, &[io]);
    let ks = t.witnesses("MakeWitness", &nonce_seed, &entropy, 2);
    let r = merged.input.0.mul(&ks[0]).add(&flavor.blinding_base.mul(&ks[1]));
    assert_eq!(signature.r, r);
    t.append_point("Witness", &r);
    let c = t.challenge("PedersenVrfChallenge");
    assert_eq!(signature.s, ks[0].add(&c.mul(&key)));
    assert_eq!(signature.s_blinding, ks[1].add(&c.mul(&blinding)));
    let for_blinding = flavor.blinding_base.mul(&signature.s_blinding);
    let lhs = merged.input.0.mul(&signature.s).add(&for_blinding);
    let rhs = signature.r.add(&merged.preoutput.0.mul(&c));
    assert_eq!(lhs, rhs);
}

fn ring_signed() -> ([VrfInput; 2], RingVrfSignature<2>) {
    let secret = SecretKey::from_seed([24u8; 32]);
    let inputs = [ring_input(b"first"), ring_input(b"second")];
    let ios = [secret.0.vrf_inout(inputs[0]), secret.0.vrf_inout(inputs[1])];
    let signature =
        secret.sign_ring_vrf::<2>(&flavor(), &mut ring_transcript(), &ios, &[6u8; 32]).unwrap();
    (inputs, signature)
}

#[test]
fn changed_ring_signature_is_rejected() {
    let (inputs, signature) = ring_signed();
    assert!(signature.verify_ring_vrf(&flavor(), &mut ring_transcript(), &inputs).is_ok());

    let mut changed = signature;
    changed.signature.r = changed.signature.r.add(&Point::generator());
    let result = changed.verify_ring_vrf(&flavor(), &mut ring_transcript(), &inputs);
    assert_eq!(result.err(), Some(SignatureError::Invalid));

    let mut changed = signature;
    changed.signature.s = changed.signature.s.add(&Scalar::from_u64(1));
    let result = changed.verify_ring_vrf(&flavor(), &mut ring_transcript(), &inputs);
    assert_eq!(result.err(), Some(SignatureError::Invalid));

    let mut changed = signature;
    changed.signature.s_blinding = changed.signature.s_blinding.add(&Scalar::from_u64(1));
    let result = changed.verify_ring_vrf(&flavor(), &mut ring_transcript(), &inputs);
    assert_eq!(result.err(), Some(SignatureError::Invalid));

    let mut changed = signature;
    changed.signature.compk = KeyCommitment(changed.signature.compk.0.add(&Point::generator()));
    let result = changed.verify_ring_vrf(&flavor(), &mut ring_transcript(), &inputs);
    assert_eq!(result.err(), Some(SignatureError::Invalid));

    let mut changed = signature;
    changed.preoutputs[1] = VrfPreOut(changed.preoutputs[1].0.add(&Point::generator()));
    let result = changed.verify_ring_vrf(&flavor(), &mut ring_transcript(), &inputs);
    assert_eq!(result.err(), Some(SignatureError::Invalid));
}

#[test]
fn reordered_ring_inputs_are_rejected() {
    let (inputs, signature) = ring_signed();
    let reordered = [inputs[1], inputs[0]];
    let result = signature.verify_ring_vrf(&flavor(), &mut ring_transcript(), &reordered);
    assert_eq!(result.err(), Some(SignatureError::Invalid));
}

#[test]
fn other_blinding_base_is_rejected() {
    let (inputs, signature) = ring_signed();
    let other = pedersen_vrf(ring_input(b"another base").0);
    let result = signature.verify_ring_vrf(&other, &mut ring_transcript(), &inputs);
    assert_eq!(result.err(), Some(SignatureError::Invalid));
}
