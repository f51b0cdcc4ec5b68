use bandersnatch_vrfs::vrf::{attach_inputs_array, collect_preoutputs_array, vrfs_delinearize};
use bandersnatch_vrfs::{
    Point, Scalar, SignatureError, SigningTranscript, VrfInOut, VrfInput, VrfPreOut,
};

fn multiple(k: u64) -> Point {
    Point::generator().mul(&Scalar::from_u64(k))
}

fn pair(input: u64, preoutput: u64) -> VrfInOut {
    VrfInOut { input: VrfInput(multiple(input)), preoutput: VrfPreOut(multiple(preoutput)) }
}

#[test]
fn preoutputs_are_collected_in_order() {
    assert_eq!(collect_preoutputs_array::<0>(&[]), Ok([]));
    let ios = [pair(1, 2), pair(3, 4), pair(5, 6)];
    assert_eq!(
        collect_preoutputs_array::<3>(&ios),
        Ok([VrfPreOut(multiple(2)), VrfPreOut(multiple(4)), VrfPreOut(multiple(6))])
    );
    assert_eq!(collect_preoutputs_array::<1>(&ios[2..]), Ok([VrfPreOut(multiple(6))]));
}

#[test]
fn collecting_refuses_another_count() {
    let ios = [pair(1, 2), pair(3, 4), pair(5, 6)];
    assert_eq!(collect_preoutputs_array::<2>(&ios), Err(SignatureError::InvalidArity));
    assert_eq!(collect_preoutputs_array::<4>(&ios), Err(SignatureError::InvalidArity));
    assert_eq!(collect_preoutputs_array::<0>(&ios), Err(SignatureError::InvalidArity));
    assert_eq!(collect_preoutputs_array::<1>(&[]), Err(SignatureError::InvalidArity));
}

#[test]
fn inputs_are_attached_in_order() {
    let preoutputs = [VrfPreOut(multiple(2)), VrfPreOut(multiple(4))];
    let inputs = [VrfInput(multiple(1)), VrfInput(multiple(3))];
    assert_eq!(attach_inputs_array(&preoutputs, &inputs), Ok([pair(1, 2), pair(3, 4)]));
    assert_eq!(attach_inputs_array::<0>(&[], &[]), Ok([]));
}

#[test]
fn attaching_refuses_unequal_counts() {
    let preoutputs = [VrfPreOut(multiple(2)), VrfPreOut(multiple(4))];
    let inputs = [VrfInput(multiple(1))];
    assert_eq!(attach_inputs_array(&preoutputs, &inputs), Err(SignatureError::InvalidArity));
    assert_eq!(attach_inputs_array(&preoutputs, &[]), Err(SignatureError::InvalidArity));
    assert_eq!(attach_inputs_array::<0>(&[], &inputs), Err(SignatureError::InvalidArity));
    let three = [inputs[0], inputs[0], inputs[0]];
    assert_eq!(attach_inputs_array(&preoutputs, &three), Err(SignatureError::InvalidArity));
}

#[test]
fn delinearizing_draws_one_coefficient_for_each_pair() {
    let base = pair(1, 7);
    let ios = [pair(2, 14), pair(3, 21)];
    let mut t = SigningTranscript::new("protocol");
    let merged = vrfs_delinearize(&mut t, &base, &ios);

    let mut expected = SigningTranscript::new("protocol");
    let c0 = expected.challenge("VrfDelinearize");
    let c1 = expected.challenge("VrfDelinearize");
    let input = multiple(1).add(&multiple(2).mul(&c0)).add(&multiple(3).mul(&c1));
    let preoutput = multiple(7).add(&multiple(14).mul(&c0)).add(&multiple(21).mul(&c1));
    assert_eq!(merged, VrfInOut { input: VrfInput(input), preoutput: VrfPreOut(preoutput) });
    assert_eq!(merged.preoutput.0, merged.input.0.mul(&Scalar::from_u64(7)));
    assert_eq!(t.challenge_bytes("next", 32), expected.challenge_bytes("next", 32));
}

#[test]
fn delinearizing_nothing_returns_the_base() {
    let base = pair(1, 7);
    let mut t = SigningTranscript::new("protocol");
    assert_eq!(vrfs_delinearize(&mut t, &base, &[]), base);
    let mut fresh = SigningTranscript::new("protocol");
    assert_eq!(t.challenge_bytes("next", 32), fresh.challenge_bytes("next", 32));
}
