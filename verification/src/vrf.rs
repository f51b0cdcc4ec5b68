//! VRF inputs, pre-outputs, and the engine that folds many input/pre-output pairs into one.

use vstd::prelude::*;
use vstd::bytes::spec_u64_to_le_bytes;
use crate::error::SignatureError;
use crate::point::{group_add, group_mul, Coordinates, Point};
use crate::transcript::{
    after_challenge, after_point, challenge_scalar, SigningTranscript, TranscriptOp,
};

verus! {

/// The point at which the VRF is evaluated.
#[derive(Clone, Copy, Debug, PartialEq, Eq)]
pub struct VrfInput(pub Point);

/// The VRF's result before it is hashed into output bytes: the input multiplied by the
/// signer's secret scalar.
#[derive(Clone, Copy, Debug, PartialEq, Eq)]
pub struct VrfPreOut(pub Point);

/// An input together with the pre-output claimed for it.
#[derive(Clone, Copy, Debug, PartialEq, Eq)]
pub struct VrfInOut {
    pub input: VrfInput,
    pub preoutput: VrfPreOut,
}

/// The coordinates of an input and of its pre-output.
pub struct InOut {
    pub input: Coordinates,
    pub preoutput: Coordinates,
}

impl View for VrfInput {
    type V = Coordinates;

    open spec fn view(&self) -> Coordinates {
        self.0@
    }
}

impl View for VrfPreOut {
    type V = Coordinates;

    open spec fn view(&self) -> Coordinates {
        self.0@
    }
}

impl View for VrfInOut {
    type V = InOut;

    open spec fn view(&self) -> InOut {
        InOut { input: self.input@, preoutput: self.preoutput@ }
    }
}

/// The views of a sequence of pairs.
pub open spec fn inout_views(ios: Seq<VrfInOut>) -> Seq<InOut> {
    ios.map_values(|io: VrfInOut| io@)
}

/// The views of a sequence of inputs.
pub open spec fn input_views(inputs: Seq<VrfInput>) -> Seq<Coordinates> {
    inputs.map_values(|input: VrfInput| input@)
}

/// The views of a sequence of pre-outputs.
pub open spec fn preout_views(preoutputs: Seq<VrfPreOut>) -> Seq<Coordinates> {
    preoutputs.map_values(|preoutput: VrfPreOut| preoutput@)
}

/// The inputs of a sequence of pairs.
pub open spec fn inputs_of(ios: Seq<InOut>) -> Seq<Coordinates> {
    ios.map_values(|io: InOut| io.input)
}

/// The pre-outputs of a sequence of pairs.
pub open spec fn preoutputs_of(ios: Seq<InOut>) -> Seq<Coordinates> {
    ios.map_values(|io: InOut| io.preoutput)
}

/// The pairs made of the `i`-th input and the `i`-th pre-output.
pub open spec fn zipped(inputs: Seq<Coordinates>, preoutputs: Seq<Coordinates>) -> Seq<InOut> {
    Seq::new(inputs.len(), |i: int| InOut { input: inputs[i], preoutput: preoutputs[i] })
}

/// The history after a pair was appended under `label`: its input, then its pre-output.
pub open spec fn after_inout(
    ops: Seq<TranscriptOp>,
    label: Seq<char>,
    io: InOut,
) -> Seq<TranscriptOp> {
    after_point(after_point(ops, label, io.input), label, io.preoutput)
}

/// The history after the first `n` pairs of `ios` were appended under `label`, in order.
pub open spec fn after_inouts(
    ops: Seq<TranscriptOp>,
    label: Seq<char>,
    ios: Seq<InOut>,
    n: nat,
) -> Seq<TranscriptOp>
    decreases n,
{
    if n == 0 {
        ops
    } else {
        after_inout(after_inouts(ops, label, ios, (n - 1) as nat), label, ios[n - 1])
    }
}

/// The history after `n` challenge scalars were drawn under `label`.
pub open spec fn after_challenges(
    ops: Seq<TranscriptOp>,
    label: Seq<char>,
    n: nat,
) -> Seq<TranscriptOp>
    decreases n,
{
    if n == 0 {
        ops
    } else {
        after_challenge(after_challenges(ops, label, (n - 1) as nat), label)
    }
}

/// The label under which the coefficients of the linear combination are drawn.
pub open spec fn delinearize_label() -> Seq<char> {
    "VrfDelinearize"@
}

/// The coefficient of the `i`-th pair: the `i`-th challenge drawn from a transcript whose
/// history was `ops` when the first one was drawn.
pub open spec fn delinearize_coefficient(ops: Seq<TranscriptOp>, i: nat) -> nat {
    challenge_scalar(after_challenges(ops, delinearize_label(), i), delinearize_label())
}

/// The pair `base` plus the first `n` pairs of `ios`, each multiplied by its coefficient.
pub open spec fn delinearized(ops: Seq<TranscriptOp>, base: InOut, ios: Seq<InOut>, n: nat) -> InOut
    decreases n,
{
    if n == 0 {
        base
    } else {
        let sum = delinearized(ops, base, ios, (n - 1) as nat);
        let c = delinearize_coefficient(ops, (n - 1) as nat);
        InOut {
            input: group_add(sum.input, group_mul(ios[n - 1].input, c)),
            preoutput: group_add(sum.preoutput, group_mul(ios[n - 1].preoutput, c)),
        }
    }
}

/// The history after the key's pair and, if there are any, the count and the pairs of `ios`
/// were committed to a transcript with the history `ops`.
pub open spec fn merge_commitment(
    ops: Seq<TranscriptOp>,
    key: InOut,
    ios: Seq<InOut>,
) -> Seq<TranscriptOp> {
    let with_key = after_inout(ops, "PublicKey"@, key);
    if ios.len() == 0 {
        with_key
    } else {
        after_inouts(
            with_key.push(
                TranscriptOp::Message {
                    label: "IOs"@,
                    data: spec_u64_to_le_bytes(ios.len() as u64),
                },
            ),
            "VrfInOut"@,
            ios,
            ios.len(),
        )
    }
}

/// The history that merging leaves behind: the commitment, then one challenge for each pair.
pub open spec fn merged_ops(
    ops: Seq<TranscriptOp>,
    key: InOut,
    ios: Seq<InOut>,
) -> Seq<TranscriptOp> {
    after_challenges(merge_commitment(ops, key, ios), delinearize_label(), ios.len())
}

/// The single pair that stands for the key's pair and all of `ios`: the key's pair with
/// coefficient one, plus each pair of `ios` multiplied by a coefficient that is drawn only
/// after every pair was committed.
pub open spec fn merged_inout(ops: Seq<TranscriptOp>, key: InOut, ios: Seq<InOut>) -> InOut {
    delinearized(merge_commitment(ops, key, ios), key, ios, ios.len())
}

impl VrfInOut {
    /// Appends the pair to the transcript under `label`.
    pub fn append_to(&self, t: &mut SigningTranscript, label: &'static str)
        ensures
            final(t)@ == after_inout(old(t)@, label@, self@),
    {
        t.append_point(label, &self.input.0);
        t.append_point(label, &self.preoutput.0);
    }
}

/// Folds `ios` onto `base` with coefficients drawn from the transcript, one for each pair.
pub fn vrfs_delinearize(
    t: &mut SigningTranscript,
    base: &VrfInOut,
    ios: &[VrfInOut],
) -> (r: VrfInOut)
    ensures
        r@ == delinearized(old(t)@, base@, inout_views(ios@), ios@.len()),
        final(t)@ == after_challenges(old(t)@, delinearize_label(), ios@.len()),
{
    let mut input = base.input.0;
    let mut preoutput = base.preoutput.0;
    let mut i: usize = 0;
    while i < ios.len()
        invariant
            i <= ios@.len(),
            t@ == after_challenges(old(t)@, delinearize_label(), i as nat),
            (InOut { input: input@, preoutput: preoutput@ }) == delinearized(
                old(t)@,
                base@,
                inout_views(ios@),
                i as nat,
            ),
        decreases ios@.len() - i,
    {
        let c = t.challenge("VrfDelinearize");
        input = input.add(&ios[i].input.0.mul(&c));
        preoutput = preoutput.add(&ios[i].preoutput.0.mul(&c));
        i = i + 1;
    }
    VrfInOut { input: VrfInput(input), preoutput: VrfPreOut(preoutput) }
}

/// The combination engine: commits the key's pair and all of `ios` to the transcript, then
/// folds them into one pair. With no pairs it returns the key's pair as it is.
pub fn vrfs_merge(t: &mut SigningTranscript, key: &VrfInOut, ios: &[VrfInOut]) -> (r: VrfInOut)
    ensures
        r@ == merged_inout(old(t)@, key@, inout_views(ios@)),
        final(t)@ == merged_ops(old(t)@, key@, inout_views(ios@)),
{
    key.append_to(t, "PublicKey");
    if ios.len() == 0 {
        return *key;
    }
    t.append_u64("IOs", ios.len() as u64);
    let ghost start = t@;
    let mut i: usize = 0;
    while i < ios.len()
        invariant
            i <= ios@.len(),
            t@ == after_inouts(start, "VrfInOut"@, inout_views(ios@), i as nat),
        decreases ios@.len() - i,
    {
        ios[i].append_to(t, "VrfInOut");
        i = i + 1;
    }
    vrfs_delinearize(t, key, ios)
}

/// The pre-outputs of exactly `N` pairs, in order.
pub fn collect_preoutputs_array<const N: usize>(
    ios: &[VrfInOut],
) -> (r: Result<[VrfPreOut; N], SignatureError>)
    ensures
        r is Ok <==> ios@.len() == N,
        r is Err ==> r->Err_0 == SignatureError::InvalidArity,
        r is Ok ==> {
            &&& forall|i: int| 0 <= i < N ==> #[trigger] r->Ok_0@[i] == ios@[i].preoutput
            &&& preout_views(r->Ok_0@) == preoutputs_of(inout_views(ios@))
        },
{
    if ios.len() != N {
        return Err(SignatureError::InvalidArity);
    }
    // every place is overwritten below
    let mut out: [VrfPreOut; N] = [VrfPreOut(Point::generator()); N];
    let mut i: usize = 0;
    while i < N
        invariant
            i <= N,
            ios@.len() == N,
            forall|j: int| 0 <= j < i ==> #[trigger] out@[j] == ios@[j].preoutput,
        decreases N - i,
    {
        out[i] = ios[i].preoutput;
        i = i + 1;
    }
    assert(preout_views(out@) =~= preoutputs_of(inout_views(ios@)));
    Ok(out)
}

/// Pairs each of the `N` published pre-outputs with the input at the same place. There must
/// be exactly `N` inputs.
pub fn attach_inputs_array<const N: usize>(
    preoutputs: &[VrfPreOut; N],
    inputs: &[VrfInput],
) -> (r: Result<[VrfInOut; N], SignatureError>)
    ensures
        r is Ok <==> inputs@.len() == N,
        r is Err ==> r->Err_0 == SignatureError::InvalidArity,
        r is Ok ==> {
            &&& forall|i: int|
                0 <= i < N ==> #[trigger] r->Ok_0@[i] == (VrfInOut {
                    input: inputs@[i],
                    preoutput: preoutputs@[i],
                })
            &&& inout_views(r->Ok_0@) == zipped(input_views(inputs@), preout_views(preoutputs@))
        },
{
    if inputs.len() != N {
        return Err(SignatureError::InvalidArity);
    }
    // every place is overwritten below
    let filler = VrfInOut {
        input: VrfInput(Point::generator()),
        preoutput: VrfPreOut(Point::generator()),
    };
    let mut out: [VrfInOut; N] = [filler; N];
    let mut i: usize = 0;
    while i < N
        invariant
            i <= N,
            inputs@.len() == N,
            forall|j: int|
                0 <= j < i ==> #[trigger] out@[j] == (VrfInOut {
                    input: inputs@[j],
                    preoutput: preoutputs@[j],
                }),
        decreases N - i,
    {
        out[i] = VrfInOut { input: inputs[i], preoutput: preoutputs[i] };
        i = i + 1;
    }
    assert(inout_views(out@) =~= zipped(input_views(inputs@), preout_views(preoutputs@)));
    Ok(out)
}

} // verus!
