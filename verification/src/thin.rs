//! The Thin VRF: a Schnorr-style proof of discrete-log equality over the merged pair.

use vstd::prelude::*;
use crate::error::SignatureError;
use crate::keys::{PublicKey, SecretKey, SecretKeyModel};
use crate::point::{equal_mod_cofactor, group_add, group_mul, Coordinates, Point};
use crate::scalar::{group_order, Scalar};
use crate::transcript::{
    after_challenge, after_point, challenge_scalar, witness_scalar, SigningTranscript,
    TranscriptOp,
};
use crate::vrf::{
    inout_views, merged_inout, merged_ops, vrfs_merge, InOut, VrfInOut, VrfInput, VrfPreOut,
};

verus! {

/// The Thin VRF flavor, configured by the base point on which keys are built.
#[derive(Clone, Copy, Debug, PartialEq, Eq)]
pub struct ThinVrf {
    pub keying_base: Point,
}

/// The base point of a Thin VRF flavor.
pub struct ThinVrfModel {
    pub keying_base: Coordinates,
}

impl View for ThinVrf {
    type V = ThinVrfModel;

    open spec fn view(&self) -> ThinVrfModel {
        ThinVrfModel { keying_base: self.keying_base@ }
    }
}

/// A signer's nonce for one signature: a scalar and its commitment.
pub struct Witness {
    pub(crate) r: Point,
    pub(crate) k: Scalar,
}

/// What a witness holds.
pub struct WitnessModel {
    /// The commitment to the nonce.
    pub r: Coordinates,
    /// The nonce.
    pub k: nat,
}

impl View for Witness {
    type V = WitnessModel;

    closed spec fn view(&self) -> WitnessModel {
        WitnessModel { r: self.r@, k: self.k@ }
    }
}

/// A Thin VRF signature. It carries no key commitment: the proof speaks of the public key
/// itself.
#[derive(Clone, Copy, Debug, PartialEq, Eq)]
pub struct ThinSignature {
    /// The commitment to the signer's nonce.
    pub r: Point,
    /// The response to the challenge.
    pub s: Scalar,
}

/// What a Thin VRF signature holds.
pub struct ThinSignatureModel {
    pub r: Coordinates,
    pub s: nat,
}

impl View for ThinSignature {
    type V = ThinSignatureModel;

    open spec fn view(&self) -> ThinSignatureModel {
        ThinSignatureModel { r: self.r@, s: self.s@ }
    }
}

/// The pair that stands for a key: the keying base as input, the public key as pre-output.
pub open spec fn schnorr_inout(keying_base: Coordinates, public: Coordinates) -> InOut {
    InOut { input: keying_base, preoutput: public }
}

/// The nonce that a signer with the seed `nonce_seed` derives from a transcript with the
/// history `ops` and the randomness `entropy`.
pub open spec fn thin_witness_scalar(
    ops: Seq<TranscriptOp>,
    nonce_seed: Seq<u8>,
    entropy: Seq<u8>,
) -> nat {
    witness_scalar(ops, "MakeWitness"@, nonce_seed, entropy, 1, 0)
}

/// The history after the commitment `r` was appended and the challenge drawn.
pub open spec fn thin_final_ops(ops: Seq<TranscriptOp>, r: Coordinates) -> Seq<TranscriptOp> {
    after_challenge(after_point(ops, "Witness"@, r), "ThinVrfChallenge"@)
}

/// The challenge that follows the commitment `r` on a transcript with the history `ops`.
pub open spec fn thin_challenge(ops: Seq<TranscriptOp>, r: Coordinates) -> nat {
    challenge_scalar(after_point(ops, "Witness"@, r), "ThinVrfChallenge"@)
}

/// The response `k + c * key` in the scalar field.
pub open spec fn schnorr_response(k: nat, c: nat, key: nat) -> nat {
    (k + c * key) % group_order()
}

/// The signature that the holder of `secret` makes over `ios` on a transcript with the
/// history `ops`, with the randomness `entropy`.
pub open spec fn thin_signature(
    ops: Seq<TranscriptOp>,
    secret: SecretKeyModel,
    ios: Seq<InOut>,
    entropy: Seq<u8>,
) -> ThinSignatureModel {
    let key_io = schnorr_inout(secret.keying_base, secret.public);
    let merged = merged_inout(ops, key_io, ios);
    let ops = merged_ops(ops, key_io, ios);
    let k = thin_witness_scalar(ops, secret.nonce_seed, entropy);
    let r = group_mul(merged.input, k);
    ThinSignatureModel { r, s: schnorr_response(k, thin_challenge(ops, r), secret.key) }
}

/// The history that signing or verifying leaves behind, where `r` is the signature's
/// commitment.
pub open spec fn thin_ops(
    ops: Seq<TranscriptOp>,
    keying_base: Coordinates,
    public: Coordinates,
    ios: Seq<InOut>,
    r: Coordinates,
) -> Seq<TranscriptOp> {
    thin_final_ops(merged_ops(ops, schnorr_inout(keying_base, public), ios), r)
}

/// Whether `signature` is accepted for the public key `public` and the pairs `ios` on a
/// transcript with the history `ops`: with the merged pair `(input, preoutput)` and the
/// challenge `c`, whether `s * input` equals `r + c * preoutput` up to the cofactor.
pub open spec fn thin_verifies(
    ops: Seq<TranscriptOp>,
    keying_base: Coordinates,
    public: Coordinates,
    ios: Seq<InOut>,
    signature: ThinSignatureModel,
) -> bool {
    let key_io = schnorr_inout(keying_base, public);
    let merged = merged_inout(ops, key_io, ios);
    let c = thin_challenge(merged_ops(ops, key_io, ios), signature.r);
    equal_mod_cofactor(
        group_mul(merged.input, signature.s),
        group_add(signature.r, group_mul(merged.preoutput, c)),
    )
}

/// Reducing the product before the sum is added changes nothing.
pub proof fn lemma_schnorr_response(k: nat, c: nat, key: nat)
    ensures
        (k + (c * key) % group_order()) % group_order() == schnorr_response(k, c, key),
{
}

/// Answers the challenge `c` for the secret `key` with the nonce `k`.
pub fn schnorr_respond(k: &Scalar, c: &Scalar, key: &Scalar) -> (s: Scalar)
    ensures
        s@ == schnorr_response(k@, c@, key@),
{
    k.add(&c.mul(key))
}

impl ThinVrf {
    /// The base point on which keys are built.
    pub fn keying_base(&self) -> (r: &Point)
        ensures
            *r == self.keying_base,
    {
        &self.keying_base
    }

    /// Attaches a public key to its base point.
    pub fn schnorr_io(&self, public: &PublicKey) -> (r: VrfInOut)
        ensures
            r@ == schnorr_inout(self@.keying_base, public@),
    {
        VrfInOut { input: VrfInput(self.keying_base), preoutput: VrfPreOut(public.0) }
    }

    /// Merges `ios` and the pair that stands for the public key into one pair.
    pub fn thin_vrf_merge(
        &self,
        t: &mut SigningTranscript,
        public: &PublicKey,
        ios: &[VrfInOut],
    ) -> (r: VrfInOut)
        ensures
            r@ == merged_inout(
                old(t)@,
                schnorr_inout(self@.keying_base, public@),
                inout_views(ios@),
            ),
            final(t)@ == merged_ops(
                old(t)@,
                schnorr_inout(self@.keying_base, public@),
                inout_views(ios@),
            ),
    {
        let io = self.schnorr_io(public);
        vrfs_merge(t, &io, ios)
    }

    /// Verifies a Thin VRF signature over `ios` against `public`. The transcript must have
    /// the history that the signer's had. With no pairs this verifies a Schnorr signature.
    pub fn verify_thin_vrf<'a>(
        &self,
        t: &mut SigningTranscript,
        public: &PublicKey,
        ios: &'a [VrfInOut],
        signature: &ThinSignature,
    ) -> (r: Result<&'a [VrfInOut], SignatureError>)
        ensures
            r is Ok <==> thin_verifies(
                old(t)@,
                self@.keying_base,
                public@,
                inout_views(ios@),
                signature@,
            ),
            r is Ok ==> r->Ok_0@ == ios@,
            r is Err ==> r->Err_0 == SignatureError::Invalid,
            final(t)@ == thin_ops(
                old(t)@,
                self@.keying_base,
                public@,
                inout_views(ios@),
                signature.r@,
            ),
    {
        let io = self.thin_vrf_merge(t, public, ios);
        t.append_point("Witness", &signature.r);
        let c = t.challenge("ThinVrfChallenge");
        let lhs = io.input.0.mul(&signature.s);
        let rhs = signature.r.add(&io.preoutput.0.mul(&c));
        if lhs.eq_mod_small_cofactor(&rhs) {
            Ok(ios)
        } else {
            Err(SignatureError::Invalid)
        }
    }
}

impl SecretKey {
    /// Derives the nonce for one signature and commits to it on `input`. The nonce depends
    /// on the transcript, on the key's seed and on `entropy`.
    pub fn new_thin_witness(
        &self,
        t: &SigningTranscript,
        input: &VrfInput,
        entropy: &[u8; 32],
    ) -> (r: Witness)
        ensures
            r@.k == thin_witness_scalar(t@, self@.nonce_seed, entropy@),
            r@.r == group_mul(input@, r@.k),
    {
        let ks = t.witnesses("MakeWitness", self.nonce_seed(), entropy, 1);
        let k = ks[0];
        let r = input.0.mul(&k);
        Witness { r, k }
    }

    /// Signs `ios` with a Thin VRF signature. With no pairs this is a Schnorr signature.
    pub fn sign_thin_vrf(
        &self,
        t: &mut SigningTranscript,
        ios: &[VrfInOut],
        entropy: &[u8; 32],
    ) -> (r: ThinSignature)
        ensures
            r@ == thin_signature(old(t)@, self@, inout_views(ios@), entropy@),
            final(t)@ == thin_ops(
                old(t)@,
                self@.keying_base,
                self@.public,
                inout_views(ios@),
                r@.r,
            ),
    {
        let io = self.flavor().thin_vrf_merge(t, self.as_publickey(), ios);
        let w = self.new_thin_witness(t, &io.input, entropy);
        w.sign_final(t, self)
    }
}

impl Witness {
    /// Completes the signature: appends the commitment, draws the challenge, and answers it.
    /// The key's pair and the pairs to sign must be in the transcript already.
    pub fn sign_final(self, t: &mut SigningTranscript, secret: &SecretKey) -> (r: ThinSignature)
        ensures
            r@ == (ThinSignatureModel {
                r: self@.r,
                s: schnorr_response(self@.k, thin_challenge(old(t)@, self@.r), secret@.key),
            }),
            final(t)@ == thin_final_ops(old(t)@, self@.r),
    {
        let Witness { r, k } = self;
        t.append_point("Witness", &r);
        let c = t.challenge("ThinVrfChallenge");
        let s = schnorr_respond(&k, &c, secret.key());
        ThinSignature { r, s }
    }
}

} // verus!
