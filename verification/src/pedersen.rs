//! The Pedersen VRF: the proof speaks of a blinded commitment to the public key in place of
//! the key itself.

use vstd::prelude::*;
use crate::error::SignatureError;
use crate::keys::{PublicKey, SecretKey, SecretKeyModel};
use crate::point::{equal_mod_cofactor, group_add, group_mul, Coordinates, Point};
use crate::scalar::Scalar;
use crate::thin::{schnorr_inout, schnorr_respond, schnorr_response};
use crate::transcript::{
    after_challenge, after_point, challenge_scalar, witness_scalar, SigningTranscript,
    TranscriptOp,
};
use crate::vrf::{
    inout_views, merged_inout, merged_ops, vrfs_merge, InOut, VrfInOut, VrfInput, VrfPreOut,
};

verus! {

/// The Pedersen VRF flavor, configured by the base point on which keys are built and by a
/// second, independent base point for blinding.
#[derive(Clone, Copy, Debug, PartialEq, Eq)]
pub struct PedersenVrf {
    pub keying_base: Point,
    pub blinding_base: Point,
}

/// The two base points of a Pedersen VRF flavor.
pub struct PedersenVrfModel {
    pub keying_base: Coordinates,
    pub blinding_base: Coordinates,
}

impl View for PedersenVrf {
    type V = PedersenVrfModel;

    open spec fn view(&self) -> PedersenVrfModel {
        PedersenVrfModel { keying_base: self.keying_base@, blinding_base: self.blinding_base@ }
    }
}

/// A blinded commitment to a public key: the key plus a secret multiple of the blinding base.
#[derive(Clone, Copy, Debug, PartialEq, Eq)]
pub struct KeyCommitment(pub Point);

impl View for KeyCommitment {
    type V = Coordinates;

    open spec fn view(&self) -> Coordinates {
        self.0@
    }
}

/// The scalar that blinds a key commitment. Whoever proves that the commitment opens to an
/// authorised key needs it; a verifier of the signature never sees it.
#[derive(Clone, Copy)]
pub struct SecretBlinding(pub Scalar);

impl View for SecretBlinding {
    type V = nat;

    open spec fn view(&self) -> nat {
        self.0@
    }
}

/// A signer's nonces for one signature, and the commitment to them.
pub struct PedersenWitness {
    r: Point,
    k: Scalar,
    k_blinding: Scalar,
}

/// What a Pedersen witness holds.
pub struct PedersenWitnessModel {
    /// The commitment to both nonces.
    pub r: Coordinates,
    /// The nonce that hides the key.
    pub k: nat,
    /// The nonce that hides the blinding.
    pub k_blinding: nat,
}

impl View for PedersenWitness {
    type V = PedersenWitnessModel;

    closed spec fn view(&self) -> PedersenWitnessModel {
        PedersenWitnessModel { r: self.r@, k: self.k@, k_blinding: self.k_blinding@ }
    }
}

/// A Pedersen VRF signature.
#[derive(Clone, Copy, Debug, PartialEq, Eq)]
pub struct PedersenSignature {
    /// The blinded commitment to the signer's public key.
    pub compk: KeyCommitment,
    /// The commitment to the signer's nonces.
    pub r: Point,
    /// The response that answers for the key.
    pub s: Scalar,
    /// The response that answers for the blinding.
    pub s_blinding: Scalar,
}

/// What a Pedersen VRF signature holds.
pub struct PedersenSignatureModel {
    pub compk: Coordinates,
    pub r: Coordinates,
    pub s: nat,
    pub s_blinding: nat,
}

impl View for PedersenSignature {
    type V = PedersenSignatureModel;

    open spec fn view(&self) -> PedersenSignatureModel {
        PedersenSignatureModel {
            compk: self.compk@,
            r: self.r@,
            s: self.s@,
            s_blinding: self.s_blinding@,
        }
    }
}

/// The commitment to `public` that the scalar `blinding` blinds.
pub open spec fn blinded_key(
    flavor: PedersenVrfModel,
    public: Coordinates,
    blinding: nat,
) -> Coordinates {
    group_add(public, group_mul(flavor.blinding_base, blinding))
}

/// The blinding that a signer with the seed `nonce_seed` derives from a transcript with the
/// history `ops` and the randomness `entropy`.
pub open spec fn derived_blinding(
    ops: Seq<TranscriptOp>,
    nonce_seed: Seq<u8>,
    entropy: Seq<u8>,
) -> nat {
    witness_scalar(ops, "SecretBlinding"@, nonce_seed, entropy, 1, 0)
}

/// The nonce that hides the key (`i` is 0) or the blinding (`i` is 1).
pub open spec fn pedersen_witness_scalar(
    ops: Seq<TranscriptOp>,
    nonce_seed: Seq<u8>,
    entropy: Seq<u8>,
    i: nat,
) -> nat {
    witness_scalar(ops, "MakeWitness"@, nonce_seed, entropy, 2, i)
}

/// The commitment to the nonces `k` and `k_blinding` on the merged input `input`.
pub open spec fn pedersen_commitment(
    flavor: PedersenVrfModel,
    input: Coordinates,
    k: nat,
    k_blinding: nat,
) -> Coordinates {
    group_add(group_mul(input, k), group_mul(flavor.blinding_base, k_blinding))
}

/// The history after the commitment `r` was appended and the challenge drawn.
pub open spec fn pedersen_final_ops(ops: Seq<TranscriptOp>, r: Coordinates) -> Seq<TranscriptOp> {
    after_challenge(after_point(ops, "Witness"@, r), "PedersenVrfChallenge"@)
}

/// The challenge that follows the commitment `r` on a transcript with the history `ops`.
pub open spec fn pedersen_challenge(ops: Seq<TranscriptOp>, r: Coordinates) -> nat {
    challenge_scalar(after_point(ops, "Witness"@, r), "PedersenVrfChallenge"@)
}

/// The signature that the holder of `secret` makes over `ios` with the blinding `blinding`,
/// on a transcript with the history `ops` and with the randomness `entropy`.
pub open spec fn pedersen_signature(
    ops: Seq<TranscriptOp>,
    flavor: PedersenVrfModel,
    secret: SecretKeyModel,
    ios: Seq<InOut>,
    blinding: nat,
    entropy: Seq<u8>,
) -> PedersenSignatureModel {
    let compk = blinded_key(flavor, secret.public, blinding);
    let key_io = schnorr_inout(flavor.keying_base, compk);
    let merged = merged_inout(ops, key_io, ios);
    let ops = merged_ops(ops, key_io, ios);
    let k = pedersen_witness_scalar(ops, secret.nonce_seed, entropy, 0);
    let k_blinding = pedersen_witness_scalar(ops, secret.nonce_seed, entropy, 1);
    let r = pedersen_commitment(flavor, merged.input, k, k_blinding);
    let c = pedersen_challenge(ops, r);
    PedersenSignatureModel {
        compk,
        r,
        s: schnorr_response(k, c, secret.key),
        s_blinding: schnorr_response(k_blinding, c, blinding),
    }
}

/// The history that signing or verifying leaves behind, where `compk` is the signature's
/// key commitment and `r` its commitment to the nonces.
pub open spec fn pedersen_ops(
    ops: Seq<TranscriptOp>,
    flavor: PedersenVrfModel,
    compk: Coordinates,
    ios: Seq<InOut>,
    r: Coordinates,
) -> Seq<TranscriptOp> {
    pedersen_final_ops(merged_ops(ops, schnorr_inout(flavor.keying_base, compk), ios), r)
}

/// Whether `signature` is accepted for the pairs `ios` on a transcript with the history
/// `ops`: with the merged pair `(input, preoutput)`, in which the key commitment stands for
/// the public key, and the challenge `c`, whether `s * input + s_blinding * blinding_base`
/// equals `r + c * preoutput` up to the cofactor.
pub open spec fn pedersen_verifies(
    ops: Seq<TranscriptOp>,
    flavor: PedersenVrfModel,
    ios: Seq<InOut>,
    signature: PedersenSignatureModel,
) -> bool {
    let key_io = schnorr_inout(flavor.keying_base, signature.compk);
    let merged = merged_inout(ops, key_io, ios);
    let c = pedersen_challenge(merged_ops(ops, key_io, ios), signature.r);
    equal_mod_cofactor(
        pedersen_commitment(flavor, merged.input, signature.s, signature.s_blinding),
        group_add(signature.r, group_mul(merged.preoutput, c)),
    )
}

impl PedersenVrf {
    /// The flavor with the given base points.
    pub fn new(keying_base: Point, blinding_base: Point) -> (r: PedersenVrf)
        ensures
            r@ == (PedersenVrfModel { keying_base: keying_base@, blinding_base: blinding_base@ }),
    {
        PedersenVrf { keying_base, blinding_base }
    }

    /// The base point on which keys are built.
    pub fn keying_base(&self) -> (r: &Point)
        ensures
            *r == self.keying_base,
    {
        &self.keying_base
    }

    /// Blinds a public key: adds the blinding base multiplied by `secret_blinding` to it.
    pub fn compute_blinded_publickey(
        &self,
        public: &PublicKey,
        secret_blinding: &SecretBlinding,
    ) -> (r: KeyCommitment)
        ensures
            r@ == blinded_key(self@, public@, secret_blinding@),
    {
        KeyCommitment(public.0.add(&self.blinding_base.mul(&secret_blinding.0)))
    }

    /// Derives a blinding from the transcript, the key's seed and `entropy`.
    pub fn new_secret_blinding(
        &self,
        t: &SigningTranscript,
        secret: &SecretKey,
        entropy: &[u8; 32],
    ) -> (r: SecretBlinding)
        ensures
            r@ == derived_blinding(t@, secret@.nonce_seed, entropy@),
    {
        let bs = t.witnesses("SecretBlinding", secret.nonce_seed(), entropy, 1);
        SecretBlinding(bs[0])
    }

    /// Merges `ios` and the pair that stands for the key commitment into one pair.
    pub fn pedersen_vrf_merge(
        &self,
        t: &mut SigningTranscript,
        compk: &KeyCommitment,
        ios: &[VrfInOut],
    ) -> (r: VrfInOut)
        ensures
            r@ == merged_inout(
                old(t)@,
                schnorr_inout(self@.keying_base, compk@),
                inout_views(ios@),
            ),
            final(t)@ == merged_ops(
                old(t)@,
                schnorr_inout(self@.keying_base, compk@),
                inout_views(ios@),
            ),
    {
        let io = VrfInOut { input: VrfInput(self.keying_base), preoutput: VrfPreOut(compk.0) };
        vrfs_merge(t, &io, ios)
    }

    /// Derives the two nonces for one signature and commits to them.
    pub fn new_pedersen_witness(
        &self,
        t: &SigningTranscript,
        input: &VrfInput,
        secret: &SecretKey,
        entropy: &[u8; 32],
    ) -> (r: PedersenWitness)
        ensures
            r@.k == pedersen_witness_scalar(t@, secret@.nonce_seed, entropy@, 0),
            r@.k_blinding == pedersen_witness_scalar(t@, secret@.nonce_seed, entropy@, 1),
            r@.r == pedersen_commitment(self@, input@, r@.k, r@.k_blinding),
    {
        let ks = t.witnesses("MakeWitness", secret.nonce_seed(), entropy, 2);
        let k = ks[0];
        let k_blinding = ks[1];
        let r = input.0.mul(&k).add(&self.blinding_base.mul(&k_blinding));
        PedersenWitness { r, k, k_blinding }
    }

    /// Signs `ios` with a Pedersen VRF signature. The public key is blinded with
    /// `secret_blinding`, or with a blinding derived for this signature if none is given.
    /// The blinding is returned beside the signature, for the prover of key membership.
    pub fn sign_pedersen_vrf(
        &self,
        t: &mut SigningTranscript,
        ios: &[VrfInOut],
        secret_blinding: Option<SecretBlinding>,
        secret: &SecretKey,
        entropy: &[u8; 32],
    ) -> (r: (PedersenSignature, SecretBlinding))
        ensures
            r.1@ == match secret_blinding {
                Some(b) => b@,
                None => derived_blinding(old(t)@, secret@.nonce_seed, entropy@),
            },
            r.0@ == pedersen_signature(
                old(t)@,
                self@,
                secret@,
                inout_views(ios@),
                r.1@,
                entropy@,
            ),
            final(t)@ == pedersen_ops(old(t)@, self@, r.0@.compk, inout_views(ios@), r.0@.r),
    {
        let secret_blinding = match secret_blinding {
            Some(b) => b,
            None => self.new_secret_blinding(t, secret, entropy),
        };
        let compk = self.compute_blinded_publickey(secret.as_publickey(), &secret_blinding);
        let io = self.pedersen_vrf_merge(t, &compk, ios);
        let w = self.new_pedersen_witness(t, &io.input, secret, entropy);
        let signature = w.sign_final(t, &secret_blinding, secret, compk);
        (signature, secret_blinding)
    }

    /// Verifies a Pedersen VRF signature over `ios` against the key commitment that it
    /// carries. Whether that commitment opens to an authorised key is not decided here.
    pub fn verify_pedersen_vrf<'a>(
        &self,
        t: &mut SigningTranscript,
        ios: &'a [VrfInOut],
        signature: &PedersenSignature,
    ) -> (r: Result<&'a [VrfInOut], SignatureError>)
        ensures
            r is Ok <==> pedersen_verifies(old(t)@, self@, inout_views(ios@), signature@),
            r is Ok ==> r->Ok_0@ == ios@,
            r is Err ==> r->Err_0 == SignatureError::Invalid,
            final(t)@ == pedersen_ops(
                old(t)@,
                self@,
                signature@.compk,
                inout_views(ios@),
                signature@.r,
            ),
    {
        let io = self.pedersen_vrf_merge(t, &signature.compk, ios);
        t.append_point("Witness", &signature.r);
        let c = t.challenge("PedersenVrfChallenge");
        let lhs = io.input.0.mul(&signature.s).add(&self.blinding_base.mul(&signature.s_blinding));
        let rhs = signature.r.add(&io.preoutput.0.mul(&c));
        if lhs.eq_mod_small_cofactor(&rhs) {
            Ok(ios)
        } else {
            Err(SignatureError::Invalid)
        }
    }
}

impl PedersenSignature {
    /// The key commitment that the signature was made for, on which the proof of key
    /// membership is built.
    pub fn as_key_commitment(&self) -> (r: &KeyCommitment)
        ensures
            *r == self.compk,
    {
        &self.compk
    }
}

impl PedersenWitness {
    /// Completes the signature: appends the commitment, draws the challenge, and answers it
    /// for the key and for the blinding. The key commitment's pair and the pairs to sign
    /// must be in the transcript already.
    pub fn sign_final(
        self,
        t: &mut SigningTranscript,
        secret_blinding: &SecretBlinding,
        secret: &SecretKey,
        compk: KeyCommitment,
    ) -> (r: PedersenSignature)
        ensures
            r@ == (PedersenSignatureModel {
                compk: compk@,
                r: self@.r,
                s: schnorr_response(self@.k, pedersen_challenge(old(t)@, self@.r), secret@.key),
                s_blinding: schnorr_response(
                    self@.k_blinding,
                    pedersen_challenge(old(t)@, self@.r),
                    secret_blinding@,
                ),
            }),
            final(t)@ == pedersen_final_ops(old(t)@, self@.r),
    {
        let PedersenWitness { r, k, k_blinding } = self;
        t.append_point("Witness", &r);
        let c = t.challenge("PedersenVrfChallenge");
        let s = schnorr_respond(&k, &c, secret.key());
        let s_blinding = schnorr_respond(&k_blinding, &c, &secret_blinding.0);
        PedersenSignature { compk, r, s, s_blinding }
    }
}

} // verus!
