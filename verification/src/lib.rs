//! Verifiable random functions over the Bandersnatch curve, built from proofs of
//! discrete-log equality: the Thin VRF, a Schnorr-style signature that attests to any number
//! of VRF input/pre-output pairs at once, and the Pedersen VRF, which does the same for a
//! blinded commitment to the signer's key.
//!
//! A signer pairs each [`VrfInput`] with its [`VrfPreOut`], the input multiplied by the
//! secret scalar, and signs the pairs on a [`SigningTranscript`]. All pairs and the key's own
//! pair are first committed to the transcript and then folded into a single pair with
//! coefficients drawn from it, so that one proof over the folded pair attests to all. The
//! verifier replays the same transcript operations from public data alone.
//!
//! # What is proved and what is taken on trust
//!
//! Every function states what it returns and what it does to the transcript, over these
//! models: a scalar is a natural number below the group order, a point is its pair of affine
//! coordinates, and a transcript is the history of operations it has gone through. Curve
//! arithmetic is done by `ark-ec` and the transcript by `merlin`. The group operations, the
//! encoding of points and the output of the transcript are therefore names without a
//! definition here: the small functions that call the two crates, each marked
//! `external_body`, say which name a call computes, and nothing proves that. The
//! statements in [`laws`] that need the points to form a group say so in their premises.

use vstd::prelude::*;
use vstd::utf8::is_ascii_chars_encode_utf8;

pub mod error;
pub mod keys;
pub mod laws;
pub mod pedersen;
pub mod point;
pub mod scalar;
pub mod thin;
pub mod transcript;
pub mod uint;
pub mod vrf;

pub use crate::error::{SignatureError, SignatureResult};
pub use crate::pedersen::{KeyCommitment, PedersenSignature, PedersenVrf, SecretBlinding};
pub use crate::point::Point;
pub use crate::scalar::Scalar;
pub use crate::thin::{ThinSignature, ThinVrf};
pub use crate::transcript::SigningTranscript;
pub use crate::vrf::{VrfInOut, VrfInput, VrfPreOut};

use crate::keys::{secret_from_seed, SecretKeyModel};
use crate::pedersen::{derived_blinding, pedersen_ops, pedersen_signature, pedersen_verifies};
use crate::pedersen::PedersenSignatureModel;
use crate::point::{generator_point, group_mul, seeded_point, Coordinates};
use crate::thin::{thin_ops, thin_signature, thin_verifies, ThinSignatureModel};
use crate::transcript::{challenge_output, initial_ops, TranscriptOp};
use crate::vrf::{
    attach_inputs_array, collect_preoutputs_array, inout_views, input_views, preout_views,
    preoutputs_of, zipped,
};

verus! {

/// A message to evaluate the VRF on, within a domain.
pub struct Message<'a> {
    pub domain: &'a [u8],
    pub message: &'a [u8],
}

/// What a message holds.
pub struct MessageModel {
    pub domain: Seq<u8>,
    pub message: Seq<u8>,
}

impl<'a> View for Message<'a> {
    type V = MessageModel;

    open spec fn view(&self) -> MessageModel {
        MessageModel { domain: self.domain@, message: self.message@ }
    }
}

/// The number of bytes that seed the sampling of an input point.
pub open spec fn input_seed_len() -> nat {
    32
}

/// The point that a message in a domain is mapped to: a point sampled from a generator that
/// is seeded by a transcript over the domain and the message.
pub open spec fn message_input(domain: Seq<u8>, message: Seq<u8>) -> Coordinates {
    seeded_point(
        challenge_output(
            initial_ops("TemporaryDoNotDeploy").push(
                TranscriptOp::Message { label: "domain"@, data: domain },
            ).push(TranscriptOp::Message { label: "message"@, data: message }),
            "vrf-input"@,
            input_seed_len(),
        ),
    )
}

impl<'a> Message<'a> {
    /// Maps the message to the point at which the VRF is evaluated.
    ///
    /// This is a stand-in for a hash to the curve. The point depends on nothing but the
    /// domain and the message, but its discrete logarithm is not hidden from whoever runs
    /// the sampling, so it must not be deployed.
    pub fn into_vrf_input(self) -> (r: VrfInput)
        requires
            self@.domain.len() <= u32::MAX,
            self@.message.len() <= u32::MAX,
        ensures
            r@ == message_input(self@.domain, self@.message),
    {
        proof {
            reveal_strlit("TemporaryDoNotDeploy");
            is_ascii_chars_encode_utf8("TemporaryDoNotDeploy"@);
        }
        let mut t = SigningTranscript::new("TemporaryDoNotDeploy");
        t.append_message("domain", self.domain);
        t.append_message("message", self.message);
        let bytes = t.challenge_bytes("vrf-input", 32);
        let mut seed: [u8; 32] = [0u8; 32];
        let mut i: usize = 0;
        while i < 32
            invariant
                i <= 32,
                bytes@.len() == 32,
                forall|j: int| 0 <= j < i ==> seed@[j] == bytes@[j],
            decreases 32 - i,
        {
            seed[i] = bytes[i];
            i = i + 1;
        }
        assert(seed@ =~= bytes@);
        VrfInput(Point::from_seed(&seed))
    }

    /// Maps the message to the point at which the VRF is evaluated, if the transcript takes
    /// the domain and the message: neither may be longer than `u32::MAX` bytes.
    pub fn try_into_vrf_input(self) -> (r: Result<VrfInput, SignatureError>)
        ensures
            r is Ok <==> self@.domain.len() <= u32::MAX && self@.message.len() <= u32::MAX,
            r is Ok ==> r->Ok_0@ == message_input(self@.domain, self@.message),
            r is Err ==> r->Err_0 == SignatureError::HashToInputFailure,
    {
        if self.domain.len() > u32::MAX as usize || self.message.len() > u32::MAX as usize {
            return Err(SignatureError::HashToInputFailure);
        }
        Ok(self.into_vrf_input())
    }
}

/// The Thin VRF configured by the generator of the prime-order subgroup.
pub fn thin_vrf() -> (r: ThinVrf)
    ensures
        r@.keying_base == generator_point(),
{
    ThinVrf { keying_base: Point::generator() }
}

/// The Pedersen VRF configured by the generator of the prime-order subgroup and by the
/// given blinding base.
pub fn pedersen_vrf(blinding_base: Point) -> (r: PedersenVrf)
    ensures
        r@.keying_base == generator_point(),
        r@.blinding_base == blinding_base@,
{
    PedersenVrf::new(Point::generator(), blinding_base)
}

/// A secret key on the generator of the prime-order subgroup.
pub struct SecretKey(pub keys::SecretKey);

impl Clone for SecretKey {
    fn clone(&self) -> (r: Self)
        ensures
            r@ == self@,
    {
        SecretKey(self.0.clone())
    }
}

impl View for SecretKey {
    type V = SecretKeyModel;

    open spec fn view(&self) -> SecretKeyModel {
        self.0@
    }
}

/// A public key on the generator of the prime-order subgroup.
#[derive(Clone, Copy, Debug, PartialEq, Eq)]
pub struct PublicKey(pub keys::PublicKey);

impl View for PublicKey {
    type V = Coordinates;

    open spec fn view(&self) -> Coordinates {
        self.0@
    }
}

/// A Thin VRF signature over `N` inputs, with the pre-outputs that it attests to.
#[derive(Clone, Copy, Debug, PartialEq, Eq)]
pub struct ThinVrfSignature<const N: usize> {
    pub signature: ThinSignature,
    pub preoutputs: [VrfPreOut; N],
}

/// What a Thin VRF signature over some inputs holds.
pub struct ThinVrfSignatureModel {
    pub signature: ThinSignatureModel,
    pub preoutputs: Seq<Coordinates>,
}

impl<const N: usize> View for ThinVrfSignature<N> {
    type V = ThinVrfSignatureModel;

    open spec fn view(&self) -> ThinVrfSignatureModel {
        ThinVrfSignatureModel {
            signature: self.signature@,
            preoutputs: preout_views(self.preoutputs@),
        }
    }
}

/// A Pedersen VRF signature over `N` inputs, with the pre-outputs that it attests to and
/// room for the proof that its key commitment opens to an authorised key.
#[derive(Clone, Copy, Debug, PartialEq, Eq)]
pub struct RingVrfSignature<const N: usize> {
    pub signature: PedersenSignature,
    pub preoutputs: [VrfPreOut; N],
    pub ring_proof: (),
}

/// What a Pedersen VRF signature over some inputs holds.
pub struct RingVrfSignatureModel {
    pub signature: PedersenSignatureModel,
    pub preoutputs: Seq<Coordinates>,
}

impl<const N: usize> View for RingVrfSignature<N> {
    type V = RingVrfSignatureModel;

    open spec fn view(&self) -> RingVrfSignatureModel {
        RingVrfSignatureModel {
            signature: self.signature@,
            preoutputs: preout_views(self.preoutputs@),
        }
    }
}

impl SecretKey {
    /// Expands a seed of 32 bytes into a secret key.
    pub fn from_seed(seed: [u8; 32]) -> (r: SecretKey)
        ensures
            r@ == secret_from_seed(generator_point(), seed@),
    {
        SecretKey(keys::SecretKey::from_seed(thin_vrf(), seed))
    }

    /// The public key that belongs to this secret key.
    pub fn to_public(&self) -> (r: PublicKey)
        ensures
            r@ == self@.public,
            r@ == group_mul(self@.keying_base, self@.key),
    {
        PublicKey(self.0.to_public())
    }

    /// Signs exactly `N` pairs with a Thin VRF signature. Any other number of pairs is
    /// refused before anything is computed.
    pub fn sign_thin_vrf<const N: usize>(
        &self,
        t: &mut SigningTranscript,
        ios: &[VrfInOut],
        entropy: &[u8; 32],
    ) -> (r: Result<ThinVrfSignature<N>, SignatureError>)
        ensures
            r is Ok <==> ios@.len() == N,
            r is Err ==> r->Err_0 == SignatureError::InvalidArity && final(t)@ == old(t)@,
            r is Ok ==> {
                &&& r->Ok_0@.signature == thin_signature(
                    old(t)@,
                    self@,
                    inout_views(ios@),
                    entropy@,
                )
                &&& r->Ok_0@.preoutputs == preoutputs_of(inout_views(ios@))
                &&& forall|i: int|
                    0 <= i < N ==> #[trigger] r->Ok_0.preoutputs@[i] == ios@[i].preoutput
                &&& final(t)@ == thin_ops(
                    old(t)@,
                    self@.keying_base,
                    self@.public,
                    inout_views(ios@),
                    r->Ok_0@.signature.r,
                )
            },
    {
        let preoutputs = match collect_preoutputs_array::<N>(ios) {
            Ok(preoutputs) => preoutputs,
            Err(e) => {
                return Err(e);
            },
        };
        let signature = self.0.sign_thin_vrf(t, ios, entropy);
        Ok(ThinVrfSignature { signature, preoutputs })
    }

    /// Signs exactly `N` pairs with a Pedersen VRF signature of the given flavor, under a
    /// blinding derived for this signature. Any other number of pairs is refused before
    /// anything is computed.
    pub fn sign_ring_vrf<const N: usize>(
        &self,
        flavor: &PedersenVrf,
        t: &mut SigningTranscript,
        ios: &[VrfInOut],
        entropy: &[u8; 32],
    ) -> (r: Result<RingVrfSignature<N>, SignatureError>)
        ensures
            r is Ok <==> ios@.len() == N,
            r is Err ==> r->Err_0 == SignatureError::InvalidArity && final(t)@ == old(t)@,
            r is Ok ==> {
                &&& r->Ok_0@.signature == pedersen_signature(
                    old(t)@,
                    flavor@,
                    self@,
                    inout_views(ios@),
                    derived_blinding(old(t)@, self@.nonce_seed, entropy@),
                    entropy@,
                )
                &&& r->Ok_0@.preoutputs == preoutputs_of(inout_views(ios@))
                &&& forall|i: int|
                    0 <= i < N ==> #[trigger] r->Ok_0.preoutputs@[i] == ios@[i].preoutput
                &&& final(t)@ == pedersen_ops(
                    old(t)@,
                    flavor@,
                    r->Ok_0@.signature.compk,
                    inout_views(ios@),
                    r->Ok_0@.signature.r,
                )
            },
    {
        let preoutputs = match collect_preoutputs_array::<N>(ios) {
            Ok(preoutputs) => preoutputs,
            Err(e) => {
                return Err(e);
            },
        };
        let (signature, _) = flavor.sign_pedersen_vrf(t, ios, None, &self.0, entropy);
        Ok(RingVrfSignature { signature, preoutputs, ring_proof: () })
    }
}

impl<const N: usize> ThinVrfSignature<N> {
    /// Verifies the signature for the given inputs, paired in order with the pre-outputs
    /// that the signature carries, against `public`. On success it returns the pairs. Any
    /// number of inputs other than `N` is refused before anything is computed.
    pub fn verify_thin_vrf(
        &self,
        t: &mut SigningTranscript,
        inputs: &[VrfInput],
        public: &PublicKey,
    ) -> (r: Result<[VrfInOut; N], SignatureError>)
        ensures
            inputs@.len() != N ==> {
                &&& r is Err
                &&& r->Err_0 == SignatureError::InvalidArity
                &&& final(t)@ == old(t)@
            },
            inputs@.len() == N ==> {
                let ios = zipped(input_views(inputs@), self@.preoutputs);
                &&& r is Ok <==> thin_verifies(
                    old(t)@,
                    generator_point(),
                    public@,
                    ios,
                    self@.signature,
                )
                &&& r is Ok ==> inout_views(r->Ok_0@) == ios
                &&& r is Ok ==> forall|i: int|
                    0 <= i < N ==> #[trigger] r->Ok_0@[i] == (VrfInOut {
                        input: inputs@[i],
                        preoutput: self.preoutputs@[i],
                    })
                &&& r is Err ==> r->Err_0 == SignatureError::Invalid
                &&& final(t)@ == thin_ops(
                    old(t)@,
                    generator_point(),
                    public@,
                    ios,
                    self@.signature.r,
                )
            },
    {
        let ios = match attach_inputs_array(&self.preoutputs, inputs) {
            Ok(ios) => ios,
            Err(e) => {
                return Err(e);
            },
        };
        match thin_vrf().verify_thin_vrf(t, &public.0, ios.as_slice(), &self.signature) {
            Ok(_) => Ok(ios),
            Err(e) => Err(e),
        }
    }
}

impl<const N: usize> RingVrfSignature<N> {
    /// Verifies the signature for the given inputs, paired in order with the pre-outputs
    /// that the signature carries, against the key commitment that it carries. On success
    /// it returns the pairs. Any number of inputs other than `N` is refused before anything
    /// is computed.
    pub fn verify_ring_vrf(
        &self,
        flavor: &PedersenVrf,
        t: &mut SigningTranscript,
        inputs: &[VrfInput],
    ) -> (r: Result<[VrfInOut; N], SignatureError>)
        ensures
            inputs@.len() != N ==> {
                &&& r is Err
                &&& r->Err_0 == SignatureError::InvalidArity
                &&& final(t)@ == old(t)@
            },
            inputs@.len() == N ==> {
                let ios = zipped(input_views(inputs@), self@.preoutputs);
                &&& r is Ok <==> pedersen_verifies(old(t)@, flavor@, ios, self@.signature)
                &&& r is Ok ==> inout_views(r->Ok_0@) == ios
                &&& r is Ok ==> forall|i: int|
                    0 <= i < N ==> #[trigger] r->Ok_0@[i] == (VrfInOut {
                        input: inputs@[i],
                        preoutput: self.preoutputs@[i],
                    })
                &&& r is Err ==> r->Err_0 == SignatureError::Invalid
                &&& final(t)@ == pedersen_ops(
                    old(t)@,
                    flavor@,
                    self@.signature.compk,
                    ios,
                    self@.signature.r,
                )
            },
    {
        let ios = match attach_inputs_array(&self.preoutputs, inputs) {
            Ok(ios) => ios,
            Err(e) => {
                return Err(e);
            },
        };
        match flavor.verify_pedersen_vrf(t, ios.as_slice(), &self.signature) {
            Ok(_) => Ok(ios),
            Err(e) => Err(e),
        }
    }
}

} // verus!
