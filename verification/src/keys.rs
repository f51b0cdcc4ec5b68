//! Secret and public keys.

use vstd::prelude::*;
use vstd::utf8::is_ascii_chars_encode_utf8;
use crate::point::{group_mul, valid_point, Coordinates, Point};
use crate::scalar::{group_order, Scalar};
use crate::thin::ThinVrf;
use crate::transcript::{
    after_challenge, challenge_output, challenge_scalar, initial_ops, SigningTranscript,
    TranscriptOp,
};
use crate::vrf::{VrfInOut, VrfInput, VrfPreOut};

verus! {

/// A public key: the keying base multiplied by the secret scalar.
#[derive(Clone, Copy, Debug, PartialEq, Eq)]
pub struct PublicKey(pub Point);

impl View for PublicKey {
    type V = Coordinates;

    open spec fn view(&self) -> Coordinates {
        self.0@
    }
}

/// What a secret key holds.
pub struct SecretKeyModel {
    /// The base point on which the key is built.
    pub keying_base: Coordinates,
    /// The secret scalar.
    pub key: nat,
    /// The seed from which witnesses are derived.
    pub nonce_seed: Seq<u8>,
    /// The public key.
    pub public: Coordinates,
}

/// A secret key: a scalar, a seed for witnesses, and the public key that belongs to them.
pub struct SecretKey {
    flavor: ThinVrf,
    key: Scalar,
    nonce_seed: Vec<u8>,
    public: PublicKey,
}

impl View for SecretKey {
    type V = SecretKeyModel;

    closed spec fn view(&self) -> SecretKeyModel {
        SecretKeyModel {
            keying_base: self.flavor.keying_base@,
            key: self.key@,
            nonce_seed: self.nonce_seed@,
            public: self.public@,
        }
    }
}

/// The length of the seed from which witnesses are derived.
pub open spec fn nonce_seed_len() -> nat {
    32
}

/// The history of the transcript from which a seed is expanded into a key.
pub open spec fn seed_ops(seed: Seq<u8>) -> Seq<TranscriptOp> {
    initial_ops("VrfSecretSeed").push(TranscriptOp::Message { label: "seed"@, data: seed })
}

/// The secret key that a seed expands to on the keying base `keying_base`.
pub open spec fn secret_from_seed(keying_base: Coordinates, seed: Seq<u8>) -> SecretKeyModel {
    let key = challenge_scalar(seed_ops(seed), "key"@);
    SecretKeyModel {
        keying_base,
        key,
        nonce_seed: challenge_output(
            after_challenge(seed_ops(seed), "key"@),
            "nonce"@,
            nonce_seed_len(),
        ),
        public: group_mul(keying_base, key),
    }
}

impl SecretKey {
    /// The keying base is a point of the prime-order subgroup, the scalar is reduced, the
    /// public key is the keying base multiplied by the scalar, and the seed for witnesses
    /// has its fixed length.
    #[verifier::type_invariant]
    pub open spec fn wf(&self) -> bool {
        &&& valid_point(self@.keying_base)
        &&& self@.key < group_order()
        &&& self@.public == group_mul(self@.keying_base, self@.key)
        &&& self@.nonce_seed.len() == nonce_seed_len()
    }

    /// Expands a seed of 32 bytes into a secret key of the given flavor.
    pub fn from_seed(flavor: ThinVrf, seed: [u8; 32]) -> (r: SecretKey)
        ensures
            r@ == secret_from_seed(flavor@.keying_base, seed@),
    {
        proof {
            reveal_strlit("VrfSecretSeed");
            is_ascii_chars_encode_utf8("VrfSecretSeed"@);
        }
        let mut t = SigningTranscript::new("VrfSecretSeed");
        t.append_message("seed", seed.as_slice());
        let key = t.challenge("key");
        let nonce_seed = t.challenge_bytes("nonce", 32);
        let public = PublicKey(flavor.keying_base.mul(&key));
        proof {
            use_type_invariant(&flavor.keying_base);
        }
        SecretKey { flavor, key, nonce_seed, public }
    }

    /// The secret key with the given scalar and the given seed for witnesses.
    pub fn from_scalar(flavor: ThinVrf, key: Scalar, nonce_seed: [u8; 32]) -> (r: SecretKey)
        ensures
            r@ == (SecretKeyModel {
                keying_base: flavor@.keying_base,
                key: key@,
                nonce_seed: nonce_seed@,
                public: group_mul(flavor@.keying_base, key@),
            }),
    {
        let public = PublicKey(flavor.keying_base.mul(&key));
        let nonce_seed = vstd::slice::slice_to_vec(nonce_seed.as_slice());
        proof {
            use_type_invariant(&flavor.keying_base);
            use_type_invariant(&key);
        }
        SecretKey { flavor, key, nonce_seed, public }
    }

    /// The flavor that the key was made for.
    pub fn flavor(&self) -> (r: &ThinVrf)
        ensures
            r@.keying_base == self@.keying_base,
    {
        &self.flavor
    }

    /// The secret scalar.
    pub(crate) fn key(&self) -> (r: &Scalar)
        ensures
            r@ == self@.key,
    {
        &self.key
    }

    /// The seed from which witnesses are derived.
    pub(crate) fn nonce_seed(&self) -> (r: &[u8])
        ensures
            r@ == self@.nonce_seed,
            r@.len() == nonce_seed_len(),
    {
        proof {
            use_type_invariant(self);
        }
        self.nonce_seed.as_slice()
    }

    /// The public key that belongs to this secret key.
    pub fn to_public(&self) -> (r: PublicKey)
        ensures
            r@ == self@.public,
            r@ == group_mul(self@.keying_base, self@.key),
    {
        proof {
            use_type_invariant(self);
        }
        self.public
    }

    /// The public key that belongs to this secret key, by reference.
    pub fn as_publickey(&self) -> (r: &PublicKey)
        ensures
            r@ == self@.public,
            r@ == group_mul(self@.keying_base, self@.key),
    {
        proof {
            use_type_invariant(self);
        }
        &self.public
    }

    /// The pre-output of `input` under this key: the input multiplied by the secret scalar.
    pub fn vrf_preout(&self, input: &VrfInput) -> (r: VrfPreOut)
        ensures
            r@ == group_mul(input@, self@.key),
    {
        VrfPreOut(input.0.mul(&self.key))
    }

    /// The input paired with its pre-output under this key.
    pub fn vrf_inout(&self, input: VrfInput) -> (r: VrfInOut)
        ensures
            r.input == input,
            r.preoutput@ == group_mul(input@, self@.key),
    {
        let preoutput = self.vrf_preout(&input);
        VrfInOut { input, preoutput }
    }
}

impl Clone for SecretKey {
    fn clone(&self) -> (r: Self)
        ensures
            r@ == self@,
    {
        proof {
            use_type_invariant(self);
        }
        SecretKey {
            flavor: self.flavor,
            key: self.key,
            nonce_seed: self.nonce_seed.clone(),
            public: self.public,
        }
    }
}

} // verus!
