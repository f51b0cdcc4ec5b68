//! The Fiat-Shamir transcript: an append-only record of labelled messages from which
//! challenges and witnesses are derived.

use vstd::prelude::*;
use vstd::bytes::spec_u64_to_le_bytes;
use vstd::slice::slice_subrange;
use vstd::string::StringSliceAdditionalSpecFns;
use ark_std::rand::{rngs::StdRng, RngCore, SeedableRng};
use crate::point::{point_encoding, Coordinates, Point};
use crate::scalar::{group_order, Scalar};
use crate::uint::le_bytes_value;

verus! {

/// One operation in a transcript's history.
pub enum TranscriptOp {
    /// A message was appended under a label.
    Message { label: Seq<char>, data: Seq<u8> },
    /// Challenge bytes were drawn under a label.
    Challenge { label: Seq<char>, len: nat },
}

/// `merlin::Transcript`, carried as an opaque value: nothing is known of it but the history
/// that the functions below ascribe to it.
#[verifier::external_type_specification]
#[verifier::external_body]
pub struct ExMerlinTranscript(merlin::Transcript);

/// The operations that a `merlin` transcript has gone through since it was created, oldest
/// first. Its state is a function of them.
pub uninterp spec fn transcript_ops(t: merlin::Transcript) -> Seq<TranscriptOp>;

/// The bytes that a `merlin` transcript with the history `ops` yields when `len` challenge
/// bytes are drawn from it under `label`.
pub uninterp spec fn challenge_output(
    ops: Seq<TranscriptOp>,
    label: Seq<char>,
    len: nat,
) -> Seq<u8>;

/// The bytes that a `merlin` transcript with the history `ops` yields for a prover who
/// rekeys a fork of it with `secret` under `label` and with a random number generator seeded
/// with `entropy`, and then draws `len` bytes.
pub uninterp spec fn witness_output(
    ops: Seq<TranscriptOp>,
    label: Seq<char>,
    secret: Seq<u8>,
    entropy: Seq<u8>,
    len: nat,
) -> Seq<u8>;

/// The number of bytes from which one scalar is derived. It exceeds the size of the group
/// order by more than 128 bits, so that reduction leaves no noticeable bias.
pub open spec fn scalar_seed_len() -> nat {
    64
}

/// The history of a transcript that was just created with the domain separator `label`.
pub open spec fn initial_ops(label: &str) -> Seq<TranscriptOp> {
    seq![TranscriptOp::Message { label: "dom-sep"@, data: label.spec_bytes() }]
}

/// The scalar that a challenge under `label` yields from a transcript with the history `ops`.
pub open spec fn challenge_scalar(ops: Seq<TranscriptOp>, label: Seq<char>) -> nat {
    le_bytes_value(challenge_output(ops, label, scalar_seed_len())) % group_order()
}

/// The history after a challenge scalar was drawn under `label`.
pub open spec fn after_challenge(ops: Seq<TranscriptOp>, label: Seq<char>) -> Seq<TranscriptOp> {
    ops.push(TranscriptOp::Challenge { label, len: scalar_seed_len() })
}

/// The history after the encoding of `p` was appended under `label`.
pub open spec fn after_point(
    ops: Seq<TranscriptOp>,
    label: Seq<char>,
    p: Coordinates,
) -> Seq<TranscriptOp> {
    ops.push(TranscriptOp::Message { label, data: point_encoding(p) })
}

/// The `i`-th of `count` witness scalars that a prover derives under `label` from a
/// transcript with the history `ops`, the secret `secret` and the randomness `entropy`.
pub open spec fn witness_scalar(
    ops: Seq<TranscriptOp>,
    label: Seq<char>,
    secret: Seq<u8>,
    entropy: Seq<u8>,
    count: nat,
    i: nat,
) -> nat {
    le_bytes_value(
        witness_output(ops, label, secret, entropy, scalar_seed_len() * count).subrange(
            (scalar_seed_len() * i) as int,
            (scalar_seed_len() * i + scalar_seed_len()) as int,
        ),
    ) % group_order()
}

/// A transcript that signer and verifier feed with the same messages in the same order.
pub struct SigningTranscript {
    inner: merlin::Transcript,
}

impl View for SigningTranscript {
    type V = Seq<TranscriptOp>;

    closed spec fn view(&self) -> Seq<TranscriptOp> {
        transcript_ops(self.inner)
    }
}

impl SigningTranscript {
    /// A fresh transcript for the protocol that `label` names.
    pub fn new(label: &'static str) -> (r: SigningTranscript)
        requires
            label.spec_bytes().len() <= u32::MAX,
        ensures
            r@ == initial_ops(label),
    {
        SigningTranscript { inner: merlin_new(label) }
    }

    /// An independent copy with the same history.
    pub fn fork(&self) -> (r: SigningTranscript)
        ensures
            r@ == self@,
    {
        SigningTranscript { inner: merlin_clone(&self.inner) }
    }

    /// Appends `message` under `label`.
    pub fn append_message(&mut self, label: &'static str, message: &[u8])
        requires
            message@.len() <= u32::MAX,
        ensures
            final(self)@ == old(self)@.push(
                TranscriptOp::Message { label: label@, data: message@ },
            ),
    {
        merlin_append_message(&mut self.inner, label, message)
    }

    /// Appends the eight little-endian bytes of `x` under `label`.
    pub fn append_u64(&mut self, label: &'static str, x: u64)
        ensures
            final(self)@ == old(self)@.push(
                TranscriptOp::Message { label: label@, data: spec_u64_to_le_bytes(x) },
            ),
    {
        merlin_append_u64(&mut self.inner, label, x)
    }

    /// Appends the encoding of the point `p` under `label`.
    pub fn append_point(&mut self, label: &'static str, p: &Point)
        ensures
            final(self)@ == after_point(old(self)@, label@, p@),
    {
        let bytes = p.to_bytes();
        self.append_message(label, bytes.as_slice())
    }

    /// Draws `len` challenge bytes under `label`.
    pub fn challenge_bytes(&mut self, label: &'static str, len: usize) -> (r: Vec<u8>)
        requires
            len <= u32::MAX,
        ensures
            r@ == challenge_output(old(self)@, label@, len as nat),
            r@.len() == len,
            final(self)@ == old(self)@.push(
                TranscriptOp::Challenge { label: label@, len: len as nat },
            ),
    {
        merlin_challenge_bytes(&mut self.inner, label, len)
    }

    /// Draws a challenge scalar under `label`.
    pub fn challenge(&mut self, label: &'static str) -> (r: Scalar)
        ensures
            r@ == challenge_scalar(old(self)@, label@),
            final(self)@ == after_challenge(old(self)@, label@),
    {
        let bytes = self.challenge_bytes(label, 64);
        Scalar::from_le_bytes_mod_order(bytes.as_slice())
    }

    /// Derives `count` witness scalars under `label` from the transcript's history, the
    /// prover's `secret` and the randomness `entropy`. The transcript itself stays as it is.
    pub fn witnesses(
        &self,
        label: &'static str,
        secret: &[u8],
        entropy: &[u8; 32],
        count: usize,
    ) -> (r: Vec<Scalar>)
        requires
            secret@.len() <= u32::MAX,
            count * scalar_seed_len() <= u32::MAX,
        ensures
            r@.len() == count,
            forall|i: int|
                0 <= i < count ==> (#[trigger] r@[i])@ == witness_scalar(
                    self@,
                    label@,
                    secret@,
                    entropy@,
                    count as nat,
                    i as nat,
                ),
    {
        let bytes = merlin_witness_bytes(&self.inner, label, secret, entropy, count * 64);
        let mut out: Vec<Scalar> = Vec::new();
        let mut i: usize = 0;
        while i < count
            invariant
                i <= count,
                count * scalar_seed_len() <= u32::MAX,
                bytes@ == witness_output(
                    self@,
                    label@,
                    secret@,
                    entropy@,
                    scalar_seed_len() * (count as nat),
                ),
                bytes@.len() == count * 64,
                out@.len() == i,
                forall|j: int|
                    0 <= j < i ==> (#[trigger] out@[j])@ == witness_scalar(
                        self@,
                        label@,
                        secret@,
                        entropy@,
                        count as nat,
                        j as nat,
                    ),
            decreases count - i,
        {
            let chunk = slice_subrange(bytes.as_slice(), 64 * i, 64 * i + 64);
            let k = Scalar::from_le_bytes_mod_order(chunk);
            out.push(k);
            i = i + 1;
        }
        out
    }
}

/// `merlin::Transcript::new`: a fresh state to which the domain separator `label` is
/// appended as a message under the label `dom-sep`.
#[verifier::external_body]
fn merlin_new(label: &'static str) -> (t: merlin::Transcript)
    requires
        label.spec_bytes().len() <= u32::MAX,
    ensures
        transcript_ops(t) == initial_ops(label),
{
    merlin::Transcript::new(label.as_bytes())
}

/// `Clone::clone` of `merlin::Transcript`: the copy holds the same state.
#[verifier::external_body]
fn merlin_clone(t: &merlin::Transcript) -> (r: merlin::Transcript)
    ensures
        transcript_ops(r) == transcript_ops(*t),
{
    t.clone()
}

/// `merlin::Transcript::append_message`: the state absorbs the label, the message's length
/// and the message. A message longer than `u32::MAX` bytes makes it panic.
#[verifier::external_body]
fn merlin_append_message(t: &mut merlin::Transcript, label: &'static str, message: &[u8])
    requires
        message@.len() <= u32::MAX,
    ensures
        transcript_ops(*final(t)) == transcript_ops(*old(t)).push(
            TranscriptOp::Message { label: label@, data: message@ },
        ),
{
    t.append_message(label.as_bytes(), message)
}

/// `merlin::Transcript::append_u64`: it appends the eight little-endian bytes of `x` as a
/// message.
#[verifier::external_body]
fn merlin_append_u64(t: &mut merlin::Transcript, label: &'static str, x: u64)
    ensures
        transcript_ops(*final(t)) == transcript_ops(*old(t)).push(
            TranscriptOp::Message { label: label@, data: spec_u64_to_le_bytes(x) },
        ),
{
    t.append_u64(label.as_bytes(), x)
}

/// `merlin::Transcript::challenge_bytes` into a fresh vector of `len` bytes: the output is
/// determined by everything the state absorbed before, the label and the length, and the
/// state moves on. A length above `u32::MAX` makes it panic.
#[verifier::external_body]
fn merlin_challenge_bytes(
    t: &mut merlin::Transcript,
    label: &'static str,
    len: usize,
) -> (out: Vec<u8>)
    requires
        len <= u32::MAX,
    ensures
        out@ == challenge_output(transcript_ops(*old(t)), label@, len as nat),
        out@.len() == len,
        transcript_ops(*final(t)) == transcript_ops(*old(t)).push(
            TranscriptOp::Challenge { label: label@, len: len as nat },
        ),
{
    let mut out = vec![0u8; len];
    t.challenge_bytes(label.as_bytes(), &mut out);
    out
}

/// `merlin::Transcript::build_rng`, rekeyed once with `secret` under `label`, finalized with
/// the standard generator seeded with `entropy`, and asked once for `len` bytes. The output
/// is determined by the transcript's state, the label, the secret, the seed and the length;
/// the transcript is not changed. A secret or a length above `u32::MAX` makes it panic.
#[verifier::external_body]
fn merlin_witness_bytes(
    t: &merlin::Transcript,
    label: &'static str,
    secret: &[u8],
    entropy: &[u8; 32],
    len: usize,
) -> (out: Vec<u8>)
    requires
        secret@.len() <= u32::MAX,
        len <= u32::MAX,
    ensures
        out@ == witness_output(transcript_ops(*t), label@, secret@, entropy@, len as nat),
        out@.len() == len,
{
    let builder = t.build_rng().rekey_with_witness_bytes(label.as_bytes(), secret);
    let mut rng = builder.finalize(&mut StdRng::from_seed(*entropy));
    let mut out = vec![0u8; len];
    rng.fill_bytes(&mut out);
    out
}

} // verus!
