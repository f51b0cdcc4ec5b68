//! What holds of the signatures whenever the curve's points form a group on which the
//! scalars act: signatures that are made verify, and merging is a function of what the
//! transcript held.

use vstd::prelude::*;
use crate::keys::{secret_from_seed, SecretKeyModel};
use crate::pedersen::{
    blinded_key, pedersen_challenge, pedersen_commitment, pedersen_signature,
    pedersen_verifies, pedersen_witness_scalar, PedersenSignatureModel, PedersenVrfModel,
};
use crate::point::{
    cofactor, equal_mod_cofactor, group_add, group_mul, group_neg, group_sub, identity_point,
    point_encoding, valid_point, Coordinates,
};
use crate::scalar::group_order;
use crate::thin::{
    lemma_schnorr_response, schnorr_inout, schnorr_response, thin_challenge, thin_signature,
    thin_verifies, thin_witness_scalar, ThinSignatureModel,
};
use crate::transcript::{challenge_scalar, scalar_seed_len, TranscriptOp};
use crate::vrf::{
    after_challenges, after_inout, after_inouts, delinearize_coefficient, delinearize_label,
    delinearized, inputs_of, merge_commitment, merged_inout, merged_ops, preoutputs_of, zipped,
    InOut,
};

verus! {

/// The laws of the prime-order subgroup: its points are closed under the operations, they
/// form a commutative group, and multiplication by natural numbers makes them a module over
/// the integers modulo the group order.
#[verifier::opaque]
pub open spec fn group_laws() -> bool {
    &&& forall|p: Coordinates, q: Coordinates|
        valid_point(p) && valid_point(q) ==> valid_point(#[trigger] group_add(p, q))
    &&& forall|p: Coordinates, n: nat| valid_point(p) ==> valid_point(#[trigger] group_mul(p, n))
    &&& forall|p: Coordinates| valid_point(p) ==> valid_point(#[trigger] group_neg(p))
    &&& forall|p: Coordinates, q: Coordinates|
        valid_point(p) && valid_point(q) ==> #[trigger] group_add(p, q) == group_add(q, p)
    &&& forall|p: Coordinates, q: Coordinates, r: Coordinates|
        valid_point(p) && valid_point(q) && valid_point(r) ==> #[trigger] group_add(
            group_add(p, q),
            r,
        ) == group_add(p, group_add(q, r))
    &&& forall|p: Coordinates| valid_point(p) ==> #[trigger] group_add(p, identity_point()) == p
    &&& forall|p: Coordinates|
        valid_point(p) ==> #[trigger] group_add(p, group_neg(p)) == identity_point()
    &&& forall|n: nat| #[trigger] group_mul(identity_point(), n) == identity_point()
    &&& forall|p: Coordinates, a: nat, b: nat|
        valid_point(p) ==> #[trigger] group_add(group_mul(p, a), group_mul(p, b)) == group_mul(
            p,
            (a + b) % group_order(),
        )
    &&& forall|p: Coordinates, a: nat, b: nat|
        valid_point(p) ==> #[trigger] group_mul(group_mul(p, a), b) == group_mul(
            p,
            (a * b) % group_order(),
        )
    &&& forall|p: Coordinates, q: Coordinates, a: nat|
        valid_point(p) && valid_point(q) ==> #[trigger] group_mul(group_add(p, q), a)
            == group_add(group_mul(p, a), group_mul(q, a))
}

/// Whether every pair of `ios` has a valid input, and as pre-output that input multiplied by
/// `key`.
pub open spec fn evaluated_by(ios: Seq<InOut>, key: nat) -> bool {
    forall|i: int|
        0 <= i < ios.len() ==> valid_point((#[trigger] ios[i]).input) && ios[i].preoutput
            == group_mul(ios[i].input, key)
}

/// Any point equals itself up to the cofactor.
proof fn lemma_equal_mod_cofactor_reflexive(p: Coordinates)
    requires
        group_laws(),
        valid_point(p),
    ensures
        equal_mod_cofactor(p, p),
{
    reveal(group_laws);
}

/// Multiplying by `a` and then by `b` is multiplying by `b` and then by `a`.
proof fn lemma_mul_mul_commutes(p: Coordinates, a: nat, b: nat)
    requires
        group_laws(),
        valid_point(p),
    ensures
        group_mul(group_mul(p, a), b) == group_mul(group_mul(p, b), a),
{
    reveal(group_laws);
    assert(a * b == b * a) by (nonlinear_arith);
}

/// The Schnorr equation: with the commitment `k * p` and the public point `key * p`, the
/// response `k + c * key` satisfies `s * p == k * p + c * (key * p)`.
proof fn lemma_schnorr_equation(p: Coordinates, k: nat, c: nat, key: nat)
    requires
        group_laws(),
        valid_point(p),
    ensures
        group_mul(p, schnorr_response(k, c, key)) == group_add(
            group_mul(p, k),
            group_mul(group_mul(p, key), c),
        ),
{
    reveal(group_laws);
    lemma_schnorr_response(k, c, key);
    assert(c * key == key * c) by (nonlinear_arith);
    assert(group_mul(group_mul(p, key), c) == group_mul(p, (key * c) % group_order()));
    assert(group_add(group_mul(p, k), group_mul(p, (c * key) % group_order())) == group_mul(
        p,
        (k + (c * key) % group_order()) % group_order(),
    ));
}

/// Merging pairs that one key evaluated, together with the key's own pair, gives a pair
/// that the same key evaluated.
proof fn lemma_delinearized_evaluated(
    ops: Seq<TranscriptOp>,
    base: InOut,
    ios: Seq<InOut>,
    key: nat,
    n: nat,
)
    requires
        group_laws(),
        valid_point(base.input),
        base.preoutput == group_mul(base.input, key),
        evaluated_by(ios, key),
        n <= ios.len(),
    ensures
        valid_point(delinearized(ops, base, ios, n).input),
        delinearized(ops, base, ios, n).preoutput == group_mul(
            delinearized(ops, base, ios, n).input,
            key,
        ),
    decreases n,
{
    if n > 0 {
        lemma_delinearized_evaluated(ops, base, ios, key, (n - 1) as nat);
        let sum = delinearized(ops, base, ios, (n - 1) as nat);
        let c = delinearize_coefficient(ops, (n - 1) as nat);
        let io = ios[n - 1];
        lemma_mul_mul_commutes(io.input, key, c);
        reveal(group_laws);
        assert(valid_point(group_mul(io.input, c)));
        assert(group_mul(group_add(sum.input, group_mul(io.input, c)), key) == group_add(
            group_mul(sum.input, key),
            group_mul(group_mul(io.input, c), key),
        ));
    }
}

/// Correctness of the Thin VRF: a signature that the holder of a key makes over pairs that
/// the key evaluated is accepted for the key's public key and the same pairs, by a verifier
/// whose transcript has the history that the signer's had. This holds under the group laws.
pub proof fn lemma_thin_correct_under_group_laws(
    ops: Seq<TranscriptOp>,
    secret: SecretKeyModel,
    ios: Seq<InOut>,
    entropy: Seq<u8>,
)
    requires
        group_laws(),
        valid_point(secret.keying_base),
        secret.public == group_mul(secret.keying_base, secret.key),
        evaluated_by(ios, secret.key),
    ensures
        thin_verifies(
            ops,
            secret.keying_base,
            secret.public,
            ios,
            thin_signature(ops, secret, ios, entropy),
        ),
{
    let key_io = schnorr_inout(secret.keying_base, secret.public);
    let committed = merge_commitment(ops, key_io, ios);
    let merged = merged_inout(ops, key_io, ios);
    let after = merged_ops(ops, key_io, ios);
    let k = thin_witness_scalar(after, secret.nonce_seed, entropy);
    let r = group_mul(merged.input, k);
    let c = thin_challenge(after, r);
    lemma_delinearized_evaluated(committed, key_io, ios, secret.key, ios.len());
    lemma_schnorr_equation(merged.input, k, c, secret.key);
    assert(valid_point(group_mul(merged.input, schnorr_response(k, c, secret.key)))) by {
        reveal(group_laws);
    }
    lemma_equal_mod_cofactor_reflexive(
        group_mul(merged.input, schnorr_response(k, c, secret.key)),
    );
}

/// Correctness of the Thin VRF for a verifier who holds the inputs and the published
/// pre-outputs: the signature over pairs that the key evaluated is accepted for the inputs
/// of these pairs, each paired again with its published pre-output. This holds under the
/// group laws.
pub proof fn lemma_thin_correct_for_inputs_under_group_laws(
    ops: Seq<TranscriptOp>,
    secret: SecretKeyModel,
    ios: Seq<InOut>,
    entropy: Seq<u8>,
)
    requires
        group_laws(),
        valid_point(secret.keying_base),
        secret.public == group_mul(secret.keying_base, secret.key),
        evaluated_by(ios, secret.key),
    ensures
        thin_verifies(
            ops,
            secret.keying_base,
            secret.public,
            zipped(inputs_of(ios), preoutputs_of(ios)),
            thin_signature(ops, secret, ios, entropy),
        ),
{
    assert(zipped(inputs_of(ios), preoutputs_of(ios)) =~= ios);
    lemma_thin_correct_under_group_laws(ops, secret, ios, entropy);
}

/// `(u + v) + t` is `(u + t) + v`.
proof fn lemma_add_swap(u: Coordinates, v: Coordinates, t: Coordinates)
    requires
        group_laws(),
        valid_point(u),
        valid_point(v),
        valid_point(t),
    ensures
        group_add(group_add(u, v), t) == group_add(group_add(u, t), v),
{
    reveal(group_laws);
    assert(group_add(group_add(u, v), t) == group_add(u, group_add(v, t)));
    assert(group_add(v, t) == group_add(t, v));
    assert(group_add(group_add(u, t), v) == group_add(u, group_add(t, v)));
}

/// `(a + b) + (c + d)` is `(a + c) + (b + d)`.
proof fn lemma_add_interchange(a: Coordinates, b: Coordinates, c: Coordinates, d: Coordinates)
    requires
        group_laws(),
        valid_point(a),
        valid_point(b),
        valid_point(c),
        valid_point(d),
    ensures
        group_add(group_add(a, b), group_add(c, d)) == group_add(
            group_add(a, c),
            group_add(b, d),
        ),
{
    assert(valid_point(group_add(c, d)) && valid_point(group_add(b, d))) by {
        reveal(group_laws);
    }
    assert(group_add(group_add(a, b), group_add(c, d)) == group_add(
        a,
        group_add(b, group_add(c, d)),
    )) by {
        reveal(group_laws);
    }
    assert(group_add(b, group_add(c, d)) == group_add(c, group_add(b, d))) by {
        lemma_add_swap(b, c, d);
        reveal(group_laws);
        assert(group_add(group_add(b, c), d) == group_add(b, group_add(c, d)));
        assert(group_add(group_add(b, d), c) == group_add(c, group_add(b, d)));
    }
    assert(group_add(group_add(a, c), group_add(b, d)) == group_add(
        a,
        group_add(c, group_add(b, d)),
    )) by {
        reveal(group_laws);
    }
}

/// What was added to the same point on both sides can be cancelled.
proof fn lemma_add_cancel(p: Coordinates, x: Coordinates, y: Coordinates)
    requires
        group_laws(),
        valid_point(p),
        valid_point(x),
        valid_point(y),
        group_add(p, x) == group_add(p, y),
    ensures
        x == y,
{
    reveal(group_laws);
    let n = group_neg(p);
    assert(group_add(group_add(x, p), n) == group_add(x, group_add(p, n)));
    assert(group_add(group_add(y, p), n) == group_add(y, group_add(p, n)));
    assert(group_add(x, p) == group_add(p, x));
    assert(group_add(y, p) == group_add(p, y));
}

/// Merging pairs that one key evaluated, together with the pair of a blinded commitment to
/// the key, gives a pair whose pre-output is its input multiplied by the key, plus the
/// blinding.
proof fn lemma_delinearized_blinded(
    ops: Seq<TranscriptOp>,
    base: InOut,
    ios: Seq<InOut>,
    key: nat,
    blind: Coordinates,
    n: nat,
)
    requires
        group_laws(),
        valid_point(base.input),
        valid_point(blind),
        base.preoutput == group_add(group_mul(base.input, key), blind),
        evaluated_by(ios, key),
        n <= ios.len(),
    ensures
        valid_point(delinearized(ops, base, ios, n).input),
        delinearized(ops, base, ios, n).preoutput == group_add(
            group_mul(delinearized(ops, base, ios, n).input, key),
            blind,
        ),
    decreases n,
{
    if n > 0 {
        lemma_delinearized_blinded(ops, base, ios, key, blind, (n - 1) as nat);
        let sum = delinearized(ops, base, ios, (n - 1) as nat);
        let c = delinearize_coefficient(ops, (n - 1) as nat);
        let io = ios[n - 1];
        let term = group_mul(io.input, c);
        lemma_mul_mul_commutes(io.input, key, c);
        assert(valid_point(term) && valid_point(group_mul(sum.input, key)) && valid_point(
            group_mul(term, key),
        ) && valid_point(group_add(sum.input, term))) by {
            reveal(group_laws);
        }
        assert(group_mul(group_add(sum.input, term), key) == group_add(
            group_mul(sum.input, key),
            group_mul(term, key),
        )) by {
            reveal(group_laws);
        }
        lemma_add_swap(group_mul(sum.input, key), blind, group_mul(term, key));
    }
}

/// Correctness of the Pedersen VRF: a signature that the holder of a key makes under any
/// blinding, over pairs that the key evaluated, is accepted for the same pairs by a
/// verifier whose transcript has the history that the signer's had. This holds under the
/// group laws, for a key that was built on the flavor's keying base.
pub proof fn lemma_pedersen_correct_under_group_laws(
    ops: Seq<TranscriptOp>,
    flavor: PedersenVrfModel,
    secret: SecretKeyModel,
    ios: Seq<InOut>,
    blinding: nat,
    entropy: Seq<u8>,
)
    requires
        group_laws(),
        valid_point(flavor.keying_base),
        valid_point(flavor.blinding_base),
        secret.keying_base == flavor.keying_base,
        secret.public == group_mul(secret.keying_base, secret.key),
        evaluated_by(ios, secret.key),
    ensures
        pedersen_verifies(
            ops,
            flavor,
            ios,
            pedersen_signature(ops, flavor, secret, ios, blinding, entropy),
        ),
{
    let h = flavor.blinding_base;
    let blind = group_mul(h, blinding);
    let compk = blinded_key(flavor, secret.public, blinding);
    let key_io = schnorr_inout(flavor.keying_base, compk);
    let committed = merge_commitment(ops, key_io, ios);
    let merged = merged_inout(ops, key_io, ios);
    let after = merged_ops(ops, key_io, ios);
    let k = pedersen_witness_scalar(after, secret.nonce_seed, entropy, 0);
    let kb = pedersen_witness_scalar(after, secret.nonce_seed, entropy, 1);
    let r = pedersen_commitment(flavor, merged.input, k, kb);
    let c = pedersen_challenge(after, r);
    let s = schnorr_response(k, c, secret.key);
    let sb = schnorr_response(kb, c, blinding);
    assert(valid_point(blind)) by {
        reveal(group_laws);
    }
    lemma_delinearized_blinded(committed, key_io, ios, secret.key, blind, ios.len());
    lemma_schnorr_equation(merged.input, k, c, secret.key);
    lemma_schnorr_equation(h, kb, c, blinding);
    let shown = group_mul(merged.input, secret.key);
    assert(valid_point(shown) && valid_point(group_mul(merged.input, k)) && valid_point(
        group_mul(h, kb),
    ) && valid_point(group_mul(shown, c)) && valid_point(group_mul(blind, c)) && valid_point(
        pedersen_commitment(flavor, merged.input, s, sb),
    )) by {
        reveal(group_laws);
    }
    assert(group_mul(merged.preoutput, c) == group_add(group_mul(shown, c), group_mul(blind, c)))
        by {
        reveal(group_laws);
    }
    lemma_add_interchange(
        group_mul(merged.input, k),
        group_mul(shown, c),
        group_mul(h, kb),
        group_mul(blind, c),
    );
    lemma_equal_mod_cofactor_reflexive(pedersen_commitment(flavor, merged.input, s, sb));
}

/// Correctness of the Pedersen VRF for a verifier who holds the inputs and the published
/// pre-outputs: the signature over pairs that the key evaluated is accepted for the inputs
/// of these pairs, each paired again with its published pre-output. This holds under the
/// group laws, for a key that was built on the flavor's keying base.
pub proof fn lemma_pedersen_correct_for_inputs_under_group_laws(
    ops: Seq<TranscriptOp>,
    flavor: PedersenVrfModel,
    secret: SecretKeyModel,
    ios: Seq<InOut>,
    blinding: nat,
    entropy: Seq<u8>,
)
    requires
        group_laws(),
        valid_point(flavor.keying_base),
        valid_point(flavor.blinding_base),
        secret.keying_base == flavor.keying_base,
        secret.public == group_mul(secret.keying_base, secret.key),
        evaluated_by(ios, secret.key),
    ensures
        pedersen_verifies(
            ops,
            flavor,
            zipped(inputs_of(ios), preoutputs_of(ios)),
            pedersen_signature(ops, flavor, secret, ios, blinding, entropy),
        ),
{
    assert(zipped(inputs_of(ios), preoutputs_of(ios)) =~= ios);
    lemma_pedersen_correct_under_group_laws(ops, flavor, secret, ios, blinding, entropy);
}

/// Whether the multiples of `p` by distinct reduced scalars are distinct, as they are for
/// every point of the prime-order subgroup but the neutral element.
pub open spec fn has_full_order(p: Coordinates) -> bool {
    forall|a: nat, b: nat|
        a < group_order() && b < group_order() && #[trigger] group_mul(p, a)
            == #[trigger] group_mul(p, b) ==> a == b
}

/// Blinding: two distinct blindings of one public key give two distinct key commitments.
/// This holds under the group laws, for a blinding base whose multiples by distinct reduced
/// scalars are distinct.
pub proof fn lemma_blindings_differ_under_group_laws(
    flavor: PedersenVrfModel,
    public: Coordinates,
    blinding1: nat,
    blinding2: nat,
)
    requires
        group_laws(),
        valid_point(public),
        valid_point(flavor.blinding_base),
        has_full_order(flavor.blinding_base),
        blinding1 < group_order(),
        blinding2 < group_order(),
        blinding1 != blinding2,
    ensures
        blinded_key(flavor, public, blinding1) != blinded_key(flavor, public, blinding2),
{
    let x = group_mul(flavor.blinding_base, blinding1);
    let y = group_mul(flavor.blinding_base, blinding2);
    assert(valid_point(x) && valid_point(y)) by {
        reveal(group_laws);
    }
    if group_add(public, x) == group_add(public, y) {
        lemma_add_cancel(public, x, y);
    }
}

/// Whether both points of every pair of `ios` lie in the prime-order subgroup.
pub open spec fn valid_pairs(ios: Seq<InOut>) -> bool {
    forall|i: int|
        0 <= i < ios.len() ==> valid_point((#[trigger] ios[i]).input) && valid_point(
            ios[i].preoutput,
        )
}

/// Merging pairs of points of the prime-order subgroup gives such a pair.
proof fn lemma_delinearized_valid(ops: Seq<TranscriptOp>, base: InOut, ios: Seq<InOut>, n: nat)
    requires
        group_laws(),
        valid_point(base.input),
        valid_point(base.preoutput),
        valid_pairs(ios),
        n <= ios.len(),
    ensures
        valid_point(delinearized(ops, base, ios, n).input),
        valid_point(delinearized(ops, base, ios, n).preoutput),
    decreases n,
{
    if n > 0 {
        lemma_delinearized_valid(ops, base, ios, (n - 1) as nat);
        let io = ios[n - 1];
        reveal(group_laws);
    }
}

/// Multiplying reduced scalars by the cofactor keeps them apart: the cofactor is invertible
/// modulo the group order.
proof fn lemma_cofactor_keeps_scalars_apart(a: nat, b: nat)
    requires
        a < group_order(),
        b < group_order(),
        (a * cofactor()) % group_order() == (b * cofactor()) % group_order(),
    ensures
        a == b,
{
}

/// If two points both equal a third up to the cofactor, their multiples by the cofactor are
/// the same.
proof fn lemma_equal_mod_cofactor_joins(a1: Coordinates, a2: Coordinates, b: Coordinates)
    requires
        group_laws(),
        valid_point(a1),
        valid_point(a2),
        valid_point(b),
        equal_mod_cofactor(a1, b),
        equal_mod_cofactor(a2, b),
    ensures
        group_mul(a1, cofactor()) == group_mul(a2, cofactor()),
{
    let minus = group_mul(group_neg(b), cofactor());
    assert(valid_point(group_neg(b)) && valid_point(minus) && valid_point(
        group_mul(a1, cofactor()),
    ) && valid_point(group_mul(a2, cofactor()))) by {
        reveal(group_laws);
    }
    assert(group_mul(group_sub(a1, b), cofactor()) == group_add(
        group_mul(a1, cofactor()),
        minus,
    )) by {
        reveal(group_laws);
    }
    assert(group_mul(group_sub(a2, b), cofactor()) == group_add(
        group_mul(a2, cofactor()),
        minus,
    )) by {
        reveal(group_laws);
    }
    assert(group_add(minus, group_mul(a1, cofactor())) == group_add(
        minus,
        group_mul(a2, cofactor()),
    )) by {
        reveal(group_laws);
    }
    lemma_add_cancel(minus, group_mul(a1, cofactor()), group_mul(a2, cofactor()));
}

/// The response is determined: if a Thin VRF signature is accepted, then the signature with
/// the same commitment and any other response is rejected. This holds under the group laws,
/// for pairs of points of the prime-order subgroup whose merged input has multiples that
/// distinct reduced scalars keep apart.
pub proof fn lemma_thin_response_unique_under_group_laws(
    ops: Seq<TranscriptOp>,
    keying_base: Coordinates,
    public: Coordinates,
    ios: Seq<InOut>,
    signature: ThinSignatureModel,
    other: nat,
)
    requires
        group_laws(),
        valid_point(keying_base),
        valid_point(public),
        valid_pairs(ios),
        valid_point(signature.r),
        has_full_order(merged_inout(ops, schnorr_inout(keying_base, public), ios).input),
        signature.s < group_order(),
        other < group_order(),
        other != signature.s,
        thin_verifies(ops, keying_base, public, ios, signature),
    ensures
        !thin_verifies(
            ops,
            keying_base,
            public,
            ios,
            ThinSignatureModel { r: signature.r, s: other },
        ),
{
    let key_io = schnorr_inout(keying_base, public);
    let merged = merged_inout(ops, key_io, ios);
    let c = thin_challenge(merged_ops(ops, key_io, ios), signature.r);
    let expected = group_add(signature.r, group_mul(merged.preoutput, c));
    let first = group_mul(merged.input, signature.s);
    let second = group_mul(merged.input, other);
    lemma_delinearized_valid(merge_commitment(ops, key_io, ios), key_io, ios, ios.len());
    assert(valid_point(expected) && valid_point(first) && valid_point(second)) by {
        reveal(group_laws);
    }
    if equal_mod_cofactor(second, expected) {
        lemma_equal_mod_cofactor_joins(first, second, expected);
        assert(group_mul(first, cofactor()) == group_mul(
            merged.input,
            (signature.s * cofactor()) % group_order(),
        ) && group_mul(second, cofactor()) == group_mul(
            merged.input,
            (other * cofactor()) % group_order(),
        )) by {
            reveal(group_laws);
        }
        lemma_cofactor_keeps_scalars_apart(signature.s, other);
    }
}

/// If two sums with the same second summand have the same multiple by the cofactor, so have
/// their first summands; and likewise with the summands exchanged.
proof fn lemma_cofactor_multiple_cancels(x1: Coordinates, x2: Coordinates, y: Coordinates)
    requires
        group_laws(),
        valid_point(x1),
        valid_point(x2),
        valid_point(y),
    ensures
        group_mul(group_add(x1, y), cofactor()) == group_mul(group_add(x2, y), cofactor())
            ==> group_mul(x1, cofactor()) == group_mul(x2, cofactor()),
        group_mul(group_add(y, x1), cofactor()) == group_mul(group_add(y, x2), cofactor())
            ==> group_mul(x1, cofactor()) == group_mul(x2, cofactor()),
{
    let m1 = group_mul(x1, cofactor());
    let m2 = group_mul(x2, cofactor());
    let my = group_mul(y, cofactor());
    assert(valid_point(m1) && valid_point(m2) && valid_point(my)) by {
        reveal(group_laws);
    }
    assert(group_mul(group_add(x1, y), cofactor()) == group_add(my, m1) && group_mul(
        group_add(x2, y),
        cofactor(),
    ) == group_add(my, m2) && group_mul(group_add(y, x1), cofactor()) == group_add(my, m1)
        && group_mul(group_add(y, x2), cofactor()) == group_add(my, m2)) by {
        reveal(group_laws);
    }
    if group_add(my, m1) == group_add(my, m2) {
        lemma_add_cancel(my, m1, m2);
    }
}

/// The responses are determined one by one: if a Pedersen VRF signature is accepted, then
/// the signature that differs from it in the response for the key alone is rejected, and so
/// is the one that differs in the response for the blinding alone. This holds under the
/// group laws, for pairs of points of the prime-order subgroup, where distinct reduced
/// scalars keep the multiples of the merged input apart, and those of the blinding base.
pub proof fn lemma_pedersen_responses_unique_under_group_laws(
    ops: Seq<TranscriptOp>,
    flavor: PedersenVrfModel,
    ios: Seq<InOut>,
    signature: PedersenSignatureModel,
    other: nat,
)
    requires
        group_laws(),
        valid_point(flavor.keying_base),
        valid_point(flavor.blinding_base),
        valid_pairs(ios),
        valid_point(signature.compk),
        valid_point(signature.r),
        has_full_order(
            merged_inout(ops, schnorr_inout(flavor.keying_base, signature.compk), ios).input,
        ),
        has_full_order(flavor.blinding_base),
        signature.s < group_order(),
        signature.s_blinding < group_order(),
        other < group_order(),
        pedersen_verifies(ops, flavor, ios, signature),
    ensures
        other != signature.s ==> !pedersen_verifies(
            ops,
            flavor,
            ios,
            PedersenSignatureModel { s: other, ..signature },
        ),
        other != signature.s_blinding ==> !pedersen_verifies(
            ops,
            flavor,
            ios,
            PedersenSignatureModel { s_blinding: other, ..signature },
        ),
{
    let h = flavor.blinding_base;
    let key_io = schnorr_inout(flavor.keying_base, signature.compk);
    let merged = merged_inout(ops, key_io, ios);
    let c = pedersen_challenge(merged_ops(ops, key_io, ios), signature.r);
    let expected = group_add(signature.r, group_mul(merged.preoutput, c));
    let for_key = group_mul(merged.input, signature.s);
    let for_blinding = group_mul(h, signature.s_blinding);
    let other_for_key = group_mul(merged.input, other);
    let other_for_blinding = group_mul(h, other);
    lemma_delinearized_valid(merge_commitment(ops, key_io, ios), key_io, ios, ios.len());
    assert(valid_point(expected) && valid_point(for_key) && valid_point(for_blinding)
        && valid_point(other_for_key) && valid_point(other_for_blinding) && valid_point(
        group_add(for_key, for_blinding),
    ) && valid_point(group_add(other_for_key, for_blinding)) && valid_point(
        group_add(for_key, other_for_blinding),
    )) by {
        reveal(group_laws);
    }
    assert(group_mul(for_key, cofactor()) == group_mul(
        merged.input,
        (signature.s * cofactor()) % group_order(),
    ) && group_mul(other_for_key, cofactor()) == group_mul(
        merged.input,
        (other * cofactor()) % group_order(),
    ) && group_mul(for_blinding, cofactor()) == group_mul(
        h,
        (signature.s_blinding * cofactor()) % group_order(),
    ) && group_mul(other_for_blinding, cofactor()) == group_mul(
        h,
        (other * cofactor()) % group_order(),
    )) by {
        reveal(group_laws);
    }
    if equal_mod_cofactor(group_add(other_for_key, for_blinding), expected) {
        lemma_equal_mod_cofactor_joins(
            group_add(for_key, for_blinding),
            group_add(other_for_key, for_blinding),
            expected,
        );
        lemma_cofactor_multiple_cancels(for_key, other_for_key, for_blinding);
        lemma_cofactor_keeps_scalars_apart(signature.s, other);
    }
    if equal_mod_cofactor(group_add(for_key, other_for_blinding), expected) {
        lemma_equal_mod_cofactor_joins(
            group_add(for_key, for_blinding),
            group_add(for_key, other_for_blinding),
            expected,
        );
        lemma_cofactor_multiple_cancels(for_blinding, other_for_blinding, for_key);
        lemma_cofactor_keeps_scalars_apart(signature.s_blinding, other);
    }
}

/// Determinism of merging: the merged pair and the history that merging leaves behind are
/// functions of the history before, the key's pair and the pairs. Two runs from the same
/// history over the same pairs draw the same coefficients and give the same result.
pub proof fn lemma_merge_deterministic(
    ops1: Seq<TranscriptOp>,
    key1: InOut,
    ios1: Seq<InOut>,
    ops2: Seq<TranscriptOp>,
    key2: InOut,
    ios2: Seq<InOut>,
)
    requires
        ops1 =~= ops2,
        key1 == key2,
        ios1 =~= ios2,
    ensures
        merged_inout(ops1, key1, ios1) == merged_inout(ops2, key2, ios2),
        merged_ops(ops1, key1, ios1) == merged_ops(ops2, key2, ios2),
        forall|i: nat|
            delinearize_coefficient(merge_commitment(ops1, key1, ios1), i)
                == delinearize_coefficient(merge_commitment(ops2, key2, ios2), i),
{
}

/// Whether the history `ops` holds the encoding of the point `p` as a message under `label`.
pub open spec fn holds_point(ops: Seq<TranscriptOp>, label: Seq<char>, p: Coordinates) -> bool {
    ops.contains(TranscriptOp::Message { label, data: point_encoding(p) })
}

/// Whether the history `ops` holds both points of the pair `io` as messages under `label`.
pub open spec fn holds_inout(ops: Seq<TranscriptOp>, label: Seq<char>, io: InOut) -> bool {
    holds_point(ops, label, io.input) && holds_point(ops, label, io.preoutput)
}

/// What a history holds, it still holds after one more operation.
proof fn lemma_push_keeps(ops: Seq<TranscriptOp>, op: TranscriptOp, held: TranscriptOp)
    requires
        ops.contains(held),
    ensures
        ops.push(op).contains(held),
{
    let i = choose|i: int| 0 <= i < ops.len() && ops[i] == held;
    assert(ops.push(op)[i] == held);
}

/// What is pushed onto a history, the history holds.
proof fn lemma_push_holds(ops: Seq<TranscriptOp>, op: TranscriptOp)
    ensures
        ops.push(op).contains(op),
{
    assert(ops.push(op)[ops.len() as int] == op);
}

/// Appending a pair keeps what the history held, and makes it hold the pair.
proof fn lemma_after_inout_holds(ops: Seq<TranscriptOp>, label: Seq<char>, io: InOut)
    ensures
        holds_inout(after_inout(ops, label, io), label, io),
        forall|held: TranscriptOp|
            ops.contains(held) ==> #[trigger] after_inout(ops, label, io).contains(held),
{
    let input = TranscriptOp::Message { label, data: point_encoding(io.input) };
    let preoutput = TranscriptOp::Message { label, data: point_encoding(io.preoutput) };
    lemma_push_holds(ops, input);
    lemma_push_keeps(ops.push(input), preoutput, input);
    lemma_push_holds(ops.push(input), preoutput);
    assert forall|held: TranscriptOp| ops.contains(held) implies #[trigger] after_inout(
        ops,
        label,
        io,
    ).contains(held) by {
        lemma_push_keeps(ops, input, held);
        lemma_push_keeps(ops.push(input), preoutput, held);
    }
}

/// Appending pairs keeps what the history held, and makes it hold each of the pairs.
proof fn lemma_after_inouts_holds(
    ops: Seq<TranscriptOp>,
    label: Seq<char>,
    ios: Seq<InOut>,
    n: nat,
)
    requires
        n <= ios.len(),
    ensures
        forall|j: int|
            0 <= j < n ==> holds_inout(
                after_inouts(ops, label, ios, n),
                label,
                #[trigger] ios[j],
            ),
        forall|held: TranscriptOp|
            ops.contains(held) ==> #[trigger] after_inouts(ops, label, ios, n).contains(held),
    decreases n,
{
    if n > 0 {
        let before = after_inouts(ops, label, ios, (n - 1) as nat);
        lemma_after_inouts_holds(ops, label, ios, (n - 1) as nat);
        lemma_after_inout_holds(before, label, ios[n - 1]);
    }
}

/// Drawing challenges keeps what the history held.
proof fn lemma_after_challenges_keeps(ops: Seq<TranscriptOp>, label: Seq<char>, n: nat)
    ensures
        forall|held: TranscriptOp|
            ops.contains(held) ==> #[trigger] after_challenges(ops, label, n).contains(held),
    decreases n,
{
    if n > 0 {
        let before = after_challenges(ops, label, (n - 1) as nat);
        lemma_after_challenges_keeps(ops, label, (n - 1) as nat);
        assert forall|held: TranscriptOp| ops.contains(held) implies #[trigger] after_challenges(
            ops,
            label,
            n,
        ).contains(held) by {
            lemma_push_keeps(
                before,
                TranscriptOp::Challenge { label, len: scalar_seed_len() },
                held,
            );
        }
    }
}

/// Commit, then challenge: every coefficient of the linear combination is drawn from a
/// history that already holds the key's pair and every one of the pairs, so that no pair
/// can be chosen with a coefficient in view.
pub proof fn lemma_coefficients_follow_commitment(
    ops: Seq<TranscriptOp>,
    key: InOut,
    ios: Seq<InOut>,
    i: nat,
    j: int,
)
    requires
        i < ios.len(),
        0 <= j < ios.len(),
    ensures
        ({
            let drawn_from = after_challenges(
                merge_commitment(ops, key, ios),
                delinearize_label(),
                i,
            );
            &&& delinearize_coefficient(merge_commitment(ops, key, ios), i) == challenge_scalar(
                drawn_from,
                delinearize_label(),
            )
            &&& holds_inout(drawn_from, "PublicKey"@, key)
            &&& holds_inout(drawn_from, "VrfInOut"@, ios[j])
        }),
{
    let with_key = after_inout(ops, "PublicKey"@, key);
    let counted = with_key.push(
        TranscriptOp::Message {
            label: "IOs"@,
            data: vstd::bytes::spec_u64_to_le_bytes(ios.len() as u64),
        },
    );
    let committed = merge_commitment(ops, key, ios);
    lemma_after_inout_holds(ops, "PublicKey"@, key);
    lemma_push_keeps(
        with_key,
        TranscriptOp::Message {
            label: "IOs"@,
            data: vstd::bytes::spec_u64_to_le_bytes(ios.len() as u64),
        },
        TranscriptOp::Message { label: "PublicKey"@, data: point_encoding(key.input) },
    );
    lemma_push_keeps(
        with_key,
        TranscriptOp::Message {
            label: "IOs"@,
            data: vstd::bytes::spec_u64_to_le_bytes(ios.len() as u64),
        },
        TranscriptOp::Message { label: "PublicKey"@, data: point_encoding(key.preoutput) },
    );
    lemma_after_inouts_holds(counted, "VrfInOut"@, ios, ios.len());
    assert(holds_inout(committed, "VrfInOut"@, ios[j]));
    assert(holds_inout(committed, "PublicKey"@, key));
    lemma_after_challenges_keeps(committed, delinearize_label(), i);
}

/// The Schnorr signature that the holder of `secret` makes on a transcript with the history
/// `ops`: the key's pair is appended, the nonce `k` is committed to as `k * keying_base`,
/// and the response is `k + c * key`.
pub open spec fn schnorr_signature(
    ops: Seq<TranscriptOp>,
    secret: SecretKeyModel,
    entropy: Seq<u8>,
) -> ThinSignatureModel {
    let ops = after_inout(ops, "PublicKey"@, schnorr_inout(secret.keying_base, secret.public));
    let k = thin_witness_scalar(ops, secret.nonce_seed, entropy);
    let r = group_mul(secret.keying_base, k);
    ThinSignatureModel { r, s: schnorr_response(k, thin_challenge(ops, r), secret.key) }
}

/// Whether a Schnorr signature is accepted for `public`: whether `s * keying_base` equals
/// `r + c * public` up to the cofactor.
pub open spec fn schnorr_verifies(
    ops: Seq<TranscriptOp>,
    keying_base: Coordinates,
    public: Coordinates,
    signature: ThinSignatureModel,
) -> bool {
    let ops = after_inout(ops, "PublicKey"@, schnorr_inout(keying_base, public));
    equal_mod_cofactor(
        group_mul(keying_base, signature.s),
        group_add(signature.r, group_mul(public, thin_challenge(ops, signature.r))),
    )
}

/// With no pairs, the Thin VRF is a Schnorr signature over the public key alone: signing
/// gives the same signature, and verification accepts the same signatures.
pub proof fn lemma_thin_without_pairs_is_schnorr(
    ops: Seq<TranscriptOp>,
    secret: SecretKeyModel,
    entropy: Seq<u8>,
    public: Coordinates,
    signature: ThinSignatureModel,
)
    ensures
        thin_signature(ops, secret, Seq::empty(), entropy) == schnorr_signature(
            ops,
            secret,
            entropy,
        ),
        thin_verifies(ops, secret.keying_base, public, Seq::empty(), signature)
            == schnorr_verifies(ops, secret.keying_base, public, signature),
{
}

/// Expanding a seed is a function of the seed: the same seed gives the same secret key and
/// with it the same public key.
pub proof fn lemma_from_seed_deterministic(
    keying_base: Coordinates,
    seed1: Seq<u8>,
    seed2: Seq<u8>,
)
    requires
        seed1 =~= seed2,
    ensures
        secret_from_seed(keying_base, seed1) == secret_from_seed(keying_base, seed2),
        secret_from_seed(keying_base, seed1).public == group_mul(
            keying_base,
            secret_from_seed(keying_base, seed1).key,
        ),
{
}

} // verus!
