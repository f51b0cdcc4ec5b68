//! Scalars: integers modulo the order of the prime-order subgroup.

use vstd::prelude::*;
use ark_ed_on_bls12_381_bandersnatch::Fr;
use ark_ff::{BigInt, PrimeField};
use crate::uint::{le_bytes_value, limbs_equal, limbs_less, limbs_value};

verus! {

/// The order of the prime-order subgroup, which is the modulus of the scalar field.
pub open spec fn group_order() -> nat {
    13108968793781547619861935127046491459309155893440570251786403306729687672801nat
}

/// The limbs of the group order.
fn order_limbs() -> (r: [u64; 4])
    ensures
        limbs_value(r@) == group_order(),
{
    [0x74fd06b52876e7e1u64, 0xff8f870074190471u64, 0x0cce760202687600u64, 0x1cfb69d4ca675f52u64]
}

/// A scalar, held as the limbs of its least non-negative representative.
#[derive(Clone, Copy, Debug, PartialEq, Eq)]
pub struct Scalar {
    limbs: [u64; 4],
}

impl View for Scalar {
    type V = nat;

    closed spec fn view(&self) -> nat {
        limbs_value(self.limbs@)
    }
}

impl Scalar {
    /// Every scalar is reduced: its value lies below the group order.
    #[verifier::type_invariant]
    pub open spec fn wf(&self) -> bool {
        self@ < group_order()
    }

    /// The scalar that `limbs` spell, if that number is below the group order.
    pub fn from_limbs(limbs: [u64; 4]) -> (r: Option<Scalar>)
        ensures
            r is Some <==> limbs_value(limbs@) < group_order(),
            r is Some ==> r->Some_0@ == limbs_value(limbs@),
    {
        let order = order_limbs();
        if limbs_less(&limbs, &order) {
            Some(Scalar { limbs })
        } else {
            None
        }
    }

    /// The limbs of the scalar's value, least significant first.
    pub fn to_limbs(&self) -> (r: [u64; 4])
        ensures
            limbs_value(r@) == self@,
    {
        self.limbs
    }

    /// The scalar with the value `x`.
    pub fn from_u64(x: u64) -> (r: Scalar)
        ensures
            r@ == x,
    {
        let limbs: [u64; 4] = [x, 0, 0, 0];
        Scalar { limbs }
    }

    /// The scalar congruent to the number that `bytes` spell, least significant byte first.
    pub fn from_le_bytes_mod_order(bytes: &[u8]) -> (r: Scalar)
        ensures
            r@ == le_bytes_value(bytes@) % group_order(),
    {
        let limbs = fr_from_le_bytes_mod_order(bytes);
        Scalar { limbs }
    }

    /// The sum of two scalars.
    pub fn add(&self, other: &Scalar) -> (r: Scalar)
        ensures
            r@ == (self@ + other@) % group_order(),
    {
        proof {
            use_type_invariant(self);
            use_type_invariant(other);
        }
        let limbs = fr_add(&self.limbs, &other.limbs);
        Scalar { limbs }
    }

    /// The product of two scalars.
    pub fn mul(&self, other: &Scalar) -> (r: Scalar)
        ensures
            r@ == (self@ * other@) % group_order(),
    {
        proof {
            use_type_invariant(self);
            use_type_invariant(other);
        }
        let limbs = fr_mul(&self.limbs, &other.limbs);
        Scalar { limbs }
    }

    /// Whether two scalars have the same value.
    pub fn equals(&self, other: &Scalar) -> (r: bool)
        ensures
            r == (self@ == other@),
    {
        limbs_equal(&self.limbs, &other.limbs)
    }
}

/// `Fr`'s addition, on canonical limbs: the sum of the two values, reduced by the group order.
#[verifier::external_body]
fn fr_add(a: &[u64; 4], b: &[u64; 4]) -> (r: [u64; 4])
    requires
        limbs_value(a@) < group_order(),
        limbs_value(b@) < group_order(),
    ensures
        limbs_value(r@) == (limbs_value(a@) + limbs_value(b@)) % group_order(),
{
    (Fr::from(BigInt::new(*a)) + Fr::from(BigInt::new(*b))).into_bigint().0
}

/// `Fr`'s multiplication, on canonical limbs: the product of the two values, reduced by the
/// group order.
#[verifier::external_body]
fn fr_mul(a: &[u64; 4], b: &[u64; 4]) -> (r: [u64; 4])
    requires
        limbs_value(a@) < group_order(),
        limbs_value(b@) < group_order(),
    ensures
        limbs_value(r@) == (limbs_value(a@) * limbs_value(b@)) % group_order(),
{
    (Fr::from(BigInt::new(*a)) * Fr::from(BigInt::new(*b))).into_bigint().0
}

/// `PrimeField::from_le_bytes_mod_order` for `Fr`: the bytes are read as a little-endian
/// integer of any length, and the result is that integer reduced by the group order.
#[verifier::external_body]
fn fr_from_le_bytes_mod_order(bytes: &[u8]) -> (r: [u64; 4])
    ensures
        limbs_value(r@) == le_bytes_value(bytes@) % group_order(),
{
    Fr::from_le_bytes_mod_order(bytes).into_bigint().0
}

} // verus!
