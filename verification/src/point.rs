//! Points of the prime-order subgroup of the curve, in affine coordinates.

use vstd::prelude::*;
use ark_ec::{AffineRepr, CurveGroup};
use ark_ed_on_bls12_381_bandersnatch::{EdwardsAffine, Fq};
use ark_ff::{BigInt, PrimeField};
use ark_serialize::{CanonicalDeserialize, CanonicalSerialize, Valid};
use ark_std::rand::{rngs::StdRng, SeedableRng};
use ark_std::UniformRand;
use crate::scalar::Scalar;
use crate::uint::{limbs_equal, limbs_less, limbs_value};

verus! {

/// The affine coordinates of a point, each the least non-negative representative of a
/// base-field element.
pub struct Coordinates {
    pub x: nat,
    pub y: nat,
}

/// The modulus of the base field.
pub open spec fn base_modulus() -> nat {
    52435875175126190479447740508185965837690552500527637822603658699938581184513nat
}

/// The cofactor: the order of the curve's group divided by the order of the prime-order
/// subgroup.
pub open spec fn cofactor() -> nat {
    4
}

/// The neutral element of the group.
pub open spec fn identity_point() -> Coordinates {
    Coordinates { x: 0, y: 1 }
}

/// The generator of the prime-order subgroup.
pub open spec fn generator_point() -> Coordinates {
    Coordinates {
        x: 18886178867200960497001835917649091219057080094937609519140440539760939937304nat,
        y: 19188667384257783945677642223292697773471335439753913231509108946878080696678nat,
    }
}

/// The inverse of a point: the first coordinate is negated in the base field.
pub open spec fn group_neg(p: Coordinates) -> Coordinates {
    Coordinates { x: ((base_modulus() - p.x) % (base_modulus() as int)) as nat, y: p.y }
}

/// Whether `p` lies on the curve and in its prime-order subgroup: what `ark-ec` finds when
/// it validates the affine point with these coordinates.
pub uninterp spec fn valid_point(p: Coordinates) -> bool;

/// The sum of two points of the prime-order subgroup: what `ark-ec` returns, in affine
/// coordinates, when it adds them.
pub uninterp spec fn group_add(p: Coordinates, q: Coordinates) -> Coordinates;

/// The point `p` of the prime-order subgroup added to itself `n` times: what `ark-ec`
/// returns, in affine coordinates, when it multiplies `p` by the integer `n`.
pub uninterp spec fn group_mul(p: Coordinates, n: nat) -> Coordinates;

/// The canonical compressed encoding of a point: the bytes that `ark-serialize` writes for
/// it.
pub uninterp spec fn point_encoding(p: Coordinates) -> Seq<u8>;

/// The point that a byte string decodes to: what `ark-serialize` reads from it when it
/// expects a compressed point and validates what it read.
pub uninterp spec fn point_decoding(bytes: Seq<u8>) -> Option<Coordinates>;

/// The point that `ark-ec` samples from the standard random number generator of `rand`
/// seeded with `seed`.
pub uninterp spec fn seeded_point(seed: Seq<u8>) -> Coordinates;

/// The difference of two points.
pub open spec fn group_sub(p: Coordinates, q: Coordinates) -> Coordinates {
    group_add(p, group_neg(q))
}

/// Whether two points differ by an element of the small subgroup that the cofactor
/// annihilates.
pub open spec fn equal_mod_cofactor(p: Coordinates, q: Coordinates) -> bool {
    group_mul(group_sub(p, q), cofactor()) == identity_point()
}

/// The limbs of the base field's modulus.
fn base_modulus_limbs() -> (r: [u64; 4])
    ensures
        limbs_value(r@) == base_modulus(),
{
    [0xffffffff00000001u64, 0x53bda402fffe5bfeu64, 0x3339d80809a1d805u64, 0x73eda753299d7d48u64]
}

/// A point of the prime-order subgroup, held as the limbs of its affine coordinates.
#[derive(Clone, Copy, Debug, PartialEq, Eq)]
pub struct Point {
    x: [u64; 4],
    y: [u64; 4],
}

impl View for Point {
    type V = Coordinates;

    closed spec fn view(&self) -> Coordinates {
        Coordinates { x: limbs_value(self.x@), y: limbs_value(self.y@) }
    }
}

impl Point {
    /// Every point has reduced coordinates and lies in the prime-order subgroup.
    #[verifier::type_invariant]
    pub open spec fn wf(&self) -> bool {
        &&& self@.x < base_modulus()
        &&& self@.y < base_modulus()
        &&& valid_point(self@)
    }

    /// The generator of the prime-order subgroup.
    pub fn generator() -> (r: Point)
        ensures
            r@ == generator_point(),
    {
        te_generator()
    }

    /// The point with the coordinates that `x` and `y` spell, if they are reduced and the
    /// point lies in the prime-order subgroup.
    pub fn from_coordinates(x: [u64; 4], y: [u64; 4]) -> (r: Option<Point>)
        ensures
            r is Some <==> {
                &&& limbs_value(x@) < base_modulus()
                &&& limbs_value(y@) < base_modulus()
                &&& valid_point(Coordinates { x: limbs_value(x@), y: limbs_value(y@) })
            },
            r is Some ==> r->Some_0@ == (Coordinates { x: limbs_value(x@), y: limbs_value(y@) }),
    {
        let q = base_modulus_limbs();
        if limbs_less(&x, &q) && limbs_less(&y, &q) && te_is_valid(&x, &y) {
            Some(Point { x, y })
        } else {
            None
        }
    }

    /// The limbs of the two coordinates, least significant first.
    pub fn coordinates(&self) -> (r: ([u64; 4], [u64; 4]))
        ensures
            limbs_value(r.0@) == self@.x,
            limbs_value(r.1@) == self@.y,
    {
        (self.x, self.y)
    }

    /// The sum of two points.
    pub fn add(&self, other: &Point) -> (r: Point)
        ensures
            r@ == group_add(self@, other@),
    {
        proof {
            use_type_invariant(self);
            use_type_invariant(other);
        }
        te_add(self, other)
    }

    /// The inverse of a point.
    pub fn neg(&self) -> (r: Point)
        ensures
            r@ == group_neg(self@),
    {
        proof {
            use_type_invariant(self);
        }
        te_neg(self)
    }

    /// The difference of two points.
    pub fn sub(&self, other: &Point) -> (r: Point)
        ensures
            r@ == group_sub(self@, other@),
    {
        let minus = other.neg();
        self.add(&minus)
    }

    /// The point multiplied by a scalar.
    pub fn mul(&self, scalar: &Scalar) -> (r: Point)
        ensures
            r@ == group_mul(self@, scalar@),
    {
        proof {
            use_type_invariant(self);
        }
        let n = scalar.to_limbs();
        te_mul_bigint(self, &n)
    }

    /// The point multiplied by the cofactor.
    pub fn mul_by_cofactor(&self) -> (r: Point)
        ensures
            r@ == group_mul(self@, cofactor()),
    {
        proof {
            use_type_invariant(self);
        }
        let n: [u64; 4] = [4, 0, 0, 0];
        te_mul_bigint(self, &n)
    }

    /// Whether the point is the neutral element.
    pub fn is_identity(&self) -> (r: bool)
        ensures
            r == (self@ == identity_point()),
    {
        let zero: [u64; 4] = [0, 0, 0, 0];
        let one: [u64; 4] = [1, 0, 0, 0];
        limbs_equal(&self.x, &zero) && limbs_equal(&self.y, &one)
    }

    /// Whether two points are the same.
    pub fn equals(&self, other: &Point) -> (r: bool)
        ensures
            r == (self@ == other@),
    {
        limbs_equal(&self.x, &other.x) && limbs_equal(&self.y, &other.y)
    }

    /// Whether two points are equal up to the small subgroup that the cofactor annihilates.
    pub fn eq_mod_small_cofactor(&self, other: &Point) -> (r: bool)
        ensures
            r == equal_mod_cofactor(self@, other@),
    {
        self.sub(other).mul_by_cofactor().is_identity()
    }

    /// The canonical compressed encoding of the point: 32 bytes.
    pub fn to_bytes(&self) -> (r: Vec<u8>)
        ensures
            r@ == point_encoding(self@),
            r@.len() == 32,
    {
        proof {
            use_type_invariant(self);
        }
        te_encode(self)
    }

    /// The point that `bytes` encode, if they encode one of the prime-order subgroup.
    pub fn from_bytes(bytes: &[u8]) -> (r: Option<Point>)
        ensures
            match r {
                Some(p) => point_decoding(bytes@) == Some(p@),
                None => point_decoding(bytes@) is None,
            },
    {
        te_decode(bytes)
    }

    /// The point that uniform sampling yields from a generator seeded with `seed`.
    pub fn from_seed(seed: &[u8; 32]) -> (r: Point)
        ensures
            r@ == seeded_point(seed@),
    {
        te_from_seed(seed)
    }
}

/// `AffineRepr::generator` for the twisted Edwards form: the constant that the curve's
/// configuration documents as the generator of the prime-order subgroup.
#[verifier::external_body]
fn te_generator() -> (r: Point)
    ensures
        r@ == generator_point(),
        r.wf(),
{
    let g = EdwardsAffine::generator();
    Point { x: g.x.into_bigint().0, y: g.y.into_bigint().0 }
}

/// `Valid::check` on the affine point with the given coordinates: it accepts exactly the
/// points that are on the curve and in the prime-order subgroup.
#[verifier::external_body]
fn te_is_valid(x: &[u64; 4], y: &[u64; 4]) -> (r: bool)
    requires
        limbs_value(x@) < base_modulus(),
        limbs_value(y@) < base_modulus(),
    ensures
        r == valid_point(Coordinates { x: limbs_value(x@), y: limbs_value(y@) }),
{
    let p = EdwardsAffine::new_unchecked(Fq::from(BigInt::new(*x)), Fq::from(BigInt::new(*y)));
    p.check().is_ok()
}

/// Addition of two affine points, normalised by `into_affine`. The sum of two points of the
/// prime-order subgroup lies in it again.
#[verifier::external_body]
fn te_add(p: &Point, q: &Point) -> (r: Point)
    requires
        p.wf(),
        q.wf(),
    ensures
        r@ == group_add(p@, q@),
        r.wf(),
{
    let a = EdwardsAffine::new_unchecked(Fq::from(BigInt::new(p.x)), Fq::from(BigInt::new(p.y)));
    let b = EdwardsAffine::new_unchecked(Fq::from(BigInt::new(q.x)), Fq::from(BigInt::new(q.y)));
    let c = (a + b).into_affine();
    Point { x: c.x.into_bigint().0, y: c.y.into_bigint().0 }
}

/// Negation of an affine point, which negates its first coordinate in the base field. The
/// inverse of a point of the prime-order subgroup lies in it again.
#[verifier::external_body]
fn te_neg(p: &Point) -> (r: Point)
    requires
        p.wf(),
    ensures
        r@ == group_neg(p@),
        r.wf(),
{
    let a = -EdwardsAffine::new_unchecked(Fq::from(BigInt::new(p.x)), Fq::from(BigInt::new(p.y)));
    Point { x: a.x.into_bigint().0, y: a.y.into_bigint().0 }
}

/// `AffineRepr::mul_bigint`, normalised by `into_affine`: the point added to itself as many
/// times as the limbs `n` spell. A multiple of a point of the prime-order subgroup lies in
/// it again.
#[verifier::external_body]
fn te_mul_bigint(p: &Point, n: &[u64; 4]) -> (r: Point)
    requires
        p.wf(),
    ensures
        r@ == group_mul(p@, limbs_value(n@)),
        r.wf(),
{
    let a = EdwardsAffine::new_unchecked(Fq::from(BigInt::new(p.x)), Fq::from(BigInt::new(p.y)));
    let c = a.mul_bigint(BigInt::new(*n)).into_affine();
    Point { x: c.x.into_bigint().0, y: c.y.into_bigint().0 }
}

/// `CanonicalSerialize::serialize_compressed` into a fresh vector. The compressed size of a
/// point of this curve is 32 bytes.
#[verifier::external_body]
fn te_encode(p: &Point) -> (r: Vec<u8>)
    requires
        p.wf(),
    ensures
        r@ == point_encoding(p@),
        r@.len() == 32,
{
    let a = EdwardsAffine::new_unchecked(Fq::from(BigInt::new(p.x)), Fq::from(BigInt::new(p.y)));
    let mut out = Vec::new();
    a.serialize_compressed(&mut out).unwrap();
    out
}

/// `CanonicalDeserialize::deserialize_compressed`, which validates: what it accepts is on the
/// curve and in the prime-order subgroup.
#[verifier::external_body]
fn te_decode(bytes: &[u8]) -> (r: Option<Point>)
    ensures
        match r {
            Some(p) => point_decoding(bytes@) == Some(p@) && p.wf(),
            None => point_decoding(bytes@) is None,
        },
{
    match EdwardsAffine::deserialize_compressed(bytes) {
        Ok(a) => Some(Point { x: a.x.into_bigint().0, y: a.y.into_bigint().0 }),
        Err(_) => None,
    }
}

/// `UniformRand::rand` on the standard generator seeded with `seed`. Sampling ends by
/// multiplying with the cofactor, so the result lies in the prime-order subgroup.
#[verifier::external_body]
fn te_from_seed(seed: &[u8; 32]) -> (r: Point)
    ensures
        r@ == seeded_point(seed@),
        r.wf(),
{
    let a = EdwardsAffine::rand(&mut StdRng::from_seed(*seed));
    Point { x: a.x.into_bigint().0, y: a.y.into_bigint().0 }
}

} // verus!
