//! Trusted interface to the Edwards BLS12 group of `snarkvm-curves` and to
//! the hash-to-curve primitive of `snarkvm-algorithms`.
//!
//! The group is opaque to the verifier: a [`Point`] carries the outside
//! crate's projective representation, and every group operation the library
//! performs is named by an uninterpreted function of the representations it
//! acts on.  Every operation named here is deterministic in the outside
//! crate: each computes its result from the argument coordinates alone.

use vstd::prelude::*;

use snarkvm_curves::edwards_bls12::{EdwardsAffine, EdwardsProjective, Fq};
use snarkvm_curves::traits::{AffineCurve, ProjectiveCurve};
use snarkvm_fields::Zero;

verus! {

#[verifier::external_type_specification]
#[verifier::external_body]
#[verifier::reject_recursive_types(P)]
pub struct ExFp256<P>(snarkvm_fields::Fp256<P>);

#[verifier::external_type_specification]
#[verifier::external_body]
pub struct ExFqParameters(snarkvm_curves::edwards_bls12::FqParameters);

/// A point of the Edwards BLS12 group, in the projective representation of
/// `snarkvm-curves`.  Opaque to the verifier: the trusted operations in this
/// module are the only handles the library has on its value.
#[verifier::external_body]
pub struct Point {
    inner: EdwardsProjective,
}

impl Clone for Point {
    /// Relies on `Copy` of the underlying projective point: a clone carries
    /// the same representation.
    #[verifier::external_body]
    fn clone(&self) -> (r: Self)
        ensures
            r == *self,
    {
        Point { inner: self.inner }
    }
}

/// The point that a single hash-to-curve attempt derives from a message,
/// if that attempt yields a valid subgroup generator.
pub uninterp spec fn try_point_for(message: Seq<char>) -> Option<Point>;

/// The representation that the unified twisted-Edwards addition produces
/// from two point representations.
pub uninterp spec fn add_of(a: Point, b: Point) -> Point;

/// The representation that negation produces from a point representation.
pub uninterp spec fn neg_of(a: Point) -> Point;

/// The representation of the additive identity; the argument is immaterial,
/// the identity having a single fixed representation.
pub uninterp spec fn identity_point(tag: int) -> Point;

/// The affine x-coordinate determined by a projective point.
pub uninterp spec fn x_coordinate(p: Point) -> Fq;

/// Relies on `snarkvm_algorithms::hash_to_curve::try_hash_to_curve`: one
/// Blake2Xs-based attempt to derive a generator from a message, computed
/// from the message bytes alone.
#[verifier::external_body]
pub(crate) fn try_hash_to_group(message: &str) -> (r: Option<Point>)
    ensures
        r == try_point_for(message@),
{
    match snarkvm_algorithms::hash_to_curve::try_hash_to_curve::<EdwardsAffine>(message) {
        Some(g) => Some(Point { inner: g.into_projective() }),
        None => None,
    }
}

/// Relies on `AddAssign` for projective points in `snarkvm-curves`: the
/// unified twisted-Edwards addition, computed from the two coordinate
/// representations alone.
#[verifier::external_body]
pub(crate) fn add_points(a: &Point, b: &Point) -> (r: Point)
    ensures
        r == add_of(*a, *b),
{
    let mut c = a.inner;
    c += &b.inner;
    Point { inner: c }
}

/// Relies on `Neg` for projective points in `snarkvm-curves`: negates the
/// x and t coordinates and keeps the others.
#[verifier::external_body]
pub(crate) fn neg_point(a: &Point) -> (r: Point)
    ensures
        r == neg_of(*a),
{
    Point { inner: -a.inner }
}

/// Relies on `Zero::zero` for projective points in `snarkvm-curves`: the
/// identity's one fixed representation (0, 1, 0, 1).
#[verifier::external_body]
pub(crate) fn identity() -> (r: Point)
    ensures
        r == identity_point(0),
{
    Point { inner: EdwardsProjective::zero() }
}

impl Point {
    /// Relies on `ProjectiveCurve::into_affine` and
    /// `AffineCurve::to_x_coordinate` in `snarkvm-curves`: the affine
    /// x-coordinate, computed from the projective coordinates alone.
    #[verifier::external_body]
    pub fn to_x_coordinate(&self) -> (r: Fq)
        ensures
            r == x_coordinate(*self),
    {
        self.inner.into_affine().to_x_coordinate()
    }
}

/// One application of the group addition to a point and itself: how the
/// outside crate doubles a projective point.
pub open spec fn double_of(p: Point) -> Point {
    add_of(p, p)
}

/// Four successive doublings: multiplication by sixteen.
pub open spec fn times_sixteen(p: Point) -> Point {
    double_of(double_of(double_of(double_of(p))))
}

/// The `j`-th point of a window: the window's base multiplied by `16^j`.
pub open spec fn generator_at(base: Point, j: nat) -> Point
    decreases j,
{
    if j == 0 {
        base
    } else {
        times_sixteen(generator_at(base, (j - 1) as nat))
    }
}

/// The Bowe–Hopwood encoding of the three-bit chunk `(c0, c1, c2)` over the
/// base point `g`: `sign(c2) * (g + c0*g + c1*2g)`.
pub open spec fn chunk_encoding(g: Point, c0: bool, c1: bool, c2: bool) -> Point {
    let e1 = if c0 {
        add_of(g, g)
    } else {
        g
    };
    let e2 = if c1 {
        add_of(e1, double_of(g))
    } else {
        e1
    };
    if c2 {
        neg_of(e2)
    } else {
        e2
    }
}

/// The chunk encoding stored in table slot `k`, whose three low bits select
/// the chunk `(c0, c1, c2)`.
pub open spec fn chunk_encoding_at(g: Point, k: int) -> Point {
    chunk_encoding(g, k % 2 == 1, (k / 2) % 2 == 1, (k / 4) % 2 == 1)
}

/// Left-to-right sum of a sequence of points, starting from the identity.
pub open spec fn sum_points(s: Seq<Point>) -> Point
    decreases s.len(),
{
    if s.len() == 0 {
        identity_point(0)
    } else {
        add_of(sum_points(s.drop_last()), s.last())
    }
}

} // verus!
