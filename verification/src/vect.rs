//! Exact two-dimensional vectors.
//!
//! `Vect` is the value type that every point, velocity and force field of
//! the simulation is expressed in. Coordinates are exact 64-bit integers,
//! so every operation here is specified precisely by integer arithmetic;
//! `IntVect` is the unbounded mathematical counterpart that the contracts
//! and the algebraic lemmas are stated over.

use vstd::arithmetic::div_mod::{lemma_fundamental_div_mod, lemma_fundamental_div_mod_converse};
use vstd::prelude::*;

verus! {

/// Largest coordinate magnitude the arithmetic operations are specified
/// for. With both operands bounded by this, every intermediate product and
/// sum of the vector operations fits in an `i64`.
pub const COORD_LIMIT: i64 = 0x4000_0000;

/// Mathematical (unbounded) two-dimensional vector; the model that `Vect`
/// abstracts to and that the algebraic laws are stated over.
#[verifier::ext_equal]
pub struct IntVect {
    pub x: int,
    pub y: int,
}

impl IntVect {
    /// Componentwise sum.
    pub open spec fn plus(self, o: IntVect) -> IntVect {
        IntVect { x: self.x + o.x, y: self.y + o.y }
    }

    /// Dot product.
    pub open spec fn dot(self, rhs: IntVect) -> int {
        self.x * rhs.x + self.y * rhs.y
    }

    /// Magnitude of the z component of the three-dimensional cross product.
    pub open spec fn cross(self, rhs: IntVect) -> int {
        self.x * rhs.y - self.y * rhs.x
    }

    /// Rotation by a quarter turn counter-clockwise.
    pub open spec fn perp(self) -> IntVect {
        IntVect { x: -self.y, y: self.x }
    }

    /// Rotation by a quarter turn clockwise.
    pub open spec fn rperp(self) -> IntVect {
        IntVect { x: self.y, y: -self.x }
    }

    /// Complex-number rotation of `self` by `rotation`.
    pub open spec fn rotate(self, rotation: IntVect) -> IntVect {
        IntVect {
            x: self.x * rotation.x - self.y * rotation.y,
            y: self.x * rotation.y + self.y * rotation.x,
        }
    }

    /// Inverse of `rotate`: rotation of `self` by the conjugate of `rotation`.
    pub open spec fn unrotate(self, rotation: IntVect) -> IntVect {
        IntVect {
            x: self.x * rotation.x + self.y * rotation.y,
            y: self.y * rotation.x - self.x * rotation.y,
        }
    }

    /// Squared Euclidean length.
    pub open spec fn len_sq(self) -> int {
        self.dot(self)
    }

    /// A unit vector for the purposes of rotation: squared length one.
    pub open spec fn is_unit(self) -> bool {
        self.len_sq() == 1
    }
}

/// A product of two factors bounded by `l` in magnitude is bounded by `l * l`.
pub proof fn lemma_prod_bound(a: int, b: int, l: int)
    by (nonlinear_arith)
    requires
        -l <= a <= l,
        -l <= b <= l,
    ensures
        -(l * l) <= a * b <= l * l,
{
}

/// Whatever the turn count, `unit_for_turns` is a unit vector with both
/// components in `-1 ..= 1`.
pub proof fn lemma_unit_for_turns_bounds(t: int)
    ensures
        unit_for_turns(t).is_unit(),
        -1 <= unit_for_turns(t).x <= 1,
        -1 <= unit_for_turns(t).y <= 1,
{
    let u = unit_for_turns(t);
    assert((u.x == 1 && u.y == 0) || (u.x == 0 && u.y == 1) || (u.x == -1 && u.y == 0) || (u.x == 0
        && u.y == -1));
    assert(u.x * u.x + u.y * u.y == 1) by (nonlinear_arith)
        requires
            (u.x == 1 && u.y == 0) || (u.x == 0 && u.y == 1) || (u.x == -1 && u.y == 0) || (u.x == 0
                && u.y == -1),
    ;
}

/// `r` is the integer square root of `n`: the greatest integer whose square
/// does not exceed `n`.
pub open spec fn is_sqrt_of(n: int, r: int) -> bool {
    r >= 0 && r * r <= n < (r + 1) * (r + 1)
}

/// The unit vector reached from `(1, 0)` after `turns` counter-clockwise
/// quarter turns; the orientation that an angle denotes in the exact
/// integer coordinate model.
pub open spec fn unit_for_turns(turns: int) -> IntVect {
    let q = turns % 4;
    if q == 0 {
        IntVect { x: 1, y: 0 }
    } else if q == 1 {
        IntVect { x: 0, y: 1 }
    } else if q == 2 {
        IntVect { x: -1, y: 0 }
    } else {
        IntVect { x: 0, y: -1 }
    }
}

/// An exact two-dimensional vector with 64-bit integer coordinates.
#[derive(Clone, Copy, PartialEq, Eq, Structural, Debug)]
pub struct Vect {
    pub x: i64,
    pub y: i64,
}

impl View for Vect {
    type V = IntVect;

    open spec fn view(&self) -> IntVect {
        IntVect { x: self.x as int, y: self.y as int }
    }
}

impl Vect {
    /// Both coordinates within `COORD_LIMIT`; the precondition of the
    /// arithmetic operations.
    pub open spec fn in_range(self) -> bool {
        -(COORD_LIMIT as int) <= self.x as int <= COORD_LIMIT as int
            && -(COORD_LIMIT as int) <= self.y as int <= COORD_LIMIT as int
    }

    /// Convenience constructor.
    pub fn new(x: i64, y: i64) -> (r: Vect)
        ensures
            r.x == x,
            r.y == y,
    {
        Vect { x, y }
    }

    /// The zero vector.
    pub fn zero() -> (r: Vect)
        ensures
            r.x == 0,
            r.y == 0,
    {
        Vect { x: 0, y: 0 }
    }

    pub fn x(&self) -> (r: i64)
        ensures
            r == self.x,
    {
        self.x
    }

    pub fn set_x(&mut self, x: i64)
        ensures
            final(self).x == x,
            final(self).y == old(self).y,
    {
        self.x = x;
    }

    pub fn y(&self) -> (r: i64)
        ensures
            r == self.y,
    {
        self.y
    }

    pub fn set_y(&mut self, y: i64)
        ensures
            final(self).x == old(self).x,
            final(self).y == y,
    {
        self.y = y;
    }

    /// Vector dot product.
    pub fn dot(self, rhs: Vect) -> (r: i64)
        requires
            self.in_range(),
            rhs.in_range(),
        ensures
            r == self@.dot(rhs@),
    {
        proof {
            lemma_prod_bound(self.x as int, rhs.x as int, COORD_LIMIT as int);
            lemma_prod_bound(self.y as int, rhs.y as int, COORD_LIMIT as int);
        }
        self.x * rhs.x + self.y * rhs.y
    }

    /// 2D vector cross product analog: the magnitude of the z component of
    /// the three-dimensional cross product.
    pub fn cross(self, rhs: Vect) -> (r: i64)
        requires
            self.in_range(),
            rhs.in_range(),
        ensures
            r == self@.cross(rhs@),
    {
        proof {
            lemma_prod_bound(self.x as int, rhs.y as int, COORD_LIMIT as int);
            lemma_prod_bound(self.y as int, rhs.x as int, COORD_LIMIT as int);
        }
        self.x * rhs.y - self.y * rhs.x
    }

    /// Returns a perpendicular vector (a quarter turn counter-clockwise).
    pub fn perp(self) -> (r: Vect)
        requires
            self.y > i64::MIN,
        ensures
            r@ == self@.perp(),
    {
        Vect { x: -self.y, y: self.x }
    }

    /// Returns a perpendicular vector (a quarter turn clockwise).
    pub fn rperp(self) -> (r: Vect)
        requires
            self.x > i64::MIN,
        ensures
            r@ == self@.rperp(),
    {
        Vect { x: self.y, y: -self.x }
    }

    /// Uses complex-number multiplication to rotate `self` by `rotation`.
    /// Scaling will occur if `rotation` is not a unit vector.
    pub fn rotate(self, rotation: Vect) -> (r: Vect)
        requires
            self.in_range(),
            rotation.in_range(),
        ensures
            r@ == self@.rotate(rotation@),
    {
        proof {
            lemma_prod_bound(self.x as int, rotation.x as int, COORD_LIMIT as int);
            lemma_prod_bound(self.x as int, rotation.y as int, COORD_LIMIT as int);
            lemma_prod_bound(self.y as int, rotation.x as int, COORD_LIMIT as int);
            lemma_prod_bound(self.y as int, rotation.y as int, COORD_LIMIT as int);
        }
        Vect {
            x: self.x * rotation.x - self.y * rotation.y,
            y: self.x * rotation.y + self.y * rotation.x,
        }
    }

    /// Inverse of `rotate`.
    pub fn unrotate(self, rotation: Vect) -> (r: Vect)
        requires
            self.in_range(),
            rotation.in_range(),
        ensures
            r@ == self@.unrotate(rotation@),
    {
        proof {
            lemma_prod_bound(self.x as int, rotation.x as int, COORD_LIMIT as int);
            lemma_prod_bound(self.x as int, rotation.y as int, COORD_LIMIT as int);
            lemma_prod_bound(self.y as int, rotation.x as int, COORD_LIMIT as int);
            lemma_prod_bound(self.y as int, rotation.y as int, COORD_LIMIT as int);
        }
        Vect {
            x: self.x * rotation.x + self.y * rotation.y,
            y: self.y * rotation.x - self.x * rotation.y,
        }
    }

    /// The squared length. Cheaper than `length` when only comparing lengths.
    pub fn length_squared(self) -> (r: i64)
        requires
            self.in_range(),
        ensures
            r == self@.len_sq(),
            r >= 0,
    {
        proof {
            assert(self@.len_sq() >= 0) by (nonlinear_arith);
        }
        self.dot(self)
    }

    /// The length of the vector, as the integer square root (rounded down)
    /// of the squared length.
    pub fn length(self) -> (r: i64)
        requires
            self.in_range(),
        ensures
            r >= 0,
            is_sqrt_of(self@.len_sq(), r as int),
    {
        let sq = self.length_squared();
        proof {
            lemma_prod_bound(self.x as int, self.x as int, COORD_LIMIT as int);
            lemma_prod_bound(self.y as int, self.y as int, COORD_LIMIT as int);
        }
        let r = isqrt_u64(sq as u64);
        r as i64
    }

    /// The unit vector for the given orientation, measured in
    /// counter-clockwise quarter turns from the positive x axis. In the
    /// exact integer coordinate model these four orientations are the ones
    /// whose unit vectors are representable.
    pub fn from_angle(quarter_turns: i64) -> (r: Vect)
        ensures
            r@ == unit_for_turns(quarter_turns as int),
    {
        let q = rem_four(quarter_turns);
        if q == 0 {
            Vect { x: 1, y: 0 }
        } else if q == 1 {
            Vect { x: 0, y: 1 }
        } else if q == 2 {
            Vect { x: -1, y: 0 }
        } else {
            Vect { x: 0, y: -1 }
        }
    }
}

/// Negate a vector.
impl core::ops::Neg for Vect {
    type Output = Vect;

    fn neg(self) -> (r: Vect) {
        Vect { x: -self.x, y: -self.y }
    }
}

impl vstd::std_specs::ops::NegSpecImpl for Vect {
    open spec fn obeys_neg_spec() -> bool {
        true
    }

    open spec fn neg_req(self) -> bool {
        self.x > i64::MIN && self.y > i64::MIN
    }

    open spec fn neg_spec(self) -> Vect {
        Vect { x: (-self.x) as i64, y: (-self.y) as i64 }
    }
}

/// Add two vectors.
impl core::ops::Add for Vect {
    type Output = Vect;

    fn add(self, rhs: Vect) -> (r: Vect) {
        Vect { x: self.x + rhs.x, y: self.y + rhs.y }
    }
}

impl vstd::std_specs::ops::AddSpecImpl for Vect {
    open spec fn obeys_add_spec() -> bool {
        true
    }

    open spec fn add_req(self, rhs: Vect) -> bool {
        i64::MIN <= self.x + rhs.x <= i64::MAX && i64::MIN <= self.y + rhs.y <= i64::MAX
    }

    open spec fn add_spec(self, rhs: Vect) -> Vect {
        Vect { x: (self.x + rhs.x) as i64, y: (self.y + rhs.y) as i64 }
    }
}

/// Subtract two vectors.
impl core::ops::Sub for Vect {
    type Output = Vect;

    fn sub(self, rhs: Vect) -> (r: Vect) {
        Vect { x: self.x - rhs.x, y: self.y - rhs.y }
    }
}

impl vstd::std_specs::ops::SubSpecImpl for Vect {
    open spec fn obeys_sub_spec() -> bool {
        true
    }

    open spec fn sub_req(self, rhs: Vect) -> bool {
        i64::MIN <= self.x - rhs.x <= i64::MAX && i64::MIN <= self.y - rhs.y <= i64::MAX
    }

    open spec fn sub_spec(self, rhs: Vect) -> Vect {
        Vect { x: (self.x - rhs.x) as i64, y: (self.y - rhs.y) as i64 }
    }
}

/// Scalar multiplication.
impl core::ops::Mul<i64> for Vect {
    type Output = Vect;

    fn mul(self, rhs: i64) -> (r: Vect) {
        Vect { x: self.x * rhs, y: self.y * rhs }
    }
}

impl vstd::std_specs::ops::MulSpecImpl<i64> for Vect {
    open spec fn obeys_mul_spec() -> bool {
        true
    }

    open spec fn mul_req(self, rhs: i64) -> bool {
        i64::MIN <= self.x * rhs <= i64::MAX && i64::MIN <= self.y * rhs <= i64::MAX
    }

    open spec fn mul_spec(self, rhs: i64) -> Vect {
        Vect { x: (self.x * rhs) as i64, y: (self.y * rhs) as i64 }
    }
}

/// The Euclidean remainder of `t` modulo four (always in `0 ..= 3`).
fn rem_four(t: i64) -> (q: u64)
    ensures
        q as int == (t as int) % 4,
{
    if t >= 0 {
        (t as u64) % 4
    } else {
        let neg: u64 = (-((t as i128) + 1)) as u64;
        let m = neg % 4;
        proof {
            lemma_fundamental_div_mod(neg as int, 4);
            lemma_fundamental_div_mod_converse(
                t as int,
                4,
                -((neg as int) / 4) - 1,
                3 - (neg as int) % 4,
            );
        }
        3 - m
    }
}

/// Binary-search integer square root.
fn isqrt_u64(n: u64) -> (r: u64)
    requires
        n < 0x4000_0000_0000_0000,
    ensures
        is_sqrt_of(n as int, r as int),
        r < 0x8000_0000,
{
    let mut lo: u64 = 0;
    let mut hi: u64 = 0x8000_0000;
    while lo + 1 < hi
        invariant
            lo < hi <= 0x8000_0000,
            (lo as int) * (lo as int) <= n as int,
            (n as int) < (hi as int) * (hi as int),
        decreases hi - lo,
    {
        let mid = lo + (hi - lo) / 2;
        proof {
            lemma_prod_bound(mid as int, mid as int, 0x8000_0000);
        }
        if mid * mid <= n {
            lo = mid;
        } else {
            hi = mid;
        }
    }
    lo
}

/// Law: rotating and then unrotating by the same unit vector is the
/// identity, in either order of the two operations.
pub proof fn lemma_rotate_unrotate_identity(v: IntVect, r: IntVect)
    requires
        r.is_unit(),
    ensures
        v.rotate(r).unrotate(r) == v,
        v.unrotate(r).rotate(r) == v,
{
    assert((v.x * r.x - v.y * r.y) * r.x + (v.x * r.y + v.y * r.x) * r.y == v.x)
        by (nonlinear_arith)
        requires
            r.x * r.x + r.y * r.y == 1,
    ;
    assert((v.x * r.y + v.y * r.x) * r.x - (v.x * r.x - v.y * r.y) * r.y == v.y)
        by (nonlinear_arith)
        requires
            r.x * r.x + r.y * r.y == 1,
    ;
    assert((v.x * r.x + v.y * r.y) * r.x - (v.y * r.x - v.x * r.y) * r.y == v.x)
        by (nonlinear_arith)
        requires
            r.x * r.x + r.y * r.y == 1,
    ;
    assert((v.x * r.x + v.y * r.y) * r.y + (v.y * r.x - v.x * r.y) * r.x == v.y)
        by (nonlinear_arith)
        requires
            r.x * r.x + r.y * r.y == 1,
    ;
    assert(v.rotate(r).unrotate(r) =~= v);
    assert(v.unrotate(r).rotate(r) =~= v);
}

/// Law: the squared length is the dot product of a vector with itself.
pub proof fn lemma_length_squared_is_dot(v: IntVect)
    ensures
        v.len_sq() == v.dot(v),
{
}

/// Law: the integer square root is unique, so `length` is determined by
/// `length_squared`.
pub proof fn lemma_sqrt_unique(n: int, r1: int, r2: int)
    requires
        is_sqrt_of(n, r1),
        is_sqrt_of(n, r2),
    ensures
        r1 == r2,
{
    assert(r1 == r2) by (nonlinear_arith)
        requires
            r1 >= 0 && r1 * r1 <= n < (r1 + 1) * (r1 + 1),
            r2 >= 0 && r2 * r2 <= n < (r2 + 1) * (r2 + 1),
    ;
}

/// Law: the cross product of a vector with itself is zero.
pub proof fn lemma_cross_self_zero(v: IntVect)
    ensures
        v.cross(v) == 0,
{
    assert(v.x * v.y - v.y * v.x == 0) by (nonlinear_arith);
}

/// Law: both perpendiculars of a vector are orthogonal to it.
pub proof fn lemma_perp_orthogonal(v: IntVect)
    ensures
        v.perp().dot(v) == 0,
        v.rperp().dot(v) == 0,
{
    assert(-v.y * v.x + v.x * v.y == 0) by (nonlinear_arith);
    assert(v.y * v.x + -v.x * v.y == 0) by (nonlinear_arith);
}

} // verus!
