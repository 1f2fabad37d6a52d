//! Plane vectors and rotations over fixed-point numbers.

use vstd::prelude::*;
use crate::fixed::{
    diff_fx, floor_sqrt, integer_sqrt, lemma_product_fits, prod_fx, saturate, sum_fx, Fixed, ONE,
};

verus! {

/// How far the squared length of a rotation's cosine and sine may lie from
/// one, in millionths of a millionth: room for rounding both to the nearest
/// millionth.
pub const UNIT_SLACK: i64 = 3_000_000;

/// A vector of the plane, in millionths.
pub struct Vector {
    pub x: int,
    pub y: int,
}

/// A rotation of the plane by its cosine and sine, in millionths.
pub struct Turn {
    pub cos: int,
    pub sin: int,
}

/// The sum of `a` and `b`.
pub open spec fn vector_sum(a: Vector, b: Vector) -> Vector {
    Vector { x: sum_fx(a.x, b.x), y: sum_fx(a.y, b.y) }
}

/// `v`, each coordinate multiplied by `k`.
pub open spec fn vector_scaled(v: Vector, k: int) -> Vector {
    Vector { x: prod_fx(v.x, k), y: prod_fx(v.y, k) }
}

/// The length of `v`, rounded down to a whole number of millionths.
pub open spec fn vector_norm(v: Vector) -> int {
    saturate(floor_sqrt(v.x * v.x + v.y * v.y))
}

/// `v` turned by `t`: the product of the rotation matrix of `t` with `v`.
pub open spec fn vector_turned(t: Turn, v: Vector) -> Vector {
    Vector {
        x: diff_fx(prod_fx(t.cos, v.x), prod_fx(t.sin, v.y)),
        y: sum_fx(prod_fx(t.sin, v.x), prod_fx(t.cos, v.y)),
    }
}

/// Whether `t` has length one, up to [`UNIT_SLACK`].
pub open spec fn near_unit(t: Turn) -> bool {
    ONE * ONE - UNIT_SLACK <= t.cos * t.cos + t.sin * t.sin <= ONE * ONE + UNIT_SLACK
}

/// Whether `t` turns by an eighth of a turn at most, either way: its
/// cosine is more than nothing and its sine no further from zero than its
/// cosine.
pub open spec fn at_most_eighth(t: Turn) -> bool {
    t.cos > 0 && -t.cos <= t.sin <= t.cos
}

/// The rotation by no angle.
pub open spec fn no_turn() -> Turn {
    Turn { cos: ONE as int, sin: 0 }
}

/// A vector of the plane.
#[derive(Clone, Copy, PartialEq, Eq, Debug, Structural)]
pub struct Vec2 {
    pub x: Fixed,
    pub y: Fixed,
}

impl View for Vec2 {
    type V = Vector;

    open spec fn view(&self) -> Vector {
        Vector { x: self.x@, y: self.y@ }
    }
}

/// The square of `a` added to the square of `b`.
fn sum_of_squares(a: i64, b: i64) -> (r: u128)
    ensures
        r == a * a + b * b,
{
    proof {
        lemma_product_fits(a as int, a as int);
        lemma_product_fits(b as int, b as int);
        assert(a * a >= 0 && b * b >= 0) by (nonlinear_arith);
    }
    let aa: i128 = (a as i128) * (a as i128);
    let bb: i128 = (b as i128) * (b as i128);
    (aa as u128) + (bb as u128)
}

impl Vec2 {
    /// The vector with coordinates `x` and `y`.
    pub fn new(x: Fixed, y: Fixed) -> (r: Vec2)
        ensures
            r@ == (Vector { x: x@, y: y@ }),
    {
        Vec2 { x, y }
    }

    /// The sum of the two vectors.
    pub fn plus(self, rhs: Vec2) -> (r: Vec2)
        ensures
            r@ == vector_sum(self@, rhs@),
    {
        Vec2 { x: self.x.plus(rhs.x), y: self.y.plus(rhs.y) }
    }

    /// The vector with each coordinate multiplied by `k`.
    pub fn scaled(self, k: Fixed) -> (r: Vec2)
        ensures
            r@ == vector_scaled(self@, k@),
    {
        Vec2 { x: self.x.times(k), y: self.y.times(k) }
    }

    /// The length of the vector, rounded down.
    pub fn norm(self) -> (r: Fixed)
        ensures
            r@ == vector_norm(self@),
    {
        let root: u64 = integer_sqrt(sum_of_squares(self.x.micro, self.y.micro));
        if root > i64::MAX as u64 {
            Fixed { micro: i64::MAX }
        } else {
            Fixed { micro: root as i64 }
        }
    }
}

/// A rotation of the plane, held as the cosine and the sine of its angle.
/// The library computes no cosine or sine: whoever makes a rotation gives
/// both.
#[derive(Clone, Copy, PartialEq, Eq, Debug, Structural)]
pub struct Rotation {
    pub cos: Fixed,
    pub sin: Fixed,
}

impl View for Rotation {
    type V = Turn;

    open spec fn view(&self) -> Turn {
        Turn { cos: self.cos@, sin: self.sin@ }
    }
}

impl Rotation {
    /// Whether the cosine and sine are those of an angle, up to rounding.
    pub open spec fn wf(&self) -> bool {
        near_unit(self@)
    }

    /// Whether the rotation has unit length, up to rounding.
    pub fn is_valid(&self) -> (r: bool)
        ensures
            r == self.wf(),
    {
        let squares: u128 = sum_of_squares(self.cos.micro, self.sin.micro);
        assert(ONE * ONE == 1_000_000_000_000int);
        1_000_000_000_000u128 - 3_000_000u128 <= squares && squares <= 1_000_000_000_000u128
            + 3_000_000u128
    }

    /// Whether the rotation is one of an angle, up to rounding, and turns
    /// by an eighth of a turn at most, either way: what a serve asks of its
    /// rotation.
    pub open spec fn serves(&self) -> bool {
        self.wf() && at_most_eighth(self@)
    }

    /// Whether the rotation is fit for a serve.
    pub fn can_serve(&self) -> (r: bool)
        ensures
            r == self.serves(),
    {
        self.is_valid() && self.cos.micro > 0 && -(self.cos.micro as i128) <= self.sin.micro as i128
            && self.sin.micro <= self.cos.micro
    }

    /// The rotation by no angle.
    pub fn identity() -> (r: Rotation)
        ensures
            r@ == no_turn(),
            r.wf(),
            r.serves(),
    {
        assert(ONE * ONE == 1_000_000_000_000int);
        Rotation { cos: Fixed { micro: ONE }, sin: Fixed { micro: 0 } }
    }

    /// The rotation with the given cosine and sine, if they are those of an
    /// angle, up to rounding.
    pub fn new(cos: Fixed, sin: Fixed) -> (r: Option<Rotation>)
        ensures
            near_unit(Turn { cos: cos@, sin: sin@ }) <==> r is Some,
            r matches Some(t) ==> t@ == (Turn { cos: cos@, sin: sin@ }),
    {
        let squares: u128 = sum_of_squares(cos.micro, sin.micro);
        assert(ONE * ONE == 1_000_000_000_000int);
        if 1_000_000_000_000u128 - 3_000_000u128 <= squares && squares <= 1_000_000_000_000u128
            + 3_000_000u128 {
            Some(Rotation { cos, sin })
        } else {
            None
        }
    }

    /// `v` turned by this rotation.
    pub fn apply(&self, v: Vec2) -> (r: Vec2)
        ensures
            r@ == vector_turned(self@, v@),
    {
        Vec2 {
            x: self.cos.times(v.x).minus(self.sin.times(v.y)),
            y: self.sin.times(v.x).plus(self.cos.times(v.y)),
        }
    }
}

} // verus!
