//! Exact numbers and points for the layout engine.
//!
//! Every coordinate the engine emits has the form `a + b / sqrt(2)` with
//! `a` and `b` rational. The rational part carries the beam dimensions and
//! the row pitches (whose denominators come from the rebar counts); the
//! `1/sqrt(2)` part only ever carries the half-length of a 45° cross-mark.
//! Because `1/sqrt(2)` is irrational, two such coordinates are equal exactly
//! when both components are equal as rationals.

use vstd::prelude::*;

verus! {

/// Numerator bound kept by every well-formed [`Frac`]; generous enough for
/// every number the engine builds from `u32` inputs (at most about `2^73`).
pub const NUM_BOUND: i128 = 0x1000_0000_0000_0000_0000;

/// Denominator bound kept by every well-formed [`Frac`] (at most `2^36`).
pub const DEN_BOUND: i128 = 0x10_0000_0000;

/// A rational number at the specification level, `num / den` with `den > 0`.
/// Fractions are not normalised; value equality is [`rat_eq`].
pub struct Rat {
    pub num: int,
    pub den: int,
}

/// Value equality of two rationals (cross multiplication).
pub open spec fn rat_eq(a: Rat, b: Rat) -> bool {
    a.num * b.den == b.num * a.den
}

/// Value order of two rationals; meaningful when both denominators are positive.
pub open spec fn rat_le(a: Rat, b: Rat) -> bool {
    a.num * b.den <= b.num * a.den
}

/// An executable rational number, `num / den`.
///
/// Well-formed values keep `den` positive and both fields small enough that
/// cross multiplication never overflows `i128`.
#[derive(Clone, Copy, Debug, PartialEq, Eq)]
pub struct Frac {
    pub num: i128,
    pub den: i128,
}

impl View for Frac {
    type V = Rat;

    open spec fn view(&self) -> Rat {
        Rat { num: self.num as int, den: self.den as int }
    }
}

impl Frac {
    pub open spec fn wf(self) -> bool {
        &&& 0 < self.den <= DEN_BOUND
        &&& -NUM_BOUND <= self.num <= NUM_BOUND
    }

    /// The whole number `n` as a fraction.
    pub fn from_int(n: i128) -> (r: Frac)
        requires
            -NUM_BOUND <= n <= NUM_BOUND,
        ensures
            r@ == (Rat { num: n as int, den: 1 }),
            r.wf(),
    {
        Frac { num: n, den: 1 }
    }

    /// Adds the whole number `k` to this fraction.
    pub fn add_int(self, k: i128) -> (r: Frac)
        requires
            self.wf(),
            -0x100_0000_0000_0000_0000 <= self.num <= 0x100_0000_0000_0000_0000,
            -1000 <= k <= 1000,
        ensures
            r@ == (Rat { num: self@.num + k * self@.den, den: self@.den }),
            r.wf(),
    {
        proof {
            assert(-1000i128 * 0x10_0000_0000i128 <= k * self.den <= 1000i128 * 0x10_0000_0000i128)
                by (nonlinear_arith)
                requires
                    -1000 <= k <= 1000,
                    0 < self.den <= 0x10_0000_0000i128,
            ;
        }
        Frac { num: self.num + k * self.den, den: self.den }
    }

    /// Decides value equality of two well-formed fractions.
    pub fn eq_frac(&self, other: &Frac) -> (r: bool)
        requires
            self.wf(),
            other.wf(),
        ensures
            r == rat_eq(self@, other@),
    {
        mul_i128(self.num, other.den) == mul_i128(other.num, self.den)
    }
}

/// Multiplies two `i128` values whose magnitudes stay within the fraction
/// bounds, so that the product provably fits.
pub fn mul_i128(a: i128, b: i128) -> (r: i128)
    requires
        -NUM_BOUND <= a <= NUM_BOUND,
        -DEN_BOUND <= b <= DEN_BOUND,
    ensures
        r == a * b,
{
    proof {
        assert(-0x1000_0000_0000_0000_0000i128 * 0x10_0000_0000i128 <= a * b <= 0x1000_0000_0000_0000_0000i128 * 0x10_0000_0000i128)
            by (nonlinear_arith)
            requires
                -0x1000_0000_0000_0000_0000i128 <= a <= 0x1000_0000_0000_0000_0000i128,
                -0x10_0000_0000i128 <= b <= 0x10_0000_0000i128,
        ;
    }
    a * b
}

/// Bounds on two factors bound their product; used to keep the engine's
/// numerators inside the fraction bounds.
pub proof fn lemma_mul_bounds(a: int, b: int, bound_a: int, bound_b: int)
    by (nonlinear_arith)
    requires
        -bound_a <= a <= bound_a,
        -bound_b <= b <= bound_b,
        0 <= bound_a,
        0 <= bound_b,
    ensures
        -(bound_a * bound_b) <= a * b <= bound_a * bound_b,
{
}

/// One exact coordinate, `a + b / sqrt(2)` at the specification level.
pub struct CoordV {
    pub a: Rat,
    pub b: Rat,
}

/// One executable coordinate, with value `a + b / sqrt(2)`.
///
/// The `b` component is zero everywhere except on the endpoints of the 45°
/// cross-mark lines, whose offset from the mark's centre is its half-length
/// divided by `sqrt(2)`.
#[derive(Clone, Copy, Debug, PartialEq, Eq)]
pub struct Coord {
    pub a: Frac,
    pub b: Frac,
}

impl View for Coord {
    type V = CoordV;

    open spec fn view(&self) -> CoordV {
        CoordV { a: self.a@, b: self.b@ }
    }
}

impl Coord {
    /// A purely rational coordinate (no `1/sqrt(2)` component).
    pub fn exact(a: Frac) -> (r: Coord)
        requires
            a.wf(),
        ensures
            r@ == (CoordV { a: a@, b: Rat { num: 0, den: 1 } }),
            r.a.wf(),
            r.b.wf(),
    {
        Coord { a, b: Frac { num: 0, den: 1 } }
    }
}

/// A 2D point at the specification level.
pub struct PointV {
    pub x: CoordV,
    pub y: CoordV,
}

/// An executable 2D point with exact coordinates.
#[derive(Clone, Copy, Debug, PartialEq, Eq)]
pub struct Point {
    pub x: Coord,
    pub y: Coord,
}

impl View for Point {
    type V = PointV;

    open spec fn view(&self) -> PointV {
        PointV { x: self.x@, y: self.y@ }
    }
}

} // verus!
