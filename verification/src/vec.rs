//! Fixed-point vectors in two and three dimensions.
//!
//! All operations are componentwise applications of the saturating scalar
//! arithmetic, plus the Euclidean norm used to size the camera's view of
//! the whole roster.
use crate::fx::mag;
use crate::fx::isqrt;
use crate::fx::sqrt_floor;
use crate::fx::lemma_sqrt_floor;
use crate::fx::Fx;
use crate::fx::FX_MAX;
use vstd::math::abs;
use vstd::prelude::*;

verus! {

/// A two-dimensional fixed-point vector.
#[derive(Clone, Copy, PartialEq, Eq, Structural, Debug)]
pub struct Vec2 {
    pub x: Fx,
    pub y: Fx,
}

impl Vec2 {
    pub open spec fn wf(self) -> bool {
        self.x.wf() && self.y.wf()
    }

    pub open spec fn spec_zero() -> Vec2 {
        Vec2 { x: Fx::spec_zero(), y: Fx::spec_zero() }
    }

    pub fn zero() -> (r: Vec2)
        ensures
            r == Vec2::spec_zero(),
            r.wf(),
    {
        Vec2 { x: Fx::zero(), y: Fx::zero() }
    }

    pub open spec fn spec_plus(self, o: Vec2) -> Vec2 {
        Vec2 { x: self.x.spec_plus(o.x), y: self.y.spec_plus(o.y) }
    }

    pub fn plus(self, o: Vec2) -> (r: Vec2)
        requires
            self.wf(),
            o.wf(),
        ensures
            r == self.spec_plus(o),
            r.wf(),
    {
        Vec2 { x: self.x.plus(o.x), y: self.y.plus(o.y) }
    }

    pub open spec fn spec_scale(self, f: Fx) -> Vec2 {
        Vec2 { x: self.x.spec_times(f), y: self.y.spec_times(f) }
    }

    /// Multiply both components by the scalar `f`.
    pub fn scale(self, f: Fx) -> (r: Vec2)
        requires
            self.wf(),
            f.wf(),
        ensures
            r == self.spec_scale(f),
            r.wf(),
    {
        Vec2 { x: self.x.times(f), y: self.y.times(f) }
    }

    pub open spec fn spec_divide(self, d: Fx) -> Vec2 {
        Vec2 { x: self.x.spec_divide(d), y: self.y.spec_divide(d) }
    }

    /// Divide both components by the scalar `d`.
    pub fn divide(self, d: Fx) -> (r: Vec2)
        requires
            self.wf(),
            d.wf(),
            d.raw != 0,
        ensures
            r == self.spec_divide(d),
            r.wf(),
    {
        Vec2 { x: self.x.divide(d), y: self.y.divide(d) }
    }
}

/// A three-dimensional fixed-point vector.
#[derive(Clone, Copy, PartialEq, Eq, Structural, Debug)]
pub struct Vec3 {
    pub x: Fx,
    pub y: Fx,
    pub z: Fx,
}

impl Vec3 {
    pub open spec fn wf(self) -> bool {
        self.x.wf() && self.y.wf() && self.z.wf()
    }

    pub open spec fn spec_zero() -> Vec3 {
        Vec3 { x: Fx::spec_zero(), y: Fx::spec_zero(), z: Fx::spec_zero() }
    }

    pub fn zero() -> (r: Vec3)
        ensures
            r == Vec3::spec_zero(),
            r.wf(),
    {
        Vec3 { x: Fx::zero(), y: Fx::zero(), z: Fx::zero() }
    }

    /// Build a vector from raw component counts, saturating each.
    pub fn from_raw(x: i64, y: i64, z: i64) -> (r: Vec3)
        ensures
            r == (Vec3 {
                x: Fx::spec_new(x as int),
                y: Fx::spec_new(y as int),
                z: Fx::spec_new(z as int),
            }),
            r.wf(),
    {
        Vec3 { x: Fx::new(x), y: Fx::new(y), z: Fx::new(z) }
    }

    pub open spec fn spec_plus(self, o: Vec3) -> Vec3 {
        Vec3 {
            x: self.x.spec_plus(o.x),
            y: self.y.spec_plus(o.y),
            z: self.z.spec_plus(o.z),
        }
    }

    pub fn plus(self, o: Vec3) -> (r: Vec3)
        requires
            self.wf(),
            o.wf(),
        ensures
            r == self.spec_plus(o),
            r.wf(),
    {
        Vec3 { x: self.x.plus(o.x), y: self.y.plus(o.y), z: self.z.plus(o.z) }
    }

    pub open spec fn spec_minus(self, o: Vec3) -> Vec3 {
        Vec3 {
            x: self.x.spec_minus(o.x),
            y: self.y.spec_minus(o.y),
            z: self.z.spec_minus(o.z),
        }
    }

    pub fn minus(self, o: Vec3) -> (r: Vec3)
        requires
            self.wf(),
            o.wf(),
        ensures
            r == self.spec_minus(o),
            r.wf(),
    {
        Vec3 { x: self.x.minus(o.x), y: self.y.minus(o.y), z: self.z.minus(o.z) }
    }

    pub open spec fn spec_scale(self, f: Fx) -> Vec3 {
        Vec3 {
            x: self.x.spec_times(f),
            y: self.y.spec_times(f),
            z: self.z.spec_times(f),
        }
    }

    /// Multiply every component by the scalar `f`.
    pub fn scale(self, f: Fx) -> (r: Vec3)
        requires
            self.wf(),
            f.wf(),
        ensures
            r == self.spec_scale(f),
            r.wf(),
    {
        Vec3 { x: self.x.times(f), y: self.y.times(f), z: self.z.times(f) }
    }

    pub open spec fn spec_lerp(self, goal: Vec3, f: Fx) -> Vec3 {
        Vec3 {
            x: self.x.spec_lerp(goal.x, f),
            y: self.y.spec_lerp(goal.y, f),
            z: self.z.spec_lerp(goal.z, f),
        }
    }

    /// Componentwise interpolation toward `goal` by the clamped factor `f`.
    pub fn lerp(self, goal: Vec3, f: Fx) -> (r: Vec3)
        requires
            self.wf(),
            goal.wf(),
        ensures
            r == self.spec_lerp(goal, f),
            r.wf(),
    {
        Vec3 {
            x: self.x.lerp(goal.x, f),
            y: self.y.lerp(goal.y, f),
            z: self.z.lerp(goal.z, f),
        }
    }

    pub open spec fn spec_inf(self, o: Vec3) -> Vec3 {
        Vec3 {
            x: self.x.spec_inf(o.x),
            y: self.y.spec_inf(o.y),
            z: self.z.spec_inf(o.z),
        }
    }

    /// Componentwise minimum.
    pub fn inf(self, o: Vec3) -> (r: Vec3)
        ensures
            r == self.spec_inf(o),
    {
        Vec3 { x: self.x.inf(o.x), y: self.y.inf(o.y), z: self.z.inf(o.z) }
    }

    pub open spec fn spec_sup(self, o: Vec3) -> Vec3 {
        Vec3 {
            x: self.x.spec_sup(o.x),
            y: self.y.spec_sup(o.y),
            z: self.z.spec_sup(o.z),
        }
    }

    /// Componentwise maximum.
    pub fn sup(self, o: Vec3) -> (r: Vec3)
        ensures
            r == self.spec_sup(o),
    {
        Vec3 { x: self.x.sup(o.x), y: self.y.sup(o.y), z: self.z.sup(o.z) }
    }

    pub open spec fn spec_over_count(self, n: int) -> Vec3 {
        Vec3 {
            x: self.x.spec_over_count(n),
            y: self.y.spec_over_count(n),
            z: self.z.spec_over_count(n),
        }
    }

    /// Divide every component by a positive count: the centroid step.
    pub fn over_count(self, n: usize) -> (r: Vec3)
        requires
            self.wf(),
            n > 0,
        ensures
            r == self.spec_over_count(n as int),
            r.wf(),
    {
        Vec3 { x: self.x.over_count(n), y: self.y.over_count(n), z: self.z.over_count(n) }
    }

    pub open spec fn spec_norm(self) -> Fx {
        Fx::spec_new(
            sqrt_floor(
                self.x.raw * self.x.raw + self.y.raw * self.y.raw + self.z.raw * self.z.raw,
            ),
        )
    }

    /// The Euclidean length, rounded down to the raw grid and saturated.
    pub fn norm(self) -> (r: Fx)
        requires
            self.wf(),
        ensures
            r == self.spec_norm(),
            r.wf(),
    {
        let xm: u64 = mag(self.x.raw);
        let ym: u64 = mag(self.y.raw);
        let zm: u64 = mag(self.z.raw);
        proof {
            lemma_square_of_mag(self.x.raw as int);
            lemma_square_of_mag(self.y.raw as int);
            lemma_square_of_mag(self.z.raw as int);
            assert(xm as int * xm as int <= 1_000_000_000_000_000_000) by (nonlinear_arith)
                requires
                    xm <= 1_000_000_000;
            assert(ym as int * ym as int <= 1_000_000_000_000_000_000) by (nonlinear_arith)
                requires
                    ym <= 1_000_000_000;
            assert(zm as int * zm as int <= 1_000_000_000_000_000_000) by (nonlinear_arith)
                requires
                    zm <= 1_000_000_000;
        }
        let s: u64 = xm * xm + ym * ym + zm * zm;
        let r: u64 = isqrt(s);
        proof {
            lemma_sqrt_floor(s as int);
            assert(2_000_000_000int * 2_000_000_000 == 4_000_000_000_000_000_000)
                by (nonlinear_arith);
            assert((s as int) < 2_000_000_000int * 2_000_000_000);
            assert(r <= 2_000_000_000) by (nonlinear_arith)
                requires
                    r as int * r as int <= s as int,
                    (s as int) < 2_000_000_000int * 2_000_000_000,
                    r >= 0;
        }
        if r > (FX_MAX as u64) {
            Fx { raw: FX_MAX }
        } else {
            Fx { raw: r as i64 }
        }
    }
}

/// Squaring a raw value and squaring its magnitude agree.
proof fn lemma_square_of_mag(a: int)
    ensures
        abs(a) * abs(a) == a * a,
{
    assert(abs(a) * abs(a) == a * a) by (nonlinear_arith);
}

} // verus!
