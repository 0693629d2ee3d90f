//! Fixed-point trigonometry.
//!
//! Headings are raw angles in ten-thousandths of a radian. The sine is
//! Bhaskara's rational approximation on a half turn, extended to the full
//! circle by sign; the cosine is the sine a quarter turn ahead. Both are
//! exact integer formulas, so every caller's contract can name the exact
//! value returned.
use crate::fx::Fx;
use crate::fx::FX_ONE;
use crate::fx::FX_MAX;
use vstd::arithmetic::div_mod::lemma_div_is_ordered;
use vstd::arithmetic::div_mod::lemma_div_multiples_vanish;
use vstd::arithmetic::div_mod::lemma_div_pos_is_pos;
use vstd::arithmetic::div_mod::lemma_fundamental_div_mod;
use vstd::arithmetic::div_mod::lemma_fundamental_div_mod_converse_mod;
use vstd::prelude::*;

verus! {

/// Half a turn, in raw angle steps.
pub const FX_PI: i64 = 31_416;

/// A quarter turn, in raw angle steps.
pub const FX_HALF_PI: i64 = 15_708;

/// A full turn, in raw angle steps.
pub const FX_TWO_PI: i64 = 62_832;

/// Euclidean remainder bringing any raw angle into `[0, FX_TWO_PI)`.
pub fn wrap_angle(a: i64) -> (r: i64)
    requires
        a != i64::MIN,
    ensures
        r == a as int % (FX_TWO_PI as int),
        0 <= r < FX_TWO_PI,
{
    proof {
        lemma_fundamental_div_mod(a as int, FX_TWO_PI as int);
    }
    if a >= 0 {
        ((a as u64) % (FX_TWO_PI as u64)) as i64
    } else {
        let k: u64 = (-a) as u64;
        let m: u64 = k % (FX_TWO_PI as u64);
        proof {
            lemma_fundamental_div_mod(k as int, FX_TWO_PI as int);
            let q = k as int / FX_TWO_PI as int;
            if m == 0 {
                lemma_fundamental_div_mod_converse_mod(a as int, FX_TWO_PI as int, -q, 0);
            } else {
                lemma_fundamental_div_mod_converse_mod(
                    a as int,
                    FX_TWO_PI as int,
                    -q - 1,
                    FX_TWO_PI as int - m,
                );
            }
        }
        if m == 0 {
            0
        } else {
            (FX_TWO_PI as u64 - m) as i64
        }
    }
}

/// Bhaskara's sine approximation on `[0, FX_PI]`, in raw steps of one
/// ten-thousandth.
pub open spec fn spec_half_sine(x: int) -> int
    recommends
        0 <= x <= FX_PI as int,
{
    16 * x * (FX_PI as int - x) * FX_ONE as int / (
    5 * FX_PI as int * FX_PI as int - 4 * x * (FX_PI as int - x))
}

fn half_sine(x: i64) -> (r: i64)
    requires
        0 <= x <= FX_PI,
    ensures
        r == spec_half_sine(x as int),
        0 <= r <= FX_ONE,
{
    proof {
        assert(0 <= x as int * (FX_PI as int - x)
            <= FX_HALF_PI as int * FX_HALF_PI as int) by (nonlinear_arith)
            requires
                0 <= x <= FX_PI as int,
                FX_PI as int == 2 * FX_HALF_PI as int;
    }
    let u: i64 = x * (FX_PI - x);
    let num: u64 = 16 * (u as u64) * (FX_ONE as u64);
    let den_i: i64 = 5 * FX_PI * FX_PI - 4 * u;
    let den: u64 = den_i as u64;
    proof {
        assert(16 * u as int * FX_ONE as int <= FX_ONE as int * den as int) by (nonlinear_arith)
            requires
                den as int == 5 * FX_PI as int * FX_PI as int - 4 * u as int,
                FX_PI as int == 2 * FX_HALF_PI as int,
                0 <= u as int <= FX_HALF_PI as int * FX_HALF_PI as int;
        lemma_div_is_ordered(num as int, FX_ONE as int * den as int, den as int);
        lemma_div_multiples_vanish(FX_ONE as int, den as int);
        assert(FX_ONE as int * den as int == den as int * FX_ONE as int) by (nonlinear_arith);
        lemma_div_pos_is_pos(num as int, den as int);
        assert(16 * (u as int) * (FX_ONE as int) == 16 * (x as int * (FX_PI as int - x))
            * FX_ONE as int);
        assert(16 * (x as int * (FX_PI as int - x)) * FX_ONE as int
            == 16 * x as int * (FX_PI as int - x) * FX_ONE as int) by (nonlinear_arith);
        assert(4 * u as int == 4 * x as int * (FX_PI as int - x)) by (nonlinear_arith)
            requires
                u as int == x as int * (FX_PI as int - x);
    }
    let q: u64 = num / den;
    q as i64
}

/// The sine of a raw angle, extended from the half turn by odd symmetry.
pub open spec fn spec_sin_raw(a: int) -> int {
    let w = a % (FX_TWO_PI as int);
    if w < FX_PI as int {
        spec_half_sine(w)
    } else {
        -spec_half_sine(w - FX_PI as int)
    }
}

/// The cosine of a raw angle: the sine a quarter turn ahead.
pub open spec fn spec_cos_raw(a: int) -> int {
    spec_sin_raw(a + FX_HALF_PI as int)
}

fn sin_of_raw(x: i64) -> (r: i64)
    requires
        -FX_MAX - FX_HALF_PI <= x <= FX_MAX + FX_HALF_PI,
    ensures
        r == spec_sin_raw(x as int),
        -FX_ONE <= r <= FX_ONE,
{
    let w = wrap_angle(x);
    if w < FX_PI {
        half_sine(w)
    } else {
        -half_sine(w - FX_PI)
    }
}

impl Fx {
    pub open spec fn spec_sin(self) -> Fx {
        Fx { raw: spec_sin_raw(self.raw as int) as i64 }
    }

    pub open spec fn spec_cos(self) -> Fx {
        Fx { raw: spec_cos_raw(self.raw as int) as i64 }
    }

    /// The sine of this scalar read as an angle in radians.
    pub fn sin(self) -> (r: Fx)
        requires
            self.wf(),
        ensures
            r == self.spec_sin(),
            -FX_ONE <= r.raw <= FX_ONE,
            r.wf(),
    {
        Fx { raw: sin_of_raw(self.raw) }
    }

    /// The cosine of this scalar read as an angle in radians.
    pub fn cos(self) -> (r: Fx)
        requires
            self.wf(),
        ensures
            r == self.spec_cos(),
            -FX_ONE <= r.raw <= FX_ONE,
            r.wf(),
    {
        Fx { raw: sin_of_raw(self.raw + FX_HALF_PI) }
    }
}

} // verus!
