//! Fixed-point scalars.
//!
//! A world quantity is stored as a count of ten-thousandths (`raw`), so
//! `1.5` world units are the raw value `15_000`. Every operation first
//! computes the exact mathematical result and then saturates it into the
//! representable range, which keeps all arithmetic total: no operation on
//! well-formed scalars can overflow or panic.
use vstd::arithmetic::div_mod::lemma_div_is_ordered;
use vstd::arithmetic::div_mod::lemma_div_is_ordered_by_denominator;
use vstd::arithmetic::div_mod::lemma_div_multiples_vanish;
use vstd::arithmetic::div_mod::lemma_div_pos_is_pos;
use vstd::math::abs;
use vstd::prelude::*;

verus! {

/// Division that truncates toward zero, the rounding used by all
/// fixed-point products and quotients here.
pub open spec fn tdiv(n: int, d: int) -> int
    recommends
        d != 0,
{
    let q = (abs(n) / abs(d)) as int;
    if (n < 0) != (d < 0) {
        -q
    } else {
        q
    }
}

/// Raw steps per world unit: four decimal digits of precision.
pub const FX_ONE: i64 = 10_000;

/// Largest raw magnitude a scalar may carry (one hundred thousand world
/// units). The product of two well-formed raw values then fits in an `i64`.
pub const FX_MAX: i64 = 1_000_000_000;

/// A fixed-point scalar; `raw` counts ten-thousandths of a world unit.
#[derive(Clone, Copy, PartialEq, Eq, Structural, Debug)]
pub struct Fx {
    pub raw: i64,
}

/// Saturate an unbounded integer into the representable raw range.
pub open spec fn clip(x: int) -> int {
    if x > FX_MAX as int {
        FX_MAX as int
    } else if x < -(FX_MAX as int) {
        -(FX_MAX as int)
    } else {
        x
    }
}

impl Fx {
    /// A scalar is well formed when its raw value is inside the saturation
    /// range; every constructor and operation below maintains this.
    pub open spec fn wf(self) -> bool {
        -(FX_MAX as int) <= self.raw as int <= FX_MAX as int
    }

    pub open spec fn spec_new(x: int) -> Fx {
        Fx { raw: clip(x) as i64 }
    }

    /// Build a scalar from a raw count of ten-thousandths, saturating.
    pub fn new(x: i64) -> (r: Fx)
        ensures
            r == Fx::spec_new(x as int),
            r.wf(),
    {
        if x > FX_MAX {
            Fx { raw: FX_MAX }
        } else if x < -FX_MAX {
            Fx { raw: -FX_MAX }
        } else {
            Fx { raw: x }
        }
    }

    pub open spec fn spec_from_units(u: int) -> Fx {
        Fx::spec_new(u * FX_ONE as int)
    }

    /// Build a scalar from whole world units, saturating.
    pub fn from_units(u: i64) -> (r: Fx)
        ensures
            r == Fx::spec_from_units(u as int),
            r.wf(),
    {
        if u > 100_000 {
            Fx { raw: FX_MAX }
        } else if u < -100_000 {
            Fx { raw: -FX_MAX }
        } else {
            Fx { raw: u * FX_ONE }
        }
    }

    pub open spec fn spec_zero() -> Fx {
        Fx { raw: 0 }
    }

    pub fn zero() -> (r: Fx)
        ensures
            r == Fx::spec_zero(),
            r.wf(),
    {
        Fx { raw: 0 }
    }

    pub open spec fn spec_plus(self, o: Fx) -> Fx {
        Fx::spec_new(self.raw + o.raw)
    }

    /// Saturating addition.
    pub fn plus(self, o: Fx) -> (r: Fx)
        requires
            self.wf(),
            o.wf(),
        ensures
            r == self.spec_plus(o),
            r.wf(),
    {
        Fx::new(self.raw + o.raw)
    }

    pub open spec fn spec_minus(self, o: Fx) -> Fx {
        Fx::spec_new(self.raw - o.raw)
    }

    /// Saturating subtraction.
    pub fn minus(self, o: Fx) -> (r: Fx)
        requires
            self.wf(),
            o.wf(),
        ensures
            r == self.spec_minus(o),
            r.wf(),
    {
        Fx::new(self.raw - o.raw)
    }

    pub open spec fn spec_neg(self) -> Fx {
        Fx::spec_new(-(self.raw as int))
    }

    pub fn neg(self) -> (r: Fx)
        requires
            self.wf(),
        ensures
            r == self.spec_neg(),
            r.wf(),
    {
        Fx { raw: -self.raw }
    }

    pub open spec fn spec_times(self, o: Fx) -> Fx {
        Fx::spec_new(tdiv(self.raw * o.raw, FX_ONE as int))
    }

    /// Fixed-point product: the exact product truncated toward zero to
    /// four decimal digits, then saturated.
    pub fn times(self, o: Fx) -> (r: Fx)
        requires
            self.wf(),
            o.wf(),
        ensures
            r == self.spec_times(o),
            r.wf(),
    {
        let a = self.raw;
        let b = o.raw;
        let negr = (a < 0) != (b < 0);
        let am: u64 = if a < 0 {
            (-a) as u64
        } else {
            a as u64
        };
        let bm: u64 = if b < 0 {
            (-b) as u64
        } else {
            b as u64
        };
        proof {
            assert(am == abs(a as int));
            assert(bm == abs(b as int));
            assert(am as int * bm as int == abs(a as int * b as int)) by (nonlinear_arith)
                requires
                    am == abs(a as int),
                    bm == abs(b as int);
            assert(am as int * bm as int <= 1_000_000_000_000_000_000) by (nonlinear_arith)
                requires
                    am <= 1_000_000_000,
                    bm <= 1_000_000_000;
            assert((negr && a as int * b as int != 0) ==> (a as int * b as int) < 0) by (nonlinear_arith)
                requires
                    negr == ((a < 0) != (b < 0));
            assert(!negr ==> a as int * b as int >= 0) by (nonlinear_arith)
                requires
                    negr == ((a < 0) != (b < 0));
        }
        let p: u64 = am * bm;
        let q: u64 = p / (FX_ONE as u64);
        let qc: i64 = if q > (FX_MAX as u64) {
            FX_MAX
        } else {
            q as i64
        };
        if negr {
            Fx { raw: -qc }
        } else {
            Fx { raw: qc }
        }
    }

    pub open spec fn spec_divide(self, o: Fx) -> Fx {
        Fx::spec_new(tdiv(self.raw * FX_ONE as int, o.raw as int))
    }

    /// Fixed-point quotient, truncated toward zero, then saturated.
    pub fn divide(self, o: Fx) -> (r: Fx)
        requires
            self.wf(),
            o.wf(),
            o.raw != 0,
        ensures
            r == self.spec_divide(o),
            r.wf(),
    {
        let a = self.raw;
        let b = o.raw;
        let negr = (a < 0) != (b < 0);
        let am: u64 = if a < 0 {
            (-a) as u64
        } else {
            a as u64
        };
        let bm: u64 = if b < 0 {
            (-b) as u64
        } else {
            b as u64
        };
        proof {
            assert(am == abs(a as int));
            assert(bm == abs(b as int));
            assert(am as int * (FX_ONE as int) == abs(a as int * FX_ONE as int)) by (nonlinear_arith)
                requires
                    am == abs(a as int);
            let n = a as int * FX_ONE as int;
            assert((negr && n != 0) ==> (n < 0) != (b < 0));
            assert(!negr ==> (n < 0) == (b < 0) || n == 0);
        }
        let p: u64 = am * (FX_ONE as u64);
        let q: u64 = p / bm;
        let qc: i64 = if q > (FX_MAX as u64) {
            FX_MAX
        } else {
            q as i64
        };
        if negr {
            Fx { raw: -qc }
        } else {
            Fx { raw: qc }
        }
    }

    pub open spec fn spec_over_count(self, n: int) -> Fx {
        Fx::spec_new(tdiv(self.raw as int, n))
    }

    /// Divide by a positive count, truncating toward zero: the scalar
    /// part of averaging a sum over a roster.
    pub fn over_count(self, n: usize) -> (r: Fx)
        requires
            self.wf(),
            n > 0,
        ensures
            r == self.spec_over_count(n as int),
            r.wf(),
    {
        let am: u64 = mag(self.raw);
        let q: u64 = am / (n as u64);
        proof {
            lemma_div_is_ordered_by_denominator(am as int, 1, n as int);
            assert(am as int / 1 == am as int);
        }
        let qi: i64 = q as i64;
        if self.raw < 0 {
            Fx { raw: -qi }
        } else {
            Fx { raw: qi }
        }
    }

    pub open spec fn spec_clamp(self, lo: Fx, hi: Fx) -> Fx {
        if self.raw < lo.raw {
            lo
        } else if self.raw > hi.raw {
            hi
        } else {
            self
        }
    }

    /// Clamp into the closed interval `[lo, hi]`.
    pub fn clamp(self, lo: Fx, hi: Fx) -> (r: Fx)
        requires
            lo.raw <= hi.raw,
        ensures
            r == self.spec_clamp(lo, hi),
            lo.raw <= r.raw <= hi.raw,
    {
        if self.raw < lo.raw {
            lo
        } else if self.raw > hi.raw {
            hi
        } else {
            self
        }
    }

    pub open spec fn spec_inf(self, o: Fx) -> Fx {
        if self.raw <= o.raw {
            self
        } else {
            o
        }
    }

    /// The smaller of two scalars.
    pub fn inf(self, o: Fx) -> (r: Fx)
        ensures
            r == self.spec_inf(o),
    {
        if self.raw <= o.raw {
            self
        } else {
            o
        }
    }

    pub open spec fn spec_sup(self, o: Fx) -> Fx {
        if self.raw >= o.raw {
            self
        } else {
            o
        }
    }

    /// The larger of two scalars.
    pub fn sup(self, o: Fx) -> (r: Fx)
        ensures
            r == self.spec_sup(o),
    {
        if self.raw >= o.raw {
            self
        } else {
            o
        }
    }

    /// The interpolation factor actually applied: `f` clamped to `[0, 1]`.
    pub open spec fn spec_factor(f: Fx) -> int {
        if f.raw < 0 {
            0
        } else if f.raw > FX_ONE {
            FX_ONE as int
        } else {
            f.raw as int
        }
    }

    pub open spec fn spec_lerp(self, goal: Fx, f: Fx) -> Fx {
        Fx::spec_new(self.raw + tdiv((goal.raw - self.raw) * Fx::spec_factor(f), FX_ONE as int))
    }

    /// Move from `self` toward `goal` by the fraction `f` (clamped to
    /// `[0, 1]`): exponential smoothing when called once per tick.
    pub fn lerp(self, goal: Fx, f: Fx) -> (r: Fx)
        requires
            self.wf(),
            goal.wf(),
        ensures
            r == self.spec_lerp(goal, f),
            r.wf(),
    {
        let fc: i64 = if f.raw < 0 {
            0
        } else if f.raw > FX_ONE {
            FX_ONE
        } else {
            f.raw
        };
        let d: i64 = goal.raw - self.raw;
        let negr = d < 0;
        let dm: u64 = if d < 0 {
            (-d) as u64
        } else {
            d as u64
        };
        proof {
            assert(dm == abs(d as int));
            assert(dm as int * fc as int == abs(d as int * fc as int)) by (nonlinear_arith)
                requires
                    dm == abs(d as int),
                    fc >= 0;
            assert(dm as int * fc as int <= 2_000_000_000 * 10_000) by (nonlinear_arith)
                requires
                    dm <= 2_000_000_000,
                    0 <= fc <= 10_000;
            assert((negr && d as int * fc as int != 0) ==> (d as int * fc as int) < 0) by (nonlinear_arith)
                requires
                    negr == (d < 0),
                    fc >= 0;
            assert(!negr ==> d as int * fc as int >= 0) by (nonlinear_arith)
                requires
                    negr == (d < 0),
                    fc >= 0;
        }
        let p: u64 = dm * (fc as u64);
        let q: u64 = p / (FX_ONE as u64);
        proof {
            assert(p as int <= dm as int * FX_ONE as int) by (nonlinear_arith)
                requires
                    p == dm as int * fc as int,
                    fc <= FX_ONE as int,
                    dm >= 0;
            lemma_div_is_ordered(p as int, dm as int * FX_ONE as int, FX_ONE as int);
            assert(dm as int * FX_ONE as int == FX_ONE as int * dm as int) by (nonlinear_arith);
            lemma_div_multiples_vanish(dm as int, FX_ONE as int);
            assert(q <= dm);
        }
        let qi: i64 = q as i64;
        let step: i64 = if negr {
            -qi
        } else {
            qi
        };
        Fx::new(self.raw + step)
    }
}

/// The magnitude of a scalar's raw value, as an unsigned machine word.
pub fn mag(a: i64) -> (r: u64)
    requires
        a != i64::MIN,
    ensures
        r == abs(a as int),
{
    if a < 0 {
        (-a) as u64
    } else {
        a as u64
    }
}

/// The integer square root, rounded down: the largest `r` with `r * r <= n`.
pub open spec fn sqrt_floor(n: int) -> int
    decreases n,
{
    if n < 1 {
        0
    } else {
        let r = sqrt_floor(n - 1);
        if (r + 1) * (r + 1) <= n {
            r + 1
        } else {
            r
        }
    }
}

/// `sqrt_floor` is what its name says: its square is at most `n` and the
/// next square is beyond `n`.
pub proof fn lemma_sqrt_floor(n: int)
    requires
        n >= 0,
    ensures
        0 <= sqrt_floor(n),
        sqrt_floor(n) * sqrt_floor(n) <= n,
        n < (sqrt_floor(n) + 1) * (sqrt_floor(n) + 1),
    decreases n,
{
    if n >= 1 {
        lemma_sqrt_floor(n - 1);
        let r0 = sqrt_floor(n - 1);
        if (r0 + 1) * (r0 + 1) <= n {
            assert((r0 + 1) * (r0 + 1) < (r0 + 2) * (r0 + 2)) by (nonlinear_arith)
                requires
                    r0 >= 0;
        }
    }
}

/// Executable integer square root by bisection.
pub fn isqrt(n: u64) -> (r: u64)
    requires
        n <= 12_000_000_000_000_000_000,
    ensures
        r == sqrt_floor(n as int),
{
    proof {
        lemma_sqrt_floor(n as int);
    }
    let mut lo: u64 = 0;
    let mut hi: u64 = 3_500_000_000;
    proof {
        assert((3_500_000_000 as int) * 3_500_000_000 == 12_250_000_000_000_000_000)
            by (nonlinear_arith);
    }
    while hi - lo > 1
        invariant
            lo < hi <= 3_500_000_000,
            n <= 12_000_000_000_000_000_000,
            lo as int * lo as int <= n as int,
            (n as int) < hi as int * hi as int,
        decreases hi - lo,
    {
        let mid = lo + (hi - lo) / 2;
        proof {
            assert(mid as int * mid as int <= 12_250_000_000_000_000_000) by (nonlinear_arith)
                requires
                    mid <= 3_500_000_000;
        }
        if mid * mid <= n {
            lo = mid;
        } else {
            hi = mid;
        }
    }
    proof {
        let r = sqrt_floor(n as int);
        assert(lo as int == r) by (nonlinear_arith)
            requires
                r >= 0,
                lo >= 0,
                r * r <= n as int,
                (n as int) < (r + 1) * (r + 1),
                lo as int * lo as int <= n as int,
                (n as int) < (lo as int + 1) * (lo as int + 1);
    }
    lo
}

/// The result of `lerp` lies between its two endpoints, so smoothing can
/// never overshoot the goal nor leave the interval the endpoints span.
pub proof fn lemma_lerp_between(a: Fx, b: Fx, f: Fx)
    requires
        a.wf(),
        b.wf(),
    ensures
        a.raw <= b.raw ==> a.raw <= a.spec_lerp(b, f).raw <= b.raw,
        b.raw <= a.raw ==> b.raw <= a.spec_lerp(b, f).raw <= a.raw,
{
    let fc = Fx::spec_factor(f);
    let d = b.raw - a.raw;
    let q = tdiv(d * fc, FX_ONE as int);
    let ad = abs(d) as int;
    assert(0 <= fc <= FX_ONE as int);
    assert(abs(d * fc) as int == ad * fc) by (nonlinear_arith)
        requires
            ad == abs(d) as int,
            fc >= 0;
    assert(ad * fc <= ad * FX_ONE as int) by (nonlinear_arith)
        requires
            ad >= 0,
            0 <= fc <= FX_ONE as int;
    lemma_div_is_ordered(ad * fc, ad * FX_ONE as int, FX_ONE as int);
    assert(ad * FX_ONE as int == FX_ONE as int * ad) by (nonlinear_arith);
    lemma_div_multiples_vanish(ad, FX_ONE as int);
    assert(ad * fc / (FX_ONE as int) <= ad);
    lemma_div_pos_is_pos(ad * fc, FX_ONE as int);
    assert((d * fc < 0) == (d < 0 && fc > 0)) by (nonlinear_arith)
        requires
            fc >= 0;
    assert(d >= 0 ==> 0 <= q <= d);
    assert(d < 0 ==> d <= q <= 0);
    assert(a.spec_lerp(b, f).raw == clip(a.raw + q));
}

} // verus!
