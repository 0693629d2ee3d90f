//! A minimal point-mass simulation: cars in the plane under a constant
//! force, integrated with the closed-form step
//! `pos += vel * t + force / (2 * mass) * t^2; vel += force / mass * t`.
//!
//! This is the simulation core in its earliest shape, kept alongside the
//! full scene; its integrator is exact over the fixed-point grid.
use crate::fx::Fx;
use crate::fx::FX_ONE;
use crate::vec::Vec2;
use vstd::arithmetic::div_mod::lemma_div_multiples_vanish;
use vstd::prelude::*;

verus! {

/// A point-mass car in the plane.
#[derive(Clone, Copy, PartialEq, Eq, Structural, Debug)]
pub struct Car {
    pub pos: Vec2,
    pub vel: Vec2,
    pub force: Vec2,
    pub mass: Fx,
}

impl Car {
    pub open spec fn wf(self) -> bool {
        self.pos.wf() && self.vel.wf() && self.force.wf() && self.mass.wf()
            && self.mass.raw > 0
    }

    pub open spec fn spec_new(pos: Vec2, mass: Fx) -> Car {
        Car { pos, vel: Vec2::spec_zero(), force: Vec2::spec_zero(), mass }
    }

    /// A resting car of the given mass; the mass must be positive.
    pub fn new(pos: Vec2, mass: Fx) -> (r: Car)
        requires
            pos.wf(),
            mass.wf(),
            mass.raw > 0,
        ensures
            r == Car::spec_new(pos, mass),
            r.wf(),
    {
        Car { pos, vel: Vec2::zero(), force: Vec2::zero(), mass }
    }

    /// Twice the mass, as used by the quadratic term; positive whenever
    /// the mass is.
    pub open spec fn spec_double_mass(self) -> Fx {
        self.mass.spec_times(Fx { raw: (2 * FX_ONE) as i64 })
    }

    /// One integration step of length `time_step`.
    pub open spec fn spec_run(self, time_step: Fx) -> Car {
        let quad = self.force.spec_divide(self.spec_double_mass()).spec_scale(
            time_step.spec_times(time_step),
        );
        let pos = self.pos.spec_plus(self.vel.spec_scale(time_step)).spec_plus(quad);
        let vel = self.vel.spec_plus(self.force.spec_divide(self.mass).spec_scale(time_step));
        Car { pos, vel, ..self }
    }

    /// Advance position and velocity by one positive time step.
    pub fn run(&mut self, time_step: Fx)
        requires
            old(self).wf(),
            time_step.wf(),
            time_step.raw > 0,
        ensures
            *final(self) == old(self).spec_run(time_step),
            final(self).wf(),
    {
        let double_mass = self.mass.times(Fx { raw: 2 * FX_ONE });
        proof {
            lemma_double_mass_positive(self.mass);
        }
        let quad = self.force.divide(double_mass).scale(time_step.times(time_step));
        self.pos = self.pos.plus(self.vel.scale(time_step)).plus(quad);
        self.vel = self.vel.plus(self.force.divide(self.mass).scale(time_step));
    }
}

/// Doubling a positive well-formed mass keeps it positive (saturation
/// can cap it, never zero it).
proof fn lemma_double_mass_positive(mass: Fx)
    requires
        mass.wf(),
        mass.raw > 0,
    ensures
        mass.spec_times(Fx { raw: (2 * FX_ONE) as i64 }).raw > 0,
{
    let m = mass.raw as int;
    let n = m * ((2 * FX_ONE) as i64) as int;
    assert(n == 10_000 * (2 * m)) by (nonlinear_arith)
        requires
            n == m * 20_000;
    lemma_div_multiples_vanish(2 * m, 10_000);
    assert(crate::fx::tdiv(n, crate::fx::FX_ONE as int) == 2 * m);
}

/// The prototype scene: a line of unit-mass cars.
#[derive(Debug)]
pub struct Scene {
    pub cars: Vec<Car>,
}

pub open spec fn all_sim_cars_wf(cars: Seq<Car>) -> bool {
    forall|i: int| 0 <= i < cars.len() ==> (#[trigger] cars[i]).wf()
}

impl Scene {
    pub open spec fn wf(self) -> bool {
        all_sim_cars_wf(self.cars@)
    }

    /// A new scene with `cars` unit-mass cars, one world unit apart.
    pub fn new(cars: usize) -> (r: Scene)
        ensures
            r.cars@.len() == cars,
            forall|i: int|
                0 <= i < cars ==> #[trigger] r.cars@[i] == Car::spec_new(
                    Vec2 { x: Fx::spec_from_units(i), y: Fx::spec_zero() },
                    Fx { raw: FX_ONE },
                ),
            r.wf(),
    {
        let mut v: Vec<Car> = Vec::new();
        let mut i: usize = 0;
        while i < cars
            invariant
                i <= cars,
                v@.len() == i,
                forall|j: int|
                    0 <= j < i ==> #[trigger] v@[j] == Car::spec_new(
                        Vec2 { x: Fx::spec_from_units(j), y: Fx::spec_zero() },
                        Fx { raw: FX_ONE },
                    ),
                all_sim_cars_wf(v@),
            decreases cars - i,
        {
            let x = if i > 100_000 {
                Fx { raw: crate::fx::FX_MAX }
            } else {
                Fx::from_units(i as i64)
            };
            v.push(Car::new(Vec2 { x, y: Fx::zero() }, Fx { raw: FX_ONE }));
            i = i + 1;
        }
        Scene { cars: v }
    }

    /// Advance every car by a positive time step, in roster order.
    pub fn run(&mut self, time_step: Fx)
        requires
            old(self).wf(),
            time_step.wf(),
            time_step.raw > 0,
        ensures
            final(self).cars@ == Seq::new(
                old(self).cars@.len(),
                |i: int| old(self).cars@[i].spec_run(time_step),
            ),
            final(self).wf(),
    {
        let ghost cars0 = self.cars@;
        let n = self.cars.len();
        let mut i: usize = 0;
        while i < n
            invariant
                i <= n,
                n == cars0.len(),
                self.cars@.len() == n,
                time_step.wf(),
                time_step.raw > 0,
                all_sim_cars_wf(cars0),
                all_sim_cars_wf(self.cars@),
                forall|j: int| i <= j < n ==> self.cars@[j] == cars0[j],
                forall|j: int| 0 <= j < i ==> self.cars@[j] == cars0[j].spec_run(time_step),
            decreases n - i,
        {
            let mut c = self.cars[i];
            c.run(time_step);
            self.cars[i] = c;
            i = i + 1;
        }
        proof {
            assert(self.cars@ =~= Seq::new(cars0.len(), |j: int| cars0[j].spec_run(time_step)));
        }
    }
}

} // verus!
