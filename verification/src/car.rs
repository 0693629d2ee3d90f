//! A car: pose, boost resource and collider extents, advanced each tick
//! from its controller.
//!
//! The car integrates yaw from steering (scaled by throttle, so a
//! standing car cannot pivot), derives its forward direction from the new
//! yaw, and moves along it at a speed gated by the boost resource. It
//! never looks at other cars: collisions are the scene's business.
use crate::controller::Controller;
use crate::fx::Fx;
use crate::vec::Vec3;
use vstd::prelude::*;
use vstd::string::StringExecFns;

verus! {

/// Yaw change per second at full steering lock: 3.5 radians.
pub const STEER_RATE: i64 = 35_000;

/// Boost drained per second while the boost key is held: 30.
pub const BOOST_DRAIN_RATE: i64 = 300_000;

/// Boost refilled per second while the key is up: 14.
pub const BOOST_REGEN_RATE: i64 = 140_000;

/// A full boost tank: 100.
pub const BOOST_FULL: i64 = 1_000_000;

/// Below 0.1 in the tank the booster no longer fires.
pub const BOOST_CUTOFF: i64 = 1_000;

/// Forward speed multiplier with the booster firing: 14 units per second.
pub const SPEED_BOOSTED: i64 = 140_000;

/// Base forward speed multiplier: 10 units per second.
pub const SPEED_BASE: i64 = 100_000;

/// The collider box is the model's bounding extents scaled by 0.25.
pub const COLLIDER_SCALE: i64 = 2_500;

/// A player-controlled (or idle) car.
#[derive(Clone, Copy, PartialEq, Eq, Structural, Debug)]
pub struct Car {
    /// World-space position.
    pub position: Vec3,
    /// Euler angles in radians; only the z entry (yaw) is ever mutated.
    pub rotation: Vec3,
    /// Boost tank, always within [0, 100].
    pub boost: Fx,
    /// Half extents of the collider box, fixed at construction.
    pub half_extents: Vec3,
}

impl Car {
    /// Pose and extents in range and the boost tank between empty and
    /// full; construction establishes this and every tick preserves it.
    pub open spec fn wf(self) -> bool {
        self.position.wf() && self.rotation.wf() && self.half_extents.wf()
            && 0 <= self.boost.raw <= BOOST_FULL
    }

    pub open spec fn spec_new(mn: Vec3, mx: Vec3) -> Car {
        Car {
            position: Vec3::spec_zero(),
            rotation: Vec3::spec_zero(),
            boost: Fx { raw: BOOST_FULL },
            half_extents: mx.spec_minus(mn).spec_scale(Fx { raw: COLLIDER_SCALE }),
        }
    }

    /// Create a new car at the origin with a full tank; the collider box
    /// is sized from the visual model's bounding extents.
    pub fn new(mn: Vec3, mx: Vec3) -> (r: Car)
        requires
            mn.wf(),
            mx.wf(),
        ensures
            r == Car::spec_new(mn, mx),
            r.wf(),
    {
        Car {
            position: Vec3::zero(),
            rotation: Vec3::zero(),
            boost: Fx { raw: BOOST_FULL },
            half_extents: mx.minus(mn).scale(Fx { raw: COLLIDER_SCALE }),
        }
    }

    /// The boost tank and speed multiplier after one tick: held boost
    /// drains the tank and fires the booster while the tank is above
    /// the cutoff; with the key up, the tank refills at base speed. The
    /// tank is clamped to [0, 100] either way.
    pub open spec fn spec_boost_step(self, dt: Fx, held: bool) -> (Fx, Fx) {
        if held {
            let b = self.boost.spec_minus(dt.spec_times(Fx { raw: BOOST_DRAIN_RATE }))
                .spec_clamp(Fx::spec_zero(), Fx { raw: BOOST_FULL });
            let booster = if b.raw > BOOST_CUTOFF {
                Fx { raw: SPEED_BOOSTED }
            } else {
                Fx { raw: SPEED_BASE }
            };
            (b, booster)
        } else {
            let b = self.boost.spec_plus(dt.spec_times(Fx { raw: BOOST_REGEN_RATE }))
                .spec_clamp(Fx::spec_zero(), Fx { raw: BOOST_FULL });
            (b, Fx { raw: SPEED_BASE })
        }
    }

    /// One kinematic tick. Without a controller the car does not change
    /// at all; with one, yaw turns against steer, the boost tank updates,
    /// and the position advances along the new forward direction.
    pub open spec fn spec_step(self, dt: Fx, controller: Option<Controller>) -> Car {
        match controller {
            Option::None => self,
            Option::Some(ct) => {
                let accel = ct.axis.y;
                let steer = ct.axis.x.spec_times(accel);
                let yaw = self.rotation.z.spec_minus(
                    steer.spec_times(dt).spec_times(Fx { raw: STEER_RATE }),
                );
                let forward = Vec3 {
                    x: yaw.spec_sin().spec_neg(),
                    y: yaw.spec_cos(),
                    z: Fx::spec_zero(),
                };
                let (boost, booster) = self.spec_boost_step(dt, ct.boost);
                Car {
                    position: self.position.spec_plus(
                        forward.spec_scale(accel).spec_scale(booster).spec_scale(dt),
                    ),
                    rotation: Vec3 { x: self.rotation.x, y: self.rotation.y, z: yaw },
                    boost,
                    half_extents: self.half_extents,
                }
            },
        }
    }

    /// Advance the car by `dt` under `controller`; an unbound seat leaves
    /// the car untouched, and the boost tank stays within [0, 100].
    pub fn update(&mut self, dt: Fx, controller: Option<Controller>)
        requires
            old(self).wf(),
            dt.wf(),
            match controller {
                Option::None => true,
                Option::Some(ct) => ct.wf(),
            },
        ensures
            *final(self) == old(self).spec_step(dt, controller),
            final(self).wf(),
            0 <= final(self).boost.raw <= BOOST_FULL,
            controller.is_none() ==> *final(self) == *old(self),
    {
        match controller {
            Option::None => {},
            Option::Some(ct) => {
                let accel = ct.get_y_axis();
                let steer = ct.get_x_axis().times(accel);
                let yaw = self.rotation.z.minus(steer.times(dt).times(Fx { raw: STEER_RATE }));
                self.rotation = Vec3 { x: self.rotation.x, y: self.rotation.y, z: yaw };
                let forward = Vec3 { x: yaw.sin().neg(), y: yaw.cos(), z: Fx::zero() };
                let booster: Fx;
                if ct.get_boost() {
                    self.boost = self.boost.minus(dt.times(Fx { raw: BOOST_DRAIN_RATE })).clamp(
                        Fx::zero(),
                        Fx { raw: BOOST_FULL },
                    );
                    booster = if self.boost.raw > BOOST_CUTOFF {
                        Fx { raw: SPEED_BOOSTED }
                    } else {
                        Fx { raw: SPEED_BASE }
                    };
                } else {
                    self.boost = self.boost.plus(dt.times(Fx { raw: BOOST_REGEN_RATE })).clamp(
                        Fx::zero(),
                        Fx { raw: BOOST_FULL },
                    );
                    booster = Fx { raw: SPEED_BASE };
                }
                self.position = self.position.plus(
                    forward.scale(accel).scale(booster).scale(dt),
                );
            },
        }
    }

    /// The car model file name for an id.
    ///
    /// 1:kart 2:parsche 3:farara 4:lamba 5:gtc1 6:gtc2 7:formula
    pub fn model_from_id(id: u32) -> (r: String)
        ensures
            r@ == Car::spec_model_from_id(id),
    {
        match id {
            1u32 => String::from_str("c01.obj"),
            2u32 => String::from_str("c02.obj"),
            3u32 => String::from_str("c03.obj"),
            4u32 => String::from_str("c04.obj"),
            5u32 => String::from_str("c05.obj"),
            6u32 => String::from_str("c06.obj"),
            7u32 => String::from_str("c07.obj"),
            _ => String::from_str("c01.obj"),
        }
    }

    pub open spec fn spec_model_from_id(id: u32) -> Seq<char> {
        if id == 1 {
            "c01.obj"@
        } else if id == 2 {
            "c02.obj"@
        } else if id == 3 {
            "c03.obj"@
        } else if id == 4 {
            "c04.obj"@
        } else if id == 5 {
            "c05.obj"@
        } else if id == 6 {
            "c06.obj"@
        } else if id == 7 {
            "c07.obj"@
        } else {
            "c01.obj"@
        }
    }

    /// The car color palette file name for an id.
    ///
    /// 1:blue 2:green 3:lime 4:orange 5:purple 6:red 7:yellow
    pub fn color_from_id(id: u32) -> (r: String)
        ensures
            r@ == Car::spec_color_from_id(id),
    {
        match id {
            1u32 => String::from_str("car-blue.png"),
            2u32 => String::from_str("car-green.png"),
            3u32 => String::from_str("car-lime.png"),
            4u32 => String::from_str("car-orange.png"),
            5u32 => String::from_str("car-purple.png"),
            6u32 => String::from_str("car-red.png"),
            7u32 => String::from_str("car-yellow.png"),
            _ => String::from_str("car-blue.png"),
        }
    }

    pub open spec fn spec_color_from_id(id: u32) -> Seq<char> {
        if id == 1 {
            "car-blue.png"@
        } else if id == 2 {
            "car-green.png"@
        } else if id == 3 {
            "car-lime.png"@
        } else if id == 4 {
            "car-orange.png"@
        } else if id == 5 {
            "car-purple.png"@
        } else if id == 6 {
            "car-red.png"@
        } else if id == 7 {
            "car-yellow.png"@
        } else {
            "car-blue.png"@
        }
    }
}

/// One tick keeps a car well formed whatever the controller holds; in
/// particular the boost tank is clamped back into [0, 100].
pub proof fn lemma_step_preserves_wf(c: Car, dt: Fx, controller: Option<Controller>)
    requires
        c.wf(),
    ensures
        c.spec_step(dt, controller).wf(),
{
}

/// A car's state after a whole sequence of controlled ticks.
pub open spec fn spec_run_steps(c: Car, steps: Seq<(Fx, Option<Controller>)>) -> Car
    decreases steps.len(),
{
    if steps.len() == 0 {
        c
    } else {
        spec_run_steps(c.spec_step(steps[0].0, steps[0].1), steps.drop_first())
    }
}

/// Boost clamp: over every sequence of ticks, whatever the time steps
/// and boost-key pattern, the boost tank stays within [0, 100].
pub proof fn lemma_boost_always_clamped(c: Car, steps: Seq<(Fx, Option<Controller>)>)
    requires
        c.wf(),
    ensures
        spec_run_steps(c, steps).wf(),
        0 <= spec_run_steps(c, steps).boost.raw <= BOOST_FULL,
    decreases steps.len(),
{
    if steps.len() > 0 {
        lemma_step_preserves_wf(c, steps[0].0, steps[0].1);
        lemma_boost_always_clamped(c.spec_step(steps[0].0, steps[0].1), steps.drop_first());
    }
}

/// A car's state after a whole sequence of ticks with no controller.
pub open spec fn spec_run_idle(c: Car, dts: Seq<Fx>) -> Car
    decreases dts.len(),
{
    if dts.len() == 0 {
        c
    } else {
        spec_run_idle(c.spec_step(dts[0], Option::None), dts.drop_first())
    }
}

/// An idle car is a fixed point: any number of ticks without a
/// controller changes neither position, rotation nor boost.
pub proof fn lemma_idle_car_unchanged(c: Car, dts: Seq<Fx>)
    ensures
        spec_run_idle(c, dts) == c,
    decreases dts.len(),
{
    if dts.len() > 0 {
        lemma_idle_car_unchanged(c, dts.drop_first());
    }
}

} // verus!
