//! The scene camera: a focus point and a height over the focal plane,
//! each smoothed toward its goal with a shared rate.
//!
//! Requested heights are clamped into `[height_min, height_max]` when the
//! goal is set, never when it is read, so the height can only ever hold a
//! clamped value once a goal has been applied. The lower clamp bound
//! doubles as the fixed menu overview height.
use crate::fx::lemma_lerp_between;
use crate::fx::Fx;
use crate::vec::Vec3;
use vstd::prelude::*;

verus! {

/// Default camera height: 50 units above the focal plane.
pub const CAMERA_HEIGHT_DEFAULT: i64 = 500_000;

/// Lowest height a goal may take: 10 units, also the menu overview.
pub const CAMERA_HEIGHT_MIN: i64 = 100_000;

/// Highest height a goal may take: 140 units.
pub const CAMERA_HEIGHT_MAX: i64 = 1_400_000;

/// Shared pan and zoom smoothing rate: 1.8 per second.
pub const CAMERA_SPEED: i64 = 18_000;

/// A smoothly following viewpoint.
#[derive(Clone, Copy, PartialEq, Eq, Structural, Debug)]
pub struct Camera {
    /// Eye point: the focus plus the height along z.
    pub position: Vec3,
    /// The point currently looked at.
    pub focus: Vec3,
    /// Fixed up direction for the view transform.
    pub up: Vec3,
    pub height: Fx,
    pub height_min: Fx,
    pub height_max: Fx,
    /// Smoothing rate for both pan and zoom.
    pub speed: Fx,
    pub focus_goal: Vec3,
    pub height_goal: Fx,
    pub is_smooth_zoom: bool,
    pub is_smooth_pan: bool,
}

impl Camera {
    /// The clamp bounds are ordered and both the height and its goal lie
    /// between them; every goal write and every update preserves this.
    pub open spec fn wf(self) -> bool {
        self.position.wf() && self.focus.wf() && self.up.wf() && self.focus_goal.wf()
            && self.speed.wf() && self.height_min.wf() && self.height_max.wf()
            && self.height_min.raw <= self.height_max.raw
            && self.height_min.raw <= self.height.raw <= self.height_max.raw
            && self.height_min.raw <= self.height_goal.raw <= self.height_max.raw
    }

    pub open spec fn spec_new() -> Camera {
        Camera {
            position: Vec3 {
                x: Fx::spec_zero(),
                y: Fx::spec_zero(),
                z: Fx { raw: CAMERA_HEIGHT_DEFAULT },
            },
            focus: Vec3::spec_zero(),
            up: Vec3 { x: Fx::spec_zero(), y: Fx { raw: 10_000 }, z: Fx::spec_zero() },
            height: Fx { raw: CAMERA_HEIGHT_DEFAULT },
            height_min: Fx { raw: CAMERA_HEIGHT_MIN },
            height_max: Fx { raw: CAMERA_HEIGHT_MAX },
            speed: Fx { raw: CAMERA_SPEED },
            focus_goal: Vec3::spec_zero(),
            height_goal: Fx { raw: CAMERA_HEIGHT_DEFAULT },
            is_smooth_zoom: true,
            is_smooth_pan: true,
        }
    }

    /// Create a new camera with the fixed default values.
    pub fn new() -> (r: Camera)
        ensures
            r == Camera::spec_new(),
            r.wf(),
    {
        Camera {
            position: Vec3 { x: Fx::zero(), y: Fx::zero(), z: Fx { raw: CAMERA_HEIGHT_DEFAULT } },
            focus: Vec3::zero(),
            up: Vec3 { x: Fx::zero(), y: Fx { raw: 10_000 }, z: Fx::zero() },
            height: Fx { raw: CAMERA_HEIGHT_DEFAULT },
            height_min: Fx { raw: CAMERA_HEIGHT_MIN },
            height_max: Fx { raw: CAMERA_HEIGHT_MAX },
            speed: Fx { raw: CAMERA_SPEED },
            focus_goal: Vec3::zero(),
            height_goal: Fx { raw: CAMERA_HEIGHT_DEFAULT },
            is_smooth_zoom: true,
            is_smooth_pan: true,
        }
    }

    /// The camera after one tick: focus and height move toward their
    /// goals, by smoothing or by snapping, and the eye point follows.
    pub open spec fn spec_update(self, dt: Fx) -> Camera {
        let f = self.speed.spec_times(dt);
        let focus = if self.is_smooth_pan {
            self.focus.spec_lerp(self.focus_goal, f)
        } else {
            self.focus_goal
        };
        let height = if self.is_smooth_zoom {
            self.height.spec_lerp(self.height_goal, f)
        } else {
            self.height_goal
        };
        Camera {
            position: focus.spec_plus(
                Vec3 { x: Fx::spec_zero(), y: Fx::spec_zero(), z: height },
            ),
            focus,
            height,
            ..self
        }
    }

    /// Advance focus and height toward their goals for a tick of `dt`.
    pub fn update(&mut self, dt: Fx)
        requires
            old(self).wf(),
            dt.wf(),
        ensures
            *final(self) == old(self).spec_update(dt),
            final(self).wf(),
    {
        let f = self.speed.times(dt);
        if self.is_smooth_pan {
            self.focus = self.focus.lerp(self.focus_goal, f);
        } else {
            self.focus = self.focus_goal;
        }
        if self.is_smooth_zoom {
            proof {
                lemma_lerp_between(self.height, self.height_goal, f);
            }
            self.height = self.height.lerp(self.height_goal, f);
        } else {
            self.height = self.height_goal;
        }
        self.position = self.focus.plus(Vec3 { x: Fx::zero(), y: Fx::zero(), z: self.height });
    }

    /// Retarget the pan: only the goal moves, never the focus itself.
    pub fn move_to_focus(&mut self, position: Vec3)
        requires
            old(self).wf(),
            position.wf(),
        ensures
            *final(self) == (Camera { focus_goal: position, ..*old(self) }),
            final(self).wf(),
    {
        self.focus_goal = position;
    }

    /// Set the focus goal and jump the camera there at once.
    pub fn _set_focus(&mut self, position: Vec3)
        requires
            old(self).wf(),
            position.wf(),
        ensures
            *final(self) == (Camera {
                focus_goal: position,
                focus: position,
                position: position.spec_plus(
                    Vec3 { x: Fx::spec_zero(), y: Fx::spec_zero(), z: old(self).height },
                ),
                ..*old(self)
            }),
            final(self).wf(),
    {
        self.focus_goal = position;
        self.focus = position;
        self.position = position.plus(Vec3 { x: Fx::zero(), y: Fx::zero(), z: self.height });
    }

    /// What a requested height becomes as a goal: clamped into range.
    pub open spec fn spec_clamped_height(self, distance: Fx) -> Fx {
        distance.spec_clamp(self.height_min, self.height_max)
    }

    /// Retarget the zoom; any requested distance is safe, since it is
    /// clamped into `[height_min, height_max]` before it is stored.
    pub fn move_to_height(&mut self, distance: Fx)
        requires
            old(self).wf(),
        ensures
            *final(self) == (Camera {
                height_goal: old(self).spec_clamped_height(distance),
                ..*old(self)
            }),
            final(self).wf(),
            old(self).height_min.raw <= final(self).height_goal.raw <= old(self).height_max.raw,
    {
        self.height_goal = distance.clamp(self.height_min, self.height_max);
    }

    /// Set the height goal, clamped, and jump the zoom there at once.
    pub fn _set_height(&mut self, distance: Fx)
        requires
            old(self).wf(),
        ensures
            *final(self) == (Camera {
                height_goal: old(self).spec_clamped_height(distance),
                height: old(self).spec_clamped_height(distance),
                ..*old(self)
            }),
            final(self).wf(),
    {
        self.height_goal = distance.clamp(self.height_min, self.height_max);
        self.height = self.height_goal;
    }
}

/// Height stays clamped for every requested distance, huge or negative:
/// after a `move_to_height` and any number of updates, both the goal and
/// the smoothed height lie within `[height_min, height_max]`.
pub proof fn lemma_height_always_clamped(cam: Camera, distance: Fx, dts: Seq<Fx>)
    requires
        cam.wf(),
    ensures
        spec_updates(
            Camera { height_goal: cam.spec_clamped_height(distance), ..cam },
            dts,
        ).wf(),
        cam.height_min.raw <= spec_updates(
            Camera { height_goal: cam.spec_clamped_height(distance), ..cam },
            dts,
        ).height.raw <= cam.height_max.raw,
    decreases dts.len(),
{
    let moved = Camera { height_goal: cam.spec_clamped_height(distance), ..cam };
    lemma_updates_keep_wf(moved, dts);
    lemma_updates_keep_bounds(moved, dts);
}

/// The camera after a sequence of update ticks.
pub open spec fn spec_updates(cam: Camera, dts: Seq<Fx>) -> Camera
    decreases dts.len(),
{
    if dts.len() == 0 {
        cam
    } else {
        spec_updates(cam.spec_update(dts[0]), dts.drop_first())
    }
}

/// One update keeps the camera well formed.
pub proof fn lemma_update_keeps_wf(cam: Camera, dt: Fx)
    requires
        cam.wf(),
    ensures
        cam.spec_update(dt).wf(),
{
    let f = cam.speed.spec_times(dt);
    lemma_lerp_between(cam.height, cam.height_goal, f);
    lemma_lerp_between(cam.focus.x, cam.focus_goal.x, f);
    lemma_lerp_between(cam.focus.y, cam.focus_goal.y, f);
    lemma_lerp_between(cam.focus.z, cam.focus_goal.z, f);
}

proof fn lemma_updates_keep_wf(cam: Camera, dts: Seq<Fx>)
    requires
        cam.wf(),
    ensures
        spec_updates(cam, dts).wf(),
    decreases dts.len(),
{
    if dts.len() > 0 {
        lemma_update_keeps_wf(cam, dts[0]);
        lemma_updates_keep_wf(cam.spec_update(dts[0]), dts.drop_first());
    }
}

proof fn lemma_updates_keep_bounds(cam: Camera, dts: Seq<Fx>)
    requires
        cam.wf(),
    ensures
        spec_updates(cam, dts).height_min == cam.height_min,
        spec_updates(cam, dts).height_max == cam.height_max,
    decreases dts.len(),
{
    if dts.len() > 0 {
        lemma_update_keeps_wf(cam, dts[0]);
        lemma_updates_keep_bounds(cam.spec_update(dts[0]), dts.drop_first());
    }
}

} // verus!
