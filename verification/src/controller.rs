//! Player input: maps key press/release edges to a smoothed 2D axis.
//!
//! Four directional keys drive a goal axis whose components are always
//! exactly -1, 0 or +1 world units; the reported axis either snaps to the
//! goal or approaches it exponentially. Scalars carry exactly four
//! decimal digits, so the smoothed axis is truncated to four digits by
//! the representation itself, and no residue can drive persistent tiny
//! motion.
use crate::fx::lemma_lerp_between;
use crate::fx::Fx;
use crate::fx::FX_ONE;
use crate::vec::Vec2;
use vstd::prelude::*;

verus! {

/// Which physical keys a seat is bound to; the key polling itself happens
/// outside the simulation, which only sees the pressed states.
#[derive(Clone, Copy, Debug)]
pub enum ControllerLayout {
    WASD,
    Arrows,
}

/// The pressed state of one controller's five bound keys for one tick.
#[derive(Clone, Copy, PartialEq, Eq, Structural, Debug)]
pub struct KeyState {
    pub forward: bool,
    pub backward: bool,
    pub left: bool,
    pub right: bool,
    pub boost: bool,
}

/// Edge-detection memory: whether each key was down after the last tick.
#[derive(Clone, Copy, PartialEq, Eq, Structural, Debug)]
pub struct ControllerInternal {
    pub is_forward: bool,
    pub is_backward: bool,
    pub is_left: bool,
    pub is_right: bool,
    pub is_boost: bool,
}

impl ControllerInternal {
    pub open spec fn spec_default() -> ControllerInternal {
        ControllerInternal {
            is_forward: false,
            is_backward: false,
            is_left: false,
            is_right: false,
            is_boost: false,
        }
    }

    /// Fresh edge memory; the same for either layout, since the bound keys
    /// themselves live with the window polling.
    pub fn new(_controller_layout: &ControllerLayout) -> (r: ControllerInternal)
        ensures
            r == ControllerInternal::spec_default(),
    {
        ControllerInternal {
            is_forward: false,
            is_backward: false,
            is_left: false,
            is_right: false,
            is_boost: false,
        }
    }
}

impl Default for ControllerInternal {
    fn default() -> (r: ControllerInternal)
        ensures
            r == ControllerInternal::spec_default(),
    {
        ControllerInternal {
            is_forward: false,
            is_backward: false,
            is_left: false,
            is_right: false,
            is_boost: false,
        }
    }
}

/// One key's edge detector: a press edge drives the goal component to its
/// extreme, a release edge resets it to zero, anything else keeps it.
pub open spec fn spec_edge(pressed: bool, was: bool, extreme: Fx, cur: Fx) -> (Fx, bool) {
    if pressed && !was {
        (extreme, true)
    } else if !pressed && was {
        (Fx::spec_zero(), false)
    } else {
        (cur, was)
    }
}

fn edge(pressed: bool, was: bool, extreme: Fx, cur: Fx) -> (r: (Fx, bool))
    ensures
        r == spec_edge(pressed, was, extreme, cur),
{
    if pressed && !was {
        (extreme, true)
    } else if !pressed && was {
        (Fx::zero(), false)
    } else {
        (cur, was)
    }
}

/// Keyboard controller emulation for one seat.
#[derive(Clone, Copy, PartialEq, Eq, Structural, Debug)]
pub struct Controller {
    /// Smooth axis interpolation on, or snap to the goal directly.
    pub is_smooth: bool,
    pub ci: ControllerInternal,
    pub axis_goal: Vec2,
    /// The axis the vehicle reads; smoothed toward `axis_goal`.
    pub axis: Vec2,
    pub boost: bool,
}

/// A goal axis component is exactly one of the three key-driven values.
pub open spec fn goal_component_ok(c: Fx) -> bool {
    c.raw == -FX_ONE || c.raw == 0 || c.raw == FX_ONE
}

/// A smoothed axis component never leaves one world unit of magnitude.
pub open spec fn axis_component_ok(c: Fx) -> bool {
    -FX_ONE <= c.raw <= FX_ONE
}

impl Controller {
    /// Goal components sit on the key grid and the smoothed axis inside
    /// the unit square; `process_input` preserves this.
    pub open spec fn wf(self) -> bool {
        goal_component_ok(self.axis_goal.x) && goal_component_ok(self.axis_goal.y)
            && axis_component_ok(self.axis.x) && axis_component_ok(self.axis.y)
    }

    pub open spec fn spec_new(smooth: bool) -> Controller {
        Controller {
            is_smooth: smooth,
            ci: ControllerInternal::spec_default(),
            axis_goal: Vec2::spec_zero(),
            axis: Vec2::spec_zero(),
            boost: false,
        }
    }

    /// Create a new controller. Smooth axis interpolation for the four
    /// directional keys is on when `smooth` is true.
    pub fn new(smooth: bool, controller_layout: &ControllerLayout) -> (r: Controller)
        ensures
            r == Controller::spec_new(smooth),
            r.wf(),
    {
        Controller {
            is_smooth: smooth,
            ci: ControllerInternal::new(controller_layout),
            axis_goal: Vec2::zero(),
            axis: Vec2::zero(),
            boost: false,
        }
    }

    /// The goal axis and edge memory after one tick of key edges, applied
    /// in the fixed key order: forward, backward, left, right, boost.
    pub open spec fn spec_step(self, keys: KeyState, dt: Fx) -> Controller {
        let (gy1, fwd) = spec_edge(
            keys.forward,
            self.ci.is_forward,
            Fx { raw: FX_ONE },
            self.axis_goal.y,
        );
        let (gy2, bwd) = spec_edge(keys.backward, self.ci.is_backward, Fx { raw: (-FX_ONE) as i64 }, gy1);
        let (gx1, lft) = spec_edge(keys.left, self.ci.is_left, Fx { raw: (-FX_ONE) as i64 }, self.axis_goal.x);
        let (gx2, rgt) = spec_edge(keys.right, self.ci.is_right, Fx { raw: FX_ONE }, gx1);
        let boost = if keys.boost && !self.ci.is_boost {
            true
        } else if !keys.boost && self.ci.is_boost {
            false
        } else {
            self.boost
        };
        let bst = if keys.boost && !self.ci.is_boost {
            true
        } else if !keys.boost && self.ci.is_boost {
            false
        } else {
            self.ci.is_boost
        };
        let goal = Vec2 { x: gx2, y: gy2 };
        let axis = if self.is_smooth {
            Vec2 {
                x: self.axis.x.spec_lerp(goal.x, dt.spec_times(Fx { raw: (5 * FX_ONE) as i64 })),
                y: self.axis.y.spec_lerp(goal.y, dt.spec_times(Fx { raw: (5 * FX_ONE) as i64 })),
            }
        } else {
            goal
        };
        Controller {
            is_smooth: self.is_smooth,
            ci: ControllerInternal {
                is_forward: fwd,
                is_backward: bwd,
                is_left: lft,
                is_right: rgt,
                is_boost: bst,
            },
            axis_goal: goal,
            axis,
            boost,
        }
    }

    /// Process this tick's key states for the controller.
    #[verifier::rlimit(30)]
    pub fn process_input(&mut self, keys: &KeyState, dt: Fx)
        requires
            old(self).wf(),
            dt.wf(),
        ensures
            *final(self) == old(self).spec_step(*keys, dt),
            final(self).wf(),
            !old(self).is_smooth ==> final(self).axis == final(self).axis_goal,
    {
        let (gy1, fwd) = edge(keys.forward, self.ci.is_forward, Fx { raw: FX_ONE }, self.axis_goal.y);
        let (gy2, bwd) = edge(keys.backward, self.ci.is_backward, Fx { raw: -FX_ONE }, gy1);
        let (gx1, lft) = edge(keys.left, self.ci.is_left, Fx { raw: -FX_ONE }, self.axis_goal.x);
        let (gx2, rgt) = edge(keys.right, self.ci.is_right, Fx { raw: FX_ONE }, gx1);
        if keys.boost && !self.ci.is_boost {
            self.boost = true;
            self.ci.is_boost = true;
        } else if !keys.boost && self.ci.is_boost {
            self.boost = false;
            self.ci.is_boost = false;
        }
        self.ci.is_forward = fwd;
        self.ci.is_backward = bwd;
        self.ci.is_left = lft;
        self.ci.is_right = rgt;
        self.axis_goal = Vec2 { x: gx2, y: gy2 };
        if self.is_smooth {
            let f = dt.times(Fx { raw: 5 * FX_ONE });
            proof {
                lemma_lerp_between(self.axis.x, self.axis_goal.x, f);
                lemma_lerp_between(self.axis.y, self.axis_goal.y, f);
            }
            self.axis = Vec2 {
                x: self.axis.x.lerp(self.axis_goal.x, f),
                y: self.axis.y.lerp(self.axis_goal.y, f),
            };
        } else {
            self.axis = self.axis_goal;
        }
    }

    /// The x axis value, within [-1, +1] world units.
    pub fn get_x_axis(&self) -> (r: Fx)
        ensures
            r == self.axis.x,
    {
        self.axis.x
    }

    /// The y axis value, within [-1, +1] world units.
    pub fn get_y_axis(&self) -> (r: Fx)
        ensures
            r == self.axis.y,
    {
        self.axis.y
    }

    /// True while the boost button is held.
    pub fn get_boost(&self) -> (r: bool)
        ensures
            r == self.boost,
    {
        self.boost
    }
}

/// The controller state after a whole sequence of input ticks.
pub open spec fn spec_run_inputs(c: Controller, inputs: Seq<(KeyState, Fx)>) -> Controller
    decreases inputs.len(),
{
    if inputs.len() == 0 {
        c
    } else {
        spec_run_inputs(c.spec_step(inputs[0].0, inputs[0].1), inputs.drop_first())
    }
}

/// One input tick keeps the goal axis on the key grid and the smoothed
/// axis inside the unit square.
pub proof fn lemma_step_preserves_wf(c: Controller, keys: KeyState, dt: Fx)
    requires
        c.wf(),
    ensures
        c.spec_step(keys, dt).wf(),
{
    let s = c.spec_step(keys, dt);
    assert(goal_component_ok(s.axis_goal.x) && goal_component_ok(s.axis_goal.y));
    if c.is_smooth {
        let f = dt.spec_times(Fx { raw: (5 * FX_ONE) as i64 });
        lemma_lerp_between(c.axis.x, s.axis_goal.x, f);
        lemma_lerp_between(c.axis.y, s.axis_goal.y, f);
    }
}

/// Axis bounds hold after every sequence of press/release edges: the goal
/// components are always -1, 0 or +1 and the smoothed axis stays within
/// [-1, +1] on both coordinates.
pub proof fn lemma_axis_always_bounded(c: Controller, inputs: Seq<(KeyState, Fx)>)
    requires
        c.wf(),
    ensures
        spec_run_inputs(c, inputs).wf(),
    decreases inputs.len(),
{
    if inputs.len() > 0 {
        lemma_step_preserves_wf(c, inputs[0].0, inputs[0].1);
        lemma_axis_always_bounded(c.spec_step(inputs[0].0, inputs[0].1), inputs.drop_first());
    }
}

} // verus!
