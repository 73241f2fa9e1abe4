//! One joint's configuration, state and per-tick controller.
use vstd::prelude::*;
use crate::keys::{Key, KeySet, MARK_KEY, RETURN_KEY, ROTATE_NEGATIVE_KEY, ROTATE_POSITIVE_KEY};
use crate::registry::{Joint, ReferenceRegistry, slot_of};
use crate::units::{
    angle_ok, speed_ok, elapsed_of, saturate, manual_step, return_target,
    sanitize_elapsed, saturate_angle, manual_increment, return_toward,
};

verus! {

/// The rotation axis a joint's keys and bounds act upon.
#[derive(Clone, Copy, Debug, PartialEq, Eq, Structural)]
pub enum Axis {
    X,
    Y,
    Z,
}

/// The fixed wiring of a joint: its axis, its toggle key and its soft bounds
/// (`None` is unconstrained).
#[derive(Clone, Copy, Debug, PartialEq, Eq, Structural)]
pub struct JointConfig {
    pub joint: Joint,
    pub axis: Axis,
    pub toggle: Key,
    pub upper: Option<i64>,
    pub lower: Option<i64>,
}

/// The wiring of each joint of the arm.
pub open spec fn config_of(j: Joint) -> JointConfig {
    match j {
        Joint::Shoulder => JointConfig {
            joint: j, axis: Axis::Y, toggle: Key::E, upper: None, lower: None,
        },
        Joint::LowerArm => JointConfig {
            joint: j, axis: Axis::X, toggle: Key::W, upper: Some(700_000i64), lower: Some(-300_000i64),
        },
        Joint::Elbow => JointConfig {
            joint: j, axis: Axis::X, toggle: Key::Q, upper: Some(100_000i64), lower: Some(-800_000i64),
        },
        Joint::UpperArm => JointConfig {
            joint: j, axis: Axis::X, toggle: Key::R, upper: Some(1_000_000i64), lower: Some(-1_000_000i64),
        },
        Joint::Wrist => JointConfig {
            joint: j, axis: Axis::Z, toggle: Key::T, upper: Some(1_000_000i64), lower: Some(-1_000_000i64),
        },
    }
}

impl JointConfig {
    /// The wiring of joint `j`.
    pub fn of(j: Joint) -> (r: JointConfig)
        ensures
            r == config_of(j),
    {
        match j {
            Joint::Shoulder => JointConfig {
                joint: j, axis: Axis::Y, toggle: Key::E, upper: None, lower: None,
            },
            Joint::LowerArm => JointConfig {
                joint: j, axis: Axis::X, toggle: Key::W, upper: Some(700_000i64), lower: Some(-300_000i64),
            },
            Joint::Elbow => JointConfig {
                joint: j, axis: Axis::X, toggle: Key::Q, upper: Some(100_000i64), lower: Some(-800_000i64),
            },
            Joint::UpperArm => JointConfig {
                joint: j, axis: Axis::X, toggle: Key::R, upper: Some(1_000_000i64), lower: Some(-1_000_000i64),
            },
            Joint::Wrist => JointConfig {
                joint: j, axis: Axis::Z, toggle: Key::T, upper: Some(1_000_000i64), lower: Some(-1_000_000i64),
            },
        }
    }
}

/// Whether angle `a` is below the upper bound (always, when there is none).
pub open spec fn below_upper(c: JointConfig, a: int) -> bool {
    match c.upper {
        Some(hi) => a < hi,
        None => true,
    }
}

/// Whether angle `a` is above the lower bound (always, when there is none).
pub open spec fn above_lower(c: JointConfig, a: int) -> bool {
    match c.lower {
        Some(lo) => a > lo,
        None => true,
    }
}

/// A joint's angle about its control axis and its rotation speed.
#[derive(Clone, Copy, Debug, PartialEq, Eq, Structural)]
pub struct JointState {
    pub angle: i64,
    pub speed: i64,
}

impl JointState {
    /// The angle is representable and the speed is in range.
    pub open spec fn wf(&self) -> bool {
        angle_ok(self.angle as int) && speed_ok(self.speed as int)
    }

    /// A joint at `angle` turning at `speed`.
    pub fn new(angle: i64, speed: i64) -> (r: JointState)
        requires
            angle_ok(angle as int),
            speed_ok(speed as int),
        ensures
            r.wf(),
            r.angle == angle,
            r.speed == speed,
    {
        JointState { angle, speed }
    }
}

/// A joint's controller: its wiring, whether manual control is on, and
/// whether its toggle key was held on the previous tick.
#[derive(Clone, Copy, Debug, PartialEq, Eq, Structural)]
pub struct JointController {
    pub config: JointConfig,
    pub manual: bool,
    pub toggle_was_down: bool,
}

/// What one tick leaves of a joint: its controller, its state and its
/// reference angle.
pub struct JointTick {
    pub controller: JointController,
    pub state: JointState,
    pub reference: i64,
}

/// Manual control flips when the toggle key goes down, and only then.
pub open spec fn next_manual(manual: bool, was_down: bool, down: bool) -> bool {
    if down && !was_down {
        !manual
    } else {
        manual
    }
}

/// The angle after the manual keys of one tick, starting from `a`.
pub open spec fn manual_target(c: JointConfig, a: int, step: int, keys: KeySet) -> int {
    let a1 = if keys.holds(ROTATE_NEGATIVE_KEY) && below_upper(c, a) {
        saturate(a + step)
    } else {
        a
    };
    if keys.holds(ROTATE_POSITIVE_KEY) && above_lower(c, a1) {
        saturate(a1 - step)
    } else {
        a1
    }
}

/// One tick of a joint: toggle, mark, return, then manual rotation, in
/// that order.
#[verifier::opaque]
pub open spec fn tick(
    ctrl: JointController,
    state: JointState,
    reference: i64,
    keys: KeySet,
    raw_elapsed: i64,
) -> JointTick {
    let dt = elapsed_of(raw_elapsed as int);
    let down = keys.holds(ctrl.config.toggle);
    let manual = next_manual(ctrl.manual, ctrl.toggle_was_down, down);
    let r = if keys.holds(MARK_KEY) { state.angle } else { reference };
    let a1 = if keys.holds(RETURN_KEY) {
        return_target(state.angle as int, r as int, state.speed as int, dt)
    } else {
        state.angle as int
    };
    let a2 = if manual {
        manual_target(ctrl.config, a1, manual_step(state.speed as int, dt), keys)
    } else {
        a1
    };
    JointTick {
        controller: JointController { config: ctrl.config, manual, toggle_was_down: down },
        state: JointState { angle: a2 as i64, speed: state.speed },
        reference: r,
    }
}

impl JointController {
    /// A controller for joint `j`, with manual control off.
    pub fn new(j: Joint) -> (r: JointController)
        ensures
            r.config == config_of(j),
            !r.manual,
            !r.toggle_was_down,
    {
        JointController { config: JointConfig::of(j), manual: false, toggle_was_down: false }
    }

    /// Runs one tick of this joint against its state and its slot of the
    /// reference table; no other slot is touched.
    pub fn update(
        &mut self,
        state: &mut JointState,
        registry: &mut ReferenceRegistry,
        keys: &KeySet,
        raw_elapsed: i64,
    )
        requires
            old(state).wf(),
            old(registry).wf(),
        ensures
            final(state).wf(),
            final(registry).wf(),
            final(self).config == old(self).config,
            final(state).speed == old(state).speed,
            ({
                let t = tick(*old(self), *old(state), old(registry).reference(old(self).config.joint), *keys, raw_elapsed);
                &&& *final(self) == t.controller
                &&& *final(state) == t.state
                &&& final(registry)@ == old(registry)@.update(slot_of(old(self).config.joint), t.reference)
            }),
    {
        proof {
            reveal(tick);
        }
        let dt: i64 = sanitize_elapsed(raw_elapsed);
        let joint = self.config.joint;
        let down = keys.is_down(self.config.toggle);
        if down && !self.toggle_was_down {
            self.manual = !self.manual;
        }
        self.toggle_was_down = down;

        let mut r: i64 = registry.get(joint);
        if keys.is_down(MARK_KEY) {
            r = state.angle;
        }
        registry.set(joint, r);

        if keys.is_down(RETURN_KEY) {
            state.angle = return_toward(state.angle, r, state.speed, dt);
        }

        if self.manual {
            let step: i64 = manual_increment(state.speed, dt);
            if keys.is_down(ROTATE_NEGATIVE_KEY) && self.below_upper(state.angle) {
                state.angle = saturate_angle((state.angle as i128) + (step as i128));
            }
            if keys.is_down(ROTATE_POSITIVE_KEY) && self.above_lower(state.angle) {
                state.angle = saturate_angle((state.angle as i128) - (step as i128));
            }
        }
    }

    /// Whether angle `a` is below this joint's upper bound.
    pub fn below_upper(&self, a: i64) -> (r: bool)
        ensures
            r == below_upper(self.config, a as int),
    {
        match self.config.upper {
            Some(hi) => a < hi,
            None => true,
        }
    }

    /// Whether angle `a` is above this joint's lower bound.
    pub fn above_lower(&self, a: i64) -> (r: bool)
        ensures
            r == above_lower(self.config, a as int),
    {
        match self.config.lower {
            Some(lo) => a > lo,
            None => true,
        }
    }
}

} // verus!
