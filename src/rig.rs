//! The five-joint arm: each joint's controller and state, and the table of
//! reference angles.
use vstd::prelude::*;
use crate::joint::{JointController, JointState, config_of, tick};
use crate::keys::KeySet;
use crate::registry::{Joint, ReferenceRegistry};
use crate::units::MICROS;

verus! {

/// Speed of every joint of a new arm: one radian per second.
pub const DEFAULT_SPEED: i64 = MICROS;

/// A joint's controller together with its state.
#[derive(Clone, Copy, Debug)]
pub struct JointUnit {
    pub controller: JointController,
    pub state: JointState,
}

/// The arm: shoulder, lower arm, elbow, upper arm and wrist.
#[derive(Clone, Debug)]
pub struct ManipulatorRig {
    pub shoulder: JointUnit,
    pub lower_arm: JointUnit,
    pub elbow: JointUnit,
    pub upper_arm: JointUnit,
    pub wrist: JointUnit,
    pub registry: ReferenceRegistry,
}

/// Whether a unit is wired as joint `j` and its state is well formed.
pub open spec fn unit_wf(u: JointUnit, j: Joint) -> bool {
    u.controller.config.joint == j && u.state.wf()
}

/// Whether unit `after` and reference `r` are what one tick makes of unit
/// `before` with reference `r0`.
pub open spec fn unit_ticked(before: JointUnit, r0: i64, after: JointUnit, r: i64, keys: KeySet, raw_elapsed: i64) -> bool {
    let t = tick(before.controller, before.state, r0, keys, raw_elapsed);
    &&& after.controller == t.controller
    &&& after.state == t.state
    &&& r == t.reference
}

impl ManipulatorRig {
    /// Each unit is wired as its own joint; the table has five slots.
    pub open spec fn wf(&self) -> bool {
        &&& unit_wf(self.shoulder, Joint::Shoulder)
        &&& unit_wf(self.lower_arm, Joint::LowerArm)
        &&& unit_wf(self.elbow, Joint::Elbow)
        &&& unit_wf(self.upper_arm, Joint::UpperArm)
        &&& unit_wf(self.wrist, Joint::Wrist)
        &&& self.registry.wf()
    }

    /// The unit of joint `j`.
    pub open spec fn unit(&self, j: Joint) -> JointUnit {
        match j {
            Joint::Shoulder => self.shoulder,
            Joint::LowerArm => self.lower_arm,
            Joint::Elbow => self.elbow,
            Joint::UpperArm => self.upper_arm,
            Joint::Wrist => self.wrist,
        }
    }

    /// An arm at rest: every angle and reference at zero, every speed one
    /// radian per second, manual control off everywhere.
    pub fn new() -> (r: ManipulatorRig)
        ensures
            r.wf(),
            forall|j: Joint| {
                &&& (#[trigger] r.unit(j)).controller.config == config_of(j)
                &&& !r.unit(j).controller.manual
                &&& !r.unit(j).controller.toggle_was_down
                &&& r.unit(j).state.angle == 0
                &&& r.unit(j).state.speed == DEFAULT_SPEED
                &&& r.registry.reference(j) == 0
            },
    {
        let r = ManipulatorRig {
            shoulder: Self::new_unit(Joint::Shoulder),
            lower_arm: Self::new_unit(Joint::LowerArm),
            elbow: Self::new_unit(Joint::Elbow),
            upper_arm: Self::new_unit(Joint::UpperArm),
            wrist: Self::new_unit(Joint::Wrist),
            registry: ReferenceRegistry::new(),
        };
        assert forall|j: Joint| r.unit(j).controller.config.joint == j by {
            match j {
                Joint::Shoulder => {},
                Joint::LowerArm => {},
                Joint::Elbow => {},
                Joint::UpperArm => {},
                Joint::Wrist => {},
            }
        }
        r
    }

    fn new_unit(j: Joint) -> (u: JointUnit)
        ensures
            u.controller.config == config_of(j),
            u.controller.config.joint == j,
            !u.controller.manual,
            !u.controller.toggle_was_down,
            u.state.angle == 0,
            u.state.speed == DEFAULT_SPEED,
            u.state.wf(),
    {
        JointUnit { controller: JointController::new(j), state: JointState::new(0, DEFAULT_SPEED) }
    }

    /// Runs one tick on every joint. Each joint's new controller, state and
    /// reference depend on its own old ones, the keys and the time alone.
    pub fn update(&mut self, raw_elapsed: i64, keys: &KeySet)
        requires
            old(self).wf(),
        ensures
            final(self).wf(),
            forall|j: Joint| unit_ticked(
                old(self).unit(j),
                old(self).registry.reference(j),
                #[trigger] final(self).unit(j),
                final(self).registry.reference(j),
                *keys,
                raw_elapsed,
            ),
    {
        let ghost before = *self;
        self.shoulder.controller.update(&mut self.shoulder.state, &mut self.registry, keys, raw_elapsed);
        self.lower_arm.controller.update(&mut self.lower_arm.state, &mut self.registry, keys, raw_elapsed);
        self.elbow.controller.update(&mut self.elbow.state, &mut self.registry, keys, raw_elapsed);
        self.upper_arm.controller.update(&mut self.upper_arm.state, &mut self.registry, keys, raw_elapsed);
        self.wrist.controller.update(&mut self.wrist.state, &mut self.registry, keys, raw_elapsed);
        assert forall|j: Joint| unit_ticked(
            before.unit(j),
            before.registry.reference(j),
            #[trigger] self.unit(j),
            self.registry.reference(j),
            *keys,
            raw_elapsed,
        ) by {
            match j {
                Joint::Shoulder => {},
                Joint::LowerArm => {},
                Joint::Elbow => {},
                Joint::UpperArm => {},
                Joint::Wrist => {},
            }
        }
    }

    /// The current angle of joint `j` about its control axis.
    pub fn orientation(&self, j: Joint) -> (r: i64)
        ensures
            r == self.unit(j).state.angle,
    {
        match j {
            Joint::Shoulder => self.shoulder.state.angle,
            Joint::LowerArm => self.lower_arm.state.angle,
            Joint::Elbow => self.elbow.state.angle,
            Joint::UpperArm => self.upper_arm.state.angle,
            Joint::Wrist => self.wrist.state.angle,
        }
    }

    /// Whether manual control of joint `j` is on.
    pub fn manual_enabled(&self, j: Joint) -> (r: bool)
        ensures
            r == self.unit(j).controller.manual,
    {
        match j {
            Joint::Shoulder => self.shoulder.controller.manual,
            Joint::LowerArm => self.lower_arm.controller.manual,
            Joint::Elbow => self.elbow.controller.manual,
            Joint::UpperArm => self.upper_arm.controller.manual,
            Joint::Wrist => self.wrist.controller.manual,
        }
    }

    /// The reference angle of joint `j`.
    pub fn reference(&self, j: Joint) -> (r: i64)
        requires
            self.wf(),
        ensures
            r == self.registry.reference(j),
    {
        self.registry.get(j)
    }
}

} // verus!
