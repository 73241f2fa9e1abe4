//! The joints of the arm and the table of their reference angles.
use vstd::prelude::*;
use crate::units::{angle_ok};

verus! {

/// One rotating segment of the arm.
#[derive(Clone, Copy, Debug, PartialEq, Eq, Structural)]
pub enum Joint {
    Shoulder,
    LowerArm,
    Elbow,
    UpperArm,
    Wrist,
}

/// Number of joints in the arm.
pub const JOINT_COUNT: usize = 5;

/// The slot of a joint in the reference table.
pub open spec fn slot_of(j: Joint) -> int {
    match j {
        Joint::Shoulder => 0,
        Joint::LowerArm => 1,
        Joint::Elbow => 2,
        Joint::UpperArm => 3,
        Joint::Wrist => 4,
    }
}

impl Joint {
    /// The slot of this joint in the reference table.
    pub fn slot(self) -> (r: usize)
        ensures
            r == slot_of(self),
            r < JOINT_COUNT,
    {
        match self {
            Joint::Shoulder => 0,
            Joint::LowerArm => 1,
            Joint::Elbow => 2,
            Joint::UpperArm => 3,
            Joint::Wrist => 4,
        }
    }
}

/// One reference angle per joint, captured on demand.
#[derive(Clone, Debug)]
pub struct ReferenceRegistry {
    slots: Vec<i64>,
}

impl View for ReferenceRegistry {
    type V = Seq<i64>;

    closed spec fn view(&self) -> Seq<i64> {
        self.slots@
    }
}

impl ReferenceRegistry {
    /// Five slots, each holding a representable angle.
    pub open spec fn wf(&self) -> bool {
        &&& self@.len() == JOINT_COUNT
        &&& forall|i: int| 0 <= i < JOINT_COUNT ==> angle_ok(#[trigger] self@[i] as int)
    }

    /// The reference angle of joint `j`.
    pub open spec fn reference(&self, j: Joint) -> i64 {
        self@[slot_of(j)]
    }

    /// A table with every slot at zero.
    pub fn new() -> (r: ReferenceRegistry)
        ensures
            r.wf(),
            forall|j: Joint| r.reference(j) == 0,
    {
        let r = ReferenceRegistry { slots: vec![0, 0, 0, 0, 0] };
        assert(r@ =~= seq![0i64, 0, 0, 0, 0]);
        r
    }

    /// The reference angle of joint `j`.
    pub fn get(&self, j: Joint) -> (r: i64)
        requires
            self.wf(),
        ensures
            r == self.reference(j),
            angle_ok(r as int),
    {
        self.slots[j.slot()]
    }

    /// Overwrites the reference angle of joint `j`; the other slots keep theirs.
    pub fn set(&mut self, j: Joint, a: i64)
        requires
            old(self).wf(),
            angle_ok(a as int),
        ensures
            final(self).wf(),
            final(self)@ == old(self)@.update(slot_of(j), a),
    {
        let i: usize = j.slot();
        self.slots.set(i, a);
    }
}

} // verus!
