//! Per-joint rotational control for a five-joint manipulator arm.
//!
//! Each tick, every joint's controller runs four steps in order: it flips
//! manual control when its toggle key goes down (edge-triggered, so holding
//! the key keeps manual control as the first tick left it), captures its
//! reference angle when the mark key is held, pulls the joint toward that
//! reference in proportion to the deviation when the return key is held,
//! and, under manual control, turns it by `speed * elapsed` per rotate key.
//! Bounds are soft: they are tested before a step, so the last step may
//! carry a joint past a bound by less than one increment.
//!
//! Angles are fixed-point integers in micro-radians and times are integers
//! in microseconds; speeds are micro-radians per second. A negative or
//! out-of-range time step counts as zero.
pub mod joint;
pub mod keys;
pub mod laws;
pub mod registry;
pub mod rig;
pub mod units;
