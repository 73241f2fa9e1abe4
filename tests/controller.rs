use arm_control::joint::{Axis, JointConfig, JointController, JointState};
use arm_control::keys::{Key, KeySet};
use arm_control::registry::{Joint, ReferenceRegistry};
use arm_control::rig::{ManipulatorRig, DEFAULT_SPEED};
use arm_control::units::{
    manual_increment, return_toward, sanitize_elapsed, saturate_angle, MAX_ANGLE, MAX_ELAPSED,
};

fn keys(ks: &[Key]) -> KeySet {
    KeySet::from_keys(ks.to_vec())
}

fn wrist() -> (JointController, JointState, ReferenceRegistry) {
    (
        JointController::new(Joint::Wrist),
        JointState::new(0, 1_000_000),
        ReferenceRegistry::new(),
    )
}

#[test]
fn wrist_rotate_positive_stops_at_lower_bound() {
    let (mut c, mut s, mut reg) = wrist();
    c.update(&mut s, &mut reg, &keys(&[Key::T, Key::Right]), 100_000);
    assert!(c.manual);
    assert_eq!(s.angle, -100_000);
    for _ in 1..25 {
        c.update(&mut s, &mut reg, &keys(&[Key::Right]), 100_000);
    }
    assert_eq!(s.angle, -1_000_000);
    assert!(s.angle >= -1_000_000 - 100_000);
}

#[test]
fn wrist_overshoots_by_less_than_one_step() {
    let (mut c, mut s, mut reg) = wrist();
    c.update(&mut s, &mut reg, &keys(&[Key::T]), 0);
    for _ in 0..25 {
        c.update(&mut s, &mut reg, &keys(&[Key::Right]), 70_000);
    }
    // 15 steps reach -1_050_000: the last one started at -980_000 > -1_000_000.
    assert_eq!(s.angle, -1_050_000);
}

#[test]
fn rotate_negative_respects_upper_bound() {
    let mut c = JointController::new(Joint::LowerArm);
    let mut s = JointState::new(0, 1_000_000);
    let mut reg = ReferenceRegistry::new();
    c.update(&mut s, &mut reg, &keys(&[Key::W]), 0);
    assert!(c.manual);
    let mut prev = s.angle;
    for _ in 0..40 {
        c.update(&mut s, &mut reg, &keys(&[Key::Left]), 30_000);
        assert!(s.angle >= prev);
        assert!(s.angle <= 700_000 + 30_000);
        prev = s.angle;
    }
    assert_eq!(s.angle, 720_000);
}

#[test]
fn unbounded_shoulder_keeps_turning() {
    let mut c = JointController::new(Joint::Shoulder);
    let mut s = JointState::new(0, 1_000_000);
    let mut reg = ReferenceRegistry::new();
    c.update(&mut s, &mut reg, &keys(&[Key::E]), 0);
    for _ in 0..50 {
        c.update(&mut s, &mut reg, &keys(&[Key::Left]), 100_000);
    }
    assert_eq!(s.angle, 5_000_000);
}

#[test]
fn damped_return_moves_monotonically_toward_reference() {
    let mut c = JointController::new(Joint::UpperArm);
    let mut s = JointState::new(0, 1_000_000);
    let mut reg = ReferenceRegistry::new();
    c.update(&mut s, &mut reg, &keys(&[Key::Z]), 10_000);
    assert_eq!(reg.get(Joint::UpperArm), 0);
    s = JointState::new(500_000, 1_000_000);
    let mut prev = s.angle;
    for _ in 0..100 {
        c.update(&mut s, &mut reg, &keys(&[Key::C]), 10_000);
        assert!(s.angle >= 0);
        assert!(s.angle < prev || (prev == 0 && s.angle == 0));
        prev = s.angle;
    }
    assert!(s.angle < 5_000);
}

#[test]
fn damped_return_first_step_exact() {
    // deviation 0.5 rad, gain 5, speed 1, dt 0.01 s: correction 0.025 rad.
    assert_eq!(return_toward(500_000, 0, 1_000_000, 10_000), 475_000);
    assert_eq!(return_toward(-500_000, 0, 1_000_000, 10_000), -475_000);
    // a correction under one micro-radian is rounded up to one.
    assert_eq!(return_toward(1, 0, 1_000_000, 10_000), 0);
    assert_eq!(return_toward(7, 7, 1_000_000, 10_000), 7);
}

#[test]
fn mark_at_reference_is_idempotent() {
    let mut c = JointController::new(Joint::Elbow);
    let mut s = JointState::new(-200_000, 1_000_000);
    let mut reg = ReferenceRegistry::new();
    c.update(&mut s, &mut reg, &keys(&[Key::Z]), 16_000);
    assert_eq!(reg.get(Joint::Elbow), -200_000);
    c.update(&mut s, &mut reg, &keys(&[Key::Z]), 16_000);
    assert_eq!(reg.get(Joint::Elbow), -200_000);
    assert_eq!(s.angle, -200_000);
}

#[test]
fn joints_are_independent() {
    let mut reg = ReferenceRegistry::new();
    let mut a = JointController::new(Joint::Wrist);
    let mut sa = JointState::new(300_000, 1_000_000);
    let b_state = JointState::new(-400_000, 1_000_000);
    reg.set(Joint::Elbow, 123_456);
    let seq = [
        keys(&[Key::T, Key::Left]),
        keys(&[Key::Z]),
        keys(&[Key::C, Key::Right]),
        keys(&[Key::Q, Key::Z, Key::C]),
    ];
    for k in seq.iter() {
        a.update(&mut sa, &mut reg, k, 20_000);
    }
    assert_eq!(reg.get(Joint::Elbow), 123_456);
    assert_eq!(reg.get(Joint::Shoulder), 0);
    assert_eq!(reg.get(Joint::LowerArm), 0);
    assert_eq!(reg.get(Joint::UpperArm), 0);
    assert_eq!(b_state.angle, -400_000);
}

#[test]
fn rig_update_touches_only_the_toggled_joint() {
    let mut rig = ManipulatorRig::new();
    rig.update(100_000, &keys(&[Key::T, Key::Left]));
    assert!(rig.manual_enabled(Joint::Wrist));
    assert_eq!(rig.orientation(Joint::Wrist), 100_000);
    for j in [Joint::Shoulder, Joint::LowerArm, Joint::Elbow, Joint::UpperArm] {
        assert!(!rig.manual_enabled(j));
        assert_eq!(rig.orientation(j), 0);
        assert_eq!(rig.reference(j), 0);
    }
}

#[test]
fn rig_mark_and_return_all_joints() {
    let mut rig = ManipulatorRig::new();
    rig.update(0, &keys(&[Key::E, Key::W, Key::Q, Key::R, Key::T]));
    rig.update(100_000, &keys(&[Key::Left]));
    for j in [Joint::Shoulder, Joint::LowerArm, Joint::Elbow, Joint::UpperArm, Joint::Wrist] {
        assert_eq!(rig.orientation(j), 100_000);
    }
    rig.update(0, &keys(&[Key::Z]));
    assert_eq!(rig.reference(Joint::Elbow), 100_000);
    rig.update(100_000, &keys(&[Key::Right]));
    // the elbow's lower bound is -0.8, so all five turn back to zero.
    assert_eq!(rig.orientation(Joint::Elbow), 0);
    rig.update(20_000, &keys(&[Key::C]));
    // deviation 0.1 rad, gain 5, dt 0.02 s: correction 0.01 rad.
    assert_eq!(rig.orientation(Joint::Wrist), 10_000);
}

#[test]
fn toggle_held_enables_manual_every_tick_after_edge() {
    let (mut c, mut s, mut reg) = wrist();
    for tick in 1..=5 {
        c.update(&mut s, &mut reg, &keys(&[Key::T, Key::Left]), 100_000);
        assert!(c.manual);
        assert_eq!(s.angle, 100_000 * tick);
    }
    c.update(&mut s, &mut reg, &keys(&[Key::Left]), 100_000);
    assert!(c.manual);
    c.update(&mut s, &mut reg, &keys(&[Key::T, Key::Left]), 100_000);
    assert!(!c.manual);
    assert_eq!(s.angle, 600_000);
}

#[test]
fn manual_rotation_needs_manual_control() {
    let (mut c, mut s, mut reg) = wrist();
    c.update(&mut s, &mut reg, &keys(&[Key::Left]), 100_000);
    assert!(!c.manual);
    assert_eq!(s.angle, 0);
}

#[test]
fn degenerate_time_step_is_zero() {
    assert_eq!(sanitize_elapsed(-5), 0);
    assert_eq!(sanitize_elapsed(MAX_ELAPSED + 1), 0);
    assert_eq!(sanitize_elapsed(16_000), 16_000);
    let (mut c, mut s, mut reg) = wrist();
    c.update(&mut s, &mut reg, &keys(&[Key::T, Key::Left]), -100_000);
    assert!(c.manual);
    assert_eq!(s.angle, 0);
}

#[test]
fn step_arithmetic_exact_values() {
    assert_eq!(manual_increment(1_000_000, 100_000), 100_000);
    assert_eq!(manual_increment(2_500_000, 16_667), 41_667);
    assert_eq!(saturate_angle(MAX_ANGLE as i128 + 5), MAX_ANGLE);
    assert_eq!(saturate_angle(-(MAX_ANGLE as i128) - 5), -MAX_ANGLE);
    assert_eq!(saturate_angle(-42), -42);
}

#[test]
fn key_set_queries() {
    let mut k = KeySet::new();
    assert!(!k.is_down(Key::C));
    k.press(Key::C);
    assert!(k.is_down(Key::C));
    assert!(!k.is_down(Key::Z));
}

#[test]
fn joint_wiring_table() {
    let s = JointConfig::of(Joint::Shoulder);
    assert_eq!(s.axis, Axis::Y);
    assert_eq!(s.toggle, Key::E);
    assert_eq!(s.upper, None);
    let l = JointConfig::of(Joint::LowerArm);
    assert_eq!((l.axis, l.toggle, l.upper, l.lower), (Axis::X, Key::W, Some(700_000), Some(-300_000)));
    let e = JointConfig::of(Joint::Elbow);
    assert_eq!((e.axis, e.toggle, e.upper, e.lower), (Axis::X, Key::Q, Some(100_000), Some(-800_000)));
    let u = JointConfig::of(Joint::UpperArm);
    assert_eq!((u.axis, u.toggle, u.upper, u.lower), (Axis::X, Key::R, Some(1_000_000), Some(-1_000_000)));
    let w = JointConfig::of(Joint::Wrist);
    assert_eq!((w.axis, w.toggle, w.upper, w.lower), (Axis::Z, Key::T, Some(1_000_000), Some(-1_000_000)));
    assert_eq!(DEFAULT_SPEED, 1_000_000);
}
