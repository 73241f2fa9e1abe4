//! Laws of the joint controller, proved over the one-tick specification.
use vstd::prelude::*;
use crate::joint::{JointController, JointState, JointTick, next_manual, tick};
use crate::keys::{KeySet, MARK_KEY, RETURN_KEY, ROTATE_NEGATIVE_KEY, ROTATE_POSITIVE_KEY};
use crate::registry::{Joint, slot_of, JOINT_COUNT};
use crate::rig::{ManipulatorRig, unit_ticked};
use crate::units::{angle_ok, elapsed_of, manual_step, return_scale, return_step, RETURN_GAIN};

verus! {

/// `n` ticks of one joint with the same keys and time step each tick.
pub open spec fn run(
    ctrl: JointController,
    state: JointState,
    reference: i64,
    keys: KeySet,
    raw_elapsed: i64,
    n: nat,
) -> JointTick
    decreases n,
{
    if n == 0 {
        JointTick { controller: ctrl, state, reference }
    } else {
        let prev = run(ctrl, state, reference, keys, raw_elapsed, (n - 1) as nat);
        tick(prev.controller, prev.state, prev.reference, keys, raw_elapsed)
    }
}

/// What one tick keeps: the wiring, the speed, well-formedness; the toggle
/// bookkeeping and the reference follow the keys.
pub proof fn lemma_tick_basics(
    ctrl: JointController,
    state: JointState,
    reference: i64,
    keys: KeySet,
    raw_elapsed: i64,
)
    requires
        state.wf(),
        angle_ok(reference as int),
    ensures
        ({
            let t = tick(ctrl, state, reference, keys, raw_elapsed);
            &&& t.controller.config == ctrl.config
            &&& t.controller.manual == next_manual(ctrl.manual, ctrl.toggle_was_down, keys.holds(ctrl.config.toggle))
            &&& t.controller.toggle_was_down == keys.holds(ctrl.config.toggle)
            &&& t.state.speed == state.speed
            &&& t.state.wf()
            &&& t.reference == (if keys.holds(MARK_KEY) { state.angle } else { reference })
            &&& angle_ok(t.reference as int)
        }),
{
    reveal(tick);
}

/// Holding only the rotate-negative key under manual control never carries a
/// joint past its upper bound by more than one tick's increment, and never
/// turns it back.
pub proof fn lemma_clamp_upper(
    ctrl: JointController,
    state: JointState,
    reference: i64,
    keys: KeySet,
    raw_elapsed: i64,
    n: nat,
)
    requires
        state.wf(),
        angle_ok(reference as int),
        ctrl.manual,
        ctrl.config.upper.is_some(),
        keys.holds(ROTATE_NEGATIVE_KEY),
        !keys.holds(ROTATE_POSITIVE_KEY),
        !keys.holds(RETURN_KEY),
        !keys.holds(ctrl.config.toggle),
    ensures
        ({
            let hi = ctrl.config.upper.unwrap() as int;
            let step = manual_step(state.speed as int, elapsed_of(raw_elapsed as int));
            let a = run(ctrl, state, reference, keys, raw_elapsed, n).state.angle as int;
            &&& a <= if state.angle as int > hi + step { state.angle as int } else { hi + step }
            &&& state.angle as int <= a
        }),
    decreases n,
{
    if n > 0 {
        lemma_clamp_upper(ctrl, state, reference, keys, raw_elapsed, (n - 1) as nat);
        lemma_run_keeps(ctrl, state, reference, keys, raw_elapsed, (n - 1) as nat);
        reveal(tick);
    }
}

/// Holding only the rotate-positive key under manual control never carries a
/// joint past its lower bound by more than one tick's increment, and never
/// turns it back.
pub proof fn lemma_clamp_lower(
    ctrl: JointController,
    state: JointState,
    reference: i64,
    keys: KeySet,
    raw_elapsed: i64,
    n: nat,
)
    requires
        state.wf(),
        angle_ok(reference as int),
        ctrl.manual,
        ctrl.config.lower.is_some(),
        keys.holds(ROTATE_POSITIVE_KEY),
        !keys.holds(ROTATE_NEGATIVE_KEY),
        !keys.holds(RETURN_KEY),
        !keys.holds(ctrl.config.toggle),
    ensures
        ({
            let lo = ctrl.config.lower.unwrap() as int;
            let step = manual_step(state.speed as int, elapsed_of(raw_elapsed as int));
            let a = run(ctrl, state, reference, keys, raw_elapsed, n).state.angle as int;
            &&& a >= if (state.angle as int) < lo - step { state.angle as int } else { lo - step }
            &&& a <= state.angle as int
        }),
    decreases n,
{
    if n > 0 {
        lemma_clamp_lower(ctrl, state, reference, keys, raw_elapsed, (n - 1) as nat);
        lemma_run_keeps(ctrl, state, reference, keys, raw_elapsed, (n - 1) as nat);
        reveal(tick);
    }
}

/// Over any number of ticks the wiring, the speed and well-formedness stay,
/// and with the toggle key held throughout manual control stays as the
/// first tick left it.
pub proof fn lemma_run_keeps(
    ctrl: JointController,
    state: JointState,
    reference: i64,
    keys: KeySet,
    raw_elapsed: i64,
    n: nat,
)
    requires
        state.wf(),
        angle_ok(reference as int),
    ensures
        ({
            let t = run(ctrl, state, reference, keys, raw_elapsed, n);
            &&& t.controller.config == ctrl.config
            &&& t.state.speed == state.speed
            &&& t.state.wf()
            &&& angle_ok(t.reference as int)
            &&& !keys.holds(ctrl.config.toggle) ==> t.controller.manual == ctrl.manual
            &&& !keys.holds(MARK_KEY) ==> t.reference == reference
        }),
    decreases n,
{
    if n > 0 {
        lemma_run_keeps(ctrl, state, reference, keys, raw_elapsed, (n - 1) as nat);
        let prev = run(ctrl, state, reference, keys, raw_elapsed, (n - 1) as nat);
        lemma_tick_basics(prev.controller, prev.state, prev.reference, keys, raw_elapsed);
    }
}

/// A return correction whose gain is below the stability threshold moves a
/// deviating angle strictly closer to the reference, without overshooting it.
pub proof fn lemma_return_step_bounds(speed: int, deviation: int, dt: int)
    requires
        speed > 0,
        dt > 0,
        deviation > 0,
        RETURN_GAIN * speed * dt < return_scale(),
    ensures
        1 <= return_step(speed, deviation, dt) <= deviation,
{
    let s = return_scale();
    let k = RETURN_GAIN * speed * dt;
    let x = speed * deviation * RETURN_GAIN * dt;
    assert(x == k * deviation && 1 <= k) by (nonlinear_arith)
        requires
            x == speed * deviation * RETURN_GAIN * dt,
            k == RETURN_GAIN * speed * dt,
            speed > 0,
            dt > 0,
    ;
    assert(1 <= k * deviation <= (s - 1) * deviation) by (nonlinear_arith)
        requires
            1 <= k < s,
            deviation > 0,
    ;
    assert(s <= x + s - 1 < s * (deviation + 1)) by (nonlinear_arith)
        requires
            1 <= x <= (s - 1) * deviation,
            deviation > 0,
            s > 1,
    ;
    assert(1 <= (x + s - 1) / s <= deviation) by (nonlinear_arith)
        requires
            s <= x + s - 1 < s * (deviation + 1),
            s > 1,
    ;
}

/// With the return key held and no manual or mark key, a joint that is off
/// its reference moves strictly toward it and never past it, as long as
/// `5 * speed * elapsed` stays below one.
pub proof fn lemma_return_converges(
    ctrl: JointController,
    state: JointState,
    reference: i64,
    keys: KeySet,
    raw_elapsed: i64,
)
    requires
        state.wf(),
        angle_ok(reference as int),
        keys.holds(RETURN_KEY),
        !keys.holds(MARK_KEY),
        !keys.holds(ROTATE_NEGATIVE_KEY),
        !keys.holds(ROTATE_POSITIVE_KEY),
        state.speed > 0,
        elapsed_of(raw_elapsed as int) > 0,
        RETURN_GAIN * state.speed * elapsed_of(raw_elapsed as int) < return_scale(),
        state.angle != reference,
    ensures
        ({
            let t = tick(ctrl, state, reference, keys, raw_elapsed);
            let v = state.angle as int;
            let r = reference as int;
            let w = t.state.angle as int;
            &&& t.reference == reference
            &&& v < r ==> v < w <= r
            &&& v > r ==> r <= w < v
        }),
{
    reveal(tick);
    let v = state.angle as int;
    let r = reference as int;
    let dt = elapsed_of(raw_elapsed as int);
    if v < r {
        lemma_return_step_bounds(state.speed as int, r - v, dt);
    } else {
        lemma_return_step_bounds(state.speed as int, v - r, dt);
    }
}

/// Holding only the return key, tick after tick, a joint's distance to its
/// reference shrinks strictly on every tick until it is zero, the joint
/// never passes the reference, and once there it stays.
pub proof fn lemma_return_run(
    ctrl: JointController,
    state: JointState,
    reference: i64,
    keys: KeySet,
    raw_elapsed: i64,
    n: nat,
)
    requires
        state.wf(),
        angle_ok(reference as int),
        keys.holds(RETURN_KEY),
        !keys.holds(MARK_KEY),
        !keys.holds(ROTATE_NEGATIVE_KEY),
        !keys.holds(ROTATE_POSITIVE_KEY),
        state.speed > 0,
        elapsed_of(raw_elapsed as int) > 0,
        RETURN_GAIN * state.speed * elapsed_of(raw_elapsed as int) < return_scale(),
    ensures
        ({
            let r = reference as int;
            let v = run(ctrl, state, reference, keys, raw_elapsed, n).state.angle as int;
            let w = run(ctrl, state, reference, keys, raw_elapsed, n + 1).state.angle as int;
            &&& v < r ==> v < w <= r
            &&& v > r ==> r <= w < v
            &&& v == r ==> w == r
        }),
{
    let prev = run(ctrl, state, reference, keys, raw_elapsed, n);
    lemma_run_keeps(ctrl, state, reference, keys, raw_elapsed, n);
    assert(run(ctrl, state, reference, keys, raw_elapsed, n + 1)
        == tick(prev.controller, prev.state, prev.reference, keys, raw_elapsed));
    if prev.state.angle != reference {
        lemma_return_converges(prev.controller, prev.state, prev.reference, keys, raw_elapsed);
    } else {
        reveal(tick);
        let sp = prev.state.speed as int;
        let dt = elapsed_of(raw_elapsed as int);
        assert(sp * 0 * RETURN_GAIN * dt == 0) by (nonlinear_arith);
        assert(return_step(sp, 0, dt) == 0);
    }
}

/// Marking while a joint already sits on its reference leaves the reference
/// as it was.
pub proof fn lemma_mark_idempotent(
    ctrl: JointController,
    state: JointState,
    reference: i64,
    keys: KeySet,
    raw_elapsed: i64,
)
    requires
        keys.holds(MARK_KEY),
        state.angle == reference,
    ensures
        tick(ctrl, state, reference, keys, raw_elapsed).reference == reference,
{
    reveal(tick);
}

/// Holding a joint's toggle key for `n >= 1` ticks, starting with the key
/// up, flips manual control on the first tick and keeps it so on every later
/// one: edge-triggered toggling.
pub proof fn lemma_toggle_held(
    ctrl: JointController,
    state: JointState,
    reference: i64,
    keys: KeySet,
    raw_elapsed: i64,
    n: nat,
)
    requires
        state.wf(),
        angle_ok(reference as int),
        !ctrl.toggle_was_down,
        keys.holds(ctrl.config.toggle),
        n >= 1,
    ensures
        run(ctrl, state, reference, keys, raw_elapsed, n).controller.manual == !ctrl.manual,
        run(ctrl, state, reference, keys, raw_elapsed, n).controller.toggle_was_down,
    decreases n,
{
    let prev = run(ctrl, state, reference, keys, raw_elapsed, (n - 1) as nat);
    lemma_run_keeps(ctrl, state, reference, keys, raw_elapsed, (n - 1) as nat);
    lemma_tick_basics(prev.controller, prev.state, prev.reference, keys, raw_elapsed);
    if n > 1 {
        lemma_toggle_held(ctrl, state, reference, keys, raw_elapsed, (n - 1) as nat);
    }
}

/// One joint run over a sequence of ticks, each a key snapshot and a raw
/// time step, against the whole reference table, as its controller's
/// `update` does.
pub open spec fn run_table(
    ctrl: JointController,
    state: JointState,
    slots: Seq<i64>,
    ticks: Seq<(KeySet, i64)>,
) -> (JointController, JointState, Seq<i64>)
    decreases ticks.len(),
{
    if ticks.len() == 0 {
        (ctrl, state, slots)
    } else {
        let (c, st, sl) = run_table(ctrl, state, slots, ticks.drop_last());
        let (keys, raw_elapsed) = ticks.last();
        let i = slot_of(c.config.joint);
        let t = tick(c, st, sl[i], keys, raw_elapsed);
        (t.controller, t.state, sl.update(i, t.reference))
    }
}

/// However a joint is driven, the reference of every other joint stays as
/// it was; the joint's wiring stays too.
pub proof fn lemma_joint_independent(
    ctrl: JointController,
    state: JointState,
    slots: Seq<i64>,
    ticks: Seq<(KeySet, i64)>,
    other: Joint,
)
    requires
        slots.len() == JOINT_COUNT,
        other != ctrl.config.joint,
    ensures
        run_table(ctrl, state, slots, ticks).0.config == ctrl.config,
        run_table(ctrl, state, slots, ticks).2.len() == JOINT_COUNT,
        run_table(ctrl, state, slots, ticks).2[slot_of(other)] == slots[slot_of(other)],
    decreases ticks.len(),
{
    if ticks.len() > 0 {
        lemma_joint_independent(ctrl, state, slots, ticks.drop_last(), other);
        reveal(tick);
    }
}

/// In a tick of the whole arm, what becomes of joint `j` depends on that
/// joint's own unit and reference alone: two arms that agree on it before
/// a tick with the same keys and time step agree on it after, whatever
/// their other joints hold.
pub proof fn lemma_rig_joint_local(
    j: Joint,
    before1: ManipulatorRig,
    after1: ManipulatorRig,
    before2: ManipulatorRig,
    after2: ManipulatorRig,
    keys: KeySet,
    raw_elapsed: i64,
)
    requires
        forall|i: Joint| unit_ticked(
            before1.unit(i),
            before1.registry.reference(i),
            #[trigger] after1.unit(i),
            after1.registry.reference(i),
            keys,
            raw_elapsed,
        ),
        forall|i: Joint| unit_ticked(
            before2.unit(i),
            before2.registry.reference(i),
            #[trigger] after2.unit(i),
            after2.registry.reference(i),
            keys,
            raw_elapsed,
        ),
        before1.unit(j) == before2.unit(j),
        before1.registry.reference(j) == before2.registry.reference(j),
    ensures
        after1.unit(j) == after2.unit(j),
        after1.registry.reference(j) == after2.registry.reference(j),
{
    assert(unit_ticked(before1.unit(j), before1.registry.reference(j), after1.unit(j), after1.registry.reference(j), keys, raw_elapsed));
    assert(unit_ticked(before2.unit(j), before2.registry.reference(j), after2.unit(j), after2.registry.reference(j), keys, raw_elapsed));
}

} // verus!
