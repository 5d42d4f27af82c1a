use vstd::prelude::*;
use crate::frame::{camera_table_after, CameraPose};
use crate::input::{is_diagonal_component, signed, step_spec, MoveKeys, MOVE_SPEED};
use crate::rig::{LookAtTarget, LookInput, ZOOM_SENSITIVITY};

verus! {

/// After one idle frame pitch and distance lie in their ranges, and a further
/// idle frame changes nothing.
pub proof fn clamping_is_idempotent(t: LookAtTarget, input: LookInput, dt: u32)
    requires
        input.is_idle(),
    ensures
        t.input_fits(input, dt),
        t.with_input(input, dt).clamped().in_range(),
        t.with_input(input, dt).clamped().input_fits(input, dt),
        t.with_input(input, dt).clamped().with_input(input, dt).clamped()
            == t.with_input(input, dt).clamped(),
{
    let t1 = t.with_input(input, dt).clamped();
    assert(t.with_input(input, dt) == t);
    assert(t1.with_input(input, dt) == t1);
}

/// An idle frame with no movement keys in effect leaves an in-range target
/// as it was, and moves its subject by nothing.
pub proof fn idle_frame_is_stable(t: LookAtTarget, input: LookInput, keys: MoveKeys, dt: u32, step: (i64, i64))
    requires
        t.in_range(),
        input.is_idle(),
        keys.direction_spec() == (0int, 0int),
        step_spec(keys, dt, step),
    ensures
        t.input_fits(input, dt),
        t.with_input(input, dt).clamped() == t,
        step == (0i64, 0i64),
{
    assert(t.with_input(input, dt) == t);
}

/// Before clamping, a frame lowers the distance by exactly
/// `zoom_delta * dt * ZOOM_SENSITIVITY`: strictly for positive scroll, and
/// raises it strictly for negative scroll, whenever the frame has a duration.
pub proof fn zoom_is_monotone(t: LookAtTarget, input: LookInput, dt: u32)
    requires
        dt > 0,
    ensures
        t.distance_after(input, dt) == t.distance - input.zoom_delta * dt * ZOOM_SENSITIVITY,
        input.zoom_delta > 0 ==> t.distance_after(input, dt) < t.distance,
        input.zoom_delta < 0 ==> t.distance_after(input, dt) > t.distance,
{
    let z = input.zoom_delta as int;
    let d = dt as int;
    if z > 0 {
        assert(z * d > 0) by (nonlinear_arith) requires z > 0, d > 0;
    }
    if z < 0 {
        assert(z * d < 0) by (nonlinear_arith) requires z < 0, d > 0;
    }
}

/// Without the orbit button, pointer motion leaves yaw and pitch alone; with
/// it, yaw grows by `look_x * dt` and pitch falls by `look_y * dt` (before clamping).
pub proof fn orbit_is_gated(t: LookAtTarget, input: LookInput, dt: u32)
    ensures
        !input.orbit_held ==> t.yaw_after(input, dt) == t.yaw && t.pitch_after(input, dt) == t.pitch,
        input.orbit_held ==> t.yaw_after(input, dt) == t.yaw + input.look_x * dt
            && t.pitch_after(input, dt) == t.pitch - input.look_y * dt,
{
}

/// A diagonal step is normalized: its squared length is at most that of a
/// single-axis step of the same frame, and short of it only by the rounding
/// of each component down to a whole micrometre.
pub proof fn diagonal_step_is_normalized(
    diagonal: MoveKeys,
    axis: MoveKeys,
    dt: u32,
    d: (i64, i64),
    a: (i64, i64),
)
    requires
        diagonal.direction_spec().0 != 0 && diagonal.direction_spec().1 != 0,
        (axis.direction_spec().0 == 0) != (axis.direction_spec().1 == 0),
        step_spec(diagonal, dt, d),
        step_spec(axis, dt, a),
    ensures
        a.0 * a.0 + a.1 * a.1 == (dt * MOVE_SPEED) * (dt * MOVE_SPEED),
        d.0 * d.0 == d.1 * d.1,
        d.0 * d.0 + d.1 * d.1 <= a.0 * a.0 + a.1 * a.1,
        a.0 * a.0 + a.1 * a.1 < d.0 * d.0 + d.1 * d.1 + 4 * (if d.0 >= 0 { d.0 as int } else { -d.0 }) + 2,
{
    let len = dt * MOVE_SPEED;
    let (dx, dy) = diagonal.direction_spec();
    let ax = axis.direction_spec().0;
    let c = choose|c: int|
        is_diagonal_component(c, len) && d.0 == signed(dx, c) && d.1 == signed(dy, c);
    assert(d.0 == c || d.0 == -c);
    assert(d.1 == c || d.1 == -c);
    assert(d.0 * d.0 == c * c) by (nonlinear_arith) requires d.0 == c || d.0 == -c;
    assert(d.1 * d.1 == c * c) by (nonlinear_arith) requires d.1 == c || d.1 == -c;
    if ax == 0 {
        assert(a.0 == 0 && (a.1 == len || a.1 == -len));
    } else {
        assert(a.1 == 0 && (a.0 == len || a.0 == -len));
    }
    assert(a.0 * a.0 + a.1 * a.1 == len * len) by (nonlinear_arith)
        requires
            (a.0 == 0 && (a.1 == len || a.1 == -len)) || (a.1 == 0 && (a.0 == len || a.0 == -len));
    assert(len * len < 2 * (c * c) + 4 * c + 2) by (nonlinear_arith)
        requires len * len < 2 * ((c + 1) * (c + 1));
}

/// A camera that does not resolve is left out of the write: the table keeps
/// every entry as it was.
pub proof fn missing_camera_is_skipped(m: Map<u64, CameraPose>, id: u64, pose: CameraPose)
    requires
        !m.contains_key(id),
    ensures
        camera_table_after(m, id, pose) == m,
{
}

} // verus!
