use vstd::prelude::*;
use crate::rig::LookInput;

verus! {

/// Per-frame displacement rate: micrometres per microsecond (10 units per second).
pub const MOVE_SPEED: i64 = 10;

/// Which movement keys are held this frame.
#[derive(Clone, Copy, Debug, PartialEq, Eq)]
pub struct MoveKeys {
    pub forward: bool,
    pub back: bool,
    pub right: bool,
    pub left: bool,
}

/// +1, -1 or 0 from a pair of opposing keys.
pub open spec fn axis_spec(plus: bool, minus: bool) -> int {
    (if plus { 1int } else { 0int }) - (if minus { 1int } else { 0int })
}

impl MoveKeys {
    /// The unnormalized direction `(right, forward)` that the held keys ask for.
    pub open spec fn direction_spec(self) -> (int, int) {
        (axis_spec(self.right, self.left), axis_spec(self.forward, self.back))
    }

    /// The direction `(right, forward)`, each component in `{-1, 0, 1}`.
    pub fn direction(&self) -> (r: (i64, i64))
        ensures
            (r.0 as int, r.1 as int) == self.direction_spec(),
    {
        let mut x: i64 = 0;
        let mut y: i64 = 0;
        if self.forward {
            y = y + 1;
        }
        if self.back {
            y = y - 1;
        }
        if self.right {
            x = x + 1;
        }
        if self.left {
            x = x - 1;
        }
        (x, y)
    }
}

/// `r` is the floor of the square root of `n`.
pub open spec fn is_floor_sqrt(r: int, n: int) -> bool {
    0 <= r && r * r <= n < (r + 1) * (r + 1)
}

/// `r` is the floor of `len / sqrt(2)`: the length of each component of a
/// diagonal step of length `len`.
pub open spec fn is_diagonal_component(r: int, len: int) -> bool {
    0 <= r && 2 * (r * r) <= len * len < 2 * ((r + 1) * (r + 1))
}

/// The floor of `len / sqrt(2)`.
pub fn diagonal_component(len: u64) -> (r: u64)
    requires
        len <= 0x10_0000_0000,
    ensures
        is_diagonal_component(r as int, len as int),
        r <= len,
{
    assert((len as int) * (len as int) <= 0x1_0000_0000_0000_0000_0000) by (nonlinear_arith)
        requires len <= 0x10_0000_0000;
    let target: u128 = len as u128 * len as u128;
    let mut lo: u64 = 0;
    let mut hi: u64 = len + 1;
    assert(2 * ((hi as int) * (hi as int)) > (len as int) * (len as int)) by (nonlinear_arith)
        requires hi == len + 1, len >= 0;
    while hi - lo > 1
        invariant
            lo < hi <= len + 1,
            len <= 0x10_0000_0000,
            target == (len as int) * (len as int),
            2 * ((lo as int) * (lo as int)) <= target,
            2 * ((hi as int) * (hi as int)) > target,
        decreases hi - lo,
    {
        let mid: u64 = lo + (hi - lo) / 2;
        assert((mid as int) * (mid as int) <= (hi as int) * (hi as int)) by (nonlinear_arith)
            requires 0 <= mid <= hi;
        assert((hi as int) * (hi as int) <= 0x2_0000_0000_0000_0000_0000) by (nonlinear_arith)
            requires hi <= 0x10_0000_0001;
        let sq: u128 = mid as u128 * mid as u128;
        if 2 * sq <= target {
            lo = mid;
        } else {
            hi = mid;
        }
    }
    assert(hi == lo + 1);
    lo
}

/// `v` with the sign of `d`, or zero when `d` is zero.
pub open spec fn signed(d: int, v: int) -> int {
    if d > 0 {
        v
    } else if d < 0 {
        -v
    } else {
        0
    }
}

/// The step `(right, forward)` in the subject's own frame, in micrometres, that
/// a frame of `dt` microseconds moves it: the key direction scaled to length
/// `dt * MOVE_SPEED`, each diagonal component rounded down.
pub open spec fn step_spec(keys: MoveKeys, dt: u32, r: (i64, i64)) -> bool {
    let (dx, dy) = keys.direction_spec();
    let len = dt * MOVE_SPEED;
    if dx != 0 && dy != 0 {
        exists|c: int| is_diagonal_component(c, len) && r.0 == signed(dx, c) && r.1 == signed(dy, c)
    } else {
        r.0 == signed(dx, len) && r.1 == signed(dy, len)
    }
}

/// The subject's own-frame step for this frame's keys, normalized so that a
/// diagonal is no faster than a single axis.
pub fn move_step(keys: &MoveKeys, dt: u32) -> (r: (i64, i64))
    ensures
        step_spec(*keys, dt, r),
{
    let (dx, dy) = keys.direction();
    let len: u64 = dt as u64 * MOVE_SPEED as u64;
    assert(len <= 0x10_0000_0000) by (nonlinear_arith)
        requires len == dt * MOVE_SPEED, MOVE_SPEED == 10, dt <= u32::MAX;
    let size: i64 = if dx != 0 && dy != 0 {
        diagonal_component(len) as i64
    } else {
        len as i64
    };
    (with_sign(dx, size), with_sign(dy, size))
}

/// `v` with the sign of `d`, or zero when `d` is zero.
fn with_sign(d: i64, v: i64) -> (r: i64)
    requires
        v >= 0,
    ensures
        r == signed(d as int, v as int),
{
    if d > 0 {
        v
    } else if d < 0 {
        -v
    } else {
        0
    }
}

/// Reduces a frame's pointer events: the last motion event and the last scroll
/// event each win; with no events the amount is zero.
pub fn reduce_pointer(motion: &Vec<(i32, i32)>, scroll: &Vec<i32>, orbit_held: bool) -> (r: LookInput)
    ensures
        r == reduce_pointer_spec(motion@, scroll@, orbit_held),
{
    let mut look: (i32, i32) = (0, 0);
    if motion.len() > 0 {
        look = motion[motion.len() - 1];
    }
    let mut zoom: i32 = 0;
    if scroll.len() > 0 {
        zoom = scroll[scroll.len() - 1];
    }
    LookInput { look_x: look.0, look_y: look.1, zoom_delta: zoom, orbit_held }
}

/// The pointer input that a frame's events reduce to.
pub open spec fn reduce_pointer_spec(motion: Seq<(i32, i32)>, scroll: Seq<i32>, orbit_held: bool) -> LookInput {
    let look = if motion.len() > 0 { motion.last() } else { (0i32, 0i32) };
    LookInput {
        look_x: look.0,
        look_y: look.1,
        zoom_delta: if scroll.len() > 0 { scroll.last() } else { 0 },
        orbit_held,
    }
}

} // verus!
