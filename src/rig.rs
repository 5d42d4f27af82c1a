use vstd::prelude::*;

verus! {

/// Smallest pitch: one degree, in microradians.
pub const PITCH_MIN: i64 = 17_453;

/// Largest pitch: 179 degrees, in microradians.
pub const PITCH_MAX: i64 = 3_124_139;

/// Nearest the camera may come to its target, in micrometres (5 units).
pub const DISTANCE_MIN: i64 = 5_000_000;

/// Farthest the camera may go from its target, in micrometres (60 units).
pub const DISTANCE_MAX: i64 = 60_000_000;

/// Microradians of turn per device unit of pointer motion per microsecond.
pub const LOOK_SENSITIVITY: i64 = 1;

/// Micrometres of zoom per scroll unit per microsecond.
pub const ZOOM_SENSITIVITY: i64 = 20;

/// Pitch of a freshly made target: 30 degrees, in microradians.
pub const PITCH_START: i64 = 523_599;

/// `v` held to the closed range `[lo, hi]`.
pub open spec fn clamp_spec(v: int, lo: int, hi: int) -> int {
    if v < lo {
        lo
    } else if v > hi {
        hi
    } else {
        v
    }
}

/// Holds `v` to the closed range `[lo, hi]`.
pub fn clamp_i64(v: i64, lo: i64, hi: i64) -> (r: i64)
    requires
        lo <= hi,
    ensures
        r == clamp_spec(v as int, lo as int, hi as int),
        lo <= r <= hi,
{
    if v < lo {
        lo
    } else if v > hi {
        hi
    } else {
        v
    }
}

/// The pointer input of one frame, reduced from its events.
#[derive(Clone, Copy, Debug, PartialEq, Eq)]
pub struct LookInput {
    /// Horizontal pointer motion, in device units.
    pub look_x: i32,
    /// Vertical pointer motion, in device units.
    pub look_y: i32,
    /// Scroll amount; positive zooms in.
    pub zoom_delta: i32,
    /// Whether the orbit button is held.
    pub orbit_held: bool,
}

impl LookInput {
    /// No pointer motion and no scroll; the button may be held or not.
    pub open spec fn is_idle(self) -> bool {
        self.look_x == 0 && self.look_y == 0 && self.zoom_delta == 0
    }
}

/// The orbit parameters of a subject and the camera entity they drive.
#[derive(Clone, Copy, Debug, PartialEq, Eq)]
pub struct LookAtTarget {
    /// Horizontal angle in microradians; not clamped.
    pub yaw: i64,
    /// Vertical angle in microradians; held to `[PITCH_MIN, PITCH_MAX]` each frame.
    pub pitch: i64,
    /// Camera distance in micrometres; held to `[DISTANCE_MIN, DISTANCE_MAX]` each frame.
    pub distance: i64,
    /// Identifier of the camera entity; a lookup key, not an owner.
    pub camera_entity: u64,
}

impl LookAtTarget {
    /// Pitch and distance both lie in their ranges.
    pub open spec fn in_range(self) -> bool {
        PITCH_MIN <= self.pitch <= PITCH_MAX && DISTANCE_MIN <= self.distance <= DISTANCE_MAX
    }

    /// Yaw after the input of one frame lasting `dt` microseconds, before clamping.
    pub open spec fn yaw_after(self, input: LookInput, dt: u32) -> int {
        if input.orbit_held {
            self.yaw + input.look_x * dt * LOOK_SENSITIVITY
        } else {
            self.yaw as int
        }
    }

    /// Pitch after the input of one frame, before clamping.
    pub open spec fn pitch_after(self, input: LookInput, dt: u32) -> int {
        if input.orbit_held {
            self.pitch - input.look_y * dt * LOOK_SENSITIVITY
        } else {
            self.pitch as int
        }
    }

    /// Distance after the input of one frame, before clamping.
    pub open spec fn distance_after(self, input: LookInput, dt: u32) -> int {
        self.distance - input.zoom_delta * dt * ZOOM_SENSITIVITY
    }

    /// The input of one frame can be applied without leaving `i64`.
    pub open spec fn input_fits(self, input: LookInput, dt: u32) -> bool {
        i64::MIN <= self.yaw_after(input, dt) <= i64::MAX
            && i64::MIN <= self.pitch_after(input, dt) <= i64::MAX
            && i64::MIN <= self.distance_after(input, dt) <= i64::MAX
    }

    /// The target after the input of one frame, before clamping.
    pub open spec fn with_input(self, input: LookInput, dt: u32) -> LookAtTarget {
        LookAtTarget {
            yaw: self.yaw_after(input, dt) as i64,
            pitch: self.pitch_after(input, dt) as i64,
            distance: self.distance_after(input, dt) as i64,
            camera_entity: self.camera_entity,
        }
    }

    /// The target with pitch and distance held to their ranges.
    pub open spec fn clamped(self) -> LookAtTarget {
        LookAtTarget {
            yaw: self.yaw,
            pitch: clamp_spec(self.pitch as int, PITCH_MIN as int, PITCH_MAX as int) as i64,
            distance: clamp_spec(
                self.distance as int,
                DISTANCE_MIN as int,
                DISTANCE_MAX as int,
            ) as i64,
            camera_entity: self.camera_entity,
        }
    }

    /// A target driving `camera_entity`: yaw 0, pitch 30 degrees, distance 40 units.
    pub fn new(camera_entity: u64) -> (r: Self)
        ensures
            r.yaw == 0,
            r.pitch == PITCH_START,
            r.distance == 40_000_000,
            r.camera_entity == camera_entity,
            r.in_range(),
    {
        LookAtTarget { yaw: 0, distance: 40_000_000, pitch: PITCH_START, camera_entity }
    }

    /// Applies one frame of pointer input lasting `dt` microseconds: orbit while
    /// the button is held, zoom always. Nothing is clamped here.
    pub fn apply_input(&mut self, input: LookInput, dt: u32)
        requires
            old(self).input_fits(input, dt),
        ensures
            *final(self) == old(self).with_input(input, dt),
    {
        let dt = dt as i128;
        if input.orbit_held {
            self.yaw = (self.yaw as i128 + input.look_x as i128 * dt * LOOK_SENSITIVITY as i128) as i64;
            self.pitch = (self.pitch as i128 - input.look_y as i128 * dt * LOOK_SENSITIVITY as i128) as i64;
        }
        self.distance = (self.distance as i128 - input.zoom_delta as i128 * dt
            * ZOOM_SENSITIVITY as i128) as i64;
    }

    /// Holds pitch and distance to their ranges; yaw and the camera are kept.
    pub fn clamp_ranges(&mut self)
        ensures
            *final(self) == old(self).clamped(),
            final(self).in_range(),
    {
        self.pitch = clamp_i64(self.pitch, PITCH_MIN, PITCH_MAX);
        self.distance = clamp_i64(self.distance, DISTANCE_MIN, DISTANCE_MAX);
    }
}

impl Default for LookAtTarget {
    /// A target with yaw 0, pitch 30 degrees and distance 20 units, driving entity 0.
    fn default() -> (r: Self)
        ensures
            r.yaw == 0,
            r.pitch == PITCH_START,
            r.distance == 20_000_000,
            r.camera_entity == 0,
    {
        LookAtTarget { yaw: 0, distance: 20_000_000, pitch: PITCH_START, camera_entity: 0 }
    }
}

} // verus!
