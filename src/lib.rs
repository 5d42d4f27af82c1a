//! Orbit camera rig for a scene demo, in fixed-point units.
//!
//! Angles are held in microradians, lengths in micrometres and frame time in
//! microseconds, so that every per-frame update is exact integer arithmetic.
//! Trigonometry (turning pitch and distance into a camera position, and a yaw
//! into a rotation) is left to the host.

mod frame;
mod input;
mod laws;
mod rig;

pub use frame::{
    process_mouse_events, update_target, CameraPose, CameraTable, SubjectUpdate,
};
pub use input::{diagonal_component, move_step, reduce_pointer, MoveKeys, MOVE_SPEED};
pub use laws::{
    clamping_is_idempotent, diagonal_step_is_normalized, idle_frame_is_stable,
    missing_camera_is_skipped, orbit_is_gated, zoom_is_monotone,
};
pub use rig::{
    clamp_i64, LookAtTarget, LookInput, DISTANCE_MAX, DISTANCE_MIN, LOOK_SENSITIVITY, PITCH_MAX,
    PITCH_MIN, PITCH_START, ZOOM_SENSITIVITY,
};
