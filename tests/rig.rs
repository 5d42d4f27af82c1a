use orbit_rig::{
    diagonal_component, move_step, process_mouse_events, reduce_pointer, update_target,
    CameraPose, CameraTable, LookAtTarget, LookInput, MoveKeys, DISTANCE_MAX, DISTANCE_MIN,
    PITCH_MAX, PITCH_MIN,
};

fn keys(forward: bool, back: bool, right: bool, left: bool) -> MoveKeys {
    MoveKeys { forward, back, right, left }
}

fn idle() -> LookInput {
    LookInput { look_x: 0, look_y: 0, zoom_delta: 0, orbit_held: false }
}

const FRAME: u32 = 16_000;

#[test]
fn new_target_starts_at_thirty_degrees_forty_units() {
    let t = LookAtTarget::new(7);
    assert_eq!(t.yaw, 0);
    assert_eq!(t.pitch, 523_599);
    assert_eq!(t.distance, 40_000_000);
    assert_eq!(t.camera_entity, 7);
}

#[test]
fn default_target_is_twenty_units_away() {
    let t = LookAtTarget::default();
    assert_eq!(t.yaw, 0);
    assert_eq!(t.pitch, 523_599);
    assert_eq!(t.distance, 20_000_000);
}

#[test]
fn clamp_pulls_pitch_and_distance_into_range() {
    let mut cams = CameraTable::new();
    let mut t = LookAtTarget { yaw: 5, pitch: -3_000_000, distance: -5_000_000, camera_entity: 1 };
    update_target(&mut t, &keys(false, false, false, false), FRAME, &mut cams);
    assert_eq!(t.pitch, PITCH_MIN);
    assert_eq!(t.distance, DISTANCE_MIN);
    assert_eq!(t.yaw, 5);
    let mut u = LookAtTarget { yaw: 0, pitch: 4_000_000, distance: 90_000_000, camera_entity: 1 };
    update_target(&mut u, &keys(false, false, false, false), FRAME, &mut cams);
    assert_eq!(u.pitch, PITCH_MAX);
    assert_eq!(u.distance, DISTANCE_MAX);
}

#[test]
fn clamping_twice_changes_nothing_more() {
    let mut cams = CameraTable::new();
    let mut t = LookAtTarget { yaw: 0, pitch: 9_000_000, distance: 1, camera_entity: 1 };
    let mut targets = vec![t];
    process_mouse_events(&mut targets, idle(), FRAME);
    t = targets[0];
    update_target(&mut t, &keys(false, false, false, false), FRAME, &mut cams);
    let once = t;
    let mut targets = vec![t];
    process_mouse_events(&mut targets, idle(), FRAME);
    t = targets[0];
    update_target(&mut t, &keys(false, false, false, false), FRAME, &mut cams);
    assert_eq!(t, once);
    assert_eq!(once.pitch, PITCH_MAX);
    assert_eq!(once.distance, DISTANCE_MIN);
}

#[test]
fn idle_frame_keeps_state_and_position() {
    let mut cams = CameraTable::new();
    let start = LookAtTarget::new(3);
    let mut targets = vec![start];
    process_mouse_events(&mut targets, idle(), FRAME);
    let mut t = targets[0];
    let u = update_target(&mut t, &keys(false, false, false, false), FRAME, &mut cams);
    assert_eq!(t, start);
    assert_eq!((u.step_right, u.step_forward), (0, 0));
    assert_eq!(u.yaw, 0);
}

#[test]
fn zoom_in_and_out_by_exact_amounts() {
    let mut t = LookAtTarget::new(1);
    t.apply_input(LookInput { look_x: 0, look_y: 0, zoom_delta: 1, orbit_held: false }, FRAME);
    assert_eq!(t.distance, 40_000_000 - 320_000);
    t.apply_input(LookInput { look_x: 0, look_y: 0, zoom_delta: -2, orbit_held: false }, FRAME);
    assert_eq!(t.distance, 40_000_000 + 320_000);
}

#[test]
fn orbit_needs_the_button() {
    let mut t = LookAtTarget::new(1);
    t.apply_input(LookInput { look_x: 5, look_y: 3, zoom_delta: 0, orbit_held: false }, FRAME);
    assert_eq!((t.yaw, t.pitch), (0, 523_599));
    t.apply_input(LookInput { look_x: 5, look_y: 3, zoom_delta: 0, orbit_held: true }, FRAME);
    assert_eq!(t.yaw, 80_000);
    assert_eq!(t.pitch, 523_599 - 48_000);
}

#[test]
fn last_pointer_event_wins() {
    let r = reduce_pointer(&vec![(1, 2), (3, 4)], &vec![5, -6], true);
    assert_eq!(r, LookInput { look_x: 3, look_y: 4, zoom_delta: -6, orbit_held: true });
    let r = reduce_pointer(&vec![], &vec![], false);
    assert_eq!(r, idle());
}

#[test]
fn mouse_events_reach_every_target() {
    let mut targets = vec![LookAtTarget::new(1), LookAtTarget::new(2)];
    let input = LookInput { look_x: 1, look_y: 0, zoom_delta: 1, orbit_held: true };
    process_mouse_events(&mut targets, input, 1_000);
    for t in &targets {
        assert_eq!(t.yaw, 1_000);
        assert_eq!(t.distance, 40_000_000 - 20_000);
    }
}

#[test]
fn axis_step_has_full_length() {
    assert_eq!(move_step(&keys(true, false, false, false), FRAME), (0, 160_000));
    assert_eq!(move_step(&keys(false, true, false, false), FRAME), (0, -160_000));
    assert_eq!(move_step(&keys(false, false, true, false), FRAME), (160_000, 0));
    assert_eq!(move_step(&keys(false, false, false, true), FRAME), (-160_000, 0));
    assert_eq!(move_step(&keys(true, true, false, false), FRAME), (0, 0));
}

#[test]
fn diagonal_step_is_not_faster() {
    let d = move_step(&keys(true, false, true, false), FRAME);
    assert_eq!(d, (113_137, 113_137));
    let a = move_step(&keys(true, false, false, false), FRAME);
    let dd = d.0 * d.0 + d.1 * d.1;
    let aa = a.0 * a.0 + a.1 * a.1;
    assert!(dd <= aa);
    assert!(aa - dd < 4 * d.0 + 2);
    assert_eq!(move_step(&keys(false, true, false, true), FRAME), (-113_137, -113_137));
}

#[test]
fn diagonal_component_rounds_down() {
    assert_eq!(diagonal_component(0), 0);
    assert_eq!(diagonal_component(1), 0);
    assert_eq!(diagonal_component(10), 7);
    assert_eq!(diagonal_component(100), 70);
    assert_eq!(diagonal_component(42_949_672_950), 30_370_004_992);
}

#[test]
fn camera_pose_is_written_when_resolved() {
    let mut cams = CameraTable::new();
    cams.insert(9, CameraPose { pitch: 0, distance: 0 });
    let mut t = LookAtTarget::new(9);
    let u = update_target(&mut t, &keys(false, false, false, false), FRAME, &mut cams);
    assert!(u.camera_written);
    assert_eq!(cams.get(9), Some(CameraPose { pitch: 523_599, distance: 40_000_000 }));
}

#[test]
fn missing_camera_still_moves_subject() {
    let mut cams = CameraTable::new();
    cams.insert(4, CameraPose { pitch: 1, distance: 2 });
    let mut t = LookAtTarget { yaw: 250, pitch: 523_599, distance: 40_000_000, camera_entity: 9 };
    let u = update_target(&mut t, &keys(true, false, false, false), FRAME, &mut cams);
    assert!(!u.camera_written);
    assert_eq!((u.step_right, u.step_forward), (0, 160_000));
    assert_eq!(u.yaw, 250);
    assert!(!cams.contains(9));
    assert_eq!(cams.get(4), Some(CameraPose { pitch: 1, distance: 2 }));
    cams.remove(4);
    assert_eq!(cams.get(4), None);
}
