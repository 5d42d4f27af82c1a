use vstd::prelude::*;
use std::collections::HashMap;
use crate::input::{move_step, step_spec, MoveKeys};
use crate::rig::{LookAtTarget, LookInput};

verus! {

broadcast use vstd::std_specs::hash::group_hash_axioms;

/// Where a camera sits relative to its subject: the clamped pitch and distance
/// it was last given. The host turns this into a position
/// `distance * (0, cos pitch, sin pitch)` and a look-at rotation.
#[derive(Clone, Copy, Debug, PartialEq, Eq)]
pub struct CameraPose {
    /// Microradians.
    pub pitch: i64,
    /// Micrometres.
    pub distance: i64,
}

/// The pose a target's camera is given.
pub open spec fn pose_of(t: LookAtTarget) -> CameraPose {
    CameraPose { pitch: t.pitch, distance: t.distance }
}

/// Camera poses by entity identifier. Looking up an identifier that is not
/// there is a soft miss, never an error.
pub struct CameraTable {
    poses: HashMap<u64, CameraPose>,
}

impl View for CameraTable {
    type V = Map<u64, CameraPose>;

    closed spec fn view(&self) -> Map<u64, CameraPose> {
        self.poses@
    }
}

impl CameraTable {
    /// An empty table.
    pub fn new() -> (r: Self)
        ensures
            r@ == Map::<u64, CameraPose>::empty(),
    {
        CameraTable { poses: HashMap::new() }
    }

    /// Registers (or replaces) the camera entity `id` with `pose`.
    pub fn insert(&mut self, id: u64, pose: CameraPose)
        ensures
            final(self)@ == old(self)@.insert(id, pose),
    {
        self.poses.insert(id, pose);
    }

    /// Forgets the camera entity `id`.
    pub fn remove(&mut self, id: u64)
        ensures
            final(self)@ == old(self)@.remove(id),
    {
        self.poses.remove(&id);
    }

    /// Whether `id` resolves to a camera.
    pub fn contains(&self, id: u64) -> (r: bool)
        ensures
            r == self@.contains_key(id),
    {
        self.poses.contains_key(&id)
    }

    /// The pose of camera `id`, or `None` when it does not resolve.
    pub fn get(&self, id: u64) -> (r: Option<CameraPose>)
        ensures
            r == (if self@.contains_key(id) { Some(self@[id]) } else { None::<CameraPose> }),
    {
        match self.poses.get(&id) {
            Some(p) => Some(*p),
            None => None,
        }
    }

    /// Writes `pose` to camera `id` if it resolves; returns whether it did.
    /// A missing camera leaves the table as it was.
    pub fn write(&mut self, id: u64, pose: CameraPose) -> (r: bool)
        ensures
            r == old(self)@.contains_key(id),
            final(self)@ == camera_table_after(old(self)@, id, pose),
    {
        if self.poses.contains_key(&id) {
            self.poses.insert(id, pose);
            true
        } else {
            false
        }
    }
}

/// The table after writing `pose` to camera `id`: unchanged when `id` does not resolve.
pub open spec fn camera_table_after(
    m: Map<u64, CameraPose>,
    id: u64,
    pose: CameraPose,
) -> Map<u64, CameraPose> {
    if m.contains_key(id) {
        m.insert(id, pose)
    } else {
        m
    }
}

/// What one frame does to a subject, for the host to apply to its transform.
#[derive(Clone, Copy, Debug, PartialEq, Eq)]
pub struct SubjectUpdate {
    /// The subject's orientation becomes a pure rotation of `-yaw` about the up axis.
    pub yaw: i64,
    /// Step to the right along the subject's current right axis, in micrometres.
    pub step_right: i64,
    /// Step along the subject's current forward axis, in micrometres.
    pub step_forward: i64,
    /// Whether the camera resolved and was written.
    pub camera_written: bool,
}

/// What `update_target` owes the subject of a target that has been clamped to `t`.
pub open spec fn subject_update_spec(t: LookAtTarget, keys: MoveKeys, dt: u32, r: SubjectUpdate) -> bool {
    r.yaw == t.yaw && step_spec(keys, dt, (r.step_right, r.step_forward))
}

/// Applies one frame's pointer input to every target: last motion and scroll
/// events of the frame win; orbit only while the button is held; zoom always.
pub fn process_mouse_events(
    targets: &mut Vec<LookAtTarget>,
    input: LookInput,
    dt: u32,
)
    requires
        forall|i: int| 0 <= i < old(targets).len() ==> #[trigger] old(targets)[i].input_fits(input, dt),
    ensures
        final(targets).len() == old(targets).len(),
        forall|i: int|
            0 <= i < old(targets).len() ==> #[trigger] final(targets)[i] == old(targets)[i].with_input(input, dt),
{
    let n = targets.len();
    let mut i: usize = 0;
    while i < n
        invariant
            n == old(targets).len(),
            targets.len() == n,
            0 <= i <= n,
            forall|j: int| i <= j < n ==> #[trigger] targets[j] == old(targets)[j],
            forall|j: int| 0 <= j < i ==> #[trigger] targets[j] == old(targets)[j].with_input(input, dt),
            forall|j: int| 0 <= j < n ==> #[trigger] old(targets)[j].input_fits(input, dt),
        decreases n - i,
    {
        let mut t = targets[i];
        t.apply_input(input, dt);
        targets.set(i, t);
        i = i + 1;
    }
}

/// One frame of the rig for one target: clamps its pitch and distance, works
/// out the subject's yaw-only orientation and own-frame step from the held
/// keys, and writes the camera pose if the camera resolves. A camera that does
/// not resolve is skipped; the subject is updated all the same.
pub fn update_target(
    target: &mut LookAtTarget,
    keys: &MoveKeys,
    dt: u32,
    cameras: &mut CameraTable,
) -> (r: SubjectUpdate)
    ensures
        *final(target) == old(target).clamped(),
        final(target).in_range(),
        subject_update_spec(*final(target), *keys, dt, r),
        r.camera_written == old(cameras)@.contains_key(old(target).camera_entity),
        final(cameras)@ == camera_table_after(
            old(cameras)@,
            old(target).camera_entity,
            pose_of(*final(target)),
        ),
{
    target.clamp_ranges();
    let (step_right, step_forward) = move_step(keys, dt);
    let pose = CameraPose { pitch: target.pitch, distance: target.distance };
    let camera_written = cameras.write(target.camera_entity, pose);
    SubjectUpdate { yaw: target.yaw, step_right, step_forward, camera_written }
}

} // verus!
