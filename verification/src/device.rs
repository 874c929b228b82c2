use vstd::prelude::*;
use crate::frame::{VRFrameData, assemble_frame_data, spec_view_matrix};
use crate::matrix::{Matrix34, Matrix44, spec_matrix44_to_array};
use crate::pose::{TrackedPoseSample, VRPose, pose_from_sample, spec_is_pose_of};

verus! {

/// Identity of one tracked device of the desktop runtime: a stable id handed
/// out by the session layer and the runtime's own tracked-device index, which
/// selects this device's sample out of each batch of raw tracked poses.
pub struct OpenVRDevice {
    device_id: u64,
    index: u32,
}

impl OpenVRDevice {
    /// The stable id of this device.
    pub closed spec fn spec_device_id(self) -> u64 {
        self.device_id
    }

    /// The runtime's tracked-device index of this device.
    pub closed spec fn spec_index(self) -> u32 {
        self.index
    }

    pub fn new(device_id: u64, index: u32) -> (d: OpenVRDevice)
        ensures
            d.spec_device_id() == device_id,
            d.spec_index() == index,
    {
        OpenVRDevice { device_id, index }
    }

    pub fn device_id(&self) -> (r: u64)
        ensures
            r == self.spec_device_id(),
    {
        self.device_id
    }

    pub fn index(&self) -> (r: u32)
        ensures
            r == self.spec_index(),
    {
        self.index
    }

    /// The future predicted pose of this device: the normalization of its own
    /// sample out of the batch of raw tracked poses the runtime computed for
    /// the predicted display time. Freshly rebuilt on every poll.
    pub fn get_pose(&self, tracked_poses: &Vec<TrackedPoseSample>) -> (pose: VRPose)
        requires
            self.spec_index() < tracked_poses@.len(),
        ensures
            spec_is_pose_of(tracked_poses@[self.spec_index() as int], pose),
    {
        pose_from_sample(&tracked_poses[self.index as usize])
    }

    /// The information required to render the current frame, assembled from
    /// this device's own sample out of the freshest batch of raw tracked
    /// poses, the vendor's per-eye projection matrices, and the per-eye
    /// eye-to-head offset transforms.
    pub fn get_frame_data(
        &self,
        tracked_poses: &Vec<TrackedPoseSample>,
        left_projection: &Matrix44,
        right_projection: &Matrix44,
        left_eye_to_head: &Matrix34,
        right_eye_to_head: &Matrix34,
    ) -> (data: VRFrameData)
        requires
            self.spec_index() < tracked_poses@.len(),
        ensures
            data.left_projection_matrix@ == spec_matrix44_to_array(*left_projection),
            data.right_projection_matrix@ == spec_matrix44_to_array(*right_projection),
            data.left_view_matrix@ == spec_view_matrix(
                tracked_poses@[self.spec_index() as int],
                *left_eye_to_head,
            ),
            data.right_view_matrix@ == spec_view_matrix(
                tracked_poses@[self.spec_index() as int],
                *right_eye_to_head,
            ),
    {
        assemble_frame_data(
            &tracked_poses[self.index as usize],
            left_projection,
            right_projection,
            left_eye_to_head,
            right_eye_to_head,
        )
    }
}

} // verus!
