use vstd::prelude::*;
use crate::matrix::Matrix34;
use crate::Bits32;

verus! {

/// The canonical pose of the uniform contract. A field is `Some` exactly when
/// the vendor sample exposed it — absence means "not measured", never zero.
/// Orientation is a unit quaternion `(x, y, z, w)`; vectors are `(x, y, z)`.
/// All entries are raw single-precision bit patterns.
pub struct VRPose {
    pub orientation: Option<[Bits32; 4]>,
    pub position: Option<[Bits32; 3]>,
    pub linear_velocity: Option<[Bits32; 3]>,
    pub angular_velocity: Option<[Bits32; 3]>,
    pub linear_acceleration: Option<[Bits32; 3]>,
    pub angular_acceleration: Option<[Bits32; 3]>,
}

/// A pose with every sample absent: what a momentarily untracked device
/// reports.
pub open spec fn spec_empty_pose() -> VRPose {
    VRPose {
        orientation: None,
        position: None,
        linear_velocity: None,
        angular_velocity: None,
        linear_acceleration: None,
        angular_acceleration: None,
    }
}

impl Default for VRPose {
    /// The empty pose: every field absent.
    fn default() -> (r: VRPose)
        ensures
            r == spec_empty_pose(),
    {
        VRPose {
            orientation: None,
            position: None,
            linear_velocity: None,
            angular_velocity: None,
            linear_acceleration: None,
            angular_acceleration: None,
        }
    }
}

/// One raw tracked-device sample as the desktop runtime reports it: the
/// device-to-absolute transform, a validity flag, and the measured
/// velocities. Produced once per poll and consumed immediately.
pub struct TrackedPoseSample {
    pub valid: bool,
    pub transform: Matrix34,
    pub linear_velocity: [Bits32; 3],
    pub angular_velocity: [Bits32; 3],
}

/// What the normalized pose of a raw sample is. An invalid sample yields the
/// empty pose. A valid one yields exactly: the quaternion decomposed from the
/// transform's rotation submatrix, the transform's translation column as the
/// position, the two velocities as measured — and no accelerations, which
/// this runtime does not expose (absent, not zero).
pub open spec fn spec_is_pose_of(sample: TrackedPoseSample, r: VRPose) -> bool {
    if !sample.valid {
        r == spec_empty_pose()
    } else {
        let m = sample.transform;
        r.orientation matches Some(q) && q@ == crate::quat::spec_rot_matrix_to_quat(
            m.at(0, 0), m.at(0, 1), m.at(0, 2),
            m.at(1, 0), m.at(1, 1), m.at(1, 2),
            m.at(2, 0), m.at(2, 1), m.at(2, 2),
        )
            && (r.position matches Some(p) && p@ == seq![m.at(0, 3), m.at(1, 3), m.at(2, 3)])
            && r.linear_velocity == Some(sample.linear_velocity)
            && r.angular_velocity == Some(sample.angular_velocity)
            && r.linear_acceleration is None
            && r.angular_acceleration is None
    }
}

/// Normalizes one raw tracked sample into the canonical pose. Total: an
/// invalid sample degrades to the empty pose rather than failing, so a
/// momentarily untracked device yields a neutral frame, not an error.
pub fn pose_from_sample(sample: &TrackedPoseSample) -> (r: VRPose)
    ensures
        spec_is_pose_of(*sample, r),
{
    if !sample.valid {
        // The sample may be flagged invalid; report an empty pose.
        return VRPose::default();
    }
    VRPose {
        orientation: Some(crate::quat::openvr_matrix_to_quat(&sample.transform)),
        position: Some(crate::matrix::matrix_to_position(&sample.transform)),
        linear_velocity: Some(sample.linear_velocity),
        angular_velocity: Some(sample.angular_velocity),
        linear_acceleration: None,
        angular_acceleration: None,
    }
}

} // verus!
