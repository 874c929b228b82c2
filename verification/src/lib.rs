//! A uniform device/gamepad layer over vendor virtual-reality runtimes.
//!
//! The heart of the crate is the pose/transform normalization pipeline:
//! vendor tracking data (3x4 and 4x4 transform matrices, tangent-based
//! field-of-view values, predicted-time pose queries) is converted into one
//! canonical spatial representation (quaternion orientation, position vector,
//! per-eye projection and view matrices).
//!
//! Scalar samples are carried as raw IEEE-754 bit patterns (`u32` for single
//! precision, `u64` for double precision). The pipeline itself never does
//! unchecked arithmetic on them: every layout, selection and fallback step is
//! verified bit-exactly, and the handful of IEEE operations the numeric
//! routines need are reached through a software floating-point library.

use vstd::prelude::*;

pub mod device;
pub mod display;
pub mod fbits;
pub mod fov;
pub mod frame;
pub mod gamepad;
pub mod matrix;
pub mod mock;
pub mod pose;
pub mod predict;
pub mod quat;

pub use device::OpenVRDevice;
pub use mock::MockServiceCreator;

verus! {

/// Raw IEEE-754 single-precision bit pattern.
pub type Bits32 = u32;

/// Raw IEEE-754 double-precision bit pattern.
pub type Bits64 = u64;

} // verus!
