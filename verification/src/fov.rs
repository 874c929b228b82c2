use vstd::prelude::*;
use crate::{Bits32, Bits64};
use crate::fbits::{mul32, widen32};
use crate::fbits::{f32_mul, f32_neg, f32_to_f64};

verus! {

/// Bit pattern, in IEEE-754 single precision, of the degrees-per-radian
/// constant that the platform's degree conversion multiplies by
/// (`57.2957795130823…`, the correctly rounded `180/pi`).
pub const DEGREES_PER_RADIAN_BITS: u32 = 0x4265_2EE1;

/// A per-eye field of view of the uniform contract: four signed offsets from
/// the optical axis, in degrees, outward-positive, carried as raw
/// double-precision bit patterns. Never raw tangent values, whatever the
/// source convention.
#[derive(Clone, Copy, PartialEq, Eq, Structural, Debug)]
pub struct VRFieldOfView {
    pub up_degrees: Bits64,
    pub down_degrees: Bits64,
    pub left_degrees: Bits64,
    pub right_degrees: Bits64,
}

/// A half-angle in radians turned into outward-positive degrees: multiplied
/// by the degrees-per-radian constant in single precision, negated when the
/// vendor's convention for that edge grows the other way (negation flips
/// exactly the sign bit), then widened exactly to double precision.
pub open spec fn spec_edge_degrees(angle_radians: Bits32, negate: bool) -> Bits64 {
    let degrees = mul32(angle_radians, DEGREES_PER_RADIAN_BITS);
    if negate {
        widen32(degrees ^ 0x8000_0000u32)
    } else {
        widen32(degrees)
    }
}

/// Converts the four per-edge half-angles of one eye — in radians, each the
/// arctangent of the vendor's raw tangent clipping-plane value — into the
/// uniform field of view. The vendor's raw values grow downward and inward,
/// so the up and left edges are negated to make all four outward-positive.
pub fn normalize_fov(
    left_radians: Bits32,
    right_radians: Bits32,
    up_radians: Bits32,
    down_radians: Bits32,
) -> (fov: VRFieldOfView)
    ensures
        fov.up_degrees == spec_edge_degrees(up_radians, true),
        fov.right_degrees == spec_edge_degrees(right_radians, false),
        fov.down_degrees == spec_edge_degrees(down_radians, false),
        fov.left_degrees == spec_edge_degrees(left_radians, true),
{
    VRFieldOfView {
        up_degrees: f32_to_f64(f32_neg(f32_mul(up_radians, DEGREES_PER_RADIAN_BITS))),
        down_degrees: f32_to_f64(f32_mul(down_radians, DEGREES_PER_RADIAN_BITS)),
        left_degrees: f32_to_f64(f32_neg(f32_mul(left_radians, DEGREES_PER_RADIAN_BITS))),
        right_degrees: f32_to_f64(f32_mul(right_radians, DEGREES_PER_RADIAN_BITS)),
    }
}

} // verus!
