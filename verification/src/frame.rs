use vstd::prelude::*;
use crate::Bits32;
use crate::fbits::{add32, mul32};
use crate::fbits::{f32_add, f32_mul};
use crate::matrix::{
    Matrix34, Matrix44, head_view_array, matrix44_to_array, spec_head_view_array,
    spec_matrix34_to_array, spec_matrix44_to_array,
};
use crate::pose::TrackedPoseSample;

verus! {

/// One entry of the product of two 4x4 matrices held as 16 column-major
/// entries: for output column `c` and row `r` (entry `c*4 + r`), the dot
/// product `a[r]*b[4c] + a[4+r]*b[4c+1] + a[8+r]*b[4c+2] + a[12+r]*b[4c+3]`,
/// summed left to right in IEEE single precision.
pub open spec fn spec_mat_mul_entry(a: Seq<Bits32>, b: Seq<Bits32>, i: int) -> Bits32 {
    let c = i / 4;
    let r = i % 4;
    add32(
        add32(
            add32(
                mul32(a[r], b[c * 4]),
                mul32(a[4 + r], b[c * 4 + 1]),
            ),
            mul32(a[8 + r], b[c * 4 + 2]),
        ),
        mul32(a[12 + r], b[c * 4 + 3]),
    )
}

/// The product of two 4x4 matrices held as 16 column-major entries.
pub open spec fn spec_mat_mul(a: Seq<Bits32>, b: Seq<Bits32>) -> Seq<Bits32> {
    Seq::new(16, |i: int| spec_mat_mul_entry(a, b, i))
}

/// The dot product behind entry `(r, c)` of the matrix product.
fn mat_mul_entry(a: &[Bits32; 16], b: &[Bits32; 16], r: usize, c: usize) -> (v: Bits32)
    requires
        r < 4,
        c < 4,
    ensures
        v == spec_mat_mul_entry(a@, b@, c * 4 + r),
{
    f32_add(
        f32_add(
            f32_add(
                f32_mul(a[r], b[c * 4]),
                f32_mul(a[4 + r], b[c * 4 + 1]),
            ),
            f32_mul(a[8 + r], b[c * 4 + 2]),
        ),
        f32_mul(a[12 + r], b[c * 4 + 3]),
    )
}

/// Multiplies two 4x4 matrices held as 16 column-major entries.
pub fn multiply_matrix(a: &[Bits32; 16], b: &[Bits32; 16]) -> (out: [Bits32; 16])
    ensures
        out@ == spec_mat_mul(a@, b@),
{
    let out = [
        mat_mul_entry(a, b, 0, 0), mat_mul_entry(a, b, 1, 0),
        mat_mul_entry(a, b, 2, 0), mat_mul_entry(a, b, 3, 0),
        mat_mul_entry(a, b, 0, 1), mat_mul_entry(a, b, 1, 1),
        mat_mul_entry(a, b, 2, 1), mat_mul_entry(a, b, 3, 1),
        mat_mul_entry(a, b, 0, 2), mat_mul_entry(a, b, 1, 2),
        mat_mul_entry(a, b, 2, 2), mat_mul_entry(a, b, 3, 2),
        mat_mul_entry(a, b, 0, 3), mat_mul_entry(a, b, 1, 3),
        mat_mul_entry(a, b, 2, 3), mat_mul_entry(a, b, 3, 3),
    ];
    proof {
        assert(out@ =~= spec_mat_mul(a@, b@));
    }
    out
}

/// Everything a renderer needs for the current frame: per-eye projection
/// matrices and per-eye view matrices, 16 column-major single-precision
/// entries each. Assembled whole on every poll from fresh samples — never
/// cached, never partial.
pub struct VRFrameData {
    pub left_projection_matrix: [Bits32; 16],
    pub left_view_matrix: [Bits32; 16],
    pub right_projection_matrix: [Bits32; 16],
    pub right_view_matrix: [Bits32; 16],
}

/// The view matrix of one eye: the head transform — the tracked sample when
/// valid, the identity otherwise — multiplied by that eye's eye-to-head
/// offset transform.
pub open spec fn spec_view_matrix(sample: TrackedPoseSample, eye_to_head: Matrix34) -> Seq<Bits32> {
    spec_mat_mul(
        spec_head_view_array(sample.valid, sample.transform),
        spec_matrix34_to_array(eye_to_head),
    )
}

/// Assembles the renderable frame description from one tracked head sample,
/// the vendor's per-eye 4x4 projection matrices, and the per-eye eye-to-head
/// offset transforms. All-or-nothing and total: an invalid head sample
/// degrades to the identity head transform — the view matrices then reduce to
/// the eye offsets — rather than surfacing an error, because dropping a frame
/// is worse than rendering one frame with a neutral pose.
pub fn assemble_frame_data(
    sample: &TrackedPoseSample,
    left_projection: &Matrix44,
    right_projection: &Matrix44,
    left_eye_to_head: &Matrix34,
    right_eye_to_head: &Matrix34,
) -> (data: VRFrameData)
    ensures
        data.left_projection_matrix@ == spec_matrix44_to_array(*left_projection),
        data.right_projection_matrix@ == spec_matrix44_to_array(*right_projection),
        data.left_view_matrix@ == spec_view_matrix(*sample, *left_eye_to_head),
        data.right_view_matrix@ == spec_view_matrix(*sample, *right_eye_to_head),
{
    let view_matrix = head_view_array(sample.valid, &sample.transform);
    let left_eye = crate::matrix::matrix34_to_array(left_eye_to_head);
    let right_eye = crate::matrix::matrix34_to_array(right_eye_to_head);
    VRFrameData {
        left_projection_matrix: matrix44_to_array(left_projection),
        right_projection_matrix: matrix44_to_array(right_projection),
        left_view_matrix: multiply_matrix(&view_matrix, &left_eye),
        right_view_matrix: multiply_matrix(&view_matrix, &right_eye),
    }
}

/// Turns texture bounds given as origin and extent — `u` minimum, `v`
/// minimum, `u` width, `v` height — into the corner form the desktop
/// compositor takes: minima as given, each maximum the matching minimum plus
/// its extent, added in IEEE single precision.
pub fn texture_bounds_to_openvr(bounds: &[Bits32; 4]) -> (r: [Bits32; 4])
    ensures
        r@ == seq![
            bounds[0],
            bounds[1],
            add32(bounds[0], bounds[2]),
            add32(bounds[1], bounds[3]),
        ],
{
    let u_min = bounds[0];
    let v_min = bounds[1];
    let r = [u_min, v_min, f32_add(u_min, bounds[2]), f32_add(v_min, bounds[3])];
    proof {
        assert(r@ =~= seq![
            bounds@[0],
            bounds@[1],
            add32(bounds@[0], bounds@[2]),
            add32(bounds@[1], bounds@[3]),
        ]);
    }
    r
}

/// An invalid tracking sample never propagates as an error: the frame is
/// assembled all the same, and each view matrix is exactly the product of the
/// identity head transform with that eye's offset transform — a neutral pose,
/// not a failure.
pub proof fn lemma_invalid_sample_degrades_to_identity(
    sample: TrackedPoseSample,
    eye_to_head: Matrix34,
)
    requires
        !sample.valid,
    ensures
        spec_view_matrix(sample, eye_to_head) == spec_mat_mul(
            crate::matrix::spec_identity_array(),
            spec_matrix34_to_array(eye_to_head),
        ),
{
}

} // verus!
