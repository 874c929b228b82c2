use vstd::prelude::*;
use crate::Bits32;
use crate::fbits::{
    add32, div32, mul32, spec_f32_eq, spec_f32_le, spec_f32_lt, sqrt32, sub32,
};
use crate::fbits::{f32_add, f32_div, f32_eq, f32_le, f32_lt, f32_mul, f32_sqrt, f32_sub};
use crate::matrix::{FLOAT_ONE_BITS, FLOAT_ZERO_BITS, Matrix34};

verus! {

/// Bit pattern of `0.5` in IEEE-754 single precision.
pub const FLOAT_HALF_BITS: u32 = 0x3F00_0000;

/// The squared length of one rotation column: `a*a + b*b + c*c` in IEEE
/// single precision, summed left to right.
pub open spec fn spec_column_norm(a: Bits32, b: Bits32, c: Bits32) -> Bits32 {
    add32(add32(mul32(a, a), mul32(b, b)), mul32(c, c))
}

/// A column is rescaled only when its squared length is neither exactly one
/// (already unit, the square root would be redundant work) nor exactly zero
/// (degenerate, rescaling would divide by zero).
pub open spec fn spec_needs_rescale(len: Bits32) -> bool {
    !spec_f32_eq(len, FLOAT_ONE_BITS) && !spec_f32_eq(len, FLOAT_ZERO_BITS)
}

/// One entry of a column after normalization: multiplied by `1/sqrt(len)`
/// when the column needs rescaling, untouched otherwise.
pub open spec fn spec_rescaled(v: Bits32, len: Bits32) -> Bits32 {
    if spec_needs_rescale(len) {
        mul32(v, div32(FLOAT_ONE_BITS, sqrt32(len)))
    } else {
        v
    }
}

/// The quaternion `(x, y, z, w)` decomposed from a 3x3 rotation matrix given
/// row by row, exactly as the numerically stable textbook algorithm computes
/// it in IEEE single precision: normalize each column, then branch on the
/// trace — scaling from `w` when the trace is non-negative, otherwise from
/// whichever diagonal entry dominates — and derive the remaining components
/// from off-diagonal sums and differences.
pub open spec fn spec_rot_matrix_to_quat(
    m00: Bits32, m01: Bits32, m02: Bits32,
    m10: Bits32, m11: Bits32, m12: Bits32,
    m20: Bits32, m21: Bits32, m22: Bits32,
) -> Seq<Bits32> {
    let l0 = spec_column_norm(m00, m10, m20);
    let l1 = spec_column_norm(m01, m11, m21);
    let l2 = spec_column_norm(m02, m12, m22);
    let n00 = spec_rescaled(m00, l0);
    let n10 = spec_rescaled(m10, l0);
    let n20 = spec_rescaled(m20, l0);
    let n01 = spec_rescaled(m01, l1);
    let n11 = spec_rescaled(m11, l1);
    let n21 = spec_rescaled(m21, l1);
    let n02 = spec_rescaled(m02, l2);
    let n12 = spec_rescaled(m12, l2);
    let n22 = spec_rescaled(m22, l2);
    let t = add32(add32(n00, n11), n22);
    if spec_f32_le(FLOAT_ZERO_BITS, t) {
        let s0 = sqrt32(add32(t, FLOAT_ONE_BITS));
        let s = div32(FLOAT_HALF_BITS, s0);
        seq![
            mul32(sub32(n21, n12), s),
            mul32(sub32(n02, n20), s),
            mul32(sub32(n10, n01), s),
            mul32(FLOAT_HALF_BITS, s0),
        ]
    } else if spec_f32_lt(n11, n00) && spec_f32_lt(n22, n00) {
        let s0 = sqrt32(sub32(sub32(add32(FLOAT_ONE_BITS, n00), n11), n22));
        let s = div32(FLOAT_HALF_BITS, s0);
        seq![
            mul32(s0, FLOAT_HALF_BITS),
            mul32(add32(n10, n01), s),
            mul32(add32(n02, n20), s),
            mul32(sub32(n21, n12), s),
        ]
    } else if spec_f32_lt(n22, n11) {
        let s0 = sqrt32(sub32(sub32(add32(FLOAT_ONE_BITS, n11), n00), n22));
        let s = div32(FLOAT_HALF_BITS, s0);
        seq![
            mul32(add32(n10, n01), s),
            mul32(s0, FLOAT_HALF_BITS),
            mul32(add32(n21, n12), s),
            mul32(sub32(n02, n20), s),
        ]
    } else {
        let s0 = sqrt32(sub32(sub32(add32(FLOAT_ONE_BITS, n22), n00), n11));
        let s = div32(FLOAT_HALF_BITS, s0);
        seq![
            mul32(add32(n02, n20), s),
            mul32(add32(n21, n12), s),
            mul32(s0, FLOAT_HALF_BITS),
            mul32(sub32(n10, n01), s),
        ]
    }
}

/// Normalizes one rotation column to unit length, skipping the work when the
/// squared length is already exactly one or exactly zero.
fn rescale_column(a: Bits32, b: Bits32, c: Bits32) -> (r: (Bits32, Bits32, Bits32))
    ensures
        ({
            let len = spec_column_norm(a, b, c);
            r.0 == spec_rescaled(a, len)
                && r.1 == spec_rescaled(b, len)
                && r.2 == spec_rescaled(c, len)
        }),
{
    let len = f32_add(f32_add(f32_mul(a, a), f32_mul(b, b)), f32_mul(c, c));
    if !f32_eq(len, FLOAT_ONE_BITS) && !f32_eq(len, FLOAT_ZERO_BITS) {
        let inv = f32_div(FLOAT_ONE_BITS, f32_sqrt(len));
        (f32_mul(a, inv), f32_mul(b, inv), f32_mul(c, inv))
    } else {
        (a, b, c)
    }
}

/// Decomposes a 3x3 rotation matrix, given row by row, into a quaternion
/// `(x, y, z, w)`. Total: a matrix that is no valid rotation still yields a
/// quaternion (a meaningless one — supplying valid tracking data is the
/// caller's charge), and the square-root arguments are non-negative by
/// construction of the branch conditions.
pub fn rot_matrix_to_quat(
    m00: Bits32, m01: Bits32, m02: Bits32,
    m10: Bits32, m11: Bits32, m12: Bits32,
    m20: Bits32, m21: Bits32, m22: Bits32,
) -> (q: [Bits32; 4])
    ensures
        q@ == spec_rot_matrix_to_quat(m00, m01, m02, m10, m11, m12, m20, m21, m22),
{
    let (n00, n10, n20) = rescale_column(m00, m10, m20);
    let (n01, n11, n21) = rescale_column(m01, m11, m21);
    let (n02, n12, n22) = rescale_column(m02, m12, m22);

    let t = f32_add(f32_add(n00, n11), n22);
    let q: [Bits32; 4] = if f32_le(FLOAT_ZERO_BITS, t) {
        // |w| >= 0.5: scale from w.
        let s0 = f32_sqrt(f32_add(t, FLOAT_ONE_BITS));
        let w = f32_mul(FLOAT_HALF_BITS, s0);
        let s = f32_div(FLOAT_HALF_BITS, s0);
        [
            f32_mul(f32_sub(n21, n12), s),
            f32_mul(f32_sub(n02, n20), s),
            f32_mul(f32_sub(n10, n01), s),
            w,
        ]
    } else if f32_lt(n11, n00) && f32_lt(n22, n00) {
        // m00 dominates the diagonal: scale from x.
        let s0 = f32_sqrt(f32_sub(f32_sub(f32_add(FLOAT_ONE_BITS, n00), n11), n22));
        let x = f32_mul(s0, FLOAT_HALF_BITS);
        let s = f32_div(FLOAT_HALF_BITS, s0);
        [
            x,
            f32_mul(f32_add(n10, n01), s),
            f32_mul(f32_add(n02, n20), s),
            f32_mul(f32_sub(n21, n12), s),
        ]
    } else if f32_lt(n22, n11) {
        // m11 dominates the diagonal: scale from y.
        let s0 = f32_sqrt(f32_sub(f32_sub(f32_add(FLOAT_ONE_BITS, n11), n00), n22));
        let y = f32_mul(s0, FLOAT_HALF_BITS);
        let s = f32_div(FLOAT_HALF_BITS, s0);
        [
            f32_mul(f32_add(n10, n01), s),
            y,
            f32_mul(f32_add(n21, n12), s),
            f32_mul(f32_sub(n02, n20), s),
        ]
    } else {
        // m22 dominates the diagonal: scale from z.
        let s0 = f32_sqrt(f32_sub(f32_sub(f32_add(FLOAT_ONE_BITS, n22), n00), n11));
        let z = f32_mul(s0, FLOAT_HALF_BITS);
        let s = f32_div(FLOAT_HALF_BITS, s0);
        [
            f32_mul(f32_add(n02, n20), s),
            f32_mul(f32_add(n21, n12), s),
            z,
            f32_mul(f32_sub(n10, n01), s),
        ]
    };
    proof {
        assert(q@ =~= spec_rot_matrix_to_quat(m00, m01, m02, m10, m11, m12, m20, m21, m22));
    }
    q
}

/// The quaternion of a 3x4 transform's rotation submatrix.
pub fn openvr_matrix_to_quat(matrix: &Matrix34) -> (q: [Bits32; 4])
    ensures
        q@ == spec_rot_matrix_to_quat(
            matrix.at(0, 0), matrix.at(0, 1), matrix.at(0, 2),
            matrix.at(1, 0), matrix.at(1, 1), matrix.at(1, 2),
            matrix.at(2, 0), matrix.at(2, 1), matrix.at(2, 2),
        ),
{
    rot_matrix_to_quat(
        matrix.m[0][0], matrix.m[0][1], matrix.m[0][2],
        matrix.m[1][0], matrix.m[1][1], matrix.m[1][2],
        matrix.m[2][0], matrix.m[2][1], matrix.m[2][2],
    )
}

/// The conversion is a pure function of the nine rotation entries: two
/// decompositions of one and the same input yield bit-identical quaternions.
pub proof fn lemma_quat_conversion_deterministic(
    q1: Seq<Bits32>, q2: Seq<Bits32>,
    m00: Bits32, m01: Bits32, m02: Bits32,
    m10: Bits32, m11: Bits32, m12: Bits32,
    m20: Bits32, m21: Bits32, m22: Bits32,
)
    requires
        q1 == spec_rot_matrix_to_quat(m00, m01, m02, m10, m11, m12, m20, m21, m22),
        q2 == spec_rot_matrix_to_quat(m00, m01, m02, m10, m11, m12, m20, m21, m22),
    ensures
        q1 == q2,
{
}

} // verus!
