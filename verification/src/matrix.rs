use vstd::prelude::*;
use crate::Bits32;

verus! {

/// Bit pattern of `1.0` in IEEE-754 single precision.
pub const FLOAT_ONE_BITS: u32 = 0x3F80_0000;

/// Bit pattern of `+0.0` in IEEE-754 single precision.
pub const FLOAT_ZERO_BITS: u32 = 0x0000_0000;

/// A 3x4 affine transform as a vendor runtime hands it out: rows indexed
/// first, the translation in column 3. Entries are raw single-precision bit
/// patterns; this crate only moves them, so every contract over them is exact.
#[derive(Clone, Copy)]
pub struct Matrix34 {
    pub m: [[Bits32; 4]; 3],
}

/// A full 4x4 matrix in the same row-indexed-first convention as `Matrix34`.
#[derive(Clone, Copy)]
pub struct Matrix44 {
    pub m: [[Bits32; 4]; 4],
}

impl Matrix34 {
    /// Entry at row `r`, column `c`.
    pub open spec fn at(self, r: int, c: int) -> Bits32 {
        self.m[r][c]
    }
}

impl Matrix44 {
    /// Entry at row `r`, column `c`.
    pub open spec fn at(self, r: int, c: int) -> Bits32 {
        self.m[r][c]
    }
}

/// The 16 entries, row-major, of a 3x4 transform completed to 4x4 with the
/// affine bottom row `0 0 0 1`.
pub open spec fn spec_matrix34_to_array(m: Matrix34) -> Seq<Bits32> {
    seq![
        m.at(0, 0), m.at(0, 1), m.at(0, 2), m.at(0, 3),
        m.at(1, 0), m.at(1, 1), m.at(1, 2), m.at(1, 3),
        m.at(2, 0), m.at(2, 1), m.at(2, 2), m.at(2, 3),
        FLOAT_ZERO_BITS, FLOAT_ZERO_BITS, FLOAT_ZERO_BITS, FLOAT_ONE_BITS,
    ]
}

/// The 16 entries of a 4x4 matrix, row-major.
pub open spec fn spec_matrix44_to_array(m: Matrix44) -> Seq<Bits32> {
    seq![
        m.at(0, 0), m.at(0, 1), m.at(0, 2), m.at(0, 3),
        m.at(1, 0), m.at(1, 1), m.at(1, 2), m.at(1, 3),
        m.at(2, 0), m.at(2, 1), m.at(2, 2), m.at(2, 3),
        m.at(3, 0), m.at(3, 1), m.at(3, 2), m.at(3, 3),
    ]
}

/// The identity transform as 16 row-major entries.
pub open spec fn spec_identity_array() -> Seq<Bits32> {
    seq![
        FLOAT_ONE_BITS, FLOAT_ZERO_BITS, FLOAT_ZERO_BITS, FLOAT_ZERO_BITS,
        FLOAT_ZERO_BITS, FLOAT_ONE_BITS, FLOAT_ZERO_BITS, FLOAT_ZERO_BITS,
        FLOAT_ZERO_BITS, FLOAT_ZERO_BITS, FLOAT_ONE_BITS, FLOAT_ZERO_BITS,
        FLOAT_ZERO_BITS, FLOAT_ZERO_BITS, FLOAT_ZERO_BITS, FLOAT_ONE_BITS,
    ]
}

/// Flattens a 3x4 transform to the 16-entry form the frame assembler works
/// on, completing it with the affine bottom row.
pub fn matrix34_to_array(matrix: &Matrix34) -> (r: [Bits32; 16])
    ensures
        r@ == spec_matrix34_to_array(*matrix),
{
    let r = [
        matrix.m[0][0], matrix.m[0][1], matrix.m[0][2], matrix.m[0][3],
        matrix.m[1][0], matrix.m[1][1], matrix.m[1][2], matrix.m[1][3],
        matrix.m[2][0], matrix.m[2][1], matrix.m[2][2], matrix.m[2][3],
        FLOAT_ZERO_BITS, FLOAT_ZERO_BITS, FLOAT_ZERO_BITS, FLOAT_ONE_BITS,
    ];
    proof {
        assert(r@ =~= spec_matrix34_to_array(*matrix));
    }
    r
}

/// Flattens a 4x4 matrix to its 16 row-major entries.
pub fn matrix44_to_array(matrix: &Matrix44) -> (r: [Bits32; 16])
    ensures
        r@ == spec_matrix44_to_array(*matrix),
{
    let r = [
        matrix.m[0][0], matrix.m[0][1], matrix.m[0][2], matrix.m[0][3],
        matrix.m[1][0], matrix.m[1][1], matrix.m[1][2], matrix.m[1][3],
        matrix.m[2][0], matrix.m[2][1], matrix.m[2][2], matrix.m[2][3],
        matrix.m[3][0], matrix.m[3][1], matrix.m[3][2], matrix.m[3][3],
    ];
    proof {
        assert(r@ =~= spec_matrix44_to_array(*matrix));
    }
    r
}

/// The translation of a 3x4 affine transform: its fourth column.
pub fn matrix_to_position(matrix: &Matrix34) -> (r: [Bits32; 3])
    ensures
        r@ == seq![matrix.at(0, 3), matrix.at(1, 3), matrix.at(2, 3)],
{
    let r = [matrix.m[0][3], matrix.m[1][3], matrix.m[2][3]];
    proof {
        assert(r@ =~= seq![matrix.at(0, 3), matrix.at(1, 3), matrix.at(2, 3)]);
    }
    r
}

/// The identity transform, substituted for the head pose whenever a tracking
/// sample is invalid: an untracked frame renders at a neutral pose rather
/// than failing.
pub fn identity_matrix() -> (r: [Bits32; 16])
    ensures
        r@ == spec_identity_array(),
{
    let r = [
        FLOAT_ONE_BITS, FLOAT_ZERO_BITS, FLOAT_ZERO_BITS, FLOAT_ZERO_BITS,
        FLOAT_ZERO_BITS, FLOAT_ONE_BITS, FLOAT_ZERO_BITS, FLOAT_ZERO_BITS,
        FLOAT_ZERO_BITS, FLOAT_ZERO_BITS, FLOAT_ONE_BITS, FLOAT_ZERO_BITS,
        FLOAT_ZERO_BITS, FLOAT_ZERO_BITS, FLOAT_ZERO_BITS, FLOAT_ONE_BITS,
    ];
    proof {
        assert(r@ =~= spec_identity_array());
    }
    r
}

/// What the head transform of a frame is: the tracked 3x4 sample when it is
/// valid, the identity otherwise.
pub open spec fn spec_head_view_array(valid: bool, m: Matrix34) -> Seq<Bits32> {
    if valid {
        spec_matrix34_to_array(m)
    } else {
        spec_identity_array()
    }
}

/// Selects the head transform for view-matrix assembly, falling back to the
/// identity on an invalid sample.
pub fn head_view_array(valid: bool, matrix: &Matrix34) -> (r: [Bits32; 16])
    ensures
        r@ == spec_head_view_array(valid, *matrix),
{
    if valid {
        matrix34_to_array(matrix)
    } else {
        identity_matrix()
    }
}

} // verus!
