use webvr_api::fov::normalize_fov;
use webvr_api::frame::{multiply_matrix, texture_bounds_to_openvr};
use webvr_api::matrix::{Matrix34, identity_matrix, matrix34_to_array, matrix_to_position};
use webvr_api::predict::predict_seconds;
use webvr_api::quat::rot_matrix_to_quat;

fn b(x: f32) -> u32 {
    x.to_bits()
}

fn mat34(rows: [[f32; 4]; 3]) -> Matrix34 {
    let mut m = [[0u32; 4]; 3];
    for r in 0..3 {
        for c in 0..4 {
            m[r][c] = rows[r][c].to_bits();
        }
    }
    Matrix34 { m }
}

fn quat_of(rows: [[f32; 3]; 3]) -> [f32; 4] {
    let q = rot_matrix_to_quat(
        b(rows[0][0]),
        b(rows[0][1]),
        b(rows[0][2]),
        b(rows[1][0]),
        b(rows[1][1]),
        b(rows[1][2]),
        b(rows[2][0]),
        b(rows[2][1]),
        b(rows[2][2]),
    );
    [
        f32::from_bits(q[0]),
        f32::from_bits(q[1]),
        f32::from_bits(q[2]),
        f32::from_bits(q[3]),
    ]
}

/// The rotation matrix of a quaternion, in doubles, for round-trip checks.
fn matrix_of_quat(q: [f32; 4]) -> [[f64; 3]; 3] {
    let (x, y, z, w) = (q[0] as f64, q[1] as f64, q[2] as f64, q[3] as f64);
    [
        [
            1.0 - 2.0 * (y * y + z * z),
            2.0 * (x * y - z * w),
            2.0 * (x * z + y * w),
        ],
        [
            2.0 * (x * y + z * w),
            1.0 - 2.0 * (x * x + z * z),
            2.0 * (y * z - x * w),
        ],
        [
            2.0 * (x * z - y * w),
            2.0 * (y * z + x * w),
            1.0 - 2.0 * (x * x + y * y),
        ],
    ]
}

fn assert_round_trips(rows: [[f32; 3]; 3]) {
    let q = quat_of(rows);
    let norm = (q[0] as f64).powi(2)
        + (q[1] as f64).powi(2)
        + (q[2] as f64).powi(2)
        + (q[3] as f64).powi(2);
    assert!((norm - 1.0).abs() < 1e-5, "quaternion norm {norm} is not 1");
    let back = matrix_of_quat(q);
    for r in 0..3 {
        for c in 0..3 {
            assert!(
                (back[r][c] - rows[r][c] as f64).abs() < 1e-4,
                "entry ({r},{c}): {} != {}",
                back[r][c],
                rows[r][c]
            );
        }
    }
}

#[test]
fn quat_of_identity_is_unit_w() {
    let q = quat_of([[1.0, 0.0, 0.0], [0.0, 1.0, 0.0], [0.0, 0.0, 1.0]]);
    assert_eq!(q, [0.0, 0.0, 0.0, 1.0]);
    assert_eq!(q[3].to_bits(), 1.0f32.to_bits());
}

#[test]
fn quat_scaled_identity_is_normalized_first() {
    // Columns of squared length 4 go through the rescaling path: 1/sqrt(4)
    // halves every entry exactly, and the identity quaternion comes out.
    let q = quat_of([[2.0, 0.0, 0.0], [0.0, 2.0, 0.0], [0.0, 0.0, 2.0]]);
    assert_eq!(q, [0.0, 0.0, 0.0, 1.0]);
}

#[test]
fn quat_of_zero_matrix_does_not_fail() {
    // A singular all-zero matrix must not raise: its columns have squared
    // length exactly zero, so the rescaling (and its division) is skipped,
    // the trace is zero, and the w branch computes sqrt(0 + 1) = 1 exactly.
    let q = quat_of([[0.0, 0.0, 0.0], [0.0, 0.0, 0.0], [0.0, 0.0, 0.0]]);
    assert_eq!(q, [0.0, 0.0, 0.0, 0.5]);
}

#[test]
fn quat_half_turn_about_x() {
    // Trace -1: the m00-dominant branch computes s = sqrt(4) = 2 exactly.
    let q = quat_of([[1.0, 0.0, 0.0], [0.0, -1.0, 0.0], [0.0, 0.0, -1.0]]);
    assert_eq!(q, [1.0, 0.0, 0.0, 0.0]);
}

#[test]
fn quat_half_turn_about_y() {
    let q = quat_of([[-1.0, 0.0, 0.0], [0.0, 1.0, 0.0], [0.0, 0.0, -1.0]]);
    assert_eq!(q, [0.0, 1.0, 0.0, 0.0]);
}

#[test]
fn quat_half_turn_about_z() {
    let q = quat_of([[-1.0, 0.0, 0.0], [0.0, -1.0, 0.0], [0.0, 0.0, 1.0]]);
    assert_eq!(q, [0.0, 0.0, 1.0, 0.0]);
}

#[test]
fn quat_third_turn_about_diagonal() {
    // The cyclic permutation matrix rotates by 120 degrees about (1,1,1);
    // every step is exact: s = sqrt(0 + 1) = 1, so all components are 0.5.
    let q = quat_of([[0.0, 0.0, 1.0], [1.0, 0.0, 0.0], [0.0, 1.0, 0.0]]);
    assert_eq!(q, [0.5, 0.5, 0.5, 0.5]);
}

#[test]
fn quat_round_trip_axis_rotations() {
    assert_round_trips([[1.0, 0.0, 0.0], [0.0, 1.0, 0.0], [0.0, 0.0, 1.0]]);
    // Quarter turn about z.
    assert_round_trips([[0.0, -1.0, 0.0], [1.0, 0.0, 0.0], [0.0, 0.0, 1.0]]);
    // Quarter turn about x.
    assert_round_trips([[1.0, 0.0, 0.0], [0.0, 0.0, -1.0], [0.0, 1.0, 0.0]]);
}

#[test]
fn quat_round_trip_general_rotations() {
    // Rotations about an arbitrary axis, built in doubles and rounded to
    // singles, so the rescaling path runs on imperfect columns too.
    for &angle in &[0.3f64, 1.2, 2.5, -0.7] {
        let axis = [2.0f64 / 3.0, -1.0 / 3.0, 2.0 / 3.0];
        let (s, c) = angle.sin_cos();
        let t = 1.0 - c;
        let (x, y, z) = (axis[0], axis[1], axis[2]);
        let rows64 = [
            [t * x * x + c, t * x * y - s * z, t * x * z + s * y],
            [t * x * y + s * z, t * y * y + c, t * y * z - s * x],
            [t * x * z - s * y, t * y * z + s * x, t * z * z + c],
        ];
        let mut rows = [[0.0f32; 3]; 3];
        for r in 0..3 {
            for cc in 0..3 {
                rows[r][cc] = rows64[r][cc] as f32;
            }
        }
        assert_round_trips(rows);
    }
}

#[test]
fn quat_conversion_is_idempotent() {
    let rows = [[0.0, -1.0, 0.0], [1.0, 0.0, 0.0], [0.0, 0.0, 1.0]];
    let first = quat_of(rows);
    let second = quat_of(rows);
    assert_eq!(
        [
            first[0].to_bits(),
            first[1].to_bits(),
            first[2].to_bits(),
            first[3].to_bits()
        ],
        [
            second[0].to_bits(),
            second[1].to_bits(),
            second[2].to_bits(),
            second[3].to_bits()
        ]
    );
}

#[test]
fn predict_without_vsync_is_average() {
    assert_eq!(
        predict_seconds(None, Some(b(120.0)), Some(b(0.011))),
        b(0.04)
    );
    assert_eq!(predict_seconds(None, None, None), b(0.04));
}

#[test]
fn predict_with_full_telemetry_is_formula() {
    let r = predict_seconds(Some(b(0.0)), Some(b(90.0)), Some(b(0.011)));
    assert_eq!(r, (1.0f32 / 90.0 - 0.0 + 0.011).to_bits());
    assert!((f32::from_bits(r) - 0.02211).abs() < 1e-5);
}

#[test]
fn predict_without_photon_latency_is_average() {
    assert_eq!(predict_seconds(Some(b(0.005)), Some(b(90.0)), None), b(0.04));
}

#[test]
fn predict_defaults_to_ninety_hertz() {
    let r = predict_seconds(Some(b(0.002)), None, Some(b(0.011)));
    assert_eq!(r, (1.0f32 / 90.0 - 0.002 + 0.011).to_bits());
}

#[test]
fn predict_is_idempotent() {
    let a = predict_seconds(Some(b(0.003)), Some(b(80.0)), Some(b(0.009)));
    let second = predict_seconds(Some(b(0.003)), Some(b(80.0)), Some(b(0.009)));
    assert_eq!(a, second);
}

#[test]
fn fov_sign_convention() {
    // Raw tangents of ten degrees on every edge: up and left come back as
    // minus ten degrees, down and right as plus ten.
    let angle = 10.0f32.to_radians().tan().atan();
    let fov = normalize_fov(b(angle), b(angle), b(angle), b(angle));
    let expected = (angle.to_degrees() as f64).to_bits();
    let expected_neg = ((-angle.to_degrees()) as f64).to_bits();
    assert_eq!(fov.up_degrees, expected_neg);
    assert_eq!(fov.left_degrees, expected_neg);
    assert_eq!(fov.down_degrees, expected);
    assert_eq!(fov.right_degrees, expected);
    assert!((f64::from_bits(fov.up_degrees) + 10.0).abs() < 1e-4);
    assert!((f64::from_bits(fov.down_degrees) - 10.0).abs() < 1e-4);
}

#[test]
fn matrix34_layout_and_position() {
    let m = mat34([
        [1.0, 2.0, 3.0, 4.0],
        [5.0, 6.0, 7.0, 8.0],
        [9.0, 10.0, 11.0, 12.0],
    ]);
    let a = matrix34_to_array(&m);
    let values: Vec<f32> = a.iter().map(|x| f32::from_bits(*x)).collect();
    assert_eq!(
        values,
        vec![1.0, 2.0, 3.0, 4.0, 5.0, 6.0, 7.0, 8.0, 9.0, 10.0, 11.0, 12.0, 0.0, 0.0, 0.0, 1.0]
    );
    let p = matrix_to_position(&m);
    assert_eq!(p, [b(4.0), b(8.0), b(12.0)]);
}

#[test]
fn matrix34_to_array_is_idempotent() {
    let m = mat34([
        [0.5, -1.5, 2.5, -3.5],
        [4.5, -5.5, 6.5, -7.5],
        [8.5, -9.5, 10.5, -11.5],
    ]);
    assert_eq!(matrix34_to_array(&m), matrix34_to_array(&m));
}

#[test]
fn multiply_by_identity_keeps_positive_entries() {
    let eye = matrix34_to_array(&mat34([
        [1.0, 0.25, 0.5, 0.031],
        [0.75, 1.0, 0.125, 0.062],
        [0.375, 0.0625, 1.0, 0.093],
    ]));
    let id = identity_matrix();
    assert_eq!(multiply_matrix(&id, &eye), eye);
}

#[test]
fn multiply_matrix_composes() {
    // Two translations along x compose by adding the offsets; every product
    // and sum is exact in these entries.
    let t1 = matrix34_to_array(&mat34([
        [1.0, 0.0, 0.0, 2.0],
        [0.0, 1.0, 0.0, 0.0],
        [0.0, 0.0, 1.0, 0.0],
    ]));
    let t2 = matrix34_to_array(&mat34([
        [1.0, 0.0, 0.0, 3.0],
        [0.0, 1.0, 0.0, 0.0],
        [0.0, 0.0, 1.0, 0.0],
    ]));
    let product = multiply_matrix(&t1, &t2);
    let a = |i: usize| f32::from_bits(product[i]);
    // The rotation part stays the identity.
    for r in 0..3 {
        for c in 0..3 {
            let want = if r == c { 1.0 } else { 0.0 };
            assert_eq!(a(c * 4 + r), want, "entry ({r},{c})");
        }
    }
    // These row-major inputs carry the translation in entries 3, 7, 11; the
    // offsets compose additively there under this packing.
    assert_eq!(a(3), 5.0);
    assert_eq!(a(7), 0.0);
    assert_eq!(a(11), 0.0);
    assert_eq!(a(15), 1.0);
    assert_eq!(a(12), 0.0);
}

#[test]
fn texture_bounds_corner_form() {
    let r = texture_bounds_to_openvr(&[b(0.1), b(0.2), b(0.5), b(0.25)]);
    assert_eq!(r[0], b(0.1));
    assert_eq!(r[1], b(0.2));
    assert_eq!(r[2], (0.1f32 + 0.5f32).to_bits());
    assert_eq!(r[3], (0.2f32 + 0.25f32).to_bits());
}
