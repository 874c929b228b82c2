use vstd::prelude::*;
use crate::Bits32;
use crate::fbits::{f32_mul, mul32};
use crate::fov::VRFieldOfView;
use crate::matrix::{FLOAT_ONE_BITS, FLOAT_ZERO_BITS, Matrix34};
use crate::quat::FLOAT_HALF_BITS;

verus! {

/// Bit pattern of `-0.5` in IEEE-754 single precision.
pub const FLOAT_NEG_HALF_BITS: u32 = 0xBF00_0000;

/// Bit pattern of `0.06` in IEEE-754 single precision: the average
/// interpupillary distance, in meters, assumed when the runtime does not
/// report the user's own. A tuned default, not a derived invariant.
pub const DEFAULT_IPD_METERS_BITS: u32 = 0x3D75_C28F;

/// What the desktop runtime's displays can do; all four capabilities hold.
pub struct VRDisplayCapabilities {
    pub can_present: bool,
    pub has_orientation: bool,
    pub has_external_display: bool,
    pub has_position: bool,
}

/// The capabilities of a desktop-runtime display: it can present, is an
/// external display, and tracks both orientation and position.
pub fn display_capabilities() -> (c: VRDisplayCapabilities)
    ensures
        c.can_present,
        c.has_orientation,
        c.has_external_display,
        c.has_position,
{
    VRDisplayCapabilities {
        can_present: true,
        has_orientation: true,
        has_external_display: true,
        has_position: true,
    }
}

/// Per-eye rendering parameters: the eye's offset from the head center (half
/// the interpupillary distance sideways), the render target size, and the
/// eye's field of view.
pub struct VREyeParameters {
    pub offset: [Bits32; 3],
    pub render_width: u32,
    pub render_height: u32,
    pub field_of_view: VRFieldOfView,
}

/// The interpupillary distance to compute with: the measured one, or the
/// average default when the runtime reports none.
pub open spec fn spec_ipd_or_default(ipd_meters: Option<Bits32>) -> Bits32 {
    match ipd_meters {
        Some(ipd) => ipd,
        None => DEFAULT_IPD_METERS_BITS,
    }
}

/// Builds both eyes' parameters: each eye sits half the interpupillary
/// distance from the head center along the x axis, the left eye on the
/// negative side, and both share the recommended render target size.
pub fn eye_parameters(
    left_fov: VRFieldOfView,
    right_fov: VRFieldOfView,
    ipd_meters: Option<Bits32>,
    render_width: u32,
    render_height: u32,
) -> (r: (VREyeParameters, VREyeParameters))
    ensures
        ({
            let ipd = spec_ipd_or_default(ipd_meters);
            r.0.offset@ == seq![mul32(ipd, FLOAT_NEG_HALF_BITS), FLOAT_ZERO_BITS, FLOAT_ZERO_BITS]
                && r.1.offset@ == seq![mul32(ipd, FLOAT_HALF_BITS), FLOAT_ZERO_BITS, FLOAT_ZERO_BITS]
        }),
        r.0.field_of_view == left_fov,
        r.1.field_of_view == right_fov,
        r.0.render_width == render_width && r.1.render_width == render_width,
        r.0.render_height == render_height && r.1.render_height == render_height,
{
    let ipd = match ipd_meters {
        Some(ipd) => ipd,
        None => DEFAULT_IPD_METERS_BITS,
    };
    let left_offset = [f32_mul(ipd, FLOAT_NEG_HALF_BITS), FLOAT_ZERO_BITS, FLOAT_ZERO_BITS];
    let right_offset = [f32_mul(ipd, FLOAT_HALF_BITS), FLOAT_ZERO_BITS, FLOAT_ZERO_BITS];
    proof {
        assert(left_offset@ =~= seq![
            mul32(spec_ipd_or_default(ipd_meters), FLOAT_NEG_HALF_BITS),
            FLOAT_ZERO_BITS,
            FLOAT_ZERO_BITS,
        ]);
        assert(right_offset@ =~= seq![
            mul32(spec_ipd_or_default(ipd_meters), FLOAT_HALF_BITS),
            FLOAT_ZERO_BITS,
            FLOAT_ZERO_BITS,
        ]);
    }
    (
        VREyeParameters {
            offset: left_offset,
            render_width,
            render_height,
            field_of_view: left_fov,
        },
        VREyeParameters {
            offset: right_offset,
            render_width,
            render_height,
            field_of_view: right_fov,
        },
    )
}

/// The stage: the seated-to-standing transform packed column-major as a full
/// 4x4 matrix, and the play area size.
pub struct VRStageParameters {
    pub sitting_to_standing_transform: [Bits32; 16],
    pub size_x: Bits32,
    pub size_y: Bits32,
}

/// A 3x4 transform packed column-major into 16 entries: each column of the
/// 3x3 part is completed with a `0`, and the translation column with a `1`.
pub open spec fn spec_column_major_array(m: Matrix34) -> Seq<Bits32> {
    seq![
        m.at(0, 0), m.at(1, 0), m.at(2, 0), FLOAT_ZERO_BITS,
        m.at(0, 1), m.at(1, 1), m.at(2, 1), FLOAT_ZERO_BITS,
        m.at(0, 2), m.at(1, 2), m.at(2, 2), FLOAT_ZERO_BITS,
        m.at(0, 3), m.at(1, 3), m.at(2, 3), FLOAT_ONE_BITS,
    ]
}

/// Packs the runtime's seated-to-standing transform and the play area size
/// into the stage description.
pub fn stage_parameters(
    seated_to_standing: &Matrix34,
    size_x: Bits32,
    size_y: Bits32,
) -> (s: VRStageParameters)
    ensures
        s.sitting_to_standing_transform@ == spec_column_major_array(*seated_to_standing),
        s.size_x == size_x,
        s.size_y == size_y,
{
    let m = seated_to_standing;
    let transform = [
        m.m[0][0], m.m[1][0], m.m[2][0], FLOAT_ZERO_BITS,
        m.m[0][1], m.m[1][1], m.m[2][1], FLOAT_ZERO_BITS,
        m.m[0][2], m.m[1][2], m.m[2][2], FLOAT_ZERO_BITS,
        m.m[0][3], m.m[1][3], m.m[2][3], FLOAT_ONE_BITS,
    ];
    proof {
        assert(transform@ =~= spec_column_major_array(*seated_to_standing));
    }
    VRStageParameters {
        sitting_to_standing_transform: transform,
        size_x,
        size_y,
    }
}

/// Everything the session layer shows about one display: identity, name,
/// capabilities, per-eye parameters, and the stage when the runtime's
/// chaperone reported one.
pub struct VRDisplayData {
    pub display_id: u64,
    pub display_name: String,
    pub capabilities: VRDisplayCapabilities,
    pub left_eye_parameters: VREyeParameters,
    pub right_eye_parameters: VREyeParameters,
    pub stage_parameters: Option<VRStageParameters>,
}

/// Relies on std's string formatting: the display name joins the manufacturer
/// and the model with one space.
#[verifier::external_body]
fn join_display_name(manufacturer: &str, model: &str) -> (r: String)
    ensures
        r@ == manufacturer@ + " "@ + model@,
{
    format!("{} {}", manufacturer, model)
}

/// Assembles the display description: the device's id, the name joined from
/// the vendor's manufacturer and model strings, the standard capabilities,
/// the two eyes' parameters, and the stage if one was reported.
pub fn display_data(
    display_id: u64,
    manufacturer: &str,
    model: &str,
    left_eye_parameters: VREyeParameters,
    right_eye_parameters: VREyeParameters,
    stage: Option<VRStageParameters>,
) -> (d: VRDisplayData)
    ensures
        d.display_id == display_id,
        d.display_name@ == manufacturer@ + " "@ + model@,
        d.capabilities.can_present && d.capabilities.has_orientation
            && d.capabilities.has_external_display && d.capabilities.has_position,
        d.left_eye_parameters == left_eye_parameters,
        d.right_eye_parameters == right_eye_parameters,
        d.stage_parameters == stage,
{
    VRDisplayData {
        display_id,
        display_name: join_display_name(manufacturer, model),
        capabilities: display_capabilities(),
        left_eye_parameters,
        right_eye_parameters,
        stage_parameters: stage,
    }
}

/// The value of a float device property: the measurement when the vendor call
/// reported success, absent otherwise.
pub fn float_property_value(ok: bool, value: Bits32) -> (r: Option<Bits32>)
    ensures
        ok ==> r == Some(value),
        !ok ==> r is None,
{
    if ok {
        Some(value)
    } else {
        None
    }
}

/// The value of a string device property: the decoded text only when the
/// vendor call reported success and a positive length, the empty string
/// otherwise.
pub fn string_property_value(size: u32, ok: bool, value: String) -> (r: String)
    ensures
        size > 0 && ok ==> r@ == value@,
        !(size > 0 && ok) ==> r@ == Seq::<char>::empty(),
{
    if size > 0 && ok {
        value
    } else {
        let empty = String::new();
        proof {
            assert(empty@ =~= Seq::<char>::empty());
        }
        empty
    }
}

} // verus!
