use vstd::prelude::*;
use crate::Bits32;
use crate::fbits::{add32, div32, sub32};
use crate::fbits::{f32_add, f32_div, f32_sub};
use crate::matrix::FLOAT_ONE_BITS;

verus! {

/// Bit pattern of `0.04` in IEEE-754 single precision: the fixed average
/// prediction, in seconds, used whenever the needed telemetry is missing.
/// It encodes "typical 90 Hz headset" behaviour, a tuned default rather than
/// a derived invariant.
pub const AVERAGE_PREDICT_SECONDS_BITS: u32 = 0x3D23_D70A;

/// Bit pattern of `90.0` in IEEE-754 single precision: the display refresh
/// rate assumed when the runtime does not report one.
pub const DEFAULT_DISPLAY_HZ_BITS: u32 = 0x42B4_0000;

/// The refresh rate to compute with: the reported one, or the 90 Hz default.
pub open spec fn spec_hz_or_default(display_hz: Option<Bits32>) -> Bits32 {
    match display_hz {
        Some(hz) => hz,
        None => DEFAULT_DISPLAY_HZ_BITS,
    }
}

/// How many seconds into the future a pose should be predicted so that it is
/// sampled at the moment the frame reaches the photons, not at poll time.
///
/// Policy, exactly as stated: without a last-vsync measurement the fixed
/// average prediction is returned; with one, the frame duration is `1 /
/// display_hz` (90 Hz assumed when unreported), and when the vsync-to-photon
/// latency is known the prediction is `frame_duration - last_vsync +
/// vsync_to_photon`, else again the fixed average. Missing telemetry is
/// absorbed here — it is never an error.
pub fn predict_seconds(
    last_vsync_seconds: Option<Bits32>,
    display_hz: Option<Bits32>,
    vsync_to_photon_seconds: Option<Bits32>,
) -> (r: Bits32)
    ensures
        last_vsync_seconds is None ==> r == AVERAGE_PREDICT_SECONDS_BITS,
        last_vsync_seconds is Some && vsync_to_photon_seconds is None
            ==> r == AVERAGE_PREDICT_SECONDS_BITS,
        last_vsync_seconds is Some && vsync_to_photon_seconds is Some ==> r == add32(
            sub32(
                div32(FLOAT_ONE_BITS, spec_hz_or_default(display_hz)),
                last_vsync_seconds->0,
            ),
            vsync_to_photon_seconds->0,
        ),
{
    let vsync = match last_vsync_seconds {
        Some(v) => v,
        None => {
            // No vsync times are available: the default average.
            return AVERAGE_PREDICT_SECONDS_BITS;
        },
    };
    let hz = match display_hz {
        Some(h) => h,
        None => DEFAULT_DISPLAY_HZ_BITS,
    };
    let frame_duration = f32_div(FLOAT_ONE_BITS, hz);
    match vsync_to_photon_seconds {
        Some(photons) => f32_add(f32_sub(frame_duration, vsync), photons),
        None => AVERAGE_PREDICT_SECONDS_BITS,
    }
}

} // verus!
