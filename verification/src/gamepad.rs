use vstd::prelude::*;
use crate::fbits::{f32_to_f64, f64_mul, f64_sub, mul64, sub64, widen32};
use crate::pose::VRPose;
use crate::{Bits32, Bits64};

verus! {

/// Bit pattern of `2.0` in IEEE-754 double precision.
pub const FLOAT64_TWO_BITS: u64 = 0x4000_0000_0000_0000;

/// Bit pattern of `1.0` in IEEE-754 double precision.
pub const FLOAT64_ONE_BITS: u64 = 0x3FF0_0000_0000_0000;

/// Bit pattern of `0.0` in IEEE-754 double precision.
pub const FLOAT64_ZERO_BITS: u64 = 0x0000_0000_0000_0000;

/// Which hand the user holds the controller in.
#[derive(Clone, Copy, PartialEq, Eq, Structural, Debug)]
pub enum VRGamepadHand {
    Left,
    Right,
}

/// One button sample of the uniform gamepad contract.
#[derive(Clone, Copy, PartialEq, Eq, Structural, Debug)]
pub struct VRGamepadButton {
    pub pressed: bool,
    pub touched: bool,
}

/// Static description of a gamepad: the display it belongs to, its product
/// name, and its handedness.
pub struct VRGamepadData {
    pub display_id: u32,
    pub name: String,
    pub hand: VRGamepadHand,
}

/// One polled snapshot of a gamepad: connection state, touchpad axes (raw
/// double-precision bit patterns), buttons, and the controller pose.
pub struct VRGamepadState {
    pub gamepad_id: u32,
    pub connected: bool,
    pub axes: Vec<Bits64>,
    pub buttons: Vec<VRGamepadButton>,
    pub pose: VRPose,
}

/// The command that a lifecycle transition asks the vendor controller API to
/// run: suspend tracking or take it up again.
#[derive(Clone, Copy, PartialEq, Eq, Structural, Debug)]
pub enum ControllerAction {
    Pause,
    Resume,
}

/// One raw sample of the mobile controller as the vendor API reports it:
/// connection, touchpad contact and position (raw single-precision bit
/// patterns in the unit square), the button lines, and the sensor readings.
pub struct ControllerSample {
    pub connected: bool,
    pub touchpad_touching: bool,
    pub touch_x: Bits32,
    pub touch_y: Bits32,
    pub click_pressed: bool,
    pub home_pressed: bool,
    pub app_pressed: bool,
    pub volume_up_pressed: bool,
    pub volume_down_pressed: bool,
    pub orientation: [Bits32; 4],
    pub accel: [Bits32; 3],
    pub gyro: [Bits32; 3],
}

/// A raw touchpad coordinate in `[0, 1]` mapped to `[-1, 1]`: widened exactly
/// to double precision, doubled, then shifted down by one.
pub open spec fn spec_touch_axis(raw: Bits32) -> Bits64 {
    sub64(mul64(widen32(raw), FLOAT64_TWO_BITS), FLOAT64_ONE_BITS)
}

/// Lifecycle state of the mobile-runtime gamepad. Platform callbacks flip
/// `system_paused` from their own thread-facing entry points; the polling
/// loop later reconciles `paused` with it through `handle_events`, so the
/// vendor call always happens on the polling thread.
pub struct GoogleVRGamepad {
    gamepad_id: u32,
    display_id: u32,
    paused: bool,
    system_paused: bool,
}

impl GoogleVRGamepad {
    pub closed spec fn spec_gamepad_id(self) -> u32 {
        self.gamepad_id
    }

    pub closed spec fn spec_display_id(self) -> u32 {
        self.display_id
    }

    /// Whether the vendor controller API has been told to pause.
    pub closed spec fn spec_paused(self) -> bool {
        self.paused
    }

    /// Whether the platform has asked for a pause since the last reconciliation.
    pub closed spec fn spec_system_paused(self) -> bool {
        self.system_paused
    }

    /// Accepts a controller only when the vendor API reported a healthy
    /// status on creation; otherwise hands the vendor's message back as the
    /// error, as the session layer expects.
    pub fn new(gamepad_id: u32, display_id: u32, api_ok: bool, api_status_message: String)
        -> (r: Result<GoogleVRGamepad, String>)
        ensures
            api_ok ==> (r matches Ok(g)
                && g.spec_gamepad_id() == gamepad_id
                && g.spec_display_id() == display_id
                && !g.spec_paused()
                && !g.spec_system_paused()),
            !api_ok ==> (r matches Err(m) && m@ == api_status_message@),
    {
        if !api_ok {
            return Err(api_status_message);
        }
        Ok(GoogleVRGamepad {
            gamepad_id,
            display_id,
            paused: false,
            system_paused: false,
        })
    }

    /// Records a pause request from the platform; the vendor call itself is
    /// deferred to `handle_events`.
    pub fn pause(&mut self)
        ensures
            final(self).spec_system_paused(),
            final(self).spec_paused() == old(self).spec_paused(),
            final(self).spec_gamepad_id() == old(self).spec_gamepad_id(),
            final(self).spec_display_id() == old(self).spec_display_id(),
    {
        self.system_paused = true;
    }

    /// Records a resume request from the platform; the vendor call itself is
    /// deferred to `handle_events`.
    pub fn resume(&mut self)
        ensures
            !final(self).spec_system_paused(),
            final(self).spec_paused() == old(self).spec_paused(),
            final(self).spec_gamepad_id() == old(self).spec_gamepad_id(),
            final(self).spec_display_id() == old(self).spec_display_id(),
    {
        self.system_paused = false;
    }

    /// Reconciles the applied pause state with the requested one. Returns the
    /// vendor call to make now: `Pause` or `Resume` exactly when the two
    /// states disagreed, nothing when they already matched.
    pub fn handle_events(&mut self) -> (action: Option<ControllerAction>)
        ensures
            final(self).spec_paused() == old(self).spec_system_paused(),
            final(self).spec_system_paused() == old(self).spec_system_paused(),
            final(self).spec_gamepad_id() == old(self).spec_gamepad_id(),
            final(self).spec_display_id() == old(self).spec_display_id(),
            old(self).spec_system_paused() == old(self).spec_paused() ==> action is None,
            old(self).spec_system_paused() && !old(self).spec_paused()
                ==> action == Some(ControllerAction::Pause),
            !old(self).spec_system_paused() && old(self).spec_paused()
                ==> action == Some(ControllerAction::Resume),
    {
        if self.system_paused == self.paused {
            return None;
        }
        self.paused = self.system_paused;
        if self.paused {
            Some(ControllerAction::Pause)
        } else {
            Some(ControllerAction::Resume)
        }
    }

    /// The id of this gamepad.
    pub fn id(&self) -> (r: u32)
        ensures
            r == self.spec_gamepad_id(),
    {
        self.gamepad_id
    }

    /// One polled snapshot, normalized from the raw controller sample. The
    /// touchpad's raw position lies in the unit square with the origin at the
    /// top left; a touched pad is mapped to `[-1, 1]` on each axis, an
    /// untouched one reports zero on both. The touchpad is the first button;
    /// the four fixed extra buttons count a press as a touch.
    pub fn state(&self, sample: &ControllerSample) -> (s: VRGamepadState)
        ensures
            s.gamepad_id == self.spec_gamepad_id(),
            s.connected == sample.connected,
            sample.touchpad_touching ==> s.axes@ == seq![
                spec_touch_axis(sample.touch_x),
                spec_touch_axis(sample.touch_y),
            ],
            !sample.touchpad_touching ==> s.axes@ == seq![FLOAT64_ZERO_BITS, FLOAT64_ZERO_BITS],
            s.buttons@ == seq![
                (VRGamepadButton {
                    pressed: sample.click_pressed,
                    touched: sample.touchpad_touching,
                }),
                (VRGamepadButton { pressed: sample.home_pressed, touched: sample.home_pressed }),
                (VRGamepadButton { pressed: sample.app_pressed, touched: sample.app_pressed }),
                (VRGamepadButton {
                    pressed: sample.volume_up_pressed,
                    touched: sample.volume_up_pressed,
                }),
                (VRGamepadButton {
                    pressed: sample.volume_down_pressed,
                    touched: sample.volume_down_pressed,
                }),
            ],
            s.pose == (VRPose {
                orientation: Some(sample.orientation),
                position: None,
                linear_velocity: None,
                angular_velocity: Some(sample.gyro),
                linear_acceleration: Some(sample.accel),
                angular_acceleration: None,
            }),
    {
        let axes: Vec<Bits64> = if sample.touchpad_touching {
            let x = f64_sub(f64_mul(f32_to_f64(sample.touch_x), FLOAT64_TWO_BITS), FLOAT64_ONE_BITS);
            let y = f64_sub(f64_mul(f32_to_f64(sample.touch_y), FLOAT64_TWO_BITS), FLOAT64_ONE_BITS);
            vec![x, y]
        } else {
            vec![FLOAT64_ZERO_BITS, FLOAT64_ZERO_BITS]
        };
        let buttons: Vec<VRGamepadButton> = vec![
            VRGamepadButton { pressed: sample.click_pressed, touched: sample.touchpad_touching },
            VRGamepadButton { pressed: sample.home_pressed, touched: sample.home_pressed },
            VRGamepadButton { pressed: sample.app_pressed, touched: sample.app_pressed },
            VRGamepadButton { pressed: sample.volume_up_pressed, touched: sample.volume_up_pressed },
            VRGamepadButton {
                pressed: sample.volume_down_pressed,
                touched: sample.volume_down_pressed,
            },
        ];
        VRGamepadState {
            gamepad_id: self.gamepad_id,
            connected: sample.connected,
            axes,
            buttons,
            pose: VRPose {
                orientation: Some(sample.orientation),
                position: None,
                linear_velocity: None,
                angular_velocity: Some(sample.gyro),
                linear_acceleration: Some(sample.accel),
                angular_acceleration: None,
            },
        }
    }

    /// Static gamepad description: the mobile controller's product name and
    /// the handedness the user chose in the vendor preferences.
    pub fn data(&self, left_handed: bool) -> (d: VRGamepadData)
        ensures
            d.display_id == self.spec_display_id(),
            d.name@ == "GoogleVR DayDream"@,
            left_handed ==> d.hand == VRGamepadHand::Left,
            !left_handed ==> d.hand == VRGamepadHand::Right,
    {
        let hand = if left_handed {
            VRGamepadHand::Left
        } else {
            VRGamepadHand::Right
        };
        VRGamepadData {
            display_id: self.display_id,
            name: "GoogleVR DayDream".to_string(),
            hand,
        }
    }
}

} // verus!
