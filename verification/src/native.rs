//! The calls that cross the boundary, as plain values.
//!
//! A device wrapper never touches the native library itself. Each of its
//! operations yields the one call the native library is to receive, with the
//! exact arguments; whoever owns the native binding carries it out.

use vstd::prelude::*;

verus! {

/// The joypads that can be emulated.
#[derive(Clone, Copy, Debug, PartialEq, Eq)]
pub enum JoypadKind {
    /// A Nintendo Switch Pro controller.
    Switch,
    /// A PlayStation 5 DualSense controller.
    PS5,
    /// An Xbox One controller.
    XboxOne,
}

/// The devices that can be emulated.
#[derive(Clone, Copy, Debug, PartialEq, Eq)]
pub enum DeviceKind {
    Keyboard,
    Mouse,
    Joypad(JoypadKind),
}

/// A button of the emulated mouse.
#[allow(non_camel_case_types)]
#[derive(Clone, Copy, Debug, PartialEq, Eq)]
pub enum MouseButton {
    LEFT,
    MIDDLE,
    RIGHT,
    SIDE,
    EXTRA,
}

/// One of the two sticks of a joypad.
#[allow(non_camel_case_types)]
#[derive(Clone, Copy, Debug, PartialEq, Eq)]
pub enum JoypadStickPosition {
    /// The right stick.
    RS,
    /// The left stick.
    LS,
}

/// What the battery of a joypad reports.
#[allow(non_camel_case_types)]
#[derive(Clone, Copy, Debug, PartialEq, Eq)]
pub enum BatteryState {
    BATTERY_DISCHARGING,
    BATTERY_CHARGHING,
    BATTERY_FULL,
    VOLTAGE_OR_TEMPERATURE_OUT_OF_RANGE,
    TEMPERATURE_ERROR,
    CHARGHING_ERROR,
}

/// One call into the native library. `device` is the address of the native
/// device that the call is made on.
#[allow(inconsistent_fields)]
#[derive(Clone, Copy, Debug, PartialEq, Eq)]
pub enum NativeCall {
    /// Destroy the device. No call on this device may follow.
    Destroy { kind: DeviceKind, device: usize },
    KeyboardPress { device: usize, key: i16 },
    KeyboardRelease { device: usize, key: i16 },
    MouseMove { device: usize, delta_x: i32, delta_y: i32 },
    MouseMoveAbsolute { device: usize, x: i32, y: i32, screen_width: i32, screen_height: i32 },
    MousePressButton { device: usize, button: MouseButton },
    MouseReleaseButton { device: usize, button: MouseButton },
    MouseScrollVertical { device: usize, amount: i32 },
    MouseScrollHorizontal { device: usize, amount: i32 },
    /// Replace the whole set of pressed buttons by `buttons`.
    JoypadSetPressedButtons { joypad: JoypadKind, device: usize, buttons: i32 },
    JoypadSetTriggers { joypad: JoypadKind, device: usize, left_trigger: i16, right_trigger: i16 },
    JoypadSetStick { joypad: JoypadKind, device: usize, stick_type: JoypadStickPosition, x: i16, y: i16 },
    /// Register the rumble trampoline with `user_data` as the address it is
    /// handed back on each rumble event.
    JoypadSetOnRumble { joypad: JoypadKind, device: usize, user_data: usize },
    /// Register the LED trampoline of a PS5 joypad.
    PS5SetOnLed { device: usize, user_data: usize },
    /// Register the trigger-effect trampoline of a PS5 joypad.
    PS5SetOnTriggerEffect { device: usize, user_data: usize },
    PS5PlaceFinger { device: usize, finger_nr: i32, x: u16, y: u16 },
    PS5ReleaseFinger { device: usize, finger_nr: i32 },
    PS5SetBattery { device: usize, battery_state: BatteryState, level: u16 },
}

impl NativeCall {
    /// The set of pressed buttons that this call hands to the native library,
    /// where it is a call that sets the pressed buttons.
    pub open spec fn pressed_buttons(self) -> Option<i32> {
        match self {
            NativeCall::JoypadSetPressedButtons { buttons, .. } => Some(buttons),
            _ => None,
        }
    }

    /// The user data that this call hands to the native library, where it is
    /// a call that registers a trampoline.
    pub open spec fn registered_user_data(self) -> Option<usize> {
        match self {
            NativeCall::JoypadSetOnRumble { user_data, .. } => Some(user_data),
            NativeCall::PS5SetOnLed { user_data, .. } => Some(user_data),
            NativeCall::PS5SetOnTriggerEffect { user_data, .. } => Some(user_data),
            _ => None,
        }
    }
}

} // verus!
