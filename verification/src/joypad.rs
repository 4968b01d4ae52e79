use vstd::prelude::*;
use crate::callback::{FeedbackKind, JoypadView, Step};
use crate::joypad_nintendo::SwitchJoypad;
use crate::joypad_ps5::PS5Joypad;
use crate::joypad_xbox::XboxOneJoypad;
use crate::native::{JoypadStickPosition, NativeCall};

verus! {

/// A generic Joypad which exposes some common functionality of the underlying joypad.
pub enum Joypad {
    Switch(SwitchJoypad),
    PS5(PS5Joypad),
    XboxOne(XboxOneJoypad),
}

impl View for Joypad {
    type V = JoypadView;

    open spec fn view(&self) -> JoypadView {
        match self {
            Joypad::Switch(joypad) => joypad@,
            Joypad::PS5(joypad) => joypad@,
            Joypad::XboxOne(joypad) => joypad@,
        }
    }
}

impl Joypad {
    /// Set the state of all buttons.
    ///
    /// The mask replaces the whole set of pressed buttons: any buttons that
    /// are not set are released if they were set before.
    pub fn set_pressed(&self, buttons: i32) -> (call: NativeCall)
        ensures
            call == self@.set_pressed_call(buttons),
    {
        match self {
            Joypad::Switch(joypad) => joypad.set_pressed(buttons),
            Joypad::PS5(joypad) => joypad.set_pressed(buttons),
            Joypad::XboxOne(joypad) => joypad.set_pressed(buttons),
        }
    }

    /// Set the state of the triggers.
    pub fn set_triggers(&self, left_trigger: i16, right_trigger: i16) -> (call: NativeCall)
        ensures
            call == (NativeCall::JoypadSetTriggers {
                joypad: self@.joypad,
                device: self@.device,
                left_trigger,
                right_trigger,
            }),
    {
        match self {
            Joypad::Switch(joypad) => joypad.set_triggers(left_trigger, right_trigger),
            Joypad::PS5(joypad) => joypad.set_triggers(left_trigger, right_trigger),
            Joypad::XboxOne(joypad) => joypad.set_triggers(left_trigger, right_trigger),
        }
    }

    /// Set the state of the joysticks.
    pub fn set_stick(&self, stick_type: JoypadStickPosition, x: i16, y: i16) -> (call: NativeCall)
        ensures
            call == (NativeCall::JoypadSetStick {
                joypad: self@.joypad,
                device: self@.device,
                stick_type,
                x,
                y,
            }),
    {
        match self {
            Joypad::Switch(joypad) => joypad.set_stick(stick_type, x, y),
            Joypad::PS5(joypad) => joypad.set_stick(stick_type, x, y),
            Joypad::XboxOne(joypad) => joypad.set_stick(stick_type, x, y),
        }
    }

    /// Sets the closure to be called when this device receives a rumble
    /// event: the one boxed at `user_data`.
    ///
    /// The joypad stays the one it is; the closure takes the place of the
    /// one registered before, whose box is released once the native library
    /// knows the new one.
    pub fn set_on_rumble(&mut self, user_data: usize) -> (steps: Vec<Step>)
        ensures
            final(self)@ == old(self)@.register(FeedbackKind::Rumble, user_data),
            steps@ == old(self)@.registration_steps(FeedbackKind::Rumble, user_data),
    {
        match self {
            Joypad::Switch(joypad) => joypad.set_on_rumble(user_data),
            Joypad::PS5(joypad) => joypad.set_on_rumble(user_data),
            Joypad::XboxOne(joypad) => joypad.set_on_rumble(user_data),
        }
    }
}

} // verus!
