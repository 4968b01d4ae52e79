use vstd::prelude::*;
use crate::callback::{register, release, FeedbackKind, JoypadView, Step};
use crate::common::{
    can_create, can_list, creates, creation_outcome, get_nodes, listed_by, make_device,
    DeviceDefinition, DeviceHandle, ErrorBridge, NodeArray,
};
use crate::error::InputtinoError;
use crate::native::{BatteryState, DeviceKind, JoypadKind, JoypadStickPosition, NativeCall};

verus! {

/// Emulated PlayStation 5's DualSense joypad.
///
/// A joypad exists from a successful creation until it is destroyed. It
/// cannot be copied, and [`PS5Joypad::destroy`] takes it for good.
pub struct PS5Joypad {
    joypad: DeviceHandle,
    on_rumble_fn: Option<usize>,
    on_led_fn: Option<usize>,
    on_trigger_effect_fn: Option<usize>,
}

/// The 32 bits of `finger_id`, read as a signed number.
fn signed(finger_id: u32) -> (finger_nr: i32)
    ensures
        finger_nr == finger_number(finger_id),
{
    let finger_nr: i32 = #[verifier::truncate] (finger_id as i32);
    assert(finger_id <= 0x7fff_ffffu32 ==> (finger_id as i32) as int == finger_id as int) by (bit_vector);
    assert(finger_id > 0x7fff_ffffu32 ==> (finger_id as i32) as int == finger_id as int - 0x1_0000_0000) by (bit_vector);
    finger_nr
}

impl View for PS5Joypad {
    type V = JoypadView;

    open spec fn view(&self) -> JoypadView {
        JoypadView {
            joypad: JoypadKind::PS5,
            device: self.device(),
            on_rumble: self.on_rumble(),
            on_led: self.on_led(),
            on_trigger_effect: self.on_trigger_effect(),
        }
    }
}

/// The finger number the native library is given for `finger_id`: the same
/// 32 bits, read as a signed number.
pub open spec fn finger_number(finger_id: u32) -> int {
    if finger_id <= i32::MAX {
        finger_id as int
    } else {
        finger_id - 0x1_0000_0000
    }
}

impl PS5Joypad {
    /// The address of the native device.
    pub closed spec fn device(&self) -> usize {
        self.joypad@
    }

    /// The address of the closure registered for rumble events.
    pub closed spec fn on_rumble(&self) -> Option<usize> {
        self.on_rumble_fn
    }

    /// The address of the closure registered for LED events.
    pub closed spec fn on_led(&self) -> Option<usize> {
        self.on_led_fn
    }

    /// The address of the closure registered for trigger-effect events.
    pub closed spec fn on_trigger_effect(&self) -> Option<usize> {
        self.on_trigger_effect_fn
    }

    /// The width of the touchpad.
    pub const TOUCHPAD_WIDTH: i32 = 1920;

    /// The height of the touchpad.
    pub const TOUCHPAD_HEIGHT: i32 = 1080;

    /// Create a new emulated PS5 DualSense device with the given device
    /// definition, through the native creation function `create_fn`.
    ///
    /// On success the joypad is at the address that `create_fn` returned and
    /// has no closure registered; otherwise the error carries what
    /// `create_fn` reported.
    pub fn new<F>(device: &DeviceDefinition, create_fn: F) -> (joypad: Result<
        PS5Joypad,
        InputtinoError,
    >) where F: FnOnce(DeviceKind, &DeviceDefinition, &mut ErrorBridge) -> usize
        requires
            can_create(create_fn, DeviceKind::Joypad(JoypadKind::PS5), device),
        ensures
            exists|bridge: &mut ErrorBridge, raw: usize|
                creates(create_fn, DeviceKind::Joypad(JoypadKind::PS5), device, bridge, raw)
                    && (match joypad {
                    Ok(created) => Ok(created@),
                    Err(error) => Err(error@),
                }) == JoypadView::created(
                    JoypadKind::PS5,
                    creation_outcome(raw, (*final(bridge))@),
                ),
    {
        match make_device(DeviceKind::Joypad(JoypadKind::PS5), create_fn, device) {
            Ok(joypad) => Ok(
                PS5Joypad { joypad, on_rumble_fn: None, on_led_fn: None, on_trigger_effect_fn: None },
            ),
            Err(error) => Err(error),
        }
    }

    /// Set the state of all buttons.
    ///
    /// The mask replaces the whole set of pressed buttons: any buttons that
    /// are not set are released if they were set before.
    pub fn set_pressed(&self, buttons: i32) -> (call: NativeCall)
        ensures
            call == self@.set_pressed_call(buttons),
    {
        NativeCall::JoypadSetPressedButtons {
            joypad: JoypadKind::PS5,
            device: self.joypad.addr(),
            buttons,
        }
    }

    /// Set the state of the triggers.
    pub fn set_triggers(&self, left_trigger: i16, right_trigger: i16) -> (call: NativeCall)
        ensures
            call == (NativeCall::JoypadSetTriggers {
                joypad: JoypadKind::PS5,
                device: self@.device,
                left_trigger,
                right_trigger,
            }),
    {
        NativeCall::JoypadSetTriggers {
            joypad: JoypadKind::PS5,
            device: self.joypad.addr(),
            left_trigger,
            right_trigger,
        }
    }

    /// Set the state of the joysticks.
    pub fn set_stick(&self, stick_type: JoypadStickPosition, x: i16, y: i16) -> (call: NativeCall)
        ensures
            call == (NativeCall::JoypadSetStick {
                joypad: JoypadKind::PS5,
                device: self@.device,
                stick_type,
                x,
                y,
            }),
    {
        NativeCall::JoypadSetStick {
            joypad: JoypadKind::PS5,
            device: self.joypad.addr(),
            stick_type,
            x,
            y,
        }
    }

    /// Sets the closure to be called when this device receives a rumble
    /// event: the one boxed at `user_data`.
    ///
    /// It takes the place of the closure registered before, whose box is
    /// released once the native library knows the new one.
    pub fn set_on_rumble(&mut self, user_data: usize) -> (steps: Vec<Step>)
        ensures
            final(self)@ == old(self)@.register(FeedbackKind::Rumble, user_data),
            steps@ == old(self)@.registration_steps(FeedbackKind::Rumble, user_data),
    {
        let call = NativeCall::JoypadSetOnRumble {
            joypad: JoypadKind::PS5,
            device: self.joypad.addr(),
            user_data,
        };
        register(&mut self.on_rumble_fn, call, FeedbackKind::Rumble, user_data)
    }

    /// Sets the closure to be called when this device receives a LED change
    /// event: the one boxed at `user_data`.
    ///
    /// It takes the place of the closure registered before, whose box is
    /// released once the native library knows the new one.
    pub fn set_on_led(&mut self, user_data: usize) -> (steps: Vec<Step>)
        ensures
            final(self)@ == old(self)@.register(FeedbackKind::Led, user_data),
            steps@ == old(self)@.registration_steps(FeedbackKind::Led, user_data),
    {
        let call = NativeCall::PS5SetOnLed { device: self.joypad.addr(), user_data };
        register(&mut self.on_led_fn, call, FeedbackKind::Led, user_data)
    }

    /// Sets the closure to be called when this device receives a trigger
    /// effect event: the one boxed at `user_data`.
    ///
    /// It takes the place of the closure registered before, whose box is
    /// released once the native library knows the new one.
    pub fn set_on_trigger_effect(&mut self, user_data: usize) -> (steps: Vec<Step>)
        ensures
            final(self)@ == old(self)@.register(FeedbackKind::TriggerEffect, user_data),
            steps@ == old(self)@.registration_steps(FeedbackKind::TriggerEffect, user_data),
    {
        let call = NativeCall::PS5SetOnTriggerEffect { device: self.joypad.addr(), user_data };
        register(&mut self.on_trigger_effect_fn, call, FeedbackKind::TriggerEffect, user_data)
    }

    /// The paths of the nodes of this joypad, as the native library lists
    /// them through `list_fn` and `take_fn`.
    pub fn get_nodes<L, T>(&self, list_fn: L, take_fn: T) -> (nodes: Result<
        Vec<String>,
        InputtinoError,
    >) where L: FnOnce(DeviceKind, usize) -> NodeArray, T: Fn(NodeArray, i32) -> String
        requires
            can_list(list_fn, take_fn, DeviceKind::Joypad(JoypadKind::PS5), self@.device),
        ensures
            listed_by(
                list_fn,
                take_fn,
                DeviceKind::Joypad(JoypadKind::PS5),
                self@.device,
                nodes,
            ),
    {
        get_nodes(DeviceKind::Joypad(JoypadKind::PS5), list_fn, take_fn, &self.joypad)
    }

    /// The address of the native device.
    pub fn device_addr(&self) -> (addr: usize)
        ensures
            addr == self@.device,
    {
        self.joypad.addr()
    }

    /// Simulates placement of a finger on the touchpad.
    pub fn place_finger(&self, finger_id: u32, x: u16, y: u16) -> (call: NativeCall)
        ensures
            (call matches NativeCall::PS5PlaceFinger { device, finger_nr, x: call_x, y: call_y }
                && device == self@.device && finger_nr == finger_number(finger_id) && call_x == x
                && call_y == y),
    {
        let finger_nr: i32 = signed(finger_id);
        NativeCall::PS5PlaceFinger { device: self.joypad.addr(), finger_nr, x, y }
    }

    /// Simulates releasing of a finger from the touchpad.
    pub fn release_finger(&self, finger_id: u32) -> (call: NativeCall)
        ensures
            (call matches NativeCall::PS5ReleaseFinger { device, finger_nr } && device
                == self@.device && finger_nr == finger_number(finger_id)),
    {
        let finger_nr: i32 = signed(finger_id);
        NativeCall::PS5ReleaseFinger { device: self.joypad.addr(), finger_nr }
    }

    /// Sets the state of the battery. The level is handed on as it is.
    pub fn set_battery(&self, battery_state: BatteryState, level: u8) -> (call: NativeCall)
        ensures
            call == (NativeCall::PS5SetBattery {
                device: self@.device,
                battery_state,
                level: level as u16,
            }),
    {
        NativeCall::PS5SetBattery { device: self.joypad.addr(), battery_state, level: level as u16 }
    }

    /// Ends this joypad: the native device is destroyed first, then the
    /// boxes of the registered closures are released.
    pub fn destroy(self) -> (steps: Vec<Step>)
        ensures
            steps@ == self@.teardown_steps(),
    {
        let mut steps: Vec<Step> = Vec::new();
        steps.push(Step::Call(NativeCall::Destroy {
            kind: DeviceKind::Joypad(JoypadKind::PS5),
            device: self.joypad.addr(),
        }));
        release(&mut steps, FeedbackKind::Rumble, self.on_rumble_fn);
        release(&mut steps, FeedbackKind::Led, self.on_led_fn);
        release(&mut steps, FeedbackKind::TriggerEffect, self.on_trigger_effect_fn);
        assert(steps@ =~= self@.teardown_steps());
        steps
    }
}

} // verus!
