use vstd::prelude::*;
use crate::callback::{register, release, FeedbackKind, JoypadView, Step};
use crate::common::{
    can_create, can_list, creates, creation_outcome, get_nodes, listed_by, make_device,
    DeviceDefinition, DeviceHandle, ErrorBridge, NodeArray,
};
use crate::error::InputtinoError;
use crate::native::{DeviceKind, JoypadKind, JoypadStickPosition, NativeCall};

verus! {

/// Emulated XBox One joypad.
///
/// A joypad exists from a successful creation until it is destroyed. It
/// cannot be copied, and [`XboxOneJoypad::destroy`] takes it for good.
pub struct XboxOneJoypad {
    joypad: DeviceHandle,
    on_rumble_fn: Option<usize>,
}

impl View for XboxOneJoypad {
    type V = JoypadView;

    open spec fn view(&self) -> JoypadView {
        JoypadView {
            joypad: JoypadKind::XboxOne,
            device: self.device(),
            on_rumble: self.on_rumble(),
            on_led: None,
            on_trigger_effect: None,
        }
    }
}

impl XboxOneJoypad {
    /// The address of the native device.
    pub closed spec fn device(&self) -> usize {
        self.joypad@
    }

    /// The address of the closure registered for rumble events.
    pub closed spec fn on_rumble(&self) -> Option<usize> {
        self.on_rumble_fn
    }

    /// Create a new emulated XBox One joypad device with the given device
    /// definition, through the native creation function `create_fn`.
    ///
    /// On success the joypad is at the address that `create_fn` returned and
    /// has no closure registered; otherwise the error carries what
    /// `create_fn` reported.
    pub fn new<F>(device: &DeviceDefinition, create_fn: F) -> (joypad: Result<
        XboxOneJoypad,
        InputtinoError,
    >) where F: FnOnce(DeviceKind, &DeviceDefinition, &mut ErrorBridge) -> usize
        requires
            can_create(create_fn, DeviceKind::Joypad(JoypadKind::XboxOne), device),
        ensures
            exists|bridge: &mut ErrorBridge, raw: usize|
                creates(create_fn, DeviceKind::Joypad(JoypadKind::XboxOne), device, bridge, raw)
                    && (match joypad {
                    Ok(created) => Ok(created@),
                    Err(error) => Err(error@),
                }) == JoypadView::created(
                    JoypadKind::XboxOne,
                    creation_outcome(raw, (*final(bridge))@),
                ),
    {
        match make_device(DeviceKind::Joypad(JoypadKind::XboxOne), create_fn, device) {
            Ok(joypad) => Ok(XboxOneJoypad { joypad, on_rumble_fn: None }),
            Err(error) => Err(error),
        }
    }

    /// Set the state of all buttons.
    ///
    /// The mask replaces the whole set of pressed buttons: any buttons that
    /// are not set are released if they were set before.
    pub fn set_pressed(&self, buttons: i32) -> (call: NativeCall)
        ensures
            call == self@.set_pressed_call(buttons),
    {
        NativeCall::JoypadSetPressedButtons {
            joypad: JoypadKind::XboxOne,
            device: self.joypad.addr(),
            buttons,
        }
    }

    /// Set the state of the triggers.
    pub fn set_triggers(&self, left_trigger: i16, right_trigger: i16) -> (call: NativeCall)
        ensures
            call == (NativeCall::JoypadSetTriggers {
                joypad: JoypadKind::XboxOne,
                device: self@.device,
                left_trigger,
                right_trigger,
            }),
    {
        NativeCall::JoypadSetTriggers {
            joypad: JoypadKind::XboxOne,
            device: self.joypad.addr(),
            left_trigger,
            right_trigger,
        }
    }

    /// Set the state of the joysticks.
    pub fn set_stick(&self, stick_type: JoypadStickPosition, x: i16, y: i16) -> (call: NativeCall)
        ensures
            call == (NativeCall::JoypadSetStick {
                joypad: JoypadKind::XboxOne,
                device: self@.device,
                stick_type,
                x,
                y,
            }),
    {
        NativeCall::JoypadSetStick {
            joypad: JoypadKind::XboxOne,
            device: self.joypad.addr(),
            stick_type,
            x,
            y,
        }
    }

    /// Sets the closure to be called when this device receives a rumble
    /// event: the one boxed at `user_data`.
    ///
    /// It takes the place of the closure registered before, whose box is
    /// released once the native library knows the new one.
    pub fn set_on_rumble(&mut self, user_data: usize) -> (steps: Vec<Step>)
        ensures
            final(self)@ == old(self)@.register(FeedbackKind::Rumble, user_data),
            steps@ == old(self)@.registration_steps(FeedbackKind::Rumble, user_data),
    {
        let call = NativeCall::JoypadSetOnRumble {
            joypad: JoypadKind::XboxOne,
            device: self.joypad.addr(),
            user_data,
        };
        register(&mut self.on_rumble_fn, call, FeedbackKind::Rumble, user_data)
    }

    /// The paths of the nodes of this joypad, as the native library lists
    /// them through `list_fn` and `take_fn`.
    pub fn get_nodes<L, T>(&self, list_fn: L, take_fn: T) -> (nodes: Result<
        Vec<String>,
        InputtinoError,
    >) where L: FnOnce(DeviceKind, usize) -> NodeArray, T: Fn(NodeArray, i32) -> String
        requires
            can_list(list_fn, take_fn, DeviceKind::Joypad(JoypadKind::XboxOne), self@.device),
        ensures
            listed_by(
                list_fn,
                take_fn,
                DeviceKind::Joypad(JoypadKind::XboxOne),
                self@.device,
                nodes,
            ),
    {
        get_nodes(DeviceKind::Joypad(JoypadKind::XboxOne), list_fn, take_fn, &self.joypad)
    }

    /// Ends this joypad: the native device is destroyed first, then the box
    /// of the registered closure is released.
    pub fn destroy(self) -> (steps: Vec<Step>)
        ensures
            steps@ == self@.teardown_steps(),
    {
        let mut steps: Vec<Step> = Vec::new();
        steps.push(Step::Call(NativeCall::Destroy {
            kind: DeviceKind::Joypad(JoypadKind::XboxOne),
            device: self.joypad.addr(),
        }));
        release(&mut steps, FeedbackKind::Rumble, self.on_rumble_fn);
        assert(steps@ =~= self@.teardown_steps());
        steps
    }
}

} // verus!
