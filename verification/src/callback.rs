//! Feedback from the native library: which closure it is registered for, what
//! reaches that closure, and when the box of a closure is released.
//!
//! A closure that is to receive feedback is boxed by its owner, so that it
//! has a stable address. The address is registered with the native library as
//! user data, and comes back with each event. The wrapper of the device keeps
//! the address for as long as it is registered, and says when the box behind
//! it can go: after a newer registration has taken its place with the native
//! library, or after the device itself has been destroyed.

use vstd::prelude::*;
use crate::error::ErrorView;
use crate::native::{DeviceKind, JoypadKind, NativeCall};

verus! {

/// The feedback events the native library can deliver.
#[derive(Clone, Copy, Debug, PartialEq, Eq, Hash)]
pub enum FeedbackKind {
    Rumble,
    Led,
    TriggerEffect,
}

/// The box of a closure: the kind of feedback the closure takes and the
/// address it was boxed at.
#[derive(Clone, Copy, Debug, PartialEq, Eq, Hash)]
pub struct ClosureBox {
    pub kind: FeedbackKind,
    pub user_data: usize,
}

/// One step of a plan. The steps of a plan are carried out in their order.
#[derive(Clone, Copy, Debug, PartialEq, Eq)]
pub enum Step {
    /// Make this call into the native library.
    Call(NativeCall),
    /// Release this box. The native library no longer knows its address.
    Release(ClosureBox),
}

/// What reaches a closure.
#[derive(Clone, Copy, Debug, PartialEq, Eq)]
pub enum Feedback {
    /// The speeds the two motors are set to.
    Rumble { left_motor: i32, right_motor: i32 },
    /// The colour the LED is set to.
    Led { r: i32, g: i32, b: i32 },
    /// The effect the adaptive triggers are set to.
    TriggerEffect {
        trigger_event_flags: u8,
        type_left: u8,
        type_right: u8,
        left: [u8; 10],
        right: [u8; 10],
    },
}

/// One call of a boxed closure: the box and what it is called with.
#[derive(Clone, Copy, Debug, PartialEq, Eq)]
pub struct Invocation {
    pub closure: ClosureBox,
    pub feedback: Feedback,
}

impl Feedback {
    /// The kind of event that brings this feedback.
    pub open spec fn kind(self) -> FeedbackKind {
        match self {
            Feedback::Rumble { .. } => FeedbackKind::Rumble,
            Feedback::Led { .. } => FeedbackKind::Led,
            Feedback::TriggerEffect { .. } => FeedbackKind::TriggerEffect,
        }
    }
}

/// The one call that an event makes: the closure boxed at `user_data`, the
/// address that came back with the event, is called with `feedback`.
pub open spec fn invocation_of(user_data: usize, feedback: Feedback) -> Invocation {
    Invocation { closure: ClosureBox { kind: feedback.kind(), user_data }, feedback }
}

/// The trampoline for rumble events: the closure boxed at `user_data` is
/// called once, with the two motor speeds as they came.
pub fn on_rumble_c_fn(left_motor: i32, right_motor: i32, user_data: usize) -> (invocation: Invocation)
    ensures
        invocation == invocation_of(user_data, Feedback::Rumble { left_motor, right_motor }),
{
    Invocation {
        closure: ClosureBox { kind: FeedbackKind::Rumble, user_data },
        feedback: Feedback::Rumble { left_motor, right_motor },
    }
}

/// The trampoline for LED events: the closure boxed at `user_data` is called
/// once, with the three colour values as they came.
pub fn on_led_c_fn(r: i32, g: i32, b: i32, user_data: usize) -> (invocation: Invocation)
    ensures
        invocation == invocation_of(user_data, Feedback::Led { r, g, b }),
{
    Invocation {
        closure: ClosureBox { kind: FeedbackKind::Led, user_data },
        feedback: Feedback::Led { r, g, b },
    }
}

/// The trampoline for trigger-effect events: the closure boxed at `user_data`
/// is called once, with the flags, the two types and the two effects of ten
/// bytes each as they came.
pub fn on_trigger_effect_c_fn(
    trigger_event_flags: u8,
    type_left: u8,
    type_right: u8,
    left: [u8; 10],
    right: [u8; 10],
    user_data: usize,
) -> (invocation: Invocation)
    ensures
        invocation == invocation_of(
            user_data,
            Feedback::TriggerEffect { trigger_event_flags, type_left, type_right, left, right },
        ),
{
    Invocation {
        closure: ClosureBox { kind: FeedbackKind::TriggerEffect, user_data },
        feedback: Feedback::TriggerEffect { trigger_event_flags, type_left, type_right, left, right },
    }
}

/// A joypad as plain values: its kind, the address of its native device, and
/// for each kind of feedback the address of the closure registered for it.
pub struct JoypadView {
    pub joypad: JoypadKind,
    pub device: usize,
    pub on_rumble: Option<usize>,
    pub on_led: Option<usize>,
    pub on_trigger_effect: Option<usize>,
}

/// The release of the box in `slot`, where there is one.
pub open spec fn release_steps(kind: FeedbackKind, slot: Option<usize>) -> Seq<Step> {
    match slot {
        Some(user_data) => seq![Step::Release(ClosureBox { kind, user_data })],
        None => seq![],
    }
}

impl JoypadView {
    /// A joypad right after its creation: nothing is registered.
    pub open spec fn fresh(joypad: JoypadKind, device: usize) -> JoypadView {
        JoypadView { joypad, device, on_rumble: None, on_led: None, on_trigger_effect: None }
    }

    /// What the creation of a joypad of kind `joypad` ends in, given what the
    /// creation of its native device ended in.
    pub open spec fn created(joypad: JoypadKind, outcome: Result<usize, ErrorView>) -> Result<
        JoypadView,
        ErrorView,
    > {
        match outcome {
            Ok(device) => Ok(JoypadView::fresh(joypad, device)),
            Err(error) => Err(error),
        }
    }

    /// The address of the closure registered for `kind`.
    pub open spec fn registered(self, kind: FeedbackKind) -> Option<usize> {
        match kind {
            FeedbackKind::Rumble => self.on_rumble,
            FeedbackKind::Led => self.on_led,
            FeedbackKind::TriggerEffect => self.on_trigger_effect,
        }
    }

    /// This joypad with the closure boxed at `user_data` registered for
    /// `kind`, in place of any that was.
    pub open spec fn register(self, kind: FeedbackKind, user_data: usize) -> JoypadView {
        match kind {
            FeedbackKind::Rumble => JoypadView { on_rumble: Some(user_data), ..self },
            FeedbackKind::Led => JoypadView { on_led: Some(user_data), ..self },
            FeedbackKind::TriggerEffect => JoypadView { on_trigger_effect: Some(user_data), ..self },
        }
    }

    /// The native call that sets the pressed buttons to `buttons`.
    pub open spec fn set_pressed_call(self, buttons: i32) -> NativeCall {
        NativeCall::JoypadSetPressedButtons { joypad: self.joypad, device: self.device, buttons }
    }

    /// The native call that registers `user_data` for `kind`.
    pub open spec fn registration_call(self, kind: FeedbackKind, user_data: usize) -> NativeCall {
        match kind {
            FeedbackKind::Rumble => NativeCall::JoypadSetOnRumble {
                joypad: self.joypad,
                device: self.device,
                user_data,
            },
            FeedbackKind::Led => NativeCall::PS5SetOnLed { device: self.device, user_data },
            FeedbackKind::TriggerEffect => NativeCall::PS5SetOnTriggerEffect {
                device: self.device,
                user_data,
            },
        }
    }

    /// The plan of a registration: the native call comes first, and takes
    /// the place of the registration before it; only then is the box of that
    /// one released.
    pub open spec fn registration_steps(self, kind: FeedbackKind, user_data: usize) -> Seq<Step> {
        seq![Step::Call(self.registration_call(kind, user_data))] + release_steps(
            kind,
            self.registered(kind),
        )
    }

    /// The native call that destroys the device.
    pub open spec fn destroy_call(self) -> NativeCall {
        NativeCall::Destroy { kind: DeviceKind::Joypad(self.joypad), device: self.device }
    }

    /// The plan of a teardown: the native device is destroyed first, then the
    /// boxes of all registered closures are released.
    pub open spec fn teardown_steps(self) -> Seq<Step> {
        seq![Step::Call(self.destroy_call())] + release_steps(FeedbackKind::Rumble, self.on_rumble)
            + release_steps(FeedbackKind::Led, self.on_led) + release_steps(
            FeedbackKind::TriggerEffect,
            self.on_trigger_effect,
        )
    }
}

/// Registers the closure boxed at `user_data` in `slot`, the slot of `kind`,
/// by the native call `call`.
///
/// The steps are the call and then the release of the box that was in the
/// slot, if there was one.
pub fn register(slot: &mut Option<usize>, call: NativeCall, kind: FeedbackKind, user_data: usize) -> (steps:
    Vec<Step>)
    ensures
        *final(slot) == Some(user_data),
        steps@ == seq![Step::Call(call)] + release_steps(kind, *old(slot)),
{
    let mut steps: Vec<Step> = Vec::new();
    steps.push(Step::Call(call));
    if let Some(previous) = *slot {
        steps.push(Step::Release(ClosureBox { kind, user_data: previous }));
    }
    *slot = Some(user_data);
    assert(steps@ =~= seq![Step::Call(call)] + release_steps(kind, *old(slot)));
    steps
}

/// Appends to `steps` the release of the box in `slot`, where there is one.
pub fn release(steps: &mut Vec<Step>, kind: FeedbackKind, slot: Option<usize>)
    ensures
        final(steps)@ == old(steps)@ + release_steps(kind, slot),
{
    if let Some(user_data) = slot {
        steps.push(Step::Release(ClosureBox { kind, user_data }));
    }
    assert(steps@ =~= old(steps)@ + release_steps(kind, slot));
}

/// A registration takes the place of the one before it. Where `first` is
/// registered for a kind of feedback and then `second` for the same kind, the
/// native library is given `second`, the box of `first` is released, after
/// that call and once, and from then on `second` is what is registered: the
/// joypad is as if `first` had never been registered. The closures of the
/// other kinds stay as they were.
pub proof fn lemma_registration_replaces(
    joypad: JoypadView,
    kind: FeedbackKind,
    first: usize,
    second: usize,
)
    ensures
        joypad.register(kind, first).registered(kind) == Some(first),
        joypad.register(kind, first).registration_steps(kind, second) == seq![
            Step::Call(joypad.registration_call(kind, second)),
            Step::Release(ClosureBox { kind, user_data: first }),
        ],
        joypad.register(kind, first).register(kind, second) == joypad.register(kind, second),
        joypad.register(kind, first).register(kind, second).registered(kind) == Some(second),
        forall|other: FeedbackKind|
            other != kind ==> #[trigger] joypad.register(kind, first).registered(other)
                == joypad.registered(other),
        joypad.register(kind, first).device == joypad.device,
        joypad.register(kind, first).joypad == joypad.joypad,
{
    let once = joypad.register(kind, first);
    assert(once.registration_steps(kind, second) =~= seq![
        Step::Call(joypad.registration_call(kind, second)),
        Step::Release(ClosureBox { kind, user_data: first }),
    ]);
}

/// Whether `steps` releases `closure` at index `i`, after its first step, and
/// at no other index.
pub open spec fn released_once_at(steps: Seq<Step>, closure: ClosureBox, i: int) -> bool {
    &&& 1 <= i < steps.len()
    &&& steps[i] == Step::Release(closure)
    &&& forall|k: int| 0 <= k < steps.len() && steps[k] == Step::Release(closure) ==> k == i
}

/// A teardown destroys the native device, first and once, and then releases
/// the box of each registered closure, once, and no other box.
pub proof fn lemma_teardown_releases_each_once(joypad: JoypadView)
    ensures
        joypad.teardown_steps().len() >= 1,
        joypad.teardown_steps()[0] == Step::Call(joypad.destroy_call()),
        forall|i: int|
            1 <= i < joypad.teardown_steps().len() ==> (#[trigger] joypad.teardown_steps()[i]
                matches Step::Release(closure) && joypad.registered(closure.kind) == Some(
                closure.user_data,
            )),
        forall|closure: ClosureBox|
            joypad.registered(closure.kind) == Some(closure.user_data) ==> exists|i: int|
                released_once_at(joypad.teardown_steps(), closure, i),
{
    let steps = joypad.teardown_steps();
    let rumble = release_steps(FeedbackKind::Rumble, joypad.on_rumble);
    let led = release_steps(FeedbackKind::Led, joypad.on_led);
    let trigger_effect = release_steps(FeedbackKind::TriggerEffect, joypad.on_trigger_effect);
    assert(steps =~= seq![Step::Call(joypad.destroy_call())] + rumble + led + trigger_effect);
    assert forall|closure: ClosureBox|
        joypad.registered(closure.kind) == Some(closure.user_data) implies exists|i: int|
        released_once_at(steps, closure, i) by {
        let i: int = match closure.kind {
            FeedbackKind::Rumble => 1,
            FeedbackKind::Led => 1 + rumble.len() as int,
            FeedbackKind::TriggerEffect => 1 + rumble.len() as int + led.len() as int,
        };
        assert(steps[i] == Step::Release(closure));
        assert forall|k: int|
            0 <= k < steps.len() && steps[k] == Step::Release(closure) implies k == i by {
            if 1 <= k {
                if k < 1 + rumble.len() {
                    assert(steps[k] == rumble[k - 1]);
                } else if k < 1 + rumble.len() + led.len() {
                    assert(steps[k] == led[k - 1 - rumble.len()]);
                } else {
                    assert(steps[k] == trigger_effect[k - 1 - rumble.len() - led.len()]);
                }
            }
        }
        assert(released_once_at(steps, closure, i));
    }
    assert forall|i: int| 1 <= i < steps.len() implies (#[trigger] steps[i] matches Step::Release(
        closure,
    ) && joypad.registered(closure.kind) == Some(closure.user_data)) by {
        if i < 1 + rumble.len() {
            assert(steps[i] == rumble[i - 1]);
        } else if i < 1 + rumble.len() + led.len() {
            assert(steps[i] == led[i - 1 - rumble.len()]);
        } else {
            assert(steps[i] == trigger_effect[i - 1 - rumble.len() - led.len()]);
        }
    }
}

/// Feedback reaches the closure that was registered for it, and as it came.
/// Where the closure boxed at `user_data` is registered for the kind of
/// `feedback`, the native library is handed `user_data`, and an event that
/// brings `user_data` back with `feedback` makes one call: of the closure that
/// is registered, with `feedback` unchanged.
pub proof fn lemma_feedback_reaches_registered_closure(
    joypad: JoypadView,
    user_data: usize,
    feedback: Feedback,
)
    ensures
        joypad.registration_call(feedback.kind(), user_data).registered_user_data() == Some(
            user_data,
        ),
        joypad.register(feedback.kind(), user_data).registered(
            invocation_of(user_data, feedback).closure.kind,
        ) == Some(invocation_of(user_data, feedback).closure.user_data),
        invocation_of(user_data, feedback).closure.kind == feedback.kind(),
        invocation_of(user_data, feedback).feedback == feedback,
{
}

/// Setting the pressed buttons replaces the whole set. After the buttons
/// were set to `mask` and then to `mask2`, what the native library holds is
/// `mask2`: a button that `mask2` leaves out is released, also where `mask`
/// had it pressed.
pub proof fn lemma_set_pressed_replaces(joypad: JoypadView, mask: i32, mask2: i32, button: i32)
    requires
        mask & button != 0,
        mask2 & button == 0,
    ensures
        joypad.set_pressed_call(mask).pressed_buttons() == Some(mask),
        joypad.set_pressed_call(mask2).pressed_buttons() == Some(mask2),
        joypad.set_pressed_call(mask2).pressed_buttons().unwrap() & button == 0,
{
}

} // verus!
