use vstd::prelude::*;
use crate::common::{
    can_create, can_list, creates, creation_outcome, get_nodes, listed_by, make_device,
    DeviceDefinition, DeviceHandle, ErrorBridge, NodeArray,
};
use crate::error::InputtinoError;
use crate::native::{DeviceKind, MouseButton, NativeCall};

verus! {

/// Emulated mouse device.
///
/// A mouse exists from a successful creation until it is destroyed. It cannot
/// be copied, and [`Mouse::destroy`] takes it for good.
pub struct Mouse {
    mouse: DeviceHandle,
}

impl View for Mouse {
    type V = usize;

    /// The address of the native device.
    closed spec fn view(&self) -> usize {
        self.mouse@
    }
}

impl Mouse {
    /// Create a new emulated mouse device with the given device definition,
    /// through the native creation function `create_fn`.
    ///
    /// On success the mouse is at the address that `create_fn` returned;
    /// otherwise the error carries what `create_fn` reported.
    pub fn new<F>(device: &DeviceDefinition, create_fn: F) -> (mouse: Result<
        Mouse,
        InputtinoError,
    >) where F: FnOnce(DeviceKind, &DeviceDefinition, &mut ErrorBridge) -> usize
        requires
            can_create(create_fn, DeviceKind::Mouse, device),
        ensures
            exists|bridge: &mut ErrorBridge, raw: usize|
                creates(create_fn, DeviceKind::Mouse, device, bridge, raw) && (match mouse {
                    Ok(created) => Ok(created@),
                    Err(error) => Err(error@),
                }) == creation_outcome(raw, (*final(bridge))@),
    {
        match make_device(DeviceKind::Mouse, create_fn, device) {
            Ok(mouse) => Ok(Mouse { mouse }),
            Err(error) => Err(error),
        }
    }

    /// The paths of the nodes of this mouse, as the native library lists them
    /// through `list_fn` and `take_fn`: the node for relative motion comes
    /// first, the one for absolute motion second.
    pub fn get_nodes<L, T>(&self, list_fn: L, take_fn: T) -> (nodes: Result<
        Vec<String>,
        InputtinoError,
    >) where L: FnOnce(DeviceKind, usize) -> NodeArray, T: Fn(NodeArray, i32) -> String
        requires
            can_list(list_fn, take_fn, DeviceKind::Mouse, self@),
        ensures
            listed_by(list_fn, take_fn, DeviceKind::Mouse, self@, nodes),
    {
        get_nodes(DeviceKind::Mouse, list_fn, take_fn, &self.mouse)
    }

    /// Move the mouse relative to its current position.
    pub fn move_rel(&self, x: i32, y: i32) -> (call: NativeCall)
        ensures
            call == (NativeCall::MouseMove { device: self@, delta_x: x, delta_y: y }),
    {
        NativeCall::MouseMove { device: self.mouse.addr(), delta_x: x, delta_y: y }
    }

    /// Move the mouse to absolute coordinates on the screen. The size of the
    /// screen is handed on with the position, and not kept.
    pub fn move_abs(&self, x: i32, y: i32, screen_width: i32, screen_height: i32) -> (call:
        NativeCall)
        ensures
            call == (NativeCall::MouseMoveAbsolute {
                device: self@,
                x,
                y,
                screen_width,
                screen_height,
            }),
    {
        NativeCall::MouseMoveAbsolute { device: self.mouse.addr(), x, y, screen_width, screen_height }
    }

    /// Simulate a button press.
    pub fn press_button(&self, button: MouseButton) -> (call: NativeCall)
        ensures
            call == (NativeCall::MousePressButton { device: self@, button }),
    {
        NativeCall::MousePressButton { device: self.mouse.addr(), button }
    }

    /// Simulate the release of a button.
    pub fn release_button(&self, button: MouseButton) -> (call: NativeCall)
        ensures
            call == (NativeCall::MouseReleaseButton { device: self@, button }),
    {
        NativeCall::MouseReleaseButton { device: self.mouse.addr(), button }
    }

    /// Simulate scrolling vertically for an amount of ticks.
    ///
    /// The amount goes to the native library as it is. What a reader of the
    /// device then sees is up to the native library: a positive amount has
    /// been seen to arrive as a negative scroll value.
    pub fn scroll_vertical(&self, amount: i32) -> (call: NativeCall)
        ensures
            call == (NativeCall::MouseScrollVertical { device: self@, amount }),
    {
        NativeCall::MouseScrollVertical { device: self.mouse.addr(), amount }
    }

    /// Simulate scrolling horizontally for an amount of ticks. The amount
    /// goes to the native library as it is.
    pub fn scroll_horizontal(&self, amount: i32) -> (call: NativeCall)
        ensures
            call == (NativeCall::MouseScrollHorizontal { device: self@, amount }),
    {
        NativeCall::MouseScrollHorizontal { device: self.mouse.addr(), amount }
    }

    /// Ends this mouse: the one call left to make destroys the native
    /// device.
    pub fn destroy(self) -> (call: NativeCall)
        ensures
            call == (NativeCall::Destroy { kind: DeviceKind::Mouse, device: self@ }),
    {
        NativeCall::Destroy { kind: DeviceKind::Mouse, device: self.mouse.addr() }
    }
}

} // verus!
