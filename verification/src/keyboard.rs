use vstd::prelude::*;
use crate::common::{
    can_create, can_list, creates, creation_outcome, get_nodes, listed_by, make_device, DeviceDefinition,
    DeviceHandle, ErrorBridge, NodeArray,
};
use crate::error::InputtinoError;
use crate::native::{DeviceKind, NativeCall};

verus! {

/// Emulated keyboard device.
///
/// A keyboard exists from a successful creation until it is destroyed. It
/// cannot be copied, and [`Keyboard::destroy`] takes it for good.
pub struct Keyboard {
    kb: DeviceHandle,
}

impl View for Keyboard {
    type V = usize;

    /// The address of the native device.
    closed spec fn view(&self) -> usize {
        self.kb@
    }
}

impl Keyboard {
    /// Create a new emulated keyboard device with the given device
    /// definition, through the native creation function `create_fn`.
    ///
    /// On success the keyboard is at the address that `create_fn` returned;
    /// otherwise the error carries what `create_fn` reported.
    pub fn new<F>(device: &DeviceDefinition, create_fn: F) -> (keyboard: Result<
        Keyboard,
        InputtinoError,
    >) where F: FnOnce(DeviceKind, &DeviceDefinition, &mut ErrorBridge) -> usize
        requires
            can_create(create_fn, DeviceKind::Keyboard, device),
        ensures
            exists|bridge: &mut ErrorBridge, raw: usize|
                creates(create_fn, DeviceKind::Keyboard, device, bridge, raw) && (match keyboard {
                    Ok(created) => Ok(created@),
                    Err(error) => Err(error@),
                }) == creation_outcome(raw, (*final(bridge))@),
    {
        match make_device(DeviceKind::Keyboard, create_fn, device) {
            Ok(kb) => Ok(Keyboard { kb }),
            Err(error) => Err(error),
        }
    }

    /// The paths of the nodes of this keyboard, as the native library lists
    /// them through `list_fn` and `take_fn`.
    pub fn get_nodes<L, T>(&self, list_fn: L, take_fn: T) -> (nodes: Result<
        Vec<String>,
        InputtinoError,
    >) where L: FnOnce(DeviceKind, usize) -> NodeArray, T: Fn(NodeArray, i32) -> String
        requires
            can_list(list_fn, take_fn, DeviceKind::Keyboard, self@),
        ensures
            listed_by(list_fn, take_fn, DeviceKind::Keyboard, self@, nodes),
    {
        get_nodes(DeviceKind::Keyboard, list_fn, take_fn, &self.kb)
    }

    /// Simulate a keypress on this keyboard device.
    pub fn press_key(&self, key: i16) -> (call: NativeCall)
        ensures
            call == (NativeCall::KeyboardPress { device: self@, key }),
    {
        NativeCall::KeyboardPress { device: self.kb.addr(), key }
    }

    /// Simulate a release of a key from this keyboard device.
    pub fn release_key(&self, key: i16) -> (call: NativeCall)
        ensures
            call == (NativeCall::KeyboardRelease { device: self@, key }),
    {
        NativeCall::KeyboardRelease { device: self.kb.addr(), key }
    }

    /// Ends this keyboard: the one call left to make destroys the native
    /// device.
    pub fn destroy(self) -> (call: NativeCall)
        ensures
            call == (NativeCall::Destroy { kind: DeviceKind::Keyboard, device: self@ }),
    {
        NativeCall::Destroy { kind: DeviceKind::Keyboard, device: self.kb.addr() }
    }
}

} // verus!
