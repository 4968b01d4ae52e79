//! Emulated input devices, from the side of the caller.
//!
//! A process that wants a keyboard, a mouse or a joypad that the operating
//! system takes for real hardware asks a native library for it. This crate is
//! the layer between the caller and that library, with everything but the
//! native calls themselves: what a device definition may hold, how a failed
//! creation is told from a successful one, in which order the nodes of a
//! device come back, which native call each operation of a device makes, and
//! when the box of a registered closure may be released.
//!
//! The native library is never called from here. A creation and a listing
//! take the native function as an argument and say how their result follows
//! from what it returned; every other operation returns the call to make.

pub mod callback;
pub mod common;
pub mod error;
pub mod joypad;
pub mod joypad_nintendo;
pub mod joypad_ps5;
pub mod joypad_xbox;
pub mod keyboard;
pub mod mouse;
pub mod native;

pub use common::DeviceDefinition;
pub use error::InputtinoError;
pub use joypad::Joypad;
pub use joypad_nintendo::SwitchJoypad;
pub use joypad_ps5::PS5Joypad;
pub use joypad_xbox::XboxOneJoypad;
pub use keyboard::Keyboard;
pub use mouse::Mouse;
pub use native::{BatteryState, JoypadStickPosition, MouseButton, NativeCall};
