use inputtino::common::{
    creation_result, error_handler_fn, get_nodes, make_device, DeviceDefinition, ErrorBridge,
    NodeArray,
};
use inputtino::native::{DeviceKind, JoypadKind};
use inputtino::InputtinoError;
use std::cell::RefCell;

fn definition() -> DeviceDefinition {
    DeviceDefinition::new("Rusty Device", 0xAB, 0xCD, 0xEF, "Phys", "Uniq").unwrap()
}

#[test]
fn bridge_starts_empty() {
    assert_eq!(ErrorBridge::new().message(), "");
}

#[test]
fn handler_overwrites_the_slot() {
    let mut bridge = ErrorBridge::new();
    error_handler_fn("first", &mut bridge);
    assert_eq!(bridge.message(), "first");
    error_handler_fn("second", &mut bridge);
    assert_eq!(bridge.message(), "second");
}

#[test]
fn creation_result_of_an_address() {
    let handle = creation_result(0x7f00, ErrorBridge::new()).unwrap();
    assert_eq!(handle.addr(), 0x7f00);
}

#[test]
fn creation_result_ignores_the_slot_on_success() {
    let mut bridge = ErrorBridge::new();
    error_handler_fn("stale", &mut bridge);
    let handle = creation_result(1, bridge).unwrap();
    assert_eq!(handle.addr(), 1);
}

#[test]
fn creation_result_of_null_with_a_message() {
    let mut bridge = ErrorBridge::new();
    error_handler_fn("Unable to open uinput", &mut bridge);
    assert_eq!(
        creation_result(0, bridge).err(),
        Some(InputtinoError::Generic("Unable to open uinput".to_string()))
    );
}

#[test]
fn creation_result_of_null_without_a_message() {
    assert_eq!(
        creation_result(0, ErrorBridge::new()).err(),
        Some(InputtinoError::Generic("unknown failure".to_string()))
    );
}

#[test]
fn make_device_hands_on_kind_definition_and_an_empty_bridge() {
    let device = definition();
    let handle = make_device(
        DeviceKind::Mouse,
        |kind: DeviceKind, definition: &DeviceDefinition, bridge: &mut ErrorBridge| {
            assert_eq!(kind, DeviceKind::Mouse);
            assert_eq!(definition.name(), b"Rusty Device\0");
            assert_eq!(definition.vendor_id(), 0xAB);
            assert_eq!(bridge.message(), "");
            0xbeef
        },
        &device,
    )
    .unwrap();
    assert_eq!(handle.addr(), 0xbeef);
}

#[test]
fn make_device_bridges_the_message() {
    let device = definition();
    let failed = make_device(
        DeviceKind::Keyboard,
        |_: DeviceKind, _: &DeviceDefinition, bridge: &mut ErrorBridge| {
            error_handler_fn("Permission denied", bridge);
            0
        },
        &device,
    );
    assert_eq!(
        failed.err(),
        Some(InputtinoError::Generic("Permission denied".to_string()))
    );
}

#[test]
fn make_device_without_a_message() {
    let device = definition();
    let failed = make_device(
        DeviceKind::Joypad(JoypadKind::PS5),
        |_: DeviceKind, _: &DeviceDefinition, _: &mut ErrorBridge| 0,
        &device,
    );
    assert_eq!(
        failed.err(),
        Some(InputtinoError::Generic("unknown failure".to_string()))
    );
}

#[test]
fn get_nodes_keeps_the_order() {
    let handle = creation_result(0x10, ErrorBridge::new()).unwrap();
    let taken = RefCell::new(Vec::new());
    let nodes = get_nodes(
        DeviceKind::Mouse,
        |kind: DeviceKind, device: usize| {
            assert_eq!(kind, DeviceKind::Mouse);
            assert_eq!(device, 0x10);
            NodeArray { array: 0x20, count: 3 }
        },
        |listed: NodeArray, i: i32| {
            assert_eq!(listed, NodeArray { array: 0x20, count: 3 });
            taken.borrow_mut().push(i);
            format!("/dev/input/event{}", 7 - i)
        },
        &handle,
    )
    .unwrap();
    assert_eq!(nodes, vec!["/dev/input/event7", "/dev/input/event6", "/dev/input/event5"]);
    assert_eq!(*taken.borrow(), vec![0, 1, 2]);
}

#[test]
fn get_nodes_of_a_null_array() {
    let handle = creation_result(0x10, ErrorBridge::new()).unwrap();
    let taken = RefCell::new(0);
    let nodes = get_nodes(
        DeviceKind::Keyboard,
        |_: DeviceKind, _: usize| NodeArray { array: 0, count: 2 },
        |_: NodeArray, _: i32| {
            *taken.borrow_mut() += 1;
            String::new()
        },
        &handle,
    );
    assert_eq!(
        nodes.err(),
        Some(InputtinoError::Generic("Failed to get nodes".to_string()))
    );
    assert_eq!(*taken.borrow(), 0);
}

#[test]
fn get_nodes_of_an_empty_array() {
    let handle = creation_result(0x10, ErrorBridge::new()).unwrap();
    let nodes = get_nodes(
        DeviceKind::Keyboard,
        |_: DeviceKind, _: usize| NodeArray { array: 0x20, count: 0 },
        |_: NodeArray, _: i32| String::from("never"),
        &handle,
    );
    assert_eq!(nodes, Ok(Vec::new()));
}

#[test]
fn get_nodes_of_a_negative_count() {
    let handle = creation_result(0x10, ErrorBridge::new()).unwrap();
    let nodes = get_nodes(
        DeviceKind::Keyboard,
        |_: DeviceKind, _: usize| NodeArray { array: 0x20, count: -4 },
        |_: NodeArray, _: i32| String::from("never"),
        &handle,
    );
    assert_eq!(nodes, Ok(Vec::new()));
}
