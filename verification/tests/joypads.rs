use inputtino::callback::{ClosureBox, FeedbackKind, Step};
use inputtino::common::{error_handler_fn, ErrorBridge, NodeArray};
use inputtino::native::{DeviceKind, JoypadKind};
use inputtino::{
    BatteryState, DeviceDefinition, InputtinoError, Joypad, JoypadStickPosition, NativeCall,
    PS5Joypad, SwitchJoypad, XboxOneJoypad,
};

const PAD: usize = 0x9000;

fn definition() -> DeviceDefinition {
    DeviceDefinition::new(
        "Rusty Switch controller",
        0x057e,
        0x2009,
        0x8111,
        "00:11:22:33:44",
        "00:11:22:33:44",
    )
    .unwrap()
}

fn create(_kind: DeviceKind, _definition: &DeviceDefinition, _bridge: &mut ErrorBridge) -> usize {
    PAD
}

fn list(_kind: DeviceKind, _device: usize) -> NodeArray {
    NodeArray { array: 0xa000, count: 2 }
}

fn take(_listed: NodeArray, i: i32) -> String {
    if i == 0 {
        String::from("/dev/input/event23")
    } else {
        String::from("/dev/input/js0")
    }
}

fn release(kind: FeedbackKind, user_data: usize) -> Step {
    Step::Release(ClosureBox { kind, user_data })
}

#[test]
fn test_switch_joypad() {
    let device = definition();
    let mut joypad = SwitchJoypad::new(
        &device,
        |kind: DeviceKind, definition: &DeviceDefinition, _: &mut ErrorBridge| {
            assert_eq!(kind, DeviceKind::Joypad(JoypadKind::Switch));
            assert_eq!(definition.name(), b"Rusty Switch controller\0");
            assert_eq!(definition.vendor_id(), 0x057e);
            assert_eq!(definition.product_id(), 0x2009);
            assert_eq!(definition.version(), 0x8111);
            assert_eq!(definition.phys(), b"00:11:22:33:44\0");
            assert_eq!(definition.uniq(), b"00:11:22:33:44\0");
            PAD
        },
    )
    .unwrap();

    let nodes = joypad
        .get_nodes(
            |kind: DeviceKind, device: usize| {
                assert_eq!(kind, DeviceKind::Joypad(JoypadKind::Switch));
                assert_eq!(device, PAD);
                NodeArray { array: 0xa000, count: 2 }
            },
            take,
        )
        .unwrap();
    {
        assert_eq!(nodes.len(), 2);
        assert!(nodes[0].starts_with("/dev/input/event"));
        assert!(nodes[1].starts_with("/dev/input/js"));
    }

    {
        assert_eq!(
            joypad.set_pressed(0x1000),
            NativeCall::JoypadSetPressedButtons {
                joypad: JoypadKind::Switch,
                device: PAD,
                buttons: 0x1000,
            }
        );
    }

    {
        assert_eq!(
            joypad.set_triggers(0, 0),
            NativeCall::JoypadSetTriggers {
                joypad: JoypadKind::Switch,
                device: PAD,
                left_trigger: 0,
                right_trigger: 0,
            }
        );
    }

    {
        assert_eq!(
            joypad.set_stick(JoypadStickPosition::LS, 0, 0),
            NativeCall::JoypadSetStick {
                joypad: JoypadKind::Switch,
                device: PAD,
                stick_type: JoypadStickPosition::LS,
                x: 0,
                y: 0,
            }
        );
    }

    {
        assert_eq!(
            joypad.set_stick(JoypadStickPosition::RS, 0, 0),
            NativeCall::JoypadSetStick {
                joypad: JoypadKind::Switch,
                device: PAD,
                stick_type: JoypadStickPosition::RS,
                x: 0,
                y: 0,
            }
        );
    }

    {
        let set = |user_data: usize| {
            Step::Call(NativeCall::JoypadSetOnRumble {
                joypad: JoypadKind::Switch,
                device: PAD,
                user_data,
            })
        };
        assert_eq!(joypad.set_on_rumble(100), vec![set(100)]);
        assert_eq!(
            joypad.set_on_rumble(200),
            vec![set(200), release(FeedbackKind::Rumble, 100)]
        );
    }

    assert_eq!(
        joypad.destroy(),
        vec![
            Step::Call(NativeCall::Destroy {
                kind: DeviceKind::Joypad(JoypadKind::Switch),
                device: PAD,
            }),
            release(FeedbackKind::Rumble, 200),
        ]
    );
}

#[test]
fn set_pressed_hands_on_the_mask_alone() {
    let joypad = XboxOneJoypad::new(&definition(), create).unwrap();
    let first = joypad.set_pressed(0x1000 | 0x2000);
    let second = joypad.set_pressed(0x2000);
    assert_eq!(
        first,
        NativeCall::JoypadSetPressedButtons {
            joypad: JoypadKind::XboxOne,
            device: PAD,
            buttons: 0x3000,
        }
    );
    assert_eq!(
        second,
        NativeCall::JoypadSetPressedButtons {
            joypad: JoypadKind::XboxOne,
            device: PAD,
            buttons: 0x2000,
        }
    );
}

#[test]
fn xbox_joypad_forwards() {
    let mut joypad = XboxOneJoypad::new(&definition(), create).unwrap();
    assert_eq!(joypad.get_nodes(list, take).unwrap().len(), 2);
    assert_eq!(
        joypad.set_triggers(0, -i16::MAX),
        NativeCall::JoypadSetTriggers {
            joypad: JoypadKind::XboxOne,
            device: PAD,
            left_trigger: 0,
            right_trigger: -32767,
        }
    );
    assert_eq!(
        joypad.set_stick(JoypadStickPosition::LS, 0, -i16::MAX),
        NativeCall::JoypadSetStick {
            joypad: JoypadKind::XboxOne,
            device: PAD,
            stick_type: JoypadStickPosition::LS,
            x: 0,
            y: -32767,
        }
    );
    assert_eq!(
        joypad.set_on_rumble(7),
        vec![Step::Call(NativeCall::JoypadSetOnRumble {
            joypad: JoypadKind::XboxOne,
            device: PAD,
            user_data: 7,
        })]
    );
    assert_eq!(
        joypad.destroy(),
        vec![
            Step::Call(NativeCall::Destroy {
                kind: DeviceKind::Joypad(JoypadKind::XboxOne),
                device: PAD,
            }),
            release(FeedbackKind::Rumble, 7),
        ]
    );
}

#[test]
fn joypad_without_closures_only_destroys() {
    let joypad = XboxOneJoypad::new(&definition(), create).unwrap();
    assert_eq!(
        joypad.destroy(),
        vec![Step::Call(NativeCall::Destroy {
            kind: DeviceKind::Joypad(JoypadKind::XboxOne),
            device: PAD,
        })]
    );
}

#[test]
fn ps5_joypad_registers_each_kind() {
    let mut joypad = PS5Joypad::new(&definition(), create).unwrap();
    assert_eq!(
        joypad.set_on_led(0x30),
        vec![Step::Call(NativeCall::PS5SetOnLed { device: PAD, user_data: 0x30 })]
    );
    assert_eq!(
        joypad.set_on_trigger_effect(0x40),
        vec![Step::Call(NativeCall::PS5SetOnTriggerEffect { device: PAD, user_data: 0x40 })]
    );
    assert_eq!(
        joypad.set_on_rumble(0x10),
        vec![Step::Call(NativeCall::JoypadSetOnRumble {
            joypad: JoypadKind::PS5,
            device: PAD,
            user_data: 0x10,
        })]
    );
    assert_eq!(
        joypad.set_on_led(0x31),
        vec![
            Step::Call(NativeCall::PS5SetOnLed { device: PAD, user_data: 0x31 }),
            release(FeedbackKind::Led, 0x30),
        ]
    );
    assert_eq!(
        joypad.set_on_trigger_effect(0x41),
        vec![
            Step::Call(NativeCall::PS5SetOnTriggerEffect { device: PAD, user_data: 0x41 }),
            release(FeedbackKind::TriggerEffect, 0x40),
        ]
    );
    assert_eq!(
        joypad.destroy(),
        vec![
            Step::Call(NativeCall::Destroy {
                kind: DeviceKind::Joypad(JoypadKind::PS5),
                device: PAD,
            }),
            release(FeedbackKind::Rumble, 0x10),
            release(FeedbackKind::Led, 0x31),
            release(FeedbackKind::TriggerEffect, 0x41),
        ]
    );
}

#[test]
fn ps5_joypad_releases_only_what_is_registered() {
    let mut joypad = PS5Joypad::new(&definition(), create).unwrap();
    joypad.set_on_trigger_effect(0x40);
    assert_eq!(
        joypad.destroy(),
        vec![
            Step::Call(NativeCall::Destroy {
                kind: DeviceKind::Joypad(JoypadKind::PS5),
                device: PAD,
            }),
            release(FeedbackKind::TriggerEffect, 0x40),
        ]
    );
}

#[test]
fn ps5_touchpad() {
    assert_eq!(PS5Joypad::TOUCHPAD_WIDTH, 1920);
    assert_eq!(PS5Joypad::TOUCHPAD_HEIGHT, 1080);
    let joypad = PS5Joypad::new(&definition(), create).unwrap();
    assert_eq!(
        joypad.place_finger(0, 100, 540),
        NativeCall::PS5PlaceFinger { device: PAD, finger_nr: 0, x: 100, y: 540 }
    );
    assert_eq!(
        joypad.release_finger(1),
        NativeCall::PS5ReleaseFinger { device: PAD, finger_nr: 1 }
    );
}

#[test]
fn ps5_finger_numbers_keep_their_bits() {
    let joypad = PS5Joypad::new(&definition(), create).unwrap();
    assert_eq!(
        joypad.place_finger(0x7fff_ffff, 0, 0),
        NativeCall::PS5PlaceFinger { device: PAD, finger_nr: i32::MAX, x: 0, y: 0 }
    );
    assert_eq!(
        joypad.place_finger(0x8000_0000, 0, 0),
        NativeCall::PS5PlaceFinger { device: PAD, finger_nr: i32::MIN, x: 0, y: 0 }
    );
    assert_eq!(
        joypad.release_finger(u32::MAX),
        NativeCall::PS5ReleaseFinger { device: PAD, finger_nr: -1 }
    );
}

#[test]
fn ps5_battery() {
    let joypad = PS5Joypad::new(&definition(), create).unwrap();
    assert_eq!(
        joypad.set_battery(BatteryState::BATTERY_DISCHARGING, 55),
        NativeCall::PS5SetBattery {
            device: PAD,
            battery_state: BatteryState::BATTERY_DISCHARGING,
            level: 55,
        }
    );
    assert_eq!(
        joypad.set_battery(BatteryState::BATTERY_FULL, 255),
        NativeCall::PS5SetBattery {
            device: PAD,
            battery_state: BatteryState::BATTERY_FULL,
            level: 255,
        }
    );
}

#[test]
fn joypad_creation_fails_with_the_reported_message() {
    let failed = PS5Joypad::new(
        &definition(),
        |_: DeviceKind, _: &DeviceDefinition, bridge: &mut ErrorBridge| {
            error_handler_fn("No uhid", bridge);
            0
        },
    );
    assert_eq!(failed.err(), Some(InputtinoError::Generic("No uhid".to_string())));
    let failed = SwitchJoypad::new(
        &definition(),
        |_: DeviceKind, _: &DeviceDefinition, _: &mut ErrorBridge| 0,
    );
    assert_eq!(
        failed.err(),
        Some(InputtinoError::Generic("unknown failure".to_string()))
    );
}

#[test]
fn facade_dispatches_to_each_kind() {
    let pads = vec![
        (Joypad::Switch(SwitchJoypad::new(&definition(), create).unwrap()), JoypadKind::Switch),
        (Joypad::PS5(PS5Joypad::new(&definition(), create).unwrap()), JoypadKind::PS5),
        (Joypad::XboxOne(XboxOneJoypad::new(&definition(), create).unwrap()), JoypadKind::XboxOne),
    ];
    for (mut pad, kind) in pads {
        assert_eq!(
            pad.set_pressed(0x3000),
            NativeCall::JoypadSetPressedButtons { joypad: kind, device: PAD, buttons: 0x3000 }
        );
        assert_eq!(
            pad.set_triggers(1, -2),
            NativeCall::JoypadSetTriggers {
                joypad: kind,
                device: PAD,
                left_trigger: 1,
                right_trigger: -2,
            }
        );
        assert_eq!(
            pad.set_stick(JoypadStickPosition::RS, 3, -4),
            NativeCall::JoypadSetStick {
                joypad: kind,
                device: PAD,
                stick_type: JoypadStickPosition::RS,
                x: 3,
                y: -4,
            }
        );
        assert_eq!(
            pad.set_on_rumble(0x50),
            vec![Step::Call(NativeCall::JoypadSetOnRumble {
                joypad: kind,
                device: PAD,
                user_data: 0x50,
            })]
        );
        assert_eq!(
            pad.set_on_rumble(0x60),
            vec![
                Step::Call(NativeCall::JoypadSetOnRumble {
                    joypad: kind,
                    device: PAD,
                    user_data: 0x60,
                }),
                release(FeedbackKind::Rumble, 0x50),
            ]
        );
    }
}
