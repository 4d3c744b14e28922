use std::cell::RefCell;

use moonlight::connection::{InputAction, InputError, KeyboardModifiers, MouseButton};
use moonlight::gamepad::{
    translate, ControllerState, GamepadButton, GamepadEvent, Gamepads, Packet,
};
use moonlight::held_input::{PressedInput, ShortcutDispatch, StreamShortcut};
use moonlight::input::{
    key_transition, keycode_to_vk, remote_modifiers, wheel_scroll, wheel_units, KeyCode,
    KeyEvent, KeyModifiers, PointerButton, VK_LEFT,
};

fn shortcut_modifiers() -> KeyModifiers {
    KeyModifiers {
        shift: true,
        control: true,
        alt: true,
        super_key: false,
    }
}

fn no_modifiers() -> KeyModifiers {
    KeyModifiers {
        shift: false,
        control: false,
        alt: false,
        super_key: false,
    }
}

#[test]
fn maps_scarlet_keys_to_win32_virtual_keys() {
    assert_eq!(keycode_to_vk(KeyCode::Char('w')), Some(0x57));
    assert_eq!(keycode_to_vk(KeyCode::Char('W')), Some(0x57));
    assert_eq!(keycode_to_vk(KeyCode::Char('@')), Some(0x32));
    assert_eq!(keycode_to_vk(KeyCode::Char('\u{1}')), Some(0x41));
    assert_eq!(keycode_to_vk(KeyCode::Left), Some(VK_LEFT));
    assert_eq!(keycode_to_vk(KeyCode::F(12)), Some(0x7B));
    assert_eq!(keycode_to_vk(KeyCode::F(25)), None);
}

#[test]
fn scales_scarlet_wheel_units_to_windows_units() {
    assert_eq!(wheel_units(32), 120);
    assert_eq!(wheel_units(-32), -120);
    assert_eq!(wheel_units(1), 4);
}

#[test]
fn wheel_scroll_inverts_vertical_and_saturates() {
    assert_eq!(wheel_scroll(32, 32), (120, -120));
    assert_eq!(wheel_units(i32::MAX), i16::MAX);
    assert_eq!(wheel_scroll(0, i32::MAX), (0, -i16::MAX));
    assert_eq!(wheel_scroll(0, i32::MIN), (0, i16::MAX));
}

#[test]
fn key_transitions_carry_the_remote_modifiers() {
    let event = KeyEvent::Pressed {
        keycode: KeyCode::Char('a'),
        modifiers: KeyModifiers {
            shift: true,
            control: false,
            alt: false,
            super_key: true,
        },
    };
    assert_eq!(
        key_transition(event),
        Some((0x41, InputAction::Press, KeyboardModifiers::new(true, false, false, true)))
    );
    assert_eq!(remote_modifiers(no_modifiers()).bits(), 0);
    assert_eq!(key_transition(KeyEvent::Char { character: 'a' }), None);
    assert_eq!(
        key_transition(KeyEvent::Released {
            keycode: KeyCode::Unknown,
            modifiers: no_modifiers()
        }),
        None
    );
}

#[test]
fn shortcut_press_repeats_and_release_are_consumed_once() {
    let mut input = PressedInput::new();
    let press = KeyEvent::Pressed {
        keycode: KeyCode::Char('z'),
        modifiers: shortcut_modifiers(),
    };
    let release_without_modifiers = KeyEvent::Released {
        keycode: KeyCode::Char('z'),
        modifiers: no_modifiers(),
    };

    assert_eq!(
        input.classify_shortcut(press),
        ShortcutDispatch::Command(StreamShortcut::ToggleCapture)
    );
    assert_eq!(input.classify_shortcut(press), ShortcutDispatch::Consumed);
    assert_eq!(
        input.classify_shortcut(release_without_modifiers),
        ShortcutDispatch::Consumed
    );
    assert_eq!(
        input.classify_shortcut(release_without_modifiers),
        ShortcutDispatch::NotShortcut
    );
}

#[test]
fn other_shortcuts_and_plain_keys_are_classified() {
    let mut input = PressedInput::new();
    let quit = KeyEvent::Pressed {
        keycode: KeyCode::Char('q'),
        modifiers: shortcut_modifiers(),
    };
    assert_eq!(
        input.classify_shortcut(quit),
        ShortcutDispatch::Command(StreamShortcut::Disconnect)
    );
    let fullscreen = KeyEvent::Pressed {
        keycode: KeyCode::Char('x'),
        modifiers: shortcut_modifiers(),
    };
    assert_eq!(
        input.classify_shortcut(fullscreen),
        ShortcutDispatch::Command(StreamShortcut::ToggleFullscreen)
    );
    let plain = KeyEvent::Pressed {
        keycode: KeyCode::Char('z'),
        modifiers: no_modifiers(),
    };
    assert_eq!(input.classify_shortcut(plain), ShortcutDispatch::NotShortcut);
}

#[test]
fn release_plan_lists_held_keys_in_order_and_clears_them() {
    let mut input = PressedInput::new();
    input.record_key(0x5A, InputAction::Press);
    input.record_key(0x41, InputAction::Press);
    input.record_key(0x42, InputAction::Press);
    input.record_key(0x42, InputAction::Release);
    input.record_mouse_button(PointerButton::Right, true);
    input.record_mouse_button(PointerButton::Left, true);
    input.suppress_capture_click(PointerButton::Middle);
    let plan = input.take_release_plan();
    assert_eq!(plan.keys, vec![0x41, 0x5A]);
    assert_eq!(plan.buttons, vec![MouseButton::Left, MouseButton::Right]);
    let empty = input.take_release_plan();
    assert!(empty.keys.is_empty());
    assert!(empty.buttons.is_empty());
    assert!(!input.consume_suppressed_mouse_release(PointerButton::Middle));
}

#[test]
fn capture_click_release_is_swallowed_once() {
    let mut input = PressedInput::new();
    input.suppress_capture_click(PointerButton::Left);
    assert!(input.consume_suppressed_mouse_release(PointerButton::Left));
    assert!(!input.consume_suppressed_mouse_release(PointerButton::Left));
    assert!(!input.consume_suppressed_mouse_release(PointerButton::Right));
}

fn event(id: u32) -> GamepadEvent {
    GamepadEvent {
        device_id: id,
        ..GamepadEvent::default()
    }
}

fn button_bit(button: GamepadButton) -> u32 {
    1 << button.index()
}

fn flush(pads: &mut Gamepads) -> Vec<Packet> {
    let packets = RefCell::new(Vec::new());
    pads.sync(|packet| {
        packets.borrow_mut().push(packet);
        Ok(())
    })
    .unwrap();
    packets.into_inner()
}

#[test]
fn maps_positions_hat_sticks_and_trigger_endpoints() {
    let state = translate(GamepadEvent {
        buttons: button_bit(GamepadButton::South) | button_bit(GamepadButton::West),
        hat_x: -1,
        hat_y: 1,
        left_x: -32767,
        left_y: -32767,
        right_x: 32767,
        right_y: i16::MIN,
        left_trigger: 16384,
        right_trigger: u16::MAX,
        ..event(900)
    });
    assert_eq!(state.buttons, 0x5006);
    assert_eq!(
        (state.left_x, state.left_y, state.right_x, state.right_y),
        (-32767, 32767, 32767, 32767)
    );
    assert_eq!((state.left_trigger, state.right_trigger), (128, 255));
    assert_eq!(moonlight::gamepad::trigger(0, false), 0);
    assert_eq!(moonlight::gamepad::trigger(32767, false), 255);
    assert_eq!(moonlight::gamepad::trigger(0, true), 255);
    assert_eq!(moonlight::gamepad::trigger(16384, true), 128);
}

#[test]
fn uses_stable_slots_and_reuses_only_the_removed_slot() {
    let mut pads = Gamepads::new();
    pads.observe(event(900));
    pads.observe(event(42));
    assert_eq!(
        flush(&mut pads),
        vec![
            Packet::Arrival { slot: 0, mask: 1 },
            Packet::Arrival { slot: 1, mask: 3 }
        ]
    );
    pads.observe(GamepadEvent {
        reset: true,
        ..event(900)
    });
    pads.observe(event(12345));
    assert_eq!(
        flush(&mut pads),
        vec![
            Packet::State {
                slot: 0,
                mask: 2,
                state: ControllerState::default()
            },
            Packet::Arrival { slot: 0, mask: 3 },
        ]
    );
    assert_eq!(pads.sent_device(1).unwrap().id, 42);
}

#[test]
fn sends_held_state_after_arrival_and_deduplicates_snapshots() {
    let mut pads = Gamepads::new();
    let held = GamepadEvent {
        buttons: 1,
        left_trigger: 32767,
        ..event(1)
    };
    pads.observe(held);
    assert_eq!(
        flush(&mut pads),
        vec![
            Packet::Arrival { slot: 0, mask: 1 },
            Packet::State {
                slot: 0,
                mask: 1,
                state: translate(held)
            },
        ]
    );
    pads.observe(GamepadEvent {
        time_ns: 99,
        ..held
    });
    assert!(flush(&mut pads).is_empty());
    pads.observe(event(1));
    assert_eq!(
        flush(&mut pads),
        vec![Packet::State {
            slot: 0,
            mask: 1,
            state: ControllerState::default()
        }]
    );
}

#[test]
fn reset_ignores_payload_and_unknown_devices() {
    let mut pads = Gamepads::new();
    pads.observe(event(5));
    flush(&mut pads);
    pads.observe(GamepadEvent {
        reset: true,
        buttons: u32::MAX,
        ..event(99)
    });
    assert!(flush(&mut pads).is_empty());
    pads.observe(GamepadEvent {
        reset: true,
        buttons: u32::MAX,
        ..event(5)
    });
    assert_eq!(
        flush(&mut pads),
        vec![Packet::State {
            slot: 0,
            mask: 0,
            state: ControllerState::default()
        }]
    );
}

#[test]
fn failed_release_is_retried_before_slot_reuse() {
    let mut pads = Gamepads::new();
    pads.observe(event(1));
    flush(&mut pads);
    pads.observe(GamepadEvent {
        reset: true,
        ..event(1)
    });
    assert_eq!(
        pads.sync(|_| Err(InputError::ConnectionInactive)),
        Err(InputError::ConnectionInactive)
    );
    pads.observe(event(2));
    assert_eq!(
        flush(&mut pads),
        vec![
            Packet::State {
                slot: 0,
                mask: 0,
                state: ControllerState::default()
            },
            Packet::Arrival { slot: 0, mask: 1 },
        ]
    );
}

#[test]
fn caps_devices_at_sixteen_without_wrapping_ids() {
    let mut pads = Gamepads::new();
    for id in 100..117 {
        pads.observe(event(id));
    }
    assert_eq!(pads.active_mask(), u16::MAX);
    assert_eq!(flush(&mut pads).len(), 16);
    assert_eq!(pads.sent_device(15).unwrap().id, 115);
}

#[test]
fn failed_state_packet_retries_without_reannouncing() {
    let mut pads = Gamepads::new();
    let held = GamepadEvent {
        buttons: 1,
        ..event(1)
    };
    pads.observe(held);
    pads.sync(|packet| match packet {
        Packet::Arrival { .. } => Ok(()),
        Packet::State { .. } => Err(InputError::ConnectionInactive),
    })
    .unwrap_err();
    assert_eq!(
        flush(&mut pads),
        vec![Packet::State {
            slot: 0,
            mask: 1,
            state: translate(held)
        }]
    );
}

#[test]
fn focus_loss_releases_every_device_and_session_restart_reannounces() {
    let mut pads = Gamepads::new();
    pads.observe(GamepadEvent {
        buttons: 1,
        ..event(1)
    });
    pads.observe(event(2));
    flush(&mut pads);
    pads.reset_session();
    assert_eq!(flush(&mut pads).len(), 3);
    pads.release_devices();
    assert_eq!(
        flush(&mut pads),
        vec![
            Packet::State {
                slot: 0,
                mask: 2,
                state: ControllerState::default()
            },
            Packet::State {
                slot: 1,
                mask: 0,
                state: ControllerState::default()
            },
        ]
    );
    assert_eq!(pads.active_mask(), 0);
}

#[test]
fn packets_are_planned_one_at_a_time() {
    let mut pads = Gamepads::new();
    pads.observe(event(7));
    assert_eq!(pads.next_packet(), Some(Packet::Arrival { slot: 0, mask: 1 }));
    assert_eq!(pads.next_packet(), Some(Packet::Arrival { slot: 0, mask: 1 }));
    pads.commit();
    assert_eq!(pads.next_packet(), None);
    assert!(pads.sync(|_| Err(InputError::ConnectionInactive)).is_ok());
}

#[test]
fn releasing_input_sends_every_release_and_keeps_the_first_error() {
    let mut input = PressedInput::new();
    input.record_key(0x42, InputAction::Press);
    input.record_key(0x41, InputAction::Press);
    input.record_mouse_button(PointerButton::Middle, true);
    let sent = RefCell::new(Vec::new());
    let result = input.release_all(
        true,
        |key| {
            sent.borrow_mut().push(format!("key {key:#x}"));
            if key == 0x41 {
                Err(InputError::Core {
                    operation: "keyboard",
                    code: -1,
                })
            } else {
                Err(InputError::ConnectionInactive)
            }
        },
        |button| {
            sent.borrow_mut().push(format!("button {button:?}"));
            Ok(())
        },
    );
    assert_eq!(
        result,
        Err(InputError::Core {
            operation: "keyboard",
            code: -1
        })
    );
    assert_eq!(
        sent.into_inner(),
        vec!["key 0x41", "key 0x42", "button Middle"]
    );
    assert!(input.release_all(false, |_| panic!("not connected"), |_| panic!("not connected")).is_ok());
    let plan = input.take_release_plan();
    assert!(plan.keys.is_empty() && plan.buttons.is_empty());
}
