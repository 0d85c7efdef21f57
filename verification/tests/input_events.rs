use bevy_3ds::input::button::{convert_key, for_each_key, update_state};
use bevy_3ds::input::{
    gamepad_startup_system, ButtonValue, GamepadButton, GamepadButtonEvent, KeyPad, GAMEPAD, KEY_A,
    KEY_B, KEY_DDOWN, KEY_DLEFT, KEY_DRIGHT, KEY_DUP, KEY_L, KEY_R, KEY_SELECT, KEY_START, KEY_X,
    KEY_Y, KEY_ZL, KEY_ZR,
};

fn pad(bits: u32) -> KeyPad {
    KeyPad::from_bits(bits)
}

fn ev(button: GamepadButton, value: ButtonValue) -> GamepadButtonEvent {
    GamepadButtonEvent { gamepad: GAMEPAD, button, value }
}

const ALL_KEYS: [u32; 14] = [
    KEY_A, KEY_B, KEY_DDOWN, KEY_DLEFT, KEY_DRIGHT, KEY_DUP, KEY_L, KEY_R, KEY_SELECT, KEY_START,
    KEY_X, KEY_Y, KEY_ZL, KEY_ZR,
];

#[test]
fn convert_key_maps_each_key() {
    assert_eq!(convert_key(pad(KEY_A)), Some(GamepadButton::East));
    assert_eq!(convert_key(pad(KEY_B)), Some(GamepadButton::South));
    assert_eq!(convert_key(pad(KEY_DDOWN)), Some(GamepadButton::DPadDown));
    assert_eq!(convert_key(pad(KEY_DLEFT)), Some(GamepadButton::DPadLeft));
    assert_eq!(convert_key(pad(KEY_DRIGHT)), Some(GamepadButton::DPadRight));
    assert_eq!(convert_key(pad(KEY_DUP)), Some(GamepadButton::DPadUp));
    assert_eq!(convert_key(pad(KEY_L)), Some(GamepadButton::LeftTrigger));
    assert_eq!(convert_key(pad(KEY_R)), Some(GamepadButton::RightTrigger));
    assert_eq!(convert_key(pad(KEY_SELECT)), Some(GamepadButton::Select));
    assert_eq!(convert_key(pad(KEY_START)), Some(GamepadButton::Start));
    assert_eq!(convert_key(pad(KEY_X)), Some(GamepadButton::North));
    assert_eq!(convert_key(pad(KEY_Y)), Some(GamepadButton::West));
    assert_eq!(convert_key(pad(KEY_ZL)), Some(GamepadButton::LeftTrigger2));
    assert_eq!(convert_key(pad(KEY_ZR)), Some(GamepadButton::RightTrigger2));
}

#[test]
fn convert_key_rejects_other_values() {
    assert_eq!(convert_key(pad(0)), None);
    assert_eq!(convert_key(pad(KEY_A | KEY_B)), None);
    // the touch screen bit
    assert_eq!(convert_key(pad(1 << 20)), None);
    assert_eq!(convert_key(pad(u32::MAX)), None);
}

#[test]
fn convert_key_buttons_are_distinct() {
    let mut buttons = Vec::new();
    for k in ALL_KEYS {
        let b = convert_key(pad(k)).unwrap();
        assert!(!buttons.contains(&b));
        buttons.push(b);
    }
}

#[test]
fn key_pad_contains() {
    let p = pad(KEY_A | KEY_START);
    assert!(p.contains(pad(KEY_A)));
    assert!(p.contains(pad(KEY_START)));
    assert!(p.contains(pad(KEY_A | KEY_START)));
    assert!(!p.contains(pad(KEY_B)));
    assert!(!p.contains(pad(KEY_A | KEY_B)));
    assert!(p.contains(pad(0)));
}

#[test]
fn for_each_key_keeps_report_order() {
    let keys = for_each_key(pad(KEY_ZR | KEY_START | KEY_A));
    assert_eq!(keys, vec![pad(KEY_A), pad(KEY_START), pad(KEY_ZR)]);
}

#[test]
fn for_each_key_all_and_none() {
    let keys = for_each_key(pad(u32::MAX));
    let expected: Vec<KeyPad> = ALL_KEYS.iter().map(|k| pad(*k)).collect();
    assert_eq!(keys, expected);
    assert!(for_each_key(pad(0)).is_empty());
    assert!(for_each_key(pad(1 << 20 | 1 << 31)).is_empty());
}

#[test]
fn update_state_reports_down_held_up() {
    let events = update_state(pad(KEY_A), pad(KEY_DUP), pad(KEY_B));
    assert_eq!(
        events,
        vec![
            ev(GamepadButton::East, ButtonValue::Pressed),
            ev(GamepadButton::DPadUp, ButtonValue::Pressed),
            ev(GamepadButton::South, ButtonValue::Released),
        ]
    );
}

#[test]
fn update_state_orders_within_each_group() {
    let events = update_state(pad(KEY_Y | KEY_B), pad(0), pad(KEY_ZL | KEY_SELECT));
    assert_eq!(
        events,
        vec![
            ev(GamepadButton::South, ButtonValue::Pressed),
            ev(GamepadButton::West, ButtonValue::Pressed),
            ev(GamepadButton::Select, ButtonValue::Released),
            ev(GamepadButton::LeftTrigger2, ButtonValue::Released),
        ]
    );
}

#[test]
fn update_state_same_key_down_and_held() {
    let events = update_state(pad(KEY_X), pad(KEY_X), pad(0));
    assert_eq!(
        events,
        vec![
            ev(GamepadButton::North, ButtonValue::Pressed),
            ev(GamepadButton::North, ButtonValue::Pressed),
        ]
    );
}

#[test]
fn update_state_ignores_unreported_keys() {
    assert!(update_state(pad(1 << 20), pad(1 << 28), pad(1 << 24)).is_empty());
    assert!(update_state(pad(0), pad(0), pad(0)).is_empty());
}

#[test]
fn update_state_all_events_on_gamepad_zero() {
    let events = update_state(pad(u32::MAX), pad(u32::MAX), pad(u32::MAX));
    assert_eq!(events.len(), 42);
    assert!(events.iter().all(|e| e.gamepad == 0));
    assert_eq!(events.iter().filter(|e| e.value == ButtonValue::Released).count(), 14);
}

#[test]
fn startup_announces_gamepad() {
    let c = gamepad_startup_system();
    assert_eq!(c.gamepad, 0);
    assert_eq!(c.name, "3DS Gamepad");
}
