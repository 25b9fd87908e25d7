use mirl_minifb::input::{
    map_keycode_to_minifb, map_minifb_to_keycode, map_mouse_button_to_minifb, KeyCode,
    MinifbKey, MinifbMouseButton, MouseButton,
};

fn all_minifb_keys() -> Vec<MinifbKey> {
    vec![
        MinifbKey::Key0,
        MinifbKey::Key1,
        MinifbKey::Key2,
        MinifbKey::Key3,
        MinifbKey::Key4,
        MinifbKey::Key5,
        MinifbKey::Key6,
        MinifbKey::Key7,
        MinifbKey::Key8,
        MinifbKey::Key9,
        MinifbKey::A,
        MinifbKey::B,
        MinifbKey::C,
        MinifbKey::D,
        MinifbKey::E,
        MinifbKey::F,
        MinifbKey::G,
        MinifbKey::H,
        MinifbKey::I,
        MinifbKey::J,
        MinifbKey::K,
        MinifbKey::L,
        MinifbKey::M,
        MinifbKey::N,
        MinifbKey::O,
        MinifbKey::P,
        MinifbKey::Q,
        MinifbKey::R,
        MinifbKey::S,
        MinifbKey::T,
        MinifbKey::U,
        MinifbKey::V,
        MinifbKey::W,
        MinifbKey::X,
        MinifbKey::Y,
        MinifbKey::Z,
        MinifbKey::F1,
        MinifbKey::F2,
        MinifbKey::F3,
        MinifbKey::F4,
        MinifbKey::F5,
        MinifbKey::F6,
        MinifbKey::F7,
        MinifbKey::F8,
        MinifbKey::F9,
        MinifbKey::F10,
        MinifbKey::F11,
        MinifbKey::F12,
        MinifbKey::F13,
        MinifbKey::F14,
        MinifbKey::F15,
        MinifbKey::Down,
        MinifbKey::Left,
        MinifbKey::Right,
        MinifbKey::Up,
        MinifbKey::Apostrophe,
        MinifbKey::Backquote,
        MinifbKey::Backslash,
        MinifbKey::Comma,
        MinifbKey::Equal,
        MinifbKey::LeftBracket,
        MinifbKey::Minus,
        MinifbKey::Period,
        MinifbKey::RightBracket,
        MinifbKey::Semicolon,
        MinifbKey::Slash,
        MinifbKey::Backspace,
        MinifbKey::Delete,
        MinifbKey::End,
        MinifbKey::Enter,
        MinifbKey::Escape,
        MinifbKey::Home,
        MinifbKey::Insert,
        MinifbKey::Menu,
        MinifbKey::PageDown,
        MinifbKey::PageUp,
        MinifbKey::Pause,
        MinifbKey::Space,
        MinifbKey::Tab,
        MinifbKey::NumLock,
        MinifbKey::CapsLock,
        MinifbKey::ScrollLock,
        MinifbKey::LeftShift,
        MinifbKey::RightShift,
        MinifbKey::LeftCtrl,
        MinifbKey::RightCtrl,
        MinifbKey::NumPad0,
        MinifbKey::NumPad1,
        MinifbKey::NumPad2,
        MinifbKey::NumPad3,
        MinifbKey::NumPad4,
        MinifbKey::NumPad5,
        MinifbKey::NumPad6,
        MinifbKey::NumPad7,
        MinifbKey::NumPad8,
        MinifbKey::NumPad9,
        MinifbKey::NumPadDot,
        MinifbKey::NumPadSlash,
        MinifbKey::NumPadAsterisk,
        MinifbKey::NumPadMinus,
        MinifbKey::NumPadPlus,
        MinifbKey::NumPadEnter,
        MinifbKey::LeftAlt,
        MinifbKey::RightAlt,
        MinifbKey::LeftSuper,
        MinifbKey::RightSuper,
        MinifbKey::Unknown,
        MinifbKey::Count,
    ]
}

#[test]
fn keycode_letters_numbers_and_function_keys() {
    assert_eq!(map_keycode_to_minifb(KeyCode::KeyA), MinifbKey::A);
    assert_eq!(map_keycode_to_minifb(KeyCode::KeyZ), MinifbKey::Z);
    assert_eq!(map_keycode_to_minifb(KeyCode::Num0), MinifbKey::Key0);
    assert_eq!(map_keycode_to_minifb(KeyCode::KeyPad5), MinifbKey::NumPad5);
    assert_eq!(map_keycode_to_minifb(KeyCode::F15), MinifbKey::F15);
}

#[test]
fn keycode_renamed_keys() {
    assert_eq!(map_keycode_to_minifb(KeyCode::LeftControl), MinifbKey::LeftCtrl);
    assert_eq!(map_keycode_to_minifb(KeyCode::RightControl), MinifbKey::RightCtrl);
    assert_eq!(map_keycode_to_minifb(KeyCode::Quote), MinifbKey::Apostrophe);
    assert_eq!(map_keycode_to_minifb(KeyCode::UpArrow), MinifbKey::Up);
    assert_eq!(map_keycode_to_minifb(KeyCode::LeftArrow), MinifbKey::Left);
}

#[test]
fn keycode_keypad_aliases_share_main_keys() {
    assert_eq!(map_keycode_to_minifb(KeyCode::KeyPadEnter), MinifbKey::Enter);
    assert_eq!(map_keycode_to_minifb(KeyCode::KeyPadSubtract), MinifbKey::Minus);
    assert_eq!(map_keycode_to_minifb(KeyCode::KeyPadDivide), MinifbKey::Slash);
}

#[test]
fn keycode_without_minifb_key_is_unknown() {
    assert_eq!(map_keycode_to_minifb(KeyCode::Grave), MinifbKey::Unknown);
    assert_eq!(map_keycode_to_minifb(KeyCode::KeyPadDecimal), MinifbKey::Unknown);
    assert_eq!(map_keycode_to_minifb(KeyCode::KeyPadMultiply), MinifbKey::Unknown);
    assert_eq!(map_keycode_to_minifb(KeyCode::KeyPadAdd), MinifbKey::Unknown);
    assert_eq!(map_keycode_to_minifb(KeyCode::Unknown), MinifbKey::Unknown);
}

#[test]
fn minifb_keys_only_minifb_pairs() {
    assert_eq!(map_minifb_to_keycode(MinifbKey::Backquote), KeyCode::Grave);
    assert_eq!(map_minifb_to_keycode(MinifbKey::NumPadDot), KeyCode::KeyPadDecimal);
    assert_eq!(map_minifb_to_keycode(MinifbKey::NumPadSlash), KeyCode::KeyPadDivide);
    assert_eq!(map_minifb_to_keycode(MinifbKey::NumPadAsterisk), KeyCode::KeyPadMultiply);
    assert_eq!(map_minifb_to_keycode(MinifbKey::NumPadMinus), KeyCode::KeyPadSubtract);
    assert_eq!(map_minifb_to_keycode(MinifbKey::NumPadPlus), KeyCode::KeyPadAdd);
    assert_eq!(map_minifb_to_keycode(MinifbKey::NumPadEnter), KeyCode::KeyPadEnter);
    assert_eq!(map_minifb_to_keycode(MinifbKey::Count), KeyCode::Unknown);
    assert_eq!(map_minifb_to_keycode(MinifbKey::Unknown), KeyCode::Unknown);
    assert_eq!(map_minifb_to_keycode(MinifbKey::Apostrophe), KeyCode::Quote);
    assert_eq!(map_minifb_to_keycode(MinifbKey::RightCtrl), KeyCode::RightControl);
}

#[test]
fn minifb_key_round_trip_outside_keypad_extras() {
    let extras = [
        MinifbKey::Backquote,
        MinifbKey::NumPadDot,
        MinifbKey::NumPadSlash,
        MinifbKey::NumPadAsterisk,
        MinifbKey::NumPadMinus,
        MinifbKey::NumPadPlus,
        MinifbKey::NumPadEnter,
        MinifbKey::Count,
    ];
    let keys = all_minifb_keys();
    assert_eq!(keys.len(), 108);
    for key in keys {
        let back = map_keycode_to_minifb(map_minifb_to_keycode(key));
        if extras.contains(&key) {
            assert_ne!(back, key);
        } else {
            assert_eq!(back, key);
        }
    }
}

#[test]
fn keycode_round_trip_for_keys_minifb_names() {
    for mkey in all_minifb_keys() {
        let key = map_minifb_to_keycode(mkey);
        let there = map_keycode_to_minifb(key);
        if (there != MinifbKey::Unknown || key == KeyCode::Unknown)
            && key != KeyCode::KeyPadEnter
            && key != KeyCode::KeyPadSubtract
            && key != KeyCode::KeyPadDivide
        {
            assert_eq!(map_minifb_to_keycode(there), key);
        }
        assert_ne!(there, MinifbKey::Count);
    }
    assert_eq!(map_minifb_to_keycode(map_keycode_to_minifb(KeyCode::KeyPadEnter)), KeyCode::Enter);
}

#[test]
fn mouse_buttons_minifb_knows() {
    assert_eq!(map_mouse_button_to_minifb(MouseButton::Left), Some(MinifbMouseButton::Left));
    assert_eq!(map_mouse_button_to_minifb(MouseButton::Right), Some(MinifbMouseButton::Right));
    assert_eq!(map_mouse_button_to_minifb(MouseButton::Middle), Some(MinifbMouseButton::Middle));
}

#[test]
fn mouse_buttons_minifb_lacks() {
    for b in [
        MouseButton::Extra1,
        MouseButton::Extra2,
        MouseButton::Extra3,
        MouseButton::Extra4,
        MouseButton::Unsupported,
    ] {
        assert_eq!(map_mouse_button_to_minifb(b), None);
    }
}
