//! The keyboard and mouse buttons of the backend and of minifb, and the
//! translations between them.
use vstd::prelude::*;

verus! {

/// A key of the keyboard, as the windowing layer names it.
#[derive(Debug, Clone, Copy, PartialEq, Eq, Structural, Hash)]
pub enum KeyCode {
    KeyA,
    KeyB,
    KeyC,
    KeyD,
    KeyE,
    KeyF,
    KeyG,
    KeyH,
    KeyI,
    KeyJ,
    KeyK,
    KeyL,
    KeyM,
    KeyN,
    KeyO,
    KeyP,
    KeyQ,
    KeyR,
    KeyS,
    KeyT,
    KeyU,
    KeyV,
    KeyW,
    KeyX,
    KeyY,
    KeyZ,
    Num0,
    Num1,
    Num2,
    Num3,
    Num4,
    Num5,
    Num6,
    Num7,
    Num8,
    Num9,
    KeyPad0,
    KeyPad1,
    KeyPad2,
    KeyPad3,
    KeyPad4,
    KeyPad5,
    KeyPad6,
    KeyPad7,
    KeyPad8,
    KeyPad9,
    F1,
    F2,
    F3,
    F4,
    F5,
    F6,
    F7,
    F8,
    F9,
    F10,
    F11,
    F12,
    F13,
    F14,
    F15,
    LeftShift,
    RightShift,
    LeftControl,
    RightControl,
    LeftAlt,
    RightAlt,
    LeftSuper,
    RightSuper,
    Space,
    Enter,
    Escape,
    Backspace,
    Tab,
    UpArrow,
    DownArrow,
    LeftArrow,
    RightArrow,
    Comma,
    Period,
    Minus,
    Equal,
    LeftBracket,
    RightBracket,
    Backslash,
    Semicolon,
    Quote,
    ScrollLock,
    CapsLock,
    NumLock,
    Insert,
    Delete,
    Home,
    End,
    PageUp,
    PageDown,
    Slash,
    Menu,
    Pause,
    Unknown,
    KeyPadEnter,
    KeyPadSubtract,
    KeyPadDivide,
    Grave,
    KeyPadDecimal,
    KeyPadMultiply,
    KeyPadAdd,
}

/// A key of the keyboard, as minifb names it (`minifb::Key`).
#[derive(Debug, Clone, Copy, PartialEq, Eq, Structural, Hash)]
pub enum MinifbKey {
    Key0,
    Key1,
    Key2,
    Key3,
    Key4,
    Key5,
    Key6,
    Key7,
    Key8,
    Key9,
    A,
    B,
    C,
    D,
    E,
    F,
    G,
    H,
    I,
    J,
    K,
    L,
    M,
    N,
    O,
    P,
    Q,
    R,
    S,
    T,
    U,
    V,
    W,
    X,
    Y,
    Z,
    F1,
    F2,
    F3,
    F4,
    F5,
    F6,
    F7,
    F8,
    F9,
    F10,
    F11,
    F12,
    F13,
    F14,
    F15,
    Down,
    Left,
    Right,
    Up,
    Apostrophe,
    Backquote,
    Backslash,
    Comma,
    Equal,
    LeftBracket,
    Minus,
    Period,
    RightBracket,
    Semicolon,
    Slash,
    Backspace,
    Delete,
    End,
    Enter,
    Escape,
    Home,
    Insert,
    Menu,
    PageDown,
    PageUp,
    Pause,
    Space,
    Tab,
    NumLock,
    CapsLock,
    ScrollLock,
    LeftShift,
    RightShift,
    LeftCtrl,
    RightCtrl,
    NumPad0,
    NumPad1,
    NumPad2,
    NumPad3,
    NumPad4,
    NumPad5,
    NumPad6,
    NumPad7,
    NumPad8,
    NumPad9,
    NumPadDot,
    NumPadSlash,
    NumPadAsterisk,
    NumPadMinus,
    NumPadPlus,
    NumPadEnter,
    LeftAlt,
    RightAlt,
    LeftSuper,
    RightSuper,
    Unknown,
    Count,
}

/// The keys that both sides know, one for one: the key of minifb that
/// `key` is, if it is one of them.
pub open spec fn paired_minifb_key(key: KeyCode) -> Option<MinifbKey> {
    match key {
        KeyCode::KeyA => Some(MinifbKey::A),
        KeyCode::KeyB => Some(MinifbKey::B),
        KeyCode::KeyC => Some(MinifbKey::C),
        KeyCode::KeyD => Some(MinifbKey::D),
        KeyCode::KeyE => Some(MinifbKey::E),
        KeyCode::KeyF => Some(MinifbKey::F),
        KeyCode::KeyG => Some(MinifbKey::G),
        KeyCode::KeyH => Some(MinifbKey::H),
        KeyCode::KeyI => Some(MinifbKey::I),
        KeyCode::KeyJ => Some(MinifbKey::J),
        KeyCode::KeyK => Some(MinifbKey::K),
        KeyCode::KeyL => Some(MinifbKey::L),
        KeyCode::KeyM => Some(MinifbKey::M),
        KeyCode::KeyN => Some(MinifbKey::N),
        KeyCode::KeyO => Some(MinifbKey::O),
        KeyCode::KeyP => Some(MinifbKey::P),
        KeyCode::KeyQ => Some(MinifbKey::Q),
        KeyCode::KeyR => Some(MinifbKey::R),
        KeyCode::KeyS => Some(MinifbKey::S),
        KeyCode::KeyT => Some(MinifbKey::T),
        KeyCode::KeyU => Some(MinifbKey::U),
        KeyCode::KeyV => Some(MinifbKey::V),
        KeyCode::KeyW => Some(MinifbKey::W),
        KeyCode::KeyX => Some(MinifbKey::X),
        KeyCode::KeyY => Some(MinifbKey::Y),
        KeyCode::KeyZ => Some(MinifbKey::Z),
        KeyCode::Num0 => Some(MinifbKey::Key0),
        KeyCode::Num1 => Some(MinifbKey::Key1),
        KeyCode::Num2 => Some(MinifbKey::Key2),
        KeyCode::Num3 => Some(MinifbKey::Key3),
        KeyCode::Num4 => Some(MinifbKey::Key4),
        KeyCode::Num5 => Some(MinifbKey::Key5),
        KeyCode::Num6 => Some(MinifbKey::Key6),
        KeyCode::Num7 => Some(MinifbKey::Key7),
        KeyCode::Num8 => Some(MinifbKey::Key8),
        KeyCode::Num9 => Some(MinifbKey::Key9),
        KeyCode::KeyPad0 => Some(MinifbKey::NumPad0),
        KeyCode::KeyPad1 => Some(MinifbKey::NumPad1),
        KeyCode::KeyPad2 => Some(MinifbKey::NumPad2),
        KeyCode::KeyPad3 => Some(MinifbKey::NumPad3),
        KeyCode::KeyPad4 => Some(MinifbKey::NumPad4),
        KeyCode::KeyPad5 => Some(MinifbKey::NumPad5),
        KeyCode::KeyPad6 => Some(MinifbKey::NumPad6),
        KeyCode::KeyPad7 => Some(MinifbKey::NumPad7),
        KeyCode::KeyPad8 => Some(MinifbKey::NumPad8),
        KeyCode::KeyPad9 => Some(MinifbKey::NumPad9),
        KeyCode::F1 => Some(MinifbKey::F1),
        KeyCode::F2 => Some(MinifbKey::F2),
        KeyCode::F3 => Some(MinifbKey::F3),
        KeyCode::F4 => Some(MinifbKey::F4),
        KeyCode::F5 => Some(MinifbKey::F5),
        KeyCode::F6 => Some(MinifbKey::F6),
        KeyCode::F7 => Some(MinifbKey::F7),
        KeyCode::F8 => Some(MinifbKey::F8),
        KeyCode::F9 => Some(MinifbKey::F9),
        KeyCode::F10 => Some(MinifbKey::F10),
        KeyCode::F11 => Some(MinifbKey::F11),
        KeyCode::F12 => Some(MinifbKey::F12),
        KeyCode::F13 => Some(MinifbKey::F13),
        KeyCode::F14 => Some(MinifbKey::F14),
        KeyCode::F15 => Some(MinifbKey::F15),
        KeyCode::LeftShift => Some(MinifbKey::LeftShift),
        KeyCode::RightShift => Some(MinifbKey::RightShift),
        KeyCode::LeftControl => Some(MinifbKey::LeftCtrl),
        KeyCode::RightControl => Some(MinifbKey::RightCtrl),
        KeyCode::LeftAlt => Some(MinifbKey::LeftAlt),
        KeyCode::RightAlt => Some(MinifbKey::RightAlt),
        KeyCode::LeftSuper => Some(MinifbKey::LeftSuper),
        KeyCode::RightSuper => Some(MinifbKey::RightSuper),
        KeyCode::Space => Some(MinifbKey::Space),
        KeyCode::Enter => Some(MinifbKey::Enter),
        KeyCode::Escape => Some(MinifbKey::Escape),
        KeyCode::Backspace => Some(MinifbKey::Backspace),
        KeyCode::Tab => Some(MinifbKey::Tab),
        KeyCode::UpArrow => Some(MinifbKey::Up),
        KeyCode::DownArrow => Some(MinifbKey::Down),
        KeyCode::LeftArrow => Some(MinifbKey::Left),
        KeyCode::RightArrow => Some(MinifbKey::Right),
        KeyCode::Comma => Some(MinifbKey::Comma),
        KeyCode::Period => Some(MinifbKey::Period),
        KeyCode::Minus => Some(MinifbKey::Minus),
        KeyCode::Equal => Some(MinifbKey::Equal),
        KeyCode::LeftBracket => Some(MinifbKey::LeftBracket),
        KeyCode::RightBracket => Some(MinifbKey::RightBracket),
        KeyCode::Backslash => Some(MinifbKey::Backslash),
        KeyCode::Semicolon => Some(MinifbKey::Semicolon),
        KeyCode::Quote => Some(MinifbKey::Apostrophe),
        KeyCode::ScrollLock => Some(MinifbKey::ScrollLock),
        KeyCode::CapsLock => Some(MinifbKey::CapsLock),
        KeyCode::NumLock => Some(MinifbKey::NumLock),
        KeyCode::Insert => Some(MinifbKey::Insert),
        KeyCode::Delete => Some(MinifbKey::Delete),
        KeyCode::Home => Some(MinifbKey::Home),
        KeyCode::End => Some(MinifbKey::End),
        KeyCode::PageUp => Some(MinifbKey::PageUp),
        KeyCode::PageDown => Some(MinifbKey::PageDown),
        KeyCode::Slash => Some(MinifbKey::Slash),
        KeyCode::Menu => Some(MinifbKey::Menu),
        KeyCode::Pause => Some(MinifbKey::Pause),
        KeyCode::Unknown => Some(MinifbKey::Unknown),
        _ => None,
    }
}

/// The same pairing read from minifb's side: the key that `key` is, if it is
/// one of the keys that both sides know.
pub open spec fn paired_keycode(key: MinifbKey) -> Option<KeyCode> {
    match key {
        MinifbKey::A => Some(KeyCode::KeyA),
        MinifbKey::B => Some(KeyCode::KeyB),
        MinifbKey::C => Some(KeyCode::KeyC),
        MinifbKey::D => Some(KeyCode::KeyD),
        MinifbKey::E => Some(KeyCode::KeyE),
        MinifbKey::F => Some(KeyCode::KeyF),
        MinifbKey::G => Some(KeyCode::KeyG),
        MinifbKey::H => Some(KeyCode::KeyH),
        MinifbKey::I => Some(KeyCode::KeyI),
        MinifbKey::J => Some(KeyCode::KeyJ),
        MinifbKey::K => Some(KeyCode::KeyK),
        MinifbKey::L => Some(KeyCode::KeyL),
        MinifbKey::M => Some(KeyCode::KeyM),
        MinifbKey::N => Some(KeyCode::KeyN),
        MinifbKey::O => Some(KeyCode::KeyO),
        MinifbKey::P => Some(KeyCode::KeyP),
        MinifbKey::Q => Some(KeyCode::KeyQ),
        MinifbKey::R => Some(KeyCode::KeyR),
        MinifbKey::S => Some(KeyCode::KeyS),
        MinifbKey::T => Some(KeyCode::KeyT),
        MinifbKey::U => Some(KeyCode::KeyU),
        MinifbKey::V => Some(KeyCode::KeyV),
        MinifbKey::W => Some(KeyCode::KeyW),
        MinifbKey::X => Some(KeyCode::KeyX),
        MinifbKey::Y => Some(KeyCode::KeyY),
        MinifbKey::Z => Some(KeyCode::KeyZ),
        MinifbKey::Key0 => Some(KeyCode::Num0),
        MinifbKey::Key1 => Some(KeyCode::Num1),
        MinifbKey::Key2 => Some(KeyCode::Num2),
        MinifbKey::Key3 => Some(KeyCode::Num3),
        MinifbKey::Key4 => Some(KeyCode::Num4),
        MinifbKey::Key5 => Some(KeyCode::Num5),
        MinifbKey::Key6 => Some(KeyCode::Num6),
        MinifbKey::Key7 => Some(KeyCode::Num7),
        MinifbKey::Key8 => Some(KeyCode::Num8),
        MinifbKey::Key9 => Some(KeyCode::Num9),
        MinifbKey::NumPad0 => Some(KeyCode::KeyPad0),
        MinifbKey::NumPad1 => Some(KeyCode::KeyPad1),
        MinifbKey::NumPad2 => Some(KeyCode::KeyPad2),
        MinifbKey::NumPad3 => Some(KeyCode::KeyPad3),
        MinifbKey::NumPad4 => Some(KeyCode::KeyPad4),
        MinifbKey::NumPad5 => Some(KeyCode::KeyPad5),
        MinifbKey::NumPad6 => Some(KeyCode::KeyPad6),
        MinifbKey::NumPad7 => Some(KeyCode::KeyPad7),
        MinifbKey::NumPad8 => Some(KeyCode::KeyPad8),
        MinifbKey::NumPad9 => Some(KeyCode::KeyPad9),
        MinifbKey::F1 => Some(KeyCode::F1),
        MinifbKey::F2 => Some(KeyCode::F2),
        MinifbKey::F3 => Some(KeyCode::F3),
        MinifbKey::F4 => Some(KeyCode::F4),
        MinifbKey::F5 => Some(KeyCode::F5),
        MinifbKey::F6 => Some(KeyCode::F6),
        MinifbKey::F7 => Some(KeyCode::F7),
        MinifbKey::F8 => Some(KeyCode::F8),
        MinifbKey::F9 => Some(KeyCode::F9),
        MinifbKey::F10 => Some(KeyCode::F10),
        MinifbKey::F11 => Some(KeyCode::F11),
        MinifbKey::F12 => Some(KeyCode::F12),
        MinifbKey::F13 => Some(KeyCode::F13),
        MinifbKey::F14 => Some(KeyCode::F14),
        MinifbKey::F15 => Some(KeyCode::F15),
        MinifbKey::LeftShift => Some(KeyCode::LeftShift),
        MinifbKey::RightShift => Some(KeyCode::RightShift),
        MinifbKey::LeftCtrl => Some(KeyCode::LeftControl),
        MinifbKey::RightCtrl => Some(KeyCode::RightControl),
        MinifbKey::LeftAlt => Some(KeyCode::LeftAlt),
        MinifbKey::RightAlt => Some(KeyCode::RightAlt),
        MinifbKey::LeftSuper => Some(KeyCode::LeftSuper),
        MinifbKey::RightSuper => Some(KeyCode::RightSuper),
        MinifbKey::Space => Some(KeyCode::Space),
        MinifbKey::Enter => Some(KeyCode::Enter),
        MinifbKey::Escape => Some(KeyCode::Escape),
        MinifbKey::Backspace => Some(KeyCode::Backspace),
        MinifbKey::Tab => Some(KeyCode::Tab),
        MinifbKey::Up => Some(KeyCode::UpArrow),
        MinifbKey::Down => Some(KeyCode::DownArrow),
        MinifbKey::Left => Some(KeyCode::LeftArrow),
        MinifbKey::Right => Some(KeyCode::RightArrow),
        MinifbKey::Comma => Some(KeyCode::Comma),
        MinifbKey::Period => Some(KeyCode::Period),
        MinifbKey::Minus => Some(KeyCode::Minus),
        MinifbKey::Equal => Some(KeyCode::Equal),
        MinifbKey::LeftBracket => Some(KeyCode::LeftBracket),
        MinifbKey::RightBracket => Some(KeyCode::RightBracket),
        MinifbKey::Backslash => Some(KeyCode::Backslash),
        MinifbKey::Semicolon => Some(KeyCode::Semicolon),
        MinifbKey::Apostrophe => Some(KeyCode::Quote),
        MinifbKey::ScrollLock => Some(KeyCode::ScrollLock),
        MinifbKey::CapsLock => Some(KeyCode::CapsLock),
        MinifbKey::NumLock => Some(KeyCode::NumLock),
        MinifbKey::Insert => Some(KeyCode::Insert),
        MinifbKey::Delete => Some(KeyCode::Delete),
        MinifbKey::Home => Some(KeyCode::Home),
        MinifbKey::End => Some(KeyCode::End),
        MinifbKey::PageUp => Some(KeyCode::PageUp),
        MinifbKey::PageDown => Some(KeyCode::PageDown),
        MinifbKey::Slash => Some(KeyCode::Slash),
        MinifbKey::Menu => Some(KeyCode::Menu),
        MinifbKey::Pause => Some(KeyCode::Pause),
        MinifbKey::Unknown => Some(KeyCode::Unknown),
        _ => None,
    }
}

/// The minifb key for `key`: its pair, the main-keyboard key for the
/// keypad's Enter, minus and slash, and `Unknown` for the keys that minifb
/// does not name.
pub open spec fn keycode_to_minifb_spec(key: KeyCode) -> MinifbKey {
    match paired_minifb_key(key) {
        Some(m) => m,
        None => match key {
            KeyCode::KeyPadEnter => MinifbKey::Enter,
            KeyCode::KeyPadSubtract => MinifbKey::Minus,
            KeyCode::KeyPadDivide => MinifbKey::Slash,
            _ => MinifbKey::Unknown,
        },
    }
}

/// The key for the minifb key `key`: its pair, the keypad keys and the
/// backquote that only minifb's side pairs, and `Unknown` for `Count`.
pub open spec fn minifb_to_keycode_spec(key: MinifbKey) -> KeyCode {
    match paired_keycode(key) {
        Some(k) => k,
        None => match key {
            MinifbKey::Backquote => KeyCode::Grave,
            MinifbKey::NumPadDot => KeyCode::KeyPadDecimal,
            MinifbKey::NumPadSlash => KeyCode::KeyPadDivide,
            MinifbKey::NumPadAsterisk => KeyCode::KeyPadMultiply,
            MinifbKey::NumPadMinus => KeyCode::KeyPadSubtract,
            MinifbKey::NumPadPlus => KeyCode::KeyPadAdd,
            MinifbKey::NumPadEnter => KeyCode::KeyPadEnter,
            _ => KeyCode::Unknown,
        },
    }
}

/// Maps a key to the key of minifb that stands for it.
pub fn map_keycode_to_minifb(key: KeyCode) -> (r: MinifbKey)
    ensures
        r == keycode_to_minifb_spec(key),
{
    match key {
        KeyCode::KeyA => MinifbKey::A,
        KeyCode::KeyB => MinifbKey::B,
        KeyCode::KeyC => MinifbKey::C,
        KeyCode::KeyD => MinifbKey::D,
        KeyCode::KeyE => MinifbKey::E,
        KeyCode::KeyF => MinifbKey::F,
        KeyCode::KeyG => MinifbKey::G,
        KeyCode::KeyH => MinifbKey::H,
        KeyCode::KeyI => MinifbKey::I,
        KeyCode::KeyJ => MinifbKey::J,
        KeyCode::KeyK => MinifbKey::K,
        KeyCode::KeyL => MinifbKey::L,
        KeyCode::KeyM => MinifbKey::M,
        KeyCode::KeyN => MinifbKey::N,
        KeyCode::KeyO => MinifbKey::O,
        KeyCode::KeyP => MinifbKey::P,
        KeyCode::KeyQ => MinifbKey::Q,
        KeyCode::KeyR => MinifbKey::R,
        KeyCode::KeyS => MinifbKey::S,
        KeyCode::KeyT => MinifbKey::T,
        KeyCode::KeyU => MinifbKey::U,
        KeyCode::KeyV => MinifbKey::V,
        KeyCode::KeyW => MinifbKey::W,
        KeyCode::KeyX => MinifbKey::X,
        KeyCode::KeyY => MinifbKey::Y,
        KeyCode::KeyZ => MinifbKey::Z,
        KeyCode::Num0 => MinifbKey::Key0,
        KeyCode::Num1 => MinifbKey::Key1,
        KeyCode::Num2 => MinifbKey::Key2,
        KeyCode::Num3 => MinifbKey::Key3,
        KeyCode::Num4 => MinifbKey::Key4,
        KeyCode::Num5 => MinifbKey::Key5,
        KeyCode::Num6 => MinifbKey::Key6,
        KeyCode::Num7 => MinifbKey::Key7,
        KeyCode::Num8 => MinifbKey::Key8,
        KeyCode::Num9 => MinifbKey::Key9,
        KeyCode::KeyPad0 => MinifbKey::NumPad0,
        KeyCode::KeyPad1 => MinifbKey::NumPad1,
        KeyCode::KeyPad2 => MinifbKey::NumPad2,
        KeyCode::KeyPad3 => MinifbKey::NumPad3,
        KeyCode::KeyPad4 => MinifbKey::NumPad4,
        KeyCode::KeyPad5 => MinifbKey::NumPad5,
        KeyCode::KeyPad6 => MinifbKey::NumPad6,
        KeyCode::KeyPad7 => MinifbKey::NumPad7,
        KeyCode::KeyPad8 => MinifbKey::NumPad8,
        KeyCode::KeyPad9 => MinifbKey::NumPad9,
        KeyCode::F1 => MinifbKey::F1,
        KeyCode::F2 => MinifbKey::F2,
        KeyCode::F3 => MinifbKey::F3,
        KeyCode::F4 => MinifbKey::F4,
        KeyCode::F5 => MinifbKey::F5,
        KeyCode::F6 => MinifbKey::F6,
        KeyCode::F7 => MinifbKey::F7,
        KeyCode::F8 => MinifbKey::F8,
        KeyCode::F9 => MinifbKey::F9,
        KeyCode::F10 => MinifbKey::F10,
        KeyCode::F11 => MinifbKey::F11,
        KeyCode::F12 => MinifbKey::F12,
        KeyCode::F13 => MinifbKey::F13,
        KeyCode::F14 => MinifbKey::F14,
        KeyCode::F15 => MinifbKey::F15,
        KeyCode::LeftShift => MinifbKey::LeftShift,
        KeyCode::RightShift => MinifbKey::RightShift,
        KeyCode::LeftControl => MinifbKey::LeftCtrl,
        KeyCode::RightControl => MinifbKey::RightCtrl,
        KeyCode::LeftAlt => MinifbKey::LeftAlt,
        KeyCode::RightAlt => MinifbKey::RightAlt,
        KeyCode::LeftSuper => MinifbKey::LeftSuper,
        KeyCode::RightSuper => MinifbKey::RightSuper,
        KeyCode::Space => MinifbKey::Space,
        KeyCode::Enter => MinifbKey::Enter,
        KeyCode::Escape => MinifbKey::Escape,
        KeyCode::Backspace => MinifbKey::Backspace,
        KeyCode::Tab => MinifbKey::Tab,
        KeyCode::UpArrow => MinifbKey::Up,
        KeyCode::DownArrow => MinifbKey::Down,
        KeyCode::LeftArrow => MinifbKey::Left,
        KeyCode::RightArrow => MinifbKey::Right,
        KeyCode::Comma => MinifbKey::Comma,
        KeyCode::Period => MinifbKey::Period,
        KeyCode::Minus => MinifbKey::Minus,
        KeyCode::Equal => MinifbKey::Equal,
        KeyCode::LeftBracket => MinifbKey::LeftBracket,
        KeyCode::RightBracket => MinifbKey::RightBracket,
        KeyCode::Backslash => MinifbKey::Backslash,
        KeyCode::Semicolon => MinifbKey::Semicolon,
        KeyCode::Quote => MinifbKey::Apostrophe,
        KeyCode::ScrollLock => MinifbKey::ScrollLock,
        KeyCode::CapsLock => MinifbKey::CapsLock,
        KeyCode::NumLock => MinifbKey::NumLock,
        KeyCode::Insert => MinifbKey::Insert,
        KeyCode::Delete => MinifbKey::Delete,
        KeyCode::Home => MinifbKey::Home,
        KeyCode::End => MinifbKey::End,
        KeyCode::PageUp => MinifbKey::PageUp,
        KeyCode::PageDown => MinifbKey::PageDown,
        KeyCode::Slash => MinifbKey::Slash,
        KeyCode::Menu => MinifbKey::Menu,
        KeyCode::Pause => MinifbKey::Pause,
        KeyCode::Unknown => MinifbKey::Unknown,
        KeyCode::KeyPadEnter => MinifbKey::Enter,
        KeyCode::KeyPadSubtract => MinifbKey::Minus,
        KeyCode::KeyPadDivide => MinifbKey::Slash,
        KeyCode::Grave => MinifbKey::Unknown,
        KeyCode::KeyPadDecimal => MinifbKey::Unknown,
        KeyCode::KeyPadMultiply => MinifbKey::Unknown,
        KeyCode::KeyPadAdd => MinifbKey::Unknown,
    }
}

/// Maps a key of minifb to the key that stands for it.
pub fn map_minifb_to_keycode(key: MinifbKey) -> (r: KeyCode)
    ensures
        r == minifb_to_keycode_spec(key),
{
    match key {
        MinifbKey::Key0 => KeyCode::Num0,
        MinifbKey::Key1 => KeyCode::Num1,
        MinifbKey::Key2 => KeyCode::Num2,
        MinifbKey::Key3 => KeyCode::Num3,
        MinifbKey::Key4 => KeyCode::Num4,
        MinifbKey::Key5 => KeyCode::Num5,
        MinifbKey::Key6 => KeyCode::Num6,
        MinifbKey::Key7 => KeyCode::Num7,
        MinifbKey::Key8 => KeyCode::Num8,
        MinifbKey::Key9 => KeyCode::Num9,
        MinifbKey::A => KeyCode::KeyA,
        MinifbKey::B => KeyCode::KeyB,
        MinifbKey::C => KeyCode::KeyC,
        MinifbKey::D => KeyCode::KeyD,
        MinifbKey::E => KeyCode::KeyE,
        MinifbKey::F => KeyCode::KeyF,
        MinifbKey::G => KeyCode::KeyG,
        MinifbKey::H => KeyCode::KeyH,
        MinifbKey::I => KeyCode::KeyI,
        MinifbKey::J => KeyCode::KeyJ,
        MinifbKey::K => KeyCode::KeyK,
        MinifbKey::L => KeyCode::KeyL,
        MinifbKey::M => KeyCode::KeyM,
        MinifbKey::N => KeyCode::KeyN,
        MinifbKey::O => KeyCode::KeyO,
        MinifbKey::P => KeyCode::KeyP,
        MinifbKey::Q => KeyCode::KeyQ,
        MinifbKey::R => KeyCode::KeyR,
        MinifbKey::S => KeyCode::KeyS,
        MinifbKey::T => KeyCode::KeyT,
        MinifbKey::U => KeyCode::KeyU,
        MinifbKey::V => KeyCode::KeyV,
        MinifbKey::W => KeyCode::KeyW,
        MinifbKey::X => KeyCode::KeyX,
        MinifbKey::Y => KeyCode::KeyY,
        MinifbKey::Z => KeyCode::KeyZ,
        MinifbKey::F1 => KeyCode::F1,
        MinifbKey::F2 => KeyCode::F2,
        MinifbKey::F3 => KeyCode::F3,
        MinifbKey::F4 => KeyCode::F4,
        MinifbKey::F5 => KeyCode::F5,
        MinifbKey::F6 => KeyCode::F6,
        MinifbKey::F7 => KeyCode::F7,
        MinifbKey::F8 => KeyCode::F8,
        MinifbKey::F9 => KeyCode::F9,
        MinifbKey::F10 => KeyCode::F10,
        MinifbKey::F11 => KeyCode::F11,
        MinifbKey::F12 => KeyCode::F12,
        MinifbKey::F13 => KeyCode::F13,
        MinifbKey::F14 => KeyCode::F14,
        MinifbKey::F15 => KeyCode::F15,
        MinifbKey::Down => KeyCode::DownArrow,
        MinifbKey::Left => KeyCode::LeftArrow,
        MinifbKey::Right => KeyCode::RightArrow,
        MinifbKey::Up => KeyCode::UpArrow,
        MinifbKey::Apostrophe => KeyCode::Quote,
        MinifbKey::Backquote => KeyCode::Grave,
        MinifbKey::Backslash => KeyCode::Backslash,
        MinifbKey::Comma => KeyCode::Comma,
        MinifbKey::Equal => KeyCode::Equal,
        MinifbKey::LeftBracket => KeyCode::LeftBracket,
        MinifbKey::Minus => KeyCode::Minus,
        MinifbKey::Period => KeyCode::Period,
        MinifbKey::RightBracket => KeyCode::RightBracket,
        MinifbKey::Semicolon => KeyCode::Semicolon,
        MinifbKey::Slash => KeyCode::Slash,
        MinifbKey::Backspace => KeyCode::Backspace,
        MinifbKey::Delete => KeyCode::Delete,
        MinifbKey::End => KeyCode::End,
        MinifbKey::Enter => KeyCode::Enter,
        MinifbKey::Escape => KeyCode::Escape,
        MinifbKey::Home => KeyCode::Home,
        MinifbKey::Insert => KeyCode::Insert,
        MinifbKey::Menu => KeyCode::Menu,
        MinifbKey::PageDown => KeyCode::PageDown,
        MinifbKey::PageUp => KeyCode::PageUp,
        MinifbKey::Pause => KeyCode::Pause,
        MinifbKey::Space => KeyCode::Space,
        MinifbKey::Tab => KeyCode::Tab,
        MinifbKey::NumLock => KeyCode::NumLock,
        MinifbKey::CapsLock => KeyCode::CapsLock,
        MinifbKey::ScrollLock => KeyCode::ScrollLock,
        MinifbKey::LeftShift => KeyCode::LeftShift,
        MinifbKey::RightShift => KeyCode::RightShift,
        MinifbKey::LeftCtrl => KeyCode::LeftControl,
        MinifbKey::RightCtrl => KeyCode::RightControl,
        MinifbKey::NumPad0 => KeyCode::KeyPad0,
        MinifbKey::NumPad1 => KeyCode::KeyPad1,
        MinifbKey::NumPad2 => KeyCode::KeyPad2,
        MinifbKey::NumPad3 => KeyCode::KeyPad3,
        MinifbKey::NumPad4 => KeyCode::KeyPad4,
        MinifbKey::NumPad5 => KeyCode::KeyPad5,
        MinifbKey::NumPad6 => KeyCode::KeyPad6,
        MinifbKey::NumPad7 => KeyCode::KeyPad7,
        MinifbKey::NumPad8 => KeyCode::KeyPad8,
        MinifbKey::NumPad9 => KeyCode::KeyPad9,
        MinifbKey::NumPadDot => KeyCode::KeyPadDecimal,
        MinifbKey::NumPadSlash => KeyCode::KeyPadDivide,
        MinifbKey::NumPadAsterisk => KeyCode::KeyPadMultiply,
        MinifbKey::NumPadMinus => KeyCode::KeyPadSubtract,
        MinifbKey::NumPadPlus => KeyCode::KeyPadAdd,
        MinifbKey::NumPadEnter => KeyCode::KeyPadEnter,
        MinifbKey::LeftAlt => KeyCode::LeftAlt,
        MinifbKey::RightAlt => KeyCode::RightAlt,
        MinifbKey::LeftSuper => KeyCode::LeftSuper,
        MinifbKey::RightSuper => KeyCode::RightSuper,
        MinifbKey::Unknown => KeyCode::Unknown,
        MinifbKey::Count => KeyCode::Unknown,
    }
}

/// The pairing is one for one: a key is paired with a key of minifb exactly
/// when that key of minifb is paired back with it.
pub proof fn law_pairing_one_for_one(key: KeyCode, mkey: MinifbKey)
    ensures
        paired_minifb_key(key) == Some(mkey) <==> paired_keycode(mkey) == Some(key),
{
}

/// A key of minifb other than the keypad keys, the backquote and `Count` comes
/// back unchanged from the translation to the key and back again.
pub proof fn law_minifb_key_round_trip(mkey: MinifbKey)
    requires
        mkey != MinifbKey::Backquote,
        mkey != MinifbKey::NumPadDot,
        mkey != MinifbKey::NumPadSlash,
        mkey != MinifbKey::NumPadAsterisk,
        mkey != MinifbKey::NumPadMinus,
        mkey != MinifbKey::NumPadPlus,
        mkey != MinifbKey::NumPadEnter,
        mkey != MinifbKey::Count,
    ensures
        keycode_to_minifb_spec(minifb_to_keycode_spec(mkey)) == mkey,
{
}

/// A key that minifb names (or `Unknown`), other than the keypad's Enter,
/// minus and slash, which share their minifb key with the main keyboard's,
/// comes back unchanged from the translation to minifb and back again.
pub proof fn law_keycode_round_trip(key: KeyCode)
    requires
        keycode_to_minifb_spec(key) != MinifbKey::Unknown || key == KeyCode::Unknown,
        key != KeyCode::KeyPadEnter,
        key != KeyCode::KeyPadSubtract,
        key != KeyCode::KeyPadDivide,
    ensures
        minifb_to_keycode_spec(keycode_to_minifb_spec(key)) == key,
{
}

/// No key is translated to minifb's `Count`, which is not a key.
pub proof fn law_never_count(key: KeyCode)
    ensures
        keycode_to_minifb_spec(key) != MinifbKey::Count,
{
}

/// Only minifb's `Unknown` and `Count` are translated to `Unknown`.
pub proof fn law_unknown_only_from_unknown(mkey: MinifbKey)
    requires
        minifb_to_keycode_spec(mkey) == KeyCode::Unknown,
    ensures
        mkey == MinifbKey::Unknown || mkey == MinifbKey::Count,
{
}

/// The position in the alphabet (A is 0) of a letter key.
pub open spec fn keycode_letter(key: KeyCode) -> Option<nat> {
    match key {
        KeyCode::KeyA => Some(0),
        KeyCode::KeyB => Some(1),
        KeyCode::KeyC => Some(2),
        KeyCode::KeyD => Some(3),
        KeyCode::KeyE => Some(4),
        KeyCode::KeyF => Some(5),
        KeyCode::KeyG => Some(6),
        KeyCode::KeyH => Some(7),
        KeyCode::KeyI => Some(8),
        KeyCode::KeyJ => Some(9),
        KeyCode::KeyK => Some(10),
        KeyCode::KeyL => Some(11),
        KeyCode::KeyM => Some(12),
        KeyCode::KeyN => Some(13),
        KeyCode::KeyO => Some(14),
        KeyCode::KeyP => Some(15),
        KeyCode::KeyQ => Some(16),
        KeyCode::KeyR => Some(17),
        KeyCode::KeyS => Some(18),
        KeyCode::KeyT => Some(19),
        KeyCode::KeyU => Some(20),
        KeyCode::KeyV => Some(21),
        KeyCode::KeyW => Some(22),
        KeyCode::KeyX => Some(23),
        KeyCode::KeyY => Some(24),
        KeyCode::KeyZ => Some(25),
        _ => None,
    }
}

/// The position in the alphabet (A is 0) of a letter key of minifb.
pub open spec fn minifb_key_letter(key: MinifbKey) -> Option<nat> {
    match key {
        MinifbKey::A => Some(0),
        MinifbKey::B => Some(1),
        MinifbKey::C => Some(2),
        MinifbKey::D => Some(3),
        MinifbKey::E => Some(4),
        MinifbKey::F => Some(5),
        MinifbKey::G => Some(6),
        MinifbKey::H => Some(7),
        MinifbKey::I => Some(8),
        MinifbKey::J => Some(9),
        MinifbKey::K => Some(10),
        MinifbKey::L => Some(11),
        MinifbKey::M => Some(12),
        MinifbKey::N => Some(13),
        MinifbKey::O => Some(14),
        MinifbKey::P => Some(15),
        MinifbKey::Q => Some(16),
        MinifbKey::R => Some(17),
        MinifbKey::S => Some(18),
        MinifbKey::T => Some(19),
        MinifbKey::U => Some(20),
        MinifbKey::V => Some(21),
        MinifbKey::W => Some(22),
        MinifbKey::X => Some(23),
        MinifbKey::Y => Some(24),
        MinifbKey::Z => Some(25),
        _ => None,
    }
}

/// The digit of a key of the row of digits above the letters.
pub open spec fn keycode_top_row_digit(key: KeyCode) -> Option<nat> {
    match key {
        KeyCode::Num0 => Some(0),
        KeyCode::Num1 => Some(1),
        KeyCode::Num2 => Some(2),
        KeyCode::Num3 => Some(3),
        KeyCode::Num4 => Some(4),
        KeyCode::Num5 => Some(5),
        KeyCode::Num6 => Some(6),
        KeyCode::Num7 => Some(7),
        KeyCode::Num8 => Some(8),
        KeyCode::Num9 => Some(9),
        _ => None,
    }
}

/// The digit of a minifb key of the row of digits above the letters.
pub open spec fn minifb_key_top_row_digit(key: MinifbKey) -> Option<nat> {
    match key {
        MinifbKey::Key0 => Some(0),
        MinifbKey::Key1 => Some(1),
        MinifbKey::Key2 => Some(2),
        MinifbKey::Key3 => Some(3),
        MinifbKey::Key4 => Some(4),
        MinifbKey::Key5 => Some(5),
        MinifbKey::Key6 => Some(6),
        MinifbKey::Key7 => Some(7),
        MinifbKey::Key8 => Some(8),
        MinifbKey::Key9 => Some(9),
        _ => None,
    }
}

/// The digit of a digit key of the numeric keypad.
pub open spec fn keycode_keypad_digit(key: KeyCode) -> Option<nat> {
    match key {
        KeyCode::KeyPad0 => Some(0),
        KeyCode::KeyPad1 => Some(1),
        KeyCode::KeyPad2 => Some(2),
        KeyCode::KeyPad3 => Some(3),
        KeyCode::KeyPad4 => Some(4),
        KeyCode::KeyPad5 => Some(5),
        KeyCode::KeyPad6 => Some(6),
        KeyCode::KeyPad7 => Some(7),
        KeyCode::KeyPad8 => Some(8),
        KeyCode::KeyPad9 => Some(9),
        _ => None,
    }
}

/// The digit of a minifb digit key of the numeric keypad.
pub open spec fn minifb_key_keypad_digit(key: MinifbKey) -> Option<nat> {
    match key {
        MinifbKey::NumPad0 => Some(0),
        MinifbKey::NumPad1 => Some(1),
        MinifbKey::NumPad2 => Some(2),
        MinifbKey::NumPad3 => Some(3),
        MinifbKey::NumPad4 => Some(4),
        MinifbKey::NumPad5 => Some(5),
        MinifbKey::NumPad6 => Some(6),
        MinifbKey::NumPad7 => Some(7),
        MinifbKey::NumPad8 => Some(8),
        MinifbKey::NumPad9 => Some(9),
        _ => None,
    }
}

/// The number of a function key (F1 is 1).
pub open spec fn keycode_function_number(key: KeyCode) -> Option<nat> {
    match key {
        KeyCode::F1 => Some(1),
        KeyCode::F2 => Some(2),
        KeyCode::F3 => Some(3),
        KeyCode::F4 => Some(4),
        KeyCode::F5 => Some(5),
        KeyCode::F6 => Some(6),
        KeyCode::F7 => Some(7),
        KeyCode::F8 => Some(8),
        KeyCode::F9 => Some(9),
        KeyCode::F10 => Some(10),
        KeyCode::F11 => Some(11),
        KeyCode::F12 => Some(12),
        KeyCode::F13 => Some(13),
        KeyCode::F14 => Some(14),
        KeyCode::F15 => Some(15),
        _ => None,
    }
}

/// The number of a minifb function key (F1 is 1).
pub open spec fn minifb_key_function_number(key: MinifbKey) -> Option<nat> {
    match key {
        MinifbKey::F1 => Some(1),
        MinifbKey::F2 => Some(2),
        MinifbKey::F3 => Some(3),
        MinifbKey::F4 => Some(4),
        MinifbKey::F5 => Some(5),
        MinifbKey::F6 => Some(6),
        MinifbKey::F7 => Some(7),
        MinifbKey::F8 => Some(8),
        MinifbKey::F9 => Some(9),
        MinifbKey::F10 => Some(10),
        MinifbKey::F11 => Some(11),
        MinifbKey::F12 => Some(12),
        MinifbKey::F13 => Some(13),
        MinifbKey::F14 => Some(14),
        MinifbKey::F15 => Some(15),
        _ => None,
    }
}

/// A letter key is translated to the letter key of minifb with the same letter, and back.
pub proof fn law_keys_keep_their_letter(key: KeyCode, mkey: MinifbKey)
    ensures
        keycode_letter(key) is Some ==> minifb_key_letter(keycode_to_minifb_spec(key)) == keycode_letter(key),
        minifb_key_letter(mkey) is Some ==> keycode_letter(minifb_to_keycode_spec(mkey)) == minifb_key_letter(mkey),
{
}

/// A key of the digit row is translated to minifb's key of the digit row with the same digit, and back; never to the keypad.
pub proof fn law_keys_keep_their_top_row_digit(key: KeyCode, mkey: MinifbKey)
    ensures
        keycode_top_row_digit(key) is Some ==> minifb_key_top_row_digit(keycode_to_minifb_spec(key)) == keycode_top_row_digit(key),
        minifb_key_top_row_digit(mkey) is Some ==> keycode_top_row_digit(minifb_to_keycode_spec(mkey)) == minifb_key_top_row_digit(mkey),
{
}

/// A digit key of the keypad is translated to minifb's keypad key with the same digit, and back; never to the digit row.
pub proof fn law_keys_keep_their_keypad_digit(key: KeyCode, mkey: MinifbKey)
    ensures
        keycode_keypad_digit(key) is Some ==> minifb_key_keypad_digit(keycode_to_minifb_spec(key)) == keycode_keypad_digit(key),
        minifb_key_keypad_digit(mkey) is Some ==> keycode_keypad_digit(minifb_to_keycode_spec(mkey)) == minifb_key_keypad_digit(mkey),
{
}

/// A function key is translated to minifb's function key with the same number, and back.
pub proof fn law_keys_keep_their_function_number(key: KeyCode, mkey: MinifbKey)
    ensures
        keycode_function_number(key) is Some ==> minifb_key_function_number(keycode_to_minifb_spec(key)) == keycode_function_number(key),
        minifb_key_function_number(mkey) is Some ==> keycode_function_number(minifb_to_keycode_spec(mkey)) == minifb_key_function_number(mkey),
{
}

/// The keys that are neither letters, digits nor function keys are
/// translated to the minifb key of the same name (minifb says `Ctrl` for
/// Control, `Up`/`Down`/`Left`/`Right` for the arrows and `Apostrophe` for the
/// quote), in both directions.
pub proof fn law_named_keys_keep_their_name()
    ensures
        keycode_to_minifb_spec(KeyCode::LeftShift) == MinifbKey::LeftShift,
        minifb_to_keycode_spec(MinifbKey::LeftShift) == KeyCode::LeftShift,
        keycode_to_minifb_spec(KeyCode::RightShift) == MinifbKey::RightShift,
        minifb_to_keycode_spec(MinifbKey::RightShift) == KeyCode::RightShift,
        keycode_to_minifb_spec(KeyCode::LeftControl) == MinifbKey::LeftCtrl,
        minifb_to_keycode_spec(MinifbKey::LeftCtrl) == KeyCode::LeftControl,
        keycode_to_minifb_spec(KeyCode::RightControl) == MinifbKey::RightCtrl,
        minifb_to_keycode_spec(MinifbKey::RightCtrl) == KeyCode::RightControl,
        keycode_to_minifb_spec(KeyCode::LeftAlt) == MinifbKey::LeftAlt,
        minifb_to_keycode_spec(MinifbKey::LeftAlt) == KeyCode::LeftAlt,
        keycode_to_minifb_spec(KeyCode::RightAlt) == MinifbKey::RightAlt,
        minifb_to_keycode_spec(MinifbKey::RightAlt) == KeyCode::RightAlt,
        keycode_to_minifb_spec(KeyCode::LeftSuper) == MinifbKey::LeftSuper,
        minifb_to_keycode_spec(MinifbKey::LeftSuper) == KeyCode::LeftSuper,
        keycode_to_minifb_spec(KeyCode::RightSuper) == MinifbKey::RightSuper,
        minifb_to_keycode_spec(MinifbKey::RightSuper) == KeyCode::RightSuper,
        keycode_to_minifb_spec(KeyCode::Space) == MinifbKey::Space,
        minifb_to_keycode_spec(MinifbKey::Space) == KeyCode::Space,
        keycode_to_minifb_spec(KeyCode::Enter) == MinifbKey::Enter,
        minifb_to_keycode_spec(MinifbKey::Enter) == KeyCode::Enter,
        keycode_to_minifb_spec(KeyCode::Escape) == MinifbKey::Escape,
        minifb_to_keycode_spec(MinifbKey::Escape) == KeyCode::Escape,
        keycode_to_minifb_spec(KeyCode::Backspace) == MinifbKey::Backspace,
        minifb_to_keycode_spec(MinifbKey::Backspace) == KeyCode::Backspace,
        keycode_to_minifb_spec(KeyCode::Tab) == MinifbKey::Tab,
        minifb_to_keycode_spec(MinifbKey::Tab) == KeyCode::Tab,
        keycode_to_minifb_spec(KeyCode::UpArrow) == MinifbKey::Up,
        minifb_to_keycode_spec(MinifbKey::Up) == KeyCode::UpArrow,
        keycode_to_minifb_spec(KeyCode::DownArrow) == MinifbKey::Down,
        minifb_to_keycode_spec(MinifbKey::Down) == KeyCode::DownArrow,
        keycode_to_minifb_spec(KeyCode::LeftArrow) == MinifbKey::Left,
        minifb_to_keycode_spec(MinifbKey::Left) == KeyCode::LeftArrow,
        keycode_to_minifb_spec(KeyCode::RightArrow) == MinifbKey::Right,
        minifb_to_keycode_spec(MinifbKey::Right) == KeyCode::RightArrow,
        keycode_to_minifb_spec(KeyCode::Comma) == MinifbKey::Comma,
        minifb_to_keycode_spec(MinifbKey::Comma) == KeyCode::Comma,
        keycode_to_minifb_spec(KeyCode::Period) == MinifbKey::Period,
        minifb_to_keycode_spec(MinifbKey::Period) == KeyCode::Period,
        keycode_to_minifb_spec(KeyCode::Minus) == MinifbKey::Minus,
        minifb_to_keycode_spec(MinifbKey::Minus) == KeyCode::Minus,
        keycode_to_minifb_spec(KeyCode::Equal) == MinifbKey::Equal,
        minifb_to_keycode_spec(MinifbKey::Equal) == KeyCode::Equal,
        keycode_to_minifb_spec(KeyCode::LeftBracket) == MinifbKey::LeftBracket,
        minifb_to_keycode_spec(MinifbKey::LeftBracket) == KeyCode::LeftBracket,
        keycode_to_minifb_spec(KeyCode::RightBracket) == MinifbKey::RightBracket,
        minifb_to_keycode_spec(MinifbKey::RightBracket) == KeyCode::RightBracket,
        keycode_to_minifb_spec(KeyCode::Backslash) == MinifbKey::Backslash,
        minifb_to_keycode_spec(MinifbKey::Backslash) == KeyCode::Backslash,
        keycode_to_minifb_spec(KeyCode::Semicolon) == MinifbKey::Semicolon,
        minifb_to_keycode_spec(MinifbKey::Semicolon) == KeyCode::Semicolon,
        keycode_to_minifb_spec(KeyCode::Quote) == MinifbKey::Apostrophe,
        minifb_to_keycode_spec(MinifbKey::Apostrophe) == KeyCode::Quote,
        keycode_to_minifb_spec(KeyCode::ScrollLock) == MinifbKey::ScrollLock,
        minifb_to_keycode_spec(MinifbKey::ScrollLock) == KeyCode::ScrollLock,
        keycode_to_minifb_spec(KeyCode::CapsLock) == MinifbKey::CapsLock,
        minifb_to_keycode_spec(MinifbKey::CapsLock) == KeyCode::CapsLock,
        keycode_to_minifb_spec(KeyCode::NumLock) == MinifbKey::NumLock,
        minifb_to_keycode_spec(MinifbKey::NumLock) == KeyCode::NumLock,
        keycode_to_minifb_spec(KeyCode::Insert) == MinifbKey::Insert,
        minifb_to_keycode_spec(MinifbKey::Insert) == KeyCode::Insert,
        keycode_to_minifb_spec(KeyCode::Delete) == MinifbKey::Delete,
        minifb_to_keycode_spec(MinifbKey::Delete) == KeyCode::Delete,
        keycode_to_minifb_spec(KeyCode::Home) == MinifbKey::Home,
        minifb_to_keycode_spec(MinifbKey::Home) == KeyCode::Home,
        keycode_to_minifb_spec(KeyCode::End) == MinifbKey::End,
        minifb_to_keycode_spec(MinifbKey::End) == KeyCode::End,
        keycode_to_minifb_spec(KeyCode::PageUp) == MinifbKey::PageUp,
        minifb_to_keycode_spec(MinifbKey::PageUp) == KeyCode::PageUp,
        keycode_to_minifb_spec(KeyCode::PageDown) == MinifbKey::PageDown,
        minifb_to_keycode_spec(MinifbKey::PageDown) == KeyCode::PageDown,
        keycode_to_minifb_spec(KeyCode::Slash) == MinifbKey::Slash,
        minifb_to_keycode_spec(MinifbKey::Slash) == KeyCode::Slash,
        keycode_to_minifb_spec(KeyCode::Menu) == MinifbKey::Menu,
        minifb_to_keycode_spec(MinifbKey::Menu) == KeyCode::Menu,
        keycode_to_minifb_spec(KeyCode::Pause) == MinifbKey::Pause,
        minifb_to_keycode_spec(MinifbKey::Pause) == KeyCode::Pause,
        keycode_to_minifb_spec(KeyCode::Unknown) == MinifbKey::Unknown,
        minifb_to_keycode_spec(MinifbKey::Unknown) == KeyCode::Unknown,
{
}

/// The keypad's Enter, minus and slash share minifb's main keys; the grave
/// key and the keypad's point, times and plus have no minifb key. From
/// minifb's side the keypad keys and the backquote come back as the keypad
/// keys and the grave key, and `Count`, which is no key, as `Unknown`.
pub proof fn law_keypad_and_unnamed_keys()
    ensures
        keycode_to_minifb_spec(KeyCode::KeyPadEnter) == MinifbKey::Enter,
        keycode_to_minifb_spec(KeyCode::KeyPadSubtract) == MinifbKey::Minus,
        keycode_to_minifb_spec(KeyCode::KeyPadDivide) == MinifbKey::Slash,
        keycode_to_minifb_spec(KeyCode::Grave) == MinifbKey::Unknown,
        keycode_to_minifb_spec(KeyCode::KeyPadDecimal) == MinifbKey::Unknown,
        keycode_to_minifb_spec(KeyCode::KeyPadMultiply) == MinifbKey::Unknown,
        keycode_to_minifb_spec(KeyCode::KeyPadAdd) == MinifbKey::Unknown,
        minifb_to_keycode_spec(MinifbKey::Backquote) == KeyCode::Grave,
        minifb_to_keycode_spec(MinifbKey::NumPadDot) == KeyCode::KeyPadDecimal,
        minifb_to_keycode_spec(MinifbKey::NumPadSlash) == KeyCode::KeyPadDivide,
        minifb_to_keycode_spec(MinifbKey::NumPadAsterisk) == KeyCode::KeyPadMultiply,
        minifb_to_keycode_spec(MinifbKey::NumPadMinus) == KeyCode::KeyPadSubtract,
        minifb_to_keycode_spec(MinifbKey::NumPadPlus) == KeyCode::KeyPadAdd,
        minifb_to_keycode_spec(MinifbKey::NumPadEnter) == KeyCode::KeyPadEnter,
        minifb_to_keycode_spec(MinifbKey::Count) == KeyCode::Unknown,
{
}

/// A mouse button, as the windowing layer names it.
#[derive(Debug, Clone, Copy, PartialEq, Eq, Structural, Hash)]
pub enum MouseButton {
    Left,
    Right,
    Middle,
    Extra1,
    Extra2,
    Extra3,
    Extra4,
    Unsupported,
}

/// A mouse button, as minifb names it (`minifb::MouseButton`).
#[derive(Debug, Clone, Copy, PartialEq, Eq, Structural, Hash)]
pub enum MinifbMouseButton {
    Left,
    Middle,
    Right,
}

/// The minifb button for `button`: the three buttons that minifb knows map to
/// themselves, the others to nothing.
pub open spec fn mouse_button_to_minifb_spec(button: MouseButton) -> Option<MinifbMouseButton> {
    match button {
        MouseButton::Left => Some(MinifbMouseButton::Left),
        MouseButton::Right => Some(MinifbMouseButton::Right),
        MouseButton::Middle => Some(MinifbMouseButton::Middle),
        _ => None,
    }
}

/// Maps a mouse button to minifb's, if minifb has it.
pub fn map_mouse_button_to_minifb(button: MouseButton) -> (r: Option<MinifbMouseButton>)
    ensures
        r == mouse_button_to_minifb_spec(button),
{
    match button {
        MouseButton::Left => Some(MinifbMouseButton::Left),
        MouseButton::Right => Some(MinifbMouseButton::Right),
        MouseButton::Middle => Some(MinifbMouseButton::Middle),
        MouseButton::Extra1 | MouseButton::Extra2 | MouseButton::Extra3 | MouseButton::Extra4
        | MouseButton::Unsupported => None,
    }
}

/// Distinct buttons that minifb knows stay distinct.
pub proof fn law_mouse_buttons_distinct(a: MouseButton, b: MouseButton)
    requires
        mouse_button_to_minifb_spec(a) is Some,
        mouse_button_to_minifb_spec(a) == mouse_button_to_minifb_spec(b),
    ensures
        a == b,
{
}

/// Left, right and middle are translated to minifb's button of the same name;
/// the extra buttons and unsupported ones to none.
pub proof fn law_mouse_buttons_keep_their_name(button: MouseButton)
    ensures
        mouse_button_to_minifb_spec(MouseButton::Left) == Some(MinifbMouseButton::Left),
        mouse_button_to_minifb_spec(MouseButton::Right) == Some(MinifbMouseButton::Right),
        mouse_button_to_minifb_spec(MouseButton::Middle) == Some(MinifbMouseButton::Middle),
        button != MouseButton::Left && button != MouseButton::Right && button
            != MouseButton::Middle ==> mouse_button_to_minifb_spec(button) is None,
{
}

} // verus!
