//! The two key namespaces, the table between them, and the synthetic key
//! sequences that the injection side plays.
//!
//! The polling side and the event side name physical keys independently, and
//! the two sets overlap only in part. The table is written out row by row; a
//! key without a row is untranslatable.

use vstd::prelude::*;
use vstd::string::*;

verus! {

/// A physical key as the polling side names it (the namespace of
/// `device_query`).
#[derive(Clone, Copy, Debug, PartialEq, Eq, Hash, Structural)]
pub enum Keycode {
    Key0,
    Key1,
    Key2,
    Key3,
    Key4,
    Key5,
    Key6,
    Key7,
    Key8,
    Key9,
    A,
    B,
    C,
    D,
    E,
    F,
    G,
    H,
    I,
    J,
    K,
    L,
    M,
    N,
    O,
    P,
    Q,
    R,
    S,
    T,
    U,
    V,
    W,
    X,
    Y,
    Z,
    F1,
    F2,
    F3,
    F4,
    F5,
    F6,
    F7,
    F8,
    F9,
    F10,
    F11,
    F12,
    F13,
    F14,
    F15,
    F16,
    F17,
    F18,
    F19,
    F20,
    Escape,
    Space,
    LControl,
    RControl,
    LShift,
    RShift,
    LAlt,
    RAlt,
    Command,
    LOption,
    ROption,
    LMeta,
    RMeta,
    Enter,
    Up,
    Down,
    Left,
    Right,
    Backspace,
    CapsLock,
    Tab,
    Home,
    End,
    PageUp,
    PageDown,
    Insert,
    Delete,
    Numpad0,
    Numpad1,
    Numpad2,
    Numpad3,
    Numpad4,
    Numpad5,
    Numpad6,
    Numpad7,
    Numpad8,
    Numpad9,
    NumpadSubtract,
    NumpadAdd,
    NumpadDivide,
    NumpadMultiply,
    NumpadEquals,
    NumpadEnter,
    NumpadDecimal,
    Grave,
    Minus,
    Equal,
    LeftBracket,
    RightBracket,
    BackSlash,
    Semicolon,
    Apostrophe,
    Comma,
    Dot,
    Slash,
}

/// A physical key as the event and injection side names it (the namespace of
/// `rdev`). `Unknown` carries a platform code that has no name.
#[derive(Clone, Copy, Debug, PartialEq, Eq, Hash, Structural)]
pub enum Key {
    Alt,
    AltGr,
    Backspace,
    CapsLock,
    ControlLeft,
    ControlRight,
    Delete,
    DownArrow,
    End,
    Escape,
    F1,
    F10,
    F11,
    F12,
    F2,
    F3,
    F4,
    F5,
    F6,
    F7,
    F8,
    F9,
    Home,
    LeftArrow,
    MetaLeft,
    MetaRight,
    PageDown,
    PageUp,
    Return,
    RightArrow,
    ShiftLeft,
    ShiftRight,
    Space,
    Tab,
    UpArrow,
    PrintScreen,
    ScrollLock,
    Pause,
    NumLock,
    BackQuote,
    Num1,
    Num2,
    Num3,
    Num4,
    Num5,
    Num6,
    Num7,
    Num8,
    Num9,
    Num0,
    Minus,
    Equal,
    KeyQ,
    KeyW,
    KeyE,
    KeyR,
    KeyT,
    KeyY,
    KeyU,
    KeyI,
    KeyO,
    KeyP,
    LeftBracket,
    RightBracket,
    KeyA,
    KeyS,
    KeyD,
    KeyF,
    KeyG,
    KeyH,
    KeyJ,
    KeyK,
    KeyL,
    SemiColon,
    Quote,
    BackSlash,
    IntlBackslash,
    KeyZ,
    KeyX,
    KeyC,
    KeyV,
    KeyB,
    KeyN,
    KeyM,
    Comma,
    Dot,
    Slash,
    Insert,
    KpReturn,
    KpMinus,
    KpPlus,
    KpMultiply,
    KpDivide,
    Kp0,
    Kp1,
    Kp2,
    Kp3,
    Kp4,
    Kp5,
    Kp6,
    Kp7,
    Kp8,
    Kp9,
    KpDelete,
    Function,
    Unknown(u32),
}

/// The translation table, polling namespace to event namespace. A key that
/// has no row is untranslatable.
pub open spec fn event_key_of(key: Keycode) -> Option<Key> {
    match key {
        Keycode::Key0 => Some(Key::Num0),
        Keycode::Key1 => Some(Key::Num1),
        Keycode::Key2 => Some(Key::Num2),
        Keycode::Key3 => Some(Key::Num3),
        Keycode::Key4 => Some(Key::Num4),
        Keycode::Key5 => Some(Key::Num5),
        Keycode::Key6 => Some(Key::Num6),
        Keycode::Key7 => Some(Key::Num7),
        Keycode::Key8 => Some(Key::Num8),
        Keycode::Key9 => Some(Key::Num9),
        Keycode::A => Some(Key::KeyA),
        Keycode::B => Some(Key::KeyB),
        Keycode::C => Some(Key::KeyC),
        Keycode::D => Some(Key::KeyD),
        Keycode::E => Some(Key::KeyE),
        Keycode::F => Some(Key::KeyF),
        Keycode::G => Some(Key::KeyG),
        Keycode::H => Some(Key::KeyH),
        Keycode::I => Some(Key::KeyI),
        Keycode::J => Some(Key::KeyJ),
        Keycode::K => Some(Key::KeyK),
        Keycode::L => Some(Key::KeyL),
        Keycode::M => Some(Key::KeyM),
        Keycode::N => Some(Key::KeyN),
        Keycode::O => Some(Key::KeyO),
        Keycode::P => Some(Key::KeyP),
        Keycode::Q => Some(Key::KeyQ),
        Keycode::R => Some(Key::KeyR),
        Keycode::S => Some(Key::KeyS),
        Keycode::T => Some(Key::KeyT),
        Keycode::U => Some(Key::KeyU),
        Keycode::V => Some(Key::KeyV),
        Keycode::W => Some(Key::KeyW),
        Keycode::X => Some(Key::KeyX),
        Keycode::Y => Some(Key::KeyY),
        Keycode::Z => Some(Key::KeyZ),
        Keycode::F1 => Some(Key::F1),
        Keycode::F2 => Some(Key::F2),
        Keycode::F3 => Some(Key::F3),
        Keycode::F4 => Some(Key::F4),
        Keycode::F5 => Some(Key::F5),
        Keycode::F6 => Some(Key::F6),
        Keycode::F7 => Some(Key::F7),
        Keycode::F8 => Some(Key::F8),
        Keycode::F9 => Some(Key::F9),
        Keycode::F10 => Some(Key::F10),
        Keycode::F11 => Some(Key::F11),
        Keycode::F12 => Some(Key::F12),
        Keycode::Escape => Some(Key::Escape),
        Keycode::Space => Some(Key::Space),
        Keycode::LControl => Some(Key::ControlLeft),
        Keycode::RControl => Some(Key::ControlRight),
        Keycode::LShift => Some(Key::ShiftLeft),
        Keycode::RShift => Some(Key::ShiftRight),
        Keycode::LAlt => Some(Key::Alt),
        Keycode::RAlt => Some(Key::AltGr),
        Keycode::Command => Some(Key::MetaLeft),
        Keycode::LOption => Some(Key::Alt),
        Keycode::ROption => Some(Key::AltGr),
        Keycode::LMeta => Some(Key::MetaLeft),
        Keycode::RMeta => Some(Key::MetaRight),
        Keycode::Enter => Some(Key::Return),
        Keycode::Up => Some(Key::UpArrow),
        Keycode::Down => Some(Key::DownArrow),
        Keycode::Left => Some(Key::LeftArrow),
        Keycode::Right => Some(Key::RightArrow),
        Keycode::Backspace => Some(Key::Backspace),
        Keycode::CapsLock => Some(Key::CapsLock),
        Keycode::Tab => Some(Key::Tab),
        Keycode::Home => Some(Key::Home),
        Keycode::End => Some(Key::End),
        Keycode::PageUp => Some(Key::PageUp),
        Keycode::PageDown => Some(Key::PageDown),
        Keycode::Insert => Some(Key::Insert),
        Keycode::Delete => Some(Key::Delete),
        Keycode::Numpad0 => Some(Key::Kp0),
        Keycode::Numpad1 => Some(Key::Kp1),
        Keycode::Numpad2 => Some(Key::Kp2),
        Keycode::Numpad3 => Some(Key::Kp3),
        Keycode::Numpad4 => Some(Key::Kp4),
        Keycode::Numpad5 => Some(Key::Kp5),
        Keycode::Numpad6 => Some(Key::Kp6),
        Keycode::Numpad7 => Some(Key::Kp7),
        Keycode::Numpad8 => Some(Key::Kp8),
        Keycode::Numpad9 => Some(Key::Kp9),
        Keycode::NumpadSubtract => Some(Key::KpMinus),
        Keycode::NumpadAdd => Some(Key::KpPlus),
        Keycode::NumpadDivide => Some(Key::KpDivide),
        Keycode::NumpadMultiply => Some(Key::KpMultiply),
        Keycode::NumpadEnter => Some(Key::Return),
        Keycode::Grave => Some(Key::BackQuote),
        Keycode::Minus => Some(Key::Minus),
        Keycode::Equal => Some(Key::Equal),
        Keycode::LeftBracket => Some(Key::LeftBracket),
        Keycode::RightBracket => Some(Key::RightBracket),
        Keycode::BackSlash => Some(Key::BackSlash),
        Keycode::Semicolon => Some(Key::SemiColon),
        Keycode::Apostrophe => Some(Key::Quote),
        Keycode::Comma => Some(Key::Comma),
        Keycode::Dot => Some(Key::Dot),
        Keycode::Slash => Some(Key::Slash),
        _ => None,
    }
}

/// The translation table read backwards. Where several polling keys share
/// one event key, the first row of the forward table answers.
pub open spec fn poll_key_of(key: Key) -> Option<Keycode> {
    match key {
        Key::Alt => Some(Keycode::LAlt),
        Key::AltGr => Some(Keycode::RAlt),
        Key::Backspace => Some(Keycode::Backspace),
        Key::CapsLock => Some(Keycode::CapsLock),
        Key::ControlLeft => Some(Keycode::LControl),
        Key::ControlRight => Some(Keycode::RControl),
        Key::Delete => Some(Keycode::Delete),
        Key::DownArrow => Some(Keycode::Down),
        Key::End => Some(Keycode::End),
        Key::Escape => Some(Keycode::Escape),
        Key::F1 => Some(Keycode::F1),
        Key::F10 => Some(Keycode::F10),
        Key::F11 => Some(Keycode::F11),
        Key::F12 => Some(Keycode::F12),
        Key::F2 => Some(Keycode::F2),
        Key::F3 => Some(Keycode::F3),
        Key::F4 => Some(Keycode::F4),
        Key::F5 => Some(Keycode::F5),
        Key::F6 => Some(Keycode::F6),
        Key::F7 => Some(Keycode::F7),
        Key::F8 => Some(Keycode::F8),
        Key::F9 => Some(Keycode::F9),
        Key::Home => Some(Keycode::Home),
        Key::LeftArrow => Some(Keycode::Left),
        Key::MetaLeft => Some(Keycode::Command),
        Key::MetaRight => Some(Keycode::RMeta),
        Key::PageDown => Some(Keycode::PageDown),
        Key::PageUp => Some(Keycode::PageUp),
        Key::Return => Some(Keycode::Enter),
        Key::RightArrow => Some(Keycode::Right),
        Key::ShiftLeft => Some(Keycode::LShift),
        Key::ShiftRight => Some(Keycode::RShift),
        Key::Space => Some(Keycode::Space),
        Key::Tab => Some(Keycode::Tab),
        Key::UpArrow => Some(Keycode::Up),
        Key::BackQuote => Some(Keycode::Grave),
        Key::Num1 => Some(Keycode::Key1),
        Key::Num2 => Some(Keycode::Key2),
        Key::Num3 => Some(Keycode::Key3),
        Key::Num4 => Some(Keycode::Key4),
        Key::Num5 => Some(Keycode::Key5),
        Key::Num6 => Some(Keycode::Key6),
        Key::Num7 => Some(Keycode::Key7),
        Key::Num8 => Some(Keycode::Key8),
        Key::Num9 => Some(Keycode::Key9),
        Key::Num0 => Some(Keycode::Key0),
        Key::Minus => Some(Keycode::Minus),
        Key::Equal => Some(Keycode::Equal),
        Key::KeyQ => Some(Keycode::Q),
        Key::KeyW => Some(Keycode::W),
        Key::KeyE => Some(Keycode::E),
        Key::KeyR => Some(Keycode::R),
        Key::KeyT => Some(Keycode::T),
        Key::KeyY => Some(Keycode::Y),
        Key::KeyU => Some(Keycode::U),
        Key::KeyI => Some(Keycode::I),
        Key::KeyO => Some(Keycode::O),
        Key::KeyP => Some(Keycode::P),
        Key::LeftBracket => Some(Keycode::LeftBracket),
        Key::RightBracket => Some(Keycode::RightBracket),
        Key::KeyA => Some(Keycode::A),
        Key::KeyS => Some(Keycode::S),
        Key::KeyD => Some(Keycode::D),
        Key::KeyF => Some(Keycode::F),
        Key::KeyG => Some(Keycode::G),
        Key::KeyH => Some(Keycode::H),
        Key::KeyJ => Some(Keycode::J),
        Key::KeyK => Some(Keycode::K),
        Key::KeyL => Some(Keycode::L),
        Key::SemiColon => Some(Keycode::Semicolon),
        Key::Quote => Some(Keycode::Apostrophe),
        Key::BackSlash => Some(Keycode::BackSlash),
        Key::KeyZ => Some(Keycode::Z),
        Key::KeyX => Some(Keycode::X),
        Key::KeyC => Some(Keycode::C),
        Key::KeyV => Some(Keycode::V),
        Key::KeyB => Some(Keycode::B),
        Key::KeyN => Some(Keycode::N),
        Key::KeyM => Some(Keycode::M),
        Key::Comma => Some(Keycode::Comma),
        Key::Dot => Some(Keycode::Dot),
        Key::Slash => Some(Keycode::Slash),
        Key::Insert => Some(Keycode::Insert),
        Key::KpMinus => Some(Keycode::NumpadSubtract),
        Key::KpPlus => Some(Keycode::NumpadAdd),
        Key::KpMultiply => Some(Keycode::NumpadMultiply),
        Key::KpDivide => Some(Keycode::NumpadDivide),
        Key::Kp0 => Some(Keycode::Numpad0),
        Key::Kp1 => Some(Keycode::Numpad1),
        Key::Kp2 => Some(Keycode::Numpad2),
        Key::Kp3 => Some(Keycode::Numpad3),
        Key::Kp4 => Some(Keycode::Numpad4),
        Key::Kp5 => Some(Keycode::Numpad5),
        Key::Kp6 => Some(Keycode::Numpad6),
        Key::Kp7 => Some(Keycode::Numpad7),
        Key::Kp8 => Some(Keycode::Numpad8),
        Key::Kp9 => Some(Keycode::Numpad9),
        _ => None,
    }
}

/// Looks a polling key up in the translation table.
pub fn key_mapping_devicequery_rdev(key: Keycode) -> (r: Option<Key>)
    ensures
        r == event_key_of(key),
{
    match key {
        Keycode::Key0 => Some(Key::Num0),
        Keycode::Key1 => Some(Key::Num1),
        Keycode::Key2 => Some(Key::Num2),
        Keycode::Key3 => Some(Key::Num3),
        Keycode::Key4 => Some(Key::Num4),
        Keycode::Key5 => Some(Key::Num5),
        Keycode::Key6 => Some(Key::Num6),
        Keycode::Key7 => Some(Key::Num7),
        Keycode::Key8 => Some(Key::Num8),
        Keycode::Key9 => Some(Key::Num9),
        Keycode::A => Some(Key::KeyA),
        Keycode::B => Some(Key::KeyB),
        Keycode::C => Some(Key::KeyC),
        Keycode::D => Some(Key::KeyD),
        Keycode::E => Some(Key::KeyE),
        Keycode::F => Some(Key::KeyF),
        Keycode::G => Some(Key::KeyG),
        Keycode::H => Some(Key::KeyH),
        Keycode::I => Some(Key::KeyI),
        Keycode::J => Some(Key::KeyJ),
        Keycode::K => Some(Key::KeyK),
        Keycode::L => Some(Key::KeyL),
        Keycode::M => Some(Key::KeyM),
        Keycode::N => Some(Key::KeyN),
        Keycode::O => Some(Key::KeyO),
        Keycode::P => Some(Key::KeyP),
        Keycode::Q => Some(Key::KeyQ),
        Keycode::R => Some(Key::KeyR),
        Keycode::S => Some(Key::KeyS),
        Keycode::T => Some(Key::KeyT),
        Keycode::U => Some(Key::KeyU),
        Keycode::V => Some(Key::KeyV),
        Keycode::W => Some(Key::KeyW),
        Keycode::X => Some(Key::KeyX),
        Keycode::Y => Some(Key::KeyY),
        Keycode::Z => Some(Key::KeyZ),
        Keycode::F1 => Some(Key::F1),
        Keycode::F2 => Some(Key::F2),
        Keycode::F3 => Some(Key::F3),
        Keycode::F4 => Some(Key::F4),
        Keycode::F5 => Some(Key::F5),
        Keycode::F6 => Some(Key::F6),
        Keycode::F7 => Some(Key::F7),
        Keycode::F8 => Some(Key::F8),
        Keycode::F9 => Some(Key::F9),
        Keycode::F10 => Some(Key::F10),
        Keycode::F11 => Some(Key::F11),
        Keycode::F12 => Some(Key::F12),
        Keycode::Escape => Some(Key::Escape),
        Keycode::Space => Some(Key::Space),
        Keycode::LControl => Some(Key::ControlLeft),
        Keycode::RControl => Some(Key::ControlRight),
        Keycode::LShift => Some(Key::ShiftLeft),
        Keycode::RShift => Some(Key::ShiftRight),
        Keycode::LAlt => Some(Key::Alt),
        Keycode::RAlt => Some(Key::AltGr),
        Keycode::Command => Some(Key::MetaLeft),
        Keycode::LOption => Some(Key::Alt),
        Keycode::ROption => Some(Key::AltGr),
        Keycode::LMeta => Some(Key::MetaLeft),
        Keycode::RMeta => Some(Key::MetaRight),
        Keycode::Enter => Some(Key::Return),
        Keycode::Up => Some(Key::UpArrow),
        Keycode::Down => Some(Key::DownArrow),
        Keycode::Left => Some(Key::LeftArrow),
        Keycode::Right => Some(Key::RightArrow),
        Keycode::Backspace => Some(Key::Backspace),
        Keycode::CapsLock => Some(Key::CapsLock),
        Keycode::Tab => Some(Key::Tab),
        Keycode::Home => Some(Key::Home),
        Keycode::End => Some(Key::End),
        Keycode::PageUp => Some(Key::PageUp),
        Keycode::PageDown => Some(Key::PageDown),
        Keycode::Insert => Some(Key::Insert),
        Keycode::Delete => Some(Key::Delete),
        Keycode::Numpad0 => Some(Key::Kp0),
        Keycode::Numpad1 => Some(Key::Kp1),
        Keycode::Numpad2 => Some(Key::Kp2),
        Keycode::Numpad3 => Some(Key::Kp3),
        Keycode::Numpad4 => Some(Key::Kp4),
        Keycode::Numpad5 => Some(Key::Kp5),
        Keycode::Numpad6 => Some(Key::Kp6),
        Keycode::Numpad7 => Some(Key::Kp7),
        Keycode::Numpad8 => Some(Key::Kp8),
        Keycode::Numpad9 => Some(Key::Kp9),
        Keycode::NumpadSubtract => Some(Key::KpMinus),
        Keycode::NumpadAdd => Some(Key::KpPlus),
        Keycode::NumpadDivide => Some(Key::KpDivide),
        Keycode::NumpadMultiply => Some(Key::KpMultiply),
        Keycode::NumpadEnter => Some(Key::Return),
        Keycode::Grave => Some(Key::BackQuote),
        Keycode::Minus => Some(Key::Minus),
        Keycode::Equal => Some(Key::Equal),
        Keycode::LeftBracket => Some(Key::LeftBracket),
        Keycode::RightBracket => Some(Key::RightBracket),
        Keycode::BackSlash => Some(Key::BackSlash),
        Keycode::Semicolon => Some(Key::SemiColon),
        Keycode::Apostrophe => Some(Key::Quote),
        Keycode::Comma => Some(Key::Comma),
        Keycode::Dot => Some(Key::Dot),
        Keycode::Slash => Some(Key::Slash),
        _ => None,
    }
}

/// Looks an event key up in the translation table read backwards.
pub fn key_mapping_rdev_devicequery(key: Key) -> (r: Option<Keycode>)
    ensures
        r == poll_key_of(key),
{
    match key {
        Key::Alt => Some(Keycode::LAlt),
        Key::AltGr => Some(Keycode::RAlt),
        Key::Backspace => Some(Keycode::Backspace),
        Key::CapsLock => Some(Keycode::CapsLock),
        Key::ControlLeft => Some(Keycode::LControl),
        Key::ControlRight => Some(Keycode::RControl),
        Key::Delete => Some(Keycode::Delete),
        Key::DownArrow => Some(Keycode::Down),
        Key::End => Some(Keycode::End),
        Key::Escape => Some(Keycode::Escape),
        Key::F1 => Some(Keycode::F1),
        Key::F10 => Some(Keycode::F10),
        Key::F11 => Some(Keycode::F11),
        Key::F12 => Some(Keycode::F12),
        Key::F2 => Some(Keycode::F2),
        Key::F3 => Some(Keycode::F3),
        Key::F4 => Some(Keycode::F4),
        Key::F5 => Some(Keycode::F5),
        Key::F6 => Some(Keycode::F6),
        Key::F7 => Some(Keycode::F7),
        Key::F8 => Some(Keycode::F8),
        Key::F9 => Some(Keycode::F9),
        Key::Home => Some(Keycode::Home),
        Key::LeftArrow => Some(Keycode::Left),
        Key::MetaLeft => Some(Keycode::Command),
        Key::MetaRight => Some(Keycode::RMeta),
        Key::PageDown => Some(Keycode::PageDown),
        Key::PageUp => Some(Keycode::PageUp),
        Key::Return => Some(Keycode::Enter),
        Key::RightArrow => Some(Keycode::Right),
        Key::ShiftLeft => Some(Keycode::LShift),
        Key::ShiftRight => Some(Keycode::RShift),
        Key::Space => Some(Keycode::Space),
        Key::Tab => Some(Keycode::Tab),
        Key::UpArrow => Some(Keycode::Up),
        Key::BackQuote => Some(Keycode::Grave),
        Key::Num1 => Some(Keycode::Key1),
        Key::Num2 => Some(Keycode::Key2),
        Key::Num3 => Some(Keycode::Key3),
        Key::Num4 => Some(Keycode::Key4),
        Key::Num5 => Some(Keycode::Key5),
        Key::Num6 => Some(Keycode::Key6),
        Key::Num7 => Some(Keycode::Key7),
        Key::Num8 => Some(Keycode::Key8),
        Key::Num9 => Some(Keycode::Key9),
        Key::Num0 => Some(Keycode::Key0),
        Key::Minus => Some(Keycode::Minus),
        Key::Equal => Some(Keycode::Equal),
        Key::KeyQ => Some(Keycode::Q),
        Key::KeyW => Some(Keycode::W),
        Key::KeyE => Some(Keycode::E),
        Key::KeyR => Some(Keycode::R),
        Key::KeyT => Some(Keycode::T),
        Key::KeyY => Some(Keycode::Y),
        Key::KeyU => Some(Keycode::U),
        Key::KeyI => Some(Keycode::I),
        Key::KeyO => Some(Keycode::O),
        Key::KeyP => Some(Keycode::P),
        Key::LeftBracket => Some(Keycode::LeftBracket),
        Key::RightBracket => Some(Keycode::RightBracket),
        Key::KeyA => Some(Keycode::A),
        Key::KeyS => Some(Keycode::S),
        Key::KeyD => Some(Keycode::D),
        Key::KeyF => Some(Keycode::F),
        Key::KeyG => Some(Keycode::G),
        Key::KeyH => Some(Keycode::H),
        Key::KeyJ => Some(Keycode::J),
        Key::KeyK => Some(Keycode::K),
        Key::KeyL => Some(Keycode::L),
        Key::SemiColon => Some(Keycode::Semicolon),
        Key::Quote => Some(Keycode::Apostrophe),
        Key::BackSlash => Some(Keycode::BackSlash),
        Key::KeyZ => Some(Keycode::Z),
        Key::KeyX => Some(Keycode::X),
        Key::KeyC => Some(Keycode::C),
        Key::KeyV => Some(Keycode::V),
        Key::KeyB => Some(Keycode::B),
        Key::KeyN => Some(Keycode::N),
        Key::KeyM => Some(Keycode::M),
        Key::Comma => Some(Keycode::Comma),
        Key::Dot => Some(Keycode::Dot),
        Key::Slash => Some(Keycode::Slash),
        Key::Insert => Some(Keycode::Insert),
        Key::KpMinus => Some(Keycode::NumpadSubtract),
        Key::KpPlus => Some(Keycode::NumpadAdd),
        Key::KpMultiply => Some(Keycode::NumpadMultiply),
        Key::KpDivide => Some(Keycode::NumpadDivide),
        Key::Kp0 => Some(Keycode::Numpad0),
        Key::Kp1 => Some(Keycode::Numpad1),
        Key::Kp2 => Some(Keycode::Numpad2),
        Key::Kp3 => Some(Keycode::Numpad3),
        Key::Kp4 => Some(Keycode::Numpad4),
        Key::Kp5 => Some(Keycode::Numpad5),
        Key::Kp6 => Some(Keycode::Numpad6),
        Key::Kp7 => Some(Keycode::Numpad7),
        Key::Kp8 => Some(Keycode::Numpad8),
        Key::Kp9 => Some(Keycode::Numpad9),
        _ => None,
    }
}

/// Every translated event key leads back to a polling key that translates to
/// it again.
pub proof fn lemma_backward_then_forward(key: Key)
    ensures
        poll_key_of(key) matches Some(p) ==> event_key_of(p) == Some(key),
{
}

/// Whatever the forward table yields, the backward table knows.
pub proof fn lemma_forward_then_backward(key: Keycode)
    ensures
        event_key_of(key) matches Some(k) ==> poll_key_of(k) is Some,
{
}

/// The polling keys without a row: the upper function keys and two keypad
/// keys.
pub open spec fn untranslatable(key: Keycode) -> bool {
    match key {
        Keycode::F13
        | Keycode::F14
        | Keycode::F15
        | Keycode::F16
        | Keycode::F17
        | Keycode::F18
        | Keycode::F19
        | Keycode::F20
        | Keycode::NumpadEquals
        | Keycode::NumpadDecimal => true,
        _ => false,
    }
}

/// A polling key lacks a translation exactly when it is one of the listed
/// untranslatable keys.
pub proof fn lemma_untranslatable(key: Keycode)
    ensures
        event_key_of(key) is None <==> untranslatable(key),
{
}

/// One unit of synthetic input.
#[derive(Debug, PartialEq, Eq)]
pub enum Synthetic {
    KeyPress(Key),
    KeyRelease(Key),
    Text(String),
}

/// What a unit of synthetic input stands for.
pub enum SyntheticView {
    KeyPress(Key),
    KeyRelease(Key),
    Text(Seq<char>),
}

impl View for Synthetic {
    type V = SyntheticView;

    open spec fn view(&self) -> SyntheticView {
        match *self {
            Synthetic::KeyPress(k) => SyntheticView::KeyPress(k),
            Synthetic::KeyRelease(k) => SyntheticView::KeyRelease(k),
            Synthetic::Text(s) => SyntheticView::Text(s@),
        }
    }
}

impl Clone for Synthetic {
    fn clone(&self) -> (r: Synthetic)
        ensures
            r@ == self@,
    {
        match self {
            Synthetic::KeyPress(k) => Synthetic::KeyPress(*k),
            Synthetic::KeyRelease(k) => Synthetic::KeyRelease(*k),
            Synthetic::Text(s) => Synthetic::Text(s.clone()),
        }
    }
}

/// A sequence of units, each taken by its view.
pub open spec fn plan_view(plan: Seq<Synthetic>) -> Seq<SyntheticView> {
    plan.map_values(|a: Synthetic| a@)
}

/// `n` taps of one key: press, release, press, release, and so on.
pub open spec fn taps(key: Key, n: nat) -> Seq<SyntheticView> {
    Seq::new(
        2 * n,
        |i: int|
            if i % 2 == 0 {
                SyntheticView::KeyPress(key)
            } else {
                SyntheticView::KeyRelease(key)
            },
    )
}

/// A chord: every key pressed in the order given, then every key released in
/// the same order.
pub open spec fn chord(keys: Seq<Key>) -> Seq<SyntheticView> {
    keys.map_values(|k: Key| SyntheticView::KeyPress(k)) + keys.map_values(
        |k: Key| SyntheticView::KeyRelease(k),
    )
}

/// The polling keys of `keys` that have a translation, translated, in order.
pub open spec fn translated(keys: Seq<Keycode>) -> Seq<Key>
    decreases keys.len(),
{
    if keys.len() == 0 {
        Seq::empty()
    } else {
        match event_key_of(keys.last()) {
            Some(k) => translated(keys.drop_last()).push(k),
            None => translated(keys.drop_last()),
        }
    }
}

/// The text of `string` as one insertion.
pub fn send_string(string: &str) -> (plan: Vec<Synthetic>)
    ensures
        plan_view(plan@) == seq![SyntheticView::Text(string@)],
{
    let mut plan: Vec<Synthetic> = Vec::new();
    plan.push(Synthetic::Text(string.to_owned()));
    assert(plan_view(plan@) =~= seq![SyntheticView::Text(string@)]);
    plan
}

/// The text of `string` character by character, each as an insertion of its
/// own, for a target that takes no insertion of more than one character.
pub fn send_string_by_char(string: &str) -> (plan: Vec<Synthetic>)
    ensures
        plan_view(plan@) == Seq::new(
            string@.len(),
            |i: int| SyntheticView::Text(seq![string@[i]]),
        ),
{
    let n: usize = string.unicode_len();
    let mut plan: Vec<Synthetic> = Vec::new();
    let mut i: usize = 0;
    while i < n
        invariant
            n == string@.len(),
            i <= n,
            plan@.len() == i,
            forall|k: int|
                0 <= k < i ==> (#[trigger] plan@[k])@ == SyntheticView::Text(seq![string@[k]]),
        decreases n - i,
    {
        let one = string.substring_char(i, i + 1).to_owned();
        assert(one@ =~= seq![string@[i as int]]);
        plan.push(Synthetic::Text(one));
        i += 1;
    }
    assert(plan_view(plan@) =~= Seq::new(
        string@.len(),
        |i: int| SyntheticView::Text(seq![string@[i]]),
    ));
    plan
}

/// `len` taps of `key`; none where `len` is not positive.
pub fn send_key_times(key: Key, len: i32) -> (plan: Vec<Synthetic>)
    ensures
        plan_view(plan@) == taps(
            key,
            if len > 0 {
                len as nat
            } else {
                0
            },
        ),
{
    let mut plan: Vec<Synthetic> = Vec::new();
    let n: i32 = if len > 0 {
        len
    } else {
        0
    };
    let mut i: i32 = 0;
    while i < n
        invariant
            0 <= i <= n,
            plan@.len() == 2 * i,
            forall|k: int| 0 <= k < plan@.len() ==> (#[trigger] plan@[k])@ == taps(key, i as nat)[k],
        decreases n - i,
    {
        plan.push(Synthetic::KeyPress(key));
        plan.push(Synthetic::KeyRelease(key));
        i += 1;
    }
    assert(plan_view(plan@) =~= taps(key, i as nat));
    plan
}

/// The paste chord: left control and V down, then V and left control up.
pub fn send_paste_hotkeys() -> (plan: Vec<Synthetic>)
    ensures
        plan_view(plan@) == seq![
            SyntheticView::KeyPress(Key::ControlLeft),
            SyntheticView::KeyPress(Key::KeyV),
            SyntheticView::KeyRelease(Key::KeyV),
            SyntheticView::KeyRelease(Key::ControlLeft),
        ],
{
    let mut plan: Vec<Synthetic> = Vec::new();
    plan.push(Synthetic::KeyPress(Key::ControlLeft));
    plan.push(Synthetic::KeyPress(Key::KeyV));
    plan.push(Synthetic::KeyRelease(Key::KeyV));
    plan.push(Synthetic::KeyRelease(Key::ControlLeft));
    assert(plan_view(plan@) =~= seq![
        SyntheticView::KeyPress(Key::ControlLeft),
        SyntheticView::KeyPress(Key::KeyV),
        SyntheticView::KeyRelease(Key::KeyV),
        SyntheticView::KeyRelease(Key::ControlLeft),
    ]);
    plan
}

/// The chord of `hotkeys`; nothing where there are none.
pub fn send_hotkeys(hotkeys: Option<Vec<Key>>) -> (plan: Vec<Synthetic>)
    ensures
        plan_view(plan@) == match hotkeys {
            Some(keys) => chord(keys@),
            None => Seq::empty(),
        },
{
    let mut plan: Vec<Synthetic> = Vec::new();
    match hotkeys {
        None => {
            assert(plan_view(plan@) =~= Seq::empty());
        },
        Some(keys) => {
            let n: usize = keys.len();
            let mut i: usize = 0;
            while i < n
                invariant
                    n == keys@.len(),
                    i <= n,
                    plan@.len() == i,
                    forall|k: int|
                        0 <= k < i ==> (#[trigger] plan@[k])@ == SyntheticView::KeyPress(keys@[k]),
                decreases n - i,
            {
                plan.push(Synthetic::KeyPress(keys[i]));
                i += 1;
            }
            let mut j: usize = 0;
            while j < n
                invariant
                    n == keys@.len(),
                    j <= n,
                    plan@.len() == n + j,
                    forall|k: int|
                        0 <= k < n ==> (#[trigger] plan@[k])@ == SyntheticView::KeyPress(keys@[k]),
                    forall|k: int|
                        n <= k < n + j ==> (#[trigger] plan@[k])@ == SyntheticView::KeyRelease(
                            keys@[k - n],
                        ),
                decreases n - j,
            {
                plan.push(Synthetic::KeyRelease(keys[j]));
                j += 1;
            }
            assert(plan_view(plan@) =~= chord(keys@));
        },
    }
    plan
}

/// Translates a combination key by key and drops the keys that have no
/// translation. An empty combination has no translation at all.
pub fn hotkeys_list_devicequery_to_rdev(hotkeys: Vec<Keycode>) -> (r: Option<Vec<Key>>)
    ensures
        hotkeys@.len() == 0 ==> r is None,
        hotkeys@.len() > 0 ==> r is Some && r->0@ == translated(hotkeys@),
{
    if hotkeys.is_empty() {
        return None;
    }
    let n: usize = hotkeys.len();
    let mut rdev_keys: Vec<Key> = Vec::new();
    let mut i: usize = 0;
    while i < n
        invariant
            n == hotkeys@.len(),
            i <= n,
            rdev_keys@ == translated(hotkeys@.subrange(0, i as int)),
        decreases n - i,
    {
        let found = key_mapping_devicequery_rdev(hotkeys[i]);
        proof {
            let next = hotkeys@.subrange(0, i + 1);
            assert(next.drop_last() =~= hotkeys@.subrange(0, i as int));
            assert(next.last() == hotkeys@[i as int]);
        }
        if let Some(rdev_key) = found {
            rdev_keys.push(rdev_key);
        }
        i += 1;
    }
    assert(hotkeys@.subrange(0, n as int) =~= hotkeys@);
    Some(rdev_keys)
}

} // verus!
