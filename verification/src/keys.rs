//! Translation of the host's keys, modifier flags and mouse buttons into the
//! toolkit's vocabulary.

use vstd::prelude::*;

verus! {

/// A key as the host reports it.
#[derive(Clone, Copy, Debug, PartialEq, Eq, Hash, Structural)]
pub enum KeyCode {
    Key1, Key2, Key3, Key4, Key5, Key6, Key7, Key8, Key9, Key0,
    A, B, C, D, E, F, G, H, I, J, K, L, M,
    N, O, P, Q, R, S, T, U, V, W, X, Y, Z,
    Escape,
    F1, F2, F3, F4, F5, F6, F7, F8, F9, F10, F11, F12,
    F13, F14, F15, F16, F17, F18, F19, F20, F21, F22, F23, F24,
    Snapshot, Scroll, Pause,
    Insert, Home, Delete, End, PageDown, PageUp,
    Left, Up, Right, Down,
    Back, Return, Space,
    Compose, Caret, Numlock,
    Numpad0, Numpad1, Numpad2, Numpad3, Numpad4,
    Numpad5, Numpad6, Numpad7, Numpad8, Numpad9,
    NumpadAdd, NumpadDivide, NumpadDecimal, NumpadComma,
    NumpadEnter, NumpadEquals, NumpadMultiply, NumpadSubtract,
    AbntC1, AbntC2, Apostrophe, Apps, Asterisk, At, Ax, Backslash,
    Calculator, Capital, Colon, Comma, Convert, Equals, Grave,
    Kana, Kanji, LAlt, LBracket, LControl, LShift, LWin,
    Mail, MediaSelect, MediaStop, Minus, Mute, MyComputer,
    NavigateForward, NavigateBackward, NextTrack, NoConvert, OEM102,
    Period, PlayPause, Plus, Power, PrevTrack,
    RAlt, RBracket, RControl, RShift, RWin,
    Semicolon, Slash, Sleep, Stop, Sysrq, Tab, Underline, Unlabeled,
    VolumeDown, VolumeUp, Wake,
    WebBack, WebFavorites, WebForward, WebHome, WebRefresh, WebSearch, WebStop,
    Yen, Copy, Paste, Cut,
}

/// A key as the toolkit knows it.
#[derive(Clone, Copy, Debug, PartialEq, Eq, Hash, Structural)]
pub enum Key {
    ArrowDown,
    ArrowLeft,
    ArrowRight,
    ArrowUp,
    Escape,
    Tab,
    Backspace,
    Enter,
    Space,
    Insert,
    Delete,
    Home,
    End,
    PageUp,
    PageDown,
    A,
    K,
    U,
    W,
    Z,
}

/// The toolkit key that a host key stands for, if it stands for one.
pub open spec fn spec_translate_keycode(key: KeyCode) -> Option<Key> {
    match key {
        KeyCode::Escape => Some(Key::Escape),
        KeyCode::Insert => Some(Key::Insert),
        KeyCode::Home => Some(Key::Home),
        KeyCode::Delete => Some(Key::Delete),
        KeyCode::End => Some(Key::End),
        KeyCode::PageDown => Some(Key::PageDown),
        KeyCode::PageUp => Some(Key::PageUp),
        KeyCode::Left => Some(Key::ArrowLeft),
        KeyCode::Up => Some(Key::ArrowUp),
        KeyCode::Right => Some(Key::ArrowRight),
        KeyCode::Down => Some(Key::ArrowDown),
        KeyCode::Back => Some(Key::Backspace),
        KeyCode::Return => Some(Key::Enter),
        KeyCode::Tab => Some(Key::Tab),
        KeyCode::Space => Some(Key::Space),
        KeyCode::A => Some(Key::A),
        KeyCode::K => Some(Key::K),
        KeyCode::U => Some(Key::U),
        KeyCode::W => Some(Key::W),
        KeyCode::Z => Some(Key::Z),
        _ => None,
    }
}

/// Translates a host key. A host key without a toolkit counterpart gives
/// `None`, and the caller drops the event.
pub fn translate_keycode(key: KeyCode) -> (out: Option<Key>)
    ensures
        out == spec_translate_keycode(key),
{
    match key {
        KeyCode::Escape => Some(Key::Escape),
        KeyCode::Insert => Some(Key::Insert),
        KeyCode::Home => Some(Key::Home),
        KeyCode::Delete => Some(Key::Delete),
        KeyCode::End => Some(Key::End),
        KeyCode::PageDown => Some(Key::PageDown),
        KeyCode::PageUp => Some(Key::PageUp),
        KeyCode::Left => Some(Key::ArrowLeft),
        KeyCode::Up => Some(Key::ArrowUp),
        KeyCode::Right => Some(Key::ArrowRight),
        KeyCode::Down => Some(Key::ArrowDown),
        KeyCode::Back => Some(Key::Backspace),
        KeyCode::Return => Some(Key::Enter),
        KeyCode::Tab => Some(Key::Tab),
        KeyCode::Space => Some(Key::Space),
        KeyCode::A => Some(Key::A),
        KeyCode::K => Some(Key::K),
        KeyCode::U => Some(Key::U),
        KeyCode::W => Some(Key::W),
        KeyCode::Z => Some(Key::Z),
        _ => None,
    }
}

/// Flag of the left or right Shift key.
pub const SHIFT: u8 = 0b0000_0001;

/// Flag of the left or right Control key.
pub const CTRL: u8 = 0b0000_0010;

/// Flag of the left or right Alt key.
pub const ALT: u8 = 0b0000_0100;

/// Flag of the left or right logo key.
pub const LOGO: u8 = 0b0000_1000;

/// The host's modifier keys that are down, as a set of flags.
#[derive(Clone, Copy, Debug, PartialEq, Eq, Structural)]
pub struct KeyMods {
    pub bits: u8,
}

impl KeyMods {
    /// Whether this set and `flags` have a flag in common.
    pub open spec fn spec_intersects(self, flags: u8) -> bool {
        self.bits & flags != 0
    }

    /// Whether this set and `flags` have a flag in common.
    pub fn intersects(&self, flags: u8) -> (b: bool)
        ensures
            b == self.spec_intersects(flags),
    {
        self.bits & flags != 0
    }
}

/// The platform convention for the command modifier.
#[derive(Clone, Copy, Debug, PartialEq, Eq, Structural)]
pub enum Platform {
    /// The logo key is the command key.
    Mac,
    /// The control key is the command key.
    Other,
}

/// The state of the modifier keys as the toolkit knows it.
#[derive(Clone, Copy, Debug, PartialEq, Eq, Structural)]
pub struct Modifiers {
    pub alt: bool,
    pub ctrl: bool,
    pub shift: bool,
    pub mac_cmd: bool,
    pub command: bool,
}

/// The toolkit's modifier state for a set of host modifier flags.
pub open spec fn spec_translate_modifier(keymods: KeyMods, platform: Platform) -> Modifiers {
    Modifiers {
        alt: keymods.spec_intersects(ALT),
        ctrl: keymods.spec_intersects(CTRL),
        shift: keymods.spec_intersects(SHIFT),
        mac_cmd: platform == Platform::Mac && keymods.spec_intersects(LOGO),
        command: if platform == Platform::Mac {
            keymods.spec_intersects(LOGO)
        } else {
            keymods.spec_intersects(CTRL)
        },
    }
}

/// Translates the host's modifier flags. Flags beyond the four known ones
/// are ignored.
pub fn translate_modifier(keymods: KeyMods, platform: Platform) -> (out: Modifiers)
    ensures
        out == spec_translate_modifier(keymods, platform),
{
    let logo = keymods.intersects(LOGO);
    let ctrl = keymods.intersects(CTRL);
    let mac = match platform {
        Platform::Mac => true,
        Platform::Other => false,
    };
    Modifiers {
        alt: keymods.intersects(ALT),
        ctrl,
        shift: keymods.intersects(SHIFT),
        mac_cmd: mac && logo,
        command: if mac { logo } else { ctrl },
    }
}

/// A mouse button as the host reports it.
#[derive(Clone, Copy, Debug, PartialEq, Eq, Structural)]
pub enum MouseButton {
    Left,
    Middle,
    Right,
}

/// A pointer button as the toolkit knows it.
#[derive(Clone, Copy, Debug, PartialEq, Eq, Structural)]
pub enum PointerButton {
    Primary,
    Secondary,
    Middle,
}

/// The toolkit's pointer button for a host mouse button.
pub open spec fn spec_translate_button(button: MouseButton) -> PointerButton {
    match button {
        MouseButton::Left => PointerButton::Primary,
        MouseButton::Right => PointerButton::Secondary,
        MouseButton::Middle => PointerButton::Middle,
    }
}

/// Translates a host mouse button.
pub fn translate_button(button: MouseButton) -> (out: PointerButton)
    ensures
        out == spec_translate_button(button),
{
    match button {
        MouseButton::Left => PointerButton::Primary,
        MouseButton::Right => PointerButton::Secondary,
        MouseButton::Middle => PointerButton::Middle,
    }
}

} // verus!
