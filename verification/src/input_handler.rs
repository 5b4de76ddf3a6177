//! Key code definitions and the two backend cores.
//!
//! [`linux`] is the event-stream backend: the operating system reports key
//! presses and releases as discrete events, and the handler accumulates them.
//! [`windows`] is the synchronous-query backend: the operating system answers
//! "is key X down" directly, and the handler only translates and masks.

use vstd::prelude::*;

pub mod linux;
pub mod windows;

verus! {

/// Represents a keyboard key that can be queried.
///
/// A key is identified by its symbolic name. The number that a backend uses
/// for it is private to that backend: see
/// [`linux::evdev_code`] and [`windows::virtual_key`].
#[derive(Debug, Clone, Copy, PartialEq, Eq, Structural)]
pub enum KeyCode {
    /// Escape key
    KeyEsc,
    /// Number row keys
    Key1,
    Key2,
    Key3,
    Key4,
    Key5,
    Key6,
    Key7,
    Key8,
    Key9,
    Key0,
    /// Minus key (-)
    KeyMinus,
    /// Equal key (=)
    KeyEqual,
    /// Backspace key
    KeyBackspace,
    /// Tab key
    KeyTab,
    /// Letter keys - First row
    KeyQ,
    KeyW,
    KeyE,
    KeyR,
    KeyT,
    KeyY,
    KeyU,
    KeyI,
    KeyO,
    KeyP,
    /// Left bracket key ([)
    KeyLeftBrace,
    /// Right bracket key (])
    KeyRightBrace,
    /// Enter/Return key
    KeyEnter,
    /// Left Control key
    KeyLeftCtrl,
    /// Letter keys - Second row
    KeyA,
    KeyS,
    KeyD,
    KeyF,
    KeyG,
    KeyH,
    KeyJ,
    KeyK,
    KeyL,
    /// Semicolon key (;)
    KeySemicolon,
    /// Apostrophe/Quote key (')
    KeyApostrophe,
    /// Grave/Backtick key (`)
    KeyGrave,
    /// Left Shift key
    KeyLeftShift,
    /// Backslash key (\)
    KeyBackslash,
    /// Letter keys - Third row
    KeyZ,
    KeyX,
    KeyC,
    KeyV,
    KeyB,
    KeyN,
    KeyM,
    /// Comma key (,)
    KeyComma,
    /// Period/Dot key (.)
    KeyDot,
    /// Slash key (/)
    KeySlash,
    /// Right Shift key
    KeyRightShift,
    /// Keypad asterisk key (*)
    KeyKpAsterisk,
    /// Left Alt/Option key
    KeyLeftAlt,
    /// Space bar
    KeySpace,
    /// Caps Lock key
    KeyCapslock,
    /// Function keys
    KeyF1,
    KeyF2,
    KeyF3,
    KeyF4,
    KeyF5,
    KeyF6,
    KeyF7,
    KeyF8,
    KeyF9,
    KeyF10,
    KeyF11,
    KeyF12,
    /// Arrow keys
    KeyUp,
    KeyDown,
    KeyLeft,
    KeyRight,
}

} // verus!
