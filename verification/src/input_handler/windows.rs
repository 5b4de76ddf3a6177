//! Synchronous-query backend.
//!
//! The operating system answers "is key X down" with one call that takes a
//! virtual-key code and returns a bit-encoded state. Nothing is cached and
//! nothing runs in the background: each query is a live call. This module
//! holds what surrounds that call:
//!
//! - the key identity table, [`virtual_key`], from [`KeyCode`] to virtual-key
//!   code;
//! - [`key_down`], the one place where the raw state is masked down to a
//!   boolean;
//! - [`InputHandler`], which puts the two around a call that it is handed.

use vstd::prelude::*;
use crate::input_handler::KeyCode;

verus! {

/// The bit of a raw key state that says "currently down". Every other bit is
/// discarded.
pub const DOWN_BIT: u16 = 0x8000;

/// The virtual-key code of a key: the number by which the operating system's
/// key-state query knows it.
pub open spec fn virtual_key(key: KeyCode) -> u16 {
    match key {
        KeyCode::KeyEsc => 0x1B,
        KeyCode::Key1 => 0x31,
        KeyCode::Key2 => 0x32,
        KeyCode::Key3 => 0x33,
        KeyCode::Key4 => 0x34,
        KeyCode::Key5 => 0x35,
        KeyCode::Key6 => 0x36,
        KeyCode::Key7 => 0x37,
        KeyCode::Key8 => 0x38,
        KeyCode::Key9 => 0x39,
        KeyCode::Key0 => 0x30,
        KeyCode::KeyMinus => 0xBD,
        KeyCode::KeyEqual => 0xBB,
        KeyCode::KeyBackspace => 0x08,
        KeyCode::KeyTab => 0x09,
        KeyCode::KeyQ => 0x51,
        KeyCode::KeyW => 0x57,
        KeyCode::KeyE => 0x45,
        KeyCode::KeyR => 0x52,
        KeyCode::KeyT => 0x54,
        KeyCode::KeyY => 0x59,
        KeyCode::KeyU => 0x55,
        KeyCode::KeyI => 0x49,
        KeyCode::KeyO => 0x4F,
        KeyCode::KeyP => 0x50,
        KeyCode::KeyLeftBrace => 0xDB,
        KeyCode::KeyRightBrace => 0xDD,
        KeyCode::KeyEnter => 0x0D,
        KeyCode::KeyLeftCtrl => 0xA2,
        KeyCode::KeyA => 0x41,
        KeyCode::KeyS => 0x53,
        KeyCode::KeyD => 0x44,
        KeyCode::KeyF => 0x46,
        KeyCode::KeyG => 0x47,
        KeyCode::KeyH => 0x48,
        KeyCode::KeyJ => 0x4A,
        KeyCode::KeyK => 0x4B,
        KeyCode::KeyL => 0x4C,
        KeyCode::KeySemicolon => 0xBA,
        KeyCode::KeyApostrophe => 0xDE,
        KeyCode::KeyGrave => 0xC0,
        KeyCode::KeyLeftShift => 0xA0,
        KeyCode::KeyBackslash => 0xDC,
        KeyCode::KeyZ => 0x5A,
        KeyCode::KeyX => 0x58,
        KeyCode::KeyC => 0x43,
        KeyCode::KeyV => 0x56,
        KeyCode::KeyB => 0x42,
        KeyCode::KeyN => 0x4E,
        KeyCode::KeyM => 0x4D,
        KeyCode::KeyComma => 0xBC,
        KeyCode::KeyDot => 0xBE,
        KeyCode::KeySlash => 0xBF,
        KeyCode::KeyRightShift => 0xA1,
        KeyCode::KeyKpAsterisk => 0x6A,
        KeyCode::KeyLeftAlt => 0xA4,
        KeyCode::KeySpace => 0x20,
        KeyCode::KeyCapslock => 0x14,
        KeyCode::KeyF1 => 0x70,
        KeyCode::KeyF2 => 0x71,
        KeyCode::KeyF3 => 0x72,
        KeyCode::KeyF4 => 0x73,
        KeyCode::KeyF5 => 0x74,
        KeyCode::KeyF6 => 0x75,
        KeyCode::KeyF7 => 0x76,
        KeyCode::KeyF8 => 0x77,
        KeyCode::KeyF9 => 0x78,
        KeyCode::KeyF10 => 0x79,
        KeyCode::KeyF11 => 0x7A,
        KeyCode::KeyF12 => 0x7B,
        KeyCode::KeyUp => 0x26,
        KeyCode::KeyDown => 0x28,
        KeyCode::KeyLeft => 0x25,
        KeyCode::KeyRight => 0x27,
    }
}

/// No two keys share a virtual-key code.
pub proof fn lemma_virtual_key_injective(a: KeyCode, b: KeyCode)
    requires
        virtual_key(a) == virtual_key(b),
    ensures
        a == b,
{
}

/// Every virtual-key code of the table is a valid one: from 0x01 to 0xFE.
pub proof fn lemma_virtual_key_valid(key: KeyCode)
    ensures
        0x01 <= virtual_key(key) <= 0xFE,
{
}

/// Whether a raw key state has [`DOWN_BIT`] set.
pub open spec fn is_down(raw: i16) -> bool {
    (raw as u16) & DOWN_BIT != 0
}

/// The down bit is the sign bit: a raw state says "down" exactly when it is
/// negative. A state of 0, which is also what a failed query yields, says
/// "not down".
pub proof fn lemma_is_down_sign(raw: i16)
    ensures
        is_down(raw) <==> raw < 0,
{
    assert(((raw as u16) & 0x8000 != 0) <==> raw < 0) by (bit_vector);
}

/// Masks a raw key state down to "is the key down right now".
pub fn key_down(raw: i16) -> (down: bool)
    ensures
        down == is_down(raw),
{
    (#[verifier::truncate] (raw as u16)) & DOWN_BIT != 0
}

/// The handler of the synchronous-query backend. It has no state: whatever
/// it reports is what the query said at the time of the call.
pub struct InputHandler;

impl InputHandler {
    /// Creates a new input handler.
    pub fn new() -> (handler: Self) {
        InputHandler
    }

    /// Does nothing: this backend keeps no state to refresh. It is here for
    /// callers that refresh before each query, whatever the backend.
    pub fn update_inputs(&mut self)
        ensures
            *final(self) == *old(self),
    {
    }

    /// Checks if a specific key is currently pressed.
    ///
    /// Translates `key` to its virtual-key code, issues exactly one `query`
    /// with that code, and reports the down bit of what came back.
    pub fn is_pressed<F: Fn(i32) -> i16>(&self, key: KeyCode, query: F) -> (pressed: bool)
        requires
            call_requires(query, (virtual_key(key) as i32,)),
        ensures
            exists|raw: i16|
                call_ensures(query, (virtual_key(key) as i32,), raw) && pressed == is_down(raw),
    {
        let vk: u16 = Self::to_virtual_key(key);
        let raw: i16 = query(vk as i32);
        key_down(raw)
    }

    /// The virtual-key code of a key.
    pub fn to_virtual_key(key: KeyCode) -> (vk: u16)
        ensures
            vk == virtual_key(key),
            0x01 <= vk <= 0xFE,
    {
        match key {
            KeyCode::KeyEsc => 0x1B,
            KeyCode::Key1 => 0x31,
            KeyCode::Key2 => 0x32,
            KeyCode::Key3 => 0x33,
            KeyCode::Key4 => 0x34,
            KeyCode::Key5 => 0x35,
            KeyCode::Key6 => 0x36,
            KeyCode::Key7 => 0x37,
            KeyCode::Key8 => 0x38,
            KeyCode::Key9 => 0x39,
            KeyCode::Key0 => 0x30,
            KeyCode::KeyMinus => 0xBD,
            KeyCode::KeyEqual => 0xBB,
            KeyCode::KeyBackspace => 0x08,
            KeyCode::KeyTab => 0x09,
            KeyCode::KeyQ => 0x51,
            KeyCode::KeyW => 0x57,
            KeyCode::KeyE => 0x45,
            KeyCode::KeyR => 0x52,
            KeyCode::KeyT => 0x54,
            KeyCode::KeyY => 0x59,
            KeyCode::KeyU => 0x55,
            KeyCode::KeyI => 0x49,
            KeyCode::KeyO => 0x4F,
            KeyCode::KeyP => 0x50,
            KeyCode::KeyLeftBrace => 0xDB,
            KeyCode::KeyRightBrace => 0xDD,
            KeyCode::KeyEnter => 0x0D,
            KeyCode::KeyLeftCtrl => 0xA2,
            KeyCode::KeyA => 0x41,
            KeyCode::KeyS => 0x53,
            KeyCode::KeyD => 0x44,
            KeyCode::KeyF => 0x46,
            KeyCode::KeyG => 0x47,
            KeyCode::KeyH => 0x48,
            KeyCode::KeyJ => 0x4A,
            KeyCode::KeyK => 0x4B,
            KeyCode::KeyL => 0x4C,
            KeyCode::KeySemicolon => 0xBA,
            KeyCode::KeyApostrophe => 0xDE,
            KeyCode::KeyGrave => 0xC0,
            KeyCode::KeyLeftShift => 0xA0,
            KeyCode::KeyBackslash => 0xDC,
            KeyCode::KeyZ => 0x5A,
            KeyCode::KeyX => 0x58,
            KeyCode::KeyC => 0x43,
            KeyCode::KeyV => 0x56,
            KeyCode::KeyB => 0x42,
            KeyCode::KeyN => 0x4E,
            KeyCode::KeyM => 0x4D,
            KeyCode::KeyComma => 0xBC,
            KeyCode::KeyDot => 0xBE,
            KeyCode::KeySlash => 0xBF,
            KeyCode::KeyRightShift => 0xA1,
            KeyCode::KeyKpAsterisk => 0x6A,
            KeyCode::KeyLeftAlt => 0xA4,
            KeyCode::KeySpace => 0x20,
            KeyCode::KeyCapslock => 0x14,
            KeyCode::KeyF1 => 0x70,
            KeyCode::KeyF2 => 0x71,
            KeyCode::KeyF3 => 0x72,
            KeyCode::KeyF4 => 0x73,
            KeyCode::KeyF5 => 0x74,
            KeyCode::KeyF6 => 0x75,
            KeyCode::KeyF7 => 0x76,
            KeyCode::KeyF8 => 0x77,
            KeyCode::KeyF9 => 0x78,
            KeyCode::KeyF10 => 0x79,
            KeyCode::KeyF11 => 0x7A,
            KeyCode::KeyF12 => 0x7B,
            KeyCode::KeyUp => 0x26,
            KeyCode::KeyDown => 0x28,
            KeyCode::KeyLeft => 0x25,
            KeyCode::KeyRight => 0x27,
        }
    }
}

} // verus!
