//! The synchronous-query backend.

use input_query::input_handler::windows::{key_down, InputHandler, DOWN_BIT};
use input_query::KeyCode;

fn queried_keys() -> Vec<KeyCode> {
    vec![
        KeyCode::KeyEsc,
        KeyCode::Key1,
        KeyCode::Key2,
        KeyCode::Key3,
        KeyCode::Key4,
        KeyCode::Key5,
        KeyCode::Key6,
        KeyCode::Key7,
        KeyCode::Key8,
        KeyCode::Key9,
        KeyCode::Key0,
        KeyCode::KeyMinus,
        KeyCode::KeyEqual,
        KeyCode::KeyBackspace,
        KeyCode::KeyTab,
        KeyCode::KeyQ,
        KeyCode::KeyW,
        KeyCode::KeyE,
        KeyCode::KeyR,
        KeyCode::KeyT,
        KeyCode::KeyY,
        KeyCode::KeyU,
        KeyCode::KeyI,
        KeyCode::KeyO,
        KeyCode::KeyP,
        KeyCode::KeyLeftBrace,
        KeyCode::KeyRightBrace,
        KeyCode::KeyEnter,
        KeyCode::KeyLeftCtrl,
        KeyCode::KeyA,
        KeyCode::KeyS,
        KeyCode::KeyD,
        KeyCode::KeyF,
        KeyCode::KeyG,
        KeyCode::KeyH,
        KeyCode::KeyJ,
        KeyCode::KeyK,
        KeyCode::KeyL,
        KeyCode::KeySemicolon,
        KeyCode::KeyApostrophe,
        KeyCode::KeyGrave,
        KeyCode::KeyLeftShift,
        KeyCode::KeyBackslash,
        KeyCode::KeyZ,
        KeyCode::KeyX,
        KeyCode::KeyC,
        KeyCode::KeyV,
        KeyCode::KeyB,
        KeyCode::KeyN,
        KeyCode::KeyM,
        KeyCode::KeyComma,
        KeyCode::KeyDot,
        KeyCode::KeySlash,
        KeyCode::KeyRightShift,
        KeyCode::KeyKpAsterisk,
        KeyCode::KeyLeftAlt,
        KeyCode::KeySpace,
        KeyCode::KeyCapslock,
        KeyCode::KeyF1,
        KeyCode::KeyF2,
        KeyCode::KeyF3,
        KeyCode::KeyF4,
        KeyCode::KeyF5,
        KeyCode::KeyF6,
        KeyCode::KeyF7,
        KeyCode::KeyF8,
        KeyCode::KeyF9,
        KeyCode::KeyF10,
        KeyCode::KeyF11,
        KeyCode::KeyF12,
        KeyCode::KeyUp,
        KeyCode::KeyDown,
        KeyCode::KeyLeft,
        KeyCode::KeyRight,
    ]
}

#[test]
fn down_bit_is_the_high_bit() {
    assert_eq!(DOWN_BIT, 0x8000);
}

#[test]
fn key_down_masks_the_high_bit() {
    assert!(!key_down(0));
    assert!(!key_down(1));
    assert!(!key_down(0x7FFF));
    assert!(!key_down(0x4000));
    assert!(key_down(i16::MIN));
    assert!(key_down(-1));
    assert!(key_down(i16::MIN + 1));
    for raw in i16::MIN..=i16::MAX {
        assert_eq!(key_down(raw), (raw as u16) & 0x8000 != 0);
        assert_eq!(key_down(raw), raw < 0);
    }
}

#[test]
fn down_bit_set_for_one_key() {
    // The operating system says "down" for the letter A, and for every other
    // key only "pressed since the last query", which is discarded.
    let os = |vk: i32| -> i16 {
        if vk == 0x41 {
            i16::MIN
        } else {
            1
        }
    };
    let handler = InputHandler::new();
    for key in queried_keys() {
        assert_eq!(handler.is_pressed(key, os), key == KeyCode::KeyA, "{:?}", key);
    }
}

#[test]
fn each_key_queries_its_own_code() {
    let handler = InputHandler::new();
    for down in queried_keys() {
        let code = InputHandler::to_virtual_key(down) as i32;
        let os = move |vk: i32| -> i16 {
            if vk == code {
                -32767
            } else {
                0x7FFF
            }
        };
        for key in queried_keys() {
            assert_eq!(handler.is_pressed(key, os), key == down, "{:?} {:?}", down, key);
        }
    }
}

#[test]
fn one_query_per_call() {
    let calls = std::cell::Cell::new(0u32);
    let asked = std::cell::Cell::new(0i32);
    let os = |vk: i32| -> i16 {
        calls.set(calls.get() + 1);
        asked.set(vk);
        0
    };
    let handler = InputHandler::new();
    assert!(!handler.is_pressed(KeyCode::KeyEsc, &os));
    assert_eq!(calls.get(), 1);
    assert_eq!(asked.get(), 0x1B);
    assert!(!handler.is_pressed(KeyCode::KeyF12, &os));
    assert_eq!(calls.get(), 2);
    assert_eq!(asked.get(), 0x7B);
}

#[test]
fn failed_query_reads_as_not_pressed() {
    // A query that fails yields 0.
    let handler = InputHandler::new();
    for key in queried_keys() {
        assert!(!handler.is_pressed(key, |_| 0));
    }
}

#[test]
fn nothing_is_cached() {
    let state = std::cell::Cell::new(0i16);
    let os = |_vk: i32| -> i16 { state.get() };
    let mut handler = InputHandler::new();
    assert!(!handler.is_pressed(KeyCode::KeySpace, &os));
    state.set(i16::MIN);
    assert!(handler.is_pressed(KeyCode::KeySpace, &os));
    handler.update_inputs();
    assert!(handler.is_pressed(KeyCode::KeySpace, &os));
    state.set(1);
    assert!(!handler.is_pressed(KeyCode::KeySpace, &os));
}
