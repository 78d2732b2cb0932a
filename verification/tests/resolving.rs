//! The layout-aware resolver: fallback to the baseline label,
//! uppercasing of reported glyphs, the sharp-s exception, and
//! independence from layout for keys outside the writing system.

use livesplit_hotkey::{KeyCode, KeyCodeClass};

#[test]
fn no_layout_answer_falls_back_to_baseline() {
    assert_eq!(KeyCode::KeyA.resolve(None), KeyCode::KeyA.as_str());
    assert_eq!(KeyCode::Semicolon.resolve(None), KeyCode::Semicolon.as_str());
    assert_eq!(KeyCode::Digit0.resolve(None), "0");
}

#[test]
fn reported_glyphs_are_uppercased() {
    assert_eq!(KeyCode::KeyA.resolve(Some("a")), "A");
    assert_eq!(KeyCode::KeyZ.resolve(Some("y")), "Y");
    assert_eq!(KeyCode::Semicolon.resolve(Some("é")), "É");
    assert_eq!(KeyCode::KeyA.resolve(Some("A")), "A");
}

#[test]
fn sharp_s_is_kept_unchanged() {
    assert_eq!(KeyCode::Minus.resolve(Some("ß")), "ß");
    assert_eq!(KeyCode::KeyS.resolve(Some("ß")), "ß");
}

#[test]
fn non_writing_system_keys_ignore_the_layout() {
    assert_eq!(KeyCode::F5.classify(), KeyCodeClass::Function);
    assert_eq!(KeyCode::F5.resolve(Some("x")), KeyCode::F5.as_str());
    assert_eq!(KeyCode::F5.resolve(None), KeyCode::F5.as_str());
    assert_eq!(KeyCode::Enter.resolve(Some("ß")), KeyCode::Enter.as_str());
    assert_eq!(KeyCode::Gamepad3.resolve(Some("a")), "Gamepad 3");
    assert_eq!(KeyCode::NumpadAdd.resolve(Some("a")), "Numpad +");
}
