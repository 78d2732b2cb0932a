//! Baseline labels: exact expected values for representative keys of
//! each kind of label (characters, words, and pictograms).

use livesplit_hotkey::KeyCode;

#[test]
fn writing_system_labels_are_us_layout_characters() {
    assert_eq!(KeyCode::Backquote.as_str(), "`");
    assert_eq!(KeyCode::Backslash.as_str(), "\\");
    assert_eq!(KeyCode::KeyA.as_str(), "A");
    assert_eq!(KeyCode::Digit7.as_str(), "7");
    assert_eq!(KeyCode::Quote.as_str(), "'");
    assert_eq!(KeyCode::IntlYen.as_str(), "¥");
}

#[test]
fn symbolic_glyph_labels() {
    assert_eq!(KeyCode::ArrowUp.as_str(), "↑");
    assert_eq!(KeyCode::Backspace.as_str(), "⌫");
    assert_eq!(KeyCode::Enter.as_str(), "↵");
    assert_eq!(KeyCode::MediaPlayPause.as_str(), "⏯");
    assert_eq!(KeyCode::AudioVolumeUp.as_str(), "🔊");
}

#[test]
fn word_labels() {
    assert_eq!(KeyCode::Space.as_str(), "Space");
    assert_eq!(KeyCode::NumpadAdd.as_str(), "Numpad +");
    assert_eq!(KeyCode::PageDown.as_str(), "Page Down");
    assert_eq!(KeyCode::Gamepad10.as_str(), "Gamepad 10");
    assert_eq!(KeyCode::Pause.as_str(), "Pause Break");
}

#[test]
fn ime_key_labels() {
    assert_eq!(KeyCode::Convert.as_str(), "変換");
    assert_eq!(KeyCode::NonConvert.as_str(), "無変換");
    assert_eq!(KeyCode::Lang4.as_str(), "ひらがな");
}

#[test]
fn meta_key_labels() {
    assert_eq!(KeyCode::MetaLeft.as_str(), "⌘ Left");
    assert_eq!(KeyCode::MetaRight.as_str(), "⌘ Right");
}
