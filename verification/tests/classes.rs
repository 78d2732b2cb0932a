//! Classification examples: one probe per class, plus the boundary
//! decisions that the partition fixes by design.

use livesplit_hotkey::{KeyCode, KeyCodeClass};

#[test]
fn writing_system_examples() {
    assert_eq!(KeyCode::KeyA.classify(), KeyCodeClass::WritingSystem);
    assert_eq!(KeyCode::Backquote.classify(), KeyCodeClass::WritingSystem);
    assert_eq!(KeyCode::Digit0.classify(), KeyCodeClass::WritingSystem);
    assert_eq!(KeyCode::IntlYen.classify(), KeyCodeClass::WritingSystem);
}

#[test]
fn function_row_examples() {
    assert_eq!(KeyCode::F5.classify(), KeyCodeClass::Function);
    assert_eq!(KeyCode::Escape.classify(), KeyCodeClass::Function);
    assert_eq!(KeyCode::PrintScreen.classify(), KeyCodeClass::Function);
}

#[test]
fn gamepad_examples() {
    assert_eq!(KeyCode::Gamepad10.classify(), KeyCodeClass::Gamepad);
    assert_eq!(KeyCode::Gamepad0.classify(), KeyCodeClass::Gamepad);
}

#[test]
fn arrow_pad_examples() {
    assert_eq!(KeyCode::ArrowUp.classify(), KeyCodeClass::ArrowPad);
    assert_eq!(KeyCode::ArrowLeft.classify(), KeyCodeClass::ArrowPad);
}

#[test]
fn modifier_keys_are_functional_not_writing_system() {
    assert_eq!(KeyCode::ShiftLeft.classify(), KeyCodeClass::Functional);
    assert_eq!(KeyCode::MetaRight.classify(), KeyCodeClass::Functional);
    assert_eq!(KeyCode::Space.classify(), KeyCodeClass::Functional);
    assert_eq!(KeyCode::KanaMode.classify(), KeyCodeClass::Functional);
}

#[test]
fn remaining_class_examples() {
    assert_eq!(KeyCode::Delete.classify(), KeyCodeClass::ControlPad);
    assert_eq!(KeyCode::Numpad5.classify(), KeyCodeClass::Numpad);
    assert_eq!(KeyCode::AudioVolumeUp.classify(), KeyCodeClass::Media);
    assert_eq!(KeyCode::Copy.classify(), KeyCodeClass::Legacy);
    assert_eq!(KeyCode::ZoomToggle.classify(), KeyCodeClass::NonStandard);
}
