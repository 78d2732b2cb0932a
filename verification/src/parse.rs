//! The name parser: from an input token to the matching key
//! identity. The parser accepts each identity's canonical name plus a
//! fixed set of legacy alias spellings, exactly and case-sensitively;
//! everything else is rejected as unrecognized.

use crate::class::class_of;
use crate::key_code::{KeyCode, KeyCodeClass};
use crate::name::name_of;
use vstd::prelude::*;

verus! {

/// Whether `s` is one of the registered legacy alias spellings of `k`:
/// single-character shorthand for letter and digit keys, the historical
/// `OS` spellings of the meta keys, the legacy `Volume` spellings of
/// the audio keys, and `LaunchMediaPlayer` for the media-select key.
pub open spec fn is_alias(s: Seq<char>, k: KeyCode) -> bool {
    match k {
        KeyCode::Digit0 => s == "0"@,
        KeyCode::Digit1 => s == "1"@,
        KeyCode::Digit2 => s == "2"@,
        KeyCode::Digit3 => s == "3"@,
        KeyCode::Digit4 => s == "4"@,
        KeyCode::Digit5 => s == "5"@,
        KeyCode::Digit6 => s == "6"@,
        KeyCode::Digit7 => s == "7"@,
        KeyCode::Digit8 => s == "8"@,
        KeyCode::Digit9 => s == "9"@,
        KeyCode::KeyA => s == "A"@,
        KeyCode::KeyB => s == "B"@,
        KeyCode::KeyC => s == "C"@,
        KeyCode::KeyD => s == "D"@,
        KeyCode::KeyE => s == "E"@,
        KeyCode::KeyF => s == "F"@,
        KeyCode::KeyG => s == "G"@,
        KeyCode::KeyH => s == "H"@,
        KeyCode::KeyI => s == "I"@,
        KeyCode::KeyJ => s == "J"@,
        KeyCode::KeyK => s == "K"@,
        KeyCode::KeyL => s == "L"@,
        KeyCode::KeyM => s == "M"@,
        KeyCode::KeyN => s == "N"@,
        KeyCode::KeyO => s == "O"@,
        KeyCode::KeyP => s == "P"@,
        KeyCode::KeyQ => s == "Q"@,
        KeyCode::KeyR => s == "R"@,
        KeyCode::KeyS => s == "S"@,
        KeyCode::KeyT => s == "T"@,
        KeyCode::KeyU => s == "U"@,
        KeyCode::KeyV => s == "V"@,
        KeyCode::KeyW => s == "W"@,
        KeyCode::KeyX => s == "X"@,
        KeyCode::KeyY => s == "Y"@,
        KeyCode::KeyZ => s == "Z"@,
        KeyCode::MetaLeft => s == "OSLeft"@,
        KeyCode::MetaRight => s == "OSRight"@,
        KeyCode::MediaSelect => s == "LaunchMediaPlayer"@,
        KeyCode::AudioVolumeDown => s == "VolumeDown"@,
        KeyCode::AudioVolumeMute => s == "VolumeMute"@,
        KeyCode::AudioVolumeUp => s == "VolumeUp"@,
        _ => false,
    }
}

/// Whether the token `s` names the identity `k`: it is either the
/// canonical name of `k` or one of its registered aliases.
pub open spec fn parses_to(s: Seq<char>, k: KeyCode) -> bool {
    s == name_of(k) || is_alias(s, k)
}

// The parse table, one spec function per section, in the order the
// table is scanned. Each branch lists the canonical name of one
// identity followed by its aliases, so the first match decides.

pub open spec fn parse_writing_system(s: Seq<char>) -> Option<KeyCode> {
    if s == "Backquote"@ {
        Some(KeyCode::Backquote)
    } else if s == "Backslash"@ {
        Some(KeyCode::Backslash)
    } else if s == "Backspace"@ {
        Some(KeyCode::Backspace)
    } else if s == "BracketLeft"@ {
        Some(KeyCode::BracketLeft)
    } else if s == "BracketRight"@ {
        Some(KeyCode::BracketRight)
    } else if s == "Comma"@ {
        Some(KeyCode::Comma)
    } else if s == "Digit0"@ || s == "0"@ {
        Some(KeyCode::Digit0)
    } else if s == "Digit1"@ || s == "1"@ {
        Some(KeyCode::Digit1)
    } else if s == "Digit2"@ || s == "2"@ {
        Some(KeyCode::Digit2)
    } else if s == "Digit3"@ || s == "3"@ {
        Some(KeyCode::Digit3)
    } else if s == "Digit4"@ || s == "4"@ {
        Some(KeyCode::Digit4)
    } else if s == "Digit5"@ || s == "5"@ {
        Some(KeyCode::Digit5)
    } else if s == "Digit6"@ || s == "6"@ {
        Some(KeyCode::Digit6)
    } else if s == "Digit7"@ || s == "7"@ {
        Some(KeyCode::Digit7)
    } else if s == "Digit8"@ || s == "8"@ {
        Some(KeyCode::Digit8)
    } else if s == "Digit9"@ || s == "9"@ {
        Some(KeyCode::Digit9)
    } else if s == "Equal"@ {
        Some(KeyCode::Equal)
    } else if s == "IntlBackslash"@ {
        Some(KeyCode::IntlBackslash)
    } else if s == "IntlRo"@ {
        Some(KeyCode::IntlRo)
    } else if s == "IntlYen"@ {
        Some(KeyCode::IntlYen)
    } else if s == "KeyA"@ || s == "A"@ {
        Some(KeyCode::KeyA)
    } else if s == "KeyB"@ || s == "B"@ {
        Some(KeyCode::KeyB)
    } else if s == "KeyC"@ || s == "C"@ {
        Some(KeyCode::KeyC)
    } else if s == "KeyD"@ || s == "D"@ {
        Some(KeyCode::KeyD)
    } else if s == "KeyE"@ || s == "E"@ {
        Some(KeyCode::KeyE)
    } else if s == "KeyF"@ || s == "F"@ {
        Some(KeyCode::KeyF)
    } else if s == "KeyG"@ || s == "G"@ {
        Some(KeyCode::KeyG)
    } else if s == "KeyH"@ || s == "H"@ {
        Some(KeyCode::KeyH)
    } else if s == "KeyI"@ || s == "I"@ {
        Some(KeyCode::KeyI)
    } else if s == "KeyJ"@ || s == "J"@ {
        Some(KeyCode::KeyJ)
    } else if s == "KeyK"@ || s == "K"@ {
        Some(KeyCode::KeyK)
    } else if s == "KeyL"@ || s == "L"@ {
        Some(KeyCode::KeyL)
    } else if s == "KeyM"@ || s == "M"@ {
        Some(KeyCode::KeyM)
    } else if s == "KeyN"@ || s == "N"@ {
        Some(KeyCode::KeyN)
    } else if s == "KeyO"@ || s == "O"@ {
        Some(KeyCode::KeyO)
    } else if s == "KeyP"@ || s == "P"@ {
        Some(KeyCode::KeyP)
    } else if s == "KeyQ"@ || s == "Q"@ {
        Some(KeyCode::KeyQ)
    } else if s == "KeyR"@ || s == "R"@ {
        Some(KeyCode::KeyR)
    } else if s == "KeyS"@ || s == "S"@ {
        Some(KeyCode::KeyS)
    } else if s == "KeyT"@ || s == "T"@ {
        Some(KeyCode::KeyT)
    } else if s == "KeyU"@ || s == "U"@ {
        Some(KeyCode::KeyU)
    } else if s == "KeyV"@ || s == "V"@ {
        Some(KeyCode::KeyV)
    } else if s == "KeyW"@ || s == "W"@ {
        Some(KeyCode::KeyW)
    } else if s == "KeyX"@ || s == "X"@ {
        Some(KeyCode::KeyX)
    } else if s == "KeyY"@ || s == "Y"@ {
        Some(KeyCode::KeyY)
    } else if s == "KeyZ"@ || s == "Z"@ {
        Some(KeyCode::KeyZ)
    } else if s == "Minus"@ {
        Some(KeyCode::Minus)
    } else if s == "Period"@ {
        Some(KeyCode::Period)
    } else if s == "Quote"@ {
        Some(KeyCode::Quote)
    } else if s == "Semicolon"@ {
        Some(KeyCode::Semicolon)
    } else if s == "Slash"@ {
        Some(KeyCode::Slash)
    } else {
        None
    }
}

pub open spec fn parse_functional(s: Seq<char>) -> Option<KeyCode> {
    if s == "AltLeft"@ {
        Some(KeyCode::AltLeft)
    } else if s == "AltRight"@ {
        Some(KeyCode::AltRight)
    } else if s == "CapsLock"@ {
        Some(KeyCode::CapsLock)
    } else if s == "ContextMenu"@ {
        Some(KeyCode::ContextMenu)
    } else if s == "ControlLeft"@ {
        Some(KeyCode::ControlLeft)
    } else if s == "ControlRight"@ {
        Some(KeyCode::ControlRight)
    } else if s == "Enter"@ {
        Some(KeyCode::Enter)
    } else if s == "MetaLeft"@ || s == "OSLeft"@ {
        Some(KeyCode::MetaLeft)
    } else if s == "MetaRight"@ || s == "OSRight"@ {
        Some(KeyCode::MetaRight)
    } else if s == "ShiftLeft"@ {
        Some(KeyCode::ShiftLeft)
    } else if s == "ShiftRight"@ {
        Some(KeyCode::ShiftRight)
    } else if s == "Space"@ {
        Some(KeyCode::Space)
    } else if s == "Tab"@ {
        Some(KeyCode::Tab)
    } else if s == "Convert"@ {
        Some(KeyCode::Convert)
    } else if s == "KanaMode"@ {
        Some(KeyCode::KanaMode)
    } else if s == "Lang1"@ {
        Some(KeyCode::Lang1)
    } else if s == "Lang2"@ {
        Some(KeyCode::Lang2)
    } else if s == "Lang3"@ {
        Some(KeyCode::Lang3)
    } else if s == "Lang4"@ {
        Some(KeyCode::Lang4)
    } else if s == "Lang5"@ {
        Some(KeyCode::Lang5)
    } else if s == "NonConvert"@ {
        Some(KeyCode::NonConvert)
    } else {
        None
    }
}

pub open spec fn parse_control_pad(s: Seq<char>) -> Option<KeyCode> {
    if s == "Delete"@ {
        Some(KeyCode::Delete)
    } else if s == "End"@ {
        Some(KeyCode::End)
    } else if s == "Help"@ {
        Some(KeyCode::Help)
    } else if s == "Home"@ {
        Some(KeyCode::Home)
    } else if s == "Insert"@ {
        Some(KeyCode::Insert)
    } else if s == "PageDown"@ {
        Some(KeyCode::PageDown)
    } else if s == "PageUp"@ {
        Some(KeyCode::PageUp)
    } else {
        None
    }
}

pub open spec fn parse_arrow_pad(s: Seq<char>) -> Option<KeyCode> {
    if s == "ArrowDown"@ {
        Some(KeyCode::ArrowDown)
    } else if s == "ArrowLeft"@ {
        Some(KeyCode::ArrowLeft)
    } else if s == "ArrowRight"@ {
        Some(KeyCode::ArrowRight)
    } else if s == "ArrowUp"@ {
        Some(KeyCode::ArrowUp)
    } else {
        None
    }
}

pub open spec fn parse_numpad(s: Seq<char>) -> Option<KeyCode> {
    if s == "NumLock"@ {
        Some(KeyCode::NumLock)
    } else if s == "Numpad0"@ {
        Some(KeyCode::Numpad0)
    } else if s == "Numpad1"@ {
        Some(KeyCode::Numpad1)
    } else if s == "Numpad2"@ {
        Some(KeyCode::Numpad2)
    } else if s == "Numpad3"@ {
        Some(KeyCode::Numpad3)
    } else if s == "Numpad4"@ {
        Some(KeyCode::Numpad4)
    } else if s == "Numpad5"@ {
        Some(KeyCode::Numpad5)
    } else if s == "Numpad6"@ {
        Some(KeyCode::Numpad6)
    } else if s == "Numpad7"@ {
        Some(KeyCode::Numpad7)
    } else if s == "Numpad8"@ {
        Some(KeyCode::Numpad8)
    } else if s == "Numpad9"@ {
        Some(KeyCode::Numpad9)
    } else if s == "NumpadAdd"@ {
        Some(KeyCode::NumpadAdd)
    } else if s == "NumpadBackspace"@ {
        Some(KeyCode::NumpadBackspace)
    } else if s == "NumpadClear"@ {
        Some(KeyCode::NumpadClear)
    } else if s == "NumpadClearEntry"@ {
        Some(KeyCode::NumpadClearEntry)
    } else if s == "NumpadComma"@ {
        Some(KeyCode::NumpadComma)
    } else if s == "NumpadDecimal"@ {
        Some(KeyCode::NumpadDecimal)
    } else if s == "NumpadDivide"@ {
        Some(KeyCode::NumpadDivide)
    } else if s == "NumpadEnter"@ {
        Some(KeyCode::NumpadEnter)
    } else if s == "NumpadEqual"@ {
        Some(KeyCode::NumpadEqual)
    } else if s == "NumpadHash"@ {
        Some(KeyCode::NumpadHash)
    } else if s == "NumpadMemoryAdd"@ {
        Some(KeyCode::NumpadMemoryAdd)
    } else if s == "NumpadMemoryClear"@ {
        Some(KeyCode::NumpadMemoryClear)
    } else if s == "NumpadMemoryRecall"@ {
        Some(KeyCode::NumpadMemoryRecall)
    } else if s == "NumpadMemoryStore"@ {
        Some(KeyCode::NumpadMemoryStore)
    } else if s == "NumpadMemorySubtract"@ {
        Some(KeyCode::NumpadMemorySubtract)
    } else if s == "NumpadMultiply"@ {
        Some(KeyCode::NumpadMultiply)
    } else if s == "NumpadParenLeft"@ {
        Some(KeyCode::NumpadParenLeft)
    } else if s == "NumpadParenRight"@ {
        Some(KeyCode::NumpadParenRight)
    } else if s == "NumpadStar"@ {
        Some(KeyCode::NumpadStar)
    } else if s == "NumpadSubtract"@ {
        Some(KeyCode::NumpadSubtract)
    } else {
        None
    }
}

pub open spec fn parse_function_row(s: Seq<char>) -> Option<KeyCode> {
    if s == "Escape"@ {
        Some(KeyCode::Escape)
    } else if s == "F1"@ {
        Some(KeyCode::F1)
    } else if s == "F2"@ {
        Some(KeyCode::F2)
    } else if s == "F3"@ {
        Some(KeyCode::F3)
    } else if s == "F4"@ {
        Some(KeyCode::F4)
    } else if s == "F5"@ {
        Some(KeyCode::F5)
    } else if s == "F6"@ {
        Some(KeyCode::F6)
    } else if s == "F7"@ {
        Some(KeyCode::F7)
    } else if s == "F8"@ {
        Some(KeyCode::F8)
    } else if s == "F9"@ {
        Some(KeyCode::F9)
    } else if s == "F10"@ {
        Some(KeyCode::F10)
    } else if s == "F11"@ {
        Some(KeyCode::F11)
    } else if s == "F12"@ {
        Some(KeyCode::F12)
    } else if s == "F13"@ {
        Some(KeyCode::F13)
    } else if s == "F14"@ {
        Some(KeyCode::F14)
    } else if s == "F15"@ {
        Some(KeyCode::F15)
    } else if s == "F16"@ {
        Some(KeyCode::F16)
    } else if s == "F17"@ {
        Some(KeyCode::F17)
    } else if s == "F18"@ {
        Some(KeyCode::F18)
    } else if s == "F19"@ {
        Some(KeyCode::F19)
    } else if s == "F20"@ {
        Some(KeyCode::F20)
    } else if s == "F21"@ {
        Some(KeyCode::F21)
    } else if s == "F22"@ {
        Some(KeyCode::F22)
    } else if s == "F23"@ {
        Some(KeyCode::F23)
    } else if s == "F24"@ {
        Some(KeyCode::F24)
    } else if s == "Fn"@ {
        Some(KeyCode::Fn)
    } else if s == "FnLock"@ {
        Some(KeyCode::FnLock)
    } else if s == "PrintScreen"@ {
        Some(KeyCode::PrintScreen)
    } else if s == "ScrollLock"@ {
        Some(KeyCode::ScrollLock)
    } else if s == "Pause"@ {
        Some(KeyCode::Pause)
    } else {
        None
    }
}

pub open spec fn parse_media(s: Seq<char>) -> Option<KeyCode> {
    if s == "BrowserBack"@ {
        Some(KeyCode::BrowserBack)
    } else if s == "BrowserFavorites"@ {
        Some(KeyCode::BrowserFavorites)
    } else if s == "BrowserForward"@ {
        Some(KeyCode::BrowserForward)
    } else if s == "BrowserHome"@ {
        Some(KeyCode::BrowserHome)
    } else if s == "BrowserRefresh"@ {
        Some(KeyCode::BrowserRefresh)
    } else if s == "BrowserSearch"@ {
        Some(KeyCode::BrowserSearch)
    } else if s == "BrowserStop"@ {
        Some(KeyCode::BrowserStop)
    } else if s == "Eject"@ {
        Some(KeyCode::Eject)
    } else if s == "LaunchApp1"@ {
        Some(KeyCode::LaunchApp1)
    } else if s == "LaunchApp2"@ {
        Some(KeyCode::LaunchApp2)
    } else if s == "LaunchMail"@ {
        Some(KeyCode::LaunchMail)
    } else if s == "MediaPlayPause"@ {
        Some(KeyCode::MediaPlayPause)
    } else if s == "MediaSelect"@ || s == "LaunchMediaPlayer"@ {
        Some(KeyCode::MediaSelect)
    } else if s == "MediaStop"@ {
        Some(KeyCode::MediaStop)
    } else if s == "MediaTrackNext"@ {
        Some(KeyCode::MediaTrackNext)
    } else if s == "MediaTrackPrevious"@ {
        Some(KeyCode::MediaTrackPrevious)
    } else if s == "Power"@ {
        Some(KeyCode::Power)
    } else if s == "Sleep"@ {
        Some(KeyCode::Sleep)
    } else if s == "AudioVolumeDown"@ || s == "VolumeDown"@ {
        Some(KeyCode::AudioVolumeDown)
    } else if s == "AudioVolumeMute"@ || s == "VolumeMute"@ {
        Some(KeyCode::AudioVolumeMute)
    } else if s == "AudioVolumeUp"@ || s == "VolumeUp"@ {
        Some(KeyCode::AudioVolumeUp)
    } else if s == "WakeUp"@ {
        Some(KeyCode::WakeUp)
    } else {
        None
    }
}

pub open spec fn parse_legacy(s: Seq<char>) -> Option<KeyCode> {
    if s == "Again"@ {
        Some(KeyCode::Again)
    } else if s == "Copy"@ {
        Some(KeyCode::Copy)
    } else if s == "Cut"@ {
        Some(KeyCode::Cut)
    } else if s == "Find"@ {
        Some(KeyCode::Find)
    } else if s == "Open"@ {
        Some(KeyCode::Open)
    } else if s == "Paste"@ {
        Some(KeyCode::Paste)
    } else if s == "Props"@ {
        Some(KeyCode::Props)
    } else if s == "Select"@ {
        Some(KeyCode::Select)
    } else if s == "Undo"@ {
        Some(KeyCode::Undo)
    } else {
        None
    }
}

pub open spec fn parse_gamepad(s: Seq<char>) -> Option<KeyCode> {
    if s == "Gamepad0"@ {
        Some(KeyCode::Gamepad0)
    } else if s == "Gamepad1"@ {
        Some(KeyCode::Gamepad1)
    } else if s == "Gamepad2"@ {
        Some(KeyCode::Gamepad2)
    } else if s == "Gamepad3"@ {
        Some(KeyCode::Gamepad3)
    } else if s == "Gamepad4"@ {
        Some(KeyCode::Gamepad4)
    } else if s == "Gamepad5"@ {
        Some(KeyCode::Gamepad5)
    } else if s == "Gamepad6"@ {
        Some(KeyCode::Gamepad6)
    } else if s == "Gamepad7"@ {
        Some(KeyCode::Gamepad7)
    } else if s == "Gamepad8"@ {
        Some(KeyCode::Gamepad8)
    } else if s == "Gamepad9"@ {
        Some(KeyCode::Gamepad9)
    } else if s == "Gamepad10"@ {
        Some(KeyCode::Gamepad10)
    } else if s == "Gamepad11"@ {
        Some(KeyCode::Gamepad11)
    } else if s == "Gamepad12"@ {
        Some(KeyCode::Gamepad12)
    } else if s == "Gamepad13"@ {
        Some(KeyCode::Gamepad13)
    } else if s == "Gamepad14"@ {
        Some(KeyCode::Gamepad14)
    } else if s == "Gamepad15"@ {
        Some(KeyCode::Gamepad15)
    } else if s == "Gamepad16"@ {
        Some(KeyCode::Gamepad16)
    } else if s == "Gamepad17"@ {
        Some(KeyCode::Gamepad17)
    } else if s == "Gamepad18"@ {
        Some(KeyCode::Gamepad18)
    } else if s == "Gamepad19"@ {
        Some(KeyCode::Gamepad19)
    } else {
        None
    }
}

pub open spec fn parse_non_standard(s: Seq<char>) -> Option<KeyCode> {
    if s == "BrightnessDown"@ {
        Some(KeyCode::BrightnessDown)
    } else if s == "BrightnessUp"@ {
        Some(KeyCode::BrightnessUp)
    } else if s == "DisplayToggleIntExt"@ {
        Some(KeyCode::DisplayToggleIntExt)
    } else if s == "KeyboardLayoutSelect"@ {
        Some(KeyCode::KeyboardLayoutSelect)
    } else if s == "LaunchAssistant"@ {
        Some(KeyCode::LaunchAssistant)
    } else if s == "LaunchControlPanel"@ {
        Some(KeyCode::LaunchControlPanel)
    } else if s == "LaunchScreenSaver"@ {
        Some(KeyCode::LaunchScreenSaver)
    } else if s == "MailForward"@ {
        Some(KeyCode::MailForward)
    } else if s == "MailReply"@ {
        Some(KeyCode::MailReply)
    } else if s == "MailSend"@ {
        Some(KeyCode::MailSend)
    } else if s == "MediaFastForward"@ {
        Some(KeyCode::MediaFastForward)
    } else if s == "MediaPause"@ {
        Some(KeyCode::MediaPause)
    } else if s == "MediaPlay"@ {
        Some(KeyCode::MediaPlay)
    } else if s == "MediaRecord"@ {
        Some(KeyCode::MediaRecord)
    } else if s == "MediaRewind"@ {
        Some(KeyCode::MediaRewind)
    } else if s == "PrivacyScreenToggle"@ {
        Some(KeyCode::PrivacyScreenToggle)
    } else if s == "SelectTask"@ {
        Some(KeyCode::SelectTask)
    } else if s == "ShowAllWindows"@ {
        Some(KeyCode::ShowAllWindows)
    } else if s == "ZoomToggle"@ {
        Some(KeyCode::ZoomToggle)
    } else {
        None
    }
}

/// What parsing a token yields: the first entry of the fixed table
/// that the token matches, or nothing when the token matches no entry.
pub open spec fn parse_spec(s: Seq<char>) -> Option<KeyCode> {
    if parse_writing_system(s) is Some {
        parse_writing_system(s)
    } else if parse_functional(s) is Some {
        parse_functional(s)
    } else if parse_control_pad(s) is Some {
        parse_control_pad(s)
    } else if parse_arrow_pad(s) is Some {
        parse_arrow_pad(s)
    } else if parse_numpad(s) is Some {
        parse_numpad(s)
    } else if parse_function_row(s) is Some {
        parse_function_row(s)
    } else if parse_media(s) is Some {
        parse_media(s)
    } else if parse_legacy(s) is Some {
        parse_legacy(s)
    } else if parse_gamepad(s) is Some {
        parse_gamepad(s)
    } else if parse_non_standard(s) is Some {
        parse_non_standard(s)
    } else {
        None
    }
}

/// Relies on `str`'s `PartialEq`: two string slices compare equal
/// exactly when they hold the same sequence of characters.
#[verifier::external_body]
pub(crate) fn str_eq(a: &str, b: &str) -> (r: bool)
    ensures
        r == (a@ == b@),
{
    a == b
}

// The executable scanners, one per section of the parse table, each
// proved to return exactly what its spec function says.

fn scan_writing_system(s: &str) -> (r: Option<KeyCode>)
    ensures
        r == parse_writing_system(s@),
{
    if str_eq(s, "Backquote") {
        return Some(KeyCode::Backquote);
    }
    if str_eq(s, "Backslash") {
        return Some(KeyCode::Backslash);
    }
    if str_eq(s, "Backspace") {
        return Some(KeyCode::Backspace);
    }
    if str_eq(s, "BracketLeft") {
        return Some(KeyCode::BracketLeft);
    }
    if str_eq(s, "BracketRight") {
        return Some(KeyCode::BracketRight);
    }
    if str_eq(s, "Comma") {
        return Some(KeyCode::Comma);
    }
    if str_eq(s, "Digit0") || str_eq(s, "0") {
        return Some(KeyCode::Digit0);
    }
    if str_eq(s, "Digit1") || str_eq(s, "1") {
        return Some(KeyCode::Digit1);
    }
    if str_eq(s, "Digit2") || str_eq(s, "2") {
        return Some(KeyCode::Digit2);
    }
    if str_eq(s, "Digit3") || str_eq(s, "3") {
        return Some(KeyCode::Digit3);
    }
    if str_eq(s, "Digit4") || str_eq(s, "4") {
        return Some(KeyCode::Digit4);
    }
    if str_eq(s, "Digit5") || str_eq(s, "5") {
        return Some(KeyCode::Digit5);
    }
    if str_eq(s, "Digit6") || str_eq(s, "6") {
        return Some(KeyCode::Digit6);
    }
    if str_eq(s, "Digit7") || str_eq(s, "7") {
        return Some(KeyCode::Digit7);
    }
    if str_eq(s, "Digit8") || str_eq(s, "8") {
        return Some(KeyCode::Digit8);
    }
    if str_eq(s, "Digit9") || str_eq(s, "9") {
        return Some(KeyCode::Digit9);
    }
    if str_eq(s, "Equal") {
        return Some(KeyCode::Equal);
    }
    if str_eq(s, "IntlBackslash") {
        return Some(KeyCode::IntlBackslash);
    }
    if str_eq(s, "IntlRo") {
        return Some(KeyCode::IntlRo);
    }
    if str_eq(s, "IntlYen") {
        return Some(KeyCode::IntlYen);
    }
    if str_eq(s, "KeyA") || str_eq(s, "A") {
        return Some(KeyCode::KeyA);
    }
    if str_eq(s, "KeyB") || str_eq(s, "B") {
        return Some(KeyCode::KeyB);
    }
    if str_eq(s, "KeyC") || str_eq(s, "C") {
        return Some(KeyCode::KeyC);
    }
    if str_eq(s, "KeyD") || str_eq(s, "D") {
        return Some(KeyCode::KeyD);
    }
    if str_eq(s, "KeyE") || str_eq(s, "E") {
        return Some(KeyCode::KeyE);
    }
    if str_eq(s, "KeyF") || str_eq(s, "F") {
        return Some(KeyCode::KeyF);
    }
    if str_eq(s, "KeyG") || str_eq(s, "G") {
        return Some(KeyCode::KeyG);
    }
    if str_eq(s, "KeyH") || str_eq(s, "H") {
        return Some(KeyCode::KeyH);
    }
    if str_eq(s, "KeyI") || str_eq(s, "I") {
        return Some(KeyCode::KeyI);
    }
    if str_eq(s, "KeyJ") || str_eq(s, "J") {
        return Some(KeyCode::KeyJ);
    }
    if str_eq(s, "KeyK") || str_eq(s, "K") {
        return Some(KeyCode::KeyK);
    }
    if str_eq(s, "KeyL") || str_eq(s, "L") {
        return Some(KeyCode::KeyL);
    }
    if str_eq(s, "KeyM") || str_eq(s, "M") {
        return Some(KeyCode::KeyM);
    }
    if str_eq(s, "KeyN") || str_eq(s, "N") {
        return Some(KeyCode::KeyN);
    }
    if str_eq(s, "KeyO") || str_eq(s, "O") {
        return Some(KeyCode::KeyO);
    }
    if str_eq(s, "KeyP") || str_eq(s, "P") {
        return Some(KeyCode::KeyP);
    }
    if str_eq(s, "KeyQ") || str_eq(s, "Q") {
        return Some(KeyCode::KeyQ);
    }
    if str_eq(s, "KeyR") || str_eq(s, "R") {
        return Some(KeyCode::KeyR);
    }
    if str_eq(s, "KeyS") || str_eq(s, "S") {
        return Some(KeyCode::KeyS);
    }
    if str_eq(s, "KeyT") || str_eq(s, "T") {
        return Some(KeyCode::KeyT);
    }
    if str_eq(s, "KeyU") || str_eq(s, "U") {
        return Some(KeyCode::KeyU);
    }
    if str_eq(s, "KeyV") || str_eq(s, "V") {
        return Some(KeyCode::KeyV);
    }
    if str_eq(s, "KeyW") || str_eq(s, "W") {
        return Some(KeyCode::KeyW);
    }
    if str_eq(s, "KeyX") || str_eq(s, "X") {
        return Some(KeyCode::KeyX);
    }
    if str_eq(s, "KeyY") || str_eq(s, "Y") {
        return Some(KeyCode::KeyY);
    }
    if str_eq(s, "KeyZ") || str_eq(s, "Z") {
        return Some(KeyCode::KeyZ);
    }
    if str_eq(s, "Minus") {
        return Some(KeyCode::Minus);
    }
    if str_eq(s, "Period") {
        return Some(KeyCode::Period);
    }
    if str_eq(s, "Quote") {
        return Some(KeyCode::Quote);
    }
    if str_eq(s, "Semicolon") {
        return Some(KeyCode::Semicolon);
    }
    if str_eq(s, "Slash") {
        return Some(KeyCode::Slash);
    }
    None
}

fn scan_functional(s: &str) -> (r: Option<KeyCode>)
    ensures
        r == parse_functional(s@),
{
    if str_eq(s, "AltLeft") {
        return Some(KeyCode::AltLeft);
    }
    if str_eq(s, "AltRight") {
        return Some(KeyCode::AltRight);
    }
    if str_eq(s, "CapsLock") {
        return Some(KeyCode::CapsLock);
    }
    if str_eq(s, "ContextMenu") {
        return Some(KeyCode::ContextMenu);
    }
    if str_eq(s, "ControlLeft") {
        return Some(KeyCode::ControlLeft);
    }
    if str_eq(s, "ControlRight") {
        return Some(KeyCode::ControlRight);
    }
    if str_eq(s, "Enter") {
        return Some(KeyCode::Enter);
    }
    if str_eq(s, "MetaLeft") || str_eq(s, "OSLeft") {
        return Some(KeyCode::MetaLeft);
    }
    if str_eq(s, "MetaRight") || str_eq(s, "OSRight") {
        return Some(KeyCode::MetaRight);
    }
    if str_eq(s, "ShiftLeft") {
        return Some(KeyCode::ShiftLeft);
    }
    if str_eq(s, "ShiftRight") {
        return Some(KeyCode::ShiftRight);
    }
    if str_eq(s, "Space") {
        return Some(KeyCode::Space);
    }
    if str_eq(s, "Tab") {
        return Some(KeyCode::Tab);
    }
    if str_eq(s, "Convert") {
        return Some(KeyCode::Convert);
    }
    if str_eq(s, "KanaMode") {
        return Some(KeyCode::KanaMode);
    }
    if str_eq(s, "Lang1") {
        return Some(KeyCode::Lang1);
    }
    if str_eq(s, "Lang2") {
        return Some(KeyCode::Lang2);
    }
    if str_eq(s, "Lang3") {
        return Some(KeyCode::Lang3);
    }
    if str_eq(s, "Lang4") {
        return Some(KeyCode::Lang4);
    }
    if str_eq(s, "Lang5") {
        return Some(KeyCode::Lang5);
    }
    if str_eq(s, "NonConvert") {
        return Some(KeyCode::NonConvert);
    }
    None
}

fn scan_control_pad(s: &str) -> (r: Option<KeyCode>)
    ensures
        r == parse_control_pad(s@),
{
    if str_eq(s, "Delete") {
        return Some(KeyCode::Delete);
    }
    if str_eq(s, "End") {
        return Some(KeyCode::End);
    }
    if str_eq(s, "Help") {
        return Some(KeyCode::Help);
    }
    if str_eq(s, "Home") {
        return Some(KeyCode::Home);
    }
    if str_eq(s, "Insert") {
        return Some(KeyCode::Insert);
    }
    if str_eq(s, "PageDown") {
        return Some(KeyCode::PageDown);
    }
    if str_eq(s, "PageUp") {
        return Some(KeyCode::PageUp);
    }
    None
}

fn scan_arrow_pad(s: &str) -> (r: Option<KeyCode>)
    ensures
        r == parse_arrow_pad(s@),
{
    if str_eq(s, "ArrowDown") {
        return Some(KeyCode::ArrowDown);
    }
    if str_eq(s, "ArrowLeft") {
        return Some(KeyCode::ArrowLeft);
    }
    if str_eq(s, "ArrowRight") {
        return Some(KeyCode::ArrowRight);
    }
    if str_eq(s, "ArrowUp") {
        return Some(KeyCode::ArrowUp);
    }
    None
}

fn scan_numpad(s: &str) -> (r: Option<KeyCode>)
    ensures
        r == parse_numpad(s@),
{
    if str_eq(s, "NumLock") {
        return Some(KeyCode::NumLock);
    }
    if str_eq(s, "Numpad0") {
        return Some(KeyCode::Numpad0);
    }
    if str_eq(s, "Numpad1") {
        return Some(KeyCode::Numpad1);
    }
    if str_eq(s, "Numpad2") {
        return Some(KeyCode::Numpad2);
    }
    if str_eq(s, "Numpad3") {
        return Some(KeyCode::Numpad3);
    }
    if str_eq(s, "Numpad4") {
        return Some(KeyCode::Numpad4);
    }
    if str_eq(s, "Numpad5") {
        return Some(KeyCode::Numpad5);
    }
    if str_eq(s, "Numpad6") {
        return Some(KeyCode::Numpad6);
    }
    if str_eq(s, "Numpad7") {
        return Some(KeyCode::Numpad7);
    }
    if str_eq(s, "Numpad8") {
        return Some(KeyCode::Numpad8);
    }
    if str_eq(s, "Numpad9") {
        return Some(KeyCode::Numpad9);
    }
    if str_eq(s, "NumpadAdd") {
        return Some(KeyCode::NumpadAdd);
    }
    if str_eq(s, "NumpadBackspace") {
        return Some(KeyCode::NumpadBackspace);
    }
    if str_eq(s, "NumpadClear") {
        return Some(KeyCode::NumpadClear);
    }
    if str_eq(s, "NumpadClearEntry") {
        return Some(KeyCode::NumpadClearEntry);
    }
    if str_eq(s, "NumpadComma") {
        return Some(KeyCode::NumpadComma);
    }
    if str_eq(s, "NumpadDecimal") {
        return Some(KeyCode::NumpadDecimal);
    }
    if str_eq(s, "NumpadDivide") {
        return Some(KeyCode::NumpadDivide);
    }
    if str_eq(s, "NumpadEnter") {
        return Some(KeyCode::NumpadEnter);
    }
    if str_eq(s, "NumpadEqual") {
        return Some(KeyCode::NumpadEqual);
    }
    if str_eq(s, "NumpadHash") {
        return Some(KeyCode::NumpadHash);
    }
    if str_eq(s, "NumpadMemoryAdd") {
        return Some(KeyCode::NumpadMemoryAdd);
    }
    if str_eq(s, "NumpadMemoryClear") {
        return Some(KeyCode::NumpadMemoryClear);
    }
    if str_eq(s, "NumpadMemoryRecall") {
        return Some(KeyCode::NumpadMemoryRecall);
    }
    if str_eq(s, "NumpadMemoryStore") {
        return Some(KeyCode::NumpadMemoryStore);
    }
    if str_eq(s, "NumpadMemorySubtract") {
        return Some(KeyCode::NumpadMemorySubtract);
    }
    if str_eq(s, "NumpadMultiply") {
        return Some(KeyCode::NumpadMultiply);
    }
    if str_eq(s, "NumpadParenLeft") {
        return Some(KeyCode::NumpadParenLeft);
    }
    if str_eq(s, "NumpadParenRight") {
        return Some(KeyCode::NumpadParenRight);
    }
    if str_eq(s, "NumpadStar") {
        return Some(KeyCode::NumpadStar);
    }
    if str_eq(s, "NumpadSubtract") {
        return Some(KeyCode::NumpadSubtract);
    }
    None
}

fn scan_function_row(s: &str) -> (r: Option<KeyCode>)
    ensures
        r == parse_function_row(s@),
{
    if str_eq(s, "Escape") {
        return Some(KeyCode::Escape);
    }
    if str_eq(s, "F1") {
        return Some(KeyCode::F1);
    }
    if str_eq(s, "F2") {
        return Some(KeyCode::F2);
    }
    if str_eq(s, "F3") {
        return Some(KeyCode::F3);
    }
    if str_eq(s, "F4") {
        return Some(KeyCode::F4);
    }
    if str_eq(s, "F5") {
        return Some(KeyCode::F5);
    }
    if str_eq(s, "F6") {
        return Some(KeyCode::F6);
    }
    if str_eq(s, "F7") {
        return Some(KeyCode::F7);
    }
    if str_eq(s, "F8") {
        return Some(KeyCode::F8);
    }
    if str_eq(s, "F9") {
        return Some(KeyCode::F9);
    }
    if str_eq(s, "F10") {
        return Some(KeyCode::F10);
    }
    if str_eq(s, "F11") {
        return Some(KeyCode::F11);
    }
    if str_eq(s, "F12") {
        return Some(KeyCode::F12);
    }
    if str_eq(s, "F13") {
        return Some(KeyCode::F13);
    }
    if str_eq(s, "F14") {
        return Some(KeyCode::F14);
    }
    if str_eq(s, "F15") {
        return Some(KeyCode::F15);
    }
    if str_eq(s, "F16") {
        return Some(KeyCode::F16);
    }
    if str_eq(s, "F17") {
        return Some(KeyCode::F17);
    }
    if str_eq(s, "F18") {
        return Some(KeyCode::F18);
    }
    if str_eq(s, "F19") {
        return Some(KeyCode::F19);
    }
    if str_eq(s, "F20") {
        return Some(KeyCode::F20);
    }
    if str_eq(s, "F21") {
        return Some(KeyCode::F21);
    }
    if str_eq(s, "F22") {
        return Some(KeyCode::F22);
    }
    if str_eq(s, "F23") {
        return Some(KeyCode::F23);
    }
    if str_eq(s, "F24") {
        return Some(KeyCode::F24);
    }
    if str_eq(s, "Fn") {
        return Some(KeyCode::Fn);
    }
    if str_eq(s, "FnLock") {
        return Some(KeyCode::FnLock);
    }
    if str_eq(s, "PrintScreen") {
        return Some(KeyCode::PrintScreen);
    }
    if str_eq(s, "ScrollLock") {
        return Some(KeyCode::ScrollLock);
    }
    if str_eq(s, "Pause") {
        return Some(KeyCode::Pause);
    }
    None
}

fn scan_media(s: &str) -> (r: Option<KeyCode>)
    ensures
        r == parse_media(s@),
{
    if str_eq(s, "BrowserBack") {
        return Some(KeyCode::BrowserBack);
    }
    if str_eq(s, "BrowserFavorites") {
        return Some(KeyCode::BrowserFavorites);
    }
    if str_eq(s, "BrowserForward") {
        return Some(KeyCode::BrowserForward);
    }
    if str_eq(s, "BrowserHome") {
        return Some(KeyCode::BrowserHome);
    }
    if str_eq(s, "BrowserRefresh") {
        return Some(KeyCode::BrowserRefresh);
    }
    if str_eq(s, "BrowserSearch") {
        return Some(KeyCode::BrowserSearch);
    }
    if str_eq(s, "BrowserStop") {
        return Some(KeyCode::BrowserStop);
    }
    if str_eq(s, "Eject") {
        return Some(KeyCode::Eject);
    }
    if str_eq(s, "LaunchApp1") {
        return Some(KeyCode::LaunchApp1);
    }
    if str_eq(s, "LaunchApp2") {
        return Some(KeyCode::LaunchApp2);
    }
    if str_eq(s, "LaunchMail") {
        return Some(KeyCode::LaunchMail);
    }
    if str_eq(s, "MediaPlayPause") {
        return Some(KeyCode::MediaPlayPause);
    }
    if str_eq(s, "MediaSelect") || str_eq(s, "LaunchMediaPlayer") {
        return Some(KeyCode::MediaSelect);
    }
    if str_eq(s, "MediaStop") {
        return Some(KeyCode::MediaStop);
    }
    if str_eq(s, "MediaTrackNext") {
        return Some(KeyCode::MediaTrackNext);
    }
    if str_eq(s, "MediaTrackPrevious") {
        return Some(KeyCode::MediaTrackPrevious);
    }
    if str_eq(s, "Power") {
        return Some(KeyCode::Power);
    }
    if str_eq(s, "Sleep") {
        return Some(KeyCode::Sleep);
    }
    if str_eq(s, "AudioVolumeDown") || str_eq(s, "VolumeDown") {
        return Some(KeyCode::AudioVolumeDown);
    }
    if str_eq(s, "AudioVolumeMute") || str_eq(s, "VolumeMute") {
        return Some(KeyCode::AudioVolumeMute);
    }
    if str_eq(s, "AudioVolumeUp") || str_eq(s, "VolumeUp") {
        return Some(KeyCode::AudioVolumeUp);
    }
    if str_eq(s, "WakeUp") {
        return Some(KeyCode::WakeUp);
    }
    None
}

fn scan_legacy(s: &str) -> (r: Option<KeyCode>)
    ensures
        r == parse_legacy(s@),
{
    if str_eq(s, "Again") {
        return Some(KeyCode::Again);
    }
    if str_eq(s, "Copy") {
        return Some(KeyCode::Copy);
    }
    if str_eq(s, "Cut") {
        return Some(KeyCode::Cut);
    }
    if str_eq(s, "Find") {
        return Some(KeyCode::Find);
    }
    if str_eq(s, "Open") {
        return Some(KeyCode::Open);
    }
    if str_eq(s, "Paste") {
        return Some(KeyCode::Paste);
    }
    if str_eq(s, "Props") {
        return Some(KeyCode::Props);
    }
    if str_eq(s, "Select") {
        return Some(KeyCode::Select);
    }
    if str_eq(s, "Undo") {
        return Some(KeyCode::Undo);
    }
    None
}

fn scan_gamepad(s: &str) -> (r: Option<KeyCode>)
    ensures
        r == parse_gamepad(s@),
{
    if str_eq(s, "Gamepad0") {
        return Some(KeyCode::Gamepad0);
    }
    if str_eq(s, "Gamepad1") {
        return Some(KeyCode::Gamepad1);
    }
    if str_eq(s, "Gamepad2") {
        return Some(KeyCode::Gamepad2);
    }
    if str_eq(s, "Gamepad3") {
        return Some(KeyCode::Gamepad3);
    }
    if str_eq(s, "Gamepad4") {
        return Some(KeyCode::Gamepad4);
    }
    if str_eq(s, "Gamepad5") {
        return Some(KeyCode::Gamepad5);
    }
    if str_eq(s, "Gamepad6") {
        return Some(KeyCode::Gamepad6);
    }
    if str_eq(s, "Gamepad7") {
        return Some(KeyCode::Gamepad7);
    }
    if str_eq(s, "Gamepad8") {
        return Some(KeyCode::Gamepad8);
    }
    if str_eq(s, "Gamepad9") {
        return Some(KeyCode::Gamepad9);
    }
    if str_eq(s, "Gamepad10") {
        return Some(KeyCode::Gamepad10);
    }
    if str_eq(s, "Gamepad11") {
        return Some(KeyCode::Gamepad11);
    }
    if str_eq(s, "Gamepad12") {
        return Some(KeyCode::Gamepad12);
    }
    if str_eq(s, "Gamepad13") {
        return Some(KeyCode::Gamepad13);
    }
    if str_eq(s, "Gamepad14") {
        return Some(KeyCode::Gamepad14);
    }
    if str_eq(s, "Gamepad15") {
        return Some(KeyCode::Gamepad15);
    }
    if str_eq(s, "Gamepad16") {
        return Some(KeyCode::Gamepad16);
    }
    if str_eq(s, "Gamepad17") {
        return Some(KeyCode::Gamepad17);
    }
    if str_eq(s, "Gamepad18") {
        return Some(KeyCode::Gamepad18);
    }
    if str_eq(s, "Gamepad19") {
        return Some(KeyCode::Gamepad19);
    }
    None
}

fn scan_non_standard(s: &str) -> (r: Option<KeyCode>)
    ensures
        r == parse_non_standard(s@),
{
    if str_eq(s, "BrightnessDown") {
        return Some(KeyCode::BrightnessDown);
    }
    if str_eq(s, "BrightnessUp") {
        return Some(KeyCode::BrightnessUp);
    }
    if str_eq(s, "DisplayToggleIntExt") {
        return Some(KeyCode::DisplayToggleIntExt);
    }
    if str_eq(s, "KeyboardLayoutSelect") {
        return Some(KeyCode::KeyboardLayoutSelect);
    }
    if str_eq(s, "LaunchAssistant") {
        return Some(KeyCode::LaunchAssistant);
    }
    if str_eq(s, "LaunchControlPanel") {
        return Some(KeyCode::LaunchControlPanel);
    }
    if str_eq(s, "LaunchScreenSaver") {
        return Some(KeyCode::LaunchScreenSaver);
    }
    if str_eq(s, "MailForward") {
        return Some(KeyCode::MailForward);
    }
    if str_eq(s, "MailReply") {
        return Some(KeyCode::MailReply);
    }
    if str_eq(s, "MailSend") {
        return Some(KeyCode::MailSend);
    }
    if str_eq(s, "MediaFastForward") {
        return Some(KeyCode::MediaFastForward);
    }
    if str_eq(s, "MediaPause") {
        return Some(KeyCode::MediaPause);
    }
    if str_eq(s, "MediaPlay") {
        return Some(KeyCode::MediaPlay);
    }
    if str_eq(s, "MediaRecord") {
        return Some(KeyCode::MediaRecord);
    }
    if str_eq(s, "MediaRewind") {
        return Some(KeyCode::MediaRewind);
    }
    if str_eq(s, "PrivacyScreenToggle") {
        return Some(KeyCode::PrivacyScreenToggle);
    }
    if str_eq(s, "SelectTask") {
        return Some(KeyCode::SelectTask);
    }
    if str_eq(s, "ShowAllWindows") {
        return Some(KeyCode::ShowAllWindows);
    }
    if str_eq(s, "ZoomToggle") {
        return Some(KeyCode::ZoomToggle);
    }
    None
}

impl KeyCode {
    /// Parses an input token into the matching key identity, or
    /// reports that the token is unrecognized. Matching is exact and
    /// case-sensitive: the canonical name and the registered aliases
    /// are accepted, and nothing else. Parsing succeeds exactly on
    /// the tokens that name some identity, and yields that identity.
    pub fn from_name(s: &str) -> (r: Result<KeyCode, ()>)
        ensures
            (match r {
                Ok(k) => parse_spec(s@) == Some(k) && parses_to(s@, k),
                Err(_) => parse_spec(s@) is None && (forall|k: KeyCode| !parses_to(s@, k)),
            }),
    {
        if let Some(k) = scan_writing_system(s) {
            proof {
                lemma_sound_writing_system(s@, k);
            }
            return Ok(k);
        }
        if let Some(k) = scan_functional(s) {
            proof {
                lemma_sound_functional(s@, k);
            }
            return Ok(k);
        }
        if let Some(k) = scan_control_pad(s) {
            proof {
                lemma_sound_control_pad(s@, k);
            }
            return Ok(k);
        }
        if let Some(k) = scan_arrow_pad(s) {
            proof {
                lemma_sound_arrow_pad(s@, k);
            }
            return Ok(k);
        }
        if let Some(k) = scan_numpad(s) {
            proof {
                lemma_sound_numpad(s@, k);
            }
            return Ok(k);
        }
        if let Some(k) = scan_function_row(s) {
            proof {
                lemma_sound_function_row(s@, k);
            }
            return Ok(k);
        }
        if let Some(k) = scan_media(s) {
            proof {
                lemma_sound_media(s@, k);
            }
            return Ok(k);
        }
        if let Some(k) = scan_legacy(s) {
            proof {
                lemma_sound_legacy(s@, k);
            }
            return Ok(k);
        }
        if let Some(k) = scan_gamepad(s) {
            proof {
                lemma_sound_gamepad(s@, k);
            }
            return Ok(k);
        }
        if let Some(k) = scan_non_standard(s) {
            proof {
                lemma_sound_non_standard(s@, k);
            }
            return Ok(k);
        }
        proof {
            assert forall|k: KeyCode| !parses_to(s@, k) by {
                if parses_to(s@, k) {
                    lemma_parse_complete(s@, k);
                }
            }
        }
        Err(())
    }
}

impl core::str::FromStr for KeyCode {
    type Err = ();

    fn from_str(s: &str) -> Result<KeyCode, ()> {
        KeyCode::from_name(s)
    }
}

// The contents of every spelling in the parse table, one lemma per
// section: the length of each string literal and the character at
// each of its positions. With these in scope, any two spellings
// compare decidably, which is what the completeness proofs below
// need in order to walk the table past every non-matching entry.

proof fn lits_writing_system()
    ensures
        "Backquote"@.len() == 9, "Backquote"@[0] == 'B', "Backquote"@[1] == 'a',
        "Backquote"@[2] == 'c', "Backquote"@[3] == 'k', "Backquote"@[4] == 'q',
        "Backquote"@[5] == 'u', "Backquote"@[6] == 'o', "Backquote"@[7] == 't',
        "Backquote"@[8] == 'e',
        "Backslash"@.len() == 9, "Backslash"@[0] == 'B', "Backslash"@[1] == 'a',
        "Backslash"@[2] == 'c', "Backslash"@[3] == 'k', "Backslash"@[4] == 's',
        "Backslash"@[5] == 'l', "Backslash"@[6] == 'a', "Backslash"@[7] == 's',
        "Backslash"@[8] == 'h',
        "Backspace"@.len() == 9, "Backspace"@[0] == 'B', "Backspace"@[1] == 'a',
        "Backspace"@[2] == 'c', "Backspace"@[3] == 'k', "Backspace"@[4] == 's',
        "Backspace"@[5] == 'p', "Backspace"@[6] == 'a', "Backspace"@[7] == 'c',
        "Backspace"@[8] == 'e',
        "BracketLeft"@.len() == 11, "BracketLeft"@[0] == 'B', "BracketLeft"@[1] == 'r',
        "BracketLeft"@[2] == 'a', "BracketLeft"@[3] == 'c', "BracketLeft"@[4] == 'k',
        "BracketLeft"@[5] == 'e', "BracketLeft"@[6] == 't', "BracketLeft"@[7] == 'L',
        "BracketLeft"@[8] == 'e', "BracketLeft"@[9] == 'f', "BracketLeft"@[10] == 't',
        "BracketRight"@.len() == 12, "BracketRight"@[0] == 'B', "BracketRight"@[1] == 'r',
        "BracketRight"@[2] == 'a', "BracketRight"@[3] == 'c', "BracketRight"@[4] == 'k',
        "BracketRight"@[5] == 'e', "BracketRight"@[6] == 't', "BracketRight"@[7] == 'R',
        "BracketRight"@[8] == 'i', "BracketRight"@[9] == 'g', "BracketRight"@[10] == 'h',
        "BracketRight"@[11] == 't',
        "Comma"@.len() == 5, "Comma"@[0] == 'C', "Comma"@[1] == 'o', "Comma"@[2] == 'm',
        "Comma"@[3] == 'm', "Comma"@[4] == 'a',
        "Digit0"@.len() == 6, "Digit0"@[0] == 'D', "Digit0"@[1] == 'i', "Digit0"@[2] == 'g',
        "Digit0"@[3] == 'i', "Digit0"@[4] == 't', "Digit0"@[5] == '0',
        "0"@.len() == 1, "0"@[0] == '0',
        "Digit1"@.len() == 6, "Digit1"@[0] == 'D', "Digit1"@[1] == 'i', "Digit1"@[2] == 'g',
        "Digit1"@[3] == 'i', "Digit1"@[4] == 't', "Digit1"@[5] == '1',
        "1"@.len() == 1, "1"@[0] == '1',
        "Digit2"@.len() == 6, "Digit2"@[0] == 'D', "Digit2"@[1] == 'i', "Digit2"@[2] == 'g',
        "Digit2"@[3] == 'i', "Digit2"@[4] == 't', "Digit2"@[5] == '2',
        "2"@.len() == 1, "2"@[0] == '2',
        "Digit3"@.len() == 6, "Digit3"@[0] == 'D', "Digit3"@[1] == 'i', "Digit3"@[2] == 'g',
        "Digit3"@[3] == 'i', "Digit3"@[4] == 't', "Digit3"@[5] == '3',
        "3"@.len() == 1, "3"@[0] == '3',
        "Digit4"@.len() == 6, "Digit4"@[0] == 'D', "Digit4"@[1] == 'i', "Digit4"@[2] == 'g',
        "Digit4"@[3] == 'i', "Digit4"@[4] == 't', "Digit4"@[5] == '4',
        "4"@.len() == 1, "4"@[0] == '4',
        "Digit5"@.len() == 6, "Digit5"@[0] == 'D', "Digit5"@[1] == 'i', "Digit5"@[2] == 'g',
        "Digit5"@[3] == 'i', "Digit5"@[4] == 't', "Digit5"@[5] == '5',
        "5"@.len() == 1, "5"@[0] == '5',
        "Digit6"@.len() == 6, "Digit6"@[0] == 'D', "Digit6"@[1] == 'i', "Digit6"@[2] == 'g',
        "Digit6"@[3] == 'i', "Digit6"@[4] == 't', "Digit6"@[5] == '6',
        "6"@.len() == 1, "6"@[0] == '6',
        "Digit7"@.len() == 6, "Digit7"@[0] == 'D', "Digit7"@[1] == 'i', "Digit7"@[2] == 'g',
        "Digit7"@[3] == 'i', "Digit7"@[4] == 't', "Digit7"@[5] == '7',
        "7"@.len() == 1, "7"@[0] == '7',
        "Digit8"@.len() == 6, "Digit8"@[0] == 'D', "Digit8"@[1] == 'i', "Digit8"@[2] == 'g',
        "Digit8"@[3] == 'i', "Digit8"@[4] == 't', "Digit8"@[5] == '8',
        "8"@.len() == 1, "8"@[0] == '8',
        "Digit9"@.len() == 6, "Digit9"@[0] == 'D', "Digit9"@[1] == 'i', "Digit9"@[2] == 'g',
        "Digit9"@[3] == 'i', "Digit9"@[4] == 't', "Digit9"@[5] == '9',
        "9"@.len() == 1, "9"@[0] == '9',
        "Equal"@.len() == 5, "Equal"@[0] == 'E', "Equal"@[1] == 'q', "Equal"@[2] == 'u',
        "Equal"@[3] == 'a', "Equal"@[4] == 'l',
        "IntlBackslash"@.len() == 13, "IntlBackslash"@[0] == 'I', "IntlBackslash"@[1] == 'n',
        "IntlBackslash"@[2] == 't', "IntlBackslash"@[3] == 'l', "IntlBackslash"@[4] == 'B',
        "IntlBackslash"@[5] == 'a', "IntlBackslash"@[6] == 'c', "IntlBackslash"@[7] == 'k',
        "IntlBackslash"@[8] == 's', "IntlBackslash"@[9] == 'l', "IntlBackslash"@[10] == 'a',
        "IntlBackslash"@[11] == 's', "IntlBackslash"@[12] == 'h',
        "IntlRo"@.len() == 6, "IntlRo"@[0] == 'I', "IntlRo"@[1] == 'n', "IntlRo"@[2] == 't',
        "IntlRo"@[3] == 'l', "IntlRo"@[4] == 'R', "IntlRo"@[5] == 'o',
        "IntlYen"@.len() == 7, "IntlYen"@[0] == 'I', "IntlYen"@[1] == 'n', "IntlYen"@[2] == 't',
        "IntlYen"@[3] == 'l', "IntlYen"@[4] == 'Y', "IntlYen"@[5] == 'e', "IntlYen"@[6] == 'n',
        "KeyA"@.len() == 4, "KeyA"@[0] == 'K', "KeyA"@[1] == 'e', "KeyA"@[2] == 'y',
        "KeyA"@[3] == 'A',
        "A"@.len() == 1, "A"@[0] == 'A',
        "KeyB"@.len() == 4, "KeyB"@[0] == 'K', "KeyB"@[1] == 'e', "KeyB"@[2] == 'y',
        "KeyB"@[3] == 'B',
        "B"@.len() == 1, "B"@[0] == 'B',
        "KeyC"@.len() == 4, "KeyC"@[0] == 'K', "KeyC"@[1] == 'e', "KeyC"@[2] == 'y',
        "KeyC"@[3] == 'C',
        "C"@.len() == 1, "C"@[0] == 'C',
        "KeyD"@.len() == 4, "KeyD"@[0] == 'K', "KeyD"@[1] == 'e', "KeyD"@[2] == 'y',
        "KeyD"@[3] == 'D',
        "D"@.len() == 1, "D"@[0] == 'D',
        "KeyE"@.len() == 4, "KeyE"@[0] == 'K', "KeyE"@[1] == 'e', "KeyE"@[2] == 'y',
        "KeyE"@[3] == 'E',
        "E"@.len() == 1, "E"@[0] == 'E',
        "KeyF"@.len() == 4, "KeyF"@[0] == 'K', "KeyF"@[1] == 'e', "KeyF"@[2] == 'y',
        "KeyF"@[3] == 'F',
        "F"@.len() == 1, "F"@[0] == 'F',
        "KeyG"@.len() == 4, "KeyG"@[0] == 'K', "KeyG"@[1] == 'e', "KeyG"@[2] == 'y',
        "KeyG"@[3] == 'G',
        "G"@.len() == 1, "G"@[0] == 'G',
        "KeyH"@.len() == 4, "KeyH"@[0] == 'K', "KeyH"@[1] == 'e', "KeyH"@[2] == 'y',
        "KeyH"@[3] == 'H',
        "H"@.len() == 1, "H"@[0] == 'H',
        "KeyI"@.len() == 4, "KeyI"@[0] == 'K', "KeyI"@[1] == 'e', "KeyI"@[2] == 'y',
        "KeyI"@[3] == 'I',
        "I"@.len() == 1, "I"@[0] == 'I',
        "KeyJ"@.len() == 4, "KeyJ"@[0] == 'K', "KeyJ"@[1] == 'e', "KeyJ"@[2] == 'y',
        "KeyJ"@[3] == 'J',
        "J"@.len() == 1, "J"@[0] == 'J',
        "KeyK"@.len() == 4, "KeyK"@[0] == 'K', "KeyK"@[1] == 'e', "KeyK"@[2] == 'y',
        "KeyK"@[3] == 'K',
        "K"@.len() == 1, "K"@[0] == 'K',
        "KeyL"@.len() == 4, "KeyL"@[0] == 'K', "KeyL"@[1] == 'e', "KeyL"@[2] == 'y',
        "KeyL"@[3] == 'L',
        "L"@.len() == 1, "L"@[0] == 'L',
        "KeyM"@.len() == 4, "KeyM"@[0] == 'K', "KeyM"@[1] == 'e', "KeyM"@[2] == 'y',
        "KeyM"@[3] == 'M',
        "M"@.len() == 1, "M"@[0] == 'M',
        "KeyN"@.len() == 4, "KeyN"@[0] == 'K', "KeyN"@[1] == 'e', "KeyN"@[2] == 'y',
        "KeyN"@[3] == 'N',
        "N"@.len() == 1, "N"@[0] == 'N',
        "KeyO"@.len() == 4, "KeyO"@[0] == 'K', "KeyO"@[1] == 'e', "KeyO"@[2] == 'y',
        "KeyO"@[3] == 'O',
        "O"@.len() == 1, "O"@[0] == 'O',
        "KeyP"@.len() == 4, "KeyP"@[0] == 'K', "KeyP"@[1] == 'e', "KeyP"@[2] == 'y',
        "KeyP"@[3] == 'P',
        "P"@.len() == 1, "P"@[0] == 'P',
        "KeyQ"@.len() == 4, "KeyQ"@[0] == 'K', "KeyQ"@[1] == 'e', "KeyQ"@[2] == 'y',
        "KeyQ"@[3] == 'Q',
        "Q"@.len() == 1, "Q"@[0] == 'Q',
        "KeyR"@.len() == 4, "KeyR"@[0] == 'K', "KeyR"@[1] == 'e', "KeyR"@[2] == 'y',
        "KeyR"@[3] == 'R',
        "R"@.len() == 1, "R"@[0] == 'R',
        "KeyS"@.len() == 4, "KeyS"@[0] == 'K', "KeyS"@[1] == 'e', "KeyS"@[2] == 'y',
        "KeyS"@[3] == 'S',
        "S"@.len() == 1, "S"@[0] == 'S',
        "KeyT"@.len() == 4, "KeyT"@[0] == 'K', "KeyT"@[1] == 'e', "KeyT"@[2] == 'y',
        "KeyT"@[3] == 'T',
        "T"@.len() == 1, "T"@[0] == 'T',
        "KeyU"@.len() == 4, "KeyU"@[0] == 'K', "KeyU"@[1] == 'e', "KeyU"@[2] == 'y',
        "KeyU"@[3] == 'U',
        "U"@.len() == 1, "U"@[0] == 'U',
        "KeyV"@.len() == 4, "KeyV"@[0] == 'K', "KeyV"@[1] == 'e', "KeyV"@[2] == 'y',
        "KeyV"@[3] == 'V',
        "V"@.len() == 1, "V"@[0] == 'V',
        "KeyW"@.len() == 4, "KeyW"@[0] == 'K', "KeyW"@[1] == 'e', "KeyW"@[2] == 'y',
        "KeyW"@[3] == 'W',
        "W"@.len() == 1, "W"@[0] == 'W',
        "KeyX"@.len() == 4, "KeyX"@[0] == 'K', "KeyX"@[1] == 'e', "KeyX"@[2] == 'y',
        "KeyX"@[3] == 'X',
        "X"@.len() == 1, "X"@[0] == 'X',
        "KeyY"@.len() == 4, "KeyY"@[0] == 'K', "KeyY"@[1] == 'e', "KeyY"@[2] == 'y',
        "KeyY"@[3] == 'Y',
        "Y"@.len() == 1, "Y"@[0] == 'Y',
        "KeyZ"@.len() == 4, "KeyZ"@[0] == 'K', "KeyZ"@[1] == 'e', "KeyZ"@[2] == 'y',
        "KeyZ"@[3] == 'Z',
        "Z"@.len() == 1, "Z"@[0] == 'Z',
        "Minus"@.len() == 5, "Minus"@[0] == 'M', "Minus"@[1] == 'i', "Minus"@[2] == 'n',
        "Minus"@[3] == 'u', "Minus"@[4] == 's',
        "Period"@.len() == 6, "Period"@[0] == 'P', "Period"@[1] == 'e', "Period"@[2] == 'r',
        "Period"@[3] == 'i', "Period"@[4] == 'o', "Period"@[5] == 'd',
        "Quote"@.len() == 5, "Quote"@[0] == 'Q', "Quote"@[1] == 'u', "Quote"@[2] == 'o',
        "Quote"@[3] == 't', "Quote"@[4] == 'e',
        "Semicolon"@.len() == 9, "Semicolon"@[0] == 'S', "Semicolon"@[1] == 'e',
        "Semicolon"@[2] == 'm', "Semicolon"@[3] == 'i', "Semicolon"@[4] == 'c',
        "Semicolon"@[5] == 'o', "Semicolon"@[6] == 'l', "Semicolon"@[7] == 'o',
        "Semicolon"@[8] == 'n',
        "Slash"@.len() == 5, "Slash"@[0] == 'S', "Slash"@[1] == 'l', "Slash"@[2] == 'a',
        "Slash"@[3] == 's', "Slash"@[4] == 'h',
{
    reveal_strlit("Backquote");
    reveal_strlit("Backslash");
    reveal_strlit("Backspace");
    reveal_strlit("BracketLeft");
    reveal_strlit("BracketRight");
    reveal_strlit("Comma");
    reveal_strlit("Digit0");
    reveal_strlit("0");
    reveal_strlit("Digit1");
    reveal_strlit("1");
    reveal_strlit("Digit2");
    reveal_strlit("2");
    reveal_strlit("Digit3");
    reveal_strlit("3");
    reveal_strlit("Digit4");
    reveal_strlit("4");
    reveal_strlit("Digit5");
    reveal_strlit("5");
    reveal_strlit("Digit6");
    reveal_strlit("6");
    reveal_strlit("Digit7");
    reveal_strlit("7");
    reveal_strlit("Digit8");
    reveal_strlit("8");
    reveal_strlit("Digit9");
    reveal_strlit("9");
    reveal_strlit("Equal");
    reveal_strlit("IntlBackslash");
    reveal_strlit("IntlRo");
    reveal_strlit("IntlYen");
    reveal_strlit("KeyA");
    reveal_strlit("A");
    reveal_strlit("KeyB");
    reveal_strlit("B");
    reveal_strlit("KeyC");
    reveal_strlit("C");
    reveal_strlit("KeyD");
    reveal_strlit("D");
    reveal_strlit("KeyE");
    reveal_strlit("E");
    reveal_strlit("KeyF");
    reveal_strlit("F");
    reveal_strlit("KeyG");
    reveal_strlit("G");
    reveal_strlit("KeyH");
    reveal_strlit("H");
    reveal_strlit("KeyI");
    reveal_strlit("I");
    reveal_strlit("KeyJ");
    reveal_strlit("J");
    reveal_strlit("KeyK");
    reveal_strlit("K");
    reveal_strlit("KeyL");
    reveal_strlit("L");
    reveal_strlit("KeyM");
    reveal_strlit("M");
    reveal_strlit("KeyN");
    reveal_strlit("N");
    reveal_strlit("KeyO");
    reveal_strlit("O");
    reveal_strlit("KeyP");
    reveal_strlit("P");
    reveal_strlit("KeyQ");
    reveal_strlit("Q");
    reveal_strlit("KeyR");
    reveal_strlit("R");
    reveal_strlit("KeyS");
    reveal_strlit("S");
    reveal_strlit("KeyT");
    reveal_strlit("T");
    reveal_strlit("KeyU");
    reveal_strlit("U");
    reveal_strlit("KeyV");
    reveal_strlit("V");
    reveal_strlit("KeyW");
    reveal_strlit("W");
    reveal_strlit("KeyX");
    reveal_strlit("X");
    reveal_strlit("KeyY");
    reveal_strlit("Y");
    reveal_strlit("KeyZ");
    reveal_strlit("Z");
    reveal_strlit("Minus");
    reveal_strlit("Period");
    reveal_strlit("Quote");
    reveal_strlit("Semicolon");
    reveal_strlit("Slash");
}

proof fn lits_functional()
    ensures
        "AltLeft"@.len() == 7, "AltLeft"@[0] == 'A', "AltLeft"@[1] == 'l', "AltLeft"@[2] == 't',
        "AltLeft"@[3] == 'L', "AltLeft"@[4] == 'e', "AltLeft"@[5] == 'f', "AltLeft"@[6] == 't',
        "AltRight"@.len() == 8, "AltRight"@[0] == 'A', "AltRight"@[1] == 'l',
        "AltRight"@[2] == 't', "AltRight"@[3] == 'R', "AltRight"@[4] == 'i',
        "AltRight"@[5] == 'g', "AltRight"@[6] == 'h', "AltRight"@[7] == 't',
        "CapsLock"@.len() == 8, "CapsLock"@[0] == 'C', "CapsLock"@[1] == 'a',
        "CapsLock"@[2] == 'p', "CapsLock"@[3] == 's', "CapsLock"@[4] == 'L',
        "CapsLock"@[5] == 'o', "CapsLock"@[6] == 'c', "CapsLock"@[7] == 'k',
        "ContextMenu"@.len() == 11, "ContextMenu"@[0] == 'C', "ContextMenu"@[1] == 'o',
        "ContextMenu"@[2] == 'n', "ContextMenu"@[3] == 't', "ContextMenu"@[4] == 'e',
        "ContextMenu"@[5] == 'x', "ContextMenu"@[6] == 't', "ContextMenu"@[7] == 'M',
        "ContextMenu"@[8] == 'e', "ContextMenu"@[9] == 'n', "ContextMenu"@[10] == 'u',
        "ControlLeft"@.len() == 11, "ControlLeft"@[0] == 'C', "ControlLeft"@[1] == 'o',
        "ControlLeft"@[2] == 'n', "ControlLeft"@[3] == 't', "ControlLeft"@[4] == 'r',
        "ControlLeft"@[5] == 'o', "ControlLeft"@[6] == 'l', "ControlLeft"@[7] == 'L',
        "ControlLeft"@[8] == 'e', "ControlLeft"@[9] == 'f', "ControlLeft"@[10] == 't',
        "ControlRight"@.len() == 12, "ControlRight"@[0] == 'C', "ControlRight"@[1] == 'o',
        "ControlRight"@[2] == 'n', "ControlRight"@[3] == 't', "ControlRight"@[4] == 'r',
        "ControlRight"@[5] == 'o', "ControlRight"@[6] == 'l', "ControlRight"@[7] == 'R',
        "ControlRight"@[8] == 'i', "ControlRight"@[9] == 'g', "ControlRight"@[10] == 'h',
        "ControlRight"@[11] == 't',
        "Enter"@.len() == 5, "Enter"@[0] == 'E', "Enter"@[1] == 'n', "Enter"@[2] == 't',
        "Enter"@[3] == 'e', "Enter"@[4] == 'r',
        "MetaLeft"@.len() == 8, "MetaLeft"@[0] == 'M', "MetaLeft"@[1] == 'e',
        "MetaLeft"@[2] == 't', "MetaLeft"@[3] == 'a', "MetaLeft"@[4] == 'L',
        "MetaLeft"@[5] == 'e', "MetaLeft"@[6] == 'f', "MetaLeft"@[7] == 't',
        "OSLeft"@.len() == 6, "OSLeft"@[0] == 'O', "OSLeft"@[1] == 'S', "OSLeft"@[2] == 'L',
        "OSLeft"@[3] == 'e', "OSLeft"@[4] == 'f', "OSLeft"@[5] == 't',
        "MetaRight"@.len() == 9, "MetaRight"@[0] == 'M', "MetaRight"@[1] == 'e',
        "MetaRight"@[2] == 't', "MetaRight"@[3] == 'a', "MetaRight"@[4] == 'R',
        "MetaRight"@[5] == 'i', "MetaRight"@[6] == 'g', "MetaRight"@[7] == 'h',
        "MetaRight"@[8] == 't',
        "OSRight"@.len() == 7, "OSRight"@[0] == 'O', "OSRight"@[1] == 'S', "OSRight"@[2] == 'R',
        "OSRight"@[3] == 'i', "OSRight"@[4] == 'g', "OSRight"@[5] == 'h', "OSRight"@[6] == 't',
        "ShiftLeft"@.len() == 9, "ShiftLeft"@[0] == 'S', "ShiftLeft"@[1] == 'h',
        "ShiftLeft"@[2] == 'i', "ShiftLeft"@[3] == 'f', "ShiftLeft"@[4] == 't',
        "ShiftLeft"@[5] == 'L', "ShiftLeft"@[6] == 'e', "ShiftLeft"@[7] == 'f',
        "ShiftLeft"@[8] == 't',
        "ShiftRight"@.len() == 10, "ShiftRight"@[0] == 'S', "ShiftRight"@[1] == 'h',
        "ShiftRight"@[2] == 'i', "ShiftRight"@[3] == 'f', "ShiftRight"@[4] == 't',
        "ShiftRight"@[5] == 'R', "ShiftRight"@[6] == 'i', "ShiftRight"@[7] == 'g',
        "ShiftRight"@[8] == 'h', "ShiftRight"@[9] == 't',
        "Space"@.len() == 5, "Space"@[0] == 'S', "Space"@[1] == 'p', "Space"@[2] == 'a',
        "Space"@[3] == 'c', "Space"@[4] == 'e',
        "Tab"@.len() == 3, "Tab"@[0] == 'T', "Tab"@[1] == 'a', "Tab"@[2] == 'b',
        "Convert"@.len() == 7, "Convert"@[0] == 'C', "Convert"@[1] == 'o', "Convert"@[2] == 'n',
        "Convert"@[3] == 'v', "Convert"@[4] == 'e', "Convert"@[5] == 'r', "Convert"@[6] == 't',
        "KanaMode"@.len() == 8, "KanaMode"@[0] == 'K', "KanaMode"@[1] == 'a',
        "KanaMode"@[2] == 'n', "KanaMode"@[3] == 'a', "KanaMode"@[4] == 'M',
        "KanaMode"@[5] == 'o', "KanaMode"@[6] == 'd', "KanaMode"@[7] == 'e',
        "Lang1"@.len() == 5, "Lang1"@[0] == 'L', "Lang1"@[1] == 'a', "Lang1"@[2] == 'n',
        "Lang1"@[3] == 'g', "Lang1"@[4] == '1',
        "Lang2"@.len() == 5, "Lang2"@[0] == 'L', "Lang2"@[1] == 'a', "Lang2"@[2] == 'n',
        "Lang2"@[3] == 'g', "Lang2"@[4] == '2',
        "Lang3"@.len() == 5, "Lang3"@[0] == 'L', "Lang3"@[1] == 'a', "Lang3"@[2] == 'n',
        "Lang3"@[3] == 'g', "Lang3"@[4] == '3',
        "Lang4"@.len() == 5, "Lang4"@[0] == 'L', "Lang4"@[1] == 'a', "Lang4"@[2] == 'n',
        "Lang4"@[3] == 'g', "Lang4"@[4] == '4',
        "Lang5"@.len() == 5, "Lang5"@[0] == 'L', "Lang5"@[1] == 'a', "Lang5"@[2] == 'n',
        "Lang5"@[3] == 'g', "Lang5"@[4] == '5',
        "NonConvert"@.len() == 10, "NonConvert"@[0] == 'N', "NonConvert"@[1] == 'o',
        "NonConvert"@[2] == 'n', "NonConvert"@[3] == 'C', "NonConvert"@[4] == 'o',
        "NonConvert"@[5] == 'n', "NonConvert"@[6] == 'v', "NonConvert"@[7] == 'e',
        "NonConvert"@[8] == 'r', "NonConvert"@[9] == 't',
{
    reveal_strlit("AltLeft");
    reveal_strlit("AltRight");
    reveal_strlit("CapsLock");
    reveal_strlit("ContextMenu");
    reveal_strlit("ControlLeft");
    reveal_strlit("ControlRight");
    reveal_strlit("Enter");
    reveal_strlit("MetaLeft");
    reveal_strlit("OSLeft");
    reveal_strlit("MetaRight");
    reveal_strlit("OSRight");
    reveal_strlit("ShiftLeft");
    reveal_strlit("ShiftRight");
    reveal_strlit("Space");
    reveal_strlit("Tab");
    reveal_strlit("Convert");
    reveal_strlit("KanaMode");
    reveal_strlit("Lang1");
    reveal_strlit("Lang2");
    reveal_strlit("Lang3");
    reveal_strlit("Lang4");
    reveal_strlit("Lang5");
    reveal_strlit("NonConvert");
}

proof fn lits_control_pad()
    ensures
        "Delete"@.len() == 6, "Delete"@[0] == 'D', "Delete"@[1] == 'e', "Delete"@[2] == 'l',
        "Delete"@[3] == 'e', "Delete"@[4] == 't', "Delete"@[5] == 'e',
        "End"@.len() == 3, "End"@[0] == 'E', "End"@[1] == 'n', "End"@[2] == 'd',
        "Help"@.len() == 4, "Help"@[0] == 'H', "Help"@[1] == 'e', "Help"@[2] == 'l',
        "Help"@[3] == 'p',
        "Home"@.len() == 4, "Home"@[0] == 'H', "Home"@[1] == 'o', "Home"@[2] == 'm',
        "Home"@[3] == 'e',
        "Insert"@.len() == 6, "Insert"@[0] == 'I', "Insert"@[1] == 'n', "Insert"@[2] == 's',
        "Insert"@[3] == 'e', "Insert"@[4] == 'r', "Insert"@[5] == 't',
        "PageDown"@.len() == 8, "PageDown"@[0] == 'P', "PageDown"@[1] == 'a',
        "PageDown"@[2] == 'g', "PageDown"@[3] == 'e', "PageDown"@[4] == 'D',
        "PageDown"@[5] == 'o', "PageDown"@[6] == 'w', "PageDown"@[7] == 'n',
        "PageUp"@.len() == 6, "PageUp"@[0] == 'P', "PageUp"@[1] == 'a', "PageUp"@[2] == 'g',
        "PageUp"@[3] == 'e', "PageUp"@[4] == 'U', "PageUp"@[5] == 'p',
{
    reveal_strlit("Delete");
    reveal_strlit("End");
    reveal_strlit("Help");
    reveal_strlit("Home");
    reveal_strlit("Insert");
    reveal_strlit("PageDown");
    reveal_strlit("PageUp");
}

proof fn lits_arrow_pad()
    ensures
        "ArrowDown"@.len() == 9, "ArrowDown"@[0] == 'A', "ArrowDown"@[1] == 'r',
        "ArrowDown"@[2] == 'r', "ArrowDown"@[3] == 'o', "ArrowDown"@[4] == 'w',
        "ArrowDown"@[5] == 'D', "ArrowDown"@[6] == 'o', "ArrowDown"@[7] == 'w',
        "ArrowDown"@[8] == 'n',
        "ArrowLeft"@.len() == 9, "ArrowLeft"@[0] == 'A', "ArrowLeft"@[1] == 'r',
        "ArrowLeft"@[2] == 'r', "ArrowLeft"@[3] == 'o', "ArrowLeft"@[4] == 'w',
        "ArrowLeft"@[5] == 'L', "ArrowLeft"@[6] == 'e', "ArrowLeft"@[7] == 'f',
        "ArrowLeft"@[8] == 't',
        "ArrowRight"@.len() == 10, "ArrowRight"@[0] == 'A', "ArrowRight"@[1] == 'r',
        "ArrowRight"@[2] == 'r', "ArrowRight"@[3] == 'o', "ArrowRight"@[4] == 'w',
        "ArrowRight"@[5] == 'R', "ArrowRight"@[6] == 'i', "ArrowRight"@[7] == 'g',
        "ArrowRight"@[8] == 'h', "ArrowRight"@[9] == 't',
        "ArrowUp"@.len() == 7, "ArrowUp"@[0] == 'A', "ArrowUp"@[1] == 'r', "ArrowUp"@[2] == 'r',
        "ArrowUp"@[3] == 'o', "ArrowUp"@[4] == 'w', "ArrowUp"@[5] == 'U', "ArrowUp"@[6] == 'p',
{
    reveal_strlit("ArrowDown");
    reveal_strlit("ArrowLeft");
    reveal_strlit("ArrowRight");
    reveal_strlit("ArrowUp");
}

proof fn lits_numpad()
    ensures
        "NumLock"@.len() == 7, "NumLock"@[0] == 'N', "NumLock"@[1] == 'u', "NumLock"@[2] == 'm',
        "NumLock"@[3] == 'L', "NumLock"@[4] == 'o', "NumLock"@[5] == 'c', "NumLock"@[6] == 'k',
        "Numpad0"@.len() == 7, "Numpad0"@[0] == 'N', "Numpad0"@[1] == 'u', "Numpad0"@[2] == 'm',
        "Numpad0"@[3] == 'p', "Numpad0"@[4] == 'a', "Numpad0"@[5] == 'd', "Numpad0"@[6] == '0',
        "Numpad1"@.len() == 7, "Numpad1"@[0] == 'N', "Numpad1"@[1] == 'u', "Numpad1"@[2] == 'm',
        "Numpad1"@[3] == 'p', "Numpad1"@[4] == 'a', "Numpad1"@[5] == 'd', "Numpad1"@[6] == '1',
        "Numpad2"@.len() == 7, "Numpad2"@[0] == 'N', "Numpad2"@[1] == 'u', "Numpad2"@[2] == 'm',
        "Numpad2"@[3] == 'p', "Numpad2"@[4] == 'a', "Numpad2"@[5] == 'd', "Numpad2"@[6] == '2',
        "Numpad3"@.len() == 7, "Numpad3"@[0] == 'N', "Numpad3"@[1] == 'u', "Numpad3"@[2] == 'm',
        "Numpad3"@[3] == 'p', "Numpad3"@[4] == 'a', "Numpad3"@[5] == 'd', "Numpad3"@[6] == '3',
        "Numpad4"@.len() == 7, "Numpad4"@[0] == 'N', "Numpad4"@[1] == 'u', "Numpad4"@[2] == 'm',
        "Numpad4"@[3] == 'p', "Numpad4"@[4] == 'a', "Numpad4"@[5] == 'd', "Numpad4"@[6] == '4',
        "Numpad5"@.len() == 7, "Numpad5"@[0] == 'N', "Numpad5"@[1] == 'u', "Numpad5"@[2] == 'm',
        "Numpad5"@[3] == 'p', "Numpad5"@[4] == 'a', "Numpad5"@[5] == 'd', "Numpad5"@[6] == '5',
        "Numpad6"@.len() == 7, "Numpad6"@[0] == 'N', "Numpad6"@[1] == 'u', "Numpad6"@[2] == 'm',
        "Numpad6"@[3] == 'p', "Numpad6"@[4] == 'a', "Numpad6"@[5] == 'd', "Numpad6"@[6] == '6',
        "Numpad7"@.len() == 7, "Numpad7"@[0] == 'N', "Numpad7"@[1] == 'u', "Numpad7"@[2] == 'm',
        "Numpad7"@[3] == 'p', "Numpad7"@[4] == 'a', "Numpad7"@[5] == 'd', "Numpad7"@[6] == '7',
        "Numpad8"@.len() == 7, "Numpad8"@[0] == 'N', "Numpad8"@[1] == 'u', "Numpad8"@[2] == 'm',
        "Numpad8"@[3] == 'p', "Numpad8"@[4] == 'a', "Numpad8"@[5] == 'd', "Numpad8"@[6] == '8',
        "Numpad9"@.len() == 7, "Numpad9"@[0] == 'N', "Numpad9"@[1] == 'u', "Numpad9"@[2] == 'm',
        "Numpad9"@[3] == 'p', "Numpad9"@[4] == 'a', "Numpad9"@[5] == 'd', "Numpad9"@[6] == '9',
        "NumpadAdd"@.len() == 9, "NumpadAdd"@[0] == 'N', "NumpadAdd"@[1] == 'u',
        "NumpadAdd"@[2] == 'm', "NumpadAdd"@[3] == 'p', "NumpadAdd"@[4] == 'a',
        "NumpadAdd"@[5] == 'd', "NumpadAdd"@[6] == 'A', "NumpadAdd"@[7] == 'd',
        "NumpadAdd"@[8] == 'd',
        "NumpadBackspace"@.len() == 15, "NumpadBackspace"@[0] == 'N',
        "NumpadBackspace"@[1] == 'u', "NumpadBackspace"@[2] == 'm',
        "NumpadBackspace"@[3] == 'p', "NumpadBackspace"@[4] == 'a',
        "NumpadBackspace"@[5] == 'd', "NumpadBackspace"@[6] == 'B',
        "NumpadBackspace"@[7] == 'a', "NumpadBackspace"@[8] == 'c',
        "NumpadBackspace"@[9] == 'k', "NumpadBackspace"@[10] == 's',
        "NumpadBackspace"@[11] == 'p', "NumpadBackspace"@[12] == 'a',
        "NumpadBackspace"@[13] == 'c', "NumpadBackspace"@[14] == 'e',
        "NumpadClear"@.len() == 11, "NumpadClear"@[0] == 'N', "NumpadClear"@[1] == 'u',
        "NumpadClear"@[2] == 'm', "NumpadClear"@[3] == 'p', "NumpadClear"@[4] == 'a',
        "NumpadClear"@[5] == 'd', "NumpadClear"@[6] == 'C', "NumpadClear"@[7] == 'l',
        "NumpadClear"@[8] == 'e', "NumpadClear"@[9] == 'a', "NumpadClear"@[10] == 'r',
        "NumpadClearEntry"@.len() == 16, "NumpadClearEntry"@[0] == 'N',
        "NumpadClearEntry"@[1] == 'u', "NumpadClearEntry"@[2] == 'm',
        "NumpadClearEntry"@[3] == 'p', "NumpadClearEntry"@[4] == 'a',
        "NumpadClearEntry"@[5] == 'd', "NumpadClearEntry"@[6] == 'C',
        "NumpadClearEntry"@[7] == 'l', "NumpadClearEntry"@[8] == 'e',
        "NumpadClearEntry"@[9] == 'a', "NumpadClearEntry"@[10] == 'r',
        "NumpadClearEntry"@[11] == 'E', "NumpadClearEntry"@[12] == 'n',
        "NumpadClearEntry"@[13] == 't', "NumpadClearEntry"@[14] == 'r',
        "NumpadClearEntry"@[15] == 'y',
        "NumpadComma"@.len() == 11, "NumpadComma"@[0] == 'N', "NumpadComma"@[1] == 'u',
        "NumpadComma"@[2] == 'm', "NumpadComma"@[3] == 'p', "NumpadComma"@[4] == 'a',
        "NumpadComma"@[5] == 'd', "NumpadComma"@[6] == 'C', "NumpadComma"@[7] == 'o',
        "NumpadComma"@[8] == 'm', "NumpadComma"@[9] == 'm', "NumpadComma"@[10] == 'a',
        "NumpadDecimal"@.len() == 13, "NumpadDecimal"@[0] == 'N', "NumpadDecimal"@[1] == 'u',
        "NumpadDecimal"@[2] == 'm', "NumpadDecimal"@[3] == 'p', "NumpadDecimal"@[4] == 'a',
        "NumpadDecimal"@[5] == 'd', "NumpadDecimal"@[6] == 'D', "NumpadDecimal"@[7] == 'e',
        "NumpadDecimal"@[8] == 'c', "NumpadDecimal"@[9] == 'i', "NumpadDecimal"@[10] == 'm',
        "NumpadDecimal"@[11] == 'a', "NumpadDecimal"@[12] == 'l',
        "NumpadDivide"@.len() == 12, "NumpadDivide"@[0] == 'N', "NumpadDivide"@[1] == 'u',
        "NumpadDivide"@[2] == 'm', "NumpadDivide"@[3] == 'p', "NumpadDivide"@[4] == 'a',
        "NumpadDivide"@[5] == 'd', "NumpadDivide"@[6] == 'D', "NumpadDivide"@[7] == 'i',
        "NumpadDivide"@[8] == 'v', "NumpadDivide"@[9] == 'i', "NumpadDivide"@[10] == 'd',
        "NumpadDivide"@[11] == 'e',
        "NumpadEnter"@.len() == 11, "NumpadEnter"@[0] == 'N', "NumpadEnter"@[1] == 'u',
        "NumpadEnter"@[2] == 'm', "NumpadEnter"@[3] == 'p', "NumpadEnter"@[4] == 'a',
        "NumpadEnter"@[5] == 'd', "NumpadEnter"@[6] == 'E', "NumpadEnter"@[7] == 'n',
        "NumpadEnter"@[8] == 't', "NumpadEnter"@[9] == 'e', "NumpadEnter"@[10] == 'r',
        "NumpadEqual"@.len() == 11, "NumpadEqual"@[0] == 'N', "NumpadEqual"@[1] == 'u',
        "NumpadEqual"@[2] == 'm', "NumpadEqual"@[3] == 'p', "NumpadEqual"@[4] == 'a',
        "NumpadEqual"@[5] == 'd', "NumpadEqual"@[6] == 'E', "NumpadEqual"@[7] == 'q',
        "NumpadEqual"@[8] == 'u', "NumpadEqual"@[9] == 'a', "NumpadEqual"@[10] == 'l',
        "NumpadHash"@.len() == 10, "NumpadHash"@[0] == 'N', "NumpadHash"@[1] == 'u',
        "NumpadHash"@[2] == 'm', "NumpadHash"@[3] == 'p', "NumpadHash"@[4] == 'a',
        "NumpadHash"@[5] == 'd', "NumpadHash"@[6] == 'H', "NumpadHash"@[7] == 'a',
        "NumpadHash"@[8] == 's', "NumpadHash"@[9] == 'h',
        "NumpadMemoryAdd"@.len() == 15, "NumpadMemoryAdd"@[0] == 'N',
        "NumpadMemoryAdd"@[1] == 'u', "NumpadMemoryAdd"@[2] == 'm',
        "NumpadMemoryAdd"@[3] == 'p', "NumpadMemoryAdd"@[4] == 'a',
        "NumpadMemoryAdd"@[5] == 'd', "NumpadMemoryAdd"@[6] == 'M',
        "NumpadMemoryAdd"@[7] == 'e', "NumpadMemoryAdd"@[8] == 'm',
        "NumpadMemoryAdd"@[9] == 'o', "NumpadMemoryAdd"@[10] == 'r',
        "NumpadMemoryAdd"@[11] == 'y', "NumpadMemoryAdd"@[12] == 'A',
        "NumpadMemoryAdd"@[13] == 'd', "NumpadMemoryAdd"@[14] == 'd',
        "NumpadMemoryClear"@.len() == 17, "NumpadMemoryClear"@[0] == 'N',
        "NumpadMemoryClear"@[1] == 'u', "NumpadMemoryClear"@[2] == 'm',
        "NumpadMemoryClear"@[3] == 'p', "NumpadMemoryClear"@[4] == 'a',
        "NumpadMemoryClear"@[5] == 'd', "NumpadMemoryClear"@[6] == 'M',
        "NumpadMemoryClear"@[7] == 'e', "NumpadMemoryClear"@[8] == 'm',
        "NumpadMemoryClear"@[9] == 'o', "NumpadMemoryClear"@[10] == 'r',
        "NumpadMemoryClear"@[11] == 'y', "NumpadMemoryClear"@[12] == 'C',
        "NumpadMemoryClear"@[13] == 'l', "NumpadMemoryClear"@[14] == 'e',
        "NumpadMemoryClear"@[15] == 'a', "NumpadMemoryClear"@[16] == 'r',
        "NumpadMemoryRecall"@.len() == 18, "NumpadMemoryRecall"@[0] == 'N',
        "NumpadMemoryRecall"@[1] == 'u', "NumpadMemoryRecall"@[2] == 'm',
        "NumpadMemoryRecall"@[3] == 'p', "NumpadMemoryRecall"@[4] == 'a',
        "NumpadMemoryRecall"@[5] == 'd', "NumpadMemoryRecall"@[6] == 'M',
        "NumpadMemoryRecall"@[7] == 'e', "NumpadMemoryRecall"@[8] == 'm',
        "NumpadMemoryRecall"@[9] == 'o', "NumpadMemoryRecall"@[10] == 'r',
        "NumpadMemoryRecall"@[11] == 'y', "NumpadMemoryRecall"@[12] == 'R',
        "NumpadMemoryRecall"@[13] == 'e', "NumpadMemoryRecall"@[14] == 'c',
        "NumpadMemoryRecall"@[15] == 'a', "NumpadMemoryRecall"@[16] == 'l',
        "NumpadMemoryRecall"@[17] == 'l',
        "NumpadMemoryStore"@.len() == 17, "NumpadMemoryStore"@[0] == 'N',
        "NumpadMemoryStore"@[1] == 'u', "NumpadMemoryStore"@[2] == 'm',
        "NumpadMemoryStore"@[3] == 'p', "NumpadMemoryStore"@[4] == 'a',
        "NumpadMemoryStore"@[5] == 'd', "NumpadMemoryStore"@[6] == 'M',
        "NumpadMemoryStore"@[7] == 'e', "NumpadMemoryStore"@[8] == 'm',
        "NumpadMemoryStore"@[9] == 'o', "NumpadMemoryStore"@[10] == 'r',
        "NumpadMemoryStore"@[11] == 'y', "NumpadMemoryStore"@[12] == 'S',
        "NumpadMemoryStore"@[13] == 't', "NumpadMemoryStore"@[14] == 'o',
        "NumpadMemoryStore"@[15] == 'r', "NumpadMemoryStore"@[16] == 'e',
        "NumpadMemorySubtract"@.len() == 20, "NumpadMemorySubtract"@[0] == 'N',
        "NumpadMemorySubtract"@[1] == 'u', "NumpadMemorySubtract"@[2] == 'm',
        "NumpadMemorySubtract"@[3] == 'p', "NumpadMemorySubtract"@[4] == 'a',
        "NumpadMemorySubtract"@[5] == 'd', "NumpadMemorySubtract"@[6] == 'M',
        "NumpadMemorySubtract"@[7] == 'e', "NumpadMemorySubtract"@[8] == 'm',
        "NumpadMemorySubtract"@[9] == 'o', "NumpadMemorySubtract"@[10] == 'r',
        "NumpadMemorySubtract"@[11] == 'y', "NumpadMemorySubtract"@[12] == 'S',
        "NumpadMemorySubtract"@[13] == 'u', "NumpadMemorySubtract"@[14] == 'b',
        "NumpadMemorySubtract"@[15] == 't', "NumpadMemorySubtract"@[16] == 'r',
        "NumpadMemorySubtract"@[17] == 'a', "NumpadMemorySubtract"@[18] == 'c',
        "NumpadMemorySubtract"@[19] == 't',
        "NumpadMultiply"@.len() == 14, "NumpadMultiply"@[0] == 'N', "NumpadMultiply"@[1] == 'u',
        "NumpadMultiply"@[2] == 'm', "NumpadMultiply"@[3] == 'p', "NumpadMultiply"@[4] == 'a',
        "NumpadMultiply"@[5] == 'd', "NumpadMultiply"@[6] == 'M', "NumpadMultiply"@[7] == 'u',
        "NumpadMultiply"@[8] == 'l', "NumpadMultiply"@[9] == 't', "NumpadMultiply"@[10] == 'i',
        "NumpadMultiply"@[11] == 'p', "NumpadMultiply"@[12] == 'l',
        "NumpadMultiply"@[13] == 'y',
        "NumpadParenLeft"@.len() == 15, "NumpadParenLeft"@[0] == 'N',
        "NumpadParenLeft"@[1] == 'u', "NumpadParenLeft"@[2] == 'm',
        "NumpadParenLeft"@[3] == 'p', "NumpadParenLeft"@[4] == 'a',
        "NumpadParenLeft"@[5] == 'd', "NumpadParenLeft"@[6] == 'P',
        "NumpadParenLeft"@[7] == 'a', "NumpadParenLeft"@[8] == 'r',
        "NumpadParenLeft"@[9] == 'e', "NumpadParenLeft"@[10] == 'n',
        "NumpadParenLeft"@[11] == 'L', "NumpadParenLeft"@[12] == 'e',
        "NumpadParenLeft"@[13] == 'f', "NumpadParenLeft"@[14] == 't',
        "NumpadParenRight"@.len() == 16, "NumpadParenRight"@[0] == 'N',
        "NumpadParenRight"@[1] == 'u', "NumpadParenRight"@[2] == 'm',
        "NumpadParenRight"@[3] == 'p', "NumpadParenRight"@[4] == 'a',
        "NumpadParenRight"@[5] == 'd', "NumpadParenRight"@[6] == 'P',
        "NumpadParenRight"@[7] == 'a', "NumpadParenRight"@[8] == 'r',
        "NumpadParenRight"@[9] == 'e', "NumpadParenRight"@[10] == 'n',
        "NumpadParenRight"@[11] == 'R', "NumpadParenRight"@[12] == 'i',
        "NumpadParenRight"@[13] == 'g', "NumpadParenRight"@[14] == 'h',
        "NumpadParenRight"@[15] == 't',
        "NumpadStar"@.len() == 10, "NumpadStar"@[0] == 'N', "NumpadStar"@[1] == 'u',
        "NumpadStar"@[2] == 'm', "NumpadStar"@[3] == 'p', "NumpadStar"@[4] == 'a',
        "NumpadStar"@[5] == 'd', "NumpadStar"@[6] == 'S', "NumpadStar"@[7] == 't',
        "NumpadStar"@[8] == 'a', "NumpadStar"@[9] == 'r',
        "NumpadSubtract"@.len() == 14, "NumpadSubtract"@[0] == 'N', "NumpadSubtract"@[1] == 'u',
        "NumpadSubtract"@[2] == 'm', "NumpadSubtract"@[3] == 'p', "NumpadSubtract"@[4] == 'a',
        "NumpadSubtract"@[5] == 'd', "NumpadSubtract"@[6] == 'S', "NumpadSubtract"@[7] == 'u',
        "NumpadSubtract"@[8] == 'b', "NumpadSubtract"@[9] == 't', "NumpadSubtract"@[10] == 'r',
        "NumpadSubtract"@[11] == 'a', "NumpadSubtract"@[12] == 'c',
        "NumpadSubtract"@[13] == 't',
{
    reveal_strlit("NumLock");
    reveal_strlit("Numpad0");
    reveal_strlit("Numpad1");
    reveal_strlit("Numpad2");
    reveal_strlit("Numpad3");
    reveal_strlit("Numpad4");
    reveal_strlit("Numpad5");
    reveal_strlit("Numpad6");
    reveal_strlit("Numpad7");
    reveal_strlit("Numpad8");
    reveal_strlit("Numpad9");
    reveal_strlit("NumpadAdd");
    reveal_strlit("NumpadBackspace");
    reveal_strlit("NumpadClear");
    reveal_strlit("NumpadClearEntry");
    reveal_strlit("NumpadComma");
    reveal_strlit("NumpadDecimal");
    reveal_strlit("NumpadDivide");
    reveal_strlit("NumpadEnter");
    reveal_strlit("NumpadEqual");
    reveal_strlit("NumpadHash");
    reveal_strlit("NumpadMemoryAdd");
    reveal_strlit("NumpadMemoryClear");
    reveal_strlit("NumpadMemoryRecall");
    reveal_strlit("NumpadMemoryStore");
    reveal_strlit("NumpadMemorySubtract");
    reveal_strlit("NumpadMultiply");
    reveal_strlit("NumpadParenLeft");
    reveal_strlit("NumpadParenRight");
    reveal_strlit("NumpadStar");
    reveal_strlit("NumpadSubtract");
}

proof fn lits_function_row()
    ensures
        "Escape"@.len() == 6, "Escape"@[0] == 'E', "Escape"@[1] == 's', "Escape"@[2] == 'c',
        "Escape"@[3] == 'a', "Escape"@[4] == 'p', "Escape"@[5] == 'e',
        "F1"@.len() == 2, "F1"@[0] == 'F', "F1"@[1] == '1',
        "F2"@.len() == 2, "F2"@[0] == 'F', "F2"@[1] == '2',
        "F3"@.len() == 2, "F3"@[0] == 'F', "F3"@[1] == '3',
        "F4"@.len() == 2, "F4"@[0] == 'F', "F4"@[1] == '4',
        "F5"@.len() == 2, "F5"@[0] == 'F', "F5"@[1] == '5',
        "F6"@.len() == 2, "F6"@[0] == 'F', "F6"@[1] == '6',
        "F7"@.len() == 2, "F7"@[0] == 'F', "F7"@[1] == '7',
        "F8"@.len() == 2, "F8"@[0] == 'F', "F8"@[1] == '8',
        "F9"@.len() == 2, "F9"@[0] == 'F', "F9"@[1] == '9',
        "F10"@.len() == 3, "F10"@[0] == 'F', "F10"@[1] == '1', "F10"@[2] == '0',
        "F11"@.len() == 3, "F11"@[0] == 'F', "F11"@[1] == '1', "F11"@[2] == '1',
        "F12"@.len() == 3, "F12"@[0] == 'F', "F12"@[1] == '1', "F12"@[2] == '2',
        "F13"@.len() == 3, "F13"@[0] == 'F', "F13"@[1] == '1', "F13"@[2] == '3',
        "F14"@.len() == 3, "F14"@[0] == 'F', "F14"@[1] == '1', "F14"@[2] == '4',
        "F15"@.len() == 3, "F15"@[0] == 'F', "F15"@[1] == '1', "F15"@[2] == '5',
        "F16"@.len() == 3, "F16"@[0] == 'F', "F16"@[1] == '1', "F16"@[2] == '6',
        "F17"@.len() == 3, "F17"@[0] == 'F', "F17"@[1] == '1', "F17"@[2] == '7',
        "F18"@.len() == 3, "F18"@[0] == 'F', "F18"@[1] == '1', "F18"@[2] == '8',
        "F19"@.len() == 3, "F19"@[0] == 'F', "F19"@[1] == '1', "F19"@[2] == '9',
        "F20"@.len() == 3, "F20"@[0] == 'F', "F20"@[1] == '2', "F20"@[2] == '0',
        "F21"@.len() == 3, "F21"@[0] == 'F', "F21"@[1] == '2', "F21"@[2] == '1',
        "F22"@.len() == 3, "F22"@[0] == 'F', "F22"@[1] == '2', "F22"@[2] == '2',
        "F23"@.len() == 3, "F23"@[0] == 'F', "F23"@[1] == '2', "F23"@[2] == '3',
        "F24"@.len() == 3, "F24"@[0] == 'F', "F24"@[1] == '2', "F24"@[2] == '4',
        "Fn"@.len() == 2, "Fn"@[0] == 'F', "Fn"@[1] == 'n',
        "FnLock"@.len() == 6, "FnLock"@[0] == 'F', "FnLock"@[1] == 'n', "FnLock"@[2] == 'L',
        "FnLock"@[3] == 'o', "FnLock"@[4] == 'c', "FnLock"@[5] == 'k',
        "PrintScreen"@.len() == 11, "PrintScreen"@[0] == 'P', "PrintScreen"@[1] == 'r',
        "PrintScreen"@[2] == 'i', "PrintScreen"@[3] == 'n', "PrintScreen"@[4] == 't',
        "PrintScreen"@[5] == 'S', "PrintScreen"@[6] == 'c', "PrintScreen"@[7] == 'r',
        "PrintScreen"@[8] == 'e', "PrintScreen"@[9] == 'e', "PrintScreen"@[10] == 'n',
        "ScrollLock"@.len() == 10, "ScrollLock"@[0] == 'S', "ScrollLock"@[1] == 'c',
        "ScrollLock"@[2] == 'r', "ScrollLock"@[3] == 'o', "ScrollLock"@[4] == 'l',
        "ScrollLock"@[5] == 'l', "ScrollLock"@[6] == 'L', "ScrollLock"@[7] == 'o',
        "ScrollLock"@[8] == 'c', "ScrollLock"@[9] == 'k',
        "Pause"@.len() == 5, "Pause"@[0] == 'P', "Pause"@[1] == 'a', "Pause"@[2] == 'u',
        "Pause"@[3] == 's', "Pause"@[4] == 'e',
{
    reveal_strlit("Escape");
    reveal_strlit("F1");
    reveal_strlit("F2");
    reveal_strlit("F3");
    reveal_strlit("F4");
    reveal_strlit("F5");
    reveal_strlit("F6");
    reveal_strlit("F7");
    reveal_strlit("F8");
    reveal_strlit("F9");
    reveal_strlit("F10");
    reveal_strlit("F11");
    reveal_strlit("F12");
    reveal_strlit("F13");
    reveal_strlit("F14");
    reveal_strlit("F15");
    reveal_strlit("F16");
    reveal_strlit("F17");
    reveal_strlit("F18");
    reveal_strlit("F19");
    reveal_strlit("F20");
    reveal_strlit("F21");
    reveal_strlit("F22");
    reveal_strlit("F23");
    reveal_strlit("F24");
    reveal_strlit("Fn");
    reveal_strlit("FnLock");
    reveal_strlit("PrintScreen");
    reveal_strlit("ScrollLock");
    reveal_strlit("Pause");
}

proof fn lits_media()
    ensures
        "BrowserBack"@.len() == 11, "BrowserBack"@[0] == 'B', "BrowserBack"@[1] == 'r',
        "BrowserBack"@[2] == 'o', "BrowserBack"@[3] == 'w', "BrowserBack"@[4] == 's',
        "BrowserBack"@[5] == 'e', "BrowserBack"@[6] == 'r', "BrowserBack"@[7] == 'B',
        "BrowserBack"@[8] == 'a', "BrowserBack"@[9] == 'c', "BrowserBack"@[10] == 'k',
        "BrowserFavorites"@.len() == 16, "BrowserFavorites"@[0] == 'B',
        "BrowserFavorites"@[1] == 'r', "BrowserFavorites"@[2] == 'o',
        "BrowserFavorites"@[3] == 'w', "BrowserFavorites"@[4] == 's',
        "BrowserFavorites"@[5] == 'e', "BrowserFavorites"@[6] == 'r',
        "BrowserFavorites"@[7] == 'F', "BrowserFavorites"@[8] == 'a',
        "BrowserFavorites"@[9] == 'v', "BrowserFavorites"@[10] == 'o',
        "BrowserFavorites"@[11] == 'r', "BrowserFavorites"@[12] == 'i',
        "BrowserFavorites"@[13] == 't', "BrowserFavorites"@[14] == 'e',
        "BrowserFavorites"@[15] == 's',
        "BrowserForward"@.len() == 14, "BrowserForward"@[0] == 'B', "BrowserForward"@[1] == 'r',
        "BrowserForward"@[2] == 'o', "BrowserForward"@[3] == 'w', "BrowserForward"@[4] == 's',
        "BrowserForward"@[5] == 'e', "BrowserForward"@[6] == 'r', "BrowserForward"@[7] == 'F',
        "BrowserForward"@[8] == 'o', "BrowserForward"@[9] == 'r', "BrowserForward"@[10] == 'w',
        "BrowserForward"@[11] == 'a', "BrowserForward"@[12] == 'r',
        "BrowserForward"@[13] == 'd',
        "BrowserHome"@.len() == 11, "BrowserHome"@[0] == 'B', "BrowserHome"@[1] == 'r',
        "BrowserHome"@[2] == 'o', "BrowserHome"@[3] == 'w', "BrowserHome"@[4] == 's',
        "BrowserHome"@[5] == 'e', "BrowserHome"@[6] == 'r', "BrowserHome"@[7] == 'H',
        "BrowserHome"@[8] == 'o', "BrowserHome"@[9] == 'm', "BrowserHome"@[10] == 'e',
        "BrowserRefresh"@.len() == 14, "BrowserRefresh"@[0] == 'B', "BrowserRefresh"@[1] == 'r',
        "BrowserRefresh"@[2] == 'o', "BrowserRefresh"@[3] == 'w', "BrowserRefresh"@[4] == 's',
        "BrowserRefresh"@[5] == 'e', "BrowserRefresh"@[6] == 'r', "BrowserRefresh"@[7] == 'R',
        "BrowserRefresh"@[8] == 'e', "BrowserRefresh"@[9] == 'f', "BrowserRefresh"@[10] == 'r',
        "BrowserRefresh"@[11] == 'e', "BrowserRefresh"@[12] == 's',
        "BrowserRefresh"@[13] == 'h',
        "BrowserSearch"@.len() == 13, "BrowserSearch"@[0] == 'B', "BrowserSearch"@[1] == 'r',
        "BrowserSearch"@[2] == 'o', "BrowserSearch"@[3] == 'w', "BrowserSearch"@[4] == 's',
        "BrowserSearch"@[5] == 'e', "BrowserSearch"@[6] == 'r', "BrowserSearch"@[7] == 'S',
        "BrowserSearch"@[8] == 'e', "BrowserSearch"@[9] == 'a', "BrowserSearch"@[10] == 'r',
        "BrowserSearch"@[11] == 'c', "BrowserSearch"@[12] == 'h',
        "BrowserStop"@.len() == 11, "BrowserStop"@[0] == 'B', "BrowserStop"@[1] == 'r',
        "BrowserStop"@[2] == 'o', "BrowserStop"@[3] == 'w', "BrowserStop"@[4] == 's',
        "BrowserStop"@[5] == 'e', "BrowserStop"@[6] == 'r', "BrowserStop"@[7] == 'S',
        "BrowserStop"@[8] == 't', "BrowserStop"@[9] == 'o', "BrowserStop"@[10] == 'p',
        "Eject"@.len() == 5, "Eject"@[0] == 'E', "Eject"@[1] == 'j', "Eject"@[2] == 'e',
        "Eject"@[3] == 'c', "Eject"@[4] == 't',
        "LaunchApp1"@.len() == 10, "LaunchApp1"@[0] == 'L', "LaunchApp1"@[1] == 'a',
        "LaunchApp1"@[2] == 'u', "LaunchApp1"@[3] == 'n', "LaunchApp1"@[4] == 'c',
        "LaunchApp1"@[5] == 'h', "LaunchApp1"@[6] == 'A', "LaunchApp1"@[7] == 'p',
        "LaunchApp1"@[8] == 'p', "LaunchApp1"@[9] == '1',
        "LaunchApp2"@.len() == 10, "LaunchApp2"@[0] == 'L', "LaunchApp2"@[1] == 'a',
        "LaunchApp2"@[2] == 'u', "LaunchApp2"@[3] == 'n', "LaunchApp2"@[4] == 'c',
        "LaunchApp2"@[5] == 'h', "LaunchApp2"@[6] == 'A', "LaunchApp2"@[7] == 'p',
        "LaunchApp2"@[8] == 'p', "LaunchApp2"@[9] == '2',
        "LaunchMail"@.len() == 10, "LaunchMail"@[0] == 'L', "LaunchMail"@[1] == 'a',
        "LaunchMail"@[2] == 'u', "LaunchMail"@[3] == 'n', "LaunchMail"@[4] == 'c',
        "LaunchMail"@[5] == 'h', "LaunchMail"@[6] == 'M', "LaunchMail"@[7] == 'a',
        "LaunchMail"@[8] == 'i', "LaunchMail"@[9] == 'l',
        "MediaPlayPause"@.len() == 14, "MediaPlayPause"@[0] == 'M', "MediaPlayPause"@[1] == 'e',
        "MediaPlayPause"@[2] == 'd', "MediaPlayPause"@[3] == 'i', "MediaPlayPause"@[4] == 'a',
        "MediaPlayPause"@[5] == 'P', "MediaPlayPause"@[6] == 'l', "MediaPlayPause"@[7] == 'a',
        "MediaPlayPause"@[8] == 'y', "MediaPlayPause"@[9] == 'P', "MediaPlayPause"@[10] == 'a',
        "MediaPlayPause"@[11] == 'u', "MediaPlayPause"@[12] == 's',
        "MediaPlayPause"@[13] == 'e',
        "MediaSelect"@.len() == 11, "MediaSelect"@[0] == 'M', "MediaSelect"@[1] == 'e',
        "MediaSelect"@[2] == 'd', "MediaSelect"@[3] == 'i', "MediaSelect"@[4] == 'a',
        "MediaSelect"@[5] == 'S', "MediaSelect"@[6] == 'e', "MediaSelect"@[7] == 'l',
        "MediaSelect"@[8] == 'e', "MediaSelect"@[9] == 'c', "MediaSelect"@[10] == 't',
        "LaunchMediaPlayer"@.len() == 17, "LaunchMediaPlayer"@[0] == 'L',
        "LaunchMediaPlayer"@[1] == 'a', "LaunchMediaPlayer"@[2] == 'u',
        "LaunchMediaPlayer"@[3] == 'n', "LaunchMediaPlayer"@[4] == 'c',
        "LaunchMediaPlayer"@[5] == 'h', "LaunchMediaPlayer"@[6] == 'M',
        "LaunchMediaPlayer"@[7] == 'e', "LaunchMediaPlayer"@[8] == 'd',
        "LaunchMediaPlayer"@[9] == 'i', "LaunchMediaPlayer"@[10] == 'a',
        "LaunchMediaPlayer"@[11] == 'P', "LaunchMediaPlayer"@[12] == 'l',
        "LaunchMediaPlayer"@[13] == 'a', "LaunchMediaPlayer"@[14] == 'y',
        "LaunchMediaPlayer"@[15] == 'e', "LaunchMediaPlayer"@[16] == 'r',
        "MediaStop"@.len() == 9, "MediaStop"@[0] == 'M', "MediaStop"@[1] == 'e',
        "MediaStop"@[2] == 'd', "MediaStop"@[3] == 'i', "MediaStop"@[4] == 'a',
        "MediaStop"@[5] == 'S', "MediaStop"@[6] == 't', "MediaStop"@[7] == 'o',
        "MediaStop"@[8] == 'p',
        "MediaTrackNext"@.len() == 14, "MediaTrackNext"@[0] == 'M', "MediaTrackNext"@[1] == 'e',
        "MediaTrackNext"@[2] == 'd', "MediaTrackNext"@[3] == 'i', "MediaTrackNext"@[4] == 'a',
        "MediaTrackNext"@[5] == 'T', "MediaTrackNext"@[6] == 'r', "MediaTrackNext"@[7] == 'a',
        "MediaTrackNext"@[8] == 'c', "MediaTrackNext"@[9] == 'k', "MediaTrackNext"@[10] == 'N',
        "MediaTrackNext"@[11] == 'e', "MediaTrackNext"@[12] == 'x',
        "MediaTrackNext"@[13] == 't',
        "MediaTrackPrevious"@.len() == 18, "MediaTrackPrevious"@[0] == 'M',
        "MediaTrackPrevious"@[1] == 'e', "MediaTrackPrevious"@[2] == 'd',
        "MediaTrackPrevious"@[3] == 'i', "MediaTrackPrevious"@[4] == 'a',
        "MediaTrackPrevious"@[5] == 'T', "MediaTrackPrevious"@[6] == 'r',
        "MediaTrackPrevious"@[7] == 'a', "MediaTrackPrevious"@[8] == 'c',
        "MediaTrackPrevious"@[9] == 'k', "MediaTrackPrevious"@[10] == 'P',
        "MediaTrackPrevious"@[11] == 'r', "MediaTrackPrevious"@[12] == 'e',
        "MediaTrackPrevious"@[13] == 'v', "MediaTrackPrevious"@[14] == 'i',
        "MediaTrackPrevious"@[15] == 'o', "MediaTrackPrevious"@[16] == 'u',
        "MediaTrackPrevious"@[17] == 's',
        "Power"@.len() == 5, "Power"@[0] == 'P', "Power"@[1] == 'o', "Power"@[2] == 'w',
        "Power"@[3] == 'e', "Power"@[4] == 'r',
        "Sleep"@.len() == 5, "Sleep"@[0] == 'S', "Sleep"@[1] == 'l', "Sleep"@[2] == 'e',
        "Sleep"@[3] == 'e', "Sleep"@[4] == 'p',
        "AudioVolumeDown"@.len() == 15, "AudioVolumeDown"@[0] == 'A',
        "AudioVolumeDown"@[1] == 'u', "AudioVolumeDown"@[2] == 'd',
        "AudioVolumeDown"@[3] == 'i', "AudioVolumeDown"@[4] == 'o',
        "AudioVolumeDown"@[5] == 'V', "AudioVolumeDown"@[6] == 'o',
        "AudioVolumeDown"@[7] == 'l', "AudioVolumeDown"@[8] == 'u',
        "AudioVolumeDown"@[9] == 'm', "AudioVolumeDown"@[10] == 'e',
        "AudioVolumeDown"@[11] == 'D', "AudioVolumeDown"@[12] == 'o',
        "AudioVolumeDown"@[13] == 'w', "AudioVolumeDown"@[14] == 'n',
        "VolumeDown"@.len() == 10, "VolumeDown"@[0] == 'V', "VolumeDown"@[1] == 'o',
        "VolumeDown"@[2] == 'l', "VolumeDown"@[3] == 'u', "VolumeDown"@[4] == 'm',
        "VolumeDown"@[5] == 'e', "VolumeDown"@[6] == 'D', "VolumeDown"@[7] == 'o',
        "VolumeDown"@[8] == 'w', "VolumeDown"@[9] == 'n',
        "AudioVolumeMute"@.len() == 15, "AudioVolumeMute"@[0] == 'A',
        "AudioVolumeMute"@[1] == 'u', "AudioVolumeMute"@[2] == 'd',
        "AudioVolumeMute"@[3] == 'i', "AudioVolumeMute"@[4] == 'o',
        "AudioVolumeMute"@[5] == 'V', "AudioVolumeMute"@[6] == 'o',
        "AudioVolumeMute"@[7] == 'l', "AudioVolumeMute"@[8] == 'u',
        "AudioVolumeMute"@[9] == 'm', "AudioVolumeMute"@[10] == 'e',
        "AudioVolumeMute"@[11] == 'M', "AudioVolumeMute"@[12] == 'u',
        "AudioVolumeMute"@[13] == 't', "AudioVolumeMute"@[14] == 'e',
        "VolumeMute"@.len() == 10, "VolumeMute"@[0] == 'V', "VolumeMute"@[1] == 'o',
        "VolumeMute"@[2] == 'l', "VolumeMute"@[3] == 'u', "VolumeMute"@[4] == 'm',
        "VolumeMute"@[5] == 'e', "VolumeMute"@[6] == 'M', "VolumeMute"@[7] == 'u',
        "VolumeMute"@[8] == 't', "VolumeMute"@[9] == 'e',
        "AudioVolumeUp"@.len() == 13, "AudioVolumeUp"@[0] == 'A', "AudioVolumeUp"@[1] == 'u',
        "AudioVolumeUp"@[2] == 'd', "AudioVolumeUp"@[3] == 'i', "AudioVolumeUp"@[4] == 'o',
        "AudioVolumeUp"@[5] == 'V', "AudioVolumeUp"@[6] == 'o', "AudioVolumeUp"@[7] == 'l',
        "AudioVolumeUp"@[8] == 'u', "AudioVolumeUp"@[9] == 'm', "AudioVolumeUp"@[10] == 'e',
        "AudioVolumeUp"@[11] == 'U', "AudioVolumeUp"@[12] == 'p',
        "VolumeUp"@.len() == 8, "VolumeUp"@[0] == 'V', "VolumeUp"@[1] == 'o',
        "VolumeUp"@[2] == 'l', "VolumeUp"@[3] == 'u', "VolumeUp"@[4] == 'm',
        "VolumeUp"@[5] == 'e', "VolumeUp"@[6] == 'U', "VolumeUp"@[7] == 'p',
        "WakeUp"@.len() == 6, "WakeUp"@[0] == 'W', "WakeUp"@[1] == 'a', "WakeUp"@[2] == 'k',
        "WakeUp"@[3] == 'e', "WakeUp"@[4] == 'U', "WakeUp"@[5] == 'p',
{
    reveal_strlit("BrowserBack");
    reveal_strlit("BrowserFavorites");
    reveal_strlit("BrowserForward");
    reveal_strlit("BrowserHome");
    reveal_strlit("BrowserRefresh");
    reveal_strlit("BrowserSearch");
    reveal_strlit("BrowserStop");
    reveal_strlit("Eject");
    reveal_strlit("LaunchApp1");
    reveal_strlit("LaunchApp2");
    reveal_strlit("LaunchMail");
    reveal_strlit("MediaPlayPause");
    reveal_strlit("MediaSelect");
    reveal_strlit("LaunchMediaPlayer");
    reveal_strlit("MediaStop");
    reveal_strlit("MediaTrackNext");
    reveal_strlit("MediaTrackPrevious");
    reveal_strlit("Power");
    reveal_strlit("Sleep");
    reveal_strlit("AudioVolumeDown");
    reveal_strlit("VolumeDown");
    reveal_strlit("AudioVolumeMute");
    reveal_strlit("VolumeMute");
    reveal_strlit("AudioVolumeUp");
    reveal_strlit("VolumeUp");
    reveal_strlit("WakeUp");
}

proof fn lits_legacy()
    ensures
        "Again"@.len() == 5, "Again"@[0] == 'A', "Again"@[1] == 'g', "Again"@[2] == 'a',
        "Again"@[3] == 'i', "Again"@[4] == 'n',
        "Copy"@.len() == 4, "Copy"@[0] == 'C', "Copy"@[1] == 'o', "Copy"@[2] == 'p',
        "Copy"@[3] == 'y',
        "Cut"@.len() == 3, "Cut"@[0] == 'C', "Cut"@[1] == 'u', "Cut"@[2] == 't',
        "Find"@.len() == 4, "Find"@[0] == 'F', "Find"@[1] == 'i', "Find"@[2] == 'n',
        "Find"@[3] == 'd',
        "Open"@.len() == 4, "Open"@[0] == 'O', "Open"@[1] == 'p', "Open"@[2] == 'e',
        "Open"@[3] == 'n',
        "Paste"@.len() == 5, "Paste"@[0] == 'P', "Paste"@[1] == 'a', "Paste"@[2] == 's',
        "Paste"@[3] == 't', "Paste"@[4] == 'e',
        "Props"@.len() == 5, "Props"@[0] == 'P', "Props"@[1] == 'r', "Props"@[2] == 'o',
        "Props"@[3] == 'p', "Props"@[4] == 's',
        "Select"@.len() == 6, "Select"@[0] == 'S', "Select"@[1] == 'e', "Select"@[2] == 'l',
        "Select"@[3] == 'e', "Select"@[4] == 'c', "Select"@[5] == 't',
        "Undo"@.len() == 4, "Undo"@[0] == 'U', "Undo"@[1] == 'n', "Undo"@[2] == 'd',
        "Undo"@[3] == 'o',
{
    reveal_strlit("Again");
    reveal_strlit("Copy");
    reveal_strlit("Cut");
    reveal_strlit("Find");
    reveal_strlit("Open");
    reveal_strlit("Paste");
    reveal_strlit("Props");
    reveal_strlit("Select");
    reveal_strlit("Undo");
}

proof fn lits_gamepad()
    ensures
        "Gamepad0"@.len() == 8, "Gamepad0"@[0] == 'G', "Gamepad0"@[1] == 'a',
        "Gamepad0"@[2] == 'm', "Gamepad0"@[3] == 'e', "Gamepad0"@[4] == 'p',
        "Gamepad0"@[5] == 'a', "Gamepad0"@[6] == 'd', "Gamepad0"@[7] == '0',
        "Gamepad1"@.len() == 8, "Gamepad1"@[0] == 'G', "Gamepad1"@[1] == 'a',
        "Gamepad1"@[2] == 'm', "Gamepad1"@[3] == 'e', "Gamepad1"@[4] == 'p',
        "Gamepad1"@[5] == 'a', "Gamepad1"@[6] == 'd', "Gamepad1"@[7] == '1',
        "Gamepad2"@.len() == 8, "Gamepad2"@[0] == 'G', "Gamepad2"@[1] == 'a',
        "Gamepad2"@[2] == 'm', "Gamepad2"@[3] == 'e', "Gamepad2"@[4] == 'p',
        "Gamepad2"@[5] == 'a', "Gamepad2"@[6] == 'd', "Gamepad2"@[7] == '2',
        "Gamepad3"@.len() == 8, "Gamepad3"@[0] == 'G', "Gamepad3"@[1] == 'a',
        "Gamepad3"@[2] == 'm', "Gamepad3"@[3] == 'e', "Gamepad3"@[4] == 'p',
        "Gamepad3"@[5] == 'a', "Gamepad3"@[6] == 'd', "Gamepad3"@[7] == '3',
        "Gamepad4"@.len() == 8, "Gamepad4"@[0] == 'G', "Gamepad4"@[1] == 'a',
        "Gamepad4"@[2] == 'm', "Gamepad4"@[3] == 'e', "Gamepad4"@[4] == 'p',
        "Gamepad4"@[5] == 'a', "Gamepad4"@[6] == 'd', "Gamepad4"@[7] == '4',
        "Gamepad5"@.len() == 8, "Gamepad5"@[0] == 'G', "Gamepad5"@[1] == 'a',
        "Gamepad5"@[2] == 'm', "Gamepad5"@[3] == 'e', "Gamepad5"@[4] == 'p',
        "Gamepad5"@[5] == 'a', "Gamepad5"@[6] == 'd', "Gamepad5"@[7] == '5',
        "Gamepad6"@.len() == 8, "Gamepad6"@[0] == 'G', "Gamepad6"@[1] == 'a',
        "Gamepad6"@[2] == 'm', "Gamepad6"@[3] == 'e', "Gamepad6"@[4] == 'p',
        "Gamepad6"@[5] == 'a', "Gamepad6"@[6] == 'd', "Gamepad6"@[7] == '6',
        "Gamepad7"@.len() == 8, "Gamepad7"@[0] == 'G', "Gamepad7"@[1] == 'a',
        "Gamepad7"@[2] == 'm', "Gamepad7"@[3] == 'e', "Gamepad7"@[4] == 'p',
        "Gamepad7"@[5] == 'a', "Gamepad7"@[6] == 'd', "Gamepad7"@[7] == '7',
        "Gamepad8"@.len() == 8, "Gamepad8"@[0] == 'G', "Gamepad8"@[1] == 'a',
        "Gamepad8"@[2] == 'm', "Gamepad8"@[3] == 'e', "Gamepad8"@[4] == 'p',
        "Gamepad8"@[5] == 'a', "Gamepad8"@[6] == 'd', "Gamepad8"@[7] == '8',
        "Gamepad9"@.len() == 8, "Gamepad9"@[0] == 'G', "Gamepad9"@[1] == 'a',
        "Gamepad9"@[2] == 'm', "Gamepad9"@[3] == 'e', "Gamepad9"@[4] == 'p',
        "Gamepad9"@[5] == 'a', "Gamepad9"@[6] == 'd', "Gamepad9"@[7] == '9',
        "Gamepad10"@.len() == 9, "Gamepad10"@[0] == 'G', "Gamepad10"@[1] == 'a',
        "Gamepad10"@[2] == 'm', "Gamepad10"@[3] == 'e', "Gamepad10"@[4] == 'p',
        "Gamepad10"@[5] == 'a', "Gamepad10"@[6] == 'd', "Gamepad10"@[7] == '1',
        "Gamepad10"@[8] == '0',
        "Gamepad11"@.len() == 9, "Gamepad11"@[0] == 'G', "Gamepad11"@[1] == 'a',
        "Gamepad11"@[2] == 'm', "Gamepad11"@[3] == 'e', "Gamepad11"@[4] == 'p',
        "Gamepad11"@[5] == 'a', "Gamepad11"@[6] == 'd', "Gamepad11"@[7] == '1',
        "Gamepad11"@[8] == '1',
        "Gamepad12"@.len() == 9, "Gamepad12"@[0] == 'G', "Gamepad12"@[1] == 'a',
        "Gamepad12"@[2] == 'm', "Gamepad12"@[3] == 'e', "Gamepad12"@[4] == 'p',
        "Gamepad12"@[5] == 'a', "Gamepad12"@[6] == 'd', "Gamepad12"@[7] == '1',
        "Gamepad12"@[8] == '2',
        "Gamepad13"@.len() == 9, "Gamepad13"@[0] == 'G', "Gamepad13"@[1] == 'a',
        "Gamepad13"@[2] == 'm', "Gamepad13"@[3] == 'e', "Gamepad13"@[4] == 'p',
        "Gamepad13"@[5] == 'a', "Gamepad13"@[6] == 'd', "Gamepad13"@[7] == '1',
        "Gamepad13"@[8] == '3',
        "Gamepad14"@.len() == 9, "Gamepad14"@[0] == 'G', "Gamepad14"@[1] == 'a',
        "Gamepad14"@[2] == 'm', "Gamepad14"@[3] == 'e', "Gamepad14"@[4] == 'p',
        "Gamepad14"@[5] == 'a', "Gamepad14"@[6] == 'd', "Gamepad14"@[7] == '1',
        "Gamepad14"@[8] == '4',
        "Gamepad15"@.len() == 9, "Gamepad15"@[0] == 'G', "Gamepad15"@[1] == 'a',
        "Gamepad15"@[2] == 'm', "Gamepad15"@[3] == 'e', "Gamepad15"@[4] == 'p',
        "Gamepad15"@[5] == 'a', "Gamepad15"@[6] == 'd', "Gamepad15"@[7] == '1',
        "Gamepad15"@[8] == '5',
        "Gamepad16"@.len() == 9, "Gamepad16"@[0] == 'G', "Gamepad16"@[1] == 'a',
        "Gamepad16"@[2] == 'm', "Gamepad16"@[3] == 'e', "Gamepad16"@[4] == 'p',
        "Gamepad16"@[5] == 'a', "Gamepad16"@[6] == 'd', "Gamepad16"@[7] == '1',
        "Gamepad16"@[8] == '6',
        "Gamepad17"@.len() == 9, "Gamepad17"@[0] == 'G', "Gamepad17"@[1] == 'a',
        "Gamepad17"@[2] == 'm', "Gamepad17"@[3] == 'e', "Gamepad17"@[4] == 'p',
        "Gamepad17"@[5] == 'a', "Gamepad17"@[6] == 'd', "Gamepad17"@[7] == '1',
        "Gamepad17"@[8] == '7',
        "Gamepad18"@.len() == 9, "Gamepad18"@[0] == 'G', "Gamepad18"@[1] == 'a',
        "Gamepad18"@[2] == 'm', "Gamepad18"@[3] == 'e', "Gamepad18"@[4] == 'p',
        "Gamepad18"@[5] == 'a', "Gamepad18"@[6] == 'd', "Gamepad18"@[7] == '1',
        "Gamepad18"@[8] == '8',
        "Gamepad19"@.len() == 9, "Gamepad19"@[0] == 'G', "Gamepad19"@[1] == 'a',
        "Gamepad19"@[2] == 'm', "Gamepad19"@[3] == 'e', "Gamepad19"@[4] == 'p',
        "Gamepad19"@[5] == 'a', "Gamepad19"@[6] == 'd', "Gamepad19"@[7] == '1',
        "Gamepad19"@[8] == '9',
{
    reveal_strlit("Gamepad0");
    reveal_strlit("Gamepad1");
    reveal_strlit("Gamepad2");
    reveal_strlit("Gamepad3");
    reveal_strlit("Gamepad4");
    reveal_strlit("Gamepad5");
    reveal_strlit("Gamepad6");
    reveal_strlit("Gamepad7");
    reveal_strlit("Gamepad8");
    reveal_strlit("Gamepad9");
    reveal_strlit("Gamepad10");
    reveal_strlit("Gamepad11");
    reveal_strlit("Gamepad12");
    reveal_strlit("Gamepad13");
    reveal_strlit("Gamepad14");
    reveal_strlit("Gamepad15");
    reveal_strlit("Gamepad16");
    reveal_strlit("Gamepad17");
    reveal_strlit("Gamepad18");
    reveal_strlit("Gamepad19");
}

proof fn lits_non_standard()
    ensures
        "BrightnessDown"@.len() == 14, "BrightnessDown"@[0] == 'B', "BrightnessDown"@[1] == 'r',
        "BrightnessDown"@[2] == 'i', "BrightnessDown"@[3] == 'g', "BrightnessDown"@[4] == 'h',
        "BrightnessDown"@[5] == 't', "BrightnessDown"@[6] == 'n', "BrightnessDown"@[7] == 'e',
        "BrightnessDown"@[8] == 's', "BrightnessDown"@[9] == 's', "BrightnessDown"@[10] == 'D',
        "BrightnessDown"@[11] == 'o', "BrightnessDown"@[12] == 'w',
        "BrightnessDown"@[13] == 'n',
        "BrightnessUp"@.len() == 12, "BrightnessUp"@[0] == 'B', "BrightnessUp"@[1] == 'r',
        "BrightnessUp"@[2] == 'i', "BrightnessUp"@[3] == 'g', "BrightnessUp"@[4] == 'h',
        "BrightnessUp"@[5] == 't', "BrightnessUp"@[6] == 'n', "BrightnessUp"@[7] == 'e',
        "BrightnessUp"@[8] == 's', "BrightnessUp"@[9] == 's', "BrightnessUp"@[10] == 'U',
        "BrightnessUp"@[11] == 'p',
        "DisplayToggleIntExt"@.len() == 19, "DisplayToggleIntExt"@[0] == 'D',
        "DisplayToggleIntExt"@[1] == 'i', "DisplayToggleIntExt"@[2] == 's',
        "DisplayToggleIntExt"@[3] == 'p', "DisplayToggleIntExt"@[4] == 'l',
        "DisplayToggleIntExt"@[5] == 'a', "DisplayToggleIntExt"@[6] == 'y',
        "DisplayToggleIntExt"@[7] == 'T', "DisplayToggleIntExt"@[8] == 'o',
        "DisplayToggleIntExt"@[9] == 'g', "DisplayToggleIntExt"@[10] == 'g',
        "DisplayToggleIntExt"@[11] == 'l', "DisplayToggleIntExt"@[12] == 'e',
        "DisplayToggleIntExt"@[13] == 'I', "DisplayToggleIntExt"@[14] == 'n',
        "DisplayToggleIntExt"@[15] == 't', "DisplayToggleIntExt"@[16] == 'E',
        "DisplayToggleIntExt"@[17] == 'x', "DisplayToggleIntExt"@[18] == 't',
        "KeyboardLayoutSelect"@.len() == 20, "KeyboardLayoutSelect"@[0] == 'K',
        "KeyboardLayoutSelect"@[1] == 'e', "KeyboardLayoutSelect"@[2] == 'y',
        "KeyboardLayoutSelect"@[3] == 'b', "KeyboardLayoutSelect"@[4] == 'o',
        "KeyboardLayoutSelect"@[5] == 'a', "KeyboardLayoutSelect"@[6] == 'r',
        "KeyboardLayoutSelect"@[7] == 'd', "KeyboardLayoutSelect"@[8] == 'L',
        "KeyboardLayoutSelect"@[9] == 'a', "KeyboardLayoutSelect"@[10] == 'y',
        "KeyboardLayoutSelect"@[11] == 'o', "KeyboardLayoutSelect"@[12] == 'u',
        "KeyboardLayoutSelect"@[13] == 't', "KeyboardLayoutSelect"@[14] == 'S',
        "KeyboardLayoutSelect"@[15] == 'e', "KeyboardLayoutSelect"@[16] == 'l',
        "KeyboardLayoutSelect"@[17] == 'e', "KeyboardLayoutSelect"@[18] == 'c',
        "KeyboardLayoutSelect"@[19] == 't',
        "LaunchAssistant"@.len() == 15, "LaunchAssistant"@[0] == 'L',
        "LaunchAssistant"@[1] == 'a', "LaunchAssistant"@[2] == 'u',
        "LaunchAssistant"@[3] == 'n', "LaunchAssistant"@[4] == 'c',
        "LaunchAssistant"@[5] == 'h', "LaunchAssistant"@[6] == 'A',
        "LaunchAssistant"@[7] == 's', "LaunchAssistant"@[8] == 's',
        "LaunchAssistant"@[9] == 'i', "LaunchAssistant"@[10] == 's',
        "LaunchAssistant"@[11] == 't', "LaunchAssistant"@[12] == 'a',
        "LaunchAssistant"@[13] == 'n', "LaunchAssistant"@[14] == 't',
        "LaunchControlPanel"@.len() == 18, "LaunchControlPanel"@[0] == 'L',
        "LaunchControlPanel"@[1] == 'a', "LaunchControlPanel"@[2] == 'u',
        "LaunchControlPanel"@[3] == 'n', "LaunchControlPanel"@[4] == 'c',
        "LaunchControlPanel"@[5] == 'h', "LaunchControlPanel"@[6] == 'C',
        "LaunchControlPanel"@[7] == 'o', "LaunchControlPanel"@[8] == 'n',
        "LaunchControlPanel"@[9] == 't', "LaunchControlPanel"@[10] == 'r',
        "LaunchControlPanel"@[11] == 'o', "LaunchControlPanel"@[12] == 'l',
        "LaunchControlPanel"@[13] == 'P', "LaunchControlPanel"@[14] == 'a',
        "LaunchControlPanel"@[15] == 'n', "LaunchControlPanel"@[16] == 'e',
        "LaunchControlPanel"@[17] == 'l',
        "LaunchScreenSaver"@.len() == 17, "LaunchScreenSaver"@[0] == 'L',
        "LaunchScreenSaver"@[1] == 'a', "LaunchScreenSaver"@[2] == 'u',
        "LaunchScreenSaver"@[3] == 'n', "LaunchScreenSaver"@[4] == 'c',
        "LaunchScreenSaver"@[5] == 'h', "LaunchScreenSaver"@[6] == 'S',
        "LaunchScreenSaver"@[7] == 'c', "LaunchScreenSaver"@[8] == 'r',
        "LaunchScreenSaver"@[9] == 'e', "LaunchScreenSaver"@[10] == 'e',
        "LaunchScreenSaver"@[11] == 'n', "LaunchScreenSaver"@[12] == 'S',
        "LaunchScreenSaver"@[13] == 'a', "LaunchScreenSaver"@[14] == 'v',
        "LaunchScreenSaver"@[15] == 'e', "LaunchScreenSaver"@[16] == 'r',
        "MailForward"@.len() == 11, "MailForward"@[0] == 'M', "MailForward"@[1] == 'a',
        "MailForward"@[2] == 'i', "MailForward"@[3] == 'l', "MailForward"@[4] == 'F',
        "MailForward"@[5] == 'o', "MailForward"@[6] == 'r', "MailForward"@[7] == 'w',
        "MailForward"@[8] == 'a', "MailForward"@[9] == 'r', "MailForward"@[10] == 'd',
        "MailReply"@.len() == 9, "MailReply"@[0] == 'M', "MailReply"@[1] == 'a',
        "MailReply"@[2] == 'i', "MailReply"@[3] == 'l', "MailReply"@[4] == 'R',
        "MailReply"@[5] == 'e', "MailReply"@[6] == 'p', "MailReply"@[7] == 'l',
        "MailReply"@[8] == 'y',
        "MailSend"@.len() == 8, "MailSend"@[0] == 'M', "MailSend"@[1] == 'a',
        "MailSend"@[2] == 'i', "MailSend"@[3] == 'l', "MailSend"@[4] == 'S',
        "MailSend"@[5] == 'e', "MailSend"@[6] == 'n', "MailSend"@[7] == 'd',
        "MediaFastForward"@.len() == 16, "MediaFastForward"@[0] == 'M',
        "MediaFastForward"@[1] == 'e', "MediaFastForward"@[2] == 'd',
        "MediaFastForward"@[3] == 'i', "MediaFastForward"@[4] == 'a',
        "MediaFastForward"@[5] == 'F', "MediaFastForward"@[6] == 'a',
        "MediaFastForward"@[7] == 's', "MediaFastForward"@[8] == 't',
        "MediaFastForward"@[9] == 'F', "MediaFastForward"@[10] == 'o',
        "MediaFastForward"@[11] == 'r', "MediaFastForward"@[12] == 'w',
        "MediaFastForward"@[13] == 'a', "MediaFastForward"@[14] == 'r',
        "MediaFastForward"@[15] == 'd',
        "MediaPause"@.len() == 10, "MediaPause"@[0] == 'M', "MediaPause"@[1] == 'e',
        "MediaPause"@[2] == 'd', "MediaPause"@[3] == 'i', "MediaPause"@[4] == 'a',
        "MediaPause"@[5] == 'P', "MediaPause"@[6] == 'a', "MediaPause"@[7] == 'u',
        "MediaPause"@[8] == 's', "MediaPause"@[9] == 'e',
        "MediaPlay"@.len() == 9, "MediaPlay"@[0] == 'M', "MediaPlay"@[1] == 'e',
        "MediaPlay"@[2] == 'd', "MediaPlay"@[3] == 'i', "MediaPlay"@[4] == 'a',
        "MediaPlay"@[5] == 'P', "MediaPlay"@[6] == 'l', "MediaPlay"@[7] == 'a',
        "MediaPlay"@[8] == 'y',
        "MediaRecord"@.len() == 11, "MediaRecord"@[0] == 'M', "MediaRecord"@[1] == 'e',
        "MediaRecord"@[2] == 'd', "MediaRecord"@[3] == 'i', "MediaRecord"@[4] == 'a',
        "MediaRecord"@[5] == 'R', "MediaRecord"@[6] == 'e', "MediaRecord"@[7] == 'c',
        "MediaRecord"@[8] == 'o', "MediaRecord"@[9] == 'r', "MediaRecord"@[10] == 'd',
        "MediaRewind"@.len() == 11, "MediaRewind"@[0] == 'M', "MediaRewind"@[1] == 'e',
        "MediaRewind"@[2] == 'd', "MediaRewind"@[3] == 'i', "MediaRewind"@[4] == 'a',
        "MediaRewind"@[5] == 'R', "MediaRewind"@[6] == 'e', "MediaRewind"@[7] == 'w',
        "MediaRewind"@[8] == 'i', "MediaRewind"@[9] == 'n', "MediaRewind"@[10] == 'd',
        "PrivacyScreenToggle"@.len() == 19, "PrivacyScreenToggle"@[0] == 'P',
        "PrivacyScreenToggle"@[1] == 'r', "PrivacyScreenToggle"@[2] == 'i',
        "PrivacyScreenToggle"@[3] == 'v', "PrivacyScreenToggle"@[4] == 'a',
        "PrivacyScreenToggle"@[5] == 'c', "PrivacyScreenToggle"@[6] == 'y',
        "PrivacyScreenToggle"@[7] == 'S', "PrivacyScreenToggle"@[8] == 'c',
        "PrivacyScreenToggle"@[9] == 'r', "PrivacyScreenToggle"@[10] == 'e',
        "PrivacyScreenToggle"@[11] == 'e', "PrivacyScreenToggle"@[12] == 'n',
        "PrivacyScreenToggle"@[13] == 'T', "PrivacyScreenToggle"@[14] == 'o',
        "PrivacyScreenToggle"@[15] == 'g', "PrivacyScreenToggle"@[16] == 'g',
        "PrivacyScreenToggle"@[17] == 'l', "PrivacyScreenToggle"@[18] == 'e',
        "SelectTask"@.len() == 10, "SelectTask"@[0] == 'S', "SelectTask"@[1] == 'e',
        "SelectTask"@[2] == 'l', "SelectTask"@[3] == 'e', "SelectTask"@[4] == 'c',
        "SelectTask"@[5] == 't', "SelectTask"@[6] == 'T', "SelectTask"@[7] == 'a',
        "SelectTask"@[8] == 's', "SelectTask"@[9] == 'k',
        "ShowAllWindows"@.len() == 14, "ShowAllWindows"@[0] == 'S', "ShowAllWindows"@[1] == 'h',
        "ShowAllWindows"@[2] == 'o', "ShowAllWindows"@[3] == 'w', "ShowAllWindows"@[4] == 'A',
        "ShowAllWindows"@[5] == 'l', "ShowAllWindows"@[6] == 'l', "ShowAllWindows"@[7] == 'W',
        "ShowAllWindows"@[8] == 'i', "ShowAllWindows"@[9] == 'n', "ShowAllWindows"@[10] == 'd',
        "ShowAllWindows"@[11] == 'o', "ShowAllWindows"@[12] == 'w',
        "ShowAllWindows"@[13] == 's',
        "ZoomToggle"@.len() == 10, "ZoomToggle"@[0] == 'Z', "ZoomToggle"@[1] == 'o',
        "ZoomToggle"@[2] == 'o', "ZoomToggle"@[3] == 'm', "ZoomToggle"@[4] == 'T',
        "ZoomToggle"@[5] == 'o', "ZoomToggle"@[6] == 'g', "ZoomToggle"@[7] == 'g',
        "ZoomToggle"@[8] == 'l', "ZoomToggle"@[9] == 'e',
{
    reveal_strlit("BrightnessDown");
    reveal_strlit("BrightnessUp");
    reveal_strlit("DisplayToggleIntExt");
    reveal_strlit("KeyboardLayoutSelect");
    reveal_strlit("LaunchAssistant");
    reveal_strlit("LaunchControlPanel");
    reveal_strlit("LaunchScreenSaver");
    reveal_strlit("MailForward");
    reveal_strlit("MailReply");
    reveal_strlit("MailSend");
    reveal_strlit("MediaFastForward");
    reveal_strlit("MediaPause");
    reveal_strlit("MediaPlay");
    reveal_strlit("MediaRecord");
    reveal_strlit("MediaRewind");
    reveal_strlit("PrivacyScreenToggle");
    reveal_strlit("SelectTask");
    reveal_strlit("ShowAllWindows");
    reveal_strlit("ZoomToggle");
}

// Soundness, one lemma per section: a table entry only ever matches
// a token that names its own identity.

proof fn lemma_sound_writing_system(s: Seq<char>, k: KeyCode)
    requires
        parse_writing_system(s) == Some(k),
    ensures
        parses_to(s, k),
{
}

proof fn lemma_sound_functional(s: Seq<char>, k: KeyCode)
    requires
        parse_functional(s) == Some(k),
    ensures
        parses_to(s, k),
{
}

proof fn lemma_sound_control_pad(s: Seq<char>, k: KeyCode)
    requires
        parse_control_pad(s) == Some(k),
    ensures
        parses_to(s, k),
{
}

proof fn lemma_sound_arrow_pad(s: Seq<char>, k: KeyCode)
    requires
        parse_arrow_pad(s) == Some(k),
    ensures
        parses_to(s, k),
{
}

proof fn lemma_sound_numpad(s: Seq<char>, k: KeyCode)
    requires
        parse_numpad(s) == Some(k),
    ensures
        parses_to(s, k),
{
}

proof fn lemma_sound_function_row(s: Seq<char>, k: KeyCode)
    requires
        parse_function_row(s) == Some(k),
    ensures
        parses_to(s, k),
{
}

proof fn lemma_sound_media(s: Seq<char>, k: KeyCode)
    requires
        parse_media(s) == Some(k),
    ensures
        parses_to(s, k),
{
}

proof fn lemma_sound_legacy(s: Seq<char>, k: KeyCode)
    requires
        parse_legacy(s) == Some(k),
    ensures
        parses_to(s, k),
{
}

proof fn lemma_sound_gamepad(s: Seq<char>, k: KeyCode)
    requires
        parse_gamepad(s) == Some(k),
    ensures
        parses_to(s, k),
{
}

proof fn lemma_sound_non_standard(s: Seq<char>, k: KeyCode)
    requires
        parse_non_standard(s) == Some(k),
    ensures
        parses_to(s, k),
{
}

// Completeness, one lemma per section: a token that names an
// identity is matched by that identity's table entry and by nothing
// before it. Each lemma brings into scope the spellings of its own
// section and of every section scanned earlier.

proof fn lemma_complete_writing_system(s: Seq<char>, k: KeyCode)
    requires
        parses_to(s, k),
        class_of(k) == KeyCodeClass::WritingSystem,
    ensures
        parse_spec(s) == Some(k),
{
    lits_writing_system();
}

proof fn lemma_complete_functional(s: Seq<char>, k: KeyCode)
    requires
        parses_to(s, k),
        class_of(k) == KeyCodeClass::Functional,
    ensures
        parse_spec(s) == Some(k),
{
    lits_writing_system();
    lits_functional();
}

proof fn lemma_complete_control_pad(s: Seq<char>, k: KeyCode)
    requires
        parses_to(s, k),
        class_of(k) == KeyCodeClass::ControlPad,
    ensures
        parse_spec(s) == Some(k),
{
    lits_writing_system();
    lits_functional();
    lits_control_pad();
}

proof fn lemma_complete_arrow_pad(s: Seq<char>, k: KeyCode)
    requires
        parses_to(s, k),
        class_of(k) == KeyCodeClass::ArrowPad,
    ensures
        parse_spec(s) == Some(k),
{
    lits_writing_system();
    lits_functional();
    lits_control_pad();
    lits_arrow_pad();
}

proof fn lemma_complete_numpad(s: Seq<char>, k: KeyCode)
    requires
        parses_to(s, k),
        class_of(k) == KeyCodeClass::Numpad,
    ensures
        parse_spec(s) == Some(k),
{
    lits_writing_system();
    lits_functional();
    lits_control_pad();
    lits_arrow_pad();
    lits_numpad();
}

proof fn lemma_complete_function_row(s: Seq<char>, k: KeyCode)
    requires
        parses_to(s, k),
        class_of(k) == KeyCodeClass::Function,
    ensures
        parse_spec(s) == Some(k),
{
    lits_writing_system();
    lits_functional();
    lits_control_pad();
    lits_arrow_pad();
    lits_numpad();
    lits_function_row();
}

proof fn lemma_complete_media(s: Seq<char>, k: KeyCode)
    requires
        parses_to(s, k),
        class_of(k) == KeyCodeClass::Media,
    ensures
        parse_spec(s) == Some(k),
{
    lits_writing_system();
    lits_functional();
    lits_control_pad();
    lits_arrow_pad();
    lits_numpad();
    lits_function_row();
    lits_media();
}

proof fn lemma_complete_legacy(s: Seq<char>, k: KeyCode)
    requires
        parses_to(s, k),
        class_of(k) == KeyCodeClass::Legacy,
    ensures
        parse_spec(s) == Some(k),
{
    lits_writing_system();
    lits_functional();
    lits_control_pad();
    lits_arrow_pad();
    lits_numpad();
    lits_function_row();
    lits_media();
    lits_legacy();
}

proof fn lemma_complete_gamepad(s: Seq<char>, k: KeyCode)
    requires
        parses_to(s, k),
        class_of(k) == KeyCodeClass::Gamepad,
    ensures
        parse_spec(s) == Some(k),
{
    lits_writing_system();
    lits_functional();
    lits_control_pad();
    lits_arrow_pad();
    lits_numpad();
    lits_function_row();
    lits_media();
    lits_legacy();
    lits_gamepad();
}

proof fn lemma_complete_non_standard(s: Seq<char>, k: KeyCode)
    requires
        parses_to(s, k),
        class_of(k) == KeyCodeClass::NonStandard,
    ensures
        parse_spec(s) == Some(k),
{
    lits_writing_system();
    lits_functional();
    lits_control_pad();
    lits_arrow_pad();
    lits_numpad();
    lits_function_row();
    lits_media();
    lits_legacy();
    lits_gamepad();
    lits_non_standard();
}

proof fn lemma_parse_sound(s: Seq<char>, k: KeyCode)
    requires
        parse_spec(s) == Some(k),
    ensures
        parses_to(s, k),
{
    if parse_writing_system(s) is Some {
        lemma_sound_writing_system(s, k);
    } else if parse_functional(s) is Some {
        lemma_sound_functional(s, k);
    } else if parse_control_pad(s) is Some {
        lemma_sound_control_pad(s, k);
    } else if parse_arrow_pad(s) is Some {
        lemma_sound_arrow_pad(s, k);
    } else if parse_numpad(s) is Some {
        lemma_sound_numpad(s, k);
    } else if parse_function_row(s) is Some {
        lemma_sound_function_row(s, k);
    } else if parse_media(s) is Some {
        lemma_sound_media(s, k);
    } else if parse_legacy(s) is Some {
        lemma_sound_legacy(s, k);
    } else if parse_gamepad(s) is Some {
        lemma_sound_gamepad(s, k);
    } else if parse_non_standard(s) is Some {
        lemma_sound_non_standard(s, k);
    }
}

proof fn lemma_parse_complete(s: Seq<char>, k: KeyCode)
    requires
        parses_to(s, k),
    ensures
        parse_spec(s) == Some(k),
{
    if class_of(k) == KeyCodeClass::WritingSystem {
        lemma_complete_writing_system(s, k);
    } else if class_of(k) == KeyCodeClass::Functional {
        lemma_complete_functional(s, k);
    } else if class_of(k) == KeyCodeClass::ControlPad {
        lemma_complete_control_pad(s, k);
    } else if class_of(k) == KeyCodeClass::ArrowPad {
        lemma_complete_arrow_pad(s, k);
    } else if class_of(k) == KeyCodeClass::Numpad {
        lemma_complete_numpad(s, k);
    } else if class_of(k) == KeyCodeClass::Function {
        lemma_complete_function_row(s, k);
    } else if class_of(k) == KeyCodeClass::Media {
        lemma_complete_media(s, k);
    } else if class_of(k) == KeyCodeClass::Legacy {
        lemma_complete_legacy(s, k);
    } else if class_of(k) == KeyCodeClass::Gamepad {
        lemma_complete_gamepad(s, k);
    } else if class_of(k) == KeyCodeClass::NonStandard {
        lemma_complete_non_standard(s, k);
    }
}

/// Parsing yields an identity exactly for the tokens that name it:
/// `parse_spec` returns `Some(k)` if and only if the token is the
/// canonical name of `k` or one of its registered aliases.
pub proof fn lemma_parse_characterization(s: Seq<char>, k: KeyCode)
    ensures
        parse_spec(s) == Some(k) <==> parses_to(s, k),
{
    if parse_spec(s) == Some(k) {
        lemma_parse_sound(s, k);
    }
    if parses_to(s, k) {
        lemma_parse_complete(s, k);
    }
}

/// Round trip: parsing the canonical name of any identity yields that
/// same identity back.
pub proof fn lemma_name_round_trip(k: KeyCode)
    ensures
        parse_spec(name_of(k)) == Some(k),
{
    lemma_parse_complete(name_of(k), k);
}

/// No two distinct identities share a canonical name or an alias: any
/// token names at most one identity.
pub proof fn lemma_no_collision(s: Seq<char>, k1: KeyCode, k2: KeyCode)
    requires
        parses_to(s, k1),
        parses_to(s, k2),
    ensures
        k1 == k2,
{
    lemma_parse_complete(s, k1);
    lemma_parse_complete(s, k2);
}

/// Canonical names are unique to their identities.
pub proof fn lemma_name_injective(k1: KeyCode, k2: KeyCode)
    requires
        name_of(k1) == name_of(k2),
    ensures
        k1 == k2,
{
    lemma_no_collision(name_of(k1), k1, k2);
}

} // verus!
