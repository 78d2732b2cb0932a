//! The canonical name of every key identity: the single spelling
//! that serialization emits, and the spelling that the parser always
//! accepts.

use crate::key_code::KeyCode;
use vstd::prelude::*;

verus! {

/// The canonical name of a key identity. Parsing is tolerant of
/// several historical spellings, but text output always uses exactly
/// this one, so serialization is stable.
pub open spec fn name_of(k: KeyCode) -> Seq<char> {
    match k {
        KeyCode::Backquote => "Backquote"@,
        KeyCode::Backslash => "Backslash"@,
        KeyCode::Backspace => "Backspace"@,
        KeyCode::BracketLeft => "BracketLeft"@,
        KeyCode::BracketRight => "BracketRight"@,
        KeyCode::Comma => "Comma"@,
        KeyCode::Digit0 => "Digit0"@,
        KeyCode::Digit1 => "Digit1"@,
        KeyCode::Digit2 => "Digit2"@,
        KeyCode::Digit3 => "Digit3"@,
        KeyCode::Digit4 => "Digit4"@,
        KeyCode::Digit5 => "Digit5"@,
        KeyCode::Digit6 => "Digit6"@,
        KeyCode::Digit7 => "Digit7"@,
        KeyCode::Digit8 => "Digit8"@,
        KeyCode::Digit9 => "Digit9"@,
        KeyCode::Equal => "Equal"@,
        KeyCode::IntlBackslash => "IntlBackslash"@,
        KeyCode::IntlRo => "IntlRo"@,
        KeyCode::IntlYen => "IntlYen"@,
        KeyCode::KeyA => "KeyA"@,
        KeyCode::KeyB => "KeyB"@,
        KeyCode::KeyC => "KeyC"@,
        KeyCode::KeyD => "KeyD"@,
        KeyCode::KeyE => "KeyE"@,
        KeyCode::KeyF => "KeyF"@,
        KeyCode::KeyG => "KeyG"@,
        KeyCode::KeyH => "KeyH"@,
        KeyCode::KeyI => "KeyI"@,
        KeyCode::KeyJ => "KeyJ"@,
        KeyCode::KeyK => "KeyK"@,
        KeyCode::KeyL => "KeyL"@,
        KeyCode::KeyM => "KeyM"@,
        KeyCode::KeyN => "KeyN"@,
        KeyCode::KeyO => "KeyO"@,
        KeyCode::KeyP => "KeyP"@,
        KeyCode::KeyQ => "KeyQ"@,
        KeyCode::KeyR => "KeyR"@,
        KeyCode::KeyS => "KeyS"@,
        KeyCode::KeyT => "KeyT"@,
        KeyCode::KeyU => "KeyU"@,
        KeyCode::KeyV => "KeyV"@,
        KeyCode::KeyW => "KeyW"@,
        KeyCode::KeyX => "KeyX"@,
        KeyCode::KeyY => "KeyY"@,
        KeyCode::KeyZ => "KeyZ"@,
        KeyCode::Minus => "Minus"@,
        KeyCode::Period => "Period"@,
        KeyCode::Quote => "Quote"@,
        KeyCode::Semicolon => "Semicolon"@,
        KeyCode::Slash => "Slash"@,
        KeyCode::AltLeft => "AltLeft"@,
        KeyCode::AltRight => "AltRight"@,
        KeyCode::CapsLock => "CapsLock"@,
        KeyCode::ContextMenu => "ContextMenu"@,
        KeyCode::ControlLeft => "ControlLeft"@,
        KeyCode::ControlRight => "ControlRight"@,
        KeyCode::Enter => "Enter"@,
        KeyCode::MetaLeft => "MetaLeft"@,
        KeyCode::MetaRight => "MetaRight"@,
        KeyCode::ShiftLeft => "ShiftLeft"@,
        KeyCode::ShiftRight => "ShiftRight"@,
        KeyCode::Space => "Space"@,
        KeyCode::Tab => "Tab"@,
        KeyCode::Convert => "Convert"@,
        KeyCode::KanaMode => "KanaMode"@,
        KeyCode::Lang1 => "Lang1"@,
        KeyCode::Lang2 => "Lang2"@,
        KeyCode::Lang3 => "Lang3"@,
        KeyCode::Lang4 => "Lang4"@,
        KeyCode::Lang5 => "Lang5"@,
        KeyCode::NonConvert => "NonConvert"@,
        KeyCode::Delete => "Delete"@,
        KeyCode::End => "End"@,
        KeyCode::Help => "Help"@,
        KeyCode::Home => "Home"@,
        KeyCode::Insert => "Insert"@,
        KeyCode::PageDown => "PageDown"@,
        KeyCode::PageUp => "PageUp"@,
        KeyCode::ArrowDown => "ArrowDown"@,
        KeyCode::ArrowLeft => "ArrowLeft"@,
        KeyCode::ArrowRight => "ArrowRight"@,
        KeyCode::ArrowUp => "ArrowUp"@,
        KeyCode::NumLock => "NumLock"@,
        KeyCode::Numpad0 => "Numpad0"@,
        KeyCode::Numpad1 => "Numpad1"@,
        KeyCode::Numpad2 => "Numpad2"@,
        KeyCode::Numpad3 => "Numpad3"@,
        KeyCode::Numpad4 => "Numpad4"@,
        KeyCode::Numpad5 => "Numpad5"@,
        KeyCode::Numpad6 => "Numpad6"@,
        KeyCode::Numpad7 => "Numpad7"@,
        KeyCode::Numpad8 => "Numpad8"@,
        KeyCode::Numpad9 => "Numpad9"@,
        KeyCode::NumpadAdd => "NumpadAdd"@,
        KeyCode::NumpadBackspace => "NumpadBackspace"@,
        KeyCode::NumpadClear => "NumpadClear"@,
        KeyCode::NumpadClearEntry => "NumpadClearEntry"@,
        KeyCode::NumpadComma => "NumpadComma"@,
        KeyCode::NumpadDecimal => "NumpadDecimal"@,
        KeyCode::NumpadDivide => "NumpadDivide"@,
        KeyCode::NumpadEnter => "NumpadEnter"@,
        KeyCode::NumpadEqual => "NumpadEqual"@,
        KeyCode::NumpadHash => "NumpadHash"@,
        KeyCode::NumpadMemoryAdd => "NumpadMemoryAdd"@,
        KeyCode::NumpadMemoryClear => "NumpadMemoryClear"@,
        KeyCode::NumpadMemoryRecall => "NumpadMemoryRecall"@,
        KeyCode::NumpadMemoryStore => "NumpadMemoryStore"@,
        KeyCode::NumpadMemorySubtract => "NumpadMemorySubtract"@,
        KeyCode::NumpadMultiply => "NumpadMultiply"@,
        KeyCode::NumpadParenLeft => "NumpadParenLeft"@,
        KeyCode::NumpadParenRight => "NumpadParenRight"@,
        KeyCode::NumpadStar => "NumpadStar"@,
        KeyCode::NumpadSubtract => "NumpadSubtract"@,
        KeyCode::Escape => "Escape"@,
        KeyCode::F1 => "F1"@,
        KeyCode::F2 => "F2"@,
        KeyCode::F3 => "F3"@,
        KeyCode::F4 => "F4"@,
        KeyCode::F5 => "F5"@,
        KeyCode::F6 => "F6"@,
        KeyCode::F7 => "F7"@,
        KeyCode::F8 => "F8"@,
        KeyCode::F9 => "F9"@,
        KeyCode::F10 => "F10"@,
        KeyCode::F11 => "F11"@,
        KeyCode::F12 => "F12"@,
        KeyCode::F13 => "F13"@,
        KeyCode::F14 => "F14"@,
        KeyCode::F15 => "F15"@,
        KeyCode::F16 => "F16"@,
        KeyCode::F17 => "F17"@,
        KeyCode::F18 => "F18"@,
        KeyCode::F19 => "F19"@,
        KeyCode::F20 => "F20"@,
        KeyCode::F21 => "F21"@,
        KeyCode::F22 => "F22"@,
        KeyCode::F23 => "F23"@,
        KeyCode::F24 => "F24"@,
        KeyCode::Fn => "Fn"@,
        KeyCode::FnLock => "FnLock"@,
        KeyCode::PrintScreen => "PrintScreen"@,
        KeyCode::ScrollLock => "ScrollLock"@,
        KeyCode::Pause => "Pause"@,
        KeyCode::BrowserBack => "BrowserBack"@,
        KeyCode::BrowserFavorites => "BrowserFavorites"@,
        KeyCode::BrowserForward => "BrowserForward"@,
        KeyCode::BrowserHome => "BrowserHome"@,
        KeyCode::BrowserRefresh => "BrowserRefresh"@,
        KeyCode::BrowserSearch => "BrowserSearch"@,
        KeyCode::BrowserStop => "BrowserStop"@,
        KeyCode::Eject => "Eject"@,
        KeyCode::LaunchApp1 => "LaunchApp1"@,
        KeyCode::LaunchApp2 => "LaunchApp2"@,
        KeyCode::LaunchMail => "LaunchMail"@,
        KeyCode::MediaPlayPause => "MediaPlayPause"@,
        KeyCode::MediaSelect => "MediaSelect"@,
        KeyCode::MediaStop => "MediaStop"@,
        KeyCode::MediaTrackNext => "MediaTrackNext"@,
        KeyCode::MediaTrackPrevious => "MediaTrackPrevious"@,
        KeyCode::Power => "Power"@,
        KeyCode::Sleep => "Sleep"@,
        KeyCode::AudioVolumeDown => "AudioVolumeDown"@,
        KeyCode::AudioVolumeMute => "AudioVolumeMute"@,
        KeyCode::AudioVolumeUp => "AudioVolumeUp"@,
        KeyCode::WakeUp => "WakeUp"@,
        KeyCode::Again => "Again"@,
        KeyCode::Copy => "Copy"@,
        KeyCode::Cut => "Cut"@,
        KeyCode::Find => "Find"@,
        KeyCode::Open => "Open"@,
        KeyCode::Paste => "Paste"@,
        KeyCode::Props => "Props"@,
        KeyCode::Select => "Select"@,
        KeyCode::Undo => "Undo"@,
        KeyCode::Gamepad0 => "Gamepad0"@,
        KeyCode::Gamepad1 => "Gamepad1"@,
        KeyCode::Gamepad2 => "Gamepad2"@,
        KeyCode::Gamepad3 => "Gamepad3"@,
        KeyCode::Gamepad4 => "Gamepad4"@,
        KeyCode::Gamepad5 => "Gamepad5"@,
        KeyCode::Gamepad6 => "Gamepad6"@,
        KeyCode::Gamepad7 => "Gamepad7"@,
        KeyCode::Gamepad8 => "Gamepad8"@,
        KeyCode::Gamepad9 => "Gamepad9"@,
        KeyCode::Gamepad10 => "Gamepad10"@,
        KeyCode::Gamepad11 => "Gamepad11"@,
        KeyCode::Gamepad12 => "Gamepad12"@,
        KeyCode::Gamepad13 => "Gamepad13"@,
        KeyCode::Gamepad14 => "Gamepad14"@,
        KeyCode::Gamepad15 => "Gamepad15"@,
        KeyCode::Gamepad16 => "Gamepad16"@,
        KeyCode::Gamepad17 => "Gamepad17"@,
        KeyCode::Gamepad18 => "Gamepad18"@,
        KeyCode::Gamepad19 => "Gamepad19"@,
        KeyCode::BrightnessDown => "BrightnessDown"@,
        KeyCode::BrightnessUp => "BrightnessUp"@,
        KeyCode::DisplayToggleIntExt => "DisplayToggleIntExt"@,
        KeyCode::KeyboardLayoutSelect => "KeyboardLayoutSelect"@,
        KeyCode::LaunchAssistant => "LaunchAssistant"@,
        KeyCode::LaunchControlPanel => "LaunchControlPanel"@,
        KeyCode::LaunchScreenSaver => "LaunchScreenSaver"@,
        KeyCode::MailForward => "MailForward"@,
        KeyCode::MailReply => "MailReply"@,
        KeyCode::MailSend => "MailSend"@,
        KeyCode::MediaFastForward => "MediaFastForward"@,
        KeyCode::MediaPause => "MediaPause"@,
        KeyCode::MediaPlay => "MediaPlay"@,
        KeyCode::MediaRecord => "MediaRecord"@,
        KeyCode::MediaRewind => "MediaRewind"@,
        KeyCode::PrivacyScreenToggle => "PrivacyScreenToggle"@,
        KeyCode::SelectTask => "SelectTask"@,
        KeyCode::ShowAllWindows => "ShowAllWindows"@,
        KeyCode::ZoomToggle => "ZoomToggle"@,
    }
}

impl KeyCode {
    /// The canonical name of this key identity, the inverse of parsing
    /// and the textual serialization format for a key identity.
    pub fn name(self) -> (r: &'static str)
        ensures
            r@ == name_of(self),
    {
        match self {
            KeyCode::Backquote => "Backquote",
            KeyCode::Backslash => "Backslash",
            KeyCode::Backspace => "Backspace",
            KeyCode::BracketLeft => "BracketLeft",
            KeyCode::BracketRight => "BracketRight",
            KeyCode::Comma => "Comma",
            KeyCode::Digit0 => "Digit0",
            KeyCode::Digit1 => "Digit1",
            KeyCode::Digit2 => "Digit2",
            KeyCode::Digit3 => "Digit3",
            KeyCode::Digit4 => "Digit4",
            KeyCode::Digit5 => "Digit5",
            KeyCode::Digit6 => "Digit6",
            KeyCode::Digit7 => "Digit7",
            KeyCode::Digit8 => "Digit8",
            KeyCode::Digit9 => "Digit9",
            KeyCode::Equal => "Equal",
            KeyCode::IntlBackslash => "IntlBackslash",
            KeyCode::IntlRo => "IntlRo",
            KeyCode::IntlYen => "IntlYen",
            KeyCode::KeyA => "KeyA",
            KeyCode::KeyB => "KeyB",
            KeyCode::KeyC => "KeyC",
            KeyCode::KeyD => "KeyD",
            KeyCode::KeyE => "KeyE",
            KeyCode::KeyF => "KeyF",
            KeyCode::KeyG => "KeyG",
            KeyCode::KeyH => "KeyH",
            KeyCode::KeyI => "KeyI",
            KeyCode::KeyJ => "KeyJ",
            KeyCode::KeyK => "KeyK",
            KeyCode::KeyL => "KeyL",
            KeyCode::KeyM => "KeyM",
            KeyCode::KeyN => "KeyN",
            KeyCode::KeyO => "KeyO",
            KeyCode::KeyP => "KeyP",
            KeyCode::KeyQ => "KeyQ",
            KeyCode::KeyR => "KeyR",
            KeyCode::KeyS => "KeyS",
            KeyCode::KeyT => "KeyT",
            KeyCode::KeyU => "KeyU",
            KeyCode::KeyV => "KeyV",
            KeyCode::KeyW => "KeyW",
            KeyCode::KeyX => "KeyX",
            KeyCode::KeyY => "KeyY",
            KeyCode::KeyZ => "KeyZ",
            KeyCode::Minus => "Minus",
            KeyCode::Period => "Period",
            KeyCode::Quote => "Quote",
            KeyCode::Semicolon => "Semicolon",
            KeyCode::Slash => "Slash",
            KeyCode::AltLeft => "AltLeft",
            KeyCode::AltRight => "AltRight",
            KeyCode::CapsLock => "CapsLock",
            KeyCode::ContextMenu => "ContextMenu",
            KeyCode::ControlLeft => "ControlLeft",
            KeyCode::ControlRight => "ControlRight",
            KeyCode::Enter => "Enter",
            KeyCode::MetaLeft => "MetaLeft",
            KeyCode::MetaRight => "MetaRight",
            KeyCode::ShiftLeft => "ShiftLeft",
            KeyCode::ShiftRight => "ShiftRight",
            KeyCode::Space => "Space",
            KeyCode::Tab => "Tab",
            KeyCode::Convert => "Convert",
            KeyCode::KanaMode => "KanaMode",
            KeyCode::Lang1 => "Lang1",
            KeyCode::Lang2 => "Lang2",
            KeyCode::Lang3 => "Lang3",
            KeyCode::Lang4 => "Lang4",
            KeyCode::Lang5 => "Lang5",
            KeyCode::NonConvert => "NonConvert",
            KeyCode::Delete => "Delete",
            KeyCode::End => "End",
            KeyCode::Help => "Help",
            KeyCode::Home => "Home",
            KeyCode::Insert => "Insert",
            KeyCode::PageDown => "PageDown",
            KeyCode::PageUp => "PageUp",
            KeyCode::ArrowDown => "ArrowDown",
            KeyCode::ArrowLeft => "ArrowLeft",
            KeyCode::ArrowRight => "ArrowRight",
            KeyCode::ArrowUp => "ArrowUp",
            KeyCode::NumLock => "NumLock",
            KeyCode::Numpad0 => "Numpad0",
            KeyCode::Numpad1 => "Numpad1",
            KeyCode::Numpad2 => "Numpad2",
            KeyCode::Numpad3 => "Numpad3",
            KeyCode::Numpad4 => "Numpad4",
            KeyCode::Numpad5 => "Numpad5",
            KeyCode::Numpad6 => "Numpad6",
            KeyCode::Numpad7 => "Numpad7",
            KeyCode::Numpad8 => "Numpad8",
            KeyCode::Numpad9 => "Numpad9",
            KeyCode::NumpadAdd => "NumpadAdd",
            KeyCode::NumpadBackspace => "NumpadBackspace",
            KeyCode::NumpadClear => "NumpadClear",
            KeyCode::NumpadClearEntry => "NumpadClearEntry",
            KeyCode::NumpadComma => "NumpadComma",
            KeyCode::NumpadDecimal => "NumpadDecimal",
            KeyCode::NumpadDivide => "NumpadDivide",
            KeyCode::NumpadEnter => "NumpadEnter",
            KeyCode::NumpadEqual => "NumpadEqual",
            KeyCode::NumpadHash => "NumpadHash",
            KeyCode::NumpadMemoryAdd => "NumpadMemoryAdd",
            KeyCode::NumpadMemoryClear => "NumpadMemoryClear",
            KeyCode::NumpadMemoryRecall => "NumpadMemoryRecall",
            KeyCode::NumpadMemoryStore => "NumpadMemoryStore",
            KeyCode::NumpadMemorySubtract => "NumpadMemorySubtract",
            KeyCode::NumpadMultiply => "NumpadMultiply",
            KeyCode::NumpadParenLeft => "NumpadParenLeft",
            KeyCode::NumpadParenRight => "NumpadParenRight",
            KeyCode::NumpadStar => "NumpadStar",
            KeyCode::NumpadSubtract => "NumpadSubtract",
            KeyCode::Escape => "Escape",
            KeyCode::F1 => "F1",
            KeyCode::F2 => "F2",
            KeyCode::F3 => "F3",
            KeyCode::F4 => "F4",
            KeyCode::F5 => "F5",
            KeyCode::F6 => "F6",
            KeyCode::F7 => "F7",
            KeyCode::F8 => "F8",
            KeyCode::F9 => "F9",
            KeyCode::F10 => "F10",
            KeyCode::F11 => "F11",
            KeyCode::F12 => "F12",
            KeyCode::F13 => "F13",
            KeyCode::F14 => "F14",
            KeyCode::F15 => "F15",
            KeyCode::F16 => "F16",
            KeyCode::F17 => "F17",
            KeyCode::F18 => "F18",
            KeyCode::F19 => "F19",
            KeyCode::F20 => "F20",
            KeyCode::F21 => "F21",
            KeyCode::F22 => "F22",
            KeyCode::F23 => "F23",
            KeyCode::F24 => "F24",
            KeyCode::Fn => "Fn",
            KeyCode::FnLock => "FnLock",
            KeyCode::PrintScreen => "PrintScreen",
            KeyCode::ScrollLock => "ScrollLock",
            KeyCode::Pause => "Pause",
            KeyCode::BrowserBack => "BrowserBack",
            KeyCode::BrowserFavorites => "BrowserFavorites",
            KeyCode::BrowserForward => "BrowserForward",
            KeyCode::BrowserHome => "BrowserHome",
            KeyCode::BrowserRefresh => "BrowserRefresh",
            KeyCode::BrowserSearch => "BrowserSearch",
            KeyCode::BrowserStop => "BrowserStop",
            KeyCode::Eject => "Eject",
            KeyCode::LaunchApp1 => "LaunchApp1",
            KeyCode::LaunchApp2 => "LaunchApp2",
            KeyCode::LaunchMail => "LaunchMail",
            KeyCode::MediaPlayPause => "MediaPlayPause",
            KeyCode::MediaSelect => "MediaSelect",
            KeyCode::MediaStop => "MediaStop",
            KeyCode::MediaTrackNext => "MediaTrackNext",
            KeyCode::MediaTrackPrevious => "MediaTrackPrevious",
            KeyCode::Power => "Power",
            KeyCode::Sleep => "Sleep",
            KeyCode::AudioVolumeDown => "AudioVolumeDown",
            KeyCode::AudioVolumeMute => "AudioVolumeMute",
            KeyCode::AudioVolumeUp => "AudioVolumeUp",
            KeyCode::WakeUp => "WakeUp",
            KeyCode::Again => "Again",
            KeyCode::Copy => "Copy",
            KeyCode::Cut => "Cut",
            KeyCode::Find => "Find",
            KeyCode::Open => "Open",
            KeyCode::Paste => "Paste",
            KeyCode::Props => "Props",
            KeyCode::Select => "Select",
            KeyCode::Undo => "Undo",
            KeyCode::Gamepad0 => "Gamepad0",
            KeyCode::Gamepad1 => "Gamepad1",
            KeyCode::Gamepad2 => "Gamepad2",
            KeyCode::Gamepad3 => "Gamepad3",
            KeyCode::Gamepad4 => "Gamepad4",
            KeyCode::Gamepad5 => "Gamepad5",
            KeyCode::Gamepad6 => "Gamepad6",
            KeyCode::Gamepad7 => "Gamepad7",
            KeyCode::Gamepad8 => "Gamepad8",
            KeyCode::Gamepad9 => "Gamepad9",
            KeyCode::Gamepad10 => "Gamepad10",
            KeyCode::Gamepad11 => "Gamepad11",
            KeyCode::Gamepad12 => "Gamepad12",
            KeyCode::Gamepad13 => "Gamepad13",
            KeyCode::Gamepad14 => "Gamepad14",
            KeyCode::Gamepad15 => "Gamepad15",
            KeyCode::Gamepad16 => "Gamepad16",
            KeyCode::Gamepad17 => "Gamepad17",
            KeyCode::Gamepad18 => "Gamepad18",
            KeyCode::Gamepad19 => "Gamepad19",
            KeyCode::BrightnessDown => "BrightnessDown",
            KeyCode::BrightnessUp => "BrightnessUp",
            KeyCode::DisplayToggleIntExt => "DisplayToggleIntExt",
            KeyCode::KeyboardLayoutSelect => "KeyboardLayoutSelect",
            KeyCode::LaunchAssistant => "LaunchAssistant",
            KeyCode::LaunchControlPanel => "LaunchControlPanel",
            KeyCode::LaunchScreenSaver => "LaunchScreenSaver",
            KeyCode::MailForward => "MailForward",
            KeyCode::MailReply => "MailReply",
            KeyCode::MailSend => "MailSend",
            KeyCode::MediaFastForward => "MediaFastForward",
            KeyCode::MediaPause => "MediaPause",
            KeyCode::MediaPlay => "MediaPlay",
            KeyCode::MediaRecord => "MediaRecord",
            KeyCode::MediaRewind => "MediaRewind",
            KeyCode::PrivacyScreenToggle => "PrivacyScreenToggle",
            KeyCode::SelectTask => "SelectTask",
            KeyCode::ShowAllWindows => "ShowAllWindows",
            KeyCode::ZoomToggle => "ZoomToggle",
        }
    }
}

} // verus!
