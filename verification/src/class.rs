//! The total classification of key identities into semantic groups.

use crate::key_code::{KeyCode, KeyCodeClass};
use vstd::prelude::*;

verus! {

/// The class that a key identity belongs to. Every identity belongs to
/// exactly one class; the partition is a fixed design decision, not a
/// property computed from the identity's name.
pub open spec fn class_of(k: KeyCode) -> KeyCodeClass {
    match k {
        KeyCode::Backquote | KeyCode::Backslash | KeyCode::Backspace | KeyCode::BracketLeft
        | KeyCode::BracketRight | KeyCode::Comma | KeyCode::Digit0 | KeyCode::Digit1
        | KeyCode::Digit2 | KeyCode::Digit3 | KeyCode::Digit4 | KeyCode::Digit5 | KeyCode::Digit6
        | KeyCode::Digit7 | KeyCode::Digit8 | KeyCode::Digit9 | KeyCode::Equal
        | KeyCode::IntlBackslash | KeyCode::IntlRo | KeyCode::IntlYen | KeyCode::KeyA
        | KeyCode::KeyB | KeyCode::KeyC | KeyCode::KeyD | KeyCode::KeyE | KeyCode::KeyF
        | KeyCode::KeyG | KeyCode::KeyH | KeyCode::KeyI | KeyCode::KeyJ | KeyCode::KeyK
        | KeyCode::KeyL | KeyCode::KeyM | KeyCode::KeyN | KeyCode::KeyO | KeyCode::KeyP
        | KeyCode::KeyQ | KeyCode::KeyR | KeyCode::KeyS | KeyCode::KeyT | KeyCode::KeyU
        | KeyCode::KeyV | KeyCode::KeyW | KeyCode::KeyX | KeyCode::KeyY | KeyCode::KeyZ
        | KeyCode::Minus | KeyCode::Period | KeyCode::Quote | KeyCode::Semicolon | KeyCode::Slash => KeyCodeClass::WritingSystem,
        KeyCode::AltLeft | KeyCode::AltRight | KeyCode::CapsLock | KeyCode::ContextMenu
        | KeyCode::ControlLeft | KeyCode::ControlRight | KeyCode::Enter | KeyCode::MetaLeft
        | KeyCode::MetaRight | KeyCode::ShiftLeft | KeyCode::ShiftRight | KeyCode::Space
        | KeyCode::Tab | KeyCode::Convert | KeyCode::KanaMode | KeyCode::Lang1 | KeyCode::Lang2
        | KeyCode::Lang3 | KeyCode::Lang4 | KeyCode::Lang5 | KeyCode::NonConvert => KeyCodeClass::Functional,
        KeyCode::Delete | KeyCode::End | KeyCode::Help | KeyCode::Home | KeyCode::Insert
        | KeyCode::PageDown | KeyCode::PageUp => KeyCodeClass::ControlPad,
        KeyCode::ArrowDown | KeyCode::ArrowLeft | KeyCode::ArrowRight | KeyCode::ArrowUp => KeyCodeClass::ArrowPad,
        KeyCode::NumLock | KeyCode::Numpad0 | KeyCode::Numpad1 | KeyCode::Numpad2
        | KeyCode::Numpad3 | KeyCode::Numpad4 | KeyCode::Numpad5 | KeyCode::Numpad6
        | KeyCode::Numpad7 | KeyCode::Numpad8 | KeyCode::Numpad9 | KeyCode::NumpadAdd
        | KeyCode::NumpadBackspace | KeyCode::NumpadClear | KeyCode::NumpadClearEntry
        | KeyCode::NumpadComma | KeyCode::NumpadDecimal | KeyCode::NumpadDivide
        | KeyCode::NumpadEnter | KeyCode::NumpadEqual | KeyCode::NumpadHash
        | KeyCode::NumpadMemoryAdd | KeyCode::NumpadMemoryClear | KeyCode::NumpadMemoryRecall
        | KeyCode::NumpadMemoryStore | KeyCode::NumpadMemorySubtract | KeyCode::NumpadMultiply
        | KeyCode::NumpadParenLeft | KeyCode::NumpadParenRight | KeyCode::NumpadStar
        | KeyCode::NumpadSubtract => KeyCodeClass::Numpad,
        KeyCode::Escape | KeyCode::F1 | KeyCode::F2 | KeyCode::F3 | KeyCode::F4 | KeyCode::F5
        | KeyCode::F6 | KeyCode::F7 | KeyCode::F8 | KeyCode::F9 | KeyCode::F10 | KeyCode::F11
        | KeyCode::F12 | KeyCode::F13 | KeyCode::F14 | KeyCode::F15 | KeyCode::F16 | KeyCode::F17
        | KeyCode::F18 | KeyCode::F19 | KeyCode::F20 | KeyCode::F21 | KeyCode::F22 | KeyCode::F23
        | KeyCode::F24 | KeyCode::Fn | KeyCode::FnLock | KeyCode::PrintScreen
        | KeyCode::ScrollLock | KeyCode::Pause => KeyCodeClass::Function,
        KeyCode::BrowserBack | KeyCode::BrowserFavorites | KeyCode::BrowserForward
        | KeyCode::BrowserHome | KeyCode::BrowserRefresh | KeyCode::BrowserSearch
        | KeyCode::BrowserStop | KeyCode::Eject | KeyCode::LaunchApp1 | KeyCode::LaunchApp2
        | KeyCode::LaunchMail | KeyCode::MediaPlayPause | KeyCode::MediaSelect
        | KeyCode::MediaStop | KeyCode::MediaTrackNext | KeyCode::MediaTrackPrevious
        | KeyCode::Power | KeyCode::Sleep | KeyCode::AudioVolumeDown | KeyCode::AudioVolumeMute
        | KeyCode::AudioVolumeUp | KeyCode::WakeUp => KeyCodeClass::Media,
        KeyCode::Again | KeyCode::Copy | KeyCode::Cut | KeyCode::Find | KeyCode::Open
        | KeyCode::Paste | KeyCode::Props | KeyCode::Select | KeyCode::Undo => KeyCodeClass::Legacy,
        KeyCode::Gamepad0 | KeyCode::Gamepad1 | KeyCode::Gamepad2 | KeyCode::Gamepad3
        | KeyCode::Gamepad4 | KeyCode::Gamepad5 | KeyCode::Gamepad6 | KeyCode::Gamepad7
        | KeyCode::Gamepad8 | KeyCode::Gamepad9 | KeyCode::Gamepad10 | KeyCode::Gamepad11
        | KeyCode::Gamepad12 | KeyCode::Gamepad13 | KeyCode::Gamepad14 | KeyCode::Gamepad15
        | KeyCode::Gamepad16 | KeyCode::Gamepad17 | KeyCode::Gamepad18 | KeyCode::Gamepad19 => KeyCodeClass::Gamepad,
        KeyCode::BrightnessDown | KeyCode::BrightnessUp | KeyCode::DisplayToggleIntExt
        | KeyCode::KeyboardLayoutSelect | KeyCode::LaunchAssistant | KeyCode::LaunchControlPanel
        | KeyCode::LaunchScreenSaver | KeyCode::MailForward | KeyCode::MailReply
        | KeyCode::MailSend | KeyCode::MediaFastForward | KeyCode::MediaPause | KeyCode::MediaPlay
        | KeyCode::MediaRecord | KeyCode::MediaRewind | KeyCode::PrivacyScreenToggle
        | KeyCode::SelectTask | KeyCode::ShowAllWindows | KeyCode::ZoomToggle => KeyCodeClass::NonStandard,
    }
}

impl KeyCode {
    /// Classifies this key identity into its semantic group. Total:
    /// defined for every identity, and consults no external state.
    pub fn classify(self) -> (c: KeyCodeClass)
        ensures
            c == class_of(self),
    {
        match self {
            KeyCode::Backquote | KeyCode::Backslash | KeyCode::Backspace | KeyCode::BracketLeft
            | KeyCode::BracketRight | KeyCode::Comma | KeyCode::Digit0 | KeyCode::Digit1
            | KeyCode::Digit2 | KeyCode::Digit3 | KeyCode::Digit4 | KeyCode::Digit5 | KeyCode::Digit6
            | KeyCode::Digit7 | KeyCode::Digit8 | KeyCode::Digit9 | KeyCode::Equal
            | KeyCode::IntlBackslash | KeyCode::IntlRo | KeyCode::IntlYen | KeyCode::KeyA
            | KeyCode::KeyB | KeyCode::KeyC | KeyCode::KeyD | KeyCode::KeyE | KeyCode::KeyF
            | KeyCode::KeyG | KeyCode::KeyH | KeyCode::KeyI | KeyCode::KeyJ | KeyCode::KeyK
            | KeyCode::KeyL | KeyCode::KeyM | KeyCode::KeyN | KeyCode::KeyO | KeyCode::KeyP
            | KeyCode::KeyQ | KeyCode::KeyR | KeyCode::KeyS | KeyCode::KeyT | KeyCode::KeyU
            | KeyCode::KeyV | KeyCode::KeyW | KeyCode::KeyX | KeyCode::KeyY | KeyCode::KeyZ
            | KeyCode::Minus | KeyCode::Period | KeyCode::Quote | KeyCode::Semicolon | KeyCode::Slash => KeyCodeClass::WritingSystem,
            KeyCode::AltLeft | KeyCode::AltRight | KeyCode::CapsLock | KeyCode::ContextMenu
            | KeyCode::ControlLeft | KeyCode::ControlRight | KeyCode::Enter | KeyCode::MetaLeft
            | KeyCode::MetaRight | KeyCode::ShiftLeft | KeyCode::ShiftRight | KeyCode::Space
            | KeyCode::Tab | KeyCode::Convert | KeyCode::KanaMode | KeyCode::Lang1 | KeyCode::Lang2
            | KeyCode::Lang3 | KeyCode::Lang4 | KeyCode::Lang5 | KeyCode::NonConvert => KeyCodeClass::Functional,
            KeyCode::Delete | KeyCode::End | KeyCode::Help | KeyCode::Home | KeyCode::Insert
            | KeyCode::PageDown | KeyCode::PageUp => KeyCodeClass::ControlPad,
            KeyCode::ArrowDown | KeyCode::ArrowLeft | KeyCode::ArrowRight | KeyCode::ArrowUp => KeyCodeClass::ArrowPad,
            KeyCode::NumLock | KeyCode::Numpad0 | KeyCode::Numpad1 | KeyCode::Numpad2
            | KeyCode::Numpad3 | KeyCode::Numpad4 | KeyCode::Numpad5 | KeyCode::Numpad6
            | KeyCode::Numpad7 | KeyCode::Numpad8 | KeyCode::Numpad9 | KeyCode::NumpadAdd
            | KeyCode::NumpadBackspace | KeyCode::NumpadClear | KeyCode::NumpadClearEntry
            | KeyCode::NumpadComma | KeyCode::NumpadDecimal | KeyCode::NumpadDivide
            | KeyCode::NumpadEnter | KeyCode::NumpadEqual | KeyCode::NumpadHash
            | KeyCode::NumpadMemoryAdd | KeyCode::NumpadMemoryClear | KeyCode::NumpadMemoryRecall
            | KeyCode::NumpadMemoryStore | KeyCode::NumpadMemorySubtract | KeyCode::NumpadMultiply
            | KeyCode::NumpadParenLeft | KeyCode::NumpadParenRight | KeyCode::NumpadStar
            | KeyCode::NumpadSubtract => KeyCodeClass::Numpad,
            KeyCode::Escape | KeyCode::F1 | KeyCode::F2 | KeyCode::F3 | KeyCode::F4 | KeyCode::F5
            | KeyCode::F6 | KeyCode::F7 | KeyCode::F8 | KeyCode::F9 | KeyCode::F10 | KeyCode::F11
            | KeyCode::F12 | KeyCode::F13 | KeyCode::F14 | KeyCode::F15 | KeyCode::F16 | KeyCode::F17
            | KeyCode::F18 | KeyCode::F19 | KeyCode::F20 | KeyCode::F21 | KeyCode::F22 | KeyCode::F23
            | KeyCode::F24 | KeyCode::Fn | KeyCode::FnLock | KeyCode::PrintScreen
            | KeyCode::ScrollLock | KeyCode::Pause => KeyCodeClass::Function,
            KeyCode::BrowserBack | KeyCode::BrowserFavorites | KeyCode::BrowserForward
            | KeyCode::BrowserHome | KeyCode::BrowserRefresh | KeyCode::BrowserSearch
            | KeyCode::BrowserStop | KeyCode::Eject | KeyCode::LaunchApp1 | KeyCode::LaunchApp2
            | KeyCode::LaunchMail | KeyCode::MediaPlayPause | KeyCode::MediaSelect
            | KeyCode::MediaStop | KeyCode::MediaTrackNext | KeyCode::MediaTrackPrevious
            | KeyCode::Power | KeyCode::Sleep | KeyCode::AudioVolumeDown | KeyCode::AudioVolumeMute
            | KeyCode::AudioVolumeUp | KeyCode::WakeUp => KeyCodeClass::Media,
            KeyCode::Again | KeyCode::Copy | KeyCode::Cut | KeyCode::Find | KeyCode::Open
            | KeyCode::Paste | KeyCode::Props | KeyCode::Select | KeyCode::Undo => KeyCodeClass::Legacy,
            KeyCode::Gamepad0 | KeyCode::Gamepad1 | KeyCode::Gamepad2 | KeyCode::Gamepad3
            | KeyCode::Gamepad4 | KeyCode::Gamepad5 | KeyCode::Gamepad6 | KeyCode::Gamepad7
            | KeyCode::Gamepad8 | KeyCode::Gamepad9 | KeyCode::Gamepad10 | KeyCode::Gamepad11
            | KeyCode::Gamepad12 | KeyCode::Gamepad13 | KeyCode::Gamepad14 | KeyCode::Gamepad15
            | KeyCode::Gamepad16 | KeyCode::Gamepad17 | KeyCode::Gamepad18 | KeyCode::Gamepad19 => KeyCodeClass::Gamepad,
            KeyCode::BrightnessDown | KeyCode::BrightnessUp | KeyCode::DisplayToggleIntExt
            | KeyCode::KeyboardLayoutSelect | KeyCode::LaunchAssistant | KeyCode::LaunchControlPanel
            | KeyCode::LaunchScreenSaver | KeyCode::MailForward | KeyCode::MailReply
            | KeyCode::MailSend | KeyCode::MediaFastForward | KeyCode::MediaPause | KeyCode::MediaPlay
            | KeyCode::MediaRecord | KeyCode::MediaRewind | KeyCode::PrivacyScreenToggle
            | KeyCode::SelectTask | KeyCode::ShowAllWindows | KeyCode::ZoomToggle => KeyCodeClass::NonStandard,
        }
    }
}

/// The set of identities that belong to a class.
pub open spec fn class_members(c: KeyCodeClass) -> Set<KeyCode> {
    Set::new(|k: KeyCode| class_of(k) == c)
}

/// Classification is a partition: every identity is a member of the
/// class it is classified into, and a member of no other class, so the
/// union of all classes' member sets is the whole identity set, each
/// identity counted exactly once.
pub proof fn lemma_class_partition(k: KeyCode, c1: KeyCodeClass, c2: KeyCodeClass)
    ensures
        class_members(class_of(k)).contains(k),
        c1 != c2 ==> !(class_members(c1).contains(k) && class_members(c2).contains(k)),
{
}

/// Every class has at least one member.
pub proof fn lemma_class_inhabited(c: KeyCodeClass)
    ensures
        exists|k: KeyCode| class_members(c).contains(k),
{
    match c {
        KeyCodeClass::WritingSystem => assert(class_members(c).contains(KeyCode::KeyA)),
        KeyCodeClass::Functional => assert(class_members(c).contains(KeyCode::AltLeft)),
        KeyCodeClass::ControlPad => assert(class_members(c).contains(KeyCode::Delete)),
        KeyCodeClass::ArrowPad => assert(class_members(c).contains(KeyCode::ArrowUp)),
        KeyCodeClass::Numpad => assert(class_members(c).contains(KeyCode::NumLock)),
        KeyCodeClass::Function => assert(class_members(c).contains(KeyCode::F1)),
        KeyCodeClass::Media => assert(class_members(c).contains(KeyCode::MediaPlayPause)),
        KeyCodeClass::Legacy => assert(class_members(c).contains(KeyCode::Copy)),
        KeyCodeClass::Gamepad => assert(class_members(c).contains(KeyCode::Gamepad0)),
        KeyCodeClass::NonStandard => assert(class_members(c).contains(KeyCode::ZoomToggle)),
    }
}

} // verus!
