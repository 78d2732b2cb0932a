//! Table-driven checks over the whole key vocabulary: totality,
//! round trips, the class partition, and uniqueness of every accepted
//! spelling.

use livesplit_hotkey::{KeyCode, KeyCodeClass};

fn all_keys() -> Vec<KeyCode> {
    vec![
        KeyCode::Backquote,
        KeyCode::Backslash,
        KeyCode::Backspace,
        KeyCode::BracketLeft,
        KeyCode::BracketRight,
        KeyCode::Comma,
        KeyCode::Digit0,
        KeyCode::Digit1,
        KeyCode::Digit2,
        KeyCode::Digit3,
        KeyCode::Digit4,
        KeyCode::Digit5,
        KeyCode::Digit6,
        KeyCode::Digit7,
        KeyCode::Digit8,
        KeyCode::Digit9,
        KeyCode::Equal,
        KeyCode::IntlBackslash,
        KeyCode::IntlRo,
        KeyCode::IntlYen,
        KeyCode::KeyA,
        KeyCode::KeyB,
        KeyCode::KeyC,
        KeyCode::KeyD,
        KeyCode::KeyE,
        KeyCode::KeyF,
        KeyCode::KeyG,
        KeyCode::KeyH,
        KeyCode::KeyI,
        KeyCode::KeyJ,
        KeyCode::KeyK,
        KeyCode::KeyL,
        KeyCode::KeyM,
        KeyCode::KeyN,
        KeyCode::KeyO,
        KeyCode::KeyP,
        KeyCode::KeyQ,
        KeyCode::KeyR,
        KeyCode::KeyS,
        KeyCode::KeyT,
        KeyCode::KeyU,
        KeyCode::KeyV,
        KeyCode::KeyW,
        KeyCode::KeyX,
        KeyCode::KeyY,
        KeyCode::KeyZ,
        KeyCode::Minus,
        KeyCode::Period,
        KeyCode::Quote,
        KeyCode::Semicolon,
        KeyCode::Slash,
        KeyCode::AltLeft,
        KeyCode::AltRight,
        KeyCode::CapsLock,
        KeyCode::ContextMenu,
        KeyCode::ControlLeft,
        KeyCode::ControlRight,
        KeyCode::Enter,
        KeyCode::MetaLeft,
        KeyCode::MetaRight,
        KeyCode::ShiftLeft,
        KeyCode::ShiftRight,
        KeyCode::Space,
        KeyCode::Tab,
        KeyCode::Convert,
        KeyCode::KanaMode,
        KeyCode::Lang1,
        KeyCode::Lang2,
        KeyCode::Lang3,
        KeyCode::Lang4,
        KeyCode::Lang5,
        KeyCode::NonConvert,
        KeyCode::Delete,
        KeyCode::End,
        KeyCode::Help,
        KeyCode::Home,
        KeyCode::Insert,
        KeyCode::PageDown,
        KeyCode::PageUp,
        KeyCode::ArrowDown,
        KeyCode::ArrowLeft,
        KeyCode::ArrowRight,
        KeyCode::ArrowUp,
        KeyCode::NumLock,
        KeyCode::Numpad0,
        KeyCode::Numpad1,
        KeyCode::Numpad2,
        KeyCode::Numpad3,
        KeyCode::Numpad4,
        KeyCode::Numpad5,
        KeyCode::Numpad6,
        KeyCode::Numpad7,
        KeyCode::Numpad8,
        KeyCode::Numpad9,
        KeyCode::NumpadAdd,
        KeyCode::NumpadBackspace,
        KeyCode::NumpadClear,
        KeyCode::NumpadClearEntry,
        KeyCode::NumpadComma,
        KeyCode::NumpadDecimal,
        KeyCode::NumpadDivide,
        KeyCode::NumpadEnter,
        KeyCode::NumpadEqual,
        KeyCode::NumpadHash,
        KeyCode::NumpadMemoryAdd,
        KeyCode::NumpadMemoryClear,
        KeyCode::NumpadMemoryRecall,
        KeyCode::NumpadMemoryStore,
        KeyCode::NumpadMemorySubtract,
        KeyCode::NumpadMultiply,
        KeyCode::NumpadParenLeft,
        KeyCode::NumpadParenRight,
        KeyCode::NumpadStar,
        KeyCode::NumpadSubtract,
        KeyCode::Escape,
        KeyCode::F1,
        KeyCode::F2,
        KeyCode::F3,
        KeyCode::F4,
        KeyCode::F5,
        KeyCode::F6,
        KeyCode::F7,
        KeyCode::F8,
        KeyCode::F9,
        KeyCode::F10,
        KeyCode::F11,
        KeyCode::F12,
        KeyCode::F13,
        KeyCode::F14,
        KeyCode::F15,
        KeyCode::F16,
        KeyCode::F17,
        KeyCode::F18,
        KeyCode::F19,
        KeyCode::F20,
        KeyCode::F21,
        KeyCode::F22,
        KeyCode::F23,
        KeyCode::F24,
        KeyCode::Fn,
        KeyCode::FnLock,
        KeyCode::PrintScreen,
        KeyCode::ScrollLock,
        KeyCode::Pause,
        KeyCode::BrowserBack,
        KeyCode::BrowserFavorites,
        KeyCode::BrowserForward,
        KeyCode::BrowserHome,
        KeyCode::BrowserRefresh,
        KeyCode::BrowserSearch,
        KeyCode::BrowserStop,
        KeyCode::Eject,
        KeyCode::LaunchApp1,
        KeyCode::LaunchApp2,
        KeyCode::LaunchMail,
        KeyCode::MediaPlayPause,
        KeyCode::MediaSelect,
        KeyCode::MediaStop,
        KeyCode::MediaTrackNext,
        KeyCode::MediaTrackPrevious,
        KeyCode::Power,
        KeyCode::Sleep,
        KeyCode::AudioVolumeDown,
        KeyCode::AudioVolumeMute,
        KeyCode::AudioVolumeUp,
        KeyCode::WakeUp,
        KeyCode::Again,
        KeyCode::Copy,
        KeyCode::Cut,
        KeyCode::Find,
        KeyCode::Open,
        KeyCode::Paste,
        KeyCode::Props,
        KeyCode::Select,
        KeyCode::Undo,
        KeyCode::Gamepad0,
        KeyCode::Gamepad1,
        KeyCode::Gamepad2,
        KeyCode::Gamepad3,
        KeyCode::Gamepad4,
        KeyCode::Gamepad5,
        KeyCode::Gamepad6,
        KeyCode::Gamepad7,
        KeyCode::Gamepad8,
        KeyCode::Gamepad9,
        KeyCode::Gamepad10,
        KeyCode::Gamepad11,
        KeyCode::Gamepad12,
        KeyCode::Gamepad13,
        KeyCode::Gamepad14,
        KeyCode::Gamepad15,
        KeyCode::Gamepad16,
        KeyCode::Gamepad17,
        KeyCode::Gamepad18,
        KeyCode::Gamepad19,
        KeyCode::BrightnessDown,
        KeyCode::BrightnessUp,
        KeyCode::DisplayToggleIntExt,
        KeyCode::KeyboardLayoutSelect,
        KeyCode::LaunchAssistant,
        KeyCode::LaunchControlPanel,
        KeyCode::LaunchScreenSaver,
        KeyCode::MailForward,
        KeyCode::MailReply,
        KeyCode::MailSend,
        KeyCode::MediaFastForward,
        KeyCode::MediaPause,
        KeyCode::MediaPlay,
        KeyCode::MediaRecord,
        KeyCode::MediaRewind,
        KeyCode::PrivacyScreenToggle,
        KeyCode::SelectTask,
        KeyCode::ShowAllWindows,
        KeyCode::ZoomToggle,
    ]
}

fn all_aliases() -> Vec<(&'static str, KeyCode)> {
    vec![
        ("0", KeyCode::Digit0),
        ("1", KeyCode::Digit1),
        ("2", KeyCode::Digit2),
        ("3", KeyCode::Digit3),
        ("4", KeyCode::Digit4),
        ("5", KeyCode::Digit5),
        ("6", KeyCode::Digit6),
        ("7", KeyCode::Digit7),
        ("8", KeyCode::Digit8),
        ("9", KeyCode::Digit9),
        ("A", KeyCode::KeyA),
        ("B", KeyCode::KeyB),
        ("C", KeyCode::KeyC),
        ("D", KeyCode::KeyD),
        ("E", KeyCode::KeyE),
        ("F", KeyCode::KeyF),
        ("G", KeyCode::KeyG),
        ("H", KeyCode::KeyH),
        ("I", KeyCode::KeyI),
        ("J", KeyCode::KeyJ),
        ("K", KeyCode::KeyK),
        ("L", KeyCode::KeyL),
        ("M", KeyCode::KeyM),
        ("N", KeyCode::KeyN),
        ("O", KeyCode::KeyO),
        ("P", KeyCode::KeyP),
        ("Q", KeyCode::KeyQ),
        ("R", KeyCode::KeyR),
        ("S", KeyCode::KeyS),
        ("T", KeyCode::KeyT),
        ("U", KeyCode::KeyU),
        ("V", KeyCode::KeyV),
        ("W", KeyCode::KeyW),
        ("X", KeyCode::KeyX),
        ("Y", KeyCode::KeyY),
        ("Z", KeyCode::KeyZ),
        ("OSLeft", KeyCode::MetaLeft),
        ("OSRight", KeyCode::MetaRight),
        ("LaunchMediaPlayer", KeyCode::MediaSelect),
        ("VolumeDown", KeyCode::AudioVolumeDown),
        ("VolumeMute", KeyCode::AudioVolumeMute),
        ("VolumeUp", KeyCode::AudioVolumeUp),
    ]
}

#[test]
fn every_key_round_trips_through_its_canonical_name() {
    for &k in all_keys().iter() {
        assert_eq!(KeyCode::from_name(k.name()), Ok(k));
        assert_eq!(k.name().parse::<KeyCode>(), Ok(k));
    }
}

#[test]
fn every_key_has_a_nonempty_label() {
    for &k in all_keys().iter() {
        assert!(!k.as_str().is_empty());
    }
}

#[test]
fn every_key_is_classified_and_every_class_is_inhabited() {
    let classes = [
        KeyCodeClass::WritingSystem,
        KeyCodeClass::Functional,
        KeyCodeClass::ControlPad,
        KeyCodeClass::ArrowPad,
        KeyCodeClass::Numpad,
        KeyCodeClass::Function,
        KeyCodeClass::Media,
        KeyCodeClass::Legacy,
        KeyCodeClass::Gamepad,
        KeyCodeClass::NonStandard,
    ];
    for &c in classes.iter() {
        assert!(all_keys().iter().any(|k| k.classify() == c));
    }
}

#[test]
fn every_alias_parses_to_its_key() {
    for &(alias, k) in all_aliases().iter() {
        assert_eq!(KeyCode::from_name(alias), Ok(k));
    }
}

#[test]
fn no_two_keys_share_a_name_or_alias() {
    let mut spellings: Vec<(String, KeyCode)> = Vec::new();
    for &k in all_keys().iter() {
        spellings.push((k.name().to_owned(), k));
    }
    for &(alias, k) in all_aliases().iter() {
        spellings.push((alias.to_owned(), k));
    }
    for i in 0..spellings.len() {
        for j in (i + 1)..spellings.len() {
            assert_ne!(spellings[i].0, spellings[j].0);
        }
    }
}

#[test]
fn serialization_always_emits_the_canonical_spelling() {
    for &(alias, k) in all_aliases().iter() {
        let parsed = KeyCode::from_name(alias).unwrap();
        assert_eq!(parsed.name(), k.name());
        assert_ne!(parsed.name(), alias);
    }
}
