//! The baseline labeler: a layout-independent display string for
//! every key identity, reflecting the reference (US) physical layout.

use crate::key_code::KeyCode;
use vstd::prelude::*;

verus! {

/// The baseline display label of a key identity: the canonical US
/// character or glyph for writing-system positions, and a word or a
/// widely recognized pictogram for every other key.
pub open spec fn label_of(k: KeyCode) -> Seq<char> {
    match k {
        KeyCode::Backquote => "`"@,
        KeyCode::Backslash => "\\"@,
        KeyCode::Backspace => "⌫"@,
        KeyCode::BracketLeft => "["@,
        KeyCode::BracketRight => "]"@,
        KeyCode::Comma => ","@,
        KeyCode::Digit0 => "0"@,
        KeyCode::Digit1 => "1"@,
        KeyCode::Digit2 => "2"@,
        KeyCode::Digit3 => "3"@,
        KeyCode::Digit4 => "4"@,
        KeyCode::Digit5 => "5"@,
        KeyCode::Digit6 => "6"@,
        KeyCode::Digit7 => "7"@,
        KeyCode::Digit8 => "8"@,
        KeyCode::Digit9 => "9"@,
        KeyCode::Equal => "="@,
        KeyCode::IntlBackslash => "International Backslash"@,
        KeyCode::IntlRo => "ろ"@,
        KeyCode::IntlYen => "¥"@,
        KeyCode::KeyA => "A"@,
        KeyCode::KeyB => "B"@,
        KeyCode::KeyC => "C"@,
        KeyCode::KeyD => "D"@,
        KeyCode::KeyE => "E"@,
        KeyCode::KeyF => "F"@,
        KeyCode::KeyG => "G"@,
        KeyCode::KeyH => "H"@,
        KeyCode::KeyI => "I"@,
        KeyCode::KeyJ => "J"@,
        KeyCode::KeyK => "K"@,
        KeyCode::KeyL => "L"@,
        KeyCode::KeyM => "M"@,
        KeyCode::KeyN => "N"@,
        KeyCode::KeyO => "O"@,
        KeyCode::KeyP => "P"@,
        KeyCode::KeyQ => "Q"@,
        KeyCode::KeyR => "R"@,
        KeyCode::KeyS => "S"@,
        KeyCode::KeyT => "T"@,
        KeyCode::KeyU => "U"@,
        KeyCode::KeyV => "V"@,
        KeyCode::KeyW => "W"@,
        KeyCode::KeyX => "X"@,
        KeyCode::KeyY => "Y"@,
        KeyCode::KeyZ => "Z"@,
        KeyCode::Minus => "-"@,
        KeyCode::Period => "."@,
        KeyCode::Quote => "'"@,
        KeyCode::Semicolon => ";"@,
        KeyCode::Slash => "/"@,
        KeyCode::AltLeft => "Alt Left"@,
        KeyCode::AltRight => "Alt Right"@,
        KeyCode::CapsLock => "⇪"@,
        KeyCode::ContextMenu => "Context Menu"@,
        KeyCode::ControlLeft => "Control Left"@,
        KeyCode::ControlRight => "Control Right"@,
        KeyCode::Enter => "↵"@,
        KeyCode::MetaLeft => "⌘ Left"@,
        KeyCode::MetaRight => "⌘ Right"@,
        KeyCode::ShiftLeft => "⇧ Left"@,
        KeyCode::ShiftRight => "⇧ Right"@,
        KeyCode::Space => "Space"@,
        KeyCode::Tab => "⇥"@,
        KeyCode::Convert => "変換"@,
        KeyCode::KanaMode => "カタカナ/ひらがな/ローマ字"@,
        KeyCode::Lang1 => "한/영 かな"@,
        KeyCode::Lang2 => "한자 英数"@,
        KeyCode::Lang3 => "カタカナ"@,
        KeyCode::Lang4 => "ひらがな"@,
        KeyCode::Lang5 => "半角/全角/漢字"@,
        KeyCode::NonConvert => "無変換"@,
        KeyCode::Delete => "Delete"@,
        KeyCode::End => "End"@,
        KeyCode::Help => "Help"@,
        KeyCode::Home => "Home"@,
        KeyCode::Insert => "Insert"@,
        KeyCode::PageDown => "Page Down"@,
        KeyCode::PageUp => "Page Up"@,
        KeyCode::ArrowDown => "↓"@,
        KeyCode::ArrowLeft => "←"@,
        KeyCode::ArrowRight => "→"@,
        KeyCode::ArrowUp => "↑"@,
        KeyCode::NumLock => "Num Lock"@,
        KeyCode::Numpad0 => "Numpad 0"@,
        KeyCode::Numpad1 => "Numpad 1"@,
        KeyCode::Numpad2 => "Numpad 2"@,
        KeyCode::Numpad3 => "Numpad 3"@,
        KeyCode::Numpad4 => "Numpad 4"@,
        KeyCode::Numpad5 => "Numpad 5"@,
        KeyCode::Numpad6 => "Numpad 6"@,
        KeyCode::Numpad7 => "Numpad 7"@,
        KeyCode::Numpad8 => "Numpad 8"@,
        KeyCode::Numpad9 => "Numpad 9"@,
        KeyCode::NumpadAdd => "Numpad +"@,
        KeyCode::NumpadBackspace => "Numpad ⌫"@,
        KeyCode::NumpadClear => "Numpad C"@,
        KeyCode::NumpadClearEntry => "Numpad CE"@,
        KeyCode::NumpadComma => "Numpad ,"@,
        KeyCode::NumpadDecimal => "Numpad ."@,
        KeyCode::NumpadDivide => "Numpad /"@,
        KeyCode::NumpadEnter => "Numpad ↵"@,
        KeyCode::NumpadEqual => "Numpad ="@,
        KeyCode::NumpadHash => "Numpad #"@,
        KeyCode::NumpadMemoryAdd => "Numpad M+"@,
        KeyCode::NumpadMemoryClear => "Numpad MC"@,
        KeyCode::NumpadMemoryRecall => "Numpad MR"@,
        KeyCode::NumpadMemoryStore => "Numpad MS"@,
        KeyCode::NumpadMemorySubtract => "Numpad M-"@,
        KeyCode::NumpadMultiply => "Numpad *"@,
        KeyCode::NumpadParenLeft => "Numpad ("@,
        KeyCode::NumpadParenRight => "Numpad )"@,
        KeyCode::NumpadStar => "Numpad * (Star)"@,
        KeyCode::NumpadSubtract => "Numpad -"@,
        KeyCode::Escape => "Escape"@,
        KeyCode::F1 => "F1"@,
        KeyCode::F2 => "F2"@,
        KeyCode::F3 => "F3"@,
        KeyCode::F4 => "F4"@,
        KeyCode::F5 => "F5"@,
        KeyCode::F6 => "F6"@,
        KeyCode::F7 => "F7"@,
        KeyCode::F8 => "F8"@,
        KeyCode::F9 => "F9"@,
        KeyCode::F10 => "F10"@,
        KeyCode::F11 => "F11"@,
        KeyCode::F12 => "F12"@,
        KeyCode::F13 => "F13"@,
        KeyCode::F14 => "F14"@,
        KeyCode::F15 => "F15"@,
        KeyCode::F16 => "F16"@,
        KeyCode::F17 => "F17"@,
        KeyCode::F18 => "F18"@,
        KeyCode::F19 => "F19"@,
        KeyCode::F20 => "F20"@,
        KeyCode::F21 => "F21"@,
        KeyCode::F22 => "F22"@,
        KeyCode::F23 => "F23"@,
        KeyCode::F24 => "F24"@,
        KeyCode::Fn => "Fn"@,
        KeyCode::FnLock => "FnLock"@,
        KeyCode::PrintScreen => "Print Screen"@,
        KeyCode::ScrollLock => "Scroll Lock"@,
        KeyCode::Pause => "Pause Break"@,
        KeyCode::BrowserBack => "Browser ⏮"@,
        KeyCode::BrowserFavorites => "Browser Favorites"@,
        KeyCode::BrowserForward => "Browser ⏭"@,
        KeyCode::BrowserHome => "Browser 🏠"@,
        KeyCode::BrowserRefresh => "Browser Refresh"@,
        KeyCode::BrowserSearch => "Browser Search"@,
        KeyCode::BrowserStop => "Browser Stop"@,
        KeyCode::Eject => "⏏"@,
        KeyCode::LaunchApp1 => "Launch App 1"@,
        KeyCode::LaunchApp2 => "Launch App 2"@,
        KeyCode::LaunchMail => "Launch Mail"@,
        KeyCode::MediaPlayPause => "⏯"@,
        KeyCode::MediaSelect => "Media Select"@,
        KeyCode::MediaStop => "◼"@,
        KeyCode::MediaTrackNext => "⏭"@,
        KeyCode::MediaTrackPrevious => "⏮"@,
        KeyCode::Power => "Power"@,
        KeyCode::Sleep => "Sleep"@,
        KeyCode::AudioVolumeDown => "🔉"@,
        KeyCode::AudioVolumeMute => "🔇"@,
        KeyCode::AudioVolumeUp => "🔊"@,
        KeyCode::WakeUp => "Wake Up"@,
        KeyCode::Again => "Again"@,
        KeyCode::Copy => "Copy"@,
        KeyCode::Cut => "Cut"@,
        KeyCode::Find => "Find"@,
        KeyCode::Open => "Open"@,
        KeyCode::Paste => "Paste"@,
        KeyCode::Props => "Props"@,
        KeyCode::Select => "Select"@,
        KeyCode::Undo => "Undo"@,
        KeyCode::Gamepad0 => "Gamepad 0"@,
        KeyCode::Gamepad1 => "Gamepad 1"@,
        KeyCode::Gamepad2 => "Gamepad 2"@,
        KeyCode::Gamepad3 => "Gamepad 3"@,
        KeyCode::Gamepad4 => "Gamepad 4"@,
        KeyCode::Gamepad5 => "Gamepad 5"@,
        KeyCode::Gamepad6 => "Gamepad 6"@,
        KeyCode::Gamepad7 => "Gamepad 7"@,
        KeyCode::Gamepad8 => "Gamepad 8"@,
        KeyCode::Gamepad9 => "Gamepad 9"@,
        KeyCode::Gamepad10 => "Gamepad 10"@,
        KeyCode::Gamepad11 => "Gamepad 11"@,
        KeyCode::Gamepad12 => "Gamepad 12"@,
        KeyCode::Gamepad13 => "Gamepad 13"@,
        KeyCode::Gamepad14 => "Gamepad 14"@,
        KeyCode::Gamepad15 => "Gamepad 15"@,
        KeyCode::Gamepad16 => "Gamepad 16"@,
        KeyCode::Gamepad17 => "Gamepad 17"@,
        KeyCode::Gamepad18 => "Gamepad 18"@,
        KeyCode::Gamepad19 => "Gamepad 19"@,
        KeyCode::BrightnessDown => "Brightness Down"@,
        KeyCode::BrightnessUp => "Brightness Up"@,
        KeyCode::DisplayToggleIntExt => "Display Toggle Intern / Extern"@,
        KeyCode::KeyboardLayoutSelect => "Keyboard Layout Select"@,
        KeyCode::LaunchAssistant => "Launch Assistant"@,
        KeyCode::LaunchControlPanel => "Launch Control Panel"@,
        KeyCode::LaunchScreenSaver => "Launch Screen Saver"@,
        KeyCode::MailForward => "Mail Forward"@,
        KeyCode::MailReply => "Mail Reply"@,
        KeyCode::MailSend => "Mail Send"@,
        KeyCode::MediaFastForward => "⏩"@,
        KeyCode::MediaPause => "⏸"@,
        KeyCode::MediaPlay => "▶"@,
        KeyCode::MediaRecord => "⏺"@,
        KeyCode::MediaRewind => "⏪"@,
        KeyCode::PrivacyScreenToggle => "Privacy Screen Toggle"@,
        KeyCode::SelectTask => "Select Task"@,
        KeyCode::ShowAllWindows => "Show All Windows"@,
        KeyCode::ZoomToggle => "Zoom Toggle"@,
    }
}

impl KeyCode {
    /// The display label of this key according to the reference (US)
    /// layout. Total: every identity has a label, and no label is
    /// empty.
    pub fn as_str(self) -> (r: &'static str)
        ensures
            r@ == label_of(self),
            label_of(self).len() > 0,
    {
        proof {
            lemma_label_nonempty(self);
        }
        match self {
            KeyCode::Backquote => "`",
            KeyCode::Backslash => "\\",
            KeyCode::Backspace => "⌫",
            KeyCode::BracketLeft => "[",
            KeyCode::BracketRight => "]",
            KeyCode::Comma => ",",
            KeyCode::Digit0 => "0",
            KeyCode::Digit1 => "1",
            KeyCode::Digit2 => "2",
            KeyCode::Digit3 => "3",
            KeyCode::Digit4 => "4",
            KeyCode::Digit5 => "5",
            KeyCode::Digit6 => "6",
            KeyCode::Digit7 => "7",
            KeyCode::Digit8 => "8",
            KeyCode::Digit9 => "9",
            KeyCode::Equal => "=",
            KeyCode::IntlBackslash => "International Backslash",
            KeyCode::IntlRo => "ろ",
            KeyCode::IntlYen => "¥",
            KeyCode::KeyA => "A",
            KeyCode::KeyB => "B",
            KeyCode::KeyC => "C",
            KeyCode::KeyD => "D",
            KeyCode::KeyE => "E",
            KeyCode::KeyF => "F",
            KeyCode::KeyG => "G",
            KeyCode::KeyH => "H",
            KeyCode::KeyI => "I",
            KeyCode::KeyJ => "J",
            KeyCode::KeyK => "K",
            KeyCode::KeyL => "L",
            KeyCode::KeyM => "M",
            KeyCode::KeyN => "N",
            KeyCode::KeyO => "O",
            KeyCode::KeyP => "P",
            KeyCode::KeyQ => "Q",
            KeyCode::KeyR => "R",
            KeyCode::KeyS => "S",
            KeyCode::KeyT => "T",
            KeyCode::KeyU => "U",
            KeyCode::KeyV => "V",
            KeyCode::KeyW => "W",
            KeyCode::KeyX => "X",
            KeyCode::KeyY => "Y",
            KeyCode::KeyZ => "Z",
            KeyCode::Minus => "-",
            KeyCode::Period => ".",
            KeyCode::Quote => "'",
            KeyCode::Semicolon => ";",
            KeyCode::Slash => "/",
            KeyCode::AltLeft => "Alt Left",
            KeyCode::AltRight => "Alt Right",
            KeyCode::CapsLock => "⇪",
            KeyCode::ContextMenu => "Context Menu",
            KeyCode::ControlLeft => "Control Left",
            KeyCode::ControlRight => "Control Right",
            KeyCode::Enter => "↵",
            KeyCode::MetaLeft => "⌘ Left",
            KeyCode::MetaRight => "⌘ Right",
            KeyCode::ShiftLeft => "⇧ Left",
            KeyCode::ShiftRight => "⇧ Right",
            KeyCode::Space => "Space",
            KeyCode::Tab => "⇥",
            KeyCode::Convert => "変換",
            KeyCode::KanaMode => "カタカナ/ひらがな/ローマ字",
            KeyCode::Lang1 => "한/영 かな",
            KeyCode::Lang2 => "한자 英数",
            KeyCode::Lang3 => "カタカナ",
            KeyCode::Lang4 => "ひらがな",
            KeyCode::Lang5 => "半角/全角/漢字",
            KeyCode::NonConvert => "無変換",
            KeyCode::Delete => "Delete",
            KeyCode::End => "End",
            KeyCode::Help => "Help",
            KeyCode::Home => "Home",
            KeyCode::Insert => "Insert",
            KeyCode::PageDown => "Page Down",
            KeyCode::PageUp => "Page Up",
            KeyCode::ArrowDown => "↓",
            KeyCode::ArrowLeft => "←",
            KeyCode::ArrowRight => "→",
            KeyCode::ArrowUp => "↑",
            KeyCode::NumLock => "Num Lock",
            KeyCode::Numpad0 => "Numpad 0",
            KeyCode::Numpad1 => "Numpad 1",
            KeyCode::Numpad2 => "Numpad 2",
            KeyCode::Numpad3 => "Numpad 3",
            KeyCode::Numpad4 => "Numpad 4",
            KeyCode::Numpad5 => "Numpad 5",
            KeyCode::Numpad6 => "Numpad 6",
            KeyCode::Numpad7 => "Numpad 7",
            KeyCode::Numpad8 => "Numpad 8",
            KeyCode::Numpad9 => "Numpad 9",
            KeyCode::NumpadAdd => "Numpad +",
            KeyCode::NumpadBackspace => "Numpad ⌫",
            KeyCode::NumpadClear => "Numpad C",
            KeyCode::NumpadClearEntry => "Numpad CE",
            KeyCode::NumpadComma => "Numpad ,",
            KeyCode::NumpadDecimal => "Numpad .",
            KeyCode::NumpadDivide => "Numpad /",
            KeyCode::NumpadEnter => "Numpad ↵",
            KeyCode::NumpadEqual => "Numpad =",
            KeyCode::NumpadHash => "Numpad #",
            KeyCode::NumpadMemoryAdd => "Numpad M+",
            KeyCode::NumpadMemoryClear => "Numpad MC",
            KeyCode::NumpadMemoryRecall => "Numpad MR",
            KeyCode::NumpadMemoryStore => "Numpad MS",
            KeyCode::NumpadMemorySubtract => "Numpad M-",
            KeyCode::NumpadMultiply => "Numpad *",
            KeyCode::NumpadParenLeft => "Numpad (",
            KeyCode::NumpadParenRight => "Numpad )",
            KeyCode::NumpadStar => "Numpad * (Star)",
            KeyCode::NumpadSubtract => "Numpad -",
            KeyCode::Escape => "Escape",
            KeyCode::F1 => "F1",
            KeyCode::F2 => "F2",
            KeyCode::F3 => "F3",
            KeyCode::F4 => "F4",
            KeyCode::F5 => "F5",
            KeyCode::F6 => "F6",
            KeyCode::F7 => "F7",
            KeyCode::F8 => "F8",
            KeyCode::F9 => "F9",
            KeyCode::F10 => "F10",
            KeyCode::F11 => "F11",
            KeyCode::F12 => "F12",
            KeyCode::F13 => "F13",
            KeyCode::F14 => "F14",
            KeyCode::F15 => "F15",
            KeyCode::F16 => "F16",
            KeyCode::F17 => "F17",
            KeyCode::F18 => "F18",
            KeyCode::F19 => "F19",
            KeyCode::F20 => "F20",
            KeyCode::F21 => "F21",
            KeyCode::F22 => "F22",
            KeyCode::F23 => "F23",
            KeyCode::F24 => "F24",
            KeyCode::Fn => "Fn",
            KeyCode::FnLock => "FnLock",
            KeyCode::PrintScreen => "Print Screen",
            KeyCode::ScrollLock => "Scroll Lock",
            KeyCode::Pause => "Pause Break",
            KeyCode::BrowserBack => "Browser ⏮",
            KeyCode::BrowserFavorites => "Browser Favorites",
            KeyCode::BrowserForward => "Browser ⏭",
            KeyCode::BrowserHome => "Browser 🏠",
            KeyCode::BrowserRefresh => "Browser Refresh",
            KeyCode::BrowserSearch => "Browser Search",
            KeyCode::BrowserStop => "Browser Stop",
            KeyCode::Eject => "⏏",
            KeyCode::LaunchApp1 => "Launch App 1",
            KeyCode::LaunchApp2 => "Launch App 2",
            KeyCode::LaunchMail => "Launch Mail",
            KeyCode::MediaPlayPause => "⏯",
            KeyCode::MediaSelect => "Media Select",
            KeyCode::MediaStop => "◼",
            KeyCode::MediaTrackNext => "⏭",
            KeyCode::MediaTrackPrevious => "⏮",
            KeyCode::Power => "Power",
            KeyCode::Sleep => "Sleep",
            KeyCode::AudioVolumeDown => "🔉",
            KeyCode::AudioVolumeMute => "🔇",
            KeyCode::AudioVolumeUp => "🔊",
            KeyCode::WakeUp => "Wake Up",
            KeyCode::Again => "Again",
            KeyCode::Copy => "Copy",
            KeyCode::Cut => "Cut",
            KeyCode::Find => "Find",
            KeyCode::Open => "Open",
            KeyCode::Paste => "Paste",
            KeyCode::Props => "Props",
            KeyCode::Select => "Select",
            KeyCode::Undo => "Undo",
            KeyCode::Gamepad0 => "Gamepad 0",
            KeyCode::Gamepad1 => "Gamepad 1",
            KeyCode::Gamepad2 => "Gamepad 2",
            KeyCode::Gamepad3 => "Gamepad 3",
            KeyCode::Gamepad4 => "Gamepad 4",
            KeyCode::Gamepad5 => "Gamepad 5",
            KeyCode::Gamepad6 => "Gamepad 6",
            KeyCode::Gamepad7 => "Gamepad 7",
            KeyCode::Gamepad8 => "Gamepad 8",
            KeyCode::Gamepad9 => "Gamepad 9",
            KeyCode::Gamepad10 => "Gamepad 10",
            KeyCode::Gamepad11 => "Gamepad 11",
            KeyCode::Gamepad12 => "Gamepad 12",
            KeyCode::Gamepad13 => "Gamepad 13",
            KeyCode::Gamepad14 => "Gamepad 14",
            KeyCode::Gamepad15 => "Gamepad 15",
            KeyCode::Gamepad16 => "Gamepad 16",
            KeyCode::Gamepad17 => "Gamepad 17",
            KeyCode::Gamepad18 => "Gamepad 18",
            KeyCode::Gamepad19 => "Gamepad 19",
            KeyCode::BrightnessDown => "Brightness Down",
            KeyCode::BrightnessUp => "Brightness Up",
            KeyCode::DisplayToggleIntExt => "Display Toggle Intern / Extern",
            KeyCode::KeyboardLayoutSelect => "Keyboard Layout Select",
            KeyCode::LaunchAssistant => "Launch Assistant",
            KeyCode::LaunchControlPanel => "Launch Control Panel",
            KeyCode::LaunchScreenSaver => "Launch Screen Saver",
            KeyCode::MailForward => "Mail Forward",
            KeyCode::MailReply => "Mail Reply",
            KeyCode::MailSend => "Mail Send",
            KeyCode::MediaFastForward => "⏩",
            KeyCode::MediaPause => "⏸",
            KeyCode::MediaPlay => "▶",
            KeyCode::MediaRecord => "⏺",
            KeyCode::MediaRewind => "⏪",
            KeyCode::PrivacyScreenToggle => "Privacy Screen Toggle",
            KeyCode::SelectTask => "Select Task",
            KeyCode::ShowAllWindows => "Show All Windows",
            KeyCode::ZoomToggle => "Zoom Toggle",
        }
    }
}

/// The baseline labeler never yields an empty string.
pub proof fn lemma_label_nonempty(k: KeyCode)
    ensures
        label_of(k).len() > 0,
{
    // Revealing every label literal makes the length of each arm of
    // `label_of` known.
    reveal_strlit("`");
    reveal_strlit("\\");
    reveal_strlit("⌫");
    reveal_strlit("[");
    reveal_strlit("]");
    reveal_strlit(",");
    reveal_strlit("0");
    reveal_strlit("1");
    reveal_strlit("2");
    reveal_strlit("3");
    reveal_strlit("4");
    reveal_strlit("5");
    reveal_strlit("6");
    reveal_strlit("7");
    reveal_strlit("8");
    reveal_strlit("9");
    reveal_strlit("=");
    reveal_strlit("International Backslash");
    reveal_strlit("ろ");
    reveal_strlit("¥");
    reveal_strlit("A");
    reveal_strlit("B");
    reveal_strlit("C");
    reveal_strlit("D");
    reveal_strlit("E");
    reveal_strlit("F");
    reveal_strlit("G");
    reveal_strlit("H");
    reveal_strlit("I");
    reveal_strlit("J");
    reveal_strlit("K");
    reveal_strlit("L");
    reveal_strlit("M");
    reveal_strlit("N");
    reveal_strlit("O");
    reveal_strlit("P");
    reveal_strlit("Q");
    reveal_strlit("R");
    reveal_strlit("S");
    reveal_strlit("T");
    reveal_strlit("U");
    reveal_strlit("V");
    reveal_strlit("W");
    reveal_strlit("X");
    reveal_strlit("Y");
    reveal_strlit("Z");
    reveal_strlit("-");
    reveal_strlit(".");
    reveal_strlit("'");
    reveal_strlit(";");
    reveal_strlit("/");
    reveal_strlit("Alt Left");
    reveal_strlit("Alt Right");
    reveal_strlit("⇪");
    reveal_strlit("Context Menu");
    reveal_strlit("Control Left");
    reveal_strlit("Control Right");
    reveal_strlit("↵");
    reveal_strlit("⌘ Left");
    reveal_strlit("⌘ Right");
    reveal_strlit("⇧ Left");
    reveal_strlit("⇧ Right");
    reveal_strlit("Space");
    reveal_strlit("⇥");
    reveal_strlit("変換");
    reveal_strlit("カタカナ/ひらがな/ローマ字");
    reveal_strlit("한/영 かな");
    reveal_strlit("한자 英数");
    reveal_strlit("カタカナ");
    reveal_strlit("ひらがな");
    reveal_strlit("半角/全角/漢字");
    reveal_strlit("無変換");
    reveal_strlit("Delete");
    reveal_strlit("End");
    reveal_strlit("Help");
    reveal_strlit("Home");
    reveal_strlit("Insert");
    reveal_strlit("Page Down");
    reveal_strlit("Page Up");
    reveal_strlit("↓");
    reveal_strlit("←");
    reveal_strlit("→");
    reveal_strlit("↑");
    reveal_strlit("Num Lock");
    reveal_strlit("Numpad 0");
    reveal_strlit("Numpad 1");
    reveal_strlit("Numpad 2");
    reveal_strlit("Numpad 3");
    reveal_strlit("Numpad 4");
    reveal_strlit("Numpad 5");
    reveal_strlit("Numpad 6");
    reveal_strlit("Numpad 7");
    reveal_strlit("Numpad 8");
    reveal_strlit("Numpad 9");
    reveal_strlit("Numpad +");
    reveal_strlit("Numpad ⌫");
    reveal_strlit("Numpad C");
    reveal_strlit("Numpad CE");
    reveal_strlit("Numpad ,");
    reveal_strlit("Numpad .");
    reveal_strlit("Numpad /");
    reveal_strlit("Numpad ↵");
    reveal_strlit("Numpad =");
    reveal_strlit("Numpad #");
    reveal_strlit("Numpad M+");
    reveal_strlit("Numpad MC");
    reveal_strlit("Numpad MR");
    reveal_strlit("Numpad MS");
    reveal_strlit("Numpad M-");
    reveal_strlit("Numpad *");
    reveal_strlit("Numpad (");
    reveal_strlit("Numpad )");
    reveal_strlit("Numpad * (Star)");
    reveal_strlit("Numpad -");
    reveal_strlit("Escape");
    reveal_strlit("F1");
    reveal_strlit("F2");
    reveal_strlit("F3");
    reveal_strlit("F4");
    reveal_strlit("F5");
    reveal_strlit("F6");
    reveal_strlit("F7");
    reveal_strlit("F8");
    reveal_strlit("F9");
    reveal_strlit("F10");
    reveal_strlit("F11");
    reveal_strlit("F12");
    reveal_strlit("F13");
    reveal_strlit("F14");
    reveal_strlit("F15");
    reveal_strlit("F16");
    reveal_strlit("F17");
    reveal_strlit("F18");
    reveal_strlit("F19");
    reveal_strlit("F20");
    reveal_strlit("F21");
    reveal_strlit("F22");
    reveal_strlit("F23");
    reveal_strlit("F24");
    reveal_strlit("Fn");
    reveal_strlit("FnLock");
    reveal_strlit("Print Screen");
    reveal_strlit("Scroll Lock");
    reveal_strlit("Pause Break");
    reveal_strlit("Browser ⏮");
    reveal_strlit("Browser Favorites");
    reveal_strlit("Browser ⏭");
    reveal_strlit("Browser 🏠");
    reveal_strlit("Browser Refresh");
    reveal_strlit("Browser Search");
    reveal_strlit("Browser Stop");
    reveal_strlit("⏏");
    reveal_strlit("Launch App 1");
    reveal_strlit("Launch App 2");
    reveal_strlit("Launch Mail");
    reveal_strlit("⏯");
    reveal_strlit("Media Select");
    reveal_strlit("◼");
    reveal_strlit("⏭");
    reveal_strlit("⏮");
    reveal_strlit("Power");
    reveal_strlit("Sleep");
    reveal_strlit("🔉");
    reveal_strlit("🔇");
    reveal_strlit("🔊");
    reveal_strlit("Wake Up");
    reveal_strlit("Again");
    reveal_strlit("Copy");
    reveal_strlit("Cut");
    reveal_strlit("Find");
    reveal_strlit("Open");
    reveal_strlit("Paste");
    reveal_strlit("Props");
    reveal_strlit("Select");
    reveal_strlit("Undo");
    reveal_strlit("Gamepad 0");
    reveal_strlit("Gamepad 1");
    reveal_strlit("Gamepad 2");
    reveal_strlit("Gamepad 3");
    reveal_strlit("Gamepad 4");
    reveal_strlit("Gamepad 5");
    reveal_strlit("Gamepad 6");
    reveal_strlit("Gamepad 7");
    reveal_strlit("Gamepad 8");
    reveal_strlit("Gamepad 9");
    reveal_strlit("Gamepad 10");
    reveal_strlit("Gamepad 11");
    reveal_strlit("Gamepad 12");
    reveal_strlit("Gamepad 13");
    reveal_strlit("Gamepad 14");
    reveal_strlit("Gamepad 15");
    reveal_strlit("Gamepad 16");
    reveal_strlit("Gamepad 17");
    reveal_strlit("Gamepad 18");
    reveal_strlit("Gamepad 19");
    reveal_strlit("Brightness Down");
    reveal_strlit("Brightness Up");
    reveal_strlit("Display Toggle Intern / Extern");
    reveal_strlit("Keyboard Layout Select");
    reveal_strlit("Launch Assistant");
    reveal_strlit("Launch Control Panel");
    reveal_strlit("Launch Screen Saver");
    reveal_strlit("Mail Forward");
    reveal_strlit("Mail Reply");
    reveal_strlit("Mail Send");
    reveal_strlit("⏩");
    reveal_strlit("⏸");
    reveal_strlit("▶");
    reveal_strlit("⏺");
    reveal_strlit("⏪");
    reveal_strlit("Privacy Screen Toggle");
    reveal_strlit("Select Task");
    reveal_strlit("Show All Windows");
    reveal_strlit("Zoom Toggle");
}

} // verus!
