//! The name parser: canonical names, legacy aliases, and rejection of
//! everything else.

use livesplit_hotkey::KeyCode;

#[test]
fn digit_shorthand_aliases() {
    assert_eq!(KeyCode::from_name("0"), Ok(KeyCode::Digit0));
    assert_eq!(KeyCode::from_name("7"), Ok(KeyCode::Digit7));
    assert_eq!(KeyCode::from_name("9"), Ok(KeyCode::Digit9));
}

#[test]
fn letter_shorthand_aliases() {
    assert_eq!(KeyCode::from_name("A"), Ok(KeyCode::KeyA));
    assert_eq!(KeyCode::from_name("Q"), Ok(KeyCode::KeyQ));
    assert_eq!(KeyCode::from_name("Z"), Ok(KeyCode::KeyZ));
}

#[test]
fn historical_os_key_aliases() {
    assert_eq!(KeyCode::from_name("OSLeft"), Ok(KeyCode::MetaLeft));
    assert_eq!(KeyCode::from_name("OSRight"), Ok(KeyCode::MetaRight));
    assert_eq!(KeyCode::from_name("MetaLeft"), Ok(KeyCode::MetaLeft));
}

#[test]
fn legacy_volume_aliases() {
    assert_eq!(KeyCode::from_name("VolumeUp"), Ok(KeyCode::AudioVolumeUp));
    assert_eq!(KeyCode::from_name("VolumeDown"), Ok(KeyCode::AudioVolumeDown));
    assert_eq!(KeyCode::from_name("VolumeMute"), Ok(KeyCode::AudioVolumeMute));
    assert_eq!(KeyCode::from_name("AudioVolumeUp"), Ok(KeyCode::AudioVolumeUp));
}

#[test]
fn media_player_alias() {
    assert_eq!(
        KeyCode::from_name("LaunchMediaPlayer"),
        Ok(KeyCode::MediaSelect)
    );
}

#[test]
fn unrecognized_input_is_rejected() {
    assert_eq!(KeyCode::from_name("NotARealKey"), Err(()));
    assert_eq!("NotARealKey".parse::<KeyCode>(), Err(()));
}

#[test]
fn empty_input_is_rejected() {
    assert_eq!(KeyCode::from_name(""), Err(()));
}

#[test]
fn matching_is_case_sensitive() {
    assert_eq!(KeyCode::from_name("keya"), Err(()));
    assert_eq!(KeyCode::from_name("KEYA"), Err(()));
    assert_eq!(KeyCode::from_name("a"), Err(()));
    assert_eq!(KeyCode::from_name("osleft"), Err(()));
}

#[test]
fn no_trimming_is_applied() {
    assert_eq!(KeyCode::from_name(" KeyA"), Err(()));
    assert_eq!(KeyCode::from_name("KeyA "), Err(()));
    assert_eq!(KeyCode::from_name("Key A"), Err(()));
}

#[test]
fn display_labels_are_not_accepted_as_names() {
    assert_eq!(KeyCode::from_name("`"), Err(()));
    assert_eq!(KeyCode::from_name("Numpad +"), Err(()));
}
