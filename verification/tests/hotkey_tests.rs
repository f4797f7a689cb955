use quicktrans::config::Hotkey;
use quicktrans::hotkey::{
    builtin_system_hotkeys, check_system_conflicts, hotkeys_match, keycode_to_string,
    parse_hotkey_entry, shortcut_key_for,
};

fn mods(names: &[&str]) -> Vec<String> {
    names.iter().map(|m| m.to_string()).collect()
}

#[test]
fn test_hotkeys_match() {
    assert!(hotkeys_match(&mods(&["Meta", "Shift"]), "t", &mods(&["Shift", "Meta"]), "T"));

    assert!(!hotkeys_match(&mods(&["Meta"]), "t", &mods(&["Control"]), "t"));
}

#[test]
fn hotkeys_match_needs_equal_multisets() {
    assert!(!hotkeys_match(&mods(&["Meta", "Meta"]), "t", &mods(&["Meta", "Shift"]), "t"));
    assert!(!hotkeys_match(&mods(&["Meta"]), "t", &mods(&["Meta", "Shift"]), "t"));
    assert!(hotkeys_match(&mods(&[]), " ", &mods(&[]), " "));
}

#[test]
fn test_check_conflicts() {
    let hotkey = Hotkey::Combination { modifiers: mods(&["Meta"]), key: " ".to_string() };
    let conflicts = check_system_conflicts(&hotkey, &builtin_system_hotkeys());
    assert!(!conflicts.is_empty());
    assert_eq!(conflicts[0], "Spotlight");
}

#[test]
fn consecutive_hotkeys_have_no_conflicts() {
    let hotkey = Hotkey::Consecutive { key: " ".to_string(), count: 3 };
    assert!(check_system_conflicts(&hotkey, &builtin_system_hotkeys()).is_empty());
}

#[test]
fn screenshot_chords_are_detected() {
    let hotkey = Hotkey::Combination { modifiers: mods(&["Shift", "Meta"]), key: "3".to_string() };
    let conflicts = check_system_conflicts(&hotkey, &builtin_system_hotkeys());
    assert_eq!(conflicts, vec!["截图".to_string()]);
}

#[test]
fn keycodes_render_as_key_names() {
    assert_eq!(keycode_to_string(49), " ");
    assert_eq!(keycode_to_string(36), "Return");
    assert_eq!(keycode_to_string(53), "Escape");
    assert_eq!(keycode_to_string(9), "v");
    assert_eq!(keycode_to_string(99), "key_99");
}

#[test]
fn hotkey_entries_are_decoded() {
    assert!(parse_hotkey_entry("32", false, 49, 1 << 20).is_none());
    let h = parse_hotkey_entry("32", true, 49, (1 << 17) | (1 << 20)).unwrap();
    assert_eq!(h.name, "系统快捷键 #32");
    assert_eq!(h.modifiers, vec!["Shift".to_string(), "Meta".to_string()]);
    assert_eq!(h.key, " ");
}

#[test]
fn shortcut_keys_are_normalized() {
    let combo = |key: &str| Hotkey::Combination { modifiers: mods(&["Control"]), key: key.to_string() };
    assert_eq!(shortcut_key_for(&combo("K")), Some("k".to_string()));
    assert_eq!(shortcut_key_for(&combo(" ")), Some(" ".to_string()));
    assert_eq!(shortcut_key_for(&combo("Space")), Some(" ".to_string()));
    assert_eq!(shortcut_key_for(&combo("F1")), None);
    let consecutive = Hotkey::Consecutive { key: " ".to_string(), count: 3 };
    assert_eq!(shortcut_key_for(&consecutive), None);
}
