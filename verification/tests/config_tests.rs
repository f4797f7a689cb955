use quicktrans::config::{Hotkey, HotkeyConfig, LanguageConfig};

fn combo(mods: &[&str], key: &str) -> Hotkey {
    Hotkey::Combination {
        modifiers: mods.iter().map(|m| m.to_string()).collect(),
        key: key.to_string(),
    }
}

#[test]
fn test_hotkey_format() {
    let hotkey = combo(&["Meta", "Shift"], "t");
    assert_eq!(hotkey.format(), "Cmd + Shift + T");

    let hotkey = Hotkey::Consecutive { key: " ".to_string(), count: 3 };
    assert_eq!(hotkey.format(), "SPACE × 3");
}

#[test]
fn test_hotkey_validation() {
    let valid = combo(&["Meta"], "t");
    assert!(valid.validate_for_selected_mode());

    let invalid = combo(&[], "t");
    assert!(!invalid.validate_for_selected_mode());

    let consecutive = Hotkey::Consecutive { key: " ".to_string(), count: 3 };
    assert!(!consecutive.validate_for_selected_mode());
}

#[test]
fn test_hotkey_format_single_modifier() {
    assert_eq!(combo(&["Control"], "k").format(), "Ctrl + K");
    assert_eq!(combo(&["Alt"], "j").format(), "Option + J");
    assert_eq!(combo(&["Fn"], "x").format(), "Fn + X");
}

#[test]
fn test_hotkey_config_default() {
    let cfg = HotkeyConfig::default();
    match cfg.selected_mode {
        Hotkey::Combination { modifiers, key } => {
            assert_eq!(modifiers, vec!["Control".to_string()]);
            assert_eq!(key, "k");
        }
        _ => panic!("selected mode should be a combination"),
    }
    match cfg.full_mode {
        Hotkey::Combination { modifiers, key } => {
            assert_eq!(modifiers, vec!["Control".to_string()]);
            assert_eq!(key, "j");
        }
        _ => panic!("full mode should be a combination"),
    }
}

#[test]
fn test_language_config_default() {
    let cfg = LanguageConfig::default();
    assert_eq!(cfg.current_target, "en-US");
    assert_eq!(cfg.favorite_languages.len(), 6);
    assert_eq!(cfg.favorite_languages[0].code, "en-US");
    assert_eq!(cfg.favorite_languages[0].name, "English");
    assert_eq!(cfg.favorite_languages[1].code, "zh-CN");
    assert_eq!(cfg.favorite_languages[1].name, "简体中文");
    assert_eq!(cfg.favorite_languages[5].code, "es-ES");
}
