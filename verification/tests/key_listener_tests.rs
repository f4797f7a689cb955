use quicktrans::config::Hotkey;
use quicktrans::hotkey::HotkeyManager;
use quicktrans::key_listener::{ConsecutiveKeyConfig, KeyGestureDetector};

#[test]
fn test_consecutive_key_config_default() {
    let config = ConsecutiveKeyConfig::default();
    assert_eq!(config.key, " ");
    assert_eq!(config.count, 3);
    assert_eq!(config.interval_ms, 300);
}

#[test]
fn test_consecutive_detection() {
    let mut manager = HotkeyManager::new();
    let target = Hotkey::Consecutive { key: " ".to_string(), count: 3 };

    assert!(!manager.check_consecutive(" ", 0, &target));
    assert!(!manager.check_consecutive(" ", 100, &target));
    assert!(manager.check_consecutive(" ", 200, &target));
}

// Scenario: three presses inside the window trigger on the third press.
#[test]
fn gesture_triggers_within_interval() {
    let mut d = KeyGestureDetector::new(ConsecutiveKeyConfig::default());
    assert!(!d.on_key_press(" ", 0));
    assert!(!d.on_key_press(" ", 120));
    assert!(d.on_key_press(" ", 200));
}

// Scenario: a 380 ms gap exceeds the 300 ms interval, so the run resets and
// no trigger fires.
#[test]
fn gesture_resets_after_long_gap() {
    let mut d = KeyGestureDetector::new(ConsecutiveKeyConfig::default());
    assert!(!d.on_key_press(" ", 0));
    assert!(!d.on_key_press(" ", 120));
    assert!(!d.on_key_press(" ", 500));
    // The press at 500 started a fresh run; two more quick presses finish it.
    assert!(!d.on_key_press(" ", 700));
    assert!(d.on_key_press(" ", 800));
}

#[test]
fn gesture_resets_on_other_key() {
    let mut d = KeyGestureDetector::new(ConsecutiveKeyConfig::default());
    assert!(!d.on_key_press(" ", 0));
    assert!(!d.on_key_press(" ", 100));
    assert!(!d.on_key_press("a", 150));
    assert!(!d.on_key_press(" ", 200));
    assert!(!d.on_key_press(" ", 250));
    assert!(d.on_key_press(" ", 300));
}

// The gesture is one-shot: after a trigger the run starts over.
#[test]
fn gesture_is_one_shot() {
    let mut d = KeyGestureDetector::new(ConsecutiveKeyConfig::default());
    assert!(!d.on_key_press(" ", 0));
    assert!(!d.on_key_press(" ", 100));
    assert!(d.on_key_press(" ", 200));
    assert!(!d.on_key_press(" ", 250));
    assert!(!d.on_key_press(" ", 300));
    assert!(d.on_key_press(" ", 350));
}

#[test]
fn manager_ignores_combination_targets() {
    let mut manager = HotkeyManager::new();
    let target = Hotkey::Combination { modifiers: vec!["Meta".to_string()], key: "t".to_string() };
    assert!(!manager.check_consecutive("t", 0, &target));
    assert!(!manager.check_consecutive("t", 10, &target));
}

#[test]
fn manager_reset_clears_run() {
    let mut manager = HotkeyManager::new();
    let target = Hotkey::Consecutive { key: " ".to_string(), count: 3 };
    assert!(!manager.check_consecutive(" ", 0, &target));
    assert!(!manager.check_consecutive(" ", 50, &target));
    manager.reset_consecutive();
    assert!(!manager.check_consecutive(" ", 100, &target));
    assert!(!manager.check_consecutive(" ", 150, &target));
    assert!(manager.check_consecutive(" ", 200, &target));
}
