use ghostwriter_lib::config::{HotkeyConfig, Platform};
use ghostwriter_lib::hotkey::{cleanup_plan, hotkey_config_to_shortcut, ClipboardGuard, ProcessingFlag};

#[test]
fn test_default_hotkey_produces_correct_shortcut() {
    let h = HotkeyConfig::default_for(Platform::Linux);
    let shortcut = hotkey_config_to_shortcut(&h);
    assert!(!shortcut.is_empty());
    assert!(shortcut.contains('+'));
    let parts: Vec<&str> = shortcut.split('+').collect();
    assert!(parts.len() >= 2);
    assert_eq!(parts[parts.len() - 1], "r");
    assert_eq!(parts[0], "ctrl");
}

#[test]
fn default_macos_hotkey_uses_cmd() {
    let h = HotkeyConfig::default_for(Platform::MacOs);
    assert_eq!(hotkey_config_to_shortcut(&h), "cmd+r");
}

#[test]
fn test_single_modifier_shortcut() {
    let h = HotkeyConfig {
        modifiers: vec!["alt".to_string()],
        key: "F4".to_string(),
    };
    assert_eq!(hotkey_config_to_shortcut(&h), "alt+F4");
}

#[test]
fn test_multiple_modifiers_shortcut() {
    let h = HotkeyConfig {
        modifiers: vec!["ctrl".to_string(), "shift".to_string(), "alt".to_string()],
        key: "x".to_string(),
    };
    assert_eq!(hotkey_config_to_shortcut(&h), "ctrl+shift+alt+x");
}

#[test]
fn test_shortcut_key_is_last_segment() {
    let h = HotkeyConfig {
        modifiers: vec!["cmd".to_string(), "option".to_string()],
        key: "escape".to_string(),
    };
    let shortcut = hotkey_config_to_shortcut(&h);
    let parts: Vec<&str> = shortcut.split('+').collect();
    assert_eq!(parts.last().unwrap(), &"escape");
}

#[test]
fn shortcut_without_modifiers_starts_with_plus() {
    let h = HotkeyConfig {
        modifiers: vec![],
        key: "q".to_string(),
    };
    assert_eq!(hotkey_config_to_shortcut(&h), "+q");
}

#[test]
fn test_processing_flag_default_is_false() {
    assert!(!ProcessingFlag::new().is_busy());
}

#[test]
fn processing_flag_allows_one_run_at_a_time() {
    let mut flag = ProcessingFlag::new();
    assert!(!flag.try_start(false));
    assert!(!flag.is_busy());
    assert!(flag.try_start(true));
    assert!(!flag.try_start(true));
    flag.finish();
    assert!(flag.try_start(true));
}

#[test]
fn cleanup_plan_empty_no_paste_is_noop() {
    assert_eq!(cleanup_plan(true, false), (false, false));
}

#[test]
fn cleanup_plan_empty_with_paste_sleeps_but_skips_write() {
    assert_eq!(cleanup_plan(true, true), (true, false));
}

#[test]
fn cleanup_plan_nonempty_no_paste_restores_immediately() {
    assert_eq!(cleanup_plan(false, false), (false, true));
}

#[test]
fn cleanup_plan_nonempty_with_paste_restores_after_sleep() {
    assert_eq!(cleanup_plan(false, true), (true, true));
}

#[test]
fn clipboard_guard_new_starts_with_paste_not_dispatched() {
    let guard = ClipboardGuard::new(String::new());
    assert!(!guard.paste_dispatched);
    assert_eq!(guard.saved, "");
}

#[test]
fn clipboard_guard_mark_paste_dispatched_flips_flag() {
    let mut guard = ClipboardGuard::new(String::new());
    assert!(!guard.paste_dispatched);
    guard.mark_paste_dispatched();
    assert!(guard.paste_dispatched);
}

#[test]
fn clipboard_guard_plan_follows_state() {
    let mut guard = ClipboardGuard::new("kept".to_string());
    assert_eq!(guard.plan(), (false, true));
    guard.mark_paste_dispatched();
    assert_eq!(guard.plan(), (true, true));
}
