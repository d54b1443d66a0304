use multipaste::mode::PasteMode;
use multipaste::prefs::{PreferenceChange, Preferences};
use multipaste::shortcuts::{resolved, ParsedShortcuts, ShortcutAction};
use multipaste::slots::{PasteSlot, SlotStore};

#[test]
fn defaults_follow_the_documented_values() {
    let p = Preferences::default();
    assert_eq!(p.shortcut_copy, "CommandOrControl+Alt+C");
    assert_eq!(p.shortcut_paste, "CommandOrControl+Alt+V");
    assert_eq!(p.shortcut_range_start, "CommandOrControl+Alt+BracketLeft");
    assert_eq!(p.shortcut_range_end, "CommandOrControl+Alt+BracketRight");
    assert_eq!(p.slot_capacity, 10);
    assert_eq!(p.default_paste_mode, "keep");
    assert!(p.sound_enabled);
}

#[test]
fn capacity_is_checked_and_set() {
    let mut p = Preferences::default();
    match p.apply_update("slotCapacity", "25").unwrap() {
        PreferenceChange::SlotCapacity(c) => assert_eq!(c, 25),
        other => panic!("unexpected change {other:?}"),
    }
    assert_eq!(p.slot_capacity, 25);
    assert_eq!(p.apply_update("slotCapacity", "0").unwrap_err(), "スロット上限は 1〜30 の範囲で指定してください。");
    assert_eq!(p.apply_update("slotCapacity", "31").unwrap_err(), "スロット上限は 1〜30 の範囲で指定してください。");
    assert_eq!(p.apply_update("slotCapacity", "ten").unwrap_err(), "スロット上限は数値で指定してください。");
    assert_eq!(p.slot_capacity, 25);
}

#[test]
fn paste_mode_setting_is_checked() {
    let mut p = Preferences::default();
    match p.apply_update("defaultPasteMode", "consume").unwrap() {
        PreferenceChange::PasteMode(m) => assert_eq!(m, PasteMode::Consume),
        other => panic!("unexpected change {other:?}"),
    }
    assert_eq!(p.default_paste_mode, "consume");
    assert_eq!(
        p.apply_update("defaultPasteMode", "keeps").unwrap_err(),
        "ペーストモードは consume か keep で指定してください。"
    );
}

#[test]
fn sound_setting_is_checked() {
    let mut p = Preferences::default();
    assert!(matches!(p.apply_update("soundEnabled", "false").unwrap(), PreferenceChange::Sound(false)));
    assert!(!p.sound_enabled);
    assert_eq!(p.apply_update("soundEnabled", "no").unwrap_err(), "効果音設定は true/false で指定してください。");
    assert!(!p.sound_enabled);
}

#[test]
fn unknown_key_is_refused() {
    let mut p = Preferences::default();
    assert_eq!(p.apply_update("colour", "red").unwrap_err(), "不明な設定キーです: colour");
}

#[test]
fn shortcut_setting_reports_old_and_new() {
    let mut p = Preferences::default();
    match p.apply_update("shortcutPaste", "Shift+Alt+P").unwrap() {
        PreferenceChange::Shortcut { old, new } => {
            assert_eq!(old, "CommandOrControl+Alt+V");
            assert_eq!(new, "Shift+Alt+P");
        }
        other => panic!("unexpected change {other:?}"),
    }
    assert_eq!(p.shortcut_paste, "Shift+Alt+P");
    assert_eq!(p.shortcut_copy, "CommandOrControl+Alt+C");
}

#[test]
fn invalid_shortcut_is_refused_with_the_parser_message() {
    let mut p = Preferences::default();
    let e = p.apply_update("shortcutCopy", "Ctrl+Nope").unwrap_err();
    assert!(e.starts_with("ショートカットが無効です: "));
    assert!(e.contains("NOPE") || e.contains("Nope"));
    assert_eq!(p.shortcut_copy, "CommandOrControl+Alt+C");
}

fn shortcuts_of(copy: &str, paste: &str) -> ParsedShortcuts {
    let mut p = Preferences::default();
    p.shortcut_copy = copy.to_string();
    p.shortcut_paste = paste.to_string();
    ParsedShortcuts::from_preferences(&p).unwrap()
}

#[test]
fn shortcut_texts_are_read_by_global_hotkey() {
    let sc = shortcuts_of("Shift+KeyA", "shift+a");
    assert_eq!(sc.copy, sc.paste);
    let sc = shortcuts_of("Shift+KeyA", "Alt+KeyA");
    assert_ne!(sc.copy, sc.paste);
    let mut p = Preferences::default();
    assert!(p.apply_update("shortcutRangeEnd", "Shift++A").is_err());
    assert!(p.apply_update("shortcutRangeEnd", "").is_err());
    assert!(p.apply_update("shortcutRangeEnd", "Alt+F7").is_ok());
}

#[test]
fn shortcuts_resolve_and_dispatch() {
    let defaults = ParsedShortcuts::from_preferences(&Preferences::default()).unwrap();
    let sc = shortcuts_of("not a key", "CommandOrControl+Alt+V");
    assert_eq!(sc, defaults);
    assert_eq!(sc.action_for(sc.paste), ShortcutAction::ShowPicker);
    assert_eq!(sc.action_for(sc.range_start), ShortcutAction::RangeStart);
    assert_eq!(sc.action_for(sc.range_end), ShortcutAction::RangeEnd);
    assert_eq!(sc.action_for(sc.copy), ShortcutAction::Capture);
    assert_eq!(sc.action_for(u32::MAX), ShortcutAction::Unknown);
    let all = [sc.copy, sc.paste, sc.range_start, sc.range_end];
    for i in 0..4 {
        for j in 0..4 {
            assert_eq!(i == j, all[i] == all[j]);
        }
    }
}

#[test]
fn refresh_keeps_shortcuts_that_do_not_parse() {
    let mut sc = ParsedShortcuts::from_preferences(&Preferences::default()).unwrap();
    let before = sc;
    let mut q = Preferences::default();
    q.shortcut_copy = "Alt+F6".to_string();
    q.shortcut_paste = "bad+".to_string();
    sc.refresh(&q);
    assert_eq!(sc.copy, shortcuts_of("Alt+F6", "Alt+F8").copy);
    assert_ne!(sc.copy, before.copy);
    assert_eq!(sc.paste, before.paste);
    assert_eq!(sc.range_start, before.range_start);
}

#[test]
fn store_follows_preference_changes() {
    let mk = |c: &str| PasteSlot {
        id: c.to_string(),
        title: c.to_string(),
        content: c.to_string(),
        created_at: "0".to_string(),
        source: "manual-copy".to_string(),
    };
    let mut p = Preferences::default();
    let mut store = SlotStore::new(vec![mk("a"), mk("b"), mk("c")], &p);
    let change = p.apply_update("slotCapacity", "2").unwrap();
    store.apply_preference_change(&change);
    assert_eq!(store.slots.len(), 2);
    assert_eq!(store.slots[1].content, "b");
    let change = p.apply_update("defaultPasteMode", "consume").unwrap();
    store.apply_preference_change(&change);
    assert_eq!(store.paste_mode, PasteMode::Consume);
    let change = p.apply_update("soundEnabled", "true").unwrap();
    store.apply_preference_change(&change);
    assert_eq!(store.slots.len(), 2);
}

#[test]
fn record_paste_mode_updates_the_default() {
    let mut p = Preferences::default();
    p.record_paste_mode(PasteMode::Consume);
    assert_eq!(p.default_paste_mode, "consume");
    let q = p.duplicate();
    assert_eq!(q.default_paste_mode, "consume");
}

#[test]
fn resolved_prefers_the_setting_over_the_default() {
    assert_eq!(resolved(Ok(5), Ok(9)), Some(5));
    assert_eq!(resolved(Err("bad".to_string()), Ok(9)), Some(9));
    assert_eq!(resolved(Err("bad".to_string()), Err("worse".to_string())), None);
}

#[test]
fn startup_shortcuts_use_the_settings_first() {
    let defaults = ParsedShortcuts::from_preferences(&Preferences::default()).unwrap();
    let sc = shortcuts_of("Alt+F6", "CommandOrControl+Alt+V");
    assert_ne!(sc.copy, defaults.copy);
    assert_eq!(sc.copy, shortcuts_of("Alt+F6", "Alt+F9").copy);
    assert_eq!(sc.paste, defaults.paste);
}
