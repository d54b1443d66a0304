use multipaste::mode::PasteMode;
use multipaste::range::{
    cursor_range_end, missing_range_start, mouse_range_end_failure, range_start_failure,
    range_start_from_cursor, selection_outcome,
};
use multipaste::script::{
    activate_script, cursor_position_output, direct_capture_output, escape_quotes_text,
    frontmost_app_output, script_status, selection_range, selection_script, usable_direct_capture,
};
use multipaste::slots::{current_timestamp, pasted_text, ActionResult, RangeStart, SlotStore};
use multipaste::tray::TrayCommand;
use multipaste::prefs::Preferences;

#[test]
fn paste_mode_names_and_toggle() {
    assert_eq!(PasteMode::Consume.as_str(), "consume");
    assert_eq!(PasteMode::Keep.as_str(), "keep");
    assert_eq!(PasteMode::Consume.toggle(), PasteMode::Keep);
    assert_eq!(PasteMode::Keep.toggle().toggle(), PasteMode::Keep);
    for m in [PasteMode::Consume, PasteMode::Keep] {
        assert_eq!(PasteMode::from_name(m.as_str()), Some(m));
    }
    assert_eq!(PasteMode::from_name("KEEP"), None);
    assert_eq!(PasteMode::Keep.label(), "保持");
}

#[test]
fn tray_ids_round_trip() {
    let all = [
        TrayCommand::ShowApp,
        TrayCommand::Preferences,
        TrayCommand::Capture,
        TrayCommand::Paste,
        TrayCommand::ToggleMode,
        TrayCommand::CheckUpdate,
        TrayCommand::Quit,
    ];
    for c in all {
        assert_eq!(TrayCommand::from_menu_id(c.menu_id()), Some(c));
    }
    assert_eq!(TrayCommand::from_menu_id("toggle-mode"), Some(TrayCommand::ToggleMode));
    assert_eq!(TrayCommand::from_menu_id("nothing"), None);
}

#[test]
fn activate_script_escapes_quotes() {
    assert_eq!(escape_quotes_text(r#"My "App""#), r#"My \"App\""#);
    assert_eq!(
        activate_script("Notes"),
        "tell application \"Notes\" to activate\ndelay 0.15\ntell application \"System Events\"\n    keystroke \"v\" using command down\nend tell"
    );
}

#[test]
fn selection_range_orders_the_ends() {
    assert_eq!(selection_range(3, 10), (3, 7));
    assert_eq!(selection_range(10, 3), (3, 7));
    let s = selection_script(12, 5);
    assert!(s.contains("{location:5, length:7}"));
    assert!(s.starts_with("tell application \"System Events\"\n"));
    assert!(s.ends_with("end tell"));
}

#[test]
fn script_outputs_are_read() {
    assert_eq!(script_status(true, "ignored", "x: "), Ok(()));
    assert_eq!(script_status(false, " boom \n", "失敗: "), Err("失敗: boom".to_string()));
    assert_eq!(direct_capture_output(true, " text \n", ""), Ok("text".to_string()));
    assert_eq!(direct_capture_output(false, "", "  "), Err("直接取得スクリプトが失敗しました。".to_string()));
    assert_eq!(direct_capture_output(false, "", "denied\n"), Err("直接取得に失敗しました: denied".to_string()));
    assert_eq!(frontmost_app_output(true, "Safari\n"), Some("Safari".to_string()));
    assert_eq!(frontmost_app_output(true, " \n"), None);
    assert_eq!(frontmost_app_output(false, "Safari"), None);
    assert_eq!(cursor_position_output(" 42\n"), Ok(42));
    assert_eq!(cursor_position_output("-1"), Ok(-1));
    assert_eq!(cursor_position_output("abc"), Err("カーソル位置の解析に失敗しました。".to_string()));
    assert_eq!(usable_direct_capture(&Ok("  picked ".to_string())), Some("picked".to_string()));
    assert_eq!(usable_direct_capture(&Ok("  ".to_string())), None);
    assert_eq!(usable_direct_capture(&Err("e".to_string())), None);
}

#[test]
fn range_start_and_end_decisions() {
    assert_eq!(range_start_from_cursor(&Ok(5)), Some(RangeStart::AxCursor(5)));
    assert_eq!(range_start_from_cursor(&Ok(-1)), None);
    assert_eq!(range_start_from_cursor(&Err("x".to_string())), None);
    let f = range_start_failure("no mouse", 3);
    assert!(!f.ok);
    assert_eq!(f.message, "開始位置の取得に失敗しました: no mouse");
    assert_eq!(f.slot_count, 3);
    assert_eq!(missing_range_start(1).message, "先に ⌘⌥[ で開始位置を指定してください。");
    assert_eq!(cursor_range_end(4, &Ok(9), 0).unwrap(), 9);
    assert_eq!(cursor_range_end(4, &Ok(4), 0).unwrap_err().message, "開始位置と終了位置が同じです。");
    assert_eq!(cursor_range_end(4, &Ok(-1), 0).unwrap_err().message, "終了位置の取得に失敗しました。");
    assert_eq!(cursor_range_end(4, &Err("e".to_string()), 0).unwrap_err().message, "終了位置の取得に失敗しました。");
    let ok = selection_outcome(9, 4, Ok(()), 2);
    assert!(ok.ok);
    assert_eq!(ok.message, "5 文字を選択しました。⌘⌥C で保存できます。");
    let bad = selection_outcome(4, 9, Err("テキスト選択に失敗しました: x".to_string()), 2);
    assert!(!bad.ok);
    assert_eq!(bad.message, "テキスト選択に失敗しました: x");
    assert_eq!(mouse_range_end_failure("e", 0).message, "終了位置の取得に失敗しました: e");
}

#[test]
fn range_start_is_recorded_and_taken() {
    let mut store = SlotStore::new(Vec::new(), &Preferences::default());
    let r = store.record_range_start(RangeStart::MousePos(10, 20));
    assert!(r.ok);
    assert_eq!(r.message, "開始位置を記録しました（マウスモード）。終了位置へ移動して ⌘⌥] を押してください。");
    let r = store.record_range_start(RangeStart::AxCursor(3));
    assert_eq!(r.message, "開始位置を記録しました（テキストモード）。終了位置へ移動して ⌘⌥] を押してください。");
    assert_eq!(store.take_range_start(), Some(RangeStart::AxCursor(3)));
    assert_eq!(store.take_range_start(), None);
}

#[test]
fn sounds_and_paste_message() {
    assert_eq!(ActionResult { ok: true, message: String::new(), slot_count: 0 }.sound_name(), "Tink");
    assert_eq!(ActionResult::failure("x".to_string(), 0).sound_name(), "Basso");
    assert_eq!(pasted_text("memo"), "「memo」をペーストしました。");
}

#[test]
fn timestamp_reads_the_clock() {
    assert!(current_timestamp() > 1_600_000_000);
}

#[test]
fn range_start_report_uses_the_given_count() {
    let r = multipaste::range::range_start_recorded(RangeStart::AxCursor(0), 4);
    assert!(r.ok);
    assert_eq!(r.slot_count, 4);
    assert_eq!(r.message, "開始位置を記録しました（テキストモード）。終了位置へ移動して ⌘⌥] を押してください。");
}
