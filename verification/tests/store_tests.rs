use multipaste::mode::PasteMode;
use multipaste::prefs::Preferences;
use multipaste::slots::{CaptureOrigin, PasteSlot, SlotStore};

fn slot(content: &str) -> PasteSlot {
    PasteSlot {
        id: format!("slot-{content}"),
        title: content.to_string(),
        content: content.to_string(),
        created_at: "0".to_string(),
        source: "manual-copy".to_string(),
    }
}

fn store_with(contents: &[&str], mode: PasteMode) -> SlotStore {
    let mut store = SlotStore::new(contents.iter().map(|c| slot(c)).collect(), &Preferences::default());
    store.paste_mode = mode;
    store
}

fn contents(store: &SlotStore) -> Vec<String> {
    store.slots.iter().map(|s| s.content.clone()).collect()
}

#[test]
fn new_store_waits_in_the_saved_default_mode() {
    let mut prefs = Preferences::default();
    let store = SlotStore::new(Vec::new(), &prefs);
    assert_eq!(store.paste_mode, PasteMode::Keep);
    assert_eq!(store.last_action, "待機中");
    prefs.default_paste_mode = "consume".to_string();
    assert_eq!(SlotStore::new(Vec::new(), &prefs).paste_mode, PasteMode::Consume);
    prefs.default_paste_mode = "other".to_string();
    assert_eq!(SlotStore::new(Vec::new(), &prefs).paste_mode, PasteMode::Consume);
}

#[test]
fn capture_puts_newest_first_and_rotates_out_the_oldest() {
    let mut store = store_with(&["b", "a"], PasteMode::Consume);
    let r = store
        .store_capture("  new text  \n\n", 3, 100, 101, CaptureOrigin::Selection)
        .unwrap();
    assert!(r.ok);
    assert_eq!(r.slot_count, 3);
    assert_eq!(r.message, "選択テキストをスロットへ保存しました。件数: 3");
    assert_eq!(store.last_action, r.message);
    assert_eq!(contents(&store), vec!["  new text", "b", "a"]);
    let first = &store.slots[0];
    assert_eq!(first.id, "slot-100");
    assert_eq!(first.created_at, "101");
    assert_eq!(first.title, "new text");
    assert_eq!(first.source, "manual-copy");

    let r = store.store_capture("x", 3, 5, 5, CaptureOrigin::MouseDrag).unwrap();
    assert_eq!(r.message, "マウス選択テキストを保存しました。件数: 3");
    assert_eq!(contents(&store), vec!["x", "  new text", "b"]);
}

#[test]
fn capture_of_blank_text_changes_nothing() {
    let mut store = store_with(&["a"], PasteMode::Keep);
    let e = store.store_capture(" \n\t", 10, 1, 1, CaptureOrigin::Selection).unwrap_err();
    assert_eq!(e, "選択中のテキストを取得できませんでした。");
    let e = store.store_capture("", 10, 1, 1, CaptureOrigin::MouseDrag).unwrap_err();
    assert_eq!(e, "選択範囲のテキストを取得できませんでした。");
    assert_eq!(contents(&store), vec!["a"]);
    assert_eq!(store.last_action, "待機中");
}

#[test]
fn capture_at_current_time_stamps_the_slot() {
    let mut store = store_with(&[], PasteMode::Keep);
    let r = store.capture("hello", 10, CaptureOrigin::Selection).unwrap();
    assert_eq!(r.slot_count, 1);
    assert!(store.slots[0].id.starts_with("slot-"));
    assert!(store.slots[0].created_at.parse::<u64>().unwrap() > 1_600_000_000);
}

#[test]
fn paste_next_consumes_in_consume_mode() {
    let mut store = store_with(&["first", "second"], PasteMode::Consume);
    let (s, count) = store.take_next_for_paste().unwrap();
    assert_eq!(s.content, "first");
    assert_eq!(count, 1);
    assert_eq!(contents(&store), vec!["second"]);
    assert_eq!(store.last_action, "スロット「first」を consume モードでペーストしました。");
}

#[test]
fn paste_next_keeps_in_keep_mode() {
    let mut store = store_with(&["first", "second"], PasteMode::Keep);
    let (s, count) = store.take_next_for_paste().unwrap();
    assert_eq!(s.content, "first");
    assert_eq!(count, 2);
    assert_eq!(contents(&store), vec!["first", "second"]);
    assert_eq!(store.last_action, "スロット「first」を keep モードでペーストしました。");
}

#[test]
fn paste_next_from_empty_store_fails() {
    let mut store = store_with(&[], PasteMode::Consume);
    assert_eq!(store.take_next_for_paste().unwrap_err(), "ペースト対象のスロットがありません。");
}

#[test]
fn capture_then_paste_gives_the_captured_text_back() {
    let mut store = store_with(&["old"], PasteMode::Consume);
    store.store_capture("fresh \n", 10, 1, 1, CaptureOrigin::Selection).unwrap();
    let (s, _) = store.take_next_for_paste().unwrap();
    assert_eq!(s.content, "fresh");
    assert_eq!(contents(&store), vec!["old"]);
}

#[test]
fn paste_by_index_takes_the_picker_app() {
    let mut store = store_with(&["a", "b", "c"], PasteMode::Consume);
    store.pre_picker_app = Some("Notes".to_string());
    let (s, count, app) = store.take_for_paste_at(1).unwrap();
    assert_eq!(s.content, "b");
    assert_eq!(count, 2);
    assert_eq!(app.as_deref(), Some("Notes"));
    assert_eq!(store.pre_picker_app, None);
    assert_eq!(contents(&store), vec!["a", "c"]);
    assert_eq!(store.last_action, "スロット「b」をペーストしました。");
}

#[test]
fn paste_by_index_past_the_end_fails() {
    let mut store = store_with(&["a"], PasteMode::Keep);
    assert_eq!(store.take_for_paste_at(4).unwrap_err(), "スロット 5 が見つかりません。");
    assert_eq!(contents(&store), vec!["a"]);
}

#[test]
fn delete_removes_one_slot() {
    let mut store = store_with(&["a", "b", "c"], PasteMode::Keep);
    let r = store.delete_slot(0).unwrap();
    assert_eq!(r.message, "スロット 1 を削除しました。");
    assert_eq!(r.slot_count, 2);
    assert_eq!(contents(&store), vec!["b", "c"]);
    assert_eq!(store.delete_slot(2).unwrap_err(), "スロット 3 が見つかりません。");
}

#[test]
fn clear_removes_every_slot() {
    let mut store = store_with(&["a", "b"], PasteMode::Keep);
    let r = store.clear_slots();
    assert!(r.ok);
    assert_eq!(r.slot_count, 0);
    assert_eq!(r.message, "すべてのスロットを消去しました。");
    assert!(store.slots.is_empty());
}

#[test]
fn set_paste_mode_accepts_only_known_names() {
    let mut store = store_with(&["a"], PasteMode::Consume);
    let r = store.set_paste_mode("keep").unwrap();
    assert_eq!(store.paste_mode, PasteMode::Keep);
    assert_eq!(r.message, "ペーストモードを 保持 に変更しました。");
    assert_eq!(r.slot_count, 1);
    let r = store.set_paste_mode("consume").unwrap();
    assert_eq!(r.message, "ペーストモードを 消費 に変更しました。");
    assert_eq!(store.set_paste_mode("Keep").unwrap_err(), "未対応のペーストモードです。");
    assert_eq!(store.paste_mode, PasteMode::Consume);
}

#[test]
fn enforce_capacity_keeps_the_newest() {
    let mut store = store_with(&["a", "b", "c", "d"], PasteMode::Keep);
    store.enforce_capacity(2);
    assert_eq!(contents(&store), vec!["a", "b"]);
    store.enforce_capacity(5);
    assert_eq!(contents(&store), vec!["a", "b"]);
}

#[test]
fn picker_needs_a_slot() {
    let mut store = store_with(&[], PasteMode::Keep);
    let a = store.open_picker(Some("Mail".to_string())).unwrap_err();
    assert!(!a.ok);
    assert_eq!(a.message, "ペースト対象のスロットがありません。");
    assert_eq!(a.slot_count, 0);
    assert_eq!(store.pre_picker_app, None);

    let mut store = store_with(&["a", "b"], PasteMode::Keep);
    let shown = store.open_picker(Some("Mail".to_string())).unwrap();
    assert_eq!(shown.len(), 2);
    assert_eq!(store.pre_picker_app.as_deref(), Some("Mail"));
}

#[test]
fn overview_reports_the_state() {
    let mut store = store_with(&["a", "b"], PasteMode::Consume);
    store.clear_slots();
    let prefs = Preferences::default();
    let o = store.overview(&prefs);
    assert_eq!(o.slot_capacity, 10);
    assert_eq!(o.paste_mode, "consume");
    assert_eq!(o.stored_slot_count, 0);
    assert_eq!(o.last_action, "すべてのスロットを消去しました。");
    assert_eq!(o.retention_strategy, "FIFO ローテーション");
    assert!(o.poc.clipboard_read && o.poc.global_key_listening && o.poc.paste_simulation);
}

#[test]
fn slot_previews_copy_every_slot() {
    let store = store_with(&["a", "b"], PasteMode::Keep);
    let copies = store.slot_previews();
    assert_eq!(copies.iter().map(|s| s.content.as_str()).collect::<Vec<_>>(), vec!["a", "b"]);
}
