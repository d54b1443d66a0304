use vstd::prelude::*;
use vstd::string::StringExecFns;

use crate::mode::{initial_mode, mode_label, mode_name, mode_named, PasteMode};
use crate::prefs::{ChangeView, PreferenceChange, Preferences};
use crate::text::{joined, build_slot_title, dec, decimal, normalize_whitespace, normalized, slot_title};

verus! {

/// One saved piece of text.
#[derive(Debug)]
pub struct PasteSlot {
    pub id: String,
    pub title: String,
    pub content: String,
    pub created_at: String,
    pub source: String,
}

/// A slot as plain values.
pub struct SlotView {
    pub id: Seq<char>,
    pub title: Seq<char>,
    pub content: Seq<char>,
    pub created_at: Seq<char>,
    pub source: Seq<char>,
}

impl View for PasteSlot {
    type V = SlotView;

    open spec fn view(&self) -> SlotView {
        SlotView {
            id: self.id@,
            title: self.title@,
            content: self.content@,
            created_at: self.created_at@,
            source: self.source@,
        }
    }
}

impl Clone for PasteSlot {
    fn clone(&self) -> (r: Self)
        ensures
            r@ == self@,
    {
        PasteSlot {
            id: self.id.clone(),
            title: self.title.clone(),
            content: self.content.clone(),
            created_at: self.created_at.clone(),
            source: self.source.clone(),
        }
    }
}

/// The outcome of a user action, as shown to the user.
#[derive(Debug)]
pub struct ActionResult {
    pub ok: bool,
    pub message: String,
    pub slot_count: usize,
}

/// The slots of `v`, each taken by its view.
pub open spec fn slot_views(v: Seq<PasteSlot>) -> Seq<SlotView> {
    v.map_values(|s: PasteSlot| s@)
}

/// A copy of every slot of `v`, in order.
pub fn copy_slots(v: &Vec<PasteSlot>) -> (r: Vec<PasteSlot>)
    ensures
        slot_views(r@) == slot_views(v@),
{
    let mut r: Vec<PasteSlot> = Vec::new();
    let mut i: usize = 0;
    while i < v.len()
        invariant
            i <= v.len(),
            r.len() == i,
            forall|k: int| 0 <= k < i ==> (#[trigger] r@[k])@ == v@[k]@,
        decreases v.len() - i,
    {
        let c = v[i].clone();
        r.push(c);
        i = i + 1;
    }
    assert(slot_views(r@) =~= slot_views(v@));
    r
}


/// Where a range selection started: a text cursor position (a character
/// index, through the accessibility interface) or a mouse position in screen
/// pixels, for applications without accessibility support.
#[derive(Debug, Clone, Copy, PartialEq, Eq, Structural)]
pub enum RangeStart {
    AxCursor(i64),
    MousePos(i32, i32),
}

/// How a captured text reached the store.
#[derive(Debug, Clone, Copy, PartialEq, Eq, Structural)]
pub enum CaptureOrigin {
    /// The current selection, copied by the capture shortcut or command.
    Selection,
    /// A range selected by dragging the mouse between two recorded points.
    MouseDrag,
}

/// The slots and the running state around them.
#[derive(Debug)]
pub struct SlotStore {
    /// Newest first.
    pub slots: Vec<PasteSlot>,
    pub last_action: String,
    pub paste_mode: PasteMode,
    /// The application that had the focus when the picker opened.
    pub pre_picker_app: Option<String>,
    /// The start of a range selection in progress.
    pub range_select_start: Option<RangeStart>,
}

/// The store as plain values.
pub struct StoreView {
    pub slots: Seq<SlotView>,
    pub last_action: Seq<char>,
    pub paste_mode: PasteMode,
    pub pre_picker_app: Option<Seq<char>>,
    pub range_select_start: Option<RangeStart>,
}

impl View for SlotStore {
    type V = StoreView;

    open spec fn view(&self) -> StoreView {
        StoreView {
            slots: slot_views(self.slots@),
            last_action: self.last_action@,
            paste_mode: self.paste_mode,
            pre_picker_app: match self.pre_picker_app {
                Some(a) => Some(a@),
                None => None,
            },
            range_select_start: self.range_select_start,
        }
    }
}

/// The slots after a new slot arrives: it goes first, and the oldest slots
/// beyond `capacity` are dropped.
pub open spec fn rotated(slots: Seq<SlotView>, new: SlotView, capacity: nat) -> Seq<SlotView> {
    let all = seq![new] + slots;
    if all.len() > capacity {
        all.take(capacity as int)
    } else {
        all
    }
}

/// The slot made from captured `content` at the given times (seconds since
/// the Unix epoch).
pub open spec fn captured_slot(content: Seq<char>, id_time: u64, created_time: u64) -> SlotView {
    SlotView {
        id: "slot-"@ + dec(id_time as nat),
        title: slot_title(content),
        content: content,
        created_at: dec(created_time as nat),
        source: "manual-copy"@,
    }
}

/// The message when a capture found no text.
pub open spec fn empty_capture_message(origin: CaptureOrigin) -> Seq<char> {
    match origin {
        CaptureOrigin::Selection => "選択中のテキストを取得できませんでした。"@,
        CaptureOrigin::MouseDrag => "選択範囲のテキストを取得できませんでした。"@,
    }
}

/// The message after a capture, followed by the number of slots.
pub open spec fn saved_message_prefix(origin: CaptureOrigin) -> Seq<char> {
    match origin {
        CaptureOrigin::Selection => "選択テキストをスロットへ保存しました。件数: "@,
        CaptureOrigin::MouseDrag => "マウス選択テキストを保存しました。件数: "@,
    }
}

/// Reads the clock: whole seconds since the Unix epoch (std's
/// `SystemTime::now` and `duration_since`), or 0 when the clock reads earlier
/// than the epoch. Nothing is stated of the value: it is the time.
#[verifier::external_body]
pub fn current_timestamp() -> u64 {
    match std::time::SystemTime::now().duration_since(std::time::UNIX_EPOCH) {
        Ok(elapsed) => elapsed.as_secs(),
        Err(_) => 0,
    }
}

fn empty_capture_text(origin: CaptureOrigin) -> (r: String)
    ensures
        r@ == empty_capture_message(origin),
{
    match origin {
        CaptureOrigin::Selection => String::from_str("選択中のテキストを取得できませんでした。"),
        CaptureOrigin::MouseDrag => String::from_str("選択範囲のテキストを取得できませんでした。"),
    }
}

fn saved_text_prefix(origin: CaptureOrigin) -> (r: &'static str)
    ensures
        r@ == saved_message_prefix(origin),
{
    match origin {
        CaptureOrigin::Selection => "選択テキストをスロットへ保存しました。件数: ",
        CaptureOrigin::MouseDrag => "マウス選択テキストを保存しました。件数: ",
    }
}

impl SlotStore {
    /// A store holding `slots`, waiting, in the mode that the saved default
    /// names (`keep` gives `Keep`, anything else `Consume`).
    pub fn new(slots: Vec<PasteSlot>, prefs: &Preferences) -> (r: SlotStore)
        ensures
            r@ == (StoreView {
                slots: slot_views(slots@),
                last_action: "待機中"@,
                paste_mode: initial_mode(prefs.default_paste_mode@),
                pre_picker_app: None,
                range_select_start: None,
            }),
    {
        SlotStore {
            slots,
            last_action: String::from_str("待機中"),
            paste_mode: PasteMode::initial(prefs.default_paste_mode.as_str()),
            pre_picker_app: None,
            range_select_start: None,
        }
    }

    /// Saves captured text as the newest slot, stamped with the given times.
    /// The text is normalised first; when nothing is left the store does not
    /// change and the message says that no text was found. Otherwise the
    /// slots beyond `capacity` are dropped, oldest first.
    pub fn store_capture(
        &mut self,
        raw: &str,
        capacity: usize,
        id_time: u64,
        created_time: u64,
        origin: CaptureOrigin,
    ) -> (r: Result<ActionResult, String>)
        ensures
            normalized(raw@).len() == 0 ==> {
                &&& r matches Err(e) && e@ == empty_capture_message(origin)
                &&& final(self)@ == old(self)@
            },
            normalized(raw@).len() > 0 ==> {
                let slots = rotated(
                    old(self)@.slots,
                    captured_slot(normalized(raw@), id_time, created_time),
                    capacity as nat,
                );
                let message = saved_message_prefix(origin) + dec(slots.len());
                &&& final(self)@ == (StoreView { slots, last_action: message, ..old(self)@ })
                &&& r matches Ok(a) && a.ok && a.message@ == message && a.slot_count == slots.len()
            },
    {
        let content = normalize_whitespace(raw);
        if content.as_str().is_empty() {
            return Err(empty_capture_text(origin));
        }
        let slot = PasteSlot {
            id: joined("slot-", decimal(id_time as u128).as_str()),
            title: build_slot_title(content.as_str()),
            content,
            created_at: decimal(created_time as u128),
            source: String::from_str("manual-copy"),
        };
        let ghost before = slot_views(self.slots@);
        let ghost new_view = slot@;
        self.slots.insert(0, slot);
        assert(slot_views(self.slots@) =~= seq![new_view] + before);
        if self.slots.len() > capacity {
            self.slots.truncate(capacity);
        }
        proof {
            let all = seq![new_view] + before;
            if all.len() > capacity {
                assert(slot_views(self.slots@) =~= all.take(capacity as int));
            }
        }
        let count = self.slots.len();
        let message = joined(saved_text_prefix(origin), decimal(count as u128).as_str());
        self.last_action = message.clone();
        Ok(ActionResult { ok: true, message, slot_count: count })
    }

    /// Captures text at the current time (see `store_capture`): the slot's id
    /// and creation time are written from two readings of the clock
    /// (`current_timestamp`) made during the call.
    pub fn capture(&mut self, raw: &str, capacity: usize, origin: CaptureOrigin) -> (r: Result<
        ActionResult,
        String,
    >)
        ensures
            normalized(raw@).len() == 0 ==> {
                &&& r matches Err(e) && e@ == empty_capture_message(origin)
                &&& final(self)@ == old(self)@
            },
            normalized(raw@).len() > 0 ==> exists|id_time: u64, created_time: u64|
                {
                    let slots = rotated(
                        old(self)@.slots,
                        #[trigger] captured_slot(normalized(raw@), id_time, created_time),
                        capacity as nat,
                    );
                    let message = saved_message_prefix(origin) + dec(slots.len());
                    &&& call_ensures(current_timestamp, (), id_time)
                    &&& call_ensures(current_timestamp, (), created_time)
                    &&& final(self)@ == (StoreView { slots, last_action: message, ..old(self)@ })
                    &&& r matches Ok(a) && a.ok && a.message@ == message && a.slot_count
                        == slots.len()
                },
    {
        let id_time = current_timestamp();
        let created_time = current_timestamp();
        let r = self.store_capture(raw, capacity, id_time, created_time, origin);
        proof {
            if normalized(raw@).len() > 0 {
                let _ = captured_slot(normalized(raw@), id_time, created_time);
            }
        }
        r
    }
}


/// The slots after pasting the one at `index` in mode `mode`: consumed, or kept.
pub open spec fn after_paste(slots: Seq<SlotView>, index: int, mode: PasteMode) -> Seq<SlotView> {
    match mode {
        PasteMode::Consume => slots.remove(index),
        PasteMode::Keep => slots,
    }
}

/// The slots cut down to at most `capacity`, the newest kept.
pub open spec fn within_capacity(slots: Seq<SlotView>, capacity: nat) -> Seq<SlotView> {
    if slots.len() > capacity {
        slots.take(capacity as int)
    } else {
        slots
    }
}

/// "Slot n not found", with `n` counted from 1.
pub open spec fn slot_not_found_message(index: nat) -> Seq<char> {
    "スロット "@ + dec(index + 1) + " が見つかりません。"@
}

/// The message when there is nothing to paste.
pub open spec fn nothing_to_paste_message() -> Seq<char> {
    "ペースト対象のスロットがありません。"@
}

/// The message shown after a paste of the slot titled `title`.
pub open spec fn pasted_message(title: Seq<char>) -> Seq<char> {
    "「"@ + title + "」をペーストしました。"@
}

/// A failed action with the given message and slot count.
pub open spec fn is_failure(a: ActionResult, message: Seq<char>, slot_count: usize) -> bool {
    !a.ok && a.message@ == message && a.slot_count == slot_count
}

/// A successful action with the given message and slot count.
pub open spec fn is_success(a: ActionResult, message: Seq<char>, slot_count: usize) -> bool {
    a.ok && a.message@ == message && a.slot_count == slot_count
}

impl ActionResult {
    /// A failed action.
    pub fn failure(message: String, slot_count: usize) -> (r: ActionResult)
        ensures
            is_failure(r, message@, slot_count),
    {
        ActionResult { ok: false, message, slot_count }
    }

    /// The system sound that announces this outcome: `Tink` on success,
    /// `Basso` on failure.
    pub fn sound_name(&self) -> (r: &'static str)
        ensures
            r@ == (if self.ok {
                "Tink"@
            } else {
                "Basso"@
            }),
    {
        if self.ok {
            "Tink"
        } else {
            "Basso"
        }
    }
}

/// The message shown after a paste of the slot titled `title`.
pub fn pasted_text(title: &str) -> (r: String)
    ensures
        r@ == pasted_message(title@),
{
    let mut r = String::from_str("「");
    r.append(title);
    r.append("」をペーストしました。");
    r
}

fn slot_not_found_text(index: usize) -> (r: String)
    ensures
        r@ == slot_not_found_message(index as nat),
{
    let mut r = String::from_str("スロット ");
    r.append(decimal(index as u128 + 1).as_str());
    r.append(" が見つかりません。");
    r
}

impl SlotStore {
    /// A copy of every slot, newest first.
    pub fn slot_previews(&self) -> (r: Vec<PasteSlot>)
        ensures
            slot_views(r@) == self@.slots,
    {
        copy_slots(&self.slots)
    }

    /// Takes the newest slot for pasting: in `Consume` mode it leaves the
    /// store, in `Keep` mode it stays. Gives the slot and the number of slots
    /// left; with no slot nothing changes.
    pub fn take_next_for_paste(&mut self) -> (r: Result<(PasteSlot, usize), String>)
        ensures
            old(self)@.slots.len() == 0 ==> {
                &&& r matches Err(e) && e@ == nothing_to_paste_message()
                &&& final(self)@ == old(self)@
            },
            old(self)@.slots.len() > 0 ==> {
                let slot = old(self)@.slots[0];
                let slots = after_paste(old(self)@.slots, 0, old(self).paste_mode);
                let message = "スロット「"@ + slot.title + "」を "@ + mode_name(old(self).paste_mode)
                    + " モードでペーストしました。"@;
                &&& final(self)@ == (StoreView { slots, last_action: message, ..old(self)@ })
                &&& r matches Ok((s, count)) && s@ == slot && count == slots.len()
            },
    {
        if self.slots.len() == 0 {
            return Err(String::from_str("ペースト対象のスロットがありません。"));
        }
        let slot = self.slots[0].clone();
        let ghost before = slot_views(self.slots@);
        if self.paste_mode == PasteMode::Consume {
            self.slots.remove(0);
            assert(slot_views(self.slots@) =~= before.remove(0));
        }
        let mut message = String::from_str("スロット「");
        message.append(slot.title.as_str());
        message.append("」を ");
        message.append(self.paste_mode.as_str());
        message.append(" モードでペーストしました。");
        self.last_action = message;
        let count = self.slots.len();
        Ok((slot, count))
    }

    /// Takes the slot at `index` for pasting from the picker: in `Consume`
    /// mode it leaves the store. Gives the slot, the number of slots left, and
    /// the application that had the focus when the picker opened (which the
    /// store forgets). An index past the end changes nothing.
    pub fn take_for_paste_at(&mut self, index: usize) -> (r: Result<
        (PasteSlot, usize, Option<String>),
        String,
    >)
        ensures
            index >= old(self)@.slots.len() ==> {
                &&& r matches Err(e) && e@ == slot_not_found_message(index as nat)
                &&& final(self)@ == old(self)@
            },
            index < old(self)@.slots.len() ==> {
                let slot = old(self)@.slots[index as int];
                let slots = after_paste(old(self)@.slots, index as int, old(self).paste_mode);
                let message = "スロット「"@ + slot.title + "」をペーストしました。"@;
                &&& final(self)@ == (StoreView {
                    slots,
                    last_action: message,
                    pre_picker_app: None,
                    ..old(self)@
                })
                &&& r matches Ok((s, count, app)) && s@ == slot && count == slots.len() && (match app {
                    Some(a) => old(self)@.pre_picker_app == Some(a@),
                    None => old(self)@.pre_picker_app is None,
                })
            },
    {
        if index >= self.slots.len() {
            return Err(slot_not_found_text(index));
        }
        let slot = self.slots[index].clone();
        let ghost before = slot_views(self.slots@);
        if self.paste_mode == PasteMode::Consume {
            self.slots.remove(index);
            assert(slot_views(self.slots@) =~= before.remove(index as int));
        }
        let mut message = String::from_str("スロット「");
        message.append(slot.title.as_str());
        message.append("」をペーストしました。");
        self.last_action = message;
        let count = self.slots.len();
        let app = self.pre_picker_app.take();
        Ok((slot, count, app))
    }

    /// Deletes the slot at `index`. An index past the end changes nothing.
    pub fn delete_slot(&mut self, index: usize) -> (r: Result<ActionResult, String>)
        ensures
            index >= old(self)@.slots.len() ==> {
                &&& r matches Err(e) && e@ == slot_not_found_message(index as nat)
                &&& final(self)@ == old(self)@
            },
            index < old(self)@.slots.len() ==> {
                let slots = old(self)@.slots.remove(index as int);
                let message = "スロット "@ + dec(index as nat + 1) + " を削除しました。"@;
                &&& final(self)@ == (StoreView { slots, last_action: message, ..old(self)@ })
                &&& r matches Ok(a) && is_success(a, message, slots.len() as usize)
            },
    {
        if index >= self.slots.len() {
            return Err(slot_not_found_text(index));
        }
        let ghost before = slot_views(self.slots@);
        self.slots.remove(index);
        assert(slot_views(self.slots@) =~= before.remove(index as int));
        let mut message = String::from_str("スロット ");
        message.append(decimal(index as u128 + 1).as_str());
        message.append(" を削除しました。");
        self.last_action = message.clone();
        Ok(ActionResult { ok: true, message, slot_count: self.slots.len() })
    }

    /// Deletes every slot.
    pub fn clear_slots(&mut self) -> (r: ActionResult)
        ensures
            final(self)@ == (StoreView {
                slots: Seq::<SlotView>::empty(),
                last_action: "すべてのスロットを消去しました。"@,
                ..old(self)@
            }),
            is_success(r, "すべてのスロットを消去しました。"@, 0),
    {
        self.slots.clear();
        assert(slot_views(self.slots@) =~= Seq::<SlotView>::empty());
        self.last_action = String::from_str("すべてのスロットを消去しました。");
        ActionResult { ok: true, message: self.last_action.clone(), slot_count: self.slots.len() }
    }

    /// Switches to the mode named `mode` (`consume` or `keep`); any other
    /// name changes nothing.
    pub fn set_paste_mode(&mut self, mode: &str) -> (r: Result<ActionResult, String>)
        ensures
            mode_named(mode@) is None ==> {
                &&& r matches Err(e) && e@ == "未対応のペーストモードです。"@
                &&& final(self)@ == old(self)@
            },
            mode_named(mode@) matches Some(m) ==> {
                let message = "ペーストモードを "@ + mode_label(m) + " に変更しました。"@;
                &&& final(self)@ == (StoreView { paste_mode: m, last_action: message, ..old(self)@ })
                &&& r matches Ok(a) && is_success(a, message, old(self)@.slots.len() as usize)
            },
    {
        let next = match PasteMode::from_name(mode) {
            Some(m) => m,
            None => {
                return Err(String::from_str("未対応のペーストモードです。"));
            },
        };
        self.paste_mode = next;
        let mut message = String::from_str("ペーストモードを ");
        message.append(next.label());
        message.append(" に変更しました。");
        self.last_action = message.clone();
        Ok(ActionResult { ok: true, message, slot_count: self.slots.len() })
    }

    /// Drops the oldest slots beyond `capacity`.
    pub fn enforce_capacity(&mut self, capacity: usize)
        ensures
            final(self)@ == (StoreView {
                slots: within_capacity(old(self)@.slots, capacity as nat),
                ..old(self)@
            }),
    {
        let ghost before = slot_views(self.slots@);
        if self.slots.len() > capacity {
            self.slots.truncate(capacity);
            assert(slot_views(self.slots@) =~= before.take(capacity as int));
        }
    }

    /// Remembers `frontmost` (the application that has the focus) and gives
    /// the slots to show in the picker. With no slot nothing changes and the
    /// failure to report is given instead.
    pub fn open_picker(&mut self, frontmost: Option<String>) -> (r: Result<
        Vec<PasteSlot>,
        ActionResult,
    >)
        ensures
            old(self)@.slots.len() == 0 ==> {
                &&& r matches Err(a) && is_failure(a, nothing_to_paste_message(), 0)
                &&& final(self)@ == old(self)@
            },
            old(self)@.slots.len() > 0 ==> {
                &&& final(self)@ == (StoreView {
                    pre_picker_app: match frontmost {
                        Some(a) => Some(a@),
                        None => None,
                    },
                    ..old(self)@
                })
                &&& r matches Ok(v) && slot_views(v@) == old(self)@.slots
            },
    {
        if self.slots.len() == 0 {
            return Err(
                ActionResult::failure(String::from_str("ペースト対象のスロットがありません。"), 0),
            );
        }
        self.pre_picker_app = frontmost;
        Ok(copy_slots(&self.slots))
    }
}


/// Which capabilities the prototype confirmed.
#[derive(Debug)]
pub struct PocStatus {
    pub clipboard_read: bool,
    pub global_key_listening: bool,
    pub paste_simulation: bool,
}

/// A summary of the application's state for the dashboard.
#[derive(Debug)]
pub struct AppOverview {
    pub runtime_mode: &'static str,
    pub slot_capacity: usize,
    pub retention_strategy: &'static str,
    pub copy_hotkey: &'static str,
    pub paste_hotkey: &'static str,
    pub paste_mode: &'static str,
    pub stored_slot_count: usize,
    pub last_action: String,
    pub poc: PocStatus,
}

impl SlotStore {
    /// What a settings change means for the store: a new capacity sheds the
    /// slots beyond it, a new default paste mode takes effect at once, and the
    /// other changes leave the store alone.
    pub fn apply_preference_change(&mut self, change: &PreferenceChange)
        ensures
            match change@ {
                ChangeView::SlotCapacity(c) => final(self)@ == (StoreView {
                    slots: within_capacity(old(self)@.slots, c as nat),
                    ..old(self)@
                }),
                ChangeView::PasteMode(m) => final(self)@ == (StoreView {
                    paste_mode: m,
                    ..old(self)@
                }),
                _ => final(self)@ == old(self)@,
            },
    {
        match change {
            PreferenceChange::SlotCapacity(c) => self.enforce_capacity(*c),
            PreferenceChange::PasteMode(m) => {
                self.paste_mode = *m;
            },
            _ => {},
        }
    }

    /// The dashboard summary for this store under `prefs`.
    pub fn overview(&self, prefs: &Preferences) -> (r: AppOverview)
        ensures
            r.runtime_mode@ == "メニューバー常駐 + 設定ウィンドウ"@,
            r.slot_capacity == prefs.slot_capacity,
            r.retention_strategy@ == "FIFO ローテーション"@,
            r.copy_hotkey@ == "Cmd + Option + C"@,
            r.paste_hotkey@ == "Cmd + Option + V"@,
            r.paste_mode@ == mode_name(self.paste_mode),
            r.stored_slot_count == self@.slots.len(),
            r.last_action@ == self.last_action@,
            r.poc.clipboard_read && r.poc.global_key_listening && r.poc.paste_simulation,
    {
        AppOverview {
            runtime_mode: "メニューバー常駐 + 設定ウィンドウ",
            slot_capacity: prefs.slot_capacity,
            retention_strategy: "FIFO ローテーション",
            copy_hotkey: "Cmd + Option + C",
            paste_hotkey: "Cmd + Option + V",
            paste_mode: self.paste_mode.as_str(),
            stored_slot_count: self.slots.len(),
            last_action: self.last_action.clone(),
            poc: PocStatus { clipboard_read: true, global_key_listening: true, paste_simulation: true },
        }
    }
}

} // verus!
