use vstd::prelude::*;
use vstd::string::StringExecFns;

use crate::slots::{is_failure, is_success, ActionResult, RangeStart, SlotStore, StoreView};
use crate::text::{dec, decimal, joined};

verus! {

/// The start of a range from a cursor reading: a position at or after the
/// start of the text. A failed reading, or a negative one, gives none.
pub open spec fn cursor_start(cursor: Result<i64, Seq<char>>) -> Option<RangeStart> {
    match cursor {
        Ok(p) => if p >= 0 {
            Some(RangeStart::AxCursor(p))
        } else {
            None
        },
        Err(_) => None,
    }
}

/// The word for the kind of range start in messages.
pub open spec fn start_kind_label(start: RangeStart) -> Seq<char> {
    match start {
        RangeStart::AxCursor(_) => "テキスト"@,
        RangeStart::MousePos(_, _) => "マウス"@,
    }
}

/// The message after a range start was recorded.
pub open spec fn range_started_message(start: RangeStart) -> Seq<char> {
    "開始位置を記録しました（"@ + start_kind_label(start)
        + "モード）。終了位置へ移動して ⌘⌥] を押してください。"@
}

/// The range start from a cursor reading, if the reading is usable.
pub fn range_start_from_cursor(cursor: &Result<i64, String>) -> (r: Option<RangeStart>)
    ensures
        r == cursor_start(
            match cursor {
                Ok(p) => Ok(*p),
                Err(e) => Err(e@),
            },
        ),
        match cursor {
            Ok(p) => if *p >= 0 {
                r == Some(RangeStart::AxCursor(*p))
            } else {
                r is None
            },
            Err(_) => r is None,
        },
{
    match cursor {
        Ok(p) => if *p >= 0 {
            Some(RangeStart::AxCursor(*p))
        } else {
            None
        },
        Err(_) => None,
    }
}

/// The failure when no start position could be read at all.
pub fn range_start_failure(error: &str, slot_count: usize) -> (r: ActionResult)
    ensures
        is_failure(r, "開始位置の取得に失敗しました: "@ + error@, slot_count),
{
    ActionResult::failure(joined("開始位置の取得に失敗しました: ", error), slot_count)
}

/// The failure when the end shortcut comes before any start.
pub fn missing_range_start(slot_count: usize) -> (r: ActionResult)
    ensures
        is_failure(r, "先に ⌘⌥[ で開始位置を指定してください。"@, slot_count),
{
    ActionResult::failure(String::from_str("先に ⌘⌥[ で開始位置を指定してください。"), slot_count)
}

/// The end of a text range that started at cursor position `start`, from a
/// cursor reading: an unusable reading, or one equal to the start, gives the
/// failure to report.
pub fn cursor_range_end(start: i64, cursor: &Result<i64, String>, slot_count: usize) -> (r: Result<
    i64,
    ActionResult,
>)
    ensures
        match cursor {
            Ok(p) => if *p < 0 {
                r matches Err(a) && is_failure(a, "終了位置の取得に失敗しました。"@, slot_count)
            } else if *p == start {
                r matches Err(a) && is_failure(a, "開始位置と終了位置が同じです。"@, slot_count)
            } else {
                r == Ok::<i64, ActionResult>(*p)
            },
            Err(_) => r matches Err(a) && is_failure(
                a,
                "終了位置の取得に失敗しました。"@,
                slot_count,
            ),
        },
{
    let end = match cursor {
        Ok(p) if *p >= 0 => *p,
        _ => {
            return Err(
                ActionResult::failure(String::from_str("終了位置の取得に失敗しました。"), slot_count),
            );
        },
    };
    if end == start {
        return Err(
            ActionResult::failure(String::from_str("開始位置と終了位置が同じです。"), slot_count),
        );
    }
    Ok(end)
}

/// The outcome of selecting the text between two cursor positions: on
/// success the number of characters selected, else the selection's error.
pub fn selection_outcome(
    start: i64,
    end: i64,
    applied: Result<(), String>,
    slot_count: usize,
) -> (r: ActionResult)
    requires
        -i64::MAX <= end - start <= i64::MAX,
    ensures
        match applied {
            Ok(()) => is_success(
                r,
                dec(
                    (if end >= start {
                        end - start
                    } else {
                        start - end
                    }) as nat,
                ) + " 文字を選択しました。⌘⌥C で保存できます。"@,
                slot_count,
            ),
            Err(e) => is_failure(r, e@, slot_count),
        },
{
    match applied {
        Ok(()) => {
            let chars: u64 = if end >= start {
                (end - start) as u64
            } else {
                (start - end) as u64
            };
            let mut message = decimal(chars as u128);
            message.append(" 文字を選択しました。⌘⌥C で保存できます。");
            ActionResult { ok: true, message, slot_count }
        },
        Err(e) => ActionResult::failure(e, slot_count),
    }
}

/// The failure when the end mouse position could not be read.
pub fn mouse_range_end_failure(error: &str, slot_count: usize) -> (r: ActionResult)
    ensures
        is_failure(r, "終了位置の取得に失敗しました: "@ + error@, slot_count),
{
    ActionResult::failure(joined("終了位置の取得に失敗しました: ", error), slot_count)
}

/// The report that a range start was recorded, with the given slot count.
pub fn range_start_recorded(start: RangeStart, slot_count: usize) -> (r: ActionResult)
    ensures
        is_success(r, range_started_message(start), slot_count),
{
    let mut message = String::from_str("開始位置を記録しました（");
    match start {
        RangeStart::AxCursor(_) => message.append("テキスト"),
        RangeStart::MousePos(_, _) => message.append("マウス"),
    }
    message.append("モード）。終了位置へ移動して ⌘⌥] を押してください。");
    ActionResult { ok: true, message, slot_count }
}

impl SlotStore {
    /// Records where a range selection starts, replacing an earlier start.
    pub fn record_range_start(&mut self, start: RangeStart) -> (r: ActionResult)
        ensures
            final(self)@ == (StoreView { range_select_start: Some(start), ..old(self)@ }),
            is_success(r, range_started_message(start), old(self)@.slots.len() as usize),
    {
        self.range_select_start = Some(start);
        range_start_recorded(start, self.slots.len())
    }

    /// Takes the recorded range start, leaving none.
    pub fn take_range_start(&mut self) -> (r: Option<RangeStart>)
        ensures
            r == old(self)@.range_select_start,
            final(self)@ == (StoreView { range_select_start: None, ..old(self)@ }),
    {
        self.range_select_start.take()
    }
}

} // verus!
