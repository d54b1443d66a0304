use vstd::prelude::*;
use vstd::string::StringExecFns;

use crate::mode::{mode_name, mode_named, PasteMode};
use crate::text::{joined, parse_bool, parse_usize, parsed_bool, parsed_usize, str_eq};

verus! {

pub const DEFAULT_SLOT_CAPACITY: usize = 10;

pub const DEFAULT_COPY_SHORTCUT: &'static str = "CommandOrControl+Alt+C";

pub const DEFAULT_PASTE_SHORTCUT: &'static str = "CommandOrControl+Alt+V";

pub const DEFAULT_RANGE_START_SHORTCUT: &'static str = "CommandOrControl+Alt+BracketLeft";

pub const DEFAULT_RANGE_END_SHORTCUT: &'static str = "CommandOrControl+Alt+BracketRight";

/// The smallest and largest slot capacity a user may choose.
pub const MIN_SLOT_CAPACITY: usize = 1;

pub const MAX_SLOT_CAPACITY: usize = 30;

/// The message that `global-hotkey` gives for a shortcut text it refuses, or
/// `None` where it accepts the text.
pub uninterp spec fn shortcut_rejection(text: Seq<char>) -> Option<Seq<char>>;

/// The id (`HotKey::id`) of the hotkey that `global-hotkey` reads from an
/// accepted shortcut text, where `CommandOrControl` and its spellings stand
/// for Meta when `cmd_is_meta` holds and for Control otherwise.
pub uninterp spec fn shortcut_id(text: Seq<char>, cmd_is_meta: bool) -> u32;

/// Whether `id` is the id that an accepted shortcut text is read as, on
/// either kind of platform.
pub open spec fn read_as(id: u32, text: Seq<char>) -> bool {
    id == shortcut_id(text, true) || id == shortcut_id(text, false)
}

/// Parses a shortcut text with `global-hotkey` (`HotKey::from_str`) and gives
/// the parsed hotkey's id (`HotKey::id`), or the parse error's message.
///
/// Whether the text is accepted, and the message of a refusal, depend on the
/// text alone: they are named by `shortcut_rejection`. The id of an accepted
/// text is named by `shortcut_id` together with the platform's reading of
/// `CommandOrControl` (Meta on macOS, Control elsewhere); which of the two
/// readings applies is left unsaid. Two hotkeys are equal exactly when their
/// ids are, since the id packs the modifier bits and the key code side by
/// side.
#[verifier::external_body]
pub(crate) fn parse_shortcut(text: &str) -> (r: Result<u32, String>)
    ensures
        r is Ok <==> shortcut_rejection(text@) is None,
        r matches Err(m) ==> shortcut_rejection(text@) == Some(m@),
        r matches Ok(id) ==> (id == shortcut_id(text@, true) || id == shortcut_id(text@, false)),
{
    match text.parse::<global_hotkey::hotkey::HotKey>() {
        Ok(hotkey) => Ok(hotkey.id()),
        Err(error) => Err(error.to_string()),
    }
}

/// The user's settings.
#[derive(Debug)]
pub struct Preferences {
    pub shortcut_copy: String,
    pub shortcut_paste: String,
    pub shortcut_range_start: String,
    pub shortcut_range_end: String,
    pub slot_capacity: usize,
    pub default_paste_mode: String,
    pub sound_enabled: bool,
}

/// The settings as plain values.
pub struct PrefsView {
    pub shortcut_copy: Seq<char>,
    pub shortcut_paste: Seq<char>,
    pub shortcut_range_start: Seq<char>,
    pub shortcut_range_end: Seq<char>,
    pub slot_capacity: usize,
    pub default_paste_mode: Seq<char>,
    pub sound_enabled: bool,
}

impl View for Preferences {
    type V = PrefsView;

    open spec fn view(&self) -> PrefsView {
        PrefsView {
            shortcut_copy: self.shortcut_copy@,
            shortcut_paste: self.shortcut_paste@,
            shortcut_range_start: self.shortcut_range_start@,
            shortcut_range_end: self.shortcut_range_end@,
            slot_capacity: self.slot_capacity,
            default_paste_mode: self.default_paste_mode@,
            sound_enabled: self.sound_enabled,
        }
    }
}

/// The settings a fresh installation starts with.
pub open spec fn default_prefs() -> PrefsView {
    PrefsView {
        shortcut_copy: "CommandOrControl+Alt+C"@,
        shortcut_paste: "CommandOrControl+Alt+V"@,
        shortcut_range_start: "CommandOrControl+Alt+BracketLeft"@,
        shortcut_range_end: "CommandOrControl+Alt+BracketRight"@,
        slot_capacity: 10,
        default_paste_mode: "keep"@,
        sound_enabled: true,
    }
}

impl Default for Preferences {
    fn default() -> (r: Self)
        ensures
            r@ == default_prefs(),
    {
        Preferences {
            shortcut_copy: String::from_str(DEFAULT_COPY_SHORTCUT),
            shortcut_paste: String::from_str(DEFAULT_PASTE_SHORTCUT),
            shortcut_range_start: String::from_str(DEFAULT_RANGE_START_SHORTCUT),
            shortcut_range_end: String::from_str(DEFAULT_RANGE_END_SHORTCUT),
            slot_capacity: DEFAULT_SLOT_CAPACITY,
            default_paste_mode: String::from_str("keep"),
            sound_enabled: true,
        }
    }
}


/// What a successful settings change asks of the rest of the application.
#[derive(Debug)]
pub enum PreferenceChange {
    /// A shortcut moved from `old` to `new`: the global shortcut must be
    /// registered again.
    Shortcut { old: String, new: String },
    /// The slot capacity is now the given number: the store must shed the
    /// slots beyond it.
    SlotCapacity(usize),
    /// The default paste mode is now the given mode: the running store takes
    /// it at once.
    PasteMode(PasteMode),
    /// Sound feedback was switched on or off.
    Sound(bool),
}

/// A settings change as plain values.
pub enum ChangeView {
    Shortcut { old: Seq<char>, new: Seq<char> },
    SlotCapacity(usize),
    PasteMode(PasteMode),
    Sound(bool),
}

impl View for PreferenceChange {
    type V = ChangeView;

    open spec fn view(&self) -> ChangeView {
        match self {
            PreferenceChange::Shortcut { old, new } => ChangeView::Shortcut { old: old@, new: new@ },
            PreferenceChange::SlotCapacity(c) => ChangeView::SlotCapacity(*c),
            PreferenceChange::PasteMode(m) => ChangeView::PasteMode(*m),
            PreferenceChange::Sound(b) => ChangeView::Sound(*b),
        }
    }
}

/// Whether `key` names one of the four shortcut settings.
pub open spec fn is_shortcut_key(key: Seq<char>) -> bool {
    ||| key == "shortcutCopy"@
    ||| key == "shortcutPaste"@
    ||| key == "shortcutRangeStart"@
    ||| key == "shortcutRangeEnd"@
}

/// The current text of the shortcut setting named `key`.
pub open spec fn shortcut_setting(p: PrefsView, key: Seq<char>) -> Seq<char> {
    if key == "shortcutCopy"@ {
        p.shortcut_copy
    } else if key == "shortcutPaste"@ {
        p.shortcut_paste
    } else if key == "shortcutRangeStart"@ {
        p.shortcut_range_start
    } else {
        p.shortcut_range_end
    }
}

/// `p` with the shortcut setting named `key` set to `value`.
pub open spec fn with_shortcut(p: PrefsView, key: Seq<char>, value: Seq<char>) -> PrefsView {
    PrefsView {
        shortcut_copy: if key == "shortcutCopy"@ {
            value
        } else {
            p.shortcut_copy
        },
        shortcut_paste: if key == "shortcutPaste"@ {
            value
        } else {
            p.shortcut_paste
        },
        shortcut_range_start: if key == "shortcutRangeStart"@ {
            value
        } else {
            p.shortcut_range_start
        },
        shortcut_range_end: if key == "shortcutRangeEnd"@ {
            value
        } else {
            p.shortcut_range_end
        },
        ..p
    }
}

/// The outcome of setting `key` to `value` in `p`: the new settings and the
/// change to report, or the message that refuses the change.
pub open spec fn preference_update(p: PrefsView, key: Seq<char>, value: Seq<char>) -> Result<
    (PrefsView, ChangeView),
    Seq<char>,
> {
    if is_shortcut_key(key) {
        match shortcut_rejection(value) {
            Some(e) => Err("ショートカットが無効です: "@ + e),
            None => Ok(
                (
                    with_shortcut(p, key, value),
                    ChangeView::Shortcut { old: shortcut_setting(p, key), new: value },
                ),
            ),
        }
    } else if key == "slotCapacity"@ {
        match parsed_usize(value) {
            None => Err("スロット上限は数値で指定してください。"@),
            Some(c) => if 1 <= c <= 30 {
                Ok((PrefsView { slot_capacity: c, ..p }, ChangeView::SlotCapacity(c)))
            } else {
                Err("スロット上限は 1〜30 の範囲で指定してください。"@)
            },
        }
    } else if key == "defaultPasteMode"@ {
        match mode_named(value) {
            None => Err("ペーストモードは consume か keep で指定してください。"@),
            Some(m) => Ok((PrefsView { default_paste_mode: value, ..p }, ChangeView::PasteMode(m))),
        }
    } else if key == "soundEnabled"@ {
        match parsed_bool(value) {
            None => Err("効果音設定は true/false で指定してください。"@),
            Some(b) => Ok((PrefsView { sound_enabled: b, ..p }, ChangeView::Sound(b))),
        }
    } else {
        Err("不明な設定キーです: "@ + key)
    }
}

/// The seven setting keys are distinct texts.
pub proof fn lemma_setting_keys_distinct()
    ensures
        "shortcutCopy"@ != "shortcutPaste"@,
        "shortcutCopy"@ != "shortcutRangeStart"@,
        "shortcutCopy"@ != "shortcutRangeEnd"@,
        "shortcutPaste"@ != "shortcutRangeStart"@,
        "shortcutPaste"@ != "shortcutRangeEnd"@,
        "shortcutRangeStart"@ != "shortcutRangeEnd"@,
        !is_shortcut_key("slotCapacity"@),
        !is_shortcut_key("defaultPasteMode"@),
        !is_shortcut_key("soundEnabled"@),
        "slotCapacity"@ != "defaultPasteMode"@,
        "slotCapacity"@ != "soundEnabled"@,
        "defaultPasteMode"@ != "soundEnabled"@,
{
    reveal_strlit("shortcutCopy");
    reveal_strlit("shortcutPaste");
    reveal_strlit("shortcutRangeStart");
    reveal_strlit("shortcutRangeEnd");
    reveal_strlit("slotCapacity");
    reveal_strlit("defaultPasteMode");
    reveal_strlit("soundEnabled");
    assert("shortcutCopy"@.len() == 12 && "shortcutCopy"@[1] == 'h');
    assert("shortcutPaste"@.len() == 13);
    assert("shortcutRangeStart"@.len() == 18);
    assert("shortcutRangeEnd"@.len() == 16 && "shortcutRangeEnd"@[0] == 's');
    assert("slotCapacity"@.len() == 12 && "slotCapacity"@[1] == 'l');
    assert("defaultPasteMode"@.len() == 16 && "defaultPasteMode"@[0] == 'd');
    assert("soundEnabled"@.len() == 12 && "soundEnabled"@[1] == 'o');
}

impl Preferences {
    /// Sets the setting named `key` to the text `value`, after checking the
    /// value; on refusal nothing changes and the message says why.
    pub fn apply_update(&mut self, key: &str, value: &str) -> (r: Result<PreferenceChange, String>)
        ensures
            match r {
                Ok(change) => preference_update(old(self)@, key@, value@) == Ok::<
                    (PrefsView, ChangeView),
                    Seq<char>,
                >((final(self)@, change@)),
                Err(e) => preference_update(old(self)@, key@, value@) == Err::<
                    (PrefsView, ChangeView),
                    Seq<char>,
                >(e@) && final(self)@ == old(self)@,
            },
            shortcut_rejection(value@) is None && key@ == "shortcutCopy"@ ==> r is Ok
                && final(self).shortcut_copy@ == value@,
            shortcut_rejection(value@) is None && key@ == "shortcutPaste"@ ==> r is Ok
                && final(self).shortcut_paste@ == value@,
            shortcut_rejection(value@) is None && key@ == "shortcutRangeStart"@ ==> r is Ok
                && final(self).shortcut_range_start@ == value@,
            shortcut_rejection(value@) is None && key@ == "shortcutRangeEnd"@ ==> r is Ok
                && final(self).shortcut_range_end@ == value@,
    {
        proof {
            lemma_setting_keys_distinct();
        }
        if str_eq(key, "shortcutCopy") || str_eq(key, "shortcutPaste") || str_eq(
            key,
            "shortcutRangeStart",
        ) || str_eq(key, "shortcutRangeEnd") {
            match parse_shortcut(value) {
                Err(e) => {
                    return Err(joined("ショートカットが無効です: ", e.as_str()));
                },
                Ok(_) => {},
            }
            proof {
                lemma_setting_keys_distinct();
            }
            let new_value = String::from_str(value);
            let old_value;
            if str_eq(key, "shortcutCopy") {
                old_value = self.shortcut_copy.clone();
                self.shortcut_copy = new_value;
            } else if str_eq(key, "shortcutPaste") {
                old_value = self.shortcut_paste.clone();
                self.shortcut_paste = new_value;
            } else if str_eq(key, "shortcutRangeStart") {
                old_value = self.shortcut_range_start.clone();
                self.shortcut_range_start = new_value;
            } else {
                old_value = self.shortcut_range_end.clone();
                self.shortcut_range_end = new_value;
            }
            Ok(PreferenceChange::Shortcut { old: old_value, new: String::from_str(value) })
        } else if str_eq(key, "slotCapacity") {
            match parse_usize(value) {
                None => Err(String::from_str("スロット上限は数値で指定してください。")),
                Some(cap) => {
                    if MIN_SLOT_CAPACITY <= cap && cap <= MAX_SLOT_CAPACITY {
                        self.slot_capacity = cap;
                        Ok(PreferenceChange::SlotCapacity(cap))
                    } else {
                        Err(String::from_str("スロット上限は 1〜30 の範囲で指定してください。"))
                    }
                },
            }
        } else if str_eq(key, "defaultPasteMode") {
            match PasteMode::from_name(value) {
                None => Err(String::from_str("ペーストモードは consume か keep で指定してください。")),
                Some(m) => {
                    self.default_paste_mode = String::from_str(value);
                    Ok(PreferenceChange::PasteMode(m))
                },
            }
        } else if str_eq(key, "soundEnabled") {
            match parse_bool(value) {
                None => Err(String::from_str("効果音設定は true/false で指定してください。")),
                Some(b) => {
                    self.sound_enabled = b;
                    Ok(PreferenceChange::Sound(b))
                },
            }
        } else {
            Err(joined("不明な設定キーです: ", key))
        }
    }

    /// Records `mode` as the default paste mode.
    pub fn record_paste_mode(&mut self, mode: PasteMode)
        ensures
            final(self)@ == (PrefsView { default_paste_mode: mode_name(mode), ..old(self)@ }),
    {
        self.default_paste_mode = String::from_str(mode.as_str());
    }

    /// A copy of the settings.
    pub fn duplicate(&self) -> (r: Preferences)
        ensures
            r@ == self@,
    {
        Preferences {
            shortcut_copy: self.shortcut_copy.clone(),
            shortcut_paste: self.shortcut_paste.clone(),
            shortcut_range_start: self.shortcut_range_start.clone(),
            shortcut_range_end: self.shortcut_range_end.clone(),
            slot_capacity: self.slot_capacity,
            default_paste_mode: self.default_paste_mode.clone(),
            sound_enabled: self.sound_enabled,
        }
    }
}

} // verus!
