use vstd::prelude::*;

use crate::prefs::{
    parse_shortcut, read_as, shortcut_rejection, Preferences, DEFAULT_COPY_SHORTCUT,
    DEFAULT_PASTE_SHORTCUT, DEFAULT_RANGE_END_SHORTCUT, DEFAULT_RANGE_START_SHORTCUT,
};

verus! {

/// The four global shortcuts, each held by its hotkey id.
#[derive(Debug, Clone, Copy, PartialEq, Eq, Structural)]
pub struct ParsedShortcuts {
    pub copy: u32,
    pub paste: u32,
    pub range_start: u32,
    pub range_end: u32,
}

/// What a pressed global shortcut asks for.
#[derive(Debug, Clone, Copy, PartialEq, Eq, Structural)]
pub enum ShortcutAction {
    /// Show the slot picker.
    ShowPicker,
    /// Record the start of a range selection.
    RangeStart,
    /// Finish a range selection.
    RangeEnd,
    /// Capture the selected text into a slot.
    Capture,
    /// No registered shortcut: nothing happens.
    Unknown,
}

/// The action for the shortcut with id `pressed`: paste is checked first,
/// then range start, range end and copy.
pub open spec fn shortcut_action(s: ParsedShortcuts, pressed: u32) -> ShortcutAction {
    if pressed == s.paste {
        ShortcutAction::ShowPicker
    } else if pressed == s.range_start {
        ShortcutAction::RangeStart
    } else if pressed == s.range_end {
        ShortcutAction::RangeEnd
    } else if pressed == s.copy {
        ShortcutAction::Capture
    } else {
        ShortcutAction::Unknown
    }
}

/// Whether a shortcut setting can be resolved: its own text parses, or the
/// built-in default does.
pub open spec fn resolvable(setting: Seq<char>, default: Seq<char>) -> bool {
    shortcut_rejection(setting) is None || shortcut_rejection(default) is None
}

/// Whether `id` is what a shortcut setting resolves to: the setting's own
/// reading where it is accepted, else the built-in default's.
pub open spec fn resolves_to(id: u32, setting: Seq<char>, default: Seq<char>) -> bool {
    if shortcut_rejection(setting) is None {
        read_as(id, setting)
    } else {
        read_as(id, default)
    }
}

/// The shortcut id from the readings of a setting and of its built-in
/// default: the setting's id where it was accepted, else the default's, else
/// none.
pub fn resolved(setting: Result<u32, String>, default: Result<u32, String>) -> (r: Option<u32>)
    ensures
        r == match setting {
            Ok(id) => Some(id),
            Err(_) => match default {
                Ok(id) => Some(id),
                Err(_) => None,
            },
        },
{
    match setting {
        Ok(id) => Some(id),
        Err(_) => match default {
            Ok(id) => Some(id),
            Err(_) => None,
        },
    }
}

/// Reads a setting and its default and resolves them.
fn resolve(setting: &str, default: &str) -> (r: Option<u32>)
    ensures
        r is Some <==> resolvable(setting@, default@),
        r matches Some(id) ==> resolves_to(id, setting@, default@),
{
    resolved(parse_shortcut(setting), parse_shortcut(default))
}

/// The shortcut id after reading a setting again: the id it was read as,
/// or `current` where the reading refused it.
fn refreshed(parsed: Result<u32, String>, current: u32) -> (r: u32)
    ensures
        r == match parsed {
            Ok(id) => id,
            Err(_) => current,
        },
{
    match parsed {
        Ok(id) => id,
        Err(_) => current,
    }
}

impl ParsedShortcuts {
    /// The shortcuts of `prefs`; a setting that does not parse falls back to
    /// its built-in default. `None` when even a default does not parse.
    pub fn from_preferences(prefs: &Preferences) -> (r: Option<ParsedShortcuts>)
        ensures
            r is Some <==> {
                &&& resolvable(prefs.shortcut_copy@, DEFAULT_COPY_SHORTCUT@)
                &&& resolvable(prefs.shortcut_paste@, DEFAULT_PASTE_SHORTCUT@)
                &&& resolvable(prefs.shortcut_range_start@, DEFAULT_RANGE_START_SHORTCUT@)
                &&& resolvable(prefs.shortcut_range_end@, DEFAULT_RANGE_END_SHORTCUT@)
            },
            r matches Some(s) ==> {
                &&& resolves_to(s.copy, prefs.shortcut_copy@, DEFAULT_COPY_SHORTCUT@)
                &&& resolves_to(s.paste, prefs.shortcut_paste@, DEFAULT_PASTE_SHORTCUT@)
                &&& resolves_to(
                    s.range_start,
                    prefs.shortcut_range_start@,
                    DEFAULT_RANGE_START_SHORTCUT@,
                )
                &&& resolves_to(s.range_end, prefs.shortcut_range_end@, DEFAULT_RANGE_END_SHORTCUT@)
            },
    {
        let copy = resolve(prefs.shortcut_copy.as_str(), DEFAULT_COPY_SHORTCUT);
        let paste = resolve(prefs.shortcut_paste.as_str(), DEFAULT_PASTE_SHORTCUT);
        let range_start = resolve(prefs.shortcut_range_start.as_str(), DEFAULT_RANGE_START_SHORTCUT);
        let range_end = resolve(prefs.shortcut_range_end.as_str(), DEFAULT_RANGE_END_SHORTCUT);
        match (copy, paste, range_start, range_end) {
            (Some(copy), Some(paste), Some(range_start), Some(range_end)) => Some(
                ParsedShortcuts { copy, paste, range_start, range_end },
            ),
            _ => None,
        }
    }

    /// Takes the shortcuts of `prefs` again: an accepted setting takes the id
    /// it is read as, and a setting that does not parse keeps its current
    /// shortcut.
    pub fn refresh(&mut self, prefs: &Preferences)
        ensures
            shortcut_rejection(prefs.shortcut_copy@) is Some ==> final(self).copy == old(self).copy,
            shortcut_rejection(prefs.shortcut_paste@) is Some ==> final(self).paste == old(
                self,
            ).paste,
            shortcut_rejection(prefs.shortcut_range_start@) is Some ==> final(self).range_start
                == old(self).range_start,
            shortcut_rejection(prefs.shortcut_range_end@) is Some ==> final(self).range_end == old(
                self,
            ).range_end,
            shortcut_rejection(prefs.shortcut_copy@) is None ==> read_as(
                final(self).copy,
                prefs.shortcut_copy@,
            ),
            shortcut_rejection(prefs.shortcut_paste@) is None ==> read_as(
                final(self).paste,
                prefs.shortcut_paste@,
            ),
            shortcut_rejection(prefs.shortcut_range_start@) is None ==> read_as(
                final(self).range_start,
                prefs.shortcut_range_start@,
            ),
            shortcut_rejection(prefs.shortcut_range_end@) is None ==> read_as(
                final(self).range_end,
                prefs.shortcut_range_end@,
            ),
    {
        self.copy = refreshed(parse_shortcut(prefs.shortcut_copy.as_str()), self.copy);
        self.paste = refreshed(parse_shortcut(prefs.shortcut_paste.as_str()), self.paste);
        self.range_start = refreshed(parse_shortcut(prefs.shortcut_range_start.as_str()), self.range_start);
        self.range_end = refreshed(parse_shortcut(prefs.shortcut_range_end.as_str()), self.range_end);
    }

    /// What the shortcut with id `pressed` asks for.
    pub fn action_for(&self, pressed: u32) -> (r: ShortcutAction)
        ensures
            r == shortcut_action(*self, pressed),
    {
        if pressed == self.paste {
            ShortcutAction::ShowPicker
        } else if pressed == self.range_start {
            ShortcutAction::RangeStart
        } else if pressed == self.range_end {
            ShortcutAction::RangeEnd
        } else if pressed == self.copy {
            ShortcutAction::Capture
        } else {
            ShortcutAction::Unknown
        }
    }
}

} // verus!
