use vstd::prelude::*;

use crate::text::str_eq;

verus! {

/// What a paste does to the slot it pastes: `Consume` removes it, `Keep`
/// leaves it in place.
#[derive(Debug, Clone, Copy, PartialEq, Eq, Structural)]
pub enum PasteMode {
    Consume,
    Keep,
}

/// The name of a mode as it appears in settings and commands.
pub open spec fn mode_name(m: PasteMode) -> Seq<char> {
    match m {
        PasteMode::Consume => "consume"@,
        PasteMode::Keep => "keep"@,
    }
}

/// The other mode.
pub open spec fn toggled(m: PasteMode) -> PasteMode {
    match m {
        PasteMode::Consume => PasteMode::Keep,
        PasteMode::Keep => PasteMode::Consume,
    }
}

/// The mode that a name stands for, if any.
pub open spec fn mode_named(s: Seq<char>) -> Option<PasteMode> {
    if s == "consume"@ {
        Some(PasteMode::Consume)
    } else if s == "keep"@ {
        Some(PasteMode::Keep)
    } else {
        None
    }
}

/// The mode a store starts in for a saved default: `keep` gives `Keep`,
/// anything else `Consume`.
pub open spec fn initial_mode(default_name: Seq<char>) -> PasteMode {
    if default_name == "keep"@ {
        PasteMode::Keep
    } else {
        PasteMode::Consume
    }
}

/// The word used for a mode in user-facing messages.
pub open spec fn mode_label(m: PasteMode) -> Seq<char> {
    match m {
        PasteMode::Consume => "消費"@,
        PasteMode::Keep => "保持"@,
    }
}

impl PasteMode {
    /// The name of the mode: `consume` or `keep`.
    pub fn as_str(self) -> (r: &'static str)
        ensures
            r@ == mode_name(self),
    {
        match self {
            PasteMode::Consume => "consume",
            PasteMode::Keep => "keep",
        }
    }

    /// The other mode.
    pub fn toggle(self) -> (r: PasteMode)
        ensures
            r == toggled(self),
    {
        match self {
            PasteMode::Consume => PasteMode::Keep,
            PasteMode::Keep => PasteMode::Consume,
        }
    }

    /// The mode named by `s`, if `s` is `consume` or `keep`.
    pub fn from_name(s: &str) -> (r: Option<PasteMode>)
        ensures
            r == mode_named(s@),
    {
        if str_eq(s, "consume") {
            Some(PasteMode::Consume)
        } else if str_eq(s, "keep") {
            Some(PasteMode::Keep)
        } else {
            None
        }
    }

    /// The mode a store starts in when the saved default is `default_name`.
    pub fn initial(default_name: &str) -> (r: PasteMode)
        ensures
            r == initial_mode(default_name@),
    {
        if str_eq(default_name, "keep") {
            PasteMode::Keep
        } else {
            PasteMode::Consume
        }
    }

    /// The word for the mode in messages.
    pub fn label(self) -> (r: &'static str)
        ensures
            r@ == mode_label(self),
    {
        match self {
            PasteMode::Consume => "消費",
            PasteMode::Keep => "保持",
        }
    }
}

/// Toggling twice gives the mode back, and toggling always changes the mode.
pub proof fn lemma_toggle_involution(m: PasteMode)
    ensures
        toggled(toggled(m)) == m,
        toggled(m) != m,
{
}

/// A mode's name reads back as the same mode, and the two names differ.
pub proof fn lemma_mode_name_roundtrip(m: PasteMode)
    ensures
        mode_named(mode_name(m)) == Some(m),
        initial_mode(mode_name(m)) == m,
        mode_name(m) != mode_name(toggled(m)),
{
    reveal_strlit("consume");
    reveal_strlit("keep");
    assert("consume"@ != "keep"@) by {
        assert("consume"@.len() != "keep"@.len());
    }
}

} // verus!
