//! Verified core of a multi-slot clipboard manager: the slot store with its
//! rotation and paste rules, user preferences, whitespace normalisation of
//! captured text, and the small decisions behind shortcuts, tray commands and
//! range selection.

pub mod text;
pub mod mode;
pub mod prefs;
pub mod shortcuts;
pub mod slots;
pub mod script;
pub mod range;
pub mod tray;
pub mod laws;


