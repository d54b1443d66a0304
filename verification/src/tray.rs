use vstd::prelude::*;

use crate::text::str_eq;

verus! {

/// The commands of the tray menu.
#[derive(Debug, Clone, Copy, PartialEq, Eq, Structural)]
pub enum TrayCommand {
    ShowApp,
    Preferences,
    Capture,
    Paste,
    ToggleMode,
    CheckUpdate,
    Quit,
}

/// The menu id of each tray command.
pub open spec fn menu_id_of(c: TrayCommand) -> Seq<char> {
    match c {
        TrayCommand::ShowApp => "show-app"@,
        TrayCommand::Preferences => "preferences"@,
        TrayCommand::Capture => "capture-now"@,
        TrayCommand::Paste => "paste-now"@,
        TrayCommand::ToggleMode => "toggle-mode"@,
        TrayCommand::CheckUpdate => "check-update"@,
        TrayCommand::Quit => "quit"@,
    }
}

/// The tray command whose menu id is `id`, if any.
pub open spec fn command_with_id(id: Seq<char>) -> Option<TrayCommand> {
    if id == "show-app"@ {
        Some(TrayCommand::ShowApp)
    } else if id == "preferences"@ {
        Some(TrayCommand::Preferences)
    } else if id == "capture-now"@ {
        Some(TrayCommand::Capture)
    } else if id == "paste-now"@ {
        Some(TrayCommand::Paste)
    } else if id == "toggle-mode"@ {
        Some(TrayCommand::ToggleMode)
    } else if id == "check-update"@ {
        Some(TrayCommand::CheckUpdate)
    } else if id == "quit"@ {
        Some(TrayCommand::Quit)
    } else {
        None
    }
}

impl TrayCommand {
    /// The menu id of the command.
    pub fn menu_id(self) -> (r: &'static str)
        ensures
            r@ == menu_id_of(self),
    {
        match self {
            TrayCommand::ShowApp => "show-app",
            TrayCommand::Preferences => "preferences",
            TrayCommand::Capture => "capture-now",
            TrayCommand::Paste => "paste-now",
            TrayCommand::ToggleMode => "toggle-mode",
            TrayCommand::CheckUpdate => "check-update",
            TrayCommand::Quit => "quit",
        }
    }

    /// The command for a menu id; other ids ask for nothing.
    pub fn from_menu_id(id: &str) -> (r: Option<TrayCommand>)
        ensures
            r == command_with_id(id@),
    {
        if str_eq(id, "show-app") {
            Some(TrayCommand::ShowApp)
        } else if str_eq(id, "preferences") {
            Some(TrayCommand::Preferences)
        } else if str_eq(id, "capture-now") {
            Some(TrayCommand::Capture)
        } else if str_eq(id, "paste-now") {
            Some(TrayCommand::Paste)
        } else if str_eq(id, "toggle-mode") {
            Some(TrayCommand::ToggleMode)
        } else if str_eq(id, "check-update") {
            Some(TrayCommand::CheckUpdate)
        } else if str_eq(id, "quit") {
            Some(TrayCommand::Quit)
        } else {
            None
        }
    }
}

/// Every tray command is found again from its own menu id.
pub proof fn lemma_menu_id_roundtrip(c: TrayCommand)
    ensures
        command_with_id(menu_id_of(c)) == Some(c),
{
    reveal_strlit("show-app");
    reveal_strlit("preferences");
    reveal_strlit("capture-now");
    reveal_strlit("paste-now");
    reveal_strlit("toggle-mode");
    reveal_strlit("check-update");
    reveal_strlit("quit");
    assert("show-app"@[0] == 's' && "preferences"@[0] == 'p' && "capture-now"@[0] == 'c'
        && "paste-now"@[0] == 'p' && "toggle-mode"@[0] == 't' && "check-update"@[0] == 'c'
        && "quit"@[0] == 'q');
    assert("show-app"@.len() == 8 && "preferences"@.len() == 11 && "capture-now"@.len() == 11
        && "paste-now"@.len() == 9 && "toggle-mode"@.len() == 11 && "check-update"@.len() == 12
        && "quit"@.len() == 4);
}

} // verus!
