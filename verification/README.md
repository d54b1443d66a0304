# multipaste

The verified core of MultiPaste Pro, a menu-bar clipboard manager that keeps
several saved texts ("slots") and pastes them back on demand.

## Layout

- `src/` — the library, verified with Verus:
  - `text.rs`: whitespace normalisation of captured text, slot titles,
    decimal writing and the number and flag grammars of the settings;
  - `mode.rs`: the paste modes (`consume` / `keep`);
  - `prefs.rs`: the settings, their defaults and the checked update of one
    setting; shortcut texts are read with `global-hotkey`;
  - `shortcuts.rs`: the registered global shortcuts and what each asks for;
  - `slots.rs`: the slot store — capture with rotation, paste, delete,
    clear, mode switch, picker, dashboard summary;
  - `range.rs`: the decisions of the two-step range selection;
  - `script.rs`: the AppleScript texts the application runs and the reading
    of their output;
  - `tray.rs`: the tray menu commands;
  - `laws.rs`: properties of the library proved over the specifications.
- `tests/` — tests run against the compiled library.
- `app/` — the Tauri application around the library: windows, tray, global
  shortcut registration, clipboard, keystrokes, AppleScript and JSON files.
