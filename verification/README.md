# shouna

The logic of a macOS menu-bar icon stasher, verified with Verus.

Two status items do the work: a separator that widens to 10000 points to push the
icons on its left off screen (collapsed) or narrows to 1 point (expanded), and a toggle
button titled "▸" or "▾". A global hotkey (by default ⌃⌥H) and a tray menu toggle the
state; a preferences window edits a small JSON configuration.

- `src/config.rs` — the configuration, patches, and the once-filled store.
- `src/menubar.rs` — the status-bar model; each operation answers the changes to make.
- `src/hotkey.rs` — the hotkey text (modifier glyphs and a letter) and its parse.
- `src/tray.rs` — the tray icon's pixels, menu commands and pointer events.
- `src/commands.rs` — what the preferences window and status items ask of both.
- `src/text.rs` — text comparison.
- `app/` — the Tauri application and the AppKit status items around the library.
