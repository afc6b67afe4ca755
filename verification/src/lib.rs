//! Menu-bar icon stashing: the configuration store, the status-bar model,
//! hotkey parsing and the tray icon, as verified logic.
pub mod config;
pub mod hotkey;
pub mod menubar;
pub mod tray;
pub mod commands;
pub mod text;
