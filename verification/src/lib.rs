//! The rules of a tray utility that opens the link held in the clipboard:
//! its stored settings, its tray menu and what the global shortcut does.

pub mod clipboard;
pub mod json;
pub mod pattern;
pub mod settings;
pub mod text;
pub mod tray;
pub mod update;
