//! Core state engine for a terminal dashboard over wireless and wired
//! network interfaces: list selection, snapshot merging, focus cycling,
//! background-task supervision and transient overlays.

pub mod app;
pub mod backend;
pub mod common;
pub mod ethernet;
pub mod handler;
pub mod keybinds;
pub mod selection;
pub mod text;
pub mod wifi;

pub use selection::ListSelection;
