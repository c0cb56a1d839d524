//! The window-level state of the user interface: its settings, where its
//! window goes, and when it closes.

pub mod application;
pub mod graphics;
pub mod settings;
pub mod window;
