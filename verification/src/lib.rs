//! Client-side input pipeline of a terminal multiplexer.
//!
//! Raw terminal events (keystrokes, mouse reports) are decoded into a
//! normalized key/mouse model, resolved against a mode-dependent keybinding
//! table, and dispatched over an inter-process channel to the server that
//! owns the session state.

pub mod actions;
pub mod handler;
pub mod key;
pub mod keybinds;
pub mod mode_info;
pub mod mouse;
pub mod os_api;
pub mod parse;
pub mod raw;
pub mod unicode;
