//! Verified core of EchoInput, a keyboard visualization overlay.
//!
//! The library holds the logic of the overlay: parsing and defaulting of the
//! configuration file, the show/fade animation state machine, the decisions of
//! the Wayland renderer's event loop, the classification of raw key events and
//! the command-line and settings-panel rules. Everything that talks to the
//! display server, the input devices, the file system or the clock lives in
//! the application around it.

pub mod text;
pub mod overlay;
pub mod config;
pub mod animation;
pub mod input;
pub mod error;
pub mod renderer;
pub mod outputs;
pub mod session;
pub mod cli;
pub mod settings;
