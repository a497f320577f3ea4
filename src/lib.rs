//! Decision logic of a frameless desktop window shell: a custom title bar with
//! close / maximize / minimize controls, a menu row, and a configuration pop-up
//! that edits a few user-toggled flags.
//!
//! The host toolkit draws and reports input; everything the shell decides is
//! here, as plain functions from input to state changes and host commands.

pub mod chrome;
pub mod command;
pub mod shell;

pub use chrome::{
    is_maximized, maximize_hover_text, title_bar_commands, window_button_command, WindowButton,
};
pub use command::{maximized_after, ViewportCommand};
pub use shell::{MyApp, UiEvent};

