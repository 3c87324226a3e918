//! Terminal client state for inspecting and changing a working tree.
//!
//! - `status`: status entries and the parser of status text.
//! - `app`: the application state machine and the laws it keeps.
//! - `input`: what keys mean in each mode.
//! - `git`: gateway requests, their command lines, and their replies.
//! - `view`: what the screen shows, computed from the state.
//! - `text`: character-level helpers.
pub mod app;
pub mod git;
pub mod input;
pub mod status;
pub mod text;
pub mod view;

pub use app::{App, InputMode};
pub use git::GitOperations;
