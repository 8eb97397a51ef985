//! The One Dark colour scheme for Neovim: its palettes, its configuration,
//! the highlight groups it derives from them, and the editor commands that
//! apply them. Everything here computes on plain values; the editor calls
//! themselves are made by the plugin shell around this library.

pub mod palette;
pub mod config;
pub mod highlights;
pub mod groups;
pub mod terminal;
pub mod util;
pub mod colors;
