use vstd::prelude::*;

pub mod actions;
pub mod app;
pub mod chars;
pub mod commands;
pub mod events;
pub mod error;
pub mod github;
pub mod keybind;
pub mod laws;
pub mod markdown;
pub mod network;
pub mod parsec;
pub mod parser;
pub mod text;
pub mod timeline;
pub mod ui;
pub mod util;
pub mod views;

verus! {
} // verus!
