//! A tiny popup that lists a few browsers and launches the one that is picked.
//!
//! The crate holds the popup's decisions and nothing else: which buttons are
//! shown, how each incoming event changes the popup's state, and which single
//! effect (move the window, close it, launch a command) the event asks for.
//! Drawing the window and starting the process are left to the program that
//! embeds this library; it feeds events in and carries the effects out.

pub mod config;
pub mod effect;
pub mod entry;
pub mod event;
pub mod laws;
pub mod model;
pub mod popup;
pub mod render;
