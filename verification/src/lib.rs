//! Verified core of an embeddable terminal-engine bridge.
//!
//! The crate holds the C-facing value types of the terminal engine and the
//! decisions that the engine and the session host make around the outside
//! terminal, font and PTY machinery: how screen cells are copied into caller
//! buffers, how selections are tracked and turned into text, how the viewport
//! scrolls, when a GPU frame must be redrawn, and how a PTY session moves
//! between its states.

#![allow(non_camel_case_types)]

pub mod alert;
pub mod cells;
pub mod config;
pub mod escape;
pub mod fonts;
pub mod input;
pub mod output;
pub mod render;
pub mod selection;
pub mod session;
pub mod spawn;
pub mod text;
pub mod types;
pub mod view;
