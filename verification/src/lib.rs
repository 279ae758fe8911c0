//! Terminal handling: capabilities, cursor, erasure, text attributes, key
//! decoding and input events.
pub mod error;
pub mod control;
pub mod erase;
pub mod features;
pub mod resize;
pub mod raw;
pub mod screen;
pub mod size;
pub mod cursor;
pub mod info;
pub mod keys;
pub mod terminal;
pub mod text;
pub mod template;
pub mod bindings;
pub mod defaults;
pub mod outside;

pub use error::TermError;
