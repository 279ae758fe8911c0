//! Operations on a bare output, given a terminal description.
pub mod cursor;
