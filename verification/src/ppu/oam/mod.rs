//! Object attribute memory.
pub mod flags;
