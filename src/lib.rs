//! A single-level directory listing rendered as pretty-printed JSON text.
pub mod json_text;
pub mod listing;
pub mod tool;
pub mod laws;
