//! Bookmark lines: an alias and a directory path on one line of text.
//!
//! The crate classifies lines, extracts bookmarks from them and renders the
//! collected bookmarks in three shell formats.

pub mod chars;
pub mod text;
pub mod grammar;
pub mod parser;
pub mod laws;
pub mod collect;
pub mod render;
