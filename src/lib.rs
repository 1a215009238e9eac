//! A tiny Markdown-to-HTML converter.
//!
//! Each input line is classified by its first character as a heading (`#`),
//! a code fence (`` ` ``) or prose, and turned into one HTML fragment by a
//! small state machine that remembers which tag is open.
pub mod line;
pub mod machine;
pub mod output;
pub mod state;
pub mod laws;
