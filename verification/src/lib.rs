//! A small grep-style text search library.
//!
//! The library holds the verified core of a command-line search tool: pattern
//! compilation (case sensitivity handled by prefixing the expression), input
//! mode resolution, line scanning, and output formatting with optional line
//! numbers, per-source banners, and terminal highlighting. File and terminal
//! I/O stay outside; callers hand the library plain lines of text.

pub mod errors;
pub mod numfmt;
pub mod pattern;
pub mod render;
pub mod resolve;
pub mod style;
