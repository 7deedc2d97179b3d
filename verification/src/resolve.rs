//! Input-mode resolution.
//!
//! The run's context is read once at startup: whether each standard stream is
//! a pipe, plus the user-chosen flags. From the context and the optional
//! positional file argument, exactly one input mode is selected: piped
//! standard input wins over a named file, and with neither the tool walks the
//! current working directory.

use vstd::prelude::*;

verus! {

/// The facts about one run that steer resolution and formatting, fixed once
/// at startup: whether each standard stream is a pipe, and the user-chosen
/// flags.
pub struct DisplayContext {
    /// Standard input is a pipe or redirect, not an interactive terminal.
    pub stdin_piped: bool,
    /// Standard output is a pipe or redirect, not an interactive terminal.
    pub stdout_piped: bool,
    /// Prefix each printed line with its 1-based line number.
    pub show_numbers: bool,
    /// Treat each piped input line as a file path to open and scan.
    pub read_paths: bool,
    /// Match case-sensitively instead of the case-insensitive default.
    pub case_sensitive: bool,
}

/// Where the run's data comes from. Exactly one mode applies per invocation.
#[derive(Debug, PartialEq, Eq)]
pub enum InputMode {
    /// Scan piped standard input; when `as_paths` is set, each piped line is
    /// a file path to open and scan, otherwise the piped lines are the text.
    Stdin { as_paths: bool },
    /// Scan the single named file.
    SingleFile(String),
    /// Walk the current working directory and scan every reachable entry.
    DirectoryWalk,
}

/// Select the input mode: piped standard input takes precedence and ignores
/// any file argument; otherwise a supplied file argument names the one file
/// to scan; with neither, the current directory is walked.
pub fn resolve_input_mode(ctx: &DisplayContext, file_arg: Option<String>) -> (m: InputMode)
    ensures
        ctx.stdin_piped ==> m == (InputMode::Stdin { as_paths: ctx.read_paths }),
        !ctx.stdin_piped ==> m == (match file_arg {
            Some(f) => InputMode::SingleFile(f),
            None => InputMode::DirectoryWalk,
        }),
{
    if ctx.stdin_piped {
        InputMode::Stdin { as_paths: ctx.read_paths }
    } else {
        match file_arg {
            Some(f) => InputMode::SingleFile(f),
            None => InputMode::DirectoryWalk,
        }
    }
}

} // verus!
