//! Fatal error taxonomy of the tool.
//!
//! Only failures that occur before any scanning begins are fatal: a missing or
//! unparseable command line, a pattern that does not compile, or a working
//! directory that cannot be resolved. Per-source I/O failures are never fatal
//! and have no representation here; such a source is silently skipped.

use vstd::prelude::*;

verus! {

/// A failure that ends the run before any source is scanned.
///
/// Each variant carries a distinct process exit code, so that callers can tell
/// the failures apart; a run that finds zero matches still exits with code 0.
#[derive(Clone, Copy, Debug, PartialEq, Eq, Structural)]
pub enum FatalError {
    /// The command line could not be parsed, or the required pattern
    /// argument is missing.
    InvalidInvocation,
    /// The pattern string does not compile as a regular expression.
    InvalidPattern,
    /// The current working directory could not be determined while falling
    /// back to a directory walk.
    UnresolvableWorkingDirectory,
}

impl FatalError {
    /// The process exit code for this failure; every code is non-zero and the
    /// codes of distinct variants are distinct.
    pub fn exit_code(&self) -> (c: i32)
        ensures
            c == self.exit_code_spec(),
    {
        match self {
            FatalError::InvalidInvocation => 1,
            FatalError::InvalidPattern => 2,
            FatalError::UnresolvableWorkingDirectory => 3,
        }
    }

    /// The exit code of each variant.
    pub open spec fn exit_code_spec(self) -> i32 {
        match self {
            FatalError::InvalidInvocation => 1,
            FatalError::InvalidPattern => 2,
            FatalError::UnresolvableWorkingDirectory => 3,
        }
    }

    /// A one-line human-readable diagnostic for this failure.
    pub fn message(&self) -> (m: &'static str)
        ensures
            self is InvalidInvocation ==> m@ == "a regular expression pattern is required"@,
            self is InvalidPattern ==> m@ == "the pattern is not a valid regular expression"@,
            self is UnresolvableWorkingDirectory ==> m@
                == "the current working directory could not be determined"@,
    {
        match self {
            FatalError::InvalidInvocation => "a regular expression pattern is required",
            FatalError::InvalidPattern => "the pattern is not a valid regular expression",
            FatalError::UnresolvableWorkingDirectory => "the current working directory could not be determined",
        }
    }
}

/// Distinct variants carry distinct exit codes, and every fatal exit code is
/// non-zero.
pub proof fn lemma_exit_codes_distinct(a: FatalError, b: FatalError)
    ensures
        a.exit_code_spec() != 0,
        a != b ==> a.exit_code_spec() != b.exit_code_spec(),
{
}

} // verus!
