//! Log severity levels.  The structured logging sink itself — rotating
//! files under the application data directory — is wired up outside the
//! library; the library only names the levels.

use vstd::prelude::*;

verus! {

/// Severity of a log entry.
#[derive(Debug, Clone, Copy, PartialEq, Eq, Structural)]
pub enum LogLevel {
    /// Detailed debugging information.
    Debug,
    /// General operational information.
    Info,
    /// Situations that are not ideal but not errors.
    Warning,
    /// Errors that need attention.
    Error,
}

} // verus!
