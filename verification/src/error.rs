//! The tool's error taxonomy.

use vstd::prelude::*;

verus! {

#[verifier::external_type_specification]
#[verifier::external_body]
pub struct ExIoError(std::io::Error);

/// Everything that can go wrong inside the tool.
#[derive(Debug)]
pub enum WinOptError {
    /// The operation needs administrator rights.
    AdminRequired,
    /// An I/O error, carried through as the platform reported it.
    Io(std::io::Error),
    /// An external command ran but failed.
    CommandFailed { command: String, reason: String },
    /// A path did not pass validation.
    InvalidPath(String),
    /// A service name outside the allowed set.
    InvalidService(String),
    /// Anything unforeseen.
    Unknown(String),
}

} // verus!
