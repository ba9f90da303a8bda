//! Configuration errors: every way startup can fail before watching begins.

use vstd::prelude::*;

verus! {

/// A startup failure.  All variants are fatal: the watch loop is never
/// entered once one of these is produced.
#[derive(Debug, Clone, PartialEq, Eq)]
pub enum ConfigError {
    /// The exclusion pattern does not compile; carries the original pattern
    /// text and the compiler's diagnostic.
    InvalidPattern { pattern: String, diagnostic: String },
    /// The root path cannot be registered with the event source; carries
    /// the path text and the reported reason.
    UnwatchablePath { path: String, diagnostic: String },
    /// The command to run on changes has no elements, not even an
    /// executable name.
    EmptyCommand,
}

} // verus!
