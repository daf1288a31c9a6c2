//! Error taxonomy of the migration core.
//!
//! Every lifecycle failure carries the underlying cause together with a short
//! operation phrase, so no error is ever swallowed on its way up.

use vstd::prelude::*;

verus! {

/// A failure surfaced by the migration core.
///
/// - `Execution`: the database engine rejected a statement (syntax,
///   constraint violation, permission). `context` is a short operation
///   phrase; `cause` is the engine's own message, kept verbatim.
/// - `Validation`: an action definition is malformed (for example, a
///   primary-key entry names an undeclared column).
/// - `Decode`: a serialized action carried an unknown or malformed tag.
/// - `Abort`: a compensating action itself failed; the system may be in an
///   inconsistent state needing operator attention.
#[derive(Debug, Clone)]
pub enum MigrationError {
    Execution { context: String, cause: String },
    Validation { message: String },
    Decode { message: String },
    Abort { context: String, cause: String },
}

impl MigrationError {
    /// True exactly for engine-rejected statements.
    pub fn is_execution(&self) -> (r: bool)
        ensures
            r == (self is Execution),
    {
        match self {
            MigrationError::Execution { .. } => true,
            _ => false,
        }
    }

    /// True exactly for malformed action definitions.
    pub fn is_validation(&self) -> (r: bool)
        ensures
            r == (self is Validation),
    {
        match self {
            MigrationError::Validation { .. } => true,
            _ => false,
        }
    }

    /// True exactly for unknown or malformed serialized actions.
    pub fn is_decode(&self) -> (r: bool)
        ensures
            r == (self is Decode),
    {
        match self {
            MigrationError::Decode { .. } => true,
            _ => false,
        }
    }

    /// True exactly for failed compensating actions.
    pub fn is_abort(&self) -> (r: bool)
        ensures
            r == (self is Abort),
    {
        match self {
            MigrationError::Abort { .. } => true,
            _ => false,
        }
    }
}

} // verus!
