//! The ways in which a command can fail.

use vstd::prelude::*;

verus! {

/// Why a command did not produce its result.
#[derive(Clone, Copy, Debug, PartialEq, Eq, Structural)]
pub enum ArticleError {
    /// No row has the identifier that the command named.
    NotFound,
    /// The storage refused or could not carry out the operation.
    StorageError,
    /// The request itself was malformed.
    ValidationError,
}

} // verus!
