use vstd::prelude::*;

use crate::file::FileError;

verus! {

/// Possible messages from a background save task back to the interactive
/// thread. Exactly one is delivered per save operation.
#[derive(Debug)]
pub enum Message {
    /// The save has finished: either it succeeded, or it failed with the
    /// classified error (and the document must not be marked saved).
    FinishSave(Result<(), FileError>),
}

} // verus!
