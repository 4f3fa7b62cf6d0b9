use vstd::prelude::*;

use crate::card::CardID;
use crate::card::IncID;

verus! {

/// Entering the workflow with a creation context whose referenced card or
/// source item does not exist. Fatal at entry: the editor is never built
/// around a dangling reference.
#[derive(Clone, Copy, PartialEq, Eq, Structural, Debug)]
pub enum ConstructionError {
    MissingCard(CardID),
    MissingSource(IncID),
}

/// Why the store could not complete a submission.
#[derive(Clone, Copy, PartialEq, Eq, Structural, Debug)]
pub enum StorageError {
    /// The card or source the context inherits its topic from is gone.
    MissingReference,
    /// The write itself failed; nothing was persisted.
    WriteFailed,
}

/// Why a submission was refused. In every case the editor's text is left
/// exactly as the user entered it.
#[derive(Clone, Copy, PartialEq, Eq, Structural, Debug)]
pub enum SubmitError {
    /// A plain card needs a topic picked in the selector, and none was.
    NoTopicSelected,
    Storage(StorageError),
}

} // verus!
