//! The error kinds surfaced by the session model and the store.

use vstd::prelude::*;

verus! {

/// What can go wrong in a model or store operation.
///
/// `ValidationError`: a required field (the timer name) was empty; the
/// operation leaves all state unchanged and the caller re-prompts.
/// `NotFoundError`: the target id is unknown to the store; the operation is
/// aborted and surfaced as a non-fatal message.
/// `StorageError`: the underlying database reported a failure; in-memory
/// state stays authoritative and the next persistence attempt retries.
#[derive(Debug, Clone, Copy, PartialEq, Eq, Structural)]
pub enum TimerError {
    ValidationError,
    NotFoundError,
    StorageError,
}

} // verus!
