use vstd::prelude::*;

verus! {

/// The ways a library operation can fail, kept apart from the game-semantic
/// outcomes so a caller can tell "the game said no" from "the system is
/// broken".
///
/// - `StorageFailure`: the backing store was unavailable or rejected an
///   operation.
/// - `LockUnavailable`: shared state could not be safely acquired; the caller
///   that wraps this library in a lock maps a poisoned lock to this kind.
/// - `NotFound`: the operation required a registered channel, or a non-empty
///   buffer, that was not there.
#[derive(Debug, Clone, Copy, PartialEq, Eq)]
pub enum Error {
    StorageFailure,
    LockUnavailable,
    NotFound,
}

} // verus!
