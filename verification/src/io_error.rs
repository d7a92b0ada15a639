//! Failures of file-system operations.

use vstd::prelude::*;

verus! {

/// The kinds of failure that decisions are made on.
#[derive(Debug, Clone, Copy, PartialEq, Eq, Structural)]
pub enum ErrorKind {
    NotFound,
    AlreadyExists,
    DirectoryNotEmpty,
    Other,
}

/// A failed operation: the kind of the failure, and the failure itself, which is
/// only passed on.
#[derive(Debug)]
pub struct IoError<E> {
    pub kind: ErrorKind,
    pub source: E,
}

/// Whether the kind says that a directory is in the way.
pub open spec fn existing_dir(kind: ErrorKind) -> bool {
    kind is AlreadyExists || kind is DirectoryNotEmpty
}

/// Whether an operation failed because a directory is in the way.
pub fn is_existing_dir_error<E>(error: &IoError<E>) -> (existing: bool)
    ensures
        existing <==> existing_dir(error.kind),
{
    matches!(error.kind, ErrorKind::AlreadyExists | ErrorKind::DirectoryNotEmpty)
}

/// Whether a directory is gone after an attempt to remove it.
pub open spec fn is_gone<E>(removal: Result<(), IoError<E>>) -> bool {
    removal is Ok || removal->Err_0.kind is NotFound
}

/// The answer of a removal that is content if there is nothing to remove.
pub fn remove_dir_if_exists<E>(removal: Result<(), IoError<E>>) -> (result: Result<
    (),
    IoError<E>,
>)
    ensures
        is_gone(removal) ==> result == Ok::<(), IoError<E>>(()),
        !is_gone(removal) ==> result == removal,
{
    match removal {
        Ok(()) => Ok(()),
        Err(error) => {
            if matches!(error.kind, ErrorKind::NotFound) {
                Ok(())
            } else {
                Err(error)
            }
        },
    }
}

/// A directory is in the way exactly for the two kinds that say so. A removal is
/// content exactly if it worked or there was nothing to remove, and otherwise hands
/// its own failure on.
pub proof fn kinds_decide_what_a_failure_means<E>(
    error: IoError<E>,
    existing: bool,
    removal: Result<(), IoError<E>>,
    result: Result<(), IoError<E>>,
)
    requires
        call_ensures(is_existing_dir_error::<E>, (&error,), existing),
        call_ensures(remove_dir_if_exists::<E>, (removal,), result),
    ensures
        existing <==> error.kind is AlreadyExists || error.kind is DirectoryNotEmpty,
        result is Ok <==> removal is Ok || removal->Err_0.kind is NotFound,
        result is Err ==> removal is Err && result->Err_0 == removal->Err_0,
{
}

} // verus!
