//! Putting a staged directory in the place of another.

use crate::io_error::{
    existing_dir, is_existing_dir_error, is_gone, remove_dir_if_exists, IoError,
};
use crate::protocol::{outcome, performs};
use vstd::prelude::*;

verus! {

/// What happened while a directory is replaced.
#[derive(Debug)]
pub enum ReplaceEvent<E> {
    /// The stage is complete.
    Begin,
    /// The stage was renamed to the target, or not.
    Renamed(Result<(), IoError<E>>),
    /// The target was removed, or not.
    TargetRemoved(Result<(), IoError<E>>),
    /// The stage was renamed to the target in the second attempt, or not.
    RenamedAgain(Result<(), IoError<E>>),
}

/// What to do next to replace a directory.
#[derive(Debug)]
pub enum ReplaceAction<E> {
    /// Rename the stage to the target.
    Rename,
    /// Remove the target and all that is in it.
    RemoveTarget,
    /// Rename the stage to the target once more.
    RenameAgain,
    /// Return this.
    Finish(Result<(), IoError<E>>),
    /// Remove the stage, whether that works or not, and return this.
    DiscardStage(Result<(), IoError<E>>),
}

/// The action that follows an event.
///
/// A target that is in the way is removed, and the rename tried once more. If
/// another one is in the way then, somebody else has put their own directory
/// there meanwhile, and that one stays. A stage that a failed rename leaves
/// behind is discarded.
pub open spec fn replace_action<E>(event: ReplaceEvent<E>) -> ReplaceAction<E> {
    match event {
        ReplaceEvent::Begin => ReplaceAction::Rename,
        ReplaceEvent::Renamed(Ok(())) => ReplaceAction::Finish(Ok(())),
        ReplaceEvent::Renamed(Err(error)) => if existing_dir(error.kind) {
            ReplaceAction::RemoveTarget
        } else {
            ReplaceAction::DiscardStage(Err(error))
        },
        ReplaceEvent::TargetRemoved(removal) => if is_gone(removal) {
            ReplaceAction::RenameAgain
        } else {
            ReplaceAction::Finish(removal)
        },
        ReplaceEvent::RenamedAgain(Ok(())) => ReplaceAction::Finish(Ok(())),
        ReplaceEvent::RenamedAgain(Err(error)) => if existing_dir(error.kind) {
            ReplaceAction::DiscardStage(Ok(()))
        } else {
            ReplaceAction::DiscardStage(Err(error))
        },
    }
}

/// Decides what to do next to put the stage in the place of the target.
pub fn replace_dir<E>(event: ReplaceEvent<E>) -> (action: ReplaceAction<E>)
    ensures
        action == replace_action(event),
{
    match event {
        ReplaceEvent::Begin => ReplaceAction::Rename,
        ReplaceEvent::Renamed(Ok(())) => ReplaceAction::Finish(Ok(())),
        ReplaceEvent::Renamed(Err(error)) => {
            if is_existing_dir_error(&error) {
                ReplaceAction::RemoveTarget
            } else {
                ReplaceAction::DiscardStage(Err(error))
            }
        },
        ReplaceEvent::TargetRemoved(removal) => match remove_dir_if_exists(removal) {
            Ok(()) => ReplaceAction::RenameAgain,
            Err(error) => ReplaceAction::Finish(Err(error)),
        },
        ReplaceEvent::RenamedAgain(Ok(())) => ReplaceAction::Finish(Ok(())),
        ReplaceEvent::RenamedAgain(Err(error)) => {
            if is_existing_dir_error(&error) {
                ReplaceAction::DiscardStage(Ok(()))
            } else {
                ReplaceAction::DiscardStage(Err(error))
            }
        },
    }
}

/// How the file system answers while a directory is replaced.
pub struct ReplaceAnswers<E> {
    pub rename: Result<(), IoError<E>>,
    pub removal: Result<(), IoError<E>>,
    pub second_rename: Result<(), IoError<E>>,
}

impl<E> ReplaceAnswers<E> {
    /// The event that an action leads to.
    pub open spec fn answer(self) -> spec_fn(ReplaceAction<E>) -> Option<ReplaceEvent<E>> {
        |action: ReplaceAction<E>|
            match action {
                ReplaceAction::Rename => Some(ReplaceEvent::Renamed(self.rename)),
                ReplaceAction::RemoveTarget => Some(ReplaceEvent::TargetRemoved(self.removal)),
                ReplaceAction::RenameAgain => Some(ReplaceEvent::RenamedAgain(self.second_rename)),
                ReplaceAction::Finish(_) => None,
                ReplaceAction::DiscardStage(_) => None,
            }
    }

    /// Whether the first rename found a directory in the way.
    pub open spec fn in_the_way(self) -> bool {
        self.rename is Err && existing_dir(self.rename->Err_0.kind)
    }

    /// Whether the second rename is tried.
    pub open spec fn tried_again(self) -> bool {
        self.in_the_way() && is_gone(self.removal)
    }

    /// Whether the stage has become the target.
    pub open spec fn replaced(self) -> bool {
        self.rename is Ok || self.tried_again() && self.second_rename is Ok
    }

    /// Whether the target was replaced by somebody else meanwhile.
    pub open spec fn overtaken(self) -> bool {
        self.tried_again() && self.second_rename is Err && existing_dir(
            self.second_rename->Err_0.kind,
        )
    }

    /// What the replacement returns.
    pub open spec fn result(self) -> Result<(), IoError<E>> {
        if self.replaced() || self.overtaken() {
            Ok(())
        } else if self.tried_again() {
            self.second_rename
        } else if self.in_the_way() {
            self.removal
        } else {
            self.rename
        }
    }

    /// The last action of the run with these answers.
    pub open spec fn last_action(self) -> ReplaceAction<E> {
        outcome(
            |event: ReplaceEvent<E>| replace_action(event),
            self.answer(),
            ReplaceEvent::Begin,
            3,
        )
    }

    /// Whether the run with these answers performs `wanted`.
    pub open spec fn performs(self, wanted: ReplaceAction<E>) -> bool {
        performs(
            |event: ReplaceEvent<E>| replace_action(event),
            self.answer(),
            ReplaceEvent::Begin,
            3,
            wanted,
        )
    }
}

/// A replacement succeeds exactly when the stage has become the target or
/// somebody else's directory has taken the place of the one that was removed;
/// otherwise it returns the failure that stopped it. The stage is discarded
/// unless it was renamed or the target could not be removed.
pub proof fn replacement_ends_as_the_renames_say<E>(answers: ReplaceAnswers<E>)
    ensures
        answers.replaced() ==> answers.last_action() == ReplaceAction::<E>::Finish(Ok(())),
        answers.in_the_way() && !answers.tried_again() ==> answers.last_action()
            == ReplaceAction::<E>::Finish(answers.removal),
        !answers.replaced() && (!answers.in_the_way() || answers.tried_again())
            ==> answers.last_action() == ReplaceAction::<E>::DiscardStage(answers.result()),
        answers.result() is Ok <==> answers.replaced() || answers.overtaken(),
{
    reveal_with_fuel(outcome, 4);
}

/// The target is removed only when it was in the way of a rename.
pub proof fn target_is_removed_only_if_in_the_way<E>(answers: ReplaceAnswers<E>)
    ensures
        answers.performs(ReplaceAction::RemoveTarget) <==> answers.in_the_way(),
{
    reveal_with_fuel(performs, 4);
}

/// A replacement renames first, removes the target exactly if a directory was in
/// the way of that rename, and renames again exactly if the target is gone then. It
/// succeeds exactly after a rename that worked, or a second one that found a
/// directory in its way. A failure that it returns is the one that it saw. The
/// stage is discarded after each rename that ends the matter without having worked,
/// and only then.
pub proof fn replacements_follow_the_renames<E>(event: ReplaceEvent<E>, action: ReplaceAction<E>)
    requires
        call_ensures(replace_dir::<E>, (event,), action),
    ensures
        action is Rename <==> event is Begin,
        action is RemoveTarget <==> {
            &&& event is Renamed
            &&& event->Renamed_0 is Err
            &&& {
                ||| event->Renamed_0->Err_0.kind is AlreadyExists
                ||| event->Renamed_0->Err_0.kind is DirectoryNotEmpty
            }
        },
        action is RenameAgain <==> {
            &&& event is TargetRemoved
            &&& event->TargetRemoved_0 is Ok || event->TargetRemoved_0->Err_0.kind is NotFound
        },
        action is Finish && action->Finish_0 is Ok <==> {
            ||| event is Renamed && event->Renamed_0 is Ok
            ||| event is RenamedAgain && event->RenamedAgain_0 is Ok
        },
        action is Finish && action->Finish_0 is Err ==> event is TargetRemoved
            && event->TargetRemoved_0 == action->Finish_0,
        action is DiscardStage && action->DiscardStage_0 is Ok <==> {
            &&& event is RenamedAgain
            &&& event->RenamedAgain_0 is Err
            &&& {
                ||| event->RenamedAgain_0->Err_0.kind is AlreadyExists
                ||| event->RenamedAgain_0->Err_0.kind is DirectoryNotEmpty
            }
        },
        action is DiscardStage && action->DiscardStage_0 is Err ==> {
            ||| event is Renamed && event->Renamed_0 == action->DiscardStage_0
            ||| event is RenamedAgain && event->RenamedAgain_0 == action->DiscardStage_0
        },
{
}

} // verus!
