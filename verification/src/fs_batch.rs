//! The workers of a bounded file-system batch.
//!
//! A batch has one shared counter of the next item, one shared flag that says
//! whether some item failed, and one slot for the error to report. Each worker
//! repeats the same loop: look at the flag, claim an index, run the work on that
//! item. The loop is written here as a step function; whoever drives a worker
//! performs the operation that the step names and hands back what it observed.
//! [`crate::batch_model`] says what any number of such workers do together.

use vstd::prelude::*;

verus! {

/// Whether `work` may be run on each of the items.
pub open spec fn batch_allowed<T, R, F>(items: Seq<T>, work: F) -> bool where F: Fn(&T) -> R {
    forall|i: int| 0 <= i < items.len() ==> call_requires(work, (&#[trigger] items[i],))
}

/// Whether `result` is a right answer of a batch that stops on errors: `Ok(())`
/// when `work` ran on every item and returned `Ok(())` each time, or else an
/// error that `work` returned for one of the items.
pub open spec fn batch_answer<T, E, F>(items: Seq<T>, work: F, result: Result<(), E>) -> bool where
    F: Fn(&T) -> Result<(), E>,
 {
    match result {
        Ok(()) => forall|i: int|
            0 <= i < items.len() ==> call_ensures(work, (&#[trigger] items[i],), Ok(())),
        Err(error) => exists|i: int|
            0 <= i < items.len() && call_ensures(work, (&#[trigger] items[i],), Err(error)),
    }
}

/// Whether `work` ran on every item, with the outcome `result` each time.
pub open spec fn batch_ran<T, F>(items: Seq<T>, work: F, result: ()) -> bool where F: Fn(&T) {
    forall|i: int| 0 <= i < items.len() ==> call_ensures(work, (&#[trigger] items[i],), result)
}

/// What a worker of a batch that stops on errors does next.
#[derive(Debug)]
pub enum WorkerStep<E> {
    /// Read the shared failure flag.
    LoadFailed,
    /// Take the value of the shared counter and advance it by one.
    ClaimIndex,
    /// Run the work on the item with this index.
    Work(usize),
    /// Set the shared failure flag and learn its former value. The worker holds
    /// the error of its item.
    SwapFailed(E),
    /// Put the error in the shared slot, then stop.
    StoreError(E),
    /// Nothing is left to do.
    Stop,
}

/// What a worker observed.
#[derive(Debug)]
pub enum WorkerEvent<E> {
    /// The failure flag, as read.
    FailedLoaded(bool),
    /// The value that the shared counter had.
    IndexClaimed(usize),
    /// What the work returned.
    Worked(Result<(), E>),
    /// The value that the failure flag had before it was set.
    FailedSwapped(bool),
}

impl<E> WorkerStep<E> {
    /// Whether `event` answers this step.
    pub open spec fn accepts(self, event: WorkerEvent<E>) -> bool {
        match self {
            WorkerStep::LoadFailed => event is FailedLoaded,
            WorkerStep::ClaimIndex => event is IndexClaimed,
            WorkerStep::Work(_) => event is Worked,
            WorkerStep::SwapFailed(_) => event is FailedSwapped,
            WorkerStep::StoreError(_) => false,
            WorkerStep::Stop => false,
        }
    }

    /// The step that follows, in a batch of `item_count` items.
    pub open spec fn after(self, event: WorkerEvent<E>, item_count: nat) -> WorkerStep<E> {
        match event {
            WorkerEvent::FailedLoaded(failed) => if failed {
                WorkerStep::Stop
            } else {
                WorkerStep::ClaimIndex
            },
            WorkerEvent::IndexClaimed(index) => if index < item_count {
                WorkerStep::Work(index)
            } else {
                WorkerStep::Stop
            },
            WorkerEvent::Worked(Ok(())) => WorkerStep::LoadFailed,
            WorkerEvent::Worked(Err(error)) => WorkerStep::SwapFailed(error),
            WorkerEvent::FailedSwapped(already_failed) => if already_failed {
                WorkerStep::Stop
            } else {
                match self {
                    WorkerStep::SwapFailed(error) => WorkerStep::StoreError(error),
                    other => other,
                }
            },
        }
    }
}

/// The step with which every worker begins.
pub fn first_worker_step<E>() -> (step: WorkerStep<E>)
    ensures
        step == WorkerStep::<E>::LoadFailed,
{
    WorkerStep::LoadFailed
}

/// The step of a worker after it observed `event`, in a batch of `item_count`
/// items that stops on errors.
///
/// A worker stops when it sees the failure flag set or claims an index past the
/// last item. The worker whose item fails sets the flag; only the one that finds
/// it unset keeps its error for the shared slot.
pub fn run_bounded_fs_batch<E>(
    step: WorkerStep<E>,
    event: WorkerEvent<E>,
    item_count: usize,
) -> (next: WorkerStep<E>)
    ensures
        next == step.after(event, item_count as nat),
{
    match event {
        WorkerEvent::FailedLoaded(failed) => {
            if failed {
                WorkerStep::Stop
            } else {
                WorkerStep::ClaimIndex
            }
        },
        WorkerEvent::IndexClaimed(index) => {
            if index < item_count {
                WorkerStep::Work(index)
            } else {
                WorkerStep::Stop
            }
        },
        WorkerEvent::Worked(Ok(())) => WorkerStep::LoadFailed,
        WorkerEvent::Worked(Err(error)) => WorkerStep::SwapFailed(error),
        WorkerEvent::FailedSwapped(already_failed) => {
            if already_failed {
                WorkerStep::Stop
            } else {
                match step {
                    WorkerStep::SwapFailed(error) => WorkerStep::StoreError(error),
                    other => other,
                }
            }
        },
    }
}

/// What an error slot says about a batch: an error in it is the answer, and an
/// empty slot is a success.
pub open spec fn answer_of_slot<E>(first_error: Option<E>) -> Result<(), E> {
    match first_error {
        Some(error) => Err(error),
        None => Ok(()),
    }
}

/// The answer of a batch, once all its workers have stopped, from what its error
/// slot holds.
pub fn batch_result<E>(first_error: Option<E>) -> (result: Result<(), E>)
    ensures
        result == answer_of_slot(first_error),
{
    match first_error {
        Some(error) => Err(error),
        None => Ok(()),
    }
}

/// What a worker of a batch whose work cannot fail does next.
#[derive(Debug, Clone, Copy, PartialEq, Eq, Structural)]
pub enum UncheckedStep {
    /// Take the value of the shared counter and advance it by one.
    ClaimIndex,
    /// Run the work on the item with this index.
    Work(usize),
    /// Nothing is left to do.
    Stop,
}

/// What a worker of a batch whose work cannot fail observed.
#[derive(Debug, Clone, Copy, PartialEq, Eq, Structural)]
pub enum UncheckedEvent {
    /// The value that the shared counter had.
    IndexClaimed(usize),
    /// The work returned.
    Worked,
}

impl UncheckedStep {
    /// Whether `event` answers this step.
    pub open spec fn accepts(self, event: UncheckedEvent) -> bool {
        match self {
            UncheckedStep::ClaimIndex => event is IndexClaimed,
            UncheckedStep::Work(_) => event is Worked,
            UncheckedStep::Stop => false,
        }
    }

    /// The step that follows, in a batch of `item_count` items.
    pub open spec fn after(self, event: UncheckedEvent, item_count: nat) -> UncheckedStep {
        match event {
            UncheckedEvent::IndexClaimed(index) => if index < item_count {
                UncheckedStep::Work(index)
            } else {
                UncheckedStep::Stop
            },
            UncheckedEvent::Worked => UncheckedStep::ClaimIndex,
        }
    }
}

/// The step with which every worker of a batch that cannot fail begins.
pub fn first_unchecked_step() -> (step: UncheckedStep)
    ensures
        step == UncheckedStep::ClaimIndex,
{
    UncheckedStep::ClaimIndex
}

/// The step of a worker after it observed `event`, in a batch of `item_count`
/// items whose work cannot fail: it claims one index after the other until it
/// claims one past the last item.
pub fn run_bounded_fs_batch_unchecked(
    step: UncheckedStep,
    event: UncheckedEvent,
    item_count: usize,
) -> (next: UncheckedStep)
    ensures
        next == step.after(event, item_count as nat),
{
    match event {
        UncheckedEvent::IndexClaimed(index) => {
            if index < item_count {
                UncheckedStep::Work(index)
            } else {
                UncheckedStep::Stop
            }
        },
        UncheckedEvent::Worked => UncheckedStep::ClaimIndex,
    }
}

/// Every worker looks at the failure flag before its first item, and begins with a
/// claim where no work can fail.
pub proof fn workers_begin_with_the_flag<E>(step: WorkerStep<E>, unchecked: UncheckedStep)
    requires
        call_ensures(first_worker_step::<E>, (), step),
        call_ensures(first_unchecked_step, (), unchecked),
    ensures
        step is LoadFailed,
        unchecked is ClaimIndex,
{
}

/// Whatever the size of the batch, a worker that sees the failure flag set stops.
/// It claims an item exactly after it saw the flag unset, and looks at the flag
/// again exactly after an item that did not fail. It works on the item whose index
/// it claimed and on no other, and on none past the last. The error of its item is
/// the one that it announces, and the one that it reports: exactly if nobody
/// announced one before.
pub proof fn workers_heed_what_they_see<E>(
    step: WorkerStep<E>,
    event: WorkerEvent<E>,
    item_count: usize,
    next: WorkerStep<E>,
)
    requires
        step.accepts(event),
        call_ensures(run_bounded_fs_batch::<E>, (step, event, item_count), next),
    ensures
        event == WorkerEvent::<E>::FailedLoaded(true) ==> next is Stop,
        next is ClaimIndex <==> event == WorkerEvent::<E>::FailedLoaded(false),
        next is LoadFailed <==> event is Worked && event->Worked_0 is Ok,
        next is Work <==> event is IndexClaimed && event->IndexClaimed_0 < item_count,
        next is Work ==> next->Work_0 == event->IndexClaimed_0,
        next is SwapFailed <==> event is Worked && event->Worked_0 is Err,
        next is SwapFailed ==> next->SwapFailed_0 == event->Worked_0->Err_0,
        next is StoreError <==> event == WorkerEvent::<E>::FailedSwapped(false),
        next is StoreError ==> step is SwapFailed && next->StoreError_0 == step->SwapFailed_0,
{
}

/// An error in the slot is the answer of the batch, and without one the batch
/// succeeded.
pub proof fn the_slot_is_the_answer<E>(first_error: Option<E>, result: Result<(), E>)
    requires
        call_ensures(batch_result::<E>, (first_error,), result),
    ensures
        result is Err <==> first_error is Some,
        result is Err ==> result->Err_0 == first_error->0,
{
}

/// Where no work can fail, a worker claims one index after the other, works on
/// exactly those that name an item, and stops at the first that does not.
pub proof fn unchecked_workers_heed_what_they_see(
    step: UncheckedStep,
    event: UncheckedEvent,
    item_count: usize,
    next: UncheckedStep,
)
    requires
        call_ensures(run_bounded_fs_batch_unchecked, (step, event, item_count), next),
    ensures
        next is ClaimIndex <==> event is Worked,
        next is Work <==> event is IndexClaimed && event->IndexClaimed_0 < item_count,
        next is Work ==> next->Work_0 == event->IndexClaimed_0,
{
}

} // verus!
