//! The scheduler that package batches go through.

use crate::fs_batch::{batch_allowed, batch_answer, batch_ran};
use crate::runtime::{
    ask_flavor, blocked_in, blocks_in_place, run_blocking, told_flavor, RuntimeFlavor,
};
use rayon::iter::{IntoParallelRefIterator, ParallelIterator};
use vstd::prelude::*;

verus! {

/// Calls `rayon`'s `ParallelIterator::try_for_each` on the items.
///
/// `Ok(())` comes back only when `work` ran on every item and each run returned
/// `Ok(())`. An error that comes back is one that `work` returned for some
/// item; which one, where several items fail, is left open. Where rayon cannot
/// start the threads of its global pool it panics, which no argument tells.
#[verifier::external_body]
fn par_try_for_each<T, E, F>(items: &[T], work: F) -> (result: Result<(), E>) where
    T: Sync,
    F: Fn(&T) -> Result<(), E> + Send + Sync,
    E: Send,

    requires
        batch_allowed(items@, work),
    ensures
        batch_answer(items@, work, result),
{
    items.par_iter().try_for_each(work)
}

/// Calls `rayon`'s `ParallelIterator::for_each` on the items: `work` ran on each
/// of them and returned. Where rayon cannot start the threads of its global pool it
/// panics, which no argument tells.
#[verifier::external_body]
fn par_for_each<T, F>(items: &[T], work: F) -> (result: ()) where
    T: Sync,
    F: Fn(&T) + Send + Sync,

    requires
        batch_allowed(items@, work),
    ensures
        batch_ran(items@, work, result),
{
    items.par_iter().for_each(work)
}

/// A package batch that is about to run: the items, and the work to do on each.
pub struct PackageBatch<'a, T, F> {
    pub items: &'a [T],
    pub work: F,
}

impl<'a, T: Sync, F> PackageBatch<'a, T, F> {
    /// Runs the work on every item, in parallel, and stops early on an error.
    pub fn run<E>(self) -> (result: Result<(), E>) where
        F: Fn(&T) -> Result<(), E> + Send + Sync,
        E: Send,

        requires
            batch_allowed(self.items@, self.work),
        ensures
            batch_answer(self.items@, self.work, result),
    {
        par_try_for_each(self.items, self.work)
    }

    /// Runs the work on every item, in parallel.
    pub fn run_unchecked(self) -> (result: ()) where F: Fn(&T) + Send + Sync
        requires
            batch_allowed(self.items@, self.work),
        ensures
            batch_ran(self.items@, self.work, result),
    {
        par_for_each(self.items, self.work)
    }
}

/// Central boundary for install scheduling decisions of the package manager.
///
/// Package batches are handed to rayon; callers describe the work and leave the
/// choice of the executor here.
#[derive(Debug, Default, Clone, Copy)]
pub struct InstallScheduler;

impl InstallScheduler {
    /// The scheduler of this process.
    pub fn current() -> (scheduler: Self)
        ensures
            scheduler == InstallScheduler,
    {
        InstallScheduler
    }

    /// Runs `work` on every item, in parallel, and stops early on an error. The
    /// batch blocks: inside a multi-thread tokio runtime it is handed to `in_place`,
    /// which is to run it there; everywhere else it simply runs.
    pub fn run_fs_batch<'a, T, E, F, B>(&self, items: &'a [T], work: F, in_place: B) -> (result:
        Result<(), E>) where
        T: Sync,
        F: Fn(&T) -> Result<(), E> + Send + Sync,
        E: Send,
        B: FnOnce(PackageBatch<'a, T, F>) -> Result<(), E>,

        requires
            batch_allowed(items@, work),
            told_flavor(Some(RuntimeFlavor::MultiThread)) ==> call_requires(
                in_place,
                ((PackageBatch { items, work }),),
            ),
            forall|answer: Result<(), E>| #[trigger]
                call_ensures(in_place, ((PackageBatch { items, work }),), answer) ==> batch_answer(
                    items@,
                    work,
                    answer,
                ),
        ensures
            batch_answer(items@, work, result),
            exists|flavor: Option<RuntimeFlavor>| #[trigger]
                told_flavor(flavor) && (flavor == Some(RuntimeFlavor::MultiThread) ==> call_ensures(
                    in_place,
                    ((PackageBatch { items, work }),),
                    result,
                )),
    {
        let batch = PackageBatch { items, work };
        if blocks_in_place(ask_flavor()) {
            in_place(batch)
        } else {
            batch.run()
        }
    }

    /// Runs `work` on every item, in parallel. The batch blocks: inside a
    /// multi-thread tokio runtime it is handed to `in_place`, which is to run it
    /// there; everywhere else it simply runs.
    pub fn run_fs_batch_unchecked<'a, T, F, B>(
        &self,
        items: &'a [T],
        work: F,
        in_place: B,
    ) -> (result: ()) where
        T: Sync,
        F: Fn(&T) + Send + Sync,
        B: FnOnce(PackageBatch<'a, T, F>),

        requires
            batch_allowed(items@, work),
            told_flavor(Some(RuntimeFlavor::MultiThread)) ==> call_requires(
                in_place,
                ((PackageBatch { items, work }),),
            ),
            forall|answer: ()| #[trigger]
                call_ensures(in_place, ((PackageBatch { items, work }),), answer) ==> batch_ran(
                    items@,
                    work,
                    answer,
                ),
        ensures
            batch_ran(items@, work, result),
            exists|flavor: Option<RuntimeFlavor>| #[trigger]
                told_flavor(flavor) && (flavor == Some(RuntimeFlavor::MultiThread) ==> call_ensures(
                    in_place,
                    ((PackageBatch { items, work }),),
                    result,
                )),
    {
        let batch = PackageBatch { items, work };
        if blocks_in_place(ask_flavor()) {
            in_place(batch)
        } else {
            batch.run_unchecked()
        }
    }

    /// Runs blocking package-manager work on the calling thread. Inside a
    /// multi-thread tokio runtime it is handed to `in_place`; inside a
    /// current-thread one, and outside every runtime, it simply runs.
    pub fn run_blocking<F, R, B>(&self, work: F, in_place: B) -> (result: R) where
        F: FnOnce() -> R,
        B: FnOnce(F) -> R,

        requires
            told_flavor(Some(RuntimeFlavor::MultiThread)) ==> call_requires(in_place, (work,)),
            call_requires(work, ()),
        ensures
            exists|flavor: Option<RuntimeFlavor>| #[trigger]
                told_flavor(flavor) && blocked_in(flavor, work, in_place, result),
    {
        run_blocking(work, in_place)
    }
}

/// A package batch answers for its items: a success means that the work succeeded on
/// every one of them, and an error is one that the work returned for some item.
/// Inside a multi-thread runtime the answer is that of `in_place`, which was handed
/// these items and this work.
pub proof fn package_batches_answer_for_their_items<'a, T, E, F, B>(
    scheduler: InstallScheduler,
    items: &'a [T],
    work: F,
    in_place: B,
    result: Result<(), E>,
) where
    T: Sync,
    F: Fn(&T) -> Result<(), E> + Send + Sync,
    E: Send,
    B: FnOnce(PackageBatch<'a, T, F>) -> Result<(), E>,

    requires
        call_ensures(
            InstallScheduler::run_fs_batch::<T, E, F, B>,
            (&scheduler, items, work, in_place),
            result,
        ),
    ensures
        result is Ok ==> forall|i: int|
            0 <= i < items@.len() ==> call_ensures(work, (&#[trigger] items@[i],), Ok(())),
        result matches Err(error) ==> exists|i: int|
            0 <= i < items@.len() && call_ensures(work, (&#[trigger] items@[i],), Err(error)),
        exists|flavor: Option<RuntimeFlavor>| #[trigger]
            told_flavor(flavor) && (flavor == Some(RuntimeFlavor::MultiThread) ==> call_ensures(
                in_place,
                ((PackageBatch { items, work }),),
                result,
            )),
{
    assert(batch_answer(items@, work, result));
}

/// A package batch whose work cannot fail has run it on every item. Inside a
/// multi-thread runtime it was handed to `in_place`, with these items and this work.
pub proof fn unchecked_package_batches_run_every_item<'a, T, F, B>(
    scheduler: InstallScheduler,
    items: &'a [T],
    work: F,
    in_place: B,
    result: (),
) where T: Sync, F: Fn(&T) + Send + Sync, B: FnOnce(PackageBatch<'a, T, F>)
    requires
        call_ensures(
            InstallScheduler::run_fs_batch_unchecked::<T, F, B>,
            (&scheduler, items, work, in_place),
            result,
        ),
    ensures
        forall|i: int|
            0 <= i < items@.len() ==> call_ensures(work, (&#[trigger] items@[i],), result),
        exists|flavor: Option<RuntimeFlavor>| #[trigger]
            told_flavor(flavor) && (flavor == Some(RuntimeFlavor::MultiThread) ==> call_ensures(
                in_place,
                ((PackageBatch { items, work }),),
                result,
            )),
{
    assert(batch_ran(items@, work, result));
}

/// Blocking package-manager work goes to `in_place` inside a multi-thread runtime,
/// and is run straight away everywhere else.
pub proof fn blocking_package_work_suits_its_runtime<F, R, B>(
    scheduler: InstallScheduler,
    work: F,
    in_place: B,
    result: R,
) where F: FnOnce() -> R, B: FnOnce(F) -> R
    requires
        call_ensures(
            InstallScheduler::run_blocking::<F, R, B>,
            (&scheduler, work, in_place),
            result,
        ),
    ensures
        exists|flavor: Option<RuntimeFlavor>| #[trigger]
            told_flavor(flavor) && if flavor == Some(RuntimeFlavor::MultiThread) {
                call_ensures(in_place, (work,), result)
            } else {
                call_ensures(work, (), result)
            },
{
    let flavor = choose|flavor: Option<RuntimeFlavor>| #[trigger]
        told_flavor(flavor) && blocked_in(flavor, work, in_place, result);
    assert(told_flavor(flavor));
}

/// A batch that runs answers for its own items, whoever runs it: a success means
/// that its work succeeded on every one of them, and an error is one that its work
/// returned for some item.
pub proof fn batches_that_run_answer_for_their_items<'a, T, E, F>(
    batch: PackageBatch<'a, T, F>,
    result: Result<(), E>,
) where T: Sync, F: Fn(&T) -> Result<(), E> + Send + Sync, E: Send
    requires
        call_ensures(PackageBatch::<'a, T, F>::run::<E>, (batch,), result),
    ensures
        result is Ok ==> forall|i: int|
            0 <= i < batch.items@.len() ==> call_ensures(
                batch.work,
                (&#[trigger] batch.items@[i],),
                Ok(()),
            ),
        result matches Err(error) ==> exists|i: int|
            0 <= i < batch.items@.len() && call_ensures(
                batch.work,
                (&#[trigger] batch.items@[i],),
                Err(error),
            ),
{
    assert(batch_answer(batch.items@, batch.work, result));
}

/// A batch whose work cannot fail has run it on each of its items, whoever runs it.
pub proof fn unchecked_batches_that_run_run_every_item<'a, T, F>(
    batch: PackageBatch<'a, T, F>,
    result: (),
) where T: Sync, F: Fn(&T) + Send + Sync
    requires
        call_ensures(PackageBatch::<'a, T, F>::run_unchecked, (batch,), result),
    ensures
        forall|i: int|
            0 <= i < batch.items@.len() ==> call_ensures(
                batch.work,
                (&#[trigger] batch.items@[i],),
                result,
            ),
{
    assert(batch_ran(batch.items@, batch.work, result));
}

} // verus!
