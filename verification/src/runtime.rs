//! Blocking work and the tokio runtime it is started from.

use vstd::prelude::*;

verus! {

/// The kind of tokio runtime that a thread is running in.
#[derive(Debug, Clone, Copy, PartialEq, Eq, Structural)]
pub enum RuntimeFlavor {
    CurrentThread,
    MultiThread,
    Other,
}

/// Calls `tokio::runtime::Handle::try_current` and, where there is a runtime,
/// `Handle::runtime_flavor` on its handle. `None` stands for a thread outside
/// every runtime.
///
/// Nothing is claimed of the result: it depends on the thread of the caller.
#[verifier::external_body]
fn current_runtime_flavor() -> Option<RuntimeFlavor> {
    match tokio::runtime::Handle::try_current() {
        Ok(handle) => match handle.runtime_flavor() {
            tokio::runtime::RuntimeFlavor::CurrentThread => Some(RuntimeFlavor::CurrentThread),
            tokio::runtime::RuntimeFlavor::MultiThread => Some(RuntimeFlavor::MultiThread),
            _ => Some(RuntimeFlavor::Other),
        },
        Err(_) => None,
    }
}

/// Whether `flavor` is what the calling thread may be told when it asks for the
/// runtime it is in.
pub closed spec fn told_flavor(flavor: Option<RuntimeFlavor>) -> bool {
    call_ensures(current_runtime_flavor, (), flavor)
}

/// Whether `result` comes from `work` in the way that suits a thread whose runtime
/// is `flavor`: by way of `in_place` in a multi-thread runtime, and straight from
/// the work everywhere else.
pub open spec fn blocked_in<F, R, B>(
    flavor: Option<RuntimeFlavor>,
    work: F,
    in_place: B,
    result: R,
) -> bool where F: FnOnce() -> R, B: FnOnce(F) -> R {
    if flavor == Some(RuntimeFlavor::MultiThread) {
        call_ensures(in_place, (work,), result)
    } else {
        call_ensures(work, (), result)
    }
}

/// Whether blocking work has to leave the runtime first: only a multi-thread one can
/// go on without the thread.
pub fn blocks_in_place(flavor: Option<RuntimeFlavor>) -> (in_place: bool)
    ensures
        in_place <==> flavor == Some(RuntimeFlavor::MultiThread),
{
    matches!(flavor, Some(RuntimeFlavor::MultiThread))
}

/// Runs blocking work on the calling thread, whose runtime is `flavor`.
///
/// Inside a multi-thread runtime the work is handed to `in_place`, which moves the
/// other futures of the worker away first and runs it then. A current-thread
/// runtime has nowhere to move them to, so there, and outside every runtime, the
/// work simply runs.
pub fn run_blocking_in<F, R, B>(flavor: Option<RuntimeFlavor>, work: F, in_place: B) -> (result: R)
    where F: FnOnce() -> R, B: FnOnce(F) -> R
    requires
        flavor == Some(RuntimeFlavor::MultiThread) ==> call_requires(in_place, (work,)),
        flavor != Some(RuntimeFlavor::MultiThread) ==> call_requires(work, ()),
    ensures
        flavor == Some(RuntimeFlavor::MultiThread) ==> call_ensures(in_place, (work,), result),
        flavor != Some(RuntimeFlavor::MultiThread) ==> call_ensures(work, (), result),
{
    if blocks_in_place(flavor) {
        in_place(work)
    } else {
        work()
    }
}

fn ask<C>(current: C) -> (flavor: Option<RuntimeFlavor>) where
    C: FnOnce() -> Option<RuntimeFlavor>,

    requires
        call_requires(current, ()),
    ensures
        call_ensures(current, (), flavor),
{
    current()
}

/// Asks which runtime the calling thread is in.
pub(crate) fn ask_flavor() -> (flavor: Option<RuntimeFlavor>)
    ensures
        told_flavor(flavor),
{
    ask(current_runtime_flavor)
}

/// Runs blocking work on the calling thread, from inside a multi-thread tokio
/// runtime, a current-thread one, or none: asks which of these it is, and goes on
/// as [`run_blocking_in`] does.
pub fn run_blocking<F, R, B>(work: F, in_place: B) -> (result: R) where
    F: FnOnce() -> R,
    B: FnOnce(F) -> R,

    requires
        told_flavor(Some(RuntimeFlavor::MultiThread)) ==> call_requires(in_place, (work,)),
        call_requires(work, ()),
    ensures
        exists|flavor: Option<RuntimeFlavor>| #[trigger]
            told_flavor(flavor) && blocked_in(flavor, work, in_place, result),
{
    let flavor = ask_flavor();
    run_blocking_in(flavor, work, in_place)
}

proof fn lemma_flavors_are_tokios(flavor: Option<RuntimeFlavor>)
    ensures
        told_flavor(flavor) <==> call_ensures(current_runtime_flavor, (), flavor),
{
}

/// Blocking work is handed to `in_place` inside a multi-thread runtime and in no
/// other place; everywhere else its own result comes back.
pub proof fn only_a_multi_thread_runtime_is_left<F, R, B>(
    flavor: Option<RuntimeFlavor>,
    work: F,
    in_place: B,
    leaves: bool,
    in_runtime: R,
    result: R,
) where F: FnOnce() -> R, B: FnOnce(F) -> R
    requires
        call_ensures(blocks_in_place, (flavor,), leaves),
        call_ensures(run_blocking_in::<F, R, B>, (flavor, work, in_place), in_runtime),
        call_ensures(run_blocking::<F, R, B>, (work, in_place), result),
    ensures
        leaves <==> flavor is Some && flavor->0 is MultiThread,
        leaves ==> call_ensures(in_place, (work,), in_runtime),
        !leaves ==> call_ensures(work, (), in_runtime),
        exists|told: Option<RuntimeFlavor>| #[trigger]
            told_flavor(told) && if told is Some && told->0 is MultiThread {
                call_ensures(in_place, (work,), result)
            } else {
                call_ensures(work, (), result)
            },
{
    let told = choose|told: Option<RuntimeFlavor>| #[trigger]
        told_flavor(told) && blocked_in(told, work, in_place, result);
    assert(told_flavor(told));
}

} // verus!
