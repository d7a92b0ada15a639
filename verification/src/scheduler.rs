//! The scheduler of install work, by resource.

use crate::host::{cpu_parallelism, fs_parallelism, Host};
use crate::protocol::{outcome, performs};
use crate::runtime::{blocked_in, run_blocking, told_flavor, RuntimeFlavor};
use vstd::prelude::*;

verus! {

/// The resource that a task is limited by.
#[derive(Debug, Clone, Copy, PartialEq, Eq, Structural)]
pub enum Resource {
    Cpu,
    Fs,
}

/// How many tasks of a resource may run at once.
pub open spec fn permitted(resource: Resource, host: Host) -> nat {
    match resource {
        Resource::Cpu => if host.threads() == 0 {
            1
        } else {
            host.threads()
        },
        Resource::Fs => host.fs_threads(),
    }
}

/// How many permits the semaphore of a resource is made with.
pub fn permits(resource: Resource, host: &Host) -> (count: usize)
    ensures
        count == permitted(resource, *host),
{
    match resource {
        Resource::Cpu => cpu_parallelism(host),
        Resource::Fs => fs_parallelism(host),
    }
}

/// A file-system batch that is ready to run: its items, and the workers that
/// share them.
#[derive(Debug, Clone, Copy)]
pub struct FsBatch {
    pub item_count: usize,
    pub worker_count: usize,
}

impl FsBatch {
    /// Whether the batch has one worker for each item, but no more than `most`,
    /// and so none exactly when it is empty.
    pub open spec fn shared_among(self, item_count: nat, most: nat) -> bool {
        &&& self.item_count == item_count
        &&& self.worker_count == if item_count <= most {
            item_count
        } else {
            most
        }
        &&& self.worker_count == 0 <==> item_count == 0
    }

    fn new(item_count: usize, host: &Host) -> (batch: FsBatch)
        ensures
            batch.shared_among(item_count as nat, host.fs_threads()),
    {
        let most: usize = fs_parallelism(host);
        let worker_count: usize = if most < item_count {
            most
        } else {
            item_count
        };
        FsBatch { item_count, worker_count }
    }
}

/// What happened to a task that waits for a permit.
#[derive(Debug)]
pub enum TaskEvent<R> {
    /// The task was handed to the scheduler.
    Submitted,
    /// A permit of the resource is held.
    PermitAcquired,
    /// The blocking thread ended, with this outcome.
    Joined(R),
}

/// What comes next for a task.
#[derive(Debug)]
pub enum TaskAction<R> {
    /// Wait for a permit of the resource.
    AcquirePermit(Resource),
    /// Run the work on a thread where blocking is fine, and wait for it.
    SpawnBlocking,
    /// Give the permit back and return the outcome.
    Finish(R),
}

/// The action that follows an event, for a task of a resource.
pub open spec fn task_action<R>(resource: Resource, event: TaskEvent<R>) -> TaskAction<R> {
    match event {
        TaskEvent::Submitted => TaskAction::AcquirePermit(resource),
        TaskEvent::PermitAcquired => TaskAction::SpawnBlocking,
        TaskEvent::Joined(outcome) => TaskAction::Finish(outcome),
    }
}

fn advance_task<R>(resource: Resource, event: TaskEvent<R>) -> (action: TaskAction<R>)
    ensures
        action == task_action(resource, event),
{
    match event {
        TaskEvent::Submitted => TaskAction::AcquirePermit(resource),
        TaskEvent::PermitAcquired => TaskAction::SpawnBlocking,
        TaskEvent::Joined(outcome) => TaskAction::Finish(outcome),
    }
}

/// Central boundary for install scheduling decisions.
///
/// File-system batches get a number of workers that fits the machine. Work is
/// told apart by resource, so that callers describe what they need and do not
/// choose the executor.
#[derive(Debug, Default, Clone, Copy)]
pub struct InstallScheduler;

impl InstallScheduler {
    /// The scheduler of this process.
    pub fn current() -> (scheduler: Self)
        ensures
            scheduler == InstallScheduler,
    {
        InstallScheduler
    }

    /// Plans a batch that stops on errors. Its workers follow
    /// [`crate::fs_batch::run_bounded_fs_batch`].
    pub fn run_fs_batch(&self, item_count: usize, host: &Host) -> (batch: FsBatch)
        ensures
            batch.shared_among(item_count as nat, host.fs_threads()),
    {
        FsBatch::new(item_count, host)
    }

    /// Plans a batch whose work cannot fail. Its workers follow
    /// [`crate::fs_batch::run_bounded_fs_batch_unchecked`].
    pub fn run_fs_batch_unchecked(&self, item_count: usize, host: &Host) -> (batch: FsBatch)
        ensures
            batch.shared_among(item_count as nat, host.fs_threads()),
    {
        FsBatch::new(item_count, host)
    }

    /// Takes a task that computes from one event to the next action: it waits for
    /// a permit, runs on a blocking thread while it holds the permit, and
    /// answers with the outcome of that thread.
    pub fn run_cpu<R>(&self, event: TaskEvent<R>) -> (action: TaskAction<R>)
        ensures
            action == task_action(Resource::Cpu, event),
    {
        advance_task(Resource::Cpu, event)
    }

    /// Takes a task that works on files from one event to the next action, in the
    /// way of [`InstallScheduler::run_cpu`].
    pub fn run_fs<R>(&self, event: TaskEvent<R>) -> (action: TaskAction<R>)
        ensures
            action == task_action(Resource::Fs, event),
    {
        advance_task(Resource::Fs, event)
    }

    /// Runs blocking work on the calling thread. Inside a multi-thread tokio runtime
    /// it is handed to `in_place`; inside a current-thread one, and outside every
    /// runtime, it simply runs.
    pub fn run_blocking<F, R, B>(&self, work: F, in_place: B) -> (result: R) where
        F: FnOnce() -> R,
        B: FnOnce(F) -> R,

        requires
            told_flavor(Some(RuntimeFlavor::MultiThread)) ==> call_requires(in_place, (work,)),
            call_requires(work, ()),
        ensures
            exists|flavor: Option<RuntimeFlavor>| #[trigger]
                told_flavor(flavor) && blocked_in(flavor, work, in_place, result),
    {
        run_blocking(work, in_place)
    }
}

/// The event that each action of a task leads to, when its thread ends with
/// `joined`.
pub open spec fn task_answer<R>(joined: R) -> spec_fn(TaskAction<R>) -> Option<TaskEvent<R>> {
    |action: TaskAction<R>|
        match action {
            TaskAction::AcquirePermit(_) => Some(TaskEvent::PermitAcquired),
            TaskAction::SpawnBlocking => Some(TaskEvent::Joined(joined)),
            TaskAction::Finish(_) => None,
        }
}

/// A task asks for a permit of its own resource and of no other, its work starts
/// only when that permit is held, and it returns what its thread ended with.
pub proof fn task_runs_under_its_permit<R>(resource: Resource, other: Resource, joined: R)
    ensures
        forall|event: TaskEvent<R>| #[trigger]
            task_action(resource, event) is SpawnBlocking <==> event is PermitAcquired,
        performs(
            |event: TaskEvent<R>| task_action(resource, event),
            task_answer(joined),
            TaskEvent::Submitted,
            2,
            TaskAction::AcquirePermit(other),
        ) <==> other == resource,
        outcome(
            |event: TaskEvent<R>| task_action(resource, event),
            task_answer(joined),
            TaskEvent::Submitted,
            2,
        ) == TaskAction::<R>::Finish(joined),
{
    reveal_with_fuel(outcome, 3);
    reveal_with_fuel(performs, 3);
}

/// On every system, tasks that compute get one permit for each thread that runs at
/// once: as many as the machine tells where it tells a number above zero, and one
/// otherwise. Only tasks on files are counted by the operating system too: four on
/// macOS, and elsewhere two for each thread but never below four.
pub proof fn permits_are_those_of_the_machine(
    host: Host,
    same_machine: Host,
    resource: Resource,
    count: usize,
    same_count: usize,
)
    requires
        host.available_parallelism == same_machine.available_parallelism,
        call_ensures(permits, (resource, &host), count),
        call_ensures(permits, (resource, &same_machine), same_count),
    ensures
        count == permitted(resource, host),
        count >= 1,
        resource is Cpu || host.macos == same_machine.macos ==> count == same_count,
        resource is Cpu ==> match host.available_parallelism {
            Some(threads) => count == threads || threads == 0 && count == 1,
            None => count == 1,
        },
        resource is Fs ==> count >= 4,
        resource is Fs && host.macos ==> count == 4,
        resource is Fs && !host.macos ==> match host.available_parallelism {
            Some(threads) => {
                &&& threads <= 2 ==> count == 4
                &&& threads > 2 && 2 * threads <= usize::MAX ==> count == 2 * threads
                &&& 2 * threads > usize::MAX ==> count == usize::MAX
            },
            None => count == 4,
        },
{
}

/// A batch of either kind is planned for all its items. It has one worker for each
/// of them, up to the permits for work on files, so it has one exactly if it has
/// items.
pub proof fn batches_get_workers_for_their_items(
    scheduler: InstallScheduler,
    item_count: usize,
    host: Host,
    most: usize,
    batch: FsBatch,
    unchecked: FsBatch,
)
    requires
        call_ensures(permits, (Resource::Fs, &host), most),
        call_ensures(InstallScheduler::run_fs_batch, (&scheduler, item_count, &host), batch),
        call_ensures(
            InstallScheduler::run_fs_batch_unchecked,
            (&scheduler, item_count, &host),
            unchecked,
        ),
    ensures
        batch.item_count == item_count,
        item_count <= most ==> batch.worker_count == item_count,
        item_count >= most ==> batch.worker_count == most,
        batch.worker_count > 0 <==> item_count > 0,
        unchecked == batch,
{
}

/// The permits of tasks that compute do not depend on the operating system. They
/// are the threads that run at once, where a number above zero is known, and never
/// below one.
pub proof fn cpu_permits_are_the_threads_on_every_system(host: Host, elsewhere: Host)
    requires
        elsewhere.available_parallelism == host.available_parallelism,
    ensures
        permitted(Resource::Cpu, host) == permitted(Resource::Cpu, elsewhere),
        permitted(Resource::Cpu, host) >= 1,
        host.available_parallelism matches Some(threads) ==> threads > 0 ==> permitted(
            Resource::Cpu,
            host,
        ) == threads,
{
}

/// A task that computes waits for a permit of the cpu, and one on files for a permit
/// of the file system. Either runs its work once it has the permit and at no other
/// time, and returns what its thread ended with and nothing else.
pub proof fn tasks_wait_run_and_return<R>(
    scheduler: InstallScheduler,
    event: TaskEvent<R>,
    cpu: TaskAction<R>,
    fs: TaskAction<R>,
)
    requires
        call_ensures(InstallScheduler::run_cpu::<R>, (&scheduler, event), cpu),
        call_ensures(InstallScheduler::run_fs::<R>, (&scheduler, event), fs),
    ensures
        event is Submitted <==> cpu is AcquirePermit,
        event is Submitted <==> fs is AcquirePermit,
        cpu matches TaskAction::AcquirePermit(resource) ==> resource is Cpu,
        fs matches TaskAction::AcquirePermit(resource) ==> resource is Fs,
        event is PermitAcquired <==> cpu is SpawnBlocking,
        event is PermitAcquired <==> fs is SpawnBlocking,
        event matches TaskEvent::Joined(outcome) ==> {
            &&& cpu matches TaskAction::Finish(returned) && returned == outcome
            &&& fs matches TaskAction::Finish(returned) && returned == outcome
        },
        cpu is Finish ==> event is Joined,
        fs is Finish ==> event is Joined,
{
}

/// Blocking work goes to `in_place` inside a multi-thread runtime, and is run
/// straight away everywhere else.
pub proof fn blocking_work_suits_its_runtime<F, R, B>(
    scheduler: InstallScheduler,
    work: F,
    in_place: B,
    result: R,
) where F: FnOnce() -> R, B: FnOnce(F) -> R
    requires
        call_ensures(
            InstallScheduler::run_blocking::<F, R, B>,
            (&scheduler, work, in_place),
            result,
        ),
    ensures
        exists|flavor: Option<RuntimeFlavor>| #[trigger]
            told_flavor(flavor) && if flavor == Some(RuntimeFlavor::MultiThread) {
                call_ensures(in_place, (work,), result)
            } else {
                call_ensures(work, (), result)
            },
{
    let flavor = choose|flavor: Option<RuntimeFlavor>| #[trigger]
        told_flavor(flavor) && blocked_in(flavor, work, in_place, result);
    assert(told_flavor(flavor));
}

} // verus!
