//! Tasks as a whole: any number of them, of both resources, in any interleaving.
//!
//! A state holds how many permits of each resource are out and how far each task
//! has come. A permit is handed out only while fewer are out than the semaphore of
//! its resource was made with. No task is dropped before it returns.

use crate::batch_model::{lemma_tally_update, tally};
use crate::host::Host;
use crate::scheduler::{permitted, task_action, Resource, TaskAction, TaskEvent};
use vstd::prelude::*;

verus! {

/// How far a task has come.
pub enum TaskStage<R> {
    /// It has yet to be submitted.
    New,
    /// It is at this action, and holds this permit.
    At { action: TaskAction<R>, permit: Option<Resource> },
    /// It has returned this.
    Returned(R),
}

/// The tasks of a process at one moment.
pub struct Tasks<R> {
    pub host: Host,
    /// The resource of each task.
    pub resources: Seq<Resource>,
    pub stages: Seq<TaskStage<R>>,
    /// How many permits are out, of each resource.
    pub cpu_taken: nat,
    pub fs_taken: nat,
    /// What the thread of each task ended with, for those whose thread has ended.
    pub joined: Map<int, R>,
}

/// Counts the tasks that hold a permit of a resource.
pub open spec fn holder<R>(resource: Resource) -> spec_fn(TaskStage<R>) -> nat {
    |stage: TaskStage<R>|
        match stage {
            TaskStage::At { permit, .. } => if permit == Some(resource) {
                1
            } else {
                0
            },
            _ => 0,
        }
}

/// Counts the tasks that are between their permit and their end, where their work
/// may be running.
pub open spec fn running<R>(resource: Resource) -> spec_fn((Resource, TaskStage<R>)) -> nat {
    |task: (Resource, TaskStage<R>)|
        match task.1 {
            TaskStage::At { action, .. } => if task.0 == resource && !(action is AcquirePermit) {
                1
            } else {
                0
            },
            _ => 0,
        }
}

/// How many moves a task still makes.
pub open spec fn task_weight<R>() -> spec_fn(TaskStage<R>) -> nat {
    |stage: TaskStage<R>|
        match stage {
            TaskStage::New => 4,
            TaskStage::At { action: TaskAction::AcquirePermit(_), .. } => 3,
            TaskStage::At { action: TaskAction::SpawnBlocking, .. } => 2,
            TaskStage::At { action: TaskAction::Finish(_), .. } => 1,
            TaskStage::Returned(_) => 0,
        }
}

/// One move of one task.
pub enum TaskMove<R> {
    /// The task is submitted.
    Submit,
    /// It gets the permit that it waits for.
    Acquire,
    /// Its work ran, and its thread ended with this.
    Join(R),
    /// It gives its permit back and returns.
    Return,
}

impl<R> Tasks<R> {
    /// Tasks of these resources before any of them was submitted.
    pub open spec fn fresh(host: Host, resources: Seq<Resource>) -> Tasks<R> {
        Tasks {
            host,
            resources,
            stages: Seq::new(resources.len(), |t: int| TaskStage::New),
            cpu_taken: 0,
            fs_taken: 0,
            joined: Map::empty(),
        }
    }

    /// How many permits of a resource are out.
    pub open spec fn taken(self, resource: Resource) -> nat {
        match resource {
            Resource::Cpu => self.cpu_taken,
            Resource::Fs => self.fs_taken,
        }
    }

    /// How many tasks of a resource are between their permit and their end.
    pub open spec fn running(self, resource: Resource) -> nat {
        tally(
            Seq::new(self.stages.len(), |t: int| (self.resources[t], self.stages[t])),
            running::<R>(resource),
        )
    }

    /// Whether task `t` can make this move.
    pub open spec fn can(self, t: int, step: TaskMove<R>) -> bool {
        &&& 0 <= t < self.stages.len()
        &&& match (self.stages[t], step) {
            (TaskStage::New, TaskMove::Submit) => true,
            (
                TaskStage::At { action: TaskAction::AcquirePermit(wanted), .. },
                TaskMove::Acquire,
            ) => self.taken(wanted) < permitted(wanted, self.host),
            (
                TaskStage::At { action: TaskAction::SpawnBlocking, .. },
                TaskMove::Join(_),
            ) => true,
            (TaskStage::At { action: TaskAction::Finish(_), .. }, TaskMove::Return) => true,
            _ => false,
        }
    }

    /// The state after task `t` made this move.
    pub open spec fn after(self, t: int, step: TaskMove<R>) -> Tasks<R> {
        let resource = self.resources[t];
        match (self.stages[t], step) {
            (_, TaskMove::Submit) => Tasks {
                stages: self.stages.update(
                    t,
                    TaskStage::At {
                        action: task_action(resource, TaskEvent::Submitted),
                        permit: None,
                    },
                ),
                ..self
            },
            (
                TaskStage::At { action: TaskAction::AcquirePermit(wanted), .. },
                TaskMove::Acquire,
            ) => Tasks {
                stages: self.stages.update(
                    t,
                    TaskStage::At {
                        action: task_action(resource, TaskEvent::PermitAcquired),
                        permit: Some(wanted),
                    },
                ),
                cpu_taken: if wanted is Cpu {
                    self.cpu_taken + 1
                } else {
                    self.cpu_taken
                },
                fs_taken: if wanted is Fs {
                    self.fs_taken + 1
                } else {
                    self.fs_taken
                },
                ..self
            },
            (TaskStage::At { permit, .. }, TaskMove::Join(outcome)) => Tasks {
                stages: self.stages.update(
                    t,
                    TaskStage::At {
                        action: task_action(resource, TaskEvent::Joined(outcome)),
                        permit,
                    },
                ),
                joined: self.joined.insert(t, outcome),
                ..self
            },
            (
                TaskStage::At { action: TaskAction::Finish(outcome), permit },
                TaskMove::Return,
            ) => Tasks {
                stages: self.stages.update(t, TaskStage::Returned(outcome)),
                cpu_taken: if permit == Some(Resource::Cpu) {
                    (self.cpu_taken - 1) as nat
                } else {
                    self.cpu_taken
                },
                fs_taken: if permit == Some(Resource::Fs) {
                    (self.fs_taken - 1) as nat
                } else {
                    self.fs_taken
                },
                ..self
            },
            _ => self,
        }
    }

    /// Whether one task's move leads from this state to `post`.
    pub open spec fn moves_to(self, post: Tasks<R>) -> bool {
        exists|t: int, step: TaskMove<R>| #[trigger]
            self.can(t, step) && post == self.after(t, step)
    }

    /// Whether a task holds the permit that its action calls for, and ends with
    /// what its thread ended with.
    pub open spec fn stage_kept(self, t: int) -> bool {
        match self.stages[t] {
            TaskStage::New => true,
            TaskStage::At { action: TaskAction::AcquirePermit(wanted), permit } => wanted
                == self.resources[t] && permit is None,
            TaskStage::At { action: TaskAction::SpawnBlocking, permit } => permit == Some(
                self.resources[t],
            ),
            TaskStage::At { action: TaskAction::Finish(outcome), permit } => permit == Some(
                self.resources[t],
            ) && self.joined.contains_key(t) && self.joined[t] == outcome,
            TaskStage::Returned(outcome) => self.joined.contains_key(t) && self.joined[t]
                == outcome,
        }
    }

    /// What holds at every moment.
    pub open spec fn well_formed(self) -> bool {
        &&& self.stages.len() == self.resources.len()
        &&& forall|t: int|
            #![trigger self.stages[t]]
            0 <= t < self.stages.len() ==> self.stage_kept(t)
        &&& forall|resource: Resource| #[trigger]
            self.taken(resource) == tally(self.stages, holder::<R>(resource))
        &&& forall|resource: Resource| #[trigger]
            self.taken(resource) <= permitted(resource, self.host)
    }

    /// How many moves all tasks still make.
    pub open spec fn moves_left(self) -> nat {
        tally(self.stages, task_weight::<R>())
    }
}

proof fn lemma_fresh_well_formed<R>(host: Host, resources: Seq<Resource>)
    ensures
        Tasks::<R>::fresh(host, resources).well_formed(),
        Tasks::<R>::fresh(host, resources).moves_left() == 4 * resources.len(),
{
    let tasks = Tasks::<R>::fresh(host, resources);
    assert forall|resource: Resource| #[trigger] tasks.taken(resource) == tally(
        tasks.stages,
        holder::<R>(resource),
    ) by {
        lemma_tally_of_new(tasks.stages, holder::<R>(resource), 0);
    }
    lemma_tally_of_new(tasks.stages, task_weight::<R>(), 4);
}

proof fn lemma_tally_of_new<R>(
    stages: Seq<TaskStage<R>>,
    weight: spec_fn(TaskStage<R>) -> nat,
    each: nat,
)
    requires
        forall|t: int| 0 <= t < stages.len() ==> #[trigger] stages[t] is New,
        weight(TaskStage::New) == each,
    ensures
        tally(stages, weight) == each * stages.len(),
    decreases stages.len(),
{
    if stages.len() > 0 {
        let shorter = stages.drop_last();
        assert forall|t: int| 0 <= t < shorter.len() implies #[trigger] shorter[t] is New by {
            assert(shorter[t] == stages[t]);
        }
        lemma_tally_of_new(shorter, weight, each);
        assert(stages[stages.len() - 1] is New);
        assert(each * (stages.len() - 1) + each == each * stages.len()) by (nonlinear_arith)
            requires
                stages.len() > 0,
        ;
    }
}

/// Every move keeps the invariant, uses up one of the moves that are left, and
/// leaves the permits of the other resource alone.
pub proof fn task_move_keeps_invariant<R>(pre: Tasks<R>, t: int, step: TaskMove<R>)
    requires
        pre.well_formed(),
        pre.can(t, step),
    ensures
        pre.after(t, step).well_formed(),
        pre.after(t, step).host == pre.host,
        pre.after(t, step).resources == pre.resources,
        pre.after(t, step).moves_left() + 1 == pre.moves_left(),
        forall|resource: Resource|
            resource != pre.resources[t] ==> #[trigger] pre.after(t, step).taken(resource)
                == pre.taken(resource),
{
    let post = pre.after(t, step);
    assert(pre.stage_kept(t)) by {
        assert(pre.stages[t] == pre.stages[t]);
    }
    let stage = post.stages[t];
    assert(post.stages =~= pre.stages.update(t, stage));
    lemma_tally_update(pre.stages, task_weight::<R>(), t, stage);
    assert forall|resource: Resource| #[trigger] post.taken(resource) == tally(
        post.stages,
        holder::<R>(resource),
    ) by {
        lemma_tally_update(pre.stages, holder::<R>(resource), t, stage);
        assert(pre.taken(resource) == tally(pre.stages, holder::<R>(resource)));
    }
    assert forall|resource: Resource| #[trigger] post.taken(resource) <= permitted(
        resource,
        post.host,
    ) by {
        lemma_tally_update(pre.stages, holder::<R>(resource), t, stage);
        assert(pre.taken(resource) == tally(pre.stages, holder::<R>(resource)));
        assert(pre.taken(resource) <= permitted(resource, pre.host));
    }
    assert forall|u: int|
        #![trigger post.stages[u]]
        0 <= u < post.stages.len() implies post.stage_kept(u) by {
        if u != t {
            assert(post.stages[u] == pre.stages[u]);
            assert(pre.stage_kept(u));
        }
    }
}

/// Whether `states` is a run of tasks: it begins fresh, and each state moves to the
/// next.
pub open spec fn is_task_run<R>(
    states: Seq<Tasks<R>>,
    host: Host,
    resources: Seq<Resource>,
) -> bool {
    &&& states.len() > 0
    &&& states[0] == Tasks::<R>::fresh(host, resources)
    &&& forall|i: int| 0 < i < states.len() ==> states[i - 1].moves_to(#[trigger] states[i])
}

/// The invariant holds at every moment of every run, and no run makes more than
/// four moves for each task.
pub proof fn task_run_keeps_invariant<R>(
    states: Seq<Tasks<R>>,
    host: Host,
    resources: Seq<Resource>,
    at: int,
)
    requires
        is_task_run(states, host, resources),
        0 <= at < states.len(),
    ensures
        states[at].well_formed(),
        states[at].host == host,
        states[at].resources == resources,
        at + states[at].moves_left() == 4 * resources.len(),
    decreases at,
{
    if at == 0 {
        lemma_fresh_well_formed::<R>(host, resources);
    } else {
        task_run_keeps_invariant(states, host, resources, at - 1);
        let pre = states[at - 1];
        assert(pre.moves_to(states[at]));
        let (t, step) = choose|t: int, step: TaskMove<R>| #[trigger]
            pre.can(t, step) && states[at] == pre.after(t, step);
        task_move_keeps_invariant(pre, t, step);
    }
}

proof fn lemma_running_hold_permits<R>(tasks: Tasks<R>, resource: Resource, count: nat)
    requires
        tasks.well_formed(),
        count <= tasks.stages.len(),
    ensures
        tally(
            Seq::new(count, |t: int| (tasks.resources[t], tasks.stages[t])),
            running::<R>(resource),
        ) == tally(tasks.stages.take(count as int), holder::<R>(resource)),
    decreases count,
{
    let pairs = Seq::new(count, |t: int| (tasks.resources[t], tasks.stages[t]));
    let stages = tasks.stages.take(count as int);
    if count > 0 {
        let shorter = (count - 1) as nat;
        lemma_running_hold_permits(tasks, resource, shorter);
        assert(pairs.drop_last() =~= Seq::new(
            shorter,
            |t: int| (tasks.resources[t], tasks.stages[t]),
        ));
        assert(stages.drop_last() =~= tasks.stages.take(shorter as int));
        assert(tasks.stages[shorter as int] == stages[shorter as int]);
        assert(tasks.stage_kept(shorter as int));
    }
}

/// At every moment, at most as many tasks of a resource are between their permit
/// and their end as the machine is permitted for that resource, whatever the tasks
/// of the other resource do.
pub proof fn tasks_stay_within_their_permits<R>(
    states: Seq<Tasks<R>>,
    host: Host,
    resources: Seq<Resource>,
    at: int,
    resource: Resource,
)
    requires
        is_task_run(states, host, resources),
        0 <= at < states.len(),
    ensures
        states[at].running(resource) == states[at].taken(resource),
        states[at].running(resource) <= permitted(resource, host),
{
    task_run_keeps_invariant(states, host, resources, at);
    let tasks = states[at];
    lemma_running_hold_permits(tasks, resource, tasks.stages.len());
    assert(tasks.stages.take(tasks.stages.len() as int) =~= tasks.stages);
    assert(tasks.taken(resource) == tally(tasks.stages, holder::<R>(resource)));
    assert(tasks.taken(resource) <= permitted(resource, host));
}

/// A task takes and gives back permits of its own resource only.
pub proof fn tasks_leave_other_permits_alone<R>(
    states: Seq<Tasks<R>>,
    host: Host,
    resources: Seq<Resource>,
    at: int,
    t: int,
    step: TaskMove<R>,
    other: Resource,
)
    requires
        is_task_run(states, host, resources),
        0 <= at < states.len(),
        states[at].can(t, step),
        other != resources[t],
    ensures
        states[at].after(t, step).taken(other) == states[at].taken(other),
{
    task_run_keeps_invariant(states, host, resources, at);
    task_move_keeps_invariant(states[at], t, step);
}

proof fn lemma_some_holder<R>(stages: Seq<TaskStage<R>>, resource: Resource) -> (t: int)
    requires
        tally(stages, holder::<R>(resource)) > 0,
    ensures
        0 <= t < stages.len(),
        stages[t] is At,
        stages[t]->permit == Some(resource),
    decreases stages.len(),
{
    let last = stages.len() - 1;
    if holder::<R>(resource)(stages[last]) > 0 {
        last
    } else {
        let t = lemma_some_holder(stages.drop_last(), resource);
        assert(stages.drop_last()[t] == stages[t]);
        t
    }
}

/// As long as some task of a resource has not returned, some task of that resource
/// can move, even while every permit of the other resource is out.
pub proof fn tasks_of_a_resource_can_move<R>(tasks: Tasks<R>, t: int, outcome: R)
    requires
        tasks.well_formed(),
        0 <= t < tasks.stages.len(),
        !(tasks.stages[t] is Returned),
    ensures
        exists|u: int, step: TaskMove<R>| #[trigger]
            tasks.can(u, step) && tasks.resources[u] == tasks.resources[t],
{
    let resource = tasks.resources[t];
    assert(tasks.stage_kept(t));
    match tasks.stages[t] {
        TaskStage::New => {
            assert(tasks.can(t, TaskMove::Submit));
        },
        TaskStage::At { action: TaskAction::AcquirePermit(wanted), .. } => {
            if tasks.taken(resource) < permitted(resource, tasks.host) {
                assert(tasks.can(t, TaskMove::Acquire));
            } else {
                assert(tasks.taken(resource) == tally(tasks.stages, holder::<R>(resource)));
                let u = lemma_some_holder(tasks.stages, resource);
                assert(tasks.stage_kept(u));
                if tasks.stages[u]->action is SpawnBlocking {
                    assert(tasks.can(u, TaskMove::Join(outcome)));
                } else {
                    assert(tasks.can(u, TaskMove::Return));
                }
            }
        },
        TaskStage::At { action: TaskAction::SpawnBlocking, .. } => {
            assert(tasks.can(t, TaskMove::Join(outcome)));
        },
        TaskStage::At { action: TaskAction::Finish(_), .. } => {
            assert(tasks.can(t, TaskMove::Return));
        },
        TaskStage::Returned(_) => {},
    }
}

/// Every task returns what its thread ended with, and a run that cannot go on has
/// seen all its tasks return. With [`task_run_keeps_invariant`], which bounds the
/// moves of a run, every task returns in the end.
pub proof fn every_task_returns_its_outcome<R>(
    states: Seq<Tasks<R>>,
    host: Host,
    resources: Seq<Resource>,
    at: int,
    t: int,
    outcome: R,
)
    requires
        is_task_run(states, host, resources),
        0 <= at < states.len(),
        0 <= t < resources.len(),
    ensures
        states[at].stages[t] is Returned ==> states[at].joined.contains_key(t)
            && states[at].joined[t] == states[at].stages[t]->Returned_0,
        (forall|u: int, step: TaskMove<R>|
            resources[u] == resources[t] ==> !(#[trigger] states[at].can(u, step)))
            ==> states[at].stages[t] is Returned,
        at == 4 * resources.len() ==> states[at].stages[t] is Returned,
{
    task_run_keeps_invariant(states, host, resources, at);
    let tasks = states[at];
    assert(tasks.stage_kept(t)) by {
        assert(tasks.stages[t] == tasks.stages[t]);
    }
    if !(tasks.stages[t] is Returned) {
        tasks_of_a_resource_can_move(tasks, t, outcome);
        let (u, step) = choose|u: int, step: TaskMove<R>| #[trigger]
            tasks.can(u, step) && tasks.resources[u] == tasks.resources[t];
        task_move_keeps_invariant(tasks, u, step);
    }
}

} // verus!
