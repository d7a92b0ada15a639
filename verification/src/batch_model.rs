//! Batches as a whole: any number of workers, in any interleaving.
//!
//! A state holds the shared memory of a batch and the step that each worker is
//! at. A move lets one worker perform its step. The counter and the swap of the
//! failure flag are read-modify-write operations, so each sees the latest value.
//! A plain read of the flag may be stale: it can miss that the flag was set, but
//! never sees it set before it was.

use crate::fs_batch::{
    answer_of_slot, batch_answer, batch_ran, batch_result, the_slot_is_the_answer, UncheckedEvent,
    UncheckedStep, WorkerEvent, WorkerStep,
};
use crate::scheduler::FsBatch;
use vstd::prelude::*;

verus! {

/// The sum of `weight` over a sequence.
pub open spec fn tally<S>(steps: Seq<S>, weight: spec_fn(S) -> nat) -> nat
    decreases steps.len(),
{
    if steps.len() == 0 {
        0
    } else {
        tally(steps.drop_last(), weight) + weight(steps.last())
    }
}

pub(crate) proof fn lemma_tally_update<S>(steps: Seq<S>, weight: spec_fn(S) -> nat, w: int, step: S)
    requires
        0 <= w < steps.len(),
    ensures
        tally(steps.update(w, step), weight) + weight(steps[w]) == tally(steps, weight) + weight(
            step,
        ),
    decreases steps.len(),
{
    let updated = steps.update(w, step);
    if w == steps.len() - 1 {
        assert(updated.drop_last() =~= steps.drop_last());
    } else {
        lemma_tally_update(steps.drop_last(), weight, w, step);
        assert(updated.drop_last() =~= steps.drop_last().update(w, step));
    }
}

pub(crate) proof fn lemma_tally_bound<S>(steps: Seq<S>, weight: spec_fn(S) -> nat, most: nat)
    requires
        forall|w: int| 0 <= w < steps.len() ==> weight(#[trigger] steps[w]) <= most,
    ensures
        tally(steps, weight) <= most * steps.len(),
    decreases steps.len(),
{
    if steps.len() > 0 {
        let shorter = steps.drop_last();
        assert forall|w: int| 0 <= w < shorter.len() implies weight(#[trigger] shorter[w])
            <= most by {
            assert(shorter[w] == steps[w]);
        }
        lemma_tally_bound(shorter, weight, most);
        assert(weight(steps[steps.len() - 1]) <= most);
        assert(most * (steps.len() - 1) + most == most * steps.len()) by (nonlinear_arith)
            requires
                steps.len() > 0,
        ;
    }
}

/// The smaller of two numbers.
pub open spec fn least(a: nat, b: nat) -> nat {
    if a <= b {
        a
    } else {
        b
    }
}

/// A batch that stops on errors, at one moment.
pub struct Batch<E> {
    pub item_count: nat,
    /// The shared counter.
    pub next: nat,
    /// The shared failure flag.
    pub failed: bool,
    /// The shared error slot.
    pub first_error: Option<E>,
    pub workers: Seq<WorkerStep<E>>,
    /// The items whose work was begun, in that order.
    pub started: Seq<int>,
    /// What the work returned, for each item whose work has ended.
    pub results: Map<int, Result<(), E>>,
}

/// A weight that falls with each move of a worker, except for the move that claims
/// an item: that one adds two.
pub open spec fn worker_weight<E>() -> spec_fn(WorkerStep<E>) -> nat {
    |step: WorkerStep<E>|
        match step {
            WorkerStep::Work(_) => 5,
            WorkerStep::LoadFailed => 4,
            WorkerStep::ClaimIndex => 3,
            WorkerStep::SwapFailed(_) => 2,
            WorkerStep::StoreError(_) => 1,
            WorkerStep::Stop => 0,
        }
}

/// Counts the workers that have stopped.
pub open spec fn stopped_worker<E>() -> spec_fn(WorkerStep<E>) -> nat {
    |step: WorkerStep<E>|
        if step is Stop {
            1
        } else {
            0
        }
}

impl<E> Batch<E> {
    /// A batch of `item_count` items before any of its `worker_count` workers
    /// has moved.
    pub open spec fn fresh(item_count: nat, worker_count: nat) -> Batch<E> {
        Batch {
            item_count,
            next: 0,
            failed: false,
            first_error: None,
            workers: Seq::new(worker_count, |w: int| WorkerStep::LoadFailed),
            started: Seq::empty(),
            results: Map::empty(),
        }
    }

    /// The indices that were claimed and name an item.
    pub open spec fn claimed(self) -> nat {
        least(self.next, self.item_count)
    }

    /// Whether worker `w` can observe `event` in this state.
    pub open spec fn observes(self, w: int, event: WorkerEvent<E>) -> bool {
        &&& 0 <= w < self.workers.len()
        &&& self.workers[w].accepts(event)
        &&& match event {
            WorkerEvent::FailedLoaded(failed) => failed ==> self.failed,
            WorkerEvent::IndexClaimed(index) => index == self.next,
            WorkerEvent::Worked(_) => true,
            WorkerEvent::FailedSwapped(already_failed) => already_failed == self.failed,
        }
    }

    /// The state after worker `w` observed `event`.
    pub open spec fn observed(self, w: int, event: WorkerEvent<E>) -> Batch<E> {
        let step = self.workers[w].after(event, self.item_count);
        let moved = Batch { workers: self.workers.update(w, step), ..self };
        match event {
            WorkerEvent::FailedLoaded(_) => moved,
            WorkerEvent::IndexClaimed(index) => Batch {
                next: self.next + 1,
                started: if index < self.item_count {
                    self.started.push(index as int)
                } else {
                    self.started
                },
                ..moved
            },
            WorkerEvent::Worked(result) => Batch {
                results: self.results.insert(self.workers[w]->Work_0 as int, result),
                ..moved
            },
            WorkerEvent::FailedSwapped(_) => Batch { failed: true, ..moved },
        }
    }

    /// Whether worker `w` is about to put its error in the slot.
    pub open spec fn stores(self, w: int) -> bool {
        &&& 0 <= w < self.workers.len()
        &&& self.workers[w] is StoreError
    }

    /// The state after worker `w` put its error in the slot and stopped.
    pub open spec fn stored(self, w: int) -> Batch<E> {
        Batch {
            first_error: Some(self.workers[w]->StoreError_0),
            workers: self.workers.update(w, WorkerStep::Stop),
            ..self
        }
    }

    /// Whether one worker's move leads from this state to `post`.
    pub open spec fn moves_to(self, post: Batch<E>) -> bool {
        ||| exists|w: int, event: WorkerEvent<E>| #[trigger]
            self.observes(w, event) && post == self.observed(w, event)
        ||| exists|w: int| #[trigger] self.stores(w) && post == self.stored(w)
    }

    /// Whether every worker has stopped.
    pub open spec fn finished(self) -> bool {
        forall|w: int| 0 <= w < self.workers.len() ==> #[trigger] self.workers[w] is Stop
    }

    /// Whether the work on some item returned `error`.
    pub open spec fn saw_error(self, error: E) -> bool {
        exists|i: int| #[trigger] self.results.contains_key(i) && self.results[i] == Err::<(), E>(
            error,
        )
    }

    /// The work of the claimed items is begun in their order, each by one worker,
    /// and never begun again.
    pub open spec fn items_kept(self) -> bool {
        &&& self.started.len() == self.claimed()
        &&& forall|i: int| 0 <= i < self.started.len() ==> #[trigger] self.started[i] == i
        &&& forall|i: int| #[trigger]
            self.results.contains_key(i) ==> 0 <= i < self.claimed()
        &&& forall|w: int|
            #![trigger self.workers[w]]
            0 <= w < self.workers.len() && self.workers[w] is Work ==> {
                &&& self.workers[w]->Work_0 < self.claimed()
                &&& !self.results.contains_key(self.workers[w]->Work_0 as int)
            }
        &&& forall|v: int, w: int|
            #![trigger self.workers[v], self.workers[w]]
            0 <= v < w < self.workers.len() && self.workers[v] is Work && self.workers[w] is Work
                ==> self.workers[v]->Work_0 != self.workers[w]->Work_0
        &&& forall|i: int|
            0 <= i < self.claimed() ==> #[trigger] self.results.contains_key(i) || self.working(i)
    }

    /// Whether some worker is at work on item `i`.
    pub open spec fn working(self, i: int) -> bool {
        exists|w: int|
            0 <= w < self.workers.len() && #[trigger] self.workers[w] is Work
                && self.workers[w]->Work_0 == i
    }

    /// Whether some worker holds an error that it has yet to announce.
    pub open spec fn announcing(self) -> bool {
        exists|w: int| 0 <= w < self.workers.len() && #[trigger] self.workers[w] is SwapFailed
    }

    /// Whether some worker has won the race to report its error.
    pub open spec fn storing(self) -> bool {
        exists|w: int| #[trigger] self.stores(w)
    }

    /// Errors come from items, are announced, and at most one is stored.
    pub open spec fn errors_kept(self) -> bool {
        &&& forall|w: int|
            #![trigger self.workers[w]]
            0 <= w < self.workers.len() && self.workers[w] is SwapFailed ==> self.saw_error(
                self.workers[w]->SwapFailed_0,
            )
        &&& forall|w: int|
            #![trigger self.workers[w]]
            0 <= w < self.workers.len() && self.workers[w] is StoreError ==> self.saw_error(
                self.workers[w]->StoreError_0,
            )
        &&& self.first_error is Some ==> self.saw_error(self.first_error->0)
        &&& forall|v: int, w: int| #[trigger] self.stores(v) && #[trigger] self.stores(w) ==> v == w
        &&& self.storing() ==> self.failed && self.first_error is None
        &&& self.first_error is Some ==> self.failed
        &&& self.failed ==> self.first_error is Some || self.storing()
        &&& forall|i: int| #[trigger]
            self.results.contains_key(i) && self.results[i] is Err ==> self.failed
                || self.announcing()
    }

    /// A worker stops early only because some item failed.
    pub open spec fn stops_kept(self) -> bool {
        &&& self.next <= self.item_count + tally(self.workers, stopped_worker::<E>())
        &&& !self.failed ==> forall|w: int|
            0 <= w < self.workers.len() && #[trigger] self.workers[w] is Stop ==> self.next
                >= self.item_count
    }

    /// What holds of a batch at every moment.
    pub open spec fn well_formed(self) -> bool {
        &&& self.items_kept()
        &&& self.errors_kept()
        &&& self.stops_kept()
    }

    /// A bound on the moves that the workers can still make.
    pub open spec fn moves_left(self) -> nat {
        3 * (self.item_count - self.claimed()) as nat + tally(self.workers, worker_weight::<E>())
    }
}

proof fn lemma_fresh_invariant<E>(item_count: nat, worker_count: nat)
    ensures
        Batch::<E>::fresh(item_count, worker_count).well_formed(),
{
    let batch = Batch::<E>::fresh(item_count, worker_count);
    assert(batch.claimed() == 0);
}

proof fn lemma_observed_items<E>(pre: Batch<E>, w: int, event: WorkerEvent<E>)
    requires
        pre.well_formed(),
        pre.observes(w, event),
    ensures
        pre.observed(w, event).items_kept(),
{
    let post = pre.observed(w, event);
    assert forall|i: int| 0 <= i < post.claimed() implies #[trigger] post.results.contains_key(i)
        || post.working(i) by {
        if i < pre.claimed() {
            assert(pre.results.contains_key(i) || pre.working(i));
            if !pre.results.contains_key(i) {
                let v = choose|v: int|
                    0 <= v < pre.workers.len() && #[trigger] pre.workers[v] is Work
                        && pre.workers[v]->Work_0 == i;
                if v != w {
                    assert(post.workers[v] == pre.workers[v]);
                }
            }
        } else {
            assert(post.workers[w] is Work && post.workers[w]->Work_0 == i);
        }
    }
}

proof fn lemma_saw_error_kept<E>(pre: Batch<E>, w: int, event: WorkerEvent<E>, error: E)
    requires
        pre.well_formed(),
        pre.observes(w, event),
        pre.saw_error(error),
    ensures
        pre.observed(w, event).saw_error(error),
{
    let post = pre.observed(w, event);
    let i = choose|i: int| #[trigger]
        pre.results.contains_key(i) && pre.results[i] == Err::<(), E>(error);
    assert(post.results.contains_key(i));
}

#[verifier::spinoff_prover]
proof fn lemma_observed_errors<E>(pre: Batch<E>, w: int, event: WorkerEvent<E>)
    requires
        pre.well_formed(),
        pre.observes(w, event),
    ensures
        pre.observed(w, event).errors_kept(),
{
    let post = pre.observed(w, event);
    assert forall|error: E| pre.saw_error(error) implies #[trigger] post.saw_error(error) by {
        lemma_saw_error_kept(pre, w, event, error);
    }
    match event {
        WorkerEvent::Worked(Err(error)) => {
            let i = pre.workers[w]->Work_0 as int;
            assert(post.results.contains_key(i) && post.results[i] == Err::<(), E>(error));
            assert(post.saw_error(error));
            assert(post.workers[w] is SwapFailed);
        },
        WorkerEvent::FailedSwapped(already_failed) => {
            if !already_failed {
                assert(post.stores(w));
            }
        },
        _ => {},
    }
    assert forall|v: int| v != w && #[trigger] pre.stores(v) implies post.stores(v) by {}
    assert forall|v: int| v != w && #[trigger] post.stores(v) implies pre.stores(v) by {}
    assert forall|u: int, v: int| #[trigger] post.stores(u) && #[trigger] post.stores(v) implies u
        == v by {
        if u != w && v != w {
            assert(pre.stores(u) && pre.stores(v));
        } else if u != v {
            let other = if u == w {
                v
            } else {
                u
            };
            assert(pre.stores(other));
            assert(pre.storing());
        }
    }
    if post.storing() {
        let v = choose|v: int| #[trigger] post.stores(v);
        if v != w {
            assert(pre.stores(v));
        }
    }
    if pre.failed && !(pre.first_error is Some) {
        let v = choose|v: int| #[trigger] pre.stores(v);
        assert(post.stores(v));
    }
    assert forall|i: int| #[trigger]
        post.results.contains_key(i) && post.results[i] is Err implies post.failed
        || post.announcing() by {
        if pre.results.contains_key(i) && pre.results[i] == post.results[i] && !pre.failed {
            let v = choose|v: int|
                0 <= v < pre.workers.len() && #[trigger] pre.workers[v] is SwapFailed;
            if v != w {
                assert(post.workers[v] is SwapFailed);
            }
        }
    }
}

proof fn lemma_observed_stops<E>(pre: Batch<E>, w: int, event: WorkerEvent<E>)
    requires
        pre.well_formed(),
        pre.observes(w, event),
    ensures
        pre.observed(w, event).stops_kept(),
{
    let step = pre.workers[w].after(event, pre.item_count);
    lemma_tally_update(pre.workers, stopped_worker::<E>(), w, step);
    let post = pre.observed(w, event);
    if !post.failed {
        assert forall|v: int|
            0 <= v < post.workers.len() && #[trigger] post.workers[v] is Stop implies post.next
            >= post.item_count by {
            if v != w {
                assert(pre.workers[v] is Stop);
            }
        }
    }
}

#[verifier::spinoff_prover]
proof fn lemma_stored_invariant<E>(pre: Batch<E>, w: int)
    requires
        pre.well_formed(),
        pre.stores(w),
    ensures
        pre.stored(w).well_formed(),
{
    let post = pre.stored(w);
    lemma_tally_update(pre.workers, stopped_worker::<E>(), w, WorkerStep::Stop);
    assert(pre.storing());
    assert forall|error: E| pre.saw_error(error) implies #[trigger] post.saw_error(error) by {}
    assert forall|i: int| 0 <= i < post.claimed() implies #[trigger] post.results.contains_key(i)
        || post.working(i) by {
        if !pre.results.contains_key(i) {
            let v = choose|v: int|
                0 <= v < pre.workers.len() && #[trigger] pre.workers[v] is Work
                    && pre.workers[v]->Work_0 == i;
            assert(post.workers[v] == pre.workers[v]);
        }
    }
    assert forall|v: int| !(#[trigger] post.stores(v)) by {
        if post.stores(v) {
            assert(pre.stores(v));
        }
    }
}

/// Every move keeps the invariant.
pub proof fn move_keeps_invariant<E>(pre: Batch<E>, post: Batch<E>)
    requires
        pre.well_formed(),
        pre.moves_to(post),
    ensures
        post.well_formed(),
        post.item_count == pre.item_count,
        post.workers.len() == pre.workers.len(),
{
    if exists|w: int, event: WorkerEvent<E>| #[trigger]
        pre.observes(w, event) && post == pre.observed(w, event) {
        let (w, event) = choose|w: int, event: WorkerEvent<E>| #[trigger]
            pre.observes(w, event) && post == pre.observed(w, event);
        lemma_observed_items(pre, w, event);
        lemma_observed_errors(pre, w, event);
        lemma_observed_stops(pre, w, event);
    } else {
        let w = choose|w: int| #[trigger] pre.stores(w) && post == pre.stored(w);
        lemma_stored_invariant(pre, w);
    }
}

/// Every move brings the batch closer to its end.
pub proof fn move_shortens_batch<E>(pre: Batch<E>, post: Batch<E>)
    requires
        pre.moves_to(post),
    ensures
        post.moves_left() < pre.moves_left(),
{
    if exists|w: int, event: WorkerEvent<E>| #[trigger]
        pre.observes(w, event) && post == pre.observed(w, event) {
        let (w, event) = choose|w: int, event: WorkerEvent<E>| #[trigger]
            pre.observes(w, event) && post == pre.observed(w, event);
        let step = pre.workers[w].after(event, pre.item_count);
        lemma_tally_update(pre.workers, worker_weight::<E>(), w, step);
    } else {
        let w = choose|w: int| #[trigger] pre.stores(w) && post == pre.stored(w);
        lemma_tally_update(pre.workers, worker_weight::<E>(), w, WorkerStep::Stop);
    }
}

/// Whether `states` is a run of a batch: it begins fresh, and each state moves to
/// the next.
pub open spec fn is_run<E>(states: Seq<Batch<E>>, item_count: nat, worker_count: nat) -> bool {
    &&& states.len() > 0
    &&& states[0] == Batch::<E>::fresh(item_count, worker_count)
    &&& forall|i: int| 0 < i < states.len() ==> states[i - 1].moves_to(#[trigger] states[i])
}

/// The invariant holds at every moment of every run.
pub proof fn run_keeps_invariant<E>(
    states: Seq<Batch<E>>,
    item_count: nat,
    worker_count: nat,
    at: int,
)
    requires
        is_run(states, item_count, worker_count),
        0 <= at < states.len(),
    ensures
        states[at].well_formed(),
        states[at].item_count == item_count,
        states[at].workers.len() == worker_count,
    decreases at,
{
    if at == 0 {
        lemma_fresh_invariant::<E>(item_count, worker_count);
    } else {
        run_keeps_invariant(states, item_count, worker_count, at - 1);
        move_keeps_invariant(states[at - 1], states[at]);
    }
}

/// Items are begun in their order, and the work of none is begun twice.
pub proof fn items_begin_once_in_order<E>(
    states: Seq<Batch<E>>,
    item_count: nat,
    worker_count: nat,
    at: int,
)
    requires
        is_run(states, item_count, worker_count),
        0 <= at < states.len(),
    ensures
        states[at].started.len() <= item_count,
        states[at].started.no_duplicates(),
        forall|i: int|
            0 <= i < states[at].started.len() ==> #[trigger] states[at].started[i] == i,
        forall|i: int| #[trigger]
            states[at].results.contains_key(i) ==> states[at].started.contains(i),
{
    run_keeps_invariant(states, item_count, worker_count, at);
    let batch = states[at];
    assert forall|i: int| #[trigger] batch.results.contains_key(i) implies batch.started.contains(
        i,
    ) by {
        assert(batch.started[i] == i);
    }
}

/// When all workers have stopped, the error slot tells what happened: it is empty
/// exactly when no work failed, and then the work of every item was done; an
/// error in it is one that the work of some item returned.
pub proof fn slot_tells_the_outcome<E>(
    states: Seq<Batch<E>>,
    item_count: nat,
    worker_count: nat,
    at: int,
)
    requires
        is_run(states, item_count, worker_count),
        worker_count > 0 || item_count == 0,
        0 <= at < states.len(),
        states[at].finished(),
    ensures
        states[at].first_error is None ==> forall|i: int|
            0 <= i < item_count ==> #[trigger] states[at].results.contains_key(i)
                && states[at].results[i] is Ok,
        states[at].first_error is Some ==> states[at].saw_error(states[at].first_error->0),
        states[at].first_error is Some <==> exists|i: int| #[trigger]
            states[at].results.contains_key(i) && states[at].results[i] is Err,
{
    run_keeps_invariant(states, item_count, worker_count, at);
    lemma_finished_outcome(states[at]);
}

proof fn lemma_finished_outcome<E>(batch: Batch<E>)
    requires
        batch.well_formed(),
        batch.finished(),
        batch.workers.len() > 0 || batch.item_count == 0,
    ensures
        batch.first_error is None ==> forall|i: int|
            0 <= i < batch.item_count ==> #[trigger] batch.results.contains_key(i)
                && batch.results[i] is Ok,
        batch.first_error is Some <==> exists|i: int| #[trigger]
            batch.results.contains_key(i) && batch.results[i] is Err,
{
    assert(!batch.storing()) by {
        if batch.storing() {
            let w = choose|w: int| #[trigger] batch.stores(w);
            assert(batch.workers[w] is Stop);
        }
    }
    assert(!batch.announcing());
    if batch.first_error is None {
        assert(!batch.failed);
        assert forall|i: int| 0 <= i < batch.item_count implies (
        #[trigger] batch.results.contains_key(i)) && batch.results[i] is Ok by {
            assert(batch.workers[0] is Stop);
            assert(!batch.working(i));
        }
    } else {
        let i = choose|i: int| #[trigger]
            batch.results.contains_key(i) && batch.results[i] == Err::<(), E>(
                batch.first_error->0,
            );
        assert(batch.results.contains_key(i) && batch.results[i] is Err);
    }
}

/// Once an error is in the slot, no later one takes its place.
pub proof fn first_error_stays<E>(
    states: Seq<Batch<E>>,
    item_count: nat,
    worker_count: nat,
    earlier: int,
    later: int,
)
    requires
        is_run(states, item_count, worker_count),
        0 <= earlier <= later < states.len(),
        states[earlier].first_error is Some,
    ensures
        states[later].first_error == states[earlier].first_error,
    decreases later - earlier,
{
    if earlier < later {
        first_error_stays(states, item_count, worker_count, earlier, later - 1);
        run_keeps_invariant(states, item_count, worker_count, later - 1);
        let pre = states[later - 1];
        let post = states[later];
        assert(pre.moves_to(post));
        assert forall|w: int| !(#[trigger] pre.stores(w)) by {
            if pre.stores(w) {
                assert(pre.storing());
            }
        }
    }
}

/// Counts the workers that work on no further item.
pub open spec fn spent_worker<E>() -> spec_fn(WorkerStep<E>) -> nat {
    |step: WorkerStep<E>|
        if step is SwapFailed || step is StoreError || step is Stop {
            1
        } else {
            0
        }
}

impl<E> Batch<E> {
    /// The items whose work returned an error.
    pub open spec fn failures(self) -> Set<int> {
        self.results.dom().filter(|i: int| self.results[i] is Err)
    }

    /// There are no more failures than workers that have given up.
    pub open spec fn failures_kept(self) -> bool {
        &&& self.failures().finite()
        &&& self.failures().len() <= tally(self.workers, spent_worker::<E>())
    }
}

proof fn lemma_move_keeps_failures<E>(pre: Batch<E>, post: Batch<E>)
    requires
        pre.well_formed(),
        pre.failures_kept(),
        pre.moves_to(post),
    ensures
        post.failures_kept(),
{
    if exists|w: int, event: WorkerEvent<E>| #[trigger]
        pre.observes(w, event) && post == pre.observed(w, event) {
        let (w, event) = choose|w: int, event: WorkerEvent<E>| #[trigger]
            pre.observes(w, event) && post == pre.observed(w, event);
        let step = pre.workers[w].after(event, pre.item_count);
        lemma_tally_update(pre.workers, spent_worker::<E>(), w, step);
        match event {
            WorkerEvent::Worked(result) => {
                let i = pre.workers[w]->Work_0 as int;
                assert(!pre.results.contains_key(i));
                if result is Err {
                    assert(post.failures() =~= pre.failures().insert(i));
                } else {
                    assert(post.failures() =~= pre.failures());
                }
            },
            _ => {
                assert(post.failures() =~= pre.failures());
            },
        }
    } else {
        let w = choose|w: int| #[trigger] pre.stores(w) && post == pre.stored(w);
        lemma_tally_update(pre.workers, spent_worker::<E>(), w, WorkerStep::Stop);
        assert(post.failures() =~= pre.failures());
    }
}

proof fn lemma_run_keeps_failures<E>(
    states: Seq<Batch<E>>,
    item_count: nat,
    worker_count: nat,
    at: int,
)
    requires
        is_run(states, item_count, worker_count),
        0 <= at < states.len(),
    ensures
        states[at].failures_kept(),
    decreases at,
{
    if at == 0 {
        assert(states[0].failures() =~= Set::empty());
    } else {
        lemma_run_keeps_failures(states, item_count, worker_count, at - 1);
        run_keeps_invariant(states, item_count, worker_count, at - 1);
        lemma_move_keeps_failures(states[at - 1], states[at]);
    }
}

/// At most one item fails for each worker: a worker whose item failed works on no
/// other.
pub proof fn each_worker_fails_at_most_once<E>(
    states: Seq<Batch<E>>,
    item_count: nat,
    worker_count: nat,
    at: int,
)
    requires
        is_run(states, item_count, worker_count),
        0 <= at < states.len(),
    ensures
        states[at].failures().finite(),
        states[at].failures().len() <= worker_count,
{
    lemma_run_keeps_failures(states, item_count, worker_count, at);
    run_keeps_invariant(states, item_count, worker_count, at);
    lemma_tally_bound(states[at].workers, spent_worker::<E>(), 1);
}

/// The shared counter passes the number of items by at most one for each worker.
pub proof fn counter_stays_small<E>(
    states: Seq<Batch<E>>,
    item_count: nat,
    worker_count: nat,
    at: int,
)
    requires
        is_run(states, item_count, worker_count),
        0 <= at < states.len(),
    ensures
        states[at].next <= item_count + worker_count,
{
    run_keeps_invariant(states, item_count, worker_count, at);
    lemma_tally_bound(states[at].workers, stopped_worker::<E>(), 1);
}

/// A batch ends: no run makes more than three moves for each item and four for
/// each worker.
pub proof fn batch_ends<E>(states: Seq<Batch<E>>, item_count: nat, worker_count: nat)
    requires
        is_run(states, item_count, worker_count),
    ensures
        states.len() - 1 <= 3 * item_count + 4 * worker_count,
{
    lemma_moves_spent(states, item_count, worker_count, states.len() - 1);
    let fresh = Batch::<E>::fresh(item_count, worker_count);
    lemma_tally_bound(fresh.workers, worker_weight::<E>(), 4);
}

proof fn lemma_moves_spent<E>(
    states: Seq<Batch<E>>,
    item_count: nat,
    worker_count: nat,
    at: int,
)
    requires
        is_run(states, item_count, worker_count),
        0 <= at < states.len(),
    ensures
        at + states[at].moves_left() <= states[0].moves_left(),
    decreases at,
{
    if at > 0 {
        lemma_moves_spent(states, item_count, worker_count, at - 1);
        move_shortens_batch(states[at - 1], states[at]);
    }
}

/// No worker waits for another: one that has not stopped can always move, as long
/// as the counter fits its machine word.
pub proof fn worker_can_move<E>(batch: Batch<E>, w: int)
    requires
        0 <= w < batch.workers.len(),
        !(batch.workers[w] is Stop),
        batch.next <= usize::MAX,
    ensures
        exists|post: Batch<E>| #[trigger] batch.moves_to(post),
{
    match batch.workers[w] {
        WorkerStep::LoadFailed => {
            let event = WorkerEvent::<E>::FailedLoaded(batch.failed);
            assert(batch.observes(w, event));
            assert(batch.moves_to(batch.observed(w, event)));
        },
        WorkerStep::ClaimIndex => {
            let event = WorkerEvent::<E>::IndexClaimed(batch.next as usize);
            assert(batch.observes(w, event));
            assert(batch.moves_to(batch.observed(w, event)));
        },
        WorkerStep::Work(_) => {
            let event = WorkerEvent::<E>::Worked(Ok(()));
            assert(batch.observes(w, event));
            assert(batch.moves_to(batch.observed(w, event)));
        },
        WorkerStep::SwapFailed(_) => {
            let event = WorkerEvent::<E>::FailedSwapped(batch.failed);
            assert(batch.observes(w, event));
            assert(batch.moves_to(batch.observed(w, event)));
        },
        WorkerStep::StoreError(_) => {
            assert(batch.stores(w));
            assert(batch.moves_to(batch.stored(w)));
        },
        WorkerStep::Stop => {},
    }
}

/// A batch whose work cannot fail, at one moment.
pub struct UncheckedBatch {
    pub item_count: nat,
    /// The shared counter.
    pub next: nat,
    pub workers: Seq<UncheckedStep>,
    /// The items whose work was begun, in that order.
    pub started: Seq<int>,
    /// The items whose work has ended.
    pub done: Set<int>,
}

/// A weight that falls with each move of a worker, except for the move that claims
/// an item: that one adds one.
pub open spec fn unchecked_weight() -> spec_fn(UncheckedStep) -> nat {
    |step: UncheckedStep|
        match step {
            UncheckedStep::Work(_) => 2,
            UncheckedStep::ClaimIndex => 1,
            UncheckedStep::Stop => 0,
        }
}

/// Counts the workers that have stopped.
pub open spec fn stopped_unchecked() -> spec_fn(UncheckedStep) -> nat {
    |step: UncheckedStep|
        if step is Stop {
            1
        } else {
            0
        }
}

impl UncheckedBatch {
    /// A batch of `item_count` items before any of its `worker_count` workers
    /// has moved.
    pub open spec fn fresh(item_count: nat, worker_count: nat) -> UncheckedBatch {
        UncheckedBatch {
            item_count,
            next: 0,
            workers: Seq::new(worker_count, |w: int| UncheckedStep::ClaimIndex),
            started: Seq::empty(),
            done: Set::empty(),
        }
    }

    /// The indices that were claimed and name an item.
    pub open spec fn claimed(self) -> nat {
        least(self.next, self.item_count)
    }

    /// Whether worker `w` can observe `event` in this state.
    pub open spec fn observes(self, w: int, event: UncheckedEvent) -> bool {
        &&& 0 <= w < self.workers.len()
        &&& self.workers[w].accepts(event)
        &&& match event {
            UncheckedEvent::IndexClaimed(index) => index == self.next,
            UncheckedEvent::Worked => true,
        }
    }

    /// The state after worker `w` observed `event`.
    pub open spec fn observed(self, w: int, event: UncheckedEvent) -> UncheckedBatch {
        let step = self.workers[w].after(event, self.item_count);
        let moved = UncheckedBatch { workers: self.workers.update(w, step), ..self };
        match event {
            UncheckedEvent::IndexClaimed(index) => UncheckedBatch {
                next: self.next + 1,
                started: if index < self.item_count {
                    self.started.push(index as int)
                } else {
                    self.started
                },
                ..moved
            },
            UncheckedEvent::Worked => UncheckedBatch {
                done: self.done.insert(self.workers[w]->Work_0 as int),
                ..moved
            },
        }
    }

    /// Whether one worker's move leads from this state to `post`.
    pub open spec fn moves_to(self, post: UncheckedBatch) -> bool {
        exists|w: int, event: UncheckedEvent| #[trigger]
            self.observes(w, event) && post == self.observed(w, event)
    }

    /// Whether every worker has stopped.
    pub open spec fn finished(self) -> bool {
        forall|w: int| 0 <= w < self.workers.len() ==> #[trigger] self.workers[w] is Stop
    }

    /// Whether some worker is at work on item `i`.
    pub open spec fn working(self, i: int) -> bool {
        exists|w: int|
            0 <= w < self.workers.len() && #[trigger] self.workers[w] is Work
                && self.workers[w]->Work_0 == i
    }

    /// What holds of a batch at every moment.
    pub open spec fn well_formed(self) -> bool {
        &&& self.started.len() == self.claimed()
        &&& forall|i: int| 0 <= i < self.started.len() ==> #[trigger] self.started[i] == i
        &&& forall|i: int| #[trigger] self.done.contains(i) ==> 0 <= i < self.claimed()
        &&& forall|w: int|
            #![trigger self.workers[w]]
            0 <= w < self.workers.len() && self.workers[w] is Work ==> {
                &&& self.workers[w]->Work_0 < self.claimed()
                &&& !self.done.contains(self.workers[w]->Work_0 as int)
            }
        &&& forall|v: int, w: int|
            #![trigger self.workers[v], self.workers[w]]
            0 <= v < w < self.workers.len() && self.workers[v] is Work && self.workers[w] is Work
                ==> self.workers[v]->Work_0 != self.workers[w]->Work_0
        &&& forall|i: int|
            0 <= i < self.claimed() ==> #[trigger] self.done.contains(i) || self.working(i)
        &&& self.next <= self.item_count + tally(self.workers, stopped_unchecked())
        &&& forall|w: int|
            0 <= w < self.workers.len() && #[trigger] self.workers[w] is Stop ==> self.next
                >= self.item_count
    }

    /// A bound on the moves that the workers can still make.
    pub open spec fn moves_left(self) -> nat {
        2 * (self.item_count - self.claimed()) as nat + tally(self.workers, unchecked_weight())
    }
}

/// Every move keeps the invariant and brings the batch closer to its end.
pub proof fn unchecked_move_keeps_invariant(pre: UncheckedBatch, post: UncheckedBatch)
    requires
        pre.well_formed(),
        pre.moves_to(post),
    ensures
        post.well_formed(),
        post.item_count == pre.item_count,
        post.workers.len() == pre.workers.len(),
        post.moves_left() < pre.moves_left(),
{
    let (w, event) = choose|w: int, event: UncheckedEvent| #[trigger]
        pre.observes(w, event) && post == pre.observed(w, event);
    let step = pre.workers[w].after(event, pre.item_count);
    lemma_tally_update(pre.workers, stopped_unchecked(), w, step);
    lemma_tally_update(pre.workers, unchecked_weight(), w, step);
    assert forall|i: int| 0 <= i < post.claimed() implies #[trigger] post.done.contains(i)
        || post.working(i) by {
        if i < pre.claimed() {
            assert(pre.done.contains(i) || pre.working(i));
            if !pre.done.contains(i) {
                let v = choose|v: int|
                    0 <= v < pre.workers.len() && #[trigger] pre.workers[v] is Work
                        && pre.workers[v]->Work_0 == i;
                if v != w {
                    assert(post.workers[v] == pre.workers[v]);
                }
            }
        } else {
            assert(post.workers[w] is Work && post.workers[w]->Work_0 == i);
        }
    }
    assert forall|v: int| 0 <= v < post.workers.len() && #[trigger] post.workers[v] is Stop implies
        post.next >= post.item_count by {
        if v != w {
            assert(pre.workers[v] is Stop);
        }
    }
}

/// Whether `states` is a run of a batch whose work cannot fail.
pub open spec fn is_unchecked_run(
    states: Seq<UncheckedBatch>,
    item_count: nat,
    worker_count: nat,
) -> bool {
    &&& states.len() > 0
    &&& states[0] == UncheckedBatch::fresh(item_count, worker_count)
    &&& forall|i: int| 0 < i < states.len() ==> states[i - 1].moves_to(#[trigger] states[i])
}

/// The invariant holds at every moment of every run, and each move uses up one of
/// those that were left.
pub proof fn unchecked_run_keeps_invariant(
    states: Seq<UncheckedBatch>,
    item_count: nat,
    worker_count: nat,
    at: int,
)
    requires
        is_unchecked_run(states, item_count, worker_count),
        0 <= at < states.len(),
    ensures
        states[at].well_formed(),
        states[at].item_count == item_count,
        states[at].workers.len() == worker_count,
        at + states[at].moves_left() <= states[0].moves_left(),
    decreases at,
{
    if at == 0 {
        assert(states[0].claimed() == 0);
    } else {
        unchecked_run_keeps_invariant(states, item_count, worker_count, at - 1);
        unchecked_move_keeps_invariant(states[at - 1], states[at]);
    }
}

/// When all workers have stopped, the work of every item was done, and it was
/// begun exactly once, in the order of the items.
pub proof fn unchecked_batch_does_everything(
    states: Seq<UncheckedBatch>,
    item_count: nat,
    worker_count: nat,
    at: int,
)
    requires
        is_unchecked_run(states, item_count, worker_count),
        worker_count > 0 || item_count == 0,
        0 <= at < states.len(),
        states[at].finished(),
    ensures
        forall|i: int| #[trigger] states[at].done.contains(i) <==> 0 <= i < item_count,
        states[at].started.no_duplicates(),
        states[at].started == Seq::new(item_count, |i: int| i),
{
    unchecked_run_keeps_invariant(states, item_count, worker_count, at);
    let batch = states[at];
    if worker_count > 0 {
        assert(batch.workers[0] is Stop);
    }
    assert(batch.claimed() == item_count);
    assert forall|i: int| 0 <= i < item_count implies #[trigger] batch.done.contains(i) by {
        assert(!batch.working(i));
    }
    assert(batch.started =~= Seq::new(item_count, |i: int| i));
}

/// A batch whose work cannot fail ends: no run makes more than two moves for each
/// item and one for each worker. Its counter passes the number of items by at
/// most one for each worker.
pub proof fn unchecked_batch_ends(
    states: Seq<UncheckedBatch>,
    item_count: nat,
    worker_count: nat,
    at: int,
)
    requires
        is_unchecked_run(states, item_count, worker_count),
        0 <= at < states.len(),
    ensures
        states.len() - 1 <= 2 * item_count + worker_count,
        states[at].next <= item_count + worker_count,
{
    unchecked_run_keeps_invariant(states, item_count, worker_count, states.len() - 1);
    unchecked_run_keeps_invariant(states, item_count, worker_count, at);
    let fresh = UncheckedBatch::fresh(item_count, worker_count);
    lemma_tally_bound(fresh.workers, unchecked_weight(), 1);
    lemma_tally_bound(states[at].workers, stopped_unchecked(), 1);
}

/// A worker of a batch whose work cannot fail can always move until it stops, as
/// long as the counter fits its machine word.
pub proof fn unchecked_worker_can_move(batch: UncheckedBatch, w: int)
    requires
        0 <= w < batch.workers.len(),
        !(batch.workers[w] is Stop),
        batch.next <= usize::MAX,
    ensures
        exists|post: UncheckedBatch| #[trigger] batch.moves_to(post),
{
    let event = match batch.workers[w] {
        UncheckedStep::ClaimIndex => UncheckedEvent::IndexClaimed(batch.next as usize),
        _ => UncheckedEvent::Worked,
    };
    assert(batch.observes(w, event));
    assert(batch.moves_to(batch.observed(w, event)));
}

/// A batch run by such workers answers as a batch should: if every result that
/// its workers saw is one of `work` on the item in question, then what its error
/// slot says when all have stopped is a right answer for these items.
pub proof fn workers_answer_for_the_work<T, E, F>(
    items: Seq<T>,
    work: F,
    states: Seq<Batch<E>>,
    worker_count: nat,
    at: int,
) where F: Fn(&T) -> Result<(), E>
    requires
        is_run(states, items.len(), worker_count),
        worker_count > 0 || items.len() == 0,
        0 <= at < states.len(),
        states[at].finished(),
        forall|i: int| #[trigger]
            states[at].results.contains_key(i) ==> call_ensures(
                work,
                (&items[i],),
                states[at].results[i],
            ),
    ensures
        batch_answer(items, work, answer_of_slot(states[at].first_error)),
{
    slot_tells_the_outcome(states, items.len(), worker_count, at);
    run_keeps_invariant(states, items.len(), worker_count, at);
    lemma_answer_for_the_work(items, work, states[at]);
}

proof fn lemma_answer_for_the_work<T, E, F>(items: Seq<T>, work: F, batch: Batch<E>) where
    F: Fn(&T) -> Result<(), E>,

    requires
        batch.first_error is None ==> forall|i: int|
            0 <= i < items.len() ==> #[trigger] batch.results.contains_key(i)
                && batch.results[i] is Ok,
        batch.first_error is Some ==> batch.saw_error(batch.first_error->0),
        forall|i: int| #[trigger] batch.results.contains_key(i) ==> 0 <= i < items.len(),
        forall|i: int| #[trigger]
            batch.results.contains_key(i) ==> call_ensures(
                work,
                (&items[i],),
                batch.results[i],
            ),
    ensures
        batch_answer(items, work, answer_of_slot(batch.first_error)),
{
    match batch.first_error {
        None => {
            assert forall|i: int| 0 <= i < items.len() implies call_ensures(
                work,
                (&#[trigger] items[i],),
                Ok(()),
            ) by {
                assert(batch.results.contains_key(i));
                match batch.results[i] {
                    Ok(nothing) => {
                        assert(nothing == ());
                    },
                    Err(_) => {},
                }
            }
        },
        Some(error) => {
            let i = choose|i: int| #[trigger]
                batch.results.contains_key(i) && batch.results[i] == Err::<(), E>(error);
            assert(call_ensures(work, (&items[i],), Err(error)));
        },
    }
}

/// A batch whose work cannot fail, run by such workers, has run the work on every
/// item when all workers have stopped.
pub proof fn unchecked_workers_run_the_work<T, F>(
    items: Seq<T>,
    work: F,
    states: Seq<UncheckedBatch>,
    worker_count: nat,
    at: int,
) where F: Fn(&T)
    requires
        is_unchecked_run(states, items.len(), worker_count),
        worker_count > 0 || items.len() == 0,
        0 <= at < states.len(),
        states[at].finished(),
        forall|i: int| #[trigger]
            states[at].done.contains(i) ==> call_ensures(work, (&items[i],), ()),
    ensures
        batch_ran(items, work, ()),
{
    unchecked_batch_does_everything(states, items.len(), worker_count, at);
    assert forall|i: int| 0 <= i < items.len() implies call_ensures(
        work,
        (&#[trigger] items[i],),
        (),
    ) by {
        assert(states[at].done.contains(i));
    }
}

/// A batch as the scheduler plans it has workers whenever it has items, so its
/// error slot tells the outcome and its counter fits a machine word.
pub proof fn planned_batch_tells_its_outcome<E>(
    plan: FsBatch,
    most: nat,
    states: Seq<Batch<E>>,
    at: int,
)
    requires
        plan.shared_among(plan.item_count as nat, most),
        plan.item_count <= isize::MAX,
        is_run(states, plan.item_count as nat, plan.worker_count as nat),
        0 <= at < states.len(),
    ensures
        states[at].next <= usize::MAX,
        states[at].finished() && states[at].first_error is None ==> forall|i: int|
            0 <= i < plan.item_count ==> #[trigger] states[at].results.contains_key(i)
                && states[at].results[i] is Ok,
        states[at].finished() && states[at].first_error is Some ==> states[at].saw_error(
            states[at].first_error->0,
        ),
{
    counter_stays_small(states, plan.item_count as nat, plan.worker_count as nat, at);
    if states[at].finished() {
        slot_tells_the_outcome(states, plan.item_count as nat, plan.worker_count as nat, at);
    }
}

/// A worker that has stopped never moves again.
pub proof fn stopped_workers_stay_stopped<E>(
    states: Seq<Batch<E>>,
    item_count: nat,
    worker_count: nat,
    w: int,
    earlier: int,
    later: int,
)
    requires
        is_run(states, item_count, worker_count),
        0 <= w < worker_count,
        0 <= earlier <= later < states.len(),
        states[earlier].workers[w] is Stop,
    ensures
        states[later].workers[w] is Stop,
    decreases later - earlier,
{
    if earlier < later {
        stopped_workers_stay_stopped(states, item_count, worker_count, w, earlier, later - 1);
        run_keeps_invariant(states, item_count, worker_count, later - 1);
        assert(states[later - 1].moves_to(states[later]));
    }
}

/// In a batch of any size, a worker that sees the failure flag set stops there: at
/// no later moment of the run is it about to claim an item, or at work on one.
pub proof fn workers_that_see_the_failure_begin_no_further_item<E>(
    states: Seq<Batch<E>>,
    item_count: nat,
    worker_count: nat,
    w: int,
    at: int,
    later: int,
)
    requires
        is_run(states, item_count, worker_count),
        0 <= at < later < states.len(),
        states[at].observes(w, WorkerEvent::FailedLoaded(true)),
        states[at + 1] == states[at].observed(w, WorkerEvent::FailedLoaded(true)),
    ensures
        !(states[later].workers[w] is ClaimIndex),
        !(states[later].workers[w] is Work),
        states[later].workers[w] is Stop,
{
    run_keeps_invariant(states, item_count, worker_count, at);
    stopped_workers_stay_stopped(states, item_count, worker_count, w, at + 1, later);
}

/// A worker begins an item only from a claim, and comes to a claim only when it has
/// just seen the failure flag unset: between any two of its items it looks at the
/// flag.
pub proof fn items_are_begun_only_past_the_flag<E>(batch: Batch<E>, w: int, event: WorkerEvent<E>)
    requires
        batch.observes(w, event),
    ensures
        batch.observed(w, event).workers[w] is Work ==> batch.workers[w] is ClaimIndex,
        batch.observed(w, event).workers[w] is ClaimIndex ==> batch.workers[w] is LoadFailed
            && event == WorkerEvent::<E>::FailedLoaded(false),
{
}

/// Counts the workers that have seen the failure flag unset and are about to claim
/// an item.
pub open spec fn claiming_worker<E>() -> spec_fn(WorkerStep<E>) -> nat {
    |step: WorkerStep<E>|
        if step is ClaimIndex {
            1
        } else {
            0
        }
}

impl<E> Batch<E> {
    /// Whether one worker's move leads from this state to `post`, and a worker that
    /// looks at the failure flag sees it as it is.
    pub open spec fn moves_promptly_to(self, post: Batch<E>) -> bool {
        ||| exists|w: int, event: WorkerEvent<E>| #[trigger]
            self.observes(w, event) && post == self.observed(w, event) && (event
                is FailedLoaded ==> event->FailedLoaded_0 == self.failed)
        ||| exists|w: int| #[trigger] self.stores(w) && post == self.stored(w)
    }
}

/// Once an item has failed and the flag is set, a worker begins at most the item for
/// which it looked at the flag before: from then on no more items are begun than
/// there are workers that were about to claim one, and so no more than there are
/// workers. No read of the flag is taken to be stale.
pub proof fn a_failure_stops_the_batch<E>(
    states: Seq<Batch<E>>,
    item_count: nat,
    worker_count: nat,
    failure: int,
    later: int,
)
    requires
        is_run(states, item_count, worker_count),
        forall|i: int|
            0 < i < states.len() ==> states[i - 1].moves_promptly_to(#[trigger] states[i]),
        0 <= failure <= later < states.len(),
        states[failure].failed,
    ensures
        states[later].failed,
        states[later].started.len() + tally(states[later].workers, claiming_worker::<E>())
            <= states[failure].started.len() + tally(
            states[failure].workers,
            claiming_worker::<E>(),
        ),
        states[later].started.len() <= states[failure].started.len() + worker_count,
    decreases later - failure,
{
    run_keeps_invariant(states, item_count, worker_count, failure);
    lemma_tally_bound(states[failure].workers, claiming_worker::<E>(), 1);
    if failure < later {
        a_failure_stops_the_batch(states, item_count, worker_count, failure, later - 1);
        let pre = states[later - 1];
        let post = states[later];
        assert(pre.moves_promptly_to(post));
        if exists|w: int, event: WorkerEvent<E>| #[trigger]
            pre.observes(w, event) && post == pre.observed(w, event) && (event
                is FailedLoaded ==> event->FailedLoaded_0 == pre.failed) {
            let (w, event) = choose|w: int, event: WorkerEvent<E>| #[trigger]
                pre.observes(w, event) && post == pre.observed(w, event) && (event
                    is FailedLoaded ==> event->FailedLoaded_0 == pre.failed);
            let step = pre.workers[w].after(event, pre.item_count);
            lemma_tally_update(pre.workers, claiming_worker::<E>(), w, step);
        } else {
            let w = choose|w: int| #[trigger] pre.stores(w) && post == pre.stored(w);
            lemma_tally_update(pre.workers, claiming_worker::<E>(), w, WorkerStep::Stop);
        }
    }
}

/// What a batch returns once all its workers have stopped answers for the work: a
/// success means that the work succeeded on every item, and an error is one that the
/// work returned for some item.
pub proof fn batch_results_answer_for_every_item<T, E, F>(
    items: Seq<T>,
    work: F,
    states: Seq<Batch<E>>,
    worker_count: nat,
    at: int,
    result: Result<(), E>,
) where F: Fn(&T) -> Result<(), E>
    requires
        is_run(states, items.len(), worker_count),
        worker_count > 0 || items.len() == 0,
        0 <= at < states.len(),
        states[at].finished(),
        forall|i: int| #[trigger]
            states[at].results.contains_key(i) ==> call_ensures(
                work,
                (&items[i],),
                states[at].results[i],
            ),
        call_ensures(batch_result::<E>, (states[at].first_error,), result),
    ensures
        result is Ok ==> forall|i: int|
            0 <= i < items.len() ==> call_ensures(work, (&#[trigger] items[i],), Ok(())),
        result matches Err(error) ==> exists|i: int|
            0 <= i < items.len() && call_ensures(work, (&#[trigger] items[i],), Err(error)),
        result is Err <==> exists|i: int| #[trigger]
            states[at].results.contains_key(i) && states[at].results[i] is Err,
{
    the_slot_is_the_answer(states[at].first_error, result);
    slot_tells_the_outcome(states, items.len(), worker_count, at);
    workers_answer_for_the_work(items, work, states, worker_count, at);
}

} // verus!
