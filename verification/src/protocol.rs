//! Procedures that alternate decisions and outside operations.
//!
//! Such a procedure is a function from the latest event to the next action.
//! Whoever runs it performs the action and hands back what happened as the next
//! event, until an action needs no answer. The functions here describe whole
//! runs, for a given way in which the outside answers.

use vstd::prelude::*;

verus! {

/// The last action of a run that begins with `event`: the first one without an
/// answer, or the one reached after `most` answers.
pub open spec fn outcome<V, A>(
    decide: spec_fn(V) -> A,
    answer: spec_fn(A) -> Option<V>,
    event: V,
    most: nat,
) -> A
    decreases most,
{
    let action = decide(event);
    match answer(action) {
        Some(next) => if most == 0 {
            action
        } else {
            outcome(decide, answer, next, (most - 1) as nat)
        },
        None => action,
    }
}

/// Whether a run that begins with `event` performs `wanted` among its actions, up
/// to the one reached after `most` answers.
pub open spec fn performs<V, A>(
    decide: spec_fn(V) -> A,
    answer: spec_fn(A) -> Option<V>,
    event: V,
    most: nat,
    wanted: A,
) -> bool
    decreases most,
{
    let action = decide(event);
    action == wanted || match answer(action) {
        Some(next) => most > 0 && performs(decide, answer, next, (most - 1) as nat, wanted),
        None => false,
    }
}

/// A moment of a run: the latest event, and the state that it left the outside in.
pub struct Moment<V, S> {
    pub event: V,
    pub state: S,
}

/// Whether a run that begins with `first` may go through these moments, where
/// `follows` says which moment may come next after another.
pub open spec fn is_run<V, S>(
    run: Seq<Moment<V, S>>,
    first: V,
    follows: spec_fn(Moment<V, S>, Moment<V, S>) -> bool,
) -> bool {
    &&& run.len() > 0
    &&& run[0].event == first
    &&& forall|i: int, j: int|
        #![trigger run[i], run[j]]
        0 <= i && j == i + 1 && j < run.len() ==> follows(run[i], run[j])
}

} // verus!
