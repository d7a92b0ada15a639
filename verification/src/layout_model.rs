//! Storing and restoring layouts as a whole: what the two leave on disk.
//!
//! A state holds the directories that the procedures work on, each `None` where
//! there is no such directory. An operation that works does what it is for. One
//! that fails may leave anything in the directory it was to change, except that a
//! rename then changes nothing. Nobody else works in these directories meanwhile,
//! so a rename finds a directory in its way only if there is one, and a file reads
//! as it was written.

use crate::io_error::{existing_dir, is_gone, IoError};
use crate::project_layout_cache::{
    metadata_text, quiet_store_action, restore_action, store_action, RestoreAction, RestoreEvent,
    StoreAction, StoreEvent,
};
use crate::protocol::{is_run, Moment};
use crate::replace_dir::{replace_action, ReplaceAction, ReplaceEvent};
use vstd::prelude::*;

verus! {

/// A stage and the directory whose place it is to take. `X` is what a directory
/// holds.
pub struct Places<X> {
    pub stage: Option<X>,
    pub target: Option<X>,
}

impl<X> Places<X> {
    /// Whether an attempt to rename the stage to the target may answer `renamed`
    /// and leave the places as `after`.
    pub open spec fn renames<E>(self, renamed: Result<(), IoError<E>>, after: Places<X>) -> bool {
        match renamed {
            Ok(()) => {
                &&& self.stage is Some
                &&& after == Places { stage: None, target: self.stage }
            },
            Err(error) => {
                &&& existing_dir(error.kind) ==> self.target is Some
                &&& after == self
            },
        }
    }
}

/// Whether one moment of a replacement may follow another.
pub open spec fn replace_follows<X, E>(
    at: Moment<ReplaceEvent<E>, Places<X>>,
    next: Moment<ReplaceEvent<E>, Places<X>>,
) -> bool {
    match (replace_action(at.event), next.event) {
        (ReplaceAction::Rename, ReplaceEvent::Renamed(renamed)) => at.state.renames(
            renamed,
            next.state,
        ),
        (ReplaceAction::RemoveTarget, ReplaceEvent::TargetRemoved(removal)) => {
            &&& next.state.stage == at.state.stage
            &&& is_gone(removal) ==> next.state.target is None
        },
        (ReplaceAction::RenameAgain, ReplaceEvent::RenamedAgain(renamed)) => at.state.renames(
            renamed,
            next.state,
        ),
        _ => false,
    }
}

/// Whether these are the moments of a replacement that returns `result` and leaves
/// the places as `after`.
pub open spec fn is_replacement<X, E>(
    run: Seq<Moment<ReplaceEvent<E>, Places<X>>>,
    result: Result<(), IoError<E>>,
    after: Places<X>,
) -> bool {
    &&& is_run(
        run,
        ReplaceEvent::Begin,
        |at: Moment<ReplaceEvent<E>, Places<X>>, next: Moment<ReplaceEvent<E>, Places<X>>|
            replace_follows(at, next),
    )
    &&& match replace_action(run.last().event) {
        ReplaceAction::Finish(returned) => returned == result && after == run.last().state,
        ReplaceAction::DiscardStage(returned) => returned == result && after.target
            == run.last().state.target,
        _ => false,
    }
}

/// A replacement that succeeds has put what the stage held in the place of the
/// target.
pub proof fn replacement_puts_the_stage_in_place<X, E>(
    run: Seq<Moment<ReplaceEvent<E>, Places<X>>>,
    after: Places<X>,
)
    requires
        is_replacement(run, Ok::<(), IoError<E>>(()), after),
    ensures
        run[0].state.stage is Some,
        after.target == run[0].state.stage,
{
    assert(replace_follows(run[0], run[1]));
    if run.len() > 2 {
        assert(replace_follows(run[1], run[2]));
    }
    if run.len() > 3 {
        assert(replace_follows(run[2], run[3]));
    }
    if run.len() > 4 {
        assert(replace_follows(run[3], run[4]));
    }
}

/// What a cached layout, or a stage for one, holds. `N` is a tree of files.
pub struct CachedLayout<N> {
    /// The text of the metadata file.
    pub metadata: Option<Seq<char>>,
    /// The layout entry, where it is a directory.
    pub layout: Option<N>,
}

/// The directories that a layout is stored and restored in. `N` is a tree of files.
pub struct LayoutDisk<N> {
    /// The modules directory of the project.
    pub modules: Option<N>,
    pub cached: Option<CachedLayout<N>>,
    pub stage: Option<CachedLayout<N>>,
}

/// Whether an action of a store may be answered by `event`, and change the
/// directories from `before` to `after`.
pub open spec fn store_answered<N, E, R>(
    action: StoreAction<Seq<char>, R>,
    before: LayoutDisk<N>,
    event: StoreEvent<E>,
    after: LayoutDisk<N>,
) -> bool {
    match (action, event) {
        (StoreAction::CheckModules, StoreEvent::ModulesChecked(is_dir)) => {
            &&& is_dir <==> before.modules is Some
            &&& after == before
        },
        (StoreAction::CreateParent, StoreEvent::ParentCreated(_)) => after == before,
        (StoreAction::CloneModules, StoreEvent::ModulesCloned(cloned)) => {
            &&& after.modules == before.modules
            &&& after.cached == before.cached
            &&& cloned is Ok ==> after.stage == Some(
                CachedLayout { metadata: None, layout: before.modules },
            )
        },
        (StoreAction::WriteMetadata(text), StoreEvent::MetadataWritten(written)) => {
            &&& after.modules == before.modules
            &&& after.cached == before.cached
            &&& written is Ok ==> before.stage is Some && after.stage == Some(
                CachedLayout { metadata: Some(text), layout: before.stage->0.layout },
            )
        },
        (StoreAction::ReplaceLayout, StoreEvent::Replaced(replaced)) => {
            &&& after.modules == before.modules
            &&& exists|run: Seq<Moment<ReplaceEvent<E>, Places<CachedLayout<N>>>>|
                {
                    &&& run[0].state == Places { stage: before.stage, target: before.cached }
                    &&& #[trigger] is_replacement(
                        run,
                        replaced,
                        Places { stage: after.stage, target: after.cached },
                    )
                }
        },
        _ => false,
    }
}

/// Whether one moment of a store may follow another, for a layout with this key.
pub open spec fn store_follows<N, E>(
    key: Seq<char>,
    at: Moment<StoreEvent<E>, LayoutDisk<N>>,
    next: Moment<StoreEvent<E>, LayoutDisk<N>>,
) -> bool {
    store_answered(store_action(key, at.event), at.state, next.event, next.state)
}

/// Whether these may be the moments of a store of a layout with this key.
pub open spec fn is_store_run<N, E>(
    key: Seq<char>,
    run: Seq<Moment<StoreEvent<E>, LayoutDisk<N>>>,
) -> bool {
    is_run(
        run,
        StoreEvent::Begin,
        |at: Moment<StoreEvent<E>, LayoutDisk<N>>, next: Moment<StoreEvent<E>, LayoutDisk<N>>|
            store_follows(key, at, next),
    )
}

/// Whether one moment of a restore may follow another, for a layout with this key.
pub open spec fn restore_follows<N, E>(
    key: Seq<char>,
    at: Moment<RestoreEvent<E>, LayoutDisk<N>>,
    next: Moment<RestoreEvent<E>, LayoutDisk<N>>,
) -> bool {
    let before = at.state;
    let after = next.state;
    match (restore_action(key, at.event), next.event) {
        (RestoreAction::ReadCache, RestoreEvent::CacheRead(metadata, layout_is_dir)) => {
            &&& metadata is Some <==> before.cached is Some && before.cached->0.metadata is Some
            &&& metadata is Some ==> before.cached->0.metadata == Some(metadata->0@)
            &&& layout_is_dir <==> before.cached is Some && before.cached->0.layout is Some
            &&& after == before
        },
        (RestoreAction::RemoveModules, RestoreEvent::ModulesRemoved(removal)) => {
            &&& after.cached == before.cached
            &&& is_gone(removal) ==> after.modules is None
        },
        (RestoreAction::CloneLayout, RestoreEvent::LayoutCloned(cloned)) => {
            &&& after.cached == before.cached
            &&& cloned is Ok ==> before.cached is Some && after.modules
                == before.cached->0.layout
        },
        _ => false,
    }
}

/// Whether these may be the moments of a restore of a layout with this key.
pub open spec fn is_restore_run<N, E>(
    key: Seq<char>,
    run: Seq<Moment<RestoreEvent<E>, LayoutDisk<N>>>,
) -> bool {
    is_run(
        run,
        RestoreEvent::Begin,
        |at: Moment<RestoreEvent<E>, LayoutDisk<N>>, next: Moment<RestoreEvent<E>, LayoutDisk<N>>|
            restore_follows(key, at, next),
    )
}

/// Whether a removal or clone of a restore failed.
pub open spec fn restore_step_failed<E>(event: RestoreEvent<E>) -> bool {
    match event {
        RestoreEvent::ModulesRemoved(removal) => !is_gone(removal),
        RestoreEvent::LayoutCloned(cloned) => cloned is Err,
        _ => false,
    }
}

/// A store leaves the modules directory as it was, at every moment.
pub proof fn store_leaves_the_modules_alone<N, E>(
    key: Seq<char>,
    run: Seq<Moment<StoreEvent<E>, LayoutDisk<N>>>,
    i: int,
)
    requires
        is_store_run(key, run),
        0 <= i < run.len(),
    ensures
        run[i].state.modules == run[0].state.modules,
    decreases i,
{
    if i > 0 {
        store_leaves_the_modules_alone(key, run, i - 1);
        assert(store_follows(key, run[i - 1], run[i]));
    }
}

/// A restore leaves the cached layout as it was, at every moment.
pub proof fn restore_leaves_the_cache_alone<N, E>(
    key: Seq<char>,
    run: Seq<Moment<RestoreEvent<E>, LayoutDisk<N>>>,
    i: int,
)
    requires
        is_restore_run(key, run),
        0 <= i < run.len(),
    ensures
        run[i].state.cached == run[0].state.cached,
    decreases i,
{
    if i > 0 {
        restore_leaves_the_cache_alone(key, run, i - 1);
        assert(restore_follows(key, run[i - 1], run[i]));
    }
}

/// A store that succeeds on a modules directory leaves its tree in the cache, next
/// to the metadata of the key.
pub proof fn store_caches_the_modules<N, E>(
    key: Seq<char>,
    run: Seq<Moment<StoreEvent<E>, LayoutDisk<N>>>,
)
    requires
        is_store_run(key, run),
        run[0].state.modules is Some,
        store_action(key, run.last().event) == StoreAction::<
            Seq<char>,
            Result<(), IoError<E>>,
        >::Finish(Ok(())),
    ensures
        run.last().state.cached == Some(
            CachedLayout {
                metadata: Some(metadata_text(key)),
                layout: run[0].state.modules,
            },
        ),
{
    assert(store_follows(key, run[0], run[1]));
    assert(store_follows(key, run[1], run[2]));
    if run.len() > 3 {
        assert(store_follows(key, run[2], run[3]));
    }
    if run.len() > 4 {
        assert(store_follows(key, run[3], run[4]));
    }
    if run.len() > 5 {
        assert(store_follows(key, run[4], run[5]));
        let before = run[4].state;
        let after = run[5].state;
        let replaced = run[5].event->Replaced_0;
        let places = Places { stage: after.stage, target: after.cached };
        let replacement = choose|replacement: Seq<
            Moment<ReplaceEvent<E>, Places<CachedLayout<N>>>,
        >|
            {
                &&& replacement[0].state == Places { stage: before.stage, target: before.cached }
                &&& #[trigger] is_replacement(replacement, replaced, places)
            };
        if replaced is Ok {
            replacement_puts_the_stage_in_place(replacement, places);
        }
    }
    if run.len() > 6 {
        assert(store_follows(key, run[5], run[6]));
    }
}

/// A restore brings back what a store saw: once a store of a modules directory has
/// succeeded, and as long as the cached layout stays as the store left it, a
/// restore for the same key whose removal and clone work succeeds, and leaves in
/// its modules directory the tree that was stored. Whatever was in the modules
/// directory before, or became of the one that was stored, does not matter.
pub proof fn restore_brings_back_what_was_stored<N, E>(
    key: Seq<char>,
    stored: Seq<Moment<StoreEvent<E>, LayoutDisk<N>>>,
    restored: Seq<Moment<RestoreEvent<E>, LayoutDisk<N>>>,
)
    requires
        is_store_run(key, stored),
        stored[0].state.modules is Some,
        store_action(key, stored.last().event) == StoreAction::<
            Seq<char>,
            Result<(), IoError<E>>,
        >::Finish(Ok(())),
        is_restore_run(key, restored),
        restored[0].state.cached == stored.last().state.cached,
        restore_action(key, restored.last().event) is Finish,
        !restore_step_failed(restored.last().event),
    ensures
        restore_action(key, restored.last().event) == RestoreAction::Finish(true),
        restored.last().state.modules == stored[0].state.modules,
{
    store_caches_the_modules(key, stored);
    assert(restore_follows(key, restored[0], restored[1]));
    assert(restore_follows(key, restored[1], restored[2]));
    if restored.len() > 3 {
        assert(restore_follows(key, restored[2], restored[3]));
    }
    if restored.len() > 4 {
        assert(restore_follows(key, restored[3], restored[4]));
    }
}

/// Whether one moment of a quiet store may follow another, for a layout with this
/// key.
pub open spec fn quiet_store_follows<N, E>(
    key: Seq<char>,
    at: Moment<StoreEvent<E>, LayoutDisk<N>>,
    next: Moment<StoreEvent<E>, LayoutDisk<N>>,
) -> bool {
    store_answered(quiet_store_action(key, at.event), at.state, next.event, next.state)
}

/// Whether these may be the moments of a quiet store of a layout with this key.
pub open spec fn is_quiet_store_run<N, E>(
    key: Seq<char>,
    run: Seq<Moment<StoreEvent<E>, LayoutDisk<N>>>,
) -> bool {
    is_run(
        run,
        StoreEvent::Begin,
        |at: Moment<StoreEvent<E>, LayoutDisk<N>>, next: Moment<StoreEvent<E>, LayoutDisk<N>>|
            quiet_store_follows(key, at, next),
    )
}

/// A restore brings back what a quiet store saw: once a quiet store of a modules
/// directory has ended without a failure, and as long as the cached layout stays as
/// it was left, a restore for the same key whose removal and clone work succeeds,
/// and leaves in its modules directory the tree that was stored.
pub proof fn restore_brings_back_what_was_stored_quietly<N, E>(
    key: Seq<char>,
    stored: Seq<Moment<StoreEvent<E>, LayoutDisk<N>>>,
    restored: Seq<Moment<RestoreEvent<E>, LayoutDisk<N>>>,
)
    requires
        is_quiet_store_run(key, stored),
        stored[0].state.modules is Some,
        quiet_store_action(key, stored.last().event) == StoreAction::<
            Seq<char>,
            Option<IoError<E>>,
        >::Finish(None),
        is_restore_run(key, restored),
        restored[0].state.cached == stored.last().state.cached,
        restore_action(key, restored.last().event) is Finish,
        !restore_step_failed(restored.last().event),
    ensures
        restore_action(key, restored.last().event) == RestoreAction::Finish(true),
        restored.last().state.modules == stored[0].state.modules,
{
    assert forall|i: int, j: int|
        #![trigger stored[i], stored[j]]
        0 <= i && j == i + 1 && j < stored.len() implies store_follows(
        key,
        stored[i],
        stored[j],
    ) by {
        assert(quiet_store_follows(key, stored[i], stored[j]));
    }
    assert(store_action(key, stored.last().event) is Finish);
    match store_action(key, stored.last().event)->Finish_0 {
        Ok(nothing) => {
            assert(nothing == ());
        },
        Err(_) => {},
    }
    restore_brings_back_what_was_stored(key, stored, restored);
}

} // verus!
