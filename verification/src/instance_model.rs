//! Building an instance and populating a package from it as a whole: what the two
//! leave on disk.
//!
//! A state holds the directories that the procedures work on, each `None` where
//! there is no such directory. An operation that works does what it is for. One
//! that fails may leave anything in the directory it was to change, except that a
//! rename then changes nothing. Others may build the same instance meanwhile: where
//! there is none, a whole one may appear at any moment.

use crate::package_instance_cache::{
    build_action, populate_action, BuildAction, BuildError, BuildEvent, BuildRequest,
    PopulateAction, PopulateEvent,
};
use crate::protocol::{is_run, Moment};
use vstd::prelude::*;

verus! {

/// What an instance, or a stage for one, holds. `N` is a tree of files.
pub struct Instance<N> {
    /// The text of the sentinel.
    pub sentinel: Option<Seq<char>>,
    pub files: Option<N>,
}

/// The instance of a package as it should be: the fingerprint of the package's
/// files, and the tree that an import of them gives.
pub struct PackageFiles<N> {
    pub fingerprint: Seq<char>,
    pub tree: N,
}

impl<N> PackageFiles<N> {
    /// The whole instance of the package.
    pub open spec fn whole(self) -> Instance<N> {
        Instance { sentinel: Some(self.fingerprint), files: Some(self.tree) }
    }

    /// Whether an instance is whole, if there is one.
    pub open spec fn whole_if_any(self, instance: Option<Instance<N>>) -> bool {
        instance is None || instance == Some(self.whole())
    }

    /// Whether others may change the instance in this way.
    pub open spec fn others(
        self,
        before: Option<Instance<N>>,
        after: Option<Instance<N>>,
    ) -> bool {
        after == before || before is None && after == Some(self.whole())
    }
}

/// The directories that an instance is built in and a package populated in. `N` is
/// a tree of files.
pub struct InstanceDisk<N> {
    pub instance: Option<Instance<N>>,
    pub stage: Option<Instance<N>>,
    /// The directory of the package.
    pub package: Option<N>,
}

/// Whether one moment of a build may follow another.
pub open spec fn build_follows<N, D, C, E, I>(
    files: PackageFiles<N>,
    request: BuildRequest<Seq<char>, D, C>,
    at: Moment<BuildEvent<E, I>, InstanceDisk<N>>,
    next: Moment<BuildEvent<E, I>, InstanceDisk<N>>,
) -> bool {
    let before = at.state;
    let after = next.state;
    &&& after.package == before.package
    &&& match (build_action(request, at.event), next.event) {
        (BuildAction::CreateParent, BuildEvent::ParentCreated(_)) => {
            &&& files.others(before.instance, after.instance)
            &&& after.stage == before.stage
        },
        (BuildAction::ImportFiles { .. }, BuildEvent::Imported(imported)) => {
            &&& files.others(before.instance, after.instance)
            &&& imported is Ok ==> after.stage == Some(
                Instance { sentinel: None, files: Some(files.tree) },
            )
        },
        (BuildAction::WriteSentinel(text), BuildEvent::SentinelWritten(written)) => {
            &&& files.others(before.instance, after.instance)
            &&& written is Ok ==> before.stage is Some && after.stage == Some(
                Instance { sentinel: Some(text), files: before.stage->0.files },
            )
        },
        (BuildAction::Rename, BuildEvent::Renamed(Ok(()))) => {
            &&& before.stage is Some
            &&& after.instance == before.stage
            &&& after.stage is None
        },
        (BuildAction::Rename, BuildEvent::Renamed(Err(error))) => {
            &&& files.others(before.instance, after.instance)
            &&& after.stage == before.stage
            &&& error.kind is AlreadyExists ==> after.instance is Some
        },
        _ => false,
    }
}

/// Whether these may be the moments of a build.
pub open spec fn is_build_run<N, D, C, E, I>(
    files: PackageFiles<N>,
    request: BuildRequest<Seq<char>, D, C>,
    run: Seq<Moment<BuildEvent<E, I>, InstanceDisk<N>>>,
) -> bool {
    is_run(
        run,
        BuildEvent::Begin,
        |
            at: Moment<BuildEvent<E, I>, InstanceDisk<N>>,
            next: Moment<BuildEvent<E, I>, InstanceDisk<N>>,
        |
            build_follows(files, request, at, next),
    )
}

/// Whether these are the moments of a build that returns `result` and leaves the
/// directories as `after`.
pub open spec fn is_build<N, D, C, E, I>(
    files: PackageFiles<N>,
    request: BuildRequest<Seq<char>, D, C>,
    run: Seq<Moment<BuildEvent<E, I>, InstanceDisk<N>>>,
    result: Result<(), BuildError<E, I>>,
    after: InstanceDisk<N>,
) -> bool {
    &&& is_build_run(files, request, run)
    &&& match build_action(request, run.last().event) {
        BuildAction::Finish(returned) => returned == result && after == run.last().state,
        BuildAction::DiscardStage(returned) => {
            &&& returned == result
            &&& after.instance == run.last().state.instance
            &&& after.package == run.last().state.package
        },
        _ => false,
    }
}

/// At every moment of a build the instance is whole, if there is one, as long as
/// that was so before; and when a build succeeds there is one.
pub proof fn built_instances_are_whole<N, D, C, E, I>(
    files: PackageFiles<N>,
    request: BuildRequest<Seq<char>, D, C>,
    run: Seq<Moment<BuildEvent<E, I>, InstanceDisk<N>>>,
    i: int,
)
    requires
        is_build_run(files, request, run),
        request.fingerprint == files.fingerprint,
        files.whole_if_any(run[0].state.instance),
        0 <= i < run.len(),
    ensures
        files.whole_if_any(run[i].state.instance),
        build_action(request, run[i].event) == BuildAction::<Seq<char>, D, C, E, I>::Finish(Ok(()))
            ==> run[i].state.instance == Some(files.whole()),
        build_action(request, run[i].event) == BuildAction::<Seq<char>, D, C, E, I>::DiscardStage(
            Ok(()),
        ) ==> run[i].state.instance == Some(files.whole()),
{
    if run.len() > 1 {
        assert(build_follows(files, request, run[0], run[1]));
    }
    if run.len() > 2 {
        assert(build_follows(files, request, run[1], run[2]));
    }
    if run.len() > 3 {
        assert(build_follows(files, request, run[2], run[3]));
    }
    if run.len() > 4 {
        assert(build_follows(files, request, run[3], run[4]));
    }
    if run.len() > 5 {
        assert(build_follows(files, request, run[4], run[5]));
    }
}

/// Whether one moment of a populate may follow another. The instance is built as
/// `request` says, for the fingerprint that the populate asks for.
pub open spec fn populate_follows<N, D, C, E, F, I>(
    files: PackageFiles<N>,
    request: BuildRequest<Seq<char>, D, C>,
    at: Moment<PopulateEvent<F>, InstanceDisk<N>>,
    next: Moment<PopulateEvent<F>, InstanceDisk<N>>,
) -> bool {
    let before = at.state;
    let after = next.state;
    match (populate_action(at.event), next.event) {
        (PopulateAction::ReadSentinel, PopulateEvent::SentinelRead(sentinel, fingerprint)) => {
            &&& fingerprint@ == files.fingerprint
            &&& sentinel is Some ==> before.instance is Some && before.instance->0.sentinel
                == Some(sentinel->0@)
            &&& files.others(before.instance, after.instance)
            &&& after.stage == before.stage
            &&& after.package == before.package
        },
        (PopulateAction::Build(fingerprint), PopulateEvent::Built(built)) => {
            &&& request.fingerprint == fingerprint
            &&& exists|
                run: Seq<Moment<BuildEvent<E, I>, InstanceDisk<N>>>,
                result: Result<(), BuildError<E, I>>,
            |
                {
                    &&& run[0].state == before
                    &&& built is Ok <==> result is Ok
                    &&& #[trigger] is_build(files, request, run, result, after)
                }
        },
        (PopulateAction::CloneFiles, PopulateEvent::Cloned(cloned)) => {
            &&& files.others(before.instance, after.instance)
            &&& after.stage == before.stage
            &&& cloned is Ok ==> before.instance is Some && after.package
                == before.instance->0.files
        },
        _ => false,
    }
}

/// Whether these may be the moments of a populate, by an import method that can
/// take a tree or not. `E` and `I` are the failures of a build.
pub open spec fn is_populate_run<N, D, C, E, F, I>(
    files: PackageFiles<N>,
    request: BuildRequest<Seq<char>, D, C>,
    supported: bool,
    run: Seq<Moment<PopulateEvent<F>, InstanceDisk<N>>>,
) -> bool {
    is_run(
        run,
        PopulateEvent::Begin(supported),
        |
            at: Moment<PopulateEvent<F>, InstanceDisk<N>>,
            next: Moment<PopulateEvent<F>, InstanceDisk<N>>,
        |
            populate_follows::<N, D, C, E, F, I>(files, request, at, next),
    )
}

proof fn lemma_build_keeps_instances_whole<N, D, C, E, F, I>(
    files: PackageFiles<N>,
    request: BuildRequest<Seq<char>, D, C>,
    at: Moment<PopulateEvent<F>, InstanceDisk<N>>,
    next: Moment<PopulateEvent<F>, InstanceDisk<N>>,
)
    requires
        populate_follows::<N, D, C, E, F, I>(files, request, at, next),
        populate_action(at.event) == PopulateAction::Build(files.fingerprint),
        files.whole_if_any(at.state.instance),
    ensures
        files.whole_if_any(next.state.instance),
        next.event->Built_0 is Ok ==> next.state.instance == Some(files.whole()),
{
    let (run, result) = choose|
        run: Seq<Moment<BuildEvent<E, I>, InstanceDisk<N>>>,
        result: Result<(), BuildError<E, I>>,
    |
        {
            &&& run[0].state == at.state
            &&& next.event->Built_0 is Ok <==> result is Ok
            &&& #[trigger] is_build(files, request, run, result, next.state)
        };
    built_instances_are_whole(files, request, run, run.len() - 1);
}

/// A package that was populated from its instance holds the tree of its own files,
/// and at every moment of a populate the instance is whole, if there is one: as
/// long as that was so before.
pub proof fn populated_packages_hold_their_files<N, D, C, E, F, I>(
    files: PackageFiles<N>,
    request: BuildRequest<Seq<char>, D, C>,
    supported: bool,
    run: Seq<Moment<PopulateEvent<F>, InstanceDisk<N>>>,
    i: int,
)
    requires
        is_populate_run::<N, D, C, E, F, I>(files, request, supported, run),
        files.whole_if_any(run[0].state.instance),
        0 <= i < run.len(),
    ensures
        files.whole_if_any(run[i].state.instance),
        populate_action(run[i].event) is Populated ==> run[i].state.package == Some(files.tree),
{
    if run.len() > 1 {
        assert(populate_follows::<N, D, C, E, F, I>(files, request, run[0], run[1]));
    }
    if run.len() > 2 {
        assert(populate_follows::<N, D, C, E, F, I>(files, request, run[1], run[2]));
        if run[2].event is Built {
            lemma_build_keeps_instances_whole::<N, D, C, E, F, I>(files, request, run[1], run[2]);
        }
    }
    if run.len() > 3 {
        assert(populate_follows::<N, D, C, E, F, I>(files, request, run[2], run[3]));
    }
    if run.len() > 4 {
        assert(populate_follows::<N, D, C, E, F, I>(files, request, run[3], run[4]));
    }
}

} // verus!
