//! The slot of one package in the virtual store.

use crate::import_method::{
    optimistic_wire_method, tries_clone_first, PackageImportMethod, WireImportMethod,
};
use crate::protocol::{outcome, performs};
use vstd::prelude::*;

verus! {

/// A directory in the slot of a package.
#[derive(Debug, Clone, Copy, PartialEq, Eq, Structural)]
pub enum SlotPath {
    /// Where the package and its dependencies are looked up.
    NodeModules,
    /// Where the files of the package itself are.
    Package,
}

/// Why the slot of a package could not be created. `Io` is a failure of the file
/// system, `Import` one of the import and `Symlink` one of the links.
#[derive(Debug)]
pub enum CreateVirtualDirError<Io, Import, Symlink> {
    CreateNodeModulesDir { dir: SlotPath, error: Io },
    ImportIndexedDir(Import),
    SymlinkPackage(Symlink),
}

impl<Io, Import, Symlink> CreateVirtualDirError<Io, Import, Symlink> {
    /// What the error says, given the debug form of the directory in question and
    /// what the failure below it says. Only the failure to create a directory has
    /// words of its own.
    pub fn message(&self, dir: &str, source: &str) -> (text: String)
        ensures
            text@ == match self {
                CreateVirtualDirError::CreateNodeModulesDir { .. } =>
                "Failed to recursively create node_modules directory at "@ + dir@ + ": "@ + source@,
                CreateVirtualDirError::ImportIndexedDir(_) => source@,
                CreateVirtualDirError::SymlinkPackage(_) => source@,
            },
    {
        match self {
            CreateVirtualDirError::CreateNodeModulesDir { .. } => {
                let mut text =
                    "Failed to recursively create node_modules directory at ".to_owned();
                text.append(dir);
                text.append(": ");
                text.append(source);
                text
            },
            CreateVirtualDirError::ImportIndexedDir(_) => source.to_owned(),
            CreateVirtualDirError::SymlinkPackage(_) => source.to_owned(),
        }
    }

    /// The diagnostic code of the error; `None` where the failure below it gives
    /// the code.
    pub fn code(&self) -> (code: Option<&'static str>)
        ensures
            code is Some <==> self is CreateNodeModulesDir,
            code is Some ==> code->0@ == "pacquet_package_manager::create_node_modules_dir"@,
    {
        match self {
            CreateVirtualDirError::CreateNodeModulesDir { .. } => {
                Some("pacquet_package_manager::create_node_modules_dir")
            },
            CreateVirtualDirError::ImportIndexedDir(_) => None,
            CreateVirtualDirError::SymlinkPackage(_) => None,
        }
    }
}

/// The level of a report.
#[derive(Debug, Clone, Copy, PartialEq, Eq, Structural)]
pub enum LogLevel {
    Debug,
}

/// The report that a package was imported. `T` is text.
#[derive(Debug)]
pub struct ImportedReport<T> {
    pub level: LogLevel,
    /// How the files were imported, as far as can be told: the method that is
    /// tried first.
    pub method: WireImportMethod,
    /// The root of the install.
    pub requester: T,
    /// Where the files are.
    pub to: SlotPath,
}

/// What happened while a slot is created.
#[derive(Debug)]
pub enum VirtualDirEvent<Io, Import, Symlink> {
    /// The package is wanted.
    Begin,
    /// The node_modules directory of the slot was created, or not.
    NodeModulesCreated(Result<(), Io>),
    /// The files of the package were imported, or not.
    Imported(Result<(), Import>),
    /// The dependencies of the package were linked, or not.
    Linked(Result<(), Symlink>),
    /// The report was emitted.
    Reported,
}

/// What to do next to create a slot. `T` is text; the other parameters are those of
/// [`CreateVirtualDirBySnapshot`] and of [`CreateVirtualDirError`].
#[derive(Debug)]
pub enum VirtualDirAction<T, D, C, N, K, Io, Import, Symlink> {
    /// Create this directory and all above it.
    CreateNodeModules { at: SlotPath },
    /// Import these files by this method to this directory, from the tree
    /// directory where there is one, and with every other option left alone.
    ImportPackage {
        method: PackageImportMethod,
        to: SlotPath,
        cas_paths: C,
        package_tree_dir: Option<D>,
    },
    /// Link these dependencies of the package with this name in this directory,
    /// but for those that are skipped.
    LinkDependencies {
        dependencies: Option<N>,
        optional_dependencies: Option<N>,
        package_name: T,
        skipped: K,
        at: SlotPath,
    },
    /// Emit this report.
    Report(ImportedReport<T>),
    /// Return this.
    Finish(Result<(), CreateVirtualDirError<Io, Import, Symlink>>),
}

impl<D, C, N, K, Io, Import, Symlink> View for VirtualDirAction<
    String,
    D,
    C,
    N,
    K,
    Io,
    Import,
    Symlink,
> {
    type V = VirtualDirAction<Seq<char>, D, C, N, K, Io, Import, Symlink>;

    open spec fn view(&self) -> VirtualDirAction<Seq<char>, D, C, N, K, Io, Import, Symlink> {
        match *self {
            VirtualDirAction::CreateNodeModules { at } => VirtualDirAction::CreateNodeModules {
                at,
            },
            VirtualDirAction::ImportPackage { method, to, cas_paths, package_tree_dir } =>
            VirtualDirAction::ImportPackage { method, to, cas_paths, package_tree_dir },
            VirtualDirAction::LinkDependencies {
                dependencies,
                optional_dependencies,
                package_name,
                skipped,
                at,
            } => VirtualDirAction::LinkDependencies {
                dependencies,
                optional_dependencies,
                package_name: package_name@,
                skipped,
                at,
            },
            VirtualDirAction::Report(report) => VirtualDirAction::Report(
                ImportedReport {
                    level: report.level,
                    method: report.method,
                    requester: report.requester@,
                    to: report.to,
                },
            ),
            VirtualDirAction::Finish(result) => VirtualDirAction::Finish(result),
        }
    }
}

/// What the lockfile says of the dependencies of a package. `N` is a set of
/// dependencies.
#[derive(Debug)]
pub struct SnapshotEntry<N> {
    pub dependencies: Option<N>,
    pub optional_dependencies: Option<N>,
}

/// Creates the slot of one package: imports its files, and then links its
/// dependencies next to them. The operations of one slot come one after the
/// other; callers create many slots at once.
///
/// `D` is a directory, `C` says where in the store each file of a package is, `N`
/// is a set of dependencies and `K` a set of snapshots. They are only passed on.
#[derive(Debug)]
pub struct CreateVirtualDirBySnapshot<D, C, N, K> {
    /// The name of the package.
    pub package_name: String,
    /// The files of the package.
    pub cas_paths: C,
    pub import_method: PackageImportMethod,
    /// The root of the install, which reports carry.
    pub requester: String,
    /// A directory that holds the files of the package as a tree.
    pub package_tree_dir: Option<D>,
    pub snapshot: SnapshotEntry<N>,
    /// The snapshots that have no slot on this machine. A link to one of them
    /// would lead nowhere.
    pub skipped: K,
}

/// The method that a report names for a configured one.
pub open spec fn reported_method(method: PackageImportMethod) -> WireImportMethod {
    if tries_clone_first(method) {
        WireImportMethod::Clone
    } else if method is Hardlink {
        WireImportMethod::Hardlink
    } else {
        WireImportMethod::Copy
    }
}

impl<D, C, N, K> CreateVirtualDirBySnapshot<D, C, N, K> {
    /// The report for this package.
    pub open spec fn report(self) -> ImportedReport<Seq<char>> {
        ImportedReport {
            level: LogLevel::Debug,
            method: reported_method(self.import_method),
            requester: self.requester@,
            to: SlotPath::Package,
        }
    }

    /// The action that follows an event. The first failure ends the matter.
    pub open spec fn action<Io, Import, Symlink>(
        self,
        event: VirtualDirEvent<Io, Import, Symlink>,
    ) -> VirtualDirAction<Seq<char>, D, C, N, K, Io, Import, Symlink> {
        match event {
            VirtualDirEvent::Begin => VirtualDirAction::CreateNodeModules {
                at: SlotPath::NodeModules,
            },
            VirtualDirEvent::NodeModulesCreated(Ok(())) => VirtualDirAction::ImportPackage {
                method: self.import_method,
                to: SlotPath::Package,
                cas_paths: self.cas_paths,
                package_tree_dir: self.package_tree_dir,
            },
            VirtualDirEvent::NodeModulesCreated(Err(error)) => VirtualDirAction::Finish(
                Err(
                    CreateVirtualDirError::CreateNodeModulesDir {
                        dir: SlotPath::NodeModules,
                        error,
                    },
                ),
            ),
            VirtualDirEvent::Imported(Ok(())) => VirtualDirAction::LinkDependencies {
                dependencies: self.snapshot.dependencies,
                optional_dependencies: self.snapshot.optional_dependencies,
                package_name: self.package_name@,
                skipped: self.skipped,
                at: SlotPath::NodeModules,
            },
            VirtualDirEvent::Imported(Err(error)) => VirtualDirAction::Finish(
                Err(CreateVirtualDirError::ImportIndexedDir(error)),
            ),
            VirtualDirEvent::Linked(Ok(())) => VirtualDirAction::Report(self.report()),
            VirtualDirEvent::Linked(Err(error)) => VirtualDirAction::Finish(
                Err(CreateVirtualDirError::SymlinkPackage(error)),
            ),
            VirtualDirEvent::Reported => VirtualDirAction::Finish(Ok(())),
        }
    }

    /// A directory of the slot, as names that lead to it from the slot.
    pub fn path(&self, path: SlotPath) -> (names: Vec<String>)
        ensures
            names@.len() == if path is Package {
                2int
            } else {
                1int
            },
            names@[0]@ == "node_modules"@,
            path is Package ==> names@[1]@ == self.package_name@,
    {
        let mut names: Vec<String> = Vec::new();
        names.push("node_modules".to_owned());
        match path {
            SlotPath::NodeModules => {},
            SlotPath::Package => {
                names.push(self.package_name.clone());
            },
        }
        names
    }

    /// Decides what to do next to create the slot.
    pub fn run<Io, Import, Symlink>(
        &self,
        event: VirtualDirEvent<Io, Import, Symlink>,
    ) -> (action: VirtualDirAction<String, D, C, N, K, Io, Import, Symlink>) where
        D: Copy,
        C: Copy,
        N: Copy,
        K: Copy,

        ensures
            action@ == self.action(event),
    {
        match event {
            VirtualDirEvent::Begin => VirtualDirAction::CreateNodeModules {
                at: SlotPath::NodeModules,
            },
            VirtualDirEvent::NodeModulesCreated(Ok(())) => VirtualDirAction::ImportPackage {
                method: self.import_method,
                to: SlotPath::Package,
                cas_paths: self.cas_paths,
                package_tree_dir: self.package_tree_dir,
            },
            VirtualDirEvent::NodeModulesCreated(Err(error)) => VirtualDirAction::Finish(
                Err(
                    CreateVirtualDirError::CreateNodeModulesDir {
                        dir: SlotPath::NodeModules,
                        error,
                    },
                ),
            ),
            VirtualDirEvent::Imported(Ok(())) => VirtualDirAction::LinkDependencies {
                dependencies: self.snapshot.dependencies,
                optional_dependencies: self.snapshot.optional_dependencies,
                package_name: self.package_name.clone(),
                skipped: self.skipped,
                at: SlotPath::NodeModules,
            },
            VirtualDirEvent::Imported(Err(error)) => VirtualDirAction::Finish(
                Err(CreateVirtualDirError::ImportIndexedDir(error)),
            ),
            VirtualDirEvent::Linked(Ok(())) => VirtualDirAction::Report(
                ImportedReport {
                    level: LogLevel::Debug,
                    method: optimistic_wire_method(self.import_method),
                    requester: self.requester.clone(),
                    to: SlotPath::Package,
                },
            ),
            VirtualDirEvent::Linked(Err(error)) => VirtualDirAction::Finish(
                Err(CreateVirtualDirError::SymlinkPackage(error)),
            ),
            VirtualDirEvent::Reported => VirtualDirAction::Finish(Ok(())),
        }
    }
}

/// How the outside answers while a slot is created.
pub struct VirtualDirAnswers<Io, Import, Symlink> {
    pub created: Result<(), Io>,
    pub imported: Result<(), Import>,
    pub linked: Result<(), Symlink>,
}

impl<Io, Import, Symlink> VirtualDirAnswers<Io, Import, Symlink> {
    /// The event that an action leads to.
    pub open spec fn answer<D, C, N, K>(self) -> spec_fn(
        VirtualDirAction<Seq<char>, D, C, N, K, Io, Import, Symlink>,
    ) -> Option<VirtualDirEvent<Io, Import, Symlink>> {
        |action: VirtualDirAction<Seq<char>, D, C, N, K, Io, Import, Symlink>|
            match action {
                VirtualDirAction::CreateNodeModules { .. } => Some(
                    VirtualDirEvent::NodeModulesCreated(self.created),
                ),
                VirtualDirAction::ImportPackage { .. } => Some(
                    VirtualDirEvent::Imported(self.imported),
                ),
                VirtualDirAction::LinkDependencies { .. } => Some(
                    VirtualDirEvent::Linked(self.linked),
                ),
                VirtualDirAction::Report(_) => Some(VirtualDirEvent::Reported),
                VirtualDirAction::Finish(_) => None,
            }
    }

    /// The first failure among the answers, under the name of its operation.
    pub open spec fn result(self) -> Result<(), CreateVirtualDirError<Io, Import, Symlink>> {
        if self.created is Err {
            Err(
                CreateVirtualDirError::CreateNodeModulesDir {
                    dir: SlotPath::NodeModules,
                    error: self.created->Err_0,
                },
            )
        } else if self.imported is Err {
            Err(CreateVirtualDirError::ImportIndexedDir(self.imported->Err_0))
        } else if self.linked is Err {
            Err(CreateVirtualDirError::SymlinkPackage(self.linked->Err_0))
        } else {
            Ok(())
        }
    }

    /// The last action of the run with these answers.
    pub open spec fn last_action<D, C, N, K>(
        self,
        slot: CreateVirtualDirBySnapshot<D, C, N, K>,
    ) -> VirtualDirAction<Seq<char>, D, C, N, K, Io, Import, Symlink> {
        outcome(
            |event: VirtualDirEvent<Io, Import, Symlink>| slot.action(event),
            self.answer(),
            VirtualDirEvent::Begin,
            4,
        )
    }

    /// Whether the run with these answers performs `wanted`.
    pub open spec fn performs<D, C, N, K>(
        self,
        slot: CreateVirtualDirBySnapshot<D, C, N, K>,
        wanted: VirtualDirAction<Seq<char>, D, C, N, K, Io, Import, Symlink>,
    ) -> bool {
        performs(
            |event: VirtualDirEvent<Io, Import, Symlink>| slot.action(event),
            self.answer(),
            VirtualDirEvent::Begin,
            4,
            wanted,
        )
    }
}

/// Creating a slot returns the first failure, under the name of the operation
/// that failed, and succeeds exactly when none fails.
pub proof fn slot_returns_the_first_failure<D, C, N, K, Io, Import, Symlink>(
    slot: CreateVirtualDirBySnapshot<D, C, N, K>,
    answers: VirtualDirAnswers<Io, Import, Symlink>,
)
    ensures
        answers.last_action(slot) == VirtualDirAction::<
            Seq<char>,
            D,
            C,
            N,
            K,
            Io,
            Import,
            Symlink,
        >::Finish(answers.result()),
{
    reveal_with_fuel(outcome, 5);
}

/// A package is reported as imported exactly when its slot is complete: its files
/// are there and its dependencies are linked.
pub proof fn only_complete_slots_are_reported<D, C, N, K, Io, Import, Symlink>(
    slot: CreateVirtualDirBySnapshot<D, C, N, K>,
    answers: VirtualDirAnswers<Io, Import, Symlink>,
    report: ImportedReport<Seq<char>>,
)
    ensures
        answers.performs(slot, VirtualDirAction::Report(report)) <==> answers.result() is Ok
            && report == slot.report(),
{
    reveal_with_fuel(performs, 5);
}

/// Files are imported once their directory is there, and links made once the files
/// are. The import is of the files of the package, by the configured method, to the
/// directory of the package and from its tree directory; the links are those of its
/// dependencies and optional dependencies under its own name, with exactly the
/// skipped snapshots left out, and go in the node_modules directory, which is the
/// one that is created; and there is no other import, link or directory.
pub proof fn slot_operations_are_as_configured<D, C, N, K, Io, Import, Symlink>(
    slot: CreateVirtualDirBySnapshot<D, C, N, K>,
    answers: VirtualDirAnswers<Io, Import, Symlink>,
    path: SlotPath,
    method: PackageImportMethod,
    cas_paths: C,
    package_tree_dir: Option<D>,
    dependencies: Option<N>,
    optional_dependencies: Option<N>,
    package_name: Seq<char>,
    skipped: K,
)
    ensures
        answers.performs(slot, VirtualDirAction::CreateNodeModules { at: path }) <==> path
            is NodeModules,
        answers.performs(
            slot,
            VirtualDirAction::ImportPackage { method, to: path, cas_paths, package_tree_dir },
        ) <==> {
            &&& answers.created is Ok
            &&& method == slot.import_method
            &&& path is Package
            &&& cas_paths == slot.cas_paths
            &&& package_tree_dir == slot.package_tree_dir
        },
        answers.performs(
            slot,
            VirtualDirAction::LinkDependencies {
                dependencies,
                optional_dependencies,
                package_name,
                skipped,
                at: path,
            },
        ) <==> {
            &&& answers.created is Ok
            &&& answers.imported is Ok
            &&& dependencies == slot.snapshot.dependencies
            &&& optional_dependencies == slot.snapshot.optional_dependencies
            &&& package_name == slot.package_name@
            &&& skipped == slot.skipped
            &&& path is NodeModules
        },
{
    reveal_with_fuel(performs, 5);
}

/// The report of a slot is made exactly once the slot is complete, at the debug
/// level, for the root of the install and with the directory of the package. It
/// names the method that is tried first: a clone exactly for `Auto`, `Clone` and
/// `CloneOrCopy`, a hard link exactly for `Hardlink` and a copy exactly for `Copy`.
pub proof fn reports_say_how_a_slot_was_filled<D, C, N, K, Io, Import, Symlink>(
    slot: CreateVirtualDirBySnapshot<D, C, N, K>,
    answers: VirtualDirAnswers<Io, Import, Symlink>,
    report: ImportedReport<Seq<char>>,
)
    ensures
        answers.performs(slot, VirtualDirAction::Report(report)) <==> {
            &&& answers.created is Ok
            &&& answers.imported is Ok
            &&& answers.linked is Ok
            &&& report.level is Debug
            &&& report.requester == slot.requester@
            &&& report.to is Package
            &&& report.method is Clone <==> {
                ||| slot.import_method is Auto
                ||| slot.import_method is Clone
                ||| slot.import_method is CloneOrCopy
            }
            &&& report.method is Hardlink <==> slot.import_method is Hardlink
            &&& report.method is Copy <==> slot.import_method is Copy
        },
{
    reveal_with_fuel(performs, 5);
}

/// The operations of a slot come one after the other, each after the one before it
/// worked: the directory, the import, the links, the report. They are given the
/// slot's own values. A failure ends the matter and is returned under the name of
/// its operation, and only a report that was made ends it well.
pub proof fn slots_are_filled_in_order<D, C, N, K, Io, Import, Symlink>(
    slot: CreateVirtualDirBySnapshot<D, C, N, K>,
    event: VirtualDirEvent<Io, Import, Symlink>,
    action: VirtualDirAction<String, D, C, N, K, Io, Import, Symlink>,
) where D: Copy, C: Copy, N: Copy, K: Copy
    requires
        call_ensures(
            CreateVirtualDirBySnapshot::<D, C, N, K>::run::<Io, Import, Symlink>,
            (&slot, event),
            action,
        ),
    ensures
        action is CreateNodeModules <==> event is Begin,
        action matches VirtualDirAction::CreateNodeModules { at } ==> at is NodeModules,
        action is ImportPackage <==> event is NodeModulesCreated && event->NodeModulesCreated_0
            is Ok,
        action matches VirtualDirAction::ImportPackage {
            method,
            to,
            cas_paths,
            package_tree_dir,
        } ==> {
            &&& method == slot.import_method
            &&& to is Package
            &&& cas_paths == slot.cas_paths
            &&& package_tree_dir == slot.package_tree_dir
        },
        action is LinkDependencies <==> event is Imported && event->Imported_0 is Ok,
        action matches VirtualDirAction::LinkDependencies {
            dependencies,
            optional_dependencies,
            package_name,
            skipped,
            at,
        } ==> {
            &&& dependencies == slot.snapshot.dependencies
            &&& optional_dependencies == slot.snapshot.optional_dependencies
            &&& package_name@ == slot.package_name@
            &&& skipped == slot.skipped
            &&& at is NodeModules
        },
        action is Report <==> event is Linked && event->Linked_0 is Ok,
        action matches VirtualDirAction::Report(report) ==> {
            &&& report.level is Debug
            &&& report.requester@ == slot.requester@
            &&& report.to is Package
            &&& report.method is Clone <==> !(slot.import_method is Hardlink)
                && !(slot.import_method is Copy)
            &&& report.method is Hardlink <==> slot.import_method is Hardlink
            &&& report.method is Copy <==> slot.import_method is Copy
        },
        action is Finish && action->Finish_0 is Ok <==> event is Reported,
        action is Finish && action->Finish_0 is Err ==> match action->Finish_0->Err_0 {
            CreateVirtualDirError::CreateNodeModulesDir { dir, error } => {
                &&& dir is NodeModules
                &&& event is NodeModulesCreated
                &&& event->NodeModulesCreated_0 is Err
                &&& event->NodeModulesCreated_0->Err_0 == error
            },
            CreateVirtualDirError::ImportIndexedDir(error) => {
                &&& event is Imported
                &&& event->Imported_0 is Err
                &&& event->Imported_0->Err_0 == error
            },
            CreateVirtualDirError::SymlinkPackage(error) => {
                &&& event is Linked
                &&& event->Linked_0 is Err
                &&& event->Linked_0->Err_0 == error
            },
        },
{
}

/// The package of a slot is in its node_modules directory, under the name of the
/// package.
pub proof fn packages_are_in_node_modules<D, C, N, K>(
    slot: CreateVirtualDirBySnapshot<D, C, N, K>,
    node_modules: Vec<String>,
    package: Vec<String>,
)
    requires
        call_ensures(
            CreateVirtualDirBySnapshot::<D, C, N, K>::path,
            (&slot, SlotPath::NodeModules),
            node_modules,
        ),
        call_ensures(
            CreateVirtualDirBySnapshot::<D, C, N, K>::path,
            (&slot, SlotPath::Package),
            package,
        ),
    ensures
        node_modules@.len() == 1,
        node_modules@[0]@ == "node_modules"@,
        package@.len() == 2,
        package@[0]@ == node_modules@[0]@,
        package@[1]@ == slot.package_name@,
{
}

/// A directory that could not be created is told with its path and the failure
/// below it, under a code of its own; any other failure speaks for itself.
pub proof fn slot_errors_say_what_failed<Io, Import, Symlink>(
    error: CreateVirtualDirError<Io, Import, Symlink>,
    dir: &str,
    source: &str,
    text: String,
    code: Option<&'static str>,
)
    requires
        call_ensures(
            CreateVirtualDirError::<Io, Import, Symlink>::message,
            (&error, dir, source),
            text,
        ),
        call_ensures(CreateVirtualDirError::<Io, Import, Symlink>::code, (&error,), code),
    ensures
        error is CreateNodeModulesDir ==> text@
            == "Failed to recursively create node_modules directory at "@ + dir@ + ": "@ + source@,
        !(error is CreateNodeModulesDir) ==> text@ == source@,
        error is CreateNodeModulesDir <==> code is Some,
        code is Some ==> code->0@ == "pacquet_package_manager::create_node_modules_dir"@,
{
}

} // verus!
