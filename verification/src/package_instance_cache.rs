//! A cache of package instances: for each package, a tree of its files that can
//! be cloned to wherever the package is needed.

use crate::import_method::{PackageImportMethod, WireImportMethod};
use crate::io_error::{ErrorKind, IoError};
use crate::protocol::{outcome, performs};
use crate::text::{hashes_to, joined, lemma_split_at_separator, FieldText};
use vstd::prelude::*;

verus! {

/// The text that identifies an instance: the version of the format, the package
/// and the fingerprint of its files, with a NUL between each two.
pub open spec fn instance_text(package_key: Seq<char>, fingerprint: Seq<char>) -> Seq<char> {
    joined(seq!["v1"@, package_key, fingerprint], '\0')
}

fn instance_key_text(package_key: &str, fingerprint: &str) -> (text: String)
    ensures
        text@ == instance_text(package_key@, fingerprint@),
{
    proof {
        reveal_strlit("\0");
        reveal_strlit("");
    }
    let mut key = FieldText::new("v1", "\0");
    key.push("", package_key);
    key.push("", fingerprint);
    assert(key.fields@ =~= seq!["v1"@, package_key@, fingerprint@]);
    key.text
}

/// The directory of the instance of a package whose files have this fingerprint,
/// as names that lead to it from the root of the store. `create_short_hash` gives
/// the short hash of a text.
pub fn package_instance_dir<F>(
    package_key: &str,
    fingerprint: &str,
    create_short_hash: F,
) -> (names: Vec<String>) where F: Fn(&str) -> String
    requires
        forall|text: &str| #[trigger] call_requires(create_short_hash, (text,)),
    ensures
        names@.len() == 2,
        names@[0]@ == "package-instances"@,
        hashes_to(
            create_short_hash,
            instance_text(package_key@, fingerprint@),
            names@[1]@,
        ),
{
    let key = instance_key_text(package_key, fingerprint);
    let mut names: Vec<String> = Vec::new();
    names.push("package-instances".to_owned());
    names.push(create_short_hash(key.as_str()));
    names
}

/// The entries of an instance.
#[derive(Debug, Clone, Copy, PartialEq, Eq, Structural)]
pub enum InstanceEntry {
    /// The file that says that the instance is complete.
    Sentinel,
    /// The tree of the package's files.
    Files,
}

impl InstanceEntry {
    /// The name of the entry in its directory.
    pub fn name(&self) -> (name: &'static str)
        ensures
            name@ == match self {
                InstanceEntry::Sentinel => ".initialized"@,
                InstanceEntry::Files => "files"@,
            },
    {
        match self {
            InstanceEntry::Sentinel => ".initialized",
            InstanceEntry::Files => "files",
        }
    }
}

/// What happened while a package is populated from its instance.
#[derive(Debug)]
pub enum PopulateEvent<E> {
    /// The package is wanted. Says whether its import method can take a tree.
    Begin(bool),
    /// The sentinel was read, with `None` where it could not be; beside it, the
    /// fingerprint of the package's files.
    SentinelRead(Option<String>, String),
    /// The instance was built, or not.
    Built(Result<(), E>),
    /// The instance was cloned to the directory of the package, or not.
    Cloned(Result<(), E>),
}

/// What to do next to populate a package from its instance. `T` is text.
#[derive(Debug)]
pub enum PopulateAction<T> {
    /// Take the fingerprint of the package's files, and read the
    /// [`InstanceEntry::Sentinel`] entry of the instance.
    ReadSentinel,
    /// Build the instance for this fingerprint, by [`build_package_instance`].
    Build(T),
    /// Clone the [`InstanceEntry::Files`] entry to the directory of the package.
    CloneFiles,
    /// The package is populated: report this method, if the install has not done
    /// so yet, and return `true`.
    Populated(WireImportMethod),
    /// Return `false`: the package has to be imported in another way.
    FallBack,
}

impl View for PopulateAction<String> {
    type V = PopulateAction<Seq<char>>;

    open spec fn view(&self) -> PopulateAction<Seq<char>> {
        match *self {
            PopulateAction::ReadSentinel => PopulateAction::ReadSentinel,
            PopulateAction::Build(fingerprint) => PopulateAction::Build(fingerprint@),
            PopulateAction::CloneFiles => PopulateAction::CloneFiles,
            PopulateAction::Populated(method) => PopulateAction::Populated(method),
            PopulateAction::FallBack => PopulateAction::FallBack,
        }
    }
}

/// Whether a sentinel says that an instance is complete, for files with this
/// fingerprint.
pub open spec fn is_initialized(sentinel: Option<String>, fingerprint: Seq<char>) -> bool {
    sentinel is Some && sentinel->0@ == fingerprint
}

/// The action that follows an event.
pub open spec fn populate_action<E>(event: PopulateEvent<E>) -> PopulateAction<Seq<char>> {
    match event {
        PopulateEvent::Begin(supported) => if supported {
            PopulateAction::ReadSentinel
        } else {
            PopulateAction::FallBack
        },
        PopulateEvent::SentinelRead(sentinel, fingerprint) => if is_initialized(
            sentinel,
            fingerprint@,
        ) {
            PopulateAction::CloneFiles
        } else {
            PopulateAction::Build(fingerprint@)
        },
        PopulateEvent::Built(built) => if built is Ok {
            PopulateAction::CloneFiles
        } else {
            PopulateAction::FallBack
        },
        PopulateEvent::Cloned(cloned) => if cloned is Ok {
            PopulateAction::Populated(WireImportMethod::Clone)
        } else {
            PopulateAction::FallBack
        },
    }
}

/// Decides what to do next to populate a package from its instance.
///
/// An instance whose sentinel holds the fingerprint of the package's files is
/// complete and is cloned as it is; any other is built first. Whatever fails, the
/// package falls back to another way of importing it.
pub fn try_populate_from_package_instance<E>(event: PopulateEvent<E>) -> (action: PopulateAction<
    String,
>)
    ensures
        action@ == populate_action(event),
{
    match event {
        PopulateEvent::Begin(supported) => {
            if supported {
                PopulateAction::ReadSentinel
            } else {
                PopulateAction::FallBack
            }
        },
        PopulateEvent::SentinelRead(sentinel, fingerprint) => {
            let initialized = match &sentinel {
                Some(existing) => *existing == fingerprint,
                None => false,
            };
            if initialized {
                PopulateAction::CloneFiles
            } else {
                PopulateAction::Build(fingerprint)
            }
        },
        PopulateEvent::Built(Ok(())) => PopulateAction::CloneFiles,
        PopulateEvent::Built(Err(_)) => PopulateAction::FallBack,
        PopulateEvent::Cloned(Ok(())) => PopulateAction::Populated(WireImportMethod::Clone),
        PopulateEvent::Cloned(Err(_)) => PopulateAction::FallBack,
    }
}

/// Why an instance could not be built. `E` is a failure of the file system, `I`
/// one of the import.
#[derive(Debug)]
pub enum BuildError<E, I> {
    Io(IoError<E>),
    Import(I),
}

impl<E, I> BuildError<E, I> {
    /// The kind of the failure: a failed import is of no kind in particular.
    pub open spec fn spec_kind(self) -> ErrorKind {
        match self {
            BuildError::Io(error) => error.kind,
            BuildError::Import(_) => ErrorKind::Other,
        }
    }

    /// The kind of the failure.
    pub fn kind(&self) -> (kind: ErrorKind)
        ensures
            kind == self.spec_kind(),
    {
        match self {
            BuildError::Io(error) => error.kind,
            BuildError::Import(_) => ErrorKind::Other,
        }
    }

    /// The failure as one of the file system. A failed import keeps its text only:
    /// `describe` gives that text, and `other` the failure which says it.
    pub fn into_io_error<D, O>(self, describe: D, other: O) -> (error: IoError<E>) where
        D: FnOnce(&I) -> String,
        O: FnOnce(String) -> E,

        requires
            self matches BuildError::Import(import) ==> call_requires(describe, (&import,)),
            self matches BuildError::Import(import) ==> forall|text: String| #[trigger]
                call_ensures(describe, (&import,), text) ==> call_requires(other, (text,)),
        ensures
            error.kind == self.spec_kind(),
            self matches BuildError::Io(io) ==> error == io,
            self matches BuildError::Import(import) ==> exists|text: String| #[trigger]
                call_ensures(describe, (&import,), text) && call_ensures(
                    other,
                    (text,),
                    error.source,
                ),
    {
        let kind = self.kind();
        match self {
            BuildError::Io(error) => error,
            BuildError::Import(import) => {
                let text = describe(&import);
                IoError { kind, source: other(text) }
            },
        }
    }
}

/// What happened while an instance is built.
#[derive(Debug)]
pub enum BuildEvent<E, I> {
    /// The instance is wanted.
    Begin,
    /// The directory that instances go in was created, or not.
    ParentCreated(Result<(), IoError<E>>),
    /// The files were imported to the stage, or not.
    Imported(Result<(), I>),
    /// The sentinel of the stage was written, or not.
    SentinelWritten(Result<(), IoError<E>>),
    /// The stage was renamed to the instance, or not.
    Renamed(Result<(), IoError<E>>),
}

/// What to do next to build an instance. `T` is text; `D` and `C` are those of
/// [`BuildRequest`].
#[derive(Debug)]
pub enum BuildAction<T, D, C, E, I> {
    /// Create the parent of the instance's directory, if it has one.
    CreateParent,
    /// Pick a stage next to the instance's directory, and import these files by
    /// this method to this entry of it, from the tree directory where there is one,
    /// and with every other option left alone.
    ImportFiles {
        method: PackageImportMethod,
        to: InstanceEntry,
        cas_paths: C,
        package_tree_dir: Option<D>,
    },
    /// Write this to the [`InstanceEntry::Sentinel`] entry of the stage.
    WriteSentinel(T),
    /// Rename the stage to the instance's directory.
    Rename,
    /// Return this.
    Finish(Result<(), BuildError<E, I>>),
    /// Remove the stage, whether that works or not, and return this.
    DiscardStage(Result<(), BuildError<E, I>>),
}

impl<D, C, E, I> View for BuildAction<String, D, C, E, I> {
    type V = BuildAction<Seq<char>, D, C, E, I>;

    open spec fn view(&self) -> BuildAction<Seq<char>, D, C, E, I> {
        match *self {
            BuildAction::CreateParent => BuildAction::CreateParent,
            BuildAction::ImportFiles { method, to, cas_paths, package_tree_dir } =>
            BuildAction::ImportFiles { method, to, cas_paths, package_tree_dir },
            BuildAction::WriteSentinel(text) => BuildAction::WriteSentinel(text@),
            BuildAction::Rename => BuildAction::Rename,
            BuildAction::Finish(result) => BuildAction::Finish(result),
            BuildAction::DiscardStage(result) => BuildAction::DiscardStage(result),
        }
    }
}

/// What the build of an instance is asked for. `T` is text. `D` is a directory, and
/// `C` says where in the store each file of a package is; they are only passed on.
#[derive(Debug)]
pub struct BuildRequest<T, D, C> {
    /// The fingerprint of the package's files.
    pub fingerprint: T,
    /// The files of the package.
    pub cas_paths: C,
    pub import_method: PackageImportMethod,
    /// A directory that holds the files of the package as a tree.
    pub package_tree_dir: Option<D>,
}

impl<'a, D, C> View for BuildRequest<&'a str, D, C> {
    type V = BuildRequest<Seq<char>, D, C>;

    open spec fn view(&self) -> BuildRequest<Seq<char>, D, C> {
        BuildRequest {
            fingerprint: self.fingerprint@,
            cas_paths: self.cas_paths,
            import_method: self.import_method,
            package_tree_dir: self.package_tree_dir,
        }
    }
}

/// The action that follows an event, for an instance that is asked for in this way.
///
/// An instance that exists already when the stage is ready is as good as the one
/// that was built.
pub open spec fn build_action<D, C, E, I>(
    request: BuildRequest<Seq<char>, D, C>,
    event: BuildEvent<E, I>,
) -> BuildAction<Seq<char>, D, C, E, I> {
    match event {
        BuildEvent::Begin => BuildAction::CreateParent,
        BuildEvent::ParentCreated(Ok(())) => BuildAction::ImportFiles {
            method: request.import_method,
            to: InstanceEntry::Files,
            cas_paths: request.cas_paths,
            package_tree_dir: request.package_tree_dir,
        },
        BuildEvent::ParentCreated(Err(error)) => BuildAction::Finish(Err(BuildError::Io(error))),
        BuildEvent::Imported(Ok(())) => BuildAction::WriteSentinel(request.fingerprint),
        BuildEvent::Imported(Err(error)) => BuildAction::DiscardStage(
            Err(BuildError::Import(error)),
        ),
        BuildEvent::SentinelWritten(Ok(())) => BuildAction::Rename,
        BuildEvent::SentinelWritten(Err(error)) => BuildAction::Finish(Err(BuildError::Io(error))),
        BuildEvent::Renamed(Ok(())) => BuildAction::Finish(Ok(())),
        BuildEvent::Renamed(Err(error)) => if error.kind is AlreadyExists {
            BuildAction::DiscardStage(Ok(()))
        } else {
            BuildAction::DiscardStage(Err(BuildError::Io(error)))
        },
    }
}

/// Decides what to do next to build the instance of a package.
pub fn build_package_instance<D, C, E, I>(
    request: BuildRequest<&str, D, C>,
    event: BuildEvent<E, I>,
) -> (action: BuildAction<String, D, C, E, I>)
    ensures
        action@ == build_action(request@, event),
{
    match event {
        BuildEvent::Begin => BuildAction::CreateParent,
        BuildEvent::ParentCreated(Ok(())) => BuildAction::ImportFiles {
            method: request.import_method,
            to: InstanceEntry::Files,
            cas_paths: request.cas_paths,
            package_tree_dir: request.package_tree_dir,
        },
        BuildEvent::ParentCreated(Err(error)) => BuildAction::Finish(Err(BuildError::Io(error))),
        BuildEvent::Imported(Ok(())) => BuildAction::WriteSentinel(request.fingerprint.to_owned()),
        BuildEvent::Imported(Err(error)) => {
            BuildAction::DiscardStage(Err(BuildError::Import(error)))
        },
        BuildEvent::SentinelWritten(Ok(())) => BuildAction::Rename,
        BuildEvent::SentinelWritten(Err(error)) => BuildAction::Finish(Err(BuildError::Io(error))),
        BuildEvent::Renamed(Ok(())) => BuildAction::Finish(Ok(())),
        BuildEvent::Renamed(Err(error)) => {
            if matches!(error.kind, ErrorKind::AlreadyExists) {
                BuildAction::DiscardStage(Ok(()))
            } else {
                BuildAction::DiscardStage(Err(BuildError::Io(error)))
            }
        },
    }
}

/// How the outside answers while a package is populated from its instance.
pub struct PopulateAnswers<E> {
    pub supported: bool,
    pub sentinel: Option<String>,
    pub fingerprint: String,
    pub built: Result<(), E>,
    pub cloned: Result<(), E>,
}

impl<E> PopulateAnswers<E> {
    /// The event that an action leads to.
    pub open spec fn answer(self) -> spec_fn(PopulateAction<Seq<char>>) -> Option<
        PopulateEvent<E>,
    > {
        |action: PopulateAction<Seq<char>>|
            match action {
                PopulateAction::ReadSentinel => Some(
                    PopulateEvent::SentinelRead(self.sentinel, self.fingerprint),
                ),
                PopulateAction::Build(_) => Some(PopulateEvent::Built(self.built)),
                PopulateAction::CloneFiles => Some(PopulateEvent::Cloned(self.cloned)),
                PopulateAction::Populated(_) => None,
                PopulateAction::FallBack => None,
            }
    }

    /// Whether the instance is complete before the run.
    pub open spec fn initialized(self) -> bool {
        is_initialized(self.sentinel, self.fingerprint@)
    }

    /// The last action of the run with these answers.
    pub open spec fn last_action(self) -> PopulateAction<Seq<char>> {
        outcome(
            |event: PopulateEvent<E>| populate_action(event),
            self.answer(),
            PopulateEvent::Begin(self.supported),
            3,
        )
    }

    /// Whether the run with these answers performs `wanted`.
    pub open spec fn performs(self, wanted: PopulateAction<Seq<char>>) -> bool {
        performs(
            |event: PopulateEvent<E>| populate_action(event),
            self.answer(),
            PopulateEvent::Begin(self.supported),
            3,
            wanted,
        )
    }
}

/// A package is populated exactly when its import method can take a tree, its
/// instance is complete or could be built, and the clone works; it is reported as
/// cloned. Otherwise it falls back.
pub proof fn populate_succeeds_exactly_if_cloned<E>(answers: PopulateAnswers<E>)
    ensures
        answers.last_action() == if answers.supported && (answers.initialized()
            || answers.built is Ok) && answers.cloned is Ok {
            PopulateAction::<Seq<char>>::Populated(WireImportMethod::Clone)
        } else {
            PopulateAction::<Seq<char>>::FallBack
        },
{
    reveal_with_fuel(outcome, 4);
}

/// A complete instance is never built again, one that is not complete always is
/// before it is cloned, and without support nothing is looked at.
pub proof fn instance_is_built_exactly_if_missing<E>(
    answers: PopulateAnswers<E>,
    fingerprint: Seq<char>,
)
    ensures
        answers.performs(PopulateAction::Build(fingerprint)) <==> answers.supported
            && !answers.initialized() && fingerprint == answers.fingerprint@,
        answers.performs(PopulateAction::CloneFiles) <==> answers.supported && (
        answers.initialized() || answers.built is Ok),
        answers.performs(PopulateAction::ReadSentinel) <==> answers.supported,
{
    reveal_with_fuel(performs, 4);
}

/// How the outside answers while an instance is built.
pub struct BuildAnswers<E, I> {
    pub parent: Result<(), IoError<E>>,
    pub imported: Result<(), I>,
    pub written: Result<(), IoError<E>>,
    pub renamed: Result<(), IoError<E>>,
}

impl<E, I> BuildAnswers<E, I> {
    /// The event that an action leads to.
    pub open spec fn answer<D, C>(self) -> spec_fn(BuildAction<Seq<char>, D, C, E, I>) -> Option<
        BuildEvent<E, I>,
    > {
        |action: BuildAction<Seq<char>, D, C, E, I>|
            match action {
                BuildAction::CreateParent => Some(BuildEvent::ParentCreated(self.parent)),
                BuildAction::ImportFiles { .. } => Some(BuildEvent::Imported(self.imported)),
                BuildAction::WriteSentinel(_) => Some(BuildEvent::SentinelWritten(self.written)),
                BuildAction::Rename => Some(BuildEvent::Renamed(self.renamed)),
                BuildAction::Finish(_) => None,
                BuildAction::DiscardStage(_) => None,
            }
    }

    /// Whether the rename found that the instance exists already.
    pub open spec fn overtaken(self) -> bool {
        self.renamed is Err && self.renamed->Err_0.kind is AlreadyExists
    }

    /// What the build returns: the first failure, except that an instance which
    /// exists already is none.
    pub open spec fn result(self) -> Result<(), BuildError<E, I>> {
        if self.parent is Err {
            Err(BuildError::Io(self.parent->Err_0))
        } else if self.imported is Err {
            Err(BuildError::Import(self.imported->Err_0))
        } else if self.written is Err {
            Err(BuildError::Io(self.written->Err_0))
        } else if self.renamed is Err && !self.overtaken() {
            Err(BuildError::Io(self.renamed->Err_0))
        } else {
            Ok(())
        }
    }

    /// Whether the stage is left over and has to go: the import or the rename
    /// failed.
    pub open spec fn stage_left_over(self) -> bool {
        self.parent is Ok && (self.imported is Err || self.written is Ok && self.renamed is Err)
    }

    /// The last action of the run with these answers.
    pub open spec fn last_action<D, C>(self, request: BuildRequest<Seq<char>, D, C>) -> BuildAction<
        Seq<char>,
        D,
        C,
        E,
        I,
    > {
        outcome(
            |event: BuildEvent<E, I>| build_action(request, event),
            self.answer(),
            BuildEvent::Begin,
            4,
        )
    }

    /// Whether the run with these answers performs `wanted`.
    pub open spec fn performs<D, C>(
        self,
        request: BuildRequest<Seq<char>, D, C>,
        wanted: BuildAction<Seq<char>, D, C, E, I>,
    ) -> bool {
        performs(
            |event: BuildEvent<E, I>| build_action(request, event),
            self.answer(),
            BuildEvent::Begin,
            4,
            wanted,
        )
    }
}

/// A build returns its first failure, where an instance that exists already is
/// none, and removes the stage if the import or the rename left it over.
pub proof fn build_returns_the_first_failure<D, C, E, I>(
    answers: BuildAnswers<E, I>,
    request: BuildRequest<Seq<char>, D, C>,
)
    ensures
        answers.last_action(request) == if answers.stage_left_over() {
            BuildAction::<Seq<char>, D, C, E, I>::DiscardStage(answers.result())
        } else {
            BuildAction::<Seq<char>, D, C, E, I>::Finish(answers.result())
        },
{
    reveal_with_fuel(outcome, 5);
}

/// Files are imported once the directory of instances is there: those of the
/// package, by the method that was asked for, to the entry for files and from the
/// tree directory; there is no other import.
pub proof fn build_imports_as_asked<D, C, E, I>(
    answers: BuildAnswers<E, I>,
    request: BuildRequest<Seq<char>, D, C>,
    method: PackageImportMethod,
    to: InstanceEntry,
    cas_paths: C,
    package_tree_dir: Option<D>,
)
    ensures
        answers.performs(
            request,
            BuildAction::ImportFiles { method, to, cas_paths, package_tree_dir },
        ) <==> {
            &&& answers.parent is Ok
            &&& method == request.import_method
            &&& to is Files
            &&& cas_paths == request.cas_paths
            &&& package_tree_dir == request.package_tree_dir
        },
{
    reveal_with_fuel(performs, 5);
}

/// A failed import is returned with its own failure, as one of the kind
/// [`ErrorKind::Other`]; its stage is discarded, and neither a sentinel is written
/// nor anything renamed.
pub proof fn failed_imports_are_of_the_kind_other<D, C, E, I>(
    answers: BuildAnswers<E, I>,
    request: BuildRequest<Seq<char>, D, C>,
    text: Seq<char>,
)
    requires
        answers.parent is Ok,
        answers.imported is Err,
    ensures
        answers.last_action(request) == BuildAction::<Seq<char>, D, C, E, I>::DiscardStage(
            Err(BuildError::Import(answers.imported->Err_0)),
        ),
        answers.result() is Err,
        answers.result()->Err_0.spec_kind() is Other,
        !answers.performs(request, BuildAction::WriteSentinel(text)),
        !answers.performs(request, BuildAction::Rename),
{
    build_returns_the_first_failure(answers, request);
    only_complete_instances_are_published(answers, request, text);
}

/// A stage becomes the instance only once all files are in it and its sentinel is
/// written, and whatever sentinel is written holds the fingerprint.
pub proof fn only_complete_instances_are_published<D, C, E, I>(
    answers: BuildAnswers<E, I>,
    request: BuildRequest<Seq<char>, D, C>,
    text: Seq<char>,
)
    ensures
        answers.performs(request, BuildAction::Rename) <==> answers.parent is Ok
            && answers.imported is Ok && answers.written is Ok,
        answers.performs(request, BuildAction::WriteSentinel(text)) <==> answers.parent is Ok
            && answers.imported is Ok && text == request.fingerprint,
{
    reveal_with_fuel(performs, 5);
}

/// An instance that was built for a fingerprint is taken as complete exactly by
/// packages whose files have that fingerprint.
pub proof fn populate_takes_what_build_wrote<D, C, E, I>(
    built: BuildAnswers<E, I>,
    request: BuildRequest<Seq<char>, D, C>,
    populated: PopulateAnswers<E>,
)
    requires
        populated.sentinel is Some,
        built.performs(request, BuildAction::WriteSentinel(populated.sentinel->0@)),
    ensures
        populated.initialized() <==> populated.fingerprint@ == request.fingerprint,
{
    only_complete_instances_are_published(built, request, populated.sentinel->0@);
}

/// Populating and building together: if the instance was built as `built` says, a
/// package is populated exactly when its import method can take a tree, its
/// instance was complete or all its files were imported and published, and the
/// clone works.
pub proof fn populate_succeeds_exactly_if_published<E, F, I>(
    populated: PopulateAnswers<F>,
    built: BuildAnswers<E, I>,
)
    requires
        populated.built is Ok <==> built.result() is Ok,
    ensures
        populated.last_action() is Populated <==> {
            &&& populated.supported
            &&& populated.cloned is Ok
            &&& populated.initialized() || {
                &&& built.parent is Ok
                &&& built.imported is Ok
                &&& built.written is Ok
                &&& built.renamed is Ok || built.overtaken()
            }
        },
{
    populate_succeeds_exactly_if_cloned(populated);
}

/// The text of an instance tells instances apart: it is the same for two packages
/// exactly when the packages and the fingerprints of their files are the same, as
/// long as no package key holds a NUL.
pub proof fn instance_text_tells_instances_apart(
    package_key1: Seq<char>,
    fingerprint1: Seq<char>,
    package_key2: Seq<char>,
    fingerprint2: Seq<char>,
)
    requires
        !package_key1.contains('\0'),
        !package_key2.contains('\0'),
    ensures
        instance_text(package_key1, fingerprint1) == instance_text(package_key2, fingerprint2)
            <==> package_key1 == package_key2 && fingerprint1 == fingerprint2,
{
    if instance_text(package_key1, fingerprint1) == instance_text(package_key2, fingerprint2) {
        let rest1 = package_key1 + seq!['\0'] + fingerprint1;
        let rest2 = package_key2 + seq!['\0'] + fingerprint2;
        lemma_instance_text(package_key1, fingerprint1);
        lemma_instance_text(package_key2, fingerprint2);
        reveal_strlit("v1");
        lemma_split_at_separator("v1"@, rest1, "v1"@, rest2, '\0');
        lemma_split_at_separator(package_key1, fingerprint1, package_key2, fingerprint2, '\0');
    }
}

proof fn lemma_instance_text(package_key: Seq<char>, fingerprint: Seq<char>)
    ensures
        instance_text(package_key, fingerprint) == "v1"@ + seq!['\0'] + (package_key + seq!['\0']
            + fingerprint),
{
    let fields = seq!["v1"@, package_key, fingerprint];
    reveal_with_fuel(joined, 3);
    assert(fields.drop_first().drop_first() =~= seq![fingerprint]);
}

/// An instance whose sentinel could not be read, or reads anything but the
/// fingerprint of the package's files, is not complete: with a method that can take
/// a tree it is built for that fingerprint, and cloned only once that worked. One
/// whose sentinel reads the fingerprint is cloned and never built. Without such a
/// method nothing is done.
pub proof fn the_sentinel_decides_what_is_built<E>(
    answers: PopulateAnswers<E>,
    fingerprint: Seq<char>,
)
    ensures
        answers.sentinel is None || answers.sentinel->0@ != answers.fingerprint@ ==> {
            &&& answers.performs(PopulateAction::Build(fingerprint)) <==> answers.supported
                && fingerprint == answers.fingerprint@
            &&& answers.performs(PopulateAction::CloneFiles) <==> answers.supported
                && answers.built is Ok
            &&& answers.last_action() is Populated <==> answers.supported && answers.built is Ok
                && answers.cloned is Ok
        },
        answers.sentinel is Some && answers.sentinel->0@ == answers.fingerprint@ ==> {
            &&& !answers.performs(PopulateAction::Build(fingerprint))
            &&& answers.performs(PopulateAction::CloneFiles) <==> answers.supported
            &&& answers.last_action() is Populated <==> answers.supported && answers.cloned is Ok
        },
        answers.last_action() is Populated || answers.last_action() is FallBack,
        answers.last_action() matches PopulateAction::Populated(method) ==> method is Clone,
{
    reveal_with_fuel(performs, 4);
    reveal_with_fuel(outcome, 4);
}

/// A package is populated from its instance in order: the sentinel is read where the
/// method can take a tree, the instance is built exactly if the sentinel does not
/// read the fingerprint, it is cloned exactly if it was complete or could be built,
/// and the package is populated, as a clone, exactly if that worked. Otherwise it
/// falls back.
pub proof fn packages_are_populated_in_order<E>(
    event: PopulateEvent<E>,
    action: PopulateAction<String>,
)
    requires
        call_ensures(try_populate_from_package_instance::<E>, (event,), action),
    ensures
        action is ReadSentinel <==> event is Begin && event->Begin_0,
        action is Build <==> {
            &&& event is SentinelRead
            &&& event->SentinelRead_0 is None || event->SentinelRead_0->0@
                != event->SentinelRead_1@
        },
        action is Build ==> action->Build_0@ == event->SentinelRead_1@,
        action is CloneFiles <==> {
            ||| {
                &&& event is SentinelRead
                &&& event->SentinelRead_0 is Some
                &&& event->SentinelRead_0->0@ == event->SentinelRead_1@
            }
            ||| event is Built && event->Built_0 is Ok
        },
        action is Populated <==> event is Cloned && event->Cloned_0 is Ok,
        action is Populated ==> action->Populated_0 is Clone,
{
}

/// An instance is built in order, each step after the one before it worked: the
/// directory it goes in, the import of the files that were asked for, a sentinel
/// that reads their fingerprint, the rename. It is there after a rename that worked
/// or found an instance there already. A failure is returned as it came. The stage
/// is discarded exactly after an import or a rename that did not work.
pub proof fn instances_are_built_in_order<D, C, E, I>(
    request: BuildRequest<&str, D, C>,
    event: BuildEvent<E, I>,
    action: BuildAction<String, D, C, E, I>,
)
    requires
        call_ensures(build_package_instance::<D, C, E, I>, (request, event), action),
    ensures
        action is CreateParent <==> event is Begin,
        action is ImportFiles <==> event is ParentCreated && event->ParentCreated_0 is Ok,
        action matches BuildAction::ImportFiles { method, to, cas_paths, package_tree_dir } ==> {
            &&& method == request.import_method
            &&& to is Files
            &&& cas_paths == request.cas_paths
            &&& package_tree_dir == request.package_tree_dir
        },
        action is WriteSentinel <==> event is Imported && event->Imported_0 is Ok,
        action is WriteSentinel ==> action->WriteSentinel_0@ == request.fingerprint@,
        action is Rename <==> event is SentinelWritten && event->SentinelWritten_0 is Ok,
        action is Finish && action->Finish_0 is Ok <==> event is Renamed && event->Renamed_0 is Ok,
        action is DiscardStage && action->DiscardStage_0 is Ok <==> {
            &&& event is Renamed
            &&& event->Renamed_0 is Err
            &&& event->Renamed_0->Err_0.kind is AlreadyExists
        },
        action is Finish && action->Finish_0 is Err ==> {
            ||| event is ParentCreated && event->ParentCreated_0 is Err && action->Finish_0->Err_0
                == BuildError::<E, I>::Io(event->ParentCreated_0->Err_0)
            ||| event is SentinelWritten && event->SentinelWritten_0 is Err
                && action->Finish_0->Err_0 == BuildError::<E, I>::Io(
                event->SentinelWritten_0->Err_0,
            )
        },
        action is DiscardStage && action->DiscardStage_0 is Err ==> {
            ||| event is Imported && event->Imported_0 is Err && action->DiscardStage_0->Err_0
                == BuildError::<E, I>::Import(event->Imported_0->Err_0)
            ||| event is Renamed && event->Renamed_0 is Err && action->DiscardStage_0->Err_0
                == BuildError::<E, I>::Io(event->Renamed_0->Err_0)
        },
{
}

/// A failed import is of the kind `Other`, and a failure of the file system of its
/// own. Made one of the file system, the first says what the import said and the
/// second is what it was.
pub proof fn failures_keep_what_they_say<E, I, D, O>(
    error: BuildError<E, I>,
    describe: D,
    other: O,
    kind: ErrorKind,
    converted: IoError<E>,
) where D: FnOnce(&I) -> String, O: FnOnce(String) -> E
    requires
        call_ensures(BuildError::<E, I>::kind, (&error,), kind),
        call_ensures(
            BuildError::<E, I>::into_io_error::<D, O>,
            (error, describe, other),
            converted,
        ),
    ensures
        converted.kind == kind,
        error matches BuildError::Io(io) ==> kind == io.kind && converted == io,
        error is Import ==> kind is Other,
        error matches BuildError::Import(import) ==> exists|text: String| #[trigger]
            call_ensures(describe, (&import,), text) && call_ensures(
                other,
                (text,),
                converted.source,
            ),
{
}

/// The instance of a package is among the package instances, under the hash of a
/// text that holds the package and the fingerprint of its files.
pub proof fn instances_are_found_by_package_and_fingerprint<F>(
    package_key: &str,
    fingerprint: &str,
    create_short_hash: F,
    names: Vec<String>,
) where F: Fn(&str) -> String
    requires
        call_ensures(
            package_instance_dir::<F>,
            (package_key, fingerprint, create_short_hash),
            names,
        ),
    ensures
        names@.len() == 2,
        names@[0]@ == "package-instances"@,
        exists|text: &str, hash: String|
            {
                &&& text@ == "v1"@ + seq!['\0'] + package_key@ + seq!['\0'] + fingerprint@
                &&& names@[1]@ == hash@
                &&& #[trigger] call_ensures(create_short_hash, (text,), hash)
            },
{
    lemma_instance_text(package_key@, fingerprint@);
    let (text, hash) = choose|text: &str, hash: String|
        {
            &&& text@ == instance_text(package_key@, fingerprint@)
            &&& hash@ == names@[1]@
            &&& #[trigger] call_ensures(create_short_hash, (text,), hash)
        };
    assert(text@ =~= "v1"@ + seq!['\0'] + package_key@ + seq!['\0'] + fingerprint@);
}

/// The two entries of an instance are `.initialized` and `files`.
pub proof fn instance_entries_have_their_names(sentinel: &'static str, files: &'static str)
    requires
        call_ensures(InstanceEntry::name, (&InstanceEntry::Sentinel,), sentinel),
        call_ensures(InstanceEntry::name, (&InstanceEntry::Files,), files),
    ensures
        sentinel@ == ".initialized"@,
        files@ == "files"@,
        sentinel@ != files@,
{
    reveal_strlit(".initialized");
    reveal_strlit("files");
    assert(sentinel@.len() != files@.len());
}

} // verus!
