//! A cache of whole project layouts: the modules directory of a project, kept
//! next to a text that says which layout it is.

use crate::host::Host;
use crate::io_error::{is_gone, remove_dir_if_exists, IoError};
use crate::layout_key::{
    free_of_nul, layout_key_text, layout_text, layout_text_tells_layouts_apart, same_settings,
    LayoutSettings,
};
use crate::protocol::{outcome, performs};
use crate::replace_dir::{replacement_ends_as_the_renames_say, ReplaceAnswers};
use crate::text::hashes_to;
use vstd::prelude::*;

verus! {

/// What the metadata file of a cached layout with this key holds.
pub open spec fn metadata_text(key: Seq<char>) -> Seq<char> {
    "{\"schema\":1,\"key\":\""@ + key + "\"}"@
}

/// The entries of a cached layout.
#[derive(Debug, Clone, Copy, PartialEq, Eq, Structural)]
pub enum LayoutEntry {
    /// The file that says which layout is cached.
    Metadata,
    /// The copy of the modules directory.
    Layout,
}

impl LayoutEntry {
    /// The name of the entry in its directory.
    pub fn name(&self) -> (name: &'static str)
        ensures
            name@ == match self {
                LayoutEntry::Metadata => "metadata.json"@,
                LayoutEntry::Layout => "layout"@,
            },
    {
        match self {
            LayoutEntry::Metadata => "metadata.json",
            LayoutEntry::Layout => "layout",
        }
    }
}

/// What happened while a cached layout is restored.
#[derive(Debug)]
pub enum RestoreEvent<E> {
    /// The layout is wanted.
    Begin,
    /// The metadata file was read, with `None` where it could not be; beside it,
    /// whether the layout entry is a directory.
    CacheRead(Option<String>, bool),
    /// The modules directory was removed, or not.
    ModulesRemoved(Result<(), IoError<E>>),
    /// The layout was cloned to the modules directory, or not.
    LayoutCloned(Result<(), IoError<E>>),
}

/// What to do next to restore a cached layout.
#[derive(Debug, Clone, Copy, PartialEq, Eq, Structural)]
pub enum RestoreAction {
    /// Read the [`LayoutEntry::Metadata`] entry, and see whether the
    /// [`LayoutEntry::Layout`] entry is a directory.
    ReadCache,
    /// Remove the modules directory and all that is in it.
    RemoveModules,
    /// Clone the [`LayoutEntry::Layout`] entry to the modules directory.
    CloneLayout,
    /// Return whether the layout was restored.
    Finish(bool),
}

/// Whether the metadata file of a cached layout says that its key is `key`.
pub open spec fn is_metadata_of(metadata: Option<String>, key: Seq<char>) -> bool {
    metadata is Some && metadata->0@ == metadata_text(key)
}

/// Whether a cached layout can be taken for the key `key`: its metadata says so, and
/// its layout entry is a directory.
pub open spec fn is_usable(metadata: Option<String>, layout_is_dir: bool, key: Seq<char>) -> bool {
    is_metadata_of(metadata, key) && layout_is_dir
}

/// The action that follows an event, for a layout with this key.
pub open spec fn restore_action<E>(key: Seq<char>, event: RestoreEvent<E>) -> RestoreAction {
    match event {
        RestoreEvent::Begin => RestoreAction::ReadCache,
        RestoreEvent::CacheRead(metadata, layout_is_dir) => if is_usable(
            metadata,
            layout_is_dir,
            key,
        ) {
            RestoreAction::RemoveModules
        } else {
            RestoreAction::Finish(false)
        },
        RestoreEvent::ModulesRemoved(removal) => if is_gone(removal) {
            RestoreAction::CloneLayout
        } else {
            RestoreAction::Finish(false)
        },
        RestoreEvent::LayoutCloned(cloned) => RestoreAction::Finish(cloned is Ok),
    }
}

/// What happened while a layout is stored.
#[derive(Debug)]
pub enum StoreEvent<E> {
    /// The install is done.
    Begin,
    /// Whether there is a modules directory.
    ModulesChecked(bool),
    /// The directory that the cached layout goes in was created, or not.
    ParentCreated(Result<(), IoError<E>>),
    /// The modules directory was cloned to the stage, or not.
    ModulesCloned(Result<(), IoError<E>>),
    /// The metadata file of the stage was written, or not.
    MetadataWritten(Result<(), IoError<E>>),
    /// The stage took the place of the cached layout, or not.
    Replaced(Result<(), IoError<E>>),
}

/// What to do next to store a layout. `T` is text, `R` what is returned at the
/// end.
#[derive(Debug)]
pub enum StoreAction<T, R> {
    /// See whether the modules directory is a directory.
    CheckModules,
    /// Create the parent of the directory of the cached layout, if it has one.
    CreateParent,
    /// Pick a stage next to the directory of the cached layout, and clone the
    /// modules directory to its [`LayoutEntry::Layout`] entry.
    CloneModules,
    /// Write this to the [`LayoutEntry::Metadata`] entry of the stage.
    WriteMetadata(T),
    /// Put the stage in the place of the cached layout, by
    /// [`crate::replace_dir::replace_dir`].
    ReplaceLayout,
    /// Return this.
    Finish(R),
}

impl<R> View for StoreAction<String, R> {
    type V = StoreAction<Seq<char>, R>;

    open spec fn view(&self) -> StoreAction<Seq<char>, R> {
        match *self {
            StoreAction::CheckModules => StoreAction::CheckModules,
            StoreAction::CreateParent => StoreAction::CreateParent,
            StoreAction::CloneModules => StoreAction::CloneModules,
            StoreAction::WriteMetadata(text) => StoreAction::WriteMetadata(text@),
            StoreAction::ReplaceLayout => StoreAction::ReplaceLayout,
            StoreAction::Finish(result) => StoreAction::Finish(result),
        }
    }
}

/// The action that follows an event, for a layout with this key. The first
/// failure ends the matter; without a modules directory there is nothing to do.
pub open spec fn store_action<E>(key: Seq<char>, event: StoreEvent<E>) -> StoreAction<
    Seq<char>,
    Result<(), IoError<E>>,
> {
    match event {
        StoreEvent::Begin => StoreAction::CheckModules,
        StoreEvent::ModulesChecked(is_dir) => if is_dir {
            StoreAction::CreateParent
        } else {
            StoreAction::Finish(Ok(()))
        },
        StoreEvent::ParentCreated(Ok(())) => StoreAction::CloneModules,
        StoreEvent::ModulesCloned(Ok(())) => StoreAction::WriteMetadata(metadata_text(key)),
        StoreEvent::MetadataWritten(Ok(())) => StoreAction::ReplaceLayout,
        StoreEvent::ParentCreated(Err(error)) => StoreAction::Finish(Err(error)),
        StoreEvent::ModulesCloned(Err(error)) => StoreAction::Finish(Err(error)),
        StoreEvent::MetadataWritten(Err(error)) => StoreAction::Finish(Err(error)),
        StoreEvent::Replaced(replaced) => StoreAction::Finish(replaced),
    }
}

/// The failure that a result holds.
pub open spec fn failure_of<E>(result: Result<(), E>) -> Option<E> {
    match result {
        Ok(()) => None,
        Err(error) => Some(error),
    }
}

/// The action that follows an event when storing must not fail the install: it is
/// [`store_action`], but at the end a failure is handed out to be logged.
pub open spec fn quiet_store_action<E>(key: Seq<char>, event: StoreEvent<E>) -> StoreAction<
    Seq<char>,
    Option<IoError<E>>,
> {
    match store_action(key, event) {
        StoreAction::CheckModules => StoreAction::CheckModules,
        StoreAction::CreateParent => StoreAction::CreateParent,
        StoreAction::CloneModules => StoreAction::CloneModules,
        StoreAction::WriteMetadata(text) => StoreAction::WriteMetadata(text),
        StoreAction::ReplaceLayout => StoreAction::ReplaceLayout,
        StoreAction::Finish(result) => StoreAction::Finish(failure_of(result)),
    }
}

/// A place in the cache for the layout of one project.
#[derive(Debug)]
pub struct ProjectLayoutCache {
    namespace: String,
    key: String,
}

impl ProjectLayoutCache {
    /// The hash of the project's namespace.
    pub closed spec fn spec_namespace(self) -> Seq<char> {
        self.namespace@
    }

    /// The hash of the text that identifies the layout.
    pub closed spec fn spec_key(self) -> Seq<char> {
        self.key@
    }

    /// The cache for a project whose lockfile reads `lockfile`.
    ///
    /// There is one on macOS only, where a directory tree can be cloned at once,
    /// and only with a lockfile that could be read. `create_short_hash` gives
    /// the short hash of a text.
    pub fn new<F>(
        host: &Host,
        namespace: &str,
        lockfile: Option<String>,
        settings: &LayoutSettings,
        create_short_hash: F,
    ) -> (cache: Option<ProjectLayoutCache>) where F: Fn(&str) -> String
        requires
            forall|text: &str| #[trigger] call_requires(create_short_hash, (text,)),
        ensures
            cache is Some <==> host.macos && lockfile is Some,
            cache is Some ==> hashes_to(
                create_short_hash,
                namespace@,
                cache->0.spec_namespace(),
            ),
            cache is Some ==> hashes_to(
                create_short_hash,
                layout_text(lockfile->0@, *settings),
                cache->0.spec_key(),
            ),
    {
        if !host.macos {
            return None;
        }
        match lockfile {
            Some(lockfile) => {
                let text = layout_key_text(lockfile.as_str(), settings);
                let namespace = create_short_hash(namespace);
                let key = create_short_hash(text.as_str());
                Some(ProjectLayoutCache { namespace, key })
            },
            None => None,
        }
    }

    /// The directory of the cached layout, as names that lead to it from the
    /// cache directory.
    pub fn dir(&self) -> (names: Vec<String>)
        ensures
            names@.len() == 2,
            names@[0]@ == "project-layouts"@,
            names@[1]@ == self.spec_namespace(),
    {
        let mut names: Vec<String> = Vec::new();
        names.push("project-layouts".to_owned());
        names.push(self.namespace.clone());
        names
    }

    /// What the metadata file of this layout holds.
    pub fn metadata_json(&self) -> (text: String)
        ensures
            text@ == metadata_text(self.spec_key()),
    {
        let mut text = "{\"schema\":1,\"key\":\"".to_owned();
        text.append(self.key.as_str());
        text.append("\"}");
        text
    }

    /// Whether the cached layout is this one: its metadata file, `None` if it could
    /// not be read, holds what it should, and its layout entry is a directory.
    pub fn metadata_matches(&self, metadata: &Option<String>, layout_is_dir: bool) -> (matching:
        bool)
        ensures
            matching <==> is_metadata_of(*metadata, self.spec_key()) && layout_is_dir,
    {
        match metadata {
            Some(existing) => *existing == self.metadata_json() && layout_is_dir,
            None => false,
        }
    }

    /// Decides what to do next to restore the cached layout.
    pub fn restore<E>(&self, event: RestoreEvent<E>) -> (action: RestoreAction)
        ensures
            action == restore_action(self.spec_key(), event),
    {
        match event {
            RestoreEvent::Begin => RestoreAction::ReadCache,
            RestoreEvent::CacheRead(metadata, layout_is_dir) => {
                if self.metadata_matches(&metadata, layout_is_dir) {
                    RestoreAction::RemoveModules
                } else {
                    RestoreAction::Finish(false)
                }
            },
            RestoreEvent::ModulesRemoved(removal) => match remove_dir_if_exists(removal) {
                Ok(()) => RestoreAction::CloneLayout,
                Err(_) => RestoreAction::Finish(false),
            },
            RestoreEvent::LayoutCloned(Ok(())) => RestoreAction::Finish(true),
            RestoreEvent::LayoutCloned(Err(_)) => RestoreAction::Finish(false),
        }
    }

    /// Decides what to do next to store the modules directory as the cached
    /// layout. Its failure is no failure of the install: at the end it is handed
    /// out to be logged.
    pub fn store<E>(&self, event: StoreEvent<E>) -> (action: StoreAction<
        String,
        Option<IoError<E>>,
    >)
        ensures
            action@ == quiet_store_action(self.spec_key(), event),
    {
        match self.store_inner(event) {
            StoreAction::CheckModules => StoreAction::CheckModules,
            StoreAction::CreateParent => StoreAction::CreateParent,
            StoreAction::CloneModules => StoreAction::CloneModules,
            StoreAction::WriteMetadata(text) => StoreAction::WriteMetadata(text),
            StoreAction::ReplaceLayout => StoreAction::ReplaceLayout,
            StoreAction::Finish(Ok(())) => StoreAction::Finish(None),
            StoreAction::Finish(Err(error)) => StoreAction::Finish(Some(error)),
        }
    }

    /// Decides what to do next to store the modules directory as the cached
    /// layout.
    pub fn store_inner<E>(&self, event: StoreEvent<E>) -> (action: StoreAction<
        String,
        Result<(), IoError<E>>,
    >)
        ensures
            action@ == store_action(self.spec_key(), event),
    {
        match event {
            StoreEvent::Begin => StoreAction::CheckModules,
            StoreEvent::ModulesChecked(is_dir) => {
                if is_dir {
                    StoreAction::CreateParent
                } else {
                    StoreAction::Finish(Ok(()))
                }
            },
            StoreEvent::ParentCreated(Ok(())) => StoreAction::CloneModules,
            StoreEvent::ModulesCloned(Ok(())) => StoreAction::WriteMetadata(self.metadata_json()),
            StoreEvent::MetadataWritten(Ok(())) => StoreAction::ReplaceLayout,
            StoreEvent::ParentCreated(Err(error)) => StoreAction::Finish(Err(error)),
            StoreEvent::ModulesCloned(Err(error)) => StoreAction::Finish(Err(error)),
            StoreEvent::MetadataWritten(Err(error)) => StoreAction::Finish(Err(error)),
            StoreEvent::Replaced(replaced) => StoreAction::Finish(replaced),
        }
    }
}

/// How the file system answers while a cached layout is restored.
pub struct RestoreAnswers<E> {
    pub metadata: Option<String>,
    pub layout_is_dir: bool,
    pub removal: Result<(), IoError<E>>,
    pub cloned: Result<(), IoError<E>>,
}

impl<E> RestoreAnswers<E> {
    /// The event that an action leads to.
    pub open spec fn answer(self) -> spec_fn(RestoreAction) -> Option<RestoreEvent<E>> {
        |action: RestoreAction|
            match action {
                RestoreAction::ReadCache => Some(
                    RestoreEvent::CacheRead(self.metadata, self.layout_is_dir),
                ),
                RestoreAction::RemoveModules => Some(RestoreEvent::ModulesRemoved(self.removal)),
                RestoreAction::CloneLayout => Some(RestoreEvent::LayoutCloned(self.cloned)),
                RestoreAction::Finish(_) => None,
            }
    }

    /// The last action of the run with these answers, for a layout with this key.
    pub open spec fn last_action(self, key: Seq<char>) -> RestoreAction {
        outcome(
            |event: RestoreEvent<E>| restore_action(key, event),
            self.answer(),
            RestoreEvent::Begin,
            3,
        )
    }

    /// Whether the run with these answers performs `wanted`.
    pub open spec fn performs(self, key: Seq<char>, wanted: RestoreAction) -> bool {
        performs(
            |event: RestoreEvent<E>| restore_action(key, event),
            self.answer(),
            RestoreEvent::Begin,
            3,
            wanted,
        )
    }

    /// Whether the cached layout can be taken for this key.
    pub open spec fn usable(self, key: Seq<char>) -> bool {
        is_usable(self.metadata, self.layout_is_dir, key)
    }
}

/// A layout is restored exactly when the cached one is usable, the modules
/// directory is out of the way, and the clone works.
pub proof fn restore_succeeds_exactly_if_usable<E>(answers: RestoreAnswers<E>, key: Seq<char>)
    ensures
        answers.last_action(key) == RestoreAction::Finish(
            answers.usable(key) && is_gone(answers.removal) && answers.cloned is Ok,
        ),
{
    reveal_with_fuel(outcome, 4);
}

/// The modules directory is not touched unless the cached layout is usable.
pub proof fn modules_are_removed_only_if_usable<E>(answers: RestoreAnswers<E>, key: Seq<char>)
    ensures
        answers.performs(key, RestoreAction::RemoveModules) <==> answers.usable(key),
        answers.performs(key, RestoreAction::CloneLayout) <==> answers.usable(key) && is_gone(
            answers.removal,
        ),
{
    reveal_with_fuel(performs, 4);
}

/// How the file system answers while a layout is stored.
pub struct StoreAnswers<E> {
    pub modules_is_dir: bool,
    pub parent: Result<(), IoError<E>>,
    pub cloned: Result<(), IoError<E>>,
    pub written: Result<(), IoError<E>>,
    pub replaced: Result<(), IoError<E>>,
}

impl<E> StoreAnswers<E> {
    /// The event that an action leads to.
    pub open spec fn answer<R>(self) -> spec_fn(StoreAction<Seq<char>, R>) -> Option<
        StoreEvent<E>,
    > {
        |action: StoreAction<Seq<char>, R>|
            match action {
                StoreAction::CheckModules => Some(StoreEvent::ModulesChecked(self.modules_is_dir)),
                StoreAction::CreateParent => Some(StoreEvent::ParentCreated(self.parent)),
                StoreAction::CloneModules => Some(StoreEvent::ModulesCloned(self.cloned)),
                StoreAction::WriteMetadata(_) => Some(StoreEvent::MetadataWritten(self.written)),
                StoreAction::ReplaceLayout => Some(StoreEvent::Replaced(self.replaced)),
                StoreAction::Finish(_) => None,
            }
    }

    /// The first failure among the answers.
    pub open spec fn result(self) -> Result<(), IoError<E>> {
        if !self.modules_is_dir {
            Ok(())
        } else if self.parent is Err {
            self.parent
        } else if self.cloned is Err {
            self.cloned
        } else if self.written is Err {
            self.written
        } else {
            self.replaced
        }
    }

    /// The last action of the run with these answers, for a layout with this key.
    pub open spec fn last_action(self, key: Seq<char>) -> StoreAction<
        Seq<char>,
        Result<(), IoError<E>>,
    > {
        outcome(
            |event: StoreEvent<E>| store_action(key, event),
            self.answer(),
            StoreEvent::Begin,
            5,
        )
    }

    /// Whether the run with these answers performs `wanted`.
    pub open spec fn performs(
        self,
        key: Seq<char>,
        wanted: StoreAction<Seq<char>, Result<(), IoError<E>>>,
    ) -> bool {
        performs(
            |event: StoreEvent<E>| store_action(key, event),
            self.answer(),
            StoreEvent::Begin,
            5,
            wanted,
        )
    }
}

/// Storing returns the first failure, and nothing was wrong if there is no
/// modules directory. A quiet store ends in the same way, with the failure handed
/// out.
pub proof fn store_returns_the_first_failure<E>(answers: StoreAnswers<E>, key: Seq<char>)
    ensures
        answers.last_action(key) == StoreAction::<Seq<char>, Result<(), IoError<E>>>::Finish(
            answers.result(),
        ),
        outcome(
            |event: StoreEvent<E>| quiet_store_action(key, event),
            answers.answer(),
            StoreEvent::Begin,
            5,
        ) == StoreAction::<Seq<char>, Option<IoError<E>>>::Finish(failure_of(answers.result())),
{
    reveal_with_fuel(outcome, 6);
}

/// A stage takes the place of the cached layout only once it holds the whole
/// modules directory and its metadata, and whatever metadata is written is that
/// of the key.
pub proof fn only_complete_stages_are_published<E>(
    answers: StoreAnswers<E>,
    key: Seq<char>,
    text: Seq<char>,
)
    ensures
        answers.performs(key, StoreAction::ReplaceLayout) <==> answers.modules_is_dir
            && answers.parent is Ok && answers.cloned is Ok && answers.written is Ok,
        answers.performs(key, StoreAction::WriteMetadata(text)) <==> answers.modules_is_dir
            && answers.parent is Ok && answers.cloned is Ok && text == metadata_text(key),
{
    reveal_with_fuel(performs, 6);
}

/// Storing and replacing together: if the stage was put in place as `replacing`
/// says, storing a modules directory succeeds exactly when the stage was
/// completed and it, or somebody else's, is in place.
pub proof fn store_succeeds_exactly_if_published<E>(
    stored: StoreAnswers<E>,
    replacing: ReplaceAnswers<E>,
    key: Seq<char>,
)
    requires
        stored.modules_is_dir,
        stored.replaced == replacing.result(),
    ensures
        stored.result() is Ok <==> {
            &&& stored.parent is Ok
            &&& stored.cloned is Ok
            &&& stored.written is Ok
            &&& replacing.replaced() || replacing.overtaken()
        },
        stored.last_action(key) == StoreAction::<Seq<char>, Result<(), IoError<E>>>::Finish(
            stored.result(),
        ),
{
    store_returns_the_first_failure(stored, key);
    replacement_ends_as_the_renames_say(replacing);
}

/// Different keys have different metadata.
pub proof fn metadata_tells_keys_apart(a: Seq<char>, b: Seq<char>)
    ensures
        metadata_text(a) == metadata_text(b) <==> a == b,
{
    let start = "{\"schema\":1,\"key\":\""@;
    let end = "\"}"@;
    if metadata_text(a) == metadata_text(b) {
        assert(metadata_text(a).len() == start.len() + a.len() + end.len());
        assert(metadata_text(b).len() == start.len() + b.len() + end.len());
        let from = start.len() as int;
        assert(a =~= metadata_text(a).subrange(from, from + a.len()));
        assert(b =~= metadata_text(b).subrange(from, from + b.len()));
    }
}

/// What one project stored, another restores exactly when their keys are the
/// same: with the metadata that a store wrote in the cache, the layout there, and
/// no failure on the way, a restore succeeds if and only if it asks for the key
/// that was stored.
pub proof fn restore_takes_what_store_wrote<E>(
    stored: StoreAnswers<E>,
    stored_key: Seq<char>,
    restored: RestoreAnswers<E>,
    key: Seq<char>,
)
    requires
        restored.metadata is Some,
        stored.performs(stored_key, StoreAction::WriteMetadata(restored.metadata->0@)),
        restored.layout_is_dir,
        is_gone(restored.removal),
        restored.cloned is Ok,
    ensures
        restored.last_action(key) == RestoreAction::Finish(key == stored_key),
{
    only_complete_stages_are_published(stored, stored_key, restored.metadata->0@);
    metadata_tells_keys_apart(stored_key, key);
    restore_succeeds_exactly_if_usable(restored, key);
}

/// A cached layout serves only the layout it was made from: with a hash that
/// does not confuse the two texts, a restore takes what another project stored if
/// and only if the lockfiles and all settings of the two are the same.
pub proof fn cache_serves_only_the_same_layout<E>(
    hash: spec_fn(Seq<char>) -> Seq<char>,
    stored_lockfile: Seq<char>,
    stored_settings: LayoutSettings,
    stored: StoreAnswers<E>,
    lockfile: Seq<char>,
    settings: LayoutSettings,
    restored: RestoreAnswers<E>,
)
    requires
        !stored_lockfile.contains('\0'),
        free_of_nul(stored_settings),
        !lockfile.contains('\0'),
        free_of_nul(settings),
        hash(layout_text(stored_lockfile, stored_settings)) == hash(layout_text(lockfile, settings))
            ==> layout_text(stored_lockfile, stored_settings) == layout_text(lockfile, settings),
        restored.metadata is Some,
        stored.performs(
            hash(layout_text(stored_lockfile, stored_settings)),
            StoreAction::WriteMetadata(restored.metadata->0@),
        ),
        restored.layout_is_dir,
        is_gone(restored.removal),
        restored.cloned is Ok,
    ensures
        restored.last_action(hash(layout_text(lockfile, settings))) == RestoreAction::Finish(
            stored_lockfile == lockfile && same_settings(stored_settings, settings),
        ),
{
    restore_takes_what_store_wrote(
        stored,
        hash(layout_text(stored_lockfile, stored_settings)),
        restored,
        hash(layout_text(lockfile, settings)),
    );
    layout_text_tells_layouts_apart(stored_lockfile, stored_settings, lockfile, settings);
}

impl<E> StoreAnswers<E> {
    /// Whether the quiet run with these answers performs `wanted`.
    pub open spec fn performs_quietly(
        self,
        key: Seq<char>,
        wanted: StoreAction<Seq<char>, Option<IoError<E>>>,
    ) -> bool {
        performs(
            |event: StoreEvent<E>| quiet_store_action(key, event),
            self.answer(),
            StoreEvent::Begin,
            5,
            wanted,
        )
    }
}

/// Of a quiet store, which is the one that an install calls: it looks for the
/// modules directory, and with one there it creates the directory of the cache,
/// clones, writes the metadata and replaces, each only if what comes before it
/// worked. The metadata that it writes is the JSON object with the schema 1 and the
/// key, and no other. It hands out the first failure, and none if there is none.
pub proof fn quiet_stores_publish_the_metadata_of_their_key<E>(
    answers: StoreAnswers<E>,
    key: Seq<char>,
    text: Seq<char>,
)
    ensures
        answers.performs_quietly(key, StoreAction::CheckModules),
        answers.performs_quietly(key, StoreAction::CreateParent) <==> answers.modules_is_dir,
        answers.performs_quietly(key, StoreAction::CloneModules) <==> {
            &&& answers.modules_is_dir
            &&& answers.parent is Ok
        },
        answers.performs_quietly(key, StoreAction::WriteMetadata(text)) <==> {
            &&& answers.modules_is_dir
            &&& answers.parent is Ok
            &&& answers.cloned is Ok
            &&& text == "{\"schema\":1,\"key\":\""@ + key + "\"}"@
        },
        answers.performs_quietly(key, StoreAction::ReplaceLayout) <==> {
            &&& answers.modules_is_dir
            &&& answers.parent is Ok
            &&& answers.cloned is Ok
            &&& answers.written is Ok
        },
        answers.performs_quietly(key, StoreAction::Finish(None)) <==> {
            ||| !answers.modules_is_dir
            ||| {
                &&& answers.parent is Ok
                &&& answers.cloned is Ok
                &&& answers.written is Ok
                &&& answers.replaced is Ok
            }
        },
        forall|error: IoError<E>| #[trigger]
            answers.performs_quietly(key, StoreAction::Finish(Some(error))) <==> {
                &&& answers.modules_is_dir
                &&& if answers.parent is Err {
                    error == answers.parent->Err_0
                } else if answers.cloned is Err {
                    error == answers.cloned->Err_0
                } else if answers.written is Err {
                    error == answers.written->Err_0
                } else {
                    answers.replaced is Err && error == answers.replaced->Err_0
                }
            },
{
    reveal_with_fuel(performs, 6);
}

/// What a quiet store wrote, a restore takes exactly if it asks for the key that was
/// stored: with that metadata in the cache, the layout there, the modules directory
/// out of the way and a clone that works.
pub proof fn restore_takes_what_a_quiet_store_wrote<E>(
    stored: StoreAnswers<E>,
    stored_key: Seq<char>,
    restored: RestoreAnswers<E>,
    key: Seq<char>,
)
    requires
        restored.metadata is Some,
        stored.performs_quietly(stored_key, StoreAction::WriteMetadata(restored.metadata->0@)),
        restored.layout_is_dir,
        restored.removal is Ok || restored.removal->Err_0.kind is NotFound,
        restored.cloned is Ok,
    ensures
        restored.last_action(key) == RestoreAction::Finish(true) <==> key == stored_key,
        restored.last_action(key) == RestoreAction::Finish(false) <==> key != stored_key,
{
    quiet_stores_publish_the_metadata_of_their_key(stored, stored_key, restored.metadata->0@);
    metadata_tells_keys_apart(stored_key, key);
    restore_succeeds_exactly_if_usable(restored, key);
}

/// A cached layout is taken exactly if its metadata is the JSON object with the
/// schema 1 and the key, and its layout entry is a directory. Only then is the
/// modules directory removed, the layout is cloned exactly if the modules directory
/// is gone then, and the restore succeeds exactly if that worked.
pub proof fn restores_need_their_own_metadata<E>(answers: RestoreAnswers<E>, key: Seq<char>)
    ensures
        answers.performs(key, RestoreAction::ReadCache),
        answers.performs(key, RestoreAction::RemoveModules) <==> {
            &&& answers.metadata is Some
            &&& answers.metadata->0@ == "{\"schema\":1,\"key\":\""@ + key + "\"}"@
            &&& answers.layout_is_dir
        },
        answers.performs(key, RestoreAction::CloneLayout) <==> {
            &&& answers.performs(key, RestoreAction::RemoveModules)
            &&& answers.removal is Ok || answers.removal->Err_0.kind is NotFound
        },
        answers.performs(key, RestoreAction::Finish(true)) <==> {
            &&& answers.performs(key, RestoreAction::CloneLayout)
            &&& answers.cloned is Ok
        },
        answers.performs(key, RestoreAction::Finish(false)) <==> !answers.performs(
            key,
            RestoreAction::Finish(true),
        ),
{
    reveal_with_fuel(performs, 4);
}

/// A cache is found under the hash of its namespace, and its metadata holds the hash
/// of the text that identifies the layout. There is one exactly on macOS with a
/// lockfile.
pub proof fn caches_are_made_of_two_hashes<F>(
    host: Host,
    namespace: &str,
    lockfile: Option<String>,
    settings: LayoutSettings,
    create_short_hash: F,
    cache: Option<ProjectLayoutCache>,
    layout: String,
    names: Vec<String>,
    metadata: String,
) where F: Fn(&str) -> String
    requires
        call_ensures(
            ProjectLayoutCache::new::<F>,
            (&host, namespace, lockfile, &settings, create_short_hash),
            cache,
        ),
        cache is Some ==> {
            &&& exists|text: &str| #[trigger]
                call_ensures(layout_key_text, (text, &settings), layout) && text@ == lockfile->0@
            &&& call_ensures(ProjectLayoutCache::dir, (&cache->0,), names)
            &&& call_ensures(ProjectLayoutCache::metadata_json, (&cache->0,), metadata)
        },
    ensures
        cache is Some <==> host.macos && lockfile is Some,
        cache is Some ==> {
            &&& names@.len() == 2
            &&& names@[0]@ == "project-layouts"@
            &&& exists|text: &str, hash: String|
                text@ == namespace@ && hash@ == names@[1]@ && #[trigger] call_ensures(
                    create_short_hash,
                    (text,),
                    hash,
                )
            &&& exists|text: &str, hash: String|
                text@ == layout@ && metadata@ == "{\"schema\":1,\"key\":\""@ + hash@ + "\"}"@
                    && #[trigger] call_ensures(create_short_hash, (text,), hash)
        },
{
    if cache is Some {
        let text = choose|text: &str| #[trigger]
            call_ensures(layout_key_text, (text, &settings), layout) && text@ == lockfile->0@;
        assert(layout@ == layout_text(lockfile->0@, settings));
        assert(hashes_to(create_short_hash, namespace@, names@[1]@));
        assert(hashes_to(create_short_hash, layout@, cache->0.spec_key()));
        let (input, output) = choose|input: &str, output: String|
            input@ == layout@ && output@ == cache->0.spec_key() && #[trigger] call_ensures(
                create_short_hash,
                (input,),
                output,
            );
        assert(metadata@ == "{\"schema\":1,\"key\":\""@ + output@ + "\"}"@);
    }
}

/// The cache of one project agrees with itself: the metadata that its stores write,
/// quiet or not, is what [`ProjectLayoutCache::metadata_json`] gives, and that is the
/// metadata, and the only one, for which it matches and for which its restores go
/// on, as long as the layout entry is a directory.
pub proof fn stores_and_restores_of_a_cache_agree<E>(
    cache: ProjectLayoutCache,
    json: String,
    stored: StoreAction<String, Option<IoError<E>>>,
    stored_inner: StoreAction<String, Result<(), IoError<E>>>,
    metadata: Option<String>,
    layout_is_dir: bool,
    matching: bool,
    restored: RestoreAction,
)
    requires
        call_ensures(ProjectLayoutCache::metadata_json, (&cache,), json),
        call_ensures(
            ProjectLayoutCache::store::<E>,
            (&cache, StoreEvent::ModulesCloned(Ok(()))),
            stored,
        ),
        call_ensures(
            ProjectLayoutCache::store_inner::<E>,
            (&cache, StoreEvent::ModulesCloned(Ok(()))),
            stored_inner,
        ),
        call_ensures(
            ProjectLayoutCache::metadata_matches,
            (&cache, &metadata, layout_is_dir),
            matching,
        ),
        call_ensures(
            ProjectLayoutCache::restore::<E>,
            (&cache, RestoreEvent::CacheRead(metadata, layout_is_dir)),
            restored,
        ),
    ensures
        stored is WriteMetadata,
        stored->WriteMetadata_0@ == json@,
        stored_inner is WriteMetadata,
        stored_inner->WriteMetadata_0@ == json@,
        matching <==> metadata is Some && metadata->0@ == json@ && layout_is_dir,
        matching ==> restored is RemoveModules,
        !matching ==> restored == RestoreAction::Finish(false),
{
}

/// Restores of a cache go on only while all works: the modules directory is removed
/// only after the cache was read, the layout is cloned exactly once the modules
/// directory is gone, and the clone decides the end.
pub proof fn restores_go_on_while_all_works<E>(
    cache: ProjectLayoutCache,
    event: RestoreEvent<E>,
    action: RestoreAction,
)
    requires
        call_ensures(ProjectLayoutCache::restore::<E>, (&cache, event), action),
    ensures
        action is ReadCache <==> event is Begin,
        action is RemoveModules ==> event is CacheRead && event->CacheRead_1,
        action is CloneLayout <==> {
            &&& event is ModulesRemoved
            &&& event->ModulesRemoved_0 is Ok || event->ModulesRemoved_0->Err_0.kind is NotFound
        },
        action == RestoreAction::Finish(true) <==> event is LayoutCloned && event->LayoutCloned_0
            is Ok,
{
}

/// Stores of a cache go on only while all works, and end in the failure that they
/// saw. A quiet store does the same as the other at every event, and hands out
/// exactly the failure that the other returns.
pub proof fn stores_go_on_while_all_works<E>(
    cache: ProjectLayoutCache,
    event: StoreEvent<E>,
    action: StoreAction<String, Result<(), IoError<E>>>,
    quiet: StoreAction<String, Option<IoError<E>>>,
)
    requires
        call_ensures(ProjectLayoutCache::store_inner::<E>, (&cache, event), action),
        call_ensures(ProjectLayoutCache::store::<E>, (&cache, event), quiet),
    ensures
        action is CheckModules <==> event is Begin,
        action is CreateParent <==> event is ModulesChecked && event->ModulesChecked_0,
        action is CloneModules <==> event is ParentCreated && event->ParentCreated_0 is Ok,
        action is WriteMetadata <==> event is ModulesCloned && event->ModulesCloned_0 is Ok,
        action is ReplaceLayout <==> event is MetadataWritten && event->MetadataWritten_0 is Ok,
        action is Finish && action->Finish_0 is Ok <==> {
            ||| event is ModulesChecked && !event->ModulesChecked_0
            ||| event is Replaced && event->Replaced_0 is Ok
        },
        action is Finish && action->Finish_0 is Err ==> {
            ||| event is ParentCreated && event->ParentCreated_0 == action->Finish_0
            ||| event is ModulesCloned && event->ModulesCloned_0 == action->Finish_0
            ||| event is MetadataWritten && event->MetadataWritten_0 == action->Finish_0
            ||| event is Replaced && event->Replaced_0 == action->Finish_0
        },
        quiet is CheckModules <==> action is CheckModules,
        quiet is CreateParent <==> action is CreateParent,
        quiet is CloneModules <==> action is CloneModules,
        quiet is WriteMetadata <==> action is WriteMetadata,
        quiet is WriteMetadata ==> quiet->WriteMetadata_0@ == action->WriteMetadata_0@,
        quiet is ReplaceLayout <==> action is ReplaceLayout,
        quiet is Finish && action->Finish_0 is Ok ==> quiet->Finish_0 is None,
        quiet is Finish && action->Finish_0 is Err ==> quiet->Finish_0 == Some(
            action->Finish_0->Err_0,
        ),
{
}

/// The two entries of a cached layout are `metadata.json` and `layout`.
pub proof fn layout_entries_have_their_names(metadata: &'static str, layout: &'static str)
    requires
        call_ensures(LayoutEntry::name, (&LayoutEntry::Metadata,), metadata),
        call_ensures(LayoutEntry::name, (&LayoutEntry::Layout,), layout),
    ensures
        metadata@ == "metadata.json"@,
        layout@ == "layout"@,
        metadata@ != layout@,
{
    reveal_strlit("metadata.json");
    reveal_strlit("layout");
    assert(metadata@.len() != layout@.len());
}

} // verus!
