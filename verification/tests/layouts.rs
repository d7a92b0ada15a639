use pacquet_install::host::Host;
use pacquet_install::import_method::PackageImportMethod;
use pacquet_install::io_error::{
    is_existing_dir_error, remove_dir_if_exists, ErrorKind, IoError,
};
use pacquet_install::layout_key::{layout_key_text, IncludedDependencies, LayoutSettings};
use pacquet_install::project_layout_cache::{
    LayoutEntry, ProjectLayoutCache, RestoreAction, RestoreEvent, StoreAction, StoreEvent,
};
use pacquet_install::replace_dir::{replace_dir, ReplaceAction, ReplaceEvent};

const MACOS: Host = Host { macos: true, available_parallelism: Some(8) };

fn settings() -> LayoutSettings {
    LayoutSettings {
        node_linker: "Isolated".to_string(),
        import_method: PackageImportMethod::CloneOrCopy,
        included: IncludedDependencies {
            dependencies: true,
            dev_dependencies: false,
            optional_dependencies: true,
        },
        virtual_store_dir_max_length: 120,
        symlink: true,
        store_dir: "/store".to_string(),
        modules_dir: "node_modules".to_string(),
        virtual_store_dir: "node_modules/.pnpm".to_string(),
        hoist: true,
        hoist_pattern: "Some([\"*\"])".to_string(),
        public_hoist_pattern: "Some([])".to_string(),
        shamefully_hoist: false,
    }
}

fn hash(text: &str) -> String {
    format!("#{}#", text.len())
}

fn cache_for(lockfile: &str) -> ProjectLayoutCache {
    ProjectLayoutCache::new(&MACOS, "/project", Some(lockfile.to_string()), &settings(), hash)
        .unwrap()
}

fn io(kind: ErrorKind) -> IoError<&'static str> {
    IoError { kind, source: "failed" }
}

fn failed() -> Result<(), IoError<&'static str>> {
    Err(io(ErrorKind::Other))
}

#[test]
fn the_key_text_holds_every_setting() {
    assert_eq!(
        layout_key_text("lock", &settings()),
        "v1\0lockfile=lock\0node_linker=Isolated\0import_method=CloneOrCopy\
         \0included=true:false:true\0virtual_store_max=120\0symlink=true\0store_dir=/store\
         \0modules_dir=node_modules\0virtual_store_dir=node_modules/.pnpm\0hoist=true\
         \0hoist_pattern=Some([\"*\"])\0public_hoist_pattern=Some([])\0shamefully_hoist=false",
    );
}

#[test]
fn the_key_text_changes_with_each_setting() {
    let text = layout_key_text("lock", &settings());
    assert_ne!(text, layout_key_text("other", &settings()));
    let changed = [
        LayoutSettings { node_linker: "Hoisted".to_string(), ..settings() },
        LayoutSettings { import_method: PackageImportMethod::Clone, ..settings() },
        LayoutSettings {
            included: IncludedDependencies {
                dependencies: true,
                dev_dependencies: true,
                optional_dependencies: true,
            },
            ..settings()
        },
        LayoutSettings { virtual_store_dir_max_length: 12, ..settings() },
        LayoutSettings { symlink: false, ..settings() },
        LayoutSettings { store_dir: "/stores".to_string(), ..settings() },
        LayoutSettings { modules_dir: "modules".to_string(), ..settings() },
        LayoutSettings { virtual_store_dir: ".pnpm".to_string(), ..settings() },
        LayoutSettings { hoist: false, ..settings() },
        LayoutSettings { hoist_pattern: "None".to_string(), ..settings() },
        LayoutSettings { public_hoist_pattern: "None".to_string(), ..settings() },
        LayoutSettings { shamefully_hoist: true, ..settings() },
    ];
    for other in &changed {
        assert_ne!(text, layout_key_text("lock", other));
    }
}

#[test]
fn large_numbers_are_written_in_full() {
    let large = LayoutSettings { virtual_store_dir_max_length: u64::MAX, ..settings() };
    assert!(layout_key_text("", &large).contains("\0virtual_store_max=18446744073709551615\0"));
    let zero = LayoutSettings { virtual_store_dir_max_length: 0, ..settings() };
    assert!(layout_key_text("", &zero).contains("\0virtual_store_max=0\0"));
}

#[test]
fn there_is_a_cache_on_macos_with_a_lockfile_only() {
    let lockfile = || Some("lock".to_string());
    let linux = Host { macos: false, available_parallelism: Some(8) };
    assert!(ProjectLayoutCache::new(&linux, "ns", lockfile(), &settings(), hash).is_none());
    assert!(ProjectLayoutCache::new(&MACOS, "ns", None, &settings(), hash).is_none());
    assert!(ProjectLayoutCache::new(&MACOS, "ns", lockfile(), &settings(), hash).is_some());
}

#[test]
fn a_cache_is_found_by_its_namespace_and_key() {
    let cache = cache_for("lock");
    assert_eq!(cache.dir(), vec!["project-layouts".to_string(), "#8#".to_string()]);
    let length = layout_key_text("lock", &settings()).len();
    assert_eq!(cache.metadata_json(), format!("{{\"schema\":1,\"key\":\"#{length}#\"}}"));
    assert_eq!(LayoutEntry::Metadata.name(), "metadata.json");
    assert_eq!(LayoutEntry::Layout.name(), "layout");
}

#[test]
fn metadata_matches_its_own_key_only() {
    let cache = cache_for("lock");
    assert!(cache.metadata_matches(&Some(cache.metadata_json()), true));
    assert!(!cache.metadata_matches(&Some(cache.metadata_json()), false));
    assert!(!cache.metadata_matches(&Some(cache_for("longer lock").metadata_json()), true));
    assert!(!cache.metadata_matches(&Some(String::new()), true));
    assert!(!cache.metadata_matches(&None, true));
    assert!(!cache.metadata_matches(&None, false));
}

/// Runs a restore and returns what it did and whether it succeeded.
fn restore(
    cache: &ProjectLayoutCache,
    metadata: Option<String>,
    is_dir: bool,
    removal: Result<(), IoError<&'static str>>,
    cloned: Result<(), IoError<&'static str>>,
) -> (Vec<RestoreAction>, bool) {
    let mut answers = (Some(metadata), Some(removal), Some(cloned));
    let mut actions = Vec::new();
    let mut event = RestoreEvent::Begin;
    loop {
        let action = cache.restore(event);
        actions.push(action);
        event = match action {
            RestoreAction::ReadCache => {
                RestoreEvent::CacheRead(answers.0.take().unwrap(), is_dir)
            }
            RestoreAction::RemoveModules => {
                RestoreEvent::ModulesRemoved(answers.1.take().unwrap())
            }
            RestoreAction::CloneLayout => RestoreEvent::LayoutCloned(answers.2.take().unwrap()),
            RestoreAction::Finish(restored) => return (actions, restored),
        };
    }
}

#[test]
fn a_usable_layout_is_restored() {
    let cache = cache_for("lock");
    let json = || Some(cache.metadata_json());
    let (actions, restored) = restore(&cache, json(), true, Ok(()), Ok(()));
    assert!(restored);
    assert_eq!(
        actions,
        vec![
            RestoreAction::ReadCache,
            RestoreAction::RemoveModules,
            RestoreAction::CloneLayout,
            RestoreAction::Finish(true),
        ],
    );
    let absent = Err(io(ErrorKind::NotFound));
    assert!(restore(&cache, json(), true, absent, Ok(())).1);
}

#[test]
fn an_unusable_layout_leaves_the_modules_alone() {
    let cache = cache_for("lock");
    let other = Some(cache_for("longer lock").metadata_json());
    for (metadata, is_dir) in [(None, true), (other, true), (Some(cache.metadata_json()), false)] {
        let (actions, restored) = restore(&cache, metadata, is_dir, Ok(()), Ok(()));
        assert!(!restored);
        assert!(!actions.contains(&RestoreAction::RemoveModules));
    }
}

#[test]
fn a_restore_fails_with_its_removal_or_clone() {
    let cache = cache_for("lock");
    let json = || Some(cache.metadata_json());
    let (actions, restored) = restore(&cache, json(), true, failed(), Ok(()));
    assert!(!restored);
    assert!(!actions.contains(&RestoreAction::CloneLayout));
    assert!(!restore(&cache, json(), true, Ok(()), failed()).1);
}

#[test]
fn a_store_publishes_a_complete_stage() {
    let cache = cache_for("lock");
    assert!(matches!(cache.store(StoreEvent::<()>::Begin), StoreAction::CheckModules));
    assert!(matches!(
        cache.store(StoreEvent::<()>::ModulesChecked(true)),
        StoreAction::CreateParent,
    ));
    assert!(matches!(
        cache.store(StoreEvent::<()>::ParentCreated(Ok(()))),
        StoreAction::CloneModules,
    ));
    match cache.store(StoreEvent::<()>::ModulesCloned(Ok(()))) {
        StoreAction::WriteMetadata(text) => {
            assert_eq!(text, cache.metadata_json());
            assert!(restore(&cache, Some(text), true, Ok(()), Ok(())).1);
        }
        other => panic!("{other:?}"),
    }
    assert!(matches!(
        cache.store(StoreEvent::<()>::MetadataWritten(Ok(()))),
        StoreAction::ReplaceLayout,
    ));
    assert!(matches!(
        cache.store(StoreEvent::<()>::Replaced(Ok(()))),
        StoreAction::Finish(None),
    ));
}

#[test]
fn nothing_is_stored_without_modules() {
    let cache = cache_for("lock");
    assert!(matches!(
        cache.store(StoreEvent::<()>::ModulesChecked(false)),
        StoreAction::Finish(None),
    ));
    assert!(matches!(
        cache.store_inner(StoreEvent::<()>::ModulesChecked(false)),
        StoreAction::Finish(Ok(())),
    ));
}

#[test]
fn a_failed_store_hands_out_its_failure() {
    let cache = cache_for("lock");
    let events = || {
        [
            StoreEvent::ParentCreated(failed()),
            StoreEvent::ModulesCloned(failed()),
            StoreEvent::MetadataWritten(failed()),
            StoreEvent::Replaced(failed()),
        ]
    };
    for event in events() {
        match cache.store(event) {
            StoreAction::Finish(Some(error)) => assert_eq!(error.source, "failed"),
            other => panic!("{other:?}"),
        }
    }
    for event in events() {
        match cache.store_inner(event) {
            StoreAction::Finish(Err(error)) => assert_eq!(error.source, "failed"),
            other => panic!("{other:?}"),
        }
    }
}

#[test]
fn an_existing_directory_is_told_from_other_failures() {
    assert!(is_existing_dir_error(&io(ErrorKind::AlreadyExists)));
    assert!(is_existing_dir_error(&io(ErrorKind::DirectoryNotEmpty)));
    assert!(!is_existing_dir_error(&io(ErrorKind::NotFound)));
    assert!(!is_existing_dir_error(&io(ErrorKind::Other)));
}

#[test]
fn a_directory_that_is_not_there_counts_as_removed() {
    assert!(remove_dir_if_exists::<()>(Ok(())).is_ok());
    assert!(remove_dir_if_exists(Err(io(ErrorKind::NotFound))).is_ok());
    assert_eq!(remove_dir_if_exists(failed()).unwrap_err().kind, ErrorKind::Other);
}

#[test]
fn a_rename_that_works_replaces_the_directory() {
    assert!(matches!(replace_dir(ReplaceEvent::<()>::Begin), ReplaceAction::Rename));
    assert!(matches!(
        replace_dir(ReplaceEvent::<()>::Renamed(Ok(()))),
        ReplaceAction::Finish(Ok(())),
    ));
}

#[test]
fn a_directory_in_the_way_is_removed() {
    for kind in [ErrorKind::AlreadyExists, ErrorKind::DirectoryNotEmpty] {
        assert!(matches!(
            replace_dir(ReplaceEvent::Renamed(Err(io(kind)))),
            ReplaceAction::RemoveTarget,
        ));
        assert!(matches!(
            replace_dir(ReplaceEvent::RenamedAgain(Err(io(kind)))),
            ReplaceAction::DiscardStage(Ok(())),
        ));
    }
    assert!(matches!(
        replace_dir(ReplaceEvent::TargetRemoved(Err(io(ErrorKind::NotFound)))),
        ReplaceAction::RenameAgain,
    ));
    assert!(matches!(
        replace_dir(ReplaceEvent::<()>::RenamedAgain(Ok(()))),
        ReplaceAction::Finish(Ok(())),
    ));
}

#[test]
fn other_failures_end_the_replacement() {
    assert!(matches!(
        replace_dir(ReplaceEvent::Renamed(failed())),
        ReplaceAction::DiscardStage(Err(_)),
    ));
    assert!(matches!(
        replace_dir(ReplaceEvent::RenamedAgain(failed())),
        ReplaceAction::DiscardStage(Err(_)),
    ));
    // The stage stays where it is if the target cannot be removed.
    assert!(matches!(
        replace_dir(ReplaceEvent::TargetRemoved(failed())),
        ReplaceAction::Finish(Err(_)),
    ));
}

/// A cached layout, or a stage for one, in memory.
#[derive(Clone, Debug, PartialEq)]
struct Entry {
    metadata: Option<String>,
    layout: Option<&'static str>,
}

/// The directories of a project and of its cache, in memory.
struct Disk {
    modules: Option<&'static str>,
    cached: Option<Entry>,
    stage: Option<Entry>,
}

impl Disk {
    fn rename(&mut self) -> Result<(), IoError<&'static str>> {
        if self.cached.is_some() {
            return Err(io(ErrorKind::DirectoryNotEmpty));
        }
        self.cached = self.stage.take();
        Ok(())
    }

    fn replace(&mut self) -> Result<(), IoError<&'static str>> {
        let mut event = ReplaceEvent::Begin;
        loop {
            event = match replace_dir(event) {
                ReplaceAction::Rename => ReplaceEvent::Renamed(self.rename()),
                ReplaceAction::RemoveTarget => {
                    self.cached = None;
                    ReplaceEvent::TargetRemoved(Ok(()))
                }
                ReplaceAction::RenameAgain => ReplaceEvent::RenamedAgain(self.rename()),
                ReplaceAction::Finish(result) => return result,
                ReplaceAction::DiscardStage(result) => {
                    self.stage = None;
                    return result;
                }
            };
        }
    }

    fn store(&mut self, cache: &ProjectLayoutCache) -> Result<(), IoError<&'static str>> {
        let mut event = StoreEvent::Begin;
        loop {
            event = match cache.store_inner(event) {
                StoreAction::CheckModules => StoreEvent::ModulesChecked(self.modules.is_some()),
                StoreAction::CreateParent => StoreEvent::ParentCreated(Ok(())),
                StoreAction::CloneModules => {
                    self.stage = Some(Entry { metadata: None, layout: self.modules });
                    StoreEvent::ModulesCloned(Ok(()))
                }
                StoreAction::WriteMetadata(text) => {
                    self.stage.as_mut().unwrap().metadata = Some(text);
                    StoreEvent::MetadataWritten(Ok(()))
                }
                StoreAction::ReplaceLayout => StoreEvent::Replaced(self.replace()),
                StoreAction::Finish(result) => return result,
            };
        }
    }

    fn restore(&mut self, cache: &ProjectLayoutCache) -> bool {
        let mut event: RestoreEvent<&'static str> = RestoreEvent::Begin;
        loop {
            event = match cache.restore(event) {
                RestoreAction::ReadCache => RestoreEvent::CacheRead(
                    self.cached.as_ref().and_then(|entry| entry.metadata.clone()),
                    self.cached.as_ref().is_some_and(|entry| entry.layout.is_some()),
                ),
                RestoreAction::RemoveModules => {
                    let removal = match self.modules.take() {
                        Some(_) => Ok(()),
                        None => Err(io(ErrorKind::NotFound)),
                    };
                    RestoreEvent::ModulesRemoved(removal)
                }
                RestoreAction::CloneLayout => {
                    self.modules = self.cached.as_ref().and_then(|entry| entry.layout);
                    RestoreEvent::LayoutCloned(Ok(()))
                }
                RestoreAction::Finish(restored) => return restored,
            };
        }
    }
}

#[test]
fn a_restore_brings_back_what_was_stored() {
    let cache = cache_for("lock");
    let mut disk = Disk { modules: Some("first"), cached: None, stage: None };
    assert!(disk.store(&cache).is_ok());
    assert_eq!(disk.modules, Some("first"));
    disk.modules = Some("second");
    assert!(disk.restore(&cache));
    assert_eq!(disk.modules, Some("first"));
    disk.modules = None;
    assert!(disk.restore(&cache));
    assert_eq!(disk.modules, Some("first"));
    // A later store takes the place of the first.
    disk.modules = Some("third");
    assert!(disk.store(&cache).is_ok());
    disk.modules = Some("fourth");
    assert!(disk.restore(&cache));
    assert_eq!(disk.modules, Some("third"));
    assert!(disk.stage.is_none());
}

#[test]
fn a_restore_for_another_key_changes_nothing() {
    let mut disk = Disk { modules: Some("first"), cached: None, stage: None };
    assert!(disk.store(&cache_for("lock")).is_ok());
    let cached = disk.cached.clone();
    disk.modules = Some("second");
    assert!(!disk.restore(&cache_for("longer lock")));
    assert_eq!(disk.modules, Some("second"));
    assert_eq!(disk.cached, cached);
}
