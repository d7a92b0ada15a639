use pacquet_install::create_virtual_dir_by_snapshot::{
    CreateVirtualDirBySnapshot, CreateVirtualDirError, LogLevel, SlotPath, SnapshotEntry,
    VirtualDirAction, VirtualDirEvent,
};
use pacquet_install::import_method::{
    optimistic_wire_method, PackageImportMethod, WireImportMethod,
};
use pacquet_install::io_error::{ErrorKind, IoError};
use pacquet_install::package_instance_cache::{
    build_package_instance, package_instance_dir, try_populate_from_package_instance, BuildAction,
    BuildError, BuildEvent, BuildRequest, InstanceEntry, PopulateAction, PopulateEvent,
};

type Slot = CreateVirtualDirBySnapshot<&'static str, &'static [&'static str], u8, char>;

fn slot() -> Slot {
    CreateVirtualDirBySnapshot {
        package_name: "@scope/name".to_string(),
        cas_paths: &["index.js", "package.json"],
        import_method: PackageImportMethod::Auto,
        requester: "/project".to_string(),
        package_tree_dir: Some("/trees/name"),
        snapshot: SnapshotEntry { dependencies: Some(3), optional_dependencies: Some(4) },
        skipped: 's',
    }
}

type SlotEvent = VirtualDirEvent<u8, u16, u32>;

#[test]
fn reports_name_the_method_that_is_tried_first() {
    let cases = [
        (PackageImportMethod::Auto, WireImportMethod::Clone),
        (PackageImportMethod::Clone, WireImportMethod::Clone),
        (PackageImportMethod::CloneOrCopy, WireImportMethod::Clone),
        (PackageImportMethod::Hardlink, WireImportMethod::Hardlink),
        (PackageImportMethod::Copy, WireImportMethod::Copy),
    ];
    for (method, wire) in cases {
        assert_eq!(optimistic_wire_method(method), wire);
    }
}

#[test]
fn method_names_are_those_of_the_variants() {
    assert_eq!(PackageImportMethod::Auto.name(), "Auto");
    assert_eq!(PackageImportMethod::Hardlink.name(), "Hardlink");
    assert_eq!(PackageImportMethod::Copy.name(), "Copy");
    assert_eq!(PackageImportMethod::Clone.name(), "Clone");
    assert_eq!(PackageImportMethod::CloneOrCopy.name(), "CloneOrCopy");
}

#[test]
fn a_slot_is_created_step_by_step() {
    let slot = slot();
    assert!(matches!(
        slot.run(SlotEvent::Begin),
        VirtualDirAction::CreateNodeModules { at: SlotPath::NodeModules },
    ));
    assert!(matches!(
        slot.run(SlotEvent::NodeModulesCreated(Ok(()))),
        VirtualDirAction::ImportPackage {
            method: PackageImportMethod::Auto,
            to: SlotPath::Package,
            cas_paths: ["index.js", "package.json"],
            package_tree_dir: Some("/trees/name"),
        },
    ));
    match slot.run(SlotEvent::Imported(Ok(()))) {
        VirtualDirAction::LinkDependencies {
            dependencies,
            optional_dependencies,
            package_name,
            skipped,
            at,
        } => {
            assert_eq!((dependencies, optional_dependencies), (Some(3), Some(4)));
            assert_eq!(package_name, "@scope/name");
            assert_eq!(skipped, 's');
            assert_eq!(at, SlotPath::NodeModules);
        }
        other => panic!("{other:?}"),
    }
    match slot.run(SlotEvent::Linked(Ok(()))) {
        VirtualDirAction::Report(report) => {
            assert_eq!(report.level, LogLevel::Debug);
            assert_eq!(report.method, WireImportMethod::Clone);
            assert_eq!(report.requester, "/project");
            assert_eq!(report.to, SlotPath::Package);
        }
        other => panic!("{other:?}"),
    }
    assert!(matches!(slot.run(SlotEvent::Reported), VirtualDirAction::Finish(Ok(()))));
}

#[test]
fn a_slot_without_dependencies_links_none() {
    let snapshot = SnapshotEntry { dependencies: None, optional_dependencies: Some(4) };
    let slot = Slot { snapshot, ..slot() };
    assert!(matches!(
        slot.run(SlotEvent::Imported(Ok(()))),
        VirtualDirAction::LinkDependencies {
            dependencies: None,
            optional_dependencies: Some(4),
            ..
        },
    ));
}

#[test]
fn the_directories_of_a_slot() {
    let slot = slot();
    assert_eq!(slot.path(SlotPath::NodeModules), vec!["node_modules".to_string()]);
    assert_eq!(
        slot.path(SlotPath::Package),
        vec!["node_modules".to_string(), "@scope/name".to_string()],
    );
}

#[test]
fn each_failure_of_a_slot_has_its_error() {
    let slot = slot();
    match slot.run(SlotEvent::NodeModulesCreated(Err(1))) {
        VirtualDirAction::Finish(Err(error)) => {
            assert!(matches!(
                error,
                CreateVirtualDirError::CreateNodeModulesDir {
                    dir: SlotPath::NodeModules,
                    error: 1,
                },
            ));
            assert_eq!(
                error.message("\"/slot/node_modules\"", "denied"),
                "Failed to recursively create node_modules directory at \
                 \"/slot/node_modules\": denied",
            );
            assert_eq!(
                error.code(),
                Some("pacquet_package_manager::create_node_modules_dir"),
            );
        }
        other => panic!("{other:?}"),
    }
    match slot.run(SlotEvent::Imported(Err(2))) {
        VirtualDirAction::Finish(Err(error)) => {
            assert!(matches!(error, CreateVirtualDirError::ImportIndexedDir(2)));
            assert_eq!(error.message("", "no space"), "no space");
            assert_eq!(error.code(), None);
        }
        other => panic!("{other:?}"),
    }
    match slot.run(SlotEvent::Linked(Err(3))) {
        VirtualDirAction::Finish(Err(error)) => {
            assert!(matches!(error, CreateVirtualDirError::SymlinkPackage(3)));
            assert_eq!(error.message("", "loop"), "loop");
            assert_eq!(error.code(), None);
        }
        other => panic!("{other:?}"),
    }
}

#[test]
fn an_instance_is_found_by_package_and_fingerprint() {
    let names = package_instance_dir("lodash@4.17.21", "abc", |text| {
        assert_eq!(text, "v1\0lodash@4.17.21\0abc");
        "hash".to_string()
    });
    assert_eq!(names, vec!["package-instances".to_string(), "hash".to_string()]);
    assert_eq!(InstanceEntry::Sentinel.name(), ".initialized");
    assert_eq!(InstanceEntry::Files.name(), "files");
}

#[test]
fn different_instances_have_different_texts() {
    let text = |package: &str, fingerprint: &str| {
        package_instance_dir(package, fingerprint, |text| text.to_string()).remove(1)
    };
    assert_ne!(text("a", "bc"), text("ab", "c"));
    assert_eq!(text("a", "bc"), text("a", "bc"));
}

fn sentinel(existing: Option<&str>) -> PopulateAction<String> {
    try_populate_from_package_instance(PopulateEvent::<()>::SentinelRead(
        existing.map(str::to_string),
        "abc".to_string(),
    ))
}

#[test]
fn an_unsupported_method_falls_back() {
    assert!(matches!(
        try_populate_from_package_instance(PopulateEvent::<()>::Begin(false)),
        PopulateAction::FallBack,
    ));
    assert!(matches!(
        try_populate_from_package_instance(PopulateEvent::<()>::Begin(true)),
        PopulateAction::ReadSentinel,
    ));
}

#[test]
fn only_a_complete_instance_is_taken_as_it_is() {
    assert!(matches!(sentinel(Some("abc")), PopulateAction::CloneFiles));
    for existing in [None, Some(""), Some("abcd"), Some("ab")] {
        match sentinel(existing) {
            PopulateAction::Build(fingerprint) => assert_eq!(fingerprint, "abc"),
            other => panic!("{other:?}"),
        }
    }
}

#[test]
fn failures_fall_back_to_another_import() {
    let next = |event: PopulateEvent<&str>| try_populate_from_package_instance(event);
    assert!(matches!(next(PopulateEvent::Built(Ok(()))), PopulateAction::CloneFiles));
    assert!(matches!(next(PopulateEvent::Built(Err("full"))), PopulateAction::FallBack));
    assert!(matches!(
        next(PopulateEvent::Cloned(Ok(()))),
        PopulateAction::Populated(WireImportMethod::Clone),
    ));
    assert!(matches!(next(PopulateEvent::Cloned(Err("full"))), PopulateAction::FallBack));
}

type Build = BuildAction<String, &'static str, u8, &'static str, u16>;

fn build(event: BuildEvent<&'static str, u16>) -> Build {
    let request = BuildRequest {
        fingerprint: "abc",
        cas_paths: 9,
        import_method: PackageImportMethod::Clone,
        package_tree_dir: Some("/trees/name"),
    };
    build_package_instance(request, event)
}

fn io(kind: ErrorKind) -> IoError<&'static str> {
    IoError { kind, source: "failed" }
}

#[test]
fn an_instance_is_built_in_a_stage() {
    assert!(matches!(build(BuildEvent::Begin), BuildAction::CreateParent));
    assert!(matches!(
        build(BuildEvent::ParentCreated(Ok(()))),
        BuildAction::ImportFiles {
            method: PackageImportMethod::Clone,
            to: InstanceEntry::Files,
            cas_paths: 9,
            package_tree_dir: Some("/trees/name"),
        },
    ));
    match build(BuildEvent::Imported(Ok(()))) {
        BuildAction::WriteSentinel(text) => {
            assert_eq!(text, "abc");
            assert!(matches!(sentinel(Some(&text)), PopulateAction::CloneFiles));
        }
        other => panic!("{other:?}"),
    }
    assert!(matches!(build(BuildEvent::SentinelWritten(Ok(()))), BuildAction::Rename));
    assert!(matches!(build(BuildEvent::Renamed(Ok(()))), BuildAction::Finish(Ok(()))));
}

#[test]
fn an_instance_that_exists_already_is_as_good() {
    assert!(matches!(
        build(BuildEvent::Renamed(Err(io(ErrorKind::AlreadyExists)))),
        BuildAction::DiscardStage(Ok(())),
    ));
    assert!(matches!(
        build(BuildEvent::Renamed(Err(io(ErrorKind::DirectoryNotEmpty)))),
        BuildAction::DiscardStage(Err(BuildError::Io(_))),
    ));
}

#[test]
fn failures_of_a_build_are_returned() {
    let failed = || Err(io(ErrorKind::Other));
    assert!(matches!(
        build(BuildEvent::ParentCreated(failed())),
        BuildAction::Finish(Err(BuildError::Io(_))),
    ));
    assert!(matches!(
        build(BuildEvent::Imported(Err(7))),
        BuildAction::DiscardStage(Err(BuildError::Import(7))),
    ));
    assert!(matches!(
        build(BuildEvent::SentinelWritten(failed())),
        BuildAction::Finish(Err(BuildError::Io(_))),
    ));
    assert!(matches!(
        build(BuildEvent::Renamed(failed())),
        BuildAction::DiscardStage(Err(BuildError::Io(_))),
    ));
}

#[test]
fn a_failed_import_is_of_the_kind_other_and_keeps_its_text() {
    let describe = |import: &u16| format!("import {import}");
    let other = |text: String| -> &'static str {
        assert_eq!(text, "import 7");
        "import failed"
    };
    let failed: BuildError<&'static str, u16> = BuildError::Import(7);
    assert_eq!(failed.kind(), ErrorKind::Other);
    let error = failed.into_io_error(describe, other);
    assert_eq!((error.kind, error.source), (ErrorKind::Other, "import failed"));
}

#[test]
fn a_failure_of_the_file_system_keeps_its_kind() {
    let kinds = [ErrorKind::NotFound, ErrorKind::AlreadyExists, ErrorKind::Other];
    for kind in kinds {
        let failed: BuildError<&'static str, u16> = BuildError::Io(io(kind));
        assert_eq!(failed.kind(), kind);
        let error = failed.into_io_error(|_| panic!("no import failed"), |_| "import failed");
        assert_eq!((error.kind, error.source), (kind, "failed"));
    }
}

/// An instance, or a stage for one, in memory.
#[derive(Clone, Debug, PartialEq)]
struct Instance {
    sentinel: Option<String>,
    files: &'static str,
}

/// The directories of a package and of its instance, in memory.
struct Disk {
    instance: Option<Instance>,
    stage: Option<Instance>,
    package: Option<&'static str>,
    /// An instance that somebody else puts in place before the rename.
    others: Option<Instance>,
    builds: usize,
}

impl Disk {
    fn build(&mut self) -> Result<(), BuildError<&'static str, u16>> {
        self.builds += 1;
        let mut event = BuildEvent::Begin;
        loop {
            event = match build(event) {
                BuildAction::CreateParent => BuildEvent::ParentCreated(Ok(())),
                BuildAction::ImportFiles { .. } => {
                    self.stage = Some(Instance { sentinel: None, files: "tree" });
                    BuildEvent::Imported(Ok(()))
                }
                BuildAction::WriteSentinel(text) => {
                    self.stage.as_mut().unwrap().sentinel = Some(text);
                    BuildEvent::SentinelWritten(Ok(()))
                }
                BuildAction::Rename => {
                    self.instance = self.others.take().or(self.instance.take());
                    if self.instance.is_some() {
                        BuildEvent::Renamed(Err(io(ErrorKind::AlreadyExists)))
                    } else {
                        self.instance = self.stage.take();
                        BuildEvent::Renamed(Ok(()))
                    }
                }
                BuildAction::Finish(result) => return result,
                BuildAction::DiscardStage(result) => {
                    self.stage = None;
                    return result;
                }
            };
        }
    }

    fn populate(&mut self) -> bool {
        let mut event = PopulateEvent::Begin(true);
        loop {
            event = match try_populate_from_package_instance(event) {
                PopulateAction::ReadSentinel => PopulateEvent::SentinelRead(
                    self.instance.as_ref().and_then(|instance| instance.sentinel.clone()),
                    "abc".to_string(),
                ),
                PopulateAction::Build(fingerprint) => {
                    assert_eq!(fingerprint, "abc");
                    PopulateEvent::Built(self.build())
                }
                PopulateAction::CloneFiles => {
                    self.package = self.instance.as_ref().map(|instance| instance.files);
                    PopulateEvent::Cloned(Ok(()))
                }
                PopulateAction::Populated(_) => return true,
                PopulateAction::FallBack => return false,
            };
        }
    }
}

#[test]
fn a_populated_package_holds_its_files() {
    let whole = Instance { sentinel: Some("abc".to_string()), files: "tree" };
    for others in [None, Some(whole.clone())] {
        let mut disk = Disk { instance: None, stage: None, package: None, others, builds: 0 };
        assert!(disk.populate());
        assert_eq!(disk.package, Some("tree"));
        assert_eq!(disk.instance, Some(whole.clone()));
        assert_eq!(disk.stage, None);
        disk.package = None;
        assert!(disk.populate());
        assert_eq!(disk.package, Some("tree"));
        assert_eq!(disk.builds, 1);
    }
}
