use volta_core::distro::{Fetched, InstallError, Manifest, NodeVersion};
use volta_core::install::{InstallAction, InstallPhase, ManifestFault, NodeInstall};
use volta_core::layout::Layout;
use volta_core::version::Version;

fn layout() -> Layout {
    Layout { home: "/v".to_string(), os: "linux".to_string(), arch: "x64".to_string(), windows: false }
}

fn node() -> Version {
    Version::new(12, 16, 1)
}

fn finish(a: InstallAction) -> Fetched<NodeVersion> {
    match a {
        InstallAction::Finish(f) => f,
        other => panic!("expected the end of the install, got {:?}", other),
    }
}

fn already_installed_run(contents: &str) -> (InstallAction, InstallAction) {
    let mut inst = NodeInstall::new(layout(), node());
    let first = inst.start(true);
    let second = inst.sidecar_read(Some(contents.to_string()));
    (first, second)
}

#[test]
fn reinstall_reads_only_the_sidecar() {
    for _ in 0..2 {
        let (first, second) = already_installed_run("6.13.4");
        match first {
            InstallAction::ReadSidecar { file } => assert_eq!(file, "/v/tools/inventory/node/node-v12.16.1-npm"),
            other => panic!("expected a sidecar read, got {:?}", other),
        }
        assert_eq!(
            finish(second),
            Fetched::Already(NodeVersion { runtime: node(), npm: Version::new(6, 13, 4) })
        );
    }
}

#[test]
fn missing_sidecar_is_fatal() {
    let mut inst = NodeInstall::new(layout(), node());
    inst.start(true);
    match inst.sidecar_read(None) {
        InstallAction::Fail(InstallError::ReadDefaultNpm { file }) => {
            assert_eq!(file, "/v/tools/inventory/node/node-v12.16.1-npm")
        }
        other => panic!("unexpected {:?}", other),
    }
    assert_eq!(inst.phase(), InstallPhase::Ended);
}

#[test]
fn fresh_install_runs_every_step_in_order() {
    let mut inst = NodeInstall::new(layout(), node());
    match inst.start(false) {
        InstallAction::CreateScratch { in_dir } => assert_eq!(in_dir, "/v/tmp"),
        other => panic!("unexpected {:?}", other),
    }
    match inst.scratch_created(Some("/v/tmp/s1".to_string())) {
        InstallAction::Unpack { into } => assert_eq!(into, "/v/tmp/s1"),
        other => panic!("unexpected {:?}", other),
    }
    match inst.unpacked(true) {
        InstallAction::ReadManifest { file } => {
            assert_eq!(file, "/v/tmp/s1/node-v12.16.1-linux-x64/lib/node_modules/npm/package.json")
        }
        other => panic!("unexpected {:?}", other),
    }
    match inst.manifest_read(Ok(Manifest::new("6.13.4".to_string()))) {
        InstallAction::WriteSidecar { file, contents } => {
            assert_eq!(file, "/v/tools/inventory/node/node-v12.16.1-npm");
            assert_eq!(contents, "6.13.4");
        }
        other => panic!("unexpected {:?}", other),
    }
    match inst.sidecar_written(true) {
        InstallAction::EnsureDir { dir } => assert_eq!(dir, "/v/tools/image/node/12.16.1"),
        other => panic!("unexpected {:?}", other),
    }
    match inst.image_parent_ready(true) {
        InstallAction::Publish { from, to } => {
            assert_eq!(from, "/v/tmp/s1/node-v12.16.1-linux-x64");
            assert_eq!(to, "/v/tools/image/node/12.16.1/6.13.4");
        }
        other => panic!("unexpected {:?}", other),
    }
    assert_eq!(
        finish(inst.published(true)),
        Fetched::Now(NodeVersion { runtime: node(), npm: Version::new(6, 13, 4) })
    );
}

fn at_manifest() -> NodeInstall {
    let mut inst = NodeInstall::new(layout(), node());
    inst.start(false);
    inst.scratch_created(Some("/s".to_string()));
    inst.unpacked(true);
    inst
}

#[test]
fn failures_before_publish_never_publish() {
    let mut inst = NodeInstall::new(layout(), node());
    inst.start(false);
    assert!(matches!(inst.scratch_created(None), InstallAction::Fail(InstallError::CreateTempDir { .. })));

    let mut inst = NodeInstall::new(layout(), node());
    inst.start(false);
    inst.scratch_created(Some("/s".to_string()));
    match inst.unpacked(false) {
        InstallAction::Fail(InstallError::UnpackArchive { tool, version }) => {
            assert_eq!(tool, "Node");
            assert_eq!(version, "12.16.1");
        }
        other => panic!("unexpected {:?}", other),
    }

    let mut inst = at_manifest();
    assert!(matches!(inst.manifest_read(Err(ManifestFault::Unreadable)), InstallAction::Fail(InstallError::ReadNpmManifest)));
    let mut inst = at_manifest();
    assert!(matches!(inst.manifest_read(Err(ManifestFault::Malformed)), InstallAction::Fail(InstallError::ParseNpmManifest)));
    let mut inst = at_manifest();
    assert!(matches!(
        inst.manifest_read(Ok(Manifest::new("six".to_string()))),
        InstallAction::Fail(InstallError::ParseVersion { .. })
    ));

    let mut inst = at_manifest();
    inst.manifest_read(Ok(Manifest::new("6.13.4".to_string())));
    assert!(matches!(inst.sidecar_written(false), InstallAction::Fail(InstallError::WriteDefaultNpm { .. })));
    assert_eq!(inst.phase(), InstallPhase::Ended);

    let mut inst = at_manifest();
    inst.manifest_read(Ok(Manifest::new("6.13.4".to_string())));
    inst.sidecar_written(true);
    match inst.image_parent_ready(false) {
        InstallAction::Fail(InstallError::CreateDir { dir }) => assert_eq!(dir, "/v/tools/image/node/12.16.1"),
        other => panic!("unexpected {:?}", other),
    }
}

#[test]
fn failed_publish_names_destination() {
    let mut inst = at_manifest();
    inst.manifest_read(Ok(Manifest::new("6.13.4".to_string())));
    inst.sidecar_written(true);
    inst.image_parent_ready(true);
    match inst.published(false) {
        InstallAction::Fail(InstallError::SetupToolImage { tool, version, dir }) => {
            assert_eq!(tool, "Node");
            assert_eq!(version, "12.16.1");
            assert_eq!(dir, "/v/tools/image/node/12.16.1/6.13.4");
        }
        other => panic!("unexpected {:?}", other),
    }
}
