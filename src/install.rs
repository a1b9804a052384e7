//! Installing a provisioned distribution, as a machine that the caller drives:
//! each method takes the outcome of the last action and names the next one.
//! The unpacked tree is built in a private scratch directory and reaches the
//! install tree only through the single final `Publish` move.

use vstd::prelude::*;
use crate::distro::{Fetched, InstallError, Manifest, NodeVersion};
use crate::layout::Layout;
use crate::version::{Version, parsed_version};

verus! {

/// What the caller is to do next.
#[derive(Clone, Debug)]
pub enum InstallAction {
    /// Read the sidecar file and hand its contents to `sidecar_read`.
    ReadSidecar { file: String },
    /// Make a fresh scratch directory under `in_dir`; hand its path to
    /// `scratch_created`.
    CreateScratch { in_dir: String },
    /// Unpack the archive into `into`; report to `unpacked`.
    Unpack { into: String },
    /// Read and decode the npm manifest at `file`; hand it to `manifest_read`.
    ReadManifest { file: String },
    /// Write `contents` to the sidecar `file`; report to `sidecar_written`.
    WriteSidecar { file: String, contents: String },
    /// Make sure the directory `dir` exists; report to `image_parent_ready`.
    EnsureDir { dir: String },
    /// Move `from` to `to` in one rename; report to `published`.
    Publish { from: String, to: String },
    /// The install is over.
    Finish(Fetched<NodeVersion>),
    /// The install failed.
    Fail(InstallError),
}

/// Why the npm manifest could not be had.
#[derive(Clone, Copy, Debug, PartialEq, Eq, Structural)]
pub enum ManifestFault {
    /// The file could not be read.
    Unreadable,
    /// The file is not a manifest with a `version` string.
    Malformed,
}

/// Where an install stands: the action it last asked for.
#[derive(Clone, Copy, Debug, PartialEq, Eq, Structural)]
pub enum InstallPhase {
    Start,
    ReadingSidecar,
    CreatingScratch,
    Unpacking,
    ReadingManifest,
    WritingSidecar,
    PreparingImageDir,
    Publishing,
    Ended,
}

/// `<scratch>/<rel>`.
pub open spec fn under(dir: Seq<char>, rel: Seq<char>) -> Seq<char> {
    dir + "/"@ + rel
}

fn join(dir: &String, rel: String) -> (r: String)
    ensures
        r@ == under(dir@, rel@),
{
    dir.clone().concat("/").concat(rel.as_str())
}

/// One install of one Node version.
pub struct NodeInstall {
    layout: Layout,
    version: Version,
    phase: InstallPhase,
    scratch: String,
    npm: Version,
}

impl NodeInstall {
    pub closed spec fn layout_spec(self) -> Layout {
        self.layout
    }

    pub closed spec fn version_spec(self) -> Version {
        self.version
    }

    pub closed spec fn phase_spec(self) -> InstallPhase {
        self.phase
    }

    /// The scratch directory, once made.
    pub closed spec fn scratch_spec(self) -> Seq<char> {
        self.scratch@
    }

    /// The npm version, once read from the manifest.
    pub closed spec fn npm_spec(self) -> Version {
        self.npm
    }

    pub fn new(layout: Layout, version: Version) -> (r: NodeInstall)
        ensures
            r.layout_spec() == layout,
            r.version_spec() == version,
            r.phase_spec() == InstallPhase::Start,
    {
        // `scratch` and `npm` are set by the steps that learn them.
        NodeInstall { layout, version, phase: InstallPhase::Start, scratch: String::new(), npm: version }
    }

    pub fn phase(&self) -> (r: InstallPhase)
        ensures
            r == self.phase_spec(),
    {
        self.phase
    }

    /// Begins the install. A version that is already installed is looked up
    /// in its sidecar file and nothing else: no download, no scratch
    /// directory, no unpacking.
    pub fn start(&mut self, already_installed: bool) -> (r: InstallAction)
        requires
            old(self).phase_spec() == InstallPhase::Start,
        ensures
            final(self).layout_spec() == old(self).layout_spec(),
            final(self).version_spec() == old(self).version_spec(),
            already_installed ==> (r matches InstallAction::ReadSidecar { file }
                && file@ == old(self).layout_spec().npm_version_file_spec(old(self).version_spec())
                && final(self).phase_spec() == InstallPhase::ReadingSidecar),
            !already_installed ==> (r matches InstallAction::CreateScratch { in_dir }
                && in_dir@ == old(self).layout_spec().tmp_dir_spec()
                && final(self).phase_spec() == InstallPhase::CreatingScratch),
    {
        if already_installed {
            self.phase = InstallPhase::ReadingSidecar;
            InstallAction::ReadSidecar { file: self.layout.npm_version_file(&self.version) }
        } else {
            self.phase = InstallPhase::CreatingScratch;
            InstallAction::CreateScratch { in_dir: self.layout.tmp_dir() }
        }
    }

    /// Takes the sidecar's contents (`None` where it could not be read). The
    /// install ends: `Already` with the recorded npm, or an error.
    pub fn sidecar_read(&mut self, contents: Option<String>) -> (r: InstallAction)
        requires
            old(self).phase_spec() == InstallPhase::ReadingSidecar,
        ensures
            final(self).phase_spec() == InstallPhase::Ended,
            final(self).version_spec() == old(self).version_spec(),
            contents is None ==> (r matches InstallAction::Fail(InstallError::ReadDefaultNpm { file })
                && file@ == old(self).layout_spec().npm_version_file_spec(old(self).version_spec())),
            contents matches Some(c) ==> match parsed_version(c@) {
                Some(npm) => r matches InstallAction::Finish(f) && f == Fetched::Already(
                    NodeVersion { runtime: old(self).version_spec(), npm },
                ),
                None => r matches InstallAction::Fail(InstallError::ParseVersion { text }) && text@ == c@,
            },
    {
        self.phase = InstallPhase::Ended;
        match contents {
            None => InstallAction::Fail(InstallError::ReadDefaultNpm { file: self.layout.npm_version_file(&self.version) }),
            Some(c) => match crate::distro::load_default_npm_version(c.as_str()) {
                Ok(npm) => InstallAction::Finish(Fetched::Already(NodeVersion { runtime: self.version, npm })),
                Err(e) => InstallAction::Fail(e),
            },
        }
    }
    /// Takes the path of the new scratch directory (`None` where none could
    /// be made) and asks for the archive to be unpacked there.
    pub fn scratch_created(&mut self, scratch: Option<String>) -> (r: InstallAction)
        requires
            old(self).phase_spec() == InstallPhase::CreatingScratch,
        ensures
            final(self).layout_spec() == old(self).layout_spec(),
            final(self).version_spec() == old(self).version_spec(),
            scratch is None ==> (r matches InstallAction::Fail(InstallError::CreateTempDir { in_dir })
                && in_dir@ == old(self).layout_spec().tmp_dir_spec()
                && final(self).phase_spec() == InstallPhase::Ended),
            scratch matches Some(d) ==> (r matches InstallAction::Unpack { into } && into@ == d@
                && final(self).scratch_spec() == d@
                && final(self).phase_spec() == InstallPhase::Unpacking),
    {
        match scratch {
            None => {
                self.phase = InstallPhase::Ended;
                InstallAction::Fail(InstallError::CreateTempDir { in_dir: self.layout.tmp_dir() })
            },
            Some(d) => {
                self.phase = InstallPhase::Unpacking;
                let into = d.clone();
                self.scratch = d;
                InstallAction::Unpack { into }
            },
        }
    }

    /// Takes whether unpacking succeeded and asks for the npm manifest at
    /// its version-derived place inside the unpacked tree.
    pub fn unpacked(&mut self, ok: bool) -> (r: InstallAction)
        requires
            old(self).phase_spec() == InstallPhase::Unpacking,
        ensures
            final(self).layout_spec() == old(self).layout_spec(),
            final(self).version_spec() == old(self).version_spec(),
            final(self).scratch_spec() == old(self).scratch_spec(),
            !ok ==> (r matches InstallAction::Fail(InstallError::UnpackArchive { tool, version })
                && tool@ == "Node"@ && version@ == old(self).version_spec().text()
                && final(self).phase_spec() == InstallPhase::Ended),
            ok ==> (r matches InstallAction::ReadManifest { file } && file@ == under(
                old(self).scratch_spec(),
                old(self).layout_spec().npm_manifest_path_spec(old(self).version_spec()),
            ) && final(self).phase_spec() == InstallPhase::ReadingManifest),
    {
        if ok {
            self.phase = InstallPhase::ReadingManifest;
            InstallAction::ReadManifest { file: join(&self.scratch, self.layout.npm_manifest_path(&self.version)) }
        } else {
            self.phase = InstallPhase::Ended;
            InstallAction::Fail(InstallError::UnpackArchive { tool: "Node".to_string(), version: self.version.to_text() })
        }
    }

    /// Takes the decoded npm manifest and asks for its version to be recorded
    /// in the sidecar file, before anything reaches the install tree.
    pub fn manifest_read(&mut self, manifest: Result<Manifest, ManifestFault>) -> (r: InstallAction)
        requires
            old(self).phase_spec() == InstallPhase::ReadingManifest,
        ensures
            final(self).layout_spec() == old(self).layout_spec(),
            final(self).version_spec() == old(self).version_spec(),
            final(self).scratch_spec() == old(self).scratch_spec(),
            manifest == Err::<Manifest, ManifestFault>(ManifestFault::Unreadable) ==> (r matches InstallAction::Fail(InstallError::ReadNpmManifest)
                && final(self).phase_spec() == InstallPhase::Ended),
            manifest == Err::<Manifest, ManifestFault>(ManifestFault::Malformed) ==> (r matches InstallAction::Fail(InstallError::ParseNpmManifest)
                && final(self).phase_spec() == InstallPhase::Ended),
            manifest matches Ok(m) ==> match parsed_version(m.version_text()) {
                Some(npm) => r matches InstallAction::WriteSidecar { file, contents }
                    && file@ == old(self).layout_spec().npm_version_file_spec(old(self).version_spec())
                    && contents@ == npm.text() && final(self).npm_spec() == npm
                    && final(self).phase_spec() == InstallPhase::WritingSidecar,
                None => r matches InstallAction::Fail(InstallError::ParseVersion { text })
                    && text@ == m.version_text() && final(self).phase_spec() == InstallPhase::Ended,
            },
    {
        match manifest {
            Err(ManifestFault::Unreadable) => {
                self.phase = InstallPhase::Ended;
                InstallAction::Fail(InstallError::ReadNpmManifest)
            },
            Err(ManifestFault::Malformed) => {
                self.phase = InstallPhase::Ended;
                InstallAction::Fail(InstallError::ParseNpmManifest)
            },
            Ok(m) => match m.version() {
                Ok(npm) => {
                    self.phase = InstallPhase::WritingSidecar;
                    self.npm = npm;
                    InstallAction::WriteSidecar {
                        file: self.layout.npm_version_file(&self.version),
                        contents: crate::distro::default_npm_version_text(&npm),
                    }
                },
                Err(e) => {
                    self.phase = InstallPhase::Ended;
                    InstallAction::Fail(e)
                },
            },
        }
    }

    /// Takes whether the sidecar was written and asks for the parent of the
    /// install-tree directory.
    pub fn sidecar_written(&mut self, ok: bool) -> (r: InstallAction)
        requires
            old(self).phase_spec() == InstallPhase::WritingSidecar,
        ensures
            final(self).layout_spec() == old(self).layout_spec(),
            final(self).version_spec() == old(self).version_spec(),
            final(self).scratch_spec() == old(self).scratch_spec(),
            final(self).npm_spec() == old(self).npm_spec(),
            !ok ==> (r matches InstallAction::Fail(InstallError::WriteDefaultNpm { file })
                && file@ == old(self).layout_spec().npm_version_file_spec(old(self).version_spec())
                && final(self).phase_spec() == InstallPhase::Ended),
            ok ==> (r matches InstallAction::EnsureDir { dir }
                && dir@ == old(self).layout_spec().image_parent_spec(old(self).version_spec())
                && final(self).phase_spec() == InstallPhase::PreparingImageDir),
    {
        if ok {
            self.phase = InstallPhase::PreparingImageDir;
            InstallAction::EnsureDir { dir: self.layout.image_parent(&self.version) }
        } else {
            self.phase = InstallPhase::Ended;
            InstallAction::Fail(InstallError::WriteDefaultNpm { file: self.layout.npm_version_file(&self.version) })
        }
    }

    /// Takes whether the parent directory exists and asks for the unpacked
    /// tree to be moved, in one rename, to its install-tree directory.
    pub fn image_parent_ready(&mut self, ok: bool) -> (r: InstallAction)
        requires
            old(self).phase_spec() == InstallPhase::PreparingImageDir,
        ensures
            final(self).layout_spec() == old(self).layout_spec(),
            final(self).version_spec() == old(self).version_spec(),
            final(self).npm_spec() == old(self).npm_spec(),
            !ok ==> (r matches InstallAction::Fail(InstallError::CreateDir { dir })
                && dir@ == old(self).layout_spec().image_parent_spec(old(self).version_spec())
                && final(self).phase_spec() == InstallPhase::Ended),
            ok ==> (r matches InstallAction::Publish { from, to }
                && from@ == under(old(self).scratch_spec(), old(self).layout_spec().archive_root_spec(old(self).version_spec()))
                && to@ == old(self).layout_spec().image_dir_spec(old(self).version_spec(), old(self).npm_spec())
                && final(self).phase_spec() == InstallPhase::Publishing),
    {
        if ok {
            self.phase = InstallPhase::Publishing;
            InstallAction::Publish {
                from: join(&self.scratch, self.layout.archive_root(&self.version)),
                to: self.layout.image_dir(&self.version, &self.npm),
            }
        } else {
            self.phase = InstallPhase::Ended;
            InstallAction::Fail(InstallError::CreateDir { dir: self.layout.image_parent(&self.version) })
        }
    }

    /// Takes whether the move succeeded. The install ends: `Now` with the
    /// Node and npm versions, or an error naming the install-tree directory.
    pub fn published(&mut self, ok: bool) -> (r: InstallAction)
        requires
            old(self).phase_spec() == InstallPhase::Publishing,
        ensures
            final(self).phase_spec() == InstallPhase::Ended,
            !ok ==> (r matches InstallAction::Fail(InstallError::SetupToolImage { tool, version, dir })
                && tool@ == "Node"@ && version@ == old(self).version_spec().text()
                && dir@ == old(self).layout_spec().image_dir_spec(old(self).version_spec(), old(self).npm_spec())),
            ok ==> (r matches InstallAction::Finish(f) && f == Fetched::Now(
                NodeVersion { runtime: old(self).version_spec(), npm: old(self).npm_spec() },
            )),
    {
        self.phase = InstallPhase::Ended;
        if ok {
            InstallAction::Finish(Fetched::Now(NodeVersion { runtime: self.version, npm: self.npm }))
        } else {
            InstallAction::Fail(InstallError::SetupToolImage {
                tool: "Node".to_string(),
                version: self.version.to_text(),
                dir: self.layout.image_dir(&self.version, &self.npm),
            })
        }
    }
}

/// The install-tree directory of a Node and npm pair is none of the places
/// that an install writes before its final move: not the sidecar file, not
/// the parent directory it makes, not the root of the scratch directories.
/// Only the `Publish` move creates it, so an install that stops before that
/// move leaves no install-tree directory behind.
pub proof fn lemma_image_dir_untouched_before_publish(layout: Layout, node: Version, npm: Version)
    ensures
        layout.image_dir_spec(node, npm) != layout.npm_version_file_spec(node),
        layout.image_dir_spec(node, npm) != layout.image_parent_spec(node),
        layout.image_dir_spec(node, npm) != layout.tmp_dir_spec(),
{
    let h: int = layout.home@.len() as int;
    reveal_strlit("/tools/image/node/");
    reveal_strlit("/tools/inventory/node");
    reveal_strlit("/tmp");
    let image = layout.image_dir_spec(node, npm);
    assert(image[h + 8] == 'm');
    assert(layout.npm_version_file_spec(node)[h + 8] == 'n');
    assert(image.len() > layout.image_parent_spec(node).len());
    assert(image[h + 2] == 'o');
    assert(layout.tmp_dir_spec()[h + 2] == 'm');
}

} // verus!
