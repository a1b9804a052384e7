//! Provisioning and installing a Node distribution: which archive to use,
//! where it comes from, and the steps that take an unpacked archive into the
//! install tree. The steps that touch the disk or the network are carried out
//! by the caller; each decision between them is made here.

use vstd::prelude::*;
use crate::layout::Layout;
use crate::version::{Version, parsed_version};

verus! {

/// A full Node version: Node itself and the npm bundled with that build.
#[derive(PartialEq, Eq, Structural, Clone, Copy, Debug)]
pub struct NodeVersion {
    /// The version of Node itself.
    pub runtime: Version,
    /// The npm version installed with the Node distribution.
    pub npm: Version,
}

/// The outcome of an install: the version was there already, or this call
/// installed it.
#[derive(PartialEq, Eq, Structural, Clone, Copy, Debug)]
pub enum Fetched<T> {
    Already(T),
    Now(T),
}

/// Why provisioning or installing failed, with the context a message needs.
#[derive(Clone, Debug)]
pub enum InstallError {
    /// The archive of `tool` at `version` could not be downloaded from `url`.
    DownloadTool { tool: String, version: String, url: String },
    /// The sidecar file with the bundled npm version could not be read.
    ReadDefaultNpm { file: String },
    /// The sidecar file with the bundled npm version could not be written.
    WriteDefaultNpm { file: String },
    /// A version text could not be parsed.
    ParseVersion { text: String },
    /// The npm package manifest could not be read.
    ReadNpmManifest,
    /// The npm package manifest is not a manifest with a `version`.
    ParseNpmManifest,
    /// The directory `dir` could not be made.
    CreateDir { dir: String },
    /// No scratch directory could be made under `in_dir`.
    CreateTempDir { in_dir: String },
    /// The archive could not be unpacked.
    UnpackArchive { tool: String, version: String },
    /// The unpacked tree could not be moved into the install tree.
    SetupToolImage { tool: String, version: String, dir: String },
}

/// The package manifest of the npm bundled in an archive.
#[derive(Clone, Debug)]
pub struct Manifest {
    version: String,
}

impl Manifest {
    pub closed spec fn version_text(self) -> Seq<char> {
        self.version@
    }

    pub fn new(version: String) -> (r: Manifest)
        ensures
            r.version_text() == version@,
    {
        Manifest { version }
    }

    /// The npm version that the manifest names.
    pub fn version(&self) -> (r: Result<Version, InstallError>)
        ensures
            match parsed_version(self.version_text()) {
                Some(v) => r matches Ok(w) && w == v,
                None => r matches Err(InstallError::ParseVersion { text }) && text@ == self.version_text(),
            },
    {
        load_default_npm_version(self.version.as_str())
    }
}

/// Reads the npm version recorded in a sidecar file's contents. The text
/// that [`default_npm_version_text`] writes for a version gives back exactly
/// that version.
pub fn load_default_npm_version(contents: &str) -> (r: Result<Version, InstallError>)
    ensures
        match parsed_version(contents@) {
            Some(v) => r matches Ok(w) && w == v,
            None => r matches Err(InstallError::ParseVersion { text }) && text@ == contents@,
        },
        forall|v: Version| #[trigger] v.text() == contents@ ==> (r matches Ok(w) && w == v),
{
    match Version::parse(contents) {
        Ok(v) => Ok(v),
        Err(e) => Err(InstallError::ParseVersion { text: e.text }),
    }
}

/// The contents of the sidecar file that records `npm` as the bundled npm.
pub fn default_npm_version_text(npm: &Version) -> (r: String)
    ensures
        r@ == npm.text(),
{
    npm.to_text()
}

/// The root of the public Node registry.
pub const PUBLIC_NODE_SERVER_ROOT: &'static str = "https://nodejs.org/dist";

/// `<root>/v<version>/<archive file name>`: the public registry's URL.
pub open spec fn public_url_spec(root: Seq<char>, layout: Layout, v: Version) -> Seq<char> {
    root + "/v"@ + v.text() + "/"@ + layout.distro_file_name_spec(v)
}

/// The URL of the archive of `v` on the public registry rooted at `root`.
pub fn public_url(root: &str, layout: &Layout, v: &Version) -> (r: String)
    ensures
        r@ == public_url_spec(root@, *layout, *v),
{
    root.to_string().concat("/v").concat(v.to_text().as_str()).concat("/").concat(
        layout.distro_file_name(v).as_str(),
    )
}

/// The URL to download from: the one a configured hook gave, else the public
/// registry's.
pub fn distro_url(layout: &Layout, v: &Version, hook_url: Option<String>) -> (r: String)
    ensures
        hook_url matches Some(u) ==> r@ == u@,
        hook_url is None ==> r@ == public_url_spec(PUBLIC_NODE_SERVER_ROOT@, *layout, *v),
{
    match hook_url {
        Some(u) => u,
        None => public_url(PUBLIC_NODE_SERVER_ROOT, layout, v),
    }
}

/// The error for a failed download of the archive of `v` from `url`.
pub fn download_error(v: &Version, url: String) -> (r: InstallError)
    ensures
        r matches InstallError::DownloadTool { tool, version, url: u } && tool@ == "Node"@
            && version@ == v.text() && u@ == url@,
{
    InstallError::DownloadTool { tool: "Node".to_string(), version: v.to_text(), url }
}

/// The size that unpacking progress counts up to: the unpacked size where
/// the archive knows it, else its compressed size.
pub fn progress_total(uncompressed: Option<u64>, compressed: u64) -> (r: u64)
    ensures
        uncompressed matches Some(n) ==> r == n,
        uncompressed is None ==> r == compressed,
{
    match uncompressed {
        Some(n) => n,
        None => compressed,
    }
}

/// Where the archive of a provisioned distribution comes from.
#[derive(Clone, Debug)]
pub enum FetchPlan {
    /// The cached archive at `file` re-validated: use it, with no download.
    Cached { file: String },
    /// Make the directory `dir`, then download `url` to `file`.
    Download { url: String, dir: String, file: String },
}

/// Decides between the cached archive and a download. A cache file is used
/// only where it was found usable at lookup time; any other cache file is
/// replaced by a download, never reported as an error.
pub fn plan_fetch(layout: &Layout, v: &Version, url: String, cache_usable: bool) -> (r: FetchPlan)
    ensures
        cache_usable ==> (r matches FetchPlan::Cached { file } && file@ == layout.distro_file_spec(*v)),
        !cache_usable ==> (r matches FetchPlan::Download { url: u, dir, file } && u@ == url@
            && dir@ == layout.inventory_dir_spec() && file@ == layout.distro_file_spec(*v)),
{
    let file = layout.distro_file(v);
    if cache_usable {
        FetchPlan::Cached { file }
    } else {
        FetchPlan::Download { url, dir: layout.inventory_dir(), file }
    }
}

/// A provisioned distribution: it owns the archive handle `A` until the
/// install consumes it, and carries the Node version it holds.
pub struct NodeDistro<A> {
    archive: A,
    version: Version,
}

impl<A> NodeDistro<A> {
    pub closed spec fn archive_spec(self) -> A {
        self.archive
    }

    pub closed spec fn version_spec(self) -> Version {
        self.version
    }

    pub fn new(archive: A, version: Version) -> (r: Self)
        ensures
            r.archive_spec() == archive,
            r.version_spec() == version,
    {
        NodeDistro { archive, version }
    }

    /// The Node version of this distribution.
    pub fn version(&self) -> (r: &Version)
        ensures
            *r == self.version_spec(),
    {
        &self.version
    }

    /// Gives up the archive handle, for unpacking.
    pub fn into_archive(self) -> (r: A)
        ensures
            r == self.archive_spec(),
    {
        self.archive
    }
}

} // verus!
