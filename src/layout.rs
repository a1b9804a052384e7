//! Where things live on disk and on the registry. Every path is a function of
//! the layout's root and of version texts; components are joined with `/`.

use vstd::prelude::*;
use crate::version::Version;

verus! {

/// The root of the install tree and the platform whose archives are used.
#[derive(Clone, Debug)]
pub struct Layout {
    /// The root directory under which tools, caches and scratch space live.
    pub home: String,
    /// The operating-system tag of the archives (`linux`, `darwin`, `win`).
    pub os: String,
    /// The architecture tag of the archives (`x64`, `arm64`).
    pub arch: String,
    /// Whether archives are in the Windows shape (`.zip`, no `lib/`).
    pub windows: bool,
}

impl Layout {
    /// `node-v<version>-<os>-<arch>`: the top directory inside an archive.
    pub open spec fn archive_root_spec(self, v: Version) -> Seq<char> {
        "node-v"@ + v.text() + "-"@ + self.os@ + "-"@ + self.arch@
    }

    /// The file name of the archive of a version.
    pub open spec fn distro_file_name_spec(self, v: Version) -> Seq<char> {
        self.archive_root_spec(v) + if self.windows { ".zip"@ } else { ".tar.gz"@ }
    }

    /// Where, relative to the extraction directory, the bundled npm's
    /// package manifest lies.
    pub open spec fn npm_manifest_path_spec(self, v: Version) -> Seq<char> {
        self.archive_root_spec(v) + if self.windows {
            "/node_modules/npm/package.json"@
        } else {
            "/lib/node_modules/npm/package.json"@
        }
    }

    /// The directory that holds downloaded archives and sidecar files.
    pub open spec fn inventory_dir_spec(self) -> Seq<char> {
        self.home@ + "/tools/inventory/node"@
    }

    /// The cache path of the archive of a version.
    pub open spec fn distro_file_spec(self, v: Version) -> Seq<char> {
        self.inventory_dir_spec() + "/"@ + self.distro_file_name_spec(v)
    }

    /// The sidecar file that records which npm a Node version bundles.
    pub open spec fn npm_version_file_spec(self, v: Version) -> Seq<char> {
        self.inventory_dir_spec() + "/node-v"@ + v.text() + "-npm"@
    }

    /// The install-tree directory of a Node and npm pair.
    pub open spec fn image_dir_spec(self, node: Version, npm: Version) -> Seq<char> {
        self.image_parent_spec(node) + "/"@ + npm.text()
    }

    /// The directory that holds the install trees of every npm bundled with
    /// one Node version.
    pub open spec fn image_parent_spec(self, node: Version) -> Seq<char> {
        self.home@ + "/tools/image/node/"@ + node.text()
    }

    /// The root under which scratch directories are made.
    pub open spec fn tmp_dir_spec(self) -> Seq<char> {
        self.home@ + "/tmp"@
    }

    pub fn archive_root(&self, v: &Version) -> (r: String)
        ensures
            r@ == self.archive_root_spec(*v),
    {
        "node-v".to_string().concat(v.to_text().as_str()).concat("-").concat(self.os.as_str()).concat(
            "-",
        ).concat(self.arch.as_str())
    }

    pub fn distro_file_name(&self, v: &Version) -> (r: String)
        ensures
            r@ == self.distro_file_name_spec(*v),
    {
        let root = self.archive_root(v);
        if self.windows {
            root.concat(".zip")
        } else {
            root.concat(".tar.gz")
        }
    }

    pub fn npm_manifest_path(&self, v: &Version) -> (r: String)
        ensures
            r@ == self.npm_manifest_path_spec(*v),
    {
        let root = self.archive_root(v);
        if self.windows {
            root.concat("/node_modules/npm/package.json")
        } else {
            root.concat("/lib/node_modules/npm/package.json")
        }
    }

    pub fn inventory_dir(&self) -> (r: String)
        ensures
            r@ == self.inventory_dir_spec(),
    {
        self.home.clone().concat("/tools/inventory/node")
    }

    pub fn distro_file(&self, v: &Version) -> (r: String)
        ensures
            r@ == self.distro_file_spec(*v),
    {
        self.inventory_dir().concat("/").concat(self.distro_file_name(v).as_str())
    }

    pub fn npm_version_file(&self, v: &Version) -> (r: String)
        ensures
            r@ == self.npm_version_file_spec(*v),
    {
        self.inventory_dir().concat("/node-v").concat(v.to_text().as_str()).concat("-npm")
    }

    pub fn image_dir(&self, node: &Version, npm: &Version) -> (r: String)
        ensures
            r@ == self.image_dir_spec(*node, *npm),
    {
        self.home.clone().concat("/tools/image/node/").concat(node.to_text().as_str()).concat(
            "/",
        ).concat(npm.to_text().as_str())
    }

    pub fn image_parent(&self, node: &Version) -> (r: String)
        ensures
            r@ == self.image_parent_spec(*node),
    {
        self.home.clone().concat("/tools/image/node/").concat(node.to_text().as_str())
    }

    pub fn tmp_dir(&self) -> (r: String)
        ensures
            r@ == self.tmp_dir_spec(),
    {
        self.home.clone().concat("/tmp")
    }
}

} // verus!
