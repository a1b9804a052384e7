//! Installed images and the search path that running a tool in one uses.

use vstd::prelude::*;
use crate::distro::NodeVersion;
use crate::layout::Layout;

verus! {

/// A Node distribution installed in the install tree.
#[derive(PartialEq, Eq, Structural, Clone, Copy, Debug)]
pub struct Image {
    pub node: NodeVersion,
}

impl Image {
    /// The directory of the image's executables: `bin` inside its
    /// install-tree directory, or that directory itself on Windows.
    pub open spec fn bin_dir_spec(self, layout: Layout) -> Seq<char> {
        let dir = layout.image_dir_spec(self.node.runtime, self.node.npm);
        if layout.windows { dir } else { dir + "/bin"@ }
    }

    /// The search path of the image: its executables first, then the
    /// caller's own search path `ambient` where that is not empty. Entries
    /// are separated by `;` on Windows and by `:` elsewhere.
    pub open spec fn path_spec(self, layout: Layout, ambient: Seq<char>) -> Seq<char> {
        if ambient.len() == 0 {
            self.bin_dir_spec(layout)
        } else {
            self.bin_dir_spec(layout) + (if layout.windows { ";"@ } else { ":"@ }) + ambient
        }
    }

    pub fn bin_dir(&self, layout: &Layout) -> (r: String)
        ensures
            r@ == self.bin_dir_spec(*layout),
    {
        let dir = layout.image_dir(&self.node.runtime, &self.node.npm);
        if layout.windows {
            dir
        } else {
            dir.concat("/bin")
        }
    }

    pub fn path(&self, layout: &Layout, ambient: &str) -> (r: String)
        ensures
            r@ == self.path_spec(*layout, ambient@),
    {
        let bin = self.bin_dir(layout);
        if ambient.unicode_len() == 0 {
            bin
        } else if layout.windows {
            bin.concat(";").concat(ambient)
        } else {
            bin.concat(":").concat(ambient)
        }
    }
}

} // verus!
