//! Where the binary goes on disk.
//!
//! A path is held as its components below the user's home directory,
//! outermost first. The library never learns where that directory is: whoever
//! touches the file system joins the components onto it.

use vstd::prelude::*;

verus! {

/// The directory every project is installed under, directly below the
/// user's home directory.
pub const ROOT_DIR: &'static str = ".lsm";

/// The place of one installed binary: a directory, and a file directly in it.
/// Creating `directory` with its parents is therefore all that writing the
/// file needs.
#[derive(Debug, PartialEq, Eq)]
pub struct InstallTarget {
    pub directory: Vec<String>,
    pub file_name: String,
}

/// What the contracts see of an `InstallTarget`.
pub struct InstallTargetView {
    pub directory: Seq<Seq<char>>,
    pub file_name: Seq<char>,
}

impl InstallTargetView {
    /// The file's path: the directory's components, then the file's name.
    pub open spec fn file_path(self) -> Seq<Seq<char>> {
        self.directory.push(self.file_name)
    }

    /// The file lies directly in the directory: its path without the last
    /// component is the directory's.
    pub proof fn lemma_file_lies_in_directory(self)
        ensures
            self.file_path().len() == self.directory.len() + 1,
            self.file_path().drop_last() == self.directory,
            self.file_path().last() == self.file_name,
    {
        assert(self.file_path().drop_last() =~= self.directory);
    }
}

impl View for InstallTarget {
    type V = InstallTargetView;

    open spec fn view(&self) -> InstallTargetView {
        InstallTargetView { directory: self.directory.deep_view(), file_name: self.file_name@ }
    }
}

/// A copy of `path`, component by component.
fn clone_path(path: &Vec<String>) -> (copy: Vec<String>)
    ensures
        copy.deep_view() == path.deep_view(),
{
    let mut copy: Vec<String> = Vec::new();
    let mut i: usize = 0;
    while i < path.len()
        invariant
            i <= path.len(),
            copy@.len() == i,
            forall|k: int| 0 <= k < i ==> (#[trigger] copy@[k])@ == path@[k]@,
        decreases path.len() - i,
    {
        copy.push(path[i].clone());
        i += 1;
    }
    assert(copy.deep_view() =~= path.deep_view());
    copy
}

impl InstallTarget {
    /// The components of the file's path below the home directory.
    pub fn file_path(&self) -> (path: Vec<String>)
        ensures
            path.deep_view() == self@.file_path(),
    {
        let mut path = clone_path(&self.directory);
        path.push(self.file_name.clone());
        assert(path.deep_view() =~= self@.file_path());
        path
    }
}

} // verus!
