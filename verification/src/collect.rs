//! The traversal record of one run.
//!
//! An outer layer walks the source tree and reports every directory and
//! file it finds; the collector keeps the ordered lists and the running
//! byte total.  The source root is always the first directory entry, so
//! that remapping the directory list recreates the whole tree shape under
//! the target root.  Per-entry read errors are the walker's to skip — a
//! single unreadable child must not abort the traversal — so nothing here
//! can fail.

use vstd::prelude::*;

verus! {

/// The ordered traversal record: directories (source root first), files,
/// and the total size in bytes of the files.
#[derive(Debug)]
pub struct Collector {
    dirs: Vec<Vec<u8>>,
    files: Vec<Vec<u8>>,
    total_size: u64,
}

impl Collector {
    /// The recorded directory paths, in discovery order.
    pub closed spec fn dirs_spec(&self) -> Seq<Seq<u8>> {
        self.dirs@.map_values(|d: Vec<u8>| d@)
    }

    /// The recorded file paths, in discovery order.
    pub closed spec fn files_spec(&self) -> Seq<Seq<u8>> {
        self.files@.map_values(|f: Vec<u8>| f@)
    }

    /// The running total of file sizes, in bytes.
    pub closed spec fn total_size_spec(&self) -> u64 {
        self.total_size
    }

    /// A fresh record: the source root is the one directory, no files,
    /// zero bytes.
    pub fn new(source_root: Vec<u8>) -> (c: Collector)
        ensures
            c.dirs_spec() =~= seq![source_root@],
            c.files_spec() =~= Seq::<Seq<u8>>::empty(),
            c.total_size_spec() == 0,
    {
        let mut dirs: Vec<Vec<u8>> = Vec::new();
        dirs.push(source_root);
        Collector { dirs, files: Vec::new(), total_size: 0 }
    }

    /// Records one directory.
    pub fn record_dir(&mut self, path: Vec<u8>)
        ensures
            final(self).dirs_spec() =~= old(self).dirs_spec().push(path@),
            final(self).files_spec() == old(self).files_spec(),
            final(self).total_size_spec() == old(self).total_size_spec(),
    {
        self.dirs.push(path);
    }

    /// Records one file and adds its size to the total.  The total
    /// saturates instead of overflowing; it serves throughput reporting,
    /// not correctness.
    pub fn record_file(&mut self, path: Vec<u8>, size: u64)
        ensures
            final(self).files_spec() =~= old(self).files_spec().push(path@),
            final(self).dirs_spec() == old(self).dirs_spec(),
            final(self).total_size_spec() == if old(self).total_size_spec() + size <= u64::MAX {
                old(self).total_size_spec() + size
            } else {
                u64::MAX as int
            },
    {
        self.files.push(path);
        self.total_size = if self.total_size <= u64::MAX - size {
            self.total_size + size
        } else {
            u64::MAX
        };
    }

    /// How many directories were recorded.
    pub fn dir_count(&self) -> (n: usize)
        ensures
            n == self.dirs_spec().len(),
    {
        self.dirs.len()
    }

    /// How many files were recorded.
    pub fn file_count(&self) -> (n: usize)
        ensures
            n == self.files_spec().len(),
    {
        self.files.len()
    }

    /// The recorded total size in bytes.
    pub fn total_size(&self) -> (n: u64)
        ensures
            n == self.total_size_spec(),
    {
        self.total_size
    }

    /// The recorded directory paths.
    pub fn dirs(&self) -> (r: &Vec<Vec<u8>>)
        ensures
            r@.map_values(|d: Vec<u8>| d@) == self.dirs_spec(),
    {
        &self.dirs
    }

    /// The recorded file paths.
    pub fn files(&self) -> (r: &Vec<Vec<u8>>)
        ensures
            r@.map_values(|f: Vec<u8>| f@) == self.files_spec(),
    {
        &self.files
    }
}

} // verus!
