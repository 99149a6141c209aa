//! The rules of a scan: which directories are entered and which files are
//! kept. The scan is a work list of directories still to be read; whoever
//! drives it reads each directory that [`ScanState::next_dir`] hands out and
//! passes its entries to [`ScanState::absorb`].
//!
//! A directory whose path equals an ignored path exactly is never entered,
//! so nothing under it is seen. A file is kept unless the extension filter
//! is non-empty and does not list the file's extension.
use vstd::prelude::*;

use crate::manifest::{Files, FileEntry, manifest_view};
use crate::text::{name_listed, views};

verus! {

/// One entry of a directory listing.
#[derive(Clone, Debug)]
pub struct ListedEntry {
    pub name: String,
    pub path: String,
    pub is_dir: bool,
    /// Modification time, in nanoseconds relative to the Unix epoch.
    pub time: i128,
    /// Extension without the dot; empty when there is none.
    pub extension: String,
}

/// The manifest entry that a listed file becomes.
pub open spec fn listed_file(e: ListedEntry) -> FileEntry {
    FileEntry { name: e.name@, path: e.path@, time: e.time as int, extension: e.extension@ }
}

/// Whether a file with extension `ext` is tracked under `filters`.
pub open spec fn extension_tracked(ext: Seq<char>, filters: Seq<Seq<char>>) -> bool {
    filters.len() == 0 || filters.contains(ext)
}

/// The subdirectories of a listing that are to be entered, in listing order.
pub open spec fn dirs_to_enter(listing: Seq<ListedEntry>, ignored: Seq<Seq<char>>) -> Seq<
    Seq<char>,
>
    decreases listing.len(),
{
    if listing.len() == 0 {
        Seq::empty()
    } else {
        let r = dirs_to_enter(listing.drop_last(), ignored);
        let e = listing.last();
        if e.is_dir && !ignored.contains(e.path@) {
            r.push(e.path@)
        } else {
            r
        }
    }
}

/// The files of a listing that the manifest keeps, in listing order.
pub open spec fn files_to_keep(listing: Seq<ListedEntry>, filters: Seq<Seq<char>>) -> Seq<
    FileEntry,
>
    decreases listing.len(),
{
    if listing.len() == 0 {
        Seq::empty()
    } else {
        let r = files_to_keep(listing.drop_last(), filters);
        let e = listing.last();
        if !e.is_dir && extension_tracked(e.extension@, filters) {
            r.push(listed_file(e))
        } else {
            r
        }
    }
}

/// Whether a file with extension `ext` is tracked under `filters`.
pub fn is_tracked_extension(ext: &String, filters: &Vec<String>) -> (r: bool)
    ensures
        r == extension_tracked(ext@, views(filters@)),
{
    filters.len() == 0 || name_listed(filters, ext)
}

/// A scan in progress: the directories still to read, and the files kept so
/// far.
pub struct ScanState {
    pub pending: Vec<String>,
    pub found: Vec<Files>,
}

impl ScanState {
    /// A scan of the tree at `root`; nothing is read when `root` itself is
    /// ignored.
    pub fn start(root: &String, ignored: &Vec<String>) -> (r: ScanState)
        ensures
            r.found@.len() == 0,
            views(ignored@).contains(root@) ==> r.pending@.len() == 0,
            !views(ignored@).contains(root@) ==> views(r.pending@) == seq![root@],
    {
        let mut pending: Vec<String> = Vec::new();
        if !name_listed(ignored, root) {
            pending.push(root.clone());
            assert(views(pending@) =~= seq![root@]);
        }
        ScanState { pending, found: Vec::new() }
    }

    /// Whether every directory that the scan reaches has been read.
    pub fn is_done(&self) -> (r: bool)
        ensures
            r == (self.pending@.len() == 0),
    {
        self.pending.len() == 0
    }

    /// Takes the next directory to read, the one added last.
    pub fn next_dir(&mut self) -> (r: Option<String>)
        ensures
            old(self).pending@.len() == 0 ==> r is None && final(self).pending@ == old(
                self,
            ).pending@,
            old(self).pending@.len() > 0 ==> r == Some(old(self).pending@.last())
                && final(self).pending@ == old(self).pending@.drop_last(),
            final(self).found@ == old(self).found@,
    {
        self.pending.pop()
    }

    /// Takes in the entries of one directory: the subdirectories that are
    /// not ignored join the work list, the tracked files join the manifest.
    pub fn absorb(&mut self, listing: Vec<ListedEntry>, ignored: &Vec<String>, filters: &Vec<String>)
        ensures
            views(final(self).pending@) == views(old(self).pending@) + dirs_to_enter(
                listing@,
                views(ignored@),
            ),
            manifest_view(final(self).found@) == manifest_view(old(self).found@) + files_to_keep(
                listing@,
                views(filters@),
            ),
    {
        let ghost iv = views(ignored@);
        let ghost fv = views(filters@);
        let ghost pending0 = views(self.pending@);
        let ghost found0 = manifest_view(self.found@);
        for e in it: listing
            invariant
                it.seq() == listing@,
                iv == views(ignored@),
                fv == views(filters@),
                views(self.pending@) == pending0 + dirs_to_enter(listing@.take(it.index() as int), iv),
                manifest_view(self.found@) == found0 + files_to_keep(
                    listing@.take(it.index() as int),
                    fv,
                ),
        {
            let ghost k = it.index() as int;
            let ghost dirs_before = views(self.pending@);
            let ghost files_before = manifest_view(self.found@);
            proof {
                assert(listing@.take(k + 1).drop_last() =~= listing@.take(k));
                assert(listing@.take(k + 1).last() == e);
            }
            if e.is_dir {
                if !name_listed(ignored, &e.path) {
                    self.pending.push(e.path);
                    assert(views(self.pending@) =~= dirs_before.push(e.path@));
                }
                assert(manifest_view(self.found@) =~= files_before);
            } else {
                if is_tracked_extension(&e.extension, filters) {
                    let f = Files { name: e.name, path: e.path, time: e.time, extension: e.extension };
                    self.found.push(f);
                    assert(manifest_view(self.found@) =~= files_before.push(listed_file(e)));
                }
                assert(views(self.pending@) =~= dirs_before);
            }
        }
        assert(listing@.take(listing@.len() as int) =~= listing@);
    }

    /// The manifest of the finished scan.
    pub fn finish(self) -> (r: Vec<Files>)
        ensures
            r@ == self.found@,
    {
        self.found
    }
}

} // verus!
