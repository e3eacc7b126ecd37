//! The directory crawler: a level-synchronized breadth-first traversal that
//! classifies every visited directory into a [`DirDescriptor`].
//!
//! Reading the filesystem is a capability: the crawler asks a
//! [`DirectoryReader`] for the stat data of a root and for the listing of one
//! whole frontier level at a time, and decides everything else itself —
//! which paths are crawlable, which entry is the marker, which entries are
//! sub-directories, and which directories have already been visited.

use vstd::prelude::*;

verus! {

use crate::path::{DirPath, PathModel, spec_ends_with, spec_path_views};

/// What a directory entry is, as three stat classifications: `is_dir` follows
/// symlinks (the entry leads to a directory), while `is_file` and
/// `is_symlink` describe the entry itself without following it.
pub struct DirEntryInfo {
    pub name: String,
    pub is_dir: bool,
    pub is_file: bool,
    pub is_symlink: bool,
}

/// A list of directory entries.
pub type DirEntryList = Vec<DirEntryInfo>;

/// A list of paths.
pub type PathList = Vec<DirPath>;

/// The stat classification of a path: whether it leads to a directory
/// (following symlinks), and whether it is itself a symlink.
pub struct PathStat {
    pub is_dir: bool,
    pub is_symlink: bool,
}

/// The outcome of successfully visiting one directory: its canonical path
/// and its direct entries.
pub struct VisitData {
    pub canonical: DirPath,
    pub entries: DirEntryList,
}

/// Read access to the filesystem, supplied by the embedding program.
///
/// `visit_all` reads one whole frontier level: element `i` of its result
/// belongs to directory `i`, `None` standing for a failed visit (permission
/// error, vanished directory), which the crawler skips. Implementations may
/// read the level concurrently; the crawler never starts the next level
/// before this call returns, which keeps the already-visited check free of
/// races. Nothing is assumed about the returned data: the crawler's
/// guarantees hold for every possible answer.
pub trait DirectoryReader {
    /// The stat classification of one path.
    fn stat(&self, dir: &DirPath) -> PathStat;

    /// Canonicalizes and lists every directory of one frontier level.
    fn visit_all(&self, dirs: &PathList) -> Vec<Option<VisitData>>;
}

/// The path of the child named `name` inside the directory `p`.
pub open spec fn spec_child_path(p: PathModel, name: Seq<char>) -> PathModel {
    PathModel { absolute: p.absolute, parts: p.parts.push(name) }
}

/// Whether `p` ends with one of the configured exclude suffixes.
pub open spec fn spec_excluded_by(excludes: Seq<PathModel>, p: PathModel) -> bool {
    exists|i: int| 0 <= i < excludes.len() && spec_ends_with(p, #[trigger] excludes[i])
}

/// The crawlability policy for a path `p` with stat data `is_dir` and
/// `is_symlink`: it must lead to a directory, must not end with an excluded
/// suffix, and, unless symlinks are dereferenced, must not itself be a
/// symlink.
pub open spec fn spec_crawlable_by(
    excludes: Seq<PathModel>,
    dereference_symlinks: bool,
    p: PathModel,
    is_dir: bool,
    is_symlink: bool,
) -> bool {
    is_dir && !spec_excluded_by(excludes, p) && (dereference_symlinks || !is_symlink)
}

/// Whether the entry `e` of directory `dir` is classified as a crawlable
/// sub-directory.
pub open spec fn spec_subdir_entry(
    excludes: Seq<PathModel>,
    dereference_symlinks: bool,
    dir: PathModel,
    e: DirEntryInfo,
) -> bool {
    spec_crawlable_by(
        excludes,
        dereference_symlinks,
        spec_child_path(dir, e.name@),
        e.is_dir,
        e.is_symlink,
    )
}

/// Whether the entry `e` of directory `dir` counts as the marker file: a
/// plain file named `marker_name` that was not classified as a
/// sub-directory.
pub open spec fn spec_marker_entry(
    excludes: Seq<PathModel>,
    dereference_symlinks: bool,
    marker_name: Seq<char>,
    dir: PathModel,
    e: DirEntryInfo,
) -> bool {
    !spec_subdir_entry(excludes, dereference_symlinks, dir, e) && e.name@ == marker_name
        && e.is_file
}

/// The classification record of one visited directory: its canonical path,
/// its direct entries, the index of the marker file among them when exactly
/// such an entry was found, and the indexes of the crawlable
/// sub-directories. A descriptor is immutable once produced.
pub struct DirDescriptor {
    pub dir: DirPath,
    pub children: DirEntryList,
    pub marker_file_child_index: Option<usize>,
    pub subdir_child_indexes: Vec<usize>,
}

/// Whether the descriptor `d` is classified exactly as the crawl
/// configuration demands: the marker index points at the first marker entry
/// (or is absent when there is none), and the sub-directory indexes list, in
/// increasing order, exactly the entries classified as crawlable
/// sub-directories.
pub open spec fn spec_classified(
    excludes: Seq<PathModel>,
    dereference_symlinks: bool,
    marker_name: Seq<char>,
    d: DirDescriptor,
) -> bool {
    &&& match d.marker_file_child_index {
        Option::Some(m) => m < d.children@.len() && spec_marker_entry(
            excludes,
            dereference_symlinks,
            marker_name,
            d.dir@,
            d.children@[m as int],
        ) && forall|j: int|
            0 <= j < m ==> !spec_marker_entry(
                excludes,
                dereference_symlinks,
                marker_name,
                d.dir@,
                #[trigger] d.children@[j],
            ),
        Option::None => forall|j: int|
            0 <= j < d.children@.len() ==> !spec_marker_entry(
                excludes,
                dereference_symlinks,
                marker_name,
                d.dir@,
                #[trigger] d.children@[j],
            ),
    }
    &&& forall|a: int, b: int|
        0 <= a < b < d.subdir_child_indexes@.len() ==> #[trigger] d.subdir_child_indexes@[a]
            < #[trigger] d.subdir_child_indexes@[b]
    &&& forall|a: int|
        0 <= a < d.subdir_child_indexes@.len() ==> #[trigger] d.subdir_child_indexes@[a]
            < d.children@.len() && spec_subdir_entry(
            excludes,
            dereference_symlinks,
            d.dir@,
            d.children@[d.subdir_child_indexes@[a] as int],
        )
    &&& forall|j: int|
        0 <= j < d.children@.len() && spec_subdir_entry(
            excludes,
            dereference_symlinks,
            d.dir@,
            #[trigger] d.children@[j],
        ) ==> exists|a: int|
            0 <= a < d.subdir_child_indexes@.len() && #[trigger] d.subdir_child_indexes@[a] == j
}

impl DirDescriptor {
    /// The marker entry, when one was found.
    pub fn get_marker_direntry(&self) -> (r: Option<&DirEntryInfo>)
        requires
            self.marker_file_child_index matches Option::Some(m) ==> m < self.children.len(),
        ensures
            match self.marker_file_child_index {
                Option::Some(m) => r matches Option::Some(e) && *e == self.children[m as int],
                Option::None => r is None,
            },
    {
        match self.marker_file_child_index {
            Option::Some(index) => Option::Some(&self.children[index]),
            Option::None => Option::None,
        }
    }

    /// Whether a marker file is present.
    pub fn has_marker(&self) -> (r: bool)
        ensures
            r == (self.marker_file_child_index is Some),
    {
        match self.marker_file_child_index {
            Option::Some(_) => true,
            Option::None => false,
        }
    }

    /// Whether at least one crawlable sub-directory is present; a directory
    /// without one is a leaf.
    pub fn has_children(&self) -> (r: bool)
        ensures
            r == (self.subdir_child_indexes@.len() > 0),
    {
        self.subdir_child_indexes.len() > 0
    }

    /// The number of direct entries of any kind.
    pub fn get_child_count(&self) -> (n: usize)
        ensures
            n == self.children@.len(),
    {
        self.children.len()
    }

    /// The number of crawlable sub-directories.
    pub fn get_sub_direntry_count(&self) -> (n: usize)
        ensures
            n == self.subdir_child_indexes@.len(),
    {
        self.subdir_child_indexes.len()
    }

    /// The entries classified as crawlable sub-directories, in entry order.
    pub fn get_sub_direntries(&self) -> (r: Vec<&DirEntryInfo>)
        requires
            forall|a: int|
                0 <= a < self.subdir_child_indexes@.len()
                    ==> #[trigger] self.subdir_child_indexes@[a] < self.children@.len(),
        ensures
            r@.len() == self.subdir_child_indexes@.len(),
            forall|a: int|
                0 <= a < r@.len() ==> *(#[trigger] r@[a]) == self.children@[self.subdir_child_indexes@[a] as int],
    {
        let mut r: Vec<&DirEntryInfo> = Vec::new();
        let mut a: usize = 0;
        while a < self.subdir_child_indexes.len()
            invariant
                0 <= a <= self.subdir_child_indexes@.len(),
                forall|x: int|
                    0 <= x < self.subdir_child_indexes@.len()
                        ==> #[trigger] self.subdir_child_indexes@[x] < self.children@.len(),
                r@.len() == a,
                forall|x: int|
                    0 <= x < a ==> *(#[trigger] r@[x]) == self.children@[self.subdir_child_indexes@[x] as int],
            decreases self.subdir_child_indexes@.len() - a,
        {
            r.push(&self.children[self.subdir_child_indexes[a]]);
            a += 1;
        }
        r
    }

    /// The full paths of the crawlable sub-directories, in entry order.
    pub fn get_sub_dir_paths(&self) -> (r: PathList)
        requires
            forall|a: int|
                0 <= a < self.subdir_child_indexes@.len()
                    ==> #[trigger] self.subdir_child_indexes@[a] < self.children@.len(),
        ensures
            r@.len() == self.subdir_child_indexes@.len(),
            forall|a: int|
                0 <= a < r@.len() ==> (#[trigger] r@[a])@ == spec_child_path(
                    self.dir@,
                    self.children@[self.subdir_child_indexes@[a] as int].name@,
                ),
            spec_path_views(r) == spec_sub_dir_paths(*self),
    {
        let mut r: PathList = Vec::new();
        let mut a: usize = 0;
        while a < self.subdir_child_indexes.len()
            invariant
                0 <= a <= self.subdir_child_indexes@.len(),
                forall|x: int|
                    0 <= x < self.subdir_child_indexes@.len()
                        ==> #[trigger] self.subdir_child_indexes@[x] < self.children@.len(),
                r@.len() == a,
                forall|x: int|
                    0 <= x < a ==> (#[trigger] r@[x])@ == spec_child_path(
                        self.dir@,
                        self.children@[self.subdir_child_indexes@[x] as int].name@,
                    ),
            decreases self.subdir_child_indexes@.len() - a,
        {
            let entry_index = self.subdir_child_indexes[a];
            r.push(self.dir.child(&self.children[entry_index].name));
            a += 1;
        }
        proof {
            assert(spec_path_views(r) =~= spec_sub_dir_paths(*self));
        }
        r
    }
}

/// The full paths of the crawlable sub-directories of `d`, in entry order.
pub open spec fn spec_sub_dir_paths(d: DirDescriptor) -> Seq<PathModel> {
    Seq::new(
        d.subdir_child_indexes@.len(),
        |a: int| spec_child_path(d.dir@, d.children@[d.subdir_child_indexes@[a] as int].name@),
    )
}

/// Whether `list` already holds a descriptor for the canonical path `dir`.
pub open spec fn spec_contains_dir(list: Seq<DirDescriptor>, dir: PathModel) -> bool {
    exists|k: int| 0 <= k < list.len() && (#[trigger] list[k]).dir@ == dir
}

/// How one visit outcome changes the crawl state `(visited, next)`: a failed
/// visit, like one whose canonical path was already visited, changes
/// nothing; any other appends exactly one descriptor — classified, carrying
/// the visit's canonical path and entries — and schedules exactly its
/// crawlable sub-directories.
pub open spec fn spec_absorbed(
    excludes: Seq<PathModel>,
    dereference_symlinks: bool,
    marker_name: Seq<char>,
    visited0: Seq<DirDescriptor>,
    next0: Seq<PathModel>,
    visit: Option<VisitData>,
    visited1: Seq<DirDescriptor>,
    next1: Seq<PathModel>,
) -> bool {
    match visit {
        Option::Some(v) => if spec_contains_dir(visited0, v.canonical@) {
            visited1 == visited0 && next1 == next0
        } else {
            &&& visited1.len() == visited0.len() + 1
            &&& visited1.subrange(0, visited0.len() as int) == visited0
            &&& visited1.last().dir@ == v.canonical@
            &&& visited1.last().children@ == v.entries@
            &&& spec_classified(excludes, dereference_symlinks, marker_name, visited1.last())
            &&& next1 == next0 + spec_sub_dir_paths(visited1.last())
        },
        Option::None => visited1 == visited0 && next1 == next0,
    }
}

/// A list of directory descriptors; the crawl result keeps one per canonical
/// path.
pub type DirDescriptorList = Vec<DirDescriptor>;

/// The crawl configuration: path suffixes to prune, the symlink policy, and
/// the marker file name.
pub struct FileSystemCrawler {
    pub exclude_dirs: PathList,
    pub dereference_symlinks: bool,
    pub marker_name: String,
}

impl FileSystemCrawler {
    /// The exclude suffixes as mathematical values.
    pub open spec fn spec_excludes(&self) -> Seq<PathModel> {
        Seq::new(self.exclude_dirs@.len(), |i: int| self.exclude_dirs@[i]@)
    }

    /// Whether `p` ends with one of the configured exclude suffixes.
    fn is_excluded(&self, dir: &DirPath) -> (r: bool)
        ensures
            r == spec_excluded_by(self.spec_excludes(), dir@),
    {
        let mut i: usize = 0;
        while i < self.exclude_dirs.len()
            invariant
                0 <= i <= self.exclude_dirs@.len(),
                forall|j: int| 0 <= j < i ==> !spec_ends_with(dir@, #[trigger] self.spec_excludes()[j]),
            decreases self.exclude_dirs@.len() - i,
        {
            if dir.ends_with(&self.exclude_dirs[i]) {
                proof {
                    assert(spec_ends_with(dir@, self.spec_excludes()[i as int]));
                }
                return true;
            }
            i += 1;
        }
        false
    }

    /// The crawlability test for a path with the given stat data.
    pub fn is_crawlable_dir(&self, dir: &DirPath, stat: &PathStat) -> (r: bool)
        ensures
            r == spec_crawlable_by(
                self.spec_excludes(),
                self.dereference_symlinks,
                dir@,
                stat.is_dir,
                stat.is_symlink,
            ),
    {
        if !stat.is_dir {
            return false;
        }
        if self.is_excluded(dir) {
            return false;
        }
        self.dereference_symlinks || !stat.is_symlink
    }

    /// Classifies one visited directory: every entry that is itself a
    /// crawlable directory becomes a sub-directory index; among the others,
    /// the first plain file named like the marker becomes the marker index.
    pub fn describe_dir(&self, canonical: DirPath, children: DirEntryList) -> (d: DirDescriptor)
        ensures
            d.dir == canonical,
            d.children == children,
            spec_classified(self.spec_excludes(), self.dereference_symlinks, self.marker_name@, d),
    {
        let ghost excludes = self.spec_excludes();
        let ghost deref = self.dereference_symlinks;
        let ghost marker = self.marker_name@;
        let mut marker_file_child_index: Option<usize> = Option::None;
        let mut subdir_child_indexes: Vec<usize> = Vec::new();
        let mut i: usize = 0;
        while i < children.len()
            invariant
                0 <= i <= children@.len(),
                excludes == self.spec_excludes(),
                deref == self.dereference_symlinks,
                marker == self.marker_name@,
                match marker_file_child_index {
                    Option::Some(m) => m < i && spec_marker_entry(
                        excludes,
                        deref,
                        marker,
                        canonical@,
                        children@[m as int],
                    ) && forall|j: int|
                        0 <= j < m ==> !spec_marker_entry(
                            excludes,
                            deref,
                            marker,
                            canonical@,
                            #[trigger] children@[j],
                        ),
                    Option::None => forall|j: int|
                        0 <= j < i ==> !spec_marker_entry(
                            excludes,
                            deref,
                            marker,
                            canonical@,
                            #[trigger] children@[j],
                        ),
                },
                forall|a: int, b: int|
                    0 <= a < b < subdir_child_indexes@.len()
                        ==> #[trigger] subdir_child_indexes@[a] < #[trigger] subdir_child_indexes@[b],
                forall|a: int|
                    0 <= a < subdir_child_indexes@.len() ==> #[trigger] subdir_child_indexes@[a]
                        < i && spec_subdir_entry(
                        excludes,
                        deref,
                        canonical@,
                        children@[subdir_child_indexes@[a] as int],
                    ),
                forall|j: int|
                    0 <= j < i && spec_subdir_entry(excludes, deref, canonical@, #[trigger] children@[j])
                        ==> exists|a: int|
                        0 <= a < subdir_child_indexes@.len() && #[trigger] subdir_child_indexes@[a]
                            == j,
            decreases children@.len() - i,
        {
            let child_path = canonical.child(&children[i].name);
            let child_stat = PathStat { is_dir: children[i].is_dir, is_symlink: children[i].is_symlink };
            if self.is_crawlable_dir(&child_path, &child_stat) {
                let ghost pre = subdir_child_indexes@;
                subdir_child_indexes.push(i);
                proof {
                    assert forall|j: int|
                        0 <= j < i + 1 && spec_subdir_entry(
                            excludes,
                            deref,
                            canonical@,
                            #[trigger] children@[j],
                        ) implies exists|a: int|
                        0 <= a < subdir_child_indexes@.len() && #[trigger] subdir_child_indexes@[a]
                            == j by {
                        if j == i {
                            assert(subdir_child_indexes@[pre.len() as int] == i);
                        } else {
                            let a = choose|a: int| 0 <= a < pre.len() && #[trigger] pre[a] == j;
                            assert(subdir_child_indexes@[a] == j);
                        }
                    }
                }
            } else {
                let is_marker_candidate = match marker_file_child_index {
                    Option::Some(_) => false,
                    Option::None => true,
                };
                if is_marker_candidate {
                    if children[i].name == self.marker_name && children[i].is_file {
                        marker_file_child_index = Option::Some(i);
                    }
                }
            }
            i += 1;
        }
        DirDescriptor { dir: canonical, children, marker_file_child_index, subdir_child_indexes }
    }

    /// Merges one visit outcome into the crawl state `(visited, next)`,
    /// exactly as [`spec_absorbed`] describes: a failed or already-absorbed
    /// visit changes nothing, any other appends its classified descriptor to
    /// `visited` and schedules its crawlable sub-directories on `next`.
    pub fn absorb_visit(
        &self,
        visited: &mut DirDescriptorList,
        next: &mut PathList,
        visit: Option<VisitData>,
    )
        ensures
            spec_absorbed(
                self.spec_excludes(),
                self.dereference_symlinks,
                self.marker_name@,
                old(visited)@,
                spec_path_views(*old(next)),
                visit,
                final(visited)@,
                spec_path_views(*final(next)),
            ),
    {
        match visit {
            Option::Some(data) => {
                if !contains_dir(visited, &data.canonical) {
                    let ghost visited0 = visited@;
                    let ghost next0 = spec_path_views(*next);
                    let descriptor = self.describe_dir(data.canonical, data.entries);
                    let ghost sub_views = spec_sub_dir_paths(descriptor);
                    let mut sub_paths = descriptor.get_sub_dir_paths();
                    next.append(&mut sub_paths);
                    visited.push(descriptor);
                    proof {
                        assert(visited@.subrange(0, visited0.len() as int) =~= visited0);
                        assert(spec_path_views(*next) =~= next0 + sub_views);
                    }
                }
            },
            Option::None => {
            },
        }
    }

    /// The level-synchronized breadth-first crawl.
    ///
    /// Non-crawlable roots are silently dropped. Each level's directories are
    /// read through one `visit_all` call; failed visits contribute nothing,
    /// and a directory whose canonical path was already visited is skipped,
    /// so the result holds exactly one descriptor per canonical path (this is
    /// what keeps a directory reachable both directly and through a
    /// dereferenced symlink from appearing twice). Every descriptor in the
    /// result is classified exactly as the configuration demands; in
    /// particular no entry with an excluded path suffix, and no symlink
    /// unless dereferencing is on, is ever listed as a sub-directory. With
    /// no roots to visit there is nothing to describe: the result is empty.
    pub fn crawl_dirs<R: DirectoryReader>(&self, reader: &R, dirs_to_visit: PathList) -> (r:
        DirDescriptorList)
        ensures
            forall|k: int|
                0 <= k < r@.len() ==> spec_classified(
                    self.spec_excludes(),
                    self.dereference_symlinks,
                    self.marker_name@,
                    #[trigger] r@[k],
                ),
            forall|k: int, l: int| 0 <= k < l < r@.len() ==> r@[k].dir@ != r@[l].dir@,
            dirs_to_visit@.len() == 0 ==> r@.len() == 0,
    {
        let ghost excludes = self.spec_excludes();
        let ghost deref = self.dereference_symlinks;
        let ghost marker = self.marker_name@;

        let mut frontier: PathList = Vec::new();
        let mut i: usize = 0;
        while i < dirs_to_visit.len()
            invariant
                0 <= i <= dirs_to_visit@.len(),
                frontier@.len() <= i,
            decreases dirs_to_visit@.len() - i,
        {
            let stat = reader.stat(&dirs_to_visit[i]);
            if self.is_crawlable_dir(&dirs_to_visit[i], &stat) {
                frontier.push(dirs_to_visit[i].clone());
            }
            i += 1;
        }

        let mut visited: DirDescriptorList = Vec::new();
        // The level counter both bounds the loop for the termination check
        // and caps the traversal depth far beyond any real directory tree.
        let mut fuel: usize = usize::MAX;
        while frontier.len() > 0 && fuel > 0
            invariant
                excludes == self.spec_excludes(),
                deref == self.dereference_symlinks,
                marker == self.marker_name@,
                forall|k: int|
                    0 <= k < visited@.len() ==> spec_classified(
                        excludes,
                        deref,
                        marker,
                        #[trigger] visited@[k],
                    ),
                forall|k: int, l: int|
                    0 <= k < l < visited@.len() ==> visited@[k].dir@ != visited@[l].dir@,
                dirs_to_visit@.len() == 0 ==> frontier@.len() == 0 && visited@.len() == 0,
            decreases fuel,
        {
            fuel -= 1;
            let mut visits = reader.visit_all(&frontier);
            let mut next: PathList = Vec::new();
            while visits.len() > 0
                invariant
                    excludes == self.spec_excludes(),
                    deref == self.dereference_symlinks,
                    marker == self.marker_name@,
                    forall|k: int|
                        0 <= k < visited@.len() ==> spec_classified(
                            excludes,
                            deref,
                            marker,
                            #[trigger] visited@[k],
                        ),
                    forall|k: int, l: int|
                        0 <= k < l < visited@.len() ==> visited@[k].dir@ != visited@[l].dir@,
                decreases visits@.len(),
            {
                let visit = visits.pop();
                match visit {
                    Option::Some(v) => {
                        let ghost gv = v;
                        let ghost visited0 = visited@;
                        self.absorb_visit(&mut visited, &mut next, v);
                        proof {
                            if visited@.len() == visited0.len() + 1 {
                                let d = visited@.last();
                                assert forall|k: int|
                                    0 <= k < visited0.len() implies visited@[k] == visited0[k] by {
                                    assert(visited@.subrange(0, visited0.len() as int)[k]
                                        == visited@[k]);
                                }
                                match gv {
                                    Option::Some(data) => {
                                        assert(!spec_contains_dir(visited0, data.canonical@));
                                        assert(d.dir@ == data.canonical@);
                                        assert(spec_classified(excludes, deref, marker, d));
                                        assert forall|k: int|
                                            0 <= k < visited@.len() implies spec_classified(
                                            excludes,
                                            deref,
                                            marker,
                                            #[trigger] visited@[k],
                                        ) by {
                                            if k < visited0.len() {
                                                assert(visited@[k] == visited0[k]);
                                            } else {
                                                assert(visited@[k] == d);
                                            }
                                        }
                                        assert forall|k: int, l: int|
                                            0 <= k < l < visited@.len() implies visited@[k].dir@
                                            != visited@[l].dir@ by {
                                            if l < visited0.len() {
                                                assert(visited@[k] == visited0[k]);
                                                assert(visited@[l] == visited0[l]);
                                                assert(visited0[k].dir@ != visited0[l].dir@);
                                            } else {
                                                assert(visited@[k] == visited0[k]);
                                                assert(visited@[l] == d);
                                            }
                                        }
                                    },
                                    Option::None => {
                                        assert(false);
                                    },
                                }
                            } else {
                                assert(visited@ == visited0);
                            }
                        }
                    },
                    Option::None => {
                    },
                }
            }
            frontier = next;
        }
        visited
    }
}

/// Whether `list` already holds a descriptor for the canonical path `dir`.
fn contains_dir(list: &DirDescriptorList, dir: &DirPath) -> (r: bool)
    ensures
        r == spec_contains_dir(list@, dir@),
{
    let mut k: usize = 0;
    while k < list.len()
        invariant
            0 <= k <= list@.len(),
            forall|j: int| 0 <= j < k ==> (#[trigger] list@[j]).dir@ != dir@,
        decreases list@.len() - k,
    {
        if &list[k].dir == dir {
            return true;
        }
        k += 1;
    }
    false
}

/// An excluded path is never crawlable, whatever its stat data says: this is
/// what keeps a directory with an excluded suffix, and with it everything
/// beneath, out of every crawl result.
pub proof fn lemma_excluded_never_crawlable(
    excludes: Seq<PathModel>,
    dereference_symlinks: bool,
    p: PathModel,
    is_dir: bool,
    is_symlink: bool,
)
    requires
        spec_excluded_by(excludes, p),
    ensures
        !spec_crawlable_by(excludes, dereference_symlinks, p, is_dir, is_symlink),
{
}

/// With symlink dereferencing off, a symlink is never crawlable, whatever it
/// points at: it is neither scheduled as a root nor classified as a
/// sub-directory, so it never contributes a descriptor.
pub proof fn lemma_symlink_never_crawlable_without_dereference(
    excludes: Seq<PathModel>,
    p: PathModel,
    is_dir: bool,
)
    ensures
        !spec_crawlable_by(excludes, false, p, is_dir, true),
{
}

/// Pruning law: a classified descriptor never lists an entry as a
/// sub-directory when the entry's full path ends with an excluded suffix,
/// nor — unless symlinks are dereferenced — when the entry is a symlink. The
/// crawl schedules exactly the listed sub-directories, so neither kind of
/// directory, nor anything beneath it, is ever visited through this
/// descriptor.
pub proof fn lemma_classified_prunes(
    excludes: Seq<PathModel>,
    dereference_symlinks: bool,
    marker_name: Seq<char>,
    d: DirDescriptor,
    a: int,
)
    requires
        spec_classified(excludes, dereference_symlinks, marker_name, d),
        0 <= a < d.subdir_child_indexes@.len(),
    ensures
        !spec_excluded_by(
            excludes,
            spec_child_path(d.dir@, d.children@[d.subdir_child_indexes@[a] as int].name@),
        ),
        !dereference_symlinks ==> !d.children@[d.subdir_child_indexes@[a] as int].is_symlink,
{
    assert(spec_subdir_entry(
        excludes,
        dereference_symlinks,
        d.dir@,
        d.children@[d.subdir_child_indexes@[a] as int],
    ));
}

/// Exclusion law at the crawl level: absorbing a visit outcome never
/// schedules a path that ends with an excluded suffix, and — unless symlinks
/// are dereferenced — never one whose entry is a symlink. Every path the
/// crawl ever visits beyond the filtered roots is scheduled this way, so no
/// excluded directory, and nothing beneath one, is ever entered.
pub proof fn lemma_absorbed_schedules_no_excluded(
    excludes: Seq<PathModel>,
    dereference_symlinks: bool,
    marker_name: Seq<char>,
    visited0: Seq<DirDescriptor>,
    next0: Seq<PathModel>,
    visit: Option<VisitData>,
    visited1: Seq<DirDescriptor>,
    next1: Seq<PathModel>,
    i: int,
)
    requires
        spec_absorbed(
            excludes,
            dereference_symlinks,
            marker_name,
            visited0,
            next0,
            visit,
            visited1,
            next1,
        ),
        next0.len() <= i < next1.len(),
    ensures
        !spec_excluded_by(excludes, next1[i]),
{
    let d = visited1.last();
    let a = i - next0.len();
    assert(next1[i] == spec_sub_dir_paths(d)[a]);
    lemma_classified_prunes(excludes, dereference_symlinks, marker_name, d, a);
}

/// The marker entry of a classified descriptor is never also listed as a
/// sub-directory: a marker is always a file, never a directory.
pub proof fn lemma_marker_never_subdir(
    excludes: Seq<PathModel>,
    dereference_symlinks: bool,
    marker_name: Seq<char>,
    d: DirDescriptor,
    m: usize,
)
    requires
        spec_classified(excludes, dereference_symlinks, marker_name, d),
        d.marker_file_child_index == Option::Some(m),
    ensures
        forall|a: int|
            0 <= a < d.subdir_child_indexes@.len() ==> #[trigger] d.subdir_child_indexes@[a] != m,
{
    assert forall|a: int|
        0 <= a < d.subdir_child_indexes@.len() implies #[trigger] d.subdir_child_indexes@[a]
        != m by {
        if d.subdir_child_indexes@[a] == m {
            assert(spec_subdir_entry(excludes, dereference_symlinks, d.dir@, d.children@[m as int]));
            assert(spec_marker_entry(
                excludes,
                dereference_symlinks,
                marker_name,
                d.dir@,
                d.children@[m as int],
            ));
        }
    }
}

} // verus!
