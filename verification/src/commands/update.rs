//! The Update command: reconcile markers with leaf status.

use vstd::prelude::*;

verus! {

use crate::Error;
use crate::commands::Command;
use crate::commands::context::{Config, Context};
use crate::fscrawling::{DirDescriptor, PathList};

/// Creates the marker in every leaf directory that lacks one and deletes the
/// marker from every directory that is no longer a leaf.
#[derive(Debug)]
pub struct Update {
    pub create_hook: String,
    pub delete_hook: String,
    pub dry_run: bool,
    pub marker_text: String,
    pub root_dirs: PathList,
    pub substitute_variables: bool,
}

impl Update {
    /// An `Update` of the current directory, with empty marker text, no
    /// hooks, and variable substitution on, running for real.
    pub fn new() -> (r: Update)
        ensures
            r.create_hook@ == Seq::<char>::empty(),
            r.delete_hook@ == Seq::<char>::empty(),
            !r.dry_run,
            r.marker_text@ == Seq::<char>::empty(),
            r.root_dirs@.len() == 1,
            !r.root_dirs@[0]@.absolute,
            r.root_dirs@[0]@.parts == seq!["."@],
            r.substitute_variables,
    {
        Update {
            create_hook: String::new(),
            delete_hook: String::new(),
            dry_run: false,
            marker_text: String::new(),
            root_dirs: Config::default_root_dirs(),
            substitute_variables: true,
        }
    }
}

/// The delete-pass predicate: a marker is present, yet the directory has at
/// least one sub-directory, so it is no longer a leaf.
pub open spec fn spec_needs_delete(d: DirDescriptor) -> bool {
    d.marker_file_child_index is Some && d.subdir_child_indexes@.len() > 0
}

/// The create-pass predicate: no marker is present and the directory has
/// zero sub-directories, so it is a leaf.
pub open spec fn spec_needs_create(d: DirDescriptor) -> bool {
    d.marker_file_child_index is None && d.subdir_child_indexes@.len() == 0
}

/// The delete-pass test.
pub fn needs_delete(d: &DirDescriptor) -> (r: bool)
    ensures
        r == spec_needs_delete(*d),
{
    d.has_marker() && d.has_children()
}

/// The create-pass test.
pub fn needs_create(d: &DirDescriptor) -> (r: bool)
    ensures
        r == spec_needs_create(*d),
{
    !d.has_marker() && !d.has_children()
}

/// Mutual exclusivity law: no descriptor ever satisfies the delete-pass and
/// the create-pass predicate at the same time — a directory cannot both have
/// and lack sub-directories — so the order of the two passes never matters
/// for which mutations are issued.
pub proof fn lemma_update_passes_mutually_exclusive(d: DirDescriptor)
    ensures
        !(spec_needs_delete(d) && spec_needs_create(d)),
{
}

/// Idempotence law: an Update run right after another one, with no
/// filesystem changes in between, issues no mutation.
///
/// Markers are plain files, so creating or deleting one never changes which
/// entries are sub-directories: a directory's second descriptor has the same
/// sub-directory count as its first, and its marker is present exactly when
/// the directory is a leaf — present where the first run created or kept it,
/// absent where the first run deleted it or never created one. For such a
/// descriptor neither pass predicate holds.
pub proof fn lemma_update_idempotent(first: DirDescriptor, second: DirDescriptor)
    requires
        second.subdir_child_indexes@.len() == first.subdir_child_indexes@.len(),
        (second.marker_file_child_index is Some) == (if spec_needs_delete(first) {
            false
        } else if spec_needs_create(first) {
            true
        } else {
            first.marker_file_child_index is Some
        }),
    ensures
        !spec_needs_delete(second),
        !spec_needs_create(second),
{
}

impl<C: Context> Command<C> for Update {
    /// Two passes over one crawl snapshot, in this fixed order: first delete
    /// the marker of every non-leaf that has one, then create the marker in
    /// every leaf that lacks one. Mutation failures are reported per
    /// directory and never fail the command, so the result is always
    /// success.
    fn execute(&self, ctx: &C) -> (r: Result<(), Error>)
        ensures
            r is Ok,
    {
        let descriptors = ctx.crawl_dirs(&self.root_dirs);

        let mut i: usize = 0;
        while i < descriptors.len()
            invariant
                0 <= i <= descriptors@.len(),
            decreases descriptors@.len() - i,
        {
            if needs_delete(&descriptors[i]) {
                ctx.delete_marker(&descriptors[i].dir);
            }
            i += 1;
        }

        let mut j: usize = 0;
        while j < descriptors.len()
            invariant
                0 <= j <= descriptors@.len(),
            decreases descriptors@.len() - j,
        {
            if needs_create(&descriptors[j]) {
                ctx.create_marker(&descriptors[j].dir, &self.marker_text);
            }
            j += 1;
        }

        Result::Ok(())
    }
}

} // verus!
