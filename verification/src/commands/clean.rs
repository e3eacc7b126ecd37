//! The Clean command: strip every marker.

use vstd::prelude::*;

verus! {

use crate::Error;
use crate::commands::Command;
use crate::commands::context::{Config, Context};
use crate::fscrawling::PathList;
use crate::path::{path_list_eq, spec_path_views};

/// Deletes every marker found beneath the root directories, irrespective of
/// leaf status: used to strip all markers before a fresh update, or for
/// teardown.
#[derive(Debug)]
pub struct Clean {
    pub delete_hook: String,
    pub dry_run: bool,
    pub root_dirs: PathList,
}

impl Clean {
    /// A `Clean` of the current directory, with no hook, running for real.
    pub fn new() -> (r: Clean)
        ensures
            r.delete_hook@ == Seq::<char>::empty(),
            !r.dry_run,
            r.root_dirs@.len() == 1,
            !r.root_dirs@[0]@.absolute,
            r.root_dirs@[0]@.parts == seq!["."@],
    {
        Clean {
            delete_hook: String::new(),
            dry_run: false,
            root_dirs: Config::default_root_dirs(),
        }
    }
}

impl PartialEq for Clean {
    fn eq(&self, other: &Clean) -> (r: bool) {
        (self.delete_hook == other.delete_hook && self.dry_run == other.dry_run && path_list_eq(
            &self.root_dirs,
            &other.root_dirs,
        ))
    }
}

impl vstd::std_specs::cmp::PartialEqSpecImpl for Clean {
    open spec fn obeys_eq_spec() -> bool {
        true
    }

    open spec fn eq_spec(&self, other: &Clean) -> bool {
        self.delete_hook@ == other.delete_hook@ && self.dry_run == other.dry_run
            && spec_path_views(self.root_dirs) == spec_path_views(other.root_dirs)
    }
}

impl<C: Context> Command<C> for Clean {
    /// One pass: for every descriptor whose marker is present, delete that
    /// marker. Mutation failures are reported per directory and never fail
    /// the command, so the result is always success.
    fn execute(&self, ctx: &C) -> (r: Result<(), Error>)
        ensures
            r is Ok,
    {
        let descriptors = ctx.crawl_dirs(&self.root_dirs);
        let mut i: usize = 0;
        while i < descriptors.len()
            invariant
                0 <= i <= descriptors@.len(),
            decreases descriptors@.len() - i,
        {
            if descriptors[i].has_marker() {
                ctx.delete_marker(&descriptors[i].dir);
            }
            i += 1;
        }
        Result::Ok(())
    }
}

} // verus!
