//! The Purge command: declared, deliberately unimplemented.

use vstd::prelude::*;

verus! {

use crate::Error;
use crate::commands::Command;
use crate::commands::context::{Config, Context};
use crate::fscrawling::PathList;

/// Would delete the contents of marked directories; the feature is absent,
/// so executing it is always a hard failure, never a silent no-op.
#[derive(Debug)]
pub struct Purge {
    pub dry_run: bool,
    pub root_dirs: PathList,
}

impl Purge {
    /// A `Purge` of the current directory, running for real.
    pub fn new() -> (r: Purge)
        ensures
            !r.dry_run,
            r.root_dirs@.len() == 1,
            !r.root_dirs@[0]@.absolute,
            r.root_dirs@[0]@.parts == seq!["."@],
    {
        Purge { dry_run: false, root_dirs: Config::default_root_dirs() }
    }
}

impl<C: Context> Command<C> for Purge {
    /// Always fails, deterministically, with the not-implemented message.
    fn execute(&self, ctx: &C) -> (r: Result<(), Error>)
        ensures
            r matches Result::Err(e) && crate::spec_error_text(e) == "not implemented"@,
    {
        Result::Err(Error::Message("not implemented"))
    }
}

} // verus!
