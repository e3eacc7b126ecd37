//! The reconciliation commands and the context they run against.
//!
//! Each command crawls its root directories once and then makes one or two
//! independent passes over the resulting descriptors, applying a pure
//! predicate per descriptor and issuing at most one mutation through the
//! context for each hit. Mutation failures are directory-scoped: they are
//! reported through the notifier and never fail the command.

use vstd::prelude::*;

pub mod clean;
pub mod context;
pub mod list;
pub mod purge;
pub mod update;

verus! {

use crate::Error;
use crate::commands::context::Context;

/// A reconciliation command: something that can be executed once against a
/// context.
pub trait Command<C: Context> {
    /// Runs the command. Directory-scoped failures are recovered and
    /// reported; only whole-run failures surface in the result.
    fn execute(&self, ctx: &C) -> Result<(), Error>;
}

/// A command paired with the decision whether to run it for real or as a dry
/// run.
pub enum Execution<T> {
    DryRun(T),
    Run(T),
}

} // verus!
