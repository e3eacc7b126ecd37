//! A session: one command bound to the context it will run against.

use vstd::prelude::*;

verus! {

use crate::Error;
use crate::application::ApplicationInfo;
use crate::commands::{Command, Execution};
use crate::commands::context::{Config, Context, DefaultContext};
use crate::fs::access::FileSystemAccess;
use crate::fscrawling::DirectoryReader;
use crate::notification::Notifier;
use crate::path::DirPath;

/// One command paired with one context; a process runs exactly one session.
pub struct Session<T, X> {
    pub command: T,
    pub context: X,
}

impl<T, R: DirectoryReader, F: FileSystemAccess, N: Notifier> Session<
    T,
    DefaultContext<R, F, N>,
> {
    /// Builds a session around the stock context from a command with its
    /// execution mode and the supplied capabilities; a dry-run execution gets
    /// the no-op filesystem access in place of `real_access`.
    pub fn new_with_custom_file_system_access(
        appinfo: ApplicationInfo,
        config: Config,
        current_dir: DirPath,
        exec: Execution<T>,
        reader: R,
        real_access: F,
        notifier: N,
    ) -> (r: Session<T, DefaultContext<R, F, N>>)
        ensures
            exec is DryRun ==> r.context.fsaccess is DryRun,
            exec is Run ==> r.context.fsaccess is Real,
            (exec matches Execution::DryRun(c) ==> r.command == c),
            (exec matches Execution::Run(c) ==> r.command == c),
            r.context.appinfo == appinfo,
            r.context.config == config,
            r.context.current_dir == current_dir,
    {
        let (command, dry_run) = match exec {
            Execution::DryRun(cmd) => (cmd, true),
            Execution::Run(cmd) => (cmd, false),
        };
        let context = DefaultContext::new(
            appinfo,
            config,
            current_dir,
            dry_run,
            reader,
            real_access,
            notifier,
        );
        Session { command, context }
    }
}

impl<C: Context, T: Command<C>> Session<T, C> {
    /// Runs the command against the context.
    pub fn run(&self) -> Result<(), Error> {
        self.command.execute(&self.context)
    }
}

} // verus!
