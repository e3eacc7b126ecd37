//! The capability boundary for the three mutating filesystem operations.
//!
//! A command mutates the filesystem only through a [`SelectedFileSystemAccess`]
//! value chosen once, at context construction, by a dry-run flag: the real
//! implementation (supplied by the embedding program, since it performs I/O)
//! or the no-op [`DryRunFileSystemAccess`], which only reports success.

use vstd::prelude::*;

verus! {

use crate::Error;
use crate::path::DirPath;

/// The three mutating filesystem operations.
///
/// Nothing is assumed about the outcome of an arbitrary implementation: every
/// caller in the library handles both answers.
pub trait FileSystemAccess: Sized {
    /// Creates the file at `path`, truncating an existing one, and writes
    /// `text` into it.
    fn create_file(&self, path: &DirPath, text: &String) -> Result<(), Error>;

    /// Deletes the file at `path`.
    fn remove_file(&self, path: &DirPath) -> Result<(), Error>;

    /// Deletes the directory at `path` together with everything beneath it.
    fn remove_dir_all(&self, path: &DirPath) -> Result<(), Error>;
}

/// The no-op filesystem access used for dry runs: every operation leaves the
/// disk untouched and reports success.
pub struct DryRunFileSystemAccess {
}

impl FileSystemAccess for DryRunFileSystemAccess {
    fn create_file(&self, path: &DirPath, text: &String) -> (r: Result<(), Error>)
        ensures
            r is Ok,
    {
        Result::Ok(())
    }

    fn remove_file(&self, path: &DirPath) -> (r: Result<(), Error>)
        ensures
            r is Ok,
    {
        Result::Ok(())
    }

    fn remove_dir_all(&self, path: &DirPath) -> (r: Result<(), Error>)
        ensures
            r is Ok,
    {
        Result::Ok(())
    }
}

/// The access chosen at context construction: the real one, or the dry-run
/// one. Operations dispatch to the chosen access; under the dry-run choice
/// every operation succeeds.
pub enum SelectedFileSystemAccess<F> {
    Real(F),
    DryRun(DryRunFileSystemAccess),
}

impl<F: FileSystemAccess> FileSystemAccess for SelectedFileSystemAccess<F> {
    fn create_file(&self, path: &DirPath, text: &String) -> (r: Result<(), Error>)
        ensures
            self is DryRun ==> r is Ok,
    {
        match self {
            SelectedFileSystemAccess::Real(inner) => inner.create_file(path, text),
            SelectedFileSystemAccess::DryRun(dry) => dry.create_file(path, text),
        }
    }

    fn remove_file(&self, path: &DirPath) -> (r: Result<(), Error>)
        ensures
            self is DryRun ==> r is Ok,
    {
        match self {
            SelectedFileSystemAccess::Real(inner) => inner.remove_file(path),
            SelectedFileSystemAccess::DryRun(dry) => dry.remove_file(path),
        }
    }

    fn remove_dir_all(&self, path: &DirPath) -> (r: Result<(), Error>)
        ensures
            self is DryRun ==> r is Ok,
    {
        match self {
            SelectedFileSystemAccess::Real(inner) => inner.remove_dir_all(path),
            SelectedFileSystemAccess::DryRun(dry) => dry.remove_dir_all(path),
        }
    }
}

/// Selects the filesystem access for a run: `real_access` for a real run, the
/// no-op access for a dry run.
///
/// A dry run therefore performs no mutation at all, while both choices answer
/// the same operations, so a command cannot tell them apart.
pub fn create_file_system_access<F: FileSystemAccess>(real_access: F, dry_run: bool) -> (r:
    SelectedFileSystemAccess<F>)
    ensures
        dry_run ==> r is DryRun,
        !dry_run ==> (r matches SelectedFileSystemAccess::Real(a) && a == real_access),
{
    if dry_run {
        SelectedFileSystemAccess::DryRun(DryRunFileSystemAccess {  })
    } else {
        SelectedFileSystemAccess::Real(real_access)
    }
}

} // verus!
