//! Maintains sentinel marker files in structurally empty directories so that
//! version-control systems that cannot track empty directories still preserve
//! them.
//!
//! The crate models filesystem paths as sequences of plain name components,
//! classifies every crawled directory into a [`fscrawling::DirDescriptor`],
//! and decides per directory whether a marker file must be created, deleted,
//! or left untouched.

use vstd::prelude::*;

pub mod application;
pub mod commands;
pub mod fs;
pub mod fscrawling;
pub mod notification;
pub mod path;

pub use path::DirPath;

verus! {

/// The error type of the command layer.
///
/// Directory-scoped failures are recovered locally and reported through the
/// notifier; only whole-run failures surface as an `Error`.
#[derive(Debug)]
pub enum Error {
    /// An I/O failure, carrying the underlying cause rendered as text.
    Io(String),
    /// A failure described by a fixed message.
    Message(&'static str),
}

/// The text of an error: the carried cause, or the fixed message.
pub open spec fn spec_error_text(e: Error) -> Seq<char> {
    match e {
        Error::Io(s) => s@,
        Error::Message(m) => m@,
    }
}

impl Error {
    /// Renders the error as text.
    pub fn to_text(&self) -> (r: String)
        ensures
            r@ == spec_error_text(*self),
    {
        match self {
            Error::Io(s) => s.clone(),
            Error::Message(m) => {
                let text: &str = m;
                text.to_owned()
            },
        }
    }
}

} // verus!
