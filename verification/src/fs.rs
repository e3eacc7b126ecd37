//! Filesystem concerns: the mutating capability boundary and pure path
//! helpers.

pub mod access;
pub mod helpers;
