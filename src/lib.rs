//! Acquisition and lifecycle management for the `sql_tool` language server
//! binary: platform naming, locating a cached or installed executable,
//! installing a released version, pruning stale versions and assembling the
//! launch command.
use vstd::prelude::*;

pub mod acquire;
pub mod command;
pub mod host;
pub mod layout;
pub mod platform;

verus! {

} // verus!
