//! Classification of a build tool's line-delimited JSON message stream,
//! an online search of that stream for the artifact of a crate, and the
//! translation of artifact paths seen through a mounted view of a build to
//! the host's target directory.
//!
//! Reading the input source and running the build tool's metadata query
//! are left to the caller: the stream takes the outcome of each read, and
//! path translation takes the target directory that the query reported.

use vstd::prelude::*;

pub mod event;
pub mod names;
pub mod classify;
pub mod mount;
pub mod stream;
pub mod locate;

verus! {

} // verus!
