//! A file-watching command re-runner.
//!
//! The library holds the verified logic of the watcher: the debounce
//! scheduler that serializes command runs and coalesces bursts of file
//! changes, the path filter that keeps version-control metadata and
//! ignored paths from triggering runs, the set of watched directories,
//! and the classification of a finished run. The surrounding process
//! (filesystem notifications, spawning the command, channels) drives
//! these functions from outside.

pub mod filter;
pub mod outcome;
pub mod paths;
pub mod scheduler;
pub mod watchset;
