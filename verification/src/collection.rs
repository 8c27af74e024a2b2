//! Stopping and resuming the runtime's threads for a collection.
use vstd::prelude::*;

verus! {

/// Type of GC worker
#[derive(Clone, Copy, PartialEq, Eq, Debug)]
pub enum GcThreadKind {
    /// Simple GC Worker thread
    Worker,
}

impl GcThreadKind {
    /// The number that ART uses for this kind of thread.
    pub fn value(self) -> (r: u32)
        ensures
            r == 0,
    {
        match self {
            GcThreadKind::Worker => 0,
        }
    }
}

/// Implements collection trait
pub struct ArtCollection;

} // verus!
