//! The active plan: the runtime's mutators as MMTk sees them.
use vstd::prelude::*;

verus! {

/// Implements active GC plan trait
pub struct ArtActivePlan;

} // verus!
