//! Reference processing glue: ART processes java.lang.Reference objects itself.
use vstd::prelude::*;

verus! {

/// Implements reference glue trait
pub struct ArtReferenceGlue;

} // verus!
