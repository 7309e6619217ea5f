//! Seals [`crate::BumpaloThinSliceExt`] to the arena types it is written for.

use vstd::prelude::*;

verus! {

pub trait Sealed {
}

impl Sealed for bumpalo::Bump {
}

} // verus!
