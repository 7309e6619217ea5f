//! The trusted boundary to the arena allocator.
//!
//! The arena is an external collaborator: it hands out memory that stays
//! valid for its whole lifetime and never frees an individual allocation.
//! Everything the crate assumes about it is collected here.

use vstd::prelude::*;

verus! {

#[verifier::external_type_specification]
#[verifier::external_body]
pub struct ExBump<const MIN_ALIGN: usize>(bumpalo::Bump<MIN_ALIGN>);

/// Relies on bumpalo's `Bump::alloc_slice_fill_iter`: the returned slice
/// lives as long as the arena, is exclusively borrowed, and holds exactly
/// the items the iterator yields, in order; a `Vec`'s iterator yields
/// exactly the vector's elements. The precondition keeps the element array
/// inside the bounds `core::alloc::Layout` accepts, the one case in which
/// the call rejects its input; allocation failure aborts inside the arena,
/// as any allocator may.
#[verifier::external_body]
pub(crate) fn store<'a, T>(bump: &'a bumpalo::Bump, items: Vec<T>) -> (r: &'a mut [T])
    requires
        items@.len() * vstd::layout::size_of::<T>() + vstd::layout::align_of::<T>()
            <= isize::MAX as int + 1,
    ensures
        r@ == items@,
{
    bump.alloc_slice_fill_iter(items)
}

} // verus!
