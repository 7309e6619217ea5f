//! Slice handles backed by a single arena allocation that stores the length
//! in a header directly in front of the element data.
//!
//! Two access modes are offered. [`ThinSliceMut`] is the exclusive handle a
//! constructor returns: move-only, the sole writer of its region.
//! [`ThinSlice`] is the freely copyable read-only view it demotes to. Every
//! constructor states exactly which elements the new handle holds, every
//! zero-length construction short-circuits to the canonical empty handle
//! without touching the arena, and equality of handles is equality of their
//! contents.
//!
//! The [`layout`] module is the engine behind the `[header][elements]`
//! placement: it computes the region's size, alignment and element offset,
//! proves the offset independent of the length, and rejects any length whose
//! region would overflow the platform's maximum object size.

use vstd::prelude::*;

mod arena;
pub mod layout;
mod sealed;
mod thin_slice;
mod thin_slice_mut;

pub use thin_slice::ThinSlice;
pub use thin_slice_mut::ThinSliceMut;

verus! {

/// The ways a construction request can be rejected.
#[derive(Clone, Copy, Debug, PartialEq, Eq, Structural)]
pub enum ThinSliceError {
    /// The requested length, combined with the element type and the header,
    /// would exceed the platform's maximum object size.
    LayoutOverflow,
    /// A sequence passed to a fill-from-sequence constructor reported more
    /// elements than it actually supplied.
    SequenceTooShort,
}

/// Thin-slice constructors offered directly on the arena, mirroring the
/// slice allocation methods the arena itself provides. Sealed: only the
/// arena types this crate is written for implement it.
pub trait BumpaloThinSliceExt: sealed::Sealed {
    /// Allocates a thin slice whose element `i` is a clone of `src[i]`.
    fn alloc_thin_slice_clone<'a, T: Clone>(&'a self, src: &[T]) -> (r: ThinSliceMut<'a, T>)
        requires
            layout::spec_region_fits::<T>(src@.len() as int),
        ensures
            r@.len() == src@.len(),
            forall|i: int| 0 <= i < src@.len() ==> cloned::<T>(src@[i], #[trigger] r@[i]),
    ;

    /// Allocates a thin slice holding exactly the elements of `src`.
    fn alloc_thin_slice_copy<'a, T: Copy>(&'a self, src: &[T]) -> (r: ThinSliceMut<'a, T>)
        requires
            layout::spec_region_fits::<T>(src@.len() as int),
        ensures
            r@ == src@,
    ;

    /// Allocates a thin slice of `len` elements, each a clone of `value`.
    fn alloc_thin_slice_fill_clone<'a, T: Clone>(&'a self, len: usize, value: &T) -> (r:
        ThinSliceMut<'a, T>)
        requires
            layout::spec_region_fits::<T>(len as int),
        ensures
            r@.len() == len,
            forall|i: int| 0 <= i < len ==> cloned::<T>(*value, #[trigger] r@[i]),
    ;

    /// Allocates a thin slice of `len` elements, each equal to `value`.
    fn alloc_thin_slice_fill_copy<'a, T: Copy>(&'a self, len: usize, value: T) -> (r: ThinSliceMut<
        'a,
        T,
    >)
        requires
            layout::spec_region_fits::<T>(len as int),
        ensures
            r@.len() == len,
            forall|i: int| 0 <= i < len ==> #[trigger] r@[i] == value,
    ;

    /// Allocates a thin slice of `len` elements, each the element type's
    /// default value.
    fn alloc_thin_slice_fill_default<'a, T: Default>(&'a self, len: usize) -> (r: ThinSliceMut<
        'a,
        T,
    >)
        requires
            layout::spec_region_fits::<T>(len as int),
        ensures
            r@.len() == len,
            forall|i: int| 0 <= i < len ==> call_ensures(T::default, (), #[trigger] r@[i]),
    ;

    /// Allocates a thin slice of `len` elements whose element `i` is `f(i)`.
    fn alloc_thin_slice_fill_with<'a, T, F: Fn(usize) -> T>(&'a self, len: usize, f: F) -> (r:
        ThinSliceMut<'a, T>)
        requires
            layout::spec_region_fits::<T>(len as int),
            forall|i: usize| i < len ==> call_requires(f, (i,)),
        ensures
            r@.len() == len,
            forall|i: int| 0 <= i < len ==> call_ensures(f, (i as usize,), #[trigger] r@[i]),
    ;

    /// Allocates a thin slice by draining the first `reported_len` elements
    /// of `items`: the result holds exactly those elements, or the
    /// construction fails as [`ThinSliceMut::from_seq`] describes.
    fn alloc_thin_slice_fill_iter<'a, T>(&'a self, reported_len: usize, items: Vec<T>) -> (r:
        Result<ThinSliceMut<'a, T>, ThinSliceError>)
        ensures
            r is Ok <==> layout::spec_region_fits::<T>(reported_len as int) && reported_len
                <= items@.len(),
            r matches Ok(s) ==> s@ == items@.take(reported_len as int),
            !layout::spec_region_fits::<T>(reported_len as int) ==> (r matches Err(e) && e
                == ThinSliceError::LayoutOverflow),
            layout::spec_region_fits::<T>(reported_len as int) && reported_len > items@.len()
                ==> (r matches Err(e) && e == ThinSliceError::SequenceTooShort),
    ;
}

impl BumpaloThinSliceExt for bumpalo::Bump {
    fn alloc_thin_slice_clone<'a, T: Clone>(&'a self, src: &[T]) -> (r: ThinSliceMut<'a, T>) {
        ThinSliceMut::new_clone(self, src)
    }

    fn alloc_thin_slice_copy<'a, T: Copy>(&'a self, src: &[T]) -> (r: ThinSliceMut<'a, T>) {
        ThinSliceMut::new_copy(self, src)
    }

    fn alloc_thin_slice_fill_clone<'a, T: Clone>(&'a self, len: usize, value: &T) -> (r:
        ThinSliceMut<'a, T>) {
        let f = |i: usize| -> (res: T)
            ensures
                cloned::<T>(*value, res),
            {
                value.clone()
            };
        ThinSliceMut::from_fn(self, len, f)
    }

    fn alloc_thin_slice_fill_copy<'a, T: Copy>(&'a self, len: usize, value: T) -> (r: ThinSliceMut<
        'a,
        T,
    >) {
        let f = |i: usize| -> (res: T)
            ensures
                res == value,
            {
                value
            };
        ThinSliceMut::from_fn(self, len, f)
    }

    fn alloc_thin_slice_fill_default<'a, T: Default>(&'a self, len: usize) -> (r: ThinSliceMut<
        'a,
        T,
    >) {
        let f = |i: usize| -> (res: T)
            ensures
                call_ensures(T::default, (), res),
            {
                T::default()
            };
        ThinSliceMut::from_fn(self, len, f)
    }

    fn alloc_thin_slice_fill_with<'a, T, F: Fn(usize) -> T>(&'a self, len: usize, f: F) -> (r:
        ThinSliceMut<'a, T>) {
        ThinSliceMut::from_fn(self, len, f)
    }

    fn alloc_thin_slice_fill_iter<'a, T>(&'a self, reported_len: usize, items: Vec<T>) -> (r:
        Result<ThinSliceMut<'a, T>, ThinSliceError>) {
        ThinSliceMut::from_seq(self, reported_len, items)
    }
}

} // verus!
