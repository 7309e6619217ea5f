//! The exclusive thin slice handle that constructors return.

use vstd::prelude::*;
use vstd::std_specs::cmp::PartialEqSpec;
use crate::thin_slice::ThinSlice;
use crate::ThinSliceError;

verus! {

/// The exclusive handle to a length-prefixed slice allocation owned by a
/// [`bumpalo::Bump`] arena.
///
/// At most one `ThinSliceMut` to a given allocation exists at a time: the
/// type is deliberately neither `Copy` nor `Clone`, since two exclusive
/// handles to the same bytes would break the aliasing discipline. In return
/// it is the sole writer of its region, through [`ThinSliceMut::set`] and
/// [`ThinSliceMut::as_mut_slice`]. Use [`ThinSliceMut::as_thin_slice`] to
/// borrow a freely copyable [`ThinSlice`] instead, or
/// [`ThinSliceMut::into_thin_slice`] to give up exclusivity for good.
///
/// Its abstract value (`self@`) is the sequence of elements it holds.
#[derive(Debug, Hash, PartialOrd, Ord)]
pub struct ThinSliceMut<'a, T> {
    data: &'a mut [T],
}

impl<'a, T> View for ThinSliceMut<'a, T> {
    type V = Seq<T>;

    closed spec fn view(&self) -> Seq<T> {
        self.data@
    }
}

impl<'a, T> ThinSliceMut<'a, T> {
    /// The raw construction primitive: every constructor funnels through
    /// here. Given the fully prepared contents, it allocates a region from
    /// the arena and initializes it, or — when there are no elements —
    /// short-circuits to the canonical empty handle without touching the
    /// arena at all.
    pub fn new(bump: &'a bumpalo::Bump, items: Vec<T>) -> (r: Self)
        requires
            crate::layout::spec_region_fits::<T>(items@.len() as int),
        ensures
            r@ == items@,
    {
        if items.len() == 0 {
            let r = Self::empty();
            proof {
                assert(r@ =~= items@);
            }
            r
        } else {
            proof {
                broadcast use vstd::layout::align_nonzero;
            }
            Self::from_data(crate::arena::store(bump, items))
        }
    }

    /// Allocates a new `ThinSliceMut` whose elements are cloned from `src`:
    /// element `i` of the result is a clone of element `i` of the source.
    pub fn new_clone(bump: &'a bumpalo::Bump, src: &[T]) -> (r: Self) where T: Clone
        requires
            crate::layout::spec_region_fits::<T>(src@.len() as int),
        ensures
            r@.len() == src@.len(),
            forall|i: int| 0 <= i < src@.len() ==> cloned::<T>(src@[i], #[trigger] r@[i]),
    {
        let n = src.len();
        let mut items: Vec<T> = Vec::with_capacity(n);
        let mut i: usize = 0;
        while i < n
            invariant
                n == src@.len(),
                i <= n,
                items@.len() == i,
                forall|j: int| 0 <= j < i ==> cloned::<T>(src@[j], #[trigger] items@[j]),
            decreases n - i,
        {
            items.push(src[i].clone());
            i += 1;
        }
        Self::new(bump, items)
    }

    /// Allocates a new `ThinSliceMut` whose elements are copied from `src`:
    /// the result views exactly the same sequence of elements.
    pub fn new_copy(bump: &'a bumpalo::Bump, src: &[T]) -> (r: Self) where T: Copy
        requires
            crate::layout::spec_region_fits::<T>(src@.len() as int),
        ensures
            r@ == src@,
    {
        let n = src.len();
        let mut items: Vec<T> = Vec::with_capacity(n);
        let mut i: usize = 0;
        while i < n
            invariant
                n == src@.len(),
                i <= n,
                items@ =~= src@.subrange(0, i as int),
            decreases n - i,
        {
            items.push(src[i]);
            i += 1;
        }
        proof {
            assert(items@ =~= src@);
        }
        Self::new(bump, items)
    }

    /// Allocates a new `ThinSliceMut` of the provided length whose element
    /// `i` is `f(i)`; `f` is called once per index, in increasing order.
    pub fn from_fn<F: Fn(usize) -> T>(bump: &'a bumpalo::Bump, len: usize, f: F) -> (r: Self)
        requires
            crate::layout::spec_region_fits::<T>(len as int),
            forall|i: usize| i < len ==> call_requires(f, (i,)),
        ensures
            r@.len() == len,
            forall|i: int| 0 <= i < len ==> call_ensures(f, (i as usize,), #[trigger] r@[i]),
    {
        let mut items: Vec<T> = Vec::with_capacity(len);
        let mut i: usize = 0;
        while i < len
            invariant
                i <= len,
                items@.len() == i,
                forall|j: usize| j < len ==> call_requires(f, (j,)),
                forall|j: int| 0 <= j < i ==> call_ensures(f, (j as usize,), #[trigger] items@[j]),
            decreases len - i,
        {
            items.push(f(i));
            i += 1;
        }
        Self::new(bump, items)
    }

    /// Allocates a new `ThinSliceMut` by draining the first `reported_len`
    /// elements of a finite sequence. The sequence claims to hold
    /// `reported_len` elements; if it actually supplies fewer, the
    /// construction fails with [`ThinSliceError::SequenceTooShort`] rather
    /// than produce a handle with an uninitialized tail. A length whose
    /// region cannot be laid out fails with
    /// [`ThinSliceError::LayoutOverflow`]. Elements beyond `reported_len`
    /// are ignored.
    pub fn from_seq(bump: &'a bumpalo::Bump, reported_len: usize, items: Vec<T>) -> (r: Result<
        Self,
        ThinSliceError,
    >)
        ensures
            r is Ok <==> crate::layout::spec_region_fits::<T>(reported_len as int)
                && reported_len <= items@.len(),
            r matches Ok(s) ==> s@ == items@.take(reported_len as int),
            !crate::layout::spec_region_fits::<T>(reported_len as int) ==> (r matches Err(e)
                && e == ThinSliceError::LayoutOverflow),
            crate::layout::spec_region_fits::<T>(reported_len as int) && reported_len
                > items@.len() ==> (r matches Err(e) && e == ThinSliceError::SequenceTooShort),
    {
        let mut items = items;
        match crate::layout::region_layout::<T>(reported_len) {
            Err(_) => Err(ThinSliceError::LayoutOverflow),
            Ok(_) => {
                if reported_len > items.len() {
                    Err(ThinSliceError::SequenceTooShort)
                } else {
                    let ghost whole = items@;
                    items.truncate(reported_len);
                    proof {
                        assert(items@ =~= whole.take(reported_len as int));
                    }
                    Ok(Self::new(bump, items))
                }
            },
        }
    }

    /// Wraps a freshly initialized region as an exclusive handle.
    pub(crate) fn from_data(data: &'a mut [T]) -> (r: Self)
        ensures
            r@ == old(data)@,
    {
        ThinSliceMut { data }
    }

    /// The canonical empty handle, shared by every zero-length construction.
    pub fn empty() -> (r: Self)
        ensures
            r@ =~= Seq::<T>::empty(),
    {
        let data: &'a mut [T] = &mut [];
        ThinSliceMut { data }
    }

    /// Borrows `self` and returns a [`ThinSlice`] that lives as long as
    /// `self` is borrowed. The shared handle views the same elements.
    pub fn as_thin_slice(&self) -> (r: ThinSlice<'_, T>)
        ensures
            r@ == self@,
    {
        ThinSlice::from_data(&*self.data)
    }

    /// Consumes `self` and returns a [`ThinSlice`] that lives as long as the
    /// underlying bump allocator. The shared handle views the same elements.
    pub fn into_thin_slice(self) -> (r: ThinSlice<'a, T>)
        ensures
            r@ == self@,
    {
        ThinSlice::from_data(self.data)
    }

    /// Writes `value` into the slot at `index`; every other element is left
    /// as it was.
    pub fn set(&mut self, index: usize, value: T)
        requires
            index < old(self)@.len(),
        ensures
            final(self)@ == old(self)@.update(index as int, value),
    {
        self.data[index] = value;
    }

    /// Returns a mutable slice containing the contents of `self`; writes
    /// through it become the handle's contents.
    pub fn as_mut_slice(&mut self) -> (r: &mut [T])
        ensures
            r@ == old(self)@,
            final(self)@ == final(r)@,
    {
        &mut *self.data
    }

    /// Returns a slice containing the contents of `self`.
    pub fn as_slice(&self) -> (r: &[T])
        ensures
            r@ == self@,
    {
        &*self.data
    }

    /// Converts the `ThinSliceMut` into a mutable slice containing the
    /// contents of `self`, whose lifetime is bound by `'a`.
    pub fn into_slice(self) -> (r: &'a mut [T])
        ensures
            r@ == self@,
    {
        self.data
    }

    /// The number of elements the handle holds, as stored in its header.
    pub fn len(&self) -> (n: usize)
        ensures
            n == self@.len(),
    {
        self.data.len()
    }
}

impl<'a, T> Default for ThinSliceMut<'a, T> {
    /// The default handle is the canonical empty handle.
    fn default() -> (r: Self)
        ensures
            r@ =~= Seq::<T>::empty(),
    {
        Self::empty()
    }
}

impl<'a, T: PartialEq> PartialEq for ThinSliceMut<'a, T> {
    /// Structural equality: two handles are equal when they hold element
    /// sequences of the same length whose elements are pairwise equal,
    /// whatever allocations back them.
    fn eq(&self, other: &Self) -> (r: bool) {
        crate::thin_slice::eq_views(&*self.data, &*other.data)
    }
}

impl<'a, T: PartialEq> vstd::std_specs::cmp::PartialEqSpecImpl for ThinSliceMut<'a, T> {
    open spec fn obeys_eq_spec() -> bool {
        T::obeys_eq_spec()
    }

    open spec fn eq_spec(&self, other: &Self) -> bool {
        self@.len() == other@.len() && (forall|i: int|
            0 <= i < self@.len() ==> self@[i].eq_spec(&other@[i]))
    }
}

impl<'a, T: Eq> Eq for ThinSliceMut<'a, T> {
}

impl<'a, T> core::ops::Deref for ThinSliceMut<'a, T> {
    type Target = [T];

    /// A handle dereferences to the slice of elements it holds.
    fn deref(&self) -> (r: &[T])
        ensures
            r@ == self@,
    {
        &*self.data
    }
}

impl<'a, T> core::ops::DerefMut for ThinSliceMut<'a, T> {
    /// A handle dereferences to the mutable slice of elements it holds.
    fn deref_mut(&mut self) -> (r: &mut [T])
        ensures
            r@ == old(self)@,
            final(self)@ == final(r)@,
    {
        &mut *self.data
    }
}

impl<'a, 'b, T> IntoIterator for &'b ThinSliceMut<'a, T> {
    type Item = &'b T;

    type IntoIter = core::slice::Iter<'b, T>;

    fn into_iter(self) -> Self::IntoIter {
        self.as_slice().iter()
    }
}

/// Content equality for exclusive handles: two handles built with equal
/// length and pointwise-equal elements compare equal, regardless of which
/// allocations back them. The hypothesis on `T` says that its `==` agrees
/// with structural equality, as it does for every type whose equality vstd
/// specifies.
pub proof fn lemma_content_equality_mut<'a, 'b, T: PartialEq>(
    a: ThinSliceMut<'a, T>,
    b: ThinSliceMut<'b, T>,
)
    requires
        T::obeys_eq_spec(),
        forall|x: T, y: T| #[trigger] x.eq_spec(&y) <==> x == y,
        a@.len() == b@.len(),
        forall|i: int| 0 <= i < a@.len() ==> a@[i] == b@[i],
    ensures
        a.eq_spec(&b),
{
}

} // verus!
