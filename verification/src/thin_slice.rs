//! The shared, read-only thin slice handle.

use vstd::prelude::*;
use vstd::std_specs::cmp::PartialEqSpec;

verus! {

/// A read-only handle to a length-prefixed slice allocation owned by a
/// [`bumpalo::Bump`] arena.
///
/// Any number of `ThinSlice` handles may view the same allocation at once,
/// so duplication is free: the type is `Copy`, and copying a handle copies
/// nothing but the handle itself. A `ThinSlice` never permits mutation.
///
/// Its abstract value (`self@`) is the sequence of elements it views.
#[derive(Clone, Copy, Debug, Hash, PartialOrd, Ord)]
pub struct ThinSlice<'a, T> {
    data: &'a [T],
}

impl<'a, T> View for ThinSlice<'a, T> {
    type V = Seq<T>;

    closed spec fn view(&self) -> Seq<T> {
        self.data@
    }
}

impl<'a, T> ThinSlice<'a, T> {
    /// Wraps a borrowed region as a shared handle.
    pub(crate) fn from_data(data: &'a [T]) -> (r: Self)
        ensures
            r@ == data@,
    {
        ThinSlice { data }
    }

    /// The canonical empty handle: every zero-length handle, from any
    /// constructor and any arena, views this same empty region.
    pub fn empty() -> (r: Self)
        ensures
            r@ =~= Seq::<T>::empty(),
    {
        let data: &'a [T] = &[];
        ThinSlice { data }
    }

    /// Returns a slice containing the contents of `self`.
    pub fn as_slice(&self) -> (r: &[T])
        ensures
            r@ == self@,
    {
        self.data
    }

    /// Converts the `ThinSlice` into a slice containing the contents of
    /// `self`, whose lifetime is bound by `'a`.
    pub fn into_slice(self) -> (r: &'a [T])
        ensures
            r@ == self@,
    {
        self.data
    }

    /// The number of elements the handle views, as stored in its header.
    pub fn len(&self) -> (n: usize)
        ensures
            n == self@.len(),
    {
        self.data.len()
    }
}

impl<'a, T> Default for ThinSlice<'a, T> {
    /// The default handle is the canonical empty handle.
    fn default() -> (r: Self)
        ensures
            r@ =~= Seq::<T>::empty(),
    {
        Self::empty()
    }
}

/// Element-by-element equality of two views, the common core of `==` on
/// both handle types.
pub(crate) fn eq_views<T: PartialEq>(a: &[T], b: &[T]) -> (r: bool)
    ensures
        T::obeys_eq_spec() ==> r == (a@.len() == b@.len() && (forall|i: int|
            0 <= i < a@.len() ==> a@[i].eq_spec(&b@[i]))),
{
    if a.len() != b.len() {
        return false;
    }
    let n = a.len();
    let mut i: usize = 0;
    while i < n
        invariant
            n == a@.len(),
            n == b@.len(),
            i <= n,
            T::obeys_eq_spec() ==> forall|j: int| 0 <= j < i ==> a@[j].eq_spec(&b@[j]),
        decreases n - i,
    {
        if !(a[i] == b[i]) {
            proof {
                if T::obeys_eq_spec() {
                    assert(!(a@[i as int].eq_spec(&b@[i as int])));
                }
            }
            return false;
        }
        i += 1;
    }
    true
}

impl<'a, T: PartialEq> PartialEq for ThinSlice<'a, T> {
    /// Structural equality: two handles are equal when they view element
    /// sequences of the same length whose elements are pairwise equal,
    /// whatever allocations back them.
    fn eq(&self, other: &Self) -> (r: bool) {
        eq_views(self.data, other.data)
    }
}

impl<'a, T: PartialEq> vstd::std_specs::cmp::PartialEqSpecImpl for ThinSlice<'a, T> {
    open spec fn obeys_eq_spec() -> bool {
        T::obeys_eq_spec()
    }

    open spec fn eq_spec(&self, other: &Self) -> bool {
        self@.len() == other@.len() && (forall|i: int|
            0 <= i < self@.len() ==> self@[i].eq_spec(&other@[i]))
    }
}

impl<'a, T: Eq> Eq for ThinSlice<'a, T> {
}

impl<'a, T> core::ops::Deref for ThinSlice<'a, T> {
    type Target = [T];

    /// A handle dereferences to the slice of elements it views.
    fn deref(&self) -> (r: &[T])
        ensures
            r@ == self@,
    {
        self.data
    }
}

impl<'a, 'b, T> IntoIterator for &'b ThinSlice<'a, T> {
    type Item = &'b T;

    type IntoIter = core::slice::Iter<'b, T>;

    fn into_iter(self) -> Self::IntoIter {
        self.as_slice().iter()
    }
}

/// Content equality: two handles built with equal length and pointwise-equal
/// elements compare equal, regardless of which allocations back them. The
/// hypothesis on `T` says that its `==` agrees with structural equality, as
/// it does for every type whose equality vstd specifies.
pub proof fn lemma_content_equality<'a, 'b, T: PartialEq>(a: ThinSlice<'a, T>, b: ThinSlice<'b, T>)
    requires
        T::obeys_eq_spec(),
        forall|x: T, y: T| #[trigger] x.eq_spec(&y) <==> x == y,
        a@.len() == b@.len(),
        forall|i: int| 0 <= i < a@.len() ==> a@[i] == b@[i],
    ensures
        a.eq_spec(&b),
{
}

/// All zero-length handles are one and the same abstract value: the empty
/// sequence. Together with [`lemma_content_equality`] this makes every empty
/// handle equal to every other, from whichever constructor or arena it came.
pub proof fn lemma_empty_uniform<'a, 'b, T>(a: ThinSlice<'a, T>, b: ThinSlice<'b, T>)
    requires
        a@.len() == 0,
        b@.len() == 0,
    ensures
        a@ == b@,
{
    assert(a@ =~= b@);
}

} // verus!
