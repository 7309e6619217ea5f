//! The header+data layout engine.
//!
//! Every backing allocation of a thin slice is one contiguous region of the
//! shape `[header][element 0]...[element len-1]`, where the header is a
//! single `usize` holding the length. This module computes, for an element
//! type and a requested length, the total byte size, the alignment, and the
//! byte offset from the start of the region to the first element, and rejects
//! any length whose region would exceed the platform's maximum object size.
//!
//! The element offset is a function of the element type alone: it does not
//! depend on the length ([`lemma_elem_offset_uniform`]), so one constant per
//! element type serves every handle of that type.

use vstd::prelude::*;
use vstd::layout::{align_of, size_of};
use vstd::math::max;

verus! {

/// Byte offset from the start of a `[header][elements]` region to element 0:
/// the header's size, padded up to the element type's alignment. Because
/// both are powers of two, the padded offset is simply the larger of the two.
pub open spec fn spec_elem_offset<T>() -> int {
    max(size_of::<usize>() as int, align_of::<T>() as int)
}

/// Alignment of the whole region: the stricter of the header's alignment and
/// the element type's alignment.
pub open spec fn spec_region_align<T>() -> int {
    max(align_of::<usize>() as int, align_of::<T>() as int)
}

/// Total byte size of a `[header][len × element]` region.
pub open spec fn spec_region_size<T>(len: int) -> int {
    spec_elem_offset::<T>() + len * size_of::<T>()
}

/// Whether a region of `len` elements stays representable: its size, once
/// rounded up to the region alignment, may not exceed `isize::MAX`. This is
/// the same rule std applies when it builds a `core::alloc::Layout`.
pub open spec fn spec_region_fits<T>(len: int) -> bool {
    spec_region_size::<T>(len) + spec_region_align::<T>() <= isize::MAX as int + 1
}

/// A computed `[header][elements]` layout: total size and alignment of the
/// region, and the byte offset of element 0.
#[derive(Clone, Copy, Debug)]
pub struct ThinLayout {
    pub size: usize,
    pub align: usize,
    pub elem_offset: usize,
}

/// What it means for `l` to be the layout of a region of `len` elements of
/// type `T`.
pub open spec fn is_region_layout<T>(l: ThinLayout, len: int) -> bool {
    &&& l.elem_offset == spec_elem_offset::<T>()
    &&& l.align == spec_region_align::<T>()
    &&& l.size == spec_region_size::<T>(len)
}

/// The byte offset of element 0, computed for the element type alone.
pub fn elem_offset<T>() -> (r: usize)
    ensures
        r == spec_elem_offset::<T>(),
{
    let header_size: usize = core::mem::size_of::<usize>();
    let elem_align: usize = core::mem::align_of::<T>();
    if header_size >= elem_align {
        header_size
    } else {
        elem_align
    }
}

/// The alignment of a `[header][elements]` region of element type `T`.
pub fn region_align<T>() -> (r: usize)
    ensures
        r == spec_region_align::<T>(),
{
    let header_align: usize = core::mem::align_of::<usize>();
    let elem_align: usize = core::mem::align_of::<T>();
    if header_align >= elem_align {
        header_align
    } else {
        elem_align
    }
}

/// Computes the layout of a `[header][len × element]` region, rejecting any
/// length whose region would exceed the platform's maximum object size.
pub fn region_layout<T>(len: usize) -> (r: Result<ThinLayout, crate::ThinSliceError>)
    ensures
        r is Ok <==> spec_region_fits::<T>(len as int),
        r matches Ok(l) ==> is_region_layout::<T>(l, len as int),
{
    proof {
        broadcast use vstd::layout::align_nonzero;
    }
    let offset = elem_offset::<T>();
    let align = region_align::<T>();
    let elem_size: usize = core::mem::size_of::<T>();
    let limit: usize = (isize::MAX as usize) + 1;
    match len.checked_mul(elem_size) {
        None => Err(crate::ThinSliceError::LayoutOverflow),
        Some(array_size) => match array_size.checked_add(offset) {
            None => Err(crate::ThinSliceError::LayoutOverflow),
            Some(total) => {
                if total <= limit && align <= limit - total {
                    Ok(ThinLayout { size: total, align, elem_offset: offset })
                } else {
                    Err(crate::ThinSliceError::LayoutOverflow)
                }
            },
        },
    }
}

/// A power of two divides every larger power of two.
proof fn lemma_pow2_divides(small: nat, large: nat)
    requires
        vstd::arithmetic::power2::is_pow2(small as int),
        vstd::arithmetic::power2::is_pow2(large as int),
        small <= large,
    ensures
        large % small == 0,
{
    broadcast use vstd::arithmetic::power2::is_pow2_equiv;

    let i = choose|i: nat| vstd::arithmetic::power::pow(2, i) == small as int;
    let j = choose|j: nat| vstd::arithmetic::power::pow(2, j) == large as int;
    if j < i {
        vstd::arithmetic::power::lemma_pow_strictly_increases(2, j, i);
    }
    vstd::arithmetic::power::lemma_pow_positive(2, i);
    vstd::arithmetic::power::lemma_pow_adds(2, (j - i) as nat, i);
    vstd::arithmetic::div_mod::lemma_mod_multiples_basic(
        vstd::arithmetic::power::pow(2, (j - i) as nat),
        small as int,
    );
}

/// The computed element offset is well-formed: the header fits entirely in
/// front of it, and element 0 starts on a boundary of the element type's
/// alignment, so the elements can be laid out densely from there.
pub proof fn lemma_elem_offset_well_formed<T>()
    ensures
        spec_elem_offset::<T>() >= size_of::<usize>(),
        spec_elem_offset::<T>() % align_of::<T>() as int == 0,
{
    broadcast use vstd::layout::align_properties;
    broadcast use vstd::layout::align_nonzero;

    vstd::layout::usize_size_pow2();
    if align_of::<T>() as int <= size_of::<usize>() as int {
        lemma_pow2_divides(align_of::<T>(), size_of::<usize>());
    } else {
        vstd::arithmetic::div_mod::lemma_mod_self_0(align_of::<T>() as int);
    }
}

/// A type's alignment never exceeds its size, as long as the size is not
/// zero, because the size is always a multiple of the alignment.
pub proof fn lemma_align_le_size<T>()
    requires
        size_of::<T>() > 0,
    ensures
        align_of::<T>() <= size_of::<T>(),
{
    broadcast use vstd::layout::align_properties;

    if align_of::<T>() > size_of::<T>() {
        vstd::arithmetic::div_mod::lemma_small_mod(size_of::<T>(), align_of::<T>());
    }
}

/// The header is one machine word: its size and alignment are positive and
/// at most 8 bytes on every platform this crate compiles for.
pub proof fn lemma_header_layout()
    ensures
        0 < size_of::<usize>() <= 8,
        0 < align_of::<usize>() <= 8,
{
    broadcast use vstd::layout::layout_of_primitives;
    broadcast use vstd::layout::align_nonzero;

    assert(usize::BITS == 32 || usize::BITS == 64);
    lemma_align_le_size::<usize>();
}

/// A convenient sufficient condition for [`spec_region_fits`]: a region of
/// `len` elements surely fits when the array two elements longer still stays
/// comfortably under `isize::MAX`. This discharges the layout precondition
/// of the constructors for any everyday length.
pub proof fn lemma_region_fits<T>(len: int)
    requires
        0 <= len,
        0 < size_of::<T>(),
        (len + 2) * size_of::<T>() <= isize::MAX as int - 15,
    ensures
        spec_region_fits::<T>(len),
{
    broadcast use vstd::layout::align_nonzero;

    lemma_header_layout();
    lemma_align_le_size::<T>();
    assert((len + 2) * size_of::<T>() == len * size_of::<T>() + 2 * size_of::<T>())
        by (nonlinear_arith);
}

/// The element offset and the region alignment are the same for every
/// length: they depend only on the element type. Only the total size grows
/// with the length.
pub proof fn lemma_elem_offset_uniform<T>(l1: ThinLayout, len1: int, l2: ThinLayout, len2: int)
    requires
        is_region_layout::<T>(l1, len1),
        is_region_layout::<T>(l2, len2),
    ensures
        l1.elem_offset == l2.elem_offset,
        l1.align == l2.align,
{
}

} // verus!
