use bumpalo::Bump;
use bumpalo_thin_slice::{layout, BumpaloThinSliceExt, ThinSliceError, ThinSliceMut};
use std::hash::{DefaultHasher, Hash, Hasher};

fn hash_of<T: Hash>(value: &T) -> u64 {
    let mut hasher = DefaultHasher::new();
    value.hash(&mut hasher);
    hasher.finish()
}

#[test]
fn equal_content_means_equal_handles_and_hashes() {
    let bump = Bump::new();
    let a = bump.alloc_thin_slice_clone(&[1, 2, 3, 4]);
    let b = bump.alloc_thin_slice_copy(&[1, 2, 3, 4]);
    let c = bump.alloc_thin_slice_copy(&[1, 2, 3, 5]);
    assert_eq!(a, b);
    assert_eq!(hash_of(&a), hash_of(&b));
    assert_ne!(a, c);
}

#[test]
fn fill_with_generator() {
    let bump = Bump::new();
    let thin = bump.alloc_thin_slice_fill_with(10, |i| i);
    assert_eq!([0, 1, 2, 3, 4, 5, 6, 7, 8, 9], thin.as_slice());
}

#[test]
fn fill_clone_fill_copy_fill_default() {
    let bump = Bump::new();
    let filled_clone = bump.alloc_thin_slice_fill_clone(3, &7u32);
    assert_eq!([7, 7, 7], filled_clone.as_slice());
    let filled_copy = bump.alloc_thin_slice_fill_copy(4, -1i64);
    assert_eq!([-1, -1, -1, -1], filled_copy.as_slice());
    let filled_default: ThinSliceMut<'_, u8> = bump.alloc_thin_slice_fill_default(2);
    assert_eq!([0, 0], filled_default.as_slice());
}

#[test]
fn writes_are_visible_through_every_view() {
    let bump = Bump::new();
    let mut thin = bump.alloc_thin_slice_copy(&[1, 2, 3]);
    thin.set(1, 20);
    assert_eq!([1, 20, 3], thin.as_slice());
    thin.as_mut_slice()[2] = 30;
    assert_eq!([1, 20, 30], thin.as_slice());
    thin[0] = 10;
    assert_eq!([10, 20, 30], thin.as_slice());
    let shared = thin.into_thin_slice();
    assert_eq!([10, 20, 30], shared.as_slice());
}

#[test]
fn into_slice_gives_writable_arena_memory() {
    let bump = Bump::new();
    let thin = bump.alloc_thin_slice_copy(&[5, 6]);
    let slice: &mut [i32] = thin.into_slice();
    slice[0] = 50;
    assert_eq!(&[50, 6], slice);
}

#[test]
fn demotion_preserves_content() {
    let bump = Bump::new();
    let thin = bump.alloc_thin_slice_copy(&[1, 2, 3]);
    let borrowed = thin.as_thin_slice();
    assert_eq!([1, 2, 3], borrowed.as_slice());
    let consumed = thin.into_thin_slice();
    assert_eq!([1, 2, 3], consumed.as_slice());
    let copied = consumed;
    assert_eq!(consumed.as_slice(), copied.as_slice());
}

#[test]
fn sequence_under_report_fails() {
    let bump = Bump::new();
    let result: Result<ThinSliceMut<'_, i32>, ThinSliceError> =
        bump.alloc_thin_slice_fill_iter(5, vec![1, 2, 3]);
    assert_eq!(result.unwrap_err(), ThinSliceError::SequenceTooShort);
}

#[test]
fn sequence_over_report_takes_prefix() {
    let bump = Bump::new();
    let thin = bump.alloc_thin_slice_fill_iter(2, vec![1, 2, 3]).unwrap();
    assert_eq!([1, 2], thin.as_slice());
}

#[test]
fn from_seq_direct() {
    let bump = Bump::new();
    let thin = ThinSliceMut::from_seq(&bump, 3, vec![4, 5, 6]).unwrap();
    assert_eq!([4, 5, 6], thin.as_slice());
    let err = ThinSliceMut::from_seq(&bump, 4, vec![4, 5, 6]).unwrap_err();
    assert_eq!(err, ThinSliceError::SequenceTooShort);
}

#[test]
fn layout_overflow_is_rejected() {
    let huge = usize::MAX / 2;
    let err = layout::region_layout::<u64>(huge).unwrap_err();
    assert_eq!(err, ThinSliceError::LayoutOverflow);
    let bump = Bump::new();
    let result: Result<ThinSliceMut<'_, u64>, ThinSliceError> =
        bump.alloc_thin_slice_fill_iter(huge, Vec::new());
    assert_eq!(result.unwrap_err(), ThinSliceError::LayoutOverflow);
}

#[test]
fn layout_engine_small_sizes() {
    let thin_layout = layout::region_layout::<u64>(3).unwrap();
    let header = core::mem::size_of::<usize>();
    let expected_offset = header.max(core::mem::align_of::<u64>());
    assert_eq!(thin_layout.elem_offset, expected_offset);
    assert_eq!(thin_layout.size, expected_offset + 3 * core::mem::size_of::<u64>());
    assert_eq!(
        thin_layout.align,
        core::mem::align_of::<usize>().max(core::mem::align_of::<u64>())
    );

    let longer = layout::region_layout::<u64>(9).unwrap();
    assert_eq!(thin_layout.elem_offset, longer.elem_offset);
    assert_eq!(thin_layout.align, longer.align);
}

#[test]
fn new_with_prepared_items() {
    let bump = Bump::new();
    let thin = ThinSliceMut::new(&bump, vec![9, 8, 7]);
    assert_eq!([9, 8, 7], thin.as_slice());
    assert_eq!(thin.len(), 3);
    let none: ThinSliceMut<'_, i32> = ThinSliceMut::new(&bump, Vec::new());
    assert_eq!(none.len(), 0);
    assert_eq!(
        none.as_slice().as_ptr(),
        ThinSliceMut::<i32>::default().as_slice().as_ptr()
    );
}

#[test]
fn empty_shared_handles_are_the_singleton() {
    let shared = bumpalo_thin_slice::ThinSlice::<u16>::default();
    assert_eq!(shared.len(), 0);
    let again = bumpalo_thin_slice::ThinSlice::<u16>::empty();
    assert_eq!(shared.as_slice().as_ptr(), again.as_slice().as_ptr());
}

#[test]
fn into_slice_outlives_handle() {
    let bump = Bump::new();
    let thin = bump.alloc_thin_slice_copy(&[1, 2, 3]);
    let shared = thin.into_thin_slice();
    let slice: &[i32] = shared.into_slice();
    assert_eq!(&[1, 2, 3], slice);
}
