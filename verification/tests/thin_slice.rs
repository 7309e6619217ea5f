use bumpalo::Bump;
use bumpalo_thin_slice::{BumpaloThinSliceExt, ThinSlice, ThinSliceMut};
use core::mem::size_of;

#[test]
fn simple() {
    let bump = Bump::new();
    let slice1: ThinSliceMut<'_, i32> =
        bump.alloc_thin_slice_fill_iter(10, (0..10).collect()).unwrap();
    let slice2: ThinSliceMut<'_, i32> =
        bump.alloc_thin_slice_fill_iter(10, (0..10).collect()).unwrap();
    assert_eq!([0, 1, 2, 3, 4, 5, 6, 7, 8, 9], slice1.as_slice());
    assert_eq!(slice1, slice2);
}

#[test]
fn same_size_when_stored_in_option() {
    assert_eq!(
        size_of::<ThinSliceMut<'_, i32>>(),
        size_of::<Option<ThinSliceMut<'_, i32>>>()
    );
}

#[test]
fn same_size_when_stored_in_option_shared() {
    assert_eq!(
        size_of::<ThinSlice<'_, i32>>(),
        size_of::<Option<ThinSlice<'_, i32>>>()
    );
}

#[test]
fn empty() {
    let bump = Bump::new();
    let slice1: ThinSliceMut<'_, i32> = bump.alloc_thin_slice_fill_iter(0, Vec::new()).unwrap();
    let slice2: ThinSliceMut<'_, i32> = ThinSliceMut::default();
    assert_eq!(&[] as &[i32], slice1.as_slice());
    assert_eq!(slice1, slice2);
}

#[test]
fn same_empty_singleton() {
    let bump = Bump::new();
    let slice1: ThinSliceMut<'_, i32> = bump.alloc_thin_slice_fill_iter(0, Vec::new()).unwrap();
    let slice2: ThinSliceMut<'_, i32> = ThinSliceMut::default();
    assert_eq!(slice1.as_slice().as_ptr(), slice2.as_slice().as_ptr());
}

#[test]
fn same_empty_singleton_extreme() {
    let bump = Bump::new();
    (0..10)
        .map(|_| bump.alloc_thin_slice_fill_iter(0, Vec::new()).unwrap())
        .chain((0..10).map(|_| bump.alloc_thin_slice_fill_copy(0, 100)))
        .for_each(|thin_slice| {
            assert_eq!(
                ThinSliceMut::<i32>::default().as_slice().as_ptr(),
                thin_slice.as_slice().as_ptr()
            );
        });
}

#[test]
fn same_empty_singleton_across_arenas() {
    let bump1 = Bump::new();
    let bump2 = Bump::new();
    let slice1: ThinSliceMut<'_, i32> = bump1.alloc_thin_slice_fill_copy(0, 7);
    let slice2: ThinSliceMut<'_, i32> = bump2.alloc_thin_slice_fill_copy(0, 9);
    assert_eq!(slice1.as_slice().as_ptr(), slice2.as_slice().as_ptr());
}

#[test]
fn alloc_thin_slice_clone() {
    let bump = Bump::new();
    let slice = &[1, 2, 3, 4];
    let thin = bump.alloc_thin_slice_clone(slice);
    assert_eq!(slice, thin.as_slice());
}

#[test]
fn alloc_thin_slice_copy() {
    let bump = Bump::new();
    let slice = &[1, 2, 3, 4];
    let thin = bump.alloc_thin_slice_copy(slice);
    assert_eq!(slice, thin.as_slice());
}

#[test]
fn deref() {
    let bump = Bump::new();
    let slice = bump.alloc_thin_slice_copy(&[1, 2, 3]);
    assert_eq!(&slice[..], &[1, 2, 3]);
}

#[test]
fn into_iter() {
    let bump = Bump::new();
    let slice = bump.alloc_thin_slice_copy(&[1, 2, 3]);
    for (a, b) in [1, 2, 3].iter().zip(&slice) {
        assert_eq!(a, b);
    }
}
