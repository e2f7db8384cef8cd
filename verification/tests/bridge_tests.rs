use pyroxide::bridge::{MojoSlice, MojoSliceMut};

#[test]
fn mojo_slice_ptr_and_len() {
    let data = [1.0f64, 2.0, 3.0];
    let s = MojoSlice::new(&data);
    assert_eq!(s.len(), 3);
    assert!(!s.is_empty());
    assert_eq!(s.size_bytes(), 24);
    assert_eq!(s.as_raw(), data.as_ptr() as isize);
    assert_eq!(s.len_isize(), 3);
}

#[test]
fn mojo_slice_empty() {
    let empty: &[f64] = &[];
    let s = MojoSlice::new(empty);
    assert_eq!(s.len(), 0);
    assert!(s.is_empty());
}

#[test]
fn mojo_slice_mut_ptr_and_len() {
    let mut data = [1.0f64, 2.0, 3.0];
    let s = MojoSliceMut::new(&mut data);
    assert_eq!(s.len(), 3);
    assert_eq!(s.size_bytes(), 24);
}

#[test]
fn mojo_slice_mut_handle_fields() {
    let mut data = [7u16; 5];
    let addr = data.as_ptr() as isize;
    let s = MojoSliceMut::new(&mut data);
    assert_eq!(s.as_raw(), addr);
    assert_eq!(s.len_isize(), 5);
    assert!(!s.is_empty());
    assert_eq!(s.size_bytes(), 10);
}

#[test]
fn mojo_slice_of_zero_sized_elements() {
    let data = [(), (), ()];
    let s = MojoSlice::new(&data);
    assert_eq!(s.len(), 3);
    assert_eq!(s.size_bytes(), 0);
}

#[test]
fn empty_slice_address_is_not_null() {
    let empty: &[u32] = &[];
    let s = MojoSlice::new(empty);
    assert_ne!(s.as_raw(), 0);
    assert_eq!(s.size_bytes(), 0);
}
