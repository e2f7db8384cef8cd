use pyroxide::types::max::{DType, DeviceType, Tensor, TensorDescriptor, TensorShape, TensorView};

#[test]
fn tensor_shape_basics() {
    let s = TensorShape::vector(5);
    assert_eq!(s.ndim(), 1);
    assert_eq!(s.numel(), 5);
    assert_eq!(s.as_slice(), &[5]);
    assert_eq!(s.to_string(), "(5)");
}

#[test]
fn tensor_shape_matrix() {
    let s = TensorShape::matrix(3, 4);
    assert_eq!(s.ndim(), 2);
    assert_eq!(s.numel(), 12);
    assert_eq!(s.to_string(), "(3, 4)");
}

#[test]
fn tensor_shape_from_array() {
    let s = TensorShape::from([2, 3, 4]);
    assert_eq!(s.ndim(), 3);
    assert_eq!(s.numel(), 24);
}

#[test]
fn tensor_zeros() {
    let t = Tensor::<i64>::zeros(TensorShape::vector(10));
    assert_eq!(t.len(), 10);
    assert!(t.iter().all(|&x| x == 0));
}

#[test]
fn tensor_from_data() {
    let t = Tensor::<i32>::from_data(TensorShape::matrix(2, 3), vec![1; 6]);
    assert_eq!(t.numel(), 6);
    assert_eq!(t.shape().ndim(), 2);
}

#[test]
fn tensor_descriptor_layout() {
    let t = Tensor::<i64>::from_data(TensorShape::vector(5), vec![1, 2, 3, 4, 5]);
    let desc = t.descriptor();
    assert_eq!(desc.dtype, DType::Int64.as_u8());
    assert_eq!(desc.rank, 1);
    assert_eq!(desc.dims[0], 5);
    assert_ne!(desc.data_ptr, 0);
}

#[test]
fn tensor_view_zero_copy() {
    let data = vec![1i32, 2, 3, 4, 5, 6];
    let view = TensorView::new(TensorShape::matrix(2, 3), &data);
    assert_eq!(view.numel(), 6);
    assert_eq!(view.dtype(), DType::Int32);

    // Descriptor should point to the original data, not a copy
    let desc = view.descriptor();
    assert_eq!(desc.data_ptr, data.as_ptr() as i64);
}

#[test]
fn dtype_byte_width() {
    assert_eq!(DType::Float32.byte_width(), 4);
    assert_eq!(DType::Float64.byte_width(), 8);
    assert_eq!(DType::Int8.byte_width(), 1);
    assert_eq!(DType::Int64.byte_width(), 8);
    assert_eq!(DType::Bool.byte_width(), 1);
}

#[test]
fn dtype_classification() {
    assert!(DType::Float32.is_float());
    assert!(!DType::Float32.is_integer());
    assert!(DType::Int32.is_integer());
    assert!(DType::Int32.is_signed());
    assert!(DType::UInt32.is_integer());
    assert!(!DType::UInt32.is_signed());
}

#[test]
fn dtype_codes_follow_max_header() {
    assert_eq!(DType::Unknown.as_u8(), 0);
    assert_eq!(DType::Bool.as_u8(), 1);
    assert_eq!(DType::Float32.as_u8(), 81);
    assert_eq!(DType::BFloat16.as_u8(), 80);
    assert_eq!(DType::UInt8.as_u8(), 134);
    assert_eq!(DType::Int64.as_u8(), 141);
}

#[test]
fn dtype_classes_are_disjoint() {
    let all = [
        DType::Unknown, DType::Bool, DType::Float4E2M1FN, DType::Float8E8M0FNU,
        DType::Float8E3M4, DType::Float8E4M3FN, DType::Float8E4M3FNUZ, DType::Float8E5M2,
        DType::Float8E5M2FNUZ, DType::Float16, DType::BFloat16, DType::Float32,
        DType::Float64, DType::UInt8, DType::UInt16, DType::UInt32, DType::UInt64,
        DType::Int8, DType::Int16, DType::Int32, DType::Int64,
    ];
    for d in all {
        assert!(!(d.is_float() && d.is_integer()));
        assert!(!d.is_signed() || d.is_integer());
        assert!([1, 2, 4, 8].contains(&d.byte_width()));
    }
    assert!(!DType::Bool.is_float() && !DType::Bool.is_integer());
    assert!(DType::Float8E5M2.is_float());
    assert!(!DType::Float16.is_signed());
    assert_eq!(DType::BFloat16.byte_width(), 2);
}

#[test]
fn shape_new_pads_with_zeros() {
    let s = TensorShape::new(&[7, 8, 9]);
    assert_eq!(s.rank, 3);
    assert_eq!(s.dims, [7, 8, 9, 0, 0, 0, 0, 0]);
    assert_eq!(s.as_slice(), &[7, 8, 9]);
}

#[test]
fn shape_scalar_has_one_element() {
    let s = TensorShape::scalar();
    assert_eq!(s.ndim(), 0);
    assert_eq!(s.numel(), 1);
    assert_eq!(s.to_string(), "()");
    assert_eq!(TensorShape::from([]), s);
}

#[test]
fn shape_with_zero_dim_is_empty() {
    let s = TensorShape::from([4, 0, 3]);
    assert_eq!(s.numel(), 0);
}

#[test]
fn shape_text_of_negative_dims() {
    let s = TensorShape::from([-12, 0, i64::MIN]);
    assert_eq!(s.to_string(), "(-12, 0, -9223372036854775808)");
}

#[test]
fn shape_full_rank() {
    let s = TensorShape::from([1, 2, 1, 2, 1, 2, 1, 2]);
    assert_eq!(s.ndim(), 8);
    assert_eq!(s.numel(), 16);
}

#[test]
fn contiguous_strides_row_major() {
    let s = TensorShape::from([2, 3, 4]);
    let d = TensorDescriptor::contiguous(DType::Float32, &s, 4096);
    assert_eq!(d.dtype, 81);
    assert_eq!(d.rank, 3);
    assert_eq!(d.dims, s.dims);
    assert_eq!(d.strides, [12, 4, 1, 0, 0, 0, 0, 0]);
    assert_eq!(d.data_ptr, 4096);
    assert_eq!(d._pad, [0; 7]);
    // the first stride times the first size is the element count
    assert_eq!((d.strides[0] * d.dims[0]) as usize, s.numel());
}

#[test]
fn contiguous_strides_of_scalar() {
    let d = TensorDescriptor::contiguous(DType::Bool, &TensorShape::scalar(), 0);
    assert_eq!(d.rank, 0);
    assert_eq!(d.strides, [0; 8]);
}

#[test]
fn contiguous_strides_of_vector() {
    let d = TensorDescriptor::contiguous(DType::Int8, &TensorShape::vector(9), 16);
    assert_eq!(d.strides, [1, 0, 0, 0, 0, 0, 0, 0]);
}

#[test]
fn tensor_from_slice_copies() {
    let data = [5u8, 6, 7, 8];
    let t = Tensor::from_slice(TensorShape::matrix(2, 2), &data);
    assert_eq!(&t[..], &data[..]);
    assert_eq!(t.dtype(), DType::UInt8);
    assert_eq!(t.shape().to_string(), "(2, 2)");
}

#[test]
fn tensor_descriptor_strides_match_shape() {
    let t = Tensor::<u16>::zeros(TensorShape::matrix(3, 5));
    let desc = t.descriptor();
    assert_eq!(desc.dtype, DType::UInt16.as_u8());
    assert_eq!(desc.strides[0], 5);
    assert_eq!(desc.strides[1], 1);
    assert_eq!(desc.data_ptr, t.as_ptr() as i64);
}

#[test]
fn tensor_deref_mut_writes() {
    let mut t = Tensor::<i16>::zeros(TensorShape::vector(3));
    t[1] = 42;
    assert_eq!(&t[..], &[0, 42, 0]);
}

#[test]
fn tensor_view_data_is_borrowed() {
    let data = [1u64, 2, 3];
    let view = TensorView::new(TensorShape::vector(3), &data);
    assert_eq!(view.data().as_ptr(), data.as_ptr());
    assert_eq!(view.shape().numel(), 3);
    assert_eq!(view.dtype(), DType::UInt64);
}

#[test]
fn device_types_are_distinct() {
    assert_ne!(DeviceType::Host, DeviceType::Accelerator);
}

#[test]
fn dtype_names() {
    assert_eq!(DType::Float32.to_string(), "Float32");
    assert_eq!(DType::Float8E4M3FNUZ.to_string(), "Float8E4M3FNUZ");
    assert_eq!(DType::UInt64.to_string(), "UInt64");
}

#[test]
fn tensor_text_shows_first_six() {
    let t = Tensor::<i32>::from_data(TensorShape::matrix(2, 4), vec![1, 2, 3, 4, 5, 6, 7, 8]);
    assert_eq!(t.to_string(), "Tensor<Int32>(2, 4) [1, 2, 3, 4, 5, 6, ... (2 more)]");
}

#[test]
fn tensor_text_short() {
    let t = Tensor::<u8>::from_data(TensorShape::vector(3), vec![7, 8, 9]);
    assert_eq!(t.to_string(), "Tensor<UInt8>(3) [7, 8, 9]");
    let e = Tensor::<i64>::from_data(TensorShape::vector(0), vec![]);
    assert_eq!(e.to_string(), "Tensor<Int64>(0) []");
}

#[test]
fn tensor_text_negative_and_extreme_values() {
    let t = Tensor::<i64>::from_data(TensorShape::vector(2), vec![i64::MIN, -5]);
    assert_eq!(t.to_string(), "Tensor<Int64>(2) [-9223372036854775808, -5]");
    let u = Tensor::<u64>::from_data(TensorShape::scalar(), vec![u64::MAX]);
    assert_eq!(u.to_string(), "Tensor<UInt64>() [18446744073709551615]");
}

#[test]
fn device_type_codes() {
    assert_eq!(DeviceType::Host.as_u8(), 0);
    assert_eq!(DeviceType::Accelerator.as_u8(), 1);
}

#[test]
fn tensor_stays_valid_after_writes() {
    let mut t = Tensor::<i32>::zeros(TensorShape::matrix(2, 2));
    for x in t.iter_mut() {
        *x = 7;
    }
    assert_eq!(t.numel(), t.shape().numel());
    assert_eq!(t.to_string(), "Tensor<Int32>(2, 2) [7, 7, 7, 7]");
    assert_ne!(t.descriptor().data_ptr, 0);
}
