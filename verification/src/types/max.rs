//! Types matching the Modular MAX ML framework: dtypes, shapes, row-major
//! descriptors and typed tensors.

mod descriptor;
mod dtype;
mod shape;
mod tensor;

pub use descriptor::{
    contiguous_stride, lemma_contiguous_strides, DescriptorGuard, TensorDescriptor,
};
pub use dtype::{
    lemma_dtype_classes, lemma_dtype_code_injective, lemma_dtype_header_codes, lemma_dtype_widths,
    lemma_float_codes_order_widths, lemma_integer_code_layout, DType, DeviceType,
};
pub use shape::{
    dims_text, fits_i64, lemma_dims_text_concat, lemma_dims_text_push, lemma_holds_dims_unique,
    lemma_prod_push, lemma_shape_of_dims, prod, TensorShape,
};
pub use tensor::{
    lemma_element_dtypes, lemma_element_values, lemma_tensor_text_shown, lemma_values_text_concat,
    lemma_values_text_push,
    values_text, MojoDType, Tensor, TensorView,
};
