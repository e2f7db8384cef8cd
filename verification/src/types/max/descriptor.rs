//! Tensor descriptors: the row-major layout of a tensor's data, as Mojo
//! reads it.

use super::dtype::DType;
use super::shape::{fits_i64, prod, TensorShape};
use vstd::prelude::*;

verus! {

/// The row-major stride of axis `i` among the first `rank` dimensions: the
/// product of the dimensions after it.
pub open spec fn contiguous_stride(dims: Seq<i64>, rank: int, i: int) -> int {
    prod(dims.subrange(i + 1, rank))
}

impl TensorShape {
    /// Every row-major stride of the shape lies in the `i64` range.
    pub open spec fn strides_fit(self) -> bool {
        forall|i: int|
            0 <= i < self.rank ==> #[trigger] fits_i64(
                contiguous_stride(self.dims@, self.rank as int, i),
            )
    }
}

/// Tensor descriptor for FFI: dtype code, rank, dims, strides and the data
/// address.
#[derive(Debug, Clone, Copy, PartialEq)]
pub struct TensorDescriptor {
    pub dtype: u8,
    pub _pad: [u8; 7],
    pub rank: i64,
    pub dims: [i64; 8],
    pub strides: [i64; 8],
    pub data_ptr: i64,
}

impl TensorDescriptor {
    /// `self` describes a row-major tensor of `dtype` and `shape` at address
    /// `data_ptr`.
    pub open spec fn describes_contiguous(self, dtype: DType, shape: TensorShape, data_ptr: i64) -> bool {
        &&& self.lays_out(dtype, shape)
        &&& self.data_ptr == data_ptr
    }

    /// `self` describes a row-major tensor of `dtype` and `shape`, with zero
    /// padding, at whatever address.
    pub open spec fn lays_out(self, dtype: DType, shape: TensorShape) -> bool {
        &&& self.dtype == dtype.spec_code()
        &&& self.rank == shape.rank
        &&& self.dims == shape.dims
        &&& self.padding_zeroed()
        &&& forall|i: int|
            0 <= i < 8 ==> #[trigger] self.strides@[i] == if i < shape.rank {
                contiguous_stride(shape.dims@, shape.rank as int, i)
            } else {
                0
            }
    }

    /// The padding bytes are zero.
    pub open spec fn padding_zeroed(self) -> bool {
        forall|i: int| 0 <= i < 7 ==> #[trigger] self._pad@[i] == 0
    }

    /// Create a descriptor for a contiguous (row-major) tensor.
    pub fn contiguous(dtype: DType, shape: &TensorShape, data_ptr: i64) -> (d: Self)
        requires
            shape.rank <= 8,
            shape.strides_fit(),
        ensures
            d.describes_contiguous(dtype, *shape, data_ptr),
    {
        let mut strides = [0i64; 8];
        if shape.rank > 0 {
            let r = shape.rank as usize;
            strides[r - 1] = 1;
            proof {
                assert(shape.dims@.subrange(r as int, r as int) =~= Seq::<i64>::empty());
            }
            let mut i: usize = r - 1;
            while i > 0
                invariant
                    1 <= r <= 8,
                    r == shape.rank,
                    i <= r - 1,
                    shape.strides_fit(),
                    forall|j: int|
                        i <= j < r ==> #[trigger] strides@[j] == contiguous_stride(
                            shape.dims@,
                            r as int,
                            j,
                        ),
                    forall|j: int| r <= j < 8 ==> #[trigger] strides@[j] == 0,
                decreases i,
            {
                i = i - 1;
                proof {
                    lemma_stride_step(shape.dims@, r as int, i as int);
                    assert(fits_i64(contiguous_stride(shape.dims@, r as int, i as int)));
                }
                strides[i] = strides[i + 1] * shape.dims[i + 1];
            }
        }
        TensorDescriptor {
            dtype: dtype.as_u8(),
            _pad: [0u8; 7],
            rank: shape.rank,
            dims: shape.dims,
            strides,
            data_ptr,
        }
    }
}

/// One step of the row-major stride recurrence.
proof fn lemma_stride_step(dims: Seq<i64>, rank: int, i: int)
    requires
        0 <= i,
        i + 1 < rank <= dims.len(),
    ensures
        contiguous_stride(dims, rank, i) == contiguous_stride(dims, rank, i + 1) * dims[i + 1],
{
    let sub = dims.subrange(i + 1, rank);
    assert(sub.drop_first() =~= dims.subrange(i + 2, rank));
    assert(prod(sub) == sub[0] * prod(sub.drop_first()));
    let a = dims[i + 1] as int;
    let b = prod(dims.subrange(i + 2, rank));
    assert(a * b == b * a) by (nonlinear_arith);
}

/// Row-major strides: the last axis has stride 1, each other axis the stride
/// of the next axis times that axis's size, and the first stride times the
/// first size is the element count of the shape.
pub proof fn lemma_contiguous_strides(dims: Seq<i64>, rank: int)
    requires
        0 < rank <= dims.len(),
    ensures
        contiguous_stride(dims, rank, rank - 1) == 1,
        forall|i: int|
            0 <= i < rank - 1 ==> #[trigger] contiguous_stride(dims, rank, i) == contiguous_stride(
                dims,
                rank,
                i + 1,
            ) * dims[i + 1],
        contiguous_stride(dims, rank, 0) * dims[0] == prod(dims.take(rank)),
{
    assert(dims.subrange(rank, rank) =~= Seq::<i64>::empty());
    assert forall|i: int| 0 <= i < rank - 1 implies #[trigger] contiguous_stride(dims, rank, i)
        == contiguous_stride(dims, rank, i + 1) * dims[i + 1] by {
        lemma_stride_step(dims, rank, i);
    }
    let all = dims.take(rank);
    assert(all.drop_first() =~= dims.subrange(1, rank));
    assert(prod(all) == all[0] * prod(all.drop_first()));
    let a = dims[0] as int;
    let b = prod(dims.subrange(1, rank));
    assert(a * b == b * a) by (nonlinear_arith);
}


/// A descriptor tied to the lifetime of its source data; dereferences to
/// the `TensorDescriptor`.
pub struct DescriptorGuard<'a> {
    desc: TensorDescriptor,
    _marker: core::marker::PhantomData<&'a ()>,
}

impl<'a> DescriptorGuard<'a> {
    /// The guard over `desc`.
    pub(crate) fn new(desc: TensorDescriptor) -> (g: Self)
        ensures
            g@ == desc,
    {
        DescriptorGuard { desc, _marker: core::marker::PhantomData }
    }
}

impl<'a> View for DescriptorGuard<'a> {
    type V = TensorDescriptor;

    closed spec fn view(&self) -> TensorDescriptor {
        self.desc
    }
}

impl<'a> core::ops::Deref for DescriptorGuard<'a> {
    type Target = TensorDescriptor;

    fn deref(&self) -> (d: &TensorDescriptor)
        ensures
            *d == self@,
    {
        &self.desc
    }
}

} // verus!
