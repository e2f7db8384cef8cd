//! Typed tensors, owned or borrowed, and the element types they hold.

use super::descriptor::{DescriptorGuard, TensorDescriptor};
use super::dtype::{lemma_dtype_classes, DType};
use super::shape::TensorShape;
use vstd::prelude::*;

verus! {

/// Maps Rust primitives to MAX `DType` values; the dtype's element width is
/// the size of the Rust type.
pub trait MojoDType: Copy + Default {
    const DTYPE: DType;

    /// The element's value.
    spec fn spec_value(self) -> int;

    /// The element's value, widened to `i128`.
    fn to_i128(self) -> (v: i128)
        ensures
            v == self.spec_value(),
    ;

    /// An element of the dtype is as wide as a value of the Rust type.
    proof fn lemma_dtype_width()
        ensures
            Self::DTYPE.spec_byte_width() == vstd::layout::size_of::<Self>(),
    ;

    /// An element's value lies in the range of its dtype's width and
    /// signedness, distinct elements have distinct values, and the default
    /// element is zero.
    proof fn lemma_value_range(x: Self, y: Self, z: Self)
        ensures
            Self::DTYPE.spec_is_integer() && !Self::DTYPE.spec_is_signed() ==> 0 <= x.spec_value()
                < vstd::arithmetic::power2::pow2((8 * Self::DTYPE.spec_byte_width()) as nat),
            Self::DTYPE.spec_is_signed() ==> -vstd::arithmetic::power2::pow2(
                (8 * Self::DTYPE.spec_byte_width() - 1) as nat,
            ) <= x.spec_value() < vstd::arithmetic::power2::pow2(
                (8 * Self::DTYPE.spec_byte_width() - 1) as nat,
            ),
            (x.spec_value() == y.spec_value()) <==> x == y,
            call_ensures(Self::default, (), z) ==> z.spec_value() == 0,
    ;
}

impl MojoDType for i8 {
    const DTYPE: DType = DType::Int8;

    open spec fn spec_value(self) -> int {
        self as int
    }

    fn to_i128(self) -> (v: i128) {
        self as i128
    }

    proof fn lemma_dtype_width() {
        broadcast use vstd::layout::layout_of_primitives;

    }

    proof fn lemma_value_range(x: Self, y: Self, z: Self) {
        vstd::arithmetic::power2::lemma2_to64();
        lemma_code_bits_of(Self::DTYPE);
    }
}

impl MojoDType for i16 {
    const DTYPE: DType = DType::Int16;

    open spec fn spec_value(self) -> int {
        self as int
    }

    fn to_i128(self) -> (v: i128) {
        self as i128
    }

    proof fn lemma_dtype_width() {
        broadcast use vstd::layout::layout_of_primitives;

    }

    proof fn lemma_value_range(x: Self, y: Self, z: Self) {
        vstd::arithmetic::power2::lemma2_to64();
        lemma_code_bits_of(Self::DTYPE);
    }
}

impl MojoDType for i32 {
    const DTYPE: DType = DType::Int32;

    open spec fn spec_value(self) -> int {
        self as int
    }

    fn to_i128(self) -> (v: i128) {
        self as i128
    }

    proof fn lemma_dtype_width() {
        broadcast use vstd::layout::layout_of_primitives;

    }

    proof fn lemma_value_range(x: Self, y: Self, z: Self) {
        vstd::arithmetic::power2::lemma2_to64();
        lemma_code_bits_of(Self::DTYPE);
    }
}

impl MojoDType for i64 {
    const DTYPE: DType = DType::Int64;

    open spec fn spec_value(self) -> int {
        self as int
    }

    fn to_i128(self) -> (v: i128) {
        self as i128
    }

    proof fn lemma_dtype_width() {
        broadcast use vstd::layout::layout_of_primitives;

    }

    proof fn lemma_value_range(x: Self, y: Self, z: Self) {
        vstd::arithmetic::power2::lemma2_to64();
        vstd::arithmetic::power2::lemma2_to64_rest();
        lemma_code_bits_of(Self::DTYPE);
    }
}

impl MojoDType for u8 {
    const DTYPE: DType = DType::UInt8;

    open spec fn spec_value(self) -> int {
        self as int
    }

    fn to_i128(self) -> (v: i128) {
        self as i128
    }

    proof fn lemma_dtype_width() {
        broadcast use vstd::layout::layout_of_primitives;

    }

    proof fn lemma_value_range(x: Self, y: Self, z: Self) {
        vstd::arithmetic::power2::lemma2_to64();
        lemma_code_bits_of(Self::DTYPE);
    }
}

impl MojoDType for u16 {
    const DTYPE: DType = DType::UInt16;

    open spec fn spec_value(self) -> int {
        self as int
    }

    fn to_i128(self) -> (v: i128) {
        self as i128
    }

    proof fn lemma_dtype_width() {
        broadcast use vstd::layout::layout_of_primitives;

    }

    proof fn lemma_value_range(x: Self, y: Self, z: Self) {
        vstd::arithmetic::power2::lemma2_to64();
        lemma_code_bits_of(Self::DTYPE);
    }
}

impl MojoDType for u32 {
    const DTYPE: DType = DType::UInt32;

    open spec fn spec_value(self) -> int {
        self as int
    }

    fn to_i128(self) -> (v: i128) {
        self as i128
    }

    proof fn lemma_dtype_width() {
        broadcast use vstd::layout::layout_of_primitives;

    }

    proof fn lemma_value_range(x: Self, y: Self, z: Self) {
        vstd::arithmetic::power2::lemma2_to64();
        lemma_code_bits_of(Self::DTYPE);
    }
}

impl MojoDType for u64 {
    const DTYPE: DType = DType::UInt64;

    open spec fn spec_value(self) -> int {
        self as int
    }

    fn to_i128(self) -> (v: i128) {
        self as i128
    }

    proof fn lemma_dtype_width() {
        broadcast use vstd::layout::layout_of_primitives;

    }

    proof fn lemma_value_range(x: Self, y: Self, z: Self) {
        vstd::arithmetic::power2::lemma2_to64();
        lemma_code_bits_of(Self::DTYPE);
    }
}

/// The class facts of one dtype.
proof fn lemma_code_bits_of(d: DType)
    ensures
        d.spec_is_integer() == (d is Int8 || d is Int16 || d is Int32 || d is Int64 || d is UInt8
            || d is UInt16 || d is UInt32 || d is UInt64),
        d.spec_is_signed() == (d is Int8 || d is Int16 || d is Int32 || d is Int64),
{
    lemma_dtype_classes(d);
}

/// Each element's value is the integer it holds.
pub proof fn lemma_element_values(a: i8, b: i16, c: i32, d: i64, e: u8, f: u16, g: u32, h: u64)
    ensures
        a.spec_value() == a as int,
        b.spec_value() == b as int,
        c.spec_value() == c as int,
        d.spec_value() == d as int,
        e.spec_value() == e as int,
        f.spec_value() == f as int,
        g.spec_value() == g as int,
        h.spec_value() == h as int,
{
}

/// The element types map to the integer dtype of their width and
/// signedness: `i8`..`i64` to the signed `Int*` dtypes, `u8`..`u64` to the
/// unsigned `UInt*` ones.
pub proof fn lemma_element_dtypes()
    ensures
        <i8 as MojoDType>::DTYPE.spec_is_integer() && <i8 as MojoDType>::DTYPE.spec_is_signed(),
        <i16 as MojoDType>::DTYPE.spec_is_integer() && <i16 as MojoDType>::DTYPE.spec_is_signed(),
        <i32 as MojoDType>::DTYPE.spec_is_integer() && <i32 as MojoDType>::DTYPE.spec_is_signed(),
        <i64 as MojoDType>::DTYPE.spec_is_integer() && <i64 as MojoDType>::DTYPE.spec_is_signed(),
        <u8 as MojoDType>::DTYPE.spec_is_integer() && !<u8 as MojoDType>::DTYPE.spec_is_signed(),
        <u16 as MojoDType>::DTYPE.spec_is_integer() && !<u16 as MojoDType>::DTYPE.spec_is_signed(),
        <u32 as MojoDType>::DTYPE.spec_is_integer() && !<u32 as MojoDType>::DTYPE.spec_is_signed(),
        <u64 as MojoDType>::DTYPE.spec_is_integer() && !<u64 as MojoDType>::DTYPE.spec_is_signed(),
        !<i8 as MojoDType>::DTYPE.spec_is_float() && !<i16 as MojoDType>::DTYPE.spec_is_float()
            && !<i32 as MojoDType>::DTYPE.spec_is_float() && !<i64 as MojoDType>::DTYPE.spec_is_float()
            && !<u8 as MojoDType>::DTYPE.spec_is_float() && !<u16 as MojoDType>::DTYPE.spec_is_float()
            && !<u32 as MojoDType>::DTYPE.spec_is_float() && !<u64 as MojoDType>::DTYPE.spec_is_float(),
{
    lemma_dtype_classes(DType::Int8);
    lemma_dtype_classes(DType::Int16);
    lemma_dtype_classes(DType::Int32);
    lemma_dtype_classes(DType::Int64);
    lemma_dtype_classes(DType::UInt8);
    lemma_dtype_classes(DType::UInt16);
    lemma_dtype_classes(DType::UInt32);
    lemma_dtype_classes(DType::UInt64);
}

/// The descriptor of `data` laid out row-major with `shape`.
fn make_descriptor<'a, T: MojoDType>(shape: &TensorShape, data: &'a [T]) -> (g: DescriptorGuard<'a>)
    requires
        shape.rank <= 8,
        shape.strides_fit(),
    ensures
        g@.lays_out(T::DTYPE, *shape),
        g@.data_ptr != 0,
{
    let addr = crate::address::slice_address(data);
    DescriptorGuard::new(TensorDescriptor::contiguous(T::DTYPE, shape, addr as i64))
}

/// `Vec::as_mut_slice`: the whole vector as a mutable slice. The length of a
/// slice is fixed by the reference to it, so writes through it keep the
/// vector's length; the call only reborrows and cannot unwind.
#[verifier::external_body]
fn vec_as_mut_slice<T>(v: &mut Vec<T>) -> (s: &mut [T])
    ensures
        s@ == old(v)@,
        final(v)@ == final(s)@,
        final(v)@.len() == old(v)@.len(),
    no_unwind
{
    v.as_mut_slice()
}

/// Owned, typed tensor: row-major data whose length is the element count of
/// its shape.
pub struct Tensor<T: Copy> {
    data: Vec<T>,
    shape: TensorShape,
}

impl<T: Copy> Tensor<T> {
    /// The shape is valid, its element count fits, and the data holds one
    /// element per entry.
    #[verifier::type_invariant]
    spec fn wf(self) -> bool {
        &&& self.shape.wf()
        &&& self.shape.numel_fits()
        &&& self.data@.len() == self.shape.spec_numel()
    }

    /// The shape of the tensor.
    pub closed spec fn spec_shape(&self) -> TensorShape {
        self.shape
    }
}

impl<T: Copy> View for Tensor<T> {
    type V = Seq<T>;

    closed spec fn view(&self) -> Seq<T> {
        self.data@
    }
}

impl<T: MojoDType> Tensor<T> {
    /// A tensor of `shape` filled with `T::default()`.
    pub fn zeros(shape: TensorShape) -> (t: Self)
        requires
            shape.wf(),
            shape.numel_fits(),
        ensures
            t.spec_shape() == shape,
            t@.len() == shape.spec_numel(),
            forall|i: int| 0 <= i < t@.len() ==> call_ensures(T::default, (), #[trigger] t@[i]),
    {
        let n = shape.numel();
        let zero = T::default();
        let mut data: Vec<T> = Vec::new();
        let mut i: usize = 0;
        while i < n
            invariant
                i <= n,
                data@.len() == i,
                call_ensures(T::default, (), zero),
                forall|j: int| 0 <= j < i ==> #[trigger] data@[j] == zero,
            decreases n - i,
        {
            data.push(zero);
            i = i + 1;
        }
        Tensor { data, shape }
    }

    /// A tensor of `shape` over `data`, which holds one element per entry.
    pub fn from_data(shape: TensorShape, data: Vec<T>) -> (t: Self)
        requires
            shape.wf(),
            shape.numel_fits(),
            shape.spec_numel() == data@.len(),
        ensures
            t.spec_shape() == shape,
            t@ == data@,
    {
        Tensor { data, shape }
    }

    /// A tensor of `shape` over a copy of `data`.
    pub fn from_slice(shape: TensorShape, data: &[T]) -> (t: Self)
        requires
            shape.wf(),
            shape.numel_fits(),
            shape.spec_numel() == data@.len(),
        ensures
            t.spec_shape() == shape,
            t@ == data@,
    {
        Self::from_data(shape, vstd::slice::slice_to_vec(data))
    }

    /// A descriptor of the tensor for FFI, borrowing the tensor.
    pub fn descriptor(&self) -> (g: DescriptorGuard<'_>)
        requires
            self.spec_shape().strides_fit(),
        ensures
            g@.lays_out(T::DTYPE, self.spec_shape()),
            g@.data_ptr != 0,
    {
        proof {
            use_type_invariant(self);
        }
        make_descriptor(&self.shape, self.data.as_slice())
    }

    pub fn shape(&self) -> (s: &TensorShape)
        ensures
            *s == self.spec_shape(),
            s.wf(),
            s.numel_fits(),
    {
        proof {
            use_type_invariant(self);
        }
        &self.shape
    }

    pub fn dtype(&self) -> (d: DType)
        ensures
            d == T::DTYPE,
    {
        T::DTYPE
    }

    pub fn numel(&self) -> (n: usize)
        ensures
            n == self@.len(),
            n == self.spec_shape().spec_numel(),
    {
        proof {
            use_type_invariant(self);
        }
        self.data.len()
    }
}

impl<T: Copy> core::ops::Deref for Tensor<T> {
    type Target = [T];

    fn deref(&self) -> (s: &[T])
        ensures
            s@ == self@,
    {
        self.data.as_slice()
    }
}

impl<T: Copy> core::ops::DerefMut for Tensor<T> {
    fn deref_mut(&mut self) -> (s: &mut [T])
        ensures
            s@ == old(self)@,
            final(self)@ == final(s)@,
            final(self)@.len() == old(self)@.len(),
            final(self).spec_shape() == old(self).spec_shape(),
    {
        proof {
            use_type_invariant(&*self);
        }
        vec_as_mut_slice(&mut self.data)
    }
}

/// Borrowed tensor view over external data, without copying it.
pub struct TensorView<'a, T: MojoDType> {
    data: &'a [T],
    shape: TensorShape,
}

impl<'a, T: MojoDType> TensorView<'a, T> {
    #[verifier::type_invariant]
    spec fn inv(self) -> bool {
        &&& self.shape.wf()
        &&& self.shape.numel_fits()
        &&& self.data@.len() == self.shape.spec_numel()
    }

    /// The shape of the view.
    pub closed spec fn spec_shape(&self) -> TensorShape {
        self.shape
    }

    /// The viewed elements.
    pub closed spec fn spec_data(&self) -> &'a [T] {
        self.data
    }

    pub fn new(shape: TensorShape, data: &'a [T]) -> (v: Self)
        requires
            shape.wf(),
            shape.numel_fits(),
            shape.spec_numel() == data@.len(),
        ensures
            v.spec_shape() == shape,
            v.spec_data() == data,
    {
        TensorView { data, shape }
    }

    /// A descriptor of the viewed data for FFI, borrowing the view.
    pub fn descriptor(&self) -> (g: DescriptorGuard<'_>)
        requires
            self.spec_shape().strides_fit(),
        ensures
            g@.lays_out(T::DTYPE, self.spec_shape()),
            g@.data_ptr != 0,
    {
        proof {
            use_type_invariant(self);
        }
        make_descriptor(&self.shape, self.data)
    }

    pub fn shape(&self) -> (s: &TensorShape)
        ensures
            *s == self.spec_shape(),
            s.wf(),
            s.numel_fits(),
    {
        proof {
            use_type_invariant(self);
        }
        &self.shape
    }

    pub fn dtype(&self) -> (d: DType)
        ensures
            d == T::DTYPE,
    {
        T::DTYPE
    }

    pub fn data(&self) -> (d: &'a [T])
        ensures
            d == self.spec_data(),
    {
        self.data
    }

    pub fn numel(&self) -> (n: usize)
        ensures
            n == self.spec_data()@.len(),
            n == self.spec_shape().spec_numel(),
    {
        proof {
            use_type_invariant(self);
        }
        self.data.len()
    }
}


/// The elements written as decimal integers separated by `", "`.
pub open spec fn values_text<T: MojoDType>(vals: Seq<T>) -> Seq<char>
    decreases vals.len(),
{
    if vals.len() == 0 {
        Seq::empty()
    } else if vals.len() == 1 {
        crate::text::int_text(vals[0].spec_value())
    } else {
        values_text(vals.drop_last()) + seq![',', ' '] + crate::text::int_text(
            vals.last().spec_value(),
        )
    }
}

/// The text of one element is its decimal text, and appending an element to
/// a nonempty list appends `", "` and its decimal text.
pub proof fn lemma_values_text_push<T: MojoDType>(vals: Seq<T>, v: T)
    ensures
        values_text(seq![v]) == crate::text::int_text(v.spec_value()),
        vals.len() > 0 ==> values_text(vals.push(v)) == values_text(vals) + seq![',', ' ']
            + crate::text::int_text(v.spec_value()),
{
    assert(vals.push(v).drop_last() =~= vals);
}

/// The text of two nonempty lists of elements, one after the other, is their
/// texts joined by `", "`: every element is written, in order.
pub proof fn lemma_values_text_concat<T: MojoDType>(a: Seq<T>, b: Seq<T>)
    requires
        a.len() > 0,
        b.len() > 0,
    ensures
        values_text(a + b) == values_text(a) + seq![',', ' '] + values_text(b),
    decreases b.len(),
{
    if b.len() == 1 {
        assert(a + b =~= a.push(b[0]));
        lemma_values_text_push(a, b[0]);
    } else {
        let c = b.drop_last();
        assert((a + b).drop_last() =~= a + c);
        assert((a + b).last() == b.last());
        lemma_values_text_concat(a, c);
        assert(values_text(a + b) == values_text(a + c) + seq![',', ' '] + crate::text::int_text(
            b.last().spec_value(),
        ));
        assert(values_text(b) == values_text(c) + seq![',', ' '] + crate::text::int_text(
            b.last().spec_value(),
        ));
        assert(values_text(a + b) =~= values_text(a) + seq![',', ' '] + values_text(b));
    }
}

/// A tensor's text lists all of its elements when it has at most six;
/// otherwise it lists exactly the first six, then the count of the others,
/// which reads back as the number of elements left out.
pub proof fn lemma_tensor_text_shown<T: MojoDType>(t: Tensor<T>)
    ensures
        t@.len() <= 6 ==> t.spec_text() == "Tensor<"@ + T::DTYPE.spec_name() + ">"@
            + t.spec_shape().spec_text() + " ["@ + values_text(t@) + "]"@,
        t@.len() > 6 ==> exists|count: Seq<char>|
            {
                &&& t.spec_text() == "Tensor<"@ + T::DTYPE.spec_name() + ">"@
                    + t.spec_shape().spec_text() + " ["@ + values_text(t@.subrange(0, 6)) + ", ... ("@
                    + count + " more)"@ + "]"@
                &&& crate::text::digits_value(count) == t@.len() - 6
            },
{
    if t@.len() <= 6 {
        assert(t@.take(t@.len() as int) =~= t@);
        assert(t.spec_text() =~= "Tensor<"@ + T::DTYPE.spec_name() + ">"@ + t.spec_shape().spec_text()
            + " ["@ + values_text(t@) + "]"@);
    } else {
        let count = crate::text::decimal((t@.len() - 6) as nat);
        crate::text::lemma_decimal_reads_back((t@.len() - 6) as nat);
        assert(t@.take(6) =~= t@.subrange(0, 6));
        assert(t.spec_text() =~= "Tensor<"@ + T::DTYPE.spec_name() + ">"@ + t.spec_shape().spec_text()
            + " ["@ + values_text(t@.subrange(0, 6)) + ", ... ("@ + count + " more)"@ + "]"@);
    }
}

impl<T: MojoDType> Tensor<T> {
    /// The text of the tensor: dtype, shape and its first six elements, with
    /// the count of those left out, as `Tensor<Int32>(2, 3) [1, 2, 3, 4, 5, 6]`.
    pub open spec fn spec_text(&self) -> Seq<char> {
        let n = self@.len();
        let shown: nat = if n < 6 {
            n
        } else {
            6
        };
        "Tensor<"@ + T::DTYPE.spec_name() + ">"@ + self.spec_shape().spec_text() + " ["@
            + values_text(self@.take(shown as int)) + (if n > shown {
            ", ... ("@ + crate::text::decimal((n - shown) as nat) + " more)"@
        } else {
            Seq::empty()
        }) + "]"@
    }

    /// The text of the tensor, as `Display` writes it.
    pub fn to_string(&self) -> (text: String)
        ensures
            text@ == self.spec_text(),
    {
        proof {
            use_type_invariant(self);
        }
        let mut out = String::new();
        crate::text::push_str(&mut out, "Tensor<");
        crate::text::push_str(&mut out, T::DTYPE.name());
        crate::text::push_str(&mut out, ">");
        let shape_text = self.shape.to_string();
        crate::text::push_str(&mut out, shape_text.as_str());
        crate::text::push_str(&mut out, " [");
        let ghost head = out@;
        let n = self.data.len();
        let show: usize = if n < 6 {
            n
        } else {
            6
        };
        let mut i: usize = 0;
        assert(self.data@.take(0) =~= Seq::<T>::empty());
        while i < show
            invariant
                show <= n,
                n == self.data@.len(),
                i <= show,
                out@ == head + values_text(self.data@.take(i as int)),
            decreases show - i,
        {
            if i > 0 {
                crate::text::push_char(&mut out, ',');
                crate::text::push_char(&mut out, ' ');
            }
            let v = self.data[i].to_i128();
            crate::text::push_int(&mut out, v);
            proof {
                let next = self.data@.take(i + 1);
                assert(next.drop_last() =~= self.data@.take(i as int));
                assert(next.last() == self.data@[i as int]);
                if i == 0 {
                    assert(values_text(next) == crate::text::int_text(self.data@[0].spec_value()));
                } else {
                    assert(values_text(next) == values_text(self.data@.take(i as int)) + seq![',', ' ']
                        + crate::text::int_text(self.data@[i as int].spec_value()));
                }
                assert(out@ =~= head + values_text(next));
            }
            i = i + 1;
        }
        let ghost body = out@;
        if n > show {
            crate::text::push_str(&mut out, ", ... (");
            crate::text::push_decimal(&mut out, (n - show) as u128);
            crate::text::push_str(&mut out, " more)");
        }
        crate::text::push_str(&mut out, "]");
        proof {
            if n > show {
                assert(out@ =~= body + (", ... ("@ + crate::text::decimal((n - show) as nat)
                    + " more)"@) + "]"@);
            } else {
                assert(out@ =~= body + Seq::<char>::empty() + "]"@);
            }
        }
        out
    }
}

} // verus!
