//! Tensor shapes: up to 8 dimensions, the rest zero.

use vstd::prelude::*;

verus! {

/// The product of a sequence of dimensions, as a mathematical integer.
pub open spec fn prod(s: Seq<i64>) -> int
    decreases s.len(),
{
    if s.len() == 0 {
        1
    } else {
        s[0] * prod(s.drop_first())
    }
}

pub open spec fn fits_i64(x: int) -> bool {
    i64::MIN <= x <= i64::MAX
}

/// Appending a dimension multiplies the product by it.
pub proof fn lemma_prod_push(s: Seq<i64>, x: i64)
    ensures
        prod(s.push(x)) == prod(s) * x,
    decreases s.len(),
{
    if s.len() == 0 {
        assert(s.push(x).drop_first() =~= Seq::<i64>::empty());
        assert(prod(s.push(x)) == x * prod(Seq::<i64>::empty()));
    } else {
        assert(s.push(x).drop_first() =~= s.drop_first().push(x));
        lemma_prod_push(s.drop_first(), x);
        let a = s[0] as int;
        let b = prod(s.drop_first());
        assert(prod(s.push(x)) == a * prod(s.drop_first().push(x)));
        assert(a * (b * x) == (a * b) * x) by (nonlinear_arith);
    }
}

/// Tensor shape: up to 8 dimensions, unused entries zero.
#[derive(Debug, Clone, Copy, PartialEq)]
pub struct TensorShape {
    pub rank: i64,
    pub dims: [i64; 8],
}

impl TensorShape {
    /// The rank is one that a shape can have.
    pub open spec fn wf(self) -> bool {
        0 <= self.rank <= 8
    }

    /// The dimensions in use: the first `rank` entries.
    pub open spec fn dims_seq(self) -> Seq<i64> {
        self.dims@.take(self.rank as int)
    }

    /// `self` is the shape made of `dims`: its rank is their count, its first
    /// entries are `dims` and the others are zero.
    pub open spec fn holds_dims(self, dims: Seq<i64>) -> bool {
        &&& dims.len() <= 8
        &&& self.rank == dims.len()
        &&& forall|j: int| 0 <= j < 8 ==> #[trigger] self.dims@[j] == if j < dims.len() {
            dims[j]
        } else {
            0
        }
    }

    /// Multiplying the dimensions left to right never leaves the `i64` range.
    pub open spec fn numel_fits(self) -> bool {
        forall|k: int| 0 <= k <= self.rank ==> #[trigger] fits_i64(prod(self.dims_seq().take(k)))
    }

    /// The element count: the product of the dimensions, cast to `usize`.
    pub open spec fn spec_numel(self) -> usize {
        prod(self.dims_seq()) as i64 as usize
    }

    /// Create a shape from dimension sizes.
    pub fn new(dims: &[i64]) -> (shape: Self)
        requires
            dims@.len() <= 8,
        ensures
            shape.wf(),
            shape.holds_dims(dims@),
            shape == TensorShape::spec_of_dims(dims@),
            shape.dims_seq() == dims@,
    {
        let mut shape = TensorShape { rank: dims.len() as i64, dims: [0i64; 8] };
        let mut i: usize = 0;
        while i < dims.len()
            invariant
                dims@.len() <= 8,
                i <= dims@.len(),
                shape.rank == dims@.len(),
                forall|j: int| 0 <= j < i ==> #[trigger] shape.dims@[j] == dims@[j],
                forall|j: int| i <= j < 8 ==> #[trigger] shape.dims@[j] == 0,
            decreases dims@.len() - i,
        {
            shape.dims[i] = dims[i];
            i = i + 1;
        }
        assert(shape.dims_seq() =~= dims@);
        proof {
            assert(shape.holds_dims(dims@));
            let c = TensorShape::spec_of_dims(dims@);
            lemma_holds_dims_unique(c, shape, dims@);
        }
        shape
    }

    pub fn scalar() -> (shape: Self)
        ensures
            shape.wf(),
            shape.holds_dims(seq![]),
    {
        Self::new(&[])
    }

    pub fn vector(n: i64) -> (shape: Self)
        ensures
            shape.wf(),
            shape.holds_dims(seq![n]),
    {
        let d = [n];
        let shape = Self::new(&d);
        assert(d@ =~= seq![n]);
        shape
    }

    pub fn matrix(rows: i64, cols: i64) -> (shape: Self)
        ensures
            shape.wf(),
            shape.holds_dims(seq![rows, cols]),
    {
        let d = [rows, cols];
        let shape = Self::new(&d);
        assert(d@ =~= seq![rows, cols]);
        shape
    }

    pub fn ndim(&self) -> (n: usize)
        ensures
            n == self.rank as usize,
    {
        self.rank as usize
    }

    /// Excludes trailing zero-padded entries beyond `rank`.
    pub fn as_slice(&self) -> (s: &[i64])
        requires
            self.wf(),
        ensures
            s@ == self.dims_seq(),
    {
        vstd::slice::slice_subrange(self.dims.as_slice(), 0, self.rank as usize)
    }

    pub fn numel(&self) -> (n: usize)
        requires
            self.wf(),
            self.numel_fits(),
        ensures
            n == self.spec_numel(),
    {
        let s = self.as_slice();
        let mut acc: i64 = 1;
        let mut i: usize = 0;
        assert(s@.take(0) =~= Seq::<i64>::empty());
        while i < s.len()
            invariant
                i <= s@.len(),
                s@ == self.dims_seq(),
                s@.len() == self.rank,
                self.numel_fits(),
                acc == prod(s@.take(i as int)),
            decreases s@.len() - i,
        {
            proof {
                assert(s@.take(i as int).push(s@[i as int]) =~= s@.take(i + 1));
                lemma_prod_push(s@.take(i as int), s@[i as int]);
                assert(fits_i64(prod(self.dims_seq().take(i + 1))));
            }
            acc = acc * s[i];
            i = i + 1;
        }
        assert(s@.take(s@.len() as int) =~= s@);
        acc as usize
    }
}


impl TensorShape {
    /// The shape made of `dims` (see `holds_dims`).
    pub open spec fn spec_of_dims(dims: Seq<i64>) -> TensorShape {
        choose|s: TensorShape| s.holds_dims(dims)
    }
}

/// A shape made of `dims` is valid, gives back exactly `dims` as its
/// dimensions, and its element count is their product.
pub proof fn lemma_shape_of_dims(s: TensorShape, dims: Seq<i64>)
    requires
        s.holds_dims(dims),
    ensures
        s.wf(),
        s.dims_seq() == dims,
        s.spec_numel() == prod(dims) as i64 as usize,
{
    assert(s.dims_seq() =~= dims);
}

/// A shape is determined by the dimensions it holds.
pub proof fn lemma_holds_dims_unique(a: TensorShape, b: TensorShape, dims: Seq<i64>)
    requires
        a.holds_dims(dims),
        b.holds_dims(dims),
    ensures
        a == b,
{
    assert(a.dims =~= b.dims);
}

impl From<[i64; 0]> for TensorShape {
    fn from(dims: [i64; 0]) -> Self {
        Self::new(&dims)
    }
}

impl vstd::std_specs::convert::FromSpecImpl<[i64; 0]> for TensorShape {
    open spec fn obeys_from_spec() -> bool {
        true
    }

    open spec fn from_spec(dims: [i64; 0]) -> Self {
        TensorShape::spec_of_dims(dims@)
    }
}

impl From<[i64; 1]> for TensorShape {
    fn from(dims: [i64; 1]) -> Self {
        Self::new(&dims)
    }
}

impl vstd::std_specs::convert::FromSpecImpl<[i64; 1]> for TensorShape {
    open spec fn obeys_from_spec() -> bool {
        true
    }

    open spec fn from_spec(dims: [i64; 1]) -> Self {
        TensorShape::spec_of_dims(dims@)
    }
}

impl From<[i64; 2]> for TensorShape {
    fn from(dims: [i64; 2]) -> Self {
        Self::new(&dims)
    }
}

impl vstd::std_specs::convert::FromSpecImpl<[i64; 2]> for TensorShape {
    open spec fn obeys_from_spec() -> bool {
        true
    }

    open spec fn from_spec(dims: [i64; 2]) -> Self {
        TensorShape::spec_of_dims(dims@)
    }
}

impl From<[i64; 3]> for TensorShape {
    fn from(dims: [i64; 3]) -> Self {
        Self::new(&dims)
    }
}

impl vstd::std_specs::convert::FromSpecImpl<[i64; 3]> for TensorShape {
    open spec fn obeys_from_spec() -> bool {
        true
    }

    open spec fn from_spec(dims: [i64; 3]) -> Self {
        TensorShape::spec_of_dims(dims@)
    }
}

impl From<[i64; 4]> for TensorShape {
    fn from(dims: [i64; 4]) -> Self {
        Self::new(&dims)
    }
}

impl vstd::std_specs::convert::FromSpecImpl<[i64; 4]> for TensorShape {
    open spec fn obeys_from_spec() -> bool {
        true
    }

    open spec fn from_spec(dims: [i64; 4]) -> Self {
        TensorShape::spec_of_dims(dims@)
    }
}

impl From<[i64; 5]> for TensorShape {
    fn from(dims: [i64; 5]) -> Self {
        Self::new(&dims)
    }
}

impl vstd::std_specs::convert::FromSpecImpl<[i64; 5]> for TensorShape {
    open spec fn obeys_from_spec() -> bool {
        true
    }

    open spec fn from_spec(dims: [i64; 5]) -> Self {
        TensorShape::spec_of_dims(dims@)
    }
}

impl From<[i64; 6]> for TensorShape {
    fn from(dims: [i64; 6]) -> Self {
        Self::new(&dims)
    }
}

impl vstd::std_specs::convert::FromSpecImpl<[i64; 6]> for TensorShape {
    open spec fn obeys_from_spec() -> bool {
        true
    }

    open spec fn from_spec(dims: [i64; 6]) -> Self {
        TensorShape::spec_of_dims(dims@)
    }
}

impl From<[i64; 7]> for TensorShape {
    fn from(dims: [i64; 7]) -> Self {
        Self::new(&dims)
    }
}

impl vstd::std_specs::convert::FromSpecImpl<[i64; 7]> for TensorShape {
    open spec fn obeys_from_spec() -> bool {
        true
    }

    open spec fn from_spec(dims: [i64; 7]) -> Self {
        TensorShape::spec_of_dims(dims@)
    }
}

impl From<[i64; 8]> for TensorShape {
    fn from(dims: [i64; 8]) -> Self {
        Self::new(&dims)
    }
}

impl vstd::std_specs::convert::FromSpecImpl<[i64; 8]> for TensorShape {
    open spec fn obeys_from_spec() -> bool {
        true
    }

    open spec fn from_spec(dims: [i64; 8]) -> Self {
        TensorShape::spec_of_dims(dims@)
    }
}


/// The dimensions written as `Display` writes a shape's entries: decimal
/// integers separated by `", "`.
pub open spec fn dims_text(dims: Seq<i64>) -> Seq<char>
    decreases dims.len(),
{
    if dims.len() == 0 {
        Seq::empty()
    } else if dims.len() == 1 {
        crate::text::int_text(dims[0] as int)
    } else {
        dims_text(dims.drop_last()) + seq![',', ' '] + crate::text::int_text(dims.last() as int)
    }
}

/// The text of one dimension is its decimal text, and appending a dimension
/// to a nonempty list appends `", "` and its decimal text.
pub proof fn lemma_dims_text_push(dims: Seq<i64>, d: i64)
    ensures
        dims_text(seq![d]) == crate::text::int_text(d as int),
        dims.len() > 0 ==> dims_text(dims.push(d)) == dims_text(dims) + seq![',', ' ']
            + crate::text::int_text(d as int),
{
    assert(dims.push(d).drop_last() =~= dims);
}

/// The text of two nonempty lists of dimensions, one after the other, is
/// their texts joined by `", "`: every dimension is written, in order.
pub proof fn lemma_dims_text_concat(a: Seq<i64>, b: Seq<i64>)
    requires
        a.len() > 0,
        b.len() > 0,
    ensures
        dims_text(a + b) == dims_text(a) + seq![',', ' '] + dims_text(b),
    decreases b.len(),
{
    if b.len() == 1 {
        assert(a + b =~= a.push(b[0]));
        lemma_dims_text_push(a, b[0]);
    } else {
        let c = b.drop_last();
        assert((a + b).drop_last() =~= a + c);
        assert((a + b).last() == b.last());
        lemma_dims_text_concat(a, c);
        assert(dims_text(a + b) == dims_text(a + c) + seq![',', ' '] + crate::text::int_text(
            b.last() as int,
        ));
        assert(dims_text(b) == dims_text(c) + seq![',', ' '] + crate::text::int_text(
            b.last() as int,
        ));
        assert(dims_text(a + b) =~= dims_text(a) + seq![',', ' '] + dims_text(b));
    }
}

impl TensorShape {
    /// The text of the shape: its dimensions in parentheses, as `(3, 4)`.
    pub open spec fn spec_text(self) -> Seq<char> {
        seq!['('] + dims_text(self.dims_seq()) + seq![')']
    }

    /// The text of the shape, as `(3, 4)`.
    pub fn to_string(&self) -> (text: String)
        requires
            self.wf(),
        ensures
            text@ == self.spec_text(),
    {
        let dims = self.as_slice();
        let mut out = String::new();
        crate::text::push_char(&mut out, '(');
        let mut i: usize = 0;
        assert(dims@.take(0) =~= Seq::<i64>::empty());
        while i < dims.len()
            invariant
                i <= dims@.len(),
                out@ == seq!['('] + dims_text(dims@.take(i as int)),
            decreases dims@.len() - i,
        {
            let ghost before = out@;
            if i > 0 {
                crate::text::push_char(&mut out, ',');
                crate::text::push_char(&mut out, ' ');
            }
            crate::text::push_int(&mut out, dims[i] as i128);
            proof {
                let next = dims@.take(i + 1);
                assert(next.drop_last() =~= dims@.take(i as int));
                assert(next.last() == dims@[i as int]);
                if i == 0 {
                    assert(dims_text(next) == crate::text::int_text(dims@[0] as int));
                    assert(out@ =~= seq!['('] + dims_text(next));
                } else {
                    assert(dims_text(next) == dims_text(dims@.take(i as int)) + seq![',', ' ']
                        + crate::text::int_text(dims@[i as int] as int));
                    assert(out@ =~= seq!['('] + dims_text(next));
                }
            }
            i = i + 1;
        }
        crate::text::push_char(&mut out, ')');
        assert(dims@.take(dims@.len() as int) =~= dims@);
        out
    }
}

} // verus!
