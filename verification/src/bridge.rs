//! Slice handles for the Rust–Mojo boundary: an `(address, length)` pair
//! that Mojo receives as two `Int` parameters.
//!
//! Rust always owns the data; Mojo borrows it through the address for the
//! duration of a call. The element type is meant to be a plain-data type
//! with a stable layout.

use std::marker::PhantomData;
use std::rc::Rc;
use vstd::prelude::*;

verus! {

/// Immutable slice handle: `(ptr, len)` pair for Mojo.
///
/// `MojoSlice` is `!Send` and `!Sync`: the address is only lent for a call
/// made on the current thread.
pub struct MojoSlice<'a, T> {
    data: &'a [T],
    addr: isize,
    _not_send: PhantomData<Rc<()>>,
}

impl<'a, T> View for MojoSlice<'a, T> {
    type V = Seq<T>;

    closed spec fn view(&self) -> Seq<T> {
        self.data@
    }
}

impl<'a, T> MojoSlice<'a, T> {
    /// The address of the first element, recorded when the handle was made.
    pub closed spec fn spec_addr(&self) -> isize {
        self.addr
    }

    /// The handle over `slice`, recording the address of its first element.
    pub fn new(slice: &'a [T]) -> (s: Self)
        ensures
            s@ == slice@,
            s.spec_addr() != 0,
    {
        let addr = crate::address::slice_address(slice);
        MojoSlice { data: slice, addr, _not_send: PhantomData }
    }

    /// Address of the first element as `isize`.
    pub fn as_raw(&self) -> (addr: isize)
        ensures
            addr == self.spec_addr(),
    {
        self.addr
    }

    pub fn len(&self) -> (n: usize)
        ensures
            n == self@.len(),
    {
        self.data.len()
    }

    /// Length as `isize` for Mojo's `Int` parameter.
    pub fn len_isize(&self) -> (n: isize)
        ensures
            n == self@.len() as isize,
    {
        self.data.len() as isize
    }

    pub fn is_empty(&self) -> (b: bool)
        ensures
            b == (self@.len() == 0),
    {
        self.data.len() == 0
    }

    /// The number of bytes the elements occupy.
    pub fn size_bytes(&self) -> (n: usize)
        ensures
            n == self@.len() * vstd::layout::size_of::<T>(),
    {
        broadcast use vstd::layout::layout_of_slices;

        core::mem::size_of_val(self.data)
    }
}

/// Mutable slice handle: `(ptr, len)` pair for Mojo to write into.
///
/// `MojoSliceMut` is `!Send` and `!Sync`: the address is only lent for a
/// call made on the current thread.
pub struct MojoSliceMut<'a, T> {
    data: &'a mut [T],
    addr: isize,
    _not_send: PhantomData<Rc<()>>,
}

impl<'a, T> View for MojoSliceMut<'a, T> {
    type V = Seq<T>;

    closed spec fn view(&self) -> Seq<T> {
        self.data@
    }
}

impl<'a, T> MojoSliceMut<'a, T> {
    /// The address of the first element, recorded when the handle was made.
    pub closed spec fn spec_addr(&self) -> isize {
        self.addr
    }

    /// The handle over `slice`, recording the address of its first element.
    pub fn new(slice: &'a mut [T]) -> (s: Self)
        ensures
            s@ == old(slice)@,
            s.spec_addr() != 0,
    {
        let addr = crate::address::slice_address(&*slice);
        MojoSliceMut { data: slice, addr, _not_send: PhantomData }
    }

    /// Address of the first element as `isize`.
    pub fn as_raw(&self) -> (addr: isize)
        ensures
            addr == self.spec_addr(),
    {
        self.addr
    }

    pub fn len(&self) -> (n: usize)
        ensures
            n == self@.len(),
    {
        self.data.len()
    }

    /// Length as `isize` for Mojo's `Int` parameter.
    pub fn len_isize(&self) -> (n: isize)
        ensures
            n == self@.len() as isize,
    {
        self.data.len() as isize
    }

    pub fn is_empty(&self) -> (b: bool)
        ensures
            b == (self@.len() == 0),
    {
        self.data.len() == 0
    }

    /// The number of bytes the elements occupy.
    pub fn size_bytes(&self) -> (n: usize)
        ensures
            n == self@.len() * vstd::layout::size_of::<T>(),
    {
        broadcast use vstd::layout::layout_of_slices;

        core::mem::size_of_val(&*self.data)
    }
}

} // verus!
