//! FFI-safe string handle for passing text between Rust and Mojo.
//!
//! Mojo's `String` is not `#[repr(C)]`, so text crosses as two `Int`
//! parameters: the address of its UTF-8 bytes and their count.

use vstd::prelude::*;
use vstd::string::StringSliceAdditionalSpecFns;

verus! {

/// A borrowed UTF-8 string for FFI. Pass `.as_raw()` and `.len_isize()`
/// as two separate `Int` parameters to Mojo.
#[derive(Debug, Clone, Copy)]
pub struct MojoStr<'a> {
    text: &'a str,
    addr: isize,
}

impl<'a> MojoStr<'a> {
    /// The address of the text's first byte, recorded when the handle was
    /// made.
    pub closed spec fn spec_addr(&self) -> isize {
        self.addr
    }

    /// The text the handle borrows.
    pub closed spec fn spec_text(&self) -> &'a str {
        self.text
    }

    /// The number of UTF-8 bytes of the text.
    pub open spec fn spec_len(&self) -> usize {
        self.spec_text().spec_bytes().len() as usize
    }

    /// The handle over `s`, recording the address of its first byte.
    pub fn new(s: &'a str) -> (m: Self)
        ensures
            m.spec_text() == s,
            m.spec_addr() != 0,
    {
        let addr = crate::address::str_address(s);
        MojoStr { text: s, addr }
    }

    /// Address of the text's first byte as `isize` for Mojo's `Int`
    /// parameter.
    pub fn as_raw(&self) -> (addr: isize)
        ensures
            addr == self.spec_addr(),
    {
        self.addr
    }

    /// The number of UTF-8 bytes.
    pub fn len(&self) -> (n: usize)
        ensures
            n == self.spec_len(),
    {
        self.text.len()
    }

    pub fn is_empty(&self) -> (b: bool)
        ensures
            b == (self.spec_len() == 0),
    {
        self.text.len() == 0
    }

    /// Length as `isize` for Mojo's `Int` parameter.
    pub fn len_isize(&self) -> (n: isize)
        ensures
            n == self.spec_len() as isize,
    {
        self.text.len() as isize
    }

    /// The text the handle was made from.
    pub fn as_str(&self) -> (s: &'a str)
        ensures
            s == self.spec_text(),
    {
        self.text
    }
}

impl<'a> From<&'a str> for MojoStr<'a> {
    /// The handle over `s`, as `new` makes it.
    fn from(s: &'a str) -> (m: Self)
        ensures
            m.spec_text() == s,
            m.spec_addr() != 0,
    {
        Self::new(s)
    }
}

// The handle records the address of the text, which is not a function of
// the text alone, so `from` is not tied to one spec value; its own `ensures`
// says which text the handle borrows.
impl<'a> vstd::std_specs::convert::FromSpecImpl<&'a str> for MojoStr<'a> {
    open spec fn obeys_from_spec() -> bool {
        false
    }

    open spec fn from_spec(s: &'a str) -> Self {
        arbitrary()
    }
}

} // verus!
