//! Zero-copy bridge types between Rust and Mojo: the data model of the
//! MAX tensor types, FFI strings, slice handles and result codes.

mod address;
pub mod bridge;
pub mod string;
pub mod text;
pub mod trampoline;
pub mod types;
