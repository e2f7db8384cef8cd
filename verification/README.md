# pyroxide

The data model of a zero-copy bridge between Rust and Mojo, with contracts
and proofs.

- `src/` is the library: MAX dtypes and their bit-flag codes, tensor shapes,
  row-major tensor descriptors, owned and borrowed tensors, FFI string and
  slice handles, and the result codes reported across the boundary.
- `app/` is the glue on the Rust side of the boundary: the `mojo_type!`
  macro and the zerocopy-bound `IntoMojo`/`FromMojo` traits, out-parameter
  slots, panic catching, the floating-point geometry types, and
  `#[repr(C)]` copies of the descriptor types.
- `tests/` runs the library on concrete values.
