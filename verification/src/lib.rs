//! Core logic of two thin host bindings around the `brutil` utility library:
//! a scripting-runtime module and a WebAssembly export.
//!
//! Each binding marshals primitive values across a foreign-function boundary
//! and delegates to the shared greeting function. The computation the
//! bindings themselves perform — formatting the sum of two integers in
//! decimal, and prepending a host-specific phrase to the caller's name —
//! lives here, verified; the host glue and the call into `brutil` stand in
//! the unverified binding layer around this crate.

pub mod decimal;
pub mod greet;

pub use decimal::sum_as_string;
pub use greet::py_greet_message;
pub use greet::wasm_greet_message;
