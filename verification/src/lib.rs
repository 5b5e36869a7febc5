//! Verified extraction of visibility records from a random-groups binary
//! table: resolving a named group parameter's column index, computing
//! absolute group offsets for a (timestep, row) selection, assembling the
//! raw per-group float payloads into a dense tensor, and reducing that
//! tensor to the selected polarizations.
//!
//! Payload values are IEEE-754 single-precision floats; the library carries
//! them as their 32-bit patterns (`u32`), which keeps every reshaping step
//! bit-exact. I/O (opening the source file, reading groups and header keys,
//! serializing the output array) lives outside the library.

pub mod error;
pub mod group;
pub mod layout;
pub mod polarization;
pub mod resolver;
pub mod selection;
pub mod tensor;
