//! Sample formats the engine reads and writes.
use vstd::prelude::*;

verus! {

/// Identifier of a sample format, as the engine numbers them.
pub type SampleFormat = u32;

/// Undefined sample format.
pub const UNDEFINED: SampleFormat = 0;
/// Unsigned 8-bit samples.
pub const U8: SampleFormat = 1;
/// Signed 8-bit samples.
pub const I8: SampleFormat = 2;
/// Unsigned 16-bit samples.
pub const U16: SampleFormat = 3;
/// Signed 16-bit samples.
pub const I16: SampleFormat = 4;
/// 32-bit float samples.
pub const F32: SampleFormat = 5;

} // verus!
