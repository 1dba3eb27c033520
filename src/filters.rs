//! Window filters of the engine.
use vstd::prelude::*;

verus! {

/// Identifier of a filter, as the engine numbers them.
pub type Filter = u32;

/// Hann window.
pub const HANN: Filter = 0;
/// Hamming window.
pub const HAMMING: Filter = 1;
/// First order high-pass filter.
pub const FIRST_ORDER_HIGH_PASS: Filter = 2;

} // verus!
