//! Operating mode flags of an engine instance.
use vstd::prelude::*;

verus! {

/// Reception.
pub const RX: i32 = 2;
/// Transmission.
pub const TX: i32 = 4;
/// Reception and transmission.
pub const RX_AND_TX: i32 = 6;
/// Transmission of tones only.
pub const TX_ONLY_TONES: i32 = 8;
/// Direct sequence spread.
pub const USE_DSS: i32 = 16;

} // verus!
