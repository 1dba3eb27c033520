//! Limits and defaults of the ggwave engine.
use vstd::prelude::*;

verus! {

/// Maximum data size for a decoding buffer, in bytes.
pub const MAX_DATA_SIZE: usize = 256;

/// Maximum payload length with variable-length framing, in bytes.
pub const MAX_LENGTH_VARIABLE: usize = 140;

/// Maximum payload length with fixed-length framing, in bytes.
pub const MAX_LENGTH_FIXED: usize = 64;

/// Default number of marker frames.
pub const DEFAULT_MARKER_FRAMES: usize = 16;

/// Default encoded data offset.
pub const DEFAULT_ENCODED_DATA_OFFSET: usize = 3;

/// Minimum volume level.
pub const MIN_VOLUME: i32 = 0;

/// Maximum volume level.
pub const MAX_VOLUME: i32 = 100;

/// Default volume level for encoding.
pub const DEFAULT_VOLUME: i32 = 50;

/// Default sample rate for audio processing, in Hz.
pub const DEFAULT_SAMPLE_RATE: u32 = 48000;

/// Minimum recommended size of a decoding buffer, in bytes.
pub const MIN_DECODE_BUFFER_SIZE: usize = 1024;

/// Number of engine instances that can be alive at once, process-wide.
pub const MAX_INSTANCES: i32 = 4;

} // verus!
