//! Transmission protocols of the engine and what follows from their speed.
use vstd::prelude::*;

verus! {

/// Identifier of a transmission protocol, as the engine numbers them.
pub type ProtocolId = u32;

/// Standard audible protocol with normal speed.
pub const AUDIBLE_NORMAL: ProtocolId = 0;
/// Fast audible protocol.
pub const AUDIBLE_FAST: ProtocolId = 1;
/// Fastest audible protocol.
pub const AUDIBLE_FASTEST: ProtocolId = 2;
/// Standard ultrasound protocol with normal speed.
pub const ULTRASOUND_NORMAL: ProtocolId = 3;
/// Fast ultrasound protocol.
pub const ULTRASOUND_FAST: ProtocolId = 4;
/// Fastest ultrasound protocol.
pub const ULTRASOUND_FASTEST: ProtocolId = 5;
/// Dual-tone protocol with normal speed.
pub const DT_NORMAL: ProtocolId = 6;
/// Fast dual-tone protocol.
pub const DT_FAST: ProtocolId = 7;
/// Fastest dual-tone protocol.
pub const DT_FASTEST: ProtocolId = 8;
/// Multi-tone protocol with normal speed.
pub const MT_NORMAL: ProtocolId = 9;
/// Fast multi-tone protocol.
pub const MT_FAST: ProtocolId = 10;
/// Fastest multi-tone protocol.
pub const MT_FASTEST: ProtocolId = 11;
/// Custom protocol slot 0.
pub const CUSTOM_0: ProtocolId = 12;
/// Custom protocol slot 1.
pub const CUSTOM_1: ProtocolId = 13;
/// Custom protocol slot 2.
pub const CUSTOM_2: ProtocolId = 14;
/// Custom protocol slot 3.
pub const CUSTOM_3: ProtocolId = 15;
/// Custom protocol slot 4.
pub const CUSTOM_4: ProtocolId = 16;
/// Custom protocol slot 5.
pub const CUSTOM_5: ProtocolId = 17;
/// Custom protocol slot 6.
pub const CUSTOM_6: ProtocolId = 18;
/// Custom protocol slot 7.
pub const CUSTOM_7: ProtocolId = 19;
/// Custom protocol slot 8.
pub const CUSTOM_8: ProtocolId = 20;
/// Custom protocol slot 9.
pub const CUSTOM_9: ProtocolId = 21;
/// Number of protocols; every identifier below it names one.
pub const COUNT: ProtocolId = 22;

/// How fast a protocol sends its payload.
#[derive(Debug, Clone, Copy, PartialEq, Eq, Structural)]
pub enum Speed {
    Normal,
    Fast,
    Fastest,
}

pub open spec fn is_fastest(id: ProtocolId) -> bool {
    id == AUDIBLE_FASTEST || id == ULTRASOUND_FASTEST || id == DT_FASTEST || id == MT_FASTEST
}

pub open spec fn is_fast(id: ProtocolId) -> bool {
    id == AUDIBLE_FAST || id == ULTRASOUND_FAST || id == DT_FAST || id == MT_FAST
}

pub open spec fn is_ultrasound(id: ProtocolId) -> bool {
    id == ULTRASOUND_NORMAL || id == ULTRASOUND_FAST || id == ULTRASOUND_FASTEST
}

/// The speed class of a protocol: the fastest and fast variants of each family,
/// normal for every other identifier (the normal variants and the custom slots).
pub open spec fn speed_of(id: ProtocolId) -> Speed {
    if is_fastest(id) {
        Speed::Fastest
    } else if is_fast(id) {
        Speed::Fast
    } else {
        Speed::Normal
    }
}

/// Milliseconds of audio spent on each payload byte at a given speed.
pub open spec fn ms_per_byte(speed: Speed) -> nat {
    match speed {
        Speed::Fastest => 10,
        Speed::Fast => 20,
        Speed::Normal => 30,
    }
}

/// Fixed overhead of a transmission (markers and framing), in milliseconds.
pub const BASE_DURATION_MS: u128 = 200;

/// Estimated length of a transmission in milliseconds.
pub open spec fn duration_ms(id: ProtocolId, text_length: nat) -> nat {
    BASE_DURATION_MS as nat + text_length * ms_per_byte(speed_of(id))
}

/// The speed class of a protocol.
pub fn protocol_speed(id: ProtocolId) -> (r: Speed)
    ensures
        r == speed_of(id),
{
    if id == AUDIBLE_FASTEST || id == ULTRASOUND_FASTEST || id == DT_FASTEST || id == MT_FASTEST {
        Speed::Fastest
    } else if id == AUDIBLE_FAST || id == ULTRASOUND_FAST || id == DT_FAST || id == MT_FAST {
        Speed::Fast
    } else {
        Speed::Normal
    }
}

/// Estimated duration of the audio that encodes `text_length` bytes with protocol
/// `id`, in milliseconds: a fixed overhead plus a per-byte time set by the speed.
pub fn estimate_duration_ms(id: ProtocolId, text_length: usize) -> (r: u128)
    ensures
        r == duration_ms(id, text_length as nat),
{
    let per_byte: u128 = match protocol_speed(id) {
        Speed::Fastest => 10,
        Speed::Fast => 20,
        Speed::Normal => 30,
    };
    assert(text_length as u128 * per_byte <= 30 * (usize::MAX as u128)) by (nonlinear_arith)
        requires
            per_byte <= 30,
    ;
    BASE_DURATION_MS + text_length as u128 * per_byte
}

/// Recommended sample rate for a protocol, in Hz: 48000 for the ultrasound
/// family, which needs the higher band, 44100 for every other protocol.
pub fn get_protocol_sample_rate(id: ProtocolId) -> (r: u32)
    ensures
        r == (if is_ultrasound(id) { 48000u32 } else { 44100u32 }),
{
    if id == ULTRASOUND_NORMAL || id == ULTRASOUND_FAST || id == ULTRASOUND_FASTEST {
        48000
    } else {
        44100
    }
}

} // verus!
