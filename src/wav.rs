//! Sample extraction for the WAV container: the waveform bytes the engine produces
//! read as the 16-bit samples the container stores.
use vstd::prelude::*;

use crate::sample_formats::F32;

verus! {

/// The signed 16-bit sample stored little-endian in bytes `lo`, `hi`.
pub open spec fn sample_of(lo: u8, hi: u8) -> i16 {
    (#[verifier::truncate] ((lo as u16 + 256 * (hi as u16)) as i16))
}

/// Whether waveform bytes in `format` hold 32-bit float samples, which are scaled
/// to 16 bits before they go into the container; every other format is stored as
/// 16-bit samples as it stands.
pub fn holds_float_samples(format: u32) -> (r: bool)
    ensures
        r == (format == F32),
{
    format == F32
}

/// The 16-bit little-endian samples in `raw`; a trailing odd byte is ignored.
pub fn pcm16_samples(raw: &[u8]) -> (r: Vec<i16>)
    ensures
        r@.len() == raw@.len() / 2,
        forall|i: int|
            0 <= i < r@.len() ==> #[trigger] r@[i] == sample_of(raw@[2 * i], raw@[2 * i + 1]),
{
    let n = raw.len() / 2;
    let mut r: Vec<i16> = Vec::with_capacity(n);
    let mut i: usize = 0;
    while i < n
        invariant
            n == raw@.len() / 2,
            i <= n,
            r@.len() == i,
            forall|j: int|
                0 <= j < i ==> #[trigger] r@[j] == sample_of(raw@[2 * j], raw@[2 * j + 1]),
        decreases n - i,
    {
        let len = raw.len();
        assert(2 * i + 1 < len) by (nonlinear_arith)
            requires
                i < n,
                n == len / 2,
        ;
        let lo = raw[2 * i];
        let hi = raw[2 * i + 1];
        let word: u16 = lo as u16 + 256 * (hi as u16);
        r.push(#[verifier::truncate] (word as i16));
        i = i + 1;
    }
    r
}

} // verus!
