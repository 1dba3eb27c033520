//! The engine's configuration record, held as plain values, and its builder.
use vstd::prelude::*;

use crate::constants::MAX_LENGTH_FIXED;
use crate::error::Error;

verus! {

/// Configuration of one engine instance.
///
/// Rates are whole Hz and the marker threshold is in thousandths: the engine takes
/// both as floats, and the caller that talks to the engine converts them.
#[derive(Debug, Clone, Copy, PartialEq, Eq, Structural)]
pub struct Parameters {
    /// Fixed payload length in bytes; zero or less selects variable-length framing.
    pub payload_length: i32,
    /// Capture sample rate, in Hz.
    pub sample_rate_inp: u32,
    /// Playback sample rate, in Hz.
    pub sample_rate_out: u32,
    /// Processing sample rate, in Hz.
    pub sample_rate: u32,
    /// Samples per processing frame.
    pub samples_per_frame: i32,
    /// Sound marker detection threshold, in thousandths.
    pub sound_marker_threshold: u32,
    /// Format of captured samples.
    pub sample_format_inp: u32,
    /// Format of produced samples.
    pub sample_format_out: u32,
    /// Operating mode flags.
    pub operating_mode: i32,
}

/// Message carried by the error for a fixed payload length out of range.
pub const FIXED_LENGTH_RANGE_MESSAGE: &'static str = "Fixed payload length must be between 1 and 64";

/// Message carried by the error for parameters whose fixed length is too long.
pub const PAYLOAD_TOO_LONG_MESSAGE: &'static str = "Fixed payload length must not exceed 64";

/// Whether the framing of these parameters is fixed-length.
pub open spec fn is_fixed_length(p: Parameters) -> bool {
    p.payload_length > 0
}

/// Parameters the engine can be asked to take: a fixed payload length, if any,
/// stays within the engine's fixed-length maximum.
pub open spec fn parameters_valid(p: Parameters) -> bool {
    p.payload_length <= MAX_LENGTH_FIXED as i32
}

/// A fixed payload length that the engine accepts.
pub open spec fn fixed_length_in_range(len: i32) -> bool {
    1 <= len <= MAX_LENGTH_FIXED as i32
}

/// Checks parameters before they reach the engine, so that a configuration the
/// engine would reject never takes one of its instance slots.
pub fn check_parameters(p: &Parameters) -> (r: Result<(), Error>)
    ensures
        r is Ok <==> parameters_valid(*p),
        r is Err ==> r == Err::<(), Error>(Error::InvalidParameter(PAYLOAD_TOO_LONG_MESSAGE)),
{
    if p.payload_length > MAX_LENGTH_FIXED as i32 {
        Err(Error::InvalidParameter(PAYLOAD_TOO_LONG_MESSAGE))
    } else {
        Ok(())
    }
}

impl Parameters {
    /// These parameters with fixed-length framing of `payload_length` bytes and the
    /// given operating mode; a length outside 1 to 64 is refused.
    pub fn with_fixed_payload(self, payload_length: i32, operating_mode: i32) -> (r: Result<
        Parameters,
        Error,
    >)
        ensures
            r is Ok <==> fixed_length_in_range(payload_length),
            r is Ok ==> r == Ok::<Parameters, Error>(
                Parameters { payload_length, operating_mode, ..self },
            ),
            r is Err ==> r == Err::<Parameters, Error>(
                Error::InvalidParameter(FIXED_LENGTH_RANGE_MESSAGE),
            ),
    {
        if payload_length <= 0 || payload_length > MAX_LENGTH_FIXED as i32 {
            return Err(Error::InvalidParameter(FIXED_LENGTH_RANGE_MESSAGE));
        }
        Ok(Parameters { payload_length, operating_mode, ..self })
    }
}

/// A value that replaces a default when present.
pub open spec fn or_default<T>(value: Option<T>, default: T) -> T {
    match value {
        Some(v) => v,
        None => default,
    }
}

/// Sets up the configuration of a new session, field by field.
///
/// The builder records only the fields it sets; `build` lays them over the engine's
/// default parameters, which the caller reads from the engine and passes in.
#[derive(Debug, Clone, Copy)]
pub struct GGWaveBuilder {
    /// Capture rate in Hz, if set.
    pub sample_rate_inp: Option<u32>,
    /// Playback rate in Hz, if set.
    pub sample_rate_out: Option<u32>,
    /// Processing rate in Hz, if set.
    pub sample_rate: Option<u32>,
    /// Samples per frame, if set.
    pub samples_per_frame: Option<i32>,
    /// Marker threshold in thousandths, if set.
    pub sound_marker_threshold: Option<u32>,
    /// Capture sample format, if set.
    pub sample_format_inp: Option<u32>,
    /// Playback sample format, if set.
    pub sample_format_out: Option<u32>,
    /// Operating mode flags, if set.
    pub operating_mode: Option<i32>,
    /// Fixed payload length, if set.
    pub payload_length: Option<i32>,
}

impl GGWaveBuilder {
    /// The configuration these settings give over the engine's defaults `base`.
    pub open spec fn applied_to(self, base: Parameters) -> Parameters {
        Parameters {
            payload_length: or_default(self.payload_length, base.payload_length),
            sample_rate_inp: or_default(self.sample_rate_inp, base.sample_rate_inp),
            sample_rate_out: or_default(self.sample_rate_out, base.sample_rate_out),
            sample_rate: or_default(self.sample_rate, base.sample_rate),
            samples_per_frame: or_default(self.samples_per_frame, base.samples_per_frame),
            sound_marker_threshold: or_default(
                self.sound_marker_threshold,
                base.sound_marker_threshold,
            ),
            sample_format_inp: or_default(self.sample_format_inp, base.sample_format_inp),
            sample_format_out: or_default(self.sample_format_out, base.sample_format_out),
            operating_mode: or_default(self.operating_mode, base.operating_mode),
        }
    }

    /// The settings a new builder starts from.
    pub open spec fn initial() -> Self {
        GGWaveBuilder {
            sample_rate_inp: Some(16000),
            sample_rate_out: Some(16000),
            sample_rate: Some(16000),
            samples_per_frame: Some(512),
            sound_marker_threshold: Some(500),
            sample_format_inp: None,
            sample_format_out: None,
            operating_mode: None,
            payload_length: None,
        }
    }

    /// What `build` gives over the engine's defaults `base`: the combined
    /// configuration, or `InvalidParameter` when the engine could not take it.
    pub open spec fn built_from(self, base: Parameters) -> Result<Parameters, Error> {
        let p = self.applied_to(base);
        if parameters_valid(p) {
            Ok(p)
        } else {
            Err(Error::InvalidParameter(PAYLOAD_TOO_LONG_MESSAGE))
        }
    }

    /// A builder with settings that work reliably across systems: 16 kHz for every
    /// rate, 512 samples per frame and a marker threshold of one half. Formats,
    /// operating mode and framing stay at the engine's defaults.
    pub fn new() -> (r: Self)
        ensures
            r == Self::initial(),
    {
        GGWaveBuilder {
            sample_rate_inp: Some(16000),
            sample_rate_out: Some(16000),
            sample_rate: Some(16000),
            samples_per_frame: Some(512),
            sound_marker_threshold: Some(500),
            sample_format_inp: None,
            sample_format_out: None,
            operating_mode: None,
            payload_length: None,
        }
    }

    /// Sets the capture, playback and processing rates at once, in Hz.
    pub fn sample_rate(self, rate: u32) -> (r: Self)
        ensures
            r == (GGWaveBuilder {
                sample_rate_inp: Some(rate),
                sample_rate_out: Some(rate),
                sample_rate: Some(rate),
                ..self
            }),
    {
        GGWaveBuilder {
            sample_rate_inp: Some(rate),
            sample_rate_out: Some(rate),
            sample_rate: Some(rate),
            ..self
        }
    }

    /// Sets the capture rate, in Hz.
    pub fn input_sample_rate(self, rate: u32) -> (r: Self)
        ensures
            r == (GGWaveBuilder { sample_rate_inp: Some(rate), ..self }),
    {
        GGWaveBuilder { sample_rate_inp: Some(rate), ..self }
    }

    /// Sets the playback rate, in Hz.
    pub fn output_sample_rate(self, rate: u32) -> (r: Self)
        ensures
            r == (GGWaveBuilder { sample_rate_out: Some(rate), ..self }),
    {
        GGWaveBuilder { sample_rate_out: Some(rate), ..self }
    }

    /// Sets the number of samples per processing frame.
    pub fn samples_per_frame(self, samples: i32) -> (r: Self)
        ensures
            r == (GGWaveBuilder { samples_per_frame: Some(samples), ..self }),
    {
        GGWaveBuilder { samples_per_frame: Some(samples), ..self }
    }

    /// Sets the format of captured samples.
    pub fn input_sample_format(self, format: u32) -> (r: Self)
        ensures
            r == (GGWaveBuilder { sample_format_inp: Some(format), ..self }),
    {
        GGWaveBuilder { sample_format_inp: Some(format), ..self }
    }

    /// Sets the format of produced samples.
    pub fn output_sample_format(self, format: u32) -> (r: Self)
        ensures
            r == (GGWaveBuilder { sample_format_out: Some(format), ..self }),
    {
        GGWaveBuilder { sample_format_out: Some(format), ..self }
    }

    /// Sets the sound marker threshold, in thousandths.
    pub fn sound_marker_threshold(self, threshold: u32) -> (r: Self)
        ensures
            r == (GGWaveBuilder { sound_marker_threshold: Some(threshold), ..self }),
    {
        GGWaveBuilder { sound_marker_threshold: Some(threshold), ..self }
    }

    /// Sets the operating mode flags.
    pub fn operating_mode(self, mode: i32) -> (r: Self)
        ensures
            r == (GGWaveBuilder { operating_mode: Some(mode), ..self }),
    {
        GGWaveBuilder { operating_mode: Some(mode), ..self }
    }

    /// Selects fixed-length framing of `length` bytes, which must lie in 1 to 64.
    pub fn fixed_payload_length(self, length: i32) -> (r: Self)
        requires
            fixed_length_in_range(length),
        ensures
            r == (GGWaveBuilder { payload_length: Some(length), ..self }),
    {
        GGWaveBuilder { payload_length: Some(length), ..self }
    }

    /// The configuration to hand to the engine: these settings over `defaults`,
    /// refused when the result is not one the engine can take.
    pub fn build(self, defaults: Parameters) -> (r: Result<Parameters, Error>)
        ensures
            r == self.built_from(defaults),
    {
        let p = Parameters {
            payload_length: pick(self.payload_length, defaults.payload_length),
            sample_rate_inp: pick(self.sample_rate_inp, defaults.sample_rate_inp),
            sample_rate_out: pick(self.sample_rate_out, defaults.sample_rate_out),
            sample_rate: pick(self.sample_rate, defaults.sample_rate),
            samples_per_frame: pick(self.samples_per_frame, defaults.samples_per_frame),
            sound_marker_threshold: pick(
                self.sound_marker_threshold,
                defaults.sound_marker_threshold,
            ),
            sample_format_inp: pick(self.sample_format_inp, defaults.sample_format_inp),
            sample_format_out: pick(self.sample_format_out, defaults.sample_format_out),
            operating_mode: pick(self.operating_mode, defaults.operating_mode),
        };
        match check_parameters(&p) {
            Ok(()) => Ok(p),
            Err(e) => Err(e),
        }
    }
}

impl Default for GGWaveBuilder {
    fn default() -> (r: Self)
        ensures
            r == GGWaveBuilder::initial(),
    {
        Self::new()
    }
}

fn pick<T: Copy>(value: Option<T>, default: T) -> (r: T)
    ensures
        r == or_default(value, default),
{
    match value {
        Some(v) => v,
        None => default,
    }
}

} // verus!
