//! The parts of the asynchronous bridge that decide: its builder and the
//! stream-processing state machine. The bridge's runtime (locking, worker
//! offload, channels) drives these from outside.
use vstd::prelude::*;

use crate::error::Error;
use crate::params::{fixed_length_in_range, GGWaveBuilder, Parameters};

pub mod streams;

verus! {

/// Builder for a session shared through the asynchronous bridge; it sets the same
/// fields as `GGWaveBuilder` and builds the same configuration.
#[derive(Debug, Clone, Copy)]
pub struct AsyncGGWaveBuilder {
    pub inner_builder: GGWaveBuilder,
}

impl AsyncGGWaveBuilder {
    /// A builder with the settings of `GGWaveBuilder::new`.
    pub fn new() -> (r: Self)
        ensures
            r.inner_builder == GGWaveBuilder::initial(),
    {
        AsyncGGWaveBuilder { inner_builder: GGWaveBuilder::new() }
    }

    /// Sets the capture, playback and processing rates at once, in Hz.
    pub fn sample_rate(self, rate: u32) -> (r: Self)
        ensures
            r.inner_builder == (GGWaveBuilder {
                sample_rate_inp: Some(rate),
                sample_rate_out: Some(rate),
                sample_rate: Some(rate),
                ..self.inner_builder
            }),
    {
        AsyncGGWaveBuilder { inner_builder: self.inner_builder.sample_rate(rate) }
    }

    /// Sets the capture rate, in Hz.
    pub fn input_sample_rate(self, rate: u32) -> (r: Self)
        ensures
            r.inner_builder == (GGWaveBuilder { sample_rate_inp: Some(rate), ..self.inner_builder }),
    {
        AsyncGGWaveBuilder { inner_builder: self.inner_builder.input_sample_rate(rate) }
    }

    /// Sets the playback rate, in Hz.
    pub fn output_sample_rate(self, rate: u32) -> (r: Self)
        ensures
            r.inner_builder == (GGWaveBuilder { sample_rate_out: Some(rate), ..self.inner_builder }),
    {
        AsyncGGWaveBuilder { inner_builder: self.inner_builder.output_sample_rate(rate) }
    }

    /// Sets the number of samples per processing frame.
    pub fn samples_per_frame(self, samples: i32) -> (r: Self)
        ensures
            r.inner_builder == (GGWaveBuilder {
                samples_per_frame: Some(samples),
                ..self.inner_builder
            }),
    {
        AsyncGGWaveBuilder { inner_builder: self.inner_builder.samples_per_frame(samples) }
    }

    /// Sets the format of captured samples.
    pub fn input_sample_format(self, format: u32) -> (r: Self)
        ensures
            r.inner_builder == (GGWaveBuilder {
                sample_format_inp: Some(format),
                ..self.inner_builder
            }),
    {
        AsyncGGWaveBuilder { inner_builder: self.inner_builder.input_sample_format(format) }
    }

    /// Sets the format of produced samples.
    pub fn output_sample_format(self, format: u32) -> (r: Self)
        ensures
            r.inner_builder == (GGWaveBuilder {
                sample_format_out: Some(format),
                ..self.inner_builder
            }),
    {
        AsyncGGWaveBuilder { inner_builder: self.inner_builder.output_sample_format(format) }
    }

    /// Sets the sound marker threshold, in thousandths.
    pub fn sound_marker_threshold(self, threshold: u32) -> (r: Self)
        ensures
            r.inner_builder == (GGWaveBuilder {
                sound_marker_threshold: Some(threshold),
                ..self.inner_builder
            }),
    {
        AsyncGGWaveBuilder { inner_builder: self.inner_builder.sound_marker_threshold(threshold) }
    }

    /// Sets the operating mode flags.
    pub fn operating_mode(self, mode: i32) -> (r: Self)
        ensures
            r.inner_builder == (GGWaveBuilder { operating_mode: Some(mode), ..self.inner_builder }),
    {
        AsyncGGWaveBuilder { inner_builder: self.inner_builder.operating_mode(mode) }
    }

    /// Selects fixed-length framing of `length` bytes, which must lie in 1 to 64.
    pub fn fixed_payload_length(self, length: i32) -> (r: Self)
        requires
            fixed_length_in_range(length),
        ensures
            r.inner_builder == (GGWaveBuilder { payload_length: Some(length), ..self.inner_builder }),
    {
        AsyncGGWaveBuilder { inner_builder: self.inner_builder.fixed_payload_length(length) }
    }

    /// The configuration to hand to the engine, as `GGWaveBuilder::build` gives it.
    pub fn parameters(self, defaults: Parameters) -> (r: Result<Parameters, Error>)
        ensures
            r == self.inner_builder.built_from(defaults),
    {
        self.inner_builder.build(defaults)
    }
}

impl Default for AsyncGGWaveBuilder {
    fn default() -> (r: Self)
        ensures
            r.inner_builder == GGWaveBuilder::initial(),
    {
        Self::new()
    }
}

} // verus!
