//! Session management and streaming layer around the ggwave audio codec engine.
//!
//! The engine itself (modulation, spectral decoding, error correction) lives in a
//! native library. This crate holds everything that decides how that engine is
//! driven: parameter validation, the size-query/fill protocol of the encoder, the
//! interpretation of the decoder's return codes, protocol toggling commands and the
//! stream-processing state machine. Each decision is a verified function from plain
//! values (including the engine's return codes) to plain values.
pub mod async_impl;
pub mod constants;
pub mod error;
pub mod filters;
pub mod negotiation;
pub mod operating_modes;
pub mod params;
pub mod protocols;
pub mod sample_formats;
pub mod session;
mod text;
pub mod wav;

pub use async_impl::AsyncGGWaveBuilder;
pub use error::Error;
pub use filters::Filter;
pub use params::{GGWaveBuilder, Parameters};
pub use protocols::ProtocolId;
pub use sample_formats::SampleFormat;
pub use session::GGWave;
