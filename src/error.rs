//! Errors of the session layer.
use vstd::prelude::*;

verus! {

#[verifier::external_type_specification]
#[verifier::external_body]
pub struct ExIoErrorKind(std::io::ErrorKind);

#[verifier::external_type_specification]
#[verifier::external_body]
pub struct ExUtf8Error(std::str::Utf8Error);

/// Everything that can go wrong when driving the engine.
#[derive(Debug, PartialEq, Eq)]
pub enum Error {
    /// The engine refused to encode; the code is the engine's own.
    EncodeFailed(i32),
    /// The engine reported a decoding fault; the code is the engine's own.
    DecodeFailed(i32),
    /// The WAV container could not be written; the writer's own description.
    WavWriteFailed(String),
    /// The sample format is not one the engine knows.
    InvalidSampleFormat,
    /// Reading or writing a byte stream failed, with the kind of failure.
    IoError(std::io::ErrorKind),
    /// Decoded bytes are not valid UTF-8 text.
    Utf8Error(std::str::Utf8Error),
    /// A parameter was rejected before reaching the engine.
    InvalidParameter(&'static str),
    /// The engine could not allocate a new instance.
    InitializationFailed,
    /// The output buffer cannot hold the waveform.
    BufferTooSmall { required: usize, provided: usize },
    /// The text exceeds the payload limit of the framing mode.
    TextTooLong { length: usize, max: usize },
}

} // verus!
