//! The encoder's two-phase protocol: ask the engine for the waveform size, then ask
//! it to fill a buffer of at least that size.
//!
//! The protocol is a state machine. The caller that talks to the engine feeds each
//! engine answer in as an event and performs the action that comes back, until the
//! action is `Finish`. Query and fill are issued by the same negotiation, for the
//! same text, protocol and volume, so the two phases cannot drift apart.
use vstd::prelude::*;

use crate::error::Error;
use crate::session::{max_text_len, GGWave};

verus! {

/// Message of the error returned for an engine answer the negotiation did not ask for.
pub const OUT_OF_ORDER_MESSAGE: &'static str = "Engine answer does not match the pending request";

/// Where the waveform goes.
#[derive(Debug, Clone, Copy, PartialEq, Eq, Structural)]
pub enum Target {
    /// Nowhere: only its size is wanted.
    SizeOnly,
    /// A fresh buffer of exactly the queried size.
    Fresh,
    /// A caller's buffer of the given length.
    Buffer(usize),
}

/// How far a negotiation has come.
#[derive(Debug, Clone, Copy, PartialEq, Eq, Structural)]
pub enum Stage {
    /// Nothing asked yet.
    Ready,
    /// The size query is pending.
    AwaitingSize,
    /// The fill into a buffer of `capacity` bytes is pending.
    AwaitingFill { capacity: usize },
    /// The outcome is known.
    Finished,
}

/// An answer from the engine, or the start signal.
#[derive(Debug, Clone, Copy, PartialEq, Eq, Structural)]
pub enum EncodeEvent {
    /// Start the negotiation.
    Begin,
    /// The engine's return code for the size query.
    SizeReported(i32),
    /// The engine's return code for the fill.
    FillReported(i32),
}

/// What to ask of the engine next, or the outcome.
#[derive(Debug, PartialEq, Eq)]
pub enum EncodeAction {
    /// Ask for the size of the waveform of the text, protocol and volume.
    QuerySize,
    /// Ask the engine to write that waveform into a buffer of `capacity` bytes.
    Fill { capacity: usize },
    /// Done: the size (for a size query) or the number of bytes written, or an error.
    Finish(Result<usize, Error>),
}

/// One encode negotiation.
#[derive(Debug, Clone, Copy, PartialEq, Eq, Structural)]
pub struct EncodeNegotiation {
    /// The largest text the session's framing allows, in bytes.
    pub max_length: usize,
    /// The length of the text, in bytes.
    pub text_length: usize,
    pub target: Target,
    pub stage: Stage,
}

/// The successor state and action for `event` in state `n`.
pub open spec fn step(n: EncodeNegotiation, event: EncodeEvent) -> (EncodeNegotiation, EncodeAction) {
    let done = EncodeNegotiation { stage: Stage::Finished, ..n };
    match (n.stage, event) {
        (Stage::Ready, EncodeEvent::Begin) => {
            if n.text_length > n.max_length {
                (
                    done,
                    EncodeAction::Finish(
                        Err(Error::TextTooLong { length: n.text_length, max: n.max_length }),
                    ),
                )
            } else {
                (EncodeNegotiation { stage: Stage::AwaitingSize, ..n }, EncodeAction::QuerySize)
            }
        },
        (Stage::AwaitingSize, EncodeEvent::SizeReported(code)) => {
            if code <= 0 {
                (done, EncodeAction::Finish(Err(Error::EncodeFailed(code))))
            } else {
                match n.target {
                    Target::SizeOnly => (done, EncodeAction::Finish(Ok(code as usize))),
                    Target::Fresh => (
                        EncodeNegotiation {
                            stage: Stage::AwaitingFill { capacity: code as usize },
                            ..n
                        },
                        EncodeAction::Fill { capacity: code as usize },
                    ),
                    Target::Buffer(provided) => {
                        if provided < code as usize {
                            (
                                done,
                                EncodeAction::Finish(
                                    Err(
                                        Error::BufferTooSmall {
                                            required: code as usize,
                                            provided,
                                        },
                                    ),
                                ),
                            )
                        } else {
                            (
                                EncodeNegotiation {
                                    stage: Stage::AwaitingFill { capacity: provided },
                                    ..n
                                },
                                EncodeAction::Fill { capacity: provided },
                            )
                        }
                    },
                }
            }
        },
        (Stage::AwaitingFill { capacity }, EncodeEvent::FillReported(code)) => {
            if code <= 0 {
                (done, EncodeAction::Finish(Err(Error::EncodeFailed(code))))
            } else if code as usize > capacity {
                (done, EncodeAction::Finish(Ok(capacity)))
            } else {
                (done, EncodeAction::Finish(Ok(code as usize)))
            }
        },
        _ => (n, EncodeAction::Finish(Err(Error::InvalidParameter(OUT_OF_ORDER_MESSAGE)))),
    }
}

impl EncodeNegotiation {
    /// Advances the negotiation with the engine's answer (or the start signal) and
    /// returns what to do next. An event that does not answer the pending request
    /// leaves the negotiation as it is and yields an error.
    pub fn next(&mut self, event: EncodeEvent) -> (r: EncodeAction)
        ensures
            (*final(self), r) == step(*old(self), event),
    {
        let n = *self;
        match (n.stage, event) {
            (Stage::Ready, EncodeEvent::Begin) => {
                if n.text_length > n.max_length {
                    self.stage = Stage::Finished;
                    EncodeAction::Finish(
                        Err(Error::TextTooLong { length: n.text_length, max: n.max_length }),
                    )
                } else {
                    self.stage = Stage::AwaitingSize;
                    EncodeAction::QuerySize
                }
            },
            (Stage::AwaitingSize, EncodeEvent::SizeReported(code)) => {
                if code <= 0 {
                    self.stage = Stage::Finished;
                    EncodeAction::Finish(Err(Error::EncodeFailed(code)))
                } else {
                    let required = code as usize;
                    match n.target {
                        Target::SizeOnly => {
                            self.stage = Stage::Finished;
                            EncodeAction::Finish(Ok(required))
                        },
                        Target::Fresh => {
                            self.stage = Stage::AwaitingFill { capacity: required };
                            EncodeAction::Fill { capacity: required }
                        },
                        Target::Buffer(provided) => {
                            if provided < required {
                                self.stage = Stage::Finished;
                                EncodeAction::Finish(
                                    Err(Error::BufferTooSmall { required, provided }),
                                )
                            } else {
                                self.stage = Stage::AwaitingFill { capacity: provided };
                                EncodeAction::Fill { capacity: provided }
                            }
                        },
                    }
                }
            },
            (Stage::AwaitingFill { capacity }, EncodeEvent::FillReported(code)) => {
                self.stage = Stage::Finished;
                if code <= 0 {
                    EncodeAction::Finish(Err(Error::EncodeFailed(code)))
                } else if code as usize > capacity {
                    EncodeAction::Finish(Ok(capacity))
                } else {
                    EncodeAction::Finish(Ok(code as usize))
                }
            },
            _ => EncodeAction::Finish(Err(Error::InvalidParameter(OUT_OF_ORDER_MESSAGE))),
        }
    }
}

/// A negotiation for `text` on a session whose framing allows `max` bytes.
pub open spec fn negotiation_for(text: &str, max: nat, target: Target) -> EncodeNegotiation {
    EncodeNegotiation {
        max_length: max as usize,
        text_length: text.len() as usize,
        target,
        stage: Stage::Ready,
    }
}

impl GGWave {
    fn negotiation(&self, text: &str, target: Target) -> (r: EncodeNegotiation)
        ensures
            r == negotiation_for(text, max_text_len(self.config()), target),
    {
        EncodeNegotiation {
            max_length: self.max_text_length(),
            text_length: text.len(),
            target,
            stage: Stage::Ready,
        }
    }

    /// A negotiation that ends with the size, in bytes, of the waveform for `text`.
    pub fn size_negotiation(&self, text: &str) -> (r: EncodeNegotiation)
        ensures
            r == negotiation_for(text, max_text_len(self.config()), Target::SizeOnly),
    {
        self.negotiation(text, Target::SizeOnly)
    }

    /// A negotiation that has the waveform for `text` written into a caller's buffer
    /// of `provided` bytes and ends with the number of bytes written.
    pub fn buffer_negotiation(&self, text: &str, provided: usize) -> (r: EncodeNegotiation)
        ensures
            r == negotiation_for(text, max_text_len(self.config()), Target::Buffer(provided)),
    {
        self.negotiation(text, Target::Buffer(provided))
    }

    /// A negotiation that has the waveform for `text` written into a fresh buffer of
    /// exactly the queried size and ends with the number of bytes written.
    pub fn waveform_negotiation(&self, text: &str) -> (r: EncodeNegotiation)
        ensures
            r == negotiation_for(text, max_text_len(self.config()), Target::Fresh),
    {
        self.negotiation(text, Target::Fresh)
    }
}

/// The waveform in a fresh buffer after the engine wrote `written` bytes into it:
/// the buffer cut to the bytes written.
pub fn trim_waveform(buffer: Vec<u8>, written: usize) -> (r: Vec<u8>)
    requires
        written <= buffer@.len(),
    ensures
        r@ == buffer@.take(written as int),
{
    let mut buffer = buffer;
    buffer.truncate(written);
    buffer
}

/// Copies as much of `encoded` as fits to the front of `buffer`, leaves the rest of
/// `buffer` as it was, and returns the number of bytes copied.
pub fn copy_waveform(buffer: &mut [u8], encoded: &[u8]) -> (r: usize)
    ensures
        r == if encoded@.len() < old(buffer)@.len() {
            encoded@.len()
        } else {
            old(buffer)@.len()
        },
        final(buffer)@.len() == old(buffer)@.len(),
        final(buffer)@.take(r as int) == encoded@.take(r as int),
        final(buffer)@.skip(r as int) == old(buffer)@.skip(r as int),
{
    let n = if encoded.len() < buffer.len() {
        encoded.len()
    } else {
        buffer.len()
    };
    let mut i: usize = 0;
    while i < n
        invariant
            n <= encoded@.len(),
            n <= old(buffer)@.len(),
            i <= n,
            buffer@.len() == old(buffer)@.len(),
            forall|j: int| 0 <= j < i ==> buffer@[j] == encoded@[j],
            forall|j: int| i <= j < buffer@.len() ==> buffer@[j] == old(buffer)@[j],
        decreases n - i,
    {
        buffer[i] = encoded[i];
        i = i + 1;
    }
    assert(buffer@.take(n as int) =~= encoded@.take(n as int));
    assert(buffer@.skip(n as int) =~= old(buffer)@.skip(n as int));
    n
}

/// A text longer than the session's framing allows ends any negotiation at its
/// first step with `TextTooLong`, before the engine is asked anything.
pub proof fn lemma_oversized_text_never_reaches_engine(session: GGWave, text: &str, target: Target)
    requires
        text.len() > max_text_len(session.config()),
    ensures
        ({
            let max = max_text_len(session.config());
            let (n1, a1) = step(negotiation_for(text, max, target), EncodeEvent::Begin);
            &&& a1 == EncodeAction::Finish(
                Err(Error::TextTooLong { length: text.len(), max: max as usize }),
            )
            &&& n1.stage == Stage::Finished
        }),
{
}

/// A caller's buffer of `provided` bytes, shorter than the size the engine reports
/// (`size_code`), ends the negotiation with `BufferTooSmall`, naming the reported
/// size and the buffer's length, before the engine is asked to fill anything.
pub proof fn lemma_undersized_buffer_rejected(
    session: GGWave,
    text: &str,
    provided: usize,
    size_code: i32,
)
    requires
        text.len() <= max_text_len(session.config()),
        size_code > 0,
        provided < size_code as usize,
    ensures
        ({
            let n0 = negotiation_for(text, max_text_len(session.config()), Target::Buffer(provided));
            let (n1, a1) = step(n0, EncodeEvent::Begin);
            let (n2, a2) = step(n1, EncodeEvent::SizeReported(size_code));
            &&& a1 == EncodeAction::QuerySize
            &&& a2 == EncodeAction::Finish(
                Err(Error::BufferTooSmall { required: size_code as usize, provided }),
            )
            &&& n2.stage == Stage::Finished
        }),
{
}

/// A caller's buffer of at least the reported size (`size_code`), in particular one
/// of exactly that size, is handed to the engine whole and never refused as too
/// small; whatever the engine then reports (`fill_code`), the bytes counted as
/// written never exceed the buffer's length.
pub proof fn lemma_sized_buffer_accepted(
    session: GGWave,
    text: &str,
    provided: usize,
    size_code: i32,
    fill_code: i32,
)
    requires
        text.len() <= max_text_len(session.config()),
        size_code > 0,
        provided >= size_code as usize,
    ensures
        ({
            let n0 = negotiation_for(text, max_text_len(session.config()), Target::Buffer(provided));
            let (n1, a1) = step(n0, EncodeEvent::Begin);
            let (n2, a2) = step(n1, EncodeEvent::SizeReported(size_code));
            let (n3, a3) = step(n2, EncodeEvent::FillReported(fill_code));
            &&& a1 == EncodeAction::QuerySize
            &&& a2 == EncodeAction::Fill { capacity: provided }
            &&& n3.stage == Stage::Finished
            &&& a3 matches EncodeAction::Finish(r)
            &&& !(r matches Err(Error::BufferTooSmall { .. }))
            &&& (r matches Ok(written) ==> written <= provided)
            &&& (fill_code <= 0 ==> r == Err::<usize, Error>(Error::EncodeFailed(fill_code)))
        }),
{
}

/// A waveform for a fresh buffer is written into a buffer of exactly the reported
/// size (`size_code`), and the bytes counted as written never exceed it.
pub proof fn lemma_fresh_buffer_sized_by_query(
    session: GGWave,
    text: &str,
    size_code: i32,
    fill_code: i32,
)
    requires
        text.len() <= max_text_len(session.config()),
        size_code > 0,
    ensures
        ({
            let n0 = negotiation_for(text, max_text_len(session.config()), Target::Fresh);
            let (n1, a1) = step(n0, EncodeEvent::Begin);
            let (n2, a2) = step(n1, EncodeEvent::SizeReported(size_code));
            let (n3, a3) = step(n2, EncodeEvent::FillReported(fill_code));
            &&& a1 == EncodeAction::QuerySize
            &&& a2 == EncodeAction::Fill { capacity: size_code as usize }
            &&& a3 matches EncodeAction::Finish(r)
            &&& (r matches Ok(written) ==> 0 < written <= size_code as usize)
        }),
{
}

} // verus!
