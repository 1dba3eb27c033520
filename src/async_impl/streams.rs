//! Continuous decoding of an open-ended audio byte source.
//!
//! A stream processor is a state machine: read a chunk, decode it, hand on any
//! message, and read again, until the source ends, fails, or the consumer goes
//! away. The runtime that owns the source, the session and the consumer performs
//! each action and feeds back what happened.
use vstd::prelude::*;

use crate::error::Error;

verus! {

/// Message of the error returned for an event that answers no pending action.
pub const UNEXPECTED_EVENT_MESSAGE: &'static str = "Stream event does not match the pending action";

/// Where a stream processor is in its cycle.
#[derive(Debug, Clone, Copy, PartialEq, Eq, Structural)]
pub enum StreamStage {
    /// A read from the source is pending.
    Reading,
    /// The decode of the chunk just read is pending.
    Decoding,
    /// The hand-over of a decoded message is pending.
    Emitting,
    /// The stream is over; nothing more is read.
    Closed,
}

/// What happened to the pending action.
#[derive(Debug, PartialEq, Eq)]
pub enum StreamEvent {
    /// The read finished with the number of bytes read; zero means the source ended.
    ChunkRead(Result<usize, Error>),
    /// The decode finished: a message, no complete message yet, or a fault.
    ChunkDecoded(Result<Option<String>, Error>),
    /// The message was handed on.
    Delivered,
    /// Every consumer is gone.
    ReceiverGone,
    /// The consumer refused the message with an error.
    DeliveryFailed(Error),
}

/// What to do next.
#[derive(Debug, PartialEq, Eq)]
pub enum StreamAction {
    /// Read up to one chunk from the source.
    ReadChunk,
    /// Decode the first `n` bytes of the chunk just read.
    DecodeChunk(usize),
    /// Hand a decoded message to the consumer.
    Deliver(String),
    /// Stop: the stream is over, cleanly or with an error.
    Finish(Result<(), Error>),
}

/// A stream processor.
///
/// In the background policy (`propagate_errors` false) read errors end the stream
/// as quietly as the end of the source does, and decode faults are skipped. In the
/// strict policy each of them ends the stream with that error.
#[derive(Debug, Clone, Copy, PartialEq, Eq, Structural)]
pub struct StreamProcessor {
    pub propagate_errors: bool,
    pub stage: StreamStage,
}

/// The end of a stream on an error `e` under policy `propagate`.
pub open spec fn ending_on(propagate: bool, e: Error) -> Result<(), Error> {
    if propagate {
        Err(e)
    } else {
        Ok(())
    }
}

/// The successor state and action for `event` in state `p`.
pub open spec fn stream_step(p: StreamProcessor, event: StreamEvent) -> (StreamProcessor, StreamAction) {
    let closed = StreamProcessor { stage: StreamStage::Closed, ..p };
    let reading = StreamProcessor { stage: StreamStage::Reading, ..p };
    match p.stage {
        StreamStage::Reading => match event {
            StreamEvent::ChunkRead(Ok(n)) => if n == 0 {
                (closed, StreamAction::Finish(Ok(())))
            } else {
                (StreamProcessor { stage: StreamStage::Decoding, ..p }, StreamAction::DecodeChunk(n))
            },
            StreamEvent::ChunkRead(Err(e)) => (
                closed,
                StreamAction::Finish(ending_on(p.propagate_errors, e)),
            ),
            _ => (closed, StreamAction::Finish(Err(Error::InvalidParameter(UNEXPECTED_EVENT_MESSAGE)))),
        },
        StreamStage::Decoding => match event {
            StreamEvent::ChunkDecoded(Ok(Some(message))) => (
                StreamProcessor { stage: StreamStage::Emitting, ..p },
                StreamAction::Deliver(message),
            ),
            StreamEvent::ChunkDecoded(Ok(None)) => (reading, StreamAction::ReadChunk),
            StreamEvent::ChunkDecoded(Err(e)) => if p.propagate_errors {
                (closed, StreamAction::Finish(Err(e)))
            } else {
                (reading, StreamAction::ReadChunk)
            },
            _ => (closed, StreamAction::Finish(Err(Error::InvalidParameter(UNEXPECTED_EVENT_MESSAGE)))),
        },
        StreamStage::Emitting => match event {
            StreamEvent::Delivered => (reading, StreamAction::ReadChunk),
            StreamEvent::ReceiverGone => (closed, StreamAction::Finish(Ok(()))),
            StreamEvent::DeliveryFailed(e) => (
                closed,
                StreamAction::Finish(ending_on(p.propagate_errors, e)),
            ),
            _ => (closed, StreamAction::Finish(Err(Error::InvalidParameter(UNEXPECTED_EVENT_MESSAGE)))),
        },
        StreamStage::Closed => (closed, StreamAction::Finish(Ok(()))),
    }
}

impl StreamProcessor {
    /// A processor for a background stream, about to read its first chunk.
    pub fn background() -> (r: Self)
        ensures
            r == (StreamProcessor { propagate_errors: false, stage: StreamStage::Reading }),
    {
        StreamProcessor { propagate_errors: false, stage: StreamStage::Reading }
    }

    /// A processor that ends on the first error, about to read its first chunk.
    pub fn strict() -> (r: Self)
        ensures
            r == (StreamProcessor { propagate_errors: true, stage: StreamStage::Reading }),
    {
        StreamProcessor { propagate_errors: true, stage: StreamStage::Reading }
    }

    /// The action with which every stream starts.
    pub fn first_action(&self) -> (r: StreamAction)
        ensures
            r == StreamAction::ReadChunk,
    {
        StreamAction::ReadChunk
    }

    /// Advances the processor with what happened to the pending action and returns
    /// the next action. An event that answers no pending action closes the stream.
    pub fn next(&mut self, event: StreamEvent) -> (r: StreamAction)
        ensures
            (*final(self), r) == stream_step(*old(self), event),
    {
        let propagate = self.propagate_errors;
        match self.stage {
            StreamStage::Reading => match event {
                StreamEvent::ChunkRead(Ok(n)) => {
                    if n == 0 {
                        self.stage = StreamStage::Closed;
                        StreamAction::Finish(Ok(()))
                    } else {
                        self.stage = StreamStage::Decoding;
                        StreamAction::DecodeChunk(n)
                    }
                },
                StreamEvent::ChunkRead(Err(e)) => {
                    self.stage = StreamStage::Closed;
                    StreamAction::Finish(end_on(propagate, e))
                },
                _ => {
                    self.stage = StreamStage::Closed;
                    StreamAction::Finish(Err(Error::InvalidParameter(UNEXPECTED_EVENT_MESSAGE)))
                },
            },
            StreamStage::Decoding => match event {
                StreamEvent::ChunkDecoded(Ok(Some(message))) => {
                    self.stage = StreamStage::Emitting;
                    StreamAction::Deliver(message)
                },
                StreamEvent::ChunkDecoded(Ok(None)) => {
                    self.stage = StreamStage::Reading;
                    StreamAction::ReadChunk
                },
                StreamEvent::ChunkDecoded(Err(e)) => {
                    if propagate {
                        self.stage = StreamStage::Closed;
                        StreamAction::Finish(Err(e))
                    } else {
                        self.stage = StreamStage::Reading;
                        StreamAction::ReadChunk
                    }
                },
                _ => {
                    self.stage = StreamStage::Closed;
                    StreamAction::Finish(Err(Error::InvalidParameter(UNEXPECTED_EVENT_MESSAGE)))
                },
            },
            StreamStage::Emitting => match event {
                StreamEvent::Delivered => {
                    self.stage = StreamStage::Reading;
                    StreamAction::ReadChunk
                },
                StreamEvent::ReceiverGone => {
                    self.stage = StreamStage::Closed;
                    StreamAction::Finish(Ok(()))
                },
                StreamEvent::DeliveryFailed(e) => {
                    self.stage = StreamStage::Closed;
                    StreamAction::Finish(end_on(propagate, e))
                },
                _ => {
                    self.stage = StreamStage::Closed;
                    StreamAction::Finish(Err(Error::InvalidParameter(UNEXPECTED_EVENT_MESSAGE)))
                },
            },
            StreamStage::Closed => StreamAction::Finish(Ok(())),
        }
    }
}

fn end_on(propagate: bool, e: Error) -> (r: Result<(), Error>)
    ensures
        r == ending_on(propagate, e),
{
    if propagate {
        Err(e)
    } else {
        Ok(())
    }
}

/// Once every consumer is gone, the stream ends at once, without error and
/// without another read.
pub proof fn lemma_receiver_gone_ends_stream(p: StreamProcessor)
    requires
        p.stage == StreamStage::Emitting,
    ensures
        stream_step(p, StreamEvent::ReceiverGone) == (
            StreamProcessor { stage: StreamStage::Closed, ..p },
            StreamAction::Finish(Ok(())),
        ),
{
}

/// A closed stream stays closed and never asks for another read, whatever it is told.
pub proof fn lemma_closed_stream_stays_closed(p: StreamProcessor, event: StreamEvent)
    requires
        p.stage == StreamStage::Closed,
    ensures
        stream_step(p, event).0.stage == StreamStage::Closed,
        stream_step(p, event).1 matches StreamAction::Finish(_),
{
}

/// A chunk with no complete message yet is not an error: the stream reads on.
pub proof fn lemma_no_message_yet_reads_on(p: StreamProcessor)
    requires
        p.stage == StreamStage::Decoding,
    ensures
        stream_step(p, StreamEvent::ChunkDecoded(Ok(None))) == (
            StreamProcessor { stage: StreamStage::Reading, ..p },
            StreamAction::ReadChunk,
        ),
{
}

} // verus!
