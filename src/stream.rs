//! The decisions of the background task that forwards a streamed reply to the
//! session: each delta becomes a chunk event, and exactly one terminal event
//! (finished or error) closes the stream, after which nothing is forwarded.
use vstd::prelude::*;

use crate::session::{Event, LlmResponse};

verus! {

/// What the task observed on the provider's side.
#[derive(Debug, Clone)]
pub enum StreamInput {
    /// The request could not be established at all.
    OpenFailed(String),
    /// The next decoded piece of text.
    Delta(String),
    /// Reading or decoding the next piece failed.
    DeltaFailed(String),
    /// The stream ended normally.
    Exhausted,
}

/// Whether `input` ends the stream.
pub open spec fn is_terminal(input: StreamInput) -> bool {
    !(input is Delta)
}

/// The event that `input` is forwarded as.
pub open spec fn relay_event(input: StreamInput) -> Event {
    match input {
        StreamInput::OpenFailed(cause) => Event::StreamError(cause),
        StreamInput::Delta(text) => Event::LlmResponse(LlmResponse::Chunk(text)),
        StreamInput::DeltaFailed(cause) => Event::StreamError(cause),
        StreamInput::Exhausted => Event::LlmResponse(LlmResponse::Finished),
    }
}

/// The forwarding state of one generation.
pub struct StreamRelay {
    done: bool,
}

impl View for StreamRelay {
    type V = bool;

    /// Whether the stream has been closed.
    closed spec fn view(&self) -> bool {
        self.done
    }
}

impl StreamRelay {
    /// A relay that has forwarded nothing yet.
    pub fn new() -> (r: StreamRelay)
        ensures
            !r@,
    {
        StreamRelay { done: false }
    }

    /// Whether the stream has been closed; the task stops once it is.
    pub fn is_done(&self) -> (r: bool)
        ensures
            r == self@,
    {
        self.done
    }

    /// Decides what to forward for `input`. Before the stream is closed every
    /// input is forwarded, and a terminal one closes it; afterwards nothing is.
    pub fn step(&mut self, input: StreamInput) -> (r: Option<Event>)
        ensures
            old(self)@ ==> r is None && final(self)@,
            !old(self)@ ==> r == Some(relay_event(input)) && final(self)@ == is_terminal(input),
    {
        if self.done {
            return None;
        }
        match input {
            StreamInput::OpenFailed(cause) => {
                self.done = true;
                Some(Event::StreamError(cause))
            },
            StreamInput::Delta(text) => Some(Event::LlmResponse(LlmResponse::Chunk(text))),
            StreamInput::DeltaFailed(cause) => {
                self.done = true;
                Some(Event::StreamError(cause))
            },
            StreamInput::Exhausted => {
                self.done = true;
                Some(Event::LlmResponse(LlmResponse::Finished))
            },
        }
    }
}

} // verus!
