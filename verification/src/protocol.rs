//! What a run asks of its caller, and what the caller answers.

use vstd::prelude::*;
use crate::types::{AgentError, LlamaResponse, LlamaResponseView, StoreError, Task, TaskView};

verus! {

/// What the caller is to do next.
#[derive(Debug, PartialEq, Eq)]
pub enum Action {
    /// Read the task stored under `key` at `location`.
    Fetch { location: String, key: String },
    /// Read the recorded reply at `path`.
    ReadFixture { path: String },
    /// Post `body` to `url` and read the whole reply.
    Post { url: String, body: String },
    /// Decode `bytes` as a response.
    Decode { bytes: Vec<u8> },
    /// Store `value` under `key` at `location`, replacing what is there.
    Persist { location: String, key: String, value: String },
    /// Nothing: the run is over, and this is how it ended.
    Finish { outcome: Result<String, AgentError> },
}

/// [`Action`] as the contracts see it.
pub enum ActionView {
    Fetch { location: Seq<char>, key: Seq<char> },
    ReadFixture { path: Seq<char> },
    Post { url: Seq<char>, body: Seq<char> },
    Decode { bytes: Seq<u8> },
    Persist { location: Seq<char>, key: Seq<char>, value: Seq<char> },
    Finish { outcome: Result<Seq<char>, AgentError> },
}

impl View for Action {
    type V = ActionView;

    open spec fn view(&self) -> ActionView {
        match *self {
            Action::Fetch { location, key } => ActionView::Fetch { location: location@, key: key@ },
            Action::ReadFixture { path } => ActionView::ReadFixture { path: path@ },
            Action::Post { url, body } => ActionView::Post { url: url@, body: body@ },
            Action::Decode { bytes } => ActionView::Decode { bytes: bytes@ },
            Action::Persist { location, key, value } => ActionView::Persist {
                location: location@,
                key: key@,
                value: value@,
            },
            Action::Finish { outcome } => ActionView::Finish {
                outcome: match outcome {
                    Ok(signal) => Ok(signal@),
                    Err(error) => Err(error),
                },
            },
        }
    }
}

/// What came of the action that the caller carried out.
#[derive(Debug, PartialEq, Eq)]
pub enum Event {
    /// The store's answer to [`Action::Fetch`].
    Fetched(Result<Task, StoreError>),
    /// The bytes of the recorded reply, or `None` where the file could not be
    /// read.
    FixtureRead(Option<Vec<u8>>),
    /// The body of the endpoint's reply, or `None` where the transport failed.
    Replied(Option<Vec<u8>>),
    /// The decoded reply, or `None` where the bytes are not a response.
    Decoded(Option<LlamaResponse>),
    /// The store's answer to [`Action::Persist`].
    Persisted(Result<(), StoreError>),
}

/// [`Event`] as the contracts see it.
pub enum EventView {
    Fetched(Result<TaskView, StoreError>),
    FixtureRead(Option<Seq<u8>>),
    Replied(Option<Seq<u8>>),
    Decoded(Option<LlamaResponseView>),
    Persisted(Result<(), StoreError>),
}

impl View for Event {
    type V = EventView;

    open spec fn view(&self) -> EventView {
        match *self {
            Event::Fetched(answer) => EventView::Fetched(
                match answer {
                    Ok(task) => Ok(task@),
                    Err(error) => Err(error),
                },
            ),
            Event::FixtureRead(answer) => EventView::FixtureRead(
                match answer {
                    Some(bytes) => Some(bytes@),
                    None => None,
                },
            ),
            Event::Replied(answer) => EventView::Replied(
                match answer {
                    Some(bytes) => Some(bytes@),
                    None => None,
                },
            ),
            Event::Decoded(answer) => EventView::Decoded(
                match answer {
                    Some(response) => Some(response@),
                    None => None,
                },
            ),
            Event::Persisted(answer) => EventView::Persisted(answer),
        }
    }
}

/// How far a run has come: the answer it waits for.
#[derive(Debug, Clone, Copy, PartialEq, Eq, Structural)]
pub enum Stage {
    /// The task was asked for.
    AwaitingTask,
    /// The recorded reply was asked for.
    AwaitingFixture,
    /// The request was posted.
    AwaitingReply,
    /// The bytes were handed out for decoding.
    AwaitingResponse,
    /// The result was handed out for storing.
    AwaitingAck,
    /// The run is over.
    Finished,
}

} // verus!
