//! A model of what surrounds a run: the document store, the recorded replies,
//! the endpoints and the decoder. It exists in specifications only, and says
//! what a caller that carries out every request faithfully hands back.

use vstd::prelude::*;
use crate::agent::{begin, react, success_signal, AgentView};
use crate::payload::payload_of;
use crate::protocol::{ActionView, EventView};
use crate::types::{
    surfaced, AgentError, LlamaResponseView, ModeView, ParametersView, StoreError, TaskView,
};

verus! {

/// The surroundings of a run.
pub struct World {
    /// The documents of the store, by location and key.
    pub documents: Map<(Seq<char>, Seq<char>), Seq<char>>,
    /// Whether the store can be read.
    pub readable: bool,
    /// Whether the store can be written.
    pub writable: bool,
    /// The files that can be read, by path.
    pub files: Map<Seq<char>, Seq<u8>>,
    /// The endpoints that can be reached, by URL: each maps a request body to
    /// the body of its reply.
    pub endpoints: Map<Seq<char>, spec_fn(Seq<char>) -> Seq<u8>>,
    /// The decoder: the response that bytes stand for, if any.
    pub decoder: spec_fn(Seq<u8>) -> Option<LlamaResponseView>,
}

impl World {
    /// The store's answer to a fetch.
    pub open spec fn fetch(self, location: Seq<char>, key: Seq<char>) -> Result<
        TaskView,
        StoreError,
    > {
        if !self.readable {
            Err(StoreError::Io)
        } else if self.documents.contains_key((location, key)) {
            Ok(TaskView { prompt: self.documents[(location, key)] })
        } else {
            Err(StoreError::NotFound)
        }
    }

    /// The bytes of the file at `path`, where it can be read.
    pub open spec fn read(self, path: Seq<char>) -> Option<Seq<u8>> {
        if self.files.contains_key(path) {
            Some(self.files[path])
        } else {
            None
        }
    }

    /// The body of the reply to `body` posted to `url`, where the endpoint can
    /// be reached.
    pub open spec fn post(self, url: Seq<char>, body: Seq<char>) -> Option<Seq<u8>> {
        if self.endpoints.contains_key(url) {
            Some((self.endpoints[url])(body))
        } else {
            None
        }
    }

    /// The store's answer to a write.
    pub open spec fn acknowledge(self) -> Result<(), StoreError> {
        if self.writable {
            Ok(())
        } else {
            Err(StoreError::Io)
        }
    }

    /// The world after a write was asked for: the document is replaced where
    /// the store can be written, and nothing changes where it cannot.
    pub open spec fn persist(self, location: Seq<char>, key: Seq<char>, value: Seq<char>) -> World {
        if self.writable {
            World { documents: self.documents.insert((location, key), value), ..self }
        } else {
            self
        }
    }

    /// What a faithful caller hands back for `action`; nothing where the run
    /// is over.
    pub open spec fn answer(self, action: ActionView) -> Option<EventView> {
        match action {
            ActionView::Fetch { location, key } => Some(
                EventView::Fetched(self.fetch(location, key)),
            ),
            ActionView::ReadFixture { path } => Some(EventView::FixtureRead(self.read(path))),
            ActionView::Post { url, body } => Some(EventView::Replied(self.post(url, body))),
            ActionView::Decode { bytes } => Some(EventView::Decoded((self.decoder)(bytes))),
            ActionView::Persist { .. } => Some(EventView::Persisted(self.acknowledge())),
            ActionView::Finish { .. } => None,
        }
    }

    /// The world after a faithful caller carried out `action`.
    pub open spec fn after(self, action: ActionView) -> World {
        match action {
            ActionView::Persist { location, key, value } => self.persist(location, key, value),
            _ => self,
        }
    }

    /// The bytes that the inference step yields for `body`: the recorded reply
    /// in test mode, whatever the body; else the endpoint's reply, or no bytes
    /// at all where the transport fails. `None` where the recorded reply cannot
    /// be read.
    pub open spec fn dispatch(self, mode: ModeView, body: Seq<char>) -> Option<Seq<u8>> {
        match mode {
            ModeView::Test { fixture_path } => self.read(fixture_path),
            ModeView::Execute { base_url } => match self.post(base_url, body) {
                Some(bytes) => Some(bytes),
                None => Some(Seq::empty()),
            },
        }
    }

    /// The response that `bytes` stand for. No bytes stand for none.
    pub open spec fn decode(self, bytes: Seq<u8>) -> Option<LlamaResponseView> {
        if bytes.len() == 0 {
            None
        } else {
            (self.decoder)(bytes)
        }
    }
}

/// A run from `action` on, with a faithful caller in `world`, for at most
/// `answers` answers: the world it leaves and the last request.
pub open spec fn run(world: World, agent: AgentView, action: ActionView, answers: nat) -> (
    World,
    ActionView,
)
    decreases answers,
{
    if answers == 0 {
        (world, action)
    } else {
        match world.answer(action) {
            None => (world, action),
            Some(event) => {
                let (next, request) = react(agent, event);
                run(world.after(action), next, request, (answers - 1) as nat)
            },
        }
    }
}

/// The number of answers that every run ends within.
pub open spec fn longest_run() -> nat {
    4
}

/// A whole run for `key` with a faithful caller in `world`.
pub open spec fn execution(world: World, params: ParametersView, key: Seq<char>) -> (
    World,
    ActionView,
) {
    let (agent, first) = begin(params, key);
    run(world, agent, first, longest_run())
}

/// What a run for `key` comes to in `world`, said in one piece: fetch, build,
/// dispatch, decode, persist, each only if the one before succeeded.
pub open spec fn pipeline(world: World, params: ParametersView, key: Seq<char>) -> (
    Result<Seq<char>, AgentError>,
    World,
) {
    match world.fetch(params.db_path, key) {
        Err(error) => (Err(surfaced(error)), world),
        Ok(task) => match world.dispatch(params.mode, payload_of(task.prompt)) {
            None => (Err(AgentError::Io), world),
            Some(bytes) => match world.decode(bytes) {
                None => (Err(AgentError::Decode), world),
                Some(response) => match world.acknowledge() {
                    Err(error) => (Err(surfaced(error)), world),
                    Ok(()) => (
                        Ok(success_signal()),
                        world.persist(params.db_path, key, response.content),
                    ),
                },
            },
        },
    }
}

} // verus!
