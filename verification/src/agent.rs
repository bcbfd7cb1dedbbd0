//! The agent: one run of fetch, dispatch, decode and persist, taken one answer
//! at a time.

use vstd::prelude::*;
use vstd::string::StringExecFns;
use crate::payload::{get_llama_payload, payload_of};
use crate::protocol::{Action, ActionView, Event, EventView, Stage};
use crate::types::{
    surfaced, AgentError, LlamaResponse, Mode, ModeView, Parameters, ParametersView, Task,
};

verus! {

/// A run as the contracts see it.
pub struct AgentView {
    /// What the run was started with.
    pub params: ParametersView,
    /// The key the task is read from and the result is written to.
    pub key: Seq<char>,
    /// The answer the run waits for.
    pub stage: Stage,
}

impl AgentView {
    /// The same run at another stage.
    pub open spec fn at(self, stage: Stage) -> AgentView {
        AgentView { stage, ..self }
    }
}

/// What a run reports when the result is stored.
pub open spec fn success_signal() -> Seq<char> {
    "exit => 0"@
}

/// The end of a run: nothing is awaited any more, and `outcome` is reported.
pub open spec fn finish(agent: AgentView, outcome: Result<Seq<char>, AgentError>) -> (
    AgentView,
    ActionView,
) {
    (agent.at(Stage::Finished), ActionView::Finish { outcome })
}

/// What a run does with the bytes of a reply: an empty reply is not a
/// response, anything else goes to the decoder.
pub open spec fn submit(agent: AgentView, bytes: Seq<u8>) -> (AgentView, ActionView) {
    if bytes.len() == 0 {
        finish(agent, Err(AgentError::Decode))
    } else {
        (agent.at(Stage::AwaitingResponse), ActionView::Decode { bytes })
    }
}

/// The start of a run: the task is asked for, at the store's location and
/// under the run's key.
pub open spec fn begin(params: ParametersView, key: Seq<char>) -> (AgentView, ActionView) {
    (
        AgentView { params, key, stage: Stage::AwaitingTask },
        ActionView::Fetch { location: params.db_path, key },
    )
}

/// One step of a run: what `agent` becomes, and what it asks for, when
/// `event` arrives.
///
/// An event that does not answer the pending request ends the run with
/// [`AgentError::OutOfTurn`].
pub open spec fn react(agent: AgentView, event: EventView) -> (AgentView, ActionView) {
    match (agent.stage, event) {
        (Stage::AwaitingTask, EventView::Fetched(Ok(task))) => match agent.params.mode {
            ModeView::Test { fixture_path } => (
                agent.at(Stage::AwaitingFixture),
                ActionView::ReadFixture { path: fixture_path },
            ),
            ModeView::Execute { base_url } => (
                agent.at(Stage::AwaitingReply),
                ActionView::Post { url: base_url, body: payload_of(task.prompt) },
            ),
        },
        (Stage::AwaitingTask, EventView::Fetched(Err(error))) => finish(
            agent,
            Err(surfaced(error)),
        ),
        (Stage::AwaitingFixture, EventView::FixtureRead(Some(bytes))) => submit(agent, bytes),
        (Stage::AwaitingFixture, EventView::FixtureRead(None)) => finish(
            agent,
            Err(AgentError::Io),
        ),
        (Stage::AwaitingReply, EventView::Replied(Some(bytes))) => submit(agent, bytes),
        (Stage::AwaitingReply, EventView::Replied(None)) => submit(agent, Seq::empty()),
        (Stage::AwaitingResponse, EventView::Decoded(Some(response))) => (
            agent.at(Stage::AwaitingAck),
            ActionView::Persist {
                location: agent.params.db_path,
                key: agent.key,
                value: response.content,
            },
        ),
        (Stage::AwaitingResponse, EventView::Decoded(None)) => finish(
            agent,
            Err(AgentError::Decode),
        ),
        (Stage::AwaitingAck, EventView::Persisted(Ok(()))) => finish(agent, Ok(success_signal())),
        (Stage::AwaitingAck, EventView::Persisted(Err(error))) => finish(
            agent,
            Err(surfaced(error)),
        ),
        _ => finish(agent, Err(AgentError::OutOfTurn)),
    }
}

/// The interface of an agent that leaves its I/O to the caller.
///
/// `execute` starts a run and hands out its first request. The caller carries
/// out each request and passes what came of it to `resume`, until the request
/// is [`Action::Finish`].
pub trait AgentInterface: Sized + View<V = AgentView> {
    /// Starts the run for the task stored under `key`.
    fn execute(params: Parameters, key: String) -> (started: (Self, Action))
        ensures
            (started.0@, started.1@) == begin(params@, key@),
    ;

    /// Takes the answer to the pending request and says what to do next.
    fn resume(&mut self, event: Event) -> (action: Action)
        ensures
            (final(self)@, action@) == react(old(self)@, event@),
    ;
}

/// The agent.
pub struct Agent {
    params: Parameters,
    key: String,
    stage: Stage,
}

impl View for Agent {
    type V = AgentView;

    closed spec fn view(&self) -> AgentView {
        AgentView { params: self.params@, key: self.key@, stage: self.stage }
    }
}

impl Agent {
    /// Whether the run is over.
    pub fn is_finished(&self) -> (finished: bool)
        ensures
            finished == (self@.stage == Stage::Finished),
    {
        self.stage == Stage::Finished
    }

    /// The answer the run waits for.
    pub fn stage(&self) -> (stage: Stage)
        ensures
            stage == self@.stage,
    {
        self.stage
    }

    /// The key the task is read from and the result is written to.
    pub fn key(&self) -> (key: &String)
        ensures
            key@ == self@.key,
    {
        &self.key
    }

    /// What the run was started with.
    pub fn params(&self) -> (params: &Parameters)
        ensures
            params@ == self@.params,
    {
        &self.params
    }

    fn finish(&mut self, outcome: Result<String, AgentError>) -> (action: Action)
        ensures
            (final(self)@, action@) == finish(
                old(self)@,
                match outcome {
                    Ok(signal) => Ok(signal@),
                    Err(error) => Err(error),
                },
            ),
    {
        self.stage = Stage::Finished;
        Action::Finish { outcome }
    }

    fn submit(&mut self, bytes: Vec<u8>) -> (action: Action)
        ensures
            (final(self)@, action@) == submit(old(self)@, bytes@),
    {
        if bytes.len() == 0 {
            self.finish(Err(AgentError::Decode))
        } else {
            self.stage = Stage::AwaitingResponse;
            Action::Decode { bytes }
        }
    }

    fn dispatch(&mut self, task: Task) -> (action: Action)
        requires
            old(self)@.stage == Stage::AwaitingTask,
        ensures
            (final(self)@, action@) == react(old(self)@, EventView::Fetched(Ok(task@))),
    {
        match &self.params.mode {
            Mode::Test { fixture_path } => {
                let path = fixture_path.clone();
                self.stage = Stage::AwaitingFixture;
                Action::ReadFixture { path }
            },
            Mode::Execute { base_url } => {
                let url = base_url.clone();
                self.stage = Stage::AwaitingReply;
                Action::Post { url, body: get_llama_payload(task.prompt) }
            },
        }
    }

    fn persist(&mut self, response: LlamaResponse) -> (action: Action)
        requires
            old(self)@.stage == Stage::AwaitingResponse,
        ensures
            (final(self)@, action@) == react(old(self)@, EventView::Decoded(Some(response@))),
    {
        self.stage = Stage::AwaitingAck;
        Action::Persist {
            location: self.params.db_path.clone(),
            key: self.key.clone(),
            value: response.content,
        }
    }
}

impl AgentInterface for Agent {
    fn execute(params: Parameters, key: String) -> (started: (Self, Action)) {
        let request = Action::Fetch { location: params.db_path.clone(), key: key.clone() };
        (Agent { params, key, stage: Stage::AwaitingTask }, request)
    }

    fn resume(&mut self, event: Event) -> (action: Action) {
        match (self.stage, event) {
            (Stage::AwaitingTask, Event::Fetched(Ok(task))) => self.dispatch(task),
            (Stage::AwaitingTask, Event::Fetched(Err(error))) => self.finish(
                Err(AgentError::from_store(error)),
            ),
            (Stage::AwaitingFixture, Event::FixtureRead(Some(bytes))) => self.submit(bytes),
            (Stage::AwaitingFixture, Event::FixtureRead(None)) => self.finish(Err(AgentError::Io)),
            (Stage::AwaitingReply, Event::Replied(Some(bytes))) => self.submit(bytes),
            (Stage::AwaitingReply, Event::Replied(None)) => self.submit(Vec::new()),
            (Stage::AwaitingResponse, Event::Decoded(Some(response))) => self.persist(response),
            (Stage::AwaitingResponse, Event::Decoded(None)) => self.finish(
                Err(AgentError::Decode),
            ),
            (Stage::AwaitingAck, Event::Persisted(Ok(()))) => self.finish(
                Ok(String::from_str("exit => 0")),
            ),
            (Stage::AwaitingAck, Event::Persisted(Err(error))) => self.finish(
                Err(AgentError::from_store(error)),
            ),
            _ => self.finish(Err(AgentError::OutOfTurn)),
        }
    }
}

} // verus!
