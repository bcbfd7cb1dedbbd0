//! The values a run works on: its parameters, the task it reads, the decoded
//! reply, and the errors it can end with.

use vstd::prelude::*;

verus! {

/// Where the bytes of the inference step come from.
#[derive(Debug, PartialEq, Eq)]
pub enum Mode {
    /// Read a recorded reply from a local file; nothing is sent.
    Test { fixture_path: String },
    /// Post the request body to a live endpoint.
    Execute { base_url: String },
}

/// [`Mode`] as the contracts see it.
pub enum ModeView {
    Test { fixture_path: Seq<char> },
    Execute { base_url: Seq<char> },
}

impl View for Mode {
    type V = ModeView;

    open spec fn view(&self) -> ModeView {
        match *self {
            Mode::Test { fixture_path } => ModeView::Test { fixture_path: fixture_path@ },
            Mode::Execute { base_url } => ModeView::Execute { base_url: base_url@ },
        }
    }
}

impl Clone for Mode {
    fn clone(&self) -> (copy: Self)
        ensures
            copy == *self,
    {
        match self {
            Mode::Test { fixture_path } => Mode::Test { fixture_path: fixture_path.clone() },
            Mode::Execute { base_url } => Mode::Execute { base_url: base_url.clone() },
        }
    }
}

/// What one run is configured with.
#[derive(Debug, PartialEq, Eq)]
pub struct Parameters {
    /// The location of the document store.
    pub db_path: String,
    /// How the inference step obtains its bytes.
    pub mode: Mode,
}

/// [`Parameters`] as the contracts see it.
pub struct ParametersView {
    pub db_path: Seq<char>,
    pub mode: ModeView,
}

impl View for Parameters {
    type V = ParametersView;

    open spec fn view(&self) -> ParametersView {
        ParametersView { db_path: self.db_path@, mode: self.mode@ }
    }
}

impl Clone for Parameters {
    fn clone(&self) -> (copy: Self)
        ensures
            copy == *self,
    {
        Parameters { db_path: self.db_path.clone(), mode: self.mode.clone() }
    }
}

/// The unit of work read from the store.
#[derive(Debug, PartialEq, Eq, Default)]
pub struct Task {
    pub prompt: String,
}

/// [`Task`] as the contracts see it.
pub struct TaskView {
    pub prompt: Seq<char>,
}

impl View for Task {
    type V = TaskView;

    open spec fn view(&self) -> TaskView {
        TaskView { prompt: self.prompt@ }
    }
}

impl Clone for Task {
    fn clone(&self) -> (copy: Self)
        ensures
            copy == *self,
    {
        Task { prompt: self.prompt.clone() }
    }
}

/// The decoded reply of the inference endpoint.
///
/// A run acts on `content` alone. The other fields are the counters and the
/// stop reason that come with it and are carried along untouched.
#[derive(Debug, PartialEq, Eq, Default)]
pub struct LlamaResponse {
    pub index: i64,
    pub content: String,
    pub id_slot: i64,
    pub stop: bool,
    pub model: String,
    pub tokens_predicted: i64,
    pub tokens_evaluated: i64,
    pub prompt: String,
    pub has_new_line: bool,
    pub truncated: bool,
    pub stop_type: String,
    pub stopping_word: String,
    pub tokens_cached: i64,
}

/// [`LlamaResponse`] as the contracts see it.
pub struct LlamaResponseView {
    pub index: i64,
    pub content: Seq<char>,
    pub id_slot: i64,
    pub stop: bool,
    pub model: Seq<char>,
    pub tokens_predicted: i64,
    pub tokens_evaluated: i64,
    pub prompt: Seq<char>,
    pub has_new_line: bool,
    pub truncated: bool,
    pub stop_type: Seq<char>,
    pub stopping_word: Seq<char>,
    pub tokens_cached: i64,
}

impl View for LlamaResponse {
    type V = LlamaResponseView;

    open spec fn view(&self) -> LlamaResponseView {
        LlamaResponseView {
            index: self.index,
            content: self.content@,
            id_slot: self.id_slot,
            stop: self.stop,
            model: self.model@,
            tokens_predicted: self.tokens_predicted,
            tokens_evaluated: self.tokens_evaluated,
            prompt: self.prompt@,
            has_new_line: self.has_new_line,
            truncated: self.truncated,
            stop_type: self.stop_type@,
            stopping_word: self.stopping_word@,
            tokens_cached: self.tokens_cached,
        }
    }
}

impl Clone for LlamaResponse {
    fn clone(&self) -> (copy: Self)
        ensures
            copy == *self,
    {
        LlamaResponse {
            index: self.index,
            content: self.content.clone(),
            id_slot: self.id_slot,
            stop: self.stop,
            model: self.model.clone(),
            tokens_predicted: self.tokens_predicted,
            tokens_evaluated: self.tokens_evaluated,
            prompt: self.prompt.clone(),
            has_new_line: self.has_new_line,
            truncated: self.truncated,
            stop_type: self.stop_type.clone(),
            stopping_word: self.stopping_word.clone(),
            tokens_cached: self.tokens_cached,
        }
    }
}

/// Why the document store could not serve a request.
#[derive(Debug, Clone, Copy, PartialEq, Eq, Structural)]
pub enum StoreError {
    /// Nothing is stored under the key.
    NotFound,
    /// The store could not be read or written.
    Io,
}

/// Why a run ended without a result.
#[derive(Debug, Clone, Copy, PartialEq, Eq, Structural)]
pub enum AgentError {
    /// No task is stored under the key.
    NotFound,
    /// The store, or the recorded reply, could not be read or written.
    Io,
    /// The bytes of the reply are not a response; an empty reply, which is
    /// what a failed transport leaves, is the first such case.
    Decode,
    /// An answer arrived that the run had not asked for.
    OutOfTurn,
}

/// The error a run ends with when the store reports `error`.
pub open spec fn surfaced(error: StoreError) -> AgentError {
    match error {
        StoreError::NotFound => AgentError::NotFound,
        StoreError::Io => AgentError::Io,
    }
}

impl AgentError {
    /// Surfaces a failure of the store as it is.
    pub fn from_store(error: StoreError) -> (surfaced_error: AgentError)
        ensures
            surfaced_error == surfaced(error),
    {
        match error {
            StoreError::NotFound => AgentError::NotFound,
            StoreError::Io => AgentError::Io,
        }
    }
}

} // verus!
