//! What holds of every run.
//!
//! The first group speaks of single steps and of arbitrary sequences of
//! answers: it holds whatever the caller hands back. The second group speaks
//! of whole runs with a caller that carries out every request faithfully, in
//! a [`World`].

use vstd::prelude::*;
use crate::agent::{begin, react, success_signal, AgentView};
use crate::payload::payload_of;
use crate::protocol::{ActionView, EventView, Stage};
use crate::types::{AgentError, ModeView, ParametersView, TaskView};
use crate::world::{execution, longest_run, pipeline, run, World};

verus! {

/// A run never changes its parameters or its key, and every request to the
/// store names the location and the key that the run was started with: the
/// task is read from, and the result written to, one and the same place.
pub proof fn law_one_location_one_key(
    params: ParametersView,
    key: Seq<char>,
    agent: AgentView,
    event: EventView,
)
    ensures
        begin(params, key).0.params == params,
        begin(params, key).0.key == key,
        begin(params, key).1 == (ActionView::Fetch { location: params.db_path, key }),
        react(agent, event).0.params == agent.params,
        react(agent, event).0.key == agent.key,
        !(react(agent, event).1 is Fetch),
        react(agent, event).1 matches ActionView::Persist { location, key: written, .. } ==> {
            &&& location == agent.params.db_path
            &&& written == agent.key
        },
{
}

/// In test mode the task's prompt has no part in what is asked for next.
pub proof fn law_test_mode_ignores_prompt(agent: AgentView, first: TaskView, second: TaskView)
    requires
        agent.params.mode is Test,
    ensures
        react(agent, EventView::Fetched(Ok(first))) == react(agent, EventView::Fetched(Ok(second))),
{
}

/// In execute mode the request body is the payload of the task's prompt, and
/// a transport that fails counts as an empty reply: the run ends with
/// `Decode`.
pub proof fn law_execute_mode_posts_payload(agent: AgentView, task: TaskView)
    requires
        agent.params.mode is Execute,
        agent.stage == Stage::AwaitingTask,
    ensures
        react(agent, EventView::Fetched(Ok(task))) == (
            agent.at(Stage::AwaitingReply),
            ActionView::Post { url: agent.params.mode->base_url, body: payload_of(task.prompt) },
        ),
        react(agent.at(Stage::AwaitingReply), EventView::Replied(None)) == (
            agent.at(Stage::Finished),
            ActionView::Finish { outcome: Err::<Seq<char>, AgentError>(AgentError::Decode) },
        ),
{
}

/// Whatever the caller hands back, bytes go to the decoder only if there are
/// any, a write is asked for only in answer to a decoded reply that was
/// awaited, and success is reported only in answer to the store's
/// acknowledgement of that write. A run that is over stays over.
pub proof fn law_requests_come_in_order(agent: AgentView, event: EventView)
    ensures
        react(agent, event).1 matches ActionView::Decode { bytes } ==> {
            &&& agent.stage == Stage::AwaitingFixture || agent.stage == Stage::AwaitingReply
            &&& bytes.len() > 0
        },
        react(agent, event).1 matches ActionView::Persist { value, .. } ==> {
            &&& agent.stage == Stage::AwaitingResponse
            &&& event matches EventView::Decoded(Some(response))
            &&& value == response.content
        },
        react(agent, event).1 matches ActionView::Finish { outcome: Ok(signal) } ==> {
            &&& agent.stage == Stage::AwaitingAck
            &&& event matches EventView::Persisted(Ok(_))
            &&& signal == success_signal()
        },
        react(agent, event).1 is Finish <==> react(agent, event).0.stage == Stage::Finished,
        agent.stage == Stage::Finished ==> react(agent, event) == (
            agent,
            ActionView::Finish { outcome: Err::<Seq<char>, AgentError>(AgentError::OutOfTurn) },
        ),
{
}

/// How far a stage is from the start of a run.
pub open spec fn progress(stage: Stage) -> nat {
    match stage {
        Stage::AwaitingTask => 0,
        Stage::AwaitingFixture => 1,
        Stage::AwaitingReply => 1,
        Stage::AwaitingResponse => 2,
        Stage::AwaitingAck => 3,
        Stage::Finished => 4,
    }
}

/// The run that `agent` has become after `events`, taken in order.
pub open spec fn replay(agent: AgentView, events: Seq<EventView>) -> AgentView
    decreases events.len(),
{
    if events.len() == 0 {
        agent
    } else {
        replay(react(agent, events.first()).0, events.drop_first())
    }
}

/// The number of writes that `agent` asks for while `events` arrive.
pub open spec fn writes_requested(agent: AgentView, events: Seq<EventView>) -> nat
    decreases events.len(),
{
    if events.len() == 0 {
        0
    } else {
        let (next, request) = react(agent, events.first());
        (if request is Persist {
            1nat
        } else {
            0nat
        }) + writes_requested(next, events.drop_first())
    }
}

/// Every answer takes a run at least one stage further, until it is over.
pub proof fn law_every_answer_is_progress(agent: AgentView, event: EventView)
    ensures
        agent.stage != Stage::Finished ==> progress(react(agent, event).0.stage) > progress(
            agent.stage,
        ),
        agent.stage == Stage::Finished ==> react(agent, event).0.stage == Stage::Finished,
{
}

/// Whatever the caller hands back, a run is over after four answers.
pub proof fn law_run_ends_within_four_answers(agent: AgentView, events: Seq<EventView>)
    requires
        events.len() + progress(agent.stage) >= longest_run(),
    ensures
        replay(agent, events).stage == Stage::Finished,
    decreases events.len(),
{
    if events.len() > 0 {
        law_every_answer_is_progress(agent, events.first());
        law_run_ends_within_four_answers(react(agent, events.first()).0, events.drop_first());
    }
}

/// Whatever the caller hands back, and however long it goes on, a run asks
/// for at most one write; and for none once a write was asked for or the run
/// is over.
pub proof fn law_at_most_one_write(agent: AgentView, events: Seq<EventView>)
    ensures
        writes_requested(agent, events) <= 1,
        progress(agent.stage) >= 3 ==> writes_requested(agent, events) == 0,
    decreases events.len(),
{
    if events.len() > 0 {
        law_every_answer_is_progress(agent, events.first());
        law_at_most_one_write(react(agent, events.first()).0, events.drop_first());
    }
}

/// A run with a faithful caller is the pipeline: it ends within four answers,
/// reports what the pipeline comes to, and leaves the world that the pipeline
/// leaves.
pub proof fn law_execution_is_pipeline(world: World, params: ParametersView, key: Seq<char>)
    ensures
        execution(world, params, key) == (
            pipeline(world, params, key).1,
            ActionView::Finish { outcome: pipeline(world, params, key).0 },
        ),
{
    reveal_with_fuel(run, 5);
}

/// A run that fails leaves the world as it found it: nothing is written on
/// any failure path.
pub proof fn law_failure_writes_nothing(world: World, params: ParametersView, key: Seq<char>)
    requires
        execution(world, params, key).1 matches ActionView::Finish { outcome: Err(_) },
    ensures
        execution(world, params, key).0 == world,
{
    law_execution_is_pipeline(world, params, key);
}

/// A run that succeeds reports the success signal and has written one
/// document: the content of the decoded reply, at the location and under the
/// key that the task was read from. Every other document is as it was, and
/// so is everything else.
pub proof fn law_success_writes_content(world: World, params: ParametersView, key: Seq<char>)
    requires
        execution(world, params, key).1 matches ActionView::Finish { outcome: Ok(_) },
    ensures
        execution(world, params, key).1 == (ActionView::Finish {
            outcome: Ok::<Seq<char>, AgentError>(success_signal()),
        }),
        world.documents.contains_key((params.db_path, key)),
        ({
            let prompt = world.documents[(params.db_path, key)];
            let bytes = world.dispatch(params.mode, payload_of(prompt));
            let after = execution(world, params, key).0;
            &&& bytes is Some
            &&& world.decode(bytes->0) is Some
            &&& after.documents == world.documents.insert(
                (params.db_path, key),
                world.decode(bytes->0)->0.content,
            )
            &&& after == World { documents: after.documents, ..world }
        }),
{
    law_execution_is_pipeline(world, params, key);
}

/// In test mode the prompt has no part in what a run comes to: two worlds
/// that differ in nothing but the task stored under the key give the same
/// outcome, and where that is a success the same world, whose document under
/// the key is the content of the recorded reply.
pub proof fn law_test_run_ignores_prompt(
    world: World,
    db_path: Seq<char>,
    fixture_path: Seq<char>,
    key: Seq<char>,
    first: Seq<char>,
    second: Seq<char>,
)
    ensures
        ({
            let params = ParametersView { db_path, mode: ModeView::Test { fixture_path } };
            let with_first = World {
                documents: world.documents.insert((db_path, key), first),
                ..world
            };
            let with_second = World {
                documents: world.documents.insert((db_path, key), second),
                ..world
            };
            let one = execution(with_first, params, key);
            let other = execution(with_second, params, key);
            &&& one.1 == other.1
            &&& one.1 matches ActionView::Finish { outcome: Ok(_) } ==> {
                &&& one.0 == other.0
                &&& world.read(fixture_path) is Some
                &&& world.decode(world.read(fixture_path)->0) is Some
                &&& one.0.documents[(db_path, key)] == world.decode(
                    world.read(fixture_path)->0,
                )->0.content
            }
        }),
{
    let params = ParametersView { db_path, mode: ModeView::Test { fixture_path } };
    let with_first = World { documents: world.documents.insert((db_path, key), first), ..world };
    let with_second = World {
        documents: world.documents.insert((db_path, key), second),
        ..world
    };
    law_execution_is_pipeline(with_first, params, key);
    law_execution_is_pipeline(with_second, params, key);
    let one = pipeline(with_first, params, key);
    let other = pipeline(with_second, params, key);
    if one.0 is Ok {
        assert(one.1.documents =~= other.1.documents);
    }
}

/// Running again for the same key, with the same bytes coming back from the
/// inference step, changes nothing: the second run ends as the first did,
/// and where it writes, it writes the document that is already there.
pub proof fn law_rerun_changes_nothing(world: World, params: ParametersView, key: Seq<char>)
    requires
        ({
            let after = execution(world, params, key).0;
            after.dispatch(params.mode, payload_of(after.documents[(params.db_path, key)]))
                == world.dispatch(params.mode, payload_of(world.documents[(params.db_path, key)]))
        }),
    ensures
        execution(execution(world, params, key).0, params, key) == execution(world, params, key),
{
    law_execution_is_pipeline(world, params, key);
    let after = pipeline(world, params, key).1;
    law_execution_is_pipeline(after, params, key);
    let again = pipeline(after, params, key).1;
    assert(again.documents =~= after.documents);
}

/// In test mode the same bytes always come back, so running again changes
/// nothing.
pub proof fn law_rerun_in_test_mode_changes_nothing(
    world: World,
    db_path: Seq<char>,
    fixture_path: Seq<char>,
    key: Seq<char>,
)
    ensures
        ({
            let params = ParametersView { db_path, mode: ModeView::Test { fixture_path } };
            execution(execution(world, params, key).0, params, key) == execution(world, params, key)
        }),
{
    let params = ParametersView { db_path, mode: ModeView::Test { fixture_path } };
    law_execution_is_pipeline(world, params, key);
    law_rerun_changes_nothing(world, params, key);
}

/// Where no task is stored under the key, a run fails with `NotFound` and
/// writes nothing.
pub proof fn law_missing_task_is_not_found(world: World, params: ParametersView, key: Seq<char>)
    requires
        world.readable,
        !world.documents.contains_key((params.db_path, key)),
    ensures
        execution(world, params, key) == (
            world,
            ActionView::Finish { outcome: Err::<Seq<char>, AgentError>(AgentError::NotFound) },
        ),
{
    law_execution_is_pipeline(world, params, key);
}

/// Where the recorded reply is empty, or is not a response, a run in test
/// mode fails with `Decode` and writes nothing.
pub proof fn law_unusable_fixture_is_decode_error(
    world: World,
    db_path: Seq<char>,
    fixture_path: Seq<char>,
    key: Seq<char>,
)
    requires
        world.readable,
        world.documents.contains_key((db_path, key)),
        world.files.contains_key(fixture_path),
        world.files[fixture_path].len() == 0 || (world.decoder)(world.files[fixture_path]) is None,
    ensures
        execution(world, ParametersView { db_path, mode: ModeView::Test { fixture_path } }, key)
            == (
            world,
            ActionView::Finish { outcome: Err::<Seq<char>, AgentError>(AgentError::Decode) },
        ),
{
    law_execution_is_pipeline(
        world,
        ParametersView { db_path, mode: ModeView::Test { fixture_path } },
        key,
    );
}

/// Where the endpoint cannot be reached, a run in execute mode fails with
/// `Decode`, not with an error of the transport, and writes nothing.
pub proof fn law_unreachable_endpoint_is_decode_error(
    world: World,
    db_path: Seq<char>,
    base_url: Seq<char>,
    key: Seq<char>,
)
    requires
        world.readable,
        world.documents.contains_key((db_path, key)),
        !world.endpoints.contains_key(base_url),
    ensures
        execution(world, ParametersView { db_path, mode: ModeView::Execute { base_url } }, key)
            == (
            world,
            ActionView::Finish { outcome: Err::<Seq<char>, AgentError>(AgentError::Decode) },
        ),
{
    law_execution_is_pipeline(
        world,
        ParametersView { db_path, mode: ModeView::Execute { base_url } },
        key,
    );
}

} // verus!
