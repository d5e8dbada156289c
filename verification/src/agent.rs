//! Starting an agent in a fork of its parent, and giving it a further prompt.
use crate::registry::Registry;
use crate::text::{is_blank, plus, trimmed};
use crate::turn::UserInput;
use crate::turn_input::{reason_text, NotSubmittedReason};
use crate::turn_request::{ContextEntry, TurnInput, TurnInputRequest, TurnStartOptions};
use vstd::prelude::*;
use vstd::string::*;

verus! {

/// Why an agent does not run.
#[derive(Debug)]
pub enum AgentError {
    InvalidRequest { message: String },
    UnsupportedOperation { message: String },
}

impl AgentError {
    pub open spec fn is_invalid(self, text: Seq<char>) -> bool {
        self matches AgentError::InvalidRequest { message } && message@ == text
    }

    pub open spec fn is_unsupported(self, text: Seq<char>) -> bool {
        self matches AgentError::UnsupportedOperation { message } && message@ == text
    }
}

/// Whether an agent may be started, or is refused so.
pub open spec fn is_start_checked(
    prompt: Seq<char>,
    manager_alive: bool,
    res: Result<(), AgentError>,
) -> bool {
    if trimmed(prompt).len() == 0 {
        res matches Err(error) && error.is_invalid("agent prompt must not be empty"@)
    } else if !manager_alive {
        res matches Err(error) && error.is_unsupported("thread manager dropped"@)
    } else {
        res is Ok
    }
}

/// Checks that an agent can be started: it has a prompt, and there is something that runs threads.
pub fn check_agent_start(prompt: &str, manager_alive: bool) -> (res: Result<(), AgentError>)
    ensures
        is_start_checked(prompt@, manager_alive, res),
{
    if is_blank(prompt) {
        return Err(
            AgentError::InvalidRequest { message: "agent prompt must not be empty".to_owned() },
        );
    }
    if !manager_alive {
        return Err(
            AgentError::UnsupportedOperation { message: "thread manager dropped".to_owned() },
        );
    }
    Ok(())
}

/// What became of the wait before the first turn of an agent, for whoever listens to it.
#[derive(Clone, Copy, Debug, PartialEq, Eq, Structural)]
pub enum ListenerWait {
    /// Nobody is waited for.
    Absent,
    Attached,
    /// Nobody listened in time.
    TimedOut,
    Dropped,
}

/// How many seconds an agent waits for its listener.
pub const LISTENER_SECONDS: u64 = 5;

/// Whether the first turn may be submitted after this wait, or is refused so.
pub open spec fn is_waited_for(outcome: ListenerWait, res: Result<(), AgentError>) -> bool {
    match outcome {
        ListenerWait::Absent => res is Ok,
        ListenerWait::Attached => res is Ok,
        ListenerWait::TimedOut => res matches Err(error) && error.is_invalid(
            "agent event listener was not attached before start"@,
        ),
        ListenerWait::Dropped => res matches Err(error) && error.is_invalid(
            "agent event listener gate was dropped"@,
        ),
    }
}

/// Decides whether the first turn may be submitted: no earlier than its listener is attached.
pub fn after_listener_wait(outcome: ListenerWait) -> (res: Result<(), AgentError>)
    ensures
        is_waited_for(outcome, res),
{
    match outcome {
        ListenerWait::Absent | ListenerWait::Attached => Ok(()),
        ListenerWait::TimedOut => Err(
            AgentError::InvalidRequest {
                message: "agent event listener was not attached before start".to_owned(),
            },
        ),
        ListenerWait::Dropped => Err(
            AgentError::InvalidRequest {
                message: "agent event listener gate was dropped".to_owned(),
            },
        ),
    }
}

/// Whether the thread of an agent is handed this.
pub open spec fn is_agent_request(
    prompt: String,
    output_schema: Option<serde_json::Value>,
    request: TurnInputRequest,
) -> bool {
    &&& request.input matches TurnInput::UserInput { content, client_id } && content@ == seq![
        UserInput::Text(prompt),
    ] && client_id is None
    &&& request.thread_settings is None
    &&& request.on_start == Some(
        TurnStartOptions {
            turn_trigger: None,
            final_output_json_schema: output_schema,
            service_tier: None,
            cyber_access_program: None,
        },
    )
    &&& request.additional_context.map() == Map::<Seq<char>, ContextEntry>::empty()
    &&& request.responses_metadata is None
}

/// Forms what the thread of an agent is handed: the prompt alone, as its user's, and the shape that
/// the output of its turn has, where one is asked for.
pub fn agent_request(prompt: String, output_schema: Option<serde_json::Value>) -> (res:
    TurnInputRequest)
    ensures
        is_agent_request(prompt, output_schema, res),
        res.additional_context.well_formed(),
{
    let mut content: Vec<UserInput> = Vec::new();
    content.push(UserInput::Text(prompt));
    TurnInputRequest {
        input: TurnInput::UserInput { content, client_id: None },
        thread_settings: None,
        on_start: Some(
            TurnStartOptions {
                turn_trigger: None,
                final_output_json_schema: output_schema,
                service_tier: None,
                cyber_access_program: None,
            },
        ),
        additional_context: Registry::new(),
        responses_metadata: None,
    }
}

/// How a thread took a prompt that may only start a turn.
#[derive(Debug)]
pub enum StartIfIdleSubmission {
    Started { turn_id: String },
    NotSubmitted { reason: NotSubmittedReason },
}

/// Whether a prompt that was taken so is answered so.
pub open spec fn is_agent_turn(
    submission: StartIfIdleSubmission,
    further: bool,
    res: Result<String, AgentError>,
) -> bool {
    match submission {
        StartIfIdleSubmission::Started { turn_id } => res matches Ok(turn) && turn == turn_id,
        StartIfIdleSubmission::NotSubmitted { reason } => res matches Err(error) && error.is_invalid(
            (if further {
                "agent repair prompt was not submitted: "@
            } else {
                "agent prompt was not submitted: "@
            }) + reason_text(reason),
        ),
    }
}

/// The turn that a prompt started. `further` tells whether the agent ran before.
pub fn agent_turn(submission: StartIfIdleSubmission, further: bool) -> (res: Result<
    String,
    AgentError,
>)
    ensures
        is_agent_turn(submission, further, res),
{
    match submission {
        StartIfIdleSubmission::Started { turn_id } => Ok(turn_id),
        StartIfIdleSubmission::NotSubmitted { reason } => {
            let start = if further {
                "agent repair prompt was not submitted: "
            } else {
                "agent prompt was not submitted: "
            };
            Err(AgentError::InvalidRequest { message: plus(start, reason.text().as_str()) })
        },
    }
}

/// An agent is started exactly with a prompt that says something, while there is something that runs
/// threads, and no earlier than whoever listens to it does.
pub proof fn agent_needs_prompt_and_listener(
    prompt: Seq<char>,
    manager_alive: bool,
    checked: Result<(), AgentError>,
    outcome: ListenerWait,
    waited: Result<(), AgentError>,
)
    requires
        is_start_checked(prompt, manager_alive, checked),
        is_waited_for(outcome, waited),
    ensures
        checked is Ok <==> trimmed(prompt).len() > 0 && manager_alive,
        trimmed(prompt).len() == 0 ==> checked->Err_0 is InvalidRequest,
        trimmed(prompt).len() > 0 && !manager_alive ==> checked->Err_0 is UnsupportedOperation,
        waited is Ok <==> outcome is Absent || outcome is Attached,
        waited is Err ==> waited->Err_0 is InvalidRequest,
        outcome is TimedOut ==> waited->Err_0->InvalidRequest_message@
            == "agent event listener was not attached before start"@,
        outcome is Dropped ==> waited->Err_0->InvalidRequest_message@
            == "agent event listener gate was dropped"@,
{
}

/// An agent gets its prompt and nothing else, with the schema that its output must have; the turn that
/// it started is told, or why it did not start.
pub proof fn agent_gets_its_prompt_alone(
    prompt: String,
    output_schema: Option<serde_json::Value>,
    request: TurnInputRequest,
    submission: StartIfIdleSubmission,
    further: bool,
    res: Result<String, AgentError>,
)
    requires
        is_agent_request(prompt, output_schema, request),
        is_agent_turn(submission, further, res),
    ensures
        request.input matches TurnInput::UserInput { content, client_id } && content@.len() == 1 && (
        content@[0] matches UserInput::Text(text) && text == prompt),
        request.thread_settings is None,
        request.on_start is Some,
        request.on_start->Some_0.final_output_json_schema == output_schema,
        request.on_start->Some_0.turn_trigger is None,
        request.on_start->Some_0.service_tier is None,
        request.responses_metadata is None,
        forall|key: Seq<char>| !#[trigger] request.additional_context.map().dom().contains(key),
        res is Ok <==> submission is Started,
        res matches Ok(turn) ==> turn == submission->turn_id,
        submission matches StartIfIdleSubmission::NotSubmitted { reason } ==> (res->Err_0
            matches AgentError::InvalidRequest { message } && message@.skip(
            message@.len() - reason_text(reason).len(),
        ) == reason_text(reason)),
{
    if let StartIfIdleSubmission::NotSubmitted { reason } = submission {
        if let AgentError::InvalidRequest { message } = res->Err_0 {
            assert(message@.skip(message@.len() - reason_text(reason).len()) =~= reason_text(
                reason,
            ));
        }
    }
}

/// A prompt that was not taken is told as what it was: the first one, or one that asks to repair.
pub proof fn refused_prompt_is_told_as_what_it_was(
    submission: StartIfIdleSubmission,
    further: bool,
    res: Result<String, AgentError>,
)
    requires
        is_agent_turn(submission, further, res),
        submission is NotSubmitted,
    ensures
        res matches Err(AgentError::InvalidRequest { message }) && if further {
            "agent repair prompt was not submitted: "@.is_prefix_of(message@)
        } else {
            "agent prompt was not submitted: "@.is_prefix_of(message@)
        },
{
    let message = res->Err_0->InvalidRequest_message@;
    let repair = "agent repair prompt was not submitted: "@;
    let first = "agent prompt was not submitted: "@;
    if further {
        assert(repair =~= message.subrange(0, repair.len() as int));
    } else {
        assert(first =~= message.subrange(0, first.len() as int));
    }
}

} // verus!
