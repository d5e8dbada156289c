//! Starting, steering and interrupting turns.
use crate::error::{
    internal_error, invalid_params, invalid_request, refused_by, ErrorData, NonSteerableTurnKind,
    RpcError, INTERNAL_ERROR, INVALID_PARAMS, INVALID_REQUEST,
};
use crate::ids::{uuid_parse, uuid_text, ThreadId};
use crate::text::{
    decimal, is_text, number, option_text, plus, plus3, same, starts_with, has_prefix,
};
use crate::turn_input::{
    reason_text, NotSubmittedReason, SteerSubmission, TurnInputSubmission,
};
use vstd::prelude::*;
use vstd::string::*;

verus! {

/// One part of what a user sends.
#[derive(Debug)]
pub enum UserInput {
    Text(String),
    /// An image given by its address; `remote` tells whether that leads elsewhere.
    InlineImage { url: String, remote: bool },
    /// A part of another sort, as it was sent.
    Other(serde_json::Value),
}

/// One part of a message or of a tool's output.
#[derive(Debug)]
pub enum ContentPart {
    Text(String),
    InlineImage { url: String, remote: bool },
    /// A part of another sort, as it was sent.
    Other(serde_json::Value),
}

/// An item of a thread's history that can carry images.
#[derive(Debug)]
pub enum ResponseItem {
    Message(Vec<ContentPart>),
    /// The output of a tool; plain text has no parts.
    ToolOutput(Option<Vec<ContentPart>>),
    Other,
}

pub open spec fn is_remote_input(input: UserInput) -> bool {
    input matches UserInput::InlineImage { url, remote } && remote
}

pub open spec fn is_remote_part(part: ContentPart) -> bool {
    part matches ContentPart::InlineImage { url, remote } && remote
}

pub open spec fn has_remote_part(parts: Seq<ContentPart>) -> bool {
    exists|i: int| 0 <= i < parts.len() && is_remote_part(#[trigger] parts[i])
}

pub open spec fn item_has_remote_image(item: ResponseItem) -> bool {
    match item {
        ResponseItem::Message(parts) => has_remote_part(parts@),
        ResponseItem::ToolOutput(Some(parts)) => has_remote_part(parts@),
        _ => false,
    }
}

/// Why an input is rejected for its images.
pub open spec fn input_image_refusal(input: Seq<UserInput>, message: Seq<char>) -> Option<
    Seq<char>,
> {
    if exists|i: int| 0 <= i < input.len() && is_remote_input(#[trigger] input[i]) {
        Some(message)
    } else {
        None
    }
}

/// Why items are rejected for their images.
pub open spec fn item_image_refusal(items: Seq<ResponseItem>, message: Seq<char>) -> Option<
    Seq<char>,
> {
    if exists|i: int| 0 <= i < items.len() && item_has_remote_image(#[trigger] items[i]) {
        Some(message)
    } else {
        None
    }
}

/// Rejects, with the given message, an input that shows an image from elsewhere.
pub fn validate_user_input_image_urls(input: &Vec<UserInput>, message: &str) -> (res: Result<
    (),
    RpcError,
>)
    ensures
        refused_by(res, input_image_refusal(input@, message@)),
{
    let mut i: usize = 0;
    while i < input.len()
        invariant
            i <= input@.len(),
            forall|j: int| 0 <= j < i ==> !is_remote_input(#[trigger] input@[j]),
        decreases input@.len() - i,
    {
        match &input[i] {
            UserInput::InlineImage { url: _, remote } => {
                if *remote {
                    assert(is_remote_input(input@[i as int]));
                    return Err(invalid_request(message));
                }
            },
            _ => {},
        }
        i = i + 1;
    }
    Ok(())
}

/// Whether some part shows an image from elsewhere.
pub fn any_remote_part(parts: &Vec<ContentPart>) -> (res: bool)
    ensures
        res == has_remote_part(parts@),
{
    let mut i: usize = 0;
    while i < parts.len()
        invariant
            i <= parts@.len(),
            forall|j: int| 0 <= j < i ==> !is_remote_part(#[trigger] parts@[j]),
        decreases parts@.len() - i,
    {
        match &parts[i] {
            ContentPart::InlineImage { url: _, remote } => {
                if *remote {
                    assert(is_remote_part(parts@[i as int]));
                    return true;
                }
            },
            _ => {},
        }
        i = i + 1;
    }
    false
}

/// Rejects, with the given message, items that show an image from elsewhere.
pub fn validate_response_item_image_urls(items: &Vec<ResponseItem>, message: &str) -> (res: Result<
    (),
    RpcError,
>)
    ensures
        refused_by(res, item_image_refusal(items@, message@)),
{
    let mut i: usize = 0;
    while i < items.len()
        invariant
            i <= items@.len(),
            forall|j: int| 0 <= j < i ==> !item_has_remote_image(#[trigger] items@[j]),
        decreases items@.len() - i,
    {
        let remote = match &items[i] {
            ResponseItem::Message(parts) => any_remote_part(parts),
            ResponseItem::ToolOutput(Some(parts)) => any_remote_part(parts),
            _ => false,
        };
        if remote {
            assert(item_has_remote_image(items@[i as int]));
            return Err(invalid_request(message));
        }
        i = i + 1;
    }
    Ok(())
}

/// The thread that a request names.
pub fn parse_thread_id(thread_id: &str) -> (res: Result<ThreadId, RpcError>)
    ensures
        refused_by(
            res,
            match uuid_parse(thread_id@) {
                Ok(_) => None,
                Err(message) => Some("invalid thread id: "@ + message),
            },
        ),
        res matches Ok(id) ==> uuid_parse(thread_id@) == Ok::<u128, Seq<char>>(id.value),
{
    match ThreadId::from_string(thread_id) {
        Ok(id) => Ok(id),
        Err(message) => Err(
            invalid_request(plus("invalid thread id: ", message.as_str()).as_str()),
        ),
    }
}

/// The answer to a request for a thread that is not there.
pub fn thread_not_found(thread_id: ThreadId) -> (res: RpcError)
    ensures
        res.is(INVALID_REQUEST, "thread not found: "@ + uuid_text(thread_id.value)),
{
    invalid_request(plus("thread not found: ", thread_id.to_text().as_str()).as_str())
}

/// Whether elicitations are denied for a client of this name and version.
pub open spec fn denies_elicitations(
    client_name: Option<Seq<char>>,
    client_version: Option<Seq<char>>,
) -> bool {
    client_name == Some("Xcode"@) && (client_version matches Some(version) && has_prefix(
        version,
        "26.4"@,
    ))
}

/// Whether the elicitations of MCP servers are denied for a client that cannot show them: the Xcode
/// of one release line.
pub fn xcode_26_4_mcp_elicitations_auto_deny(
    client_name: Option<&str>,
    client_version: Option<&str>,
) -> (res: bool)
    ensures
        res == denies_elicitations(
            match client_name {
                Some(name) => Some(name@),
                None => None,
            },
            match client_version {
                Some(version) => Some(version@),
                None => None,
            },
        ),
{
    let xcode = match client_name {
        Some(name) => same(name, "Xcode"),
        None => false,
    };
    let release = match client_version {
        Some(version) => starts_with(version, "26.4"),
        None => false,
    };
    xcode && release
}

/// The characters of the texts in an input.
pub open spec fn input_chars(input: Seq<UserInput>) -> nat
    decreases input.len(),
{
    if input.len() == 0 {
        0
    } else {
        input_chars(input.drop_last()) + match input.last() {
            UserInput::Text(text) => text@.len(),
            _ => 0,
        }
    }
}

/// The characters of the texts among parts.
pub open spec fn part_chars(parts: Seq<ContentPart>) -> nat
    decreases parts.len(),
{
    if parts.len() == 0 {
        0
    } else {
        part_chars(parts.drop_last()) + match parts.last() {
            ContentPart::Text(text) => text@.len(),
            _ => 0,
        }
    }
}

/// The output of a tool that a turn is started with.
#[derive(Debug)]
pub struct ToolOutput {
    pub name: String,
    pub namespace: Option<String>,
    pub output: ToolOutputBody,
}

#[derive(Debug)]
pub enum ToolOutputBody {
    Text(String),
    Parts(Vec<ContentPart>),
}

pub open spec fn body_chars(body: ToolOutputBody) -> nat {
    match body {
        ToolOutputBody::Text(text) => text@.len(),
        ToolOutputBody::Parts(parts) => part_chars(parts@),
    }
}

pub open spec fn tool_output_chars(output: Option<ToolOutput>) -> nat {
    match output {
        Some(output) => body_chars(output.output),
        None => 0,
    }
}

proof fn input_chars_grow(input: Seq<UserInput>, i: int)
    requires
        0 <= i <= input.len(),
    ensures
        input_chars(input.take(i)) <= input_chars(input),
    decreases input.len(),
{
    if i < input.len() {
        assert(input.drop_last().take(i) =~= input.take(i));
        input_chars_grow(input.drop_last(), i);
    } else {
        assert(input.take(i) =~= input);
    }
}

proof fn part_chars_grow(parts: Seq<ContentPart>, i: int)
    requires
        0 <= i <= parts.len(),
    ensures
        part_chars(parts.take(i)) <= part_chars(parts),
    decreases parts.len(),
{
    if i < parts.len() {
        assert(parts.drop_last().take(i) =~= parts.take(i));
        part_chars_grow(parts.drop_last(), i);
    } else {
        assert(parts.take(i) =~= parts);
    }
}

fn count_input(input: &Vec<UserInput>) -> (res: usize)
    requires
        input_chars(input@) <= usize::MAX,
    ensures
        res == input_chars(input@),
{
    let mut total: usize = 0;
    let mut i: usize = 0;
    while i < input.len()
        invariant
            input_chars(input@) <= usize::MAX,
            i <= input@.len(),
            total == input_chars(input@.take(i as int)),
        decreases input@.len() - i,
    {
        assert(input@.take(i + 1).drop_last() =~= input@.take(i as int));
        proof {
            input_chars_grow(input@, i + 1);
        }
        match &input[i] {
            UserInput::Text(text) => {
                total = total + text.as_str().unicode_len();
            },
            _ => {},
        }
        i = i + 1;
    }
    assert(input@.take(input@.len() as int) =~= input@);
    total
}

fn count_parts(parts: &Vec<ContentPart>) -> (res: usize)
    requires
        part_chars(parts@) <= usize::MAX,
    ensures
        res == part_chars(parts@),
{
    let mut total: usize = 0;
    let mut i: usize = 0;
    while i < parts.len()
        invariant
            part_chars(parts@) <= usize::MAX,
            i <= parts@.len(),
            total == part_chars(parts@.take(i as int)),
        decreases parts@.len() - i,
    {
        assert(parts@.take(i + 1).drop_last() =~= parts@.take(i as int));
        proof {
            part_chars_grow(parts@, i + 1);
        }
        match &parts[i] {
            ContentPart::Text(text) => {
                total = total + text.as_str().unicode_len();
            },
            _ => {},
        }
        i = i + 1;
    }
    assert(parts@.take(parts@.len() as int) =~= parts@);
    total
}

/// Whether an error says that an input is too long.
pub open spec fn is_too_large(error: RpcError, limit: usize, actual: nat) -> bool {
    &&& error.code == INVALID_PARAMS
    &&& error.message@ == "Input exceeds the maximum length of "@ + decimal(limit as nat)
        + " characters."@
    &&& error.data == Some(
        ErrorData::InputTooLarge { max_chars: limit, actual_chars: actual as usize },
    )
}

pub fn input_too_large_error(limit: usize, actual_chars: usize) -> (res: RpcError)
    ensures
        is_too_large(res, limit, actual_chars as nat),
{
    let message = plus3(
        "Input exceeds the maximum length of ",
        number(limit as u64).as_str(),
        " characters.",
    );
    let mut error = invalid_params(message.as_str());
    error.data = Some(ErrorData::InputTooLarge { max_chars: limit, actual_chars });
    error
}

/// Rejects an input with more characters than the limit.
pub fn validate_v2_input_limit(items: &Vec<UserInput>, limit: usize) -> (res: Result<(), RpcError>)
    requires
        input_chars(items@) <= usize::MAX,
    ensures
        res is Ok <==> input_chars(items@) <= limit,
        res matches Err(error) ==> is_too_large(error, limit, input_chars(items@)),
{
    let actual: usize = count_input(items);
    if actual > limit {
        Err(input_too_large_error(limit, actual))
    } else {
        Ok(())
    }
}

/// Why the input of a turn is rejected before its length counts.
pub open spec fn turn_input_refusal(
    input: Seq<UserInput>,
    tool_output: Option<ToolOutput>,
) -> Option<Seq<char>> {
    match tool_output {
        Some(output) => if input.len() > 0 {
            Some("`toolOutput` cannot be combined with nonempty `input`"@)
        } else if output.name@.len() == 0 {
            Some("`toolOutput.name` must not be empty"@)
        } else {
            None
        },
        None => None,
    }
}

/// Whether the input of a turn is accepted or rejected so.
pub open spec fn is_input_checked(
    input: Seq<UserInput>,
    tool_output: Option<ToolOutput>,
    limit: usize,
    res: Result<(), RpcError>,
) -> bool {
    match turn_input_refusal(input, tool_output) {
        Some(message) => res matches Err(error) && error.is(INVALID_REQUEST, message),
        None => {
            let actual = input_chars(input) + tool_output_chars(tool_output);
            &&& res is Ok <==> actual <= limit
            &&& res matches Err(error) ==> is_too_large(error, limit, actual)
        },
    }
}

/// Checks the input of a turn: the output of a tool stands alone and has a name, and there are not
/// too many characters.
pub fn check_turn_input(
    input: &Vec<UserInput>,
    tool_output: &Option<ToolOutput>,
    limit: usize,
) -> (res: Result<(), RpcError>)
    requires
        input_chars(input@) + tool_output_chars(*tool_output) <= usize::MAX,
    ensures
        is_input_checked(input@, *tool_output, limit, res),
{
    let mut actual: usize = count_input(input);
    match tool_output {
        Some(output) => {
            if input.len() > 0 {
                return Err(
                    invalid_request("`toolOutput` cannot be combined with nonempty `input`"),
                );
            }
            if output.name.as_str().is_empty() {
                return Err(invalid_request("`toolOutput.name` must not be empty"));
            }
            let more: usize = match &output.output {
                ToolOutputBody::Text(text) => text.as_str().unicode_len(),
                ToolOutputBody::Parts(parts) => count_parts(parts),
            };
            actual = actual + more;
        },
        None => {},
    }
    if actual > limit {
        Err(input_too_large_error(limit, actual))
    } else {
        Ok(())
    }
}

/// Why an input was not submitted.
#[derive(Debug)]
pub enum SubmitError {
    /// The server is shutting down.
    Draining,
    Rpc(RpcError),
}

/// The turn that took an input, and whether the input started it.
#[derive(Debug)]
pub struct StartedTurn {
    pub turn_id: String,
    pub started: bool,
}

/// Whether a submission that came to this is answered so.
pub open spec fn is_submitted(
    outcome: Result<TurnInputSubmission, String>,
    res: Result<StartedTurn, SubmitError>,
) -> bool {
    match outcome {
        Ok(TurnInputSubmission::Started { turn_id }) => res matches Ok(turn) && turn.turn_id@
            == turn_id@ && turn.started,
        Ok(TurnInputSubmission::Steered { turn_id }) => res matches Ok(turn) && turn.turn_id@
            == turn_id@ && !turn.started,
        Ok(TurnInputSubmission::NotSubmitted { reason }) => if reason is ServerDraining {
            res matches Err(SubmitError::Draining)
        } else {
            res matches Err(SubmitError::Rpc(error)) && error.is(
                INTERNAL_ERROR,
                "failed to submit turn input: "@ + reason_text(reason),
            )
        },
        Err(message) => res matches Err(SubmitError::Rpc(error)) && error.is(
            INTERNAL_ERROR,
            "failed to submit turn input: "@ + message@,
        ),
    }
}

/// The answer to a submitted turn.
pub fn turn_submission(outcome: Result<TurnInputSubmission, String>) -> (res: Result<
    StartedTurn,
    SubmitError,
>)
    ensures
        is_submitted(outcome, res),
{
    match outcome {
        Ok(TurnInputSubmission::Started { turn_id }) => Ok(StartedTurn { turn_id, started: true }),
        Ok(TurnInputSubmission::Steered { turn_id }) => Ok(StartedTurn { turn_id, started: false }),
        Ok(TurnInputSubmission::NotSubmitted { reason }) => {
            match reason {
                NotSubmittedReason::ServerDraining => Err(SubmitError::Draining),
                _ => Err(
                    SubmitError::Rpc(
                        internal_error(
                            plus("failed to submit turn input: ", reason.text().as_str()).as_str(),
                        ),
                    ),
                ),
            }
        },
        Err(message) => Err(
            SubmitError::Rpc(
                internal_error(plus("failed to submit turn input: ", message.as_str()).as_str()),
            ),
        ),
    }
}

/// Whether memories are refreshed with a turn.
pub open spec fn refreshes_memories(
    has_input: bool,
    started: bool,
    environment_configured: bool,
) -> bool {
    has_input && started && environment_configured
}

/// Whether a started turn also starts the task that refreshes memories: not for a tool's output, not
/// for a turn that was running, and not before the environment is set up.
pub fn starts_memories(
    has_input: bool,
    turn: &StartedTurn,
    environment_configured: bool,
) -> (res: bool)
    ensures
        res == refreshes_memories(has_input, turn.started, environment_configured),
{
    has_input && turn.started && environment_configured
}

/// How a failed request is counted.
#[derive(Clone, Copy, Debug, PartialEq, Eq, Structural)]
pub enum SteerErrorKind {
    NoActiveTurn,
    ExpectedTurnMismatch,
    NonSteerableReview,
    NonSteerableCompact,
    EmptyInput,
    Uncounted,
}

/// What a client is told of an input that a running turn did not take.
pub open spec fn steer_message(reason: NotSubmittedReason) -> Seq<char> {
    match reason {
        NotSubmittedReason::ExpectedTurnMismatch { expected, actual } => {
            "expected active turn id `"@ + expected@ + "` but found `"@ + actual@ + "`"@
        },
        NotSubmittedReason::ActiveTurnNotSteerable { turn_kind } => match turn_kind {
            NonSteerableTurnKind::Review => "cannot steer a review turn"@,
            NonSteerableTurnKind::Compact => "cannot steer a compact turn"@,
        },
        NotSubmittedReason::EmptyInput => "input must not be empty"@,
        NotSubmittedReason::ActiveTurnOutputSchemaMismatch => {
            "active turn uses a different output schema"@
        },
        _ => "no active turn to steer"@,
    }
}

pub open spec fn steer_data(reason: NotSubmittedReason) -> Option<ErrorData> {
    match reason {
        NotSubmittedReason::ActiveTurnNotSteerable { turn_kind } => Some(
            ErrorData::ActiveTurnNotSteerable(turn_kind),
        ),
        _ => None,
    }
}

pub open spec fn steer_kind(reason: NotSubmittedReason) -> SteerErrorKind {
    match reason {
        NotSubmittedReason::ExpectedTurnMismatch { .. } => SteerErrorKind::ExpectedTurnMismatch,
        NotSubmittedReason::ActiveTurnNotSteerable { turn_kind } => match turn_kind {
            NonSteerableTurnKind::Review => SteerErrorKind::NonSteerableReview,
            NonSteerableTurnKind::Compact => SteerErrorKind::NonSteerableCompact,
        },
        NotSubmittedReason::EmptyInput => SteerErrorKind::EmptyInput,
        NotSubmittedReason::ActiveTurnOutputSchemaMismatch => SteerErrorKind::Uncounted,
        _ => SteerErrorKind::NoActiveTurn,
    }
}

/// Why a steering request failed.
#[derive(Debug)]
pub enum SteerError {
    /// The server is shutting down.
    Draining,
    Rejected { error: RpcError, kind: SteerErrorKind },
}

fn describe_steer_refusal(reason: &NotSubmittedReason) -> (res: (String, SteerErrorKind))
    ensures
        res.0@ == steer_message(*reason),
        res.1 == steer_kind(*reason),
{
    match reason {
        NotSubmittedReason::ExpectedTurnMismatch { expected, actual } => {
            let mut message = plus3(
                "expected active turn id `",
                expected.as_str(),
                "` but found `",
            );
            message.append(actual.as_str());
            message.append("`");
            (message, SteerErrorKind::ExpectedTurnMismatch)
        },
        NotSubmittedReason::ActiveTurnNotSteerable { turn_kind } => match turn_kind {
            NonSteerableTurnKind::Review => (
                "cannot steer a review turn".to_owned(),
                SteerErrorKind::NonSteerableReview,
            ),
            NonSteerableTurnKind::Compact => (
                "cannot steer a compact turn".to_owned(),
                SteerErrorKind::NonSteerableCompact,
            ),
        },
        NotSubmittedReason::EmptyInput => (
            "input must not be empty".to_owned(),
            SteerErrorKind::EmptyInput,
        ),
        NotSubmittedReason::ActiveTurnOutputSchemaMismatch => (
            "active turn uses a different output schema".to_owned(),
            SteerErrorKind::Uncounted,
        ),
        _ => ("no active turn to steer".to_owned(), SteerErrorKind::NoActiveTurn),
    }
}

/// Whether a steering request is accepted or rejected so.
pub open spec fn is_steer_checked(
    expected_turn_id: Seq<char>,
    input: Seq<UserInput>,
    limit: usize,
    res: Result<(), RpcError>,
) -> bool {
    if expected_turn_id.len() == 0 {
        res matches Err(error) && error.is(INVALID_REQUEST, "expectedTurnId must not be empty"@)
    } else {
        &&& res is Ok <==> input_chars(input) <= limit
        &&& res matches Err(error) ==> is_too_large(error, limit, input_chars(input))
    }
}

/// Checks a steering request before it is submitted.
pub fn check_steer_request(expected_turn_id: &str, input: &Vec<UserInput>, limit: usize) -> (res:
    Result<(), RpcError>)
    requires
        input_chars(input@) <= usize::MAX,
    ensures
        is_steer_checked(expected_turn_id@, input@, limit, res),
{
    if expected_turn_id.is_empty() {
        return Err(invalid_request("expectedTurnId must not be empty"));
    }
    validate_v2_input_limit(input, limit)
}

/// Whether a steering request that came to this is answered so.
pub open spec fn is_steered(
    outcome: Result<SteerSubmission, String>,
    res: Result<String, SteerError>,
) -> bool {
    match outcome {
        Ok(SteerSubmission::Steered { turn_id }) => res matches Ok(id) && id@ == turn_id@,
        Ok(SteerSubmission::NotSubmitted { reason }) => if reason is ServerDraining {
            res matches Err(SteerError::Draining)
        } else {
            res matches Err(SteerError::Rejected { error, kind }) && error.code == INVALID_REQUEST
                && error.message@ == steer_message(reason) && error.data == steer_data(reason)
                && kind == steer_kind(reason)
        },
        Err(message) => res matches Err(SteerError::Rejected { error, kind }) && error.is(
            INTERNAL_ERROR,
            "failed to steer turn: "@ + message@,
        ) && kind is Uncounted,
    }
}

/// The answer to a steering request: the turn that took it, or why none did.
pub fn steer_submission(outcome: Result<SteerSubmission, String>) -> (res: Result<
    String,
    SteerError,
>)
    ensures
        is_steered(outcome, res),
{
    match outcome {
        Ok(SteerSubmission::Steered { turn_id }) => Ok(turn_id),
        Ok(SteerSubmission::NotSubmitted { reason }) => {
            let data = match &reason {
                NotSubmittedReason::ServerDraining => {
                    return Err(SteerError::Draining);
                },
                NotSubmittedReason::ActiveTurnNotSteerable { turn_kind } => Some(
                    ErrorData::ActiveTurnNotSteerable(*turn_kind),
                ),
                _ => None,
            };
            let (message, kind) = describe_steer_refusal(&reason);
            let mut error = invalid_request(message.as_str());
            error.data = data;
            Err(SteerError::Rejected { error, kind })
        },
        Err(message) => Err(
            SteerError::Rejected {
                error: internal_error(plus("failed to steer turn: ", message.as_str()).as_str()),
                kind: SteerErrorKind::Uncounted,
            },
        ),
    }
}

/// A request of a connection.
#[derive(Clone, Copy, Debug, PartialEq, Eq, Structural)]
pub struct RequestKey {
    pub connection_id: u64,
    pub request_id: u64,
}

/// What is known of a thread's turns.
#[derive(Debug)]
pub struct TurnState {
    pub active_turn: Option<String>,
    pub last_terminal_turn: Option<String>,
    pub is_running: bool,
    /// The requests that are answered once the turn is aborted.
    pub pending_interrupts: Vec<RequestKey>,
}

/// Why a turn cannot be interrupted. Without a turn, it is the start-up that is interrupted.
pub open spec fn interrupt_refusal(turn_id: Seq<char>, state: TurnState) -> Option<Seq<char>> {
    if turn_id.len() == 0 {
        None
    } else {
        match option_text(state.active_turn) {
            Some(active) => if active != turn_id {
                Some("expected active turn id "@ + turn_id + " but found "@ + active)
            } else {
                None
            },
            None => if option_text(state.last_terminal_turn) == Some(turn_id)
                || !state.is_running {
                Some("no active turn to interrupt"@)
            } else {
                None
            },
        }
    }
}

/// Whether two states of a thread's turns are the same but for the requests that wait.
pub open spec fn same_turns(a: TurnState, b: TurnState) -> bool {
    &&& a.active_turn == b.active_turn
    &&& a.last_terminal_turn == b.last_terminal_turn
    &&& a.is_running == b.is_running
}

/// Whether the interruption of a turn was recorded, where it is allowed.
pub open spec fn is_interrupt_begun(
    before: TurnState,
    turn_id: Seq<char>,
    request: RequestKey,
    allowed: bool,
    after: TurnState,
) -> bool {
    &&& same_turns(after, before)
    &&& after.pending_interrupts@ == if allowed && turn_id.len() > 0 {
        before.pending_interrupts@.push(request)
    } else {
        before.pending_interrupts@
    }
}

/// Records the interruption of a turn, so that it is answered once the turn is aborted.
pub fn begin_interrupt(state: &mut TurnState, turn_id: &str, request: RequestKey) -> (res: Result<
    (),
    RpcError,
>)
    ensures
        refused_by(res, interrupt_refusal(turn_id@, *old(state))),
        is_interrupt_begun(*old(state), turn_id@, request, res is Ok, *final(state)),
{
    if turn_id.is_empty() {
        return Ok(());
    }
    match &state.active_turn {
        Some(active) => {
            if !same(active.as_str(), turn_id) {
                let mut message = plus3("expected active turn id ", turn_id, " but found ");
                message.append(active.as_str());
                return Err(invalid_request(message.as_str()));
            }
        },
        None => {
            if is_text(&state.last_terminal_turn, turn_id) || !state.is_running {
                return Err(invalid_request("no active turn to interrupt"));
            }
        },
    }
    state.pending_interrupts.push(request);
    Ok(())
}

/// The requests without one of them.
pub open spec fn without(requests: Seq<RequestKey>, request: RequestKey) -> Seq<RequestKey>
    decreases requests.len(),
{
    if requests.len() == 0 {
        Seq::empty()
    } else if requests.last() == request {
        without(requests.drop_last(), request)
    } else {
        without(requests.drop_last(), request).push(requests.last())
    }
}

/// A recorded interruption that is withdrawn leaves nothing behind.
pub proof fn withdrawn_interrupt_leaves_nothing(requests: Seq<RequestKey>, request: RequestKey)
    ensures
        without(requests.push(request), request) == without(requests, request),
        !without(requests, request).contains(request),
    decreases requests.len(),
{
    assert(requests.push(request).drop_last() =~= requests);
    if requests.len() > 0 {
        withdrawn_interrupt_leaves_nothing(requests.drop_last(), request);
    }
}

fn withdraw(requests: &Vec<RequestKey>, request: RequestKey) -> (res: Vec<RequestKey>)
    ensures
        res@ == without(requests@, request),
{
    let mut out: Vec<RequestKey> = Vec::new();
    let mut i: usize = 0;
    assert(out@ =~= without(requests@.take(0), request));
    while i < requests.len()
        invariant
            i <= requests@.len(),
            out@ == without(requests@.take(i as int), request),
        decreases requests@.len() - i,
    {
        assert(requests@.take(i + 1).drop_last() =~= requests@.take(i as int));
        if requests[i] != request {
            out.push(requests[i]);
        }
        i = i + 1;
    }
    assert(requests@.take(requests@.len() as int) =~= requests@);
    out
}

/// Whether the submission of an interrupt ended so.
pub open spec fn is_interrupt_finished(
    before: TurnState,
    turn_id: Seq<char>,
    request: RequestKey,
    outcome: Result<(), String>,
    res: Result<bool, RpcError>,
    after: TurnState,
) -> bool {
    &&& match outcome {
        Ok(_) => res matches Ok(now) && now == (turn_id.len() == 0),
        Err(message) => res matches Err(error) && error.is(
            INTERNAL_ERROR,
            "failed to interrupt "@ + (if turn_id.len() == 0 {
                "startup"@
            } else {
                "turn"@
            }) + ": "@ + message@,
        ),
    }
    &&& same_turns(after, before)
    &&& after.pending_interrupts@ == if outcome is Err && turn_id.len() > 0 {
        without(before.pending_interrupts@, request)
    } else {
        before.pending_interrupts@
    }
}

/// Ends the submission of an interrupt: the start-up is answered at once, a turn once it is aborted,
/// and a failure takes the recorded request back. The result tells whether to answer now.
pub fn finish_interrupt(
    state: &mut TurnState,
    turn_id: &str,
    request: RequestKey,
    outcome: Result<(), String>,
) -> (res: Result<bool, RpcError>)
    ensures
        is_interrupt_finished(*old(state), turn_id@, request, outcome, res, *final(state)),
{
    let startup = turn_id.is_empty();
    match outcome {
        Ok(_) => Ok(startup),
        Err(message) => {
            let target = if startup {
                "startup"
            } else {
                state.pending_interrupts = withdraw(&state.pending_interrupts, request);
                "turn"
            };
            let mut text = plus3("failed to interrupt ", target, ": ");
            text.append(message.as_str());
            Err(internal_error(text.as_str()))
        },
    }
}

/// How an update of a turn's settings went.
#[derive(Debug)]
pub enum TurnSettingsUpdateOutcome {
    Applied,
    TargetUnavailable,
    Rejected { reason: String },
}

#[derive(Clone, Copy, Debug, PartialEq, Eq, Structural)]
pub enum TurnSettingsUpdateStatus {
    Applied,
    TargetUnavailable,
}

/// Whether an update of a turn's settings that went so is answered so.
pub open spec fn is_settings_answer(
    outcome: Option<TurnSettingsUpdateOutcome>,
    res: Result<TurnSettingsUpdateStatus, RpcError>,
) -> bool {
    match outcome {
        Some(TurnSettingsUpdateOutcome::Applied) => res == Ok::<TurnSettingsUpdateStatus, RpcError>(
            TurnSettingsUpdateStatus::Applied,
        ),
        Some(TurnSettingsUpdateOutcome::TargetUnavailable) => res == Ok::<
            TurnSettingsUpdateStatus,
            RpcError,
        >(TurnSettingsUpdateStatus::TargetUnavailable),
        Some(TurnSettingsUpdateOutcome::Rejected { reason }) => res matches Err(error) && error.is(
            INVALID_REQUEST,
            reason@,
        ),
        None => res matches Err(error) && error.is(
            INTERNAL_ERROR,
            "turn settings operation ended before replying"@,
        ),
    }
}

/// The answer to an update of a turn's settings; without an outcome, the turn ended first.
pub fn turn_settings_status(outcome: Option<TurnSettingsUpdateOutcome>) -> (res: Result<
    TurnSettingsUpdateStatus,
    RpcError,
>)
    ensures
        is_settings_answer(outcome, res),
{
    match outcome {
        Some(TurnSettingsUpdateOutcome::Applied) => Ok(TurnSettingsUpdateStatus::Applied),
        Some(TurnSettingsUpdateOutcome::TargetUnavailable) => Ok(
            TurnSettingsUpdateStatus::TargetUnavailable,
        ),
        Some(TurnSettingsUpdateOutcome::Rejected { reason }) => Err(
            invalid_request(reason.as_str()),
        ),
        None => Err(internal_error("turn settings operation ended before replying")),
    }
}

/// Whether injected items could all be read; the first that could not is named by its position.
pub fn check_injected_items(parsed: &Vec<Result<(), String>>) -> (res: Result<(), RpcError>)
    ensures
        res is Ok <==> forall|i: int| 0 <= i < parsed@.len() ==> #[trigger] parsed@[i] is Ok,
        res matches Err(error) ==> exists|i: int|
            #![trigger parsed@[i]]
            0 <= i < parsed@.len() && parsed@[i] is Err && (forall|j: int|
                0 <= j < i ==> #[trigger] parsed@[j] is Ok) && error.is(
                INVALID_REQUEST,
                "items["@ + decimal(i as nat) + "] is not a valid response item: "@
                    + parsed@[i]->Err_0@,
            ),
{
    let mut i: usize = 0;
    while i < parsed.len()
        invariant
            i <= parsed@.len(),
            forall|j: int| 0 <= j < i ==> #[trigger] parsed@[j] is Ok,
        decreases parsed@.len() - i,
    {
        match &parsed[i] {
            Ok(_) => {},
            Err(message) => {
                let mut text = plus3(
                    "items[",
                    number(i as u64).as_str(),
                    "] is not a valid response item: ",
                );
                text.append(message.as_str());
                assert(parsed@[i as int] is Err);
                return Err(invalid_request(text.as_str()));
            },
        }
        i = i + 1;
    }
    Ok(())
}

/// An image from elsewhere is rejected wherever it stands in an input, a message or a tool's output;
/// images that lead nowhere else are not.
pub proof fn no_image_from_elsewhere_passes(
    input: Seq<UserInput>,
    items: Seq<ResponseItem>,
    message: Seq<char>,
    i: int,
    k: int,
)
    ensures
        0 <= i < input.len() && input[i] is InlineImage && input[i]->InlineImage_remote
            ==> input_image_refusal(input, message) == Some(message),
        (forall|j: int|
            0 <= j < input.len() ==> ((#[trigger] input[j]) is InlineImage
                ==> !input[j]->InlineImage_remote)) ==> input_image_refusal(input, message) is None,
        0 <= i < items.len() && (items[i] matches ResponseItem::Message(parts) && 0 <= k
            < parts@.len() && parts@[k] is InlineImage && parts@[k]->InlineImage_remote)
            ==> item_image_refusal(items, message) == Some(message),
        0 <= i < items.len() && (items[i] matches ResponseItem::ToolOutput(Some(parts)) && 0 <= k
            < parts@.len() && parts@[k] is InlineImage && parts@[k]->InlineImage_remote)
            ==> item_image_refusal(items, message) == Some(message),
        (forall|j: int| 0 <= j < items.len() ==> (#[trigger] items[j]) is Other)
            ==> item_image_refusal(items, message) is None,
{
    if 0 <= i < input.len() && input[i] is InlineImage && input[i]->InlineImage_remote {
        assert(is_remote_input(input[i]));
    }
    if 0 <= i < items.len() {
        match items[i] {
            ResponseItem::Message(parts) => {
                if 0 <= k < parts@.len() && parts@[k] is InlineImage
                    && parts@[k]->InlineImage_remote {
                    assert(is_remote_part(parts@[k]));
                    assert(item_has_remote_image(items[i]));
                }
            },
            ResponseItem::ToolOutput(Some(parts)) => {
                if 0 <= k < parts@.len() && parts@[k] is InlineImage
                    && parts@[k]->InlineImage_remote {
                    assert(is_remote_part(parts@[k]));
                    assert(item_has_remote_image(items[i]));
                }
            },
            _ => {},
        }
    }
}

/// The length of an input is that of its texts, each counted once; images and other parts do not
/// count.
pub proof fn only_texts_count(input: Seq<UserInput>, last: UserInput)
    ensures
        input_chars(Seq::empty()) == 0,
        input_chars(input.push(last)) == input_chars(input) + if last is Text {
            last->Text_0@.len()
        } else {
            0
        },
{
    assert(input.push(last).drop_last() =~= input);
}

/// So is the length of the parts of a tool's output.
pub proof fn only_text_parts_count(parts: Seq<ContentPart>, last: ContentPart)
    ensures
        part_chars(Seq::empty()) == 0,
        part_chars(parts.push(last)) == part_chars(parts) + if last is Text {
            last->Text_0@.len()
        } else {
            0
        },
{
    assert(parts.push(last).drop_last() =~= parts);
}

/// An input is accepted exactly where it is not too long, the output of a tool stands alone, and it
/// has a name. One that is too long is told its own length and the limit.
pub proof fn input_is_accepted_within_its_limit(
    input: Seq<UserInput>,
    tool_output: Option<ToolOutput>,
    limit: usize,
    res: Result<(), RpcError>,
)
    requires
        is_input_checked(input, tool_output, limit, res),
        input_chars(input) + tool_output_chars(tool_output) <= usize::MAX,
    ensures
        ({
            let more = match tool_output {
                Some(ToolOutput { output: ToolOutputBody::Text(text), .. }) => text@.len(),
                Some(ToolOutput { output: ToolOutputBody::Parts(parts), .. }) => part_chars(parts@),
                None => 0,
            };
            let actual = input_chars(input) + more;
            let stands_alone = tool_output is Some ==> input.len() == 0
                && tool_output->Some_0.name@.len() > 0;
            &&& res is Ok <==> stands_alone && actual <= limit
            &&& stands_alone && actual > limit ==> res->Err_0.code == INVALID_PARAMS
                && res->Err_0.data == Some(
                ErrorData::InputTooLarge { max_chars: limit, actual_chars: actual as usize },
            )
            &&& !stands_alone ==> res->Err_0.code == INVALID_REQUEST
        }),
{
}

/// A turn that took an input is always told, and whether the input started it. A server that shuts
/// down is told from any other failure.
pub proof fn submission_is_told(
    outcome: Result<TurnInputSubmission, String>,
    res: Result<StartedTurn, SubmitError>,
)
    requires
        is_submitted(outcome, res),
    ensures
        res is Ok <==> outcome is Ok && !(outcome->Ok_0 is NotSubmitted),
        outcome is Ok && outcome->Ok_0 is Started ==> res->Ok_0.started && res->Ok_0.turn_id@
            == outcome->Ok_0->Started_turn_id@,
        outcome is Ok && outcome->Ok_0 is Steered ==> !res->Ok_0.started && res->Ok_0.turn_id@
            == outcome->Ok_0->Steered_turn_id@,
        res is Err ==> (res->Err_0 is Draining <==> outcome is Ok && outcome->Ok_0->reason
            is ServerDraining),
{
}

/// Memories are refreshed only with a turn that a user's input started in an environment that is set
/// up; each of these is needed.
pub proof fn memories_need_a_started_turn(
    has_input: bool,
    started: bool,
    environment_configured: bool,
)
    ensures
        !has_input || !started || !environment_configured <==> !refreshes_memories(
            has_input,
            started,
            environment_configured,
        ),
{
}

/// A client that steers is told why the running turn did not take its input: another turn than the
/// expected one runs, which both are named, the turn cannot be steered, and of which kind it is, the
/// input is empty, the turn has another schema, or there is none.
pub proof fn steering_is_answered_with_the_reason(
    outcome: Result<SteerSubmission, String>,
    res: Result<String, SteerError>,
)
    requires
        is_steered(outcome, res),
    ensures
        res is Ok <==> outcome is Ok && outcome->Ok_0 is Steered,
        res matches Ok(id) ==> id@ == outcome->Ok_0->turn_id@,
        outcome is Ok && outcome->Ok_0 is NotSubmitted ==> {
            let reason = outcome->Ok_0->reason;
            let error = res->Err_0->error;
            let kind = res->Err_0->kind;
            &&& res->Err_0 is Draining <==> reason is ServerDraining
            &&& reason matches NotSubmittedReason::ExpectedTurnMismatch { expected, actual }
                ==> error.message@ == "expected active turn id `"@ + expected@ + "` but found `"@
                + actual@ + "`"@ && kind is ExpectedTurnMismatch
            &&& reason matches NotSubmittedReason::ActiveTurnNotSteerable { turn_kind } ==> {
                &&& error.data == Some(ErrorData::ActiveTurnNotSteerable(turn_kind))
                &&& turn_kind is Review ==> kind is NonSteerableReview && error.message@
                    == "cannot steer a review turn"@
                &&& turn_kind is Compact ==> kind is NonSteerableCompact && error.message@
                    == "cannot steer a compact turn"@
            }
            &&& !(reason is ServerDraining) && !(reason is ActiveTurnNotSteerable) ==> error.data
                is None
            &&& reason is EmptyInput ==> kind is EmptyInput
            &&& reason is ActiveTurnOutputSchemaMismatch ==> kind is Uncounted
            &&& reason is NoActiveTurn || reason is NotIdle || reason is PendingTriggerTurn
                || reason is PlanMode ==> kind is NoActiveTurn && error.message@
                == "no active turn to steer"@
        },
{
}

/// A steering request names the turn that it expects, and its input is not too long.
pub proof fn steering_names_a_turn(
    expected_turn_id: Seq<char>,
    input: Seq<UserInput>,
    limit: usize,
    res: Result<(), RpcError>,
)
    requires
        is_steer_checked(expected_turn_id, input, limit, res),
    ensures
        res is Ok <==> expected_turn_id.len() > 0 && input_chars(input) <= limit,
{
}

/// A turn can be interrupted exactly while it is the active one, or while it may still become so: the
/// thread runs, no turn is active, and it did not end already. Without a turn it is the start-up that
/// is interrupted, which is always allowed.
pub proof fn only_the_active_turn_is_interrupted(turn_id: Seq<char>, state: TurnState)
    ensures
        interrupt_refusal(turn_id, state) is None <==> turn_id.len() == 0 || (if state.active_turn
            is Some {
            state.active_turn->Some_0@ == turn_id
        } else {
            state.is_running && !(state.last_terminal_turn is Some
                && state.last_terminal_turn->Some_0@ == turn_id)
        }),
{
}

/// An interruption is answered exactly once: at once for the start-up, and for a turn when it is
/// aborted, for which the request waits until then. One that could not be submitted is answered with
/// the failure and does not wait any more; requests of others wait on.
pub proof fn interruption_is_answered_once(
    before: TurnState,
    turn_id: Seq<char>,
    request: RequestKey,
    begun: TurnState,
    outcome: Result<(), String>,
    res: Result<bool, RpcError>,
    after: TurnState,
    other: RequestKey,
)
    requires
        is_interrupt_begun(before, turn_id, request, true, begun),
        is_interrupt_finished(begun, turn_id, request, outcome, res, after),
        !before.pending_interrupts@.contains(request),
        other != request,
    ensures
        res is Ok <==> outcome is Ok,
        res matches Ok(now) ==> (now <==> turn_id.len() == 0),
        after.pending_interrupts@.contains(request) <==> outcome is Ok && turn_id.len() > 0,
        after.pending_interrupts@.contains(other) <==> before.pending_interrupts@.contains(other),
        after.active_turn == before.active_turn,
        after.is_running == before.is_running,
{
    let list = before.pending_interrupts@;
    if turn_id.len() > 0 {
        assert(begun.pending_interrupts@ == list.push(request));
        assert(list.push(request).last() == request);
        if list.contains(other) {
            let i = choose|i: int| 0 <= i < list.len() && list[i] == other;
            assert(list.push(request)[i] == other);
        }
        if list.push(request).contains(other) {
            let i = choose|i: int| 0 <= i < list.len() + 1 && list.push(request)[i] == other;
            assert(list[i] == other);
        }
        if outcome is Err {
            without_keeps_others(list.push(request), request, other);
            withdrawn_interrupt_leaves_nothing(list.push(request), request);
        }
    }
}

proof fn without_keeps_others(requests: Seq<RequestKey>, request: RequestKey, other: RequestKey)
    requires
        other != request,
    ensures
        without(requests, request).contains(other) <==> requests.contains(other),
    decreases requests.len(),
{
    if requests.len() > 0 {
        let head = requests.drop_last();
        without_keeps_others(head, request, other);
        let kept = without(head, request);
        if requests.contains(other) {
            let i = choose|i: int| 0 <= i < requests.len() && requests[i] == other;
            if i < head.len() {
                assert(head[i] == other);
                let k = choose|k: int| 0 <= k < kept.len() && kept[k] == other;
                assert(kept.push(requests.last())[k] == other);
            } else {
                assert(kept.push(requests.last()).last() == other);
            }
        }
        if without(requests, request).contains(other) {
            let all = without(requests, request);
            let k = choose|k: int| 0 <= k < all.len() && all[k] == other;
            if k < kept.len() {
                assert(kept[k] == other);
                let i = choose|i: int| 0 <= i < head.len() && head[i] == other;
                assert(requests[i] == other);
            } else {
                assert(requests.last() == other);
            }
        }
    }
}

/// An update of a turn's settings is answered as it went: what was rejected is told with its reason,
/// and an update without an outcome is a failure.
pub proof fn settings_update_is_answered(
    outcome: Option<TurnSettingsUpdateOutcome>,
    res: Result<TurnSettingsUpdateStatus, RpcError>,
)
    requires
        is_settings_answer(outcome, res),
    ensures
        res is Ok <==> outcome is Some && !(outcome->Some_0 is Rejected),
        outcome is Some && outcome->Some_0 is Applied ==> res->Ok_0 is Applied,
        outcome is Some && outcome->Some_0 is TargetUnavailable ==> res->Ok_0 is TargetUnavailable,
        outcome is Some && outcome->Some_0 is Rejected ==> res->Err_0.message@
            == outcome->Some_0->reason@,
{
}

/// Elicitations are denied only for the one client and its one release line.
pub proof fn only_one_release_line_is_denied(
    client_name: Option<Seq<char>>,
    client_version: Option<Seq<char>>,
)
    ensures
        client_name is None || client_version is None ==> !denies_elicitations(
            client_name,
            client_version,
        ),
        denies_elicitations(client_name, client_version) ==> client_name->Some_0 == "Xcode"@
            && client_version->Some_0.len() >= 4 && client_version->Some_0.take(4) == "26.4"@,
        client_name == Some("Xcode"@) && client_version is Some && client_version->Some_0.len() >= 4
            && client_version->Some_0.take(4) == "26.4"@ ==> denies_elicitations(
            client_name,
            client_version,
        ),
{
    reveal_strlit("26.4");
}

} // verus!
