//! What a thread is handed for a turn.
use crate::error::{invalid_request, refused_by, RpcError};
use crate::registry::Registry;
use crate::settings::ThreadSettingsOverrides;
use crate::turn::{
    any_remote_part, has_remote_part, is_remote_part, ToolOutput, ToolOutputBody, UserInput,
};
use vstd::prelude::*;

verus! {

/// How far a text that goes with an input is trusted.
#[derive(Clone, Copy, Debug, PartialEq, Eq, Structural)]
pub enum ContextKind {
    Untrusted,
    Application,
}

/// A text that goes with an input.
#[derive(Debug)]
pub struct ContextEntry {
    pub value: String,
    pub kind: ContextKind,
}

/// What a request to start a turn asks to be submitted.
pub struct TurnStartParams {
    pub input: Vec<UserInput>,
    pub tool_output: Option<ToolOutput>,
    pub client_user_message_id: Option<String>,
    pub additional_context: Option<Registry<ContextEntry>>,
    pub turn_trigger: Option<String>,
    pub output_schema: Option<serde_json::Value>,
    /// The service tier of this turn alone.
    pub service_tier_for_turn: Option<String>,
    pub cyber_access_program: Option<String>,
    pub responsesapi_client_metadata: Option<Registry<String>>,
}

/// What a request to steer the running turn asks to be submitted.
pub struct TurnSteerParams {
    pub input: Vec<UserInput>,
    pub client_user_message_id: Option<String>,
    pub additional_context: Option<Registry<ContextEntry>>,
    pub responsesapi_client_metadata: Option<Registry<String>>,
    pub expected_turn_id: String,
}

/// The output of a tool as an item of a thread's history. It answers no call and does not say
/// whether the tool succeeded.
#[derive(Debug)]
pub struct ToolOutputItem {
    pub id: Option<String>,
    pub call_id: Option<String>,
    pub name: Option<String>,
    pub namespace: Option<String>,
    pub body: ToolOutputBody,
    pub success: Option<bool>,
}

/// The input of a turn.
#[derive(Debug)]
pub enum TurnInput {
    ResponseItem(ToolOutputItem),
    UserInput { content: Vec<UserInput>, client_id: Option<String> },
}

/// What counts only if the input starts a turn.
#[derive(Debug)]
pub struct TurnStartOptions {
    pub turn_trigger: Option<String>,
    pub final_output_json_schema: Option<serde_json::Value>,
    pub service_tier: Option<String>,
    pub cyber_access_program: Option<String>,
}

/// What a thread is handed.
pub struct TurnInputRequest {
    pub input: TurnInput,
    pub thread_settings: Option<ThreadSettingsOverrides>,
    pub on_start: Option<TurnStartOptions>,
    pub additional_context: Registry<ContextEntry>,
    pub responses_metadata: Option<Registry<String>>,
}

/// Whether these are the texts that go with an input: those of the request, or none.
pub open spec fn is_context(
    asked: Option<Registry<ContextEntry>>,
    context: Registry<ContextEntry>,
) -> bool {
    match asked {
        Some(entries) => context == entries,
        None => context.well_formed() && context.map() == Map::<Seq<char>, ContextEntry>::empty(),
    }
}

/// The texts that go with an input, by their names.
pub fn map_additional_context(additional_context: Option<Registry<ContextEntry>>) -> (res: Registry<
    ContextEntry,
>)
    ensures
        is_context(additional_context, res),
{
    match additional_context {
        Some(entries) => entries,
        None => Registry::new(),
    }
}

/// Why the output of a tool is rejected for its images.
pub open spec fn tool_image_refusal(
    tool_output: Option<ToolOutput>,
    message: Seq<char>,
) -> Option<Seq<char>> {
    match tool_output {
        Some(ToolOutput { name, namespace, output: ToolOutputBody::Parts(parts) }) => {
            if has_remote_part(parts@) {
                Some(message)
            } else {
                None
            }
        },
        _ => None,
    }
}

/// Rejects, with the given message, the output of a tool that shows an image from elsewhere.
pub fn check_tool_output_images(tool_output: &Option<ToolOutput>, message: &str) -> (res: Result<
    (),
    RpcError,
>)
    ensures
        refused_by(res, tool_image_refusal(*tool_output, message@)),
{
    match tool_output {
        Some(tool_output) => match &tool_output.output {
            ToolOutputBody::Parts(parts) => if any_remote_part(parts) {
                Err(invalid_request(message))
            } else {
                Ok(())
            },
            ToolOutputBody::Text(_) => Ok(()),
        },
        None => Ok(()),
    }
}

/// Whether this is the input of a turn: the output of a tool, where there is one, or what the user
/// sent, with the identity that the client gave it.
pub open spec fn is_turn_input(params: TurnStartParams, input: TurnInput) -> bool {
    match params.tool_output {
        Some(output) => input == TurnInput::ResponseItem(
            ToolOutputItem {
                id: None,
                call_id: None,
                name: Some(output.name),
                namespace: output.namespace,
                body: output.output,
                success: None,
            },
        ),
        None => input == (TurnInput::UserInput {
            content: params.input,
            client_id: params.client_user_message_id,
        }),
    }
}

/// Whether a thread is handed this to start a turn.
pub open spec fn is_start_request(
    params: TurnStartParams,
    thread_settings: ThreadSettingsOverrides,
    request: TurnInputRequest,
) -> bool {
    &&& is_turn_input(params, request.input)
    &&& request.thread_settings == Some(thread_settings)
    &&& request.on_start == Some(
        TurnStartOptions {
            turn_trigger: params.turn_trigger,
            final_output_json_schema: params.output_schema,
            service_tier: params.service_tier_for_turn,
            cyber_access_program: params.cyber_access_program,
        },
    )
    &&& is_context(params.additional_context, request.additional_context)
    &&& request.responses_metadata == params.responsesapi_client_metadata
}

/// Forms what a thread is handed to start a turn, or to steer the one that runs.
pub fn turn_start_request(params: TurnStartParams, thread_settings: ThreadSettingsOverrides) -> (res:
    TurnInputRequest)
    ensures
        is_start_request(params, thread_settings, res),
{
    let input = match params.tool_output {
        Some(output) => TurnInput::ResponseItem(
            ToolOutputItem {
                id: None,
                call_id: None,
                name: Some(output.name),
                namespace: output.namespace,
                body: output.output,
                success: None,
            },
        ),
        None => TurnInput::UserInput {
            content: params.input,
            client_id: params.client_user_message_id,
        },
    };
    TurnInputRequest {
        input,
        thread_settings: Some(thread_settings),
        on_start: Some(
            TurnStartOptions {
                turn_trigger: params.turn_trigger,
                final_output_json_schema: params.output_schema,
                service_tier: params.service_tier_for_turn,
                cyber_access_program: params.cyber_access_program,
            },
        ),
        additional_context: map_additional_context(params.additional_context),
        responses_metadata: params.responsesapi_client_metadata,
    }
}

/// Whether a thread is handed this to steer the turn that is expected to run.
pub open spec fn is_steer_request(
    params: TurnSteerParams,
    request: TurnInputRequest,
    expected: String,
) -> bool {
    &&& request.input == (TurnInput::UserInput {
        content: params.input,
        client_id: params.client_user_message_id,
    })
    &&& request.thread_settings is None
    &&& request.on_start is None
    &&& is_context(params.additional_context, request.additional_context)
    &&& request.responses_metadata == params.responsesapi_client_metadata
    &&& expected == params.expected_turn_id
}

/// Forms what a thread is handed to steer the running turn, and names the turn that is expected to
/// run. Neither settings nor options of a start go with it.
pub fn turn_steer_request(params: TurnSteerParams) -> (res: (TurnInputRequest, String))
    ensures
        is_steer_request(params, res.0, res.1),
{
    (
        TurnInputRequest {
            input: TurnInput::UserInput {
                content: params.input,
                client_id: params.client_user_message_id,
            },
            thread_settings: None,
            on_start: None,
            additional_context: map_additional_context(params.additional_context),
            responses_metadata: params.responsesapi_client_metadata,
        },
        params.expected_turn_id,
    )
}

/// What a user sends is what the thread is handed, with the identity that the client gave it; the
/// output of a tool takes its place, under its name, and answers no call. What counts for the start
/// alone, the settings, the texts and the metadata go with it.
pub proof fn input_reaches_the_thread(
    params: TurnStartParams,
    settings: ThreadSettingsOverrides,
    request: TurnInputRequest,
)
    requires
        is_start_request(params, settings, request),
    ensures
        request.input is UserInput <==> params.tool_output is None,
        request.input matches TurnInput::UserInput { content, client_id } ==> content
            == params.input && client_id == params.client_user_message_id,
        request.input matches TurnInput::ResponseItem(item) ==> {
            let output = params.tool_output->Some_0;
            &&& item.name == Some(output.name)
            &&& item.namespace == output.namespace
            &&& item.body == output.output
            &&& item.call_id is None
            &&& item.id is None
            &&& item.success is None
        },
        request.thread_settings == Some(settings),
        request.on_start is Some,
        request.on_start->Some_0.turn_trigger == params.turn_trigger,
        request.on_start->Some_0.final_output_json_schema == params.output_schema,
        request.on_start->Some_0.service_tier == params.service_tier_for_turn,
        request.on_start->Some_0.cyber_access_program == params.cyber_access_program,
        request.responses_metadata == params.responsesapi_client_metadata,
        params.additional_context matches Some(context) ==> request.additional_context == context,
        params.additional_context is None ==> forall|key: Seq<char>|
            !#[trigger] request.additional_context.map().dom().contains(key),
{
}

/// Steering hands the input on as it is, for the turn that was named, and touches neither the settings
/// nor what a start would set.
pub proof fn steering_hands_on_the_input_alone(
    params: TurnSteerParams,
    request: TurnInputRequest,
    expected: String,
)
    requires
        is_steer_request(params, request, expected),
    ensures
        request.input matches TurnInput::UserInput { content, client_id } && content == params.input
            && client_id == params.client_user_message_id,
        request.thread_settings is None,
        request.on_start is None,
        request.responses_metadata == params.responsesapi_client_metadata,
        expected == params.expected_turn_id,
        params.additional_context matches Some(context) ==> request.additional_context == context,
{
}

/// The output of a tool is rejected exactly where one of its parts shows an image from elsewhere.
pub proof fn tool_output_shows_nothing_from_elsewhere(
    tool_output: Option<ToolOutput>,
    message: Seq<char>,
    i: int,
)
    ensures
        tool_output is None || tool_output->Some_0.output is Text ==> tool_image_refusal(
            tool_output,
            message,
        ) is None,
        tool_output is Some && (tool_output->Some_0.output matches ToolOutputBody::Parts(parts) && 0
            <= i < parts@.len() && is_remote_part(parts@[i])) ==> tool_image_refusal(
            tool_output,
            message,
        ) == Some(message),
        tool_output is Some && (tool_output->Some_0.output matches ToolOutputBody::Parts(parts)
            && forall|j: int| 0 <= j < parts@.len() ==> !is_remote_part(#[trigger] parts@[j]))
            ==> tool_image_refusal(tool_output, message) is None,
{
}

/// The texts that go with an input are those of the request: each under its key, and none where it has
/// none.
pub proof fn context_is_that_of_the_request(
    asked: Option<Registry<ContextEntry>>,
    context: Registry<ContextEntry>,
    key: Seq<char>,
)
    requires
        is_context(asked, context),
    ensures
        asked is None ==> !context.map().dom().contains(key),
        asked matches Some(entries) ==> (context.map().dom().contains(key)
            <==> entries.map().dom().contains(key)),
        asked matches Some(entries) ==> context.map()[key] == entries.map()[key],
{
}

} // verus!
