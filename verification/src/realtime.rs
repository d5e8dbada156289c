//! Realtime conversations of a thread.
use crate::error::{internal_error, invalid_request, refused_by, RpcError, INTERNAL_ERROR};
use crate::text::plus;
use vstd::prelude::*;
use vstd::string::*;

verus! {

/// How a realtime conversation is carried.
#[derive(Debug)]
pub enum RealtimeTransport {
    Websocket,
    Webrtc { sdp: String },
    ExistingCall { call_id: String },
}

/// How the responses of the model are handed over.
#[derive(Debug)]
pub enum HandoffMode {
    /// As it is done where nothing is asked for.
    Default,
    /// As the request names it.
    Named(String),
}

/// A text with which a conversation starts.
#[derive(Debug)]
pub struct ConversationText {
    pub text: String,
    pub role: String,
}

/// A request for a realtime conversation.
#[derive(Debug)]
pub struct ThreadRealtimeStartParams {
    pub client_managed_handoffs: Option<bool>,
    pub delegation_ack_filler: Option<String>,
    pub flush_transcript_tail_on_session_end: Option<bool>,
    pub codex_responses_as_items: Option<bool>,
    pub codex_response_item_prefix: Option<String>,
    pub codex_response_handoff_mode: Option<HandoffMode>,
    pub codex_response_handoff_channel_prefixes: Option<Vec<String>>,
    pub model: Option<String>,
    pub output_modality: Option<String>,
    pub include_startup_context: Option<bool>,
    pub initial_items: Option<Vec<ConversationText>>,
    pub realtime_start_instructions: Option<String>,
    pub realtime_end_instructions: Option<String>,
    pub prompt: Option<String>,
    pub realtime_session_id: Option<String>,
    pub transport: Option<RealtimeTransport>,
    pub version: Option<String>,
    pub voice: Option<String>,
}

/// The conversation that is started.
#[derive(Debug)]
pub struct ConversationStart {
    pub client_managed_handoffs: bool,
    pub delegation_ack_filler: Option<String>,
    pub flush_transcript_tail_on_session_end: bool,
    pub codex_responses_as_items: bool,
    pub codex_response_item_prefix: Option<String>,
    pub codex_response_handoff_mode: HandoffMode,
    pub codex_response_handoff_channel_prefixes: Option<Vec<String>>,
    pub model: Option<String>,
    pub output_modality: Option<String>,
    pub include_startup_context: bool,
    pub initial_items: Vec<ConversationText>,
    pub realtime_start_instructions: Option<String>,
    pub realtime_end_instructions: Option<String>,
    pub prompt: Option<String>,
    pub realtime_session_id: Option<String>,
    pub transport: Option<RealtimeTransport>,
    pub version: Option<String>,
    pub voice: Option<String>,
}

/// Whether a request attaches to a call that exists already.
pub open spec fn attaches(params: ThreadRealtimeStartParams) -> bool {
    params.transport matches Some(transport) && transport is ExistingCall
}

/// The first option of a request that an existing call does not support.
pub open spec fn unsupported_option(params: ThreadRealtimeStartParams) -> Option<Seq<char>> {
    if params.include_startup_context == Some(true) {
        Some("includeStartupContext"@)
    } else if params.prompt is Some {
        Some("prompt"@)
    } else if params.initial_items matches Some(items) && items@.len() > 0 {
        Some("initialItems"@)
    } else if params.model is Some {
        Some("model"@)
    } else if params.voice is Some {
        Some("voice"@)
    } else if params.delegation_ack_filler is Some {
        Some("delegationAckFiller"@)
    } else {
        None
    }
}

/// Why a realtime conversation is not started.
pub open spec fn realtime_refusal(params: ThreadRealtimeStartParams) -> Option<Seq<char>> {
    if attaches(params) {
        match unsupported_option(params) {
            Some(option) => Some("existingCall transport does not support "@ + option),
            None => None,
        }
    } else {
        None
    }
}

fn or_false(value: Option<bool>) -> (res: bool)
    ensures
        res == (value == Some(true)),
{
    match value {
        Some(value) => value,
        None => false,
    }
}

/// Whether a request starts this conversation.
pub open spec fn is_conversation(
    params: ThreadRealtimeStartParams,
    start: ConversationStart,
) -> bool {
    &&& start.client_managed_handoffs == (params.client_managed_handoffs == Some(true))
    &&& start.delegation_ack_filler == params.delegation_ack_filler
    &&& start.flush_transcript_tail_on_session_end == (
    params.flush_transcript_tail_on_session_end == Some(true))
    &&& start.codex_responses_as_items == (params.codex_responses_as_items == Some(true))
    &&& start.codex_response_item_prefix == params.codex_response_item_prefix
    &&& start.codex_response_handoff_mode == match params.codex_response_handoff_mode {
        Some(mode) => mode,
        None => HandoffMode::Default,
    }
    &&& start.codex_response_handoff_channel_prefixes
        == params.codex_response_handoff_channel_prefixes
    &&& start.model == params.model
    &&& start.output_modality == params.output_modality
    &&& start.include_startup_context == match params.include_startup_context {
        Some(value) => value,
        None => !attaches(params),
    }
    &&& match params.initial_items {
        Some(items) => start.initial_items == items,
        None => start.initial_items@.len() == 0,
    }
    &&& start.realtime_start_instructions == params.realtime_start_instructions
    &&& start.realtime_end_instructions == params.realtime_end_instructions
    &&& start.prompt == params.prompt
    &&& start.realtime_session_id == params.realtime_session_id
    &&& start.transport == params.transport
    &&& start.version == params.version
    &&& start.voice == params.voice
}

/// Checks a request for a realtime conversation and fills in what it leaves open.
pub fn realtime_start(params: ThreadRealtimeStartParams) -> (res: Result<
    ConversationStart,
    RpcError,
>)
    ensures
        refused_by(res, realtime_refusal(params)),
        res matches Ok(start) ==> is_conversation(params, start),
{
    let attached = match &params.transport {
        Some(RealtimeTransport::ExistingCall { .. }) => true,
        _ => false,
    };
    if attached {
        let has_items = match &params.initial_items {
            Some(items) => items.len() > 0,
            None => false,
        };
        let option = if or_false(params.include_startup_context) {
            Some("includeStartupContext")
        } else if params.prompt.is_some() {
            Some("prompt")
        } else if has_items {
            Some("initialItems")
        } else if params.model.is_some() {
            Some("model")
        } else if params.voice.is_some() {
            Some("voice")
        } else if params.delegation_ack_filler.is_some() {
            Some("delegationAckFiller")
        } else {
            None
        };
        match option {
            Some(option) => {
                return Err(
                    invalid_request(
                        plus("existingCall transport does not support ", option).as_str(),
                    ),
                );
            },
            None => {},
        }
    }
    let include_startup_context = match params.include_startup_context {
        Some(value) => value,
        None => !attached,
    };
    let initial_items = match params.initial_items {
        Some(items) => items,
        None => Vec::new(),
    };
    let codex_response_handoff_mode = match params.codex_response_handoff_mode {
        Some(mode) => mode,
        None => HandoffMode::Default,
    };
    Ok(
        ConversationStart {
            client_managed_handoffs: or_false(params.client_managed_handoffs),
            delegation_ack_filler: params.delegation_ack_filler,
            flush_transcript_tail_on_session_end: or_false(
                params.flush_transcript_tail_on_session_end,
            ),
            codex_responses_as_items: or_false(params.codex_responses_as_items),
            codex_response_item_prefix: params.codex_response_item_prefix,
            codex_response_handoff_mode,
            codex_response_handoff_channel_prefixes: params.codex_response_handoff_channel_prefixes,
            model: params.model,
            output_modality: params.output_modality,
            include_startup_context,
            initial_items,
            realtime_start_instructions: params.realtime_start_instructions,
            realtime_end_instructions: params.realtime_end_instructions,
            prompt: params.prompt,
            realtime_session_id: params.realtime_session_id,
            transport: params.transport,
            version: params.version,
            voice: params.voice,
        },
    )
}

/// What is done with a realtime conversation.
#[derive(Clone, Copy, Debug, PartialEq, Eq, Structural)]
pub enum RealtimeOperation {
    Start,
    AppendAudio,
    AppendText,
    AppendSpeech,
    Stop,
}

/// What failed.
pub open spec fn operation_text(operation: RealtimeOperation) -> Seq<char> {
    match operation {
        RealtimeOperation::Start => "failed to start realtime conversation: "@,
        RealtimeOperation::AppendAudio => "failed to append realtime conversation audio: "@,
        RealtimeOperation::AppendText => "failed to append realtime conversation text: "@,
        RealtimeOperation::AppendSpeech => "failed to append realtime conversation speech: "@,
        RealtimeOperation::Stop => "failed to stop realtime conversation: "@,
    }
}

/// The answer to an operation that the thread did not accept.
pub fn realtime_error(operation: RealtimeOperation, message: &str) -> (res: RpcError)
    ensures
        res.is(INTERNAL_ERROR, operation_text(operation) + message@),
{
    let text = match operation {
        RealtimeOperation::Start => "failed to start realtime conversation: ",
        RealtimeOperation::AppendAudio => "failed to append realtime conversation audio: ",
        RealtimeOperation::AppendText => "failed to append realtime conversation text: ",
        RealtimeOperation::AppendSpeech => "failed to append realtime conversation speech: ",
        RealtimeOperation::Stop => "failed to stop realtime conversation: ",
    };
    internal_error(plus(text, message).as_str())
}

/// A conversation over a call that exists already takes nothing that would change the call: each such
/// option is refused, by its name. Any other transport takes them all.
pub proof fn existing_call_is_not_changed(params: ThreadRealtimeStartParams)
    ensures
        ({
            let attached = params.transport is Some && params.transport->Some_0 is ExistingCall;
            let changes = params.include_startup_context == Some(true) || params.prompt is Some || (
            params.initial_items is Some && params.initial_items->Some_0@.len() > 0)
                || params.model is Some || params.voice is Some || params.delegation_ack_filler
                is Some;
            &&& realtime_refusal(params) is Some <==> attached && changes
            &&& attached && params.prompt is None && params.include_startup_context != Some(true)
                && params.initial_items is None && params.model is Some ==> realtime_refusal(params)
                == Some("existingCall transport does not support "@ + "model"@)
        }),
{
}

/// A conversation is what was asked for. What was left open is off, but for the startup context, which
/// goes with every conversation that is not over an existing call.
pub proof fn conversation_is_what_was_asked(
    params: ThreadRealtimeStartParams,
    start: ConversationStart,
)
    requires
        is_conversation(params, start),
    ensures
        start.model == params.model,
        start.voice == params.voice,
        start.version == params.version,
        start.prompt == params.prompt,
        start.transport == params.transport,
        start.output_modality == params.output_modality,
        start.realtime_session_id == params.realtime_session_id,
        start.realtime_start_instructions == params.realtime_start_instructions,
        start.realtime_end_instructions == params.realtime_end_instructions,
        start.delegation_ack_filler == params.delegation_ack_filler,
        start.codex_response_item_prefix == params.codex_response_item_prefix,
        start.codex_response_handoff_channel_prefixes
            == params.codex_response_handoff_channel_prefixes,
        params.client_managed_handoffs is None ==> !start.client_managed_handoffs,
        params.client_managed_handoffs matches Some(value) ==> start.client_managed_handoffs
            == value,
        params.flush_transcript_tail_on_session_end is None
            ==> !start.flush_transcript_tail_on_session_end,
        params.flush_transcript_tail_on_session_end matches Some(value)
            ==> start.flush_transcript_tail_on_session_end == value,
        params.codex_responses_as_items is None ==> !start.codex_responses_as_items,
        params.codex_responses_as_items matches Some(value) ==> start.codex_responses_as_items
            == value,
        params.codex_response_handoff_mode is None ==> start.codex_response_handoff_mode is Default,
        params.codex_response_handoff_mode matches Some(mode) ==> start.codex_response_handoff_mode
            == mode,
        params.initial_items is None ==> start.initial_items@.len() == 0,
        params.initial_items matches Some(items) ==> start.initial_items == items,
        params.include_startup_context matches Some(value) ==> start.include_startup_context
            == value,
        params.include_startup_context is None ==> (start.include_startup_context <==> !(
        params.transport is Some && params.transport->Some_0 is ExistingCall)),
{
}

/// A failure tells which operation failed, and why.
pub proof fn failed_operation_is_told(operation: RealtimeOperation, message: Seq<char>)
    ensures
        operation is Start ==> operation_text(operation) + message
            == "failed to start realtime conversation: "@ + message,
        operation is Stop ==> operation_text(operation) + message
            == "failed to stop realtime conversation: "@ + message,
        operation is AppendAudio ==> operation_text(operation) + message
            == "failed to append realtime conversation audio: "@ + message,
        operation is AppendText ==> operation_text(operation) + message
            == "failed to append realtime conversation text: "@ + message,
        operation is AppendSpeech ==> operation_text(operation) + message
            == "failed to append realtime conversation speech: "@ + message,
{
}

} // verus!
