//! The answers to requests for which something outside the host failed.
use crate::error::{internal_error, invalid_request, RpcError, INTERNAL_ERROR, INVALID_REQUEST};
use crate::text::{option_text, plus};
use vstd::prelude::*;
use vstd::string::*;

verus! {

/// What failed.
#[derive(Clone, Copy, Debug, PartialEq, Eq, Structural)]
pub enum Failure {
    InjectItems,
    ClientInfo,
    InlineReview,
    DetachedReview,
    TurnSettings,
    ThreadSettings,
    /// The permission profile of a worker does not fit its configuration.
    PermissionProfile,
    /// The approval policy of a worker does not fit its configuration.
    ApprovalPolicy,
    /// The profile of a checkout is not allowed by the managed configuration.
    CheckoutConstraints,
    /// A change of a thread's settings does not fit.
    SettingsPreview,
    ScriptPath,
    ScriptRead,
    SaveParent,
    SaveDirectory,
}

/// Whether it is the request that is at fault.
pub open spec fn blames_request(failure: Failure) -> bool {
    match failure {
        Failure::InjectItems | Failure::ClientInfo | Failure::InlineReview
        | Failure::DetachedReview | Failure::TurnSettings | Failure::ThreadSettings => false,
        _ => true,
    }
}

/// How the answer begins.
pub open spec fn failure_start(failure: Failure) -> Seq<char> {
    match failure {
        Failure::InjectItems => "failed to inject response items: "@,
        Failure::ClientInfo => "failed to set app server client info: "@,
        Failure::InlineReview => "failed to start review: "@,
        Failure::DetachedReview => "failed to start detached review: "@,
        Failure::TurnSettings => "failed to submit turn settings: "@,
        Failure::ThreadSettings => "failed to update thread settings: "@,
        Failure::PermissionProfile => "workflow permission profile is invalid: "@,
        Failure::ApprovalPolicy => "workflow approval policy is invalid: "@,
        Failure::CheckoutConstraints => {
            "workflow checkout exceeds managed permission constraints: "@
        },
        Failure::SettingsPreview => "invalid thread settings override: "@,
        Failure::ScriptPath => "invalid workflow script path: "@,
        Failure::ScriptRead => "workflow script is not readable: "@,
        Failure::SaveParent => "workflow save parent is not accessible: "@,
        Failure::SaveDirectory => "workflow save directory failed: "@,
    }
}

/// Whether an answer tells a failure.
pub open spec fn is_failure_told(failure: Failure, message: Seq<char>, res: RpcError) -> bool {
    res.is(
        if blames_request(failure) {
            INVALID_REQUEST
        } else {
            INTERNAL_ERROR
        },
        failure_start(failure) + message,
    )
}

/// Whether an answer tells that response items were not taken.
pub open spec fn is_injection_refused(
    fault: Option<Seq<char>>,
    message: Seq<char>,
    res: RpcError,
) -> bool {
    match fault {
        Some(fault) => res.is(INVALID_REQUEST, fault),
        None => res.is(INTERNAL_ERROR, "failed to inject response items: "@ + message),
    }
}

/// The answer to a request for which something failed.
pub fn failure_error(failure: Failure, message: &str) -> (res: RpcError)
    ensures
        is_failure_told(failure, message@, res),
{
    match failure {
        Failure::InjectItems => internal_error(
            plus("failed to inject response items: ", message).as_str(),
        ),
        Failure::ClientInfo => internal_error(
            plus("failed to set app server client info: ", message).as_str(),
        ),
        Failure::InlineReview => internal_error(
            plus("failed to start review: ", message).as_str(),
        ),
        Failure::DetachedReview => internal_error(
            plus("failed to start detached review: ", message).as_str(),
        ),
        Failure::TurnSettings => internal_error(
            plus("failed to submit turn settings: ", message).as_str(),
        ),
        Failure::ThreadSettings => internal_error(
            plus("failed to update thread settings: ", message).as_str(),
        ),
        Failure::PermissionProfile => invalid_request(
            plus("workflow permission profile is invalid: ", message).as_str(),
        ),
        Failure::ApprovalPolicy => invalid_request(
            plus("workflow approval policy is invalid: ", message).as_str(),
        ),
        Failure::CheckoutConstraints => invalid_request(
            plus("workflow checkout exceeds managed permission constraints: ", message).as_str(),
        ),
        Failure::SettingsPreview => invalid_request(
            plus("invalid thread settings override: ", message).as_str(),
        ),
        Failure::ScriptPath => invalid_request(
            plus("invalid workflow script path: ", message).as_str(),
        ),
        Failure::ScriptRead => invalid_request(
            plus("workflow script is not readable: ", message).as_str(),
        ),
        Failure::SaveParent => invalid_request(
            plus("workflow save parent is not accessible: ", message).as_str(),
        ),
        Failure::SaveDirectory => invalid_request(
            plus("workflow save directory failed: ", message).as_str(),
        ),
    }
}

/// The answer to response items that were not taken. The thread may tell that it is the request that
/// is at fault, and is then quoted.
pub fn injection_error(request_fault: &Option<String>, message: &str) -> (res: RpcError)
    ensures
        is_injection_refused(option_text(*request_fault), message@, res),
{
    match request_fault {
        Some(fault) => invalid_request(fault.as_str()),
        None => failure_error(Failure::InjectItems, message),
    }
}

/// The answer to a request whose parent has no file system that workflows may use.
pub fn no_filesystem() -> (res: RpcError)
    ensures
        res.is(INVALID_REQUEST, "parent workflow filesystem is unavailable"@),
{
    invalid_request("parent workflow filesystem is unavailable")
}

/// Every failure is told with its cause at the end. What the host could not do is its own fault, and
/// what a worker, a script or a place to save was asked to be is that of the request.
pub proof fn failure_tells_its_cause(failure: Failure, message: Seq<char>, res: RpcError)
    requires
        is_failure_told(failure, message, res),
    ensures
        message.is_suffix_of(res.message@),
        res.message@.len() > message.len(),
        failure is InjectItems || failure is ClientInfo || failure is InlineReview || failure
            is DetachedReview || failure is TurnSettings || failure is ThreadSettings ==> res.code
            == -32603,
        failure is PermissionProfile || failure is ApprovalPolicy || failure is CheckoutConstraints
            || failure is SettingsPreview || failure is ScriptPath || failure is ScriptRead
            || failure is SaveParent || failure is SaveDirectory ==> res.code == -32600,
{
    reveal_strlit("failed to inject response items: ");
    reveal_strlit("failed to set app server client info: ");
    reveal_strlit("failed to start review: ");
    reveal_strlit("failed to start detached review: ");
    reveal_strlit("failed to submit turn settings: ");
    reveal_strlit("failed to update thread settings: ");
    reveal_strlit("workflow permission profile is invalid: ");
    reveal_strlit("workflow approval policy is invalid: ");
    reveal_strlit("workflow checkout exceeds managed permission constraints: ");
    reveal_strlit("invalid thread settings override: ");
    reveal_strlit("invalid workflow script path: ");
    reveal_strlit("workflow script is not readable: ");
    reveal_strlit("workflow save parent is not accessible: ");
    reveal_strlit("workflow save directory failed: ");
    let start = failure_start(failure);
    assert((start + message).subrange(start.len() as int, (start + message).len() as int)
        =~= message);
}

/// Response items that the thread blames are refused in its words, and else with the cause.
pub proof fn blamed_items_are_refused_in_its_words(
    fault: Option<Seq<char>>,
    message: Seq<char>,
    res: RpcError,
)
    requires
        is_injection_refused(fault, message, res),
    ensures
        fault is Some ==> res.message@ == fault->Some_0 && res.code == -32600,
        fault is None ==> res.message@ == "failed to inject response items: "@ + message
            && res.code == -32603,
{
}

} // verus!
