//! Errors that a request is answered with.
use vstd::prelude::*;

verus! {

/// The request is not one that can be served.
pub const INVALID_REQUEST: i64 = -32600;

/// The parameters are out of range.
pub const INVALID_PARAMS: i64 = -32602;

/// Serving the request failed.
pub const INTERNAL_ERROR: i64 = -32603;

/// A checkout command ran and exited with a nonzero status.
pub const COMMAND_FAILED: i64 = -32010;

/// A checkout command could not be run.
pub const COMMAND_NOT_RUN: i64 = -32011;

/// Why a turn cannot be steered.
#[derive(Clone, Copy, Debug, PartialEq, Eq, Structural)]
pub enum NonSteerableTurnKind {
    Review,
    Compact,
}

/// Structured details of an error.
#[derive(Clone, Copy, Debug, PartialEq, Eq, Structural)]
pub enum ErrorData {
    InputTooLarge { max_chars: usize, actual_chars: usize },
    ExitCode(i32),
    ActiveTurnNotSteerable(NonSteerableTurnKind),
}

/// A JSON-RPC error object.
#[derive(Debug)]
pub struct RpcError {
    pub code: i64,
    pub message: String,
    pub data: Option<ErrorData>,
}

impl RpcError {
    /// Whether this is the error with the given code and message and no data.
    pub open spec fn is(self, code: i64, message: Seq<char>) -> bool {
        self.code == code && self.message@ == message && self.data is None
    }
}

/// Whether a request was refused exactly when there is a refusal, and with its message.
pub open spec fn refused_by<T>(res: Result<T, RpcError>, refusal: Option<Seq<char>>) -> bool {
    match refusal {
        Some(message) => res matches Err(error) && error.is(INVALID_REQUEST, message),
        None => res is Ok,
    }
}

/// A rejected request.
pub fn invalid_request(message: &str) -> (res: RpcError)
    ensures
        res.is(INVALID_REQUEST, message@),
{
    RpcError { code: INVALID_REQUEST, message: message.to_owned(), data: None }
}

/// A request that failed while it was served.
pub fn internal_error(message: &str) -> (res: RpcError)
    ensures
        res.is(INTERNAL_ERROR, message@),
{
    RpcError { code: INTERNAL_ERROR, message: message.to_owned(), data: None }
}

/// A request whose parameters are out of range.
pub fn invalid_params(message: &str) -> (res: RpcError)
    ensures
        res.is(INVALID_PARAMS, message@),
{
    RpcError { code: INVALID_PARAMS, message: message.to_owned(), data: None }
}

/// A refusal is an error of its own kind that carries the reason, and nothing is refused without one.
/// The kinds are told apart by their codes.
pub proof fn refusal_is_told<T>(res: Result<T, RpcError>, refusal: Option<Seq<char>>)
    requires
        refused_by(res, refusal),
    ensures
        res is Err <==> refusal is Some,
        res matches Err(error) ==> error.message@ == refusal->Some_0 && error.code
            == INVALID_REQUEST && error.data is None,
        INVALID_REQUEST != INVALID_PARAMS,
        INVALID_REQUEST != INTERNAL_ERROR,
        INVALID_PARAMS != INTERNAL_ERROR,
        INVALID_REQUEST != COMMAND_FAILED,
        INVALID_REQUEST != COMMAND_NOT_RUN,
        COMMAND_FAILED != COMMAND_NOT_RUN,
{
}

} // verus!
