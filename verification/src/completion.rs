//! Delivering the completion of a run to its parent thread.
use crate::error::{
    internal_error, invalid_request, refused_by, RpcError, INTERNAL_ERROR,
};
use crate::ids::{is_id_char, is_id_component, workflow_id_component};
use crate::protocol::WorkflowCompletionInjectResponse;
use crate::turn_input::{reason_text, TurnInputSubmission};
use crate::text::{
    char_utf8_units, plus, plus3, utf8_length, utf8_length_counts_bytes, utf8_length_grows,
    utf8_length_of_ascii, utf8_length_of_concat,
};
use vstd::prelude::*;
use vstd::string::*;
use vstd::utf8::encode_utf8;

verus! {

/// A character that starts at or after this byte is left out of a summary.
pub const SUMMARY_BYTES: usize = 7800;

/// The completion of a run, as the parent's model is told of it.
#[derive(Debug)]
pub struct WorkflowCompletion {
    pub run_id: String,
    pub summary: String,
}

/// Whether `n` counts the characters that start before the limit, in bytes.
pub open spec fn starts_within(text: Seq<char>, limit: nat, n: int) -> bool {
    &&& 0 <= n <= text.len()
    &&& n > 0 ==> utf8_length(text.take(n - 1)) < limit
    &&& n < text.len() ==> utf8_length(text.take(n)) >= limit
}

/// The characters of a text that start before the limit, in bytes.
pub open spec fn bounded_summary(text: Seq<char>, limit: nat) -> Seq<char> {
    text.take(choose|n: int| starts_within(text, limit, n))
}

proof fn one_bound(text: Seq<char>, limit: nat, n: int)
    requires
        starts_within(text, limit, n),
    ensures
        bounded_summary(text, limit) == text.take(n),
{
    let m = choose|m: int| starts_within(text, limit, m);
    if m < n {
        utf8_length_grows(text, m, n - 1);
    }
    if n < m {
        utf8_length_grows(text, n, m - 1);
    }
}

/// The text of a completion between its markers.
pub open spec fn completion_body(run_id: Seq<char>, summary: Seq<char>) -> Seq<char> {
    "Run "@ + run_id + " completed.\n"@ + summary
}

impl WorkflowCompletion {
    /// Bounds the summary at a character boundary.
    pub fn new(run_id: &str, summary: &str) -> (res: WorkflowCompletion)
        ensures
            res.run_id@ == run_id@,
            res.summary@ == bounded_summary(summary@, SUMMARY_BYTES as nat),
    {
        let n: usize = summary.unicode_len();
        let mut kept = String::new();
        let mut bytes: usize = 0;
        let mut i: usize = 0;
        assert(kept@ =~= summary@.take(0));
        while i < n && bytes < SUMMARY_BYTES
            invariant
                n == summary@.len(),
                i <= n,
                kept@ == summary@.take(i as int),
                bytes == utf8_length(summary@.take(i as int)),
                i > 0 ==> utf8_length(summary@.take(i - 1)) < SUMMARY_BYTES,
                bytes < SUMMARY_BYTES + 4,
            decreases n - i,
        {
            let c = summary.get_char(i);
            kept.push(c);
            assert(summary@.take(i + 1).drop_last() =~= summary@.take(i as int));
            assert(summary@.take(i + 1).last() == c);
            assert(kept@ =~= summary@.take(i + 1));
            bytes = bytes + char_utf8_units(c);
            i = i + 1;
        }
        proof {
            one_bound(summary@, SUMMARY_BYTES as nat, i as int);
        }
        WorkflowCompletion { run_id: run_id.to_owned(), summary: kept }
    }

    pub fn content_kind(&self) -> (res: String)
        ensures
            res@ == "workflow.completion"@,
    {
        "workflow.completion".to_owned()
    }

    pub fn role(&self) -> (res: String)
        ensures
            res@ == "user"@,
    {
        "user".to_owned()
    }

    /// What stands before and after the body.
    pub fn markers(&self) -> (res: (String, String))
        ensures
            res.0@ == "<workflow_completion>"@,
            res.1@ == "</workflow_completion>"@,
    {
        Self::type_markers()
    }

    /// What stands before and after the body of every completion.
    pub fn type_markers() -> (res: (String, String))
        ensures
            res.0@ == "<workflow_completion>"@,
            res.1@ == "</workflow_completion>"@,
    {
        ("<workflow_completion>".to_owned(), "</workflow_completion>".to_owned())
    }

    pub fn body(&self) -> (res: String)
        ensures
            res@ == completion_body(self.run_id@, self.summary@),
    {
        let head = plus3("Run ", self.run_id.as_str(), " completed.\n");
        plus(head.as_str(), self.summary.as_str())
    }
}

/// The body of a completion is bounded: with the identity of a run, it takes at most 8000 bytes,
/// whatever the summary is.
pub proof fn completion_body_is_bounded(run_id: Seq<char>, summary: Seq<char>)
    requires
        is_id_component(run_id),
    ensures
        encode_utf8(
            completion_body(run_id, bounded_summary(summary, SUMMARY_BYTES as nat)),
        ).len() <= 8000,
{
    reveal_strlit("Run ");
    reveal_strlit(" completed.\n");
    let limit = SUMMARY_BYTES as nat;
    let n = last_start(summary, limit);
    one_bound(summary, limit, n);
    let kept = summary.take(n);
    if n > 0 {
        assert(kept.drop_last() =~= summary.take(n - 1));
    }
    assert(utf8_length(kept) <= 7803);
    let a = "Run "@;
    let b = " completed.\n"@;
    assert forall|i: int| 0 <= i < run_id.len() implies #[trigger] run_id[i] <= '\u{7f}' by {
        assert(is_id_char(run_id[i]));
    }
    utf8_length_of_ascii(run_id);
    utf8_length_of_ascii(a);
    utf8_length_of_ascii(b);
    utf8_length_of_concat(a, run_id);
    utf8_length_of_concat(a + run_id, b);
    utf8_length_of_concat(a + run_id + b, kept);
    utf8_length_counts_bytes(completion_body(run_id, kept));
}

/// There is a last character that starts before a limit, or none does.
proof fn last_start(text: Seq<char>, limit: nat) -> (n: int)
    ensures
        starts_within(text, limit, n),
    decreases text.len(),
{
    if text.len() == 0 {
        0
    } else {
        let m = last_start(text.drop_last(), limit);
        let head = text.drop_last();
        assert(head.take(m) =~= text.take(m));
        if m > 0 {
            assert(head.take(m - 1) =~= text.take(m - 1));
        }
        if m < head.len() {
            m
        } else if utf8_length(text.take(m)) < limit {
            m + 1
        } else {
            m
        }
    }
}

/// Whether a completion whose delivery came to this is answered so.
pub open spec fn is_completion_answer(
    outcome: Result<TurnInputSubmission, String>,
    res: Result<WorkflowCompletionInjectResponse, RpcError>,
) -> bool {
    match outcome {
        Ok(TurnInputSubmission::Started { turn_id }) => res matches Ok(response)
            && response.turn_id@ == turn_id@,
        Ok(TurnInputSubmission::Steered { turn_id }) => res matches Ok(response)
            && response.turn_id@ == turn_id@,
        Ok(TurnInputSubmission::NotSubmitted { reason }) => res matches Err(error) && error.is(
            INTERNAL_ERROR,
            "workflow completion was not submitted: "@ + reason_text(reason),
        ),
        Err(message) => res matches Err(error) && error.is(
            INTERNAL_ERROR,
            "failed to deliver workflow completion: "@ + message@,
        ),
    }
}

/// The answer to a delivered completion: the turn that took it. One that was not taken is never
/// acknowledged.
pub fn workflow_completion_response(submission: TurnInputSubmission) -> (res: Result<
    WorkflowCompletionInjectResponse,
    RpcError,
>)
    ensures
        is_completion_answer(Ok(submission), res),
{
    match submission {
        TurnInputSubmission::Started { turn_id } => Ok(
            WorkflowCompletionInjectResponse { turn_id },
        ),
        TurnInputSubmission::Steered { turn_id } => Ok(
            WorkflowCompletionInjectResponse { turn_id },
        ),
        TurnInputSubmission::NotSubmitted { reason } => Err(
            internal_error(
                plus("workflow completion was not submitted: ", reason.text().as_str()).as_str(),
            ),
        ),
    }
}

/// Whether a completion names a run.
pub fn check_completion_request(run_id: &str) -> (res: Result<(), RpcError>)
    ensures
        refused_by(
            res,
            if is_id_component(run_id@) {
                None
            } else {
                Some("invalid workflow completion run ID"@)
            },
        ),
{
    if workflow_id_component(run_id) {
        Ok(())
    } else {
        Err(invalid_request("invalid workflow completion run ID"))
    }
}

/// The answer to a completion request, once the parent was tried.
pub fn workflow_completion_inject(outcome: Result<TurnInputSubmission, String>) -> (res: Result<
    WorkflowCompletionInjectResponse,
    RpcError,
>)
    ensures
        is_completion_answer(outcome, res),
{
    match outcome {
        Ok(submission) => workflow_completion_response(submission),
        Err(message) => Err(
            internal_error(
                plus("failed to deliver workflow completion: ", message.as_str()).as_str(),
            ),
        ),
    }
}

/// A summary is told from its start, whole where it fits, and never cut inside a character: the last
/// one that starts before the limit is told too.
pub proof fn summary_is_told_from_its_start(summary: Seq<char>, limit: nat)
    ensures
        ({
            let told = bounded_summary(summary, limit);
            &&& told.len() <= summary.len()
            &&& told == summary.take(told.len() as int)
            &&& utf8_length(summary) <= limit ==> told == summary
            &&& utf8_length(summary) > limit ==> limit <= utf8_length(told) < limit + 4
        }),
{
    let n = last_start(summary, limit);
    one_bound(summary, limit, n);
    assert(summary.take(summary.len() as int) =~= summary);
    if n < summary.len() {
        utf8_length_grows(summary, n, summary.len() as int);
    }
    if n > 0 {
        assert(summary.take(n).drop_last() =~= summary.take(n - 1));
    }
}

/// The body of a completion names the run and ends with what is told of it.
pub proof fn completion_names_the_run(run_id: Seq<char>, other: Seq<char>, summary: Seq<char>)
    ensures
        completion_body(run_id, summary).take(4 + run_id.len() as int) == "Run "@ + run_id,
        completion_body(run_id, summary).skip(
            completion_body(run_id, summary).len() - summary.len(),
        ) == summary,
        completion_body(run_id, summary) == completion_body(other, summary) ==> run_id == other,
{
    reveal_strlit("Run ");
    let body = completion_body(run_id, summary);
    let second = completion_body(other, summary);
    let tail = " completed.\n"@;
    assert(body.take(4 + run_id.len() as int) =~= "Run "@ + run_id);
    assert(body.skip(body.len() - summary.len()) =~= summary);
    if body == second {
        assert(body.len() == 4 + run_id.len() + tail.len() + summary.len());
        assert(second.len() == 4 + other.len() + tail.len() + summary.len());
        assert(run_id =~= body.subrange(4, 4 + run_id.len() as int));
        assert(other =~= second.subrange(4, 4 + run_id.len() as int));
    }
}

/// A completion is acknowledged exactly when a turn took it, be it a new one or the active one, and
/// with that turn. Every other end is an error that tells why.
pub proof fn completion_is_acknowledged_once_taken(
    outcome: Result<TurnInputSubmission, String>,
    res: Result<WorkflowCompletionInjectResponse, RpcError>,
)
    requires
        is_completion_answer(outcome, res),
    ensures
        res is Ok <==> outcome is Ok && !(outcome->Ok_0 is NotSubmitted),
        outcome is Ok && outcome->Ok_0 is Started ==> res->Ok_0.turn_id@
            == outcome->Ok_0->Started_turn_id@,
        outcome is Ok && outcome->Ok_0 is Steered ==> res->Ok_0.turn_id@
            == outcome->Ok_0->Steered_turn_id@,
        res is Err ==> res->Err_0.code == INTERNAL_ERROR,
        outcome matches Err(message) ==> "failed to deliver workflow completion: "@.is_prefix_of(
            res->Err_0.message@,
        ),
        outcome is Ok && outcome->Ok_0 is NotSubmitted
            ==> "workflow completion was not submitted: "@.is_prefix_of(res->Err_0.message@),
        outcome matches Err(message) ==> res->Err_0.message@.skip(
            res->Err_0.message@.len() - message@.len(),
        ) == message@,
        outcome is Ok && outcome->Ok_0 is NotSubmitted ==> {
            let reason = reason_text(outcome->Ok_0->reason);
            res->Err_0.message@.skip(res->Err_0.message@.len() - reason.len()) == reason
        },
{
    if let Err(message) = outcome {
        let told = res->Err_0.message@;
        assert(told.skip(told.len() - message@.len()) =~= message@);
        let start = "failed to deliver workflow completion: "@;
        assert(start =~= told.subrange(0, start.len() as int));
    } else if outcome->Ok_0 is NotSubmitted {
        let reason = reason_text(outcome->Ok_0->reason);
        let told = res->Err_0.message@;
        assert(told.skip(told.len() - reason.len()) =~= reason);
    }
}

} // verus!
