//! Delivering the end of a run to its parent, once for each attempt.
use crate::bridge::BridgeError;
use crate::host::host_refused;
use crate::ids::{
    format_uuid, parse_uuid, uuid_parse, uuid_text, uuid_text_shape, uuid_text_tells_the_uuid,
};
use crate::json::{
    empty_object, get, json_text, member_text, null, number_of, same_value, set_member, text_value,
    to_text, tree, Json,
};
use crate::text::{
    decimal, decimal_is_injective, has_prefix, number, plus3, prefix_chars, same, take_chars,
};
use vstd::prelude::*;
use vstd::string::*;

verus! {

/// How many characters of a summary are delivered.
pub const SUMMARY_CHARS: usize = 8000;

/// Whether a run in this state has ended.
pub open spec fn has_ended(status: Seq<char>) -> bool {
    status == "completed"@ || status == "failed"@ || status == "stopped"@ || status
        == "interrupted"@
}

pub fn is_ended(status: &str) -> (res: bool)
    ensures
        res == has_ended(status@),
{
    same(status, "completed") || same(status, "failed") || same(status, "stopped") || same(
        status,
        "interrupted",
    )
}

/// The state of a run, empty where it has none.
pub open spec fn run_status(state: Json) -> Seq<char> {
    match state.member_text("status"@) {
        Some(status) => status,
        None => Seq::empty(),
    }
}

/// The attempt of a run: its number, or the first where none is given.
pub open spec fn attempt_of(state: Json) -> u64 {
    match state.member("attempt"@) {
        Some(value) => match value.number() {
            Some(attempt) => attempt,
            None => 1,
        },
        None => 1,
    }
}

/// A member as JSON text; an absent one is null.
pub open spec fn member_display(state: Json, key: Seq<char>) -> Seq<char> {
    match state.member(key) {
        Some(value) => json_text(value),
        None => json_text(Json::Null),
    }
}

/// What a run came to: its result, or else its error, or else null.
pub open spec fn run_outcome(state: Json) -> Seq<char> {
    if state.member("result"@) is Some {
        member_display(state, "result"@)
    } else {
        member_display(state, "error"@)
    }
}

/// What the parent is told of a run that has ended, after a first word or two.
pub open spec fn run_summary(
    start: Seq<char>,
    run_id: Seq<char>,
    attempt: u64,
    state: Json,
) -> Seq<char> {
    start + run_id + " attempt "@ + decimal(attempt as nat)
        + " finished with status "@ + run_status(state) + ". scriptPath="@ + member_display(
        state,
        "scriptPath"@,
    ) + " transcriptDir="@ + member_display(state, "transcriptDir"@) + " Consolidated result: "@
        + run_outcome(state)
}

/// The record of an attempt.
pub open spec fn ledger_name(run: u128, attempt: u64) -> Seq<char> {
    "completion-"@ + uuid_text(run) + "-"@ + decimal(attempt as nat) + ".json"@
}

/// How the end of a run is delivered.
#[derive(Debug)]
pub struct CompletionPlan {
    pub attempt: u64,
    /// The record that must be created before anything is submitted.
    pub ledger: String,
    pub summary: String,
}

fn display(state: &serde_json::Value, key: &str) -> (res: String)
    ensures
        res@ == member_display(tree(*state), key@),
{
    match get(state, key) {
        Some(value) => to_text(value),
        None => to_text(&null()),
    }
}

/// The attempt of a run.
pub fn attempt_number(state: &serde_json::Value) -> (res: u64)
    ensures
        res == attempt_of(tree(*state)),
{
    match get(state, "attempt") {
        Some(value) => match number_of(value) {
            Some(attempt) => attempt,
            None => 1,
        },
        None => 1,
    }
}

/// The state of a run.
pub fn status_text(state: &serde_json::Value) -> (res: String)
    ensures
        res@ == run_status(tree(*state)),
{
    let status = match member_text(state, "status") {
        Some(status) => status,
        None => String::new(),
    };
    assert(status@ =~= run_status(tree(*state)));
    status
}

/// Summarizes a run that has ended.
pub fn summarize(start: &str, run_id: &str, attempt: u64, state: &serde_json::Value) -> (res: String)
    ensures
        res@ == run_summary(start@, run_id@, attempt, tree(*state)),
{
    let outcome = if get(state, "result").is_some() {
        display(state, "result")
    } else {
        display(state, "error")
    };
    let mut summary = plus3(start, run_id, " attempt ");
    summary.append(number(attempt).as_str());
    summary.append(" finished with status ");
    summary.append(status_text(state).as_str());
    summary.append(". scriptPath=");
    summary.append(display(state, "scriptPath").as_str());
    summary.append(" transcriptDir=");
    summary.append(display(state, "transcriptDir").as_str());
    summary.append(" Consolidated result: ");
    summary.append(outcome.as_str());
    summary
}

/// Whether the delivery of a run in this state is planned so.
pub open spec fn is_planned(
    run_id: Seq<char>,
    state: Json,
    res: Result<Option<CompletionPlan>, BridgeError>,
) -> bool {
    &&& host_refused(
        res,
        if has_ended(run_status(state)) && uuid_parse(run_id) is Err {
            Some(uuid_parse(run_id)->Err_0)
        } else {
            None
        },
    )
    &&& res matches Ok(plan) ==> {
        &&& plan is Some <==> has_ended(run_status(state))
        &&& plan matches Some(plan) ==> {
            &&& plan.attempt == attempt_of(state)
            &&& plan.ledger@ == ledger_name(uuid_parse(run_id)->Ok_0, plan.attempt)
            &&& plan.summary@ == prefix_chars(
                run_summary("Ultracode workflow "@, run_id, plan.attempt, state),
                SUMMARY_CHARS as nat,
            )
        }
    }
}

/// Plans the delivery of a run that has ended; a run that goes on has none.
pub fn completion_plan(run_id: &str, state: &serde_json::Value) -> (res: Result<
    Option<CompletionPlan>,
    BridgeError,
>)
    ensures
        is_planned(run_id@, tree(*state), res),
{
    if !is_ended(status_text(state).as_str()) {
        return Ok(None);
    }
    let attempt: u64 = attempt_number(state);
    let run: u128 = match parse_uuid(run_id) {
        Ok(run) => run,
        Err(message) => {
            return Err(BridgeError::host(message.as_str()));
        },
    };
    let attempt_text = number(attempt);
    let mut ledger = plus3("completion-", format_uuid(run).as_str(), "-");
    ledger.append(attempt_text.as_str());
    ledger.append(".json");
    let summary = summarize("Ultracode workflow ", run_id, attempt, state);
    Ok(
        Some(
            CompletionPlan { attempt, ledger, summary: take_chars(summary.as_str(), SUMMARY_CHARS) },
        ),
    )
}

/// What came of creating the record of an attempt, which fails where there is one.
#[derive(Debug)]
pub enum Reservation {
    Created,
    Exists,
    Failed(String),
}

/// What is known of an attempt's delivery.
#[derive(Clone, Copy, Debug, PartialEq, Eq, Structural)]
pub enum LedgerStatus {
    /// Submitted, or about to be; the parent may have it.
    Submitting,
    Delivered,
}

/// Whether a completion is submitted: only by the one that created the record of the attempt.
pub open spec fn submits(reservation: Reservation) -> bool {
    reservation is Created
}

/// Why nothing can be submitted.
pub open spec fn reservation_refusal(reservation: Reservation) -> Option<Seq<char>> {
    match reservation {
        Reservation::Failed(message) => Some(message@),
        _ => None,
    }
}

/// What follows the creation of an attempt's record: the completion is submitted only by the one
/// that created the record.
pub fn after_reservation(reservation: &Reservation) -> (res: Result<bool, BridgeError>)
    ensures
        host_refused(res, reservation_refusal(*reservation)),
        res matches Ok(submit) ==> submit == submits(*reservation),
{
    match reservation {
        Reservation::Created => Ok(true),
        Reservation::Exists => Ok(false),
        Reservation::Failed(message) => Err(BridgeError::host(message.as_str())),
    }
}

/// Whether a submission that came to this is recorded and told so.
pub open spec fn is_recorded(
    outcome: Result<String, String>,
    status: LedgerStatus,
    told: Result<(), BridgeError>,
) -> bool {
    &&& status == (if outcome is Ok {
        LedgerStatus::Delivered
    } else {
        LedgerStatus::Submitting
    })
    &&& match outcome {
        Ok(_) => told is Ok,
        Err(message) => told matches Err(error) && error.is("HOST_ERROR"@, message@, true),
    }
}

/// What the record says once the daemon answered, or did not. Where the acknowledgement is lost the
/// record stays as it was made, and the error says that the outcome is unresolved.
pub fn after_submission(outcome: &Result<String, String>) -> (res: (
    LedgerStatus,
    Result<(), BridgeError>,
))
    ensures
        is_recorded(*outcome, res.0, res.1),
{
    match outcome {
        Ok(_) => (LedgerStatus::Delivered, Ok(())),
        Err(message) => {
            let mut error = BridgeError::host(message.as_str());
            error.outcome_unresolved = true;
            (LedgerStatus::Submitting, Err(error))
        },
    }
}

/// What creating a record comes to, going by the records that there are.
pub open spec fn reservation_in(records: Set<Seq<char>>, name: Seq<char>) -> Reservation {
    if records.contains(name) {
        Reservation::Exists
    } else {
        Reservation::Created
    }
}

/// A completion is never submitted again: once the record of an attempt was created, and whatever
/// was recorded since, no later delivery of the attempt submits it.
pub proof fn attempt_is_submitted_once(
    records: Set<Seq<char>>,
    name: Seq<char>,
    later: Set<Seq<char>>,
)
    requires
        records.insert(name).subset_of(later),
    ensures
        !submits(reservation_in(later, name)),
        !records.contains(name) ==> submits(reservation_in(records, name)),
{
    assert(records.insert(name).contains(name));
}

/// The name of the marker of a run.
pub open spec fn marker_name(run: u128) -> Seq<char> {
    "headless-run-"@ + uuid_text(run) + ".json"@
}

/// The file that marks a run as driven headless.
pub fn headless_run_marker(run_id: &str) -> (res: Result<String, BridgeError>)
    ensures
        host_refused(
            res,
            match uuid_parse(run_id@) {
                Ok(_) => None,
                Err(message) => Some(message),
            },
        ),
        res matches Ok(name) ==> name@ == marker_name(uuid_parse(run_id@)->Ok_0),
{
    match parse_uuid(run_id) {
        Ok(run) => Ok(plus3("headless-run-", format_uuid(run).as_str(), ".json")),
        Err(message) => Err(BridgeError::host(message.as_str())),
    }
}

/// What a marker holds: which run of which parent it stands for, and nothing else.
pub open spec fn marker_of(parent_id: Seq<char>, run_id: Seq<char>) -> Json {
    Json::Object(
        map!["parentThreadId"@ => Json::Text(parent_id), "runId"@ => Json::Text(run_id)],
    )
}

/// The marker of a run.
pub fn headless_marker(parent_id: &str, run_id: &str) -> (res: serde_json::Value)
    ensures
        tree(res) == marker_of(parent_id@, run_id@),
        tree(res).has_texts_only(),
{
    let mut marker = empty_object();
    set_member(&mut marker, "parentThreadId", text_value(parent_id));
    set_member(&mut marker, "runId", text_value(run_id));
    marker
}

/// What is known of a marker.
#[derive(Debug)]
pub enum MarkerState {
    Missing,
    Found(serde_json::Value),
    Failed(String),
}

/// Why it cannot be told whether a run is marked as driven headless.
pub open spec fn marker_refusal(
    state: MarkerState,
    parent_id: Seq<char>,
    run_id: Seq<char>,
) -> Option<Seq<char>> {
    match state {
        MarkerState::Failed(message) => Some(message@),
        MarkerState::Found(value) => if tree(value) == marker_of(parent_id, run_id) {
            None
        } else {
            Some("headless run marker identity is stale"@)
        },
        MarkerState::Missing => None,
    }
}

/// Whether there is a marker.
pub open spec fn is_marked(state: MarkerState) -> bool {
    state is Found
}

/// Whether a run is marked as driven headless. A marker that holds anything but the run and its
/// parent is an error.
pub fn owns_headless_run(state: &MarkerState, parent_id: &str, run_id: &str) -> (res: Result<
    bool,
    BridgeError,
>)
    ensures
        host_refused(res, marker_refusal(*state, parent_id@, run_id@)),
        res matches Ok(owned) ==> owned == is_marked(*state),
{
    match state {
        MarkerState::Missing => Ok(false),
        MarkerState::Failed(message) => Err(BridgeError::host(message.as_str())),
        MarkerState::Found(value) => {
            if same_value(value, &headless_marker(parent_id, run_id)) {
                Ok(true)
            } else {
                Err(BridgeError::host("headless run marker identity is stale"))
            }
        },
    }
}

/// Why a run could not be marked as driven headless. A marker that is there already must be that of
/// the run; `found` is what it holds, or why it could not be read.
pub open spec fn marking_refusal(
    written: Reservation,
    found: Result<serde_json::Value, String>,
    parent_id: Seq<char>,
    run_id: Seq<char>,
) -> Option<Seq<char>> {
    match written {
        Reservation::Created => None,
        Reservation::Failed(message) => Some(message@),
        Reservation::Exists => match found {
            Err(message) => Some(message@),
            Ok(value) => if tree(value) == marker_of(parent_id, run_id) {
                None
            } else {
                Some("headless run marker identity is stale"@)
            },
        },
    }
}

/// Decides whether a run is marked as driven headless, once its marker was written or found.
pub fn remember_headless_run(
    written: &Reservation,
    found: &Result<serde_json::Value, String>,
    parent_id: &str,
    run_id: &str,
) -> (res: Result<(), BridgeError>)
    ensures
        host_refused(res, marking_refusal(*written, *found, parent_id@, run_id@)),
{
    match written {
        Reservation::Created => Ok(()),
        Reservation::Failed(message) => Err(BridgeError::host(message.as_str())),
        Reservation::Exists => match found {
            Err(message) => Err(BridgeError::host(message.as_str())),
            Ok(value) => {
                if same_value(value, &headless_marker(parent_id, run_id)) {
                    Ok(())
                } else {
                    Err(BridgeError::host("headless run marker identity is stale"))
                }
            },
        },
    }
}

/// A marker stands for one run of one parent.
pub proof fn marker_names_one_run(
    parent_id: Seq<char>,
    run_id: Seq<char>,
    other_parent: Seq<char>,
    other_run: Seq<char>,
)
    requires
        marker_of(parent_id, run_id) == marker_of(other_parent, other_run),
    ensures
        parent_id == other_parent,
        run_id == other_run,
{
    reveal_strlit("parentThreadId");
    reveal_strlit("runId");
    let members = marker_of(parent_id, run_id)->Object_0;
    let other = marker_of(other_parent, other_run)->Object_0;
    assert("parentThreadId"@.len() != "runId"@.len());
    assert(members["parentThreadId"@] == other["parentThreadId"@]);
    assert(members["runId"@] == other["runId"@]);
}

/// The end of a run is delivered exactly once it has ended, however it did, under a record of the run
/// and the attempt, and with as much of what is told of it as fits.
pub proof fn ended_run_is_delivered(
    run_id: Seq<char>,
    state: Json,
    res: Result<Option<CompletionPlan>, BridgeError>,
)
    requires
        is_planned(run_id, state, res),
        uuid_parse(run_id) is Ok,
    ensures
        ({
            let status = state.member_text("status"@);
            let ended = status == Some("completed"@) || status == Some("failed"@) || status == Some(
                "stopped"@,
            ) || status == Some("interrupted"@);
            let told = run_summary("Ultracode workflow "@, run_id, attempt_of(state), state);
            &&& res is Ok
            &&& res->Ok_0 is Some <==> ended
            &&& ended ==> {
                let plan = res->Ok_0->Some_0;
                &&& plan.attempt == attempt_of(state)
                &&& plan.ledger@ == ledger_name(uuid_parse(run_id)->Ok_0, plan.attempt)
                &&& plan.summary@.len() <= 8000
                &&& plan.summary@ == told.take(plan.summary@.len() as int)
                &&& told.len() <= 8000 ==> plan.summary@ == told
            }
        }),
{
    reveal_strlit("completed");
    reveal_strlit("failed");
    reveal_strlit("stopped");
    reveal_strlit("interrupted");
    let told = run_summary("Ultracode workflow "@, run_id, attempt_of(state), state);
    assert(told.take(told.len() as int) =~= told);
}

/// A run whose identity is not valid is refused once it has ended, and only then.
pub proof fn unnamed_run_is_not_delivered(
    run_id: Seq<char>,
    state: Json,
    res: Result<Option<CompletionPlan>, BridgeError>,
)
    requires
        is_planned(run_id, state, res),
        uuid_parse(run_id) is Err,
    ensures
        res is Err <==> has_ended(run_status(state)),
        res matches Err(error) ==> error.message@ == uuid_parse(run_id)->Err_0
            && !error.outcome_unresolved,
        res is Ok ==> res->Ok_0 is None,
{
}

/// What is told of a run that has ended names the run, its attempt and its status, where its script
/// and its transcripts are, and what it came to: its result where it has one, and else its error.
pub proof fn summary_tells_the_run(
    start: Seq<char>,
    run_id: Seq<char>,
    attempt: u64,
    state: Json,
)
    ensures
        ({
            let shown = |key: Seq<char>|
                match state.member(key) {
                    Some(value) => json_text(value),
                    None => json_text(Json::Null),
                };
            let head = start + run_id + " attempt "@ + decimal(attempt as nat)
                + " finished with status "@;
            let told = run_summary(start, run_id, attempt, state);
            let outcome = if state.member("result"@) is Some {
                shown("result"@)
            } else {
                shown("error"@)
            };
            &&& has_prefix(told, head)
            &&& state.member_text("status"@) matches Some(status) ==> has_prefix(
                told,
                head + status + ". scriptPath="@ + shown("scriptPath"@) + " transcriptDir="@ + shown(
                    "transcriptDir"@,
                ),
            )
            &&& told.skip(told.len() - outcome.len()) == outcome
        }),
{
    let head = start + run_id + " attempt "@ + decimal(attempt as nat) + " finished with status "@;
    let told = run_summary(start, run_id, attempt, state);
    assert(told.take(head.len() as int) =~= head);
    let outcome = run_outcome(state);
    assert(told.skip(told.len() - outcome.len()) =~= outcome);
    if let Some(status) = state.member_text("status"@) {
        let more = head + status + ". scriptPath="@ + member_display(state, "scriptPath"@)
            + " transcriptDir="@ + member_display(state, "transcriptDir"@);
        assert(told.take(more.len() as int) =~= more);
    }
}

/// The attempt of a run is the one that its state tells, and the first where it tells none.
pub proof fn attempt_is_the_told_one(state: Json, attempt: u64)
    ensures
        state.member("attempt"@) == Some(Json::Number(decimal(attempt as nat))) ==> attempt_of(state)
            == attempt,
        state.member("attempt"@) is None ==> attempt_of(state) == 1,
{
    if state.member("attempt"@) == Some(Json::Number(decimal(attempt as nat))) {
        let value = state.member("attempt"@)->Some_0;
        assert(value.is_number(attempt));
        let found = choose|n: u64| #[trigger] value.is_number(n);
        decimal_is_injective(found as nat, attempt as nat);
    }
}

/// Each attempt of each run has a record of its own, and each run a marker of its own.
pub proof fn records_are_told_apart(run: u128, attempt: u64, other: u128, other_attempt: u64)
    ensures
        ledger_name(run, attempt) == ledger_name(other, other_attempt) ==> run == other && attempt
            == other_attempt,
        marker_name(run) == marker_name(other) ==> run == other,
        ledger_name(run, attempt) != marker_name(other),
{
    reveal_strlit("completion-");
    reveal_strlit("headless-run-");
    reveal_strlit("-");
    reveal_strlit(".json");
    uuid_text_shape(run);
    uuid_text_shape(other);
    let a = ledger_name(run, attempt);
    let b = ledger_name(other, other_attempt);
    if a == b {
        assert(uuid_text(run) =~= a.subrange(11, 47));
        assert(uuid_text(other) =~= b.subrange(11, 47));
        uuid_text_tells_the_uuid(run, other);
        assert(decimal(attempt as nat) =~= a.subrange(48, a.len() - 5));
        assert(decimal(other_attempt as nat) =~= b.subrange(48, b.len() - 5));
        decimal_is_injective(attempt as nat, other_attempt as nat);
    }
    let m = marker_name(run);
    let n = marker_name(other);
    if m == n {
        assert(uuid_text(run) =~= m.subrange(13, 49));
        assert(uuid_text(other) =~= n.subrange(13, 49));
        uuid_text_tells_the_uuid(run, other);
    }
    assert(a[0] == 'c');
    assert(n[0] == 'h');
}

/// Nothing is submitted where the record could not be made, and that is told. An acknowledged
/// submission is recorded as delivered; one without an acknowledgement stays as it was, and the error
/// says that its outcome is not known.
pub proof fn lost_acknowledgement_is_told(
    reservation: Reservation,
    outcome: Result<String, String>,
    status: LedgerStatus,
    told: Result<(), BridgeError>,
)
    requires
        is_recorded(outcome, status, told),
    ensures
        reservation_refusal(reservation) is Some <==> reservation is Failed,
        submits(reservation) <==> reservation is Created,
        status is Delivered <==> outcome is Ok,
        told is Ok <==> outcome is Ok,
        told matches Err(error) ==> error.outcome_unresolved && error.message@ == outcome->Err_0@,
{
}

/// A run is driven headless exactly where its own marker is there; a marker of another run or parent
/// is never taken for it, neither when it is looked for nor when it is to be made.
pub proof fn only_the_own_marker_counts(
    state: MarkerState,
    written: Reservation,
    found: Result<serde_json::Value, String>,
    parent_id: Seq<char>,
    run_id: Seq<char>,
)
    ensures
        marker_refusal(state, parent_id, run_id) is None && is_marked(state) ==> state is Found
            && tree(state->Found_0) == marker_of(parent_id, run_id),
        state is Missing ==> marker_refusal(state, parent_id, run_id) is None && !is_marked(state),
        state matches MarkerState::Failed(message) ==> marker_refusal(state, parent_id, run_id)
            == Some(message@),
        marking_refusal(written, found, parent_id, run_id) is None <==> written is Created || (
        written is Exists && found is Ok && tree(found->Ok_0) == marker_of(parent_id, run_id)),
        marker_of(parent_id, run_id).member_text("parentThreadId"@) == Some(parent_id),
        marker_of(parent_id, run_id).member_text("runId"@) == Some(run_id),
{
    reveal_strlit("parentThreadId");
    reveal_strlit("runId");
    assert("parentThreadId"@.len() != "runId"@.len());
}

} // verus!
