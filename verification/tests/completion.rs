//! Tests of delivering the end of a run.
use ultracode_workflow::completion::{
    check_completion_request, workflow_completion_inject, workflow_completion_response,
    WorkflowCompletion,
};
use ultracode_workflow::ledger::{
    after_reservation, after_submission, completion_plan, headless_marker, headless_run_marker,
    owns_headless_run, remember_headless_run, LedgerStatus, MarkerState, Reservation,
};
use ultracode_workflow::turn_input::{NotSubmittedReason, TurnInputSubmission};

fn json(text: &str) -> serde_json::Value {
    serde_json::from_str(text).expect("valid test JSON")
}

const RUN: &str = "01234567-89ab-cdef-0123-456789abcdef";

#[test]
fn completion_retains_started_and_steered_turn_identity() {
    for submission in [
        TurnInputSubmission::Started { turn_id: "accepted".into() },
        TurnInputSubmission::Steered { turn_id: "accepted".into() },
    ] {
        assert_eq!(workflow_completion_response(submission).unwrap().turn_id, "accepted");
    }
}

#[test]
fn unsubmitted_completion_is_not_acknowledged_as_delivered() {
    let response = workflow_completion_response(TurnInputSubmission::NotSubmitted {
        reason: NotSubmittedReason::PlanMode,
    });
    assert!(response.unwrap_err().message.contains("not submitted: PlanMode"));
}

#[test]
fn bounds_completion_summary_on_utf8_boundary() {
    let completion = WorkflowCompletion::new("run-1", &"é".repeat(5_000));
    assert!(completion.body().len() <= 8_000);
    assert!(completion.body().ends_with('é'));
    assert_eq!(completion.content_kind(), "workflow.completion");
}

#[test]
fn short_summary_is_kept_whole() {
    let completion = WorkflowCompletion::new("run-1", "done");
    assert!(completion.body().ends_with("done"));
    assert!(completion.body().contains("run-1"));
}

#[test]
fn completion_request_needs_a_plain_run() {
    assert!(check_completion_request("run-1").is_ok());
    assert!(check_completion_request("../run").is_err());
}

#[test]
fn failed_injection_tells_its_reason() {
    let error = workflow_completion_inject(Err("closed".into())).unwrap_err();
    assert!(error.message.contains("closed"));
}

#[test]
fn run_that_goes_on_has_no_plan() {
    assert!(completion_plan(RUN, &json(r#"{"status":"running"}"#)).unwrap().is_none());
}

#[test]
fn plan_names_its_attempt_and_its_record() {
    let state = json(
        r#"{"status":"completed","attempt":2,"scriptPath":"/s.js","transcriptDir":"/t","result":{"ok":true}}"#,
    );
    let plan = completion_plan(RUN, &state).unwrap().unwrap();
    assert_eq!(plan.attempt, 2);
    assert_eq!(plan.ledger, format!("completion-{RUN}-2.json"));
    assert_eq!(
        plan.summary,
        format!(
            "Ultracode workflow {RUN} attempt 2 finished with status completed. \
             scriptPath=\"/s.js\" transcriptDir=\"/t\" Consolidated result: {{\"ok\":true}}"
        )
    );
}

#[test]
fn plan_of_a_failed_run_tells_its_error_and_its_first_attempt() {
    let plan = completion_plan(RUN, &json(r#"{"status":"failed","error":"boom"}"#))
        .unwrap()
        .unwrap();
    assert_eq!(plan.attempt, 1);
    assert!(plan.summary.ends_with("scriptPath=null transcriptDir=null Consolidated result: \"boom\""));
}

#[test]
fn plan_is_cut_at_its_limit() {
    let long = format!(r#"{{"status":"stopped","error":"{}"}}"#, "é".repeat(9_000));
    let plan = completion_plan(RUN, &json(&long)).unwrap().unwrap();
    assert_eq!(plan.summary.chars().count(), 8_000);
}

#[test]
fn invalid_run_identity_is_refused() {
    assert!(completion_plan("run", &json(r#"{"status":"completed"}"#)).is_err());
    assert!(headless_run_marker("run").is_err());
}

#[test]
fn only_a_new_record_submits() {
    assert_eq!(after_reservation(&Reservation::Created).unwrap(), true);
    assert_eq!(after_reservation(&Reservation::Exists).unwrap(), false);
    assert!(after_reservation(&Reservation::Failed("disk".into())).is_err());
}

#[test]
fn submission_is_delivered_or_unresolved() {
    let (status, result) = after_submission(&Ok("turn".into()));
    assert!(matches!(status, LedgerStatus::Delivered));
    assert!(result.is_ok());
    let (status, result) = after_submission(&Err("closed".into()));
    assert!(matches!(status, LedgerStatus::Submitting));
    let error = result.unwrap_err();
    assert_eq!((error.code.as_str(), error.message.as_str()), ("HOST_ERROR", "closed"));
    assert!(error.outcome_unresolved);
}

#[test]
fn marker_belongs_to_its_parent_and_run() {
    let marker = headless_marker("parent", RUN);
    assert_eq!(marker, json(&format!(r#"{{"parentThreadId":"parent","runId":"{RUN}"}}"#)));
    let owned = |value: &serde_json::Value, parent: &str| {
        owns_headless_run(&MarkerState::Found(value.clone()), parent, RUN)
    };
    assert!(owned(&marker, "parent").unwrap());
    let stale = |value: &serde_json::Value, parent: &str| {
        assert_eq!(
            owned(value, parent).unwrap_err().message,
            "headless run marker identity is stale"
        );
    };
    stale(&marker, "other");
    let mut further = marker.clone();
    further["attempt"] = 1.into();
    stale(&further, "parent");
    let mut other_kind = marker.clone();
    other_kind["runId"] = 7.into();
    stale(&other_kind, "parent");
    stale(&json(r#"{"parentThreadId":"parent"}"#), "parent");
    stale(&json("null"), "parent");
    assert!(!owns_headless_run(&MarkerState::Missing, "parent", RUN).unwrap());
    assert!(owns_headless_run(&MarkerState::Failed("disk".into()), "parent", RUN).is_err());
}

#[test]
fn run_is_marked_once_and_its_marker_is_kept() {
    let marking = |written: Reservation, found: Result<serde_json::Value, &str>| {
        remember_headless_run(&written, &found.map_err(str::to_owned), "parent", RUN)
            .map_err(|error| error.message)
    };
    assert_eq!(marking(Reservation::Created, Err("not read")), Ok(()));
    assert_eq!(marking(Reservation::Exists, Ok(headless_marker("parent", RUN))), Ok(()));
    assert_eq!(
        marking(Reservation::Exists, Ok(headless_marker("other", RUN))),
        Err("headless run marker identity is stale".to_string())
    );
    assert_eq!(marking(Reservation::Exists, Err("gone")), Err("gone".to_string()));
    assert_eq!(marking(Reservation::Failed("disk".into()), Err("")), Err("disk".to_string()));
}

#[test]
fn completion_is_marked_text_of_the_user() {
    let completion = WorkflowCompletion::new("run", "done");
    assert_eq!(completion.content_kind(), "workflow.completion");
    assert_eq!(completion.role(), "user");
    let marks = ("<workflow_completion>".to_owned(), "</workflow_completion>".to_owned());
    assert_eq!(completion.markers(), marks);
    assert_eq!(WorkflowCompletion::type_markers(), marks);
    assert_eq!(completion.body(), "Run run completed.\ndone");
}
