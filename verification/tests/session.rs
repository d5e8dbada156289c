//! Tests of workers and of the sessions that they run in.
use ultracode_workflow::json::number_of;
use ultracode_workflow::path::AbsolutePath;
use ultracode_workflow::registry::Registry;
use ultracode_workflow::session::{
    check_validated_digest, migrates, session_of_peer, session_of_worker, structured_output,
    terminal_output, worker_result, workflow_state_dir, PendingWorker, TurnEnd, TurnStatus,
    WorkerNotification, WorkflowSession,
};

fn json(text: &str) -> serde_json::Value {
    serde_json::from_str(text).expect("valid test JSON")
}

fn worker(structured: bool) -> PendingWorker {
    PendingWorker::new(
        "request".into(),
        "run".into(),
        "worker".into(),
        "turn".into(),
        "model".into(),
        json(r#""low""#),
        structured,
    )
}

#[test]
fn structured_non_completed_turns_preserve_native_status() {
    assert_eq!(terminal_output("interrupted", true, "").unwrap(), json("null"));
    assert_eq!(terminal_output("failed", true, "").unwrap(), json("null"));
    assert_eq!(
        terminal_output("completed", true, r#"{"ok":true}"#).unwrap(),
        json(r#"{"ok":true}"#)
    );
    assert_eq!(
        terminal_output("completed", true, "").unwrap_err().code,
        "INVALID_STRUCTURED_OUTPUT"
    );
}

#[test]
fn state_is_thread_scoped_and_outside_the_project() {
    let home = AbsolutePath::parse("/home/codex").unwrap();
    let cwd = AbsolutePath::parse("/work/project").unwrap();
    let directories = workflow_state_dir(&home, &cwd, "thread-a");
    assert_eq!(directories.parent.text(), "/home/codex/ultracode/sessions");
    assert_eq!(directories.state.text(), "/home/codex/ultracode/sessions/thread-a");
    assert_eq!(
        directories.legacy.text(),
        "/work/project/.ultracode/native/sessions/thread-a"
    );
    assert!(!directories.state.starts_with(&cwd));
    assert!(migrates(false, true));
    assert!(!migrates(true, true));
    assert!(!migrates(false, false));
}

#[test]
fn plain_output_is_the_text() {
    assert_eq!(terminal_output("completed", false, "done").unwrap(), json(r#""done""#));
    let error = terminal_output("completed", true, "{").unwrap_err();
    let expected = serde_json::from_str::<serde_json::Value>("{").unwrap_err().to_string();
    assert_eq!(error.message, expected);
    assert!(structured_output(Err("why".into())).unwrap_err().message.contains("why"));
    assert_eq!(structured_output(Ok(json("[1]"))).unwrap(), json("[1]"));
}

#[test]
fn worker_is_started_by_its_first_answer() {
    let mut worker = worker(false);
    worker.observe(WorkerNotification::TurnStarted { turn: "turn-2".into() });
    worker.observe(WorkerNotification::ItemStarted { item: json("{}"), from_user: true });
    worker.observe(WorkerNotification::UsageUpdated { usage: json(r#"{"n":1}"#) });
    assert!(!worker.started);
    assert_eq!(worker.turn_id, "turn-2");
    worker.observe(WorkerNotification::MessageDelta { delta: "he".into() });
    worker.observe(WorkerNotification::MessageDelta { delta: "llo".into() });
    assert!(worker.started);
    assert_eq!(worker.text, "hello");
    assert_eq!(worker.revision, 5);
    assert_eq!(worker.activity.len(), 1);
    worker.observe(WorkerNotification::ItemCompleted {
        item: json("{}"),
        message: Some("final".into()),
    });
    assert_eq!(worker.text, "final");
    assert_eq!(worker.usage, json(r#"{"n":1}"#));
}

#[test]
fn reasoning_and_own_items_start_a_worker() {
    let mut first = worker(false);
    first.observe(WorkerNotification::Reasoning);
    assert!(first.started);
    let mut second = worker(false);
    second.observe(WorkerNotification::ItemStarted { item: json("{}"), from_user: false });
    assert!(second.started);
    let mut third = worker(false);
    third.observe(WorkerNotification::ItemCompleted { item: json("{}"), message: None });
    assert!(!third.started);
}

#[test]
fn result_has_the_last_message() {
    let mut worker = worker(true);
    worker.observe(WorkerNotification::MessageDelta { delta: "[0]".into() });
    let result = worker_result(
        worker,
        "thread",
        TurnEnd {
            items: vec![Some("[1]".into()), Some("[2]".into()), None],
            status: TurnStatus::Completed,
            error: None,
        },
    )
    .unwrap();
    assert_eq!(result.text, "[2]");
    assert_eq!(result.output, json("[2]"));
    assert_eq!(result.status, "completed");
    assert_eq!(result.thread_id, "thread");
}

#[test]
fn failed_turn_has_no_output_and_keeps_its_text() {
    let mut worker = worker(true);
    worker.observe(WorkerNotification::MessageDelta { delta: "not json".into() });
    let result = worker_result(
        worker,
        "thread",
        TurnEnd { items: vec![None], status: TurnStatus::Failed, error: Some("boom".into()) },
    )
    .unwrap();
    assert_eq!(result.output, json("null"));
    assert_eq!(result.text, "not json");
    assert_eq!(result.status, "failed");
    assert_eq!(result.error, Some("boom".to_string()));
}

#[test]
fn sessions_are_found_by_process_and_by_worker() {
    let mut sessions: Registry<WorkflowSession> = Registry::new();
    let mut session = WorkflowSession::new(3, false);
    session.pending_workers.insert("thread".into(), worker(false));
    sessions.insert("parent".into(), session);
    sessions.insert("other".into(), WorkflowSession::new(4, true));
    assert_eq!(session_of_peer(&sessions, 3), Some("parent".to_string()));
    assert_eq!(session_of_peer(&sessions, 5), None);
    assert_eq!(session_of_worker(&sessions, "thread"), Some("parent".to_string()));
    assert_eq!(session_of_worker(&sessions, "nobody"), None);
}

#[test]
fn validated_digest_must_be_the_shown_one() {
    assert!(check_validated_digest(&Some("d".into()), "d").is_ok());
    assert_eq!(
        check_validated_digest(&None, "d").unwrap_err(),
        "Validated workflow digest is unavailable"
    );
    assert_eq!(
        check_validated_digest(&Some("e".into()), "d").unwrap_err(),
        "Validated workflow digest does not match its preview"
    );
}

#[test]
fn only_unsigned_integers_are_numbers() {
    assert_eq!(number_of(&json("7")), Some(7));
    for other in ["-1", "1.5", "\"7\"", "null"] {
        assert_eq!(number_of(&json(other)), None);
    }
}
