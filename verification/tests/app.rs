//! Tests of the events of the terminal application.
use ultracode_workflow::action::{EditedSource, LaunchSource, WorkflowAction};
use ultracode_workflow::app::App;
use ultracode_workflow::consent::{
    choose_item, dismiss, ConsentOutcome, WorkflowConsentChoice, WorkflowConsentContext,
    WorkflowConsentFeedback,
};
use ultracode_workflow::dispatch::{NotificationEffect, ThreadNotification, WorkflowEvent};
use ultracode_workflow::editing::BoundEdit;
use ultracode_workflow::effort::{
    effort_note, parse_effort, saves_default, EffortNote, ModelPreset, ReasoningEffort,
};
use ultracode_workflow::events::{worker_start_params, StartRefusal, StartedWorker, WorkerStart};
use ultracode_workflow::ids::ThreadId;
use ultracode_workflow::launch::{
    append_workflow_feedback, failure_response, CallLaunch, SavedLaunch, ToolCall, ToolResponse,
};
use ultracode_workflow::path::AbsolutePath;
use ultracode_workflow::registry::Registry;
use ultracode_workflow::render::{
    ArgsPresentation, SourcePresentation, WorkflowConsentPresentation, WorkflowPhase,
    WorkflowPreviewMode, WorkflowSourcePreview,
};
use ultracode_workflow::session::{TurnEnd, TurnStatus, WorkerNotification, WorkflowSession};

fn json(text: &str) -> serde_json::Value {
    serde_json::from_str(text).expect("valid test JSON")
}

const THREAD: &str = "01234567-89ab-cdef-0123-456789abcdef";

fn app() -> App {
    App {
        cwd: AbsolutePath::parse("/repo").unwrap(),
        thread_id: Some(ThreadId::from_string(THREAD).unwrap()),
        disable_workflows: false,
        ultracode: false,
        auto_review: false,
        never_ask: false,
        effort: None,
        commands: Vec::new(),
        consent: None,
        workflow_sessions: Registry::new(),
    }
}

fn with_session(peer: u64, supervised: bool) -> App {
    let mut app = app();
    app.workflow_sessions.insert(THREAD.into(), WorkflowSession::new(peer, supervised));
    app
}

fn preview(workflow_id: Option<&str>) -> WorkflowSourcePreview {
    WorkflowSourcePreview {
        thread_id: THREAD.into(),
        source: "return 1;".into(),
        digest: "digest".into(),
        workflow_id: workflow_id.map(str::to_owned),
        description: None,
        consent: Some(WorkflowConsentPresentation {
            phases: Some(vec![WorkflowPhase {
                title: "Inspect".into(),
                detail: None,
                prompts: Vec::new(),
            }]),
            args: None,
            source: SourcePresentation { text: "return 1;".into(), withheld: false },
        }),
        validation_error: None,
    }
}

fn call(name: Option<&str>) -> ToolCall {
    ToolCall {
        request_id: "request".into(),
        thread_id: THREAD.into(),
        invalid: None,
        workflow_name: name.map(str::to_owned),
        inline: name.is_none(),
        saved_name: name.map(str::to_owned),
    }
}

fn names(app: &App) -> Vec<String> {
    app.consent.as_ref().unwrap().items.iter().map(|item| item.name.clone()).collect()
}

#[test]
fn catalog_of_the_seen_thread_becomes_its_commands() {
    let mut app = app();
    let actions = app.handle_workflow_event(WorkflowEvent::LoadCatalog { thread_id: THREAD.into() });
    assert!(matches!(actions[0], WorkflowAction::ClearStatus));
    assert!(matches!(actions[1], WorkflowAction::OpenSession { isolated: false, .. }));
    assert!(matches!(actions[2], WorkflowAction::LoadCommands { .. }));
    let catalog = json(
        r#"{"workflows":[{"name":"a","description":"first"},{"description":"nameless"},{"name":"b"}]}"#,
    );
    app.handle_workflow_event(WorkflowEvent::CatalogLoaded {
        thread_id: THREAD.into(),
        peer: 1,
        catalog: catalog.clone(),
    });
    assert_eq!(app.commands.len(), 2);
    assert_eq!((app.commands[0].name.as_str(), app.commands[0].description.as_str()), ("a", "first"));
    assert_eq!((app.commands[1].name.as_str(), app.commands[1].description.as_str()), ("b", ""));
    app.handle_workflow_event(WorkflowEvent::CatalogLoaded {
        thread_id: "elsewhere".into(),
        peer: 1,
        catalog: json("{}"),
    });
    assert_eq!(app.commands.len(), 2);
}

#[test]
fn saved_workflow_needs_a_session() {
    let mut app = app();
    app.thread_id = None;
    let actions =
        app.handle_workflow_event(WorkflowEvent::RunSaved { name: "a".into(), args: None });
    assert!(matches!(&actions[0], WorkflowAction::Fail { text } if text == "Parent session is unavailable"));
}

fn listed(app: &mut App, catalog: &str, remembered: bool) -> Vec<WorkflowAction> {
    app.handle_workflow_event(WorkflowEvent::SavedListed {
        thread_id: THREAD.into(),
        name: "a".into(),
        args: Some("x".into()),
        catalog: json(catalog),
        remembered,
    })
}

#[test]
fn remembered_saved_workflow_runs_without_a_question() {
    let with_digest = r#"{"workflows":[{"name":"a","sourceDigest":"d"}]}"#;
    let mut app = app();
    assert!(matches!(listed(&mut app, with_digest, false)[0], WorkflowAction::PreviewSaved { .. }));
    let actions = listed(&mut app, with_digest, true);
    assert!(matches!(actions[0], WorkflowAction::OpenSession { isolated: true, .. }));
    assert!(matches!(
        &actions[1],
        WorkflowAction::LaunchSaved { source: LaunchSource::Saved { name }, args: Some(_), preview: None, .. } if name == "a"
    ));
    let without_digest = r#"{"workflows":[{"name":"a","sourceDigest":1,"digest":"d"}]}"#;
    assert!(matches!(
        listed(&mut app, without_digest, true)[0],
        WorkflowAction::PreviewSaved { .. }
    ));
    app.never_ask = true;
    assert!(matches!(listed(&mut app, "{}", false)[1], WorkflowAction::LaunchSaved { .. }));
}

#[test]
fn saved_consent_offers_to_remember_by_name() {
    let mut app = app();
    app.show_saved_workflow_consent(THREAD.into(), "a".into(), None, preview(Some("id")));
    assert_eq!(
        names(&app),
        vec![
            "Run once",
            "Yes, and don't ask again for /a in /repo",
            "View raw script",
            "No"
        ]
    );
    let view = app.consent.as_ref().unwrap();
    assert_eq!(view.mode, WorkflowPreviewMode::Summary);
    assert_eq!(
        choose_item(view, 1),
        ConsentOutcome::Decided { choice: WorkflowConsentChoice::Remember, with_preview: true }
    );
    assert_eq!(choose_item(view, 2), ConsentOutcome::Show(WorkflowPreviewMode::Raw));
    assert_eq!(
        choose_item(view, 3),
        ConsentOutcome::Decided { choice: WorkflowConsentChoice::Cancel, with_preview: false }
    );
    assert_eq!(choose_item(view, 4), ConsentOutcome::Stays);
    assert_eq!(
        dismiss(),
        ConsentOutcome::Decided { choice: WorkflowConsentChoice::Cancel, with_preview: false }
    );
}

#[test]
fn edited_or_withheld_workflows_cannot_be_remembered() {
    let mut app = app();
    let name = || Some("a".to_owned());
    app.show_workflow_consent("request".into(), THREAD.into(), name(), false, preview(None));
    assert_eq!(names(&app), vec!["Run once", "View raw script", "No"]);
    let mut withheld = preview(Some("id"));
    withheld.consent.as_mut().unwrap().args =
        Some(ArgsPresentation { text: "x".into(), needs_gutter: false, withheld: true });
    app.show_workflow_consent("request".into(), THREAD.into(), name(), false, withheld);
    assert_eq!(names(&app), vec!["Run once", "View raw script", "No"]);
}

#[test]
fn manual_inline_consent_disables_remember_and_starts_nothing() {
    let mut app = app();
    let mut inline = call(None);
    inline.request_id = "42".into();
    let actions = called(&mut app, inline, false);
    assert_eq!(actions.len(), 1);
    assert!(matches!(&actions[0], WorkflowAction::PreviewCall { request_id, .. } if request_id == "42"));
    let mut inline = call(None);
    inline.request_id = "42".into();
    let mut shown = preview(None);
    shown.source = "// workflow".into();
    let actions =
        app.handle_workflow_event(WorkflowEvent::CallPreviewed { call: inline, preview: shown });
    assert!(actions.is_empty());
    assert!(app.workflow_sessions.is_empty());
    assert_eq!(
        names(&app),
        vec!["Run once", "Run and remember for this project", "View raw script", "No"]
    );
    let view = app.consent.as_ref().unwrap();
    assert_eq!(
        view.items[1].disabled_reason.as_deref(),
        Some("Inline workflows cannot be remembered")
    );
    assert_eq!(choose_item(view, 1), ConsentOutcome::Stays);
    assert_eq!(choose_item(view, 2), ConsentOutcome::Show(WorkflowPreviewMode::Raw));
}

#[test]
fn invalid_source_cannot_be_run_but_refused() {
    let mut app = app();
    let mut invalid = preview(Some("id"));
    invalid.validation_error = Some("unexpected token".into());
    app.show_saved_workflow_consent(THREAD.into(), "a".into(), None, invalid);
    let view = app.consent.as_ref().unwrap();
    assert_eq!(view.mode, WorkflowPreviewMode::Raw);
    assert_eq!(view.items.len(), 3);
    assert_eq!(choose_item(view, 0), ConsentOutcome::Stays);
    assert_eq!(choose_item(view, 1), ConsentOutcome::Stays);
    assert!(matches!(choose_item(view, 2), ConsentOutcome::Decided { .. }));
}

#[test]
fn toggling_shows_the_source_and_keeps_what_was_typed() {
    let mut app = app();
    app.show_saved_workflow_consent(THREAD.into(), "a".into(), None, preview(Some("id")));
    let view = app.consent.take().unwrap();
    app.handle_workflow_event(WorkflowEvent::ToggleWorkflowPreview {
        context: view.context,
        typed: WorkflowConsentFeedback {
            accept: "next".into(),
            accept_expanded: true,
            reject: String::new(),
            reject_expanded: false,
        },
        preview: view.preview,
        mode: WorkflowPreviewMode::Raw,
    });
    let view = app.consent.as_ref().unwrap();
    assert_eq!(view.mode, WorkflowPreviewMode::Raw);
    assert_eq!(view.items[0].feedback.as_ref().unwrap().text, "next");
    assert_eq!(view.items[2].name, "View workflow summary");
}

fn consent(choice: WorkflowConsentChoice, shown: WorkflowSourcePreview) -> Vec<WorkflowAction> {
    app().handle_workflow_event(WorkflowEvent::RunSavedConsent {
        thread_id: THREAD.into(),
        name: "a".into(),
        args: None,
        choice,
        feedback: Some("note".into()),
        shown: Some(shown),
    })
}

#[test]
fn edited_saved_workflow_runs_as_a_script_and_is_not_remembered() {
    let actions = consent(WorkflowConsentChoice::Run, preview(None));
    assert!(matches!(&actions[0], WorkflowAction::InjectFeedback { text, .. } if text == "note"));
    assert!(matches!(
        &actions[2],
        WorkflowAction::LaunchSaved { source: LaunchSource::Script { source }, .. } if source == "return 1;"
    ));
    let actions = consent(WorkflowConsentChoice::Remember, preview(None));
    assert!(matches!(
        &actions[2],
        WorkflowAction::Fail { text } if text == "Edited workflows cannot inherit saved workflow permissions"
    ));
    assert_eq!(consent(WorkflowConsentChoice::Cancel, preview(None)).len(), 1);
}

#[test]
fn feedback_for_an_unknown_thread_fails() {
    let actions = app().handle_workflow_event(WorkflowEvent::RunSavedConsent {
        thread_id: "nobody".into(),
        name: "a".into(),
        args: None,
        choice: WorkflowConsentChoice::Run,
        feedback: Some("note".into()),
        shown: None,
    });
    assert_eq!(actions.len(), 1);
    assert!(matches!(actions[0], WorkflowAction::Fail { .. }));
}

fn launched(choice: WorkflowConsentChoice, digest: Option<&str>, ok: bool) -> Vec<WorkflowAction> {
    app().handle_workflow_event(WorkflowEvent::SavedLaunched {
        launch: SavedLaunch {
            thread_id: THREAD.into(),
            name: "a".into(),
            choice,
            edited: false,
            digest: digest.map(str::to_owned),
            result: if ok { Ok(json(r#"{"scriptPath":"/s.js"}"#)) } else { Err("boom".into()) },
        },
    })
}

#[test]
fn launched_saved_workflow_is_told_and_remembered() {
    let actions = launched(WorkflowConsentChoice::Remember, Some("d"), true);
    assert!(matches!(&actions[0], WorkflowAction::RememberNamed { digest, .. } if digest == "d"));
    assert!(matches!(
        &actions[1],
        WorkflowAction::ShowInfo { text, detail: Some(path) } if text == "Workflow /a launched" && path == "/s.js"
    ));
    let actions = launched(WorkflowConsentChoice::Remember, None, true);
    assert!(matches!(&actions[0], WorkflowAction::Fail { text } if text == "Saved workflow digest is unavailable"));
    let actions = launched(WorkflowConsentChoice::Run, None, false);
    assert!(matches!(&actions[0], WorkflowAction::Fail { text } if text == "boom"));
}

fn called(app: &mut App, call: ToolCall, auto_remembered: bool) -> Vec<WorkflowAction> {
    app.handle_workflow_event(WorkflowEvent::ToolCall { call, auto_remembered })
}

#[test]
fn disabled_or_invalid_calls_are_answered_with_a_failure() {
    let mut app = app();
    let mut invalid = call(None);
    invalid.invalid = Some("bad".into());
    assert!(matches!(
        &called(&mut app, invalid, false)[0],
        WorkflowAction::Respond { items, success: false, .. } if items == &vec!["bad".to_string()]
    ));
    app.disable_workflows = true;
    assert!(matches!(
        &called(&mut app, call(None), false)[0],
        WorkflowAction::Respond { items, success: false, .. }
            if items == &vec!["Workflows are disabled by configuration.".to_string()]
    ));
}

#[test]
fn never_and_auto_ultracode_route_directly_to_a_launch() {
    let mut never = app();
    never.never_ask = true;
    assert!(matches!(called(&mut never, call(None), false)[0], WorkflowAction::LaunchCall { .. }));
    let mut auto = app();
    auto.auto_review = true;
    assert!(matches!(called(&mut auto, call(None), false)[0], WorkflowAction::PreviewCall { .. }));
    assert!(matches!(called(&mut auto, call(None), true)[0], WorkflowAction::LaunchCall { .. }));
    auto.ultracode = true;
    assert!(matches!(called(&mut auto, call(None), false)[0], WorkflowAction::LaunchCall { .. }));
    assert!(matches!(called(&mut app(), call(None), true)[0], WorkflowAction::PreviewCall { .. }));
}

#[test]
fn named_call_checks_what_is_saved() {
    let mut app = app();
    assert!(matches!(
        called(&mut app, call(Some("a")), false)[1],
        WorkflowAction::CheckNamed { .. }
    ));
    let listed = |app: &mut App, remembered: bool| {
        app.handle_workflow_event(WorkflowEvent::CallListed {
            call: call(Some("a")),
            name: "a".into(),
            catalog: json(r#"{"workflows":[{"name":"a","digest":"d"}]}"#),
            auto_remembered: false,
            remembered,
        })
    };
    assert!(matches!(listed(&mut app, false)[0], WorkflowAction::PreviewCall { .. }));
    assert!(matches!(listed(&mut app, true)[0], WorkflowAction::LaunchCall { .. }));
}

#[test]
fn cancelled_workflow_answers_tool_without_launch() {
    let actions = app().handle_workflow_event(WorkflowEvent::Consent {
        call: call(None),
        choice: WorkflowConsentChoice::Cancel,
        feedback: Some("later".into()),
        shown: None,
    });
    assert_eq!(actions.len(), 1);
    assert!(matches!(
        &actions[0],
        WorkflowAction::Respond { items, success: false, .. } if items == &vec![
            "Workflow launch cancelled".to_string(),
            "Workflow consent feedback: later".to_string(),
        ]
    ));
}

#[test]
fn launched_call_is_remembered_and_answered() {
    let mut auto = app();
    auto.auto_review = true;
    let actions = auto.handle_workflow_event(WorkflowEvent::CallLaunched {
        call: call(Some("a")),
        choice: WorkflowConsentChoice::Remember,
        feedback: Some("go".into()),
        outcome: Ok(CallLaunch {
            digest: Some("d".into()),
            response: ToolResponse { items: vec!["started".into()], success: true },
        }),
    });
    assert_eq!(actions.len(), 1);
    assert!(matches!(
        &actions[0],
        WorkflowAction::RememberCall { auto_first: true, named: Some(named), .. }
            if named.name == "a" && named.digest == "d"
    ));
    let remembered = |auto: &mut App, stored: Result<(), &str>| {
        auto.handle_workflow_event(WorkflowEvent::CallRemembered {
            request_id: "request".into(),
            response: ToolResponse { items: vec!["started".into()], success: true },
            feedback: Some("go".into()),
            stored: stored.map_err(str::to_owned),
        })
    };
    let actions = remembered(&mut auto, Ok(()));
    assert_eq!(actions.len(), 1);
    assert!(matches!(
        &actions[0],
        WorkflowAction::Respond { request_id, items, success: true }
            if request_id == "request"
                && items == &vec!["started".to_string(), "Workflow consent feedback: go".to_string()]
    ));
    let actions = remembered(&mut auto, Err("disk full"));
    assert_eq!(actions.len(), 1);
    assert!(matches!(
        &actions[0],
        WorkflowAction::Respond { request_id, items, success: false }
            if request_id == "request"
                && items == &vec!["disk full".to_string(), "Workflow consent feedback: go".to_string()]
    ));
    let actions = app().handle_workflow_event(WorkflowEvent::CallLaunched {
        call: call(Some("a")),
        choice: WorkflowConsentChoice::Run,
        feedback: None,
        outcome: Ok(CallLaunch {
            digest: Some("d".into()),
            response: ToolResponse { items: vec!["started".into()], success: true },
        }),
    });
    assert_eq!(actions.len(), 1);
    assert!(matches!(&actions[0], WorkflowAction::Respond { success: true, .. }));
    let actions = app().handle_workflow_event(WorkflowEvent::CallLaunched {
        call: call(None),
        choice: WorkflowConsentChoice::Run,
        feedback: None,
        outcome: Err("boom".into()),
    });
    assert!(matches!(&actions[0], WorkflowAction::Respond { items, success: false, .. } if items == &vec!["boom".to_string()]));
}

#[test]
fn feedback_is_the_last_item() {
    let mut response = failure_response("no");
    append_workflow_feedback(&mut response, None);
    assert_eq!(response.items, vec!["no".to_string()]);
    append_workflow_feedback(&mut response, Some("why".into()));
    assert_eq!(response.items[1], "Workflow consent feedback: why");
    assert!(!response.success);
}

#[test]
fn script_is_shown_without_control_characters() {
    let view = |thread: &str| WorkflowEvent::ViewScript {
        thread_id: thread.into(),
        source: "a\u{1b}b".into(),
    };
    let mut app = app();
    assert!(matches!(&app.handle_workflow_event(view(THREAD))[0], WorkflowAction::ShowSource { text } if text == "ab"));
    assert!(app.handle_workflow_event(view("elsewhere")).is_empty());
}

#[test]
fn opening_needs_a_thread_and_shows_its_effort() {
    let open = |app: &mut App, effort: Option<&str>| {
        app.handle_workflow_event(WorkflowEvent::Open { effort: effort.map(str::to_owned) })
    };
    let mut starting = app();
    starting.thread_id = None;
    assert!(matches!(
        &open(&mut starting, None)[0],
        WorkflowAction::ShowError { text } if text == "Session is still starting; try again shortly."
    ));
    assert!(matches!(&open(&mut starting, Some("high"))[0], WorkflowAction::ApplyEffort { label } if label == "high"));
    let mut first = app();
    assert!(matches!(
        &open(&mut first, Some(""))[1],
        WorkflowAction::ListFirstRuns { effort: Some(effort), .. } if effort == "medium"
    ));
    let mut second = with_session(1, false);
    second.effort = Some("high".into());
    assert!(matches!(
        &open(&mut second, Some(""))[0],
        WorkflowAction::ListRunsToOpen { effort: Some(effort), .. } if effort == "high"
    ));
    second.ultracode = true;
    assert!(matches!(
        &open(&mut second, Some(""))[0],
        WorkflowAction::ListRunsToOpen { effort: Some(effort), .. } if effort == "ultracode"
    ));
    assert!(matches!(open(&mut second, None)[0], WorkflowAction::ListRunsToOpen { effort: None, .. }));
}

#[test]
fn ready_runs_open_a_session_and_note_activity() {
    let mut app = app();
    app.handle_workflow_event(WorkflowEvent::Ready {
        thread_id: THREAD.into(),
        peer: 5,
        supervised: true,
        effort: None,
        snapshot: json(r#"{"runs":[{"status":"completed"},{"status":"running"}]}"#),
    });
    let session = app.workflow_sessions.get(THREAD).unwrap();
    assert!(session.supervised && session.active_runs && session.peer == 5);
    let actions = app.handle_workflow_event(WorkflowEvent::Snapshot {
        peer: 5,
        snapshot: json(r#"{"runs":[{"status":"interrupted"}]}"#),
    });
    assert_eq!(actions.len(), 3);
    assert!(!app.workflow_sessions.get(THREAD).unwrap().active_runs);
    let actions =
        app.handle_workflow_event(WorkflowEvent::Snapshot { peer: 6, snapshot: json("{}") });
    assert_eq!(actions.len(), 1);
    assert!(matches!(app.handle_workflow_event(WorkflowEvent::Refresh)[0], WorkflowAction::ListRuns { peer: 5 }));
    assert!(matches!(
        &app.handle_workflow_event(WorkflowEvent::ReadyFailed { error: "gone".into() })[0],
        WorkflowAction::ShowError { text } if text == "Unable to open workflows: gone"
    ));
    assert!(matches!(
        &app.handle_workflow_event(WorkflowEvent::SnapshotFailed { error: "gone".into() })[0],
        WorkflowAction::ShowError { text } if text == "Unable to refresh workflows: gone"
    ));
}

fn changed(app: &mut App, state: &str) -> Vec<WorkflowAction> {
    app.handle_workflow_event(WorkflowEvent::RunChanged {
        peer: 1,
        run_id: "run".into(),
        state: Some(json(state)),
    })
}

#[test]
fn end_of_a_run_is_told_once_for_each_attempt() {
    let ended = r#"{"status":"failed","error":"boom"}"#;
    let mut app = with_session(1, false);
    assert_eq!(changed(&mut app, r#"{"status":"running"}"#).len(), 1);
    let actions = changed(&mut app, ended);
    assert!(matches!(
        &actions[1],
        WorkflowAction::ShowInfo { text, detail: Some(detail) } if text == "Workflow run failed" && detail == "boom"
    ));
    assert!(matches!(
        &actions[2],
        WorkflowAction::InjectCompletion { attempt: 1, summary, .. } if summary
            == "workflow run attempt 1 finished with status failed. scriptPath=null transcriptDir=null Consolidated result: \"boom\""
    ));
    app.handle_workflow_event(WorkflowEvent::RunReported {
        session: THREAD.into(),
        run_id: "run".into(),
        attempt: 1,
    });
    assert_eq!(changed(&mut app, ended).len(), 1);
    assert_eq!(changed(&mut app, r#"{"status":"failed","attempt":2}"#).len(), 3);
    assert_eq!(changed(&mut with_session(1, true), ended).len(), 1);
    assert_eq!(changed(&mut with_session(2, false), ended).len(), 0);
}

#[test]
fn saved_workflow_is_told_and_reloads_the_catalog() {
    let mut app = with_session(1, false);
    let actions = app.handle_workflow_event(WorkflowEvent::SaveCompleted {
        thread_id: THREAD.into(),
        saved: Ok("/saved.js".into()),
    });
    assert!(matches!(&actions[0], WorkflowAction::ShowInfo { text, .. } if text == "Workflow saved"));
    assert!(matches!(&actions[1], WorkflowAction::QueueLoad { thread_id } if thread_id == THREAD));
    assert!(matches!(actions[2], WorkflowAction::QueueRefresh));
    assert_eq!(actions.len(), 3);
    let actions = app.handle_workflow_event(WorkflowEvent::SaveCompleted {
        thread_id: THREAD.into(),
        saved: Err("denied".into()),
    });
    assert!(matches!(&actions[0], WorkflowAction::ShowError { text } if text == "denied"));
    assert_eq!(actions.len(), 1);
}

fn requested(app: &mut App, method: &str, params: &str) -> WorkflowAction {
    app.handle_workflow_event(WorkflowEvent::HostRequest {
        peer: 1,
        id: "id".into(),
        method: method.into(),
        params: json(params),
    })
    .remove(0)
}

#[test]
fn requests_of_a_process_are_routed() {
    let mut app = with_session(1, false);
    assert!(matches!(requested(&mut app, "supervisor.workflow", "{}"), WorkflowAction::ForwardToolCall { .. }));
    assert!(matches!(requested(&mut app, "supervisor.request", "{}"), WorkflowAction::ForwardRequest { .. }));
    assert!(matches!(requested(&mut app, "worker.start", "{}"), WorkflowAction::StartWorker { parent, .. } if parent == THREAD));
    assert!(matches!(requested(&mut app, "workspace.prepare", "{}"), WorkflowAction::PrepareWorkspace { .. }));
    assert!(matches!(requested(&mut app, "workspace.release", "{}"), WorkflowAction::ReleaseWorkspace { .. }));
    let target = format!(r#"{{"threadId":"{THREAD}","turnId":"turn"}}"#);
    assert!(matches!(
        requested(&mut app, "worker.interrupt", &target),
        WorkflowAction::InterruptWorker { turn, .. } if turn == "turn"
    ));
    for (method, params, message) in [
        ("worker.interrupt", r#"{"threadId":"x","turnId":"turn"}"#, "invalid worker interrupt request"),
        ("worker.interrupt", "{}", "invalid worker interrupt request"),
        ("other", "{}", "unknown native host request: other"),
    ] {
        assert!(matches!(
            requested(&mut app, method, params),
            WorkflowAction::Refuse { error, .. } if error.message == message && error.code == "HOST_ERROR"
        ));
    }
    let mut orphan = with_session(2, false);
    assert!(matches!(
        requested(&mut orphan, "worker.start", "{}"),
        WorkflowAction::Refuse { error, .. } if error.message == "parent workflow session is unavailable"
    ));
}

#[test]
fn process_of_an_opened_session_is_known() {
    let mut app = app();
    app.handle_workflow_event(WorkflowEvent::LoadCatalog { thread_id: THREAD.into() });
    let opened = |app: &mut App, peer: u64| {
        app.handle_workflow_event(WorkflowEvent::SessionOpened {
            thread_id: THREAD.into(),
            peer,
            supervised: false,
        })
    };
    assert!(opened(&mut app, 1).is_empty());
    app.handle_workflow_event(WorkflowEvent::CatalogLoaded {
        thread_id: THREAD.into(),
        peer: 1,
        catalog: json("{}"),
    });
    let session = app.workflow_sessions.get(THREAD).unwrap();
    assert!(session.peer == 1 && !session.supervised && !session.active_runs);
    assert!(matches!(
        requested(&mut app, "worker.start", "{}"),
        WorkflowAction::StartWorker { parent, .. } if parent == THREAD
    ));
    assert!(matches!(
        changed(&mut app, r#"{"status":"completed","result":"done"}"#)[2],
        WorkflowAction::InjectCompletion { .. }
    ));
    opened(&mut app, 2);
    assert_eq!(app.workflow_sessions.get(THREAD).unwrap().peer, 1);
}

fn start() -> WorkerStart {
    WorkerStart {
        id: "id".into(),
        run_id: "run".into(),
        worker_id: "worker".into(),
        structured: false,
    }
}

fn started() -> StartedWorker {
    StartedWorker {
        thread_id: "worker-thread".into(),
        turn_id: "turn".into(),
        model: "model".into(),
        effort: json(r#""low""#),
    }
}

#[test]
fn started_worker_is_followed_until_its_turn_ends() {
    let mut app = with_session(1, false);
    let actions = app.handle_workflow_event(WorkflowEvent::WorkerStartEnded {
        peer: 1,
        start: start(),
        started: Ok(started()),
    });
    assert!(actions.is_empty());
    let delta = || {
        ThreadNotification::Running(WorkerNotification::MessageDelta { delta: "hi".into() })
    };
    assert!(matches!(
        app.handle_workflow_notification("worker-thread", delta()),
        NotificationEffect::Updated { session } if session == THREAD
    ));
    assert!(matches!(
        app.handle_workflow_notification("nobody", delta()),
        NotificationEffect::Nobody
    ));
    let end = || {
        ThreadNotification::TurnCompleted(TurnEnd {
            items: Vec::new(),
            status: TurnStatus::Completed,
            error: None,
        })
    };
    match app.handle_workflow_notification("worker-thread", end()) {
        NotificationEffect::Finished { session, worker } => {
            assert_eq!(session, THREAD);
            assert_eq!(worker.request_id, "id");
            assert_eq!(worker.result.unwrap().output, json(r#""hi""#));
            assert_eq!(
                worker.note,
                Some(("Workflow worker worker finished".to_string(), "Run run · completed".to_string()))
            );
        }
        other => panic!("{other:?}"),
    }
    assert!(matches!(
        app.handle_workflow_notification("worker-thread", end()),
        NotificationEffect::Nobody
    ));
}

#[test]
fn worker_that_does_not_start_is_refused_by_kind() {
    let ended = |app: &mut App, code: Option<i64>| {
        app.handle_workflow_event(WorkflowEvent::WorkerStartEnded {
            peer: 1,
            start: start(),
            started: Err(StartRefusal { server_code: code, message: "no".into() }),
        })
        .remove(0)
    };
    let mut app = with_session(1, false);
    for code in [-32600, -32602] {
        assert!(matches!(
            ended(&mut app, Some(code)),
            WorkflowAction::Refuse { error, .. } if error.code == "INVALID_WORKER_CONFIGURATION"
        ));
    }
    for code in [Some(-32603), None] {
        assert!(matches!(ended(&mut app, code), WorkflowAction::Refuse { error, .. } if error.code == "HOST_ERROR"));
    }
    let actions = app.handle_workflow_event(WorkflowEvent::WorkerStartInvalid {
        peer: 1,
        id: "id".into(),
        error: "missing field".into(),
    });
    assert!(matches!(
        &actions[0],
        WorkflowAction::Refuse { error, .. } if error.message == "invalid worker start request: missing field"
    ));
    let actions = app.handle_workflow_event(WorkflowEvent::WorkerStartEnded {
        peer: 9,
        start: start(),
        started: Ok(started()),
    });
    assert!(matches!(&actions[0], WorkflowAction::Refuse { error, .. } if error.message == "parent workflow session is unavailable"));
}

#[test]
fn worker_is_started_for_the_parent_of_its_session() {
    let asked = json(
        r#"{"runId":"run","parentThreadId":"other","roleDigest":"old","workspace":{"roleDigest":"new"}}"#,
    );
    assert_eq!(
        worker_start_params(asked, THREAD),
        json(&format!(
            r#"{{"runId":"run","parentThreadId":"{THREAD}","roleDigest":"new","workspace":{{"roleDigest":"new"}}}}"#
        ))
    );
    assert_eq!(
        worker_start_params(json("null"), "p"),
        json(r#"{"parentThreadId":"p","roleDigest":null}"#)
    );
}

#[test]
fn edited_source_is_validated_only_where_it_must_be() {
    let mut app = app();
    assert!(app.handle_workflow_event(WorkflowEvent::EditWorkflowSource).is_empty());
    let args = Some("deep".to_owned());
    app.show_saved_workflow_consent(THREAD.into(), "a".into(), args, preview(Some("id")));
    assert!(matches!(
        &app.handle_workflow_event(WorkflowEvent::EditWorkflowSource)[0],
        WorkflowAction::EditSource { text } if text == "return 1;"
    ));
    let closed = |app: &mut App, source: Result<&str, &str>| {
        app.handle_workflow_event(WorkflowEvent::EditorClosed {
            typed: WorkflowConsentFeedback::new(),
            edited: source.map(str::to_owned).map_err(str::to_owned),
        })
    };
    assert!(matches!(closed(&mut app, Ok("return 1;"))[0], WorkflowAction::Redraw));
    assert!(matches!(
        &closed(&mut app, Ok("return 2;"))[0],
        WorkflowAction::BindEdited {
            thread_id,
            edited: EditedSource::Run { source: LaunchSource::Saved { name }, args },
            text,
        } if thread_id == THREAD
            && name == "a"
            && args.as_deref() == Some("deep")
            && text == "return 2;"
    ));
    assert!(matches!(
        &closed(&mut app, Err("no editor"))[0],
        WorkflowAction::ShowError { text } if text == "Failed to edit workflow: no editor"
    ));
    app.consent.as_mut().unwrap().preview.validation_error = Some("bad".into());
    assert!(matches!(closed(&mut app, Ok("return 1;"))[0], WorkflowAction::BindEdited { .. }));
    app.consent.as_mut().unwrap().preview.workflow_id = None;
    assert!(matches!(
        &closed(&mut app, Ok("return 3;"))[0],
        WorkflowAction::BindEdited {
            edited: EditedSource::Run { source: LaunchSource::Script { source }, args },
            ..
        } if source == "return 1;" && args.as_deref() == Some("deep")
    ));
    app.show_workflow_consent("request".into(), THREAD.into(), None, true, preview(None));
    assert!(matches!(
        &closed(&mut app, Ok("return 3;"))[0],
        WorkflowAction::BindEdited { thread_id, edited: EditedSource::Call { request_id }, text }
            if thread_id == THREAD && request_id == "request" && text == "return 3;"
    ));
}

#[test]
fn bound_edit_replaces_what_is_asked_about() {
    let mut app = app();
    let name = Some("a".to_owned());
    app.show_workflow_consent("request".into(), THREAD.into(), name, false, preview(Some("id")));
    let bound = |app: &mut App, bound: Result<BoundEdit, String>| {
        app.handle_workflow_event(WorkflowEvent::EditBound {
            typed: WorkflowConsentFeedback::new(),
            bound,
        })
    };
    let actions = bound(&mut app, Err("changed".into()));
    assert!(matches!(&actions[0], WorkflowAction::ShowError { text } if text == "Failed to bind edited workflow: changed"));
    assert_eq!(app.consent.as_ref().unwrap().preview.workflow_id, Some("id".to_string()));
    let mut edited = preview(None);
    edited.source = "return 2;".into();
    bound(&mut app, Ok(BoundEdit { workflow_name: None, inline: true, preview: edited }));
    let view = app.consent.as_ref().unwrap();
    assert_eq!(view.preview.source, "return 2;");
    assert!(matches!(
        &view.context,
        WorkflowConsentContext::Dynamic { request_id, workflow_name: None, inline: true, .. } if request_id == "request"
    ));
    assert_eq!(view.mode, WorkflowPreviewMode::Summary);
}

fn presets() -> Vec<ModelPreset> {
    vec![ModelPreset {
        model: "model".into(),
        efforts: vec![ReasoningEffort::Low, ReasoningEffort::XHigh],
    }]
}

#[test]
fn efforts_are_checked_before_they_are_set() {
    let mut app = app();
    assert_eq!(
        app.check_effort("huge", &presets(), "model").unwrap_err(),
        "Expected effort low, medium, high, xhigh, max, or ultracode"
    );
    assert_eq!(
        app.check_effort("max", &presets(), "model").unwrap_err(),
        "Model model does not support max effort"
    );
    assert!(app.check_effort("low", &presets(), "other").is_err());
    app.disable_workflows = true;
    assert_eq!(
        app.check_effort("ultracode", &presets(), "model").unwrap_err(),
        "Workflows are disabled by configuration"
    );
    app.disable_workflows = false;
    app.thread_id = None;
    assert_eq!(
        app.check_effort("low", &presets(), "model").unwrap_err(),
        "Parent session is unavailable"
    );
    for (label, effort) in [
        ("low", ReasoningEffort::Low),
        ("medium", ReasoningEffort::Medium),
        ("high", ReasoningEffort::High),
        ("xhigh", ReasoningEffort::XHigh),
        ("max", ReasoningEffort::Max),
        ("ultracode", ReasoningEffort::XHigh),
    ] {
        assert_eq!(parse_effort(label), Some(effort));
    }
}

#[test]
fn effort_holds_once_the_server_took_it() {
    let mut app = app();
    let change = app.check_effort("ultracode", &presets(), "model").unwrap();
    assert_eq!(
        app.apply_workflow_effort(change, false).unwrap_err(),
        "Native backend does not support updating parent effort"
    );
    assert_eq!((app.ultracode, app.effort.clone()), (false, None));
    app.apply_workflow_effort(change, true).unwrap();
    assert_eq!((app.ultracode, app.effort.clone()), (true, Some("xhigh".to_string())));
    assert!(!saves_default(&change));
    assert!(matches!(
        effort_note("ultracode", &change, None),
        EffortNote::Info { detail: Some(detail), .. } if detail == "Session only: xhigh with workflow orchestration"
    ));
    let low = app.check_effort("low", &presets(), "model").unwrap();
    assert!(saves_default(&low));
    assert!(matches!(
        effort_note("low", &low, Some("disk")),
        EffortNote::Warning { text } if text
            == "Effort set to low for this session, but the default could not be saved: disk"
    ));
    assert!(matches!(
        effort_note("low", &low, None),
        EffortNote::Info { text, detail: None } if text == "Effort set to low"
    ));
}
