//! Tests of starting, steering and interrupting turns, and of the settings of threads.
use ultracode_workflow::agent::{
    after_listener_wait, agent_request, agent_turn, check_agent_start, AgentError, ListenerWait,
    StartIfIdleSubmission, LISTENER_SECONDS,
};
use ultracode_workflow::approvals::Approvals;
use ultracode_workflow::error::{
    ErrorData, NonSteerableTurnKind, INTERNAL_ERROR, INVALID_PARAMS, INVALID_REQUEST,
};
use ultracode_workflow::failure::{failure_error, injection_error, no_filesystem, Failure};
use ultracode_workflow::ids::ThreadId;
use ultracode_workflow::path::AbsolutePath;
use ultracode_workflow::realtime::{
    realtime_error, realtime_start, ConversationText, HandoffMode, RealtimeOperation, RealtimeTransport,
    ThreadRealtimeStartParams,
};
use ultracode_workflow::review::{
    build_review_turn, clean_review_target, detached_review_prompt, review_model, review_notice,
    review_target_prompt, ReviewDelivery, ReviewTarget,
};
use ultracode_workflow::settings::{
    build_environment_override, build_thread_settings_overrides, has_any_overrides,
    normalize_collaboration_mode, submits_settings, CollaborationMode, CollaborationPreset,
    EnvironmentOverride, EnvironmentSelection, LoadedPermissions, ResolvedPermissions,
    ThreadSettingsBuildParams,
};
use ultracode_workflow::turn::{
    begin_interrupt, check_injected_items, check_steer_request, check_turn_input, finish_interrupt,
    parse_thread_id, starts_memories, steer_submission, thread_not_found, turn_settings_status,
    turn_submission, validate_response_item_image_urls, validate_user_input_image_urls,
    validate_v2_input_limit, xcode_26_4_mcp_elicitations_auto_deny, ContentPart, RequestKey,
    ResponseItem, StartedTurn, SteerError, SteerErrorKind, SubmitError, ToolOutput, ToolOutputBody,
    TurnSettingsUpdateOutcome, TurnSettingsUpdateStatus, TurnState, UserInput,
};
use ultracode_workflow::turn_flow::{after_turn_step, AfterTurnStep, TurnStep};
use ultracode_workflow::registry::Registry;
use ultracode_workflow::turn_request::{
    check_tool_output_images, map_additional_context, turn_start_request, turn_steer_request,
    ContextEntry, ContextKind, TurnInput, TurnStartParams, TurnSteerParams,
};
use ultracode_workflow::turn_input::{NotSubmittedReason, SteerSubmission, TurnInputSubmission};

fn path(value: &str) -> AbsolutePath {
    AbsolutePath::parse(value).expect("absolute test path")
}

fn null() -> serde_json::Value {
    serde_json::Value::Null
}

fn image(remote: bool) -> UserInput {
    UserInput::InlineImage { url: "https://example.invalid/a.png".to_owned(), remote }
}

fn text(value: &str) -> UserInput {
    UserInput::Text(value.to_owned())
}

#[test]
fn images_from_elsewhere_are_rejected() {
    let local = vec![text("look"), image(false), UserInput::Other(null())];
    assert!(validate_user_input_image_urls(&local, "no remote images").is_ok());
    let remote = vec![text("look"), image(true)];
    let error = validate_user_input_image_urls(&remote, "no remote images").unwrap_err();
    assert_eq!((error.code, error.message.as_str()), (INVALID_REQUEST, "no remote images"));

    let parts = || vec![
        ContentPart::Other(null()),
        ContentPart::InlineImage { url: "u".to_owned(), remote: true },
    ];
    for items in [
        vec![ResponseItem::Other, ResponseItem::Message(parts())],
        vec![ResponseItem::ToolOutput(Some(parts()))],
    ] {
        assert!(validate_response_item_image_urls(&items, "no remote images").is_err());
    }
    let items = vec![
        ResponseItem::Message(vec![ContentPart::Text("x".to_owned())]),
        ResponseItem::ToolOutput(None),
    ];
    assert!(validate_response_item_image_urls(&items, "no remote images").is_ok());
}

#[test]
fn threads_are_found_by_their_identity() {
    let id = "019b1a2b-3c4d-7e5f-8a6b-0123456789ab";
    assert_eq!(parse_thread_id(id).expect("thread identity").to_text(), id);
    assert!(parse_thread_id("thread").unwrap_err().message.starts_with("invalid thread id: "));
    assert_eq!(
        thread_not_found(ThreadId { value: 1 }).message,
        "thread not found: 00000000-0000-0000-0000-000000000001"
    );
}

#[test]
fn one_release_of_xcode_denies_elicitations() {
    assert!(xcode_26_4_mcp_elicitations_auto_deny(Some("Xcode"), Some("26.4.1")));
    assert!(!xcode_26_4_mcp_elicitations_auto_deny(Some("Xcode"), Some("26.5")));
    assert!(!xcode_26_4_mcp_elicitations_auto_deny(Some("VSCode"), Some("26.4")));
    assert!(!xcode_26_4_mcp_elicitations_auto_deny(None, None));
}

#[test]
fn input_is_bounded_by_characters() {
    let input = vec![text("né"), UserInput::Other(null()), text("abc")];
    assert!(validate_v2_input_limit(&input, 5).is_ok());
    let error = validate_v2_input_limit(&input, 4).unwrap_err();
    assert_eq!(error.code, INVALID_PARAMS);
    assert_eq!(error.message, "Input exceeds the maximum length of 4 characters.");
    assert_eq!(error.data, Some(ErrorData::InputTooLarge { max_chars: 4, actual_chars: 5 }));
}

#[test]
fn output_of_a_tool_stands_alone() {
    let output = |name: &str, body: ToolOutputBody| {
        Some(ToolOutput { name: name.to_owned(), namespace: None, output: body })
    };
    let plain = output("tool", ToolOutputBody::Text("abcd".to_owned()));
    assert!(check_turn_input(&vec![], &plain, 4).is_ok());
    assert_eq!(
        check_turn_input(&vec![], &plain, 3).unwrap_err().data,
        Some(ErrorData::InputTooLarge { max_chars: 3, actual_chars: 4 })
    );
    let parts = output(
        "tool",
        ToolOutputBody::Parts(vec![ContentPart::Text("ab".to_owned()), ContentPart::Other(null())]),
    );
    assert!(check_turn_input(&vec![], &parts, 2).is_ok());
    assert_eq!(
        check_turn_input(&vec![text("a")], &plain, 9).unwrap_err().message,
        "`toolOutput` cannot be combined with nonempty `input`"
    );
    assert_eq!(
        check_turn_input(&vec![], &output("", ToolOutputBody::Text(String::new())), 9)
            .unwrap_err()
            .message,
        "`toolOutput.name` must not be empty"
    );
}

#[test]
fn submitted_turn_is_started_or_steered() {
    let id = || "turn".to_owned();
    let started = turn_submission(Ok(TurnInputSubmission::Started { turn_id: id() }))
        .expect("started turn");
    assert!(started.started && started.turn_id == "turn");
    let steered = turn_submission(Ok(TurnInputSubmission::Steered { turn_id: id() }))
        .expect("steered turn");
    assert!(!steered.started);
    let refused = |reason| turn_submission(Ok(TurnInputSubmission::NotSubmitted { reason }));
    assert!(matches!(
        refused(NotSubmittedReason::ServerDraining),
        Err(SubmitError::Draining)
    ));
    let mismatch = NotSubmittedReason::ExpectedTurnMismatch {
        expected: "a\"b".to_owned(),
        actual: "c".to_owned(),
    };
    match refused(mismatch) {
        Err(SubmitError::Rpc(error)) => assert_eq!(
            (error.code, error.message.as_str()),
            (
                INTERNAL_ERROR,
                "failed to submit turn input: ExpectedTurnMismatch { expected: \"a\\\"b\", actual: \"c\" }"
            )
        ),
        other => panic!("unexpected {other:?}"),
    }
    match turn_submission(Err("gone".to_owned())) {
        Err(SubmitError::Rpc(error)) => {
            assert_eq!(error.message, "failed to submit turn input: gone");
        }
        other => panic!("unexpected {other:?}"),
    }
}

#[test]
fn reasons_are_told_by_name() {
    for (reason, told) in [
        (NotSubmittedReason::ServerDraining, "ServerDraining"),
        (NotSubmittedReason::NoActiveTurn, "NoActiveTurn"),
        (NotSubmittedReason::NotIdle, "NotIdle"),
        (
            NotSubmittedReason::ActiveTurnNotSteerable { turn_kind: NonSteerableTurnKind::Review },
            "ActiveTurnNotSteerable { turn_kind: Review }",
        ),
        (NotSubmittedReason::EmptyInput, "EmptyInput"),
        (NotSubmittedReason::ActiveTurnOutputSchemaMismatch, "ActiveTurnOutputSchemaMismatch"),
        (NotSubmittedReason::PendingTriggerTurn, "PendingTriggerTurn"),
        (NotSubmittedReason::PlanMode, "PlanMode"),
    ] {
        assert_eq!(reason.text(), told);
    }
}

#[test]
fn memories_follow_a_started_turn_with_input() {
    let turn = |started| StartedTurn { turn_id: "turn".to_owned(), started };
    assert!(starts_memories(true, &turn(true), true));
    assert!(!starts_memories(false, &turn(true), true));
    assert!(!starts_memories(true, &turn(false), true));
    assert!(!starts_memories(true, &turn(true), false));
}

#[test]
fn steering_needs_the_expected_turn_and_bounded_input() {
    assert!(check_steer_request("turn", &vec![text("ab")], 2).is_ok());
    assert_eq!(
        check_steer_request("", &vec![text("abc")], 2).unwrap_err().message,
        "expectedTurnId must not be empty"
    );
    assert_eq!(
        check_steer_request("turn", &vec![text("abc")], 2).unwrap_err().code,
        INVALID_PARAMS
    );
}

#[test]
fn refused_steering_tells_why() {
    let refused = |reason| steer_submission(Ok(SteerSubmission::NotSubmitted { reason }));
    assert_eq!(
        steer_submission(Ok(SteerSubmission::Steered { turn_id: "turn".to_owned() })).ok(),
        Some("turn".to_owned())
    );
    assert!(matches!(
        refused(NotSubmittedReason::ServerDraining),
        Err(SteerError::Draining)
    ));
    let not_steerable =
        |turn_kind| NotSubmittedReason::ActiveTurnNotSteerable { turn_kind };
    for (reason, told, counted) in [
        (NotSubmittedReason::NoActiveTurn, "no active turn to steer", SteerErrorKind::NoActiveTurn),
        (NotSubmittedReason::PlanMode, "no active turn to steer", SteerErrorKind::NoActiveTurn),
        (
            NotSubmittedReason::ExpectedTurnMismatch {
                expected: "a".to_owned(),
                actual: "b".to_owned(),
            },
            "expected active turn id `a` but found `b`",
            SteerErrorKind::ExpectedTurnMismatch,
        ),
        (
            not_steerable(NonSteerableTurnKind::Compact),
            "cannot steer a compact turn",
            SteerErrorKind::NonSteerableCompact,
        ),
        (
            not_steerable(NonSteerableTurnKind::Review),
            "cannot steer a review turn",
            SteerErrorKind::NonSteerableReview,
        ),
        (NotSubmittedReason::EmptyInput, "input must not be empty", SteerErrorKind::EmptyInput),
        (
            NotSubmittedReason::ActiveTurnOutputSchemaMismatch,
            "active turn uses a different output schema",
            SteerErrorKind::Uncounted,
        ),
    ] {
        let review = matches!(
            reason,
            NotSubmittedReason::ActiveTurnNotSteerable { turn_kind: NonSteerableTurnKind::Review }
        );
        match refused(reason) {
            Err(SteerError::Rejected { error, kind }) => {
                assert_eq!((error.code, error.message.as_str()), (INVALID_REQUEST, told));
                assert_eq!(kind, counted);
                if review {
                    assert_eq!(
                        error.data,
                        Some(ErrorData::ActiveTurnNotSteerable(NonSteerableTurnKind::Review))
                    );
                }
            }
            other => panic!("unexpected {other:?}"),
        }
    }
    match steer_submission(Err("gone".to_owned())) {
        Err(SteerError::Rejected { error, .. }) => {
            assert_eq!((error.code, error.message.as_str()), (INTERNAL_ERROR, "failed to steer turn: gone"));
        }
        other => panic!("unexpected {other:?}"),
    }
}

#[test]
fn input_is_submitted_after_its_checks() {
    let mut taken = vec![TurnStep::Images];
    loop {
        match after_turn_step(false, taken[taken.len() - 1], true) {
            AfterTurnStep::Step(step) => taken.push(step),
            AfterTurnStep::Done => break,
            AfterTurnStep::Fail => panic!("every step succeeds"),
        }
    }
    assert_eq!(taken.len(), 11);
    assert_eq!(taken[10], TurnStep::Submit);
    assert_eq!(
        after_turn_step(true, TurnStep::Input, true),
        AfterTurnStep::Step(TurnStep::Submit)
    );
    assert_eq!(after_turn_step(false, TurnStep::Settings, false), AfterTurnStep::Fail);
}

fn running(active: Option<&str>) -> TurnState {
    TurnState {
        active_turn: active.map(str::to_owned),
        last_terminal_turn: Some("last".to_owned()),
        is_running: true,
        pending_interrupts: vec![],
    }
}

#[test]
fn only_the_active_turn_is_interrupted() {
    let request = RequestKey { connection_id: 1, request_id: 2 };
    let mut state = running(Some("turn"));
    assert_eq!(
        begin_interrupt(&mut state, "other", request).unwrap_err().message,
        "expected active turn id other but found turn"
    );
    assert!(begin_interrupt(&mut state, "turn", request).is_ok());
    assert_eq!(state.pending_interrupts, vec![request]);
    let mut idle = running(None);
    assert_eq!(
        begin_interrupt(&mut idle, "last", request).unwrap_err().message,
        "no active turn to interrupt"
    );
    assert!(begin_interrupt(&mut idle, "next", request).is_ok());
    idle.is_running = false;
    assert!(begin_interrupt(&mut idle, "next", request).is_err());
    // Without a turn it is the start-up that is interrupted.
    assert!(begin_interrupt(&mut idle, "", request).is_ok());
    assert_eq!(idle.pending_interrupts.len(), 1);
}

#[test]
fn failed_interrupt_is_withdrawn() {
    let request = RequestKey { connection_id: 1, request_id: 2 };
    let other = RequestKey { connection_id: 1, request_id: 3 };
    let mut state = running(Some("turn"));
    assert!(begin_interrupt(&mut state, "turn", other).is_ok());
    assert!(begin_interrupt(&mut state, "turn", request).is_ok());
    let error = finish_interrupt(&mut state, "turn", request, Err("gone".to_owned())).unwrap_err();
    assert_eq!((error.code, error.message.as_str()), (INTERNAL_ERROR, "failed to interrupt turn: gone"));
    assert_eq!(state.pending_interrupts, vec![other]);
    assert_eq!(finish_interrupt(&mut state, "turn", other, Ok(())).ok(), Some(false));
    assert_eq!(finish_interrupt(&mut state, "", other, Ok(())).ok(), Some(true));
    assert_eq!(
        finish_interrupt(&mut state, "", other, Err("gone".to_owned())).unwrap_err().message,
        "failed to interrupt startup: gone"
    );
    assert_eq!(state.pending_interrupts, vec![other]);
}

#[test]
fn settings_of_a_turn_are_applied_or_rejected() {
    assert_eq!(
        turn_settings_status(Some(TurnSettingsUpdateOutcome::Applied)).ok(),
        Some(TurnSettingsUpdateStatus::Applied)
    );
    assert_eq!(
        turn_settings_status(Some(TurnSettingsUpdateOutcome::TargetUnavailable)).ok(),
        Some(TurnSettingsUpdateStatus::TargetUnavailable)
    );
    let rejected = TurnSettingsUpdateOutcome::Rejected { reason: "no such model".to_owned() };
    assert_eq!(turn_settings_status(Some(rejected)).unwrap_err().message, "no such model");
    assert_eq!(
        turn_settings_status(None).unwrap_err().message,
        "turn settings operation ended before replying"
    );
}

#[test]
fn first_unreadable_item_is_named() {
    assert!(check_injected_items(&vec![Ok(()), Ok(())]).is_ok());
    let items = vec![Ok(()), Err("missing field".to_owned()), Err("later".to_owned())];
    assert_eq!(
        check_injected_items(&items).unwrap_err().message,
        "items[1] is not a valid response item: missing field"
    );
}

fn selection(is_local: bool, cwd: Option<&str>) -> EnvironmentSelection {
    EnvironmentSelection {
        environment_id: "environment".to_owned(),
        is_local,
        cwd: cwd.map(path),
    }
}

#[test]
fn environments_change_only_where_asked() {
    let thread = path("/thread");
    assert!(matches!(
        build_environment_override(None, None, None, &thread, vec![]),
        EnvironmentOverride::Unchanged
    ));
    match build_environment_override(Some(path("/new")), None, None, &thread, vec![path("/root")]) {
        EnvironmentOverride::Default { fallback_cwd, roots } => {
            assert_eq!(fallback_cwd.text(), "/new");
            assert_eq!(roots[0].text(), "/root");
        }
        other => panic!("unexpected {other:?}"),
    }
    match build_environment_override(None, Some(vec![path("/given")]), None, &thread, vec![]) {
        EnvironmentOverride::Default { fallback_cwd, roots } => {
            assert_eq!((fallback_cwd.text(), roots[0].text()), ("/thread".into(), "/given".into()));
        }
        other => panic!("unexpected {other:?}"),
    }
    let cwd_of = |cwd: Option<AbsolutePath>, selections| {
        match build_environment_override(cwd, None, Some(selections), &thread, vec![]) {
            EnvironmentOverride::Selected { fallback_cwd, .. } => fallback_cwd.text(),
            other => panic!("unexpected {other:?}"),
        }
    };
    let local = || vec![selection(false, Some("/far")), selection(true, Some("/near"))];
    assert_eq!(cwd_of(None, local()), "/near");
    assert_eq!(cwd_of(Some(path("/asked")), local()), "/asked");
    assert_eq!(cwd_of(None, vec![selection(true, None)]), "/thread");
    assert_eq!(cwd_of(None, vec![selection(false, Some("/far"))]), "/thread");
}

fn mode(instructions: Option<&str>) -> CollaborationMode {
    CollaborationMode {
        mode: "plan".to_owned(),
        model: "gpt-test".to_owned(),
        effort: None,
        developer_instructions: instructions.map(str::to_owned),
    }
}

fn preset(mode: &str, instructions: &str) -> CollaborationPreset {
    CollaborationPreset {
        mode: Some(mode.to_owned()),
        developer_instructions: Some(instructions.to_owned()),
    }
}

#[test]
fn mode_without_instructions_takes_those_of_its_preset() {
    let presets = vec![preset("default", "go"), preset("plan", "think"), preset("plan", "later")];
    let instructions = |mode, presets: &Vec<CollaborationPreset>| {
        normalize_collaboration_mode(mode, presets).developer_instructions
    };
    assert_eq!(instructions(mode(None), &presets).as_deref(), Some("think"));
    assert_eq!(instructions(mode(Some("own")), &presets).as_deref(), Some("own"));
    assert_eq!(instructions(mode(None), &vec![preset("plan", "")]), None);
    assert_eq!(instructions(mode(None), &vec![]), None);
}

fn turn_params(tool_output: Option<ToolOutput>) -> TurnStartParams {
    let mut context = Registry::new();
    context.insert(
        "page".to_owned(),
        ContextEntry { value: "seen".to_owned(), kind: ContextKind::Untrusted },
    );
    TurnStartParams {
        input: if tool_output.is_some() { Vec::new() } else { vec![text("hi"), image(false)] },
        tool_output,
        client_user_message_id: Some("client".to_owned()),
        additional_context: Some(context),
        turn_trigger: Some("trigger".to_owned()),
        output_schema: Some(null()),
        service_tier_for_turn: Some("fast".to_owned()),
        cyber_access_program: Some("program".to_owned()),
        responsesapi_client_metadata: None,
    }
}

#[test]
fn turn_is_handed_what_was_asked_for() {
    let settings =
        || build_thread_settings_overrides("turn/start", no_settings(), &vec![], None).unwrap();
    let request = turn_start_request(turn_params(None), settings());
    match &request.input {
        TurnInput::UserInput { content, client_id } => {
            assert!(matches!(&content[0], UserInput::Text(text) if text == "hi"));
            assert_eq!(content.len(), 2);
            assert_eq!(client_id.as_deref(), Some("client"));
        }
        other => panic!("{other:?}"),
    }
    let options = request.on_start.as_ref().expect("options of a start");
    assert_eq!(options.turn_trigger.as_deref(), Some("trigger"));
    assert_eq!(options.final_output_json_schema, Some(null()));
    assert_eq!(options.service_tier.as_deref(), Some("fast"));
    assert_eq!(options.cyber_access_program.as_deref(), Some("program"));
    let entry = request.additional_context.get("page").expect("context");
    assert_eq!((entry.value.as_str(), entry.kind), ("seen", ContextKind::Untrusted));
    assert!(request.thread_settings.is_some() && request.responses_metadata.is_none());

    let output = ToolOutput {
        name: "tool".to_owned(),
        namespace: Some("space".to_owned()),
        output: ToolOutputBody::Text("done".to_owned()),
    };
    match turn_start_request(turn_params(Some(output)), settings()).input {
        TurnInput::ResponseItem(item) => {
            assert_eq!((item.id, item.call_id, item.success), (None, None, None));
            assert_eq!(item.name.as_deref(), Some("tool"));
            assert_eq!(item.namespace.as_deref(), Some("space"));
            assert!(matches!(item.body, ToolOutputBody::Text(text) if text == "done"));
        }
        other => panic!("{other:?}"),
    }
    assert!(map_additional_context(None).is_empty());
}

#[test]
fn running_turn_is_handed_input_alone() {
    let (request, expected) = turn_steer_request(TurnSteerParams {
        input: vec![text("more")],
        client_user_message_id: None,
        additional_context: None,
        responsesapi_client_metadata: Some(Registry::new()),
        expected_turn_id: "turn".to_owned(),
    });
    assert_eq!(expected, "turn");
    assert!(matches!(
        &request.input,
        TurnInput::UserInput { content, client_id: None } if content.len() == 1
    ));
    assert!(request.thread_settings.is_none() && request.on_start.is_none());
    assert!(request.additional_context.is_empty() && request.responses_metadata.is_some());
}

#[test]
fn images_in_the_output_of_a_tool_are_rejected() {
    let output = |remote: bool| {
        Some(ToolOutput {
            name: "tool".to_owned(),
            namespace: None,
            output: ToolOutputBody::Parts(vec![ContentPart::InlineImage {
                url: "u".to_owned(),
                remote,
            }]),
        })
    };
    assert!(check_tool_output_images(&None, "no").is_ok());
    assert!(check_tool_output_images(&output(false), "no").is_ok());
    let error = check_tool_output_images(&output(true), "no").unwrap_err();
    assert_eq!((error.code, error.message.as_str()), (INVALID_REQUEST, "no"));
}

fn no_settings() -> ThreadSettingsBuildParams {
    ThreadSettingsBuildParams {
        disabled_plugin_ids: None,
        environment_override: EnvironmentOverride::Unchanged,
        approval_policy: None,
        approvals_reviewer: None,
        sandbox_policy: None,
        permissions: None,
        model: None,
        service_tier: None,
        effort: None,
        summary: None,
        collaboration_mode: None,
        personality: None,
    }
}

fn loaded(warnings: &[&str]) -> LoadedPermissions {
    LoadedPermissions {
        warnings: warnings.iter().map(|warning| warning.to_string()).collect(),
        resolved: ResolvedPermissions {
            profile: "workspace-write".to_owned(),
            active_profile: Some("dev".to_owned()),
            profile_workspace_roots: vec!["/root".to_owned()],
        },
    }
}

#[test]
fn only_changed_settings_are_submitted() {
    assert!(!has_any_overrides(&no_settings()));
    let nothing = build_thread_settings_overrides("turn/start", no_settings(), &vec![], None)
        .expect("no change");
    assert!(!submits_settings(&nothing));
    let mut params = no_settings();
    params.effort = Some("high".to_owned());
    params.service_tier = Some(None);
    params.collaboration_mode = Some(mode(None));
    assert!(has_any_overrides(&params));
    let presets = vec![preset("plan", "think")];
    let change = build_thread_settings_overrides("turn/start", params, &presets, None)
        .expect("a change");
    assert!(submits_settings(&change));
    assert_eq!(change.effort, Some(Some("high".to_owned())));
    assert_eq!(change.service_tier, Some(None));
    assert_eq!(
        change.collaboration_mode.and_then(|mode| mode.developer_instructions).as_deref(),
        Some("think")
    );
}

#[test]
fn permissions_are_selected_in_one_way_and_must_be_allowed() {
    let selected = || {
        let mut params = no_settings();
        params.permissions = Some("dev".to_owned());
        params
    };
    let build = |params, loaded| {
        build_thread_settings_overrides("thread/settings/update", params, &vec![], loaded)
    };
    let change = build(selected(), Some(Ok(loaded(&["slow"])))).expect("allowed profile");
    assert_eq!(change.permission_profile.as_deref(), Some("workspace-write"));
    assert_eq!(change.active_permission_profile.as_deref(), Some("dev"));
    assert_eq!(change.profile_workspace_roots, Some(vec!["/root".to_owned()]));
    let mut both = selected();
    both.sandbox_policy = Some("read-only".to_owned());
    assert_eq!(
        build(both, Some(Ok(loaded(&[])))).unwrap_err().message,
        "`permissions` cannot be combined with `sandboxPolicy`"
    );
    let warnings = [
        "slow",
        "Configured value for `permission_profile` is disallowed: dev",
        "Configured value for `permission_profile` is disallowed: later",
    ];
    assert_eq!(
        build(selected(), Some(Ok(loaded(&warnings)))).unwrap_err().message,
        "invalid thread settings override: Configured value for `permission_profile` is disallowed: dev"
    );
    assert_eq!(
        build(selected(), Some(Err(no_filesystem()))).unwrap_err().message,
        "parent workflow filesystem is unavailable"
    );
    let error = build(selected(), None).unwrap_err();
    assert_eq!(
        (error.code, error.message.as_str()),
        (INTERNAL_ERROR, "thread/settings/update permission selection missing thread snapshot")
    );
}

#[test]
fn targets_of_reviews_are_trimmed() {
    let commit = |sha: &str, title: Option<&str>| ReviewTarget::Commit {
        sha: sha.to_owned(),
        title: title.map(str::to_owned),
    };
    match clean_review_target(commit("  abc ", Some("  "))) {
        Ok(ReviewTarget::Commit { sha, title }) => assert_eq!((sha.as_str(), title), ("abc", None)),
        other => panic!("unexpected {other:?}"),
    }
    match clean_review_target(commit("abc", Some(" fix\n"))) {
        Ok(ReviewTarget::Commit { title, .. }) => assert_eq!(title.as_deref(), Some("fix")),
        other => panic!("unexpected {other:?}"),
    }
    let refused = |target| clean_review_target(target).unwrap_err().message;
    assert_eq!(refused(commit(" ", None)), "sha must not be empty");
    assert_eq!(
        refused(ReviewTarget::BaseBranch { branch: "\t".to_owned() }),
        "branch must not be empty"
    );
    assert_eq!(
        refused(ReviewTarget::Custom { instructions: String::new() }),
        "instructions must not be empty"
    );
    assert!(matches!(
        clean_review_target(ReviewTarget::UncommittedChanges),
        Ok(ReviewTarget::UncommittedChanges)
    ));
}

#[test]
fn detached_reviews_are_told_to_go_away() {
    assert!(review_notice(None).is_none());
    assert!(review_notice(Some(ReviewDelivery::Inline)).is_none());
    let notice = review_notice(Some(ReviewDelivery::Detached)).unwrap();
    assert_eq!(
        notice.summary,
        "review/start with delivery \"detached\" is deprecated and will be removed in a future release."
    );
    assert_eq!(
        notice.details.as_deref(),
        Some("Use thread/start followed by review/start with delivery \"inline\" for a separate review thread, or thread/fork followed by turn/start with your own review instructions.")
    );
}

#[test]
fn reviews_are_asked_for_in_words() {
    assert_eq!(
        review_target_prompt(&ReviewTarget::BaseBranch { branch: "a\"b".to_owned() }),
        "Review the code changes against the base branch \"a\\\"b\"."
    );
    let target = ReviewTarget::Custom { instructions: "Look at it".to_owned() };
    let skills = path("/skills");
    let prompt = "Use [$review-agent](/skills/review-agent/SKILL.md) for this review.\n\nLook at it";
    assert_eq!(
        detached_review_prompt(&skills, &target, prompt.len(), false).ok().as_deref(),
        Some(prompt)
    );
    assert_eq!(
        detached_review_prompt(&skills, &target, prompt.len(), true).unwrap_err().message,
        "paginated threads do not support detached review"
    );
    assert_eq!(
        detached_review_prompt(&skills, &target, 3, true).unwrap_err().data,
        Some(ErrorData::InputTooLarge { max_chars: 3, actual_chars: prompt.len() })
    );
    let model = |value: &str| Some(value.to_owned());
    assert_eq!(review_model(model("review"), model("chat")), model("review"));
    assert_eq!(review_model(None, model("chat")), model("chat"));
    assert_eq!(build_review_turn("turn".to_owned(), "").message, None);
    let turn = build_review_turn("turn".to_owned(), "current changes");
    assert_eq!((turn.id.as_str(), turn.message.as_deref()), ("turn", Some("current changes")));
}

fn conversation(transport: Option<RealtimeTransport>) -> ThreadRealtimeStartParams {
    ThreadRealtimeStartParams {
        client_managed_handoffs: None,
        delegation_ack_filler: None,
        flush_transcript_tail_on_session_end: None,
        codex_responses_as_items: Some(true),
        codex_response_item_prefix: Some("item:".to_owned()),
        codex_response_handoff_mode: None,
        codex_response_handoff_channel_prefixes: Some(vec!["a".to_owned()]),
        model: None,
        output_modality: Some("audio".to_owned()),
        include_startup_context: None,
        initial_items: None,
        realtime_start_instructions: Some("begin".to_owned()),
        realtime_end_instructions: Some("end".to_owned()),
        prompt: None,
        realtime_session_id: None,
        transport,
        version: Some("v2".to_owned()),
        voice: None,
    }
}

fn existing() -> Option<RealtimeTransport> {
    Some(RealtimeTransport::ExistingCall { call_id: "call".to_owned() })
}

#[test]
fn existing_call_keeps_what_it_was_started_with() {
    let start = realtime_start(conversation(None)).expect("new conversation");
    assert!(start.include_startup_context && start.codex_responses_as_items);
    assert!(!start.client_managed_handoffs && start.initial_items.is_empty());
    assert_eq!(start.codex_response_item_prefix.as_deref(), Some("item:"));
    assert!(matches!(start.codex_response_handoff_mode, HandoffMode::Default));
    assert_eq!(start.codex_response_handoff_channel_prefixes, Some(vec!["a".to_owned()]));
    assert_eq!(start.output_modality.as_deref(), Some("audio"));
    assert_eq!(start.realtime_start_instructions.as_deref(), Some("begin"));
    assert_eq!(start.realtime_end_instructions.as_deref(), Some("end"));
    assert_eq!(start.version.as_deref(), Some("v2"));
    let start = realtime_start(conversation(existing())).expect("existing call");
    assert!(!start.include_startup_context);
    let refused = |change: fn(&mut ThreadRealtimeStartParams)| {
        let mut params = conversation(existing());
        change(&mut params);
        realtime_start(params).unwrap_err().message
    };
    let told = |option: &str| format!("existingCall transport does not support {option}");
    assert_eq!(refused(|p| p.include_startup_context = Some(true)), told("includeStartupContext"));
    assert_eq!(refused(|p| p.prompt = Some(String::new())), told("prompt"));
    assert_eq!(
        refused(|p| {
            p.initial_items =
                Some(vec![ConversationText { text: "hi".to_owned(), role: "user".to_owned() }]);
        }),
        told("initialItems")
    );
    assert_eq!(refused(|p| p.model = Some("m".to_owned())), told("model"));
    assert_eq!(refused(|p| p.voice = Some("v".to_owned())), told("voice"));
    assert_eq!(
        refused(|p| p.delegation_ack_filler = Some("hm".to_owned())),
        told("delegationAckFiller")
    );
}

#[test]
fn failed_operations_are_told() {
    for (operation, told) in [
        (RealtimeOperation::Start, "failed to start realtime conversation: no"),
        (RealtimeOperation::AppendAudio, "failed to append realtime conversation audio: no"),
        (RealtimeOperation::AppendText, "failed to append realtime conversation text: no"),
        (RealtimeOperation::AppendSpeech, "failed to append realtime conversation speech: no"),
        (RealtimeOperation::Stop, "failed to stop realtime conversation: no"),
    ] {
        assert_eq!(realtime_error(operation, "no").message, told);
    }
    for (failure, code, told) in [
        (Failure::InjectItems, INTERNAL_ERROR, "failed to inject response items: no"),
        (Failure::ClientInfo, INTERNAL_ERROR, "failed to set app server client info: no"),
        (Failure::InlineReview, INTERNAL_ERROR, "failed to start review: no"),
        (Failure::DetachedReview, INTERNAL_ERROR, "failed to start detached review: no"),
        (Failure::TurnSettings, INTERNAL_ERROR, "failed to submit turn settings: no"),
        (Failure::ThreadSettings, INTERNAL_ERROR, "failed to update thread settings: no"),
        (Failure::PermissionProfile, INVALID_REQUEST, "workflow permission profile is invalid: no"),
        (Failure::ApprovalPolicy, INVALID_REQUEST, "workflow approval policy is invalid: no"),
        (
            Failure::CheckoutConstraints,
            INVALID_REQUEST,
            "workflow checkout exceeds managed permission constraints: no",
        ),
        (Failure::SettingsPreview, INVALID_REQUEST, "invalid thread settings override: no"),
        (Failure::ScriptPath, INVALID_REQUEST, "invalid workflow script path: no"),
        (Failure::ScriptRead, INVALID_REQUEST, "workflow script is not readable: no"),
        (Failure::SaveParent, INVALID_REQUEST, "workflow save parent is not accessible: no"),
        (Failure::SaveDirectory, INVALID_REQUEST, "workflow save directory failed: no"),
    ] {
        let error = failure_error(failure, "no");
        assert_eq!((error.code, error.message.as_str()), (code, told));
    }
    let fault = injection_error(&Some("bad item".to_owned()), "no");
    assert_eq!((fault.code, fault.message.as_str()), (INVALID_REQUEST, "bad item"));
    assert_eq!(injection_error(&None, "no").code, INTERNAL_ERROR);
}

#[test]
fn cancelled_command_is_known_to_its_own_turn() {
    let mut approvals = Approvals::new();
    approvals.register_command_approval_cancellation("turn", "call");
    approvals.register_command_approval_cancellation("other", "call");
    approvals.wait_for_approval("approval", "turn", "call");
    approvals.interrupt_for_exec_approval("approval", true);
    assert!(!approvals.take_command_approval_cancellation("other", "call"));
    assert!(approvals.take_command_approval_cancellation("turn", "call"));
    assert!(!approvals.take_command_approval_cancellation("turn", "call"));
}

#[test]
fn call_that_is_registered_anew_is_not_cancelled() {
    let mut approvals = Approvals::new();
    approvals.register_command_approval_cancellation("turn", "call");
    approvals.wait_for_approval("approval", "turn", "call");
    assert!(!approvals.take_command_approval_cancellation("turn", "call"));
    approvals.register_command_approval_cancellation("turn", "call");
    approvals.interrupt_for_exec_approval("approval", true);
    assert!(!approvals.take_command_approval_cancellation("turn", "call"));
}

#[test]
fn nothing_is_cancelled_without_an_active_turn() {
    let mut approvals = Approvals::new();
    approvals.register_command_approval_cancellation("turn", "call");
    approvals.wait_for_approval("approval", "turn", "call");
    approvals.interrupt_for_exec_approval("approval", false);
    assert!(matches!(approvals.find("turn", "call"), Some(mark) if !mark.cancelled));
    approvals.interrupt_for_exec_approval("approval", true);
    assert!(matches!(approvals.find("turn", "call"), Some(mark) if mark.cancelled));
}

fn told(error: AgentError) -> String {
    match error {
        AgentError::InvalidRequest { message } => message,
        AgentError::UnsupportedOperation { message } => format!("unsupported: {message}"),
    }
}

#[test]
fn agent_is_handed_its_prompt_alone() {
    let schema: serde_json::Value = serde_json::from_str(r#"{"type":"object"}"#).unwrap();
    let request = agent_request("go".to_owned(), Some(schema.clone()));
    match request.input {
        TurnInput::UserInput { content, client_id: None } => {
            assert!(matches!(&content[..], [UserInput::Text(prompt)] if prompt == "go"));
        }
        _ => panic!("the prompt is the user's"),
    }
    assert!(request.thread_settings.is_none());
    let options = request.on_start.unwrap();
    assert_eq!(options.final_output_json_schema, Some(schema));
    assert!(options.turn_trigger.is_none() && options.service_tier.is_none());
    assert!(request.additional_context.is_empty());
    assert!(request.responses_metadata.is_none());
    assert!(agent_request("go".to_owned(), None).on_start.unwrap().final_output_json_schema.is_none());
}

#[test]
fn agent_needs_a_prompt_and_its_listener() {
    assert!(check_agent_start("go", true).is_ok());
    assert_eq!(told(check_agent_start(" \n", false).unwrap_err()), "agent prompt must not be empty");
    assert_eq!(
        told(check_agent_start("go", false).unwrap_err()),
        "unsupported: thread manager dropped"
    );
    assert_eq!(LISTENER_SECONDS, 5);
    assert!(after_listener_wait(ListenerWait::Absent).is_ok());
    assert!(after_listener_wait(ListenerWait::Attached).is_ok());
    assert_eq!(
        told(after_listener_wait(ListenerWait::TimedOut).unwrap_err()),
        "agent event listener was not attached before start"
    );
    assert_eq!(
        told(after_listener_wait(ListenerWait::Dropped).unwrap_err()),
        "agent event listener gate was dropped"
    );
    let started = StartIfIdleSubmission::Started { turn_id: "turn".to_owned() };
    assert_eq!(agent_turn(started, false).ok().as_deref(), Some("turn"));
    let refused =
        || StartIfIdleSubmission::NotSubmitted { reason: NotSubmittedReason::NotIdle };
    assert_eq!(
        told(agent_turn(refused(), false).unwrap_err()),
        "agent prompt was not submitted: NotIdle"
    );
    assert_eq!(
        told(agent_turn(refused(), true).unwrap_err()),
        "agent repair prompt was not submitted: NotIdle"
    );
}
