//! Tests of preparing workspaces, starting workers, releasing workspaces and saving workflows.
use ultracode_workflow::authority::{ApprovalsReviewer, ThreadConfigSnapshot, WorkflowAuthority};
use ultracode_workflow::checkout::{
    check_restore, mark_restored, Answer, CheckoutCommand, CreateStep,
};
use ultracode_workflow::digest::digest_text;
use ultracode_workflow::error::INTERNAL_ERROR;
use ultracode_workflow::ids::ThreadId;
use ultracode_workflow::path::AbsolutePath;
use ultracode_workflow::prepare::{
    after_prepare_step, finish_prepare, prepare_authority, prepare_mode, prepare_step_error,
    provisional_ownership, record_belongs, reuse_workspace, AfterPrepare, PrepareMode, PrepareStep,
};
use ultracode_workflow::protocol::{
    WorkflowModelOption, WorkflowSaveParams, WorkflowWorkerStartParams, WorkflowWorkspace,
    WorkflowWorkspacePrepareParams, WorkflowWorkspaceReleaseParams,
};
use ultracode_workflow::registry::Registry;
use ultracode_workflow::release::{
    after_release_step, command_of_release_step, mark_removed, release_decision, release_workspace,
    workspace_worker, AfterRelease, ReleaseDecision, ReleaseStep, WorkerState,
};
use ultracode_workflow::inventory::{
    disable_workflow_tool, restrict_worker_tools, role_result, ToolServer, WorkerTools,
};
use ultracode_workflow::save::{
    after_save_step, check_save_request, creation_grant, resolve_script_path, save_candidates,
    save_destination, save_permission, save_result, script_read, workflow_project_save_directory,
    workflow_save_directory_creation_policy, AfterSave, FileAccess, PersonalRoot, PolicyEntry,
    SaveAnswer, SavePermission, SaveStep,
};
use ultracode_workflow::worker::{
    check_worker_request, compose_worker_prompt, parent_provider, plan_worker, worker_place, workflow_native_role, workflow_role_digest, workflow_schema_digest,
    AttemptState, PermissionSnapshot, RoleSettings, WorkerFacts, WorkerLaunch, WorkerPlace, Workers,
};
use ultracode_workflow::worker_flow::{
    admit_worker, enter_worker, finish_worker_start, restored_identity_error,
    restored_record_error, SubmittedTurn, WorkerEntry,
};
use ultracode_workflow::workspace::{
    AgentStatus, CheckoutGrant, WorkflowWorkspaceOwnership, WorktreeFacts,
};

const ID: &str = "019b1a2b-3c4d-4e5f-8a6b-0123456789ab";
const PARENT: ThreadId = ThreadId { value: 1 };
const CHECKOUT: &str = "/repo/.ultracode/worktrees/checkout";

fn path(value: &str) -> AbsolutePath {
    AbsolutePath::parse(value).expect("absolute test path")
}

fn snapshot() -> ThreadConfigSnapshot {
    ThreadConfigSnapshot {
        model: "gpt-test".into(),
        model_provider_id: "openai".into(),
        service_tier: None,
        approval_policy: "on-request".into(),
        permission_requests_allowed: true,
        approvals_reviewer: ApprovalsReviewer::User,
        permission_profile: "workspace-write".into(),
        active_permission_profile: Some("dev".into()),
        environments: "/repo".into(),
        workspace_roots: vec!["/repo".into()],
        profile_workspace_roots: vec!["/repo".into()],
        cwd: path("/repo"),
        reasoning_effort: Some("medium".into()),
        forked_from_thread_id: None,
    }
}

fn changed() -> ThreadConfigSnapshot {
    let mut changed = snapshot();
    changed.permission_profile = "disabled".into();
    changed
}

fn authority() -> WorkflowAuthority {
    WorkflowAuthority {
        parent_thread_id: PARENT,
        generation: 7,
        snapshot: snapshot(),
        digest: "digest".into(),
        allow_isolated_workspaces: true,
        codex_home: path("/home"),
    }
}

fn authorities() -> Registry<WorkflowAuthority> {
    let mut authorities = Registry::new();
    authorities.insert("authority".to_owned(), authority());
    authorities
}

fn grant() -> CheckoutGrant {
    CheckoutGrant {
        parent_thread_id: PARENT,
        run_id: "run".into(),
        worker_id: "worker".into(),
        workspace_id: ID.into(),
        path: path(CHECKOUT),
    }
}

fn prepare_params() -> WorkflowWorkspacePrepareParams {
    WorkflowWorkspacePrepareParams {
        run_id: "run".into(),
        worker_id: "worker".into(),
        agent_type: "general-purpose".into(),
        authority_ref: "authority".into(),
        authority_digest: "digest".into(),
        isolation: Some("worktree".into()),
        requested_cwd: "/repo".into(),
        previous: None,
    }
}

fn owned() -> WorkflowWorkspaceOwnership {
    let mut workspace = provisional_ownership(
        &authority(),
        &prepare_params(),
        &snapshot(),
        ID,
        &path(CHECKOUT),
        "base",
        &path("/repo/.git"),
        grant(),
    );
    workspace.permission_profile = "checkout-write".into();
    workspace
}

fn workspaces() -> Registry<WorkflowWorkspaceOwnership> {
    let mut workspaces = Registry::new();
    workspaces.insert(ID.to_owned(), owned());
    workspaces
}

fn worktree() -> WorktreeFacts {
    WorktreeFacts {
        canonical: Some(path(CHECKOUT)),
        top_level: Some(path(CHECKOUT)),
        common_git_dir: Some(path("/repo/.git")),
        head_reference: Some(format!("refs/heads/{}", owned().branch)),
        descends_from_base: true,
    }
}

fn no_worktree() -> WorktreeFacts {
    let mut facts = worktree();
    facts.top_level = None;
    facts
}

#[test]
fn preparation_needs_its_identity_and_an_authority_in_force() {
    let authorities = authorities();
    let current = Some(snapshot());
    assert_eq!(
        prepare_authority(&authorities, &prepare_params(), &current).map(|a| a.generation).ok(),
        Some(7)
    );
    let refused = |change: fn(&mut WorkflowWorkspacePrepareParams),
                   current: &Option<ThreadConfigSnapshot>| {
        let mut params = prepare_params();
        change(&mut params);
        prepare_authority(&authorities, &params, current).err().expect("refusal").message
    };
    assert_eq!(refused(|p| p.run_id = "../run".into(), &current), "workflow workspace identity is invalid");
    assert_eq!(
        refused(|p| p.authority_ref = "other".into(), &current),
        "workflow authority reference is unknown"
    );
    assert_eq!(
        refused(|p| p.authority_digest = "other".into(), &current),
        "workflow authority reference is stale"
    );
    assert_eq!(refused(|_| {}, &None), "workflow parent thread is unavailable");
    assert_eq!(refused(|_| {}, &Some(changed())), "workflow parent authority changed");
    assert_eq!(
        refused(|p| p.requested_cwd = "/elsewhere".into(), &current),
        "workflow parent authority changed"
    );
}

#[test]
fn workspace_is_shared_reused_or_made() {
    let role = Ok("role".to_owned());
    let mut params = prepare_params();
    assert!(matches!(prepare_mode(&authority(), &params, &role), Ok(PrepareMode::Create)));
    params.previous = Some(WorkflowWorkspace {
        workspace_id: Some(ID.into()),
        cwd: CHECKOUT.into(),
        isolated: true,
        base_commit: Some("base".into()),
    });
    assert!(matches!(
        prepare_mode(&authority(), &params, &role),
        Ok(PrepareMode::Reuse(id)) if id == ID
    ));
    params.previous.as_mut().expect("previous").workspace_id = Some("../x".into());
    assert_eq!(
        prepare_mode(&authority(), &params, &role).unwrap_err().message,
        "invalid workflow workspace ID"
    );
    params.isolation = Some("container".into());
    assert_eq!(
        prepare_mode(&authority(), &params, &role).unwrap_err().message,
        "workflow workspace isolation is unsupported"
    );
    let mut strict = authority();
    strict.allow_isolated_workspaces = false;
    assert_eq!(
        prepare_mode(&strict, &prepare_params(), &role).unwrap_err().message,
        "workflow workspace isolation was not approved by the parent"
    );
    assert_eq!(
        prepare_mode(&authority(), &params, &Err("no such role".to_owned())).unwrap_err().message,
        "no such role"
    );
    params.isolation = None;
    match prepare_mode(&strict, &params, &role) {
        Ok(PrepareMode::Shared(response)) => {
            assert_eq!((response.cwd.as_str(), response.isolated), ("/repo", false));
            assert_eq!((response.authority_generation, response.role_digest.as_str()), (7, "role"));
        }
        other => panic!("unexpected {other:?}"),
    }
}

#[test]
fn prepared_workspace_is_used_again() {
    let mut known: Registry<WorkflowWorkspaceOwnership> = Registry::new();
    let response = finish_prepare(&mut known, ID.to_owned(), owned(), 7, "role".to_owned());
    assert_eq!(response.workspace_id.as_deref(), Some(ID));
    assert_eq!((response.cwd.as_str(), response.isolated), (CHECKOUT, true));
    let mut again = prepare_params();
    again.authority_ref = "later".into();
    again.previous = Some(WorkflowWorkspace {
        workspace_id: response.workspace_id,
        cwd: response.cwd,
        isolated: true,
        base_commit: response.base_commit,
    });
    let reused =
        reuse_workspace(&mut known, ID, None, &authority(), &again, &worktree(), "role").unwrap();
    assert_eq!(reused.base_commit.as_deref(), Some("base"));
    assert_eq!(known.get(ID).map(|w| w.authority_ref.as_str()), Some("later"));
    assert_eq!(
        reuse_workspace(&mut known, ID, None, &authority(), &again, &no_worktree(), "role")
            .unwrap_err()
            .message,
        "previous workflow workspace ownership is stale"
    );
    let mut empty: Registry<WorkflowWorkspaceOwnership> = Registry::new();
    assert_eq!(
        reuse_workspace(&mut empty, ID, None, &authority(), &again, &worktree(), "role")
            .unwrap_err()
            .message,
        "previous workflow workspace is not owned by this host"
    );
    let record = Some(owned());
    assert!(reuse_workspace(&mut empty, ID, record, &authority(), &again, &worktree(), "role").is_ok());
    assert!(record_belongs(&owned(), &path("/repo/.git")).is_ok());
    assert_eq!(
        record_belongs(&owned(), &path("/other/.git")).unwrap_err(),
        "workspace record belongs to another repository"
    );
}

#[test]
fn checkout_is_prepared_step_by_step() {
    let mut taken = vec![PrepareStep::Canonical];
    loop {
        match after_prepare_step(taken[taken.len() - 1], Answer::Yes) {
            AfterPrepare::Step(step) => taken.push(step),
            AfterPrepare::Done => break,
            other => panic!("unexpected {other:?}"),
        }
    }
    assert_eq!(taken.len(), 11);
    assert_eq!(after_prepare_step(PrepareStep::Grant, Answer::No), AfterPrepare::Fail);
    assert_eq!(
        after_prepare_step(PrepareStep::Make(CreateStep::Lock), Answer::Failed),
        AfterPrepare::CleanUp
    );
    for (step, told) in [
        (PrepareStep::Canonical, "gone"),
        (PrepareStep::Absent, "workflow workspace already exists"),
        (PrepareStep::CommonGitDir, "failed to resolve workflow common Git directory: gone"),
        (
            PrepareStep::Base,
            "failed to resolve workflow base commit under native permission policy",
        ),
        (
            PrepareStep::Make(CreateStep::Identity),
            "created workflow worktree failed identity validation",
        ),
        (PrepareStep::Make(CreateStep::Persist), "failed to persist workflow ownership: gone"),
    ] {
        assert_eq!(prepare_step_error(step, "gone").message, told);
    }
}

fn start_params() -> WorkflowWorkerStartParams {
    WorkflowWorkerStartParams {
        run_id: "run".into(),
        worker_id: "worker".into(),
        parent_thread_id: PARENT.to_text(),
        authority_ref: "authority".into(),
        authority_generation: 7,
        authority_digest: "digest".into(),
        prompt: "Fix it".into(),
        model: "gpt-other".into(),
        effort: "high".into(),
        model_explicit: false,
        effort_explicit: false,
        agent_type: "general-purpose".into(),
        role_digest: "role".into(),
        read_only: false,
        workspace: WorkflowWorkspace {
            workspace_id: Some(ID.into()),
            cwd: CHECKOUT.into(),
            isolated: true,
            base_commit: Some("base".into()),
        },
        schema: None,
        resume_thread_id: None,
    }
}

fn shared(params: &mut WorkflowWorkerStartParams) {
    params.workspace =
        WorkflowWorkspace { workspace_id: None, cwd: "/repo".into(), isolated: false, base_commit: None };
}

#[test]
fn worker_is_admitted_by_shape_authority_and_workspace() {
    let admission = |change: fn(&mut WorkflowWorkerStartParams), worktree: &WorktreeFacts| {
        let mut params = start_params();
        change(&mut params);
        admit_worker(&authorities(), &workspaces(), &params, PARENT, &snapshot(), worktree)
    };
    assert_eq!(admission(|_| {}, &worktree()).ok(), Some(WorkerPlace::Isolated));
    assert_eq!(admission(shared, &no_worktree()).ok(), Some(WorkerPlace::Shared));
    for (change, told) in [
        (
            (|p| p.prompt = " \n".into()) as fn(&mut WorkflowWorkerStartParams),
            "workflow worker prompt must not be empty",
        ),
        (
            |p| p.schema = Some(serde_json::Value::Bool(true)),
            "workflow worker schema must be an object",
        ),
        (|p| p.authority_ref = "other".into(), "workflow authority reference is unknown"),
        (|p| p.authority_generation = 8, "workflow authority reference is stale"),
        (|p| p.workspace.workspace_id = Some("x".into()), "invalid workflow workspace ID"),
        (
            |p| p.workspace.workspace_id = Some("019b1a2b-3c4d-4e5f-8a6b-0123456789ac".into()),
            "workflow workspace is not owned by this host",
        ),
        (|p| p.worker_id = "other".into(), "workflow workspace ownership is stale"),
        (|p| p.workspace.base_commit = None, "workflow workspace ownership is stale"),
        (|p| p.workspace.workspace_id = None, "workflow shared workspace is invalid"),
    ] {
        assert_eq!(admission(change, &worktree()).unwrap_err().message, told);
    }
    assert_eq!(
        admission(|_| {}, &no_worktree()).unwrap_err().message,
        "workflow workspace ownership is stale"
    );
    assert_eq!(
        admit_worker(&authorities(), &workspaces(), &start_params(), PARENT, &changed(), &worktree())
            .unwrap_err()
            .message,
        "workflow parent authority changed"
    );
    assert!(check_worker_request(&start_params()).is_ok());
}

#[test]
fn removed_checkout_is_restored_before_its_worker_runs() {
    let mut gone = owned();
    mark_removed(&mut gone);
    let mut workspaces: Registry<WorkflowWorkspaceOwnership> = Registry::new();
    workspaces.insert(ID.to_owned(), gone);
    assert_eq!(
        worker_place(&workspaces, &start_params(), PARENT, &snapshot(), &no_worktree()).ok(),
        Some(WorkerPlace::Removed)
    );
    let mut gone = workspaces.remove(ID).expect("workspace");
    let clear = vec![false; 8];
    let canonical = Ok(gone.repository_cwd.copy());
    assert!(check_restore(ID, &gone, &canonical, &clear, false).is_ok());
    assert_eq!(
        check_restore(ID, &gone, &canonical, &clear, true).unwrap_err().message,
        "removed workflow path was recreated externally"
    );
    assert_eq!(
        check_restore("other", &gone, &canonical, &clear, false).unwrap_err().message,
        "workflow checkout grant ownership is stale"
    );
    let missing = Err("no such directory".to_owned());
    assert_eq!(
        check_restore(ID, &gone, &missing, &clear, false).unwrap_err().message,
        "no such directory"
    );
    let mut linked = owned();
    linked.repository_cwd = path("/link");
    assert!(check_restore(ID, &linked, &canonical, &clear, false).is_ok());
    mark_restored(&mut gone);
    assert!(!gone.removed);
    assert_eq!(
        restored_record_error("full").message,
        "failed to persist restored workflow worktree: full"
    );
    assert_eq!(
        restored_identity_error().message,
        "restored workflow checkout failed identity validation"
    );
}

fn facts() -> WorkerFacts {
    WorkerFacts {
        reduced_profile: Some("read-only".into()),
        requires_openai_auth: false,
        role: Ok("role".into()),
        role_model: None,
        role_effort: None,
        models: vec![
            WorkflowModelOption {
                model: "gpt-test".into(),
                default_effort: "low".into(),
                supported_efforts: vec!["low".into(), "medium".into()],
            },
            WorkflowModelOption {
                model: "gpt-other".into(),
                default_effort: "high".into(),
                supported_efforts: vec!["high".into()],
            },
        ],
        permissions_invalid: None,
        approval_invalid: None,
        configured_provider: "openai".into(),
        parent_provider_configured: true,
    }
}

#[test]
fn worker_is_planned_from_its_request_and_its_parent() {
    let plan = plan_worker(&start_params(), PARENT, &Some(owned()), &snapshot(), facts())
        .expect("planned worker");
    assert_eq!((plan.launch.model.as_str(), plan.launch.effort.as_str()), ("gpt-test", "medium"));
    assert_eq!(plan.launch.cwd.text(), CHECKOUT);
    assert_eq!(plan.workspace_roots, vec![CHECKOUT.to_owned()]);
    assert!(matches!(plan.permissions, PermissionSnapshot::Legacy(p) if p == "checkout-write"));
    assert!(!plan.switch_provider && !plan.launch.read_only);
    assert_eq!((plan.approval_policy.as_str(), plan.service_tier), ("on-request", None));
    assert_eq!(plan.approvals_reviewer, ApprovalsReviewer::User);
    assert_eq!(
        plan.prompt,
        "Do not launch sub-agents or delegate work. Complete only this workflow worker turn.\nFix it"
    );
    let mut params = start_params();
    shared(&mut params);
    let plan = plan_worker(&params, PARENT, &None, &snapshot(), facts()).expect("planned worker");
    assert!(matches!(
        plan.permissions,
        PermissionSnapshot::Active { profile, active, .. }
            if profile == "workspace-write" && active == "dev"
    ));
    assert_eq!(plan.workspace_roots, vec!["/repo".to_owned()]);
    params.model_explicit = true;
    params.effort_explicit = true;
    params.agent_type = "Explore".into();
    let plan = plan_worker(&params, PARENT, &None, &snapshot(), facts()).expect("planned worker");
    assert_eq!((plan.launch.model.as_str(), plan.launch.effort.as_str()), ("gpt-other", "high"));
    assert!(plan.launch.read_only);
    assert!(matches!(plan.permissions, PermissionSnapshot::Legacy(p) if p == "read-only"));
}

#[test]
fn worker_that_does_not_fit_is_not_planned() {
    let refused = |change: fn(&mut WorkflowWorkerStartParams, &mut WorkerFacts, &mut ThreadConfigSnapshot)| {
        let (mut params, mut found, mut current) = (start_params(), facts(), snapshot());
        change(&mut params, &mut found, &mut current);
        plan_worker(&params, PARENT, &Some(owned()), &current, found).unwrap_err().message
    };
    assert_eq!(
        refused(|p, f, _| {
            p.agent_type = "Plan".into();
            f.reduced_profile = None;
        }),
        "external sandbox authority cannot be reduced safely"
    );
    assert_eq!(
        refused(|_, _, c| c.model_provider_id = "local".into()),
        "workflow workers require an authenticated OpenAI Codex model provider"
    );
    assert_eq!(refused(|_, f, _| f.role = Err("no role".into())), "no role");
    assert_eq!(
        refused(|_, f, _| {
            f.permissions_invalid = Some("managed".into());
            f.approval_invalid = Some("managed".into());
        }),
        "workflow permission profile is invalid: managed"
    );
    assert_eq!(
        refused(|_, f, _| f.approval_invalid = Some("managed".into())),
        "workflow approval policy is invalid: managed"
    );
    assert_eq!(
        refused(|_, f, _| f.role = Ok("newer".into())),
        "workflow worker role changed after preparation"
    );
    assert_eq!(
        refused(|_, f, _| f.role_model = Some("gpt-gone".into())),
        "workflow worker model is unavailable"
    );
    assert_eq!(
        refused(|_, f, _| f.role_effort = Some("high".into())),
        "workflow worker effort is unsupported by the selected model"
    );
    assert_eq!(
        refused(|_, f, _| {
            f.configured_provider = "azure".into();
            f.parent_provider_configured = false;
        }),
        "workflow parent model provider is unavailable"
    );
    assert_eq!(parent_provider("azure", &snapshot(), true).ok(), Some(true));
}

#[test]
fn roles_and_schemas_have_names_and_digests() {
    assert_eq!(workflow_native_role("general-purpose"), "default");
    assert_eq!(workflow_native_role("Plan"), "default");
    assert_eq!(workflow_native_role("Explore"), "explorer");
    assert_eq!(workflow_native_role("painter"), "painter");
    assert_eq!(
        compose_worker_prompt("Plan", ""),
        "Do not launch sub-agents or delegate work. Complete only this workflow worker turn.\nRole: Plan. Produce an implementation plan only. Do not modify files or external state."
    );
    assert_eq!(workflow_schema_digest(&None), None);
    let schema = serde_json::from_str(r#"{ "type": "object" }"#).expect("valid test JSON");
    assert_eq!(
        workflow_schema_digest(&Some(schema)),
        Some(digest_text(r#"{"type":"object"}"#))
    );
    let text = |value: &str| value.to_owned();
    let settings = RoleSettings {
        developer_instructions: text("a"),
        reasoning_summary: text("b"),
        verbosity: text("c"),
        personality: text("d"),
        features: text("e"),
        skill_instructions: text("f"),
        layers: text("g"),
    };
    assert_eq!(workflow_role_digest(&settings), digest_text("a|b|c|d|e|f|g"));
    assert_eq!(role_result(&Ok(settings)), Ok(digest_text("a|b|c|d|e|f|g")));
}

#[test]
fn workflow_tool_is_hidden_from_workers_once() {
    let once = disable_workflow_tool(vec!["other".to_owned()]);
    assert_eq!(once, vec!["other".to_owned(), "workflow".to_owned()]);
    assert_eq!(disable_workflow_tool(once.clone()), once);
}

fn tool_server(disabled: &[&str]) -> ToolServer {
    ToolServer {
        settings: r#"{"url":"http://127.0.0.1:9000/mcp","http_headers":{"Authorization":"Bearer native-test"}}"#.to_owned(),
        disabled_tools: Some(disabled.iter().map(|tool| (*tool).to_owned()).collect()),
    }
}

fn worker_tools() -> WorkerTools {
    WorkerTools {
        exclude_ultracode_plugin_mcp: false,
        collab: true,
        multi_agent_v2: true,
        servers: Registry::new(),
    }
}

fn server_text(tools: &WorkerTools, name: &str) -> Option<String> {
    tools.servers.get(name).map(|server| format!("{server:?}"))
}

#[test]
fn workflow_child_disables_only_workflow_in_native_task_tools() {
    let mut tools = worker_tools();
    tools.servers.insert("codex_tui".to_owned(), tool_server(&["already-denied"]));
    tools.servers.insert("project_docs".to_owned(), tool_server(&["already-denied"]));
    restrict_worker_tools(&mut tools);
    let native = Some(format!("{:?}", tool_server(&["already-denied"])));
    let expected = Some(format!("{:?}", tool_server(&["already-denied", "workflow"])));
    assert_eq!(server_text(&tools, "codex_tui"), expected);
    assert_eq!(server_text(&tools, "project_docs"), native);
    restrict_worker_tools(&mut tools);
    assert_eq!(server_text(&tools, "codex_tui"), expected);
}

#[test]
fn worker_has_no_way_to_launch_workflows() {
    let mut tools = worker_tools();
    tools.servers.insert("ultracode".to_owned(), tool_server(&[]));
    let bare = ToolServer { settings: "stdio".to_owned(), disabled_tools: None };
    tools.servers.insert("codex_tui".to_owned(), bare);
    restrict_worker_tools(&mut tools);
    assert!(tools.exclude_ultracode_plugin_mcp && !tools.collab && !tools.multi_agent_v2);
    assert!(!tools.servers.contains("ultracode"));
    let task_tools = tools.servers.get("codex_tui").expect("task server");
    assert_eq!(task_tools.settings, "stdio");
    assert_eq!(task_tools.disabled_tools, Some(vec!["workflow".to_owned()]));

    let mut none = worker_tools();
    restrict_worker_tools(&mut none);
    assert!(none.servers.is_empty());

    assert_eq!(
        role_result(&Err("server is locked".to_owned())),
        Err("workflow MCP policy is invalid: server is locked".to_owned())
    );
}

fn launch() -> WorkerLaunch {
    plan_worker(&start_params(), PARENT, &Some(owned()), &snapshot(), facts())
        .expect("planned worker")
        .launch
}

fn child() -> ThreadConfigSnapshot {
    let mut child = snapshot();
    child.forked_from_thread_id = Some(PARENT);
    child
}

fn fresh(value: u128, state: Option<AttemptState>) -> WorkerEntry {
    WorkerEntry::Fresh { reserved: ThreadId { value }, state }
}

fn submitted() -> Result<SubmittedTurn, String> {
    Ok(SubmittedTurn { session_id: "session".into(), turn_id: "turn".into() })
}

#[test]
fn started_worker_goes_on_in_its_own_thread() {
    let mut workers = Workers::new();
    let run = enter_worker(&mut workers, &launch(), fresh(2, None)).expect("reserved thread");
    assert!(workers.get(run.thread_id).expect("worker").launch_intent);
    workers.record_authority(run.thread_id, child());
    let response = finish_worker_start(&mut workers, run, &launch(), submitted()).expect("started");
    assert_eq!(response.thread_id, "00000000-0000-0000-0000-000000000002");
    assert_eq!((response.session_id.as_str(), response.turn_id.as_str()), ("session", "turn"));
    assert_eq!((response.model.as_str(), response.effort.as_str()), ("gpt-test", "medium"));
    assert!(!workers.get(run.thread_id).expect("worker").launch_intent);
    let resume = |cwd: &str| WorkerEntry::Resume {
        thread_id: ThreadId { value: 2 },
        requested_cwd: cwd.to_owned(),
        child: child(),
    };
    assert_eq!(
        enter_worker(&mut workers, &launch(), resume("/elsewhere")).unwrap_err().message,
        "workflow worker resume lineage is invalid"
    );
    let again = enter_worker(&mut workers, &launch(), resume(CHECKOUT)).expect("resumed thread");
    assert!(again.resumed);
    let error =
        finish_worker_start(&mut workers, again, &launch(), Err("busy".to_owned())).unwrap_err();
    assert_eq!(
        (error.code, error.message.as_str()),
        (INTERNAL_ERROR, "failed to start workflow worker: busy")
    );
    assert!(!workers.get(run.thread_id).expect("worker").launch_intent);
    let unknown = WorkerEntry::Resume {
        thread_id: ThreadId { value: 9 },
        requested_cwd: CHECKOUT.to_owned(),
        child: child(),
    };
    assert_eq!(
        enter_worker(&mut workers, &launch(), unknown).unwrap_err().message,
        "workflow worker thread is not owned by this host"
    );
}

#[test]
fn failed_launch_is_not_retried() {
    let mut workers = Workers::new();
    let run = enter_worker(&mut workers, &launch(), fresh(2, None)).expect("reserved thread");
    assert!(finish_worker_start(&mut workers, run, &launch(), Err("gone".to_owned())).is_err());
    assert!(workers.get(run.thread_id).expect("worker").launch_intent);
    assert_eq!(
        enter_worker(&mut workers, &launch(), fresh(3, None)).unwrap_err().message,
        "workflow worker replacement ownership is invalid"
    );
    assert!(workers.get(ThreadId { value: 3 }).is_none());
}

#[test]
fn ended_worker_is_replaced() {
    let mut workers = Workers::new();
    let run = enter_worker(&mut workers, &launch(), fresh(2, None)).expect("reserved thread");
    assert!(finish_worker_start(&mut workers, run, &launch(), submitted()).is_ok());
    let state = |status| Some(AttemptState { config: child(), status });
    for (state, told) in [
        (None, "workflow worker state unavailable"),
        (state(AgentStatus::Running), "workflow worker launch is already owned"),
        (
            Some(AttemptState { config: snapshot(), status: AgentStatus::Shutdown }),
            "workflow worker replacement lineage is invalid",
        ),
    ] {
        assert_eq!(
            enter_worker(&mut workers, &launch(), fresh(3, state)).unwrap_err().message,
            told
        );
    }
    assert!(enter_worker(&mut workers, &launch(), fresh(3, state(AgentStatus::Completed(None)))).is_ok());
    assert!(workers.get(ThreadId { value: 2 }).is_none());
    assert_eq!(workers.attempt("run", "worker").map(|id| id.value), Some(3));
}

fn release_params(workspace_id: Option<&str>) -> WorkflowWorkspaceReleaseParams {
    WorkflowWorkspaceReleaseParams {
        run_id: "run".into(),
        worker_id: "worker".into(),
        workspace_id: workspace_id.map(str::to_owned),
    }
}

#[test]
fn released_workspace_is_named_by_its_owner() {
    let workspaces = workspaces();
    assert!(matches!(release_workspace(&workspaces, &release_params(None)), Ok(None)));
    assert!(matches!(release_workspace(&workspaces, &release_params(Some(ID))), Ok(Some(_))));
    for (id, told) in [
        ("x", "invalid workflow workspace ID"),
        (
            "019b1a2b-3c4d-4e5f-8a6b-0123456789ac",
            "workflow workspace is not owned by this host",
        ),
    ] {
        assert_eq!(
            release_workspace(&workspaces, &release_params(Some(id))).unwrap_err().message,
            told
        );
    }
    let mut other = release_params(Some(ID));
    other.run_id = "other".into();
    assert_eq!(
        release_workspace(&workspaces, &other).unwrap_err().message,
        "workflow workspace ownership is stale"
    );
    let mut workers = Workers::new();
    assert!(workspace_worker(&workers, ID, &owned()).is_none());
    assert!(enter_worker(&mut workers, &launch(), fresh(2, None)).is_ok());
    assert_eq!(workspace_worker(&workers, ID, &owned()).map(|id| id.value), Some(2));
    assert!(workspace_worker(&workers, "other", &owned()).is_none());
}

#[test]
fn workspace_is_released_once_its_worker_has_ended() {
    let decide = |worker, parent: Option<ThreadConfigSnapshot>| {
        release_decision(&authorities(), &owned(), &worker, &parent)
    };
    let ended = || WorkerState::Status(AgentStatus::Completed(None));
    assert_eq!(decide(ended(), Some(snapshot())).ok(), Some(ReleaseDecision::Release));
    assert_eq!(decide(WorkerState::NoWorker, None).ok(), Some(ReleaseDecision::NotYet));
    assert_eq!(
        decide(WorkerState::Status(AgentStatus::Running), None).ok(),
        Some(ReleaseDecision::NotYet)
    );
    assert_eq!(
        decide(WorkerState::Unavailable, None).unwrap_err().message,
        "workflow worker state is unavailable"
    );
    assert_eq!(
        decide(ended(), None).unwrap_err().message,
        "workflow parent thread is unavailable"
    );
    assert_eq!(
        decide(ended(), Some(changed())).unwrap_err().message,
        "workflow parent authority changed before checkout release"
    );
    let none: Registry<WorkflowAuthority> = Registry::new();
    assert_eq!(
        release_decision(&none, &owned(), &ended(), &Some(snapshot())).unwrap_err().message,
        "workflow workspace authority is unavailable"
    );
}

#[test]
fn release_keeps_changed_checkouts() {
    let end = |answers: &dyn Fn(ReleaseStep) -> Answer| {
        let mut taken = vec![ReleaseStep::Identity];
        loop {
            let step = taken[taken.len() - 1];
            match after_release_step(step, answers(step)) {
                AfterRelease::Step(next) => taken.push(next),
                end => return (taken, end),
            }
        }
    };
    let (taken, done) = end(&|_| Answer::Yes);
    assert_eq!((taken.len(), done), (8, AfterRelease::Done));
    let (taken, done) = end(&|step| {
        if step == ReleaseStep::Unchanged { Answer::No } else { Answer::Yes }
    });
    assert!(!taken.contains(&ReleaseStep::Remove) && !taken.contains(&ReleaseStep::DeleteBranch));
    assert_eq!(done, AfterRelease::Done);
    let (_, failed) = end(&|step| {
        if step == ReleaseStep::Remove { Answer::Failed } else { Answer::Yes }
    });
    assert_eq!(failed, AfterRelease::Fail);
    assert_eq!(command_of_release_step(ReleaseStep::Remove), Some(CheckoutCommand::Remove));
    assert_eq!(command_of_release_step(ReleaseStep::Unlock), Some(CheckoutCommand::Unlock));
    assert_eq!(
        command_of_release_step(ReleaseStep::DeleteBranch),
        Some(CheckoutCommand::DeleteBranch)
    );
    assert_eq!(command_of_release_step(ReleaseStep::Identity), None);
}

fn save_params(scope: &str) -> WorkflowSaveParams {
    WorkflowSaveParams {
        parent_thread_id: PARENT.to_text(),
        authority_ref: "authority".into(),
        authority_digest: "digest".into(),
        run_id: "run".into(),
        name: "fix-it".into(),
        scope: scope.into(),
        source: "export default 1".into(),
        source_digest: digest_text("export default 1"),
    }
}

#[test]
fn script_is_read_from_the_parents_directory() {
    let script = resolve_script_path(&path("/repo"), "flows/fix.js");
    assert_eq!(script.text(), "/repo/flows/fix.js");
    assert_eq!(resolve_script_path(&path("/repo"), "/tmp/x.js").text(), "/tmp/x.js");
    let read = script_read(&script, "abc".to_owned());
    assert_eq!(read.resolved_path, "/repo/flows/fix.js");
    assert_eq!(
        read.source_digest,
        "ba7816bf8f01cfea414140de5dae2223b00361a396177a9cb410ff61f20015ad"
    );
}

#[test]
fn saved_workflow_has_a_plain_name_and_its_own_source() {
    assert!(check_save_request(&save_params("user")).is_ok());
    for name in ["", "-fix", "Fix", "../fix", "a.js"] {
        let mut params = save_params("user");
        params.name = name.into();
        assert_eq!(
            check_save_request(&params).unwrap_err().message,
            "invalid workflow save identity"
        );
    }
    let mut params = save_params("user");
    params.source.push(' ');
    assert_eq!(
        check_save_request(&params).unwrap_err().message,
        "workflow save source digest mismatch"
    );
}

#[test]
fn save_goes_to_the_personal_or_the_nearest_project_directory() {
    let home = path("/home");
    let project = Ok(path("/repo/.codex/workflows"));
    let found = PersonalRoot::Found(path("/real/home"));
    let personal = save_destination(&save_params("user"), &home, &found, &project).unwrap();
    assert_eq!(personal.target.text(), "/real/home/workflows/fix-it.js");
    assert!(personal.config_directory.is_none());
    let missing = PersonalRoot::Missing;
    let personal = save_destination(&save_params("user"), &home, &missing, &project).unwrap();
    assert_eq!(personal.directory.text(), "/home/workflows");
    let shared = save_destination(&save_params("project"), &home, &missing, &project).unwrap();
    assert_eq!(shared.target.text(), "/repo/.codex/workflows/fix-it.js");
    assert_eq!(shared.config_directory.map(|p| p.text()).as_deref(), Some("/repo/.codex"));
    let refused = |scope: &str, root: &PersonalRoot, project: Result<AbsolutePath, String>| {
        save_destination(&save_params(scope), &home, root, &project).unwrap_err().message
    };
    assert_eq!(
        refused("user", &PersonalRoot::Failed("denied".into()), Err("no".into())),
        "personal workflow root is not accessible: denied"
    );
    assert_eq!(refused("project", &missing, Err("no repository".into())), "no repository");
    assert_eq!(
        refused("world", &missing, Ok(path("/x"))),
        "invalid workflow save scope"
    );
}

#[test]
fn nearest_existing_ancestor_directory_is_preferred() {
    let boundary = path("/repo");
    let candidates = save_candidates(&boundary, &path("/repo/packages/tool/src"));
    let texts: Vec<String> = candidates.iter().map(|p| p.text()).collect();
    assert_eq!(
        texts,
        vec![
            "/repo/packages/tool/src/.codex/workflows".to_owned(),
            "/repo/packages/tool/.codex/workflows".to_owned(),
            "/repo/packages/.codex/workflows".to_owned(),
            "/repo/.codex/workflows".to_owned(),
        ]
    );
    let exists = vec![false, true, false, true];
    assert_eq!(
        workflow_project_save_directory(&boundary, &candidates, &exists).text(),
        "/repo/packages/tool/.codex/workflows"
    );
    let nothing = vec![false; 4];
    assert_eq!(
        workflow_project_save_directory(&boundary, &candidates, &nothing).text(),
        "/repo/.codex/workflows"
    );
    assert!(save_candidates(&boundary, &path("/elsewhere")).is_empty());
}

#[test]
fn save_needs_a_plain_destination_and_an_approval() {
    let plain = vec![false, false, false];
    let user = ApprovalsReviewer::User;
    let auto = ApprovalsReviewer::AutoReview;
    assert_eq!(save_permission(&plain, true, auto, false).ok(), Some(SavePermission::Held));
    assert_eq!(save_permission(&plain, false, user, false).ok(), Some(SavePermission::Granted));
    assert_eq!(save_permission(&plain, false, auto, true).ok(), Some(SavePermission::Granted));
    assert_eq!(
        save_permission(&plain, false, auto, false).unwrap_err().message,
        "workflow save was not approved"
    );
    assert_eq!(
        save_permission(&vec![false, true, false], true, user, true).unwrap_err().message,
        "unsafe symlink workflow save destination"
    );
}

/// How a sandbox goes by a policy: the closest entry decides, a denial before anything else.
fn can_write(policy: &[PolicyEntry], path: &AbsolutePath) -> bool {
    let about: Vec<&PolicyEntry> =
        policy.iter().filter(|entry| path.starts_with(&entry.path)).collect();
    let closest = about.iter().map(|entry| entry.path.components.len()).max();
    let deciding = |access: FileAccess| {
        about
            .iter()
            .any(|entry| Some(entry.path.components.len()) == closest && entry.access == access)
    };
    deciding(FileAccess::Write) && !deciding(FileAccess::Deny)
}

#[test]
fn workflow_save_directory_bootstrap_is_scoped_before_final_write() {
    let root = path("/root");
    let parent = root.join(".codex");
    let config = parent.join("config.toml");
    let workflows = parent.join("workflows");
    let entry = |path: &AbsolutePath, access| PolicyEntry { path: path.copy(), access };
    let final_policy = || {
        vec![
            entry(&path("/"), FileAccess::Read),
            entry(&root, FileAccess::Write),
            entry(&root.join(".git"), FileAccess::Read),
            entry(&root.join(".agents"), FileAccess::Read),
            entry(&parent, FileAccess::Read),
            entry(&workflows, FileAccess::Write),
        ]
    };
    assert!(!can_write(&final_policy(), &config));
    assert!(!can_write(&final_policy(), &parent));

    let bootstrap = workflow_save_directory_creation_policy(final_policy(), &parent);
    assert!(can_write(&bootstrap, &parent));
    assert!(can_write(&bootstrap, &config));
    assert!(!can_write(&bootstrap, &root.join(".git/config")));
    let mut explicitly_denied = final_policy();
    explicitly_denied.push(entry(&parent, FileAccess::Deny));
    let denied_bootstrap = workflow_save_directory_creation_policy(explicitly_denied, &parent);
    assert!(!can_write(&denied_bootstrap, &parent));
}

#[test]
fn directory_above_is_granted_for_making_directories_alone() {
    let destination = save_destination(
        &save_params("project"),
        &path("/home"),
        &PersonalRoot::Missing,
        &Ok(path("/repo/.codex/workflows")),
    )
    .unwrap();
    let granted = |step, missing| creation_grant(step, &destination, missing).map(|p| p.text());
    assert_eq!(granted(SaveStep::CreateDirectory, true).as_deref(), Some("/repo/.codex"));
    assert_eq!(granted(SaveStep::CreateDirectory, false), None);
    assert_eq!(granted(SaveStep::Write, true), None);
    let denied = PolicyEntry { path: path("/repo/.codex"), access: FileAccess::Deny };
    let policy = workflow_save_directory_creation_policy(vec![denied], &path("/repo/.codex"));
    assert_eq!(policy.len(), 2);
    assert_eq!(policy[0].access, FileAccess::Deny);
    assert_eq!((policy[1].path.text().as_str(), policy[1].access), ("/repo/.codex", FileAccess::Write));
    assert_eq!(
        after_save_step(SaveStep::ProbeParent, SaveAnswer::Succeeded),
        AfterSave::Step(SaveStep::CreateDirectory)
    );
    assert_eq!(
        after_save_step(SaveStep::CreateDirectory, SaveAnswer::AlreadyExists),
        AfterSave::Step(SaveStep::Write)
    );
    assert_eq!(after_save_step(SaveStep::CreateDirectory, SaveAnswer::Failed), AfterSave::Fail);
    assert_eq!(after_save_step(SaveStep::Write, SaveAnswer::AlreadyExists), AfterSave::Fail);
    assert_eq!(after_save_step(SaveStep::Write, SaveAnswer::Succeeded), AfterSave::Done);
    assert_eq!(
        save_result(&destination, Ok(())).unwrap().path,
        "/repo/.codex/workflows/fix-it.js"
    );
    assert_eq!(
        save_result(&destination, Err("full".to_owned())).unwrap_err().message,
        "workflow save failed: full"
    );
}
