//! Tests of making, cleaning up and granting checkouts.
use ultracode_workflow::authority::{ApprovalsReviewer, ThreadConfigSnapshot, WorkflowAuthority};
use ultracode_workflow::checkout::{
    after_cleanup_step, after_create_step, after_restore_step, answer_of_command,
    checkout_command_result, checkout_command_scope, cleanup_error, creation_error, AfterCleanup,
    AfterCreate, Answer,
    CheckoutCommand, CleanupStep, CommandOutput, CreateStep, PathProbe,
};
use ultracode_workflow::error::{internal_error, ErrorData};
use ultracode_workflow::grant::{
    admit_checkout_command, checkout_executor, checkout_grant_reason, checkout_grant_reply,
    checkout_grant_route, checkout_profile_template, command_needs_escalation,
    issue_checkout_grant, review_approves, workflow_command_approval, workspace_turn_id,
    CommandApproval, CommandReply, EnvironmentState, ExecApprovalRequirement, Executor, GrantAnswer,
    GrantReply, GrantRoute, ProfileTemplate, RequestedEntry, ReviewDecision,
};
use ultracode_workflow::ids::ThreadId;
use ultracode_workflow::path::AbsolutePath;
use ultracode_workflow::workspace::WorkflowWorkspaceOwnership;

fn path(value: &str) -> AbsolutePath {
    AbsolutePath::parse(value).expect("absolute test path")
}

fn snapshot() -> ThreadConfigSnapshot {
    ThreadConfigSnapshot {
        model: "gpt-test".into(),
        model_provider_id: "openai".into(),
        service_tier: None,
        approval_policy: "on-request".into(),
        permission_requests_allowed: true,
        approvals_reviewer: ApprovalsReviewer::User,
        permission_profile: "read-only".into(),
        active_permission_profile: None,
        environments: "/repo".into(),
        workspace_roots: vec!["/repo".into()],
        profile_workspace_roots: vec!["/repo".into()],
        cwd: path("/repo"),
        reasoning_effort: None,
        forked_from_thread_id: None,
    }
}

fn changed() -> ThreadConfigSnapshot {
    let mut changed = snapshot();
    changed.permission_profile = "disabled".into();
    changed
}

fn authority() -> WorkflowAuthority {
    WorkflowAuthority {
        parent_thread_id: ThreadId { value: 1 },
        generation: 1,
        snapshot: snapshot(),
        digest: "digest".into(),
        allow_isolated_workspaces: true,
        codex_home: path("/home"),
    }
}

fn workspace() -> WorkflowWorkspaceOwnership {
    WorkflowWorkspaceOwnership {
        parent_thread_id: ThreadId { value: 1 },
        authority_ref: "authority".into(),
        authority_digest: "digest".into(),
        run_id: "run".into(),
        worker_id: "worker".into(),
        cwd: path("/repo/x/checkout"),
        base_commit: "base".into(),
        permission_profile: "read-only".into(),
        released: false,
        common_git_dir: path("/repo/.git"),
        repository_cwd: path("/repo"),
        branch: "branch".into(),
        removed: false,
        checkout_grant: None,
    }
}

#[test]
fn commands_name_the_checkout_and_its_branch() {
    let words = |command: CheckoutCommand| command.words("id", &workspace()).join(" ");
    assert_eq!(
        words(CheckoutCommand::Add),
        "git worktree add -b branch /repo/x/checkout base"
    );
    assert_eq!(words(CheckoutCommand::ForceRemove), "git worktree remove --force /repo/x/checkout");
    assert_eq!(words(CheckoutCommand::DeleteBranch), "git update-ref -d refs/heads/branch base");
    assert!(CheckoutCommand::Add.writes());
    assert!(!CheckoutCommand::ResolveBranch.writes());
}

#[test]
fn scope_grows_by_a_missing_namespace() {
    let texts = |probe: PathProbe| -> Vec<String> {
        checkout_command_scope(&path("/a/b/c"), probe, &path("/repo/.git"))
            .unwrap()
            .iter()
            .map(|path| path.text())
            .collect()
    };
    assert_eq!(texts(PathProbe::Present), vec!["/a/b", "/repo/.git"]);
    assert_eq!(texts(PathProbe::Missing), vec!["/a/b", "/a", "/repo/.git"]);
    let refused = |checkout: &str, probe: PathProbe| {
        checkout_command_scope(&path(checkout), probe, &path("/repo/.git")).unwrap_err().message
    };
    assert_eq!(refused("/", PathProbe::Present), "checkout has no parent");
    assert_eq!(refused("/a", PathProbe::Present), "checkout namespace is missing");
    assert_eq!(refused("/a/b", PathProbe::Failed("denied".into())), "denied");
}

#[test]
fn failed_commands_differ_from_those_not_run() {
    let output = |exit_code: i32| CommandOutput {
        exit_code,
        stdout: " out\n".into(),
        stderr: "err".into(),
    };
    let ran = checkout_command_result(Ok(output(0)));
    assert_eq!(ran.as_ref().unwrap(), "out");
    assert_eq!(answer_of_command(&ran), Answer::Yes);
    let failed = checkout_command_result(Ok(output(7)));
    assert!(matches!(failed.as_ref().unwrap_err().data, Some(ErrorData::ExitCode(7))));
    assert_eq!(answer_of_command(&failed), Answer::Failed);
    let not_run = checkout_command_result(Err("spawn".into()));
    assert_eq!(answer_of_command(&not_run), Answer::NotRun);
}

#[test]
fn checkout_is_made_step_by_step_or_cleaned_up() {
    let mut step = CreateStep::Add;
    let mut count: usize = 1;
    while let AfterCreate::Step(next) = after_create_step(step, Answer::Yes) {
        assert_eq!(after_create_step(next, Answer::Failed), AfterCreate::CleanUp);
        step = next;
        count += 1;
    }
    assert_eq!((step, count), (CreateStep::Persist, 5));
    assert_eq!(after_create_step(step, Answer::Yes), AfterCreate::Done);
    assert_eq!(after_create_step(CreateStep::Add, Answer::Refused), AfterCreate::Fail);
    assert_eq!(after_create_step(CreateStep::Add, Answer::Failed), AfterCreate::CleanUp);
    assert_eq!(after_restore_step(CreateStep::Lock, Answer::Yes), AfterCreate::Done);
}

fn cleanup(answer: impl Fn(CleanupStep) -> Answer) -> (Vec<CleanupStep>, AfterCleanup) {
    let mut steps = vec![CleanupStep::Identity];
    loop {
        let step = *steps.last().unwrap();
        match after_cleanup_step(step, answer(step)) {
            AfterCleanup::Step(next) => steps.push(next),
            end => return (steps, end),
        }
    }
}

#[test]
fn clean_up_removes_only_its_own_worktree_and_branch() {
    let (steps, end) = cleanup(|_| Answer::Yes);
    assert_eq!(steps.len(), 7);
    assert_eq!(end, AfterCleanup::Done);
    let (steps, _) = cleanup(|step| match step {
        CleanupStep::Identity => Answer::No,
        _ => Answer::Yes,
    });
    assert!(!steps.contains(&CleanupStep::Remove) && !steps.contains(&CleanupStep::Unlock));
    let (steps, end) = cleanup(|step| match step {
        CleanupStep::ResolveBranch => Answer::No,
        _ => Answer::Yes,
    });
    assert!(!steps.contains(&CleanupStep::DeleteBranch));
    assert_eq!(end, AfterCleanup::BranchChanged);
    let (_, end) = cleanup(|step| match step {
        CleanupStep::PathGone => Answer::No,
        _ => Answer::Yes,
    });
    assert_eq!(end, AfterCleanup::PathRemains);
}

#[test]
fn grant_is_asked_for_where_it_is_needed() {
    let route = |can_write: bool, current: &ThreadConfigSnapshot| {
        let (cwd, checkout) = (Ok(path("/repo")), path("/repo/.ultracode/worktrees/run"));
        checkout_grant_route(&cwd, &checkout, &vec![false], can_write, current).unwrap()
    };
    assert_eq!(route(true, &snapshot()), GrantRoute::Granted);
    assert_eq!(route(false, &snapshot()), GrantRoute::Ask);
    let mut auto = snapshot();
    auto.approvals_reviewer = ApprovalsReviewer::AutoReview;
    assert_eq!(route(false, &auto), GrantRoute::Review);
    let mut never = snapshot();
    never.permission_requests_allowed = false;
    assert_eq!(route(false, &never), GrantRoute::Prohibited);
}

#[test]
fn nobody_is_asked_for_a_checkout_below_a_symlink() {
    let refused = |cwd: Result<AbsolutePath, String>, symlinks: Vec<bool>| {
        let checkout = path("/repo/.ultracode/worktrees/run");
        checkout_grant_route(&cwd, &checkout, &symlinks, true, &snapshot()).unwrap_err().message
    };
    assert_eq!(
        refused(Ok(path("/repo")), vec![false, true]),
        "workflow checkout path contains a symlink"
    );
    assert_eq!(
        refused(Ok(path("/other")), Vec::new()),
        "workflow checkout is outside its recorded repository"
    );
    assert_eq!(refused(Err("gone".into()), Vec::new()), "gone");
}

#[test]
fn grant_needs_an_approval_that_lasts() {
    let answer = |strict: Option<bool>| {
        GrantReply::Answered(Some(GrantAnswer { strict_auto_review: strict, conversion_error: None }))
    };
    assert!(checkout_grant_reply(GrantRoute::Granted, &GrantReply::NotNeeded).is_ok());
    assert!(checkout_grant_reply(GrantRoute::Ask, &answer(None)).is_ok());
    assert!(checkout_grant_reply(GrantRoute::Ask, &answer(Some(true))).is_err());
    assert!(checkout_grant_reply(GrantRoute::Ask, &GrantReply::NoFrontend).is_err());
    assert!(checkout_grant_reply(GrantRoute::Ask, &GrantReply::Answered(None)).is_err());
    assert!(checkout_grant_reply(GrantRoute::Review, &GrantReply::Reviewed(true)).is_ok());
    assert!(checkout_grant_reply(GrantRoute::Review, &GrantReply::Reviewed(false)).is_err());
    assert!(checkout_grant_reply(GrantRoute::Prohibited, &GrantReply::NotNeeded).is_err());
}

#[test]
fn grant_is_issued_under_an_unchanged_authority() {
    let issue = |write: bool, current: &ThreadConfigSnapshot| {
        issue_checkout_grant(write, &authority(), current, "run", "worker", "id", &path("/c"))
    };
    let grant = issue(true, &snapshot()).unwrap();
    assert_eq!((grant.run_id.as_str(), grant.workspace_id.as_str()), ("run", "id"));
    assert_eq!(
        issue(false, &snapshot()).unwrap_err().message,
        "workflow checkout permission was denied"
    );
    assert_eq!(
        issue(true, &changed()).unwrap_err().message,
        "workflow parent authority changed during checkout approval"
    );
    assert_eq!(
        checkout_grant_reason(ThreadId { value: 0 }, "run", "worker", "id", &path("/c")),
        "Grant isolated checkout only: parent=00000000-0000-0000-0000-000000000000 run=run worker=worker workspace=id path=/c"
    );
    assert_eq!(workspace_turn_id("id"), "workflow-workspace-id");
}

#[test]
fn profile_comes_from_a_ready_environment_or_the_thread() {
    let template = |state: EnvironmentState| {
        checkout_profile_template(&authority(), &snapshot(), state)
    };
    assert_eq!(template(EnvironmentState::Ready).unwrap(), ProfileTemplate::Environment);
    assert_eq!(template(EnvironmentState::Unselected).unwrap(), ProfileTemplate::Thread);
    assert_eq!(template(EnvironmentState::FromThread).unwrap(), ProfileTemplate::Thread);
    assert_eq!(
        template(EnvironmentState::NotReady).unwrap_err().message,
        "workflow checkout environment is not ready"
    );
    assert!(checkout_profile_template(&authority(), &changed(), EnvironmentState::Ready).is_err());
}

#[test]
fn commands_run_on_one_local_executor() {
    assert!(checkout_executor(Executor::Local).is_ok());
    assert_eq!(
        checkout_executor(Executor::Missing).unwrap_err().message,
        "workflow checkout requires one local executor"
    );
    assert_eq!(
        checkout_executor(Executor::External).unwrap_err().message,
        "workflow checkout cannot bypass an external executor"
    );
}

#[test]
fn escalation_is_needed_for_anything_not_writable() {
    assert!(!command_needs_escalation(&Vec::new()));
    assert!(!command_needs_escalation(&vec![RequestedEntry::Path { writable: true }]));
    assert!(command_needs_escalation(&vec![
        RequestedEntry::Path { writable: true },
        RequestedEntry::Path { writable: false }
    ]));
    assert!(command_needs_escalation(&vec![RequestedEntry::Other]));
}

#[test]
fn command_approval_follows_the_policy() {
    let approval = |requirement: ExecApprovalRequirement, strict: bool, by: ApprovalsReviewer| {
        workflow_command_approval(&requirement, strict, by)
    };
    assert!(matches!(
        approval(ExecApprovalRequirement::Skip, false, ApprovalsReviewer::User),
        CommandApproval::Authorized
    ));
    assert!(matches!(
        approval(ExecApprovalRequirement::Skip, true, ApprovalsReviewer::User),
        CommandApproval::Review(_)
    ));
    assert!(matches!(
        approval(ExecApprovalRequirement::NeedsApproval(Some("why".into())), false, ApprovalsReviewer::User),
        CommandApproval::AskUser(reason) if reason == "why"
    ));
    assert!(matches!(
        approval(ExecApprovalRequirement::NeedsApproval(None), false, ApprovalsReviewer::AutoReview),
        CommandApproval::Review(_)
    ));
    assert!(matches!(
        approval(ExecApprovalRequirement::Forbidden("no".into()), false, ApprovalsReviewer::User),
        CommandApproval::Forbidden(reason) if reason == "no"
    ));
    assert!(review_approves(Some(ReviewDecision::ApprovedForSession)));
    assert!(!review_approves(Some(ReviewDecision::Denied)) && !review_approves(None));
}

#[test]
fn command_runs_only_when_approved_under_the_same_authority() {
    let admitted = |approval: CommandApproval, reply: CommandReply, now: &ThreadConfigSnapshot| {
        admit_checkout_command(&approval, reply, &snapshot(), now)
    };
    assert!(admitted(CommandApproval::Authorized, CommandReply::NotNeeded, &snapshot()).is_ok());
    assert!(admitted(CommandApproval::AskUser("r".into()), CommandReply::Answered(true), &snapshot()).is_ok());
    assert_eq!(
        admitted(CommandApproval::AskUser("r".into()), CommandReply::Answered(false), &snapshot())
            .unwrap_err()
            .message,
        "workflow checkout command was not approved"
    );
    assert_eq!(
        admitted(CommandApproval::AskUser("r".into()), CommandReply::NoFrontend, &snapshot())
            .unwrap_err()
            .message,
        "workflow checkout command requires an attached native frontend"
    );
    assert_eq!(
        admitted(CommandApproval::Authorized, CommandReply::NotNeeded, &changed())
            .unwrap_err()
            .message,
        "workflow parent authority changed during command approval"
    );
    assert_eq!(
        admitted(CommandApproval::Forbidden("no".into()), CommandReply::Answered(true), &snapshot())
            .unwrap_err()
            .message,
        "no"
    );
    assert!(admitted(
        CommandApproval::Review("r".into()),
        CommandReply::Reviewed(Some(ReviewDecision::Approved)),
        &snapshot()
    )
    .is_ok());
}

#[test]
fn failed_checkout_tells_what_remains() {
    let cwd = path("/repo/x/checkout");
    assert!(cleanup_error(AfterCleanup::Done, &cwd).is_none());
    let remains = cleanup_error(AfterCleanup::PathRemains, &cwd);
    assert_eq!(
        remains.as_ref().map(|error| error.message.as_str()),
        Some("checkout at /repo/x/checkout could not be safely removed; evidence retained")
    );
    assert_eq!(
        cleanup_error(AfterCleanup::BranchChanged, &cwd).map(|error| error.message).as_deref(),
        Some("workflow branch changed during cleanup; evidence retained")
    );
    let failed = || internal_error("lock failed");
    assert_eq!(creation_error(failed(), CreateStep::Lock, &cwd, &None).message, "lock failed");
    let cleanup = Some(internal_error("busy"));
    assert_eq!(
        creation_error(failed(), CreateStep::Lock, &cwd, &cleanup).message,
        "lock failed; cleanup unresolved at /repo/x/checkout: busy"
    );
    assert_eq!(
        creation_error(failed(), CreateStep::Identity, &cwd, &cleanup).message,
        "lock failed; cleanup unresolved: busy"
    );
}
