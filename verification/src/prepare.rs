//! Preparing the workspace of a worker.
use crate::authority::{workflow_authority_matches, ThreadConfigSnapshot, WorkflowAuthority};
use crate::checkout::{after_create_step, create_next, create_rank, AfterCreate, Answer, CreateStep};
use crate::error::{
    internal_error, invalid_request, refused_by, RpcError, INTERNAL_ERROR, INVALID_REQUEST,
};
use crate::grant::is_issued;
use crate::ids::{
    is_id_component, is_workspace_id, validate_workflow_workspace_id, workflow_id_component,
};
use crate::path::{path_text, AbsolutePath};
use crate::protocol::{WorkflowWorkspacePrepareParams, WorkflowWorkspacePrepareResponse};
use crate::registry::Registry;
use crate::text::{is_text, option_text, plus, same};
use crate::workspace::{
    checkout_branch, is_worktree, workflow_checkout_branch, workflow_worktree_matches,
    CheckoutGrant, WorkflowWorkspaceOwnership, WorktreeFacts,
};
use vstd::prelude::*;
use vstd::string::*;

verus! {

/// Why a preparation is refused by its identity or its authority. Without a snapshot, the parent
/// thread is not there.
pub open spec fn prepare_refusal(
    authorities: Map<Seq<char>, WorkflowAuthority>,
    params: WorkflowWorkspacePrepareParams,
    current: Option<ThreadConfigSnapshot>,
) -> Option<Seq<char>> {
    if !is_id_component(params.run_id@) || !is_id_component(params.worker_id@) {
        Some("workflow workspace identity is invalid"@)
    } else if !authorities.dom().contains(params.authority_ref@) {
        Some("workflow authority reference is unknown"@)
    } else {
        let authority = authorities[params.authority_ref@];
        if authority.digest@ != params.authority_digest@ {
            Some("workflow authority reference is stale"@)
        } else {
            match current {
                None => Some("workflow parent thread is unavailable"@),
                Some(current) => if authority.snapshot.terms() != current.terms()
                    || params.requested_cwd@ != path_text(current.cwd@) {
                    Some("workflow parent authority changed"@)
                } else {
                    None
                },
            }
        }
    }
}

/// The authority under which a workspace is prepared.
pub fn prepare_authority<'a>(
    authorities: &'a Registry<WorkflowAuthority>,
    params: &WorkflowWorkspacePrepareParams,
    current: &Option<ThreadConfigSnapshot>,
) -> (res: Result<&'a WorkflowAuthority, RpcError>)
    requires
        authorities.well_formed(),
    ensures
        refused_by(res, prepare_refusal(authorities.map(), *params, *current)),
        res matches Ok(authority) ==> *authority == authorities.map()[params.authority_ref@],
{
    if !workflow_id_component(params.run_id.as_str()) || !workflow_id_component(
        params.worker_id.as_str(),
    ) {
        return Err(invalid_request("workflow workspace identity is invalid"));
    }
    let authority = match authorities.get(params.authority_ref.as_str()) {
        Some(authority) => authority,
        None => {
            return Err(invalid_request("workflow authority reference is unknown"));
        },
    };
    if !same(authority.digest.as_str(), params.authority_digest.as_str()) {
        return Err(invalid_request("workflow authority reference is stale"));
    }
    match current {
        None => Err(invalid_request("workflow parent thread is unavailable")),
        Some(current) => {
            if !workflow_authority_matches(&authority.snapshot, current) || !same(
                params.requested_cwd.as_str(),
                current.cwd.text().as_str(),
            ) {
                Err(invalid_request("workflow parent authority changed"))
            } else {
                Ok(authority)
            }
        },
    }
}

/// How a workspace is prepared.
#[derive(Debug)]
pub enum PrepareMode {
    /// The worker shares the parent's directory: this is the answer.
    Shared(WorkflowWorkspacePrepareResponse),
    /// The workspace of this identity is used again.
    Reuse(String),
    /// A new checkout is made.
    Create,
}

/// The workspace that a request wants to use again.
pub open spec fn previous_id(params: WorkflowWorkspacePrepareParams) -> Option<Seq<char>> {
    match params.previous {
        Some(previous) => option_text(previous.workspace_id),
        None => None,
    }
}

/// Why a preparation is refused by its role or its isolation.
pub open spec fn prepare_mode_refusal(
    authority: WorkflowAuthority,
    params: WorkflowWorkspacePrepareParams,
    role: Result<String, String>,
) -> Option<Seq<char>> {
    if role is Err {
        Some(role->Err_0@)
    } else if params.isolation is None {
        None
    } else if option_text(params.isolation) != Some("worktree"@) {
        Some("workflow workspace isolation is unsupported"@)
    } else if !authority.allow_isolated_workspaces {
        Some("workflow workspace isolation was not approved by the parent"@)
    } else if previous_id(params) is Some && !is_workspace_id(previous_id(params)->Some_0) {
        Some("invalid workflow workspace ID"@)
    } else {
        None
    }
}

/// Whether a workspace is prepared in this mode.
pub open spec fn is_mode(
    authority: WorkflowAuthority,
    params: WorkflowWorkspacePrepareParams,
    role: Result<String, String>,
    mode: PrepareMode,
) -> bool {
    &&& mode is Shared <==> params.isolation is None
    &&& params.isolation is Some ==> match previous_id(params) {
        Some(id) => mode matches PrepareMode::Reuse(chosen) && chosen@ == id,
        None => mode is Create,
    }
    &&& mode matches PrepareMode::Shared(response) ==> {
        &&& response.workspace_id is None
        &&& response.cwd@ == params.requested_cwd@
        &&& !response.isolated
        &&& response.base_commit is None
        &&& response.authority_generation == authority.generation
        &&& response.role_digest@ == role->Ok_0@
    }
}

/// Decides how a workspace is prepared. `role` is the digest of the applied role, or why it could
/// not be applied.
pub fn prepare_mode(
    authority: &WorkflowAuthority,
    params: &WorkflowWorkspacePrepareParams,
    role: &Result<String, String>,
) -> (res: Result<PrepareMode, RpcError>)
    ensures
        refused_by(res, prepare_mode_refusal(*authority, *params, *role)),
        res matches Ok(mode) ==> is_mode(*authority, *params, *role, mode),
{
    let role_digest = match role {
        Ok(digest) => digest,
        Err(message) => {
            return Err(invalid_request(message.as_str()));
        },
    };
    if params.isolation.is_none() {
        return Ok(
            PrepareMode::Shared(
                WorkflowWorkspacePrepareResponse {
                    workspace_id: None,
                    cwd: params.requested_cwd.clone(),
                    isolated: false,
                    base_commit: None,
                    authority_generation: authority.generation,
                    role_digest: role_digest.clone(),
                },
            ),
        );
    }
    if !is_text(&params.isolation, "worktree") {
        return Err(invalid_request("workflow workspace isolation is unsupported"));
    }
    if !authority.allow_isolated_workspaces {
        return Err(
            invalid_request("workflow workspace isolation was not approved by the parent"),
        );
    }
    match &params.previous {
        Some(previous) => match &previous.workspace_id {
            Some(id) => match validate_workflow_workspace_id(id.as_str()) {
                Ok(_) => Ok(PrepareMode::Reuse(id.clone())),
                Err(error) => Err(error),
            },
            None => Ok(PrepareMode::Create),
        },
        None => Ok(PrepareMode::Create),
    }
}

/// Whether a record is that of a checkout of a repository.
pub open spec fn belongs_to(
    workspace: WorkflowWorkspaceOwnership,
    common_git_dir: Seq<Seq<char>>,
) -> bool {
    workspace.common_git_dir@ == common_git_dir
}

/// Whether a stored record belongs to this repository.
pub fn record_belongs(
    workspace: &WorkflowWorkspaceOwnership,
    common_git_dir: &AbsolutePath,
) -> (res: Result<(), String>)
    ensures
        res is Ok <==> belongs_to(*workspace, common_git_dir@),
        res matches Err(message) ==> message@ == "workspace record belongs to another repository"@,
{
    if workspace.common_git_dir.same(common_git_dir) {
        Ok(())
    } else {
        Err("workspace record belongs to another repository".to_owned())
    }
}

/// The workspaces once the stored record of one was taken up, if it was not known yet.
pub open spec fn with_record(
    workspaces: Map<Seq<char>, WorkflowWorkspaceOwnership>,
    id: Seq<char>,
    record: Option<WorkflowWorkspaceOwnership>,
) -> Map<Seq<char>, WorkflowWorkspaceOwnership> {
    if workspaces.dom().contains(id) {
        workspaces
    } else {
        match record {
            Some(workspace) => workspaces.insert(id, workspace),
            None => workspaces,
        }
    }
}

/// Whether the request describes the workspace as it was prepared before.
pub open spec fn described(
    params: WorkflowWorkspacePrepareParams,
    workspace: WorkflowWorkspaceOwnership,
) -> bool {
    match params.previous {
        Some(previous) => previous.cwd@ == path_text(workspace.cwd@) && option_text(
            previous.base_commit,
        ) == Some(workspace.base_commit@),
        None => false,
    }
}

/// Whether a workspace may be used again by the request.
pub open spec fn reusable(
    id: Seq<char>,
    workspace: WorkflowWorkspaceOwnership,
    authority: WorkflowAuthority,
    params: WorkflowWorkspacePrepareParams,
    worktree: WorktreeFacts,
) -> bool {
    &&& workspace.granted(id)
    &&& workspace.parent_thread_id == authority.parent_thread_id
    &&& workspace.authority_digest@ == params.authority_digest@
    &&& workspace.made_for(params.run_id@, params.worker_id@)
    &&& described(params, workspace)
    &&& workspace.removed || is_worktree(
        worktree,
        workspace.common_git_dir@,
        Some(workspace.branch@),
    )
}

/// Why a workspace cannot be used again.
pub open spec fn reuse_refusal(
    workspaces: Map<Seq<char>, WorkflowWorkspaceOwnership>,
    id: Seq<char>,
    record: Option<WorkflowWorkspaceOwnership>,
    authority: WorkflowAuthority,
    params: WorkflowWorkspacePrepareParams,
    worktree: WorktreeFacts,
) -> Option<Seq<char>> {
    let known = with_record(workspaces, id, record);
    if !known.dom().contains(id) {
        Some("previous workflow workspace is not owned by this host"@)
    } else if !reusable(id, known[id], authority, params, worktree) {
        Some("previous workflow workspace ownership is stale"@)
    } else {
        None
    }
}

/// Whether an answer describes an isolated workspace.
pub open spec fn describes(
    response: WorkflowWorkspacePrepareResponse,
    id: Seq<char>,
    workspace: WorkflowWorkspaceOwnership,
    generation: u64,
    role_digest: Seq<char>,
) -> bool {
    &&& option_text(response.workspace_id) == Some(id)
    &&& response.cwd@ == path_text(workspace.cwd@)
    &&& response.isolated
    &&& option_text(response.base_commit) == Some(workspace.base_commit@)
    &&& response.authority_generation == generation
    &&& response.role_digest@ == role_digest
}

/// Whether a known workspace was taken into use again, and answered with.
pub open spec fn is_reused(
    known: Map<Seq<char>, WorkflowWorkspaceOwnership>,
    id: Seq<char>,
    authority: WorkflowAuthority,
    params: WorkflowWorkspacePrepareParams,
    role_digest: Seq<char>,
    response: WorkflowWorkspacePrepareResponse,
    after: Map<Seq<char>, WorkflowWorkspaceOwnership>,
) -> bool {
    let workspace = known[id];
    &&& after == known.insert(
        id,
        (WorkflowWorkspaceOwnership {
            authority_ref: params.authority_ref,
            released: false,
            ..workspace
        }),
    )
    &&& describes(response, id, workspace, authority.generation, role_digest)
}

/// Takes a workspace into use again, under the request's authority reference. `record` is its
/// stored record, for a workspace that the host does not know yet. What is stored must be updated
/// afterwards.
pub fn reuse_workspace(
    workspaces: &mut Registry<WorkflowWorkspaceOwnership>,
    id: &str,
    record: Option<WorkflowWorkspaceOwnership>,
    authority: &WorkflowAuthority,
    params: &WorkflowWorkspacePrepareParams,
    worktree: &WorktreeFacts,
    role_digest: &str,
) -> (res: Result<WorkflowWorkspacePrepareResponse, RpcError>)
    requires
        old(workspaces).well_formed(),
    ensures
        final(workspaces).well_formed(),
        refused_by(
            res,
            reuse_refusal(old(workspaces).map(), id@, record, *authority, *params, *worktree),
        ),
        res is Err ==> final(workspaces).map() == with_record(old(workspaces).map(), id@, record),
        res matches Ok(response) ==> is_reused(
            with_record(old(workspaces).map(), id@, record),
            id@,
            *authority,
            *params,
            role_digest@,
            response,
            final(workspaces).map(),
        ),
{
    if !workspaces.contains(id) {
        match record {
            Some(record) => {
                workspaces.insert(id.to_owned(), record);
            },
            None => {
                return Err(
                    invalid_request("previous workflow workspace is not owned by this host"),
                );
            },
        }
    }
    let ghost known = workspaces.map();
    assert(known == with_record(old(workspaces).map(), id@, record));
    let allowed = match workspaces.get(id) {
        Some(workspace) => {
            let is_described = match &params.previous {
                Some(previous) => same(previous.cwd.as_str(), workspace.cwd.text().as_str())
                    && is_text(&previous.base_commit, workspace.base_commit.as_str()),
                None => false,
            };
            workspace.is_granted(id) && workspace.parent_thread_id == authority.parent_thread_id
                && same(workspace.authority_digest.as_str(), params.authority_digest.as_str())
                && workspace.is_made_for(params.run_id.as_str(), params.worker_id.as_str())
                && is_described && (workspace.removed || workflow_worktree_matches(
                worktree,
                &workspace.common_git_dir,
                Some(workspace.branch.as_str()),
            ))
        },
        None => false,
    };
    if !allowed {
        return Err(invalid_request("previous workflow workspace ownership is stale"));
    }
    match workspaces.remove(id) {
        Some(workspace) => {
            let mut workspace = workspace;
            let response = WorkflowWorkspacePrepareResponse {
                workspace_id: Some(id.to_owned()),
                cwd: workspace.cwd.text(),
                isolated: true,
                base_commit: Some(workspace.base_commit.clone()),
                authority_generation: authority.generation,
                role_digest: role_digest.to_owned(),
            };
            workspace.authority_ref = params.authority_ref.clone();
            workspace.released = false;
            let ghost updated = workspace;
            workspaces.insert(id.to_owned(), workspace);
            assert(workspaces.map() =~= known.insert(id@, updated));
            Ok(response)
        },
        None => {
            assert(false);
            Err(invalid_request("previous workflow workspace ownership is stale"))
        },
    }
}

/// Whether a workspace is owned on behalf of a request, under a grant.
pub open spec fn is_provisional(
    workspace: WorkflowWorkspaceOwnership,
    authority: WorkflowAuthority,
    params: WorkflowWorkspacePrepareParams,
    grant: CheckoutGrant,
) -> bool {
    &&& workspace.parent_thread_id == authority.parent_thread_id
    &&& workspace.authority_ref@ == params.authority_ref@
    &&& workspace.authority_digest@ == params.authority_digest@
    &&& workspace.run_id@ == params.run_id@
    &&& workspace.worker_id@ == params.worker_id@
    &&& !workspace.released
    &&& !workspace.removed
    &&& workspace.checkout_grant == Some(grant)
}

/// Whether a workspace stands where it is to be made.
pub open spec fn is_placed(
    workspace: WorkflowWorkspaceOwnership,
    params: WorkflowWorkspacePrepareParams,
    current: ThreadConfigSnapshot,
    workspace_id: Seq<char>,
    checkout: Seq<Seq<char>>,
    base_commit: Seq<char>,
    common_git_dir: Seq<Seq<char>>,
) -> bool {
    &&& workspace.cwd@ == checkout
    &&& workspace.base_commit@ == base_commit
    &&& workspace.permission_profile@ == current.permission_profile@
    &&& workspace.common_git_dir@ == common_git_dir
    &&& workspace.repository_cwd@ == current.cwd@
    &&& workspace.branch@ == checkout_branch(params.run_id@, params.worker_id@, workspace_id)
}

/// The ownership of a checkout that is about to be made. Its profile is the parent's until the
/// checkout's own was resolved.
pub fn provisional_ownership(
    authority: &WorkflowAuthority,
    params: &WorkflowWorkspacePrepareParams,
    current: &ThreadConfigSnapshot,
    workspace_id: &str,
    checkout: &AbsolutePath,
    base_commit: &str,
    common_git_dir: &AbsolutePath,
    grant: CheckoutGrant,
) -> (res: WorkflowWorkspaceOwnership)
    requires
        workspace_id@.len() >= 8,
    ensures
        is_provisional(res, *authority, *params, grant),
        is_placed(
            res,
            *params,
            *current,
            workspace_id@,
            checkout@,
            base_commit@,
            common_git_dir@,
        ),
{
    WorkflowWorkspaceOwnership {
        parent_thread_id: authority.parent_thread_id,
        authority_ref: params.authority_ref.clone(),
        authority_digest: params.authority_digest.clone(),
        run_id: params.run_id.clone(),
        worker_id: params.worker_id.clone(),
        cwd: checkout.copy(),
        base_commit: base_commit.to_owned(),
        permission_profile: current.permission_profile.clone(),
        released: false,
        common_git_dir: common_git_dir.copy(),
        repository_cwd: current.cwd.copy(),
        branch: workflow_checkout_branch(
            params.run_id.as_str(),
            params.worker_id.as_str(),
            workspace_id,
        ),
        removed: false,
        checkout_grant: Some(grant),
    }
}

/// Takes a new checkout into the host's ownership and answers the request.
pub fn finish_prepare(
    workspaces: &mut Registry<WorkflowWorkspaceOwnership>,
    workspace_id: String,
    ownership: WorkflowWorkspaceOwnership,
    generation: u64,
    role_digest: String,
) -> (res: WorkflowWorkspacePrepareResponse)
    requires
        old(workspaces).well_formed(),
    ensures
        final(workspaces).well_formed(),
        final(workspaces).map() == old(workspaces).map().insert(workspace_id@, ownership),
        describes(res, workspace_id@, ownership, generation, role_digest@),
{
    let response = WorkflowWorkspacePrepareResponse {
        workspace_id: Some(workspace_id.clone()),
        cwd: ownership.cwd.text(),
        isolated: true,
        base_commit: Some(ownership.base_commit.clone()),
        authority_generation: generation,
        role_digest,
    };
    workspaces.insert(workspace_id, ownership);
    response
}

/// A step of preparing a new checkout.
#[derive(Clone, Copy, Debug, PartialEq, Eq, Structural)]
pub enum PrepareStep {
    /// Resolves the parent's directory.
    Canonical,
    /// Looks whether the place of the checkout is free.
    Absent,
    /// Asks for the permission to make the checkout.
    Grant,
    /// Resolves the common Git directory.
    CommonGitDir,
    /// Searches for the base commit.
    Base,
    /// Forms the write scope of the commands.
    Scope,
    /// Makes the checkout.
    Make(CreateStep),
}

/// What follows a step of preparing a new checkout.
#[derive(Clone, Copy, Debug, PartialEq, Eq, Structural)]
pub enum AfterPrepare {
    Step(PrepareStep),
    /// Nothing was made: fail.
    Fail,
    /// Remove what was made, and fail.
    CleanUp,
    Done,
}

pub open spec fn prepare_next(step: PrepareStep, answer: Answer) -> AfterPrepare {
    match step {
        PrepareStep::Make(step) => match create_next(step, answer) {
            AfterCreate::Step(next) => AfterPrepare::Step(PrepareStep::Make(next)),
            AfterCreate::Fail => AfterPrepare::Fail,
            AfterCreate::CleanUp => AfterPrepare::CleanUp,
            AfterCreate::Done => AfterPrepare::Done,
        },
        _ => if !(answer is Yes) {
            AfterPrepare::Fail
        } else {
            AfterPrepare::Step(
                match step {
                    PrepareStep::Canonical => PrepareStep::Absent,
                    PrepareStep::Absent => PrepareStep::Grant,
                    PrepareStep::Grant => PrepareStep::CommonGitDir,
                    PrepareStep::CommonGitDir => PrepareStep::Base,
                    PrepareStep::Base => PrepareStep::Scope,
                    _ => PrepareStep::Make(CreateStep::Add),
                },
            )
        },
    }
}

/// Tells what follows a step of preparing a new checkout.
pub fn after_prepare_step(step: PrepareStep, answer: Answer) -> (res: AfterPrepare)
    ensures
        res == prepare_next(step, answer),
{
    let next = match step {
        PrepareStep::Make(step) => {
            return match after_create_step(step, answer) {
                AfterCreate::Step(next) => AfterPrepare::Step(PrepareStep::Make(next)),
                AfterCreate::Fail => AfterPrepare::Fail,
                AfterCreate::CleanUp => AfterPrepare::CleanUp,
                AfterCreate::Done => AfterPrepare::Done,
            };
        },
        PrepareStep::Canonical => PrepareStep::Absent,
        PrepareStep::Absent => PrepareStep::Grant,
        PrepareStep::Grant => PrepareStep::CommonGitDir,
        PrepareStep::CommonGitDir => PrepareStep::Base,
        PrepareStep::Base => PrepareStep::Scope,
        PrepareStep::Scope => PrepareStep::Make(CreateStep::Add),
    };
    if answer == Answer::Yes {
        AfterPrepare::Step(next)
    } else {
        AfterPrepare::Fail
    }
}

pub open spec fn prepare_rank(step: PrepareStep) -> int {
    match step {
        PrepareStep::Canonical => 10,
        PrepareStep::Absent => 9,
        PrepareStep::Grant => 8,
        PrepareStep::CommonGitDir => 7,
        PrepareStep::Base => 6,
        PrepareStep::Scope => 5,
        PrepareStep::Make(step) => create_rank(step),
    }
}

/// The steps that a preparation takes from a step on, when each is answered so.
pub open spec fn prepare_steps(
    answers: spec_fn(PrepareStep) -> Answer,
    step: PrepareStep,
) -> Seq<PrepareStep>
    decreases prepare_rank(step),
{
    match prepare_next(step, answers(step)) {
        AfterPrepare::Step(next) => if prepare_rank(next) < prepare_rank(step) {
            seq![step] + prepare_steps(answers, next)
        } else {
            seq![step]
        },
        _ => seq![step],
    }
}

/// How a preparation ends from a step on, when each is answered so.
pub open spec fn prepare_end(
    answers: spec_fn(PrepareStep) -> Answer,
    step: PrepareStep,
) -> AfterPrepare
    decreases prepare_rank(step),
{
    match prepare_next(step, answers(step)) {
        AfterPrepare::Step(next) => if prepare_rank(next) < prepare_rank(step) {
            prepare_end(answers, next)
        } else {
            AfterPrepare::Fail
        },
        end => end,
    }
}

/// Every preparation comes to an end, because each step leads only to later ones.
pub proof fn preparation_moves_on(step: PrepareStep, answer: Answer)
    ensures
        prepare_next(step, answer) matches AfterPrepare::Step(next) ==> prepare_rank(next)
            < prepare_rank(step),
{
}

/// Nothing is made, and no command of the search is run, before the permission was given; and a
/// preparation that is not permitted is not done.
pub proof fn nothing_is_made_before_the_grant(answers: spec_fn(PrepareStep) -> Answer, i: int)
    requires
        0 <= i < prepare_steps(answers, PrepareStep::Canonical).len(),
        !(answers(PrepareStep::Grant) is Yes),
    ensures
        ({
            let step = prepare_steps(answers, PrepareStep::Canonical)[i];
            step == PrepareStep::Canonical || step == PrepareStep::Absent || step
                == PrepareStep::Grant
        }),
        prepare_end(answers, PrepareStep::Canonical) == AfterPrepare::Fail,
{
    reveal_with_fuel(prepare_steps, 4);
    reveal_with_fuel(prepare_end, 4);
}

/// A workspace is prepared anew exactly when every step succeeds.
pub proof fn preparation_needs_every_step(answers: spec_fn(PrepareStep) -> Answer)
    ensures
        prepare_end(answers, PrepareStep::Canonical) == AfterPrepare::Done <==> forall|
            step: PrepareStep,
        | #[trigger] answers(step) is Yes,
{
    reveal_with_fuel(prepare_end, 12);
    assert forall|step: PrepareStep|
        prepare_end(answers, PrepareStep::Canonical) == AfterPrepare::Done implies #[trigger] answers(
        step,
    ) is Yes by {
        match step {
            PrepareStep::Make(step) => match step {
                CreateStep::Add => {},
                CreateStep::Identity => {},
                CreateStep::Lock => {},
                CreateStep::Profile => {},
                CreateStep::Persist => {},
            },
            _ => {},
        }
    }
    if forall|step: PrepareStep| #[trigger] answers(step) is Yes {
        assert(answers(PrepareStep::Canonical) is Yes);
        assert(answers(PrepareStep::Absent) is Yes);
        assert(answers(PrepareStep::Grant) is Yes);
        assert(answers(PrepareStep::CommonGitDir) is Yes);
        assert(answers(PrepareStep::Base) is Yes);
        assert(answers(PrepareStep::Scope) is Yes);
        assert(answers(PrepareStep::Make(CreateStep::Add)) is Yes);
        assert(answers(PrepareStep::Make(CreateStep::Identity)) is Yes);
        assert(answers(PrepareStep::Make(CreateStep::Lock)) is Yes);
        assert(answers(PrepareStep::Make(CreateStep::Profile)) is Yes);
        assert(answers(PrepareStep::Make(CreateStep::Persist)) is Yes);
    }
}

/// Whether a step that fails has an error of its own, which the request is answered with.
pub open spec fn has_own_error(step: PrepareStep) -> bool {
    match step {
        PrepareStep::Grant | PrepareStep::Scope => true,
        PrepareStep::Make(step) => step is Add || step is Lock || step is Profile,
        _ => false,
    }
}

/// Whether a step that has no error of its own fails with this one.
pub open spec fn is_step_error(step: PrepareStep, message: Seq<char>, error: RpcError) -> bool {
    match step {
        PrepareStep::Canonical => error.is(INVALID_REQUEST, message),
        PrepareStep::Absent => error.is(INVALID_REQUEST, "workflow workspace already exists"@),
        PrepareStep::CommonGitDir => error.is(
            INTERNAL_ERROR,
            "failed to resolve workflow common Git directory: "@ + message,
        ),
        PrepareStep::Base => error.is(
            INTERNAL_ERROR,
            "failed to resolve workflow base commit under native permission policy"@,
        ),
        PrepareStep::Make(CreateStep::Identity) => error.is(
            INTERNAL_ERROR,
            "created workflow worktree failed identity validation"@,
        ),
        _ => error.is(INTERNAL_ERROR, "failed to persist workflow ownership: "@ + message),
    }
}

/// The error of a step that has none of its own. `message` is what the system said.
pub fn prepare_step_error(step: PrepareStep, message: &str) -> (res: RpcError)
    requires
        !has_own_error(step),
    ensures
        is_step_error(step, message@, res),
{
    match step {
        PrepareStep::Canonical => invalid_request(message),
        PrepareStep::Absent => invalid_request("workflow workspace already exists"),
        PrepareStep::CommonGitDir => internal_error(
            plus("failed to resolve workflow common Git directory: ", message).as_str(),
        ),
        PrepareStep::Base => internal_error(
            "failed to resolve workflow base commit under native permission policy",
        ),
        PrepareStep::Make(CreateStep::Identity) => internal_error(
            "created workflow worktree failed identity validation",
        ),
        _ => internal_error(plus("failed to persist workflow ownership: ", message).as_str()),
    }
}

/// A checkout that was made for a request and granted to it can be used again by the same request:
/// for as long as it is the expected worktree, and the request describes it as it was prepared.
pub proof fn prepared_workspace_is_reusable(
    id: Seq<char>,
    grant: CheckoutGrant,
    workspace: WorkflowWorkspaceOwnership,
    authority: WorkflowAuthority,
    params: WorkflowWorkspacePrepareParams,
    again: WorkflowWorkspacePrepareParams,
    worktree: WorktreeFacts,
)
    requires
        is_issued(grant, authority, params.run_id@, params.worker_id@, id, workspace.cwd@),
        is_provisional(workspace, authority, params, grant),
        again.run_id@ == params.run_id@,
        again.worker_id@ == params.worker_id@,
        again.authority_digest@ == params.authority_digest@,
        described(again, workspace),
        is_worktree(worktree, workspace.common_git_dir@, Some(workspace.branch@)),
    ensures
        reusable(id, workspace, authority, again, worktree),
{
}

/// A workspace is prepared only for a run and a worker that can be named, under a known authority with
/// its digest, and while the parent is there with the terms of that authority and in the requested
/// directory.
pub proof fn preparation_needs_the_parents_authority(
    authorities: Map<Seq<char>, WorkflowAuthority>,
    params: WorkflowWorkspacePrepareParams,
    current: Option<ThreadConfigSnapshot>,
)
    ensures
        prepare_refusal(authorities, params, current) is None <==> {
            &&& is_id_component(params.run_id@)
            &&& is_id_component(params.worker_id@)
            &&& authorities.dom().contains(params.authority_ref@)
            &&& authorities[params.authority_ref@].digest@ == params.authority_digest@
            &&& current is Some
            &&& authorities[params.authority_ref@].snapshot.terms() == current->Some_0.terms()
            &&& params.requested_cwd@ == path_text(current->Some_0.cwd@)
        },
{
}

/// Isolation is had only where it was approved, and only as a worktree; without it the worker shares
/// the requested directory, and the answer names no workspace. A workspace of before is used again
/// where one is named.
pub proof fn isolation_is_had_as_approved(
    authority: WorkflowAuthority,
    params: WorkflowWorkspacePrepareParams,
    role: Result<String, String>,
    mode: PrepareMode,
)
    requires
        prepare_mode_refusal(authority, params, role) is None,
        is_mode(authority, params, role, mode),
    ensures
        role is Ok,
        mode is Shared <==> params.isolation is None,
        !(mode is Shared) ==> authority.allow_isolated_workspaces && params.isolation is Some
            && params.isolation->Some_0@ == "worktree"@,
        mode is Reuse <==> params.isolation is Some && params.previous is Some
            && params.previous->Some_0.workspace_id is Some,
        mode matches PrepareMode::Reuse(id) ==> id@ == params.previous->Some_0.workspace_id->Some_0@
            && is_workspace_id(id@),
        mode matches PrepareMode::Shared(response) ==> {
            &&& response.workspace_id is None
            &&& !response.isolated
            &&& response.base_commit is None
            &&& response.cwd@ == params.requested_cwd@
            &&& response.authority_generation == authority.generation
            &&& response.role_digest@ == role->Ok_0@
        },
{
}

/// A preparation is refused by its role or its isolation exactly for one of these reasons.
pub proof fn isolation_is_refused_for_a_reason(
    authority: WorkflowAuthority,
    params: WorkflowWorkspacePrepareParams,
    role: Result<String, String>,
)
    ensures
        prepare_mode_refusal(authority, params, role) is None <==> role is Ok && (params.isolation
            is None || (params.isolation->Some_0@ == "worktree"@
            && authority.allow_isolated_workspaces && (params.previous is Some
            && params.previous->Some_0.workspace_id is Some ==> is_workspace_id(
            params.previous->Some_0.workspace_id->Some_0@,
        )))),
        role matches Err(message) ==> prepare_mode_refusal(authority, params, role) == Some(
            message@,
        ),
{
}

/// A workspace is used again only by the run and the worker that it was made for, under the authority
/// that it was made under, with its own grant, where the request describes it as it was prepared, and
/// while it is the worktree that it should be or was removed.
pub proof fn workspace_is_used_again_by_its_own(
    workspaces: Map<Seq<char>, WorkflowWorkspaceOwnership>,
    id: Seq<char>,
    record: Option<WorkflowWorkspaceOwnership>,
    authority: WorkflowAuthority,
    params: WorkflowWorkspacePrepareParams,
    worktree: WorktreeFacts,
)
    ensures
        reuse_refusal(workspaces, id, record, authority, params, worktree) is None <==> {
            let workspace = if workspaces.dom().contains(id) {
                workspaces[id]
            } else {
                record->Some_0
            };
            &&& workspaces.dom().contains(id) || record is Some
            &&& workspace.checkout_grant is Some
            &&& {
                let grant = workspace.checkout_grant->Some_0;
                &&& grant.workspace_id@ == id
                &&& grant.parent_thread_id == workspace.parent_thread_id
                &&& grant.run_id@ == workspace.run_id@
                &&& grant.worker_id@ == workspace.worker_id@
                &&& grant.path@ == workspace.cwd@
            }
            &&& workspace.parent_thread_id == authority.parent_thread_id
            &&& workspace.authority_digest@ == params.authority_digest@
            &&& workspace.run_id@ == params.run_id@
            &&& workspace.worker_id@ == params.worker_id@
            &&& params.previous is Some
            &&& params.previous->Some_0.cwd@ == path_text(workspace.cwd@)
            &&& params.previous->Some_0.base_commit is Some
            &&& params.previous->Some_0.base_commit->Some_0@ == workspace.base_commit@
            &&& workspace.removed || is_worktree(
                worktree,
                workspace.common_git_dir@,
                Some(workspace.branch@),
            )
        },
{
}

/// A workspace that is used again is leased again under the authority of the request. Nothing else of
/// it changes, and nothing of any other workspace; what the host knew already counts, not the record.
pub proof fn used_again_is_leased_again(
    workspaces: Map<Seq<char>, WorkflowWorkspaceOwnership>,
    id: Seq<char>,
    record: Option<WorkflowWorkspaceOwnership>,
    authority: WorkflowAuthority,
    params: WorkflowWorkspacePrepareParams,
    role_digest: Seq<char>,
    response: WorkflowWorkspacePrepareResponse,
    after: Map<Seq<char>, WorkflowWorkspaceOwnership>,
)
    requires
        workspaces.dom().contains(id) || record is Some,
        is_reused(
            with_record(workspaces, id, record),
            id,
            authority,
            params,
            role_digest,
            response,
            after,
        ),
    ensures
        ({
            let before = if workspaces.dom().contains(id) {
                workspaces[id]
            } else {
                record->Some_0
            };
            &&& after.dom() == workspaces.dom().insert(id)
            &&& !after[id].released
            &&& after[id].authority_ref@ == params.authority_ref@
            &&& after[id].cwd == before.cwd
            &&& after[id].branch == before.branch
            &&& after[id].base_commit == before.base_commit
            &&& after[id].common_git_dir == before.common_git_dir
            &&& after[id].removed == before.removed
            &&& after[id].checkout_grant == before.checkout_grant
            &&& after[id].permission_profile == before.permission_profile
            &&& option_text(response.workspace_id) == Some(id)
            &&& response.cwd@ == path_text(before.cwd@)
            &&& response.isolated
            &&& option_text(response.base_commit) == Some(before.base_commit@)
            &&& response.authority_generation == authority.generation
            &&& response.role_digest@ == role_digest
        }),
        forall|other: Seq<char>|
            other != id && #[trigger] workspaces.dom().contains(other) ==> after[other]
                == workspaces[other],
{
    assert(after.dom() =~= workspaces.dom().insert(id));
}

/// The steps of preparing a new checkout are taken in one order, each only after those before it
/// succeeded: the place is looked at, the permission is asked for, the repository and the base commit
/// are found, the scope is formed, and then the checkout is made.
pub proof fn preparation_keeps_its_order(answers: spec_fn(PrepareStep) -> Answer)
    ensures
        ({
            let steps = prepare_steps(answers, PrepareStep::Canonical);
            let order = seq![
                PrepareStep::Canonical,
                PrepareStep::Absent,
                PrepareStep::Grant,
                PrepareStep::CommonGitDir,
                PrepareStep::Base,
                PrepareStep::Scope,
                PrepareStep::Make(CreateStep::Add),
                PrepareStep::Make(CreateStep::Identity),
                PrepareStep::Make(CreateStep::Lock),
                PrepareStep::Make(CreateStep::Profile),
                PrepareStep::Make(CreateStep::Persist),
            ];
            let end = prepare_end(answers, PrepareStep::Canonical);
            &&& 1 <= steps.len() <= 11
            &&& steps == order.take(steps.len() as int)
            &&& end is CleanUp <==> steps.len() > 7 && !(answers(steps.last()) is Yes) || (
            steps.len() == 7 && (answers(steps.last()) is Failed || answers(steps.last())
                is NotRun))
            &&& end is Done <==> steps.len() == 11 && answers(steps.last()) is Yes
        }),
{
    reveal_with_fuel(prepare_steps, 12);
    reveal_with_fuel(prepare_end, 12);
    let steps = prepare_steps(answers, PrepareStep::Canonical);
    let order = seq![
        PrepareStep::Canonical,
        PrepareStep::Absent,
        PrepareStep::Grant,
        PrepareStep::CommonGitDir,
        PrepareStep::Base,
        PrepareStep::Scope,
        PrepareStep::Make(CreateStep::Add),
        PrepareStep::Make(CreateStep::Identity),
        PrepareStep::Make(CreateStep::Lock),
        PrepareStep::Make(CreateStep::Profile),
        PrepareStep::Make(CreateStep::Persist),
    ];
    assert(steps =~= order.take(steps.len() as int));
}

/// A preparation that fails at the parent's directory or because its place is taken blames the
/// request; any other step without an error of its own blames the host, and what the system said is
/// told.
pub proof fn failed_preparation_is_told(step: PrepareStep, message: Seq<char>, error: RpcError)
    requires
        !has_own_error(step),
        is_step_error(step, message, error),
    ensures
        error.code == INVALID_REQUEST <==> step is Canonical || step is Absent,
        error.code == INTERNAL_ERROR <==> !(step is Canonical || step is Absent),
        step is Canonical ==> error.message@ == message,
        step is CommonGitDir || step == PrepareStep::Make(CreateStep::Persist)
            ==> error.message@.len() >= message.len() && error.message@.skip(
            error.message@.len() - message.len(),
        ) == message,
{
    if step is CommonGitDir || step == PrepareStep::Make(CreateStep::Persist) {
        assert(error.message@.skip(error.message@.len() - message.len()) =~= message);
    }
}

/// A record is taken up in the repository that it was made in alone.
pub proof fn record_is_taken_up_where_it_was_made(
    workspace: WorkflowWorkspaceOwnership,
    other: Seq<Seq<char>>,
)
    ensures
        belongs_to(workspace, workspace.common_git_dir@),
        other != workspace.common_git_dir@ ==> !belongs_to(workspace, other),
{
}

/// A checkout is owned where it is made and by whom it is asked for: by the parent of the authority,
/// for the run and the worker of the request, on a branch of its own from the commit that was found,
/// and neither released nor removed.
pub proof fn checkout_is_owned_as_asked(
    workspace: WorkflowWorkspaceOwnership,
    authority: WorkflowAuthority,
    params: WorkflowWorkspacePrepareParams,
    grant: CheckoutGrant,
    current: ThreadConfigSnapshot,
    workspace_id: Seq<char>,
    checkout: Seq<Seq<char>>,
    base_commit: Seq<char>,
    common_git_dir: Seq<Seq<char>>,
)
    requires
        is_provisional(workspace, authority, params, grant),
        is_placed(
            workspace,
            params,
            current,
            workspace_id,
            checkout,
            base_commit,
            common_git_dir,
        ),
    ensures
        workspace.parent_thread_id == authority.parent_thread_id,
        workspace.authority_ref@ == params.authority_ref@ && workspace.authority_digest@
            == params.authority_digest@,
        workspace.made_for(params.run_id@, params.worker_id@),
        !workspace.released && !workspace.removed,
        workspace.checkout_grant == Some(grant),
        workspace.cwd@ == checkout,
        workspace.base_commit@ == base_commit,
        belongs_to(workspace, common_git_dir),
        workspace.repository_cwd@ == current.cwd@,
        workspace.permission_profile@ == current.permission_profile@,
        workspace.branch@ == checkout_branch(params.run_id@, params.worker_id@, workspace_id),
{
}

/// A step that fails is told as what failed: a place that is taken, or that is not what it seems, is
/// the fault of the request, and everything else that of the host, with the cause where there is one.
pub proof fn failed_step_is_told(step: PrepareStep, message: Seq<char>, error: RpcError)
    requires
        is_step_error(step, message, error),
    ensures
        step is Canonical ==> error.message@ == message,
        step is Absent ==> error.message@ == "workflow workspace already exists"@,
        step is Canonical || step is Absent <==> error.code == -32600,
        !(step is Canonical || step is Absent) ==> error.code == -32603,
        step is CommonGitDir ==> error.message@
            == "failed to resolve workflow common Git directory: "@ + message,
        step is Base ==> error.message@
            == "failed to resolve workflow base commit under native permission policy"@,
        step == PrepareStep::Make(CreateStep::Identity) ==> error.message@
            == "created workflow worktree failed identity validation"@,
{
}

} // verus!
