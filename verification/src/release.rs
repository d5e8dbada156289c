//! Giving up the workspace of a worker that has ended.
use crate::authority::{workflow_authority_matches, ThreadConfigSnapshot, WorkflowAuthority};
use crate::checkout::{Answer, CheckoutCommand};
use crate::error::{invalid_request, refused_by, RpcError};
use crate::ids::{is_workspace_id, validate_workflow_workspace_id, ThreadId};
use crate::protocol::WorkflowWorkspaceReleaseParams;
use crate::registry::Registry;
use crate::text::{is_text, option_text, same};
use crate::worker::{is_attempt, Workers, WorkflowWorkerOwnership};
use crate::workspace::{
    is_terminal, workflow_release_eligible, AgentStatus, WorkflowWorkspaceOwnership,
};
use vstd::prelude::*;

verus! {

/// What a release request leads to.
#[derive(Clone, Copy, Debug, PartialEq, Eq, Structural)]
pub enum ReleaseDecision {
    /// The worker may still use it.
    NotYet,
    /// It is released.
    Release,
}

/// Why a release request is refused by its workspace.
pub open spec fn release_refusal(
    workspaces: Map<Seq<char>, WorkflowWorkspaceOwnership>,
    params: WorkflowWorkspaceReleaseParams,
) -> Option<Seq<char>> {
    match option_text(params.workspace_id) {
        None => None,
        Some(id) => if !is_workspace_id(id) {
            Some("invalid workflow workspace ID"@)
        } else if !workspaces.dom().contains(id) {
            Some("workflow workspace is not owned by this host"@)
        } else if !workspaces[id].granted(id) || !workspaces[id].made_for(
            params.run_id@,
            params.worker_id@,
        ) {
            Some("workflow workspace ownership is stale"@)
        } else {
            None
        },
    }
}

/// The workspace that a release request names, if it names one.
pub fn release_workspace<'a>(
    workspaces: &'a Registry<WorkflowWorkspaceOwnership>,
    params: &WorkflowWorkspaceReleaseParams,
) -> (res: Result<Option<&'a WorkflowWorkspaceOwnership>, RpcError>)
    requires
        workspaces.well_formed(),
    ensures
        refused_by(res, release_refusal(workspaces.map(), *params)),
        res matches Ok(found) ==> match option_text(params.workspace_id) {
            None => found is None,
            Some(id) => found matches Some(workspace) && *workspace == workspaces.map()[id],
        },
{
    let id = match &params.workspace_id {
        Some(id) => id.as_str(),
        None => {
            return Ok(None);
        },
    };
    match validate_workflow_workspace_id(id) {
        Ok(_) => {},
        Err(error) => {
            return Err(error);
        },
    }
    match workspaces.get(id) {
        None => Err(invalid_request("workflow workspace is not owned by this host")),
        Some(workspace) => {
            if !workspace.is_granted(id) || !workspace.is_made_for(
                params.run_id.as_str(),
                params.worker_id.as_str(),
            ) {
                Err(invalid_request("workflow workspace ownership is stale"))
            } else {
                Ok(Some(workspace))
            }
        },
    }
}

/// Whether a worker uses a workspace.
pub open spec fn uses(
    worker: WorkflowWorkerOwnership,
    id: Seq<char>,
    workspace: WorkflowWorkspaceOwnership,
) -> bool {
    &&& worker.parent_thread_id == workspace.parent_thread_id
    &&& is_attempt(worker, workspace.run_id@, workspace.worker_id@)
    &&& option_text(worker.workspace_id) == Some(id)
}

/// The thread of the worker that uses a workspace, if there is one.
pub fn workspace_worker(
    workers: &Workers,
    id: &str,
    workspace: &WorkflowWorkspaceOwnership,
) -> (res: Option<ThreadId>)
    requires
        workers.well_formed(),
    ensures
        res matches Some(thread_id) ==> workers.map().dom().contains(thread_id) && uses(
            workers.map()[thread_id],
            id@,
            *workspace,
        ),
        res is None ==> forall|thread_id: ThreadId| #[trigger]
            workers.map().dom().contains(thread_id) ==> !uses(
                workers.map()[thread_id],
                id@,
                *workspace,
            ),
{
    let thread_id = match workers.attempt(workspace.run_id.as_str(), workspace.worker_id.as_str()) {
        Some(thread_id) => thread_id,
        None => {
            return None;
        },
    };
    match workers.get(thread_id) {
        Some(worker) => {
            if worker.parent_thread_id == workspace.parent_thread_id && is_text(
                &worker.workspace_id,
                id,
            ) {
                Some(thread_id)
            } else {
                proof {
                    assert forall|other: ThreadId| #[trigger]
                        workers.map().dom().contains(other) implies !uses(
                        workers.map()[other],
                        id@,
                        *workspace,
                    ) by {
                        if uses(workers.map()[other], id@, *workspace) {
                            assert(is_attempt(
                                workers.map()[other],
                                workers.map()[thread_id].run_id@,
                                workers.map()[thread_id].worker_id@,
                            ));
                        }
                    }
                }
                None
            }
        },
        None => None,
    }
}

/// What is known of the worker that uses a workspace.
#[derive(Debug)]
pub enum WorkerState {
    /// No worker uses it.
    NoWorker,
    /// Its thread is not there.
    Unavailable,
    Status(AgentStatus),
}

/// Why a release cannot go on once the worker and the parent were looked at. Without a snapshot, the
/// parent thread is not there.
pub open spec fn release_authority_refusal(
    authorities: Map<Seq<char>, WorkflowAuthority>,
    workspace: WorkflowWorkspaceOwnership,
    worker: WorkerState,
    parent: Option<ThreadConfigSnapshot>,
) -> Option<Seq<char>> {
    match worker {
        WorkerState::NoWorker => None,
        WorkerState::Unavailable => Some("workflow worker state is unavailable"@),
        WorkerState::Status(status) => if !is_terminal(status) {
            None
        } else {
            match parent {
                None => Some("workflow parent thread is unavailable"@),
                Some(current) => if !authorities.dom().contains(workspace.authority_ref@) {
                    Some("workflow workspace authority is unavailable"@)
                } else if authorities[workspace.authority_ref@].digest@
                    != workspace.authority_digest@
                    || authorities[workspace.authority_ref@].snapshot.terms() != current.terms() {
                    Some("workflow parent authority changed before checkout release"@)
                } else {
                    None
                },
            }
        },
    }
}

/// What comes of a release that nothing speaks against.
pub open spec fn release_decided(worker: WorkerState) -> ReleaseDecision {
    if worker is Status && is_terminal(worker->0) {
        ReleaseDecision::Release
    } else {
        ReleaseDecision::NotYet
    }
}

/// Decides whether a workspace is released now: only once its worker has ended.
pub fn release_decision(
    authorities: &Registry<WorkflowAuthority>,
    workspace: &WorkflowWorkspaceOwnership,
    worker: &WorkerState,
    parent: &Option<ThreadConfigSnapshot>,
) -> (res: Result<ReleaseDecision, RpcError>)
    requires
        authorities.well_formed(),
    ensures
        refused_by(
            res,
            release_authority_refusal(authorities.map(), *workspace, *worker, *parent),
        ),
        res matches Ok(decision) ==> decision == release_decided(*worker),
{
    match worker {
        WorkerState::NoWorker => {
            return Ok(ReleaseDecision::NotYet);
        },
        WorkerState::Unavailable => {
            return Err(invalid_request("workflow worker state is unavailable"));
        },
        WorkerState::Status(status) => {
            if !workflow_release_eligible(status) {
                return Ok(ReleaseDecision::NotYet);
            }
        },
    }
    let current = match parent {
        Some(current) => current,
        None => {
            return Err(invalid_request("workflow parent thread is unavailable"));
        },
    };
    match authorities.get(workspace.authority_ref.as_str()) {
        None => Err(invalid_request("workflow workspace authority is unavailable")),
        Some(authority) => {
            if !same(authority.digest.as_str(), workspace.authority_digest.as_str())
                || !workflow_authority_matches(&authority.snapshot, current) {
                Err(invalid_request("workflow parent authority changed before checkout release"))
            } else {
                Ok(ReleaseDecision::Release)
            }
        },
    }
}

/// A step of releasing a workspace.
#[derive(Clone, Copy, Debug, PartialEq, Eq, Structural)]
pub enum ReleaseStep {
    /// Looks whether the checkout is the workspace's worktree.
    Identity,
    /// Looks whether the host's own lock stands on it.
    OwnLock,
    /// Runs `CheckoutCommand::Unlock`.
    Unlock,
    /// Looks whether nothing was changed in the checkout.
    Unchanged,
    /// Runs `CheckoutCommand::Remove`.
    Remove,
    /// Marks the workspace as removed and stores the record.
    StoreRemoved,
    /// Runs `CheckoutCommand::DeleteBranch`.
    DeleteBranch,
    /// Ends the lease and stores the record.
    StoreReleased,
}

/// What follows a step of a release.
#[derive(Clone, Copy, Debug, PartialEq, Eq, Structural)]
pub enum AfterRelease {
    Step(ReleaseStep),
    /// Fails with the step's own error.
    Fail,
    Done,
}

/// A check that does not hold goes straight to the end of the lease; a command that does not
/// succeed ends the release.
pub open spec fn release_next(step: ReleaseStep, answer: Answer) -> AfterRelease {
    let is_check = step is Identity || step is OwnLock || step is Unchanged;
    if !(answer is Yes) {
        if is_check {
            AfterRelease::Step(ReleaseStep::StoreReleased)
        } else {
            AfterRelease::Fail
        }
    } else {
        match step {
            ReleaseStep::Identity => AfterRelease::Step(ReleaseStep::OwnLock),
            ReleaseStep::OwnLock => AfterRelease::Step(ReleaseStep::Unlock),
            ReleaseStep::Unlock => AfterRelease::Step(ReleaseStep::Unchanged),
            ReleaseStep::Unchanged => AfterRelease::Step(ReleaseStep::Remove),
            ReleaseStep::Remove => AfterRelease::Step(ReleaseStep::StoreRemoved),
            ReleaseStep::StoreRemoved => AfterRelease::Step(ReleaseStep::DeleteBranch),
            ReleaseStep::DeleteBranch => AfterRelease::Step(ReleaseStep::StoreReleased),
            ReleaseStep::StoreReleased => AfterRelease::Done,
        }
    }
}

pub fn after_release_step(step: ReleaseStep, answer: Answer) -> (res: AfterRelease)
    ensures
        res == release_next(step, answer),
{
    if answer != Answer::Yes {
        return match step {
            ReleaseStep::Identity | ReleaseStep::OwnLock | ReleaseStep::Unchanged => {
                AfterRelease::Step(ReleaseStep::StoreReleased)
            },
            _ => AfterRelease::Fail,
        };
    }
    match step {
        ReleaseStep::Identity => AfterRelease::Step(ReleaseStep::OwnLock),
        ReleaseStep::OwnLock => AfterRelease::Step(ReleaseStep::Unlock),
        ReleaseStep::Unlock => AfterRelease::Step(ReleaseStep::Unchanged),
        ReleaseStep::Unchanged => AfterRelease::Step(ReleaseStep::Remove),
        ReleaseStep::Remove => AfterRelease::Step(ReleaseStep::StoreRemoved),
        ReleaseStep::StoreRemoved => AfterRelease::Step(ReleaseStep::DeleteBranch),
        ReleaseStep::DeleteBranch => AfterRelease::Step(ReleaseStep::StoreReleased),
        ReleaseStep::StoreReleased => AfterRelease::Done,
    }
}

/// The command of a step, where it runs one.
pub open spec fn release_command(step: ReleaseStep) -> Option<CheckoutCommand> {
    match step {
        ReleaseStep::Unlock => Some(CheckoutCommand::Unlock),
        ReleaseStep::Remove => Some(CheckoutCommand::Remove),
        ReleaseStep::DeleteBranch => Some(CheckoutCommand::DeleteBranch),
        _ => None,
    }
}

pub fn command_of_release_step(step: ReleaseStep) -> (res: Option<CheckoutCommand>)
    ensures
        res == release_command(step),
{
    match step {
        ReleaseStep::Unlock => Some(CheckoutCommand::Unlock),
        ReleaseStep::Remove => Some(CheckoutCommand::Remove),
        ReleaseStep::DeleteBranch => Some(CheckoutCommand::DeleteBranch),
        _ => None,
    }
}

pub open spec fn release_rank(step: ReleaseStep) -> int {
    match step {
        ReleaseStep::Identity => 7,
        ReleaseStep::OwnLock => 6,
        ReleaseStep::Unlock => 5,
        ReleaseStep::Unchanged => 4,
        ReleaseStep::Remove => 3,
        ReleaseStep::StoreRemoved => 2,
        ReleaseStep::DeleteBranch => 1,
        ReleaseStep::StoreReleased => 0,
    }
}

/// The steps that a release takes from a step on, when each is answered so.
pub open spec fn release_steps(
    answers: spec_fn(ReleaseStep) -> Answer,
    step: ReleaseStep,
) -> Seq<ReleaseStep>
    decreases release_rank(step),
{
    match release_next(step, answers(step)) {
        AfterRelease::Step(next) => if release_rank(next) < release_rank(step) {
            seq![step] + release_steps(answers, next)
        } else {
            seq![step]
        },
        _ => seq![step],
    }
}

/// Every release comes to an end, because each step leads only to later ones.
pub proof fn release_moves_on(step: ReleaseStep, answer: Answer)
    ensures
        release_next(step, answer) matches AfterRelease::Step(next) ==> release_rank(next)
            < release_rank(step),
{
}

/// A release never destroys work: no step removes a checkout by force, a checkout is removed only
/// if it is the workspace's own worktree, under the host's own lock, and unchanged, and its branch
/// is deleted only after that removal was stored.
pub proof fn release_keeps_work(answers: spec_fn(ReleaseStep) -> Answer, step: ReleaseStep)
    ensures
        release_command(step) != Some(CheckoutCommand::ForceRemove),
        release_steps(answers, ReleaseStep::Identity).contains(ReleaseStep::Remove) ==> answers(
            ReleaseStep::Identity,
        ) is Yes && answers(ReleaseStep::OwnLock) is Yes && answers(ReleaseStep::Unlock) is Yes
            && answers(ReleaseStep::Unchanged) is Yes,
        release_steps(answers, ReleaseStep::Identity).contains(ReleaseStep::DeleteBranch)
            ==> answers(ReleaseStep::Remove) is Yes && answers(ReleaseStep::StoreRemoved) is Yes
            && answers(ReleaseStep::Unchanged) is Yes,
{
    reveal_with_fuel(release_steps, 9);
}

/// Marks a workspace as removed.
pub fn mark_removed(workspace: &mut WorkflowWorkspaceOwnership)
    ensures
        *final(workspace) == (WorkflowWorkspaceOwnership { removed: true, ..*old(workspace) }),
{
    workspace.removed = true;
}

/// A workspace can be released only by the run and the worker that it was granted to, and a request
/// that names none is not refused by any.
pub proof fn release_is_by_its_own(
    workspaces: Map<Seq<char>, WorkflowWorkspaceOwnership>,
    params: WorkflowWorkspaceReleaseParams,
)
    ensures
        release_refusal(workspaces, params) is None <==> params.workspace_id is None || {
            let id = params.workspace_id->Some_0@;
            let workspace = workspaces[id];
            &&& is_workspace_id(id)
            &&& workspaces.dom().contains(id)
            &&& workspace.run_id@ == params.run_id@
            &&& workspace.worker_id@ == params.worker_id@
            &&& workspace.checkout_grant is Some
            &&& {
                let grant = workspace.checkout_grant->Some_0;
                &&& grant.workspace_id@ == id
                &&& grant.parent_thread_id == workspace.parent_thread_id
                &&& grant.run_id@ == workspace.run_id@
                &&& grant.worker_id@ == workspace.worker_id@
                &&& grant.path@ == workspace.cwd@
            }
        },
{
}

/// A workspace is given up exactly when its worker has ended, and only while its parent has the terms
/// of the authority that it was made under. A worker that starts or runs keeps it, and so does one
/// that cannot be looked at.
pub proof fn workspace_is_kept_while_it_is_used(
    authorities: Map<Seq<char>, WorkflowAuthority>,
    workspace: WorkflowWorkspaceOwnership,
    worker: WorkerState,
    parent: Option<ThreadConfigSnapshot>,
)
    ensures
        ({
            let refusal = release_authority_refusal(authorities, workspace, worker, parent);
            let ended = worker is Status && !(worker->Status_0 is PendingInit)
                && !(worker->Status_0 is Running);
            let authority = authorities[workspace.authority_ref@];
            &&& worker is Unavailable ==> refusal is Some
            &&& release_decided(worker) == ReleaseDecision::Release <==> ended
            &&& ended ==> (refusal is None <==> {
                &&& parent is Some
                &&& authorities.dom().contains(workspace.authority_ref@)
                &&& authority.digest@ == workspace.authority_digest@
                &&& authority.snapshot.terms() == parent->Some_0.terms()
            })
            &&& !ended && !(worker is Unavailable) ==> refusal is None
        }),
{
}

/// A release takes its steps in one order and always ends the lease, unless a command fails: a check
/// that does not hold leaves the checkout and the branch as they are. Where every check holds, the
/// lock is taken off, the checkout is removed and the branch is deleted.
pub proof fn release_keeps_its_order(answers: spec_fn(ReleaseStep) -> Answer)
    ensures
        ({
            let steps = release_steps(answers, ReleaseStep::Identity);
            let order = seq![
                ReleaseStep::Identity,
                ReleaseStep::OwnLock,
                ReleaseStep::Unlock,
                ReleaseStep::Unchanged,
                ReleaseStep::Remove,
                ReleaseStep::StoreRemoved,
                ReleaseStep::DeleteBranch,
                ReleaseStep::StoreReleased,
            ];
            let n = steps.len() - 1;
            let ends = steps.last() is StoreReleased;
            &&& 1 <= steps.len() <= 8
            &&& steps.take(n) == order.take(n)
            &&& !ends ==> steps.last() == order[n] && !(answers(steps.last()) is Yes) && (
            steps.last() is Unlock || steps.last() is Remove || steps.last() is StoreRemoved
                || steps.last() is DeleteBranch)
            &&& ends && n < 7 ==> {
                let check = order[n - 1];
                &&& check is Identity || check is OwnLock || check is Unchanged
                &&& !(answers(check) is Yes)
            }
            &&& forall|i: int|
                0 <= i < n - 1 ==> answers(#[trigger] steps[i]) is Yes
            &&& release_next(steps.last(), answers(steps.last())) is Done <==> ends && answers(
                ReleaseStep::StoreReleased,
            ) is Yes
        }),
{
    reveal_with_fuel(release_steps, 9);
    let steps = release_steps(answers, ReleaseStep::Identity);
    let order = seq![
        ReleaseStep::Identity,
        ReleaseStep::OwnLock,
        ReleaseStep::Unlock,
        ReleaseStep::Unchanged,
        ReleaseStep::Remove,
        ReleaseStep::StoreRemoved,
        ReleaseStep::DeleteBranch,
        ReleaseStep::StoreReleased,
    ];
    let n = steps.len() - 1;
    assert(steps.take(n) =~= order.take(n));
}

/// Each command of a release is the one that its step is named for, and no other step runs one.
pub proof fn release_commands_fit_their_steps(step: ReleaseStep)
    ensures
        release_command(step) is Some <==> step is Unlock || step is Remove || step is DeleteBranch,
        step is Unlock ==> release_command(step)->Some_0 is Unlock,
        step is Remove ==> release_command(step)->Some_0 is Remove,
        step is DeleteBranch ==> release_command(step)->Some_0 is DeleteBranch,
{
}

/// A worker uses a workspace exactly where it works for the same parent as the attempt that the
/// workspace was made for, and was given this workspace.
pub proof fn workspace_is_used_by_its_attempt(
    worker: WorkflowWorkerOwnership,
    id: Seq<char>,
    workspace: WorkflowWorkspaceOwnership,
)
    ensures
        uses(worker, id, workspace) <==> worker.run_id@ == workspace.run_id@ && worker.worker_id@
            == workspace.worker_id@ && worker.parent_thread_id == workspace.parent_thread_id
            && worker.workspace_id is Some && worker.workspace_id->Some_0@ == id,
{
}

} // verus!
