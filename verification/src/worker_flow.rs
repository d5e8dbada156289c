//! Starting a worker from its request to its answer.
use crate::authority::{ThreadConfigSnapshot, WorkflowAuthority};
use crate::error::{internal_error, refused_by, RpcError, INTERNAL_ERROR, INVALID_REQUEST};
use crate::grant::is_issued;
use crate::ids::{is_workspace_id, uuid_text, ThreadId};
use crate::json::tree;
use crate::path::path_text;
use crate::prepare::{describes, is_mode, is_provisional, prepare_refusal, PrepareMode};
use crate::protocol::{
    WorkflowWorkerStartParams, WorkflowWorkerStartResponse, WorkflowWorkspacePrepareParams,
    WorkflowWorkspacePrepareResponse,
};
use crate::registry::Registry;
use crate::text::{option_text, plus, trimmed};
use crate::worker::{
    check_worker_authority, check_worker_request, is_attempt, is_reservation, replacement_refusal,
    request_refusal, resume_refusal, same_lineage, worker_authority_refusal, worker_place, worker_started,
    worker_workspace_refusal, AttemptState, WorkerLaunch, WorkerPlace, Workers,
    WorkflowWorkerOwnership,
};
use crate::workspace::{
    is_terminal, is_worktree, CheckoutGrant, WorkflowWorkspaceOwnership, WorktreeFacts,
};
use vstd::prelude::*;
use vstd::string::*;

verus! {

/// Why a worker request is not admitted: by its shape, its authority or its workspace, in this order.
pub open spec fn admission_refusal(
    authorities: Map<Seq<char>, WorkflowAuthority>,
    workspaces: Map<Seq<char>, WorkflowWorkspaceOwnership>,
    params: WorkflowWorkerStartParams,
    parent_thread_id: ThreadId,
    current: ThreadConfigSnapshot,
    worktree: WorktreeFacts,
) -> Option<Seq<char>> {
    let authority = worker_authority_refusal(authorities, params, parent_thread_id, current);
    if request_refusal(params) is Some {
        request_refusal(params)
    } else if authority is Some {
        authority
    } else {
        worker_workspace_refusal(workspaces, params, parent_thread_id, current, worktree)
    }
}

/// Admits a worker request of a parent, and tells where the worker runs. `worktree` is what is known
/// of the checkout that the request names.
pub fn admit_worker(
    authorities: &Registry<WorkflowAuthority>,
    workspaces: &Registry<WorkflowWorkspaceOwnership>,
    params: &WorkflowWorkerStartParams,
    parent_thread_id: ThreadId,
    current: &ThreadConfigSnapshot,
    worktree: &WorktreeFacts,
) -> (res: Result<WorkerPlace, RpcError>)
    requires
        authorities.well_formed(),
        workspaces.well_formed(),
    ensures
        refused_by(
            res,
            admission_refusal(
                authorities.map(),
                workspaces.map(),
                *params,
                parent_thread_id,
                *current,
                *worktree,
            ),
        ),
        res matches Ok(place) ==> match params.workspace.workspace_id {
            Some(id) => place == (if workspaces.map()[id@].removed {
                WorkerPlace::Removed
            } else {
                WorkerPlace::Isolated
            }),
            None => place == WorkerPlace::Shared,
        },
{
    match check_worker_request(params) {
        Ok(_) => {},
        Err(error) => {
            return Err(error);
        },
    }
    match check_worker_authority(authorities, params, parent_thread_id, current) {
        Ok(_) => {},
        Err(error) => {
            return Err(error);
        },
    }
    worker_place(workspaces, params, parent_thread_id, current, worktree)
}

/// The error of a restored checkout whose record could not be stored.
pub fn restored_record_error(message: &str) -> (res: RpcError)
    ensures
        res.is(INTERNAL_ERROR, "failed to persist restored workflow worktree: "@ + message@),
{
    internal_error(plus("failed to persist restored workflow worktree: ", message).as_str())
}

/// The error of a restored checkout that is not the expected one.
pub fn restored_identity_error() -> (res: RpcError)
    ensures
        res.is(INTERNAL_ERROR, "restored workflow checkout failed identity validation"@),
{
    internal_error("restored workflow checkout failed identity validation")
}

/// How a worker enters the host's table.
#[derive(Debug)]
pub enum WorkerEntry {
    /// A thread that goes on; `child` is how it is configured now.
    Resume { thread_id: ThreadId, requested_cwd: String, child: ThreadConfigSnapshot },
    /// A thread that is started anew; `state` is what is known of an earlier attempt's.
    Fresh { reserved: ThreadId, state: Option<AttemptState> },
}

/// A launch that is under way.
#[derive(Clone, Copy, Debug, PartialEq, Eq, Structural)]
pub struct WorkerRun {
    pub thread_id: ThreadId,
    pub resumed: bool,
}

/// Whether a launch leads to this answer and this table. A refused one changes nothing.
pub open spec fn is_entered(
    before: Map<ThreadId, WorkflowWorkerOwnership>,
    launch: WorkerLaunch,
    entry: WorkerEntry,
    res: Result<WorkerRun, RpcError>,
    after: Map<ThreadId, WorkflowWorkerOwnership>,
) -> bool {
    &&& res is Err ==> after == before
    &&& match entry {
        WorkerEntry::Resume { thread_id, requested_cwd, child } => {
            &&& refused_by(
                res,
                resume_refusal(before, thread_id, launch, requested_cwd@, child),
            )
            &&& res matches Ok(run) ==> run == (WorkerRun { thread_id, resumed: true }) && after
                == before.insert(
                thread_id,
                (WorkflowWorkerOwnership { launch_intent: true, ..before[thread_id] }),
            )
        },
        WorkerEntry::Fresh { reserved, state } => {
            &&& res matches Ok(run) ==> run == (WorkerRun { thread_id: reserved, resumed: false })
                && after.dom().contains(reserved) && is_reservation(after[reserved], launch)
            &&& (forall|thread_id: ThreadId| #[trigger]
                before.dom().contains(thread_id) ==> !is_attempt(
                    before[thread_id],
                    launch.run_id@,
                    launch.worker_id@,
                )) ==> res is Ok && after.remove(reserved) == before.remove(reserved)
            &&& forall|previous: ThreadId|
                before.dom().contains(previous) && is_attempt(
                    #[trigger] before[previous],
                    launch.run_id@,
                    launch.worker_id@,
                ) ==> {
                    &&& refused_by(res, replacement_refusal(before[previous], launch, state))
                    &&& res is Ok ==> after.remove(reserved) == before.remove(previous).remove(
                        reserved,
                    )
                }
        },
    }
}

/// Enters a launch into the table before anything is submitted.
pub fn enter_worker(workers: &mut Workers, launch: &WorkerLaunch, entry: WorkerEntry) -> (res: Result<
    WorkerRun,
    RpcError,
>)
    requires
        old(workers).well_formed(),
    ensures
        final(workers).well_formed(),
        is_entered(old(workers).map(), *launch, entry, res, final(workers).map()),
{
    match entry {
        WorkerEntry::Resume { thread_id, requested_cwd, child } => {
            match workers.begin_resume(thread_id, launch, requested_cwd.as_str(), &child) {
                Ok(_) => Ok(WorkerRun { thread_id, resumed: true }),
                Err(error) => Err(error),
            }
        },
        WorkerEntry::Fresh { reserved, state } => {
            match workers.reserve(reserved, launch, &state) {
                Ok(_) => Ok(WorkerRun { thread_id: reserved, resumed: false }),
                Err(error) => Err(error),
            }
        },
    }
}

/// A turn that a worker's thread took.
#[derive(Debug)]
pub struct SubmittedTurn {
    pub session_id: String,
    pub turn_id: String,
}

/// The table once the outcome of a launch is known. A resumed worker is settled either way. A new
/// one only when its turn was submitted: its thread may exist though it was not.
pub open spec fn settled(
    workers: Map<ThreadId, WorkflowWorkerOwnership>,
    run: WorkerRun,
    submitted: bool,
) -> Map<ThreadId, WorkflowWorkerOwnership> {
    if (run.resumed || submitted) && workers.dom().contains(run.thread_id) {
        workers.insert(
            run.thread_id,
            WorkflowWorkerOwnership { launch_intent: false, ..workers[run.thread_id] },
        )
    } else {
        workers
    }
}

/// Takes what came of a launch, and answers the request.
pub fn finish_worker_start(
    workers: &mut Workers,
    run: WorkerRun,
    launch: &WorkerLaunch,
    outcome: Result<SubmittedTurn, String>,
) -> (res: Result<WorkflowWorkerStartResponse, RpcError>)
    requires
        old(workers).well_formed(),
    ensures
        final(workers).well_formed(),
        final(workers).map() == settled(old(workers).map(), run, outcome is Ok),
        match outcome {
            Ok(turn) => res matches Ok(response) && response.thread_id@ == uuid_text(
                run.thread_id.value,
            ) && response.session_id@ == turn.session_id@ && response.turn_id@ == turn.turn_id@
                && response.model@ == launch.model@ && response.effort@ == launch.effort@,
            Err(message) => res matches Err(error) && error.is(
                INTERNAL_ERROR,
                "failed to start workflow worker: "@ + message@,
            ),
        },
{
    if run.resumed || outcome.is_ok() {
        workers.settle(run.thread_id);
    }
    match outcome {
        Ok(turn) => Ok(worker_started(run.thread_id, turn.session_id, turn.turn_id, launch)),
        Err(message) => Err(
            internal_error(plus("failed to start workflow worker: ", message.as_str()).as_str()),
        ),
    }
}

/// A retry cannot duplicate the work of a launch whose outcome is not known: after a new worker was
/// reserved and its turn could not be submitted, neither a replacement nor a resumption of it is
/// accepted, whoever asks.
pub proof fn failed_launch_blocks_retries(
    entered: Map<ThreadId, WorkflowWorkerOwnership>,
    reserved: ThreadId,
    launch: WorkerLaunch,
    retry: WorkerLaunch,
    state: Option<AttemptState>,
    requested_cwd: Seq<char>,
    child: ThreadConfigSnapshot,
)
    requires
        entered.dom().contains(reserved),
        is_reservation(entered[reserved], launch),
    ensures
        ({
            let after = settled(entered, WorkerRun { thread_id: reserved, resumed: false }, false);
            &&& replacement_refusal(after[reserved], retry, state) is Some
            &&& resume_refusal(after, reserved, retry, requested_cwd, child) is Some
        }),
{
}

/// A launch whose turn was submitted is settled, and so is a resumed one.
pub proof fn submitted_launch_is_settled(
    workers: Map<ThreadId, WorkflowWorkerOwnership>,
    run: WorkerRun,
    submitted: bool,
)
    requires
        workers.dom().contains(run.thread_id),
        submitted || run.resumed,
    ensures
        !settled(workers, run, submitted)[run.thread_id].launch_intent,
        forall|other: ThreadId|
            other != run.thread_id && #[trigger] workers.dom().contains(other) ==> settled(
                workers,
                run,
                submitted,
            )[other] == workers[other],
{
}

/// Whether two launches are of the same worker, in the same place, with the same choices.
pub open spec fn same_launch(a: WorkerLaunch, b: WorkerLaunch) -> bool {
    &&& a.parent_thread_id == b.parent_thread_id
    &&& a.authority_digest@ == b.authority_digest@
    &&& a.run_id@ == b.run_id@
    &&& a.worker_id@ == b.worker_id@
    &&& a.read_only == b.read_only
    &&& a.agent_type@ == b.agent_type@
    &&& option_text(a.schema_digest) == option_text(b.schema_digest)
    &&& option_text(a.workspace_id) == option_text(b.workspace_id)
    &&& a.cwd@ == b.cwd@
    &&& a.role_digest@ == b.role_digest@
    &&& a.model@ == b.model@
    &&& a.effort@ == b.effort@
}

/// The table once the authority that a thread was admitted with is noted, where it is.
pub open spec fn with_authority(
    workers: Map<ThreadId, WorkflowWorkerOwnership>,
    thread_id: ThreadId,
    authority: Option<ThreadConfigSnapshot>,
) -> Map<ThreadId, WorkflowWorkerOwnership> {
    if authority is Some && workers.dom().contains(thread_id) {
        workers.insert(
            thread_id,
            WorkflowWorkerOwnership { admitted_authority: authority, ..workers[thread_id] },
        )
    } else {
        workers
    }
}

/// A worker is not started twice: after a start whose turn was submitted, the same start is refused
/// for as long as the worker's thread runs, and the worker stays the one of its run. Once the thread
/// has ended the same start is accepted, and its thread takes the place of the ended one. `state` is
/// what is known of the first thread, which runs what it was launched with.
pub proof fn worker_is_not_started_twice(
    before: Map<ThreadId, WorkflowWorkerOwnership>,
    launch: WorkerLaunch,
    first: ThreadId,
    earlier: Option<AttemptState>,
    entered: Map<ThreadId, WorkflowWorkerOwnership>,
    authority: Option<ThreadConfigSnapshot>,
    again: WorkerLaunch,
    second: ThreadId,
    state: AttemptState,
    res: Result<WorkerRun, RpcError>,
    after: Map<ThreadId, WorkflowWorkerOwnership>,
)
    requires
        is_entered(
            before,
            launch,
            WorkerEntry::Fresh { reserved: first, state: earlier },
            Ok(WorkerRun { thread_id: first, resumed: false }),
            entered,
        ),
        same_launch(again, launch),
        same_lineage(state.config, launch),
        is_entered(
            settled(
                with_authority(entered, first, authority),
                WorkerRun { thread_id: first, resumed: false },
                true,
            ),
            again,
            WorkerEntry::Fresh { reserved: second, state: Some(state) },
            res,
            after,
        ),
    ensures
        !is_terminal(state.status) ==> {
            &&& res matches Err(error)
            &&& error.is(INVALID_REQUEST, "workflow worker launch is already owned"@)
            &&& after.dom().contains(first)
            &&& is_attempt(after[first], launch.run_id@, launch.worker_id@)
        },
        is_terminal(state.status) ==> {
            &&& res == Ok::<WorkerRun, RpcError>(WorkerRun { thread_id: second, resumed: false })
            &&& after.dom().contains(second)
            &&& is_reservation(after[second], again)
            &&& second != first ==> !after.dom().contains(first)
        },
{
    let started = settled(
        with_authority(entered, first, authority),
        WorkerRun { thread_id: first, resumed: false },
        true,
    );
    assert(started.dom().contains(first));
    assert(is_attempt(started[first], again.run_id@, again.worker_id@));
    assert(replacement_refusal(started[first], again, Some(state)) == if is_terminal(state.status) {
        None
    } else {
        Some("workflow worker launch is already owned"@)
    });
    if is_terminal(state.status) && second != first {
        assert(!after.remove(second).dom().contains(first));
    }
}

/// A worker is admitted exactly for a task, under an authority of its own parent that is still in
/// force, and in a workspace that was prepared for it: a checkout that was granted to its run and
/// worker under the same authority, is leased, and is the worktree it should be unless it was
/// removed; or the parent's own directory.
pub proof fn worker_is_admitted_by_right(
    authorities: Map<Seq<char>, WorkflowAuthority>,
    workspaces: Map<Seq<char>, WorkflowWorkspaceOwnership>,
    params: WorkflowWorkerStartParams,
    parent: ThreadId,
    current: ThreadConfigSnapshot,
    worktree: WorktreeFacts,
)
    ensures
        admission_refusal(authorities, workspaces, params, parent, current, worktree) is None <==> {
            let authority = authorities[params.authority_ref@];
            &&& trimmed(params.prompt@).len() > 0
            &&& params.schema matches Some(schema) ==> tree(schema) is Object
            &&& authorities.dom().contains(params.authority_ref@)
            &&& authority.parent_thread_id == parent
            &&& authority.generation == params.authority_generation
            &&& authority.digest@ == params.authority_digest@
            &&& authority.snapshot.terms() == current.terms()
            &&& match params.workspace.workspace_id {
                None => {
                    &&& !params.workspace.isolated
                    &&& params.workspace.cwd@ == path_text(current.cwd@)
                    &&& params.workspace.base_commit is None
                },
                Some(id) => {
                    let workspace = workspaces[id@];
                    &&& is_workspace_id(id@)
                    &&& workspaces.dom().contains(id@)
                    &&& workspace.checkout_grant matches Some(grant) && {
                        &&& grant.parent_thread_id == workspace.parent_thread_id
                        &&& grant.run_id@ == workspace.run_id@
                        &&& grant.worker_id@ == workspace.worker_id@
                        &&& grant.workspace_id@ == id@
                        &&& grant.path@ == workspace.cwd@
                    }
                    &&& workspace.parent_thread_id == parent
                    &&& workspace.authority_ref@ == params.authority_ref@
                    &&& workspace.authority_digest@ == params.authority_digest@
                    &&& workspace.run_id@ == params.run_id@
                    &&& workspace.worker_id@ == params.worker_id@
                    &&& params.workspace.cwd@ == path_text(workspace.cwd@)
                    &&& option_text(params.workspace.base_commit) == Some(workspace.base_commit@)
                    &&& params.workspace.isolated
                    &&& !workspace.released
                    &&& workspace.removed || is_worktree(
                        worktree,
                        workspace.common_git_dir@,
                        Some(workspace.branch@),
                    )
                },
            }
        },
{
}

/// The start of a worker is answered with the thread that it runs in.
pub proof fn resumed_worker_keeps_its_thread(
    before: Map<ThreadId, WorkflowWorkerOwnership>,
    launch: WorkerLaunch,
    thread_id: ThreadId,
    requested_cwd: String,
    child: ThreadConfigSnapshot,
    res: Result<WorkerRun, RpcError>,
    after: Map<ThreadId, WorkflowWorkerOwnership>,
)
    requires
        is_entered(
            before,
            launch,
            WorkerEntry::Resume { thread_id, requested_cwd, child },
            res,
            after,
        ),
    ensures
        after.dom() == before.dom(),
        res matches Ok(run) ==> {
            &&& run.thread_id == thread_id
            &&& run.resumed
            &&& after[thread_id].launch_intent
            &&& !before[thread_id].launch_intent
            &&& settled(after, run, true)[thread_id] == before[thread_id]
            &&& settled(after, run, false)[thread_id] == before[thread_id]
        },
        res is Err ==> after == before,
        forall|other: ThreadId|
            other != thread_id && #[trigger] before.dom().contains(other) ==> after[other]
                == before[other],
{
    assert(after.dom() =~= before.dom());
}

/// A worker that is started in the workspace that was prepared for it, under the same authority, is
/// admitted: the answer to the preparation is what the start of the worker takes.
pub proof fn prepared_worker_is_admitted(
    authorities: Map<Seq<char>, WorkflowAuthority>,
    workspaces: Map<Seq<char>, WorkflowWorkspaceOwnership>,
    prepare: WorkflowWorkspacePrepareParams,
    id: Seq<char>,
    workspace: WorkflowWorkspaceOwnership,
    grant: CheckoutGrant,
    prepared: WorkflowWorkspacePrepareResponse,
    role_digest: Seq<char>,
    params: WorkflowWorkerStartParams,
    parent: ThreadId,
    current: ThreadConfigSnapshot,
    worktree: WorktreeFacts,
)
    requires
        prepare_refusal(authorities, prepare, Some(current)) is None,
        authorities[prepare.authority_ref@].parent_thread_id == parent,
        is_workspace_id(id),
        is_issued(
            grant,
            authorities[prepare.authority_ref@],
            prepare.run_id@,
            prepare.worker_id@,
            id,
            workspace.cwd@,
        ),
        is_provisional(workspace, authorities[prepare.authority_ref@], prepare, grant),
        describes(
            prepared,
            id,
            workspace,
            authorities[prepare.authority_ref@].generation,
            role_digest,
        ),
        workspaces.dom().contains(id),
        workspaces[id] == workspace,
        is_worktree(worktree, workspace.common_git_dir@, Some(workspace.branch@)),
        trimmed(params.prompt@).len() > 0,
        params.schema matches Some(schema) ==> tree(schema) is Object,
        params.authority_ref@ == prepare.authority_ref@,
        params.authority_digest@ == prepare.authority_digest@,
        params.authority_generation == prepared.authority_generation,
        params.run_id@ == prepare.run_id@,
        params.worker_id@ == prepare.worker_id@,
        option_text(params.workspace.workspace_id) == option_text(prepared.workspace_id),
        params.workspace.cwd@ == prepared.cwd@,
        params.workspace.isolated == prepared.isolated,
        option_text(params.workspace.base_commit) == option_text(prepared.base_commit),
    ensures
        admission_refusal(authorities, workspaces, params, parent, current, worktree) is None,
{
    worker_is_admitted_by_right(authorities, workspaces, params, parent, current, worktree);
}

/// So is a worker that shares the directory of its parent.
pub proof fn sharing_worker_is_admitted(
    authorities: Map<Seq<char>, WorkflowAuthority>,
    workspaces: Map<Seq<char>, WorkflowWorkspaceOwnership>,
    prepare: WorkflowWorkspacePrepareParams,
    role: Result<String, String>,
    prepared: WorkflowWorkspacePrepareResponse,
    params: WorkflowWorkerStartParams,
    parent: ThreadId,
    current: ThreadConfigSnapshot,
    worktree: WorktreeFacts,
)
    requires
        prepare_refusal(authorities, prepare, Some(current)) is None,
        authorities[prepare.authority_ref@].parent_thread_id == parent,
        is_mode(
            authorities[prepare.authority_ref@],
            prepare,
            role,
            PrepareMode::Shared(prepared),
        ),
        trimmed(params.prompt@).len() > 0,
        params.schema matches Some(schema) ==> tree(schema) is Object,
        params.authority_ref@ == prepare.authority_ref@,
        params.authority_digest@ == prepare.authority_digest@,
        params.authority_generation == prepared.authority_generation,
        option_text(params.workspace.workspace_id) == option_text(prepared.workspace_id),
        params.workspace.cwd@ == prepared.cwd@,
        params.workspace.isolated == prepared.isolated,
        option_text(params.workspace.base_commit) == option_text(prepared.base_commit),
    ensures
        admission_refusal(authorities, workspaces, params, parent, current, worktree) is None,
{
    worker_is_admitted_by_right(authorities, workspaces, params, parent, current, worktree);
}

} // verus!
