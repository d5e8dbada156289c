//! Who may write a checkout and run commands in it.
use crate::authority::{workflow_authority_matches, ApprovalsReviewer, ThreadConfigSnapshot,
    WorkflowAuthority};
use crate::error::{invalid_request, refused_by, RpcError};
use crate::ids::{uuid_text, ThreadId};
use crate::path::{path_text, AbsolutePath};
use crate::text::{plus, plus3, option_text};
use crate::workspace::{checkout_path_refusal, validate_checkout_path, CheckoutGrant};
use vstd::prelude::*;
use vstd::string::*;

verus! {

/// How the permission to write a checkout is obtained.
#[derive(Clone, Copy, Debug, PartialEq, Eq, Structural)]
pub enum GrantRoute {
    /// The parent may write there already.
    Granted,
    /// The policy lets nobody ask.
    Prohibited,
    /// The automatic approval decides.
    Review,
    /// The user decides.
    Ask,
}

pub open spec fn grant_route(can_write: bool, current: ThreadConfigSnapshot) -> GrantRoute {
    if can_write {
        GrantRoute::Granted
    } else if !current.permission_requests_allowed {
        GrantRoute::Prohibited
    } else if current.approvals_reviewer is AutoReview {
        GrantRoute::Review
    } else {
        GrantRoute::Ask
    }
}

/// Decides how the permission to write a checkout is obtained; for one that is outside of the
/// parent's directory or below a symlink nobody is asked. `cwd` is the canonical form of that
/// directory, or why it has none, `symlinks` tells which paths of the checkout's chain down to it are
/// symlinks, and `can_write` whether the parent's own policy covers the checkout.
pub fn checkout_grant_route(
    cwd: &Result<AbsolutePath, String>,
    checkout: &AbsolutePath,
    symlinks: &Vec<bool>,
    can_write: bool,
    current: &ThreadConfigSnapshot,
) -> (res: Result<GrantRoute, RpcError>)
    ensures
        refused_by(res, checkout_path_refusal(*cwd, checkout@, symlinks@)),
        res matches Ok(route) ==> route == grant_route(can_write, *current),
{
    match validate_checkout_path(cwd, checkout, symlinks) {
        Ok(_) => {},
        Err(message) => {
            return Err(invalid_request(message.as_str()));
        },
    }
    if can_write {
        Ok(GrantRoute::Granted)
    } else if !current.permission_requests_allowed {
        Ok(GrantRoute::Prohibited)
    } else {
        match current.approvals_reviewer {
            ApprovalsReviewer::AutoReview => Ok(GrantRoute::Review),
            ApprovalsReviewer::User => Ok(GrantRoute::Ask),
        }
    }
}

/// The user's answer to a request for permissions.
#[derive(Debug)]
pub struct GrantAnswer {
    pub strict_auto_review: Option<bool>,
    /// Why the granted permissions could not be understood, if they could not.
    pub conversion_error: Option<String>,
}

/// What came of asking for the permission.
#[derive(Debug)]
pub enum GrantReply {
    /// Nobody was asked.
    NotNeeded,
    /// What the automatic approval decided.
    Reviewed(bool),
    /// No frontend is attached that could be asked.
    NoFrontend,
    /// The user's answer; none if it did not arrive or could not be read.
    Answered(Option<GrantAnswer>),
}

/// Why the permission is not given, going by the route and the reply.
pub open spec fn grant_reply_refusal(route: GrantRoute, reply: GrantReply) -> Option<Seq<char>> {
    match route {
        GrantRoute::Granted => None,
        GrantRoute::Prohibited => Some(
            "workflow checkout permission request is prohibited by native policy"@,
        ),
        GrantRoute::Review => match reply {
            GrantReply::Reviewed(true) => None,
            _ => Some("workflow checkout permission was not approved"@),
        },
        GrantRoute::Ask => match reply {
            GrantReply::NoFrontend => Some(
                "workflow checkout permission requires an attached native frontend"@,
            ),
            GrantReply::Answered(Some(answer)) => if answer.strict_auto_review == Some(true) {
                Some(
                    "workflow checkout cannot retain a strict-review grant outside its originating turn"@,
                )
            } else {
                option_text(answer.conversion_error)
            },
            _ => Some("workflow checkout permission was not approved"@),
        },
    }
}

/// Accepts or refuses the outcome of asking.
pub fn checkout_grant_reply(route: GrantRoute, reply: &GrantReply) -> (res: Result<(), RpcError>)
    ensures
        refused_by(res, grant_reply_refusal(route, *reply)),
{
    match route {
        GrantRoute::Granted => Ok(()),
        GrantRoute::Prohibited => Err(
            invalid_request("workflow checkout permission request is prohibited by native policy"),
        ),
        GrantRoute::Review => match reply {
            GrantReply::Reviewed(true) => Ok(()),
            _ => Err(invalid_request("workflow checkout permission was not approved")),
        },
        GrantRoute::Ask => match reply {
            GrantReply::NoFrontend => Err(
                invalid_request(
                    "workflow checkout permission requires an attached native frontend",
                ),
            ),
            GrantReply::Answered(Some(answer)) => {
                let strict = match answer.strict_auto_review {
                    Some(strict) => strict,
                    None => false,
                };
                if strict {
                    return Err(
                        invalid_request(
                            "workflow checkout cannot retain a strict-review grant outside its originating turn",
                        ),
                    );
                }
                match &answer.conversion_error {
                    Some(message) => Err(invalid_request(message.as_str())),
                    None => Ok(()),
                }
            },
            _ => Err(invalid_request("workflow checkout permission was not approved")),
        },
    }
}

/// What the one who decides is told of the request.
pub open spec fn grant_reason(
    parent: ThreadId,
    run_id: Seq<char>,
    worker_id: Seq<char>,
    workspace_id: Seq<char>,
    checkout: Seq<Seq<char>>,
) -> Seq<char> {
    "Grant isolated checkout only: parent="@ + uuid_text(parent.value) + " run="@ + run_id
        + " worker="@ + worker_id + " workspace="@ + workspace_id + " path="@ + path_text(checkout)
}

pub fn checkout_grant_reason(
    parent: ThreadId,
    run_id: &str,
    worker_id: &str,
    workspace_id: &str,
    checkout: &AbsolutePath,
) -> (res: String)
    ensures
        res@ == grant_reason(parent, run_id@, worker_id@, workspace_id@, checkout@),
{
    let mut out = plus3("Grant isolated checkout only: parent=", parent.to_text().as_str(), " run=");
    out.append(run_id);
    out.append(" worker=");
    out.append(worker_id);
    out.append(" workspace=");
    out.append(workspace_id);
    out.append(" path=");
    out.append(checkout.text().as_str());
    out
}

/// The turn of a workspace.
pub open spec fn approval_turn(workspace_id: Seq<char>) -> Seq<char> {
    "workflow-workspace-"@ + workspace_id
}

/// The turn under which the approvals of a workspace are asked for.
pub fn workspace_turn_id(workspace_id: &str) -> (res: String)
    ensures
        res@ == approval_turn(workspace_id@),
{
    plus("workflow-workspace-", workspace_id)
}

/// Why a checkout grant is not issued after the permission was given.
pub open spec fn grant_issue_refusal(
    grants_write: bool,
    authority: WorkflowAuthority,
    current: ThreadConfigSnapshot,
) -> Option<Seq<char>> {
    if !grants_write {
        Some("workflow checkout permission was denied"@)
    } else if authority.snapshot.terms() != current.terms() {
        Some("workflow parent authority changed during checkout approval"@)
    } else {
        None
    }
}

/// Whether a grant is the one of a checkout for a workspace.
pub open spec fn is_issued(
    grant: CheckoutGrant,
    authority: WorkflowAuthority,
    run_id: Seq<char>,
    worker_id: Seq<char>,
    workspace_id: Seq<char>,
    checkout: Seq<Seq<char>>,
) -> bool {
    &&& grant.parent_thread_id == authority.parent_thread_id
    &&& grant.run_id@ == run_id
    &&& grant.worker_id@ == worker_id
    &&& grant.workspace_id@ == workspace_id
    &&& grant.path@ == checkout
}

/// Issues the grant of a checkout to one workspace. `grants_write` tells whether what was asked for
/// and what was given have a writable entry in common.
pub fn issue_checkout_grant(
    grants_write: bool,
    authority: &WorkflowAuthority,
    current: &ThreadConfigSnapshot,
    run_id: &str,
    worker_id: &str,
    workspace_id: &str,
    checkout: &AbsolutePath,
) -> (res: Result<CheckoutGrant, RpcError>)
    ensures
        refused_by(res, grant_issue_refusal(grants_write, *authority, *current)),
        res matches Ok(grant) ==> is_issued(
            grant,
            *authority,
            run_id@,
            worker_id@,
            workspace_id@,
            checkout@,
        ),
{
    if !grants_write {
        return Err(invalid_request("workflow checkout permission was denied"));
    }
    if !workflow_authority_matches(&authority.snapshot, current) {
        return Err(
            invalid_request("workflow parent authority changed during checkout approval"),
        );
    }
    Ok(
        CheckoutGrant {
            parent_thread_id: authority.parent_thread_id,
            run_id: run_id.to_owned(),
            worker_id: worker_id.to_owned(),
            workspace_id: workspace_id.to_owned(),
            path: checkout.copy(),
        },
    )
}

/// The environment that a checkout's permission template comes from.
#[derive(Clone, Copy, Debug, PartialEq, Eq, Structural)]
pub enum EnvironmentState {
    /// No environment is selected.
    Unselected,
    /// The environment has its own configuration.
    Ready,
    /// The environment takes the thread's configuration.
    FromThread,
    /// The environment is still being set up, or failed.
    NotReady,
}

/// Where the permission template of a checkout comes from.
#[derive(Clone, Copy, Debug, PartialEq, Eq, Structural)]
pub enum ProfileTemplate {
    Environment,
    Thread,
}

/// Why the profile of a new checkout cannot be resolved.
pub open spec fn profile_template_refusal(
    authority: WorkflowAuthority,
    current: ThreadConfigSnapshot,
    environment: EnvironmentState,
) -> Option<Seq<char>> {
    if authority.snapshot.terms() != current.terms() {
        Some("workflow parent authority changed during checkout creation"@)
    } else if environment is NotReady {
        Some("workflow checkout environment is not ready"@)
    } else {
        None
    }
}

/// The template that a checkout takes in an environment that is set up or not needed.
pub open spec fn template_of(environment: EnvironmentState) -> ProfileTemplate {
    if environment is Ready {
        ProfileTemplate::Environment
    } else {
        ProfileTemplate::Thread
    }
}

/// Picks the template that the checkout's profile is materialized from.
pub fn checkout_profile_template(
    authority: &WorkflowAuthority,
    current: &ThreadConfigSnapshot,
    environment: EnvironmentState,
) -> (res: Result<ProfileTemplate, RpcError>)
    ensures
        refused_by(res, profile_template_refusal(*authority, *current, environment)),
        res matches Ok(template) ==> template == template_of(environment),
{
    if !workflow_authority_matches(&authority.snapshot, current) {
        return Err(
            invalid_request("workflow parent authority changed during checkout creation"),
        );
    }
    match environment {
        EnvironmentState::Ready => Ok(ProfileTemplate::Environment),
        EnvironmentState::Unselected | EnvironmentState::FromThread => Ok(ProfileTemplate::Thread),
        EnvironmentState::NotReady => Err(
            invalid_request("workflow checkout environment is not ready"),
        ),
    }
}

/// Where a checkout command would run.
#[derive(Clone, Copy, Debug, PartialEq, Eq, Structural)]
pub enum Executor {
    /// There is not exactly one local environment.
    Missing,
    /// The environment is sandboxed from outside.
    External,
    Local,
}

/// Why no checkout command can run at all.
pub open spec fn executor_refusal(executor: Executor) -> Option<Seq<char>> {
    match executor {
        Executor::Missing => Some("workflow checkout requires one local executor"@),
        Executor::External => Some("workflow checkout cannot bypass an external executor"@),
        Executor::Local => None,
    }
}

pub fn checkout_executor(executor: Executor) -> (res: Result<(), RpcError>)
    ensures
        refused_by(res, executor_refusal(executor)),
{
    match executor {
        Executor::Missing => Err(invalid_request("workflow checkout requires one local executor")),
        Executor::External => Err(
            invalid_request("workflow checkout cannot bypass an external executor"),
        ),
        Executor::Local => Ok(()),
    }
}

/// A permission that a command asks for beyond the parent's own.
#[derive(Clone, Copy, Debug, PartialEq, Eq, Structural)]
pub enum RequestedEntry {
    /// A local path, and whether the parent's policy lets it be written.
    Path { writable: bool },
    /// Anything else.
    Other,
}

/// Whether a command needs more than the parent's own permissions.
pub open spec fn needs_escalation(entries: Seq<RequestedEntry>) -> bool {
    exists|i: int|
        0 <= i < entries.len() && #[trigger] entries[i] != (RequestedEntry::Path { writable: true })
}

pub fn command_needs_escalation(entries: &Vec<RequestedEntry>) -> (res: bool)
    ensures
        res == needs_escalation(entries@),
{
    let mut i: usize = 0;
    while i < entries.len()
        invariant
            i <= entries@.len(),
            forall|j: int|
                0 <= j < i ==> #[trigger] entries@[j] == (RequestedEntry::Path { writable: true }),
        decreases entries@.len() - i,
    {
        let entry: RequestedEntry = entries[i];
        if entry != (RequestedEntry::Path { writable: true }) {
            assert(entries@[i as int] == entry);
            return true;
        }
        i = i + 1;
    }
    false
}

/// What the execution policy asks of a command.
#[derive(Debug)]
pub enum ExecApprovalRequirement {
    /// With the reason.
    Forbidden(String),
    Skip,
    /// With the reason, where there is one.
    NeedsApproval(Option<String>),
}

/// What a command waits for.
#[derive(Debug)]
pub enum CommandApproval {
    /// Nothing: the policy authorizes it.
    Authorized,
    /// The user, who is told this reason.
    AskUser(String),
    /// The automatic approval, which is told this reason.
    Review(String),
    /// It may not run.
    Forbidden(String),
}

/// The reason that is given for the approval of a command.
pub open spec fn approval_reason(requirement: ExecApprovalRequirement) -> Seq<char> {
    match requirement {
        ExecApprovalRequirement::Forbidden(reason) => reason@,
        ExecApprovalRequirement::Skip => "The parent requires strict review of every command"@,
        ExecApprovalRequirement::NeedsApproval(reason) => match reason {
            Some(reason) => reason@,
            None => "Create an isolated workflow checkout"@,
        },
    }
}

/// Whether a checkout command waits for this approval.
pub open spec fn is_approval(
    requirement: ExecApprovalRequirement,
    strict_review: bool,
    reviewer: ApprovalsReviewer,
    approval: CommandApproval,
) -> bool {
    &&& requirement is Forbidden <==> approval is Forbidden
    &&& requirement is Skip && !strict_review <==> approval is Authorized
    &&& !(approval is Forbidden || approval is Authorized) ==> (approval is AskUser <==> reviewer
        is User && !strict_review)
    &&& approval matches CommandApproval::Forbidden(reason) ==> reason@ == approval_reason(
        requirement,
    )
    &&& approval matches CommandApproval::AskUser(reason) ==> reason@ == approval_reason(
        requirement,
    )
    &&& approval matches CommandApproval::Review(reason) ==> reason@ == approval_reason(requirement)
}

/// Decides who must approve a checkout command.
pub fn workflow_command_approval(
    requirement: &ExecApprovalRequirement,
    strict_review: bool,
    reviewer: ApprovalsReviewer,
) -> (res: CommandApproval)
    ensures
        is_approval(*requirement, strict_review, reviewer, res),
{
    let reason = match requirement {
        ExecApprovalRequirement::Forbidden(reason) => {
            return CommandApproval::Forbidden(reason.clone());
        },
        ExecApprovalRequirement::Skip => {
            if !strict_review {
                return CommandApproval::Authorized;
            }
            "The parent requires strict review of every command".to_owned()
        },
        ExecApprovalRequirement::NeedsApproval(reason) => match reason {
            Some(reason) => reason.clone(),
            None => "Create an isolated workflow checkout".to_owned(),
        },
    };
    if reviewer == ApprovalsReviewer::User && !strict_review {
        CommandApproval::AskUser(reason)
    } else {
        CommandApproval::Review(reason)
    }
}

/// What the automatic approval decides.
#[derive(Clone, Copy, Debug, PartialEq, Eq, Structural)]
pub enum ReviewDecision {
    Approved,
    ApprovedForSession,
    Denied,
    Abort,
    TimedOut,
}

/// Whether a decision of a review lets something pass.
pub open spec fn approves(decision: Option<ReviewDecision>) -> bool {
    decision == Some(ReviewDecision::Approved) || decision == Some(
        ReviewDecision::ApprovedForSession,
    )
}

/// Whether a review let something pass; no decision is a refusal.
pub fn review_approves(decision: Option<ReviewDecision>) -> (res: bool)
    ensures
        res == approves(decision),
{
    match decision {
        Some(ReviewDecision::Approved) => true,
        Some(ReviewDecision::ApprovedForSession) => true,
        _ => false,
    }
}

/// What came of the approval of a command.
#[derive(Clone, Copy, Debug, PartialEq, Eq, Structural)]
pub enum CommandReply {
    /// Nobody was asked.
    NotNeeded,
    /// What the automatic approval decided, if it did.
    Reviewed(Option<ReviewDecision>),
    /// No frontend is attached that could be asked.
    NoFrontend,
    /// Whether the user accepted; an answer that did not arrive is a refusal.
    Answered(bool),
}

/// Why a checkout command is not run.
pub open spec fn command_refusal(
    approval: CommandApproval,
    reply: CommandReply,
    before: ThreadConfigSnapshot,
    now: ThreadConfigSnapshot,
) -> Option<Seq<char>> {
    let changed = if before.terms() != now.terms() {
        Some("workflow parent authority changed during command approval"@)
    } else {
        None
    };
    match approval {
        CommandApproval::Forbidden(reason) => Some(reason@),
        CommandApproval::Authorized => changed,
        CommandApproval::Review(_) => match reply {
            CommandReply::Reviewed(Some(ReviewDecision::Approved)) => changed,
            CommandReply::Reviewed(Some(ReviewDecision::ApprovedForSession)) => changed,
            _ => Some("workflow checkout command was not approved"@),
        },
        CommandApproval::AskUser(_) => match reply {
            CommandReply::Answered(true) => changed,
            CommandReply::NoFrontend => Some(
                "workflow checkout command requires an attached native frontend"@,
            ),
            _ => Some("workflow checkout command was not approved"@),
        },
    }
}

/// Lets a checkout command run, or refuses it: it must be approved, and the parent's authority must
/// be the one it had when the approval began.
pub fn admit_checkout_command(
    approval: &CommandApproval,
    reply: CommandReply,
    before: &ThreadConfigSnapshot,
    now: &ThreadConfigSnapshot,
) -> (res: Result<(), RpcError>)
    ensures
        refused_by(res, command_refusal(*approval, reply, *before, *now)),
{
    match approval {
        CommandApproval::Forbidden(reason) => {
            return Err(invalid_request(reason.as_str()));
        },
        CommandApproval::Authorized => {},
        CommandApproval::Review(_) => {
            let approved = match reply {
                CommandReply::Reviewed(decision) => review_approves(decision),
                _ => false,
            };
            if !approved {
                return Err(invalid_request("workflow checkout command was not approved"));
            }
        },
        CommandApproval::AskUser(_) => match reply {
            CommandReply::Answered(true) => {},
            CommandReply::NoFrontend => {
                return Err(
                    invalid_request(
                        "workflow checkout command requires an attached native frontend",
                    ),
                );
            },
            _ => {
                return Err(invalid_request("workflow checkout command was not approved"));
            },
        },
    }
    if workflow_authority_matches(before, now) {
        Ok(())
    } else {
        Err(invalid_request("workflow parent authority changed during command approval"))
    }
}

/// A command runs only if the policy authorizes it, or it was approved automatically, or the user
/// accepted it, and only under an unchanged authority.
pub proof fn no_command_without_approval(
    approval: CommandApproval,
    reply: CommandReply,
    before: ThreadConfigSnapshot,
    now: ThreadConfigSnapshot,
)
    requires
        command_refusal(approval, reply, before, now) is None,
    ensures
        before.terms() == now.terms(),
        approval is Authorized || reply == CommandReply::Answered(true) || reply
            == CommandReply::Reviewed(Some(ReviewDecision::Approved)) || reply
            == CommandReply::Reviewed(Some(ReviewDecision::ApprovedForSession)),
        !(approval is Forbidden),
{
}

/// A command runs exactly when the one who must approve it did, and the parent's authority is what it
/// was: a forbidden one never runs, one that the policy authorizes needs nobody unless every command
/// is reviewed strictly, and any other one needs the user, or the automatic approval where that
/// reviews or reviews are strict. An answer of the wrong one does not count.
pub proof fn command_runs_as_approved(
    requirement: ExecApprovalRequirement,
    strict_review: bool,
    reviewer: ApprovalsReviewer,
    approval: CommandApproval,
    reply: CommandReply,
    before: ThreadConfigSnapshot,
    now: ThreadConfigSnapshot,
)
    requires
        is_approval(requirement, strict_review, reviewer, approval),
    ensures
        ({
            let runs = command_refusal(approval, reply, before, now) is None;
            let same = before.terms() == now.terms();
            let reviewed = reply == CommandReply::Reviewed(Some(ReviewDecision::Approved)) || reply
                == CommandReply::Reviewed(Some(ReviewDecision::ApprovedForSession));
            &&& requirement is Forbidden ==> !runs
            &&& requirement is Skip && !strict_review ==> (runs <==> same)
            &&& requirement is NeedsApproval || (requirement is Skip && strict_review) ==> (
            runs <==> same && (if reviewer is User && !strict_review {
                reply == CommandReply::Answered(true)
            } else {
                reviewed
            }))
            &&& requirement matches ExecApprovalRequirement::Forbidden(reason) ==> command_refusal(
                approval,
                reply,
                before,
                now,
            ) == Some(reason@)
        }),
{
}

/// Who approves a command is told the reason that the policy gave, where it gave one.
pub proof fn approver_is_told_why(
    reason: String,
    strict_review: bool,
    reviewer: ApprovalsReviewer,
    approval: CommandApproval,
)
    requires
        is_approval(
            ExecApprovalRequirement::NeedsApproval(Some(reason)),
            strict_review,
            reviewer,
            approval,
        ),
    ensures
        match approval {
            CommandApproval::AskUser(told) => told@ == reason@,
            CommandApproval::Review(told) => told@ == reason@,
            _ => false,
        },
{
}

/// The permission to write a checkout is given exactly where the parent has it already, or where its
/// policy lets it ask and the one who decides agreed: the automatic approval, or the user without a
/// strict review and with permissions that could be understood.
pub proof fn checkout_is_granted_as_decided(
    can_write: bool,
    current: ThreadConfigSnapshot,
    reply: GrantReply,
)
    ensures
        grant_reply_refusal(grant_route(can_write, current), reply) is None <==> can_write || (
        current.permission_requests_allowed && (if current.approvals_reviewer is AutoReview {
            reply == GrantReply::Reviewed(true)
        } else {
            reply is Answered && reply->Answered_0 is Some
                && reply->Answered_0->Some_0.strict_auto_review != Some(true)
                && reply->Answered_0->Some_0.conversion_error is None
        })),
        grant_route(can_write, current) is Ask ==> current.approvals_reviewer is User,
        can_write <==> grant_route(can_write, current) is Granted,
{
}

/// A grant is issued only with a writable entry and under the unchanged authority, and it is then one
/// of the parent, for this run, worker, workspace and place.
pub proof fn grant_is_issued_for_one_checkout(
    grants_write: bool,
    authority: WorkflowAuthority,
    current: ThreadConfigSnapshot,
    grant: CheckoutGrant,
    run_id: Seq<char>,
    worker_id: Seq<char>,
    workspace_id: Seq<char>,
    checkout: Seq<Seq<char>>,
)
    requires
        is_issued(grant, authority, run_id, worker_id, workspace_id, checkout),
    ensures
        grant_issue_refusal(grants_write, authority, current) is None <==> grants_write
            && authority.snapshot.terms() == current.terms(),
        grant.parent_thread_id == authority.parent_thread_id,
        grant.run_id@ == run_id,
        grant.worker_id@ == worker_id,
        grant.workspace_id@ == workspace_id,
        grant.path@ == checkout,
{
}

/// Whoever decides on a checkout is told each part of what is asked for: requests that differ in the
/// run, the worker, the workspace or the place are told differently.
pub proof fn grant_reason_tells_every_part(
    parent: ThreadId,
    run_id: Seq<char>,
    worker_id: Seq<char>,
    workspace_id: Seq<char>,
    checkout: Seq<Seq<char>>,
    other: Seq<char>,
    elsewhere: Seq<Seq<char>>,
)
    ensures
        ({
            let told = grant_reason(parent, run_id, worker_id, workspace_id, checkout);
            &&& other != run_id ==> grant_reason(parent, other, worker_id, workspace_id, checkout)
                != told
            &&& other != worker_id ==> grant_reason(parent, run_id, other, workspace_id, checkout)
                != told
            &&& other != workspace_id ==> grant_reason(parent, run_id, worker_id, other, checkout)
                != told
            &&& path_text(elsewhere) != path_text(checkout) ==> grant_reason(
                parent,
                run_id,
                worker_id,
                workspace_id,
                elsewhere,
            ) != told
            &&& told.len() > 0
        }),
{
    let head = "Grant isolated checkout only: parent="@ + uuid_text(parent.value) + " run="@;
    let place = " path="@ + path_text(checkout);
    let told = grant_reason(parent, run_id, worker_id, workspace_id, checkout);
    assert(other != run_id ==> grant_reason(parent, other, worker_id, workspace_id, checkout)
        != told) by {
        let tail = " worker="@ + worker_id + " workspace="@ + workspace_id + place;
        middle_tells(head, run_id, other, tail);
        assert(told =~= head + run_id + tail);
        assert(grant_reason(parent, other, worker_id, workspace_id, checkout) =~= head + other
            + tail);
    }
    assert(other != worker_id ==> grant_reason(parent, run_id, other, workspace_id, checkout)
        != told) by {
        let start = head + run_id + " worker="@;
        let tail = " workspace="@ + workspace_id + place;
        middle_tells(start, worker_id, other, tail);
        assert(told =~= start + worker_id + tail);
        assert(grant_reason(parent, run_id, other, workspace_id, checkout) =~= start + other
            + tail);
    }
    assert(other != workspace_id ==> grant_reason(parent, run_id, worker_id, other, checkout)
        != told) by {
        let start = head + run_id + " worker="@ + worker_id + " workspace="@;
        middle_tells(start, workspace_id, other, place);
        assert(told =~= start + workspace_id + place);
        assert(grant_reason(parent, run_id, worker_id, other, checkout) =~= start + other + place);
    }
    let moved = grant_reason(parent, run_id, worker_id, workspace_id, elsewhere);
    assert(path_text(elsewhere) != path_text(checkout) ==> moved != told) by {
        let start = head + run_id + " worker="@ + worker_id + " workspace="@ + workspace_id
            + " path="@;
        if moved == told {
            assert(path_text(checkout) =~= told.skip(start.len() as int));
            assert(path_text(elsewhere) =~= moved.skip(start.len() as int));
        }
    }
    assert(told.len() > 0) by {
        reveal_strlit("Grant isolated checkout only: parent=");
    }
}

/// A text between the same texts is told from another one.
proof fn middle_tells(head: Seq<char>, middle: Seq<char>, other: Seq<char>, tail: Seq<char>)
    ensures
        middle != other ==> head + middle + tail != head + other + tail,
{
    let one = head + middle + tail;
    let two = head + other + tail;
    if one == two {
        assert(one.len() == head.len() + middle.len() + tail.len());
        assert(two.len() == head.len() + other.len() + tail.len());
        assert(middle =~= one.subrange(head.len() as int, head.len() as int + middle.len()));
        assert(other =~= two.subrange(head.len() as int, head.len() as int + middle.len()));
    }
}

/// The profile of a checkout is taken only under the unchanged authority, and never from an
/// environment that is not set up; one that is set up gives its own, and without one it is that of
/// the thread.
pub proof fn profile_has_a_template(
    authority: WorkflowAuthority,
    current: ThreadConfigSnapshot,
    environment: EnvironmentState,
)
    ensures
        profile_template_refusal(authority, current, environment) is None <==> authority.snapshot.terms()
            == current.terms() && !(environment is NotReady),
        environment is Ready ==> template_of(environment) is Environment,
        environment is Unselected || environment is FromThread ==> template_of(environment) is Thread,
{
}

/// Checkout commands run only in the one local environment.
pub proof fn only_a_local_executor_runs_commands(executor: Executor)
    ensures
        executor_refusal(executor) is None <==> executor is Local,
{
}

/// A command needs more than the parent's permissions unless everything it asks for is a path that the
/// parent may write.
pub proof fn writable_paths_need_no_escalation(entries: Seq<RequestedEntry>)
    ensures
        !needs_escalation(entries) <==> forall|i: int|
            0 <= i < entries.len() ==> (#[trigger] entries[i]) is Path && entries[i]->writable,
{
    if forall|i: int|
        0 <= i < entries.len() ==> (#[trigger] entries[i]) is Path && entries[i]->writable {
        assert forall|i: int| 0 <= i < entries.len() implies #[trigger] entries[i] == (
        RequestedEntry::Path { writable: true }) by {}
    }
}

/// Workspaces ask for their approvals under turns of their own.
pub proof fn approval_turns_are_told_apart(workspace_id: Seq<char>, other: Seq<char>)
    ensures
        approval_turn(workspace_id) == approval_turn(other) <==> workspace_id == other,
{
    middle_tells("workflow-workspace-"@, workspace_id, other, Seq::empty());
    assert(approval_turn(workspace_id) =~= "workflow-workspace-"@ + workspace_id + Seq::empty());
    assert(approval_turn(other) =~= "workflow-workspace-"@ + other + Seq::empty());
}

/// A review that was denied, aborted or not made in time lets nothing pass, nor does one without a
/// decision; an approval lets pass, for once and for the session alike.
pub proof fn only_approvals_approve(decision: ReviewDecision)
    ensures
        !approves(None),
        approves(Some(decision)) <==> !(decision is Denied || decision is Abort || decision
            is TimedOut),
{
}

} // verus!
