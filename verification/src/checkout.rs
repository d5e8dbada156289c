//! Git commands on isolated checkouts: what is run, when, and what a failure leads to.
use crate::error::{
    internal_error, invalid_request, refused_by, ErrorData, RpcError, COMMAND_FAILED,
    COMMAND_NOT_RUN, INTERNAL_ERROR,
};
use crate::ids::{lock_reason, workflow_lock_reason};
use crate::path::{path_text, AbsolutePath};
use crate::text::{plus, plus3, texts, trim, trimmed};
use crate::workspace::{
    branch_reference, checkout_path_refusal, reference_of_branch, validate_checkout_path,
    WorkflowWorkspaceOwnership,
};
use vstd::prelude::*;
use vstd::string::*;

verus! {

/// A Git command on a checkout.
#[derive(Clone, Copy, Debug, PartialEq, Eq, Structural)]
pub enum CheckoutCommand {
    /// Creates the checkout and its branch at the base commit.
    Add,
    /// Locks the checkout for its workspace.
    Lock,
    Unlock,
    /// Removes the checkout; Git refuses where something was changed in it.
    Remove,
    /// Removes the checkout with whatever is in it.
    ForceRemove,
    /// Prints the commit of the branch.
    ResolveBranch,
    /// Deletes the branch, if it still is at the base commit.
    DeleteBranch,
}

/// The words of a command.
pub open spec fn command_words(
    command: CheckoutCommand,
    id: Seq<char>,
    workspace: WorkflowWorkspaceOwnership,
) -> Seq<Seq<char>> {
    let cwd = path_text(workspace.cwd@);
    let branch = workspace.branch@;
    let base = workspace.base_commit@;
    match command {
        CheckoutCommand::Add => seq!["git"@, "worktree"@, "add"@, "-b"@, branch, cwd, base],
        CheckoutCommand::Lock => seq![
            "git"@,
            "worktree"@,
            "lock"@,
            "--reason"@,
            lock_reason(id),
            cwd,
        ],
        CheckoutCommand::Unlock => seq!["git"@, "worktree"@, "unlock"@, cwd],
        CheckoutCommand::Remove => seq!["git"@, "worktree"@, "remove"@, cwd],
        CheckoutCommand::ForceRemove => seq!["git"@, "worktree"@, "remove"@, "--force"@, cwd],
        CheckoutCommand::ResolveBranch => seq![
            "git"@,
            "rev-parse"@,
            "--verify"@,
            branch_reference(branch),
        ],
        CheckoutCommand::DeleteBranch => seq![
            "git"@,
            "update-ref"@,
            "-d"@,
            branch_reference(branch),
            base,
        ],
    }
}

/// Whether a command changes the repository.
pub open spec fn command_writes(command: CheckoutCommand) -> bool {
    command !is ResolveBranch
}

impl CheckoutCommand {
    pub fn words(&self, id: &str, workspace: &WorkflowWorkspaceOwnership) -> (res: Vec<String>)
        ensures
            texts(res@) == command_words(*self, id@, *workspace),
    {
        let mut out: Vec<String> = Vec::new();
        out.push("git".to_owned());
        match self {
            CheckoutCommand::Add => {
                out.push("worktree".to_owned());
                out.push("add".to_owned());
                out.push("-b".to_owned());
                out.push(workspace.branch.clone());
                out.push(workspace.cwd.text());
                out.push(workspace.base_commit.clone());
            },
            CheckoutCommand::Lock => {
                out.push("worktree".to_owned());
                out.push("lock".to_owned());
                out.push("--reason".to_owned());
                out.push(workflow_lock_reason(id));
                out.push(workspace.cwd.text());
            },
            CheckoutCommand::Unlock => {
                out.push("worktree".to_owned());
                out.push("unlock".to_owned());
                out.push(workspace.cwd.text());
            },
            CheckoutCommand::Remove => {
                out.push("worktree".to_owned());
                out.push("remove".to_owned());
                out.push(workspace.cwd.text());
            },
            CheckoutCommand::ForceRemove => {
                out.push("worktree".to_owned());
                out.push("remove".to_owned());
                out.push("--force".to_owned());
                out.push(workspace.cwd.text());
            },
            CheckoutCommand::ResolveBranch => {
                out.push("rev-parse".to_owned());
                out.push("--verify".to_owned());
                out.push(reference_of_branch(workspace.branch.as_str()));
            },
            CheckoutCommand::DeleteBranch => {
                out.push("update-ref".to_owned());
                out.push("-d".to_owned());
                out.push(reference_of_branch(workspace.branch.as_str()));
                out.push(workspace.base_commit.clone());
            },
        }
        assert(texts(out@) =~= command_words(*self, id@, *workspace));
        out
    }

    /// Whether the command runs with write access to the checkout's surroundings.
    pub fn writes(&self) -> (res: bool)
        ensures
            res == command_writes(*self),
    {
        match self {
            CheckoutCommand::ResolveBranch => false,
            _ => true,
        }
    }
}

/// What is known of a directory.
#[derive(Debug)]
pub enum PathProbe {
    Present,
    Missing,
    /// It could not be looked at.
    Failed(String),
}

/// Why no write scope can be formed for a checkout.
pub open spec fn scope_refusal(checkout: Seq<Seq<char>>, namespace: PathProbe) -> Option<
    Seq<char>,
> {
    if checkout.len() == 0 {
        Some("checkout has no parent"@)
    } else if checkout.len() == 1 {
        Some("checkout namespace is missing"@)
    } else {
        match namespace {
            PathProbe::Failed(message) => Some(message@),
            _ => None,
        }
    }
}

/// The directories that a checkout command may write: the directory of the checkouts, the directory
/// above it where that must be created too, and the common Git directory.
pub open spec fn command_scope(
    checkout: Seq<Seq<char>>,
    namespace: PathProbe,
    common_git_dir: Seq<Seq<char>>,
) -> Seq<Seq<Seq<char>>> {
    let root = checkout.drop_last();
    if namespace is Missing {
        seq![root, root.drop_last(), common_git_dir]
    } else {
        seq![root, common_git_dir]
    }
}

/// The paths as lists of components.
pub open spec fn path_views(paths: Seq<AbsolutePath>) -> Seq<Seq<Seq<char>>> {
    paths.map_values(|path: AbsolutePath| path@)
}

/// The write scope of a checkout command. `namespace` is what is known of the directory two levels
/// above the checkout.
pub fn checkout_command_scope(
    checkout: &AbsolutePath,
    namespace: PathProbe,
    common_git_dir: &AbsolutePath,
) -> (res: Result<Vec<AbsolutePath>, RpcError>)
    ensures
        refused_by(res, scope_refusal(checkout@, namespace)),
        res matches Ok(paths) ==> path_views(paths@) == command_scope(
            checkout@,
            namespace,
            common_git_dir@,
        ),
{
    let root = match checkout.parent() {
        Some(root) => root,
        None => {
            return Err(invalid_request("checkout has no parent"));
        },
    };
    let above = match root.parent() {
        Some(above) => above,
        None => {
            return Err(invalid_request("checkout namespace is missing"));
        },
    };
    let mut paths: Vec<AbsolutePath> = Vec::new();
    paths.push(root);
    match namespace {
        PathProbe::Missing => {
            paths.push(above);
        },
        PathProbe::Failed(message) => {
            return Err(invalid_request(message.as_str()));
        },
        PathProbe::Present => {},
    }
    paths.push(common_git_dir.copy());
    assert(path_views(paths@) =~= command_scope(checkout@, namespace, common_git_dir@));
    Ok(paths)
}

/// What a command printed and how it ended.
#[derive(Debug)]
pub struct CommandOutput {
    pub exit_code: i32,
    pub stdout: String,
    pub stderr: String,
}

/// Whether a command that came to this is answered so.
pub open spec fn is_command_result(
    outcome: Result<CommandOutput, String>,
    res: Result<String, RpcError>,
) -> bool {
    match outcome {
        Ok(output) => if output.exit_code == 0 {
            res matches Ok(text) && text@ == trimmed(output.stdout@)
        } else {
            res matches Err(error) && error.code == COMMAND_FAILED && error.message@
                == output.stderr@ && error.data == Some(ErrorData::ExitCode(output.exit_code))
        },
        Err(message) => res matches Err(error) && error.is(COMMAND_NOT_RUN, message@),
    }
}

/// The answer to a command that was run: its trimmed output, or an error that tells a failed command
/// from one that could not be run.
pub fn checkout_command_result(outcome: Result<CommandOutput, String>) -> (res: Result<
    String,
    RpcError,
>)
    ensures
        is_command_result(outcome, res),
{
    match outcome {
        Ok(output) => {
            if output.exit_code != 0 {
                Err(
                    RpcError {
                        code: COMMAND_FAILED,
                        message: output.stderr,
                        data: Some(ErrorData::ExitCode(output.exit_code)),
                    },
                )
            } else {
                Ok(trim(output.stdout.as_str()))
            }
        },
        Err(message) => Err(RpcError { code: COMMAND_NOT_RUN, message, data: None }),
    }
}

/// How a step ended.
#[derive(Clone, Copy, Debug, PartialEq, Eq, Structural)]
pub enum Answer {
    /// The check holds; the command succeeded.
    Yes,
    /// The check does not hold.
    No,
    /// The command ran and failed.
    Failed,
    /// The command could not be run.
    NotRun,
    /// The command was not permitted.
    Refused,
}

/// The answer that a command's result gives.
pub open spec fn command_answer<T>(res: Result<T, RpcError>) -> Answer {
    match res {
        Ok(_) => Answer::Yes,
        Err(error) => if error.code == COMMAND_FAILED {
            Answer::Failed
        } else if error.code == COMMAND_NOT_RUN {
            Answer::NotRun
        } else {
            Answer::Refused
        },
    }
}

pub fn answer_of_command(res: &Result<String, RpcError>) -> (answer: Answer)
    ensures
        answer == command_answer(*res),
{
    match res {
        Ok(_) => Answer::Yes,
        Err(error) => if error.code == COMMAND_FAILED {
            Answer::Failed
        } else if error.code == COMMAND_NOT_RUN {
            Answer::NotRun
        } else {
            Answer::Refused
        },
    }
}

/// A step of making a checkout.
#[derive(Clone, Copy, Debug, PartialEq, Eq, Structural)]
pub enum CreateStep {
    /// Runs `CheckoutCommand::Add`.
    Add,
    /// Looks whether the new directory is the expected worktree.
    Identity,
    /// Runs `CheckoutCommand::Lock`.
    Lock,
    /// Resolves the permission profile of the checkout.
    Profile,
    /// Writes the ownership record.
    Persist,
}

/// What follows a step of making a checkout.
#[derive(Clone, Copy, Debug, PartialEq, Eq, Structural)]
pub enum AfterCreate {
    Step(CreateStep),
    /// Nothing was made: fail.
    Fail,
    /// Remove what was made, and fail.
    CleanUp,
    Done,
}

/// The step after a step that succeeded.
pub open spec fn step_after(step: CreateStep) -> AfterCreate {
    match step {
        CreateStep::Add => AfterCreate::Step(CreateStep::Identity),
        CreateStep::Identity => AfterCreate::Step(CreateStep::Lock),
        CreateStep::Lock => AfterCreate::Step(CreateStep::Profile),
        CreateStep::Profile => AfterCreate::Step(CreateStep::Persist),
        CreateStep::Persist => AfterCreate::Done,
    }
}

/// A failed step is followed by a clean-up, unless the first command was not even permitted.
pub open spec fn create_next(step: CreateStep, answer: Answer) -> AfterCreate {
    if answer is Yes {
        step_after(step)
    } else if step is Add && !(answer is Failed || answer is NotRun) {
        AfterCreate::Fail
    } else {
        AfterCreate::CleanUp
    }
}

pub fn after_create_step(step: CreateStep, answer: Answer) -> (res: AfterCreate)
    ensures
        res == create_next(step, answer),
{
    match answer {
        Answer::Yes => match step {
            CreateStep::Add => AfterCreate::Step(CreateStep::Identity),
            CreateStep::Identity => AfterCreate::Step(CreateStep::Lock),
            CreateStep::Lock => AfterCreate::Step(CreateStep::Profile),
            CreateStep::Profile => AfterCreate::Step(CreateStep::Persist),
            CreateStep::Persist => AfterCreate::Done,
        },
        Answer::Failed | Answer::NotRun => AfterCreate::CleanUp,
        _ => match step {
            CreateStep::Add => AfterCreate::Fail,
            _ => AfterCreate::CleanUp,
        },
    }
}

/// What follows a step of restoring a removed checkout, which ends with its lock.
pub open spec fn restore_next(step: CreateStep, answer: Answer) -> AfterCreate {
    if step is Lock && answer is Yes {
        AfterCreate::Done
    } else {
        create_next(step, answer)
    }
}

pub fn after_restore_step(step: CreateStep, answer: Answer) -> (res: AfterCreate)
    ensures
        res == restore_next(step, answer),
{
    if step == CreateStep::Lock && answer == Answer::Yes {
        AfterCreate::Done
    } else {
        after_create_step(step, answer)
    }
}

pub open spec fn create_rank(step: CreateStep) -> int {
    match step {
        CreateStep::Add => 4,
        CreateStep::Identity => 3,
        CreateStep::Lock => 2,
        CreateStep::Profile => 1,
        CreateStep::Persist => 0,
    }
}

/// How the making of a checkout ends from a step on, when each step is answered so.
pub open spec fn create_end(answers: spec_fn(CreateStep) -> Answer, step: CreateStep) -> AfterCreate
    decreases create_rank(step),
{
    match create_next(step, answers(step)) {
        AfterCreate::Step(next) => if create_rank(next) < create_rank(step) {
            create_end(answers, next)
        } else {
            AfterCreate::Fail
        },
        end => end,
    }
}

/// A checkout is made exactly when every step succeeds. Where it is not, what was made is cleaned
/// up, unless the first command was not permitted to run.
pub proof fn checkout_is_made_or_cleaned_up(answers: spec_fn(CreateStep) -> Answer)
    ensures
        create_end(answers, CreateStep::Add) == AfterCreate::Done <==> forall|step: CreateStep|
            #[trigger] answers(step) is Yes,
        create_end(answers, CreateStep::Add) == AfterCreate::Fail <==> (answers(
            CreateStep::Add,
        ) is Refused || answers(CreateStep::Add) is No),
{
    reveal_with_fuel(create_end, 6);
    assert forall|step: CreateStep|
        create_end(answers, CreateStep::Add) == AfterCreate::Done implies #[trigger] answers(
        step,
    ) is Yes by {
        match step {
            CreateStep::Add => {},
            CreateStep::Identity => {},
            CreateStep::Lock => {},
            CreateStep::Profile => {},
            CreateStep::Persist => {},
        }
    }
    if forall|step: CreateStep| #[trigger] answers(step) is Yes {
        assert(answers(CreateStep::Add) is Yes);
        assert(answers(CreateStep::Identity) is Yes);
        assert(answers(CreateStep::Lock) is Yes);
        assert(answers(CreateStep::Profile) is Yes);
        assert(answers(CreateStep::Persist) is Yes);
    }
}

/// Why a removed checkout cannot be restored. `repository` is the canonical form of the recorded
/// directory, or why it has none, and `symlinks` tells which paths of the checkout's chain down to it
/// are symlinks.
pub open spec fn restore_refusal(
    id: Seq<char>,
    workspace: WorkflowWorkspaceOwnership,
    repository: Result<AbsolutePath, String>,
    symlinks: Seq<bool>,
    path_exists: bool,
) -> Option<Seq<char>> {
    let path = checkout_path_refusal(repository, workspace.cwd@, symlinks);
    if !workspace.granted(id) {
        Some("workflow checkout grant ownership is stale"@)
    } else if path is Some {
        path
    } else if path_exists {
        Some("removed workflow path was recreated externally"@)
    } else {
        None
    }
}

/// Checks that a removed checkout can be restored where it was.
pub fn check_restore(
    id: &str,
    workspace: &WorkflowWorkspaceOwnership,
    repository: &Result<AbsolutePath, String>,
    symlinks: &Vec<bool>,
    path_exists: bool,
) -> (res: Result<(), RpcError>)
    ensures
        refused_by(res, restore_refusal(id@, *workspace, *repository, symlinks@, path_exists)),
{
    if !workspace.is_granted(id) {
        return Err(invalid_request("workflow checkout grant ownership is stale"));
    }
    match validate_checkout_path(repository, &workspace.cwd, symlinks) {
        Ok(_) => {},
        Err(message) => {
            return Err(invalid_request(message.as_str()));
        },
    }
    if path_exists {
        return Err(invalid_request("removed workflow path was recreated externally"));
    }
    Ok(())
}

/// Notes that a checkout is there again.
pub fn mark_restored(workspace: &mut WorkflowWorkspaceOwnership)
    ensures
        *final(workspace) == (WorkflowWorkspaceOwnership { removed: false, ..*old(workspace) }),
{
    workspace.removed = false;
}

/// A step of removing a checkout that could not be completed.
#[derive(Clone, Copy, Debug, PartialEq, Eq, Structural)]
pub enum CleanupStep {
    /// Looks whether the directory is the workspace's worktree.
    Identity,
    /// Looks whether the host's own lock stands on it.
    OwnLock,
    /// Runs `CheckoutCommand::Unlock`.
    Unlock,
    /// Runs `CheckoutCommand::ForceRemove`.
    Remove,
    /// Runs `CheckoutCommand::ResolveBranch`; the check is that it prints the base commit.
    ResolveBranch,
    /// Runs `CheckoutCommand::DeleteBranch`.
    DeleteBranch,
    /// Looks whether the directory is gone.
    PathGone,
}

/// What follows a step of a clean-up.
#[derive(Clone, Copy, Debug, PartialEq, Eq, Structural)]
pub enum AfterCleanup {
    Step(CleanupStep),
    Done,
    /// Fails with the command's own error.
    CommandError,
    BranchChanged,
    PathRemains,
}

pub open spec fn cleanup_next(step: CleanupStep, answer: Answer) -> AfterCleanup {
    match step {
        CleanupStep::Identity => AfterCleanup::Step(
            if answer is Yes {
                CleanupStep::OwnLock
            } else {
                CleanupStep::ResolveBranch
            },
        ),
        CleanupStep::OwnLock => AfterCleanup::Step(
            if answer is Yes {
                CleanupStep::Unlock
            } else {
                CleanupStep::Remove
            },
        ),
        CleanupStep::Unlock => if answer is Yes {
            AfterCleanup::Step(CleanupStep::Remove)
        } else {
            AfterCleanup::CommandError
        },
        CleanupStep::Remove => if answer is Yes {
            AfterCleanup::Step(CleanupStep::ResolveBranch)
        } else {
            AfterCleanup::CommandError
        },
        CleanupStep::ResolveBranch => match answer {
            Answer::Yes => AfterCleanup::Step(CleanupStep::DeleteBranch),
            Answer::No => AfterCleanup::BranchChanged,
            Answer::Failed => AfterCleanup::Step(CleanupStep::PathGone),
            Answer::NotRun | Answer::Refused => AfterCleanup::CommandError,
        },
        CleanupStep::DeleteBranch => if answer is Yes {
            AfterCleanup::Step(CleanupStep::PathGone)
        } else {
            AfterCleanup::CommandError
        },
        CleanupStep::PathGone => if answer is Yes {
            AfterCleanup::Done
        } else {
            AfterCleanup::PathRemains
        },
    }
}

pub fn after_cleanup_step(step: CleanupStep, answer: Answer) -> (res: AfterCleanup)
    ensures
        res == cleanup_next(step, answer),
{
    let yes = answer == Answer::Yes;
    match step {
        CleanupStep::Identity => {
            if yes {
                AfterCleanup::Step(CleanupStep::OwnLock)
            } else {
                AfterCleanup::Step(CleanupStep::ResolveBranch)
            }
        },
        CleanupStep::OwnLock => {
            if yes {
                AfterCleanup::Step(CleanupStep::Unlock)
            } else {
                AfterCleanup::Step(CleanupStep::Remove)
            }
        },
        CleanupStep::Unlock => {
            if yes {
                AfterCleanup::Step(CleanupStep::Remove)
            } else {
                AfterCleanup::CommandError
            }
        },
        CleanupStep::Remove => {
            if yes {
                AfterCleanup::Step(CleanupStep::ResolveBranch)
            } else {
                AfterCleanup::CommandError
            }
        },
        CleanupStep::ResolveBranch => {
            match answer {
                Answer::Yes => AfterCleanup::Step(CleanupStep::DeleteBranch),
                Answer::No => AfterCleanup::BranchChanged,
                Answer::Failed => AfterCleanup::Step(CleanupStep::PathGone),
                Answer::NotRun | Answer::Refused => AfterCleanup::CommandError,
            }
        },
        CleanupStep::DeleteBranch => {
            if yes {
                AfterCleanup::Step(CleanupStep::PathGone)
            } else {
                AfterCleanup::CommandError
            }
        },
        CleanupStep::PathGone => {
            if yes {
                AfterCleanup::Done
            } else {
                AfterCleanup::PathRemains
            }
        },
    }
}

pub open spec fn cleanup_rank(step: CleanupStep) -> int {
    match step {
        CleanupStep::Identity => 6,
        CleanupStep::OwnLock => 5,
        CleanupStep::Unlock => 4,
        CleanupStep::Remove => 3,
        CleanupStep::ResolveBranch => 2,
        CleanupStep::DeleteBranch => 1,
        CleanupStep::PathGone => 0,
    }
}

/// The steps that a clean-up takes from a step on, when each is answered so.
pub open spec fn cleanup_steps(
    answers: spec_fn(CleanupStep) -> Answer,
    step: CleanupStep,
) -> Seq<CleanupStep>
    decreases cleanup_rank(step),
{
    match cleanup_next(step, answers(step)) {
        AfterCleanup::Step(next) => if cleanup_rank(next) < cleanup_rank(step) {
            seq![step] + cleanup_steps(answers, next)
        } else {
            seq![step]
        },
        _ => seq![step],
    }
}

/// How a clean-up ends from a step on, when each is answered so.
pub open spec fn cleanup_end(
    answers: spec_fn(CleanupStep) -> Answer,
    step: CleanupStep,
) -> AfterCleanup
    decreases cleanup_rank(step),
{
    match cleanup_next(step, answers(step)) {
        AfterCleanup::Step(next) => if cleanup_rank(next) < cleanup_rank(step) {
            cleanup_end(answers, next)
        } else {
            AfterCleanup::CommandError
        },
        end => end,
    }
}

/// Every clean-up comes to an end, because each step leads only to later ones.
pub proof fn cleanup_moves_on(step: CleanupStep, answer: Answer)
    ensures
        cleanup_next(step, answer) matches AfterCleanup::Step(next) ==> cleanup_rank(next)
            < cleanup_rank(step),
{
}

/// A clean-up destroys only what it owns: a directory is removed by force only if it is the
/// workspace's worktree, and after the host's own lock on it, if any, was taken off; a branch is
/// deleted only if it still is at the base commit. It reports success only if the directory is gone.
pub proof fn cleanup_destroys_only_its_own(answers: spec_fn(CleanupStep) -> Answer)
    ensures
        cleanup_steps(answers, CleanupStep::Identity).contains(CleanupStep::Remove) ==> answers(
            CleanupStep::Identity,
        ) is Yes && (answers(CleanupStep::OwnLock) is Yes ==> answers(CleanupStep::Unlock) is Yes),
        cleanup_steps(answers, CleanupStep::Identity).contains(CleanupStep::Unlock) ==> answers(
            CleanupStep::Identity,
        ) is Yes && answers(CleanupStep::OwnLock) is Yes,
        cleanup_steps(answers, CleanupStep::Identity).contains(CleanupStep::DeleteBranch)
            ==> answers(CleanupStep::ResolveBranch) is Yes,
        cleanup_end(answers, CleanupStep::Identity) == AfterCleanup::Done ==> answers(
            CleanupStep::PathGone,
        ) is Yes,
{
    reveal_with_fuel(cleanup_steps, 8);
    reveal_with_fuel(cleanup_end, 8);
}

/// Whether a clean-up that ended so has this error of its own.
pub open spec fn is_cleanup_error(
    end: AfterCleanup,
    cwd: Seq<Seq<char>>,
    res: Option<RpcError>,
) -> bool {
    match end {
        AfterCleanup::BranchChanged => res matches Some(error) && error.is(
            INTERNAL_ERROR,
            "workflow branch changed during cleanup; evidence retained"@,
        ),
        AfterCleanup::PathRemains => res matches Some(error) && error.is(
            INTERNAL_ERROR,
            "checkout at "@ + path_text(cwd) + " could not be safely removed; evidence retained"@,
        ),
        _ => res is None,
    }
}

/// The error of a clean-up that ended so; a failed command keeps its own.
pub fn cleanup_error(end: AfterCleanup, cwd: &AbsolutePath) -> (res: Option<RpcError>)
    ensures
        is_cleanup_error(end, cwd@, res),
{
    match end {
        AfterCleanup::BranchChanged => Some(
            internal_error(
                "workflow branch changed during cleanup; evidence retained",
            ),
        ),
        AfterCleanup::PathRemains => Some(
            internal_error(
                plus3(
                    "checkout at ",
                    cwd.text().as_str(),
                    " could not be safely removed; evidence retained",
                ).as_str(),
            ),
        ),
        _ => None,
    }
}

/// What is appended to an error whose clean-up failed too. An identity failure names no place.
pub open spec fn unresolved_note(
    step: CreateStep,
    cwd: Seq<Seq<char>>,
    cleanup_message: Seq<char>,
) -> Seq<char> {
    if step is Identity {
        "; cleanup unresolved: "@ + cleanup_message
    } else {
        "; cleanup unresolved at "@ + path_text(cwd) + ": "@ + cleanup_message
    }
}

/// Whether making a checkout ends with this error.
pub open spec fn is_creation_error(
    error: RpcError,
    step: CreateStep,
    cwd: Seq<Seq<char>>,
    cleanup: Option<RpcError>,
    res: RpcError,
) -> bool {
    &&& res.code == error.code
    &&& res.data == error.data
    &&& res.message@ == match cleanup {
        Some(failure) => error.message@ + unresolved_note(step, cwd, failure.message@),
        None => error.message@,
    }
}

/// The error that making a checkout ends with, once the clean-up was tried.
pub fn creation_error(
    error: RpcError,
    step: CreateStep,
    cwd: &AbsolutePath,
    cleanup: &Option<RpcError>,
) -> (res: RpcError)
    ensures
        is_creation_error(error, step, cwd@, *cleanup, res),
{
    match cleanup {
        None => error,
        Some(failure) => {
            let note = match step {
                CreateStep::Identity => plus(
                    "; cleanup unresolved: ",
                    failure.message.as_str(),
                ),
                _ => {
                    let mut note = plus3(
                        "; cleanup unresolved at ",
                        cwd.text().as_str(),
                        ": ",
                    );
                    note.append(failure.message.as_str());
                    note
                },
            };
            RpcError {
                code: error.code,
                message: plus(error.message.as_str(), note.as_str()),
                data: error.data,
            }
        },
    }
}

/// A command is answered as it ended: one that exited with zero by what it printed, one that exited
/// otherwise as failed, with what it printed as its error and its exit status, and one that could not
/// be run as such, with the reason. The step it belongs to goes by the same.
pub proof fn command_is_answered_as_it_ended(
    outcome: Result<CommandOutput, String>,
    res: Result<String, RpcError>,
)
    requires
        is_command_result(outcome, res),
    ensures
        command_answer(res) is Yes <==> outcome is Ok && outcome->Ok_0.exit_code == 0,
        command_answer(res) is Failed <==> outcome is Ok && outcome->Ok_0.exit_code != 0,
        command_answer(res) is NotRun <==> outcome is Err,
        res matches Ok(text) ==> text@ == trimmed(outcome->Ok_0.stdout@),
        outcome is Ok && res is Err ==> res->Err_0.message@ == outcome->Ok_0.stderr@
            && res->Err_0.data == Some(ErrorData::ExitCode(outcome->Ok_0.exit_code)),
        outcome matches Err(message) ==> res->Err_0.message@ == message@,
{
}

/// A command that was refused before it ran is told from one that ran or could not be run.
pub proof fn refused_command_is_told_apart(res: Result<String, RpcError>, message: Seq<char>)
    requires
        refused_by(res, Some(message)),
    ensures
        command_answer(res) is Refused,
{
}

/// A checkout command may write the directory in which the checkout stands and the common Git
/// directory, and the directory above only where that must be made too; nothing else.
pub proof fn checkout_scope_is_narrow(
    checkout: Seq<Seq<char>>,
    namespace: PathProbe,
    common_git_dir: Seq<Seq<char>>,
    path: Seq<Seq<char>>,
)
    requires
        scope_refusal(checkout, namespace) is None,
    ensures
        command_scope(checkout, namespace, common_git_dir).contains(path) <==> (path
            == common_git_dir || path == checkout.take(checkout.len() - 1) || (path
            == checkout.take(checkout.len() - 2) && namespace is Missing)),
        checkout.len() >= 2,
        !(namespace is Failed),
{
    let scope = command_scope(checkout, namespace, common_git_dir);
    assert(checkout.drop_last() =~= checkout.take(checkout.len() - 1));
    assert(checkout.drop_last().drop_last() =~= checkout.take(checkout.len() - 2));
    assert(scope[0] == checkout.drop_last());
    assert(scope.last() == common_git_dir);
    if namespace is Missing {
        assert(scope[1] == checkout.drop_last().drop_last());
    }
    if scope.contains(path) {
        let i = choose|i: int| 0 <= i < scope.len() && scope[i] == path;
        assert(scope[i] == path);
    }
}

/// The steps that making a checkout takes from a step on, by what follows each, when each is answered
/// so.
pub open spec fn made_by(
    next: spec_fn(CreateStep, Answer) -> AfterCreate,
    answers: spec_fn(CreateStep) -> Answer,
    step: CreateStep,
    fuel: nat,
) -> (Seq<CreateStep>, AfterCreate)
    decreases fuel,
{
    match next(step, answers(step)) {
        AfterCreate::Step(following) => if fuel == 0 {
            (seq![step], AfterCreate::Fail)
        } else {
            let rest = made_by(next, answers, following, (fuel - 1) as nat);
            (seq![step] + rest.0, rest.1)
        },
        end => (seq![step], end),
    }
}

/// A checkout is added, looked at, locked, given its permissions and recorded, in this order; one that
/// is restored is added, looked at and locked. Whatever fails after it was added is cleaned up.
pub proof fn checkout_is_made_in_order(answers: spec_fn(CreateStep) -> Answer)
    ensures
        ({
            let (made, end) = made_by(
                |step: CreateStep, answer: Answer| create_next(step, answer),
                answers,
                CreateStep::Add,
                5,
            );
            let (restored, restore_end) = made_by(
                |step: CreateStep, answer: Answer| restore_next(step, answer),
                answers,
                CreateStep::Add,
                5,
            );
            let order = seq![
                CreateStep::Add,
                CreateStep::Identity,
                CreateStep::Lock,
                CreateStep::Profile,
                CreateStep::Persist,
            ];
            &&& 1 <= made.len() <= 5
            &&& made == order.take(made.len() as int)
            &&& end is Done <==> made.len() == 5 && answers(CreateStep::Persist) is Yes
            &&& made.len() > 1 && !(end is Done) ==> end is CleanUp
            &&& 1 <= restored.len() <= 3
            &&& restored == order.take(restored.len() as int)
            &&& restore_end is Done <==> restored.len() == 3 && answers(CreateStep::Lock) is Yes
            &&& restored.len() > 1 && !(restore_end is Done) ==> restore_end is CleanUp
            &&& forall|i: int|
                0 <= i < made.len() - 1 ==> answers(#[trigger] made[i]) is Yes
            &&& forall|i: int|
                0 <= i < restored.len() - 1 ==> answers(#[trigger] restored[i]) is Yes
        }),
{
    reveal_with_fuel(made_by, 6);
    let order = seq![
        CreateStep::Add,
        CreateStep::Identity,
        CreateStep::Lock,
        CreateStep::Profile,
        CreateStep::Persist,
    ];
    let create = |step: CreateStep, answer: Answer| create_next(step, answer);
    let restore = |step: CreateStep, answer: Answer| restore_next(step, answer);
    let made = made_by(create, answers, CreateStep::Add, 5).0;
    let restored = made_by(restore, answers, CreateStep::Add, 5).0;
    assert(made =~= order.take(made.len() as int));
    assert(restored =~= order.take(restored.len() as int));
}

/// Where everything is as the host left it, a clean-up takes off its lock, removes the checkout and
/// deletes the branch, and is done. A step that is answered otherwise is never passed over in
/// silence: a lock, a removal or a deletion that fails ends it with that error.
pub proof fn cleanup_is_complete(answers: spec_fn(CleanupStep) -> Answer)
    ensures
        ({
            let steps = cleanup_steps(answers, CleanupStep::Identity);
            let end = cleanup_end(answers, CleanupStep::Identity);
            let step = |step: CleanupStep| steps.contains(step);
            &&& step(CleanupStep::Identity)
            &&& step(CleanupStep::OwnLock) <==> answers(CleanupStep::Identity) is Yes
            &&& step(CleanupStep::Unlock) <==> step(CleanupStep::OwnLock) && answers(
                CleanupStep::OwnLock,
            ) is Yes
            &&& step(CleanupStep::Remove) <==> step(CleanupStep::OwnLock) && (answers(
                CleanupStep::OwnLock,
            ) is Yes ==> answers(CleanupStep::Unlock) is Yes)
            &&& step(CleanupStep::ResolveBranch) <==> (answers(CleanupStep::Identity) is Yes
                ==> step(CleanupStep::Remove) && answers(CleanupStep::Remove) is Yes)
            &&& step(CleanupStep::DeleteBranch) <==> step(CleanupStep::ResolveBranch) && answers(
                CleanupStep::ResolveBranch,
            ) is Yes
            &&& step(CleanupStep::PathGone) <==> step(CleanupStep::ResolveBranch) && (answers(
                CleanupStep::ResolveBranch,
            ) is Failed || (answers(CleanupStep::ResolveBranch) is Yes && answers(
                CleanupStep::DeleteBranch,
            ) is Yes))
            &&& end is Done <==> step(CleanupStep::PathGone) && answers(CleanupStep::PathGone) is Yes
            &&& end is PathRemains <==> step(CleanupStep::PathGone) && !(answers(
                CleanupStep::PathGone,
            ) is Yes)
            &&& end is BranchChanged <==> step(CleanupStep::ResolveBranch) && answers(
                CleanupStep::ResolveBranch,
            ) is No
            &&& end is Done || end is PathRemains || end is BranchChanged || end is CommandError
        }),
{
    reveal_with_fuel(cleanup_end, 8);
    step_is_taken(answers, CleanupStep::Identity);
    step_is_taken(answers, CleanupStep::OwnLock);
    step_is_taken(answers, CleanupStep::Unlock);
    step_is_taken(answers, CleanupStep::Remove);
    step_is_taken(answers, CleanupStep::ResolveBranch);
    step_is_taken(answers, CleanupStep::DeleteBranch);
    step_is_taken(answers, CleanupStep::PathGone);
}

/// Whether a clean-up whose steps are answered so takes a step.
spec fn takes(answers: spec_fn(CleanupStep) -> Answer, step: CleanupStep) -> bool {
    let yes = |step: CleanupStep| answers(step) is Yes;
    let removes = yes(CleanupStep::Identity) && (yes(CleanupStep::OwnLock) ==> yes(
        CleanupStep::Unlock,
    ));
    let resolves = yes(CleanupStep::Identity) ==> removes && yes(CleanupStep::Remove);
    match step {
        CleanupStep::Identity => true,
        CleanupStep::OwnLock => yes(CleanupStep::Identity),
        CleanupStep::Unlock => yes(CleanupStep::Identity) && yes(CleanupStep::OwnLock),
        CleanupStep::Remove => removes,
        CleanupStep::ResolveBranch => resolves,
        CleanupStep::DeleteBranch => resolves && yes(CleanupStep::ResolveBranch),
        CleanupStep::PathGone => resolves && (answers(CleanupStep::ResolveBranch) is Failed || (yes(
            CleanupStep::ResolveBranch,
        ) && yes(CleanupStep::DeleteBranch))),
    }
}

proof fn step_is_taken(answers: spec_fn(CleanupStep) -> Answer, step: CleanupStep)
    ensures
        cleanup_steps(answers, CleanupStep::Identity).contains(step) == takes(answers, step),
{
    steps_from(answers, CleanupStep::Identity, step);
    steps_from(answers, CleanupStep::OwnLock, step);
    steps_from(answers, CleanupStep::Unlock, step);
    steps_from(answers, CleanupStep::Remove, step);
    steps_from(answers, CleanupStep::ResolveBranch, step);
    steps_from(answers, CleanupStep::DeleteBranch, step);
    steps_from(answers, CleanupStep::PathGone, step);
}

/// A step is among those of a clean-up where it is the first or among those after it.
proof fn steps_from(answers: spec_fn(CleanupStep) -> Answer, from: CleanupStep, step: CleanupStep)
    ensures
        cleanup_steps(answers, from).contains(step) <==> step == from || (cleanup_next(
            from,
            answers(from),
        ) matches AfterCleanup::Step(next) && cleanup_steps(answers, next).contains(step)),
{
    let steps = cleanup_steps(answers, from);
    assert(steps[0] == from);
    if let AfterCleanup::Step(next) = cleanup_next(from, answers(from)) {
        cleanup_moves_on(from, answers(from));
        let rest = cleanup_steps(answers, next);
        assert(steps == seq![from] + rest);
        if rest.contains(step) {
            let k = choose|k: int| 0 <= k < rest.len() && rest[k] == step;
            assert(steps[k + 1] == step);
        }
        if steps.contains(step) && step != from {
            let k = choose|k: int| 0 <= k < steps.len() && steps[k] == step;
            assert(rest[k - 1] == step);
        }
    }
}

/// A clean-up has an error of its own exactly where it found something that it must not destroy, and
/// says so.
pub proof fn kept_evidence_is_told(
    end: AfterCleanup,
    cwd: Seq<Seq<char>>,
    res: Option<RpcError>,
)
    requires
        is_cleanup_error(end, cwd, res),
    ensures
        res is Some <==> end is BranchChanged || end is PathRemains,
        res matches Some(error) ==> error.code == INTERNAL_ERROR,
        end is PathRemains ==> res->Some_0.message@ == "checkout at "@ + path_text(cwd)
            + " could not be safely removed; evidence retained"@,
        end is BranchChanged ==> res->Some_0.message@
            == "workflow branch changed during cleanup; evidence retained"@,
{
}

/// What went wrong first is what the failure tells first, under its own code; a clean-up that failed
/// too is told after it, with its message at the end.
pub proof fn first_failure_is_told_first(
    error: RpcError,
    step: CreateStep,
    cwd: Seq<Seq<char>>,
    cleanup: Option<RpcError>,
    res: RpcError,
)
    requires
        is_creation_error(error, step, cwd, cleanup, res),
    ensures
        res.code == error.code,
        res.data == error.data,
        res.message@.len() >= error.message@.len(),
        res.message@.take(error.message@.len() as int) == error.message@,
        cleanup is None ==> res.message@ == error.message@,
        cleanup matches Some(failure) ==> {
            let told = res.message@;
            &&& told.len() > error.message@.len() + failure.message@.len()
            &&& told.skip(told.len() - failure.message@.len()) == failure.message@
            &&& !(step is Identity) ==> told == error.message@ + "; cleanup unresolved at "@
                + path_text(cwd) + ": "@ + failure.message@
        },
{
    reveal_strlit("; cleanup unresolved: ");
    reveal_strlit("; cleanup unresolved at ");
    let told = res.message@;
    assert(told.take(error.message@.len() as int) =~= error.message@);
    if let Some(failure) = cleanup {
        assert(told.skip(told.len() - failure.message@.len()) =~= failure.message@);
        if !(step is Identity) {
            assert(told =~= error.message@ + "; cleanup unresolved at "@ + path_text(cwd) + ": "@
                + failure.message@);
        }
    }
}

/// A removed checkout is restored exactly where it was granted: under its own grant, inside the
/// repository that it was made for, through no symlink, and where nothing else stands.
pub proof fn restore_needs_the_granted_place(
    id: Seq<char>,
    workspace: WorkflowWorkspaceOwnership,
    repository: Result<AbsolutePath, String>,
    symlinks: Seq<bool>,
    path_exists: bool,
)
    ensures
        restore_refusal(id, workspace, repository, symlinks, path_exists) is None <==> {
            &&& workspace.checkout_grant is Some
            &&& {
                let grant = workspace.checkout_grant->Some_0;
                &&& grant.workspace_id@ == id
                &&& grant.parent_thread_id == workspace.parent_thread_id
                &&& grant.run_id@ == workspace.run_id@
                &&& grant.worker_id@ == workspace.worker_id@
                &&& grant.path@ == workspace.cwd@
            }
            &&& repository is Ok
            &&& repository->Ok_0@.len() <= workspace.cwd@.len()
            &&& workspace.cwd@.take(repository->Ok_0@.len() as int) == repository->Ok_0@
            &&& forall|i: int| 0 <= i < symlinks.len() ==> !#[trigger] symlinks[i]
            &&& !path_exists
        },
{
}

} // verus!
