//! Ownership of isolated checkouts.
use crate::ids::{is_id_component, lock_reason, workflow_lock_reason, ThreadId};
use crate::path::{is_under, joined_path, one_component, two_components, AbsolutePath};
use crate::text::{
    is_text, option_text, pieces, plus, plus3, same, split, starts_with, strip_prefix, texts,
    has_prefix,
};
use vstd::prelude::*;
use vstd::string::*;

verus! {

/// The permission to write one checkout. It belongs to one parent, run, worker and workspace, never
/// to the parent session.
#[derive(Debug)]
pub struct CheckoutGrant {
    pub parent_thread_id: ThreadId,
    pub run_id: String,
    pub worker_id: String,
    pub workspace_id: String,
    pub path: AbsolutePath,
}

/// An isolated checkout and whom it belongs to. The permission profile is held as its canonical
/// text.
#[derive(Debug)]
pub struct WorkflowWorkspaceOwnership {
    pub parent_thread_id: ThreadId,
    pub authority_ref: String,
    pub authority_digest: String,
    pub run_id: String,
    pub worker_id: String,
    pub cwd: AbsolutePath,
    pub base_commit: String,
    pub permission_profile: String,
    pub released: bool,
    pub common_git_dir: AbsolutePath,
    pub repository_cwd: AbsolutePath,
    pub branch: String,
    pub removed: bool,
    pub checkout_grant: Option<CheckoutGrant>,
}

impl CheckoutGrant {
    /// Whether the grant was given to this workspace under this identity.
    pub open spec fn covers(self, id: Seq<char>, workspace: WorkflowWorkspaceOwnership) -> bool {
        &&& self.parent_thread_id == workspace.parent_thread_id
        &&& self.run_id@ == workspace.run_id@
        &&& self.worker_id@ == workspace.worker_id@
        &&& self.workspace_id@ == id
        &&& self.path@ == workspace.cwd@
    }

    pub fn matches(&self, id: &str, workspace: &WorkflowWorkspaceOwnership) -> (res: bool)
        ensures
            res == self.covers(id@, *workspace),
    {
        self.parent_thread_id == workspace.parent_thread_id && same(
            self.run_id.as_str(),
            workspace.run_id.as_str(),
        ) && same(self.worker_id.as_str(), workspace.worker_id.as_str()) && same(
            self.workspace_id.as_str(),
            id,
        ) && self.path.same(&workspace.cwd)
    }

    pub fn copy(&self) -> (res: CheckoutGrant)
        ensures
            res.parent_thread_id == self.parent_thread_id,
            res.run_id@ == self.run_id@,
            res.worker_id@ == self.worker_id@,
            res.workspace_id@ == self.workspace_id@,
            res.path@ == self.path@,
    {
        CheckoutGrant {
            parent_thread_id: self.parent_thread_id,
            run_id: self.run_id.clone(),
            worker_id: self.worker_id.clone(),
            workspace_id: self.workspace_id.clone(),
            path: self.path.copy(),
        }
    }
}

/// A grant cannot be reused: two workspaces that it covers agree in identity, parent, run, worker
/// and path.
pub proof fn grant_covers_one_workspace(
    grant: CheckoutGrant,
    id: Seq<char>,
    workspace: WorkflowWorkspaceOwnership,
    other_id: Seq<char>,
    other: WorkflowWorkspaceOwnership,
)
    requires
        grant.covers(id, workspace),
        grant.covers(other_id, other),
    ensures
        id == other_id,
        workspace.parent_thread_id == other.parent_thread_id,
        workspace.run_id@ == other.run_id@,
        workspace.worker_id@ == other.worker_id@,
        workspace.cwd@ == other.cwd@,
{
}

impl WorkflowWorkspaceOwnership {
    /// Whether the workspace holds a grant that was given to it.
    pub open spec fn granted(self, id: Seq<char>) -> bool {
        match self.checkout_grant {
            Some(grant) => grant.covers(id, self),
            None => false,
        }
    }

    pub fn is_granted(&self, id: &str) -> (res: bool)
        ensures
            res == self.granted(id@),
    {
        match &self.checkout_grant {
            Some(grant) => grant.matches(id, self),
            None => false,
        }
    }

    /// Whether the workspace was made for this run and worker.
    pub open spec fn made_for(self, run_id: Seq<char>, worker_id: Seq<char>) -> bool {
        self.run_id@ == run_id && self.worker_id@ == worker_id
    }

    pub fn is_made_for(&self, run_id: &str, worker_id: &str) -> (res: bool)
        ensures
            res == self.made_for(run_id@, worker_id@),
    {
        same(self.run_id.as_str(), run_id) && same(self.worker_id.as_str(), worker_id)
    }
}

/// What Git and the file system say of a directory that should be a worktree.
#[derive(Debug)]
pub struct WorktreeFacts {
    /// The canonical path of the directory, where it has one.
    pub canonical: Option<AbsolutePath>,
    /// The canonical path of the worktree's top level, where Git reports one.
    pub top_level: Option<AbsolutePath>,
    /// The canonical common Git directory, where Git reports one.
    pub common_git_dir: Option<AbsolutePath>,
    /// The branch that `HEAD` points to, where it points to one.
    pub head_reference: Option<String>,
    /// Whether the base commit is an ancestor of `HEAD`.
    pub descends_from_base: bool,
}

/// The full name of a branch.
pub open spec fn branch_reference(branch: Seq<char>) -> Seq<char> {
    "refs/heads/"@ + branch
}

pub fn reference_of_branch(branch: &str) -> (res: String)
    ensures
        res@ == branch_reference(branch@),
{
    plus("refs/heads/", branch)
}

/// Whether the directory is the top level of a worktree of this repository, on this branch (or on
/// none) and grown from the base commit.
pub open spec fn is_worktree(
    facts: WorktreeFacts,
    common_git_dir: Seq<Seq<char>>,
    branch: Option<Seq<char>>,
) -> bool {
    &&& facts.canonical is Some
    &&& facts.top_level is Some
    &&& facts.canonical->Some_0@ == facts.top_level->Some_0@
    &&& facts.common_git_dir is Some
    &&& facts.common_git_dir->Some_0@ == common_git_dir
    &&& match branch {
        Some(branch) => option_text(facts.head_reference) == Some(branch_reference(branch)),
        None => facts.head_reference is None,
    }
    &&& facts.descends_from_base
}

pub fn workflow_worktree_matches(
    facts: &WorktreeFacts,
    common_git_dir: &AbsolutePath,
    branch: Option<&str>,
) -> (res: bool)
    ensures
        res == is_worktree(
            *facts,
            common_git_dir@,
            match branch {
                Some(branch) => Some(branch@),
                None => None,
            },
        ),
{
    let at_top = match (&facts.canonical, &facts.top_level) {
        (Some(canonical), Some(top_level)) => canonical.same(top_level),
        _ => false,
    };
    let in_repository = match &facts.common_git_dir {
        Some(found) => found.same(common_git_dir),
        None => false,
    };
    let on_branch = match branch {
        Some(branch) => is_text(&facts.head_reference, reference_of_branch(branch).as_str()),
        None => facts.head_reference.is_none(),
    };
    at_top && in_repository && on_branch && facts.descends_from_base
}

/// Whether a checkout stands at its base commit with nothing changed, by what Git says.
pub open spec fn is_unchanged(
    head: Option<Seq<char>>,
    status: Option<Seq<char>>,
    workspace: WorkflowWorkspaceOwnership,
) -> bool {
    head == Some(workspace.base_commit@) && status == Some(Seq::<char>::empty())
}

/// Whether a checkout still stands at its base commit with nothing changed. The answers of Git are
/// absent where Git failed.
pub fn workflow_workspace_unchanged(
    head: &Option<String>,
    status: &Option<String>,
    workspace: &WorkflowWorkspaceOwnership,
) -> (res: bool)
    ensures
        res == is_unchanged(option_text(*head), option_text(*status), *workspace),
{
    let clean = match status {
        Some(status) => status.as_str().is_empty(),
        None => false,
    };
    assert(clean == (option_text(*status) == Some(Seq::<char>::empty()))) by {
        if clean {
            assert(status->Some_0@ =~= Seq::<char>::empty());
        }
    }
    is_text(head, workspace.base_commit.as_str()) && clean
}

/// Whether a field of a worktree listing starts a record of one of the given paths.
pub open spec fn opens_record(field: Seq<char>, paths: Seq<Seq<char>>) -> bool {
    has_prefix(field, "worktree "@) && paths.contains(field.skip(9))
}

/// Whether a field of a worktree listing ends the record before it.
pub open spec fn ends_record(field: Seq<char>) -> bool {
    field.len() == 0 || has_prefix(field, "worktree "@)
}

/// Whether field `i` stands inside a record of one of the given paths that starts before it.
pub open spec fn inside_record(fields: Seq<Seq<char>>, paths: Seq<Seq<char>>, i: int) -> bool {
    exists|start: int|
        0 <= start < i && #[trigger] opens_record(fields[start], paths) && forall|k: int|
            start < k < i ==> !ends_record(#[trigger] fields[k])
}

/// Whether a NUL-separated worktree listing shows one of the paths locked for this workspace.
pub open spec fn lock_is_owned(
    fields: Seq<Seq<char>>,
    paths: Seq<Seq<char>>,
    id: Seq<char>,
) -> bool {
    exists|i: int|
        0 <= i < fields.len() && #[trigger] fields[i] == "locked "@ + lock_reason(id)
            && inside_record(fields, paths, i)
}

/// The paths that a worktree listing names, in their order.
pub open spec fn named_paths(fields: Seq<Seq<char>>) -> Seq<Seq<char>>
    decreases fields.len(),
{
    if fields.len() == 0 {
        Seq::empty()
    } else if has_prefix(fields.last(), "worktree "@) {
        named_paths(fields.drop_last()).push(fields.last().skip(9))
    } else {
        named_paths(fields.drop_last())
    }
}

/// The paths of the records in a worktree listing.
pub fn listed_worktrees(listing: &str) -> (res: Vec<String>)
    ensures
        texts(res@) == named_paths(pieces(listing@, '\0')),
{
    proof {
        reveal_strlit("worktree ");
    }
    let fields = split(listing, '\0');
    let mut out: Vec<String> = Vec::new();
    let mut i: usize = 0;
    assert(texts(out@) =~= named_paths(texts(fields@).take(0)));
    while i < fields.len()
        invariant
            i <= fields@.len(),
            "worktree "@.len() == 9,
            texts(out@) == named_paths(texts(fields@).take(i as int)),
        decreases fields@.len() - i,
    {
        let ghost before = out@;
        let ghost all = texts(fields@);
        assert(all.take(i + 1).drop_last() =~= all.take(i as int));
        assert(all.take(i + 1).last() == fields@[i as int]@);
        match strip_prefix(fields[i].as_str(), "worktree ") {
            Some(path) => {
                out.push(path);
                assert(texts(out@) =~= texts(before).push(path@));
            },
            None => {},
        }
        i = i + 1;
    }
    assert(texts(fields@).take(fields@.len() as int) =~= texts(fields@));
    out
}

fn is_one_of(text: &str, list: &Vec<String>) -> (res: bool)
    ensures
        res == texts(list@).contains(text@),
{
    let mut i: usize = 0;
    while i < list.len()
        invariant
            i <= list@.len(),
            forall|j: int| 0 <= j < i ==> (#[trigger] list@[j])@ != text@,
        decreases list@.len() - i,
    {
        if same(list[i].as_str(), text) {
            assert(texts(list@)[i as int] == text@);
            return true;
        }
        i = i + 1;
    }
    assert forall|j: int| 0 <= j < texts(list@).len() implies texts(list@)[j] != text@ by {
        assert(list@[j]@ != text@);
    }
    false
}

/// Whether the host's own lock stands on a checkout, going by Git's worktree listing and by those
/// of its paths that lead to the checkout.
pub fn workflow_owned_lock(listing: &str, checkout_paths: &Vec<String>, id: &str) -> (res: bool)
    ensures
        res == lock_is_owned(pieces(listing@, '\0'), texts(checkout_paths@), id@),
{
    let fields = split(listing, '\0');
    let expected = plus("locked ", workflow_lock_reason(id).as_str());
    let ghost all = texts(fields@);
    let ghost paths = texts(checkout_paths@);
    proof {
        reveal_strlit("worktree ");
        reveal_strlit("locked ");
        assert(expected@[0] == 'l');
        assert("worktree "@[0] == 'w');
        assert(!has_prefix(expected@, "worktree "@)) by {
            if has_prefix(expected@, "worktree "@) {
                assert(expected@.take(9)[0] == "worktree "@[0]);
            }
        }
    }
    let mut matching = false;
    let mut i: usize = 0;
    while i < fields.len()
        invariant
            all == texts(fields@),
            all == pieces(listing@, '\0'),
            paths == texts(checkout_paths@),
            expected@ == "locked "@ + lock_reason(id@),
            "worktree "@.len() == 9,
            expected@.len() > 0,
            !has_prefix(expected@, "worktree "@),
            i <= fields@.len(),
            matching == inside_record(all, paths, i as int),
            forall|j: int|
                0 <= j < i ==> !(#[trigger] all[j] == expected@ && inside_record(all, paths, j)),
        decreases fields@.len() - i,
    {
        let ghost n = i as int;
        let field = fields[i].as_str();
        assert(all[n] == field@);
        if field.is_empty() {
            matching = false;
            assert(ends_record(all[n]));
            assert(!opens_record(all[n], paths));
        } else {
            match strip_prefix(field, "worktree ") {
                Some(path) => {
                    matching = is_one_of(path.as_str(), checkout_paths);
                    assert(ends_record(all[n]));
                    assert(matching == opens_record(all[n], paths));
                },
                None => {
                    assert(!ends_record(all[n]));
                    assert(!opens_record(all[n], paths));
                    if matching && same(field, expected.as_str()) {
                        assert(all[n] == expected@ && inside_record(all, paths, n));
                        return true;
                    }
                },
            }
        }
        proof {
            if inside_record(all, paths, n + 1) {
                let start = choose|start: int|
                    0 <= start < n + 1 && #[trigger] opens_record(all[start], paths) && forall|
                        k: int,
                    |
                        start < k < n + 1 ==> !ends_record(#[trigger] all[k]);
                if start < n {
                    assert(!ends_record(all[n]));
                    assert(inside_record(all, paths, n));
                }
            }
            if matching {
                if opens_record(all[n], paths) {
                    assert(inside_record(all, paths, n + 1));
                } else {
                    let start = choose|start: int|
                        0 <= start < n && #[trigger] opens_record(all[start], paths) && forall|
                            k: int,
                        |
                            start < k < n ==> !ends_record(#[trigger] all[k]);
                    assert forall|k: int| start < k < n + 1 implies !ends_record(
                        #[trigger] all[k],
                    ) by {}
                    assert(inside_record(all, paths, n + 1));
                }
            }
        }
        i = i + 1;
    }
    false
}

/// What an agent thread is doing.
#[derive(Debug)]
pub enum AgentStatus {
    PendingInit,
    Running,
    Interrupted,
    Completed(Option<String>),
    Errored(String),
    Shutdown,
}

/// Whether a worker in this state no longer uses its checkout.
pub open spec fn is_terminal(status: AgentStatus) -> bool {
    status is Completed || status is Errored || status is Interrupted || status is Shutdown
}

pub fn workflow_release_eligible(status: &AgentStatus) -> (res: bool)
    ensures
        res == is_terminal(*status),
{
    match status {
        AgentStatus::Completed(_) => true,
        AgentStatus::Errored(_) => true,
        AgentStatus::Interrupted => true,
        AgentStatus::Shutdown => true,
        AgentStatus::PendingInit => false,
        AgentStatus::Running => false,
    }
}

/// Whether the lease on a workspace is ended.
pub open spec fn lease_is_ended(
    before: WorkflowWorkspaceOwnership,
    after: WorkflowWorkspaceOwnership,
) -> bool {
    after == (WorkflowWorkspaceOwnership { released: true, ..before })
}

/// Ends the lease on a workspace.
pub fn workflow_release_lease(workspace: &mut WorkflowWorkspaceOwnership)
    ensures
        lease_is_ended(*old(workspace), *final(workspace)),
{
    workspace.released = true;
}

/// Where the checkout of a run's worker goes, inside the parent's directory.
pub open spec fn checkout_path(
    cwd: Seq<Seq<char>>,
    run_id: Seq<char>,
    worker_id: Seq<char>,
) -> Seq<Seq<char>> {
    joined_path(joined_path(cwd, ".ultracode/worktrees"@), run_id + "-"@ + worker_id)
}

pub fn workflow_checkout_path(cwd: &AbsolutePath, run_id: &str, worker_id: &str) -> (res:
    AbsolutePath)
    ensures
        res@ == checkout_path(cwd@, run_id@, worker_id@),
{
    cwd.join(".ultracode/worktrees").join(plus3(run_id, "-", worker_id).as_str())
}

/// The branch of a checkout, told apart by the first characters of the workspace's identity.
pub open spec fn checkout_branch(
    run_id: Seq<char>,
    worker_id: Seq<char>,
    workspace_id: Seq<char>,
) -> Seq<char> {
    "ultracode/"@ + run_id + "-"@ + worker_id + "-"@ + workspace_id.take(8)
}

pub fn workflow_checkout_branch(run_id: &str, worker_id: &str, workspace_id: &str) -> (res: String)
    requires
        workspace_id@.len() >= 8,
    ensures
        res@ == checkout_branch(run_id@, worker_id@, workspace_id@),
{
    let mut out = plus3("ultracode/", run_id, "-");
    out.append(worker_id);
    out.append("-");
    out.append(workspace_id.substring_char(0, 8));
    assert(workspace_id@.subrange(0, 8) =~= workspace_id@.take(8));
    out
}

/// Whether paths are the path and the directories above it, down to and with `root`.
pub open spec fn is_chain(
    paths: Seq<AbsolutePath>,
    root: Seq<Seq<char>>,
    path: Seq<Seq<char>>,
) -> bool {
    &&& paths.len() == path.len() - root.len() + 1
    &&& forall|i: int|
        0 <= i < paths.len() ==> (#[trigger] paths[i])@ == path.take(path.len() - i)
}

/// The path and the directories above it, down to and with `root`.
pub fn path_chain(root: &AbsolutePath, path: &AbsolutePath) -> (res: Vec<AbsolutePath>)
    requires
        is_under(path@, root@),
    ensures
        is_chain(res@, root@, path@),
{
    let mut out: Vec<AbsolutePath> = Vec::new();
    let mut current = path.copy();
    assert(path@.take(path@.len() as int) =~= path@);
    while current.components.len() > root.components.len()
        invariant
            root@.len() <= current@.len() <= path@.len(),
            current.components@.len() == current@.len(),
            root.components@.len() == root@.len(),
            out@.len() == path@.len() - current@.len(),
            current@ == path@.take(current@.len() as int),
            forall|i: int|
                0 <= i < out@.len() ==> (#[trigger] out@[i])@ == path@.take(path@.len() - i),
        decreases current@.len(),
    {
        let next = match current.parent() {
            Some(next) => next,
            None => AbsolutePath { components: Vec::new() },
        };
        assert(next@ =~= path@.take(current@.len() - 1));
        out.push(current);
        current = next;
    }
    out.push(current);
    out
}

/// Whether some entry of a list is true.
pub fn any(list: &Vec<bool>) -> (res: bool)
    ensures
        res == list@.contains(true),
{
    let mut i: usize = 0;
    while i < list.len()
        invariant
            i <= list@.len(),
            forall|j: int| 0 <= j < i ==> !#[trigger] list@[j],
        decreases list@.len() - i,
    {
        if list[i] {
            assert(list@[i as int]);
            return true;
        }
        i = i + 1;
    }
    false
}

/// Whether the record of a workspace may be stored where these tell of symlinks.
pub open spec fn is_record_place(symlinks: Seq<bool>) -> bool {
    !symlinks.contains(true)
}

/// Checks that the record of a workspace may be stored. `symlinks` tells whether the directory of the
/// records and the record itself are symlinks.
pub fn check_record_place(symlinks: &Vec<bool>) -> (res: Result<(), String>)
    ensures
        res is Ok <==> is_record_place(symlinks@),
        res matches Err(message) ==> message@ == "workflow ownership metadata contains a symlink"@,
{
    if any(symlinks) {
        Err("workflow ownership metadata contains a symlink".to_owned())
    } else {
        Ok(())
    }
}

/// Why a checkout path is rejected. `cwd` is the canonical form of the repository's directory, or why
/// it has none, and `symlinks` tells which paths of the checkout's chain down to it are symlinks.
pub open spec fn checkout_path_refusal(
    cwd: Result<AbsolutePath, String>,
    checkout: Seq<Seq<char>>,
    symlinks: Seq<bool>,
) -> Option<Seq<char>> {
    match cwd {
        Err(message) => Some(message@),
        Ok(cwd) => if !is_under(checkout, cwd@) {
            Some("workflow checkout is outside its recorded repository"@)
        } else if symlinks.contains(true) {
            Some("workflow checkout path contains a symlink"@)
        } else {
            None
        },
    }
}

pub fn validate_checkout_path(
    cwd: &Result<AbsolutePath, String>,
    checkout: &AbsolutePath,
    symlinks: &Vec<bool>,
) -> (res: Result<(), String>)
    ensures
        match checkout_path_refusal(*cwd, checkout@, symlinks@) {
            Some(message) => res matches Err(error) && error@ == message,
            None => res is Ok,
        },
{
    let cwd = match cwd {
        Ok(cwd) => cwd,
        Err(message) => {
            return Err(message.clone());
        },
    };
    if !checkout.starts_with(cwd) {
        return Err("workflow checkout is outside its recorded repository".to_owned());
    }
    if any(symlinks) {
        return Err("workflow checkout path contains a symlink".to_owned());
    }
    Ok(())
}

/// A grant covers a workspace only as it was given: with the identity, parent, run, worker and path
/// of the grant. No grant covers nothing.
pub proof fn grant_is_for_this_workspace(id: Seq<char>, workspace: WorkflowWorkspaceOwnership)
    ensures
        workspace.granted(id) <==> workspace.checkout_grant is Some && {
            let grant = workspace.checkout_grant->Some_0;
            &&& grant.workspace_id@ == id
            &&& grant.parent_thread_id == workspace.parent_thread_id
            &&& grant.run_id@ == workspace.run_id@
            &&& grant.worker_id@ == workspace.worker_id@
            &&& grant.path@ == workspace.cwd@
        },
{
}

/// A directory is taken for a worktree only where everything agrees: it is the top level, of this
/// repository, on the branch or on none, and grown from the base commit. Each single fact that fails
/// is enough to tell that it is not.
pub proof fn worktree_needs_every_fact(
    facts: WorktreeFacts,
    common_git_dir: Seq<Seq<char>>,
    branch: Option<Seq<char>>,
)
    ensures
        facts.canonical is None || facts.top_level is None || facts.common_git_dir is None
            ==> !is_worktree(facts, common_git_dir, branch),
        facts.canonical is Some && facts.top_level is Some && facts.canonical->Some_0@
            != facts.top_level->Some_0@ ==> !is_worktree(facts, common_git_dir, branch),
        facts.common_git_dir is Some && facts.common_git_dir->Some_0@ != common_git_dir
            ==> !is_worktree(facts, common_git_dir, branch),
        branch is Some && option_text(facts.head_reference) != Some("refs/heads/"@ + branch->Some_0)
            ==> !is_worktree(facts, common_git_dir, branch),
        branch is None && facts.head_reference is Some ==> !is_worktree(
            facts,
            common_git_dir,
            branch,
        ),
        !facts.descends_from_base ==> !is_worktree(facts, common_git_dir, branch),
        !is_worktree(facts, common_git_dir, branch) ==> facts.canonical is None || facts.top_level
            is None || facts.common_git_dir is None || facts.canonical->Some_0@
            != facts.top_level->Some_0@ || facts.common_git_dir->Some_0@ != common_git_dir
            || option_text(facts.head_reference) != (match branch {
            Some(branch) => Some("refs/heads/"@ + branch),
            None => None,
        }) || !facts.descends_from_base,
{
}

/// Only a checkout of which Git says both that it stands at its base commit and that nothing in it
/// was changed counts as unchanged; where Git failed, it does not.
pub proof fn doubtful_checkout_is_changed(
    head: Option<Seq<char>>,
    status: Option<Seq<char>>,
    workspace: WorkflowWorkspaceOwnership,
)
    ensures
        is_unchanged(head, status, workspace) <==> head is Some && status is Some && head->Some_0
            == workspace.base_commit@ && status->Some_0.len() == 0,
{
    if status is Some && status->Some_0.len() == 0 {
        assert(status->Some_0 =~= Seq::<char>::empty());
    }
}

/// The paths of a listing are what its records begin with, and no other field names one.
pub proof fn listed_paths_open_records(fields: Seq<Seq<char>>, path: Seq<char>)
    ensures
        named_paths(fields).contains(path) <==> fields.contains("worktree "@ + path),
    decreases fields.len(),
{
    reveal_strlit("worktree ");
    let start = "worktree "@ + path;
    if fields.len() > 0 {
        let before = fields.drop_last();
        let last = fields.last();
        listed_paths_open_records(before, path);
        assert(start.take(9) =~= "worktree "@);
        assert(start.skip(9) =~= path);
        if has_prefix(last, "worktree "@) {
            assert(last =~= "worktree "@ + last.skip(9));
            let paths = named_paths(before).push(last.skip(9));
            assert(paths.last() == last.skip(9));
            if named_paths(before).contains(path) {
                let k = choose|k: int|
                    0 <= k < named_paths(before).len() && named_paths(before)[k] == path;
                assert(paths[k] == path);
            }
            if paths.contains(path) {
                let k = choose|k: int| 0 <= k < paths.len() && paths[k] == path;
                if k < named_paths(before).len() {
                    assert(named_paths(before)[k] == path);
                }
            }
        }
        if before.contains(start) {
            let k = choose|k: int| 0 <= k < before.len() && before[k] == start;
            assert(fields[k] == start);
        }
        if fields.contains(start) {
            let k = choose|k: int| 0 <= k < fields.len() && fields[k] == start;
            if k < before.len() {
                assert(before[k] == start);
            }
        }
    }
}

/// The checkout of a run's worker stands directly in the directory of the checkouts inside the
/// parent's directory, under a name of both.
pub proof fn checkout_stays_in_its_directory(
    cwd: Seq<Seq<char>>,
    run_id: Seq<char>,
    worker_id: Seq<char>,
)
    requires
        is_id_component(run_id),
        is_id_component(worker_id),
    ensures
        checkout_path(cwd, run_id, worker_id) == cwd.push(".ultracode"@).push("worktrees"@).push(
            run_id + "-"@ + worker_id,
        ),
        is_under(checkout_path(cwd, run_id, worker_id), cwd),
{
    reveal_strlit(".ultracode/worktrees");
    reveal_strlit(".ultracode");
    reveal_strlit("worktrees");
    reveal_strlit("-");
    reveal_strlit(".");
    let name = run_id + "-"@ + worker_id;
    assert forall|i: int| 0 <= i < name.len() implies name[i] != '/' by {
        if i < run_id.len() {
            assert(name[i] == run_id[i]);
        } else if i > run_id.len() {
            assert(name[i] == worker_id[i - run_id.len() - 1]);
        }
    }
    one_component(name);
    let head = ".ultracode"@;
    let tail = "worktrees"@;
    reveal_strlit("/");
    assert(".ultracode/worktrees"@ =~= head + "/"@ + tail);
    two_components(cwd, head, tail);
    let path = checkout_path(cwd, run_id, worker_id);
    assert(path =~= cwd.push(head).push(tail).push(name));
    assert(path.take(cwd.len() as int) =~= cwd);
}

/// The branches of two workspaces are told apart by the first characters of their identities, and
/// every branch of a checkout stands in the host's own namespace.
pub proof fn checkout_branches_are_told_apart(
    run_id: Seq<char>,
    worker_id: Seq<char>,
    id: Seq<char>,
    other: Seq<char>,
)
    requires
        id.len() >= 8,
        other.len() >= 8,
    ensures
        checkout_branch(run_id, worker_id, id) == checkout_branch(run_id, worker_id, other)
            <==> id.take(8) == other.take(8),
        has_prefix(checkout_branch(run_id, worker_id, id), "ultracode/"@ + run_id + "-"@),
        checkout_branch(run_id, worker_id, id) == "ultracode/"@ + run_id + "-"@ + worker_id + "-"@
            + id.take(8),
{
    let a = checkout_branch(run_id, worker_id, id);
    let b = checkout_branch(run_id, worker_id, other);
    let start = "ultracode/"@ + run_id + "-"@;
    assert(a.take(start.len() as int) =~= start);
    assert(id.take(8) =~= a.skip(a.len() - 8));
    assert(other.take(8) =~= b.skip(b.len() - 8));
}

/// The chain of a path begins with the path, ends with the root, and holds every directory between
/// them.
pub proof fn chain_reaches_the_root(
    paths: Seq<AbsolutePath>,
    root: Seq<Seq<char>>,
    path: Seq<Seq<char>>,
    between: Seq<Seq<char>>,
)
    requires
        is_under(path, root),
        is_chain(paths, root, path),
        is_under(path, between),
        is_under(between, root),
    ensures
        paths[0]@ == path,
        paths.last()@ == root,
        exists|i: int| 0 <= i < paths.len() && (#[trigger] paths[i])@ == between,
{
    assert(path.take(path.len() as int) =~= path);
    let i = path.len() - between.len();
    assert(paths[i]@ == between);
}

/// A checkout path is accepted exactly where it stands inside its repository and no directory on the
/// way is a symlink.
pub proof fn checkout_path_is_checked(
    cwd: Result<AbsolutePath, String>,
    checkout: Seq<Seq<char>>,
    symlinks: Seq<bool>,
)
    ensures
        checkout_path_refusal(cwd, checkout, symlinks) is None <==> {
            &&& cwd is Ok
            &&& cwd->Ok_0@.len() <= checkout.len()
            &&& checkout.take(cwd->Ok_0@.len() as int) == cwd->Ok_0@
            &&& forall|i: int| 0 <= i < symlinks.len() ==> !#[trigger] symlinks[i]
        },
        cwd matches Err(message) ==> checkout_path_refusal(cwd, checkout, symlinks) == Some(
            message@,
        ),
{
}

/// A worker still uses its checkout as long as it starts or runs, and no longer.
pub proof fn running_worker_uses_its_checkout(status: AgentStatus)
    ensures
        is_terminal(status) <==> !(status is PendingInit) && !(status is Running),
{
}

/// A lease that is ended is ended, and the workspace is otherwise as it was: what was made is not
/// forgotten, and it does not count as removed.
pub proof fn ended_lease_keeps_the_checkout(
    before: WorkflowWorkspaceOwnership,
    after: WorkflowWorkspaceOwnership,
)
    requires
        lease_is_ended(before, after),
    ensures
        after.released,
        after.removed == before.removed,
        after.cwd == before.cwd && after.branch == before.branch && after.base_commit
            == before.base_commit,
        after.parent_thread_id == before.parent_thread_id && after.run_id == before.run_id
            && after.worker_id == before.worker_id,
        after.checkout_grant == before.checkout_grant && after.common_git_dir
            == before.common_git_dir && after.repository_cwd == before.repository_cwd,
{
}

/// No record is stored through a symlink.
pub proof fn records_are_not_stored_through_symlinks(symlinks: Seq<bool>, i: int)
    requires
        0 <= i < symlinks.len(),
    ensures
        symlinks[i] ==> !is_record_place(symlinks),
        (forall|j: int| 0 <= j < symlinks.len() ==> !#[trigger] symlinks[j]) ==> is_record_place(
            symlinks,
        ),
{
}

/// A workspace is found for the run and the worker that it was made for, and for no others. The full
/// names of two branches are the same only where the branches are.
pub proof fn workspace_is_made_for_one_worker(
    workspace: WorkflowWorkspaceOwnership,
    run_id: Seq<char>,
    worker_id: Seq<char>,
    branch: Seq<char>,
    other: Seq<char>,
)
    ensures
        workspace.made_for(workspace.run_id@, workspace.worker_id@),
        workspace.made_for(run_id, worker_id) ==> run_id == workspace.run_id@ && worker_id
            == workspace.worker_id@,
        branch_reference(branch) == branch_reference(other) ==> branch == other,
        "refs/heads/"@.is_prefix_of(branch_reference(branch)),
        branch.is_suffix_of(branch_reference(branch)),
{
    let start = "refs/heads/"@;
    let n = start.len() as int;
    let a = branch_reference(branch);
    let b = branch_reference(other);
    assert(branch =~= a.subrange(n, a.len() as int));
    assert(other =~= b.subrange(n, b.len() as int));
    assert(start =~= a.subrange(0, n));
}

/// A lock counts for the checkout in whose record it stands alone: one that stands in the record of
/// another path is not the checkout's, whatever its reason, nor is one that stands after the end of a
/// record.
pub proof fn lock_of_another_checkout_does_not_count(
    fields: Seq<Seq<char>>,
    paths: Seq<Seq<char>>,
    id: Seq<char>,
    start: int,
    at: int,
    other: Seq<char>,
)
    requires
        0 <= start < at < fields.len(),
        fields[start] == "worktree "@ + other && !paths.contains(other) || fields[start].len() == 0,
        forall|k: int|
            start < k <= at ==> !has_prefix(#[trigger] fields[k], "worktree "@),
        forall|k: int|
            0 <= k < fields.len() && k != at ==> #[trigger] fields[k] != "locked "@ + lock_reason(id),
    ensures
        !lock_is_owned(fields, paths, id),
{
    reveal_strlit("worktree ");
    let first = "worktree "@ + other;
    assert(first.take(9) =~= "worktree "@);
    assert(first.skip(9) =~= other);
    assert(ends_record(fields[start]));
    assert(!opens_record(fields[start], paths));
    if lock_is_owned(fields, paths, id) {
        let i = choose|i: int|
            0 <= i < fields.len() && #[trigger] fields[i] == "locked "@ + lock_reason(id)
                && inside_record(fields, paths, i);
        assert(i == at);
        let from = choose|from: int|
            0 <= from < i && #[trigger] opens_record(fields[from], paths) && forall|k: int|
                from < k < i ==> !ends_record(#[trigger] fields[k]);
        if from > start {
            assert(!has_prefix(fields[from], "worktree "@));
        }
    }
}

} // verus!
