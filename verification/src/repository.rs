//! What the Git commands of the host do to a repository, in a model of it: its worktrees with their
//! branches and locks, its references, and what it replies to questions.
use crate::base::{
    base_next, base_rank, base_words, default_ref, remote_branch, remote_name, BaseNext, BaseState,
    BaseStep, WorktreeBaseRef,
};
use crate::checkout::{command_words, command_writes, CheckoutCommand};
use crate::path::path_text;
use crate::text::{has_prefix, option_text};
use crate::workspace::{
    ends_record, inside_record, is_worktree, lock_is_owned, opens_record,
    WorkflowWorkspaceOwnership, WorktreeFacts,
};
use vstd::prelude::*;
use vstd::string::*;

verus! {

/// The worktrees of a repository by their directories, and its references.
#[verifier::ext_equal]
pub struct Checkouts {
    /// The reference that each worktree has checked out.
    pub trees: Map<Seq<char>, Seq<char>>,
    /// The reason of the lock on each worktree that is locked.
    pub locks: Map<Seq<char>, Seq<char>>,
    /// The worktrees in which something was changed.
    pub changed: Set<Seq<char>>,
    /// The commit of each reference.
    pub refs: Map<Seq<char>, Seq<char>>,
}

/// What a command makes of a repository, where it succeeds.
pub open spec fn git(before: Checkouts, words: Seq<Seq<char>>) -> Option<Checkouts> {
    if words.len() == 7 && words.take(4) == seq!["git"@, "worktree"@, "add"@, "-b"@] {
        let reference = "refs/heads/"@ + words[4];
        if before.trees.dom().contains(words[5]) || before.refs.dom().contains(reference) {
            None
        } else {
            Some(
                Checkouts {
                    trees: before.trees.insert(words[5], reference),
                    refs: before.refs.insert(reference, words[6]),
                    ..before
                },
            )
        }
    } else if words.len() == 6 && words.take(4) == seq!["git"@, "worktree"@, "lock"@, "--reason"@] {
        if before.trees.dom().contains(words[5]) && !before.locks.dom().contains(words[5]) {
            Some(Checkouts { locks: before.locks.insert(words[5], words[4]), ..before })
        } else {
            None
        }
    } else if words.len() == 4 && words.take(3) == seq!["git"@, "worktree"@, "unlock"@] {
        if before.locks.dom().contains(words[3]) {
            Some(Checkouts { locks: before.locks.remove(words[3]), ..before })
        } else {
            None
        }
    } else if words.len() == 4 && words.take(3) == seq!["git"@, "worktree"@, "remove"@] {
        removed(before, words[3], false)
    } else if words.len() == 5 && words.take(4) == seq![
        "git"@,
        "worktree"@,
        "remove"@,
        "--force"@,
    ] {
        removed(before, words[4], true)
    } else if words.len() == 5 && words.take(3) == seq!["git"@, "update-ref"@, "-d"@] {
        if before.refs.dom().contains(words[3]) && before.refs[words[3]] == words[4] {
            Some(Checkouts { refs: before.refs.remove(words[3]), ..before })
        } else {
            None
        }
    } else if words.len() == 4 && words.take(3) == seq!["git"@, "rev-parse"@, "--verify"@] {
        if before.refs.dom().contains(words[3]) {
            Some(before)
        } else {
            None
        }
    } else {
        None
    }
}

/// A repository without a worktree. One that is locked stays, and so does one in which something was
/// changed, unless it is removed by force.
pub open spec fn removed(before: Checkouts, directory: Seq<char>, force: bool) -> Option<Checkouts> {
    if !before.trees.dom().contains(directory) || before.locks.dom().contains(directory) || (
    before.changed.contains(directory) && !force) {
        None
    } else {
        Some(
            Checkouts {
                trees: before.trees.remove(directory),
                changed: before.changed.remove(directory),
                ..before
            },
        )
    }
}

/// What a listing of the worktrees says of one of them, field by field.
pub open spec fn listed(checkouts: Checkouts, directory: Seq<char>) -> Seq<Seq<char>> {
    let start = seq![
        "worktree "@ + directory,
        "HEAD "@ + checkouts.refs[checkouts.trees[directory]],
        "branch "@ + checkouts.trees[directory],
    ];
    if checkouts.locks.dom().contains(directory) {
        start.push("locked "@ + checkouts.locks[directory]).push(Seq::empty())
    } else {
        start.push(Seq::empty())
    }
}

/// What one of the host's commands on a checkout makes of a repository.
pub open spec fn runs(
    before: Checkouts,
    command: CheckoutCommand,
    id: Seq<char>,
    workspace: WorkflowWorkspaceOwnership,
) -> Option<Checkouts> {
    git(before, command_words(command, id, workspace))
}

/// Whether nothing of a checkout is in a repository yet.
pub open spec fn is_unused(before: Checkouts, workspace: WorkflowWorkspaceOwnership) -> bool {
    let directory = path_text(workspace.cwd@);
    &&& !before.trees.dom().contains(directory)
    &&& !before.locks.dom().contains(directory)
    &&& !before.changed.contains(directory)
    &&& !before.refs.dom().contains("refs/heads/"@ + workspace.branch@)
}

/// The repository once a checkout was added to it.
pub open spec fn with_checkout(before: Checkouts, workspace: WorkflowWorkspaceOwnership) -> Checkouts {
    let reference = "refs/heads/"@ + workspace.branch@;
    Checkouts {
        trees: before.trees.insert(path_text(workspace.cwd@), reference),
        refs: before.refs.insert(reference, workspace.base_commit@),
        ..before
    }
}

/// The words of the commands, told apart.
proof fn commands_differ()
    ensures
        "worktree"@ != "update-ref"@,
        "worktree"@ != "rev-parse"@,
        "update-ref"@ != "rev-parse"@,
        "unlock"@ != "remove"@,
        "--force"@ != "-d"@,
{
    reveal_strlit("worktree");
    reveal_strlit("update-ref");
    reveal_strlit("rev-parse");
    reveal_strlit("unlock");
    reveal_strlit("remove");
    reveal_strlit("--force");
    reveal_strlit("-d");
    assert("worktree"@[0] != "update-ref"@[0]);
    assert("worktree"@[0] != "rev-parse"@[0]);
    assert("update-ref"@[0] != "rev-parse"@[0]);
    assert("unlock"@[0] != "remove"@[0]);
    assert("--force"@[1] != "-d"@[1]);
}

/// To make a checkout adds one worktree at its directory, on its own new branch, which starts at the
/// base commit; what Git then says of the directory is that it is the workspace's worktree. Nothing
/// else of the repository changes.
pub proof fn checkout_is_made_where_it_belongs(
    before: Checkouts,
    id: Seq<char>,
    workspace: WorkflowWorkspaceOwnership,
    facts: WorktreeFacts,
)
    requires
        is_unused(before, workspace),
        facts.canonical is Some,
        facts.top_level is Some,
        facts.canonical->Some_0@ == facts.top_level->Some_0@,
        facts.common_git_dir is Some,
        facts.common_git_dir->Some_0@ == workspace.common_git_dir@,
        facts.descends_from_base,
    ensures
        runs(before, CheckoutCommand::Add, id, workspace) == Some(
            with_checkout(before, workspace),
        ),
        is_worktree(facts, workspace.common_git_dir@, Some(workspace.branch@)) <==> option_text(
            facts.head_reference,
        ) == Some(with_checkout(before, workspace).trees[path_text(workspace.cwd@)]),
{
    let words = command_words(CheckoutCommand::Add, id, workspace);
    assert(words.take(4) =~= seq!["git"@, "worktree"@, "add"@, "-b"@]);
}

/// The lock that the host puts on a checkout is one that it recognises as its own, and as that of no
/// other workspace. Another lock, or none, it does not recognise.
pub proof fn own_lock_is_recognised(
    before: Checkouts,
    id: Seq<char>,
    workspace: WorkflowWorkspaceOwnership,
    other_id: Seq<char>,
)
    requires
        before.trees.dom().contains(path_text(workspace.cwd@)),
        !before.locks.dom().contains(path_text(workspace.cwd@)),
    ensures
        ({
            let directory = path_text(workspace.cwd@);
            let after = runs(before, CheckoutCommand::Lock, id, workspace);
            &&& after is Some
            &&& after->Some_0.trees == before.trees
            &&& after->Some_0.refs == before.refs
            &&& lock_is_owned(listed(after->Some_0, directory), seq![directory], other_id) <==> id
                == other_id
            &&& !lock_is_owned(listed(before, directory), seq![directory], other_id)
        }),
{
    let directory = path_text(workspace.cwd@);
    let words = command_words(CheckoutCommand::Lock, id, workspace);
    assert(words.take(4) =~= seq!["git"@, "worktree"@, "lock"@, "--reason"@]);
    let after = runs(before, CheckoutCommand::Lock, id, workspace)->Some_0;
    reveal_strlit("worktree ");
    reveal_strlit("HEAD ");
    reveal_strlit("branch ");
    reveal_strlit("locked ");
    let fields = listed(after, directory);
    let plain = listed(before, directory);
    assert(fields[0] == "worktree "@ + directory);
    assert(fields[0].take(9) =~= "worktree "@);
    assert(fields[0].skip(9) =~= directory);
    assert(seq![directory][0] == directory);
    assert(opens_record(fields[0], seq![directory]));
    assert forall|k: int| 0 < k < 3 implies !ends_record(#[trigger] fields[k]) by {
        assert(fields[k][0] == 'H' || fields[k][0] == 'b');
        if has_prefix(fields[k], "worktree "@) {
            assert(fields[k].take(9)[0] == "worktree "@[0]);
        }
    }
    assert(inside_record(fields, seq![directory], 3));
    let reason = words[4];
    assert(fields[3] == "locked "@ + reason);
    let expected = "locked "@ + crate::ids::lock_reason(other_id);
    assert(expected.len() >= 7 && expected[0] == 'l');
    assert forall|i: int| 0 <= i < fields.len() && i != 3 implies fields[i] != expected by {
        if i < 3 {
            assert(fields[i][0] == 'w' || fields[i][0] == 'H' || fields[i][0] == 'b');
        } else {
            assert(fields[i].len() == 0);
        }
    }
    assert forall|i: int| 0 <= i < plain.len() implies plain[i] != expected by {
        if i < 3 {
            assert(plain[i][0] == 'w' || plain[i][0] == 'H' || plain[i][0] == 'b');
        } else {
            assert(plain[i].len() == 0);
        }
    }
    if fields[3] == expected {
        assert(fields[3].skip(7) =~= reason);
        assert(expected.skip(7) =~= crate::ids::lock_reason(other_id));
        reveal_strlit("ultracode-workflow:");
        assert(reason.skip(19) =~= id);
        assert(crate::ids::lock_reason(other_id).skip(19) =~= other_id);
    }
}

/// Giving a checkout up undoes the making of it: after it was added and locked, taking the lock off,
/// removing it by force and deleting its branch leave the repository as it was, whatever was changed
/// in the checkout.
pub proof fn giving_up_undoes_the_making(
    before: Checkouts,
    id: Seq<char>,
    workspace: WorkflowWorkspaceOwnership,
    changed: bool,
)
    requires
        is_unused(before, workspace),
    ensures
        ({
            let directory = path_text(workspace.cwd@);
            let added = runs(before, CheckoutCommand::Add, id, workspace)->Some_0;
            let locked = runs(added, CheckoutCommand::Lock, id, workspace)->Some_0;
            let worked = Checkouts {
                changed: if changed {
                    locked.changed.insert(directory)
                } else {
                    locked.changed
                },
                ..locked
            };
            let unlocked = runs(worked, CheckoutCommand::Unlock, id, workspace)->Some_0;
            let gone = runs(unlocked, CheckoutCommand::ForceRemove, id, workspace)->Some_0;
            let clean = runs(gone, CheckoutCommand::DeleteBranch, id, workspace);
            &&& runs(worked, CheckoutCommand::ForceRemove, id, workspace) is None
            &&& runs(gone, CheckoutCommand::ResolveBranch, id, workspace) == Some(gone)
            &&& clean == Some(before)
            &&& runs(before, CheckoutCommand::ResolveBranch, id, workspace) is None
        }),
{
    commands_differ();
    let directory = path_text(workspace.cwd@);
    let add = command_words(CheckoutCommand::Add, id, workspace);
    let lock = command_words(CheckoutCommand::Lock, id, workspace);
    let unlock = command_words(CheckoutCommand::Unlock, id, workspace);
    let force = command_words(CheckoutCommand::ForceRemove, id, workspace);
    let delete = command_words(CheckoutCommand::DeleteBranch, id, workspace);
    let resolve = command_words(CheckoutCommand::ResolveBranch, id, workspace);
    assert(add.take(4) =~= seq!["git"@, "worktree"@, "add"@, "-b"@]);
    assert(lock.take(4) =~= seq!["git"@, "worktree"@, "lock"@, "--reason"@]);
    assert(unlock.take(3) =~= seq!["git"@, "worktree"@, "unlock"@]);
    assert(force.take(4) =~= seq!["git"@, "worktree"@, "remove"@, "--force"@]);
    assert(delete.take(3) =~= seq!["git"@, "update-ref"@, "-d"@]);
    assert(delete.take(4)[1] == "update-ref"@);
    assert(resolve.take(3) =~= seq!["git"@, "rev-parse"@, "--verify"@]);
    assert(resolve.take(3)[1] == "rev-parse"@);
    let added = git(before, add)->Some_0;
    let locked = git(added, lock)->Some_0;
    let worked = Checkouts {
        changed: if changed {
            locked.changed.insert(directory)
        } else {
            locked.changed
        },
        ..locked
    };
    let unlocked = git(worked, unlock)->Some_0;
    let gone = git(unlocked, force)->Some_0;
    let clean = git(gone, delete)->Some_0;
    assert(clean.trees =~= before.trees);
    assert(clean.locks =~= before.locks);
    assert(clean.changed =~= before.changed);
    assert(clean.refs =~= before.refs);
}

/// A checkout that is released loses no work: it is removed without force, so not while something is
/// changed in it, and its branch is deleted only while it is at the base commit.
pub proof fn released_work_is_kept(
    before: Checkouts,
    id: Seq<char>,
    workspace: WorkflowWorkspaceOwnership,
)
    ensures
        ({
            let directory = path_text(workspace.cwd@);
            let reference = "refs/heads/"@ + workspace.branch@;
            let after = runs(before, CheckoutCommand::Remove, id, workspace);
            &&& before.changed.contains(directory) ==> after is None
            &&& before.trees.dom().contains(directory) && !before.locks.dom().contains(directory)
                && !before.changed.contains(directory) ==> after == Some(
                Checkouts {
                    trees: before.trees.remove(directory),
                    changed: before.changed.remove(directory),
                    ..before
                },
            )
            &&& runs(before, CheckoutCommand::DeleteBranch, id, workspace) is Some <==> (
            before.refs.dom().contains(reference) && before.refs[reference]
                == workspace.base_commit@)
        }),
{
    commands_differ();
    let remove = command_words(CheckoutCommand::Remove, id, workspace);
    let delete = command_words(CheckoutCommand::DeleteBranch, id, workspace);
    assert(remove.take(3) =~= seq!["git"@, "worktree"@, "remove"@]);
    assert(remove.take(3)[2] == "remove"@);
    assert(delete.take(3) =~= seq!["git"@, "update-ref"@, "-d"@]);
    assert(delete.take(4)[1] == "update-ref"@);
}

/// How a repository replies: what it says to the words of a command, after the commands before it.
pub type Replies = spec_fn(Seq<Seq<Seq<char>>>, Seq<Seq<char>>) -> Option<Seq<char>>;

/// The search for a base commit in a repository: the commands it runs, and the commit it ends with.
pub open spec fn base_search(
    base: WorktreeBaseRef,
    network: bool,
    stale: bool,
    replies: Replies,
    done: Seq<Seq<Seq<char>>>,
    state: BaseState,
) -> (Seq<Seq<Seq<char>>>, Option<Seq<char>>)
    decreases base_rank(state.step),
{
    let words = base_words(state);
    match base_next(base, network, state, replies(done, words), stale) {
        BaseNext::Base(commit) => (done.push(words), commit),
        BaseNext::Step(next) => if base_rank(next.step) < base_rank(state.step) {
            base_search(base, network, stale, replies, done.push(words), next)
        } else {
            (done.push(words), None)
        },
    }
}

/// The name of the tip of a branch of `origin`, as it was when it was last fetched.
pub open spec fn tracking(branch: Seq<char>) -> Seq<char> {
    "refs/remotes/origin/"@ + branch
}

/// The command that lets Git find out the default branch of `origin`.
pub open spec fn find_default() -> Seq<Seq<char>> {
    seq!["remote"@, "set-head"@, "origin"@, "--auto"@]
}

/// The command that fetches a branch of `origin`.
pub open spec fn fetch_branch(branch: Seq<char>) -> Seq<Seq<char>> {
    seq![
        "fetch"@,
        "--quiet"@,
        "--no-tags"@,
        "origin"@,
        "+refs/heads/"@ + branch + ":"@ + tracking(branch),
    ]
}

/// A clone, as far as a base commit can be searched in it.
pub struct OriginClone {
    /// The commit of `HEAD`.
    pub head: Option<Seq<char>>,
    pub has_origin: bool,
    /// The default branch of `origin`, as far as the clone knows it.
    pub known: Option<Seq<char>>,
    /// The default branch of `origin`, as far as Git can find it out.
    pub found: Option<Seq<char>>,
    /// The tips of the branches of `origin` that were fetched before.
    pub tips: Map<Seq<char>, Seq<char>>,
    /// The tips that a fetch finds.
    pub fetched: Map<Seq<char>, Seq<char>>,
}

pub open spec fn tip(tips: Map<Seq<char>, Seq<char>>, branch: Seq<char>) -> Option<Seq<char>> {
    if tips.dom().contains(branch) {
        Some(tips[branch])
    } else {
        None
    }
}

pub open spec fn branch_name(branch: Option<Seq<char>>) -> Option<Seq<char>> {
    match branch {
        Some(branch) => Some(tracking(branch)),
        None => None,
    }
}

/// The question for the commit of `HEAD`.
pub open spec fn ask_head() -> Seq<Seq<char>> {
    seq!["rev-parse"@, "--verify"@, "HEAD^{commit}"@]
}

/// The question for the address of `origin`.
pub open spec fn ask_origin() -> Seq<Seq<char>> {
    seq!["remote"@, "get-url"@, "origin"@]
}

/// The question for the default branch of `origin`.
pub open spec fn ask_default() -> Seq<Seq<char>> {
    seq!["symbolic-ref"@, "--quiet"@, "refs/remotes/origin/HEAD"@]
}

/// The question for the tip of a branch of `origin`.
pub open spec fn ask_tip(branch: Seq<char>) -> Seq<Seq<char>> {
    seq!["rev-parse"@, "--verify"@, tracking(branch) + "^{commit}"@]
}

/// Whether a repository replies as a clone does: finding out the default branch makes it known, and
/// fetching a branch renews its tip.
pub open spec fn replies_as(clone: OriginClone, replies: Replies) -> bool {
    &&& forall|done: Seq<Seq<Seq<char>>>| #[trigger] replies(done, ask_head()) == clone.head
    &&& forall|done: Seq<Seq<Seq<char>>>|
        (#[trigger] replies(done, ask_origin())) is Some == clone.has_origin
    &&& forall|done: Seq<Seq<Seq<char>>>|
        #[trigger] replies(done, ask_default()) == branch_name(
            if done.contains(find_default()) {
                clone.found
            } else {
                clone.known
            },
        )
    &&& forall|done: Seq<Seq<Seq<char>>>, branch: Seq<char>|
        #[trigger] replies(done, ask_tip(branch)) == tip(
            if done.contains(fetch_branch(branch)) {
                clone.fetched
            } else {
                clone.tips
            },
            branch,
        )
}

/// The branch of `origin` that a search goes by: the one that is known, or else, with the network,
/// the one that can be found out.
pub open spec fn default_branch(clone: OriginClone, network: bool) -> Option<Seq<char>> {
    if clone.known is Some {
        clone.known
    } else if network {
        clone.found
    } else {
        None
    }
}

/// A name of a branch is read off its reference.
proof fn branch_is_read(branch: Seq<char>, head: Seq<char>, step: BaseStep)
    requires
        branch != "HEAD"@,
    ensures
        default_ref(Some(tracking(branch))) == Some(tracking(branch)),
        ({
            let state = BaseState { step, head, remote_ref: Some(tracking(branch)) };
            &&& remote_name(state) == tracking(branch)
            &&& remote_branch(state) == branch
        }),
        "+refs/heads/"@ + branch + ":refs/remotes/origin/"@ + branch == "+refs/heads/"@ + branch
            + ":"@ + tracking(branch),
{
    reveal_strlit("refs/remotes/origin/");
    reveal_strlit(":refs/remotes/origin/");
    reveal_strlit(":");
    reveal_strlit("refs/remotes/origin/HEAD");
    reveal_strlit("HEAD");
    let name = tracking(branch);
    assert(name.take(20) =~= "refs/remotes/origin/"@);
    assert(name.skip(20) =~= branch);
    if name == "refs/remotes/origin/HEAD"@ {
        assert("refs/remotes/origin/HEAD"@.skip(20) =~= "HEAD"@);
    }
    assert("+refs/heads/"@ + branch + ":refs/remotes/origin/"@ + branch =~= "+refs/heads/"@ + branch
        + ":"@ + tracking(branch));
}

/// A fresh base is the tip of the default branch of `origin`, fetched anew where the network may be
/// used and the last fetch is old or the branch was not known; the base is the `HEAD` where that is
/// asked for, where there is no `origin`, where its default branch stays unknown and where that has
/// no tip. Without the network nothing is fetched or found out.
pub proof fn fresh_base_is_the_tip_of_origin(
    base: WorktreeBaseRef,
    network: bool,
    stale: bool,
    clone: OriginClone,
    replies: Replies,
)
    requires
        replies_as(clone, replies),
        clone.known != Some("HEAD"@),
        clone.found != Some("HEAD"@),
    ensures
        ({
            let (ran, found) = base_search(
                base,
                network,
                stale,
                replies,
                Seq::empty(),
                BaseState { step: BaseStep::Head, head: Seq::empty(), remote_ref: None },
            );
            let branch = default_branch(clone, network);
            let fetches = network && (clone.known is None || stale);
            let tips = if fetches {
                clone.fetched
            } else {
                clone.tips
            };
            &&& found == if clone.head is Some && base is Fresh && clone.has_origin && branch is Some
                && tips.dom().contains(branch->Some_0) {
                Some(tips[branch->Some_0])
            } else {
                clone.head
            }
            &&& !network ==> forall|i: int|
                0 <= i < ran.len() ==> (#[trigger] ran[i])[0] != "fetch"@ && ran[i] != find_default()
        }),
{
    let start = BaseState { step: BaseStep::Head, head: Seq::empty(), remote_ref: None };
    let none = Seq::<Seq<Seq<char>>>::empty();
    let ask_dir = seq!["rev-parse"@, "--git-common-dir"@];
    let h1 = none.push(ask_head());
    let h2 = h1.push(ask_origin());
    let h3 = h2.push(ask_default());
    let h4 = h3.push(ask_dir);
    let h5 = h4.push(find_default());
    let h6 = h5.push(ask_default());
    assert("fetch"@ != "rev-parse"@ && "fetch"@ != "remote"@ && "fetch"@ != "symbolic-ref"@) by {
        reveal_strlit("fetch");
        reveal_strlit("rev-parse");
        reveal_strlit("remote");
        reveal_strlit("symbolic-ref");
        assert("fetch"@[0] == 'f' && "rev-parse"@[0] == 'r' && "remote"@[0] == 'r'
            && "symbolic-ref"@[0] == 's');
    }
    assert(ask_head().len() == 3 && ask_origin().len() == 3 && ask_default().len() == 3
        && ask_dir.len() == 2 && find_default().len() == 4);
    assert(replies(none, ask_head()) == clone.head);
    assert(replies(h1, ask_origin()) is Some == clone.has_origin);
    assert(!h2.contains(find_default()));
    assert(replies(h2, ask_default()) == branch_name(clone.known));
    assert(base_words(start) =~= ask_head());
    if clone.head is Some && base is Fresh {
        let head = clone.head->Some_0;
        let at = |step: BaseStep, remote_ref: Option<Seq<char>>| BaseState { step, head, remote_ref };
        let unknown = None::<Seq<char>>;
        assert(base_words(at(BaseStep::Origin, unknown)) =~= ask_origin());
        assert(base_words(at(BaseStep::DefaultRef, unknown)) =~= ask_default());
        assert(base_words(at(BaseStep::SetHead, unknown)) =~= find_default());
        assert(base_words(at(BaseStep::DefaultRefAgain, unknown)) =~= ask_default());
        assert(base_search(base, network, stale, replies, none, start) == base_search(
            base,
            network,
            stale,
            replies,
            h1,
            at(BaseStep::Origin, unknown),
        ));
        if clone.has_origin {
            assert(base_search(base, network, stale, replies, h1, at(BaseStep::Origin, unknown))
                == base_search(
                base,
                network,
                stale,
                replies,
                h2,
                at(BaseStep::DefaultRef, unknown),
            ));
            match clone.known {
                Some(branch) => {
                    let name = Some(tracking(branch));
                    branch_is_read(branch, head, BaseStep::Fetch);
                    branch_is_read(branch, head, BaseStep::Commit);
                    assert(base_words(at(BaseStep::CommonDir, name)) =~= ask_dir);
                    assert(base_words(at(BaseStep::Fetch, name)) =~= fetch_branch(branch));
                    assert(base_words(at(BaseStep::Commit, name)) =~= ask_tip(branch));
                    assert(base_search(
                        base,
                        network,
                        stale,
                        replies,
                        h2,
                        at(BaseStep::DefaultRef, unknown),
                    ) == base_search(
                        base,
                        network,
                        stale,
                        replies,
                        h3,
                        at(BaseStep::CommonDir, name),
                    ));
                    assert(fetch_branch(branch).len() == 5);
                    assert(!h4.contains(fetch_branch(branch)));
                    assert(replies(h4, ask_tip(branch)) == tip(clone.tips, branch));
                    let refetched = h4.push(fetch_branch(branch));
                    assert(refetched[4] == fetch_branch(branch));
                    assert(refetched.contains(fetch_branch(branch)));
                    assert(replies(refetched, ask_tip(branch)) == tip(clone.fetched, branch));
                    if network && stale {
                        assert(base_search(
                            base,
                            network,
                            stale,
                            replies,
                            h3,
                            at(BaseStep::CommonDir, name),
                        ) == base_search(
                            base,
                            network,
                            stale,
                            replies,
                            h4,
                            at(BaseStep::Fetch, name),
                        ));
                        assert(base_search(
                            base,
                            network,
                            stale,
                            replies,
                            h4,
                            at(BaseStep::Fetch, name),
                        ) == base_search(
                            base,
                            network,
                            stale,
                            replies,
                            refetched,
                            at(BaseStep::Commit, name),
                        ));
                    } else {
                        assert(base_search(
                            base,
                            network,
                            stale,
                            replies,
                            h3,
                            at(BaseStep::CommonDir, name),
                        ) == base_search(
                            base,
                            network,
                            stale,
                            replies,
                            h4,
                            at(BaseStep::Commit, name),
                        ));
                    }
                },
                None => {
                    assert(base_words(at(BaseStep::CommonDir, unknown)) =~= ask_dir);
                    assert(base_search(
                        base,
                        network,
                        stale,
                        replies,
                        h2,
                        at(BaseStep::DefaultRef, unknown),
                    ) == base_search(
                        base,
                        network,
                        stale,
                        replies,
                        h3,
                        at(BaseStep::CommonDir, unknown),
                    ));
                    if network {
                        assert(base_search(
                            base,
                            network,
                            stale,
                            replies,
                            h3,
                            at(BaseStep::CommonDir, unknown),
                        ) == base_search(
                            base,
                            network,
                            stale,
                            replies,
                            h4,
                            at(BaseStep::SetHead, unknown),
                        ));
                        assert(base_search(
                            base,
                            network,
                            stale,
                            replies,
                            h4,
                            at(BaseStep::SetHead, unknown),
                        ) == base_search(
                            base,
                            network,
                            stale,
                            replies,
                            h5,
                            at(BaseStep::DefaultRefAgain, unknown),
                        ));
                        assert(h5[4] == find_default());
                        assert(h5.contains(find_default()));
                        assert(replies(h5, ask_default()) == branch_name(clone.found));
                        match clone.found {
                            Some(branch) => {
                                let name = Some(tracking(branch));
                                branch_is_read(branch, head, BaseStep::Fetch);
                                branch_is_read(branch, head, BaseStep::Commit);
                                assert(base_words(at(BaseStep::Fetch, name)) =~= fetch_branch(
                                    branch,
                                ));
                                assert(base_words(at(BaseStep::Commit, name)) =~= ask_tip(branch));
                                let fetched = h6.push(fetch_branch(branch));
                                assert(fetched[6] == fetch_branch(branch));
                                assert(fetched.contains(fetch_branch(branch)));
                                assert(replies(fetched, ask_tip(branch)) == tip(
                                    clone.fetched,
                                    branch,
                                ));
                                assert(base_search(
                                    base,
                                    network,
                                    stale,
                                    replies,
                                    h5,
                                    at(BaseStep::DefaultRefAgain, unknown),
                                ) == base_search(
                                    base,
                                    network,
                                    stale,
                                    replies,
                                    h6,
                                    at(BaseStep::Fetch, name),
                                ));
                                assert(base_search(
                                    base,
                                    network,
                                    stale,
                                    replies,
                                    h6,
                                    at(BaseStep::Fetch, name),
                                ) == base_search(
                                    base,
                                    network,
                                    stale,
                                    replies,
                                    fetched,
                                    at(BaseStep::Commit, name),
                                ));
                            },
                            None => {},
                        }
                    }
                },
            }
        }
    }
}

/// A command that is not marked as writing changes nothing, whatever the repository holds.
pub proof fn reading_commands_change_nothing(
    command: CheckoutCommand,
    id: Seq<char>,
    workspace: WorkflowWorkspaceOwnership,
    before: Checkouts,
)
    requires
        !command_writes(command),
    ensures
        git(before, command_words(command, id, workspace)) matches Some(after) ==> after == before,
        command is ResolveBranch,
{
    commands_differ();
    let words = command_words(command, id, workspace);
    assert(words.take(3)[1] == "rev-parse"@);
    assert(seq!["git"@, "worktree"@, "unlock"@][1] == "worktree"@);
    assert(seq!["git"@, "worktree"@, "remove"@][1] == "worktree"@);
}

} // verus!
