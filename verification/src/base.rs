//! The commit that a new checkout starts from.
use crate::text::{
    has_prefix, option_text, plus, plus3, same, starts_with, strip_prefix, texts,
};
use vstd::prelude::*;
use vstd::string::*;

verus! {

/// What new checkouts start from.
#[derive(Clone, Copy, Debug, PartialEq, Eq, Structural)]
pub enum WorktreeBaseRef {
    /// The default branch of the remote `origin`, where there is one.
    Fresh,
    /// The parent's own `HEAD`.
    Head,
}

/// A Git command of the search for the base commit.
#[derive(Clone, Copy, Debug, PartialEq, Eq, Structural)]
pub enum BaseStep {
    /// Resolves `HEAD`.
    Head,
    /// Looks whether there is a remote `origin`.
    Origin,
    /// Asks for the default branch of `origin`.
    DefaultRef,
    /// Asks for the common Git directory, whose last fetch shows how old the remote tip is.
    CommonDir,
    /// Lets Git find out the default branch of `origin`.
    SetHead,
    /// Asks for the default branch once more.
    DefaultRefAgain,
    /// Fetches the default branch.
    Fetch,
    /// Resolves the default branch.
    Commit,
}

/// How far the search for the base commit is.
pub struct BaseState {
    pub step: BaseStep,
    pub head: Seq<char>,
    pub remote_ref: Option<Seq<char>>,
}

/// What follows a command of the search.
pub enum BaseNext {
    Step(BaseState),
    /// The search is over, with this commit or with none.
    Base(Option<Seq<char>>),
}

/// The default branch that a reply names: a branch of `origin`, not its symbolic `HEAD`.
pub open spec fn default_ref(reply: Option<Seq<char>>) -> Option<Seq<char>> {
    match reply {
        Some(name) => if has_prefix(name, "refs/remotes/origin/"@) && name
            != "refs/remotes/origin/HEAD"@ {
            Some(name)
        } else {
            None
        },
        None => None,
    }
}

pub fn origin_default_ref(reply: Option<String>) -> (res: Option<String>)
    ensures
        option_text(res) == default_ref(option_text(reply)),
{
    match reply {
        Some(name) => {
            if starts_with(name.as_str(), "refs/remotes/origin/") && !same(
                name.as_str(),
                "refs/remotes/origin/HEAD",
            ) {
                Some(name)
            } else {
                None
            }
        },
        None => None,
    }
}

/// The search once the remote tip is as fresh as it will be.
pub open spec fn refreshed(state: BaseState) -> BaseNext {
    match state.remote_ref {
        Some(_) => BaseNext::Step(BaseState { step: BaseStep::Commit, ..state }),
        None => BaseNext::Base(Some(state.head)),
    }
}

/// What follows a reply. `stale` tells whether the last fetch is too old; it counts after the common
/// Git directory was asked for.
pub open spec fn base_next(
    base: WorktreeBaseRef,
    network: bool,
    state: BaseState,
    reply: Option<Seq<char>>,
    stale: bool,
) -> BaseNext {
    match state.step {
        BaseStep::Head => match reply {
            None => BaseNext::Base(None),
            Some(head) => if base is Head {
                BaseNext::Base(Some(head))
            } else {
                BaseNext::Step(BaseState { step: BaseStep::Origin, head, remote_ref: None })
            },
        },
        BaseStep::Origin => match reply {
            None => BaseNext::Base(Some(state.head)),
            Some(_) => BaseNext::Step(BaseState { step: BaseStep::DefaultRef, ..state }),
        },
        BaseStep::DefaultRef => BaseNext::Step(
            BaseState { step: BaseStep::CommonDir, head: state.head, remote_ref: default_ref(reply) },
        ),
        BaseStep::CommonDir => if network && state.remote_ref is None {
            BaseNext::Step(BaseState { step: BaseStep::SetHead, ..state })
        } else if network && stale {
            BaseNext::Step(BaseState { step: BaseStep::Fetch, ..state })
        } else {
            refreshed(state)
        },
        BaseStep::SetHead => BaseNext::Step(
            BaseState { step: BaseStep::DefaultRefAgain, ..state },
        ),
        BaseStep::DefaultRefAgain => match default_ref(reply) {
            Some(name) => BaseNext::Step(
                BaseState { step: BaseStep::Fetch, head: state.head, remote_ref: Some(name) },
            ),
            None => BaseNext::Base(Some(state.head)),
        },
        BaseStep::Fetch => refreshed(state),
        BaseStep::Commit => match reply {
            Some(commit) => BaseNext::Base(Some(commit)),
            None => BaseNext::Base(Some(state.head)),
        },
    }
}

/// The search for the base commit of a new checkout.
#[derive(Debug)]
pub struct BaseSearch {
    pub step: BaseStep,
    pub head: String,
    pub remote_ref: Option<String>,
}

/// What to do next in the search.
#[derive(Debug)]
pub enum BaseProgress {
    Run(BaseSearch),
    Done(Option<String>),
}

impl View for BaseSearch {
    type V = BaseState;

    open spec fn view(&self) -> BaseState {
        BaseState {
            step: self.step,
            head: self.head@,
            remote_ref: option_text(self.remote_ref),
        }
    }
}

impl View for BaseProgress {
    type V = BaseNext;

    open spec fn view(&self) -> BaseNext {
        match self {
            BaseProgress::Run(search) => BaseNext::Step(search@),
            BaseProgress::Done(commit) => BaseNext::Base(option_text(*commit)),
        }
    }
}

/// Owned copies of the texts.
pub fn strings(args: &[&str]) -> (res: Vec<String>)
    ensures
        res@.len() == args@.len(),
        forall|i: int| 0 <= i < res@.len() ==> (#[trigger] res@[i])@ == args@[i]@,
{
    let mut out: Vec<String> = Vec::new();
    let mut i: usize = 0;
    while i < args.len()
        invariant
            i <= args@.len(),
            out@.len() == i,
            forall|j: int| 0 <= j < i ==> (#[trigger] out@[j])@ == args@[j]@,
        decreases args@.len() - i,
    {
        out.push(args[i].to_owned());
        i = i + 1;
    }
    out
}

/// The words after `git` of a command of the search.
pub open spec fn base_words(state: BaseState) -> Seq<Seq<char>> {
    match state.step {
        BaseStep::Head => seq!["rev-parse"@, "--verify"@, "HEAD^{commit}"@],
        BaseStep::Origin => seq!["remote"@, "get-url"@, "origin"@],
        BaseStep::DefaultRef | BaseStep::DefaultRefAgain => seq![
            "symbolic-ref"@,
            "--quiet"@,
            "refs/remotes/origin/HEAD"@,
        ],
        BaseStep::CommonDir => seq!["rev-parse"@, "--git-common-dir"@],
        BaseStep::SetHead => seq!["remote"@, "set-head"@, "origin"@, "--auto"@],
        BaseStep::Fetch => seq![
            "fetch"@,
            "--quiet"@,
            "--no-tags"@,
            "origin"@,
            fetch_refspec(remote_branch(state)),
        ],
        BaseStep::Commit => seq![
            "rev-parse"@,
            "--verify"@,
            remote_name(state) + "^{commit}"@,
        ],
    }
}

/// The reference that the search found, empty before it found one.
pub open spec fn remote_name(state: BaseState) -> Seq<char> {
    match state.remote_ref {
        Some(name) => name,
        None => Seq::empty(),
    }
}

/// The branch that the reference found stands for.
pub open spec fn remote_branch(state: BaseState) -> Seq<char> {
    if has_prefix(remote_name(state), "refs/remotes/origin/"@) {
        remote_name(state).skip("refs/remotes/origin/"@.len() as int)
    } else {
        Seq::empty()
    }
}

/// The refspec that updates the remote tip of one branch.
pub open spec fn fetch_refspec(branch: Seq<char>) -> Seq<char> {
    "+refs/heads/"@ + branch + ":refs/remotes/origin/"@ + branch
}

/// Whether a command of the search writes to the Git directory.
pub open spec fn base_writes(step: BaseStep) -> bool {
    step is Fetch || step is SetHead
}

impl BaseSearch {
    pub fn start() -> (res: BaseSearch)
        ensures
            res@ == (BaseState { step: BaseStep::Head, head: Seq::empty(), remote_ref: None }),
    {
        let res = BaseSearch { step: BaseStep::Head, head: String::new(), remote_ref: None };
        assert(res.head@ =~= Seq::<char>::empty());
        res
    }

    /// The words after `git` of the next command.
    pub fn words(&self) -> (res: Vec<String>)
        ensures
            texts(res@) == base_words(self@),
    {
        let out = match self.step {
            BaseStep::Head => strings(&["rev-parse", "--verify", "HEAD^{commit}"]),
            BaseStep::Origin => strings(&["remote", "get-url", "origin"]),
            BaseStep::DefaultRef | BaseStep::DefaultRefAgain => strings(
                &["symbolic-ref", "--quiet", "refs/remotes/origin/HEAD"],
            ),
            BaseStep::CommonDir => strings(&["rev-parse", "--git-common-dir"]),
            BaseStep::SetHead => strings(&["remote", "set-head", "origin", "--auto"]),
            BaseStep::Fetch => {
                let name = match &self.remote_ref {
                    Some(name) => name.clone(),
                    None => String::new(),
                };
                assert(name@ =~= remote_name(self@));
                let branch = match strip_prefix(name.as_str(), "refs/remotes/origin/") {
                    Some(branch) => branch,
                    None => String::new(),
                };
                assert(branch@ =~= remote_branch(self@));
                let mut refspec = plus3("+refs/heads/", branch.as_str(), ":refs/remotes/origin/");
                refspec.append(branch.as_str());
                strings(&["fetch", "--quiet", "--no-tags", "origin", refspec.as_str()])
            },
            BaseStep::Commit => {
                let name = match &self.remote_ref {
                    Some(name) => name.clone(),
                    None => String::new(),
                };
                assert(name@ =~= remote_name(self@));
                strings(&["rev-parse", "--verify", plus(name.as_str(), "^{commit}").as_str()])
            },
        };
        assert(texts(out@) =~= base_words(self@));
        out
    }

    /// Whether the next command writes to the repository's Git directory.
    pub fn writes(&self) -> (res: bool)
        ensures
            res == base_writes(self.step),
    {
        match self.step {
            BaseStep::Fetch => true,
            BaseStep::SetHead => true,
            _ => false,
        }
    }

    /// Goes on with the reply of the command; a command that failed or timed out has none.
    fn proceed(
        self,
        base: WorktreeBaseRef,
        network: bool,
        reply: Option<String>,
        stale: bool,
    ) -> (res: BaseProgress)
        ensures
            res@ == base_next(base, network, self@, option_text(reply), stale),
    {
        match self.step {
            BaseStep::Head => match reply {
                None => BaseProgress::Done(None),
                Some(head) => {
                    if base == WorktreeBaseRef::Head {
                        BaseProgress::Done(Some(head))
                    } else {
                        BaseProgress::Run(
                            BaseSearch { step: BaseStep::Origin, head, remote_ref: None },
                        )
                    }
                },
            },
            BaseStep::Origin => match reply {
                None => BaseProgress::Done(Some(self.head)),
                Some(_) => BaseProgress::Run(
                    BaseSearch {
                        step: BaseStep::DefaultRef,
                        head: self.head,
                        remote_ref: self.remote_ref,
                    },
                ),
            },
            BaseStep::DefaultRef => BaseProgress::Run(
                BaseSearch {
                    step: BaseStep::CommonDir,
                    head: self.head,
                    remote_ref: origin_default_ref(reply),
                },
            ),
            BaseStep::CommonDir => {
                if network && self.remote_ref.is_none() {
                    BaseProgress::Run(
                        BaseSearch {
                            step: BaseStep::SetHead,
                            head: self.head,
                            remote_ref: self.remote_ref,
                        },
                    )
                } else if network && stale {
                    BaseProgress::Run(
                        BaseSearch {
                            step: BaseStep::Fetch,
                            head: self.head,
                            remote_ref: self.remote_ref,
                        },
                    )
                } else {
                    self.resolve()
                }
            },
            BaseStep::SetHead => BaseProgress::Run(
                BaseSearch {
                    step: BaseStep::DefaultRefAgain,
                    head: self.head,
                    remote_ref: self.remote_ref,
                },
            ),
            BaseStep::DefaultRefAgain => match origin_default_ref(reply) {
                Some(name) => BaseProgress::Run(
                    BaseSearch { step: BaseStep::Fetch, head: self.head, remote_ref: Some(name) },
                ),
                None => BaseProgress::Done(Some(self.head)),
            },
            BaseStep::Fetch => self.resolve(),
            BaseStep::Commit => match reply {
                Some(commit) => BaseProgress::Done(Some(commit)),
                None => BaseProgress::Done(Some(self.head)),
            },
        }
    }

    /// Goes on with what came of the command: its reply, where it has one, or the error with which
    /// the executor refused to run it. A refusal ends the search with that error.
    pub fn advance<E>(
        self,
        base: WorktreeBaseRef,
        network: bool,
        answer: Result<Option<String>, E>,
        stale: bool,
    ) -> (res: Result<BaseProgress, E>)
        ensures
            match answer {
                Err(error) => res == Err::<BaseProgress, E>(error),
                Ok(reply) => res matches Ok(next) && next@ == base_next(
                    base,
                    network,
                    self@,
                    option_text(reply),
                    stale,
                ),
            },
    {
        match answer {
            Ok(reply) => Ok(self.proceed(base, network, reply, stale)),
            Err(error) => Err(error),
        }
    }

    fn resolve(self) -> (res: BaseProgress)
        ensures
            res@ == refreshed(self@),
    {
        if self.remote_ref.is_some() {
            BaseProgress::Run(
                BaseSearch {
                    step: BaseStep::Commit,
                    head: self.head,
                    remote_ref: self.remote_ref,
                },
            )
        } else {
            BaseProgress::Done(Some(self.head))
        }
    }
}

/// How Git replies during a search.
pub struct BaseReplies {
    pub head: Option<Seq<char>>,
    pub origin: Option<Seq<char>>,
    pub default_ref: Option<Seq<char>>,
    pub common_dir: Option<Seq<char>>,
    pub set_head: Option<Seq<char>>,
    pub default_ref_again: Option<Seq<char>>,
    pub fetch: Option<Seq<char>>,
    pub commit: Option<Seq<char>>,
}

pub open spec fn reply_to(replies: BaseReplies, step: BaseStep) -> Option<Seq<char>> {
    match step {
        BaseStep::Head => replies.head,
        BaseStep::Origin => replies.origin,
        BaseStep::DefaultRef => replies.default_ref,
        BaseStep::CommonDir => replies.common_dir,
        BaseStep::SetHead => replies.set_head,
        BaseStep::DefaultRefAgain => replies.default_ref_again,
        BaseStep::Fetch => replies.fetch,
        BaseStep::Commit => replies.commit,
    }
}

pub open spec fn base_rank(step: BaseStep) -> int {
    match step {
        BaseStep::Head => 7,
        BaseStep::Origin => 6,
        BaseStep::DefaultRef => 5,
        BaseStep::CommonDir => 4,
        BaseStep::SetHead => 3,
        BaseStep::DefaultRefAgain => 2,
        BaseStep::Fetch => 1,
        BaseStep::Commit => 0,
    }
}

/// The commit that the search ends with when Git replies so.
pub open spec fn base_found(
    base: WorktreeBaseRef,
    network: bool,
    stale: bool,
    replies: BaseReplies,
    state: BaseState,
) -> Option<Seq<char>>
    decreases base_rank(state.step),
{
    match base_next(base, network, state, reply_to(replies, state.step), stale) {
        BaseNext::Base(commit) => commit,
        BaseNext::Step(next) => if base_rank(next.step) < base_rank(state.step) {
            base_found(base, network, stale, replies, next)
        } else {
            None
        },
    }
}

/// The commit that a new checkout starts from: none without a `HEAD`; the `HEAD` where that is
/// asked for, where there is no `origin`, where its default branch stays unknown, or where that
/// branch does not resolve; else the tip of the default branch.
pub open spec fn base_commit(
    base: WorktreeBaseRef,
    network: bool,
    replies: BaseReplies,
) -> Option<Seq<char>> {
    let known = default_ref(replies.default_ref) is Some || (network && default_ref(
        replies.default_ref_again,
    ) is Some);
    if replies.head is None || base is Head || replies.origin is None || !known || replies.commit
        is None {
        replies.head
    } else {
        replies.commit
    }
}

/// Refreshing is advisory: however setting the default branch and fetching go, and however old the
/// last fetch is, the search ends, and with the commit that `base_commit` names.
pub proof fn base_search_finds_the_base(
    base: WorktreeBaseRef,
    network: bool,
    stale: bool,
    replies: BaseReplies,
)
    ensures
        base_found(
            base,
            network,
            stale,
            replies,
            BaseState { step: BaseStep::Head, head: Seq::empty(), remote_ref: None },
        ) == base_commit(base, network, replies),
{
    reveal_with_fuel(base_found, 9);
}

/// Every search comes to an end, because each command leads only to later ones.
pub proof fn base_search_moves_on(
    base: WorktreeBaseRef,
    network: bool,
    state: BaseState,
    reply: Option<Seq<char>>,
    stale: bool,
)
    ensures
        base_next(base, network, state, reply, stale) matches BaseNext::Step(next) ==> base_rank(
            next.step,
        ) < base_rank(state.step),
{
}

/// The commands that a search runs, when Git replies so and the executor refuses the steps
/// `refused`, and the commit it ends with; none where its last command was refused.
pub open spec fn base_run(
    base: WorktreeBaseRef,
    network: bool,
    stale: bool,
    replies: BaseReplies,
    refused: spec_fn(BaseStep) -> bool,
    state: BaseState,
) -> (Seq<BaseStep>, Option<Option<Seq<char>>>)
    decreases base_rank(state.step),
{
    if refused(state.step) {
        (seq![state.step], None)
    } else {
        match base_next(base, network, state, reply_to(replies, state.step), stale) {
            BaseNext::Base(commit) => (seq![state.step], Some(commit)),
            BaseNext::Step(next) => if base_rank(next.step) < base_rank(state.step) {
                let rest = base_run(base, network, stale, replies, refused, next);
                (seq![state.step] + rest.0, rest.1)
            } else {
                (seq![state.step], None)
            },
        }
    }
}

/// A refusal of the executor ends the search at once: no command is run after it, and the search has
/// no commit. A search without a refusal ends with the commit that it finds.
pub proof fn refusal_ends_the_search(
    base: WorktreeBaseRef,
    network: bool,
    stale: bool,
    replies: BaseReplies,
    refused: spec_fn(BaseStep) -> bool,
    state: BaseState,
)
    ensures
        ({
            let (ran, end) = base_run(base, network, stale, replies, refused, state);
            &&& ran.len() > 0
            &&& ran[0] == state.step
            &&& forall|i: int| 0 <= i < ran.len() - 1 ==> !refused(#[trigger] ran[i])
            &&& end is None <==> refused(ran.last())
            &&& end matches Some(commit) ==> commit == base_found(
                base,
                network,
                stale,
                replies,
                state,
            )
        }),
    decreases base_rank(state.step),
{
    if !refused(state.step) {
        match base_next(base, network, state, reply_to(replies, state.step), stale) {
            BaseNext::Base(commit) => {},
            BaseNext::Step(next) => {
                base_search_moves_on(
                    base,
                    network,
                    state,
                    reply_to(replies, state.step),
                    stale,
                );
                refusal_ends_the_search(base, network, stale, replies, refused, next);
                let rest = base_run(base, network, stale, replies, refused, next).0;
                let ran = base_run(base, network, stale, replies, refused, state).0;
                assert(ran == seq![state.step] + rest);
                assert(ran.last() == rest.last());
                assert forall|i: int| 0 <= i < ran.len() - 1 implies !refused(#[trigger] ran[i]) by {
                    if i > 0 {
                        assert(ran[i] == rest[i - 1]);
                    }
                }
            },
        }
    }
}

/// How long a fetch keeps the remote tip fresh, in seconds.
pub const FETCH_MAX_AGE_SECONDS: u64 = 86400;

/// How long one Git command, and one refresh as a whole, may take, in milliseconds.
pub const GIT_TIMEOUT_MILLIS: u64 = 5000;

/// Whether a fetch of this age, in seconds and further nanoseconds, is too old.
pub open spec fn is_stale(age: Option<(u64, u32)>) -> bool {
    match age {
        Some(age) => age.0 > FETCH_MAX_AGE_SECONDS || (age.0 == FETCH_MAX_AGE_SECONDS && age.1 > 0),
        None => true,
    }
}

/// Whether the last fetch is too old, going by its age in seconds and further nanoseconds; an
/// unknown age is too old.
pub fn fetch_is_stale(age: Option<(u64, u32)>) -> (res: bool)
    ensures
        res == is_stale(age),
{
    match age {
        Some(age) => age.0 > FETCH_MAX_AGE_SECONDS || (age.0 == FETCH_MAX_AGE_SECONDS && age.1 > 0),
        None => true,
    }
}

/// What is left of the time for a refresh after this time.
pub open spec fn budget_left(elapsed_millis: u64) -> u64 {
    if elapsed_millis >= GIT_TIMEOUT_MILLIS {
        0
    } else {
        (GIT_TIMEOUT_MILLIS - elapsed_millis) as u64
    }
}

/// What is left of the time for a refresh, in milliseconds.
pub fn refresh_budget(elapsed_millis: u64) -> (res: u64)
    ensures
        res == budget_left(elapsed_millis),
{
    if elapsed_millis >= GIT_TIMEOUT_MILLIS {
        0
    } else {
        GIT_TIMEOUT_MILLIS - elapsed_millis
    }
}

/// The network is used only where it is allowed, and only for a fresh base: to find out the default
/// branch where it is not known, and to fetch it where it was just found out or the last fetch is too
/// old. Those are the commands that write.
pub proof fn network_is_used_only_where_needed(
    base: WorktreeBaseRef,
    network: bool,
    stale: bool,
    replies: BaseReplies,
)
    ensures
        ({
            let start = BaseState { step: BaseStep::Head, head: Seq::empty(), remote_ref: None };
            let ran = base_run(base, network, stale, replies, |step: BaseStep| false, start).0;
            let known = default_ref(replies.default_ref) is Some;
            let found = default_ref(replies.default_ref_again) is Some;
            let asks = network && base is Fresh && replies.head is Some && replies.origin is Some;
            &&& ran.contains(BaseStep::SetHead) <==> asks && !known
            &&& ran.contains(BaseStep::Fetch) <==> asks && (if known { stale } else { found })
            &&& forall|i: int|
                0 <= i < ran.len() ==> (base_writes(#[trigger] ran[i]) <==> ran[i] is SetHead
                    || ran[i] is Fetch)
            &&& ran[0] is Head
            &&& base is Head ==> ran.len() == 1
        }),
{
    reveal_with_fuel(base_run, 9);
    let start = BaseState { step: BaseStep::Head, head: Seq::empty(), remote_ref: None };
    let refused = |step: BaseStep| false;
    let ran = base_run(base, network, stale, replies, refused, start).0;
    let known = default_ref(replies.default_ref) is Some;
    let found = default_ref(replies.default_ref_again) is Some;
    if network && base is Fresh && replies.head is Some && replies.origin is Some {
        if !known {
            assert(ran[4] == BaseStep::SetHead);
            if found {
                assert(ran[6] == BaseStep::Fetch);
            }
        } else if stale {
            assert(ran[4] == BaseStep::Fetch);
        }
    }
}

/// Only a branch of the remote is a default branch, and what names it is the name of the reference.
pub proof fn default_branch_is_one_of_origin(reply: Option<Seq<char>>)
    ensures
        default_ref(reply) is Some <==> reply is Some && has_prefix(
            reply->Some_0,
            "refs/remotes/origin/"@,
        ) && reply->Some_0 != "refs/remotes/origin/HEAD"@,
        default_ref(reply) is Some ==> default_ref(reply) == reply,
{
}

/// A fetch is fresh for a day and no longer, and one whose age is not known never is.
pub proof fn fetch_is_fresh_for_a_day(seconds: u64, nanos: u32)
    ensures
        is_stale(None),
        seconds < 24 * 60 * 60 ==> !is_stale(Some((seconds, nanos))),
        seconds > 24 * 60 * 60 ==> is_stale(Some((seconds, nanos))),
        seconds == 24 * 60 * 60 ==> (is_stale(Some((seconds, nanos))) <==> nanos > 0),
{
}

/// A refresh never takes longer than one command may: what has passed and what is left make up five
/// seconds, until nothing is left.
pub proof fn refresh_is_bounded(elapsed_millis: u64)
    ensures
        elapsed_millis <= 5000 ==> budget_left(elapsed_millis) + elapsed_millis == 5000,
        elapsed_millis > 5000 ==> budget_left(elapsed_millis) == 0,
{
}

/// What the search asks: whether there is a commit at all, where origin is, which branch of origin is
/// its default one, under the name that origin's own default has here, and where the repository keeps
/// what it fetched. It has origin's default determined once where it is not known.
pub proof fn search_asks_origin(state: BaseState)
    ensures
        state.step is DefaultRef || state.step is DefaultRefAgain ==> base_words(state) == seq![
            "symbolic-ref"@,
            "--quiet"@,
            "refs/remotes/origin/HEAD"@,
        ],
        state.step is Head ==> base_words(state) == seq![
            "rev-parse"@,
            "--verify"@,
            "HEAD^{commit}"@,
        ],
        state.step is Origin ==> base_words(state) == seq!["remote"@, "get-url"@, "origin"@],
        state.step is CommonDir ==> base_words(state) == seq!["rev-parse"@, "--git-common-dir"@],
        state.step is SetHead ==> base_words(state) == seq![
            "remote"@,
            "set-head"@,
            "origin"@,
            "--auto"@,
        ],
{
}

} // verus!
