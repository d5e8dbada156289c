//! The line that tells of running workflows, and the size guideline.
use crate::json::{as_items, get, member_text, number_of, tree, Json};
use crate::text::{
    decimal, decimal_is_injective, has_visible, is_text, is_visible, number, only_printable,
    option_text, plus, plus3, prefix_chars, printable, same, take_chars,
};
use vstd::prelude::*;
use vstd::string::*;

verus! {

/// Whether a run counts as running.
pub open spec fn is_live(run: Json) -> bool {
    run.member_text("status"@) == Some("running"@) || run.member_text("status"@) == Some("paused"@)
}

fn run_is_live(run: &serde_json::Value) -> (res: bool)
    ensures
        res == is_live(tree(*run)),
{
    let status = member_text(run, "status");
    is_text(&status, "running") || is_text(&status, "paused")
}

/// The agents of a run.
pub open spec fn agents(run: Json) -> Seq<Json> {
    match run.member("workers"@) {
        Some(value) => match value.items() {
            Some(items) => items,
            None => Seq::empty(),
        },
        None => Seq::empty(),
    }
}

/// What the values hold.
pub open spec fn trees(values: Seq<serde_json::Value>) -> Seq<Json> {
    values.map_values(|value: serde_json::Value| tree(value))
}

/// How many agents have a text in a member.
pub open spec fn count_where(
    agents: Seq<Json>,
    key: Seq<char>,
    value: Option<Seq<char>>,
) -> nat
    decreases agents.len(),
{
    if agents.len() == 0 {
        0
    } else {
        let found = agents.last().member_text(key);
        count_where(agents.drop_last(), key, value) + if found is Some && (value is None || found
            == value) {
            1nat
        } else {
            0nat
        }
    }
}

fn count_agents(items: &Vec<serde_json::Value>, key: &str, value: Option<&str>) -> (res: usize)
    ensures
        res == count_where(
            trees(items@),
            key@,
            match value {
                Some(value) => Some(value@),
                None => None,
            },
        ),
        res <= items@.len(),
{
    let ghost wanted = match value {
        Some(value) => Some(value@),
        None => None,
    };
    let ghost all = trees(items@);
    let mut count: usize = 0;
    let mut i: usize = 0;
    while i < items.len()
        invariant
            all == trees(items@),
            wanted == (match value {
                Some(value) => Some(value@),
                None => None,
            }),
            i <= items@.len(),
            count <= i,
            count == count_where(all.take(i as int), key@, wanted),
        decreases items@.len() - i,
    {
        assert(all.take(i + 1).drop_last() =~= all.take(i as int));
        assert(all.take(i + 1).last() == tree(items@[i as int]));
        let found = match member_text(&items[i], key) {
            Some(text) => match value {
                Some(value) => same(text.as_str(), value),
                None => true,
            },
            None => false,
        };
        if found {
            count = count + 1;
        }
        i = i + 1;
    }
    assert(all.take(items@.len() as int) =~= all);
    count
}

/// The sum of two numbers, or the largest number.
pub open spec fn capped_sum(a: nat, b: nat) -> nat {
    if a + b > u64::MAX {
        u64::MAX as nat
    } else {
        a + b
    }
}

/// Where an agent tells the number of tokens that it used: its total, or the total inside the total.
pub open spec fn token_member(agent: Json) -> Option<Json> {
    match agent.member("usage"@) {
        Some(usage) => if usage.member("totalTokens"@) is Some {
            usage.member("totalTokens"@)
        } else {
            match usage.member("total"@) {
                Some(total) => total.member("totalTokens"@),
                None => None,
            }
        },
        None => None,
    }
}

/// The number that a value is, or zero.
pub open spec fn count_of(value: Json) -> nat {
    match value.number() {
        Some(n) => n as nat,
        None => 0,
    }
}

/// The number of tokens that an agent used, as far as it tells.
pub open spec fn token_count(agent: Json) -> nat {
    match token_member(agent) {
        Some(value) => count_of(value),
        None => 0,
    }
}

fn number_or_zero(value: &serde_json::Value) -> (res: u64)
    ensures
        res == count_of(tree(*value)),
{
    match number_of(value) {
        Some(tokens) => tokens,
        None => 0,
    }
}

fn agent_tokens(agent: &serde_json::Value) -> (res: u64)
    ensures
        res == token_count(tree(*agent)),
{
    let usage = match get(agent, "usage") {
        Some(usage) => usage,
        None => {
            return 0;
        },
    };
    match get(usage, "totalTokens") {
        Some(value) => number_or_zero(value),
        None => match get(usage, "total") {
            Some(total) => match get(total, "totalTokens") {
                Some(value) => number_or_zero(value),
                None => 0,
            },
            None => 0,
        },
    }
}

/// The capped sum of the agents' tokens.
pub open spec fn token_sum(agents: Seq<Json>) -> nat
    decreases agents.len(),
{
    if agents.len() == 0 {
        0
    } else {
        capped_sum(token_sum(agents.drop_last()), token_count(agents.last()))
    }
}

/// How far a run is.
#[derive(Clone, Copy, Debug, PartialEq, Eq, Structural)]
pub struct RunProgress {
    pub agents: usize,
    pub started: usize,
    pub tokens: u64,
}

/// Whether a run is this far.
pub open spec fn is_progress(run: Json, progress: RunProgress) -> bool {
    &&& progress.agents == agents(run).len()
    &&& progress.started == count_where(agents(run), "startedAt"@, None)
    &&& progress.tokens == token_sum(agents(run))
}

/// The progress of a run, by which it may be found too large.
pub fn run_progress(run: &serde_json::Value) -> (res: RunProgress)
    ensures
        is_progress(tree(*run), res),
{
    let items = match get(run, "workers") {
        Some(value) => match as_items(value) {
            Some(items) => items,
            None => {
                return RunProgress { agents: 0, started: 0, tokens: 0 };
            },
        },
        None => {
            return RunProgress { agents: 0, started: 0, tokens: 0 };
        },
    };
    let ghost all = agents(tree(*run));
    assert(all == trees(items@));
    let started: usize = count_agents(items, "startedAt", None);
    let mut total: u64 = 0;
    let mut i: usize = 0;
    assert(all.take(0) =~= Seq::<Json>::empty());
    while i < items.len()
        invariant
            all == trees(items@),
            i <= items@.len(),
            total == token_sum(all.take(i as int)),
        decreases items@.len() - i,
    {
        let tokens: u64 = agent_tokens(&items[i]);
        assert(all.take(i + 1).drop_last() =~= all.take(i as int));
        assert(all.take(i + 1).last() == tree(items@[i as int]));
        total = if total > u64::MAX - tokens {
            u64::MAX
        } else {
            total + tokens
        };
        i = i + 1;
    }
    assert(all.take(items@.len() as int) =~= all);
    RunProgress { agents: items.len(), started, tokens: total }
}

/// The name of a run, where there is anything to see in it.
pub open spec fn shown_name(run: Json) -> Option<Seq<char>> {
    match run.member_text("name"@) {
        Some(name) => if is_visible(name) {
            Some(prefix_chars(printable(name), 60))
        } else {
            None
        },
        None => None,
    }
}

/// The state of a run, empty where it has none.
pub open spec fn status_of(run: Json) -> Seq<char> {
    match run.member_text("status"@) {
        Some(status) => status,
        None => Seq::empty(),
    }
}

/// What is told of one run.
pub open spec fn run_line(run: Json) -> Option<Seq<char>> {
    match shown_name(run) {
        Some(name) => Some(
            " "@ + name + " · "@ + decimal(count_where(agents(run), "status"@, Some("completed"@)))
                + "/"@ + decimal(agents(run).len()) + " agents · "@ + status_of(run),
        ),
        None => None,
    }
}

/// What is counted over the runs.
pub struct Tally {
    pub runs: nat,
    pub agents: nat,
    pub large: bool,
    /// What is told of the first running run that has a name.
    pub current: Option<Seq<char>>,
}

/// The tally of runs. `large` tells which of them are found too large.
pub open spec fn tally(runs: Seq<Json>, large: Seq<bool>) -> Tally
    decreases runs.len(),
{
    if runs.len() == 0 {
        Tally { runs: 0, agents: 0, large: false, current: None }
    } else {
        let before = tally(runs.drop_last(), large);
        let run = runs.last();
        let i = runs.len() - 1;
        if is_live(run) {
            Tally {
                runs: before.runs + 1,
                agents: capped_sum(before.agents, agents(run).len()),
                large: before.large || (i < large.len() && large[i]),
                current: if before.current is Some {
                    before.current
                } else {
                    run_line(run)
                },
            }
        } else {
            before
        }
    }
}

pub open spec fn plural(n: nat) -> Seq<char> {
    if n == 1 {
        Seq::empty()
    } else {
        "s"@
    }
}

/// The line without its last part.
pub open spec fn summary_text(tally: Tally) -> Seq<char> {
    match tally.current {
        Some(current) => if tally.runs > 1 {
            current + " · +"@ + decimal((tally.runs - 1) as nat) + " workflows"@
        } else {
            current
        },
        None => "  "@ + decimal(tally.runs) + " workflow"@ + plural(tally.runs) + " · "@ + decimal(
            tally.agents,
        ) + " agent"@ + plural(tally.agents),
    }
}

/// The line about running workflows. Its last part is a warning where a run is too large.
#[derive(Debug)]
pub struct StatusLine {
    pub summary: String,
    pub large: bool,
    pub tail: String,
}

/// The runs of a snapshot, where there is a list of them.
pub open spec fn snapshot_runs(snapshot: Json) -> Option<Seq<Json>> {
    match snapshot.member("runs"@) {
        Some(value) => value.items(),
        None => None,
    }
}

fn describe_run(run: &serde_json::Value) -> (res: Option<String>)
    ensures
        option_text(res) == run_line(tree(*run)),
{
    let name = match member_text(run, "name") {
        Some(name) => name,
        None => {
            return None;
        },
    };
    if !has_visible(name.as_str()) {
        return None;
    }
    let name = take_chars(only_printable(name.as_str()).as_str(), 60);
    let mut completed: usize = 0;
    let mut total: usize = 0;
    match get(run, "workers") {
        Some(value) => match as_items(value) {
            Some(items) => {
                assert(agents(tree(*run)) == trees(items@));
                completed = count_agents(items, "status", Some("completed"));
                total = items.len();
            },
            None => {},
        },
        None => {},
    }
    let status = match member_text(run, "status") {
        Some(status) => status,
        None => String::new(),
    };
    assert(status@ =~= status_of(tree(*run)));
    let mut line = plus3(" ", name.as_str(), " · ");
    line.append(number(completed as u64).as_str());
    line.append("/");
    line.append(number(total as u64).as_str());
    line.append(" agents · ");
    line.append(status.as_str());
    Some(line)
}

/// Whether this tells of the running workflows; nothing is told where none runs.
pub open spec fn is_status_line(snapshot: Json, large: Seq<bool>, line: Option<StatusLine>) -> bool {
    match snapshot_runs(snapshot) {
        None => line is None,
        Some(runs) => {
            let counted = tally(runs, large);
            &&& line is Some <==> counted.runs > 0
            &&& line matches Some(line) ==> {
                &&& line.summary@ == summary_text(counted)
                &&& line.large == counted.large
                &&& line.tail@ == if counted.large {
                    " · ⚠ Large workflow · /workflows to stop"@
                } else {
                    " · /workflows"@
                }
            }
        },
    }
}

/// Tells of the running workflows; nothing where none runs. `large` tells which runs of the snapshot
/// are found too large.
pub fn workflow_status_line(snapshot: &serde_json::Value, large: &Vec<bool>) -> (res: Option<
    StatusLine,
>)
    ensures
        is_status_line(tree(*snapshot), large@, res),
{
    let runs = match get(snapshot, "runs") {
        Some(value) => match as_items(value) {
            Some(items) => items,
            None => {
                return None;
            },
        },
        None => {
            return None;
        },
    };
    let ghost all = trees(runs@);
    let mut live: usize = 0;
    let mut total: u64 = 0;
    let mut warning = false;
    let mut current: Option<String> = None;
    let mut i: usize = 0;
    assert(all.take(0) =~= Seq::<Json>::empty());
    while i < runs.len()
        invariant
            all == trees(runs@),
            i <= runs@.len(),
            live <= i,
            live == tally(all.take(i as int), large@).runs,
            total == tally(all.take(i as int), large@).agents,
            warning == tally(all.take(i as int), large@).large,
            option_text(current) == tally(all.take(i as int), large@).current,
        decreases runs@.len() - i,
    {
        assert(all.take(i + 1).drop_last() =~= all.take(i as int));
        assert(all.take(i + 1).last() == tree(runs@[i as int]));
        let run = &runs[i];
        if run_is_live(run) {
            let progress = run_progress(run);
            live = live + 1;
            let more: u64 = progress.agents as u64;
            total = if total > u64::MAX - more {
                u64::MAX
            } else {
                total + more
            };
            if i < large.len() && large[i] {
                warning = true;
            }
            if current.is_none() {
                current = describe_run(run);
            }
        }
        i = i + 1;
    }
    assert(all.take(runs@.len() as int) =~= all);
    if live == 0 {
        return None;
    }
    let summary = match current {
        Some(line) => {
            if live > 1 {
                let mut text = plus(line.as_str(), " · +");
                text.append(number((live - 1) as u64).as_str());
                text.append(" workflows");
                text
            } else {
                line
            }
        },
        None => {
            let mut text = plus3("  ", number(live as u64).as_str(), " workflow");
            if live != 1 {
                text.append("s");
            }
            text.append(" · ");
            text.append(number(total).as_str());
            text.append(" agent");
            if total != 1 {
                text.append("s");
            }
            assert(text@ =~= "  "@ + decimal(live as nat) + " workflow"@ + plural(live as nat)
                + " · "@ + decimal(total as nat) + " agent"@ + plural(total as nat));
            text
        },
    };
    let tail = if warning {
        " · ⚠ Large workflow · /workflows to stop".to_owned()
    } else {
        " · /workflows".to_owned()
    };
    Some(StatusLine { summary, large: warning, tail })
}

/// The line about running workflows that is shown: none where workflows are disabled.
pub fn shown_status_line(
    disabled: bool,
    snapshot: &serde_json::Value,
    large: &Vec<bool>,
) -> (res: Option<StatusLine>)
    ensures
        disabled ==> res is None,
        !disabled ==> is_status_line(tree(*snapshot), large@, res),
{
    if disabled {
        None
    } else {
        workflow_status_line(snapshot, large)
    }
}

/// How large newly written workflows should be.
#[derive(Clone, Copy, Debug, PartialEq, Eq, Structural)]
pub enum WorkflowSizeGuideline {
    Unrestricted,
    Small,
    Medium,
    Large,
}

/// How a guideline is called; the medium one is also what holds where none is chosen.
pub open spec fn size_label(guideline: WorkflowSizeGuideline, is_default: bool) -> Seq<char> {
    match guideline {
        WorkflowSizeGuideline::Unrestricted => "unrestricted"@,
        WorkflowSizeGuideline::Small => "small (aim for <5 agents)"@,
        WorkflowSizeGuideline::Medium => if is_default {
            "medium (default)"@
        } else {
            "medium (aim for <15 agents)"@
        },
        WorkflowSizeGuideline::Large => "large (aim for <50 agents)"@,
    }
}

pub fn workflow_size_label(guideline: WorkflowSizeGuideline, is_default: bool) -> (res: String)
    ensures
        res@ == size_label(guideline, is_default),
{
    match guideline {
        WorkflowSizeGuideline::Unrestricted => "unrestricted".to_owned(),
        WorkflowSizeGuideline::Small => "small (aim for <5 agents)".to_owned(),
        WorkflowSizeGuideline::Medium => if is_default {
            "medium (default)".to_owned()
        } else {
            "medium (aim for <15 agents)".to_owned()
        },
        WorkflowSizeGuideline::Large => "large (aim for <50 agents)".to_owned(),
    }
}

/// A guideline to choose.
#[derive(Debug)]
pub struct GuidelineChoice {
    pub guideline: WorkflowSizeGuideline,
    pub name: String,
    pub description: String,
    pub is_current: bool,
}

/// Whether this is the choice of a guideline. The medium one is current where none is configured.
pub open spec fn is_choice(
    choice: GuidelineChoice,
    guideline: WorkflowSizeGuideline,
    configured: Option<WorkflowSizeGuideline>,
) -> bool {
    &&& choice.guideline == guideline
    &&& choice.name@ == size_label(guideline, configured is None)
    &&& choice.description@ == if guideline is Unrestricted {
        "No agent-count guideline"@
    } else {
        "Advisory only"@
    }
    &&& choice.is_current == (guideline == match configured {
        Some(chosen) => chosen,
        None => WorkflowSizeGuideline::Medium,
    })
}

fn guideline_choice(
    guideline: WorkflowSizeGuideline,
    configured: Option<WorkflowSizeGuideline>,
) -> (res: GuidelineChoice)
    ensures
        is_choice(res, guideline, configured),
{
    let effective = match configured {
        Some(chosen) => chosen,
        None => WorkflowSizeGuideline::Medium,
    };
    let description = match guideline {
        WorkflowSizeGuideline::Unrestricted => "No agent-count guideline".to_owned(),
        _ => "Advisory only".to_owned(),
    };
    GuidelineChoice {
        guideline,
        name: workflow_size_label(guideline, configured.is_none()),
        description,
        is_current: guideline == effective,
    }
}

/// The guidelines to choose from.
pub fn guideline_choices(configured: Option<WorkflowSizeGuideline>) -> (res: Vec<GuidelineChoice>)
    ensures
        res@.len() == 4,
        is_choice(res@[0], WorkflowSizeGuideline::Unrestricted, configured),
        is_choice(res@[1], WorkflowSizeGuideline::Small, configured),
        is_choice(res@[2], WorkflowSizeGuideline::Medium, configured),
        is_choice(res@[3], WorkflowSizeGuideline::Large, configured),
{
    let mut choices: Vec<GuidelineChoice> = Vec::new();
    choices.push(guideline_choice(WorkflowSizeGuideline::Unrestricted, configured));
    choices.push(guideline_choice(WorkflowSizeGuideline::Small, configured));
    choices.push(guideline_choice(WorkflowSizeGuideline::Medium, configured));
    choices.push(guideline_choice(WorkflowSizeGuideline::Large, configured));
    choices
}

/// Whether an agent has a text in a member, and the wanted one where one is wanted.
pub open spec fn has_member_text(agent: Json, key: Seq<char>, value: Option<Seq<char>>) -> bool {
    &&& agent.member(key) is Some
    &&& agent.member(key)->Some_0 is Text
    &&& value is Some ==> agent.member(key)->Some_0->Text_0 == value->Some_0
}

/// The agents that are counted are those with the text, each once.
pub proof fn counting_counts_each_agent_once(
    agents: Seq<Json>,
    key: Seq<char>,
    value: Option<Seq<char>>,
)
    ensures
        count_where(agents, key, value) == agents.filter(
            |agent: Json| has_member_text(agent, key, value),
        ).len(),
        count_where(agents, key, value) <= agents.len(),
    decreases agents.len(),
{
    reveal(Seq::filter);
    if agents.len() > 0 {
        counting_counts_each_agent_once(agents.drop_last(), key, value);
    }
}

/// The agents of a run use as many tokens as they tell together, until that is too large to be told.
pub proof fn tokens_are_summed(agents: Seq<Json>, agent: Json)
    ensures
        token_sum(Seq::empty()) == 0,
        token_sum(agents) + token_count(agent) <= u64::MAX ==> token_sum(agents.push(agent))
            == token_sum(agents) + token_count(agent),
        token_sum(agents) + token_count(agent) > u64::MAX ==> token_sum(agents.push(agent))
            == u64::MAX,
{
    assert(agents.push(agent).drop_last() =~= agents);
}

/// What an agent used is its total, or the total inside its total where it has none, and nothing where
/// it tells no number.
pub proof fn agent_tells_its_tokens(agent: Json, usage: Json, tokens: u64)
    requires
        agent.member("usage"@) == Some(usage),
    ensures
        usage.member("totalTokens"@) == Some(Json::Number(decimal(tokens as nat))) ==> token_count(
            agent,
        ) == tokens,
        usage.member("totalTokens"@) is None && (usage.member("total"@) matches Some(total)
            && total.member("totalTokens"@) == Some(Json::Number(decimal(tokens as nat))))
            ==> token_count(agent) == tokens,
        usage.member("totalTokens"@) is None && usage.member("total"@) is None ==> token_count(agent)
            == 0,
{
    let value = Json::Number(decimal(tokens as nat));
    assert(value.is_number(tokens));
    let found = choose|n: u64| #[trigger] value.is_number(n);
    decimal_is_injective(found as nat, tokens as nat);
}

/// Whether a run is running or paused.
pub open spec fn runs_or_rests(run: Json) -> bool {
    run.member("status"@) == Some(Json::Text("running"@)) || run.member("status"@) == Some(
        Json::Text("paused"@),
    )
}

/// The tally counts the runs that are running or paused and no others, and warns where one of those is
/// too large.
pub proof fn tally_counts_live_runs(runs: Seq<Json>, large: Seq<bool>)
    ensures
        tally(runs, large).runs == runs.filter(|run: Json| runs_or_rests(run)).len(),
        tally(runs, large).large <==> exists|i: int|
            0 <= i < runs.len() && i < large.len() && large[i] && runs_or_rests(
                #[trigger] runs[i],
            ),
        tally(runs, large).runs > 0 <==> exists|i: int|
            0 <= i < runs.len() && runs_or_rests(#[trigger] runs[i]),
    decreases runs.len(),
{
    reveal(Seq::filter);
    if runs.len() > 0 {
        let before = runs.drop_last();
        tally_counts_live_runs(before, large);
        let n = runs.len() - 1;
        assert(runs[n] == runs.last());
        assert(is_live(runs.last()) == runs_or_rests(runs.last()));
        assert forall|i: int| 0 <= i < n implies #[trigger] before[i] == runs[i] by {}
        if tally(before, large).large {
            let i = choose|i: int|
                0 <= i < before.len() && i < large.len() && large[i] && runs_or_rests(
                    #[trigger] before[i],
                );
            assert(runs_or_rests(runs[i]));
        }
        if exists|i: int|
            0 <= i < runs.len() && i < large.len() && large[i] && runs_or_rests(
                #[trigger] runs[i],
            ) {
            let i = choose|i: int|
                0 <= i < runs.len() && i < large.len() && large[i] && runs_or_rests(
                    #[trigger] runs[i],
                );
            if i < n {
                assert(runs_or_rests(before[i]));
            }
        }
        if tally(before, large).runs > 0 {
            let i = choose|i: int| 0 <= i < before.len() && runs_or_rests(#[trigger] before[i]);
            assert(runs_or_rests(runs[i]));
        }
        if exists|i: int| 0 <= i < runs.len() && runs_or_rests(#[trigger] runs[i]) {
            let i = choose|i: int| 0 <= i < runs.len() && runs_or_rests(#[trigger] runs[i]);
            if i < n {
                assert(runs_or_rests(before[i]));
            }
        }
    }
}

/// The run that is told of by name is the first live one that has a name to show: its line names it,
/// how many of its agents are done, how many it has, and its state.
pub proof fn first_named_run_is_told(runs: Seq<Json>, large: Seq<bool>, i: int)
    requires
        0 <= i < runs.len(),
        runs_or_rests(runs[i]),
        run_line(runs[i]) is Some,
        forall|j: int|
            0 <= j < i ==> !(runs_or_rests(#[trigger] runs[j]) && run_line(runs[j]) is Some),
    ensures
        tally(runs, large).current == run_line(runs[i]),
        run_line(runs[i]) == Some(
            " "@ + shown_name(runs[i])->Some_0 + " · "@ + decimal(
                count_where(agents(runs[i]), "status"@, Some("completed"@)),
            ) + "/"@ + decimal(agents(runs[i]).len()) + " agents · "@ + runs[i].member_text(
                "status"@,
            )->Some_0,
        ),
    decreases runs.len(),
{
    assert(is_live(runs[i]) == runs_or_rests(runs[i]));
    let before = runs.drop_last();
    if i < runs.len() - 1 {
        assert forall|j: int| 0 <= j < i implies !(runs_or_rests(#[trigger] before[j]) && run_line(
            before[j],
        ) is Some) by {
            assert(before[j] == runs[j]);
        }
        first_named_run_is_told(before, large, i);
    } else {
        nobody_is_told_of(before, large, runs);
    }
}

proof fn nobody_is_told_of(before: Seq<Json>, large: Seq<bool>, runs: Seq<Json>)
    requires
        before.len() <= runs.len(),
        forall|j: int|
            0 <= j < before.len() ==> before[j] == runs[j] && !(runs_or_rests(#[trigger] runs[j])
                && run_line(runs[j]) is Some),
    ensures
        tally(before, large).current is None,
    decreases before.len(),
{
    if before.len() > 0 {
        let head = before.drop_last();
        assert forall|j: int| 0 <= j < head.len() implies head[j] == runs[j] && !(runs_or_rests(
            #[trigger] runs[j],
        ) && run_line(runs[j]) is Some) by {
            assert(head[j] == before[j]);
        }
        nobody_is_told_of(head, large, runs);
        let last = before.last();
        assert(last == runs[before.len() - 1]);
        assert(is_live(last) == runs_or_rests(last));
    }
}

/// A name is shown as it is printable, and no longer than sixty characters; one that shows nothing is
/// none.
pub proof fn shown_name_is_short(run: Json)
    ensures
        shown_name(run) matches Some(name) ==> name.len() <= 60 && run.member_text("name"@) is Some
            && is_visible(run.member_text("name"@)->Some_0) && name == printable(
            run.member_text("name"@)->Some_0,
        ).take(name.len() as int),
        shown_name(run) is None <==> run.member_text("name"@) is None || !is_visible(
            run.member_text("name"@)->Some_0,
        ),
        printable(run.member_text("name"@)->Some_0).len() <= 60 && shown_name(run) is Some
            ==> shown_name(run)->Some_0 == printable(run.member_text("name"@)->Some_0),
{
    if let Some(name) = run.member_text("name"@) {
        let all = printable(name);
        assert(all.take(all.len() as int) =~= all);
    }
}

/// There is a line exactly where a run is live, and its last part warns exactly where one is too
/// large.
pub proof fn line_is_shown_while_runs_are_live(
    snapshot: Json,
    large: Seq<bool>,
    line: Option<StatusLine>,
    runs: Seq<Json>,
)
    requires
        is_status_line(snapshot, large, line),
        snapshot.member("runs"@) == Some(Json::Array(runs)),
    ensures
        line is Some <==> exists|i: int| 0 <= i < runs.len() && runs_or_rests(#[trigger] runs[i]),
        line matches Some(shown) ==> {
            let counted = tally(runs, large);
            &&& shown.large <==> counted.large
            &&& shown.large ==> shown.tail@ == " · ⚠ Large workflow · /workflows to stop"@
            &&& !shown.large ==> shown.tail@ == " · /workflows"@
            &&& counted.current matches Some(current) ==> (counted.runs == 1 ==> shown.summary@
                == current) && (counted.runs > 1 ==> shown.summary@ == current + " · +"@ + decimal(
                (counted.runs - 1) as nat,
            ) + " workflows"@)
            &&& counted.current is None && counted.runs == 1 && counted.agents == 1
                ==> shown.summary@ == "  "@ + decimal(1) + " workflow"@ + Seq::empty() + " · "@
                + decimal(1) + " agent"@ + Seq::empty()
            &&& counted.current is None && counted.runs > 1 && counted.agents != 1
                ==> shown.summary@ == "  "@ + decimal(counted.runs) + " workflow"@ + "s"@ + " · "@
                + decimal(counted.agents) + " agent"@ + "s"@
        },
{
    tally_counts_live_runs(runs, large);
}

/// Of the guidelines to choose from, the configured one is current, and the medium one where none is
/// configured; it alone is.
pub proof fn one_guideline_is_current(
    choice: GuidelineChoice,
    guideline: WorkflowSizeGuideline,
    configured: Option<WorkflowSizeGuideline>,
)
    requires
        is_choice(choice, guideline, configured),
    ensures
        choice.guideline == guideline,
        configured is Some ==> (choice.is_current <==> guideline == configured->Some_0),
        configured is None ==> (choice.is_current <==> guideline is Medium),
        guideline is Unrestricted ==> choice.name@ == "unrestricted"@ && choice.description@
            == "No agent-count guideline"@,
        guideline is Small ==> choice.name@ == "small (aim for <5 agents)"@,
        guideline is Medium ==> choice.name@ == if configured is None {
            "medium (default)"@
        } else {
            "medium (aim for <15 agents)"@
        },
        guideline is Large ==> choice.name@ == "large (aim for <50 agents)"@,
        !(guideline is Unrestricted) ==> choice.description@ == "Advisory only"@,
{
}

/// How far a run is goes by its workers: how many there are, how many have started, and what they used.
/// A run without a list of them has none.
pub proof fn progress_goes_by_the_workers(run: Json, progress: RunProgress, workers: Seq<Json>)
    requires
        is_progress(run, progress),
    ensures
        run.member("workers"@) == Some(Json::Array(workers)) ==> progress.agents == workers.len()
            && progress.started == workers.filter(
            |agent: Json| has_member_text(agent, "startedAt"@, None),
        ).len() && progress.tokens == token_sum(workers),
        run.member("workers"@) is None ==> progress.agents == 0 && progress.started == 0
            && progress.tokens == 0,
{
    counting_counts_each_agent_once(agents(run), "startedAt"@, None);
}

/// The agents of all live runs are counted together, until that is too large to be told.
pub proof fn agents_of_live_runs_are_summed(runs: Seq<Json>, large: Seq<bool>, run: Json)
    ensures
        tally(Seq::empty(), large).agents == 0,
        !runs_or_rests(run) ==> tally(runs.push(run), large).agents == tally(runs, large).agents,
        runs_or_rests(run) && tally(runs, large).agents + agents(run).len() <= u64::MAX ==> tally(
            runs.push(run),
            large,
        ).agents == tally(runs, large).agents + agents(run).len(),
{
    assert(runs.push(run).drop_last() =~= runs);
    assert(is_live(run) == runs_or_rests(run));
}

} // verus!
