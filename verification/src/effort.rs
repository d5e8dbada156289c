//! Setting the reasoning effort of a parent, from the menu or by name.
use crate::app::App;
use crate::text::{option_text, plus, plus3, same};
use vstd::prelude::*;
use vstd::string::*;

verus! {

/// How much a model reasons.
#[derive(Clone, Copy, Debug, PartialEq, Eq, Structural)]
pub enum ReasoningEffort {
    Low,
    Medium,
    High,
    XHigh,
    Max,
}

impl ReasoningEffort {
    pub open spec fn word(self) -> Seq<char> {
        match self {
            ReasoningEffort::Low => "low"@,
            ReasoningEffort::Medium => "medium"@,
            ReasoningEffort::High => "high"@,
            ReasoningEffort::XHigh => "xhigh"@,
            ReasoningEffort::Max => "max"@,
        }
    }

    pub fn text(&self) -> (res: String)
        ensures
            res@ == self.word(),
    {
        match self {
            ReasoningEffort::Low => "low".to_owned(),
            ReasoningEffort::Medium => "medium".to_owned(),
            ReasoningEffort::High => "high".to_owned(),
            ReasoningEffort::XHigh => "xhigh".to_owned(),
            ReasoningEffort::Max => "max".to_owned(),
        }
    }
}

/// The effort that a label names. `ultracode` is the second highest one.
pub open spec fn effort_of(label: Seq<char>) -> Option<ReasoningEffort> {
    if label == "ultracode"@ || label == "xhigh"@ {
        Some(ReasoningEffort::XHigh)
    } else if label == "low"@ {
        Some(ReasoningEffort::Low)
    } else if label == "medium"@ {
        Some(ReasoningEffort::Medium)
    } else if label == "high"@ {
        Some(ReasoningEffort::High)
    } else if label == "max"@ {
        Some(ReasoningEffort::Max)
    } else {
        None
    }
}

pub fn parse_effort(label: &str) -> (res: Option<ReasoningEffort>)
    ensures
        res == effort_of(label@),
{
    if same(label, "ultracode") || same(label, "xhigh") {
        Some(ReasoningEffort::XHigh)
    } else if same(label, "low") {
        Some(ReasoningEffort::Low)
    } else if same(label, "medium") {
        Some(ReasoningEffort::Medium)
    } else if same(label, "high") {
        Some(ReasoningEffort::High)
    } else if same(label, "max") {
        Some(ReasoningEffort::Max)
    } else {
        None
    }
}

/// A model with the efforts that it has.
#[derive(Debug)]
pub struct ModelPreset {
    pub model: String,
    pub efforts: Vec<ReasoningEffort>,
}

/// Whether a model among the presets has an effort.
pub open spec fn supports(
    presets: Seq<ModelPreset>,
    model: Seq<char>,
    effort: ReasoningEffort,
) -> bool {
    exists|i: int|
        0 <= i < presets.len() && (#[trigger] presets[i]).model@ == model
            && presets[i].efforts@.contains(effort)
}

fn has_effort(efforts: &Vec<ReasoningEffort>, effort: ReasoningEffort) -> (res: bool)
    ensures
        res == efforts@.contains(effort),
{
    let mut i: usize = 0;
    while i < efforts.len()
        invariant
            i <= efforts@.len(),
            forall|j: int| 0 <= j < i ==> efforts@[j] != effort,
        decreases efforts@.len() - i,
    {
        if efforts[i] == effort {
            return true;
        }
        i = i + 1;
    }
    false
}

pub fn is_supported(presets: &Vec<ModelPreset>, model: &str, effort: ReasoningEffort) -> (res: bool)
    ensures
        res == supports(presets@, model@, effort),
{
    let mut i: usize = 0;
    while i < presets.len()
        invariant
            i <= presets@.len(),
            forall|j: int|
                0 <= j < i ==> !((#[trigger] presets@[j]).model@ == model@
                    && presets@[j].efforts@.contains(effort)),
        decreases presets@.len() - i,
    {
        if same(presets[i].model.as_str(), model) && has_effort(&presets[i].efforts, effort) {
            return true;
        }
        i = i + 1;
    }
    false
}

/// A change of the effort. It holds once the server has taken it.
#[derive(Clone, Copy, Debug, PartialEq, Eq, Structural)]
pub struct EffortChange {
    pub effort: ReasoningEffort,
    pub ultracode: bool,
}

/// Why an effort cannot be set.
pub open spec fn effort_refusal(
    app: App,
    label: Seq<char>,
    presets: Seq<ModelPreset>,
    model: Seq<char>,
) -> Option<Seq<char>> {
    if label == "ultracode"@ && app.disable_workflows {
        Some("Workflows are disabled by configuration"@)
    } else if effort_of(label) is None {
        Some("Expected effort low, medium, high, xhigh, max, or ultracode"@)
    } else if !supports(presets, model, effort_of(label)->Some_0) {
        Some(
            "Model "@ + model + " does not support "@ + effort_of(label)->Some_0.word()
                + " effort"@,
        )
    } else if app.thread_id is None {
        Some("Parent session is unavailable"@)
    } else {
        None
    }
}

/// Whether an effort that the user chose is taken, or refused so.
pub open spec fn is_effort_checked(
    app: App,
    label: Seq<char>,
    presets: Seq<ModelPreset>,
    model: Seq<char>,
    res: Result<EffortChange, String>,
) -> bool {
    match effort_refusal(app, label, presets, model) {
        Some(message) => res matches Err(text) && text@ == message,
        None => res matches Ok(change) && Some(change.effort) == effort_of(label)
            && change.ultracode == (label == "ultracode"@),
    }
}

/// Whether a change of the effort was applied, where the server took it.
pub open spec fn is_effort_applied(
    before: App,
    change: EffortChange,
    acknowledged: bool,
    res: Result<(), String>,
    after: App,
) -> bool {
    &&& res is Ok <==> acknowledged
    &&& res matches Err(message) ==> message@
        == "Native backend does not support updating parent effort"@ && after == before
    &&& res is Ok ==> after.ultracode == change.ultracode && option_text(after.effort) == Some(
        change.effort.word(),
    )
    &&& after.cwd == before.cwd
    &&& after.thread_id == before.thread_id
    &&& after.disable_workflows == before.disable_workflows
    &&& after.auto_review == before.auto_review
    &&& after.never_ask == before.never_ask
    &&& after.commands == before.commands
    &&& after.consent == before.consent
    &&& after.workflow_sessions == before.workflow_sessions
}

/// What the user is told of an effort that was set.
#[derive(Debug)]
pub enum EffortNote {
    Info { text: String, detail: Option<String> },
    Warning { text: String },
}

impl App {
    /// Checks an effort that the user chose.
    pub fn check_effort(&self, label: &str, presets: &Vec<ModelPreset>, model: &str) -> (res: Result<
        EffortChange,
        String,
    >)
        ensures
            is_effort_checked(*self, label@, presets@, model@, res),
    {
        let ultracode = same(label, "ultracode");
        if ultracode && self.disable_workflows {
            return Err("Workflows are disabled by configuration".to_owned());
        }
        let effort = match parse_effort(label) {
            Some(effort) => effort,
            None => {
                return Err(
                    "Expected effort low, medium, high, xhigh, max, or ultracode".to_owned(),
                );
            },
        };
        if !is_supported(presets, model, effort) {
            let mut message = plus3("Model ", model, " does not support ");
            message.append(effort.text().as_str());
            message.append(" effort");
            return Err(message);
        }
        if self.thread_id.is_none() {
            return Err("Parent session is unavailable".to_owned());
        }
        Ok(EffortChange { effort, ultracode })
    }

    /// Takes the server's answer to a change of the effort. Nothing changes unless it took it.
    pub fn apply_workflow_effort(&mut self, change: EffortChange, acknowledged: bool) -> (res: Result<
        (),
        String,
    >)
        ensures
            is_effort_applied(*old(self), change, acknowledged, res, *final(self)),
    {
        if !acknowledged {
            return Err("Native backend does not support updating parent effort".to_owned());
        }
        self.effort = Some(change.effort.text());
        self.ultracode = change.ultracode;
        Ok(())
    }
}

/// Whether an effort is kept for later sessions.
pub open spec fn becomes_default(change: EffortChange) -> bool {
    !change.ultracode
}

/// Whether an effort becomes the default: `ultracode` holds for the session alone.
pub fn saves_default(change: &EffortChange) -> (res: bool)
    ensures
        res == becomes_default(*change),
{
    !change.ultracode
}

/// Whether the user is told so of an effort that was set.
pub open spec fn is_effort_note(
    label: Seq<char>,
    change: EffortChange,
    saving: Option<Seq<char>>,
    note: EffortNote,
) -> bool {
    match saving {
        Some(error) => if change.ultracode {
            note matches EffortNote::Info { text, detail } && text@ == "Effort set to "@ + label
                && option_text(detail) == Some("Session only: xhigh with workflow orchestration"@)
        } else {
            note matches EffortNote::Warning { text } && text@ == "Effort set to "@ + label
                + " for this session, but the default could not be saved: "@ + error
        },
        None => note matches EffortNote::Info { text, detail } && text@ == "Effort set to "@ + label
            && option_text(detail) == if change.ultracode {
            Some("Session only: xhigh with workflow orchestration"@)
        } else {
            None
        },
    }
}

/// What the user is told. `saving` is why the default could not be saved.
pub fn effort_note(label: &str, change: &EffortChange, saving: Option<&str>) -> (res: EffortNote)
    ensures
        is_effort_note(
            label@,
            *change,
            match saving {
                Some(error) => Some(error@),
                None => None,
            },
            res,
        ),
{
    if !change.ultracode {
        match saving {
            Some(error) => {
                let mut text = plus3(
                    "Effort set to ",
                    label,
                    " for this session, but the default could not be saved: ",
                );
                text.append(error);
                return EffortNote::Warning { text };
            },
            None => {},
        }
    }
    let detail = if change.ultracode {
        Some("Session only: xhigh with workflow orchestration".to_owned())
    } else {
        None
    };
    EffortNote::Info { text: plus("Effort set to ", label), detail }
}

/// An effort that the model does not have is refused, whatever it is called.
pub proof fn only_supported_efforts_are_set(
    app: App,
    label: Seq<char>,
    presets: Seq<ModelPreset>,
    model: Seq<char>,
)
    requires
        effort_refusal(app, label, presets, model) is None,
    ensures
        effort_of(label) matches Some(effort) && supports(presets, model, effort),
        label == "ultracode"@ ==> !app.disable_workflows,
{
}

/// Each effort is named by its own word, and by no other one but that `ultracode` stands for the
/// second highest. A word that names none is not taken.
pub proof fn efforts_are_named_by_their_words(label: Seq<char>, effort: ReasoningEffort)
    ensures
        effort_of(effort.word()) == Some(effort),
        effort_of("ultracode"@) == Some(ReasoningEffort::XHigh),
        effort_of(label) is Some ==> label == "ultracode"@ || label == effort_of(
            label,
        )->Some_0.word(),
        ReasoningEffort::Low.word() == "low"@,
        ReasoningEffort::Medium.word() == "medium"@,
        ReasoningEffort::High.word() == "high"@,
        ReasoningEffort::XHigh.word() == "xhigh"@,
        ReasoningEffort::Max.word() == "max"@,
{
    reveal_strlit("low");
    reveal_strlit("medium");
    reveal_strlit("high");
    reveal_strlit("xhigh");
    reveal_strlit("max");
    reveal_strlit("ultracode");
    assert("low"@[0] == 'l');
    assert("max"@[0] == 'm');
    assert("low"@.len() == 3);
    assert("max"@.len() == 3);
    assert("high"@.len() == 4);
    assert("xhigh"@.len() == 5);
    assert("medium"@.len() == 6);
    assert("ultracode"@.len() == 9);
}

/// An effort that the user chose is taken exactly where it has a name, the model has it, there is a
/// parent, and workflows are not disabled where it orchestrates them. What is set then is the effort
/// of that name, and only `ultracode` orchestrates.
pub proof fn chosen_effort_is_set(
    app: App,
    label: Seq<char>,
    presets: Seq<ModelPreset>,
    model: Seq<char>,
    checked: Result<EffortChange, String>,
    acknowledged: bool,
    res: Result<(), String>,
    after: App,
)
    requires
        is_effort_checked(app, label, presets, model, checked),
        checked is Ok ==> is_effort_applied(app, checked->Ok_0, acknowledged, res, after),
    ensures
        checked is Ok <==> effort_of(label) is Some && supports(
            presets,
            model,
            effort_of(label)->Some_0,
        ) && app.thread_id is Some && !(label == "ultracode"@ && app.disable_workflows),
        checked matches Ok(change) ==> {
            &&& change.effort == effort_of(label)->Some_0
            &&& change.ultracode <==> label == "ultracode"@
            &&& res is Ok <==> acknowledged
            &&& acknowledged ==> after.effort is Some && after.effort->Some_0@ == effort_of(
                label,
            )->Some_0.word() && (after.ultracode <==> label == "ultracode"@)
            &&& !acknowledged ==> after == app
            &&& after.thread_id == app.thread_id
            &&& after.consent == app.consent
            &&& after.workflow_sessions == app.workflow_sessions
            &&& becomes_default(change) <==> label != "ultracode"@
        },
{
}

/// A model has an effort exactly where one of its presets lists it.
pub proof fn effort_is_listed(
    presets: Seq<ModelPreset>,
    model: Seq<char>,
    effort: ReasoningEffort,
    i: int,
)
    ensures
        0 <= i < presets.len() && presets[i].model@ == model && presets[i].efforts@.contains(effort)
            ==> supports(presets, model, effort),
        (forall|j: int| 0 <= j < presets.len() ==> (#[trigger] presets[j]).model@ != model)
            ==> !supports(presets, model, effort),
{
}

/// The user is warned exactly where a default was to be saved and could not be, and is always told the
/// effort that was set.
pub proof fn unsaved_default_is_told(
    label: Seq<char>,
    change: EffortChange,
    saving: Option<Seq<char>>,
    note: EffortNote,
)
    requires
        is_effort_note(label, change, saving, note),
    ensures
        note is Warning <==> saving is Some && !change.ultracode,
        note matches EffortNote::Info { text, detail } ==> text@ == "Effort set to "@ + label && (
        detail is Some <==> change.ultracode),
        note matches EffortNote::Warning { text } ==> text@ == "Effort set to "@ + label
            + " for this session, but the default could not be saved: "@ + saving->Some_0,
{
}

} // verus!
