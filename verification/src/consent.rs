//! Asking for consent to run a workflow: the choices, and what each of them leads to.
use crate::path::{path_text, AbsolutePath};
use crate::render::{
    sanitize_display, sanitized, workflow_preview_header, HeaderBlock, WorkflowPreviewMode,
    WorkflowSourcePreview, header_shows,
};
use crate::text::{option_text, plus3};
use vstd::prelude::*;
use vstd::string::*;

verus! {

/// What a user decides.
#[derive(Clone, Copy, Debug, PartialEq, Eq, Structural)]
pub enum WorkflowConsentChoice {
    Run,
    /// To run, and not to be asked again for the saved workflow.
    Remember,
    Cancel,
}

/// What asks for consent.
#[derive(Debug)]
pub enum WorkflowConsentContext {
    /// A tool call of a model. `workflow_name` is the saved workflow that its arguments name, if they
    /// do; an inline call holds the source itself.
    Dynamic {
        request_id: String,
        thread_id: String,
        workflow_name: Option<String>,
        inline: bool,
    },
    /// A saved workflow that the user runs.
    Saved { thread_id: String, name: String, args: Option<String> },
}

/// What the user has typed so far beside the choices.
#[derive(Debug)]
pub struct WorkflowConsentFeedback {
    pub accept: String,
    pub accept_expanded: bool,
    pub reject: String,
    pub reject_expanded: bool,
}

impl WorkflowConsentFeedback {
    pub fn new() -> (res: WorkflowConsentFeedback)
        ensures
            res.accept@.len() == 0,
            !res.accept_expanded,
            res.reject@.len() == 0,
            !res.reject_expanded,
    {
        WorkflowConsentFeedback {
            accept: String::new(),
            accept_expanded: false,
            reject: String::new(),
            reject_expanded: false,
        }
    }
}

/// A text that goes with a choice.
#[derive(Debug)]
pub struct SelectionFeedback {
    pub placeholder: String,
    pub text: String,
    pub expanded: bool,
}

/// What a choice does.
#[derive(Clone, Copy, Debug, PartialEq, Eq, Structural)]
pub enum ConsentAction {
    Choose(WorkflowConsentChoice),
    /// Shows the source in another way; nothing is decided.
    Show(WorkflowPreviewMode),
}

/// A choice. One with a reason against it cannot be taken.
#[derive(Debug)]
pub struct SelectionItem {
    pub name: String,
    pub disabled_reason: Option<String>,
    pub feedback: Option<SelectionFeedback>,
    pub action: ConsentAction,
}

/// A choice with a text beside it.
pub fn feedback_item(
    name: &str,
    placeholder: &str,
    text: String,
    expanded: bool,
    action: ConsentAction,
) -> (res: SelectionItem)
    ensures
        res.name@ == name@,
        res.disabled_reason is None,
        res.action == action,
        res.feedback matches Some(feedback) && feedback.placeholder@ == placeholder@
            && feedback.text@ == text@ && feedback.expanded == expanded,
{
    SelectionItem {
        name: name.to_owned(),
        disabled_reason: None,
        feedback: Some(
            SelectionFeedback { placeholder: placeholder.to_owned(), text, expanded },
        ),
        action,
    }
}

/// Whether there are phases to show in place of the source.
pub open spec fn has_summary(preview: WorkflowSourcePreview) -> bool {
    &&& preview.consent matches Some(consent)
    &&& consent.phases matches Some(phases)
    &&& phases@.len() > 0
    &&& !consent.source.withheld
}

pub fn preview_has_summary(preview: &WorkflowSourcePreview) -> (res: bool)
    ensures
        res == has_summary(*preview),
{
    match &preview.consent {
        Some(consent) => match &consent.phases {
            Some(phases) => phases.len() > 0 && !consent.source.withheld,
            None => false,
        },
        None => false,
    }
}

/// The way in which a source is shown: the wanted one, or as it is where it is not valid or has no
/// phases.
pub open spec fn effective_mode(
    preview: WorkflowSourcePreview,
    mode: WorkflowPreviewMode,
) -> WorkflowPreviewMode {
    if preview.validation_error is Some || !has_summary(preview) {
        WorkflowPreviewMode::Raw
    } else {
        mode
    }
}

/// The saved workflow that a request names.
pub open spec fn requested_name(context: WorkflowConsentContext) -> Option<Seq<char>> {
    match context {
        WorkflowConsentContext::Dynamic { request_id, thread_id, workflow_name, inline } => {
            option_text(workflow_name)
        },
        WorkflowConsentContext::Saved { thread_id, name, args } => Some(name@),
    }
}

/// Whether what asks for consent holds the source itself.
pub open spec fn is_inline(context: WorkflowConsentContext) -> bool {
    match context {
        WorkflowConsentContext::Dynamic { request_id, thread_id, workflow_name, inline } => inline,
        WorkflowConsentContext::Saved { thread_id, name, args } => false,
    }
}

/// Whether everything that would run can be seen.
pub open spec fn shows_everything(preview: WorkflowSourcePreview) -> bool {
    &&& preview.consent matches Some(consent)
    &&& !consent.source.withheld
    &&& consent.args matches Some(args) ==> !args.withheld
}

/// The saved workflow for which the user may choose not to be asked again: only one that is run as
/// it was saved, and of which nothing is withheld.
pub open spec fn rememberable(
    context: WorkflowConsentContext,
    preview: WorkflowSourcePreview,
) -> Option<Seq<char>> {
    if preview.workflow_id is Some && shows_everything(preview) {
        requested_name(context)
    } else {
        None
    }
}

pub fn remember_name(context: &WorkflowConsentContext, preview: &WorkflowSourcePreview) -> (res:
    Option<String>)
    ensures
        option_text(res) == rememberable(*context, *preview),
{
    let everything = match &preview.consent {
        Some(consent) => {
            let args_withheld = match &consent.args {
                Some(args) => args.withheld,
                None => false,
            };
            !consent.source.withheld && !args_withheld
        },
        None => false,
    };
    if preview.workflow_id.is_none() || !everything {
        return None;
    }
    match context {
        WorkflowConsentContext::Dynamic { request_id: _, thread_id: _, workflow_name, inline: _ } => {
            workflow_name.clone()
        },
        WorkflowConsentContext::Saved { thread_id: _, name, args: _ } => Some(name.clone()),
    }
}

/// Why the workflow cannot be run: its source is not valid, or is withheld.
pub open spec fn run_obstacle(preview: WorkflowSourcePreview) -> Option<Seq<char>> {
    match preview.validation_error {
        Some(error) => Some(error@),
        None => match preview.consent {
            Some(consent) => if consent.source.withheld {
                Some(consent.source.text@)
            } else {
                None
            },
            None => None,
        },
    }
}

fn find_obstacle(preview: &WorkflowSourcePreview) -> (res: Option<String>)
    ensures
        option_text(res) == run_obstacle(*preview),
{
    match &preview.validation_error {
        Some(error) => Some(error.clone()),
        None => match &preview.consent {
            Some(consent) => if consent.source.withheld {
                Some(consent.source.text.clone())
            } else {
                None
            },
            None => None,
        },
    }
}

/// Whether the source can be shown in another way.
pub open spec fn can_toggle(preview: WorkflowSourcePreview) -> bool {
    has_summary(preview) && run_obstacle(preview) is None
}

pub open spec fn other_mode(mode: WorkflowPreviewMode) -> WorkflowPreviewMode {
    match mode {
        WorkflowPreviewMode::Summary => WorkflowPreviewMode::Raw,
        WorkflowPreviewMode::Raw => WorkflowPreviewMode::Summary,
    }
}

pub open spec fn is_run_item(
    item: SelectionItem,
    preview: WorkflowSourcePreview,
    feedback: WorkflowConsentFeedback,
) -> bool {
    &&& item.name@ == "Run once"@
    &&& option_text(item.disabled_reason) == run_obstacle(preview)
    &&& item.action == ConsentAction::Choose(WorkflowConsentChoice::Run)
    &&& item.feedback matches Some(input)
    &&& input.placeholder@ == "tell Codex what to do next"@
    &&& input.text@ == feedback.accept@
    &&& input.expanded == feedback.accept_expanded
}

pub open spec fn is_remember_item(
    item: SelectionItem,
    preview: WorkflowSourcePreview,
    name: Seq<char>,
    cwd: Seq<Seq<char>>,
) -> bool {
    &&& item.name@ == sanitized(
        "Yes, and don't ask again for /"@ + name + " in "@ + path_text(cwd),
    )
    &&& option_text(item.disabled_reason) == run_obstacle(preview)
    &&& item.action == ConsentAction::Choose(WorkflowConsentChoice::Remember)
    &&& item.feedback is None
}

/// The place of not being asked again for a source that has no name: it cannot be taken.
pub open spec fn is_closed_remember_item(item: SelectionItem) -> bool {
    &&& item.name@ == "Run and remember for this project"@
    &&& option_text(item.disabled_reason) == Some("Inline workflows cannot be remembered"@)
    &&& item.action == ConsentAction::Choose(WorkflowConsentChoice::Remember)
    &&& item.feedback is None
}

pub open spec fn is_toggle_item(item: SelectionItem, mode: WorkflowPreviewMode) -> bool {
    &&& item.name@ == match other_mode(mode) {
        WorkflowPreviewMode::Summary => "View workflow summary"@,
        WorkflowPreviewMode::Raw => "View raw script"@,
    }
    &&& item.disabled_reason is None
    &&& item.action == ConsentAction::Show(other_mode(mode))
    &&& item.feedback is None
}

pub open spec fn is_reject_item(item: SelectionItem, feedback: WorkflowConsentFeedback) -> bool {
    &&& item.name@ == "No"@
    &&& item.disabled_reason is None
    &&& item.action == ConsentAction::Choose(WorkflowConsentChoice::Cancel)
    &&& item.feedback matches Some(input)
    &&& input.placeholder@ == "tell Codex what to do differently"@
    &&& input.text@ == feedback.reject@
    &&& input.expanded == feedback.reject_expanded
}

/// Whether these are the choices, in their order: to run, to run without being asked again, to show
/// the source in another way, and not to run. The second and the third are there only where they
/// make sense; for an inline source the second is there to say that it cannot be taken.
pub open spec fn are_choices(
    items: Seq<SelectionItem>,
    context: WorkflowConsentContext,
    feedback: WorkflowConsentFeedback,
    preview: WorkflowSourcePreview,
    mode: WorkflowPreviewMode,
    cwd: Seq<Seq<char>>,
) -> bool {
    let remember = rememberable(context, preview);
    let toggle_at: int = if remember is Some || is_inline(context) {
        2
    } else {
        1
    };
    let reject_at: int = if can_toggle(preview) {
        toggle_at + 1
    } else {
        toggle_at
    };
    &&& items.len() == reject_at + 1
    &&& is_run_item(items[0], preview, feedback)
    &&& remember is Some ==> is_remember_item(items[1], preview, remember->Some_0, cwd)
    &&& remember is None && is_inline(context) ==> is_closed_remember_item(items[1])
    &&& can_toggle(preview) ==> is_toggle_item(items[toggle_at], mode)
    &&& is_reject_item(items[reject_at], feedback)
}

/// A question that is put to the user.
#[derive(Debug)]
pub struct ConsentView {
    pub context: WorkflowConsentContext,
    pub preview: WorkflowSourcePreview,
    pub mode: WorkflowPreviewMode,
    pub header: Vec<HeaderBlock>,
    pub items: Vec<SelectionItem>,
}

/// Puts the question to the user.
pub fn consent_view(
    context: WorkflowConsentContext,
    feedback: &WorkflowConsentFeedback,
    preview: WorkflowSourcePreview,
    mode: WorkflowPreviewMode,
    cwd: &AbsolutePath,
) -> (res: ConsentView)
    ensures
        res.context == context,
        res.preview == preview,
        res.mode == effective_mode(preview, mode),
        header_shows(res.header@, preview, res.mode),
        are_choices(res.items@, context, *feedback, preview, res.mode, cwd@),
{
    let summary = preview_has_summary(&preview);
    let mode = if preview.validation_error.is_some() || !summary {
        WorkflowPreviewMode::Raw
    } else {
        mode
    };
    let obstacle = find_obstacle(&preview);
    let mut items: Vec<SelectionItem> = Vec::new();
    let mut run = feedback_item(
        "Run once",
        "tell Codex what to do next",
        feedback.accept.clone(),
        feedback.accept_expanded,
        ConsentAction::Choose(WorkflowConsentChoice::Run),
    );
    run.disabled_reason = obstacle.clone();
    items.push(run);
    match remember_name(&context, &preview) {
        Some(name) => {
            let mut label = plus3("Yes, and don't ask again for /", name.as_str(), " in ");
            label.append(cwd.text().as_str());
            items.push(
                SelectionItem {
                    name: sanitize_display(label.as_str()),
                    disabled_reason: obstacle.clone(),
                    feedback: None,
                    action: ConsentAction::Choose(WorkflowConsentChoice::Remember),
                },
            );
        },
        None => {
            let inline = match &context {
                WorkflowConsentContext::Dynamic {
                    request_id: _,
                    thread_id: _,
                    workflow_name: _,
                    inline,
                } => *inline,
                WorkflowConsentContext::Saved { thread_id: _, name: _, args: _ } => false,
            };
            if inline {
                items.push(
                    SelectionItem {
                        name: "Run and remember for this project".to_owned(),
                        disabled_reason: Some("Inline workflows cannot be remembered".to_owned()),
                        feedback: None,
                        action: ConsentAction::Choose(WorkflowConsentChoice::Remember),
                    },
                );
            }
        },
    }
    if summary && obstacle.is_none() {
        let (label, next) = match mode {
            WorkflowPreviewMode::Summary => ("View raw script", WorkflowPreviewMode::Raw),
            WorkflowPreviewMode::Raw => ("View workflow summary", WorkflowPreviewMode::Summary),
        };
        items.push(
            SelectionItem {
                name: label.to_owned(),
                disabled_reason: None,
                feedback: None,
                action: ConsentAction::Show(next),
            },
        );
    }
    items.push(
        feedback_item(
            "No",
            "tell Codex what to do differently",
            feedback.reject.clone(),
            feedback.reject_expanded,
            ConsentAction::Choose(WorkflowConsentChoice::Cancel),
        ),
    );
    let header = workflow_preview_header(&preview, mode);
    ConsentView { context, preview, mode, header, items }
}

/// What follows a choice.
#[derive(Clone, Copy, Debug, PartialEq, Eq, Structural)]
pub enum ConsentOutcome {
    /// The choice cannot be taken; the question stays.
    Stays,
    /// The question is put again, and the source shown in this way.
    Show(WorkflowPreviewMode),
    /// The question is answered. Only a launch gets the previewed source.
    Decided { choice: WorkflowConsentChoice, with_preview: bool },
}

/// What follows the choice at a position.
pub open spec fn chosen(items: Seq<SelectionItem>, index: int) -> ConsentOutcome {
    if index >= items.len() || items[index].disabled_reason is Some {
        ConsentOutcome::Stays
    } else {
        match items[index].action {
            ConsentAction::Show(mode) => ConsentOutcome::Show(mode),
            ConsentAction::Choose(choice) => ConsentOutcome::Decided {
                choice,
                with_preview: choice != WorkflowConsentChoice::Cancel,
            },
        }
    }
}

/// Takes a choice of the user.
pub fn choose_item(view: &ConsentView, index: usize) -> (res: ConsentOutcome)
    ensures
        res == chosen(view.items@, index as int),
{
    if index >= view.items.len() || view.items[index].disabled_reason.is_some() {
        return ConsentOutcome::Stays;
    }
    match view.items[index].action {
        ConsentAction::Show(mode) => ConsentOutcome::Show(mode),
        ConsentAction::Choose(choice) => ConsentOutcome::Decided {
            choice,
            with_preview: choice != WorkflowConsentChoice::Cancel,
        },
    }
}

/// What follows where the user does not choose at all.
pub open spec fn dismissed() -> ConsentOutcome {
    ConsentOutcome::Decided { choice: WorkflowConsentChoice::Cancel, with_preview: false }
}

/// Dismissing the question is a refusal.
pub fn dismiss() -> (res: ConsentOutcome)
    ensures
        res == dismissed(),
{
    ConsentOutcome::Decided { choice: WorkflowConsentChoice::Cancel, with_preview: false }
}

/// A source that is not valid, or is withheld, cannot be run from the question: every choice that
/// would run it is closed. Refusing it is always open.
pub proof fn obstacle_closes_every_launch(
    items: Seq<SelectionItem>,
    context: WorkflowConsentContext,
    feedback: WorkflowConsentFeedback,
    preview: WorkflowSourcePreview,
    mode: WorkflowPreviewMode,
    cwd: Seq<Seq<char>>,
    i: int,
)
    requires
        are_choices(items, context, feedback, preview, mode, cwd),
        0 <= i < items.len(),
    ensures
        run_obstacle(preview) is Some && items[i].action is Choose && items[i].action
            != ConsentAction::Choose(WorkflowConsentChoice::Cancel) ==> items[i].disabled_reason
            is Some,
        items[i].action == ConsentAction::Choose(WorkflowConsentChoice::Cancel)
            ==> items[i].disabled_reason is None,
        items.last().action == ConsentAction::Choose(WorkflowConsentChoice::Cancel),
{
}

/// Not to be asked again can be chosen for no edited or inline source, and for none of which anything
/// is withheld.
pub proof fn remember_is_only_for_what_is_seen(
    items: Seq<SelectionItem>,
    context: WorkflowConsentContext,
    feedback: WorkflowConsentFeedback,
    preview: WorkflowSourcePreview,
    mode: WorkflowPreviewMode,
    cwd: Seq<Seq<char>>,
    i: int,
)
    requires
        are_choices(items, context, feedback, preview, mode, cwd),
        0 <= i < items.len(),
        items[i].action == ConsentAction::Choose(WorkflowConsentChoice::Remember),
        items[i].disabled_reason is None,
    ensures
        preview.workflow_id is Some,
        shows_everything(preview),
        requested_name(context) is Some,
{
}

/// The question about an inline call always says that the call cannot be remembered, in a row that
/// cannot be taken.
pub proof fn inline_source_is_not_remembered(
    items: Seq<SelectionItem>,
    context: WorkflowConsentContext,
    feedback: WorkflowConsentFeedback,
    preview: WorkflowSourcePreview,
    mode: WorkflowPreviewMode,
    cwd: Seq<Seq<char>>,
)
    requires
        are_choices(items, context, feedback, preview, mode, cwd),
        is_inline(context),
        preview.workflow_id is None,
    ensures
        items[0].name@ == "Run once"@,
        option_text(items[1].disabled_reason) == Some("Inline workflows cannot be remembered"@),
{
}

/// Showing the source in another way twice shows it as before.
pub proof fn toggling_twice_changes_nothing(mode: WorkflowPreviewMode)
    ensures
        other_mode(other_mode(mode)) == mode,
{
}

/// The first choice runs the workflow, exactly where nothing speaks against it, and the last one
/// refuses it, always. To be asked no more is the second, where it can be chosen, for the workflow
/// that was named. What is decided to run gets the previewed source; a refusal does not.
pub proof fn choices_do_what_they_say(
    items: Seq<SelectionItem>,
    context: WorkflowConsentContext,
    feedback: WorkflowConsentFeedback,
    preview: WorkflowSourcePreview,
    mode: WorkflowPreviewMode,
    cwd: Seq<Seq<char>>,
)
    requires
        are_choices(items, context, feedback, preview, mode, cwd),
    ensures
        ({
            let withheld = preview.consent is Some && preview.consent->Some_0.source.withheld;
            let runs = preview.validation_error is None && !withheld;
            let last = items.len() - 1;
            &&& items.len() >= 2
            &&& items[0].name@ == "Run once"@
            &&& runs ==> chosen(items, 0) == (ConsentOutcome::Decided {
                choice: WorkflowConsentChoice::Run,
                with_preview: true,
            })
            &&& !runs ==> chosen(items, 0) == ConsentOutcome::Stays
            &&& chosen(items, last) == (ConsentOutcome::Decided {
                choice: WorkflowConsentChoice::Cancel,
                with_preview: false,
            })
            &&& items[last].name@ == "No"@
            &&& items[0].feedback is Some && items[0].feedback->Some_0.text@ == feedback.accept@
            &&& items[last].feedback is Some && items[last].feedback->Some_0.text@
                == feedback.reject@
            &&& rememberable(context, preview) matches Some(name) ==> (runs ==> chosen(items, 1) == (
            ConsentOutcome::Decided {
                choice: WorkflowConsentChoice::Remember,
                with_preview: true,
            }))
            &&& preview.validation_error matches Some(error) ==> option_text(
                items[0].disabled_reason,
            ) == Some(error@)
            &&& preview.validation_error is None && withheld ==> option_text(
                items[0].disabled_reason,
            ) == Some(preview.consent->Some_0.source.text@)
        }),
        forall|i: int| i >= items.len() ==> #[trigger] chosen(items, i) == ConsentOutcome::Stays,
{
}

/// Not to be asked again can be chosen exactly for a saved workflow that is run as it was saved, by its
/// name, and of which neither the source nor the arguments are withheld.
pub proof fn saved_workflow_can_be_remembered(
    context: WorkflowConsentContext,
    preview: WorkflowSourcePreview,
)
    ensures
        ({
            let consent = preview.consent->Some_0;
            let named = match context {
                WorkflowConsentContext::Dynamic { workflow_name, .. } => workflow_name is Some,
                WorkflowConsentContext::Saved { .. } => true,
            };
            &&& rememberable(context, preview) is Some <==> named && preview.workflow_id is Some
                && preview.consent is Some && !consent.source.withheld && !(consent.args is Some
                && consent.args->Some_0.withheld)
            &&& rememberable(context, preview) is Some ==> match context {
                WorkflowConsentContext::Dynamic { workflow_name, .. } => rememberable(
                    context,
                    preview,
                ) == Some(workflow_name->Some_0@),
                WorkflowConsentContext::Saved { name, .. } => rememberable(context, preview)
                    == Some(name@),
            }
        }),
{
}

/// A source can be shown in another way exactly where it is valid, is not withheld and has phases; it
/// is shown as it is wherever there are none, and else as wanted. The choice to show it otherwise
/// leads to the other way.
pub proof fn source_can_be_shown_otherwise(
    items: Seq<SelectionItem>,
    context: WorkflowConsentContext,
    feedback: WorkflowConsentFeedback,
    preview: WorkflowSourcePreview,
    mode: WorkflowPreviewMode,
    cwd: Seq<Seq<char>>,
)
    requires
        are_choices(items, context, feedback, preview, mode, cwd),
    ensures
        ({
            let consent = preview.consent->Some_0;
            let phases = preview.consent is Some && consent.phases is Some
                && consent.phases->Some_0@.len() > 0 && !consent.source.withheld;
            let valid = preview.validation_error is None;
            let at = items.len() - 2;
            &&& effective_mode(preview, mode) == if phases && valid {
                mode
            } else {
                WorkflowPreviewMode::Raw
            }
            &&& phases && valid <==> chosen(items, at) is Show
            &&& phases && valid && mode is Summary ==> chosen(items, at) == ConsentOutcome::Show(
                WorkflowPreviewMode::Raw,
            ) && items[at].name@ == "View raw script"@
            &&& phases && valid && mode is Raw ==> chosen(items, at) == ConsentOutcome::Show(
                WorkflowPreviewMode::Summary,
            ) && items[at].name@ == "View workflow summary"@
        }),
{
}

/// The label of the choice not to be asked again names the workflow and the project.
pub proof fn remembering_names_the_workflow(
    items: Seq<SelectionItem>,
    context: WorkflowConsentContext,
    feedback: WorkflowConsentFeedback,
    preview: WorkflowSourcePreview,
    mode: WorkflowPreviewMode,
    cwd: Seq<Seq<char>>,
)
    requires
        are_choices(items, context, feedback, preview, mode, cwd),
        rememberable(context, preview) is Some,
    ensures
        items[1].name@ == sanitized(
            "Yes, and don't ask again for /"@ + rememberable(context, preview)->Some_0 + " in "@
                + path_text(cwd),
        ),
        items[1].action == ConsentAction::Choose(WorkflowConsentChoice::Remember),
{
}

/// Not to choose is to refuse: it is what the last choice comes to, and what no other choice that
/// launches comes to.
pub proof fn dismissing_is_refusing(
    items: Seq<SelectionItem>,
    context: WorkflowConsentContext,
    feedback: WorkflowConsentFeedback,
    preview: WorkflowSourcePreview,
    mode: WorkflowPreviewMode,
    cwd: Seq<Seq<char>>,
    i: int,
)
    requires
        are_choices(items, context, feedback, preview, mode, cwd),
        0 <= i < items.len() - 1,
    ensures
        dismissed() == chosen(items, items.len() - 1),
        dismissed() != chosen(items, i),
{
}

} // verus!
