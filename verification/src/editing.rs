//! Editing a source before consent to run it is given.
use crate::action::{acts, add_action, just, Act, EditedSource, LaunchSource, WorkflowAction};
use crate::app::{asks, same_but_consent, App};
use crate::consent::{effective_mode, ConsentView, WorkflowConsentContext, WorkflowConsentFeedback};
use crate::render::{WorkflowPreviewMode, WorkflowSourcePreview};
use crate::text::{option_text, plus, same};
use vstd::prelude::*;
use vstd::string::*;

verus! {

/// What comes of a wish to edit what the user is asked about.
pub open spec fn edit_acts(app: App) -> Seq<Act> {
    match app.consent {
        Some(view) => seq![Act::EditSource { text: view.preview.source@ }],
        None => Seq::empty(),
    }
}

/// Whether an edited source must be validated: also one that did not change, if it was not valid
/// before.
pub open spec fn needs_validation(preview: WorkflowSourcePreview, source: Seq<char>) -> bool {
    source != preview.source@ || preview.validation_error is Some
}

/// What validates an edited source, for the thread that what was shown is for. A saved workflow is
/// edited as what was saved, or, where it was edited before, as a script, and keeps the arguments of
/// its run; a tool call is edited as it was made.
pub open spec fn bind_act(view: ConsentView, source: Seq<char>) -> Act {
    let edited = view.preview.workflow_id is None;
    match view.context {
        WorkflowConsentContext::Dynamic { request_id, thread_id, workflow_name, inline } => {
            Act::BindEdited {
                thread_id: view.preview.thread_id@,
                call: Some(request_id@),
                saved: None,
                script: None,
                args: None,
                text: source,
            }
        },
        WorkflowConsentContext::Saved { thread_id, name, args } => Act::BindEdited {
            thread_id: view.preview.thread_id@,
            call: None,
            saved: if edited {
                None
            } else {
                Some(name@)
            },
            script: if edited {
                Some(view.preview.source@)
            } else {
                None
            },
            args: option_text(args),
            text: source,
        },
    }
}

/// Whether the user is asked again about what was asked before, with the phases shown.
pub open spec fn asks_again(
    before: App,
    view: ConsentView,
    typed: WorkflowConsentFeedback,
    after: App,
) -> bool {
    same_but_consent(before, after) && asks(
        after.consent,
        view.context,
        typed,
        view.preview,
        WorkflowPreviewMode::Summary,
        before.cwd@,
    )
}

/// What comes of an editor that was closed: a source, or why there is none.
pub open spec fn is_edit_taken(
    before: App,
    typed: WorkflowConsentFeedback,
    source: Result<String, String>,
    after: App,
    done: Seq<Act>,
) -> bool {
    match before.consent {
        None => after == before && done == Seq::<Act>::empty(),
        Some(view) => match source {
            Err(error) => {
                &&& asks_again(before, view, typed, after)
                &&& done == seq![
                    Act::ShowError { text: "Failed to edit workflow: "@ + error@ },
                    Act::Redraw,
                ]
            },
            Ok(source) => if needs_validation(view.preview, source@) {
                after == before && done == seq![bind_act(view, source@)]
            } else {
                asks_again(before, view, typed, after) && done == seq![Act::Redraw]
            },
        },
    }
}

/// An edited source, as far as it could be validated. A tool call may name another workflow, or hold
/// the source itself.
#[derive(Debug)]
pub struct BoundEdit {
    pub workflow_name: Option<String>,
    pub inline: bool,
    pub preview: WorkflowSourcePreview,
}

/// What asks for consent to an edited source.
pub open spec fn bound_context(
    context: WorkflowConsentContext,
    workflow_name: Option<String>,
    inline: bool,
) -> WorkflowConsentContext {
    match context {
        WorkflowConsentContext::Dynamic { request_id, thread_id, workflow_name: _, inline: _ } => {
            WorkflowConsentContext::Dynamic { request_id, thread_id, workflow_name, inline }
        },
        WorkflowConsentContext::Saved { thread_id, name, args } => context,
    }
}

/// How an edited source is shown: one that is not valid as it is, for correction.
pub open spec fn edited_mode(preview: WorkflowSourcePreview) -> WorkflowPreviewMode {
    if preview.validation_error is Some {
        WorkflowPreviewMode::Raw
    } else {
        WorkflowPreviewMode::Summary
    }
}

/// What comes of the validation of an edited source. Where it could not be made, the user is asked
/// about what was shown before.
pub open spec fn is_bound_shown(
    before: App,
    typed: WorkflowConsentFeedback,
    bound: Result<BoundEdit, String>,
    after: App,
    done: Seq<Act>,
) -> bool {
    match before.consent {
        None => after == before && done == Seq::<Act>::empty(),
        Some(view) => match bound {
            Err(error) => {
                &&& asks_again(before, view, typed, after)
                &&& done == seq![
                    Act::ShowError { text: "Failed to bind edited workflow: "@ + error@ },
                    Act::Redraw,
                ]
            },
            Ok(bound) => {
                &&& same_but_consent(before, after)
                &&& asks(
                    after.consent,
                    bound_context(view.context, bound.workflow_name, bound.inline),
                    typed,
                    bound.preview,
                    edited_mode(bound.preview),
                    before.cwd@,
                )
                &&& done == seq![Act::Redraw]
            },
        },
    }
}

fn complain(start: &str, error: &str) -> (res: Vec<WorkflowAction>)
    ensures
        acts(res@) == seq![Act::ShowError { text: start@ + error@ }, Act::Redraw],
{
    let mut actions = just(WorkflowAction::ShowError { text: plus(start, error) });
    add_action(&mut actions, WorkflowAction::Redraw);
    assert(acts(actions@) =~= seq![Act::ShowError { text: start@ + error@ }, Act::Redraw]);
    actions
}

impl App {
    /// The user wants to edit what the question is about.
    pub fn edit_source(&self) -> (res: Vec<WorkflowAction>)
        ensures
            acts(res@) == edit_acts(*self),
    {
        match &self.consent {
            Some(view) => just(WorkflowAction::EditSource { text: view.preview.source.clone() }),
            None => {
                let actions: Vec<WorkflowAction> = Vec::new();
                assert(acts(actions@) =~= Seq::<Act>::empty());
                actions
            },
        }
    }

    /// Takes what the editor left. `typed` is what the user typed beside the choices.
    pub fn editor_closed(&mut self, typed: &WorkflowConsentFeedback, source: Result<String, String>) -> (res:
        Vec<WorkflowAction>)
        ensures
            is_edit_taken(*old(self), *typed, source, *final(self), acts(res@)),
    {
        let ghost before = *self;
        let view = match self.consent.take() {
            Some(view) => view,
            None => {
                let actions: Vec<WorkflowAction> = Vec::new();
                assert(acts(actions@) =~= Seq::<Act>::empty());
                return actions;
            },
        };
        let source = match source {
            Ok(source) => source,
            Err(error) => {
                self.show_workflow_consent_context(
                    view.context,
                    typed,
                    view.preview,
                    WorkflowPreviewMode::Summary,
                );
                return complain("Failed to edit workflow: ", error.as_str());
            },
        };
        if same(source.as_str(), view.preview.source.as_str())
            && view.preview.validation_error.is_none() {
            self.show_workflow_consent_context(
                view.context,
                typed,
                view.preview,
                WorkflowPreviewMode::Summary,
            );
            return just(WorkflowAction::Redraw);
        }
        let thread_id = view.preview.thread_id.clone();
        let edited = match &view.context {
            WorkflowConsentContext::Dynamic {
                request_id,
                thread_id: _,
                workflow_name: _,
                inline: _,
            } => EditedSource::Call { request_id: request_id.clone() },
            WorkflowConsentContext::Saved { thread_id: _, name, args } => EditedSource::Run {
                source: if view.preview.workflow_id.is_some() {
                    LaunchSource::Saved { name: name.clone() }
                } else {
                    LaunchSource::Script { source: view.preview.source.clone() }
                },
                args: match args {
                    Some(args) => Some(args.clone()),
                    None => None,
                },
            },
        };
        self.consent = Some(view);
        just(WorkflowAction::BindEdited { thread_id, edited, text: source })
    }

    /// Takes what the validation of an edited source came to.
    pub fn edit_bound(&mut self, typed: &WorkflowConsentFeedback, bound: Result<BoundEdit, String>) -> (res:
        Vec<WorkflowAction>)
        ensures
            is_bound_shown(*old(self), *typed, bound, *final(self), acts(res@)),
    {
        let view = match self.consent.take() {
            Some(view) => view,
            None => {
                let actions: Vec<WorkflowAction> = Vec::new();
                assert(acts(actions@) =~= Seq::<Act>::empty());
                return actions;
            },
        };
        match bound {
            Err(error) => {
                self.show_workflow_consent_context(
                    view.context,
                    typed,
                    view.preview,
                    WorkflowPreviewMode::Summary,
                );
                complain("Failed to bind edited workflow: ", error.as_str())
            },
            Ok(bound) => {
                let context = match view.context {
                    WorkflowConsentContext::Dynamic {
                        request_id,
                        thread_id,
                        workflow_name: _,
                        inline: _,
                    } => WorkflowConsentContext::Dynamic {
                        request_id,
                        thread_id,
                        workflow_name: bound.workflow_name,
                        inline: bound.inline,
                    },
                    WorkflowConsentContext::Saved { thread_id, name, args } => {
                        WorkflowConsentContext::Saved { thread_id, name, args }
                    },
                };
                let mode = if bound.preview.validation_error.is_some() {
                    WorkflowPreviewMode::Raw
                } else {
                    WorkflowPreviewMode::Summary
                };
                self.show_workflow_consent_context(context, typed, bound.preview, mode);
                just(WorkflowAction::Redraw)
            },
        }
    }
}

/// An editor that fails, or a source that cannot be bound, settles nothing: the user is asked about
/// the same source as before, for the same request.
pub proof fn failed_edit_settles_nothing(
    before: App,
    view: ConsentView,
    typed: WorkflowConsentFeedback,
    error: String,
    after: App,
    done: Seq<Act>,
)
    requires
        before.consent == Some(view),
        is_edit_taken(before, typed, Err::<String, String>(error), after, done) || is_bound_shown(
            before,
            typed,
            Err::<BoundEdit, String>(error),
            after,
            done,
        ),
    ensures
        after.consent matches Some(again) && again.context == view.context && again.preview
            == view.preview,
        forall|i: int| 0 <= i < done.len() ==> !(#[trigger] done[i] is Respond),
{
}

/// What is edited is what is asked about, and what was edited is validated before anyone is asked about
/// it: the question stays as it was, and one source, the one that the editor left, goes to be
/// validated for the thread that was shown. Only a source that did not change and was valid is asked
/// about again without that, as it was.
pub proof fn edited_source_is_validated(
    before: App,
    view: ConsentView,
    typed: WorkflowConsentFeedback,
    source: String,
    after: App,
    done: Seq<Act>,
)
    requires
        before.consent == Some(view),
        is_edit_taken(before, typed, Ok::<String, String>(source), after, done),
    ensures
        edit_acts(before) == seq![Act::EditSource { text: view.preview.source@ }],
        ({
            let unchanged = source@ == view.preview.source@ && view.preview.validation_error is None;
            &&& unchanged <==> done == seq![Act::Redraw]
            &&& unchanged ==> after.consent is Some && after.consent->Some_0.preview == view.preview
                && after.consent->Some_0.context == view.context
            &&& !unchanged ==> after == before && done.len() == 1
            &&& !unchanged ==> (done[0] matches Act::BindEdited {
                thread_id,
                call,
                saved,
                script,
                args,
                text,
            } && {
                &&& thread_id == view.preview.thread_id@
                &&& text == source@
                &&& match view.context {
                    WorkflowConsentContext::Dynamic { request_id, .. } => call == Some(request_id@)
                        && saved is None && script is None,
                    WorkflowConsentContext::Saved { name, args: given, .. } => {
                        &&& call is None
                        &&& args == option_text(given)
                        &&& view.preview.workflow_id is Some ==> saved == Some(name@) && script
                            is None
                        &&& view.preview.workflow_id is None ==> saved is None && script == Some(
                            view.preview.source@,
                        )
                    },
                }
            })
        }),
{
    let bind = bind_act(view, source@);
    assert(seq![bind][0] == bind);
    assert(seq![Act::Redraw][0] == Act::Redraw);
    assert(bind is BindEdited);
}

/// What was validated is asked about, for the same request as before: its source and, where it is not
/// valid, as it is; one that is valid is shown by its phases where it has any.
pub proof fn validated_source_is_asked_about(
    before: App,
    view: ConsentView,
    typed: WorkflowConsentFeedback,
    bound: BoundEdit,
    after: App,
    done: Seq<Act>,
)
    requires
        before.consent == Some(view),
        is_bound_shown(before, typed, Ok::<BoundEdit, String>(bound), after, done),
    ensures
        done == seq![Act::Redraw],
        after.consent is Some,
        after.consent->Some_0.preview == bound.preview,
        bound.preview.validation_error is Some ==> after.consent->Some_0.mode is Raw,
        bound.preview.validation_error is None ==> after.consent->Some_0.mode == effective_mode(
            bound.preview,
            WorkflowPreviewMode::Summary,
        ),
        match view.context {
            WorkflowConsentContext::Dynamic { request_id, thread_id, .. } => {
                after.consent->Some_0.context == (WorkflowConsentContext::Dynamic {
                    request_id,
                    thread_id,
                    workflow_name: bound.workflow_name,
                    inline: bound.inline,
                })
            },
            WorkflowConsentContext::Saved { .. } => after.consent->Some_0.context == view.context,
        },
        after.workflow_sessions == before.workflow_sessions,
        after.commands == before.commands,
{
}

/// Without a question there is nothing to edit.
pub proof fn nothing_is_edited_unasked(
    before: App,
    typed: WorkflowConsentFeedback,
    source: Result<String, String>,
    after: App,
    done: Seq<Act>,
)
    requires
        before.consent is None,
        is_edit_taken(before, typed, source, after, done),
    ensures
        edit_acts(before).len() == 0,
        done.len() == 0,
        after == before,
{
}

} // verus!
