//! The state of the terminal application that workflows concern.
use crate::catalog::WorkflowCommand;
use crate::consent::{
    are_choices, consent_view, effective_mode, ConsentView, WorkflowConsentContext,
    WorkflowConsentFeedback,
};
use crate::ids::{uuid_text, ThreadId};
use crate::path::AbsolutePath;
use crate::registry::Registry;
use crate::render::{header_shows, WorkflowPreviewMode, WorkflowSourcePreview};
use crate::session::{sessions_well_formed, WorkflowSession};
use crate::text::same;
use vstd::prelude::*;

verus! {

/// The state that workflows concern.
pub struct App {
    pub cwd: AbsolutePath,
    /// The thread that the user sees.
    pub thread_id: Option<ThreadId>,
    pub disable_workflows: bool,
    pub ultracode: bool,
    /// Whether approvals are reviewed without the user.
    pub auto_review: bool,
    /// Whether the user is never asked.
    pub never_ask: bool,
    pub effort: Option<String>,
    pub commands: Vec<WorkflowCommand>,
    pub consent: Option<ConsentView>,
    /// The sessions of the parents, by their threads.
    pub workflow_sessions: Registry<WorkflowSession>,
}

/// Whether two states have the same settings.
pub open spec fn same_settings(a: App, b: App) -> bool {
    &&& a.cwd == b.cwd
    &&& a.thread_id == b.thread_id
    &&& a.disable_workflows == b.disable_workflows
    &&& a.ultracode == b.ultracode
    &&& a.auto_review == b.auto_review
    &&& a.never_ask == b.never_ask
    &&& a.effort == b.effort
}

pub open spec fn same_but_commands(a: App, b: App) -> bool {
    same_settings(a, b) && a.consent == b.consent && a.workflow_sessions == b.workflow_sessions
}

pub open spec fn same_but_consent(a: App, b: App) -> bool {
    same_settings(a, b) && a.commands == b.commands && a.workflow_sessions == b.workflow_sessions
}

pub open spec fn same_but_sessions(a: App, b: App) -> bool {
    same_settings(a, b) && a.commands == b.commands && a.consent == b.consent
}

/// Whether the user sees this thread.
pub open spec fn is_current(app: App, thread_id: Seq<char>) -> bool {
    app.thread_id matches Some(id) && uuid_text(id.value) == thread_id
}

/// The sessions by their threads.
pub open spec fn sessions(app: App) -> Map<Seq<char>, WorkflowSession> {
    app.workflow_sessions.map()
}

/// Whether the user is asked this.
pub open spec fn asks(
    consent: Option<ConsentView>,
    context: WorkflowConsentContext,
    feedback: WorkflowConsentFeedback,
    preview: WorkflowSourcePreview,
    mode: WorkflowPreviewMode,
    cwd: Seq<Seq<char>>,
) -> bool {
    &&& consent matches Some(view)
    &&& view.context == context
    &&& view.preview == preview
    &&& view.mode == effective_mode(preview, mode)
    &&& header_shows(view.header@, preview, view.mode)
    &&& are_choices(view.items@, context, feedback, preview, view.mode, cwd)
}

/// Whether the user is asked this for the first time: nothing is typed yet, and the phases are shown
/// where there are any.
pub open spec fn asks_first(
    consent: Option<ConsentView>,
    context: WorkflowConsentContext,
    preview: WorkflowSourcePreview,
    cwd: Seq<Seq<char>>,
) -> bool {
    exists|feedback: WorkflowConsentFeedback| #[trigger]
        is_blank_feedback(feedback) && asks(
            consent,
            context,
            feedback,
            preview,
            WorkflowPreviewMode::Summary,
            cwd,
        )
}

pub open spec fn is_blank_feedback(feedback: WorkflowConsentFeedback) -> bool {
    &&& feedback.accept@.len() == 0
    &&& !feedback.accept_expanded
    &&& feedback.reject@.len() == 0
    &&& !feedback.reject_expanded
}

impl App {
    pub open spec fn well_formed(self) -> bool {
        sessions_well_formed(self.workflow_sessions)
    }

    /// Whether the user sees this thread.
    pub fn sees(&self, thread_id: &str) -> (res: bool)
        ensures
            res == is_current(*self, thread_id@),
    {
        match &self.thread_id {
            Some(id) => same(id.to_text().as_str(), thread_id),
            None => false,
        }
    }

    /// Asks for consent, in place of what was asked before.
    pub fn show_workflow_consent_context(
        &mut self,
        context: WorkflowConsentContext,
        feedback: &WorkflowConsentFeedback,
        preview: WorkflowSourcePreview,
        mode: WorkflowPreviewMode,
    )
        ensures
            same_but_consent(*old(self), *final(self)),
            asks(final(self).consent, context, *feedback, preview, mode, old(self).cwd@),
    {
        self.consent = Some(consent_view(context, feedback, preview, mode, &self.cwd));
    }

    /// Asks for consent to run what a tool call asks for.
    pub fn show_workflow_consent(
        &mut self,
        request_id: String,
        thread_id: String,
        workflow_name: Option<String>,
        inline: bool,
        preview: WorkflowSourcePreview,
    )
        ensures
            same_but_consent(*old(self), *final(self)),
            asks_first(
                final(self).consent,
                (WorkflowConsentContext::Dynamic {
                    request_id,
                    thread_id,
                    workflow_name,
                    inline,
                }),
                preview,
                old(self).cwd@,
            ),
    {
        let feedback = WorkflowConsentFeedback::new();
        assert(is_blank_feedback(feedback));
        self.show_workflow_consent_context(
            WorkflowConsentContext::Dynamic { request_id, thread_id, workflow_name, inline },
            &feedback,
            preview,
            WorkflowPreviewMode::Summary,
        );
    }

    /// Asks for consent to run a saved workflow.
    pub fn show_saved_workflow_consent(
        &mut self,
        thread_id: String,
        name: String,
        args: Option<String>,
        preview: WorkflowSourcePreview,
    )
        ensures
            same_but_consent(*old(self), *final(self)),
            asks_first(
                final(self).consent,
                (WorkflowConsentContext::Saved { thread_id, name, args }),
                preview,
                old(self).cwd@,
            ),
    {
        let feedback = WorkflowConsentFeedback::new();
        assert(is_blank_feedback(feedback));
        self.show_workflow_consent_context(
            WorkflowConsentContext::Saved { thread_id, name, args },
            &feedback,
            preview,
            WorkflowPreviewMode::Summary,
        );
    }
}

} // verus!
