//! What the terminal application does about workflows: actions, in the order in which they happen.
//! Where one of them fails, those after it do not happen. What an action queues is an event of its
//! own, and fails for itself.
use crate::bridge::BridgeError;
use crate::ids::ThreadId;
use crate::render::WorkflowSourcePreview;
use crate::text::{option_text, texts};
use vstd::prelude::*;
use vstd::string::*;

verus! {

/// An action, with what it is done with.
#[derive(Debug)]
pub enum WorkflowAction {
    /// Takes the authority of a parent, and starts or finds the process of its session, which is
    /// then told of as opened.
    OpenSession { thread_id: String, isolated: bool },
    /// Queues the loading of the commands of a parent.
    QueueLoad { thread_id: String },
    /// Queues a look at the runs of the parent that the user sees.
    QueueRefresh,
    /// Lists the saved workflows, for the commands of a parent.
    LoadCommands { thread_id: String },
    /// Lists the saved workflows, to run one.
    CheckSaved { thread_id: String, name: String, args: Option<String> },
    /// Lists the saved workflows, to answer a tool call that names one.
    CheckNamed { request_id: String, thread_id: String, name: String },
    /// Lists the runs of a process. A failure is an event of its own, which shows it.
    ListRuns { peer: u64 },
    /// Lists the runs of a session, to open them. A failure is an event of its own, which shows it.
    ListRunsToOpen { thread_id: String, effort: Option<String> },
    /// Lists the runs of a session that was just opened, to open them.
    ListFirstRuns { thread_id: String, effort: Option<String> },
    /// Ends with an error.
    Fail { text: String },
    ShowError { text: String },
    ShowInfo { text: String, detail: Option<String> },
    ClearStatus,
    UpdateStatus,
    OpenOverlay { effort: Option<String> },
    UpdateOverlay,
    Redraw,
    ShowSource { text: String },
    /// Opens an editor with a source.
    EditSource { text: String },
    /// Validates an edited source in place of the one that was shown, with the arguments it runs
    /// with.
    BindEdited {
        thread_id: String,
        edited: EditedSource,
        text: String,
    },
    /// Reads and validates a saved workflow, to ask for consent.
    PreviewSaved { thread_id: String, name: String, args: Option<String> },
    /// Reads and validates what a tool call would run, to ask for consent. For a source that the call
    /// itself holds no session is opened.
    PreviewCall { request_id: String, thread_id: String },
    /// Gives a text to a parent as its user's.
    InjectFeedback { thread: ThreadId, text: String },
    /// Launches a saved workflow, or the edited source in its place.
    LaunchSaved {
        thread_id: String,
        source: LaunchSource,
        args: Option<String>,
        preview: Option<WorkflowSourcePreview>,
    },
    /// Takes the authority of a parent for isolated work, starts or finds the process of its session,
    /// which is then told of as opened, and launches what a tool call asks for. Whatever of that
    /// fails is told of as the outcome of the launch.
    LaunchCall { request_id: String, thread_id: String, preview: Option<WorkflowSourcePreview> },
    RememberNamed { thread_id: String, name: String, digest: String },
    /// Stores what is remembered after the launch for a tool call: that a first launch was allowed,
    /// and after it the saved workflow. Whether all of it could be stored is told.
    RememberCall {
        request_id: String,
        thread_id: String,
        auto_first: bool,
        named: Option<NamedSource>,
    },
    /// Answers a tool call.
    Respond { request_id: String, items: Vec<String>, success: bool },
    ApplyEffort { label: String },
    /// Tells a parent of the end of a run.
    InjectCompletion {
        session: String,
        thread: ThreadId,
        run_id: String,
        attempt: u64,
        summary: String,
    },
    /// Handles a request of a process as a tool call.
    ForwardToolCall { peer: u64, id: String },
    /// Handles a request of a process as one of the server.
    ForwardRequest { peer: u64, id: String },
    /// Asks the server to start a worker, with what the request of the process comes to for the
    /// parent.
    StartWorker { peer: u64, id: String, parent: String },
    PrepareWorkspace { peer: u64, id: String },
    ReleaseWorkspace { peer: u64, id: String },
    InterruptWorker { peer: u64, id: String, thread: ThreadId, turn: String },
    /// Refuses a request of a process.
    Refuse { peer: u64, id: String, error: BridgeError },
}

/// What a launch runs.
#[derive(Debug)]
pub enum LaunchSource {
    Saved { name: String },
    Script { source: String },
}

/// What was shown and is edited.
#[derive(Debug)]
pub enum EditedSource {
    /// What a tool call asks for, with its arguments.
    Call { request_id: String },
    /// A saved workflow, or the script it was edited to, with the arguments of its run.
    Run { source: LaunchSource, args: Option<String> },
}

/// A saved workflow as it was when it ran.
#[derive(Debug)]
pub struct NamedSource {
    pub name: String,
    pub digest: String,
}

/// What an action is.
#[verifier::ext_equal]
pub enum Act {
    OpenSession { thread_id: Seq<char>, isolated: bool },
    QueueLoad { thread_id: Seq<char> },
    QueueRefresh,
    LoadCommands { thread_id: Seq<char> },
    CheckSaved { thread_id: Seq<char>, name: Seq<char>, args: Option<Seq<char>> },
    CheckNamed { request_id: Seq<char>, thread_id: Seq<char>, name: Seq<char> },
    ListRuns { peer: u64 },
    ListRunsToOpen { thread_id: Seq<char>, effort: Option<Seq<char>> },
    ListFirstRuns { thread_id: Seq<char>, effort: Option<Seq<char>> },
    Fail { text: Seq<char> },
    ShowError { text: Seq<char> },
    ShowInfo { text: Seq<char>, detail: Option<Seq<char>> },
    ClearStatus,
    UpdateStatus,
    OpenOverlay { effort: Option<Seq<char>> },
    UpdateOverlay,
    Redraw,
    ShowSource { text: Seq<char> },
    EditSource { text: Seq<char> },
    BindEdited {
        thread_id: Seq<char>,
        /// What was shown is what a tool call asks for.
        call: Option<Seq<char>>,
        /// What was shown is a saved workflow, which is edited.
        saved: Option<Seq<char>>,
        /// What was shown is a script, which is edited further.
        script: Option<Seq<char>>,
        /// The arguments of the run, where it has any; those of a tool call are its own.
        args: Option<Seq<char>>,
        text: Seq<char>,
    },
    PreviewSaved { thread_id: Seq<char>, name: Seq<char>, args: Option<Seq<char>> },
    PreviewCall { request_id: Seq<char>, thread_id: Seq<char> },
    InjectFeedback { thread: ThreadId, text: Seq<char> },
    LaunchSaved {
        thread_id: Seq<char>,
        /// The saved workflow, or none for a script.
        saved: Option<Seq<char>>,
        script: Option<Seq<char>>,
        args: Option<Seq<char>>,
        preview: Option<WorkflowSourcePreview>,
    },
    LaunchCall {
        request_id: Seq<char>,
        thread_id: Seq<char>,
        preview: Option<WorkflowSourcePreview>,
    },
    RememberNamed { thread_id: Seq<char>, name: Seq<char>, digest: Seq<char> },
    RememberCall {
        request_id: Seq<char>,
        thread_id: Seq<char>,
        auto_first: bool,
        /// The name and the digest of a saved workflow.
        named: Option<(Seq<char>, Seq<char>)>,
    },
    Respond { request_id: Seq<char>, items: Seq<Seq<char>>, success: bool },
    ApplyEffort { label: Seq<char> },
    InjectCompletion {
        session: Seq<char>,
        thread: ThreadId,
        run_id: Seq<char>,
        attempt: u64,
        summary: Seq<char>,
    },
    ForwardToolCall { peer: u64, id: Seq<char> },
    ForwardRequest { peer: u64, id: Seq<char> },
    StartWorker { peer: u64, id: Seq<char>, parent: Seq<char> },
    PrepareWorkspace { peer: u64, id: Seq<char> },
    ReleaseWorkspace { peer: u64, id: Seq<char> },
    InterruptWorker { peer: u64, id: Seq<char>, thread: ThreadId, turn: Seq<char> },
    Refuse { peer: u64, id: Seq<char>, code: Seq<char>, message: Seq<char>, unresolved: bool },
}

impl View for WorkflowAction {
    type V = Act;

    open spec fn view(&self) -> Act {
        match *self {
            WorkflowAction::OpenSession { thread_id, isolated } => Act::OpenSession {
                thread_id: thread_id@,
                isolated,
            },
            WorkflowAction::QueueLoad { thread_id } => Act::QueueLoad { thread_id: thread_id@ },
            WorkflowAction::QueueRefresh => Act::QueueRefresh,
            WorkflowAction::LoadCommands { thread_id } => Act::LoadCommands {
                thread_id: thread_id@,
            },
            WorkflowAction::CheckSaved { thread_id, name, args } => Act::CheckSaved {
                thread_id: thread_id@,
                name: name@,
                args: option_text(args),
            },
            WorkflowAction::CheckNamed { request_id, thread_id, name } => Act::CheckNamed {
                request_id: request_id@,
                thread_id: thread_id@,
                name: name@,
            },
            WorkflowAction::ListRuns { peer } => Act::ListRuns { peer },
            WorkflowAction::ListRunsToOpen { thread_id, effort } => Act::ListRunsToOpen {
                thread_id: thread_id@,
                effort: option_text(effort),
            },
            WorkflowAction::ListFirstRuns { thread_id, effort } => Act::ListFirstRuns {
                thread_id: thread_id@,
                effort: option_text(effort),
            },
            WorkflowAction::Fail { text } => Act::Fail { text: text@ },
            WorkflowAction::ShowError { text } => Act::ShowError { text: text@ },
            WorkflowAction::ShowInfo { text, detail } => Act::ShowInfo {
                text: text@,
                detail: option_text(detail),
            },
            WorkflowAction::ClearStatus => Act::ClearStatus,
            WorkflowAction::UpdateStatus => Act::UpdateStatus,
            WorkflowAction::OpenOverlay { effort } => Act::OpenOverlay {
                effort: option_text(effort),
            },
            WorkflowAction::UpdateOverlay => Act::UpdateOverlay,
            WorkflowAction::Redraw => Act::Redraw,
            WorkflowAction::ShowSource { text } => Act::ShowSource { text: text@ },
            WorkflowAction::EditSource { text } => Act::EditSource { text: text@ },
            WorkflowAction::BindEdited { thread_id, edited, text } => Act::BindEdited {
                thread_id: thread_id@,
                call: match edited {
                    EditedSource::Call { request_id } => Some(request_id@),
                    _ => None,
                },
                saved: match edited {
                    EditedSource::Run { source: LaunchSource::Saved { name }, args } => Some(name@),
                    _ => None,
                },
                script: match edited {
                    EditedSource::Run { source: LaunchSource::Script { source }, args } => Some(
                        source@,
                    ),
                    _ => None,
                },
                args: match edited {
                    EditedSource::Run { source, args } => option_text(args),
                    _ => None,
                },
                text: text@,
            },
            WorkflowAction::PreviewSaved { thread_id, name, args } => Act::PreviewSaved {
                thread_id: thread_id@,
                name: name@,
                args: option_text(args),
            },
            WorkflowAction::PreviewCall { request_id, thread_id } => Act::PreviewCall {
                request_id: request_id@,
                thread_id: thread_id@,
            },
            WorkflowAction::InjectFeedback { thread, text } => Act::InjectFeedback {
                thread,
                text: text@,
            },
            WorkflowAction::LaunchSaved { thread_id, source, args, preview } => Act::LaunchSaved {
                thread_id: thread_id@,
                saved: match source {
                    LaunchSource::Saved { name } => Some(name@),
                    LaunchSource::Script { source } => None,
                },
                script: match source {
                    LaunchSource::Saved { name } => None,
                    LaunchSource::Script { source } => Some(source@),
                },
                args: option_text(args),
                preview,
            },
            WorkflowAction::LaunchCall { request_id, thread_id, preview } => Act::LaunchCall {
                request_id: request_id@,
                thread_id: thread_id@,
                preview,
            },
            WorkflowAction::RememberNamed { thread_id, name, digest } => Act::RememberNamed {
                thread_id: thread_id@,
                name: name@,
                digest: digest@,
            },
            WorkflowAction::RememberCall { request_id, thread_id, auto_first, named } => {
                Act::RememberCall {
                    request_id: request_id@,
                    thread_id: thread_id@,
                    auto_first,
                    named: match named {
                        Some(source) => Some((source.name@, source.digest@)),
                        None => None,
                    },
                }
            },
            WorkflowAction::Respond { request_id, items, success } => Act::Respond {
                request_id: request_id@,
                items: texts(items@),
                success,
            },
            WorkflowAction::ApplyEffort { label } => Act::ApplyEffort { label: label@ },
            WorkflowAction::InjectCompletion { session, thread, run_id, attempt, summary } => {
                Act::InjectCompletion {
                    session: session@,
                    thread,
                    run_id: run_id@,
                    attempt,
                    summary: summary@,
                }
            },
            WorkflowAction::ForwardToolCall { peer, id } => Act::ForwardToolCall { peer, id: id@ },
            WorkflowAction::ForwardRequest { peer, id } => Act::ForwardRequest { peer, id: id@ },
            WorkflowAction::StartWorker { peer, id, parent } => Act::StartWorker {
                peer,
                id: id@,
                parent: parent@,
            },
            WorkflowAction::PrepareWorkspace { peer, id } => Act::PrepareWorkspace {
                peer,
                id: id@,
            },
            WorkflowAction::ReleaseWorkspace { peer, id } => Act::ReleaseWorkspace {
                peer,
                id: id@,
            },
            WorkflowAction::InterruptWorker { peer, id, thread, turn } => Act::InterruptWorker {
                peer,
                id: id@,
                thread,
                turn: turn@,
            },
            WorkflowAction::Refuse { peer, id, error } => Act::Refuse {
                peer,
                id: id@,
                code: error.code@,
                message: error.message@,
                unresolved: error.outcome_unresolved,
            },
        }
    }
}

/// What the actions are.
pub open spec fn acts(actions: Seq<WorkflowAction>) -> Seq<Act> {
    actions.map_values(|action: WorkflowAction| action@)
}

/// One action more.
pub proof fn acts_of_push(actions: Seq<WorkflowAction>, action: WorkflowAction)
    ensures
        acts(actions.push(action)) == acts(actions).push(action@),
{
    assert(acts(actions.push(action)) =~= acts(actions).push(action@));
}

/// A list of one action.
pub fn just(action: WorkflowAction) -> (res: Vec<WorkflowAction>)
    ensures
        acts(res@) == seq![action@],
{
    let mut actions: Vec<WorkflowAction> = Vec::new();
    actions.push(action);
    assert(acts(actions@) =~= seq![action@]);
    actions
}

/// Adds an action to a list.
pub fn add_action(actions: &mut Vec<WorkflowAction>, action: WorkflowAction)
    ensures
        acts(final(actions)@) == acts(old(actions)@).push(action@),
{
    proof {
        acts_of_push(actions@, action);
    }
    actions.push(action);
}

/// Adds a list of actions to another.
pub fn add_actions(actions: &mut Vec<WorkflowAction>, mut more: Vec<WorkflowAction>)
    ensures
        acts(final(actions)@) == acts(old(actions)@) + acts(more@),
{
    let ghost before = actions@;
    let ghost added = more@;
    actions.append(&mut more);
    assert(acts(actions@) =~= acts(before) + acts(added));
}

} // verus!
