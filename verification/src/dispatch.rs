//! The events of workflows and the notifications of their workers, each with what it leads to.
use crate::action::{acts, just, Act, WorkflowAction};
use crate::app::{
    asks, asks_first, is_current, same_but_commands, same_but_consent, same_but_sessions, sessions,
    App,
};
use crate::bridge::BridgeError;
use crate::catalog::{any_active, commands, digest_among, named_items, saved_items, Command};
use crate::consent::{WorkflowConsentChoice, WorkflowConsentContext, WorkflowConsentFeedback};
use crate::editing::{edit_acts, is_bound_shown, is_edit_taken, BoundEdit};
use crate::events::{
    activity_is_noted, host_request_acts, is_opened, is_peer_choice, is_ready, is_worker_start_handled,
    open_acts, refresh_acts, refused, report_is_due, report_is_noted, run_changed_acts, save_acts,
    snapshot_acts, StartRefusal, StartedWorker, WorkerStart,
};
use crate::ids::uuid_text;
use crate::json::{tree, Json};
use crate::launch::{
    call_launched_acts, call_remembered_acts, consent_acts, decided_acts, load_acts, run_consent,
    run_saved_consent, runs_unasked, saved_consent_acts, saved_launched_acts, tool_call_acts,
    CallLaunch, SavedLaunch, ToolCall, ToolResponse,
};
use crate::ledger::attempt_of;
use crate::render::{sanitize, sanitized, WorkflowPreviewMode, WorkflowSourcePreview};
use crate::session::{
    is_observed, is_result, same_but_workers, session_of_worker, worker_result, PendingWorker,
    TurnEnd, WorkerNotification, WorkerResult,
};
use crate::text::{option_text, plus, plus3};
use vstd::prelude::*;
use vstd::string::*;

verus! {

/// What happens to workflows: what the user does, what a process asks for, and what came of an
/// action.
pub enum WorkflowEvent {
    LoadCatalog { thread_id: String },
    /// The process of a parent's session was started or found.
    SessionOpened { thread_id: String, peer: u64, supervised: bool },
    CatalogLoaded { thread_id: String, peer: u64, catalog: serde_json::Value },
    RunSaved { name: String, args: Option<String> },
    SavedListed {
        thread_id: String,
        name: String,
        args: Option<String>,
        catalog: serde_json::Value,
        remembered: bool,
    },
    SavedPreviewed {
        thread_id: String,
        name: String,
        args: Option<String>,
        preview: WorkflowSourcePreview,
    },
    RunSavedConsent {
        thread_id: String,
        name: String,
        args: Option<String>,
        choice: WorkflowConsentChoice,
        feedback: Option<String>,
        shown: Option<WorkflowSourcePreview>,
    },
    SavedLaunched { launch: SavedLaunch },
    ToolCall { call: ToolCall, auto_remembered: bool },
    CallListed {
        call: ToolCall,
        name: String,
        catalog: serde_json::Value,
        auto_remembered: bool,
        remembered: bool,
    },
    CallPreviewed { call: ToolCall, preview: WorkflowSourcePreview },
    Consent {
        call: ToolCall,
        choice: WorkflowConsentChoice,
        feedback: Option<String>,
        shown: Option<WorkflowSourcePreview>,
    },
    CallLaunched {
        call: ToolCall,
        choice: WorkflowConsentChoice,
        feedback: Option<String>,
        outcome: Result<CallLaunch, String>,
    },
    CallRemembered {
        request_id: String,
        /// What the launch was answered with.
        response: ToolResponse,
        feedback: Option<String>,
        stored: Result<(), String>,
    },
    ViewScript { thread_id: String, source: String },
    ToggleWorkflowPreview {
        context: WorkflowConsentContext,
        typed: WorkflowConsentFeedback,
        preview: WorkflowSourcePreview,
        mode: WorkflowPreviewMode,
    },
    EditWorkflowSource,
    EditorClosed { typed: WorkflowConsentFeedback, edited: Result<String, String> },
    EditBound { typed: WorkflowConsentFeedback, bound: Result<BoundEdit, String> },
    Open { effort: Option<String> },
    Ready {
        thread_id: String,
        peer: u64,
        supervised: bool,
        effort: Option<String>,
        snapshot: serde_json::Value,
    },
    ReadyFailed { error: String },
    Refresh,
    RunChanged { peer: u64, run_id: String, state: Option<serde_json::Value> },
    RunReported { session: String, run_id: String, attempt: u64 },
    SaveCompleted { thread_id: String, saved: Result<String, String> },
    Snapshot { peer: u64, snapshot: serde_json::Value },
    SnapshotFailed { error: String },
    HostRequest { peer: u64, id: String, method: String, params: serde_json::Value },
    WorkerStartInvalid { peer: u64, id: String, error: String },
    WorkerStartEnded {
        peer: u64,
        start: WorkerStart,
        started: Result<StartedWorker, StartRefusal>,
    },
}

/// Whether an event leads to this state and these actions.
pub open spec fn is_handled(before: App, event: WorkflowEvent, after: App, done: Seq<Act>) -> bool {
    match event {
        WorkflowEvent::LoadCatalog { thread_id } => {
            &&& same_but_commands(before, after)
            &&& commands(after.commands@) == if is_current(before, thread_id@) {
                Seq::<Command>::empty()
            } else {
                commands(before.commands@)
            }
            &&& done == load_acts(before, thread_id@)
        },
        WorkflowEvent::SessionOpened { thread_id, peer, supervised } => {
            &&& same_but_sessions(before, after)
            &&& is_opened(sessions(before), thread_id@, peer, supervised, sessions(after))
            &&& done == Seq::<Act>::empty()
        },
        WorkflowEvent::CatalogLoaded { thread_id, peer, catalog } => {
            &&& same_but_commands(before, after)
            &&& commands(after.commands@) == if is_current(before, thread_id@) {
                named_items(saved_items(tree(catalog)))
            } else {
                commands(before.commands@)
            }
            &&& done == seq![Act::ListRuns { peer }]
        },
        WorkflowEvent::RunSaved { name, args } => {
            &&& after == before
            &&& done == match before.thread_id {
                None => seq![Act::Fail { text: "Parent session is unavailable"@ }],
                Some(id) => seq![
                    Act::OpenSession { thread_id: uuid_text(id.value), isolated: false },
                    Act::CheckSaved {
                        thread_id: uuid_text(id.value),
                        name: name@,
                        args: option_text(args),
                    },
                ],
            }
        },
        WorkflowEvent::SavedListed { thread_id, name, args, catalog, remembered } => {
            &&& after == before
            &&& done == if runs_unasked(
                before,
                digest_among(saved_items(tree(catalog)), name@),
                remembered,
            ) {
                saved_consent_acts(
                    thread_id@,
                    name@,
                    option_text(args),
                    WorkflowConsentChoice::Run,
                    None,
                    None,
                )
            } else {
                seq![
                    Act::PreviewSaved {
                        thread_id: thread_id@,
                        name: name@,
                        args: option_text(args),
                    },
                ]
            }
        },
        WorkflowEvent::SavedPreviewed { thread_id, name, args, preview } => {
            &&& same_but_consent(before, after)
            &&& asks_first(
                after.consent,
                (WorkflowConsentContext::Saved { thread_id, name, args }),
                preview,
                before.cwd@,
            )
            &&& done == Seq::<Act>::empty()
        },
        WorkflowEvent::RunSavedConsent { thread_id, name, args, choice, feedback, shown } => {
            &&& after == before
            &&& done == saved_consent_acts(
                thread_id@,
                name@,
                option_text(args),
                choice,
                option_text(feedback),
                shown,
            )
        },
        WorkflowEvent::SavedLaunched { launch } => {
            &&& after == before
            &&& done == saved_launched_acts(before, launch)
        },
        WorkflowEvent::ToolCall { call, auto_remembered } => {
            &&& after == before
            &&& done == tool_call_acts(before, call, auto_remembered)
        },
        WorkflowEvent::CallListed { call, name, catalog, auto_remembered, remembered } => {
            &&& after == before
            &&& done == decided_acts(
                before,
                call,
                auto_remembered,
                digest_among(saved_items(tree(catalog)), name@) is Some && remembered,
            )
        },
        WorkflowEvent::CallPreviewed { call, preview } => {
            &&& same_but_consent(before, after)
            &&& asks_first(
                after.consent,
                (WorkflowConsentContext::Dynamic {
                    request_id: call.request_id,
                    thread_id: call.thread_id,
                    workflow_name: call.workflow_name,
                    inline: call.inline,
                }),
                preview,
                before.cwd@,
            )
            &&& done == Seq::<Act>::empty()
        },
        WorkflowEvent::Consent { call, choice, feedback, shown } => {
            &&& after == before
            &&& done == consent_acts(
                call.request_id@,
                call.thread_id@,
                choice,
                option_text(feedback),
                shown,
            )
        },
        WorkflowEvent::CallLaunched { call, choice, feedback, outcome } => {
            &&& after == before
            &&& done == call_launched_acts(
                before,
                call,
                choice,
                option_text(feedback),
                outcome,
            )
        },
        WorkflowEvent::CallRemembered { request_id, response, feedback, stored } => {
            &&& after == before
            &&& done == call_remembered_acts(
                request_id@,
                response,
                option_text(feedback),
                stored,
            )
        },
        WorkflowEvent::ViewScript { thread_id, source } => {
            &&& after == before
            &&& done == if is_current(before, thread_id@) {
                seq![Act::ShowSource { text: sanitized(source@) }]
            } else {
                Seq::empty()
            }
        },
        WorkflowEvent::ToggleWorkflowPreview { context, typed, preview, mode } => {
            &&& same_but_consent(before, after)
            &&& asks(after.consent, context, typed, preview, mode, before.cwd@)
            &&& done == Seq::<Act>::empty()
        },
        WorkflowEvent::EditWorkflowSource => {
            &&& after == before
            &&& done == edit_acts(before)
        },
        WorkflowEvent::EditorClosed { typed, edited } => is_edit_taken(
            before,
            typed,
            edited,
            after,
            done,
        ),
        WorkflowEvent::EditBound { typed, bound } => is_bound_shown(
            before,
            typed,
            bound,
            after,
            done,
        ),
        WorkflowEvent::Open { effort } => {
            &&& after == before
            &&& done == open_acts(before, option_text(effort))
        },
        WorkflowEvent::Ready { thread_id, peer, supervised, effort, snapshot } => {
            &&& same_but_sessions(before, after)
            &&& is_ready(
                sessions(before),
                thread_id@,
                peer,
                supervised,
                any_active(tree(snapshot)),
                sessions(after),
            )
            &&& done == seq![Act::OpenOverlay { effort: option_text(effort) }, Act::Redraw]
        },
        WorkflowEvent::ReadyFailed { error } => {
            &&& after == before
            &&& done == seq![Act::ShowError { text: "Unable to open workflows: "@ + error@ }]
        },
        WorkflowEvent::Refresh => {
            &&& after == before
            &&& done == refresh_acts(before)
        },
        WorkflowEvent::RunChanged { peer, run_id, state } => {
            &&& after == before
            &&& is_change_told(before, peer, run_id@, option_tree(state), done)
        },
        WorkflowEvent::RunReported { session, run_id, attempt } => {
            &&& same_but_sessions(before, after)
            &&& report_is_noted(
                sessions(before),
                session@,
                run_id@,
                attempt,
                sessions(after),
            )
            &&& done == Seq::<Act>::empty()
        },
        WorkflowEvent::SaveCompleted { thread_id, saved } => {
            &&& after == before
            &&& done == save_acts(
                before,
                thread_id@,
                match saved {
                    Ok(path) => Ok(path@),
                    Err(message) => Err(message@),
                },
            )
        },
        WorkflowEvent::Snapshot { peer, snapshot } => {
            &&& same_but_sessions(before, after)
            &&& activity_is_noted(
                sessions(before),
                peer,
                any_active(tree(snapshot)),
                sessions(after),
            )
            &&& done == snapshot_acts(after, peer)
        },
        WorkflowEvent::SnapshotFailed { error } => {
            &&& after == before
            &&& done == seq![Act::ShowError { text: "Unable to refresh workflows: "@ + error@ }]
        },
        WorkflowEvent::HostRequest { peer, id, method, params } => {
            &&& after == before
            &&& is_request_routed(before, peer, id@, method@, tree(params), done)
        },
        WorkflowEvent::WorkerStartInvalid { peer, id, error } => {
            &&& after == before
            &&& done == seq![
                refused(
                    peer,
                    id@,
                    "HOST_ERROR"@,
                    "invalid worker start request: "@ + error@,
                ),
            ]
        },
        WorkflowEvent::WorkerStartEnded { peer, start, started } => {
            &&& same_but_sessions(before, after)
            &&& is_worker_start_handled(
                sessions(before),
                peer,
                start,
                started,
                sessions(after),
                done,
            )
        },
    }
}

/// What a value holds, where there is one.
pub open spec fn option_tree(value: Option<serde_json::Value>) -> Option<Json> {
    match value {
        Some(value) => Some(tree(value)),
        None => None,
    }
}

/// Whether a change of a run leads to these actions.
pub open spec fn is_change_told(
    app: App,
    peer: u64,
    run_id: Seq<char>,
    state: Option<Json>,
    done: Seq<Act>,
) -> bool {
    exists|key: Option<Seq<char>>| #[trigger]
        is_peer_choice(sessions(app), peer, key) && done == run_changed_acts(
            app,
            key,
            peer,
            run_id,
            state,
        )
}

/// Whether a request of a process leads to these actions.
pub open spec fn is_request_routed(
    app: App,
    peer: u64,
    id: Seq<char>,
    method: Seq<char>,
    params: Json,
    done: Seq<Act>,
) -> bool {
    exists|key: Option<Seq<char>>| #[trigger]
        is_peer_choice(sessions(app), peer, key) && done == host_request_acts(
            key,
            peer,
            id,
            method,
            params,
        )
}

/// No actions.
fn nothing() -> (res: Vec<WorkflowAction>)
    ensures
        acts(res@) == Seq::<Act>::empty(),
{
    let actions: Vec<WorkflowAction> = Vec::new();
    assert(acts(actions@) =~= Seq::<Act>::empty());
    actions
}

impl App {
    /// Handles an event.
    pub fn handle_workflow_event(&mut self, event: WorkflowEvent) -> (res: Vec<WorkflowAction>)
        requires
            old(self).well_formed(),
        ensures
            final(self).well_formed(),
            is_handled(*old(self), event, *final(self), acts(res@)),
    {
        match event {
            WorkflowEvent::LoadCatalog { thread_id } => self.load_catalog(thread_id),
            WorkflowEvent::SessionOpened { thread_id, peer, supervised } => {
                self.session_opened(thread_id, peer, supervised);
                nothing()
            },
            WorkflowEvent::CatalogLoaded { thread_id, peer, catalog } => self.catalog_loaded(
                thread_id.as_str(),
                peer,
                &catalog,
            ),
            WorkflowEvent::RunSaved { name, args } => self.run_saved(name, args),
            WorkflowEvent::SavedListed { thread_id, name, args, catalog, remembered } => {
                self.saved_listed(thread_id, name, args, &catalog, remembered)
            },
            WorkflowEvent::SavedPreviewed { thread_id, name, args, preview } => {
                self.show_saved_workflow_consent(thread_id, name, args, preview);
                nothing()
            },
            WorkflowEvent::RunSavedConsent { thread_id, name, args, choice, feedback, shown } => {
                run_saved_consent(thread_id, name, args, choice, feedback, shown)
            },
            WorkflowEvent::SavedLaunched { launch } => self.saved_launched(launch),
            WorkflowEvent::ToolCall { call, auto_remembered } => self.tool_called(
                call,
                auto_remembered,
            ),
            WorkflowEvent::CallListed { call, name, catalog, auto_remembered, remembered } => {
                self.call_listed(call, name.as_str(), &catalog, auto_remembered, remembered)
            },
            WorkflowEvent::CallPreviewed { call, preview } => {
                self.show_workflow_consent(
                    call.request_id,
                    call.thread_id,
                    call.workflow_name,
                    call.inline,
                    preview,
                );
                nothing()
            },
            WorkflowEvent::Consent { call, choice, feedback, shown } => run_consent(
                call.request_id,
                call.thread_id,
                choice,
                feedback,
                shown,
            ),
            WorkflowEvent::CallLaunched { call, choice, feedback, outcome } => {
                self.call_launched(call, choice, feedback, outcome)
            },
            WorkflowEvent::CallRemembered { request_id, response, feedback, stored } => {
                self.call_remembered(request_id, response, feedback, stored)
            },
            WorkflowEvent::ViewScript { thread_id, source } => {
                if self.sees(thread_id.as_str()) {
                    just(WorkflowAction::ShowSource { text: sanitize(source.as_str()) })
                } else {
                    nothing()
                }
            },
            WorkflowEvent::ToggleWorkflowPreview { context, typed, preview, mode } => {
                self.show_workflow_consent_context(context, &typed, preview, mode);
                nothing()
            },
            WorkflowEvent::EditWorkflowSource => self.edit_source(),
            WorkflowEvent::EditorClosed { typed, edited } => self.editor_closed(&typed, edited),
            WorkflowEvent::EditBound { typed, bound } => self.edit_bound(&typed, bound),
            WorkflowEvent::Open { effort } => self.open_workflows(effort),
            WorkflowEvent::Ready { thread_id, peer, supervised, effort, snapshot } => {
                self.runs_ready(thread_id, peer, supervised, effort, &snapshot)
            },
            WorkflowEvent::ReadyFailed { error } => just(
                WorkflowAction::ShowError {
                    text: plus("Unable to open workflows: ", error.as_str()),
                },
            ),
            WorkflowEvent::Refresh => self.refresh(),
            WorkflowEvent::RunChanged { peer, run_id, state } => self.run_changed(
                peer,
                run_id,
                state.as_ref(),
            ),
            WorkflowEvent::RunReported { session, run_id, attempt } => {
                self.run_reported(session, run_id, attempt);
                nothing()
            },
            WorkflowEvent::SaveCompleted { thread_id, saved } => self.save_completed(
                thread_id,
                saved,
            ),
            WorkflowEvent::Snapshot { peer, snapshot } => self.snapshot_taken(peer, &snapshot),
            WorkflowEvent::SnapshotFailed { error } => just(
                WorkflowAction::ShowError {
                    text: plus("Unable to refresh workflows: ", error.as_str()),
                },
            ),
            WorkflowEvent::HostRequest { peer, id, method, params } => self.host_requested(
                peer,
                id,
                method.as_str(),
                &params,
            ),
            WorkflowEvent::WorkerStartInvalid { peer, id, error } => just(
                WorkflowAction::Refuse {
                    peer,
                    id,
                    error: BridgeError::host(
                        plus("invalid worker start request: ", error.as_str()).as_str(),
                    ),
                },
            ),
            WorkflowEvent::WorkerStartEnded { peer, start, started } => self.worker_start_ended(
                peer,
                start,
                started,
            ),
        }
    }
}

/// What is told of a thread.
pub enum ThreadNotification {
    Running(WorkerNotification),
    TurnCompleted(TurnEnd),
}

/// A worker that ended, with what its process and the user are told.
#[derive(Debug)]
pub struct FinishedWorker {
    pub request_id: String,
    pub result: Result<WorkerResult, BridgeError>,
    /// What the user is told, where the worker has a result.
    pub note: Option<(String, String)>,
}

/// What a notification concerned.
#[derive(Debug)]
pub enum NotificationEffect {
    /// No worker of a workflow.
    Nobody,
    /// A worker of this session; its process is told.
    Updated { session: String },
    /// A worker of this session, which is now gone from it.
    Finished { session: String, worker: FinishedWorker },
}

/// Whether a notification about no pending worker changes nothing.
pub open spec fn concerns_nobody(app: App, thread_id: Seq<char>) -> bool {
    forall|key: Seq<char>| #[trigger]
        sessions(app).dom().contains(key)
            ==> !sessions(app)[key].pending_workers.map().dom().contains(thread_id)
}

/// Whether a worker is pending in a session.
pub open spec fn is_pending(app: App, key: Seq<char>, thread_id: Seq<char>) -> bool {
    sessions(app).dom().contains(key) && sessions(app)[key].pending_workers.map().dom().contains(
        thread_id,
    )
}

/// Whether a session is the same but for one pending worker.
pub open spec fn same_but_worker(
    before: App,
    key: Seq<char>,
    workers: Map<Seq<char>, PendingWorker>,
    after: App,
) -> bool {
    &&& same_but_sessions(before, after)
    &&& sessions(after) == sessions(before).insert(key, sessions(after)[key])
    &&& same_but_workers(sessions(after)[key], sessions(before)[key])
    &&& sessions(after)[key].pending_workers.map() == workers
}

/// Whether a worker is told of as having ended.
pub open spec fn is_finished(
    worker: PendingWorker,
    thread_id: Seq<char>,
    end: TurnEnd,
    finished: FinishedWorker,
) -> bool {
    &&& finished.request_id == worker.request_id
    &&& is_result(worker, thread_id, end, finished.result)
    &&& match finished.note {
        Some((text, detail)) => {
            &&& finished.result is Ok
            &&& text@ == "Workflow worker "@ + worker.worker_id@ + " finished"@
            &&& detail@ == "Run "@ + worker.run_id@ + " · "@ + end.status.word()
        },
        None => finished.result is Err,
    }
}

/// Whether a notification leads to this.
pub open spec fn is_notified(
    before: App,
    thread_id: Seq<char>,
    notification: ThreadNotification,
    after: App,
    effect: NotificationEffect,
) -> bool {
    match effect {
        NotificationEffect::Nobody => after == before && concerns_nobody(before, thread_id),
        NotificationEffect::Updated { session } => {
            &&& is_pending(before, session@, thread_id)
            &&& is_pending(after, session@, thread_id)
            &&& notification matches ThreadNotification::Running(news)
            &&& is_observed(
                sessions(before)[session@].pending_workers.map()[thread_id],
                news,
                sessions(after)[session@].pending_workers.map()[thread_id],
            )
            &&& same_but_worker(
                before,
                session@,
                sessions(before)[session@].pending_workers.map().insert(
                    thread_id,
                    sessions(after)[session@].pending_workers.map()[thread_id],
                ),
                after,
            )
        },
        NotificationEffect::Finished { session, worker } => {
            &&& is_pending(before, session@, thread_id)
            &&& notification matches ThreadNotification::TurnCompleted(end)
            &&& is_finished(
                sessions(before)[session@].pending_workers.map()[thread_id],
                thread_id,
                end,
                worker,
            )
            &&& same_but_worker(
                before,
                session@,
                sessions(before)[session@].pending_workers.map().remove(thread_id),
                after,
            )
        },
    }
}

/// Ends a worker: what its process is answered, and what the user is told.
fn finish_worker(worker: PendingWorker, thread_id: &str, end: TurnEnd) -> (res: FinishedWorker)
    ensures
        is_finished(worker, thread_id@, end, res),
{
    let request_id = worker.request_id.clone();
    let text = plus3("Workflow worker ", worker.worker_id.as_str(), " finished");
    let mut detail = plus3("Run ", worker.run_id.as_str(), " · ");
    detail.append(end.status.text().as_str());
    let result = worker_result(worker, thread_id, end);
    let note = match &result {
        Ok(_) => Some((text, detail)),
        Err(_) => None,
    };
    FinishedWorker { request_id, result, note }
}

impl App {
    /// Whether every pending worker can still be told of.
    pub open spec fn can_count(self) -> bool {
        forall|key: Seq<char>, thread: Seq<char>| #[trigger]
            is_pending(self, key, thread)
                ==> sessions(self)[key].pending_workers.map()[thread].revision < u64::MAX
    }

    /// Takes a notification about a thread.
    pub fn handle_workflow_notification(
        &mut self,
        thread_id: &str,
        notification: ThreadNotification,
    ) -> (res: NotificationEffect)
        requires
            old(self).well_formed(),
            old(self).can_count(),
        ensures
            final(self).well_formed(),
            is_notified(*old(self), thread_id@, notification, *final(self), res),
    {
        let ghost before = sessions(*self);
        let ghost thread = thread_id@;
        let key = match session_of_worker(&self.workflow_sessions, thread_id) {
            Some(key) => key,
            None => {
                return NotificationEffect::Nobody;
            },
        };
        let ghost name = key@;
        assert(is_pending(*self, name, thread));
        let mut session = match self.workflow_sessions.remove(key.as_str()) {
            Some(session) => session,
            None => {
                return NotificationEffect::Nobody;
            },
        };
        let ghost workers = session.pending_workers.map();
        let worker = match session.pending_workers.remove(thread_id) {
            Some(worker) => worker,
            None => {
                return NotificationEffect::Nobody;
            },
        };
        match notification {
            ThreadNotification::Running(news) => {
                let mut worker = worker;
                worker.observe(news);
                session.pending_workers.insert(thread_id.to_owned(), worker);
                self.workflow_sessions.insert(key.clone(), session);
                assert(sessions(*self) =~= before.insert(name, session));
                assert(session.pending_workers.map() =~= workers.insert(thread, worker));
                NotificationEffect::Updated { session: key }
            },
            ThreadNotification::TurnCompleted(end) => {
                self.workflow_sessions.insert(key.clone(), session);
                assert(sessions(*self) =~= before.insert(name, session));
                let worker = finish_worker(worker, thread_id, end);
                NotificationEffect::Finished { session: key, worker }
            },
        }
    }
}

/// A parent is told of the end of a run at most once for each attempt: once it was told, no news of
/// the run tells it again.
pub proof fn end_is_told_once(
    before: App,
    session: Seq<char>,
    run_id: Seq<char>,
    state: Json,
    after: App,
)
    requires
        sessions(before).dom().contains(session),
        report_is_noted(
            sessions(before),
            session,
            run_id,
            attempt_of(state),
            sessions(after),
        ),
    ensures
        !report_is_due(sessions(after)[session], run_id, state),
{
}

/// The process of an opened session is known: its requests to start workers find a parent that it
/// serves, which is the one it was opened for unless it serves others too, and news of its runs are
/// looked at.
pub proof fn opened_session_is_found(
    before: App,
    thread_id: String,
    peer: u64,
    supervised: bool,
    after: App,
    id: Seq<char>,
    params: Json,
    routed: Seq<Act>,
    run_id: Seq<char>,
    state: Option<Json>,
    told: Seq<Act>,
)
    requires
        is_handled(
            before,
            WorkflowEvent::SessionOpened { thread_id, peer, supervised },
            after,
            Seq::<Act>::empty(),
        ),
        sessions(before).dom().contains(thread_id@) ==> sessions(before)[thread_id@].peer == peer,
        is_request_routed(after, peer, id, "worker.start"@, params, routed),
        is_change_told(after, peer, run_id, state, told),
    ensures
        sessions(after).dom().contains(thread_id@) && sessions(after)[thread_id@].peer == peer,
        exists|parent: Seq<char>| #[trigger]
            sessions(after).dom().contains(parent) && sessions(after)[parent].peer == peer && routed
                == seq![Act::StartWorker { peer, id, parent }],
        (forall|other: Seq<char>| #[trigger]
            sessions(after).dom().contains(other) && sessions(after)[other].peer == peer ==> other
                == thread_id@) ==> routed == seq![
            Act::StartWorker { peer, id, parent: thread_id@ },
        ],
        told.len() > 0 && told[0] == (Act::ListRuns { peer }),
{
    assert(sessions(after).dom().contains(thread_id@));
    reveal_strlit("worker.start");
    reveal_strlit("supervisor.workflow");
    reveal_strlit("supervisor.request");
    let key = choose|key: Option<Seq<char>>| #[trigger]
        is_peer_choice(sessions(after), peer, key) && routed == host_request_acts(
            key,
            peer,
            id,
            "worker.start"@,
            params,
        );
    assert(key is Some);
    assert(sessions(after).dom().contains(key->Some_0));
    assert("worker.start"@.len() != "supervisor.workflow"@.len());
    assert("worker.start"@.len() != "supervisor.request"@.len());
    let heard = choose|key: Option<Seq<char>>| #[trigger]
        is_peer_choice(sessions(after), peer, key) && told == run_changed_acts(
            after,
            key,
            peer,
            run_id,
            state,
        );
    assert(heard is Some);
}

/// A parent whose process is supervised is told of the end of a run by nobody here.
pub proof fn supervised_runs_are_not_told(
    app: App,
    key: Seq<char>,
    peer: u64,
    run_id: Seq<char>,
    state: Option<Json>,
)
    requires
        sessions(app).dom().contains(key),
        sessions(app)[key].supervised,
    ensures
        run_changed_acts(app, Some(key), peer, run_id, state) == seq![Act::ListRuns { peer }],
{
}

/// A worker is answered once: when its turn has ended it is gone from its session, and a second
/// notification of that end finds it in no session if it ran in one alone.
pub proof fn worker_is_answered_once(
    before: App,
    thread_id: Seq<char>,
    end: TurnEnd,
    middle: App,
    session: String,
    worker: FinishedWorker,
    after: App,
    effect: NotificationEffect,
)
    requires
        forall|a: Seq<char>, b: Seq<char>|
            is_pending(before, a, thread_id) && is_pending(before, b, thread_id) ==> a == b,
        is_notified(
            before,
            thread_id,
            ThreadNotification::TurnCompleted(end),
            middle,
            NotificationEffect::Finished { session, worker },
        ),
        is_notified(
            middle,
            thread_id,
            ThreadNotification::TurnCompleted(end),
            after,
            effect,
        ),
    ensures
        effect is Nobody,
        after == middle,
{
    assert forall|key: Seq<char>| !is_pending(middle, key, thread_id) by {
        if is_pending(middle, key, thread_id) {
            if key == session@ {
                assert(false);
            } else {
                assert(is_pending(before, key, thread_id));
                assert(is_pending(before, session@, thread_id));
            }
        }
    }
    match effect {
        NotificationEffect::Nobody => {},
        NotificationEffect::Updated { session: found } => {
            assert(is_pending(middle, found@, thread_id));
        },
        NotificationEffect::Finished { session: found, worker: again } => {
            assert(is_pending(middle, found@, thread_id));
        },
    }
}

/// The commands are those of the thread that the user sees: a list for another thread changes nothing,
/// one for this thread takes the place of what was there, and none is offered while it is loaded.
pub proof fn commands_are_of_the_seen_thread(
    before: App,
    thread_id: String,
    peer: u64,
    catalog: serde_json::Value,
    loading: App,
    asked: Seq<Act>,
    after: App,
    done: Seq<Act>,
)
    requires
        is_handled(before, WorkflowEvent::LoadCatalog { thread_id }, loading, asked),
        is_handled(
            loading,
            WorkflowEvent::CatalogLoaded { thread_id, peer, catalog },
            after,
            done,
        ),
    ensures
        asked.last() == (Act::LoadCommands { thread_id: thread_id@ }),
        done == seq![Act::ListRuns { peer }],
        is_current(before, thread_id@) ==> commands(loading.commands@).len() == 0
            && commands(after.commands@) == named_items(saved_items(tree(catalog))),
        !is_current(before, thread_id@) ==> commands(loading.commands@) == commands(
            before.commands@,
        ) && commands(after.commands@) == commands(before.commands@),
        after.consent == before.consent && after.workflow_sessions == before.workflow_sessions,
{
}

/// Only what asks the user, and what the user edits or looks at in another way, changes the question;
/// only news of processes and their workers change the sessions; only the lists of saved workflows
/// change the commands; and nothing changes the settings.
pub proof fn events_change_what_they_concern(
    before: App,
    event: WorkflowEvent,
    after: App,
    done: Seq<Act>,
)
    requires
        is_handled(before, event, after, done),
    ensures
        after.cwd == before.cwd && after.thread_id == before.thread_id && after.disable_workflows
            == before.disable_workflows && after.ultracode == before.ultracode
            && after.auto_review == before.auto_review && after.never_ask == before.never_ask
            && after.effort == before.effort,
        after.consent == before.consent || event is SavedPreviewed || event is CallPreviewed || event
            is ToggleWorkflowPreview || event is EditorClosed || event is EditBound,
        after.workflow_sessions == before.workflow_sessions || event is SessionOpened || event
            is Ready || event is RunReported || event is Snapshot || event is WorkerStartEnded,
        after.commands == before.commands || event is LoadCatalog || event is CatalogLoaded,
{
}

/// What is previewed is asked about: the question is about that preview, for the call or the saved
/// workflow that it was made for, and asking answers nothing and launches nothing.
pub proof fn preview_is_asked_about(
    before: App,
    call: ToolCall,
    thread_id: String,
    name: String,
    args: Option<String>,
    preview: WorkflowSourcePreview,
    after: App,
    done: Seq<Act>,
)
    ensures
        is_handled(before, WorkflowEvent::CallPreviewed { call, preview }, after, done) ==> {
            &&& done.len() == 0
            &&& after.consent is Some
            &&& after.consent->Some_0.preview == preview
            &&& after.consent->Some_0.context matches WorkflowConsentContext::Dynamic {
                request_id,
                thread_id: of,
                workflow_name,
                inline,
            } && request_id == call.request_id && of == call.thread_id && workflow_name
                == call.workflow_name && inline == call.inline
        },
        is_handled(
            before,
            WorkflowEvent::SavedPreviewed { thread_id, name, args, preview },
            after,
            done,
        ) ==> {
            &&& done.len() == 0
            &&& after.consent is Some
            &&& after.consent->Some_0.preview == preview
            &&& after.consent->Some_0.context matches WorkflowConsentContext::Saved {
                thread_id: of,
                name: named,
                args: given,
            } && of == thread_id && named == name && given == args
        },
{
}

/// A saved workflow that was looked up is shown first unless the user need not be asked: where asking
/// is switched off, or where its digest is known and was remembered.
pub proof fn listed_workflow_is_shown_first(
    before: App,
    thread_id: String,
    name: String,
    args: Option<String>,
    catalog: serde_json::Value,
    remembered: bool,
    after: App,
    done: Seq<Act>,
)
    requires
        is_handled(
            before,
            WorkflowEvent::SavedListed { thread_id, name, args, catalog, remembered },
            after,
            done,
        ),
        !before.never_ask,
        !remembered || digest_among(saved_items(tree(catalog)), name@) is None,
    ensures
        done == seq![
            Act::PreviewSaved { thread_id: thread_id@, name: name@, args: option_text(args) },
        ],
        after == before,
{
}

/// The source of another thread is not shown to the user, and none is shown but with what a terminal
/// must not get taken out.
pub proof fn seen_source_is_shown(
    before: App,
    thread_id: String,
    source: String,
    after: App,
    done: Seq<Act>,
)
    requires
        is_handled(before, WorkflowEvent::ViewScript { thread_id, source }, after, done),
    ensures
        after == before,
        is_current(before, thread_id@) <==> done.len() == 1,
        done.len() <= 1,
        done.len() == 1 ==> done[0] == (Act::ShowSource { text: sanitized(source@) }),
{
}

/// What failed is told to the user, with the cause, and what a process asked for in a form that cannot
/// be read is refused under its identity, with the cause.
pub proof fn failures_are_told(
    before: App,
    peer: u64,
    id: String,
    error: String,
    after: App,
    done: Seq<Act>,
)
    ensures
        is_handled(before, WorkflowEvent::ReadyFailed { error }, after, done) ==> after == before
            && done == seq![Act::ShowError { text: "Unable to open workflows: "@ + error@ }],
        is_handled(before, WorkflowEvent::SnapshotFailed { error }, after, done) ==> after == before
            && done == seq![Act::ShowError { text: "Unable to refresh workflows: "@ + error@ }],
        is_handled(before, WorkflowEvent::WorkerStartInvalid { peer, id, error }, after, done)
            ==> after == before && done == seq![
            Act::Refuse {
                peer,
                id: id@,
                code: "HOST_ERROR"@,
                message: "invalid worker start request: "@ + error@,
                unresolved: false,
            },
        ],
{
}

/// A notification about a worker reaches it: what it says while the worker runs is noted of this worker
/// and no other, and its end takes the worker out of its session and answers the request that started
/// it.
pub proof fn notification_reaches_its_worker(
    before: App,
    thread_id: Seq<char>,
    notification: ThreadNotification,
    after: App,
    effect: NotificationEffect,
    key: Seq<char>,
)
    requires
        is_pending(before, key, thread_id),
        is_notified(before, thread_id, notification, after, effect),
    ensures
        notification is Running <==> effect is Updated,
        notification is TurnCompleted <==> effect is Finished,
        forall|session: Seq<char>, other: Seq<char>|
            other != thread_id && #[trigger] is_pending(before, session, other) ==> is_pending(
                after,
                session,
                other,
            ) && sessions(after)[session].pending_workers.map()[other] == sessions(
                before,
            )[session].pending_workers.map()[other],
        effect matches NotificationEffect::Finished { session, worker } ==> {
            let pending = sessions(before)[session@].pending_workers.map()[thread_id];
            &&& !is_pending(after, session@, thread_id)
            &&& worker.request_id@ == pending.request_id@
            &&& worker.note is Some <==> worker.result is Ok
            &&& worker.note is Some ==> worker.note->Some_0.0@ == "Workflow worker "@
                + pending.worker_id@ + " finished"@
            &&& worker.note is Some ==> worker.note->Some_0.1@ == "Run "@ + pending.run_id@ + " · "@
                + worker.result->Ok_0.status@
        },
{
}

} // verus!
