//! What each event does to the state of the terminal application, and what is to be done about it.
use crate::action::{acts, add_action, add_actions, just, Act, WorkflowAction};
use crate::app::{is_current, same_but_sessions, sessions, App};
use crate::bridge::BridgeError;
use crate::catalog::{any_active, has_active_runs};
use crate::error::{INVALID_PARAMS, INVALID_REQUEST};
use crate::ids::{uuid_parse, uuid_text, ThreadId};
use crate::json::{
    as_text, copy, empty_object, get, is_object, json_text, member_text, null, set_member,
    text_value, to_text, tree, Json,
};
use crate::ledger::{
    attempt_number, attempt_of, has_ended, is_ended, run_status, run_summary, status_text,
    summarize, SUMMARY_CHARS,
};
use crate::session::{
    is_reported, same_but_activity, same_but_workers, session_of_peer, PendingWorker,
    WorkflowSession,
};
use crate::text::{option_text, plus, plus3, prefix_chars, same, take_chars};
use vstd::prelude::*;
use vstd::string::*;

verus! {

/// The effort that an opened view starts with, where it is asked for one.
pub open spec fn shown_effort(app: App, asked: Option<Seq<char>>) -> Option<Seq<char>> {
    match asked {
        None => None,
        Some(label) => Some(
            if app.ultracode {
                "ultracode"@
            } else {
                match app.effort {
                    Some(effort) => effort@,
                    None => "medium"@,
                }
            },
        ),
    }
}

/// What comes of a request to open the workflows; one with an effort sets it and opens nothing.
pub open spec fn open_acts(app: App, effort: Option<Seq<char>>) -> Seq<Act> {
    if effort is Some && effort->Some_0.len() > 0 {
        seq![Act::ApplyEffort { label: effort->Some_0 }]
    } else {
        match app.thread_id {
            None => seq![
                Act::ShowError { text: "Session is still starting; try again shortly."@ },
            ],
            Some(id) => {
                let thread_id = uuid_text(id.value);
                let effort = shown_effort(app, effort);
                if sessions(app).dom().contains(thread_id) {
                    seq![Act::ListRunsToOpen { thread_id, effort }]
                } else {
                    seq![
                        Act::OpenSession { thread_id, isolated: false },
                        Act::ListFirstRuns { thread_id, effort },
                    ]
                }
            },
        }
    }
}

/// Whether this is a session with a process, or there is none.
pub open spec fn is_peer_choice(
    sessions: Map<Seq<char>, WorkflowSession>,
    peer: u64,
    key: Option<Seq<char>>,
) -> bool {
    match key {
        Some(key) => sessions.dom().contains(key) && sessions[key].peer == peer,
        None => forall|key: Seq<char>| #[trigger]
            sessions.dom().contains(key) ==> sessions[key].peer != peer,
    }
}

/// Whether a session with a process now knows whether runs are active; nothing else changes.
pub open spec fn activity_is_noted(
    before: Map<Seq<char>, WorkflowSession>,
    peer: u64,
    active: bool,
    after: Map<Seq<char>, WorkflowSession>,
) -> bool {
    exists|key: Option<Seq<char>>| #[trigger]
        is_peer_choice(before, peer, key) && match key {
            None => after == before,
            Some(key) => {
                &&& after == before.insert(key, after[key])
                &&& same_but_activity(after[key], before[key])
                &&& after[key].active_runs == active
            },
        }
}

/// The sessions after one was opened: a new one is there only where the parent had none.
pub open spec fn is_opened(
    before: Map<Seq<char>, WorkflowSession>,
    thread_id: Seq<char>,
    peer: u64,
    supervised: bool,
    after: Map<Seq<char>, WorkflowSession>,
) -> bool {
    if before.dom().contains(thread_id) {
        after == before
    } else {
        &&& after == before.insert(thread_id, after[thread_id])
        &&& after[thread_id].peer == peer
        &&& after[thread_id].supervised == supervised
        &&& after[thread_id].pending_workers.map() == Map::<Seq<char>, PendingWorker>::empty()
        &&& after[thread_id].reported_runs@.len() == 0
        &&& !after[thread_id].active_runs
    }
}

/// Whether the sessions are as the answer to opening the workflows leaves them.
pub open spec fn is_ready(
    before: Map<Seq<char>, WorkflowSession>,
    thread_id: Seq<char>,
    peer: u64,
    supervised: bool,
    active: bool,
    after: Map<Seq<char>, WorkflowSession>,
) -> bool {
    exists|opened: Map<Seq<char>, WorkflowSession>| #[trigger]
        is_opened(before, thread_id, peer, supervised, opened) && activity_is_noted(
            opened,
            peer,
            active,
            after,
        )
}

/// Whether the session of the thread that the user sees talks to a process.
pub open spec fn current_peer_is(app: App, peer: u64) -> bool {
    match app.thread_id {
        Some(id) => sessions(app).dom().contains(uuid_text(id.value)) && sessions(app)[uuid_text(
            id.value,
        )].peer == peer,
        None => false,
    }
}

/// What a snapshot of the runs of a process changes on the screen.
pub open spec fn snapshot_acts(app: App, peer: u64) -> Seq<Act> {
    if current_peer_is(app, peer) {
        seq![Act::UpdateStatus, Act::UpdateOverlay, Act::Redraw]
    } else {
        seq![Act::Redraw]
    }
}

/// What a run came to, as the user is told.
pub open spec fn outcome_detail(state: Json) -> Option<Seq<char>> {
    let outcome = if state.member("result"@) is Some {
        state.member("result"@)
    } else {
        state.member("error"@)
    };
    match outcome {
        Some(value) => Some(
            match value.text() {
                Some(text) => text,
                None => json_text(value),
            },
        ),
        None => None,
    }
}

/// Whether the parent must be told of a run: it has ended, nobody else tells, and it was not told of
/// this attempt.
pub open spec fn report_is_due(session: WorkflowSession, run_id: Seq<char>, state: Json) -> bool {
    &&& !session.supervised
    &&& has_ended(run_status(state))
    &&& !is_reported(session.reported_runs@, run_id, attempt_of(state))
}

/// What tells a parent, and the user who sees it, of the end of a run.
pub open spec fn report_acts(
    app: App,
    key: Seq<char>,
    run_id: Seq<char>,
    state: Json,
) -> Seq<Act> {
    match uuid_parse(key) {
        Err(_) => Seq::empty(),
        Ok(value) => {
            let thread = ThreadId { value };
            let told = Act::InjectCompletion {
                session: key,
                thread,
                run_id,
                attempt: attempt_of(state),
                summary: prefix_chars(
                    run_summary("workflow "@, run_id, attempt_of(state), state),
                    SUMMARY_CHARS as nat,
                ),
            };
            if app.thread_id == Some(thread) {
                seq![
                    Act::ShowInfo {
                        text: "Workflow "@ + run_id + " "@ + run_status(state),
                        detail: outcome_detail(state),
                    },
                    told,
                ]
            } else {
                seq![told]
            }
        },
    }
}

/// What comes of a change of a run of a session. The state is there where it could be inspected.
pub open spec fn run_changed_acts(
    app: App,
    key: Option<Seq<char>>,
    peer: u64,
    run_id: Seq<char>,
    state: Option<Json>,
) -> Seq<Act> {
    match key {
        None => Seq::empty(),
        Some(key) => {
            let listed = seq![Act::ListRuns { peer }];
            match state {
                Some(state) => if report_is_due(sessions(app)[key], run_id, state) {
                    listed + report_acts(app, key, run_id, state)
                } else {
                    listed
                },
                None => listed,
            }
        },
    }
}

/// Whether the session of a parent now knows that it was told of an attempt.
pub open spec fn report_is_noted(
    before: Map<Seq<char>, WorkflowSession>,
    session: Seq<char>,
    run_id: Seq<char>,
    attempt: u64,
    after: Map<Seq<char>, WorkflowSession>,
) -> bool {
    if before.dom().contains(session) {
        &&& after == before.insert(session, after[session])
        &&& after[session].peer == before[session].peer
        &&& after[session].supervised == before[session].supervised
        &&& after[session].pending_workers == before[session].pending_workers
        &&& after[session].active_runs == before[session].active_runs
        &&& forall|run: Seq<char>, n: u64| #[trigger]
            is_reported(after[session].reported_runs@, run, n) <==> is_reported(
                before[session].reported_runs@,
                run,
                n,
            ) || (run == run_id && n == attempt)
    } else {
        after == before
    }
}

/// What comes of a workflow that was saved, or not.
pub open spec fn save_acts(
    app: App,
    thread_id: Seq<char>,
    result: Result<Seq<char>, Seq<char>>,
) -> Seq<Act> {
    let shown = if is_current(app, thread_id) {
        match result {
            Ok(path) => seq![Act::ShowInfo { text: "Workflow saved"@, detail: Some(path) }],
            Err(message) => seq![Act::ShowError { text: message }],
        }
    } else {
        Seq::empty()
    };
    match result {
        Ok(_) => shown + seq![Act::QueueLoad { thread_id }, Act::QueueRefresh],
        Err(_) => shown,
    }
}

/// What comes of a wish to see the runs anew.
pub open spec fn refresh_acts(app: App) -> Seq<Act> {
    match app.thread_id {
        Some(id) => if sessions(app).dom().contains(uuid_text(id.value)) {
            seq![Act::ListRuns { peer: sessions(app)[uuid_text(id.value)].peer }]
        } else {
            Seq::empty()
        },
        None => Seq::empty(),
    }
}

/// A refusal of a request of a process.
pub open spec fn refused(peer: u64, id: Seq<char>, code: Seq<char>, message: Seq<char>) -> Act {
    Act::Refuse { peer, id, code, message, unresolved: false }
}

/// The worker that a request to interrupt names.
pub open spec fn interrupt_target(params: Json) -> Option<(ThreadId, Seq<char>)> {
    match (params.member_text("threadId"@), params.member_text("turnId"@)) {
        (Some(thread), Some(turn)) => match uuid_parse(thread) {
            Ok(value) => Some((ThreadId { value }, turn)),
            Err(_) => None,
        },
        _ => None,
    }
}

/// What comes of a request of a process. `key` is a session with it.
pub open spec fn host_request_acts(
    key: Option<Seq<char>>,
    peer: u64,
    id: Seq<char>,
    method: Seq<char>,
    params: Json,
) -> Seq<Act> {
    if method == "supervisor.workflow"@ {
        seq![Act::ForwardToolCall { peer, id }]
    } else if method == "supervisor.request"@ {
        seq![Act::ForwardRequest { peer, id }]
    } else if method == "worker.start"@ {
        match key {
            Some(parent) => seq![Act::StartWorker { peer, id, parent }],
            None => seq![
                refused(peer, id, "HOST_ERROR"@, "parent workflow session is unavailable"@),
            ],
        }
    } else if method == "workspace.prepare"@ {
        seq![Act::PrepareWorkspace { peer, id }]
    } else if method == "workspace.release"@ {
        seq![Act::ReleaseWorkspace { peer, id }]
    } else if method == "worker.interrupt"@ {
        match interrupt_target(params) {
            Some((thread, turn)) => seq![Act::InterruptWorker { peer, id, thread, turn }],
            None => seq![
                refused(peer, id, "HOST_ERROR"@, "invalid worker interrupt request"@),
            ],
        }
    } else {
        seq![
            refused(peer, id, "HOST_ERROR"@, "unknown native host request: "@ + method),
        ]
    }
}

/// The role digest of the workspace that a request to start a worker names, or null.
pub open spec fn workspace_role(params: Json) -> Json {
    match params.member("workspace"@) {
        Some(workspace) => match workspace.member("roleDigest"@) {
            Some(digest) => digest,
            None => Json::Null,
        },
        None => Json::Null,
    }
}

/// What the server is asked to start a worker with: what the process asked for, but for the parent,
/// which is that of its session, and the digest of the role, which is that of the workspace.
pub open spec fn start_request(params: Json, parent_id: Seq<char>) -> Json {
    let members = match params {
        Json::Object(members) => members,
        _ => Map::empty(),
    };
    Json::Object(
        members.insert("parentThreadId"@, Json::Text(parent_id)).insert(
            "roleDigest"@,
            workspace_role(params),
        ),
    )
}

/// Forms what the server is asked to start a worker with.
pub fn worker_start_params(params: serde_json::Value, parent_id: &str) -> (res: serde_json::Value)
    requires
        tree(params) is Object || tree(params) is Null,
    ensures
        tree(res) == start_request(tree(params), parent_id@),
{
    let role = match get(&params, "workspace") {
        Some(workspace) => match get(workspace, "roleDigest") {
            Some(digest) => copy(digest),
            None => null(),
        },
        None => null(),
    };
    let mut request = if is_object(&params) {
        params
    } else {
        empty_object()
    };
    set_member(&mut request, "parentThreadId", text_value(parent_id));
    set_member(&mut request, "roleDigest", role);
    request
}

/// A process starts workers for the parent of its session alone, whatever parent it names.
pub proof fn worker_starts_for_its_session(params: Json, parent_id: Seq<char>)
    ensures
        start_request(params, parent_id).member_text("parentThreadId"@) == Some(parent_id),
        start_request(params, parent_id).member("roleDigest"@) == Some(workspace_role(params)),
        forall|key: Seq<char>|
            key != "parentThreadId"@ && key != "roleDigest"@ ==> #[trigger] start_request(
                params,
                parent_id,
            ).member(key) == params.member(key),
{
    reveal_strlit("parentThreadId");
    reveal_strlit("roleDigest");
    assert("parentThreadId"@.len() != "roleDigest"@.len());
}

/// A worker that the server was asked to start.
#[derive(Debug)]
pub struct WorkerStart {
    pub id: String,
    pub run_id: String,
    pub worker_id: String,
    pub structured: bool,
}

/// A worker that started.
#[derive(Debug)]
pub struct StartedWorker {
    pub thread_id: String,
    pub turn_id: String,
    pub model: String,
    pub effort: serde_json::Value,
}

/// Why a worker did not start. A code is there where the server rejected the request.
#[derive(Debug)]
pub struct StartRefusal {
    pub server_code: Option<i64>,
    pub message: String,
}

/// Whether this is the worker that started.
pub open spec fn is_started(start: WorkerStart, started: StartedWorker, worker: PendingWorker) -> bool {
    &&& worker.is_fresh()
    &&& worker.request_id == start.id
    &&& worker.run_id == start.run_id
    &&& worker.worker_id == start.worker_id
    &&& worker.structured == start.structured
    &&& worker.turn_id == started.turn_id
    &&& worker.model == started.model
    &&& worker.effort == started.effort
}

/// Whether the sessions hold a worker that started, in the session `key`.
pub open spec fn worker_is_held(
    before: Map<Seq<char>, WorkflowSession>,
    key: Seq<char>,
    start: WorkerStart,
    started: StartedWorker,
    after: Map<Seq<char>, WorkflowSession>,
) -> bool {
    &&& after == before.insert(key, after[key])
    &&& same_but_workers(after[key], before[key])
    &&& after[key].pending_workers.map() == before[key].pending_workers.map().insert(
        started.thread_id@,
        after[key].pending_workers.map()[started.thread_id@],
    )
    &&& is_started(
        start,
        started,
        after[key].pending_workers.map()[started.thread_id@],
    )
}

/// What comes of the start of a worker.
pub open spec fn is_worker_start_handled(
    before: Map<Seq<char>, WorkflowSession>,
    peer: u64,
    start: WorkerStart,
    result: Result<StartedWorker, StartRefusal>,
    after: Map<Seq<char>, WorkflowSession>,
    done: Seq<Act>,
) -> bool {
    match result {
        Err(refusal) => {
            &&& after == before
            &&& done == seq![
                refused(
                    peer,
                    start.id@,
                    if refusal.server_code == Some(INVALID_REQUEST) || refusal.server_code == Some(
                        INVALID_PARAMS,
                    ) {
                        "INVALID_WORKER_CONFIGURATION"@
                    } else {
                        "HOST_ERROR"@
                    },
                    refusal.message@,
                ),
            ]
        },
        Ok(started) => exists|key: Option<Seq<char>>| #[trigger]
            is_peer_choice(before, peer, key) && match key {
                Some(key) => worker_is_held(before, key, start, started, after) && done
                    == Seq::<Act>::empty(),
                None => after == before && done == seq![
                    refused(
                        peer,
                        start.id@,
                        "HOST_ERROR"@,
                        "parent workflow session is unavailable"@,
                    ),
                ],
            },
    }
}

impl App {
    /// The user opens the workflows.
    pub fn open_workflows(&self, effort: Option<String>) -> (res: Vec<WorkflowAction>)
        requires
            self.well_formed(),
        ensures
            acts(res@) == open_acts(*self, option_text(effort)),
    {
        let ghost expected = open_acts(*self, option_text(effort));
        let asked = effort.is_some();
        match effort {
            Some(label) => {
                if !same(label.as_str(), "") {
                    proof {
                        reveal_strlit("");
                        if label@.len() == 0 {
                            assert(label@ =~= ""@);
                        }
                    }
                    return just(WorkflowAction::ApplyEffort { label });
                }
                proof {
                    reveal_strlit("");
                }
            },
            None => {},
        }
        let effort = if asked {
            Some(
                if self.ultracode {
                    "ultracode".to_owned()
                } else {
                    match &self.effort {
                        Some(effort) => effort.clone(),
                        None => "medium".to_owned(),
                    }
                },
            )
        } else {
            None
        };
        let id = match &self.thread_id {
            Some(id) => id,
            None => {
                return just(
                    WorkflowAction::ShowError {
                        text: "Session is still starting; try again shortly.".to_owned(),
                    },
                );
            },
        };
        let thread_id = id.to_text();
        if self.workflow_sessions.contains(thread_id.as_str()) {
            return just(WorkflowAction::ListRunsToOpen { thread_id, effort });
        }
        let mut actions = just(
            WorkflowAction::OpenSession { thread_id: thread_id.clone(), isolated: false },
        );
        add_action(&mut actions, WorkflowAction::ListFirstRuns { thread_id, effort });
        assert(acts(actions@) =~= expected);
        actions
    }

    /// Notes whether the runs of a process are active, in a session with it.
    fn note_activity(&mut self, peer: u64, active: bool)
        requires
            old(self).well_formed(),
        ensures
            final(self).well_formed(),
            same_but_sessions(*old(self), *final(self)),
            activity_is_noted(sessions(*old(self)), peer, active, sessions(*final(self))),
    {
        let ghost before = sessions(*self);
        match session_of_peer(&self.workflow_sessions, peer) {
            Some(key) => {
                assert(is_peer_choice(before, peer, Some(key@)));
                match self.workflow_sessions.remove(key.as_str()) {
                    Some(session) => {
                        let mut session = session;
                        session.active_runs = active;
                        let ghost name = key@;
                        self.workflow_sessions.insert(key, session);
                        assert(sessions(*self) =~= before.insert(name, session));
                    },
                    None => {},
                }
            },
            None => {
                assert(is_peer_choice(before, peer, None));
            },
        }
    }

    /// Takes the news that the process of a parent's session is there. A parent without a session
    /// gets one; one that has a session keeps it.
    pub fn session_opened(&mut self, thread_id: String, peer: u64, supervised: bool)
        requires
            old(self).well_formed(),
        ensures
            final(self).well_formed(),
            same_but_sessions(*old(self), *final(self)),
            is_opened(
                sessions(*old(self)),
                thread_id@,
                peer,
                supervised,
                sessions(*final(self)),
            ),
    {
        if !self.workflow_sessions.contains(thread_id.as_str()) {
            self.workflow_sessions.insert(thread_id, WorkflowSession::new(peer, supervised));
        }
    }

    /// Takes the runs of a parent to open them. A process without a session gets one.
    pub fn runs_ready(
        &mut self,
        thread_id: String,
        peer: u64,
        supervised: bool,
        effort: Option<String>,
        snapshot: &serde_json::Value,
    ) -> (res: Vec<WorkflowAction>)
        requires
            old(self).well_formed(),
        ensures
            final(self).well_formed(),
            same_but_sessions(*old(self), *final(self)),
            is_ready(
                sessions(*old(self)),
                thread_id@,
                peer,
                supervised,
                any_active(tree(*snapshot)),
                sessions(*final(self)),
            ),
            acts(res@) == seq![Act::OpenOverlay { effort: option_text(effort) }, Act::Redraw],
    {
        self.session_opened(thread_id, peer, supervised);
        self.note_activity(peer, has_active_runs(snapshot));
        let mut actions = just(WorkflowAction::OpenOverlay { effort });
        add_action(&mut actions, WorkflowAction::Redraw);
        assert(acts(actions@) =~= seq![
            Act::OpenOverlay { effort: option_text(effort) },
            Act::Redraw,
        ]);
        actions
    }

    /// Takes a snapshot of the runs of a process.
    pub fn snapshot_taken(&mut self, peer: u64, snapshot: &serde_json::Value) -> (res: Vec<
        WorkflowAction,
    >)
        requires
            old(self).well_formed(),
        ensures
            final(self).well_formed(),
            same_but_sessions(*old(self), *final(self)),
            activity_is_noted(
                sessions(*old(self)),
                peer,
                any_active(tree(*snapshot)),
                sessions(*final(self)),
            ),
            acts(res@) == snapshot_acts(*final(self), peer),
    {
        self.note_activity(peer, has_active_runs(snapshot));
        let shown = match &self.thread_id {
            Some(id) => match self.workflow_sessions.get(id.to_text().as_str()) {
                Some(session) => session.peer == peer,
                None => false,
            },
            None => false,
        };
        let mut actions: Vec<WorkflowAction> = Vec::new();
        if shown {
            add_action(&mut actions, WorkflowAction::UpdateStatus);
            add_action(&mut actions, WorkflowAction::UpdateOverlay);
        }
        add_action(&mut actions, WorkflowAction::Redraw);
        assert(acts(actions@) =~= snapshot_acts(*self, peer));
        actions
    }

    /// The user wants to see the runs anew.
    pub fn refresh(&self) -> (res: Vec<WorkflowAction>)
        requires
            self.well_formed(),
        ensures
            acts(res@) == refresh_acts(*self),
    {
        match &self.thread_id {
            Some(id) => match self.workflow_sessions.get(id.to_text().as_str()) {
                Some(session) => {
                    return just(WorkflowAction::ListRuns { peer: session.peer });
                },
                None => {},
            },
            None => {},
        }
        let actions: Vec<WorkflowAction> = Vec::new();
        assert(acts(actions@) =~= Seq::<Act>::empty());
        actions
    }

    fn report(&self, key: &str, run_id: String, state: &serde_json::Value) -> (res: Vec<
        WorkflowAction,
    >)
        ensures
            acts(res@) == report_acts(*self, key@, run_id@, tree(*state)),
    {
        let ghost expected = report_acts(*self, key@, run_id@, tree(*state));
        let mut actions: Vec<WorkflowAction> = Vec::new();
        assert(acts(actions@) =~= Seq::<Act>::empty());
        let thread = match ThreadId::from_string(key) {
            Ok(thread) => thread,
            Err(_) => {
                return actions;
            },
        };
        let attempt: u64 = attempt_number(state);
        let seen = match &self.thread_id {
            Some(id) => id.value == thread.value,
            None => false,
        };
        if seen {
            let mut text = plus3("Workflow ", run_id.as_str(), " ");
            text.append(status_text(state).as_str());
            let outcome = match get(state, "result") {
                Some(value) => Some(value),
                None => get(state, "error"),
            };
            let detail = match outcome {
                Some(value) => Some(
                    match as_text(value) {
                        Some(text) => text,
                        None => to_text(value),
                    },
                ),
                None => None,
            };
            assert(option_text(detail) == outcome_detail(tree(*state)));
            add_action(&mut actions, WorkflowAction::ShowInfo { text, detail });
        }
        let summary = take_chars(
            summarize("workflow ", run_id.as_str(), attempt, state).as_str(),
            SUMMARY_CHARS,
        );
        add_action(
            &mut actions,
            WorkflowAction::InjectCompletion {
                session: key.to_owned(),
                thread,
                run_id,
                attempt,
                summary,
            },
        );
        assert(acts(actions@) =~= expected);
        actions
    }

    /// Takes the news that a run changed. The state is there where it could be inspected.
    pub fn run_changed(&self, peer: u64, run_id: String, state: Option<&serde_json::Value>) -> (res:
        Vec<WorkflowAction>)
        requires
            self.well_formed(),
        ensures
            exists|key: Option<Seq<char>>| #[trigger]
                is_peer_choice(sessions(*self), peer, key) && acts(res@) == run_changed_acts(
                    *self,
                    key,
                    peer,
                    run_id@,
                    match state {
                        Some(state) => Some(tree(*state)),
                        None => None,
                    },
                ),
    {
        let ghost given = match state {
            Some(state) => Some(tree(*state)),
            None => None,
        };
        let ghost run = run_id@;
        let key = match session_of_peer(&self.workflow_sessions, peer) {
            Some(key) => key,
            None => {
                let actions: Vec<WorkflowAction> = Vec::new();
                assert(acts(actions@) =~= Seq::<Act>::empty());
                assert(is_peer_choice(sessions(*self), peer, None));
                return actions;
            },
        };
        assert(is_peer_choice(sessions(*self), peer, Some(key@)));
        let mut actions = just(WorkflowAction::ListRuns { peer });
        match (self.workflow_sessions.get(key.as_str()), state) {
            (Some(session), Some(state)) => {
                if !session.supervised && is_ended(status_text(state).as_str())
                    && !session.has_reported(run_id.as_str(), attempt_number(state)) {
                    let more = self.report(key.as_str(), run_id, state);
                    add_actions(&mut actions, more);
                }
            },
            _ => {},
        }
        assert(acts(actions@) =~= run_changed_acts(*self, Some(key@), peer, run, given));
        actions
    }

    /// Notes that a parent was told of the end of an attempt.
    pub fn run_reported(&mut self, session_key: String, run_id: String, attempt: u64)
        requires
            old(self).well_formed(),
        ensures
            final(self).well_formed(),
            same_but_sessions(*old(self), *final(self)),
            report_is_noted(
                sessions(*old(self)),
                session_key@,
                run_id@,
                attempt,
                sessions(*final(self)),
            ),
    {
        let ghost before = sessions(*self);
        let ghost name = session_key@;
        let ghost run = run_id@;
        match self.workflow_sessions.remove(session_key.as_str()) {
            Some(session) => {
                let mut session = session;
                let ghost reported = session.reported_runs@;
                if !session.has_reported(run_id.as_str(), attempt) {
                    session.reported_runs.push((run_id, attempt));
                    proof {
                        let pushed = session.reported_runs@;
                        assert forall|other: Seq<char>, n: u64| #[trigger]
                            is_reported(pushed, other, n) <==> is_reported(reported, other, n) || (
                        other == run && n == attempt) by {
                            if is_reported(reported, other, n) {
                                let i = choose|i: int|
                                    0 <= i < reported.len() && (#[trigger] reported[i]).0@ == other
                                        && reported[i].1 == n;
                                assert(pushed[i] == reported[i]);
                            }
                            if other == run && n == attempt {
                                assert(pushed[reported.len() as int].0@ == other);
                            }
                            if is_reported(pushed, other, n) && !is_reported(reported, other, n) {
                                let i = choose|i: int|
                                    0 <= i < pushed.len() && (#[trigger] pushed[i]).0@ == other
                                        && pushed[i].1 == n;
                                if i < reported.len() {
                                    assert(reported[i] == pushed[i]);
                                }
                            }
                        }
                    }
                }
                self.workflow_sessions.insert(session_key, session);
                assert(sessions(*self) =~= before.insert(name, session));
            },
            None => {
                assert(sessions(*self) =~= before);
            },
        }
    }

    /// Takes what the saving of a workflow came to: its path, or why it failed.
    pub fn save_completed(&self, thread_id: String, result: Result<String, String>) -> (res: Vec<
        WorkflowAction,
    >)
        ensures
            acts(res@) == save_acts(
                *self,
                thread_id@,
                match result {
                    Ok(path) => Ok(path@),
                    Err(message) => Err(message@),
                },
            ),
    {
        let seen = self.sees(thread_id.as_str());
        let mut actions: Vec<WorkflowAction> = Vec::new();
        assert(acts(actions@) =~= Seq::<Act>::empty());
        match result {
            Ok(path) => {
                if seen {
                    add_action(
                        &mut actions,
                        WorkflowAction::ShowInfo {
                            text: "Workflow saved".to_owned(),
                            detail: Some(path),
                        },
                    );
                }
                add_action(&mut actions, WorkflowAction::QueueLoad { thread_id });
                add_action(&mut actions, WorkflowAction::QueueRefresh);
                assert(acts(actions@) =~= save_acts(*self, thread_id@, Ok(path@)));
            },
            Err(text) => {
                if seen {
                    add_action(&mut actions, WorkflowAction::ShowError { text });
                }
                assert(acts(actions@) =~= save_acts(*self, thread_id@, Err(text@)));
            },
        }
        actions
    }

    /// Takes a request of a process.
    pub fn host_requested(
        &self,
        peer: u64,
        id: String,
        method: &str,
        params: &serde_json::Value,
    ) -> (res: Vec<WorkflowAction>)
        requires
            self.well_formed(),
        ensures
            exists|key: Option<Seq<char>>| #[trigger]
                is_peer_choice(sessions(*self), peer, key) && acts(res@) == host_request_acts(
                    key,
                    peer,
                    id@,
                    method@,
                    tree(*params),
                ),
    {
        let parent = session_of_peer(&self.workflow_sessions, peer);
        assert(is_peer_choice(sessions(*self), peer, option_text(parent)));
        if same(method, "supervisor.workflow") {
            return just(WorkflowAction::ForwardToolCall { peer, id });
        }
        if same(method, "supervisor.request") {
            return just(WorkflowAction::ForwardRequest { peer, id });
        }
        if same(method, "worker.start") {
            return match parent {
                Some(parent) => just(WorkflowAction::StartWorker { peer, id, parent }),
                None => just(
                    WorkflowAction::Refuse {
                        peer,
                        id,
                        error: BridgeError::host("parent workflow session is unavailable"),
                    },
                ),
            };
        }
        if same(method, "workspace.prepare") {
            return just(WorkflowAction::PrepareWorkspace { peer, id });
        }
        if same(method, "workspace.release") {
            return just(WorkflowAction::ReleaseWorkspace { peer, id });
        }
        if same(method, "worker.interrupt") {
            match (member_text(params, "threadId"), member_text(params, "turnId")) {
                (Some(thread), Some(turn)) => match ThreadId::from_string(thread.as_str()) {
                    Ok(thread) => {
                        return just(WorkflowAction::InterruptWorker { peer, id, thread, turn });
                    },
                    Err(_) => {},
                },
                _ => {},
            }
            return just(
                WorkflowAction::Refuse {
                    peer,
                    id,
                    error: BridgeError::host("invalid worker interrupt request"),
                },
            );
        }
        just(
            WorkflowAction::Refuse {
                peer,
                id,
                error: BridgeError::host(plus("unknown native host request: ", method).as_str()),
            },
        )
    }

    /// Takes what the start of a worker came to.
    pub fn worker_start_ended(
        &mut self,
        peer: u64,
        start: WorkerStart,
        result: Result<StartedWorker, StartRefusal>,
    ) -> (res: Vec<WorkflowAction>)
        requires
            old(self).well_formed(),
        ensures
            final(self).well_formed(),
            same_but_sessions(*old(self), *final(self)),
            is_worker_start_handled(
                sessions(*old(self)),
                peer,
                start,
                result,
                sessions(*final(self)),
                acts(res@),
            ),
    {
        let ghost before = sessions(*self);
        let started = match result {
            Ok(started) => started,
            Err(refusal) => {
                return just(
                    WorkflowAction::Refuse {
                        peer,
                        id: start.id,
                        error: BridgeError::worker_start(
                            refusal.server_code,
                            refusal.message.as_str(),
                        ),
                    },
                );
            },
        };
        let key = match session_of_peer(&self.workflow_sessions, peer) {
            Some(key) => key,
            None => {
                assert(is_peer_choice(before, peer, None));
                return just(
                    WorkflowAction::Refuse {
                        peer,
                        id: start.id,
                        error: BridgeError::host("parent workflow session is unavailable"),
                    },
                );
            },
        };
        let ghost name = key@;
        assert(is_peer_choice(before, peer, Some(name)));
        match self.workflow_sessions.remove(key.as_str()) {
            Some(session) => {
                let mut session = session;
                let worker = PendingWorker::new(
                    start.id,
                    start.run_id,
                    start.worker_id,
                    started.turn_id,
                    started.model,
                    started.effort,
                    start.structured,
                );
                session.pending_workers.insert(started.thread_id, worker);
                self.workflow_sessions.insert(key, session);
                assert(sessions(*self) =~= before.insert(name, session));
                assert(session.pending_workers.map()
                    =~= before[name].pending_workers.map().insert(started.thread_id@, worker));
                assert(worker_is_held(before, name, start, started, sessions(*self)));
            },
            None => {},
        }
        let actions: Vec<WorkflowAction> = Vec::new();
        assert(acts(actions@) =~= Seq::<Act>::empty());
        actions
    }
}

/// An effort that is asked for is set, and no view is opened. Else the runs of the thread that the user
/// sees are listed, of a session that is there or of one that is opened first; without a thread there
/// is nothing to open.
pub proof fn runs_are_opened_for_the_seen_thread(app: App, effort: Option<Seq<char>>)
    ensures
        ({
            let done = open_acts(app, effort);
            let sets = effort is Some && effort->Some_0.len() > 0;
            let thread = uuid_text(app.thread_id->Some_0.value);
            let shown = shown_effort(app, effort);
            &&& sets ==> done == seq![Act::ApplyEffort { label: effort->Some_0 }]
            &&& !sets && app.thread_id is None ==> done.len() == 1 && done[0] is ShowError
            &&& !sets && app.thread_id is Some && sessions(app).dom().contains(thread) ==> done
                == seq![Act::ListRunsToOpen { thread_id: thread, effort: shown }]
            &&& !sets && app.thread_id is Some && !sessions(app).dom().contains(thread) ==> done
                == seq![
                Act::OpenSession { thread_id: thread, isolated: false },
                Act::ListFirstRuns { thread_id: thread, effort: shown },
            ]
            &&& effort is None ==> shown is None
            &&& effort is Some && app.ultracode ==> shown == Some("ultracode"@)
            &&& effort is Some && !app.ultracode && app.effort is Some ==> shown == Some(
                app.effort->Some_0@,
            )
            &&& effort is Some && !app.ultracode && app.effort is None ==> shown == Some("medium"@)
        }),
{
}

/// The parent of a session is told of the end of a run exactly where the run has ended, no supervisor
/// tells it, and it was not told of this attempt: once, in its own thread. The user is told where the
/// thread is the one that the user sees. Whatever came of the run, the runs are listed.
pub proof fn parent_is_told_of_the_end(
    app: App,
    key: Seq<char>,
    peer: u64,
    run_id: Seq<char>,
    state: Json,
)
    requires
        uuid_parse(key) is Ok,
    ensures
        ({
            let done = run_changed_acts(app, Some(key), peer, run_id, Some(state));
            let status = run_status(state);
            let session = sessions(app)[key];
            let due = !session.supervised && (status == "completed"@ || status == "failed"@ || status
                == "stopped"@ || status == "interrupted"@) && !is_reported(
                session.reported_runs@,
                run_id,
                attempt_of(state),
            );
            let thread = ThreadId { value: uuid_parse(key)->Ok_0 };
            let seen = app.thread_id == Some(thread);
            &&& done[0] == (Act::ListRuns { peer })
            &&& !due ==> done.len() == 1
            &&& due ==> done.len() == if seen {
                3nat
            } else {
                2nat
            }
            &&& due ==> (done.last() matches Act::InjectCompletion {
                session: told,
                thread: to,
                run_id: run,
                attempt,
                summary,
            } && told == key && to == thread && run == run_id && attempt == attempt_of(state)
                && summary.len() <= 8000)
            &&& due && seen ==> (done[1] matches Act::ShowInfo { text, detail } && text
                == "Workflow "@ + run_id + " "@ + status && detail == outcome_detail(state))
        }),
        run_changed_acts(app, None, peer, run_id, Some(state)).len() == 0,
        run_changed_acts(app, Some(key), peer, run_id, None) == seq![Act::ListRuns { peer }],
        report_acts(app, key, run_id, state).len() > 0,
{
    let listed = seq![Act::ListRuns { peer }];
    let more = report_acts(app, key, run_id, state);
    assert(listed[0] == (Act::ListRuns { peer }));
    assert((listed + more)[0] == listed[0]);
    assert((listed + more).last() == more.last());
    assert((listed + more)[1] == more[0]);
}

/// What the user is told of a run is its result, or, without one, its error: a text as it is, and
/// anything else as JSON.
pub proof fn outcome_is_the_result_or_the_error(state: Json)
    ensures
        state.member("result"@) matches Some(value) ==> outcome_detail(state) == Some(
            if value is Text {
                value->Text_0
            } else {
                json_text(value)
            },
        ),
        state.member("result"@) is None ==> (state.member("error"@) matches Some(value)
            ==> outcome_detail(state) == Some(
            if value is Text {
                value->Text_0
            } else {
                json_text(value)
            },
        )),
        state.member("result"@) is None && state.member("error"@) is None ==> outcome_detail(state)
            is None,
{
}

/// What was saved is loaded again and the runs are listed anew, whoever looks; what was not is not.
/// The user is told in the thread that asked alone.
pub proof fn saving_is_told_where_asked(
    app: App,
    thread_id: Seq<char>,
    result: Result<Seq<char>, Seq<char>>,
)
    ensures
        ({
            let done = save_acts(app, thread_id, result);
            let n: int = if is_current(app, thread_id) {
                1
            } else {
                0
            };
            &&& result is Ok ==> done.len() == n + 2 && done[n] == (Act::QueueLoad { thread_id })
                && done[n + 1] == Act::QueueRefresh
            &&& result is Err ==> done.len() == n
            &&& n == 1 ==> (result matches Ok(path) ==> done[0] == (Act::ShowInfo {
                text: "Workflow saved"@,
                detail: Some(path),
            }))
            &&& n == 1 ==> (result matches Err(message) ==> done[0] == (Act::ShowError {
                text: message,
            }))
        }),
{
}

/// Each request of a process is handed on as what it asks for, under its own identity, and what is not
/// known is refused by name.
pub proof fn requests_are_handed_on(
    key: Option<Seq<char>>,
    peer: u64,
    id: Seq<char>,
    method: Seq<char>,
    params: Json,
)
    ensures
        ({
            let done = host_request_acts(key, peer, id, method, params);
            &&& done.len() == 1
            &&& method == "supervisor.workflow"@ <==> done == seq![
                Act::ForwardToolCall { peer, id },
            ]
            &&& method == "supervisor.request"@ <==> done == seq![Act::ForwardRequest { peer, id }]
            &&& method == "workspace.prepare"@ <==> done == seq![
                Act::PrepareWorkspace { peer, id },
            ]
            &&& method == "workspace.release"@ <==> done == seq![
                Act::ReleaseWorkspace { peer, id },
            ]
            &&& method == "worker.start"@ && key is Some <==> done == seq![
                Act::StartWorker { peer, id, parent: key->Some_0 },
            ]
            &&& done[0] is InterruptWorker <==> method == "worker.interrupt"@ && params.member_text(
                "turnId"@,
            ) is Some && params.member_text("threadId"@) is Some && uuid_parse(
                params.member_text("threadId"@)->Some_0,
            ) is Ok
            &&& done[0] is InterruptWorker ==> done[0] == (Act::InterruptWorker {
                peer,
                id,
                thread: ThreadId {
                    value: uuid_parse(params.member_text("threadId"@)->Some_0)->Ok_0,
                },
                turn: params.member_text("turnId"@)->Some_0,
            })
            &&& done[0] matches Act::Refuse { peer: to, id: of, .. } ==> to == peer && of == id
        }),
{
    reveal_strlit("supervisor.workflow");
    reveal_strlit("supervisor.request");
    reveal_strlit("worker.start");
    reveal_strlit("workspace.prepare");
    reveal_strlit("workspace.release");
    reveal_strlit("worker.interrupt");
    assert("workspace.prepare"@[10] == 'p');
    assert("workspace.release"@[10] == 'r');
    let done = host_request_acts(key, peer, id, method, params);
    assert(done =~= seq![done[0]]);
    let forwarded = seq![Act::ForwardToolCall { peer, id }];
    assert(forwarded[0] is ForwardToolCall);
    let request = seq![Act::ForwardRequest { peer, id }];
    assert(request[0] is ForwardRequest);
    let prepare = seq![Act::PrepareWorkspace { peer, id }];
    assert(prepare[0] is PrepareWorkspace);
    let release = seq![Act::ReleaseWorkspace { peer, id }];
    assert(release[0] is ReleaseWorkspace);
    let start = seq![Act::StartWorker { peer, id, parent: key->Some_0 }];
    assert(start[0] is StartWorker);
}

/// A worker that started is known: a session with its process holds it under its thread, as the worker
/// of the request, from which nothing was heard yet, and every other worker and session stays. One that
/// did not start is refused under the identity of the request, with the words of the server, and
/// nothing is kept of it.
pub proof fn started_worker_is_known(
    before: Map<Seq<char>, WorkflowSession>,
    peer: u64,
    start: WorkerStart,
    result: Result<StartedWorker, StartRefusal>,
    after: Map<Seq<char>, WorkflowSession>,
    done: Seq<Act>,
    own: Seq<char>,
)
    requires
        is_worker_start_handled(before, peer, start, result, after, done),
        before.dom().contains(own) && before[own].peer == peer,
    ensures
        result matches Ok(started) ==> done.len() == 0 && exists|key: Seq<char>| #[trigger]
            before.dom().contains(key) && before[key].peer == peer
                && after[key].pending_workers.map().dom().contains(started.thread_id@)
                && after[key].pending_workers.map()[started.thread_id@].request_id@ == start.id@
                && after[key].pending_workers.map()[started.thread_id@].run_id@ == start.run_id@
                && after[key].pending_workers.map()[started.thread_id@].worker_id@
                == start.worker_id@ && after[key].pending_workers.map()[started.thread_id@].turn_id@
                == started.turn_id@ && after[key].pending_workers.map()[started.thread_id@].text@.len()
                == 0 && after[key].pending_workers.map()[started.thread_id@].structured
                == start.structured,
        after.dom() =~= before.dom(),
        forall|key: Seq<char>| #[trigger]
            before.dom().contains(key) && before[key].peer != peer ==> after[key] == before[key],
        forall|key: Seq<char>| #[trigger]
            before.dom().contains(key) ==> after[key].peer == before[key].peer
                && after[key].supervised == before[key].supervised && after[key].reported_runs
                == before[key].reported_runs && after[key].active_runs == before[key].active_runs,
        result matches Err(refusal) ==> after == before && done.len() == 1 && (
        done[0] matches Act::Refuse { peer: to, id, code, message, unresolved } && to == peer && id
            == start.id@ && message == refusal.message@ && !unresolved && (code
            == "INVALID_WORKER_CONFIGURATION"@ <==> refusal.server_code == Some(-32600i64)
            || refusal.server_code == Some(-32602i64))),
{
    reveal_strlit("INVALID_WORKER_CONFIGURATION");
    reveal_strlit("HOST_ERROR");
    assert("INVALID_WORKER_CONFIGURATION"@.len() != "HOST_ERROR"@.len());
    match result {
        Ok(started) => {
            let key = choose|key: Option<Seq<char>>| #[trigger]
                is_peer_choice(before, peer, key) && match key {
                    Some(key) => worker_is_held(before, key, start, started, after) && done
                        == Seq::<Act>::empty(),
                    None => after == before && done == seq![
                        refused(
                            peer,
                            start.id@,
                            "HOST_ERROR"@,
                            "parent workflow session is unavailable"@,
                        ),
                    ],
                };
            assert(key is Some);
            let name = key->Some_0;
            assert(before.dom().contains(name));
            assert(worker_is_held(before, name, start, started, after));
            assert(after[name].pending_workers.map().dom().contains(started.thread_id@));
        },
        Err(_) => {},
    }
}

/// A parent that has a session keeps it, with all that it knows; one without gets one in which nothing
/// was told yet and nobody works. No other session changes.
pub proof fn opening_keeps_sessions(
    before: Map<Seq<char>, WorkflowSession>,
    thread_id: Seq<char>,
    peer: u64,
    supervised: bool,
    after: Map<Seq<char>, WorkflowSession>,
)
    requires
        is_opened(before, thread_id, peer, supervised, after),
    ensures
        after.dom() =~= before.dom().insert(thread_id),
        forall|key: Seq<char>| #[trigger]
            before.dom().contains(key) ==> after[key] == before[key],
        !before.dom().contains(thread_id) ==> after[thread_id].peer == peer
            && after[thread_id].supervised == supervised && after[thread_id].reported_runs@.len()
            == 0 && !after[thread_id].active_runs
            && after[thread_id].pending_workers.map().dom().is_empty(),
{
}

/// A snapshot tells one session with the process whether runs are active; only what the user sees of
/// that process is drawn anew.
pub proof fn snapshot_is_noted(
    before: App,
    peer: u64,
    active: bool,
    after: App,
    own: Seq<char>,
)
    requires
        same_but_sessions(before, after),
        activity_is_noted(sessions(before), peer, active, sessions(after)),
        sessions(before).dom().contains(own) && sessions(before)[own].peer == peer,
    ensures
        exists|key: Seq<char>| #[trigger]
            sessions(before).dom().contains(key) && sessions(before)[key].peer == peer
                && sessions(after)[key].active_runs == active,
        forall|key: Seq<char>| #[trigger]
            sessions(before).dom().contains(key) ==> sessions(after)[key].reported_runs
                == sessions(before)[key].reported_runs && sessions(after)[key].pending_workers
                == sessions(before)[key].pending_workers && sessions(after)[key].peer
                == sessions(before)[key].peer,
        snapshot_acts(after, peer).last() == Act::Redraw,
        snapshot_acts(after, peer).len() == 3 <==> after.thread_id is Some && sessions(
            after,
        ).dom().contains(uuid_text(after.thread_id->Some_0.value)) && sessions(after)[uuid_text(
            after.thread_id->Some_0.value,
        )].peer == peer,
        snapshot_acts(after, peer).len() == 3 ==> snapshot_acts(after, peer)[0] == Act::UpdateStatus
            && snapshot_acts(after, peer)[1] == Act::UpdateOverlay,
{
    let key = choose|key: Option<Seq<char>>| #[trigger]
        is_peer_choice(sessions(before), peer, key) && match key {
            None => sessions(after) == sessions(before),
            Some(key) => {
                &&& sessions(after) == sessions(before).insert(key, sessions(after)[key])
                &&& same_but_activity(sessions(after)[key], sessions(before)[key])
                &&& sessions(after)[key].active_runs == active
            },
        };
    assert(key is Some);
    assert(sessions(before).dom().contains(key->Some_0));
}

/// The runs that are listed anew are those of the process of the seen thread.
pub proof fn refresh_lists_the_seen_runs(app: App)
    ensures
        refresh_acts(app).len() <= 1,
        refresh_acts(app).len() == 1 <==> app.thread_id is Some && sessions(app).dom().contains(
            uuid_text(app.thread_id->Some_0.value),
        ),
        refresh_acts(app).len() == 1 ==> refresh_acts(app)[0] == (Act::ListRuns {
            peer: sessions(app)[uuid_text(app.thread_id->Some_0.value)].peer,
        }),
{
}

/// What is noted of an attempt that was told concerns its session alone, and of that what was told;
/// what was told before stays told.
pub proof fn telling_is_noted_in_its_session(
    before: Map<Seq<char>, WorkflowSession>,
    session: Seq<char>,
    run_id: Seq<char>,
    attempt: u64,
    after: Map<Seq<char>, WorkflowSession>,
    other: Seq<char>,
    run: Seq<char>,
    n: u64,
)
    requires
        report_is_noted(before, session, run_id, attempt, after),
        before.dom().contains(other),
    ensures
        after.dom() =~= before.dom(),
        other != session ==> after[other] == before[other],
        after[other].peer == before[other].peer && after[other].supervised
            == before[other].supervised && after[other].active_runs == before[other].active_runs
            && after[other].pending_workers == before[other].pending_workers,
        is_reported(before[other].reported_runs@, run, n) ==> is_reported(
            after[other].reported_runs@,
            run,
            n,
        ),
        other == session ==> is_reported(after[other].reported_runs@, run_id, attempt),
{
}

} // verus!
