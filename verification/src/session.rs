//! The workflow session of a parent: its workers that run, and what is told of them.
use crate::bridge::BridgeError;
use crate::json::{null, parse_text, text_value, tree, Json, json_of_text};
use crate::path::{joined_path, one_component, two_components, AbsolutePath};
use crate::registry::Registry;
use crate::text::{option_text, plus, same};
use vstd::prelude::*;
use vstd::string::*;

verus! {

/// A worker whose turn has not ended.
#[derive(Debug)]
pub struct PendingWorker {
    /// The request that its result answers.
    pub request_id: String,
    pub run_id: String,
    pub worker_id: String,
    pub turn_id: String,
    pub text: String,
    pub usage: serde_json::Value,
    pub activity: Vec<serde_json::Value>,
    pub model: String,
    pub effort: serde_json::Value,
    pub revision: u64,
    /// Whether the result must be JSON.
    pub structured: bool,
    /// Whether the model has begun to answer.
    pub started: bool,
}

impl PendingWorker {
    /// Whether nothing is known yet of the worker but what its start told.
    pub open spec fn is_fresh(self) -> bool {
        &&& self.text@.len() == 0
        &&& tree(self.usage) == Json::Null
        &&& self.activity@.len() == 0
        &&& self.revision == 0
        &&& !self.started
    }

    pub fn new(
        request_id: String,
        run_id: String,
        worker_id: String,
        turn_id: String,
        model: String,
        effort: serde_json::Value,
        structured: bool,
    ) -> (res: PendingWorker)
        ensures
            res.is_fresh(),
            res.request_id == request_id,
            res.run_id == run_id,
            res.worker_id == worker_id,
            res.turn_id == turn_id,
            res.model == model,
            res.effort == effort,
            res.structured == structured,
    {
        PendingWorker {
            request_id,
            run_id,
            worker_id,
            turn_id,
            text: String::new(),
            usage: null(),
            activity: Vec::new(),
            model,
            effort,
            revision: 0,
            structured,
            started: false,
        }
    }
}

/// What is told of a worker while its turn runs.
#[derive(Debug)]
pub enum WorkerNotification {
    /// More of the text of a message.
    MessageDelta { delta: String },
    Reasoning,
    UsageUpdated { usage: serde_json::Value },
    ItemStarted { item: serde_json::Value, from_user: bool },
    /// `message` is the text of an agent's message; other items have none.
    ItemCompleted { item: serde_json::Value, message: Option<String> },
    TurnStarted { turn: String },
}

impl WorkerNotification {
    /// The text of the worker after the notification.
    pub open spec fn text_after(self, text: Seq<char>) -> Seq<char> {
        match self {
            WorkerNotification::MessageDelta { delta } => text + delta@,
            WorkerNotification::ItemCompleted { item, message: Some(message) } => message@,
            _ => text,
        }
    }

    /// Whether the notification itself shows that the model has begun to answer.
    pub open spec fn shows_answer(self) -> bool {
        match self {
            WorkerNotification::Reasoning => true,
            WorkerNotification::ItemStarted { item, from_user } => !from_user,
            WorkerNotification::ItemCompleted { item, message } => message is Some,
            _ => false,
        }
    }

    pub open spec fn activity_after(self, activity: Seq<serde_json::Value>) -> Seq<
        serde_json::Value,
    > {
        match self {
            WorkerNotification::ItemStarted { item, from_user } => activity.push(item),
            WorkerNotification::ItemCompleted { item, message } => activity.push(item),
            _ => activity,
        }
    }

    pub open spec fn usage_after(self, usage: serde_json::Value) -> serde_json::Value {
        match self {
            WorkerNotification::UsageUpdated { usage } => usage,
            _ => usage,
        }
    }

    pub open spec fn turn_after(self, turn: String) -> String {
        match self {
            WorkerNotification::TurnStarted { turn } => turn,
            _ => turn,
        }
    }
}

/// Whether a worker is as a notification leaves it.
pub open spec fn is_observed(
    before: PendingWorker,
    notification: WorkerNotification,
    after: PendingWorker,
) -> bool {
    &&& after.request_id == before.request_id
    &&& after.run_id == before.run_id
    &&& after.worker_id == before.worker_id
    &&& after.model == before.model
    &&& after.effort == before.effort
    &&& after.structured == before.structured
    &&& after.turn_id == notification.turn_after(before.turn_id)
    &&& after.text@ == notification.text_after(before.text@)
    &&& after.usage == notification.usage_after(before.usage)
    &&& after.activity@ == notification.activity_after(before.activity@)
    &&& after.revision == before.revision + 1
    &&& after.started == (before.started || notification.shows_answer() || after.text@.len() > 0)
}

impl PendingWorker {
    /// Takes a notification into account.
    pub fn observe(&mut self, notification: WorkerNotification)
        requires
            old(self).revision < u64::MAX,
        ensures
            is_observed(*old(self), notification, *final(self)),
    {
        match notification {
            WorkerNotification::MessageDelta { delta } => {
                self.text = plus(self.text.as_str(), delta.as_str());
            },
            WorkerNotification::Reasoning => {
                self.started = true;
            },
            WorkerNotification::UsageUpdated { usage } => {
                self.usage = usage;
            },
            WorkerNotification::ItemStarted { item, from_user } => {
                if !from_user {
                    self.started = true;
                }
                self.activity.push(item);
            },
            WorkerNotification::ItemCompleted { item, message } => {
                match message {
                    Some(text) => {
                        self.text = text;
                        self.started = true;
                    },
                    None => {},
                }
                self.activity.push(item);
            },
            WorkerNotification::TurnStarted { turn } => {
                self.turn_id = turn;
            },
        }
        self.revision = self.revision + 1;
        if !same(self.text.as_str(), "") {
            self.started = true;
        }
        proof {
            reveal_strlit("");
            if self.text@.len() == 0 {
                assert(self.text@ =~= ""@);
            }
        }
    }
}

/// Once the model has begun to answer, no notification takes that back, and each one has a higher
/// revision than those before it.
pub proof fn answer_is_not_taken_back(
    before: PendingWorker,
    notification: WorkerNotification,
    after: PendingWorker,
)
    requires
        is_observed(before, notification, after),
    ensures
        before.started ==> after.started,
        after.text@.len() > 0 ==> after.started,
        after.revision > before.revision,
        before.activity@.is_prefix_of(after.activity@),
{
    assert(after.activity@.take(before.activity@.len() as int) =~= before.activity@);
}

/// How a turn ended.
#[derive(Clone, Copy, Debug, PartialEq, Eq, Structural)]
pub enum TurnStatus {
    Completed,
    Interrupted,
    Failed,
    InProgress,
}

impl TurnStatus {
    pub open spec fn word(self) -> Seq<char> {
        match self {
            TurnStatus::Completed => "completed"@,
            TurnStatus::Interrupted => "interrupted"@,
            TurnStatus::Failed => "failed"@,
            TurnStatus::InProgress => "inprogress"@,
        }
    }

    pub fn text(&self) -> (res: String)
        ensures
            res@ == self.word(),
    {
        match self {
            TurnStatus::Completed => "completed".to_owned(),
            TurnStatus::Interrupted => "interrupted".to_owned(),
            TurnStatus::Failed => "failed".to_owned(),
            TurnStatus::InProgress => "inprogress".to_owned(),
        }
    }
}

/// Whether this is what a turn hands out: nothing unless it is completed, and the text as JSON where
/// JSON is asked for.
pub open spec fn is_output(
    status: Seq<char>,
    structured: bool,
    text: Seq<char>,
    output: Result<serde_json::Value, BridgeError>,
) -> bool {
    if status != "completed"@ {
        output matches Ok(value) && tree(value) == Json::Null
    } else if structured {
        match json_of_text(text) {
            Ok(json) => output matches Ok(value) && tree(value) == json,
            Err(message) => output matches Err(error) && error.is(
                "INVALID_STRUCTURED_OUTPUT"@,
                message,
                false,
            ),
        }
    } else {
        output matches Ok(value) && tree(value) == Json::Text(text)
    }
}

/// What a turn that has ended hands out.
pub fn terminal_output(status: &str, structured: bool, text: &str) -> (res: Result<
    serde_json::Value,
    BridgeError,
>)
    ensures
        is_output(status@, structured, text@, res),
{
    if !same(status, "completed") {
        return Ok(null());
    }
    if structured {
        return structured_output(parse_text(text));
    }
    Ok(text_value(text))
}

/// What a completed turn hands out where JSON is asked for, by what its text was read as.
pub fn structured_output(parsed: Result<serde_json::Value, String>) -> (res: Result<
    serde_json::Value,
    BridgeError,
>)
    ensures
        match parsed {
            Ok(value) => res == Ok::<serde_json::Value, BridgeError>(value),
            Err(message) => res matches Err(error) && error.is(
                "INVALID_STRUCTURED_OUTPUT"@,
                message@,
                false,
            ),
        },
{
    match parsed {
        Ok(value) => Ok(value),
        Err(message) => Err(
            BridgeError::host_code("INVALID_STRUCTURED_OUTPUT", message.as_str()),
        ),
    }
}

/// The text of the last message among the items of a turn; an item that is no message has none.
pub open spec fn last_message(items: Seq<Option<String>>) -> Option<Seq<char>>
    decreases items.len(),
{
    if items.len() == 0 {
        None
    } else {
        match items.last() {
            Some(text) => Some(text@),
            None => last_message(items.drop_last()),
        }
    }
}

/// A turn that has ended. Of its items only the texts of the messages are there.
#[derive(Debug)]
pub struct TurnEnd {
    pub items: Vec<Option<String>>,
    pub status: TurnStatus,
    pub error: Option<String>,
}

fn find_last_message(items: &Vec<Option<String>>) -> (res: Option<String>)
    ensures
        option_text(res) == last_message(items@),
{
    let mut i: usize = items.len();
    assert(items@.take(items@.len() as int) =~= items@);
    while i > 0
        invariant
            i <= items@.len(),
            last_message(items@.take(i as int)) == last_message(items@),
        decreases i,
    {
        assert(items@.take(i as int).drop_last() =~= items@.take(i - 1));
        assert(items@.take(i as int).last() == items@[i - 1]);
        match &items[i - 1] {
            Some(text) => {
                return Some(text.clone());
            },
            None => {},
        }
        i = i - 1;
    }
    None
}

/// The result of a worker.
#[derive(Debug)]
pub struct WorkerResult {
    pub thread_id: String,
    pub turn_id: String,
    pub status: String,
    pub output: serde_json::Value,
    pub text: String,
    pub usage: serde_json::Value,
    pub activity: Vec<serde_json::Value>,
    pub model: String,
    pub effort: serde_json::Value,
    pub error: Option<String>,
}

/// The text of a worker when its turn has ended: its last message, or what was heard of it.
pub open spec fn final_text(worker: PendingWorker, end: TurnEnd) -> Seq<char> {
    match last_message(end.items@) {
        Some(text) => text,
        None => worker.text@,
    }
}

/// Whether this is the result of a worker.
pub open spec fn is_result(
    worker: PendingWorker,
    thread_id: Seq<char>,
    end: TurnEnd,
    res: Result<WorkerResult, BridgeError>,
) -> bool {
    match res {
        Ok(result) => {
            &&& is_output(
                end.status.word(),
                worker.structured,
                final_text(worker, end),
                Ok::<serde_json::Value, BridgeError>(result.output),
            )
            &&& result.thread_id@ == thread_id
            &&& result.turn_id == worker.turn_id
            &&& result.status@ == end.status.word()
            &&& result.text@ == final_text(worker, end)
            &&& result.usage == worker.usage
            &&& result.activity == worker.activity
            &&& result.model == worker.model
            &&& result.effort == worker.effort
            &&& result.error == end.error
        },
        Err(error) => is_output(
            end.status.word(),
            worker.structured,
            final_text(worker, end),
            Err::<serde_json::Value, BridgeError>(error),
        ),
    }
}

/// Ends a worker.
pub fn worker_result(worker: PendingWorker, thread_id: &str, end: TurnEnd) -> (res: Result<
    WorkerResult,
    BridgeError,
>)
    ensures
        is_result(worker, thread_id@, end, res),
{
    let text = match find_last_message(&end.items) {
        Some(text) => text,
        None => worker.text,
    };
    let status = end.status.text();
    let output = match terminal_output(status.as_str(), worker.structured, text.as_str()) {
        Ok(output) => output,
        Err(error) => {
            return Err(error);
        },
    };
    Ok(
        WorkerResult {
            thread_id: thread_id.to_owned(),
            turn_id: worker.turn_id,
            status,
            output,
            text,
            usage: worker.usage,
            activity: worker.activity,
            model: worker.model,
            effort: worker.effort,
            error: end.error,
        },
    )
}

/// A turn that is not completed hands out nothing, and that is never an error: its own state is what
/// is told.
pub proof fn unfinished_turn_keeps_its_status(
    worker: PendingWorker,
    thread_id: Seq<char>,
    end: TurnEnd,
    res: Result<WorkerResult, BridgeError>,
)
    requires
        is_result(worker, thread_id, end, res),
        end.status != TurnStatus::Completed,
    ensures
        res matches Ok(result) && tree(result.output) == Json::Null && result.status@
            == end.status.word(),
{
    reveal_strlit("completed");
    reveal_strlit("interrupted");
    reveal_strlit("failed");
    reveal_strlit("inprogress");
    assert("interrupted"@.len() != "completed"@.len());
    assert("failed"@.len() != "completed"@.len());
    assert("inprogress"@.len() != "completed"@.len());
}

/// The workflow session of a parent.
pub struct WorkflowSession {
    /// The process that runs the workflows. Two sessions with the same number talk to the same one.
    pub peer: u64,
    /// Whether the process outlives this one.
    pub supervised: bool,
    /// The workers that run, by their threads.
    pub pending_workers: Registry<PendingWorker>,
    /// The attempts of runs whose end the parent was told of.
    pub reported_runs: Vec<(String, u64)>,
    pub active_runs: bool,
}

/// Whether the parent was told of the end of an attempt.
pub open spec fn is_reported(reported: Seq<(String, u64)>, run_id: Seq<char>, attempt: u64) -> bool {
    exists|i: int|
        0 <= i < reported.len() && (#[trigger] reported[i]).0@ == run_id && reported[i].1 == attempt
}

impl WorkflowSession {
    pub open spec fn well_formed(self) -> bool {
        self.pending_workers.well_formed()
    }

    pub fn new(peer: u64, supervised: bool) -> (res: WorkflowSession)
        ensures
            res.well_formed(),
            res.peer == peer,
            res.supervised == supervised,
            res.pending_workers.map() == Map::<Seq<char>, PendingWorker>::empty(),
            res.reported_runs@.len() == 0,
            !res.active_runs,
    {
        WorkflowSession {
            peer,
            supervised,
            pending_workers: Registry::new(),
            reported_runs: Vec::new(),
            active_runs: false,
        }
    }

    pub fn has_reported(&self, run_id: &str, attempt: u64) -> (res: bool)
        ensures
            res == is_reported(self.reported_runs@, run_id@, attempt),
    {
        let mut i: usize = 0;
        while i < self.reported_runs.len()
            invariant
                i <= self.reported_runs@.len(),
                forall|j: int|
                    0 <= j < i ==> !((#[trigger] self.reported_runs@[j]).0@ == run_id@
                        && self.reported_runs@[j].1 == attempt),
            decreases self.reported_runs@.len() - i,
        {
            if same(self.reported_runs[i].0.as_str(), run_id) && self.reported_runs[i].1
                == attempt {
                return true;
            }
            i = i + 1;
        }
        false
    }
}

/// Whether two sessions differ in their pending workers alone.
pub open spec fn same_but_workers(a: WorkflowSession, b: WorkflowSession) -> bool {
    &&& a.peer == b.peer
    &&& a.supervised == b.supervised
    &&& a.reported_runs == b.reported_runs
    &&& a.active_runs == b.active_runs
}

/// Whether two sessions are the same but for whether runs are active.
pub open spec fn same_but_activity(a: WorkflowSession, b: WorkflowSession) -> bool {
    &&& a.peer == b.peer
    &&& a.supervised == b.supervised
    &&& a.reported_runs == b.reported_runs
    &&& a.pending_workers == b.pending_workers
}

/// The sessions of the parents, by their threads. Every session is well-formed.
pub open spec fn sessions_well_formed(sessions: Registry<WorkflowSession>) -> bool {
    &&& sessions.well_formed()
    &&& forall|key: Seq<char>| #[trigger]
        sessions.map().dom().contains(key) ==> sessions.map()[key].well_formed()
}

/// Finds a session with a process.
pub fn session_of_peer(sessions: &Registry<WorkflowSession>, peer: u64) -> (res: Option<String>)
    requires
        sessions.well_formed(),
    ensures
        res matches Some(key) ==> sessions.map().dom().contains(key@) && sessions.map()[key@].peer
            == peer,
        res is None ==> forall|key: Seq<char>| #[trigger]
            sessions.map().dom().contains(key) ==> sessions.map()[key].peer != peer,
{
    let keys = sessions.keys();
    let mut i: usize = 0;
    while i < keys.len()
        invariant
            sessions.well_formed(),
            sessions.names(keys@),
            i <= keys@.len(),
            forall|j: int| 0 <= j < i ==> sessions.map()[(#[trigger] keys@[j])@].peer != peer,
        decreases keys@.len() - i,
    {
        match sessions.get(keys[i].as_str()) {
            Some(session) => {
                if session.peer == peer {
                    return Some(keys[i].clone());
                }
            },
            None => {},
        }
        i = i + 1;
    }
    None
}

/// Finds the session that a worker runs in.
pub fn session_of_worker(sessions: &Registry<WorkflowSession>, thread_id: &str) -> (res: Option<
    String,
>)
    requires
        sessions_well_formed(*sessions),
    ensures
        res matches Some(key) ==> sessions.map().dom().contains(key@)
            && sessions.map()[key@].pending_workers.map().dom().contains(thread_id@),
        res is None ==> forall|key: Seq<char>| #[trigger]
            sessions.map().dom().contains(key)
                ==> !sessions.map()[key].pending_workers.map().dom().contains(thread_id@),
{
    let keys = sessions.keys();
    let mut i: usize = 0;
    while i < keys.len()
        invariant
            sessions_well_formed(*sessions),
            sessions.names(keys@),
            i <= keys@.len(),
            forall|j: int|
                0 <= j < i ==> !sessions.map()[(#[trigger] keys@[j])@].pending_workers.map().dom().contains(
                    thread_id@,
                ),
        decreases keys@.len() - i,
    {
        match sessions.get(keys[i].as_str()) {
            Some(session) => {
                if session.pending_workers.contains(thread_id) {
                    return Some(keys[i].clone());
                }
            },
            None => {},
        }
        i = i + 1;
    }
    None
}

/// Where the state of a parent's workflows is, and where it was before it had a place outside the
/// project.
pub struct StateDirectories {
    pub parent: AbsolutePath,
    pub state: AbsolutePath,
    pub legacy: AbsolutePath,
}

/// Whether these are the directories of a parent's state.
pub open spec fn are_state_directories(
    codex_home: Seq<Seq<char>>,
    cwd: Seq<Seq<char>>,
    thread_id: Seq<char>,
    directories: StateDirectories,
) -> bool {
    &&& directories.parent@ == joined_path(codex_home, "ultracode/sessions"@)
    &&& directories.state@ == joined_path(directories.parent@, thread_id)
    &&& directories.legacy@ == joined_path(
        joined_path(cwd, ".ultracode/native/sessions"@),
        thread_id,
    )
}

/// The directories of a parent's state. The identifier is one path component or several, as it is
/// written.
pub fn workflow_state_dir(codex_home: &AbsolutePath, cwd: &AbsolutePath, thread_id: &str) -> (res:
    StateDirectories)
    ensures
        are_state_directories(codex_home@, cwd@, thread_id@, res),
{
    let parent = codex_home.join("ultracode/sessions");
    let state = parent.join(thread_id);
    let legacy = cwd.join(".ultracode/native/sessions").join(thread_id);
    StateDirectories { parent, state, legacy }
}

/// Whether the state of a parent moves to its new place.
pub open spec fn state_moves(state_exists: bool, legacy_exists: bool) -> bool {
    !state_exists && legacy_exists
}

/// Whether the state moves from where it was: only where there is none in its place.
pub fn migrates(state_exists: bool, legacy_exists: bool) -> (res: bool)
    ensures
        res == state_moves(state_exists, legacy_exists),
{
    !state_exists && legacy_exists
}

/// Whether a validated digest is accepted for a preview, or refused so.
pub open spec fn is_digest_checked(
    validated: Option<Seq<char>>,
    preview_digest: Seq<char>,
    res: Result<(), String>,
) -> bool {
    &&& res is Ok <==> validated == Some(preview_digest)
    &&& res matches Err(message) ==> message@ == if validated is None {
        "Validated workflow digest is unavailable"@
    } else {
        "Validated workflow digest does not match its preview"@
    }
}

/// Checks that what was validated is what is shown.
pub fn check_validated_digest(validated: &Option<String>, preview_digest: &str) -> (res: Result<
    (),
    String,
>)
    ensures
        is_digest_checked(option_text(*validated), preview_digest@, res),
{
    match validated {
        None => Err("Validated workflow digest is unavailable".to_owned()),
        Some(digest) => if same(digest.as_str(), preview_digest) {
            Ok(())
        } else {
            Err("Validated workflow digest does not match its preview".to_owned())
        },
    }
}

/// What is heard of a worker adds up: more of a message is appended to what was heard, a finished
/// message takes its place, each item is noted once and in order, the last usage and the last turn
/// count, and what the worker is stays the same.
pub proof fn worker_is_heard(
    before: PendingWorker,
    notification: WorkerNotification,
    after: PendingWorker,
)
    requires
        is_observed(before, notification, after),
    ensures
        notification matches WorkerNotification::MessageDelta { delta } ==> after.text@
            == before.text@ + delta@ && after.activity@ == before.activity@ && after.turn_id
            == before.turn_id,
        notification matches WorkerNotification::ItemCompleted { item, message } ==> {
            &&& after.activity@ == before.activity@.push(item)
            &&& message is Some ==> after.text@ == message->Some_0@ && after.started
            &&& message is None ==> after.text@ == before.text@
        },
        notification matches WorkerNotification::ItemStarted { item, from_user } ==> {
            &&& after.activity@ == before.activity@.push(item)
            &&& after.text@ == before.text@
            &&& !from_user ==> after.started
            &&& from_user && before.text@.len() == 0 ==> after.started == before.started
        },
        notification is Reasoning ==> after.started && after.text@ == before.text@
            && after.activity@ == before.activity@,
        notification matches WorkerNotification::UsageUpdated { usage } ==> after.usage == usage
            && after.text@ == before.text@ && after.activity@ == before.activity@,
        !(notification is UsageUpdated) ==> after.usage == before.usage,
        notification matches WorkerNotification::TurnStarted { turn } ==> after.turn_id == turn
            && after.text@ == before.text@ && after.activity@ == before.activity@,
        !(notification is TurnStarted) ==> after.turn_id == before.turn_id,
        after.request_id == before.request_id,
        after.run_id == before.run_id,
        after.worker_id == before.worker_id,
        after.model == before.model,
        after.effort == before.effort,
        after.structured == before.structured,
        after.revision == before.revision + 1,
{
}

/// The text of a turn is that of its last message.
pub proof fn last_message_is_the_last(items: Seq<Option<String>>, i: int)
    requires
        0 <= i < items.len(),
        items[i] is Some,
        forall|j: int| i < j < items.len() ==> (#[trigger] items[j]) is None,
    ensures
        last_message(items) == Some(items[i]->Some_0@),
    decreases items.len(),
{
    if i < items.len() - 1 {
        assert(items[items.len() - 1] is None);
        let head = items.drop_last();
        assert forall|j: int| i < j < head.len() implies (#[trigger] head[j]) is None by {
            assert(head[j] == items[j]);
        }
        last_message_is_the_last(head, i);
    }
}

/// A turn without a message has none.
pub proof fn no_message_is_made_up(items: Seq<Option<String>>)
    requires
        forall|j: int| 0 <= j < items.len() ==> (#[trigger] items[j]) is None,
    ensures
        last_message(items) is None,
    decreases items.len(),
{
    if items.len() > 0 {
        let head = items.drop_last();
        assert(items[items.len() - 1] is None);
        assert forall|j: int| 0 <= j < head.len() implies (#[trigger] head[j]) is None by {
            assert(head[j] == items[j]);
        }
        no_message_is_made_up(head);
    }
}

/// A completed worker hands out its text: the last message of the turn, or what was heard of it where
/// the turn has none. Where JSON is asked for it is what the text reads as, and a text that does not
/// read as JSON is the only way in which a worker fails to have a result. Everything else of the
/// result is the worker's own.
pub proof fn completed_worker_hands_out_its_text(
    worker: PendingWorker,
    thread_id: Seq<char>,
    end: TurnEnd,
    res: Result<WorkerResult, BridgeError>,
)
    requires
        is_result(worker, thread_id, end, res),
    ensures
        ({
            let text = if last_message(end.items@) is Some {
                last_message(end.items@)->Some_0
            } else {
                worker.text@
            };
            &&& res is Err <==> end.status is Completed && worker.structured && json_of_text(text)
                is Err
            &&& res matches Err(error) ==> error.code@ == "INVALID_STRUCTURED_OUTPUT"@
                && !error.outcome_unresolved
            &&& res matches Ok(result) ==> {
                &&& result.text@ == text
                &&& result.thread_id@ == thread_id
                &&& result.turn_id == worker.turn_id
                &&& result.usage == worker.usage
                &&& result.activity == worker.activity
                &&& result.model == worker.model
                &&& result.effort == worker.effort
                &&& result.error == end.error
                &&& end.status is Completed && !worker.structured ==> tree(result.output)
                    == Json::Text(text)
                &&& end.status is Completed && worker.structured ==> tree(result.output)
                    == json_of_text(text)->Ok_0
                &&& !(end.status is Completed) ==> tree(result.output) == Json::Null
                &&& end.status is Completed ==> result.status@ == "completed"@
                &&& end.status is Interrupted ==> result.status@ == "interrupted"@
                &&& end.status is Failed ==> result.status@ == "failed"@
                &&& end.status is InProgress ==> result.status@ == "inprogress"@
            }
        }),
{
    reveal_strlit("completed");
    reveal_strlit("interrupted");
    reveal_strlit("failed");
    reveal_strlit("inprogress");
    assert("interrupted"@.len() != "completed"@.len());
    assert("failed"@.len() != "completed"@.len());
    assert("inprogress"@.len() != "completed"@.len());
}

/// The end of an attempt counts as told exactly where this attempt of this run was noted.
pub proof fn told_attempts_are_noted(
    reported: Seq<(String, u64)>,
    last: (String, u64),
    run_id: Seq<char>,
    attempt: u64,
)
    ensures
        !is_reported(Seq::empty(), run_id, attempt),
        is_reported(reported.push(last), run_id, attempt) <==> is_reported(reported, run_id, attempt)
            || (last.0@ == run_id && last.1 == attempt),
{
    let all = reported.push(last);
    if is_reported(reported, run_id, attempt) {
        let i = choose|i: int|
            0 <= i < reported.len() && (#[trigger] reported[i]).0@ == run_id && reported[i].1
                == attempt;
        assert(all[i].0@ == run_id);
    }
    assert(all[reported.len() as int] == last);
    if is_reported(all, run_id, attempt) {
        let i = choose|i: int|
            0 <= i < all.len() && (#[trigger] all[i]).0@ == run_id && all[i].1 == attempt;
        if i < reported.len() {
            assert(reported[i].0@ == run_id);
        }
    }
}

/// The state of a parent is kept in a directory of its own below the home directory. What was kept in
/// the project is moved there only where nothing is there yet.
pub proof fn state_has_its_own_place(
    codex_home: Seq<Seq<char>>,
    cwd: Seq<Seq<char>>,
    thread_id: Seq<char>,
    directories: StateDirectories,
    state_exists: bool,
    legacy_exists: bool,
)
    requires
        are_state_directories(codex_home, cwd, thread_id, directories),
        thread_id.len() > 0,
        thread_id != "."@,
        forall|i: int| 0 <= i < thread_id.len() ==> thread_id[i] != '/',
    ensures
        directories.parent@ == codex_home.push("ultracode"@).push("sessions"@),
        directories.state@ == codex_home.push("ultracode"@).push("sessions"@).push(thread_id),
        directories.legacy@.last() == thread_id,
        state_moves(state_exists, legacy_exists) <==> legacy_exists && !state_exists,
{
    reveal_strlit("ultracode/sessions");
    reveal_strlit("ultracode");
    reveal_strlit("sessions");
    reveal_strlit("/");
    reveal_strlit(".");
    assert("ultracode/sessions"@ =~= "ultracode"@ + "/"@ + "sessions"@);
    two_components(codex_home, "ultracode"@, "sessions"@);
    one_component(thread_id);
    assert(directories.state@ =~= directories.parent@.push(thread_id));
    let place = joined_path(cwd, ".ultracode/native/sessions"@);
    assert(directories.legacy@ =~= place.push(thread_id));
}

/// Nothing is shown as validated but what was validated.
pub proof fn only_the_validated_source_is_shown(
    validated: Option<Seq<char>>,
    preview_digest: Seq<char>,
    res: Result<(), String>,
)
    requires
        is_digest_checked(validated, preview_digest, res),
    ensures
        res is Ok <==> validated is Some && validated->Some_0 == preview_digest,
        validated is None ==> res->Err_0@ == "Validated workflow digest is unavailable"@,
{
}

} // verus!
