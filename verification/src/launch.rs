//! Launching workflows from the terminal application: saved ones, and those that tool calls ask for.
use crate::action::{
    acts, add_action, add_actions, just, Act, LaunchSource, NamedSource, WorkflowAction,
};
use crate::app::{is_current, same_but_commands, App};
use crate::catalog::{
    catalog_commands, commands, digest_among, named_items, saved_digest, saved_items, Command,
};
use crate::consent::WorkflowConsentChoice;
use crate::ids::{uuid_parse, uuid_text, ThreadId};
use crate::json::{member_text, tree, Json};
use crate::render::WorkflowSourcePreview;
use crate::text::{option_text, plus, plus3, texts};
use vstd::prelude::*;
use vstd::string::*;

verus! {

/// A tool call that asks for a workflow.
#[derive(Debug)]
pub struct ToolCall {
    pub request_id: String,
    pub thread_id: String,
    /// Why the arguments are not valid.
    pub invalid: Option<String>,
    /// The name among the arguments.
    pub workflow_name: Option<String>,
    /// Whether the arguments hold the source itself.
    pub inline: bool,
    /// The saved workflow that the arguments lead to.
    pub saved_name: Option<String>,
}

/// What answers a tool call.
#[derive(Debug)]
pub struct ToolResponse {
    pub items: Vec<String>,
    pub success: bool,
}

/// What a user adds to an answer.
pub open spec fn with_feedback(items: Seq<Seq<char>>, feedback: Option<Seq<char>>) -> Seq<
    Seq<char>,
> {
    match feedback {
        Some(text) => items.push("Workflow consent feedback: "@ + text),
        None => items,
    }
}

/// Adds what the user typed to an answer, as its last item.
pub fn append_workflow_feedback(response: &mut ToolResponse, feedback: Option<String>)
    ensures
        texts(final(response).items@) == with_feedback(
            texts(old(response).items@),
            option_text(feedback),
        ),
        final(response).success == old(response).success,
{
    match feedback {
        Some(feedback) => {
            let text = plus("Workflow consent feedback: ", feedback.as_str());
            let ghost before = response.items@;
            response.items.push(text);
            assert(texts(response.items@) =~= texts(before).push(text@));
        },
        None => {},
    }
}

/// An answer that tells of a failure.
pub fn failure_response(text: &str) -> (res: ToolResponse)
    ensures
        texts(res.items@) == seq![text@],
        !res.success,
{
    let mut items: Vec<String> = Vec::new();
    items.push(text.to_owned());
    assert(texts(items@) =~= seq![text@]);
    ToolResponse { items, success: false }
}

/// The answer to a tool call that failed, with what the user typed.
pub open spec fn failed(request_id: Seq<char>, text: Seq<char>, feedback: Option<Seq<char>>) -> Act {
    Act::Respond { request_id, items: with_feedback(seq![text], feedback), success: false }
}

fn fail_call(request_id: String, text: &str, feedback: Option<String>) -> (res: WorkflowAction)
    ensures
        res@ == failed(request_id@, text@, option_text(feedback)),
{
    let mut response = failure_response(text);
    append_workflow_feedback(&mut response, feedback);
    WorkflowAction::Respond { request_id, items: response.items, success: response.success }
}

/// What comes of a request to load the commands of a parent. A parent that the user sees has none in
/// the meantime.
pub open spec fn load_acts(app: App, thread_id: Seq<char>) -> Seq<Act> {
    let ask = seq![
        Act::OpenSession { thread_id, isolated: false },
        Act::LoadCommands { thread_id },
    ];
    if is_current(app, thread_id) {
        seq![Act::ClearStatus] + ask
    } else {
        ask
    }
}

/// What comes of the wish to run a saved workflow: it is looked up for the parent that the user sees.
pub open spec fn run_saved_acts(app: App, name: Seq<char>, args: Option<Seq<char>>) -> Seq<Act> {
    match app.thread_id {
        None => seq![Act::Fail { text: "Parent session is unavailable"@ }],
        Some(id) => seq![
            Act::OpenSession { thread_id: uuid_text(id.value), isolated: false },
            Act::CheckSaved { thread_id: uuid_text(id.value), name, args },
        ],
    }
}

impl App {
    pub fn load_catalog(&mut self, thread_id: String) -> (res: Vec<WorkflowAction>)
        ensures
            same_but_commands(*old(self), *final(self)),
            commands(final(self).commands@) == if is_current(*old(self), thread_id@) {
                Seq::<Command>::empty()
            } else {
                commands(old(self).commands@)
            },
            acts(res@) == load_acts(*old(self), thread_id@),
    {
        let mut actions: Vec<WorkflowAction> = Vec::new();
        if self.sees(thread_id.as_str()) {
            self.commands = Vec::new();
            assert(commands(self.commands@) =~= Seq::<Command>::empty());
            add_action(&mut actions, WorkflowAction::ClearStatus);
        }
        add_action(
            &mut actions,
            WorkflowAction::OpenSession { thread_id: thread_id.clone(), isolated: false },
        );
        add_action(&mut actions, WorkflowAction::LoadCommands { thread_id });
        assert(acts(actions@) =~= load_acts(*old(self), thread_id@));
        actions
    }

    /// Takes the list of saved workflows of a parent. The commands change only where the user still
    /// sees it.
    pub fn catalog_loaded(&mut self, thread_id: &str, peer: u64, catalog: &serde_json::Value) -> (res:
        Vec<WorkflowAction>)
        ensures
            same_but_commands(*old(self), *final(self)),
            commands(final(self).commands@) == if is_current(*old(self), thread_id@) {
                named_items(saved_items(tree(*catalog)))
            } else {
                commands(old(self).commands@)
            },
            acts(res@) == seq![Act::ListRuns { peer }],
    {
        let list = catalog_commands(catalog);
        if self.sees(thread_id) {
            self.commands = list;
        }
        just(WorkflowAction::ListRuns { peer })
    }

    /// The user runs a saved workflow.
    pub fn run_saved(&self, name: String, args: Option<String>) -> (res: Vec<WorkflowAction>)
        ensures
            acts(res@) == run_saved_acts(*self, name@, option_text(args)),
    {
        let id = match &self.thread_id {
            Some(id) => id,
            None => {
                return just(
                    WorkflowAction::Fail { text: "Parent session is unavailable".to_owned() },
                );
            },
        };
        let mut actions = just(
            WorkflowAction::OpenSession { thread_id: id.to_text(), isolated: false },
        );
        add_action(&mut actions, WorkflowAction::CheckSaved { thread_id: id.to_text(), name, args });
        assert(acts(actions@) =~= seq![
            Act::OpenSession { thread_id: uuid_text(id.value), isolated: false },
            Act::CheckSaved {
                thread_id: uuid_text(id.value),
                name: name@,
                args: option_text(args),
            },
        ]);
        actions
    }
}

/// Whether a saved workflow runs without a question: the user is never asked, or chose so for the
/// source that is now saved.
pub open spec fn runs_unasked(app: App, digest: Option<Seq<char>>, remembered: bool) -> bool {
    app.never_ask || (digest is Some && remembered)
}

/// What the feedback of a user comes to: it is given to the parent, where its identity is valid.
pub open spec fn feedback_acts(thread_id: Seq<char>, feedback: Option<Seq<char>>) -> Seq<Act> {
    match feedback {
        None => Seq::empty(),
        Some(text) => match uuid_parse(thread_id) {
            Ok(value) => seq![Act::InjectFeedback { thread: ThreadId { value }, text }],
            Err(message) => seq![Act::Fail { text: message }],
        },
    }
}

/// Whether a source was edited: it is shown, and is no longer a saved one.
pub open spec fn is_edited(preview: Option<WorkflowSourcePreview>) -> bool {
    preview matches Some(preview) && preview.workflow_id is None
}

/// What launches a saved workflow. An edited source runs in its place, and cannot be remembered.
pub open spec fn saved_launch_acts(
    thread_id: Seq<char>,
    name: Seq<char>,
    args: Option<Seq<char>>,
    choice: WorkflowConsentChoice,
    preview: Option<WorkflowSourcePreview>,
) -> Seq<Act> {
    let open = Act::OpenSession { thread_id, isolated: true };
    if is_edited(preview) && choice == WorkflowConsentChoice::Remember {
        seq![
            open,
            Act::Fail { text: "Edited workflows cannot inherit saved workflow permissions"@ },
        ]
    } else if is_edited(preview) {
        seq![
            open,
            Act::LaunchSaved {
                thread_id,
                saved: None,
                script: Some(preview->Some_0.source@),
                args,
                preview,
            },
        ]
    } else {
        seq![
            open,
            Act::LaunchSaved { thread_id, saved: Some(name), script: None, args, preview },
        ]
    }
}

/// What comes of a saved workflow whose source has this digest: it runs, or the user is asked.
pub open spec fn saved_listed_acts(
    app: App,
    thread_id: Seq<char>,
    name: Seq<char>,
    args: Option<Seq<char>>,
    digest: Option<Seq<char>>,
    remembered: bool,
) -> Seq<Act> {
    if runs_unasked(app, digest, remembered) {
        saved_consent_acts(thread_id, name, args, WorkflowConsentChoice::Run, None, None)
    } else {
        seq![Act::PreviewSaved { thread_id, name, args }]
    }
}

/// What comes of a decision about a saved workflow.
pub open spec fn saved_consent_acts(
    thread_id: Seq<char>,
    name: Seq<char>,
    args: Option<Seq<char>>,
    choice: WorkflowConsentChoice,
    feedback: Option<Seq<char>>,
    preview: Option<WorkflowSourcePreview>,
) -> Seq<Act> {
    if choice == WorkflowConsentChoice::Cancel || (feedback is Some && uuid_parse(thread_id) is Err) {
        feedback_acts(thread_id, feedback)
    } else {
        feedback_acts(thread_id, feedback) + saved_launch_acts(
            thread_id,
            name,
            args,
            choice,
            preview,
        )
    }
}

/// Launches a saved workflow, or what its source was edited to.
fn launch_saved(
    thread_id: String,
    name: String,
    args: Option<String>,
    choice: WorkflowConsentChoice,
    preview: Option<WorkflowSourcePreview>,
) -> (res: Vec<WorkflowAction>)
    ensures
        acts(res@) == saved_launch_acts(
            thread_id@,
            name@,
            option_text(args),
            choice,
            preview,
        ),
{
    let ghost expected = saved_launch_acts(thread_id@, name@, option_text(args), choice, preview);
    let mut actions = just(
        WorkflowAction::OpenSession { thread_id: thread_id.clone(), isolated: true },
    );
    let script = match &preview {
        Some(preview) => if preview.workflow_id.is_none() {
            Some(preview.source.clone())
        } else {
            None
        },
        None => None,
    };
    match script {
        Some(source) => {
            if choice == WorkflowConsentChoice::Remember {
                add_action(
                    &mut actions,
                    WorkflowAction::Fail {
                        text:
                            "Edited workflows cannot inherit saved workflow permissions".to_owned(),
                    },
                );
            } else {
                add_action(
                    &mut actions,
                    WorkflowAction::LaunchSaved {
                        thread_id,
                        source: LaunchSource::Script { source },
                        args,
                        preview,
                    },
                );
            }
        },
        None => {
            add_action(
                &mut actions,
                WorkflowAction::LaunchSaved {
                    thread_id,
                    source: LaunchSource::Saved { name },
                    args,
                    preview,
                },
            );
        },
    }
    assert(acts(actions@) =~= expected);
    actions
}

/// Acts on a decision about a saved workflow.
pub fn run_saved_consent(
    thread_id: String,
    name: String,
    args: Option<String>,
    choice: WorkflowConsentChoice,
    feedback: Option<String>,
    preview: Option<WorkflowSourcePreview>,
) -> (res: Vec<WorkflowAction>)
    ensures
        acts(res@) == saved_consent_acts(
            thread_id@,
            name@,
            option_text(args),
            choice,
            option_text(feedback),
            preview,
        ),
{
    let ghost given = feedback_acts(thread_id@, option_text(feedback));
    let mut actions: Vec<WorkflowAction> = Vec::new();
    assert(acts(actions@) =~= Seq::<Act>::empty());
    match feedback {
        Some(text) => match ThreadId::from_string(thread_id.as_str()) {
            Ok(thread) => {
                add_action(&mut actions, WorkflowAction::InjectFeedback { thread, text });
            },
            Err(message) => {
                return just(WorkflowAction::Fail { text: message });
            },
        },
        None => {},
    }
    assert(acts(actions@) =~= given);
    if choice == WorkflowConsentChoice::Cancel {
        return actions;
    }
    let more = launch_saved(thread_id, name, args, choice, preview);
    add_actions(&mut actions, more);
    actions
}

/// What a launch came to.
#[derive(Debug)]
pub struct SavedLaunch {
    pub thread_id: String,
    pub name: String,
    pub choice: WorkflowConsentChoice,
    /// Whether the edited source ran.
    pub edited: bool,
    /// The digest of the source that ran.
    pub digest: Option<String>,
    pub result: Result<serde_json::Value, String>,
}

/// What the user is told of a launch.
pub open spec fn launch_note(launch: SavedLaunch, result: Json) -> Act {
    Act::ShowInfo {
        text: if launch.edited {
            "Edited workflow launched"@
        } else {
            "Workflow /"@ + launch.name@ + " launched"@
        },
        detail: result.member_text("scriptPath"@),
    }
}

/// What follows the launch of a saved workflow.
pub open spec fn saved_launched_acts(app: App, launch: SavedLaunch) -> Seq<Act> {
    let remembers = launch.choice == WorkflowConsentChoice::Remember;
    let remembered = match launch.digest {
        Some(digest) => seq![
            Act::RememberNamed {
                thread_id: launch.thread_id@,
                name: launch.name@,
                digest: digest@,
            },
        ],
        None => seq![Act::Fail { text: "Saved workflow digest is unavailable"@ }],
    };
    let told = match launch.result {
        Err(message) => seq![Act::Fail { text: message@ }],
        Ok(result) => if is_current(app, launch.thread_id@) {
            seq![launch_note(launch, tree(result))]
        } else {
            Seq::empty()
        },
    };
    if remembers && launch.digest is None {
        remembered
    } else if remembers {
        remembered + told
    } else {
        told
    }
}

impl App {
    /// Takes the list of saved workflows to run one of them. `remembered` tells whether the user
    /// chose not to be asked for the source that the list tells.
    pub fn saved_listed(
        &self,
        thread_id: String,
        name: String,
        args: Option<String>,
        catalog: &serde_json::Value,
        remembered: bool,
    ) -> (res: Vec<WorkflowAction>)
        ensures
            acts(res@) == saved_listed_acts(
                *self,
                thread_id@,
                name@,
                option_text(args),
                digest_among(saved_items(tree(*catalog)), name@),
                remembered,
            ),
    {
        let digest = saved_digest(catalog, name.as_str());
        if self.never_ask || (digest.is_some() && remembered) {
            return run_saved_consent(
                thread_id,
                name,
                args,
                WorkflowConsentChoice::Run,
                None,
                None,
            );
        }
        just(WorkflowAction::PreviewSaved { thread_id, name, args })
    }

    /// Takes what the launch of a saved workflow came to.
    pub fn saved_launched(&self, launch: SavedLaunch) -> (res: Vec<WorkflowAction>)
        ensures
            acts(res@) == saved_launched_acts(*self, launch),
    {
        let ghost expected = saved_launched_acts(*self, launch);
        let mut actions: Vec<WorkflowAction> = Vec::new();
        assert(acts(actions@) =~= Seq::<Act>::empty());
        if launch.choice == WorkflowConsentChoice::Remember {
            match launch.digest {
                Some(digest) => {
                    add_action(
                        &mut actions,
                        WorkflowAction::RememberNamed {
                            thread_id: launch.thread_id.clone(),
                            name: launch.name.clone(),
                            digest,
                        },
                    );
                },
                None => {
                    return just(
                        WorkflowAction::Fail {
                            text: "Saved workflow digest is unavailable".to_owned(),
                        },
                    );
                },
            }
        }
        match launch.result {
            Err(text) => {
                add_action(&mut actions, WorkflowAction::Fail { text });
            },
            Ok(result) => {
                if self.sees(launch.thread_id.as_str()) {
                    let text = if launch.edited {
                        "Edited workflow launched".to_owned()
                    } else {
                        plus3("Workflow /", launch.name.as_str(), " launched")
                    };
                    let detail = member_text(&result, "scriptPath");
                    add_action(&mut actions, WorkflowAction::ShowInfo { text, detail });
                }
            },
        }
        assert(acts(actions@) =~= expected);
        actions
    }
}

/// Whether a tool call runs without a question: the user is never asked, or its review is left to
/// others from the first launch on, or the user chose so for the saved workflow.
pub open spec fn call_runs_unasked(app: App, auto_remembered: bool, named: bool) -> bool {
    app.never_ask || (app.auto_review && (app.ultracode || auto_remembered)) || named
}

/// What comes of a decision about a tool call.
pub open spec fn consent_acts(
    request_id: Seq<char>,
    thread_id: Seq<char>,
    choice: WorkflowConsentChoice,
    feedback: Option<Seq<char>>,
    preview: Option<WorkflowSourcePreview>,
) -> Seq<Act> {
    if choice == WorkflowConsentChoice::Cancel {
        seq![failed(request_id, "Workflow launch cancelled"@, feedback)]
    } else {
        seq![Act::LaunchCall { request_id, thread_id, preview }]
    }
}

/// What comes of a tool call that is valid, once it is known whether the user chose not to be asked.
pub open spec fn decided_acts(
    app: App,
    call: ToolCall,
    auto_remembered: bool,
    named: bool,
) -> Seq<Act> {
    if call_runs_unasked(app, auto_remembered, named) {
        consent_acts(
            call.request_id@,
            call.thread_id@,
            WorkflowConsentChoice::Run,
            None,
            None,
        )
    } else {
        seq![Act::PreviewCall { request_id: call.request_id@, thread_id: call.thread_id@ }]
    }
}

/// What comes of a tool call.
pub open spec fn tool_call_acts(app: App, call: ToolCall, auto_remembered: bool) -> Seq<Act> {
    if app.disable_workflows {
        seq![failed(call.request_id@, "Workflows are disabled by configuration."@, None)]
    } else if call.invalid is Some {
        seq![failed(call.request_id@, call.invalid->Some_0@, None)]
    } else {
        match call.saved_name {
            Some(name) => seq![
                Act::OpenSession { thread_id: call.thread_id@, isolated: false },
                Act::CheckNamed {
                    request_id: call.request_id@,
                    thread_id: call.thread_id@,
                    name: name@,
                },
            ],
            None => decided_acts(app, call, auto_remembered, false),
        }
    }
}

/// Acts on a decision about a tool call.
pub fn run_consent(
    request_id: String,
    thread_id: String,
    choice: WorkflowConsentChoice,
    feedback: Option<String>,
    preview: Option<WorkflowSourcePreview>,
) -> (res: Vec<WorkflowAction>)
    ensures
        acts(res@) == consent_acts(
            request_id@,
            thread_id@,
            choice,
            option_text(feedback),
            preview,
        ),
{
    if choice == WorkflowConsentChoice::Cancel {
        return just(fail_call(request_id, "Workflow launch cancelled", feedback));
    }
    just(WorkflowAction::LaunchCall { request_id, thread_id, preview })
}

/// What the launch for a tool call came to.
#[derive(Debug)]
pub struct CallLaunch {
    /// The digest of the source that ran.
    pub digest: Option<String>,
    pub response: ToolResponse,
}

/// The saved workflow that is remembered after a launch for a tool call, where the user chose so.
pub open spec fn remembered_source(
    call: ToolCall,
    choice: WorkflowConsentChoice,
    digest: Option<Seq<char>>,
) -> Option<(Seq<char>, Seq<char>)> {
    if choice == WorkflowConsentChoice::Remember && call.workflow_name is Some && digest is Some {
        Some((call.workflow_name->Some_0@, digest->Some_0))
    } else {
        None
    }
}

/// The answer to a tool call whose launch was answered with this.
pub open spec fn answered(
    request_id: Seq<char>,
    response: ToolResponse,
    feedback: Option<Seq<char>>,
) -> Act {
    Act::Respond {
        request_id,
        items: with_feedback(texts(response.items@), feedback),
        success: response.success,
    }
}

/// What follows the launch for a tool call: the answer, or first what is to be remembered, which is
/// that the first launch was allowed, where others review, and the saved workflow.
pub open spec fn call_launched_acts(
    app: App,
    call: ToolCall,
    choice: WorkflowConsentChoice,
    feedback: Option<Seq<char>>,
    launch: Result<CallLaunch, String>,
) -> Seq<Act> {
    match launch {
        Err(message) => seq![failed(call.request_id@, message@, feedback)],
        Ok(launch) => {
            let auto_first = app.auto_review && !app.ultracode;
            let named = remembered_source(call, choice, option_text(launch.digest));
            if auto_first || named is Some {
                seq![
                    Act::RememberCall {
                        request_id: call.request_id@,
                        thread_id: call.thread_id@,
                        auto_first,
                        named,
                    },
                ]
            } else {
                seq![answered(call.request_id@, launch.response, feedback)]
            }
        },
    }
}

/// What follows the storing of what is remembered: the answer of the launch, or a failure that says
/// why it could not be stored.
pub open spec fn call_remembered_acts(
    request_id: Seq<char>,
    response: ToolResponse,
    feedback: Option<Seq<char>>,
    stored: Result<(), String>,
) -> Seq<Act> {
    match stored {
        Err(message) => seq![failed(request_id, message@, feedback)],
        Ok(_) => seq![answered(request_id, response, feedback)],
    }
}

/// What follows the launch for a tool call until nothing is left to do. `stored` is what storing what
/// is remembered comes to, where there is something.
pub open spec fn launched_call(
    app: App,
    call: ToolCall,
    choice: WorkflowConsentChoice,
    feedback: Option<Seq<char>>,
    launch: Result<CallLaunch, String>,
    stored: Result<(), String>,
) -> Seq<Act> {
    let first = call_launched_acts(app, call, choice, feedback, launch);
    if first.last() is RememberCall {
        first + call_remembered_acts(call.request_id@, launch->Ok_0.response, feedback, stored)
    } else {
        first
    }
}

impl App {
    fn decide(&self, call: ToolCall, auto_remembered: bool, named: bool) -> (res: Vec<
        WorkflowAction,
    >)
        ensures
            acts(res@) == decided_acts(*self, call, auto_remembered, named),
    {
        if self.never_ask || (self.auto_review && (self.ultracode || auto_remembered)) || named {
            return run_consent(
                call.request_id,
                call.thread_id,
                WorkflowConsentChoice::Run,
                None,
                None,
            );
        }
        just(
            WorkflowAction::PreviewCall { request_id: call.request_id, thread_id: call.thread_id },
        )
    }

    /// Takes a tool call. `auto_remembered` tells whether a first launch was allowed before.
    pub fn tool_called(&self, call: ToolCall, auto_remembered: bool) -> (res: Vec<WorkflowAction>)
        ensures
            acts(res@) == tool_call_acts(*self, call, auto_remembered),
    {
        let ghost expected = tool_call_acts(*self, call, auto_remembered);
        if self.disable_workflows {
            return just(
                fail_call(call.request_id, "Workflows are disabled by configuration.", None),
            );
        }
        match &call.invalid {
            Some(message) => {
                return just(fail_call(call.request_id, message.as_str(), None));
            },
            None => {},
        }
        match &call.saved_name {
            Some(name) => {
                let mut actions = just(
                    WorkflowAction::OpenSession {
                        thread_id: call.thread_id.clone(),
                        isolated: false,
                    },
                );
                add_action(
                    &mut actions,
                    WorkflowAction::CheckNamed {
                        request_id: call.request_id,
                        thread_id: call.thread_id,
                        name: name.clone(),
                    },
                );
                assert(acts(actions@) =~= expected);
                actions
            },
            None => self.decide(call, auto_remembered, false),
        }
    }

    /// Takes the list of saved workflows for a tool call that names one. `remembered` tells whether
    /// the user chose not to be asked for the source that the list tells.
    pub fn call_listed(
        &self,
        call: ToolCall,
        name: &str,
        catalog: &serde_json::Value,
        auto_remembered: bool,
        remembered: bool,
    ) -> (res: Vec<WorkflowAction>)
        ensures
            acts(res@) == decided_acts(
                *self,
                call,
                auto_remembered,
                digest_among(saved_items(tree(*catalog)), name@) is Some && remembered,
            ),
    {
        let digest = saved_digest(catalog, name);
        self.decide(call, auto_remembered, digest.is_some() && remembered)
    }

    /// Takes what the launch for a tool call came to.
    pub fn call_launched(
        &self,
        call: ToolCall,
        choice: WorkflowConsentChoice,
        feedback: Option<String>,
        launch: Result<CallLaunch, String>,
    ) -> (res: Vec<WorkflowAction>)
        ensures
            acts(res@) == call_launched_acts(
                *self,
                call,
                choice,
                option_text(feedback),
                launch,
            ),
    {
        let ghost expected = call_launched_acts(
            *self,
            call,
            choice,
            option_text(feedback),
            launch,
        );
        let launch = match launch {
            Ok(launch) => launch,
            Err(message) => {
                return just(fail_call(call.request_id, message.as_str(), feedback));
            },
        };
        let auto_first = self.auto_review && !self.ultracode;
        let mut named: Option<NamedSource> = None;
        if choice == WorkflowConsentChoice::Remember {
            match (&call.workflow_name, &launch.digest) {
                (Some(name), Some(digest)) => {
                    named = Some(NamedSource { name: name.clone(), digest: digest.clone() });
                },
                _ => {},
            }
        }
        let actions = if auto_first || named.is_some() {
            just(
                WorkflowAction::RememberCall {
                    request_id: call.request_id,
                    thread_id: call.thread_id,
                    auto_first,
                    named,
                },
            )
        } else {
            just(answer_call(call.request_id, launch.response, feedback))
        };
        assert(acts(actions@) =~= expected);
        actions
    }

    /// Takes whether what is remembered after the launch for a tool call could be stored.
    pub fn call_remembered(
        &self,
        request_id: String,
        response: ToolResponse,
        feedback: Option<String>,
        stored: Result<(), String>,
    ) -> (res: Vec<WorkflowAction>)
        ensures
            acts(res@) == call_remembered_acts(
                request_id@,
                response,
                option_text(feedback),
                stored,
            ),
    {
        match stored {
            Ok(_) => just(answer_call(request_id, response, feedback)),
            Err(message) => just(fail_call(request_id, message.as_str(), feedback)),
        }
    }
}

fn answer_call(request_id: String, response: ToolResponse, feedback: Option<String>) -> (res:
    WorkflowAction)
    ensures
        res@ == answered(request_id@, response, option_text(feedback)),
{
    let mut response = response;
    append_workflow_feedback(&mut response, feedback);
    WorkflowAction::Respond { request_id, items: response.items, success: response.success }
}

/// A refused tool call is answered with a failure that says so, once, and nothing is launched.
pub proof fn refusal_launches_nothing(
    request_id: Seq<char>,
    thread_id: Seq<char>,
    feedback: Option<Seq<char>>,
    preview: Option<WorkflowSourcePreview>,
)
    ensures
        consent_acts(
            request_id,
            thread_id,
            WorkflowConsentChoice::Cancel,
            feedback,
            preview,
        ).len() == 1,
        consent_acts(
            request_id,
            thread_id,
            WorkflowConsentChoice::Cancel,
            feedback,
            preview,
        )[0] matches Act::Respond { request_id: answered, items, success } && answered
            == request_id && !success && items[0] == "Workflow launch cancelled"@,
{
}

/// A tool call is answered exactly once after its launch, also where what is to be remembered cannot
/// be stored, and what the user typed is the last item of the answer. Where something fails the
/// answer is a failure that says so.
pub proof fn launch_is_answered_once(
    app: App,
    call: ToolCall,
    choice: WorkflowConsentChoice,
    feedback: Option<Seq<char>>,
    launch: Result<CallLaunch, String>,
    stored: Result<(), String>,
)
    ensures
        ({
            let done = launched_call(app, call, choice, feedback, launch, stored);
            let answer = done.last();
            &&& done.len() > 0
            &&& answer is Respond
            &&& answer->Respond_request_id == call.request_id@
            &&& forall|i: int| 0 <= i < done.len() - 1 ==> !(#[trigger] done[i] is Respond)
            &&& feedback matches Some(text) ==> answer->Respond_items.last()
                == "Workflow consent feedback: "@ + text
            &&& launch matches Err(message) ==> answer == failed(
                call.request_id@,
                message@,
                feedback,
            )
            &&& done.len() > 1 ==> (stored matches Err(message) ==> answer == failed(
                call.request_id@,
                message@,
                feedback,
            ))
        }),
{
    let first = call_launched_acts(app, call, choice, feedback, launch);
    let done = launched_call(app, call, choice, feedback, launch, stored);
    if first.last() is RememberCall {
        let rest = call_remembered_acts(
            call.request_id@,
            launch->Ok_0.response,
            feedback,
            stored,
        );
        assert(done[1] == rest[0]);
        assert(done[0] == first[0]);
    }
}

/// A saved workflow that was edited never inherits what is remembered of it: what was edited runs as
/// a script, and to remember it is refused.
pub proof fn edited_source_is_not_the_saved_one(
    thread_id: Seq<char>,
    name: Seq<char>,
    args: Option<Seq<char>>,
    choice: WorkflowConsentChoice,
    preview: WorkflowSourcePreview,
    i: int,
)
    requires
        preview.workflow_id is None,
        0 <= i < saved_launch_acts(thread_id, name, args, choice, Some(preview)).len(),
    ensures
        saved_launch_acts(thread_id, name, args, choice, Some(preview))[i]
            matches Act::LaunchSaved { thread_id: launched, saved, script, args: given, preview: shown }
            ==> saved is None && script == Some(preview.source@) && choice
            != WorkflowConsentChoice::Remember,
{
}

/// A decision about a tool call launches it exactly when it is not a refusal: whatever the choice is
/// but to cancel, one launch of that call with the shown preview follows, and no answer. A refusal is
/// one answer, which says no and ends with what the user typed.
pub proof fn decision_launches_unless_refused(
    request_id: Seq<char>,
    thread_id: Seq<char>,
    choice: WorkflowConsentChoice,
    feedback: Option<Seq<char>>,
    preview: Option<WorkflowSourcePreview>,
)
    ensures
        ({
            let done = consent_acts(request_id, thread_id, choice, feedback, preview);
            &&& done.len() == 1
            &&& done[0] is LaunchCall <==> !(choice is Cancel)
            &&& done[0] is Respond <==> choice is Cancel
            &&& !(choice is Cancel) ==> {
                &&& done[0]->LaunchCall_request_id == request_id
                &&& done[0]->LaunchCall_thread_id == thread_id
                &&& done[0]->LaunchCall_preview == preview
            }
            &&& choice is Cancel ==> {
                &&& done[0]->Respond_request_id == request_id
                &&& !done[0]->success
                &&& feedback matches Some(text) ==> done[0]->items.last()
                    == "Workflow consent feedback: "@ + text
                &&& done[0]->items.len() == if feedback is Some { 2nat } else { 1nat }
            }
        }),
{
}

/// A decision about a saved workflow launches it exactly when it is not a refusal, and what the user
/// typed reaches the parent before: where the identity of the parent is not valid, nothing runs, and
/// to remember what was edited is refused. What runs is the workflow of that name, or the edited
/// source, with the arguments of the run.
pub proof fn saved_decision_launches_unless_refused(
    thread_id: Seq<char>,
    name: Seq<char>,
    args: Option<Seq<char>>,
    choice: WorkflowConsentChoice,
    feedback: Option<Seq<char>>,
    preview: Option<WorkflowSourcePreview>,
)
    requires
        feedback is Some ==> uuid_parse(thread_id) is Ok,
    ensures
        ({
            let done = saved_consent_acts(thread_id, name, args, choice, feedback, preview);
            let told = if feedback is Some { 1int } else { 0int };
            let edited = preview is Some && preview->Some_0.workflow_id is None;
            &&& feedback matches Some(text) ==> done.len() > 0 && done[0] == (Act::InjectFeedback {
                thread: ThreadId { value: uuid_parse(thread_id)->Ok_0 },
                text,
            })
            &&& choice is Cancel ==> done.len() == told
            &&& !(choice is Cancel) ==> {
                &&& done.len() == told + 2
                &&& done[told] == (Act::OpenSession { thread_id, isolated: true })
                &&& done.last() is LaunchSaved <==> !(edited && choice is Remember)
                &&& done.last() is Fail <==> edited && choice is Remember
                &&& done.last() is LaunchSaved ==> {
                    &&& done.last()->LaunchSaved_thread_id == thread_id
                    &&& done.last()->LaunchSaved_args == args
                    &&& done.last()->LaunchSaved_preview == preview
                    &&& edited ==> done.last()->LaunchSaved_saved is None
                        && done.last()->LaunchSaved_script == Some(preview->Some_0.source@)
                    &&& !edited ==> done.last()->LaunchSaved_saved == Some(name)
                        && done.last()->LaunchSaved_script is None
                }
            }
        }),
{
}

/// A text for a parent whose identity is not valid is told as a failure, and nothing runs.
pub proof fn feedback_needs_a_parent(
    thread_id: Seq<char>,
    name: Seq<char>,
    args: Option<Seq<char>>,
    choice: WorkflowConsentChoice,
    feedback: Seq<char>,
    preview: Option<WorkflowSourcePreview>,
)
    requires
        uuid_parse(thread_id) is Err,
    ensures
        saved_consent_acts(thread_id, name, args, choice, Some(feedback), preview) == seq![
            Act::Fail { text: uuid_parse(thread_id)->Err_0 },
        ],
{
}

/// A workflow runs without a question only where the user is never asked, or where this was allowed
/// before: for a saved one, the source that is saved now; for a tool call also by the review of
/// others, which holds from the first launch on, or at once for an ultracode session. Else the user
/// is shown what would run, and nothing is launched.
pub proof fn nothing_runs_unasked_unless_allowed(
    app: App,
    call: ToolCall,
    name: Seq<char>,
    args: Option<Seq<char>>,
    digest: Option<Seq<char>>,
    auto_remembered: bool,
    remembered: bool,
)
    ensures
        ({
            let saved = saved_listed_acts(
                app,
                call.thread_id@,
                name,
                args,
                digest,
                remembered,
            );
            let called = decided_acts(app, call, auto_remembered, remembered);
            let reviewed = app.auto_review && (app.ultracode || auto_remembered);
            &&& saved.last() is LaunchSaved <==> app.never_ask || (remembered && digest is Some)
            &&& saved.last() matches Act::LaunchSaved { thread_id, saved: ran, args: given, .. }
                ==> thread_id == call.thread_id@ && ran == Some(name) && given == args
            &&& !(saved.last() is LaunchSaved) ==> saved == seq![
                Act::PreviewSaved { thread_id: call.thread_id@, name, args },
            ]
            &&& called.len() == 1
            &&& called[0] is LaunchCall <==> app.never_ask || remembered || reviewed
            &&& called[0] matches Act::LaunchCall { request_id, thread_id, .. } ==> request_id
                == call.request_id@ && thread_id == call.thread_id@
            &&& !(called[0] is LaunchCall) ==> called[0] == (Act::PreviewCall {
                request_id: call.request_id@,
                thread_id: call.thread_id@,
            })
        }),
{
}

/// Every tool call is refused where workflows are disabled, and every call that is not valid, with
/// the reason. One that leads to a saved workflow is looked up first, in its own parent. Any other is
/// decided at once.
pub proof fn tool_call_is_refused_looked_up_or_decided(
    app: App,
    call: ToolCall,
    auto_remembered: bool,
)
    ensures
        ({
            let done = tool_call_acts(app, call, auto_remembered);
            &&& app.disable_workflows || call.invalid is Some ==> {
                &&& done.len() == 1
                &&& done[0] is Respond
                &&& done[0]->Respond_request_id == call.request_id@
                &&& !done[0]->success
                &&& done[0]->items == seq![
                    if app.disable_workflows {
                        "Workflows are disabled by configuration."@
                    } else {
                        call.invalid->Some_0@
                    },
                ]
            }
            &&& !app.disable_workflows && call.invalid is None ==> match call.saved_name {
                Some(name) => done == seq![
                    Act::OpenSession { thread_id: call.thread_id@, isolated: false },
                    Act::CheckNamed {
                        request_id: call.request_id@,
                        thread_id: call.thread_id@,
                        name: name@,
                    },
                ],
                None => done.len() == 1 && (done[0] is LaunchCall <==> app.never_ask || (
                app.auto_review && (app.ultracode || auto_remembered))) && (done[0] is LaunchCall
                    || done[0] is PreviewCall),
            }
        }),
{
}

/// Only a choice to remember is remembered, for the source that ran under its name, and only a launch
/// that took place; a first launch that others review is remembered as such. What the launch was
/// answered with reaches the caller unchanged, before what the user typed.
pub proof fn only_what_was_chosen_is_remembered(
    app: App,
    call: ToolCall,
    choice: WorkflowConsentChoice,
    feedback: Option<Seq<char>>,
    launch: Result<CallLaunch, String>,
    stored: Result<(), String>,
)
    ensures
        ({
            let done = launched_call(app, call, choice, feedback, launch, stored);
            let chosen = choice is Remember && launch is Ok && launch->Ok_0.digest is Some
                && call.workflow_name is Some;
            let first = launch is Ok && app.auto_review && !app.ultracode;
            &&& done[0] is RememberCall <==> chosen || first
            &&& done.len() == if chosen || first { 2nat } else { 1nat }
            &&& done[0] is RememberCall ==> {
                &&& done[0]->RememberCall_request_id == call.request_id@
                &&& done[0]->RememberCall_thread_id == call.thread_id@
                &&& done[0]->auto_first == first
                &&& done[0]->named == if chosen {
                    Some((call.workflow_name->Some_0@, launch->Ok_0.digest->Some_0@))
                } else {
                    None
                }
            }
            &&& launch is Ok && (stored is Ok || done.len() == 1) ==> {
                let given = texts(launch->Ok_0.response.items@);
                &&& done.last()->success == launch->Ok_0.response.success
                &&& done.last()->items.take(given.len() as int) == given
                &&& done.last()->items.len() == given.len() + if feedback is Some {
                    1nat
                } else {
                    0nat
                }
            }
        }),
{
    let first = call_launched_acts(app, call, choice, feedback, launch);
    let done = launched_call(app, call, choice, feedback, launch, stored);
    assert(done[0] == first[0]);
    if launch is Ok {
        let given = texts(launch->Ok_0.response.items@);
        assert(with_feedback(given, feedback).take(given.len() as int) =~= given);
        if first.last() is RememberCall {
            assert(done.last() == call_remembered_acts(
                call.request_id@,
                launch->Ok_0.response,
                feedback,
                stored,
            )[0]);
        }
    }
}

/// A saved workflow is remembered exactly where the user chose so, for the source that ran, and the
/// user is told of its launch only where they still see its parent. A failure is always told.
pub proof fn saved_launch_is_told(app: App, launch: SavedLaunch)
    ensures
        ({
            let done = saved_launched_acts(app, launch);
            let lost = launch.choice is Remember && launch.digest is None;
            let sees = app.thread_id is Some && uuid_text(app.thread_id->Some_0.value)
                == launch.thread_id@;
            let remembered = if launch.choice is Remember { 1int } else { 0int };
            &&& lost ==> done == seq![Act::Fail { text: "Saved workflow digest is unavailable"@ }]
            &&& !lost ==> {
                &&& done.len() == remembered + if launch.result is Err || sees {
                    1int
                } else {
                    0int
                }
                &&& launch.choice is Remember ==> done[0] == (Act::RememberNamed {
                    thread_id: launch.thread_id@,
                    name: launch.name@,
                    digest: launch.digest->Some_0@,
                })
                &&& launch.result matches Err(message) ==> done.last() == (Act::Fail {
                    text: message@,
                })
                &&& launch.result is Ok && sees ==> {
                    &&& done.last() is ShowInfo
                    &&& done.last()->detail == tree(launch.result->Ok_0).member_text("scriptPath"@)
                    &&& launch.edited ==> done.last()->ShowInfo_text == "Edited workflow launched"@
                    &&& !launch.edited ==> done.last()->ShowInfo_text == "Workflow /"@
                        + launch.name@ + " launched"@
                }
            }
        }),
{
}

/// The commands of a parent are asked for in its own session, and a saved workflow that the user runs
/// is looked up in the session of the parent that they see, with the arguments they gave.
pub proof fn saved_workflows_are_those_of_the_parent(
    app: App,
    thread_id: Seq<char>,
    name: Seq<char>,
    args: Option<Seq<char>>,
)
    ensures
        ({
            let loaded = load_acts(app, thread_id);
            let run = run_saved_acts(app, name, args);
            let sees = app.thread_id is Some && uuid_text(app.thread_id->Some_0.value) == thread_id;
            &&& loaded[0] is ClearStatus <==> sees
            &&& loaded.len() == if sees { 3nat } else { 2nat }
            &&& loaded[loaded.len() - 2] == (Act::OpenSession { thread_id, isolated: false })
            &&& loaded.last() == (Act::LoadCommands { thread_id })
            &&& app.thread_id is None ==> run == seq![
                Act::Fail { text: "Parent session is unavailable"@ },
            ]
            &&& sees ==> run == seq![
                Act::OpenSession { thread_id, isolated: false },
                Act::CheckSaved { thread_id, name, args },
            ]
        }),
{
}

/// What the user typed comes last in the answer, after everything that it said before, and an answer
/// without it stays as it is.
pub proof fn feedback_is_added_last(items: Seq<Seq<char>>, text: Seq<char>)
    ensures
        with_feedback(items, None) == items,
        with_feedback(items, Some(text)).len() == items.len() + 1,
        with_feedback(items, Some(text)).drop_last() == items,
        with_feedback(items, Some(text)).last() == "Workflow consent feedback: "@ + text,
{
    assert(with_feedback(items, Some(text)).drop_last() =~= items);
}

} // verus!
