//! Starting workflow workers: what a request must satisfy, what the worker runs with, and who owns
//! which worker.
use crate::authority::{
    workflow_authority_matches, workflow_authority_ref_matches, ApprovalsReviewer,
    ThreadConfigSnapshot, WorkflowAuthority,
};
use crate::digest::{digest_text, text_digest};
use crate::error::{invalid_request, refused_by, RpcError};
use crate::failure::{failure_error, Failure};
use crate::ids::{is_workspace_id, uuid_text, validate_workflow_workspace_id, ThreadId};
use crate::json::{is_object, json_text, to_text, tree};
use crate::path::{path_text, AbsolutePath};
use crate::protocol::{WorkflowModelOption, WorkflowWorkerStartParams, WorkflowWorkerStartResponse};
use crate::registry::Registry;
use crate::text::{
    has_prefix, is_blank, is_text, join, joined, joined_tells_one_change, option_text, same,
    same_option, texts, trimmed,
};
use crate::thread_table::ThreadTable;
use crate::workspace::{
    is_terminal, is_worktree, workflow_release_eligible, workflow_worktree_matches, AgentStatus,
    WorkflowWorkspaceOwnership, WorktreeFacts,
};
use vstd::prelude::*;
use vstd::string::*;

verus! {

/// Why the shape of a worker request is rejected.
pub open spec fn request_refusal(params: WorkflowWorkerStartParams) -> Option<Seq<char>> {
    if trimmed(params.prompt@).len() == 0 {
        Some("workflow worker prompt must not be empty"@)
    } else if params.schema matches Some(schema) && !(tree(schema) is Object) {
        Some("workflow worker schema must be an object"@)
    } else {
        None
    }
}

pub fn check_worker_request(params: &WorkflowWorkerStartParams) -> (res: Result<(), RpcError>)
    ensures
        refused_by(res, request_refusal(*params)),
{
    if is_blank(params.prompt.as_str()) {
        return Err(invalid_request("workflow worker prompt must not be empty"));
    }
    match &params.schema {
        Some(schema) => if !is_object(schema) {
            Err(invalid_request("workflow worker schema must be an object"))
        } else {
            Ok(())
        },
        None => Ok(()),
    }
}

/// What a worker of a role is told beyond its prompt.
pub open spec fn role_instructions(agent_type: Seq<char>) -> Seq<char> {
    if agent_type == "Explore"@ {
        "Role: Explore. Inspect and report only. Do not modify files or external state."@
    } else if agent_type == "Plan"@ {
        "Role: Plan. Produce an implementation plan only. Do not modify files or external state."@
    } else {
        Seq::empty()
    }
}

/// What every worker is told first.
pub open spec fn worker_preamble() -> Seq<char> {
    "Do not launch sub-agents or delegate work. Complete only this workflow worker turn."@
}

/// The whole prompt: the preamble, the instructions of the role if it has any, and the request.
pub open spec fn worker_prompt(agent_type: Seq<char>, prompt: Seq<char>) -> Seq<char> {
    let role = role_instructions(agent_type);
    if role.len() == 0 && prompt.len() == 0 {
        worker_preamble()
    } else if role.len() == 0 {
        worker_preamble() + "\n"@ + prompt
    } else if prompt.len() == 0 {
        worker_preamble() + "\n"@ + role
    } else {
        worker_preamble() + "\n"@ + role + "\n"@ + prompt
    }
}

/// The prompt that a worker is started with.
pub fn compose_worker_prompt(agent_type: &str, prompt: &str) -> (res: String)
    ensures
        res@ == worker_prompt(agent_type@, prompt@),
{
    let mut out =
        "Do not launch sub-agents or delegate work. Complete only this workflow worker turn.".to_owned();
    proof {
        reveal_strlit(
            "Role: Explore. Inspect and report only. Do not modify files or external state.",
        );
        reveal_strlit(
            "Role: Plan. Produce an implementation plan only. Do not modify files or external state.",
        );
    }
    if same(agent_type, "Explore") {
        out.append("\n");
        out.append("Role: Explore. Inspect and report only. Do not modify files or external state.");
    } else if same(agent_type, "Plan") {
        out.append("\n");
        out.append(
            "Role: Plan. Produce an implementation plan only. Do not modify files or external state.",
        );
    }
    if !prompt.is_empty() {
        out.append("\n");
        out.append(prompt);
    }
    out
}

/// Whether a worker may only read: because it was asked to, or because its role never writes.
pub open spec fn reads_only(params: WorkflowWorkerStartParams) -> bool {
    params.read_only || params.agent_type@ == "Explore"@ || params.agent_type@ == "Plan"@
}

pub fn worker_reads_only(params: &WorkflowWorkerStartParams) -> (res: bool)
    ensures
        res == reads_only(*params),
{
    params.read_only || same(params.agent_type.as_str(), "Explore") || same(
        params.agent_type.as_str(),
        "Plan",
    )
}

/// The native role that an agent type stands for.
pub open spec fn native_role(agent_type: Seq<char>) -> Seq<char> {
    if agent_type == "general-purpose"@ || agent_type == "Plan"@ {
        "default"@
    } else if agent_type == "Explore"@ {
        "explorer"@
    } else {
        agent_type
    }
}

pub fn workflow_native_role(agent_type: &str) -> (res: String)
    ensures
        res@ == native_role(agent_type@),
{
    if same(agent_type, "general-purpose") || same(agent_type, "Plan") {
        "default".to_owned()
    } else if same(agent_type, "Explore") {
        "explorer".to_owned()
    } else {
        agent_type.to_owned()
    }
}

/// The digest of an output schema: of its compact text.
pub open spec fn schema_digest(schema: Option<serde_json::Value>) -> Option<Seq<char>> {
    match schema {
        Some(schema) => Some(text_digest(json_text(tree(schema)))),
        None => None,
    }
}

pub fn workflow_schema_digest(schema: &Option<serde_json::Value>) -> (res: Option<String>)
    ensures
        option_text(res) == schema_digest(*schema),
{
    match schema {
        Some(schema) => Some(digest_text(to_text(schema).as_str())),
        None => None,
    }
}

/// The settings whose change makes a prepared role stale, each as its canonical text.
#[derive(Debug)]
pub struct RoleSettings {
    pub developer_instructions: String,
    pub reasoning_summary: String,
    pub verbosity: String,
    pub personality: String,
    pub features: String,
    pub skill_instructions: String,
    pub layers: String,
}

/// The text whose digest stands for a role.
pub open spec fn role_material(settings: RoleSettings) -> Seq<char> {
    joined(
        seq![
            settings.developer_instructions@,
            settings.reasoning_summary@,
            settings.verbosity@,
            settings.personality@,
            settings.features@,
            settings.skill_instructions@,
            settings.layers@,
        ],
        "|"@,
    )
}

pub fn workflow_role_digest(settings: &RoleSettings) -> (res: String)
    ensures
        res@ == text_digest(role_material(*settings)),
{
    let mut parts: Vec<String> = Vec::new();
    parts.push(settings.developer_instructions.clone());
    parts.push(settings.reasoning_summary.clone());
    parts.push(settings.verbosity.clone());
    parts.push(settings.personality.clone());
    parts.push(settings.features.clone());
    parts.push(settings.skill_instructions.clone());
    parts.push(settings.layers.clone());
    assert(texts(parts@) =~= seq![
        settings.developer_instructions@,
        settings.reasoning_summary@,
        settings.verbosity@,
        settings.personality@,
        settings.features@,
        settings.skill_instructions@,
        settings.layers@,
    ]);
    digest_text(join(&parts, "|").as_str())
}

/// Why a worker request is refused by the authority it names.
pub open spec fn worker_authority_refusal(
    authorities: Map<Seq<char>, WorkflowAuthority>,
    params: WorkflowWorkerStartParams,
    parent_thread_id: ThreadId,
    current: ThreadConfigSnapshot,
) -> Option<Seq<char>> {
    if !authorities.dom().contains(params.authority_ref@) {
        Some("workflow authority reference is unknown"@)
    } else {
        let authority = authorities[params.authority_ref@];
        if authority.parent_thread_id != parent_thread_id || authority.generation
            != params.authority_generation || authority.digest@ != params.authority_digest@ {
            Some("workflow authority reference is stale"@)
        } else if authority.snapshot.terms() != current.terms() {
            Some("workflow parent authority changed"@)
        } else {
            None
        }
    }
}

/// Whether the authority that a request names is its parent's, and still in force.
pub fn check_worker_authority(
    authorities: &Registry<WorkflowAuthority>,
    params: &WorkflowWorkerStartParams,
    parent_thread_id: ThreadId,
    current: &ThreadConfigSnapshot,
) -> (res: Result<(), RpcError>)
    requires
        authorities.well_formed(),
    ensures
        refused_by(
            res,
            worker_authority_refusal(authorities.map(), *params, parent_thread_id, *current),
        ),
{
    let authority = match authorities.get(params.authority_ref.as_str()) {
        Some(authority) => authority,
        None => {
            return Err(invalid_request("workflow authority reference is unknown"));
        },
    };
    if !workflow_authority_ref_matches(
        authority.parent_thread_id,
        authority.generation,
        parent_thread_id,
        params.authority_generation,
    ) || !same(authority.digest.as_str(), params.authority_digest.as_str()) {
        return Err(invalid_request("workflow authority reference is stale"));
    }
    if !workflow_authority_matches(&authority.snapshot, current) {
        return Err(invalid_request("workflow parent authority changed"));
    }
    Ok(())
}

/// Whether a workspace is the one that the request was prepared with.
pub open spec fn workspace_is_requested(
    id: Seq<char>,
    workspace: WorkflowWorkspaceOwnership,
    params: WorkflowWorkerStartParams,
    parent_thread_id: ThreadId,
) -> bool {
    &&& workspace.granted(id)
    &&& workspace.parent_thread_id == parent_thread_id
    &&& workspace.authority_ref@ == params.authority_ref@
    &&& workspace.authority_digest@ == params.authority_digest@
    &&& workspace.made_for(params.run_id@, params.worker_id@)
    &&& params.workspace.cwd@ == path_text(workspace.cwd@)
    &&& option_text(params.workspace.base_commit) == Some(workspace.base_commit@)
    &&& params.workspace.isolated
    &&& !workspace.released
}

/// Why a worker request is refused by the workspace it names.
pub open spec fn worker_workspace_refusal(
    workspaces: Map<Seq<char>, WorkflowWorkspaceOwnership>,
    params: WorkflowWorkerStartParams,
    parent_thread_id: ThreadId,
    current: ThreadConfigSnapshot,
    worktree: WorktreeFacts,
) -> Option<Seq<char>> {
    match option_text(params.workspace.workspace_id) {
        Some(id) => if !is_workspace_id(id) {
            Some("invalid workflow workspace ID"@)
        } else if !workspaces.dom().contains(id) {
            Some("workflow workspace is not owned by this host"@)
        } else {
            let workspace = workspaces[id];
            if workspace_is_requested(id, workspace, params, parent_thread_id) && (workspace.removed
                || is_worktree(
                worktree,
                workspace.common_git_dir@,
                Some(workspace.branch@),
            )) {
                None
            } else {
                Some("workflow workspace ownership is stale"@)
            }
        },
        None => if params.workspace.isolated || params.workspace.cwd@ != path_text(current.cwd@)
            || params.workspace.base_commit is Some {
            Some("workflow shared workspace is invalid"@)
        } else {
            None
        },
    }
}

/// Where a worker runs.
#[derive(Clone, Copy, Debug, PartialEq, Eq, Structural)]
pub enum WorkerPlace {
    /// In the parent's directory.
    Shared,
    /// In its own checkout.
    Isolated,
    /// In its own checkout, which must be restored first.
    Removed,
}

/// Finds the place that a worker request names. `worktree` is what is known of the named workspace's
/// checkout.
pub fn worker_place(
    workspaces: &Registry<WorkflowWorkspaceOwnership>,
    params: &WorkflowWorkerStartParams,
    parent_thread_id: ThreadId,
    current: &ThreadConfigSnapshot,
    worktree: &WorktreeFacts,
) -> (res: Result<WorkerPlace, RpcError>)
    requires
        workspaces.well_formed(),
    ensures
        refused_by(
            res,
            worker_workspace_refusal(
                workspaces.map(),
                *params,
                parent_thread_id,
                *current,
                *worktree,
            ),
        ),
        res matches Ok(place) ==> match option_text(params.workspace.workspace_id) {
            Some(id) => place == (if workspaces.map()[id].removed {
                WorkerPlace::Removed
            } else {
                WorkerPlace::Isolated
            }),
            None => place == WorkerPlace::Shared,
        },
{
    match &params.workspace.workspace_id {
        Some(id) => {
            match validate_workflow_workspace_id(id.as_str()) {
                Ok(_) => {},
                Err(error) => {
                    return Err(error);
                },
            }
            let workspace = match workspaces.get(id.as_str()) {
                Some(workspace) => workspace,
                None => {
                    return Err(invalid_request("workflow workspace is not owned by this host"));
                },
            };
            let requested = workspace.is_granted(id.as_str()) && workspace.parent_thread_id
                == parent_thread_id && same(
                workspace.authority_ref.as_str(),
                params.authority_ref.as_str(),
            ) && same(
                workspace.authority_digest.as_str(),
                params.authority_digest.as_str(),
            ) && workspace.is_made_for(params.run_id.as_str(), params.worker_id.as_str()) && same(
                params.workspace.cwd.as_str(),
                workspace.cwd.text().as_str(),
            ) && is_text(&params.workspace.base_commit, workspace.base_commit.as_str())
                && params.workspace.isolated && !workspace.released;
            if !requested || (!workspace.removed && !workflow_worktree_matches(
                worktree,
                &workspace.common_git_dir,
                Some(workspace.branch.as_str()),
            )) {
                return Err(invalid_request("workflow workspace ownership is stale"));
            }
            if workspace.removed {
                Ok(WorkerPlace::Removed)
            } else {
                Ok(WorkerPlace::Isolated)
            }
        },
        None => {
            if params.workspace.isolated || !same(
                params.workspace.cwd.as_str(),
                current.cwd.text().as_str(),
            ) || params.workspace.base_commit.is_some() {
                return Err(invalid_request("workflow shared workspace is invalid"));
            }
            Ok(WorkerPlace::Shared)
        },
    }
}

/// The permissions that a worker starts with.
#[derive(Debug)]
pub enum PermissionSnapshot {
    /// The parent's own named profile, with its roots.
    Active { profile: String, active: String, roots: Vec<String> },
    /// A profile without a name.
    Legacy(String),
}

/// The profile before it is reduced: the checkout's, or the parent's.
pub open spec fn base_profile(
    isolated: Option<WorkflowWorkspaceOwnership>,
    current: ThreadConfigSnapshot,
) -> Seq<char> {
    match isolated {
        Some(workspace) => workspace.permission_profile@,
        None => current.permission_profile@,
    }
}

/// The profile of a worker: the base profile, or its read-only reduction.
pub open spec fn worker_profile(
    isolated: Option<WorkflowWorkspaceOwnership>,
    current: ThreadConfigSnapshot,
    read_only: bool,
    reduced: Option<Seq<char>>,
) -> Option<Seq<char>> {
    if read_only {
        reduced
    } else {
        Some(base_profile(isolated, current))
    }
}

/// Picks the permissions of a worker. `reduced` is the read-only reduction of the base profile,
/// where there is one. The parent's named profile is kept only where nothing was narrowed.
pub fn worker_permissions(
    isolated: &Option<WorkflowWorkspaceOwnership>,
    current: &ThreadConfigSnapshot,
    read_only: bool,
    reduced: &Option<String>,
) -> (res: Result<PermissionSnapshot, RpcError>)
    ensures
        refused_by(
            res,
            if worker_profile(*isolated, *current, read_only, option_text(*reduced)) is None {
                Some("external sandbox authority cannot be reduced safely"@)
            } else {
                None
            },
        ),
        res matches Ok(PermissionSnapshot::Active { profile, active, roots }) ==> isolated is None
            && Some(profile@) == worker_profile(
            *isolated,
            *current,
            read_only,
            option_text(*reduced),
        ) && profile@ == current.permission_profile@ && Some(active@) == option_text(
            current.active_permission_profile,
        ) && texts(roots@) == texts(current.profile_workspace_roots@),
        res matches Ok(PermissionSnapshot::Legacy(profile)) ==> Some(profile@) == worker_profile(
            *isolated,
            *current,
            read_only,
            option_text(*reduced),
        ) && (isolated is Some || current.active_permission_profile is None || profile@
            != current.permission_profile@),
{
    let profile = if read_only {
        match reduced {
            Some(profile) => profile.clone(),
            None => {
                return Err(invalid_request("external sandbox authority cannot be reduced safely"));
            },
        }
    } else {
        match isolated {
            Some(workspace) => workspace.permission_profile.clone(),
            None => current.permission_profile.clone(),
        }
    };
    match &current.active_permission_profile {
        Some(active) => {
            if isolated.is_none() && same(profile.as_str(), current.permission_profile.as_str()) {
                return Ok(
                    PermissionSnapshot::Active {
                        profile,
                        active: active.clone(),
                        roots: current.profile_workspace_roots.clone(),
                    },
                );
            }
        },
        None => {},
    }
    Ok(PermissionSnapshot::Legacy(profile))
}

/// A provider with its own identity is accepted where it authenticates with OpenAI.
pub fn check_worker_provider(current: &ThreadConfigSnapshot, requires_openai_auth: bool) -> (res:
    Result<(), RpcError>)
    ensures
        refused_by(
            res,
            if current.model_provider_id@ != "openai"@ && !requires_openai_auth {
                Some("workflow workers require an authenticated OpenAI Codex model provider"@)
            } else {
                None
            },
        ),
{
    if !same(current.model_provider_id.as_str(), "openai") && !requires_openai_auth {
        Err(
            invalid_request("workflow workers require an authenticated OpenAI Codex model provider"),
        )
    } else {
        Ok(())
    }
}

/// Whether the worker's configuration must be switched to the parent's provider, which must then be
/// a configured one.
pub fn parent_provider(
    configured: &str,
    current: &ThreadConfigSnapshot,
    parent_is_configured: bool,
) -> (res: Result<bool, RpcError>)
    ensures
        refused_by(
            res,
            if configured@ != current.model_provider_id@ && !parent_is_configured {
                Some("workflow parent model provider is unavailable"@)
            } else {
                None
            },
        ),
        res matches Ok(switch) ==> switch == (configured@ != current.model_provider_id@),
{
    if same(configured, current.model_provider_id.as_str()) {
        Ok(false)
    } else if parent_is_configured {
        Ok(true)
    } else {
        Err(invalid_request("workflow parent model provider is unavailable"))
    }
}

/// A request's own choice where it is explicit; else the role's, else the parent's.
pub fn workflow_effective_selection<T>(
    parent: Option<T>,
    role: Option<T>,
    requested: T,
    explicit: bool,
) -> (res: Option<T>)
    ensures
        res == if explicit {
            Some(requested)
        } else if role is Some {
            role
        } else {
            parent
        },
{
    if explicit {
        Some(requested)
    } else {
        match role {
            Some(value) => Some(value),
            None => parent,
        }
    }
}

/// The position of a model in the catalog, the first one of that name.
pub open spec fn first_model(models: Seq<WorkflowModelOption>, name: Seq<char>, i: int) -> bool {
    &&& 0 <= i < models.len()
    &&& models[i].model@ == name
    &&& forall|j: int| 0 <= j < i ==> (#[trigger] models[j]).model@ != name
}

/// Whether the catalog offers a model.
pub open spec fn has_model(models: Seq<WorkflowModelOption>, name: Seq<char>) -> bool {
    exists|i: int| first_model(models, name, i)
}

/// The first entry of a model in the catalog.
pub open spec fn model_named(
    models: Seq<WorkflowModelOption>,
    name: Seq<char>,
) -> WorkflowModelOption {
    models[choose|i: int| first_model(models, name, i)]
}

/// The model and the effort that a worker runs with.
#[derive(Debug)]
pub struct WorkerSelection {
    pub model: String,
    pub effort: String,
}

/// The model that a request leads to.
pub open spec fn effective_choice(
    parent: Option<Seq<char>>,
    role: Option<Seq<char>>,
    requested: Seq<char>,
    explicit: bool,
) -> Option<Seq<char>> {
    if explicit {
        Some(requested)
    } else if role is Some {
        role
    } else {
        parent
    }
}

/// The effort that a request leads to: the chosen one, or the model's default.
pub open spec fn effective_effort(
    models: Seq<WorkflowModelOption>,
    model: Seq<char>,
    chosen: Option<Seq<char>>,
) -> Seq<char> {
    match chosen {
        Some(effort) => effort,
        None => model_named(models, model).default_effort@,
    }
}

/// Why the model or the effort of a request is rejected.
pub open spec fn selection_refusal(
    models: Seq<WorkflowModelOption>,
    model: Option<Seq<char>>,
    effort: Option<Seq<char>>,
) -> Option<Seq<char>> {
    if model is None || !has_model(models, model->Some_0) {
        Some("workflow worker model is unavailable"@)
    } else if !texts(model_named(models, model->Some_0).supported_efforts@).contains(
        effective_effort(models, model->Some_0, effort),
    ) {
        Some("workflow worker effort is unsupported by the selected model"@)
    } else {
        None
    }
}

fn find_model(models: &Vec<WorkflowModelOption>, name: &str) -> (res: Option<usize>)
    ensures
        res is Some <==> has_model(models@, name@),
        res matches Some(i) ==> i < models@.len() && models@[i as int] == model_named(
            models@,
            name@,
        ),
{
    let mut i: usize = 0;
    while i < models.len()
        invariant
            i <= models@.len(),
            forall|j: int| 0 <= j < i ==> (#[trigger] models@[j]).model@ != name@,
        decreases models@.len() - i,
    {
        if same(models[i].model.as_str(), name) {
            assert(first_model(models@, name@, i as int));
            proof {
                let k = choose|k: int| first_model(models@, name@, k);
                assert(k == i) by {
                    if k < i {
                        assert(models@[k].model@ != name@);
                    }
                    if i < k {
                        assert(models@[i as int].model@ != name@);
                    }
                }
            }
            return Some(i);
        }
        i = i + 1;
    }
    None
}

fn contains_text(list: &Vec<String>, text: &str) -> (res: bool)
    ensures
        res == texts(list@).contains(text@),
{
    let mut i: usize = 0;
    while i < list.len()
        invariant
            i <= list@.len(),
            forall|j: int| 0 <= j < i ==> (#[trigger] list@[j])@ != text@,
        decreases list@.len() - i,
    {
        if same(list[i].as_str(), text) {
            assert(texts(list@)[i as int] == text@);
            return true;
        }
        i = i + 1;
    }
    assert forall|j: int| 0 <= j < texts(list@).len() implies texts(list@)[j] != text@ by {
        assert(list@[j]@ != text@);
    }
    false
}

/// Chooses the model and the effort of a worker: the request's own where they are explicit, else
/// the role's, else the parent's; the effort defaults to the model's. Both must be in the catalog.
pub fn select_worker_model(
    models: &Vec<WorkflowModelOption>,
    current: &ThreadConfigSnapshot,
    role_model: Option<String>,
    role_effort: Option<String>,
    params: &WorkflowWorkerStartParams,
) -> (res: Result<WorkerSelection, RpcError>)
    ensures
        ({
            let model = effective_choice(
                Some(current.model@),
                option_text(role_model),
                params.model@,
                params.model_explicit,
            );
            let effort = effective_choice(
                option_text(current.reasoning_effort),
                option_text(role_effort),
                params.effort@,
                params.effort_explicit,
            );
            &&& refused_by(res, selection_refusal(models@, model, effort))
            &&& res matches Ok(selection) ==> Some(selection.model@) == model
                && selection.effort@ == effective_effort(models@, model->Some_0, effort)
        }),
{
    let model = workflow_effective_selection(
        Some(current.model.clone()),
        role_model,
        params.model.clone(),
        params.model_explicit,
    );
    let effort = workflow_effective_selection(
        current.reasoning_effort.clone(),
        role_effort,
        params.effort.clone(),
        params.effort_explicit,
    );
    let model = match model {
        Some(model) => model,
        None => {
            return Err(invalid_request("workflow worker model is unavailable"));
        },
    };
    let index = match find_model(models, model.as_str()) {
        Some(index) => index,
        None => {
            return Err(invalid_request("workflow worker model is unavailable"));
        },
    };
    let effort = match effort {
        Some(effort) => effort,
        None => models[index].default_effort.clone(),
    };
    if !contains_text(&models[index].supported_efforts, effort.as_str()) {
        return Err(
            invalid_request("workflow worker effort is unsupported by the selected model"),
        );
    }
    Ok(WorkerSelection { model, effort })
}

/// Who owns a worker thread, and what it was started with.
#[derive(Debug)]
pub struct WorkflowWorkerOwnership {
    pub parent_thread_id: ThreadId,
    pub authority_digest: String,
    pub run_id: String,
    pub worker_id: String,
    /// A turn was submitted, or may have been, and its outcome is not known yet.
    pub launch_intent: bool,
    pub admitted_authority: Option<ThreadConfigSnapshot>,
    pub read_only: bool,
    pub agent_type: String,
    pub schema_digest: Option<String>,
    pub workspace_id: Option<String>,
    pub cwd: AbsolutePath,
    pub role_digest: String,
}

/// A worker turn that passed every check and is about to be launched.
#[derive(Debug)]
pub struct WorkerLaunch {
    pub parent_thread_id: ThreadId,
    pub authority_digest: String,
    pub run_id: String,
    pub worker_id: String,
    pub read_only: bool,
    pub agent_type: String,
    pub schema_digest: Option<String>,
    pub workspace_id: Option<String>,
    pub cwd: AbsolutePath,
    pub role_digest: String,
    pub model: String,
    pub effort: String,
}

/// Whether a worker was started with what the launch has now.
pub open spec fn same_assignment(worker: WorkflowWorkerOwnership, launch: WorkerLaunch) -> bool {
    &&& worker.parent_thread_id == launch.parent_thread_id
    &&& worker.authority_digest@ == launch.authority_digest@
    &&& worker.read_only == launch.read_only
    &&& worker.agent_type@ == launch.agent_type@
    &&& option_text(worker.schema_digest) == option_text(launch.schema_digest)
    &&& option_text(worker.workspace_id) == option_text(launch.workspace_id)
    &&& worker.role_digest@ == launch.role_digest@
}

fn is_same_assignment(worker: &WorkflowWorkerOwnership, launch: &WorkerLaunch) -> (res: bool)
    ensures
        res == same_assignment(*worker, *launch),
{
    worker.parent_thread_id == launch.parent_thread_id && same(
        worker.authority_digest.as_str(),
        launch.authority_digest.as_str(),
    ) && worker.read_only == launch.read_only && same(
        worker.agent_type.as_str(),
        launch.agent_type.as_str(),
    ) && same_option(&worker.schema_digest, &launch.schema_digest) && same_option(
        &worker.workspace_id,
        &launch.workspace_id,
    ) && same(worker.role_digest.as_str(), launch.role_digest.as_str())
}

/// Whether a thread descends from the launch's parent and runs the same model at the same effort.
pub open spec fn same_lineage(thread: ThreadConfigSnapshot, launch: WorkerLaunch) -> bool {
    &&& thread.forked_from_thread_id == Some(launch.parent_thread_id)
    &&& thread.model@ == launch.model@
    &&& option_text(thread.reasoning_effort) == Some(launch.effort@)
}

fn is_same_lineage(thread: &ThreadConfigSnapshot, launch: &WorkerLaunch) -> (res: bool)
    ensures
        res == same_lineage(*thread, *launch),
{
    let forked = match thread.forked_from_thread_id {
        Some(parent) => parent == launch.parent_thread_id,
        None => false,
    };
    forked && same(thread.model.as_str(), launch.model.as_str()) && is_text(
        &thread.reasoning_effort,
        launch.effort.as_str(),
    )
}

/// Whether a worker is the one of this run with this identity.
pub open spec fn is_attempt(
    worker: WorkflowWorkerOwnership,
    run_id: Seq<char>,
    worker_id: Seq<char>,
) -> bool {
    worker.run_id@ == run_id && worker.worker_id@ == worker_id
}

/// The entry of a launch that was just reserved.
pub open spec fn is_reservation(worker: WorkflowWorkerOwnership, launch: WorkerLaunch) -> bool {
    &&& same_assignment(worker, launch)
    &&& is_attempt(worker, launch.run_id@, launch.worker_id@)
    &&& worker.cwd@ == launch.cwd@
    &&& worker.launch_intent
    &&& worker.admitted_authority is None
}

/// Why a worker thread cannot be resumed.
pub open spec fn resume_refusal(
    workers: Map<ThreadId, WorkflowWorkerOwnership>,
    thread_id: ThreadId,
    launch: WorkerLaunch,
    requested_cwd: Seq<char>,
    child: ThreadConfigSnapshot,
) -> Option<Seq<char>> {
    if !workers.dom().contains(thread_id) {
        Some("workflow worker thread is not owned by this host"@)
    } else {
        let worker = workers[thread_id];
        if same_assignment(worker, launch) && is_attempt(worker, launch.run_id@, launch.worker_id@)
            && !worker.launch_intent && worker.admitted_authority is Some
            && worker.admitted_authority->Some_0.terms() == child.terms() && path_text(worker.cwd@)
            == requested_cwd && same_lineage(child, launch) {
            None
        } else {
            Some("workflow worker resume lineage is invalid"@)
        }
    }
}

/// What is known of an earlier attempt's thread.
#[derive(Debug)]
pub struct AttemptState {
    pub config: ThreadConfigSnapshot,
    pub status: AgentStatus,
}

/// Why an earlier attempt of the same worker cannot be replaced.
pub open spec fn replacement_refusal(
    previous: WorkflowWorkerOwnership,
    launch: WorkerLaunch,
    state: Option<AttemptState>,
) -> Option<Seq<char>> {
    if !same_assignment(previous, launch) || previous.launch_intent || previous.cwd@ != launch.cwd@ {
        Some("workflow worker replacement ownership is invalid"@)
    } else {
        match state {
            None => Some("workflow worker state unavailable"@),
            Some(state) => if !same_lineage(state.config, launch) {
                Some("workflow worker replacement lineage is invalid"@)
            } else if !is_terminal(state.status) {
                Some("workflow worker launch is already owned"@)
            } else {
                None
            },
        }
    }
}

/// A launch whose outcome is unknown is neither resumed nor replaced, so a retry cannot duplicate
/// its work.
pub proof fn uncertain_launch_is_kept(
    workers: Map<ThreadId, WorkflowWorkerOwnership>,
    thread_id: ThreadId,
    launch: WorkerLaunch,
    requested_cwd: Seq<char>,
    child: ThreadConfigSnapshot,
    state: Option<AttemptState>,
)
    requires
        workers.dom().contains(thread_id),
        workers[thread_id].launch_intent,
    ensures
        resume_refusal(workers, thread_id, launch, requested_cwd, child) is Some,
        replacement_refusal(workers[thread_id], launch, state) is Some,
{
}

/// A worker that is still running is not replaced.
pub proof fn active_worker_is_kept(
    previous: WorkflowWorkerOwnership,
    launch: WorkerLaunch,
    state: AttemptState,
)
    requires
        state.status is Running || state.status is PendingInit,
    ensures
        replacement_refusal(previous, launch, Some(state)) is Some,
{
}

/// The worker threads of the host. A run has at most one thread for each of its workers.
pub struct Workers {
    table: ThreadTable<WorkflowWorkerOwnership>,
}

impl Workers {
    pub closed spec fn map(self) -> Map<ThreadId, WorkflowWorkerOwnership> {
        self.table.map()
    }

    /// No two threads are attempts of the same worker.
    pub open spec fn one_attempt_each(self) -> bool {
        forall|a: ThreadId, b: ThreadId|
            self.map().dom().contains(a) && self.map().dom().contains(b) && is_attempt(
                #[trigger] self.map()[a],
                (#[trigger] self.map()[b]).run_id@,
                self.map()[b].worker_id@,
            ) ==> a == b
    }

    pub open spec fn well_formed(self) -> bool {
        self.one_attempt_each()
    }

    pub fn new() -> (res: Workers)
        ensures
            res.well_formed(),
            res.map() == Map::<ThreadId, WorkflowWorkerOwnership>::empty(),
    {
        Workers { table: ThreadTable::new() }
    }

    pub fn get(&self, thread_id: ThreadId) -> (res: Option<&WorkflowWorkerOwnership>)
        requires
            self.well_formed(),
        ensures
            res is Some <==> self.map().dom().contains(thread_id),
            res matches Some(worker) ==> *worker == self.map()[thread_id],
    {
        self.table.get(thread_id)
    }

    /// The thread of a run's worker, if it has one.
    pub fn attempt(&self, run_id: &str, worker_id: &str) -> (res: Option<ThreadId>)
        requires
            self.well_formed(),
        ensures
            res matches Some(thread_id) ==> self.map().dom().contains(thread_id) && is_attempt(
                self.map()[thread_id],
                run_id@,
                worker_id@,
            ),
            res is None ==> forall|thread_id: ThreadId| #[trigger]
                self.map().dom().contains(thread_id) ==> !is_attempt(
                    self.map()[thread_id],
                    run_id@,
                    worker_id@,
                ),
    {
        let threads = self.table.keys();
        let mut i: usize = 0;
        while i < threads.len()
            invariant
                self.table.threads(threads@),
                i <= threads@.len(),
                forall|j: int|
                    0 <= j < i ==> !is_attempt(
                        self.table.map()[#[trigger] threads@[j]],
                        run_id@,
                        worker_id@,
                    ),
            decreases threads@.len() - i,
        {
            let thread_id: ThreadId = threads[i];
            assert(self.table.map().dom().contains(threads@[i as int]));
            match self.table.get(thread_id) {
                Some(worker) => {
                    if same(worker.run_id.as_str(), run_id) && same(
                        worker.worker_id.as_str(),
                        worker_id,
                    ) {
                        return Some(thread_id);
                    }
                },
                None => {},
            }
            i = i + 1;
        }
        None
    }

    /// Marks a worker as launched again, if the launch continues its lineage.
    pub fn begin_resume(
        &mut self,
        thread_id: ThreadId,
        launch: &WorkerLaunch,
        requested_cwd: &str,
        child: &ThreadConfigSnapshot,
    ) -> (res: Result<(), RpcError>)
        requires
            old(self).well_formed(),
        ensures
            final(self).well_formed(),
            refused_by(
                res,
                resume_refusal(old(self).map(), thread_id, *launch, requested_cwd@, *child),
            ),
            res is Ok ==> final(self).map() == old(self).map().insert(
                thread_id,
                (WorkflowWorkerOwnership { launch_intent: true, ..old(self).map()[thread_id] }),
            ),
            res is Err ==> final(self).map() == old(self).map(),
    {
        let allowed = match self.table.get(thread_id) {
            None => {
                return Err(invalid_request("workflow worker thread is not owned by this host"));
            },
            Some(worker) => {
                let admitted = match &worker.admitted_authority {
                    Some(admitted) => workflow_authority_matches(admitted, child),
                    None => false,
                };
                is_same_assignment(worker, launch) && same(
                    worker.run_id.as_str(),
                    launch.run_id.as_str(),
                ) && same(worker.worker_id.as_str(), launch.worker_id.as_str())
                    && !worker.launch_intent && admitted && same(
                    worker.cwd.text().as_str(),
                    requested_cwd,
                ) && is_same_lineage(child, launch)
            },
        };
        if !allowed {
            return Err(invalid_request("workflow worker resume lineage is invalid"));
        }
        self.set_intent(thread_id, true);
        Ok(())
    }

    fn set_intent(&mut self, thread_id: ThreadId, intent: bool)
        requires
            old(self).well_formed(),
        ensures
            final(self).well_formed(),
            old(self).map().dom().contains(thread_id) ==> final(self).map() == old(self).map().insert(
                thread_id,
                (WorkflowWorkerOwnership { launch_intent: intent, ..old(self).map()[thread_id] }),
            ),
            !old(self).map().dom().contains(thread_id) ==> final(self).map() == old(self).map(),
    {
        match self.table.remove(thread_id) {
            Some(worker) => {
                let mut worker = worker;
                worker.launch_intent = intent;
                self.table.insert(thread_id, worker);
                assert(self.map() =~= old(self).map().insert(thread_id, worker));
                assert(self.one_attempt_each());
            },
            None => {
                assert(self.map() =~= old(self).map());
            },
        }
    }

    /// Settles the launch of a worker whose turn was submitted.
    pub fn settle(&mut self, thread_id: ThreadId)
        requires
            old(self).well_formed(),
        ensures
            final(self).well_formed(),
            is_settled(old(self).map(), thread_id, final(self).map()),
    {
        self.set_intent(thread_id, false);
    }

    /// Records the authority with which a worker's thread was admitted.
    pub fn record_authority(&mut self, thread_id: ThreadId, authority: ThreadConfigSnapshot)
        requires
            old(self).well_formed(),
        ensures
            final(self).well_formed(),
            is_recorded(old(self).map(), thread_id, authority, final(self).map()),
    {
        match self.table.remove(thread_id) {
            Some(worker) => {
                let mut worker = worker;
                worker.admitted_authority = Some(authority);
                self.table.insert(thread_id, worker);
                assert(self.map() =~= old(self).map().insert(thread_id, worker));
                assert(self.one_attempt_each());
            },
            None => {
                assert(self.map() =~= old(self).map());
            },
        }
    }

    /// Reserves a thread for a fresh launch. An earlier attempt of the same worker is replaced in
    /// the same move, and only if it is settled, ended and of the same assignment and lineage.
    /// `state` is what is known of the earlier attempt's thread.
    pub fn reserve(
        &mut self,
        reserved: ThreadId,
        launch: &WorkerLaunch,
        state: &Option<AttemptState>,
    ) -> (res: Result<(), RpcError>)
        requires
            old(self).well_formed(),
        ensures
            final(self).well_formed(),
            res is Err ==> final(self).map() == old(self).map(),
            res is Ok ==> {
                &&& final(self).map().dom().contains(reserved)
                &&& is_reservation(final(self).map()[reserved], *launch)
            },
            (forall|thread_id: ThreadId| #[trigger]
                old(self).map().dom().contains(thread_id) ==> !is_attempt(
                    old(self).map()[thread_id],
                    launch.run_id@,
                    launch.worker_id@,
                )) ==> res is Ok && final(self).map().remove(reserved) == old(self).map().remove(
                reserved,
            ),
            forall|previous: ThreadId|
                old(self).map().dom().contains(previous) && is_attempt(
                    #[trigger] old(self).map()[previous],
                    launch.run_id@,
                    launch.worker_id@,
                ) ==> {
                    &&& refused_by(
                        res,
                        replacement_refusal(old(self).map()[previous], *launch, *state),
                    )
                    &&& res is Ok ==> final(self).map().remove(reserved) == old(self).map().remove(
                        previous,
                    ).remove(reserved)
                },
    {
        let ghost start = self.map();
        match self.attempt(launch.run_id.as_str(), launch.worker_id.as_str()) {
            Some(previous_id) => {
                assert forall|other: ThreadId|
                    start.dom().contains(other) && is_attempt(
                        #[trigger] start[other],
                        launch.run_id@,
                        launch.worker_id@,
                    ) implies other == previous_id by {
                    assert(is_attempt(
                        self.map()[other],
                        self.map()[previous_id].run_id@,
                        self.map()[previous_id].worker_id@,
                    ));
                }
                match self.table.get(previous_id) {
                    Some(previous) => {
                        if !is_same_assignment(previous, launch) || previous.launch_intent
                            || !previous.cwd.same(&launch.cwd) {
                            return Err(
                                invalid_request("workflow worker replacement ownership is invalid"),
                            );
                        }
                    },
                    None => {
                        assert(false);
                    },
                }
                match state {
                    None => {
                        return Err(invalid_request("workflow worker state unavailable"));
                    },
                    Some(state) => {
                        if !is_same_lineage(&state.config, launch) {
                            return Err(
                                invalid_request("workflow worker replacement lineage is invalid"),
                            );
                        }
                        if !workflow_release_eligible(&state.status) {
                            return Err(invalid_request("workflow worker launch is already owned"));
                        }
                    },
                }
                let _ = self.table.remove(previous_id);
            },
            None => {},
        }
        let ghost cleared = self.map();
        assert(forall|thread_id: ThreadId| #[trigger]
            cleared.dom().contains(thread_id) ==> start.dom().contains(thread_id)
                && cleared[thread_id] == start[thread_id] && !is_attempt(
                cleared[thread_id],
                launch.run_id@,
                launch.worker_id@,
            ));
        let worker = WorkflowWorkerOwnership {
            parent_thread_id: launch.parent_thread_id,
            authority_digest: launch.authority_digest.clone(),
            run_id: launch.run_id.clone(),
            worker_id: launch.worker_id.clone(),
            launch_intent: true,
            admitted_authority: None,
            read_only: launch.read_only,
            agent_type: launch.agent_type.clone(),
            schema_digest: launch.schema_digest.clone(),
            workspace_id: launch.workspace_id.clone(),
            cwd: launch.cwd.copy(),
            role_digest: launch.role_digest.clone(),
        };
        self.table.insert(reserved, worker);
        proof {
            assert(self.map() =~= cleared.insert(reserved, worker));
            assert(self.one_attempt_each());
            assert(self.map().remove(reserved) =~= cleared.remove(reserved));
        }
        Ok(())
    }
}

/// What the host finds out before a worker can be planned.
#[derive(Debug)]
pub struct WorkerFacts {
    /// The read-only reduction of the base profile, where there is one.
    pub reduced_profile: Option<String>,
    pub requires_openai_auth: bool,
    /// The digest of the applied role, or why it could not be applied.
    pub role: Result<String, String>,
    pub role_model: Option<String>,
    pub role_effort: Option<String>,
    pub models: Vec<WorkflowModelOption>,
    /// Why the worker's permissions cannot be set, if they cannot.
    pub permissions_invalid: Option<String>,
    /// Why the parent's approval policy cannot be set for the worker, if it cannot.
    pub approval_invalid: Option<String>,
    /// The provider that the role's configuration selects.
    pub configured_provider: String,
    pub parent_provider_configured: bool,
}

/// How a worker is launched.
#[derive(Debug)]
pub struct WorkerPlan {
    pub launch: WorkerLaunch,
    pub permissions: PermissionSnapshot,
    pub prompt: String,
    pub workspace_roots: Vec<String>,
    pub switch_provider: bool,
    /// The parent's.
    pub approval_policy: String,
    /// The parent's.
    pub approvals_reviewer: ApprovalsReviewer,
    /// The parent's.
    pub service_tier: Option<String>,
}

/// The directory that a worker runs in.
pub open spec fn worker_cwd(
    isolated: Option<WorkflowWorkspaceOwnership>,
    current: ThreadConfigSnapshot,
) -> Seq<Seq<char>> {
    match isolated {
        Some(workspace) => workspace.cwd@,
        None => current.cwd@,
    }
}

/// The roots that a worker may work in: its checkout alone, or the parent's.
pub open spec fn worker_roots(
    isolated: Option<WorkflowWorkspaceOwnership>,
    current: ThreadConfigSnapshot,
) -> Seq<Seq<char>> {
    match isolated {
        Some(workspace) => seq![path_text(workspace.cwd@)],
        None => texts(current.workspace_roots@),
    }
}

/// The model that the request leads to.
pub open spec fn planned_model(
    params: WorkflowWorkerStartParams,
    current: ThreadConfigSnapshot,
    facts: WorkerFacts,
) -> Option<Seq<char>> {
    effective_choice(
        Some(current.model@),
        option_text(facts.role_model),
        params.model@,
        params.model_explicit,
    )
}

/// The effort that the request leads to, before the model's default.
pub open spec fn planned_effort(
    params: WorkflowWorkerStartParams,
    current: ThreadConfigSnapshot,
    facts: WorkerFacts,
) -> Option<Seq<char>> {
    effective_choice(
        option_text(current.reasoning_effort),
        option_text(facts.role_effort),
        params.effort@,
        params.effort_explicit,
    )
}

/// Why a worker cannot be planned: the first of the obstacles, in the order in which they are met.
pub open spec fn plan_refusal(
    params: WorkflowWorkerStartParams,
    isolated: Option<WorkflowWorkspaceOwnership>,
    current: ThreadConfigSnapshot,
    facts: WorkerFacts,
) -> Option<Seq<char>> {
    let selection = selection_refusal(
        facts.models@,
        planned_model(params, current, facts),
        planned_effort(params, current, facts),
    );
    if worker_profile(
        isolated,
        current,
        reads_only(params),
        option_text(facts.reduced_profile),
    ) is None {
        Some("external sandbox authority cannot be reduced safely"@)
    } else if current.model_provider_id@ != "openai"@ && !facts.requires_openai_auth {
        Some("workflow workers require an authenticated OpenAI Codex model provider"@)
    } else if facts.role is Err {
        Some(facts.role->Err_0@)
    } else if facts.role->Ok_0@ != params.role_digest@ {
        Some("workflow worker role changed after preparation"@)
    } else if selection is Some {
        selection
    } else if facts.permissions_invalid is Some {
        Some("workflow permission profile is invalid: "@ + facts.permissions_invalid->Some_0@)
    } else if facts.approval_invalid is Some {
        Some("workflow approval policy is invalid: "@ + facts.approval_invalid->Some_0@)
    } else if facts.configured_provider@ != current.model_provider_id@
        && !facts.parent_provider_configured {
        Some("workflow parent model provider is unavailable"@)
    } else {
        None
    }
}

/// Whether a worker is launched so.
pub open spec fn is_planned(
    params: WorkflowWorkerStartParams,
    parent_thread_id: ThreadId,
    isolated: Option<WorkflowWorkspaceOwnership>,
    current: ThreadConfigSnapshot,
    facts: WorkerFacts,
    plan: WorkerPlan,
) -> bool {
    let launch = plan.launch;
    &&& launch.parent_thread_id == parent_thread_id
    &&& launch.authority_digest@ == params.authority_digest@
    &&& launch.run_id@ == params.run_id@
    &&& launch.worker_id@ == params.worker_id@
    &&& launch.read_only == reads_only(params)
    &&& launch.agent_type@ == params.agent_type@
    &&& option_text(launch.schema_digest) == schema_digest(params.schema)
    &&& option_text(launch.workspace_id) == option_text(params.workspace.workspace_id)
    &&& launch.cwd@ == worker_cwd(isolated, current)
    &&& launch.role_digest@ == params.role_digest@
    &&& Some(launch.model@) == planned_model(params, current, facts)
    &&& launch.effort@ == effective_effort(
        facts.models@,
        launch.model@,
        planned_effort(params, current, facts),
    )
    &&& plan.prompt@ == worker_prompt(params.agent_type@, params.prompt@)
    &&& texts(plan.workspace_roots@) == worker_roots(isolated, current)
    &&& plan.switch_provider == (facts.configured_provider@ != current.model_provider_id@)
    &&& plan.approval_policy@ == current.approval_policy@
    &&& plan.approvals_reviewer == current.approvals_reviewer
    &&& option_text(plan.service_tier) == option_text(current.service_tier)
    &&& plan.permissions matches PermissionSnapshot::Active { profile, active, roots }
        ==> isolated is None && Some(profile@) == worker_profile(
        isolated,
        current,
        reads_only(params),
        option_text(facts.reduced_profile),
    ) && profile@ == current.permission_profile@ && Some(active@) == option_text(
        current.active_permission_profile,
    ) && texts(roots@) == texts(current.profile_workspace_roots@)
    &&& plan.permissions matches PermissionSnapshot::Legacy(profile) ==> Some(profile@)
        == worker_profile(
        isolated,
        current,
        reads_only(params),
        option_text(facts.reduced_profile),
    ) && (isolated is Some || current.active_permission_profile is None || profile@
        != current.permission_profile@)
}

/// Plans the launch of a worker whose request, authority and place were accepted. `isolated` is its
/// checkout, where it has one.
pub fn plan_worker(
    params: &WorkflowWorkerStartParams,
    parent_thread_id: ThreadId,
    isolated: &Option<WorkflowWorkspaceOwnership>,
    current: &ThreadConfigSnapshot,
    facts: WorkerFacts,
) -> (res: Result<WorkerPlan, RpcError>)
    ensures
        refused_by(res, plan_refusal(*params, *isolated, *current, facts)),
        res matches Ok(plan) ==> is_planned(
            *params,
            parent_thread_id,
            *isolated,
            *current,
            facts,
            plan,
        ),
{
    let read_only = worker_reads_only(params);
    let permissions = match worker_permissions(
        isolated,
        current,
        read_only,
        &facts.reduced_profile,
    ) {
        Ok(permissions) => permissions,
        Err(error) => {
            return Err(error);
        },
    };
    match check_worker_provider(current, facts.requires_openai_auth) {
        Ok(_) => {},
        Err(error) => {
            return Err(error);
        },
    }
    let role_digest = match facts.role {
        Ok(digest) => digest,
        Err(message) => {
            return Err(invalid_request(message.as_str()));
        },
    };
    if !same(role_digest.as_str(), params.role_digest.as_str()) {
        return Err(invalid_request("workflow worker role changed after preparation"));
    }
    let selection = match select_worker_model(
        &facts.models,
        current,
        facts.role_model,
        facts.role_effort,
        params,
    ) {
        Ok(selection) => selection,
        Err(error) => {
            return Err(error);
        },
    };
    match &facts.permissions_invalid {
        Some(message) => {
            return Err(failure_error(Failure::PermissionProfile, message.as_str()));
        },
        None => {},
    }
    match &facts.approval_invalid {
        Some(message) => {
            return Err(failure_error(Failure::ApprovalPolicy, message.as_str()));
        },
        None => {},
    }
    let switch_provider = match parent_provider(
        facts.configured_provider.as_str(),
        current,
        facts.parent_provider_configured,
    ) {
        Ok(switch) => switch,
        Err(error) => {
            return Err(error);
        },
    };
    let cwd = match isolated {
        Some(workspace) => workspace.cwd.copy(),
        None => current.cwd.copy(),
    };
    let workspace_roots = match isolated {
        Some(workspace) => {
            let mut roots: Vec<String> = Vec::new();
            roots.push(workspace.cwd.text());
            assert(texts(roots@) =~= seq![path_text(workspace.cwd@)]);
            roots
        },
        None => current.workspace_roots.clone(),
    };
    Ok(
        WorkerPlan {
            launch: WorkerLaunch {
                parent_thread_id,
                authority_digest: params.authority_digest.clone(),
                run_id: params.run_id.clone(),
                worker_id: params.worker_id.clone(),
                read_only,
                agent_type: params.agent_type.clone(),
                schema_digest: workflow_schema_digest(&params.schema),
                workspace_id: params.workspace.workspace_id.clone(),
                cwd,
                role_digest,
                model: selection.model,
                effort: selection.effort,
            },
            permissions,
            prompt: compose_worker_prompt(params.agent_type.as_str(), params.prompt.as_str()),
            workspace_roots,
            switch_provider,
            approval_policy: current.approval_policy.clone(),
            approvals_reviewer: current.approvals_reviewer,
            service_tier: current.service_tier.clone(),
        },
    )
}

/// The answer to a worker request whose turn was submitted.
pub fn worker_started(
    thread_id: ThreadId,
    session_id: String,
    turn_id: String,
    launch: &WorkerLaunch,
) -> (res: WorkflowWorkerStartResponse)
    ensures
        res.thread_id@ == uuid_text(thread_id.value),
        res.session_id@ == session_id@,
        res.turn_id@ == turn_id@,
        res.model@ == launch.model@,
        res.effort@ == launch.effort@,
{
    WorkflowWorkerStartResponse {
        thread_id: thread_id.to_text(),
        session_id,
        turn_id,
        model: launch.model.clone(),
        effort: launch.effort.clone(),
    }
}

/// A worker of a role that never writes, or that was asked to read only, gets the read-only
/// reduction of its profile and nothing else.
pub proof fn read_only_worker_is_reduced(
    params: WorkflowWorkerStartParams,
    isolated: Option<WorkflowWorkspaceOwnership>,
    current: ThreadConfigSnapshot,
    reduced: Option<Seq<char>>,
)
    requires
        params.read_only || params.agent_type@ == "Explore"@ || params.agent_type@ == "Plan"@,
    ensures
        worker_profile(isolated, current, reads_only(params), reduced) == reduced,
{
}

/// A worker is told its task: its prompt is what every worker is told first, what its role is told
/// and the request's own prompt, each on lines of its own, without what is empty. So it begins with
/// the preamble and ends with the request's prompt, whatever the role.
pub proof fn worker_is_told_its_task(agent_type: Seq<char>, prompt: Seq<char>)
    ensures
        ({
            let told = worker_prompt(agent_type, prompt);
            let first =
                "Do not launch sub-agents or delegate work. Complete only this workflow worker turn."@;
            let parts = seq![first, role_instructions(agent_type), prompt];
            &&& told == joined(parts.filter(|part: Seq<char>| part.len() > 0), "\n"@)
            &&& told.take(first.len() as int) == first
            &&& prompt.len() > 0 ==> told.skip(told.len() - prompt.len() - 1) == "\n"@ + prompt
        }),
        forall|other: Seq<char>| #[trigger]
            worker_prompt(agent_type, other) == worker_prompt(agent_type, prompt) ==> other
                == prompt,
{
    let first =
        "Do not launch sub-agents or delegate work. Complete only this workflow worker turn."@;
    let role = role_instructions(agent_type);
    let parts = seq![first, role, prompt];
    let kept = |part: Seq<char>| part.len() > 0;
    reveal_strlit(
        "Do not launch sub-agents or delegate work. Complete only this workflow worker turn.",
    );
    reveal_strlit("\n");
    let told = worker_prompt(agent_type, prompt);
    assert(told.take(first.len() as int) =~= first);
    if prompt.len() > 0 {
        assert(told.skip(told.len() - prompt.len() - 1) =~= "\n"@ + prompt);
    }
    reveal(Seq::filter);
    assert(parts.drop_last() =~= seq![first, role]);
    assert(seq![first, role].drop_last() =~= seq![first]);
    assert(seq![first].drop_last() =~= Seq::<Seq<char>>::empty());
    assert(Seq::<Seq<char>>::empty().filter(kept) =~= Seq::<Seq<char>>::empty());
    assert(seq![first].filter(kept) =~= seq![first]);
    let two = seq![first, role].filter(kept);
    let all = parts.filter(kept);
    assert(two =~= if role.len() > 0 {
        seq![first, role]
    } else {
        seq![first]
    });
    assert(all =~= if prompt.len() > 0 {
        two.push(prompt)
    } else {
        two
    });
    assert(all.len() > 1 ==> all.drop_last() =~= if prompt.len() > 0 {
        two
    } else {
        seq![first]
    });
    reveal_with_fuel(joined, 4);
    assert(told =~= joined(all, "\n"@));
    assert forall|other: Seq<char>| #[trigger]
        worker_prompt(agent_type, other) == worker_prompt(agent_type, prompt) implies other
        == prompt by {
        let said = worker_prompt(agent_type, other);
        let n = if role.len() > 0 {
            first.len() + 1 + role.len()
        } else {
            first.len()
        };
        assert(prompt.len() > 0 ==> told.skip(n as int + 1) =~= prompt);
        assert(other.len() > 0 ==> said.skip(n as int + 1) =~= other);
        assert(prompt.len() == 0 ==> told.len() == n);
        assert(other.len() == 0 ==> said.len() == n);
        if prompt.len() == 0 {
            assert(other =~= prompt);
        }
    }
}

/// The agent types that only read: without being asked for, a worker reads only exactly where its
/// role tells it not to modify files or external state. Where it is asked for, every worker does.
pub proof fn reading_roles_are_told_so(params: WorkflowWorkerStartParams)
    ensures
        params.read_only ==> reads_only(params),
        !params.read_only ==> (reads_only(params) <==> role_instructions(
            params.agent_type@,
        ).len() > 0),
        reads_only(params) && !params.read_only ==> {
            let told = role_instructions(params.agent_type@);
            let rule = " Do not modify files or external state."@;
            &&& told.len() > rule.len()
            &&& told.skip(told.len() - rule.len()) == rule
            &&& has_prefix(told, "Role: "@ + params.agent_type@ + ". "@)
            &&& params.agent_type@ == "Explore"@ || params.agent_type@ == "Plan"@
        },
        params.agent_type@ == "Explore"@ || params.agent_type@ == "Plan"@ ==> reads_only(params),
{
    reveal_strlit("Role: Explore. Inspect and report only. Do not modify files or external state.");
    reveal_strlit(
        "Role: Plan. Produce an implementation plan only. Do not modify files or external state.",
    );
    reveal_strlit(" Do not modify files or external state.");
    reveal_strlit("Role: ");
    reveal_strlit(". ");
    reveal_strlit("Explore");
    reveal_strlit("Plan");
    let told = role_instructions(params.agent_type@);
    let rule = " Do not modify files or external state."@;
    let start = "Role: "@ + params.agent_type@ + ". "@;
    if told.len() > 0 {
        assert(told.skip(told.len() - rule.len()) =~= rule);
        assert(told.take(start.len() as int) =~= start);
    }
}

/// The agent types of the host stand for native roles, and any other agent type for the role of its
/// name; what a type stands for stands for itself.
pub proof fn agent_types_stand_for_roles(agent_type: Seq<char>)
    ensures
        native_role(native_role(agent_type)) == native_role(agent_type),
        native_role(agent_type) == "explorer"@ <==> agent_type == "Explore"@ || agent_type
            == "explorer"@,
        native_role(agent_type) == "default"@ <==> agent_type == "general-purpose"@ || agent_type
            == "Plan"@ || agent_type == "default"@,
        native_role(agent_type) != agent_type ==> agent_type == "general-purpose"@ || agent_type
            == "Plan"@ || agent_type == "Explore"@,
{
    reveal_strlit("general-purpose");
    reveal_strlit("Plan");
    reveal_strlit("Explore");
    reveal_strlit("default");
    reveal_strlit("explorer");
    assert("default"@[0] == 'd' && "explorer"@[0] == 'e' && "general-purpose"@[0] == 'g'
        && "Plan"@[0] == 'P' && "Explore"@[0] == 'E');
}

/// Every setting of a role counts: a role in which one of them was changed since it was prepared is
/// told apart by what its digest is made of.
pub proof fn every_role_setting_counts(settings: RoleSettings, changed: RoleSettings, i: int)
    requires
        0 <= i < 7,
        role_parts(settings)[i] != role_parts(changed)[i],
        forall|j: int| 0 <= j < 7 && j != i ==> #[trigger] role_parts(settings)[j] == role_parts(
            changed,
        )[j],
    ensures
        role_material(settings) != role_material(changed),
{
    assert(role_material(settings) == joined(role_parts(settings), "|"@));
    assert(role_material(changed) == joined(role_parts(changed), "|"@));
    joined_tells_one_change(role_parts(settings), role_parts(changed), "|"@, i);
}

/// The settings of a role, one by one.
pub open spec fn role_parts(settings: RoleSettings) -> Seq<Seq<char>> {
    seq![
        settings.developer_instructions@,
        settings.reasoning_summary@,
        settings.verbosity@,
        settings.personality@,
        settings.features@,
        settings.skill_instructions@,
        settings.layers@,
    ]
}

/// The digest of an output schema tells schemas apart as far as digests tell texts apart, and does
/// not depend on anything but what the schema holds.
pub proof fn schema_digest_tells_schemas_apart(
    a: Option<serde_json::Value>,
    b: Option<serde_json::Value>,
)
    ensures
        schema_digest(a) is Some <==> a is Some,
        a is Some && b is Some && tree(a->Some_0) == tree(b->Some_0) ==> schema_digest(a)
            == schema_digest(b),
        a is Some && b is Some && schema_digest(a) == schema_digest(b) ==> text_digest(
            json_text(tree(a->Some_0)),
        ) == text_digest(json_text(tree(b->Some_0))),
{
}

/// A choice that is explicit is kept; one that is not gives way to the role's, and that to the
/// parent's.
pub proof fn explicit_choice_is_kept(
    parent: Option<Seq<char>>,
    role: Option<Seq<char>>,
    requested: Seq<char>,
    other: Seq<char>,
)
    ensures
        effective_choice(parent, role, requested, true) == Some(requested),
        effective_choice(parent, role, requested, false) == effective_choice(
            parent,
            role,
            other,
            false,
        ),
        role is Some ==> effective_choice(parent, role, requested, false) == role,
        role is None ==> effective_choice(parent, role, requested, false) == parent,
{
}

/// A worker runs a model that the catalog offers, at an effort that the catalog has for it. A model
/// that is not offered, and an effort that it has not, are refused.
pub proof fn worker_runs_what_the_catalog_offers(
    models: Seq<WorkflowModelOption>,
    model: Seq<char>,
    effort: Option<Seq<char>>,
)
    ensures
        selection_refusal(models, None, effort) is Some,
        (forall|i: int| 0 <= i < models.len() ==> (#[trigger] models[i]).model@ != model)
            ==> selection_refusal(models, Some(model), effort) == Some(
            "workflow worker model is unavailable"@,
        ),
        selection_refusal(models, Some(model), effort) is None ==> exists|i: int|
            0 <= i < models.len() && (#[trigger] models[i]).model@ == model && texts(
                models[i].supported_efforts@,
            ).contains(effective_effort(models, model, effort)) && effective_effort(
                models,
                model,
                effort,
            ) == (if effort is Some {
                effort->Some_0
            } else {
                models[i].default_effort@
            }),
        forall|i: int|
            0 <= i < models.len() && (#[trigger] models[i]).model@ == model && (forall|j: int|
                0 <= j < i ==> (#[trigger] models[j]).model@ != model) && texts(
                models[i].supported_efforts@,
            ).contains(
                if effort is Some {
                    effort->Some_0
                } else {
                    models[i].default_effort@
                },
            ) ==> selection_refusal(models, Some(model), effort) is None,
{
    if has_model(models, model) {
        let i = choose|i: int| first_model(models, model, i);
        assert(models[i].model@ == model);
    }
    assert forall|i: int|
        0 <= i < models.len() && (#[trigger] models[i]).model@ == model && (forall|j: int|
            0 <= j < i ==> (#[trigger] models[j]).model@ != model) && texts(
            models[i].supported_efforts@,
        ).contains(
            if effort is Some {
                effort->Some_0
            } else {
                models[i].default_effort@
            },
        ) implies selection_refusal(models, Some(model), effort) is None by {
        assert(first_model(models, model, i));
        let k = choose|k: int| first_model(models, model, k);
        assert(k == i) by {
            if k < i {
                assert(models[k].model@ != model);
            }
            if i < k {
                assert(models[i].model@ != model);
            }
        }
    }
}

/// A worker works in its place and with its parent's authority: in its checkout and nowhere else,
/// with the checkout's permissions, or in the parent's directory with the parent's. A worker that
/// reads only has the reduced permissions in either place. What it is told ends with its task, it
/// runs what was asked for explicitly, and the rest is the parent's.
pub proof fn worker_works_in_its_place(
    params: WorkflowWorkerStartParams,
    parent_thread_id: ThreadId,
    isolated: Option<WorkflowWorkspaceOwnership>,
    current: ThreadConfigSnapshot,
    facts: WorkerFacts,
    plan: WorkerPlan,
)
    requires
        plan_refusal(params, isolated, current, facts) is None,
        is_planned(params, parent_thread_id, isolated, current, facts, plan),
    ensures
        ({
            let reads = params.read_only || params.agent_type@ == "Explore"@ || params.agent_type@
                == "Plan"@;
            let profile = match plan.permissions {
                PermissionSnapshot::Active { profile, active, roots } => profile@,
                PermissionSnapshot::Legacy(profile) => profile@,
            };
            &&& reads ==> facts.reduced_profile is Some && profile
                == facts.reduced_profile->Some_0@
            &&& plan.launch.read_only == reads
            &&& isolated matches Some(workspace) ==> {
                &&& plan.launch.cwd@ == workspace.cwd@
                &&& texts(plan.workspace_roots@) == seq![path_text(workspace.cwd@)]
                &&& !reads ==> profile == workspace.permission_profile@
                &&& plan.permissions is Legacy
            }
            &&& isolated is None ==> {
                &&& plan.launch.cwd@ == current.cwd@
                &&& texts(plan.workspace_roots@) == texts(current.workspace_roots@)
                &&& !reads ==> profile == current.permission_profile@
                &&& plan.permissions is Active <==> current.active_permission_profile is Some
                    && profile == current.permission_profile@
            }
        }),
        plan.launch.parent_thread_id == parent_thread_id,
        plan.launch.run_id@ == params.run_id@,
        plan.launch.worker_id@ == params.worker_id@,
        plan.launch.authority_digest@ == params.authority_digest@,
        plan.launch.agent_type@ == params.agent_type@,
        option_text(plan.launch.workspace_id) == option_text(params.workspace.workspace_id),
        facts.role matches Ok(digest) && digest@ == plan.launch.role_digest@,
        params.prompt@.len() > 0 ==> plan.prompt@.skip(
            plan.prompt@.len() - params.prompt@.len() - 1,
        ) == "\n"@ + params.prompt@,
        params.model_explicit ==> plan.launch.model@ == params.model@,
        params.effort_explicit ==> plan.launch.effort@ == params.effort@,
        !params.model_explicit && facts.role_model is None ==> plan.launch.model@ == current.model@,
        !params.model_explicit && facts.role_model is Some ==> plan.launch.model@
            == facts.role_model->Some_0@,
        plan.approval_policy@ == current.approval_policy@,
        plan.approvals_reviewer == current.approvals_reviewer,
        option_text(plan.service_tier) == option_text(current.service_tier),
        current.model_provider_id@ == "openai"@ || facts.requires_openai_auth,
        plan.switch_provider <==> facts.configured_provider@ != current.model_provider_id@,
        plan.switch_provider ==> facts.parent_provider_configured,
{
    worker_is_told_its_task(params.agent_type@, params.prompt@);
}

/// A worker thread goes on, or is replaced, only for what it was started with: a request whose
/// parent, authority, access, role, schema, workspace, run or worker is another one is refused. One
/// that is the same in all of this and in its lineage goes on once the thread is settled, and
/// replaces it once it has ended.
pub proof fn worker_keeps_its_assignment(
    workers: Map<ThreadId, WorkflowWorkerOwnership>,
    thread_id: ThreadId,
    launch: WorkerLaunch,
    requested_cwd: Seq<char>,
    child: ThreadConfigSnapshot,
    state: AttemptState,
)
    requires
        workers.dom().contains(thread_id),
    ensures
        ({
            let worker = workers[thread_id];
            let unchanged = {
                &&& worker.parent_thread_id == launch.parent_thread_id
                &&& worker.authority_digest@ == launch.authority_digest@
                &&& worker.read_only == launch.read_only
                &&& worker.agent_type@ == launch.agent_type@
                &&& option_text(worker.schema_digest) == option_text(launch.schema_digest)
                &&& option_text(worker.workspace_id) == option_text(launch.workspace_id)
                &&& worker.role_digest@ == launch.role_digest@
            };
            let descends = |config: ThreadConfigSnapshot|
                config.forked_from_thread_id == Some(launch.parent_thread_id) && config.model@
                    == launch.model@ && option_text(config.reasoning_effort) == Some(
                    launch.effort@,
                );
            let ended = state.status is Completed || state.status is Errored || state.status
                is Interrupted || state.status is Shutdown;
            &&& resume_refusal(workers, thread_id, launch, requested_cwd, child) is None <==> {
                &&& unchanged
                &&& worker.run_id@ == launch.run_id@
                &&& worker.worker_id@ == launch.worker_id@
                &&& !worker.launch_intent
                &&& worker.admitted_authority matches Some(admitted) && admitted.terms()
                    == child.terms()
                &&& path_text(worker.cwd@) == requested_cwd
                &&& descends(child)
            }
            &&& replacement_refusal(worker, launch, Some(state)) is None <==> {
                &&& unchanged
                &&& !worker.launch_intent
                &&& worker.cwd@ == launch.cwd@
                &&& descends(state.config)
                &&& ended
            }
            &&& replacement_refusal(worker, launch, None) is Some
        }),
{
}

/// Whether the launch of a worker is settled.
pub open spec fn is_settled(
    before: Map<ThreadId, WorkflowWorkerOwnership>,
    thread_id: ThreadId,
    after: Map<ThreadId, WorkflowWorkerOwnership>,
) -> bool {
    if before.dom().contains(thread_id) {
        after == before.insert(
            thread_id,
            (WorkflowWorkerOwnership { launch_intent: false, ..before[thread_id] }),
        )
    } else {
        after == before
    }
}

/// Whether the authority with which a worker was admitted is recorded.
pub open spec fn is_recorded(
    before: Map<ThreadId, WorkflowWorkerOwnership>,
    thread_id: ThreadId,
    authority: ThreadConfigSnapshot,
    after: Map<ThreadId, WorkflowWorkerOwnership>,
) -> bool {
    if before.dom().contains(thread_id) {
        after == before.insert(
            thread_id,
            (WorkflowWorkerOwnership { admitted_authority: Some(authority), ..before[thread_id] }),
        )
    } else {
        after == before
    }
}

/// Settling a launch and recording an authority change what they say of one worker, and nothing else:
/// no worker comes or goes, and whose worker it is, what it works at and where stays.
pub proof fn bookkeeping_keeps_the_worker(
    before: Map<ThreadId, WorkflowWorkerOwnership>,
    thread_id: ThreadId,
    authority: ThreadConfigSnapshot,
    after: Map<ThreadId, WorkflowWorkerOwnership>,
    other: ThreadId,
)
    requires
        is_settled(before, thread_id, after) || is_recorded(before, thread_id, authority, after),
    ensures
        after.dom() =~= before.dom(),
        other != thread_id && before.dom().contains(other) ==> after[other] == before[other],
        before.dom().contains(thread_id) ==> after[thread_id].parent_thread_id
            == before[thread_id].parent_thread_id && after[thread_id].run_id
            == before[thread_id].run_id && after[thread_id].worker_id == before[thread_id].worker_id
            && after[thread_id].workspace_id == before[thread_id].workspace_id
            && after[thread_id].cwd == before[thread_id].cwd && after[thread_id].role_digest
            == before[thread_id].role_digest,
        before.dom().contains(thread_id) && is_settled(before, thread_id, after)
            ==> !after[thread_id].launch_intent && after[thread_id].admitted_authority
            == before[thread_id].admitted_authority,
        before.dom().contains(thread_id) && is_recorded(before, thread_id, authority, after)
            ==> after[thread_id].admitted_authority == Some(authority)
            && after[thread_id].launch_intent == before[thread_id].launch_intent,
{
}

/// A launch is reserved as what was asked for: for its parent, run and worker, under its authority,
/// with its access, role, schema and place. Its outcome is not known, and no authority is recorded.
pub proof fn reservation_is_for_the_launch(worker: WorkflowWorkerOwnership, launch: WorkerLaunch)
    requires
        is_reservation(worker, launch),
    ensures
        worker.parent_thread_id == launch.parent_thread_id,
        worker.run_id@ == launch.run_id@ && worker.worker_id@ == launch.worker_id@,
        worker.authority_digest@ == launch.authority_digest@,
        worker.read_only == launch.read_only && worker.agent_type@ == launch.agent_type@,
        option_text(worker.schema_digest) == option_text(launch.schema_digest),
        option_text(worker.workspace_id) == option_text(launch.workspace_id),
        worker.role_digest@ == launch.role_digest@,
        worker.cwd@ == launch.cwd@,
        worker.launch_intent && worker.admitted_authority is None,
{
}

/// A request without a task is refused, and one whose output is to have the shape of what is no object.
pub proof fn request_needs_a_task(params: WorkflowWorkerStartParams)
    ensures
        request_refusal(params) is None <==> trimmed(params.prompt@).len() > 0 && (params.schema
            is Some ==> tree(params.schema->Some_0) is Object),
        trimmed(params.prompt@).len() == 0 ==> request_refusal(params) == Some(
            "workflow worker prompt must not be empty"@,
        ),
        trimmed(params.prompt@).len() > 0 && request_refusal(params) is Some ==> request_refusal(
            params,
        ) == Some("workflow worker schema must be an object"@),
{
}

} // verus!
