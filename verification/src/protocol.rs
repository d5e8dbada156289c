//! Parameters and responses of the workflow requests.
use vstd::prelude::*;

verus! {

#[derive(Debug)]
pub struct WorkflowAuthorityCaptureParams {
    pub parent_thread_id: String,
    pub allow_isolated_workspaces: bool,
}

#[derive(Debug)]
pub struct WorkflowAuthorityCaptureResponse {
    pub authority_ref: String,
    pub generation: u64,
    pub authority_digest: String,
    pub cwd: String,
    pub parent_model: String,
    pub parent_effort: Option<String>,
    pub models: Vec<WorkflowModelOption>,
    pub plugins: Vec<WorkflowPluginOption>,
    pub web_search_available: bool,
    /// Effective native workflow listener, used to bind a headless controller to its parent.
    pub workflow_host_url: Option<String>,
}

#[derive(Debug)]
pub struct WorkflowPluginOption {
    pub name: String,
    pub root: String,
    pub workflows: Vec<String>,
}

#[derive(Debug)]
pub struct WorkflowScriptReadParams {
    pub parent_thread_id: String,
    pub authority_ref: String,
    pub authority_digest: String,
    pub script_path: String,
}

#[derive(Debug)]
pub struct WorkflowScriptReadResponse {
    pub resolved_path: String,
    pub source: String,
    pub source_digest: String,
}

#[derive(Debug)]
pub struct WorkflowSaveParams {
    pub parent_thread_id: String,
    pub authority_ref: String,
    pub authority_digest: String,
    pub run_id: String,
    pub name: String,
    pub scope: String,
    pub source: String,
    pub source_digest: String,
}

#[derive(Debug)]
pub struct WorkflowSaveResponse {
    pub path: String,
}

#[derive(Debug)]
pub struct WorkflowCompletionInjectParams {
    pub parent_thread_id: String,
    pub run_id: String,
    pub summary: String,
}

#[derive(Debug)]
pub struct WorkflowCompletionInjectResponse {
    /// The turn that accepted the completion; acceptance can precede persistence.
    pub turn_id: String,
}

#[derive(Debug)]
pub struct WorkflowModelOption {
    pub model: String,
    pub default_effort: String,
    pub supported_efforts: Vec<String>,
}

#[derive(Debug)]
pub struct WorkflowWorkerStartParams {
    pub run_id: String,
    pub worker_id: String,
    pub parent_thread_id: String,
    pub authority_ref: String,
    pub authority_generation: u64,
    pub authority_digest: String,
    pub prompt: String,
    pub model: String,
    pub effort: String,
    pub model_explicit: bool,
    pub effort_explicit: bool,
    /// Native role name. The host resolves configured roles; this protocol does not freeze an enum.
    pub agent_type: String,
    pub role_digest: String,
    /// Restrict this worker to the parent's read-only intersection.
    pub read_only: bool,
    pub workspace: WorkflowWorkspace,
    pub schema: Option<serde_json::Value>,
    pub resume_thread_id: Option<String>,
}

#[derive(Debug)]
pub struct WorkflowWorkspace {
    pub workspace_id: Option<String>,
    pub cwd: String,
    pub isolated: bool,
    pub base_commit: Option<String>,
}

#[derive(Debug)]
pub struct WorkflowWorkspacePrepareParams {
    pub run_id: String,
    pub worker_id: String,
    pub agent_type: String,
    pub authority_ref: String,
    pub authority_digest: String,
    pub isolation: Option<String>,
    pub requested_cwd: String,
    pub previous: Option<WorkflowWorkspace>,
}

#[derive(Debug)]
pub struct WorkflowWorkspacePrepareResponse {
    pub workspace_id: Option<String>,
    pub cwd: String,
    pub isolated: bool,
    pub base_commit: Option<String>,
    pub authority_generation: u64,
    pub role_digest: String,
}

#[derive(Debug)]
pub struct WorkflowWorkspaceReleaseParams {
    pub run_id: String,
    pub worker_id: String,
    pub workspace_id: Option<String>,
}

#[derive(Debug)]
pub struct WorkflowWorkspaceReleaseResponse {
    pub eligible: bool,
}

#[derive(Debug)]
pub struct WorkflowWorkerStartResponse {
    pub thread_id: String,
    pub session_id: String,
    pub turn_id: String,
    pub model: String,
    pub effort: String,
}

} // verus!
