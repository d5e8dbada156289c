//! What a parent thread may do, as captured for its workflow workers.
use crate::digest::{digest_text, text_digest};
use crate::error::{invalid_request, refused_by, RpcError};
use crate::ids::{is_plugin_name, plugin_name, ThreadId};
use crate::path::{path_text, AbsolutePath};
use crate::protocol::{
    WorkflowAuthorityCaptureResponse, WorkflowModelOption, WorkflowPluginOption,
};
use crate::registry::Registry;
use crate::text::{
    debug_text, join, joined, joined_tells_one_change, option_text, plus3, quoted, same, same_option, same_texts, texts,
};
use vstd::prelude::*;

verus! {

/// Who decides on approvals.
#[derive(Clone, Copy, Debug, PartialEq, Eq, Structural)]
pub enum ApprovalsReviewer {
    User,
    AutoReview,
}

/// The settings of a thread at one moment. Policies and profiles that the library only carries
/// and compares are held as their canonical text.
#[derive(Debug)]
pub struct ThreadConfigSnapshot {
    pub model: String,
    pub model_provider_id: String,
    pub service_tier: Option<String>,
    pub approval_policy: String,
    /// Whether the approval policy lets a thread ask for more permissions.
    pub permission_requests_allowed: bool,
    pub approvals_reviewer: ApprovalsReviewer,
    pub permission_profile: String,
    pub active_permission_profile: Option<String>,
    pub environments: String,
    pub workspace_roots: Vec<String>,
    pub profile_workspace_roots: Vec<String>,
    pub cwd: AbsolutePath,
    pub reasoning_effort: Option<String>,
    pub forked_from_thread_id: Option<ThreadId>,
}

/// The part of a thread's settings that its authority rests on.
pub struct AuthorityTerms {
    pub approval_policy: Seq<char>,
    pub approvals_reviewer: ApprovalsReviewer,
    pub permission_profile: Seq<char>,
    pub active_permission_profile: Option<Seq<char>>,
    pub environments: Seq<char>,
    pub workspace_roots: Seq<Seq<char>>,
    pub profile_workspace_roots: Seq<Seq<char>>,
    pub cwd: Seq<Seq<char>>,
}

impl ThreadConfigSnapshot {
    pub open spec fn terms(self) -> AuthorityTerms {
        AuthorityTerms {
            approval_policy: self.approval_policy@,
            approvals_reviewer: self.approvals_reviewer,
            permission_profile: self.permission_profile@,
            active_permission_profile: option_text(self.active_permission_profile),
            environments: self.environments@,
            workspace_roots: texts(self.workspace_roots@),
            profile_workspace_roots: texts(self.profile_workspace_roots@),
            cwd: self.cwd@,
        }
    }
}

/// Whether two snapshots grant the same authority.
pub fn workflow_authority_matches(
    left: &ThreadConfigSnapshot,
    right: &ThreadConfigSnapshot,
) -> (res: bool)
    ensures
        res == (left.terms() == right.terms()),
{
    same(left.approval_policy.as_str(), right.approval_policy.as_str()) && left.approvals_reviewer
        == right.approvals_reviewer && same(
        left.permission_profile.as_str(),
        right.permission_profile.as_str(),
    ) && same_option(&left.active_permission_profile, &right.active_permission_profile) && same(
        left.environments.as_str(),
        right.environments.as_str(),
    ) && same_texts(&left.workspace_roots, &right.workspace_roots) && same_texts(
        &left.profile_workspace_roots,
        &right.profile_workspace_roots,
    ) && left.cwd.same(&right.cwd)
}

/// A change of any single term of the authority makes two snapshots differ in authority; the
/// model, its provider, the effort and the lineage do not count.
pub proof fn every_authority_change_counts(
    left: ThreadConfigSnapshot,
    right: ThreadConfigSnapshot,
)
    ensures
        left.approval_policy@ != right.approval_policy@ ==> left.terms() != right.terms(),
        left.approvals_reviewer != right.approvals_reviewer ==> left.terms() != right.terms(),
        left.permission_profile@ != right.permission_profile@ ==> left.terms() != right.terms(),
        option_text(left.active_permission_profile) != option_text(right.active_permission_profile)
            ==> left.terms() != right.terms(),
        left.environments@ != right.environments@ ==> left.terms() != right.terms(),
        texts(left.workspace_roots@) != texts(right.workspace_roots@) ==> left.terms()
            != right.terms(),
        texts(left.profile_workspace_roots@) != texts(right.profile_workspace_roots@)
            ==> left.terms() != right.terms(),
        left.cwd@ != right.cwd@ ==> left.terms() != right.terms(),
{
}

/// Whether what was captured for a parent at a generation is meant.
pub open spec fn speaks_of(
    captured_parent: ThreadId,
    captured_generation: u64,
    parent_thread_id: ThreadId,
    generation: u64,
) -> bool {
    captured_parent == parent_thread_id && captured_generation == generation
}

/// Whether an authority reference speaks of this parent and this generation.
pub fn workflow_authority_ref_matches(
    authority_parent_thread_id: ThreadId,
    authority_generation: u64,
    parent_thread_id: ThreadId,
    generation: u64,
) -> (res: bool)
    ensures
        res == speaks_of(
            authority_parent_thread_id,
            authority_generation,
            parent_thread_id,
            generation,
        ),
{
    authority_parent_thread_id == parent_thread_id && authority_generation == generation
}

/// `[a, b, c]` of rendered items.
pub open spec fn list_text(items: Seq<Seq<char>>) -> Seq<char> {
    "["@ + joined(items, ", "@) + "]"@
}

/// A list of texts, each quoted.
pub open spec fn quoted_list(items: Seq<Seq<char>>) -> Seq<char> {
    list_text(items.map_values(|text: Seq<char>| quoted(text)))
}

/// A plugin option, rendered field by field.
pub open spec fn plugin_text(plugin: WorkflowPluginOption) -> Seq<char> {
    "WorkflowPluginOption { name: "@ + quoted(plugin.name@) + ", root: "@ + quoted(plugin.root@)
        + ", workflows: "@ + quoted_list(texts(plugin.workflows@)) + " }"@
}

pub open spec fn reviewer_text(reviewer: ApprovalsReviewer) -> Seq<char> {
    match reviewer {
        ApprovalsReviewer::User => "User"@,
        ApprovalsReviewer::AutoReview => "AutoReview"@,
    }
}

pub open spec fn optional_text(value: Option<Seq<char>>) -> Seq<char> {
    match value {
        Some(text) => "Some("@ + text + ")"@,
        None => "None"@,
    }
}

pub open spec fn bool_text(value: bool) -> Seq<char> {
    if value {
        "true"@
    } else {
        "false"@
    }
}

/// The text whose digest stands for an authority: its terms, the plugins and whether the web can
/// be searched, separated by `|`.
pub open spec fn authority_material(
    terms: AuthorityTerms,
    plugins: Seq<WorkflowPluginOption>,
    web_search_available: bool,
) -> Seq<char> {
    joined(authority_parts(terms, plugins, web_search_available), "|"@)
}

/// What the text of an authority is made of.
pub open spec fn authority_parts(
    terms: AuthorityTerms,
    plugins: Seq<WorkflowPluginOption>,
    web_search_available: bool,
) -> Seq<Seq<char>> {
    seq![
        terms.approval_policy,
        reviewer_text(terms.approvals_reviewer),
        terms.permission_profile,
        optional_text(terms.active_permission_profile),
        terms.environments,
        quoted_list(terms.workspace_roots),
        quoted_list(terms.profile_workspace_roots),
        quoted(path_text(terms.cwd)),
        list_text(plugins.map_values(|plugin: WorkflowPluginOption| plugin_text(plugin))),
        bool_text(web_search_available),
    ]
}

fn render_list(items: &Vec<String>) -> (res: String)
    ensures
        res@ == list_text(texts(items@)),
{
    plus3("[", join(items, ", ").as_str(), "]")
}

fn render_quoted_list(items: &Vec<String>) -> (res: String)
    ensures
        res@ == quoted_list(texts(items@)),
{
    let mut out: Vec<String> = Vec::new();
    let mut i: usize = 0;
    while i < items.len()
        invariant
            i <= items@.len(),
            out@.len() == i,
            forall|j: int| 0 <= j < i ==> (#[trigger] out@[j])@ == quoted(items@[j]@),
        decreases items@.len() - i,
    {
        out.push(debug_text(items[i].as_str()));
        i = i + 1;
    }
    assert(texts(out@) =~= texts(items@).map_values(|text: Seq<char>| quoted(text)));
    render_list(&out)
}

fn render_plugin(plugin: &WorkflowPluginOption) -> (res: String)
    ensures
        res@ == plugin_text(*plugin),
{
    let mut out = plus3(
        "WorkflowPluginOption { name: ",
        debug_text(plugin.name.as_str()).as_str(),
        ", root: ",
    );
    out.append(debug_text(plugin.root.as_str()).as_str());
    out.append(", workflows: ");
    out.append(render_quoted_list(&plugin.workflows).as_str());
    out.append(" }");
    out
}

fn render_plugins(plugins: &Vec<WorkflowPluginOption>) -> (res: String)
    ensures
        res@ == list_text(
            plugins@.map_values(|plugin: WorkflowPluginOption| plugin_text(plugin)),
        ),
{
    let mut out: Vec<String> = Vec::new();
    let mut i: usize = 0;
    while i < plugins.len()
        invariant
            i <= plugins@.len(),
            out@.len() == i,
            forall|j: int| 0 <= j < i ==> (#[trigger] out@[j])@ == plugin_text(plugins@[j]),
        decreases plugins@.len() - i,
    {
        out.push(render_plugin(&plugins[i]));
        i = i + 1;
    }
    assert(texts(out@) =~= plugins@.map_values(
        |plugin: WorkflowPluginOption| plugin_text(plugin),
    ));
    render_list(&out)
}

/// The digest of an authority.
pub fn workflow_authority_digest(
    snapshot: &ThreadConfigSnapshot,
    plugins: &Vec<WorkflowPluginOption>,
    web_search_available: bool,
) -> (res: String)
    ensures
        res@ == text_digest(
            authority_material(snapshot.terms(), plugins@, web_search_available),
        ),
{
    let mut parts: Vec<String> = Vec::new();
    parts.push(snapshot.approval_policy.clone());
    parts.push(
        match snapshot.approvals_reviewer {
            ApprovalsReviewer::User => "User".to_owned(),
            ApprovalsReviewer::AutoReview => "AutoReview".to_owned(),
        },
    );
    parts.push(snapshot.permission_profile.clone());
    parts.push(
        match &snapshot.active_permission_profile {
            Some(profile) => plus3("Some(", profile.as_str(), ")"),
            None => "None".to_owned(),
        },
    );
    parts.push(snapshot.environments.clone());
    parts.push(render_quoted_list(&snapshot.workspace_roots));
    parts.push(render_quoted_list(&snapshot.profile_workspace_roots));
    parts.push(debug_text(snapshot.cwd.text().as_str()));
    parts.push(render_plugins(plugins));
    parts.push(
        if web_search_available {
            "true".to_owned()
        } else {
            "false".to_owned()
        },
    );
    let ghost terms = snapshot.terms();
    assert(texts(parts@) =~= seq![
        terms.approval_policy,
        reviewer_text(terms.approvals_reviewer),
        terms.permission_profile,
        optional_text(terms.active_permission_profile),
        terms.environments,
        quoted_list(terms.workspace_roots),
        quoted_list(terms.profile_workspace_roots),
        quoted(path_text(terms.cwd)),
        list_text(plugins@.map_values(|plugin: WorkflowPluginOption| plugin_text(plugin))),
        bool_text(web_search_available),
    ]);
    digest_text(join(&parts, "|").as_str())
}

/// An authority that was captured for workflow requests.
#[derive(Debug)]
pub struct WorkflowAuthority {
    pub parent_thread_id: ThreadId,
    pub generation: u64,
    pub snapshot: ThreadConfigSnapshot,
    pub digest: String,
    pub allow_isolated_workspaces: bool,
    pub codex_home: AbsolutePath,
}

/// A plugin and where it is installed.
#[derive(Debug)]
pub struct PluginRoot {
    pub name: String,
    pub root: String,
}

/// Whether an option offers the plugin's own workflow directory.
pub open spec fn offers(option: WorkflowPluginOption, plugin: PluginRoot) -> bool {
    option.name@ == plugin.name@ && option.root@ == plugin.root@ && texts(option.workflows@)
        == seq!["workflows"@]
}

/// The plugins whose names are usable, in their order.
pub open spec fn usable(plugins: Seq<PluginRoot>) -> Seq<PluginRoot>
    decreases plugins.len(),
{
    if plugins.len() == 0 {
        Seq::empty()
    } else if is_plugin_name(plugins.last().name@) {
        usable(plugins.drop_last()).push(plugins.last())
    } else {
        usable(plugins.drop_last())
    }
}

/// The workflow directories of the plugins with usable names, in their order.
pub fn workflow_plugins(plugins: &Vec<PluginRoot>) -> (res: Vec<WorkflowPluginOption>)
    ensures
        res@.len() == usable(plugins@).len(),
        forall|i: int| 0 <= i < res@.len() ==> offers(#[trigger] res@[i], usable(plugins@)[i]),
{
    let mut out: Vec<WorkflowPluginOption> = Vec::new();
    let mut i: usize = 0;
    while i < plugins.len()
        invariant
            i <= plugins@.len(),
            out@.len() == usable(plugins@.take(i as int)).len(),
            forall|j: int|
                0 <= j < out@.len() ==> offers(
                    #[trigger] out@[j],
                    usable(plugins@.take(i as int))[j],
                ),
        decreases plugins@.len() - i,
    {
        let ghost before = out@;
        assert(plugins@.take(i + 1).drop_last() =~= plugins@.take(i as int));
        if plugin_name(plugins[i].name.as_str()) {
            let mut workflows: Vec<String> = Vec::new();
            workflows.push("workflows".to_owned());
            assert(texts(workflows@) =~= seq!["workflows"@]);
            let option = WorkflowPluginOption {
                name: plugins[i].name.clone(),
                root: plugins[i].root.clone(),
                workflows,
            };
            out.push(option);
            assert forall|j: int| 0 <= j < out@.len() implies offers(
                #[trigger] out@[j],
                usable(plugins@.take(i + 1))[j],
            ) by {
                if j < before.len() {
                    assert(out@[j] == before[j]);
                }
            }
        }
        i = i + 1;
    }
    assert(plugins@.take(plugins@.len() as int) =~= plugins@);
    out
}

/// The MCP server that can carry the workflow listener.
#[derive(Debug)]
pub struct TaskServer {
    pub enabled: bool,
    /// The address of a streamable HTTP transport; other transports have none.
    pub http_url: Option<String>,
}

/// The address of the workflow listener that a server carries.
pub open spec fn listener(server: Option<TaskServer>) -> Option<Seq<char>> {
    match server {
        Some(server) => if server.enabled {
            option_text(server.http_url)
        } else {
            None
        },
        None => None,
    }
}

/// The workflow listener: the address of an enabled server with an HTTP transport.
pub fn workflow_host_url(server: &Option<TaskServer>) -> (res: Option<String>)
    ensures
        option_text(res) == listener(*server),
{
    match server {
        Some(server) => if server.enabled {
            server.http_url.clone()
        } else {
            None
        },
        None => None,
    }
}

/// What the capture of an authority gathers from the parent.
#[derive(Debug)]
pub struct AuthorityCapture {
    pub parent_thread_id: ThreadId,
    pub snapshot: ThreadConfigSnapshot,
    pub codex_home: AbsolutePath,
    pub plugins: Vec<PluginRoot>,
    pub web_search_available: bool,
    pub models: Vec<WorkflowModelOption>,
    pub task_server: Option<TaskServer>,
    pub allow_isolated_workspaces: bool,
}

/// Whether an authority was registered under a reference, and described so.
pub open spec fn is_captured(
    before: Map<Seq<char>, WorkflowAuthority>,
    authority_ref: Seq<char>,
    capture: AuthorityCapture,
    res: WorkflowAuthorityCaptureResponse,
    after: Map<Seq<char>, WorkflowAuthority>,
) -> bool {
    &&& after.dom() == before.dom().insert(authority_ref)
    &&& forall|key: Seq<char>|
        key != authority_ref && #[trigger] before.dom().contains(key)
            ==> after[key] == before[key]
    &&& after[authority_ref].parent_thread_id == capture.parent_thread_id
    &&& after[authority_ref].generation == 1
    &&& after[authority_ref].snapshot == capture.snapshot
    &&& after[authority_ref].digest@ == res.authority_digest@
    &&& after[authority_ref].allow_isolated_workspaces
        == capture.allow_isolated_workspaces
    &&& after[authority_ref].codex_home == capture.codex_home
    &&& res.authority_ref@ == authority_ref
    &&& res.generation == 1
    &&& res.authority_digest@ == text_digest(
        authority_material(capture.snapshot.terms(), res.plugins@, capture.web_search_available),
    )
    &&& res.cwd@ == path_text(capture.snapshot.cwd@)
    &&& res.parent_model@ == capture.snapshot.model@
    &&& option_text(res.parent_effort) == option_text(capture.snapshot.reasoning_effort)
    &&& res.models == capture.models
    &&& res.plugins@.len() == usable(capture.plugins@).len()
    &&& forall|i: int|
        0 <= i < res.plugins@.len() ==> offers(
            #[trigger] res.plugins@[i],
            usable(capture.plugins@)[i],
        )
    &&& res.web_search_available == capture.web_search_available
    &&& option_text(res.workflow_host_url) == listener(capture.task_server)
}

/// Registers the parent's authority under a fresh reference and describes it.
pub fn workflow_authority_capture(
    authorities: &mut Registry<WorkflowAuthority>,
    authority_ref: String,
    capture: AuthorityCapture,
) -> (res: WorkflowAuthorityCaptureResponse)
    requires
        old(authorities).well_formed(),
    ensures
        final(authorities).well_formed(),
        is_captured(
            old(authorities).map(),
            authority_ref@,
            capture,
            res,
            final(authorities).map(),
        ),
{
    let plugins = workflow_plugins(&capture.plugins);
    let authority_digest = workflow_authority_digest(
        &capture.snapshot,
        &plugins,
        capture.web_search_available,
    );
    let response = WorkflowAuthorityCaptureResponse {
        authority_ref: authority_ref.clone(),
        generation: 1,
        authority_digest: authority_digest.clone(),
        cwd: capture.snapshot.cwd.text(),
        parent_model: capture.snapshot.model.clone(),
        parent_effort: capture.snapshot.reasoning_effort.clone(),
        models: capture.models,
        plugins,
        web_search_available: capture.web_search_available,
        workflow_host_url: workflow_host_url(&capture.task_server),
    };
    authorities.insert(
        authority_ref,
        WorkflowAuthority {
            parent_thread_id: capture.parent_thread_id,
            generation: 1,
            snapshot: capture.snapshot,
            digest: authority_digest,
            allow_isolated_workspaces: capture.allow_isolated_workspaces,
            codex_home: capture.codex_home,
        },
    );
    assert(authorities.map().dom() =~= old(authorities).map().dom().insert(authority_ref@));
    response
}

/// Why a request on workflow files is refused.
pub open spec fn file_authority_refusal(
    authorities: Map<Seq<char>, WorkflowAuthority>,
    parent_thread_id: ThreadId,
    authority_ref: Seq<char>,
    authority_digest: Seq<char>,
    current: ThreadConfigSnapshot,
) -> Option<Seq<char>> {
    if !authorities.dom().contains(authority_ref) {
        Some("unknown workflow authority"@)
    } else {
        let authority = authorities[authority_ref];
        if authority.parent_thread_id != parent_thread_id || authority.digest@ != authority_digest {
            Some("workflow authority does not match parent"@)
        } else if authority.snapshot.terms() != current.terms() {
            Some("workflow authority is stale"@)
        } else {
            None
        }
    }
}

/// The authority under which workflow files may be read and written for a parent.
pub fn workflow_file_authority<'a>(
    authorities: &'a Registry<WorkflowAuthority>,
    parent_thread_id: ThreadId,
    authority_ref: &str,
    authority_digest: &str,
    current: &ThreadConfigSnapshot,
) -> (res: Result<&'a WorkflowAuthority, RpcError>)
    requires
        authorities.well_formed(),
    ensures
        refused_by(
            res,
            file_authority_refusal(
                authorities.map(),
                parent_thread_id,
                authority_ref@,
                authority_digest@,
                *current,
            ),
        ),
        res matches Ok(authority) ==> *authority == authorities.map()[authority_ref@],
{
    match authorities.get(authority_ref) {
        None => Err(invalid_request("unknown workflow authority")),
        Some(authority) => {
            if authority.parent_thread_id != parent_thread_id || !same(
                authority.digest.as_str(),
                authority_digest,
            ) {
                Err(invalid_request("workflow authority does not match parent"))
            } else if !workflow_authority_matches(&authority.snapshot, current) {
                Err(invalid_request("workflow authority is stale"))
            } else {
                Ok(authority)
            }
        },
    }
}

/// A captured authority is accepted for its own parent, under its reference and digest, as long as the
/// parent's terms are what they were; no other parent, digest or later terms are accepted. What was
/// registered before stays as it was.
pub proof fn captured_authority_is_accepted(
    before: Map<Seq<char>, WorkflowAuthority>,
    authority_ref: Seq<char>,
    capture: AuthorityCapture,
    res: WorkflowAuthorityCaptureResponse,
    after: Map<Seq<char>, WorkflowAuthority>,
    parent: ThreadId,
    digest: Seq<char>,
    current: ThreadConfigSnapshot,
)
    requires
        is_captured(before, authority_ref, capture, res, after),
    ensures
        file_authority_refusal(after, parent, res.authority_ref@, digest, current) is None <==> parent
            == capture.parent_thread_id && digest == res.authority_digest@ && current.terms()
            == capture.snapshot.terms(),
        after[authority_ref].generation == res.generation,
        after[authority_ref].allow_isolated_workspaces == capture.allow_isolated_workspaces,
        after[authority_ref].codex_home == capture.codex_home,
        res.authority_digest@ == text_digest(
            authority_material(
                capture.snapshot.terms(),
                res.plugins@,
                capture.web_search_available,
            ),
        ),
        res.cwd@ == path_text(capture.snapshot.cwd@),
        res.parent_model@ == capture.snapshot.model@,
        option_text(res.parent_effort) == option_text(capture.snapshot.reasoning_effort),
        res.models == capture.models,
        res.web_search_available == capture.web_search_available,
        res.workflow_host_url is Some <==> capture.task_server is Some
            && capture.task_server->Some_0.enabled && capture.task_server->Some_0.http_url is Some,
        res.workflow_host_url matches Some(url) ==> url@
            == capture.task_server->Some_0.http_url->Some_0@,
        forall|i: int|
            0 <= i < res.plugins@.len() ==> {
                let plugin = #[trigger] res.plugins@[i];
                let own = usable(capture.plugins@)[i];
                &&& plugin.name@ == own.name@
                &&& plugin.root@ == own.root@
                &&& texts(plugin.workflows@) == seq!["workflows"@]
            },
        res.plugins@.len() == usable(capture.plugins@).len(),
        forall|other: Seq<char>|
            other != authority_ref && #[trigger] before.dom().contains(other) ==> after.dom().contains(
                other,
            ) && after[other] == before[other],
{
}

/// Exactly the plugins whose names are usable are offered, in their order.
pub proof fn usable_plugins_are_offered(plugins: Seq<PluginRoot>)
    ensures
        usable(plugins) == plugins.filter(|plugin: PluginRoot| is_plugin_name(plugin.name@)),
    decreases plugins.len(),
{
    reveal(Seq::filter);
    if plugins.len() > 0 {
        usable_plugins_are_offered(plugins.drop_last());
    }
}

/// Every single term counts in what the digest is taken of, and so do the plugins and whether the web
/// can be searched.
pub proof fn every_term_counts_in_the_digest(
    terms: AuthorityTerms,
    changed: AuthorityTerms,
    plugins: Seq<WorkflowPluginOption>,
    other_plugins: Seq<WorkflowPluginOption>,
    web: bool,
)
    ensures
        ({
            let text = authority_material(terms, plugins, web);
            let shown = |plugins: Seq<WorkflowPluginOption>|
                list_text(plugins.map_values(|plugin: WorkflowPluginOption| plugin_text(plugin)));
            &&& changed.approval_policy != terms.approval_policy ==> authority_material(
                AuthorityTerms { approval_policy: changed.approval_policy, ..terms },
                plugins,
                web,
            ) != text
            &&& changed.approvals_reviewer != terms.approvals_reviewer ==> authority_material(
                AuthorityTerms { approvals_reviewer: changed.approvals_reviewer, ..terms },
                plugins,
                web,
            ) != text
            &&& changed.permission_profile != terms.permission_profile ==> authority_material(
                AuthorityTerms { permission_profile: changed.permission_profile, ..terms },
                plugins,
                web,
            ) != text
            &&& changed.active_permission_profile != terms.active_permission_profile
                ==> authority_material(
                AuthorityTerms {
                    active_permission_profile: changed.active_permission_profile,
                    ..terms
                },
                plugins,
                web,
            ) != text
            &&& changed.environments != terms.environments ==> authority_material(
                AuthorityTerms { environments: changed.environments, ..terms },
                plugins,
                web,
            ) != text
            &&& quoted_list(changed.workspace_roots) != quoted_list(terms.workspace_roots)
                ==> authority_material(
                AuthorityTerms { workspace_roots: changed.workspace_roots, ..terms },
                plugins,
                web,
            ) != text
            &&& quoted_list(changed.profile_workspace_roots) != quoted_list(
                terms.profile_workspace_roots,
            ) ==> authority_material(
                AuthorityTerms {
                    profile_workspace_roots: changed.profile_workspace_roots,
                    ..terms
                },
                plugins,
                web,
            ) != text
            &&& quoted(path_text(changed.cwd)) != quoted(path_text(terms.cwd))
                ==> authority_material(
                AuthorityTerms { cwd: changed.cwd, ..terms },
                plugins,
                web,
            ) != text
            &&& shown(other_plugins) != shown(plugins) ==> authority_material(
                terms,
                other_plugins,
                web,
            ) != text
            &&& authority_material(terms, plugins, !web) != text
        }),
{
    reveal_strlit("User");
    reveal_strlit("AutoReview");
    reveal_strlit("true");
    reveal_strlit("false");
    reveal_strlit("None");
    reveal_strlit("Some(");
    reveal_strlit(")");
    let parts = authority_parts(terms, plugins, web);
    assert("User"@.len() != "AutoReview"@.len());
    assert("true"@.len() != "false"@.len());
    let a = terms.active_permission_profile;
    let b = changed.active_permission_profile;
    if a != b {
        assert(optional_text(a) != optional_text(b)) by {
            if a is Some && b is Some {
                let one = optional_text(a);
                let two = optional_text(b);
                if one == two {
                    assert(a->Some_0 =~= one.subrange(5, one.len() - 1));
                    assert(b->Some_0 =~= two.subrange(5, two.len() - 1));
                }
            } else if a is Some {
                assert(optional_text(a)[0] == 'S');
                assert("None"@[0] == 'N');
            } else {
                assert(optional_text(b)[0] == 'S');
                assert("None"@[0] == 'N');
            }
        }
    }
    if changed.approval_policy != terms.approval_policy {
        joined_tells_one_change(
            authority_parts(
                AuthorityTerms { approval_policy: changed.approval_policy, ..terms },
                plugins,
                web,
            ),
            parts,
            "|"@,
            0,
        );
    }
    if changed.approvals_reviewer != terms.approvals_reviewer {
        joined_tells_one_change(
            authority_parts(
                AuthorityTerms { approvals_reviewer: changed.approvals_reviewer, ..terms },
                plugins,
                web,
            ),
            parts,
            "|"@,
            1,
        );
    }
    if changed.permission_profile != terms.permission_profile {
        joined_tells_one_change(
            authority_parts(
                AuthorityTerms { permission_profile: changed.permission_profile, ..terms },
                plugins,
                web,
            ),
            parts,
            "|"@,
            2,
        );
    }
    if a != b {
        joined_tells_one_change(
            authority_parts(
                AuthorityTerms { active_permission_profile: b, ..terms },
                plugins,
                web,
            ),
            parts,
            "|"@,
            3,
        );
    }
    if changed.environments != terms.environments {
        joined_tells_one_change(
            authority_parts(
                AuthorityTerms { environments: changed.environments, ..terms },
                plugins,
                web,
            ),
            parts,
            "|"@,
            4,
        );
    }
    if quoted_list(changed.workspace_roots) != quoted_list(terms.workspace_roots) {
        joined_tells_one_change(
            authority_parts(
                AuthorityTerms { workspace_roots: changed.workspace_roots, ..terms },
                plugins,
                web,
            ),
            parts,
            "|"@,
            5,
        );
    }
    if quoted_list(changed.profile_workspace_roots) != quoted_list(terms.profile_workspace_roots) {
        joined_tells_one_change(
            authority_parts(
                AuthorityTerms {
                    profile_workspace_roots: changed.profile_workspace_roots,
                    ..terms
                },
                plugins,
                web,
            ),
            parts,
            "|"@,
            6,
        );
    }
    if quoted(path_text(changed.cwd)) != quoted(path_text(terms.cwd)) {
        joined_tells_one_change(
            authority_parts(AuthorityTerms { cwd: changed.cwd, ..terms }, plugins, web),
            parts,
            "|"@,
            7,
        );
    }
    let own = authority_parts(terms, plugins, web)[8];
    let other = authority_parts(terms, other_plugins, web)[8];
    if own != other {
        joined_tells_one_change(authority_parts(terms, other_plugins, web), parts, "|"@, 8);
    }
    joined_tells_one_change(authority_parts(terms, plugins, !web), parts, "|"@, 9);
}

/// An authority is meant by its own reference, and by that of no other parent and no other generation.
pub proof fn reference_is_for_one_authority(
    parent: ThreadId,
    generation: u64,
    other: ThreadId,
    other_generation: u64,
)
    ensures
        speaks_of(parent, generation, parent, generation),
        parent != other ==> !speaks_of(parent, generation, other, other_generation),
        generation != other_generation ==> !speaks_of(parent, generation, other, other_generation),
{
}

/// Nobody listens at a server that is disabled, or that has no address; else it is heard at the address
/// that is configured.
pub proof fn disabled_server_does_not_listen(server: TaskServer)
    ensures
        listener(None) is None,
        !server.enabled ==> listener(Some(server)) is None,
        server.http_url is None ==> listener(Some(server)) is None,
        server.enabled && server.http_url is Some ==> listener(Some(server)) == Some(
            server.http_url->Some_0@,
        ),
{
}

} // verus!
