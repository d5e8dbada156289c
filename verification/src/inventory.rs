//! The tools that a worker is left with.
use crate::digest::text_digest;
use crate::registry::Registry;
use crate::text::{plus, same, texts};
use crate::worker::{role_material, workflow_role_digest, RoleSettings};
use vstd::prelude::*;
use vstd::string::*;

verus! {

/// A server of tools.
#[derive(Debug)]
pub struct ToolServer {
    /// How it is reached and what else is set for it.
    pub settings: String,
    pub disabled_tools: Option<Vec<String>>,
}

/// What decides on the tools of a thread.
pub struct WorkerTools {
    /// Whether the server that the workflow plugin brings is left out.
    pub exclude_ultracode_plugin_mcp: bool,
    /// Whether agents may work together.
    pub collab: bool,
    /// Whether an agent may start others.
    pub multi_agent_v2: bool,
    pub servers: Registry<ToolServer>,
}

/// Hides the workflow tool from a worker: the disabled tools with `workflow` among them.
pub open spec fn without_workflow_tool(disabled: Seq<Seq<char>>) -> Seq<Seq<char>> {
    if disabled.contains("workflow"@) {
        disabled
    } else {
        disabled.push("workflow"@)
    }
}

/// The disabled tools of the task server, once the worker's role was applied.
pub fn disable_workflow_tool(disabled: Vec<String>) -> (res: Vec<String>)
    ensures
        texts(res@) == without_workflow_tool(texts(disabled@)),
{
    let mut out = disabled;
    let mut i: usize = 0;
    while i < out.len()
        invariant
            out == disabled,
            i <= out@.len(),
            forall|j: int| 0 <= j < i ==> (#[trigger] out@[j])@ != "workflow"@,
        decreases out@.len() - i,
    {
        if same(out[i].as_str(), "workflow") {
            assert(texts(disabled@)[i as int] == "workflow"@);
            return out;
        }
        i = i + 1;
    }
    assert forall|j: int| 0 <= j < texts(disabled@).len() implies texts(disabled@)[j]
        != "workflow"@ by {
        assert(disabled@[j]@ != "workflow"@);
    }
    out.push("workflow".to_owned());
    assert(texts(out@) =~= texts(disabled@).push("workflow"@));
    out
}

/// The tools that a server does not offer.
pub open spec fn disabled_of(server: ToolServer) -> Seq<Seq<char>> {
    match server.disabled_tools {
        Some(disabled) => texts(disabled@),
        None => Seq::empty(),
    }
}

/// Whether a server is the task server with the workflow tool hidden and nothing else changed.
pub open spec fn hides_workflow(after: ToolServer, before: ToolServer) -> bool {
    &&& after.settings@ == before.settings@
    &&& after.disabled_tools is Some
    &&& disabled_of(after) == without_workflow_tool(disabled_of(before))
}

/// Whether tools are those of a worker: no workflow server, no other agents, and the task server
/// without its workflow tool. Every other server is as it was.
pub open spec fn is_restricted(after: WorkerTools, before: WorkerTools) -> bool {
    let old_servers = before.servers.map();
    let servers = after.servers.map();
    &&& after.exclude_ultracode_plugin_mcp
    &&& !after.collab
    &&& !after.multi_agent_v2
    &&& servers.dom() == old_servers.dom().remove("ultracode"@)
    &&& servers.dom().contains("codex_tui"@) ==> hides_workflow(
        servers["codex_tui"@],
        old_servers["codex_tui"@],
    )
    &&& forall|name: Seq<char>|
        name != "codex_tui"@ && servers.dom().contains(name) ==> #[trigger] servers[name]
            == old_servers[name]
}

/// Takes from a worker what would let it launch workflows or other agents.
pub fn restrict_worker_tools(tools: &mut WorkerTools)
    requires
        old(tools).servers.well_formed(),
    ensures
        final(tools).servers.well_formed(),
        is_restricted(*final(tools), *old(tools)),
{
    tools.exclude_ultracode_plugin_mcp = true;
    tools.collab = false;
    tools.multi_agent_v2 = false;
    proof {
        reveal_strlit("ultracode");
        reveal_strlit("codex_tui");
        assert("ultracode"@[0] != "codex_tui"@[0]);
    }
    let _ = tools.servers.remove("ultracode");
    match tools.servers.remove("codex_tui") {
        Some(server) => {
            let disabled = match server.disabled_tools {
                Some(disabled) => disabled,
                None => Vec::new(),
            };
            assert(texts(disabled@) =~= disabled_of(server));
            let server = ToolServer {
                settings: server.settings,
                disabled_tools: Some(disable_workflow_tool(disabled)),
            };
            tools.servers.insert("codex_tui".to_owned(), server);
        },
        None => {},
    }
    assert(tools.servers.map().dom() =~= old(tools).servers.map().dom().remove("ultracode"@));
}

/// Whether this is the digest of a role whose settings were stored, or why it has none.
pub open spec fn is_role_stored(
    stored: Result<RoleSettings, String>,
    res: Result<String, String>,
) -> bool {
    match stored {
        Ok(settings) => res matches Ok(digest) && digest@ == text_digest(role_material(settings)),
        Err(message) => res matches Err(error) && error@ == "workflow MCP policy is invalid: "@
            + message@,
    }
}

/// The digest of a role once its settings were stored, or why they could not be.
pub fn role_result(stored: &Result<RoleSettings, String>) -> (res: Result<String, String>)
    ensures
        is_role_stored(*stored, res),
{
    match stored {
        Ok(settings) => Ok(workflow_role_digest(settings)),
        Err(message) => Err(plus("workflow MCP policy is invalid: ", message.as_str())),
    }
}

/// Whether nothing tells two servers apart.
pub open spec fn same_server(a: ToolServer, b: ToolServer) -> bool {
    a.settings@ == b.settings@ && disabled_of(a) == disabled_of(b)
}

/// A worker's tools never let it launch a workflow: it has neither of the servers that the workflow
/// plugin and the configuration would bring, and the task server hides its workflow tool.
pub proof fn worker_cannot_launch_workflows(before: WorkerTools, after: WorkerTools)
    requires
        is_restricted(after, before),
    ensures
        after.exclude_ultracode_plugin_mcp && !after.collab && !after.multi_agent_v2,
        !after.servers.map().dom().contains("ultracode"@),
        after.servers.map().dom().contains("codex_tui"@) ==> disabled_of(
            after.servers.map()["codex_tui"@],
        ).contains("workflow"@),
{
    if after.servers.map().dom().contains("codex_tui"@) {
        let disabled = disabled_of(before.servers.map()["codex_tui"@]);
        if !disabled.contains("workflow"@) {
            assert(disabled.push("workflow"@)[disabled.len() as int] == "workflow"@);
        }
    }
}

/// Restricting tools again changes nothing.
pub proof fn restricting_twice_changes_nothing(
    before: WorkerTools,
    once: WorkerTools,
    twice: WorkerTools,
)
    requires
        is_restricted(once, before),
        is_restricted(twice, once),
    ensures
        twice.exclude_ultracode_plugin_mcp == once.exclude_ultracode_plugin_mcp,
        twice.collab == once.collab,
        twice.multi_agent_v2 == once.multi_agent_v2,
        twice.servers.map().dom() == once.servers.map().dom(),
        forall|name: Seq<char>| #[trigger]
            once.servers.map().dom().contains(name) ==> same_server(
                twice.servers.map()[name],
                once.servers.map()[name],
            ),
{
    worker_cannot_launch_workflows(before, once);
    assert(twice.servers.map().dom() =~= once.servers.map().dom());
}

/// A worker keeps every other tool: each server but that of workflows, with its settings, and of the
/// task server every tool but the one that launches workflows.
pub proof fn worker_keeps_other_tools(before: WorkerTools, after: WorkerTools, name: Seq<char>)
    requires
        is_restricted(after, before),
        before.servers.map().dom().contains(name),
        name != "ultracode"@,
    ensures
        after.servers.map().dom().contains(name),
        after.servers.map()[name].settings@ == before.servers.map()[name].settings@,
        name != "codex_tui"@ ==> after.servers.map()[name] == before.servers.map()[name],
        forall|tool: Seq<char>|
            tool != "workflow"@ ==> (#[trigger] disabled_of(after.servers.map()[name]).contains(tool)
                <==> disabled_of(before.servers.map()[name]).contains(tool)),
{
    if name == "codex_tui"@ {
        let old_tools = disabled_of(before.servers.map()[name]);
        let tools = disabled_of(after.servers.map()[name]);
        assert forall|tool: Seq<char>| tool != "workflow"@ implies (#[trigger] tools.contains(tool)
            <==> old_tools.contains(tool)) by {
            if old_tools.contains(tool) && !old_tools.contains("workflow"@) {
                let i = choose|i: int| 0 <= i < old_tools.len() && old_tools[i] == tool;
                assert(old_tools.push("workflow"@)[i] == tool);
            }
            if tools.contains(tool) && !old_tools.contains("workflow"@) {
                let i = choose|i: int| 0 <= i < tools.len() && tools[i] == tool;
                assert(i < old_tools.len());
                assert(old_tools[i] == tool);
            }
        }
    }
}

/// A role that could not be stored has no digest, and one that was stored has the one of its settings.
pub proof fn unstored_role_has_no_digest(
    stored: Result<RoleSettings, String>,
    res: Result<String, String>,
)
    requires
        is_role_stored(stored, res),
    ensures
        stored is Ok <==> res is Ok,
        stored matches Ok(settings) ==> res->Ok_0@ == text_digest(role_material(settings)),
        stored matches Err(message) ==> message@.is_suffix_of(res->Err_0@),
{
    if stored is Err {
        let start = "workflow MCP policy is invalid: "@;
        let message = stored->Err_0@;
        assert((start + message).subrange(start.len() as int, (start + message).len() as int)
            =~= message);
    }
}

} // verus!
