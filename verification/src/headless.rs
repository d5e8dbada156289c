//! Running workflows without a user: when such a run may start, and when it is over.
use crate::json::{as_items, get, member_is, member_text, tree, Json};
use crate::registry::Registry;
use crate::text::{is_text, option_text, same_option};
use vstd::prelude::*;

verus! {

/// Whether a member is a list with something in it.
pub open spec fn is_nonempty_list(state: Json, key: Seq<char>) -> bool {
    state.member(key) matches Some(value) && (value.items() matches Some(items) && items.len() > 0)
}

/// Whether a member is a list with nothing in it.
pub open spec fn is_empty_list(state: Json, key: Seq<char>) -> bool {
    state.member(key) matches Some(value) && (value.items() matches Some(items) && items.len() == 0)
}

/// Whether the parent's work is over: no worker runs, no completion waits to be delivered or to be
/// stored, and the turn that the caller saw completed is the last one.
pub open spec fn is_over(state: Json, completed_turn: Option<Seq<char>>) -> bool {
    &&& state.member_is("active"@, false)
    &&& state.member_is("completionPending"@, false)
    &&& is_empty_list(state, "pendingCompletionTurnIds"@)
    &&& state.member_text("turnStatus"@) != Some("inProgress"@)
    &&& completed_turn is Some
    &&& state.member_text("turnId"@) == completed_turn
}

fn list_length(state: &serde_json::Value, key: &str) -> (res: Option<usize>)
    ensures
        res matches Some(n) ==> (n > 0 <==> is_nonempty_list(tree(*state), key@)),
        res matches Some(n) ==> (n == 0 <==> is_empty_list(tree(*state), key@)),
        res is None ==> !is_nonempty_list(tree(*state), key@) && !is_empty_list(
            tree(*state),
            key@,
        ),
{
    match get(state, key) {
        Some(value) => match as_items(value) {
            Some(items) => Some(items.len()),
            None => None,
        },
        None => None,
    }
}

/// Whether a headless run may exit. A completion whose delivery is unresolved is an error.
pub fn finished(state: &serde_json::Value, completed_turn_id: Option<&str>) -> (res: Result<
    bool,
    String,
>)
    ensures
        if is_nonempty_list(tree(*state), "unresolved"@) {
            res matches Err(message) && message@
                == "native workflow completion acknowledgement is unresolved"@
        } else {
            res matches Ok(over) && over == is_over(
                tree(*state),
                match completed_turn_id {
                    Some(id) => Some(id@),
                    None => None,
                },
            )
        },
{
    match list_length(state, "unresolved") {
        Some(n) => {
            if n > 0 {
                return Err(
                    "native workflow completion acknowledgement is unresolved".to_owned(),
                );
            }
        },
        None => {},
    }
    let nothing_pending = match list_length(state, "pendingCompletionTurnIds") {
        Some(n) => n == 0,
        None => false,
    };
    let last_turn = match completed_turn_id {
        Some(id) => is_text(&member_text(state, "turnId"), id),
        None => false,
    };
    Ok(
        member_is(state, "active", false) && member_is(state, "completionPending", false)
            && nothing_pending && !is_text(&member_text(state, "turnStatus"), "inProgress")
            && last_turn,
    )
}

/// How the configuration is loaded.
#[derive(Debug)]
pub struct LoaderOverrides {
    pub ignore_user_config: bool,
    pub ignore_user_and_project_exec_policy_rules: bool,
    pub user_config_profile: Option<String>,
    pub user_config_path: Option<String>,
}

/// Why a loader selection cannot be kept. `expected_path` is the file of the selected profile.
pub open spec fn loader_refusal(
    overrides: LoaderOverrides,
    expected_path: Option<Seq<char>>,
) -> Option<Seq<char>> {
    if overrides.ignore_user_config || overrides.ignore_user_and_project_exec_policy_rules {
        Some("native workflows cannot discard user configuration or exec policy rules"@)
    } else if option_text(overrides.user_config_path) != expected_path {
        Some("native workflows require a named user configuration profile"@)
    } else {
        None
    }
}

/// Keeps the selected profile in the configuration with which a thread is started; without one the
/// entry is null.
pub fn apply_loader_overrides(
    config: &mut Registry<Option<String>>,
    overrides: &LoaderOverrides,
    expected_path: &Option<String>,
) -> (res: Result<(), String>)
    requires
        old(config).well_formed(),
    ensures
        final(config).well_formed(),
        match loader_refusal(*overrides, option_text(*expected_path)) {
            Some(message) => res matches Err(text) && text@ == message && final(config).map() == old(config).map(),
            None => res is Ok && final(config).map() == old(config).map().insert(
                "user_config_profile"@,
                overrides.user_config_profile,
            ),
        },
{
    if overrides.ignore_user_config || overrides.ignore_user_and_project_exec_policy_rules {
        return Err(
            "native workflows cannot discard user configuration or exec policy rules".to_owned(),
        );
    }
    if !same_option(&overrides.user_config_path, expected_path) {
        return Err("native workflows require a named user configuration profile".to_owned());
    }
    config.insert("user_config_profile".to_owned(), overrides.user_config_profile.clone());
    Ok(())
}

/// What must hold before a headless run is prepared.
#[derive(Clone, Copy, Debug, PartialEq, Eq, Structural)]
pub struct HeadlessPreconditions {
    pub workflows_disabled: bool,
    /// A server of the user's has the name that the tool server needs.
    pub namespace_taken: bool,
    pub plugin_root_known: bool,
}

/// What stands against a headless run.
pub open spec fn headless_refusal(preconditions: HeadlessPreconditions) -> Option<Seq<char>> {
    if preconditions.workflows_disabled {
        Some("Workflows are disabled by configuration."@)
    } else if preconditions.namespace_taken {
        Some("a user-configured MCP server already owns the codex_tui namespace"@)
    } else if !preconditions.plugin_root_known {
        Some("frontend plugin root is unavailable"@)
    } else {
        None
    }
}

/// Why a headless run is not prepared.
pub fn check_headless(preconditions: HeadlessPreconditions) -> (res: Result<(), String>)
    ensures
        res is Ok <==> headless_refusal(preconditions) is None,
        res matches Err(message) ==> headless_refusal(preconditions) == Some(message@),
{
    if preconditions.workflows_disabled {
        Err("Workflows are disabled by configuration.".to_owned())
    } else if preconditions.namespace_taken {
        Err("a user-configured MCP server already owns the codex_tui namespace".to_owned())
    } else if !preconditions.plugin_root_known {
        Err("frontend plugin root is unavailable".to_owned())
    } else {
        Ok(())
    }
}

/// Whether the workflow host is permitted: where requirements are managed, by one that names it and
/// that it meets.
pub open spec fn is_permitted(managed: bool, named: bool, matches_requirement: bool) -> bool {
    !managed || (named && matches_requirement)
}

/// Whether managed requirements, where there are any, permit the workflow host.
pub fn check_requirements(managed: bool, named: bool, matches_requirement: bool) -> (res: Result<
    (),
    String,
>)
    ensures
        res is Ok <==> is_permitted(managed, named, matches_requirement),
        res matches Err(message) ==> message@
            == "managed MCP requirements do not permit the native workflow host"@,
{
    if managed && !(named && matches_requirement) {
        Err("managed MCP requirements do not permit the native workflow host".to_owned())
    } else {
        Ok(())
    }
}

/// A headless run is over only where every sign says so: no worker runs, no completion is pending or
/// waits to be stored, no turn is in progress, and the turn that was seen completed is the last one.
/// Each single sign to the contrary keeps it going.
pub proof fn run_is_over_only_by_every_sign(state: Json, completed_turn: Option<Seq<char>>)
    ensures
        is_over(state, completed_turn) <==> {
            &&& state.member("active"@) == Some(Json::Bool(false))
            &&& state.member("completionPending"@) == Some(Json::Bool(false))
            &&& state.member("pendingCompletionTurnIds"@) is Some
            &&& state.member("pendingCompletionTurnIds"@)->Some_0 is Array
            &&& state.member("pendingCompletionTurnIds"@)->Some_0->Array_0.len() == 0
            &&& state.member("turnStatus"@) != Some(Json::Text("inProgress"@))
            &&& completed_turn is Some
            &&& state.member("turnId"@) == Some(Json::Text(completed_turn->Some_0))
        },
        is_nonempty_list(state, "unresolved"@) <==> state.member("unresolved"@) is Some
            && state.member("unresolved"@)->Some_0 is Array && state.member(
            "unresolved"@,
        )->Some_0->Array_0.len() > 0,
{
}

/// A selection of configuration is kept only where it discards nothing and its file is the one of the
/// selected profile.
pub proof fn loader_keeps_the_users_configuration(
    overrides: LoaderOverrides,
    expected_path: Option<Seq<char>>,
)
    ensures
        loader_refusal(overrides, expected_path) is None <==> !overrides.ignore_user_config
            && !overrides.ignore_user_and_project_exec_policy_rules && option_text(
            overrides.user_config_path,
        ) == expected_path,
{
}

/// Each thing that stands against a headless run stops it, and nothing else does; what the user switched
/// off is told first.
pub proof fn headless_run_needs_everything(preconditions: HeadlessPreconditions)
    ensures
        headless_refusal(preconditions) is None <==> preconditions.plugin_root_known && !(
        preconditions.namespace_taken || preconditions.workflows_disabled),
        preconditions.workflows_disabled ==> headless_refusal(preconditions) == Some(
            "Workflows are disabled by configuration."@,
        ),
        preconditions.namespace_taken && !preconditions.workflows_disabled ==> headless_refusal(
            preconditions,
        ) == Some("a user-configured MCP server already owns the codex_tui namespace"@),
{
}

/// Managed requirements permit only what they name and what meets them; without them everything is
/// permitted.
pub proof fn managed_requirements_are_kept(named: bool, matches_requirement: bool)
    ensures
        is_permitted(false, named, matches_requirement),
        is_permitted(true, true, true),
        is_permitted(true, named, matches_requirement) ==> named && matches_requirement,
{
}

} // verus!
