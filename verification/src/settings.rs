//! Settings that a request changes on a thread.
use crate::error::{internal_error, invalid_request, RpcError, INTERNAL_ERROR, INVALID_REQUEST};
use crate::path::AbsolutePath;
use crate::text::{contains, has_part, option_text, plus};
use vstd::prelude::*;
use vstd::string::*;

verus! {

/// An environment that a request selects.
#[derive(Debug)]
pub struct EnvironmentSelection {
    pub environment_id: String,
    /// Whether it is the local environment.
    pub is_local: bool,
    /// Its directory, where that is a local path.
    pub cwd: Option<AbsolutePath>,
}

/// What a request changes of a thread's environments.
#[derive(Debug)]
pub enum EnvironmentOverride {
    Unchanged,
    /// The environments that were selected, with the directory that stands in where one has none.
    Selected { fallback_cwd: AbsolutePath, selections: Vec<EnvironmentSelection> },
    /// The default environments, with their directory and the roots that replace the task's own.
    Default { fallback_cwd: AbsolutePath, roots: Vec<AbsolutePath> },
}

/// The position of the first local environment.
pub open spec fn first_local(selections: Seq<EnvironmentSelection>, i: int) -> bool {
    &&& 0 <= i < selections.len()
    &&& selections[i].is_local
    &&& forall|j: int| 0 <= j < i ==> !(#[trigger] selections[j]).is_local
}

/// The directory of the first local environment, where it has one.
pub open spec fn local_cwd(selections: Seq<EnvironmentSelection>) -> Option<Seq<Seq<char>>> {
    if exists|i: int| first_local(selections, i) {
        match selections[choose|i: int| first_local(selections, i)].cwd {
            Some(cwd) => Some(cwd@),
            None => None,
        }
    } else {
        None
    }
}

fn find_local_cwd(selections: &Vec<EnvironmentSelection>) -> (res: Option<AbsolutePath>)
    ensures
        match res {
            Some(cwd) => local_cwd(selections@) == Some(cwd@),
            None => local_cwd(selections@) is None,
        },
{
    let mut i: usize = 0;
    while i < selections.len()
        invariant
            i <= selections@.len(),
            forall|j: int| 0 <= j < i ==> !(#[trigger] selections@[j]).is_local,
        decreases selections@.len() - i,
    {
        if selections[i].is_local {
            assert(first_local(selections@, i as int));
            proof {
                let k = choose|k: int| first_local(selections@, k);
                if k < i {
                    assert(!selections@[k].is_local);
                }
                if i < k {
                    assert(!selections@[i as int].is_local);
                }
            }
            return match &selections[i].cwd {
                Some(cwd) => Some(cwd.copy()),
                None => None,
            };
        }
        i = i + 1;
    }
    None
}

/// Whether a request changes a thread's environments so.
pub open spec fn is_environment_override(
    cwd: Option<AbsolutePath>,
    workspace_roots: Option<Vec<AbsolutePath>>,
    selections: Option<Vec<EnvironmentSelection>>,
    thread_cwd: Seq<Seq<char>>,
    retained_roots: Vec<AbsolutePath>,
    res: EnvironmentOverride,
) -> bool {
    match selections {
        Some(chosen) => res matches EnvironmentOverride::Selected { fallback_cwd, selections }
            && selections == chosen && fallback_cwd@ == match cwd {
            Some(cwd) => cwd@,
            None => match local_cwd(chosen@) {
                Some(local) => local,
                None => thread_cwd,
            },
        },
        None => if cwd is None && workspace_roots is None {
            res is Unchanged
        } else {
            res matches EnvironmentOverride::Default { fallback_cwd, roots } && fallback_cwd@ == (
            match cwd {
                Some(cwd) => cwd@,
                None => thread_cwd,
            }) && roots == (match workspace_roots {
                Some(given) => given,
                None => retained_roots,
            })
        },
    }
}

/// Forms the change of a thread's environments. Selected environments keep their own roots. Else the
/// default environments are used, with the given roots, or with `retained_roots`: the task's roots
/// with the old directory replaced by the new one.
pub fn build_environment_override(
    cwd: Option<AbsolutePath>,
    workspace_roots: Option<Vec<AbsolutePath>>,
    selections: Option<Vec<EnvironmentSelection>>,
    thread_cwd: &AbsolutePath,
    retained_roots: Vec<AbsolutePath>,
) -> (res: EnvironmentOverride)
    ensures
        is_environment_override(
            cwd,
            workspace_roots,
            selections,
            thread_cwd@,
            retained_roots,
            res,
        ),
{
    match selections {
        Some(selections) => {
            let fallback_cwd = match cwd {
                Some(cwd) => cwd,
                None => match find_local_cwd(&selections) {
                    Some(cwd) => cwd,
                    None => thread_cwd.copy(),
                },
            };
            EnvironmentOverride::Selected { fallback_cwd, selections }
        },
        None => {
            if cwd.is_none() && workspace_roots.is_none() {
                return EnvironmentOverride::Unchanged;
            }
            let fallback_cwd = match cwd {
                Some(cwd) => cwd,
                None => thread_cwd.copy(),
            };
            let roots = match workspace_roots {
                Some(roots) => roots,
                None => retained_roots,
            };
            EnvironmentOverride::Default { fallback_cwd, roots }
        },
    }
}

/// A collaboration mode, by its name, with its instructions.
#[derive(Debug)]
pub struct CollaborationMode {
    pub mode: String,
    pub model: String,
    pub effort: Option<String>,
    pub developer_instructions: Option<String>,
}

/// A built-in collaboration mode.
#[derive(Debug)]
pub struct CollaborationPreset {
    pub mode: Option<String>,
    pub developer_instructions: Option<String>,
}

/// The position of the first preset of a mode.
pub open spec fn first_preset(presets: Seq<CollaborationPreset>, mode: Seq<char>, i: int) -> bool {
    &&& 0 <= i < presets.len()
    &&& option_text(presets[i].mode) == Some(mode)
    &&& forall|j: int| 0 <= j < i ==> option_text((#[trigger] presets[j]).mode) != Some(mode)
}

/// The instructions that the first preset of a mode has, where they say anything.
pub open spec fn preset_instructions(
    presets: Seq<CollaborationPreset>,
    mode: Seq<char>,
) -> Option<Seq<char>> {
    if exists|i: int| first_preset(presets, mode, i) {
        let preset = presets[choose|i: int| first_preset(presets, mode, i)];
        match option_text(preset.developer_instructions) {
            Some(text) => if text.len() > 0 {
                Some(text)
            } else {
                None
            },
            None => None,
        }
    } else {
        None
    }
}

fn find_instructions(presets: &Vec<CollaborationPreset>, mode: &str) -> (res: Option<String>)
    ensures
        option_text(res) == preset_instructions(presets@, mode@),
{
    let mut i: usize = 0;
    while i < presets.len()
        invariant
            i <= presets@.len(),
            forall|j: int| 0 <= j < i ==> option_text((#[trigger] presets@[j]).mode) != Some(mode@),
        decreases presets@.len() - i,
    {
        if crate::text::is_text(&presets[i].mode, mode) {
            assert(first_preset(presets@, mode@, i as int));
            proof {
                let k = choose|k: int| first_preset(presets@, mode@, k);
                if k < i {
                    assert(option_text(presets@[k].mode) != Some(mode@));
                }
                if i < k {
                    assert(option_text(presets@[i as int].mode) != Some(mode@));
                }
            }
            return match &presets[i].developer_instructions {
                Some(text) => if text.as_str().is_empty() {
                    None
                } else {
                    Some(text.clone())
                },
                None => None,
            };
        }
        i = i + 1;
    }
    None
}

/// Whether a mode is another one with the instructions of its preset, where it had none.
pub open spec fn is_normalized(
    normalized: CollaborationMode,
    mode: CollaborationMode,
    presets: Seq<CollaborationPreset>,
) -> bool {
    &&& normalized.mode == mode.mode
    &&& normalized.model == mode.model
    &&& normalized.effort == mode.effort
    &&& option_text(normalized.developer_instructions) == if mode.developer_instructions is Some {
        option_text(mode.developer_instructions)
    } else {
        preset_instructions(presets, mode.mode@)
    }
}

/// Gives a mode without instructions those of its preset; instructions of its own stay.
pub fn normalize_collaboration_mode(
    mode: CollaborationMode,
    presets: &Vec<CollaborationPreset>,
) -> (res: CollaborationMode)
    ensures
        is_normalized(res, mode, presets@),
{
    let mut mode = mode;
    if mode.developer_instructions.is_none() {
        mode.developer_instructions = find_instructions(presets, mode.mode.as_str());
    }
    mode
}

/// The settings that a request changes. Policies and profiles are held as their canonical text.
#[derive(Debug)]
pub struct ThreadSettingsBuildParams {
    pub disabled_plugin_ids: Option<Vec<String>>,
    pub environment_override: EnvironmentOverride,
    pub approval_policy: Option<String>,
    pub approvals_reviewer: Option<String>,
    pub sandbox_policy: Option<String>,
    pub permissions: Option<String>,
    pub model: Option<String>,
    /// Absent, cleared, or set.
    pub service_tier: Option<Option<String>>,
    pub effort: Option<String>,
    pub summary: Option<String>,
    pub collaboration_mode: Option<CollaborationMode>,
    pub personality: Option<String>,
}

/// The permissions that a selected profile resolves to.
#[derive(Debug)]
pub struct ResolvedPermissions {
    pub profile: String,
    pub active_profile: Option<String>,
    pub profile_workspace_roots: Vec<String>,
}

/// The change of a thread's settings.
#[derive(Debug)]
pub struct ThreadSettingsOverrides {
    pub disabled_plugin_ids: Option<Vec<String>>,
    pub environment_override: EnvironmentOverride,
    pub profile_workspace_roots: Option<Vec<String>>,
    pub approval_policy: Option<String>,
    pub approvals_reviewer: Option<String>,
    pub sandbox_policy: Option<String>,
    pub permission_profile: Option<String>,
    pub active_permission_profile: Option<String>,
    pub model: Option<String>,
    /// Absent or set; a request cannot clear the effort.
    pub effort: Option<Option<String>>,
    pub summary: Option<String>,
    pub service_tier: Option<Option<String>>,
    pub collaboration_mode: Option<CollaborationMode>,
    pub personality: Option<String>,
}

/// Whether a request changes anything.
pub open spec fn changes_anything(params: ThreadSettingsBuildParams) -> bool {
    ||| !(params.environment_override is Unchanged)
    ||| params.disabled_plugin_ids is Some
    ||| params.approval_policy is Some
    ||| params.approvals_reviewer is Some
    ||| params.sandbox_policy is Some
    ||| params.permissions is Some
    ||| params.model is Some
    ||| params.service_tier is Some
    ||| params.effort is Some
    ||| params.summary is Some
    ||| params.collaboration_mode is Some
    ||| params.personality is Some
}

pub fn has_any_overrides(params: &ThreadSettingsBuildParams) -> (res: bool)
    ensures
        res == changes_anything(*params),
{
    let environment = match params.environment_override {
        EnvironmentOverride::Unchanged => false,
        _ => true,
    };
    environment || params.disabled_plugin_ids.is_some() || params.approval_policy.is_some()
        || params.approvals_reviewer.is_some() || params.sandbox_policy.is_some()
        || params.permissions.is_some() || params.model.is_some() || params.service_tier.is_some()
        || params.effort.is_some() || params.summary.is_some()
        || params.collaboration_mode.is_some() || params.personality.is_some()
}

/// Whether a warning says that the selected profile is not allowed.
pub open spec fn is_disallowed(warning: Seq<char>) -> bool {
    has_part(warning, "Configured value for `permission_profile` is disallowed"@)
}

/// The first warning that says so.
pub open spec fn first_disallowed(warnings: Seq<String>) -> Option<Seq<char>>
    decreases warnings.len(),
{
    if warnings.len() == 0 {
        None
    } else if first_disallowed(warnings.drop_last()) is Some {
        first_disallowed(warnings.drop_last())
    } else if is_disallowed(warnings.last()@) {
        Some(warnings.last()@)
    } else {
        None
    }
}

proof fn first_disallowed_stays(warnings: Seq<String>, i: int)
    requires
        0 <= i <= warnings.len(),
        first_disallowed(warnings.take(i)) is Some,
    ensures
        first_disallowed(warnings) == first_disallowed(warnings.take(i)),
    decreases warnings.len(),
{
    if i == warnings.len() {
        assert(warnings.take(i) =~= warnings);
    } else {
        assert(warnings.drop_last().take(i) =~= warnings.take(i));
        first_disallowed_stays(warnings.drop_last(), i);
    }
}

fn find_disallowed(warnings: &Vec<String>) -> (res: Option<String>)
    ensures
        option_text(res) == first_disallowed(warnings@),
{
    let mut i: usize = 0;
    while i < warnings.len()
        invariant
            i <= warnings@.len(),
            first_disallowed(warnings@.take(i as int)) is None,
        decreases warnings@.len() - i,
    {
        assert(warnings@.take(i + 1).drop_last() =~= warnings@.take(i as int));
        if contains(
            warnings[i].as_str(),
            "Configured value for `permission_profile` is disallowed",
        ) {
            proof {
                first_disallowed_stays(warnings@, i + 1);
            }
            return Some(warnings[i].clone());
        }
        i = i + 1;
    }
    assert(warnings@.take(warnings@.len() as int) =~= warnings@);
    None
}

/// What was loaded for the permissions that a request selects.
#[derive(Debug)]
pub struct LoadedPermissions {
    /// The warnings of the load. At start-up a profile that is not allowed falls back with one.
    pub warnings: Vec<String>,
    pub resolved: ResolvedPermissions,
}

/// Whether a change of settings is what a request asks for, with what its permissions resolve to.
pub open spec fn is_change(
    change: ThreadSettingsOverrides,
    params: ThreadSettingsBuildParams,
    presets: Seq<CollaborationPreset>,
    resolved: Option<ResolvedPermissions>,
) -> bool {
    &&& change.disabled_plugin_ids == params.disabled_plugin_ids
    &&& change.environment_override == params.environment_override
    &&& change.approval_policy == params.approval_policy
    &&& change.approvals_reviewer == params.approvals_reviewer
    &&& change.sandbox_policy == params.sandbox_policy
    &&& change.model == params.model
    &&& change.effort == (match params.effort {
        Some(effort) => Some(Some(effort)),
        None => None,
    })
    &&& change.summary == params.summary
    &&& change.service_tier == params.service_tier
    &&& match params.collaboration_mode {
        Some(mode) => change.collaboration_mode matches Some(normalized) && is_normalized(
            normalized,
            mode,
            presets,
        ),
        None => change.collaboration_mode is None,
    }
    &&& change.personality == params.personality
    &&& match resolved {
        Some(permissions) => change.permission_profile == Some(permissions.profile)
            && change.active_permission_profile == permissions.active_profile
            && change.profile_workspace_roots == Some(permissions.profile_workspace_roots),
        None => change.permission_profile is None && change.active_permission_profile is None
            && change.profile_workspace_roots is None,
    }
}

/// Whether the change of a thread's settings is formed so, or refused.
pub open spec fn is_built(
    method: Seq<char>,
    params: ThreadSettingsBuildParams,
    presets: Seq<CollaborationPreset>,
    loaded: Option<Result<LoadedPermissions, RpcError>>,
    res: Result<ThreadSettingsOverrides, RpcError>,
) -> bool {
    if params.sandbox_policy is Some && params.permissions is Some {
        res matches Err(error) && error.is(
            INVALID_REQUEST,
            "`permissions` cannot be combined with `sandboxPolicy`"@,
        )
    } else if params.permissions is None {
        res matches Ok(change) && is_change(change, params, presets, None)
    } else {
        match loaded {
            None => res matches Err(error) && error.is(
                INTERNAL_ERROR,
                method + " permission selection missing thread snapshot"@,
            ),
            Some(Err(failure)) => res matches Err(error) && error == failure,
            Some(Ok(found)) => match first_disallowed(found.warnings@) {
                Some(warning) => res matches Err(error) && error.is(
                    INVALID_REQUEST,
                    "invalid thread settings override: "@ + warning,
                ),
                None => res matches Ok(change) && is_change(
                    change,
                    params,
                    presets,
                    Some(found.resolved),
                ),
            },
        }
    }
}

/// Forms the change of a thread's settings. `loaded` is what was loaded for the selected permissions,
/// or why that failed. Permissions are selected in one way only, and a selected profile that is not
/// allowed is rejected with the first warning that says so.
pub fn build_thread_settings_overrides(
    method: &str,
    params: ThreadSettingsBuildParams,
    presets: &Vec<CollaborationPreset>,
    loaded: Option<Result<LoadedPermissions, RpcError>>,
) -> (res: Result<ThreadSettingsOverrides, RpcError>)
    ensures
        is_built(method@, params, presets@, loaded, res),
{
    if params.sandbox_policy.is_some() && params.permissions.is_some() {
        return Err(invalid_request("`permissions` cannot be combined with `sandboxPolicy`"));
    }
    let (permission_profile, active_permission_profile, profile_workspace_roots) =
        if params.permissions.is_some() {
        match loaded {
            None => {
                return Err(
                    internal_error(
                        plus(method, " permission selection missing thread snapshot").as_str(),
                    ),
                );
            },
            Some(Err(failure)) => {
                return Err(failure);
            },
            Some(Ok(found)) => {
                match find_disallowed(&found.warnings) {
                    Some(warning) => {
                        return Err(
                            invalid_request(
                                plus(
                                    "invalid thread settings override: ",
                                    warning.as_str(),
                                ).as_str(),
                            ),
                        );
                    },
                    None => {},
                }
                (
                    Some(found.resolved.profile),
                    found.resolved.active_profile,
                    Some(found.resolved.profile_workspace_roots),
                )
            },
        }
    } else {
        (None, None, None)
    };
    let effort = match params.effort {
        Some(effort) => Some(Some(effort)),
        None => None,
    };
    let collaboration_mode = match params.collaboration_mode {
        Some(mode) => Some(normalize_collaboration_mode(mode, presets)),
        None => None,
    };
    Ok(
        ThreadSettingsOverrides {
            disabled_plugin_ids: params.disabled_plugin_ids,
            environment_override: params.environment_override,
            profile_workspace_roots,
            approval_policy: params.approval_policy,
            approvals_reviewer: params.approvals_reviewer,
            sandbox_policy: params.sandbox_policy,
            permission_profile,
            active_permission_profile,
            model: params.model,
            effort,
            summary: params.summary,
            service_tier: params.service_tier,
            collaboration_mode,
            personality: params.personality,
        },
    )
}

/// Whether a change of settings is empty.
pub open spec fn is_empty_change(overrides: ThreadSettingsOverrides) -> bool {
    &&& overrides.disabled_plugin_ids is None
    &&& overrides.environment_override is Unchanged
    &&& overrides.profile_workspace_roots is None
    &&& overrides.approval_policy is None
    &&& overrides.approvals_reviewer is None
    &&& overrides.sandbox_policy is None
    &&& overrides.permission_profile is None
    &&& overrides.active_permission_profile is None
    &&& overrides.model is None
    &&& overrides.effort is None
    &&& overrides.summary is None
    &&& overrides.service_tier is None
    &&& overrides.collaboration_mode is None
    &&& overrides.personality is None
}

/// Whether there is a change to submit to the thread.
pub fn submits_settings(overrides: &ThreadSettingsOverrides) -> (res: bool)
    ensures
        res == !is_empty_change(*overrides),
{
    let environment = match overrides.environment_override {
        EnvironmentOverride::Unchanged => false,
        _ => true,
    };
    environment || overrides.disabled_plugin_ids.is_some()
        || overrides.profile_workspace_roots.is_some() || overrides.approval_policy.is_some()
        || overrides.approvals_reviewer.is_some() || overrides.sandbox_policy.is_some()
        || overrides.permission_profile.is_some() || overrides.active_permission_profile.is_some()
        || overrides.model.is_some() || overrides.effort.is_some() || overrides.summary.is_some()
        || overrides.service_tier.is_some() || overrides.collaboration_mode.is_some()
        || overrides.personality.is_some()
}

/// A request that changes nothing submits nothing, and one that changes anything submits it.
pub proof fn only_changes_are_submitted(
    change: ThreadSettingsOverrides,
    params: ThreadSettingsBuildParams,
    presets: Seq<CollaborationPreset>,
    resolved: Option<ResolvedPermissions>,
)
    requires
        is_change(change, params, presets, resolved),
        resolved is Some <==> params.permissions is Some,
    ensures
        is_empty_change(change) <==> !changes_anything(params),
{
}

/// A directory that is given always counts. Without one, the selected environments start in that of
/// the first local one, and else in the thread's own; selections and roots are taken over as they
/// are. A request that names none of this changes nothing of the environments.
pub proof fn given_directory_counts(
    cwd: Option<AbsolutePath>,
    workspace_roots: Option<Vec<AbsolutePath>>,
    selections: Option<Vec<EnvironmentSelection>>,
    thread_cwd: Seq<Seq<char>>,
    retained_roots: Vec<AbsolutePath>,
    res: EnvironmentOverride,
    i: int,
)
    requires
        is_environment_override(
            cwd,
            workspace_roots,
            selections,
            thread_cwd,
            retained_roots,
            res,
        ),
    ensures
        res is Unchanged <==> cwd is None && workspace_roots is None && selections is None,
        res is Selected <==> selections is Some,
        res matches EnvironmentOverride::Selected { fallback_cwd, selections: chosen } ==> {
            &&& Some(chosen) == selections
            &&& cwd is Some ==> fallback_cwd@ == cwd->Some_0@
            &&& cwd is None && 0 <= i < chosen@.len() && chosen@[i].is_local && (forall|j: int|
                0 <= j < i ==> !(#[trigger] chosen@[j]).is_local) ==> fallback_cwd@ == (
            if chosen@[i].cwd is Some {
                chosen@[i].cwd->Some_0@
            } else {
                thread_cwd
            })
            &&& cwd is None && (forall|j: int|
                0 <= j < chosen@.len() ==> !(#[trigger] chosen@[j]).is_local) ==> fallback_cwd@
                == thread_cwd
        },
        res matches EnvironmentOverride::Default { fallback_cwd, roots } ==> {
            &&& fallback_cwd@ == if cwd is Some {
                cwd->Some_0@
            } else {
                thread_cwd
            }
            &&& roots == if workspace_roots is Some {
                workspace_roots->Some_0
            } else {
                retained_roots
            }
        },
{
    if let Some(chosen) = selections {
        if 0 <= i < chosen@.len() && chosen@[i].is_local && (forall|j: int|
            0 <= j < i ==> !(#[trigger] chosen@[j]).is_local) {
            assert(first_local(chosen@, i));
            let k = choose|k: int| first_local(chosen@, k);
            if k < i {
                assert(!chosen@[k].is_local);
            }
            if i < k {
                assert(!chosen@[i].is_local);
            }
        }
    }
}

/// A mode without instructions gets those of the first preset of its name, where they say anything;
/// instructions of its own stay, and nothing else of the mode changes.
pub proof fn preset_fills_in_instructions(
    normalized: CollaborationMode,
    mode: CollaborationMode,
    presets: Seq<CollaborationPreset>,
    i: int,
)
    requires
        is_normalized(normalized, mode, presets),
    ensures
        normalized.mode == mode.mode,
        normalized.model == mode.model,
        normalized.effort == mode.effort,
        mode.developer_instructions is Some ==> option_text(normalized.developer_instructions)
            == option_text(mode.developer_instructions),
        mode.developer_instructions is None && 0 <= i < presets.len() && option_text(
            presets[i].mode,
        ) == Some(mode.mode@) && (forall|j: int|
            0 <= j < i ==> option_text((#[trigger] presets[j]).mode) != Some(mode.mode@)) ==> (
        if presets[i].developer_instructions is Some
            && presets[i].developer_instructions->Some_0@.len() > 0 {
            option_text(normalized.developer_instructions) == option_text(
                presets[i].developer_instructions,
            )
        } else {
            normalized.developer_instructions is None
        }),
        mode.developer_instructions is None && (forall|j: int|
            0 <= j < presets.len() ==> option_text((#[trigger] presets[j]).mode) != Some(
                mode.mode@,
            )) ==> normalized.developer_instructions is None,
{
    let name = mode.mode@;
    if 0 <= i < presets.len() && option_text(presets[i].mode) == Some(name) && (forall|j: int|
        0 <= j < i ==> option_text((#[trigger] presets[j]).mode) != Some(name)) {
        assert(first_preset(presets, name, i));
        let k = choose|k: int| first_preset(presets, name, k);
        if k < i {
            assert(option_text(presets[k].mode) != Some(name));
        }
        if i < k {
            assert(option_text(presets[i].mode) != Some(name));
        }
    }
}

/// A warning that the selected profile is not allowed is never overlooked, and the first one is told.
pub proof fn disallowed_profile_is_found(warnings: Seq<String>, i: int)
    requires
        0 <= i < warnings.len(),
    ensures
        (forall|j: int| 0 <= j < warnings.len() ==> !is_disallowed((#[trigger] warnings[j])@))
            ==> first_disallowed(warnings) is None,
        has_part(warnings[i]@, "Configured value for `permission_profile` is disallowed"@) && (
        forall|j: int| 0 <= j < i ==> !is_disallowed((#[trigger] warnings[j])@))
            ==> first_disallowed(warnings) == Some(warnings[i]@),
{
    none_before(warnings, warnings.len() as int);
    assert(warnings.take(warnings.len() as int) =~= warnings);
    if is_disallowed(warnings[i]@) && (forall|j: int|
        0 <= j < i ==> !is_disallowed((#[trigger] warnings[j])@)) {
        none_before(warnings, i);
        assert(warnings.take(i + 1).drop_last() =~= warnings.take(i));
        first_disallowed_stays(warnings, i + 1);
    }
}

proof fn none_before(warnings: Seq<String>, i: int)
    requires
        0 <= i <= warnings.len(),
    ensures
        (forall|j: int| 0 <= j < i ==> !is_disallowed((#[trigger] warnings[j])@))
            ==> first_disallowed(warnings.take(i)) is None,
    decreases i,
{
    if i > 0 {
        none_before(warnings, i - 1);
        assert(warnings.take(i).drop_last() =~= warnings.take(i - 1));
        assert(warnings.take(i).last() == warnings[i - 1]);
    }
}

/// What a request sets is what the thread is set to, setting by setting, and what it does not name is
/// left alone. Permissions are selected in one way only; a selected profile is what it resolves to,
/// and nothing is submitted where it is not allowed or could not be loaded.
pub proof fn settings_are_taken_over(
    method: Seq<char>,
    params: ThreadSettingsBuildParams,
    presets: Seq<CollaborationPreset>,
    loaded: Option<Result<LoadedPermissions, RpcError>>,
    res: Result<ThreadSettingsOverrides, RpcError>,
)
    requires
        is_built(method, params, presets, loaded, res),
    ensures
        res is Ok <==> params.permissions is None || (params.sandbox_policy is None && loaded is Some
            && loaded->Some_0 is Ok && first_disallowed(loaded->Some_0->Ok_0.warnings@) is None),
        res matches Ok(change) ==> {
            let found = loaded->Some_0->Ok_0.resolved;
            &&& change.model == params.model
            &&& change.approval_policy == params.approval_policy
            &&& change.approvals_reviewer == params.approvals_reviewer
            &&& change.sandbox_policy == params.sandbox_policy
            &&& change.summary == params.summary
            &&& change.service_tier == params.service_tier
            &&& change.personality == params.personality
            &&& change.disabled_plugin_ids == params.disabled_plugin_ids
            &&& change.environment_override == params.environment_override
            &&& change.effort is Some <==> params.effort is Some
            &&& change.effort is Some ==> change.effort->Some_0 == params.effort
            &&& change.collaboration_mode is Some <==> params.collaboration_mode is Some
            &&& change.collaboration_mode is Some ==> is_normalized(
                change.collaboration_mode->Some_0,
                params.collaboration_mode->Some_0,
                presets,
            )
            &&& params.permissions is Some ==> change.permission_profile == Some(found.profile)
                && change.active_permission_profile == found.active_profile
                && change.profile_workspace_roots == Some(found.profile_workspace_roots)
            &&& params.permissions is None ==> change.permission_profile is None
                && change.active_permission_profile is None && change.profile_workspace_roots is None
        },
        params.permissions is Some && params.sandbox_policy is None && loaded is Some
            && loaded->Some_0 is Err ==> res->Err_0 == loaded->Some_0->Err_0,
{
}

/// A request changes something as soon as it names any one setting, and nothing where it names none.
pub proof fn any_setting_is_a_change(params: ThreadSettingsBuildParams)
    ensures
        !changes_anything(params) <==> params.environment_override is Unchanged
            && params.disabled_plugin_ids is None && params.approval_policy is None
            && params.approvals_reviewer is None && params.sandbox_policy is None
            && params.permissions is None && params.model is None && params.service_tier is None
            && params.effort is None && params.summary is None && params.collaboration_mode is None
            && params.personality is None,
{
}

} // verus!
