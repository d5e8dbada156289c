//! Tests of runs without a user.
use ultracode_workflow::headless::{
    apply_loader_overrides, check_headless, check_requirements, finished, HeadlessPreconditions,
    LoaderOverrides,
};
use ultracode_workflow::registry::Registry;

fn json(text: &str) -> serde_json::Value {
    serde_json::from_str(text).expect("valid test JSON")
}

#[test]
fn headless_exit_waits_for_workers_and_the_delivered_parent_turn() {
    let finished_state = json(
        r#"{"active":false,"completionPending":false,"unresolved":[],"pendingCompletionTurnIds":[],"turnId":"final-turn","turnStatus":"completed"}"#,
    );
    assert!(!finished(&finished_state, Some("initial-turn")).unwrap());
    assert!(finished(&finished_state, Some("final-turn")).unwrap());
    for field in ["active", "completionPending"] {
        let mut state = finished_state.clone();
        state[field] = json("true");
        assert!(!finished(&state, Some("final-turn")).unwrap());
    }
    let mut unresolved = finished_state;
    unresolved["unresolved"] = json(r#"["run-1"]"#);
    assert!(finished(&unresolved, Some("final-turn")).is_err());
}

#[test]
fn accepted_completion_waits_for_delayed_admission_and_persistence() {
    let mut state = json(
        r#"{"active":false,"completionPending":false,"unresolved":[],
        "completionTurnIds":["accepted-turn"],"pendingCompletionTurnIds":["accepted-turn"],
        "turnId":"initial-turn","turnStatus":"completed"}"#,
    );
    assert!(!finished(&state, Some("initial-turn")).unwrap());
    state["turnId"] = json(r#""accepted-turn""#);
    state["turnStatus"] = json(r#""inProgress""#);
    assert!(!finished(&state, Some("initial-turn")).unwrap());
    state["pendingCompletionTurnIds"] = json("[]");
    state["turnStatus"] = json(r#""completed""#);
    assert!(!finished(&state, Some("initial-turn")).unwrap());
    assert!(finished(&state, Some("accepted-turn")).unwrap());
}

fn overrides(profile: Option<&str>, path: Option<&str>) -> LoaderOverrides {
    LoaderOverrides {
        ignore_user_config: false,
        ignore_user_and_project_exec_policy_rules: false,
        user_config_profile: profile.map(str::to_owned),
        user_config_path: path.map(str::to_owned),
    }
}

#[test]
fn headless_template_preserves_explicit_profile_and_default_selection() {
    let home = "/home";
    let path = format!("{home}/restricted.config.toml");
    let mut config: Registry<Option<String>> = Registry::new();
    apply_loader_overrides(
        &mut config,
        &overrides(Some("restricted"), Some(path.as_str())),
        &Some(path.clone()),
    )
    .unwrap();
    assert_eq!(config.get("user_config_profile"), Some(&Some("restricted".to_string())));
    apply_loader_overrides(&mut config, &overrides(None, None), &None).unwrap();
    assert_eq!(config.get("user_config_profile"), Some(&None));
}

#[test]
fn discarding_loaders_are_refused() {
    let mut config: Registry<Option<String>> = Registry::new();
    let mut ignoring = overrides(None, None);
    ignoring.ignore_user_config = true;
    assert_eq!(
        apply_loader_overrides(&mut config, &ignoring, &None).unwrap_err(),
        "native workflows cannot discard user configuration or exec policy rules"
    );
    assert_eq!(
        apply_loader_overrides(&mut config, &overrides(None, Some("/file")), &None).unwrap_err(),
        "native workflows require a named user configuration profile"
    );
    assert!(config.is_empty());
}

#[test]
fn headless_run_needs_its_preconditions() {
    let ready = || HeadlessPreconditions {
        workflows_disabled: false,
        namespace_taken: false,
        plugin_root_known: true,
    };
    assert!(check_headless(ready()).is_ok());
    let mut disabled = ready();
    disabled.workflows_disabled = true;
    assert_eq!(
        check_headless(disabled).unwrap_err(),
        "Workflows are disabled by configuration."
    );
    let mut taken = ready();
    taken.namespace_taken = true;
    assert_eq!(
        check_headless(taken).unwrap_err(),
        "a user-configured MCP server already owns the codex_tui namespace"
    );
    let mut rootless = ready();
    rootless.plugin_root_known = false;
    assert_eq!(check_headless(rootless).unwrap_err(), "frontend plugin root is unavailable");
}

#[test]
fn managed_requirements_must_name_and_match_the_host() {
    assert!(check_requirements(false, false, false).is_ok());
    assert!(check_requirements(true, true, true).is_ok());
    assert!(check_requirements(true, true, false).is_err());
    assert!(check_requirements(true, false, true).is_err());
}
