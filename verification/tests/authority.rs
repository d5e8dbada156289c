//! Tests of authorities and of what may act under them.
use ultracode_workflow::authority::{
    workflow_authority_capture, workflow_authority_digest, workflow_authority_matches,
    workflow_authority_ref_matches, workflow_file_authority, workflow_host_url, workflow_plugins,
    ApprovalsReviewer, AuthorityCapture, PluginRoot, TaskServer, ThreadConfigSnapshot,
    WorkflowAuthority,
};
use ultracode_workflow::ids::ThreadId;
use ultracode_workflow::path::AbsolutePath;
use ultracode_workflow::registry::Registry;

fn path(value: &str) -> AbsolutePath {
    AbsolutePath::parse(value).expect("absolute test path")
}

fn snapshot() -> ThreadConfigSnapshot {
    ThreadConfigSnapshot {
        model: "gpt-test".into(),
        model_provider_id: "openai".into(),
        service_tier: None,
        approval_policy: "on-request".into(),
        permission_requests_allowed: true,
        approvals_reviewer: ApprovalsReviewer::User,
        permission_profile: "disabled".into(),
        active_permission_profile: None,
        environments: "/repo".into(),
        workspace_roots: vec!["/repo".into()],
        profile_workspace_roots: vec!["/repo".into()],
        cwd: path("/repo"),
        reasoning_effort: None,
        forked_from_thread_id: None,
    }
}

#[test]
fn rejects_every_authority_change() {
    let captured = snapshot();

    let mut changed = snapshot();
    changed.permission_profile = "default".into();
    assert!(!workflow_authority_matches(&captured, &changed));

    let mut changed = snapshot();
    changed.workspace_roots = vec!["/other".into()];
    assert!(!workflow_authority_matches(&captured, &changed));

    let mut changed = snapshot();
    changed.profile_workspace_roots = vec!["/other".into()];
    assert!(!workflow_authority_matches(&captured, &changed));

    let mut changed = snapshot();
    changed.approval_policy = "never".into();
    assert!(!workflow_authority_matches(&captured, &changed));

    let mut changed = snapshot();
    changed.approvals_reviewer = ApprovalsReviewer::AutoReview;
    assert!(!workflow_authority_matches(&captured, &changed));

    let mut changed = snapshot();
    changed.environments = "/other".into();
    assert!(!workflow_authority_matches(&captured, &changed));
}

#[test]
fn rejects_parent_or_generation_mismatch() {
    let parent = ThreadId::new();
    assert!(workflow_authority_ref_matches(parent, 3, parent, 3));
    assert!(!workflow_authority_ref_matches(parent, 3, ThreadId::new(), 3));
    assert!(!workflow_authority_ref_matches(parent, 3, parent, 4));
}

#[test]
fn same_authority_matches_whatever_the_model_is() {
    let captured = snapshot();
    let mut changed = snapshot();
    changed.model = "another".into();
    assert!(workflow_authority_matches(&captured, &changed));
}

#[test]
fn digest_changes_with_each_term_and_is_hexadecimal() {
    let plain = workflow_authority_digest(&snapshot(), &Vec::new(), false);
    assert_eq!(plain.len(), 64);
    assert!(plain.chars().all(|c| c.is_ascii_hexdigit()));
    assert_eq!(plain, workflow_authority_digest(&snapshot(), &Vec::new(), false));
    assert_ne!(plain, workflow_authority_digest(&snapshot(), &Vec::new(), true));
    let mut changed = snapshot();
    changed.approval_policy = "never".into();
    assert_ne!(plain, workflow_authority_digest(&changed, &Vec::new(), false));
}

#[test]
fn only_plugins_with_plain_names_are_offered() {
    let plugins = vec![
        PluginRoot { name: "review".into(), root: "/plugins/review".into() },
        PluginRoot { name: "../escape".into(), root: "/plugins/escape".into() },
    ];
    let offered = workflow_plugins(&plugins);
    assert_eq!(offered.len(), 1);
    assert_eq!(offered[0].name, "review");
    assert_eq!(offered[0].root, "/plugins/review");
}

#[test]
fn host_url_is_that_of_an_enabled_server() {
    assert_eq!(workflow_host_url(&None), None);
    assert_eq!(
        workflow_host_url(&Some(TaskServer { enabled: false, http_url: Some("http://a".into()) })),
        None
    );
    assert_eq!(
        workflow_host_url(&Some(TaskServer { enabled: true, http_url: Some("http://a".into()) })),
        Some("http://a".to_string())
    );
}

fn capture(parent: ThreadId) -> AuthorityCapture {
    AuthorityCapture {
        parent_thread_id: parent,
        snapshot: snapshot(),
        codex_home: path("/home"),
        plugins: Vec::new(),
        web_search_available: false,
        models: Vec::new(),
        task_server: None,
        allow_isolated_workspaces: true,
    }
}

#[test]
fn captured_authority_is_found_again_until_it_changes() {
    let parent = ThreadId { value: 7 };
    let mut authorities: Registry<WorkflowAuthority> = Registry::new();
    let answer = workflow_authority_capture(&mut authorities, "ref".into(), capture(parent));
    assert_eq!(answer.authority_ref, "ref");
    assert_eq!(answer.cwd, "/repo");
    let digest = answer.authority_digest;
    let found =
        workflow_file_authority(&authorities, parent, "ref", digest.as_str(), &snapshot()).unwrap();
    assert_eq!(found.parent_thread_id, parent);
    let mut changed = snapshot();
    changed.permission_profile = "default".into();
    for refused in [
        workflow_file_authority(&authorities, parent, "other", digest.as_str(), &snapshot()),
        workflow_file_authority(&authorities, parent, "ref", "stale", &snapshot()),
        workflow_file_authority(&authorities, parent, "ref", digest.as_str(), &changed),
        workflow_file_authority(
            &authorities,
            ThreadId { value: 8 },
            "ref",
            digest.as_str(),
            &snapshot(),
        ),
    ] {
        assert!(refused.is_err());
    }
}
