//! Tests of workspaces: their identities, grants, leases and paths.
use ultracode_workflow::ids::{
    fresh_id, plugin_name, save_name, validate_workflow_workspace_id, workflow_id_component,
    workflow_lock_reason, ThreadId,
};
use ultracode_workflow::path::{workflow_workspace_record_path, AbsolutePath};
use ultracode_workflow::worker::workflow_effective_selection;
use ultracode_workflow::workspace::{
    check_record_place, listed_worktrees, path_chain, validate_checkout_path, workflow_checkout_branch,
    workflow_checkout_path, workflow_owned_lock, workflow_release_eligible, workflow_release_lease,
    workflow_workspace_unchanged, workflow_worktree_matches, AgentStatus, CheckoutGrant,
    WorkflowWorkspaceOwnership, WorktreeFacts,
};

fn path(value: &str) -> AbsolutePath {
    AbsolutePath::parse(value).expect("absolute test path")
}

fn workspace(parent: ThreadId) -> WorkflowWorkspaceOwnership {
    WorkflowWorkspaceOwnership {
        parent_thread_id: parent,
        authority_ref: "authority".into(),
        authority_digest: "digest".into(),
        run_id: "run".into(),
        worker_id: "worker".into(),
        cwd: path("/root/checkout"),
        base_commit: "base".into(),
        permission_profile: "read-only".into(),
        released: false,
        common_git_dir: path("/root/.git"),
        repository_cwd: path("/root"),
        branch: "branch".into(),
        removed: false,
        checkout_grant: None,
    }
}

#[test]
fn release_rejects_active_workers() {
    assert!(!workflow_release_eligible(&AgentStatus::PendingInit));
    assert!(!workflow_release_eligible(&AgentStatus::Running));
    assert!(workflow_release_eligible(&AgentStatus::Completed(None)));
    assert!(workflow_release_eligible(&AgentStatus::Interrupted));
}

#[test]
fn workflow_workspace_ids_are_canonical_uuids_before_record_lookup() {
    let valid = uuid::Uuid::new_v4().to_string();
    assert!(validate_workflow_workspace_id(&valid).is_ok());
    let uppercase = valid.to_uppercase();
    for invalid in ["../owner", "/tmp/owner", "workspace-id", &uppercase] {
        assert!(validate_workflow_workspace_id(invalid).is_err(), "{invalid}");
    }
}

#[test]
fn grant_cannot_be_reused_by_another_workspace_or_worker() {
    let parent = ThreadId::new();
    let grant = CheckoutGrant {
        parent_thread_id: parent,
        run_id: "run".into(),
        worker_id: "worker".into(),
        workspace_id: "workspace".into(),
        path: path("/root/checkout"),
    };
    let mut workspace = workspace(parent);
    workspace.checkout_grant = Some(grant.copy());
    assert!(grant.matches("workspace", &workspace));
    assert!(!grant.matches("other-workspace", &workspace));
    workspace.worker_id = "other-worker".into();
    assert!(!grant.matches("workspace", &workspace));
    workspace.worker_id = "worker".into();
    workspace.parent_thread_id = ThreadId::new();
    assert!(!grant.matches("workspace", &workspace));
    workspace.parent_thread_id = parent;
    workspace.run_id = "other-run".into();
    assert!(!grant.matches("workspace", &workspace));
}

#[test]
fn explicit_worker_selection_overrides_role_while_omitted_preserves_it() {
    assert_eq!(
        workflow_effective_selection(Some("gpt-5.6-sol"), Some("gpt-5.6-luna"), "ignored", false),
        Some("gpt-5.6-luna")
    );
    assert_eq!(
        workflow_effective_selection(
            Some("gpt-5.6-sol"),
            Some("gpt-5.6-luna"),
            "gpt-5.6-sol",
            true,
        ),
        Some("gpt-5.6-sol")
    );
    assert_eq!(
        workflow_effective_selection(Some("medium"), Some("low"), "high", false),
        Some("low")
    );
    assert_eq!(
        workflow_effective_selection(Some("medium"), Some("low"), "high", true),
        Some("high")
    );
}

#[test]
fn fresh_identities_are_valid_and_different() {
    let first = fresh_id();
    assert!(validate_workflow_workspace_id(&first).is_ok());
    assert_ne!(first, fresh_id());
    assert_eq!(first.as_bytes()[14], b'4');
    assert_eq!((ThreadId::new().value >> 76) & 0xf, 4);
}

#[test]
fn thread_identities_survive_their_text() {
    let id = ThreadId { value: 0x0123_4567_89ab_cdef_0123_4567_89ab_cdef };
    assert_eq!(id.to_text(), "01234567-89ab-cdef-0123-456789abcdef");
    assert_eq!(ThreadId::from_string(id.to_text().as_str()).unwrap(), id);
    let error = ThreadId::from_string("nothing").unwrap_err();
    assert_eq!(error, uuid::Uuid::parse_str("nothing").unwrap_err().to_string());
}

#[test]
fn components_and_names_exclude_path_syntax() {
    assert!(workflow_id_component("run-1_a"));
    for bad in ["", "a/b", "..", "a b", "é"] {
        assert!(!workflow_id_component(bad), "{bad}");
        assert!(!plugin_name(bad), "{bad}");
        assert!(!save_name(bad), "{bad}");
    }
}

#[test]
fn records_stay_beside_the_git_directory() {
    let id = "01234567-89ab-cdef-0123-456789abcdef";
    let record = workflow_workspace_record_path(&path("/repo/.git"), id);
    assert!(record.starts_with(&path("/repo/.git")));
    assert!(record.text().contains(id));
}

#[test]
fn worktree_must_be_the_recorded_one() {
    let facts = WorktreeFacts {
        canonical: Some(path("/root/checkout")),
        top_level: Some(path("/root/checkout")),
        common_git_dir: Some(path("/root/.git")),
        head_reference: Some("refs/heads/branch".into()),
        descends_from_base: true,
    };
    assert!(workflow_worktree_matches(&facts, &path("/root/.git"), Some("branch")));
    assert!(!workflow_worktree_matches(&facts, &path("/root/.git"), Some("other")));
    assert!(!workflow_worktree_matches(&facts, &path("/elsewhere/.git"), Some("branch")));
}

#[test]
fn unchanged_workspace_has_its_base_and_a_clean_status() {
    let workspace = workspace(ThreadId { value: 1 });
    assert!(workflow_workspace_unchanged(
        &Some("base".into()),
        &Some(String::new()),
        &workspace
    ));
    assert!(!workflow_workspace_unchanged(
        &Some("other".into()),
        &Some(String::new()),
        &workspace
    ));
    assert!(!workflow_workspace_unchanged(
        &Some("base".into()),
        &Some(" M file".into()),
        &workspace
    ));
    assert!(!workflow_workspace_unchanged(&None, &Some(String::new()), &workspace));
}

#[test]
fn lock_is_owned_only_with_its_reason() {
    let id = "01234567-89ab-cdef-0123-456789abcdef";
    let reason = workflow_lock_reason(id);
    assert!(reason.contains(id));
    let listing = format!(
        "worktree /root/checkout\0HEAD abc\0branch refs/heads/branch\0locked {reason}\0\0"
    );
    let paths = listed_worktrees(&listing);
    assert_eq!(paths, vec!["/root/checkout".to_string()]);
    let owned = vec!["/root/checkout".to_string()];
    assert!(workflow_owned_lock(&listing, &owned, id));
    assert!(!workflow_owned_lock(&listing, &owned, "another"));
    assert!(!workflow_owned_lock(&listing, &vec!["/other".to_string()], id));
}

#[test]
fn lease_ends_with_the_release() {
    let mut workspace = workspace(ThreadId { value: 1 });
    workflow_release_lease(&mut workspace);
    assert!(workspace.released);
}

#[test]
fn checkout_lies_below_the_repository_and_below_no_symlink() {
    let cwd = path("/work/repo");
    let checkout = workflow_checkout_path(&cwd, "run", "worker");
    assert!(checkout.starts_with(&cwd));
    let branch = workflow_checkout_branch("run", "worker", "01234567-89ab-cdef-0123-456789abcdef");
    assert!(branch.contains("run"));
    let clear: Vec<bool> = Vec::new();
    let canonical = Ok(path("/work/repo"));
    assert!(validate_checkout_path(&canonical, &checkout, &clear).is_ok());
    assert_eq!(
        validate_checkout_path(&canonical, &checkout, &vec![true]).unwrap_err(),
        "workflow checkout path contains a symlink"
    );
    assert_eq!(
        validate_checkout_path(&Ok(path("/elsewhere")), &checkout, &clear).unwrap_err(),
        "workflow checkout is outside its recorded repository"
    );
    assert_eq!(
        validate_checkout_path(&Err("no such directory".into()), &checkout, &clear).unwrap_err(),
        "no such directory"
    );
}

#[test]
fn chain_leads_from_the_root_to_the_path() {
    let chain = path_chain(&path("/a"), &path("/a/b/c"));
    let texts: Vec<String> = chain.iter().map(|path| path.text()).collect();
    assert!(texts.contains(&"/a/b/c".to_string()));
    assert!(texts.contains(&"/a/b".to_string()));
}

#[test]
fn record_is_not_stored_through_a_symlink() {
    assert_eq!(check_record_place(&vec![false, false]), Ok(()));
    for symlinks in [vec![true, false], vec![false, true], vec![true, true]] {
        assert_eq!(
            check_record_place(&symlinks),
            Err("workflow ownership metadata contains a symlink".to_string())
        );
    }
}
