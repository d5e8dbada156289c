//! Tests of the search for the base commit, of the daemon's place, and of digests and paths.
use ultracode_workflow::backend::{
    check_private_directory, control_socket, workflow_backend_state_dir, BackendDirectory,
};
use ultracode_workflow::base::{
    fetch_is_stale, origin_default_ref, refresh_budget, strings, BaseProgress, BaseSearch, BaseStep,
    WorktreeBaseRef,
};
use ultracode_workflow::digest::{digest_bytes, digest_text};
use ultracode_workflow::path::AbsolutePath;
use ultracode_workflow::text::{
    contains, cut_utf16, join, longer_than_utf16, number, split, strip_prefix, trim, utf16_count,
};

fn reply(search: BaseSearch, base: WorktreeBaseRef, network: bool, text: Option<&str>) -> BaseProgress {
    search.advance(base, network, Ok::<_, String>(text.map(str::to_owned)), false).unwrap()
}

fn run(progress: BaseProgress) -> BaseSearch {
    match progress {
        BaseProgress::Run(search) => search,
        BaseProgress::Done(base) => panic!("{base:?}"),
    }
}

fn done(progress: BaseProgress) -> Option<String> {
    match progress {
        BaseProgress::Done(base) => base,
        BaseProgress::Run(search) => panic!("{search:?}"),
    }
}

#[test]
fn head_is_the_base_where_it_is_asked_for() {
    let search = BaseSearch::start();
    assert_eq!(search.words(), vec!["rev-parse", "--verify", "HEAD^{commit}"]);
    assert_eq!(
        done(reply(search, WorktreeBaseRef::Head, true, Some("abc"))),
        Some("abc".to_string())
    );
    assert_eq!(done(reply(BaseSearch::start(), WorktreeBaseRef::Fresh, true, None)), None);
}

#[test]
fn fresh_base_is_the_fetched_default_branch() {
    let fresh = WorktreeBaseRef::Fresh;
    let search = run(reply(BaseSearch::start(), fresh, true, Some("abc")));
    assert_eq!(search.step, BaseStep::Origin);
    let search = run(reply(search, fresh, true, Some("url")));
    let search = run(reply(search, fresh, true, Some("refs/remotes/origin/main")));
    let search = run(search.advance(fresh, true, Ok::<_, String>(Some(".git".to_string())), true).unwrap());
    assert_eq!(search.step, BaseStep::Fetch);
    assert!(search.writes());
    assert_eq!(
        search.words(),
        vec![
            "fetch",
            "--quiet",
            "--no-tags",
            "origin",
            "+refs/heads/main:refs/remotes/origin/main"
        ]
    );
    let search = run(reply(search, fresh, true, None));
    assert_eq!(search.words(), vec!["rev-parse", "--verify", "refs/remotes/origin/main^{commit}"]);
    assert_eq!(done(reply(search, fresh, true, Some("def"))), Some("def".to_string()));
}

#[test]
fn absent_origin_falls_back_to_the_current_head() {
    let fresh = WorktreeBaseRef::Fresh;
    let search = run(reply(BaseSearch::start(), fresh, true, Some("abc")));
    assert_eq!(done(reply(search, fresh, true, None)), Some("abc".to_string()));
}

#[test]
fn permission_denial_aborts_base_selection_but_missing_origin_keeps_head() {
    for denial in [Some("never policy"), Some("granular policy"), Some("user declined"), None] {
        let mut commands = Vec::new();
        let mut search = BaseSearch::start();
        let result = loop {
            let words = search.words();
            let response = match words.first().map(String::as_str) {
                Some("rev-parse") => Ok(Some("head-commit".to_string())),
                Some("remote") => denial.map_or(Ok(None), Err),
                _ => panic!("permission denial must not reach another command"),
            };
            commands.push(words);
            match search.advance(WorktreeBaseRef::Fresh, true, response, false) {
                Ok(BaseProgress::Run(next)) => search = next,
                Ok(BaseProgress::Done(commit)) => break Ok(commit),
                Err(reason) => break Err(reason),
            }
        };
        assert_eq!(commands.len(), 2);
        assert_eq!(commands[1], vec!["remote", "get-url", "origin"]);
        match denial {
            Some(reason) => assert_eq!(result, Err(reason)),
            None => assert_eq!(result, Ok(Some("head-commit".to_string()))),
        }
    }
}

#[test]
fn without_a_network_nothing_is_fetched() {
    let fresh = WorktreeBaseRef::Fresh;
    let search = run(reply(BaseSearch::start(), fresh, false, Some("abc")));
    let search = run(reply(search, fresh, false, Some("url")));
    let search = run(reply(search, fresh, false, None));
    assert_eq!(
        done(
            search.advance(fresh, false, Ok::<_, String>(Some(".git".to_string())), true).unwrap()
        ),
        Some("abc".to_string())
    );
}

#[test]
fn default_branch_is_found_out_once() {
    let fresh = WorktreeBaseRef::Fresh;
    let search = run(reply(BaseSearch::start(), fresh, true, Some("abc")));
    let search = run(reply(search, fresh, true, Some("url")));
    let search = run(reply(search, fresh, true, None));
    let search = run(reply(search, fresh, true, None));
    assert_eq!(search.step, BaseStep::SetHead);
    let search = run(reply(search, fresh, true, None));
    assert_eq!(search.step, BaseStep::DefaultRefAgain);
    assert_eq!(done(reply(search, fresh, true, None)), Some("abc".to_string()));
}

#[test]
fn only_branches_of_origin_are_defaults() {
    let default = |text: &str| origin_default_ref(Some(text.to_string()));
    assert_eq!(default("refs/remotes/origin/main"), Some("refs/remotes/origin/main".to_string()));
    assert_eq!(default("refs/remotes/origin/HEAD"), None);
    assert_eq!(default("refs/heads/main"), None);
    assert_eq!(origin_default_ref(None), None);
}

#[test]
fn day_old_fetches_are_stale_and_refreshing_takes_five_seconds() {
    assert!(fetch_is_stale(None));
    assert!(!fetch_is_stale(Some((86_399, 999_999_999))));
    assert!(fetch_is_stale(Some((86_400, 1))));
    assert_eq!(refresh_budget(0), 5_000);
    assert_eq!(refresh_budget(4_000), 1_000);
    assert_eq!(refresh_budget(9_000), 0);
}

#[test]
fn words_are_copied() {
    assert_eq!(strings(&["a", "b"]), vec!["a".to_string(), "b".to_string()]);
}

fn directory(executable: &str, contents: &str) -> AbsolutePath {
    let home = AbsolutePath::parse("/home/user/.codex").unwrap();
    match workflow_backend_state_dir(&home, executable.as_bytes(), contents.as_bytes(), 501) {
        BackendDirectory::Home(path) => path,
        BackendDirectory::Short(path) => panic!("{path:?}"),
    }
}

#[test]
fn daemons_of_different_executables_are_apart() {
    let old = directory("/bin/codex", "old executable");
    assert_eq!(old.text(), directory("/bin/codex", "old executable").text());
    assert_ne!(old.text(), directory("/bin/codex", "new executable").text());
    assert_ne!(old.text(), directory("/bin/other-codex", "old executable").text());
    let identity = digest_text("/bin/codex\0old executable");
    assert_eq!(
        control_socket(&old).text(),
        format!("/home/user/.codex/ultracode-daemon/{}/control.sock", &identity[..16])
    );
}

#[test]
fn long_homes_get_a_short_private_directory() {
    let home = AbsolutePath::parse(&format!("/{}", "h".repeat(90))).unwrap();
    match workflow_backend_state_dir(&home, b"/bin/codex", b"executable", 501) {
        BackendDirectory::Short(path) => {
            assert!(path.text().starts_with("/tmp/codex-workflow-501-"));
            assert!(control_socket(&path).text().len() <= 100);
        }
        BackendDirectory::Home(path) => panic!("{path:?}"),
    }
    assert!(check_private_directory(true, 501, 0o700, 501).is_ok());
    assert!(check_private_directory(true, 501, 0o755, 501).is_err());
    assert!(check_private_directory(true, 0, 0o700, 501).is_err());
    assert!(check_private_directory(false, 501, 0o700, 501).is_err());
}

#[test]
fn digests_are_those_of_sha256() {
    let empty = "e3b0c44298fc1c149afbf4c8996fb92427ae41e4649b934ca495991b7852b855";
    let abc = "ba7816bf8f01cfea414140de5dae2223b00361a396177a9cb410ff61f20015ad";
    assert_eq!(digest_text(""), empty);
    assert_eq!(digest_bytes(b"abc"), abc);
    assert_eq!(digest_text("abc"), abc);
}

#[test]
fn paths_are_read_and_written_by_component() {
    let path = AbsolutePath::parse("/a//b/./c/").unwrap();
    assert_eq!(path.text(), "/a/b/c");
    assert!(AbsolutePath::parse("a/b").is_none());
    assert_eq!(path.join("d/e").text(), "/a/b/c/d/e");
    assert_eq!(path.join("/x").text(), "/x");
    assert_eq!(path.parent().unwrap().text(), "/a/b");
    assert!(path.starts_with(&AbsolutePath::parse("/a/b").unwrap()));
    assert!(!AbsolutePath::parse("/ab").unwrap().starts_with(&AbsolutePath::parse("/a").unwrap()));
    assert!(path.same(&path.copy()));
    assert!(AbsolutePath::parse("/").unwrap().parent().is_none());
}

#[test]
fn texts_are_cut_and_put_together() {
    assert_eq!(trim(" \u{3000}a b\n"), "a b");
    assert_eq!(trim("\u{9}\u{b}\u{85}\u{a0}\u{1680}\u{2028}x\u{200a}\u{205f}"), "x");
    assert_eq!(trim("\u{200b}x\u{180e}"), "\u{200b}x\u{180e}");
    assert_eq!(split("a\nb\n", '\n'), vec!["a", "b", ""]);
    assert_eq!(join(&split("a/b", '/'), "-"), "a-b");
    assert_eq!(strip_prefix("prefix-x", "prefix-"), Some("x".to_string()));
    assert_eq!(strip_prefix("x", "prefix-"), None);
    assert!(contains("abc", "bc") && !contains("abc", "cb"));
    assert_eq!(number(0), "0");
    assert_eq!(number(u64::MAX), u64::MAX.to_string());
    assert_eq!(utf16_count("a😀"), 3);
    assert_eq!(cut_utf16("a😀", 2), "a");
    assert!(longer_than_utf16("a😀", 2) && !longer_than_utf16("a😀", 3));
}
