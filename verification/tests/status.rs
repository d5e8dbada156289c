//! Tests of the line about running workflows.
use ultracode_workflow::status::{
    guideline_choices, run_progress, shown_status_line, workflow_size_label, workflow_status_line,
    WorkflowSizeGuideline,
};

fn json(text: &str) -> serde_json::Value {
    serde_json::from_str(text).expect("valid test JSON")
}

fn repeated(item: &str, count: usize) -> String {
    vec![item; count].join(",")
}

fn line(snapshot: &serde_json::Value, large: Vec<bool>) -> String {
    let line = workflow_status_line(snapshot, &large).unwrap();
    format!("{}{}", line.summary, line.tail)
}

#[test]
fn workflow_footer_warns_from_real_progress_and_clears_terminal_runs() {
    let workers = repeated(r#"{"startedAt":"now","usage":{"totalTokens":1}}"#, 26);
    let mut snapshot =
        json(&format!(r#"{{"runs":[{{"status":"running","workers":[{workers}]}}]}}"#));
    let progress = run_progress(&snapshot["runs"][0]);
    assert_eq!((progress.agents, progress.started, progress.tokens), (26, 26, 26));
    let text = line(&snapshot, vec![true]);
    assert!(text.contains("1 workflow · 26 agents"));
    assert!(text.contains("Large workflow · /workflows to stop"));
    snapshot["runs"][0]["status"] = json(r#""completed""#);
    assert!(workflow_status_line(&snapshot, &vec![true]).is_none());
}

#[test]
fn workflow_footer_keeps_counts_when_ultracode_suppresses_warning() {
    let snapshot = json(&format!(
        r#"{{"runs":[{{"status":"running","workers":[{}]}},{{"status":"paused","workers":[]}},{{"status":"failed","workers":[{{}}]}}]}}"#,
        repeated("{}", 26)
    ));
    let text = line(&snapshot, vec![false, false, false]);
    assert!(text.contains("2 workflows · 26 agents · /workflows"));
    assert!(!text.contains("Large workflow"));
}

#[test]
fn workflow_footer_uses_projection_and_explicit_guideline() {
    let workers = repeated(r#"{"startedAt":"now","usage":{"total":{"totalTokens":1}}}"#, 6);
    let snapshot =
        json(&format!(r#"{{"runs":[{{"status":"running","workers":[{workers}]}}]}}"#));
    let progress = run_progress(&snapshot["runs"][0]);
    assert_eq!((progress.agents, progress.started, progress.tokens), (6, 6, 6));
    assert!(!line(&snapshot, vec![false]).contains("Large workflow"));
    assert!(line(&snapshot, vec![true]).contains("Large workflow"));
    let pending = json(&format!(
        r#"{{"runs":[{{"status":"running","workers":[{}]}}]}}"#,
        repeated("{}", 22)
    ));
    let progress = run_progress(&pending["runs"][0]);
    assert_eq!((progress.agents, progress.started, progress.tokens), (22, 0, 0));
    assert!(line(&pending, vec![true]).contains("Large workflow"));
}

#[test]
fn medium_default_and_explicit_labels_differ() {
    assert_eq!(workflow_size_label(WorkflowSizeGuideline::Medium, true), "medium (default)");
    assert_eq!(
        workflow_size_label(WorkflowSizeGuideline::Medium, false),
        "medium (aim for <15 agents)"
    );
}

#[test]
fn named_run_is_told_with_its_progress() {
    let snapshot = json(
        r#"{"runs":[{"status":"running","name":"re\u0007view","workers":[{"status":"completed"},{}]},{"status":"paused"}]}"#,
    );
    assert_eq!(
        line(&snapshot, Vec::new()),
        " review · 1/2 agents · running · +1 workflows · /workflows"
    );
}

#[test]
fn name_without_anything_to_see_is_not_told() {
    let snapshot = json(r#"{"runs":[{"status":"running","name":" \u0007 ","workers":[{}]}]}"#);
    assert_eq!(line(&snapshot, Vec::new()), "  1 workflow · 1 agent · /workflows");
}

#[test]
fn tokens_are_capped_at_the_largest_number() {
    let run = json(
        r#"{"workers":[{"usage":{"totalTokens":18446744073709551615}},{"usage":{"totalTokens":2}},{"usage":{"totalTokens":"3"}}]}"#,
    );
    assert_eq!(run_progress(&run).tokens, u64::MAX);
}

#[test]
fn disabled_workflows_show_no_line() {
    let snapshot = json(r#"{"runs":[{"status":"running"}]}"#);
    assert!(shown_status_line(true, &snapshot, &Vec::new()).is_none());
    assert!(shown_status_line(false, &snapshot, &Vec::new()).is_some());
    assert!(shown_status_line(false, &json("{}"), &Vec::new()).is_none());
}

#[test]
fn medium_guideline_is_current_by_default() {
    let choices = guideline_choices(None);
    let current: Vec<bool> = choices.iter().map(|choice| choice.is_current).collect();
    assert_eq!(current, vec![false, false, true, false]);
    assert_eq!(choices[0].description, "No agent-count guideline");
    let chosen = guideline_choices(Some(WorkflowSizeGuideline::Large));
    assert!(chosen[3].is_current && !chosen[2].is_current);
    assert_eq!(chosen[2].name, "medium (aim for <15 agents)");
}
