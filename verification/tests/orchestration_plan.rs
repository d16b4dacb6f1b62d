//! Epic orchestration planning, idempotence, and phase status.

use handy_devops::epic::{EpicInfo, PhaseConfig, SubIssueConfig};
use handy_devops::github::GitHubIssue;
use handy_devops::orchestration::{
    create_phase_issue, estimate_phase_time, get_epic_phase_status, plan_orchestration,
    truncate_title, StartOrchestrationConfig,
};

fn phase(name: &str, approach: &str, tasks: Vec<&str>) -> PhaseConfig {
    PhaseConfig {
        name: name.to_string(),
        description: format!("{} work", name),
        approach: approach.to_string(),
        tasks: tasks.into_iter().map(|s| s.to_string()).collect(),
        files: vec![],
        dependencies: vec![],
    }
}

fn epic(phases: Vec<PhaseConfig>) -> EpicInfo {
    EpicInfo {
        epic_number: 100,
        repo: "org/repo".to_string(),
        work_repo: "org/repo".to_string(),
        title: "Epic".to_string(),
        url: "https://github.com/org/repo/issues/100".to_string(),
        phases,
    }
}

fn orchestration_config(phases: Vec<u32>) -> StartOrchestrationConfig {
    StartOrchestrationConfig {
        phases,
        auto_spawn_agents: false,
        default_agent_type: "coder".to_string(),
        worktree_base: String::new(),
    }
}

fn issue_with_body(number: u64, body: String) -> GitHubIssue {
    GitHubIssue {
        number,
        title: format!("Issue {}", number),
        body: Some(body),
        state: "open".to_string(),
        url: format!("https://github.com/org/repo/issues/{}", number),
        labels: vec![],
        assignees: vec![],
        author: "bot".to_string(),
        created_at: "t".to_string(),
        updated_at: "t".to_string(),
        repo: "org/repo".to_string(),
    }
}

fn created_issue_for(cfg: &SubIssueConfig, number: u64) -> GitHubIssue {
    let body = handy_devops::epic::format_sub_issue_body(100, "org/repo", "org/repo", cfg);
    issue_with_body(number, body)
}

#[test]
fn orchestration_is_idempotent() {
    let e = epic(vec![phase("One", "agent-assisted", vec![]), phase("Two", "manual", vec![])]);
    let cfg = orchestration_config(vec![1, 2]);

    let first = plan_orchestration(&e, &cfg, &vec![]);
    assert_eq!(first.to_create.len(), 2);
    assert_eq!(first.reused.len(), 0);

    // the created sub-issues, as the tracker would hand them back
    let existing: Vec<GitHubIssue> = first
        .to_create
        .iter()
        .enumerate()
        .map(|(k, c)| created_issue_for(c, 200 + k as u64))
        .collect();

    let second = plan_orchestration(&e, &cfg, &existing);
    assert_eq!(second.to_create.len(), 0);
    assert_eq!(second.reused.len(), 2);
    assert_eq!(second.started_phases, vec![1, 2]);
    // the reused entries come from the found issues, with one warning each
    assert_eq!(second.reused[0].issue_number, 200);
    assert_eq!(second.reused[0].title, existing[0].title);
    assert_eq!(second.reused[0].url, existing[0].url);
    assert_eq!(second.reused[1].issue_number, 201);
    assert_eq!(second.warnings.len(), 2);
    assert!(second.warnings[0].contains("already has issue #200"));
    assert!(second.warnings[1].contains("already has issue #201"));
}

#[test]
fn invalid_phases_only_warn() {
    let e = epic(vec![phase("One", "manual", vec![])]);
    let plan = plan_orchestration(&e, &orchestration_config(vec![1, 5]), &vec![]);
    assert_eq!(plan.to_create.len(), 1);
    assert_eq!(plan.warnings.len(), 1);
    assert!(plan.warnings[0].contains("Phase 5 does not exist"));
}

#[test]
fn empty_request_starts_the_first_phase() {
    let e = epic(vec![phase("One", "manual", vec![]), phase("Two", "manual", vec![])]);
    let plan = plan_orchestration(&e, &orchestration_config(vec![]), &vec![]);
    assert_eq!(plan.to_create.len(), 1);
    assert_eq!(plan.to_create[0].phase, 1);
}

#[test]
fn phase_issue_carries_the_phase_plan() {
    let p = phase("Core", "agent-assisted", vec!["a", "b", "c", "d"]);
    let cfg = create_phase_issue(2, &p, "org/work", "coder");
    assert_eq!(cfg.title, "Phase 2: Core");
    assert_eq!(cfg.phase, 2);
    assert_eq!(cfg.agent_type, "coder");
    assert_eq!(cfg.estimated_time, "1-2 days");
    assert_eq!(cfg.acceptance_criteria[0], "4 tasks completed");
    assert_eq!(cfg.dependencies, "None");
    assert!(cfg.tasks.contains("- a"));

    let manual = create_phase_issue(1, &phase("M", "manual", vec![]), "org/work", "coder");
    assert_eq!(manual.agent_type, "manual");
    assert_eq!(manual.estimated_time, "2-4 hours");
}

#[test]
fn time_estimates_follow_task_counts() {
    assert_eq!(estimate_phase_time(&phase("a", "manual", vec![])), "2-4 hours");
    assert_eq!(estimate_phase_time(&phase("a", "manual", vec!["1"])), "4-8 hours");
    assert_eq!(estimate_phase_time(&phase("a", "manual", vec!["1", "2", "3", "4"])), "1-2 days");
    assert_eq!(
        estimate_phase_time(&phase("a", "manual", vec!["1", "2", "3", "4", "5", "6", "7"])),
        "2-3 days"
    );
}

#[test]
fn titles_are_bounded_at_word_boundaries() {
    assert_eq!(truncate_title("  short  "), "short");
    let long = "word ".repeat(30);
    let cut = truncate_title(&long);
    assert!(cut.len() <= 100);
    assert!(cut.ends_with("..."));
    assert_eq!(cut, format!("{}word...", "word ".repeat(18)));
}

#[test]
fn phase_status_prefers_sub_issue_evidence() {
    let phases = vec![phase("One", "manual", vec![])];
    // the body claims the phase is complete, but an open sub-issue exists
    let body = "### Phase 1: One\n**Status**: Complete\n";
    let sub = issue_with_body(
        201,
        "**Epic**: #100\n**Phase**: 1\n".to_string(),
    );
    let statuses = get_epic_phase_status(100, &phases, &vec![sub.clone()], body);
    assert_eq!(statuses.len(), 1);
    assert_eq!(statuses[0].total_issues, 1);
    assert_eq!(statuses[0].completed_issues, 0);
    assert_eq!(statuses[0].status, "in_progress");

    // the same sub-issue closed makes the phase completed
    let closed = GitHubIssue { state: "closed".to_string(), ..sub };
    let statuses = get_epic_phase_status(100, &phases, &vec![closed], body);
    assert_eq!(statuses[0].status, "completed");

    // with no sub-issues the embedded text decides
    let statuses = get_epic_phase_status(100, &phases, &vec![], body);
    assert_eq!(statuses[0].total_issues, 0);
    assert_eq!(statuses[0].status, "completed");

    // and without it the phase has not started
    let statuses = get_epic_phase_status(100, &phases, &vec![], "");
    assert_eq!(statuses[0].status, "not_started");
}
