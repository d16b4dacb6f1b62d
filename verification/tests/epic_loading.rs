//! Loading epics back from issues, progress recounts, and assignments.

use handy_devops::epic::{
    build_epic_recovery, format_epic_body, load_epic, update_epic_progress, EpicConfig, EpicInfo,
    ExistingSubIssue, PhaseConfig,
};
use handy_devops::github::GitHubIssue;
use handy_devops::lifecycle::{format_pr_body, spawn_agent_from_issue, SpawnAgentConfig};
use handy_devops::recovery::AgentMetadata;
use handy_devops::store::{
    set_active_epic_from_recovery, skip_issue, update_epic_sub_issue_agent, EpicStoreState,
};

fn issue(number: u64, title: &str, body: Option<&str>, labels: Vec<&str>) -> GitHubIssue {
    GitHubIssue {
        number,
        title: title.to_string(),
        body: body.map(|s| s.to_string()),
        state: "open".to_string(),
        url: format!("https://github.com/o/r/issues/{}", number),
        labels: labels.into_iter().map(|s| s.to_string()).collect(),
        assignees: vec![],
        author: "a".to_string(),
        created_at: "t".to_string(),
        updated_at: "t".to_string(),
        repo: "o/r".to_string(),
    }
}

#[test]
fn epics_round_trip_through_load_epic() {
    let config = EpicConfig {
        title: "Big Plan".to_string(),
        repo: "o/r".to_string(),
        work_repo: Some("o/work".to_string()),
        goal: "Do it.".to_string(),
        success_metrics: vec![],
        phases: vec![PhaseConfig {
            name: "One".to_string(),
            description: "First things.".to_string(),
            approach: "manual".to_string(),
            tasks: vec![],
            files: vec![],
            dependencies: vec![],
        }],
        labels: vec![],
    };
    let body = format_epic_body(&config, "o/work");
    let epic_issue = issue(100, "[EPIC] Big Plan", Some(&body), vec![]);
    let info = load_epic("o/r", 100, &epic_issue).unwrap();
    assert_eq!(info.title, "Big Plan");
    assert_eq!(info.work_repo, "o/work");
    assert_eq!(info.phases.len(), 1);
    assert_eq!(info.phases[0].name, "One");

    // an epic label marks it too, without regard to case
    let labelled = issue(101, "Plain Title", Some(&body), vec!["Epic"]);
    assert!(load_epic("o/r", 101, &labelled).is_ok());

    // anything else is refused before any action
    let e = load_epic("o/r", 102, &issue(102, "Plain", None, vec![])).unwrap_err();
    assert_eq!(e, "Issue #102 is not an epic (missing [EPIC] prefix or 'epic' label)");
}

#[test]
fn progress_recount_patches_the_body() {
    let body = "# E\n\n## Progress\n0/0 sub-issues completed (0%)\n\n## Notes\n";
    let marker = "x\n**Epic**: #100\ny";
    let mut closed = issue(201, "S1", Some(marker), vec![]);
    closed.state = "CLOSED".to_string();
    let open_one = issue(202, "S2", Some(marker), vec![]);
    let unrelated = issue(203, "S3", Some("no marker"), vec![]);

    let (progress, updated) =
        update_epic_progress(100, body, &vec![closed, open_one, unrelated]);
    assert_eq!(progress.total, 2);
    assert_eq!(progress.completed, 1);
    assert_eq!(progress.percentage, 50);
    assert!(updated.contains("1/2 sub-issues completed (50%)"));
}

#[test]
fn spawn_from_issue_resolves_with_precedence() {
    let body = "**Agent Type**: aider\n**Work Repository**: o/work\n";
    let config = SpawnAgentConfig {
        issue_ref: "o/r#7".to_string(),
        agent_type: None,
        session_name: None,
        work_repo: None,
    };
    let r = spawn_agent_from_issue(&config, body).unwrap();
    assert_eq!(r.repo, "o/r");
    assert_eq!(r.issue_number, 7);
    assert_eq!(r.agent_type, "aider");
    assert_eq!(r.work_repo, "o/work");
    assert_eq!(r.session_name, "handy-agent-7");
    assert_eq!(r.branch_name, "issue-7");

    // overrides win over the body markers
    let with_overrides = SpawnAgentConfig {
        issue_ref: "o/r#7".to_string(),
        agent_type: Some("coder".to_string()),
        session_name: Some("handy-agent-custom".to_string()),
        work_repo: Some("o/other".to_string()),
    };
    let r2 = spawn_agent_from_issue(&with_overrides, body).unwrap();
    assert_eq!(r2.agent_type, "coder");
    assert_eq!(r2.work_repo, "o/other");
    assert_eq!(r2.session_name, "handy-agent-custom");

    // with nothing to say which agent, the spawn is refused
    let bare = SpawnAgentConfig {
        issue_ref: "o/r#7".to_string(),
        agent_type: None,
        session_name: None,
        work_repo: None,
    };
    let e = spawn_agent_from_issue(&bare, "no markers").unwrap_err();
    assert!(e.contains("Agent type not specified"));

    // and the work repository falls back to the issue's own
    let only_agent = spawn_agent_from_issue(&bare, "**Agent Type**: coder\n").unwrap();
    assert_eq!(only_agent.work_repo, "o/r");
}

#[test]
fn pr_bodies_close_and_attribute() {
    let m = AgentMetadata {
        session: "handy-agent-7".to_string(),
        issue_ref: Some("o/r#7".to_string()),
        repo: Some("o/r".to_string()),
        worktree: None,
        agent_type: "coder".to_string(),
        machine_id: "m".to_string(),
        started_at: "t".to_string(),
    };
    let body = format_pr_body("Fix the thing", 7, &m);
    assert!(body.starts_with("## Summary\nFix the thing\n"));
    assert!(body.contains("Implementation of #7 via DevOps agent."));
    assert!(body.contains("Closes #7"));
    assert!(body.ends_with("Submitted by coder agent `handy-agent-7`\n"));
}

#[test]
fn skipped_issues_keep_their_reason() {
    let i = issue(9, "Skip me", None, vec![]);
    let item = skip_issue(&i, "o/r", Some("duplicate of another"));
    assert_eq!(item.status, handy_devops::pipeline::PipelineStatus::Skipped);
    assert_eq!(item.error, Some("duplicate of another".to_string()));
    assert!(item.completed_at.is_some());
    assert_eq!(item.agent_type, "none");

    let silent = skip_issue(&i, "o/r", None);
    assert!(silent.error.is_none());
}

#[test]
fn agent_assignments_are_recorded_in_the_store() {
    let info = EpicInfo {
        epic_number: 50,
        repo: "o/r".to_string(),
        work_repo: "o/r".to_string(),
        title: "E".to_string(),
        url: "u".to_string(),
        phases: vec![],
    };
    let sub = ExistingSubIssue {
        issue_number: 201,
        title: "S".to_string(),
        phase: Some(1),
        state: "open".to_string(),
        labels: vec![],
        url: "u".to_string(),
        has_agent_working: false,
        pr_url: None,
        pr_number: None,
    };
    let recovery = build_epic_recovery(info, String::new(), vec![sub]);
    let mut store = EpicStoreState::new();
    set_active_epic_from_recovery(&mut store, &recovery);

    update_epic_sub_issue_agent(&mut store, 201, Some("handy-agent-201"), Some("coder")).unwrap();
    let active = store.active_epic.as_ref().unwrap();
    assert_eq!(active.sub_issues[0].session_name, Some("handy-agent-201".to_string()));
    assert_eq!(active.sub_issues[0].agent_session, Some("handy-agent-201".to_string()));
    assert_eq!(active.sub_issues[0].agent_type, Some("coder".to_string()));
    assert!(active.sub_issues[0].has_agent_working);

    // clearing the session clears the working flag
    update_epic_sub_issue_agent(&mut store, 201, None, None).unwrap();
    let active = store.active_epic.as_ref().unwrap();
    assert!(active.sub_issues[0].session_name.is_none());
    assert!(!active.sub_issues[0].has_agent_working);

    let e = update_epic_sub_issue_agent(&mut store, 999, None, None).unwrap_err();
    assert_eq!(e, "Sub-issue 999 not found in active epic");
}
