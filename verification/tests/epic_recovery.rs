//! Recovery of epic state from the tracker alone, and the tracked store.

use handy_devops::epic::{
    build_epic_recovery, sub_issue_phase, EpicInfo, ExistingSubIssue, PhaseConfig,
};
use handy_devops::orchestrator::{
    check_and_cleanup_merged_pr, cleanup_agent, complete_agent_work_body,
};
use handy_devops::recovery::{AgentMetadata, SessionStatus, TmuxSession};
use handy_devops::store::{set_active_epic_from_recovery, EpicStoreState, TrackedPhaseStatus};

fn phase(name: &str) -> PhaseConfig {
    PhaseConfig {
        name: name.to_string(),
        description: "d".to_string(),
        approach: "manual".to_string(),
        tasks: vec![],
        files: vec![],
        dependencies: vec![],
    }
}

fn sub(number: u32, phase: Option<u32>, state: &str, working: bool, labels: Vec<&str>) -> ExistingSubIssue {
    ExistingSubIssue {
        issue_number: number,
        title: format!("Sub {}", number),
        phase,
        state: state.to_string(),
        labels: labels.into_iter().map(|s| s.to_string()).collect(),
        url: format!("https://github.com/o/r/issues/{}", number),
        has_agent_working: working,
        pr_url: None,
        pr_number: None,
    }
}

fn epic() -> EpicInfo {
    EpicInfo {
        epic_number: 50,
        repo: "o/r".to_string(),
        work_repo: "o/r".to_string(),
        title: "E".to_string(),
        url: "u".to_string(),
        phases: vec![phase("One"), phase("Two"), phase("Three")],
    }
}

#[test]
fn sub_issue_phases_are_read_from_bodies() {
    assert_eq!(sub_issue_phase("x\n**Phase**: 2\ny"), Some(2));
    assert_eq!(sub_issue_phase("no marker"), None);
}

#[test]
fn recovery_reconstructs_progress_and_gaps() {
    let subs = vec![
        sub(201, Some(1), "closed", false, vec![]),
        sub(202, Some(2), "open", true, vec![]),
        sub(203, Some(2), "open", false, vec!["todo"]),
    ];
    let info = build_epic_recovery(epic(), "body".to_string(), subs);
    assert_eq!(info.progress.total, 3);
    assert_eq!(info.progress.completed, 1);
    assert_eq!(info.progress.percentage, 33);
    assert_eq!(info.progress.remaining, 2);
    assert_eq!(info.phases_without_issues, vec![3]);
    assert_eq!(info.ready_for_agents.len(), 1);
    assert_eq!(info.ready_for_agents[0].issue_number, 203);
    assert_eq!(info.in_progress.len(), 1);
    assert_eq!(info.in_progress[0].issue_number, 202);
}

#[test]
fn recovered_phase_status_follows_sub_issue_evidence() {
    // the body claims phase 1 is not started and phase 3 is complete
    let body = "## Phases\n### Phase 1: One\n**Status**: Not Started\n### Phase 3: Three\n**Status**: Complete\n";
    let subs = vec![
        sub(201, Some(1), "closed", false, vec![]),
        sub(202, Some(2), "open", true, vec![]),
    ];
    let info = build_epic_recovery(epic(), body.to_string(), subs);
    let mut store = EpicStoreState::new();
    let active = set_active_epic_from_recovery(&mut store, &info);

    // phase 1 has a closed sub-issue: completed, whatever the body says
    assert_eq!(active.phases[0].status, TrackedPhaseStatus::Completed);
    assert_eq!(active.phases[0].total_count, 1);
    assert_eq!(active.phases[0].completed_count, 1);
    // phase 2 has an active sub-issue
    assert_eq!(active.phases[1].status, TrackedPhaseStatus::InProgress);
    // phase 3 has none: the body's embedded status decides
    assert_eq!(active.phases[2].status, TrackedPhaseStatus::Completed);
    assert_eq!(active.phases[2].total_count, 0);

    assert_eq!(active.sub_issues.len(), 2);
    assert!(active.sub_issues[0].agent_type.is_none());
    assert!(store.active_epic.is_some());
}

#[test]
fn agent_statuses_report_locality() {
    let sessions = vec![
        TmuxSession {
            name: "handy-agent-1".to_string(),
            attached: true,
            windows: 1,
            created: 0,
            metadata: Some(AgentMetadata {
                session: "handy-agent-1".to_string(),
                issue_ref: Some("o/r#1".to_string()),
                repo: Some("o/r".to_string()),
                worktree: None,
                agent_type: "coder".to_string(),
                machine_id: "here".to_string(),
                started_at: "t".to_string(),
            }),
            status: SessionStatus::Running,
        },
        TmuxSession {
            name: "handy-master".to_string(),
            attached: false,
            windows: 1,
            created: 0,
            metadata: None,
            status: SessionStatus::Stopped,
        },
    ];
    let statuses = handy_devops::orchestrator::list_agent_statuses(&sessions, "here");
    assert_eq!(statuses.len(), 2);
    assert_eq!(statuses[0].issue_number, Some(1));
    assert!(statuses[0].is_local);
    assert_eq!(statuses[1].agent_type, "unknown");
    assert!(!statuses[1].is_local);

    let local = handy_devops::orchestrator::list_local_agent_statuses(&statuses);
    assert_eq!(local.len(), 1);
    let remote = handy_devops::orchestrator::list_remote_agent_statuses(&statuses);
    assert_eq!(remote.len(), 1);
}

#[test]
fn completion_bodies_close_their_issues() {
    assert_eq!(
        complete_agent_work_body(Some("Did the thing."), Some(7)),
        "Did the thing.\n\nCloses #7"
    );
    assert_eq!(
        complete_agent_work_body(None, Some(7)),
        "Automated PR for issue #7\n\nCloses #7"
    );
    assert_eq!(complete_agent_work_body(Some("text"), None), "text");
}

#[test]
fn cleanup_names_the_worktree_only_when_asked() {
    let m = AgentMetadata {
        session: "s".to_string(),
        issue_ref: None,
        repo: None,
        worktree: Some("/tmp/wt".to_string()),
        agent_type: "coder".to_string(),
        machine_id: "m".to_string(),
        started_at: "t".to_string(),
    };
    assert_eq!(cleanup_agent(&Some(m.clone()), true), Some("/tmp/wt".to_string()));
    assert_eq!(cleanup_agent(&Some(m), false), None);
    assert_eq!(cleanup_agent(&None, true), None);
    assert!(handy_devops::orchestrator::check_and_cleanup_merged_pr("merged"));
    assert!(!handy_devops::orchestrator::check_and_cleanup_merged_pr("open"));
}
