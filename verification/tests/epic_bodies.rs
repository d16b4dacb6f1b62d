//! Epic body formatting, patching and extraction.

use handy_devops::epic::{
    extract_phases_from_body, extract_work_repo_from_body, format_epic_body,
    format_sub_issue_body, update_progress_section, EpicConfig, PhaseConfig, SubIssueConfig,
};

fn phase(name: &str, description: &str, approach: &str) -> PhaseConfig {
    PhaseConfig {
        name: name.to_string(),
        description: description.to_string(),
        approach: approach.to_string(),
        tasks: vec![],
        files: vec![],
        dependencies: vec![],
    }
}

#[test]
fn test_format_epic_body() {
    let config = EpicConfig {
        title: "Test Epic".to_string(),
        repo: "org/repo".to_string(),
        work_repo: None,
        goal: "Test goal".to_string(),
        success_metrics: vec!["Metric 1".to_string(), "Metric 2".to_string()],
        phases: vec![phase("Phase 1", "Test phase", "manual")],
        labels: vec![],
    };

    let body = format_epic_body(&config, "org/repo");

    assert!(body.contains("# Test Epic"));
    assert!(body.contains("## Goal"));
    assert!(body.contains("Test goal"));
    assert!(body.contains("- [ ] Metric 1"));
    assert!(body.contains("- [ ] Metric 2"));
    assert!(body.contains("### Phase 1: Phase 1"));
    assert!(body.contains("**Approach**: manual"));
}

#[test]
fn test_format_sub_issue_body() {
    let config = SubIssueConfig {
        title: "Test Task".to_string(),
        phase: 1,
        estimated_time: "2 hours".to_string(),
        dependencies: "None".to_string(),
        goal: "Test goal".to_string(),
        tasks: "- Task 1\n- Task 2".to_string(),
        acceptance_criteria: vec!["Criterion 1".to_string()],
        agent_type: "coder".to_string(),
        work_repo: None,
    };

    let body = format_sub_issue_body(100, "org/repo", "org/repo", &config);

    assert!(body.contains("**Epic**: #100"));
    assert!(body.contains("**Phase**: 1"));
    assert!(body.contains("**Estimated Time**: 2 hours"));
    assert!(body.contains("- [ ] Criterion 1"));
    assert!(body.contains("**Agent Type**: coder"));
}

#[test]
fn test_update_progress_section() {
    let original = "# Epic Title\n\n## Progress\n0/10 sub-issues completed (0%)\n\n## Notes\nSome notes\n";

    let updated = update_progress_section(original, 5, 10, 50);

    assert!(updated.contains("5/10 sub-issues completed (50%)"));
    assert!(updated.contains("## Notes"));
}

#[test]
fn progress_patch_is_exact() {
    let original = "## Progress\nold line\nrest";
    let updated = update_progress_section(original, 2, 4, 50);
    assert_eq!(updated, "## Progress\n2/4 sub-issues completed (50%)\nrest");
}

#[test]
fn work_repo_round_trips_through_the_body() {
    let config = EpicConfig {
        title: "T".to_string(),
        repo: "org/tracking".to_string(),
        work_repo: Some("user/work".to_string()),
        goal: "G".to_string(),
        success_metrics: vec![],
        phases: vec![phase("One", "D", "manual")],
        labels: vec![],
    };
    let body = format_epic_body(&config, "user/work");
    assert_eq!(extract_work_repo_from_body(&body), Some("user/work".to_string()));
    let same = format_epic_body(&config, "org/tracking");
    assert_eq!(extract_work_repo_from_body(&same), None);
}

#[test]
fn phases_round_trip_through_the_body() {
    let config = EpicConfig {
        title: "T".to_string(),
        repo: "org/repo".to_string(),
        work_repo: None,
        goal: "G".to_string(),
        success_metrics: vec![],
        phases: vec![
            phase("Foundation", "Build the base.", "manual"),
            phase("Integration", "Wire it together.", "agent-assisted"),
        ],
        labels: vec![],
    };
    let body = format_epic_body(&config, "org/repo");
    let phases = extract_phases_from_body(&body);
    assert_eq!(phases.len(), 2);
    assert_eq!(phases[0].name, "Foundation");
    assert_eq!(phases[0].description, "Build the base.");
    assert_eq!(phases[0].approach, "manual");
    assert_eq!(phases[1].name, "Integration");
    assert_eq!(phases[1].approach, "agent-assisted");
}
