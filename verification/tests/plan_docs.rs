//! Plan-document extraction.

use handy_devops::plan::{
    determine_planning_agent, extract_goal, extract_json_payload, extract_phases,
    extract_success_metrics, PlanFromMarkdownConfig,
};

#[test]
fn test_extract_goal() {
    let markdown = "\n# Epic Title\n\n## Goal\n\nThis is the goal.\nIt spans multiple lines.\n\n## Success Metrics\n";
    let goal = extract_goal(markdown).unwrap();
    assert_eq!(goal, "This is the goal. It spans multiple lines.");
}

#[test]
fn extract_goal_missing_section_is_an_error() {
    let e = extract_goal("# Title\n\nNo goal here.\n").unwrap_err();
    assert_eq!(e, "No goal found in plan");
}

#[test]
fn test_extract_success_metrics() {
    let markdown = "\n## Success Metrics\n\n- Metric 1\n- [ ] Metric 2\n- Metric 3\n\n## Phases\n";
    let metrics = extract_success_metrics(markdown);
    assert_eq!(metrics, vec!["Metric 1", "Metric 2", "Metric 3"]);
}

#[test]
fn test_extract_phases() {
    let markdown = "\n## Phases\n\n### Phase 1: Foundation\n\n**Approach**: manual\n\nBuild test utilities and infrastructure.\n\n---\n\n### Phase 2: Integration\n\n**Approach**: agent-assisted\n\nComprehensive tests for workflows.\n\n## Next Section\n";
    let phases = extract_phases(markdown).unwrap();
    assert_eq!(phases.len(), 2);
    assert_eq!(phases[0].name, "Foundation");
    assert_eq!(phases[0].approach, "manual");
    assert!(phases[0].description.contains("Build test utilities"));
    assert_eq!(phases[1].name, "Integration");
    assert_eq!(phases[1].approach, "agent-assisted");
}

#[test]
fn test_extract_phases_with_tasks_and_files() {
    let markdown = "\n## Phases\n\n### Phase 1: Core Infrastructure\n\n**Approach**: manual\n\nBuild backend infrastructure for pipeline state tracking.\n\n**Key Tasks**:\n- Create `PipelineItem` struct linking issue \u{2192} session \u{2192} worktree \u{2192} PR\n- Add `list_pipeline_items` command to aggregate current state\n- Store pipeline state in persistent storage\n\n**Files**:\n- `src-tauri/src/devops/pipeline.rs` (new)\n- `src-tauri/src/commands/devops.rs` (add commands)\n\n**Dependencies**: None\n\n---\n\n### Phase 2: Frontend\n\n**Approach**: agent-assisted\n\nBuild the Orchestration tab UI.\n\n**Key Tasks**:\n- Add \"Orchestration\" tab to DevOpsLayout\n- Create OrchestrationTab component\n\n**Dependencies**: Phase 1 complete\n\n## Design\n";
    let phases = extract_phases(markdown).unwrap();
    assert_eq!(phases.len(), 2);

    assert_eq!(phases[0].name, "Core Infrastructure");
    assert_eq!(phases[0].approach, "manual");
    assert_eq!(phases[0].tasks.len(), 3);
    assert!(phases[0].tasks[0].contains("PipelineItem"));
    assert_eq!(phases[0].files.len(), 2);
    assert!(phases[0].files[0].contains("pipeline.rs"));
    assert!(phases[0].dependencies.is_empty());

    assert_eq!(phases[1].name, "Frontend");
    assert_eq!(phases[1].approach, "agent-assisted");
    assert_eq!(phases[1].tasks.len(), 2);
    assert!(phases[1].tasks[0].contains("Orchestration"));
    assert_eq!(phases[1].dependencies.len(), 1);
    assert!(phases[1].dependencies[0].contains("Phase 1"));
}

#[test]
fn extract_phases_empty_is_an_error() {
    let e = extract_phases("# Title\n\nNo phases.\n").unwrap_err();
    assert_eq!(e, "No phases found in plan");
}

fn plan_config(agent: Option<&str>) -> PlanFromMarkdownConfig {
    PlanFromMarkdownConfig {
        plan_file_path: "docs/plans/x.md".to_string(),
        repo: "org/repo".to_string(),
        work_repo: None,
        title_override: None,
        planning_agent: agent.map(|s| s.to_string()),
    }
}

#[test]
fn planning_agent_selection() {
    let enabled = vec!["coder".to_string(), "aider".to_string()];
    assert_eq!(determine_planning_agent(&plan_config(Some("aider")), &enabled).unwrap(), "aider");
    assert!(determine_planning_agent(&plan_config(Some("gemini")), &enabled).is_err());
    assert_eq!(determine_planning_agent(&plan_config(None), &enabled).unwrap(), "coder");
    assert!(determine_planning_agent(&plan_config(None), &vec![]).is_err());
}

#[test]
fn json_payload_unwraps_fences() {
    assert_eq!(extract_json_payload("```json\n{\"a\": 1}\n```"), "{\"a\": 1}");
    assert_eq!(extract_json_payload("text ```\n{}\n``` more"), "{}");
    assert_eq!(extract_json_payload("  {\"b\": 2} "), "{\"b\": 2}");
}
