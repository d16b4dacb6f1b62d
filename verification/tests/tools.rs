//! Dependency aggregation, agent commands, body markers, stores.

use handy_devops::commands::build_agent_command;
use handy_devops::epic::{EpicInfo, PhaseConfig};
use handy_devops::github::GitHubIssue;
use handy_devops::pipeline::{PipelineItem, PipelineState};
use handy_devops::deps::{check_all_dependencies, AuthProbe, CommandProbe, DependencyProbes};
use handy_devops::lifecycle;
use handy_devops::store::{EpicStoreState, PipelineSummary, SkipIssueConfig};

fn missing() -> CommandProbe {
    CommandProbe { installed: false, version_line: None, path: None }
}

fn probe(line: &str) -> CommandProbe {
    CommandProbe {
        installed: true,
        version_line: Some(line.to_string()),
        path: Some("/usr/bin/tool".to_string()),
    }
}

fn no_auth() -> AuthProbe {
    AuthProbe { authenticated: false, user: None }
}

fn nothing_installed() -> DependencyProbes {
    DependencyProbes {
        gh: missing(),
        gh_auth: no_auth(),
        tmux: missing(),
        coder: missing(),
        coder_auth: no_auth(),
        aider: missing(),
        gemini: missing(),
        ollama: missing(),
        vllm: missing(),
    }
}

#[test]
fn test_check_dependencies() {
    let deps = check_all_dependencies(&nothing_installed());
    assert!(!deps.gh.name.is_empty());
    assert!(!deps.tmux.name.is_empty());
}

#[test]
fn dependency_versions_are_parsed() {
    let mut probes = nothing_installed();
    probes.gh = probe("gh version 2.40.0, (2024-01-01)");
    probes.gh_auth = AuthProbe { authenticated: true, user: Some("octocat".to_string()) };
    probes.tmux = probe("tmux 3.4");
    probes.ollama = probe("ollama version is 0.1.17");
    probes.coder = probe("1.2.3 (release)");

    let deps = check_all_dependencies(&probes);
    assert_eq!(deps.gh.version, Some("2.40.0".to_string()));
    assert_eq!(deps.gh.authenticated, Some(true));
    assert_eq!(deps.gh.auth_user, Some("octocat".to_string()));
    assert_eq!(deps.tmux.version, Some("3.4".to_string()));
    assert_eq!(deps.ollama.version, Some("0.1.17".to_string()));
    assert_eq!(deps.coder.version, Some("1.2.3 (release)".to_string()));

    assert_eq!(deps.available_agents, vec!["coder".to_string(), "ollama".to_string()]);
    assert!(deps.all_satisfied);
}

#[test]
fn satisfaction_needs_an_agent() {
    let mut probes = nothing_installed();
    probes.gh = probe("gh version 2.40.0 (x)");
    probes.tmux = probe("tmux 3.4");
    let deps = check_all_dependencies(&probes);
    assert!(!deps.all_satisfied);
    assert!(deps.available_agents.is_empty());
}

#[test]
fn agent_commands_cover_every_type() {
    let c = build_agent_command("coder", "org/repo", 7, None).unwrap();
    assert_eq!(
        c,
        "coder 'Work on GitHub issue org/repo#7: Implement the requirements described in the issue. When done, commit your changes and create a PR.'"
    );
    let a = build_agent_command("aider", "org/repo", 7, Some("Fix the bug")).unwrap();
    assert_eq!(
        a,
        "aider --message 'Work on GitHub issue org/repo#7 --title 'Fix the bug'. Implement the requirements and commit when done.'"
    );
    assert!(build_agent_command("CODEX", "org/repo", 7, None).unwrap().starts_with("codex"));
    assert!(build_agent_command("gemini", "org/repo", 7, None).unwrap().starts_with("gemini-cli"));
    assert!(build_agent_command("local", "org/repo", 7, None).unwrap().starts_with("ollama run"));
    assert!(build_agent_command("manual", "org/repo", 7, None).unwrap().starts_with("echo"));
    let e = build_agent_command("gpt", "org/repo", 7, None).unwrap_err();
    assert_eq!(e, "Unknown agent type 'gpt'. Supported types: coder, aider, codex, gemini, ollama, manual");
}

#[test]
fn titles_are_shell_escaped() {
    let a = build_agent_command("aider", "org/repo", 7, Some("don't break")).unwrap();
    assert!(a.contains("don'\\''t break"));
}

#[test]
fn agent_lifecycle_test_parse_issue_ref() {
    let (repo, number) = lifecycle::parse_issue_ref("org/Handy#101").unwrap();
    assert_eq!(repo, "org/Handy");
    assert_eq!(number, 101);
}

#[test]
fn agent_lifecycle_test_parse_issue_ref_invalid() {
    assert!(lifecycle::parse_issue_ref("invalid").is_err());
    assert!(lifecycle::parse_issue_ref("org/repo").is_err());
    assert!(lifecycle::parse_issue_ref("org/repo#abc").is_err());
}

#[test]
fn test_extract_agent_type() {
    let body = "Some text\n**Agent Type**: coder\nMore text";
    assert_eq!(lifecycle::extract_agent_type(body), Some("coder".to_string()));
}

#[test]
fn test_extract_agent_type_not_found() {
    let body = "Some text without agent type";
    assert_eq!(lifecycle::extract_agent_type(body), None);
}

#[test]
fn test_extract_epic_ref() {
    let body = "Some text\n**Epic**: #100\nMore text";
    assert_eq!(lifecycle::extract_epic_ref(body), Some("#100".to_string()));
}

#[test]
fn test_extract_epic_ref_not_found() {
    let body = "Some text without epic";
    assert_eq!(lifecycle::extract_epic_ref(body), None);
}

#[test]
fn test_extract_work_repo() {
    let body = "Some text\n**Work Repository**: user/my-project\nMore text";
    assert_eq!(lifecycle::extract_work_repo(body), Some("user/my-project".to_string()));
}

#[test]
fn test_extract_work_repo_not_found() {
    let body = "Some text without work repo";
    assert_eq!(lifecycle::extract_work_repo(body), None);
}

#[test]
fn test_skip_issue_config_defaults() {
    let config = SkipIssueConfig {
        repo: "test/repo".to_string(),
        issue_number: 123,
        reason: None,
        add_labels: vec![],
        remove_labels: vec![],
    };

    assert!(config.add_labels.is_empty());
    assert!(config.remove_labels.is_empty());
}

#[test]
fn pipeline_summary_counts_by_status() {
    let issue = GitHubIssue {
        number: 1,
        title: "I".to_string(),
        body: None,
        state: "open".to_string(),
        url: "u".to_string(),
        labels: vec![],
        assignees: vec![],
        author: "a".to_string(),
        created_at: "t".to_string(),
        updated_at: "t".to_string(),
        repo: "r/r".to_string(),
    };
    let issue_two = GitHubIssue { number: 2, ..issue.clone() };
    let mut state = PipelineState::new();
    let queued = PipelineItem::from_issue(&issue, "r/r", "r/r", "coder");
    let mut working = PipelineItem::from_issue(&issue_two, "r/r", "other/r", "coder");
    working.start_work("s", "/w", "issue-2", "m");
    state.add_item(queued);
    state.add_item(working);

    let summary: PipelineSummary = handy_devops::store::get_pipeline_summary(&state);
    assert_eq!(summary.total, 2);
    assert_eq!(summary.queued, 1);
    assert_eq!(summary.in_progress, 1);
    assert_eq!(summary.completed, 0);
}

#[test]
fn epic_store_links_and_clears() {
    let info = EpicInfo {
        epic_number: 10,
        repo: "o/r".to_string(),
        work_repo: "o/r".to_string(),
        title: "E".to_string(),
        url: "u".to_string(),
        phases: vec![PhaseConfig {
            name: "One".to_string(),
            description: "d".to_string(),
            approach: "manual".to_string(),
            tasks: vec![],
            files: vec![],
            dependencies: vec![],
        }],
    };
    let mut store = EpicStoreState::new();
    let active = handy_devops::store::set_active_epic(&mut store, &info);
    assert_eq!(active.epic_number, 10);
    assert_eq!(active.phases.len(), 1);
    assert_eq!(active.phases[0].name, "One");
    assert!(store.active_epic.is_some());

    let cleared = handy_devops::store::clear_active_epic(&mut store, true).unwrap();
    assert_eq!(cleared.epic_number, 10);
    assert!(store.active_epic.is_none());
    assert_eq!(store.history.len(), 1);
}

#[test]
fn default_sidecar_config_remembers_nothing() {
    let c = handy_devops::sidecar::default_config();
    assert!(c.last_llm_model_id.is_none());
    assert!(c.last_embedding_model_id.is_none());
}
