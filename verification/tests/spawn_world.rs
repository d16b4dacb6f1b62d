//! Spawning against a world snapshot: deterministic names and collision
//! refusal.

use handy_devops::github::GitHubIssue;
use handy_devops::orchestrator::{apply_spawn, spawn_agent, SpawnConfig, SpawnEnvironment};

fn issue_42() -> GitHubIssue {
    GitHubIssue {
        number: 42,
        title: "Add a thing".to_string(),
        body: None,
        state: "open".to_string(),
        url: "https://github.com/org/repo/issues/42".to_string(),
        labels: vec![],
        assignees: vec![],
        author: "someone".to_string(),
        created_at: "t".to_string(),
        updated_at: "t".to_string(),
        repo: "org/repo".to_string(),
    }
}

fn config_for_42() -> SpawnConfig {
    SpawnConfig {
        repo: "org/repo".to_string(),
        issue_number: 42,
        agent_type: "coder".to_string(),
        session_name: Some("handy-agent-42".to_string()),
        worktree_prefix: None,
        working_labels: vec![],
        use_sandbox: false,
        sandbox_ports: vec![],
    }
}

fn empty_env() -> SpawnEnvironment {
    SpawnEnvironment {
        branches: vec!["main".to_string()],
        worktrees: vec![],
        session_names: vec![],
        docker_available: false,
        machine_id: "box".to_string(),
        default_branch: "main".to_string(),
        worktree_root: "/tmp/worktrees".to_string(),
    }
}

#[test]
fn spawn_produces_deterministic_resources() {
    let mut env = empty_env();
    let result = spawn_agent(&config_for_42(), &issue_42(), &env).unwrap();
    assert!(!result.session_name.is_empty());
    assert_eq!(result.worktree.branch, "issue-42");
    assert_eq!(result.worktree.path, "/tmp/worktrees/issue-42");
    assert_eq!(result.worktree.base_branch, "main");
    assert_eq!(result.machine_id, "box");
    assert!(!result.is_sandboxed);

    // a second spawn for the same issue fails on the collision check,
    // before any new resource would be created
    apply_spawn(&mut env, &result);
    let again = spawn_agent(&config_for_42(), &issue_42(), &env);
    assert!(again.is_err());
    let message = again.unwrap_err();
    assert!(message.contains("issue-42"));
}

#[test]
fn spawn_refuses_unknown_agent_types() {
    let env = empty_env();
    let mut config = config_for_42();
    config.agent_type = "mystery".to_string();
    let e = spawn_agent(&config, &issue_42(), &env).unwrap_err();
    assert_eq!(
        e,
        "Unknown agent type 'mystery'. Supported types: coder, aider, codex, gemini, ollama, manual"
    );
}

#[test]
fn spawn_uses_sandbox_only_where_available() {
    let mut env = empty_env();
    let mut config = config_for_42();
    config.use_sandbox = true;
    let r = spawn_agent(&config, &issue_42(), &env).unwrap();
    assert!(!r.is_sandboxed);

    env.docker_available = true;
    let mut env2 = empty_env();
    env2.docker_available = true;
    let r2 = spawn_agent(&config, &issue_42(), &env2).unwrap();
    assert!(r2.is_sandboxed);
}

#[test]
fn default_session_names_embed_the_issue() {
    let env = empty_env();
    let mut config = config_for_42();
    config.session_name = None;
    let r = spawn_agent(&config, &issue_42(), &env).unwrap();
    assert!(r.session_name.starts_with("handy-issue-42-"));
}

#[test]
fn test_spawn_config_default_session_name() {
    let config = SpawnConfig {
        repo: "KBVE/kbve".to_string(),
        issue_number: 123,
        agent_type: "coder".to_string(),
        session_name: None,
        worktree_prefix: None,
        working_labels: vec![],
        use_sandbox: false,
        sandbox_ports: vec![],
    };
    assert!(config.session_name.is_none());
}
