//! Session recovery classification and the recovery pass.

use handy_devops::recovery::{
    classify_recovery, pane_shows_active_process, parse_session_metadata, recover_all_sessions,
    recover_sessions, AgentMetadata, RecoveryAction, SessionStatus, TmuxSession,
};

#[test]
fn recovery_classification_table() {
    assert_eq!(classify_recovery(true, true), RecoveryAction::Resume);
    assert_eq!(classify_recovery(true, false), RecoveryAction::Resume);
    assert_eq!(classify_recovery(false, true), RecoveryAction::Restart);
    assert_eq!(classify_recovery(false, false), RecoveryAction::Cleanup);
}

fn metadata_on(machine: &str) -> AgentMetadata {
    AgentMetadata {
        session: "handy-agent-42".to_string(),
        issue_ref: Some("org/repo#42".to_string()),
        repo: Some("org/repo".to_string()),
        worktree: Some("/tmp/wt".to_string()),
        agent_type: "coder".to_string(),
        machine_id: machine.to_string(),
        started_at: "2024-01-01T00:00:00Z".to_string(),
    }
}

fn session_with(metadata: Option<AgentMetadata>, status: SessionStatus) -> TmuxSession {
    TmuxSession { name: "handy-agent-42".to_string(), attached: false, windows: 1, created: 0, metadata, status }
}

#[test]
fn recovery_never_crosses_machines() {
    let sessions = vec![
        session_with(Some(metadata_on("here")), SessionStatus::Stopped),
        session_with(Some(metadata_on("elsewhere")), SessionStatus::Stopped),
        session_with(None, SessionStatus::Running),
    ];
    let recovered = recover_sessions(&sessions, &vec![true, true, true], "here");
    // the foreign-machine session is reported, but nothing is done to it
    assert_eq!(recovered.len(), 2);
    assert_eq!(recovered[0].metadata.machine_id, "here");
    assert_eq!(recovered[0].recommended_action, RecoveryAction::Restart);
    assert!(recovered[0].worktree_exists);
    assert!(!recovered[0].tmux_alive);
    assert_eq!(recovered[1].metadata.machine_id, "elsewhere");
    assert_eq!(recovered[1].recommended_action, RecoveryAction::NoAction);

    // even with both automation switches on, the pass leaves it alone
    let results = handy_devops::recovery::recover_all_sessions(
        &recovered,
        true,
        true,
        &vec![None, None],
    );
    assert!(results[1].success);
    assert_eq!(results[1].action, RecoveryAction::NoAction);
    assert!(results[1].error.is_none());
}

#[test]
fn recovery_pass_respects_switches() {
    let sessions = vec![
        session_with(Some(metadata_on("m")), SessionStatus::Running),
        session_with(Some(metadata_on("m")), SessionStatus::Stopped),
        session_with(Some(metadata_on("m")), SessionStatus::Stopped),
    ];
    let recovered = recover_sessions(&sessions, &vec![true, true, false], "m");
    assert_eq!(recovered.len(), 3);
    assert_eq!(recovered[0].recommended_action, RecoveryAction::Resume);
    assert_eq!(recovered[1].recommended_action, RecoveryAction::Restart);
    assert_eq!(recovered[2].recommended_action, RecoveryAction::Cleanup);

    // restarts disabled, cleanups enabled; the cleanup itself failed
    let outcomes = vec![None, None, Some("kill failed".to_string())];
    let results = recover_all_sessions(&recovered, false, true, &outcomes);
    assert_eq!(results.len(), 3);
    assert!(results[0].success);
    assert!(!results[1].success);
    assert_eq!(results[1].error, Some("Auto-restart disabled".to_string()));
    assert!(!results[2].success);
    assert_eq!(results[2].error, Some("kill failed".to_string()));
}

#[test]
fn pane_commands_classify_liveness() {
    assert!(!pane_shows_active_process(""));
    assert!(!pane_shows_active_process("  bash \n"));
    assert!(!pane_shows_active_process("zsh"));
    assert!(pane_shows_active_process("coder"));
}

#[test]
fn metadata_parses_from_environment_lines() {
    let env = "HANDY_ISSUE_REF=org/repo#42\nHANDY_REPO=org/repo\nHANDY_AGENT_TYPE=coder\nHANDY_WORKTREE=/tmp/wt\nHANDY_MACHINE_ID=box\nHANDY_STARTED_AT=t0\n";
    let m = parse_session_metadata("handy-agent-42", env, "fallback-machine", "fallback-time");
    assert_eq!(m.session, "handy-agent-42");
    assert_eq!(m.issue_ref, Some("org/repo#42".to_string()));
    assert_eq!(m.repo, Some("org/repo".to_string()));
    assert_eq!(m.agent_type, "coder");
    assert_eq!(m.machine_id, "box");
    assert_eq!(m.started_at, "t0");

    // missing fields fall back conservatively
    let sparse = parse_session_metadata("s", "OTHER=1\n", "fallback-machine", "fallback-time");
    assert_eq!(sparse.issue_ref, None);
    assert_eq!(sparse.agent_type, "unknown");
    assert_eq!(sparse.machine_id, "fallback-machine");
    assert_eq!(sparse.started_at, "fallback-time");
}

#[test]
fn restart_command_rebuilds_from_metadata() {
    let cmd = handy_devops::commands::restart_agent(&metadata_on("m")).unwrap();
    assert_eq!(
        cmd,
        "coder 'Work on GitHub issue org/repo#42: Implement the requirements described in the issue. When done, commit your changes and create a PR.'"
    );

    let mut no_repo = metadata_on("m");
    no_repo.repo = None;
    assert!(handy_devops::commands::restart_agent(&no_repo).is_err());
}
