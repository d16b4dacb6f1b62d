//! Orphan container cleanup and sandboxed agent commands.

use handy_devops::lifecycle::{
    build_support_worker_command, support_session_name, SupportWorkerConfig,
};
use handy_devops::sandbox::{
    build_sandbox_run_args, build_sandboxed_agent_command, cleanup_orphaned_containers,
    container_issue_number, plan_orphan_cleanup, SandboxConfig, SandboxMode,
};

#[test]
fn container_names_embed_issue_numbers() {
    assert_eq!(container_issue_number("handy-sandbox-9"), Some(9));
    assert_eq!(container_issue_number("handy-support-sandbox-12"), Some(12));
    assert_eq!(container_issue_number("handy-sandbox-"), None);
    assert_eq!(container_issue_number("unrelated"), None);
}

#[test]
fn orphan_cleanup_removes_containers_without_sessions() {
    // an orphan container named for issue #9, no matching live session
    let names = vec!["handy-sandbox-9".to_string()];
    let targets = plan_orphan_cleanup(&names, &vec![]);
    assert_eq!(targets.len(), 1);
    assert_eq!(targets[0].container_name, "handy-sandbox-9");
    assert_eq!(targets[0].issue_number, Some(9));

    let result = cleanup_orphaned_containers(&targets, &vec![None]);
    assert_eq!(result.found, 1);
    assert_eq!(result.removed, 1);
    assert_eq!(result.removed_containers, vec!["handy-sandbox-9".to_string()]);
    assert!(result.errors.is_empty());
}

#[test]
fn containers_with_live_sessions_stay() {
    let names = vec![
        "handy-sandbox-9".to_string(),
        "handy-sandbox-10".to_string(),
        "handy-sandbox-junk".to_string(),
    ];
    let targets = plan_orphan_cleanup(&names, &vec![10]);
    assert_eq!(targets.len(), 2);
    assert_eq!(targets[0].container_name, "handy-sandbox-9");
    assert_eq!(targets[1].container_name, "handy-sandbox-junk");
    assert_eq!(targets[1].issue_number, None);
}

#[test]
fn cleanup_reports_failures_without_hiding_them() {
    let names = vec!["handy-sandbox-1".to_string(), "handy-sandbox-2".to_string()];
    let targets = plan_orphan_cleanup(&names, &vec![]);
    let outcomes = vec![None, Some("still in use".to_string())];
    let result = cleanup_orphaned_containers(&targets, &outcomes);
    assert_eq!(result.found, 2);
    assert_eq!(result.removed, 1);
    assert_eq!(result.errors, vec!["handy-sandbox-2: still in use".to_string()]);
}

#[test]
fn sandboxed_commands_support_two_agents() {
    let c = build_sandboxed_agent_command("coder", "org/repo", 5, true).unwrap();
    assert!(c.starts_with("coder --dangerously-skip-permissions"));
    assert!(c.contains("org/repo#5"));

    let a = build_sandboxed_agent_command("Aider", "org/repo", 5, false).unwrap();
    assert!(a.starts_with("aider --message"));

    let e = build_sandboxed_agent_command("gemini", "org/repo", 5, false).unwrap_err();
    assert_eq!(
        e,
        "Agent type 'gemini' is not supported for sandboxed execution. Supported: coder, aider"
    );
}

#[test]
fn sandbox_run_args_carry_the_plan() {
    let config = SandboxConfig {
        mode: SandboxMode::DirectDocker,
        image: None,
        workdir: "/tmp/wt".to_string(),
        gh_token: None,
        devtool_api_key: None,
        issue_ref: "o/r#5".to_string(),
        agent_type: "coder".to_string(),
        auto_accept: true,
        memory_limit: Some("4g".to_string()),
        cpu_limit: Some("2".to_string()),
        network_mode: None,
    };
    let args = build_sandbox_run_args(&config, Some("tok"), None, None).unwrap();
    assert_eq!(args[0], "run");
    assert_eq!(args[3], "handy-sandbox-5");
    assert!(args.contains(&"-m".to_string()));
    assert!(args.contains(&"4g".to_string()));
    assert!(args.contains(&"GH_TOKEN=tok".to_string()));
    assert!(args.contains(&"bridge".to_string()));
    assert!(args.contains(&"node:20-bookworm".to_string()));
    let script = args.last().unwrap();
    assert!(script.contains("gosu agent"));
    assert!(script.contains("coder --dangerously-skip-permissions"));

    // a bad reference or an unsupported agent fails before any action
    let mut bad = config.clone();
    bad.issue_ref = "nonsense".to_string();
    assert!(build_sandbox_run_args(&bad, None, None, None).is_err());
    let mut unsupported = config.clone();
    unsupported.agent_type = "gemini".to_string();
    assert!(build_sandbox_run_args(&unsupported, None, None, None).is_err());
}

#[test]
fn stale_containers_are_named_for_removal() {
    let names = handy_devops::sandbox::stale_container_candidates(7);
    assert_eq!(names, vec!["handy-sandbox-7".to_string(), "handy-support-sandbox-7".to_string()]);
}

#[test]
fn support_worker_commands_cover_their_tasks() {
    let base = SupportWorkerConfig {
        repo: "o/r".to_string(),
        issue_number: 7,
        pr_number: Some(12),
        task: String::new(),
        task_type: "merge".to_string(),
        merge_method: None,
        delete_branch: true,
        sandboxed: false,
        worktree_path: None,
    };
    let merge = build_support_worker_command(&base, false).unwrap();
    assert!(merge.starts_with("coder \"You are a Support Worker agent tasked with merging PR #12 in o/r."));
    assert!(merge.contains("gh pr merge 12 --repo o/r --squash --delete-branch"));

    let mut review = base.clone();
    review.task_type = "review".to_string();
    let rv = build_support_worker_command(&review, true).unwrap();
    assert!(rv.starts_with("coder --dangerously-skip-permissions \"Review the PR #12 in o/r"));

    let mut generic = base.clone();
    generic.task_type = "label".to_string();
    generic.task = "add the \"ready\" label".to_string();
    let g = build_support_worker_command(&generic, false).unwrap();
    assert_eq!(g, "coder \"add the \\\"ready\\\" label\"");

    let mut missing = base.clone();
    missing.pr_number = None;
    let e = build_support_worker_command(&missing, false).unwrap_err();
    assert_eq!(e, "PR number required for merge task");

    assert_eq!(support_session_name("merge", 7), "handy-support-merge-7");
}
