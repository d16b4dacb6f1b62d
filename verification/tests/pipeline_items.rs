//! The pipeline item state machine and the tracked collection.

use handy_devops::github::{GitHubIssue, GitHubPullRequest, PrStatus, ReviewCounts};
use handy_devops::pipeline::{PipelineItem, PipelineState, PipelineStatus, PrPipelineStatus};

fn sample_issue() -> GitHubIssue {
    GitHubIssue {
        number: 123,
        title: "Test Issue".to_string(),
        body: None,
        state: "open".to_string(),
        url: "https://github.com/test/repo/issues/123".to_string(),
        labels: vec![],
        assignees: vec![],
        author: "testuser".to_string(),
        created_at: "2024-01-01T00:00:00Z".to_string(),
        updated_at: "2024-01-01T00:00:00Z".to_string(),
        repo: "test/repo".to_string(),
    }
}

#[test]
fn test_pipeline_item_lifecycle() {
    let issue = sample_issue();

    let mut item = PipelineItem::from_issue(&issue, "test/tracking", "test/repo", "coder");
    assert_eq!(item.status, PipelineStatus::Queued);
    assert!(!item.is_active());
    assert!(!item.is_complete());

    item.start_work("session-1", "/tmp/worktree", "issue-123", "machine-1");
    assert_eq!(item.status, PipelineStatus::InProgress);
    assert!(item.is_active());
    assert!(!item.is_complete());

    item.skip();
    assert_eq!(item.status, PipelineStatus::Skipped);
    assert!(!item.is_active());
    assert!(item.is_complete());
}

#[test]
fn test_pipeline_state() {
    let mut state = PipelineState::new();

    let issue = sample_issue();

    let item = PipelineItem::from_issue(&issue, "test/tracking", "test/repo", "coder");
    let item_id = item.id.clone();

    state.add_item(item);
    assert!(state.get_item(&item_id).is_some());
    assert!(state.find_by_issue("test/repo", 123).is_some());
}

fn open_pr(number: u64, branch: &str) -> GitHubPullRequest {
    GitHubPullRequest {
        number,
        url: format!("https://github.com/test/repo/pull/{}", number),
        state: "open".to_string(),
        is_draft: false,
        head_branch: branch.to_string(),
    }
}

#[test]
fn pipeline_full_run_reaches_completed() {
    let issue = sample_issue();
    let mut item = PipelineItem::from_issue(&issue, "test/tracking", "test/repo", "coder");
    assert_eq!(item.status, PipelineStatus::Queued);

    item.start_work("session-1", "/tmp/worktree", "issue-123", "machine-1");
    assert_eq!(item.status, PipelineStatus::InProgress);

    let pr = open_pr(7, "issue-123");
    item.link_pr(&pr);
    assert_eq!(item.status, PipelineStatus::PrReview);
    assert_eq!(item.pr_status, PrPipelineStatus::Ready);
    assert_eq!(item.pr_number, Some(7));
    assert!(item.completed_at.is_none());

    let merged = GitHubPullRequest { state: "merged".to_string(), ..open_pr(7, "issue-123") };
    item.update_pr_status(&merged, false, false);
    assert_eq!(item.status, PipelineStatus::Completed);
    assert_eq!(item.pr_status, PrPipelineStatus::Merged);
    assert!(item.completed_at.is_some());
}

#[test]
fn link_pr_with_merged_pr_skips_review() {
    let issue = sample_issue();
    let mut item = PipelineItem::from_issue(&issue, "test/tracking", "test/repo", "coder");
    let merged = GitHubPullRequest { state: "merged".to_string(), ..open_pr(8, "issue-123") };
    item.link_pr(&merged);
    assert_eq!(item.status, PipelineStatus::Completed);
    assert_eq!(item.pr_status, PrPipelineStatus::Merged);
}

#[test]
fn skip_and_fail_reach_every_non_terminal_state_and_no_terminal_one() {
    let issue = sample_issue();

    // skip from queued
    let mut queued = PipelineItem::from_issue(&issue, "t/r", "t/r", "coder");
    queued.skip();
    assert_eq!(queued.status, PipelineStatus::Skipped);

    // fail from in-progress
    let mut working = PipelineItem::from_issue(&issue, "t/r", "t/r", "coder");
    working.start_work("s", "/w", "issue-123", "m");
    working.fail("boom");
    assert_eq!(working.status, PipelineStatus::Failed);
    assert_eq!(working.error, Some("boom".to_string()));
    assert!(working.completed_at.is_some());

    // fail from review
    let mut reviewing = PipelineItem::from_issue(&issue, "t/r", "t/r", "coder");
    reviewing.link_pr(&open_pr(9, "issue-123"));
    assert_eq!(reviewing.status, PipelineStatus::PrReview);
    reviewing.fail("abandoned");
    assert_eq!(reviewing.status, PipelineStatus::Failed);

    // neither moves a terminal item
    let mut done = PipelineItem::from_issue(&issue, "t/r", "t/r", "coder");
    let merged = GitHubPullRequest { state: "merged".to_string(), ..open_pr(10, "issue-123") };
    done.link_pr(&merged);
    assert_eq!(done.status, PipelineStatus::Completed);
    done.skip();
    assert_eq!(done.status, PipelineStatus::Completed);
    done.fail("too late");
    assert_eq!(done.status, PipelineStatus::Completed);
    assert!(done.error.is_none());
}

#[test]
fn update_pr_status_derives_review_states() {
    let issue = sample_issue();
    let mut item = PipelineItem::from_issue(&issue, "t/r", "t/r", "coder");
    item.link_pr(&open_pr(3, "issue-123"));

    item.update_pr_status(&open_pr(3, "issue-123"), true, false);
    assert_eq!(item.pr_status, PrPipelineStatus::NeedsReview);
    assert_eq!(item.status, PipelineStatus::PrReview);

    item.update_pr_status(&open_pr(3, "issue-123"), true, true);
    assert_eq!(item.pr_status, PrPipelineStatus::Approved);

    let closed = GitHubPullRequest { state: "CLOSED".to_string(), ..open_pr(3, "issue-123") };
    item.update_pr_status(&closed, false, false);
    assert_eq!(item.pr_status, PrPipelineStatus::Closed);
    assert_eq!(item.status, PipelineStatus::Failed);
}

#[test]
fn sync_pr_status_needs_a_linked_pr() {
    let issue = sample_issue();
    let mut item = PipelineItem::from_issue(&issue, "t/r", "t/r", "coder");
    let status = PrStatus {
        pr: open_pr(4, "issue-123"),
        reviews: ReviewCounts { pending: 0, approved: 1, changes_requested: 0 },
    };
    assert!(!handy_devops::pipeline::sync_pr_status(&mut item, &status));
    assert_eq!(item.status, PipelineStatus::Queued);

    item.link_pr(&open_pr(4, "issue-123"));
    assert!(handy_devops::pipeline::sync_pr_status(&mut item, &status));
    assert_eq!(item.pr_status, PrPipelineStatus::Approved);
}

#[test]
fn detect_pr_matches_exact_branch() {
    let issue = sample_issue();
    let mut item = PipelineItem::from_issue(&issue, "t/r", "t/r", "coder");
    let prs = vec![open_pr(1, "other"), open_pr(2, "issue-123"), open_pr(3, "issue-123")];
    assert!(handy_devops::pipeline::detect_pr_for_item(&item, &prs).is_none());

    item.start_work("s", "/w", "issue-123", "m");
    let found = handy_devops::pipeline::detect_pr_for_item(&item, &prs).unwrap();
    assert_eq!(found.number, 2);
}

#[test]
fn archive_moves_only_terminal_items() {
    let issue = sample_issue();
    let mut state = PipelineState::new();
    let mut item = PipelineItem::from_issue(&issue, "t/r", "t/r", "coder");
    let id = item.id.clone();
    item.skip();
    state.add_item(item);

    let archived = state.archive_item(&id).unwrap();
    assert_eq!(archived.id, id);
    assert_eq!(state.get_all_items().len(), 0);
    assert_eq!(state.get_history(None).len(), 1);
}

#[test]
fn aggregate_promotes_matched_items() {
    let issue = sample_issue();
    let mut state = PipelineState::new();
    let item = PipelineItem::from_issue(&issue, "test/tracking", "test/repo", "coder");
    state.add_item(item);

    let session = handy_devops::orchestrator::AgentStatus {
        session: "handy-agent-123".to_string(),
        issue_ref: Some("test/repo#123".to_string()),
        repo: Some("test/repo".to_string()),
        issue_number: Some(123),
        worktree: Some("/tmp/wt".to_string()),
        agent_type: "coder".to_string(),
        machine_id: "m1".to_string(),
        started_at: "now".to_string(),
        is_attached: false,
        is_local: true,
    };
    let merged = handy_devops::pipeline::aggregate_pipeline_state(&state, &[session], "test/repo");
    assert_eq!(merged.len(), 1);
    assert_eq!(merged[0].status, PipelineStatus::InProgress);
    assert_eq!(merged[0].session_name, Some("handy-agent-123".to_string()));
    assert_eq!(merged[0].machine_id, Some("m1".to_string()));
}
