//! Deterministic names and issue-reference parsing.

use handy_devops::names;

#[test]
fn test_session_name_generation() {
    assert_eq!(names::session_name_for_issue(42), "handy-agent-42");
    assert_eq!(names::session_name_manual("test"), "handy-agent-manual-test");
}

#[test]
fn test_container_name_for_issue() {
    assert_eq!(names::container_name_for_issue(123), "handy-sandbox-123");
}

#[test]
fn docker_test_parse_issue_ref() {
    let (repo, num) = names::parse_issue_ref("org/repo#456").unwrap();
    assert_eq!(repo, "org/repo");
    assert_eq!(num, 456);
}

#[test]
fn docker_test_parse_issue_ref_invalid() {
    assert!(names::parse_issue_ref("invalid").is_err());
    assert!(names::parse_issue_ref("org/repo").is_err());
}

#[test]
fn parse_issue_ref_error_messages() {
    let e = names::parse_issue_ref("invalid").unwrap_err();
    assert_eq!(e, "Invalid issue reference: invalid. Expected format: org/repo#123");
    let e2 = names::parse_issue_ref("org/repo#abc").unwrap_err();
    assert_eq!(e2, "Invalid issue number: abc");
}

#[test]
fn parse_issue_ref_rejects_double_hash() {
    assert!(names::parse_issue_ref("org/repo#1#2").is_err());
}

#[test]
fn branch_and_volume_names() {
    assert_eq!(names::branch_name_for_issue(42), "issue-42");
    assert_eq!(names::get_agent_network_name(), "handy-agents");
    assert_eq!(names::get_coder_auth_volume_name(), "handy-coder-auth");
    assert_eq!(names::issue_ref_of("org/repo", 7), "org/repo#7");
    assert_eq!(names::support_container_name_for_issue(9), "handy-support-sandbox-9");
}
