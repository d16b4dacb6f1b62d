//! Status propagation patches and credential sanitizing.

use handy_devops::orchestration::{
    extract_phase_name_from_body, format_phase_status, mark_phase_status, update_phases_in_body,
    update_progress_in_body, PhaseStatus,
};
use handy_devops::sandbox::sanitize_sensitive_data;

fn status(n: u32, name: &str, s: &str, total: u32, completed: u32) -> PhaseStatus {
    PhaseStatus {
        phase_number: n,
        phase_name: name.to_string(),
        approach: "manual".to_string(),
        total_issues: total,
        completed_issues: completed,
        in_progress_issues: 0,
        status: s.to_string(),
    }
}

#[test]
fn status_lines_carry_counts() {
    assert_eq!(format_phase_status(&status(1, "One", "completed", 3, 3)), "**Status**: Complete (3/3 issues)");
    assert_eq!(format_phase_status(&status(1, "One", "in_progress", 0, 0)), "**Status**: In Progress");
    assert_eq!(format_phase_status(&status(1, "One", "unheard_of", 0, 0)), "**Status**: Not Started");
}

#[test]
fn patch_rewrites_only_the_status_line() {
    let body = "# E\n\n### Phase 1: One\nkeep me\n**Status**: Not Started\nalso keep\n";
    let patched = update_phases_in_body(body, &[status(1, "One", "completed", 2, 2)]);
    assert_eq!(
        patched,
        "# E\n\n### Phase 1: One\nkeep me\n**Status**: Complete (2/2 issues)\nalso keep\n"
    );

    // a phase that is not in the body leaves it untouched
    let unchanged = update_phases_in_body(body, &[status(9, "Missing", "completed", 0, 0)]);
    assert_eq!(unchanged, body);
}

#[test]
fn progress_line_is_patched_in_place() {
    let body = "# E\n\n## Progress\n0/0 sub-issues completed (0%)\n\n## Notes\n";
    let patched = update_progress_in_body(body, 3, 4, 75);
    assert_eq!(patched, "# E\n\n## Progress\n3/4 sub-issues completed (75%)\n\n## Notes\n");
}

#[test]
fn phase_names_are_read_back() {
    let body = "### Phase 1: One\n**Status**: Not Started\n### Phase 2: Two\n**Status**: Complete\n";
    assert_eq!(extract_phase_name_from_body(body, 2), Some("Two".to_string()));
    assert_eq!(extract_phase_name_from_body(body, 3), None);
}

#[test]
fn marking_a_phase_patches_its_line() {
    let body = "### Phase 1: One\n**Status**: Not Started\n";
    let marked = mark_phase_status(body, 1, "skipped").unwrap();
    assert_eq!(marked, "### Phase 1: One\n**Status**: Skipped\n");

    let e = mark_phase_status(body, 4, "completed").unwrap_err();
    assert_eq!(e, "Phase 4 not found in Epic body");
}

#[test]
fn credentials_are_redacted() {
    let noisy = "push failed: token ghp_abc123 rejected, Bearer xyz.42 expired";
    let clean = sanitize_sensitive_data(noisy, None);
    assert_eq!(clean, "push failed: token [REDACTED] rejected, [REDACTED] expired");

    let keyed = sanitize_sensitive_data("GH_TOKEN=s3cr3t leaked", None);
    assert_eq!(keyed, "[REDACTED] leaked");
}

#[test]
fn home_paths_become_tildes() {
    let out = sanitize_sensitive_data("wrote /home/someone/x and /home/someone/y", Some("/home/someone"));
    assert_eq!(out, "wrote ~/x and ~/y");
    let untouched = sanitize_sensitive_data("nothing here", Some(""));
    assert_eq!(untouched, "nothing here");
}
