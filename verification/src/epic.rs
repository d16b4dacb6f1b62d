//! Epic creation and management: an epic issue's body is the canonical
//! record of its phases, formatted and patched by the functions here.
//!
//! The embedded markdown is this library's own format: the formatters below
//! write it and the extractors read it back, so orchestration can treat the
//! issue tracker as the single source of truth.

use crate::github::GitHubIssue;
use crate::seqs::count_where;
use crate::text::{
    append_chars, append_str, chars_to_string, dec_spec, is_match, join_chars, join_spec,
    lines_spec, push_dec_u64, split_lines, str_chars, starts_with_str, subvec, trim_chars,
    trim_spec,
};
use vstd::prelude::*;

verus! {

/// What a new epic is made of.
#[derive(Debug, Clone)]
pub struct EpicConfig {
    /// Epic title, without any prefix.
    pub title: String,
    /// Tracking repository where the epic and sub-issues are created.
    pub repo: String,
    /// Work repository where code lives; the tracking repository where not
    /// given.
    pub work_repo: Option<String>,
    /// Epic goal, a sentence or two.
    pub goal: String,
    /// Success metrics, one checkbox each.
    pub success_metrics: Vec<String>,
    /// Phases with descriptions.
    pub phases: Vec<PhaseConfig>,
    /// Labels to add to the epic.
    pub labels: Vec<String>,
}

/// One phase within an epic.
#[derive(Debug, Clone)]
pub struct PhaseConfig {
    /// Phase name.
    pub name: String,
    /// Phase description.
    pub description: String,
    /// Approach: "manual", "agent-assisted" or "automated".
    pub approach: String,
    /// Key tasks of the phase.
    pub tasks: Vec<String>,
    /// Files to modify, as context for agents.
    pub files: Vec<String>,
    /// Names of phases that must complete first.
    pub dependencies: Vec<String>,
}

/// A created epic.
#[derive(Debug, Clone)]
pub struct EpicInfo {
    /// Epic issue number.
    pub epic_number: u32,
    /// Tracking repository.
    pub repo: String,
    /// Work repository.
    pub work_repo: String,
    /// Epic title.
    pub title: String,
    /// Issue URL.
    pub url: String,
    /// Phases.
    pub phases: Vec<PhaseConfig>,
}

/// What a new sub-issue is made of.
#[derive(Debug, Clone)]
pub struct SubIssueConfig {
    /// Sub-issue title.
    pub title: String,
    /// Phase number, starting at one.
    pub phase: u32,
    /// Estimated time, such as "6 hours".
    pub estimated_time: String,
    /// Dependencies, or "None".
    pub dependencies: String,
    /// Goal, a sentence or two.
    pub goal: String,
    /// Task breakdown, as markdown.
    pub tasks: String,
    /// Acceptance criteria, one checkbox each.
    pub acceptance_criteria: Vec<String>,
    /// Recommended agent type.
    pub agent_type: String,
    /// Work repository; inherited from the epic where not given.
    pub work_repo: Option<String>,
}

/// A created sub-issue.
#[derive(Debug, Clone)]
pub struct SubIssueInfo {
    /// Issue number.
    pub issue_number: u32,
    /// Issue title.
    pub title: String,
    /// Phase number.
    pub phase: u32,
    /// Recommended agent type.
    pub agent_type: String,
    /// Work repository.
    pub work_repo: String,
    /// Issue URL.
    pub url: String,
}

/// Epic progress statistics.
#[derive(Debug, Clone, Copy, PartialEq, Eq, Structural)]
pub struct EpicProgress {
    /// Sub-issues in all.
    pub total: usize,
    /// Closed sub-issues.
    pub completed: usize,
    /// Percentage complete.
    pub percentage: usize,
    /// Sub-issues still open.
    pub remaining: usize,
}

// ------------------------------------------------------------------
// Body formatting
// ------------------------------------------------------------------

/// Checkbox lines, one per entry.
pub open spec fn checkbox_lines(ms: Seq<String>) -> Seq<Seq<char>> {
    ms.map_values(|m: String| "- [ ] "@ + m@)
}

/// One phase section of an epic body, numbered from one.
pub open spec fn phase_block_spec(number: nat, p: PhaseConfig) -> Seq<char> {
    "### Phase "@ + dec_spec(number) + ": "@ + p.name@ + "\n"@ + p.description@
        + "\n\n**Approach**: "@ + p.approach@ + "\n**Status**: Not Started\n"@
}

/// The phase sections of an epic body, in order.
pub open spec fn phase_blocks(ps: Seq<PhaseConfig>) -> Seq<Seq<char>> {
    Seq::new(ps.len(), |i: int| phase_block_spec((i + 1) as nat, ps[i]))
}

/// The work-repository line, present only where it differs from the
/// tracking repository.
pub open spec fn work_repo_line_spec(work_repo: Seq<char>, repo: Seq<char>) -> Seq<char> {
    if work_repo != repo {
        "\n**Work Repository**: "@ + work_repo + "\n"@
    } else {
        Seq::empty()
    }
}

/// The full epic body: title, goal, optional work repository, success
/// metrics, phase sections, a progress line, and a notes section.
pub open spec fn epic_body_spec(config: EpicConfig, work_repo: Seq<char>) -> Seq<char> {
    "# "@ + config.title@ + "\n\n## Goal\n"@ + config.goal@ + "\n"@ + work_repo_line_spec(
        work_repo,
        config.repo@,
    ) + "## Success Metrics\n"@ + join_spec(checkbox_lines(config.success_metrics@), "\n"@)
        + "\n\n## Phases\n\n"@ + join_spec(phase_blocks(config.phases@), "\n"@)
        + "\n\n## Progress\n0/TBD sub-issues completed (0%)\n\n## Notes\nCreated via Handy DevOps Epic Workflow\n"@
}

/// Checkbox lines for the given entries.
fn checkbox_chars(ms: &Vec<String>) -> (r: Vec<Vec<char>>)
    ensures
        r.deep_view() == checkbox_lines(ms@),
{
    let mut r: Vec<Vec<char>> = Vec::new();
    let mut i: usize = 0;
    proof {
        assert(r.deep_view() =~= checkbox_lines(ms@.subrange(0, 0)));
    }
    while i < ms.len()
        invariant
            i <= ms@.len(),
            r.deep_view() == checkbox_lines(ms@.subrange(0, i as int)),
        decreases ms@.len() - i,
    {
        let ghost prev = r.deep_view();
        let mut line = str_chars("- [ ] ");
        append_str(&mut line, ms[i].as_str());
        r.push(line);
        proof {
            assert(r.deep_view() =~~= prev.push("- [ ] "@ + ms@[i as int]@));
            assert(checkbox_lines(ms@.subrange(0, i + 1)) =~= checkbox_lines(
                ms@.subrange(0, i as int),
            ).push("- [ ] "@ + ms@[i as int]@));
        }
        i = i + 1;
    }
    proof {
        assert(ms@.subrange(0, ms@.len() as int) =~= ms@);
    }
    r
}

/// One phase section, numbered from one.
fn phase_block_chars(number: u64, p: &PhaseConfig) -> (r: Vec<char>)
    ensures
        r@ == phase_block_spec(number as nat, *p),
{
    let mut v = str_chars("### Phase ");
    push_dec_u64(number, &mut v);
    append_str(&mut v, ": ");
    append_str(&mut v, p.name.as_str());
    append_str(&mut v, "\n");
    append_str(&mut v, p.description.as_str());
    append_str(&mut v, "\n\n**Approach**: ");
    append_str(&mut v, p.approach.as_str());
    append_str(&mut v, "\n**Status**: Not Started\n");
    v
}

/// Format an epic issue body from its configuration.
pub fn format_epic_body(config: &EpicConfig, work_repo: &str) -> (r: String)
    ensures
        r@ == epic_body_spec(*config, work_repo@),
{
    let metric_lines = checkbox_chars(&config.success_metrics);
    let sep = str_chars("\n");
    let metrics = join_chars(&metric_lines, &sep);
    let mut blocks: Vec<Vec<char>> = Vec::new();
    let mut i: usize = 0;
    proof {
        assert(blocks.deep_view() =~= phase_blocks(config.phases@.subrange(0, 0)));
    }
    while i < config.phases.len()
        invariant
            i <= config.phases@.len(),
            blocks.deep_view() == phase_blocks(config.phases@.subrange(0, i as int)),
        decreases config.phases@.len() - i,
    {
        let ghost prev = blocks.deep_view();
        let b = phase_block_chars((i as u64) + 1, &config.phases[i]);
        blocks.push(b);
        proof {
            assert(blocks.deep_view() =~~= prev.push(
                phase_block_spec((i + 1) as nat, config.phases@[i as int]),
            ));
            assert(phase_blocks(config.phases@.subrange(0, i + 1)) =~= phase_blocks(
                config.phases@.subrange(0, i as int),
            ).push(phase_block_spec((i + 1) as nat, config.phases@[i as int])));
        }
        i = i + 1;
    }
    proof {
        assert(config.phases@.subrange(0, config.phases@.len() as int) =~= config.phases@);
    }
    let phases = join_chars(&blocks, &sep);
    let mut v = str_chars("# ");
    append_str(&mut v, config.title.as_str());
    append_str(&mut v, "\n\n## Goal\n");
    append_str(&mut v, config.goal.as_str());
    append_str(&mut v, "\n");
    if !crate::text::str_eq(work_repo, config.repo.as_str()) {
        append_str(&mut v, "\n**Work Repository**: ");
        append_str(&mut v, work_repo);
        append_str(&mut v, "\n");
    }
    append_str(&mut v, "## Success Metrics\n");
    append_chars(&mut v, &metrics);
    append_str(&mut v, "\n\n## Phases\n\n");
    append_chars(&mut v, &phases);
    append_str(
        &mut v,
        "\n\n## Progress\n0/TBD sub-issues completed (0%)\n\n## Notes\nCreated via Handy DevOps Epic Workflow\n",
    );
    chars_to_string(&v)
}

/// The full sub-issue body: title, the epic and phase markers, estimates,
/// goal, tasks, acceptance criteria and the agent assignment section.
pub open spec fn sub_issue_body_spec(
    epic_number: u32,
    epic_repo: Seq<char>,
    work_repo: Seq<char>,
    config: SubIssueConfig,
) -> Seq<char> {
    let work_repo_line = if work_repo != epic_repo {
        "**Work Repository**: "@ + work_repo + "\n"@
    } else {
        Seq::empty()
    };
    "# "@ + config.title@ + "\n\n**Epic**: #"@ + dec_spec(epic_number as nat) + "\n**Phase**: "@
        + dec_spec(config.phase as nat) + "\n**Estimated Time**: "@ + config.estimated_time@
        + "\n**Dependencies**: "@ + config.dependencies@ + "\n"@ + work_repo_line + "## Goal\n"@
        + config.goal@ + "\n\n## Tasks\n"@ + config.tasks@ + "\n\n## Acceptance Criteria\n"@
        + join_spec(checkbox_lines(config.acceptance_criteria@), "\n"@)
        + "\n- [ ] Code follows style guide (cargo fmt, clippy, eslint)\n- [ ] Tests passing locally\n- [ ] PR created referencing this issue\n\n## Agent Assignment\n**Agent Type**: "@
        + config.agent_type@
        + "\n**Session**: handy-agent-TBD\n**Worktree**: handy-worktrees/issue-TBD\n**Started**: [Will be filled when agent spawns]\n"@
}

/// Format a sub-issue body from its configuration.
pub fn format_sub_issue_body(
    epic_number: u32,
    epic_repo: &str,
    work_repo: &str,
    config: &SubIssueConfig,
) -> (r: String)
    ensures
        r@ == sub_issue_body_spec(epic_number, epic_repo@, work_repo@, *config),
{
    let criteria_lines = checkbox_chars(&config.acceptance_criteria);
    let sep = str_chars("\n");
    let criteria = join_chars(&criteria_lines, &sep);
    let mut v = str_chars("# ");
    append_str(&mut v, config.title.as_str());
    append_str(&mut v, "\n\n**Epic**: #");
    push_dec_u64(epic_number as u64, &mut v);
    append_str(&mut v, "\n**Phase**: ");
    push_dec_u64(config.phase as u64, &mut v);
    append_str(&mut v, "\n**Estimated Time**: ");
    append_str(&mut v, config.estimated_time.as_str());
    append_str(&mut v, "\n**Dependencies**: ");
    append_str(&mut v, config.dependencies.as_str());
    append_str(&mut v, "\n");
    if !crate::text::str_eq(work_repo, epic_repo) {
        append_str(&mut v, "**Work Repository**: ");
        append_str(&mut v, work_repo);
        append_str(&mut v, "\n");
    }
    append_str(&mut v, "## Goal\n");
    append_str(&mut v, config.goal.as_str());
    append_str(&mut v, "\n\n## Tasks\n");
    append_str(&mut v, config.tasks.as_str());
    append_str(&mut v, "\n\n## Acceptance Criteria\n");
    append_chars(&mut v, &criteria);
    append_str(
        &mut v,
        "\n- [ ] Code follows style guide (cargo fmt, clippy, eslint)\n- [ ] Tests passing locally\n- [ ] PR created referencing this issue\n\n## Agent Assignment\n**Agent Type**: ",
    );
    append_str(&mut v, config.agent_type.as_str());
    append_str(
        &mut v,
        "\n**Session**: handy-agent-TBD\n**Worktree**: handy-worktrees/issue-TBD\n**Started**: [Will be filled when agent spawns]\n",
    );
    proof {
        assert(v@ =~= sub_issue_body_spec(epic_number, epic_repo@, work_repo@, *config));
    }
    chars_to_string(&v)
}

// ------------------------------------------------------------------
// Progress section patch
// ------------------------------------------------------------------

/// The progress line for the given counts.
pub open spec fn progress_line_spec(completed: nat, total: nat, percentage: nat) -> Seq<char> {
    dec_spec(completed) + "/"@ + dec_spec(total) + " sub-issues completed ("@ + dec_spec(
        percentage,
    ) + "%)"@
}

/// The lines with the one following each progress heading replaced.
pub open spec fn progress_patch_rec(
    lines: Seq<Seq<char>>,
    skip: bool,
    repl: Seq<char>,
) -> Seq<Seq<char>>
    decreases lines.len(),
{
    if lines.len() == 0 {
        Seq::empty()
    } else if skip {
        seq![repl] + progress_patch_rec(lines.subrange(1, lines.len() as int), false, repl)
    } else if is_match(lines[0], "## Progress"@, 0) {
        seq![lines[0]] + progress_patch_rec(lines.subrange(1, lines.len() as int), true, repl)
    } else {
        seq![lines[0]] + progress_patch_rec(lines.subrange(1, lines.len() as int), false, repl)
    }
}

/// Replace the line after each progress heading with updated statistics,
/// a targeted textual patch that leaves everything else as it was.
pub fn update_progress_section(
    body: &str,
    completed: usize,
    total: usize,
    percentage: usize,
) -> (r: String)
    ensures
        r@ == join_spec(
            progress_patch_rec(
                lines_spec(body@),
                false,
                progress_line_spec(completed as nat, total as nat, percentage as nat),
            ),
            "\n"@,
        ),
{
    let mut repl: Vec<char> = Vec::new();
    push_dec_u64(completed as u64, &mut repl);
    append_str(&mut repl, "/");
    push_dec_u64(total as u64, &mut repl);
    append_str(&mut repl, " sub-issues completed (");
    push_dec_u64(percentage as u64, &mut repl);
    append_str(&mut repl, "%)");
    let bv = str_chars(body);
    let lines = split_lines(&bv);
    let ghost lv = lines.deep_view();
    let mut out: Vec<Vec<char>> = Vec::new();
    let mut skip: bool = false;
    let mut i: usize = 0;
    proof {
        assert(lv.subrange(0, lv.len() as int) =~= lv);
    }
    while i < lines.len()
        invariant
            i <= lines@.len(),
            lv == lines.deep_view(),
            repl@ == progress_line_spec(completed as nat, total as nat, percentage as nat),
            out.deep_view() + progress_patch_rec(
                lv.subrange(i as int, lv.len() as int),
                skip,
                repl@,
            ) == progress_patch_rec(lv, false, repl@),
        decreases lines@.len() - i,
    {
        let ghost rest = lv.subrange(i as int, lv.len() as int);
        let ghost prev_out = out.deep_view();
        proof {
            assert(rest[0] == lv[i as int]);
            assert(lv[i as int] == lines@[i as int]@);
            assert(rest.subrange(1, rest.len() as int) =~= lv.subrange(i + 1, lv.len() as int));
        }
        if skip {
            out.push(subvec(&repl, 0, repl.len()));
            skip = false;
            proof {
                assert(repl@.subrange(0, repl@.len() as int) =~= repl@);
                assert(out.deep_view() =~~= prev_out.push(repl@));
                assert(prev_out + (seq![repl@] + progress_patch_rec(
                    lv.subrange(i + 1, lv.len() as int),
                    false,
                    repl@,
                )) =~= prev_out.push(repl@) + progress_patch_rec(
                    lv.subrange(i + 1, lv.len() as int),
                    false,
                    repl@,
                ));
            }
        } else {
            let starts = starts_with_str(&lines[i], "## Progress");
            out.push(subvec(&lines[i], 0, lines[i].len()));
            skip = starts;
            proof {
                assert(lines@[i as int]@.subrange(0, lines@[i as int]@.len() as int)
                    =~= lines@[i as int]@);
                assert(out.deep_view() =~~= prev_out.push(lv[i as int]));
                assert(prev_out + (seq![lv[i as int]] + progress_patch_rec(
                    lv.subrange(i + 1, lv.len() as int),
                    skip,
                    repl@,
                )) =~= prev_out.push(lv[i as int]) + progress_patch_rec(
                    lv.subrange(i + 1, lv.len() as int),
                    skip,
                    repl@,
                ));
            }
        }
        i = i + 1;
    }
    proof {
        assert(lv.subrange(lv.len() as int, lv.len() as int) =~= Seq::<Seq<char>>::empty());
        assert(out.deep_view() + Seq::<Seq<char>>::empty() =~= out.deep_view());
    }
    let sep = str_chars("\n");
    let joined = join_chars(&out, &sep);
    chars_to_string(&joined)
}

// ------------------------------------------------------------------
// Body extraction
// ------------------------------------------------------------------

/// What `extract_work_repo_from_body` finds on one trimmed line, where it
/// carries a work-repository marker with a non-empty value.
pub open spec fn work_repo_of_line(line: Seq<char>) -> Option<Seq<char>> {
    let t = trim_spec(line);
    if is_match(t, "**Work Repository**:"@, 0) {
        let v = trim_spec(t.subrange("**Work Repository**:"@.len() as int, t.len() as int));
        if v.len() > 0 {
            Some(v)
        } else {
            None
        }
    } else {
        None
    }
}

/// The first non-empty work-repository value among the lines.
pub open spec fn work_repo_scan(lines: Seq<Seq<char>>) -> Option<Seq<char>>
    decreases lines.len(),
{
    if lines.len() == 0 {
        None
    } else {
        match work_repo_of_line(lines[0]) {
            Some(v) => Some(v),
            None => work_repo_scan(lines.subrange(1, lines.len() as int)),
        }
    }
}

/// Extract the work repository from an epic body: the value of the first
/// `**Work Repository**:` line that carries one.
pub fn extract_work_repo_from_body(body: &str) -> (r: Option<String>)
    ensures
        match r {
            Some(v) => work_repo_scan(lines_spec(body@)) == Some(v@),
            None => work_repo_scan(lines_spec(body@)) is None,
        },
{
    let bv = str_chars(body);
    let lines = split_lines(&bv);
    let ghost lv = lines.deep_view();
    let marker = str_chars("**Work Repository**:");
    let mut i: usize = 0;
    proof {
        assert(lv.subrange(0, lv.len() as int) =~= lv);
    }
    while i < lines.len()
        invariant
            i <= lines@.len(),
            lv == lines.deep_view(),
            lv == lines_spec(body@),
            marker@ == "**Work Repository**:"@,
            work_repo_scan(lv) == work_repo_scan(lv.subrange(i as int, lv.len() as int)),
        decreases lines@.len() - i,
    {
        let ghost rest = lv.subrange(i as int, lv.len() as int);
        proof {
            assert(rest[0] == lv[i as int]);
            assert(lv[i as int] == lines@[i as int]@);
            assert(rest.subrange(1, rest.len() as int) =~= lv.subrange(i + 1, lv.len() as int));
        }
        let t = trim_chars(&lines[i]);
        if crate::text::starts_with_sub(&t, &marker) {
            let tail = subvec(&t, marker.len(), t.len());
            let v = trim_chars(&tail);
            if v.len() > 0 {
                proof {
                    assert(work_repo_of_line(lv[i as int]) == Some(v@));
                    assert(work_repo_scan(rest) == Some(v@));
                }
                return Some(chars_to_string(&v));
            }
        }
        proof {
            assert(work_repo_of_line(lv[i as int]) is None);
        }
        i = i + 1;
    }
    proof {
        assert(lv.subrange(lv.len() as int, lv.len() as int) =~= Seq::<Seq<char>>::empty());
    }
    None
}

// ------------------------------------------------------------------
// Phase extraction from an epic body
// ------------------------------------------------------------------

/// One phase as plain values, the ghost model of a [`PhaseConfig`].
pub struct PhaseModel {
    pub name: Seq<char>,
    pub description: Seq<char>,
    pub approach: Seq<char>,
    pub tasks: Seq<Seq<char>>,
    pub files: Seq<Seq<char>>,
    pub dependencies: Seq<Seq<char>>,
}

/// The model of one phase configuration.
pub open spec fn phase_model(p: PhaseConfig) -> PhaseModel {
    PhaseModel {
        name: p.name@,
        description: p.description@,
        approach: p.approach@,
        tasks: p.tasks@.map_values(|s: String| s@),
        files: p.files@.map_values(|s: String| s@),
        dependencies: p.dependencies@.map_values(|s: String| s@),
    }
}

/// The models of a list of phase configurations.
pub open spec fn phase_models(ps: Seq<PhaseConfig>) -> Seq<PhaseModel> {
    ps.map_values(|p: PhaseConfig| phase_model(p))
}

/// Scanner state while reading the phases section of an epic body.
pub struct EpicScanState {
    /// The phases heading was seen.
    pub in_phases: bool,
    /// A later top-level heading ended the section.
    pub stopped: bool,
    /// Name and approach of the phase being read, where one is open.
    pub cur: Option<(Seq<char>, Seq<char>)>,
    /// Trimmed description lines of the open phase.
    pub descr: Seq<Seq<char>>,
    /// Finished phases.
    pub done: Seq<PhaseModel>,
}

/// The scanner's starting state.
pub open spec fn epic_scan_init() -> EpicScanState {
    EpicScanState {
        in_phases: false,
        stopped: false,
        cur: None,
        descr: Seq::empty(),
        done: Seq::empty(),
    }
}

/// The open phase closed into a model, its description the joined lines.
pub open spec fn close_phase(name: Seq<char>, approach: Seq<char>, descr: Seq<Seq<char>>)
    -> PhaseModel {
    PhaseModel {
        name: name,
        description: trim_spec(join_spec(descr, " "@)),
        approach: approach,
        tasks: Seq::empty(),
        files: Seq::empty(),
        dependencies: Seq::empty(),
    }
}

/// The finished phases once input ends: any open phase is closed.
pub open spec fn epic_scan_finish(st: EpicScanState) -> Seq<PhaseModel> {
    match st.cur {
        Some(c) => st.done.push(close_phase(c.0, c.1, st.descr)),
        None => st.done,
    }
}

/// The phase name on a phase heading line: what follows the last colon
/// after the heading marks, trimmed.
pub open spec fn phase_heading_name(t: Seq<char>) -> Seq<char> {
    trim_spec(
        crate::text::last_segment(trim_spec(t.subrange(3, t.len() as int)), ':'),
    )
}

/// One line fed to the scanner.
pub open spec fn epic_scan_step(st: EpicScanState, line: Seq<char>) -> EpicScanState {
    let t = trim_spec(line);
    if st.stopped {
        st
    } else if t == "## Phases"@ {
        EpicScanState { in_phases: true, ..st }
    } else if !st.in_phases {
        st
    } else if is_match(t, "## "@, 0) {
        EpicScanState { stopped: true, ..st }
    } else if is_match(t, "### "@, 0) {
        let done = match st.cur {
            Some(c) => st.done.push(close_phase(c.0, c.1, st.descr)),
            None => st.done,
        };
        EpicScanState {
            in_phases: true,
            stopped: false,
            cur: Some((phase_heading_name(t), "manual"@)),
            descr: Seq::empty(),
            done: done,
        }
    } else if is_match(t, "**Approach**:"@, 0) {
        match st.cur {
            Some(c) => EpicScanState {
                cur: Some(
                    (
                        c.0,
                        crate::text::lower_spec(
                            trim_spec(t.subrange("**Approach**:"@.len() as int, t.len() as int)),
                        ),
                    ),
                ),
                ..st
            },
            None => st,
        }
    } else if is_match(t, "**"@, 0) || t == "---"@ || t.len() == 0 {
        st
    } else if st.cur is Some {
        EpicScanState { descr: st.descr.push(t), ..st }
    } else {
        st
    }
}

/// The scanner run over all lines.
pub open spec fn epic_scan_rec(lines: Seq<Seq<char>>, st: EpicScanState) -> Seq<PhaseModel>
    decreases lines.len(),
{
    if lines.len() == 0 {
        epic_scan_finish(st)
    } else {
        epic_scan_rec(lines.subrange(1, lines.len() as int), epic_scan_step(st, lines[0]))
    }
}

/// The phases an epic body describes.
pub open spec fn epic_phases_spec(body: Seq<char>) -> Seq<PhaseModel> {
    epic_scan_rec(lines_spec(body), epic_scan_init())
}

/// Close the open exec phase into a configuration.
fn close_phase_exec(name: &Vec<char>, approach: &Vec<char>, descr: &Vec<Vec<char>>) -> (r:
    PhaseConfig)
    ensures
        phase_model(r) == close_phase(name@, approach@, descr.deep_view()),
{
    let sep = str_chars(" ");
    let joined = join_chars(descr, &sep);
    let trimmed = trim_chars(&joined);
    let r = PhaseConfig {
        name: chars_to_string(name),
        description: chars_to_string(&trimmed),
        approach: chars_to_string(approach),
        tasks: Vec::new(),
        files: Vec::new(),
        dependencies: Vec::new(),
    };
    proof {
        assert(phase_model(r).tasks =~= Seq::<Seq<char>>::empty());
        assert(phase_model(r).files =~= Seq::<Seq<char>>::empty());
        assert(phase_model(r).dependencies =~= Seq::<Seq<char>>::empty());
        assert(phase_model(r) == close_phase(name@, approach@, descr.deep_view()));
    }
    r
}

/// Extract the phases from an epic body: sections under the phases heading,
/// each with its name, approach and accumulated description.
pub fn extract_phases_from_body(body: &str) -> (r: Vec<PhaseConfig>)
    ensures
        phase_models(r@) == epic_phases_spec(body@),
{
    let bv = str_chars(body);
    let lines = split_lines(&bv);
    let ghost lv = lines.deep_view();
    let mut in_phases: bool = false;
    let mut cur: Option<(Vec<char>, Vec<char>)> = None;
    let mut descr: Vec<Vec<char>> = Vec::new();
    let mut done: Vec<PhaseConfig> = Vec::new();
    let mut i: usize = 0;
    proof {
        assert(lv.subrange(0, lv.len() as int) =~= lv);
        assert(descr.deep_view() =~= Seq::<Seq<char>>::empty());
        assert(phase_models(done@) =~= Seq::<PhaseModel>::empty());
        assert(scan_model(in_phases, false, cur, &descr, &done) == epic_scan_init());
    }
    while i < lines.len()
        invariant
            i <= lines@.len(),
            lv == lines.deep_view(),
            lv == lines_spec(body@),
            epic_scan_rec(
                lv.subrange(i as int, lv.len() as int),
                scan_model(in_phases, false, cur, &descr, &done),
            ) == epic_scan_rec(lv, epic_scan_init()),
        decreases lines@.len() - i,
    {
        let ghost rest = lv.subrange(i as int, lv.len() as int);
        let ghost st0 = scan_model(in_phases, false, cur, &descr, &done);
        proof {
            assert(rest[0] == lv[i as int]);
            assert(lv[i as int] == lines@[i as int]@);
            assert(rest.subrange(1, rest.len() as int) =~= lv.subrange(i + 1, lv.len() as int));
        }
        let t = trim_chars(&lines[i]);
        if crate::text::chars_eq_str(&t, "## Phases") {
            in_phases = true;
        } else if !in_phases {
            // outside the phases section: nothing to read
        } else if crate::text::starts_with_str(&t, "## ") {
            // a later top-level heading ends the section
            let ghost stepped = epic_scan_step(st0, lv[i as int]);
            proof {
                lemma_scan_stopped(lv.subrange(i + 1, lv.len() as int), stepped);
            }
            match &cur {
                Some(c) => {
                    let ghost pre_done = phase_models(done@);
                    done.push(close_phase_exec(&c.0, &c.1, &descr));
                    proof {
                        assert(phase_models(done@) =~~= pre_done.push(
                            close_phase(c.0@, c.1@, st0.descr),
                        ));
                    }
                },
                None => {},
            }
            return done;
        } else if crate::text::starts_with_str(&t, "### ") {
            proof {
                reveal_strlit("### ");
            }
            let after = subvec(&t, 3, t.len());
            let trimmed_after = trim_chars(&after);
            let seg = crate::text::after_last(&trimmed_after, ':');
            let name = trim_chars(&seg);
            match &cur {
                Some(c) => {
                    let ghost pre_done = phase_models(done@);
                    done.push(close_phase_exec(&c.0, &c.1, &descr));
                    proof {
                        assert(phase_models(done@) =~~= pre_done.push(
                            close_phase(c.0@, c.1@, st0.descr),
                        ));
                    }
                },
                None => {},
            }
            cur = Some((name, str_chars("manual")));
            descr = Vec::new();
            proof {
                assert(descr.deep_view() =~= Seq::<Seq<char>>::empty());
            }
        } else if crate::text::starts_with_str(&t, "**Approach**:") {
            let marker = str_chars("**Approach**:");
            let tail = subvec(&t, marker.len(), t.len());
            let trimmed_tail = trim_chars(&tail);
            let approach = crate::text::lower_chars(&trimmed_tail);
            match &mut cur {
                Some(c) => {
                    c.1 = approach;
                },
                None => {},
            }
        } else if crate::text::starts_with_str(&t, "**") || crate::text::chars_eq_str(&t, "---")
            || t.len() == 0 {
            // metadata lines, rules and blanks add nothing
        } else if cur.is_some() {
            let ghost pre_descr = descr.deep_view();
            descr.push(t);
            proof {
                assert(descr.deep_view() =~~= pre_descr.push(trim_spec(lv[i as int])));
            }
        }
        proof {
            assert(scan_model(in_phases, false, cur, &descr, &done) == epic_scan_step(
                st0,
                lv[i as int],
            ));
        }
        i = i + 1;
    }
    proof {
        assert(lv.subrange(lv.len() as int, lv.len() as int) =~= Seq::<Seq<char>>::empty());
    }
    let ghost st_end = scan_model(in_phases, false, cur, &descr, &done);
    match &cur {
        Some(c) => {
            let ghost pre_done = phase_models(done@);
            done.push(close_phase_exec(&c.0, &c.1, &descr));
            proof {
                assert(phase_models(done@) =~~= pre_done.push(
                    close_phase(c.0@, c.1@, st_end.descr),
                ));
            }
        },
        None => {},
    }
    done
}

// ------------------------------------------------------------------
// Loading an epic back from its issue
// ------------------------------------------------------------------

/// A label marks the issue as an epic, compared without regard to case.
pub open spec fn has_epic_label(labels: Seq<String>) -> bool {
    exists|i: int| 0 <= i < labels.len() && crate::text::lower_spec(#[trigger] labels[i]@)
        == "epic"@
}

/// The issue is an epic: its title carries the prefix or a label says so.
pub open spec fn is_epic_issue(issue: GitHubIssue) -> bool {
    is_match(issue.title@, "[EPIC]"@, 0) || has_epic_label(issue.labels@)
}

/// The epic title an issue carries: the prefix removed once, trimmed.
pub open spec fn epic_title_spec(title: Seq<char>) -> Seq<char> {
    if is_match(title, "[EPIC]"@, 0) {
        trim_spec(title.subrange("[EPIC]"@.len() as int, title.len() as int))
    } else {
        trim_spec(title)
    }
}

/// Load an epic from its tracker issue: refused unless the issue is marked
/// as an epic; the title loses its prefix, the work repository and the
/// phases come out of the body.
pub fn load_epic(repo: &str, epic_number: u32, issue: &GitHubIssue) -> (r: Result<
    EpicInfo,
    String,
>)
    ensures
        (match r {
            Ok(info) => {
                &&& is_epic_issue(*issue)
                &&& info.epic_number == epic_number
                &&& info.repo@ == repo@
                &&& info.title@ == epic_title_spec(issue.title@)
                &&& info.url == issue.url
                &&& (match issue.body {
                    Some(b) => {
                        &&& (match work_repo_scan(lines_spec(b@)) {
                            Some(w) => info.work_repo@ == w,
                            None => info.work_repo@ == repo@,
                        })
                        &&& phase_models(info.phases@) == epic_phases_spec(b@)
                    },
                    None => info.work_repo@ == repo@ && phase_models(info.phases@)
                        == epic_phases_spec(""@),
                })
            },
            Err(e) => !is_epic_issue(*issue) && e@.len() > 0,
        }),
{
    let title_v = str_chars(issue.title.as_str());
    let has_prefix = starts_with_str(&title_v, "[EPIC]");
    let labelled = has_epic_label_exec(&issue.labels);
    if !has_prefix && !labelled {
        let mut e = str_chars("Issue #");
        push_dec_u64(epic_number as u64, &mut e);
        append_str(&mut e, " is not an epic (missing [EPIC] prefix or 'epic' label)");
        proof {
            reveal_strlit("Issue #");
        }
        return Err(chars_to_string(&e));
    }
    let title = if has_prefix {
        proof {
            reveal_strlit("[EPIC]");
        }
        let marker = str_chars("[EPIC]");
        let rest = subvec(&title_v, marker.len(), title_v.len());
        let t = trim_chars(&rest);
        chars_to_string(&t)
    } else {
        let t = trim_chars(&title_v);
        chars_to_string(&t)
    };
    let (work_repo, phases) = match &issue.body {
        Some(b) => {
            let wr = match extract_work_repo_from_body(b.as_str()) {
                Some(w) => w,
                None => crate::text::string_of(repo),
            };
            (wr, extract_phases_from_body(b.as_str()))
        },
        None => (crate::text::string_of(repo), extract_phases_from_body("")),
    };
    Ok(
        EpicInfo {
            epic_number,
            repo: crate::text::string_of(repo),
            work_repo,
            title,
            url: issue.url.clone(),
            phases,
        },
    )
}

/// A label marks the issue as an epic, compared without regard to case.
fn has_epic_label_exec(labels: &Vec<String>) -> (r: bool)
    ensures
        r == has_epic_label(labels@),
{
    let mut i: usize = 0;
    while i < labels.len()
        invariant
            i <= labels@.len(),
            forall|k: int|
                0 <= k < i ==> crate::text::lower_spec(#[trigger] labels@[k]@) != "epic"@,
        decreases labels@.len() - i,
    {
        let lv = str_chars(labels[i].as_str());
        let lowered = crate::text::lower_chars(&lv);
        if crate::text::chars_eq_str(&lowered, "epic") {
            return true;
        }
        i = i + 1;
    }
    false
}

// ------------------------------------------------------------------
// Epic progress from sub-issue counts
// ------------------------------------------------------------------

/// The issue carries the anchored epic marker.
pub open spec fn epic_sub_pred(epic_number: u32) -> spec_fn(GitHubIssue) -> bool {
    |issue: GitHubIssue|
        issue.body matches Some(b) && crate::text::contains_seq(
            b@,
            crate::orchestration::epic_pat(epic_number),
        )
}

/// The issue carries the marker and is closed, compared without regard to
/// case.
pub open spec fn closed_sub_pred(epic_number: u32) -> spec_fn(GitHubIssue) -> bool {
    |issue: GitHubIssue|
        (issue.body matches Some(b) && crate::text::contains_seq(
            b@,
            crate::orchestration::epic_pat(epic_number),
        )) && crate::text::lower_spec(issue.state@) == "closed"@
}

/// Recount an epic's progress from the tracker's full issue list — every
/// issue carrying the epic's marker, the closed ones completed — and
/// rewrite the body's progress line accordingly.
pub fn update_epic_progress(epic_number: u32, epic_body: &str, all_issues: &Vec<GitHubIssue>)
    -> (r: (EpicProgress, String))
    ensures
        r.0.total == count_where(all_issues@, epic_sub_pred(epic_number)),
        r.0.completed == count_where(all_issues@, closed_sub_pred(epic_number)),
        r.0.remaining == r.0.total - r.0.completed,
        r.0.total > 0 ==> r.0.percentage == (r.0.completed * 100) / r.0.total as int,
        r.0.total == 0 ==> r.0.percentage == 0,
        r.1@ == join_spec(
            progress_patch_rec(
                lines_spec(epic_body@),
                false,
                progress_line_spec(r.0.completed as nat, r.0.total as nat, r.0.percentage as nat),
            ),
            "\n"@,
        ),
{
    let pat = crate::orchestration::epic_pat_chars_pub(epic_number);
    let mut total: usize = 0;
    let mut completed: usize = 0;
    let mut i: usize = 0;
    proof {
        assert(all_issues@.subrange(0, 0) =~= Seq::<GitHubIssue>::empty());
    }
    while i < all_issues.len()
        invariant
            pat@ == crate::orchestration::epic_pat(epic_number),
            i <= all_issues@.len(),
            total == count_where(all_issues@.subrange(0, i as int), epic_sub_pred(epic_number)),
            completed == count_where(
                all_issues@.subrange(0, i as int),
                closed_sub_pred(epic_number),
            ),
            completed <= total <= i,
        decreases all_issues@.len() - i,
    {
        proof {
            assert(all_issues@.subrange(0, i + 1).drop_last() =~= all_issues@.subrange(
                0,
                i as int,
            ));
            assert(all_issues@.subrange(0, i + 1).last() == all_issues@[i as int]);
        }
        let issue = &all_issues[i];
        let marked = match &issue.body {
            Some(b) => {
                let bv = str_chars(b.as_str());
                crate::text::contains_sub(&bv, &pat)
            },
            None => false,
        };
        proof {
            assert(marked == epic_sub_pred(epic_number)(all_issues@[i as int]));
        }
        if marked {
            total = total + 1;
            let sv = str_chars(issue.state.as_str());
            let lowered = crate::text::lower_chars(&sv);
            if crate::text::chars_eq_str(&lowered, "closed") {
                completed = completed + 1;
            }
        }
        proof {
            assert((marked && crate::text::lower_spec(all_issues@[i as int].state@) == "closed"@)
                == closed_sub_pred(epic_number)(all_issues@[i as int]));
        }
        i = i + 1;
    }
    proof {
        assert(all_issues@.subrange(0, all_issues@.len() as int) =~= all_issues@);
    }
    let progress = epic_progress_counts(total, completed);
    let updated = update_progress_section(epic_body, completed, total, progress.percentage);
    (progress, updated)
}

// ------------------------------------------------------------------
// Recovery from the tracker alone
// ------------------------------------------------------------------

/// One existing sub-issue of an epic, as recovery sees it.
#[derive(Debug, Clone)]
pub struct ExistingSubIssue {
    /// Issue number.
    pub issue_number: u32,
    /// Issue title.
    pub title: String,
    /// Phase the issue belongs to, where its body names one.
    pub phase: Option<u32>,
    /// Current state, open or closed.
    pub state: String,
    /// Labels on the issue.
    pub labels: Vec<String>,
    /// Issue URL.
    pub url: String,
    /// An agent is working on it.
    pub has_agent_working: bool,
    /// Pull request URL, where one exists.
    pub pr_url: Option<String>,
    /// Pull request number, where one exists.
    pub pr_number: Option<u64>,
}

/// Everything recovery reconstructs from the tracker alone.
#[derive(Debug, Clone)]
pub struct EpicRecoveryInfo {
    /// The epic.
    pub epic: EpicInfo,
    /// The raw epic body, for reading phase statuses.
    pub epic_body: String,
    /// The epic's existing sub-issues.
    pub sub_issues: Vec<ExistingSubIssue>,
    /// Progress statistics.
    pub progress: EpicProgress,
    /// Phases with no sub-issue yet.
    pub phases_without_issues: Vec<u32>,
    /// Sub-issues ready for an agent.
    pub ready_for_agents: Vec<ExistingSubIssue>,
    /// Sub-issues an agent is working on.
    pub in_progress: Vec<ExistingSubIssue>,
}

/// The phase a sub-issue body names: the number on the first phase-marker
/// line.
pub open spec fn sub_phase_scan(lines: Seq<Seq<char>>) -> Option<u32>
    decreases lines.len(),
{
    if lines.len() == 0 {
        None
    } else {
        let t = trim_spec(lines[0]);
        if is_match(t, "**Phase**:"@, 0) {
            let v = trim_spec(t.subrange("**Phase**:"@.len() as int, t.len() as int));
            if crate::text::all_digits(v) && crate::text::chars_to_nat(v) <= u32::MAX {
                Some(crate::text::chars_to_nat(v) as u32)
            } else {
                None
            }
        } else {
            sub_phase_scan(lines.subrange(1, lines.len() as int))
        }
    }
}

/// Extract the phase number a sub-issue body names.
pub fn sub_issue_phase(body: &str) -> (r: Option<u32>)
    ensures
        r == sub_phase_scan(lines_spec(body@)),
{
    let bv = str_chars(body);
    let lines = split_lines(&bv);
    let ghost lv = lines.deep_view();
    let marker = str_chars("**Phase**:");
    let mut i: usize = 0;
    proof {
        assert(lv.subrange(0, lv.len() as int) =~= lv);
    }
    while i < lines.len()
        invariant
            i <= lines@.len(),
            lv == lines.deep_view(),
            lv == lines_spec(body@),
            marker@ == "**Phase**:"@,
            sub_phase_scan(lv) == sub_phase_scan(lv.subrange(i as int, lv.len() as int)),
        decreases lines@.len() - i,
    {
        let ghost rest = lv.subrange(i as int, lv.len() as int);
        proof {
            assert(rest[0] == lv[i as int]);
            assert(lv[i as int] == lines@[i as int]@);
            assert(rest.subrange(1, rest.len() as int) =~= lv.subrange(i + 1, lv.len() as int));
        }
        let t = trim_chars(&lines[i]);
        if crate::text::starts_with_sub(&t, &marker) {
            let tail = subvec(&t, marker.len(), t.len());
            let v = trim_chars(&tail);
            return crate::text::parse_u32(&v);
        }
        i = i + 1;
    }
    proof {
        assert(lv.subrange(lv.len() as int, lv.len() as int) =~= Seq::<Seq<char>>::empty());
    }
    None
}

/// The issue's state, lower-cased, is "closed".
pub open spec fn closed_sub() -> spec_fn(ExistingSubIssue) -> bool {
    |s: ExistingSubIssue| crate::text::lower_spec(s.state@) == "closed"@
}

/// The sub-issue is open, labelled to do, and nobody works on it.
pub open spec fn ready_sub() -> spec_fn(ExistingSubIssue) -> bool {
    |s: ExistingSubIssue|
        crate::text::lower_spec(s.state@) == "open"@ && crate::orchestration::has_label(
            s.labels@,
            "todo"@,
        ) && !s.has_agent_working
}

/// An agent works on the sub-issue.
pub open spec fn working_sub() -> spec_fn(ExistingSubIssue) -> bool {
    |s: ExistingSubIssue| s.has_agent_working
}

/// Progress of an epic: of `total` sub-issues, `completed` are closed,
/// with an integer percentage.
pub fn epic_progress_counts(total: usize, completed: usize) -> (r: EpicProgress)
    requires
        completed <= total,
    ensures
        r.total == total,
        r.completed == completed,
        r.remaining == total - completed,
        total > 0 ==> r.percentage == (completed * 100) / total as int,
        total == 0 ==> r.percentage == 0,
{
    let percentage: usize = if total > 0 {
        proof {
            assert((completed as int * 100) / (total as int) <= 100) by (nonlinear_arith)
                requires
                    completed <= total,
                    total > 0,
            ;
        }
        ((completed as u128 * 100) / (total as u128)) as usize
    } else {
        0
    };
    EpicProgress { total, completed, percentage, remaining: total - completed }
}

/// An exact copy of one sub-issue record, field by field.
pub fn duplicate_sub_issue(s: &ExistingSubIssue) -> (r: ExistingSubIssue)
    ensures
        r.issue_number == s.issue_number,
        r.title == s.title,
        r.phase == s.phase,
        r.state == s.state,
        r.labels@ == s.labels@,
        r.url == s.url,
        r.has_agent_working == s.has_agent_working,
        r.pr_url == s.pr_url,
        r.pr_number == s.pr_number,
{
    ExistingSubIssue {
        issue_number: s.issue_number,
        title: s.title.clone(),
        phase: s.phase,
        state: s.state.clone(),
        labels: crate::github::clone_strings(&s.labels),
        url: s.url.clone(),
        has_agent_working: s.has_agent_working,
        pr_url: crate::text::clone_opt_string(&s.pr_url),
        pr_number: s.pr_number,
    }
}

/// A sub-issue in the list names the phase.
pub open spec fn phase_covered(subs: Seq<ExistingSubIssue>, p: u32) -> bool {
    exists|k: int| 0 <= k < subs.len() && (#[trigger] subs[k]).phase == Some(p)
}

/// Reconstruct full recovery information from the tracker's answers alone:
/// progress from the closed counts, the phases that still lack a sub-issue,
/// and which sub-issues are ready for agents or already being worked — with
/// no dependency on any local cache or live session.
pub fn build_epic_recovery(
    epic: EpicInfo,
    epic_body: String,
    sub_issues: Vec<ExistingSubIssue>,
) -> (r: EpicRecoveryInfo)
    requires
        epic.phases@.len() < u32::MAX,
    ensures
        r.epic == epic,
        r.epic_body == epic_body,
        r.sub_issues@ == sub_issues@,
        r.progress.total == sub_issues@.len(),
        r.progress.completed == crate::seqs::count_where(sub_issues@, closed_sub()),
        r.phases_without_issues@.len() + crate::seqs::count_where(
            Seq::new(epic.phases@.len(), |i: int| ((i + 1) as u32)),
            |p: u32| phase_covered(sub_issues@, p),
        ) == epic.phases@.len(),
        forall|k: int|
            0 <= k < r.phases_without_issues@.len() ==> 1 <= #[trigger] r.phases_without_issues@[k]
                <= epic.phases@.len() && !phase_covered(sub_issues@, r.phases_without_issues@[k]),
        r.ready_for_agents@.len() == crate::seqs::count_where(sub_issues@, ready_sub()),
        r.in_progress@.len() == crate::seqs::count_where(sub_issues@, working_sub()),
{
    let total = sub_issues.len();
    let mut completed: usize = 0;
    let mut ready: Vec<ExistingSubIssue> = Vec::new();
    let mut working: Vec<ExistingSubIssue> = Vec::new();
    let mut i: usize = 0;
    proof {
        assert(sub_issues@.subrange(0, 0) =~= Seq::<ExistingSubIssue>::empty());
    }
    while i < sub_issues.len()
        invariant
            i <= sub_issues@.len(),
            completed == crate::seqs::count_where(sub_issues@.subrange(0, i as int), closed_sub()),
            ready@.len() == crate::seqs::count_where(sub_issues@.subrange(0, i as int), ready_sub()),
            working@.len() == crate::seqs::count_where(
                sub_issues@.subrange(0, i as int),
                working_sub(),
            ),
            completed <= i,
        decreases sub_issues@.len() - i,
    {
        proof {
            assert(sub_issues@.subrange(0, i + 1).drop_last() =~= sub_issues@.subrange(
                0,
                i as int,
            ));
            assert(sub_issues@.subrange(0, i + 1).last() == sub_issues@[i as int]);
        }
        let s = &sub_issues[i];
        let sv = str_chars(s.state.as_str());
        let lowered = crate::text::lower_chars(&sv);
        let is_closed = crate::text::chars_eq_str(&lowered, "closed");
        let is_open = crate::text::chars_eq_str(&lowered, "open");
        proof {
            assert(is_closed == closed_sub()(sub_issues@[i as int]));
        }
        if is_closed {
            completed = completed + 1;
        }
        let is_ready = is_open && has_label_vec(&s.labels, "todo") && !s.has_agent_working;
        proof {
            assert(is_ready == ready_sub()(sub_issues@[i as int]));
        }
        if is_ready {
            ready.push(duplicate_sub_issue(s));
        }
        if s.has_agent_working {
            working.push(duplicate_sub_issue(s));
        }
        proof {
            assert(s.has_agent_working == working_sub()(sub_issues@[i as int]));
        }
        i = i + 1;
    }
    proof {
        assert(sub_issues@.subrange(0, sub_issues@.len() as int) =~= sub_issues@);
    }
    let progress = epic_progress_counts(total, completed);
    let mut without: Vec<u32> = Vec::new();
    let mut p: usize = 0;
    let n = epic.phases.len();
    let ghost all_phases = Seq::new(epic.phases@.len(), |i: int| ((i + 1) as u32));
    proof {
        assert(all_phases.subrange(0, 0) =~= Seq::<u32>::empty());
    }
    while p < n
        invariant
            epic.phases@.len() < u32::MAX,
            n == epic.phases@.len(),
            p <= n,
            all_phases == Seq::new(epic.phases@.len(), |i: int| ((i + 1) as u32)),
            without@.len() + crate::seqs::count_where(
                all_phases.subrange(0, p as int),
                |q: u32| phase_covered(sub_issues@, q),
            ) == p,
            forall|k: int|
                0 <= k < without@.len() ==> 1 <= #[trigger] without@[k] <= epic.phases@.len()
                    && !phase_covered(sub_issues@, without@[k]),
        decreases n - p,
    {
        proof {
            assert(all_phases.subrange(0, p + 1).drop_last() =~= all_phases.subrange(0, p as int));
            assert(all_phases.subrange(0, p + 1).last() == all_phases[p as int]);
            assert(all_phases[p as int] == ((p + 1) as u32));
        }
        let number: u32 = (p as u32) + 1;
        let mut covered = false;
        let mut j: usize = 0;
        while j < sub_issues.len()
            invariant
                j <= sub_issues@.len(),
                covered ==> phase_covered(sub_issues@, number),
                !covered ==> forall|k: int|
                    0 <= k < j ==> (#[trigger] sub_issues@[k]).phase != Some(number),
            decreases sub_issues@.len() - j,
        {
            if !covered {
                let hit = match sub_issues[j].phase {
                    Some(q) => q == number,
                    None => false,
                };
                if hit {
                    covered = true;
                }
            }
            j = j + 1;
        }
        if !covered {
            without.push(number);
        }
        p = p + 1;
    }
    proof {
        assert(all_phases.subrange(0, all_phases.len() as int) =~= all_phases);
    }
    EpicRecoveryInfo {
        epic,
        epic_body,
        sub_issues,
        progress,
        phases_without_issues: without,
        ready_for_agents: ready,
        in_progress: working,
    }
}

/// The label is among the labels.
fn has_label_vec(ls: &Vec<String>, l: &str) -> (r: bool)
    ensures
        r == crate::orchestration::has_label(ls@, l@),
{
    let mut i: usize = 0;
    while i < ls.len()
        invariant
            i <= ls@.len(),
            forall|k: int| 0 <= k < i ==> ls@[k]@ != l@,
        decreases ls@.len() - i,
    {
        if crate::text::str_eq(ls[i].as_str(), l) {
            return true;
        }
        i = i + 1;
    }
    false
}

/// The ghost scanner state the exec variables stand for.
pub open spec fn scan_model(
    in_phases: bool,
    stopped: bool,
    cur: Option<(Vec<char>, Vec<char>)>,
    descr: &Vec<Vec<char>>,
    done: &Vec<PhaseConfig>,
) -> EpicScanState {
    EpicScanState {
        in_phases: in_phases,
        stopped: stopped,
        cur: match cur {
            Some(c) => Some((c.0@, c.1@)),
            None => None,
        },
        descr: descr.deep_view(),
        done: phase_models(done@),
    }
}

/// Once stopped, the scanner ignores the rest of the input.
proof fn lemma_scan_stopped(lines: Seq<Seq<char>>, st: EpicScanState)
    requires
        st.stopped,
    ensures
        epic_scan_rec(lines, st) == epic_scan_finish(st),
    decreases lines.len(),
{
    if lines.len() > 0 {
        lemma_scan_stopped(lines.subrange(1, lines.len() as int), st);
    }
}

} // verus!
