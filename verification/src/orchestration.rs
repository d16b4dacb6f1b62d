//! Epic orchestration: creating one sub-issue per phase and deriving phase
//! status, with the epic issue's body as the source of truth.
//!
//! Re-running orchestration never duplicates sub-issues: the planner first
//! scans all issues for the embedded epic and phase markers and reuses what
//! it finds.

use crate::epic::{
    sub_issue_body_spec, EpicInfo, PhaseConfig, SubIssueConfig, SubIssueInfo,
};
use crate::github::GitHubIssue;
use crate::seqs::{first_where, lemma_first_where, lemma_first_where_is, lemma_first_where_none};
use crate::text::{
    append_chars, append_str, chars_to_string, contains_seq, contains_sub, dec_spec, is_match,
    join_spec, push_dec_u64, str_chars, string_of, subvec, trim_chars, trim_spec,
};
use vstd::prelude::*;

verus! {

/// Result of starting orchestration for an epic.
#[derive(Debug, Clone)]
pub struct OrchestrationResult {
    /// Epic number.
    pub epic_number: u32,
    /// Sub-issues now standing for the started phases, created or reused.
    pub sub_issues: Vec<SubIssueInfo>,
    /// Agents spawned for agent-assisted sub-issues.
    pub spawned_agents: Vec<SpawnedAgentInfo>,
    /// Phases that were started.
    pub started_phases: Vec<u32>,
    /// Warnings gathered along the way; partial success is never silent.
    pub warnings: Vec<String>,
}

/// One spawned agent.
#[derive(Debug, Clone)]
pub struct SpawnedAgentInfo {
    /// Issue the agent works on.
    pub issue_number: u32,
    /// Session name.
    pub session_name: String,
    /// Worktree path.
    pub worktree_path: String,
    /// Agent type.
    pub agent_type: String,
}

/// What an orchestration run was asked to do.
#[derive(Debug, Clone)]
pub struct StartOrchestrationConfig {
    /// Phases to start, numbered from one; the first phase where empty.
    pub phases: Vec<u32>,
    /// Spawn agents for agent-assisted phases.
    pub auto_spawn_agents: bool,
    /// Agent type for spawned agents.
    pub default_agent_type: String,
    /// Local path of the repository worktrees are created under.
    pub worktree_base: String,
}

/// Status of one phase of an epic.
#[derive(Debug, Clone)]
pub struct PhaseStatus {
    pub phase_number: u32,
    pub phase_name: String,
    pub approach: String,
    pub total_issues: u32,
    pub completed_issues: u32,
    pub in_progress_issues: u32,
    /// "not_started", "in_progress", "ready", "completed" or "skipped".
    pub status: String,
}

// ------------------------------------------------------------------
// Title truncation
// ------------------------------------------------------------------

/// Index of the last space, or `-1` where there is none.
pub open spec fn last_space(s: Seq<char>) -> int
    decreases s.len(),
{
    if s.len() == 0 {
        -1
    } else if s.last() == ' ' {
        s.len() - 1
    } else {
        last_space(s.drop_last())
    }
}

proof fn lemma_last_space_at(s: Seq<char>, j: int)
    requires
        0 <= j < s.len(),
        s[j] == ' ',
        forall|k: int| j < k < s.len() ==> s[k] != ' ',
    ensures
        last_space(s) == j,
    decreases s.len(),
{
    if j < s.len() - 1 {
        lemma_last_space_at(s.drop_last(), j);
    }
}

proof fn lemma_last_space_none(s: Seq<char>)
    requires
        forall|k: int| 0 <= k < s.len() ==> s[k] != ' ',
    ensures
        last_space(s) == -1,
    decreases s.len(),
{
    if s.len() > 0 {
        lemma_last_space_none(s.drop_last());
    }
}

/// A title bounded at one hundred characters: longer titles are cut at the
/// last word boundary before the bound and marked with an ellipsis.
pub open spec fn truncate_title_spec(title: Seq<char>) -> Seq<char> {
    let t = trim_spec(title);
    if t.len() <= 100 {
        t
    } else {
        let prefix = t.subrange(0, 97);
        let cut = if last_space(prefix) >= 0 {
            last_space(prefix)
        } else {
            97
        };
        t.subrange(0, cut) + "..."@
    }
}

/// Bound a title at one hundred characters, breaking at a word boundary.
pub fn truncate_title(title: &str) -> (r: String)
    ensures
        r@ == truncate_title_spec(title@),
{
    let tv = str_chars(title);
    let t = trim_chars(&tv);
    if t.len() <= 100 {
        return chars_to_string(&t);
    }
    let prefix = subvec(&t, 0, 97);
    let mut j: usize = prefix.len();
    while j > 0
        invariant
            t@ == trim_spec(title@),
            t@.len() > 100,
            prefix@ == t@.subrange(0, 97),
            j <= prefix@.len(),
            forall|k: int| j <= k < prefix@.len() ==> prefix@[k] != ' ',
        decreases j,
    {
        if prefix[j - 1] == ' ' {
            proof {
                lemma_last_space_at(prefix@, j - 1);
            }
            let mut out = subvec(&t, 0, j - 1);
            append_str(&mut out, "...");
            return chars_to_string(&out);
        }
        j = j - 1;
    }
    proof {
        lemma_last_space_none(prefix@);
    }
    let mut out = subvec(&t, 0, 97);
    append_str(&mut out, "...");
    chars_to_string(&out)
}

// ------------------------------------------------------------------
// One sub-issue per phase
// ------------------------------------------------------------------

/// The time estimate for a phase, by how many tasks it lists.
pub open spec fn estimate_spec(task_count: nat) -> Seq<char> {
    if task_count == 0 {
        "2-4 hours"@
    } else if task_count <= 3 {
        "4-8 hours"@
    } else if task_count <= 6 {
        "1-2 days"@
    } else {
        "2-3 days"@
    }
}

/// Estimate the time a phase takes from the number of its tasks.
pub fn estimate_phase_time(phase: &PhaseConfig) -> (r: String)
    ensures
        r@ == estimate_spec(phase.tasks@.len()),
{
    let n = phase.tasks.len();
    if n == 0 {
        string_of("2-4 hours")
    } else if n <= 3 {
        string_of("4-8 hours")
    } else if n <= 6 {
        string_of("1-2 days")
    } else {
        string_of("2-3 days")
    }
}

/// The agent type a phase's approach selects: the default for
/// agent-assisted phases, "automated" for automated ones, "manual"
/// otherwise.
pub open spec fn phase_agent_type(approach: Seq<char>, default_agent: Seq<char>) -> Seq<char> {
    if approach == "agent-assisted"@ {
        default_agent
    } else if approach == "automated"@ {
        "automated"@
    } else {
        "manual"@
    }
}

/// Dashed list lines, one per entry.
pub open spec fn dash_lines(ts: Seq<String>) -> Seq<Seq<char>> {
    ts.map_values(|t: String| "- "@ + t@)
}

/// Backticked file list lines, one per entry.
pub open spec fn file_lines(fs: Seq<String>) -> Seq<Seq<char>> {
    fs.map_values(|f: String| "- `"@ + f@ + "`"@)
}

/// The tasks text of a phase issue: the description where the phase lists
/// no tasks, else the task list, with the relevant files appended where any
/// are named.
pub open spec fn tasks_text_spec(p: PhaseConfig) -> Seq<char> {
    if p.tasks@.len() == 0 {
        p.description@
    } else {
        let task_list = join_spec(dash_lines(p.tasks@), "\n"@);
        if p.files@.len() == 0 {
            task_list
        } else {
            task_list + "\n\n**Relevant files**:\n"@ + join_spec(file_lines(p.files@), "\n"@)
        }
    }
}

/// Dashed list lines for the given entries.
fn dash_chars(ts: &Vec<String>) -> (r: Vec<Vec<char>>)
    ensures
        r.deep_view() == dash_lines(ts@),
{
    let mut r: Vec<Vec<char>> = Vec::new();
    let mut i: usize = 0;
    proof {
        assert(r.deep_view() =~= dash_lines(ts@.subrange(0, 0)));
    }
    while i < ts.len()
        invariant
            i <= ts@.len(),
            r.deep_view() == dash_lines(ts@.subrange(0, i as int)),
        decreases ts@.len() - i,
    {
        let ghost prev = r.deep_view();
        let mut line = str_chars("- ");
        append_str(&mut line, ts[i].as_str());
        r.push(line);
        proof {
            assert(r.deep_view() =~~= prev.push("- "@ + ts@[i as int]@));
            assert(dash_lines(ts@.subrange(0, i + 1)) =~= dash_lines(
                ts@.subrange(0, i as int),
            ).push("- "@ + ts@[i as int]@));
        }
        i = i + 1;
    }
    proof {
        assert(ts@.subrange(0, ts@.len() as int) =~= ts@);
    }
    r
}

/// Backticked file lines for the given entries.
fn file_chars(fs: &Vec<String>) -> (r: Vec<Vec<char>>)
    ensures
        r.deep_view() == file_lines(fs@),
{
    let mut r: Vec<Vec<char>> = Vec::new();
    let mut i: usize = 0;
    proof {
        assert(r.deep_view() =~= file_lines(fs@.subrange(0, 0)));
    }
    while i < fs.len()
        invariant
            i <= fs@.len(),
            r.deep_view() == file_lines(fs@.subrange(0, i as int)),
        decreases fs@.len() - i,
    {
        let ghost prev = r.deep_view();
        let mut line = str_chars("- `");
        append_str(&mut line, fs[i].as_str());
        append_str(&mut line, "`");
        r.push(line);
        proof {
            assert(r.deep_view() =~~= prev.push("- `"@ + fs@[i as int]@ + "`"@));
            assert(file_lines(fs@.subrange(0, i + 1)) =~= file_lines(
                fs@.subrange(0, i as int),
            ).push("- `"@ + fs@[i as int]@ + "`"@));
        }
        i = i + 1;
    }
    proof {
        assert(fs@.subrange(0, fs@.len() as int) =~= fs@);
    }
    r
}

/// The configuration of the one sub-issue a phase gets: a bounded
/// "Phase N: Name" title, the approach-selected agent type, the phase's
/// tasks and files as the task text, and standard acceptance criteria.
/// The agent working the issue handles any further task breakdown.
pub fn create_phase_issue(
    phase_num: u32,
    phase: &PhaseConfig,
    work_repo: &str,
    default_agent_type: &str,
) -> (r: SubIssueConfig)
    ensures
        r.title@ == truncate_title_spec(
            "Phase "@ + dec_spec(phase_num as nat) + ": "@ + phase.name@,
        ),
        r.phase == phase_num,
        r.estimated_time@ == estimate_spec(phase.tasks@.len()),
        r.dependencies@ == (if phase.dependencies@.len() == 0 {
            "None"@
        } else {
            join_spec(phase.dependencies@.map_values(|d: String| d@), ", "@)
        }),
        r.goal == phase.description,
        r.tasks@ == tasks_text_spec(*phase),
        r.agent_type@ == phase_agent_type(phase.approach@, default_agent_type@),
        r.work_repo matches Some(w) && w@ == work_repo@,
        r.acceptance_criteria@.len() == (if phase.tasks@.len() == 0 {
            3int
        } else {
            4int
        }),
        phase.tasks@.len() > 0 ==> r.acceptance_criteria@[0]@ == dec_spec(phase.tasks@.len())
            + " tasks completed"@,
{
    let mut titlev = str_chars("Phase ");
    push_dec_u64(phase_num as u64, &mut titlev);
    append_str(&mut titlev, ": ");
    append_str(&mut titlev, phase.name.as_str());
    let title = truncate_title(chars_to_string(&titlev).as_str());

    let agent_type = if crate::text::str_eq(phase.approach.as_str(), "agent-assisted") {
        string_of(default_agent_type)
    } else if crate::text::str_eq(phase.approach.as_str(), "automated") {
        string_of("automated")
    } else {
        string_of("manual")
    };

    let sep = str_chars("\n");
    let tasks_text = if phase.tasks.len() == 0 {
        phase.description.clone()
    } else {
        let task_lines = dash_chars(&phase.tasks);
        let mut tl = crate::text::join_chars(&task_lines, &sep);
        if phase.files.len() > 0 {
            let fl = file_chars(&phase.files);
            let files_joined = crate::text::join_chars(&fl, &sep);
            append_str(&mut tl, "\n\n**Relevant files**:\n");
            append_chars(&mut tl, &files_joined);
        }
        chars_to_string(&tl)
    };

    let mut criteria: Vec<String> = Vec::new();
    if phase.tasks.len() > 0 {
        let mut c0: Vec<char> = Vec::new();
        push_dec_u64(phase.tasks.len() as u64, &mut c0);
        append_str(&mut c0, " tasks completed");
        criteria.push(chars_to_string(&c0));
    }
    criteria.push(string_of("All tasks completed"));
    criteria.push(string_of("Tests pass"));
    criteria.push(string_of("Code reviewed"));

    let dependencies = if phase.dependencies.len() == 0 {
        string_of("None")
    } else {
        let mut dl: Vec<Vec<char>> = Vec::new();
        let mut i: usize = 0;
        proof {
            assert(dl.deep_view() =~= phase.dependencies@.subrange(0, 0).map_values(
                |d: String| d@,
            ));
        }
        while i < phase.dependencies.len()
            invariant
                i <= phase.dependencies@.len(),
                dl.deep_view() == phase.dependencies@.subrange(0, i as int).map_values(
                    |d: String| d@,
                ),
            decreases phase.dependencies@.len() - i,
        {
            let ghost prev = dl.deep_view();
            dl.push(str_chars(phase.dependencies[i].as_str()));
            proof {
                assert(dl.deep_view() =~~= prev.push(phase.dependencies@[i as int]@));
                assert(phase.dependencies@.subrange(0, i + 1).map_values(|d: String| d@)
                    =~= phase.dependencies@.subrange(0, i as int).map_values(|d: String| d@).push(
                    phase.dependencies@[i as int]@,
                ));
            }
            i = i + 1;
        }
        proof {
            assert(phase.dependencies@.subrange(0, phase.dependencies@.len() as int)
                =~= phase.dependencies@);
        }
        let comma = str_chars(", ");
        let joined = crate::text::join_chars(&dl, &comma);
        chars_to_string(&joined)
    };

    SubIssueConfig {
        title,
        phase: phase_num,
        estimated_time: estimate_phase_time(phase),
        dependencies,
        goal: phase.description.clone(),
        tasks: tasks_text,
        acceptance_criteria: criteria,
        agent_type,
        work_repo: Some(string_of(work_repo)),
    }
}

// ------------------------------------------------------------------
// The orchestration plan
// ------------------------------------------------------------------

/// The anchored epic marker a sub-issue body carries.
pub open spec fn epic_pat(epic_number: u32) -> Seq<char> {
    "**Epic**: #"@ + dec_spec(epic_number as nat) + "\n"@
}

/// The anchored phase marker a sub-issue body carries.
pub open spec fn phase_pat(phase: u32) -> Seq<char> {
    "\n**Phase**: "@ + dec_spec(phase as nat) + "\n"@
}

/// The body carries both markers: it is the sub-issue of this epic and
/// phase.
pub open spec fn references_epic_phase(body: Seq<char>, epic_number: u32, phase: u32) -> bool {
    contains_seq(body, epic_pat(epic_number)) && contains_seq(body, phase_pat(phase))
}

/// The issue's body carries the markers of this epic and phase.
pub open spec fn is_phase_issue(issue: GitHubIssue, epic_number: u32, phase: u32) -> bool {
    issue.body matches Some(b) && references_epic_phase(b@, epic_number, phase)
}

/// The issue's body carries the markers of this epic and phase, as a
/// predicate for searching.
pub open spec fn phase_issue_pred(epic_number: u32, phase: u32) -> spec_fn(GitHubIssue) -> bool {
    |issue: GitHubIssue| is_phase_issue(issue, epic_number, phase)
}

/// The anchored epic marker as characters.
pub fn epic_pat_chars_pub(epic_number: u32) -> (r: Vec<char>)
    ensures
        r@ == epic_pat(epic_number),
{
    let mut v = str_chars("**Epic**: #");
    push_dec_u64(epic_number as u64, &mut v);
    append_str(&mut v, "\n");
    v
}

/// The anchored phase marker as characters.
fn phase_pat_chars(phase: u32) -> (r: Vec<char>)
    ensures
        r@ == phase_pat(phase),
{
    let mut v = str_chars("\n**Phase**: ");
    push_dec_u64(phase as u64, &mut v);
    append_str(&mut v, "\n");
    v
}

/// Find the first issue carrying the markers of this epic and phase.
pub fn find_existing_phase_issue<'a>(
    issues: &'a Vec<GitHubIssue>,
    epic_number: u32,
    phase: u32,
) -> (r: Option<&'a GitHubIssue>)
    ensures
        ({
            let j = first_where(issues@, phase_issue_pred(epic_number, phase));
            match r {
                Some(it) => j >= 0 && *it == issues@[j],
                None => j == -1,
            }
        }),
{
    let ep = epic_pat_chars_pub(epic_number);
    let pp = phase_pat_chars(phase);
    let mut i: usize = 0;
    while i < issues.len()
        invariant
            ep@ == epic_pat(epic_number),
            pp@ == phase_pat(phase),
            i <= issues@.len(),
            forall|k: int|
                0 <= k < i ==> !#[trigger] phase_issue_pred(epic_number, phase)(issues@[k]),
        decreases issues@.len() - i,
    {
        let hit = match &issues[i].body {
            Some(b) => {
                let bv = str_chars(b.as_str());
                contains_sub(&bv, &ep) && contains_sub(&bv, &pp)
            },
            None => false,
        };
        if hit {
            proof {
                assert(phase_issue_pred(epic_number, phase)(issues@[i as int]));
                lemma_first_where_is(issues@, phase_issue_pred(epic_number, phase), i as int);
            }
            return Some(&issues[i]);
        }
        proof {
            assert(!phase_issue_pred(epic_number, phase)(issues@[i as int]));
        }
        i = i + 1;
    }
    proof {
        lemma_first_where_none(issues@, phase_issue_pred(epic_number, phase));
    }
    None
}

/// An issue in the list carries the markers of this epic and phase.
pub open spec fn phase_has_issue(issues: Seq<GitHubIssue>, epic_number: u32, phase: u32) -> bool {
    exists|k: int|
        0 <= k < issues.len() && #[trigger] is_phase_issue(issues[k], epic_number, phase)
}

/// The phase is valid for the epic but no issue carries its markers yet: a
/// plan creates a sub-issue exactly for these.
pub open spec fn missing_phase_pred(epic: EpicInfo, issues: Seq<GitHubIssue>) -> spec_fn(u32) -> bool {
    |p: u32| valid_phase(epic, p) && !phase_has_issue(issues, epic.epic_number, p)
}

/// The phase is valid for the epic: a plan starts exactly these.
pub open spec fn valid_phase_pred(epic: EpicInfo) -> spec_fn(u32) -> bool {
    |p: u32| valid_phase(epic, p)
}

/// The phase is not valid for the epic: a plan only warns of these.
pub open spec fn invalid_phase_pred(epic: EpicInfo) -> spec_fn(u32) -> bool {
    |p: u32| !valid_phase(epic, p)
}

/// The phase is valid and an issue already carries its markers: a plan
/// reuses that issue instead of creating one.
pub open spec fn reused_phase_pred(epic: EpicInfo, issues: Seq<GitHubIssue>) -> spec_fn(
    u32,
) -> bool {
    |p: u32| valid_phase(epic, p) && phase_has_issue(issues, epic.epic_number, p)
}

/// The phase gets a new sub-issue and names dependencies, which a plan
/// notes with one warning before proceeding.
pub open spec fn dependency_warn_pred(epic: EpicInfo, issues: Seq<GitHubIssue>) -> spec_fn(
    u32,
) -> bool {
    |p: u32|
        valid_phase(epic, p) && !phase_has_issue(issues, epic.epic_number, p)
            && epic.phases@[p - 1].dependencies@.len() > 0
}

/// A tracker issue number in the record's width, saturated at the top.
pub open spec fn issue_number_u32(n: u64) -> u32 {
    if n <= u32::MAX {
        n as u32
    } else {
        u32::MAX
    }
}

/// What one orchestration run decides, before anything touches the
/// tracker: the sub-issues to create, the existing ones to reuse, the
/// phases started, and the warnings.
#[derive(Debug, Clone)]
pub struct OrchestrationPlan {
    /// Sub-issue configurations to create, one per missing phase.
    pub to_create: Vec<SubIssueConfig>,
    /// Existing sub-issues reused instead of created.
    pub reused: Vec<SubIssueInfo>,
    /// Phases started, created or reused.
    pub started_phases: Vec<u32>,
    /// Warnings gathered along the way.
    pub warnings: Vec<String>,
}

/// The phase numbers an orchestration run processes: those asked for, or
/// the first phase where none were.
pub open spec fn phases_to_start_spec(requested: Seq<u32>) -> Seq<u32> {
    if requested.len() == 0 {
        seq![1u32]
    } else {
        requested
    }
}

/// A phase number is valid for the epic: at least one and at most the
/// number of phases.
pub open spec fn valid_phase(epic: EpicInfo, p: u32) -> bool {
    1 <= p <= epic.phases@.len()
}

/// Plan one orchestration run: every requested valid phase is started;
/// one that already has a sub-issue reuses that issue — its number, title
/// and URL — with one warning; one without gets exactly one new sub-issue;
/// invalid phase numbers only warn. Re-running the plan after its
/// sub-issues exist therefore creates none.
pub fn plan_orchestration(
    epic: &EpicInfo,
    config: &StartOrchestrationConfig,
    existing_issues: &Vec<GitHubIssue>,
) -> (r: OrchestrationPlan)
    ensures
        ({
            let phases = phases_to_start_spec(config.phases@);
            &&& r.to_create@.map_values(|c: SubIssueConfig| c.phase) == crate::seqs::filtered(
                phases,
                missing_phase_pred(*epic, existing_issues@),
            )
            &&& forall|k: int|
                0 <= k < r.to_create@.len() ==> valid_phase(*epic, #[trigger] r.to_create@[k].phase)
                    && !phase_has_issue(existing_issues@, epic.epic_number, r.to_create@[k].phase)
            &&& r.started_phases@ == crate::seqs::filtered(phases, valid_phase_pred(*epic))
            &&& r.reused@.map_values(|s: SubIssueInfo| s.phase) == crate::seqs::filtered(
                phases,
                reused_phase_pred(*epic, existing_issues@),
            )
            &&& (forall|k: int|
                0 <= k < r.reused@.len() ==> ({
                    let j = first_where(
                        existing_issues@,
                        phase_issue_pred(epic.epic_number, (#[trigger] r.reused@[k]).phase),
                    );
                    &&& 0 <= j < existing_issues@.len()
                    &&& r.reused@[k].issue_number == issue_number_u32(existing_issues@[j].number)
                    &&& r.reused@[k].title == existing_issues@[j].title
                    &&& r.reused@[k].url == existing_issues@[j].url
                    &&& r.reused@[k].agent_type == config.default_agent_type
                    &&& r.reused@[k].work_repo == epic.work_repo
                }))
            &&& r.warnings@.len() == crate::seqs::count_where(phases, invalid_phase_pred(*epic))
                + crate::seqs::count_where(phases, reused_phase_pred(*epic, existing_issues@))
                + crate::seqs::count_where(
                phases,
                dependency_warn_pred(*epic, existing_issues@),
            )
        }),
{
    let mut to_create: Vec<SubIssueConfig> = Vec::new();
    let mut reused: Vec<SubIssueInfo> = Vec::new();
    let mut started_phases: Vec<u32> = Vec::new();
    let mut warnings: Vec<String> = Vec::new();

    let mut requested: Vec<u32> = Vec::new();
    if config.phases.len() == 0 {
        requested.push(1);
        proof {
            assert(requested@ =~= phases_to_start_spec(config.phases@));
        }
    } else {
        let mut i: usize = 0;
        while i < config.phases.len()
            invariant
                i <= config.phases@.len(),
                requested@ == config.phases@.subrange(0, i as int),
            decreases config.phases@.len() - i,
        {
            requested.push(config.phases[i]);
            proof {
                assert(config.phases@.subrange(0, i + 1) =~= config.phases@.subrange(
                    0,
                    i as int,
                ).push(config.phases@[i as int]));
            }
            i = i + 1;
        }
        proof {
            assert(config.phases@.subrange(0, config.phases@.len() as int) =~= config.phases@);
            assert(requested@ == phases_to_start_spec(config.phases@));
        }
    }

    let ghost phases = phases_to_start_spec(config.phases@);
    let mut i: usize = 0;
    proof {
        assert(requested@.subrange(0, 0) =~= Seq::<u32>::empty());
    }
    while i < requested.len()
        invariant
            requested@ == phases,
            i <= requested@.len(),
            to_create@.map_values(|c: SubIssueConfig| c.phase) == crate::seqs::filtered(
                requested@.subrange(0, i as int),
                missing_phase_pred(*epic, existing_issues@),
            ),
            forall|k: int|
                0 <= k < to_create@.len() ==> valid_phase(*epic, #[trigger] to_create@[k].phase)
                    && !phase_has_issue(existing_issues@, epic.epic_number, to_create@[k].phase),
            started_phases@ == crate::seqs::filtered(
                requested@.subrange(0, i as int),
                valid_phase_pred(*epic),
            ),
            reused@.map_values(|s: SubIssueInfo| s.phase) == crate::seqs::filtered(
                requested@.subrange(0, i as int),
                reused_phase_pred(*epic, existing_issues@),
            ),
            forall|k: int|
                0 <= k < reused@.len() ==> ({
                    let j = first_where(
                        existing_issues@,
                        phase_issue_pred(epic.epic_number, (#[trigger] reused@[k]).phase),
                    );
                    &&& 0 <= j < existing_issues@.len()
                    &&& reused@[k].issue_number == issue_number_u32(existing_issues@[j].number)
                    &&& reused@[k].title == existing_issues@[j].title
                    &&& reused@[k].url == existing_issues@[j].url
                    &&& reused@[k].agent_type == config.default_agent_type
                    &&& reused@[k].work_repo == epic.work_repo
                }),
            warnings@.len() == crate::seqs::count_where(
                requested@.subrange(0, i as int),
                invalid_phase_pred(*epic),
            ) + crate::seqs::count_where(
                requested@.subrange(0, i as int),
                reused_phase_pred(*epic, existing_issues@),
            ) + crate::seqs::count_where(
                requested@.subrange(0, i as int),
                dependency_warn_pred(*epic, existing_issues@),
            ),
        decreases requested@.len() - i,
    {
        proof {
            assert(requested@.subrange(0, i + 1).drop_last() =~= requested@.subrange(0, i as int));
            assert(requested@.subrange(0, i + 1).last() == requested@[i as int]);
        }
        let phase_num = requested[i];
        if phase_num < 1 || phase_num as usize > epic.phases.len() {
            let mut w = str_chars("Phase ");
            push_dec_u64(phase_num as u64, &mut w);
            append_str(&mut w, " does not exist (epic has ");
            push_dec_u64(epic.phases.len() as u64, &mut w);
            append_str(&mut w, " phases)");
            warnings.push(chars_to_string(&w));
            proof {
                assert(!missing_phase_pred(*epic, existing_issues@)(requested@[i as int]));
                assert(invalid_phase_pred(*epic)(requested@[i as int]));
                assert(!valid_phase_pred(*epic)(requested@[i as int]));
                assert(!reused_phase_pred(*epic, existing_issues@)(requested@[i as int]));
                assert(!dependency_warn_pred(*epic, existing_issues@)(requested@[i as int]));
            }
        } else {
            match find_existing_phase_issue(existing_issues, epic.epic_number, phase_num) {
                Some(existing) => {
                    proof {
                        let j = first_where(
                            existing_issues@,
                            phase_issue_pred(epic.epic_number, phase_num),
                        );
                        lemma_first_where(
                            existing_issues@,
                            phase_issue_pred(epic.epic_number, phase_num),
                        );
                        assert(phase_issue_pred(epic.epic_number, phase_num)(existing_issues@[j]));
                        assert(is_phase_issue(existing_issues@[j], epic.epic_number, phase_num));
                        assert(phase_has_issue(existing_issues@, epic.epic_number, phase_num));
                        assert(!missing_phase_pred(*epic, existing_issues@)(requested@[i as int]));
                    }
                    proof {
                        assert(valid_phase_pred(*epic)(requested@[i as int]));
                        assert(reused_phase_pred(*epic, existing_issues@)(requested@[i as int]));
                        assert(!invalid_phase_pred(*epic)(requested@[i as int]));
                        assert(!dependency_warn_pred(*epic, existing_issues@)(
                            requested@[i as int],
                        ));
                    }
                    let mut w = str_chars("Phase ");
                    push_dec_u64(phase_num as u64, &mut w);
                    append_str(&mut w, " already has issue #");
                    push_dec_u64(existing.number, &mut w);
                    append_str(&mut w, " - skipping creation");
                    warnings.push(chars_to_string(&w));
                    let ghost prev_started = started_phases@;
                    let ghost prev_reused = reused@.map_values(|s: SubIssueInfo| s.phase);
                    started_phases.push(phase_num);
                    let num32: u32 = if existing.number > 0xffff_ffffu64 {
                        u32::MAX
                    } else {
                        existing.number as u32
                    };
                    reused.push(
                        SubIssueInfo {
                            issue_number: num32,
                            title: existing.title.clone(),
                            phase: phase_num,
                            agent_type: config.default_agent_type.clone(),
                            work_repo: epic.work_repo.clone(),
                            url: existing.url.clone(),
                        },
                    );
                    proof {
                        assert(reused@.map_values(|s: SubIssueInfo| s.phase) =~= prev_reused.push(
                            phase_num,
                        ));
                    }
                },
                None => {
                    proof {
                        let jp = phase_issue_pred(epic.epic_number, phase_num);
                        lemma_first_where(existing_issues@, jp);
                        assert forall|k: int| 0 <= k < existing_issues@.len() implies !is_phase_issue(
                            existing_issues@[k],
                            epic.epic_number,
                            phase_num,
                        ) by {
                            assert(!jp(existing_issues@[k]));
                        }
                        assert(!phase_has_issue(existing_issues@, epic.epic_number, phase_num));
                        assert(missing_phase_pred(*epic, existing_issues@)(requested@[i as int]));
                    }
                    proof {
                        assert(valid_phase_pred(*epic)(requested@[i as int]));
                        assert(!invalid_phase_pred(*epic)(requested@[i as int]));
                        assert(!reused_phase_pred(*epic, existing_issues@)(requested@[i as int]));
                    }
                    let phase = &epic.phases[phase_num as usize - 1];
                    if phase.dependencies.len() > 0 {
                        proof {
                            assert(dependency_warn_pred(*epic, existing_issues@)(
                                requested@[i as int],
                            ));
                        }
                        let mut w = str_chars("Phase ");
                        push_dec_u64(phase_num as u64, &mut w);
                        append_str(&mut w, " has dependencies. Proceeding anyway.");
                        warnings.push(chars_to_string(&w));
                    } else {
                        proof {
                            assert(!dependency_warn_pred(*epic, existing_issues@)(
                                requested@[i as int],
                            ));
                        }
                    }
                    let ghost prev_phases = to_create@.map_values(|c: SubIssueConfig| c.phase);
                    let cfg = create_phase_issue(
                        phase_num,
                        phase,
                        epic.work_repo.as_str(),
                        config.default_agent_type.as_str(),
                    );
                    to_create.push(cfg);
                    started_phases.push(phase_num);
                    proof {
                        assert(to_create@.map_values(|c: SubIssueConfig| c.phase)
                            =~= prev_phases.push(phase_num));
                    }
                },
            }
        }
        i = i + 1;
    }
    proof {
        assert(requested@.subrange(0, requested@.len() as int) =~= requested@);
    }
    OrchestrationPlan { to_create, reused, started_phases, warnings }
}

/// Orchestration is idempotent: where every requested valid phase already
/// has a sub-issue carrying the epic and phase markers, a plan creates
/// zero additional sub-issues.
pub proof fn lemma_orchestration_idempotent(
    epic: EpicInfo,
    requested: Seq<u32>,
    issues: Seq<GitHubIssue>,
)
    requires
        forall|k: int|
            0 <= k < phases_to_start_spec(requested).len() && valid_phase(
                epic,
                #[trigger] phases_to_start_spec(requested)[k],
            ) ==> phase_has_issue(issues, epic.epic_number, phases_to_start_spec(requested)[k]),
    ensures
        crate::seqs::filtered(phases_to_start_spec(requested), missing_phase_pred(epic, issues))
            == Seq::<u32>::empty(),
{
    let phases = phases_to_start_spec(requested);
    assert forall|k: int| 0 <= k < phases.len() implies !missing_phase_pred(epic, issues)(
        phases[k],
    ) by {
        if valid_phase(epic, phases[k]) {
            assert(phase_has_issue(issues, epic.epic_number, phases[k]));
        }
    }
    lemma_filtered_none(phases, missing_phase_pred(epic, issues));
}

// ------------------------------------------------------------------
// Phase status: structured evidence first, embedded text as fallback
// ------------------------------------------------------------------

/// The label is among the issue's labels.
pub open spec fn has_label(ls: Seq<String>, l: Seq<char>) -> bool {
    exists|i: int| 0 <= i < ls.len() && #[trigger] ls[i]@ == l
}

/// The issue is a closed sub-issue of this epic and phase.
pub open spec fn phase_closed_pred(n: u32, p: u32) -> spec_fn(GitHubIssue) -> bool {
    |it: GitHubIssue| is_phase_issue(it, n, p) && it.state@ == "closed"@
}

/// The issue is an open sub-issue of this epic and phase with an agent
/// working it.
pub open spec fn phase_inprog_pred(n: u32, p: u32) -> spec_fn(GitHubIssue) -> bool {
    |it: GitHubIssue|
        is_phase_issue(it, n, p) && it.state@ == "open"@ && has_label(it.labels@, "staging"@)
}

/// The status a phase derives: where it has sub-issues, strictly from their
/// open and closed counts; only where it has none does the epic body's
/// embedded status text decide, falling back to not started.
pub open spec fn phase_status_text(
    total: nat,
    completed: nat,
    body_status: Option<Seq<char>>,
) -> Seq<char> {
    if total > 0 {
        if completed == total {
            "completed"@
        } else {
            "in_progress"@
        }
    } else {
        match body_status {
            Some(s) => s,
            None => "not_started"@,
        }
    }
}

/// Phase precedence: a phase with at least one sub-issue derives its status
/// from the sub-issue evidence alone — whatever the epic body's embedded
/// status says, even where the two disagree.
pub proof fn lemma_phase_precedence(
    total: nat,
    completed: nat,
    body_status_a: Option<Seq<char>>,
    body_status_b: Option<Seq<char>>,
)
    requires
        total >= 1,
    ensures
        phase_status_text(total, completed, body_status_a) == phase_status_text(
            total,
            completed,
            body_status_b,
        ),
{
}

/// The class an embedded status text denotes, by its keywords.
pub open spec fn status_class(text: Seq<char>) -> Seq<char> {
    if contains_seq(text, "Complete"@) {
        "completed"@
    } else if contains_seq(text, "Ready"@) {
        "ready"@
    } else if contains_seq(text, "In Progress"@) {
        "in_progress"@
    } else if contains_seq(text, "Skipped"@) {
        "skipped"@
    } else {
        "not_started"@
    }
}

/// One line fed to the embedded-status scanner: phase headings select the
/// current phase, status lines record its class, and a later top-level
/// heading deselects.
pub open spec fn status_scan_step(
    cur: Option<u32>,
    pairs: Seq<(u32, Seq<char>)>,
    line: Seq<char>,
) -> (Option<u32>, Seq<(u32, Seq<char>)>) {
    let t = trim_spec(line);
    if is_match(t, "### Phase "@, 0) {
        let after = t.subrange("### Phase "@.len() as int, t.len() as int);
        let ci = crate::text::find_at(after, ":"@);
        if ci < 0 {
            (cur, pairs)
        } else {
            let numtxt = trim_spec(after.subrange(0, ci));
            if crate::text::all_digits(numtxt) && crate::text::chars_to_nat(numtxt) <= u32::MAX {
                (Some(crate::text::chars_to_nat(numtxt) as u32), pairs)
            } else {
                (cur, pairs)
            }
        }
    } else if is_match(t, "**Status**:"@, 0) {
        match cur {
            Some(p) => (
                cur,
                pairs.push(
                    (
                        p,
                        status_class(
                            trim_spec(t.subrange("**Status**:"@.len() as int, t.len() as int)),
                        ),
                    ),
                ),
            ),
            None => (cur, pairs),
        }
    } else if is_match(t, "## "@, 0) {
        (None, pairs)
    } else {
        (cur, pairs)
    }
}

/// The embedded-status scanner run over all lines.
pub open spec fn status_scan_rec(
    lines: Seq<Seq<char>>,
    cur: Option<u32>,
    pairs: Seq<(u32, Seq<char>)>,
) -> Seq<(u32, Seq<char>)>
    decreases lines.len(),
{
    if lines.len() == 0 {
        pairs
    } else {
        let st = status_scan_step(cur, pairs, lines[0]);
        status_scan_rec(lines.subrange(1, lines.len() as int), st.0, st.1)
    }
}

/// The phase-to-status pairs an epic body's embedded status lines record,
/// in order of appearance.
pub open spec fn body_statuses_spec(body: Seq<char>) -> Seq<(u32, Seq<char>)> {
    status_scan_rec(crate::text::lines_spec(body), None, Seq::empty())
}

/// The status recorded for a phase, the last record winning.
pub open spec fn status_lookup(pairs: Seq<(u32, Seq<char>)>, phase: u32) -> Option<Seq<char>>
    decreases pairs.len(),
{
    if pairs.len() == 0 {
        None
    } else if pairs.last().0 == phase {
        Some(pairs.last().1)
    } else {
        status_lookup(pairs.drop_last(), phase)
    }
}

/// The pairs a status vector stands for.
pub open spec fn status_pairs_model(v: Seq<(u32, String)>) -> Seq<(u32, Seq<char>)> {
    v.map_values(|p: (u32, String)| (p.0, p.1@))
}

/// Extract the embedded phase statuses from an epic body: for each phase
/// heading, the class of the status line under it.
pub fn extract_phase_statuses_from_body(body: &str) -> (r: Vec<(u32, String)>)
    ensures
        status_pairs_model(r@) == body_statuses_spec(body@),
{
    let bv = str_chars(body);
    let lines = crate::text::split_lines(&bv);
    let ghost lv = lines.deep_view();
    let mut cur: Option<u32> = None;
    let mut pairs: Vec<(u32, String)> = Vec::new();
    let mut i: usize = 0;
    proof {
        assert(lv.subrange(0, lv.len() as int) =~= lv);
        assert(status_pairs_model(pairs@) =~= Seq::<(u32, Seq<char>)>::empty());
    }
    while i < lines.len()
        invariant
            i <= lines@.len(),
            lv == lines.deep_view(),
            lv == crate::text::lines_spec(body@),
            status_scan_rec(
                lv.subrange(i as int, lv.len() as int),
                cur,
                status_pairs_model(pairs@),
            ) == status_scan_rec(lv, None, Seq::empty()),
        decreases lines@.len() - i,
    {
        let ghost rest = lv.subrange(i as int, lv.len() as int);
        let ghost pre_cur = cur;
        let ghost pre_pairs = status_pairs_model(pairs@);
        proof {
            assert(rest[0] == lv[i as int]);
            assert(lv[i as int] == lines@[i as int]@);
            assert(rest.subrange(1, rest.len() as int) =~= lv.subrange(i + 1, lv.len() as int));
        }
        let t = trim_chars(&lines[i]);
        if crate::text::starts_with_str(&t, "### Phase ") {
            let marker = str_chars("### Phase ");
            let after = subvec(&t, marker.len(), t.len());
            let colon = str_chars(":");
            match crate::text::find_pat(&after, &colon) {
                Some(ci) => {
                    let numpart = subvec(&after, 0, ci);
                    let numtxt = trim_chars(&numpart);
                    proof {
                        assert(after@.subrange(0, ci as int) == numpart@);
                    }
                    match crate::text::parse_u32(&numtxt) {
                        Some(n) => {
                            cur = Some(n);
                        },
                        None => {},
                    }
                },
                None => {},
            }
        } else if crate::text::starts_with_str(&t, "**Status**:") {
            match cur {
                Some(p) => {
                    let marker = str_chars("**Status**:");
                    let tail = subvec(&t, marker.len(), t.len());
                    let text = trim_chars(&tail);
                    let cls = classify_status_text(&text);
                    pairs.push((p, cls));
                    proof {
                        assert(status_pairs_model(pairs@) =~~= pre_pairs.push(
                            (p, status_class(trim_spec(
                                trim_spec(lv[i as int]).subrange(
                                    "**Status**:"@.len() as int,
                                    trim_spec(lv[i as int]).len() as int,
                                ),
                            ))),
                        ));
                    }
                },
                None => {},
            }
        } else if crate::text::starts_with_str(&t, "## ") {
            cur = None;
        }
        proof {
            let stepped = status_scan_step(pre_cur, pre_pairs, lv[i as int]);
            assert(cur == stepped.0 && status_pairs_model(pairs@) == stepped.1);
        }
        i = i + 1;
    }
    proof {
        assert(lv.subrange(lv.len() as int, lv.len() as int) =~= Seq::<Seq<char>>::empty());
    }
    pairs
}

/// Classify an embedded status text by its keywords.
fn classify_status_text(text: &Vec<char>) -> (r: String)
    ensures
        r@ == status_class(text@),
{
    if crate::text::contains_str(text, "Complete") {
        string_of("completed")
    } else if crate::text::contains_str(text, "Ready") {
        string_of("ready")
    } else if crate::text::contains_str(text, "In Progress") {
        string_of("in_progress")
    } else if crate::text::contains_str(text, "Skipped") {
        string_of("skipped")
    } else {
        string_of("not_started")
    }
}

/// Look up the status recorded for a phase, the last record winning.
pub fn lookup_body_status(pairs: &Vec<(u32, String)>, phase: u32) -> (r: Option<String>)
    ensures
        match r {
            Some(v) => status_lookup(status_pairs_model(pairs@), phase) == Some(v@),
            None => status_lookup(status_pairs_model(pairs@), phase) is None,
        },
{
    let ghost pm = status_pairs_model(pairs@);
    let mut i: usize = pairs.len();
    proof {
        assert(pm.subrange(0, i as int) =~= pm);
    }
    while i > 0
        invariant
            i <= pairs@.len(),
            pm == status_pairs_model(pairs@),
            status_lookup(pm, phase) == status_lookup(pm.subrange(0, i as int), phase),
        decreases i,
    {
        let ghost pre = pm.subrange(0, i as int);
        proof {
            assert(pre.last() == pm[i - 1]);
            assert(pre.drop_last() =~= pm.subrange(0, i - 1));
        }
        if pairs[i - 1].0 == phase {
            return Some(pairs[i - 1].1.clone());
        }
        i = i - 1;
    }
    proof {
        assert(pm.subrange(0, 0) =~= Seq::<(u32, Seq<char>)>::empty());
    }
    None
}

/// Detailed status of every phase: sub-issue counts from the live issue
/// list, and a status that follows the sub-issue evidence wherever any
/// exists, falling back to the epic body's embedded text only where none
/// does.
pub fn get_epic_phase_status(
    epic_number: u32,
    phases: &Vec<PhaseConfig>,
    all_issues: &Vec<GitHubIssue>,
    epic_body: &str,
) -> (r: Vec<PhaseStatus>)
    requires
        all_issues@.len() <= u32::MAX,
        phases@.len() < u32::MAX,
    ensures
        r@.len() == phases@.len(),
        forall|k: int|
            0 <= k < r@.len() ==> {
                let p = ((k + 1) as u32);
                &&& (#[trigger] r@[k]).phase_number == p
                &&& r@[k].phase_name == phases@[k].name
                &&& r@[k].approach == phases@[k].approach
                &&& r@[k].total_issues == crate::seqs::count_where(
                    all_issues@,
                    phase_issue_pred(epic_number, p),
                )
                &&& r@[k].completed_issues == crate::seqs::count_where(
                    all_issues@,
                    phase_closed_pred(epic_number, p),
                )
                &&& r@[k].in_progress_issues == crate::seqs::count_where(
                    all_issues@,
                    phase_inprog_pred(epic_number, p),
                )
                &&& r@[k].status@ == phase_status_text(
                    r@[k].total_issues as nat,
                    r@[k].completed_issues as nat,
                    status_lookup(body_statuses_spec(epic_body@), p),
                )
            },
{
    let body_pairs = extract_phase_statuses_from_body(epic_body);
    let mut r: Vec<PhaseStatus> = Vec::new();
    let mut k: usize = 0;
    while k < phases.len()
        invariant
            all_issues@.len() <= u32::MAX,
            phases@.len() < u32::MAX,
            k <= phases@.len(),
            status_pairs_model(body_pairs@) == body_statuses_spec(epic_body@),
            r@.len() == k,
            forall|j: int|
                0 <= j < k ==> {
                    let p = ((j + 1) as u32);
                    &&& (#[trigger] r@[j]).phase_number == p
                    &&& r@[j].phase_name == phases@[j].name
                    &&& r@[j].approach == phases@[j].approach
                    &&& r@[j].total_issues == crate::seqs::count_where(
                        all_issues@,
                        phase_issue_pred(epic_number, p),
                    )
                    &&& r@[j].completed_issues == crate::seqs::count_where(
                        all_issues@,
                        phase_closed_pred(epic_number, p),
                    )
                    &&& r@[j].in_progress_issues == crate::seqs::count_where(
                        all_issues@,
                        phase_inprog_pred(epic_number, p),
                    )
                    &&& r@[j].status@ == phase_status_text(
                        r@[j].total_issues as nat,
                        r@[j].completed_issues as nat,
                        status_lookup(body_statuses_spec(epic_body@), p),
                    )
                },
        decreases phases@.len() - k,
    {
        let p: u32 = (k as u32) + 1;
        let (total, completed, in_progress) = count_phase_issues(all_issues, epic_number, p);
        let body_status = lookup_body_status(&body_pairs, p);
        let status: String = if total > 0 {
            if completed == total {
                string_of("completed")
            } else {
                string_of("in_progress")
            }
        } else {
            match body_status {
                Some(s) => s,
                None => string_of("not_started"),
            }
        };
        r.push(
            PhaseStatus {
                phase_number: p,
                phase_name: phases[k].name.clone(),
                approach: phases[k].approach.clone(),
                total_issues: total,
                completed_issues: completed,
                in_progress_issues: in_progress,
                status,
            },
        );
        k = k + 1;
    }
    r
}

/// Count the sub-issues of one phase: all of them, the closed ones, and the
/// open ones with an agent working.
fn count_phase_issues(all_issues: &Vec<GitHubIssue>, epic_number: u32, p: u32) -> (r: (
    u32,
    u32,
    u32,
))
    requires
        all_issues@.len() <= u32::MAX,
    ensures
        r.0 == crate::seqs::count_where(all_issues@, phase_issue_pred(epic_number, p)),
        r.1 == crate::seqs::count_where(all_issues@, phase_closed_pred(epic_number, p)),
        r.2 == crate::seqs::count_where(all_issues@, phase_inprog_pred(epic_number, p)),
{
    let ep = epic_pat_chars_pub(epic_number);
    let pp = phase_pat_chars(p);
    let mut total: u32 = 0;
    let mut completed: u32 = 0;
    let mut in_progress: u32 = 0;
    let mut i: usize = 0;
    proof {
        assert(all_issues@.subrange(0, 0) =~= Seq::<GitHubIssue>::empty());
    }
    while i < all_issues.len()
        invariant
            all_issues@.len() <= u32::MAX,
            ep@ == epic_pat(epic_number),
            pp@ == phase_pat(p),
            i <= all_issues@.len(),
            total == crate::seqs::count_where(
                all_issues@.subrange(0, i as int),
                phase_issue_pred(epic_number, p),
            ),
            completed == crate::seqs::count_where(
                all_issues@.subrange(0, i as int),
                phase_closed_pred(epic_number, p),
            ),
            in_progress == crate::seqs::count_where(
                all_issues@.subrange(0, i as int),
                phase_inprog_pred(epic_number, p),
            ),
            total <= i && completed <= i && in_progress <= i,
        decreases all_issues@.len() - i,
    {
        proof {
            assert(all_issues@.subrange(0, i + 1).drop_last() =~= all_issues@.subrange(
                0,
                i as int,
            ));
            assert(all_issues@.subrange(0, i + 1).last() == all_issues@[i as int]);
        }
        let it = &all_issues[i];
        let matches_phase = match &it.body {
            Some(b) => {
                let bv = str_chars(b.as_str());
                contains_sub(&bv, &ep) && contains_sub(&bv, &pp)
            },
            None => false,
        };
        proof {
            assert(matches_phase == is_phase_issue(all_issues@[i as int], epic_number, p));
            assert(matches_phase == phase_issue_pred(epic_number, p)(all_issues@[i as int]));
        }
        if matches_phase {
            total = total + 1;
            if crate::text::str_eq(it.state.as_str(), "closed") {
                completed = completed + 1;
            }
            let open_now = crate::text::str_eq(it.state.as_str(), "open");
            if open_now && has_label_exec(&it.labels, "staging") {
                in_progress = in_progress + 1;
            }
        }
        proof {
            assert(phase_closed_pred(epic_number, p)(all_issues@[i as int])
                == (is_phase_issue(all_issues@[i as int], epic_number, p)
                && all_issues@[i as int].state@ == "closed"@));
            assert(phase_inprog_pred(epic_number, p)(all_issues@[i as int])
                == (is_phase_issue(all_issues@[i as int], epic_number, p)
                && all_issues@[i as int].state@ == "open"@ && has_label(
                all_issues@[i as int].labels@,
                "staging"@,
            )));
        }
        i = i + 1;
    }
    proof {
        assert(all_issues@.subrange(0, all_issues@.len() as int) =~= all_issues@);
    }
    (total, completed, in_progress)
}

/// The label is among the labels.
fn has_label_exec(ls: &Vec<String>, l: &str) -> (r: bool)
    ensures
        r == has_label(ls@, l@),
{
    let mut i: usize = 0;
    while i < ls.len()
        invariant
            i <= ls@.len(),
            forall|k: int| 0 <= k < i ==> ls@[k]@ != l@,
        decreases ls@.len() - i,
    {
        if crate::text::str_eq(ls[i].as_str(), l) {
            return true;
        }
        i = i + 1;
    }
    false
}

// ------------------------------------------------------------------
// Status propagation: a targeted textual patch
// ------------------------------------------------------------------

/// The display text of a phase status class.
pub open spec fn status_display(s: Seq<char>) -> Seq<char> {
    if s == "completed"@ {
        "Complete"@
    } else if s == "ready"@ {
        "Ready"@
    } else if s == "in_progress"@ {
        "In Progress"@
    } else if s == "skipped"@ {
        "Skipped"@
    } else {
        "Not Started"@
    }
}

/// The status line written for one phase: the display text, with the
/// sub-issue counts where the phase has any.
pub open spec fn status_line_spec(st: PhaseStatus) -> Seq<char> {
    if st.total_issues > 0 {
        "**Status**: "@ + status_display(st.status@) + " ("@ + dec_spec(st.completed_issues as nat)
            + "/"@ + dec_spec(st.total_issues as nat) + " issues)"@
    } else {
        "**Status**: "@ + status_display(st.status@)
    }
}

/// Format one phase's status line. The line is plain text by design: the
/// extractors classify it by keyword, so no decoration is needed for the
/// round trip.
pub fn format_phase_status(status: &PhaseStatus) -> (r: String)
    ensures
        r@ == status_line_spec(*status),
{
    let mut v = str_chars("**Status**: ");
    if crate::text::str_eq(status.status.as_str(), "completed") {
        append_str(&mut v, "Complete");
    } else if crate::text::str_eq(status.status.as_str(), "ready") {
        append_str(&mut v, "Ready");
    } else if crate::text::str_eq(status.status.as_str(), "in_progress") {
        append_str(&mut v, "In Progress");
    } else if crate::text::str_eq(status.status.as_str(), "skipped") {
        append_str(&mut v, "Skipped");
    } else {
        append_str(&mut v, "Not Started");
    }
    if status.total_issues > 0 {
        append_str(&mut v, " (");
        push_dec_u64(status.completed_issues as u64, &mut v);
        append_str(&mut v, "/");
        push_dec_u64(status.total_issues as u64, &mut v);
        append_str(&mut v, " issues)");
    }
    chars_to_string(&v)
}

/// The heading line that locates one phase's section.
pub open spec fn phase_heading_of(st: PhaseStatus) -> Seq<char> {
    "### Phase "@ + dec_spec(st.phase_number as nat) + ": "@ + st.phase_name@
}

/// One status line replaced in the body: the heading is found, the status
/// line under it located, and only that line rewritten; a body without the
/// heading or the line is left as it was.
pub open spec fn patch_status_line(body: Seq<char>, heading: Seq<char>, line: Seq<char>) -> Seq<
    char,
> {
    let hp = crate::text::find_at(body, heading);
    if hp < 0 {
        body
    } else {
        let sp = crate::text::find_at(body.subrange(hp, body.len() as int), "**Status**:"@);
        if sp < 0 {
            body
        } else {
            let stat = hp + sp;
            let le = crate::text::find_at(body.subrange(stat, body.len() as int), "\n"@);
            if le < 0 {
                body
            } else {
                body.subrange(0, stat) + line + body.subrange(stat + le, body.len() as int)
            }
        }
    }
}

/// One phase's status line replaced in the body.
pub open spec fn patch_one_phase(body: Seq<char>, st: PhaseStatus) -> Seq<char> {
    patch_status_line(body, phase_heading_of(st), status_line_spec(st))
}

/// Every given phase's status line replaced, in order.
pub open spec fn patch_phases_spec(body: Seq<char>, sts: Seq<PhaseStatus>) -> Seq<char>
    decreases sts.len(),
{
    if sts.len() == 0 {
        body
    } else {
        patch_phases_spec(patch_one_phase(body, sts[0]), sts.subrange(1, sts.len() as int))
    }
}

/// Replace one status line in the body.
fn patch_status_line_exec(body: &Vec<char>, heading: &Vec<char>, line: &str) -> (r: Vec<char>)
    ensures
        r@ == patch_status_line(body@, heading@, line@),
{
    let n: usize = body.len();
    match crate::text::find_pat(body, &heading) {
        None => {
            proof {
                assert(body@.subrange(0, n as int) =~= body@);
            }
            subvec(body, 0, n)
        },
        Some(hp) => {
            let tail = subvec(body, hp, n);
            let status_marker = str_chars("**Status**:");
            match crate::text::find_pat(&tail, &status_marker) {
                None => {
                    proof {
                        assert(body@.subrange(0, n as int) =~= body@);
                    }
                    subvec(body, 0, n)
                },
                Some(sp) => {
                    let stat = hp + sp;
                    let after = subvec(body, stat, n);
                    let nl = str_chars("\n");
                    match crate::text::find_pat(&after, &nl) {
                        None => {
                            proof {
                                assert(body@.subrange(0, n as int) =~= body@);
                            }
                            subvec(body, 0, n)
                        },
                        Some(le) => {
                            let mut out = subvec(body, 0, stat);
                            append_str(&mut out, line);
                            let rest = subvec(body, stat + le, n);
                            crate::text::append_chars(&mut out, &rest);
                            proof {
                                assert(body@.subrange(hp as int, n as int).subrange(
                                    sp as int,
                                    (n - hp) as int,
                                ) =~= body@.subrange(stat as int, n as int));
                            }
                            out
                        },
                    }
                },
            }
        },
    }
}

/// Replace one phase's status line in the body.
fn patch_one_phase_exec(body: &Vec<char>, st: &PhaseStatus) -> (r: Vec<char>)
    ensures
        r@ == patch_one_phase(body@, *st),
{
    let mut heading = str_chars("### Phase ");
    push_dec_u64(st.phase_number as u64, &mut heading);
    append_str(&mut heading, ": ");
    append_str(&mut heading, st.phase_name.as_str());
    let line = format_phase_status(st);
    patch_status_line_exec(body, &heading, line.as_str())
}

/// Rewrite only the status line of each given phase in the epic body — a
/// targeted textual patch that preserves any manual edits elsewhere.
pub fn update_phases_in_body(body: &str, phase_statuses: &[PhaseStatus]) -> (r: String)
    ensures
        r@ == patch_phases_spec(body@, phase_statuses@),
{
    let mut cur = str_chars(body);
    let mut i: usize = 0;
    proof {
        assert(phase_statuses@.subrange(0, phase_statuses@.len() as int) =~= phase_statuses@);
    }
    while i < phase_statuses.len()
        invariant
            i <= phase_statuses@.len(),
            patch_phases_spec(cur@, phase_statuses@.subrange(i as int, phase_statuses@.len() as int))
                == patch_phases_spec(body@, phase_statuses@),
        decreases phase_statuses@.len() - i,
    {
        let ghost rest = phase_statuses@.subrange(i as int, phase_statuses@.len() as int);
        proof {
            assert(rest[0] == phase_statuses@[i as int]);
            assert(rest.subrange(1, rest.len() as int) =~= phase_statuses@.subrange(
                i + 1,
                phase_statuses@.len() as int,
            ));
        }
        cur = patch_one_phase_exec(&cur, &phase_statuses[i]);
        i = i + 1;
    }
    proof {
        assert(phase_statuses@.subrange(
            phase_statuses@.len() as int,
            phase_statuses@.len() as int,
        ) =~= Seq::<PhaseStatus>::empty());
    }
    chars_to_string(&cur)
}

/// The progress line under the progress heading replaced: the heading is
/// found, the line after it rewritten with the new counts; a body without
/// the heading or the line is left as it was.
pub open spec fn patch_progress_spec(
    body: Seq<char>,
    completed: nat,
    total: nat,
    percentage: nat,
) -> Seq<char> {
    let ps = crate::text::find_at(body, "## Progress"@);
    if ps < 0 {
        body
    } else {
        let ls = crate::text::find_at(body.subrange(ps, body.len() as int), "\n"@);
        if ls < 0 {
            body
        } else {
            let an = ps + ls + 1;
            let le = crate::text::find_at(body.subrange(an, body.len() as int), "\n"@);
            if le < 0 {
                body
            } else {
                body.subrange(0, an) + crate::epic::progress_line_spec(completed, total, percentage)
                    + body.subrange(an + le, body.len() as int)
            }
        }
    }
}

/// Rewrite only the aggregate progress line of the epic body.
pub fn update_progress_in_body(body: &str, completed: u32, total: u32, percentage: u32) -> (r:
    String)
    ensures
        r@ == patch_progress_spec(body@, completed as nat, total as nat, percentage as nat),
{
    let bv = str_chars(body);
    let n: usize = bv.len();
    let heading = str_chars("## Progress");
    let nl = str_chars("\n");
    proof {
        reveal_strlit("\n");
    }
    match crate::text::find_pat(&bv, &heading) {
        None => crate::text::string_of(body),
        Some(ps) => {
            let tail = subvec(&bv, ps, n);
            match crate::text::find_pat(&tail, &nl) {
                None => crate::text::string_of(body),
                Some(ls) => {
                    let an = ps + ls + 1;
                    let after = subvec(&bv, an, n);
                    match crate::text::find_pat(&after, &nl) {
                        None => crate::text::string_of(body),
                        Some(le) => {
                            let mut out = subvec(&bv, 0, an);
                            push_dec_u64(completed as u64, &mut out);
                            append_str(&mut out, "/");
                            push_dec_u64(total as u64, &mut out);
                            append_str(&mut out, " sub-issues completed (");
                            push_dec_u64(percentage as u64, &mut out);
                            append_str(&mut out, "%)");
                            let rest = subvec(&bv, an + le, n);
                            crate::text::append_chars(&mut out, &rest);
                            proof {
                                assert(bv@.subrange(ps as int, n as int)[ls as int] == bv@[
                                    ps + ls
                                ]);
                            }
                            chars_to_string(&out)
                        },
                    }
                },
            }
        },
    }
}

/// What one line names as a phase: the number between the heading marker
/// and the colon, and the name after the colon.
pub open spec fn heading_phase_of(t: Seq<char>) -> Option<(nat, Seq<char>)> {
    if is_match(t, "### Phase "@, 0) {
        let after = t.subrange("### Phase "@.len() as int, t.len() as int);
        let ci = crate::text::find_at(after, ":"@);
        if ci < 0 {
            None
        } else {
            let numtxt = trim_spec(after.subrange(0, ci));
            if crate::text::all_digits(numtxt) && crate::text::chars_to_nat(numtxt) <= u32::MAX {
                Some(
                    (
                        crate::text::chars_to_nat(numtxt),
                        trim_spec(after.subrange(ci + 1, after.len() as int)),
                    ),
                )
            } else {
                None
            }
        }
    } else {
        None
    }
}

/// The name of the given phase, from the first heading line that names it.
pub open spec fn phase_name_scan(lines: Seq<Seq<char>>, phase_number: u32) -> Option<Seq<char>>
    decreases lines.len(),
{
    if lines.len() == 0 {
        None
    } else {
        match heading_phase_of(trim_spec(lines[0])) {
            Some(p) => if p.0 == phase_number {
                Some(p.1)
            } else {
                phase_name_scan(lines.subrange(1, lines.len() as int), phase_number)
            },
            None => phase_name_scan(lines.subrange(1, lines.len() as int), phase_number),
        }
    }
}

/// Extract a phase's name from the epic body by its number.
pub fn extract_phase_name_from_body(body: &str, phase_number: u32) -> (r: Option<String>)
    ensures
        match r {
            Some(v) => phase_name_scan(crate::text::lines_spec(body@), phase_number) == Some(v@),
            None => phase_name_scan(crate::text::lines_spec(body@), phase_number) is None,
        },
{
    let bv = str_chars(body);
    let lines = crate::text::split_lines(&bv);
    let ghost lv = lines.deep_view();
    let marker = str_chars("### Phase ");
    let colon = str_chars(":");
    let mut i: usize = 0;
    proof {
        assert(lv.subrange(0, lv.len() as int) =~= lv);
    }
    while i < lines.len()
        invariant
            i <= lines@.len(),
            lv == lines.deep_view(),
            lv == crate::text::lines_spec(body@),
            marker@ == "### Phase "@,
            colon@ == ":"@,
            phase_name_scan(lv, phase_number) == phase_name_scan(
                lv.subrange(i as int, lv.len() as int),
                phase_number,
            ),
        decreases lines@.len() - i,
    {
        let ghost rest = lv.subrange(i as int, lv.len() as int);
        proof {
            assert(rest[0] == lv[i as int]);
            assert(lv[i as int] == lines@[i as int]@);
            assert(rest.subrange(1, rest.len() as int) =~= lv.subrange(i + 1, lv.len() as int));
        }
        let t = trim_chars(&lines[i]);
        if crate::text::starts_with_sub(&t, &marker) {
            let after = subvec(&t, marker.len(), t.len());
            match crate::text::find_pat(&after, &colon) {
                Some(ci) => {
                    proof {
                        reveal_strlit(":");
                    }
                    let numpart = subvec(&after, 0, ci);
                    let numtxt = trim_chars(&numpart);
                    proof {
                        assert(after@.subrange(0, ci as int) == numpart@);
                    }
                    match crate::text::parse_u32(&numtxt) {
                        Some(nm) => {
                            if nm == phase_number {
                                let namepart = subvec(&after, ci + 1, after.len());
                                let name = trim_chars(&namepart);
                                return Some(chars_to_string(&name));
                            }
                        },
                        None => {},
                    }
                },
                None => {},
            }
        }
        i = i + 1;
    }
    proof {
        assert(lv.subrange(lv.len() as int, lv.len() as int) =~= Seq::<Seq<char>>::empty());
    }
    None
}

/// Mark a single phase's status directly in the epic body — for phases
/// completed manually, or when the embedded status no longer matches the
/// actual state. Only the phase's status line is rewritten.
pub fn mark_phase_status(body: &str, phase_number: u32, new_status: &str) -> (r: Result<
    String,
    String,
>)
    ensures
        match r {
            Ok(b) => phase_name_scan(crate::text::lines_spec(body@), phase_number) matches Some(
                nm,
            ) && b@ == patch_status_line(
                body@,
                "### Phase "@ + dec_spec(phase_number as nat) + ": "@ + nm,
                "**Status**: "@ + status_display(new_status@),
            ),
            Err(e) => phase_name_scan(crate::text::lines_spec(body@), phase_number) is None
                && e@.len() > 0,
        },
{
    match extract_phase_name_from_body(body, phase_number) {
        None => {
            let mut e = str_chars("Phase ");
            push_dec_u64(phase_number as u64, &mut e);
            append_str(&mut e, " not found in Epic body");
            proof {
                reveal_strlit("Phase ");
            }
            Err(chars_to_string(&e))
        },
        Some(name) => {
            let st = PhaseStatus {
                phase_number,
                phase_name: name,
                approach: string_of(""),
                total_issues: 0,
                completed_issues: 0,
                in_progress_issues: 0,
                status: string_of(new_status),
            };
            let bv = str_chars(body);
            let patched = patch_one_phase_exec(&bv, &st);
            Ok(chars_to_string(&patched))
        },
    }
}

/// A filter over a sequence where no element satisfies the predicate.
proof fn lemma_filtered_none<A>(s: Seq<A>, p: spec_fn(A) -> bool)
    requires
        forall|k: int| 0 <= k < s.len() ==> !p(s[k]),
    ensures
        crate::seqs::filtered(s, p) == Seq::<A>::empty(),
    decreases s.len(),
{
    if s.len() > 0 {
        lemma_filtered_none(s.drop_last(), p);
    }
}

/// Every sub-issue body written by the formatter carries the anchored epic
/// and phase markers the orchestration scan looks for: a created sub-issue
/// is always found by the next run.
pub proof fn lemma_sub_issue_body_has_markers(
    epic_number: u32,
    epic_repo: Seq<char>,
    work_repo: Seq<char>,
    config: SubIssueConfig,
)
    ensures
        contains_seq(
            sub_issue_body_spec(epic_number, epic_repo, work_repo, config),
            epic_pat(epic_number),
        ),
        contains_seq(
            sub_issue_body_spec(epic_number, epic_repo, work_repo, config),
            phase_pat(config.phase),
        ),
{
    let body = sub_issue_body_spec(epic_number, epic_repo, work_repo, config);
    reveal_strlit("# ");
    reveal_strlit("\n\n**Epic**: #");
    reveal_strlit("**Epic**: #");
    reveal_strlit("\n**Phase**: ");
    reveal_strlit("**Phase**: ");
    reveal_strlit("\n**Estimated Time**: ");
    reveal_strlit("\n");
    reveal_strlit("\n\n");
    let en = dec_spec(epic_number as nat);
    let pn = dec_spec(config.phase as nat);
    let a = "# "@ + config.title@ + "\n\n"@;
    let epos = a.len() as int;
    assert(body.subrange(epos, epos + epic_pat(epic_number).len() as int) =~= epic_pat(
        epic_number,
    ));
    assert(crate::text::is_match(body, epic_pat(epic_number), epos));
    let ppos = epos + "**Epic**: #"@.len() + en.len();
    assert(body.subrange(ppos, ppos + phase_pat(config.phase).len() as int) =~= phase_pat(
        config.phase,
    ));
    assert(crate::text::is_match(body, phase_pat(config.phase), ppos));
}

} // verus!
