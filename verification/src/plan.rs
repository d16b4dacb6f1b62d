//! Plan templates: epic structure read out of a markdown plan document.
//!
//! A plan names a goal, success metrics and phases; each phase may list
//! tasks, files and dependencies. The extractors here turn the document's
//! sections into an epic configuration.

use crate::epic::{phase_model, phase_models, EpicConfig, PhaseConfig, PhaseModel};
use crate::text::{
    append_str, chars_eq_str, chars_to_string, find_at, is_match, join_chars, join_spec,
    lines_spec, lower_chars, lower_spec, split_lines, starts_with_str, str_chars, string_of,
    subvec, trim_char_spec, trim_chars, trim_matching, trim_spec,
};
use vstd::prelude::*;

verus! {

/// A parsed plan template, ready to become an epic.
#[derive(Debug, Clone)]
pub struct PlanTemplate {
    /// Template identifier, the file name without its extension.
    pub id: String,
    /// Title from the front matter.
    pub title: String,
    /// Description from the front matter.
    pub description: String,
    /// Labels from the front matter.
    pub labels: Vec<String>,
    /// Repository for tracking issues, where the template names one.
    pub tracking_repo: Option<String>,
    /// Repository for implementation work, where the template names one.
    pub working_repo: Option<String>,
    /// Epic goal from the goal section.
    pub goal: String,
    /// Success metrics from their section.
    pub success_metrics: Vec<String>,
    /// Phases from the phases section.
    pub phases: Vec<PhaseConfig>,
}

/// What planning an epic from a markdown file was asked to do.
#[derive(Debug, Clone)]
pub struct PlanFromMarkdownConfig {
    /// Path of the markdown plan file.
    pub plan_file_path: String,
    /// Tracking repository where epic and sub-issues are created.
    pub repo: String,
    /// Work repository where code lives; the tracking repository where not
    /// given.
    pub work_repo: Option<String>,
    /// Overriding epic title, where given.
    pub title_override: Option<String>,
    /// Agent to use for planning, where given.
    pub planning_agent: Option<String>,
}

/// Result of a planning run.
#[derive(Debug, Clone)]
pub struct PlanResult {
    /// The created epic.
    pub epic: crate::epic::EpicInfo,
    /// The created sub-issues.
    pub sub_issues: Vec<crate::epic::SubIssueInfo>,
    /// The agent used for planning.
    pub planning_agent: String,
    /// What was created, in a sentence.
    pub summary: String,
}

// ------------------------------------------------------------------
// Goal
// ------------------------------------------------------------------

/// The non-empty trimmed lines of the goal section, which runs from the
/// goal heading to the next heading.
pub open spec fn goal_rec(lines: Seq<Seq<char>>, in_goal: bool, acc: Seq<Seq<char>>) -> Seq<
    Seq<char>,
>
    decreases lines.len(),
{
    if lines.len() == 0 {
        acc
    } else {
        let t = trim_spec(lines[0]);
        let rest = lines.subrange(1, lines.len() as int);
        if !in_goal {
            goal_rec(rest, t == "## Goal"@, acc)
        } else if is_match(t, "##"@, 0) {
            acc
        } else if t.len() > 0 {
            goal_rec(rest, true, acc.push(t))
        } else {
            goal_rec(rest, true, acc)
        }
    }
}

/// The goal a plan document states, its lines joined by spaces; nothing
/// where the goal section is missing or empty.
pub open spec fn goal_spec(markdown: Seq<char>) -> Option<Seq<char>> {
    let g = goal_rec(lines_spec(markdown), false, Seq::empty());
    if g.len() == 0 {
        None
    } else {
        Some(join_spec(g, " "@))
    }
}

/// Extract the goal from the plan's goal section.
pub fn extract_goal(markdown: &str) -> (r: Result<String, String>)
    ensures
        match r {
            Ok(g) => goal_spec(markdown@) == Some(g@),
            Err(e) => goal_spec(markdown@) is None && e@ == "No goal found in plan"@,
        },
{
    let bv = str_chars(markdown);
    let lines = split_lines(&bv);
    let ghost lv = lines.deep_view();
    let mut in_goal: bool = false;
    let mut acc: Vec<Vec<char>> = Vec::new();
    let mut i: usize = 0;
    let mut hit_end: bool = false;
    proof {
        assert(lv.subrange(0, lv.len() as int) =~= lv);
        assert(acc.deep_view() =~= Seq::<Seq<char>>::empty());
    }
    while i < lines.len() && !hit_end
        invariant
            i <= lines@.len(),
            lv == lines.deep_view(),
            lv == lines_spec(markdown@),
            !hit_end ==> goal_rec(lv.subrange(i as int, lv.len() as int), in_goal, acc.deep_view())
                == goal_rec(lv, false, Seq::empty()),
            hit_end ==> acc.deep_view() == goal_rec(lv, false, Seq::empty()),
        decreases lines@.len() - i,
    {
        let ghost rest = lv.subrange(i as int, lv.len() as int);
        let ghost prev_acc = acc.deep_view();
        proof {
            assert(rest[0] == lv[i as int]);
            assert(lv[i as int] == lines@[i as int]@);
            assert(rest.subrange(1, rest.len() as int) =~= lv.subrange(i + 1, lv.len() as int));
        }
        let t = trim_chars(&lines[i]);
        if !in_goal {
            in_goal = chars_eq_str(&t, "## Goal");
        } else if starts_with_str(&t, "##") {
            hit_end = true;
        } else if t.len() > 0 {
            acc.push(t);
            proof {
                assert(acc.deep_view() =~~= prev_acc.push(trim_spec(lv[i as int])));
            }
        }
        i = i + 1;
    }
    proof {
        if !hit_end {
            assert(lv.subrange(lv.len() as int, lv.len() as int) =~= Seq::<Seq<char>>::empty());
        }
    }
    if acc.len() == 0 {
        Err(string_of("No goal found in plan"))
    } else {
        let sep = str_chars(" ");
        let joined = join_chars(&acc, &sep);
        Ok(chars_to_string(&joined))
    }
}

// ------------------------------------------------------------------
// Success metrics
// ------------------------------------------------------------------

/// The metric one trimmed line carries: a dashed list entry, its optional
/// checkbox removed, where it is non-empty.
pub open spec fn metric_of_line(t: Seq<char>) -> Option<Seq<char>> {
    if is_match(t, "- "@, 0) {
        let rest = t.subrange(2, t.len() as int);
        let rest2 = if is_match(rest, "[ ] "@, 0) {
            rest.subrange(4, rest.len() as int)
        } else {
            rest
        };
        let m = trim_spec(rest2);
        if m.len() > 0 {
            Some(m)
        } else {
            None
        }
    } else {
        None
    }
}

/// The metric entries of the success-metrics section.
pub open spec fn metrics_rec(
    lines: Seq<Seq<char>>,
    in_metrics: bool,
    acc: Seq<Seq<char>>,
) -> Seq<Seq<char>>
    decreases lines.len(),
{
    if lines.len() == 0 {
        acc
    } else {
        let t = trim_spec(lines[0]);
        let rest = lines.subrange(1, lines.len() as int);
        if !in_metrics {
            metrics_rec(rest, t == "## Success Metrics"@, acc)
        } else if is_match(t, "##"@, 0) {
            acc
        } else {
            match metric_of_line(t) {
                Some(m) => metrics_rec(rest, true, acc.push(m)),
                None => metrics_rec(rest, true, acc),
            }
        }
    }
}

/// The success metrics a plan document lists.
pub open spec fn metrics_spec(markdown: Seq<char>) -> Seq<Seq<char>> {
    metrics_rec(lines_spec(markdown), false, Seq::empty())
}

/// Extract the success metrics from their section, with or without
/// checkboxes.
pub fn extract_success_metrics(markdown: &str) -> (r: Vec<String>)
    ensures
        r@.map_values(|s: String| s@) == metrics_spec(markdown@),
{
    let bv = str_chars(markdown);
    let lines = split_lines(&bv);
    let ghost lv = lines.deep_view();
    let mut in_metrics: bool = false;
    let mut acc: Vec<String> = Vec::new();
    let mut i: usize = 0;
    let mut hit_end: bool = false;
    proof {
        assert(lv.subrange(0, lv.len() as int) =~= lv);
        assert(acc@.map_values(|s: String| s@) =~= Seq::<Seq<char>>::empty());
    }
    while i < lines.len() && !hit_end
        invariant
            i <= lines@.len(),
            lv == lines.deep_view(),
            lv == lines_spec(markdown@),
            !hit_end ==> metrics_rec(
                lv.subrange(i as int, lv.len() as int),
                in_metrics,
                acc@.map_values(|s: String| s@),
            ) == metrics_rec(lv, false, Seq::empty()),
            hit_end ==> acc@.map_values(|s: String| s@) == metrics_rec(lv, false, Seq::empty()),
        decreases lines@.len() - i,
    {
        let ghost rest = lv.subrange(i as int, lv.len() as int);
        let ghost prev_acc = acc@.map_values(|s: String| s@);
        proof {
            assert(rest[0] == lv[i as int]);
            assert(lv[i as int] == lines@[i as int]@);
            assert(rest.subrange(1, rest.len() as int) =~= lv.subrange(i + 1, lv.len() as int));
        }
        let t = trim_chars(&lines[i]);
        if !in_metrics {
            in_metrics = chars_eq_str(&t, "## Success Metrics");
        } else if starts_with_str(&t, "##") {
            hit_end = true;
        } else if starts_with_str(&t, "- ") {
            proof {
                reveal_strlit("- ");
            }
            let rest1 = subvec(&t, 2, t.len());
            let rest2 = if starts_with_str(&rest1, "[ ] ") {
                proof {
                    reveal_strlit("[ ] ");
                }
                subvec(&rest1, 4, rest1.len())
            } else {
                subvec(&rest1, 0, rest1.len())
            };
            proof {
                assert(rest1@.subrange(0, rest1@.len() as int) =~= rest1@);
            }
            let m = trim_chars(&rest2);
            if m.len() > 0 {
                acc.push(chars_to_string(&m));
                proof {
                    assert(metric_of_line(trim_spec(lv[i as int])) == Some(m@));
                    assert(acc@.map_values(|s: String| s@) =~~= prev_acc.push(m@));
                }
            }
        }
        i = i + 1;
    }
    proof {
        if !hit_end {
            assert(lv.subrange(lv.len() as int, lv.len() as int) =~= Seq::<Seq<char>>::empty());
        }
    }
    acc
}

// ------------------------------------------------------------------
// Phases
// ------------------------------------------------------------------

/// Scanner state while reading the phases section of a plan document.
pub struct PlanScanState {
    /// The phases heading was seen.
    pub in_phases: bool,
    /// A later top-level heading ended the section.
    pub stopped: bool,
    /// Name and approach of the open phase.
    pub cur: Option<(Seq<char>, Seq<char>)>,
    /// Trimmed description lines of the open phase.
    pub descr: Seq<Seq<char>>,
    /// Task entries of the open phase.
    pub tasks: Seq<Seq<char>>,
    /// File entries of the open phase, backticks removed.
    pub files: Seq<Seq<char>>,
    /// Dependency entries of the open phase.
    pub deps: Seq<Seq<char>>,
    /// A task list is being read.
    pub in_tasks: bool,
    /// A file list is being read.
    pub in_files: bool,
    /// A dependency list is being read.
    pub in_deps: bool,
    /// Finished phases.
    pub done: Seq<PhaseModel>,
}

/// The scanner's starting state.
pub open spec fn plan_scan_init() -> PlanScanState {
    PlanScanState {
        in_phases: false,
        stopped: false,
        cur: None,
        descr: Seq::empty(),
        tasks: Seq::empty(),
        files: Seq::empty(),
        deps: Seq::empty(),
        in_tasks: false,
        in_files: false,
        in_deps: false,
        done: Seq::empty(),
    }
}

/// The open phase closed into a model, carrying its accumulated
/// description, tasks, files and dependencies.
pub open spec fn plan_close(st: PlanScanState) -> Seq<PhaseModel> {
    match st.cur {
        Some(c) => st.done.push(
            PhaseModel {
                name: c.0,
                description: trim_spec(join_spec(st.descr, " "@)),
                approach: c.1,
                tasks: st.tasks,
                files: st.files,
                dependencies: st.deps,
            },
        ),
        None => st.done,
    }
}

/// One line fed to the scanner.
pub open spec fn plan_scan_step(st: PlanScanState, line: Seq<char>) -> PlanScanState {
    let t = trim_spec(line);
    if st.stopped {
        st
    } else if t == "## Phases"@ {
        PlanScanState { in_phases: true, ..st }
    } else if !st.in_phases {
        st
    } else if is_match(t, "## "@, 0) {
        PlanScanState { stopped: true, ..st }
    } else if is_match(t, "### "@, 0) {
        PlanScanState {
            in_phases: true,
            stopped: false,
            cur: Some((crate::epic::phase_heading_name(t), "manual"@)),
            descr: Seq::empty(),
            tasks: Seq::empty(),
            files: Seq::empty(),
            deps: Seq::empty(),
            in_tasks: false,
            in_files: false,
            in_deps: false,
            done: plan_close(st),
        }
    } else if is_match(t, "**Approach**:"@, 0) {
        let ap = lower_spec(trim_spec(t.subrange("**Approach**:"@.len() as int, t.len() as int)));
        PlanScanState {
            cur: match st.cur {
                Some(c) => Some((c.0, ap)),
                None => None,
            },
            in_tasks: false,
            in_files: false,
            in_deps: false,
            ..st
        }
    } else if is_match(t, "**Key Tasks**:"@, 0) || is_match(t, "**Tasks**:"@, 0) {
        PlanScanState { in_tasks: true, in_files: false, in_deps: false, ..st }
    } else if is_match(t, "**Files**:"@, 0) {
        PlanScanState { in_tasks: false, in_files: true, in_deps: false, ..st }
    } else if is_match(t, "**Dependencies**:"@, 0) {
        let v = trim_spec(t.subrange("**Dependencies**:"@.len() as int, t.len() as int));
        if lower_spec(v) == "none"@ {
            PlanScanState {
                deps: Seq::empty(),
                in_tasks: false,
                in_files: false,
                in_deps: false,
                ..st
            }
        } else if v.len() > 0 {
            PlanScanState {
                deps: st.deps.push(v),
                in_tasks: false,
                in_files: false,
                in_deps: true,
                ..st
            }
        } else {
            PlanScanState { in_tasks: false, in_files: false, in_deps: true, ..st }
        }
    } else if t == "---"@ || t.len() == 0 {
        PlanScanState { in_tasks: false, in_files: false, in_deps: false, ..st }
    } else if is_match(t, "**"@, 0) {
        PlanScanState { in_tasks: false, in_files: false, in_deps: false, ..st }
    } else if is_match(t, "- "@, 0) {
        let item = trim_spec(t.subrange(2, t.len() as int));
        if st.in_tasks && st.cur is Some {
            PlanScanState { tasks: st.tasks.push(item), ..st }
        } else if st.in_files && st.cur is Some {
            PlanScanState { files: st.files.push(trim_char_spec(item, '`')), ..st }
        } else if st.in_deps && st.cur is Some {
            PlanScanState { deps: st.deps.push(item), ..st }
        } else if st.cur is Some {
            PlanScanState { descr: st.descr.push(t), ..st }
        } else {
            st
        }
    } else if st.cur is Some && !st.in_tasks && !st.in_files && !st.in_deps {
        PlanScanState { descr: st.descr.push(t), ..st }
    } else {
        st
    }
}

/// The scanner run over all lines.
pub open spec fn plan_scan_rec(lines: Seq<Seq<char>>, st: PlanScanState) -> Seq<PhaseModel>
    decreases lines.len(),
{
    if lines.len() == 0 {
        plan_close(st)
    } else {
        plan_scan_rec(lines.subrange(1, lines.len() as int), plan_scan_step(st, lines[0]))
    }
}

/// The phases a plan document describes.
pub open spec fn plan_phases_spec(markdown: Seq<char>) -> Seq<PhaseModel> {
    plan_scan_rec(lines_spec(markdown), plan_scan_init())
}

/// Once stopped, the scanner ignores the rest of the input.
proof fn lemma_plan_scan_stopped(lines: Seq<Seq<char>>, st: PlanScanState)
    requires
        st.stopped,
    ensures
        plan_scan_rec(lines, st) == plan_close(st),
    decreases lines.len(),
{
    if lines.len() > 0 {
        lemma_plan_scan_stopped(lines.subrange(1, lines.len() as int), st);
    }
}

/// The ghost scanner state the exec variables stand for.
pub open spec fn plan_model(
    in_phases: bool,
    cur: Option<(Vec<char>, Vec<char>)>,
    descr: &Vec<Vec<char>>,
    tasks: &Vec<Vec<char>>,
    files: &Vec<Vec<char>>,
    deps: &Vec<Vec<char>>,
    in_tasks: bool,
    in_files: bool,
    in_deps: bool,
    done: &Vec<PhaseConfig>,
) -> PlanScanState {
    PlanScanState {
        in_phases: in_phases,
        stopped: false,
        cur: match cur {
            Some(c) => Some((c.0@, c.1@)),
            None => None,
        },
        descr: descr.deep_view(),
        tasks: tasks.deep_view(),
        files: files.deep_view(),
        deps: deps.deep_view(),
        in_tasks: in_tasks,
        in_files: in_files,
        in_deps: in_deps,
        done: phase_models(done@),
    }
}

/// Strings for a vector of character lines.
fn strings_of(v: &Vec<Vec<char>>) -> (r: Vec<String>)
    ensures
        r@.map_values(|s: String| s@) == v.deep_view(),
{
    let mut r: Vec<String> = Vec::new();
    let mut i: usize = 0;
    proof {
        assert(r@.map_values(|s: String| s@) =~= v.deep_view().subrange(0, 0));
    }
    while i < v.len()
        invariant
            i <= v@.len(),
            r@.map_values(|s: String| s@) == v.deep_view().subrange(0, i as int),
        decreases v@.len() - i,
    {
        let ghost prev = r@.map_values(|s: String| s@);
        r.push(chars_to_string(&v[i]));
        proof {
            assert(r@.map_values(|s: String| s@) =~~= prev.push(v.deep_view()[i as int]));
            assert(v.deep_view().subrange(0, i + 1) =~= v.deep_view().subrange(0, i as int).push(
                v.deep_view()[i as int],
            ));
        }
        i = i + 1;
    }
    proof {
        assert(v.deep_view().subrange(0, v.deep_view().len() as int) =~= v.deep_view());
    }
    r
}

/// Close the open exec phase into a configuration.
fn plan_close_exec(
    name: &Vec<char>,
    approach: &Vec<char>,
    descr: &Vec<Vec<char>>,
    tasks: &Vec<Vec<char>>,
    files: &Vec<Vec<char>>,
    deps: &Vec<Vec<char>>,
) -> (r: PhaseConfig)
    ensures
        phase_model(r) == (PhaseModel {
            name: name@,
            description: trim_spec(join_spec(descr.deep_view(), " "@)),
            approach: approach@,
            tasks: tasks.deep_view(),
            files: files.deep_view(),
            dependencies: deps.deep_view(),
        }),
{
    let sep = str_chars(" ");
    let joined = join_chars(descr, &sep);
    let trimmed = trim_chars(&joined);
    PhaseConfig {
        name: chars_to_string(name),
        description: chars_to_string(&trimmed),
        approach: chars_to_string(approach),
        tasks: strings_of(tasks),
        files: strings_of(files),
        dependencies: strings_of(deps),
    }
}

/// Extract the phases from a plan document: sections under the phases
/// heading, each with its name, approach, description, tasks, files and
/// dependencies.
pub fn extract_phases(markdown: &str) -> (r: Result<Vec<PhaseConfig>, String>)
    ensures
        match r {
            Ok(ps) => phase_models(ps@) == plan_phases_spec(markdown@) && ps@.len() > 0,
            Err(e) => plan_phases_spec(markdown@).len() == 0 && e@ == "No phases found in plan"@,
        },
{
    let bv = str_chars(markdown);
    let lines = split_lines(&bv);
    let ghost lv = lines.deep_view();
    let mut in_phases: bool = false;
    let mut cur: Option<(Vec<char>, Vec<char>)> = None;
    let mut descr: Vec<Vec<char>> = Vec::new();
    let mut tasks: Vec<Vec<char>> = Vec::new();
    let mut files: Vec<Vec<char>> = Vec::new();
    let mut deps: Vec<Vec<char>> = Vec::new();
    let mut in_tasks: bool = false;
    let mut in_files: bool = false;
    let mut in_deps: bool = false;
    let mut done: Vec<PhaseConfig> = Vec::new();
    let mut i: usize = 0;
    let mut stopped: bool = false;
    proof {
        assert(lv.subrange(0, lv.len() as int) =~= lv);
        assert(descr.deep_view() =~= Seq::<Seq<char>>::empty());
        assert(tasks.deep_view() =~= Seq::<Seq<char>>::empty());
        assert(files.deep_view() =~= Seq::<Seq<char>>::empty());
        assert(deps.deep_view() =~= Seq::<Seq<char>>::empty());
        assert(phase_models(done@) =~= Seq::<PhaseModel>::empty());
        assert(plan_model(
            in_phases,
            cur,
            &descr,
            &tasks,
            &files,
            &deps,
            in_tasks,
            in_files,
            in_deps,
            &done,
        ) == plan_scan_init());
    }
    while i < lines.len() && !stopped
        invariant
            i <= lines@.len(),
            lv == lines.deep_view(),
            lv == lines_spec(markdown@),
            !stopped ==> plan_scan_rec(
                lv.subrange(i as int, lv.len() as int),
                plan_model(
                    in_phases,
                    cur,
                    &descr,
                    &tasks,
                    &files,
                    &deps,
                    in_tasks,
                    in_files,
                    in_deps,
                    &done,
                ),
            ) == plan_scan_rec(lv, plan_scan_init()),
            stopped ==> plan_close(
                plan_model(
                    in_phases,
                    cur,
                    &descr,
                    &tasks,
                    &files,
                    &deps,
                    in_tasks,
                    in_files,
                    in_deps,
                    &done,
                ),
            ) == plan_scan_rec(lv, plan_scan_init()),
        decreases lines@.len() - i,
    {
        let ghost rest = lv.subrange(i as int, lv.len() as int);
        let ghost st0 = plan_model(
            in_phases,
            cur,
            &descr,
            &tasks,
            &files,
            &deps,
            in_tasks,
            in_files,
            in_deps,
            &done,
        );
        proof {
            assert(rest[0] == lv[i as int]);
            assert(lv[i as int] == lines@[i as int]@);
            assert(rest.subrange(1, rest.len() as int) =~= lv.subrange(i + 1, lv.len() as int));
        }
        let t = trim_chars(&lines[i]);
        if chars_eq_str(&t, "## Phases") {
            in_phases = true;
        } else if !in_phases {
            // outside the phases section: nothing to read
        } else if starts_with_str(&t, "## ") {
            stopped = true;
            proof {
                lemma_plan_scan_stopped(
                    lv.subrange(i + 1, lv.len() as int),
                    plan_scan_step(st0, lv[i as int]),
                );
            }
        } else if starts_with_str(&t, "### ") {
            proof {
                reveal_strlit("### ");
            }
            let after = subvec(&t, 3, t.len());
            let trimmed_after = trim_chars(&after);
            let seg = crate::text::after_last(&trimmed_after, ':');
            let name = trim_chars(&seg);
            match &cur {
                Some(c) => {
                    let ghost pre_done = phase_models(done@);
                    done.push(plan_close_exec(&c.0, &c.1, &descr, &tasks, &files, &deps));
                    proof {
                        assert(phase_models(done@) =~~= plan_close(st0));
                    }
                },
                None => {},
            }
            cur = Some((name, str_chars("manual")));
            descr = Vec::new();
            tasks = Vec::new();
            files = Vec::new();
            deps = Vec::new();
            in_tasks = false;
            in_files = false;
            in_deps = false;
            proof {
                assert(descr.deep_view() =~= Seq::<Seq<char>>::empty());
                assert(tasks.deep_view() =~= Seq::<Seq<char>>::empty());
                assert(files.deep_view() =~= Seq::<Seq<char>>::empty());
                assert(deps.deep_view() =~= Seq::<Seq<char>>::empty());
            }
        } else if starts_with_str(&t, "**Approach**:") {
            let marker = str_chars("**Approach**:");
            let tail = subvec(&t, marker.len(), t.len());
            let trimmed_tail = trim_chars(&tail);
            let approach = lower_chars(&trimmed_tail);
            match &mut cur {
                Some(c) => {
                    c.1 = approach;
                },
                None => {},
            }
            in_tasks = false;
            in_files = false;
            in_deps = false;
        } else if starts_with_str(&t, "**Key Tasks**:") || starts_with_str(&t, "**Tasks**:") {
            in_tasks = true;
            in_files = false;
            in_deps = false;
        } else if starts_with_str(&t, "**Files**:") {
            in_tasks = false;
            in_files = true;
            in_deps = false;
        } else if starts_with_str(&t, "**Dependencies**:") {
            let marker = str_chars("**Dependencies**:");
            let tail = subvec(&t, marker.len(), t.len());
            let v = trim_chars(&tail);
            let lowered = lower_chars(&v);
            if chars_eq_str(&lowered, "none") {
                deps = Vec::new();
                in_tasks = false;
                in_files = false;
                in_deps = false;
                proof {
                    assert(deps.deep_view() =~= Seq::<Seq<char>>::empty());
                }
            } else if v.len() > 0 {
                let ghost pre = deps.deep_view();
                deps.push(v);
                in_tasks = false;
                in_files = false;
                in_deps = true;
                proof {
                    assert(deps.deep_view() =~~= pre.push(
                        trim_spec(trim_spec(lv[i as int]).subrange(
                            "**Dependencies**:"@.len() as int,
                            trim_spec(lv[i as int]).len() as int,
                        )),
                    ));
                }
            } else {
                in_tasks = false;
                in_files = false;
                in_deps = true;
            }
        } else if chars_eq_str(&t, "---") || t.len() == 0 {
            in_tasks = false;
            in_files = false;
            in_deps = false;
        } else if starts_with_str(&t, "**") {
            in_tasks = false;
            in_files = false;
            in_deps = false;
        } else if starts_with_str(&t, "- ") {
            proof {
                reveal_strlit("- ");
            }
            let tail = subvec(&t, 2, t.len());
            let item = trim_chars(&tail);
            let has_cur = cur.is_some();
            if in_tasks && has_cur {
                let ghost pre = tasks.deep_view();
                tasks.push(item);
                proof {
                    assert(tasks.deep_view() =~~= pre.push(
                        trim_spec(trim_spec(lv[i as int]).subrange(
                            2,
                            trim_spec(lv[i as int]).len() as int,
                        )),
                    ));
                }
            } else if in_files && has_cur {
                let ghost pre = files.deep_view();
                let stripped = trim_matching(&item, '`');
                files.push(stripped);
                proof {
                    assert(files.deep_view() =~~= pre.push(
                        trim_char_spec(
                            trim_spec(trim_spec(lv[i as int]).subrange(
                                2,
                                trim_spec(lv[i as int]).len() as int,
                            )),
                            '`',
                        ),
                    ));
                }
            } else if in_deps && has_cur {
                let ghost pre = deps.deep_view();
                deps.push(item);
                proof {
                    assert(deps.deep_view() =~~= pre.push(
                        trim_spec(trim_spec(lv[i as int]).subrange(
                            2,
                            trim_spec(lv[i as int]).len() as int,
                        )),
                    ));
                }
            } else if has_cur {
                let ghost pre = descr.deep_view();
                descr.push(t);
                proof {
                    assert(descr.deep_view() =~~= pre.push(trim_spec(lv[i as int])));
                }
            }
        } else {
            let in_section = in_tasks || in_files || in_deps;
            if cur.is_some() && !in_section {
                let ghost pre = descr.deep_view();
                descr.push(t);
                proof {
                    assert(descr.deep_view() =~~= pre.push(trim_spec(lv[i as int])));
                }
            }
        }
        proof {
            if !stopped {
                assert(plan_model(
                    in_phases,
                    cur,
                    &descr,
                    &tasks,
                    &files,
                    &deps,
                    in_tasks,
                    in_files,
                    in_deps,
                    &done,
                ) == plan_scan_step(st0, lv[i as int]));
            } else {
                assert(plan_scan_step(st0, lv[i as int]) == PlanScanState { stopped: true, ..st0 });
                assert(plan_close(PlanScanState { stopped: true, ..st0 }) == plan_close(
                    plan_model(
                        in_phases,
                        cur,
                        &descr,
                        &tasks,
                        &files,
                        &deps,
                        in_tasks,
                        in_files,
                        in_deps,
                        &done,
                    ),
                ));
            }
        }
        i = i + 1;
    }
    proof {
        if !stopped {
            assert(lv.subrange(lv.len() as int, lv.len() as int) =~= Seq::<Seq<char>>::empty());
        }
    }
    let ghost st_end = plan_model(
        in_phases,
        cur,
        &descr,
        &tasks,
        &files,
        &deps,
        in_tasks,
        in_files,
        in_deps,
        &done,
    );
    match &cur {
        Some(c) => {
            done.push(plan_close_exec(&c.0, &c.1, &descr, &tasks, &files, &deps));
            proof {
                assert(phase_models(done@) =~~= plan_close(st_end));
            }
        },
        None => {},
    }
    if done.len() == 0 {
        Err(string_of("No phases found in plan"))
    } else {
        Ok(done)
    }
}

// ------------------------------------------------------------------
// Templates and planning helpers
// ------------------------------------------------------------------

/// Turn a plan template into an epic configuration, preferring the
/// template's repositories over the given defaults.
pub fn template_to_config(
    template: &PlanTemplate,
    default_repo: String,
    default_work_repo: Option<String>,
) -> (r: EpicConfig)
    ensures
        r.title == template.title,
        r.repo == (match template.tracking_repo {
            Some(t) => t,
            None => default_repo,
        }),
        r.work_repo == (match template.working_repo {
            Some(w) => Some(w),
            None => default_work_repo,
        }),
        r.goal == template.goal,
        r.success_metrics@ == template.success_metrics@,
        crate::epic::phase_models(r.phases@) == crate::epic::phase_models(template.phases@),
        r.labels@ == template.labels@,
{
    let repo = match &template.tracking_repo {
        Some(t) => t.clone(),
        None => default_repo,
    };
    let work_repo = match &template.working_repo {
        Some(w) => Some(w.clone()),
        None => default_work_repo,
    };
    EpicConfig {
        title: template.title.clone(),
        repo,
        work_repo,
        goal: template.goal.clone(),
        success_metrics: crate::github::clone_strings(&template.success_metrics),
        phases: clone_phases(&template.phases),
        labels: crate::github::clone_strings(&template.labels),
    }
}

/// An exact copy of a list of phases, by their models.
fn clone_phases(ps: &Vec<PhaseConfig>) -> (r: Vec<PhaseConfig>)
    ensures
        crate::epic::phase_models(r@) == crate::epic::phase_models(ps@),
{
    let mut r: Vec<PhaseConfig> = Vec::new();
    let mut i: usize = 0;
    proof {
        assert(crate::epic::phase_models(r@) =~= crate::epic::phase_models(ps@.subrange(0, 0)));
    }
    while i < ps.len()
        invariant
            i <= ps@.len(),
            crate::epic::phase_models(r@) == crate::epic::phase_models(
                ps@.subrange(0, i as int),
            ),
        decreases ps@.len() - i,
    {
        let ghost prev = crate::epic::phase_models(r@);
        let p = &ps[i];
        r.push(
            PhaseConfig {
                name: p.name.clone(),
                description: p.description.clone(),
                approach: p.approach.clone(),
                tasks: crate::github::clone_strings(&p.tasks),
                files: crate::github::clone_strings(&p.files),
                dependencies: crate::github::clone_strings(&p.dependencies),
            },
        );
        proof {
            assert(crate::epic::phase_models(r@) =~~= prev.push(
                phase_model(ps@[i as int]),
            ));
            assert(crate::epic::phase_models(ps@.subrange(0, i + 1)) =~= crate::epic::phase_models(
                ps@.subrange(0, i as int),
            ).push(phase_model(ps@[i as int])));
        }
        i = i + 1;
    }
    proof {
        assert(ps@.subrange(0, ps@.len() as int) =~= ps@);
    }
    r
}

/// An agent is in the enabled list.
pub open spec fn agent_enabled(enabled: Seq<String>, agent: Seq<char>) -> bool {
    exists|i: int| 0 <= i < enabled.len() && #[trigger] enabled[i]@ == agent
}

/// Pick the agent that plans an epic: the requested one where it is
/// enabled, else the first enabled agent; an error where the requested
/// agent is disabled or none is enabled.
pub fn determine_planning_agent(
    config: &PlanFromMarkdownConfig,
    enabled_agents: &Vec<String>,
) -> (r: Result<String, String>)
    ensures
        config.planning_agent matches Some(a) ==> (match r {
            Ok(g) => agent_enabled(enabled_agents@, a@) && g@ == a@,
            Err(e) => !agent_enabled(enabled_agents@, a@) && e@.len() > 0,
        }),
        config.planning_agent is None ==> (match r {
            Ok(g) => enabled_agents@.len() > 0 && g@ == enabled_agents@[0]@,
            Err(e) => enabled_agents@.len() == 0 && e@.len() > 0,
        }),
{
    match &config.planning_agent {
        Some(requested) => {
            let mut i: usize = 0;
            while i < enabled_agents.len()
                invariant
                    config.planning_agent == Some(*requested),
                    i <= enabled_agents@.len(),
                    forall|k: int| 0 <= k < i ==> enabled_agents@[k]@ != requested@,
                decreases enabled_agents@.len() - i,
            {
                if crate::text::str_eq(enabled_agents[i].as_str(), requested.as_str()) {
                    return Ok(requested.clone());
                }
                i = i + 1;
            }
            let mut e = str_chars("Agent '");
            append_str(&mut e, requested.as_str());
            append_str(
                &mut e,
                "' is not enabled. Enable it in DevOps settings first.",
            );
            proof {
                reveal_strlit("Agent '");
            }
            Err(chars_to_string(&e))
        },
        None => {
            if enabled_agents.len() > 0 {
                Ok(enabled_agents[0].clone())
            } else {
                proof {
                    reveal_strlit(
                        "No agents enabled. Enable at least one agent (coder, aider, etc.) in DevOps settings.",
                    );
                }
                Err(
                    string_of(
                        "No agents enabled. Enable at least one agent (coder, aider, etc.) in DevOps settings.",
                    ),
                )
            }
        },
    }
}

/// The JSON payload of an agent's answer: the contents of the first fenced
/// code block, or the whole answer where there is none, trimmed.
pub open spec fn json_payload_spec(out: Seq<char>) -> Seq<char> {
    let f = find_at(out, "```json"@);
    if f >= 0 {
        let after = out.subrange(f + "```json"@.len(), out.len() as int);
        let e = find_at(after, "```"@);
        if e >= 0 {
            trim_spec(after.subrange(0, e))
        } else {
            trim_spec(out)
        }
    } else {
        let f2 = find_at(out, "```"@);
        if f2 >= 0 {
            let after = out.subrange(f2 + "```"@.len(), out.len() as int);
            let e = find_at(after, "```"@);
            if e >= 0 {
                trim_spec(after.subrange(0, e))
            } else {
                trim_spec(out)
            }
        } else {
            trim_spec(out)
        }
    }
}

/// Extract the JSON payload from an agent's answer, unwrapping a fenced
/// code block where one is present.
pub fn extract_json_payload(output: &str) -> (r: String)
    ensures
        r@ == json_payload_spec(output@),
{
    let ov = str_chars(output);
    let n: usize = ov.len();
    let fence_json = str_chars("```json");
    let fence = str_chars("```");
    match crate::text::find_pat(&ov, &fence_json) {
        Some(f) => {
            let after = subvec(&ov, f + fence_json.len(), n);
            match crate::text::find_pat(&after, &fence) {
                Some(e) => {
                    let seg = subvec(&after, 0, e);
                    let tr = trim_chars(&seg);
                    chars_to_string(&tr)
                },
                None => {
                    let tr = trim_chars(&ov);
                    chars_to_string(&tr)
                },
            }
        },
        None => {
            match crate::text::find_pat(&ov, &fence) {
                Some(f2) => {
                    let after = subvec(&ov, f2 + fence.len(), n);
                    match crate::text::find_pat(&after, &fence) {
                        Some(e) => {
                            let seg = subvec(&after, 0, e);
                            let tr = trim_chars(&seg);
                            chars_to_string(&tr)
                        },
                        None => {
                            let tr = trim_chars(&ov);
                            chars_to_string(&tr)
                        },
                    }
                },
                None => {
                    let tr = trim_chars(&ov);
                    chars_to_string(&tr)
                },
            }
        },
    }
}

} // verus!
