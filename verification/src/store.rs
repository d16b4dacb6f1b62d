//! Persisted orchestration state: the pipeline summary and the active-epic
//! cache.
//!
//! Both stores are read-modify-write documents; the epic cache is only an
//! accelerator, rebuildable at any time from the issue tracker, and never
//! the sole source of truth.

use crate::epic::EpicInfo;
use crate::pipeline::{PipelineState, PipelineStatus};
use crate::seqs::{count_where, first_where, keep_last};
use crate::text::{clone_opt_string, dec_spec, string_of};
use vstd::prelude::*;

verus! {

/// What assigning an issue to an agent was asked to do.
#[derive(Debug, Clone)]
pub struct AssignIssueConfig {
    /// Repository where the issue lives.
    pub tracking_repo: String,
    /// Repository where the work is done.
    pub work_repo: String,
    /// Issue number to assign.
    pub issue_number: u64,
    /// Agent type to use.
    pub agent_type: String,
    /// Local path of the work repository.
    pub repo_path: String,
    /// Labels to add when work starts.
    pub start_labels: Vec<String>,
    /// Labels to remove when work starts.
    pub remove_labels: Vec<String>,
}

/// What assigning an issue produced.
#[derive(Debug, Clone)]
pub struct AssignIssueResult {
    /// The tracked pipeline item.
    pub pipeline_item: crate::pipeline::PipelineItem,
    /// What the spawn produced.
    pub spawn_result: crate::orchestrator::SpawnResult,
}

/// What skipping an issue was asked to do.
#[derive(Debug, Clone)]
pub struct SkipIssueConfig {
    /// Repository where the issue lives.
    pub repo: String,
    /// Issue number to skip.
    pub issue_number: u64,
    /// Reason for skipping, where given.
    pub reason: Option<String>,
    /// Labels to add; "agent-skipped" where empty.
    pub add_labels: Vec<String>,
    /// Labels to remove; "agent-todo" where empty.
    pub remove_labels: Vec<String>,
}

/// Pipeline items by status, for display.
#[derive(Debug, Clone, Copy, PartialEq, Eq, Structural)]
pub struct PipelineSummary {
    /// Items in all.
    pub total: usize,
    /// Queued items.
    pub queued: usize,
    /// Items in progress.
    pub in_progress: usize,
    /// Items waiting on a pull request.
    pub pr_pending: usize,
    /// Completed items.
    pub completed: usize,
    /// Skipped items.
    pub skipped: usize,
    /// Failed items.
    pub failed: usize,
}

/// An item has the given status.
pub open spec fn status_pred(s: PipelineStatus) -> spec_fn(crate::pipeline::PipelineItem) -> bool {
    |it: crate::pipeline::PipelineItem| it.status == s
}

/// An item waits on its pull request.
pub open spec fn pr_wait_pred() -> spec_fn(crate::pipeline::PipelineItem) -> bool {
    |it: crate::pipeline::PipelineItem|
        it.status == PipelineStatus::PrPending || it.status == PipelineStatus::PrReview
}

/// Count the in-flight items by status.
pub fn get_pipeline_summary(state: &PipelineState) -> (r: PipelineSummary)
    ensures
        r.total == state.items@.len(),
        r.queued == count_where(state.items@, status_pred(PipelineStatus::Queued)),
        r.in_progress == count_where(state.items@, status_pred(PipelineStatus::InProgress)),
        r.pr_pending == count_where(state.items@, pr_wait_pred()),
        r.completed == count_where(state.items@, status_pred(PipelineStatus::Completed)),
        r.skipped == count_where(state.items@, status_pred(PipelineStatus::Skipped)),
        r.failed == count_where(state.items@, status_pred(PipelineStatus::Failed)),
{
    let mut queued: usize = 0;
    let mut in_progress: usize = 0;
    let mut pr_pending: usize = 0;
    let mut completed: usize = 0;
    let mut skipped: usize = 0;
    let mut failed: usize = 0;
    let mut i: usize = 0;
    proof {
        assert(state.items@.subrange(0, 0) =~= Seq::<crate::pipeline::PipelineItem>::empty());
    }
    while i < state.items.len()
        invariant
            i <= state.items@.len(),
            queued == count_where(
                state.items@.subrange(0, i as int),
                status_pred(PipelineStatus::Queued),
            ),
            in_progress == count_where(
                state.items@.subrange(0, i as int),
                status_pred(PipelineStatus::InProgress),
            ),
            pr_pending == count_where(state.items@.subrange(0, i as int), pr_wait_pred()),
            completed == count_where(
                state.items@.subrange(0, i as int),
                status_pred(PipelineStatus::Completed),
            ),
            skipped == count_where(
                state.items@.subrange(0, i as int),
                status_pred(PipelineStatus::Skipped),
            ),
            failed == count_where(
                state.items@.subrange(0, i as int),
                status_pred(PipelineStatus::Failed),
            ),
            queued <= i && in_progress <= i && pr_pending <= i && completed <= i && skipped <= i
                && failed <= i,
        decreases state.items@.len() - i,
    {
        proof {
            assert(state.items@.subrange(0, i + 1).drop_last() =~= state.items@.subrange(
                0,
                i as int,
            ));
            assert(state.items@.subrange(0, i + 1).last() == state.items@[i as int]);
        }
        match state.items[i].status {
            PipelineStatus::Queued => {
                queued = queued + 1;
            },
            PipelineStatus::InProgress => {
                in_progress = in_progress + 1;
            },
            PipelineStatus::PrPending => {
                pr_pending = pr_pending + 1;
            },
            PipelineStatus::PrReview => {
                pr_pending = pr_pending + 1;
            },
            PipelineStatus::Completed => {
                completed = completed + 1;
            },
            PipelineStatus::Skipped => {
                skipped = skipped + 1;
            },
            PipelineStatus::Failed => {
                failed = failed + 1;
            },
        }
        i = i + 1;
    }
    proof {
        assert(state.items@.subrange(0, state.items@.len() as int) =~= state.items@);
    }
    PipelineSummary {
        total: state.items.len(),
        queued,
        in_progress,
        pr_pending,
        completed,
        skipped,
        failed,
    }
}

/// Record a skipped issue as a terminal pipeline item: skipped on the
/// spot, with the reason — where one was given — kept as the item's error
/// text.
pub fn skip_issue(issue: &crate::github::GitHubIssue, repo: &str, reason: Option<&str>) -> (r:
    crate::pipeline::PipelineItem)
    ensures
        r.status == PipelineStatus::Skipped,
        r.completed_at is Some,
        r.tracking_repo@ == repo@,
        r.work_repo@ == repo@,
        r.issue_number == issue.number,
        r.issue_title == issue.title,
        r.issue_url == issue.url,
        r.agent_type@ == "none"@,
        (match reason {
            Some(t) => r.error matches Some(e) && e@ == t@,
            None => r.error is None,
        }),
        r.pr_number is None,
        r.session_name is None,
{
    let mut item = crate::pipeline::PipelineItem::from_issue(issue, repo, repo, "none");
    item.skip();
    item.error = match reason {
        Some(t) => Some(string_of(t)),
        None => None,
    };
    item
}

// ------------------------------------------------------------------
// The active-epic cache
// ------------------------------------------------------------------

/// Tracked status of one phase.
#[derive(Debug, Clone, Copy, PartialEq, Eq, Structural)]
pub enum TrackedPhaseStatus {
    /// Not started.
    NotStarted,
    /// In progress.
    InProgress,
    /// Completed.
    Completed,
    /// Skipped.
    Skipped,
}

impl Default for TrackedPhaseStatus {
    /// Not started, to begin with.
    fn default() -> (r: Self)
        ensures
            r == TrackedPhaseStatus::NotStarted,
    {
        TrackedPhaseStatus::NotStarted
    }
}

/// Tracked state of one phase.
#[derive(Debug, Clone)]
pub struct TrackedPhase {
    /// Phase number, starting at one.
    pub phase_number: u32,
    /// Phase name.
    pub name: String,
    /// Phase status.
    pub status: TrackedPhaseStatus,
    /// Sub-issue numbers of the phase.
    pub sub_issues: Vec<u32>,
    /// Closed sub-issues.
    pub completed_count: usize,
    /// Sub-issues in all.
    pub total_count: usize,
}

/// Persisted state of the active epic workflow.
#[derive(Debug, Clone)]
pub struct ActiveEpicState {
    /// Epic issue number.
    pub epic_number: u32,
    /// Repository where the epic issue lives.
    pub tracking_repo: String,
    /// Repository where code is written.
    pub work_repo: String,
    /// Epic title.
    pub title: String,
    /// Epic URL.
    pub url: String,
    /// Phases with their tracked state.
    pub phases: Vec<TrackedPhase>,
    /// All sub-issues of the epic.
    pub sub_issues: Vec<TrackedSubIssue>,
    /// When the epic was linked or loaded.
    pub linked_at: String,
    /// When state was last synced with the tracker, where it was.
    pub last_synced_at: Option<String>,
}

/// Tracked state of one sub-issue.
#[derive(Debug, Clone)]
pub struct TrackedSubIssue {
    /// Issue number.
    pub issue_number: u32,
    /// Issue title.
    pub title: String,
    /// Phase the issue belongs to, where known.
    pub phase: Option<u32>,
    /// Current state, open or closed.
    pub state: String,
    /// Agent type assigned, where one is.
    pub agent_type: Option<String>,
    /// Session name, where an agent works.
    pub session_name: Option<String>,
    /// Session name kept for pull-request tracking.
    pub agent_session: Option<String>,
    /// An agent is working right now.
    pub has_agent_working: bool,
    /// Issue URL.
    pub url: String,
    /// Pull request URL, where one was created.
    pub pr_url: Option<String>,
    /// Pull request number, where one was created.
    pub pr_number: Option<u64>,
}

/// The whole epic store: one active epic and a capped history.
#[derive(Debug, Clone)]
pub struct EpicStoreState {
    /// The epic being orchestrated, where one is.
    pub active_epic: Option<ActiveEpicState>,
    /// Completed epics, oldest first.
    pub history: Vec<ActiveEpicState>,
    /// Most history entries to keep.
    pub max_history: usize,
}

/// History entries kept by default.
pub fn default_epic_history() -> (r: usize)
    ensures
        r == 10,
{
    10
}

impl EpicStoreState {
    /// An empty store.
    pub fn new() -> (r: Self)
        ensures
            r.active_epic is None,
            r.history@.len() == 0,
            r.max_history == 10,
    {
        EpicStoreState { active_epic: None, history: Vec::new(), max_history: default_epic_history() }
    }
}

impl Default for EpicStoreState {
    /// An empty store.
    fn default() -> (r: Self)
        ensures
            r.active_epic is None,
            r.history@.len() == 0,
            r.max_history == 10,
    {
        EpicStoreState::new()
    }
}

/// A freshly linked epic: every phase tracked as not started, no
/// sub-issues yet.
pub open spec fn fresh_active_matches(a: ActiveEpicState, info: EpicInfo) -> bool {
    &&& a.epic_number == info.epic_number
    &&& a.tracking_repo == info.repo
    &&& a.work_repo == info.work_repo
    &&& a.title == info.title
    &&& a.url == info.url
    &&& a.phases@.len() == info.phases@.len()
    &&& (forall|k: int|
        0 <= k < a.phases@.len() ==> {
            &&& (#[trigger] a.phases@[k]).phase_number == k + 1
            &&& a.phases@[k].name == info.phases@[k].name
            &&& a.phases@[k].status == TrackedPhaseStatus::NotStarted
            &&& a.phases@[k].sub_issues@.len() == 0
            &&& a.phases@[k].completed_count == 0
            &&& a.phases@[k].total_count == 0
        })
    &&& a.sub_issues@.len() == 0
    &&& a.linked_at@.len() > 0
    &&& a.last_synced_at is None
}

/// Build the fresh tracked state for a newly linked epic.
fn fresh_active(epic_info: &EpicInfo) -> (r: ActiveEpicState)
    requires
        epic_info.phases@.len() < u32::MAX,
    ensures
        fresh_active_matches(r, *epic_info),
{
    let mut phases: Vec<TrackedPhase> = Vec::new();
    let mut k: usize = 0;
    while k < epic_info.phases.len()
        invariant
            epic_info.phases@.len() < u32::MAX,
            k <= epic_info.phases@.len(),
            phases@.len() == k,
            forall|j: int|
                0 <= j < k ==> {
                    &&& (#[trigger] phases@[j]).phase_number == j + 1
                    &&& phases@[j].name == epic_info.phases@[j].name
                    &&& phases@[j].status == TrackedPhaseStatus::NotStarted
                    &&& phases@[j].sub_issues@.len() == 0
                    &&& phases@[j].completed_count == 0
                    &&& phases@[j].total_count == 0
                },
        decreases epic_info.phases@.len() - k,
    {
        phases.push(
            TrackedPhase {
                phase_number: (k as u32) + 1,
                name: epic_info.phases[k].name.clone(),
                status: TrackedPhaseStatus::NotStarted,
                sub_issues: Vec::new(),
                completed_count: 0,
                total_count: 0,
            },
        );
        k = k + 1;
    }
    ActiveEpicState {
        epic_number: epic_info.epic_number,
        tracking_repo: epic_info.repo.clone(),
        work_repo: epic_info.work_repo.clone(),
        title: epic_info.title.clone(),
        url: epic_info.url.clone(),
        phases,
        sub_issues: Vec::new(),
        linked_at: crate::clock::now_rfc3339(),
        last_synced_at: None,
    }
}

/// Link an epic: the store's active epic becomes a fresh tracked state for
/// it, every phase not started.
pub fn set_active_epic(state: &mut EpicStoreState, epic_info: &EpicInfo) -> (r: ActiveEpicState)
    requires
        epic_info.phases@.len() < u32::MAX,
    ensures
        final(state).history == old(state).history,
        final(state).max_history == old(state).max_history,
        (final(state).active_epic matches Some(a) && fresh_active_matches(a, *epic_info)),
        fresh_active_matches(r, *epic_info),
{
    let stored = fresh_active(epic_info);
    state.active_epic = Some(stored);
    fresh_active(epic_info)
}

/// Two tracked phases hold the same plain values.
pub open spec fn same_phase(a: TrackedPhase, b: TrackedPhase) -> bool {
    &&& a.phase_number == b.phase_number
    &&& a.name == b.name
    &&& a.status == b.status
    &&& a.sub_issues@ == b.sub_issues@
    &&& a.completed_count == b.completed_count
    &&& a.total_count == b.total_count
}

/// Two tracked sub-issues hold the same plain values.
pub open spec fn same_sub(a: TrackedSubIssue, b: TrackedSubIssue) -> bool {
    &&& a.issue_number == b.issue_number
    &&& a.title == b.title
    &&& a.phase == b.phase
    &&& a.state == b.state
    &&& a.agent_type == b.agent_type
    &&& a.session_name == b.session_name
    &&& a.agent_session == b.agent_session
    &&& a.has_agent_working == b.has_agent_working
    &&& a.url == b.url
    &&& a.pr_url == b.pr_url
    &&& a.pr_number == b.pr_number
}

/// Two active-epic states hold the same plain values.
pub open spec fn same_active(a: ActiveEpicState, b: ActiveEpicState) -> bool {
    &&& a.epic_number == b.epic_number
    &&& a.tracking_repo == b.tracking_repo
    &&& a.work_repo == b.work_repo
    &&& a.title == b.title
    &&& a.url == b.url
    &&& a.phases@.len() == b.phases@.len()
    &&& (forall|k: int|
        0 <= k < a.phases@.len() ==> same_phase(#[trigger] a.phases@[k], b.phases@[k]))
    &&& a.sub_issues@.len() == b.sub_issues@.len()
    &&& (forall|k: int|
        0 <= k < a.sub_issues@.len() ==> same_sub(#[trigger] a.sub_issues@[k], b.sub_issues@[k]))
    &&& a.linked_at == b.linked_at
    &&& a.last_synced_at == b.last_synced_at
}

/// A copy of a vector of numbers.
fn clone_u32s(v: &Vec<u32>) -> (r: Vec<u32>)
    ensures
        r@ == v@,
{
    let mut r: Vec<u32> = Vec::new();
    let mut i: usize = 0;
    while i < v.len()
        invariant
            i <= v@.len(),
            r@ == v@.subrange(0, i as int),
        decreases v@.len() - i,
    {
        r.push(v[i]);
        proof {
            assert(v@.subrange(0, i + 1) =~= v@.subrange(0, i as int).push(v@[i as int]));
        }
        i = i + 1;
    }
    proof {
        assert(v@.subrange(0, v@.len() as int) =~= v@);
    }
    r
}

/// A copy of one tracked phase, holding the same plain values.
fn duplicate_phase(p: &TrackedPhase) -> (r: TrackedPhase)
    ensures
        same_phase(r, *p),
{
    TrackedPhase {
        phase_number: p.phase_number,
        name: p.name.clone(),
        status: p.status,
        sub_issues: clone_u32s(&p.sub_issues),
        completed_count: p.completed_count,
        total_count: p.total_count,
    }
}

/// A copy of one tracked sub-issue, holding the same plain values.
fn duplicate_sub(s: &TrackedSubIssue) -> (r: TrackedSubIssue)
    ensures
        same_sub(r, *s),
{
    TrackedSubIssue {
        issue_number: s.issue_number,
        title: s.title.clone(),
        phase: s.phase,
        state: s.state.clone(),
        agent_type: clone_opt_string(&s.agent_type),
        session_name: clone_opt_string(&s.session_name),
        agent_session: clone_opt_string(&s.agent_session),
        has_agent_working: s.has_agent_working,
        url: s.url.clone(),
        pr_url: clone_opt_string(&s.pr_url),
        pr_number: s.pr_number,
    }
}

/// A copy of an active-epic state, holding the same plain values.
pub fn duplicate_active(a: &ActiveEpicState) -> (r: ActiveEpicState)
    ensures
        same_active(r, *a),
{
    let mut phases: Vec<TrackedPhase> = Vec::new();
    let mut i: usize = 0;
    while i < a.phases.len()
        invariant
            i <= a.phases@.len(),
            phases@.len() == i,
            forall|k: int| 0 <= k < i ==> same_phase(#[trigger] phases@[k], a.phases@[k]),
        decreases a.phases@.len() - i,
    {
        phases.push(duplicate_phase(&a.phases[i]));
        i = i + 1;
    }
    let mut sub_issues: Vec<TrackedSubIssue> = Vec::new();
    let mut j: usize = 0;
    while j < a.sub_issues.len()
        invariant
            j <= a.sub_issues@.len(),
            sub_issues@.len() == j,
            forall|k: int| 0 <= k < j ==> same_sub(#[trigger] sub_issues@[k], a.sub_issues@[k]),
        decreases a.sub_issues@.len() - j,
    {
        sub_issues.push(duplicate_sub(&a.sub_issues[j]));
        j = j + 1;
    }
    ActiveEpicState {
        epic_number: a.epic_number,
        tracking_repo: a.tracking_repo.clone(),
        work_repo: a.work_repo.clone(),
        title: a.title.clone(),
        url: a.url.clone(),
        phases,
        sub_issues,
        linked_at: a.linked_at.clone(),
        last_synced_at: clone_opt_string(&a.last_synced_at),
    }
}

/// Clear the active epic; where asked, archive it into the capped history.
/// The returned state holds the same plain values as the archived one.
pub fn clear_active_epic(state: &mut EpicStoreState, archive: bool) -> (r: Option<ActiveEpicState>)
    ensures
        final(state).active_epic is None,
        final(state).max_history == old(state).max_history,
        old(state).active_epic is None ==> final(state).history == old(state).history && r
            is None,
        old(state).active_epic matches Some(a) ==> (r matches Some(got) && same_active(got, a))
            && final(state).history@ == (if archive {
            keep_last(old(state).history@.push(a), old(state).max_history as int)
        } else {
            old(state).history@
        }),
{
    let mut taken: Option<ActiveEpicState> = None;
    core::mem::swap(&mut taken, &mut state.active_epic);
    match taken {
        None => None,
        Some(active) => {
            let copy = duplicate_active(&active);
            if archive {
                state.history.push(active);
                trim_epic_history(&mut state.history, state.max_history);
            }
            Some(copy)
        },
    }
}

/// Drop epic history entries from the front until at most `max` remain.
fn trim_epic_history(v: &mut Vec<ActiveEpicState>, max: usize)
    ensures
        final(v)@ == keep_last(old(v)@, max as int),
{
    while v.len() > max
        invariant
            keep_last(v@, max as int) == keep_last(old(v)@, max as int),
        decreases v@.len(),
    {
        let ghost before = v@;
        let _dropped = v.remove(0);
        proof {
            assert(v@ =~= before.subrange(1, before.len() as int));
            assert(keep_last(v@, max as int) =~= keep_last(before, max as int));
        }
    }
}

/// The sub-issue belongs to the phase.
pub open spec fn in_phase(p: u32) -> spec_fn(crate::epic::ExistingSubIssue) -> bool {
    |s: crate::epic::ExistingSubIssue| s.phase == Some(p)
}

/// The sub-issue belongs to the phase and is closed.
pub open spec fn in_phase_closed(p: u32) -> spec_fn(crate::epic::ExistingSubIssue) -> bool {
    |s: crate::epic::ExistingSubIssue| s.phase == Some(p) && s.state@ == "closed"@
}

/// The sub-issue belongs to the phase and shows activity: an agent works on
/// it or it is still open.
pub open spec fn in_phase_active(p: u32) -> spec_fn(crate::epic::ExistingSubIssue) -> bool {
    |s: crate::epic::ExistingSubIssue|
        s.phase == Some(p) && (s.has_agent_working || s.state@ == "open"@)
}

/// The tracked status a phase derives during recovery: where it has
/// sub-issues, strictly from their counts — complete when all are closed,
/// in progress while any shows activity; only a phase without sub-issues
/// falls back to the epic body's embedded status text.
pub open spec fn tracked_status_of(
    total: nat,
    completed: nat,
    any_active: bool,
    body_status: Option<Seq<char>>,
) -> TrackedPhaseStatus {
    if total > 0 {
        if completed == total {
            TrackedPhaseStatus::Completed
        } else if any_active {
            TrackedPhaseStatus::InProgress
        } else {
            TrackedPhaseStatus::NotStarted
        }
    } else {
        match body_status {
            Some(t) => if t == "completed"@ {
                TrackedPhaseStatus::Completed
            } else if t == "in_progress"@ {
                TrackedPhaseStatus::InProgress
            } else if t == "skipped"@ {
                TrackedPhaseStatus::Skipped
            } else {
                TrackedPhaseStatus::NotStarted
            },
            None => TrackedPhaseStatus::NotStarted,
        }
    }
}

/// Link an epic from recovery information: every phase's tracked status
/// follows its sub-issue evidence wherever any exists — even where the
/// epic body's embedded status disagrees — and the embedded text decides
/// only for phases without sub-issues.
pub fn set_active_epic_from_recovery(
    state: &mut EpicStoreState,
    recovery: &crate::epic::EpicRecoveryInfo,
) -> (r: ActiveEpicState)
    requires
        recovery.epic.phases@.len() < u32::MAX,
    ensures
        final(state).history == old(state).history,
        final(state).max_history == old(state).max_history,
        final(state).active_epic is Some,
        r.epic_number == recovery.epic.epic_number,
        r.tracking_repo == recovery.epic.repo,
        r.work_repo == recovery.epic.work_repo,
        r.title == recovery.epic.title,
        r.url == recovery.epic.url,
        r.phases@.len() == recovery.epic.phases@.len(),
        forall|k: int|
            0 <= k < r.phases@.len() ==> {
                let p = ((k + 1) as u32);
                let total = count_where(recovery.sub_issues@, in_phase(p));
                let completed = count_where(recovery.sub_issues@, in_phase_closed(p));
                let active = count_where(recovery.sub_issues@, in_phase_active(p)) > 0;
                &&& (#[trigger] r.phases@[k]).phase_number == p
                &&& r.phases@[k].name == recovery.epic.phases@[k].name
                &&& r.phases@[k].total_count == total
                &&& r.phases@[k].completed_count == completed
                &&& r.phases@[k].status == tracked_status_of(
                    total,
                    completed,
                    active,
                    crate::orchestration::status_lookup(
                        crate::orchestration::body_statuses_spec(recovery.epic_body@),
                        p,
                    ),
                )
            },
        r.sub_issues@.len() == recovery.sub_issues@.len(),
        forall|k: int|
            0 <= k < r.sub_issues@.len() ==> {
                let s = recovery.sub_issues@[k];
                &&& (#[trigger] r.sub_issues@[k]).issue_number == s.issue_number
                &&& r.sub_issues@[k].title == s.title
                &&& r.sub_issues@[k].phase == s.phase
                &&& r.sub_issues@[k].state == s.state
                &&& r.sub_issues@[k].has_agent_working == s.has_agent_working
                &&& r.sub_issues@[k].url == s.url
                &&& r.sub_issues@[k].agent_type is None
                &&& r.sub_issues@[k].session_name is None
                &&& r.sub_issues@[k].pr_url is None
                &&& r.sub_issues@[k].pr_number is None
            },
        r.linked_at@.len() > 0,
        r.last_synced_at matches Some(t) && t@.len() > 0,
{
    let built = recovered_active(recovery);
    let stored = recovered_active(recovery);
    state.active_epic = Some(stored);
    built
}

/// Build the tracked state recovery derives.
fn recovered_active(recovery: &crate::epic::EpicRecoveryInfo) -> (r: ActiveEpicState)
    requires
        recovery.epic.phases@.len() < u32::MAX,
    ensures
        r.epic_number == recovery.epic.epic_number,
        r.tracking_repo == recovery.epic.repo,
        r.work_repo == recovery.epic.work_repo,
        r.title == recovery.epic.title,
        r.url == recovery.epic.url,
        r.phases@.len() == recovery.epic.phases@.len(),
        forall|k: int|
            0 <= k < r.phases@.len() ==> {
                let p = ((k + 1) as u32);
                let total = count_where(recovery.sub_issues@, in_phase(p));
                let completed = count_where(recovery.sub_issues@, in_phase_closed(p));
                let active = count_where(recovery.sub_issues@, in_phase_active(p)) > 0;
                &&& (#[trigger] r.phases@[k]).phase_number == p
                &&& r.phases@[k].name == recovery.epic.phases@[k].name
                &&& r.phases@[k].total_count == total
                &&& r.phases@[k].completed_count == completed
                &&& r.phases@[k].status == tracked_status_of(
                    total,
                    completed,
                    active,
                    crate::orchestration::status_lookup(
                        crate::orchestration::body_statuses_spec(recovery.epic_body@),
                        p,
                    ),
                )
            },
        r.sub_issues@.len() == recovery.sub_issues@.len(),
        forall|k: int|
            0 <= k < r.sub_issues@.len() ==> {
                let s = recovery.sub_issues@[k];
                &&& (#[trigger] r.sub_issues@[k]).issue_number == s.issue_number
                &&& r.sub_issues@[k].title == s.title
                &&& r.sub_issues@[k].phase == s.phase
                &&& r.sub_issues@[k].state == s.state
                &&& r.sub_issues@[k].has_agent_working == s.has_agent_working
                &&& r.sub_issues@[k].url == s.url
                &&& r.sub_issues@[k].agent_type is None
                &&& r.sub_issues@[k].session_name is None
                &&& r.sub_issues@[k].pr_url is None
                &&& r.sub_issues@[k].pr_number is None
            },
        r.linked_at@.len() > 0,
        r.last_synced_at matches Some(t) && t@.len() > 0,
{
    let body_pairs = crate::orchestration::extract_phase_statuses_from_body(
        recovery.epic_body.as_str(),
    );
    let mut phases: Vec<TrackedPhase> = Vec::new();
    let mut k: usize = 0;
    while k < recovery.epic.phases.len()
        invariant
            recovery.epic.phases@.len() < u32::MAX,
            k <= recovery.epic.phases@.len(),
            crate::orchestration::status_pairs_model(body_pairs@)
                == crate::orchestration::body_statuses_spec(recovery.epic_body@),
            phases@.len() == k,
            forall|j: int|
                0 <= j < k ==> {
                    let p = ((j + 1) as u32);
                    let total = count_where(recovery.sub_issues@, in_phase(p));
                    let completed = count_where(recovery.sub_issues@, in_phase_closed(p));
                    let active = count_where(recovery.sub_issues@, in_phase_active(p)) > 0;
                    &&& (#[trigger] phases@[j]).phase_number == p
                    &&& phases@[j].name == recovery.epic.phases@[j].name
                    &&& phases@[j].total_count == total
                    &&& phases@[j].completed_count == completed
                    &&& phases@[j].status == tracked_status_of(
                        total,
                        completed,
                        active,
                        crate::orchestration::status_lookup(
                            crate::orchestration::body_statuses_spec(recovery.epic_body@),
                            p,
                        ),
                    )
                },
        decreases recovery.epic.phases@.len() - k,
    {
        let p: u32 = (k as u32) + 1;
        let (total, completed, active_count, members) = count_phase_subs(
            &recovery.sub_issues,
            p,
        );
        let body_status = crate::orchestration::lookup_body_status(&body_pairs, p);
        let status: TrackedPhaseStatus = if total > 0 {
            if completed == total {
                TrackedPhaseStatus::Completed
            } else if active_count > 0 {
                TrackedPhaseStatus::InProgress
            } else {
                TrackedPhaseStatus::NotStarted
            }
        } else {
            match body_status {
                Some(t) => {
                    if crate::text::str_eq(t.as_str(), "completed") {
                        TrackedPhaseStatus::Completed
                    } else if crate::text::str_eq(t.as_str(), "in_progress") {
                        TrackedPhaseStatus::InProgress
                    } else if crate::text::str_eq(t.as_str(), "skipped") {
                        TrackedPhaseStatus::Skipped
                    } else {
                        TrackedPhaseStatus::NotStarted
                    }
                },
                None => TrackedPhaseStatus::NotStarted,
            }
        };
        phases.push(
            TrackedPhase {
                phase_number: p,
                name: recovery.epic.phases[k].name.clone(),
                status,
                sub_issues: members,
                completed_count: completed,
                total_count: total,
            },
        );
        k = k + 1;
    }
    let mut sub_issues: Vec<TrackedSubIssue> = Vec::new();
    let mut j: usize = 0;
    while j < recovery.sub_issues.len()
        invariant
            j <= recovery.sub_issues@.len(),
            sub_issues@.len() == j,
            forall|i: int|
                0 <= i < j ==> {
                    let s = recovery.sub_issues@[i];
                    &&& (#[trigger] sub_issues@[i]).issue_number == s.issue_number
                    &&& sub_issues@[i].title == s.title
                    &&& sub_issues@[i].phase == s.phase
                    &&& sub_issues@[i].state == s.state
                    &&& sub_issues@[i].has_agent_working == s.has_agent_working
                    &&& sub_issues@[i].url == s.url
                    &&& sub_issues@[i].agent_type is None
                    &&& sub_issues@[i].session_name is None
                    &&& sub_issues@[i].pr_url is None
                    &&& sub_issues@[i].pr_number is None
                },
        decreases recovery.sub_issues@.len() - j,
    {
        let s = &recovery.sub_issues[j];
        sub_issues.push(
            TrackedSubIssue {
                issue_number: s.issue_number,
                title: s.title.clone(),
                phase: s.phase,
                state: s.state.clone(),
                agent_type: None,
                session_name: None,
                agent_session: None,
                has_agent_working: s.has_agent_working,
                url: s.url.clone(),
                pr_url: None,
                pr_number: None,
            },
        );
        j = j + 1;
    }
    ActiveEpicState {
        epic_number: recovery.epic.epic_number,
        tracking_repo: recovery.epic.repo.clone(),
        work_repo: recovery.epic.work_repo.clone(),
        title: recovery.epic.title.clone(),
        url: recovery.epic.url.clone(),
        phases,
        sub_issues,
        linked_at: crate::clock::now_rfc3339(),
        last_synced_at: Some(crate::clock::now_rfc3339()),
    }
}

/// Count one phase's sub-issues: all, closed, active, and their numbers.
fn count_phase_subs(subs: &Vec<crate::epic::ExistingSubIssue>, p: u32) -> (r: (
    usize,
    usize,
    usize,
    Vec<u32>,
))
    ensures
        r.0 == count_where(subs@, in_phase(p)),
        r.1 == count_where(subs@, in_phase_closed(p)),
        r.2 == count_where(subs@, in_phase_active(p)),
        r.1 <= r.0,
{
    let mut total: usize = 0;
    let mut completed: usize = 0;
    let mut active: usize = 0;
    let mut members: Vec<u32> = Vec::new();
    let mut i: usize = 0;
    proof {
        assert(subs@.subrange(0, 0) =~= Seq::<crate::epic::ExistingSubIssue>::empty());
    }
    while i < subs.len()
        invariant
            i <= subs@.len(),
            total == count_where(subs@.subrange(0, i as int), in_phase(p)),
            completed == count_where(subs@.subrange(0, i as int), in_phase_closed(p)),
            active == count_where(subs@.subrange(0, i as int), in_phase_active(p)),
            completed <= total <= i,
            active <= i,
        decreases subs@.len() - i,
    {
        proof {
            assert(subs@.subrange(0, i + 1).drop_last() =~= subs@.subrange(0, i as int));
            assert(subs@.subrange(0, i + 1).last() == subs@[i as int]);
        }
        let s = &subs[i];
        let is_member = match s.phase {
            Some(q) => q == p,
            None => false,
        };
        proof {
            assert(is_member == in_phase(p)(subs@[i as int]));
            assert((is_member && subs@[i as int].state@ == "closed"@) == in_phase_closed(p)(
                subs@[i as int],
            ));
            assert((is_member && (subs@[i as int].has_agent_working || subs@[i as int].state@
                == "open"@)) == in_phase_active(p)(subs@[i as int]));
        }
        if is_member {
            total = total + 1;
            members.push(s.issue_number);
            if crate::text::str_eq(s.state.as_str(), "closed") {
                completed = completed + 1;
            }
            if s.has_agent_working || crate::text::str_eq(s.state.as_str(), "open") {
                active = active + 1;
            }
        }
        i = i + 1;
    }
    proof {
        assert(subs@.subrange(0, subs@.len() as int) =~= subs@);
    }
    (total, completed, active, members)
}

/// The sub-issue has the given number.
pub open spec fn sub_with_number(n: u32) -> spec_fn(TrackedSubIssue) -> bool {
    |s: TrackedSubIssue| s.issue_number == n
}

/// How an updated sub-issue relates to what it was: the assignment fields
/// carry the given values — working exactly while a session is named —
/// and every other field is unchanged.
pub open spec fn sub_assignment_updated(
    pre: TrackedSubIssue,
    post: TrackedSubIssue,
    session_name: Option<&str>,
    agent_type: Option<&str>,
) -> bool {
    &&& post.issue_number == pre.issue_number
    &&& post.title == pre.title
    &&& post.phase == pre.phase
    &&& post.state == pre.state
    &&& post.has_agent_working == (session_name is Some)
    &&& post.url == pre.url
    &&& post.pr_url == pre.pr_url
    &&& post.pr_number == pre.pr_number
    &&& (match session_name {
        Some(s) => (post.session_name matches Some(v) && v@ == s@) && (
        post.agent_session matches Some(v2) && v2@ == s@),
        None => post.session_name is None && post.agent_session is None,
    })
    &&& (match agent_type {
        Some(a) => post.agent_type matches Some(v) && v@ == a@,
        None => post.agent_type is None,
    })
}

/// Record a sub-issue's agent assignment in the active epic: exactly the
/// first sub-issue with the given number gets the session and agent type,
/// and counts as worked exactly while a session is named; everything else
/// is left as it was. An error — and an unchanged store — exactly where
/// no active epic holds such a sub-issue.
pub fn update_epic_sub_issue_agent(
    state: &mut EpicStoreState,
    issue_number: u32,
    session_name: Option<&str>,
    agent_type: Option<&str>,
) -> (r: Result<(), String>)
    ensures
        final(state).history == old(state).history,
        final(state).max_history == old(state).max_history,
        (r matches Err(e) ==> *final(state) == *old(state) && e@ == "Sub-issue "@ + dec_spec(
            issue_number as nat,
        ) + " not found in active epic"@),
        (match old(state).active_epic {
            None => r is Err,
            Some(a) => ({
                let j = first_where(a.sub_issues@, sub_with_number(issue_number));
                if j < 0 {
                    r is Err
                } else {
                    &&& r is Ok
                    &&& (final(state).active_epic matches Some(b) && {
                        &&& b.epic_number == a.epic_number
                        &&& b.tracking_repo == a.tracking_repo
                        &&& b.work_repo == a.work_repo
                        &&& b.title == a.title
                        &&& b.url == a.url
                        &&& b.phases@ == a.phases@
                        &&& b.linked_at == a.linked_at
                        &&& b.last_synced_at == a.last_synced_at
                        &&& b.sub_issues@.len() == a.sub_issues@.len()
                        &&& (forall|k: int|
                            0 <= k < b.sub_issues@.len() && k != j
                                ==> #[trigger] b.sub_issues@[k] == a.sub_issues@[k])
                        &&& sub_assignment_updated(
                            a.sub_issues@[j],
                            b.sub_issues@[j],
                            session_name,
                            agent_type,
                        )
                    })
                }
            }),
        }),
{
    let found: Option<usize> = match &state.active_epic {
        None => None,
        Some(active) => {
            let mut i: usize = 0;
            let mut hit: Option<usize> = None;
            let n = active.sub_issues.len();
            while i < n && hit.is_none()
                invariant
                    n == active.sub_issues@.len(),
                    i <= n,
                    hit is None ==> forall|k: int|
                        0 <= k < i ==> !#[trigger] sub_with_number(issue_number)(
                            active.sub_issues@[k],
                        ),
                    hit matches Some(j) ==> first_where(
                        active.sub_issues@,
                        sub_with_number(issue_number),
                    ) == j && j < n,
                decreases n - i,
            {
                if active.sub_issues[i].issue_number == issue_number {
                    proof {
                        assert(sub_with_number(issue_number)(active.sub_issues@[i as int]));
                        crate::seqs::lemma_first_where_is(
                            active.sub_issues@,
                            sub_with_number(issue_number),
                            i as int,
                        );
                    }
                    hit = Some(i);
                }
                i = i + 1;
            }
            proof {
                if hit is None {
                    crate::seqs::lemma_first_where_none(
                        active.sub_issues@,
                        sub_with_number(issue_number),
                    );
                }
            }
            hit
        },
    };
    match found {
        None => Err(missing_sub_issue_message(issue_number)),
        Some(idx) => {
            match &mut state.active_epic {
                None => Err(missing_sub_issue_message(issue_number)),
                Some(active) => {
                    if idx < active.sub_issues.len() {
                        let has_session = match session_name {
                            Some(_) => true,
                            None => false,
                        };
                        let sn: Option<String> = match session_name {
                            Some(s) => Some(string_of(s)),
                            None => None,
                        };
                        let sn2: Option<String> = match session_name {
                            Some(s) => Some(string_of(s)),
                            None => None,
                        };
                        let at: Option<String> = match agent_type {
                            Some(s) => Some(string_of(s)),
                            None => None,
                        };
                        let sub = &mut active.sub_issues[idx];
                        sub.session_name = sn;
                        sub.agent_session = sn2;
                        sub.agent_type = at;
                        sub.has_agent_working = has_session;
                        Ok(())
                    } else {
                        Err(missing_sub_issue_message(issue_number))
                    }
                },
            }
        },
    }
}

/// The error naming the sub-issue that no active epic holds.
fn missing_sub_issue_message(issue_number: u32) -> (r: String)
    ensures
        r@ == "Sub-issue "@ + dec_spec(issue_number as nat) + " not found in active epic"@,
{
    let mut e = crate::text::str_chars("Sub-issue ");
    crate::text::push_dec_u64(issue_number as u64, &mut e);
    crate::text::append_str(&mut e, " not found in active epic");
    crate::text::chars_to_string(&e)
}

} // verus!
