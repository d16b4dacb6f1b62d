//! Pipeline state tracking for agent workflows.
//!
//! A [`PipelineItem`] is the tracked lifecycle record of one issue's journey
//! from assignment to completion: a finite-state machine over
//! [`PipelineStatus`] with a nested pull-request sub-machine over
//! [`PrPipelineStatus`]. A [`PipelineState`] holds the in-flight items and
//! an append-only, capped history.

use crate::clock::{now_rfc3339, now_unix_seconds};
use crate::github::{GitHubIssue, GitHubPullRequest, PrStatus};
use crate::orchestrator::AgentStatus;
use crate::seqs::{
    filtered, first_where, keep_last, lemma_first_where_is, lemma_first_where_none,
};
use crate::text::{
    chars_to_string, clone_opt_string, dec_spec, push_dec_u64, replace_char_spec, replace_chars,
    str_chars, str_eq, string_of,
};
use vstd::prelude::*;

verus! {

/// Status of a pull request in the pipeline.
#[derive(Debug, Clone, Copy, PartialEq, Eq, Structural)]
pub enum PrPipelineStatus {
    /// No pull request has been created yet.
    NoPr,
    /// The pull request is a draft.
    Draft,
    /// The pull request is ready for review.
    Ready,
    /// Review was requested and is still outstanding.
    NeedsReview,
    /// The pull request has been approved.
    Approved,
    /// The pull request has been merged.
    Merged,
    /// The pull request was closed without merging.
    Closed,
}

impl Default for PrPipelineStatus {
    /// No pull request, to begin with.
    fn default() -> (r: Self)
        ensures
            r == PrPipelineStatus::NoPr,
    {
        PrPipelineStatus::NoPr
    }
}

/// Status of a pipeline item.
#[derive(Debug, Clone, Copy, PartialEq, Eq, Structural)]
pub enum PipelineStatus {
    /// Queued but not assigned.
    Queued,
    /// Assigned to an agent; work is in progress.
    InProgress,
    /// Work done, pull request not yet created.
    PrPending,
    /// Pull request created and under review.
    PrReview,
    /// Pull request merged; work complete.
    Completed,
    /// Skipped.
    Skipped,
    /// Failed or abandoned.
    Failed,
}

impl Default for PipelineStatus {
    /// Queued, to begin with.
    fn default() -> (r: Self)
        ensures
            r == PipelineStatus::Queued,
    {
        PipelineStatus::Queued
    }
}

/// The status is terminal: no transition leaves it.
pub open spec fn is_terminal(s: PipelineStatus) -> bool {
    s == PipelineStatus::Completed || s == PipelineStatus::Skipped || s == PipelineStatus::Failed
}

/// The status counts as active work.
pub open spec fn is_active_status(s: PipelineStatus) -> bool {
    s == PipelineStatus::InProgress || s == PipelineStatus::PrPending || s
        == PipelineStatus::PrReview
}

/// A pipeline item: issue, session, worktree and pull request of one unit
/// of tracked work.
#[derive(Debug, Clone)]
pub struct PipelineItem {
    /// Identifier, derived from repository, issue and creation time.
    pub id: String,
    /// Repository where the issue lives.
    pub tracking_repo: String,
    /// Repository where the work is done.
    pub work_repo: String,
    /// Issue number being worked on.
    pub issue_number: u64,
    /// Issue title.
    pub issue_title: String,
    /// Issue URL.
    pub issue_url: String,
    /// Agent type, such as "coder" or "aider".
    pub agent_type: String,
    /// Session name, once work started.
    pub session_name: Option<String>,
    /// Worktree path, once created.
    pub worktree_path: Option<String>,
    /// Branch name of the work.
    pub branch_name: Option<String>,
    /// Machine the agent runs on.
    pub machine_id: Option<String>,
    /// Pull request number, once created.
    pub pr_number: Option<u64>,
    /// Pull request URL, once created.
    pub pr_url: Option<String>,
    /// Pull request status.
    pub pr_status: PrPipelineStatus,
    /// Overall pipeline status.
    pub status: PipelineStatus,
    /// When the item was queued.
    pub created_at: String,
    /// When work started.
    pub started_at: Option<String>,
    /// When the item reached a terminal status.
    pub completed_at: Option<String>,
    /// Error message, where it failed.
    pub error: Option<String>,
}

/// The fields that identify an item and never change after creation.
pub open spec fn same_identity(a: PipelineItem, b: PipelineItem) -> bool {
    &&& a.id == b.id
    &&& a.tracking_repo == b.tracking_repo
    &&& a.work_repo == b.work_repo
    &&& a.issue_number == b.issue_number
    &&& a.issue_title == b.issue_title
    &&& a.issue_url == b.issue_url
    &&& a.agent_type == b.agent_type
    &&& a.created_at == b.created_at
}

/// The session, worktree, branch and machine fields agree.
pub open spec fn same_placement(a: PipelineItem, b: PipelineItem) -> bool {
    &&& a.session_name == b.session_name
    &&& a.worktree_path == b.worktree_path
    &&& a.branch_name == b.branch_name
    &&& a.machine_id == b.machine_id
}

/// The pull-request linkage fields agree.
pub open spec fn same_pr_link(a: PipelineItem, b: PipelineItem) -> bool {
    a.pr_number == b.pr_number && a.pr_url == b.pr_url
}

/// The item identifier: work repository with `/` dashed, issue number and
/// creation time, dash-separated.
pub open spec fn item_id_spec(work_repo: Seq<char>, issue_number: u64, ts: u64) -> Seq<char> {
    replace_char_spec(work_repo, '/', '-') + "-"@ + dec_spec(issue_number as nat) + "-"@
        + dec_spec(ts as nat)
}

/// The pull-request status `link_pr` derives from a pull request.
pub open spec fn link_pr_status(pr: GitHubPullRequest) -> PrPipelineStatus {
    if pr.state@ == "merged"@ {
        PrPipelineStatus::Merged
    } else if pr.state@ == "closed"@ {
        PrPipelineStatus::Closed
    } else if pr.is_draft {
        PrPipelineStatus::Draft
    } else {
        PrPipelineStatus::Ready
    }
}

/// The pull-request status derived from remote state and review tallies.
pub open spec fn pr_status_from(
    pr: GitHubPullRequest,
    has_reviewers: bool,
    is_approved: bool,
) -> PrPipelineStatus {
    if pr.state@ == "merged"@ || pr.state@ == "MERGED"@ {
        PrPipelineStatus::Merged
    } else if pr.state@ == "closed"@ || pr.state@ == "CLOSED"@ {
        PrPipelineStatus::Closed
    } else if is_approved {
        PrPipelineStatus::Approved
    } else if has_reviewers {
        PrPipelineStatus::NeedsReview
    } else if pr.is_draft {
        PrPipelineStatus::Draft
    } else {
        PrPipelineStatus::Ready
    }
}

/// How `update_pr_status` relates the item before and after the call.
pub open spec fn pr_update_relation(
    pre: PipelineItem,
    post: PipelineItem,
    pr: GitHubPullRequest,
    has_reviewers: bool,
    is_approved: bool,
) -> bool {
    let st = pr_status_from(pr, has_reviewers, is_approved);
    &&& same_identity(post, pre)
    &&& same_placement(post, pre)
    &&& same_pr_link(post, pre)
    &&& post.started_at == pre.started_at
    &&& post.error == pre.error
    &&& post.pr_status == st
    &&& (st == PrPipelineStatus::Merged ==> post.status == PipelineStatus::Completed && (
    post.completed_at matches Some(t) && t@.len() > 0))
    &&& (st == PrPipelineStatus::Closed ==> post.status == PipelineStatus::Failed && (
    post.completed_at matches Some(t) && t@.len() > 0))
    &&& (st != PrPipelineStatus::Merged && st != PrPipelineStatus::Closed ==> post.status
        == PipelineStatus::PrReview && post.completed_at == pre.completed_at)
}

impl PipelineItem {
    /// Create a queued item from an issue.
    pub fn from_issue(
        issue: &GitHubIssue,
        tracking_repo: &str,
        work_repo: &str,
        agent_type: &str,
    ) -> (r: Self)
        ensures
            (exists|ts: u64| r.id@ == #[trigger] item_id_spec(work_repo@, issue.number, ts)),
            r.tracking_repo@ == tracking_repo@,
            r.work_repo@ == work_repo@,
            r.issue_number == issue.number,
            r.issue_title == issue.title,
            r.issue_url == issue.url,
            r.agent_type@ == agent_type@,
            r.session_name is None,
            r.worktree_path is None,
            r.branch_name is None,
            r.machine_id is None,
            r.pr_number is None,
            r.pr_url is None,
            r.pr_status == PrPipelineStatus::NoPr,
            r.status == PipelineStatus::Queued,
            r.created_at@.len() > 0,
            r.started_at is None,
            r.completed_at is None,
            r.error is None,
    {
        let now = now_unix_seconds();
        let ts: u64 = if now < 0 {
            0
        } else {
            now as u64
        };
        let wr = str_chars(work_repo);
        let mut idv = replace_chars(&wr, '/', '-');
        crate::text::append_str(&mut idv, "-");
        push_dec_u64(issue.number, &mut idv);
        crate::text::append_str(&mut idv, "-");
        push_dec_u64(ts, &mut idv);
        let id = chars_to_string(&idv);
        assert(id@ == item_id_spec(work_repo@, issue.number, ts));
        PipelineItem {
            id,
            tracking_repo: string_of(tracking_repo),
            work_repo: string_of(work_repo),
            issue_number: issue.number,
            issue_title: issue.title.clone(),
            issue_url: issue.url.clone(),
            agent_type: string_of(agent_type),
            session_name: None,
            worktree_path: None,
            branch_name: None,
            machine_id: None,
            pr_number: None,
            pr_url: None,
            pr_status: PrPipelineStatus::NoPr,
            status: PipelineStatus::Queued,
            created_at: now_rfc3339(),
            started_at: None,
            completed_at: None,
            error: None,
        }
    }

    /// Record that work started: session, worktree, branch and machine are
    /// known, and the item is in progress.
    pub fn start_work(
        &mut self,
        session_name: &str,
        worktree_path: &str,
        branch_name: &str,
        machine_id: &str,
    )
        ensures
            same_identity(*final(self), *old(self)),
            same_pr_link(*final(self), *old(self)),
            final(self).session_name matches Some(s) && s@ == session_name@,
            final(self).worktree_path matches Some(w) && w@ == worktree_path@,
            final(self).branch_name matches Some(b) && b@ == branch_name@,
            final(self).machine_id matches Some(m) && m@ == machine_id@,
            final(self).status == PipelineStatus::InProgress,
            final(self).started_at matches Some(t) && t@.len() > 0,
            final(self).pr_status == old(self).pr_status,
            final(self).completed_at == old(self).completed_at,
            final(self).error == old(self).error,
    {
        self.session_name = Some(string_of(session_name));
        self.worktree_path = Some(string_of(worktree_path));
        self.branch_name = Some(string_of(branch_name));
        self.machine_id = Some(string_of(machine_id));
        self.status = PipelineStatus::InProgress;
        self.started_at = Some(now_rfc3339());
    }

    /// Link a pull request: the item moves to review, or straight to
    /// completed where the pull request is already merged.
    pub fn link_pr(&mut self, pr: &GitHubPullRequest)
        ensures
            same_identity(*final(self), *old(self)),
            same_placement(*final(self), *old(self)),
            final(self).pr_number == Some(pr.number),
            final(self).pr_url matches Some(u) && u@ == pr.url@,
            final(self).pr_status == link_pr_status(*pr),
            final(self).status == if link_pr_status(*pr) == PrPipelineStatus::Merged {
                PipelineStatus::Completed
            } else {
                PipelineStatus::PrReview
            },
            final(self).started_at == old(self).started_at,
            final(self).completed_at == old(self).completed_at,
            final(self).error == old(self).error,
    {
        self.pr_number = Some(pr.number);
        self.pr_url = Some(pr.url.clone());
        self.pr_status = if str_eq(pr.state.as_str(), "merged") {
            PrPipelineStatus::Merged
        } else if str_eq(pr.state.as_str(), "closed") {
            PrPipelineStatus::Closed
        } else if pr.is_draft {
            PrPipelineStatus::Draft
        } else {
            PrPipelineStatus::Ready
        };
        self.status = if matches!(self.pr_status, PrPipelineStatus::Merged) {
            PipelineStatus::Completed
        } else {
            PipelineStatus::PrReview
        };
    }

    /// Re-derive the pull-request status from remote state and review
    /// tallies: merged completes the item, closed-without-merge fails it,
    /// anything else keeps it under review.
    pub fn update_pr_status(
        &mut self,
        pr: &GitHubPullRequest,
        has_reviewers: bool,
        is_approved: bool,
    )
        ensures
            pr_update_relation(*old(self), *final(self), *pr, has_reviewers, is_approved),
    {
        self.pr_status = if str_eq(pr.state.as_str(), "merged") || str_eq(
            pr.state.as_str(),
            "MERGED",
        ) {
            PrPipelineStatus::Merged
        } else if str_eq(pr.state.as_str(), "closed") || str_eq(pr.state.as_str(), "CLOSED") {
            PrPipelineStatus::Closed
        } else if is_approved {
            PrPipelineStatus::Approved
        } else if has_reviewers {
            PrPipelineStatus::NeedsReview
        } else if pr.is_draft {
            PrPipelineStatus::Draft
        } else {
            PrPipelineStatus::Ready
        };
        self.status = match self.pr_status {
            PrPipelineStatus::Merged => {
                self.completed_at = Some(now_rfc3339());
                PipelineStatus::Completed
            },
            PrPipelineStatus::Closed => {
                self.completed_at = Some(now_rfc3339());
                PipelineStatus::Failed
            },
            _ => PipelineStatus::PrReview,
        };
    }

    /// Skip the item. Skipping is possible from every non-terminal status
    /// and never moves an item that already reached a terminal one.
    pub fn skip(&mut self)
        ensures
            is_terminal(old(self).status) ==> *final(self) == *old(self),
            !is_terminal(old(self).status) ==> {
                &&& final(self).status == PipelineStatus::Skipped
                &&& (final(self).completed_at matches Some(t) && t@.len() > 0)
                &&& same_identity(*final(self), *old(self))
                &&& same_placement(*final(self), *old(self))
                &&& same_pr_link(*final(self), *old(self))
                &&& final(self).pr_status == old(self).pr_status
                &&& final(self).started_at == old(self).started_at
                &&& final(self).error == old(self).error
            },
    {
        if !self.is_complete() {
            self.status = PipelineStatus::Skipped;
            self.completed_at = Some(now_rfc3339());
        }
    }

    /// Fail the item with an error message. Failing is possible from every
    /// non-terminal status and never moves an item that already reached a
    /// terminal one.
    pub fn fail(&mut self, error: &str)
        ensures
            is_terminal(old(self).status) ==> *final(self) == *old(self),
            !is_terminal(old(self).status) ==> {
                &&& final(self).status == PipelineStatus::Failed
                &&& (final(self).completed_at matches Some(t) && t@.len() > 0)
                &&& (final(self).error matches Some(e) && e@ == error@)
                &&& same_identity(*final(self), *old(self))
                &&& same_placement(*final(self), *old(self))
                &&& same_pr_link(*final(self), *old(self))
                &&& final(self).pr_status == old(self).pr_status
                &&& final(self).started_at == old(self).started_at
            },
    {
        if !self.is_complete() {
            self.status = PipelineStatus::Failed;
            self.error = Some(string_of(error));
            self.completed_at = Some(now_rfc3339());
        }
    }

    /// The item is active: in progress or waiting on its pull request.
    pub fn is_active(&self) -> (r: bool)
        ensures
            r == is_active_status(self.status),
    {
        matches!(
            self.status,
            PipelineStatus::InProgress | PipelineStatus::PrPending | PipelineStatus::PrReview
        )
    }

    /// The item reached a terminal status.
    pub fn is_complete(&self) -> (r: bool)
        ensures
            r == is_terminal(self.status),
    {
        matches!(
            self.status,
            PipelineStatus::Completed | PipelineStatus::Skipped | PipelineStatus::Failed
        )
    }

    /// An exact copy.
    pub fn duplicate(&self) -> (r: PipelineItem)
        ensures
            r == *self,
    {
        PipelineItem {
            id: self.id.clone(),
            tracking_repo: self.tracking_repo.clone(),
            work_repo: self.work_repo.clone(),
            issue_number: self.issue_number,
            issue_title: self.issue_title.clone(),
            issue_url: self.issue_url.clone(),
            agent_type: self.agent_type.clone(),
            session_name: clone_opt_string(&self.session_name),
            worktree_path: clone_opt_string(&self.worktree_path),
            branch_name: clone_opt_string(&self.branch_name),
            machine_id: clone_opt_string(&self.machine_id),
            pr_number: self.pr_number,
            pr_url: clone_opt_string(&self.pr_url),
            pr_status: self.pr_status,
            status: self.status,
            created_at: self.created_at.clone(),
            started_at: clone_opt_string(&self.started_at),
            completed_at: clone_opt_string(&self.completed_at),
            error: clone_opt_string(&self.error),
        }
    }
}

// ------------------------------------------------------------------
// The tracked collection of items
// ------------------------------------------------------------------

/// The item has the given identifier.
pub open spec fn has_id(id: Seq<char>) -> spec_fn(PipelineItem) -> bool {
    |it: PipelineItem| it.id@ == id
}

/// The item tracks the given issue in the given repository.
pub open spec fn matches_issue(repo: Seq<char>, n: u64) -> spec_fn(PipelineItem) -> bool {
    |it: PipelineItem|
        it.issue_number == n && (it.tracking_repo@ == repo || it.work_repo@ == repo)
}

/// The item runs in the given session.
pub open spec fn has_session(name: Seq<char>) -> spec_fn(PipelineItem) -> bool {
    |it: PipelineItem| it.session_name matches Some(s) && s@ == name
}

/// The item is linked to the given pull request of the given work repository.
pub open spec fn has_pr(repo: Seq<char>, n: u64) -> spec_fn(PipelineItem) -> bool {
    |it: PipelineItem| it.work_repo@ == repo && it.pr_number == Some(n)
}

/// The item works on the given branch.
pub open spec fn has_branch(name: Seq<char>) -> spec_fn(PipelineItem) -> bool {
    |it: PipelineItem| it.branch_name matches Some(b) && b@ == name
}

/// The item reached a terminal status.
pub open spec fn terminal_item() -> spec_fn(PipelineItem) -> bool {
    |it: PipelineItem| is_terminal(it.status)
}

/// The item did not reach a terminal status.
pub open spec fn non_terminal_item() -> spec_fn(PipelineItem) -> bool {
    |it: PipelineItem| !is_terminal(it.status)
}

/// The item counts as active work.
pub open spec fn active_item() -> spec_fn(PipelineItem) -> bool {
    |it: PipelineItem| is_active_status(it.status)
}

/// The items a sequence of references points at.
pub open spec fn item_refs_values(rs: Seq<&PipelineItem>) -> Seq<PipelineItem> {
    rs.map_values(|p: &PipelineItem| *p)
}

/// Storage for pipeline state: the in-flight items and a capped history of
/// archived ones.
#[derive(Debug, Clone)]
pub struct PipelineState {
    /// In-flight items.
    pub items: Vec<PipelineItem>,
    /// Archived terminal items, oldest first.
    pub history: Vec<PipelineItem>,
    /// Most history entries to keep.
    pub max_history: usize,
}

/// History entries kept by default.
pub fn default_max_history() -> (r: usize)
    ensures
        r == 100,
{
    100
}

impl PipelineState {
    /// No two in-flight items share an identifier.
    pub open spec fn wf(self) -> bool {
        forall|i: int, j: int|
            0 <= i < j < self.items@.len() ==> self.items@[i].id@ != self.items@[j].id@
    }

    /// An empty pipeline.
    pub fn new() -> (r: Self)
        ensures
            r.items@.len() == 0,
            r.history@.len() == 0,
            r.max_history == 100,
            r.wf(),
    {
        PipelineState { items: Vec::new(), history: Vec::new(), max_history: default_max_history() }
    }

    /// Add an item, replacing any existing item with the same identifier.
    pub fn add_item(&mut self, item: PipelineItem)
        requires
            old(self).wf(),
        ensures
            final(self).wf(),
            final(self).history == old(self).history,
            final(self).max_history == old(self).max_history,
            ({
                let j = first_where(old(self).items@, has_id(item.id@));
                if j >= 0 {
                    final(self).items@ == old(self).items@.update(j, item)
                } else {
                    final(self).items@ == old(self).items@.push(item)
                }
            }),
    {
        let ghost pre = self.items@;
        match find_index_by_id(&self.items, item.id.as_str()) {
            Some(j) => {
                proof {
                    crate::seqs::lemma_first_where(pre, has_id(item.id@));
                }
                let ghost jj = first_where(pre, has_id(item.id@));
                vstd::pervasive::VecAdditionalExecFns::set(&mut self.items, j, item);
                proof {
                    assert forall|a: int, b: int|
                        0 <= a < b < self.items@.len() implies self.items@[a].id@
                        != self.items@[b].id@ by {
                        assert(pre[a].id@ != pre[b].id@);
                        if a != jj && b != jj {
                        } else if a == jj {
                            assert(self.items@[a].id@ == pre[jj].id@);
                        } else {
                            assert(self.items@[b].id@ == pre[jj].id@);
                        }
                    }
                }
            },
            None => {
                proof {
                    crate::seqs::lemma_first_where(pre, has_id(item.id@));
                }
                self.items.push(item);
                proof {
                    assert forall|a: int, b: int|
                        0 <= a < b < self.items@.len() implies self.items@[a].id@
                        != self.items@[b].id@ by {
                        if b < pre.len() {
                            assert(pre[a].id@ != pre[b].id@);
                        } else {
                            assert(!has_id(item.id@)(pre[a]));
                        }
                    }
                }
            },
        }
    }

    /// The item with the given identifier, where one exists.
    pub fn get_item(&self, id: &str) -> (r: Option<&PipelineItem>)
        ensures
            ({
                let j = first_where(self.items@, has_id(id@));
                match r {
                    Some(it) => j >= 0 && *it == self.items@[j],
                    None => j == -1,
                }
            }),
    {
        match find_index_by_id(&self.items, id) {
            Some(j) => Some(&self.items[j]),
            None => None,
        }
    }

    /// Mutable access to the item with the given identifier.
    pub fn get_item_mut(&mut self, id: &str) -> (r: Option<&mut PipelineItem>)
        ensures
            final(self).history == old(self).history,
            final(self).max_history == old(self).max_history,
            ({
                let j = first_where(old(self).items@, has_id(id@));
                match r {
                    Some(it) => j >= 0 && *it == old(self).items@[j] && final(self).items@ == old(
                        self,
                    ).items@.update(j, *final(it)),
                    None => j == -1 && *final(self) == *old(self),
                }
            }),
    {
        match find_index_by_id(&self.items, id) {
            Some(j) => Some(&mut self.items[j]),
            None => None,
        }
    }

    /// The first item tracking the given issue, matched against either
    /// repository.
    pub fn find_by_issue(&self, repo: &str, issue_number: u64) -> (r: Option<&PipelineItem>)
        ensures
            ({
                let j = first_where(self.items@, matches_issue(repo@, issue_number));
                match r {
                    Some(it) => j >= 0 && *it == self.items@[j],
                    None => j == -1,
                }
            }),
    {
        let mut i: usize = 0;
        while i < self.items.len()
            invariant
                i <= self.items@.len(),
                forall|k: int| 0 <= k < i ==> !#[trigger] matches_issue(repo@, issue_number)(self.items@[k]),
            decreases self.items@.len() - i,
        {
            let it = &self.items[i];
            if it.issue_number == issue_number && (str_eq(it.tracking_repo.as_str(), repo)
                || str_eq(it.work_repo.as_str(), repo)) {
                proof {
                    assert(matches_issue(repo@, issue_number)(self.items@[i as int]));
                    lemma_first_where_is(self.items@, matches_issue(repo@, issue_number), i as int);
                }
                return Some(&self.items[i]);
            }
            proof {
                assert(!matches_issue(repo@, issue_number)(self.items@[i as int]));
            }
            i = i + 1;
        }
        proof {
            lemma_first_where_none(self.items@, matches_issue(repo@, issue_number));
        }
        None
    }

    /// The first item running in the given session.
    pub fn find_by_session(&self, session_name: &str) -> (r: Option<&PipelineItem>)
        ensures
            ({
                let j = first_where(self.items@, has_session(session_name@));
                match r {
                    Some(it) => j >= 0 && *it == self.items@[j],
                    None => j == -1,
                }
            }),
    {
        let mut i: usize = 0;
        while i < self.items.len()
            invariant
                i <= self.items@.len(),
                forall|k: int| 0 <= k < i ==> !#[trigger] has_session(session_name@)(self.items@[k]),
            decreases self.items@.len() - i,
        {
            let hit = match &self.items[i].session_name {
                Some(s) => str_eq(s.as_str(), session_name),
                None => false,
            };
            if hit {
                proof {
                    assert(has_session(session_name@)(self.items@[i as int]));
                    lemma_first_where_is(self.items@, has_session(session_name@), i as int);
                }
                return Some(&self.items[i]);
            }
            proof {
                assert(!has_session(session_name@)(self.items@[i as int]));
            }
            i = i + 1;
        }
        proof {
            lemma_first_where_none(self.items@, has_session(session_name@));
        }
        None
    }

    /// The first item linked to the given pull request of the given work
    /// repository.
    pub fn find_by_pr(&self, repo: &str, pr_number: u64) -> (r: Option<&PipelineItem>)
        ensures
            ({
                let j = first_where(self.items@, has_pr(repo@, pr_number));
                match r {
                    Some(it) => j >= 0 && *it == self.items@[j],
                    None => j == -1,
                }
            }),
    {
        let mut i: usize = 0;
        while i < self.items.len()
            invariant
                i <= self.items@.len(),
                forall|k: int| 0 <= k < i ==> !#[trigger] has_pr(repo@, pr_number)(self.items@[k]),
            decreases self.items@.len() - i,
        {
            let hit = str_eq(self.items[i].work_repo.as_str(), repo) && match self.items[
                i
            ].pr_number {
                Some(n) => n == pr_number,
                None => false,
            };
            if hit {
                proof {
                    assert(has_pr(repo@, pr_number)(self.items@[i as int]));
                    lemma_first_where_is(self.items@, has_pr(repo@, pr_number), i as int);
                }
                return Some(&self.items[i]);
            }
            proof {
                assert(!has_pr(repo@, pr_number)(self.items@[i as int]));
            }
            i = i + 1;
        }
        proof {
            lemma_first_where_none(self.items@, has_pr(repo@, pr_number));
        }
        None
    }

    /// The first item working on the given branch.
    pub fn find_by_branch(&self, branch_name: &str) -> (r: Option<&PipelineItem>)
        ensures
            ({
                let j = first_where(self.items@, has_branch(branch_name@));
                match r {
                    Some(it) => j >= 0 && *it == self.items@[j],
                    None => j == -1,
                }
            }),
    {
        let mut i: usize = 0;
        while i < self.items.len()
            invariant
                i <= self.items@.len(),
                forall|k: int| 0 <= k < i ==> !#[trigger] has_branch(branch_name@)(self.items@[k]),
            decreases self.items@.len() - i,
        {
            let hit = match &self.items[i].branch_name {
                Some(b) => str_eq(b.as_str(), branch_name),
                None => false,
            };
            if hit {
                proof {
                    assert(has_branch(branch_name@)(self.items@[i as int]));
                    lemma_first_where_is(self.items@, has_branch(branch_name@), i as int);
                }
                return Some(&self.items[i]);
            }
            proof {
                assert(!has_branch(branch_name@)(self.items@[i as int]));
            }
            i = i + 1;
        }
        proof {
            lemma_first_where_none(self.items@, has_branch(branch_name@));
        }
        None
    }

    /// Remove the item with the given identifier and, where it is terminal,
    /// append it to the capped history.
    pub fn archive_item(&mut self, id: &str) -> (r: Option<PipelineItem>)
        requires
            old(self).wf(),
        ensures
            final(self).wf(),
            final(self).max_history == old(self).max_history,
            ({
                let j = first_where(old(self).items@, has_id(id@));
                match r {
                    Some(it) => j >= 0 && it == old(self).items@[j] && final(self).items@ == old(
                        self,
                    ).items@.remove(j) && final(self).history@ == (if is_terminal(it.status) {
                        keep_last(old(self).history@.push(it), old(self).max_history as int)
                    } else {
                        old(self).history@
                    }),
                    None => j == -1 && *final(self) == *old(self),
                }
            }),
    {
        let ghost pre = self.items@;
        match find_index_by_id(&self.items, id) {
            None => None,
            Some(j) => {
                let it = self.items.remove(j);
                if it.is_complete() {
                    let copy = it.duplicate();
                    self.history.push(copy);
                    trim_front(&mut self.history, self.max_history);
                }
                proof {
                    lemma_remove_keeps_distinct_ids(pre, j as int);
                }
                Some(it)
            },
        }
    }

    /// References to the active items, in order.
    pub fn get_active_items(&self) -> (r: Vec<&PipelineItem>)
        ensures
            item_refs_values(r@) == filtered(self.items@, active_item()),
    {
        let mut r: Vec<&PipelineItem> = Vec::new();
        let mut i: usize = 0;
        proof {
            assert(self.items@.subrange(0, 0) =~= Seq::<PipelineItem>::empty());
            assert(item_refs_values(r@) =~= Seq::<PipelineItem>::empty());
        }
        while i < self.items.len()
            invariant
                i <= self.items@.len(),
                item_refs_values(r@) == filtered(self.items@.subrange(0, i as int), active_item()),
            decreases self.items@.len() - i,
        {
            let ghost prev = item_refs_values(r@);
            proof {
                assert(self.items@.subrange(0, i + 1).drop_last() =~= self.items@.subrange(
                    0,
                    i as int,
                ));
                assert(self.items@.subrange(0, i + 1).last() == self.items@[i as int]);
            }
            if self.items[i].is_active() {
                r.push(&self.items[i]);
                proof {
                    assert(item_refs_values(r@) =~= prev.push(self.items@[i as int]));
                }
            }
            i = i + 1;
        }
        proof {
            assert(self.items@.subrange(0, self.items@.len() as int) =~= self.items@);
        }
        r
    }

    /// References to all in-flight items, in order.
    pub fn get_all_items(&self) -> (r: Vec<&PipelineItem>)
        ensures
            item_refs_values(r@) == self.items@,
    {
        let mut r: Vec<&PipelineItem> = Vec::new();
        let mut i: usize = 0;
        proof {
            assert(item_refs_values(r@) =~= self.items@.subrange(0, 0));
        }
        while i < self.items.len()
            invariant
                i <= self.items@.len(),
                item_refs_values(r@) == self.items@.subrange(0, i as int),
            decreases self.items@.len() - i,
        {
            let ghost prev = item_refs_values(r@);
            r.push(&self.items[i]);
            proof {
                assert(item_refs_values(r@) =~= prev.push(self.items@[i as int]));
                assert(self.items@.subrange(0, i + 1) =~= self.items@.subrange(0, i as int).push(
                    self.items@[i as int],
                ));
            }
            i = i + 1;
        }
        proof {
            assert(self.items@.subrange(0, self.items@.len() as int) =~= self.items@);
        }
        r
    }

    /// References to the newest history entries, newest first, at most
    /// `limit` of them (all of them where no limit is given).
    pub fn get_history(&self, limit: Option<usize>) -> (r: Vec<&PipelineItem>)
        ensures
            ({
                let n = (match limit {
                    Some(l) => if l <= self.history@.len() {
                        l as int
                    } else {
                        self.history@.len() as int
                    },
                    None => self.history@.len() as int,
                });
                item_refs_values(r@) == Seq::new(
                    n as nat,
                    |i: int| self.history@[self.history@.len() - 1 - i],
                )
            }),
    {
        let n: usize = match limit {
            Some(l) => if l <= self.history.len() {
                l
            } else {
                self.history.len()
            },
            None => self.history.len(),
        };
        let mut r: Vec<&PipelineItem> = Vec::new();
        let mut i: usize = 0;
        while i < n
            invariant
                i <= n <= self.history@.len(),
                item_refs_values(r@) == Seq::new(
                    i as nat,
                    |k: int| self.history@[self.history@.len() - 1 - k],
                ),
            decreases n - i,
        {
            let ghost prev = item_refs_values(r@);
            r.push(&self.history[self.history.len() - 1 - i]);
            proof {
                assert(item_refs_values(r@) =~= prev.push(
                    self.history@[self.history@.len() - 1 - i],
                ));
                assert(Seq::new((i + 1) as nat, |k: int| self.history@[self.history@.len() - 1 - k])
                    =~= Seq::new(i as nat, |k: int| self.history@[self.history@.len() - 1 - k]).push(
                    self.history@[self.history@.len() - 1 - i],
                ));
            }
            i = i + 1;
        }
        r
    }

    /// Remove the item with the given identifier without archiving it.
    pub fn remove_item(&mut self, id: &str) -> (r: Option<PipelineItem>)
        requires
            old(self).wf(),
        ensures
            final(self).wf(),
            final(self).history == old(self).history,
            final(self).max_history == old(self).max_history,
            ({
                let j = first_where(old(self).items@, has_id(id@));
                match r {
                    Some(it) => j >= 0 && it == old(self).items@[j] && final(self).items@ == old(
                        self,
                    ).items@.remove(j),
                    None => j == -1 && *final(self) == *old(self),
                }
            }),
    {
        let ghost pre = self.items@;
        match find_index_by_id(&self.items, id) {
            None => None,
            Some(j) => {
                let it = self.items.remove(j);
                proof {
                    lemma_remove_keeps_distinct_ids(pre, j as int);
                }
                Some(it)
            },
        }
    }

    /// Archive every terminal item: they leave the in-flight list and enter
    /// the capped history, in order.
    pub fn archive_completed(&mut self)
        requires
            old(self).wf(),
        ensures
            final(self).wf(),
            final(self).max_history == old(self).max_history,
            final(self).items@ == filtered(old(self).items@, non_terminal_item()),
            final(self).history@ == keep_last(
                old(self).history@ + filtered(old(self).items@, terminal_item()),
                old(self).max_history as int,
            ),
    {
        let ghost pre = self.items@;
        let mut kept: Vec<PipelineItem> = Vec::new();
        let mut moved: Vec<PipelineItem> = Vec::new();
        let mut i: usize = 0;
        proof {
            assert(pre.subrange(0, 0) =~= Seq::<PipelineItem>::empty());
        }
        while i < self.items.len()
            invariant
                *self == *old(self),
                pre == self.items@,
                i <= pre.len(),
                kept@ == filtered(pre.subrange(0, i as int), non_terminal_item()),
                moved@ == filtered(pre.subrange(0, i as int), terminal_item()),
            decreases pre.len() - i,
        {
            proof {
                assert(pre.subrange(0, i + 1).drop_last() =~= pre.subrange(0, i as int));
                assert(pre.subrange(0, i + 1).last() == pre[i as int]);
            }
            let it = &self.items[i];
            if it.is_complete() {
                moved.push(it.duplicate());
            } else {
                kept.push(it.duplicate());
            }
            i = i + 1;
        }
        proof {
            assert(pre.subrange(0, pre.len() as int) =~= pre);
            lemma_filtered_distinct_ids(pre, non_terminal_item());
        }
        self.items = kept;
        let ghost hist0 = self.history@;
        let mut k: usize = 0;
        proof {
            assert(hist0 + moved@.subrange(0, 0) =~= hist0);
        }
        while k < moved.len()
            invariant
                k <= moved@.len(),
                self.history@ == hist0 + moved@.subrange(0, k as int),
                self.max_history == old(self).max_history,
                self.items@ == filtered(pre, non_terminal_item()),
            decreases moved@.len() - k,
        {
            self.history.push(moved[k].duplicate());
            proof {
                assert(hist0 + moved@.subrange(0, k + 1) =~= (hist0 + moved@.subrange(
                    0,
                    k as int,
                )).push(moved@[k as int]));
            }
            k = k + 1;
        }
        proof {
            assert(moved@.subrange(0, moved@.len() as int) =~= moved@);
        }
        trim_front(&mut self.history, self.max_history);
    }
}

impl Default for PipelineState {
    /// An empty pipeline.
    fn default() -> (r: Self)
        ensures
            r.items@.len() == 0,
            r.history@.len() == 0,
            r.max_history == 100,
            r.wf(),
    {
        PipelineState::new()
    }
}

/// Index of the first item with the given identifier.
fn find_index_by_id(items: &Vec<PipelineItem>, id: &str) -> (r: Option<usize>)
    ensures
        ({
            let j = first_where(items@, has_id(id@));
            match r {
                Some(i) => i == j && 0 <= j < items@.len(),
                None => j == -1,
            }
        }),
{
    let mut i: usize = 0;
    while i < items.len()
        invariant
            i <= items@.len(),
            forall|k: int| 0 <= k < i ==> !#[trigger] has_id(id@)(items@[k]),
        decreases items@.len() - i,
    {
        if str_eq(items[i].id.as_str(), id) {
            proof {
                assert(has_id(id@)(items@[i as int]));
                lemma_first_where_is(items@, has_id(id@), i as int);
            }
            return Some(i);
        }
        proof {
            assert(!has_id(id@)(items@[i as int]));
        }
        i = i + 1;
    }
    proof {
        lemma_first_where_none(items@, has_id(id@));
    }
    None
}

/// Drop entries from the front until at most `max` remain.
fn trim_front(v: &mut Vec<PipelineItem>, max: usize)
    ensures
        final(v)@ == keep_last(old(v)@, max as int),
{
    while v.len() > max
        invariant
            keep_last(v@, max as int) == keep_last(old(v)@, max as int),
        decreases v@.len(),
    {
        let ghost before = v@;
        let _dropped = v.remove(0);
        proof {
            assert(v@ =~= before.subrange(1, before.len() as int));
            assert(keep_last(v@, max as int) =~= keep_last(before, max as int));
        }
    }
}

// ------------------------------------------------------------------
// Aggregation and pull-request synchronization
// ------------------------------------------------------------------

/// The repository a session's status is matched under: the session's own,
/// or the given work repository where the session does not name one.
pub open spec fn session_repo_view(s: AgentStatus, work_repo: Seq<char>) -> Seq<char> {
    match s.repo {
        Some(r) => r@,
        None => work_repo,
    }
}

/// An item refreshed from a live session: session, worktree and machine
/// taken from the session, and a non-terminal item promoted to in-progress —
/// correcting drift where an item is still queued but a session exists.
pub open spec fn refreshed_item(item: PipelineItem, s: AgentStatus) -> PipelineItem {
    PipelineItem {
        id: item.id,
        tracking_repo: item.tracking_repo,
        work_repo: item.work_repo,
        issue_number: item.issue_number,
        issue_title: item.issue_title,
        issue_url: item.issue_url,
        agent_type: item.agent_type,
        session_name: Some(s.session),
        worktree_path: s.worktree,
        branch_name: item.branch_name,
        machine_id: Some(s.machine_id),
        pr_number: item.pr_number,
        pr_url: item.pr_url,
        pr_status: item.pr_status,
        status: if is_terminal(item.status) {
            item.status
        } else {
            PipelineStatus::InProgress
        },
        created_at: item.created_at,
        started_at: item.started_at,
        completed_at: item.completed_at,
        error: item.error,
    }
}

/// One session applied to the item list: the first item tracking the
/// session's issue, if any, is refreshed from the session.
pub open spec fn apply_session_spec(
    items: Seq<PipelineItem>,
    s: AgentStatus,
    work_repo: Seq<char>,
) -> Seq<PipelineItem> {
    match s.issue_number {
        None => items,
        Some(n) => {
            let j = first_where(items, matches_issue(session_repo_view(s, work_repo), n));
            if j < 0 {
                items
            } else {
                items.update(j, refreshed_item(items[j], s))
            }
        },
    }
}

/// All sessions applied in order.
pub open spec fn aggregate_spec(
    items: Seq<PipelineItem>,
    sessions: Seq<AgentStatus>,
    work_repo: Seq<char>,
) -> Seq<PipelineItem>
    decreases sessions.len(),
{
    if sessions.len() == 0 {
        items
    } else {
        apply_session_spec(
            aggregate_spec(items, sessions.drop_last(), work_repo),
            sessions.last(),
            work_repo,
        )
    }
}

/// An item refreshed from a live session, as an executable copy.
fn refreshed_exec(item: &PipelineItem, s: &AgentStatus) -> (r: PipelineItem)
    ensures
        r == refreshed_item(*item, *s),
{
    PipelineItem {
        id: item.id.clone(),
        tracking_repo: item.tracking_repo.clone(),
        work_repo: item.work_repo.clone(),
        issue_number: item.issue_number,
        issue_title: item.issue_title.clone(),
        issue_url: item.issue_url.clone(),
        agent_type: item.agent_type.clone(),
        session_name: Some(s.session.clone()),
        worktree_path: clone_opt_string(&s.worktree),
        branch_name: clone_opt_string(&item.branch_name),
        machine_id: Some(s.machine_id.clone()),
        pr_number: item.pr_number,
        pr_url: clone_opt_string(&item.pr_url),
        pr_status: item.pr_status,
        status: if item.is_complete() {
            item.status
        } else {
            PipelineStatus::InProgress
        },
        created_at: item.created_at.clone(),
        started_at: clone_opt_string(&item.started_at),
        completed_at: clone_opt_string(&item.completed_at),
        error: clone_opt_string(&item.error),
    }
}

/// Index of the first item tracking issue `n` under the given repository.
fn find_session_target(items: &Vec<PipelineItem>, repo: &str, n: u64) -> (r: Option<usize>)
    ensures
        ({
            let j = first_where(items@, matches_issue(repo@, n));
            match r {
                Some(i) => i == j && 0 <= j < items@.len(),
                None => j == -1,
            }
        }),
{
    let mut i: usize = 0;
    while i < items.len()
        invariant
            i <= items@.len(),
            forall|k: int| 0 <= k < i ==> !#[trigger] matches_issue(repo@, n)(items@[k]),
        decreases items@.len() - i,
    {
        let it = &items[i];
        if it.issue_number == n && (str_eq(it.tracking_repo.as_str(), repo) || str_eq(
            it.work_repo.as_str(),
            repo,
        )) {
            proof {
                assert(matches_issue(repo@, n)(items@[i as int]));
                lemma_first_where_is(items@, matches_issue(repo@, n), i as int);
            }
            return Some(i);
        }
        proof {
            assert(!matches_issue(repo@, n)(items@[i as int]));
        }
        i = i + 1;
    }
    proof {
        lemma_first_where_none(items@, matches_issue(repo@, n));
    }
    None
}

/// Merge persisted items with live session output: every session that names
/// an issue refreshes the first item tracking that issue, promoting
/// non-terminal items to in-progress.
pub fn aggregate_pipeline_state(
    existing_state: &PipelineState,
    sessions: &[AgentStatus],
    work_repo: &str,
) -> (r: Vec<PipelineItem>)
    ensures
        r@ == aggregate_spec(existing_state.items@, sessions@, work_repo@),
{
    let mut items: Vec<PipelineItem> = Vec::new();
    let mut i: usize = 0;
    proof {
        assert(items@ =~= existing_state.items@.subrange(0, 0));
    }
    while i < existing_state.items.len()
        invariant
            i <= existing_state.items@.len(),
            items@ == existing_state.items@.subrange(0, i as int),
        decreases existing_state.items@.len() - i,
    {
        items.push(existing_state.items[i].duplicate());
        proof {
            assert(existing_state.items@.subrange(0, i + 1) =~= existing_state.items@.subrange(
                0,
                i as int,
            ).push(existing_state.items@[i as int]));
        }
        i = i + 1;
    }
    proof {
        assert(existing_state.items@.subrange(0, existing_state.items@.len() as int)
            =~= existing_state.items@);
        assert(sessions@.subrange(0, 0) =~= Seq::<AgentStatus>::empty());
    }
    let mut k: usize = 0;
    while k < sessions.len()
        invariant
            k <= sessions@.len(),
            items@ == aggregate_spec(
                existing_state.items@,
                sessions@.subrange(0, k as int),
                work_repo@,
            ),
        decreases sessions@.len() - k,
    {
        proof {
            assert(sessions@.subrange(0, k + 1).drop_last() =~= sessions@.subrange(0, k as int));
            assert(sessions@.subrange(0, k + 1).last() == sessions@[k as int]);
        }
        let ghost pre = items@;
        let s = &sessions[k];
        match s.issue_number {
            None => {},
            Some(n) => {
                let repo_str: &str = match &s.repo {
                    Some(rp) => rp.as_str(),
                    None => work_repo,
                };
                proof {
                    assert(repo_str@ == session_repo_view(sessions@[k as int], work_repo@));
                }
                match find_session_target(&items, repo_str, n) {
                    None => {},
                    Some(j) => {
                        let updated = refreshed_exec(&items[j], s);
                        vstd::pervasive::VecAdditionalExecFns::set(&mut items, j, updated);
                        proof {
                            assert(items@ =~= pre.update(
                                first_where(
                                    pre,
                                    matches_issue(
                                        session_repo_view(sessions@[k as int], work_repo@),
                                        n,
                                    ),
                                ),
                                refreshed_item(
                                    pre[first_where(
                                        pre,
                                        matches_issue(
                                            session_repo_view(sessions@[k as int], work_repo@),
                                            n,
                                        ),
                                    )],
                                    sessions@[k as int],
                                ),
                            ));
                        }
                    },
                }
            },
        }
        k = k + 1;
    }
    proof {
        assert(sessions@.subrange(0, sessions@.len() as int) =~= sessions@);
    }
    items
}

/// The pull request's head branch is the given branch.
pub open spec fn pr_on_branch(branch: Seq<char>) -> spec_fn(GitHubPullRequest) -> bool {
    |pr: GitHubPullRequest| pr.head_branch@ == branch
}

/// The first open pull request whose head branch equals the item's branch —
/// the deterministic `issue-{n}` naming is what makes detection possible
/// without stored linkage.
pub fn detect_pr_for_item(item: &PipelineItem, prs: &[GitHubPullRequest]) -> (r: Option<
    GitHubPullRequest,
>)
    ensures
        item.branch_name is None ==> r is None,
        item.branch_name matches Some(b) ==> ({
            let j = first_where(prs@, pr_on_branch(b@));
            match r {
                Some(pr) => j >= 0 && pr == prs@[j],
                None => j == -1,
            }
        }),
{
    match &item.branch_name {
        None => None,
        Some(b) => {
            let mut i: usize = 0;
            while i < prs.len()
                invariant
                    item.branch_name == Some(*b),
                    i <= prs@.len(),
                    forall|k: int| 0 <= k < i ==> !#[trigger] pr_on_branch(b@)(prs@[k]),
                decreases prs@.len() - i,
            {
                if str_eq(prs[i].head_branch.as_str(), b.as_str()) {
                    proof {
                        assert(pr_on_branch(b@)(prs@[i as int]));
                        lemma_first_where_is(prs@, pr_on_branch(b@), i as int);
                    }
                    return Some(prs[i].duplicate());
                }
                proof {
                    assert(!pr_on_branch(b@)(prs@[i as int]));
                }
                i = i + 1;
            }
            proof {
                lemma_first_where_none(prs@, pr_on_branch(b@));
            }
            None
        },
    }
}

/// Feed one pull request's full status through the item: review presence
/// counted from the tallies, approval meaning approvals without requested
/// changes.
/// Returns whether the item was updated, which it is exactly when it has a
/// linked pull request.
pub fn sync_pr_status(item: &mut PipelineItem, status: &PrStatus) -> (r: bool)
    ensures
        old(item).pr_number is None ==> r == false && *final(item) == *old(item),
        old(item).pr_number is Some ==> r == true && pr_update_relation(
            *old(item),
            *final(item),
            status.pr,
            status.reviews.pending > 0 || status.reviews.approved > 0
                || status.reviews.changes_requested > 0,
            status.reviews.approved > 0 && status.reviews.changes_requested == 0,
        ),
{
    match item.pr_number {
        Some(_) => {
            let has_reviewers = status.reviews.pending > 0 || status.reviews.approved > 0
                || status.reviews.changes_requested > 0;
            let is_approved = status.reviews.approved > 0 && status.reviews.changes_requested
                == 0;
            item.update_pr_status(&status.pr, has_reviewers, is_approved);
            true
        },
        None => false,
    }
}

/// Removing one element keeps identifiers pairwise distinct.
proof fn lemma_remove_keeps_distinct_ids(s: Seq<PipelineItem>, j: int)
    requires
        0 <= j < s.len(),
        forall|a: int, b: int| 0 <= a < b < s.len() ==> s[a].id@ != s[b].id@,
    ensures
        forall|a: int, b: int|
            0 <= a < b < s.remove(j).len() ==> s.remove(j)[a].id@ != s.remove(j)[b].id@,
{
    let t = s.remove(j);
    assert forall|a: int, b: int| 0 <= a < b < t.len() implies t[a].id@ != t[b].id@ by {
        let a0 = if a < j {
            a
        } else {
            a + 1
        };
        let b0 = if b < j {
            b
        } else {
            b + 1
        };
        assert(t[a] == s[a0]);
        assert(t[b] == s[b0]);
        assert(s[a0].id@ != s[b0].id@);
    }
}

/// Every element of a filtered sequence occurs in the original and
/// satisfies the predicate.
proof fn lemma_filtered_membership<A>(s: Seq<A>, p: spec_fn(A) -> bool)
    ensures
        forall|a: int|
            0 <= a < filtered(s, p).len() ==> s.contains(#[trigger] filtered(s, p)[a]) && p(
                filtered(s, p)[a],
            ),
    decreases s.len(),
{
    if s.len() > 0 {
        let t = s.drop_last();
        lemma_filtered_membership(t, p);
        assert forall|a: int|
            0 <= a < filtered(s, p).len() implies s.contains(#[trigger] filtered(s, p)[a]) && p(
            filtered(s, p)[a],
        ) by {
            if a < filtered(t, p).len() {
                assert(filtered(s, p)[a] == filtered(t, p)[a]);
                assert(t.contains(filtered(t, p)[a]));
                let w = choose|w: int| 0 <= w < t.len() && t[w] == filtered(t, p)[a];
                assert(s[w] == filtered(s, p)[a]);
            } else {
                assert(filtered(s, p)[a] == s.last());
                assert(s[s.len() - 1] == s.last());
            }
        }
    }
}

/// Filtering keeps identifiers pairwise distinct.
proof fn lemma_filtered_distinct_ids(s: Seq<PipelineItem>, p: spec_fn(PipelineItem) -> bool)
    requires
        forall|a: int, b: int| 0 <= a < b < s.len() ==> s[a].id@ != s[b].id@,
    ensures
        forall|a: int, b: int|
            0 <= a < b < filtered(s, p).len() ==> filtered(s, p)[a].id@ != filtered(s, p)[b].id@,
    decreases s.len(),
{
    if s.len() > 0 {
        let t = s.drop_last();
        lemma_filtered_distinct_ids(t, p);
        lemma_filtered_membership(t, p);
        let f = filtered(s, p);
        let ft = filtered(t, p);
        assert forall|a: int, b: int| 0 <= a < b < f.len() implies f[a].id@ != f[b].id@ by {
            if b < ft.len() {
                assert(f[a] == ft[a] && f[b] == ft[b]);
            } else {
                assert(f[b] == s.last());
                assert(f[a] == ft[a]);
                assert(t.contains(ft[a]));
                let w = choose|w: int| 0 <= w < t.len() && t[w] == ft[a];
                assert(s[w].id@ != s[s.len() - 1].id@);
            }
        }
    }
}

} // verus!
