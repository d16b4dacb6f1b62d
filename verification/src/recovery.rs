//! Terminal-session recovery.
//!
//! Sessions persist in the terminal multiplexer and outlive the process
//! that created them; metadata stored in session environment variables is
//! what makes recovery after a crash or restart possible. The functions
//! here classify every session into resume, restart or cleanup, and decide
//! what a recovery pass does — the shell only runs the resulting commands.

use crate::seqs::first_where;
use crate::text::{
    chars_to_string, clone_opt_string, lines_spec, split_first, split_first_spec, split_lines,
    str_chars, str_eq, string_of, trim_chars, trim_spec,
};
use vstd::prelude::*;

verus! {

/// Status of an agent session.
#[derive(Debug, Clone, PartialEq, Eq, Structural)]
pub enum SessionStatus {
    /// Session is running and an agent process is active.
    Running,
    /// Session exists but the agent process has exited.
    Stopped,
    /// Session was reconstructed from stored metadata.
    Recovered,
}

/// Metadata stored with each agent session, inside the session itself, so
/// it outlives the orchestrator process.
#[derive(Debug, Clone)]
pub struct AgentMetadata {
    /// Session name.
    pub session: String,
    /// Issue reference in owner/repo#number form, where known.
    pub issue_ref: Option<String>,
    /// Repository being worked on, where known.
    pub repo: Option<String>,
    /// Worktree path, where known.
    pub worktree: Option<String>,
    /// Agent type.
    pub agent_type: String,
    /// Machine the session was started on.
    pub machine_id: String,
    /// When the session started.
    pub started_at: String,
}

/// One session as the terminal-session provider lists it.
#[derive(Debug, Clone)]
pub struct TmuxSession {
    /// Session name.
    pub name: String,
    /// The session is attached to a client.
    pub attached: bool,
    /// Windows in the session.
    pub windows: u32,
    /// Creation time, seconds since the Unix epoch.
    pub created: u64,
    /// Stored metadata, where the session carries any.
    pub metadata: Option<AgentMetadata>,
    /// Current status.
    pub status: SessionStatus,
}

/// Where recovered session information came from.
#[derive(Debug, Clone, PartialEq, Eq, Structural)]
pub enum RecoverySource {
    /// Found in the terminal multiplexer.
    Tmux,
    /// Reconstructed from an issue comment.
    GitHubIssue,
    /// Confirmed by both sources.
    Both,
}

/// Recommended action for a recovered session.
#[derive(Debug, Clone, PartialEq, Eq, Structural)]
pub enum RecoveryAction {
    /// Session alive: leave it alone and keep monitoring.
    Resume,
    /// Session dead but the worktree is intact: reissue the start command.
    Restart,
    /// Session dead and the worktree is gone: kill the session.
    Cleanup,
    /// Completed normally; nothing to do.
    NoAction,
}

/// A session recovered during startup.
#[derive(Debug, Clone)]
pub struct RecoveredSession {
    pub metadata: AgentMetadata,
    pub source: RecoverySource,
    pub tmux_alive: bool,
    pub worktree_exists: bool,
    pub recommended_action: RecoveryAction,
}

/// Outcome of one attempted recovery.
#[derive(Debug, Clone)]
pub struct RecoveryResult {
    /// Session name.
    pub session: String,
    /// The recovery succeeded.
    pub success: bool,
    /// Action that was taken.
    pub action: RecoveryAction,
    /// Error message where it failed.
    pub error: Option<String>,
}

/// The recovery classification table: an alive session is resumed whatever
/// its worktree; a dead one is restarted where the worktree is intact and
/// cleaned up where it is gone.
pub open spec fn classify_spec(tmux_alive: bool, worktree_exists: bool) -> RecoveryAction {
    if tmux_alive {
        RecoveryAction::Resume
    } else if worktree_exists {
        RecoveryAction::Restart
    } else {
        RecoveryAction::Cleanup
    }
}

/// Classify one session by liveness and worktree existence.
pub fn classify_recovery(tmux_alive: bool, worktree_exists: bool) -> (r: RecoveryAction)
    ensures
        r == classify_spec(tmux_alive, worktree_exists),
        tmux_alive ==> r == RecoveryAction::Resume,
        !tmux_alive && worktree_exists ==> r == RecoveryAction::Restart,
        !tmux_alive && !worktree_exists ==> r == RecoveryAction::Cleanup,
{
    if tmux_alive {
        RecoveryAction::Resume
    } else if worktree_exists {
        RecoveryAction::Restart
    } else {
        RecoveryAction::Cleanup
    }
}

/// A pane command means an active agent: non-empty after trimming, and not
/// a bare shell prompt.
pub open spec fn active_pane_spec(cmd: Seq<char>) -> bool {
    let t = trim_spec(cmd);
    t.len() > 0 && t != "bash"@ && t != "zsh"@ && t != "sh"@ && t != "fish"@
}

/// Decide from a pane's current command whether a non-shell process is
/// attached.
pub fn pane_shows_active_process(cmd: &str) -> (r: bool)
    ensures
        r == active_pane_spec(cmd@),
{
    let v = str_chars(cmd);
    let t = trim_chars(&v);
    if t.len() == 0 {
        return false;
    }
    !(crate::text::chars_eq_str(&t, "bash") || crate::text::chars_eq_str(&t, "zsh")
        || crate::text::chars_eq_str(&t, "sh") || crate::text::chars_eq_str(&t, "fish"))
}

// ------------------------------------------------------------------
// Session metadata from environment output
// ------------------------------------------------------------------

/// The value of `key` among `key=value` lines, the last occurrence winning;
/// `None` where no line carries the key.
pub open spec fn env_lookup(lines: Seq<Seq<char>>, key: Seq<char>) -> Option<Seq<char>>
    decreases lines.len(),
{
    if lines.len() == 0 {
        None
    } else {
        let sp = split_first_spec(lines.last(), '=');
        match sp.1 {
            Some(v) => if sp.0 == key {
                Some(v)
            } else {
                env_lookup(lines.drop_last(), key)
            },
            None => env_lookup(lines.drop_last(), key),
        }
    }
}

/// Find the value of `key` among the `key=value` lines, the last
/// occurrence winning.
fn env_value(lines: &Vec<Vec<char>>, key: &str) -> (r: Option<String>)
    ensures
        match r {
            Some(v) => env_lookup(lines.deep_view(), key@) == Some(v@),
            None => env_lookup(lines.deep_view(), key@) is None,
        },
{
    let ghost lv = lines.deep_view();
    let mut i: usize = lines.len();
    proof {
        assert(lv.subrange(0, i as int) =~= lv);
    }
    while i > 0
        invariant
            i <= lines@.len(),
            lv == lines.deep_view(),
            env_lookup(lv, key@) == env_lookup(lv.subrange(0, i as int), key@),
        decreases i,
    {
        let ghost pre = lv.subrange(0, i as int);
        proof {
            assert(pre.last() == lv[i - 1]);
            assert(lv[i - 1] == lines@[i - 1]@);
            assert(pre.drop_last() =~= lv.subrange(0, i - 1));
        }
        let (k, vopt) = split_first(&lines[i - 1], '=');
        match vopt {
            Some(v) => {
                if str_eq(chars_to_string(&k).as_str(), key) {
                    proof {
                        assert(env_lookup(pre, key@) == Some(v@));
                    }
                    return Some(chars_to_string(&v));
                }
                proof {
                    assert(env_lookup(pre, key@) == env_lookup(pre.drop_last(), key@));
                }
            },
            None => {
                proof {
                    assert(env_lookup(pre, key@) == env_lookup(pre.drop_last(), key@));
                }
            },
        }
        i = i - 1;
    }
    proof {
        assert(lv.subrange(0, 0) =~= Seq::<Seq<char>>::empty());
    }
    None
}

/// How one metadata field relates to the environment lines it was read
/// from: the stored value, where the key occurs, else nothing.
pub open spec fn env_field(lines: Seq<Seq<char>>, key: Seq<char>, field: Option<String>) -> bool {
    match env_lookup(lines, key) {
        Some(v) => field matches Some(s) && s@ == v,
        None => field is None,
    }
}

/// How one required metadata field relates to the environment lines: the
/// stored value, where the key occurs, else the given fallback.
pub open spec fn env_field_or(
    lines: Seq<Seq<char>>,
    key: Seq<char>,
    field: String,
    fallback: Seq<char>,
) -> bool {
    match env_lookup(lines, key) {
        Some(v) => field@ == v,
        None => field@ == fallback,
    }
}

/// Reconstruct agent metadata from a session's environment listing.
/// Missing fields fall back conservatively: an unknown agent type is
/// reported as such, and machine and start time fall back to what the
/// caller supplies.
pub fn parse_session_metadata(
    session_name: &str,
    env_output: &str,
    default_machine_id: &str,
    default_started_at: &str,
) -> (r: AgentMetadata)
    ensures
        r.session@ == session_name@,
        env_field(lines_spec(env_output@), "HANDY_ISSUE_REF"@, r.issue_ref),
        env_field(lines_spec(env_output@), "HANDY_REPO"@, r.repo),
        env_field(lines_spec(env_output@), "HANDY_WORKTREE"@, r.worktree),
        env_field_or(lines_spec(env_output@), "HANDY_AGENT_TYPE"@, r.agent_type, "unknown"@),
        env_field_or(
            lines_spec(env_output@),
            "HANDY_MACHINE_ID"@,
            r.machine_id,
            default_machine_id@,
        ),
        env_field_or(
            lines_spec(env_output@),
            "HANDY_STARTED_AT"@,
            r.started_at,
            default_started_at@,
        ),
{
    let ev = str_chars(env_output);
    let lines = split_lines(&ev);
    let agent_type = match env_value(&lines, "HANDY_AGENT_TYPE") {
        Some(v) => v,
        None => string_of("unknown"),
    };
    let machine_id = match env_value(&lines, "HANDY_MACHINE_ID") {
        Some(v) => v,
        None => string_of(default_machine_id),
    };
    let started_at = match env_value(&lines, "HANDY_STARTED_AT") {
        Some(v) => v,
        None => string_of(default_started_at),
    };
    AgentMetadata {
        session: string_of(session_name),
        issue_ref: env_value(&lines, "HANDY_ISSUE_REF"),
        repo: env_value(&lines, "HANDY_REPO"),
        worktree: env_value(&lines, "HANDY_WORKTREE"),
        agent_type,
        machine_id,
        started_at,
    }
}

// ------------------------------------------------------------------
// Recovery of all sessions
// ------------------------------------------------------------------

/// What `recover_sessions` reports for one session, from the caller's
/// answer to whether its worktree path exists on disk: sessions of the
/// current machine are classified by the recovery table; a session tagged
/// with another machine identifier is reported with no action, so recovery
/// never crosses machine boundaries.
pub open spec fn recovered_of(s: TmuxSession, wt: bool, machine: Seq<char>) -> Option<
    RecoveredSession,
> {
    match s.metadata {
        None => None,
        Some(m) => {
            let alive = s.status == SessionStatus::Running;
            let worktree_exists = m.worktree is Some && wt;
            let action = if m.machine_id@ == machine {
                classify_spec(alive, worktree_exists)
            } else {
                RecoveryAction::NoAction
            };
            Some(
                RecoveredSession {
                    metadata: m,
                    source: RecoverySource::Tmux,
                    tmux_alive: alive,
                    worktree_exists: worktree_exists,
                    recommended_action: action,
                },
            )
        },
    }
}

/// Every session that carries metadata, classified: the current machine's
/// by the recovery table, foreign ones reported with no action.
pub open spec fn recover_spec(
    sessions: Seq<TmuxSession>,
    wt: Seq<bool>,
    machine: Seq<char>,
) -> Seq<RecoveredSession>
    decreases sessions.len(),
{
    if sessions.len() == 0 || sessions.len() != wt.len() {
        Seq::empty()
    } else {
        let rest = recover_spec(sessions.drop_last(), wt.drop_last(), machine);
        match recovered_of(sessions.last(), wt.last(), machine) {
            None => rest,
            Some(rec) => rest.push(rec),
        }
    }
}

/// Recovery never crosses machine boundaries: every reported session
/// whose stored machine identifier differs from the current machine is
/// classified as nothing-to-do, never restart or cleanup.
pub proof fn lemma_recovery_never_crosses_machines(
    sessions: Seq<TmuxSession>,
    wt: Seq<bool>,
    machine: Seq<char>,
)
    ensures
        forall|k: int|
            0 <= k < recover_spec(sessions, wt, machine).len() && (#[trigger] recover_spec(
                sessions,
                wt,
                machine,
            )[k]).metadata.machine_id@ != machine ==> recover_spec(sessions, wt, machine)[
                k
            ].recommended_action == RecoveryAction::NoAction,
    decreases sessions.len(),
{
    if sessions.len() != 0 && sessions.len() == wt.len() {
        lemma_recovery_never_crosses_machines(sessions.drop_last(), wt.drop_last(), machine);
    }
}

/// Classify every session that carries metadata for recovery, combining
/// session liveness with worktree existence as the caller reports it, one
/// flag per session. Sessions tagged with another machine identifier are
/// reported but classified as nothing-to-do: recovery never crosses
/// machine boundaries.
pub fn recover_sessions(
    sessions: &Vec<TmuxSession>,
    worktree_exists: &Vec<bool>,
    current_machine: &str,
) -> (r: Vec<RecoveredSession>)
    requires
        sessions@.len() == worktree_exists@.len(),
    ensures
        r@ == recover_spec(sessions@, worktree_exists@, current_machine@),
        forall|k: int|
            0 <= k < r@.len() && (#[trigger] r@[k]).metadata.machine_id@ != current_machine@
                ==> r@[k].recommended_action == RecoveryAction::NoAction,
{
    let mut r: Vec<RecoveredSession> = Vec::new();
    let mut i: usize = 0;
    proof {
        assert(sessions@.subrange(0, 0) =~= Seq::<TmuxSession>::empty());
        assert(r@ =~= recover_spec(
            sessions@.subrange(0, 0),
            worktree_exists@.subrange(0, 0),
            current_machine@,
        ));
    }
    while i < sessions.len()
        invariant
            sessions@.len() == worktree_exists@.len(),
            i <= sessions@.len(),
            r@ == recover_spec(
                sessions@.subrange(0, i as int),
                worktree_exists@.subrange(0, i as int),
                current_machine@,
            ),
        decreases sessions@.len() - i,
    {
        proof {
            assert(sessions@.subrange(0, i + 1).drop_last() =~= sessions@.subrange(0, i as int));
            assert(worktree_exists@.subrange(0, i + 1).drop_last() =~= worktree_exists@.subrange(
                0,
                i as int,
            ));
            assert(sessions@.subrange(0, i + 1).last() == sessions@[i as int]);
            assert(worktree_exists@.subrange(0, i + 1).last() == worktree_exists@[i as int]);
        }
        let s = &sessions[i];
        match &s.metadata {
            None => {},
            Some(m) => {
                let alive = matches!(s.status, SessionStatus::Running);
                let has_worktree = match &m.worktree {
                    Some(_) => true,
                    None => false,
                };
                let wt = has_worktree && worktree_exists[i];
                let action = if str_eq(m.machine_id.as_str(), current_machine) {
                    classify_recovery(alive, wt)
                } else {
                    RecoveryAction::NoAction
                };
                let rec = RecoveredSession {
                    metadata: duplicate_metadata(m),
                    source: RecoverySource::Tmux,
                    tmux_alive: alive,
                    worktree_exists: wt,
                    recommended_action: action,
                };
                r.push(rec);
            },
        }
        i = i + 1;
    }
    proof {
        assert(sessions@.subrange(0, sessions@.len() as int) =~= sessions@);
        assert(worktree_exists@.subrange(0, worktree_exists@.len() as int) =~= worktree_exists@);
        lemma_recovery_never_crosses_machines(sessions@, worktree_exists@, current_machine@);
    }
    r
}

/// An exact copy of agent metadata.
pub fn duplicate_metadata(m: &AgentMetadata) -> (r: AgentMetadata)
    ensures
        r == *m,
{
    AgentMetadata {
        session: m.session.clone(),
        issue_ref: clone_opt_string(&m.issue_ref),
        repo: clone_opt_string(&m.repo),
        worktree: clone_opt_string(&m.worktree),
        agent_type: m.agent_type.clone(),
        machine_id: m.machine_id.clone(),
        started_at: m.started_at.clone(),
    }
}

/// What a recovery pass does to one session.
#[derive(Debug, Clone, Copy, PartialEq, Eq, Structural)]
pub enum RecoveryCommand {
    /// Reissue the agent's start command in the session.
    Restart,
    /// Kill the session.
    Kill,
    /// Touch nothing.
    Leave,
}

/// What the recovery pass does for one classified session, under the
/// automation switches.
pub fn recovery_command(
    action: &RecoveryAction,
    auto_restart: bool,
    auto_cleanup: bool,
) -> (r: RecoveryCommand)
    ensures
        *action == RecoveryAction::Restart && auto_restart ==> r == RecoveryCommand::Restart,
        *action == RecoveryAction::Cleanup && auto_cleanup ==> r == RecoveryCommand::Kill,
        *action == RecoveryAction::Resume || *action == RecoveryAction::NoAction || (*action
            == RecoveryAction::Restart && !auto_restart) || (*action == RecoveryAction::Cleanup
            && !auto_cleanup) ==> r == RecoveryCommand::Leave,
{
    match action {
        RecoveryAction::Restart => if auto_restart {
            RecoveryCommand::Restart
        } else {
            RecoveryCommand::Leave
        },
        RecoveryAction::Cleanup => if auto_cleanup {
            RecoveryCommand::Kill
        } else {
            RecoveryCommand::Leave
        },
        RecoveryAction::Resume => RecoveryCommand::Leave,
        RecoveryAction::NoAction => RecoveryCommand::Leave,
    }
}

/// How one recovery result relates to the session it reports on, the
/// automation switches, and the outcome of the performed command (`None`
/// for success or where nothing was performed).
pub open spec fn recovery_result_relation(
    s: RecoveredSession,
    auto_restart: bool,
    auto_cleanup: bool,
    outcome: Option<String>,
    res: RecoveryResult,
) -> bool {
    &&& res.session@ == s.metadata.session@
    &&& res.action == s.recommended_action
    &&& match s.recommended_action {
        RecoveryAction::Resume => res.success && res.error is None,
        RecoveryAction::NoAction => res.success && res.error is None,
        RecoveryAction::Restart => if auto_restart {
            res.success == (outcome is None) && res.error == outcome
        } else {
            !res.success && (res.error matches Some(e) && e@ == "Auto-restart disabled"@)
        },
        RecoveryAction::Cleanup => if auto_cleanup {
            res.success == (outcome is None) && res.error == outcome
        } else {
            !res.success && (res.error matches Some(e) && e@ == "Auto-cleanup disabled"@)
        },
    }
}

/// Build the report for every classified session from the outcomes of the
/// commands the shell performed, one outcome per session (`None` where the
/// command succeeded or nothing was performed).
pub fn recover_all_sessions(
    sessions: &Vec<RecoveredSession>,
    auto_restart: bool,
    auto_cleanup: bool,
    outcomes: &Vec<Option<String>>,
) -> (r: Vec<RecoveryResult>)
    requires
        outcomes@.len() == sessions@.len(),
    ensures
        r@.len() == sessions@.len(),
        forall|i: int|
            0 <= i < r@.len() ==> recovery_result_relation(
                sessions@[i],
                auto_restart,
                auto_cleanup,
                outcomes@[i],
                #[trigger] r@[i],
            ),
{
    let mut r: Vec<RecoveryResult> = Vec::new();
    let mut i: usize = 0;
    while i < sessions.len()
        invariant
            outcomes@.len() == sessions@.len(),
            i <= sessions@.len(),
            r@.len() == i,
            forall|k: int|
                0 <= k < i ==> recovery_result_relation(
                    sessions@[k],
                    auto_restart,
                    auto_cleanup,
                    outcomes@[k],
                    #[trigger] r@[k],
                ),
        decreases sessions@.len() - i,
    {
        let s = &sessions[i];
        let res = match s.recommended_action {
            RecoveryAction::Resume => RecoveryResult {
                session: s.metadata.session.clone(),
                success: true,
                action: RecoveryAction::Resume,
                error: None,
            },
            RecoveryAction::NoAction => RecoveryResult {
                session: s.metadata.session.clone(),
                success: true,
                action: RecoveryAction::NoAction,
                error: None,
            },
            RecoveryAction::Restart => if auto_restart {
                let err = clone_opt_string(&outcomes[i]);
                let ok = match &err {
                    Some(_) => false,
                    None => true,
                };
                RecoveryResult {
                    session: s.metadata.session.clone(),
                    success: ok,
                    action: RecoveryAction::Restart,
                    error: err,
                }
            } else {
                RecoveryResult {
                    session: s.metadata.session.clone(),
                    success: false,
                    action: RecoveryAction::Restart,
                    error: Some(string_of("Auto-restart disabled")),
                }
            },
            RecoveryAction::Cleanup => if auto_cleanup {
                let err = clone_opt_string(&outcomes[i]);
                let ok = match &err {
                    Some(_) => false,
                    None => true,
                };
                RecoveryResult {
                    session: s.metadata.session.clone(),
                    success: ok,
                    action: RecoveryAction::Cleanup,
                    error: err,
                }
            } else {
                RecoveryResult {
                    session: s.metadata.session.clone(),
                    success: false,
                    action: RecoveryAction::Cleanup,
                    error: Some(string_of("Auto-cleanup disabled")),
                }
            },
        };
        r.push(res);
        i = i + 1;
    }
    r
}

} // verus!
