//! Session and resource orchestration: spawning one agent's isolated
//! workspace, reporting agent status, and cleaning up after merged work.
//!
//! The shell performs the provider calls; the functions here make every
//! decision — which names to derive, when a spawn must be refused as a
//! collision, what to clean up — over plain values.

use vstd::prelude::*;

verus! {

/// What a spawn was asked to do.
#[derive(Debug, Clone)]
pub struct SpawnConfig {
    /// Repository in owner/repo form.
    pub repo: String,
    /// Issue number to work on.
    pub issue_number: u64,
    /// Agent type, such as "coder" or "aider".
    pub agent_type: String,
    /// Session name, where the caller picked one.
    pub session_name: Option<String>,
    /// Worktree prefix, where the caller picked one.
    pub worktree_prefix: Option<String>,
    /// Labels to add when the agent starts working.
    pub working_labels: Vec<String>,
    /// Run the agent inside a container sandbox.
    pub use_sandbox: bool,
    /// Port mapping entries for the sandbox; empty means auto-detect.
    pub sandbox_ports: Vec<String>,
}

/// What a successful spawn produced.
#[derive(Debug, Clone)]
pub struct SpawnResult {
    /// The issue being worked on.
    pub issue: crate::github::GitHubIssue,
    /// The created worktree.
    pub worktree: crate::worktree::WorktreeCreateResult,
    /// The session the agent runs in.
    pub session_name: String,
    /// Machine the agent runs on.
    pub machine_id: String,
    /// The agent runs inside a container sandbox.
    pub is_sandboxed: bool,
    /// Container id, where one was created separately.
    pub container_id: Option<String>,
}

/// Status of one active agent.
#[derive(Debug, Clone)]
pub struct AgentStatus {
    /// Session name.
    pub session: String,
    /// Issue reference in owner/repo#number form, where known.
    pub issue_ref: Option<String>,
    /// Repository, where known.
    pub repo: Option<String>,
    /// Issue number, where known.
    pub issue_number: Option<u64>,
    /// Worktree path, where known.
    pub worktree: Option<String>,
    /// Agent type.
    pub agent_type: String,
    /// Machine the session was started on.
    pub machine_id: String,
    /// When the session was started.
    pub started_at: String,
    /// The session is attached to a client.
    pub is_attached: bool,
    /// The session belongs to the current machine.
    pub is_local: bool,
}

/// What completing an agent's work produced.
#[derive(Debug, Clone)]
pub struct CompleteWorkResult {
    /// The created pull request.
    pub pull_request: crate::github::GitHubPullRequest,
    /// The issue was updated with a link to the pull request.
    pub issue_updated: bool,
    /// Working labels were removed and pull-request labels added.
    pub labels_updated: bool,
}

/// Workflow automation settings.
#[derive(Debug, Clone)]
pub struct WorkflowConfig {
    /// Labels to remove when work is complete.
    pub working_labels: Vec<String>,
    /// Labels to add when the pull request is created.
    pub pr_labels: Vec<String>,
    /// Create the pull request as a draft.
    pub draft_pr: bool,
    /// Close the issue when the pull request merges.
    pub close_on_merge: bool,
}

// ------------------------------------------------------------------
// Spawning
// ------------------------------------------------------------------

/// A snapshot of the local providers' world, as the shell reports it:
/// what exists right now, against which a spawn is planned.
#[derive(Debug, Clone)]
pub struct SpawnEnvironment {
    /// Branches the worktree provider lists.
    pub branches: Vec<String>,
    /// Worktrees the provider lists.
    pub worktrees: Vec<crate::worktree::WorktreeInfo>,
    /// Names of live sessions.
    pub session_names: Vec<String>,
    /// The container runtime is available.
    pub docker_available: bool,
    /// This machine's identifier.
    pub machine_id: String,
    /// The branch new work branches are created from.
    pub default_branch: String,
    /// Root path under which worktrees are created.
    pub worktree_root: String,
}

/// A session name is already taken.
pub open spec fn session_taken(names: Seq<String>, name: Seq<char>) -> bool {
    exists|i: int| 0 <= i < names.len() && #[trigger] names[i]@ == name
}

/// The shape of a session name the planner derives itself: the issue
/// number and a start time. Such a spawn can fail on the session check
/// only where a name of this shape is already taken.
pub open spec fn generated_session_name(issue_number: u64, ts: u64) -> Seq<char> {
    "handy-issue-"@ + crate::text::dec_spec(issue_number as nat) + "-"@ + crate::text::dec_spec(
        ts as nat,
    )
}

/// The derived branch name is already used by a worktree or a branch.
pub open spec fn branch_collision(env: SpawnEnvironment, branch: Seq<char>) -> bool {
    crate::worktree::worktree_on_branch(env.worktrees@, branch) || crate::worktree::branch_listed(
        env.branches@,
        branch,
    )
}

/// Plan one spawn against the world as it stands. The deterministic branch
/// `issue-{n}` is derived first; where a worktree or branch already uses
/// it, or the session name is taken, or the agent type is unknown, the
/// spawn fails before anything would be created. On success the plan names
/// every resource the shell then creates: the worktree on the derived
/// branch under the worktree root, the session carrying full metadata, and
/// sandbox mode exactly where asked for and available.
pub fn spawn_agent(
    config: &SpawnConfig,
    issue: &crate::github::GitHubIssue,
    env: &SpawnEnvironment,
) -> (r: Result<SpawnResult, String>)
    ensures
        ({
            let branch = "issue-"@ + crate::text::dec_spec(config.issue_number as nat);
            let sandboxed = config.use_sandbox && env.docker_available;
            let cmd = crate::commands::agent_command_spec(
                config.agent_type@,
                config.repo@,
                config.issue_number,
                Some(issue.title@),
                sandboxed,
            );
            &&& (branch_collision(*env, branch) ==> r is Err)
            &&& (cmd is None ==> r is Err)
            &&& (match r {
                Ok(res) => {
                    &&& !branch_collision(*env, branch)
                    &&& cmd is Some
                    &&& res.worktree.branch@ == branch
                    &&& res.worktree.path@ == env.worktree_root@ + "/"@ + branch
                    &&& res.worktree.base_branch == env.default_branch
                    &&& res.session_name@.len() > 0
                    &&& !session_taken(env.session_names@, res.session_name@)
                    &&& res.machine_id == env.machine_id
                    &&& res.is_sandboxed == sandboxed
                    &&& res.container_id is None
                    &&& res.issue.number == issue.number
                    &&& res.issue.title == issue.title
                    &&& res.issue.url == issue.url
                },
                Err(e) => e@.len() > 0,
            })
            &&& ((!branch_collision(*env, branch) && cmd is Some && (
            config.session_name matches Some(sn) && sn@.len() > 0 && !session_taken(
                env.session_names@,
                sn@,
            ))) ==> r is Ok)
            &&& ((!branch_collision(*env, branch) && cmd is Some && config.session_name is None
                && r is Err) ==> exists|ts: u64|
                session_taken(
                    env.session_names@,
                    #[trigger] generated_session_name(config.issue_number, ts),
                ))
        }),
{
    let branch_name = crate::names::branch_name_for_issue(config.issue_number);
    let sandboxed = config.use_sandbox && env.docker_available;
    match crate::worktree::check_worktree_collision(
        branch_name.as_str(),
        &env.worktrees,
        &env.branches,
    ) {
        crate::worktree::CollisionCheck::ExistsAsWorktree => {
            return Err(collision_message(branch_name.as_str(), "a worktree is already on it"));
        },
        crate::worktree::CollisionCheck::ExistsAsBranch => {
            return Err(collision_message(branch_name.as_str(), "the branch already exists"));
        },
        crate::worktree::CollisionCheck::Free => {},
    }
    match crate::commands::build_agent_command_inner(
        config.agent_type.as_str(),
        config.repo.as_str(),
        config.issue_number,
        Some(issue.title.as_str()),
        sandboxed,
    ) {
        Err(e) => {
            return Err(nonempty_error(e));
        },
        Ok(_command) => {},
    }
    let ghost mut gen_ts: u64 = 0;
    let session_name = match &config.session_name {
        Some(sn) => sn.clone(),
        None => {
            let now = crate::clock::now_unix_seconds();
            let ts: u64 = if now < 0 {
                0
            } else {
                now as u64
            };
            proof {
                gen_ts = ts;
            }
            let mut v = crate::text::str_chars("handy-issue-");
            crate::text::push_dec_u64(config.issue_number, &mut v);
            crate::text::append_str(&mut v, "-");
            crate::text::push_dec_u64(ts, &mut v);
            proof {
                reveal_strlit("handy-issue-");
            }
            crate::text::chars_to_string(&v)
        },
    };
    proof {
        if config.session_name is None {
            assert(session_name@ == generated_session_name(config.issue_number, gen_ts));
        }
    }
    let snv = crate::text::str_chars(session_name.as_str());
    if snv.len() == 0 {
        proof {
            reveal_strlit("handy-issue-");
            reveal_strlit("Session name must not be empty");
        }
        return Err(crate::text::string_of("Session name must not be empty"));
    }
    if session_taken_exec(&env.session_names, session_name.as_str()) {
        let mut e = crate::text::str_chars("Session '");
        crate::text::append_str(&mut e, session_name.as_str());
        crate::text::append_str(&mut e, "' already exists");
        proof {
            reveal_strlit("Session '");
        }
        return Err(crate::text::chars_to_string(&e));
    }
    let mut pathv = crate::text::str_chars(env.worktree_root.as_str());
    crate::text::append_str(&mut pathv, "/");
    crate::text::append_str(&mut pathv, branch_name.as_str());
    let worktree_path = crate::text::chars_to_string(&pathv);
    Ok(
        SpawnResult {
            issue: issue.duplicate(),
            worktree: crate::worktree::WorktreeCreateResult {
                path: worktree_path,
                branch: branch_name,
                base_branch: env.default_branch.clone(),
            },
            session_name,
            machine_id: env.machine_id.clone(),
            is_sandboxed: sandboxed,
            container_id: None,
        },
    )
}

fn collision_message(branch: &str, why: &str) -> (r: String)
    ensures
        r@.len() > 0,
{
    let mut e = crate::text::str_chars("Branch name '");
    crate::text::append_str(&mut e, branch);
    crate::text::append_str(&mut e, "' collides: ");
    crate::text::append_str(&mut e, why);
    proof {
        reveal_strlit("Branch name '");
    }
    crate::text::chars_to_string(&e)
}

fn nonempty_error(e: String) -> (r: String)
    ensures
        r@.len() > 0,
{
    let v = crate::text::str_chars(e.as_str());
    if v.len() == 0 {
        proof {
            reveal_strlit("spawn failed");
        }
        crate::text::string_of("spawn failed")
    } else {
        e
    }
}

/// The session name is among the live ones.
fn session_taken_exec(names: &Vec<String>, name: &str) -> (r: bool)
    ensures
        r == session_taken(names@, name@),
{
    let mut i: usize = 0;
    while i < names.len()
        invariant
            i <= names@.len(),
            forall|k: int| 0 <= k < i ==> names@[k]@ != name@,
        decreases names@.len() - i,
    {
        if crate::text::str_eq(names[i].as_str(), name) {
            return true;
        }
        i = i + 1;
    }
    false
}

/// Record the resources a successful spawn created, so the next plan sees
/// them: the branch, the worktree on it, and the session.
pub fn apply_spawn(env: &mut SpawnEnvironment, result: &SpawnResult)
    ensures
        final(env).branches@ == old(env).branches@.push(result.worktree.branch),
        final(env).worktrees@.len() == old(env).worktrees@.len() + 1,
        final(env).worktrees@[old(env).worktrees@.len() as int].branch == Some(
            result.worktree.branch,
        ),
        final(env).session_names@ == old(env).session_names@.push(result.session_name),
        final(env).docker_available == old(env).docker_available,
        final(env).machine_id == old(env).machine_id,
        final(env).default_branch == old(env).default_branch,
        final(env).worktree_root == old(env).worktree_root,
        crate::worktree::worktree_on_branch(final(env).worktrees@, result.worktree.branch@),
{
    env.branches.push(result.worktree.branch.clone());
    env.worktrees.push(
        crate::worktree::WorktreeInfo {
            path: result.worktree.path.clone(),
            branch: Some(result.worktree.branch.clone()),
        },
    );
    env.session_names.push(result.session_name.clone());
    proof {
        let n = old(env).worktrees@.len() as int;
        assert(final(env).worktrees@[n].branch matches Some(b) && b@ == result.worktree.branch@);
    }
}

// ------------------------------------------------------------------
// Agent status
// ------------------------------------------------------------------

/// How one reported status relates to the session it reports on: metadata
/// copied where the session carries any, conservative "unknown" values
/// where it does not, and locality decided by the machine identifier.
pub open spec fn agent_status_relation(
    sess: crate::recovery::TmuxSession,
    machine: Seq<char>,
    st: AgentStatus,
) -> bool {
    &&& st.session == sess.name
    &&& st.is_attached == sess.attached
    &&& st.is_local == (st.machine_id@ == machine)
    &&& match sess.metadata {
        Some(m) => {
            &&& st.issue_ref == m.issue_ref
            &&& st.repo == m.repo
            &&& st.worktree == m.worktree
            &&& st.agent_type == m.agent_type
            &&& st.machine_id == m.machine_id
            &&& st.started_at == m.started_at
            &&& match m.issue_ref {
                Some(ir) => st.issue_number == (
                match crate::commands::metadata_issue_number(ir@) {
                    Some(n) => Some(n as u64),
                    None => None,
                }),
                None => st.issue_number is None,
            }
        },
        None => {
            &&& st.issue_ref is None
            &&& st.repo is None
            &&& st.worktree is None
            &&& st.issue_number is None
            &&& st.agent_type@ == "unknown"@
            &&& st.machine_id@ == "unknown"@
            &&& st.started_at@ == "unknown"@
        },
    }
}

/// Report the status of every listed session, one entry per session,
/// with locality judged against the current machine.
pub fn list_agent_statuses(
    sessions: &Vec<crate::recovery::TmuxSession>,
    current_machine: &str,
) -> (r: Vec<AgentStatus>)
    ensures
        r@.len() == sessions@.len(),
        forall|k: int|
            0 <= k < r@.len() ==> agent_status_relation(
                sessions@[k],
                current_machine@,
                #[trigger] r@[k],
            ),
{
    let mut r: Vec<AgentStatus> = Vec::new();
    let mut i: usize = 0;
    while i < sessions.len()
        invariant
            i <= sessions@.len(),
            r@.len() == i,
            forall|k: int|
                0 <= k < i ==> agent_status_relation(
                    sessions@[k],
                    current_machine@,
                    #[trigger] r@[k],
                ),
        decreases sessions@.len() - i,
    {
        let sess = &sessions[i];
        let status = match &sess.metadata {
            Some(m) => {
                let issue_number: Option<u64> = match &m.issue_ref {
                    Some(ir) => {
                        let irv = crate::text::str_chars(ir.as_str());
                        let seg = crate::text::after_last(&irv, '#');
                        crate::text::parse_u64(&seg)
                    },
                    None => None,
                };
                let machine_id = m.machine_id.clone();
                let is_local = crate::text::str_eq(machine_id.as_str(), current_machine);
                AgentStatus {
                    session: sess.name.clone(),
                    issue_ref: crate::text::clone_opt_string(&m.issue_ref),
                    repo: crate::text::clone_opt_string(&m.repo),
                    issue_number,
                    worktree: crate::text::clone_opt_string(&m.worktree),
                    agent_type: m.agent_type.clone(),
                    machine_id,
                    started_at: m.started_at.clone(),
                    is_attached: sess.attached,
                    is_local,
                }
            },
            None => {
                let machine_id = crate::text::string_of("unknown");
                let is_local = crate::text::str_eq(machine_id.as_str(), current_machine);
                AgentStatus {
                    session: sess.name.clone(),
                    issue_ref: None,
                    repo: None,
                    issue_number: None,
                    worktree: None,
                    agent_type: crate::text::string_of("unknown"),
                    machine_id,
                    started_at: crate::text::string_of("unknown"),
                    is_attached: sess.attached,
                    is_local,
                }
            },
        };
        r.push(status);
        i = i + 1;
    }
    r
}

/// The status reports an agent on the current machine.
pub open spec fn local_status() -> spec_fn(AgentStatus) -> bool {
    |s: AgentStatus| s.is_local
}

/// The status reports an agent on another machine.
pub open spec fn remote_status() -> spec_fn(AgentStatus) -> bool {
    |s: AgentStatus| !s.is_local
}

/// An exact copy of one agent status.
fn duplicate_status(s: &AgentStatus) -> (r: AgentStatus)
    ensures
        r == *s,
{
    AgentStatus {
        session: s.session.clone(),
        issue_ref: crate::text::clone_opt_string(&s.issue_ref),
        repo: crate::text::clone_opt_string(&s.repo),
        issue_number: s.issue_number,
        worktree: crate::text::clone_opt_string(&s.worktree),
        agent_type: s.agent_type.clone(),
        machine_id: s.machine_id.clone(),
        started_at: s.started_at.clone(),
        is_attached: s.is_attached,
        is_local: s.is_local,
    }
}

/// The statuses of agents on the current machine, in order.
pub fn list_local_agent_statuses(statuses: &Vec<AgentStatus>) -> (r: Vec<AgentStatus>)
    ensures
        r@ == crate::seqs::filtered(statuses@, local_status()),
{
    let mut r: Vec<AgentStatus> = Vec::new();
    let mut i: usize = 0;
    proof {
        assert(statuses@.subrange(0, 0) =~= Seq::<AgentStatus>::empty());
        assert(r@ =~= crate::seqs::filtered(statuses@.subrange(0, 0), local_status()));
    }
    while i < statuses.len()
        invariant
            i <= statuses@.len(),
            r@ == crate::seqs::filtered(statuses@.subrange(0, i as int), local_status()),
        decreases statuses@.len() - i,
    {
        proof {
            assert(statuses@.subrange(0, i + 1).drop_last() =~= statuses@.subrange(0, i as int));
            assert(statuses@.subrange(0, i + 1).last() == statuses@[i as int]);
        }
        if statuses[i].is_local {
            r.push(duplicate_status(&statuses[i]));
        }
        i = i + 1;
    }
    proof {
        assert(statuses@.subrange(0, statuses@.len() as int) =~= statuses@);
    }
    r
}

/// The statuses of agents on other machines — potentially orphaned — in
/// order.
pub fn list_remote_agent_statuses(statuses: &Vec<AgentStatus>) -> (r: Vec<AgentStatus>)
    ensures
        r@ == crate::seqs::filtered(statuses@, remote_status()),
{
    let mut r: Vec<AgentStatus> = Vec::new();
    let mut i: usize = 0;
    proof {
        assert(statuses@.subrange(0, 0) =~= Seq::<AgentStatus>::empty());
        assert(r@ =~= crate::seqs::filtered(statuses@.subrange(0, 0), remote_status()));
    }
    while i < statuses.len()
        invariant
            i <= statuses@.len(),
            r@ == crate::seqs::filtered(statuses@.subrange(0, i as int), remote_status()),
        decreases statuses@.len() - i,
    {
        proof {
            assert(statuses@.subrange(0, i + 1).drop_last() =~= statuses@.subrange(0, i as int));
            assert(statuses@.subrange(0, i + 1).last() == statuses@[i as int]);
        }
        if !statuses[i].is_local {
            r.push(duplicate_status(&statuses[i]));
        }
        i = i + 1;
    }
    proof {
        assert(statuses@.subrange(0, statuses@.len() as int) =~= statuses@);
    }
    r
}

// ------------------------------------------------------------------
// Cleanup and completion
// ------------------------------------------------------------------

/// What cleaning up one agent removes besides its session: the worktree
/// named in the metadata, exactly where removal was asked for and a
/// worktree is known. The session itself is always killed first.
pub fn cleanup_agent(
    metadata: &Option<crate::recovery::AgentMetadata>,
    remove_worktree: bool,
) -> (r: Option<String>)
    ensures
        match r {
            Some(w) => remove_worktree && (metadata matches Some(m) && m.worktree matches Some(mw)
                && mw@ == w@),
            None => !remove_worktree || metadata is None || (metadata matches Some(m)
                && m.worktree is None),
        },
{
    if !remove_worktree {
        return None;
    }
    match metadata {
        Some(m) => crate::text::clone_opt_string(&m.worktree),
        None => None,
    }
}

/// The full pull-request body for completed work: the given body — or a
/// stock one — with a closing reference to the issue, where one is known.
pub open spec fn full_pr_body_spec(body: Option<Seq<char>>, issue_number: Option<u64>) -> Seq<
    char,
> {
    match issue_number {
        Some(n) => {
            match body {
                Some(b) => b + "\n\nCloses #"@ + crate::text::dec_spec(n as nat),
                None => "Automated PR for issue #"@ + crate::text::dec_spec(n as nat)
                    + "\n\nCloses #"@ + crate::text::dec_spec(n as nat),
            }
        },
        None => match body {
            Some(b) => b,
            None => Seq::empty(),
        },
    }
}

/// Build the full pull-request body for completed work.
pub fn complete_agent_work_body(pr_body: Option<&str>, issue_number: Option<u64>) -> (r: String)
    ensures
        r@ == full_pr_body_spec(
            match pr_body {
                Some(b) => Some(b@),
                None => None,
            },
            issue_number,
        ),
{
    match issue_number {
        Some(n) => {
            let mut v: Vec<char> = match pr_body {
                Some(b) => crate::text::str_chars(b),
                None => {
                    let mut d = crate::text::str_chars("Automated PR for issue #");
                    crate::text::push_dec_u64(n, &mut d);
                    d
                },
            };
            crate::text::append_str(&mut v, "\n\nCloses #");
            crate::text::push_dec_u64(n, &mut v);
            crate::text::chars_to_string(&v)
        },
        None => match pr_body {
            Some(b) => crate::text::string_of(b),
            None => {
                proof {
                    reveal_strlit("");
                    assert(""@ =~= Seq::<char>::empty());
                }
                crate::text::string_of("")
            },
        },
    }
}

/// A merged pull request is what triggers cleanup after completion.
pub fn check_and_cleanup_merged_pr(pr_state: &str) -> (r: bool)
    ensures
        r == (pr_state@ == "merged"@),
{
    crate::text::str_eq(pr_state, "merged")
}

/// Relies on `hostname::get`: the current machine's host name, with
/// "unknown" where it cannot be read.
#[verifier::external_body]
pub fn get_current_machine_id() -> (r: String) {
    hostname::get().map(|h| h.to_string_lossy().to_string()).unwrap_or_else(
        |_| "unknown".to_string(),
    )
}

} // verus!
