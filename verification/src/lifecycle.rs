//! Agent lifecycle: spawning an agent from an issue, completing its work
//! with a pull request, and support workers for follow-up tasks.
//!
//! Issue bodies carry typed markers — agent type, epic reference, work
//! repository — that the extractors here read; the spawn planner resolves
//! every name and command before the shell touches any provider.

use crate::recovery::AgentMetadata;
use crate::text::{
    all_digits, append_chars, append_str, chars_to_nat, chars_to_string, find_at, find_pat,
    is_digit, is_space, parse_u32, split_first, split_first_spec, str_chars, subvec,
};
use vstd::prelude::*;

verus! {

/// What spawning an agent from an issue was asked to do.
#[derive(Debug, Clone)]
pub struct SpawnAgentConfig {
    /// Issue reference in owner/repo#number form.
    pub issue_ref: String,
    /// Overriding agent type; otherwise read from the issue body.
    pub agent_type: Option<String>,
    /// Session name; otherwise derived from the issue number.
    pub session_name: Option<String>,
    /// Work repository; otherwise read from the issue body, else the
    /// issue's own repository.
    pub work_repo: Option<String>,
}

/// What spawning an agent produced.
#[derive(Debug, Clone)]
pub struct AgentSpawnResult {
    /// Session name.
    pub session: String,
    /// Issue number.
    pub issue_number: u32,
    /// Worktree path.
    pub worktree: String,
    /// Agent type used.
    pub agent_type: String,
    /// The metadata stored with the session.
    pub metadata: AgentMetadata,
}

/// What completing an agent's work produced.
#[derive(Debug, Clone)]
pub struct AgentCompletionResult {
    /// Pull request URL.
    pub pr_url: String,
    /// Issue number.
    pub issue_number: u32,
    /// Session name.
    pub session: String,
    /// Completion status.
    pub status: String,
}

/// Result of checking one agent session for a pull request.
#[derive(Debug, Clone)]
pub struct PrDetectionResult {
    /// Session name.
    pub session: String,
    /// Issue the agent works on.
    pub issue_number: u32,
    /// Repository in owner/repo form.
    pub repo: String,
    /// Pull request URL, where one was found.
    pub pr_url: Option<String>,
    /// Pull request number, where one was found.
    pub pr_number: Option<u64>,
    /// Branch that was checked.
    pub branch_name: String,
    /// The pull request was first seen by this check.
    pub is_new: bool,
}

/// What a support worker was asked to do.
#[derive(Debug, Clone)]
pub struct SupportWorkerConfig {
    /// Repository in owner/repo form.
    pub repo: String,
    /// Issue the work relates to.
    pub issue_number: u32,
    /// Pull request to work on, for merge tasks.
    pub pr_number: Option<u64>,
    /// The task description.
    pub task: String,
    /// Task type, such as "merge" or "review".
    pub task_type: String,
    /// Merge method for merge tasks.
    pub merge_method: Option<String>,
    /// Delete the branch after merging.
    pub delete_branch: bool,
    /// Run inside a container sandbox.
    pub sandboxed: bool,
    /// Worktree path, required for sandboxed execution.
    pub worktree_path: Option<String>,
}

/// What spawning a support worker produced.
#[derive(Debug, Clone)]
pub struct SupportWorkerResult {
    /// Session name.
    pub session: String,
    /// Issue number.
    pub issue_number: u32,
    /// Pull request number, where the task has one.
    pub pr_number: Option<u64>,
    /// Task type.
    pub task_type: String,
    /// Spawn status.
    pub status: String,
}

// ------------------------------------------------------------------
// Issue references
// ------------------------------------------------------------------

/// What an issue reference denotes with a number that fits in a `u32`.
pub open spec fn issue_ref32_spec(s: Seq<char>) -> Option<(Seq<char>, nat)> {
    let sp = split_first_spec(s, '#');
    match sp.1 {
        None => None,
        Some(num) => if exists|i: int| 0 <= i < num.len() && num[i] == '#' {
            None
        } else if all_digits(num) && chars_to_nat(num) <= u32::MAX {
            Some((sp.0, chars_to_nat(num)))
        } else {
            None
        },
    }
}

/// Parse an issue reference such as `org/repo#123` into repository and
/// number.
pub fn parse_issue_ref(issue_ref: &str) -> (r: Result<(String, u32), String>)
    ensures
        match r {
            Ok(p) => issue_ref32_spec(issue_ref@) == Some((p.0@, p.1 as nat)),
            Err(e) => issue_ref32_spec(issue_ref@) is None && e@.len() > 0,
        },
{
    let v = str_chars(issue_ref);
    let (repo_part, num_opt) = split_first(&v, '#');
    match num_opt {
        None => Err(bad_ref_message(issue_ref)),
        Some(num) => {
            let mut hash_pat: Vec<char> = Vec::new();
            hash_pat.push('#');
            if crate::text::contains_sub(&num, &hash_pat) {
                proof {
                    let i = choose|i: int| crate::text::is_match(num@, hash_pat@, i);
                    assert(num@.subrange(i, i + 1)[0] == num@[i]);
                }
                return Err(bad_ref_message(issue_ref));
            }
            proof {
                assert forall|i: int| 0 <= i < num@.len() implies num@[i] != '#' by {
                    if num@[i] == '#' {
                        assert(num@.subrange(i, i + 1) =~= hash_pat@);
                        assert(crate::text::is_match(num@, hash_pat@, i));
                    }
                }
            }
            match parse_u32(&num) {
                Some(n) => Ok((chars_to_string(&repo_part), n)),
                None => {
                    let mut ev = str_chars("Invalid issue number: ");
                    append_chars(&mut ev, &num);
                    proof {
                        reveal_strlit("Invalid issue number: ");
                    }
                    Err(chars_to_string(&ev))
                },
            }
        },
    }
}

fn bad_ref_message(issue_ref: &str) -> (r: String)
    ensures
        r@.len() > 0,
{
    let mut ev = str_chars("Invalid issue reference: ");
    append_str(&mut ev, issue_ref);
    append_str(&mut ev, ". Expected format: org/repo#123");
    proof {
        reveal_strlit("Invalid issue reference: ");
    }
    chars_to_string(&ev)
}

// ------------------------------------------------------------------
// Body markers
// ------------------------------------------------------------------

/// A word character: letters, digits and underscore.
pub open spec fn is_word_char(c: char) -> bool {
    ('a' <= c && c <= 'z') || ('A' <= c && c <= 'Z') || ('0' <= c && c <= '9') || c == '_'
}

/// How many leading characters satisfy `p`.
pub open spec fn run_len(s: Seq<char>, p: spec_fn(char) -> bool) -> int
    decreases s.len(),
{
    if s.len() > 0 && p(s[0]) {
        1 + run_len(s.subrange(1, s.len() as int), p)
    } else {
        0
    }
}

/// Where the first `j` characters satisfy `p` and the next does not, the
/// run length is `j`.
pub proof fn lemma_run_len_at(s: Seq<char>, p: spec_fn(char) -> bool, j: int)
    requires
        0 <= j <= s.len(),
        forall|k: int| 0 <= k < j ==> p(s[k]),
        j < s.len() ==> !p(s[j]),
    ensures
        run_len(s, p) == j,
    decreases j,
{
    if j == 0 {
    } else {
        let t = s.subrange(1, s.len() as int);
        assert(forall|k: int| 0 <= k < j - 1 ==> t[k] == s[k + 1]);
        lemma_run_len_at(t, p, j - 1);
    }
}

/// A run is never longer than the input.
pub proof fn lemma_run_len_bounds(s: Seq<char>, p: spec_fn(char) -> bool)
    ensures
        0 <= run_len(s, p) <= s.len(),
    decreases s.len(),
{
    if s.len() > 0 && p(s[0]) {
        lemma_run_len_bounds(s.subrange(1, s.len() as int), p);
    }
}

/// Whitespace characters.
pub open spec fn space_pred() -> spec_fn(char) -> bool {
    |c: char| is_space(c)
}

/// Word characters.
pub open spec fn word_pred() -> spec_fn(char) -> bool {
    |c: char| is_word_char(c)
}

/// Word characters and dashes, as repository names use.
pub open spec fn worddash_pred() -> spec_fn(char) -> bool {
    |c: char| is_word_char(c) || c == '-'
}

/// Digits.
pub open spec fn digit_pred() -> spec_fn(char) -> bool {
    |c: char| is_digit(c)
}

/// Scan past characters satisfying the whitespace class.
fn scan_spaces(s: &Vec<char>, from: usize) -> (r: usize)
    requires
        from <= s@.len(),
    ensures
        from <= r <= s@.len(),
        run_len(s@.subrange(from as int, s@.len() as int), space_pred()) == r - from,
{
    let mut i: usize = from;
    while i < s.len() && crate::text::is_space_char(s[i])
        invariant
            from <= i <= s@.len(),
            forall|k: int| from <= k < i ==> is_space(s@[k]),
        decreases s@.len() - i,
    {
        i = i + 1;
    }
    proof {
        let t = s@.subrange(from as int, s@.len() as int);
        assert forall|k: int| 0 <= k < i - from implies space_pred()(t[k]) by {
            assert(t[k] == s@[from + k]);
        }
        if i < s@.len() {
            assert(t[i - from] == s@[i as int]);
            assert(!space_pred()(t[i - from]));
        }
        lemma_run_len_at(t, space_pred(), i - from);
    }
    i
}

fn is_word_char_exec(c: char) -> (r: bool)
    ensures
        r == is_word_char(c),
{
    ('a' <= c && c <= 'z') || ('A' <= c && c <= 'Z') || ('0' <= c && c <= '9') || c == '_'
}

/// Scan past word characters.
fn scan_word(s: &Vec<char>, from: usize) -> (r: usize)
    requires
        from <= s@.len(),
    ensures
        from <= r <= s@.len(),
        run_len(s@.subrange(from as int, s@.len() as int), word_pred()) == r - from,
{
    let mut i: usize = from;
    while i < s.len() && is_word_char_exec(s[i])
        invariant
            from <= i <= s@.len(),
            forall|k: int| from <= k < i ==> is_word_char(s@[k]),
        decreases s@.len() - i,
    {
        i = i + 1;
    }
    proof {
        let t = s@.subrange(from as int, s@.len() as int);
        assert forall|k: int| 0 <= k < i - from implies word_pred()(t[k]) by {
            assert(t[k] == s@[from + k]);
        }
        if i < s@.len() {
            assert(t[i - from] == s@[i as int]);
            assert(!word_pred()(t[i - from]));
        }
        lemma_run_len_at(t, word_pred(), i - from);
    }
    i
}

/// Scan past word characters and dashes.
fn scan_worddash(s: &Vec<char>, from: usize) -> (r: usize)
    requires
        from <= s@.len(),
    ensures
        from <= r <= s@.len(),
        run_len(s@.subrange(from as int, s@.len() as int), worddash_pred()) == r - from,
{
    let mut i: usize = from;
    while i < s.len() && (is_word_char_exec(s[i]) || s[i] == '-')
        invariant
            from <= i <= s@.len(),
            forall|k: int| from <= k < i ==> is_word_char(s@[k]) || s@[k] == '-',
        decreases s@.len() - i,
    {
        i = i + 1;
    }
    proof {
        let t = s@.subrange(from as int, s@.len() as int);
        assert forall|k: int| 0 <= k < i - from implies worddash_pred()(t[k]) by {
            assert(t[k] == s@[from + k]);
        }
        if i < s@.len() {
            assert(t[i - from] == s@[i as int]);
            assert(!worddash_pred()(t[i - from]));
        }
        lemma_run_len_at(t, worddash_pred(), i - from);
    }
    i
}

/// Scan past digits.
fn scan_digits(s: &Vec<char>, from: usize) -> (r: usize)
    requires
        from <= s@.len(),
    ensures
        from <= r <= s@.len(),
        run_len(s@.subrange(from as int, s@.len() as int), digit_pred()) == r - from,
{
    let mut i: usize = from;
    while i < s.len() && s[i] >= '0' && s[i] <= '9'
        invariant
            from <= i <= s@.len(),
            forall|k: int| from <= k < i ==> is_digit(s@[k]),
        decreases s@.len() - i,
    {
        i = i + 1;
    }
    proof {
        let t = s@.subrange(from as int, s@.len() as int);
        assert forall|k: int| 0 <= k < i - from implies digit_pred()(t[k]) by {
            assert(t[k] == s@[from + k]);
        }
        if i < s@.len() {
            assert(t[i - from] == s@[i as int]);
            assert(!digit_pred()(t[i - from]));
        }
        lemma_run_len_at(t, digit_pred(), i - from);
    }
    i
}

/// The agent type an issue body names: the word after the first agent-type
/// marker, past any whitespace.
pub open spec fn agent_type_spec(body: Seq<char>) -> Option<Seq<char>> {
    let f = find_at(body, "**Agent Type**:"@);
    if f < 0 {
        None
    } else {
        let after = body.subrange(f + "**Agent Type**:"@.len(), body.len() as int);
        let ws = run_len(after, space_pred());
        let tail = after.subrange(ws, after.len() as int);
        let wl = run_len(tail, word_pred());
        if wl > 0 {
            Some(tail.subrange(0, wl))
        } else {
            None
        }
    }
}

/// Extract the agent type from an issue body.
pub fn extract_agent_type(issue_body: &str) -> (r: Option<String>)
    ensures
        match r {
            Some(v) => agent_type_spec(issue_body@) == Some(v@),
            None => agent_type_spec(issue_body@) is None,
        },
{
    let bv = str_chars(issue_body);
    let n: usize = bv.len();
    let marker = str_chars("**Agent Type**:");
    match find_pat(&bv, &marker) {
        None => None,
        Some(f) => {
            let start = f + marker.len();
            let after = subvec(&bv, start, n);
            let ws = scan_spaces(&after, 0);
            let we = scan_word(&after, ws);
            proof {
                assert(after@.subrange(0, after@.len() as int) =~= after@);
                assert(after@.subrange(ws as int, after@.len() as int).subrange(
                    0,
                    we - ws,
                ) =~= after@.subrange(ws as int, we as int));
            }
            if we > ws {
                Some(chars_to_string(&subvec(&after, ws, we)))
            } else {
                None
            }
        },
    }
}

/// The epic reference an issue body names: a `#` and digits after the
/// first epic marker, past any whitespace.
pub open spec fn epic_ref_spec(body: Seq<char>) -> Option<Seq<char>> {
    let f = find_at(body, "**Epic**:"@);
    if f < 0 {
        None
    } else {
        let after = body.subrange(f + "**Epic**:"@.len(), body.len() as int);
        let ws = run_len(after, space_pred());
        if ws < after.len() && after[ws] == '#' {
            let tail = after.subrange(ws + 1, after.len() as int);
            let dl = run_len(tail, digit_pred());
            if dl > 0 {
                Some("#"@ + tail.subrange(0, dl))
            } else {
                None
            }
        } else {
            None
        }
    }
}

/// Extract the epic reference, such as `#100`, from an issue body.
pub fn extract_epic_ref(issue_body: &str) -> (r: Option<String>)
    ensures
        match r {
            Some(v) => epic_ref_spec(issue_body@) == Some(v@),
            None => epic_ref_spec(issue_body@) is None,
        },
{
    let bv = str_chars(issue_body);
    let n: usize = bv.len();
    let marker = str_chars("**Epic**:");
    match find_pat(&bv, &marker) {
        None => None,
        Some(f) => {
            let start = f + marker.len();
            let after = subvec(&bv, start, n);
            let ws = scan_spaces(&after, 0);
            proof {
                assert(after@.subrange(0, after@.len() as int) =~= after@);
            }
            if ws < after.len() && after[ws] == '#' {
                let de = scan_digits(&after, ws + 1);
                proof {
                    assert(after@.subrange(ws + 1, after@.len() as int).subrange(
                        0,
                        de - (ws + 1),
                    ) =~= after@.subrange(ws + 1, de as int));
                }
                if de > ws + 1 {
                    let mut out = str_chars("#");
                    let digits = subvec(&after, ws + 1, de);
                    append_chars(&mut out, &digits);
                    Some(chars_to_string(&out))
                } else {
                    None
                }
            } else {
                None
            }
        },
    }
}

/// The work repository an issue body names: an `owner/name` pair of word
/// and dash runs after the first work-repository marker.
pub open spec fn work_repo_spec(body: Seq<char>) -> Option<Seq<char>> {
    let f = find_at(body, "**Work Repository**:"@);
    if f < 0 {
        None
    } else {
        let after = body.subrange(f + "**Work Repository**:"@.len(), body.len() as int);
        let ws = run_len(after, space_pred());
        let tail = after.subrange(ws, after.len() as int);
        let a = run_len(tail, worddash_pred());
        if a > 0 && a < tail.len() && tail[a] == '/' {
            let tail2 = tail.subrange(a + 1, tail.len() as int);
            let b = run_len(tail2, worddash_pred());
            if b > 0 {
                Some(tail.subrange(0, a) + "/"@ + tail2.subrange(0, b))
            } else {
                None
            }
        } else {
            None
        }
    }
}

/// Extract the work repository, such as `user/project`, from an issue body.
#[verifier::rlimit(50)]
pub fn extract_work_repo(issue_body: &str) -> (r: Option<String>)
    ensures
        match r {
            Some(v) => work_repo_spec(issue_body@) == Some(v@),
            None => work_repo_spec(issue_body@) is None,
        },
{
    let bv = str_chars(issue_body);
    let n: usize = bv.len();
    let marker = str_chars("**Work Repository**:");
    match find_pat(&bv, &marker) {
        None => None,
        Some(f) => {
            let start = f + marker.len();
            let after = subvec(&bv, start, n);
            let ws = scan_spaces(&after, 0);
            let a_end = scan_worddash(&after, ws);
            proof {
                assert(after@.subrange(0, after@.len() as int) =~= after@);
                assert(after@.subrange(ws as int, after@.len() as int).subrange(
                    0,
                    a_end - ws,
                ) =~= after@.subrange(ws as int, a_end as int));
            }
            if a_end > ws && a_end < after.len() && after[a_end] == '/' {
                let b_end = scan_worddash(&after, a_end + 1);
                proof {
                    let tail = after@.subrange(ws as int, after@.len() as int);
                    assert(tail.subrange(a_end - ws + 1, tail.len() as int) =~= after@.subrange(
                        a_end + 1,
                        after@.len() as int,
                    ));
                    assert(after@.subrange(a_end + 1, after@.len() as int).subrange(
                        0,
                        b_end - (a_end + 1),
                    ) =~= after@.subrange(a_end + 1, b_end as int));
                }
                if b_end > a_end + 1 {
                    let mut out = subvec(&after, ws, a_end);
                    append_str(&mut out, "/");
                    let second = subvec(&after, a_end + 1, b_end);
                    append_chars(&mut out, &second);
                    proof {
                        let tail = after@.subrange(ws as int, after@.len() as int);
                        assert(tail.subrange(0, a_end - ws) =~= after@.subrange(
                            ws as int,
                            a_end as int,
                        ));
                    }
                    Some(chars_to_string(&out))
                } else {
                    None
                }
            } else {
                None
            }
        },
    }
}

/// The standard pull-request body for an agent's finished work: summary,
/// changes, how to test, and the closing issue reference.
pub open spec fn pr_body_spec(title: Seq<char>, issue_number: u32, m: AgentMetadata) -> Seq<
    char,
> {
    "## Summary\n"@ + title + "\n\n## Changes\nImplementation of #"@ + crate::text::dec_spec(
        issue_number as nat,
    )
        + " via DevOps agent.\n\n## Testing\n```bash\n# Run tests to verify changes\ncargo test  # For Rust\nbun run test  # For TypeScript\n```\n\n## Related Issues\nCloses #"@
        + crate::text::dec_spec(issue_number as nat) + "\n\n---\n\nSubmitted by "@
        + m.agent_type@ + " agent `"@ + m.session@ + "`\n"@
}

/// Format the standard pull-request body for an agent's finished work.
pub fn format_pr_body(issue_title: &str, issue_number: u32, metadata: &AgentMetadata) -> (r:
    String)
    ensures
        r@ == pr_body_spec(issue_title@, issue_number, *metadata),
{
    let mut v = str_chars("## Summary\n");
    append_str(&mut v, issue_title);
    append_str(&mut v, "\n\n## Changes\nImplementation of #");
    crate::text::push_dec_u64(issue_number as u64, &mut v);
    append_str(
        &mut v,
        " via DevOps agent.\n\n## Testing\n```bash\n# Run tests to verify changes\ncargo test  # For Rust\nbun run test  # For TypeScript\n```\n\n## Related Issues\nCloses #",
    );
    crate::text::push_dec_u64(issue_number as u64, &mut v);
    append_str(&mut v, "\n\n---\n\nSubmitted by ");
    append_str(&mut v, metadata.agent_type.as_str());
    append_str(&mut v, " agent `");
    append_str(&mut v, metadata.session.as_str());
    append_str(&mut v, "`\n");
    chars_to_string(&v)
}

/// The auto-accept flag appended to support-worker commands inside a
/// sandbox, where the container provides the isolation.
pub open spec fn auto_flag_spec(sandboxed: bool) -> Seq<char> {
    if sandboxed {
        " --dangerously-skip-permissions"@
    } else {
        Seq::empty()
    }
}

/// The command one support worker runs: a merge or review task over a
/// named pull request, or the task text itself for anything else; nothing
/// where a pull-request task lacks its number.
pub open spec fn support_command_spec(cfg: SupportWorkerConfig, sandboxed: bool) -> Option<
    Seq<char>,
> {
    let auto = auto_flag_spec(sandboxed);
    if cfg.task_type@ == "merge"@ {
        match cfg.pr_number {
            Some(pr) => Some(
                "coder"@ + auto + " \"You are a Support Worker agent tasked with merging PR #"@
                    + crate::text::dec_spec(pr as nat) + " in "@ + cfg.repo@
                    + ". View it: gh pr view "@ + crate::text::dec_spec(pr as nat) + " --repo "@
                    + cfg.repo@ + ". Check it: gh pr checks "@ + crate::text::dec_spec(pr as nat)
                    + " --repo "@ + cfg.repo@ + ". Merge it: gh pr merge "@
                    + crate::text::dec_spec(pr as nat) + " --repo "@ + cfg.repo@ + " --"@ + (
                match cfg.merge_method {
                    Some(m) => m@,
                    None => "squash"@,
                }) + (if cfg.delete_branch {
                    " --delete-branch"@
                } else {
                    Seq::empty()
                })
                    + ". If the merge fails on conflicts, resolve them locally, push, and retry. If checks are failing, report what blocks.\""@,
            ),
            None => None,
        }
    } else if cfg.task_type@ == "review"@ {
        match cfg.pr_number {
            Some(pr) => Some(
                "coder"@ + auto + " \"Review the PR #"@ + crate::text::dec_spec(pr as nat)
                    + " in "@ + cfg.repo@
                    + " and provide feedback. Check the diff, look for issues, and approve or request changes.\" --repo "@
                    + cfg.repo@,
            ),
            None => None,
        }
    } else {
        Some("coder"@ + auto + " \""@ + crate::text::dquote_escaped(cfg.task@) + "\""@)
    }
}

/// Build the command a support worker runs for its task.
pub fn build_support_worker_command(config: &SupportWorkerConfig, sandboxed: bool) -> (r: Result<
    String,
    String,
>)
    ensures
        (match r {
            Ok(c) => support_command_spec(*config, sandboxed) == Some(c@),
            Err(e) => support_command_spec(*config, sandboxed) is None && e@.len() > 0,
        }),
{
    let mut v = str_chars("coder");
    if sandboxed {
        append_str(&mut v, " --dangerously-skip-permissions");
    }
    if crate::text::str_eq(config.task_type.as_str(), "merge") {
        let pr: u64 = match config.pr_number {
            Some(p) => p,
            None => {
                proof {
                    reveal_strlit("PR number required for merge task");
                }
                return Err(crate::text::string_of("PR number required for merge task"));
            },
        };
        append_str(&mut v, " \"You are a Support Worker agent tasked with merging PR #");
        crate::text::push_dec_u64(pr, &mut v);
        append_str(&mut v, " in ");
        append_str(&mut v, config.repo.as_str());
        append_str(&mut v, ". View it: gh pr view ");
        crate::text::push_dec_u64(pr, &mut v);
        append_str(&mut v, " --repo ");
        append_str(&mut v, config.repo.as_str());
        append_str(&mut v, ". Check it: gh pr checks ");
        crate::text::push_dec_u64(pr, &mut v);
        append_str(&mut v, " --repo ");
        append_str(&mut v, config.repo.as_str());
        append_str(&mut v, ". Merge it: gh pr merge ");
        crate::text::push_dec_u64(pr, &mut v);
        append_str(&mut v, " --repo ");
        append_str(&mut v, config.repo.as_str());
        append_str(&mut v, " --");
        match &config.merge_method {
            Some(m) => append_str(&mut v, m.as_str()),
            None => append_str(&mut v, "squash"),
        }
        if config.delete_branch {
            append_str(&mut v, " --delete-branch");
        }
        append_str(
            &mut v,
            ". If the merge fails on conflicts, resolve them locally, push, and retry. If checks are failing, report what blocks.\"",
        );
        Ok(chars_to_string(&v))
    } else if crate::text::str_eq(config.task_type.as_str(), "review") {
        let pr: u64 = match config.pr_number {
            Some(p) => p,
            None => {
                proof {
                    reveal_strlit("PR number required for review task");
                }
                return Err(crate::text::string_of("PR number required for review task"));
            },
        };
        append_str(&mut v, " \"Review the PR #");
        crate::text::push_dec_u64(pr, &mut v);
        append_str(&mut v, " in ");
        append_str(&mut v, config.repo.as_str());
        append_str(
            &mut v,
            " and provide feedback. Check the diff, look for issues, and approve or request changes.\" --repo ",
        );
        append_str(&mut v, config.repo.as_str());
        Ok(chars_to_string(&v))
    } else {
        append_str(&mut v, " \"");
        let tv = str_chars(config.task.as_str());
        let esc = crate::text::escape_dquotes(&tv);
        append_chars(&mut v, &esc);
        append_str(&mut v, "\"");
        Ok(chars_to_string(&v))
    }
}

/// The session one support worker runs in, named by task and issue.
pub fn support_session_name(task_type: &str, issue_number: u32) -> (r: String)
    ensures
        r@ == "handy-support-"@ + task_type@ + "-"@ + crate::text::dec_spec(issue_number as nat),
{
    let mut v = str_chars("handy-support-");
    append_str(&mut v, task_type);
    append_str(&mut v, "-");
    crate::text::push_dec_u64(issue_number as u64, &mut v);
    chars_to_string(&v)
}

// ------------------------------------------------------------------
// Resolution before a spawn
// ------------------------------------------------------------------

/// Everything a spawn from an issue resolves before any provider is
/// touched.
#[derive(Debug, Clone)]
pub struct ResolvedSpawn {
    /// Repository of the issue.
    pub repo: String,
    /// Issue number.
    pub issue_number: u32,
    /// Agent type, from the override or the body marker.
    pub agent_type: String,
    /// Work repository, from the override, the body marker, or the issue's
    /// own repository.
    pub work_repo: String,
    /// Session name, from the override or derived from the issue number.
    pub session_name: String,
    /// The deterministic branch name.
    pub branch_name: String,
}

/// Resolve a spawn from an issue, with the precedence the configuration
/// sets: the agent type comes from the override, else from the body's
/// marker, else the spawn is refused; the work repository from the
/// override, else the body, else the issue's repository; the session name
/// from the override, else derived from the issue number. Succeeds exactly
/// where the issue reference parses and an agent type can be resolved.
pub fn spawn_agent_from_issue(config: &SpawnAgentConfig, issue_body: &str) -> (r: Result<
    ResolvedSpawn,
    String,
>)
    ensures
        (match r {
            Ok(res) => issue_ref32_spec(config.issue_ref@) matches Some(p) && {
                &&& res.repo@ == p.0
                &&& res.issue_number as nat == p.1
                &&& (match config.agent_type {
                    Some(a) => res.agent_type == a,
                    None => agent_type_spec(issue_body@) matches Some(v) && res.agent_type@ == v,
                })
                &&& (match config.work_repo {
                    Some(w) => res.work_repo == w,
                    None => (match work_repo_spec(issue_body@) {
                        Some(v) => res.work_repo@ == v,
                        None => res.work_repo@ == p.0,
                    }),
                })
                &&& (match config.session_name {
                    Some(s) => res.session_name == s,
                    None => res.session_name@ == "handy-agent-"@ + crate::text::dec_spec(p.1),
                })
                &&& res.branch_name@ == "issue-"@ + crate::text::dec_spec(p.1)
            },
            Err(e) => e@.len() > 0 && (issue_ref32_spec(config.issue_ref@) is None || (
            config.agent_type is None && agent_type_spec(issue_body@) is None)),
        }),
        (issue_ref32_spec(config.issue_ref@) is Some && (config.agent_type is Some
            || agent_type_spec(issue_body@) is Some)) ==> r is Ok,
{
    let (repo, issue_number) = match parse_issue_ref(config.issue_ref.as_str()) {
        Ok(p) => p,
        Err(e) => {
            return Err(e);
        },
    };
    let agent_type: String = match &config.agent_type {
        Some(a) => a.clone(),
        None => match extract_agent_type(issue_body) {
            Some(v) => v,
            None => {
                proof {
                    reveal_strlit(
                        "Agent type not specified in config or issue body. Add '**Agent Type**: <type>' to issue or provide agent_type in config",
                    );
                }
                return Err(
                    crate::text::string_of(
                        "Agent type not specified in config or issue body. Add '**Agent Type**: <type>' to issue or provide agent_type in config",
                    ),
                );
            },
        },
    };
    let work_repo: String = match &config.work_repo {
        Some(w) => w.clone(),
        None => match extract_work_repo(issue_body) {
            Some(v) => v,
            None => repo.clone(),
        },
    };
    let session_name: String = match &config.session_name {
        Some(s) => s.clone(),
        None => crate::names::session_name_for_issue(issue_number),
    };
    let branch_name = crate::names::branch_name_for_issue(issue_number as u64);
    Ok(
        ResolvedSpawn {
            repo,
            issue_number,
            agent_type,
            work_repo,
            session_name,
            branch_name,
        },
    )
}

} // verus!
