//! Container sandboxes: deterministic names, orphan cleanup, and the
//! agent commands that run inside them.
//!
//! Container names embed the issue number, so an idempotent cleanup pass
//! can enumerate containers by prefix and remove any whose issue has no
//! matching live session.

use crate::text::{
    all_digits, append_chars, append_str, chars_to_nat, chars_to_string, dec_spec, is_match,
    parse_u32, push_dec_u64, str_chars, string_of, subvec,
};
use vstd::prelude::*;

verus! {

/// How an isolated agent is run.
#[derive(Debug, Clone, PartialEq, Eq, Structural)]
pub enum SandboxMode {
    /// A development container described by a checked-in configuration.
    DevContainer,
    /// A directly launched container.
    DirectDocker,
}

impl Default for SandboxMode {
    /// The development container, by default.
    fn default() -> (r: Self)
        ensures
            r == SandboxMode::DevContainer,
    {
        SandboxMode::DevContainer
    }
}

/// What spawning a sandboxed agent container was asked to do.
#[derive(Debug, Clone)]
pub struct SandboxConfig {
    /// How to run the isolated agent.
    pub mode: SandboxMode,
    /// Container image for direct launches, where given.
    pub image: Option<String>,
    /// Worktree path mounted as the container workspace.
    pub workdir: String,
    /// Tracker token passed into the environment, where given.
    pub gh_token: Option<String>,
    /// Model credential passed into the environment, where given.
    pub devtool_api_key: Option<String>,
    /// Issue reference in owner/repo#number form.
    pub issue_ref: String,
    /// Agent type.
    pub agent_type: String,
    /// Accept all agent operations, safe inside the sandbox.
    pub auto_accept: bool,
    /// Memory limit, where given.
    pub memory_limit: Option<String>,
    /// Processor limit, where given.
    pub cpu_limit: Option<String>,
    /// Network mode, where given.
    pub network_mode: Option<String>,
}

/// What spawning a sandboxed container produced.
#[derive(Debug, Clone)]
pub struct SandboxResult {
    /// Container identifier.
    pub container_id: String,
    /// Container name.
    pub container_name: String,
    /// The container started.
    pub started: bool,
}

/// Status of one sandbox container.
#[derive(Debug, Clone)]
pub struct SandboxStatus {
    /// Container identifier.
    pub container_id: String,
    /// Container name.
    pub container_name: String,
    /// The container is running.
    pub running: bool,
    /// Exit code where it stopped.
    pub exit_code: Option<i32>,
    /// Status text as the runtime reports it.
    pub status: String,
}

/// One orphaned container that was cleaned up.
#[derive(Debug, Clone)]
pub struct CleanedOrphanInfo {
    /// Container name.
    pub container_name: String,
    /// Issue number embedded in the name, where it parses.
    pub issue_number: Option<u32>,
}

/// Result of an orphan cleanup pass.
#[derive(Debug, Clone)]
pub struct OrphanCleanupResult {
    /// Orphaned containers found.
    pub found: usize,
    /// Containers successfully removed.
    pub removed: usize,
    /// Names of the removed containers.
    pub removed_containers: Vec<String>,
    /// Details of the removed containers.
    pub cleaned_orphans: Vec<CleanedOrphanInfo>,
    /// Errors hit while removing.
    pub errors: Vec<String>,
}

/// A development container configuration.
#[derive(Debug, Clone)]
pub struct DevContainerConfig {
    /// Name of the container.
    pub name: String,
    /// Base image.
    pub image: String,
    /// Features to install.
    pub features: Vec<DevContainerFeature>,
    /// Environment passed to the container, in order.
    pub container_env: Vec<(String, String)>,
    /// Command to run after creation, where given.
    pub post_create_command: Option<String>,
}

/// One development container feature.
#[derive(Debug, Clone)]
pub struct DevContainerFeature {
    /// Feature identifier.
    pub id: String,
    /// Feature options as key-value pairs.
    pub options: Vec<(String, String)>,
}

impl Default for DevContainerConfig {
    /// The base image with the coding-agent feature installed.
    fn default() -> (r: Self)
        ensures
            r.name@ == "Handy Agent Sandbox"@,
            r.image@ == "mcr.microsoft.com/devcontainers/base:ubuntu"@,
            r.features@.len() == 1,
            r.container_env@.len() == 0,
            r.post_create_command is None,
    {
        let mut features: Vec<DevContainerFeature> = Vec::new();
        features.push(
            DevContainerFeature {
                id: string_of("ghcr.io/devtools/devcontainer-features/coder:1.0"),
                options: Vec::new(),
            },
        );
        DevContainerConfig {
            name: string_of("Handy Agent Sandbox"),
            image: string_of("mcr.microsoft.com/devcontainers/base:ubuntu"),
            features,
            container_env: Vec::new(),
            post_create_command: None,
        }
    }
}

/// Status of the persistent credential volume.
#[derive(Debug, Clone)]
pub struct CoderAuthVolumeStatus {
    /// The volume exists.
    pub exists: bool,
    /// The volume holds credential data.
    pub has_auth: bool,
    /// Volume name.
    pub volume_name: String,
    /// When credentials were last written, where known.
    pub last_auth: Option<String>,
}

// ------------------------------------------------------------------
// Orphan cleanup
// ------------------------------------------------------------------

/// The issue number a container name embeds: the digits after the sandbox
/// or support-sandbox prefix; nothing where what remains is not a number
/// that fits in a `u32`.
pub open spec fn container_issue_spec(name: Seq<char>) -> Option<nat> {
    let s1 = if is_match(name, "handy-support-sandbox-"@, 0) {
        name.subrange("handy-support-sandbox-"@.len() as int, name.len() as int)
    } else {
        name
    };
    let s2 = if is_match(s1, "handy-sandbox-"@, 0) {
        s1.subrange("handy-sandbox-"@.len() as int, s1.len() as int)
    } else {
        s1
    };
    if all_digits(s2) && chars_to_nat(s2) <= u32::MAX {
        Some(chars_to_nat(s2))
    } else {
        None
    }
}

/// The issue number a container name embeds.
pub fn container_issue_number(name: &str) -> (r: Option<u32>)
    ensures
        match r {
            Some(n) => container_issue_spec(name@) == Some(n as nat),
            None => container_issue_spec(name@) is None,
        },
{
    let nv = str_chars(name);
    let n: usize = nv.len();
    let support = str_chars("handy-support-sandbox-");
    let plain = str_chars("handy-sandbox-");
    let s1 = if crate::text::starts_with_sub(&nv, &support) {
        subvec(&nv, support.len(), n)
    } else {
        subvec(&nv, 0, n)
    };
    proof {
        assert(nv@.subrange(0, nv@.len() as int) =~= nv@);
    }
    let s2 = if crate::text::starts_with_sub(&s1, &plain) {
        subvec(&s1, plain.len(), s1.len())
    } else {
        subvec(&s1, 0, s1.len())
    };
    proof {
        assert(s1@.subrange(0, s1@.len() as int) =~= s1@);
    }
    parse_u32(&s2)
}

/// The issue number is among the active ones.
pub open spec fn among_active(actives: Seq<u32>, n: nat) -> bool {
    exists|i: int| 0 <= i < actives.len() && #[trigger] actives[i] as nat == n
}

/// The container is an orphan: its embedded issue number has no matching
/// live session, or its name embeds no number at all.
pub open spec fn orphan_pred(actives: Seq<u32>) -> spec_fn(Seq<char>) -> bool {
    |name: Seq<char>|
        match container_issue_spec(name) {
            Some(n) => !among_active(actives, n),
            None => true,
        }
}

/// One container an orphan cleanup pass will remove.
#[derive(Debug, Clone)]
pub struct OrphanTarget {
    /// Container name.
    pub container_name: String,
    /// Issue number embedded in the name, where it parses.
    pub issue_number: Option<u32>,
}

/// The names of a list of orphan targets.
pub open spec fn target_names(ts: Seq<OrphanTarget>) -> Seq<Seq<char>> {
    ts.map_values(|t: OrphanTarget| t.container_name@)
}

/// Plan an orphan cleanup pass: of the enumerated sandbox containers,
/// exactly those whose issue number has no matching active session — or
/// whose name embeds none — are removed. The pass is idempotent: it
/// depends only on what is enumerated and what is active.
pub fn plan_orphan_cleanup(
    container_names: &Vec<String>,
    active_issue_numbers: &Vec<u32>,
) -> (r: Vec<OrphanTarget>)
    ensures
        target_names(r@) == crate::seqs::filtered(
            crate::ports::string_views(container_names@),
            orphan_pred(active_issue_numbers@),
        ),
        forall|k: int|
            0 <= k < r@.len() ==> match container_issue_spec(
                (#[trigger] r@[k]).container_name@,
            ) {
                Some(n) => r@[k].issue_number == Some(n as u32),
                None => r@[k].issue_number is None,
            },
{
    let mut r: Vec<OrphanTarget> = Vec::new();
    let mut i: usize = 0;
    proof {
        assert(target_names(r@) =~= crate::seqs::filtered(
            crate::ports::string_views(container_names@.subrange(0, 0)),
            orphan_pred(active_issue_numbers@),
        ));
    }
    while i < container_names.len()
        invariant
            i <= container_names@.len(),
            target_names(r@) == crate::seqs::filtered(
                crate::ports::string_views(container_names@.subrange(0, i as int)),
                orphan_pred(active_issue_numbers@),
            ),
            forall|k: int|
                0 <= k < r@.len() ==> match container_issue_spec(
                    (#[trigger] r@[k]).container_name@,
                ) {
                    Some(n) => r@[k].issue_number == Some(n as u32),
                    None => r@[k].issue_number is None,
                },
        decreases container_names@.len() - i,
    {
        let ghost prev = target_names(r@);
        proof {
            assert(crate::ports::string_views(container_names@.subrange(0, i + 1)).drop_last()
                =~= crate::ports::string_views(container_names@.subrange(0, i as int)));
            assert(crate::ports::string_views(container_names@.subrange(0, i + 1)).last()
                == container_names@[i as int]@);
        }
        let name = &container_names[i];
        let num = container_issue_number(name.as_str());
        let orphan = match num {
            Some(n) => !has_active(active_issue_numbers, n),
            None => true,
        };
        proof {
            assert(orphan == orphan_pred(active_issue_numbers@)(container_names@[i as int]@));
        }
        if orphan {
            r.push(OrphanTarget { container_name: name.clone(), issue_number: num });
            proof {
                assert(target_names(r@) =~= prev.push(container_names@[i as int]@));
            }
        }
        i = i + 1;
    }
    proof {
        assert(container_names@.subrange(0, container_names@.len() as int) =~= container_names@);
    }
    r
}

/// The issue number has a matching active session.
fn has_active(actives: &Vec<u32>, n: u32) -> (r: bool)
    ensures
        r == among_active(actives@, n as nat),
{
    let mut i: usize = 0;
    while i < actives.len()
        invariant
            i <= actives@.len(),
            forall|k: int| 0 <= k < i ==> #[trigger] actives@[k] as nat != n as nat,
        decreases actives@.len() - i,
    {
        if actives[i] == n {
            return true;
        }
        i = i + 1;
    }
    false
}

/// The names of the targets whose removal succeeded, in order.
pub open spec fn removed_names_spec(
    targets: Seq<OrphanTarget>,
    outcomes: Seq<Option<String>>,
) -> Seq<String>
    decreases targets.len(),
{
    if targets.len() == 0 || outcomes.len() != targets.len() {
        Seq::empty()
    } else {
        let rest = removed_names_spec(targets.drop_last(), outcomes.drop_last());
        if outcomes.last() is None {
            rest.push(targets.last().container_name)
        } else {
            rest
        }
    }
}

/// The details of the targets whose removal succeeded, in order.
pub open spec fn cleaned_spec(
    targets: Seq<OrphanTarget>,
    outcomes: Seq<Option<String>>,
) -> Seq<CleanedOrphanInfo>
    decreases targets.len(),
{
    if targets.len() == 0 || outcomes.len() != targets.len() {
        Seq::empty()
    } else {
        let rest = cleaned_spec(targets.drop_last(), outcomes.drop_last());
        if outcomes.last() is None {
            rest.push(
                CleanedOrphanInfo {
                    container_name: targets.last().container_name,
                    issue_number: targets.last().issue_number,
                },
            )
        } else {
            rest
        }
    }
}

/// The error lines of the targets whose removal failed, in order: the
/// container name, a separator, and the reported error.
pub open spec fn error_views_spec(
    targets: Seq<OrphanTarget>,
    outcomes: Seq<Option<String>>,
) -> Seq<Seq<char>>
    decreases targets.len(),
{
    if targets.len() == 0 || outcomes.len() != targets.len() {
        Seq::empty()
    } else {
        let rest = error_views_spec(targets.drop_last(), outcomes.drop_last());
        match outcomes.last() {
            Some(err) => rest.push(targets.last().container_name@ + ": "@ + err@),
            None => rest,
        }
    }
}

/// Assemble the report of an orphan cleanup pass from the removal outcomes
/// the shell reports, one per target (`None` for a successful removal):
/// every successfully removed target is named, with its issue number, and
/// every failure is reported.
pub fn cleanup_orphaned_containers(
    targets: &Vec<OrphanTarget>,
    outcomes: &Vec<Option<String>>,
) -> (r: OrphanCleanupResult)
    requires
        outcomes@.len() == targets@.len(),
    ensures
        r.found == targets@.len(),
        r.removed == crate::seqs::count_where(outcomes@, |o: Option<String>| o is None),
        r.removed == r.removed_containers@.len(),
        r.removed_containers@ == removed_names_spec(targets@, outcomes@),
        r.cleaned_orphans@ == cleaned_spec(targets@, outcomes@),
        r.errors@.map_values(|e: String| e@) == error_views_spec(targets@, outcomes@),
        r.errors@.len() == targets@.len() - r.removed,
{
    let mut removed: usize = 0;
    let mut removed_containers: Vec<String> = Vec::new();
    let mut cleaned_orphans: Vec<CleanedOrphanInfo> = Vec::new();
    let mut errors: Vec<String> = Vec::new();
    let mut i: usize = 0;
    proof {
        assert(outcomes@.subrange(0, 0) =~= Seq::<Option<String>>::empty());
        assert(targets@.subrange(0, 0) =~= Seq::<OrphanTarget>::empty());
        assert(errors@.map_values(|e: String| e@) =~= Seq::<Seq<char>>::empty());
    }
    while i < targets.len()
        invariant
            outcomes@.len() == targets@.len(),
            i <= targets@.len(),
            removed == crate::seqs::count_where(
                outcomes@.subrange(0, i as int),
                |o: Option<String>| o is None,
            ),
            removed == removed_containers@.len(),
            removed == cleaned_orphans@.len(),
            removed_containers@ == removed_names_spec(
                targets@.subrange(0, i as int),
                outcomes@.subrange(0, i as int),
            ),
            cleaned_orphans@ == cleaned_spec(
                targets@.subrange(0, i as int),
                outcomes@.subrange(0, i as int),
            ),
            errors@.map_values(|e: String| e@) == error_views_spec(
                targets@.subrange(0, i as int),
                outcomes@.subrange(0, i as int),
            ),
            errors@.len() == i - removed,
            removed <= i,
        decreases targets@.len() - i,
    {
        proof {
            assert(outcomes@.subrange(0, i + 1).drop_last() =~= outcomes@.subrange(0, i as int));
            assert(outcomes@.subrange(0, i + 1).last() == outcomes@[i as int]);
            assert(targets@.subrange(0, i + 1).drop_last() =~= targets@.subrange(0, i as int));
            assert(targets@.subrange(0, i + 1).last() == targets@[i as int]);
        }
        let t = &targets[i];
        let ghost prev_errs = errors@.map_values(|e: String| e@);
        match &outcomes[i] {
            None => {
                removed = removed + 1;
                removed_containers.push(t.container_name.clone());
                cleaned_orphans.push(
                    CleanedOrphanInfo {
                        container_name: t.container_name.clone(),
                        issue_number: t.issue_number,
                    },
                );
            },
            Some(err) => {
                let mut e = str_chars(t.container_name.as_str());
                append_str(&mut e, ": ");
                append_str(&mut e, err.as_str());
                errors.push(chars_to_string(&e));
                proof {
                    assert(errors@.map_values(|e: String| e@) =~~= prev_errs.push(
                        targets@[i as int].container_name@ + ": "@ + outcomes@[i as int]->0@,
                    ));
                }
            },
        }
        i = i + 1;
    }
    proof {
        assert(outcomes@.subrange(0, outcomes@.len() as int) =~= outcomes@);
        assert(targets@.subrange(0, targets@.len() as int) =~= targets@);
    }
    OrphanCleanupResult {
        found: targets.len(),
        removed,
        removed_containers,
        cleaned_orphans,
        errors,
    }
}

// ------------------------------------------------------------------
// Credential redaction
// ------------------------------------------------------------------

/// A character that credential tokens are made of.
pub open spec fn is_token_char(c: char) -> bool {
    crate::lifecycle::is_word_char(c) || c == '-' || c == '.' || c == '/' || c == '+' || c == '='
}

/// Credential token characters.
pub open spec fn token_pred() -> spec_fn(char) -> bool {
    |c: char| is_token_char(c)
}

/// The length of the credential-looking marker the input begins with, or
/// `-1` where it begins with none.
pub open spec fn secret_prefix_len(s: Seq<char>) -> int {
    if is_match(s, "github_pat_"@, 0) {
        "github_pat_"@.len() as int
    } else if is_match(s, "GITHUB_TOKEN="@, 0) {
        "GITHUB_TOKEN="@.len() as int
    } else if is_match(s, "GH_TOKEN="@, 0) {
        "GH_TOKEN="@.len() as int
    } else if is_match(s, "API_KEY="@, 0) {
        "API_KEY="@.len() as int
    } else if is_match(s, "Bearer "@, 0) {
        "Bearer "@.len() as int
    } else if is_match(s, "ghp_"@, 0) {
        "ghp_"@.len() as int
    } else if is_match(s, "gho_"@, 0) {
        "gho_"@.len() as int
    } else if is_match(s, "sk-"@, 0) {
        "sk-"@.len() as int
    } else {
        -1
    }
}

/// The input with every credential-looking substring — a known marker and
/// the token run after it — replaced by a redaction mark. Redacting too
/// much is safe; leaking is not.
pub open spec fn redact_rec(s: Seq<char>) -> Seq<char>
    decreases s.len(),
    via redact_rec_decreases
{
    if s.len() == 0 {
        Seq::empty()
    } else {
        let p = secret_prefix_len(s);
        if p > 0 {
            let rest = s.subrange(p, s.len() as int);
            let run = crate::lifecycle::run_len(rest, token_pred());
            "[REDACTED]"@ + redact_rec(rest.subrange(run, rest.len() as int))
        } else {
            seq![s[0]] + redact_rec(s.subrange(1, s.len() as int))
        }
    }
}

#[via_fn]
proof fn redact_rec_decreases(s: Seq<char>) {
    if s.len() > 0 {
        let p = secret_prefix_len(s);
        if p > 0 {
            let rest = s.subrange(p, s.len() as int);
            crate::lifecycle::lemma_run_len_bounds(rest, token_pred());
        }
    }
}

/// The input with every occurrence of the home directory replaced by a
/// tilde, so no logged path leaks the account name.
pub open spec fn home_tilde_rec(s: Seq<char>, home: Seq<char>) -> Seq<char>
    decreases s.len(),
{
    if home.len() == 0 {
        s
    } else if s.len() == 0 {
        Seq::empty()
    } else if is_match(s, home, 0) {
        "~"@ + home_tilde_rec(s.subrange(home.len() as int, s.len() as int), home)
    } else {
        seq![s[0]] + home_tilde_rec(s.subrange(1, s.len() as int), home)
    }
}

/// What sanitizing leaves of the input: credentials redacted, then the
/// home directory hidden where one is known.
pub open spec fn sanitize_spec(content: Seq<char>, home: Option<Seq<char>>) -> Seq<char> {
    match home {
        Some(h) => if h.len() > 0 {
            home_tilde_rec(redact_rec(content), h)
        } else {
            redact_rec(content)
        },
        None => redact_rec(content),
    }
}

/// Scan past credential token characters.
fn scan_token(s: &Vec<char>, from: usize) -> (r: usize)
    requires
        from <= s@.len(),
    ensures
        from <= r <= s@.len(),
        crate::lifecycle::run_len(s@.subrange(from as int, s@.len() as int), token_pred()) == r
            - from,
{
    let mut i: usize = from;
    while i < s.len() && (is_token_char_exec(s[i]))
        invariant
            from <= i <= s@.len(),
            forall|k: int| from <= k < i ==> is_token_char(s@[k]),
        decreases s@.len() - i,
    {
        i = i + 1;
    }
    proof {
        let t = s@.subrange(from as int, s@.len() as int);
        assert forall|k: int| 0 <= k < i - from implies token_pred()(t[k]) by {
            assert(t[k] == s@[from + k]);
        }
        if i < s@.len() {
            assert(t[i - from] == s@[i as int]);
            assert(!token_pred()(t[i - from]));
        }
        crate::lifecycle::lemma_run_len_at(t, token_pred(), i - from);
    }
    i
}

fn is_token_char_exec(c: char) -> (r: bool)
    ensures
        r == is_token_char(c),
{
    ('a' <= c && c <= 'z') || ('A' <= c && c <= 'Z') || ('0' <= c && c <= '9') || c == '_' || c
        == '-' || c == '.' || c == '/' || c == '+' || c == '='
}

/// Sanitize tool output before logging or display: credential-looking
/// substrings are redacted and the home directory, where given, becomes a
/// tilde.
pub fn sanitize_sensitive_data(content: &str, home: Option<&str>) -> (r: String)
    ensures
        r@ == sanitize_spec(
            content@,
            match home {
                Some(h) => Some(h@),
                None => None,
            },
        ),
{
    let cv = str_chars(content);
    let redacted = redact_chars(&cv);
    match home {
        Some(h) => {
            let hv = str_chars(h);
            if hv.len() > 0 {
                let hidden = hide_home(&redacted, &hv);
                chars_to_string(&hidden)
            } else {
                chars_to_string(&redacted)
            }
        },
        None => chars_to_string(&redacted),
    }
}

/// Redact every credential-looking substring.
fn redact_chars(s: &Vec<char>) -> (r: Vec<char>)
    ensures
        r@ == redact_rec(s@),
{
    let p1 = str_chars("github_pat_");
    let p2 = str_chars("GITHUB_TOKEN=");
    let p3 = str_chars("GH_TOKEN=");
    let p4 = str_chars("API_KEY=");
    let p5 = str_chars("Bearer ");
    let p6 = str_chars("ghp_");
    let p7 = str_chars("gho_");
    let p8 = str_chars("sk-");
    proof {
        reveal_strlit("github_pat_");
        reveal_strlit("GITHUB_TOKEN=");
        reveal_strlit("GH_TOKEN=");
        reveal_strlit("API_KEY=");
        reveal_strlit("Bearer ");
        reveal_strlit("ghp_");
        reveal_strlit("gho_");
        reveal_strlit("sk-");
    }
    let mut out: Vec<char> = Vec::new();
    let mut i: usize = 0;
    let n: usize = s.len();
    proof {
        assert(s@.subrange(0, s@.len() as int) =~= s@);
        assert(out@ + redact_rec(s@) =~= redact_rec(s@));
    }
    while i < n
        invariant
            n == s@.len(),
            i <= n,
            p1@ == "github_pat_"@ && p2@ == "GITHUB_TOKEN="@ && p3@ == "GH_TOKEN="@,
            p4@ == "API_KEY="@ && p5@ == "Bearer "@ && p6@ == "ghp_"@,
            p7@ == "gho_"@ && p8@ == "sk-"@,
            out@ + redact_rec(s@.subrange(i as int, s@.len() as int)) == redact_rec(s@),
        decreases n - i,
    {
        let ghost rest = s@.subrange(i as int, s@.len() as int);
        let ghost prev = out@;
        proof {
            reveal_strlit("github_pat_");
            reveal_strlit("GITHUB_TOKEN=");
            reveal_strlit("GH_TOKEN=");
            reveal_strlit("API_KEY=");
            reveal_strlit("Bearer ");
            reveal_strlit("ghp_");
            reveal_strlit("gho_");
            reveal_strlit("sk-");
            assert(rest[0] == s@[i as int]);
            assert(rest.subrange(1, rest.len() as int) =~= s@.subrange(i + 1, s@.len() as int));
            crate::text::lemma_match_shift_to(s@, p1@, i as int);
            crate::text::lemma_match_shift_to(s@, p2@, i as int);
            crate::text::lemma_match_shift_to(s@, p3@, i as int);
            crate::text::lemma_match_shift_to(s@, p4@, i as int);
            crate::text::lemma_match_shift_to(s@, p5@, i as int);
            crate::text::lemma_match_shift_to(s@, p6@, i as int);
            crate::text::lemma_match_shift_to(s@, p7@, i as int);
            crate::text::lemma_match_shift_to(s@, p8@, i as int);
        }
        let matched: usize = if crate::text::match_at(s, &p1, i) {
            p1.len()
        } else if crate::text::match_at(s, &p2, i) {
            p2.len()
        } else if crate::text::match_at(s, &p3, i) {
            p3.len()
        } else if crate::text::match_at(s, &p4, i) {
            p4.len()
        } else if crate::text::match_at(s, &p5, i) {
            p5.len()
        } else if crate::text::match_at(s, &p6, i) {
            p6.len()
        } else if crate::text::match_at(s, &p7, i) {
            p7.len()
        } else if crate::text::match_at(s, &p8, i) {
            p8.len()
        } else {
            0
        };
        if matched > 0 {
            proof {
                assert(matched as int == secret_prefix_len(rest));
            }
            crate::text::append_str(&mut out, "[REDACTED]");
            let run_end = scan_token(s, i + matched);
            proof {
                let rr = rest.subrange(matched as int, rest.len() as int);
                assert(rr =~= s@.subrange(i + matched, s@.len() as int));
                assert(rr.subrange(
                    crate::lifecycle::run_len(rr, token_pred()),
                    rr.len() as int,
                ) =~= s@.subrange(run_end as int, s@.len() as int));
                assert(out@ =~= prev + "[REDACTED]"@);
            }
            i = run_end;
        } else {
            proof {
                assert(secret_prefix_len(rest) == -1);
            }
            out.push(s[i]);
            proof {
                assert(out@ =~= prev + seq![rest[0]]);
            }
            i = i + 1;
        }
    }
    proof {
        assert(s@.subrange(s@.len() as int, s@.len() as int) =~= Seq::<char>::empty());
        assert(out@ + Seq::<char>::empty() =~= out@);
    }
    out
}

/// Replace every occurrence of the home directory by a tilde.
fn hide_home(s: &Vec<char>, home: &Vec<char>) -> (r: Vec<char>)
    requires
        home@.len() > 0,
    ensures
        r@ == home_tilde_rec(s@, home@),
{
    let mut out: Vec<char> = Vec::new();
    let mut i: usize = 0;
    let n: usize = s.len();
    proof {
        assert(s@.subrange(0, s@.len() as int) =~= s@);
        assert(out@ + home_tilde_rec(s@, home@) =~= home_tilde_rec(s@, home@));
    }
    while i < n
        invariant
            n == s@.len(),
            home@.len() > 0,
            i <= n,
            out@ + home_tilde_rec(s@.subrange(i as int, s@.len() as int), home@)
                == home_tilde_rec(s@, home@),
        decreases n - i,
    {
        let ghost rest = s@.subrange(i as int, s@.len() as int);
        let ghost prev = out@;
        proof {
            assert(rest[0] == s@[i as int]);
            assert(rest.subrange(1, rest.len() as int) =~= s@.subrange(i + 1, s@.len() as int));
            crate::text::lemma_match_shift_to(s@, home@, i as int);
        }
        if crate::text::match_at(s, home, i) {
            proof {
                let rr = rest;
                assert(rr.subrange(0, home@.len() as int) =~= s@.subrange(
                    i as int,
                    i + home@.len(),
                ));
                assert(crate::text::is_match(rr, home@, 0));
                assert(rr.subrange(home@.len() as int, rr.len() as int) =~= s@.subrange(
                    i + home@.len(),
                    s@.len() as int,
                ));
            }
            out.push('~');
            proof {
                assert(out@ =~= prev + "~"@) by {
                    reveal_strlit("~");
                }
                let tail_rec = home_tilde_rec(
                    s@.subrange(i + home@.len(), s@.len() as int),
                    home@,
                );
                assert((prev + "~"@) + tail_rec =~= prev + ("~"@ + tail_rec));
            }
            i = i + home.len();
        } else {
            out.push(s[i]);
            proof {
                assert(out@ =~= prev + seq![rest[0]]);
                let tail_rec = home_tilde_rec(s@.subrange(i + 1, s@.len() as int), home@);
                assert((prev + seq![rest[0]]) + tail_rec =~= prev + (seq![rest[0]] + tail_rec));
            }
            i = i + 1;
        }
    }
    proof {
        assert(s@.subrange(s@.len() as int, s@.len() as int) =~= Seq::<char>::empty());
        assert(out@ + Seq::<char>::empty() =~= out@);
    }
    out
}

// ------------------------------------------------------------------
// The sandboxed agent command
// ------------------------------------------------------------------

/// The command run inside a direct sandbox container: only the coder and
/// aider agents support sandboxed execution.
pub open spec fn sandbox_command_spec(
    agent_type: Seq<char>,
    repo: Seq<char>,
    issue_number: u64,
    auto_accept: bool,
) -> Option<Seq<char>> {
    let at = crate::text::lower_spec(agent_type);
    let issue = repo + "#"@ + dec_spec(issue_number as nat);
    if at == "coder"@ {
        Some(
            if auto_accept {
                "coder --dangerously-skip-permissions 'Work on GitHub issue "@ + issue
                    + ": Implement the requirements described in the issue. When done, commit your changes and create a PR.'"@
            } else {
                "coder 'Work on GitHub issue "@ + issue
                    + ": Implement the requirements described in the issue. When done, commit your changes and create a PR.'"@
            },
        )
    } else if at == "aider"@ {
        Some(
            if auto_accept {
                "aider --yes-always --message 'Work on GitHub issue "@ + issue
                    + ". Implement the requirements and commit when done.'"@
            } else {
                "aider --message 'Work on GitHub issue "@ + issue
                    + ". Implement the requirements and commit when done.'"@
            },
        )
    } else {
        None
    }
}

/// Build the command a sandboxed agent runs, for the agent types that
/// support sandboxed execution.
pub fn build_sandboxed_agent_command(
    agent_type: &str,
    repo: &str,
    issue_number: u64,
    auto_accept: bool,
) -> (r: Result<String, String>)
    ensures
        match r {
            Ok(c) => sandbox_command_spec(agent_type@, repo@, issue_number, auto_accept) == Some(
                c@,
            ),
            Err(e) => sandbox_command_spec(agent_type@, repo@, issue_number, auto_accept)
                is None && e@ == "Agent type '"@ + agent_type@
                + "' is not supported for sandboxed execution. Supported: coder, aider"@,
        },
{
    let atv = str_chars(agent_type);
    let at = crate::text::lower_chars(&atv);
    let mut issue = str_chars(repo);
    append_str(&mut issue, "#");
    push_dec_u64(issue_number, &mut issue);
    if crate::text::chars_eq_str(&at, "coder") {
        let mut v = if auto_accept {
            str_chars("coder --dangerously-skip-permissions 'Work on GitHub issue ")
        } else {
            str_chars("coder 'Work on GitHub issue ")
        };
        append_chars(&mut v, &issue);
        append_str(
            &mut v,
            ": Implement the requirements described in the issue. When done, commit your changes and create a PR.'",
        );
        Ok(chars_to_string(&v))
    } else if crate::text::chars_eq_str(&at, "aider") {
        let mut v = if auto_accept {
            str_chars("aider --yes-always --message 'Work on GitHub issue ")
        } else {
            str_chars("aider --message 'Work on GitHub issue ")
        };
        append_chars(&mut v, &issue);
        append_str(&mut v, ". Implement the requirements and commit when done.'");
        Ok(chars_to_string(&v))
    } else {
        let mut e = str_chars("Agent type '");
        append_str(&mut e, agent_type);
        append_str(&mut e, "' is not supported for sandboxed execution. Supported: coder, aider");
        Err(chars_to_string(&e))
    }
}

// ------------------------------------------------------------------
// The container run arguments
// ------------------------------------------------------------------

/// The names a stale container for the issue may carry; the shell removes
/// any of these before spawning, since containers are cheap to recreate.
pub fn stale_container_candidates(issue_number: u64) -> (r: Vec<String>)
    ensures
        r@.len() == 2,
        r@[0]@ == "handy-sandbox-"@ + dec_spec(issue_number as nat),
        r@[1]@ == "handy-support-sandbox-"@ + dec_spec(issue_number as nat),
{
    let mut r: Vec<String> = Vec::new();
    r.push(crate::names::container_name_for_issue(issue_number));
    let mut v = str_chars("handy-support-sandbox-");
    push_dec_u64(issue_number, &mut v);
    r.push(chars_to_string(&v));
    r
}

/// The setup script run inside a fresh sandbox container: it creates a
/// non-root user, copies the mounted credentials to that user's home,
/// installs the agent tool, and replaces itself with the agent command as
/// that user.
pub open spec fn setup_script_spec(agent_cmd: Seq<char>) -> Seq<char> {
    "set -e
if id agent >/dev/null 2>&1; then :; else useradd -m -s /bin/bash agent 2>/dev/null || true; fi
mkdir -p /home/agent/.config /home/agent/.coder
if [ -d /tmp/coder-auth ]; then cp -r /tmp/coder-auth/. /home/agent/.coder/ 2>/dev/null || true; fi
if [ -d /tmp/host-auth/.config/gh ]; then mkdir -p /home/agent/.config/gh && cp -r /tmp/host-auth/.config/gh/. /home/agent/.config/gh/ 2>/dev/null || true; fi
chown -R agent:agent /home/agent /workspace 2>/dev/null || true
apt-get update >/dev/null 2>&1 && apt-get install -y gh gosu >/dev/null 2>&1 || true
npm install -g coder-cli >/dev/null 2>&1 || true
CODER_CMD='"@ + crate::text::squote_escaped(agent_cmd) + "'
exec gosu agent sh -c \"cd /workspace && $CODER_CMD\"
"@
}

/// Build the setup script that wraps the agent command.
pub fn build_nonroot_setup_script(agent_cmd: &str) -> (r: String)
    ensures
        r@ == setup_script_spec(agent_cmd@),
{
    let mut v = str_chars(
        "set -e
if id agent >/dev/null 2>&1; then :; else useradd -m -s /bin/bash agent 2>/dev/null || true; fi
mkdir -p /home/agent/.config /home/agent/.coder
if [ -d /tmp/coder-auth ]; then cp -r /tmp/coder-auth/. /home/agent/.coder/ 2>/dev/null || true; fi
if [ -d /tmp/host-auth/.config/gh ]; then mkdir -p /home/agent/.config/gh && cp -r /tmp/host-auth/.config/gh/. /home/agent/.config/gh/ 2>/dev/null || true; fi
chown -R agent:agent /home/agent /workspace 2>/dev/null || true
apt-get update >/dev/null 2>&1 && apt-get install -y gh gosu >/dev/null 2>&1 || true
npm install -g coder-cli >/dev/null 2>&1 || true
CODER_CMD='",
    );
    let cv = str_chars(agent_cmd);
    let esc = crate::text::escape_squotes(&cv);
    append_chars(&mut v, &esc);
    append_str(
        &mut v,
        "'
exec gosu agent sh -c \"cd /workspace && $CODER_CMD\"
",
    );
    chars_to_string(&v)
}

/// The resolved container image: the configured one, or the stock image.
pub open spec fn sandbox_image_spec(image: Option<String>) -> Seq<char> {
    match image {
        Some(im) => im@,
        None => "node:20-bookworm"@,
    }
}

/// The resolved network mode: the configured one, or the default bridge.
pub open spec fn sandbox_network_spec(mode: Option<String>) -> Seq<char> {
    match mode {
        Some(m) => m@,
        None => "bridge"@,
    }
}

/// The view of an optional string slice.
pub open spec fn opt_view(s: Option<&str>) -> Option<Seq<char>> {
    match s {
        Some(t) => Some(t@),
        None => None,
    }
}

/// The argument list of one sandbox container launch: detached run under
/// the deterministic name, the worktree mounted as the workspace, the
/// credential volume and optional host tracker auth mounted read-only,
/// resource limits and network mode, credentials and issue context in the
/// environment, then the image and the wrapped agent command.
pub open spec fn sandbox_args_spec(
    config: SandboxConfig,
    repo: Seq<char>,
    issue_number: u64,
    gh_token: Option<Seq<char>>,
    api_key: Option<Seq<char>>,
    host_gh_dir: Option<Seq<char>>,
    agent_cmd: Seq<char>,
) -> Seq<Seq<char>> {
    seq![
        "run"@,
        "-d"@,
        "--name"@,
        "handy-sandbox-"@ + dec_spec(issue_number as nat),
        "-v"@,
        config.workdir@ + ":/workspace"@,
        "-w"@,
        "/workspace"@,
        "-v"@,
        "handy-coder-auth:/tmp/coder-auth:ro"@,
    ] + (match host_gh_dir {
        Some(d) => seq!["-v"@, d + ":/tmp/host-auth/.config/gh:ro"@],
        None => Seq::empty(),
    }) + (match config.memory_limit {
        Some(m) => seq!["-m"@, m@],
        None => Seq::empty(),
    }) + (match config.cpu_limit {
        Some(c) => seq!["--cpus"@, c@],
        None => Seq::empty(),
    }) + seq!["--network"@, sandbox_network_spec(config.network_mode)] + (match gh_token {
        Some(tk) => seq!["-e"@, "GH_TOKEN="@ + tk, "-e"@, "GITHUB_TOKEN="@ + tk],
        None => Seq::empty(),
    }) + (match api_key {
        Some(k) => seq!["-e"@, "CODER_API_KEY="@ + k],
        None => Seq::empty(),
    }) + seq![
        "-e"@,
        "HANDY_ISSUE_REF="@ + config.issue_ref@,
        "-e"@,
        "HANDY_AGENT_TYPE="@ + config.agent_type@,
        sandbox_image_spec(config.image),
        "sh"@,
        "-c"@,
        setup_script_spec(agent_cmd),
    ]
}

/// Build the full container-run argument list for one sandboxed agent.
/// The tokens and the host auth directory are what the shell resolved; the
/// issue reference and agent type come from the configuration. Fails
/// exactly where the issue reference does not parse or the agent type has
/// no sandboxed command.
#[verifier::rlimit(100)]
pub fn build_sandbox_run_args(
    config: &SandboxConfig,
    gh_token: Option<&str>,
    api_key: Option<&str>,
    host_gh_dir: Option<&str>,
) -> (r: Result<Vec<String>, String>)
    ensures
        (match r {
            Ok(args) => crate::names::issue_ref_spec(config.issue_ref@) matches Some(p) && (
            sandbox_command_spec(
                config.agent_type@,
                p.0,
                p.1 as u64,
                config.auto_accept,
            ) matches Some(cmd) && crate::ports::string_views(args@) == sandbox_args_spec(
                *config,
                p.0,
                p.1 as u64,
                opt_view(gh_token),
                opt_view(api_key),
                opt_view(host_gh_dir),
                cmd,
            )),
            Err(e) => e@.len() > 0 && (crate::names::issue_ref_spec(config.issue_ref@) is None || (
            crate::names::issue_ref_spec(config.issue_ref@) matches Some(p)
                && sandbox_command_spec(
                config.agent_type@,
                p.0,
                p.1 as u64,
                config.auto_accept,
            ) is None)),
        }),
{
    let (repo, issue_number) = match crate::names::parse_issue_ref(config.issue_ref.as_str()) {
        Ok(p) => p,
        Err(e) => {
            return Err(e);
        },
    };
    let agent_cmd = match build_sandboxed_agent_command(
        config.agent_type.as_str(),
        repo.as_str(),
        issue_number,
        config.auto_accept,
    ) {
        Ok(c) => c,
        Err(e) => {
            proof {
                reveal_strlit("Agent type '");
            }
            return Err(e);
        },
    };
    let mut args: Vec<String> = Vec::new();
    args.push(string_of("run"));
    args.push(string_of("-d"));
    args.push(string_of("--name"));
    args.push(crate::names::container_name_for_issue(issue_number));
    args.push(string_of("-v"));
    let mut ws = str_chars(config.workdir.as_str());
    append_str(&mut ws, ":/workspace");
    args.push(chars_to_string(&ws));
    args.push(string_of("-w"));
    args.push(string_of("/workspace"));
    args.push(string_of("-v"));
    args.push(string_of("handy-coder-auth:/tmp/coder-auth:ro"));
    match host_gh_dir {
        Some(d) => {
            args.push(string_of("-v"));
            let mut m = str_chars(d);
            append_str(&mut m, ":/tmp/host-auth/.config/gh:ro");
            args.push(chars_to_string(&m));
        },
        None => {},
    }
    match &config.memory_limit {
        Some(m) => {
            args.push(string_of("-m"));
            args.push(m.clone());
        },
        None => {},
    }
    match &config.cpu_limit {
        Some(c) => {
            args.push(string_of("--cpus"));
            args.push(c.clone());
        },
        None => {},
    }
    args.push(string_of("--network"));
    match &config.network_mode {
        Some(m) => args.push(m.clone()),
        None => args.push(string_of("bridge")),
    }
    match gh_token {
        Some(tk) => {
            args.push(string_of("-e"));
            let mut e1 = str_chars("GH_TOKEN=");
            append_str(&mut e1, tk);
            args.push(chars_to_string(&e1));
            args.push(string_of("-e"));
            let mut e2 = str_chars("GITHUB_TOKEN=");
            append_str(&mut e2, tk);
            args.push(chars_to_string(&e2));
        },
        None => {},
    }
    match api_key {
        Some(k) => {
            args.push(string_of("-e"));
            let mut e3 = str_chars("CODER_API_KEY=");
            append_str(&mut e3, k);
            args.push(chars_to_string(&e3));
        },
        None => {},
    }
    args.push(string_of("-e"));
    let mut ir = str_chars("HANDY_ISSUE_REF=");
    append_str(&mut ir, config.issue_ref.as_str());
    args.push(chars_to_string(&ir));
    args.push(string_of("-e"));
    let mut at = str_chars("HANDY_AGENT_TYPE=");
    append_str(&mut at, config.agent_type.as_str());
    args.push(chars_to_string(&at));
    match &config.image {
        Some(im) => args.push(im.clone()),
        None => args.push(string_of("node:20-bookworm")),
    }
    args.push(string_of("sh"));
    args.push(string_of("-c"));
    args.push(build_nonroot_setup_script(agent_cmd.as_str()));
    proof {
        let p = crate::names::issue_ref_spec(config.issue_ref@)->Some_0;
        assert(crate::ports::string_views(args@) =~~= sandbox_args_spec(
            *config,
            p.0,
            p.1 as u64,
            opt_view(gh_token),
            opt_view(api_key),
            opt_view(host_gh_dir),
            agent_cmd@,
        ));
    }
    Ok(args)
}

} // verus!
