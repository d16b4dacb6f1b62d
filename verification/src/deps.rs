//! Dependency detection: which required command-line tools are present.
//!
//! The shell probes each tool — does it resolve, what does its version
//! command print, is it authenticated — and the aggregation here decides
//! what is available and whether the whole feature set is satisfied:
//! the tracker tool, the session tool, and at least one agent.

use crate::text::{chars_to_string, is_space, str_chars, string_of, subvec, trim_char_end};
use vstd::prelude::*;

verus! {

/// Status of one dependency.
#[derive(Debug, Clone)]
pub struct DependencyStatus {
    /// Name of the tool.
    pub name: String,
    /// The tool is installed.
    pub installed: bool,
    /// The tool is authenticated, where it needs auth.
    pub authenticated: Option<bool>,
    /// Account name, where authenticated.
    pub auth_user: Option<String>,
    /// Where to read about authenticating, where it needs auth.
    pub auth_hint_url: Option<String>,
    /// Version, where installed.
    pub version: Option<String>,
    /// Path of the executable, where installed.
    pub path: Option<String>,
    /// How to install the tool.
    pub install_hint: String,
}

/// Status of all dependencies.
#[derive(Debug, Clone)]
pub struct DevOpsDependencies {
    /// Tracker command-line tool, required.
    pub gh: DependencyStatus,
    /// Session tool, required.
    pub tmux: DependencyStatus,
    /// Primary agent tool.
    pub coder: DependencyStatus,
    /// Alternative agent tool.
    pub aider: DependencyStatus,
    /// Alternative agent tool.
    pub gemini: DependencyStatus,
    /// Local model server.
    pub ollama: DependencyStatus,
    /// Inference server.
    pub vllm: DependencyStatus,
    /// Tracker and session tools present, and at least one agent.
    pub all_satisfied: bool,
    /// Agent types that are installed.
    pub available_agents: Vec<String>,
}

/// What probing one tool found.
#[derive(Debug, Clone)]
pub struct CommandProbe {
    /// The tool resolved on the search path.
    pub installed: bool,
    /// First line its version command printed, where installed.
    pub version_line: Option<String>,
    /// Path of the executable, where installed.
    pub path: Option<String>,
}

/// What probing a tool's authentication found.
#[derive(Debug, Clone)]
pub struct AuthProbe {
    /// The tool is authenticated.
    pub authenticated: bool,
    /// Account name, where one was reported.
    pub user: Option<String>,
}

/// What the shell probed for every tool.
#[derive(Debug, Clone)]
pub struct DependencyProbes {
    pub gh: CommandProbe,
    pub gh_auth: AuthProbe,
    pub tmux: CommandProbe,
    pub coder: CommandProbe,
    pub coder_auth: AuthProbe,
    pub aider: CommandProbe,
    pub gemini: CommandProbe,
    pub ollama: CommandProbe,
    pub vllm: CommandProbe,
}

/// Helper for [`tokens_spec`]: fold over the input, building the
/// whitespace-separated tokens.
pub open spec fn tokens_rec(s: Seq<char>, cur: Seq<char>, acc: Seq<Seq<char>>) -> Seq<Seq<char>>
    decreases s.len(),
{
    if s.len() == 0 {
        if cur.len() == 0 {
            acc
        } else {
            acc.push(cur)
        }
    } else if is_space(s[0]) {
        tokens_rec(
            s.subrange(1, s.len() as int),
            Seq::empty(),
            if cur.len() == 0 {
                acc
            } else {
                acc.push(cur)
            },
        )
    } else {
        tokens_rec(s.subrange(1, s.len() as int), cur.push(s[0]), acc)
    }
}

/// The whitespace-separated tokens of the input.
pub open spec fn tokens_spec(s: Seq<char>) -> Seq<Seq<char>> {
    tokens_rec(s, Seq::empty(), Seq::empty())
}

/// Split the input into whitespace-separated tokens.
pub fn split_tokens(s: &Vec<char>) -> (r: Vec<Vec<char>>)
    ensures
        r.deep_view() == tokens_spec(s@),
{
    let mut acc: Vec<Vec<char>> = Vec::new();
    let mut cur: Vec<char> = Vec::new();
    let mut i: usize = 0;
    proof {
        assert(s@.subrange(0, s@.len() as int) =~= s@);
        assert(acc.deep_view() =~~= Seq::<Seq<char>>::empty());
        assert(cur@ =~= Seq::<char>::empty());
    }
    while i < s.len()
        invariant
            i <= s@.len(),
            tokens_rec(s@.subrange(i as int, s@.len() as int), cur@, acc.deep_view())
                == tokens_spec(s@),
        decreases s@.len() - i,
    {
        let ghost rest = s@.subrange(i as int, s@.len() as int);
        let ghost prev_acc = acc.deep_view();
        let ghost prev_cur = cur@;
        proof {
            assert(rest[0] == s@[i as int]);
            assert(rest.subrange(1, rest.len() as int) =~= s@.subrange(i + 1, s@.len() as int));
        }
        let c = s[i];
        if crate::text::is_space_char(c) {
            if cur.len() > 0 {
                acc.push(cur);
                cur = Vec::new();
                proof {
                    assert(acc.deep_view() =~~= prev_acc.push(prev_cur));
                    assert(cur@ =~= Seq::<char>::empty());
                }
            } else {
                proof {
                    assert(cur@ =~= Seq::<char>::empty());
                }
            }
        } else {
            cur.push(c);
            proof {
                assert(acc.deep_view() =~~= prev_acc);
            }
        }
        i = i + 1;
    }
    proof {
        assert(s@.subrange(s@.len() as int, s@.len() as int) =~= Seq::<char>::empty());
    }
    if cur.len() > 0 {
        let ghost prev_acc = acc.deep_view();
        acc.push(cur);
        proof {
            assert(acc.deep_view() =~~= prev_acc.push(cur@));
        }
    }
    acc
}

/// The version in tracker-tool output: the third token, trailing commas
/// removed.
pub open spec fn gh_version_spec(line: Seq<char>) -> Option<Seq<char>> {
    let ts = tokens_spec(line);
    if ts.len() > 2 {
        Some(trim_char_end(ts[2], ','))
    } else {
        None
    }
}

/// The version in session-tool output: the second token.
pub open spec fn tmux_version_spec(line: Seq<char>) -> Option<Seq<char>> {
    let ts = tokens_spec(line);
    if ts.len() > 1 {
        Some(ts[1])
    } else {
        None
    }
}

/// The version in local-model-server output: the first token starting with
/// a digit.
pub open spec fn ollama_version_spec(line: Seq<char>) -> Option<Seq<char>>
    decreases line.len(),
{
    digit_token(tokens_spec(line))
}

/// The first token starting with a digit.
pub open spec fn digit_token(ts: Seq<Seq<char>>) -> Option<Seq<char>>
    decreases ts.len(),
{
    if ts.len() == 0 {
        None
    } else if ts[0].len() > 0 && crate::text::is_digit(ts[0][0]) {
        Some(ts[0])
    } else {
        digit_token(ts.subrange(1, ts.len() as int))
    }
}

/// Parse the tracker tool's version from its version line.
fn parse_gh_version(line: &str) -> (r: Option<String>)
    ensures
        match r {
            Some(v) => gh_version_spec(line@) == Some(v@),
            None => gh_version_spec(line@) is None,
        },
{
    let lv = str_chars(line);
    let ts = split_tokens(&lv);
    if ts.len() > 2 {
        proof {
            assert(ts.deep_view()[2] == ts@[2]@);
        }
        let stripped = strip_trailing_commas(&ts[2]);
        Some(chars_to_string(&stripped))
    } else {
        None
    }
}

/// Remove trailing commas.
fn strip_trailing_commas(v: &Vec<char>) -> (r: Vec<char>)
    ensures
        r@ == trim_char_end(v@, ','),
{
    let mut b: usize = v.len();
    while b > 0 && v[b - 1] == ','
        invariant
            b <= v@.len(),
            forall|k: int| b <= k < v@.len() ==> v@[k] == ',',
        decreases b,
    {
        b = b - 1;
    }
    proof {
        lemma_trim_comma_end(v@, b as int);
    }
    subvec(v, 0, b)
}

proof fn lemma_trim_comma_end(s: Seq<char>, b: int)
    requires
        0 <= b <= s.len(),
        forall|k: int| b <= k < s.len() ==> s[k] == ',',
        b > 0 ==> s[b - 1] != ',',
    ensures
        trim_char_end(s, ',') == s.subrange(0, b),
    decreases s.len() - b,
{
    if b == s.len() {
        assert(s.subrange(0, s.len() as int) =~= s);
    } else {
        let t = s.subrange(0, s.len() - 1);
        lemma_trim_comma_end(t, b);
        assert(t.subrange(0, b) =~= s.subrange(0, b));
    }
}

/// Parse the session tool's version from its version line.
fn parse_tmux_version(line: &str) -> (r: Option<String>)
    ensures
        match r {
            Some(v) => tmux_version_spec(line@) == Some(v@),
            None => tmux_version_spec(line@) is None,
        },
{
    let lv = str_chars(line);
    let ts = split_tokens(&lv);
    if ts.len() > 1 {
        proof {
            assert(ts.deep_view()[1] == ts@[1]@);
        }
        Some(chars_to_string(&ts[1]))
    } else {
        None
    }
}

/// Parse the local model server's version: the first numeric token.
fn parse_ollama_version(line: &str) -> (r: Option<String>)
    ensures
        match r {
            Some(v) => ollama_version_spec(line@) == Some(v@),
            None => ollama_version_spec(line@) is None,
        },
{
    let lv = str_chars(line);
    let ts = split_tokens(&lv);
    let ghost tv = ts.deep_view();
    let mut i: usize = 0;
    proof {
        assert(tv.subrange(0, tv.len() as int) =~= tv);
    }
    while i < ts.len()
        invariant
            i <= ts@.len(),
            tv == ts.deep_view(),
            tv == tokens_spec(line@),
            digit_token(tv) == digit_token(tv.subrange(i as int, tv.len() as int)),
        decreases ts@.len() - i,
    {
        let ghost rest = tv.subrange(i as int, tv.len() as int);
        proof {
            assert(rest[0] == tv[i as int]);
            assert(tv[i as int] == ts@[i as int]@);
            assert(rest.subrange(1, rest.len() as int) =~= tv.subrange(i + 1, tv.len() as int));
        }
        let tok = &ts[i];
        if tok.len() > 0 && tok[0] >= '0' && tok[0] <= '9' {
            proof {
                assert(digit_token(rest) == Some(tv[i as int]));
            }
            return Some(chars_to_string(tok));
        }
        proof {
            assert(!(rest[0].len() > 0 && crate::text::is_digit(rest[0][0])));
        }
        i = i + 1;
    }
    proof {
        assert(tv.subrange(tv.len() as int, tv.len() as int) =~= Seq::<Seq<char>>::empty());
    }
    None
}

/// The agents the probes found installed, in the fixed order.
pub open spec fn agents_list(
    coder: bool,
    aider: bool,
    gemini: bool,
    ollama: bool,
    vllm: bool,
) -> Seq<Seq<char>> {
    (if coder {
        seq!["coder"@]
    } else {
        Seq::empty()
    }) + (if aider {
        seq!["aider"@]
    } else {
        Seq::empty()
    }) + (if gemini {
        seq!["gemini"@]
    } else {
        Seq::empty()
    }) + (if ollama {
        seq!["ollama"@]
    } else {
        Seq::empty()
    }) + (if vllm {
        seq!["vllm"@]
    } else {
        Seq::empty()
    })
}

/// Aggregate all dependency probes: each tool's status with its parsed
/// version and hints, the list of installed agents, and whether the whole
/// feature set is satisfied — the tracker tool, the session tool and at
/// least one agent.
pub fn check_all_dependencies(probes: &DependencyProbes) -> (r: DevOpsDependencies)
    ensures
        r.gh.name@ == "gh"@,
        r.gh.installed == probes.gh.installed,
        r.tmux.name@ == "tmux"@,
        r.tmux.installed == probes.tmux.installed,
        r.coder.name@ == "coder"@,
        r.coder.installed == probes.coder.installed,
        r.aider.name@ == "aider"@,
        r.aider.installed == probes.aider.installed,
        r.gemini.name@ == "gemini"@,
        r.gemini.installed == probes.gemini.installed,
        r.ollama.name@ == "ollama"@,
        r.ollama.installed == probes.ollama.installed,
        r.vllm.name@ == "vllm"@,
        r.vllm.installed == probes.vllm.installed,
        probes.gh.installed ==> r.gh.authenticated == Some(probes.gh_auth.authenticated),
        !probes.gh.installed ==> r.gh.authenticated is None,
        probes.coder.installed ==> r.coder.authenticated == Some(
            probes.coder_auth.authenticated,
        ),
        !probes.coder.installed ==> r.coder.authenticated is None,
        r.available_agents@.map_values(|s: String| s@) == agents_list(
            probes.coder.installed,
            probes.aider.installed,
            probes.gemini.installed,
            probes.ollama.installed,
            probes.vllm.installed,
        ),
        r.all_satisfied == (probes.gh.installed && probes.tmux.installed && agents_list(
            probes.coder.installed,
            probes.aider.installed,
            probes.gemini.installed,
            probes.ollama.installed,
            probes.vllm.installed,
        ).len() > 0),
{
    let gh_version = match &probes.gh.version_line {
        Some(l) => parse_gh_version(l.as_str()),
        None => None,
    };
    let tmux_version = match &probes.tmux.version_line {
        Some(l) => parse_tmux_version(l.as_str()),
        None => None,
    };
    let ollama_version = match &probes.ollama.version_line {
        Some(l) => parse_ollama_version(l.as_str()),
        None => None,
    };
    let gh = DependencyStatus {
        name: string_of("gh"),
        installed: probes.gh.installed,
        authenticated: if probes.gh.installed {
            Some(probes.gh_auth.authenticated)
        } else {
            None
        },
        auth_user: crate::text::clone_opt_string(&probes.gh_auth.user),
        auth_hint_url: Some(string_of("https://kbve.com/application/git#gh")),
        version: gh_version,
        path: crate::text::clone_opt_string(&probes.gh.path),
        install_hint: string_of("brew install gh"),
    };
    let tmux = DependencyStatus {
        name: string_of("tmux"),
        installed: probes.tmux.installed,
        authenticated: None,
        auth_user: None,
        auth_hint_url: None,
        version: tmux_version,
        path: crate::text::clone_opt_string(&probes.tmux.path),
        install_hint: string_of("brew install tmux"),
    };
    let coder = DependencyStatus {
        name: string_of("coder"),
        installed: probes.coder.installed,
        authenticated: if probes.coder.installed {
            Some(probes.coder_auth.authenticated)
        } else {
            None
        },
        auth_user: crate::text::clone_opt_string(&probes.coder_auth.user),
        auth_hint_url: Some(string_of("https://kbve.com/application/ml/#coder")),
        version: crate::text::clone_opt_string(&probes.coder.version_line),
        path: crate::text::clone_opt_string(&probes.coder.path),
        install_hint: string_of("npm install -g coder-cli"),
    };
    let aider = DependencyStatus {
        name: string_of("aider"),
        installed: probes.aider.installed,
        authenticated: None,
        auth_user: None,
        auth_hint_url: None,
        version: crate::text::clone_opt_string(&probes.aider.version_line),
        path: crate::text::clone_opt_string(&probes.aider.path),
        install_hint: string_of("pip install aider-chat"),
    };
    let gemini = DependencyStatus {
        name: string_of("gemini"),
        installed: probes.gemini.installed,
        authenticated: None,
        auth_user: None,
        auth_hint_url: None,
        version: crate::text::clone_opt_string(&probes.gemini.version_line),
        path: crate::text::clone_opt_string(&probes.gemini.path),
        install_hint: string_of("pip install google-generativeai"),
    };
    let ollama = DependencyStatus {
        name: string_of("ollama"),
        installed: probes.ollama.installed,
        authenticated: None,
        auth_user: None,
        auth_hint_url: None,
        version: ollama_version,
        path: crate::text::clone_opt_string(&probes.ollama.path),
        install_hint: string_of("brew install ollama"),
    };
    let vllm = DependencyStatus {
        name: string_of("vllm"),
        installed: probes.vllm.installed,
        authenticated: None,
        auth_user: None,
        auth_hint_url: None,
        version: crate::text::clone_opt_string(&probes.vllm.version_line),
        path: crate::text::clone_opt_string(&probes.vllm.path),
        install_hint: string_of("pip install vllm"),
    };
    let mut available_agents: Vec<String> = Vec::new();
    if probes.coder.installed {
        available_agents.push(string_of("coder"));
    }
    if probes.aider.installed {
        available_agents.push(string_of("aider"));
    }
    if probes.gemini.installed {
        available_agents.push(string_of("gemini"));
    }
    if probes.ollama.installed {
        available_agents.push(string_of("ollama"));
    }
    if probes.vllm.installed {
        available_agents.push(string_of("vllm"));
    }
    proof {
        assert(available_agents@.map_values(|s: String| s@) =~= agents_list(
            probes.coder.installed,
            probes.aider.installed,
            probes.gemini.installed,
            probes.ollama.installed,
            probes.vllm.installed,
        ));
    }
    let has_agent = available_agents.len() > 0;
    let all_satisfied = probes.gh.installed && probes.tmux.installed && has_agent;
    DevOpsDependencies {
        gh,
        tmux,
        coder,
        aider,
        gemini,
        ollama,
        vllm,
        all_satisfied,
        available_agents,
    }
}

} // verus!
