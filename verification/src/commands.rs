//! Construction of the shell commands that start agents.
//!
//! Agent types form a closed set; each has one command template, and an
//! unsupported type is an explicit error, never a silent no-op.

use crate::recovery::AgentMetadata;
use crate::text::{
    all_digits, append_chars, append_str, chars_eq_str, chars_to_nat, chars_to_string, dec_spec,
    escape_squotes, last_segment, lower_chars, lower_spec, push_dec_u64, squote_escaped,
    str_chars, string_of, after_last,
};
use vstd::prelude::*;

verus! {

/// The view of an optional string slice.
pub open spec fn opt_str_view(s: Option<&str>) -> Option<Seq<char>> {
    match s {
        Some(t) => Some(t@),
        None => None,
    }
}

/// The optional title argument appended to some agent commands.
pub open spec fn title_arg_spec(title: Option<Seq<char>>) -> Seq<char> {
    match title {
        None => Seq::empty(),
        Some(t) => " --title '"@ + squote_escaped(t) + "'"@,
    }
}

/// The start command of one agent type, or nothing for an unsupported
/// type. The agent type is matched lower-cased; the coder template ignores
/// the title and asks the agent to fetch the issue itself.
pub open spec fn agent_command_spec(
    agent_type: Seq<char>,
    repo: Seq<char>,
    issue_number: u64,
    title: Option<Seq<char>>,
    auto_accept: bool,
) -> Option<Seq<char>> {
    let at = lower_spec(agent_type);
    let issue = repo + "#"@ + dec_spec(issue_number as nat);
    let targ = title_arg_spec(title);
    if at == "coder"@ {
        Some(
            if auto_accept {
                "coder --dangerously-skip-permissions 'Work on GitHub issue "@ + issue
                    + ": Implement the requirements described in the issue. When done, commit your changes and create a PR.'"@
            } else {
                "coder 'Work on GitHub issue "@ + issue
                    + ": Implement the requirements described in the issue. When done, commit your changes and create a PR.'"@
            },
        )
    } else if at == "aider"@ {
        Some(
            "aider --message 'Work on GitHub issue "@ + issue + targ
                + ". Implement the requirements and commit when done.'"@,
        )
    } else if at == "codex"@ || at == "openai"@ {
        Some("codex 'Implement GitHub issue "@ + issue + targ + "'"@)
    } else if at == "gemini"@ {
        Some("gemini-cli 'Work on GitHub issue "@ + issue + targ + "'"@)
    } else if at == "ollama"@ || at == "local"@ {
        Some("ollama run codellama 'Implement GitHub issue "@ + issue + targ + "'"@)
    } else if at == "manual"@ {
        Some(
            "echo 'Manual work session for issue "@ + issue
                + ". The worktree is ready for you to work in.'"@,
        )
    } else {
        None
    }
}

/// `repo#number` as characters.
fn issue_chars(repo: &str, issue_number: u64) -> (r: Vec<char>)
    ensures
        r@ == repo@ + "#"@ + dec_spec(issue_number as nat),
{
    let mut v = str_chars(repo);
    append_str(&mut v, "#");
    push_dec_u64(issue_number, &mut v);
    v
}

/// The optional title argument as characters.
fn title_arg_chars(title: Option<&str>) -> (r: Vec<char>)
    ensures
        r@ == title_arg_spec(opt_str_view(title)),
{
    match title {
        None => Vec::new(),
        Some(t) => {
            let mut v = str_chars(" --title '");
            let tv = str_chars(t);
            let esc = escape_squotes(&tv);
            append_chars(&mut v, &esc);
            append_str(&mut v, "'");
            v
        },
    }
}

/// Build the start command for an agent of the given type, or the
/// unsupported-type error.
pub fn build_agent_command_inner(
    agent_type: &str,
    repo: &str,
    issue_number: u64,
    issue_title: Option<&str>,
    auto_accept: bool,
) -> (r: Result<String, String>)
    ensures
        match r {
            Ok(c) => agent_command_spec(
                agent_type@,
                repo@,
                issue_number,
                opt_str_view(issue_title),
                auto_accept,
            ) == Some(c@),
            Err(e) => agent_command_spec(
                agent_type@,
                repo@,
                issue_number,
                opt_str_view(issue_title),
                auto_accept,
            ) is None && e@ == "Unknown agent type '"@ + agent_type@
                + "'. Supported types: coder, aider, codex, gemini, ollama, manual"@,
        },
{
    let atv = str_chars(agent_type);
    let at = lower_chars(&atv);
    let issue = issue_chars(repo, issue_number);
    let targ = title_arg_chars(issue_title);
    if chars_eq_str(&at, "coder") {
        let mut v = if auto_accept {
            str_chars("coder --dangerously-skip-permissions 'Work on GitHub issue ")
        } else {
            str_chars("coder 'Work on GitHub issue ")
        };
        append_chars(&mut v, &issue);
        append_str(
            &mut v,
            ": Implement the requirements described in the issue. When done, commit your changes and create a PR.'",
        );
        Ok(chars_to_string(&v))
    } else if chars_eq_str(&at, "aider") {
        let mut v = str_chars("aider --message 'Work on GitHub issue ");
        append_chars(&mut v, &issue);
        append_chars(&mut v, &targ);
        append_str(&mut v, ". Implement the requirements and commit when done.'");
        Ok(chars_to_string(&v))
    } else if chars_eq_str(&at, "codex") || chars_eq_str(&at, "openai") {
        let mut v = str_chars("codex 'Implement GitHub issue ");
        append_chars(&mut v, &issue);
        append_chars(&mut v, &targ);
        append_str(&mut v, "'");
        Ok(chars_to_string(&v))
    } else if chars_eq_str(&at, "gemini") {
        let mut v = str_chars("gemini-cli 'Work on GitHub issue ");
        append_chars(&mut v, &issue);
        append_chars(&mut v, &targ);
        append_str(&mut v, "'");
        Ok(chars_to_string(&v))
    } else if chars_eq_str(&at, "ollama") || chars_eq_str(&at, "local") {
        let mut v = str_chars("ollama run codellama 'Implement GitHub issue ");
        append_chars(&mut v, &issue);
        append_chars(&mut v, &targ);
        append_str(&mut v, "'");
        Ok(chars_to_string(&v))
    } else if chars_eq_str(&at, "manual") {
        let mut v = str_chars("echo 'Manual work session for issue ");
        append_chars(&mut v, &issue);
        append_str(&mut v, ". The worktree is ready for you to work in.'");
        Ok(chars_to_string(&v))
    } else {
        let mut e = str_chars("Unknown agent type '");
        append_str(&mut e, agent_type);
        append_str(&mut e, "'. Supported types: coder, aider, codex, gemini, ollama, manual");
        Err(chars_to_string(&e))
    }
}

/// The start command an agent is sent when run directly in a session,
/// without auto-accept.
pub fn build_agent_command(
    agent_type: &str,
    repo: &str,
    issue_number: u64,
    issue_title: Option<&str>,
) -> (r: Result<String, String>)
    ensures
        match r {
            Ok(c) => agent_command_spec(
                agent_type@,
                repo@,
                issue_number,
                opt_str_view(issue_title),
                false,
            ) == Some(c@),
            Err(e) => agent_command_spec(
                agent_type@,
                repo@,
                issue_number,
                opt_str_view(issue_title),
                false,
            ) is None,
        },
{
    build_agent_command_inner(agent_type, repo, issue_number, issue_title, false)
}

/// The issue number stored metadata denotes: the digits after the last `#`
/// of the issue reference (the whole reference where there is no `#`).
pub open spec fn metadata_issue_number(issue_ref: Seq<char>) -> Option<nat> {
    let seg = last_segment(issue_ref, '#');
    if all_digits(seg) && chars_to_nat(seg) <= u64::MAX {
        Some(chars_to_nat(seg))
    } else {
        None
    }
}

/// Rebuild the start command for a stopped session from its stored
/// metadata, without a title — the agent fetches the issue itself.
/// Fails where the metadata lacks a repository or a usable issue reference,
/// deliberately refusing to act on incomplete metadata.
pub fn restart_agent(metadata: &AgentMetadata) -> (r: Result<String, String>)
    ensures
        metadata.repo is None ==> r is Err,
        metadata.repo is Some && metadata.issue_ref is None ==> r is Err,
        metadata.repo matches Some(rp) ==> metadata.issue_ref matches Some(ir) ==> match r {
            Ok(c) => metadata_issue_number(ir@) matches Some(n) && agent_command_spec(
                metadata.agent_type@,
                rp@,
                n as u64,
                None,
                false,
            ) == Some(c@),
            Err(e) => metadata_issue_number(ir@) is None || agent_command_spec(
                metadata.agent_type@,
                rp@,
                (metadata_issue_number(ir@)->Some_0) as u64,
                None,
                false,
            ) is None,
        },
{
    let repo = match &metadata.repo {
        Some(rp) => rp,
        None => {
            return Err(string_of("Session has no repository metadata - cannot restart"));
        },
    };
    let issue_ref = match &metadata.issue_ref {
        Some(ir) => ir,
        None => {
            return Err(string_of("Session has no valid issue reference - cannot restart"));
        },
    };
    let irv = str_chars(issue_ref.as_str());
    let seg = after_last(&irv, '#');
    let issue_number = match crate::text::parse_u64(&seg) {
        Some(n) => n,
        None => {
            return Err(string_of("Session has no valid issue reference - cannot restart"));
        },
    };
    build_agent_command(metadata.agent_type.as_str(), repo.as_str(), issue_number, None)
}

} // verus!
