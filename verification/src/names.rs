//! Deterministic resource names derived from issue numbers.
//!
//! Sessions, branches, worktrees and sandbox containers are all named by a
//! fixed prefix followed by the issue number, which is what makes collision
//! detection and restart-by-convention possible without a shared registry.

use crate::text::{
    all_digits, append_str, chars_to_nat, chars_to_string, contains_sub, dec_spec, parse_u64,
    push_dec_u64, split_first, split_first_spec, str_chars,
};
use vstd::prelude::*;

verus! {

/// Session name for an agent working on an issue.
pub fn session_name_for_issue(issue_number: u32) -> (r: String)
    ensures
        r@ == "handy-agent-"@ + dec_spec(issue_number as nat),
{
    let mut v = str_chars("handy-agent-");
    push_dec_u64(issue_number as u64, &mut v);
    chars_to_string(&v)
}

/// Session name for a manual (non-issue) session.
pub fn session_name_manual(suffix: &str) -> (r: String)
    ensures
        r@ == "handy-agent-manual-"@ + suffix@,
{
    let mut v = str_chars("handy-agent-manual-");
    append_str(&mut v, suffix);
    chars_to_string(&v)
}

/// Sandbox container name for an issue.
pub fn container_name_for_issue(issue_number: u64) -> (r: String)
    ensures
        r@ == "handy-sandbox-"@ + dec_spec(issue_number as nat),
{
    let mut v = str_chars("handy-sandbox-");
    push_dec_u64(issue_number, &mut v);
    chars_to_string(&v)
}

/// Container name for a support worker sandbox on an issue.
pub fn support_container_name_for_issue(issue_number: u32) -> (r: String)
    ensures
        r@ == "handy-support-sandbox-"@ + dec_spec(issue_number as nat),
{
    let mut v = str_chars("handy-support-sandbox-");
    push_dec_u64(issue_number as u64, &mut v);
    chars_to_string(&v)
}

/// Branch (and worktree) name for an issue.
pub fn branch_name_for_issue(issue_number: u64) -> (r: String)
    ensures
        r@ == "issue-"@ + dec_spec(issue_number as nat),
{
    let mut v = str_chars("issue-");
    push_dec_u64(issue_number, &mut v);
    chars_to_string(&v)
}

/// The shared container network that sandboxed agents join.
pub fn get_agent_network_name() -> (r: &'static str)
    ensures
        r@ == "handy-agents"@,
{
    "handy-agents"
}

/// The persistent volume that carries agent credentials into sandboxes.
pub fn get_coder_auth_volume_name() -> (r: &'static str)
    ensures
        r@ == "handy-coder-auth"@,
{
    "handy-coder-auth"
}

/// An issue reference in `owner/repo#number` form.
pub fn issue_ref_of(repo: &str, issue_number: u64) -> (r: String)
    ensures
        r@ == repo@ + "#"@ + dec_spec(issue_number as nat),
{
    let mut v = str_chars(repo);
    append_str(&mut v, "#");
    push_dec_u64(issue_number, &mut v);
    chars_to_string(&v)
}

/// What an issue reference denotes: the text before the only `#`, and the
/// number after it. `None` where there is no `#`, more than one, or what
/// follows is not a number that fits in a `u64`.
pub open spec fn issue_ref_spec(s: Seq<char>) -> Option<(Seq<char>, nat)> {
    let sp = split_first_spec(s, '#');
    match sp.1 {
        None => None,
        Some(num) => if exists|i: int| 0 <= i < num.len() && num[i] == '#' {
            None
        } else if all_digits(num) && chars_to_nat(num) <= u64::MAX {
            Some((sp.0, chars_to_nat(num)))
        } else {
            None
        },
    }
}

/// Parse an issue reference such as `org/repo#123` into repository and number.
pub fn parse_issue_ref(issue_ref: &str) -> (r: Result<(String, u64), String>)
    ensures
        match r {
            Ok(p) => issue_ref_spec(issue_ref@) == Some((p.0@, p.1 as nat)),
            Err(e) => issue_ref_spec(issue_ref@) is None && e@.len() > 0,
        },
{
    let v = str_chars(issue_ref);
    let (repo_part, num_opt) = split_first(&v, '#');
    match num_opt {
        None => Err(bad_issue_ref(issue_ref)),
        Some(num) => {
            let mut hash_pat: Vec<char> = Vec::new();
            hash_pat.push('#');
            if contains_sub(&num, &hash_pat) {
                proof {
                    let i = choose|i: int| crate::text::is_match(num@, hash_pat@, i);
                    assert(num@.subrange(i, i + 1)[0] == num@[i]);
                }
                return Err(bad_issue_ref(issue_ref));
            }
            proof {
                assert forall|i: int| 0 <= i < num@.len() implies num@[i] != '#' by {
                    if num@[i] == '#' {
                        assert(num@.subrange(i, i + 1) =~= hash_pat@);
                        assert(crate::text::is_match(num@, hash_pat@, i));
                    }
                }
            }
            match parse_u64(&num) {
                Some(n) => Ok((chars_to_string(&repo_part), n)),
                None => {
                    let mut ev = str_chars("Invalid issue number: ");
                    crate::text::append_chars(&mut ev, &num);
                    proof {
                        reveal_strlit("Invalid issue number: ");
                    }
                    Err(chars_to_string(&ev))
                },
            }
        },
    }
}

fn bad_issue_ref(issue_ref: &str) -> (r: String)
    ensures
        r@ == "Invalid issue reference: "@ + issue_ref@ + ". Expected format: org/repo#123"@,
        r@.len() > 0,
{
    let mut ev = str_chars("Invalid issue reference: ");
    append_str(&mut ev, issue_ref);
    append_str(&mut ev, ". Expected format: org/repo#123");
    proof {
        reveal_strlit("Invalid issue reference: ");
    }
    chars_to_string(&ev)
}

} // verus!
