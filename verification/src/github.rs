//! Plain-value shapes of what the issue-tracker provider reports.
//!
//! The provider itself is an adapter over an external command-line tool and
//! lives outside the library; the logic here only ever sees these values.

use vstd::prelude::*;

verus! {

/// One issue as the tracker reports it.
#[derive(Debug, Clone)]
pub struct GitHubIssue {
    pub number: u64,
    pub title: String,
    pub body: Option<String>,
    pub state: String,
    pub url: String,
    pub labels: Vec<String>,
    pub assignees: Vec<String>,
    pub author: String,
    pub created_at: String,
    pub updated_at: String,
    pub repo: String,
}

/// One pull request as the tracker reports it.
#[derive(Debug, Clone)]
pub struct GitHubPullRequest {
    pub number: u64,
    pub url: String,
    pub state: String,
    pub is_draft: bool,
    pub head_branch: String,
}

impl GitHubIssue {
    /// An exact copy, field by field.
    pub fn duplicate(&self) -> (r: GitHubIssue)
        ensures
            r.number == self.number,
            r.title == self.title,
            r.body == self.body,
            r.state == self.state,
            r.url == self.url,
            r.labels@ == self.labels@,
            r.assignees@ == self.assignees@,
            r.author == self.author,
            r.created_at == self.created_at,
            r.updated_at == self.updated_at,
            r.repo == self.repo,
    {
        GitHubIssue {
            number: self.number,
            title: self.title.clone(),
            body: crate::text::clone_opt_string(&self.body),
            state: self.state.clone(),
            url: self.url.clone(),
            labels: clone_strings(&self.labels),
            assignees: clone_strings(&self.assignees),
            author: self.author.clone(),
            created_at: self.created_at.clone(),
            updated_at: self.updated_at.clone(),
            repo: self.repo.clone(),
        }
    }
}

impl GitHubPullRequest {
    /// An exact copy.
    pub fn duplicate(&self) -> (r: GitHubPullRequest)
        ensures
            r == *self,
    {
        GitHubPullRequest {
            number: self.number,
            url: self.url.clone(),
            state: self.state.clone(),
            is_draft: self.is_draft,
            head_branch: self.head_branch.clone(),
        }
    }
}

/// An exact copy of a list of strings.
pub fn clone_strings(v: &Vec<String>) -> (r: Vec<String>)
    ensures
        r@ == v@,
{
    let mut r: Vec<String> = Vec::new();
    let mut i: usize = 0;
    while i < v.len()
        invariant
            i <= v@.len(),
            r@ == v@.subrange(0, i as int),
        decreases v@.len() - i,
    {
        r.push(v[i].clone());
        proof {
            assert(v@.subrange(0, i + 1) =~= v@.subrange(0, i as int).push(v@[i as int]));
        }
        i = i + 1;
    }
    proof {
        assert(v@.subrange(0, v@.len() as int) =~= v@);
    }
    r
}

/// Review tallies of one pull request.
#[derive(Debug, Clone, Copy)]
pub struct ReviewCounts {
    pub pending: u64,
    pub approved: u64,
    pub changes_requested: u64,
}

/// Full status of one pull request: the request and its review tallies.
#[derive(Debug, Clone)]
pub struct PrStatus {
    pub pr: GitHubPullRequest,
    pub reviews: ReviewCounts,
}

} // verus!
