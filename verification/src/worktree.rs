//! Plain-value shapes of what the worktree provider reports, and the
//! collision check over them.
//!
//! The provider creates and removes worktree+branch pairs by running a
//! version-control tool; the logic here decides, from its reports, whether
//! a deterministic branch name is still free.

use crate::text::str_eq;
use vstd::prelude::*;

verus! {

/// One worktree+branch pair created by the provider.
#[derive(Debug, Clone)]
pub struct WorktreeCreateResult {
    /// Filesystem path of the checkout.
    pub path: String,
    /// Branch the checkout is on.
    pub branch: String,
    /// Branch the new branch was created from.
    pub base_branch: String,
}

/// One existing worktree as the provider lists it.
#[derive(Debug, Clone)]
pub struct WorktreeInfo {
    /// Filesystem path of the checkout.
    pub path: String,
    /// Branch the checkout is on, where the provider knows it.
    pub branch: Option<String>,
}

/// What already uses a candidate branch name.
#[derive(Debug, Clone, Copy, PartialEq, Eq, Structural)]
pub enum CollisionCheck {
    /// Nothing uses the name.
    Free,
    /// A live worktree is on the branch.
    ExistsAsWorktree,
    /// The branch exists but no worktree is on it.
    ExistsAsBranch,
}

/// A worktree in the list is on the given branch.
pub open spec fn worktree_on_branch(worktrees: Seq<WorktreeInfo>, branch: Seq<char>) -> bool {
    exists|i: int|
        #![trigger worktrees[i]]
        0 <= i < worktrees.len() && (worktrees[i].branch matches Some(b) && b@ == branch)
}

/// The branch name is in the list.
pub open spec fn branch_listed(branches: Seq<String>, branch: Seq<char>) -> bool {
    exists|i: int| 0 <= i < branches.len() && branches[i]@ == branch
}

/// Check whether a derived branch name collides with an existing worktree
/// or branch, so a caller can choose to reuse rather than fail.
pub fn check_worktree_collision(
    branch: &str,
    worktrees: &Vec<WorktreeInfo>,
    branches: &Vec<String>,
) -> (r: CollisionCheck)
    ensures
        r == CollisionCheck::ExistsAsWorktree <==> worktree_on_branch(worktrees@, branch@),
        r == CollisionCheck::ExistsAsBranch <==> !worktree_on_branch(worktrees@, branch@)
            && branch_listed(branches@, branch@),
        r == CollisionCheck::Free <==> !worktree_on_branch(worktrees@, branch@) && !branch_listed(
            branches@,
            branch@,
        ),
{
    let mut i: usize = 0;
    while i < worktrees.len()
        invariant
            i <= worktrees@.len(),
            forall|k: int|
                #![trigger worktrees@[k]]
                0 <= k < i ==> !(worktrees@[k].branch matches Some(b) && b@ == branch@),
        decreases worktrees@.len() - i,
    {
        match &worktrees[i].branch {
            Some(b) => {
                if str_eq(b.as_str(), branch) {
                    return CollisionCheck::ExistsAsWorktree;
                }
            },
            None => {},
        }
        i = i + 1;
    }
    proof {
        assert(!worktree_on_branch(worktrees@, branch@));
    }
    let mut j: usize = 0;
    while j < branches.len()
        invariant
            !worktree_on_branch(worktrees@, branch@),
            j <= branches@.len(),
            forall|k: int| 0 <= k < j ==> branches@[k]@ != branch@,
        decreases branches@.len() - j,
    {
        if str_eq(branches[j].as_str(), branch) {
            return CollisionCheck::ExistsAsBranch;
        }
        j = j + 1;
    }
    CollisionCheck::Free
}

} // verus!
