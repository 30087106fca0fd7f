use vstd::prelude::*;

verus! {

/// A read-only snapshot of the repository collaborator's answers, taken
/// when a menu is (re)opened or an action dispatched and never cached
/// across operations. A `None` stands for a query that found nothing
/// (no upstream configured, head detached, nothing selected).
pub struct RepoFacts {
    /// Whether a merge-like operation is in progress.
    pub operation_in_progress: bool,
    /// The upstream tracking branch of the current branch, if configured.
    pub upstream_branch: Option<String>,
    /// The current branch name; absent when the head is detached.
    pub head_branch: Option<String>,
    /// The revision currently selected in the UI, if any.
    pub selected_rev: Option<String>,
    /// The most recently created local branch, if any.
    pub latest_local_branch: Option<String>,
}

/// The selection context under the cursor when an action is dispatched.
pub struct TargetData {
    /// The revision the cursor stands on, if any.
    pub revision: Option<String>,
}

} // verus!
