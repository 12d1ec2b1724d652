//! The arguments of the tools.

use vstd::prelude::*;

verus! {

/// Lines of context around a change where the caller names no number, as in `git diff`.
pub const DEFAULT_CONTEXT_LINES: u32 = 3;

/// Commits that `git_log` shows where the caller names no number.
pub const DEFAULT_LOG_COUNT: u32 = 10;

/// The number of context lines where the caller names none.
pub fn default_context_lines() -> (r: u32)
    ensures
        r == 3,
{
    DEFAULT_CONTEXT_LINES
}

/// The number of commits where the caller names none.
pub fn default_log_count() -> (r: u32)
    ensures
        r == 10,
{
    DEFAULT_LOG_COUNT
}

/// Arguments of `git_diff_unstaged` and `git_diff_staged`.
#[derive(Debug)]
pub struct DiffArgs {
    /// Number of context lines around each change.
    pub context_lines: u32,
}

/// Arguments of `git_diff`.
#[derive(Debug)]
pub struct DiffTargetArgs {
    /// Branch, tag or commit to compare the working tree with.
    pub target: String,
    /// Number of context lines around each change.
    pub context_lines: u32,
}

/// Arguments of `git_commit`.
#[derive(Debug)]
pub struct CommitArgs {
    /// Commit message.
    pub message: String,
}

/// Arguments of `git_add`.
#[derive(Debug)]
pub struct AddArgs {
    /// Paths to stage, relative to the root of the repository.
    pub files: Vec<String>,
}

/// Arguments of `git_log`.
#[derive(Debug)]
pub struct LogArgs {
    /// Maximum number of commits to show.
    pub max_count: u32,
    /// Show commits after this date (ISO 8601 or a git date such as "2 weeks ago").
    pub start_timestamp: Option<String>,
    /// Show commits before this date.
    pub end_timestamp: Option<String>,
}

/// Arguments of `git_create_branch`.
#[derive(Debug)]
pub struct CreateBranchArgs {
    /// Name of the new branch.
    pub branch_name: String,
    /// Branch or commit to start from; the current HEAD if omitted.
    pub base_branch: Option<String>,
}

/// Arguments of `git_checkout`.
#[derive(Debug)]
pub struct CheckoutArgs {
    /// Branch to switch to.
    pub branch_name: String,
}

/// Arguments of `git_show`.
#[derive(Debug)]
pub struct ShowArgs {
    /// Commit, tag or other revision to show.
    pub revision: String,
}

/// Arguments of `git_branch`.
#[derive(Debug)]
pub struct BranchArgs {
    /// Which branches to list: "local", "remote" or "all".
    pub branch_type: String,
    /// Only branches that contain this commit.
    pub contains: Option<String>,
    /// Only branches that do not contain this commit.
    pub not_contains: Option<String>,
}

} // verus!
