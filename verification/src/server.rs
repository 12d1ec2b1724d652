//! The tools: which commands a call runs, and what it is answered.
//!
//! A call is a sequence of steps. Each step either asks for one git command to be run, and
//! is followed by [`GitServer::resume`] with its result, or is the answer.

use crate::args::{
    AddArgs, BranchArgs, CheckoutArgs, CommitArgs, CreateBranchArgs, DiffArgs, DiffTargetArgs,
    LogArgs, ShowArgs,
};
use crate::git::{
    positional, positional_choice, result_text, GitResult, Repo, RepoPathView, TextResult,
};
use crate::text::{
    blank, decimal, decimal_text, text_option, texts, trimmed, trimming_removes_outer_white_space,
};
use vstd::prelude::*;
use vstd::string::*;

verus! {

/// What becomes of the output of the command that is being run.
#[derive(Debug)]
pub enum Pending {
    /// It is the status of the working tree.
    Status,
    /// It is shown under a title; where it is blank, `empty` is shown in its place.
    Titled { title: String, empty: String },
    /// It is not shown: the answer is `reply`.
    Fixed { reply: String },
    /// It is the answer as it stands.
    Raw,
    /// The commit has been made; its hash is still to be read.
    Committed,
    /// It is the hash of the commit that has been made.
    Hash,
}

/// The next step of a call.
#[derive(Debug)]
pub enum Step {
    /// Run git with these words, and resume with the result.
    Run { words: Vec<String>, pending: Pending },
    /// The call is answered.
    Reply(GitResult),
}

/// The model of [`Pending`].
pub enum PendingView {
    Status,
    Titled { title: Seq<char>, empty: Seq<char> },
    Fixed { reply: Seq<char> },
    Raw,
    Committed,
    Hash,
}

/// The model of [`Step`].
pub enum StepView {
    Run { words: Seq<Seq<char>>, pending: PendingView },
    Reply(TextResult),
}

impl View for Pending {
    type V = PendingView;

    open spec fn view(&self) -> PendingView {
        match *self {
            Pending::Status => PendingView::Status,
            Pending::Titled { title, empty } => PendingView::Titled { title: title@, empty: empty@ },
            Pending::Fixed { reply } => PendingView::Fixed { reply: reply@ },
            Pending::Raw => PendingView::Raw,
            Pending::Committed => PendingView::Committed,
            Pending::Hash => PendingView::Hash,
        }
    }
}

impl View for Step {
    type V = StepView;

    open spec fn view(&self) -> StepView {
        match *self {
            Step::Run { words, pending } => StepView::Run {
                words: texts(words@),
                pending: pending@,
            },
            Step::Reply(result) => StepView::Reply(result_text(result)),
        }
    }
}

/// An output under its title; a blank one is replaced, so that nobody takes it for a
/// failure.
pub open spec fn titled_text(title: Seq<char>, output: Seq<char>, empty: Seq<char>) -> Seq<char> {
    title + "\n"@ + if blank(output) {
        empty
    } else {
        output
    }
}

/// The output of a command under a title, or `empty` under it where the output is blank.
pub fn titled(title: &str, output: String, empty: &str) -> (r: String)
    ensures
        r@ == titled_text(title@, output@, empty@),
{
    proof {
        trimming_removes_outer_white_space(output@);
    }
    let mut text = title.to_owned();
    text.append("\n");
    if output.as_str().trim().is_empty() {
        text.append(empty);
    } else {
        text.append(output.as_str());
    }
    text
}

/// The step behind a command with the given result. A failed command fails the call.
pub open spec fn resume_step(pending: PendingView, result: TextResult) -> StepView {
    match result {
        Err(error) => StepView::Reply(Err(error)),
        Ok(output) => match pending {
            PendingView::Status => StepView::Reply(Ok("Repository status:\n"@ + output)),
            PendingView::Titled { title, empty } => StepView::Reply(
                Ok(titled_text(title, output, empty)),
            ),
            PendingView::Fixed { reply } => StepView::Reply(Ok(reply)),
            PendingView::Raw => StepView::Reply(Ok(output)),
            PendingView::Committed => StepView::Run {
                words: seq!["rev-parse"@, "HEAD"@],
                pending: PendingView::Hash,
            },
            PendingView::Hash => StepView::Reply(
                Ok("Changes committed successfully with hash "@ + trimmed(output)),
            ),
        },
    }
}

/// The option that sets the number of context lines.
pub open spec fn unified(context_lines: u32) -> Seq<char> {
    "--unified="@ + decimal(context_lines as nat)
}

/// The first step of `git_status`.
pub open spec fn status_step() -> StepView {
    StepView::Run { words: seq!["status"@], pending: PendingView::Status }
}

/// The first step of `git_diff_unstaged`.
pub open spec fn diff_unstaged_step(args: DiffArgs) -> StepView {
    StepView::Run {
        words: seq!["diff"@, unified(args.context_lines)],
        pending: PendingView::Titled {
            title: "Unstaged changes:"@,
            empty: "(no unstaged changes)"@,
        },
    }
}

/// The first step of `git_diff_staged`.
pub open spec fn diff_staged_step(args: DiffArgs) -> StepView {
    StepView::Run {
        words: seq!["diff"@, "--cached"@, unified(args.context_lines)],
        pending: PendingView::Titled { title: "Staged changes:"@, empty: "(no staged changes)"@ },
    }
}

/// The first step of `git_diff`.
pub open spec fn diff_step(args: DiffTargetArgs) -> StepView {
    match positional_choice("target"@, args.target@) {
        Err(error) => StepView::Reply(Err(error)),
        Ok(target) => StepView::Run {
            words: seq!["diff"@, unified(args.context_lines), target, "--"@],
            pending: PendingView::Titled {
                title: "Diff with "@ + target + ":"@,
                empty: "(no differences)"@,
            },
        },
    }
}

/// The first step of `git_commit`. The message is the value of `-m`, so one that begins
/// with `-` does no harm.
pub open spec fn commit_step(args: CommitArgs) -> StepView {
    if blank(args.message@) {
        StepView::Reply(Err("сообщение коммита не может быть пустым"@))
    } else {
        StepView::Run {
            words: seq!["commit"@, "-m"@, args.message@],
            pending: PendingView::Committed,
        }
    }
}

/// The first step of `git_add`. The paths follow `--`, so git does not read them as flags.
pub open spec fn add_step(args: AddArgs) -> StepView {
    if args.files@.len() == 0 {
        StepView::Reply(Err("список файлов пуст"@))
    } else {
        StepView::Run {
            words: seq!["add"@, "--"@] + texts(args.files@),
            pending: PendingView::Fixed { reply: "Files staged successfully"@ },
        }
    }
}

/// The first step of `git_reset`.
pub open spec fn reset_step() -> StepView {
    StepView::Run {
        words: seq!["reset"@, "--quiet"@],
        pending: PendingView::Fixed { reply: "All staged changes reset"@ },
    }
}

/// The words of an option that may be omitted: `<key><value>`, or none.
pub open spec fn option_words(
    key: Seq<char>,
    name: Seq<char>,
    value: Option<Seq<char>>,
) -> Result<Seq<Seq<char>>, Seq<char>> {
    match value {
        None => Ok(seq![]),
        Some(value) => match positional_choice(name, value) {
            Ok(kept) => Ok(seq![key + kept]),
            Err(error) => Err(error),
        },
    }
}

/// The number of commits that `git_log` asks for: at least one.
pub open spec fn log_count(max_count: u32) -> nat {
    if max_count == 0 {
        1
    } else {
        max_count as nat
    }
}

/// The first step of `git_log`.
pub open spec fn log_step(args: LogArgs) -> StepView {
    match option_words("--since="@, "start_timestamp"@, text_option(args.start_timestamp)) {
        Err(error) => StepView::Reply(Err(error)),
        Ok(since) => match option_words(
            "--until="@,
            "end_timestamp"@,
            text_option(args.end_timestamp),
        ) {
            Err(error) => StepView::Reply(Err(error)),
            Ok(until) => StepView::Run {
                words: seq![
                    "log"@,
                    "--max-count="@ + decimal(log_count(args.max_count)),
                    "--format=Commit: %H%nAuthor: %an <%ae>%nDate: %aI%nMessage: %s%n"@,
                ] + since + until,
                pending: PendingView::Titled {
                    title: "Commit history:"@,
                    empty: "(no commits)"@,
                },
            },
        },
    }
}

/// The first step of `git_create_branch`.
pub open spec fn create_branch_step(args: CreateBranchArgs) -> StepView {
    match positional_choice("branch_name"@, args.branch_name@) {
        Err(error) => StepView::Reply(Err(error)),
        Ok(name) => match args.base_branch {
            None => StepView::Run {
                words: seq!["branch"@, name],
                pending: PendingView::Fixed { reply: created_text(name, "HEAD"@) },
            },
            Some(base) => match positional_choice("base_branch"@, base@) {
                Err(error) => StepView::Reply(Err(error)),
                Ok(base) => StepView::Run {
                    words: seq!["branch"@, name, base],
                    pending: PendingView::Fixed { reply: created_text(name, base) },
                },
            },
        },
    }
}

/// The answer to a call that has created a branch.
pub open spec fn created_text(name: Seq<char>, base: Seq<char>) -> Seq<char> {
    "Created branch '"@ + name + "' from '"@ + base + "'"@
}

/// The first step of `git_checkout`. The `--` at the end makes the name that of a branch,
/// not of a file.
pub open spec fn checkout_step(args: CheckoutArgs) -> StepView {
    match positional_choice("branch_name"@, args.branch_name@) {
        Err(error) => StepView::Reply(Err(error)),
        Ok(name) => StepView::Run {
            words: seq!["checkout"@, name, "--"@],
            pending: PendingView::Fixed { reply: "Switched to branch '"@ + name + "'"@ },
        },
    }
}

/// The first step of `git_show`.
pub open spec fn show_step(args: ShowArgs) -> StepView {
    match positional_choice("revision"@, args.revision@) {
        Err(error) => StepView::Reply(Err(error)),
        Ok(revision) => StepView::Run {
            words: seq!["show"@, revision, "--"@],
            pending: PendingView::Raw,
        },
    }
}

/// The words that pick the branches to list, or why there are none.
pub open spec fn branch_type_words(branch_type: Seq<char>) -> Result<Seq<Seq<char>>, Seq<char>> {
    if branch_type == "local"@ {
        Ok(seq!["branch"@])
    } else if branch_type == "remote"@ {
        Ok(seq!["branch"@, "--remotes"@])
    } else if branch_type == "all"@ {
        Ok(seq!["branch"@, "--all"@])
    } else {
        Err("branch_type должен быть local, remote или all, получено: "@ + branch_type)
    }
}

/// The first step of `git_branch`.
pub open spec fn branch_step(args: BranchArgs) -> StepView {
    match branch_type_words(args.branch_type@) {
        Err(error) => StepView::Reply(Err(error)),
        Ok(command) => match option_words("--contains="@, "contains"@, text_option(args.contains)) {
            Err(error) => StepView::Reply(Err(error)),
            Ok(contains) => match option_words(
                "--no-contains="@,
                "not_contains"@,
                text_option(args.not_contains),
            ) {
                Err(error) => StepView::Reply(Err(error)),
                Ok(not_contains) => StepView::Run {
                    words: command + contains + not_contains,
                    pending: PendingView::Titled { title: "Branches:"@, empty: "(no branches)"@ },
                },
            },
        },
    }
}

/// What a client is told of the server, where the root is displayed as `root`.
pub open spec fn instructions_text(root: Seq<char>) -> Seq<char> {
    "Git tools for the repository "@ + root + ". Paths are relative to its root."@
}

/// The option `--unified=<n>`.
fn unified_word(context_lines: u32) -> (r: String)
    ensures
        r@ == unified(context_lines),
{
    "--unified=".to_owned().concat(decimal_text(context_lines).as_str())
}

/// Adds the option `<key><value>` where there is a value; an error where git could read the
/// value as a flag.
fn push_option(words: &mut Vec<String>, key: &str, name: &str, value: &Option<String>) -> (r:
    Result<(), String>)
    ensures
        match option_words(key@, name@, text_option(*value)) {
            Ok(more) => r is Ok && texts(final(words)@) == texts(old(words)@) + more,
            Err(error) => r matches Err(e) && e@ == error,
        },
{
    if let Some(value) = value {
        match positional(name, value.as_str()) {
            Ok(kept) => words.push(key.to_owned().concat(kept)),
            Err(error) => return Err(error),
        }
    }
    assert(option_words(key@, name@, text_option(*value)) matches Ok(more) ==> texts(words@)
        =~= texts(old(words)@) + more);
    Ok(())
}

/// The server: its tools work in one repository.
#[derive(Debug)]
pub struct GitServer {
    repo: Repo,
}

impl View for GitServer {
    type V = RepoPathView;

    /// The path of the root of the repository.
    closed spec fn view(&self) -> RepoPathView {
        self.repo@
    }
}

impl Clone for GitServer {
    fn clone(&self) -> (r: Self)
        ensures
            r@ == self@,
    {
        GitServer { repo: self.repo.clone() }
    }
}

impl GitServer {
    /// A server for a repository.
    pub fn new(repo: Repo) -> (r: Self)
        ensures
            r@ == repo@,
    {
        GitServer { repo }
    }

    /// The repository of the server.
    pub fn repo(&self) -> (r: &Repo)
        ensures
            r@ == self@,
    {
        &self.repo
    }

    /// What a client is told of the server.
    pub fn instructions(&self) -> (r: String)
        ensures
            r@ == instructions_text(self@.shown),
    {
        "Git tools for the repository ".to_owned().concat(
            self.repo.root().shown.as_str(),
        ).concat(". Paths are relative to its root.")
    }

    /// The step behind the command of `pending`, whose result is `result`.
    pub fn resume(&self, pending: Pending, result: GitResult) -> (r: Step)
        ensures
            r@ == resume_step(pending@, result_text(result)),
    {
        let output = match result {
            Ok(output) => output,
            Err(error) => return Step::Reply(Err(error)),
        };
        match pending {
            Pending::Status => Step::Reply(
                Ok("Repository status:\n".to_owned().concat(output.as_str())),
            ),
            Pending::Titled { title, empty } => Step::Reply(
                Ok(titled(title.as_str(), output, empty.as_str())),
            ),
            Pending::Fixed { reply } => Step::Reply(Ok(reply)),
            Pending::Raw => Step::Reply(Ok(output)),
            Pending::Committed => {
                let words = vec!["rev-parse".to_owned(), "HEAD".to_owned()];
                assert(texts(words@) =~= seq!["rev-parse"@, "HEAD"@]);
                Step::Run { words, pending: Pending::Hash }
            },
            Pending::Hash => Step::Reply(
                Ok(
                    "Changes committed successfully with hash ".to_owned().concat(
                        output.as_str().trim(),
                    ),
                ),
            ),
        }
    }

    /// Shows the working tree status.
    pub fn git_status(&self) -> (r: Step)
        ensures
            r@ == status_step(),
    {
        let words = vec!["status".to_owned()];
        assert(texts(words@) =~= seq!["status"@]);
        Step::Run { words, pending: Pending::Status }
    }

    /// Shows changes in the working directory that are not yet staged.
    pub fn git_diff_unstaged(&self, args: DiffArgs) -> (r: Step)
        ensures
            r@ == diff_unstaged_step(args),
    {
        let words = vec!["diff".to_owned(), unified_word(args.context_lines)];
        assert(texts(words@) =~= seq!["diff"@, unified(args.context_lines)]);
        Step::Run {
            words,
            pending: Pending::Titled {
                title: "Unstaged changes:".to_owned(),
                empty: "(no unstaged changes)".to_owned(),
            },
        }
    }

    /// Shows changes that are staged for commit.
    pub fn git_diff_staged(&self, args: DiffArgs) -> (r: Step)
        ensures
            r@ == diff_staged_step(args),
    {
        let words = vec![
            "diff".to_owned(),
            "--cached".to_owned(),
            unified_word(args.context_lines),
        ];
        assert(texts(words@) =~= seq!["diff"@, "--cached"@, unified(args.context_lines)]);
        Step::Run {
            words,
            pending: Pending::Titled {
                title: "Staged changes:".to_owned(),
                empty: "(no staged changes)".to_owned(),
            },
        }
    }

    /// Shows differences between the working tree and a branch or commit.
    pub fn git_diff(&self, args: DiffTargetArgs) -> (r: Step)
        ensures
            r@ == diff_step(args),
    {
        let target = match positional("target", args.target.as_str()) {
            Ok(target) => target,
            Err(error) => return Step::Reply(Err(error)),
        };
        let words = vec![
            "diff".to_owned(),
            unified_word(args.context_lines),
            target.to_owned(),
            "--".to_owned(),
        ];
        assert(texts(words@) =~= seq!["diff"@, unified(args.context_lines), target@, "--"@]);
        Step::Run {
            words,
            pending: Pending::Titled {
                title: "Diff with ".to_owned().concat(target).concat(":"),
                empty: "(no differences)".to_owned(),
            },
        }
    }

    /// Records staged changes to the repository.
    pub fn git_commit(&self, args: CommitArgs) -> (r: Step)
        ensures
            r@ == commit_step(args),
    {
        proof {
            trimming_removes_outer_white_space(args.message@);
        }
        if args.message.as_str().trim().is_empty() {
            return Step::Reply(Err("сообщение коммита не может быть пустым".to_owned()));
        }
        let ghost message = args.message@;
        let words = vec!["commit".to_owned(), "-m".to_owned(), args.message];
        assert(texts(words@) =~= seq!["commit"@, "-m"@, message]);
        Step::Run { words, pending: Pending::Committed }
    }

    /// Adds file contents to the staging area.
    pub fn git_add(&self, args: AddArgs) -> (r: Step)
        ensures
            r@ == add_step(args),
    {
        if args.files.is_empty() {
            return Step::Reply(Err("список файлов пуст".to_owned()));
        }
        let ghost files = args.files@;
        let mut words = vec!["add".to_owned(), "--".to_owned()];
        let mut paths = args.files;
        words.append(&mut paths);
        assert(texts(words@) =~= seq!["add"@, "--"@] + texts(files));
        Step::Run {
            words,
            pending: Pending::Fixed { reply: "Files staged successfully".to_owned() },
        }
    }

    /// Unstages all staged changes.
    pub fn git_reset(&self) -> (r: Step)
        ensures
            r@ == reset_step(),
    {
        let words = vec!["reset".to_owned(), "--quiet".to_owned()];
        assert(texts(words@) =~= seq!["reset"@, "--quiet"@]);
        Step::Run {
            words,
            pending: Pending::Fixed { reply: "All staged changes reset".to_owned() },
        }
    }

    /// Shows the commit logs.
    pub fn git_log(&self, args: LogArgs) -> (r: Step)
        ensures
            r@ == log_step(args),
    {
        let count = if args.max_count == 0 {
            1
        } else {
            args.max_count
        };
        let mut words = vec![
            "log".to_owned(),
            "--max-count=".to_owned().concat(decimal_text(count).as_str()),
            "--format=Commit: %H%nAuthor: %an <%ae>%nDate: %aI%nMessage: %s%n".to_owned(),
        ];
        assert(texts(words@) =~= seq![
            "log"@,
            "--max-count="@ + decimal(log_count(args.max_count)),
            "--format=Commit: %H%nAuthor: %an <%ae>%nDate: %aI%nMessage: %s%n"@,
        ]);
        if let Err(error) = push_option(
            &mut words,
            "--since=",
            "start_timestamp",
            &args.start_timestamp,
        ) {
            return Step::Reply(Err(error));
        }
        if let Err(error) = push_option(&mut words, "--until=", "end_timestamp", &args.end_timestamp) {
            return Step::Reply(Err(error));
        }
        Step::Run {
            words,
            pending: Pending::Titled {
                title: "Commit history:".to_owned(),
                empty: "(no commits)".to_owned(),
            },
        }
    }

    /// Creates a new branch from an optional base branch.
    pub fn git_create_branch(&self, args: CreateBranchArgs) -> (r: Step)
        ensures
            r@ == create_branch_step(args),
    {
        let name = match positional("branch_name", args.branch_name.as_str()) {
            Ok(name) => name,
            Err(error) => return Step::Reply(Err(error)),
        };
        let mut words = vec!["branch".to_owned(), name.to_owned()];
        let base = match &args.base_branch {
            Some(base) => match positional("base_branch", base.as_str()) {
                Ok(base) => {
                    words.push(base.to_owned());
                    assert(texts(words@) =~= seq!["branch"@, name@, base@]);
                    base
                },
                Err(error) => return Step::Reply(Err(error)),
            },
            None => {
                assert(texts(words@) =~= seq!["branch"@, name@]);
                "HEAD"
            },
        };
        let reply = "Created branch '".to_owned().concat(name).concat("' from '").concat(
            base,
        ).concat("'");
        Step::Run { words, pending: Pending::Fixed { reply } }
    }

    /// Switches branches.
    pub fn git_checkout(&self, args: CheckoutArgs) -> (r: Step)
        ensures
            r@ == checkout_step(args),
    {
        let name = match positional("branch_name", args.branch_name.as_str()) {
            Ok(name) => name,
            Err(error) => return Step::Reply(Err(error)),
        };
        let words = vec!["checkout".to_owned(), name.to_owned(), "--".to_owned()];
        assert(texts(words@) =~= seq!["checkout"@, name@, "--"@]);
        let reply = "Switched to branch '".to_owned().concat(name).concat("'");
        Step::Run { words, pending: Pending::Fixed { reply } }
    }

    /// Shows the contents of a commit.
    pub fn git_show(&self, args: ShowArgs) -> (r: Step)
        ensures
            r@ == show_step(args),
    {
        let revision = match positional("revision", args.revision.as_str()) {
            Ok(revision) => revision,
            Err(error) => return Step::Reply(Err(error)),
        };
        let words = vec!["show".to_owned(), revision.to_owned(), "--".to_owned()];
        assert(texts(words@) =~= seq!["show"@, revision@, "--"@]);
        Step::Run { words, pending: Pending::Raw }
    }

    /// Lists git branches.
    pub fn git_branch(&self, args: BranchArgs) -> (r: Step)
        ensures
            r@ == branch_step(args),
    {
        let mut words = vec!["branch".to_owned()];
        if args.branch_type == "local".to_owned() {
            assert(texts(words@) =~= seq!["branch"@]);
        } else if args.branch_type == "remote".to_owned() {
            words.push("--remotes".to_owned());
            assert(texts(words@) =~= seq!["branch"@, "--remotes"@]);
        } else if args.branch_type == "all".to_owned() {
            words.push("--all".to_owned());
            assert(texts(words@) =~= seq!["branch"@, "--all"@]);
        } else {
            return Step::Reply(
                Err(
                    "branch_type должен быть local, remote или all, получено: ".to_owned().concat(
                        args.branch_type.as_str(),
                    ),
                ),
            );
        }
        if let Err(error) = push_option(&mut words, "--contains=", "contains", &args.contains) {
            return Step::Reply(Err(error));
        }
        if let Err(error) = push_option(
            &mut words,
            "--no-contains=",
            "not_contains",
            &args.not_contains,
        ) {
            return Step::Reply(Err(error));
        }
        Step::Run {
            words,
            pending: Pending::Titled {
                title: "Branches:".to_owned(),
                empty: "(no branches)".to_owned(),
            },
        }
    }
}

} // verus!
