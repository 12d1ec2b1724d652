//! What holds of the server as a whole.

use crate::args::{
    AddArgs, BranchArgs, CheckoutArgs, CommitArgs, CreateBranchArgs, DiffArgs, DiffTargetArgs,
    LogArgs, ShowArgs,
};
use crate::cli::repository_choice;
use crate::git::{
    byte_strings, exit_choice, invocation_args, invocation_env, opened, outcome_choice,
    positional_choice, result_text, root_choice, GitResult, Outcome, PathFacts, Repo, RepoPath,
    RepoPathView, TextResult,
};
use crate::server::{
    add_step, branch_step, checkout_step, commit_step, create_branch_step, diff_staged_step,
    diff_step, diff_unstaged_step, log_step, option_words, reset_step, resume_step, show_step,
    status_step, Pending, PendingView, Step, StepView,
};
use crate::text::{
    blank, lossy_text, text_option, texts, trimmed, trimming_ignores_white_space_around,
    trimming_is_idempotent, trimming_removes_outer_white_space, white_space,
};
use vstd::prelude::*;
use vstd::utf8::*;

verus! {

/// A call of a tool.
pub enum Call {
    Status,
    DiffUnstaged(DiffArgs),
    DiffStaged(DiffArgs),
    Diff(DiffTargetArgs),
    Commit(CommitArgs),
    Add(AddArgs),
    Reset,
    Log(LogArgs),
    CreateBranch(CreateBranchArgs),
    Checkout(CheckoutArgs),
    Show(ShowArgs),
    Branch(BranchArgs),
}

/// The first step of a call.
pub open spec fn first_step(call: Call) -> StepView {
    match call {
        Call::Status => status_step(),
        Call::DiffUnstaged(args) => diff_unstaged_step(args),
        Call::DiffStaged(args) => diff_staged_step(args),
        Call::Diff(args) => diff_step(args),
        Call::Commit(args) => commit_step(args),
        Call::Add(args) => add_step(args),
        Call::Reset => reset_step(),
        Call::Log(args) => log_step(args),
        Call::CreateBranch(args) => create_branch_step(args),
        Call::Checkout(args) => checkout_step(args),
        Call::Show(args) => show_step(args),
        Call::Branch(args) => branch_step(args),
    }
}

/// The answer from `step` on, where the processes that are started from there come out as
/// `outcomes`, one after the other; none where there are too few of them.
pub open spec fn answer(step: StepView, outcomes: Seq<Outcome>) -> Option<TextResult>
    decreases outcomes.len(),
{
    match step {
        StepView::Reply(result) => Some(result),
        StepView::Run { words, pending } => if outcomes.len() == 0 {
            None
        } else {
            answer(
                resume_step(pending, outcome_choice(words, outcomes[0])),
                outcomes.drop_first(),
            )
        },
    }
}

/// The words of the command that is run once the processes started from `step` on have come
/// out as `outcomes`; none where the call has been answered.
pub open spec fn running(step: StepView, outcomes: Seq<Outcome>) -> Option<Seq<Seq<char>>>
    decreases outcomes.len(),
{
    match step {
        StepView::Reply(_) => None,
        StepView::Run { words, pending } => if outcomes.len() == 0 {
            Some(words)
        } else {
            running(
                resume_step(pending, outcome_choice(words, outcomes[0])),
                outcomes.drop_first(),
            )
        },
    }
}

/// The process was started and its exit code was zero.
pub open spec fn succeeded(outcome: Outcome) -> bool {
    outcome matches Outcome::Exited { success, .. } && success
}

/// The word begins with `-`.
pub open spec fn option_like(word: Seq<char>) -> bool {
    word.len() > 0 && word[0] == '-'
}

/// A `--` stands before the word, so git takes it for a path.
pub open spec fn separated(words: Seq<Seq<char>>, i: int) -> bool {
    exists|j: int| 0 <= j < i && #[trigger] words[j] == "--"@
}

/// The word is the message of a commit, the value of `-m`.
pub open spec fn is_message(words: Seq<Seq<char>>, i: int) -> bool {
    i == 2 && words[0] == "commit"@ && words[1] == "-m"@
}

/// A flag that the tools use. What a client writes can only stand behind its `=`.
pub open spec fn known_flag(word: Seq<char>) -> bool {
    ||| word == "--"@
    ||| word == "-m"@
    ||| word == "--cached"@
    ||| word == "--quiet"@
    ||| word == "--remotes"@
    ||| word == "--all"@
    ||| "--unified="@.is_prefix_of(word)
    ||| "--max-count="@.is_prefix_of(word)
    ||| "--format="@.is_prefix_of(word)
    ||| "--since="@.is_prefix_of(word)
    ||| "--until="@.is_prefix_of(word)
    ||| "--contains="@.is_prefix_of(word)
    ||| "--no-contains="@.is_prefix_of(word)
}

/// The commands that the tools run.
pub open spec fn known_command(word: Seq<char>) -> bool {
    ||| word == "status"@
    ||| word == "diff"@
    ||| word == "commit"@
    ||| word == "rev-parse"@
    ||| word == "add"@
    ||| word == "reset"@
    ||| word == "log"@
    ||| word == "branch"@
    ||| word == "checkout"@
    ||| word == "show"@
}

/// Git reads a command of the tools from the words, and no flag but those of the tools.
pub open spec fn flags_are_known(words: Seq<Seq<char>>) -> bool {
    &&& words.len() > 0
    &&& known_command(words[0])
    &&& forall|i: int|
        0 <= i < words.len() && option_like(#[trigger] words[i]) && !separated(words, i)
            && !is_message(words, i) ==> known_flag(words[i])
}

/// The value of a client that the word at `i` is made of, where it stands there by itself
/// and not behind `--`: the target of a diff, a branch, its base, a revision.
pub open spec fn client_value(call: Call, i: int) -> Option<Seq<char>> {
    match call {
        Call::Diff(args) if i == 2 => Some(args.target@),
        Call::CreateBranch(args) if i == 1 => Some(args.branch_name@),
        Call::CreateBranch(args) if i == 2 => text_option(args.base_branch),
        Call::Checkout(args) if i == 1 => Some(args.branch_name@),
        Call::Show(args) if i == 1 => Some(args.revision@),
        _ => None,
    }
}

/// A value is taken exactly where, without the white space around it, it is not empty and
/// does not begin with `-`; it is taken without that white space, and taking it again
/// changes nothing.
pub proof fn positional_values_are_never_flags(name: Seq<char>, value: Seq<char>)
    ensures
        positional_choice(name, value) is Ok <==> trimmed(value).len() > 0 && trimmed(value)[0]
            != '-',
        positional_choice(name, value) matches Ok(kept) ==> {
            &&& kept == trimmed(value)
            &&& !blank(kept)
            &&& !option_like(kept)
            &&& !white_space(kept[0])
            &&& !white_space(kept.last())
            &&& forall|other: Seq<char>| #[trigger]
                positional_choice(other, kept) == TextResult::Ok(kept)
        },
{
    trimming_removes_outer_white_space(value);
    trimming_is_idempotent(value);
    if let Ok(kept) = positional_choice(name, value) {
        assert(!white_space(kept[0]));
    }
}

/// White space around a value makes no difference to whether and as what it is taken.
pub proof fn white_space_around_a_value_is_ignored(
    name: Seq<char>,
    before: Seq<char>,
    value: Seq<char>,
    behind: Seq<char>,
)
    requires
        blank(before),
        blank(behind),
    ensures
        positional_choice(name, before + value + behind) == positional_choice(name, value),
{
    trimming_ignores_white_space_around(before, value, behind);
    trimming_removes_outer_white_space(before + value + behind);
    trimming_removes_outer_white_space(value);
}

/// The error for a value that is not taken begins with the name of the argument.
pub proof fn positional_errors_name_the_argument(name: Seq<char>, value: Seq<char>)
    ensures
        positional_choice(name, value) matches Err(error) ==> name.is_prefix_of(error),
{
}

/// An omitted option has no word, and any other one word, which begins with the key.
proof fn lemma_option_words(key: Seq<char>, name: Seq<char>, value: Option<Seq<char>>)
    ensures
        option_words(key, name, value) matches Ok(more) ==> {
            &&& more.len() <= 1
            &&& more.len() == 1 ==> key.is_prefix_of(more[0])
        },
{
}

proof fn lemma_log_flags(args: LogArgs)
    ensures
        log_step(args) matches StepView::Run { words, .. } ==> flags_are_known(words),
{
    reveal_strlit("log");
    reveal_strlit("--format=");
    reveal_strlit("--format=Commit: %H%nAuthor: %an <%ae>%nDate: %aI%nMessage: %s%n");
    lemma_option_words("--since="@, "start_timestamp"@, text_option(args.start_timestamp));
    lemma_option_words("--until="@, "end_timestamp"@, text_option(args.end_timestamp));
    if let StepView::Run { words, .. } = log_step(args) {
        assert forall|i: int|
            0 <= i < words.len() && option_like(#[trigger] words[i]) implies known_flag(
            words[i],
        ) by {
            if i == 1 {
                assert("--max-count="@.is_prefix_of(words[i]));
            } else if i == 2 {
                assert("--format="@.is_prefix_of(words[i]));
            } else if i == 4 {
                assert("--until="@.is_prefix_of(words[i]));
            }
        }
    }
}

proof fn lemma_branch_flags(args: BranchArgs)
    ensures
        branch_step(args) matches StepView::Run { words, .. } ==> flags_are_known(words),
{
    reveal_strlit("branch");
    lemma_option_words("--contains="@, "contains"@, text_option(args.contains));
    lemma_option_words("--no-contains="@, "not_contains"@, text_option(args.not_contains));
    if let StepView::Run { words, .. } = branch_step(args) {
        assert forall|i: int|
            0 <= i < words.len() && option_like(#[trigger] words[i]) implies known_flag(
            words[i],
        ) by {}
    }
}

proof fn lemma_create_branch_flags(args: CreateBranchArgs)
    ensures
        create_branch_step(args) matches StepView::Run { words, .. } ==> flags_are_known(words),
{
    reveal_strlit("branch");
}

proof fn lemma_add_flags(args: AddArgs)
    ensures
        add_step(args) matches StepView::Run { words, .. } ==> flags_are_known(words),
{
    reveal_strlit("add");
    if let StepView::Run { words, .. } = add_step(args) {
        assert(words[0] == "add"@);
        assert(words[1] == "--"@);
    }
}

/// The values of a client that stand by themselves before `--` stand there without the
/// white space around them, and do not begin with `-`.
proof fn lemma_client_values(call: Call, i: int)
    ensures
        first_step(call) matches StepView::Run { words, .. } ==> (client_value(
            call,
            i,
        ) matches Some(value) ==> {
            &&& 0 <= i < words.len()
            &&& words[i] == trimmed(value)
            &&& !option_like(words[i])
            &&& !separated(words, i)
        }),
{
    reveal_strlit("--");
    reveal_strlit("diff");
    reveal_strlit("--unified=");
    reveal_strlit("branch");
    reveal_strlit("checkout");
    reveal_strlit("show");
    if let StepView::Run { words, .. } = first_step(call) {
        if let Some(value) = client_value(call, i) {
            positional_values_are_never_flags(seq![], value);
            assert(words[0] != "--"@) by {
                assert(words[0].len() > 2);
            }
            assert(i == 2 ==> words[1] != "--"@) by {
                match call {
                    Call::Diff(_) => {
                        assert(words[1].len() > 2);
                    },
                    Call::CreateBranch(args) => {
                        assert(words[1][0] != '-');
                    },
                    _ => {},
                }
            }
        }
    }
}

/// No text of a client becomes a flag of git, whatever the call. Before `--`, and but for
/// the message of a commit, a word that begins with `-` is a flag of the tools; and a value
/// of the client that stands there by itself never begins with `-`, not even where it would
/// make such a flag. The command is always one of the tools.
pub proof fn client_text_is_never_a_flag(call: Call, result: TextResult)
    ensures
        first_step(call) matches StepView::Run { words, pending } ==> {
            &&& flags_are_known(words)
            &&& forall|i: int|
                (#[trigger] client_value(call, i)) matches Some(value) ==> {
                    &&& 0 <= i < words.len()
                    &&& words[i] == trimmed(value)
                    &&& !option_like(words[i])
                    &&& !separated(words, i)
                }
            &&& resume_step(pending, result) matches StepView::Run { words, .. } ==> flags_are_known(
                words,
            )
        },
{
    if let StepView::Run { words, pending } = first_step(call) {
        assert(flags_are_known(words)) by {
            match call {
                Call::Status => {
                    reveal_strlit("status");
                },
                Call::DiffUnstaged(args) => {
                    reveal_strlit("diff");
                    assert("--unified="@.is_prefix_of(words[1]));
                },
                Call::DiffStaged(args) => {
                    reveal_strlit("diff");
                    assert("--unified="@.is_prefix_of(words[2]));
                },
                Call::Diff(args) => {
                    reveal_strlit("diff");
                    assert("--unified="@.is_prefix_of(words[1]));
                },
                Call::Commit(args) => {
                    reveal_strlit("commit");
                },
                Call::Add(args) => {
                    lemma_add_flags(args);
                },
                Call::Reset => {
                    reveal_strlit("reset");
                },
                Call::Log(args) => {
                    lemma_log_flags(args);
                },
                Call::CreateBranch(args) => {
                    lemma_create_branch_flags(args);
                },
                Call::Checkout(args) => {
                    reveal_strlit("checkout");
                },
                Call::Show(args) => {
                    reveal_strlit("show");
                },
                Call::Branch(args) => {
                    lemma_branch_flags(args);
                },
            }
        }
        assert forall|i: int| (#[trigger] client_value(call, i)) is Some implies {
            &&& 0 <= i < words.len()
            &&& words[i] == trimmed(client_value(call, i)->0)
            &&& !option_like(words[i])
            &&& !separated(words, i)
        } by {
            lemma_client_values(call, i);
        }
        assert(resume_step(pending, result) matches StepView::Run { words, .. } ==> flags_are_known(
            words,
        )) by {
            reveal_strlit("rev-parse");
            reveal_strlit("HEAD");
        }
    }
}

/// None of the flags of the tools is `--output`.
proof fn lemma_known_flag_is_not_output(word: Seq<char>)
    requires
        known_flag(word),
    ensures
        !"--output"@.is_prefix_of(word),
{
    reveal_strlit("--output");
    reveal_strlit("--");
    reveal_strlit("-m");
    reveal_strlit("--cached");
    reveal_strlit("--quiet");
    reveal_strlit("--remotes");
    reveal_strlit("--all");
    reveal_strlit("--unified=");
    reveal_strlit("--max-count=");
    reveal_strlit("--format=");
    reveal_strlit("--since=");
    reveal_strlit("--until=");
    reveal_strlit("--contains=");
    reveal_strlit("--no-contains=");
    let flags = seq![
        "--output"@,
        "--unified="@,
        "--max-count="@,
        "--format="@,
        "--since="@,
        "--until="@,
        "--contains="@,
        "--no-contains="@,
    ];
    assert forall|i: int|
        0 <= i < flags.len() && (#[trigger] flags[i]).is_prefix_of(word) implies word[2]
        == flags[i][2] by {
        let flag = flags[i];
        assert(flag[2] == word.subrange(0, flag.len() as int)[2]);
    }
    assert(flags[0] == "--output"@);
    assert(flags[1] == "--unified="@);
    assert(flags[2] == "--max-count="@);
    assert(flags[3] == "--format="@);
    assert(flags[4] == "--since="@);
    assert(flags[5] == "--until="@);
    assert(flags[6] == "--contains="@);
    assert(flags[7] == "--no-contains="@);
}

/// No call makes git write its output to a file: before `--`, and but for the message of a
/// commit, no word begins with `--output`.
pub proof fn no_call_redirects_output(call: Call)
    ensures
        first_step(call) matches StepView::Run { words, .. } ==> forall|i: int|
            0 <= i < words.len() && "--output"@.is_prefix_of(#[trigger] words[i]) ==> separated(
                words,
                i,
            ) || is_message(words, i),
{
    client_text_is_never_a_flag(call, TextResult::Ok(seq![]));
    if let StepView::Run { words, .. } = first_step(call) {
        assert forall|i: int|
            0 <= i < words.len() && "--output"@.is_prefix_of(#[trigger] words[i]) implies separated(
            words,
            i,
        ) || is_message(words, i) by {
            reveal_strlit("--output");
            assert(words[i].subrange(0, 8)[0] == words[i][0]);
            assert(option_like(words[i]));
            if known_flag(words[i]) {
                lemma_known_flag_is_not_output(words[i]);
            }
        }
    }
}

/// A call that runs no command is answered with an error.
pub proof fn a_call_without_a_command_is_refused(call: Call)
    ensures
        first_step(call) matches StepView::Reply(result) ==> result is Err,
{
}

/// A call is refused, before any command is run, exactly where an argument may not stand
/// on the command line, the message of a commit is blank, there is no file to add, or the
/// kind of branches is not known.
pub open spec fn refused(call: Call) -> bool {
    match call {
        Call::Status | Call::Reset | Call::DiffUnstaged(_) | Call::DiffStaged(_) => false,
        Call::Diff(args) => unusable(args.target@),
        Call::Commit(args) => blank(args.message@),
        Call::Add(args) => args.files@.len() == 0,
        Call::Log(args) => unusable_option(args.start_timestamp) || unusable_option(
            args.end_timestamp,
        ),
        Call::CreateBranch(args) => unusable(args.branch_name@) || unusable_option(
            args.base_branch,
        ),
        Call::Checkout(args) => unusable(args.branch_name@),
        Call::Show(args) => unusable(args.revision@),
        Call::Branch(args) => {
            ||| args.branch_type@ != "local"@ && args.branch_type@ != "remote"@
                && args.branch_type@ != "all"@
            ||| unusable_option(args.contains)
            ||| unusable_option(args.not_contains)
        },
    }
}

/// Without the white space around it, the value is empty or begins with `-`.
pub open spec fn unusable(value: Seq<char>) -> bool {
    trimmed(value).len() == 0 || trimmed(value)[0] == '-'
}

/// There is a value, and it is not usable.
pub open spec fn unusable_option(value: Option<String>) -> bool {
    value matches Some(value) && unusable(value@)
}

/// The calls that run no command are the refused ones.
pub proof fn refused_calls_run_nothing(call: Call)
    ensures
        first_step(call) is Reply <==> refused(call),
{
    match call {
        Call::Diff(args) => {
            trimming_removes_outer_white_space(args.target@);
        },
        Call::Log(args) => {
            if let Some(value) = args.start_timestamp {
                trimming_removes_outer_white_space(value@);
            }
            if let Some(value) = args.end_timestamp {
                trimming_removes_outer_white_space(value@);
            }
        },
        Call::CreateBranch(args) => {
            trimming_removes_outer_white_space(args.branch_name@);
            if let Some(value) = args.base_branch {
                trimming_removes_outer_white_space(value@);
            }
        },
        Call::Checkout(args) => {
            trimming_removes_outer_white_space(args.branch_name@);
        },
        Call::Show(args) => {
            trimming_removes_outer_white_space(args.revision@);
        },
        Call::Branch(args) => {
            if let Some(value) = args.contains {
                trimming_removes_outer_white_space(value@);
            }
            if let Some(value) = args.not_contains {
                trimming_removes_outer_white_space(value@);
            }
        },
        _ => {},
    }
}

/// Every call is answered: after at most two commands, and after at most one where it is
/// not a commit.
pub proof fn every_call_is_answered(call: Call, outcomes: Seq<Outcome>)
    ensures
        outcomes.len() >= 2 || outcomes.len() == 1 && !(call is Commit) ==> answer(
            first_step(call),
            outcomes,
        ) is Some,
{
    reveal_with_fuel(answer, 3);
}

/// A command is an error exactly where its process was not started or did not succeed.
pub proof fn a_command_fails_with_its_process(words: Seq<Seq<char>>, outcome: Outcome)
    ensures
        outcome_choice(words, outcome) is Ok <==> succeeded(outcome),
{
}

/// The error of a command whose process ended names the command.
pub proof fn a_failed_command_is_named(words: Seq<Seq<char>>, outcome: Outcome)
    requires
        words.len() > 0,
        outcome is Exited,
    ensures
        outcome_choice(words, outcome) matches Err(error) ==> ("git "@
            + words[0]).is_prefix_of(error),
{
}

/// Where a command is run and its process does not succeed, the call is answered with the
/// error of that command, and nothing is run behind it.
pub proof fn a_failed_command_fails_the_call(step: StepView, outcomes: Seq<Outcome>, k: int)
    requires
        0 <= k < outcomes.len(),
        running(step, outcomes.take(k)) is Some,
        !succeeded(outcomes[k]),
    ensures
        answer(step, outcomes) == Some(
            outcome_choice(running(step, outcomes.take(k))->0, outcomes[k]),
        ),
        answer(step, outcomes)->0 is Err,
        running(step, outcomes.take(k + 1)) is None,
    decreases k,
{
    let rest = outcomes.drop_first();
    if let StepView::Run { words, pending } = step {
        let next = resume_step(pending, outcome_choice(words, outcomes[0]));
        assert(outcomes.take(k + 1).drop_first() =~= rest.take(k));
        if k > 0 {
            assert(outcomes.take(k).drop_first() =~= rest.take(k - 1));
            a_failed_command_fails_the_call(next, rest, k - 1);
        } else {
            a_command_fails_with_its_process(words, outcomes[0]);
            assert(answer(next, rest) == Some(outcome_choice(words, outcomes[0])));
            assert(running(next, rest.take(0)) is None);
        }
    }
}

/// A commit is answered with the trimmed hash that `git rev-parse HEAD` prints once the
/// commit has been made, whatever the commit printed.
pub proof fn a_commit_is_answered_with_its_hash(args: CommitArgs, outcomes: Seq<Outcome>)
    requires
        !blank(args.message@),
        outcomes.len() == 2,
        succeeded(outcomes[0]),
        succeeded(outcomes[1]),
    ensures
        commit_step(args) matches StepView::Run { words, .. } && words == seq![
            "commit"@,
            "-m"@,
            args.message@,
        ],
        outcomes[1] matches Outcome::Exited { stdout, .. } ==> answer(
            first_step(Call::Commit(args)),
            outcomes,
        ) == Some(
            TextResult::Ok(
                "Changes committed successfully with hash "@ + trimmed(lossy_text(stdout@)),
            ),
        ),
{
    reveal_with_fuel(answer, 3);
}

/// Where a tool shows the output of git under a title, something stands under the title:
/// the output as it is, or an explanation where the output is blank.
pub proof fn a_titled_answer_is_never_empty(call: Call, output: Seq<char>)
    ensures
        first_step(call) matches StepView::Run {
            pending: PendingView::Titled { title, empty },
            ..
        } ==> {
            let body = if blank(output) {
                empty
            } else {
                output
            };
            &&& !blank(body)
            &&& resume_step(
                PendingView::Titled { title, empty },
                TextResult::Ok(output),
            ) == StepView::Reply(TextResult::Ok(title + "\n"@ + body))
        },
{
    reveal_strlit("(no unstaged changes)");
    reveal_strlit("(no staged changes)");
    reveal_strlit("(no differences)");
    reveal_strlit("(no commits)");
    reveal_strlit("(no branches)");
    if let StepView::Run { pending: PendingView::Titled { title, empty }, .. } = first_step(call) {
        assert(empty[0] == '(');
    }
}

/// Every process works in the root that the server was opened for, whatever the words of
/// the command: they follow the root, unchanged and in their order.
pub proof fn every_command_runs_in_the_root(root: Seq<u8>, words: Seq<Seq<char>>)
    ensures
        invocation_args(root, words).take(2) == seq![encode_utf8("-C"@), root],
        invocation_args(root, words).skip(4).map_values(|arg: Seq<u8>| decode_utf8(arg)) == words,
{
    broadcast use encode_utf8_decode_utf8;

    let args = invocation_args(root, words);
    assert(args.take(2) =~= seq![encode_utf8("-C"@), root]);
    assert(args.skip(4).map_values(|arg: Seq<u8>| decode_utf8(arg)) =~= words);
}

/// A repository is opened exactly where the path is a directory, has an entry `.git` and
/// can be resolved; its root is the resolved path.
pub proof fn a_repository_needs_a_git_entry(shown: Seq<char>, facts: PathFacts)
    ensures
        root_choice(shown, facts) is Ok <==> facts.is_dir && facts.has_git && facts.canonical is Ok,
        root_choice(shown, facts) matches Ok(root) ==> facts.canonical matches Ok(path) && root
            == path@,
{
}

/// Both forms of the argument name the same path, and what follows makes no difference.
pub proof fn both_forms_name_the_path(path: Seq<char>, rest: Seq<Seq<char>>)
    ensures
        repository_choice(seq!["--repository"@, path] + rest) == TextResult::Ok(path),
        repository_choice(seq!["--repository="@ + path] + rest) == TextResult::Ok(path),
{
    reveal_strlit("--repository");
    reveal_strlit("--repository=");
    let joined = "--repository="@ + path;
    assert((seq!["--repository="@ + path] + rest)[0] == joined);
    assert(joined.len() > "--repository"@.len());
    assert("--repository="@.is_prefix_of(joined));
    assert(joined.skip("--repository="@.len() as int) =~= path);
}

/// Once the arguments name a path, those behind them make no difference.
pub proof fn a_named_path_is_settled(args: Seq<Seq<char>>, more: Seq<Seq<char>>)
    requires
        repository_choice(args) is Ok,
    ensures
        repository_choice(args + more) == repository_choice(args),
    decreases args.len(),
{
    assert((args + more)[0] == args[0]);
    if args[0] != "--repository"@ && !"--repository="@.is_prefix_of(args[0]) {
        assert((args + more).drop_first() =~= args.drop_first() + more);
        a_named_path_is_settled(args.drop_first(), more);
    }
}

/// Arguments that do not name a repository are passed over.
pub proof fn other_arguments_are_passed_over(before: Seq<Seq<char>>, args: Seq<Seq<char>>)
    requires
        forall|i: int|
            0 <= i < before.len() ==> #[trigger] before[i] != "--repository"@
                && !"--repository="@.is_prefix_of(before[i]),
    ensures
        repository_choice(before + args) == repository_choice(args),
    decreases before.len(),
{
    if before.len() == 0 {
        assert(before + args =~= args);
    } else {
        let rest = before.drop_first();
        assert((before + args)[0] == before[0]);
        assert((before + args).drop_first() =~= rest + args);
        assert forall|i: int| 0 <= i < rest.len() implies #[trigger] rest[i] != "--repository"@
            && !"--repository="@.is_prefix_of(rest[i]) by {
            assert(rest[i] == before[i + 1]);
        }
        other_arguments_are_passed_over(rest, args);
    }
}

/// Where no argument names a repository, the error says how the program is used; where the
/// last one is `--repository`, that the path is missing.
pub proof fn a_missing_path_is_explained(before: Seq<Seq<char>>)
    requires
        forall|i: int|
            0 <= i < before.len() ==> #[trigger] before[i] != "--repository"@
                && !"--repository="@.is_prefix_of(before[i]),
    ensures
        repository_choice(before) == TextResult::Err(
            "использование: agentcli-git-mcp --repository <путь к git-репозиторию>"@,
        ),
        repository_choice(before + seq!["--repository"@]) == TextResult::Err(
            "после --repository нужен путь"@,
        ),
{
    other_arguments_are_passed_over(before, seq![]);
    other_arguments_are_passed_over(before, seq!["--repository"@]);
    assert(before + seq![] =~= before);
}

/// A value that is not taken is refused for one of two reasons: without the white space around
/// it nothing is left, or what is left, which the error gives, begins with `-`.
pub proof fn positional_refusals_are_explained(name: Seq<char>, value: Seq<char>)
    ensures
        trimmed(value).len() == 0 ==> positional_choice(name, value) == TextResult::Err(
            name + " не задан"@,
        ),
        trimmed(value).len() > 0 && trimmed(value)[0] == '-' ==> positional_choice(name, value)
            == TextResult::Err(name + " не может начинаться с «-»: "@ + trimmed(value)),
{
    trimming_removes_outer_white_space(value);
}

/// The result of a process that succeeded is all that it wrote to its standard output, whatever
/// it wrote to its standard error. One that failed gives what it wrote to its standard error,
/// or, where that is blank, to its output, without the white space around it, and the first
/// word of the command.
pub proof fn a_result_is_what_git_wrote(
    words: Seq<Seq<char>>,
    stdout: Seq<char>,
    stderr: Seq<char>,
)
    ensures
        exit_choice(words, true, stdout, stderr) == TextResult::Ok(stdout),
        ({
            let command = if words.len() == 0 {
                ""@
            } else {
                words.first()
            };
            let failure = "git "@ + command + " завершился с ошибкой: "@;
            &&& !blank(stderr) ==> exit_choice(words, false, stdout, stderr) == TextResult::Err(
                failure + trimmed(stderr),
            )
            &&& blank(stderr) ==> exit_choice(words, false, stdout, stderr) == TextResult::Err(
                failure + trimmed(stdout),
            )
        }),
{
}

/// A process is heard as its two streams are decoded, each by itself; one that was not started
/// gives the reason.
pub proof fn an_outcome_is_heard(words: Seq<Seq<char>>, outcome: Outcome)
    ensures
        outcome matches Outcome::NotStarted(error) ==> outcome_choice(words, outcome)
            == TextResult::Err("не удалось запустить git: "@ + error@),
        outcome matches Outcome::Exited { success, stdout, stderr } ==> outcome_choice(
            words,
            outcome,
        ) == exit_choice(words, success, lossy_text(stdout@), lossy_text(stderr@)),
        outcome matches Outcome::Exited { success, stdout, .. } ==> success ==> outcome_choice(
            words,
            outcome,
        ) == TextResult::Ok(lossy_text(stdout@)),
{
}

/// Between the root and the words of the command, git is told to print paths as they are, and
/// nothing else; every word is handed over, each in UTF-8.
pub proof fn a_process_gets_every_word(root: Seq<u8>, words: Seq<Seq<char>>)
    ensures
        invocation_args(root, words).len() == words.len() + 4,
        invocation_args(root, words).subrange(2, 4) == seq![
            encode_utf8("-c"@),
            encode_utf8("core.quotepath=off"@),
        ],
        forall|i: int|
            0 <= i < words.len() ==> #[trigger] invocation_args(root, words)[i + 4] == encode_utf8(
                words[i],
            ),
{
    assert(invocation_args(root, words).subrange(2, 4) =~= seq![
        encode_utf8("-c"@),
        encode_utf8("core.quotepath=off"@),
    ]);
}

/// A process has no pager, no editor and no prompt: three variables say so, and no other is set.
pub proof fn a_process_is_not_interactive()
    ensures
        invocation_env().len() == 3,
        invocation_env().contains(("GIT_PAGER"@, "cat"@)),
        invocation_env().contains(("GIT_EDITOR"@, "true"@)),
        invocation_env().contains(("GIT_TERMINAL_PROMPT"@, "0"@)),
{
    assert(invocation_env()[0] == ("GIT_PAGER"@, "cat"@));
    assert(invocation_env()[1] == ("GIT_EDITOR"@, "true"@));
    assert(invocation_env()[2] == ("GIT_TERMINAL_PROMPT"@, "0"@));
}

/// Where there is no repository at the path, the error gives the path and the reason: it is no
/// directory; or it has no entry `.git`; or it cannot be resolved.
pub proof fn a_missing_repository_is_explained(shown: Seq<char>, facts: PathFacts)
    ensures
        !facts.is_dir ==> root_choice(shown, facts) == Err::<RepoPathView, Seq<char>>(
            "каталог "@ + shown + " не существует"@,
        ),
        facts.is_dir && !facts.has_git ==> root_choice(shown, facts) == Err::<
            RepoPathView,
            Seq<char>,
        >(shown + " — не git-репозиторий (нет .git)"@),
        facts.is_dir && facts.has_git ==> (facts.canonical matches Err(error) ==> root_choice(
            shown,
            facts,
        ) == Err::<RepoPathView, Seq<char>>(
            "не удалось разрешить путь "@ + shown + ": "@ + error@,
        )),
{
}

/// The models of results, lists and options hold every text of them, in its place and whole.
pub proof fn models_hold_every_text(
    result: GitResult,
    list: Seq<String>,
    value: Option<String>,
    bytes: Seq<Vec<u8>>,
    path: RepoPath,
    repo: Result<Repo, String>,
)
    ensures
        result matches Ok(output) ==> result_text(result) == TextResult::Ok(output@),
        result matches Err(error) ==> result_text(result) == TextResult::Err(error@),
        texts(list).len() == list.len(),
        forall|i: int| 0 <= i < list.len() ==> #[trigger] texts(list)[i] == list[i]@,
        value is None ==> text_option(value) is None,
        value matches Some(text) ==> text_option(value) == Some(text@),
        byte_strings(bytes).len() == bytes.len(),
        forall|i: int| 0 <= i < bytes.len() ==> #[trigger] byte_strings(bytes)[i] == bytes[i]@,
        path@.bytes == path.bytes@,
        path@.shown == path.shown@,
        repo matches Ok(repo) ==> opened(Ok(repo)) == Ok::<RepoPathView, Seq<char>>(repo@),
        repo matches Err(error) ==> opened(Err(error)) == Err::<RepoPathView, Seq<char>>(error@),
{
}

/// The models of the steps of a call hold their words and texts, and keep their kinds apart.
pub proof fn models_hold_every_step(step: Step)
    ensures
        step matches Step::Reply(result) ==> step@ == StepView::Reply(result_text(result)),
        step matches Step::Run { words, pending } ==> step@ == (StepView::Run {
            words: texts(words@),
            pending: pending@,
        }),
        step matches Step::Run { pending, .. } ==> {
            &&& pending is Status <==> pending@ is Status
            &&& pending is Raw <==> pending@ is Raw
            &&& pending is Committed <==> pending@ is Committed
            &&& pending is Hash <==> pending@ is Hash
            &&& pending matches Pending::Titled { title, empty } ==> pending@ == (
            PendingView::Titled { title: title@, empty: empty@ })
            &&& pending matches Pending::Fixed { reply } ==> pending@ == (PendingView::Fixed {
                reply: reply@,
            })
        },
{
}

} // verus!
