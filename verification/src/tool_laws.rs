//! What each tool does with its arguments and with the output of git.

use crate::args::{
    AddArgs, BranchArgs, CheckoutArgs, CommitArgs, CreateBranchArgs, DiffArgs, DiffTargetArgs,
    LogArgs, ShowArgs, DEFAULT_CONTEXT_LINES, DEFAULT_LOG_COUNT,
};
use crate::git::{Outcome, TextResult};
use crate::laws::{answer, refused_calls_run_nothing, unusable, unusable_option, Call};
use crate::server::{
    add_step, branch_step, checkout_step, commit_step, create_branch_step, diff_staged_step,
    diff_step, diff_unstaged_step, instructions_text, log_step, reset_step, resume_step, show_step,
    status_step, titled_text, PendingView, StepView,
};
use crate::text::{
    blank, decimal, decimal_denotes_its_number, lossy_text, numeral_value, trimmed,
    trimming_removes_outer_white_space,
};
use vstd::prelude::*;

verus! {

/// The word is the key followed by the decimal numeral of `n`.
pub open spec fn has_numeral(word: Seq<char>, key: Seq<char>, n: int) -> bool {
    let numeral = word.skip(key.len() as int);
    &&& key.is_prefix_of(word)
    &&& numeral.len() > 0
    &&& numeral.len() > 1 ==> numeral[0] != '0'
    &&& forall|i: int| 0 <= i < numeral.len() ==> '0' <= #[trigger] numeral[i] <= '9'
    &&& numeral_value(numeral) == n
}

/// The words have the option with this key exactly where its value is given: as one word, the
/// key followed by the value without the white space around it.
pub open spec fn has_option(words: Seq<Seq<char>>, key: Seq<char>, value: Option<String>) -> bool {
    &&& forall|i: int|
        0 <= i < words.len() && key.is_prefix_of(#[trigger] words[i]) ==> {
            &&& value is Some
            &&& words[i] == key + trimmed(value->0@)
        }
    &&& value is Some ==> exists|i: int|
        0 <= i < words.len() && key.is_prefix_of(#[trigger] words[i])
}

/// One where the value is given.
pub open spec fn given(value: Option<String>) -> int {
    if value is Some {
        1
    } else {
        0
    }
}

/// The step runs a command, and the call is answered with `text` where git prints `output`.
pub open spec fn shows(step: StepView, output: Seq<char>, text: Seq<char>) -> bool {
    step matches StepView::Run { pending, .. } && resume_step(pending, TextResult::Ok(output))
        == StepView::Reply(TextResult::Ok(text))
}

/// The call is answered with this error, and nothing is run.
pub open spec fn refuses(step: StepView, error: Seq<char>) -> bool {
    step == StepView::Reply(TextResult::Err(error))
}

/// The error for a value of the argument `name` that is not usable.
pub open spec fn unusable_text(name: Seq<char>, value: Seq<char>) -> Seq<char> {
    if trimmed(value).len() == 0 {
        name + " не задан"@
    } else {
        name + " не может начинаться с «-»: "@ + trimmed(value)
    }
}

/// An option with a numeral is the key followed by the numeral.
proof fn lemma_has_numeral(key: Seq<char>, n: nat)
    ensures
        has_numeral(key + decimal(n), key, n as int),
{
    decimal_denotes_its_number(n);
    assert((key + decimal(n)).skip(key.len() as int) =~= decimal(n));
}

/// Numerals are those of base ten: another digit behind a numeral makes ten times the number
/// and the digit.
pub proof fn numerals_grow_digit_by_digit(n: nat, d: nat)
    requires
        d < 10,
    ensures
        decimal(d) == seq![decimal(d)[0]],
        decimal(d)[0] as int == '0' as int + d,
        n > 0 ==> decimal((10 * n + d) as nat) == decimal(n) + decimal(d),
{
    if n > 0 {
        let m = (10 * n + d) as nat;
        assert(m / 10 == n && m % 10 == d);
        assert(decimal(m) =~= decimal(n) + decimal(d));
    }
}

/// `git_status` runs `git status` and shows all that it prints, behind a heading.
pub proof fn status_shows_the_status(output: Seq<char>)
    ensures
        status_step() matches StepView::Run { words, .. } && words == seq!["status"@],
        shows(status_step(), output, "Repository status:\n"@ + output),
{
}

/// For every number of context lines, `git_diff_staged` runs a `git diff` with `--cached`, and
/// `git_diff_unstaged` one without it; both ask for that number of lines, and for nothing else.
pub proof fn only_the_staged_diff_is_cached(args: DiffArgs)
    ensures
        diff_staged_step(args) matches StepView::Run { words, .. } && {
            &&& words.len() == 3
            &&& words[0] == "diff"@
            &&& words.contains("--cached"@)
            &&& exists|i: int|
                0 <= i < words.len() && has_numeral(
                    #[trigger] words[i],
                    "--unified="@,
                    args.context_lines as int,
                )
        },
        diff_unstaged_step(args) matches StepView::Run { words, .. } && {
            &&& words.len() == 2
            &&& words[0] == "diff"@
            &&& !words.contains("--cached"@)
            &&& has_numeral(words[1], "--unified="@, args.context_lines as int)
        },
{
    reveal_strlit("diff");
    reveal_strlit("--cached");
    reveal_strlit("--unified=");
    lemma_has_numeral("--unified="@, args.context_lines as nat);
    if let StepView::Run { words, .. } = diff_staged_step(args) {
        assert(words[1] == "--cached"@);
        assert(has_numeral(words[2], "--unified="@, args.context_lines as int));
    }
    if let StepView::Run { words, .. } = diff_unstaged_step(args) {
        assert(words[0].len() != words[1].len());
        assert(words[0] != "--cached"@);
        assert(words[1][2] == 'u');
        assert("--cached"@[2] == 'c');
    }
}

/// Each diff is shown whole, under its own title; where there is none, the answer says so.
pub proof fn diffs_are_shown_under_their_titles(args: DiffArgs, output: Seq<char>)
    ensures
        !blank(output) ==> shows(
            diff_staged_step(args),
            output,
            "Staged changes:"@ + "\n"@ + output,
        ),
        blank(output) ==> shows(
            diff_staged_step(args),
            output,
            "Staged changes:"@ + "\n"@ + "(no staged changes)"@,
        ),
        !blank(output) ==> shows(
            diff_unstaged_step(args),
            output,
            "Unstaged changes:"@ + "\n"@ + output,
        ),
        blank(output) ==> shows(
            diff_unstaged_step(args),
            output,
            "Unstaged changes:"@ + "\n"@ + "(no unstaged changes)"@,
        ),
{
}

/// `git_diff` compares with the target, without the white space around it, and with the number
/// of context lines asked for. The target stands before `--`, so it is no path. The diff is
/// shown whole under a title that names the target.
pub proof fn diff_compares_with_its_target(args: DiffTargetArgs, output: Seq<char>)
    ensures
        unusable(args.target@) ==> refuses(
            diff_step(args),
            unusable_text("target"@, args.target@),
        ),
        !unusable(args.target@) ==> {
            &&& diff_step(args) matches StepView::Run { words, .. } && {
                &&& words.len() == 4
                &&& words[0] == "diff"@
                &&& has_numeral(words[1], "--unified="@, args.context_lines as int)
                &&& words[2] == trimmed(args.target@)
                &&& words[3] == "--"@
            }
            &&& !blank(output) ==> shows(
                diff_step(args),
                output,
                "Diff with "@ + trimmed(args.target@) + ":"@ + "\n"@ + output,
            )
            &&& blank(output) ==> shows(
                diff_step(args),
                output,
                "Diff with "@ + trimmed(args.target@) + ":"@ + "\n"@ + "(no differences)"@,
            )
        },
{
    trimming_removes_outer_white_space(args.target@);
    lemma_has_numeral("--unified="@, args.context_lines as nat);
}

/// `git_commit` commits with the message as it was given, every character of it, and then asks
/// for the hash of `HEAD`; the answer gives the hash without the white space around it. A blank
/// message is refused.
pub proof fn commit_keeps_its_message(args: CommitArgs, output: Seq<char>, hash: Seq<char>)
    ensures
        blank(args.message@) ==> refuses(
            commit_step(args),
            "сообщение коммита не может быть пустым"@,
        ),
        !blank(args.message@) ==> {
            &&& commit_step(args) matches StepView::Run { words, pending } && {
                &&& words.len() == 3
                &&& words[0] == "commit"@
                &&& words[1] == "-m"@
                &&& words[2] == args.message@
                &&& resume_step(pending, TextResult::Ok(output)) matches StepView::Run {
                    words: next,
                    ..
                } && next == seq!["rev-parse"@, "HEAD"@]
                &&& shows(
                    resume_step(pending, TextResult::Ok(output)),
                    hash,
                    "Changes committed successfully with hash "@ + trimmed(hash),
                )
            }
        },
{
}

/// `git_add` stages every file that it is given: behind the first `--` stand as many words as
/// there are files, and each is the file at its place, unchanged. What git prints makes no
/// difference to the answer.
pub proof fn add_stages_every_file(args: AddArgs, output: Seq<char>)
    ensures
        args.files@.len() == 0 ==> refuses(add_step(args), "список файлов пуст"@),
        args.files@.len() > 0 ==> {
            &&& add_step(args) matches StepView::Run { words, .. } && {
                &&& words.len() == args.files@.len() + 2
                &&& words[0] == "add"@
                &&& words[1] == "--"@
                &&& forall|i: int|
                    0 <= i < args.files@.len() ==> #[trigger] words[i + 2] == args.files@[i]@
            }
            &&& shows(add_step(args), output, "Files staged successfully"@)
        },
{
}

/// `git_reset` runs `git reset --quiet`, on everything that is staged.
pub proof fn reset_unstages_everything(output: Seq<char>)
    ensures
        reset_step() matches StepView::Run { words, .. } && words == seq!["reset"@, "--quiet"@],
        shows(reset_step(), output, "All staged changes reset"@),
{
}

/// `git_log` asks for as many commits as `max_count` says, and for one where it says none; from
/// the start date on where one is given, up to the end date where one is given, and not
/// otherwise; and for the hash, author, date and subject of each.
pub proof fn log_asks_for_the_commits_wanted(args: LogArgs)
    ensures
        unusable_option(args.start_timestamp) ==> refuses(
            log_step(args),
            unusable_text("start_timestamp"@, args.start_timestamp->0@),
        ),
        !unusable_option(args.start_timestamp) && unusable_option(args.end_timestamp) ==> refuses(
            log_step(args),
            unusable_text("end_timestamp"@, args.end_timestamp->0@),
        ),
        !unusable_option(args.start_timestamp) && !unusable_option(args.end_timestamp) ==> {
            log_step(args) matches StepView::Run { words, .. } && {
                &&& words.len() == 3 + given(args.start_timestamp) + given(args.end_timestamp)
                &&& words[0] == "log"@
                &&& has_numeral(
                    words[1],
                    "--max-count="@,
                    if args.max_count >= 1 {
                        args.max_count as int
                    } else {
                        1
                    },
                )
                &&& words[2]
                    == "--format=Commit: %H%nAuthor: %an <%ae>%nDate: %aI%nMessage: %s%n"@
                &&& has_option(words, "--since="@, args.start_timestamp)
                &&& has_option(words, "--until="@, args.end_timestamp)
            }
        },
{
    refused_calls_run_nothing(Call::Log(args));
    reveal_strlit("log");
    reveal_strlit("--max-count=");
    reveal_strlit("--format=Commit: %H%nAuthor: %an <%ae>%nDate: %aI%nMessage: %s%n");
    reveal_strlit("--since=");
    reveal_strlit("--until=");
    if let Some(value) = args.start_timestamp {
        trimming_removes_outer_white_space(value@);
    }
    if let Some(value) = args.end_timestamp {
        trimming_removes_outer_white_space(value@);
    }
    let count: nat = if args.max_count >= 1 {
        args.max_count as nat
    } else {
        1
    };
    lemma_has_numeral("--max-count="@, count);
    if let StepView::Run { words, .. } = log_step(args) {
        let since = "--since="@;
        let until = "--until="@;
        lemma_prefix_at(since, words, 2, 's');
        lemma_prefix_at(until, words, 2, 'u');
        assert(words[1] == "--max-count="@ + decimal(count));
        assert(words[1][2] == 'm');
        assert(words[2][2] == 'f');
        if args.start_timestamp is Some {
            assert(words[3] == since + trimmed(args.start_timestamp->0@));
            assert(words[3][2] == 's');
            assert(since.is_prefix_of(words[3]));
        }
        if args.end_timestamp is Some {
            let k = 3 + given(args.start_timestamp);
            assert(words[k] == until + trimmed(args.end_timestamp->0@));
            assert(words[k][2] == 'u');
            assert(until.is_prefix_of(words[k]));
        }
    }
}

/// A word with a prefix has the characters of the prefix.
proof fn lemma_prefix_at(key: Seq<char>, words: Seq<Seq<char>>, k: int, c: char)
    requires
        0 <= k < key.len(),
        key[k] == c,
    ensures
        forall|i: int|
            0 <= i < words.len() && key.is_prefix_of(#[trigger] words[i]) ==> words[i].len()
                >= key.len() && words[i][k] == c,
{
    assert forall|i: int|
        0 <= i < words.len() && key.is_prefix_of(#[trigger] words[i]) implies words[i].len()
        >= key.len() && words[i][k] == c by {
        assert(words[i].subrange(0, key.len() as int)[k] == words[i][k]);
    }
}

/// The history is shown whole under its title; where there is none, the answer says so.
pub proof fn log_is_shown_whole(args: LogArgs, output: Seq<char>)
    requires
        !unusable_option(args.start_timestamp),
        !unusable_option(args.end_timestamp),
    ensures
        !blank(output) ==> shows(log_step(args), output, "Commit history:"@ + "\n"@ + output),
        blank(output) ==> shows(
            log_step(args),
            output,
            "Commit history:"@ + "\n"@ + "(no commits)"@,
        ),
{
    refused_calls_run_nothing(Call::Log(args));
}

/// `git_create_branch` makes the branch of that name from the base that is given, and from
/// `HEAD` where none is; the answer names both.
pub proof fn create_branch_starts_from_its_base(args: CreateBranchArgs, output: Seq<char>)
    ensures
        unusable(args.branch_name@) ==> refuses(
            create_branch_step(args),
            unusable_text("branch_name"@, args.branch_name@),
        ),
        !unusable(args.branch_name@) && unusable_option(args.base_branch) ==> refuses(
            create_branch_step(args),
            unusable_text("base_branch"@, args.base_branch->0@),
        ),
        !unusable(args.branch_name@) && !unusable_option(args.base_branch) ==> {
            let name = trimmed(args.branch_name@);
            let base = if args.base_branch is Some {
                trimmed(args.base_branch->0@)
            } else {
                "HEAD"@
            };
            &&& create_branch_step(args) matches StepView::Run { words, .. } && {
                &&& words.len() == 2 + given(args.base_branch)
                &&& words[0] == "branch"@
                &&& words[1] == name
                &&& args.base_branch is Some ==> words[2] == base
            }
            &&& shows(
                create_branch_step(args),
                output,
                "Created branch '"@ + name + "' from '"@ + base + "'"@,
            )
        },
{
    trimming_removes_outer_white_space(args.branch_name@);
    if let Some(base) = args.base_branch {
        trimming_removes_outer_white_space(base@);
    }
}

/// `git_checkout` switches to the branch that is named, before `--`, so it is no path.
pub proof fn checkout_switches_to_its_branch(args: CheckoutArgs, output: Seq<char>)
    ensures
        unusable(args.branch_name@) ==> refuses(
            checkout_step(args),
            unusable_text("branch_name"@, args.branch_name@),
        ),
        !unusable(args.branch_name@) ==> {
            &&& checkout_step(args) matches StepView::Run { words, .. } && {
                &&& words.len() == 3
                &&& words[0] == "checkout"@
                &&& words[1] == trimmed(args.branch_name@)
                &&& words[2] == "--"@
            }
            &&& shows(
                checkout_step(args),
                output,
                "Switched to branch '"@ + trimmed(args.branch_name@) + "'"@,
            )
        },
{
    trimming_removes_outer_white_space(args.branch_name@);
}

/// `git_show` asks git for the revision that is named, and is answered with what git prints:
/// all of it, as it stands.
pub proof fn show_answers_with_the_whole_output(args: ShowArgs, outcomes: Seq<Outcome>)
    requires
        outcomes.len() >= 1,
    ensures
        unusable(args.revision@) ==> refuses(
            show_step(args),
            unusable_text("revision"@, args.revision@),
        ),
        !unusable(args.revision@) ==> {
            &&& show_step(args) matches StepView::Run { words, .. } && {
                &&& words.len() == 3
                &&& words[0] == "show"@
                &&& words[1] == trimmed(args.revision@)
                &&& words[2] == "--"@
            }
            &&& outcomes[0] matches Outcome::Exited { success, stdout, .. } ==> success ==> answer(
                show_step(args),
                outcomes,
            ) == Some(TextResult::Ok(lossy_text(stdout@)))
        },
        forall|output: Seq<char>|
            !unusable(args.revision@) ==> #[trigger] shows(show_step(args), output, output),
{
    trimming_removes_outer_white_space(args.revision@);
    reveal_with_fuel(answer, 2);
}

/// `git_branch` lists local branches, remote ones or all of them, as the type says; only those
/// that contain one commit, where `contains` gives it, and only those that do not contain
/// another, where `not_contains` gives it.
pub proof fn branch_lists_the_branches_wanted(args: BranchArgs)
    ensures
        !refused_branch(args) ==> {
            branch_step(args) matches StepView::Run { words, .. } && {
                let local = args.branch_type@ == "local"@;
                &&& words.len() == (if local {
                    1int
                } else {
                    2
                }) + given(args.contains) + given(args.not_contains)
                &&& words[0] == "branch"@
                &&& words.contains("--remotes"@) <==> args.branch_type@ == "remote"@
                &&& words.contains("--all"@) <==> args.branch_type@ == "all"@
                &&& has_option(words, "--contains="@, args.contains)
                &&& has_option(words, "--no-contains="@, args.not_contains)
            }
        },
{
    refused_calls_run_nothing(Call::Branch(args));
    reveal_strlit("local");
    reveal_strlit("remote");
    reveal_strlit("all");
    reveal_strlit("branch");
    reveal_strlit("--remotes");
    reveal_strlit("--all");
    reveal_strlit("--contains=");
    reveal_strlit("--no-contains=");
    if let StepView::Run { words, .. } = branch_step(args) {
        let with = "--contains="@;
        let without = "--no-contains="@;
        let first: int = if args.branch_type@ == "local"@ {
            1
        } else {
            2
        };
        lemma_prefix_at(with, words, 2, 'c');
        lemma_prefix_at(without, words, 2, 'n');
        assert("--remotes"@[2] == 'r');
        assert("--all"@[2] == 'a');
        assert(words[0] == "branch"@);
        assert(words[0][2] == 'a' && words[0][0] == 'b');
        assert("--all"@[0] == '-');
        if first == 2 {
            assert(words[1][2] == 'r' || words[1][2] == 'a');
        }
        if args.contains is Some {
            assert(words[first] == with + trimmed(args.contains->0@));
            assert(words[first][2] == 'c');
            assert(with.is_prefix_of(words[first]));
        }
        if args.not_contains is Some {
            let k = first + given(args.contains);
            assert(words[k] == without + trimmed(args.not_contains->0@));
            assert(words[k][2] == 'n');
            assert(without.is_prefix_of(words[k]));
        }
        assert forall|i: int|
            0 <= i < words.len() && (#[trigger] words[i] == "--remotes"@ || words[i]
                == "--all"@) implies first == 2 && i == 1 by {
            if i == 0 {
                assert("--remotes"@[0] == '-' && words[i][0] == 'b');
            } else if i >= first {
                assert(words[i][2] == 'c' || words[i][2] == 'n');
            }
        }
        if args.branch_type@ == "remote"@ {
            assert(words[1] == "--remotes"@);
        } else if args.branch_type@ == "all"@ {
            assert(words[1] == "--all"@);
        }
        assert("local"@.len() != "remote"@.len() && "local"@.len() != "all"@.len());
        assert("remote"@.len() != "all"@.len());
        assert("--remotes"@.len() != "--all"@.len());
    }
}

/// The type of branches is not known, or a commit is not usable.
pub open spec fn refused_branch(args: BranchArgs) -> bool {
    ||| args.branch_type@ != "local"@ && args.branch_type@ != "remote"@ && args.branch_type@
        != "all"@
    ||| unusable_option(args.contains)
    ||| unusable_option(args.not_contains)
}

/// A call of `git_branch` that is refused says why: first of the type, then of `contains`, then
/// of `not_contains`.
pub proof fn branch_refusals_are_explained(args: BranchArgs)
    ensures
        args.branch_type@ != "local"@ && args.branch_type@ != "remote"@ && args.branch_type@
            != "all"@ ==> refuses(
            branch_step(args),
            "branch_type должен быть local, remote или all, получено: "@ + args.branch_type@,
        ),
        args.branch_type@ == "local"@ || args.branch_type@ == "remote"@ || args.branch_type@
            == "all"@ ==> {
            &&& unusable_option(args.contains) ==> refuses(
                branch_step(args),
                unusable_text("contains"@, args.contains->0@),
            )
            &&& !unusable_option(args.contains) && unusable_option(args.not_contains) ==> refuses(
                branch_step(args),
                unusable_text("not_contains"@, args.not_contains->0@),
            )
        },
{
    if let Some(value) = args.contains {
        trimming_removes_outer_white_space(value@);
    }
    if let Some(value) = args.not_contains {
        trimming_removes_outer_white_space(value@);
    }
}

/// The branches are shown whole under their title; where there are none, the answer says so.
pub proof fn branches_are_shown_whole(args: BranchArgs, output: Seq<char>)
    requires
        !refused_branch(args),
    ensures
        !blank(output) ==> shows(branch_step(args), output, "Branches:"@ + "\n"@ + output),
        blank(output) ==> shows(
            branch_step(args),
            output,
            "Branches:"@ + "\n"@ + "(no branches)"@,
        ),
{
    refused_calls_run_nothing(Call::Branch(args));
}

/// Under a title stands the whole output where it is not blank, and what is said of an empty
/// one where it is.
pub proof fn titles_keep_the_output(title: Seq<char>, output: Seq<char>, empty: Seq<char>)
    ensures
        !blank(output) ==> titled_text(title, output, empty) == title + "\n"@ + output,
        blank(output) ==> titled_text(title, output, empty) == title + "\n"@ + empty,
{
}

/// Whatever is pending, the error of a command is the answer, unchanged.
pub proof fn errors_are_answered_unchanged(pending: PendingView, error: Seq<char>)
    ensures
        resume_step(pending, TextResult::Err(error)) == StepView::Reply(TextResult::Err(error)),
{
}

/// What a client is told of the server names the root.
pub proof fn instructions_give_the_root(root: Seq<char>)
    ensures
        instructions_text(root) == "Git tools for the repository "@ + root
            + ". Paths are relative to its root."@,
{
}

/// Where the caller names no number, a diff has three lines of context and a log ten commits.
pub proof fn defaults_are_those_of_git()
    ensures
        DEFAULT_CONTEXT_LINES == 3,
        DEFAULT_LOG_COUNT == 10,
{
}

} // verus!
