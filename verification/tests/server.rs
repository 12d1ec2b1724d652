use agentcli_git_mcp::args::{
    default_context_lines, default_log_count, AddArgs, BranchArgs, CheckoutArgs, CommitArgs,
    CreateBranchArgs, DiffArgs, DiffTargetArgs, LogArgs, ShowArgs,
};
use agentcli_git_mcp::git::{GitResult, Outcome, PathFacts, Repo, RepoPath};
use agentcli_git_mcp::server::{titled, GitServer, Step};
use agentcli_git_mcp::text::decimal_text;

fn server_at(bytes: &[u8], shown: &str) -> GitServer {
    let root = RepoPath {
        bytes: bytes.to_vec(),
        shown: shown.to_string(),
    };
    let facts = PathFacts {
        is_dir: true,
        has_git: true,
        canonical: Ok(root),
    };
    GitServer::new(Repo::open(shown, facts).unwrap())
}

fn server() -> GitServer {
    server_at(b"/srv/repo", "/srv/repo")
}

/// The words of the command that a step asks for.
fn words(step: Step) -> Vec<String> {
    match step {
        Step::Run { words, .. } => words,
        Step::Reply(result) => panic!("answered: {result:?}"),
    }
}

/// The answer of a step that asks for no command.
fn reply(step: Step) -> GitResult {
    match step {
        Step::Reply(result) => result,
        Step::Run { words, .. } => panic!("runs {words:?}"),
    }
}

/// The answer of a call whose processes come out as `outcomes`, and the commands it runs.
fn drive(mut step: Step, outcomes: Vec<Outcome>) -> (GitResult, Vec<Vec<String>>) {
    let mut commands = Vec::new();
    let mut outcomes = outcomes.into_iter();
    loop {
        match step {
            Step::Reply(result) => return (result, commands),
            Step::Run { words, pending } => {
                let result = Repo::run_result(&words, outcomes.next().unwrap());
                commands.push(words);
                step = server().resume(pending, result);
            }
        }
    }
}

fn printed(stdout: &str) -> Outcome {
    Outcome::Exited {
        success: true,
        stdout: stdout.as_bytes().to_vec(),
        stderr: Vec::new(),
    }
}

fn failed(stderr: &str) -> Outcome {
    Outcome::Exited {
        success: false,
        stdout: Vec::new(),
        stderr: stderr.as_bytes().to_vec(),
    }
}

fn some(text: &str) -> Option<String> {
    Some(text.to_string())
}

fn log_args(max_count: u32, start: Option<String>, end: Option<String>) -> LogArgs {
    LogArgs {
        max_count,
        start_timestamp: start,
        end_timestamp: end,
    }
}

fn branch_args(branch_type: &str, contains: Option<String>, not: Option<String>) -> BranchArgs {
    BranchArgs {
        branch_type: branch_type.to_string(),
        contains,
        not_contains: not,
    }
}

fn target(target: &str, context_lines: u32) -> DiffTargetArgs {
    DiffTargetArgs {
        target: target.to_string(),
        context_lines,
    }
}

fn checkout(name: &str) -> CheckoutArgs {
    CheckoutArgs {
        branch_name: name.to_string(),
    }
}

fn commit(message: &str) -> CommitArgs {
    CommitArgs {
        message: message.to_string(),
    }
}

#[test]
fn option_like_arguments_and_git_failures_are_tool_errors() {
    assert!(reply(server().git_diff(target("--output=/tmp/owned", 3))).is_err());

    let step = server().git_checkout(checkout("no-such-branch"));
    let (result, _) = drive(step, vec![failed("error: pathspec did not match")]);
    assert!(result.unwrap_err().contains("git checkout"));

    let step = server().git_add(AddArgs {
        files: vec!["../outside.txt".to_string()],
    });
    let (result, _) = drive(step, vec![failed("fatal: outside repository")]);
    assert!(result.is_err());

    assert!(reply(server().git_branch(branch_args("everything", None, None))).is_err());
}

#[test]
fn flags_of_the_tools_are_refused_as_values() {
    assert!(reply(server().git_diff(target("--cached", 3))).is_err());
    assert!(reply(server().git_checkout(checkout("--"))).is_err());
}

#[test]
fn defaults() {
    assert_eq!(default_context_lines(), 3);
    assert_eq!(default_log_count(), 10);
}

#[test]
fn numbers_are_decimal() {
    assert_eq!(decimal_text(0), "0");
    assert_eq!(decimal_text(9), "9");
    assert_eq!(decimal_text(10), "10");
    assert_eq!(decimal_text(1234567890), "1234567890");
    assert_eq!(decimal_text(u32::MAX), "4294967295");
}

#[test]
fn blank_output_is_explained() {
    assert_eq!(titled("Title:", "body\n".to_string(), "(none)"), "Title:\nbody\n");
    assert_eq!(titled("Title:", String::new(), "(none)"), "Title:\n(none)");
    assert_eq!(titled("Title:", " \n\u{2003}".to_string(), "(none)"), "Title:\n(none)");
    assert_eq!(titled("Title:", "\u{200b}".to_string(), "(none)"), "Title:\n\u{200b}");
}

#[test]
fn instructions_name_the_root() {
    let expected = "Git tools for the repository /srv/repo. Paths are relative to its root.";
    assert_eq!(server().instructions(), expected);
    assert_eq!(
        server_at(b"/\xff", "/\u{fffd}").instructions(),
        "Git tools for the repository /\u{fffd}. Paths are relative to its root."
    );
}

#[test]
fn server_keeps_its_root() {
    assert_eq!(server().repo().root().bytes, b"/srv/repo");
    assert_eq!(server().clone().repo().root().bytes, b"/srv/repo");
}

#[test]
fn status() {
    let (result, commands) = drive(server().git_status(), vec![printed("On branch main\n")]);
    assert_eq!(result, Ok("Repository status:\nOn branch main\n".to_string()));
    assert_eq!(commands, vec![vec!["status"]]);
}

#[test]
fn diff_unstaged() {
    let step = server().git_diff_unstaged(DiffArgs { context_lines: 3 });
    let (result, commands) = drive(step, vec![printed("+new line\n")]);
    assert_eq!(result, Ok("Unstaged changes:\n+new line\n".to_string()));
    assert_eq!(commands, vec![vec!["diff", "--unified=3"]]);
    let step = server().git_diff_unstaged(DiffArgs { context_lines: 3 });
    let (result, _) = drive(step, vec![printed("")]);
    assert_eq!(result, Ok("Unstaged changes:\n(no unstaged changes)".to_string()));
}

#[test]
fn diff_staged() {
    let step = server().git_diff_staged(DiffArgs { context_lines: 0 });
    let (result, commands) = drive(step, vec![printed("\n")]);
    assert_eq!(result, Ok("Staged changes:\n(no staged changes)".to_string()));
    assert_eq!(commands, vec![vec!["diff", "--cached", "--unified=0"]]);
}

#[test]
fn diff_with_a_target() {
    let (result, commands) = drive(server().git_diff(target(" HEAD~1 ", 12)), vec![printed("x")]);
    assert_eq!(result, Ok("Diff with HEAD~1:\nx".to_string()));
    assert_eq!(commands, vec![vec!["diff", "--unified=12", "HEAD~1", "--"]]);
    let (result, _) = drive(server().git_diff(target("main", 3)), vec![printed("")]);
    assert_eq!(result, Ok("Diff with main:\n(no differences)".to_string()));
    assert_eq!(reply(server().git_diff(target("", 3))), Err("target не задан".to_string()));
}

#[test]
fn commit_reads_the_hash_behind_it() {
    let step = server().git_commit(commit("-Add new line "));
    let (result, commands) = drive(step, vec![printed("[main 1] x"), printed("abc123\n")]);
    assert_eq!(result, Ok("Changes committed successfully with hash abc123".to_string()));
    assert_eq!(
        commands,
        vec![vec!["commit", "-m", "-Add new line "], vec!["rev-parse", "HEAD"]]
    );
}

#[test]
fn failed_commit_reads_no_hash() {
    let (result, commands) = drive(server().git_commit(commit("x")), vec![failed("nothing")]);
    assert_eq!(result, Err("git commit завершился с ошибкой: nothing".to_string()));
    assert_eq!(commands.len(), 1);
    let outcomes = vec![printed(""), failed("lost")];
    let (result, _) = drive(server().git_commit(commit("x")), outcomes);
    assert_eq!(result, Err("git rev-parse завершился с ошибкой: lost".to_string()));
}

#[test]
fn blank_commit_message_is_refused() {
    for message in ["", " ", "\n\t"] {
        assert_eq!(
            reply(server().git_commit(commit(message))),
            Err("сообщение коммита не может быть пустым".to_string())
        );
    }
}

#[test]
fn added_paths_follow_the_separator() {
    let step = server().git_add(AddArgs {
        files: vec!["-n".to_string(), "заметки.txt".to_string()],
    });
    let (result, commands) = drive(step, vec![printed("")]);
    assert_eq!(result, Ok("Files staged successfully".to_string()));
    assert_eq!(commands, vec![vec!["add", "--", "-n", "заметки.txt"]]);
    let step = server().git_add(AddArgs { files: Vec::new() });
    assert_eq!(reply(step), Err("список файлов пуст".to_string()));
}

#[test]
fn reset() {
    let (result, commands) = drive(server().git_reset(), vec![printed("ignored")]);
    assert_eq!(result, Ok("All staged changes reset".to_string()));
    assert_eq!(commands, vec![vec!["reset", "--quiet"]]);
}

#[test]
fn log_words() {
    let format = "--format=Commit: %H%nAuthor: %an <%ae>%nDate: %aI%nMessage: %s%n";
    let step = server().git_log(log_args(1, None, None));
    assert_eq!(words(step), vec!["log", "--max-count=1", format]);
    let step = server().git_log(log_args(0, some(" 2 weeks ago "), some("2024-01-01")));
    assert_eq!(
        words(step),
        vec!["log", "--max-count=1", format, "--since=2 weeks ago", "--until=2024-01-01"]
    );
    let step = server().git_log(log_args(u32::MAX, None, some("now")));
    assert_eq!(words(step), vec!["log", "--max-count=4294967295", format, "--until=now"]);
}

#[test]
fn log_answers() {
    let (result, _) = drive(server().git_log(log_args(10, None, None)), vec![printed("c")]);
    assert_eq!(result, Ok("Commit history:\nc".to_string()));
    let (result, _) = drive(server().git_log(log_args(10, None, None)), vec![printed("")]);
    assert_eq!(result, Ok("Commit history:\n(no commits)".to_string()));
    assert_eq!(
        reply(server().git_log(log_args(10, some("-x"), some("")))),
        Err("start_timestamp не может начинаться с «-»: -x".to_string())
    );
    assert_eq!(
        reply(server().git_log(log_args(10, None, some(" ")))),
        Err("end_timestamp не задан".to_string())
    );
}

#[test]
fn create_branch() {
    let args = |name: &str, base: Option<String>| CreateBranchArgs {
        branch_name: name.to_string(),
        base_branch: base,
    };
    let (result, commands) =
        drive(server().git_create_branch(args("feature", None)), vec![printed("")]);
    assert_eq!(result, Ok("Created branch 'feature' from 'HEAD'".to_string()));
    assert_eq!(commands, vec![vec!["branch", "feature"]]);
    let (result, commands) =
        drive(server().git_create_branch(args(" f ", some(" main "))), vec![printed("")]);
    assert_eq!(result, Ok("Created branch 'f' from 'main'".to_string()));
    assert_eq!(commands, vec![vec!["branch", "f", "main"]]);
    assert_eq!(
        reply(server().git_create_branch(args("-D", some("-x")))),
        Err("branch_name не может начинаться с «-»: -D".to_string())
    );
    assert_eq!(
        reply(server().git_create_branch(args("f", some("")))),
        Err("base_branch не задан".to_string())
    );
}

#[test]
fn checkout_names_a_branch() {
    let (result, commands) = drive(server().git_checkout(checkout("feature")), vec![printed("")]);
    assert_eq!(result, Ok("Switched to branch 'feature'".to_string()));
    assert_eq!(commands, vec![vec!["checkout", "feature", "--"]]);
    assert!(reply(server().git_checkout(checkout("-b"))).is_err());
}

#[test]
fn show_answers_with_the_output() {
    let args = |revision: &str| ShowArgs {
        revision: revision.to_string(),
    };
    let (result, commands) = drive(server().git_show(args("HEAD")), vec![printed(" as is\n")]);
    assert_eq!(result, Ok(" as is\n".to_string()));
    assert_eq!(commands, vec![vec!["show", "HEAD", "--"]]);
    assert_eq!(reply(server().git_show(args("  "))), Err("revision не задан".to_string()));
}

#[test]
fn branch_words() {
    assert_eq!(words(server().git_branch(branch_args("local", None, None))), vec!["branch"]);
    assert_eq!(
        words(server().git_branch(branch_args("remote", some("v1"), None))),
        vec!["branch", "--remotes", "--contains=v1"]
    );
    assert_eq!(
        words(server().git_branch(branch_args("all", some(" v1 "), some("v2")))),
        vec!["branch", "--all", "--contains=v1", "--no-contains=v2"]
    );
}

#[test]
fn branch_answers() {
    let step = server().git_branch(branch_args("local", None, None));
    let (result, _) = drive(step, vec![printed("* feature\n")]);
    assert_eq!(result, Ok("Branches:\n* feature\n".to_string()));
    let step = server().git_branch(branch_args("local", None, None));
    let (result, _) = drive(step, vec![printed("")]);
    assert_eq!(result, Ok("Branches:\n(no branches)".to_string()));
    assert_eq!(
        reply(server().git_branch(branch_args("everything", some("-x"), None))),
        Err("branch_type должен быть local, remote или all, получено: everything".to_string())
    );
    assert_eq!(
        reply(server().git_branch(branch_args(" local", None, None))),
        Err("branch_type должен быть local, remote или all, получено:  local".to_string())
    );
    assert_eq!(
        reply(server().git_branch(branch_args("local", None, some("-x")))),
        Err("not_contains не может начинаться с «-»: -x".to_string())
    );
    assert_eq!(
        reply(server().git_branch(branch_args("local", some(""), some("-x")))),
        Err("contains не задан".to_string())
    );
}

#[test]
fn process_that_does_not_start_fails_the_call() {
    let outcome = Outcome::NotStarted("not found".to_string());
    let (result, _) = drive(server().git_status(), vec![outcome]);
    assert_eq!(result, Err("не удалось запустить git: not found".to_string()));
}
