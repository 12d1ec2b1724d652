use agentcli_git_mcp::git::{exit_result, positional, Outcome, PathFacts, Repo, RepoPath};

fn strings(list: &[&str]) -> Vec<String> {
    list.iter().map(|s| s.to_string()).collect()
}

fn path(bytes: &[u8], shown: &str) -> RepoPath {
    RepoPath {
        bytes: bytes.to_vec(),
        shown: shown.to_string(),
    }
}

fn repo_at(bytes: &[u8], shown: &str) -> Repo {
    let facts = PathFacts {
        is_dir: true,
        has_git: true,
        canonical: Ok(path(bytes, shown)),
    };
    Repo::open("here", facts).unwrap()
}

fn exited(success: bool, stdout: &[u8], stderr: &[u8]) -> Outcome {
    Outcome::Exited {
        success,
        stdout: stdout.to_vec(),
        stderr: stderr.to_vec(),
    }
}

/// Every character with the Unicode property `White_Space`.
fn white_space() -> Vec<char> {
    let mut list: Vec<char> = ('\u{9}'..='\u{d}').collect();
    list.extend(['\u{20}', '\u{85}', '\u{a0}', '\u{1680}']);
    list.extend('\u{2000}'..='\u{200a}');
    list.extend(['\u{2028}', '\u{2029}', '\u{202f}', '\u{205f}', '\u{3000}']);
    list
}

#[test]
fn option_like_values_are_rejected() {
    assert_eq!(positional("ревизия", "HEAD~1"), Ok("HEAD~1"));
    assert!(positional("ревизия", "--output=/tmp/x").is_err());
    assert!(positional("ветка", "-D").is_err());
    assert!(positional("ветка", "  ").is_err());
}

#[test]
fn directory_without_git_is_not_a_repository() {
    let plain = PathFacts {
        is_dir: true,
        has_git: false,
        canonical: Ok(path(b"/tmp", "/tmp")),
    };
    assert!(Repo::open("/tmp", plain).is_err());
    let missing = PathFacts {
        is_dir: false,
        has_git: false,
        canonical: Err("No such file or directory (os error 2)".to_string()),
    };
    assert!(Repo::open("/definitely/not/here", missing).is_err());
}

#[test]
fn positional_errors_are_exact() {
    assert_eq!(positional("target", ""), Err("target не задан".to_string()));
    assert_eq!(positional("target", " \t\n"), Err("target не задан".to_string()));
    assert_eq!(
        positional("target", " --output=/tmp/x "),
        Err("target не может начинаться с «-»: --output=/tmp/x".to_string())
    );
    assert_eq!(positional("target", "-"), Err("target не может начинаться с «-»: -".to_string()));
}

#[test]
fn positional_values_are_trimmed_once() {
    assert_eq!(positional("x", "  2 weeks ago\n"), Ok("2 weeks ago"));
    let kept = positional("x", "\u{a0} a-b \u{3000}").unwrap();
    assert_eq!(kept, "a-b");
    assert_eq!(positional("x", kept), Ok(kept));
    assert_eq!(positional("y", kept), Ok(kept));
}

#[test]
fn exactly_white_space_is_trimmed() {
    let list = white_space();
    assert_eq!(list.len(), 25);
    for c in '\0'..=char::MAX {
        let text = format!("{c}a{c}");
        if list.contains(&c) {
            assert_eq!(positional("x", &text), Ok("a"));
        } else if c == '-' {
            assert!(positional("x", &text).is_err());
        } else {
            assert_eq!(positional("x", &text), Ok(text.as_str()));
        }
    }
}

#[test]
fn open_takes_the_resolved_path_as_root() {
    let repo = repo_at(b"/srv/\xff", "/srv/\u{fffd}");
    for repo in [repo.clone(), repo] {
        assert_eq!(repo.root().bytes, b"/srv/\xff");
        assert_eq!(repo.root().shown, "/srv/\u{fffd}");
    }
}

#[test]
fn open_errors_are_exact() {
    let facts = |is_dir: bool, has_git: bool, canonical: Result<RepoPath, String>| PathFacts {
        is_dir,
        has_git,
        canonical,
    };
    let ok = || Ok(path(b"/r", "/r"));
    assert_eq!(
        Repo::open("/r", facts(false, true, ok())).err(),
        Some("каталог /r не существует".to_string())
    );
    assert_eq!(
        Repo::open("/r", facts(true, false, ok())).err(),
        Some("/r — не git-репозиторий (нет .git)".to_string())
    );
    assert_eq!(
        Repo::open("/r", facts(true, true, Err("denied".to_string()))).err(),
        Some("не удалось разрешить путь /r: denied".to_string())
    );
    assert_eq!(
        Repo::open("/r\u{fffd}", facts(false, false, ok())).err(),
        Some("каталог /r\u{fffd} не существует".to_string())
    );
}

#[test]
fn every_process_runs_in_the_root() {
    let repo = repo_at(b"/srv/\xff", "/srv/?");
    let invocation = repo.invocation(&strings(&["add", "--", "заметки.txt"]));
    assert_eq!(invocation.program, "git");
    assert_eq!(
        invocation.args,
        vec![
            b"-C".to_vec(),
            b"/srv/\xff".to_vec(),
            b"-c".to_vec(),
            b"core.quotepath=off".to_vec(),
            b"add".to_vec(),
            b"--".to_vec(),
            "заметки.txt".as_bytes().to_vec(),
        ]
    );
    assert_eq!(
        invocation.env,
        vec![
            ("GIT_PAGER".to_string(), "cat".to_string()),
            ("GIT_EDITOR".to_string(), "true".to_string()),
            ("GIT_TERMINAL_PROMPT".to_string(), "0".to_string()),
        ]
    );
    assert_eq!(repo.invocation(&[]).args.len(), 4);
}

#[test]
fn no_process_waits_for_input() {
    for words in [strings(&[]), strings(&["commit", "-m", "x"])] {
        let invocation = repo_at(b"/r", "/r").invocation(&words);
        assert!(invocation.stdin_null);
        assert!(invocation.kill_on_drop);
    }
}

#[test]
fn output_of_a_successful_process_is_the_result() {
    let words = strings(&["status"]);
    assert_eq!(
        Repo::run_result(&words, exited(true, " вывод\n".as_bytes(), b"warning")),
        Ok(" вывод\n".to_string())
    );
    assert_eq!(
        Repo::run_result(&words, exited(true, b"a\xffb", b"")),
        Ok("a\u{fffd}b".to_string())
    );
    assert_eq!(
        Repo::run_result(&words, exited(true, b"ok", b"\xff")),
        Ok("ok".to_string())
    );
}

#[test]
fn failed_process_is_an_error_that_names_the_command() {
    let words = strings(&["checkout", "x", "--"]);
    assert_eq!(
        Repo::run_result(&words, exited(false, b"out", b" fatal: no\n")),
        Err("git checkout завершился с ошибкой: fatal: no".to_string())
    );
    assert_eq!(
        Repo::run_result(&words, exited(false, b" out\n", b" \n")),
        Err("git checkout завершился с ошибкой: out".to_string())
    );
    assert_eq!(
        Repo::run_result(&[], exited(false, b"", b"")),
        Err("git  завершился с ошибкой: ".to_string())
    );
    assert_eq!(
        Repo::run_result(&words, exited(false, b"\xff", b"fatal")),
        Err("git checkout завершился с ошибкой: fatal".to_string())
    );
    assert_eq!(
        exit_result(&words, false, "", "нет"),
        Err("git checkout завершился с ошибкой: нет".to_string())
    );
}

#[test]
fn process_that_does_not_start_is_an_error() {
    assert_eq!(
        Repo::run_result(&strings(&["status"]), Outcome::NotStarted("not found".to_string())),
        Err("не удалось запустить git: not found".to_string())
    );
}
