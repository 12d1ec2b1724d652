use agentcli_git_mcp::cli::repository_arg;
use agentcli_git_mcp::git::{PathFacts, Repo};

fn args(list: &[&str]) -> Vec<String> {
    list.iter().map(|s| s.to_string()).collect()
}

#[test]
fn repository_is_read_from_arguments() {
    assert_eq!(repository_arg(args(&["--repository", "/r"])), Ok("/r".to_string()));
    assert_eq!(repository_arg(args(&["--repository=/r"])), Ok("/r".to_string()));
    assert!(repository_arg(args(&["--repository"])).is_err());
    assert!(repository_arg(args(&[])).is_err());
}

#[test]
fn repository_argument_errors_are_exact() {
    assert_eq!(
        repository_arg(args(&["--repository"])),
        Err("после --repository нужен путь".to_string())
    );
    let usage = "использование: agentcli-git-mcp --repository <путь к git-репозиторию>";
    assert_eq!(repository_arg(args(&[])), Err(usage.to_string()));
    assert_eq!(repository_arg(args(&["--verbose", "/r"])), Err(usage.to_string()));
    assert_eq!(repository_arg(args(&["--repositor=/r"])), Err(usage.to_string()));
}

#[test]
fn first_repository_argument_counts() {
    assert_eq!(
        repository_arg(args(&["--other", "--repository=/a", "--repository", "/b"])),
        Ok("/a".to_string())
    );
    assert_eq!(
        repository_arg(args(&["--repository", "--repository=/b"])),
        Ok("--repository=/b".to_string())
    );
    assert_eq!(repository_arg(args(&["--repository", "/a", "\u{fffd}"])), Ok("/a".to_string()));
    assert_eq!(repository_arg(args(&["--repository="])), Ok(String::new()));
    assert_eq!(repository_arg(args(&["--repository=путь"])), Ok("путь".to_string()));
}

#[test]
fn refuses_to_start_without_a_repository() {
    let path = repository_arg(args(&["--repository", "/definitely/not/here"])).unwrap();
    let facts = PathFacts {
        is_dir: false,
        has_git: false,
        canonical: Err("No such file or directory (os error 2)".to_string()),
    };
    let error = Repo::open(&path, facts).err().unwrap();
    assert!(error.contains("не существует"));
}
