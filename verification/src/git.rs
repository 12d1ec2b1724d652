//! The repository that the server works in, and the `git` process run for a command.

use crate::text::{blank, decode_lossy, lossy_text, texts, trimmed, trimming_removes_outer_white_space};
use vstd::prelude::*;
use vstd::string::*;
use vstd::utf8::*;

verus! {

/// The output of a command, or the text of the error that the client is shown.
pub type GitResult = Result<String, String>;

/// The texts of a [`GitResult`].
pub type TextResult = Result<Seq<char>, Seq<char>>;

/// The texts that a result holds.
pub open spec fn result_text(result: GitResult) -> TextResult {
    match result {
        Ok(output) => Ok(output@),
        Err(error) => Err(error@),
    }
}

/// A path of the file system.
#[derive(Debug)]
pub struct RepoPath {
    /// The path in the encoding of the platform.
    pub bytes: Vec<u8>,
    /// The path as it is displayed to people. Where it is not Unicode, this is not all of it.
    pub shown: String,
}

/// The model of [`RepoPath`].
#[verifier::ext_equal]
pub struct RepoPathView {
    pub bytes: Seq<u8>,
    pub shown: Seq<char>,
}

impl View for RepoPath {
    type V = RepoPathView;

    open spec fn view(&self) -> RepoPathView {
        RepoPathView { bytes: self.bytes@, shown: self.shown@ }
    }
}

impl Clone for RepoPath {
    fn clone(&self) -> (r: Self)
        ensures
            r@ == self@,
    {
        RepoPath { bytes: self.bytes.clone(), shown: self.shown.clone() }
    }
}

/// The repository that the server works in. Its root is given once, when the server
/// starts, and no tool takes another one.
#[derive(Debug)]
pub struct Repo {
    root: RepoPath,
}

impl View for Repo {
    type V = RepoPathView;

    /// The path of the root.
    closed spec fn view(&self) -> RepoPathView {
        self.root@
    }
}

impl Clone for Repo {
    fn clone(&self) -> (r: Self)
        ensures
            r@ == self@,
    {
        Repo { root: self.root.clone() }
    }
}

/// What the file system says of a path.
#[derive(Debug)]
pub struct PathFacts {
    /// The path is a directory.
    pub is_dir: bool,
    /// The directory has an entry `.git`: a directory in an ordinary repository, a file
    /// in a working tree of `git worktree`.
    pub has_git: bool,
    /// The absolute path with all links resolved, or why there is none.
    pub canonical: Result<RepoPath, String>,
}

/// The root of the repository at a path that is displayed as `shown`, or why there is none.
pub open spec fn root_choice(shown: Seq<char>, facts: PathFacts) -> Result<
    RepoPathView,
    Seq<char>,
> {
    if !facts.is_dir {
        Err("каталог "@ + shown + " не существует"@)
    } else if !facts.has_git {
        Err(shown + " — не git-репозиторий (нет .git)"@)
    } else {
        match facts.canonical {
            Ok(root) => Ok(root@),
            Err(error) => Err("не удалось разрешить путь "@ + shown + ": "@ + error@),
        }
    }
}

/// The root of the repository, or the text of the error.
pub open spec fn opened(result: Result<Repo, String>) -> Result<RepoPathView, Seq<char>> {
    match result {
        Ok(repo) => Ok(repo@),
        Err(error) => Err(error@),
    }
}

/// A `git` process to be started.
#[derive(Debug)]
pub struct Invocation {
    /// The name of the program.
    pub program: String,
    /// Its arguments, as bytes.
    pub args: Vec<Vec<u8>>,
    /// The environment variables that are set for it, beside those it inherits.
    pub env: Vec<(String, String)>,
    /// Its standard input is empty: it can neither wait for input nor read what the server
    /// is sent.
    pub stdin_null: bool,
    /// It is killed once nobody waits for it any more.
    pub kill_on_drop: bool,
}

/// The byte strings that a list holds.
pub open spec fn byte_strings(list: Seq<Vec<u8>>) -> Seq<Seq<u8>> {
    list.map_values(|bytes: Vec<u8>| bytes@)
}

/// The arguments of `git` for a command of the given words in the repository at `root`.
///
/// Paths are printed as they are, not as octal escapes.
pub open spec fn invocation_args(root: Seq<u8>, words: Seq<Seq<char>>) -> Seq<Seq<u8>> {
    seq![
        encode_utf8("-C"@),
        root,
        encode_utf8("-c"@),
        encode_utf8("core.quotepath=off"@),
    ] + words.map_values(|word: Seq<char>| encode_utf8(word))
}

/// The environment of every `git` process: no pager, no editor and no question for a
/// password, for nobody is there to answer.
pub open spec fn invocation_env() -> Seq<(Seq<char>, Seq<char>)> {
    seq![
        ("GIT_PAGER"@, "cat"@),
        ("GIT_EDITOR"@, "true"@),
        ("GIT_TERMINAL_PROMPT"@, "0"@),
    ]
}

/// How a `git` process came out.
#[derive(Debug)]
pub enum Outcome {
    /// It could not be started or waited for; the text says why.
    NotStarted(String),
    /// It ended.
    Exited {
        /// Its exit code was zero.
        success: bool,
        /// What it wrote to its standard output.
        stdout: Vec<u8>,
        /// What it wrote to its standard error.
        stderr: Vec<u8>,
    },
}

/// The result of a command whose process could not be run.
pub open spec fn start_failure(error: Seq<char>) -> TextResult {
    Err("не удалось запустить git: "@ + error)
}

/// The result of a command whose process ended: its output, or an error that names the
/// command and gives what git wrote to its standard error, or else to its output.
pub open spec fn exit_choice(
    words: Seq<Seq<char>>,
    success: bool,
    stdout: Seq<char>,
    stderr: Seq<char>,
) -> TextResult {
    if success {
        Ok(stdout)
    } else {
        let command = if words.len() > 0 {
            words[0]
        } else {
            ""@
        };
        let detail = if blank(stderr) {
            trimmed(stdout)
        } else {
            trimmed(stderr)
        };
        Err("git "@ + command + " завершился с ошибкой: "@ + detail)
    }
}

/// The result of a command with the given outcome.
pub open spec fn outcome_choice(words: Seq<Seq<char>>, outcome: Outcome) -> TextResult {
    match outcome {
        Outcome::NotStarted(error) => start_failure(error@),
        Outcome::Exited { success, stdout, stderr } => exit_choice(
            words,
            success,
            lossy_text(stdout@),
            lossy_text(stderr@),
        ),
    }
}

/// The result of a command whose process ended, from the texts that it wrote.
pub fn exit_result(words: &[String], success: bool, stdout: &str, stderr: &str) -> (r: GitResult)
    ensures
        result_text(r) == exit_choice(texts(words@), success, stdout@, stderr@),
{
    if success {
        return Ok(stdout.to_owned());
    }
    let said = stderr.trim();
    proof {
        trimming_removes_outer_white_space(stderr@);
    }
    let detail = if said.is_empty() {
        stdout.trim()
    } else {
        said
    };
    let command = match words.first() {
        Some(word) => word.as_str(),
        None => "",
    };
    Err("git ".to_owned().concat(command).concat(" завершился с ошибкой: ").concat(detail))
}

impl Repo {
    /// Opens the repository at the path that is displayed as `shown`: it must be a directory
    /// with an entry `.git`.
    pub fn open(shown: &str, facts: PathFacts) -> (r: Result<Repo, String>)
        ensures
            opened(r) == root_choice(shown@, facts),
    {
        if !facts.is_dir {
            return Err("каталог ".to_owned().concat(shown).concat(" не существует"));
        }
        if !facts.has_git {
            return Err(shown.to_owned().concat(" — не git-репозиторий (нет .git)"));
        }
        match facts.canonical {
            Ok(root) => Ok(Repo { root }),
            Err(error) => Err(
                "не удалось разрешить путь ".to_owned().concat(shown).concat(": ").concat(
                    error.as_str(),
                ),
            ),
        }
    }

    /// The path of the root.
    pub fn root(&self) -> (r: &RepoPath)
        ensures
            r@ == self@,
    {
        &self.root
    }

    /// The process that runs a command in this repository: `git -C <root> <words>`.
    pub fn invocation(&self, words: &[String]) -> (r: Invocation)
        ensures
            r.program@ == "git"@,
            byte_strings(r.args@) == invocation_args(self@.bytes, texts(words@)),
            r.env.deep_view() == invocation_env(),
            r.stdin_null,
            r.kill_on_drop,
    {
        let mut args: Vec<Vec<u8>> = Vec::new();
        args.push("-C".as_bytes_vec());
        args.push(self.root.bytes.clone());
        args.push("-c".as_bytes_vec());
        args.push("core.quotepath=off".as_bytes_vec());
        let mut i: usize = 0;
        while i < words.len()
            invariant
                i <= words.len(),
                byte_strings(args@) =~= invocation_args(self@.bytes, texts(words@.take(i as int))),
            decreases words.len() - i,
        {
            let ghost before = byte_strings(args@);
            args.push(words[i].as_str().as_bytes_vec());
            i += 1;
            proof {
                let word = words@[i - 1]@;
                assert(byte_strings(args@) =~= before.push(encode_utf8(word)));
                assert(texts(words@.take(i as int)) =~= texts(words@.take(i - 1)).push(word));
                assert(invocation_args(self@.bytes, texts(words@.take(i as int))) =~= before.push(
                    encode_utf8(word),
                ));
            }
        }
        let mut env: Vec<(String, String)> = Vec::new();
        env.push(("GIT_PAGER".to_owned(), "cat".to_owned()));
        env.push(("GIT_EDITOR".to_owned(), "true".to_owned()));
        env.push(("GIT_TERMINAL_PROMPT".to_owned(), "0".to_owned()));
        assert(words@.take(i as int) =~= words@);
        assert(env.deep_view() =~= invocation_env());
        Invocation {
            program: "git".to_owned(),
            args,
            env,
            stdin_null: true,
            kill_on_drop: true,
        }
    }

    /// The result of a command whose process came out as `outcome`. A process that did not
    /// succeed is an error.
    pub fn run_result(words: &[String], outcome: Outcome) -> (r: GitResult)
        ensures
            result_text(r) == outcome_choice(texts(words@), outcome),
            outcome matches Outcome::Exited { stdout, stderr, .. } ==> {
                &&& valid_utf8(stdout@) ==> lossy_text(stdout@) == decode_utf8(stdout@)
                &&& valid_utf8(stderr@) ==> lossy_text(stderr@) == decode_utf8(stderr@)
            },
    {
        match outcome {
            Outcome::NotStarted(error) => Err(
                "не удалось запустить git: ".to_owned().concat(error.as_str()),
            ),
            Outcome::Exited { success, stdout, stderr } => {
                let output = decode_lossy(stdout.as_slice());
                let said = decode_lossy(stderr.as_slice());
                exit_result(words, success, output.as_str(), said.as_str())
            },
        }
    }
}

/// A value that stands on the command line of git as a positional argument or in an option
/// (a revision, a branch, a date), trimmed; or why it may not. One that begins with `-` git
/// would read as a flag: `--output=<path>` of `git diff` writes a file, anywhere.
pub open spec fn positional_choice(name: Seq<char>, value: Seq<char>) -> TextResult {
    let kept = trimmed(value);
    if blank(value) {
        Err(name + " не задан"@)
    } else if kept[0] == '-' {
        Err(name + " не может начинаться с «-»: "@ + kept)
    } else {
        Ok(kept)
    }
}

/// The value of the argument `name`, trimmed, where git will not read it as a flag.
pub fn positional<'a>(name: &str, value: &'a str) -> (r: Result<&'a str, String>)
    ensures
        match r {
            Ok(kept) => positional_choice(name@, value@) == TextResult::Ok(kept@),
            Err(error) => positional_choice(name@, value@) == TextResult::Err(error@),
        },
{
    proof {
        trimming_removes_outer_white_space(value@);
    }
    let kept = value.trim();
    if kept.is_empty() {
        return Err(name.to_owned().concat(" не задан"));
    }
    if kept.get_char(0) == '-' {
        return Err(name.to_owned().concat(" не может начинаться с «-»: ").concat(kept));
    }
    Ok(kept)
}

} // verus!
