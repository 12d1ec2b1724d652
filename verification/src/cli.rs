//! The command line of the server.

use crate::git::TextResult;
use crate::text::{strip_prefix, texts};
use vstd::prelude::*;
use vstd::string::*;

verus! {

/// The path of the repository that the arguments name: the one behind the first
/// `--repository`, or in the first `--repository=<path>`, whichever comes first.
pub open spec fn repository_choice(args: Seq<Seq<char>>) -> TextResult
    decreases args.len(),
{
    if args.len() == 0 {
        Err("использование: agentcli-git-mcp --repository <путь к git-репозиторию>"@)
    } else if args[0] == "--repository"@ {
        if args.len() > 1 {
            Ok(args[1])
        } else {
            Err("после --repository нужен путь"@)
        }
    } else if "--repository="@.is_prefix_of(args[0]) {
        Ok(args[0].skip("--repository="@.len() as int))
    } else {
        repository_choice(args.drop_first())
    }
}

/// The path in `--repository <path>` or `--repository=<path>`, from the arguments of the
/// program without its name.
pub fn repository_arg(args: Vec<String>) -> (r: Result<String, String>)
    ensures
        crate::git::result_text(r) == repository_choice(texts(args@)),
{
    let mut i: usize = 0;
    assert(texts(args@).skip(0) =~= texts(args@));
    while i < args.len()
        invariant
            i <= args.len(),
            repository_choice(texts(args@)) == repository_choice(texts(args@).skip(i as int)),
        decreases args.len() - i,
    {
        let ghost rest = texts(args@).skip(i as int);
        if args[i] == "--repository".to_owned() {
            if i + 1 < args.len() {
                return Ok(args[i + 1].clone());
            }
            return Err("после --repository нужен путь".to_owned());
        }
        if let Some(path) = strip_prefix(args[i].as_str(), "--repository=") {
            return Ok(path.to_owned());
        }
        assert(rest.drop_first() =~= texts(args@).skip(i + 1));
        i += 1;
    }
    Err(
        "использование: agentcli-git-mcp --repository <путь к git-репозиторию>".to_owned(),
    )
}

} // verus!
