//! Command line options of the `bot` binary: data directory and
//! verbosity.

use vstd::prelude::*;
use crate::text::concat;

verus! {

/// A directory path as given on the command line, with a `/` at the end.
pub open spec fn dir_path(s: Seq<char>) -> Seq<char> {
    if s.len() > 0 && s.last() == '/' {
        s
    } else {
        s + "/"@
    }
}

/// The directory path with a trailing separator added when it has none.
pub fn to_pathbuf(s: &str) -> (res: String)
    ensures
        res@ == dir_path(s@),
{
    let n = s.unicode_len();
    if n > 0 && s.get_char(n - 1) == '/' {
        String::from_str(s)
    } else {
        concat(s, "/")
    }
}

/// Law of directory paths: adding the trailing separator twice adds it
/// once, and the result always ends in `/`.
pub proof fn lemma_dir_path_idempotent(s: Seq<char>)
    ensures
        dir_path(dir_path(s)) == dir_path(s),
        dir_path(s).len() > 0 && dir_path(s).last() == '/',
        s.is_prefix_of(dir_path(s)),
{
    if !(s.len() > 0 && s.last() == '/') {
        assert((s + "/"@).len() == s.len() + 1 && (s + "/"@).last() == '/') by {
            reveal_strlit("/");
        }
        assert(s.is_prefix_of(s + "/"@)) by {
            assert((s + "/"@).take(s.len() as int) =~= s);
        }
    } else {
        assert(s.take(s.len() as int) =~= s);
    }
}

/// The options the bot runs with.
pub struct Opts {
    pub help: bool,
    /// Directory where persistent data is stored, ending in `/`.
    pub data_dir: String,
    /// Number of `-v` flags.
    pub verbose: u8,
}

impl Opts {
    /// The options from what the command line gave (`None` for an absent
    /// option): the data directory defaults to `./data`, and ends in `/`.
    pub fn parse(help: bool, data_dir: Option<&str>, verbose: u8) -> (res: Opts)
        ensures
            res.help == help,
            res.verbose == verbose,
            res.data_dir@ == dir_path(
                match data_dir {
                    Some(d) => d@,
                    None => "./data"@,
                },
            ),
    {
        let dir = match data_dir {
            Some(d) => to_pathbuf(d),
            None => to_pathbuf("./data"),
        };
        Opts { help, data_dir: dir, verbose }
    }
}

} // verus!
