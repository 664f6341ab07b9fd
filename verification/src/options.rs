//! Command line options of the bot: data directory, configuration file and
//! verbosity.

use vstd::prelude::*;
use crate::text::concat;

verus! {

/// A path as given on the command line.
pub fn to_pathbuf(s: &str) -> (res: String)
    ensures
        res@ == s@,
{
    String::from_str(s)
}

/// `config.toml` inside the data directory, as joining the directory with
/// `config` and giving it the `toml` extension writes it.
pub open spec fn default_config(data_dir: Seq<char>) -> Seq<char> {
    if data_dir.len() == 0 || data_dir.last() == '/' {
        data_dir + "config.toml"@
    } else {
        data_dir + "/config.toml"@
    }
}

/// Law of the default configuration path: it lies in the data directory
/// and names `config.toml`.
pub proof fn lemma_default_config_in_data_dir(data_dir: Seq<char>)
    ensures
        data_dir.is_prefix_of(default_config(data_dir)),
        "config.toml"@.is_suffix_of(default_config(data_dir)),
{
    let c = default_config(data_dir);
    assert(c.take(data_dir.len() as int) =~= data_dir);
    reveal_strlit("config.toml");
    reveal_strlit("/config.toml");
    assert(c.skip(c.len() - 11) =~= "config.toml"@);
}

/// The options the bot runs with.
pub struct Opts {
    pub help: bool,
    /// Directory where persistent data is stored.
    pub data_dir: String,
    /// The bot configuration file.
    pub config: String,
    /// Number of `-v` flags.
    pub verbose: u8,
}

impl Opts {
    /// The options from what the command line gave (`None` for an absent
    /// option): the data directory defaults to `data`, and an absent or
    /// empty configuration path to `config.toml` in the data directory.
    pub fn parse(help: bool, data_dir: Option<&str>, config: Option<&str>, verbose: u8) -> (res: Opts)
        ensures
            res.help == help,
            res.verbose == verbose,
            res.data_dir@ == (match data_dir {
                Some(d) => d@,
                None => "data"@,
            }),
            res.config@ == (match config {
                Some(c) => if c@.len() > 0 {
                    c@
                } else {
                    default_config(res.data_dir@)
                },
                None => default_config(res.data_dir@),
            }),
    {
        let dir = match data_dir {
            Some(d) => to_pathbuf(d),
            None => to_pathbuf("data"),
        };
        let given = match config {
            Some(c) => c.unicode_len() > 0,
            None => false,
        };
        let cfg = if given {
            match config {
                Some(c) => to_pathbuf(c),
                None => String::new(),
            }
        } else {
            let n = dir.as_str().unicode_len();
            if n == 0 || dir.as_str().get_char(n - 1) == '/' {
                concat(dir.as_str(), "config.toml")
            } else {
                concat(dir.as_str(), "/config.toml")
            }
        };
        Opts { help, data_dir: dir, config: cfg, verbose }
    }
}

} // verus!
