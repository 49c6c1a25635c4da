//! Where the configuration lives and how its files are named.
//!
//! The whole configuration lives in a single `config.json` file under
//! `$XDG_DATA_HOME/XXMapper/` (or `~/.local/share/XXMapper/`). Saves go to a
//! uniquely named temporary file in the same directory that is then renamed
//! over the real file; the file operations themselves are done by the
//! caller.

use vstd::prelude::*;

use crate::text::{decimal, append_decimal};

verus! {

/// `rel` joined onto `base` as `PathBuf::join` does: an absolute `rel`
/// (starting with `/`) replaces `base`; otherwise `rel` is appended, with a
/// `/` put between them unless `base` is empty or already ends with `/`.
pub open spec fn joined(base: Seq<char>, rel: Seq<char>) -> Seq<char> {
    if rel.len() > 0 && rel[0] == '/' {
        rel
    } else if base.len() == 0 || base.last() == '/' {
        base + rel
    } else {
        base + "/"@ + rel
    }
}

/// Join a path onto a directory path.
pub fn path_join(base: &str, rel: &str) -> (r: String)
    ensures
        r@ == joined(base@, rel@),
{
    broadcast use vstd::string::group_string_axioms;

    if rel.unicode_len() > 0 && rel.get_char(0) == '/' {
        return rel.to_owned();
    }
    let mut out = base.to_owned();
    let n = base.unicode_len();
    if n > 0 && base.get_char(n - 1) != '/' {
        out.append("/");
    }
    out.append(rel);
    out
}

/// The data directory: `$XDG_DATA_HOME/XXMapper` when `XDG_DATA_HOME` is set,
/// otherwise `$HOME/.local/share/XXMapper`, and nothing when neither is set.
pub open spec fn spec_data_dir(xdg_data_home: Option<Seq<char>>, home: Option<Seq<char>>) -> Option<
    Seq<char>,
> {
    match xdg_data_home {
        Some(base) => Some(joined(base, "XXMapper"@)),
        None => match home {
            Some(home) => Some(joined(joined(home, ".local/share"@), "XXMapper"@)),
            None => None,
        },
    }
}

/// `~/.local/share/XXMapper/` following the XDG base directory
/// specification, from the values of `XDG_DATA_HOME` and `HOME`.
pub fn data_dir(xdg_data_home: Option<&str>, home: Option<&str>) -> (r: Option<String>)
    ensures
        match r {
            Some(dir) => spec_data_dir(
                match xdg_data_home {
                    Some(x) => Some(x@),
                    None => None,
                },
                match home {
                    Some(h) => Some(h@),
                    None => None,
                },
            ) == Some(dir@),
            None => xdg_data_home is None && home is None,
        },
{
    proof {
        reveal_strlit("XXMapper");
        reveal_strlit(".local/share");
    }
    match xdg_data_home {
        Some(base) => Some(path_join(base, "XXMapper")),
        None => match home {
            Some(home) => {
                let share = path_join(home, ".local/share");
                Some(path_join(share.as_str(), "XXMapper"))
            },
            None => None,
        },
    }
}

/// Path of the configuration file inside the data directory.
pub fn config_file_in(dir: &str) -> (r: String)
    ensures
        r@ == joined(dir@, "config.json"@),
{
    proof {
        reveal_strlit("config.json");
    }
    path_join(dir, "config.json")
}

/// The temporary file a save writes before renaming it over `file_name`:
/// `.{file_name}.tmp{nonce}`.
pub fn temp_file_name(file_name: &str, nonce: u64) -> (r: String)
    ensures
        r@ == "."@ + file_name@ + ".tmp"@ + decimal(nonce as nat),
{
    let mut name = ".".to_owned();
    name.append(file_name);
    name.append(".tmp");
    append_decimal(&mut name, nonce);
    name
}

/// A nonce for unique temporary file names from a per-process counter, the
/// process id and the sub-second part of the clock.
pub fn mix_nonce(counter: u64, pid: u64, nanos: u64) -> (r: u64)
    ensures
        r == (counter << 48u64) ^ (pid << 24u64) ^ nanos,
{
    (counter << 48u64) ^ (pid << 24u64) ^ nanos
}

} // verus!
