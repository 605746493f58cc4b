//! Paths under the home directory, written as '/'-separated text.
use vstd::prelude::*;

use crate::setting::{get_config_dir, ConfigFolder};
use crate::Error;

verus! {

/// `seg` appended to `base` as one more segment of a Unix-style,
/// '/'-separated path (on every platform): a segment that starts
/// at the root replaces `base`, and a separator is put between the two unless
/// `base` is empty or already ends with one.
pub open spec fn path_join(base: Seq<char>, seg: Seq<char>) -> Seq<char> {
    if seg.len() > 0 && seg[0] == '/' {
        seg
    } else if base.len() == 0 || base.last() == '/' {
        base + seg
    } else {
        base + seq!['/'] + seg
    }
}

/// The configuration directory's path for a setting and a home directory.
pub open spec fn config_dir_path(s: Option<Seq<char>>, home: Option<Seq<char>>) -> Result<
    Seq<char>,
    Error,
> {
    match s {
        None => Err(Error::DirNeverSpecified),
        Some(d) => match home {
            None => Err(Error::HomeDirUnavailable),
            Some(h) => Ok(path_join(h, d)),
        },
    }
}

/// The configuration file's path: the directory's path joined with `filename`.
pub open spec fn config_file_path(
    s: Option<Seq<char>>,
    home: Option<Seq<char>>,
    filename: Seq<char>,
) -> Result<Seq<char>, Error> {
    match config_dir_path(s, home) {
        Ok(d) => Ok(path_join(d, filename)),
        Err(e) => Err(e),
    }
}

/// The view of an optional string.
pub open spec fn opt_view(o: Option<String>) -> Option<Seq<char>> {
    match o {
        Some(s) => Some(s@),
        None => None,
    }
}

/// The view of a path result.
pub open spec fn path_view(r: Result<String, Error>) -> Result<Seq<char>, Error> {
    match r {
        Ok(p) => Ok(p@),
        Err(e) => Err(e),
    }
}

/// Joins `seg` to `base` as `path_join` describes.
pub fn join_path(base: &str, seg: &str) -> (r: String)
    ensures
        r@ == path_join(base@, seg@),
{
    let seg_len: usize = seg.unicode_len();
    if seg_len > 0 && seg.get_char(0) == '/' {
        return seg.to_string();
    }
    let base_len: usize = base.unicode_len();
    let mut r = String::from_str(base);
    if base_len > 0 && base.get_char(base_len - 1) != '/' {
        proof {
            reveal_strlit("/");
        }
        r.append("/");
    }
    r.append(seg);
    r
}

/// The configuration directory: `home` joined with the directory setting.
/// An unset setting is reported before a missing home directory.
pub fn path_config_dir(folder: &ConfigFolder, home: &Option<String>) -> (r: Result<String, Error>)
    ensures
        path_view(r) == config_dir_path(folder@, opt_view(*home)),
{
    match get_config_dir(folder) {
        Err(e) => Err(e),
        Ok(dir) => match home {
            None => Err(Error::HomeDirUnavailable),
            Some(h) => Ok(join_path(h.as_str(), dir.as_str())),
        },
    }
}

/// The configuration file `filename` inside the configuration directory.
pub fn path_config_file(folder: &ConfigFolder, home: &Option<String>, filename: &str) -> (r: Result<
    String,
    Error,
>)
    ensures
        path_view(r) == config_file_path(folder@, opt_view(*home), filename@),
{
    match path_config_dir(folder, home) {
        Err(e) => Err(e),
        Ok(dir) => Ok(join_path(dir.as_str(), filename)),
    }
}

/// Whenever the directory resolves, the file's path is the directory's path
/// joined with the file name, for every file name; when it does not, the
/// file's path fails with the same error.
pub proof fn lemma_file_under_dir(
    s: Option<Seq<char>>,
    home: Option<Seq<char>>,
    filename: Seq<char>,
)
    ensures
        config_dir_path(s, home) matches Ok(d) ==> config_file_path(s, home, filename) == Ok::<
            Seq<char>,
            Error,
        >(path_join(d, filename)),
        config_dir_path(s, home) matches Err(e) ==> config_file_path(s, home, filename) == Err::<
            Seq<char>,
            Error,
        >(e),
{
}

} // verus!
