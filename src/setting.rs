//! The write-once setting that names the configuration directory.
use vstd::prelude::*;

use crate::Error;
use std::path::PathBuf;

verus! {

/// The configuration directory setting: unset at first, then set once and
/// never changed.
pub struct ConfigFolder {
    dir: Option<String>,
}

/// The setting after an attempt to set it to `path`: the first writer wins.
pub open spec fn set_result(s: Option<Seq<char>>, path: Seq<char>) -> Option<Seq<char>> {
    if s is None {
        Some(path)
    } else {
        s
    }
}

/// Whether an attempt to set the setting to anything succeeds.
pub open spec fn set_succeeds(s: Option<Seq<char>>) -> bool {
    s is None
}

/// The setting after a series of attempts, made one after another.
pub open spec fn set_all(s: Option<Seq<char>>, paths: Seq<Seq<char>>) -> Option<Seq<char>>
    decreases paths.len(),
{
    if paths.len() == 0 {
        s
    } else {
        set_all(set_result(s, paths[0]), paths.drop_first())
    }
}

/// How many of a series of attempts succeed.
pub open spec fn successes(s: Option<Seq<char>>, paths: Seq<Seq<char>>) -> nat
    decreases paths.len(),
{
    if paths.len() == 0 {
        0
    } else {
        (if set_succeeds(s) { 1nat } else { 0nat }) + successes(
            set_result(s, paths[0]),
            paths.drop_first(),
        )
    }
}

impl View for ConfigFolder {
    type V = Option<Seq<char>>;

    closed spec fn view(&self) -> Option<Seq<char>> {
        match self.dir {
            Some(d) => Some(d@),
            None => None,
        }
    }
}

impl ConfigFolder {
    /// A setting that has not been made yet.
    pub fn new() -> (r: ConfigFolder)
        ensures
            r@ is None,
    {
        ConfigFolder { dir: None }
    }
}

/// Sets the configuration directory if it is still unset. Returns whether it
/// was set; a setting already made is left as it was.
pub fn set_config_dir(folder: &mut ConfigFolder, path: String) -> (r: bool)
    ensures
        r == set_succeeds(old(folder)@),
        final(folder)@ == set_result(old(folder)@, path@),
{
    if folder.dir.is_none() {
        folder.dir = Some(path);
        true
    } else {
        false
    }
}

#[verifier::external_type_specification]
#[verifier::external_body]
pub struct ExPathBuf(PathBuf);

/// The text of a path that is valid Unicode, as `Path::to_str` gives it;
/// it depends on the path's bytes alone.
pub uninterp spec fn path_str_of(p: PathBuf) -> Option<Seq<char>>;

/// Relies on `Path::to_str`: the path's text where it is valid Unicode,
/// `None` otherwise.
#[verifier::external_body]
fn path_text(p: &PathBuf) -> (r: Option<String>)
    ensures
        r matches Some(s) ==> path_str_of(*p) == Some(s@),
        r is None ==> path_str_of(*p) is None,
{
    p.to_str().map(|s| s.to_string())
}

/// Sets the configuration directory to `path`, as `set_config_dir` does, if
/// the path is valid Unicode; a path that is not leaves the setting as it was
/// and is reported as not set.
pub fn set_config_dir_as_path(folder: &mut ConfigFolder, path: &PathBuf) -> (r: bool)
    ensures
        path_str_of(*path) matches Some(t) ==> r == set_succeeds(old(folder)@) && final(folder)@
            == set_result(old(folder)@, t),
        path_str_of(*path) is None ==> !r && final(folder)@ == old(folder)@,
{
    match path_text(path) {
        Some(text) => set_config_dir(folder, text),
        None => false,
    }
}

/// The configuration directory, if it was set.
pub fn get_config_dir(folder: &ConfigFolder) -> (r: Result<String, Error>)
    ensures
        match folder@ {
            Some(d) => r matches Ok(s) && s@ == d,
            None => r == Err::<String, Error>(Error::DirNeverSpecified),
        },
{
    match &folder.dir {
        Some(d) => Ok(d.clone()),
        None => Err(Error::DirNeverSpecified),
    }
}

/// Once a setting has been made, a second attempt fails and leaves it as it
/// was, whatever path either attempt named.
pub proof fn lemma_second_set_refused(s: Option<Seq<char>>, first: Seq<char>, second: Seq<char>)
    requires
        set_succeeds(s),
    ensures
        !set_succeeds(set_result(s, first)),
        set_result(set_result(s, first), second) == set_result(s, first),
        set_result(s, first) == Some(first),
{
}

/// Of any number of attempts on an unset setting, made one after another as a
/// lock orders racing callers, exactly one succeeds, and the setting holds the
/// path of the first.
pub proof fn lemma_one_winner(paths: Seq<Seq<char>>)
    requires
        paths.len() > 0,
    ensures
        successes(None, paths) == 1,
        set_all(None, paths) == Some(paths[0]),
{
    lemma_set_settled(Some(paths[0]), paths.drop_first());
}

/// Attempts on a setting already made all fail and change nothing.
pub proof fn lemma_set_settled(s: Option<Seq<char>>, paths: Seq<Seq<char>>)
    requires
        s is Some,
    ensures
        successes(s, paths) == 0,
        set_all(s, paths) == s,
    decreases paths.len(),
{
    if paths.len() > 0 {
        lemma_set_settled(set_result(s, paths[0]), paths.drop_first());
    }
}

} // verus!
