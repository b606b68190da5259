//! Splitting a path into the directory to open and the name to look up in it.

use crate::path::{file_name_of, parent_of, path_file_name, path_parent, text_of};
use cap_std::fs::Dir;
use vstd::prelude::*;

verus! {

/// `cap_std::fs::Dir`, an open directory, carried through as an opaque value.
#[verifier::external_type_specification]
#[verifier::external_body]
pub struct ExDir(Dir);

/// `std::io::Error`, carried through as an opaque value.
#[verifier::external_type_specification]
#[verifier::external_body]
pub struct ExIoError(std::io::Error);

/// Why a path could not be split.
#[derive(Debug)]
pub enum OpenDirError {
    /// The path names no file: it has no final component, or ends in a
    /// separator.
    NoFileName,
    /// The directory could not be opened; the error is the one that the
    /// attempt to open it gave.
    Io(std::io::Error),
}

/// The directory to open for a path with the given parent: the parent
/// itself, or the current directory where there is none or it is empty.
pub open spec fn directory_for(parent: Option<Seq<char>>) -> Seq<char> {
    match parent {
        Some(p) => if p.len() > 0 { p } else { seq!['.'] },
        None => seq!['.'],
    }
}

/// Whether a path ends in a separator. Such a path speaks of a directory
/// and names no file in it.
pub open spec fn ends_in_separator(path: Seq<char>) -> bool {
    path.len() > 0 && path[path.len() - 1] == '/'
}

/// The name that a path gives to a file: its final component, unless the
/// path ends in a separator.
pub open spec fn leaf_of(path: Seq<char>) -> Option<Seq<char>> {
    if ends_in_separator(path) {
        None
    } else {
        path_file_name(path)
    }
}

/// The outcome of a split, from the outcome of opening the directory and
/// the final component of the path. A failure to open comes first.
pub open spec fn split_outcome<'a>(
    opened: Result<Dir, std::io::Error>,
    leaf: Option<&'a str>,
) -> Result<(Dir, &'a str), OpenDirError> {
    match opened {
        Err(e) => Err(OpenDirError::Io(e)),
        Ok(dir) => match leaf {
            Some(name) => Ok((dir, name)),
            None => Err(OpenDirError::NoFileName),
        },
    }
}

/// What is said of a path without a final component.
pub fn no_file_name_message() -> (message: &'static str)
    ensures
        message@ == "the source path does not name a file"@,
{
    "the source path does not name a file"
}

/// Chooses the directory to open from the parent of a path.
pub fn choose_directory<'a>(parent: Option<&'a str>) -> (directory: &'a str)
    ensures
        directory@ == directory_for(text_of(parent)),
        directory@.len() > 0,
{
    let current: &'static str = ".";
    proof {
        reveal_strlit(".");
        assert(current@ =~= seq!['.']);
    }
    match parent {
        Some(p) => if p.unicode_len() > 0 { p } else { current },
        None => current,
    }
}

/// The directory to open for `path`: its parent, or the current directory
/// where it has none.
pub fn parent_dir_of<'a>(path: &'a str) -> (directory: &'a str)
    ensures
        directory@ == directory_for(path_parent(path@)),
        directory@.len() > 0,
{
    choose_directory(parent_of(path))
}

/// Tells whether `path` ends in a separator.
pub fn has_trailing_separator(path: &str) -> (r: bool)
    ensures
        r == ends_in_separator(path@),
{
    let n: usize = path.unicode_len();
    n > 0 && path.get_char(n - 1) == '/'
}

/// Concludes a split from the outcome of opening the directory and the
/// final component of the path.
pub fn conclude_split<'a>(opened: Result<Dir, std::io::Error>, leaf: Option<&'a str>) -> (r: Result<
    (Dir, &'a str),
    OpenDirError,
>)
    ensures
        r == split_outcome(opened, leaf),
{
    match opened {
        Err(e) => Err(OpenDirError::Io(e)),
        Ok(dir) => match leaf {
            Some(name) => Ok((dir, name)),
            None => Err(OpenDirError::NoFileName),
        },
    }
}

/// Splits `path`, given the outcome of opening the directory that
/// `parent_dir_of` names for it: the open directory with the name that the
/// path gives to a file, or the reason why there is none. A path that ends
/// in a separator names no file. A failure to open is handed on as it came,
/// whatever the path ends in.
pub fn finish_split<'a>(path: &'a str, opened: Result<Dir, std::io::Error>) -> (r: Result<
    (Dir, &'a str),
    OpenDirError,
>)
    ensures
        match opened {
            Err(e) => r == Err::<(Dir, &'a str), OpenDirError>(OpenDirError::Io(e)),
            Ok(dir) => match leaf_of(path@) {
                Some(name) => r matches Ok((d, leaf)) && d == dir && leaf@ == name,
                None => r == Err::<(Dir, &'a str), OpenDirError>(OpenDirError::NoFileName),
            },
        },
{
    let leaf = if has_trailing_separator(path) {
        None
    } else {
        file_name_of(path)
    };
    conclude_split(opened, leaf)
}

} // verus!
