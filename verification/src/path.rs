//! The two path queries that the split rests on, as `std::path::Path`
//! answers them on Unix, where `/` is the only separator and a path has no
//! prefix.

use std::path::Path;
use vstd::prelude::*;

verus! {

/// The parent that `Path::parent` finds for a path, if it finds one.
pub uninterp spec fn path_parent(path: Seq<char>) -> Option<Seq<char>>;

/// The final component that `Path::file_name` finds in a path, if it finds one.
pub uninterp spec fn path_file_name(path: Seq<char>) -> Option<Seq<char>>;

/// The text of an optional string slice.
pub open spec fn text_of(s: Option<&str>) -> Option<Seq<char>> {
    match s {
        Some(t) => Some(t@),
        None => None,
    }
}

/// `Path::parent`, on a path given as text. The parent of a UTF-8 path is
/// the path up to some separator, hence UTF-8 again, so turning it back into
/// text loses nothing.
#[verifier::external_body]
pub(crate) fn parent_of<'a>(path: &'a str) -> (parent: Option<&'a str>)
    ensures
        text_of(parent) == path_parent(path@),
{
    match Path::new(path).parent() {
        Some(p) => p.to_str(),
        None => None,
    }
}

/// `Path::file_name`, on a path given as text. The final component of a
/// UTF-8 path lies between two separators or ends of the path, hence is
/// UTF-8 again, so turning it back into text loses nothing.
#[verifier::external_body]
pub(crate) fn file_name_of<'a>(path: &'a str) -> (name: Option<&'a str>)
    ensures
        text_of(name) == path_file_name(path@),
{
    match Path::new(path).file_name() {
        Some(n) => n.to_str(),
        None => None,
    }
}

} // verus!
