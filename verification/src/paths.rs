//! File names read off paths.

use crate::text::option_text;
use vstd::prelude::*;

verus! {

/// The last component of a path, where it has one that is a file name.
pub uninterp spec fn file_name_of(path: Seq<char>) -> Option<Seq<char>>;

/// The last component of a path without its extension, where the path has a
/// file name.
pub uninterp spec fn file_stem_of(path: Seq<char>) -> Option<Seq<char>>;

/// Trusted: calls `Path::file_name`, which gives the final component of the
/// path unless that is `..` or the path is a root.  How a path falls into
/// components is std's and is only named here.
#[verifier::external_body]
pub(crate) fn file_name(path: &str) -> (r: Option<String>)
    ensures
        option_text(r) == file_name_of(path@),
{
    std::path::Path::new(path).file_name().and_then(|name| name.to_str()).map(String::from)
}

/// Trusted: calls `Path::file_stem`, which gives the file name up to its
/// last dot, or all of it where it has no dot but a leading one.  The rule
/// is std's and is only named here.
#[verifier::external_body]
pub(crate) fn file_stem(path: &str) -> (r: Option<String>)
    ensures
        option_text(r) == file_stem_of(path@),
{
    std::path::Path::new(path).file_stem().and_then(|stem| stem.to_str()).map(String::from)
}

} // verus!
