//! Operations on text and on paths that the standard library performs for
//! the library. Each is a thin wrapper whose contract is taken on trust.

use vstd::prelude::*;
use std::path::PathBuf;

verus! {

/// The lower-case form of a text, as `str::to_lowercase` of the standard
/// library gives it. It depends on the text alone.
pub uninterp spec fn lowercase_of(text: Seq<char>) -> Seq<char>;

/// `text` with every match of `from` replaced by `to`, as `str::replace` of
/// the standard library gives it. It depends on the three texts alone.
pub uninterp spec fn replaced(text: Seq<char>, from: Seq<char>, to: Seq<char>) -> Seq<char>;

/// The path that `Path::join` of the standard library makes of a path and a
/// further segment. It depends on the two alone.
pub uninterp spec fn joined_path(base: PathBuf, segment: Seq<char>) -> PathBuf;

/// The path that `PathBuf::from` of the standard library makes of a text.
pub uninterp spec fn path_of(text: Seq<char>) -> PathBuf;

/// `needle` lies in `haystack` as a contiguous run of characters. The empty
/// text lies in every text.
pub open spec fn text_contains(haystack: Seq<char>, needle: Seq<char>) -> bool {
    exists|i: int|
        0 <= i && i + needle.len() <= haystack.len() && #[trigger] haystack.subrange(
            i,
            i + needle.len(),
        ) == needle
}

/// The view of a text that may be absent.
pub open spec fn text_view(text: Option<&str>) -> Option<Seq<char>> {
    match text {
        Some(t) => Some(t@),
        None => None,
    }
}

/// A path of the file system, as the standard library holds it. The library
/// hands such values on and joins segments to them; it never looks inside.
#[verifier::external_type_specification]
#[verifier::external_body]
pub struct ExPathBuf(std::path::PathBuf);

/// `str::to_lowercase`: the result is the lower-case form of the text.
#[verifier::external_body]
pub(crate) fn to_lowercase(text: &str) -> (r: String)
    ensures
        r@ == lowercase_of(text@),
{
    text.to_lowercase()
}

/// `str::contains` with a text as the pattern: the result says whether the
/// pattern matches a part of the text.
#[verifier::external_body]
pub(crate) fn str_contains(haystack: &str, needle: &str) -> (r: bool)
    ensures
        r == text_contains(haystack@, needle@),
{
    haystack.contains(needle)
}

/// `str::replace` with a text as the pattern: the result is the text with
/// every match replaced.
#[verifier::external_body]
pub(crate) fn str_replace(text: &str, from: &str, to: &str) -> (r: String)
    ensures
        r@ == replaced(text@, from@, to@),
{
    text.replace(from, to)
}

/// `Path::join`: the result is the path with the segment joined to it.
#[verifier::external_body]
pub(crate) fn join_path(base: &PathBuf, segment: &str) -> (r: PathBuf)
    ensures
        r == joined_path(*base, segment@),
{
    base.join(segment)
}

/// `PathBuf::from`: the result is the path that the text spells.
#[verifier::external_body]
pub(crate) fn path_from(text: &str) -> (r: PathBuf)
    ensures
        r == path_of(text@),
{
    PathBuf::from(text)
}

/// `Clone::clone` of a path: the copy is the same path.
pub assume_specification[ <PathBuf as Clone>::clone ](path: &PathBuf) -> (r: PathBuf)
    ensures
        r == *path,
;

} // verus!
