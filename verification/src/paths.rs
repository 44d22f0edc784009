//! Paths are held as text. What a path means (its separators, its last
//! component, whether it is absolute) is left to `std::path`, for the platform
//! that the library is built for.

use vstd::prelude::*;

verus! {

/// The path that `std::path::Path::join` makes of `base` and `part`.
pub uninterp spec fn joined_path(base: Seq<char>, part: Seq<char>) -> Seq<char>;

/// The last component of `path` as `std::path::Path::file_name` gives it, or
/// `None` where the path has none.
pub uninterp spec fn file_name_of(path: Seq<char>) -> Option<Seq<char>>;

/// The path without its last component as `std::path::Path::parent` gives it,
/// or `None` where the path ends in a root or is empty.
pub uninterp spec fn parent_of(path: Seq<char>) -> Option<Seq<char>>;

/// Whether `std::path::Path::is_absolute` holds of `path`.
pub uninterp spec fn is_absolute_path(path: Seq<char>) -> bool;

/// The path that `std::path::Path::with_file_name` makes of `path` and `name`.
pub uninterp spec fn path_with_file_name(path: Seq<char>, name: Seq<char>) -> Seq<char>;

/// The text that the `Debug` formatting of `std::path::Path` writes for `path`.
pub uninterp spec fn path_debug_text(path: Seq<char>) -> Seq<char>;

/// Calls `std::path::Path::join`. The contract only names the result: it is
/// the path that std computes from the two texts.
#[verifier::external_body]
pub(crate) fn join(base: &str, part: &str) -> (r: String)
    ensures
        r@ == joined_path(base@, part@),
{
    std::path::Path::new(base).join(part).to_string_lossy().into_owned()
}

/// Calls `std::path::Path::file_name`. The contract only names the result.
#[verifier::external_body]
pub(crate) fn file_name(path: &str) -> (r: Option<String>)
    ensures
        r is Some == file_name_of(path@) is Some,
        r is Some ==> r->0@ == file_name_of(path@)->0,
{
    std::path::Path::new(path).file_name().map(|n| n.to_string_lossy().into_owned())
}

/// Calls `std::path::Path::parent`. The contract only names the result.
#[verifier::external_body]
pub(crate) fn parent(path: &str) -> (r: Option<String>)
    ensures
        r is Some == parent_of(path@) is Some,
        r is Some ==> r->0@ == parent_of(path@)->0,
{
    std::path::Path::new(path).parent().map(|p| p.to_string_lossy().into_owned())
}

/// Calls `std::path::Path::is_absolute`. The contract only names the result.
#[verifier::external_body]
pub(crate) fn is_absolute(path: &str) -> (r: bool)
    ensures
        r == is_absolute_path(path@),
{
    std::path::Path::new(path).is_absolute()
}

/// Calls `std::path::Path::with_file_name`. The contract only names the
/// result.
#[verifier::external_body]
pub(crate) fn with_file_name(path: &str, name: &str) -> (r: String)
    ensures
        r@ == path_with_file_name(path@, name@),
{
    std::path::Path::new(path).with_file_name(name).to_string_lossy().into_owned()
}

/// Hands out `std::path::MAIN_SEPARATOR_STR`, the separator of path
/// components on the platform that the library is built for. Which text that
/// is depends on the platform, so nothing is claimed of it.
#[verifier::external_body]
pub(crate) fn main_separator() -> (r: String) {
    std::path::MAIN_SEPARATOR_STR.to_owned()
}

/// Formats `path` as `std::path::Path` with `{:?}`. The contract only names
/// the result.
#[verifier::external_body]
pub(crate) fn debug_text(path: &str) -> (r: String)
    ensures
        r@ == path_debug_text(path@),
{
    format!("{:?}", std::path::Path::new(path))
}

/// Calls `std::path::Path::exists`. Whether a file is there depends on the
/// disk, so nothing is claimed of the answer.
#[verifier::external_body]
pub(crate) fn is_present(path: &str) -> (r: bool) {
    std::path::Path::new(path).exists()
}

} // verus!
