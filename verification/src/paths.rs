//! Paths as text. What a path means is decided by `std::path`, by the path
//! syntax of the platform the crate is built for.

use crate::text::optional;
use vstd::prelude::*;

verus! {

/// What `std::path::Path::file_name` returns for a path, as text.
pub uninterp spec fn path_file_name(path: Seq<char>) -> Option<Seq<char>>;

/// `std::path::Path::file_name`: the last component of the path, if it is
/// a file or directory name, by the path syntax of the platform the crate
/// is built for.
#[verifier::external_body]
pub(crate) fn file_name(path: &str) -> (out: Option<String>)
    ensures
        optional(out) == path_file_name(path@),
{
    std::path::Path::new(path).file_name().map(|name| name.to_string_lossy().into_owned())
}

/// What `std::path::Path::file_stem` returns for a path, as text.
pub uninterp spec fn path_file_stem(path: Seq<char>) -> Option<Seq<char>>;

/// What `std::path::Path::extension` returns for a path, as text.
pub uninterp spec fn path_extension(path: Seq<char>) -> Option<Seq<char>>;

/// What `std::path::Path::is_absolute` returns for a path.
pub uninterp spec fn path_is_absolute(path: Seq<char>) -> bool;

/// What `std::path::Path::join` returns for a base and a path, as text.
pub uninterp spec fn path_joined(base: Seq<char>, path: Seq<char>) -> Seq<char>;

/// `std::path::Path::file_stem`: the file name without its extension, by
/// the path syntax of the platform the crate is built for. None where the
/// path has no file name.
#[verifier::external_body]
pub(crate) fn file_stem(path: &str) -> (out: Option<String>)
    ensures
        optional(out) == path_file_stem(path@),
{
    std::path::Path::new(path).file_stem().map(|stem| stem.to_string_lossy().into_owned())
}

/// `std::path::Path::extension`: what follows the last dot of the file
/// name, by the path syntax of the platform the crate is built for.
#[verifier::external_body]
pub(crate) fn extension(path: &str) -> (out: Option<String>)
    ensures
        optional(out) == path_extension(path@),
{
    std::path::Path::new(path).extension().map(|ext| ext.to_string_lossy().into_owned())
}

/// `std::path::Path::is_absolute`: whether the path is independent of the
/// current directory, by the path syntax of the platform the crate is built
/// for.
#[verifier::external_body]
pub(crate) fn is_absolute(path: &str) -> (out: bool)
    ensures
        out == path_is_absolute(path@),
{
    std::path::Path::new(path).is_absolute()
}

/// `std::path::Path::join`: `path` adjoined to `base`, by the path syntax of
/// the platform the crate is built for.
#[verifier::external_body]
pub(crate) fn join_paths(base: &str, path: &str) -> (out: String)
    ensures
        out@ == path_joined(base@, path@),
{
    std::path::Path::new(base).join(path).to_string_lossy().into_owned()
}

} // verus!
