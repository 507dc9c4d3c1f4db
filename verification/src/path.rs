//! The operations of `std::path` that configuration paths go through.
//!
//! Nothing in this module is proved. What counts as absolute, how two paths
//! are joined, where an extension begins and what separates components is the
//! business of the platform's path rules; each operation gets a name for what it returns,
//! and a contract that says no more than that the call returns what the
//! name stands for.

use vstd::prelude::*;

verus! {

#[verifier::external_type_specification]
#[verifier::external_body]
pub struct ExPathBuf(std::path::PathBuf);

#[verifier::external_type_specification]
#[verifier::external_body]
pub struct ExPath(std::path::Path);

/// The path that `PathBuf::from` makes of a string.
pub uninterp spec fn path_of(text: Seq<char>) -> std::path::PathBuf;

/// What `Path::is_absolute` returns: whether the path stands on its own, whatever the
/// current directory is.
pub uninterp spec fn path_is_absolute(path: std::path::PathBuf) -> bool;

/// The path that `Path::join` makes of a root and a string.
pub uninterp spec fn path_join(root: &std::path::Path, text: Seq<char>) -> std::path::PathBuf;

/// What `Path::extension` returns: the part of the file name after its last dot, where
/// the path has a file name with such a part. It is handed on as a path of its own.
pub uninterp spec fn path_extension(path: &std::path::PathBuf) -> Option<&std::path::Path>;

/// What `Path::to_str` returns: the path as text, where it is valid Unicode.
pub uninterp spec fn path_text(path: &std::path::Path) -> Option<Seq<char>>;

/// What `std::path::is_separator` returns: whether the platform takes the character for
/// a separator of path components.
pub uninterp spec fn path_is_separator(c: char) -> bool;

/// Calls `std::path::is_separator`. The contract only gives the answer its name.
#[verifier::external_body]
pub(crate) fn is_separator(c: char) -> (separator: bool)
    ensures
        separator == path_is_separator(c),
{
    std::path::is_separator(c)
}

/// Calls `PathBuf::from` on a string slice, which copies the string into a new path. The
/// contract only gives the path its name.
#[verifier::external_body]
pub(crate) fn path_from(text: &str) -> (path: std::path::PathBuf)
    ensures
        path == path_of(text@),
{
    std::path::PathBuf::from(text)
}

/// Calls `Path::is_absolute` on an owned path. The contract only gives the answer its
/// name.
#[verifier::external_body]
pub(crate) fn is_absolute(path: &std::path::PathBuf) -> (absolute: bool)
    ensures
        absolute == path_is_absolute(*path),
{
    path.is_absolute()
}

/// Calls `Path::join` with a string slice, which makes a new path of `root` extended by
/// `text`. The contract only gives the path its name.
#[verifier::external_body]
pub(crate) fn join(root: &std::path::Path, text: &str) -> (path: std::path::PathBuf)
    ensures
        path == path_join(root, text@),
{
    root.join(text)
}

/// Calls `Path::extension` on an owned path and hands the extension on as a `Path`, which
/// borrows the same bytes. The contract only gives the result its name.
#[verifier::external_body]
pub(crate) fn extension<'a>(path: &'a std::path::PathBuf) -> (ext: Option<&'a std::path::Path>)
    ensures
        ext == path_extension(path),
{
    path.extension().map(std::path::Path::new)
}

/// Calls `Path::to_str`, which yields the path as a string slice where it is valid
/// Unicode and nothing otherwise. The contract only gives the result its name.
#[verifier::external_body]
pub(crate) fn to_str<'a>(path: &'a std::path::Path) -> (text: Option<&'a str>)
    ensures
        match text {
            Some(t) => path_text(path) == Some(t@),
            None => path_text(path) is None,
        },
{
    path.to_str()
}

} // verus!
