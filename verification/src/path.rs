//! File system paths as text, and the two operations on them that are left
//! to the standard library.
//!
//! Nothing here touches the file system. A path is held as a `String`; what
//! the standard library makes of it has a name in specifications, and the
//! two functions below are trusted to return what their names stand for.

use vstd::prelude::*;

verus! {

/// The text of the path that `std::path::Path::join` gives for `base` and
/// `path` on the platform the crate is built for.
pub uninterp spec fn joined_path(base: Seq<char>, path: Seq<char>) -> Seq<char>;

/// The extension that `std::path::Path::extension` gives for `path`, if it
/// gives one.
pub uninterp spec fn extension_of(path: Seq<char>) -> Option<Seq<char>>;

/// Calls `std::path::Path::join`. Trusted: the text of the joined path is
/// the one that [`joined_path`] stands for.
#[verifier::external_body]
pub(crate) fn join_path(base: &str, path: &str) -> (joined: String)
    ensures
        joined@ == joined_path(base@, path@),
{
    std::path::Path::new(base).join(path).to_string_lossy().into_owned()
}

/// Calls `std::path::Path::extension`. Trusted: the result is the one that
/// [`extension_of`] stands for.
#[verifier::external_body]
pub(crate) fn path_extension(path: &str) -> (extension: Option<String>)
    ensures
        match extension {
            Some(text) => extension_of(path@) == Some(text@),
            None => extension_of(path@) is None,
        },
{
    std::path::Path::new(path).extension().map(|text| text.to_string_lossy().into_owned())
}

} // verus!
