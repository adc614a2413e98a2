//! Paths as text, judged by the rules of the platform.
//!
//! What makes a path relative, and how one path is taken from another,
//! differs between platforms. Both questions are put to `std::path`, which
//! answers by the rules of the platform this library was built for, from the
//! text of the paths alone: nothing on disk is looked at.

use vstd::prelude::*;

verus! {

/// Whether `std::path::Path::is_relative` holds of the path written as
/// `path`.
pub uninterp spec fn path_is_relative(path: Seq<char>) -> bool;

/// The path that `std::path::Path::join` gives for `base` and `path`, as
/// text.
pub uninterp spec fn path_joined(base: Seq<char>, path: Seq<char>) -> Seq<char>;

/// Whether a path is relative. Wraps `std::path::Path::is_relative`.
#[verifier::external_body]
pub(crate) fn is_relative(path: &str) -> (relative: bool)
    ensures
        relative == path_is_relative(path@),
{
    std::path::Path::new(path).is_relative()
}

/// A path taken from a base. Wraps `std::path::Path::join`: a relative
/// `path` goes behind `base`, an absolute one stands for itself.
#[verifier::external_body]
pub(crate) fn join(base: &str, path: &str) -> (joined: String)
    ensures
        joined@ == path_joined(base@, path@),
{
    std::path::Path::new(base).join(path).to_string_lossy().into_owned()
}

/// The path that a change of directory aims at: `path` itself where it is
/// not relative, and otherwise `path` taken from the current directory.
pub open spec fn target_of(current: Seq<char>, path: Seq<char>) -> Seq<char> {
    if path_is_relative(path) {
        path_joined(current, path)
    } else {
        path
    }
}

/// The path that a change of directory to `path` aims at when the current
/// directory is `current`.
pub fn resolve_target(current: &str, path: String) -> (target: String)
    ensures
        target@ == target_of(current@, path@),
{
    if is_relative(path.as_str()) {
        join(current, path.as_str())
    } else {
        path
    }
}

} // verus!
