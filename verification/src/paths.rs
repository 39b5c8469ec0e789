//! File-system paths, composed and taken apart by `std::path`.
//!
//! Path syntax belongs to the platform the library is built for, so the
//! library does not spell it out: each operation of `std::path::Path` that the
//! catalog needs is made through one function here, and its result is known to
//! the proofs only by name.

use std::path::Path;
use vstd::prelude::*;

verus! {

/// The text of `Path::new(base).join(rel)`: `rel` placed under `base` by the
/// path rules of the platform.
pub uninterp spec fn joined_path(base: Seq<char>, rel: Seq<char>) -> Seq<char>;

/// The text of `Path::new(path).file_name()`: the last component of `path`,
/// where it has one.
pub uninterp spec fn base_name(path: Seq<char>) -> Option<Seq<char>>;

/// Calls `std::path::Path::join`.
///
/// Trusted: the result is `joined_path` of the two texts. Both arguments are
/// UTF-8, so the joined path is UTF-8 as well and converts to a `String`
/// without loss.
#[verifier::external_body]
pub(crate) fn path_join(base: &str, rel: &str) -> (joined: String)
    ensures
        joined@ == joined_path(base@, rel@),
{
    Path::new(base).join(rel).to_string_lossy().into_owned()
}

/// Calls `std::path::Path::file_name`.
///
/// Trusted: the result is `base_name` of the text, `None` where the path has
/// no last component (it is empty, a root, or ends in `..`).
#[verifier::external_body]
pub(crate) fn path_file_name(path: &str) -> (name: Option<String>)
    ensures
        name.deep_view() == base_name(path@),
{
    match Path::new(path).file_name() {
        Some(name) => Some(name.to_string_lossy().into_owned()),
        None => None,
    }
}

} // verus!
