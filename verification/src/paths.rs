//! File-system paths as text.
//!
//! Paths are held as strings. Joining and splitting them is the standard
//! library's work; whether a path names a directory is the disk's to say.

use vstd::prelude::*;
use std::path::Path;
use crate::text::str_eq;

verus! {

/// `base` with `rel` pushed onto it, as `Path::join` does it where `/`
/// parts paths: `rel` itself where it is absolute, and else `base`, a
/// separator where `base` does not end in one, and `rel`.
pub open spec fn path_join(base: Seq<char>, rel: Seq<char>) -> Seq<char> {
    if rel.len() > 0 && rel[0] == '/' {
        rel
    } else if base.len() == 0 || base.last() == '/' {
        base + rel
    } else {
        base + seq!['/'] + rel
    }
}

/// The components of `path`, in order, as `Path::components` gives them.
pub uninterp spec fn path_components(path: Seq<char>) -> Seq<Seq<char>>;

/// Whether `base` is a prefix of `path`, component by component.
pub uninterp spec fn path_starts_with(path: Seq<char>, base: Seq<char>) -> bool;

/// How to get from the directory `from` to `to`, where that can be said
/// without knowing the disk.
pub uninterp spec fn path_difference(to: Seq<char>, from: Seq<char>) -> Option<Seq<char>>;

/// `Path::join` on a system where `/` parts paths. Both parts are text, and
/// so is the result.
#[verifier::external_body]
pub(crate) fn join(base: &str, rel: &str) -> (joined: String)
    ensures
        joined@ == path_join(base@, rel@),
{
    Path::new(base).join(rel).to_string_lossy().into_owned()
}

/// `Path::components`, each component as text. The parent directory comes
/// out as `..`.
#[verifier::external_body]
pub(crate) fn components(path: &str) -> (parts: Vec<String>)
    ensures
        parts.deep_view() == path_components(path@),
{
    Path::new(path).components().map(|c| c.as_os_str().to_string_lossy().into_owned()).collect()
}

/// `Path::starts_with`.
#[verifier::external_body]
pub(crate) fn starts_with(path: &str, base: &str) -> (inside: bool)
    ensures
        inside == path_starts_with(path@, base@),
{
    Path::new(path).starts_with(base)
}

/// `Path::is_dir`: asks the disk whether `path` names a directory now.
#[verifier::external_body]
pub(crate) fn is_dir(path: &str) -> (found: bool)
{
    Path::new(path).is_dir()
}

/// `pathdiff::diff_paths`, with the result as text.
#[verifier::external_body]
pub(crate) fn difference(to: &str, from: &str) -> (diff: Option<String>)
    ensures
        diff.deep_view() == path_difference(to@, from@),
{
    pathdiff::diff_paths(to, from).map(|p| p.to_string_lossy().into_owned())
}

/// Whether `parts` holds the parent directory `..`.
pub open spec fn has_parent_dir(parts: Seq<Seq<char>>) -> bool {
    parts.contains(".."@)
}

/// Whether a component of `path` is the parent directory.
pub fn uses_parent_dir(path: &str) -> (found: bool)
    ensures
        found == has_parent_dir(path_components(path@)),
{
    let parts = components(path);
    let mut i: usize = 0;
    while i < parts.len()
        invariant
            i <= parts.len(),
            parts.deep_view() == path_components(path@),
            forall|k: int| 0 <= k < i ==> path_components(path@)[k] != ".."@,
        decreases parts.len() - i,
    {
        assert(parts.deep_view()[i as int] == parts[i as int]@);
        if str_eq(parts[i].as_str(), "..") {
            return true;
        }
        i += 1;
    }
    false
}

/// Why two paths have no relative form.
#[derive(Debug)]
pub enum PathError {
    /// There is no way from the one to the other that holds without the disk.
    NoRelativeForm,
}

/// The path from the directory `from` to `to`.
pub fn to_relative(from: &str, to: &str) -> (result: Result<String, PathError>)
    ensures
        path_difference(to@, from@) matches Some(diff) ==> (result matches Ok(path) && path@ == diff),
        path_difference(to@, from@) is None ==> (result matches Err(PathError::NoRelativeForm)),
{
    match difference(to, from) {
        Some(diff) => Ok(diff),
        None => Err(PathError::NoRelativeForm),
    }
}

} // verus!
