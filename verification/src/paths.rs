//! Paths of the file system, as far as they are put together and looked at, never
//! followed.

use std::path::PathBuf;
use vstd::prelude::*;

verus! {

#[verifier::external_type_specification]
#[verifier::external_body]
pub struct ExPathBuf(PathBuf);

/// The path that the given text names.
pub uninterp spec fn path_of(text: Seq<char>) -> PathBuf;

/// `base` with `child` adjoined.
pub uninterp spec fn path_join(base: PathBuf, child: Seq<char>) -> PathBuf;

/// Whether the last components of `path` are those of `child`.
pub uninterp spec fn path_ends_with(path: PathBuf, child: Seq<char>) -> bool;

/// `path` without its last component, where it has one to lose.
pub uninterp spec fn path_parent(path: PathBuf) -> Option<PathBuf>;

/// The path that a text names.
///
/// Trusted: `PathBuf::from` makes a path of a string slice. The contract only gives the
/// outcome its name.
#[verifier::external_body]
pub(crate) fn path_from(text: &str) -> (r: PathBuf)
    ensures
        r == path_of(text@),
{
    PathBuf::from(text)
}

/// A path with another adjoined.
///
/// Trusted: `Path::join` adjoins `child` to `base`. The contract only gives the outcome
/// its name.
#[verifier::external_body]
pub(crate) fn join(base: &PathBuf, child: &str) -> (r: PathBuf)
    ensures
        r == path_join(*base, child@),
{
    base.join(child)
}

/// Whether a path ends with the components of another.
///
/// Trusted: `Path::ends_with` compares whole components. The contract only gives the
/// outcome its name.
#[verifier::external_body]
pub(crate) fn ends_with(path: &PathBuf, child: &str) -> (r: bool)
    ensures
        r == path_ends_with(*path, child@),
{
    path.ends_with(child)
}

/// The parent of a path.
///
/// Trusted: `Path::parent` gives the path without its last component, or nothing for a
/// path that ends in a root or is empty. The contract only gives the outcome its name.
#[verifier::external_body]
pub(crate) fn parent(path: &PathBuf) -> (r: Option<PathBuf>)
    ensures
        r == path_parent(*path),
{
    path.parent().map(|p| p.to_path_buf())
}

/// A path equal to the given one.
///
/// Trusted: the clone of a `PathBuf` is the same path.
#[verifier::external_body]
pub(crate) fn same(path: &PathBuf) -> (r: PathBuf)
    ensures
        r == *path,
{
    path.clone()
}

/// The text by which a path is shown.
pub uninterp spec fn path_text(path: PathBuf) -> Seq<char>;

/// The text by which a path is shown.
///
/// Trusted: `Path::display` gives a path a form that can be written out. The contract
/// only gives the outcome its name.
#[verifier::external_body]
pub(crate) fn display(path: &PathBuf) -> (r: String)
    ensures
        r@ == path_text(*path),
{
    format!("{}", path.display())
}

} // verus!
