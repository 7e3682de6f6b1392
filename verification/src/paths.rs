//! Paths, held as text. Joining a path and taking its parent are left to the
//! standard library, which knows the platform's separators.

use std::path::Path;
use vstd::prelude::*;

verus! {

/// The path that `std::path::Path::join` makes of `base` and `name` on the
/// platform that the library is built for.
pub uninterp spec fn joined(base: Seq<char>, name: Seq<char>) -> Seq<char>;

/// The path that `std::path::Path::parent` gives for `path` on the platform
/// that the library is built for: `path` without its last component, or
/// nothing where it has none to lose.
pub uninterp spec fn parent_of(path: Seq<char>) -> Option<Seq<char>>;

/// Calls `std::path::Path::join`. Believed, not proved: the result is the
/// joined path, under its name `joined`.
#[verifier::external_body]
pub(crate) fn join(base: &str, name: &str) -> (path: String)
    ensures
        path@ == joined(base@, name@),
{
    Path::new(base).join(name).to_string_lossy().into_owned()
}

/// Calls `std::path::Path::parent`. Believed, not proved: the result is the
/// parent, under its name `parent_of`, and a parent is shorter than the path
/// that it is the parent of, which has one component more.
#[verifier::external_body]
pub(crate) fn parent(path: &str) -> (up: Option<String>)
    ensures
        match up {
            Some(above) => parent_of(path@) == Some(above@) && above@.len() < path@.len(),
            None => parent_of(path@) is None,
        },
{
    Path::new(path).parent().and_then(Path::to_str).map(str::to_owned)
}

} // verus!
