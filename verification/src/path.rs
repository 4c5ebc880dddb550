//! Paths, and the two calls that produce them outside this crate.

use std::path::PathBuf;
use vstd::prelude::*;

verus! {

/// `std::path::PathBuf`, carried through as it is: nothing in this crate
/// looks inside a path.
#[verifier::external_type_specification]
#[verifier::external_body]
pub struct ExPathBuf(PathBuf);

/// The path that `std::path::Path::join` gives for a base path and a
/// fragment. Nothing else is said of it here: how the two are put together
/// is the standard library's business and differs between systems.
pub uninterp spec fn joined(base: PathBuf, fragment: Seq<char>) -> PathBuf;

/// `dirs::home_dir`: the current user's home directory, or `None` where the
/// system knows of none. The result depends on `HOME` and on the user
/// database, so nothing is claimed of it.
pub assume_specification[ dirs::home_dir ]() -> (home: Option<PathBuf>);

/// `std::path::Path::join`, with a string as the path to adjoin. On one
/// system the result is a function of the base and of the fragment, which
/// is all that the contract says: `joined` stands for it.
#[verifier::external_body]
pub(crate) fn join(base: &PathBuf, fragment: &str) -> (path: PathBuf)
    ensures
        path == joined(*base, fragment@),
{
    base.join(fragment)
}

} // verus!
