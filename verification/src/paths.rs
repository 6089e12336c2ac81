//! Paths, as the standard library reads them. Both operations are taken on
//! trust; the library only carries their results.

use crate::text::optional_text;
use vstd::prelude::*;

verus! {

/// The final component of `path`, as `Path::file_name` of the standard
/// library gives it; `None` where the path has none.
pub uninterp spec fn file_name_of(path: Seq<char>) -> Option<Seq<char>>;

/// `base` extended by `name`, as `Path::join` of the standard library gives
/// it.
pub uninterp spec fn path_join(base: Seq<char>, name: Seq<char>) -> Seq<char>;

/// Calls `Path::file_name`. Trusted: the result is named [`file_name_of`], a
/// function of the path alone; nothing more is claimed of it.
#[verifier::external_body]
pub(crate) fn file_name(path: &str) -> (name: Option<String>)
    ensures
        optional_text(name) == file_name_of(path@),
{
    match std::path::Path::new(path).file_name() {
        Some(name) => Some(name.to_string_lossy().into_owned()),
        None => None,
    }
}

/// Calls `Path::join`. Trusted: the result is named [`path_join`], a function
/// of the two texts alone; nothing more is claimed of it.
#[verifier::external_body]
pub(crate) fn join(base: &str, name: &str) -> (path: String)
    ensures
        path@ == path_join(base@, name@),
{
    std::path::Path::new(base).join(name).to_string_lossy().into_owned()
}

} // verus!
