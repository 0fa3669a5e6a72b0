//! Paths as text, joined and split by the standard library.

use vstd::prelude::*;

verus! {

/// The path that `std::path::PathBuf::push` leaves when `name` is pushed onto
/// `base`.
pub uninterp spec fn path_join(base: Seq<char>, name: Seq<char>) -> Seq<char>;

/// What `std::path::Path::parent` gives for `path`: the path without its last
/// component, or `None` where it ends in a root or is empty.
pub uninterp spec fn path_parent(path: Seq<char>) -> Option<Seq<char>>;

/// `std::path::PathBuf::push`, on a copy of `base`, with both paths held as
/// text. The result is named, not described: `path_join`.
#[verifier::external_body]
pub(crate) fn join(base: &str, name: &str) -> (out: String)
    ensures
        out@ == path_join(base@, name@),
{
    let mut path = std::path::PathBuf::from(base);
    path.push(name);
    path.to_string_lossy().into_owned()
}

/// `std::path::Path::parent`, with both paths held as text. The result is
/// named, not described: `path_parent`.
#[verifier::external_body]
pub(crate) fn parent(path: &str) -> (out: Option<String>)
    ensures
        out matches Some(p) ==> path_parent(path@) == Some(p@),
        out is None ==> path_parent(path@) is None,
{
    match std::path::Path::new(path).parent() {
        Some(p) => Some(p.to_string_lossy().into_owned()),
        None => None,
    }
}

} // verus!
