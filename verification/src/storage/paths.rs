//! Path text operations, as the standard library performs them.
//!
//! Paths are carried as text throughout the library. The few operations the
//! storage layer needs on them are the standard library's own, called here
//! and named so that contracts can speak of their results.

use vstd::prelude::*;

verus! {

/// Text of `base` joined with `name` by `Path::join`.
pub uninterp spec fn path_join(base: Seq<char>, name: Seq<char>) -> Seq<char>;

/// Final component of `path` as `Path::file_name` reports it.
pub uninterp spec fn path_file_name(path: Seq<char>) -> Option<Seq<char>>;

/// Text of `path` with its final component replaced by `name`, as
/// `Path::with_file_name` builds it.
pub uninterp spec fn path_with_file_name(path: Seq<char>, name: Seq<char>) -> Seq<char>;

/// `s` without leading and trailing whitespace, as `str::trim` returns it.
pub uninterp spec fn trimmed(s: Seq<char>) -> Seq<char>;

/// `std::path::Path::join`: `base` with `name` appended as a component.
/// Claimed: the text of the result is `path_join(base, name)`, a function of
/// the two texts alone.
#[verifier::external_body]
pub(crate) fn join_path(base: &str, name: &str) -> (r: String)
    ensures
        r@ == path_join(base@, name@),
{
    std::path::Path::new(base).join(name).to_string_lossy().into_owned()
}

/// `std::path::Path::file_name`: the final component, if it is a normal
/// one. Claimed: the result is `path_file_name(path)`, a function of the text
/// alone.
#[verifier::external_body]
pub(crate) fn file_name_of(path: &str) -> (r: Option<String>)
    ensures
        match r {
            Some(n) => path_file_name(path@) == Some(n@),
            None => path_file_name(path@) is None,
        },
{
    std::path::Path::new(path).file_name().map(|n| n.to_string_lossy().into_owned())
}

/// `std::path::Path::with_file_name`: the same path with another final
/// component. Claimed: the text of the result is
/// `path_with_file_name(path, name)`, a function of the two texts alone.
#[verifier::external_body]
pub(crate) fn with_file_name(path: &str, name: &str) -> (r: String)
    ensures
        r@ == path_with_file_name(path@, name@),
{
    std::path::Path::new(path).with_file_name(name).to_string_lossy().into_owned()
}

/// `str::trim`: `s` without leading and trailing whitespace. Claimed: the
/// result is `trimmed(s)`, a function of the text alone. What counts as
/// whitespace (Unicode `White_Space`) is left unsaid.
#[verifier::external_body]
pub(crate) fn trim_text(s: &str) -> (r: &str)
    ensures
        r@ == trimmed(s@),
{
    s.trim()
}

} // verus!
