//! File-system paths, taken apart by `std::path::Path`.
//!
//! How a path splits into components is the standard library's business
//! (and depends on the platform the library is built for); its answers are
//! named below and the library's contracts speak through those names.
use vstd::prelude::*;

verus! {

/// What `Path::parent` gives for a path: the path without its final
/// component, or `None` when it has none.
pub uninterp spec fn path_parent(path: Seq<char>) -> Option<Seq<char>>;

/// What `Path::file_name` gives for a path: its final component, or `None`
/// when it ends in `..` or has none.
pub uninterp spec fn path_file_name(path: Seq<char>) -> Option<Seq<char>>;

/// What `Path::file_stem` gives for a path: the file name without its
/// extension, or `None` when there is no file name.
pub uninterp spec fn path_file_stem(path: Seq<char>) -> Option<Seq<char>>;

/// What `Path::join` gives: `name` adjoined to `base` (or `name` alone when
/// it is absolute).
pub uninterp spec fn path_join(base: Seq<char>, name: Seq<char>) -> Seq<char>;

/// The index of the last `.` in a file name, or -1 when it has none.
pub open spec fn last_dot(name: Seq<char>) -> int
    decreases name.len(),
{
    if name.len() == 0 {
        -1
    } else if name.last() == '.' {
        name.len() - 1
    } else {
        last_dot(name.drop_last())
    }
}

/// The stem of a file name as `Path::file_stem` documents it: the whole
/// name when it has no `.`, or when its only `.` is the first character;
/// otherwise the part before the last `.`.
pub open spec fn stem_of_file_name(name: Seq<char>) -> Seq<char> {
    if last_dot(name) <= 0 {
        name
    } else {
        name.take(last_dot(name))
    }
}

/// `Path::parent`. Beyond the name, it states what the documentation says
/// of the shape of the result: the parent is the path with its final
/// component taken off, so it is a strictly shorter prefix of the path.
#[verifier::external_body]
pub fn parent_of(path: &str) -> (r: Option<String>)
    ensures
        r matches Some(p) ==> path_parent(path@) == Some(p@),
        r is None ==> path_parent(path@) is None,
        r matches Some(p) ==> p@.len() < path@.len() && p@ == path@.take(p@.len() as int),
{
    match std::path::Path::new(path).parent() {
        Some(p) => Some(p.to_string_lossy().into_owned()),
        None => None,
    }
}

/// `Path::file_name`.
#[verifier::external_body]
pub fn file_name_of(path: &str) -> (r: Option<String>)
    ensures
        r matches Some(n) ==> path_file_name(path@) == Some(n@),
        r is None ==> path_file_name(path@) is None,
{
    match std::path::Path::new(path).file_name() {
        Some(n) => Some(n.to_string_lossy().into_owned()),
        None => None,
    }
}

/// `Path::file_stem`. Beyond the name, it states what the documentation
/// says of the stem: there is one exactly when there is a file name, and it
/// is `stem_of_file_name` of that name.
#[verifier::external_body]
pub fn file_stem_of(path: &str) -> (r: Option<String>)
    ensures
        r matches Some(n) ==> path_file_stem(path@) == Some(n@),
        r is None ==> path_file_stem(path@) is None,
        r is Some <==> path_file_name(path@) is Some,
        r matches Some(n) ==> n@ == stem_of_file_name(path_file_name(path@)->0),
{
    match std::path::Path::new(path).file_stem() {
        Some(n) => Some(n.to_string_lossy().into_owned()),
        None => None,
    }
}

/// `Path::join`.
#[verifier::external_body]
pub fn join_path(base: &str, name: &str) -> (r: String)
    ensures
        r@ == path_join(base@, name@),
{
    std::path::Path::new(base).join(name).to_string_lossy().into_owned()
}

} // verus!
